use crate::cycle::{crossing_cycles, crossing_list, Cycle};
use vstd::prelude::*;

verus! {

/// Days scanned before the current offset.
pub const SCAN_BEFORE: i64 = 5;

/// Number of days scanned.
pub const SCAN_DAYS: i64 = 30;

/// A day on which at least one cycle crosses zero.
#[derive(Clone, Debug)]
pub struct CriticalDay {
    /// Offset of the day from today.
    pub offset: i64,
    /// Day number of the day.
    pub day: i64,
    /// The cycles that cross zero that day, in the order P, E, I.
    pub cycles: Vec<Cycle>,
}

/// How strongly a critical day is marked: by the number of cycles crossing.
#[derive(Clone, Copy, Debug, PartialEq, Eq, Structural)]
pub enum Emphasis {
    /// All three cycles cross.
    Strong,
    /// Two cycles cross.
    Medium,
    /// One cycle crosses.
    Neutral,
}

pub open spec fn emphasis_for(count: int) -> Emphasis {
    if count >= 3 {
        Emphasis::Strong
    } else if count == 2 {
        Emphasis::Medium
    } else {
        Emphasis::Neutral
    }
}

impl CriticalDay {
    pub open spec fn model(&self) -> (int, Seq<Cycle>) {
        (self.offset as int, self.cycles@)
    }

    /// The emphasis of this day in the list.
    pub fn emphasis(&self) -> (r: Emphasis)
        ensures
            r == emphasis_for(self.cycles@.len() as int),
    {
        let n = self.cycles.len();
        if n >= 3 {
            Emphasis::Strong
        } else if n == 2 {
            Emphasis::Medium
        } else {
            Emphasis::Neutral
        }
    }
}

/// Days from the reference day to the day at `offset` from `today`.
pub open spec fn elapsed_at(reference: int, today: int, offset: int) -> int {
    today + offset - reference
}

/// The critical days among the offsets `lo .. lo + count`, in ascending
/// order, each as its offset and the cycles that cross zero on it.
pub open spec fn critical_scan(reference: int, today: int, lo: int, count: nat) -> Seq<
    (int, Seq<Cycle>),
>
    decreases count,
{
    if count == 0 {
        seq![]
    } else {
        let prev = critical_scan(reference, today, lo, (count - 1) as nat);
        let o = lo + count - 1;
        let cs = crossing_list(elapsed_at(reference, today, o));
        if cs.len() > 0 {
            prev.push((o, cs))
        } else {
            prev
        }
    }
}

/// The critical days of the window `[offset - 5, offset + 25)`.
pub open spec fn critical_window(reference: int, today: int, offset: int) -> Seq<
    (int, Seq<Cycle>),
> {
    critical_scan(reference, today, offset - SCAN_BEFORE, SCAN_DAYS as nat)
}

/// A scan lists, in strictly ascending order, exactly the offsets of its
/// range on which some cycle crosses zero, each with its crossing cycles.
pub proof fn lemma_scan_exact(reference: int, today: int, lo: int, count: nat)
    ensures
        forall|k: int|
            0 <= k < critical_scan(reference, today, lo, count).len() ==> {
                let e = #[trigger] critical_scan(reference, today, lo, count)[k];
                &&& lo <= e.0 < lo + count
                &&& e.1 == crossing_list(elapsed_at(reference, today, e.0))
                &&& e.1.len() > 0
            },
        forall|i: int, j: int|
            0 <= i < j < critical_scan(reference, today, lo, count).len() ==> (
            #[trigger] critical_scan(reference, today, lo, count)[i]).0 < (
            #[trigger] critical_scan(reference, today, lo, count)[j]).0,
        forall|o: int|
            lo <= o < lo + count && #[trigger] crossing_list(elapsed_at(reference, today, o)).len()
                > 0 ==> exists|k: int|
                0 <= k < critical_scan(reference, today, lo, count).len() && (
                #[trigger] critical_scan(reference, today, lo, count)[k]).0 == o,
    decreases count,
{
    if count > 0 {
        let c1 = (count - 1) as nat;
        lemma_scan_exact(reference, today, lo, c1);
        let prev = critical_scan(reference, today, lo, c1);
        let s = critical_scan(reference, today, lo, count);
        let o = lo + count - 1;
        if crossing_list(elapsed_at(reference, today, o)).len() > 0 {
            assert(s[prev.len() as int].0 == o);
            assert forall|p: int|
                lo <= p < lo + count && #[trigger] crossing_list(
                    elapsed_at(reference, today, p),
                ).len() > 0 implies exists|k: int| 0 <= k < s.len() && (#[trigger] s[k]).0 == p by {
                if p < o {
                    let k = choose|k: int| 0 <= k < prev.len() && (#[trigger] prev[k]).0 == p;
                    assert(s[k] == prev[k]);
                } else {
                    assert(s[prev.len() as int].0 == p);
                }
            }
        } else {
            assert forall|p: int|
                lo <= p < lo + count && #[trigger] crossing_list(
                    elapsed_at(reference, today, p),
                ).len() > 0 implies exists|k: int| 0 <= k < s.len() && (#[trigger] s[k]).0 == p by {
                let k = choose|k: int| 0 <= k < prev.len() && (#[trigger] prev[k]).0 == p;
            }
        }
    }
}

/// The critical days of the window `[offset - 5, offset + 25)` of offsets from
/// `today`, with the cycles measured from the day number `reference`: in
/// ascending order of offset, exactly the days on which a cycle crosses zero.
pub fn critical_days(reference: i32, today: i32, offset: i32) -> (r: Vec<CriticalDay>)
    ensures
        r@.len() == critical_window(reference as int, today as int, offset as int).len(),
        forall|k: int|
            0 <= k < r@.len() ==> (#[trigger] r@[k]).model() == critical_window(
                reference as int,
                today as int,
                offset as int,
            )[k] && r@[k].day == today + r@[k].offset,
        forall|k: int|
            0 <= k < r@.len() ==> offset - SCAN_BEFORE <= (#[trigger] r@[k]).offset < offset
                - SCAN_BEFORE + SCAN_DAYS && r@[k].cycles@ == crossing_list(
                elapsed_at(reference as int, today as int, r@[k].offset as int),
            ) && r@[k].cycles@.len() > 0,
        forall|i: int, j: int|
            0 <= i < j < r@.len() ==> (#[trigger] r@[i]).offset < (#[trigger] r@[j]).offset,
        forall|o: int|
            offset - SCAN_BEFORE <= o < offset - SCAN_BEFORE + SCAN_DAYS && #[trigger] crossing_list(
                elapsed_at(reference as int, today as int, o),
            ).len() > 0 ==> exists|k: int| 0 <= k < r@.len() && (#[trigger] r@[k]).offset == o,
{
    let lo: i64 = offset as i64 - SCAN_BEFORE;
    let mut r: Vec<CriticalDay> = Vec::new();
    let mut i: i64 = 0;
    while i < SCAN_DAYS
        invariant
            0 <= i <= SCAN_DAYS,
            lo == offset - SCAN_BEFORE,
            r@.len() == critical_scan(reference as int, today as int, lo as int, i as nat).len(),
            forall|k: int|
                0 <= k < r@.len() ==> (#[trigger] r@[k]).model() == critical_scan(
                    reference as int,
                    today as int,
                    lo as int,
                    i as nat,
                )[k] && r@[k].day == today + r@[k].offset,
        decreases SCAN_DAYS - i,
    {
        let o = lo + i;
        let cs = crossing_cycles(today as i64 + o - reference as i64);
        if cs.len() > 0 {
            r.push(CriticalDay { offset: o, day: today as i64 + o, cycles: cs });
        }
        i = i + 1;
    }
    proof {
        let w = critical_window(reference as int, today as int, offset as int);
        lemma_scan_exact(reference as int, today as int, lo as int, SCAN_DAYS as nat);
        assert forall|i: int, j: int| 0 <= i < j < r@.len() implies (#[trigger] r@[i]).offset < (
        #[trigger] r@[j]).offset by {
            assert(w[i].0 < w[j].0);
        }
        assert forall|o: int|
            offset - SCAN_BEFORE <= o < offset - SCAN_BEFORE + SCAN_DAYS && #[trigger] crossing_list(
                elapsed_at(reference as int, today as int, o),
            ).len() > 0 implies exists|k: int| 0 <= k < r@.len() && (#[trigger] r@[k]).offset
            == o by {
            let k = choose|k: int| 0 <= k < w.len() && (#[trigger] w[k]).0 == o;
            assert(r@[k].model() == w[k]);
        }
        assert forall|k: int| 0 <= k < r@.len() implies offset - SCAN_BEFORE <= (
        #[trigger] r@[k]).offset < offset - SCAN_BEFORE + SCAN_DAYS && r@[k].cycles@
            == crossing_list(elapsed_at(reference as int, today as int, r@[k].offset as int))
            && r@[k].cycles@.len() > 0 by {
            assert(r@[k].model() == w[k]);
        }
    }
    r
}

} // verus!
