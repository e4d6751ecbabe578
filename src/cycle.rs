use vstd::arithmetic::div_mod::{
    lemma_fundamental_div_mod, lemma_fundamental_div_mod_converse, lemma_mod_add_multiples_vanish,
};
use vstd::prelude::*;

verus! {

/// One of the three fixed cycles.
#[derive(Clone, Copy, Debug, PartialEq, Eq, Structural)]
pub enum Cycle {
    Physical,
    Emotional,
    Intellectual,
}

/// Length of a cycle, in days.
pub open spec fn period_of(c: Cycle) -> int {
    match c {
        Cycle::Physical => 23,
        Cycle::Emotional => 28,
        Cycle::Intellectual => 33,
    }
}

/// One-letter label of a cycle.
pub open spec fn letter_of(c: Cycle) -> char {
    match c {
        Cycle::Physical => 'P',
        Cycle::Emotional => 'E',
        Cycle::Intellectual => 'I',
    }
}

impl Cycle {
    pub fn period(&self) -> (r: i64)
        ensures
            r == period_of(*self),
    {
        match self {
            Cycle::Physical => 23,
            Cycle::Emotional => 28,
            Cycle::Intellectual => 33,
        }
    }

    pub fn letter(&self) -> (r: char)
        ensures
            r == letter_of(*self),
    {
        match self {
            Cycle::Physical => 'P',
            Cycle::Emotional => 'E',
            Cycle::Intellectual => 'I',
        }
    }
}

/// Sign of a cycle value.
#[derive(Clone, Copy, Debug, PartialEq, Eq, Structural)]
pub enum Sign {
    Negative,
    Zero,
    Positive,
}

/// Whole days into the current cycle: `elapsed` modulo `period`, in `[0, period)`.
pub open spec fn phase(elapsed: int, period: int) -> int {
    elapsed % period
}

/// Exact sign of `sin(2π · elapsed / period)` for a whole number of days:
/// zero at the start and at the exact middle of a cycle, positive in the
/// first half and negative in the second.
pub open spec fn sign_at(elapsed: int, period: int) -> Sign {
    let k = phase(elapsed, period);
    if k == 0 || 2 * k == period {
        Sign::Zero
    } else if 2 * k < period {
        Sign::Positive
    } else {
        Sign::Negative
    }
}

/// The crossing rule: `(now >= 0 && prev < 0) || (now <= 0 && prev > 0)`.
pub open spec fn crossing_rule(now: Sign, prev: Sign) -> bool {
    (now != Sign::Negative && prev == Sign::Negative) || (now != Sign::Positive && prev
        == Sign::Positive)
}

/// Whether cycle `c` crosses zero between day `elapsed - 1` and day `elapsed`.
pub open spec fn crosses_at(c: Cycle, elapsed: int) -> bool {
    crossing_rule(sign_at(elapsed, period_of(c)), sign_at(elapsed - 1, period_of(c)))
}

/// The cycles that cross zero on day `elapsed`, in the order P, E, I.
pub open spec fn crossing_list(elapsed: int) -> Seq<Cycle> {
    let s0: Seq<Cycle> = if crosses_at(Cycle::Physical, elapsed) {
        seq![Cycle::Physical]
    } else {
        seq![]
    };
    let s1 = if crosses_at(Cycle::Emotional, elapsed) {
        s0.push(Cycle::Emotional)
    } else {
        s0
    };
    if crosses_at(Cycle::Intellectual, elapsed) {
        s1.push(Cycle::Intellectual)
    } else {
        s1
    }
}

/// Whole days into the current cycle, in `[0, period)`.
pub fn cycle_phase(elapsed: i64, period: i64) -> (r: i64)
    requires
        period > 0,
    ensures
        r == phase(elapsed as int, period as int),
        0 <= r < period,
{
    match elapsed.checked_rem_euclid(period) {
        Some(r) => r,
        None => 0,
    }
}

/// Exact sign of the cycle value on day `elapsed`.
pub fn cycle_sign(elapsed: i64, period: i64) -> (r: Sign)
    requires
        period > 0,
    ensures
        r == sign_at(elapsed as int, period as int),
{
    let k = cycle_phase(elapsed, period);
    if k == 0 || k == period - k {
        Sign::Zero
    } else if k < period - k {
        Sign::Positive
    } else {
        Sign::Negative
    }
}

/// Applies the crossing rule to today's and yesterday's signs.
pub fn is_crossing(now: Sign, prev: Sign) -> (r: bool)
    ensures
        r == crossing_rule(now, prev),
{
    match (now, prev) {
        (Sign::Zero, Sign::Negative) | (Sign::Positive, Sign::Negative) => true,
        (Sign::Zero, Sign::Positive) | (Sign::Negative, Sign::Positive) => true,
        _ => false,
    }
}

/// Whether cycle `c` crosses zero between day `elapsed - 1` and day `elapsed`.
pub fn crosses(c: Cycle, elapsed: i64) -> (r: bool)
    requires
        elapsed > i64::MIN,
    ensures
        r == crosses_at(c, elapsed as int),
{
    let p = c.period();
    is_crossing(cycle_sign(elapsed, p), cycle_sign(elapsed - 1, p))
}

/// The cycles that cross zero on day `elapsed`, in the order P, E, I.
pub fn crossing_cycles(elapsed: i64) -> (r: Vec<Cycle>)
    requires
        elapsed > i64::MIN,
    ensures
        r@ == crossing_list(elapsed as int),
{
    let mut r: Vec<Cycle> = Vec::new();
    if crosses(Cycle::Physical, elapsed) {
        r.push(Cycle::Physical);
    }
    if crosses(Cycle::Emotional, elapsed) {
        r.push(Cycle::Emotional);
    }
    if crosses(Cycle::Intellectual, elapsed) {
        r.push(Cycle::Intellectual);
    }
    r
}

/// Phase of the previous day: one less, wrapping from 0 to `period - 1`.
pub proof fn lemma_prev_phase(elapsed: int, period: int)
    requires
        period > 0,
    ensures
        phase(elapsed - 1, period) == if phase(elapsed, period) == 0 {
            period - 1
        } else {
            phase(elapsed, period) - 1
        },
{
    lemma_fundamental_div_mod(elapsed, period);
    let q = elapsed / period;
    let k = elapsed % period;
    assert(elapsed == q * period + k) by (nonlinear_arith)
        requires
            elapsed == period * q + k,
    ;
    if k == 0 {
        assert(elapsed - 1 == (q - 1) * period + (period - 1)) by (nonlinear_arith)
            requires
                elapsed == q * period + k,
                k == 0,
        ;
        lemma_fundamental_div_mod_converse(elapsed - 1, period, q - 1, period - 1);
    } else {
        lemma_fundamental_div_mod_converse(elapsed - 1, period, q, k - 1);
    }
}

/// Every cycle repeats after one period: the same phase, the same sign and
/// the same crossings.
pub proof fn lemma_cycle_periodic(c: Cycle, elapsed: int)
    ensures
        phase(elapsed + period_of(c), period_of(c)) == phase(elapsed, period_of(c)),
        sign_at(elapsed + period_of(c), period_of(c)) == sign_at(elapsed, period_of(c)),
        crosses_at(c, elapsed + period_of(c)) == crosses_at(c, elapsed),
{
    let p = period_of(c);
    lemma_mod_add_multiples_vanish(elapsed, p);
    lemma_mod_add_multiples_vanish(elapsed - 1, p);
    assert(elapsed + p - 1 == p + (elapsed - 1));
}

/// A value that reaches exactly zero from either side is a crossing; a day
/// whose previous value is exactly zero never is.
pub proof fn lemma_zero_touch_crossing(now: Sign)
    ensures
        crossing_rule(Sign::Zero, Sign::Negative),
        crossing_rule(Sign::Zero, Sign::Positive),
        crossing_rule(Sign::Positive, Sign::Negative),
        crossing_rule(Sign::Negative, Sign::Positive),
        !crossing_rule(now, Sign::Zero),
        !crossing_rule(now, now),
{
}

/// A cycle crosses zero exactly on the first day of each period and on the
/// day its value reaches or passes the middle of the period.
pub proof fn lemma_crossing_days(c: Cycle, elapsed: int)
    ensures
        crosses_at(c, elapsed) == (phase(elapsed, period_of(c)) == 0 || phase(
            elapsed,
            period_of(c),
        ) == (period_of(c) + 1) / 2),
{
    lemma_prev_phase(elapsed, period_of(c));
}

} // verus!
