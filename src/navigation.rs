use vstd::arithmetic::div_mod::{
    lemma_div_denominator, lemma_div_multiples_vanish, lemma_fundamental_div_mod,
    lemma_fundamental_div_mod_converse,
};
use vstd::prelude::*;

verus! {

/// Earliest day offset: about 125 years back.
pub const MIN_OFFSET: i32 = -45830;

/// Latest day offset: about 100 years ahead.
pub const MAX_OFFSET: i32 = 36525;

/// Least time between two rolling steps, in nanoseconds (60 ms).
pub const ROLL_INTERVAL_NS: u64 = 60_000_000;

/// `v` brought into `[MIN_OFFSET, MAX_OFFSET]`.
pub open spec fn clamp_spec(v: int) -> int {
    if v < MIN_OFFSET {
        MIN_OFFSET as int
    } else if v > MAX_OFFSET {
        MAX_OFFSET as int
    } else {
        v
    }
}

/// Brings an offset into `[MIN_OFFSET, MAX_OFFSET]`.
pub fn clamp_offset(v: i64) -> (r: i32)
    ensures
        r == clamp_spec(v as int),
{
    if v < MIN_OFFSET as i64 {
        MIN_OFFSET
    } else if v > MAX_OFFSET as i64 {
        MAX_OFFSET
    } else {
        v as i32
    }
}

/// A change to the navigation state.
#[derive(Clone, Copy, Debug, PartialEq, Eq, Structural)]
pub enum NavEvent {
    /// Set the offset to a value (slider, jump to a listed day).
    SetOffset(i32),
    /// Move the offset by a number of days (week buttons).
    Shift(i32),
    /// Back to today.
    Reset,
    /// A step control was pressed: roll in direction `dir` from time `now`.
    StartRolling(i32, u64),
    /// A frame tick at time `now`, in nanoseconds.
    Tick(u64),
    /// The pointer button was released.
    Release,
    /// A wheel event whose vertical delta has the sign of the value
    /// (positive, zero or negative).
    Wheel(i32),
}

/// Day offset, rolling direction and the time of the last rolling step.
#[derive(Clone, Copy, Debug, PartialEq, Eq, Structural)]
pub struct Navigator {
    pub offset: i32,
    pub rolling: Option<i32>,
    pub last_tick: u64,
}

/// Offset after one wheel event with a delta of sign `sign`: a positive delta
/// moves one day back, any other one day ahead.
pub open spec fn wheel_offset(offset: int, sign: int) -> int {
    clamp_spec(if sign > 0 {
        offset - 1
    } else {
        offset + 1
    })
}

/// Whether a tick at `now` is due for a rolling step.
pub open spec fn tick_due(n: Navigator, now: int) -> bool {
    n.rolling is Some && now >= n.last_tick && now - n.last_tick >= ROLL_INTERVAL_NS
}

/// State after one frame tick at `now`.
pub open spec fn tick_spec(n: Navigator, now: u64) -> Navigator {
    if tick_due(n, now as int) {
        Navigator {
            offset: clamp_spec(n.offset + n.rolling->Some_0) as i32,
            rolling: n.rolling,
            last_tick: now,
        }
    } else {
        n
    }
}

/// State after one event.
pub open spec fn step_spec(n: Navigator, ev: NavEvent) -> Navigator {
    match ev {
        NavEvent::SetOffset(v) => Navigator { offset: clamp_spec(v as int) as i32, ..n },
        NavEvent::Shift(d) => Navigator { offset: clamp_spec(n.offset + d) as i32, ..n },
        NavEvent::Reset => Navigator { offset: 0, ..n },
        NavEvent::StartRolling(dir, now) => Navigator {
            offset: n.offset,
            rolling: Some(dir),
            last_tick: now,
        },
        NavEvent::Tick(now) => tick_spec(n, now),
        NavEvent::Release => Navigator { rolling: None, ..n },
        NavEvent::Wheel(sign) => Navigator {
            offset: wheel_offset(n.offset as int, sign as int) as i32,
            ..n
        },
    }
}

/// State after a sequence of events, applied in order.
pub open spec fn run_spec(n: Navigator, evs: Seq<NavEvent>) -> Navigator
    decreases evs.len(),
{
    if evs.len() == 0 {
        n
    } else {
        step_spec(run_spec(n, evs.drop_last()), evs.last())
    }
}

/// Whether an event changes what the chart shows.
pub open spec fn moves_view(ev: NavEvent, before: Navigator) -> bool {
    match ev {
        NavEvent::SetOffset(_) | NavEvent::Shift(_) | NavEvent::Reset | NavEvent::Wheel(_) => true,
        NavEvent::Tick(now) => tick_due(before, now as int),
        _ => false,
    }
}

impl Navigator {
    pub open spec fn new_spec() -> Navigator {
        Navigator { offset: 0, rolling: None, last_tick: 0 }
    }

    /// The offset lies in `[MIN_OFFSET, MAX_OFFSET]`.
    pub open spec fn wf(&self) -> bool {
        MIN_OFFSET <= self.offset <= MAX_OFFSET
    }

    /// Offset 0, not rolling.
    pub fn new() -> (r: Navigator)
        ensures
            r.wf(),
            r == Navigator::new_spec(),
    {
        Navigator { offset: 0, rolling: None, last_tick: 0 }
    }

    /// Whether the frame-tick driver must run: exactly while rolling.
    pub fn is_rolling(&self) -> (r: bool)
        ensures
            r == self.rolling is Some,
    {
        self.rolling.is_some()
    }

    /// Sets the offset, clamped into range.
    pub fn set_offset(&mut self, v: i32)
        ensures
            *final(self) == step_spec(*old(self), NavEvent::SetOffset(v)),
            final(self).wf(),
    {
        self.offset = clamp_offset(v as i64);
    }

    /// Moves the offset by `delta` days, clamped into range.
    pub fn shift(&mut self, delta: i32)
        ensures
            *final(self) == step_spec(*old(self), NavEvent::Shift(delta)),
            final(self).wf(),
    {
        self.offset = clamp_offset(self.offset as i64 + delta as i64);
    }

    /// Back to offset 0.
    pub fn reset(&mut self)
        ensures
            *final(self) == step_spec(*old(self), NavEvent::Reset),
            final(self).wf(),
    {
        self.offset = 0;
    }

    /// Starts rolling in direction `dir`, with `now` as the last step time.
    pub fn start_rolling(&mut self, dir: i32, now: u64)
        ensures
            *final(self) == step_spec(*old(self), NavEvent::StartRolling(dir, now)),
    {
        self.rolling = Some(dir);
        self.last_tick = now;
    }

    /// Stops rolling, wherever the release happened.
    pub fn release(&mut self)
        ensures
            *final(self) == step_spec(*old(self), NavEvent::Release),
    {
        self.rolling = None;
    }

    /// A wheel event: a positive delta moves one day back, any other one day
    /// ahead, clamped at the ends of the range.
    pub fn wheel(&mut self, sign: i32)
        ensures
            *final(self) == step_spec(*old(self), NavEvent::Wheel(sign)),
            final(self).offset == wheel_offset(old(self).offset as int, sign as int),
            old(self).wf() && sign > 0 && old(self).offset > MIN_OFFSET ==> final(self).offset
                == old(self).offset - 1,
            old(self).wf() && sign > 0 && old(self).offset == MIN_OFFSET ==> final(self).offset
                == MIN_OFFSET,
            final(self).wf(),
    {
        let delta: i64 = if sign > 0 {
            -1
        } else {
            1
        };
        self.offset = clamp_offset(self.offset as i64 + delta);
    }

    /// A frame tick at `now`: while rolling, one step in the rolling direction
    /// once at least `ROLL_INTERVAL_NS` have passed since the last step.
    /// Returns whether the offset was stepped.
    pub fn tick(&mut self, now: u64) -> (moved: bool)
        requires
            old(self).wf(),
        ensures
            *final(self) == tick_spec(*old(self), now),
            moved == tick_due(*old(self), now as int),
            final(self).wf(),
    {
        match self.rolling {
            Some(dir) => {
                if now >= self.last_tick && now - self.last_tick >= ROLL_INTERVAL_NS {
                    self.offset = clamp_offset(self.offset as i64 + dir as i64);
                    self.last_tick = now;
                    true
                } else {
                    false
                }
            },
            None => false,
        }
    }

    /// Applies one event. Returns whether the view moved, so that the chart
    /// must be drawn again.
    pub fn apply(&mut self, ev: NavEvent) -> (moved: bool)
        requires
            old(self).wf(),
        ensures
            *final(self) == step_spec(*old(self), ev),
            moved == moves_view(ev, *old(self)),
            final(self).wf(),
    {
        match ev {
            NavEvent::SetOffset(v) => {
                self.set_offset(v);
                true
            },
            NavEvent::Shift(d) => {
                self.shift(d);
                true
            },
            NavEvent::Reset => {
                self.reset();
                true
            },
            NavEvent::StartRolling(dir, now) => {
                self.start_rolling(dir, now);
                false
            },
            NavEvent::Tick(now) => self.tick(now),
            NavEvent::Release => {
                self.release();
                false
            },
            NavEvent::Wheel(sign) => {
                self.wheel(sign);
                true
            },
        }
    }
}

/// Every event keeps the offset in `[MIN_OFFSET, MAX_OFFSET]`.
pub proof fn lemma_step_in_range(n: Navigator, ev: NavEvent)
    requires
        n.wf(),
    ensures
        step_spec(n, ev).wf(),
{
}

/// Whatever sequence of events is applied, the offset stays in
/// `[MIN_OFFSET, MAX_OFFSET]`.
pub proof fn lemma_offset_always_in_range(n: Navigator, evs: Seq<NavEvent>)
    requires
        n.wf(),
    ensures
        run_spec(n, evs).wf(),
    decreases evs.len(),
{
    if evs.len() > 0 {
        lemma_offset_always_in_range(n, evs.drop_last());
        lemma_step_in_range(run_spec(n, evs.drop_last()), evs.last());
    }
}

/// State after `m` frame ticks, the `j`-th of them at time `start + j * period`.
pub open spec fn run_ticks(n: Navigator, start: int, period: int, m: nat) -> Navigator
    decreases m,
{
    if m == 0 {
        n
    } else {
        tick_spec(run_ticks(n, start, period, (m - 1) as nat), (start + m * period) as u64)
    }
}

proof fn lemma_next_quotient(j: int, q: int)
    requires
        q > 0,
        j >= 0,
    ensures
        (j + 1) / q == if j % q == q - 1 {
            j / q + 1
        } else {
            j / q
        },
{
    lemma_fundamental_div_mod(j, q);
    let a = j / q;
    let b = j % q;
    assert(j == a * q + b) by (nonlinear_arith)
        requires
            j == q * a + b,
    ;
    if b == q - 1 {
        assert(j + 1 == (a + 1) * q + 0) by (nonlinear_arith)
            requires
                j == a * q + b,
                b == q - 1,
        ;
        lemma_fundamental_div_mod_converse(j + 1, q, a + 1, 0);
    } else {
        lemma_fundamental_div_mod_converse(j + 1, q, a, b + 1);
    }
}

proof fn lemma_ticks_invariant(n: Navigator, period: int, q: int, j: int)
    requires
        n.wf(),
        n.rolling == Some(1i32),
        period > 0,
        q > 0,
        j >= 0,
        q * period == ROLL_INTERVAL_NS,
        n.last_tick + j * period <= u64::MAX,
        n.offset + j / q <= MAX_OFFSET,
    ensures
        run_ticks(n, n.last_tick as int, period, j as nat).offset == n.offset + j / q,
        run_ticks(n, n.last_tick as int, period, j as nat).last_tick == n.last_tick + (j / q)
            * ROLL_INTERVAL_NS,
        run_ticks(n, n.last_tick as int, period, j as nat).rolling == Some(1i32),
    decreases j,
{
    if j > 0 {
        let i = j - 1;
        let start = n.last_tick as int;
        assert(i * period <= j * period) by (nonlinear_arith)
            requires
                i <= j,
                period > 0,
        ;
        lemma_next_quotient(i, q);
        lemma_ticks_invariant(n, period, q, i);
        let prev = run_ticks(n, start, period, i as nat);
        let now = start + j * period;
        lemma_fundamental_div_mod(i, q);
        let a = i / q;
        let b = i % q;
        assert(now - prev.last_tick == period * (b + 1)) by (nonlinear_arith)
            requires
                i == q * a + b,
                j == i + 1,
                now == start + j * period,
                prev.last_tick == start + a * ROLL_INTERVAL_NS,
                q * period == ROLL_INTERVAL_NS,
        ;
        if b == q - 1 {
            assert(period * (b + 1) == ROLL_INTERVAL_NS) by (nonlinear_arith)
                requires
                    b == q - 1,
                    q * period == ROLL_INTERVAL_NS,
            ;
            assert(now == start + (j / q) * ROLL_INTERVAL_NS) by (nonlinear_arith)
                requires
                    now - (start + a * ROLL_INTERVAL_NS) == period * (b + 1),
                    period * (b + 1) == ROLL_INTERVAL_NS,
                    j / q == a + 1,
            ;
        } else {
            assert(period * (b + 1) < ROLL_INTERVAL_NS) by (nonlinear_arith)
                requires
                    b + 1 < q,
                    period > 0,
                    q * period == ROLL_INTERVAL_NS,
            ;
        }
    }
}

/// Rolling forward with a frame tick every `period` nanoseconds, where
/// `period` divides `ROLL_INTERVAL_NS`, steps the offset once per interval
/// whatever the tick rate: after `m` ticks, spanning `m * period`
/// nanoseconds, the offset has grown by exactly
/// `floor(m * period / ROLL_INTERVAL_NS)`, as long as no clamping happens.
/// Over `secs` seconds that is `floor(secs * 1000 / 60)` steps.
pub proof fn lemma_rolling_rate(n: Navigator, period: int, m: nat, secs: nat)
    requires
        n.wf(),
        n.rolling == Some(1i32),
        period > 0,
        (ROLL_INTERVAL_NS as int) % period == 0,
        n.last_tick + m * period <= u64::MAX,
        n.offset + (m * period) / (ROLL_INTERVAL_NS as int) <= MAX_OFFSET,
    ensures
        run_ticks(n, n.last_tick as int, period, m).offset == n.offset + (m * period) / (
        ROLL_INTERVAL_NS as int),
        m * period == secs * 1_000_000_000 ==> run_ticks(n, n.last_tick as int, period, m).offset
            == n.offset + (secs * 1000) / 60,
{
    let ni = ROLL_INTERVAL_NS as int;
    let q = ni / period;
    lemma_fundamental_div_mod(ni, period);
    assert(q * period == ni) by (nonlinear_arith)
        requires
            ni == period * q + ni % period,
            ni % period == 0,
    ;
    assert(q > 0) by (nonlinear_arith)
        requires
            q * period == ni,
            ni > 0,
            period > 0,
    ;
    lemma_fundamental_div_mod(m as int, q);
    let a = (m as int) / q;
    let b = (m as int) % q;
    assert(m * period == a * ni + b * period && 0 <= b * period < ni) by (nonlinear_arith)
        requires
            m == q * a + b,
            0 <= b < q,
            q * period == ni,
            period > 0,
    ;
    lemma_fundamental_div_mod_converse(m * period, ni, a, b * period);
    lemma_ticks_invariant(n, period, q, m as int);
    if m * period == secs * 1_000_000_000 {
        assert(secs * 1_000_000_000 == (secs * 1000) * 1_000_000);
        lemma_div_multiples_vanish(secs * 1000 as int, 1_000_000);
        lemma_div_denominator(secs * 1_000_000_000 as int, 1_000_000, 60);
        assert((secs * 1000) * 1_000_000 == 1_000_000 * (secs * 1000));
    }
}

} // verus!
