use vstd::prelude::*;

verus! {

/// `a / b` rounded toward zero, as Rust's `/` on `i64` computes it.
pub open spec fn div_toward_zero(a: int, b: int) -> int {
    if a >= 0 {
        a / b
    } else {
        -((-a) / b)
    }
}

/// When a periodic worker runs: the time in seconds is shifted by `shift` and
/// divided by `period`; the worker runs once whenever that quotient (its slot)
/// changes.
#[derive(Clone, Copy, Debug)]
pub struct Schedule {
    pub shift: i64,
    pub period: i64,
}

/// A schedule is usable when its period is positive.
pub open spec fn schedule_valid(s: Schedule) -> bool {
    s.period > 0
}

/// The slot that time `now` falls in.
pub open spec fn slot_of(s: Schedule, now: i64) -> int {
    div_toward_zero(now + s.shift, s.period as int)
}

/// The server status: every three minutes, thirty seconds after the boundary.
pub fn balbird_schedule() -> (s: Schedule)
    ensures
        s == (Schedule { shift: -30i64, period: 180 }),
{
    Schedule { shift: -30, period: 180 }
}

/// The room sensors: every three minutes, ten seconds after the boundary.
pub fn switchbot_schedule() -> (s: Schedule)
    ensures
        s == (Schedule { shift: -10i64, period: 180 }),
{
    Schedule { shift: -10, period: 180 }
}

/// The weather: every ten minutes, twenty seconds after the boundary.
pub fn openweather_schedule() -> (s: Schedule)
    ensures
        s == (Schedule { shift: -20i64, period: 600 }),
{
    Schedule { shift: -20, period: 600 }
}

/// The wallpaper: every five minutes, ten seconds before the boundary.
pub fn wallpaper_schedule() -> (s: Schedule)
    ensures
        s == (Schedule { shift: 10, period: 300 }),
{
    Schedule { shift: 10, period: 300 }
}

/// The clock tick: every second.
pub fn tick_schedule() -> (s: Schedule)
    ensures
        s == (Schedule { shift: 0, period: 1 }),
{
    Schedule { shift: 0, period: 1 }
}

/// The slot to run in at time `now` when the worker last ran in `last_slot`.
pub open spec fn poll_spec(s: Schedule, last_slot: i128, now: i64) -> Option<i128> {
    if slot_of(s, now) == last_slot {
        None
    } else {
        Some(slot_of(s, now) as i128)
    }
}

impl Schedule {
    /// The slot that time `now` falls in, computed in 128 bits so that no time
    /// and shift can overflow it.
    pub fn slot(&self, now: i64) -> (slot: i128)
        requires
            schedule_valid(*self),
        ensures
            slot == slot_of(*self, now),
    {
        proof {
            lemma_slot_fits(*self, now);
        }
        let a: i128 = now as i128 + self.shift as i128;
        let p: i128 = self.period as i128;
        a / p
    }

    /// On a timer tick at time `now`, with the worker last run in slot
    /// `last_slot`: the slot to run in now, or `None` when the worker already
    /// ran in this slot.
    pub fn poll(&self, last_slot: i128, now: i64) -> (run: Option<i128>)
        requires
            schedule_valid(*self),
        ensures
            run == poll_spec(*self, last_slot, now),
    {
        let slot = self.slot(now);
        if slot == last_slot {
            None
        } else {
            Some(slot)
        }
    }
}

/// The slot of a time is the shifted time divided by the period, rounded
/// toward zero: for a shifted time `a >= 0` it is the `k` with
/// `k * period <= a < (k + 1) * period`, and for `a < 0` the `k` with
/// `(k - 1) * period < a <= k * period`.
pub proof fn lemma_slot_bounds(s: Schedule, now: i64)
    requires
        schedule_valid(s),
    ensures
        now + s.shift >= 0 ==> slot_of(s, now) * s.period <= now + s.shift < (slot_of(s, now)
            + 1) * s.period,
        now + s.shift < 0 ==> (slot_of(s, now) - 1) * s.period < now + s.shift <= slot_of(s, now)
            * s.period,
{
    let a = now + s.shift;
    let p = s.period as int;
    if a >= 0 {
        assert((a / p) * p <= a < (a / p + 1) * p) by (nonlinear_arith)
            requires
                a >= 0,
                p > 0,
        ;
    } else {
        let b = -a;
        assert((b / p) * p <= b < (b / p + 1) * p) by (nonlinear_arith)
            requires
                b > 0,
                p > 0,
        ;
        assert((-(b / p) - 1) * p < a <= -(b / p) * p) by (nonlinear_arith)
            requires
                (b / p) * p <= b < (b / p + 1) * p,
                a == -b,
        ;
    }
}

/// A poll runs the worker exactly when the time has reached a slot other than
/// the one it last ran in, and then reports that slot.
pub proof fn lemma_poll_runs_in_new_slot(s: Schedule, last_slot: i128, now: i64)
    requires
        schedule_valid(s),
    ensures
        poll_spec(s, last_slot, now) is None <==> slot_of(s, now) == last_slot,
        poll_spec(s, last_slot, now) matches Some(k) ==> k == slot_of(s, now),
{
    lemma_slot_fits(s, now);
}

/// A worker runs at most once per slot: once it has run in the slot of `now`,
/// polling at any time in the same slot does not run it again, and polling at a
/// time in any other slot does.
pub proof fn lemma_poll_once_per_slot(s: Schedule, last_slot: i128, now: i64, later: i64)
    requires
        schedule_valid(s),
        poll_spec(s, last_slot, now) is Some,
    ensures
        slot_of(s, later) == slot_of(s, now) ==> poll_spec(
            s,
            poll_spec(s, last_slot, now).unwrap(),
            later,
        ) is None,
        slot_of(s, later) != slot_of(s, now) ==> poll_spec(
            s,
            poll_spec(s, last_slot, now).unwrap(),
            later,
        ) == Some(slot_of(s, later) as i128),
{
    lemma_slot_fits(s, now);
    lemma_slot_fits(s, later);
}

/// A slot always fits in an `i128`: it is no larger in size than the shifted
/// time.
pub proof fn lemma_slot_fits(s: Schedule, now: i64)
    requires
        schedule_valid(s),
    ensures
        now + s.shift >= 0 ==> 0 <= slot_of(s, now) <= now + s.shift,
        now + s.shift < 0 ==> now + s.shift <= slot_of(s, now) <= 0,
        i128::MIN <= slot_of(s, now) <= i128::MAX,
{
    let a = now + s.shift;
    let p = s.period as int;
    if a >= 0 {
        assert(0 <= a / p <= a) by (nonlinear_arith)
            requires
                a >= 0,
                p > 0,
        ;
    } else {
        assert(0 <= (-a) / p <= -a) by (nonlinear_arith)
            requires
                -a > 0,
                p > 0,
        ;
    }
}

/// Later times never fall in earlier slots.
pub proof fn lemma_slot_monotonic(s: Schedule, now: i64, later: i64)
    requires
        schedule_valid(s),
        now <= later,
    ensures
        slot_of(s, now) <= slot_of(s, later),
{
    let a = now + s.shift;
    let b = later + s.shift;
    let p = s.period as int;
    if a >= 0 {
        assert(a / p <= b / p) by (nonlinear_arith)
            requires
                0 <= a <= b,
                p > 0,
        ;
    } else if b >= 0 {
        assert(-((-a) / p) <= 0) by (nonlinear_arith)
            requires
                -a > 0,
                p > 0,
        ;
        assert(0 <= b / p) by (nonlinear_arith)
            requires
                b >= 0,
                p > 0,
        ;
    } else {
        assert((-b) / p <= (-a) / p) by (nonlinear_arith)
            requires
                0 < -b <= -a,
                p > 0,
        ;
    }
}

} // verus!
