//! Properties of the clocks over sequences of calls and hardware events.
use vstd::prelude::*;
use crate::clock::{
    ClockState, fresh, epoch_len, OVERFLOW_WATCH_CMP, OVERFLOW_WATCH_SCALE,
};
use crate::clock32::wrap_ge;

verus! {

/// What may happen to a clock between two observations.
pub enum ClockEvent {
    /// A call of `now()`.
    Poll,
    /// The hardware shows new counter words (`load_counter`).
    Count { lo: u32, hi: u16 },
}

/// The state after `e`, by the contracts of `now` and `load_counter`.
pub open spec fn step(s: ClockState, e: ClockEvent) -> ClockState {
    match e {
        ClockEvent::Poll => s.fixed(),
        ClockEvent::Count { lo, hi } => s.with_counter(lo, hi),
    }
}

/// The values that the polls among `evs` return, in order.
pub open spec fn readings(s: ClockState, evs: Seq<ClockEvent>) -> Seq<int>
    decreases evs.len(),
{
    if evs.len() == 0 {
        Seq::empty()
    } else {
        let head = match evs[0] {
            ClockEvent::Poll => seq![s.ticks()],
            ClockEvent::Count { .. } => Seq::empty(),
        };
        head + readings(step(s, evs[0]), evs.drop_first())
    }
}

/// Every counter event of `evs` keeps the accumulator in range and moves the
/// counter forward, never back.
pub open spec fn counts_forward(s: ClockState, evs: Seq<ClockEvent>) -> bool
    decreases evs.len(),
{
    if evs.len() == 0 {
        true
    } else {
        let n = step(s, evs[0]);
        n.wf() && n.ticks() >= s.ticks() && counts_forward(n, evs.drop_first())
    }
}

proof fn lemma_readings_from(s: ClockState, evs: Seq<ClockEvent>)
    requires
        s.wf(),
        counts_forward(s, evs),
    ensures
        forall|i: int| 0 <= i < readings(s, evs).len() ==> readings(s, evs)[i] >= s.ticks(),
        forall|i: int, j: int|
            0 <= i < j < readings(s, evs).len() ==> readings(s, evs)[i] <= readings(
                s,
                evs,
            )[j],
    decreases evs.len(),
{
    if evs.len() > 0 {
        let n = step(s, evs[0]);
        let rest = evs.drop_first();
        lemma_readings_from(n, rest);
        let head = match evs[0] {
            ClockEvent::Poll => seq![s.ticks()],
            ClockEvent::Count { .. } => Seq::<int>::empty(),
        };
        assert(readings(s, evs) == head + readings(n, rest));
        assert(n.ticks() >= s.ticks());
    }
}

/// Monotonicity: whatever polls and forward counter events follow one
/// another, each value that `now()` returns is at least the one before it.
pub proof fn lemma_now_monotonic(s: ClockState, evs: Seq<ClockEvent>)
    requires
        s.wf(),
        counts_forward(s, evs),
    ensures
        forall|i: int, j: int|
            0 <= i < j < readings(s, evs).len() ==> readings(s, evs)[i] <= readings(
                s,
                evs,
            )[j],
{
    lemma_readings_from(s, evs);
}

/// A wrap of the low word from its top value to zero, with the high word set
/// once, advances the logical ticks by exactly one; the fix-up counts it into
/// the accumulator once, and polling again counts nothing more.
pub proof fn lemma_wrap_counted_once(s: ClockState)
    requires
        s.wf(),
        s.rtc.hi == 0,
        s.rtc.lo == u32::MAX,
        s.overflow < u32::MAX,
    ensures
        s.with_counter(0, 1).ticks() == s.ticks() + 1,
        s.with_counter(0, 1).fixed().overflow == s.overflow + 1,
        s.with_counter(0, 1).fixed().ticks() == s.ticks() + 1,
        s.with_counter(0, 1).fixed().fixed() == s.with_counter(0, 1).fixed(),
{
}

/// The overflow fix-up is idempotent: a second run with no hardware change
/// in between leaves the state, the accumulator with it, as the first left it.
pub proof fn lemma_fix_overflow_idempotent(s: ClockState)
    ensures
        s.fixed().fixed() == s.fixed(),
{
}

/// In the 32-bit clock, a target below the current low word by at most half
/// the counter's range counts as already passed: the wraparound watch is
/// armed and the target is not written.
pub proof fn lemma_behind_low_word_waits(s: ClockState, instant: u32)
    requires
        instant < s.fixed().rtc.lo,
        s.fixed().rtc.lo - instant <= 0x8000_0000,
    ensures
        !wrap_ge(instant, s.fixed().rtc.lo),
        s.compare_set32(instant) == s.fixed().watching_overflow(),
        s.compare_set32(instant).rtc.scale == OVERFLOW_WATCH_SCALE,
        s.compare_set32(instant).rtc.cmp == OVERFLOW_WATCH_CMP,
{
}

/// After a reset, `now()` reads the zero instant, and any deadline request
/// leaves the clock as it would leave a freshly constructed one (counting on
/// or off as before).
pub proof fn lemma_reset_is_fresh(s: ClockState, instant: u64)
    ensures
        s.after_reset().wf(),
        s.after_reset().ticks() == 0,
        s.after_reset().compare_set(instant) == fresh().with_enabled(
            s.rtc.enabled,
        ).compare_set(instant),
{
    assert(s.after_reset().ticks() == 0 * epoch_len() + 0);
}

} // verus!
