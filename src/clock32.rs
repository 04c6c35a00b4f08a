//! The 32-bit clock: the low word alone, for callers that accept wraparound
//! every 2^32 ticks.
use core::cmp::Ordering;
use vstd::prelude::*;
use crate::clock::{ClockState, MonoRtc64, fresh};
use crate::regs::{RtcRegs, RtcState};

verus! {

/// How far `a` lies ahead of `b` on the 32-bit circle.
pub open spec fn wrap_ahead(a: u32, b: u32) -> int {
    if a >= b {
        a - b
    } else {
        a - b + 0x1_0000_0000
    }
}

/// The wrapping order of 32-bit instants: `a` is at or after `b` when it lies
/// at most half the circle ahead of it.
pub open spec fn wrap_ge(a: u32, b: u32) -> bool {
    wrap_ahead(a, b) <= u32::MAX / 2
}

/// How two 32-bit instants compare when ticks may have wrapped around.
pub open spec fn wrap_order(a: u32, b: u32) -> Ordering {
    if a == b {
        Ordering::Equal
    } else if wrap_ahead(a, b) > u32::MAX / 2 {
        Ordering::Less
    } else if wrap_ahead(a, b) < u32::MAX / 2 {
        Ordering::Greater
    } else {
        Ordering::Equal
    }
}

/// Relies on fugit's `Instant::const_cmp` for 32-bit ticks: equal ticks are
/// equal; otherwise the wrapping difference `a - b` above half the range is
/// `Less`, below it `Greater`, at it `Equal`.
#[verifier::external_body]
fn instant_cmp(a: u32, b: u32) -> (r: Ordering)
    ensures
        r == wrap_order(a, b),
{
    fugit::TimerInstantU32::<32_768>::from_ticks(a).const_cmp(
        fugit::TimerInstantU32::<32_768>::from_ticks(b),
    )
}

/// `a >= b` in the wrapping order of 32-bit instants.
pub fn wrapping_at_or_after(a: u32, b: u32) -> (r: bool)
    ensures
        r == wrap_ge(a, b),
{
    match instant_cmp(a, b) {
        Ordering::Less => false,
        _ => true,
    }
}

impl ClockState {
    /// A 32-bit deadline request: a target at or after the low word (in the
    /// wrapping order) goes straight into the comparator at full rate; any
    /// other waits for the next wraparound.
    pub open spec fn compare_set32(self, instant: u32) -> ClockState {
        let f = self.fixed();
        if wrap_ge(instant, f.rtc.lo) {
            ClockState {
                rtc: RtcState { scale: crate::clock::FULL_RATE_SCALE, cmp: instant, ..f.rtc },
                ..f
            }
        } else {
            f.watching_overflow()
        }
    }
}

/// A 32-bit monotonic clock, wrapping every 2^32 ticks, over the 64-bit one.
pub struct MonoRtc32(MonoRtc64);

impl View for MonoRtc32 {
    type V = ClockState;

    closed spec fn view(&self) -> ClockState {
        self.0@
    }
}

impl MonoRtc32 {
    /// The backing interrupt may go off while no deadline is queued.
    pub const DISABLE_INTERRUPT_ON_EMPTY_QUEUE: bool = true;

    pub fn new(rtc: RtcRegs) -> (r: Self)
        ensures
            r@ == fresh(),
            r@.wf(),
    {
        MonoRtc32(MonoRtc64::new(rtc))
    }

    /// The low word after the overflow fix-up; the epoch is dropped.
    pub fn now(&mut self) -> (r: u32)
        requires
            old(self)@.wf(),
        ensures
            r == old(self)@.rtc.lo,
            r == old(self)@.ticks() % 0x1_0000_0000,
            final(self)@ == old(self)@.fixed(),
            final(self)@.wf(),
    {
        self.0.fix_overflow();
        let r = self.0.rtc().rtc_lo();
        proof {
            let s = old(self)@;
            assert((s.overflow + s.rtc.hi) * 0x1_0000_0000 + s.rtc.lo == s.ticks());
            vstd::arithmetic::div_mod::lemma_mod_multiples_vanish(
                s.overflow + s.rtc.hi,
                s.rtc.lo as int,
                0x1_0000_0000,
            );
            vstd::arithmetic::div_mod::lemma_small_mod(s.rtc.lo as nat, 0x1_0000_0000);
        }
        r
    }

    pub fn clear_compare_flag(&mut self)
        requires
            old(self)@.wf(),
        ensures
            final(self)@ == old(self)@.fixed().watching_overflow(),
            final(self)@.wf(),
    {
        self.0.clear_compare_flag();
    }

    pub fn disable_timer(&mut self)
        ensures
            final(self)@ == old(self)@.with_enabled(false),
    {
        self.0.disable_timer();
    }

    pub fn enable_timer(&mut self)
        ensures
            final(self)@ == old(self)@.with_enabled(true),
    {
        self.0.enable_timer();
    }

    pub fn on_interrupt(&mut self)
        requires
            old(self)@.wf(),
        ensures
            final(self)@ == old(self)@.fixed(),
            final(self)@.wf(),
    {
        self.0.on_interrupt();
    }

    /// As `MonoRtc64::reset`.
    pub fn reset(&mut self)
        ensures
            final(self)@ == old(self)@.after_reset(),
            final(self)@.wf(),
    {
        self.0.reset();
    }

    /// Requests an interrupt at `instant`. A target at or after `now()` in the
    /// wrapping order is written as the raw compare value at full rate, with
    /// no epoch reasoning; any other is taken as already passed, and the
    /// general wraparound watch is armed instead of a nearer reschedule.
    pub fn set_compare(&mut self, instant: u32)
        requires
            old(self)@.wf(),
        ensures
            final(self)@ == old(self)@.compare_set32(instant),
            final(self)@.wf(),
            final(self)@.overflow == old(self)@.fixed().overflow,
            final(self)@.rtc.lo == old(self)@.rtc.lo,
            wrap_ge(instant, old(self)@.rtc.lo) ==> final(self)@.rtc.scale
                == crate::clock::FULL_RATE_SCALE && final(self)@.rtc.cmp == instant,
            !wrap_ge(instant, old(self)@.rtc.lo) ==> final(self)@.rtc.scale
                == crate::clock::OVERFLOW_WATCH_SCALE && final(self)@.rtc.cmp
                == crate::clock::OVERFLOW_WATCH_CMP,
    {
        let now = self.now();
        if wrapping_at_or_after(instant, now) {
            self.0.program_compare(instant);
        } else {
            self.0.wait_for_overflow();
        }
    }

    /// The instant of tick zero.
    pub fn zero() -> (r: u32)
        ensures
            r == 0,
    {
        0
    }

    /// Takes in the counter words as the hardware now shows them.
    pub fn load_counter(&mut self, lo: u32, hi: u16)
        requires
            old(self)@.overflow + hi <= u32::MAX,
        ensures
            final(self)@ == old(self)@.with_counter(lo, hi),
            final(self)@.wf(),
    {
        self.0.load_counter(lo, hi);
    }

    /// The accumulated overflow count.
    pub fn overflow(&self) -> (r: u32)
        ensures
            r == self@.overflow,
    {
        self.0.overflow()
    }

    /// The peripheral's registers.
    pub fn rtc(&self) -> (r: &RtcRegs)
        ensures
            r@ == self@.rtc,
    {
        self.0.rtc()
    }
}

} // verus!
