//! The 64-bit clock: widens the 32-bit counter with an overflow accumulator
//! and programs the single comparator, directly within the current epoch or
//! by waking at the next wraparound beyond it.
use vstd::prelude::*;
use crate::regs::{RtcRegs, RtcState};

verus! {

/// Ticks in one epoch: one full turn of the 32-bit low word.
pub open spec fn epoch_len() -> int {
    0x1_0000_0000
}

/// Prescale that lets the comparator catch the next wraparound.
pub const OVERFLOW_WATCH_SCALE: u8 = 1;

/// Compare value that, at `OVERFLOW_WATCH_SCALE`, signals a wraparound.
pub const OVERFLOW_WATCH_CMP: u32 = 0x8000;

/// Prescale at which the comparator sees the low word itself.
pub const FULL_RATE_SCALE: u8 = 0;

/// The clock as plain values: the accumulated overflow count and the registers.
pub struct ClockState {
    pub overflow: u32,
    pub rtc: RtcState,
}

/// The state that construction leaves.
pub open spec fn fresh() -> ClockState {
    ClockState {
        overflow: 0,
        rtc: RtcState { lo: 0, hi: 0, cmp: 0, scale: FULL_RATE_SCALE, enabled: false },
    }
}

impl ClockState {
    /// The accumulator can take in what the high word holds.
    pub open spec fn wf(self) -> bool {
        self.overflow + self.rtc.hi <= u32::MAX
    }

    /// Logical ticks: accumulated epochs plus unacknowledged wraps, then the low word.
    pub open spec fn ticks(self) -> int {
        (self.overflow + self.rtc.hi) * epoch_len() + self.rtc.lo
    }

    /// After the overflow fix-up: a set high word moves into the accumulator.
    pub open spec fn fixed(self) -> ClockState {
        if self.rtc.hi > 0 {
            ClockState {
                overflow: (self.overflow + self.rtc.hi) as u32,
                rtc: RtcState { hi: 0, ..self.rtc },
            }
        } else {
            self
        }
    }

    /// The comparator armed to catch the next wraparound.
    pub open spec fn watching_overflow(self) -> ClockState {
        ClockState {
            rtc: RtcState { scale: OVERFLOW_WATCH_SCALE, cmp: OVERFLOW_WATCH_CMP, ..self.rtc },
            ..self
        }
    }

    /// The counter words as the hardware shows them.
    pub open spec fn with_counter(self, lo: u32, hi: u16) -> ClockState {
        ClockState { rtc: RtcState { lo, hi, ..self.rtc }, ..self }
    }

    /// Counting switched on or off.
    pub open spec fn with_enabled(self, enabled: bool) -> ClockState {
        ClockState { rtc: RtcState { enabled, ..self.rtc }, ..self }
    }

    /// A deadline request at `instant`: programmed directly when it lies in the
    /// current epoch, else left to the wraparound watch.
    pub open spec fn compare_set(self, instant: u64) -> ClockState {
        let f = self.fixed();
        if instant as int / epoch_len() > f.overflow {
            f.watching_overflow()
        } else {
            ClockState {
                rtc: RtcState {
                    scale: FULL_RATE_SCALE,
                    cmp: (instant as int % epoch_len()) as u32,
                    ..f.rtc
                },
                ..f
            }
        }
    }

    /// Counter and accumulator back to zero, the wraparound watch armed.
    pub open spec fn after_reset(self) -> ClockState {
        ClockState {
            overflow: 0,
            rtc: RtcState { lo: 0, hi: 0, ..self.rtc },
        }.watching_overflow()
    }
}

/// Ticks of `epoch` epochs and `lo` into the next one, as one 64-bit word.
proof fn lemma_widen(epoch: u32, lo: u32)
    ensures
        ((epoch as u64) << 32u64) | (lo as u64) == epoch * epoch_len() + lo,
{
    assert(((epoch as u64) << 32u64) | (lo as u64) == (epoch as u64) * 0x1_0000_0000u64
        + (lo as u64)) by (bit_vector);
    assert((epoch as u64) * 0x1_0000_0000u64 == epoch * epoch_len()) by (nonlinear_arith);
}

/// A monotonic 64-bit clock on the real-time clock peripheral, which it owns.
pub struct MonoRtc64 {
    overflow: u32,
    rtc: RtcRegs,
}

impl View for MonoRtc64 {
    type V = ClockState;

    closed spec fn view(&self) -> ClockState {
        ClockState { overflow: self.overflow, rtc: self.rtc@ }
    }
}

impl MonoRtc64 {
    /// The backing interrupt stays on with no deadline queued: it keeps the
    /// wraparound watch serviced.
    pub const DISABLE_INTERRUPT_ON_EMPTY_QUEUE: bool = false;

    /// Takes the peripheral: counting off, full rate, compare and counter zero.
    pub fn new(rtc: RtcRegs) -> (r: Self)
        ensures
            r@ == fresh(),
            r@.wf(),
    {
        let mut rtc = rtc;
        rtc.disable();
        rtc.set_scale(FULL_RATE_SCALE);
        rtc.set_rtccmp(0);
        rtc.set_rtc(0);
        MonoRtc64 { overflow: 0, rtc }
    }

    /// The high word, which the hardware sets on wraparound, is nonzero.
    pub fn is_overflow(&self) -> (r: bool)
        ensures
            r == (self@.rtc.hi > 0),
    {
        self.rtc.rtc_hi() > 0
    }

    /// Arms the comparator to catch the next wraparound.
    pub fn wait_for_overflow(&mut self)
        ensures
            final(self)@ == old(self)@.watching_overflow(),
    {
        self.rtc.set_scale(OVERFLOW_WATCH_SCALE);
        self.rtc.set_rtccmp(OVERFLOW_WATCH_CMP);
    }

    /// Adds a set high word into the accumulator and clears it. The
    /// accumulator only ever grows, and the logical ticks stay as they were.
    pub fn fix_overflow(&mut self)
        requires
            old(self)@.wf(),
        ensures
            final(self)@ == old(self)@.fixed(),
            final(self)@.wf(),
            final(self)@.ticks() == old(self)@.ticks(),
            final(self)@.overflow >= old(self)@.overflow,
    {
        if self.is_overflow() {
            self.overflow = self.overflow + self.rtc.rtc_hi();
            self.rtc.set_rtc_hi(0);
        }
    }

    /// The current logical instant in ticks, after the overflow fix-up.
    pub fn now(&mut self) -> (r: u64)
        requires
            old(self)@.wf(),
        ensures
            r == old(self)@.ticks(),
            final(self)@ == old(self)@.fixed(),
            final(self)@.wf(),
            final(self)@.ticks() == old(self)@.ticks(),
    {
        self.fix_overflow();
        let count: u64 = self.rtc.rtc_lo() as u64;
        proof {
            lemma_widen(self.overflow, self.rtc@.lo);
        }
        ((self.overflow as u64) << 32u64) | count
    }

    /// After a compare-caused wake: fix-up, then the wraparound watch again.
    pub fn clear_compare_flag(&mut self)
        requires
            old(self)@.wf(),
        ensures
            final(self)@ == old(self)@.fixed().watching_overflow(),
            final(self)@.wf(),
    {
        self.fix_overflow();
        self.wait_for_overflow();
    }

    pub fn disable_timer(&mut self)
        ensures
            final(self)@ == old(self)@.with_enabled(false),
    {
        self.rtc.disable();
    }

    pub fn enable_timer(&mut self)
        ensures
            final(self)@ == old(self)@.with_enabled(true),
    {
        self.rtc.enable();
    }

    /// Housekeeping at every timer interrupt: the fix-up alone.
    pub fn on_interrupt(&mut self)
        requires
            old(self)@.wf(),
        ensures
            final(self)@ == old(self)@.fixed(),
            final(self)@.wf(),
    {
        self.fix_overflow();
    }

    /// Counter and accumulator to zero, wraparound watch armed. Must not run
    /// while a compare is being evaluated.
    pub fn reset(&mut self)
        ensures
            final(self)@ == old(self)@.after_reset(),
            final(self)@.wf(),
    {
        self.rtc.set_rtc(0);
        self.clear_compare_flag();
        self.overflow = 0;
    }

    /// Requests an interrupt at `instant`, which must not lie before `now()`.
    /// Within the current epoch the comparator gets the low word of `instant`
    /// at full rate; beyond it the wraparound watch is armed instead.
    pub fn set_compare(&mut self, instant: u64)
        requires
            old(self)@.wf(),
            instant >= old(self)@.ticks(),
        ensures
            final(self)@ == old(self)@.compare_set(instant),
            final(self)@.wf(),
            final(self)@.overflow == old(self)@.fixed().overflow,
            instant as int / epoch_len() == final(self)@.overflow ==> final(self)@.rtc.scale
                == FULL_RATE_SCALE && final(self)@.rtc.cmp == instant as int % epoch_len(),
            instant as int / epoch_len() > final(self)@.overflow ==> final(self)@.rtc.scale
                == OVERFLOW_WATCH_SCALE && final(self)@.rtc.cmp == OVERFLOW_WATCH_CMP,
    {
        let _ = self.now();
        let epoch = (instant >> 32u64) as u32;
        let low = instant as u32;
        assert(epoch == instant / 0x1_0000_0000) by (bit_vector)
            requires epoch == (instant >> 32u64) as u32;
        assert(low == instant % 0x1_0000_0000) by (bit_vector)
            requires low == instant as u32;
        if epoch > self.overflow {
            self.wait_for_overflow();
        } else {
            self.rtc.set_scale(FULL_RATE_SCALE);
            self.rtc.set_rtccmp(low);
        }
    }

    /// The instant of tick zero.
    pub fn zero() -> (r: u64)
        ensures
            r == 0,
    {
        0
    }

    /// Takes in the counter words as the hardware now shows them.
    pub fn load_counter(&mut self, lo: u32, hi: u16)
        requires
            old(self)@.overflow + hi <= u32::MAX,
        ensures
            final(self)@ == old(self)@.with_counter(lo, hi),
            final(self)@.wf(),
    {
        self.rtc.set_rtc_lo(lo);
        self.rtc.set_rtc_hi(hi);
    }

    /// Programs the comparator with `cmp` at full rate.
    pub(crate) fn program_compare(&mut self, cmp: u32)
        ensures
            final(self)@ == (ClockState {
                rtc: RtcState { scale: FULL_RATE_SCALE, cmp, ..old(self)@.rtc },
                ..old(self)@
            }),
    {
        self.rtc.set_scale(FULL_RATE_SCALE);
        self.rtc.set_rtccmp(cmp);
    }

    /// The accumulated overflow count.
    pub fn overflow(&self) -> (r: u32)
        ensures
            r == self@.overflow,
    {
        self.overflow
    }

    /// The peripheral's registers.
    pub fn rtc(&self) -> (r: &RtcRegs)
        ensures
            r@ == self@.rtc,
    {
        &self.rtc
    }
}

} // verus!
