//! The register file of the always-on real-time clock, held as plain values.
use vstd::prelude::*;

verus! {

/// What the clock's registers hold at one moment.
pub struct RtcState {
    /// Low word of the counter.
    pub lo: u32,
    /// High word of the counter, set by the hardware when the low word wraps.
    pub hi: u16,
    /// Compare register.
    pub cmp: u32,
    /// Prescale setting: the comparator sees the counter shifted right by it.
    pub scale: u8,
    /// Whether the counter counts.
    pub enabled: bool,
}

/// The real-time clock peripheral: counter words, compare register,
/// prescale and enable bit.
pub struct RtcRegs {
    lo: u32,
    hi: u16,
    cmp: u32,
    scale: u8,
    enabled: bool,
}

impl View for RtcRegs {
    type V = RtcState;

    closed spec fn view(&self) -> RtcState {
        RtcState {
            lo: self.lo,
            hi: self.hi,
            cmp: self.cmp,
            scale: self.scale,
            enabled: self.enabled,
        }
    }
}

impl RtcRegs {
    /// The peripheral as it comes out of reset: every register zero, counting off.
    pub fn new() -> (r: Self)
        ensures
            r@ == (RtcState { lo: 0, hi: 0, cmp: 0, scale: 0, enabled: false }),
    {
        RtcRegs { lo: 0, hi: 0, cmp: 0, scale: 0, enabled: false }
    }

    pub fn rtc_lo(&self) -> (r: u32)
        ensures
            r == self@.lo,
    {
        self.lo
    }

    pub fn rtc_hi(&self) -> (r: u32)
        ensures
            r == self@.hi,
    {
        self.hi as u32
    }

    pub fn rtccmp(&self) -> (r: u32)
        ensures
            r == self@.cmp,
    {
        self.cmp
    }

    pub fn scale(&self) -> (r: u8)
        ensures
            r == self@.scale,
    {
        self.scale
    }

    pub fn is_enabled(&self) -> (r: bool)
        ensures
            r == self@.enabled,
    {
        self.enabled
    }

    pub fn set_rtc_lo(&mut self, value: u32)
        ensures
            final(self)@ == (RtcState { lo: value, ..old(self)@ }),
    {
        self.lo = value;
    }

    pub fn set_rtc_hi(&mut self, value: u16)
        ensures
            final(self)@ == (RtcState { hi: value, ..old(self)@ }),
    {
        self.hi = value;
    }

    /// Writes both counter words: the low word takes the low 32 bits of `value`,
    /// the 16-bit high word the next 16.
    pub fn set_rtc(&mut self, value: u64)
        ensures
            final(self)@ == (RtcState {
                lo: (value % 0x1_0000_0000) as u32,
                hi: ((value / 0x1_0000_0000) % 0x1_0000) as u16,
                ..old(self)@
            }),
    {
        let hi = (value >> 32) as u16;
        let lo = value as u32;
        assert(hi == ((value / 0x1_0000_0000) % 0x1_0000) as u16) by (bit_vector)
            requires hi == (value >> 32) as u16;
        assert(lo == (value % 0x1_0000_0000) as u32) by (bit_vector)
            requires lo == value as u32;
        self.set_rtc_hi(hi);
        self.set_rtc_lo(lo);
    }

    pub fn set_rtccmp(&mut self, value: u32)
        ensures
            final(self)@ == (RtcState { cmp: value, ..old(self)@ }),
    {
        self.cmp = value;
    }

    pub fn set_scale(&mut self, scale: u8)
        ensures
            final(self)@ == (RtcState { scale, ..old(self)@ }),
    {
        self.scale = scale;
    }

    pub fn enable(&mut self)
        ensures
            final(self)@ == (RtcState { enabled: true, ..old(self)@ }),
    {
        self.enabled = true;
    }

    pub fn disable(&mut self)
        ensures
            final(self)@ == (RtcState { enabled: false, ..old(self)@ }),
    {
        self.enabled = false;
    }
}

} // verus!
