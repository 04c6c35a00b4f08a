use mono_rtc::clock::{MonoRtc64, FULL_RATE_SCALE, OVERFLOW_WATCH_CMP, OVERFLOW_WATCH_SCALE};
use mono_rtc::clock32::{wrapping_at_or_after, MonoRtc32};
use mono_rtc::regs::RtcRegs;
use mono_rtc::MonoRtc;

fn clock() -> MonoRtc64 {
    let mut c = MonoRtc64::new(RtcRegs::new());
    c.enable_timer();
    c
}

#[test]
fn new_clears_registers_and_stops_counting() {
    let mut regs = RtcRegs::new();
    regs.enable();
    regs.set_scale(3);
    regs.set_rtccmp(77);
    regs.set_rtc(0x0001_0000_0005);
    let c = MonoRtc64::new(regs);
    assert_eq!(c.overflow(), 0);
    assert_eq!(c.rtc().rtc_lo(), 0);
    assert_eq!(c.rtc().rtc_hi(), 0);
    assert_eq!(c.rtc().rtccmp(), 0);
    assert_eq!(c.rtc().scale(), FULL_RATE_SCALE);
    assert!(!c.rtc().is_enabled());
}

#[test]
fn set_rtc_splits_value_into_words() {
    let mut regs = RtcRegs::new();
    regs.set_rtc(0x0012_3456_789A_BCDE);
    assert_eq!(regs.rtc_lo(), 0x789A_BCDE);
    assert_eq!(regs.rtc_hi(), 0x3456);
}

#[test]
fn enable_and_disable_toggle_counting() {
    let mut c = clock();
    assert!(c.rtc().is_enabled());
    c.disable_timer();
    assert!(!c.rtc().is_enabled());
    c.enable_timer();
    assert!(c.rtc().is_enabled());
}

#[test]
fn now_is_monotonic_across_overflows() {
    let mut c = clock();
    let counts: [(u32, u16); 7] = [
        (10, 0),
        (0xFFFF_FFF0, 0),
        (3, 1),
        (3, 0),
        (0xFFFF_FFFF, 0),
        (0, 2),
        (7, 0),
    ];
    let mut last = c.now();
    for &(lo, hi) in counts.iter() {
        c.load_counter(lo, hi);
        let a = c.now();
        let b = c.now();
        assert!(a >= last);
        assert_eq!(a, b);
        last = b;
    }
    assert_eq!(last, 0x3_0000_0007);
}

#[test]
fn wrap_is_counted_once() {
    let mut c = clock();
    c.load_counter(0xFFFF_FFFF, 0);
    let before = c.now();
    assert_eq!(before, 0xFFFF_FFFF);
    c.load_counter(0, 1);
    assert!(c.is_overflow());
    let after = c.now();
    assert_eq!(after, before + 1);
    assert_eq!(c.overflow(), 1);
    assert!(!c.is_overflow());
    assert_eq!(c.now(), after);
    assert_eq!(c.now(), after);
    assert_eq!(c.overflow(), 1);
}

#[test]
fn coalesced_wraps_add_up() {
    let mut c = clock();
    c.load_counter(9, 3);
    assert_eq!(c.now(), 0x3_0000_0009);
    c.load_counter(9, 2);
    assert_eq!(c.now(), 0x5_0000_0009);
    assert_eq!(c.overflow(), 5);
}

#[test]
fn same_epoch_compare_writes_low_word() {
    let mut c = clock();
    c.load_counter(5, 1);
    let target = c.now() + 100;
    c.set_compare(target);
    assert_eq!(c.rtc().rtccmp(), 105);
    assert_eq!(c.rtc().scale(), FULL_RATE_SCALE);
    assert_eq!(c.overflow(), 1);
}

#[test]
fn cross_epoch_compare_waits_for_overflow() {
    let mut c = clock();
    c.load_counter(0xFFFF_FF00, 0);
    c.set_compare(0x1_0000_0010);
    assert_eq!(c.rtc().scale(), OVERFLOW_WATCH_SCALE);
    assert_eq!(c.rtc().rtccmp(), OVERFLOW_WATCH_CMP);
    assert_eq!(OVERFLOW_WATCH_CMP, 0x8000);
    assert_eq!(OVERFLOW_WATCH_SCALE, 1);
}

#[test]
fn compare_after_wrap_is_direct() {
    let mut c = clock();
    c.load_counter(0xFFFF_FF00, 0);
    c.set_compare(0x1_0000_0010);
    c.load_counter(2, 1);
    c.on_interrupt();
    assert_eq!(c.overflow(), 1);
    c.set_compare(0x1_0000_0010);
    assert_eq!(c.rtc().rtccmp(), 0x10);
    assert_eq!(c.rtc().scale(), FULL_RATE_SCALE);
}

#[test]
fn clear_compare_flag_rearms_watch() {
    let mut c = clock();
    c.set_compare(50);
    assert_eq!(c.rtc().rtccmp(), 50);
    c.load_counter(50, 1);
    c.clear_compare_flag();
    assert_eq!(c.overflow(), 1);
    assert_eq!(c.rtc().rtc_hi(), 0);
    assert_eq!(c.rtc().scale(), OVERFLOW_WATCH_SCALE);
    assert_eq!(c.rtc().rtccmp(), OVERFLOW_WATCH_CMP);
}

#[test]
fn fix_overflow_twice_changes_nothing_more() {
    let mut c = clock();
    c.load_counter(4, 2);
    c.fix_overflow();
    assert_eq!(c.overflow(), 2);
    c.fix_overflow();
    assert_eq!(c.overflow(), 2);
    assert_eq!(c.now(), 0x2_0000_0004);
}

#[test]
fn reset_returns_to_zero() {
    let mut c = clock();
    c.load_counter(77, 3);
    c.now();
    c.reset();
    assert_eq!(c.now(), MonoRtc64::zero());
    assert_eq!(c.now(), 0);
    assert_eq!(c.overflow(), 0);
    assert_eq!(c.rtc().scale(), OVERFLOW_WATCH_SCALE);
    assert_eq!(c.rtc().rtccmp(), OVERFLOW_WATCH_CMP);
    assert!(c.rtc().is_enabled());

    let mut f = clock();
    c.set_compare(0x1234);
    f.set_compare(0x1234);
    assert_eq!(c.rtc().rtccmp(), f.rtc().rtccmp());
    assert_eq!(c.rtc().scale(), f.rtc().scale());
    assert_eq!(c.now(), f.now());
    c.set_compare(0x1_0000_0000);
    f.set_compare(0x1_0000_0000);
    assert_eq!(c.rtc().rtccmp(), f.rtc().rtccmp());
    assert_eq!(c.rtc().scale(), f.rtc().scale());
}

#[test]
fn short_name_is_the_64_bit_clock() {
    let mut c = MonoRtc::new(RtcRegs::new());
    c.load_counter(1, 1);
    assert_eq!(c.now(), 0x1_0000_0001);
    assert!(!MonoRtc::DISABLE_INTERRUPT_ON_EMPTY_QUEUE);
    assert!(MonoRtc32::DISABLE_INTERRUPT_ON_EMPTY_QUEUE);
}

#[test]
fn wrapping_order_of_32_bit_instants() {
    assert!(wrapping_at_or_after(0, 0));
    assert!(wrapping_at_or_after(0x7FFF_FFFF, 0));
    assert!(!wrapping_at_or_after(0x8000_0000, 0));
    assert!(wrapping_at_or_after(3, 0xFFFF_FFF0));
    assert!(!wrapping_at_or_after(0xFFFF_FFF0, 3));
    assert!(!wrapping_at_or_after(500, 1000));
}

#[test]
fn clock32_now_drops_epoch() {
    let mut c = MonoRtc32::new(RtcRegs::new());
    c.load_counter(42, 2);
    assert_eq!(c.now(), 42);
    assert_eq!(c.overflow(), 2);
    assert_eq!(MonoRtc32::zero(), 0);
}

#[test]
fn clock32_target_ahead_is_written_directly() {
    let mut c = MonoRtc32::new(RtcRegs::new());
    c.load_counter(1000, 0);
    c.set_compare(1100);
    assert_eq!(c.rtc().rtccmp(), 1100);
    assert_eq!(c.rtc().scale(), FULL_RATE_SCALE);
    assert_eq!(c.rtc().rtc_lo(), 1000);
    c.load_counter(1050, 0);
    c.set_compare(2000);
    assert_eq!(c.rtc().rtccmp(), 2000);
    assert_eq!(c.rtc().scale(), FULL_RATE_SCALE);
}

#[test]
fn clock32_target_behind_waits_for_overflow() {
    let mut c = MonoRtc32::new(RtcRegs::new());
    c.load_counter(1000, 0);
    c.set_compare(500);
    assert_eq!(c.rtc().rtc_lo(), 1000);
    assert_eq!(c.rtc().scale(), OVERFLOW_WATCH_SCALE);
    assert_eq!(c.rtc().rtccmp(), OVERFLOW_WATCH_CMP);
}

#[test]
fn clock32_target_far_behind_counts_as_ahead() {
    let mut c = MonoRtc32::new(RtcRegs::new());
    c.load_counter(0xFFFF_FFFF, 0);
    c.set_compare(0);
    assert_eq!(c.rtc().rtccmp(), 0);
    assert_eq!(c.rtc().scale(), FULL_RATE_SCALE);
    assert_eq!(c.rtc().rtc_lo(), 0xFFFF_FFFF);
}

#[test]
fn clock32_interrupt_and_reset() {
    let mut c = MonoRtc32::new(RtcRegs::new());
    c.enable_timer();
    c.load_counter(8, 1);
    c.on_interrupt();
    assert_eq!(c.overflow(), 1);
    c.clear_compare_flag();
    assert_eq!(c.rtc().rtccmp(), OVERFLOW_WATCH_CMP);
    c.reset();
    assert_eq!(c.now(), 0);
    assert_eq!(c.overflow(), 0);
    c.disable_timer();
    assert!(!c.rtc().is_enabled());
}
