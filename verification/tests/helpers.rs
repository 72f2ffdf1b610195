use study_app::functions::{
    decimal_string, duration_to_hms, expiry_notice, DisplayTime, Sound,
};
use study_app::time::{Moment, Span, NANOS_PER_MILLI, NANOS_PER_SEC};

#[test]
fn hms_pads_each_part_to_two_digits() {
    assert_eq!(duration_to_hms(Span::new(0, 0)), "00:00:00");
    assert_eq!(duration_to_hms(Span::new(5, 0)), "00:00:05");
    assert_eq!(duration_to_hms(Span::new(59, 999_999_999)), "00:00:59");
    assert_eq!(duration_to_hms(Span::new(60, 0)), "00:01:00");
    assert_eq!(duration_to_hms(Span::new(1500, 100)), "00:25:00");
    assert_eq!(duration_to_hms(Span::new(3599, 0)), "00:59:59");
    assert_eq!(duration_to_hms(Span::new(3600, 0)), "01:00:00");
    assert_eq!(duration_to_hms(Span::new(36_000 + 11 * 60 + 9, 0)), "10:11:09");
}

#[test]
fn hms_lets_the_hours_grow() {
    assert_eq!(duration_to_hms(Span::new(100 * 3600 + 61, 0)), "100:01:01");
    assert_eq!(duration_to_hms(Span::new(u64::MAX, 0)), "5124095576030431:00:15");
}

#[test]
fn decimal_of_numbers() {
    assert_eq!(decimal_string(0), "0");
    assert_eq!(decimal_string(7), "7");
    assert_eq!(decimal_string(10), "10");
    assert_eq!(decimal_string(1_234_567_890), "1234567890");
    assert_eq!(decimal_string(u128::MAX), "340282366920938463463374607431768211455");
}

#[test]
fn notice_carries_name_and_time() {
    let n = expiry_notice("Focus Session", Span::new(1500, 100));
    assert_eq!(n.title, "Time's Up - Focus Session");
    assert_eq!(n.body, "00:25:00 hrs are over! \nClick to Dismiss!");
    assert_eq!(n.sound, Some(Sound::LoopingCall7));
    assert_eq!(n.duration, DisplayTime::Long);
    assert_ne!(n.duration, DisplayTime::Short);
}

#[test]
fn span_counts_nanoseconds() {
    assert_eq!(NANOS_PER_MILLI, 1_000_000);
    assert_eq!(NANOS_PER_SEC, 1_000_000_000);
    assert_eq!(Span::new(3, 7).nanos, 3_000_000_007);
    assert_eq!(Span::new(u64::MAX, u32::MAX).nanos, 18_446_744_073_709_551_615_000_000_000 + 4_294_967_295);
    assert_eq!(Span::from_millis(1_500).nanos, 1_500_000_000);
    let s = Span { nanos: 61_999_999_999 };
    assert_eq!(s.as_secs(), 61);
    assert_eq!(s.as_millis(), 61_999);
    assert_eq!(s.subsec_nanos(), 999_999_999);
}

#[test]
fn moments_hold_at_the_ends_of_the_range() {
    let m = Moment { nanos: 1_000 };
    assert_eq!(m.after(Span { nanos: 24 }), Moment { nanos: 1_024 });
    assert_eq!(m.after(Span { nanos: u128::MAX }), Moment { nanos: u128::MAX });
    assert_eq!(m.before(Span { nanos: 400 }), Moment { nanos: 600 });
    assert_eq!(m.before(Span { nanos: 1_001 }), Moment { nanos: 0 });
    assert_eq!(m.saturating_since(Moment { nanos: 300 }), Span { nanos: 700 });
    assert_eq!(m.saturating_since(Moment { nanos: 1_000 }), Span { nanos: 0 });
    assert_eq!(m.saturating_since(Moment { nanos: 5_000 }), Span { nanos: 0 });
}

#[test]
fn reading_of_the_clock_becomes_a_moment() {
    assert_eq!(Moment::from_reading(Some(0)), Moment { nanos: 0 });
    assert_eq!(Moment::from_reading(Some(1_722_334_455_667_000_123)), Moment {
        nanos: 1_722_334_455_667_000_123
    });
    assert_eq!(Moment::from_reading(Some(u128::MAX)), Moment { nanos: u128::MAX });
    // a clock that stands before its origin
    assert_eq!(Moment::from_reading(None), Moment { nanos: 0 });
}
