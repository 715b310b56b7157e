use ghost_timer::fraction::Fraction;
use ghost_timer::text::chars_of;
use ghost_timer::time::{Duration, Instant};

#[test]
fn durations_convert_between_units() {
    assert_eq!(Duration::from_secs(60).as_nanos(), 60_000_000_000);
    assert_eq!(Duration::from_millis(1_500).as_nanos(), 1_500_000_000);
    assert_eq!(Duration::from_nanos(1_999_999_999).as_secs(), 1);
    assert_eq!(Duration::from_nanos(1_999_999_999).as_millis(), 1_999);
    assert_eq!(Duration::from_secs(u64::MAX).as_secs(), u64::MAX as u128);
    assert_eq!(Duration::from_millis(u64::MAX).as_millis(), u64::MAX as u128);
    assert!(Duration::zero().is_zero());
    assert!(!Duration::from_nanos(1).is_zero());
    assert_eq!(Duration::from_secs(1), Duration::from_millis(1000));
    assert!(Duration::from_secs(1) < Duration::from_millis(1001));
}

#[test]
fn duration_subtraction_stops_at_zero() {
    let a = Duration::from_secs(5);
    let b = Duration::from_secs(7);
    assert_eq!(b.saturating_sub(a), Duration::from_secs(2));
    assert_eq!(a.saturating_sub(b), Duration::zero());
    assert_eq!(a.saturating_sub(a), Duration::zero());
}

#[test]
fn instants_measure_elapsed_time() {
    let early = Instant::from_nanos(100);
    let late = Instant::from_nanos(350);
    assert_eq!(late.saturating_duration_since(early), Duration::from_nanos(250));
    assert_eq!(early.saturating_duration_since(late), Duration::zero());
    assert_eq!(early.saturating_add(Duration::from_nanos(250)), late);
    assert_eq!(late.as_nanos(), 350);
    let last = Instant::from_nanos(u128::MAX - 1);
    assert_eq!(last.saturating_add(Duration::from_nanos(1)), Instant::from_nanos(u128::MAX));
    assert_eq!(last.saturating_add(Duration::from_nanos(2)), Instant::from_nanos(u128::MAX));
}

#[test]
fn fractions_scale_toward_zero() {
    let f = Fraction::from_millis(1250);
    assert_eq!(f.scale(100), 125);
    assert_eq!(f.scale(3), 3);
    assert_eq!(f.scale(-3), -3);
    assert_eq!(f.scale(-4), -5);
    assert_eq!(f.unscale(125), 100);
    assert_eq!(f.unscale(-4), -3);
    assert_eq!(f.unscale(4), 3);
    assert_eq!(Fraction::one().scale(i32::MIN), i32::MIN);
    assert_eq!(Fraction::one().unscale(i32::MAX), i32::MAX);
    assert_eq!(Fraction::zero().scale(12345), 0);
    assert_eq!(Fraction::from_millis(i32::MAX).scale(i32::MAX), i32::MAX);
    assert_eq!(Fraction::from_millis(i32::MAX).scale(i32::MIN), i32::MIN);
    assert_eq!(Fraction::from_millis(i32::MIN).scale(i32::MIN), i32::MAX);
    assert_eq!(Fraction::from_millis(i32::MIN).unscale(i32::MIN), 1000);
    assert_eq!(Fraction::from_millis(1).unscale(i32::MIN), i32::MIN);
    assert_eq!(Fraction::from_millis(-1).unscale(i32::MIN), i32::MAX);
    assert_eq!(Fraction::from_millis(-1).unscale(3), -3000);
    assert!(Fraction::zero().in_unit_range());
    assert!(Fraction::one().in_unit_range());
    assert!(!Fraction::from_millis(-1).in_unit_range());
    assert!(!Fraction::from_millis(1001).in_unit_range());
    assert_eq!(Fraction::one().millis(), 1000);
}

#[test]
fn fractions_are_written_in_decimal() {
    let cases = [
        (0, "0"),
        (1, "0.001"),
        (10, "0.01"),
        (100, "0.1"),
        (300, "0.3"),
        (305, "0.305"),
        (350, "0.35"),
        (1000, "1"),
        (1250, "1.25"),
        (-500, "-0.5"),
        (-1, "-0.001"),
        (-12000, "-12"),
        (255_000, "255"),
        (i32::MAX, "2147483.647"),
        (i32::MIN, "-2147483.648"),
    ];
    for (millis, text) in cases {
        assert_eq!(Fraction::from_millis(millis).to_string(), text);
    }
    let mut text = String::from("x=");
    Fraction::from_millis(1500).write_to(&mut text);
    assert_eq!(text, "x=1.5");
}

#[test]
fn characters_are_listed_in_order() {
    assert_eq!(chars_of(""), Vec::<char>::new());
    assert_eq!(chars_of("a+\u{e4}\u{20ac}"), vec!['a', '+', '\u{e4}', '\u{20ac}']);
}
