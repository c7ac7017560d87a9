use std::cell::Cell;

use no_time::unit::{Milliseconds, Seconds};
use no_time::{Duration, Instant, Moment};

#[test]
fn duration_arithmetic() {
    let a: Duration<u32, Seconds> = Duration::from_value(90);
    let b: Duration<u32, Seconds> = Duration::from_value(30);
    assert_eq!(a.add(b).value(), 120);
    assert_eq!(a.sub(b).value(), 60);
    assert_eq!(a.mul(3).value(), 270);
    assert_eq!(a.div(b), 3);
    assert_eq!(a.rem(b).value(), 0);
    assert_eq!(Duration::<u32, Seconds>::from_value(100).rem(b).value(), 10);
}

#[test]
fn duration_saturating_add_stays_at_max() {
    let max: Duration<u8, Seconds> = Duration::max_value();
    let one: Duration<u8, Seconds> = Duration::from_value(1);
    assert_eq!(max.saturating_add(one).value(), u8::MAX);

    let max64: Duration<u64, Milliseconds> = Duration::max_value();
    let one64: Duration<u64, Milliseconds> = Duration::from_value(1);
    assert_eq!(max64.saturating_add(one64).value(), u64::MAX);
}

#[test]
fn duration_saturating_sub_stays_at_zero() {
    let small: Duration<u8, Seconds> = Duration::from_value(3);
    let big: Duration<u8, Seconds> = Duration::from_value(200);
    assert_eq!(small.saturating_sub(big).value(), 0);
    assert_eq!(big.saturating_sub(small).value(), 197);
}

#[test]
fn trunc_keeps_the_low_bits() {
    let wide: Duration<u64, Seconds> = Duration::from_value(0x1_0000_0007);
    let narrow: Duration<u8, Seconds> = wide.trunc();
    assert_eq!(narrow.value(), 7);
    let same: Duration<u64, Seconds> = wide.trunc();
    assert_eq!(same.value(), 0x1_0000_0007);
}

#[test]
fn duration_accessors() {
    let mut d: Duration<u32, Seconds> = Duration::from_value(3);
    assert_eq!(*d.value_ref(), 3);
    d.value_mut(9);
    assert_eq!(d.value(), 9);
    assert_eq!(Duration::<u16, Seconds>::default().value(), 0);
}

#[test]
fn instant_accessors() {
    let mut i: Instant<u32, Seconds> = Instant::from_value(4);
    assert_eq!(*i.value_ref(), 4);
    i.value_mut(11);
    assert_eq!(i.value(), 11);
    assert_eq!(Instant::<u16, Seconds>::default().value(), 0);
    assert_eq!(Instant::from_origin(Duration::<u32, Seconds>::from_value(8)).value(), 8);
    assert_eq!(Instant::<u32, Seconds>::from_value(8).since_origin().value(), 8);
}

#[test]
fn instant_arithmetic() {
    let start: Instant<u32, Seconds> = Instant::from_value(100);
    let step: Duration<u32, Seconds> = Duration::from_value(40);
    let later = start.add(step);
    assert_eq!(later.value(), 140);
    assert_eq!(later.sub(step).value(), 100);
    // the interval between two instants is a duration
    assert_eq!(later.diff(start).value(), 40);
}

#[test]
fn instant_saturating_arithmetic() {
    let near_max: Instant<u8, Seconds> = Instant::from_value(250);
    let step: Duration<u8, Seconds> = Duration::from_value(10);
    assert_eq!(near_max.saturating_add(step).value(), u8::MAX);

    let near_zero: Instant<u8, Seconds> = Instant::from_value(5);
    assert_eq!(near_zero.saturating_sub(step).value(), 0);

    // a negative interval clamps to zero
    assert_eq!(near_zero.saturating_diff(near_max).value(), 0);
    assert_eq!(near_max.saturating_diff(near_zero).value(), 245);
}

#[test]
fn instant_conversion_uses_the_duration_since_origin() {
    let ms: Instant<u64, Milliseconds> = Instant::from_value(1500);
    let s: Instant<u64, Seconds> = Instant::convert_from(ms).unwrap();
    assert_eq!(s.value(), 1);
}

#[test]
fn moment_from_wrappers() {
    let d: Duration<u32, Seconds> = Duration::from_value(5);
    assert!(matches!(Moment::from(d), Moment::Relative(_)));
    let i: Instant<u32, Seconds> = Instant::from_value(5);
    assert!(matches!(Moment::from(i), Moment::Absolute(_)));
}

#[test]
fn immediate_resolves_to_now() {
    let m: Moment<u32, Seconds> = Moment::immediate();
    let r = m.to_absolute(|| Instant::from_value(5));
    assert_eq!(r.unwrap().value(), 5);
}

#[test]
fn absolute_moment_never_reads_the_clock() {
    let m: Moment<u32, Seconds> = Moment::Absolute(Instant::from_value(7));
    let r = m.to_absolute(|| -> Instant<u32, Seconds> {
        panic!("the clock must not be read for an absolute moment")
    });
    assert_eq!(r.unwrap().value(), 7);
}

#[test]
fn relative_moment_reads_the_clock_exactly_once() {
    let reads = Cell::new(0u32);
    let m: Moment<u32, Seconds> = Moment::Relative(Duration::from_value(50));
    let r = m.to_absolute(|| {
        reads.set(reads.get() + 1);
        Instant::from_value(100)
    });
    assert_eq!(r.unwrap().value(), 150);
    assert_eq!(reads.get(), 1);
}

#[test]
fn relative_moment_reports_an_overflowing_sum() {
    let m: Moment<u8, Seconds> = Moment::Relative(Duration::from_value(10));
    let r = m.to_absolute(|| Instant::from_value(250));
    assert!(r.is_none());
}
