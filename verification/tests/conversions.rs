use no_time::unit::{
    lit, Cebiseconds, Cebiseconds_2, Centiseconds, Days, Debiseconds, Deciseconds, Hours,
    Mibiseconds, Milliseconds, Minutes, Seconds, Subseconds32,
};
use no_time::Duration;

#[test]
fn upscale_is_exact() {
    // 8 seconds in 1/2^32 second ticks: the factor is 2^32 / 1, so the
    // remainder correction has nothing to do and the result is exact.
    let seconds: Duration<u8, Seconds> = Duration::from_value(8);
    let sub: Duration<u64, Subseconds32> = Duration::convert_from(seconds).unwrap();
    assert_eq!(sub.value(), 8 * 0x100000000u64);
}

#[test]
fn upscale_uses_remainder_correction() {
    // 100 milliseconds in 1/1024 second ticks: the factor reduces to
    // 128/125, the quotient 100 / 125 is zero, and the whole result comes
    // from the remainder term: 100 * 128 / 125 = 102 (truncated).
    let ms: Duration<u32, Milliseconds> = Duration::from_value(100);
    let mibi: Duration<u32, Mibiseconds> = Duration::convert_from(ms).unwrap();
    assert_eq!(mibi.value(), 102);
}

#[test]
fn downscale_truncates_toward_zero() {
    // 90 seconds is 1 minute, not 1.5: a pure downscale drops the
    // sub-unit remainder.
    let seconds: Duration<u32, Seconds> = Duration::from_value(90);
    let minutes: Duration<u32, Minutes> = Duration::convert_from(seconds).unwrap();
    assert_eq!(minutes.value(), 1);
}

#[test]
fn equal_units_change_representation() {
    let narrow: Duration<u8, Seconds> = Duration::from_value(200);
    let wide: Duration<u32, Seconds> = Duration::convert_from(narrow).unwrap();
    assert_eq!(wide.value(), 200);
}

#[test]
fn hours_to_minutes() {
    let hours: Duration<u32, Hours> = Duration::from_value(2);
    let minutes: Duration<u32, Minutes> = Duration::convert_from(hours).unwrap();
    assert_eq!(minutes.value(), 120);
}

#[test]
fn round_trip_when_factor_composes_to_one() {
    // seconds -> 1/2^32 second ticks -> seconds: the upscale factor has
    // denominator 1, so nothing is lost and the trip comes back exactly.
    let before: Duration<u8, Seconds> = Duration::from_value(97);
    let sub: Duration<u64, Subseconds32> = Duration::convert_from(before).unwrap();
    let after: Duration<u8, Seconds> = Duration::convert_from(sub).unwrap();
    assert_eq!(after.value(), 97);
}

#[test]
fn lossy_round_trip_truncates() {
    // 90 seconds -> minutes -> seconds gives 60: the downscale already
    // dropped the half minute.
    let before: Duration<u32, Seconds> = Duration::from_value(90);
    let minutes: Duration<u32, Minutes> = Duration::convert_from(before).unwrap();
    let after: Duration<u32, Seconds> = Duration::convert_from(minutes).unwrap();
    assert_eq!(after.value(), 60);
}

#[test]
fn overflow_is_reported_not_wrapped() {
    // A maximal source value under a huge upscale factor cannot fit; the
    // conversion must say so rather than return a wrapped value.
    let max: Duration<u64, Seconds> = Duration::from_value(u64::MAX);
    let sub: Option<Duration<u64, Subseconds32>> = Duration::convert_from(max);
    assert!(sub.is_none());
}

#[test]
fn narrowing_failure_is_reported() {
    // 300 seconds do not fit an 8-bit destination even at factor 1/1.
    let wide: Duration<u32, Seconds> = Duration::from_value(300);
    let narrow: Option<Duration<u8, Seconds>> = Duration::convert_from(wide);
    assert!(narrow.is_none());
}

#[test]
fn remainder_overflow_is_reported() {
    // 99 centiseconds at factor 2^32/100: the quotient is 0 but the
    // remainder product 99 * 2^32 overflows 32 bits.
    let centi: Duration<u32, Centiseconds> = Duration::from_value(99);
    let sub: Option<Duration<u32, Subseconds32>> = Duration::convert_from(centi);
    assert!(sub.is_none());
}

#[test]
fn proportional_pairs_share_a_factor() {
    // hours/minutes and minutes/seconds both reduce to the factor 60/1,
    // so the same stored value converts to the same result.
    let hours: Duration<u32, Hours> = Duration::from_value(7);
    let minutes_from_hours: Duration<u32, Minutes> = Duration::convert_from(hours).unwrap();

    let minutes: Duration<u32, Minutes> = Duration::from_value(7);
    let seconds_from_minutes: Duration<u32, Seconds> = Duration::convert_from(minutes).unwrap();

    assert_eq!(minutes_from_hours.value(), 420);
    assert_eq!(seconds_from_minutes.value(), 420);
}

#[test]
fn two_days_in_seconds() {
    let seconds: Duration<u64, Seconds> = Duration::literal::<Days>(2);
    assert_eq!(seconds.const_value(), 172800);
}

#[test]
fn two_days_in_minutes() {
    let minutes: u64 = Duration::<u64, Minutes>::literal_value::<Days>(2);
    assert_eq!(minutes, 2880);
}

#[test]
fn one_second_across_the_registry() {
    let second: Duration<u32, Seconds> = Duration::from_value(1);
    let deci: Duration<u32, Deciseconds> = Duration::convert_from(second).unwrap();
    assert_eq!(deci.value(), 10);
    let debi: Duration<u32, Debiseconds> = Duration::convert_from(second).unwrap();
    assert_eq!(debi.value(), 16);
    let cebi2: Duration<u32, Cebiseconds_2> = Duration::convert_from(second).unwrap();
    assert_eq!(cebi2.value(), 64);
    let centi: Duration<u32, Centiseconds> = Duration::convert_from(second).unwrap();
    assert_eq!(centi.value(), 100);
    let cebi: Duration<u32, Cebiseconds> = Duration::convert_from(second).unwrap();
    assert_eq!(cebi.value(), 128);
    let milli: Duration<u32, Milliseconds> = Duration::convert_from(second).unwrap();
    assert_eq!(milli.value(), 1000);
    let mibi: Duration<u32, Mibiseconds> = Duration::convert_from(second).unwrap();
    assert_eq!(mibi.value(), 1024);
    let day: Duration<u32, Days> = Duration::from_value(2);
    let hours: Duration<u32, Hours> = Duration::convert_from(day).unwrap();
    assert_eq!(hours.value(), 48);
}

#[test]
fn zero_converts_to_zero() {
    let zero: Duration<u64, Days> = Duration::from_value(0);
    let sub: Duration<u64, Subseconds32> = Duration::convert_from(zero).unwrap();
    assert_eq!(sub.value(), 0);
}

#[test]
fn identity_factor_keeps_the_largest_value() {
    let max: Duration<u64, Seconds> = Duration::from_value(u64::MAX);
    let same: Duration<u64, Seconds> = Duration::convert_from(max).unwrap();
    assert_eq!(same.value(), u64::MAX);
}

#[test]
fn literal_downscale_truncates() {
    // 500 seconds in days, truncated toward zero.
    assert_eq!(lit::<Seconds, Days>(500), 0);
    assert_eq!(lit::<Seconds, Minutes>(500), 8);
    assert_eq!(lit::<Seconds, Seconds>(0), 0);
}
