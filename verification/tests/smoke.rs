use no_time::unit::{Days, Minutes, Seconds, Subseconds32};
use no_time::Duration;

#[test]
fn smoke_convert() {
    let duration: Duration<u8, Seconds> = Duration::from_value(8);
    let converted: Duration<u64, Subseconds32> = Duration::convert_from(duration).unwrap();

    assert_eq!(converted.value(), duration.value() as u64 * 0x100000000)
}

#[test]
fn smoke() {
    let value = no_time::unit::lit::<Days, Minutes>(2); // 2 days to minutes
    assert_eq!(value, 60 * 24 * 2);
    let day2_min: u64 = Duration::<u64, Minutes>::literal_value::<Days>(2);
    assert_eq!(day2_min, 60 * 24 * 2);
}
