use std::time::{Duration, UNIX_EPOCH};
use time_format::{
    from_system_time, from_system_time_ms, now, now_ms, timestamp_from_secs,
    timestamp_ms_from_parts, Breakdown, Components, Error, TimeStampMs,
};

#[test]
fn new_keeps_milliseconds_below_one_thousand() {
    let t = TimeStampMs::new(10, 678);
    assert_eq!(t.seconds, 10);
    assert_eq!(t.milliseconds, 678);
}

#[test]
fn new_takes_milliseconds_modulo_one_thousand() {
    assert_eq!(TimeStampMs::new(7, 1500).milliseconds, 500);
    assert_eq!(TimeStampMs::new(7, 1000).milliseconds, 0);
    assert_eq!(TimeStampMs::new(7, u16::MAX).milliseconds, 535);
}

#[test]
fn from_timestamp_has_no_milliseconds() {
    let t = TimeStampMs::from_timestamp(1673793045);
    assert_eq!(t.seconds, 1673793045);
    assert_eq!(t.milliseconds, 0);
}

#[test]
fn total_milliseconds_combines_both_fields() {
    assert_eq!(TimeStampMs::new(1500000, 123).total_milliseconds(), 1500000123);
    assert_eq!(TimeStampMs::new(-2, 250).total_milliseconds(), -1750);
    assert_eq!(TimeStampMs::new(0, 0).total_milliseconds(), 0);
}

#[test]
fn total_milliseconds_near_the_lower_limit() {
    let t = TimeStampMs::new(i64::MIN / 1000, 807);
    assert_eq!(t.total_milliseconds(), i64::MIN / 1000 * 1000 + 807);
    let low = TimeStampMs::new(i64::MIN / 1000 - 1, 192);
    assert_eq!(low.total_milliseconds(), i64::MIN);
}

#[test]
fn seconds_in_range_become_a_timestamp() {
    assert_eq!(timestamp_from_secs(1500000000), Ok(1500000000));
    assert_eq!(timestamp_from_secs(i64::MAX as u64), Ok(i64::MAX));
}

#[test]
fn seconds_out_of_range_are_an_invalid_timestamp() {
    assert_eq!(timestamp_from_secs(i64::MAX as u64 + 1), Err(Error::InvalidTimestamp));
    assert_eq!(timestamp_ms_from_parts(u64::MAX, 5), Err(Error::InvalidTimestamp));
}

#[test]
fn parts_become_a_millisecond_timestamp() {
    let t = timestamp_ms_from_parts(1673793045, 678).unwrap();
    assert_eq!(t, TimeStampMs::new(1673793045, 678));
}

#[test]
fn system_time_after_epoch_converts_to_seconds() {
    let t = UNIX_EPOCH + Duration::from_secs(1500000000);
    assert_eq!(from_system_time(t), Ok(1500000000));
}

#[test]
fn system_time_before_epoch_is_a_time_error() {
    let t = UNIX_EPOCH - Duration::from_secs(1);
    assert_eq!(from_system_time(t), Err(Error::TimeError));
    assert_eq!(from_system_time_ms(t), Err(Error::TimeError));
}

#[test]
fn system_time_converts_with_milliseconds() {
    let t = UNIX_EPOCH + Duration::from_millis(1500000123);
    let ts = from_system_time_ms(t).unwrap();
    assert_eq!(ts.seconds, 1500000);
    assert_eq!(ts.milliseconds, 123);
    assert_eq!(ts.total_milliseconds(), 1500000123);
}

#[test]
fn system_time_seconds_drop_the_milliseconds() {
    let t = UNIX_EPOCH + Duration::from_millis(1673793045678);
    let ts = from_system_time_ms(t).unwrap();
    assert_eq!(ts.seconds, 1673793045);
    assert_eq!(ts.milliseconds, 678);
    assert_eq!(from_system_time(t), Ok(1673793045));
    let back = TimeStampMs::from_timestamp(1673793045);
    assert_eq!(back.milliseconds, 0);
}

#[test]
fn current_time_is_after_the_epoch() {
    let s = now().unwrap();
    assert!(s > 1_600_000_000);
    let ms = now_ms().unwrap();
    assert!(ms.seconds >= s);
    assert!(ms.milliseconds < 1000);
}

#[test]
fn breakdown_is_rebased_into_components() {
    let b = Breakdown {
        sec: 45,
        min: 30,
        hour: 14,
        month_day: 15,
        month0: 0,
        years_since_1900: 123,
        week_day: 0,
        year_day: 14,
    };
    let c = Components::from_breakdown(&b);
    assert_eq!(
        c,
        Components {
            sec: 45,
            min: 30,
            hour: 14,
            month_day: 15,
            month: 1,
            year: 2023,
            week_day: 0,
            year_day: 14,
        }
    );
}

#[test]
fn breakdown_before_1900_and_in_december() {
    let b = Breakdown {
        sec: 0,
        min: 0,
        hour: 0,
        month_day: 31,
        month0: 11,
        years_since_1900: -100,
        week_day: 0,
        year_day: 364,
    };
    let c = Components::from_breakdown(&b);
    assert_eq!(c.month, 12);
    assert_eq!(c.year, 1800);
    assert_eq!(c.year_day, 364);
}

#[test]
fn error_messages() {
    assert_eq!(Error::TimeError.message(), "Time processing error");
    assert_eq!(Error::InvalidTimestamp.message(), "Invalid timestamp value");
    assert_eq!(Error::FormatError.message(), "Time formatting error");
    assert_eq!(Error::InvalidFormatString.message(), "Invalid format string");
    assert_eq!(Error::Utf8Error.message(), "UTF-8 conversion error");
    assert_eq!(Error::NullByteError.message(), "String contains null bytes");
}
