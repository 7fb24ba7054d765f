use vstd::prelude::*;
use std::time::{Duration, SystemTime};
use crate::error::Error;

verus! {

#[verifier::external_type_specification]
#[verifier::external_body]
pub struct ExSystemTime(std::time::SystemTime);

/// Relies on `SystemTime::now`: some instant read from the system clock.
pub assume_specification[ std::time::SystemTime::now ]() -> std::time::SystemTime;

/// Relies on `Duration::as_secs`: the whole seconds of a duration.
pub assume_specification[ core::time::Duration::as_secs ](d: &core::time::Duration) -> u64;

/// Relies on `Duration::subsec_millis`: the fractional part of a duration in
/// whole milliseconds, documented to be less than one thousand.
pub assume_specification[ core::time::Duration::subsec_millis ](d: &core::time::Duration) -> (r: u32)
    ensures
        r < 1000,
;

/// Relies on `SystemTime::duration_since` with `UNIX_EPOCH`: the time since
/// the epoch, or nothing when `t` lies before it.
#[verifier::external_body]
fn since_epoch(t: &SystemTime) -> (r: Option<Duration>) {
    t.duration_since(std::time::UNIX_EPOCH).ok()
}

/// A UNIX timestamp in seconds.
pub type TimeStamp = i64;

/// A UNIX timestamp with millisecond precision.
#[derive(Debug, Clone, Copy, PartialEq, Eq, Structural, Hash)]
pub struct TimeStampMs {
    /// Seconds since the UNIX epoch.
    pub seconds: i64,
    /// Milliseconds component (0-999).
    pub milliseconds: u16,
}

impl TimeStampMs {
    /// The milliseconds field lies in 0..1000.
    pub open spec fn wf(&self) -> bool {
        self.milliseconds < 1000
    }

    /// The instant as a count of milliseconds since the epoch.
    pub open spec fn spec_total_milliseconds(&self) -> int {
        self.seconds * 1000 + self.milliseconds
    }

    /// Create a new TimeStampMs from seconds and milliseconds; the
    /// milliseconds are taken modulo 1000.
    pub fn new(seconds: i64, milliseconds: u16) -> (r: Self)
        ensures
            r.seconds == seconds,
            r.milliseconds == milliseconds % 1000,
            r.wf(),
    {
        let milliseconds = milliseconds % 1000;
        TimeStampMs { seconds, milliseconds }
    }

    /// Convert from a TimeStamp (seconds only).
    pub fn from_timestamp(ts: TimeStamp) -> (r: Self)
        ensures
            r.seconds == ts,
            r.milliseconds == 0,
            r.wf(),
    {
        TimeStampMs { seconds: ts, milliseconds: 0 }
    }

    /// Get the total milliseconds since the UNIX epoch.
    pub fn total_milliseconds(&self) -> (r: i64)
        requires
            self.wf(),
            i64::MIN <= self.spec_total_milliseconds() <= i64::MAX,
        ensures
            r == self.spec_total_milliseconds(),
    {
        let ms = self.milliseconds as i64;
        if self.seconds >= 0 {
            assert(self.seconds * 1000 <= self.spec_total_milliseconds());
            self.seconds * 1000 + ms
        } else {
            // Stay in range near i64::MIN: count up from the next second.
            let next = self.seconds + 1;
            assert(next <= 0);
            assert(next * 1000 <= 0) by (nonlinear_arith)
                requires next <= 0;
            assert(next * 1000 == self.seconds * 1000 + 1000) by (nonlinear_arith)
                requires next == self.seconds + 1;
            next * 1000 - (1000 - ms)
        }
    }
}

/// The timestamp for a whole number of seconds since the epoch; seconds
/// past `i64::MAX` are out of range.
pub fn timestamp_from_secs(secs: u64) -> (r: Result<TimeStamp, Error>)
    ensures
        secs <= i64::MAX ==> r == Ok::<TimeStamp, Error>(secs as i64),
        secs > i64::MAX ==> r == Err::<TimeStamp, Error>(Error::InvalidTimestamp),
{
    if secs <= i64::MAX as u64 {
        Ok(secs as i64)
    } else {
        Err(Error::InvalidTimestamp)
    }
}

/// The millisecond timestamp for whole seconds since the epoch and the
/// sub-second milliseconds (narrowed to `u16`, then taken modulo 1000);
/// seconds past `i64::MAX` are out of range.
pub fn timestamp_ms_from_parts(secs: u64, millis: u32) -> (r: Result<TimeStampMs, Error>)
    ensures
        secs <= i64::MAX ==> r == Ok::<TimeStampMs, Error>(
            TimeStampMs { seconds: secs as i64, milliseconds: ((millis as u16) % 1000) as u16 },
        ),
        secs > i64::MAX ==> r == Err::<TimeStampMs, Error>(Error::InvalidTimestamp),
        r matches Ok(t) ==> t.wf(),
{
    match timestamp_from_secs(secs) {
        Ok(seconds) => Ok(TimeStampMs::new(seconds, millis as u16)),
        Err(e) => Err(e),
    }
}

/// Convert a `std::time::SystemTime` to a UNIX timestamp in seconds: a time
/// before the epoch is a time error, one too far after it an invalid
/// timestamp.
pub fn from_system_time(time: SystemTime) -> (r: Result<TimeStamp, Error>)
    ensures
        r matches Ok(t) ==> t >= 0,
        r matches Err(e) ==> e == Error::TimeError || e == Error::InvalidTimestamp,
{
    match since_epoch(&time) {
        None => Err(Error::TimeError),
        Some(d) => timestamp_from_secs(d.as_secs()),
    }
}

/// Return the current UNIX timestamp in seconds.
pub fn now() -> (r: Result<TimeStamp, Error>)
    ensures
        r matches Ok(t) ==> t >= 0,
        r matches Err(e) ==> e == Error::TimeError || e == Error::InvalidTimestamp,
{
    from_system_time(SystemTime::now())
}

/// Convert a `std::time::SystemTime` to a UNIX timestamp with millisecond
/// precision: a time before the epoch is a time error, one too far after
/// it an invalid timestamp.
pub fn from_system_time_ms(time: SystemTime) -> (r: Result<TimeStampMs, Error>)
    ensures
        r matches Ok(t) ==> t.seconds >= 0 && t.wf(),
        r matches Err(e) ==> e == Error::TimeError || e == Error::InvalidTimestamp,
{
    match since_epoch(&time) {
        None => Err(Error::TimeError),
        Some(d) => timestamp_ms_from_parts(d.as_secs(), d.subsec_millis()),
    }
}

/// Return the current UNIX timestamp with millisecond precision.
pub fn now_ms() -> (r: Result<TimeStampMs, Error>)
    ensures
        r matches Ok(t) ==> t.seconds >= 0 && t.wf(),
        r matches Err(e) ==> e == Error::TimeError || e == Error::InvalidTimestamp,
{
    from_system_time_ms(SystemTime::now())
}

} // verus!
