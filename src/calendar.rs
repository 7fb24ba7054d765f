//! Calendar components of a timestamp.
use vstd::prelude::*;

verus! {

/// The fields of a calendar breakdown as the host's primitive reports them:
/// month counted from 0, year counted from 1900, weekday from Sunday = 0,
/// day of the year from 0. An owned copy, taken right after the call.
#[derive(Debug, Clone, Copy, PartialEq, Eq, Structural, Hash)]
pub struct Breakdown {
    pub sec: i32,
    pub min: i32,
    pub hour: i32,
    pub month_day: i32,
    pub month0: i32,
    pub years_since_1900: i32,
    pub week_day: i32,
    pub year_day: i32,
}

/// Time components.
#[derive(Debug, Clone, Copy, PartialEq, Eq, Structural, Hash)]
pub struct Components {
    /// Second.
    pub sec: u8,
    /// Minute.
    pub min: u8,
    /// Hour.
    pub hour: u8,
    /// Day of month.
    pub month_day: u8,
    /// Month - January is 1, December is 12.
    pub month: u8,
    /// Year.
    pub year: i16,
    /// Day of week.
    pub week_day: u8,
    /// Day of year.
    pub year_day: u16,
}

impl Components {
    /// The components of a breakdown: the month re-based to 1..=12 and the
    /// year made absolute; each field is then narrowed to its type, as a
    /// primitive cast does (keeping the low bits).
    pub fn from_breakdown(b: &Breakdown) -> (r: Components)
        ensures
            r.sec == b.sec as u8,
            r.min == b.min as u8,
            r.hour == b.hour as u8,
            r.month_day == b.month_day as u8,
            r.month == (b.month0 as int + 1) as u8,
            r.year == (b.years_since_1900 as int + 1900) as i16,
            r.week_day == b.week_day as u8,
            r.year_day == b.year_day as u16,
            0 <= b.month0 < 12 ==> 1 <= r.month <= 12,
            -1900 - 32768 <= b.years_since_1900 <= 32767 - 1900 ==> r.year == b.years_since_1900
                + 1900,
    {
        Components {
            sec: b.sec as u8,
            min: b.min as u8,
            hour: b.hour as u8,
            month_day: b.month_day as u8,
            month: (b.month0 as i64 + 1) as u8,
            year: (b.years_since_1900 as i64 + 1900) as i16,
            week_day: b.week_day as u8,
            year_day: b.year_day as u16,
        }
    }
}

} // verus!
