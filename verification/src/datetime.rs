use chrono::Datelike;
use chrono::Timelike;
use vstd::prelude::*;

verus! {

/// A civil date and time of day, as GRIB2 stores it: year, month, day,
/// hour, minute and second as plain integers (UTC).
#[derive(Debug, Clone, Copy, PartialEq, Eq, Structural)]
pub struct GribDate {
    pub year: u16,
    pub month: u8,
    pub day: u8,
    pub hour: u8,
    pub minute: u8,
    pub second: u8,
}

/// The date and time that lies `minutes` minutes after the date and time
/// given by the first six arguments, in the proleptic Gregorian calendar.
pub uninterp spec fn date_plus_minutes(
    year: int,
    month: int,
    day: int,
    hour: int,
    minute: int,
    second: int,
    minutes: int,
) -> GribDate;

/// Relies on chrono's `NaiveDate::from_ymd_opt`, `NaiveDate::and_hms_opt`,
/// `TimeDelta::try_minutes`, `NaiveDateTime::checked_add_signed` and the
/// `Datelike`/`Timelike` field accessors: calendar addition of a duration
/// in minutes, a function of its arguments alone. Where chrono rejects the
/// input (an invalid civil date, an offset or result outside its range),
/// the input date is returned unchanged, and a result year is reduced into
/// the 16-bit field: deterministic outcomes as well.
#[verifier::external_body]
pub fn date_add_minutes(d: &GribDate, minutes: u64) -> (r: GribDate)
    ensures
        r == date_plus_minutes(
            d.year as int,
            d.month as int,
            d.day as int,
            d.hour as int,
            d.minute as int,
            d.second as int,
            minutes as int,
        ),
{
    let date = chrono::NaiveDate::from_ymd_opt(d.year as i32, d.month as u32, d.day as u32);
    let time = date.and_then(|x| x.and_hms_opt(d.hour as u32, d.minute as u32, d.second as u32));
    let delta = chrono::TimeDelta::try_minutes(minutes as i64);
    let sum = time.and_then(|t| delta.and_then(|dl| t.checked_add_signed(dl)));
    let back = sum.map(|t| GribDate {
        year: t.year() as u16, month: t.month() as u8, day: t.day() as u8,
        hour: t.hour() as u8, minute: t.minute() as u8, second: t.second() as u8,
    });
    back.unwrap_or(*d)
}

} // verus!
