//! Creation timestamps of PDF exports.

use vstd::prelude::*;
use chrono::{Datelike, Timelike};
use typst::foundations::Datetime;
use typst_pdf::Timestamp;

verus! {

/// A timestamp with a time zone, as typst's PDF exporter takes it.
#[verifier::external_type_specification]
#[verifier::external_body]
pub struct ExTimestamp(Timestamp);

/// A date and time in UTC, as the fields of a chrono `DateTime<Utc>` read.
#[derive(Clone, Copy, Debug, PartialEq, Eq, Structural)]
pub struct UtcDateTime {
    pub year: i32,
    pub month: u32,
    pub day: u32,
    pub hour: u32,
    pub minute: u32,
    pub second: u32,
}

/// A Gregorian leap year.
pub open spec fn is_leap_year(year: int) -> bool {
    year % 4 == 0 && (year % 100 != 0 || year % 400 == 0)
}

/// The number of days in `month` (1 to 12) of `year`.
pub open spec fn days_in_month(year: int, month: int) -> int {
    if month == 2 {
        if is_leap_year(year) { 29 } else { 28 }
    } else if month == 4 || month == 6 || month == 9 || month == 11 {
        30
    } else {
        31
    }
}

/// A valid date and time of day, seconds below 60.
pub open spec fn valid_date_time(year: int, month: int, day: int, hour: int, minute: int, second: int) -> bool {
    &&& 1 <= month <= 12
    &&& 1 <= day <= days_in_month(year, month)
    &&& 0 <= hour < 24
    &&& 0 <= minute < 60
    &&& 0 <= second < 60
}

impl UtcDateTime {
    /// The fields form a valid date and time of day.
    pub open spec fn wf(self) -> bool {
        valid_date_time(self.year as int, self.month as int, self.day as int, self.hour as int, self.minute as int, self.second as int)
    }
}

/// The number of days from 1970-01-01 to the given date of the proleptic
/// Gregorian calendar (negative before it).
pub open spec fn days_from_civil(year: int, month: int, day: int) -> int {
    let y = if month <= 2 { year - 1 } else { year };
    let era = y / 400;
    let yoe = y - era * 400;
    let mp = (month + 9) % 12;
    let doy = (153 * mp + 2) / 5 + day - 1;
    let doe = yoe * 365 + yoe / 4 - yoe / 100 + doy;
    era * 146097 + doe - 719468
}

/// The seconds since the Unix epoch of a UTC date and time.
pub open spec fn epoch_seconds(d: UtcDateTime) -> int {
    days_from_civil(d.year as int, d.month as int, d.day as int) * 86400 + d.hour * 3600 + d.minute * 60 + d.second
}

/// The UTC date and time that chrono's `DateTime::from_timestamp(seconds, 0)`
/// gives for `seconds` since the Unix epoch, `None` when out of its range.
pub uninterp spec fn chrono_utc_from_timestamp(seconds: i64) -> Option<UtcDateTime>;

/// Whether typst's `Datetime::from_ymd_hms` accepts these fields: a valid
/// date and time of day in a year that typst's `time` dates hold.
pub open spec fn typst_datetime_accepts(year: i32, month: u8, day: u8, hour: u8, minute: u8, second: u8) -> bool {
    &&& valid_date_time(year as int, month as int, day as int, hour as int, minute as int, second as int)
    &&& -9999 <= year <= 9999
}

/// The UTC timestamp that typst_pdf's `Timestamp::new_utc` makes of typst's
/// `Datetime::from_ymd_hms` on fields it accepts.
pub uninterp spec fn typst_utc_timestamp(year: i32, month: u8, day: u8, hour: u8, minute: u8, second: u8) -> Timestamp;

/// chrono's `DateTime::from_timestamp(seconds, 0)`, read into its fields.
/// Trusted: the result is chrono's on `seconds`; chrono's dates and times
/// are valid ones (its `second()` stays below 60), and the date and time it
/// gives lies `seconds` after 1970-01-01T00:00:00 (its documented round trip
/// with `timestamp()`).
#[verifier::external_body]
pub(crate) fn utc_from_timestamp(seconds: i64) -> (res: Option<UtcDateTime>)
    ensures
        res == chrono_utc_from_timestamp(seconds),
        res matches Some(d) ==> d.wf() && epoch_seconds(d) == seconds,
{
    match chrono::DateTime::from_timestamp(seconds, 0) {
        Some(d) => Some(UtcDateTime {
            year: d.year(),
            month: d.month(),
            day: d.day(),
            hour: d.hour(),
            minute: d.minute(),
            second: d.second(),
        }),
        None => None,
    }
}

/// The system clock's reading in whole seconds since the Unix epoch
/// (`SystemTime::now().duration_since(UNIX_EPOCH)`); `None` for a clock
/// before the epoch or beyond `i64`. Nothing is known of the reading.
#[verifier::external_body]
pub(crate) fn clock_seconds() -> Option<i64> {
    match std::time::SystemTime::now().duration_since(std::time::UNIX_EPOCH) {
        Ok(d) => i64::try_from(d.as_secs()).ok(),
        Err(_) => None,
    }
}

/// typst's `Datetime::from_ymd_hms`, made into a UTC timestamp with
/// typst_pdf's `Timestamp::new_utc` (typst's `Datetime` cannot stand in a
/// verified signature). Trusted, from the source of `from_ymd_hms` (it
/// builds a `time` date and time, whose years run from -9999 to 9999 as
/// `time` is built here): it succeeds exactly on a valid date and time of
/// day in those years.
#[verifier::external_body]
fn typst_timestamp_utc(year: i32, month: u8, day: u8, hour: u8, minute: u8, second: u8) -> (res: Option<Timestamp>)
    ensures
        res is Some <==> typst_datetime_accepts(year, month, day, hour, minute, second),
        res matches Some(t) ==> t == typst_utc_timestamp(year, month, day, hour, minute, second),
{
    match Datetime::from_ymd_hms(year, month, day, hour, minute, second) {
        Some(d) => Some(Timestamp::new_utc(d)),
        None => None,
    }
}

/// A Unix timestamp (seconds) that chrono cannot represent.
#[derive(Clone, Copy, Debug, PartialEq, Eq, Structural)]
pub struct TimestampOutOfRange;

/// Converts a source date epoch (seconds since the Unix epoch) to a UTC date
/// and time.
pub fn convert_source_date_epoch(seconds: i64) -> (res: Result<UtcDateTime, TimestampOutOfRange>)
    ensures
        res is Ok <==> chrono_utc_from_timestamp(seconds) is Some,
        res matches Ok(d) ==> Some(d) == chrono_utc_from_timestamp(seconds) && d.wf()
            && epoch_seconds(d) == seconds,
{
    match utc_from_timestamp(seconds) {
        Some(d) => Ok(d),
        None => Err(TimestampOutOfRange),
    }
}

/// Whether typst can represent `d`: each field fits in the byte that typst
/// takes and typst accepts them.
pub open spec fn typst_represents(d: UtcDateTime) -> bool {
    &&& d.month <= 255 && d.day <= 255 && d.hour <= 255 && d.minute <= 255 && d.second <= 255
    &&& typst_datetime_accepts(d.year, d.month as u8, d.day as u8, d.hour as u8, d.minute as u8, d.second as u8)
}

/// The PDF timestamp of a date and time that typst represents.
pub open spec fn spec_timestamp(d: UtcDateTime) -> Timestamp {
    typst_utc_timestamp(d.year, d.month as u8, d.day as u8, d.hour as u8, d.minute as u8, d.second as u8)
}

/// Converts a UTC date and time to a PDF timestamp in UTC; `None` when typst
/// cannot represent it.
pub fn convert_datetime(date_time: UtcDateTime) -> (res: Option<Timestamp>)
    ensures
        res is Some <==> typst_represents(date_time),
        res matches Some(t) ==> t == spec_timestamp(date_time),
        date_time.wf() && -9999 <= date_time.year <= 9999 ==> res is Some,
{
    if date_time.month > 255 || date_time.day > 255 || date_time.hour > 255
        || date_time.minute > 255 || date_time.second > 255 {
        return None;
    }
    typst_timestamp_utc(
        date_time.year,
        date_time.month as u8,
        date_time.day as u8,
        date_time.hour as u8,
        date_time.minute as u8,
        date_time.second as u8,
    )
}

} // verus!
