//! The timestamps of the format count seconds from the first instant of
//! 1960; this module turns such counts into calendar dates and back.

use vstd::prelude::*;
use chrono::{Datelike, NaiveDate, TimeDelta, Timelike};

verus! {

/// A date of the proleptic Gregorian calendar and a time of day, to the second.
#[derive(Debug, PartialEq, Eq, Structural, Clone, Copy)]
pub struct SasDateTime {
    pub year: i32,
    pub month: u32,
    pub day: u32,
    pub hour: u32,
    pub minute: u32,
    pub second: u32,
}

impl SasDateTime {
    /// The six fields as numbers: year, month, day, hour, minute, second.
    pub open spec fn civil(self) -> (int, int, int, int, int, int) {
        (
            self.year as int,
            self.month as int,
            self.day as int,
            self.hour as int,
            self.minute as int,
            self.second as int,
        )
    }
}

/// The date and time that chrono finds `seconds` seconds after the given
/// date and time, as year, month, day, hour, minute, second; nothing where
/// the six do not make a date and a time, or where the result is outside the
/// dates that chrono can hold.
pub uninterp spec fn civil_plus_seconds(
    year: int,
    month: int,
    day: int,
    hour: int,
    minute: int,
    second: int,
    seconds: int,
) -> Option<(int, int, int, int, int, int)>;

/// The whole seconds that chrono counts from the second date and time to the
/// first; nothing where either six do not make a date and a time.
pub uninterp spec fn civil_seconds_between(
    year: int,
    month: int,
    day: int,
    hour: int,
    minute: int,
    second: int,
    from_year: int,
    from_month: int,
    from_day: int,
    from_hour: int,
    from_minute: int,
    from_second: int,
) -> Option<int>;

/// The first instant of 1960, from which the format counts.
pub open spec fn sas_epoch() -> SasDateTime {
    SasDateTime { year: 1960, month: 1, day: 1, hour: 0, minute: 0, second: 0 }
}

/// The date and time `seconds` seconds after `base`, if there is one.
pub open spec fn datetime_after(base: SasDateTime, seconds: int) -> Option<
    (int, int, int, int, int, int),
> {
    civil_plus_seconds(
        base.year as int,
        base.month as int,
        base.day as int,
        base.hour as int,
        base.minute as int,
        base.second as int,
        seconds,
    )
}

/// The whole seconds from `from` to `to`, if both are dates and times.
pub open spec fn seconds_from(from: SasDateTime, to: SasDateTime) -> Option<int> {
    civil_seconds_between(
        to.year as int,
        to.month as int,
        to.day as int,
        to.hour as int,
        to.minute as int,
        to.second as int,
        from.year as int,
        from.month as int,
        from.day as int,
        from.hour as int,
        from.minute as int,
        from.second as int,
    )
}

/// Adds seconds to a date and time with `NaiveDateTime::checked_add_signed` of
/// chrono. The date and time go in through `NaiveDate::from_ymd_opt` and
/// `NaiveDate::and_hms_opt`, the seconds through `TimeDelta::try_seconds`, and
/// the sum comes out through the accessors of `Datelike` and `Timelike`. The
/// result is a function of the arguments alone. None of the calls panics: each
/// returns nothing where the fields make no date, the seconds no duration, or
/// the sum no date.
#[verifier::external_body]
fn plus_seconds(base: SasDateTime, seconds: i64) -> (r: Option<SasDateTime>)
    ensures
        r is Some <==> civil_plus_seconds(
            base.year as int,
            base.month as int,
            base.day as int,
            base.hour as int,
            base.minute as int,
            base.second as int,
            seconds as int,
        ) is Some,
        r is Some ==> civil_plus_seconds(
            base.year as int,
            base.month as int,
            base.day as int,
            base.hour as int,
            base.minute as int,
            base.second as int,
            seconds as int,
        ) == Some(r->Some_0.civil()),
{
    let start = NaiveDate::from_ymd_opt(base.year, base.month, base.day)?
        .and_hms_opt(base.hour, base.minute, base.second)?;
    let end = start.checked_add_signed(TimeDelta::try_seconds(seconds)?)?;
    let (year, month, day) = (end.year(), end.month(), end.day());
    let (hour, minute, second) = (end.hour(), end.minute(), end.second());
    Some(SasDateTime { year, month, day, hour, minute, second })
}

/// Counts the whole seconds between two dates and times with
/// `NaiveDateTime::signed_duration_since` of chrono and
/// `TimeDelta::num_seconds`. Each date and time goes in through
/// `NaiveDate::from_ymd_opt` and `NaiveDate::and_hms_opt`. The result is a
/// function of the arguments alone. None of the calls panics: the first two
/// return nothing where the fields make no date, and the difference of two
/// dates is always a duration.
#[verifier::external_body]
fn seconds_between(to: SasDateTime, from: SasDateTime) -> (r: Option<i64>)
    ensures
        r is Some <==> civil_seconds_between(
            to.year as int,
            to.month as int,
            to.day as int,
            to.hour as int,
            to.minute as int,
            to.second as int,
            from.year as int,
            from.month as int,
            from.day as int,
            from.hour as int,
            from.minute as int,
            from.second as int,
        ) is Some,
        r is Some ==> civil_seconds_between(
            to.year as int,
            to.month as int,
            to.day as int,
            to.hour as int,
            to.minute as int,
            to.second as int,
            from.year as int,
            from.month as int,
            from.day as int,
            from.hour as int,
            from.minute as int,
            from.second as int,
        ) == Some(r->Some_0 as int),
{
    let end = NaiveDate::from_ymd_opt(to.year, to.month, to.day)?
        .and_hms_opt(to.hour, to.minute, to.second)?;
    let start = NaiveDate::from_ymd_opt(from.year, from.month, from.day)?
        .and_hms_opt(from.hour, from.minute, from.second)?;
    Some(end.signed_duration_since(start).num_seconds())
}

/// The first instant of 1960.
pub fn get_sas_epoch() -> (r: SasDateTime)
    ensures
        r == sas_epoch(),
{
    SasDateTime { year: 1960, month: 1, day: 1, hour: 0, minute: 0, second: 0 }
}

/// The date and time that a timestamp of whole seconds stands for, if it is
/// one that a date can hold.
pub fn sas_timestamp_to_datetime(timestamp: i64) -> (r: Option<SasDateTime>)
    ensures
        match r {
            Some(t) => datetime_after(sas_epoch(), timestamp as int) == Some(t.civil()),
            None => datetime_after(sas_epoch(), timestamp as int) is None,
        },
{
    let sas_epoch = get_sas_epoch();
    plus_seconds(sas_epoch, timestamp)
}

/// The timestamp of a date and time, in whole seconds; nothing where the
/// fields make no date and time.
pub fn datetime_to_sas_timestamp(datetime: SasDateTime) -> (r: Option<i64>)
    ensures
        match r {
            Some(seconds) => seconds_from(sas_epoch(), datetime) == Some(seconds as int),
            None => seconds_from(sas_epoch(), datetime) is None,
        },
{
    let sas_epoch = get_sas_epoch();
    seconds_between(datetime, sas_epoch)
}

} // verus!
