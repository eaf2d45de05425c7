//! The calls into the calendar and time-zone engine.
//!
//! Nothing in this file is proved. Each function hands plain values to
//! `temporal_rs` and plain values back, and its contract records what the
//! engine's source shows. Where the engine's answer takes pages to write down
//! but depends on the arguments alone, the answer has a name here, and the
//! contract says that the call returns what the name stands for. The engine
//! answers every question about zones from the zone database compiled into
//! it, so equal arguments give equal answers.

use vstd::prelude::*;
use crate::duration::Duration;
use crate::duration::DurationView;
use crate::error::EngineFault;
use crate::fields::optional_text;
use crate::fields::DateFields;
use crate::fields::DateFieldsView;
use crate::fields::TimeFields;
use crate::options::ArithmeticOverflow;
use crate::options::Disambiguation;
use crate::options::OffsetDisambiguation;
use temporal_rs::error::ErrorKind;
use temporal_rs::fields::CalendarFields;
use temporal_rs::fields::ZonedDateTimeFields;
use temporal_rs::partial::PartialTime;
use temporal_rs::partial::PartialZonedDateTime;
use temporal_rs::Calendar;
use temporal_rs::TimeZone;
use temporal_rs::UtcOffset;
use temporal_rs::ZonedDateTime;
use temporal_rs::options;

verus! {

/// A text outcome read as its characters.
pub open spec fn text_outcome(r: Result<String, EngineFault>) -> Result<Seq<char>, EngineFault> {
    match r {
        Ok(s) => Ok(s@),
        Err(f) => Err(f),
    }
}

/// A 64-bit outcome read as a mathematical integer.
pub open spec fn offset_outcome(r: Result<i64, EngineFault>) -> Result<int, EngineFault> {
    match r {
        Ok(v) => Ok(v as int),
        Err(f) => Err(f),
    }
}

/// A 128-bit outcome read as a mathematical integer.
pub open spec fn wide_outcome(r: Result<i128, EngineFault>) -> Result<int, EngineFault> {
    match r {
        Ok(v) => Ok(v as int),
        Err(f) => Err(f),
    }
}

/// An optional 32-bit integer read as a mathematical integer.
pub open spec fn optional_i32(v: Option<i32>) -> Option<int> {
    match v {
        Some(x) => Some(x as int),
        None => None,
    }
}

/// An optional 8-bit integer read as a mathematical integer.
pub open spec fn optional_u8(v: Option<u8>) -> Option<int> {
    match v {
        Some(x) => Some(x as int),
        None => None,
    }
}

/// The identifier of the time zone that a text denotes: a zone name in the
/// database's spelling, or a numeric offset in the form `+HH:MM`. An error
/// where the text denotes no zone.
pub uninterp spec fn zone_identifier(text: Seq<char>) -> Result<Seq<char>, EngineFault>;

/// `temporal_rs::TimeZone::try_from_str`, then `TimeZone::identifier` on the
/// zone it found.
#[verifier::external_body]
pub(crate) fn parse_zone(text: &str) -> (r: Result<String, EngineFault>)
    ensures
        text_outcome(r) == zone_identifier(text@),
{
    TimeZone::try_from_str(text)
        .and_then(|zone| zone.identifier())
        .map_err(|e| match e.kind() {
            ErrorKind::Type => EngineFault::Type,
            _ => EngineFault::Other,
        })
}

/// The canonical identifier of the calendar that a text denotes, an error
/// where it denotes none.
pub uninterp spec fn calendar_identifier(text: Seq<char>) -> Result<Seq<char>, EngineFault>;

/// `temporal_rs::Calendar::from_str`, then `Calendar::identifier`.
#[verifier::external_body]
pub(crate) fn parse_calendar(text: &str) -> (r: Result<String, EngineFault>)
    ensures
        text_outcome(r) == calendar_identifier(text@),
{
    text.parse::<Calendar>()
        .map(|calendar| calendar.identifier().into())
        .map_err(|e| match e.kind() {
            ErrorKind::Type => EngineFault::Type,
            _ => EngineFault::Other,
        })
}

/// The UTC offset, in nanoseconds, that a text such as `+05:30` writes down,
/// an error where the text is no offset.
pub uninterp spec fn utc_offset_nanoseconds(text: Seq<char>) -> Result<int, EngineFault>;

/// `temporal_rs::UtcOffset::from_utf8`, then `UtcOffset::nanoseconds`.
#[verifier::external_body]
pub(crate) fn parse_utc_offset(text: &str) -> (r: Result<i64, EngineFault>)
    ensures
        offset_outcome(r) == utc_offset_nanoseconds(text@),
{
    UtcOffset::from_utf8(text.as_bytes())
        .map(|offset| offset.nanoseconds())
        .map_err(|e| match e.kind() {
            ErrorKind::Type => EngineFault::Type,
            _ => EngineFault::Other,
        })
}

/// The UTC offset, in nanoseconds, in force in a zone at an instant, as found
/// when a zoned date-time is built from the instant, the zone's identifier
/// and the calendar's; an error where one of the three is refused.
pub uninterp spec fn resolved_offset(nanos: int, zone: Seq<char>, calendar: Seq<char>) -> Result<
    int,
    EngineFault,
>;

/// `temporal_rs::ZonedDateTime::try_new` on the instant, the zone that
/// `TimeZone::try_from_identifier_str` finds and the calendar that
/// `Calendar::try_from_utf8` finds; then `ZonedDateTime::offset_nanoseconds`.
#[verifier::external_body]
pub(crate) fn resolve_offset(nanos: i128, zone: &str, calendar: &str) -> (r: Result<
    i64,
    EngineFault,
>)
    ensures
        offset_outcome(r) == resolved_offset(nanos as int, zone@, calendar@),
{
    TimeZone::try_from_identifier_str(zone)
        .and_then(|tz| ZonedDateTime::try_new(nanos, tz, Calendar::try_from_utf8(calendar.as_bytes())?))
        .map(|z| z.offset_nanoseconds())
        .map_err(|e| match e.kind() {
            ErrorKind::Type => EngineFault::Type,
            _ => EngineFault::Other,
        })
}

/// The era of the civil date, in lower case; none where the calendar has no
/// eras.
pub uninterp spec fn civil_era(nanos: int, zone: Seq<char>, calendar: Seq<char>) -> Option<
    Seq<char>,
>;

/// `temporal_rs::ZonedDateTime::era` on the value built as in
/// [`resolve_offset`], the era's text put in lower case by
/// `str::to_lowercase`; none exactly where that building fails.
#[verifier::external_body]
pub(crate) fn era_of(nanos: i128, zone: &str, calendar: &str) -> (r: Option<Option<String>>)
    ensures
        match r {
            Some(v) => resolved_offset(nanos as int, zone@, calendar@) is Ok
                && optional_text(v) == civil_era(nanos as int, zone@, calendar@),
            None => resolved_offset(nanos as int, zone@, calendar@) is Err,
        },
{
    let tz = TimeZone::try_from_identifier_str(zone).ok()?;
    let calendar = Calendar::try_from_utf8(calendar.as_bytes()).ok()?;
    Some(ZonedDateTime::try_new(nanos, tz, calendar).ok()?.era().map(|e| e.to_lowercase()))
}

/// The year within the era; none where the calendar has no eras.
pub uninterp spec fn civil_era_year(nanos: int, zone: Seq<char>, calendar: Seq<char>) -> Option<
    int,
>;

/// `temporal_rs::ZonedDateTime::era_year` on the value built as in
/// [`resolve_offset`]; none exactly where that building fails.
#[verifier::external_body]
pub(crate) fn era_year_of(nanos: i128, zone: &str, calendar: &str) -> (r: Option<Option<i32>>)
    ensures
        match r {
            Some(v) => resolved_offset(nanos as int, zone@, calendar@) is Ok
                && optional_i32(v) == civil_era_year(nanos as int, zone@, calendar@),
            None => resolved_offset(nanos as int, zone@, calendar@) is Err,
        },
{
    let tz = TimeZone::try_from_identifier_str(zone).ok()?;
    let calendar = Calendar::try_from_utf8(calendar.as_bytes()).ok()?;
    Some(ZonedDateTime::try_new(nanos, tz, calendar).ok()?.era_year())
}

/// The calendar year of the civil date.
pub uninterp spec fn civil_year(nanos: int, zone: Seq<char>, calendar: Seq<char>) -> int;

/// `temporal_rs::ZonedDateTime::year` on the value built as in
/// [`resolve_offset`]; none exactly where that building fails.
#[verifier::external_body]
pub(crate) fn year_of(nanos: i128, zone: &str, calendar: &str) -> (r: Option<i32>)
    ensures
        match r {
            Some(v) => resolved_offset(nanos as int, zone@, calendar@) is Ok
                && v == civil_year(nanos as int, zone@, calendar@),
            None => resolved_offset(nanos as int, zone@, calendar@) is Err,
        },
{
    let tz = TimeZone::try_from_identifier_str(zone).ok()?;
    let calendar = Calendar::try_from_utf8(calendar.as_bytes()).ok()?;
    Some(ZonedDateTime::try_new(nanos, tz, calendar).ok()?.year())
}

/// The ordinal month of the civil date.
pub uninterp spec fn civil_month(nanos: int, zone: Seq<char>, calendar: Seq<char>) -> int;

/// `temporal_rs::ZonedDateTime::month` on the value built as in
/// [`resolve_offset`]; none exactly where that building fails.
#[verifier::external_body]
pub(crate) fn month_of(nanos: i128, zone: &str, calendar: &str) -> (r: Option<u8>)
    ensures
        match r {
            Some(v) => resolved_offset(nanos as int, zone@, calendar@) is Ok
                && v == civil_month(nanos as int, zone@, calendar@),
            None => resolved_offset(nanos as int, zone@, calendar@) is Err,
        },
{
    let tz = TimeZone::try_from_identifier_str(zone).ok()?;
    let calendar = Calendar::try_from_utf8(calendar.as_bytes()).ok()?;
    Some(ZonedDateTime::try_new(nanos, tz, calendar).ok()?.month())
}

/// The month code of the civil date, such as `M03`.
pub uninterp spec fn civil_month_code(nanos: int, zone: Seq<char>, calendar: Seq<char>) -> Seq<
    char,
>;

/// `temporal_rs::ZonedDateTime::month_code` on the value built as in
/// [`resolve_offset`], the code read as text by `MonthCode::as_str`; none
/// exactly where that building fails.
#[verifier::external_body]
pub(crate) fn month_code_of(nanos: i128, zone: &str, calendar: &str) -> (r: Option<String>)
    ensures
        match r {
            Some(v) => resolved_offset(nanos as int, zone@, calendar@) is Ok
                && v@ == civil_month_code(nanos as int, zone@, calendar@),
            None => resolved_offset(nanos as int, zone@, calendar@) is Err,
        },
{
    let tz = TimeZone::try_from_identifier_str(zone).ok()?;
    let calendar = Calendar::try_from_utf8(calendar.as_bytes()).ok()?;
    Some(ZonedDateTime::try_new(nanos, tz, calendar).ok()?.month_code().as_str().into())
}

/// The day of the month of the civil date.
pub uninterp spec fn civil_day(nanos: int, zone: Seq<char>, calendar: Seq<char>) -> int;

/// `temporal_rs::ZonedDateTime::day` on the value built as in
/// [`resolve_offset`]; none exactly where that building fails.
#[verifier::external_body]
pub(crate) fn day_of(nanos: i128, zone: &str, calendar: &str) -> (r: Option<u8>)
    ensures
        match r {
            Some(v) => resolved_offset(nanos as int, zone@, calendar@) is Ok
                && v == civil_day(nanos as int, zone@, calendar@),
            None => resolved_offset(nanos as int, zone@, calendar@) is Err,
        },
{
    let tz = TimeZone::try_from_identifier_str(zone).ok()?;
    let calendar = Calendar::try_from_utf8(calendar.as_bytes()).ok()?;
    Some(ZonedDateTime::try_new(nanos, tz, calendar).ok()?.day())
}

/// The hour of the wall-clock time.
pub uninterp spec fn civil_hour(nanos: int, zone: Seq<char>, calendar: Seq<char>) -> int;

/// `temporal_rs::ZonedDateTime::hour` on the value built as in
/// [`resolve_offset`]; none exactly where that building fails.
#[verifier::external_body]
pub(crate) fn hour_of(nanos: i128, zone: &str, calendar: &str) -> (r: Option<u8>)
    ensures
        match r {
            Some(v) => resolved_offset(nanos as int, zone@, calendar@) is Ok
                && v == civil_hour(nanos as int, zone@, calendar@),
            None => resolved_offset(nanos as int, zone@, calendar@) is Err,
        },
{
    let tz = TimeZone::try_from_identifier_str(zone).ok()?;
    let calendar = Calendar::try_from_utf8(calendar.as_bytes()).ok()?;
    Some(ZonedDateTime::try_new(nanos, tz, calendar).ok()?.hour())
}

/// The minute of the wall-clock time.
pub uninterp spec fn civil_minute(nanos: int, zone: Seq<char>, calendar: Seq<char>) -> int;

/// `temporal_rs::ZonedDateTime::minute` on the value built as in
/// [`resolve_offset`]; none exactly where that building fails.
#[verifier::external_body]
pub(crate) fn minute_of(nanos: i128, zone: &str, calendar: &str) -> (r: Option<u8>)
    ensures
        match r {
            Some(v) => resolved_offset(nanos as int, zone@, calendar@) is Ok
                && v == civil_minute(nanos as int, zone@, calendar@),
            None => resolved_offset(nanos as int, zone@, calendar@) is Err,
        },
{
    let tz = TimeZone::try_from_identifier_str(zone).ok()?;
    let calendar = Calendar::try_from_utf8(calendar.as_bytes()).ok()?;
    Some(ZonedDateTime::try_new(nanos, tz, calendar).ok()?.minute())
}

/// The second of the wall-clock time.
pub uninterp spec fn civil_second(nanos: int, zone: Seq<char>, calendar: Seq<char>) -> int;

/// `temporal_rs::ZonedDateTime::second` on the value built as in
/// [`resolve_offset`]; none exactly where that building fails.
#[verifier::external_body]
pub(crate) fn second_of(nanos: i128, zone: &str, calendar: &str) -> (r: Option<u8>)
    ensures
        match r {
            Some(v) => resolved_offset(nanos as int, zone@, calendar@) is Ok
                && v == civil_second(nanos as int, zone@, calendar@),
            None => resolved_offset(nanos as int, zone@, calendar@) is Err,
        },
{
    let tz = TimeZone::try_from_identifier_str(zone).ok()?;
    let calendar = Calendar::try_from_utf8(calendar.as_bytes()).ok()?;
    Some(ZonedDateTime::try_new(nanos, tz, calendar).ok()?.second())
}

/// The millisecond of the wall-clock time.
pub uninterp spec fn civil_millisecond(nanos: int, zone: Seq<char>, calendar: Seq<char>) -> int;

/// `temporal_rs::ZonedDateTime::millisecond` on the value built as in
/// [`resolve_offset`]; none exactly where that building fails.
#[verifier::external_body]
pub(crate) fn millisecond_of(nanos: i128, zone: &str, calendar: &str) -> (r: Option<u16>)
    ensures
        match r {
            Some(v) => resolved_offset(nanos as int, zone@, calendar@) is Ok
                && v == civil_millisecond(nanos as int, zone@, calendar@),
            None => resolved_offset(nanos as int, zone@, calendar@) is Err,
        },
{
    let tz = TimeZone::try_from_identifier_str(zone).ok()?;
    let calendar = Calendar::try_from_utf8(calendar.as_bytes()).ok()?;
    Some(ZonedDateTime::try_new(nanos, tz, calendar).ok()?.millisecond())
}

/// The microsecond of the wall-clock time.
pub uninterp spec fn civil_microsecond(nanos: int, zone: Seq<char>, calendar: Seq<char>) -> int;

/// `temporal_rs::ZonedDateTime::microsecond` on the value built as in
/// [`resolve_offset`]; none exactly where that building fails.
#[verifier::external_body]
pub(crate) fn microsecond_of(nanos: i128, zone: &str, calendar: &str) -> (r: Option<u16>)
    ensures
        match r {
            Some(v) => resolved_offset(nanos as int, zone@, calendar@) is Ok
                && v == civil_microsecond(nanos as int, zone@, calendar@),
            None => resolved_offset(nanos as int, zone@, calendar@) is Err,
        },
{
    let tz = TimeZone::try_from_identifier_str(zone).ok()?;
    let calendar = Calendar::try_from_utf8(calendar.as_bytes()).ok()?;
    Some(ZonedDateTime::try_new(nanos, tz, calendar).ok()?.microsecond())
}

/// The nanosecond of the wall-clock time.
pub uninterp spec fn civil_nanosecond(nanos: int, zone: Seq<char>, calendar: Seq<char>) -> int;

/// `temporal_rs::ZonedDateTime::nanosecond` on the value built as in
/// [`resolve_offset`]; none exactly where that building fails.
#[verifier::external_body]
pub(crate) fn nanosecond_of(nanos: i128, zone: &str, calendar: &str) -> (r: Option<u16>)
    ensures
        match r {
            Some(v) => resolved_offset(nanos as int, zone@, calendar@) is Ok
                && v == civil_nanosecond(nanos as int, zone@, calendar@),
            None => resolved_offset(nanos as int, zone@, calendar@) is Err,
        },
{
    let tz = TimeZone::try_from_identifier_str(zone).ok()?;
    let calendar = Calendar::try_from_utf8(calendar.as_bytes()).ok()?;
    Some(ZonedDateTime::try_new(nanos, tz, calendar).ok()?.nanosecond())
}

/// The day of the week of the civil date, Monday being 1.
pub uninterp spec fn civil_day_of_week(nanos: int, zone: Seq<char>, calendar: Seq<char>) -> int;

/// `temporal_rs::ZonedDateTime::day_of_week` on the value built as in
/// [`resolve_offset`]; none exactly where that building fails.
#[verifier::external_body]
pub(crate) fn day_of_week_of(nanos: i128, zone: &str, calendar: &str) -> (r: Option<u16>)
    ensures
        match r {
            Some(v) => resolved_offset(nanos as int, zone@, calendar@) is Ok
                && v == civil_day_of_week(nanos as int, zone@, calendar@),
            None => resolved_offset(nanos as int, zone@, calendar@) is Err,
        },
{
    let tz = TimeZone::try_from_identifier_str(zone).ok()?;
    let calendar = Calendar::try_from_utf8(calendar.as_bytes()).ok()?;
    Some(ZonedDateTime::try_new(nanos, tz, calendar).ok()?.day_of_week())
}

/// The day of the year of the civil date.
pub uninterp spec fn civil_day_of_year(nanos: int, zone: Seq<char>, calendar: Seq<char>) -> int;

/// `temporal_rs::ZonedDateTime::day_of_year` on the value built as in
/// [`resolve_offset`]; none exactly where that building fails.
#[verifier::external_body]
pub(crate) fn day_of_year_of(nanos: i128, zone: &str, calendar: &str) -> (r: Option<u16>)
    ensures
        match r {
            Some(v) => resolved_offset(nanos as int, zone@, calendar@) is Ok
                && v == civil_day_of_year(nanos as int, zone@, calendar@),
            None => resolved_offset(nanos as int, zone@, calendar@) is Err,
        },
{
    let tz = TimeZone::try_from_identifier_str(zone).ok()?;
    let calendar = Calendar::try_from_utf8(calendar.as_bytes()).ok()?;
    Some(ZonedDateTime::try_new(nanos, tz, calendar).ok()?.day_of_year())
}

/// The week of the year; none where the calendar numbers no weeks.
pub uninterp spec fn civil_week_of_year(nanos: int, zone: Seq<char>, calendar: Seq<char>) -> Option<
    int,
>;

/// `temporal_rs::ZonedDateTime::week_of_year` on the value built as in
/// [`resolve_offset`]; none exactly where that building fails.
#[verifier::external_body]
pub(crate) fn week_of_year_of(nanos: i128, zone: &str, calendar: &str) -> (r: Option<Option<u8>>)
    ensures
        match r {
            Some(v) => resolved_offset(nanos as int, zone@, calendar@) is Ok
                && optional_u8(v) == civil_week_of_year(nanos as int, zone@, calendar@),
            None => resolved_offset(nanos as int, zone@, calendar@) is Err,
        },
{
    let tz = TimeZone::try_from_identifier_str(zone).ok()?;
    let calendar = Calendar::try_from_utf8(calendar.as_bytes()).ok()?;
    Some(ZonedDateTime::try_new(nanos, tz, calendar).ok()?.week_of_year())
}

/// The year that the week belongs to; none where the calendar numbers no
/// weeks.
pub uninterp spec fn civil_year_of_week(nanos: int, zone: Seq<char>, calendar: Seq<char>) -> Option<
    int,
>;

/// `temporal_rs::ZonedDateTime::year_of_week` on the value built as in
/// [`resolve_offset`]; none exactly where that building fails.
#[verifier::external_body]
pub(crate) fn year_of_week_of(nanos: i128, zone: &str, calendar: &str) -> (r: Option<Option<i32>>)
    ensures
        match r {
            Some(v) => resolved_offset(nanos as int, zone@, calendar@) is Ok
                && optional_i32(v) == civil_year_of_week(nanos as int, zone@, calendar@),
            None => resolved_offset(nanos as int, zone@, calendar@) is Err,
        },
{
    let tz = TimeZone::try_from_identifier_str(zone).ok()?;
    let calendar = Calendar::try_from_utf8(calendar.as_bytes()).ok()?;
    Some(ZonedDateTime::try_new(nanos, tz, calendar).ok()?.year_of_week())
}

/// The number of days in the month of the civil date.
pub uninterp spec fn civil_days_in_month(nanos: int, zone: Seq<char>, calendar: Seq<char>) -> int;

/// `temporal_rs::ZonedDateTime::days_in_month` on the value built as in
/// [`resolve_offset`]; none exactly where that building fails.
#[verifier::external_body]
pub(crate) fn days_in_month_of(nanos: i128, zone: &str, calendar: &str) -> (r: Option<u16>)
    ensures
        match r {
            Some(v) => resolved_offset(nanos as int, zone@, calendar@) is Ok
                && v == civil_days_in_month(nanos as int, zone@, calendar@),
            None => resolved_offset(nanos as int, zone@, calendar@) is Err,
        },
{
    let tz = TimeZone::try_from_identifier_str(zone).ok()?;
    let calendar = Calendar::try_from_utf8(calendar.as_bytes()).ok()?;
    Some(ZonedDateTime::try_new(nanos, tz, calendar).ok()?.days_in_month())
}

/// The number of days in the year of the civil date.
pub uninterp spec fn civil_days_in_year(nanos: int, zone: Seq<char>, calendar: Seq<char>) -> int;

/// `temporal_rs::ZonedDateTime::days_in_year` on the value built as in
/// [`resolve_offset`]; none exactly where that building fails.
#[verifier::external_body]
pub(crate) fn days_in_year_of(nanos: i128, zone: &str, calendar: &str) -> (r: Option<u16>)
    ensures
        match r {
            Some(v) => resolved_offset(nanos as int, zone@, calendar@) is Ok
                && v == civil_days_in_year(nanos as int, zone@, calendar@),
            None => resolved_offset(nanos as int, zone@, calendar@) is Err,
        },
{
    let tz = TimeZone::try_from_identifier_str(zone).ok()?;
    let calendar = Calendar::try_from_utf8(calendar.as_bytes()).ok()?;
    Some(ZonedDateTime::try_new(nanos, tz, calendar).ok()?.days_in_year())
}

/// The number of months in the year of the civil date.
pub uninterp spec fn civil_months_in_year(nanos: int, zone: Seq<char>, calendar: Seq<char>) -> int;

/// `temporal_rs::ZonedDateTime::months_in_year` on the value built as in
/// [`resolve_offset`]; none exactly where that building fails.
#[verifier::external_body]
pub(crate) fn months_in_year_of(nanos: i128, zone: &str, calendar: &str) -> (r: Option<u16>)
    ensures
        match r {
            Some(v) => resolved_offset(nanos as int, zone@, calendar@) is Ok
                && v == civil_months_in_year(nanos as int, zone@, calendar@),
            None => resolved_offset(nanos as int, zone@, calendar@) is Err,
        },
{
    let tz = TimeZone::try_from_identifier_str(zone).ok()?;
    let calendar = Calendar::try_from_utf8(calendar.as_bytes()).ok()?;
    Some(ZonedDateTime::try_new(nanos, tz, calendar).ok()?.months_in_year())
}

/// Whether the civil date lies in a leap year of its calendar.
pub uninterp spec fn civil_in_leap_year(nanos: int, zone: Seq<char>, calendar: Seq<char>) -> bool;

/// `temporal_rs::ZonedDateTime::in_leap_year` on the value built as in
/// [`resolve_offset`]; none exactly where that building fails.
#[verifier::external_body]
pub(crate) fn in_leap_year_of(nanos: i128, zone: &str, calendar: &str) -> (r: Option<bool>)
    ensures
        match r {
            Some(v) => resolved_offset(nanos as int, zone@, calendar@) is Ok
                && v == civil_in_leap_year(nanos as int, zone@, calendar@),
            None => resolved_offset(nanos as int, zone@, calendar@) is Err,
        },
{
    let tz = TimeZone::try_from_identifier_str(zone).ok()?;
    let calendar = Calendar::try_from_utf8(calendar.as_bytes()).ok()?;
    Some(ZonedDateTime::try_new(nanos, tz, calendar).ok()?.in_leap_year())
}

/// `temporal_rs::ZonedDateTime::days_in_week` on the value built as in
/// [`resolve_offset`]; none exactly where that building fails. The engine
/// answers seven for every calendar it has.
#[verifier::external_body]
pub(crate) fn days_in_week_of(nanos: i128, zone: &str, calendar: &str) -> (r: Option<u16>)
    ensures
        match r {
            Some(v) => resolved_offset(nanos as int, zone@, calendar@) is Ok && v == 7,
            None => resolved_offset(nanos as int, zone@, calendar@) is Err,
        },
{
    let tz = TimeZone::try_from_identifier_str(zone).ok()?;
    let calendar = Calendar::try_from_utf8(calendar.as_bytes()).ok()?;
    Some(ZonedDateTime::try_new(nanos, tz, calendar).ok()?.days_in_week())
}

/// The length in hours of the civil day that holds the instant, from the
/// day's first moment in the zone to the first moment of the next day, as
/// the bit pattern of a double-precision number; none where the engine
/// cannot tell.
pub uninterp spec fn hours_in_day_bits(nanos: int, zone: Seq<char>, calendar: Seq<char>) -> Option<
    int,
>;

/// `temporal_rs::ZonedDateTime::hours_in_day` on the value built as in
/// [`resolve_offset`], its result carried over bit for bit.
#[verifier::external_body]
pub(crate) fn hours_in_day_of(nanos: i128, zone: &str, calendar: &str) -> (r: Option<u64>)
    ensures
        hours_in_day_bits(nanos as int, zone@, calendar@) == (match r {
            Some(v) => Some(v as int),
            None => None,
        }),
{
    let tz = TimeZone::try_from_identifier_str(zone).ok()?;
    let calendar = Calendar::try_from_utf8(calendar.as_bytes()).ok()?;
    let hours = ZonedDateTime::try_new(nanos, tz, calendar).ok()?.hours_in_day().ok()?;
    Some(hours.to_bits())
}

/// What a zoned date-time text denotes under the two policies: the instant
/// in nanoseconds, the identifier of the annotated zone and the identifier
/// of the calendar. An error where the text does not parse, names an unknown
/// zone or calendar, or is refused by a policy.
pub uninterp spec fn parsed_zoned(
    text: Seq<char>,
    disambiguation: Disambiguation,
    offset: OffsetDisambiguation,
) -> Result<(int, Seq<char>, Seq<char>), EngineFault>;

/// `temporal_rs::ZonedDateTime::from_utf8`; the three parts are read off the
/// result with `to_instant`, `time_zone().identifier()` and
/// `calendar().identifier()`.
#[verifier::external_body]
pub(crate) fn parse_zoned(
    text: &str,
    disambiguation: Disambiguation,
    offset: OffsetDisambiguation,
) -> (r: Result<(i128, String, String), EngineFault>)
    ensures
        parsed_zoned(text@, disambiguation, offset) == (match r {
            Ok((n, z, c)) => Ok::<(int, Seq<char>, Seq<char>), EngineFault>((n as int, z@, c@)),
            Err(f) => Err(f),
        }),
{
    let d = match disambiguation {
        Disambiguation::Compatible => options::Disambiguation::Compatible,
        Disambiguation::Earlier => options::Disambiguation::Earlier,
        Disambiguation::Later => options::Disambiguation::Later,
        Disambiguation::Reject => options::Disambiguation::Reject,
    };
    let o = match offset {
        OffsetDisambiguation::Use => options::OffsetDisambiguation::Use,
        OffsetDisambiguation::Prefer => options::OffsetDisambiguation::Prefer,
        OffsetDisambiguation::Ignore => options::OffsetDisambiguation::Ignore,
        OffsetDisambiguation::Reject => options::OffsetDisambiguation::Reject,
    };
    ZonedDateTime::from_utf8(text.as_bytes(), d, o)
        .and_then(|z| Ok((z.to_instant().as_i128(), z.time_zone().identifier()?, z.calendar().identifier().into())))
        .map_err(|e| match e.kind() { ErrorKind::Type => EngineFault::Type, _ => EngineFault::Other })
}

/// The instant, in nanoseconds, reached by adding a duration to the zoned
/// date-time made of an instant, a zone identifier and a calendar
/// identifier, under an overflow policy; an error where the engine refuses.
pub uninterp spec fn added_nanoseconds(
    nanos: int,
    zone: Seq<char>,
    calendar: Seq<char>,
    duration: DurationView,
    overflow: ArithmeticOverflow,
) -> Result<int, EngineFault>;

/// `temporal_rs::ZonedDateTime::add` on the value built as in
/// [`resolve_offset`], with the duration that `Duration::new` makes of the
/// ten magnitudes. Where the duration sets no calendar unit, the engine adds
/// the clock part to the instant as one exact nanosecond count.
#[verifier::external_body]
pub(crate) fn add_duration(
    nanos: i128,
    zone: &str,
    calendar: &str,
    duration: &Duration,
    overflow: ArithmeticOverflow,
) -> (r: Result<i128, EngineFault>)
    ensures
        wide_outcome(r) == added_nanoseconds(nanos as int, zone@, calendar@, duration@, overflow),
        match r {
            Ok(v) => duration@.date_is_zero() ==> v == nanos + duration@.time_nanoseconds(),
            Err(_) => true,
        },
{
    let o = match overflow {
        ArithmeticOverflow::Constrain => options::Overflow::Constrain,
        ArithmeticOverflow::Reject => options::Overflow::Reject,
    };
    let d = duration;
    TimeZone::try_from_identifier_str(zone)
        .and_then(|tz| ZonedDateTime::try_new(nanos, tz, Calendar::try_from_utf8(calendar.as_bytes())?))
        .and_then(|z| z.add(&temporal_rs::Duration::new(d.years, d.months, d.weeks, d.days, d.hours, d.minutes, d.seconds, d.milliseconds, d.microseconds, d.nanoseconds)?, Some(o)))
        .map(|z| z.to_instant().as_i128())
        .map_err(|e| match e.kind() {
            ErrorKind::Type => EngineFault::Type,
            _ => EngineFault::Other,
        })
}

/// `temporal_rs::ZonedDateTime::subtract`, with the arguments of
/// [`add_duration`]. The engine subtracts by adding the negated duration, so
/// the result is what adding the negation gives.
#[verifier::external_body]
pub(crate) fn subtract_duration(
    nanos: i128,
    zone: &str,
    calendar: &str,
    duration: &Duration,
    overflow: ArithmeticOverflow,
) -> (r: Result<i128, EngineFault>)
    ensures
        wide_outcome(r) == added_nanoseconds(
            nanos as int,
            zone@,
            calendar@,
            duration@.negated(),
            overflow,
        ),
        match r {
            Ok(v) => duration@.date_is_zero() ==> v == nanos - duration@.time_nanoseconds(),
            Err(_) => true,
        },
{
    let o = match overflow {
        ArithmeticOverflow::Constrain => options::Overflow::Constrain,
        ArithmeticOverflow::Reject => options::Overflow::Reject,
    };
    let d = duration;
    TimeZone::try_from_identifier_str(zone)
        .and_then(|tz| ZonedDateTime::try_new(nanos, tz, Calendar::try_from_utf8(calendar.as_bytes())?))
        .and_then(|z| z.subtract(&temporal_rs::Duration::new(d.years, d.months, d.weeks, d.days, d.hours, d.minutes, d.seconds, d.milliseconds, d.microseconds, d.nanoseconds)?, Some(o)))
        .map(|z| z.to_instant().as_i128())
        .map_err(|e| match e.kind() {
            ErrorKind::Type => EngineFault::Type,
            _ => EngineFault::Other,
        })
}

/// Calendar date fields in the engine's own record.
#[verifier::external_type_specification]
#[verifier::external_body]
pub struct ExCalendarFields(CalendarFields);

/// Wall-clock time fields in the engine's own record.
#[verifier::external_type_specification]
#[verifier::external_body]
pub struct ExPartialTime(PartialTime);

/// The date fields that an engine record holds.
pub uninterp spec fn held_date(fields: CalendarFields) -> DateFieldsView;

/// The time fields that an engine record holds.
pub uninterp spec fn held_time(fields: PartialTime) -> TimeFields;

/// Fills a `temporal_rs::fields::CalendarFields` field by field. The month
/// code goes through `MonthCode::from_str`, which takes `M`, two digits and
/// an optional `L`; the era goes through `TinyAsciiStr::<19>::from_str`,
/// which takes up to nineteen ASCII characters other than NUL. A text that
/// either refuses is a failure; otherwise the record holds what was given.
#[verifier::external_body]
pub(crate) fn engine_date(date: &DateFields) -> (r: Result<CalendarFields, EngineFault>)
    ensures
        match r {
            Ok(fields) => date@.is_readable() && held_date(fields) == date@,
            Err(fault) => !date@.is_readable() && fault == EngineFault::Other,
        },
{
    let DateFields { year, month, month_code, day, era, era_year } = date.clone();
    let month_code = month_code.map(|s| s.parse()).transpose().map_err(|_: temporal_rs::TemporalError| EngineFault::Other)?;
    let era = era.map(|s| s.parse()).transpose().map_err(|_| EngineFault::Other)?;
    Ok(CalendarFields { year, month, month_code, day, era, era_year })
}

/// Fills a `PartialTime` field by field.
#[verifier::external_body]
pub(crate) fn engine_time(time: &TimeFields) -> (r: PartialTime)
    ensures
        held_time(r) == *time,
{
    let TimeFields { hour, minute, second, millisecond, microsecond, nanosecond } = *time;
    PartialTime { hour, minute, second, millisecond, microsecond, nanosecond }
}

/// The instant, in nanoseconds, that the engine resolves a bag of fields to:
/// date fields under a calendar, time fields, an optional stated offset, a
/// zone, and the words of the three policies (overflow, disambiguation,
/// offset). An error where a field is missing or out of range under the
/// overflow policy, where the local time does not exist or is ambiguous and
/// the disambiguation policy rejects that, or where the stated offset is
/// refused by the offset policy.
pub uninterp spec fn resolved_fields(
    date: DateFieldsView,
    time: TimeFields,
    offset: Option<Seq<char>>,
    zone: Seq<char>,
    calendar: Seq<char>,
    policies: (Seq<char>, Seq<char>, Seq<char>),
) -> Result<int, EngineFault>;

/// An optional text slice read as its characters.
pub open spec fn optional_str(v: Option<&str>) -> Option<Seq<char>> {
    match v {
        Some(s) => Some(s@),
        None => None,
    }
}

/// `temporal_rs::ZonedDateTime::from_partial` on the two field records, the
/// stated offset as `UtcOffset::from_str` reads it, the zone and the
/// calendar found as in [`resolve_offset`], and the three policies, each
/// given by its word and read by the engine's own `FromStr`. The instant is
/// read off the result.
#[verifier::external_body]
pub(crate) fn resolve_fields(
    date: &CalendarFields,
    time: &PartialTime,
    offset: Option<&str>,
    zone: &str,
    calendar: &str,
    policies: (&str, &str, &str),
) -> (r: Result<i128, EngineFault>)
    ensures
        wide_outcome(r) == resolved_fields(
            held_date(*date),
            held_time(*time),
            optional_str(offset),
            zone@,
            calendar@,
            (policies.0@, policies.1@, policies.2@),
        ),
{
    let (v, d, o) = (policies.0.parse().ok(), policies.1.parse().ok(), policies.2.parse().ok());
    TimeZone::try_from_identifier_str(zone)
        .and_then(|tz| {
            let fields = ZonedDateTimeFields { calendar_fields: date.clone(), time: *time, offset: offset.map(str::parse).transpose()? };
            let calendar = Calendar::try_from_utf8(calendar.as_bytes())?;
            ZonedDateTime::from_partial(PartialZonedDateTime { fields, timezone: Some(tz), calendar }, v, d, o)
        })
        .map(|z| z.to_instant().as_i128())
        .map_err(|e| match e.kind() {
            ErrorKind::Type => EngineFault::Type,
            _ => EngineFault::Other,
        })
}

} // verus!
