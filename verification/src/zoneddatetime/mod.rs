//! Zoned date-time values: an instant, a time zone and a calendar.

use vstd::prelude::*;
use crate::calendar::calendar_from_text;
use crate::calendar::Calendar;
use crate::engine::civil_day;
use crate::engine::civil_day_of_week;
use crate::engine::civil_day_of_year;
use crate::engine::civil_days_in_month;
use crate::engine::civil_days_in_year;
use crate::engine::civil_era;
use crate::engine::civil_era_year;
use crate::engine::civil_hour;
use crate::engine::civil_in_leap_year;
use crate::engine::civil_microsecond;
use crate::engine::civil_millisecond;
use crate::engine::civil_minute;
use crate::engine::civil_month;
use crate::engine::civil_month_code;
use crate::engine::civil_months_in_year;
use crate::engine::civil_nanosecond;
use crate::engine::civil_second;
use crate::engine::civil_week_of_year;
use crate::engine::civil_year;
use crate::engine::civil_year_of_week;
use crate::engine::hours_in_day_bits;
use crate::engine::resolve_offset;
use crate::engine::resolved_offset;
use crate::error::raised_kind;
use crate::error::ErrorKind;
use crate::error::JsError;
use crate::instant::is_valid_epoch_nanoseconds;
use crate::instant::Instant;
use crate::instant::NS_PER_MILLISECOND;
use crate::timezone::zone_from_text;
use crate::timezone::TimeZone;
use crate::value::JsObject;
use crate::value::JsValue;

pub mod accessors;
pub mod arithmetic;
pub mod conversion;
pub mod laws;

verus! {

/// A zoned date-time seen as mathematics: the instant's nanosecond count and
/// the identifiers of zone and calendar.
pub struct ZonedDateTimeView {
    pub nanos: int,
    pub zone: Seq<char>,
    pub calendar: Seq<char>,
}

impl ZonedDateTimeView {
    /// The instant is representable and the engine resolves the three parts
    /// to an offset.
    pub open spec fn is_valid(self) -> bool {
        is_valid_epoch_nanoseconds(self.nanos) && resolved_offset(
            self.nanos,
            self.zone,
            self.calendar,
        ) is Ok
    }

    /// Whole milliseconds since the epoch, rounded towards the past.
    pub open spec fn epoch_milliseconds(self) -> int {
        self.nanos / (NS_PER_MILLISECOND as int)
    }

    /// The era of the civil date, in lower case, where the calendar has eras.
    pub open spec fn era(self) -> Option<Seq<char>> {
        civil_era(self.nanos, self.zone, self.calendar)
    }

    /// The year within the era, where the calendar has eras.
    pub open spec fn era_year(self) -> Option<int> {
        civil_era_year(self.nanos, self.zone, self.calendar)
    }

    /// The calendar year of the civil date.
    pub open spec fn year(self) -> int {
        civil_year(self.nanos, self.zone, self.calendar)
    }

    /// The ordinal month of the civil date.
    pub open spec fn month(self) -> int {
        civil_month(self.nanos, self.zone, self.calendar)
    }

    /// The month code of the civil date.
    pub open spec fn month_code(self) -> Seq<char> {
        civil_month_code(self.nanos, self.zone, self.calendar)
    }

    /// The day of the month of the civil date.
    pub open spec fn day(self) -> int {
        civil_day(self.nanos, self.zone, self.calendar)
    }

    /// The hour of the wall-clock time.
    pub open spec fn hour(self) -> int {
        civil_hour(self.nanos, self.zone, self.calendar)
    }

    /// The minute of the wall-clock time.
    pub open spec fn minute(self) -> int {
        civil_minute(self.nanos, self.zone, self.calendar)
    }

    /// The second of the wall-clock time.
    pub open spec fn second(self) -> int {
        civil_second(self.nanos, self.zone, self.calendar)
    }

    /// The millisecond of the wall-clock time.
    pub open spec fn millisecond(self) -> int {
        civil_millisecond(self.nanos, self.zone, self.calendar)
    }

    /// The microsecond of the wall-clock time.
    pub open spec fn microsecond(self) -> int {
        civil_microsecond(self.nanos, self.zone, self.calendar)
    }

    /// The nanosecond of the wall-clock time.
    pub open spec fn nanosecond(self) -> int {
        civil_nanosecond(self.nanos, self.zone, self.calendar)
    }

    /// The day of the week of the civil date, Monday being 1.
    pub open spec fn day_of_week(self) -> int {
        civil_day_of_week(self.nanos, self.zone, self.calendar)
    }

    /// The day of the year of the civil date.
    pub open spec fn day_of_year(self) -> int {
        civil_day_of_year(self.nanos, self.zone, self.calendar)
    }

    /// The week of the year, where the calendar numbers weeks.
    pub open spec fn week_of_year(self) -> Option<int> {
        civil_week_of_year(self.nanos, self.zone, self.calendar)
    }

    /// The year that the week belongs to, where the calendar numbers weeks.
    pub open spec fn year_of_week(self) -> Option<int> {
        civil_year_of_week(self.nanos, self.zone, self.calendar)
    }

    /// The day's length in hours as a double's bit pattern, where the engine
    /// can tell it.
    pub open spec fn hours_in_day(self) -> Option<int> {
        hours_in_day_bits(self.nanos, self.zone, self.calendar)
    }

    /// The number of days in the month of the civil date.
    pub open spec fn days_in_month(self) -> int {
        civil_days_in_month(self.nanos, self.zone, self.calendar)
    }

    /// The number of days in the year of the civil date.
    pub open spec fn days_in_year(self) -> int {
        civil_days_in_year(self.nanos, self.zone, self.calendar)
    }

    /// The number of months in the year of the civil date.
    pub open spec fn months_in_year(self) -> int {
        civil_months_in_year(self.nanos, self.zone, self.calendar)
    }

    /// Whether the civil date lies in a leap year of its calendar.
    pub open spec fn in_leap_year(self) -> bool {
        civil_in_leap_year(self.nanos, self.zone, self.calendar)
    }
}

/// An instant together with the time zone and the calendar in which it is
/// read. The civil fields are computed on demand, never stored. A value of
/// this type always resolves: its instant is representable, and the engine
/// finds an offset for it in its zone.
#[derive(Debug, PartialEq, Eq)]
pub struct ZonedDateTime {
    instant: Instant,
    time_zone: TimeZone,
    calendar: Calendar,
}

impl View for ZonedDateTime {
    type V = ZonedDateTimeView;

    closed spec fn view(&self) -> ZonedDateTimeView {
        ZonedDateTimeView {
            nanos: self.instant@,
            zone: self.time_zone@,
            calendar: self.calendar@,
        }
    }
}

/// The zoned date-time that a value carries, if it is an object that
/// carries one.
pub open spec fn zoned_slot(value: JsValue) -> Option<ZonedDateTime> {
    match value {
        JsValue::Object(JsObject::ZonedDateTime(z)) => Some(z),
        _ => None,
    }
}

/// What building a zoned date-time from three parts gives: a range error
/// for an instant that is not representable, the engine's error where the
/// parts do not resolve, else the three parts.
pub open spec fn zoned_at(nanos: int, zone: Seq<char>, calendar: Seq<char>) -> Result<
    ZonedDateTimeView,
    JsError,
> {
    if !is_valid_epoch_nanoseconds(nanos) {
        Err(JsError { kind: ErrorKind::Range })
    } else {
        match resolved_offset(nanos, zone, calendar) {
            Ok(_) => Ok(ZonedDateTimeView { nanos, zone, calendar }),
            Err(f) => Err(JsError { kind: raised_kind(f) }),
        }
    }
}

/// An outcome that may hold a zoned date-time, read as its view.
pub open spec fn zoned_outcome(r: Result<ZonedDateTime, JsError>) -> Result<
    ZonedDateTimeView,
    JsError,
> {
    match r {
        Ok(z) => Ok(z@),
        Err(e) => Err(e),
    }
}

/// An outcome that may hold an object carrying a zoned date-time, read as
/// the view of what is carried. An outcome that holds any other value reads
/// as nothing.
pub open spec fn carried_outcome(r: Result<JsValue, JsError>) -> Option<
    Result<ZonedDateTimeView, JsError>,
> {
    match r {
        Ok(value) => match zoned_slot(value) {
            Some(z) => Some(Ok(z@)),
            None => None,
        },
        Err(e) => Some(Err(e)),
    }
}

/// The argument at a position, an absent one counting as undefined.
pub open spec fn argument(args: Seq<JsValue>, position: int) -> JsValue {
    if 0 <= position < args.len() {
        args[position]
    } else {
        JsValue::Undefined
    }
}

/// The calendar that the third constructor argument asks for: the ISO 8601
/// calendar where there is no third argument, the calendar that a string
/// denotes, and a type error for anything else.
pub open spec fn calendar_argument(args: Seq<JsValue>) -> Result<Seq<char>, JsError> {
    if args.len() <= 2 {
        Ok("iso8601"@)
    } else {
        match args[2] {
            JsValue::String(text) => calendar_from_text(text@),
            _ => Err(JsError { kind: ErrorKind::Type }),
        }
    }
}

/// What the constructor makes of its target and arguments.
///
/// The target must be given. The first argument is the epoch nanosecond
/// count as a big integer, the second the time zone as a string, the third,
/// if present, the calendar as a string. Shape errors are type errors; an
/// unknown zone or calendar and an instant out of range are range errors.
/// They are reported in the order: target, count, zone, calendar, instant.
pub open spec fn constructed(new_target: JsValue, args: Seq<JsValue>) -> Result<
    ZonedDateTimeView,
    JsError,
> {
    if new_target is Undefined {
        Err(JsError { kind: ErrorKind::Type })
    } else {
        match (argument(args, 0), argument(args, 1)) {
            (JsValue::BigInt(nanos), JsValue::String(zone_text)) => match zone_from_text(
                zone_text@,
            ) {
                Err(e) => Err(e),
                Ok(zone) => match calendar_argument(args) {
                    Err(e) => Err(e),
                    Ok(calendar) => zoned_at(nanos as int, zone, calendar),
                },
            },
            _ => Err(JsError { kind: ErrorKind::Type }),
        }
    }
}

impl ZonedDateTime {
    #[verifier::type_invariant]
    spec fn resolves(self) -> bool {
        self@.is_valid()
    }

    /// The zoned date-time at an instant, in a zone, under a calendar.
    pub fn try_new(nanos: i128, time_zone: TimeZone, calendar: Calendar) -> (r: Result<
        ZonedDateTime,
        JsError,
    >)
        ensures
            zoned_outcome(r) == zoned_at(nanos as int, time_zone@, calendar@),
    {
        let instant = Instant::from_nanoseconds(nanos)?;
        match resolve_offset(nanos, time_zone.identifier(), calendar.identifier()) {
            Ok(_) => Ok(ZonedDateTime { instant, time_zone, calendar }),
            Err(fault) => Err(JsError::from_engine(fault)),
        }
    }

    /// The instant.
    pub fn instant(&self) -> (r: Instant)
        ensures
            r@ == self@.nanos,
            self@.is_valid(),
    {
        proof {
            use_type_invariant(self);
        }
        self.instant
    }

    /// The time zone.
    pub fn time_zone(&self) -> (r: &TimeZone)
        ensures
            r@ == self@.zone,
            self@.is_valid(),
    {
        proof {
            use_type_invariant(self);
        }
        &self.time_zone
    }

    /// The calendar.
    pub fn calendar(&self) -> (r: &Calendar)
        ensures
            r@ == self@.calendar,
            self@.is_valid(),
    {
        proof {
            use_type_invariant(self);
        }
        &self.calendar
    }

    /// Builds a zoned date-time object from the target and the arguments of
    /// a `new` call. The host has turned the first argument into a big
    /// integer, as far as it can be turned into one, before it gets here.
    pub fn constructor(new_target: &JsValue, args: &[JsValue]) -> (r: Result<JsValue, JsError>)
        ensures
            carried_outcome(r) == Some(constructed(*new_target, args@)),
    {
        if let JsValue::Undefined = new_target {
            return Err(JsError::typ());
        }
        if args.len() == 0 {
            return Err(JsError::typ());
        }
        let nanos = match &args[0] {
            JsValue::BigInt(nanos) => *nanos,
            _ => { return Err(JsError::typ()); },
        };
        if args.len() == 1 {
            return Err(JsError::typ());
        }
        let time_zone = match &args[1] {
            JsValue::String(text) => TimeZone::try_from_str(text.as_str())?,
            _ => { return Err(JsError::typ()); },
        };
        let calendar = if args.len() == 2 {
            Calendar::default()
        } else {
            match &args[2] {
                JsValue::String(text) => Calendar::from_str(text.as_str())?,
                _ => { return Err(JsError::typ()); },
            }
        };
        let inner = ZonedDateTime::try_new(nanos, time_zone, calendar)?;
        Ok(JsValue::Object(create_temporal_zoneddatetime(inner)))
    }

    /// The zoned date-time that `this` carries; a type error where it carries
    /// none.
    pub(crate) fn this_zoned(this: &JsValue) -> (r: Result<&ZonedDateTime, JsError>)
        ensures
            match zoned_slot(*this) {
                Some(z) => r == Ok::<&ZonedDateTime, JsError>(&z),
                None => r == Err::<&ZonedDateTime, JsError>(JsError { kind: ErrorKind::Type }),
            },
    {
        match this {
            JsValue::Object(JsObject::ZonedDateTime(z)) => Ok(z),
            _ => Err(JsError::typ()),
        }
    }
}

impl Clone for ZonedDateTime {
    fn clone(&self) -> (r: ZonedDateTime)
        ensures
            r@ == self@,
    {
        proof {
            use_type_invariant(self);
        }
        ZonedDateTime {
            instant: self.instant,
            time_zone: self.time_zone.clone(),
            calendar: self.calendar.clone(),
        }
    }
}

/// The host object that carries a zoned date-time.
pub fn create_temporal_zoneddatetime(inner: ZonedDateTime) -> (r: JsObject)
    ensures
        r == JsObject::ZonedDateTime(inner),
{
    JsObject::ZonedDateTime(inner)
}

} // verus!
