//! Making a zoned date-time out of what a caller hands over: another zoned
//! date-time, a bag of fields, or a text.

use vstd::prelude::*;
use crate::calendar::Calendar;
use crate::engine::engine_date;
use crate::engine::engine_time;
use crate::engine::parse_utc_offset;
use crate::engine::parse_zoned;
use crate::engine::parsed_zoned;
use crate::engine::resolve_fields;
use crate::engine::resolved_fields;
use crate::engine::utc_offset_nanoseconds;
use crate::engine::wide_outcome;
use crate::error::raised_kind;
use crate::error::EngineFault;
use crate::error::ErrorKind;
use crate::error::JsError;
use crate::options::policies_of;
use crate::options::Options;
use crate::options::Policies;
use crate::timezone::zone_from_text;
use crate::timezone::zone_outcome;
use crate::timezone::TimeZone;
use crate::value::JsObject;
use crate::value::JsValue;
use crate::value::PropertyBag;
use crate::zoneddatetime::carried_outcome;
use crate::zoneddatetime::create_temporal_zoneddatetime;
use crate::zoneddatetime::zoned_at;
use crate::zoneddatetime::zoned_outcome;
use crate::zoneddatetime::ZonedDateTime;
use crate::zoneddatetime::ZonedDateTimeView;

verus! {

/// The time zone that a value stands for: the zone of a zoned date-time
/// object, the zone that a string denotes, and a type error for anything
/// else.
pub open spec fn zone_of_value(value: JsValue) -> Result<Seq<char>, JsError> {
    match value {
        JsValue::Object(JsObject::ZonedDateTime(z)) => Ok(z@.zone),
        JsValue::String(text) => zone_from_text(text@),
        _ => Err(JsError { kind: ErrorKind::Type }),
    }
}

/// The offset text that a value stands for: a string that writes down a UTC
/// offset stands for itself, a string that writes none raises the engine's
/// error, and anything but a string is a type error.
pub open spec fn offset_text_of(value: JsValue) -> Result<Seq<char>, JsError> {
    match value {
        JsValue::String(text) => match utc_offset_nanoseconds(text@) {
            Ok(_) => Ok(text@),
            Err(f) => Err(JsError { kind: raised_kind(f) }),
        },
        _ => Err(JsError { kind: ErrorKind::Type }),
    }
}

/// An outcome that may hold a text, read as its characters.
pub open spec fn string_outcome(r: Result<String, JsError>) -> Result<Seq<char>, JsError> {
    match r {
        Ok(s) => Ok(s@),
        Err(e) => Err(e),
    }
}

/// What is asked of the engine for a bag of fields, once the bag's zone and
/// offset and the options have been read.
pub struct FieldsRequest {
    pub zone: Seq<char>,
    pub offset: Option<Seq<char>>,
    pub policies: Policies,
}

/// Reads the parts of a request in order: the `timeZone` property (UTC
/// where it is undefined), the `offset` property (none where it is
/// undefined), then the options. The first part that cannot be read decides
/// the error.
pub open spec fn fields_request(bag: PropertyBag, options: Options) -> Result<
    FieldsRequest,
    JsError,
> {
    let zone = match bag.time_zone {
        JsValue::Undefined => Ok("UTC"@),
        value => zone_of_value(value),
    };
    let offset = match bag.offset {
        JsValue::Undefined => Ok(None),
        value => match offset_text_of(value) {
            Ok(text) => Ok(Some(text)),
            Err(e) => Err(e),
        },
    };
    match (zone, offset, policies_of(options)) {
        (Err(e), _, _) => Err(e),
        (Ok(_), Err(e), _) => Err(e),
        (Ok(_), Ok(_), None) => Err(JsError { kind: ErrorKind::Range }),
        (Ok(zone), Ok(offset), Some(policies)) => Ok(FieldsRequest { zone, offset, policies }),
    }
}

/// The words of the three policies in the order in which the engine takes
/// them: overflow, disambiguation, offset.
pub open spec fn policy_words(policies: Policies) -> (Seq<char>, Seq<char>, Seq<char>) {
    (policies.overflow.word(), policies.disambiguation.word(), policies.offset.word())
}

/// What becomes of an instant that the engine has computed for a zone and a
/// calendar: the engine's error is raised; the instant, paired with the
/// zone and the calendar, must be representable and resolve.
pub open spec fn zoned_after(engine: Result<int, EngineFault>, zone: Seq<char>, calendar: Seq<char>)
    -> Result<ZonedDateTimeView, JsError> {
    match engine {
        Ok(nanos) => zoned_at(nanos, zone, calendar),
        Err(f) => Err(JsError { kind: raised_kind(f) }),
    }
}

/// What becomes of the three parts that the engine has read out of a text.
pub open spec fn zoned_from_parts(parts: Result<(int, Seq<char>, Seq<char>), EngineFault>)
    -> Result<ZonedDateTimeView, JsError> {
    match parts {
        Ok((nanos, zone, calendar)) => zoned_at(nanos, zone, calendar),
        Err(f) => Err(JsError { kind: raised_kind(f) }),
    }
}

/// What a bag of fields gives under an option bag.
///
/// A month code or an era that cannot be one is a range error. Then the
/// request is read, and its first unreadable part decides the error. Then
/// the engine resolves the fields: it holds them to the overflow policy,
/// finds the offsets that the zone allows for the local time, settles on
/// one by the offset policy and the disambiguation policy, and takes the
/// offset from the local time. The zone and the calendar of the result are
/// those that were asked for.
pub open spec fn zoned_from_fields(bag: PropertyBag, options: Options) -> Result<
    ZonedDateTimeView,
    JsError,
> {
    if !bag.date@.is_readable() {
        Err(JsError { kind: ErrorKind::Range })
    } else {
        match fields_request(bag, options) {
            Err(e) => Err(e),
            Ok(request) => zoned_after(
                resolved_fields(
                    bag.date@,
                    bag.time,
                    request.offset,
                    request.zone,
                    bag.calendar@,
                    policy_words(request.policies),
                ),
                request.zone,
                bag.calendar@,
            ),
        }
    }
}

/// What a zoned date-time text gives under an option bag: a range error
/// for a bad option, else whatever the engine reads out of the text under
/// the two policies that apply to it.
pub open spec fn zoned_from_text(text: Seq<char>, options: Options) -> Result<
    ZonedDateTimeView,
    JsError,
> {
    match policies_of(options) {
        None => Err(JsError { kind: ErrorKind::Range }),
        Some(policies) => zoned_from_parts(
            parsed_zoned(text, policies.disambiguation, policies.offset),
        ),
    }
}

/// What converting a value under an option bag gives.
///
/// - A zoned date-time object gives a copy of what it carries. The options
///   are not used, but a bad option is still reported.
/// - Any other object is read as a bag of fields.
/// - A string is parsed as a zoned date-time text.
/// - Anything else is a type error, whatever the options hold.
pub open spec fn converted(value: JsValue, options: Options) -> Result<ZonedDateTimeView, JsError> {
    match value {
        JsValue::Object(JsObject::ZonedDateTime(z)) => match policies_of(options) {
            Some(_) => Ok(z@),
            None => Err(JsError { kind: ErrorKind::Range }),
        },
        JsValue::Object(JsObject::Ordinary(bag)) => zoned_from_fields(*bag, options),
        JsValue::String(text) => zoned_from_text(text@, options),
        _ => Err(JsError { kind: ErrorKind::Type }),
    }
}

/// The three parts of a parse outcome read as mathematics.
pub open spec fn parts_outcome(parts: Result<(i128, String, String), EngineFault>) -> Result<
    (int, Seq<char>, Seq<char>),
    EngineFault,
> {
    match parts {
        Ok((n, z, c)) => Ok((n as int, z@, c@)),
        Err(f) => Err(f),
    }
}

/// The time zone that a value stands for.
pub fn to_temporal_timezone_identifier(value: &JsValue) -> (r: Result<TimeZone, JsError>)
    ensures
        zone_outcome(r) == zone_of_value(*value),
{
    match value {
        JsValue::Object(JsObject::ZonedDateTime(zdt)) => Ok(zdt.time_zone().clone()),
        JsValue::String(text) => TimeZone::try_from_str(text.as_str()),
        _ => Err(JsError::typ()),
    }
}

/// The offset text that a value stands for, checked to write down an
/// offset. An object counts as no string: the host asks an object for its
/// primitive value before it hands the value over.
pub fn to_offset_string(value: &JsValue) -> (r: Result<String, JsError>)
    ensures
        string_outcome(r) == offset_text_of(*value),
{
    match value {
        JsValue::String(text) => match parse_utc_offset(text.as_str()) {
            Ok(_) => Ok(text.clone()),
            Err(fault) => Err(JsError::from_engine(fault)),
        },
        _ => Err(JsError::typ()),
    }
}

/// Makes a zoned date-time of an instant that the engine has computed for
/// a zone and a calendar: the engine's error is raised; the instant must be
/// representable and must resolve in the zone.
pub fn zoned_from_resolution(
    engine: Result<i128, EngineFault>,
    time_zone: TimeZone,
    calendar: Calendar,
) -> (r: Result<ZonedDateTime, JsError>)
    ensures
        zoned_outcome(r) == zoned_after(wide_outcome(engine), time_zone@, calendar@),
{
    match engine {
        Ok(nanos) => ZonedDateTime::try_new(nanos, time_zone, calendar),
        Err(fault) => Err(JsError::from_engine(fault)),
    }
}

/// Makes a zoned date-time of the three parts that the engine has read out
/// of a text: the engine's error is raised; the instant must be
/// representable and must resolve in the zone.
pub fn zoned_from_parse(parts: Result<(i128, String, String), EngineFault>) -> (r: Result<
    ZonedDateTime,
    JsError,
>)
    ensures
        zoned_outcome(r) == zoned_from_parts(parts_outcome(parts)),
{
    match parts {
        Ok((nanos, zone, calendar)) => ZonedDateTime::try_new(
            nanos,
            TimeZone::from_identifier(zone),
            Calendar::from_identifier(calendar),
        ),
        Err(fault) => Err(JsError::from_engine(fault)),
    }
}

/// Converts a value to a zoned date-time under an option bag.
pub fn to_temporal_zoneddatetime(value: &JsValue, options: &Options) -> (r: Result<
    ZonedDateTime,
    JsError,
>)
    ensures
        zoned_outcome(r) == converted(*value, *options),
{
    match value {
        JsValue::Object(JsObject::ZonedDateTime(zdt)) => {
            let _policies = options.policies()?;
            Ok(zdt.clone())
        },
        JsValue::Object(JsObject::Ordinary(bag)) => {
            let date = match engine_date(&bag.date) {
                Ok(date) => date,
                Err(fault) => { return Err(JsError::from_engine(fault)); },
            };
            let time = engine_time(&bag.time);
            let time_zone = match &bag.time_zone {
                JsValue::Undefined => TimeZone::utc(),
                value => to_temporal_timezone_identifier(value)?,
            };
            let offset = match &bag.offset {
                JsValue::Undefined => None,
                value => Some(to_offset_string(value)?),
            };
            let policies = options.policies()?;
            let stated = match &offset {
                Some(text) => Some(text.as_str()),
                None => None,
            };
            let words = (
                policies.overflow.as_str(),
                policies.disambiguation.as_str(),
                policies.offset.as_str(),
            );
            let engine = resolve_fields(
                &date,
                &time,
                stated,
                time_zone.identifier(),
                bag.calendar.identifier(),
                words,
            );
            zoned_from_resolution(engine, time_zone, bag.calendar.clone())
        },
        JsValue::String(text) => {
            let policies = options.policies()?;
            zoned_from_parse(parse_zoned(text.as_str(), policies.disambiguation, policies.offset))
        },
        _ => Err(JsError::typ()),
    }
}

impl ZonedDateTime {
    /// A new zoned date-time object made from an item and an option bag.
    pub fn from(item: &JsValue, options: &Options) -> (r: Result<JsValue, JsError>)
        ensures
            carried_outcome(r) == Some(converted(*item, *options)),
    {
        let inner = to_temporal_zoneddatetime(item, options)?;
        Ok(JsValue::Object(create_temporal_zoneddatetime(inner)))
    }
}

} // verus!
