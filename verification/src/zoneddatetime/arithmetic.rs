//! Adding and subtracting durations.
//!
//! Calendar units are added to the local date, which is then resolved in the
//! zone again; clock units are added to the instant as an exact count of
//! nanoseconds. The engine does both. For a duration without calendar units
//! only the second step is left, and its result is stated here in full.

use vstd::prelude::*;
use crate::duration::Duration;
use crate::duration::DurationView;
use crate::engine::add_duration;
use crate::engine::added_nanoseconds;
use crate::engine::subtract_duration;
use crate::error::raised_kind;
use crate::error::ErrorKind;
use crate::error::JsError;
use crate::options::overflow_of;
use crate::options::ArithmeticOverflow;
use crate::options::Options;
use crate::value::JsValue;
use crate::zoneddatetime::carried_outcome;
use crate::zoneddatetime::conversion::zoned_from_resolution;
use crate::zoneddatetime::create_temporal_zoneddatetime;
use crate::zoneddatetime::zoned_at;
use crate::zoneddatetime::zoned_slot;
use crate::zoneddatetime::ZonedDateTime;
use crate::zoneddatetime::ZonedDateTimeView;

verus! {

/// The instant that an addition lands on: for a duration without calendar
/// units the instant moved by exactly the duration's nanoseconds, else the
/// instant that the engine reached.
pub open spec fn landing(nanos: int, duration: DurationView, engine: int) -> int {
    if duration.date_is_zero() {
        nanos + duration.time_nanoseconds()
    } else {
        engine
    }
}

/// What adding a duration to a zoned date-time gives under an overflow
/// policy. The result keeps the zone and the calendar; an instant that
/// leaves the representable range is a range error.
pub open spec fn add_spec(z: ZonedDateTimeView, duration: DurationView, overflow: ArithmeticOverflow)
    -> Result<ZonedDateTimeView, JsError> {
    match added_nanoseconds(z.nanos, z.zone, z.calendar, duration, overflow) {
        Ok(engine) => zoned_at(landing(z.nanos, duration, engine), z.zone, z.calendar),
        Err(f) => Err(JsError { kind: raised_kind(f) }),
    }
}

/// What subtracting a duration gives: what adding its negation gives.
pub open spec fn subtract_spec(
    z: ZonedDateTimeView,
    duration: DurationView,
    overflow: ArithmeticOverflow,
) -> Result<ZonedDateTimeView, JsError> {
    add_spec(z, duration.negated(), overflow)
}

/// What `add` makes of its receiver and arguments: a type error where the
/// receiver carries no zoned date-time, a range error for a bad `overflow`
/// option, else the sum.
pub open spec fn added(this: JsValue, duration: DurationView, options: Options) -> Result<
    ZonedDateTimeView,
    JsError,
> {
    match (zoned_slot(this), overflow_of(options.overflow)) {
        (None, _) => Err(JsError { kind: ErrorKind::Type }),
        (Some(_), None) => Err(JsError { kind: ErrorKind::Range }),
        (Some(z), Some(overflow)) => add_spec(z@, duration, overflow),
    }
}

/// What `subtract` makes of its receiver and arguments.
pub open spec fn subtracted(this: JsValue, duration: DurationView, options: Options) -> Result<
    ZonedDateTimeView,
    JsError,
> {
    match (zoned_slot(this), overflow_of(options.overflow)) {
        (None, _) => Err(JsError { kind: ErrorKind::Type }),
        (Some(_), None) => Err(JsError { kind: ErrorKind::Range }),
        (Some(z), Some(overflow)) => subtract_spec(z@, duration, overflow),
    }
}

impl ZonedDateTime {
    /// A new zoned date-time object, later than the receiver by the
    /// duration.
    pub fn add(this: &JsValue, duration: &Duration, options: &Options) -> (r: Result<
        JsValue,
        JsError,
    >)
        ensures
            carried_outcome(r) == Some(added(*this, duration@, *options)),
    {
        let zdt = Self::this_zoned(this)?;
        let overflow = options.get_overflow()?;
        let nanos = zdt.instant().epoch_nanoseconds();
        let zone = zdt.time_zone();
        let calendar = zdt.calendar();
        let engine = add_duration(
            nanos,
            zone.identifier(),
            calendar.identifier(),
            duration,
            overflow,
        );
        let inner = zoned_from_resolution(engine, zone.clone(), calendar.clone())?;
        Ok(JsValue::Object(create_temporal_zoneddatetime(inner)))
    }

    /// A new zoned date-time object, earlier than the receiver by the
    /// duration.
    pub fn subtract(this: &JsValue, duration: &Duration, options: &Options) -> (r: Result<
        JsValue,
        JsError,
    >)
        ensures
            carried_outcome(r) == Some(subtracted(*this, duration@, *options)),
    {
        let zdt = Self::this_zoned(this)?;
        let overflow = options.get_overflow()?;
        let nanos = zdt.instant().epoch_nanoseconds();
        let zone = zdt.time_zone();
        let calendar = zdt.calendar();
        let engine = subtract_duration(
            nanos,
            zone.identifier(),
            calendar.identifier(),
            duration,
            overflow,
        );
        let inner = zoned_from_resolution(engine, zone.clone(), calendar.clone())?;
        Ok(JsValue::Object(create_temporal_zoneddatetime(inner)))
    }

    /// Refuses to turn a zoned date-time into a primitive value, so that no
    /// comparison or arithmetic goes through an implicit number. Callers
    /// compare instants, zones and calendars themselves.
    pub fn value_of(_this: &JsValue) -> (r: Result<JsValue, JsError>)
        ensures
            r == Err::<JsValue, JsError>(JsError { kind: ErrorKind::Unsupported }),
    {
        Err(JsError::unsupported())
    }
}

} // verus!
