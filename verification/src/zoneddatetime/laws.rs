//! What holds of zoned date-times across operations.

use vstd::prelude::*;
use crate::duration::DurationView;
use crate::duration::NS_PER_HOUR;
use crate::error::ErrorKind;
use crate::error::JsError;
use crate::options::policies_of;
use crate::options::ArithmeticOverflow;
use crate::options::Options;
use crate::value::JsValue;
use crate::zoneddatetime::arithmetic::add_spec;
use crate::zoneddatetime::arithmetic::added;
use crate::zoneddatetime::arithmetic::subtract_spec;
use crate::zoneddatetime::arithmetic::subtracted;
use crate::zoneddatetime::argument;
use crate::zoneddatetime::carried_outcome;
use crate::zoneddatetime::constructed;
use crate::zoneddatetime::conversion::converted;
use crate::zoneddatetime::zoned_at;
use crate::zoneddatetime::zoned_slot;
use crate::zoneddatetime::ZonedDateTimeView;

verus! {

/// Whatever is built resolves: a zoned date-time that comes out of
/// [`zoned_at`] has a representable instant and an offset in its zone.
pub proof fn lemma_built_is_valid(nanos: int, zone: Seq<char>, calendar: Seq<char>)
    requires
        zoned_at(nanos, zone, calendar) is Ok,
    ensures
        zoned_at(nanos, zone, calendar)->Ok_0.is_valid(),
        zoned_at(nanos, zone, calendar)->Ok_0 == (ZonedDateTimeView { nanos, zone, calendar }),
{
}

/// The instant of a constructed zoned date-time is the nanosecond count
/// that was handed to the constructor, digit for digit.
pub proof fn lemma_constructed_instant_is_the_argument(new_target: JsValue, args: Seq<JsValue>)
    requires
        constructed(new_target, args) is Ok,
    ensures
        argument(args, 0) is BigInt,
        constructed(new_target, args)->Ok_0.nanos == argument(args, 0)->BigInt_0,
{
}

/// The object that the constructor returns carries a zoned date-time
/// whose instant, which is what the `epochNanoseconds` accessor reads, is
/// the constructor's first argument.
pub proof fn lemma_epoch_nanoseconds_of_constructed(
    new_target: JsValue,
    args: Seq<JsValue>,
    object: JsValue,
)
    requires
        carried_outcome(Ok(object)) == Some(constructed(new_target, args)),
    ensures
        zoned_slot(object) is Some,
        argument(args, 0) is BigInt,
        zoned_slot(object)->Some_0@.nanos == argument(args, 0)->BigInt_0,
{
}

/// Converting a zoned date-time object copies what it carries: the copy
/// has the same instant, zone and calendar.
pub proof fn lemma_conversion_copies(object: JsValue, options: Options)
    requires
        zoned_slot(object) is Some,
        policies_of(options) is Some,
    ensures
        converted(object, options) == Ok::<ZonedDateTimeView, JsError>(
            zoned_slot(object)->Some_0@,
        ),
{
}

/// A bad option is reported where a zoned date-time object or a text is
/// converted, although the first path has no use for any option and the
/// second none for the overflow policy.
pub proof fn lemma_bad_option_is_reported(value: JsValue, options: Options)
    requires
        policies_of(options) is None,
        value is String || zoned_slot(value) is Some,
    ensures
        converted(value, options) == Err::<ZonedDateTimeView, JsError>(
            JsError { kind: ErrorKind::Range },
        ),
{
}

/// A value that is neither an object nor a string converts to a type
/// error, whatever the options hold.
pub proof fn lemma_other_values_do_not_convert(value: JsValue, options: Options)
    requires
        !(value is Object),
        !(value is String),
    ensures
        converted(value, options) == Err::<ZonedDateTimeView, JsError>(
            JsError { kind: ErrorKind::Type },
        ),
{
}

/// Subtracting a duration is adding its negation, errors included.
pub proof fn lemma_subtract_is_add_of_negation(
    this: JsValue,
    duration: DurationView,
    options: Options,
)
    ensures
        subtracted(this, duration, options) == added(this, duration.negated(), options),
{
}

/// Adding keeps the zone and the calendar, and what it returns resolves.
pub proof fn lemma_add_keeps_zone_and_calendar(
    z: ZonedDateTimeView,
    duration: DurationView,
    overflow: ArithmeticOverflow,
)
    requires
        add_spec(z, duration, overflow) is Ok,
    ensures
        add_spec(z, duration, overflow)->Ok_0.zone == z.zone,
        add_spec(z, duration, overflow)->Ok_0.calendar == z.calendar,
        add_spec(z, duration, overflow)->Ok_0.is_valid(),
{
}

/// Adding a duration that sets no calendar unit moves the instant by
/// exactly the duration's nanoseconds, whatever the zone does in between
/// and whatever the overflow policy.
pub proof fn lemma_clock_addition_is_exact(
    z: ZonedDateTimeView,
    duration: DurationView,
    overflow: ArithmeticOverflow,
)
    requires
        duration.date_is_zero(),
        add_spec(z, duration, overflow) is Ok,
    ensures
        add_spec(z, duration, overflow)->Ok_0.nanos == z.nanos + duration.time_nanoseconds(),
{
}

/// Adding a number of hours and nothing else moves the instant by that many
/// times 3 600 000 000 000 nanoseconds: a day's worth for twenty-four hours,
/// also across a day on which the zone skips or repeats an hour.
pub proof fn lemma_hours_addition_is_exact(
    z: ZonedDateTimeView,
    hours: int,
    overflow: ArithmeticOverflow,
)
    requires
        add_spec(z, hours_only(hours), overflow) is Ok,
    ensures
        add_spec(z, hours_only(hours), overflow)->Ok_0.nanos == z.nanos + hours
            * 3_600_000_000_000,
        hours == 24 ==> add_spec(z, hours_only(hours), overflow)->Ok_0.nanos == z.nanos
            + 86_400_000_000_000,
{
    assert(hours_only(hours).time_nanoseconds() == hours * NS_PER_HOUR);
}

/// The duration of a number of hours and nothing else.
pub open spec fn hours_only(hours: int) -> DurationView {
    DurationView {
        years: 0,
        months: 0,
        weeks: 0,
        days: 0,
        hours,
        minutes: 0,
        seconds: 0,
        milliseconds: 0,
        microseconds: 0,
        nanoseconds: 0,
    }
}

/// Negating a duration twice gives the duration back, and negation keeps
/// validity.
pub proof fn lemma_negation_is_an_involution(duration: DurationView)
    ensures
        duration.negated().negated() == duration,
        duration.negated().is_valid() == duration.is_valid(),
        duration.negated().date_is_zero() == duration.date_is_zero(),
        duration.negated().time_nanoseconds() == -duration.time_nanoseconds(),
{
}

/// Subtracting a duration that sets no calendar unit and then adding it
/// again, where both steps succeed, gives the zoned date-time that one
/// started from: the same instant, zone and calendar. The two steps may use
/// different overflow policies.
pub proof fn lemma_subtract_then_add_restores(
    z: ZonedDateTimeView,
    duration: DurationView,
    first: ArithmeticOverflow,
    second: ArithmeticOverflow,
)
    requires
        duration.date_is_zero(),
        subtract_spec(z, duration, first) is Ok,
        add_spec(subtract_spec(z, duration, first)->Ok_0, duration, second) is Ok,
    ensures
        add_spec(subtract_spec(z, duration, first)->Ok_0, duration, second)->Ok_0 == z,
{
    lemma_negation_is_an_involution(duration);
}

/// Adding a duration that sets no calendar unit and then subtracting it
/// again, where both steps succeed, gives the zoned date-time that one
/// started from.
pub proof fn lemma_add_then_subtract_restores(
    z: ZonedDateTimeView,
    duration: DurationView,
    first: ArithmeticOverflow,
    second: ArithmeticOverflow,
)
    requires
        duration.date_is_zero(),
        add_spec(z, duration, first) is Ok,
        subtract_spec(add_spec(z, duration, first)->Ok_0, duration, second) is Ok,
    ensures
        subtract_spec(add_spec(z, duration, first)->Ok_0, duration, second)->Ok_0 == z,
{
    lemma_negation_is_an_involution(duration);
}

} // verus!
