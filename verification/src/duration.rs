//! Signed spans of calendar units and clock units.

use vstd::prelude::*;
use crate::error::JsError;
use crate::error::ErrorKind;

verus! {

/// A calendar field may not reach this magnitude: two to the thirty-second.
pub const MAX_CALENDAR_UNITS: i64 = 4_294_967_296;

/// Days and the clock fields together may not reach this many nanoseconds:
/// two to the fifty-third seconds.
pub const MAX_TIME_NANOSECONDS: i128 = 9_007_199_254_740_992_000_000_000;

pub const NS_PER_DAY: i128 = 86_400_000_000_000;

pub const NS_PER_HOUR: i128 = 3_600_000_000_000;

pub const NS_PER_MINUTE: i128 = 60_000_000_000;

pub const NS_PER_SECOND: i128 = 1_000_000_000;

pub const NS_PER_MILLI: i128 = 1_000_000;

pub const NS_PER_MICRO: i128 = 1_000;

/// The ten magnitudes of a duration, as mathematical integers.
pub struct DurationView {
    pub years: int,
    pub months: int,
    pub weeks: int,
    pub days: int,
    pub hours: int,
    pub minutes: int,
    pub seconds: int,
    pub milliseconds: int,
    pub microseconds: int,
    pub nanoseconds: int,
}

impl DurationView {
    /// Some field runs forwards.
    pub open spec fn has_positive(self) -> bool {
        self.years > 0 || self.months > 0 || self.weeks > 0 || self.days > 0 || self.hours > 0
            || self.minutes > 0 || self.seconds > 0 || self.milliseconds > 0
            || self.microseconds > 0 || self.nanoseconds > 0
    }

    /// Some field runs backwards.
    pub open spec fn has_negative(self) -> bool {
        self.years < 0 || self.months < 0 || self.weeks < 0 || self.days < 0 || self.hours < 0
            || self.minutes < 0 || self.seconds < 0 || self.milliseconds < 0
            || self.microseconds < 0 || self.nanoseconds < 0
    }

    /// The clock part, hours through nanoseconds, as one exact count of
    /// nanoseconds.
    pub open spec fn time_nanoseconds(self) -> int {
        self.hours * NS_PER_HOUR + self.minutes * NS_PER_MINUTE + self.seconds * NS_PER_SECOND
            + self.milliseconds * NS_PER_MILLI + self.microseconds * NS_PER_MICRO
            + self.nanoseconds
    }

    /// Days taken as twenty-four hours each, together with the clock part.
    pub open spec fn day_and_time_nanoseconds(self) -> int {
        self.days * NS_PER_DAY + self.time_nanoseconds()
    }

    /// No calendar unit is set: the duration is a plain stretch of time.
    pub open spec fn date_is_zero(self) -> bool {
        self.years == 0 && self.months == 0 && self.weeks == 0 && self.days == 0
    }

    /// All fields point the same way, no calendar field reaches two to the
    /// thirty-second, and days with the clock part stay under two to the
    /// fifty-third seconds.
    pub open spec fn is_valid(self) -> bool {
        &&& !(self.has_positive() && self.has_negative())
        &&& -MAX_CALENDAR_UNITS < self.years < MAX_CALENDAR_UNITS
        &&& -MAX_CALENDAR_UNITS < self.months < MAX_CALENDAR_UNITS
        &&& -MAX_CALENDAR_UNITS < self.weeks < MAX_CALENDAR_UNITS
        &&& -MAX_TIME_NANOSECONDS < self.day_and_time_nanoseconds() < MAX_TIME_NANOSECONDS
    }

    /// The same span in the other direction.
    pub open spec fn negated(self) -> DurationView {
        DurationView {
            years: -self.years,
            months: -self.months,
            weeks: -self.weeks,
            days: -self.days,
            hours: -self.hours,
            minutes: -self.minutes,
            seconds: -self.seconds,
            milliseconds: -self.milliseconds,
            microseconds: -self.microseconds,
            nanoseconds: -self.nanoseconds,
        }
    }
}

/// A valid duration: calendar units (years, months, weeks, days) and clock
/// units (hours down to nanoseconds), all of one sign.
#[derive(Debug, Clone, Copy, PartialEq, Eq, Hash)]
pub struct Duration {
    pub(crate) years: i64,
    pub(crate) months: i64,
    pub(crate) weeks: i64,
    pub(crate) days: i64,
    pub(crate) hours: i64,
    pub(crate) minutes: i64,
    pub(crate) seconds: i64,
    pub(crate) milliseconds: i64,
    pub(crate) microseconds: i128,
    pub(crate) nanoseconds: i128,
}

impl View for Duration {
    type V = DurationView;

    closed spec fn view(&self) -> DurationView {
        DurationView {
            years: self.years as int,
            months: self.months as int,
            weeks: self.weeks as int,
            days: self.days as int,
            hours: self.hours as int,
            minutes: self.minutes as int,
            seconds: self.seconds as int,
            milliseconds: self.milliseconds as int,
            microseconds: self.microseconds as int,
            nanoseconds: self.nanoseconds as int,
        }
    }
}

/// The ten magnitudes as given to [`Duration::new`].
pub open spec fn duration_fields(
    years: i64,
    months: i64,
    weeks: i64,
    days: i64,
    hours: i64,
    minutes: i64,
    seconds: i64,
    milliseconds: i64,
    microseconds: i128,
    nanoseconds: i128,
) -> DurationView {
    DurationView {
        years: years as int,
        months: months as int,
        weeks: weeks as int,
        days: days as int,
        hours: hours as int,
        minutes: minutes as int,
        seconds: seconds as int,
        milliseconds: milliseconds as int,
        microseconds: microseconds as int,
        nanoseconds: nanoseconds as int,
    }
}

/// An outcome that may hold a duration, with the duration read as its view.
pub open spec fn duration_outcome(r: Result<Duration, JsError>) -> Result<DurationView, JsError> {
    match r {
        Ok(d) => Ok(d@),
        Err(e) => Err(e),
    }
}

impl Duration {
    #[verifier::type_invariant]
    spec fn valid(self) -> bool {
        self@.is_valid()
    }

    /// The duration with the given magnitudes; magnitudes that do not make a
    /// valid duration are a range error.
    pub fn new(
        years: i64,
        months: i64,
        weeks: i64,
        days: i64,
        hours: i64,
        minutes: i64,
        seconds: i64,
        milliseconds: i64,
        microseconds: i128,
        nanoseconds: i128,
    ) -> (r: Result<Duration, JsError>)
        ensures
            duration_outcome(r) == ({
                let v = duration_fields(
                    years,
                    months,
                    weeks,
                    days,
                    hours,
                    minutes,
                    seconds,
                    milliseconds,
                    microseconds,
                    nanoseconds,
                );
                if v.is_valid() {
                    Ok::<DurationView, JsError>(v)
                } else {
                    Err(JsError { kind: ErrorKind::Range })
                }
            }),
    {
        let positive = years > 0 || months > 0 || weeks > 0 || days > 0 || hours > 0 || minutes > 0
            || seconds > 0 || milliseconds > 0 || microseconds > 0 || nanoseconds > 0;
        let negative = years < 0 || months < 0 || weeks < 0 || days < 0 || hours < 0 || minutes < 0
            || seconds < 0 || milliseconds < 0 || microseconds < 0 || nanoseconds < 0;
        if positive && negative {
            return Err(JsError::range());
        }
        if years <= -MAX_CALENDAR_UNITS || years >= MAX_CALENDAR_UNITS || months
            <= -MAX_CALENDAR_UNITS || months >= MAX_CALENDAR_UNITS || weeks <= -MAX_CALENDAR_UNITS
            || weeks >= MAX_CALENDAR_UNITS {
            return Err(JsError::range());
        }
        // With one sign throughout, a single field that is too large alone
        // puts the total out of bounds; past this check the sum cannot overflow.
        if microseconds <= -MAX_TIME_NANOSECONDS || microseconds >= MAX_TIME_NANOSECONDS
            || nanoseconds <= -MAX_TIME_NANOSECONDS || nanoseconds >= MAX_TIME_NANOSECONDS {
            return Err(JsError::range());
        }
        let total: i128 = (days as i128) * NS_PER_DAY + (hours as i128) * NS_PER_HOUR + (
        minutes as i128) * NS_PER_MINUTE + (seconds as i128) * NS_PER_SECOND + (
        milliseconds as i128) * NS_PER_MILLI + microseconds * NS_PER_MICRO + nanoseconds;
        if total <= -MAX_TIME_NANOSECONDS || total >= MAX_TIME_NANOSECONDS {
            return Err(JsError::range());
        }
        Ok(
            Duration {
                years,
                months,
                weeks,
                days,
                hours,
                minutes,
                seconds,
                milliseconds,
                microseconds,
                nanoseconds,
            },
        )
    }

    /// The same span in the other direction.
    pub fn negated(&self) -> (r: Duration)
        ensures
            r@ == self@.negated(),
    {
        proof {
            use_type_invariant(self);
        }
        Duration {
            years: -self.years,
            months: -self.months,
            weeks: -self.weeks,
            days: -self.days,
            hours: -self.hours,
            minutes: -self.minutes,
            seconds: -self.seconds,
            milliseconds: -self.milliseconds,
            microseconds: -self.microseconds,
            nanoseconds: -self.nanoseconds,
        }
    }
}

} // verus!
