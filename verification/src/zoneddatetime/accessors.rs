//! The fields of a zoned date-time, each computed when asked for.
//!
//! Every accessor takes the value that the host calls `this` and first
//! checks that it carries a zoned date-time: anything else is a type error.
//! Civil fields are then read in two steps, both done by the engine: the
//! instant is resolved to local date and time in the zone, and the calendar
//! computes the field.

use vstd::prelude::*;
use crate::engine::day_of;
use crate::engine::day_of_week_of;
use crate::engine::day_of_year_of;
use crate::engine::days_in_month_of;
use crate::engine::days_in_week_of;
use crate::engine::days_in_year_of;
use crate::engine::era_of;
use crate::engine::era_year_of;
use crate::engine::hour_of;
use crate::engine::hours_in_day_of;
use crate::engine::in_leap_year_of;
use crate::engine::microsecond_of;
use crate::engine::millisecond_of;
use crate::engine::minute_of;
use crate::engine::month_code_of;
use crate::engine::month_of;
use crate::engine::months_in_year_of;
use crate::engine::nanosecond_of;
use crate::engine::second_of;
use crate::engine::week_of_year_of;
use crate::engine::year_of;
use crate::engine::year_of_week_of;
use crate::engine::optional_i32;
use crate::engine::optional_u8;
use crate::error::ErrorKind;
use crate::error::JsError;
use crate::fields::optional_text;
use crate::value::Float64;
use crate::value::JsValue;
use crate::zoneddatetime::zoned_slot;
use crate::zoneddatetime::ZonedDateTime;

verus! {

impl ZonedDateTime {
    /// The identifier of the calendar.
    pub fn get_calendar_id(this: &JsValue) -> (r: Result<String, JsError>)
        ensures
            match zoned_slot(*this) {
                Some(z) => r matches Ok(v) && v@ == z@.calendar,
                None => r == Err::<String, JsError>(JsError { kind: ErrorKind::Type }),
            },
    {
        let zdt = Self::this_zoned(this)?;
        Ok(zdt.calendar().identifier().to_owned())
    }

    /// The identifier of the time zone.
    pub fn get_timezone_id(this: &JsValue) -> (r: Result<String, JsError>)
        ensures
            match zoned_slot(*this) {
                Some(z) => r matches Ok(v) && v@ == z@.zone,
                None => r == Err::<String, JsError>(JsError { kind: ErrorKind::Type }),
            },
    {
        let zdt = Self::this_zoned(this)?;
        Ok(zdt.time_zone().identifier().to_owned())
    }

    /// The era of the civil date, in lower case; none where the calendar has
    /// no eras.
    pub fn get_era(this: &JsValue) -> (r: Result<Option<String>, JsError>)
        ensures
            match zoned_slot(*this) {
                Some(z) => r matches Ok(v) && optional_text(v) == z@.era(),
                None => r == Err::<Option<String>, JsError>(JsError { kind: ErrorKind::Type }),
            },
    {
        let zdt = Self::this_zoned(this)?;
        let nanos = zdt.instant().epoch_nanoseconds();
        match era_of(nanos, zdt.time_zone().identifier(), zdt.calendar().identifier()) {
            Some(v) => Ok(v),
            None => Err(JsError::range()),
        }
    }

    /// The year within the era; none where the calendar has no eras.
    pub fn get_era_year(this: &JsValue) -> (r: Result<Option<i32>, JsError>)
        ensures
            match zoned_slot(*this) {
                Some(z) => r matches Ok(v) && optional_i32(v) == z@.era_year(),
                None => r == Err::<Option<i32>, JsError>(JsError { kind: ErrorKind::Type }),
            },
    {
        let zdt = Self::this_zoned(this)?;
        let nanos = zdt.instant().epoch_nanoseconds();
        match era_year_of(nanos, zdt.time_zone().identifier(), zdt.calendar().identifier()) {
            Some(v) => Ok(v),
            None => Err(JsError::range()),
        }
    }

    /// The calendar year of the civil date.
    pub fn get_year(this: &JsValue) -> (r: Result<i32, JsError>)
        ensures
            match zoned_slot(*this) {
                Some(z) => r matches Ok(v) && v == z@.year(),
                None => r == Err::<i32, JsError>(JsError { kind: ErrorKind::Type }),
            },
    {
        let zdt = Self::this_zoned(this)?;
        let nanos = zdt.instant().epoch_nanoseconds();
        match year_of(nanos, zdt.time_zone().identifier(), zdt.calendar().identifier()) {
            Some(v) => Ok(v),
            None => Err(JsError::range()),
        }
    }

    /// The ordinal month of the civil date.
    pub fn get_month(this: &JsValue) -> (r: Result<u8, JsError>)
        ensures
            match zoned_slot(*this) {
                Some(z) => r matches Ok(v) && v == z@.month(),
                None => r == Err::<u8, JsError>(JsError { kind: ErrorKind::Type }),
            },
    {
        let zdt = Self::this_zoned(this)?;
        let nanos = zdt.instant().epoch_nanoseconds();
        match month_of(nanos, zdt.time_zone().identifier(), zdt.calendar().identifier()) {
            Some(v) => Ok(v),
            None => Err(JsError::range()),
        }
    }

    /// The month code of the civil date.
    pub fn get_month_code(this: &JsValue) -> (r: Result<String, JsError>)
        ensures
            match zoned_slot(*this) {
                Some(z) => r matches Ok(v) && v@ == z@.month_code(),
                None => r == Err::<String, JsError>(JsError { kind: ErrorKind::Type }),
            },
    {
        let zdt = Self::this_zoned(this)?;
        let nanos = zdt.instant().epoch_nanoseconds();
        match month_code_of(nanos, zdt.time_zone().identifier(), zdt.calendar().identifier()) {
            Some(v) => Ok(v),
            None => Err(JsError::range()),
        }
    }

    /// The day of the month of the civil date.
    pub fn get_day(this: &JsValue) -> (r: Result<u8, JsError>)
        ensures
            match zoned_slot(*this) {
                Some(z) => r matches Ok(v) && v == z@.day(),
                None => r == Err::<u8, JsError>(JsError { kind: ErrorKind::Type }),
            },
    {
        let zdt = Self::this_zoned(this)?;
        let nanos = zdt.instant().epoch_nanoseconds();
        match day_of(nanos, zdt.time_zone().identifier(), zdt.calendar().identifier()) {
            Some(v) => Ok(v),
            None => Err(JsError::range()),
        }
    }

    /// The hour of the wall-clock time.
    pub fn get_hour(this: &JsValue) -> (r: Result<u8, JsError>)
        ensures
            match zoned_slot(*this) {
                Some(z) => r matches Ok(v) && v == z@.hour(),
                None => r == Err::<u8, JsError>(JsError { kind: ErrorKind::Type }),
            },
    {
        let zdt = Self::this_zoned(this)?;
        let nanos = zdt.instant().epoch_nanoseconds();
        match hour_of(nanos, zdt.time_zone().identifier(), zdt.calendar().identifier()) {
            Some(v) => Ok(v),
            None => Err(JsError::range()),
        }
    }

    /// The minute of the wall-clock time.
    pub fn get_minute(this: &JsValue) -> (r: Result<u8, JsError>)
        ensures
            match zoned_slot(*this) {
                Some(z) => r matches Ok(v) && v == z@.minute(),
                None => r == Err::<u8, JsError>(JsError { kind: ErrorKind::Type }),
            },
    {
        let zdt = Self::this_zoned(this)?;
        let nanos = zdt.instant().epoch_nanoseconds();
        match minute_of(nanos, zdt.time_zone().identifier(), zdt.calendar().identifier()) {
            Some(v) => Ok(v),
            None => Err(JsError::range()),
        }
    }

    /// The second of the wall-clock time.
    pub fn get_second(this: &JsValue) -> (r: Result<u8, JsError>)
        ensures
            match zoned_slot(*this) {
                Some(z) => r matches Ok(v) && v == z@.second(),
                None => r == Err::<u8, JsError>(JsError { kind: ErrorKind::Type }),
            },
    {
        let zdt = Self::this_zoned(this)?;
        let nanos = zdt.instant().epoch_nanoseconds();
        match second_of(nanos, zdt.time_zone().identifier(), zdt.calendar().identifier()) {
            Some(v) => Ok(v),
            None => Err(JsError::range()),
        }
    }

    /// The millisecond of the wall-clock time.
    pub fn get_millisecond(this: &JsValue) -> (r: Result<u16, JsError>)
        ensures
            match zoned_slot(*this) {
                Some(z) => r matches Ok(v) && v == z@.millisecond(),
                None => r == Err::<u16, JsError>(JsError { kind: ErrorKind::Type }),
            },
    {
        let zdt = Self::this_zoned(this)?;
        let nanos = zdt.instant().epoch_nanoseconds();
        match millisecond_of(nanos, zdt.time_zone().identifier(), zdt.calendar().identifier()) {
            Some(v) => Ok(v),
            None => Err(JsError::range()),
        }
    }

    /// The microsecond of the wall-clock time.
    pub fn get_microsecond(this: &JsValue) -> (r: Result<u16, JsError>)
        ensures
            match zoned_slot(*this) {
                Some(z) => r matches Ok(v) && v == z@.microsecond(),
                None => r == Err::<u16, JsError>(JsError { kind: ErrorKind::Type }),
            },
    {
        let zdt = Self::this_zoned(this)?;
        let nanos = zdt.instant().epoch_nanoseconds();
        match microsecond_of(nanos, zdt.time_zone().identifier(), zdt.calendar().identifier()) {
            Some(v) => Ok(v),
            None => Err(JsError::range()),
        }
    }

    /// The nanosecond of the wall-clock time.
    pub fn get_nanosecond(this: &JsValue) -> (r: Result<u16, JsError>)
        ensures
            match zoned_slot(*this) {
                Some(z) => r matches Ok(v) && v == z@.nanosecond(),
                None => r == Err::<u16, JsError>(JsError { kind: ErrorKind::Type }),
            },
    {
        let zdt = Self::this_zoned(this)?;
        let nanos = zdt.instant().epoch_nanoseconds();
        match nanosecond_of(nanos, zdt.time_zone().identifier(), zdt.calendar().identifier()) {
            Some(v) => Ok(v),
            None => Err(JsError::range()),
        }
    }

    /// Whole milliseconds from the epoch to the instant, rounded towards the
    /// past.
    pub fn get_epoch_millisecond(this: &JsValue) -> (r: Result<i64, JsError>)
        ensures
            match zoned_slot(*this) {
                Some(z) => r matches Ok(v) && v == z@.epoch_milliseconds(),
                None => r == Err::<i64, JsError>(JsError { kind: ErrorKind::Type }),
            },
    {
        let zdt = Self::this_zoned(this)?;
        Ok(zdt.instant().epoch_milliseconds())
    }

    /// Nanoseconds from the epoch to the instant, exactly.
    pub fn get_epoch_nanosecond(this: &JsValue) -> (r: Result<i128, JsError>)
        ensures
            match zoned_slot(*this) {
                Some(z) => r matches Ok(v) && v == z@.nanos,
                None => r == Err::<i128, JsError>(JsError { kind: ErrorKind::Type }),
            },
    {
        let zdt = Self::this_zoned(this)?;
        Ok(zdt.instant().epoch_nanoseconds())
    }

    /// The day of the week of the civil date, Monday being 1.
    pub fn get_day_of_week(this: &JsValue) -> (r: Result<u16, JsError>)
        ensures
            match zoned_slot(*this) {
                Some(z) => r matches Ok(v) && v == z@.day_of_week(),
                None => r == Err::<u16, JsError>(JsError { kind: ErrorKind::Type }),
            },
    {
        let zdt = Self::this_zoned(this)?;
        let nanos = zdt.instant().epoch_nanoseconds();
        match day_of_week_of(nanos, zdt.time_zone().identifier(), zdt.calendar().identifier()) {
            Some(v) => Ok(v),
            None => Err(JsError::range()),
        }
    }

    /// The day of the year of the civil date.
    pub fn get_day_of_year(this: &JsValue) -> (r: Result<u16, JsError>)
        ensures
            match zoned_slot(*this) {
                Some(z) => r matches Ok(v) && v == z@.day_of_year(),
                None => r == Err::<u16, JsError>(JsError { kind: ErrorKind::Type }),
            },
    {
        let zdt = Self::this_zoned(this)?;
        let nanos = zdt.instant().epoch_nanoseconds();
        match day_of_year_of(nanos, zdt.time_zone().identifier(), zdt.calendar().identifier()) {
            Some(v) => Ok(v),
            None => Err(JsError::range()),
        }
    }

    /// The week of the year; none, and no error, where the calendar numbers
    /// no weeks.
    pub fn get_week_of_year(this: &JsValue) -> (r: Result<Option<u8>, JsError>)
        ensures
            match zoned_slot(*this) {
                Some(z) => r matches Ok(v) && optional_u8(v) == z@.week_of_year(),
                None => r == Err::<Option<u8>, JsError>(JsError { kind: ErrorKind::Type }),
            },
    {
        let zdt = Self::this_zoned(this)?;
        let nanos = zdt.instant().epoch_nanoseconds();
        match week_of_year_of(nanos, zdt.time_zone().identifier(), zdt.calendar().identifier()) {
            Some(v) => Ok(v),
            None => Err(JsError::range()),
        }
    }

    /// The year that the week belongs to; none, and no error, where the
    /// calendar numbers no weeks.
    pub fn get_year_of_week(this: &JsValue) -> (r: Result<Option<i32>, JsError>)
        ensures
            match zoned_slot(*this) {
                Some(z) => r matches Ok(v) && optional_i32(v) == z@.year_of_week(),
                None => r == Err::<Option<i32>, JsError>(JsError { kind: ErrorKind::Type }),
            },
    {
        let zdt = Self::this_zoned(this)?;
        let nanos = zdt.instant().epoch_nanoseconds();
        match year_of_week_of(nanos, zdt.time_zone().identifier(), zdt.calendar().identifier()) {
            Some(v) => Ok(v),
            None => Err(JsError::range()),
        }
    }

    /// The length of the civil day in hours: twenty-four on most days, less
    /// or more on a day that holds a transition of the zone. A range error
    /// where the engine cannot bound the day.
    pub fn get_hours_in_day(this: &JsValue) -> (r: Result<Float64, JsError>)
        ensures
            match zoned_slot(*this) {
                Some(z) => match z@.hours_in_day() {
                    Some(bits) => r matches Ok(v) && v.bits == bits,
                    None => r == Err::<Float64, JsError>(JsError { kind: ErrorKind::Range }),
                },
                None => r == Err::<Float64, JsError>(JsError { kind: ErrorKind::Type }),
            },
    {
        let zdt = Self::this_zoned(this)?;
        let nanos = zdt.instant().epoch_nanoseconds();
        match hours_in_day_of(nanos, zdt.time_zone().identifier(), zdt.calendar().identifier()) {
            Some(bits) => Ok(Float64 { bits }),
            None => Err(JsError::range()),
        }
    }

    /// The number of days in a week: seven in every calendar.
    pub fn get_days_in_week(this: &JsValue) -> (r: Result<u16, JsError>)
        ensures
            match zoned_slot(*this) {
                Some(z) => r matches Ok(v) && v == 7,
                None => r == Err::<u16, JsError>(JsError { kind: ErrorKind::Type }),
            },
    {
        let zdt = Self::this_zoned(this)?;
        let nanos = zdt.instant().epoch_nanoseconds();
        match days_in_week_of(nanos, zdt.time_zone().identifier(), zdt.calendar().identifier()) {
            Some(v) => Ok(v),
            None => Err(JsError::range()),
        }
    }

    /// The number of days in the month of the civil date.
    pub fn get_days_in_month(this: &JsValue) -> (r: Result<u16, JsError>)
        ensures
            match zoned_slot(*this) {
                Some(z) => r matches Ok(v) && v == z@.days_in_month(),
                None => r == Err::<u16, JsError>(JsError { kind: ErrorKind::Type }),
            },
    {
        let zdt = Self::this_zoned(this)?;
        let nanos = zdt.instant().epoch_nanoseconds();
        match days_in_month_of(nanos, zdt.time_zone().identifier(), zdt.calendar().identifier()) {
            Some(v) => Ok(v),
            None => Err(JsError::range()),
        }
    }

    /// The number of days in the year of the civil date.
    pub fn get_days_in_year(this: &JsValue) -> (r: Result<u16, JsError>)
        ensures
            match zoned_slot(*this) {
                Some(z) => r matches Ok(v) && v == z@.days_in_year(),
                None => r == Err::<u16, JsError>(JsError { kind: ErrorKind::Type }),
            },
    {
        let zdt = Self::this_zoned(this)?;
        let nanos = zdt.instant().epoch_nanoseconds();
        match days_in_year_of(nanos, zdt.time_zone().identifier(), zdt.calendar().identifier()) {
            Some(v) => Ok(v),
            None => Err(JsError::range()),
        }
    }

    /// The number of months in the year of the civil date.
    pub fn get_months_in_year(this: &JsValue) -> (r: Result<u16, JsError>)
        ensures
            match zoned_slot(*this) {
                Some(z) => r matches Ok(v) && v == z@.months_in_year(),
                None => r == Err::<u16, JsError>(JsError { kind: ErrorKind::Type }),
            },
    {
        let zdt = Self::this_zoned(this)?;
        let nanos = zdt.instant().epoch_nanoseconds();
        match months_in_year_of(nanos, zdt.time_zone().identifier(), zdt.calendar().identifier()) {
            Some(v) => Ok(v),
            None => Err(JsError::range()),
        }
    }

    /// Whether the civil date lies in a leap year of its calendar.
    pub fn get_in_leap_year(this: &JsValue) -> (r: Result<bool, JsError>)
        ensures
            match zoned_slot(*this) {
                Some(z) => r matches Ok(v) && v == z@.in_leap_year(),
                None => r == Err::<bool, JsError>(JsError { kind: ErrorKind::Type }),
            },
    {
        let zdt = Self::this_zoned(this)?;
        let nanos = zdt.instant().epoch_nanoseconds();
        match in_leap_year_of(nanos, zdt.time_zone().identifier(), zdt.calendar().identifier()) {
            Some(v) => Ok(v),
            None => Err(JsError::range()),
        }
    }
}

} // verus!
