//! Zoned date-times: an exact instant, read in a time zone, under a calendar.
//!
//! A [`ZonedDateTime`] is the triple of an [`Instant`](instant::Instant), a
//! [`TimeZone`](timezone::TimeZone) and a [`Calendar`](calendar::Calendar).
//! Nothing else is stored: year, month, hour and every other civil field is
//! computed from the triple when it is asked for, so two values at one
//! instant report different fields in different zones.
//!
//! The operations take and return host values ([`JsValue`]), since they are
//! made to sit behind the `ZonedDateTime` type of a scripting runtime:
//!
//! - [`ZonedDateTime::constructor`] builds a value from an epoch nanosecond
//!   count, a zone and a calendar;
//! - [`ZonedDateTime::from`] converts another zoned date-time, a bag of
//!   fields or a text, under the three policies of [`options`];
//! - the accessors of [`zoneddatetime::accessors`] read the fields;
//! - [`ZonedDateTime::add`] and [`ZonedDateTime::subtract`] move a value by a
//!   [`Duration`](duration::Duration).
//!
//! The rules of calendars and the history of time zones are not in this
//! crate. They are asked of `temporal_rs`, through the functions of
//! [`engine`], and that file alone is taken on trust. Everything else is
//! proved against the contracts stated there: which error is raised on
//! which input and in which order, what is handed to the engine, and what
//! becomes of its answer. [`zoneddatetime::laws`] states what holds across
//! operations.

pub mod calendar;
pub mod duration;
pub mod engine;
pub mod error;
pub mod fields;
pub mod instant;
pub mod options;
pub mod timezone;
pub mod value;
pub mod zoneddatetime;

pub use value::JsValue;
pub use value::Type;
pub use zoneddatetime::ZonedDateTime;
