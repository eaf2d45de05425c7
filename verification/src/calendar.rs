//! Calendar systems, known by their canonical identifiers.

use vstd::prelude::*;
use crate::engine::calendar_identifier;
use crate::engine::parse_calendar;
use crate::error::raised_kind;
use crate::error::JsError;

verus! {

/// A calendar system, held as its canonical identifier.
#[derive(Debug, PartialEq, Eq, Hash)]
pub struct Calendar {
    identifier: String,
}

impl View for Calendar {
    type V = Seq<char>;

    closed spec fn view(&self) -> Seq<char> {
        self.identifier@
    }
}

/// What reading a calendar from a text gives: the canonical identifier, or
/// the error that the unreadable text raises.
pub open spec fn calendar_from_text(text: Seq<char>) -> Result<Seq<char>, JsError> {
    match calendar_identifier(text) {
        Ok(id) => Ok(id),
        Err(f) => Err(JsError { kind: raised_kind(f) }),
    }
}

/// An outcome that may hold a calendar, read as its identifier.
pub open spec fn calendar_outcome(r: Result<Calendar, JsError>) -> Result<Seq<char>, JsError> {
    match r {
        Ok(c) => Ok(c@),
        Err(e) => Err(e),
    }
}

impl Calendar {
    /// The calendar that a text denotes, under its canonical identifier.
    pub fn from_str(text: &str) -> (r: Result<Calendar, JsError>)
        ensures
            calendar_outcome(r) == calendar_from_text(text@),
    {
        match parse_calendar(text) {
            Ok(identifier) => Ok(Calendar { identifier }),
            Err(fault) => Err(JsError::from_engine(fault)),
        }
    }

    /// The calendar held under an identifier that the engine gave out.
    pub(crate) fn from_identifier(identifier: String) -> (r: Calendar)
        ensures
            r@ == identifier@,
    {
        Calendar { identifier }
    }

    /// The canonical identifier.
    pub fn identifier(&self) -> (r: &str)
        ensures
            r@ == self@,
    {
        self.identifier.as_str()
    }
}

impl Clone for Calendar {
    fn clone(&self) -> (r: Calendar)
        ensures
            r@ == self@,
    {
        Calendar { identifier: self.identifier.clone() }
    }
}

impl Default for Calendar {
    /// The ISO 8601 calendar, taken where none is given.
    fn default() -> (r: Calendar)
        ensures
            r@ == "iso8601"@,
    {
        Calendar { identifier: "iso8601".to_owned() }
    }
}

} // verus!
