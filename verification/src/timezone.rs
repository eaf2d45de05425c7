//! Time zones, known by their identifiers.

use vstd::prelude::*;
use crate::engine::parse_zone;
use crate::engine::zone_identifier;
use crate::error::raised_kind;
use crate::error::JsError;

verus! {

/// A time zone: a named zone of the zone database, or a fixed offset from
/// UTC. Either way it is held as its identifier, by which zones compare.
#[derive(Debug, PartialEq, Eq, Hash)]
pub struct TimeZone {
    identifier: String,
}

impl View for TimeZone {
    type V = Seq<char>;

    closed spec fn view(&self) -> Seq<char> {
        self.identifier@
    }
}

/// Whether an identifier is that of a fixed offset: it begins with a sign.
/// The identifiers of named zones begin with a letter.
pub open spec fn is_offset_identifier(identifier: Seq<char>) -> bool {
    identifier.len() > 0 && (identifier[0] == '+' || identifier[0] == '-')
}

/// What reading a zone from a text gives: the zone's identifier, or the
/// error that the unreadable text raises.
pub open spec fn zone_from_text(text: Seq<char>) -> Result<Seq<char>, JsError> {
    match zone_identifier(text) {
        Ok(id) => Ok(id),
        Err(f) => Err(JsError { kind: raised_kind(f) }),
    }
}

/// An outcome that may hold a zone, with the zone read as its identifier.
pub open spec fn zone_outcome(r: Result<TimeZone, JsError>) -> Result<Seq<char>, JsError> {
    match r {
        Ok(z) => Ok(z@),
        Err(e) => Err(e),
    }
}

impl TimeZone {
    /// The zone that a text denotes: a zone name, a numeric offset, or a
    /// date-time text that carries either.
    pub fn try_from_str(text: &str) -> (r: Result<TimeZone, JsError>)
        ensures
            zone_outcome(r) == zone_from_text(text@),
    {
        match parse_zone(text) {
            Ok(identifier) => Ok(TimeZone { identifier }),
            Err(fault) => Err(JsError::from_engine(fault)),
        }
    }

    /// Coordinated Universal Time, the zone taken where none is given.
    pub fn utc() -> (r: TimeZone)
        ensures
            r@ == "UTC"@,
    {
        TimeZone { identifier: "UTC".to_owned() }
    }

    /// The zone held under an identifier that the engine gave out.
    pub(crate) fn from_identifier(identifier: String) -> (r: TimeZone)
        ensures
            r@ == identifier@,
    {
        TimeZone { identifier }
    }

    /// Whether the zone is a fixed offset from UTC rather than a named zone
    /// with a history of offsets.
    pub fn is_fixed_offset(&self) -> (r: bool)
        ensures
            r == is_offset_identifier(self@),
    {
        let identifier = self.identifier.as_str();
        if identifier.unicode_len() == 0 {
            false
        } else {
            let first = identifier.get_char(0);
            first == '+' || first == '-'
        }
    }

    /// The zone's identifier.
    pub fn identifier(&self) -> (r: &str)
        ensures
            r@ == self@,
    {
        self.identifier.as_str()
    }
}

impl Clone for TimeZone {
    fn clone(&self) -> (r: TimeZone)
        ensures
            r@ == self@,
    {
        TimeZone { identifier: self.identifier.clone() }
    }
}

} // verus!
