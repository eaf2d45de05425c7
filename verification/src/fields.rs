//! Date and time fields that may each be present or absent.

use vstd::prelude::*;

verus! {

/// Calendar date fields, any of which may be missing. What the fields mean,
/// and which of them must be there, is for the calendar to say.
#[derive(Debug, Clone, PartialEq, Eq, Hash)]
pub struct DateFields {
    pub year: Option<i32>,
    pub month: Option<u8>,
    pub month_code: Option<String>,
    pub day: Option<u8>,
    pub era: Option<String>,
    pub era_year: Option<i32>,
}

/// Calendar date fields with their texts read as characters.
pub struct DateFieldsView {
    pub year: Option<i32>,
    pub month: Option<u8>,
    pub month_code: Option<Seq<char>>,
    pub day: Option<u8>,
    pub era: Option<Seq<char>>,
    pub era_year: Option<i32>,
}

/// Wall-clock time fields, any of which may be missing.
#[derive(Debug, Clone, Copy, PartialEq, Eq, Hash, Structural)]
pub struct TimeFields {
    pub hour: Option<u8>,
    pub minute: Option<u8>,
    pub second: Option<u8>,
    pub millisecond: Option<u16>,
    pub microsecond: Option<u16>,
    pub nanosecond: Option<u16>,
}

/// An optional text read as its characters.
pub open spec fn optional_text(v: Option<String>) -> Option<Seq<char>> {
    match v {
        Some(s) => Some(s@),
        None => None,
    }
}

impl View for DateFields {
    type V = DateFieldsView;

    open spec fn view(&self) -> DateFieldsView {
        DateFieldsView {
            year: self.year,
            month: self.month,
            month_code: optional_text(self.month_code),
            day: self.day,
            era: optional_text(self.era),
            era_year: self.era_year,
        }
    }
}

/// Whether a character is one of the ten digits.
pub open spec fn is_digit(c: char) -> bool {
    '0' <= c <= '9'
}

/// Whether a text has the form of a month code: `M`, two digits, and
/// possibly an `L` for a leap month.
pub open spec fn is_month_code(s: Seq<char>) -> bool {
    &&& s.len() == 3 || s.len() == 4
    &&& s[0] == 'M'
    &&& is_digit(s[1])
    &&& is_digit(s[2])
    &&& s.len() == 4 ==> s[3] == 'L'
}

/// Whether a character can stand in the name of an era: it is ASCII and not
/// NUL.
pub open spec fn is_era_char(c: char) -> bool {
    0 < c as int <= 127
}

/// Whether a text can name an era: at most nineteen characters, each of
/// which can stand in such a name.
pub open spec fn is_era_text(s: Seq<char>) -> bool {
    &&& s.len() <= 19
    &&& forall|i: int| 0 <= i < s.len() ==> is_era_char(#[trigger] s[i])
}

impl DateFieldsView {
    /// The month code, if there is one, has the form of a month code, and the
    /// era, if there is one, can name an era.
    pub open spec fn is_readable(self) -> bool {
        &&& self.month_code matches Some(code) ==> is_month_code(code)
        &&& self.era matches Some(era) ==> is_era_text(era)
    }
}

impl DateFields {
    /// The record with every field missing.
    pub fn new() -> (r: DateFields)
        ensures
            r@ == (DateFieldsView {
                year: None,
                month: None,
                month_code: None,
                day: None,
                era: None,
                era_year: None,
            }),
    {
        DateFields { year: None, month: None, month_code: None, day: None, era: None, era_year: None }
    }
}

impl TimeFields {
    /// The record with every field missing.
    pub fn new() -> (r: TimeFields)
        ensures
            r == (TimeFields {
                hour: None,
                minute: None,
                second: None,
                millisecond: None,
                microsecond: None,
                nanosecond: None,
            }),
    {
        TimeFields {
            hour: None,
            minute: None,
            second: None,
            millisecond: None,
            microsecond: None,
            nanosecond: None,
        }
    }
}

} // verus!
