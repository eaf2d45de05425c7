//! The three policies that steer resolution and arithmetic, and how their
//! textual forms are read.

use vstd::prelude::*;
use crate::error::JsError;
use crate::error::ErrorKind;

verus! {

/// Which instant a wall-clock time denotes when the zone offers none or two.
#[derive(Debug, Clone, Copy, PartialEq, Eq, Hash, Structural)]
pub enum Disambiguation {
    Compatible,
    Earlier,
    Later,
    Reject,
}

/// How a stated UTC offset is reconciled with the offsets the zone allows.
#[derive(Debug, Clone, Copy, PartialEq, Eq, Hash, Structural)]
pub enum OffsetDisambiguation {
    Use,
    Prefer,
    Ignore,
    Reject,
}

/// What happens to a calendar field outside its natural range.
#[derive(Debug, Clone, Copy, PartialEq, Eq, Hash, Structural)]
pub enum ArithmeticOverflow {
    Constrain,
    Reject,
}

impl Disambiguation {
    /// The word that stands for the policy.
    pub open spec fn word(self) -> Seq<char> {
        match self {
            Disambiguation::Compatible => "compatible"@,
            Disambiguation::Earlier => "earlier"@,
            Disambiguation::Later => "later"@,
            Disambiguation::Reject => "reject"@,
        }
    }

    /// The word that stands for the policy.
    pub fn as_str(&self) -> (r: &'static str)
        ensures
            r@ == self.word(),
    {
        match self {
            Disambiguation::Compatible => "compatible",
            Disambiguation::Earlier => "earlier",
            Disambiguation::Later => "later",
            Disambiguation::Reject => "reject",
        }
    }

    /// The policy a word stands for, if it is one of the four allowed words.
    pub open spec fn parse_spec(s: Seq<char>) -> Option<Disambiguation> {
        if s == "compatible"@ {
            Some(Disambiguation::Compatible)
        } else if s == "earlier"@ {
            Some(Disambiguation::Earlier)
        } else if s == "later"@ {
            Some(Disambiguation::Later)
        } else if s == "reject"@ {
            Some(Disambiguation::Reject)
        } else {
            None
        }
    }

    pub fn parse(s: &String) -> (r: Option<Disambiguation>)
        ensures
            r == Self::parse_spec(s@),
    {
        if *s == "compatible".to_owned() {
            Some(Disambiguation::Compatible)
        } else if *s == "earlier".to_owned() {
            Some(Disambiguation::Earlier)
        } else if *s == "later".to_owned() {
            Some(Disambiguation::Later)
        } else if *s == "reject".to_owned() {
            Some(Disambiguation::Reject)
        } else {
            None
        }
    }
}

impl OffsetDisambiguation {
    /// The word that stands for the policy.
    pub open spec fn word(self) -> Seq<char> {
        match self {
            OffsetDisambiguation::Use => "use"@,
            OffsetDisambiguation::Prefer => "prefer"@,
            OffsetDisambiguation::Ignore => "ignore"@,
            OffsetDisambiguation::Reject => "reject"@,
        }
    }

    /// The word that stands for the policy.
    pub fn as_str(&self) -> (r: &'static str)
        ensures
            r@ == self.word(),
    {
        match self {
            OffsetDisambiguation::Use => "use",
            OffsetDisambiguation::Prefer => "prefer",
            OffsetDisambiguation::Ignore => "ignore",
            OffsetDisambiguation::Reject => "reject",
        }
    }

    /// The policy a word stands for, if it is one of the four allowed words.
    pub open spec fn parse_spec(s: Seq<char>) -> Option<OffsetDisambiguation> {
        if s == "use"@ {
            Some(OffsetDisambiguation::Use)
        } else if s == "prefer"@ {
            Some(OffsetDisambiguation::Prefer)
        } else if s == "ignore"@ {
            Some(OffsetDisambiguation::Ignore)
        } else if s == "reject"@ {
            Some(OffsetDisambiguation::Reject)
        } else {
            None
        }
    }

    pub fn parse(s: &String) -> (r: Option<OffsetDisambiguation>)
        ensures
            r == Self::parse_spec(s@),
    {
        if *s == "use".to_owned() {
            Some(OffsetDisambiguation::Use)
        } else if *s == "prefer".to_owned() {
            Some(OffsetDisambiguation::Prefer)
        } else if *s == "ignore".to_owned() {
            Some(OffsetDisambiguation::Ignore)
        } else if *s == "reject".to_owned() {
            Some(OffsetDisambiguation::Reject)
        } else {
            None
        }
    }
}

impl ArithmeticOverflow {
    /// The word that stands for the policy.
    pub open spec fn word(self) -> Seq<char> {
        match self {
            ArithmeticOverflow::Constrain => "constrain"@,
            ArithmeticOverflow::Reject => "reject"@,
        }
    }

    /// The word that stands for the policy.
    pub fn as_str(&self) -> (r: &'static str)
        ensures
            r@ == self.word(),
    {
        match self {
            ArithmeticOverflow::Constrain => "constrain",
            ArithmeticOverflow::Reject => "reject",
        }
    }

    /// The policy a word stands for, if it is one of the two allowed words.
    pub open spec fn parse_spec(s: Seq<char>) -> Option<ArithmeticOverflow> {
        if s == "constrain"@ {
            Some(ArithmeticOverflow::Constrain)
        } else if s == "reject"@ {
            Some(ArithmeticOverflow::Reject)
        } else {
            None
        }
    }

    pub fn parse(s: &String) -> (r: Option<ArithmeticOverflow>)
        ensures
            r == Self::parse_spec(s@),
    {
        if *s == "constrain".to_owned() {
            Some(ArithmeticOverflow::Constrain)
        } else if *s == "reject".to_owned() {
            Some(ArithmeticOverflow::Reject)
        } else {
            None
        }
    }
}

/// An option bag as the host hands it over: each entry is absent or a word.
#[derive(Debug, Clone, PartialEq, Eq, Hash)]
pub struct Options {
    pub disambiguation: Option<String>,
    pub offset: Option<String>,
    pub overflow: Option<String>,
}

/// The three policies after reading and defaulting.
#[derive(Debug, Clone, Copy, PartialEq, Eq, Hash, Structural)]
pub struct Policies {
    pub disambiguation: Disambiguation,
    pub offset: OffsetDisambiguation,
    pub overflow: ArithmeticOverflow,
}

/// Reading of the `disambiguation` entry: absent means `Compatible`, a word
/// outside the allowed set is no reading at all.
pub open spec fn disambiguation_of(entry: Option<String>) -> Option<Disambiguation> {
    match entry {
        None => Some(Disambiguation::Compatible),
        Some(s) => Disambiguation::parse_spec(s@),
    }
}

/// Reading of the `offset` entry: absent means `Reject`.
pub open spec fn offset_policy_of(entry: Option<String>) -> Option<OffsetDisambiguation> {
    match entry {
        None => Some(OffsetDisambiguation::Reject),
        Some(s) => OffsetDisambiguation::parse_spec(s@),
    }
}

/// Reading of the `overflow` entry: absent means `Constrain`.
pub open spec fn overflow_of(entry: Option<String>) -> Option<ArithmeticOverflow> {
    match entry {
        None => Some(ArithmeticOverflow::Constrain),
        Some(s) => ArithmeticOverflow::parse_spec(s@),
    }
}

/// The policies a bag stands for. Every entry is read, whether or not the
/// caller goes on to use it, and a single bad entry spoils the bag.
pub open spec fn policies_of(options: Options) -> Option<Policies> {
    match (
        disambiguation_of(options.disambiguation),
        offset_policy_of(options.offset),
        overflow_of(options.overflow),
    ) {
        (Some(d), Some(o), Some(v)) => Some(Policies { disambiguation: d, offset: o, overflow: v }),
        _ => None,
    }
}

impl Options {
    /// The bag with no entries.
    pub fn empty() -> (r: Options)
        ensures
            r.disambiguation is None,
            r.offset is None,
            r.overflow is None,
    {
        Options { disambiguation: None, offset: None, overflow: None }
    }

    /// Reads the `disambiguation` entry.
    pub fn get_disambiguation(&self) -> (r: Result<Disambiguation, JsError>)
        ensures
            r == (match disambiguation_of(self.disambiguation) {
                Some(d) => Ok::<Disambiguation, JsError>(d),
                None => Err(JsError { kind: ErrorKind::Range }),
            }),
    {
        match &self.disambiguation {
            None => Ok(Disambiguation::Compatible),
            Some(s) => match Disambiguation::parse(s) {
                Some(d) => Ok(d),
                None => Err(JsError::range()),
            },
        }
    }

    /// Reads the `offset` entry.
    pub fn get_offset(&self) -> (r: Result<OffsetDisambiguation, JsError>)
        ensures
            r == (match offset_policy_of(self.offset) {
                Some(o) => Ok::<OffsetDisambiguation, JsError>(o),
                None => Err(JsError { kind: ErrorKind::Range }),
            }),
    {
        match &self.offset {
            None => Ok(OffsetDisambiguation::Reject),
            Some(s) => match OffsetDisambiguation::parse(s) {
                Some(o) => Ok(o),
                None => Err(JsError::range()),
            },
        }
    }

    /// Reads the `overflow` entry.
    pub fn get_overflow(&self) -> (r: Result<ArithmeticOverflow, JsError>)
        ensures
            r == (match overflow_of(self.overflow) {
                Some(v) => Ok::<ArithmeticOverflow, JsError>(v),
                None => Err(JsError { kind: ErrorKind::Range }),
            }),
    {
        match &self.overflow {
            None => Ok(ArithmeticOverflow::Constrain),
            Some(s) => match ArithmeticOverflow::parse(s) {
                Some(v) => Ok(v),
                None => Err(JsError::range()),
            },
        }
    }

    /// Reads all three entries, in the order of their names. A word outside
    /// an entry's allowed set is a range error.
    pub fn policies(&self) -> (r: Result<Policies, JsError>)
        ensures
            r == (match policies_of(*self) {
                Some(p) => Ok::<Policies, JsError>(p),
                None => Err(JsError { kind: ErrorKind::Range }),
            }),
    {
        let disambiguation = self.get_disambiguation()?;
        let offset = self.get_offset()?;
        let overflow = self.get_overflow()?;
        Ok(Policies { disambiguation, offset, overflow })
    }
}

} // verus!
