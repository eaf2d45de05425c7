//! The failures that zoned date-time operations report.

use vstd::prelude::*;

verus! {

/// What went wrong, as far as a caller can act on it.
#[derive(Debug, Clone, Copy, PartialEq, Eq, Hash, Structural)]
pub enum ErrorKind {
    /// An argument has the wrong shape.
    Type,
    /// A value lies outside what can be represented or resolved.
    Range,
    /// The operation is disabled for this value type by design.
    Unsupported,
}

/// How the calendar and time-zone engine classifies a failure of its own.
#[derive(Debug, Clone, Copy, PartialEq, Eq, Hash, Structural)]
pub enum EngineFault {
    /// The engine calls it a type error.
    Type,
    /// Any other failure: a text that does not parse, a value out of range,
    /// an identifier that is not known.
    Other,
}

/// An error raised to the host.
#[derive(Debug, Clone, Copy, PartialEq, Eq, Hash, Structural)]
pub struct JsError {
    pub kind: ErrorKind,
}

/// The kind under which an engine failure is raised: a shape error stays a
/// type error, every other failure to parse or resolve is a range error.
pub open spec fn raised_kind(fault: EngineFault) -> ErrorKind {
    match fault {
        EngineFault::Type => ErrorKind::Type,
        _ => ErrorKind::Range,
    }
}

impl JsError {
    /// A type error.
    pub fn typ() -> (e: JsError)
        ensures
            e == (JsError { kind: ErrorKind::Type }),
    {
        JsError { kind: ErrorKind::Type }
    }

    /// A range error.
    pub fn range() -> (e: JsError)
        ensures
            e == (JsError { kind: ErrorKind::Range }),
    {
        JsError { kind: ErrorKind::Range }
    }

    /// An unsupported-operation error.
    pub fn unsupported() -> (e: JsError)
        ensures
            e == (JsError { kind: ErrorKind::Unsupported }),
    {
        JsError { kind: ErrorKind::Unsupported }
    }

    /// The error under which a failure of the engine is raised.
    pub fn from_engine(fault: EngineFault) -> (e: JsError)
        ensures
            e == (JsError { kind: raised_kind(fault) }),
    {
        match fault {
            EngineFault::Type => JsError { kind: ErrorKind::Type },
            _ => JsError { kind: ErrorKind::Range },
        }
    }
}

} // verus!
