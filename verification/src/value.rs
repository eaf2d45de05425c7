//! Host values as the date-time operations see them.

use vstd::prelude::*;
use crate::calendar::Calendar;
use crate::fields::DateFields;
use crate::fields::TimeFields;
use crate::zoneddatetime::ZonedDateTime;

verus! {

/// The language-level type of a host value.
#[derive(Debug, Clone, Copy, PartialEq, Eq, PartialOrd, Ord, Hash, Structural)]
pub enum Type {
    Undefined,
    Null,
    Boolean,
    Number,
    String,
    Symbol,
    BigInt,
    Object,
}

/// A double-precision number, carried as its IEEE 754 bit pattern. Nothing
/// here computes with such numbers; they are only handed on.
#[derive(Debug, Clone, Copy, PartialEq, Eq, Hash, Structural)]
pub struct Float64 {
    pub bits: u64,
}

/// A symbol, told apart from other symbols by its number.
#[derive(Debug, Clone, Copy, PartialEq, Eq, Hash, Structural)]
pub struct Symbol {
    pub id: u64,
}

/// What an object that is no zoned date-time shows of itself when it is read
/// as one: its calendar, its date and time fields, and whatever its
/// `timeZone` and `offset` properties hold.
#[derive(Debug)]
pub struct PropertyBag {
    pub calendar: Calendar,
    pub date: DateFields,
    pub time: TimeFields,
    pub time_zone: JsValue,
    pub offset: JsValue,
}

/// An object of the host.
#[derive(Debug)]
pub enum JsObject {
    /// An object that carries a zoned date-time.
    ZonedDateTime(ZonedDateTime),
    /// Any other object.
    Ordinary(Box<PropertyBag>),
}

/// A value of the host language.
#[derive(Debug)]
pub enum JsValue {
    Undefined,
    Null,
    Boolean(bool),
    Integer32(i32),
    Float64(Float64),
    String(String),
    Symbol(Symbol),
    /// An integer of any size the date-time operations can accept. Larger
    /// ones lie outside every range they allow and never reach them.
    BigInt(i128),
    Object(JsObject),
}

/// The type of a value: both number forms are numbers, everything else is
/// the type its form names.
pub open spec fn type_of(value: JsValue) -> Type {
    match value {
        JsValue::Undefined => Type::Undefined,
        JsValue::Null => Type::Null,
        JsValue::Boolean(_) => Type::Boolean,
        JsValue::Integer32(_) => Type::Number,
        JsValue::Float64(_) => Type::Number,
        JsValue::String(_) => Type::String,
        JsValue::Symbol(_) => Type::Symbol,
        JsValue::BigInt(_) => Type::BigInt,
        JsValue::Object(_) => Type::Object,
    }
}

impl JsValue {
    /// The type of the value.
    #[must_use]
    pub fn get_type(&self) -> (r: Type)
        ensures
            r == type_of(*self),
    {
        match self {
            JsValue::Float64(_) | JsValue::Integer32(_) => Type::Number,
            JsValue::String(_) => Type::String,
            JsValue::Boolean(_) => Type::Boolean,
            JsValue::Symbol(_) => Type::Symbol,
            JsValue::Null => Type::Null,
            JsValue::Undefined => Type::Undefined,
            JsValue::BigInt(_) => Type::BigInt,
            JsValue::Object(_) => Type::Object,
        }
    }
}

} // verus!
