//! The machine's tagged value references, as the trampoline sees them, and
//! the boxing gateway: allocating a native timestamp behind a reference,
//! recovering one after checking the tag, and overwriting a cell in place.
//!
//! A mismatched tag is a recoverable condition, never undefined behaviour:
//! the only way from a reference to a native payload is the checked downcast
//! `unbox`.

use vstd::prelude::*;
use vstd::string::StringExecFns;

use crate::error::{Error, TypeMismatch};
use crate::options::Options;
use crate::timestamp::{Fractional, Timestamp};

verus! {

/// A value reference of the embedding machine: a runtime type tag with the
/// payload the trampoline may read once the tag is checked. Values of classes
/// the trampoline never reads the inside of carry only their class name.
#[derive(Clone, Debug, PartialEq, Eq)]
pub enum Value {
    Time(Timestamp),
    Integer(i64),
    Float(Fractional),
    Boolean(bool),
    Symbol(Vec<u8>),
    Str(String),
    Hash(Options),
    Nil,
    Other(String),
}

/// How an operand relates to the native type, in the dispatch order the
/// operations branch on: the same native type, a float-convertible value, an
/// exact-integer-convertible value, or none of these.
pub enum Operand {
    SameType(Timestamp),
    FloatConvertible(Fractional),
    IntConvertible(i64),
    Other,
}

impl Value {
    /// Validity of the payload behind the tag: a boxed timestamp or an exact
    /// fractional number must satisfy its own invariant.
    pub open spec fn wf(self) -> bool {
        match self {
            Value::Time(t) => t.wf(),
            Value::Float(f) => f.wf(),
            _ => true,
        }
    }

    /// The timestamp payload, where the tag is the native type.
    pub open spec fn as_time(self) -> Option<Timestamp> {
        match self {
            Value::Time(t) => Some(t),
            _ => None,
        }
    }

    /// The class name the machine would print for this value.
    pub open spec fn class_name_spec(self) -> Seq<char> {
        match self {
            Value::Time(_) => "Time"@,
            Value::Integer(_) => "Integer"@,
            Value::Float(_) => "Float"@,
            Value::Boolean(b) => if b {
                "TrueClass"@
            } else {
                "FalseClass"@
            },
            Value::Symbol(_) => "Symbol"@,
            Value::Str(_) => "String"@,
            Value::Hash(_) => "Hash"@,
            Value::Nil => "NilClass"@,
            Value::Other(name) => name@,
        }
    }

    /// The class name the machine would print for this value.
    pub fn class_name(&self) -> (r: String)
        ensures
            r@ == self.class_name_spec(),
    {
        match self {
            Value::Time(_) => String::from_str("Time"),
            Value::Integer(_) => String::from_str("Integer"),
            Value::Float(_) => String::from_str("Float"),
            Value::Boolean(b) => if *b {
                String::from_str("TrueClass")
            } else {
                String::from_str("FalseClass")
            },
            Value::Symbol(_) => String::from_str("Symbol"),
            Value::Str(_) => String::from_str("String"),
            Value::Hash(_) => String::from_str("Hash"),
            Value::Nil => String::from_str("NilClass"),
            Value::Other(name) => String::from_str(name.as_str()),
        }
    }

    /// Whether the tag is the key-value mapping type.
    pub fn is_hash(&self) -> (r: bool)
        ensures
            r == (self is Hash),
    {
        matches!(self, Value::Hash(_))
    }

    /// The checked downcast: the payload where the tag is the native type, a
    /// recoverable mismatch everywhere else.
    pub fn unbox(&self) -> (r: Result<&Timestamp, TypeMismatch>)
        ensures
            r is Ok <==> self is Time,
            r matches Ok(t) ==> self.as_time() == Some(*t),
    {
        match self {
            Value::Time(t) => Ok(t),
            _ => Err(TypeMismatch),
        }
    }

    /// Box a native timestamp into a fresh cell tagged with the native type.
    pub fn box_value(t: Timestamp) -> (r: Value)
        ensures
            r == Value::Time(t),
    {
        Value::Time(t)
    }

    /// Overwrite the payload of an existing cell, retagging it with the
    /// native type, without changing the cell's identity.
    pub fn replace_in_place(cell: &mut Value, t: Timestamp)
        ensures
            *final (cell) == Value::Time(t),
    {
        *cell = Value::Time(t);
    }

    /// How this value stands to the native type for arithmetic dispatch.
    pub fn classify(&self) -> (r: Operand)
        ensures
            match r {
                Operand::SameType(t) => *self == Value::Time(t),
                Operand::FloatConvertible(f) => *self == Value::Float(f),
                Operand::IntConvertible(i) => *self == Value::Integer(i),
                Operand::Other => !(self is Time) && !(self is Float) && !(self is Integer),
            },
    {
        match self {
            Value::Time(t) => Operand::SameType(*t),
            Value::Float(f) => Operand::FloatConvertible(*f),
            Value::Integer(i) => Operand::IntConvertible(*i),
            _ => Operand::Other,
        }
    }
}

/// The machine's implicit integer conversion: an exact integer keeps its
/// value, everything else is a type error naming the value's class.
pub fn implicitly_convert_to_int(v: &Value) -> (r: Result<i64, Error>)
    ensures
        r is Ok <==> v is Integer,
        r matches Ok(i) ==> *v == Value::Integer(i),
        r matches Err(e) ==> e matches Error::NoImplicitInt(n) && n@ == v.class_name_spec(),
{
    match v {
        Value::Integer(i) => Ok(*i),
        _ => Err(Error::NoImplicitInt(v.class_name())),
    }
}

} // verus!
