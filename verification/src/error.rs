//! Failure values of the trampoline and their translation into the host's
//! exception taxonomy: every failure has exactly one exception kind and one
//! display message.

use vstd::prelude::*;
use vstd::string::StringExecFns;

verus! {

/// A reference did not carry the expected native type. Used for local control
/// flow only (try the next dispatch branch); it never escapes to the host.
#[derive(Clone, Copy, Debug, PartialEq, Eq, Structural)]
pub struct TypeMismatch;

/// The host's exception kinds that trampoline failures translate into.
#[derive(Clone, Copy, Debug, PartialEq, Eq, Structural)]
pub enum ExceptionKind {
    Argument,
    Type,
    Overflow,
    NotImplemented,
}

/// Every failure a trampoline operation can surface to the host.
#[derive(Clone, Debug, PartialEq, Eq)]
pub enum Error {
    /// A fourth construction argument that is not an options mapping.
    InvalidOffsetOptions,
    /// Construction arguments whose sum leaves the representable range.
    TimeTooLarge,
    /// An instant outside the calendar's representable range.
    TimeOutOfRange,
    /// An arithmetic result whose whole seconds leave the representable
    /// range.
    TimeOverflow,
    /// An offset string in none of the recognized forms, or an unknown zone.
    InvalidUtcOffset,
    /// An unrecognized subsecond unit.
    UnexpectedUnit,
    /// An ordering comparison against a value of the named class.
    ComparisonFailed(String),
    /// Adding two timestamps.
    TimePlusTime,
    /// An arithmetic operand convertible to no accepted number type.
    NotExactNumber,
    /// A value of the named class where an integer was required.
    NoImplicitInt(String),
    /// A receiver whose tag is not the native timestamp type.
    UninitializedTime,
    /// An intentionally stubbed operation.
    NotImplemented,
}

impl Error {
    /// The exception kind this failure translates into.
    pub open spec fn kind_spec(&self) -> ExceptionKind {
        match self {
            Error::TimePlusTime => ExceptionKind::Type,
            Error::NotExactNumber => ExceptionKind::Type,
            Error::NoImplicitInt(_) => ExceptionKind::Type,
            Error::UninitializedTime => ExceptionKind::Type,
            Error::ComparisonFailed(_) => ExceptionKind::Type,
            Error::TimeOverflow => ExceptionKind::Overflow,
            Error::NotImplemented => ExceptionKind::NotImplemented,
            _ => ExceptionKind::Argument,
        }
    }

    /// The display message attached to the exception.
    pub open spec fn message_spec(&self) -> Seq<char> {
        match self {
            Error::InvalidOffsetOptions => "invalid offset options"@,
            Error::TimeTooLarge => "Time too large"@,
            Error::TimeOutOfRange => "time out of range"@,
            Error::TimeOverflow => "time overflow"@,
            Error::InvalidUtcOffset => "\"+HH:MM\" or \"-HH:MM\" expected for utc_offset"@,
            Error::UnexpectedUnit => "unexpected unit"@,
            Error::ComparisonFailed(name) => "comparison of Time with "@ + name@ + " failed"@,
            Error::TimePlusTime => "time + time?"@,
            Error::NotExactNumber => "can't convert into an exact number"@,
            Error::NoImplicitInt(name) => "no implicit conversion of "@ + name@
                + " into Integer"@,
            Error::UninitializedTime => "uninitialized Time"@,
            Error::NotImplemented => "not implemented"@,
        }
    }

    /// Translate this failure into its exception kind.
    pub fn kind(&self) -> (r: ExceptionKind)
        ensures
            r == self.kind_spec(),
    {
        match self {
            Error::TimePlusTime => ExceptionKind::Type,
            Error::NotExactNumber => ExceptionKind::Type,
            Error::NoImplicitInt(_) => ExceptionKind::Type,
            Error::UninitializedTime => ExceptionKind::Type,
            Error::ComparisonFailed(_) => ExceptionKind::Type,
            Error::TimeOverflow => ExceptionKind::Overflow,
            Error::NotImplemented => ExceptionKind::NotImplemented,
            _ => ExceptionKind::Argument,
        }
    }

    /// Format the display message attached to the exception.
    pub fn message(&self) -> (r: String)
        ensures
            r@ == self.message_spec(),
    {
        match self {
            Error::InvalidOffsetOptions => String::from_str("invalid offset options"),
            Error::TimeTooLarge => String::from_str("Time too large"),
            Error::TimeOutOfRange => String::from_str("time out of range"),
            Error::TimeOverflow => String::from_str("time overflow"),
            Error::InvalidUtcOffset => String::from_str(
                "\"+HH:MM\" or \"-HH:MM\" expected for utc_offset",
            ),
            Error::UnexpectedUnit => String::from_str("unexpected unit"),
            Error::ComparisonFailed(name) => String::from_str("comparison of Time with ").concat(
                name.as_str(),
            ).concat(" failed"),
            Error::TimePlusTime => String::from_str("time + time?"),
            Error::NotExactNumber => String::from_str("can't convert into an exact number"),
            Error::NoImplicitInt(name) => String::from_str("no implicit conversion of ").concat(
                name.as_str(),
            ).concat(" into Integer"),
            Error::UninitializedTime => String::from_str("uninitialized Time"),
            Error::NotImplemented => String::from_str("not implemented"),
        }
    }
}

} // verus!
