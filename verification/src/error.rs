//! The errors of schema construction and of value projection.

use vstd::prelude::*;
use vstd::std_specs::convert::FromSpecImpl;

verus! {

#[verifier::external_type_specification]
#[verifier::external_body]
pub struct ExParseError(gimli::Error);

/// What an [`ErrorKind`] says once the parser's own detail is left out.
pub enum Failure {
    TagMismatch { expected: u16, actual: u16 },
    ValueMismatch,
    MissingAttr { attr: u16 },
    MissingChild { tag: u16 },
    Malformed,
    NoVariant { discriminant: u64 },
    Narrowing,
    Other(Seq<char>),
}

/// The reasons for which reflection fails.
#[derive(Clone, Copy, Debug, PartialEq, Eq)]
pub enum ErrorKind {
    /// The entry has another tag than the one asked for.
    TagMismatch { expected: u16, actual: u16 },
    /// The attribute is there, in an encoding that cannot be used.
    ValueMismatch,
    /// The entry lacks a required attribute.
    MissingAttr { attr: u16 },
    /// The entry lacks a required child.
    MissingChild { tag: u16 },
    /// The debugging information could not be parsed.
    Gimli(gimli::Error),
    /// The discriminant read from memory belongs to no variant, and the sum
    /// type has no default variant.
    NoVariant { discriminant: u64 },
    /// The value is not of the concrete type that was asked for.
    Narrowing,
    /// A failure that has no variant of its own yet.
    MakeAMoreSpecificVariant(&'static str),
}

impl View for ErrorKind {
    type V = Failure;

    open spec fn view(&self) -> Failure {
        match *self {
            ErrorKind::TagMismatch { expected, actual } => Failure::TagMismatch { expected, actual },
            ErrorKind::ValueMismatch => Failure::ValueMismatch,
            ErrorKind::MissingAttr { attr } => Failure::MissingAttr { attr },
            ErrorKind::MissingChild { tag } => Failure::MissingChild { tag },
            ErrorKind::Gimli(_) => Failure::Malformed,
            ErrorKind::NoVariant { discriminant } => Failure::NoVariant { discriminant },
            ErrorKind::Narrowing => Failure::Narrowing,
            ErrorKind::MakeAMoreSpecificVariant(what) => Failure::Other(what@),
        }
    }
}

impl From<gimli::Error> for ErrorKind {
    fn from(value: gimli::Error) -> (kind: ErrorKind) {
        ErrorKind::Gimli(value)
    }
}

impl FromSpecImpl<gimli::Error> for ErrorKind {
    open spec fn obeys_from_spec() -> bool {
        true
    }

    open spec fn from_spec(value: gimli::Error) -> ErrorKind {
        ErrorKind::Gimli(value)
    }
}

} // verus!
