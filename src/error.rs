//! Typed failures of construction and evaluation.

use vstd::prelude::*;

verus! {

/// The kinds of failure the library reports.
#[derive(Clone, Copy, Debug, PartialEq, Eq, Structural)]
pub enum ErrorVariant {
    /// A foreign-facing value did not have the expected type.
    FFI,
    /// The parameters of a domain are invalid.
    MakeDomain,
    /// The parameters of a transformation are invalid.
    MakeTransformation,
    /// The parameters of a measurement are invalid.
    MakeMeasurement,
    /// A domain and a metric cannot be paired.
    MetricSpace,
    /// Two domains that must agree do not.
    DomainMismatch,
    /// Two metrics or measures that must agree do not.
    MetricMismatch,
    /// A conservative computation has no representable result.
    Overflow,
    /// A relation was asked a question it cannot answer, such as one whose
    /// parameters are ill-formed.
    FailedRelation,
    /// A function failed on its input.
    FailedFunction,
}

/// A failure with its kind and a human-readable explanation.
#[derive(Clone, Debug)]
pub struct Error {
    pub variant: ErrorVariant,
    pub message: String,
}

/// The result of any operation that may fail.
pub type Fallible<T> = Result<T, Error>;

impl Error {
    /// Builds an error of the given kind with the given explanation.
    pub fn new(variant: ErrorVariant, message: &str) -> (r: Error)
        ensures
            r.variant == variant,
            r.message@ == message@,
    {
        Error { variant, message: String::from_str(message) }
    }
}

} // verus!
