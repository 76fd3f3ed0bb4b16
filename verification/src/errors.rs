//! The explicit, inspectable error values of the library. The library never
//! panics on malformed input: every failure is returned from the operation
//! that detects it.

use vstd::prelude::*;

verus! {

/// Why `validate` rejected a wire string. Raised only when validation is
/// explicitly requested; always recoverable at the call site.
#[derive(Debug, Clone, Copy, PartialEq, Eq, Structural)]
pub enum ValidationError {
    /// The wire string is empty.
    EmptyString,
    /// The wire string is longer than the version's maximum length.
    TooLong,
    /// Splitting on `.` yields fewer than two parts.
    TooFewParts,
    /// The first part's length does not equal the version's base length.
    BaseLengthMismatch,
}

/// Why `parse` failed. A malformed numeric suffix is not an error: it falls
/// back to the default extension value 0, keeping `parse` total over any
/// dotted string.
#[derive(Debug, Clone, Copy, PartialEq, Eq, Structural)]
pub enum ParseError {
    /// The string holds no `.` delimiter at all, so there is no valid split
    /// into a base and an extension.
    MissingDelimiter,
}

/// A caller-side logic error, surfaced as a value rather than swallowed.
#[derive(Debug, Clone, Copy, PartialEq, Eq, Structural)]
pub enum UsageError {
    /// `increment` was called on a frozen vector.
    VectorFrozen,
}

/// Everything that can go wrong while growing a vector from a wire string:
/// either the requested validation failed, or the string could not be split
/// into a base and an extension.
#[derive(Debug, Clone, Copy, PartialEq, Eq, Structural)]
pub enum CvError {
    Validation(ValidationError),
    Parse(ParseError),
}

} // verus!
