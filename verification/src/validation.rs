//! Version inference and format validation. Inference is lenient by design:
//! it never fails, so that malformed input is still classifiable for
//! downstream handling. Validation is opt-in and returns explicit errors.

use vstd::prelude::*;

use crate::digits::dec_str;
use crate::enums::CorrelationVectorVersion;
use crate::errors::ValidationError;
use crate::text::{find_first_dot, first_dot};

verus! {

/// The version a wire string presents: V1 when the first `.` sits at offset
/// 16, V2 when it sits at offset 22, and V1 in every other case, including a
/// string with no `.` at all.
pub open spec fn spec_infer_version(s: Seq<char>) -> CorrelationVectorVersion {
    if first_dot(s) == Option::Some(22int) {
        CorrelationVectorVersion::V2
    } else {
        CorrelationVectorVersion::V1
    }
}

/// Whether the wire string meets the format invariants of the version.
pub open spec fn spec_validate(s: Seq<char>, version: CorrelationVectorVersion) -> Result<
    (),
    ValidationError,
> {
    if s.len() == 0 {
        Err(ValidationError::EmptyString)
    } else if s.len() > version.spec_max_length() {
        Err(ValidationError::TooLong)
    } else {
        match first_dot(s) {
            Option::None => Err(ValidationError::TooFewParts),
            Option::Some(i) => if i != version.spec_base_length() {
                Err(ValidationError::BaseLengthMismatch)
            } else {
                Ok(())
            },
        }
    }
}

/// Whether a vector with this base and this prospective extension would
/// exceed the version's maximum wire length. The check reserves room for the
/// separator and for the extension's decimal digits before a growth
/// operation commits.
pub open spec fn spec_oversized(
    base: Seq<char>,
    extension: nat,
    version: CorrelationVectorVersion,
) -> bool {
    base.len() + 1 + dec_str(extension).len() > version.spec_max_length()
}

/// Derives the format version from the string's shape; lenient, never fails.
pub fn infer_version(s: &str) -> (v: CorrelationVectorVersion)
    ensures
        v == spec_infer_version(s@),
{
    match find_first_dot(s) {
        Some(i) => {
            if i == 22 {
                CorrelationVectorVersion::V2
            } else {
                CorrelationVectorVersion::V1
            }
        },
        None => CorrelationVectorVersion::V1,
    }
}

/// Enforces the format invariants of the version, signalling exactly which
/// one a malformed wire string breaks.
pub fn validate(s: &str, version: CorrelationVectorVersion) -> (r: Result<(), ValidationError>)
    ensures
        r == spec_validate(s@, version),
{
    let n = s.unicode_len();
    if n == 0 {
        return Err(ValidationError::EmptyString);
    }
    if n > version.max_length() {
        return Err(ValidationError::TooLong);
    }
    match find_first_dot(s) {
        None => Err(ValidationError::TooFewParts),
        Some(i) => {
            if i != version.base_length() {
                Err(ValidationError::BaseLengthMismatch)
            } else {
                Ok(())
            }
        },
    }
}

/// Whether growing a vector with this base and this prospective extension
/// would exceed the version's maximum wire length.
pub fn is_oversized(base: &str, extension: u32, version: CorrelationVectorVersion) -> (r: bool)
    ensures
        r == spec_oversized(base@, extension as nat, version),
{
    let bl = base.unicode_len();
    let digits = crate::digits::decimal_digit_count(extension);
    let max = version.max_length();
    if bl >= max {
        true
    } else {
        bl + 1 + digits > max
    }
}

} // verus!
