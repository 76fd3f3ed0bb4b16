use correlation_vector::enums::CorrelationVectorVersion;
use correlation_vector::errors::ValidationError;
use correlation_vector::validation::{infer_version, is_oversized, validate};

#[test]
fn infer_version_by_first_dot_offset() {
    // First dot at offset 16: V1.
    assert_eq!(
        CorrelationVectorVersion::V1,
        infer_version("ABCDEFGHIJKLMNOP.1")
    );
    // First dot at offset 22: V2.
    assert_eq!(
        CorrelationVectorVersion::V2,
        infer_version("PmvzQKgYek6Sdk/T5sWaqw.1")
    );
    // Any other offset: V1.
    assert_eq!(CorrelationVectorVersion::V1, infer_version("ab.cd"));
    // No dot at all: V1, leniently.
    assert_eq!(CorrelationVectorVersion::V1, infer_version("nodots"));
    // Only the first dot counts.
    assert_eq!(
        CorrelationVectorVersion::V1,
        infer_version("ab.cdefghijklmnopqrst.1")
    );
}

#[test]
fn validate_rejects_empty_string() {
    assert_eq!(
        Err(ValidationError::EmptyString),
        validate("", CorrelationVectorVersion::V1)
    );
}

#[test]
fn validate_rejects_string_over_maximum_length() {
    let long = format!("ABCDEFGHIJKLMNOP.{}", "1".repeat(47));
    assert_eq!(64, long.len());
    assert_eq!(
        Err(ValidationError::TooLong),
        validate(&long, CorrelationVectorVersion::V1)
    );
    // The same string sits well inside the V2 budget of 127 characters,
    // where only the base length check fails.
    assert_eq!(
        Err(ValidationError::BaseLengthMismatch),
        validate(&long, CorrelationVectorVersion::V2)
    );
}

#[test]
fn validate_rejects_fewer_than_two_parts() {
    assert_eq!(
        Err(ValidationError::TooFewParts),
        validate("nodotsatall", CorrelationVectorVersion::V1)
    );
}

#[test]
fn validate_rejects_base_length_mismatch() {
    assert_eq!(
        Err(ValidationError::BaseLengthMismatch),
        validate("short.1", CorrelationVectorVersion::V1)
    );
    assert_eq!(
        Err(ValidationError::BaseLengthMismatch),
        validate("PmvzQKgYek6Sdk/T5sWaqw.1", CorrelationVectorVersion::V1)
    );
}

#[test]
fn validate_accepts_version_correct_strings() {
    assert_eq!(
        Ok(()),
        validate("ABCDEFGHIJKLMNOP.1", CorrelationVectorVersion::V1)
    );
    assert_eq!(
        Ok(()),
        validate("PmvzQKgYek6Sdk/T5sWaqw.1.23", CorrelationVectorVersion::V2)
    );
}

#[test]
fn oversize_check_reserves_room_for_the_next_segment() {
    // 61 base characters + separator + one digit = 63: exactly the V1
    // budget, not over it.
    let base61 = "a".repeat(61);
    assert!(!is_oversized(&base61, 0, CorrelationVectorVersion::V1));
    // One more base character pushes the reserved size to 64.
    let base62 = "a".repeat(62);
    assert!(is_oversized(&base62, 0, CorrelationVectorVersion::V1));
    // The same base fits the V2 budget.
    assert!(!is_oversized(&base62, 0, CorrelationVectorVersion::V2));
    // A wider prospective extension needs more room: ten digits.
    let base52 = "a".repeat(52);
    assert!(!is_oversized(&base52, u32::MAX, CorrelationVectorVersion::V1));
    let base53 = "a".repeat(53);
    assert!(is_oversized(&base53, u32::MAX, CorrelationVectorVersion::V1));
}

#[test]
fn oversize_check_is_monotonic_in_base_length() {
    let mut seen_oversized = false;
    for len in 0..70usize {
        let base = "a".repeat(len);
        let over = is_oversized(&base, 7, CorrelationVectorVersion::V1);
        if seen_oversized {
            assert!(over);
        }
        if over {
            seen_oversized = true;
        }
    }
    assert!(seen_oversized);
}
