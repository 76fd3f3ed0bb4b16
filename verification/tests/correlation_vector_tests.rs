use correlation_vector::enums::CorrelationVectorVersion;
use correlation_vector::errors::{CvError, ParseError, UsageError};
use correlation_vector::CorrelationVector;

#[test]
fn it_extends_cv() {
    let cv = CorrelationVector::extend("PmvzQKgYek6Sdk/T5sWaqw.1", true).unwrap();
    assert_eq!("PmvzQKgYek6Sdk/T5sWaqw.1.0", cv.value());
}

#[test]
fn it_validates_cv_during_extend() {
    let cv = CorrelationVector::extend("PmvzQKgYek6Sdk/T5sWaqw.1!", true).unwrap();
    assert_eq!("PmvzQKgYek6Sdk/T5sWaqw.1!", cv.value());
}

#[test]
fn it_validates_cv_increment() {
    let mut cv = CorrelationVector::new(
        String::from("PmvzQKgYek6Sdk/T5sWaqw"),
        0,
        CorrelationVectorVersion::V1,
        false,
    );

    for c in 1..10u32 {
        cv.increment().unwrap();
        let increased_value = cv.value();
        let vector_parts: Vec<&str> = increased_value.split('.').collect();

        assert_eq!(c.to_string(), vector_parts[1]);
    }
}

#[test]
fn create_vector_starts_unset() {
    let cv = correlation_vector::create_vector();
    assert_eq!("", cv.base_vector());
    assert_eq!(0, cv.extension());
    assert!(!cv.is_immutable());
    assert_eq!(CorrelationVectorVersion::V1, cv.version());
    assert_eq!(".0", cv.value());
}

#[test]
fn parse_splits_at_last_dot() {
    let cv = CorrelationVector::parse("ab.cd.7", false).unwrap();
    assert_eq!("ab.cd", cv.base_vector());
    assert_eq!(7, cv.extension());
    assert!(!cv.is_immutable());
    assert_eq!("ab.cd.7", cv.value());
}

#[test]
fn parse_without_delimiter_fails() {
    let r = CorrelationVector::parse("nodelimiter", false);
    assert_eq!(Err(ParseError::MissingDelimiter), r.map(|cv| cv.extension()));
}

#[test]
fn parse_malformed_suffix_falls_back_to_zero() {
    let cv = CorrelationVector::parse("base.notanumber", false).unwrap();
    assert_eq!(0, cv.extension());
    assert_eq!("base.0", cv.value());
}

#[test]
fn parse_overflowing_suffix_falls_back_to_zero() {
    let cv = CorrelationVector::parse("base.99999999999999999999", false).unwrap();
    assert_eq!(0, cv.extension());
}

#[test]
fn parse_accepts_leading_zeros() {
    let cv = CorrelationVector::parse("base.0007", false).unwrap();
    assert_eq!(7, cv.extension());
    assert_eq!("base.7", cv.value());
}

#[test]
fn parse_frozen_strips_termination_sign() {
    let cv = CorrelationVector::parse("base.41!", true).unwrap();
    assert_eq!("base", cv.base_vector());
    assert_eq!(41, cv.extension());
    assert!(cv.is_immutable());
    assert_eq!("base.41!", cv.value());
}

#[test]
fn extend_on_frozen_dotless_input_fails_to_parse() {
    let r = CorrelationVector::extend("frozen!", false);
    assert_eq!(
        Err(CvError::Parse(ParseError::MissingDelimiter)),
        r.map(|cv| cv.extension())
    );
}

#[test]
fn extend_near_length_budget_freezes() {
    // A V1 string (first dot at offset 16) of length 62: appending ".0"
    // would exceed the 63-character budget, so extend freezes instead.
    let mut wire = String::from("ABCDEFGHIJKLMNOP");
    for _ in 0..23 {
        wire.push_str(".1");
    }
    assert_eq!(62, wire.len());
    let cv = CorrelationVector::extend(&wire, true).unwrap();
    assert!(cv.is_immutable());
    let mut frozen = wire.clone();
    frozen.push('!');
    assert_eq!(frozen, cv.value());

    // One character shorter and the budget still has room: extend grows.
    let shorter = &wire[..60];
    let cv2 = CorrelationVector::extend(shorter, true).unwrap();
    assert!(!cv2.is_immutable());
    assert_eq!(format!("{}.0", shorter), cv2.value());
}

#[test]
fn extend_propagates_validation_error() {
    let r = CorrelationVector::extend("short.1", true);
    assert_eq!(
        Err(CvError::Validation(
            correlation_vector::errors::ValidationError::BaseLengthMismatch
        )),
        r.map(|cv| cv.extension())
    );
}

#[test]
fn extend_without_validation_accepts_malformed_input() {
    let cv = CorrelationVector::extend("short.x", false).unwrap();
    assert_eq!("short.x.0", cv.value());
    assert_eq!(CorrelationVectorVersion::V1, cv.version());
}

#[test]
fn increment_on_frozen_vector_is_a_usage_error() {
    let mut cv = CorrelationVector::parse("base.1!", true).unwrap();
    assert_eq!(Err(UsageError::VectorFrozen), cv.increment());
    assert_eq!("base.1!", cv.value());
}

#[test]
fn value_renders_largest_extension() {
    let cv = CorrelationVector::new(
        String::from("x"),
        u32::MAX,
        CorrelationVectorVersion::V1,
        false,
    );
    assert_eq!("x.4294967295", cv.value());
}

#[test]
fn parse_of_value_round_trips() {
    let cv = CorrelationVector::extend("PmvzQKgYek6Sdk/T5sWaqw.1", true).unwrap();
    let back = CorrelationVector::parse(&cv.value(), cv.is_immutable()).unwrap();
    assert_eq!(cv.base_vector(), back.base_vector());
    assert_eq!(cv.extension(), back.extension());
    assert_eq!(cv.is_immutable(), back.is_immutable());
    assert_eq!(cv.version(), back.version());

    let frozen = CorrelationVector::parse("PmvzQKgYek6Sdk/T5sWaqw.1.8!", true).unwrap();
    let back2 = CorrelationVector::parse(&frozen.value(), frozen.is_immutable()).unwrap();
    assert_eq!(frozen.base_vector(), back2.base_vector());
    assert_eq!(frozen.extension(), back2.extension());
    assert_eq!(frozen.is_immutable(), back2.is_immutable());
    assert_eq!(frozen.version(), back2.version());
}
