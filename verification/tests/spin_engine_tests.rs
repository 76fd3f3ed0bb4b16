use correlation_vector::enums::{SpinCounterInterval, SpinCounterPeriodicity, SpinEntropy};
use correlation_vector::CorrelationVector;
use correlation_vector::SpinParameters;

#[test]
fn spin_packs_counter_and_entropy() {
    // Coarse interval drops 24 bits, short periodicity plus two entropy
    // bytes keeps 32: ticks of 2^24 leave a counter of 1, and the bytes
    // 0xAB, 0xCD pack to 0x01ABCD = 109517.
    let params = SpinParameters::new(
        SpinCounterInterval::Coarse,
        SpinCounterPeriodicity::Short,
        SpinEntropy::Two,
    );
    let entropy: Vec<u8> = vec![0xAB, 0xCD];
    let cv = CorrelationVector::spin_from_sources(
        "PmvzQKgYek6Sdk/T5sWaqw.1",
        &params,
        true,
        1u64 << 24,
        &entropy,
    )
    .unwrap();
    assert_eq!("PmvzQKgYek6Sdk/T5sWaqw.1.109517.0", cv.value());
    assert_eq!(0, cv.extension());
    assert!(!cv.is_immutable());
}

#[test]
fn spin_renders_two_segments_beyond_32_bits() {
    // Long periodicity plus one entropy byte keeps 40 bits, rendered as the
    // high and the low 32-bit halves joined by a dot.
    let params = SpinParameters::new(
        SpinCounterInterval::Coarse,
        SpinCounterPeriodicity::Long,
        SpinEntropy::One,
    );
    let entropy: Vec<u8> = vec![0x5A];
    let cv = CorrelationVector::spin_from_sources(
        "PmvzQKgYek6Sdk/T5sWaqw.1",
        &params,
        true,
        0x123456789ABCDEF0,
        &entropy,
    )
    .unwrap();
    // packed: (0x123456789ABCDEF0 >> 24) << 8 | 0x5A, masked to 40 bits.
    assert_eq!("PmvzQKgYek6Sdk/T5sWaqw.1.52.1450744410.0", cv.value());
}

#[test]
fn spin_at_full_width_applies_no_mask() {
    // Long periodicity plus four entropy bytes is exactly 64 bits: the mask
    // degenerates and the packed value passes through unmasked.
    let params = SpinParameters::new(
        SpinCounterInterval::Fine,
        SpinCounterPeriodicity::Long,
        SpinEntropy::Four,
    );
    let entropy: Vec<u8> = vec![0xFF, 0xFF, 0xFF, 0xFF];
    let cv = CorrelationVector::spin_from_sources(
        "PmvzQKgYek6Sdk/T5sWaqw.1",
        &params,
        true,
        u64::MAX,
        &entropy,
    )
    .unwrap();
    assert_eq!(
        "PmvzQKgYek6Sdk/T5sWaqw.1.4294967295.4294967295.0",
        cv.value()
    );
}

#[test]
fn spin_on_frozen_input_is_a_no_op() {
    let params = SpinParameters::new(
        SpinCounterInterval::Coarse,
        SpinCounterPeriodicity::Short,
        SpinEntropy::Two,
    );
    let cv = CorrelationVector::spin_with_parameters("PmvzQKgYek6Sdk/T5sWaqw.1!", &params, true)
        .unwrap();
    assert_eq!("PmvzQKgYek6Sdk/T5sWaqw.1!", cv.value());
    assert!(cv.is_immutable());
}

#[test]
fn spin_near_length_budget_freezes_the_original() {
    // A V1 string of length 60: any rendered spin segment pushes the
    // candidate past the 63-character budget, so the original is frozen.
    let params = SpinParameters::new(
        SpinCounterInterval::Coarse,
        SpinCounterPeriodicity::Short,
        SpinEntropy::Two,
    );
    let mut wire = String::from("ABCDEFGHIJKLMNOP");
    for _ in 0..22 {
        wire.push_str(".1");
    }
    assert_eq!(60, wire.len());
    let entropy: Vec<u8> = vec![0xAB, 0xCD];
    let cv =
        CorrelationVector::spin_from_sources(&wire, &params, true, 1u64 << 24, &entropy).unwrap();
    assert!(cv.is_immutable());
    assert_eq!(format!("{}!", wire), cv.value());
}

#[test]
fn spin_with_live_collaborators_appends_segments() {
    let cv = CorrelationVector::spin("PmvzQKgYek6Sdk/T5sWaqw.1", true).unwrap();
    let value = cv.value();
    assert!(value.starts_with("PmvzQKgYek6Sdk/T5sWaqw.1."));
    assert!(value.ends_with(".0"));
    assert!(!cv.is_immutable());
    assert_eq!(0, cv.extension());
    // The default configuration keeps 32 bits: one spin segment plus the
    // fresh extension segment.
    let tail = &value["PmvzQKgYek6Sdk/T5sWaqw.1.".len()..];
    let parts: Vec<&str> = tail.split('.').collect();
    assert_eq!(2, parts.len());
    assert!(parts[0].parse::<u32>().is_ok());
}

#[test]
fn spin_propagates_validation_error() {
    let r = CorrelationVector::spin("short.1", true);
    assert_eq!(
        Err(correlation_vector::errors::CvError::Validation(
            correlation_vector::errors::ValidationError::BaseLengthMismatch
        )),
        r.map(|cv| cv.extension())
    );
}
