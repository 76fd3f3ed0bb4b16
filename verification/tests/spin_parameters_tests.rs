use correlation_vector::enums::{SpinCounterInterval, SpinCounterPeriodicity, SpinEntropy};
use correlation_vector::SpinParameters;

#[test]
fn it_sets_entropy() {
    let mut sp = correlation_vector::SpinParameters::default();

    sp.set_entropy(SpinEntropy::Four);

    assert_eq!(4, sp.entropy() as i32);
}

#[test]
fn new_stores_all_parts() {
    let sp = SpinParameters::new(
        SpinCounterInterval::Coarse,
        SpinCounterPeriodicity::Medium,
        SpinEntropy::Three,
    );
    assert_eq!(3, sp.entropy_bytes());
    assert_eq!(SpinCounterInterval::Coarse, sp.interval);
    assert_eq!(SpinCounterPeriodicity::Medium, sp.periodicity);
    assert_eq!(SpinEntropy::Three, sp.entropy());
}

#[test]
fn default_is_fine_interval_no_counter_no_entropy() {
    let sp = SpinParameters::default();
    assert_eq!(0, sp.entropy_bytes());
    assert_eq!(SpinCounterInterval::Fine, sp.interval);
    assert_eq!(SpinCounterPeriodicity::NoCounter, sp.periodicity);
}

#[test]
fn ticks_bits_to_drop_follows_interval() {
    let coarse = SpinParameters::new(
        SpinCounterInterval::Coarse,
        SpinCounterPeriodicity::Short,
        SpinEntropy::Two,
    );
    let fine = SpinParameters::new(
        SpinCounterInterval::Fine,
        SpinCounterPeriodicity::Short,
        SpinEntropy::Two,
    );
    assert_eq!(24, coarse.ticks_bits_to_drop());
    assert_eq!(16, fine.ticks_bits_to_drop());
}

#[test]
fn total_bits_adds_counter_and_entropy_bits() {
    let sp = SpinParameters::new(
        SpinCounterInterval::Coarse,
        SpinCounterPeriodicity::Short,
        SpinEntropy::Two,
    );
    assert_eq!(32, sp.total_bits());
    let widest = SpinParameters::new(
        SpinCounterInterval::Fine,
        SpinCounterPeriodicity::Long,
        SpinEntropy::Four,
    );
    assert_eq!(64, widest.total_bits());
    let none = SpinParameters::new(
        SpinCounterInterval::Fine,
        SpinCounterPeriodicity::NoCounter,
        SpinEntropy::Zero,
    );
    assert_eq!(0, none.total_bits());
}

#[test]
fn spin_entropy_converts_both_ways() {
    assert_eq!(Some(SpinEntropy::Zero), SpinEntropy::from_i32(0));
    assert_eq!(Some(SpinEntropy::Four), SpinEntropy::from_i32(4));
    assert_eq!(None, SpinEntropy::from_i32(5));
    assert_eq!(None, SpinEntropy::from_i32(-1));
    assert_eq!(2, SpinEntropy::Two.as_i32());
}
