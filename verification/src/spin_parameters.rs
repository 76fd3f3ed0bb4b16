//! The configuration value describing how `spin` packs time and entropy into
//! the injected path segment. An immutable value object; one per spin call.

use vstd::prelude::*;

use crate::enums::{SpinCounterInterval, SpinCounterPeriodicity, SpinEntropy};

verus! {

/// Parameters used by the correlation vector's spin operator.
#[derive(Debug, Clone, Copy)]
pub struct SpinParameters {
    // Internal value for entropy bytes; always between 0 and 4.
    entropy_bytes: i32,
    /// The interval (proportional to time) by which the counter increments.
    pub interval: SpinCounterInterval,
    /// How frequently the counter wraps around to zero, as determined by the
    /// amount of space used to store it.
    pub periodicity: SpinCounterPeriodicity,
}

impl SpinParameters {
    /// The stored entropy byte count, as a number.
    pub closed spec fn spec_entropy_bytes(&self) -> int {
        self.entropy_bytes as int
    }

    /// The configured interval.
    pub closed spec fn spec_interval(&self) -> SpinCounterInterval {
        self.interval
    }

    /// The configured periodicity.
    pub closed spec fn spec_periodicity(&self) -> SpinCounterPeriodicity {
        self.periodicity
    }

    /// Validity: the entropy byte count runs from a minimum of 0 to a
    /// maximum of 4. Every constructor establishes it and every method
    /// preserves it.
    pub closed spec fn wf(&self) -> bool {
        0 <= self.entropy_bytes <= 4
    }

    /// The number of bits the packed spin value is masked down to: the
    /// counter bits of the periodicity plus eight per entropy byte.
    pub open spec fn spec_total_bits(&self) -> int {
        self.spec_periodicity().spec_counter_bits() + self.spec_entropy_bytes() * 8
    }

    pub fn new(
        interval: SpinCounterInterval,
        periodicity: SpinCounterPeriodicity,
        entropy: SpinEntropy,
    ) -> (r: SpinParameters)
        ensures
            r.wf(),
            r.spec_interval() == interval,
            r.spec_periodicity() == periodicity,
            r.spec_entropy_bytes() == entropy.spec_bytes(),
    {
        SpinParameters { interval, periodicity, entropy_bytes: entropy.as_i32() }
    }

    /// The number of bytes to use for entropy, as an entropy level.
    pub fn entropy(&self) -> (r: SpinEntropy)
        requires
            self.wf(),
        ensures
            r.spec_bytes() == self.spec_entropy_bytes(),
    {
        match SpinEntropy::from_i32(self.entropy_bytes) {
            Some(e) => e,
            None => SpinEntropy::Zero,
        }
    }

    pub fn set_entropy(&mut self, value: SpinEntropy)
        ensures
            final(self).wf(),
            final(self).spec_entropy_bytes() == value.spec_bytes(),
            final(self).spec_interval() == old(self).spec_interval(),
            final(self).spec_periodicity() == old(self).spec_periodicity(),
    {
        self.entropy_bytes = value.as_i32();
    }

    /// The number of bytes used to store the entropy.
    pub fn entropy_bytes(&self) -> (r: i32)
        ensures
            r as int == self.spec_entropy_bytes(),
            self.wf() ==> 0 <= r <= 4,
    {
        self.entropy_bytes
    }

    /// The number of least significant bits to drop from the tick count when
    /// computing the counter.
    pub fn ticks_bits_to_drop(&self) -> (r: i32)
        ensures
            r as int == self.spec_interval().spec_bits_to_drop(),
    {
        match self.interval {
            SpinCounterInterval::Coarse => 24,
            SpinCounterInterval::Fine => 16,
        }
    }

    /// The number of bits the packed spin value is masked down to.
    pub fn total_bits(&self) -> (r: i32)
        requires
            self.wf(),
        ensures
            r as int == self.spec_total_bits(),
            0 <= r <= 64,
    {
        let counter_bits: i32 = match self.periodicity {
            SpinCounterPeriodicity::NoCounter => 0,
            SpinCounterPeriodicity::Short => 16,
            SpinCounterPeriodicity::Medium => 24,
            SpinCounterPeriodicity::Long => 32,
        };
        counter_bits + self.entropy_bytes * 8
    }
}

impl Default for SpinParameters {
    /// The default configuration: no entropy, the fine interval, no counter.
    fn default() -> (r: SpinParameters)
        ensures
            r.wf(),
            r.spec_entropy_bytes() == 0,
            r.spec_interval() == SpinCounterInterval::Fine,
            r.spec_periodicity() == SpinCounterPeriodicity::NoCounter,
    {
        SpinParameters {
            entropy_bytes: 0,
            interval: SpinCounterInterval::Fine,
            periodicity: SpinCounterPeriodicity::NoCounter,
        }
    }
}

/// Validity means exactly that the entropy byte count lies in `[0, 4]`.
pub proof fn lemma_wf_meaning(p: SpinParameters)
    ensures
        p.wf() <==> 0 <= p.spec_entropy_bytes() <= 4,
{
}

/// Two parameter values with the same entropy count, interval and
/// periodicity are the same value.
pub proof fn lemma_params_eq(a: SpinParameters, b: SpinParameters)
    requires
        a.spec_entropy_bytes() == b.spec_entropy_bytes(),
        a.spec_interval() == b.spec_interval(),
        a.spec_periodicity() == b.spec_periodicity(),
    ensures
        a == b,
{
}

/// The fixed configuration of the parameter-less `spin` convenience: the
/// coarse interval, the short periodicity, and two entropy bytes.
pub closed spec fn spec_default_spin_parameters() -> SpinParameters {
    SpinParameters {
        entropy_bytes: 2,
        interval: SpinCounterInterval::Coarse,
        periodicity: SpinCounterPeriodicity::Short,
    }
}

/// What the default spin configuration holds.
pub proof fn lemma_default_spin_parameters()
    ensures
        spec_default_spin_parameters().wf(),
        spec_default_spin_parameters().spec_entropy_bytes() == 2,
        spec_default_spin_parameters().spec_interval() == SpinCounterInterval::Coarse,
        spec_default_spin_parameters().spec_periodicity() == SpinCounterPeriodicity::Short,
{
}

} // verus!
