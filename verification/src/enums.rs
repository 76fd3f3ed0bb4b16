//! The small value enums of the wire format: the format version and the three
//! knobs of the spin operation.

use vstd::prelude::*;

verus! {

/// Wire-format version of a correlation vector. The version fixes the
/// expected length of the base identifier and the maximum total length of
/// the wire string.
#[derive(Debug, Clone, Copy, PartialEq, Eq, Structural)]
pub enum CorrelationVectorVersion {
    V1,
    V2,
}

impl CorrelationVectorVersion {
    /// Length of the opaque base identifier this version expects.
    pub open spec fn spec_base_length(self) -> int {
        match self {
            CorrelationVectorVersion::V1 => 16,
            CorrelationVectorVersion::V2 => 22,
        }
    }

    /// Maximum total length of the wire string for this version.
    pub open spec fn spec_max_length(self) -> int {
        match self {
            CorrelationVectorVersion::V1 => 63,
            CorrelationVectorVersion::V2 => 127,
        }
    }

    /// Length of the opaque base identifier this version expects.
    pub fn base_length(self) -> (r: usize)
        ensures
            r as int == self.spec_base_length(),
    {
        match self {
            CorrelationVectorVersion::V1 => 16,
            CorrelationVectorVersion::V2 => 22,
        }
    }

    /// Maximum total length of the wire string for this version.
    pub fn max_length(self) -> (r: usize)
        ensures
            r as int == self.spec_max_length(),
    {
        match self {
            CorrelationVectorVersion::V1 => 63,
            CorrelationVectorVersion::V2 => 127,
        }
    }
}

/// How many random bytes the spin operation injects into the new segment.
#[derive(Debug, Clone, Copy, PartialEq, Eq, Structural)]
pub enum SpinEntropy {
    /// Do not generate entropy as part of the spin value.
    Zero,
    /// Generate entropy using 8 bits.
    One,
    /// Generate entropy using 16 bits.
    Two,
    /// Generate entropy using 24 bits.
    Three,
    /// Generate entropy using 32 bits.
    Four,
}

impl SpinEntropy {
    /// The number of entropy bytes this level stands for.
    pub open spec fn spec_bytes(self) -> int {
        match self {
            SpinEntropy::Zero => 0,
            SpinEntropy::One => 1,
            SpinEntropy::Two => 2,
            SpinEntropy::Three => 3,
            SpinEntropy::Four => 4,
        }
    }

    /// The number of entropy bytes this level stands for.
    pub fn as_i32(self) -> (r: i32)
        ensures
            r as int == self.spec_bytes(),
    {
        match self {
            SpinEntropy::Zero => 0,
            SpinEntropy::One => 1,
            SpinEntropy::Two => 2,
            SpinEntropy::Three => 3,
            SpinEntropy::Four => 4,
        }
    }

    /// The entropy level standing for `value` bytes; valid values run from a
    /// minimum of 0 to a maximum of 4.
    pub fn from_i32(value: i32) -> (r: Option<SpinEntropy>)
        ensures
            0 <= value <= 4 ==> (r matches Some(e) && e.spec_bytes() == value as int),
            !(0 <= value <= 4) ==> r is None,
    {
        if value == 0 {
            Some(SpinEntropy::Zero)
        } else if value == 1 {
            Some(SpinEntropy::One)
        } else if value == 2 {
            Some(SpinEntropy::Two)
        } else if value == 3 {
            Some(SpinEntropy::Three)
        } else if value == 4 {
            Some(SpinEntropy::Four)
        } else {
            None
        }
    }
}

/// How coarsely the timestamp is truncated before it enters the spin value.
#[derive(Debug, Clone, Copy, PartialEq, Eq, Structural)]
pub enum SpinCounterInterval {
    /// The coarse interval drops the 24 least significant bits of the tick
    /// count, resulting in a counter that increments roughly every 1.67
    /// seconds.
    Coarse,
    /// The fine interval drops the 16 least significant bits of the tick
    /// count, resulting in a counter that increments roughly every 6.5
    /// milliseconds.
    Fine,
}

impl SpinCounterInterval {
    /// The number of least significant bits dropped from the tick count when
    /// computing the spin counter.
    pub open spec fn spec_bits_to_drop(self) -> int {
        match self {
            SpinCounterInterval::Coarse => 24,
            SpinCounterInterval::Fine => 16,
        }
    }
}

impl Default for SpinCounterInterval {
    fn default() -> (r: SpinCounterInterval)
        ensures
            r == SpinCounterInterval::Fine,
    {
        SpinCounterInterval::Fine
    }
}

/// How frequently the spin counter wraps around to zero, as determined by the
/// amount of space used to store it.
#[derive(Debug, Clone, Copy, PartialEq, Eq, Structural)]
pub enum SpinCounterPeriodicity {
    /// Do not store a counter as part of the spin value.
    NoCounter,
    /// The short periodicity stores the counter using 16 bits.
    Short,
    /// The medium periodicity stores the counter using 24 bits.
    Medium,
    /// The long periodicity stores the counter using 32 bits.
    Long,
}

impl SpinCounterPeriodicity {
    /// The number of bits retained for the spin counter.
    pub open spec fn spec_counter_bits(self) -> int {
        match self {
            SpinCounterPeriodicity::NoCounter => 0,
            SpinCounterPeriodicity::Short => 16,
            SpinCounterPeriodicity::Medium => 24,
            SpinCounterPeriodicity::Long => 32,
        }
    }
}

impl Default for SpinCounterPeriodicity {
    fn default() -> (r: SpinCounterPeriodicity)
        ensures
            r == SpinCounterPeriodicity::NoCounter,
    {
        SpinCounterPeriodicity::NoCounter
    }
}

} // verus!
