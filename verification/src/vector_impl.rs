//! The correlation vector itself: construction, parsing, rendering, and the
//! three growth operations `extend`, `increment` and `spin`.

use vstd::prelude::*;

use crate::codec::{lift_parse, spec_extend, spec_parse, spec_value, CvModel};
use crate::digits::{parse_extension_segment, u64_to_string};
use crate::enums::{
    CorrelationVectorVersion, SpinCounterInterval, SpinCounterPeriodicity, SpinEntropy,
};
use crate::errors::{CvError, ParseError, UsageError};
use crate::spin::{spec_spin, spin_value, draw_entropy, now_ticks};
use crate::spin_parameters::{
    lemma_default_spin_parameters, lemma_params_eq, spec_default_spin_parameters, SpinParameters,
};
use crate::text::{ends_bang, ends_with_bang, find_last_dot, last_dot};
use crate::validation::{infer_version, is_oversized, spec_infer_version, validate};

verus! {

/// A correlation vector: an opaque base identifier, a counter rendered as
/// the final decimal segment, a frozen flag, and the format version fixed at
/// construction.
#[derive(Debug, Clone)]
pub struct CorrelationVector {
    base_vector: String,
    extension: u32,
    immutable: bool,
    version: CorrelationVectorVersion,
}

impl View for CorrelationVector {
    type V = CvModel;

    closed spec fn view(&self) -> CvModel {
        CvModel {
            base: self.base_vector@,
            extension: self.extension as nat,
            immutable: self.immutable,
            version: self.version,
        }
    }
}

/// An executable parse outcome agrees with a modelled one: same success or
/// failure, the same model on success, the same error on failure.
pub open spec fn models_parse(
    r: Result<CorrelationVector, ParseError>,
    m: Result<CvModel, ParseError>,
) -> bool {
    match (r, m) {
        (Ok(cv), Ok(mm)) => cv@ == mm,
        (Err(e1), Err(e2)) => e1 == e2,
        _ => false,
    }
}

/// An executable growth outcome agrees with a modelled one.
pub open spec fn models_cv(
    r: Result<CorrelationVector, CvError>,
    m: Result<CvModel, CvError>,
) -> bool {
    match (r, m) {
        (Ok(cv), Ok(mm)) => cv@ == mm,
        (Err(e1), Err(e2)) => e1 == e2,
        _ => false,
    }
}

/// The outcome of a spin call under particular collaborator reads.
pub open spec fn spin_outcome(
    r: Result<CorrelationVector, CvError>,
    s: Seq<char>,
    params: SpinParameters,
    do_validate: bool,
    ticks: u64,
    entropy: Seq<u8>,
) -> bool {
    entropy.len() == params.spec_entropy_bytes() && models_cv(
        r,
        spec_spin(s, params, do_validate, ticks, entropy),
    )
}

impl CorrelationVector {
    /// Builds a vector directly from its parts.
    pub fn new(
        base_vector: String,
        extension: u32,
        version: CorrelationVectorVersion,
        immutable: bool,
    ) -> (r: CorrelationVector)
        ensures
            r@ == (CvModel {
                base: base_vector@,
                extension: extension as nat,
                immutable,
                version,
            }),
    {
        CorrelationVector { base_vector, extension, immutable, version }
    }

    /// The opaque base identifier portion.
    pub fn base_vector(&self) -> (r: &String)
        ensures
            r@ == self@.base,
    {
        &self.base_vector
    }

    /// The current counter value.
    pub fn extension(&self) -> (r: u32)
        ensures
            r as nat == self@.extension,
    {
        self.extension
    }

    /// Whether the vector is frozen.
    pub fn is_immutable(&self) -> (r: bool)
        ensures
            r == self@.immutable,
    {
        self.immutable
    }

    /// The format version fixed at construction.
    pub fn version(&self) -> (r: CorrelationVectorVersion)
        ensures
            r == self@.version,
    {
        self.version
    }

    /// Renders the wire string: `{base}.{extension}`, with the trailing `!`
    /// exactly when the vector is frozen.
    pub fn value(&self) -> (r: String)
        ensures
            r@ == spec_value(self@),
    {
        let mut out = self.base_vector.clone();
        out.append(".");
        let ext = u64_to_string(self.extension as u64);
        out.append(ext.as_str());
        if self.immutable {
            out.append("!");
        }
        proof {
            reveal_strlit(".");
            reveal_strlit("!");
            assert(out@ =~= spec_value(self@));
        }
        out
    }

    /// Splits a wire string at its last `.` into a base and an extension
    /// segment. A malformed numeric segment falls back to extension 0; a
    /// string with no `.` at all is the one fatal parse error.
    pub fn parse(wire: &str, immutable: bool) -> (r: Result<CorrelationVector, ParseError>)
        ensures
            models_parse(r, spec_parse(wire@, immutable)),
    {
        let n = wire.unicode_len();
        match find_last_dot(wire) {
            None => Err(ParseError::MissingDelimiter),
            Some(d) => {
                proof {
                    crate::text::lemma_last_dot_spec(wire@);
                }
                let base = wire.substring_char(0, d).to_owned();
                let mut strip = false;
                if immutable && n > d + 1 {
                    let c = wire.get_char(n - 1);
                    strip = c == '!';
                }
                let seg_end = if strip {
                    n - 1
                } else {
                    n
                };
                let segment = wire.substring_char(d + 1, seg_end);
                let ext = parse_extension_segment(segment);
                let version = infer_version(wire);
                proof {
                    let s = wire@;
                    let rest = s.subrange(d + 1, s.len() as int);
                    if strip {
                        assert(segment@ =~= rest.drop_last());
                    } else {
                        assert(!(immutable && ends_bang(rest))) by {
                            if immutable && ends_bang(rest) {
                                assert(rest.last() == s[s.len() - 1]);
                            }
                        }
                        assert(segment@ =~= rest);
                    }
                }
                let cv = CorrelationVector { base_vector: base, extension: ext, immutable, version };
                proof {
                    assert(cv@ =~= spec_parse(wire@, immutable)->Ok_0);
                }
                Ok(cv)
            },
        }
    }

    /// Parses the wire string as a frozen vector, lifting the error.
    fn parse_frozen(wire: &str) -> (r: Result<CorrelationVector, CvError>)
        ensures
            models_cv(r, lift_parse(spec_parse(wire@, true))),
    {
        match Self::parse(wire, true) {
            Ok(cv) => Ok(cv),
            Err(e) => Err(CvError::Parse(e)),
        }
    }

    /// Extends a wire-received vector with a fresh zero counter segment. A
    /// frozen input is a no-op that still surfaces the in-memory shape; a
    /// vector that can no longer grow within the version's length budget is
    /// frozen instead of grown.
    pub fn extend(wire: &str, do_validate: bool) -> (r: Result<CorrelationVector, CvError>)
        ensures
            models_cv(r, spec_extend(wire@, do_validate)),
    {
        if ends_with_bang(wire) {
            return Self::parse_frozen(wire);
        }
        let version = infer_version(wire);
        if do_validate {
            match validate(wire, version) {
                Err(e) => {
                    return Err(CvError::Validation(e));
                },
                Ok(_) => {},
            }
        }
        if is_oversized(wire, 0, version) {
            return Self::parse_frozen(wire);
        }
        Ok(
            CorrelationVector {
                base_vector: wire.to_owned(),
                extension: 0,
                immutable: false,
                version,
            },
        )
    }

    /// Increments the counter in place. Legal only on a non-frozen vector:
    /// on a frozen one the call is a usage error and changes nothing.
    pub fn increment(&mut self) -> (r: Result<(), UsageError>)
        requires
            old(self)@.immutable || old(self)@.extension < u32::MAX,
        ensures
            old(self)@.immutable ==> r == Result::<(), UsageError>::Err(UsageError::VectorFrozen)
                && final(self)@ == old(self)@,
            !old(self)@.immutable ==> r is Ok && final(self)@ == crate::codec::spec_after_increments(
                old(self)@,
                1,
            ),
    {
        if self.immutable {
            Err(UsageError::VectorFrozen)
        } else {
            self.extension = self.extension + 1;
            Ok(())
        }
    }

    /// Injects a time- and entropy-derived segment, taking the collaborator
    /// reads as explicit arguments; deterministic and fully specified. The
    /// frozen and oversize rules are those of `extend`.
    pub fn spin_from_sources(
        wire: &str,
        parameters: &SpinParameters,
        do_validate: bool,
        ticks: u64,
        entropy: &Vec<u8>,
    ) -> (r: Result<CorrelationVector, CvError>)
        requires
            parameters.wf(),
            entropy@.len() == parameters.spec_entropy_bytes(),
        ensures
            models_cv(r, spec_spin(wire@, *parameters, do_validate, ticks, entropy@)),
    {
        if ends_with_bang(wire) {
            return Self::parse_frozen(wire);
        }
        let version = infer_version(wire);
        if do_validate {
            match validate(wire, version) {
                Err(e) => {
                    return Err(CvError::Validation(e));
                },
                Ok(_) => {},
            }
        }
        let packed = spin_value(ticks, entropy, parameters);
        let total = parameters.total_bits();
        let mut candidate = wire.to_owned();
        candidate.append(".");
        if total > 32 {
            let high = packed >> 32u64;
            let low = packed & 0xFFFF_FFFFu64;
            let high_str = u64_to_string(high);
            candidate.append(high_str.as_str());
            candidate.append(".");
            let low_str = u64_to_string(low);
            candidate.append(low_str.as_str());
        } else {
            let one_str = u64_to_string(packed);
            candidate.append(one_str.as_str());
        }
        proof {
            reveal_strlit(".");
            assert(candidate@ =~= wire@ + seq!['.'] + crate::spin::spec_render(
                packed,
                parameters.spec_total_bits(),
            ));
        }
        if is_oversized(candidate.as_str(), 0, version) {
            return Self::parse_frozen(wire);
        }
        Ok(
            CorrelationVector {
                base_vector: candidate,
                extension: 0,
                immutable: false,
                version,
            },
        )
    }

    /// Injects a time- and entropy-derived segment, reading the clock and
    /// the entropy generator. Whatever those reads return, the result agrees
    /// with the modelled spin under some reads of the right shape; a frozen
    /// input is a no-op regardless of them.
    pub fn spin_with_parameters(
        wire: &str,
        parameters: &SpinParameters,
        do_validate: bool,
    ) -> (r: Result<CorrelationVector, CvError>)
        requires
            parameters.wf(),
        ensures
            exists|ticks: u64, entropy: Seq<u8>|
                spin_outcome(r, wire@, *parameters, do_validate, ticks, entropy),
            ends_bang(wire@) ==> models_cv(r, lift_parse(spec_parse(wire@, true))),
    {
        let count = parameters.entropy_bytes();
        let entropy = draw_entropy(count as usize);
        let ticks = now_ticks();
        let r = Self::spin_from_sources(wire, parameters, do_validate, ticks, &entropy);
        proof {
            assert(spin_outcome(r, wire@, *parameters, do_validate, ticks, entropy@));
        }
        r
    }

    /// The parameter-less spin convenience: the coarse interval, the short
    /// periodicity, and two entropy bytes.
    pub fn spin(wire: &str, do_validate: bool) -> (r: Result<CorrelationVector, CvError>)
        ensures
            exists|ticks: u64, entropy: Seq<u8>|
                spin_outcome(r, wire@, spec_default_spin_parameters(), do_validate, ticks, entropy),
            ends_bang(wire@) ==> models_cv(r, lift_parse(spec_parse(wire@, true))),
    {
        let parameters = SpinParameters::new(
            SpinCounterInterval::Coarse,
            SpinCounterPeriodicity::Short,
            SpinEntropy::Two,
        );
        proof {
            lemma_default_spin_parameters();
            lemma_params_eq(parameters, spec_default_spin_parameters());
        }
        Self::spin_with_parameters(wire, &parameters, do_validate)
    }
}

impl Default for CorrelationVector {
    /// The default, unset state: an empty base, extension 0, not frozen, V1.
    fn default() -> (r: CorrelationVector)
        ensures
            r@ == (CvModel {
                base: Seq::<char>::empty(),
                extension: 0,
                immutable: false,
                version: CorrelationVectorVersion::V1,
            }),
    {
        let r = CorrelationVector {
            base_vector: String::new(),
            extension: 0,
            immutable: false,
            version: CorrelationVectorVersion::V1,
        };
        proof {
            assert(r@ =~= (CvModel {
                base: Seq::<char>::empty(),
                extension: 0,
                immutable: false,
                version: CorrelationVectorVersion::V1,
            }));
        }
        r
    }
}

} // verus!
