//! The spin engine: packing a coarsened timestamp and injected entropy bytes
//! into a single unsigned value, masking it to the configured width, and
//! rendering it as the new path segment. The nondeterministic reads (entropy
//! and wall clock) come from two external collaborators; everything computed
//! from their values is verified.

use vstd::prelude::*;

use crate::codec::{lift_parse, spec_parse, CvModel};
use crate::digits::dec_str;
use crate::errors::CvError;
use crate::spin_parameters::SpinParameters;
use crate::text::ends_bang;
use crate::validation::{spec_infer_version, spec_oversized, spec_validate};

verus! {

/// The packed value after folding in the first `i` entropy bytes: each byte
/// shifts the accumulator left by eight bits and is OR-ed in, most
/// significant byte first.
pub open spec fn pack_upto(start: u64, entropy: Seq<u8>, i: int) -> u64
    decreases i,
{
    if i <= 0 {
        start
    } else {
        (pack_upto(start, entropy, i - 1) << 8) | (entropy[i - 1] as u64)
    }
}

/// The packed value masked to its low `bits` bits. At a width of 64 the mask
/// degenerates and no masking is applied.
pub open spec fn spec_mask(v: u64, bits: int) -> u64 {
    if bits >= 64 {
        v
    } else {
        v & (((1u64 << (bits as u64)) - 1) as u64)
    }
}

/// The spin value: the tick count right-shifted by the interval's bit-drop
/// count, the entropy bytes packed in, and the result masked to the
/// configured total width.
pub open spec fn spec_spin_value(ticks: u64, entropy: Seq<u8>, params: SpinParameters) -> u64 {
    let shifted = ticks >> (params.spec_interval().spec_bits_to_drop() as u64);
    let packed = pack_upto(shifted, entropy, entropy.len() as int);
    spec_mask(packed, params.spec_total_bits())
}

/// The decimal rendering of the spin value: one number up to 32 bits of
/// width, and the high and low 32-bit halves as two dot-joined numbers
/// beyond that.
pub open spec fn spec_render(v: u64, total_bits: int) -> Seq<char> {
    if total_bits > 32 {
        dec_str((v >> 32) as nat) + seq!['.'] + dec_str((v & 0xFFFF_FFFFu64) as nat)
    } else {
        dec_str(v as nat)
    }
}

/// The model `spin` builds from a wire string and the two collaborator
/// reads: a frozen input parses back unchanged; a validation failure
/// surfaces when validation is requested; a candidate that would overflow
/// the length budget freezes the original instead; otherwise the input plus
/// the rendered spin value becomes the base of a new vector with extension
/// 0.
pub open spec fn spec_spin(
    s: Seq<char>,
    params: SpinParameters,
    do_validate: bool,
    ticks: u64,
    entropy: Seq<u8>,
) -> Result<CvModel, CvError> {
    if ends_bang(s) {
        lift_parse(spec_parse(s, true))
    } else {
        let version = spec_infer_version(s);
        if do_validate && spec_validate(s, version) is Err {
            Err(CvError::Validation(spec_validate(s, version)->Err_0))
        } else {
            let rendered = spec_render(
                spec_spin_value(ticks, entropy, params),
                params.spec_total_bits(),
            );
            let candidate = s + seq!['.'] + rendered;
            if spec_oversized(candidate, 0, version) {
                lift_parse(spec_parse(s, true))
            } else {
                Ok(CvModel { base: candidate, extension: 0, immutable: false, version })
            }
        }
    }
}

/// Relies on `rand::random`: one byte from the thread-local generator.
/// Nothing is assumed of the value.
#[verifier::external_body]
fn random_byte() -> u8 {
    rand::random::<u8>()
}

/// Relies on `chrono::Utc::now` and `DateTime::timestamp_millis`: the
/// current wall-clock tick count in milliseconds since the Unix epoch.
/// Nothing is assumed of the value. `Utc::now` aborts on a system clock
/// reading before the epoch.
#[verifier::external_body]
pub(crate) fn now_ticks() -> u64 {
    chrono::Utc::now().timestamp_millis() as u64
}

/// Draws `count` entropy bytes from the entropy collaborator.
pub(crate) fn draw_entropy(count: usize) -> (r: Vec<u8>)
    ensures
        r@.len() == count,
{
    let mut bytes: Vec<u8> = Vec::new();
    let mut i: usize = 0;
    while i < count
        invariant
            0 <= i <= count,
            bytes@.len() == i,
        decreases count - i,
    {
        bytes.push(random_byte());
        i += 1;
    }
    bytes
}

/// Computes the spin value from the collaborator reads and the parameters.
pub(crate) fn spin_value(ticks: u64, entropy: &Vec<u8>, params: &SpinParameters) -> (r: u64)
    requires
        params.wf(),
        entropy@.len() == params.spec_entropy_bytes(),
    ensures
        r == spec_spin_value(ticks, entropy@, *params),
{
    let drop_bits = params.ticks_bits_to_drop();
    proof {
        assert(drop_bits == 16 || drop_bits == 24);
    }
    let shifted = ticks >> (drop_bits as u64);
    let mut acc = shifted;
    let mut i: usize = 0;
    while i < entropy.len()
        invariant
            0 <= i <= entropy@.len(),
            acc == pack_upto(shifted, entropy@, i as int),
        decreases entropy@.len() - i,
    {
        acc = (acc << 8u64) | (entropy[i] as u64);
        i += 1;
    }
    let total = params.total_bits();
    if total >= 64 {
        acc
    } else {
        proof {
            let t: u64 = total as u64;
            assert(1u64 << t >= 1) by (bit_vector)
                requires
                    t < 64,
            ;
        }
        let mask = (1u64 << (total as u64)) - 1;
        acc & mask
    }
}

} // verus!
