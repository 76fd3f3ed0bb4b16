//! The general laws of the library, each proved against the spec-level
//! model: the no-op behaviour of growth on frozen vectors, the shape of the
//! value `extend` and `increment` produce, the version-inference and
//! validation case analyses, the monotonicity of the oversize check, and the
//! parse/value round trip.

use vstd::prelude::*;

use crate::codec::{lift_parse, spec_after_increments, spec_extend, spec_parse, spec_value, CvModel};
use crate::digits::{
    dec_str, extension_of, is_digit, lemma_dec_str_digits, lemma_dec_str_round_trip,
    valid_u32_digits,
};
use crate::enums::CorrelationVectorVersion;
use crate::errors::ValidationError;
use crate::spin::spec_spin;
use crate::spin_parameters::SpinParameters;
use crate::text::{
    ends_bang, first_dot, last_dot, lemma_last_dot_append_no_dot, lemma_last_dot_push_dot,
};
use crate::validation::{spec_infer_version, spec_oversized, spec_validate};

verus! {

/// The rendered decimal digits contain neither a `.` nor a `!`.
proof fn lemma_dec_str_plain(n: nat)
    ensures
        dec_str(n).len() >= 1,
        forall|j: int| 0 <= j < dec_str(n).len() ==> #[trigger] dec_str(n)[j] != '.',
        forall|j: int| 0 <= j < dec_str(n).len() ==> #[trigger] dec_str(n)[j] != '!',
{
    lemma_dec_str_digits(n);
    assert forall|j: int| 0 <= j < dec_str(n).len() implies #[trigger] dec_str(n)[j] != '.'
        && dec_str(n)[j] != '!' by {
        assert(is_digit(dec_str(n)[j]));
    }
}

/// The wire string of a model splits at the last `.` into the base and the
/// tail the model appended there.
proof fn lemma_value_split(m: CvModel)
    ensures
        last_dot(spec_value(m)) == Option::Some(m.base.len() as int),
        spec_value(m).len() > m.base.len(),
        spec_value(m).subrange(0, m.base.len() as int) == m.base,
        spec_value(m).subrange(m.base.len() as int + 1, spec_value(m).len() as int) == dec_str(
            m.extension,
        ) + (if m.immutable {
            seq!['!']
        } else {
            Seq::<char>::empty()
        }),
{
    let s = spec_value(m);
    let ds = dec_str(m.extension);
    let tail = ds + (if m.immutable {
        seq!['!']
    } else {
        Seq::<char>::empty()
    });
    lemma_dec_str_plain(m.extension);
    assert forall|j: int| 0 <= j < tail.len() implies tail[j] != '.' by {
        if j < ds.len() {
            assert(tail[j] == ds[j]);
        } else {
            assert(tail[j] == '!');
        }
    }
    assert(s =~= m.base.push('.') + tail);
    lemma_last_dot_push_dot(m.base);
    lemma_last_dot_append_no_dot(m.base.push('.'), tail);
    assert(s.subrange(0, m.base.len() as int) =~= m.base);
    assert(s.subrange(m.base.len() as int + 1, s.len() as int) =~= tail);
}

/// The final dot-separated field of a non-frozen vector's value is exactly
/// the decimal rendering of its extension. Together with the contract of
/// `increment`, this gives the successive values `1, 2, ..., n` after `n`
/// increments of a fresh vector.
pub proof fn lemma_value_final_segment(m: CvModel)
    requires
        !m.immutable,
    ensures
        last_dot(spec_value(m)) == Option::Some(m.base.len() as int),
        spec_value(m).subrange(m.base.len() as int + 1, spec_value(m).len() as int) == dec_str(
            m.extension,
        ),
{
    lemma_value_split(m);
    assert(dec_str(m.extension) + Seq::<char>::empty() =~= dec_str(m.extension));
}

/// Applying `increment` `k` times to a non-frozen vector with counter `e`
/// gives the counter `e + k`, and each successive value renders it as the
/// final dot-separated field: starting from a fresh vector with counter 0,
/// the successive values carry the segments `1, 2, ..., n`.
pub proof fn lemma_increment_sequence(m: CvModel, n: nat)
    requires
        !m.immutable,
    ensures
        forall|k: nat|
            k <= n ==> {
                let mk = #[trigger] spec_after_increments(m, k);
                spec_value(mk).subrange(mk.base.len() as int + 1, spec_value(mk).len() as int)
                    == dec_str(m.extension + k)
            },
{
    assert forall|k: nat| k <= n implies {
        let mk = #[trigger] spec_after_increments(m, k);
        spec_value(mk).subrange(mk.base.len() as int + 1, spec_value(mk).len() as int) == dec_str(
            m.extension + k,
        )
    } by {
        lemma_value_final_segment(spec_after_increments(m, k));
    }
}

/// Parsing the value of a model recovers the model, field for field. The one
/// hypothesis beyond the counter fitting its machine type: the value's shape
/// must present the version the model carries, as it does for every string
/// whose base was taken from a version-correct wire string.
pub proof fn lemma_value_parse_round_trip(m: CvModel)
    requires
        m.extension <= u32::MAX,
        spec_infer_version(spec_value(m)) == m.version,
    ensures
        spec_parse(spec_value(m), m.immutable) is Ok,
        spec_parse(spec_value(m), m.immutable)->Ok_0 == m,
{
    let s = spec_value(m);
    let ds = dec_str(m.extension);
    let d = m.base.len() as int;
    lemma_value_split(m);
    lemma_dec_str_plain(m.extension);
    lemma_dec_str_digits(m.extension);
    lemma_dec_str_round_trip(m.extension);
    let rest = s.subrange(d + 1, s.len() as int);
    if m.immutable {
        assert(rest =~= ds + seq!['!']);
        assert(ends_bang(rest));
        assert(rest.drop_last() =~= ds);
    } else {
        assert(rest =~= ds);
    }
    assert(valid_u32_digits(ds));
    assert(extension_of(ds) == m.extension);
    assert(spec_parse(s, m.immutable)->Ok_0 =~= m);
}

/// A frozen wire string with a canonical decimal extension segment parses to
/// a model whose value is the string itself: growth operations that fall
/// back to the frozen parse leave the value unchanged.
pub proof fn lemma_frozen_wire_round_trip(base: Seq<char>, extension: u32)
    ensures
        ({
            let s = base + seq!['.'] + dec_str(extension as nat) + seq!['!'];
            &&& spec_parse(s, true) is Ok
            &&& spec_value(spec_parse(s, true)->Ok_0) == s
            &&& ends_bang(s)
        }),
{
    let s = base + seq!['.'] + dec_str(extension as nat) + seq!['!'];
    let m = CvModel {
        base,
        extension: extension as nat,
        immutable: true,
        version: spec_infer_version(s),
    };
    assert(spec_value(m) =~= s);
    assert(ends_bang(s)) by {
        assert(s.last() == '!');
    }
    lemma_value_parse_round_trip(m);
}

/// Extending a frozen wire string is a no-op: the result is exactly the
/// frozen parse of the input, whether or not validation was requested.
pub proof fn lemma_extend_frozen_noop(s: Seq<char>, do_validate: bool)
    requires
        ends_bang(s),
    ensures
        spec_extend(s, do_validate) == lift_parse(spec_parse(s, true)),
{
}

/// Spinning a frozen wire string is a no-op: the result is exactly the
/// frozen parse of the input, whatever the clock and the entropy generator
/// returned and whether or not validation was requested.
pub proof fn lemma_spin_frozen_noop(
    s: Seq<char>,
    params: SpinParameters,
    do_validate: bool,
    ticks: u64,
    entropy: Seq<u8>,
)
    requires
        ends_bang(s),
    ensures
        spec_spin(s, params, do_validate, ticks, entropy) == lift_parse(spec_parse(s, true)),
{
}

/// On a frozen wire string with a canonical decimal extension segment, both
/// growth operations return a vector whose value is the input unchanged.
pub proof fn lemma_growth_frozen_value_unchanged(
    base: Seq<char>,
    extension: u32,
    params: SpinParameters,
    do_validate: bool,
    ticks: u64,
    entropy: Seq<u8>,
)
    ensures
        ({
            let s = base + seq!['.'] + dec_str(extension as nat) + seq!['!'];
            &&& spec_extend(s, do_validate) is Ok
            &&& spec_value(spec_extend(s, do_validate)->Ok_0) == s
            &&& spec_spin(s, params, do_validate, ticks, entropy) is Ok
            &&& spec_value(spec_spin(s, params, do_validate, ticks, entropy)->Ok_0) == s
        }),
{
    let s = base + seq!['.'] + dec_str(extension as nat) + seq!['!'];
    lemma_frozen_wire_round_trip(base, extension);
    lemma_extend_frozen_noop(s, do_validate);
    lemma_spin_frozen_noop(s, params, do_validate, ticks, entropy);
}

/// On a valid, unfrozen wire string with room for two more characters,
/// `extend` succeeds and the new vector's value is the input with `.0`
/// appended.
pub proof fn lemma_extend_appends_zero(s: Seq<char>, do_validate: bool)
    requires
        !ends_bang(s),
        spec_validate(s, spec_infer_version(s)) is Ok,
        s.len() + 2 <= spec_infer_version(s).spec_max_length(),
    ensures
        spec_extend(s, do_validate) is Ok,
        spec_value(spec_extend(s, do_validate)->Ok_0) == s + seq!['.', '0'],
{
    let version = spec_infer_version(s);
    assert(dec_str(0) =~= seq!['0']);
    assert(!spec_oversized(s, 0, version));
    let m = spec_extend(s, do_validate)->Ok_0;
    assert(spec_value(m) =~= s + seq!['.', '0']);
}

/// Version inference, case by case: V2 exactly when the first `.` sits at
/// offset 22, and V1 in every other case, offset 16 and a dotless string
/// included.
pub proof fn lemma_infer_version_cases(s: Seq<char>)
    ensures
        spec_infer_version(s) == CorrelationVectorVersion::V2 <==> first_dot(s) == Option::Some(
            22int,
        ),
        first_dot(s) == Option::Some(16int) ==> spec_infer_version(s)
            == CorrelationVectorVersion::V1,
        first_dot(s) is None ==> spec_infer_version(s) == CorrelationVectorVersion::V1,
{
}

/// Validation, case by case: each error comes exactly on the inputs that
/// break its check and pass the checks before it, and validation succeeds
/// exactly on the strings of legal length whose first `.` sits at the
/// version's base length.
pub proof fn lemma_validate_cases(s: Seq<char>, version: CorrelationVectorVersion)
    ensures
        spec_validate(s, version) == Err::<(), ValidationError>(ValidationError::EmptyString)
            <==> s.len() == 0,
        spec_validate(s, version) == Err::<(), ValidationError>(ValidationError::TooLong) <==> (
        s.len() > 0 && s.len() > version.spec_max_length()),
        spec_validate(s, version) == Err::<(), ValidationError>(ValidationError::TooFewParts)
            <==> (0 < s.len() <= version.spec_max_length() && first_dot(s) is None),
        spec_validate(s, version) == Err::<(), ValidationError>(ValidationError::BaseLengthMismatch)
            <==> (0 < s.len() <= version.spec_max_length() && first_dot(s) is Some && first_dot(
            s,
        )->Some_0 != version.spec_base_length()),
        spec_validate(s, version) is Ok <==> (0 < s.len() <= version.spec_max_length()
            && first_dot(s) == Option::Some(version.spec_base_length())),
{
}

/// The oversize check is monotonic in the base length: once a base is too
/// long for a prospective extension, every longer base is too.
pub proof fn lemma_oversized_monotone(
    shorter: Seq<char>,
    longer: Seq<char>,
    extension: nat,
    version: CorrelationVectorVersion,
)
    requires
        spec_oversized(shorter, extension, version),
        shorter.len() <= longer.len(),
    ensures
        spec_oversized(longer, extension, version),
{
}

} // verus!
