//! The mathematical model of a correlation vector and the codec between the
//! model and its wire string: what `value` renders, what `parse` recovers,
//! and what `extend` builds.

use vstd::prelude::*;

use crate::digits::{dec_str, extension_of};
use crate::enums::CorrelationVectorVersion;
use crate::errors::{CvError, ParseError};
use crate::text::{ends_bang, last_dot};
use crate::validation::{spec_infer_version, spec_oversized, spec_validate};

verus! {

/// The model of a correlation vector: the opaque base identifier, the
/// trailing counter, the frozen flag, and the format version fixed at
/// construction time.
#[verifier::ext_equal]
pub ghost struct CvModel {
    pub base: Seq<char>,
    pub extension: nat,
    pub immutable: bool,
    pub version: CorrelationVectorVersion,
}

/// The wire string of a model: `{base}.{extension}`, with the trailing `!`
/// exactly when the vector is frozen.
pub open spec fn spec_value(m: CvModel) -> Seq<char> {
    m.base + seq!['.'] + dec_str(m.extension) + (if m.immutable {
        seq!['!']
    } else {
        Seq::<char>::empty()
    })
}

/// The model a wire string parses to. The split is at the last `.`:
/// everything before is the base, everything after (minus a trailing `!`
/// when parsing a frozen vector) is the extension segment. A string with no
/// `.` at all cannot be split and is the one fatal parse error.
pub open spec fn spec_parse(s: Seq<char>, immutable: bool) -> Result<CvModel, ParseError> {
    match last_dot(s) {
        Option::None => Err(ParseError::MissingDelimiter),
        Option::Some(d) => {
            let rest = s.subrange(d + 1, s.len() as int);
            let segment = if immutable && ends_bang(rest) {
                rest.drop_last()
            } else {
                rest
            };
            Ok(
                CvModel {
                    base: s.subrange(0, d),
                    extension: extension_of(segment),
                    immutable,
                    version: spec_infer_version(s),
                },
            )
        },
    }
}

/// The model after `n` further increments of the counter.
pub open spec fn spec_after_increments(m: CvModel, n: nat) -> CvModel {
    CvModel { extension: (m.extension + n) as nat, ..m }
}

/// A parse outcome seen as a growth outcome.
pub open spec fn lift_parse(r: Result<CvModel, ParseError>) -> Result<CvModel, CvError> {
    match r {
        Ok(m) => Ok(m),
        Err(e) => Err(CvError::Parse(e)),
    }
}

/// The model `extend` builds from a wire string: a frozen input parses back
/// unchanged; a validation failure surfaces when validation is requested;
/// growth that would overflow the length budget freezes the vector instead;
/// otherwise the input becomes the base of a new vector with extension 0.
pub open spec fn spec_extend(s: Seq<char>, do_validate: bool) -> Result<CvModel, CvError> {
    if ends_bang(s) {
        lift_parse(spec_parse(s, true))
    } else {
        let version = spec_infer_version(s);
        if do_validate && spec_validate(s, version) is Err {
            Err(CvError::Validation(spec_validate(s, version)->Err_0))
        } else if spec_oversized(s, 0, version) {
            lift_parse(spec_parse(s, true))
        } else {
            Ok(CvModel { base: s, extension: 0, immutable: false, version })
        }
    }
}

} // verus!
