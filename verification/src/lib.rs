//! A correlation vector: a compact, dot-delimited, string-encoded identifier
//! used to track and order causally related events across distributed service
//! boundaries. The library implements the vector's encode/decode protocol and
//! its two generative operations, `extend` and `spin`, together with the
//! length-bounding and immutability rules that keep the wire format bounded.

pub mod codec;
pub mod digits;
pub mod enums;
pub mod errors;
pub mod laws;
pub mod spin;
pub mod spin_parameters;
pub mod text;
pub mod validation;
pub mod vector_impl;

pub use spin_parameters::SpinParameters;
pub use vector_impl::CorrelationVector;

use vstd::prelude::*;

use crate::codec::CvModel;
use crate::enums::CorrelationVectorVersion;

verus! {

/// A fresh vector in the default, unset state: an empty base, extension 0,
/// not frozen, version V1.
pub fn create_vector() -> (r: CorrelationVector)
    ensures
        r@ == (CvModel {
            base: Seq::<char>::empty(),
            extension: 0,
            immutable: false,
            version: CorrelationVectorVersion::V1,
        }),
{
    CorrelationVector::default()
}

} // verus!
