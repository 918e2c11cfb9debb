//! Square-root capability. In this design it is a capability of
//! floating-point-like scalars only: no integer type in this crate implements
//! it, and a wrapper type brings it along when it plugs into the hierarchy.
use vstd::prelude::*;

use crate::traits::number::Zero;
use crate::traits::scalar::Scalar;

verus! {

/// Square root over a scalar, with its spec-level model.
pub trait Sqrt: Scalar {
    /// Model of the square root.
    spec fn sqrt_spec(self) -> Self;

    /// Takes the square root. Total: never panics.
    fn sqrt(self) -> (r: Self)
        ensures
            r == self.sqrt_spec(),
    ;

    /// Law: the square root of a value not below zero is not below zero.
    proof fn law_sqrt_nonneg(a: Self)
        requires
            Self::zero_spec().le_spec(a),
        ensures
            Self::zero_spec().le_spec(a.sqrt_spec()),
    ;
}

/// Takes the square root of `val`.
pub fn sqrt<T: Sqrt>(val: T) -> (r: T)
    ensures
        r == val.sqrt_spec(),
{
    val.sqrt()
}

} // verus!
