//! Trigonometric capability, operating in radians. Like `Sqrt` it is a
//! capability of floating-point-like scalars only: no integer type in this
//! crate implements it, and a wrapper type brings it along when it plugs into
//! the hierarchy. A type with `Trig` also promises, through `law_ops_total`,
//! that its arithmetic never wraps around the ends of its range, which is what
//! lets the great-circle engine invoke the ordering laws everywhere.
use vstd::prelude::*;

use crate::traits::scalar::Scalar;

verus! {

/// Sine, cosine, tangent, their inverses and hyperbolic variants, and the
/// half-turn constant, each exec operation pinned to a spec-level model.
/// All angles are in radians.
pub trait Trig: Scalar {
    /// Model of the sine.
    spec fn sin_spec(self) -> Self;

    /// Model of the arc sine.
    spec fn asin_spec(self) -> Self;

    /// Model of the hyperbolic arc sine.
    spec fn asinh_spec(self) -> Self;

    /// Model of the cosine.
    spec fn cos_spec(self) -> Self;

    /// Model of the arc cosine.
    spec fn acos_spec(self) -> Self;

    /// Model of the hyperbolic arc cosine.
    spec fn acosh_spec(self) -> Self;

    /// Model of the tangent.
    spec fn tan_spec(self) -> Self;

    /// Model of the single-argument arc tangent.
    spec fn atan_spec(self) -> Self;

    /// Model of the four-quadrant arc tangent of `self / other`.
    spec fn atan2_spec(self, other: Self) -> Self;

    /// Model of the hyperbolic arc tangent.
    spec fn atanh_spec(self) -> Self;

    /// Model of the half-turn constant: the radian measure of 180 degrees.
    spec fn pi_spec() -> Self;

    /// Sine of an angle in radians.
    fn sin(self) -> (r: Self)
        ensures
            r == self.sin_spec(),
    ;

    /// Arc sine, in radians.
    fn asin(self) -> (r: Self)
        ensures
            r == self.asin_spec(),
    ;

    /// Hyperbolic arc sine.
    fn asinh(self) -> (r: Self)
        ensures
            r == self.asinh_spec(),
    ;

    /// Cosine of an angle in radians.
    fn cos(self) -> (r: Self)
        ensures
            r == self.cos_spec(),
    ;

    /// Arc cosine, in radians.
    fn acos(self) -> (r: Self)
        ensures
            r == self.acos_spec(),
    ;

    /// Hyperbolic arc cosine.
    fn acosh(self) -> (r: Self)
        ensures
            r == self.acosh_spec(),
    ;

    /// Tangent of an angle in radians.
    fn tan(self) -> (r: Self)
        ensures
            r == self.tan_spec(),
    ;

    /// Single-argument arc tangent, in radians.
    fn atan(self) -> (r: Self)
        ensures
            r == self.atan_spec(),
    ;

    /// Four-quadrant arc tangent of `self / other`, in radians.
    fn atan2(self, other: Self) -> (r: Self)
        ensures
            r == self.atan2_spec(other),
    ;

    /// Hyperbolic arc tangent.
    fn atanh(self) -> (r: Self)
        ensures
            r == self.atanh_spec(),
    ;

    /// The radian measure of 180 degrees.
    fn pi() -> (r: Self)
        ensures
            r == Self::pi_spec(),
    ;

    /// Law: the arithmetic of a trigonometric scalar never wraps around the
    /// ends of its range; it may round or saturate, but stays on the side of
    /// the real line where the exact result lies.
    proof fn law_ops_total(a: Self, b: Self)
        ensures
            a.add_in_range(b),
            a.mul_in_range(b),
    ;
}

} // verus!
