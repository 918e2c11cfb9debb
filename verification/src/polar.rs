//! Polar coordinates in the plane, and velocities in polar and Cartesian
//! form. Polar coordinates are not a vector on purpose: vector addition does
//! not add polar coordinates, so they share no methods with `MathVec`.
use vstd::prelude::*;

use crate::traits::scalar::Scalar;
use crate::traits::sqrt::Sqrt;
use crate::traits::trig::Trig;
use crate::vector::MathVec;

verus! {

/// A point of the plane by distance from the origin and angle. The amplitude
/// is always in radians.
#[derive(Clone, Copy, PartialEq, Debug)]
pub struct PolarCoordinates<T> {
    /// The distance from the origin.
    pub magnitude: T,
    /// The angle from the positive first axis, in radians.
    pub amplitude: T,
}

/// The Cartesian point of a polar magnitude and amplitude:
/// `(m cos a, m sin a)`.
pub open spec fn polar_to_cartesian_spec<T: Trig>(magnitude: T, amplitude: T) -> Seq<T> {
    seq![
        magnitude.mul_spec(amplitude.cos_spec()),
        magnitude.mul_spec(amplitude.sin_spec()),
    ]
}

/// The polar magnitude of a Cartesian point: the square root of the sum of
/// the squared components.
pub open spec fn cartesian_magnitude_spec<T: Trig + Sqrt>(v: Seq<T>) -> T {
    v[0].mul_spec(v[0]).add_spec(v[1].mul_spec(v[1])).sqrt_spec()
}

/// The polar amplitude of a Cartesian point: the four-quadrant arc tangent of
/// the second component against the first, which keeps its sign in every
/// quadrant and is defined on the whole axis where the first component is
/// zero.
pub open spec fn cartesian_amplitude_spec<T: Trig>(v: Seq<T>) -> T {
    v[1].atan2_spec(v[0])
}

impl<T: Trig + Sqrt> PolarCoordinates<T> {
    /// The same point in Cartesian coordinates.
    pub fn to_cartesian(&self) -> (r: MathVec<T, 2>)
        ensures
            r@ == polar_to_cartesian_spec(self.magnitude, self.amplitude),
    {
        let r = MathVec::new(
            [self.magnitude.mul(self.amplitude.cos()), self.magnitude.mul(self.amplitude.sin())],
        );
        assert(r@ =~= polar_to_cartesian_spec(self.magnitude, self.amplitude));
        r
    }

    /// The polar form of a Cartesian point, by magnitude and four-quadrant
    /// arc tangent.
    pub fn from_cartesian(value: &MathVec<T, 2>) -> (r: Self)
        ensures
            r.magnitude == cartesian_magnitude_spec(value@),
            r.amplitude == cartesian_amplitude_spec(value@),
    {
        let d = value.data();
        Self {
            magnitude: d[0].mul(d[0]).add(d[1].mul(d[1])).sqrt(),
            amplitude: d[1].atan2(d[0]),
        }
    }
}

/// A velocity in polar form: a radial and an angular component.
#[derive(Clone, Copy, PartialEq, Debug)]
pub struct PolarVelocity2D<T> {
    /// The radial component.
    pub u_r: T,
    /// The angular component.
    pub u_theta: T,
}

/// A velocity in Cartesian form: one component along each axis.
#[derive(Clone, Copy, PartialEq, Debug)]
pub struct CartesianVelocity2D<T> {
    components: MathVec<T, 2>,
}

impl<T> View for CartesianVelocity2D<T> {
    type V = Seq<T>;

    closed spec fn view(&self) -> Seq<T> {
        self.components@
    }
}

/// The Cartesian components of the polar velocity `value` at the point
/// `point`.
pub open spec fn velocity_from_polar_spec<T: Trig>(
    value: PolarVelocity2D<T>,
    point: PolarCoordinates<T>,
) -> Seq<T> {
    let cosine = point.amplitude.cos_spec();
    let sine = point.amplitude.sin_spec();
    seq![
        value.u_r.mul_spec(cosine).sub_spec(point.magnitude.mul_spec(value.u_theta).mul_spec(sine)),
        value.u_theta.mul_spec(cosine).sub_spec(point.magnitude.mul_spec(value.u_r).mul_spec(sine)),
    ]
}

impl<T: Scalar> CartesianVelocity2D<T> {
    /// Wraps the two axis components as a velocity.
    pub fn new(components: [T; 2]) -> (r: Self)
        ensures
            r@ == components@,
    {
        Self { components: MathVec::new(components) }
    }

    /// The axis components, in order.
    pub fn components(&self) -> (r: &MathVec<T, 2>)
        ensures
            r@ == self@,
    {
        &self.components
    }
}

impl<T: Trig> CartesianVelocity2D<T> {
    /// The Cartesian form of the polar velocity `value` at the point `point`.
    pub fn from_polar(value: PolarVelocity2D<T>, point: PolarCoordinates<T>) -> (r: Self)
        ensures
            r@ == velocity_from_polar_spec(value, point),
    {
        let cosine = point.amplitude.cos();
        let sine = point.amplitude.sin();
        let r = CartesianVelocity2D::new(
            [
                value.u_r.mul(cosine).sub(point.magnitude.mul(value.u_theta).mul(sine)),
                value.u_theta.mul(cosine).sub(point.magnitude.mul(value.u_r).mul(sine)),
            ],
        );
        assert(r@ =~= velocity_from_polar_spec(value, point));
        r
    }
}

} // verus!
