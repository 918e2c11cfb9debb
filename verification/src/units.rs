//! Physical quantities with an explicit unit: angles and lengths. Formulas
//! inside the crate work on one internal unit each — radians for angles,
//! kilometers for lengths — and these types convert at the boundary.
use vstd::prelude::*;

use crate::traits::scalar::Scalar;
use crate::traits::trig::Trig;

verus! {

/// What converting a degree value to radians yields: `d * pi / 180`.
pub open spec fn deg_to_rad_spec<T: Trig>(d: T) -> T {
    d.mul_spec(T::pi_spec()).div_spec(T::from_u16_spec(180))
}

/// What converting a radian value to degrees yields: `r * 180 / pi`.
pub open spec fn rad_to_deg_spec<T: Trig>(r: T) -> T {
    r.mul_spec(T::from_u16_spec(180)).div_spec(T::pi_spec())
}

/// Converts a degree value to radians.
pub fn deg2rad<T: Trig>(val: T) -> (r: T)
    ensures
        r == deg_to_rad_spec(val),
{
    val.mul(T::pi()).div(T::from_u16(180))
}

/// Converts a radian value to degrees.
pub fn rad2deg<T: Trig>(val: T) -> (r: T)
    ensures
        r == rad_to_deg_spec(val),
{
    val.mul(T::from_u16(180)).div(T::pi())
}

/// An angle, stored in radians. Its view is the radian value.
#[derive(Clone, Copy, PartialEq, Debug)]
pub struct Angle<T> {
    radians: T,
}

/// The angle value holding the given radians, as contracts see it.
pub closed spec fn angle_from_radians_spec<T>(radians: T) -> Angle<T> {
    Angle { radians }
}

/// An angle built from a radian value reports exactly that value.
pub broadcast proof fn lemma_angle_from_radians<T>(radians: T)
    ensures
        (#[trigger] angle_from_radians_spec(radians))@ == radians,
{
}

/// An angle is determined by its radian value.
pub broadcast proof fn lemma_angle_determined<T>(a: Angle<T>)
    ensures
        angle_from_radians_spec(#[trigger] a@) == a,
{
}

impl<T> View for Angle<T> {
    type V = T;

    closed spec fn view(&self) -> T {
        self.radians
    }
}

impl<T: Scalar> Angle<T> {
    /// Wraps a value already in radians.
    pub fn from_radians(radians: T) -> (r: Self)
        ensures
            r@ == radians,
            r == angle_from_radians_spec(radians),
    {
        Self { radians }
    }

    /// The angle in radians.
    pub fn radians(&self) -> (r: T)
        ensures
            r == self@,
    {
        self.radians
    }
}

impl<T: Trig> Angle<T> {
    /// Converts a degree value into an angle.
    pub fn from_degrees(degrees: T) -> (r: Self)
        ensures
            r@ == deg_to_rad_spec(degrees),
    {
        Self { radians: degrees.mul(T::pi()).div(T::from_u16(180)) }
    }

    /// The angle in degrees.
    pub fn degrees(&self) -> (r: T)
        ensures
            r == rad_to_deg_spec(self@),
    {
        self.radians.mul(T::from_u16(180)).div(T::pi())
    }
}

/// A length, stored in kilometers. Its view is the kilometer value.
#[derive(Clone, Copy, PartialEq, Debug)]
pub struct Distance<T> {
    kilometers: T,
}

impl<T> View for Distance<T> {
    type V = T;

    closed spec fn view(&self) -> T {
        self.kilometers
    }
}

impl<T: Scalar> Distance<T> {
    /// Wraps a value already in kilometers.
    pub fn from_kilometers(kilometers: T) -> (r: Self)
        ensures
            r@ == kilometers,
    {
        Self { kilometers }
    }

    /// Converts a meter value into a length.
    pub fn from_meters(meters: T) -> (r: Self)
        ensures
            r@ == meters.div_spec(T::from_u16_spec(1000)),
    {
        Self { kilometers: meters.div(T::from_u16(1000)) }
    }

    /// The length in kilometers.
    pub fn kilometers(&self) -> (r: T)
        ensures
            r == self@,
    {
        self.kilometers
    }

    /// The length in meters.
    pub fn meters(&self) -> (r: T)
        ensures
            r == self@.mul_spec(T::from_u16_spec(1000)),
    {
        self.kilometers.mul(T::from_u16(1000))
    }
}

} // verus!
