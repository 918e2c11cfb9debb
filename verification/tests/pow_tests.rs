use std::fmt::Debug;

use geomath::traits::pow::{pow, Pow};

/// These tests don't include validation for real numbers to the power of a
/// float (int^float) due to the possibility of resulting in a complex number
/// not yet implemented.
fn test<T: Pow<P, Q> + Copy, P: Clone, Q: PartialEq + Debug>(base: T, exp: P, result: Q) {
    assert_eq!(base.pow(exp.clone()), result);
    assert_eq!(pow(base, exp), result)
}

/// An integer power of a 64-bit float by square-and-multiply, with a
/// negative exponent as the reciprocal of the positive power.
fn powi_by_squaring(base: f64, exp: i32) -> f64 {
    let mut result: f64 = 1.0;
    let mut b: f64 = base;
    let mut e: u32 = exp.unsigned_abs();
    while e > 0 {
        if e & 1 == 1 {
            result *= b;
        }
        b *= b;
        e >>= 1;
    }
    if exp < 0 {
        1.0 / result
    } else {
        result
    }
}

/// A 64-bit floating-point scalar plugging into the power capability from
/// outside the library, as a new numeric type does.
#[derive(Clone, Copy, Debug, PartialEq)]
struct F64(f64);

/// A 32-bit floating-point scalar used as an exponent type.
#[derive(Clone, Copy, Debug, PartialEq)]
struct F32(f32);

impl Pow<i32, F64> for F64 {
    fn pow_spec(self, exp: i32) -> F64 {
        F64(powi_by_squaring(self.0, exp))
    }

    fn pow_in_range(self, _exp: i32) -> bool {
        true
    }

    fn pow(self, exp: i32) -> F64 {
        F64(powi_by_squaring(self.0, exp))
    }
}

impl Pow<i16, F64> for u16 {
    fn pow_spec(self, exp: i16) -> F64 {
        F64(f64::from(self).powi(i32::from(exp)))
    }

    fn pow_in_range(self, _exp: i16) -> bool {
        true
    }

    fn pow(self, exp: i16) -> F64 {
        F64(f64::from(self).powi(i32::from(exp)))
    }
}

impl Pow<F32, F64> for u16 {
    fn pow_spec(self, exp: F32) -> F64 {
        F64(f64::from(self).powf(f64::from(exp.0)))
    }

    fn pow_in_range(self, _exp: F32) -> bool {
        true
    }

    fn pow(self, exp: F32) -> F64 {
        F64(f64::from(self).powf(f64::from(exp.0)))
    }
}

impl Pow<i32, F64> for i32 {
    fn pow_spec(self, exp: i32) -> F64 {
        F64(f64::from(self).powi(exp))
    }

    fn pow_in_range(self, _exp: i32) -> bool {
        true
    }

    fn pow(self, exp: i32) -> F64 {
        F64(f64::from(self).powi(exp))
    }
}

#[test]
fn pow_fif() {
    self::test(F64(0.4f64), -5, F64(97.65624999999994));
}

#[test]
fn pow_fuf() {
    self::test(F64(0.4f64), 5, F64(0.010240000000000006));
}

#[test]
fn pow_uif() {
    self::test(5u16, -2i16, F64(0.04));
}

#[test]
fn pow_uff() {
    self::test(5u16, F32(0.5f32), F64(2.23606797749979));
}

#[test]
fn pow_iif() {
    self::test(-2i32, -2i32, F64(0.25));
}

#[test]
fn pow_uuu() {
    self::test(2u8, 2u8, 4u8);
}

#[test]
fn pow_iui() {
    self::test(-2i8, 3u8, -8i8);
}

#[test]
fn pow_large_unsigned() {
    self::test(3u64, 20u32, 3486784401u64);
}

#[test]
fn pow_signed_even_exponent() {
    self::test(-3i32, 4u8, 81i32);
}

#[test]
fn pow_zero_exponent() {
    self::test(9u32, 0u32, 1u32);
    self::test(-7i64, 0u16, 1i64);
}

#[test]
fn pow_zero_base() {
    self::test(0u16, 5u8, 0u16);
    self::test(0i16, 3u32, 0i16);
}
