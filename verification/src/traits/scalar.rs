//! Total arithmetic with a specification-level model.
//!
//! `Scalar` is the capability that the vector and great-circle layers are
//! generic over: addition, subtraction, multiplication, division, negation,
//! ordering and small constants, each exec operation pinned to a spec-level
//! model, plus the algebraic laws that the geometry proofs rest on.
//!
//! Every operation is total: the integer impls below wrap on overflow and
//! return zero for division by zero, and their spec models say exactly that.
//! The `*_in_range` predicates name the inputs on which the model coincides
//! with exact arithmetic; the laws that only hold there take them as
//! hypotheses. `is_real` names the values that behave like points of the real
//! line (for the integers: all of them; for a floating-point impl: the finite
//! values), and the laws that a non-number would break take it as a
//! hypothesis.
use vstd::prelude::*;

use crate::traits::number::Zero;

verus! {

/// Arithmetic capability over a copyable number type, with spec-level models
/// for every operation and the algebraic laws the geometry engine relies on.
pub trait Scalar: Zero + Copy {
    /// Model of addition (the integer impls wrap on overflow).
    spec fn add_spec(self, rhs: Self) -> Self;

    /// Model of subtraction (the integer impls wrap on overflow).
    spec fn sub_spec(self, rhs: Self) -> Self;

    /// Model of multiplication (the integer impls wrap on overflow).
    spec fn mul_spec(self, rhs: Self) -> Self;

    /// Model of division; total, with a stated value on a zero divisor.
    spec fn div_spec(self, rhs: Self) -> Self;

    /// Model of negation.
    spec fn neg_spec(self) -> Self;

    /// Model of the `<=` comparison.
    spec fn le_spec(self, rhs: Self) -> bool;

    /// Model of the `<` comparison.
    spec fn lt_spec(self, rhs: Self) -> bool;

    /// Numeric equality: equality of the numbers two values stand for, which
    /// may be coarser than structural equality of the values.
    spec fn eqv(self, rhs: Self) -> bool;

    /// Whether the value stands for a point of the real line.
    spec fn is_real(self) -> bool;

    /// Whether `self + rhs` stays on the right side of the type's range: the
    /// integer impls wrap outside it. An impl whose addition rounds or
    /// saturates but never wraps satisfies it everywhere.
    spec fn add_in_range(self, rhs: Self) -> bool;

    /// Whether `self * rhs` stays on the right side of the type's range: the
    /// integer impls wrap outside it. An impl whose multiplication rounds or
    /// saturates but never wraps satisfies it everywhere.
    spec fn mul_in_range(self, rhs: Self) -> bool;

    /// Model of the embedding of small unsigned constants.
    spec fn from_u16_spec(v: u16) -> Self;

    /// Adds. Total: never panics.
    fn add(self, rhs: Self) -> (r: Self)
        ensures
            r == self.add_spec(rhs),
    ;

    /// Subtracts. Total: never panics.
    fn sub(self, rhs: Self) -> (r: Self)
        ensures
            r == self.sub_spec(rhs),
    ;

    /// Multiplies. Total: never panics.
    fn mul(self, rhs: Self) -> (r: Self)
        ensures
            r == self.mul_spec(rhs),
    ;

    /// Divides. Total: never panics, also on a zero divisor.
    fn div(self, rhs: Self) -> (r: Self)
        ensures
            r == self.div_spec(rhs),
    ;

    /// Negates. Total: never panics.
    fn neg(self) -> (r: Self)
        ensures
            r == self.neg_spec(),
    ;

    /// The `<=` comparison.
    fn le(self, rhs: Self) -> (r: bool)
        ensures
            r == self.le_spec(rhs),
    ;

    /// The `<` comparison.
    fn lt(self, rhs: Self) -> (r: bool)
        ensures
            r == self.lt_spec(rhs),
    ;

    /// Numeric equality test.
    fn eq_val(self, rhs: Self) -> (r: bool)
        ensures
            r == self.eqv(rhs),
    ;

    /// Embeds a small unsigned constant.
    fn from_u16(v: u16) -> (r: Self)
        ensures
            r == Self::from_u16_spec(v),
    ;

    /// Law: multiplication of real values is commutative.
    proof fn law_mul_comm(a: Self, b: Self)
        requires
            a.is_real(),
            b.is_real(),
        ensures
            a.mul_spec(b) == b.mul_spec(a),
    ;

    /// Law: negating a difference of real values yields the swapped
    /// difference, as numbers.
    proof fn law_neg_sub(a: Self, b: Self)
        requires
            a.is_real(),
            b.is_real(),
        ensures
            a.sub_spec(b).neg_spec().eqv(b.sub_spec(a)),
    ;

    /// Law: a difference of real values and its swap have the same square.
    proof fn law_sub_square_sym(a: Self, b: Self)
        requires
            a.is_real(),
            b.is_real(),
        ensures
            a.sub_spec(b).mul_spec(a.sub_spec(b)) == b.sub_spec(a).mul_spec(b.sub_spec(a)),
    ;

    /// Law: a non-wrapping square of a real value is not below zero.
    proof fn law_square_nonneg(a: Self)
        requires
            a.is_real(),
            a.mul_in_range(a),
        ensures
            Self::zero_spec().le_spec(a.mul_spec(a)),
    ;

    /// Law: a non-wrapping sum of values not below zero is not below zero.
    proof fn law_add_nonneg(a: Self, b: Self)
        requires
            Self::zero_spec().le_spec(a),
            Self::zero_spec().le_spec(b),
            a.add_in_range(b),
        ensures
            Self::zero_spec().le_spec(a.add_spec(b)),
    ;

    /// Law: `<=` is reflexive on real values.
    proof fn law_le_refl(a: Self)
        requires
            a.is_real(),
        ensures
            a.le_spec(a),
    ;

    /// Law: numeric equality is symmetric.
    proof fn law_eqv_sym(a: Self, b: Self)
        ensures
            a.eqv(b) == b.eqv(a),
    ;

    /// Law: zero is a real value.
    proof fn law_zero_real()
        ensures
            Self::zero_spec().is_real(),
    ;
}

impl Scalar for i32 {
    open spec fn add_spec(self, rhs: i32) -> i32 {
        self.wrapping_add(rhs)
    }

    open spec fn sub_spec(self, rhs: i32) -> i32 {
        self.wrapping_sub(rhs)
    }

    open spec fn mul_spec(self, rhs: i32) -> i32 {
        self.wrapping_mul(rhs)
    }

    open spec fn div_spec(self, rhs: i32) -> i32 {
        match self.checked_div(rhs) {
            Some(q) => q,
            None => if rhs == 0 {
                0i32
            } else {
                i32::MIN
            },
        }
    }

    open spec fn neg_spec(self) -> i32 {
        if self == i32::MIN {
            i32::MIN
        } else {
            (0 - self as int) as i32
        }
    }

    open spec fn le_spec(self, rhs: i32) -> bool {
        self <= rhs
    }

    open spec fn lt_spec(self, rhs: i32) -> bool {
        self < rhs
    }

    open spec fn eqv(self, rhs: i32) -> bool {
        self == rhs
    }

    open spec fn is_real(self) -> bool {
        true
    }

    open spec fn add_in_range(self, rhs: i32) -> bool {
        i32::MIN <= self + rhs <= i32::MAX
    }

    open spec fn mul_in_range(self, rhs: i32) -> bool {
        i32::MIN <= self * rhs <= i32::MAX
    }

    open spec fn from_u16_spec(v: u16) -> i32 {
        v as i32
    }

    fn add(self, rhs: i32) -> (r: i32) {
        self.wrapping_add(rhs)
    }

    fn sub(self, rhs: i32) -> (r: i32) {
        self.wrapping_sub(rhs)
    }

    fn mul(self, rhs: i32) -> (r: i32) {
        self.wrapping_mul(rhs)
    }

    fn div(self, rhs: i32) -> (r: i32) {
        match self.checked_div(rhs) {
            Some(q) => q,
            None => if rhs == 0 {
                0i32
            } else {
                i32::MIN
            },
        }
    }

    fn neg(self) -> (r: i32) {
        if self == i32::MIN {
            i32::MIN
        } else {
            -self
        }
    }

    fn le(self, rhs: i32) -> (r: bool) {
        self <= rhs
    }

    fn lt(self, rhs: i32) -> (r: bool) {
        self < rhs
    }

    fn eq_val(self, rhs: i32) -> (r: bool) {
        self == rhs
    }

    fn from_u16(v: u16) -> (r: i32) {
        v as i32
    }

    proof fn law_mul_comm(a: i32, b: i32) {
        assert(a as int * b as int == b as int * a as int) by (nonlinear_arith);
    }

    proof fn law_neg_sub(a: i32, b: i32) {
    }

    proof fn law_sub_square_sym(a: i32, b: i32) {
        lemma_wrapped_square_sym_i32(a, b);
    }

    proof fn law_square_nonneg(a: i32) {
        assert(a as int * a as int >= 0) by (nonlinear_arith);
    }

    proof fn law_add_nonneg(a: i32, b: i32) {
    }

    proof fn law_le_refl(a: i32) {
    }

    proof fn law_eqv_sym(a: i32, b: i32) {
    }

    proof fn law_zero_real() {
    }
}

impl Scalar for i64 {
    open spec fn add_spec(self, rhs: i64) -> i64 {
        self.wrapping_add(rhs)
    }

    open spec fn sub_spec(self, rhs: i64) -> i64 {
        self.wrapping_sub(rhs)
    }

    open spec fn mul_spec(self, rhs: i64) -> i64 {
        self.wrapping_mul(rhs)
    }

    open spec fn div_spec(self, rhs: i64) -> i64 {
        match self.checked_div(rhs) {
            Some(q) => q,
            None => if rhs == 0 {
                0i64
            } else {
                i64::MIN
            },
        }
    }

    open spec fn neg_spec(self) -> i64 {
        if self == i64::MIN {
            i64::MIN
        } else {
            (0 - self as int) as i64
        }
    }

    open spec fn le_spec(self, rhs: i64) -> bool {
        self <= rhs
    }

    open spec fn lt_spec(self, rhs: i64) -> bool {
        self < rhs
    }

    open spec fn eqv(self, rhs: i64) -> bool {
        self == rhs
    }

    open spec fn is_real(self) -> bool {
        true
    }

    open spec fn add_in_range(self, rhs: i64) -> bool {
        i64::MIN <= self + rhs <= i64::MAX
    }

    open spec fn mul_in_range(self, rhs: i64) -> bool {
        i64::MIN <= self * rhs <= i64::MAX
    }

    open spec fn from_u16_spec(v: u16) -> i64 {
        v as i64
    }

    fn add(self, rhs: i64) -> (r: i64) {
        self.wrapping_add(rhs)
    }

    fn sub(self, rhs: i64) -> (r: i64) {
        self.wrapping_sub(rhs)
    }

    fn mul(self, rhs: i64) -> (r: i64) {
        self.wrapping_mul(rhs)
    }

    fn div(self, rhs: i64) -> (r: i64) {
        match self.checked_div(rhs) {
            Some(q) => q,
            None => if rhs == 0 {
                0i64
            } else {
                i64::MIN
            },
        }
    }

    fn neg(self) -> (r: i64) {
        if self == i64::MIN {
            i64::MIN
        } else {
            -self
        }
    }

    fn le(self, rhs: i64) -> (r: bool) {
        self <= rhs
    }

    fn lt(self, rhs: i64) -> (r: bool) {
        self < rhs
    }

    fn eq_val(self, rhs: i64) -> (r: bool) {
        self == rhs
    }

    fn from_u16(v: u16) -> (r: i64) {
        v as i64
    }

    proof fn law_mul_comm(a: i64, b: i64) {
        assert(a as int * b as int == b as int * a as int) by (nonlinear_arith);
    }

    proof fn law_neg_sub(a: i64, b: i64) {
    }

    proof fn law_sub_square_sym(a: i64, b: i64) {
        lemma_wrapped_square_sym_i64(a, b);
    }

    proof fn law_square_nonneg(a: i64) {
        assert(a as int * a as int >= 0) by (nonlinear_arith);
    }

    proof fn law_add_nonneg(a: i64, b: i64) {
    }

    proof fn law_le_refl(a: i64) {
    }

    proof fn law_eqv_sym(a: i64, b: i64) {
    }

    proof fn law_zero_real() {
    }
}

/// The wrapped square of a wrapped difference does not depend on the order of
/// the difference: the two wrapped differences are exact negatives modulo
/// 2^32, and squaring erases both the sign and the multiple of 2^32.
proof fn lemma_wrapped_square_sym_i32(a: i32, b: i32)
    ensures
        a.wrapping_sub(b).wrapping_mul(a.wrapping_sub(b)) == b.wrapping_sub(a).wrapping_mul(
            b.wrapping_sub(a),
        ),
{
    let m: int = 0x1_0000_0000;
    let w1: int = a.wrapping_sub(b) as int;
    let w2: int = b.wrapping_sub(a) as int;
    assert(w1 + w2 == 0 || w1 + w2 == 0 - m);
    if w1 + w2 == 0 {
        assert(w2 * w2 == w1 * w1) by (nonlinear_arith)
            requires
                w2 == 0 - w1,
        ;
    } else {
        assert(w2 * w2 == m * (m + 2 * w1) + w1 * w1) by (nonlinear_arith)
            requires
                w2 == 0 - m - w1,
        ;
        vstd::arithmetic::div_mod::lemma_mod_multiples_vanish(m + 2 * w1, w1 * w1, m);
    }
    assert((w1 * w1) % m == (w2 * w2) % m);
}

/// The wrapped square of a wrapped difference does not depend on the order of
/// the difference: the two wrapped differences are exact negatives modulo
/// 2^64, and squaring erases both the sign and the multiple of 2^64.
proof fn lemma_wrapped_square_sym_i64(a: i64, b: i64)
    ensures
        a.wrapping_sub(b).wrapping_mul(a.wrapping_sub(b)) == b.wrapping_sub(a).wrapping_mul(
            b.wrapping_sub(a),
        ),
{
    let m: int = 0x1_0000_0000_0000_0000;
    let w1: int = a.wrapping_sub(b) as int;
    let w2: int = b.wrapping_sub(a) as int;
    assert(w1 + w2 == 0 || w1 + w2 == 0 - m);
    if w1 + w2 == 0 {
        assert(w2 * w2 == w1 * w1) by (nonlinear_arith)
            requires
                w2 == 0 - w1,
        ;
    } else {
        assert(w2 * w2 == m * (m + 2 * w1) + w1 * w1) by (nonlinear_arith)
            requires
                w2 == 0 - m - w1,
        ;
        vstd::arithmetic::div_mod::lemma_mod_multiples_vanish(m + 2 * w1, w1 * w1, m);
    }
    assert((w1 * w1) % m == (w2 * w2) % m);
}

} // verus!
