//! The power capability. `Pow<EXP, OUT>` is a relation, not a single
//! function: each supported (base type, exponent type, output type) triple is
//! its own impl, so integer powers stay exact while mixed integer and
//! floating-point powers, supplied by wrapper types outside this crate,
//! promote as they choose.
//!
//! The impls here cover each integer base raised to an unsigned exponent,
//! yielding the base's own type. They are exact: `pow_in_range` names the
//! inputs whose power fits the output type, and `pow` demands them.
use vstd::prelude::*;

use vstd::arithmetic::power::pow as pow_int;

verus! {

/// Raising a base of type `Self` to an exponent of type `EXP`, yielding an
/// `OUT`.
pub trait Pow<EXP, OUT> {
    /// Model of the power.
    spec fn pow_spec(self, exp: EXP) -> OUT;

    /// Whether the power of these inputs is representable in `OUT`.
    spec fn pow_in_range(self, exp: EXP) -> bool;

    /// Raises `self` to the power `exp`.
    fn pow(self, exp: EXP) -> (r: OUT)
        requires
            self.pow_in_range(exp),
        ensures
            r == self.pow_spec(exp),
    ;
}

/// Raises `base` to the power `exp`.
pub fn pow<T: Pow<P, Q>, P, Q>(base: T, exp: P) -> (r: Q)
    requires
        base.pow_in_range(exp),
    ensures
        r == base.pow_spec(exp),
{
    base.pow(exp)
}

/// Unsigned power by repeated multiplication; the shared engine behind the
/// unsigned `Pow` impls.
fn pow_u64(base: u64, exp: u32) -> (r: u64)
    requires
        pow_int(base as int, exp as nat) <= u64::MAX,
    ensures
        r as int == pow_int(base as int, exp as nat),
{
    proof {
        vstd::arithmetic::power::lemma_pow0(base as int);
    }
    let mut result: u64 = 1;
    let mut i: u32 = 0;
    while i < exp
        invariant
            i <= exp,
            result as int == pow_int(base as int, i as nat),
            pow_int(base as int, exp as nat) <= u64::MAX,
        decreases exp - i,
    {
        proof {
            lemma_pow_step_fits(base as int, i as nat, exp as nat);
        }
        result = result * base;
        i = i + 1;
    }
    result
}

/// The next step of a power that finally fits also fits: `base^(i+1)` is no
/// larger than `base^exp` for `i < exp`, once the trivial bases are set aside.
proof fn lemma_pow_step_fits(base: int, i: nat, exp: nat)
    requires
        0 <= base,
        i < exp,
        pow_int(base, exp) <= u64::MAX,
    ensures
        pow_int(base, i) * base <= u64::MAX,
        pow_int(base, i) * base == pow_int(base, (i + 1) as nat),
{
    vstd::arithmetic::power::lemma_pow_adds(base, i, 1);
    vstd::arithmetic::power::lemma_pow1(base);
    if base == 0 {
        vstd::arithmetic::power::lemma0_pow((i + 1) as nat);
    } else {
        vstd::arithmetic::power::lemma_pow_increases(base as nat, (i + 1) as nat, exp);
    }
}

/// A power of a base that is not negative is not negative.
proof fn lemma_pow_nonneg(b: int, e: nat)
    requires
        b >= 0,
    ensures
        pow_int(b, e) >= 0,
{
    if b == 0 {
        if e == 0 {
            vstd::arithmetic::power::lemma_pow0(b);
        } else {
            vstd::arithmetic::power::lemma0_pow(e);
        }
    } else {
        vstd::arithmetic::power::lemma_pow_positive(b, e);
    }
}

/// Negating the base keeps a power's magnitude and flips its sign on odd
/// exponents only.
proof fn lemma_pow_neg_base(b: int, e: nat)
    ensures
        pow_int(0 - b, e) == if e % 2 == 0 {
            pow_int(b, e)
        } else {
            0 - pow_int(b, e)
        },
    decreases e,
{
    reveal(vstd::arithmetic::power::pow);
    if e != 0 {
        lemma_pow_neg_base(b, (e - 1) as nat);
        let p: int = pow_int(b, (e - 1) as nat);
        if (e - 1) % 2 == 0 {
            assert((0 - b) * p == 0 - (b * p)) by (nonlinear_arith);
        } else {
            assert((0 - b) * (0 - p) == b * p) by (nonlinear_arith);
        }
    }
}

/// Signed power through the unsigned engine: the magnitude of the power is
/// the power of the magnitude, and the sign follows the exponent's parity.
fn pow_i64(base: i64, exp: u32) -> (r: i64)
    requires
        i64::MIN <= pow_int(base as int, exp as nat) <= i64::MAX,
    ensures
        r as int == pow_int(base as int, exp as nat),
{
    if base >= 0 {
        proof {
            lemma_pow_nonneg(base as int, exp as nat);
        }
        let w: u64 = pow_u64(base as u64, exp);
        w as i64
    } else {
        let mag_base: u64 = if base == i64::MIN {
            9223372036854775808u64
        } else {
            (0 - base) as u64
        };
        proof {
            lemma_pow_neg_base(base as int, exp as nat);
            lemma_pow_nonneg(mag_base as int, exp as nat);
        }
        let mag: u64 = pow_u64(mag_base, exp);
        if exp % 2 == 0 {
            mag as i64
        } else {
            if mag == 9223372036854775808u64 {
                i64::MIN
            } else {
                0 - (mag as i64)
            }
        }
    }
}

impl Pow<u8, u8> for u8 {
    open spec fn pow_spec(self, exp: u8) -> u8 {
        pow_int(self as int, exp as nat) as u8
    }

    open spec fn pow_in_range(self, exp: u8) -> bool {
        pow_int(self as int, exp as nat) <= u8::MAX
    }

    fn pow(self, exp: u8) -> (r: u8) {
        proof {
            lemma_pow_nonneg(self as int, exp as nat);
        }
        let w: u64 = pow_u64(self as u64, exp as u32);
        w as u8
    }
}

impl Pow<u16, u8> for u8 {
    open spec fn pow_spec(self, exp: u16) -> u8 {
        pow_int(self as int, exp as nat) as u8
    }

    open spec fn pow_in_range(self, exp: u16) -> bool {
        pow_int(self as int, exp as nat) <= u8::MAX
    }

    fn pow(self, exp: u16) -> (r: u8) {
        proof {
            lemma_pow_nonneg(self as int, exp as nat);
        }
        let w: u64 = pow_u64(self as u64, exp as u32);
        w as u8
    }
}

impl Pow<u32, u8> for u8 {
    open spec fn pow_spec(self, exp: u32) -> u8 {
        pow_int(self as int, exp as nat) as u8
    }

    open spec fn pow_in_range(self, exp: u32) -> bool {
        pow_int(self as int, exp as nat) <= u8::MAX
    }

    fn pow(self, exp: u32) -> (r: u8) {
        proof {
            lemma_pow_nonneg(self as int, exp as nat);
        }
        let w: u64 = pow_u64(self as u64, exp);
        w as u8
    }
}

impl Pow<u8, u16> for u16 {
    open spec fn pow_spec(self, exp: u8) -> u16 {
        pow_int(self as int, exp as nat) as u16
    }

    open spec fn pow_in_range(self, exp: u8) -> bool {
        pow_int(self as int, exp as nat) <= u16::MAX
    }

    fn pow(self, exp: u8) -> (r: u16) {
        proof {
            lemma_pow_nonneg(self as int, exp as nat);
        }
        let w: u64 = pow_u64(self as u64, exp as u32);
        w as u16
    }
}

impl Pow<u16, u16> for u16 {
    open spec fn pow_spec(self, exp: u16) -> u16 {
        pow_int(self as int, exp as nat) as u16
    }

    open spec fn pow_in_range(self, exp: u16) -> bool {
        pow_int(self as int, exp as nat) <= u16::MAX
    }

    fn pow(self, exp: u16) -> (r: u16) {
        proof {
            lemma_pow_nonneg(self as int, exp as nat);
        }
        let w: u64 = pow_u64(self as u64, exp as u32);
        w as u16
    }
}

impl Pow<u32, u16> for u16 {
    open spec fn pow_spec(self, exp: u32) -> u16 {
        pow_int(self as int, exp as nat) as u16
    }

    open spec fn pow_in_range(self, exp: u32) -> bool {
        pow_int(self as int, exp as nat) <= u16::MAX
    }

    fn pow(self, exp: u32) -> (r: u16) {
        proof {
            lemma_pow_nonneg(self as int, exp as nat);
        }
        let w: u64 = pow_u64(self as u64, exp);
        w as u16
    }
}

impl Pow<u8, u32> for u32 {
    open spec fn pow_spec(self, exp: u8) -> u32 {
        pow_int(self as int, exp as nat) as u32
    }

    open spec fn pow_in_range(self, exp: u8) -> bool {
        pow_int(self as int, exp as nat) <= u32::MAX
    }

    fn pow(self, exp: u8) -> (r: u32) {
        proof {
            lemma_pow_nonneg(self as int, exp as nat);
        }
        let w: u64 = pow_u64(self as u64, exp as u32);
        w as u32
    }
}

impl Pow<u16, u32> for u32 {
    open spec fn pow_spec(self, exp: u16) -> u32 {
        pow_int(self as int, exp as nat) as u32
    }

    open spec fn pow_in_range(self, exp: u16) -> bool {
        pow_int(self as int, exp as nat) <= u32::MAX
    }

    fn pow(self, exp: u16) -> (r: u32) {
        proof {
            lemma_pow_nonneg(self as int, exp as nat);
        }
        let w: u64 = pow_u64(self as u64, exp as u32);
        w as u32
    }
}

impl Pow<u32, u32> for u32 {
    open spec fn pow_spec(self, exp: u32) -> u32 {
        pow_int(self as int, exp as nat) as u32
    }

    open spec fn pow_in_range(self, exp: u32) -> bool {
        pow_int(self as int, exp as nat) <= u32::MAX
    }

    fn pow(self, exp: u32) -> (r: u32) {
        proof {
            lemma_pow_nonneg(self as int, exp as nat);
        }
        let w: u64 = pow_u64(self as u64, exp);
        w as u32
    }
}

impl Pow<u8, u64> for u64 {
    open spec fn pow_spec(self, exp: u8) -> u64 {
        pow_int(self as int, exp as nat) as u64
    }

    open spec fn pow_in_range(self, exp: u8) -> bool {
        pow_int(self as int, exp as nat) <= u64::MAX
    }

    fn pow(self, exp: u8) -> (r: u64) {
        proof {
            lemma_pow_nonneg(self as int, exp as nat);
        }
        pow_u64(self, exp as u32)
    }
}

impl Pow<u16, u64> for u64 {
    open spec fn pow_spec(self, exp: u16) -> u64 {
        pow_int(self as int, exp as nat) as u64
    }

    open spec fn pow_in_range(self, exp: u16) -> bool {
        pow_int(self as int, exp as nat) <= u64::MAX
    }

    fn pow(self, exp: u16) -> (r: u64) {
        proof {
            lemma_pow_nonneg(self as int, exp as nat);
        }
        pow_u64(self, exp as u32)
    }
}

impl Pow<u32, u64> for u64 {
    open spec fn pow_spec(self, exp: u32) -> u64 {
        pow_int(self as int, exp as nat) as u64
    }

    open spec fn pow_in_range(self, exp: u32) -> bool {
        pow_int(self as int, exp as nat) <= u64::MAX
    }

    fn pow(self, exp: u32) -> (r: u64) {
        proof {
            lemma_pow_nonneg(self as int, exp as nat);
        }
        pow_u64(self, exp)
    }
}

impl Pow<u8, i8> for i8 {
    open spec fn pow_spec(self, exp: u8) -> i8 {
        pow_int(self as int, exp as nat) as i8
    }

    open spec fn pow_in_range(self, exp: u8) -> bool {
        i8::MIN <= pow_int(self as int, exp as nat) <= i8::MAX
    }

    fn pow(self, exp: u8) -> (r: i8) {
        let w: i64 = pow_i64(self as i64, exp as u32);
        w as i8
    }
}

impl Pow<u16, i8> for i8 {
    open spec fn pow_spec(self, exp: u16) -> i8 {
        pow_int(self as int, exp as nat) as i8
    }

    open spec fn pow_in_range(self, exp: u16) -> bool {
        i8::MIN <= pow_int(self as int, exp as nat) <= i8::MAX
    }

    fn pow(self, exp: u16) -> (r: i8) {
        let w: i64 = pow_i64(self as i64, exp as u32);
        w as i8
    }
}

impl Pow<u32, i8> for i8 {
    open spec fn pow_spec(self, exp: u32) -> i8 {
        pow_int(self as int, exp as nat) as i8
    }

    open spec fn pow_in_range(self, exp: u32) -> bool {
        i8::MIN <= pow_int(self as int, exp as nat) <= i8::MAX
    }

    fn pow(self, exp: u32) -> (r: i8) {
        let w: i64 = pow_i64(self as i64, exp);
        w as i8
    }
}

impl Pow<u8, i16> for i16 {
    open spec fn pow_spec(self, exp: u8) -> i16 {
        pow_int(self as int, exp as nat) as i16
    }

    open spec fn pow_in_range(self, exp: u8) -> bool {
        i16::MIN <= pow_int(self as int, exp as nat) <= i16::MAX
    }

    fn pow(self, exp: u8) -> (r: i16) {
        let w: i64 = pow_i64(self as i64, exp as u32);
        w as i16
    }
}

impl Pow<u16, i16> for i16 {
    open spec fn pow_spec(self, exp: u16) -> i16 {
        pow_int(self as int, exp as nat) as i16
    }

    open spec fn pow_in_range(self, exp: u16) -> bool {
        i16::MIN <= pow_int(self as int, exp as nat) <= i16::MAX
    }

    fn pow(self, exp: u16) -> (r: i16) {
        let w: i64 = pow_i64(self as i64, exp as u32);
        w as i16
    }
}

impl Pow<u32, i16> for i16 {
    open spec fn pow_spec(self, exp: u32) -> i16 {
        pow_int(self as int, exp as nat) as i16
    }

    open spec fn pow_in_range(self, exp: u32) -> bool {
        i16::MIN <= pow_int(self as int, exp as nat) <= i16::MAX
    }

    fn pow(self, exp: u32) -> (r: i16) {
        let w: i64 = pow_i64(self as i64, exp);
        w as i16
    }
}

impl Pow<u8, i32> for i32 {
    open spec fn pow_spec(self, exp: u8) -> i32 {
        pow_int(self as int, exp as nat) as i32
    }

    open spec fn pow_in_range(self, exp: u8) -> bool {
        i32::MIN <= pow_int(self as int, exp as nat) <= i32::MAX
    }

    fn pow(self, exp: u8) -> (r: i32) {
        let w: i64 = pow_i64(self as i64, exp as u32);
        w as i32
    }
}

impl Pow<u16, i32> for i32 {
    open spec fn pow_spec(self, exp: u16) -> i32 {
        pow_int(self as int, exp as nat) as i32
    }

    open spec fn pow_in_range(self, exp: u16) -> bool {
        i32::MIN <= pow_int(self as int, exp as nat) <= i32::MAX
    }

    fn pow(self, exp: u16) -> (r: i32) {
        let w: i64 = pow_i64(self as i64, exp as u32);
        w as i32
    }
}

impl Pow<u32, i32> for i32 {
    open spec fn pow_spec(self, exp: u32) -> i32 {
        pow_int(self as int, exp as nat) as i32
    }

    open spec fn pow_in_range(self, exp: u32) -> bool {
        i32::MIN <= pow_int(self as int, exp as nat) <= i32::MAX
    }

    fn pow(self, exp: u32) -> (r: i32) {
        let w: i64 = pow_i64(self as i64, exp);
        w as i32
    }
}

impl Pow<u8, i64> for i64 {
    open spec fn pow_spec(self, exp: u8) -> i64 {
        pow_int(self as int, exp as nat) as i64
    }

    open spec fn pow_in_range(self, exp: u8) -> bool {
        i64::MIN <= pow_int(self as int, exp as nat) <= i64::MAX
    }

    fn pow(self, exp: u8) -> (r: i64) {
        pow_i64(self, exp as u32)
    }
}

impl Pow<u16, i64> for i64 {
    open spec fn pow_spec(self, exp: u16) -> i64 {
        pow_int(self as int, exp as nat) as i64
    }

    open spec fn pow_in_range(self, exp: u16) -> bool {
        i64::MIN <= pow_int(self as int, exp as nat) <= i64::MAX
    }

    fn pow(self, exp: u16) -> (r: i64) {
        pow_i64(self, exp as u32)
    }
}

impl Pow<u32, i64> for i64 {
    open spec fn pow_spec(self, exp: u32) -> i64 {
        pow_int(self as int, exp as nat) as i64
    }

    open spec fn pow_in_range(self, exp: u32) -> bool {
        i64::MIN <= pow_int(self as int, exp as nat) <= i64::MAX
    }

    fn pow(self, exp: u32) -> (r: i64) {
        pow_i64(self, exp)
    }
}

} // verus!
