//! The capability lattice for numbers: `Zero`, and the markers `WholeNumber`
//! (unsigned integers), `IntegerNumber` (all integers), `RealNumber` and
//! `Number`. Membership is granted structurally: every `WholeNumber` is an
//! `IntegerNumber`, every `IntegerNumber` is a `RealNumber`, and everything
//! satisfying `RealNumber` is a `Number`. A new numeric type plugs in by
//! implementing the capabilities it has, without touching existing code.
use vstd::prelude::*;

verus! {

/// Capability of producing the additive identity of a type.
pub trait Zero: Sized {
    /// The additive identity, as contracts see it.
    spec fn zero_spec() -> Self;

    /// Returns the additive identity.
    fn zero() -> (r: Self)
        ensures
            r == Self::zero_spec(),
    ;
}

impl Zero for u8 {
    open spec fn zero_spec() -> u8 {
        0u8
    }

    fn zero() -> (r: u8) {
        0u8
    }
}

impl Zero for u16 {
    open spec fn zero_spec() -> u16 {
        0u16
    }

    fn zero() -> (r: u16) {
        0u16
    }
}

impl Zero for u32 {
    open spec fn zero_spec() -> u32 {
        0u32
    }

    fn zero() -> (r: u32) {
        0u32
    }
}

impl Zero for u64 {
    open spec fn zero_spec() -> u64 {
        0u64
    }

    fn zero() -> (r: u64) {
        0u64
    }
}

impl Zero for u128 {
    open spec fn zero_spec() -> u128 {
        0u128
    }

    fn zero() -> (r: u128) {
        0u128
    }
}

impl Zero for usize {
    open spec fn zero_spec() -> usize {
        0usize
    }

    fn zero() -> (r: usize) {
        0usize
    }
}

impl Zero for i8 {
    open spec fn zero_spec() -> i8 {
        0i8
    }

    fn zero() -> (r: i8) {
        0i8
    }
}

impl Zero for i16 {
    open spec fn zero_spec() -> i16 {
        0i16
    }

    fn zero() -> (r: i16) {
        0i16
    }
}

impl Zero for i32 {
    open spec fn zero_spec() -> i32 {
        0i32
    }

    fn zero() -> (r: i32) {
        0i32
    }
}

impl Zero for i64 {
    open spec fn zero_spec() -> i64 {
        0i64
    }

    fn zero() -> (r: i64) {
        0i64
    }
}

impl Zero for i128 {
    open spec fn zero_spec() -> i128 {
        0i128
    }

    fn zero() -> (r: i128) {
        0i128
    }
}

impl Zero for isize {
    open spec fn zero_spec() -> isize {
        0isize
    }

    fn zero() -> (r: isize) {
        0isize
    }
}

/// Marker for types with unsigned-integer semantics.
pub trait WholeNumber: Zero {

}

impl WholeNumber for u8 {

}

impl WholeNumber for u16 {

}

impl WholeNumber for u32 {

}

impl WholeNumber for u64 {

}

impl WholeNumber for u128 {

}

impl WholeNumber for usize {

}

/// Marker for types with integer semantics, signed or unsigned. Every
/// `WholeNumber` also carries this capability; coherence forbids granting it
/// by a blanket impl next to the direct signed impls, so each grant is spelled
/// out.
pub trait IntegerNumber: Zero {

}

impl IntegerNumber for u8 {

}

impl IntegerNumber for u16 {

}

impl IntegerNumber for u32 {

}

impl IntegerNumber for u64 {

}

impl IntegerNumber for u128 {

}

impl IntegerNumber for usize {

}

impl IntegerNumber for i8 {

}

impl IntegerNumber for i16 {

}

impl IntegerNumber for i32 {

}

impl IntegerNumber for i64 {

}

impl IntegerNumber for i128 {

}

impl IntegerNumber for isize {

}

/// Marker for types embeddable in the real line. Every `IntegerNumber` counts;
/// floating-point types gain the capability in the crates that define their
/// wrappers, so no blanket impl may claim the trait here.
pub trait RealNumber {

}

impl RealNumber for u8 {

}

impl RealNumber for u16 {

}

impl RealNumber for u32 {

}

impl RealNumber for u64 {

}

impl RealNumber for u128 {

}

impl RealNumber for usize {

}

impl RealNumber for i8 {

}

impl RealNumber for i16 {

}

impl RealNumber for i32 {

}

impl RealNumber for i64 {

}

impl RealNumber for i128 {

}

impl RealNumber for isize {

}

/// The most general numeric marker: anything satisfying `RealNumber`.
pub trait Number {

}

impl<T: RealNumber> Number for T {

}

} // verus!
