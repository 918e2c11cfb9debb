//! Fixed-dimension mathematical vectors over a `Scalar` element type.
//!
//! A `MathVec<T, DIMS>` owns exactly `DIMS` elements of `T`. The dimension is
//! part of the type, so both operands of every binary operation have the same
//! dimension by construction, and an operation that changes the dimension
//! returns a value of another type. The view of a vector is the sequence of
//! its elements, and every operation's contract is an equality between that
//! view and a spec-level formula over the element type's models.
use vstd::prelude::*;

use crate::tensor::InitTensorFromVecError;
use crate::traits::number::Zero;
use crate::traits::scalar::Scalar;
use crate::traits::sqrt::Sqrt;
use crate::traits::trig::Trig;

verus! {

broadcast use vstd::array::group_array_axioms;

/// A mathematical vector of exactly `DIMS` elements of `T`.
#[derive(Clone, Copy, PartialEq, Debug)]
pub struct MathVec<T, const DIMS: usize> {
    data: [T; DIMS],
}

impl<T, const DIMS: usize> View for MathVec<T, DIMS> {
    type V = Seq<T>;

    closed spec fn view(&self) -> Seq<T> {
        self.data@
    }
}

/// Element-wise sum of two equal-length sequences.
pub open spec fn add_vec_spec<T: Scalar>(a: Seq<T>, b: Seq<T>) -> Seq<T> {
    Seq::new(a.len(), |i: int| a[i].add_spec(b[i]))
}

/// Element-wise difference of two equal-length sequences.
pub open spec fn sub_vec_spec<T: Scalar>(a: Seq<T>, b: Seq<T>) -> Seq<T> {
    Seq::new(a.len(), |i: int| a[i].sub_spec(b[i]))
}

/// Every element scaled by `s`.
pub open spec fn scale_mul_spec<T: Scalar>(a: Seq<T>, s: T) -> Seq<T> {
    Seq::new(a.len(), |i: int| a[i].mul_spec(s))
}

/// Every element divided by `s`.
pub open spec fn scale_div_spec<T: Scalar>(a: Seq<T>, s: T) -> Seq<T> {
    Seq::new(a.len(), |i: int| a[i].div_spec(s))
}

/// The dot product: the sum of the products of corresponding elements,
/// accumulated left to right from zero.
pub open spec fn dot_spec<T: Scalar>(a: Seq<T>, b: Seq<T>) -> T
    decreases a.len(),
{
    if a.len() == 0 {
        T::zero_spec()
    } else {
        dot_spec(a.drop_last(), b.drop_last()).add_spec(a.last().mul_spec(b.last()))
    }
}

/// The three-dimensional cross product, by the standard determinant formula.
pub open spec fn cross_spec<T: Scalar>(a: Seq<T>, b: Seq<T>) -> Seq<T> {
    seq![
        a[1].mul_spec(b[2]).sub_spec(a[2].mul_spec(b[1])),
        a[2].mul_spec(b[0]).sub_spec(a[0].mul_spec(b[2])),
        a[0].mul_spec(b[1]).sub_spec(a[1].mul_spec(b[0])),
    ]
}

/// The magnitude: the square root of the dot product of a vector with itself.
pub open spec fn magnitude_spec<T: Sqrt>(v: Seq<T>) -> T {
    dot_spec(v, v).sqrt_spec()
}

/// Whether summing the squares of `v`'s elements never wraps: each square and
/// each partial sum stays within the element type's range.
pub open spec fn squared_sum_in_range<T: Scalar>(v: Seq<T>) -> bool
    decreases v.len(),
{
    if v.len() == 0 {
        true
    } else {
        &&& squared_sum_in_range(v.drop_last())
        &&& v.last().mul_in_range(v.last())
        &&& dot_spec(v.drop_last(), v.drop_last()).add_in_range(v.last().mul_spec(v.last()))
    }
}

impl<T, const DIMS: usize> MathVec<T, DIMS> {
    /// Wraps an array of exactly `DIMS` elements as a vector.
    pub fn new(data: [T; DIMS]) -> (r: Self)
        ensures
            r@ == data@,
    {
        Self { data }
    }

    /// The elements, in order.
    pub fn data(&self) -> (r: &[T; DIMS])
        ensures
            r@ == self@,
    {
        &self.data
    }
}

impl<T, const DIMS: usize> From<[T; DIMS]> for MathVec<T, DIMS> {
    fn from(data: [T; DIMS]) -> (r: MathVec<T, DIMS>) {
        MathVec { data }
    }
}

impl<T, const DIMS: usize> vstd::std_specs::convert::FromSpecImpl<[T; DIMS]> for MathVec<T, DIMS> {
    open spec fn obeys_from_spec() -> bool {
        true
    }

    closed spec fn from_spec(data: [T; DIMS]) -> MathVec<T, DIMS> {
        MathVec { data }
    }
}

impl<T: Zero + Copy, const DIMS: usize> MathVec<T, DIMS> {
    /// Builds a vector from a variable-length collection: the only
    /// vector-construction path whose element count is not known to match the
    /// dimension, so a count other than `DIMS` is rejected.
    pub fn from_collection(elements: Vec<T>) -> (r: Result<Self, InitTensorFromVecError>)
        ensures
            match r {
                Ok(v) => elements@.len() == DIMS && v@ == elements@,
                Err(e) => elements@.len() != DIMS && e == InitTensorFromVecError::IncorrectVectorSize,
            },
    {
        if elements.len() != DIMS {
            return Err(InitTensorFromVecError::IncorrectVectorSize);
        }
        let mut data: [T; DIMS] = [T::zero(); DIMS];
        let mut i: usize = 0;
        while i < DIMS
            invariant
                i <= DIMS,
                elements@.len() == DIMS,
                data@.len() == DIMS,
                forall|j: int| 0 <= j < i ==> data@[j] == elements@[j],
            decreases DIMS - i,
        {
            data[i] = elements[i];
            i = i + 1;
        }
        assert(data@ =~= elements@);
        Ok(Self { data })
    }
}

impl<T: Zero + Copy, const DIMS: usize> Zero for MathVec<T, DIMS> {
    closed spec fn zero_spec() -> MathVec<T, DIMS> {
        MathVec { data: vstd::array::spec_array_fill_for_copy_type(T::zero_spec()) }
    }

    fn zero() -> (r: MathVec<T, DIMS>) {
        MathVec { data: [T::zero(); DIMS] }
    }
}

impl<T: Copy, const DIMS: usize> MathVec<T, DIMS> {
    /// Returns the vector one dimension higher that carries `self`'s elements
    /// followed by `new_val`. The result's dimension is given at the call
    /// site and must be exactly one more than `DIMS`.
    pub fn add_dim<const NEW: usize>(self, new_val: T) -> (r: MathVec<T, NEW>)
        requires
            NEW as int == DIMS as int + 1,
        ensures
            r@ == self@.push(new_val),
    {
        let mut data: [T; NEW] = [new_val; NEW];
        let mut i: usize = 0;
        while i < DIMS
            invariant
                i <= DIMS,
                DIMS as int + 1 == NEW as int,
                data@.len() == NEW,
                forall|j: int| 0 <= j < i ==> data@[j] == self@[j],
                data@[DIMS as int] == new_val,
            decreases DIMS - i,
        {
            data[i] = self.data[i];
            i = i + 1;
        }
        assert(data@ =~= self@.push(new_val));
        MathVec { data }
    }
}

impl<T: Copy> MathVec<T, 1> {
    /// The single element as a one-element tuple.
    pub fn into_tuple(self) -> (r: (T,))
        ensures
            r.0 == self@[0],
    {
        (self.data[0],)
    }

    /// A vector from a one-element tuple.
    pub fn from_tuple(value: (T,)) -> (r: Self)
        ensures
            r@ == seq![value.0],
    {
        let r = Self { data: [value.0] };
        assert(r@ =~= seq![value.0]);
        r
    }
}

impl<T: Copy> MathVec<T, 2> {
    /// The elements as a pair, in order.
    pub fn into_tuple(self) -> (r: (T, T))
        ensures
            r.0 == self@[0],
            r.1 == self@[1],
    {
        (self.data[0], self.data[1])
    }

    /// A vector from a pair.
    pub fn from_tuple(value: (T, T)) -> (r: Self)
        ensures
            r@ == seq![value.0, value.1],
    {
        let r = Self { data: [value.0, value.1] };
        assert(r@ =~= seq![value.0, value.1]);
        r
    }
}

impl<T: Copy> MathVec<T, 3> {
    /// The elements as a triple, in order.
    pub fn into_tuple(self) -> (r: (T, T, T))
        ensures
            r.0 == self@[0],
            r.1 == self@[1],
            r.2 == self@[2],
    {
        (self.data[0], self.data[1], self.data[2])
    }

    /// A vector from a triple.
    pub fn from_tuple(value: (T, T, T)) -> (r: Self)
        ensures
            r@ == seq![value.0, value.1, value.2],
    {
        let r = Self { data: [value.0, value.1, value.2] };
        assert(r@ =~= seq![value.0, value.1, value.2]);
        r
    }
}

impl<T: Scalar, const DIMS: usize> MathVec<T, DIMS> {
    /// Element-wise sum.
    pub fn add(self, rhs: MathVec<T, DIMS>) -> (r: MathVec<T, DIMS>)
        ensures
            r@ == add_vec_spec(self@, rhs@),
    {
        let mut data: [T; DIMS] = self.data;
        let mut m: usize = 0;
        while m < DIMS
            invariant
                m <= DIMS,
                data@.len() == DIMS,
                forall|j: int| 0 <= j < m ==> data@[j] == self@[j].add_spec(rhs@[j]),
                forall|j: int| m <= j < DIMS ==> data@[j] == self@[j],
            decreases DIMS - m,
        {
            data[m] = data[m].add(rhs.data[m]);
            m = m + 1;
        }
        assert(data@ =~= add_vec_spec(self@, rhs@));
        MathVec { data }
    }

    /// Element-wise difference.
    pub fn sub(self, rhs: MathVec<T, DIMS>) -> (r: MathVec<T, DIMS>)
        ensures
            r@ == sub_vec_spec(self@, rhs@),
    {
        let mut data: [T; DIMS] = self.data;
        let mut m: usize = 0;
        while m < DIMS
            invariant
                m <= DIMS,
                data@.len() == DIMS,
                forall|j: int| 0 <= j < m ==> data@[j] == self@[j].sub_spec(rhs@[j]),
                forall|j: int| m <= j < DIMS ==> data@[j] == self@[j],
            decreases DIMS - m,
        {
            data[m] = data[m].sub(rhs.data[m]);
            m = m + 1;
        }
        assert(data@ =~= sub_vec_spec(self@, rhs@));
        MathVec { data }
    }

    /// Every element multiplied by the scalar `rhs`.
    pub fn scale_mul(self, rhs: T) -> (r: MathVec<T, DIMS>)
        ensures
            r@ == scale_mul_spec(self@, rhs),
    {
        let mut data: [T; DIMS] = self.data;
        let mut m: usize = 0;
        while m < DIMS
            invariant
                m <= DIMS,
                data@.len() == DIMS,
                forall|j: int| 0 <= j < m ==> data@[j] == self@[j].mul_spec(rhs),
                forall|j: int| m <= j < DIMS ==> data@[j] == self@[j],
            decreases DIMS - m,
        {
            data[m] = data[m].mul(rhs);
            m = m + 1;
        }
        assert(data@ =~= scale_mul_spec(self@, rhs));
        MathVec { data }
    }

    /// Every element divided by the scalar `rhs`.
    pub fn scale_div(self, rhs: T) -> (r: MathVec<T, DIMS>)
        ensures
            r@ == scale_div_spec(self@, rhs),
    {
        let mut data: [T; DIMS] = self.data;
        let mut m: usize = 0;
        while m < DIMS
            invariant
                m <= DIMS,
                data@.len() == DIMS,
                forall|j: int| 0 <= j < m ==> data@[j] == self@[j].div_spec(rhs),
                forall|j: int| m <= j < DIMS ==> data@[j] == self@[j],
            decreases DIMS - m,
        {
            data[m] = data[m].div(rhs);
            m = m + 1;
        }
        assert(data@ =~= scale_div_spec(self@, rhs));
        MathVec { data }
    }

    /// The dot product of `self` with `rhs`.
    pub fn dot_product(&self, rhs: MathVec<T, DIMS>) -> (r: T)
        ensures
            r == dot_spec(self@, rhs@),
    {
        let mut total: T = T::zero();
        let mut m: usize = 0;
        while m < DIMS
            invariant
                m <= DIMS,
                total == dot_spec(self@.take(m as int), rhs@.take(m as int)),
            decreases DIMS - m,
        {
            total = total.add(self.data[m].mul(rhs.data[m]));
            proof {
                let k = m as int;
                assert(self@.take(k + 1).drop_last() =~= self@.take(k));
                assert(rhs@.take(k + 1).drop_last() =~= rhs@.take(k));
            }
            m = m + 1;
        }
        proof {
            assert(self@.take(DIMS as int) =~= self@);
            assert(rhs@.take(DIMS as int) =~= rhs@);
        }
        total
    }
}

impl<T: Scalar> MathVec<T, 3> {
    /// The cross product, defined for three dimensions only. It is not
    /// commutative: swapping the operands negates every element (see
    /// `lemma_cross_antisymmetric`).
    pub fn cross_product(&self, rhs: MathVec<T, 3>) -> (r: Self)
        ensures
            r@ == cross_spec(self@, rhs@),
    {
        let r = MathVec::new(
            [
                self.data[1].mul(rhs.data[2]).sub(self.data[2].mul(rhs.data[1])),
                self.data[2].mul(rhs.data[0]).sub(self.data[0].mul(rhs.data[2])),
                self.data[0].mul(rhs.data[1]).sub(self.data[1].mul(rhs.data[0])),
            ],
        );
        assert(r@ =~= cross_spec(self@, rhs@));
        r
    }
}

/// The capabilities of a vector whose elements admit a square root: magnitude
/// and normalization.
pub trait MathVecTrait<T, const DIMS: usize>: Sized {
    /// Model of the magnitude.
    spec fn magnitude_model(&self) -> T;

    /// Model of the normalized elements.
    spec fn unit_vector_model(&self) -> Seq<T>;

    /// The elements each divided by the magnitude. When the magnitude is
    /// zero the elements are divided by zero, which the element type must
    /// give a value to; callers who need a unit result must keep to vectors
    /// of magnitude other than zero.
    fn unit_vector(&self) -> (r: [T; DIMS])
        ensures
            r@ == self.unit_vector_model(),
    ;

    /// The magnitude: the square root of the sum of the squared elements.
    /// Not below zero on real elements whose squared sum does not wrap (see
    /// `lemma_magnitude_nonneg`).
    fn magnitude(&self) -> (r: T)
        ensures
            r == self.magnitude_model(),
    ;
}

impl<T: Sqrt, const DIMS: usize> MathVecTrait<T, DIMS> for MathVec<T, DIMS> {
    open spec fn magnitude_model(&self) -> T {
        magnitude_spec(self@)
    }

    open spec fn unit_vector_model(&self) -> Seq<T> {
        scale_div_spec(self@, magnitude_spec(self@))
    }

    fn unit_vector(&self) -> (r: [T; DIMS]) {
        let mag = self.magnitude();
        let mut data: [T; DIMS] = self.data;
        let mut m: usize = 0;
        while m < DIMS
            invariant
                m <= DIMS,
                mag == magnitude_spec(self@),
                data@.len() == DIMS,
                forall|j: int| 0 <= j < m ==> data@[j] == self@[j].div_spec(mag),
                forall|j: int| m <= j < DIMS ==> data@[j] == self@[j],
            decreases DIMS - m,
        {
            data[m] = data[m].div(mag);
            m = m + 1;
        }
        assert(data@ =~= scale_div_spec(self@, magnitude_spec(self@)));
        data
    }

    fn magnitude(&self) -> (r: T) {
        let squared: T = self.dot_product(*self);
        squared.sqrt()
    }
}

/// The zero vector's elements are all the element type's zero.
pub proof fn lemma_mathvec_zero<T: Zero + Copy, const DIMS: usize>()
    ensures
        MathVec::<T, DIMS>::zero_spec()@ =~= Seq::new(DIMS as nat, |i: int| T::zero_spec()),
{
}

/// Conversion from an array carries the array's elements over unchanged.
pub proof fn lemma_mathvec_from_array<T, const DIMS: usize>(data: [T; DIMS])
    ensures
        <MathVec<T, DIMS> as vstd::std_specs::convert::FromSpec<[T; DIMS]>>::from_spec(data)@
            == data@,
{
}

/// Whether the six element products that the cross product of `a` and `b`
/// forms are all real values of `T`.
pub open spec fn cross_products_real<T: Scalar>(a: Seq<T>, b: Seq<T>) -> bool {
    &&& a[1].mul_spec(b[2]).is_real()
    &&& a[2].mul_spec(b[1]).is_real()
    &&& a[2].mul_spec(b[0]).is_real()
    &&& a[0].mul_spec(b[2]).is_real()
    &&& a[0].mul_spec(b[1]).is_real()
    &&& a[1].mul_spec(b[0]).is_real()
}

/// Law: the cross product is antisymmetric. For vectors of real elements
/// whose cross-product terms are real, swapping the operands negates every
/// element of the result, as numbers.
pub proof fn lemma_cross_antisymmetric<T: Scalar>(a: Seq<T>, b: Seq<T>)
    requires
        a.len() == 3,
        b.len() == 3,
        forall|i: int| 0 <= i < 3 ==> (#[trigger] a[i]).is_real(),
        forall|i: int| 0 <= i < 3 ==> (#[trigger] b[i]).is_real(),
        cross_products_real(a, b),
    ensures
        forall|i: int|
            0 <= i < 3 ==> (#[trigger] cross_spec(a, b)[i]).eqv(cross_spec(b, a)[i].neg_spec()),
{
    T::law_mul_comm(b[1], a[2]);
    T::law_mul_comm(b[2], a[1]);
    T::law_mul_comm(b[2], a[0]);
    T::law_mul_comm(b[0], a[2]);
    T::law_mul_comm(b[0], a[1]);
    T::law_mul_comm(b[1], a[0]);
    T::law_neg_sub(a[2].mul_spec(b[1]), a[1].mul_spec(b[2]));
    T::law_neg_sub(a[0].mul_spec(b[2]), a[2].mul_spec(b[0]));
    T::law_neg_sub(a[1].mul_spec(b[0]), a[0].mul_spec(b[1]));
    T::law_eqv_sym(cross_spec(b, a)[0].neg_spec(), cross_spec(a, b)[0]);
    T::law_eqv_sym(cross_spec(b, a)[1].neg_spec(), cross_spec(a, b)[1]);
    T::law_eqv_sym(cross_spec(b, a)[2].neg_spec(), cross_spec(a, b)[2]);
}

/// Law: the dot product is symmetric on vectors of real elements.
pub proof fn lemma_dot_symmetric<T: Scalar>(a: Seq<T>, b: Seq<T>)
    requires
        a.len() == b.len(),
        forall|i: int| 0 <= i < a.len() ==> (#[trigger] a[i]).is_real(),
        forall|i: int| 0 <= i < b.len() ==> (#[trigger] b[i]).is_real(),
    ensures
        dot_spec(a, b) == dot_spec(b, a),
    decreases a.len(),
{
    if a.len() > 0 {
        lemma_dot_symmetric(a.drop_last(), b.drop_last());
        T::law_mul_comm(a.last(), b.last());
    }
}

/// Two vectors whose elements have pairwise equal squares have the same dot
/// product with themselves.
pub proof fn lemma_dot_squares_equal<T: Scalar>(u: Seq<T>, w: Seq<T>)
    requires
        u.len() == w.len(),
        forall|i: int|
            0 <= i < u.len() ==> (#[trigger] u[i]).mul_spec(u[i]) == w[i].mul_spec(w[i]),
    ensures
        dot_spec(u, u) == dot_spec(w, w),
    decreases u.len(),
{
    if u.len() > 0 {
        lemma_dot_squares_equal(u.drop_last(), w.drop_last());
    }
}

/// The squared sum under a dot product of a vector with itself is not below
/// zero, on real elements and a non-wrapping squared sum.
proof fn lemma_squared_sum_nonneg<T: Scalar>(v: Seq<T>)
    requires
        forall|i: int| 0 <= i < v.len() ==> (#[trigger] v[i]).is_real(),
        squared_sum_in_range(v),
    ensures
        T::zero_spec().le_spec(dot_spec(v, v)),
    decreases v.len(),
{
    if v.len() == 0 {
        T::law_zero_real();
        T::law_le_refl(T::zero_spec());
    } else {
        lemma_squared_sum_nonneg(v.drop_last());
        T::law_square_nonneg(v.last());
        T::law_add_nonneg(
            dot_spec(v.drop_last(), v.drop_last()),
            v.last().mul_spec(v.last()),
        );
    }
}

/// Law: the magnitude of a vector is not below zero, on real elements whose
/// squared sum does not wrap.
pub proof fn lemma_magnitude_nonneg<T: Sqrt>(v: Seq<T>)
    requires
        forall|i: int| 0 <= i < v.len() ==> (#[trigger] v[i]).is_real(),
        squared_sum_in_range(v),
    ensures
        T::zero_spec().le_spec(magnitude_spec(v)),
{
    lemma_squared_sum_nonneg(v);
    T::law_sqrt_nonneg(dot_spec(v, v));
}

/// On a trigonometric scalar, whose arithmetic never wraps, no squared sum
/// ever wraps.
proof fn lemma_trig_squared_sum_in_range<T: Trig>(v: Seq<T>)
    ensures
        squared_sum_in_range(v),
    decreases v.len(),
{
    if v.len() > 0 {
        lemma_trig_squared_sum_in_range::<T>(v.drop_last());
        T::law_ops_total(v.last(), v.last());
        T::law_ops_total(
            dot_spec(v.drop_last(), v.drop_last()),
            v.last().mul_spec(v.last()),
        );
    }
}

/// Law: on a trigonometric scalar the magnitude of any vector of real
/// elements is not below zero, with no further condition: such a scalar's
/// arithmetic never wraps.
pub proof fn lemma_magnitude_nonneg_trig<T: Trig + Sqrt>(v: Seq<T>)
    requires
        forall|i: int| 0 <= i < v.len() ==> (#[trigger] v[i]).is_real(),
    ensures
        T::zero_spec().le_spec(magnitude_spec(v)),
{
    lemma_trig_squared_sum_in_range::<T>(v);
    lemma_magnitude_nonneg(v);
}

} // verus!
