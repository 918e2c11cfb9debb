//! Rank-`RANK` tensors of `SIZE` elements: the storage layer behind the
//! higher-rank algebra. Only construction and storage-size indexing are part
//! of this design; higher-rank operations are out of its scope.
use vstd::prelude::*;

use crate::traits::number::Number;

verus! {

/// Error for tensors built from variable-length collections.
#[derive(Debug, Clone, Copy, PartialEq, Eq)]
pub enum InitTensorFromVecError {
    /// The element count does not fit the given dimensions.
    IncorrectVectorSize,
}

/// The number of storage cells that a dimension list asks for: the product of
/// the dimensions, with the empty product being one.
pub open spec fn storage_size_spec(dims: Seq<usize>) -> int
    decreases dims.len(),
{
    if dims.len() == 0 {
        1
    } else {
        storage_size_spec(dims.drop_last()) * dims.last()
    }
}

/// Whether every prefix product of the dimension list fits `usize`, so that
/// computing the storage size left to right cannot overflow.
pub open spec fn storage_size_in_range(dims: Seq<usize>) -> bool
    decreases dims.len(),
{
    if dims.len() == 0 {
        true
    } else {
        storage_size_in_range(dims.drop_last()) && storage_size_spec(dims) <= usize::MAX
    }
}

/// A tensor of rank `RANK` holding exactly `SIZE` elements of `T`: one cell
/// for every index tuple within its dimensions.
pub struct Tensor<T, const SIZE: usize, const RANK: usize> {
    data: Vec<T>,
    dimensions: [usize; RANK],
}

impl<T, const SIZE: usize, const RANK: usize> Tensor<T, SIZE, RANK> {
    /// Every tensor holds exactly as many elements as its dimensions ask for,
    /// which is also the type-level `SIZE`, and its dimension products fit
    /// `usize`.
    #[verifier::type_invariant]
    spec fn wf(self) -> bool {
        &&& storage_size_in_range(self.dimensions@)
        &&& self.data@.len() == storage_size_spec(self.dimensions@)
        &&& self.data@.len() == SIZE
    }

    /// The dimension list, as contracts see it.
    pub closed spec fn dims_spec(&self) -> Seq<usize> {
        self.dimensions@
    }

    /// The stored elements, as contracts see them.
    pub closed spec fn data_spec(&self) -> Seq<T> {
        self.data@
    }
}

impl<T: Number, const SIZE: usize, const RANK: usize> Tensor<T, SIZE, RANK> {
    /// The number of storage cells the tensor's dimensions ask for.
    pub fn storage_size(&self) -> (r: usize)
        ensures
            r as int == storage_size_spec(self.dims_spec()),
    {
        proof {
            use_type_invariant(self);
        }
        Self::storage_size2(&self.dimensions)
    }

    /// The number of storage cells that `dimensions` asks for: the product of
    /// the dimensions. The caller keeps every prefix product within `usize`;
    /// with that, the running product cannot overflow.
    fn storage_size2(dimensions: &[usize; RANK]) -> (r: usize)
        requires
            storage_size_in_range(dimensions@),
        ensures
            r as int == storage_size_spec(dimensions@),
    {
        let mut final_result: usize = 1;
        let mut i: usize = 0;
        while i < RANK
            invariant
                i <= RANK,
                storage_size_in_range(dimensions@),
                final_result as int == storage_size_spec(dimensions@.take(i as int)),
            decreases RANK - i,
        {
            proof {
                lemma_prefix_product_in_range(dimensions@, i as int);
                assert(dimensions@.take(i as int + 1).drop_last() =~= dimensions@.take(i as int));
            }
            final_result = final_result * dimensions[i];
            i = i + 1;
        }
        proof {
            assert(dimensions@.take(RANK as int) =~= dimensions@);
        }
        final_result
    }

    /// Builds a tensor from a flat element list and a dimension list. The
    /// element count must be exactly the dimensions' storage size, which in
    /// turn must be the type-level `SIZE`; any other count is rejected.
    pub fn from_vec(data: Vec<T>, dimensions: [usize; RANK]) -> (r: Result<
        Self,
        InitTensorFromVecError,
    >)
        requires
            storage_size_in_range(dimensions@),
        ensures
            match r {
                Ok(t) => {
                    &&& data@.len() == storage_size_spec(dimensions@)
                    &&& data@.len() == SIZE
                    &&& t.data_spec() == data@
                    &&& t.dims_spec() == dimensions@
                },
                Err(e) => {
                    &&& (data@.len() != storage_size_spec(dimensions@) || data@.len() != SIZE)
                    &&& e == InitTensorFromVecError::IncorrectVectorSize
                },
            },
    {
        let size = Self::storage_size2(&dimensions);

        if data.len() != size {
            return Err(InitTensorFromVecError::IncorrectVectorSize);
        }
        if data.len() != SIZE {
            return Err(InitTensorFromVecError::IncorrectVectorSize);
        }
        Ok(Self { data, dimensions })
    }
}

/// Every prefix product of an in-range dimension list is itself in range of
/// `usize`, and stepping the product by the next dimension stays in range.
proof fn lemma_prefix_product_in_range(dims: Seq<usize>, i: int)
    requires
        storage_size_in_range(dims),
        0 <= i < dims.len(),
    ensures
        0 <= storage_size_spec(dims.take(i)) * dims[i] <= usize::MAX,
        storage_size_spec(dims.take(i)) * dims[i] == storage_size_spec(dims.take(i + 1)),
    decreases dims.len(),
{
    assert(dims.take(i + 1).drop_last() =~= dims.take(i));
    lemma_product_nonneg(dims.take(i + 1));
    if i + 1 == dims.len() {
        assert(dims.take(i + 1) =~= dims);
    } else {
        lemma_prefix_product_in_range(dims.drop_last(), i);
        assert(dims.drop_last().take(i) =~= dims.take(i));
        assert(dims.drop_last().take(i + 1) =~= dims.take(i + 1));
    }
}

/// The product of a list of `usize` values is not negative.
proof fn lemma_product_nonneg(dims: Seq<usize>)
    ensures
        storage_size_spec(dims) >= 0,
    decreases dims.len(),
{
    if dims.len() > 0 {
        lemma_product_nonneg(dims.drop_last());
        vstd::arithmetic::mul::lemma_mul_nonnegative(
            storage_size_spec(dims.drop_last()),
            dims.last() as int,
        );
    }
}

} // verus!
