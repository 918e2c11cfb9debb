use geomath::tensor::InitTensorFromVecError;
use geomath::traits::number::Zero;
use geomath::traits::scalar::Scalar;
use geomath::vector::MathVec;

#[test]
fn cross_product() {
    let a = MathVec::new([1, 2, 3]);
    let b = MathVec::new([4, 5, 6]);

    assert_eq!(a.cross_product(b), MathVec::new([-3, 6, -3]));
}

#[test]
fn cross_product_antisymmetric() {
    let a = MathVec::new([1, 2, 3]);
    let b = MathVec::new([4, 5, 6]);

    let ab = a.cross_product(b);
    let ba = b.cross_product(a);
    assert_eq!(ab, ba.scale_mul(-1));
}

#[test]
fn dot_product_symmetric() {
    let a = MathVec::new([1, 2, 3]);
    let b = MathVec::new([4, 5, 6]);

    assert_eq!(a.dot_product(b), 32);
    assert_eq!(b.dot_product(a), 32);
}

#[test]
fn add_and_sub_are_elementwise() {
    let a = MathVec::new([1, 2, 3]);
    let b = MathVec::new([4, 5, 6]);

    assert_eq!(a.add(b), MathVec::new([5, 7, 9]));
    assert_eq!(b.sub(a), MathVec::new([3, 3, 3]));
}

#[test]
fn scaling_is_elementwise() {
    let a = MathVec::new([2, 4, 6]);

    assert_eq!(a.scale_mul(3), MathVec::new([6, 12, 18]));
    assert_eq!(a.scale_div(2), MathVec::new([1, 2, 3]));
}

#[test]
fn division_by_zero_is_zero() {
    let a = MathVec::new([2, 4, 6]);

    assert_eq!(a.scale_div(0), MathVec::new([0, 0, 0]));
}

#[test]
fn add_dim_appends() {
    let a = MathVec::new([1, 2]);
    let b: MathVec<i32, 3> = a.add_dim(7);

    assert_eq!(b, MathVec::new([1, 2, 7]));
}

#[test]
fn data_returns_elements() {
    let a = MathVec::new([9, 8, 7]);

    assert_eq!(a.data(), &[9, 8, 7]);
}

#[test]
fn from_array_conversion() {
    let a: MathVec<i32, 3> = MathVec::from([1, 2, 3]);

    assert_eq!(a, MathVec::new([1, 2, 3]));
}

#[test]
fn zero_vector() {
    let z: MathVec<i32, 4> = MathVec::zero();

    assert_eq!(z, MathVec::new([0, 0, 0, 0]));
}

#[test]
fn tuple_conversions_keep_the_order() {
    assert_eq!(MathVec::new([5]).into_tuple(), (5,));
    assert_eq!(MathVec::new([5, 6]).into_tuple(), (5, 6));
    assert_eq!(MathVec::new([5, 6, 7]).into_tuple(), (5, 6, 7));
    assert_eq!(MathVec::<i32, 1>::from_tuple((5,)), MathVec::new([5]));
    assert_eq!(MathVec::<i32, 2>::from_tuple((5, 6)), MathVec::new([5, 6]));
    assert_eq!(MathVec::<i32, 3>::from_tuple((5, 6, 7)), MathVec::new([5, 6, 7]));
}

#[test]
fn from_collection_size_checked() {
    let ok: Result<MathVec<i32, 3>, _> = MathVec::from_collection(vec![1, 2, 3]);
    assert_eq!(ok.unwrap(), MathVec::new([1, 2, 3]));

    let err: Result<MathVec<i32, 3>, _> = MathVec::from_collection(vec![1, 2]);
    assert_eq!(err.unwrap_err(), InitTensorFromVecError::IncorrectVectorSize);
}

#[test]
fn integer_scalar_arithmetic_is_total() {
    assert_eq!(Scalar::add(i32::MAX, 1), i32::MIN);
    assert_eq!(Scalar::sub(7i32, 9), -2);
    assert_eq!(Scalar::div(5i32, 0), 0);
    assert_eq!(Scalar::div(i32::MIN, -1), i32::MIN);
    assert_eq!(Scalar::neg(i32::MIN), i32::MIN);
    assert_eq!(Scalar::neg(4i32), -4);
}
