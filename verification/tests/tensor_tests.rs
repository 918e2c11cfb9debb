use geomath::tensor::{InitTensorFromVecError, Tensor};

#[test]
fn from_vec_accepts_matching_size() {
    let t: Tensor<i32, 6, 2> = Tensor::from_vec(vec![1, 2, 3, 4, 5, 6], [2, 3]).unwrap();

    assert_eq!(t.storage_size(), 6);
}

#[test]
fn from_vec_rejects_wrong_element_count() {
    let r: Result<Tensor<i32, 6, 2>, _> = Tensor::from_vec(vec![1, 2, 3], [2, 3]);

    assert!(matches!(r, Err(InitTensorFromVecError::IncorrectVectorSize)));
}

#[test]
fn from_vec_rejects_wrong_type_level_size() {
    let r: Result<Tensor<i32, 4, 2>, _> = Tensor::from_vec(vec![1, 2, 3, 4, 5, 6], [2, 3]);

    assert!(matches!(r, Err(InitTensorFromVecError::IncorrectVectorSize)));
}

#[test]
fn storage_size_is_dimension_product() {
    let t: Tensor<i32, 24, 3> = Tensor::from_vec((0..24).collect(), [2, 3, 4]).unwrap();

    assert_eq!(t.storage_size(), 24);
}

#[test]
fn rank_zero_tensor_holds_one_element() {
    let t: Tensor<i32, 1, 0> = Tensor::from_vec(vec![42], []).unwrap();

    assert_eq!(t.storage_size(), 1);
}
