//! Construction, layout validation, slice access and the dense-array
//! round trip of the owned tensor.

use xtensor_rust::{DynArray, RsTensor};

#[test]
fn construct_standard_succeeds() {
    let arr = DynArray {
        shape: vec![2, 3],
        strides: vec![3, 1],
        data: vec![10i32, 11, 12, 13, 14, 15],
    };
    let t = RsTensor::new(arr).unwrap();
    assert_eq!(t.shape(), &[2, 3]);
    assert_eq!(t.as_slice(), &[10, 11, 12, 13, 14, 15]);
}

#[test]
fn construct_transposed_fails() {
    // The transpose of a 2x3 row-major array: same buffer, strides swapped.
    let arr = DynArray {
        shape: vec![3, 2],
        strides: vec![1, 3],
        data: vec![10i32, 11, 12, 13, 14, 15],
    };
    assert!(RsTensor::new(arr).is_err());
}

#[test]
fn construct_strided_slice_fails() {
    // Every other element of a buffer of six: stride 2, logical length 3.
    let arr = DynArray { shape: vec![3], strides: vec![2], data: vec![0i32, 1, 2, 3, 4, 5] };
    assert!(RsTensor::new(arr).is_err());
}

#[test]
fn construct_length_mismatch_fails() {
    let arr = DynArray { shape: vec![4], strides: vec![1], data: vec![1i64, 2, 3] };
    assert!(RsTensor::new(arr).is_err());
}

#[test]
fn construct_unit_dim_stride_unconstrained() {
    // An axis of size one never contributes an offset, so its stride is free.
    let arr = DynArray { shape: vec![1, 3], strides: vec![99, 1], data: vec![7u8, 8, 9] };
    let t = RsTensor::new(arr).unwrap();
    assert_eq!(t.shape(), &[1, 3]);
    assert_eq!(t.as_slice(), &[7, 8, 9]);
}

#[test]
fn construct_empty_array_any_strides() {
    // A zero dimension makes the array empty; strides are then irrelevant.
    let arr = DynArray { shape: vec![2, 0], strides: vec![-7, 5], data: Vec::<u16>::new() };
    let t = RsTensor::new(arr).unwrap();
    assert_eq!(t.shape(), &[2, 0]);
    assert_eq!(t.as_slice().len(), 0);
}

#[test]
fn mutation_through_slice_mut_is_visible() {
    let arr = DynArray { shape: vec![4], strides: vec![1], data: vec![0u32, 1, 2, 3] };
    let mut t = RsTensor::new(arr).unwrap();
    {
        let s = t.as_slice_mut();
        s[0] = 100;
        s[3] = 103;
    }
    assert_eq!(t.as_slice(), &[100, 1, 2, 103]);
}

#[test]
fn copy_from_ptr_known_values() {
    let values: [i32; 6] = [1, 2, 3, 4, 5, 6];
    let t = RsTensor::<i32>::copy_from_ptr(&[2, 3], &values);
    assert_eq!(t.shape(), &[2, 3]);
    assert_eq!(t.as_slice(), &[1, 2, 3, 4, 5, 6]);
}

#[test]
fn copy_from_ptr_takes_exactly_product_elements() {
    let values: [u8; 5] = [9, 8, 7, 6, 5];
    let t = RsTensor::<u8>::copy_from_ptr(&[3], &values);
    assert_eq!(t.shape(), &[3]);
    assert_eq!(t.as_slice(), &[9, 8, 7]);
}

#[test]
fn copy_from_ptr_zero_rank() {
    let values: [i64; 1] = [42];
    let t = RsTensor::<i64>::copy_from_ptr(&[], &values);
    assert_eq!(t.shape(), &[] as &[usize]);
    assert_eq!(t.as_slice(), &[42]);
}

#[test]
fn zero_rank_round_trip() {
    let arr = DynArray { shape: vec![], strides: vec![], data: vec![5i16] };
    let t = RsTensor::new(arr).unwrap();
    assert_eq!(t.shape().len(), 0);
    assert_eq!(t.as_slice(), &[5]);
    let back = t.into_array();
    assert_eq!(back.shape, Vec::<usize>::new());
    assert_eq!(back.strides, Vec::<isize>::new());
    assert_eq!(back.data, vec![5i16]);
    let again = RsTensor::new(back).unwrap();
    assert_eq!(again.as_slice(), &[5]);
}

#[test]
fn into_array_carries_dense_strides() {
    let arr = DynArray {
        shape: vec![2, 3, 4],
        strides: vec![12, 4, 1],
        data: (0u32..24).collect(),
    };
    let t = RsTensor::new(arr).unwrap();
    let out = t.into_array();
    assert_eq!(out.shape, vec![2, 3, 4]);
    assert_eq!(out.strides, vec![12, 4, 1]);
    assert_eq!(out.data, (0u32..24).collect::<Vec<u32>>());
    // A released tensor is a valid dense array: adopting it again succeeds.
    let t2 = RsTensor::new(out).unwrap();
    assert_eq!(t2.shape(), &[2, 3, 4]);
}

#[test]
fn into_array_empty_tensor_zero_strides() {
    let arr = DynArray { shape: vec![0, 4], strides: vec![4, 1], data: Vec::<u8>::new() };
    let t = RsTensor::new(arr).unwrap();
    let out = t.into_array();
    assert_eq!(out.strides, vec![0, 0]);
}

#[test]
fn layout_verdict_agrees_with_ndarray_standard() {
    let nd = ndarray::ArrayD::from_shape_vec(ndarray::IxDyn(&[2, 3]), vec![1i32, 2, 3, 4, 5, 6])
        .unwrap();
    assert!(nd.is_standard_layout());
    let shape = nd.shape().to_vec();
    let strides = nd.strides().to_vec();
    let (data, offset) = nd.into_raw_vec_and_offset();
    assert_eq!(offset, Some(0));
    let arr = DynArray { shape, strides, data };
    assert!(arr.is_standard_layout());
    let t = RsTensor::new(arr).unwrap();
    assert_eq!(t.as_slice(), &[1, 2, 3, 4, 5, 6]);
}

#[test]
fn layout_verdict_agrees_with_ndarray_transposed() {
    let nd = ndarray::ArrayD::from_shape_vec(ndarray::IxDyn(&[2, 3]), vec![1i32, 2, 3, 4, 5, 6])
        .unwrap();
    let flipped = nd.reversed_axes();
    assert!(!flipped.is_standard_layout());
    let shape = flipped.shape().to_vec();
    let strides = flipped.strides().to_vec();
    let (data, _offset) = flipped.into_raw_vec_and_offset();
    let arr = DynArray { shape, strides, data };
    assert!(!arr.is_standard_layout());
    assert!(RsTensor::new(arr).is_err());
}
