//! The typed façades, the dtype registry, and the two kinds of view.

use xtensor_rust::primitives::TensorPrimitive;
use xtensor_rust::{DType, DynArray, RsTensor, RsTensorI32, RsTensorU8};

fn tensor_from<T: Copy>(shape: Vec<usize>, data: Vec<T>) -> RsTensor<T> {
    let strides: Vec<isize> = {
        let mut s = vec![0isize; shape.len()];
        if !shape.iter().any(|&d| d == 0) {
            let mut acc: isize = 1;
            for i in (0..shape.len()).rev() {
                s[i] = acc;
                acc *= shape[i] as isize;
            }
        }
        s
    };
    RsTensor::new(DynArray { shape, strides, data }).unwrap()
}

#[test]
fn view_reports_registered_dtype_for_every_type() {
    assert_eq!(tensor_from(vec![1], vec![1u8]).view().dtype(), DType::UInt8);
    assert_eq!(tensor_from(vec![1], vec![1i8]).view().dtype(), DType::Int8);
    assert_eq!(tensor_from(vec![1], vec![1u16]).view().dtype(), DType::UInt16);
    assert_eq!(tensor_from(vec![1], vec![1i16]).view().dtype(), DType::Int16);
    assert_eq!(tensor_from(vec![1], vec![1u32]).view().dtype(), DType::UInt32);
    assert_eq!(tensor_from(vec![1], vec![1i32]).view().dtype(), DType::Int32);
    assert_eq!(tensor_from(vec![1], vec![1u64]).view().dtype(), DType::UInt64);
    assert_eq!(tensor_from(vec![1], vec![1i64]).view().dtype(), DType::Int64);
}

#[test]
fn registry_tags_match_view_tags() {
    assert_eq!(<u8 as TensorPrimitive>::dtype(), DType::UInt8);
    assert_eq!(<i8 as TensorPrimitive>::dtype(), DType::Int8);
    assert_eq!(<u16 as TensorPrimitive>::dtype(), DType::UInt16);
    assert_eq!(<i16 as TensorPrimitive>::dtype(), DType::Int16);
    assert_eq!(<u32 as TensorPrimitive>::dtype(), DType::UInt32);
    assert_eq!(<i32 as TensorPrimitive>::dtype(), DType::Int32);
    assert_eq!(<u64 as TensorPrimitive>::dtype(), DType::UInt64);
    assert_eq!(<i64 as TensorPrimitive>::dtype(), DType::Int64);
}

#[test]
fn dtype_ordinals_are_the_published_abi() {
    assert_eq!(DType::UInt8.ordinal(), 0);
    assert_eq!(DType::Int8.ordinal(), 1);
    assert_eq!(DType::UInt16.ordinal(), 2);
    assert_eq!(DType::Int16.ordinal(), 3);
    assert_eq!(DType::UInt32.ordinal(), 4);
    assert_eq!(DType::Int32.ordinal(), 5);
    assert_eq!(DType::UInt64.ordinal(), 6);
    assert_eq!(DType::Int64.ordinal(), 7);
    assert_eq!(DType::Float32.ordinal(), 8);
    assert_eq!(DType::Float64.ordinal(), 9);
}

#[test]
fn dtype_ordinal_round_trip() {
    let tags = [
        DType::UInt8,
        DType::Int8,
        DType::UInt16,
        DType::Int16,
        DType::UInt32,
        DType::Int32,
        DType::UInt64,
        DType::Int64,
        DType::Float32,
        DType::Float64,
    ];
    for tag in tags {
        assert_eq!(DType::from_ordinal(tag.ordinal()), Some(tag));
    }
    assert_eq!(DType::from_ordinal(10), None);
    assert_eq!(DType::from_ordinal(255), None);
}

#[test]
fn view_exposes_shape_and_buffer() {
    let t = tensor_from(vec![2, 2], vec![1u32, 2, 3, 4]);
    let v = t.view();
    assert_eq!(v.shape(), &[2, 2]);
    assert_eq!(v.as_slice(), &[1, 2, 3, 4]);
    // Several read-only views of one owner may coexist.
    let w = t.view();
    assert_eq!(w.as_slice(), v.as_slice());
}

#[test]
fn view_mut_checkout_writes_and_returns_owner() {
    let t = tensor_from(vec![3], vec![1i64, 2, 3]);
    // While the writable view exists, the owner is consumed, so no
    // read-only view of it can be live at the same time.
    let mut m = t.view_mut();
    assert_eq!(m.dtype(), DType::Int64);
    assert_eq!(m.shape(), &[3]);
    m.as_slice_mut()[1] = 20;
    let t = m.into_tensor();
    assert_eq!(t.as_slice(), &[1, 20, 3]);
    assert_eq!(t.shape(), &[3]);
}

#[test]
fn facade_round_trip_is_lossless() {
    let t = tensor_from(vec![2, 3], vec![1i32, 2, 3, 4, 5, 6]);
    let facade = RsTensorI32::from(t);
    assert_eq!(facade.shape(), &[2, 3]);
    assert_eq!(facade.as_slice(), &[1, 2, 3, 4, 5, 6]);
    let back = RsTensor::<i32>::from(facade);
    assert_eq!(back.shape(), &[2, 3]);
    assert_eq!(back.as_slice(), &[1, 2, 3, 4, 5, 6]);
}

#[test]
fn facade_methods_forward_to_inner_tensor() {
    let values: [u8; 6] = [1, 2, 3, 4, 5, 6];
    let mut facade = RsTensorU8::copy_from_ptr(&[2, 3], &values);
    assert_eq!(facade.shape(), &[2, 3]);
    assert_eq!(facade.as_slice(), &[1, 2, 3, 4, 5, 6]);
    facade.as_slice_mut()[5] = 60;
    assert_eq!(facade.as_slice(), &[1, 2, 3, 4, 5, 60]);
    let inner = RsTensor::<u8>::from(facade);
    assert_eq!(inner.as_slice(), &[1, 2, 3, 4, 5, 60]);
}
