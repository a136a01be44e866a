//! The primitive type registry: a compile-time mapping from each supported
//! scalar type to its runtime [`DType`] tag.

use vstd::prelude::*;
use crate::DType;

verus! {

/// A scalar type that may be the element type of a tensor crossing the
/// exchange boundary. The associated tag is what a view reports for a
/// buffer of this element type; readers on the other side reinterpret
/// bytes according to it, so it must match the actual element type.
pub trait TensorPrimitive: Sized {
    /// The tag this scalar type is registered under.
    spec fn dtype_spec() -> DType;

    /// Returns the registered tag.
    fn dtype() -> (r: DType)
        ensures
            r == Self::dtype_spec(),
    ;
}

impl TensorPrimitive for u8 {
    open spec fn dtype_spec() -> DType {
        DType::UInt8
    }

    fn dtype() -> (r: DType) {
        DType::UInt8
    }
}

impl TensorPrimitive for i8 {
    open spec fn dtype_spec() -> DType {
        DType::Int8
    }

    fn dtype() -> (r: DType) {
        DType::Int8
    }
}

impl TensorPrimitive for u16 {
    open spec fn dtype_spec() -> DType {
        DType::UInt16
    }

    fn dtype() -> (r: DType) {
        DType::UInt16
    }
}

impl TensorPrimitive for i16 {
    open spec fn dtype_spec() -> DType {
        DType::Int16
    }

    fn dtype() -> (r: DType) {
        DType::Int16
    }
}

impl TensorPrimitive for u32 {
    open spec fn dtype_spec() -> DType {
        DType::UInt32
    }

    fn dtype() -> (r: DType) {
        DType::UInt32
    }
}

impl TensorPrimitive for i32 {
    open spec fn dtype_spec() -> DType {
        DType::Int32
    }

    fn dtype() -> (r: DType) {
        DType::Int32
    }
}

impl TensorPrimitive for u64 {
    open spec fn dtype_spec() -> DType {
        DType::UInt64
    }

    fn dtype() -> (r: DType) {
        DType::UInt64
    }
}

impl TensorPrimitive for i64 {
    open spec fn dtype_spec() -> DType {
        DType::Int64
    }

    fn dtype() -> (r: DType) {
        DType::Int64
    }
}

} // verus!
