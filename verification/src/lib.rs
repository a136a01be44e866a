//! A typed, zero-copy tensor exchange layer: owned dense tensors, per-type
//! runtime tags, borrowed views, and bounded copy-in construction.
//!
//! The crate owns contiguous, row-major buffers described by a shape, and
//! validates at construction that any incoming dense-array representation
//! really has that layout.

use vstd::prelude::*;

pub mod array;
pub mod facade;
pub mod layout;
pub mod primitives;
pub mod tensor;
pub mod view;

pub use array::DynArray;
pub use facade::{
    RsTensorI16, RsTensorI32, RsTensorI64, RsTensorI8, RsTensorU16, RsTensorU32, RsTensorU64,
    RsTensorU8,
};
pub use tensor::RsTensor;
pub use view::{TensorView, TensorViewMut};

verus! {

/// Runtime tag identifying the element type of a buffer that crosses the
/// exchange boundary. Both sides of the boundary agree on the
/// ordinal-to-type mapping; it must never be reordered once published.
#[derive(Clone, Copy, PartialEq, Eq, Structural, Debug)]
pub enum DType {
    UInt8,
    Int8,
    UInt16,
    Int16,
    UInt32,
    Int32,
    UInt64,
    Int64,
    Float32,
    Float64,
}

impl DType {
    /// The ordinal under which this tag is transmitted across the boundary.
    pub open spec fn ordinal_spec(self) -> u8 {
        match self {
            DType::UInt8 => 0,
            DType::Int8 => 1,
            DType::UInt16 => 2,
            DType::Int16 => 3,
            DType::UInt32 => 4,
            DType::Int32 => 5,
            DType::UInt64 => 6,
            DType::Int64 => 7,
            DType::Float32 => 8,
            DType::Float64 => 9,
        }
    }

    /// The tag a received ordinal stands for, if any.
    pub open spec fn from_ordinal_spec(ord: u8) -> Option<DType> {
        match ord {
            0u8 => Some(DType::UInt8),
            1u8 => Some(DType::Int8),
            2u8 => Some(DType::UInt16),
            3u8 => Some(DType::Int16),
            4u8 => Some(DType::UInt32),
            5u8 => Some(DType::Int32),
            6u8 => Some(DType::UInt64),
            7u8 => Some(DType::Int64),
            8u8 => Some(DType::Float32),
            9u8 => Some(DType::Float64),
            _ => None,
        }
    }

    pub fn ordinal(self) -> (r: u8)
        ensures
            r == self.ordinal_spec(),
    {
        match self {
            DType::UInt8 => 0,
            DType::Int8 => 1,
            DType::UInt16 => 2,
            DType::Int16 => 3,
            DType::UInt32 => 4,
            DType::Int32 => 5,
            DType::UInt64 => 6,
            DType::Int64 => 7,
            DType::Float32 => 8,
            DType::Float64 => 9,
        }
    }

    pub fn from_ordinal(ord: u8) -> (r: Option<DType>)
        ensures
            r == DType::from_ordinal_spec(ord),
    {
        match ord {
            0u8 => Some(DType::UInt8),
            1u8 => Some(DType::Int8),
            2u8 => Some(DType::UInt16),
            3u8 => Some(DType::Int16),
            4u8 => Some(DType::UInt32),
            5u8 => Some(DType::Int32),
            6u8 => Some(DType::UInt64),
            7u8 => Some(DType::Int64),
            8u8 => Some(DType::Float32),
            9u8 => Some(DType::Float64),
            _ => None,
        }
    }
}

/// The ordinal encoding is an agreement between two runtimes: decoding the
/// ordinal of any tag yields that tag back, so the mapping is injective.
pub proof fn lemma_ordinal_roundtrip(d: DType)
    ensures
        DType::from_ordinal_spec(d.ordinal_spec()) == Some(d),
{
}

} // verus!
