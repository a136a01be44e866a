//! Non-owning descriptors of a tensor's buffer: a read-only [`TensorView`]
//! that borrows the owner, and an exclusive [`TensorViewMut`] that checks
//! the owner out. Either carries the shape, the element type's runtime
//! tag, and the buffer itself, so the receiving side can reinterpret the
//! elements without a copy.
//!
//! Exclusivity is enforced by ownership: a [`TensorView`] holds a shared
//! borrow of the tensor, while [`RsTensor::view_mut`] consumes the tensor,
//! so no reader can exist while a writer is live and a writer cannot be
//! created while any view of the same owner is still held.

use vstd::prelude::*;
use crate::DType;
use crate::primitives::TensorPrimitive;
use crate::tensor::RsTensor;

verus! {

impl<T: Copy + TensorPrimitive> RsTensor<T> {
    /// Hands out a read-only view of this tensor: its shape, its buffer,
    /// and the runtime tag registered for the element type. No allocation
    /// and no copy; the view lives only as long as this borrow.
    pub fn view(&self) -> (v: TensorView<T>)
        ensures
            v.shape_spec() == self.shape_spec(),
            v.data_spec() == self.data_spec(),
            v.dtype_spec() == T::dtype_spec(),
    {
        TensorView { shape: self.shape(), data: self.as_slice(), dtype: T::dtype() }
    }

    /// Checks the tensor out as a writable view carrying the same shape,
    /// the same buffer and the registered tag. Consuming the owner makes
    /// the writer exclusive: no view of this tensor can be live at the
    /// same time, and the owner comes back only through
    /// [`TensorViewMut::into_tensor`]. The storage is moved, not copied.
    pub fn view_mut(self) -> (v: TensorViewMut<T>)
        ensures
            v.shape_spec() == self.shape_spec(),
            v.data_spec() == self.data_spec(),
            v.dtype_spec() == T::dtype_spec(),
    {
        let (shape, data) = self.into_parts();
        TensorViewMut { shape, data, dtype: T::dtype() }
    }
}

/// A read-only view: shape, runtime tag and borrowed buffer. Valid only
/// as long as the owning tensor is borrowed; the tag always matches the
/// buffer's actual element type, because only [`RsTensor::view`] can
/// produce one.
pub struct TensorView<'a, T> {
    pub(crate) shape: &'a [usize],
    pub(crate) data: &'a [T],
    pub(crate) dtype: DType,
}

impl<'a, T> TensorView<'a, T> {
    /// The shape of the viewed tensor.
    pub closed spec fn shape_spec(self) -> Seq<usize> {
        self.shape@
    }

    /// The viewed elements, in row-major order.
    pub closed spec fn data_spec(self) -> Seq<T> {
        self.data@
    }

    /// The runtime tag the view reports for its element type.
    pub closed spec fn dtype_spec(self) -> DType {
        self.dtype
    }

    pub fn shape(&self) -> (r: &[usize])
        ensures
            r@ == self.shape_spec(),
    {
        self.shape
    }

    pub fn as_slice(&self) -> (r: &[T])
        ensures
            r@ == self.data_spec(),
    {
        self.data
    }

    pub fn dtype(&self) -> (r: DType)
        ensures
            r == self.dtype_spec(),
    {
        self.dtype
    }
}

/// A writable view: the tensor's shape, tag and buffer, checked out with
/// exclusive ownership. While it exists the owner is gone, so there is
/// exactly one writer and no concurrent reader; [`TensorViewMut::into_tensor`]
/// hands the storage back unchanged but for the writes made through the
/// view. Checking out and handing back move the buffers; nothing is
/// copied or reallocated.
pub struct TensorViewMut<T> {
    pub(crate) shape: Vec<usize>,
    pub(crate) data: Vec<T>,
    pub(crate) dtype: DType,
}

impl<T> TensorViewMut<T> {
    /// The shape of the checked-out tensor.
    pub closed spec fn shape_spec(self) -> Seq<usize> {
        self.shape@
    }

    /// The elements, in row-major order, including writes made so far.
    pub closed spec fn data_spec(self) -> Seq<T> {
        self.data@
    }

    /// The runtime tag the view reports for its element type.
    pub closed spec fn dtype_spec(self) -> DType {
        self.dtype
    }

    pub fn shape(&self) -> (r: &[usize])
        ensures
            r@ == self.shape_spec(),
    {
        self.shape.as_slice()
    }

    pub fn as_slice(&self) -> (r: &[T])
        ensures
            r@ == self.data_spec(),
    {
        self.data.as_slice()
    }

    /// The writable buffer. Writes through it become the view's contents,
    /// and the shape and tag stay as they were.
    pub fn as_slice_mut(&mut self) -> (r: &mut [T])
        ensures
            r@ == old(self).data_spec(),
            final(self).data_spec() == final(r)@,
            final(self).shape_spec() == old(self).shape_spec(),
            final(self).dtype_spec() == old(self).dtype_spec(),
    {
        self.data.as_mut_slice()
    }

    pub fn dtype(&self) -> (r: DType)
        ensures
            r == self.dtype_spec(),
    {
        self.dtype
    }

    /// Hands ownership back: the resulting tensor has the view's shape and
    /// exactly the elements the view holds now. The storage is moved, not
    /// copied, so the round trip through a checked-out view is lossless.
    pub fn into_tensor(self) -> (t: RsTensor<T>)
        ensures
            t.shape_spec() == self.shape_spec(),
            t.data_spec() == self.data_spec(),
    {
        let TensorViewMut { shape, data, dtype: _ } = self;
        RsTensor::from_parts(shape, data)
    }
}

} // verus!
