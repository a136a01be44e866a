//! The owned tensor: a contiguous, row-major buffer of one element type
//! together with its shape, validated at construction and kept dense for
//! its whole lifetime, so that a pointer and a length fully describe it.

use vstd::prelude::*;
use vstd::slice::slice_to_vec;
use crate::array::DynArray;
use crate::layout::{checked_product, dense_strides, shape_product};

verus! {

/// A dynamically-ranked tensor that owns its buffer. The buffer always
/// holds exactly the product of the dimension sizes, laid out dense and
/// row-major; a zero-rank tensor has an empty shape and one element.
pub struct RsTensor<T> {
    shape: Vec<usize>,
    data: Vec<T>,
}

impl<T> RsTensor<T> {
    /// The shape, as the ordered sequence of dimension sizes.
    pub closed spec fn shape_spec(self) -> Seq<usize> {
        self.shape@
    }

    /// The elements, in row-major order.
    pub closed spec fn data_spec(self) -> Seq<T> {
        self.data@
    }

    /// The contiguity invariant: the buffer holds exactly as many elements
    /// as the shape calls for. Every constructor establishes it and every
    /// operation preserves it.
    pub open spec fn wf(self) -> bool {
        self.data_spec().len() == shape_product(self.shape_spec())
    }
}

impl<T: Copy> RsTensor<T> {
    /// Adopts a dense-array representation as an owned tensor, succeeding
    /// exactly when the candidate is in standard dense row-major layout;
    /// any other layout is a recoverable validation failure, reported
    /// before anything observable happens.
    pub fn new(arr: DynArray<T>) -> (r: Result<Self, ()>)
        ensures
            r is Ok <==> arr.is_standard_spec(),
            r matches Ok(t) ==> t.shape_spec() == arr.shape@ && t.data_spec() == arr.data@
                && t.wf(),
    {
        if arr.is_standard_layout() {
            let DynArray { shape, strides: _, data } = arr;
            Ok(RsTensor { shape, data })
        } else {
            Err(())
        }
    }

    /// The shape as a borrowed sequence of dimension sizes.
    pub fn shape(&self) -> (r: &[usize])
        ensures
            r@ == self.shape_spec(),
    {
        self.shape.as_slice()
    }

    /// The full element buffer, read-only. Always available, since the
    /// contiguity invariant is structural: no tensor with another layout
    /// can be built.
    pub fn as_slice(&self) -> (r: &[T])
        ensures
            r@ == self.data_spec(),
    {
        self.data.as_slice()
    }

    /// The full element buffer, exclusive and writable. Writes through the
    /// returned buffer are the tensor's new contents: a later read sees
    /// them, with no hidden copy in between. The shape is untouched.
    pub fn as_slice_mut(&mut self) -> (r: &mut [T])
        ensures
            r@ == old(self).data_spec(),
            final(self).data_spec() == final(r)@,
            final(self).shape_spec() == old(self).shape_spec(),
    {
        self.data.as_mut_slice()
    }

    /// Builds a tensor of the given shape by a bounded copy out of a
    /// borrowed buffer, taking exactly the first `product(shape)` elements.
    /// The boundary layer that receives a raw address from the other
    /// runtime turns it into this borrowed buffer, so the count the caller
    /// vouches for is the buffer's length.
    pub fn copy_from_ptr(shape: &[usize], src: &[T]) -> (t: Self)
        requires
            shape_product(shape@) <= src@.len(),
        ensures
            t.shape_spec() == shape@,
            t.data_spec() == src@.take(shape_product(shape@) as int),
            t.wf(),
    {
        let src_len = src.len();
        let n: usize = match checked_product(shape) {
            Some(m) => m,
            None => {
                proof {
                    assert(false);
                }
                0
            },
        };
        let mut data: Vec<T> = Vec::new();
        let mut i: usize = 0;
        proof {
            assert(src@.take(0) =~= Seq::<T>::empty());
        }
        while i < n
            invariant
                n == shape_product(shape@),
                n <= src@.len(),
                0 <= i <= n,
                data@ == src@.take(i as int),
            decreases n - i,
        {
            let x = src[i];
            data.push(x);
            proof {
                assert(src@.take(i as int).push(src@[i as int]) =~= src@.take(i as int + 1));
            }
            i = i + 1;
        }
        RsTensor { shape: slice_to_vec(shape), data }
    }
}

impl<T> RsTensor<T> {
    /// Reassembles a tensor from parts the crate itself took out of one.
    pub(crate) fn from_parts(shape: Vec<usize>, data: Vec<T>) -> (t: Self)
        ensures
            t.shape_spec() == shape@,
            t.data_spec() == data@,
    {
        RsTensor { shape, data }
    }

    /// Takes the tensor apart into its shape and its buffer.
    pub(crate) fn into_parts(self) -> (r: (Vec<usize>, Vec<T>))
        ensures
            r.0@ == self.shape_spec(),
            r.1@ == self.data_spec(),
    {
        let RsTensor { shape, data } = self;
        (shape, data)
    }

    /// Releases the tensor back into the dense-array representation by
    /// reinterpretation: the same shape and the same buffer, now paired
    /// with the strides a freshly laid-out dense array of this shape
    /// carries. No element is copied or moved, and whenever the element
    /// count is one a host buffer can hold, the released representation
    /// passes the standard-layout validation, so adopting it back always
    /// succeeds.
    pub fn into_array(self) -> (r: DynArray<T>)
        requires
            self.wf(),
        ensures
            r.shape@ == self.shape_spec(),
            r.data@ == self.data_spec(),
            r.strides@ == dense_strides(self.shape_spec()),
            shape_product(self.shape_spec()) <= isize::MAX ==> r.is_standard_spec(),
    {
        proof {
            if shape_product(self.shape_spec()) <= isize::MAX {
                crate::layout::lemma_dense_strides_standard(self.shape@);
            }
        }
        let ghost gshape = self.shape@;
        let len = self.shape.len();
        let data_len = self.data.len();
        let n: usize = match checked_product(self.shape.as_slice()) {
            Some(m) => m,
            None => {
                proof {
                    assert(false);
                }
                0
            },
        };
        let mut strides: Vec<isize> = Vec::new();
        let mut j: usize = 0;
        while j < len
            invariant
                0 <= j <= len,
                strides@.len() == j,
                forall|k: int| 0 <= k < j ==> strides@[k] == 0isize,
            decreases len - j,
        {
            strides.push(0isize);
            j = j + 1;
        }
        if n != 0 {
            let mut acc: usize = 1;
            let mut i: usize = len;
            proof {
                assert(gshape.skip(len as int) =~= Seq::<usize>::empty());
                crate::layout::lemma_product_nonzero(gshape);
            }
            while i > 0
                invariant
                    len == gshape.len(),
                    strides@.len() == len,
                    0 <= i <= len,
                    n == shape_product(gshape),
                    n != 0,
                    self.shape@ == gshape,
                    forall|k: int| 0 <= k < gshape.len() ==> gshape[k] != 0,
                    acc == shape_product(gshape.skip(i as int)),
                    forall|k: int|
                        i <= k < len ==> strides@[k] == (crate::layout::standard_stride(
                            gshape,
                            k,
                        ) as isize),
                decreases i,
            {
                i = i - 1;
                proof {
                    crate::layout::lemma_product_skip_unfold(gshape, i as int);
                    crate::layout::lemma_suffix_product_le(gshape, i as int + 1);
                    assert(shape_product(gshape.skip(i as int + 1)) <= n);
                }
                strides[i] = acc as isize;
                let d = self.shape[i];
                proof {
                    crate::layout::lemma_suffix_product_le(gshape, i as int);
                    assert((acc as nat) * (d as nat) == shape_product(gshape.skip(i as int)))
                        by (nonlinear_arith)
                        requires
                            shape_product(gshape.skip(i as int)) == (gshape[i as int] as nat)
                                * shape_product(gshape.skip(i as int + 1)),
                            acc == shape_product(gshape.skip(i as int + 1)),
                            d == gshape[i as int],
                    ;
                }
                acc = acc * d;
            }
        }
        proof {
            assert(strides@ =~= dense_strides(gshape));
        }
        let RsTensor { shape, data } = self;
        DynArray { shape, strides, data }
    }
}

} // verus!
