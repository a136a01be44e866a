//! The dense-array representation a tensor is constructed from: a shape,
//! candidate strides, and the underlying element buffer, all as plain
//! values. This is the form in which array data arrives from a generic
//! numeric library; nothing about it is trusted until it is validated.

use vstd::prelude::*;
use crate::layout::{
    checked_product, layout_is_standard, lemma_product_nonzero, lemma_product_pos,
    lemma_product_skip_unfold, lemma_product_split, lemma_suffix_product_le, shape_product,
    standard_stride,
};

verus! {

/// A dynamically-ranked dense array candidate: `shape[i]` is the size of
/// axis `i`, `strides[i]` the element offset one step along axis `i` jumps,
/// and `data` the underlying buffer. Any combination of the three can be
/// represented; [`DynArray::is_standard_layout`] decides whether it really
/// is the standard dense row-major form a tensor requires.
pub struct DynArray<T> {
    pub shape: Vec<usize>,
    pub strides: Vec<isize>,
    pub data: Vec<T>,
}

impl<T> DynArray<T> {
    /// The standard-layout condition: one stride per axis, a buffer that
    /// holds exactly as many elements as the shape calls for, and strides
    /// that (for non-empty arrays) are the dense row-major ones.
    pub open spec fn is_standard_spec(self) -> bool {
        &&& layout_is_standard(self.shape@, self.strides@)
        &&& self.data@.len() == shape_product(self.shape@)
    }

    /// Decides whether this array is in standard dense row-major layout,
    /// mirroring the layout check a generic dense-array library performs:
    /// an empty array passes outright, an axis of size one is never
    /// constrained, and every other axis must carry the standard stride.
    pub fn is_standard_layout(&self) -> (r: bool)
        ensures
            r == self.is_standard_spec(),
    {
        if self.strides.len() != self.shape.len() {
            return false;
        }
        let dlen = self.data.len();
        let n = match checked_product(self.shape.as_slice()) {
            Some(n) => n,
            None => {
                return false;
            },
        };
        if dlen != n {
            return false;
        }
        if n == 0 {
            return true;
        }
        proof {
            lemma_product_nonzero(self.shape@);
        }
        let len = self.shape.len();
        let mut acc: usize = 1;
        let mut i: usize = len;
        proof {
            assert(self.shape@.skip(len as int) =~= Seq::<usize>::empty());
        }
        while i > 0
            invariant
                len == self.shape@.len(),
                len == self.strides@.len(),
                0 <= i <= len,
                n == shape_product(self.shape@),
                n != 0,
                forall|j: int| 0 <= j < len ==> self.shape@[j] != 0,
                acc == shape_product(self.shape@.skip(i as int)),
                forall|j: int|
                    i <= j < len ==> self.shape@[j] == 1 || self.strides@[j] as int
                        == standard_stride(self.shape@, j) as int,
            decreases i,
        {
            i = i - 1;
            let d = self.shape[i];
            proof {
                lemma_product_skip_unfold(self.shape@, i as int);
            }
            if d != 1 {
                let s = self.strides[i];
                if s < 0 {
                    return false;
                }
                if (s as usize) != acc {
                    return false;
                }
            }
            proof {
                lemma_suffix_product_le(self.shape@, i as int);
                assert((acc as nat) * (d as nat) == shape_product(self.shape@.skip(i as int)))
                    by (nonlinear_arith)
                    requires
                        shape_product(self.shape@.skip(i as int)) == (
                        self.shape@[i as int] as nat) * shape_product(
                            self.shape@.skip(i as int + 1),
                        ),
                        acc == shape_product(self.shape@.skip(i as int + 1)),
                        d == self.shape@[i as int],
                ;
            }
            acc = acc * d;
        }
        true
    }
}

} // verus!
