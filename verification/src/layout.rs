//! The memory-layout model: shape products and standard (dense, row-major)
//! strides, together with the lemmas the layout validation rests on.

use vstd::prelude::*;

verus! {

/// The number of elements a tensor of this shape holds: the product of all
/// dimension sizes. A zero-rank shape has exactly one element.
pub open spec fn shape_product(s: Seq<usize>) -> nat
    decreases s.len(),
{
    if s.len() == 0 {
        1
    } else {
        (s[0] as nat) * shape_product(s.skip(1))
    }
}

/// The stride of axis `i` in the standard dense row-major layout: the
/// number of elements one step along axis `i` jumps over, which is the
/// product of all later dimension sizes.
pub open spec fn standard_stride(shape: Seq<usize>, i: int) -> nat {
    shape_product(shape.skip(i + 1))
}

/// Whether `strides` describe the standard dense row-major layout for
/// `shape`. An empty array (some dimension of size zero) is standard under
/// any strides, and an axis of size one places no constraint on its stride,
/// since neither ever contributes an offset.
pub open spec fn layout_is_standard(shape: Seq<usize>, strides: Seq<isize>) -> bool {
    &&& strides.len() == shape.len()
    &&& (shape_product(shape) == 0 || (forall|i: int|
        0 <= i < shape.len() ==> shape[i] == 1 || strides[i] as int == standard_stride(
            shape,
            i,
        ) as int))
}

/// The strides a freshly laid-out dense array of this shape carries:
/// the standard strides, or all zeros when the array is empty.
pub open spec fn dense_strides(shape: Seq<usize>) -> Seq<isize> {
    Seq::new(
        shape.len(),
        |i: int|
            if shape_product(shape) == 0 {
                0isize
            } else {
                standard_stride(shape, i) as isize
            },
    )
}

/// The product over a shape splits at any cut point into the product over
/// the prefix times the product over the suffix.
pub proof fn lemma_product_split(s: Seq<usize>, i: int)
    requires
        0 <= i <= s.len(),
    ensures
        shape_product(s) == shape_product(s.take(i)) * shape_product(s.skip(i)),
    decreases i,
{
    if i == 0 {
        assert(s.take(0) =~= Seq::<usize>::empty());
        assert(s.skip(0) =~= s);
        assert(shape_product(s.take(0)) == 1);
        assert(shape_product(s) == shape_product(s.take(i)) * shape_product(s.skip(i)))
            by (nonlinear_arith)
            requires
                i == 0,
                shape_product(s.take(0)) == 1,
                shape_product(s.skip(0)) == shape_product(s),
        ;
    } else {
        lemma_product_split(s.skip(1), i - 1);
        assert(s.take(i).skip(1) =~= s.skip(1).take(i - 1));
        assert(s.skip(i) =~= s.skip(1).skip(i - 1));
        let s0 = s[0] as nat;
        let a = shape_product(s.skip(1).take(i - 1));
        let b = shape_product(s.skip(1).skip(i - 1));
        assert(s.take(i)[0] == s[0]);
        assert(shape_product(s.take(i)) == s0 * a);
        assert(shape_product(s.skip(i)) == b);
        assert(shape_product(s) == s0 * shape_product(s.skip(1)));
        assert(shape_product(s) == shape_product(s.take(i)) * shape_product(s.skip(i)))
            by (nonlinear_arith)
            requires
                shape_product(s) == s0 * shape_product(s.skip(1)),
                shape_product(s.skip(1)) == a * b,
                shape_product(s.take(i)) == s0 * a,
                shape_product(s.skip(i)) == b,
        ;
    }
}

/// A shape without zero dimensions has a positive product.
pub proof fn lemma_product_pos(s: Seq<usize>)
    requires
        forall|j: int| 0 <= j < s.len() ==> s[j] != 0,
    ensures
        shape_product(s) >= 1,
    decreases s.len(),
{
    if s.len() > 0 {
        lemma_product_pos(s.skip(1));
        let s0 = s[0] as nat;
        let b = shape_product(s.skip(1));
        assert(shape_product(s) >= 1) by (nonlinear_arith)
            requires
                shape_product(s) == s0 * b,
                s0 >= 1,
                b >= 1,
        ;
    }
}

/// A zero dimension anywhere makes the product zero.
pub proof fn lemma_product_zero(s: Seq<usize>, i: int)
    requires
        0 <= i < s.len(),
        s[i] == 0,
    ensures
        shape_product(s) == 0,
{
    lemma_product_split(s, i);
    lemma_product_skip_unfold(s, i);
    assert(shape_product(s.skip(i)) == 0) by (nonlinear_arith)
        requires
            shape_product(s.skip(i)) == (s[i] as nat) * shape_product(s.skip(i + 1)),
            s[i] == 0,
    ;
    assert(shape_product(s) == 0) by (nonlinear_arith)
        requires
            shape_product(s) == shape_product(s.take(i)) * shape_product(s.skip(i)),
            shape_product(s.skip(i)) == 0,
    ;
}

/// Conversely, a non-zero product rules out zero dimensions.
pub proof fn lemma_product_nonzero(s: Seq<usize>)
    requires
        shape_product(s) != 0,
    ensures
        forall|j: int| 0 <= j < s.len() ==> s[j] != 0,
{
    assert forall|j: int| 0 <= j < s.len() implies s[j] != 0 by {
        if s[j] == 0 {
            lemma_product_zero(s, j);
        }
    }
}

/// Peeling one axis off the front of a suffix: the product over
/// `s.skip(i)` is `s[i]` times the product over `s.skip(i + 1)`.
pub proof fn lemma_product_skip_unfold(s: Seq<usize>, i: int)
    requires
        0 <= i < s.len(),
    ensures
        shape_product(s.skip(i)) == (s[i] as nat) * shape_product(s.skip(i + 1)),
{
    assert(s.skip(i).skip(1) =~= s.skip(i + 1));
    assert(s.skip(i)[0] == s[i]);
}

/// In a shape without zero dimensions, the product over any suffix is
/// bounded by the product over the whole shape.
pub proof fn lemma_suffix_product_le(s: Seq<usize>, i: int)
    requires
        0 <= i <= s.len(),
        forall|j: int| 0 <= j < s.len() ==> s[j] != 0,
    ensures
        shape_product(s.skip(i)) <= shape_product(s),
{
    lemma_product_split(s, i);
    lemma_product_pos(s.take(i));
    let a = shape_product(s.take(i));
    let b = shape_product(s.skip(i));
    assert(shape_product(s.skip(i)) <= shape_product(s)) by (nonlinear_arith)
        requires
            shape_product(s) == a * b,
            a >= 1,
            b == shape_product(s.skip(i)),
    ;
}

/// The standard strides themselves satisfy the standard-layout check, so a
/// freshly laid-out dense array is always accepted back. The bound keeps
/// every stride representable, as any buffer addressable by the host does.
pub proof fn lemma_dense_strides_standard(shape: Seq<usize>)
    requires
        shape_product(shape) <= isize::MAX,
    ensures
        layout_is_standard(shape, dense_strides(shape)),
{
    if shape_product(shape) != 0 {
        lemma_product_nonzero(shape);
        assert forall|i: int|
            0 <= i < shape.len() implies shape[i] == 1 || dense_strides(shape)[i] as int
            == standard_stride(shape, i) as int by {
            lemma_suffix_product_le(shape, i + 1);
        }
    }
}

/// Computes the number of elements a shape calls for, reporting `None`
/// when that count exceeds what a length can hold.
pub fn checked_product(shape: &[usize]) -> (r: Option<usize>)
    ensures
        match r {
            Some(n) => n == shape_product(shape@),
            None => shape_product(shape@) > usize::MAX,
        },
{
    let len = shape.len();
    let mut k: usize = 0;
    while k < len
        invariant
            len == shape@.len(),
            0 <= k <= len,
            forall|j: int| 0 <= j < k ==> shape@[j] != 0,
        decreases len - k,
    {
        if shape[k] == 0 {
            proof {
                lemma_product_zero(shape@, k as int);
            }
            return Some(0);
        }
        k = k + 1;
    }
    let mut acc: usize = 1;
    let mut i: usize = 0;
    proof {
        assert(shape@.take(0) =~= Seq::<usize>::empty());
    }
    while i < len
        invariant
            len == shape@.len(),
            0 <= i <= len,
            forall|j: int| 0 <= j < len ==> shape@[j] != 0,
            acc == shape_product(shape@.take(i as int)),
        decreases len - i,
    {
        let d = shape[i];
        proof {
            lemma_product_split(shape@, i as int);
            lemma_product_skip_unfold(shape@, i as int);
            lemma_product_pos(shape@.skip(i as int + 1));
            let p = shape_product(shape@.take(i as int));
            let q = shape_product(shape@.skip(i as int + 1));
            assert(shape_product(shape@) == p * ((d as nat) * q)) by {
                assert(shape_product(shape@.skip(i as int)) == (d as nat) * q);
            }
            assert(p * ((d as nat) * q) == (p * (d as nat)) * q) by (nonlinear_arith);
            assert(q >= 1 ==> p * (d as nat) <= (p * (d as nat)) * q) by (nonlinear_arith);
            assert(shape@.take(i as int + 1) =~= shape@.take(i as int).push(shape@[i as int]));
            lemma_product_push(shape@.take(i as int), shape@[i as int]);
        }
        match acc.checked_mul(d) {
            Some(next) => {
                acc = next;
            },
            None => {
                return None;
            },
        }
        i = i + 1;
    }
    proof {
        assert(shape@.take(len as int) =~= shape@);
    }
    Some(acc)
}

/// Whether `idx` is a valid index tuple for `shape`: one coordinate per
/// axis, each within its dimension.
pub open spec fn index_in_bounds(shape: Seq<usize>, idx: Seq<usize>) -> bool {
    &&& idx.len() == shape.len()
    &&& (forall|j: int| 0 <= j < idx.len() ==> idx[j] < shape[j])
}

/// The element offset the standard layout assigns to an index tuple:
/// each coordinate times the standard stride of its axis, summed. The
/// recursion peels the leading axis, whose standard stride is the
/// product of all later dimension sizes.
pub open spec fn row_major_offset(shape: Seq<usize>, idx: Seq<usize>) -> nat
    decreases idx.len(),
{
    if idx.len() == 0 {
        0
    } else {
        (idx[0] as nat) * shape_product(shape.skip(1)) + row_major_offset(
            shape.skip(1),
            idx.skip(1),
        )
    }
}

/// The standard layout is dense: every valid index tuple falls strictly
/// inside the buffer of `product(shape)` elements, so a pointer and that
/// count fully describe the tensor and no in-bounds access can step past
/// its end.
pub proof fn lemma_offset_in_bounds(shape: Seq<usize>, idx: Seq<usize>)
    requires
        index_in_bounds(shape, idx),
    ensures
        row_major_offset(shape, idx) < shape_product(shape),
    decreases shape.len(),
{
    if shape.len() > 0 {
        assert(index_in_bounds(shape.skip(1), idx.skip(1)));
        lemma_offset_in_bounds(shape.skip(1), idx.skip(1));
        let i0 = idx[0] as nat;
        let s0 = shape[0] as nat;
        let p1 = shape_product(shape.skip(1));
        let rest = row_major_offset(shape.skip(1), idx.skip(1));
        assert(row_major_offset(shape, idx) < shape_product(shape)) by (nonlinear_arith)
            requires
                row_major_offset(shape, idx) == i0 * p1 + rest,
                shape_product(shape) == s0 * p1,
                i0 < s0,
                rest < p1,
        ;
    }
}

/// Appending one axis multiplies the product by that axis's size.
pub proof fn lemma_product_push(s: Seq<usize>, d: usize)
    ensures
        shape_product(s.push(d)) == shape_product(s) * (d as nat),
    decreases s.len(),
{
    if s.len() == 0 {
        assert(s.push(d).skip(1) =~= Seq::<usize>::empty());
        assert(s.push(d)[0] == d);
        assert(shape_product(s.push(d).skip(1)) == 1);
        assert(shape_product(s.push(d)) == (d as nat) * shape_product(s.push(d).skip(1)));
        assert(shape_product(s.push(d)) == shape_product(s) * (d as nat)) by (nonlinear_arith)
            requires
                shape_product(s.push(d)) == (d as nat) * shape_product(s.push(d).skip(1)),
                shape_product(s.push(d).skip(1)) == 1,
                shape_product(s) == 1,
        ;
    } else {
        assert(s.push(d).skip(1) =~= s.skip(1).push(d));
        lemma_product_push(s.skip(1), d);
        let s0 = s[0] as nat;
        let b = shape_product(s.skip(1));
        assert(s.push(d)[0] == s[0]);
        assert(shape_product(s.push(d)) == s0 * shape_product(s.skip(1).push(d)));
        assert(shape_product(s.push(d)) == shape_product(s) * (d as nat)) by (nonlinear_arith)
            requires
                shape_product(s.push(d)) == s0 * shape_product(s.skip(1).push(d)),
                shape_product(s.skip(1).push(d)) == b * (d as nat),
                shape_product(s) == s0 * b,
        ;
    }
}

} // verus!
