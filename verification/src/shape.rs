//! Shape arithmetic for strided views and gather: extent products, the
//! index-select output geometry, and the addressing function of a
//! shape+stride+offset view, with the lemma that row-major strides at
//! offset zero address exactly the flat contiguous layout.

use vstd::prelude::*;

verus! {

/// The product of a sequence of extents.
pub open spec fn prod(s: Seq<usize>) -> int
    decreases s.len(),
{
    if s.len() == 0 {
        1
    } else {
        s[0] * prod(s.drop_first())
    }
}

/// An extent product is never negative.
pub proof fn lemma_prod_nonneg(s: Seq<usize>)
    ensures
        prod(s) >= 0,
    decreases s.len(),
{
    if s.len() > 0 {
        lemma_prod_nonneg(s.drop_first());
        vstd::arithmetic::mul::lemma_mul_nonnegative(s[0] as int, prod(s.drop_first()));
    }
}

/// Appending one factor multiplies the product by it.
pub proof fn lemma_prod_push(s: Seq<usize>, x: usize)
    ensures
        prod(s.push(x)) == prod(s) * x,
    decreases s.len(),
{
    if s.len() == 0 {
        assert(s.push(x)[0] == x);
        assert(s.push(x).drop_first() =~= Seq::<usize>::empty());
        assert(prod(s.push(x)) == x * prod(s.push(x).drop_first()));
        assert(prod(Seq::<usize>::empty()) == 1);
    } else {
        assert(s.push(x)[0] == s[0]);
        assert(s.push(x).drop_first() =~= s.drop_first().push(x));
        lemma_prod_push(s.drop_first(), x);
        assert(prod(s.push(x)) == s[0] * (prod(s.drop_first()) * x));
        vstd::arithmetic::mul::lemma_mul_is_associative(
            s[0] as int,
            prod(s.drop_first()),
            x as int,
        );
    }
}

/// Every product of a prefix of `s[from..to]` fits in `usize`. This is the
/// machine-limit precondition under which the extent product can be
/// computed exactly.
pub open spec fn prefix_products_bounded(s: Seq<usize>, from: int, to: int) -> bool {
    forall|k: int| from <= k <= to ==> prod(#[trigger] s.subrange(from, k)) <= usize::MAX
}

/// The product of the extents `s[from..to]`.
pub fn range_product(s: &[usize], from: usize, to: usize) -> (r: usize)
    requires
        from <= to <= s@.len(),
        prefix_products_bounded(s@, from as int, to as int),
    ensures
        r == prod(s@.subrange(from as int, to as int)),
{
    let mut acc: usize = 1;
    let mut i: usize = from;
    proof {
        assert(s@.subrange(from as int, from as int) =~= Seq::<usize>::empty());
    }
    while i < to
        invariant
            from <= i <= to <= s@.len(),
            prefix_products_bounded(s@, from as int, to as int),
            acc == prod(s@.subrange(from as int, i as int)),
        decreases to - i,
    {
        proof {
            assert(s@.subrange(from as int, i + 1) =~= s@.subrange(from as int, i as int).push(
                s@[i as int],
            ));
            lemma_prod_push(s@.subrange(from as int, i as int), s@[i as int]);
            lemma_prod_nonneg(s@.subrange(from as int, i as int));
            assert(prod(s@.subrange(from as int, i + 1)) <= usize::MAX);
        }
        acc = acc * s[i];
        i += 1;
    }
    acc
}

/// The product of all extents of `s`.
pub fn product(s: &[usize]) -> (r: usize)
    requires
        prefix_products_bounded(s@, 0, s@.len() as int),
    ensures
        r == prod(s@),
{
    let n = s.len();
    let r = range_product(s, 0, n);
    proof {
        assert(s@.subrange(0, n as int) =~= s@);
    }
    r
}

/// The output geometry of an index-select (gather) along axis `dim` of
/// `shape`, selecting `ids_size` indices.
pub struct IndexSelectDims {
    /// Product of the extents before the selection axis.
    pub left_size: usize,
    /// Product of the extents after the selection axis.
    pub right_size: usize,
    /// The extent of the selection axis itself in the source.
    pub src_dim_size: usize,
    /// Total output elements: `ids_size * left_size * right_size`.
    pub dst_el: usize,
}

/// Computes the index-select geometry exactly.
pub fn index_select_dims(shape: &[usize], dim: usize, ids_size: usize) -> (r: IndexSelectDims)
    requires
        dim < shape@.len(),
        prefix_products_bounded(shape@, 0, dim as int),
        prefix_products_bounded(shape@, dim + 1, shape@.len() as int),
        prod(shape@.subrange(0, dim as int)) * prod(
            shape@.subrange(dim + 1, shape@.len() as int),
        ) <= usize::MAX,
        ids_size * (prod(shape@.subrange(0, dim as int)) * prod(
            shape@.subrange(dim + 1, shape@.len() as int),
        )) <= usize::MAX,
    ensures
        r.left_size == prod(shape@.subrange(0, dim as int)),
        r.right_size == prod(shape@.subrange(dim + 1, shape@.len() as int)),
        r.src_dim_size == shape@[dim as int],
        r.dst_el == ids_size * r.left_size * r.right_size,
{
    let n = shape.len();
    let left_size = range_product(shape, 0, dim);
    let right_size = range_product(shape, dim + 1, n);
    let src_dim_size = shape[dim];
    proof {
        lemma_prod_nonneg(shape@.subrange(0, dim as int));
        lemma_prod_nonneg(shape@.subrange(dim + 1, shape@.len() as int));
        vstd::arithmetic::mul::lemma_mul_nonnegative(left_size as int, right_size as int);
        assert(ids_size * (left_size * right_size) == ids_size * left_size * right_size) by (
        nonlinear_arith);
    }
    let lr = left_size * right_size;
    let dst_el = ids_size * lr;
    IndexSelectDims { left_size, right_size, src_dim_size, dst_el }
}

/// The storage element (relative to the operand's base offset) that logical
/// element `i` of a shape+stride view addresses: the mixed-radix digits of
/// `i` under `shape`, each weighted by its axis's stride.
pub open spec fn strided_index(shape: Seq<usize>, strides: Seq<usize>, i: int) -> int
    decreases shape.len(),
{
    if shape.len() == 0 {
        0
    } else {
        let inner = prod(shape.drop_first());
        if inner <= 0 {
            0
        } else {
            strides[0] * (i / inner) + strided_index(
                shape.drop_first(),
                strides.drop_first(),
                i % inner,
            )
        }
    }
}

/// Row-major (dense, C-contiguous) strides: each axis strides by the
/// product of the extents after it.
pub open spec fn row_major(shape: Seq<usize>, strides: Seq<usize>) -> bool {
    &&& strides.len() == shape.len()
    &&& forall|d: int|
        0 <= d < shape.len() ==> #[trigger] strides[d] == prod(
            shape.subrange(d + 1, shape.len() as int),
        )
}

/// Strided/contiguous equivalence of addressing: over row-major strides at
/// base offset zero, logical element `i` addresses exactly storage element
/// `i`, so a strided dispatch over such a view touches the same elements,
/// in the same order, as the contiguous dispatch over the flat length.
pub proof fn lemma_row_major_identity(shape: Seq<usize>, strides: Seq<usize>, i: int)
    requires
        row_major(shape, strides),
        0 <= i < prod(shape),
    ensures
        strided_index(shape, strides, i) == i,
    decreases shape.len(),
{
    if shape.len() == 0 {
        assert(prod(shape) == 1);
    } else {
        let tail = shape.drop_first();
        let tstrides = strides.drop_first();
        let inner = prod(tail);
        lemma_prod_nonneg(tail);
        if inner == 0 {
            assert(prod(shape) == shape[0] * 0);
            assert(false);
        }
        assert(strides[0] == prod(shape.subrange(1, shape.len() as int)));
        assert(shape.subrange(1, shape.len() as int) =~= tail);
        assert forall|d: int| 0 <= d < tail.len() implies #[trigger] tstrides[d] == prod(
            tail.subrange(d + 1, tail.len() as int),
        ) by {
            assert(strides[d + 1] == prod(shape.subrange(d + 2, shape.len() as int)));
            assert(shape.subrange(d + 2, shape.len() as int) =~= tail.subrange(
                d + 1,
                tail.len() as int,
            ));
        }
        vstd::arithmetic::div_mod::lemma_mod_bound(i, inner);
        lemma_row_major_identity(tail, tstrides, i % inner);
        vstd::arithmetic::div_mod::lemma_fundamental_div_mod(i, inner);
    }
}

} // verus!
