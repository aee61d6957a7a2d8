//! Dispatch-grid geometry: how many thread groups of what size cover one
//! kernel invocation.
//!
//! Three sizing policies exist, all parameterized by the pipeline's maximum
//! threads-per-group limit `m`:
//! - linear, for elementwise work over a flat length;
//! - tree reduction, folding `n` elements down to `out_length` outputs;
//! - grouped reduction, summing a fixed span per output (softmax-style).
//!
//! The reduction policies need a power-of-two group size, rounded up, never
//! down: rounding down would leave part of the reduction domain uncovered.

use vstd::prelude::*;

verus! {

/// A three-dimensional extent, as dispatch APIs expect it. The policies in
/// this module only ever use the `width` axis; `height` and `depth` stay 1.
#[derive(Clone, Copy, PartialEq, Eq, Structural, Debug)]
pub struct GridDim {
    pub width: u64,
    pub height: u64,
    pub depth: u64,
}

/// `2^e`.
pub open spec fn pow2(e: nat) -> nat
    decreases e,
{
    if e == 0 {
        1
    } else {
        2 * pow2((e - 1) as nat)
    }
}

/// `n` is an exact power of two.
pub open spec fn is_power_of_two(n: int) -> bool {
    exists|e: nat| n == pow2(e)
}

/// The group width the linear policy picks: the whole length if it fits in
/// one group, else the hardware limit.
pub open spec fn linear_group_width(m: u64, length: u64) -> int {
    vstd::math::min(m as int, length as int)
}

/// The number of groups the linear policy needs to cover `length` at the
/// chosen width: a ceiling division.
pub open spec fn linear_group_count(m: u64, length: u64) -> int {
    (length + linear_group_width(m, length) - 1) / linear_group_width(m, length)
}

/// Splits a flat elementwise domain of `length` threads into
/// `(group_count, group_size)`, given the pipeline limit `m`.
///
/// The groups cover the domain exactly: `group_count * width >= length`,
/// while one group fewer would fall short.
pub fn linear_split(m: u64, length: usize) -> (r: (GridDim, GridDim))
    requires
        1 <= m,
        1 <= length,
        length <= 0x8000_0000_0000_0000u64,
    ensures
        r.1.width == linear_group_width(m, length as u64),
        r.0.width == linear_group_count(m, length as u64),
        r.0.width * r.1.width >= length,
        (r.0.width - 1) * r.1.width < length,
        r.0.height == 1 && r.0.depth == 1 && r.1.height == 1 && r.1.depth == 1,
{
    let size = length as u64;
    let width = if m < size {
        m
    } else {
        size
    };
    let count = (size - 1 + width) / width;
    proof {
        let w = width as int;
        let s = size as int;
        vstd::arithmetic::div_mod::lemma_fundamental_div_mod(s + w - 1, w);
        vstd::arithmetic::div_mod::lemma_mod_bound(s + w - 1, w);
        let q = (s + w - 1) / w;
        let rem = (s + w - 1) % w;
        assert(count * w >= s && (count - 1) * w < s) by (nonlinear_arith)
            requires
                count == q,
                s + w - 1 == w * q + rem,
                0 <= rem < w,
                1 <= s,
        ;
    }
    (
        GridDim { width: count, height: 1, depth: 1 },
        GridDim { width, height: 1, depth: 1 },
    )
}

/// The least power of two that is at least `x`.
///
/// The result `r` is pinned exactly: it is a power of two with
/// `x <= r < 2 * x` (so no smaller power of two would do).
pub fn next_power_of_two(x: u64) -> (r: u64)
    requires
        1 <= x <= 0x8000_0000_0000_0000u64,
    ensures
        is_power_of_two(r as int),
        x <= r,
        r < 2 * x,
{
    let mut p: u64 = 1;
    let ghost mut e: nat = 0;
    while p < x
        invariant
            1 <= p,
            p == pow2(e),
            x <= 0x8000_0000_0000_0000u64,
            p == 1 || p < 2 * x,
        decreases 2 * x - p,
    {
        proof {
            e = e + 1;
        }
        p = p * 2;
    }
    proof {
        assert(is_power_of_two(p as int)) by {
            assert(p == pow2(e));
        };
    }
    p
}

/// Tree-reduction policy: `length` elements fold down to `out_length`
/// outputs, each group reducing `length / out_length` elements pairwise.
/// One thread handles two elements, and the group size is rounded up to a
/// power of two for the in-group binary tree.
pub fn tree_reduction_split(m: u64, length: usize, out_length: usize) -> (r: (GridDim, GridDim))
    requires
        1 <= m,
        1 <= out_length <= length,
        length as int % out_length as int == 0,
        length <= 0x8000_0000_0000_0000u64,
    ensures
        r.0.width == out_length,
        ({
            let target = vstd::math::min(
                m as int,
                ((length as int / out_length as int) + 1) / 2,
            );
            &&& is_power_of_two(r.1.width as int)
            &&& target <= r.1.width < 2 * target
        }),
        r.0.height == 1 && r.0.depth == 1 && r.1.height == 1 && r.1.depth == 1,
{
    let elements_to_sum = length / out_length;
    proof {
        vstd::arithmetic::div_mod::lemma_div_non_zero(length as int, out_length as int);
        vstd::arithmetic::div_mod::lemma_div_nonincreasing(length as int, out_length as int);
    }
    let half = (elements_to_sum as u64 + 2 - 1) / 2;
    let target = if m < half {
        m
    } else {
        half
    };
    let width = next_power_of_two(target);
    (
        GridDim { width: out_length as u64, height: 1, depth: 1 },
        GridDim { width, height: 1, depth: 1 },
    )
}

/// Grouped-reduction policy (last-axis softmax and kin): every
/// `elements_to_sum` consecutive elements form one group, so there are
/// `length / elements_to_sum` groups, each sized to the power of two at or
/// above `min(m, elements_to_sum)`.
pub fn grouped_reduction_split(m: u64, length: usize, elements_to_sum: usize) -> (r: (
    GridDim,
    GridDim,
))
    requires
        1 <= m,
        1 <= elements_to_sum <= length,
        length as int % elements_to_sum as int == 0,
        length <= 0x8000_0000_0000_0000u64,
    ensures
        r.0.width == length as int / elements_to_sum as int,
        ({
            let target = vstd::math::min(m as int, elements_to_sum as int);
            &&& is_power_of_two(r.1.width as int)
            &&& target <= r.1.width < 2 * target
        }),
        r.0.height == 1 && r.0.depth == 1 && r.1.height == 1 && r.1.depth == 1,
{
    let out_length = length / elements_to_sum;
    let target = if m < elements_to_sum as u64 {
        m
    } else {
        elements_to_sum as u64
    };
    let width = next_power_of_two(target);
    (
        GridDim { width: out_length as u64, height: 1, depth: 1 },
        GridDim { width, height: 1, depth: 1 },
    )
}

} // verus!
