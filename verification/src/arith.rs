//! Integer arithmetic that stays within the machine's numbers.

use vstd::prelude::*;
use vstd::arithmetic::div_mod::{
    lemma_div_by_multiple, lemma_fundamental_div_mod, lemma_multiply_divide_le,
    lemma_multiply_divide_lt,
};
use vstd::arithmetic::mul::{lemma_mul_inequality, lemma_mul_is_commutative, lemma_mul_upper_bound};

verus! {

/// A whole share of a product is no more than the factor it is taken from:
/// `a * b / c` is at most `a` where `b` is at most `c`.
pub proof fn share_is_no_more(a: int, b: int, c: int)
    requires
        0 <= a,
        0 <= b <= c,
        1 <= c,
    ensures
        0 <= a * b / c <= a,
{
    lemma_mul_inequality(b, c, a);
    lemma_mul_is_commutative(a, b);
    lemma_mul_is_commutative(a, c);
    lemma_multiply_divide_le(a * b, c, a);
    lemma_mul_upper_bound(0, a, 0, b);
    if a * b / c < 0 {
        lemma_fundamental_div_mod(a * b, c);
        lemma_mul_inequality(a * b / c, -1, c);
        lemma_mul_is_commutative(a * b / c, c);
    }
}

/// A place below `c` scaled by `b / c` is a place below `b`.
pub proof fn scaled_place_is_within(a: int, b: int, c: int)
    requires
        0 <= a < c,
        1 <= b,
    ensures
        0 <= a * b / c < b,
{
    vstd::arithmetic::mul::lemma_mul_strict_inequality(a, c, b);
    lemma_mul_is_commutative(c, b);
    lemma_multiply_divide_lt(a * b, c, b);
    lemma_mul_upper_bound(0, a, 0, b);
    if a * b / c < 0 {
        lemma_fundamental_div_mod(a * b, c);
        lemma_mul_inequality(a * b / c, -1, c);
        lemma_mul_is_commutative(a * b / c, c);
    }
}

/// Scaling by one changes nothing: `a * c / c` is `a`.
pub proof fn unit_scale(a: int, c: int)
    requires
        0 <= a,
        1 <= c,
    ensures
        a * c / c == a,
{
    lemma_div_by_multiple(a, c);
}

/// A place in a grid with rows of `width` is the start of its row plus its
/// column, and its row lies within `height` rows when the place lies
/// within the grid.
pub proof fn place_in_grid(i: int, width: int, height: int)
    requires
        1 <= width,
        0 <= i < width * height,
    ensures
        0 <= i % width < width,
        0 <= i / width < height,
        (i / width) * width + i % width == i,
{
    lemma_fundamental_div_mod(i, width);
    lemma_mul_is_commutative(width, i / width);
    lemma_multiply_divide_lt(i, width, height);
    if i / width < 0 {
        lemma_mul_inequality(i / width, -1, width);
    }
}

/// The last place of row `y` lies within a grid of `height` rows.
pub proof fn row_is_within(x: int, y: int, width: int, height: int)
    requires
        0 <= x < width,
        0 <= y < height,
    ensures
        0 <= y * width,
        0 <= y * width + x < width * height,
{
    lemma_mul_inequality(y, height - 1, width);
    lemma_mul_upper_bound(0, y, 0, width);
    assert((height - 1) * width == width * height - width) by (nonlinear_arith);
}

/// `a * b / c`, computed without overflow on the way.
pub(crate) fn mul_div(a: usize, b: usize, c: usize) -> (q: usize)
    requires
        1 <= c,
        a <= c || b <= c,
    ensures
        q == a * b / (c as int),
{
    proof {
        lemma_mul_upper_bound(a as int, usize::MAX as int, b as int, usize::MAX as int);
        assert(usize::MAX * usize::MAX <= u128::MAX) by (nonlinear_arith)
            requires
                usize::MAX <= 0xFFFF_FFFF_FFFF_FFFF,
        ;
        if b <= c {
            share_is_no_more(a as int, b as int, c as int);
        } else {
            share_is_no_more(b as int, a as int, c as int);
            lemma_mul_is_commutative(a as int, b as int);
        }
    }
    let wide: u128 = (a as u128) * (b as u128) / (c as u128);
    wide as usize
}

} // verus!
