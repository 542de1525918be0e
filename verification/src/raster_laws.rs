//! What holds of every conversion of an image into dots.

use vstd::prelude::*;
use crate::arith::{place_in_grid, share_is_no_more, unit_scale};
use crate::raster::{
    at_least_one, converted, fit, sample, thresholded, BitImageOption, Dots, Grid, MAX_DOT_WIDTH,
};

verus! {

/// A fitted image is never empty, never larger than the image it came
/// from, and within both limits.
pub proof fn fit_is_within_limits(width: int, height: int, max_width: int, max_height: Option<int>)
    requires
        1 <= width,
        1 <= height,
        1 <= max_width,
        max_height matches Some(limit) ==> 1 <= limit,
    ensures
        ({
            let (w, h) = fit(width, height, max_width, max_height);
            &&& 1 <= w <= width
            &&& w <= max_width
            &&& 1 <= h <= height
            &&& max_height matches Some(limit) ==> h <= limit
        }),
{
    let (w, h) = if width > max_width {
        share_is_no_more(height, max_width, width);
        (max_width, at_least_one(height * max_width / width))
    } else {
        (width, height)
    };
    match max_height {
        Some(limit) => {
            if h > limit {
                share_is_no_more(w, limit, h);
            }
        },
        None => {},
    }
}

/// An image that is within the limits keeps its size.
pub proof fn fit_keeps_what_fits(width: int, height: int, max_width: int, max_height: Option<int>)
    requires
        width <= max_width,
        max_height matches Some(limit) ==> height <= limit,
    ensures
        fit(width, height, max_width, max_height) == (width, height),
{
}

/// Thresholding the image of a dot matrix at the matrix's own size gives
/// the matrix back: black stays a dot, white stays none.
pub proof fn thresholding_dots_gives_them_back(dots: Dots)
    requires
        dots.wf(),
    ensures
        thresholded(dots.as_grid(), dots.width, dots.height) == dots,
{
    let grid = dots.as_grid();
    let again = thresholded(grid, dots.width, dots.height);
    assert(again.dots.len() == dots.dots.len());
    assert forall|i: int| 0 <= i < dots.dots.len() implies again.dots[i] == dots.dots[i] by {
        place_in_grid(i, dots.width, dots.height);
        unit_scale(i % dots.width, dots.width);
        unit_scale(i / dots.width, dots.height);
        assert(sample(grid, dots.width, dots.height, i % dots.width, i / dots.width)
            == grid.gray[i]);
    }
    assert(again.dots =~= dots.dots);
}

/// Converting is a fixed point: the dots of an image, taken as an image and
/// converted again under the same limits and threshold, are the same dots.
pub proof fn reconversion_is_stable(grid: Grid, max_width: int, max_height: Option<int>)
    requires
        grid.wf(),
        1 <= max_width <= MAX_DOT_WIDTH,
        max_height matches Some(limit) ==> 1 <= limit,
    ensures
        converted(grid, max_width, max_height).wf(),
        converted(converted(grid, max_width, max_height).as_grid(), max_width, max_height)
            == converted(grid, max_width, max_height),
{
    let dots = converted(grid, max_width, max_height);
    fit_is_within_limits(grid.width, grid.height, max_width, max_height);
    assert(dots.wf()) by {
        vstd::arithmetic::mul::lemma_mul_nonnegative(dots.width, dots.height);
    }
    fit_keeps_what_fits(dots.width, dots.height, max_width, max_height);
    thresholding_dots_gives_them_back(dots);
}

/// Converting under an option is a fixed point: for every image and every
/// option, the dot matrix taken as an image and converted again under the
/// same option is the same dot matrix.
pub proof fn conversion_is_a_fixed_point(grid: Grid, option: BitImageOption)
    requires
        grid.wf(),
        option.wf(),
    ensures
        ({
            let once = converted(grid, option.width_limit(), option.height_limit());
            &&& once.wf()
            &&& converted(once.as_grid(), option.width_limit(), option.height_limit()) == once
        }),
{
    reconversion_is_stable(grid, option.width_limit(), option.height_limit());
}

} // verus!
