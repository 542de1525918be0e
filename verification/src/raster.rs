//! Raster images: pixel grids and the monochrome dot matrices made from
//! them.
//!
//! A `Bitmap` is a grid of gray levels as an image decoder hands it over.
//! `convert` fits it to the size an option allows and thresholds it into a
//! `DotMatrix`, one dot per pixel, which the raster command then prints.

use vstd::prelude::*;
use vstd::arithmetic::mul::lemma_mul_upper_bound;
use crate::arith::{mul_div, place_in_grid, row_is_within, scaled_place_is_within, share_is_no_more};
use crate::domain::BitImageSize;
use crate::errors::PrinterError;

verus! {

/// The widest row a raster command can describe, in bytes: the command
/// states it in two bytes.
pub const MAX_ROW_BYTES: usize = 65535;

/// The widest image a raster command can describe, in dots: eight to each
/// byte of the widest row.
pub const MAX_DOT_WIDTH: u32 = 524280;

/// The gray level from which on a pixel is left white.
pub const THRESHOLD: u8 = 128;

/// A grid of gray levels, row by row from the top, 0 black and 255 white.
pub struct Grid {
    /// The number of pixels in a row.
    pub width: int,
    /// The number of rows.
    pub height: int,
    /// The gray levels, `width` to a row.
    pub gray: Seq<u8>,
}

/// A grid of dots, row by row from the top, `true` where the device prints.
pub struct Dots {
    /// The number of dots in a row.
    pub width: int,
    /// The number of rows.
    pub height: int,
    /// The dots, `width` to a row.
    pub dots: Seq<bool>,
}

impl Grid {
    /// The grid has a pixel for each place and is not empty.
    pub open spec fn wf(self) -> bool {
        self.width >= 1 && self.height >= 1 && self.gray.len() == self.width * self.height
    }
}

impl Dots {
    /// The grid has a dot for each place, is not empty, and is no wider
    /// than a raster command can describe.
    pub open spec fn wf(self) -> bool {
        1 <= self.width <= MAX_DOT_WIDTH && self.height >= 1 && self.dots.len() == self.width
            * self.height
    }

    /// The dots as an image again: black where there is a dot, white where
    /// there is none.
    pub open spec fn as_grid(self) -> Grid {
        Grid {
            width: self.width,
            height: self.height,
            gray: Seq::new(self.dots.len(), |i: int| if self.dots[i] { 0u8 } else { 255u8 }),
        }
    }
}

/// A length of at least one.
pub open spec fn at_least_one(n: int) -> int {
    if n < 1 {
        1
    } else {
        n
    }
}

/// The size to which an image of `width` by `height` is brought so that it
/// is at most `max_width` wide and, where `max_height` is given, at most
/// that high. An image that fits keeps its size; one that does not is
/// scaled down, its sides in proportion, rounded down but never to nothing.
pub open spec fn fit(width: int, height: int, max_width: int, max_height: Option<int>) -> (
    int,
    int,
) {
    let (w, h) = if width > max_width {
        (max_width, at_least_one(height * max_width / width))
    } else {
        (width, height)
    };
    match max_height {
        Some(limit) => if h > limit {
            (at_least_one(w * limit / h), limit)
        } else {
            (w, h)
        },
        None => (w, h),
    }
}

/// The gray level that the dot at column `x` and row `y` of an image of
/// `width` by `height` dots takes from `grid`: that of the pixel at the
/// same place in proportion, rounded down.
pub open spec fn sample(grid: Grid, width: int, height: int, x: int, y: int) -> u8 {
    grid.gray[(y * grid.height / height) * grid.width + x * grid.width / width]
}

/// The dots of `grid` at `width` by `height`: a dot wherever the pixel it
/// takes its gray from is darker than the threshold.
pub open spec fn thresholded(grid: Grid, width: int, height: int) -> Dots {
    Dots {
        width,
        height,
        dots: Seq::new(
            (width * height) as nat,
            |i: int| sample(grid, width, height, i % width, i / width) < THRESHOLD,
        ),
    }
}

/// The dot matrix of `grid` under the limits `max_width` and `max_height`.
pub open spec fn converted(grid: Grid, max_width: int, max_height: Option<int>) -> Dots {
    let (width, height) = fit(grid.width, grid.height, max_width, max_height);
    thresholded(grid, width, height)
}

/// How an image is fitted and printed: the largest width and height it may
/// have, in dots, and the scaling the device applies.
#[derive(Debug, Clone, Copy, PartialEq, Eq)]
pub struct BitImageOption {
    max_width: Option<u32>,
    max_height: Option<u32>,
    size: BitImageSize,
}

impl BitImageOption {
    #[verifier::type_invariant]
    spec fn in_range(self) -> bool {
        BitImageOption::accepts(self.max_width, self.max_height)
    }

    /// The limits a device can honour: a width from one dot up to the
    /// widest row a raster command can describe, and a height of at least
    /// one dot.
    pub open spec fn accepts(max_width: Option<u32>, max_height: Option<u32>) -> bool {
        &&& max_width matches Some(w) ==> 1 <= w <= MAX_DOT_WIDTH
        &&& max_height matches Some(h) ==> 1 <= h
    }

    /// The option used where none is given.
    pub closed spec fn standard() -> BitImageOption {
        BitImageOption { max_width: None, max_height: None, size: BitImageSize::Normal }
    }

    /// The limits are ones a device can honour, as they are in every
    /// option that `new` has made.
    pub open spec fn wf(self) -> bool {
        BitImageOption::accepts(self.spec_max_width(), self.spec_max_height())
    }

    /// The largest width, if one is set.
    pub closed spec fn spec_max_width(self) -> Option<u32> {
        self.max_width
    }

    /// The largest height, if one is set.
    pub closed spec fn spec_max_height(self) -> Option<u32> {
        self.max_height
    }

    /// The scaling the device applies.
    pub closed spec fn spec_size(self) -> BitImageSize {
        self.size
    }

    /// The width that images are held to: the one set, else the widest a
    /// raster command can describe.
    pub open spec fn width_limit(self) -> int {
        match self.spec_max_width() {
            Some(w) => w as int,
            None => MAX_DOT_WIDTH as int,
        }
    }

    /// The height that images are held to, if one is set.
    pub open spec fn height_limit(self) -> Option<int> {
        match self.spec_max_height() {
            Some(h) => Some(h as int),
            None => None,
        }
    }

    /// An option with the given limits. A width beyond what a raster
    /// command can describe is rejected with `InvalidOption`, and so is a
    /// limit of zero; no limit is ever cut down to fit.
    pub fn new(max_width: Option<u32>, max_height: Option<u32>, size: BitImageSize) -> (result:
        Result<BitImageOption, PrinterError>)
        ensures
            match result {
                Ok(option) => BitImageOption::accepts(max_width, max_height) && option.wf()
                    && option.spec_max_width() == max_width && option.spec_max_height()
                    == max_height && option.spec_size() == size,
                Err(e) => !BitImageOption::accepts(max_width, max_height) && e
                    == PrinterError::InvalidOption,
            },
    {
        match max_width {
            Some(w) => {
                if w < 1 || w > MAX_DOT_WIDTH {
                    return Err(PrinterError::InvalidOption);
                }
            },
            None => {},
        }
        match max_height {
            Some(h) => {
                if h < 1 {
                    return Err(PrinterError::InvalidOption);
                }
            },
            None => {},
        }
        Ok(BitImageOption { max_width, max_height, size })
    }

    /// The largest width, if one is set.
    pub fn max_width(&self) -> (limit: Option<u32>)
        ensures
            limit == self.spec_max_width(),
            BitImageOption::accepts(limit, self.spec_max_height()),
    {
        proof {
            use_type_invariant(self);
        }
        self.max_width
    }

    /// The largest height, if one is set.
    pub fn max_height(&self) -> (limit: Option<u32>)
        ensures
            limit == self.spec_max_height(),
            BitImageOption::accepts(self.spec_max_width(), limit),
    {
        proof {
            use_type_invariant(self);
        }
        self.max_height
    }

    /// The scaling the device applies.
    pub fn size(&self) -> (size: BitImageSize)
        ensures
            size == self.spec_size(),
    {
        self.size
    }
}

impl Default for BitImageOption {
    /// No limit beyond the device's own, and no scaling.
    fn default() -> (option: BitImageOption)
        ensures
            option == BitImageOption::standard(),
            option.spec_max_width() == None::<u32>,
            option.spec_max_height() == None::<u32>,
            option.spec_size() == BitImageSize::Normal,
    {
        BitImageOption { max_width: None, max_height: None, size: BitImageSize::Normal }
    }
}

/// A grid of gray levels as an image decoder hands it over.
#[derive(Debug, PartialEq, Eq)]
pub struct Bitmap {
    width: usize,
    height: usize,
    gray: Vec<u8>,
}

impl View for Bitmap {
    type V = Grid;

    closed spec fn view(&self) -> Grid {
        Grid { width: self.width as int, height: self.height as int, gray: self.gray@ }
    }
}

/// The gray level of a pixel with the given colour and opacity: its
/// luminance where it is opaque, white where it is not.
pub open spec fn luminance(r: u8, g: u8, b: u8, a: u8) -> u8 {
    if a < 128 {
        255u8
    } else {
        ((299 * r + 587 * g + 114 * b) / 1000) as u8
    }
}

/// The gray levels of pixels given as red, green, blue and opacity, four
/// bytes to a pixel.
pub open spec fn gray_of_rgba(rgba: Seq<u8>) -> Seq<u8> {
    Seq::new(
        rgba.len() / 4,
        |i: int| luminance(rgba[4 * i], rgba[4 * i + 1], rgba[4 * i + 2], rgba[4 * i + 3]),
    )
}

impl Bitmap {
    #[verifier::type_invariant]
    spec fn well_formed(self) -> bool {
        self.width >= 1 && self.height >= 1 && self.gray@.len() == self.width * self.height
    }

    /// The image of `width` by `height` pixels with the gray levels
    /// `gray`, row by row. A grid without pixels, or with another number
    /// of gray levels than it has places, is an `EncodingFailure`.
    pub fn new(width: usize, height: usize, gray: Vec<u8>) -> (result: Result<Bitmap, PrinterError>)
        ensures
            match result {
                Ok(bitmap) => bitmap@ == (Grid {
                    width: width as int,
                    height: height as int,
                    gray: gray@,
                }) && bitmap@.wf(),
                Err(e) => !(Grid { width: width as int, height: height as int, gray: gray@ }).wf()
                    && e == PrinterError::EncodingFailure,
            },
    {
        if width < 1 || height < 1 {
            return Err(PrinterError::EncodingFailure);
        }
        let len = gray.len();
        match width.checked_mul(height) {
            Some(n) => {
                if len == n {
                    Ok(Bitmap { width, height, gray })
                } else {
                    Err(PrinterError::EncodingFailure)
                }
            },
            None => Err(PrinterError::EncodingFailure),
        }
    }

    /// The image of `width` by `height` pixels given as red, green, blue
    /// and opacity, four bytes to a pixel, row by row.
    pub fn from_rgba(width: usize, height: usize, rgba: &[u8]) -> (result: Result<
        Bitmap,
        PrinterError,
    >)
        ensures
            match result {
                Ok(bitmap) => rgba@.len() == 4 * width * height && bitmap@ == (Grid {
                    width: width as int,
                    height: height as int,
                    gray: gray_of_rgba(rgba@),
                }) && bitmap@.wf(),
                Err(e) => (width < 1 || height < 1 || rgba@.len() != 4 * width * height) && e
                    == PrinterError::EncodingFailure,
            },
    {
        proof {
            assert(4 * (width * height) == 4 * width * height) by (nonlinear_arith);
        }
        if rgba.len() % 4 != 0 {
            return Err(PrinterError::EncodingFailure);
        }
        let n = rgba.len() / 4;
        let mut gray: Vec<u8> = Vec::new();
        let mut i: usize = 0;
        while i < n
            invariant
                i <= n,
                n == rgba@.len() / 4,
                rgba@.len() == 4 * n,
                4 * n <= usize::MAX,
                gray@ == Seq::new(
                    i as nat,
                    |k: int|
                        luminance(rgba@[4 * k], rgba@[4 * k + 1], rgba@[4 * k + 2], rgba@[4 * k + 3]),
                ),
            decreases n - i,
        {
            let r: u32 = rgba[4 * i] as u32;
            let g: u32 = rgba[4 * i + 1] as u32;
            let b: u32 = rgba[4 * i + 2] as u32;
            let level: u8 = if rgba[4 * i + 3] < 128 {
                255
            } else {
                ((299 * r + 587 * g + 114 * b) / 1000) as u8
            };
            gray.push(level);
            assert(gray@ =~= Seq::new(
                (i + 1) as nat,
                |k: int|
                    luminance(rgba@[4 * k], rgba@[4 * k + 1], rgba@[4 * k + 2], rgba@[4 * k + 3]),
            ));
            i += 1;
        }
        assert(gray@ =~= gray_of_rgba(rgba@));
        Bitmap::new(width, height, gray)
    }

    /// The number of pixels in a row.
    pub fn width(&self) -> (width: usize)
        ensures
            width == self@.width,
            self@.wf(),
    {
        proof {
            use_type_invariant(self);
        }
        self.width
    }

    /// The number of rows.
    pub fn height(&self) -> (height: usize)
        ensures
            height == self@.height,
            self@.wf(),
    {
        proof {
            use_type_invariant(self);
        }
        self.height
    }

    /// The gray levels, row by row.
    pub fn gray(&self) -> (gray: &Vec<u8>)
        ensures
            gray@ == self@.gray,
            self@.wf(),
            self@.width * self@.height <= usize::MAX,
    {
        proof {
            use_type_invariant(self);
        }
        let _pixels = self.gray.len();
        &self.gray
    }
}

/// A monochrome image, one dot per place, as the raster command prints it.
#[derive(Debug, PartialEq, Eq)]
pub struct DotMatrix {
    width: usize,
    height: usize,
    dots: Vec<bool>,
}

impl View for DotMatrix {
    type V = Dots;

    closed spec fn view(&self) -> Dots {
        Dots { width: self.width as int, height: self.height as int, dots: self.dots@ }
    }
}

impl DotMatrix {
    #[verifier::type_invariant]
    spec fn well_formed(self) -> bool {
        1 <= self.width <= MAX_DOT_WIDTH && self.height >= 1 && self.dots@.len() == self.width
            * self.height
    }

    /// The number of dots in a row.
    pub fn width(&self) -> (width: usize)
        ensures
            width == self@.width,
            self@.wf(),
    {
        proof {
            use_type_invariant(self);
        }
        self.width
    }

    /// The number of rows.
    pub fn height(&self) -> (height: usize)
        ensures
            height == self@.height,
            self@.wf(),
    {
        proof {
            use_type_invariant(self);
        }
        self.height
    }

    /// The dots, row by row.
    pub fn dots(&self) -> (dots: &Vec<bool>)
        ensures
            dots@ == self@.dots,
            self@.wf(),
            self@.width * self@.height <= usize::MAX,
    {
        proof {
            use_type_invariant(self);
        }
        let _places = self.dots.len();
        &self.dots
    }

    /// The dots as an image again: black where there is a dot, white where
    /// there is none.
    pub fn to_bitmap(&self) -> (bitmap: Bitmap)
        ensures
            bitmap@ == self@.as_grid(),
            bitmap@.wf(),
    {
        proof {
            use_type_invariant(self);
        }
        let n = self.dots.len();
        let mut gray: Vec<u8> = Vec::new();
        let mut i: usize = 0;
        while i < n
            invariant
                i <= n,
                n == self.dots@.len(),
                gray@ == Seq::new(i as nat, |k: int| if self.dots@[k] { 0u8 } else { 255u8 }),
            decreases n - i,
        {
            gray.push(if self.dots[i] { 0 } else { 255 });
            assert(gray@ =~= Seq::new(
                (i + 1) as nat,
                |k: int| if self.dots@[k] { 0u8 } else { 255u8 },
            ));
            i += 1;
        }
        Bitmap { width: self.width, height: self.height, gray }
    }
}

/// The size an image of `width` by `height` is brought to under an option.
fn fit_size(width: usize, height: usize, option: &BitImageOption) -> (size: (usize, usize))
    requires
        width >= 1,
        height >= 1,
    ensures
        (size.0 as int, size.1 as int) == fit(
            width as int,
            height as int,
            option.width_limit(),
            option.height_limit(),
        ),
        1 <= size.0 <= width,
        1 <= size.1 <= height,
        size.0 <= MAX_DOT_WIDTH,
{
    let max_width: usize = match option.max_width() {
        Some(w) => w as usize,
        None => MAX_DOT_WIDTH as usize,
    };
    let (w, h) = if width > max_width {
        proof {
            share_is_no_more(height as int, max_width as int, width as int);
        }
        let scaled = mul_div(height, max_width, width);
        (max_width, if scaled < 1 { 1 } else { scaled })
    } else {
        (width, height)
    };
    match option.max_height() {
        Some(limit) => {
            let limit = limit as usize;
            if h > limit {
                proof {
                    share_is_no_more(w as int, limit as int, h as int);
                }
                let scaled = mul_div(w, limit, h);
                (if scaled < 1 { 1 } else { scaled }, limit)
            } else {
                (w, h)
            }
        },
        None => (w, h),
    }
}

/// Fits `bitmap` to the limits of `option` and thresholds it: an image
/// within the limits keeps its size, a larger one is scaled down with its
/// sides in proportion, and each dot is set where the pixel it stands for is
/// darker than the threshold. The same bitmap and option always give the
/// same dots.
pub fn convert(bitmap: &Bitmap, option: &BitImageOption) -> (matrix: DotMatrix)
    ensures
        matrix@ == converted(bitmap@, option.width_limit(), option.height_limit()),
        matrix@.wf(),
{
    let source_width = bitmap.width();
    let source_height = bitmap.height();
    let gray = bitmap.gray();
    let (width, height) = fit_size(source_width, source_height, option);
    proof {
        lemma_mul_upper_bound(
            width as int,
            source_width as int,
            height as int,
            source_height as int,
        );
    }
    let total: usize = width * height;
    let mut dots: Vec<bool> = Vec::new();
    let mut i: usize = 0;
    while i < total
        invariant
            i <= total,
            total == width * height,
            1 <= width <= source_width,
            1 <= height <= source_height,
            bitmap@.wf(),
            source_width * source_height <= usize::MAX,
            source_width == bitmap@.width,
            source_height == bitmap@.height,
            gray@ == bitmap@.gray,
            dots@ == Seq::new(
                i as nat,
                |k: int|
                    sample(bitmap@, width as int, height as int, k % (width as int), k / (width as int))
                        < THRESHOLD,
            ),
        decreases total - i,
    {
        let x = i % width;
        let y = i / width;
        proof {
            place_in_grid(i as int, width as int, height as int);
            scaled_place_is_within(x as int, source_width as int, width as int);
            scaled_place_is_within(y as int, source_height as int, height as int);
            row_is_within(
                x * source_width / (width as int),
                y * source_height / (height as int),
                source_width as int,
                source_height as int,
            );
        }
        let source_x = mul_div(x, source_width, width);
        let source_y = mul_div(y, source_height, height);
        let level = gray[source_y * source_width + source_x];
        dots.push(level < THRESHOLD);
        assert(dots@ =~= Seq::new(
            (i + 1) as nat,
            |k: int|
                sample(bitmap@, width as int, height as int, k % (width as int), k / (width as int))
                    < THRESHOLD,
        ));
        i += 1;
    }
    DotMatrix { width, height, dots }
}

} // verus!
