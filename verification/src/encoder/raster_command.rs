//! The raster command: a dot matrix as the bytes that print it.
//!
//! An image goes out in bands of at most `BAND_ROWS` rows, one command to a
//! band. Each row is packed eight dots to a byte, the leftmost dot in the
//! highest bit; a last byte that the row does not fill is padded with
//! zeros at its low end.

use vstd::prelude::*;
use crate::arith::{place_in_grid, row_is_within};
use crate::domain::BitImageSize;
use crate::encoder::commands::GS;
use crate::raster::{DotMatrix, Dots};

verus! {

/// The number of rows that one raster command prints at most.
pub const BAND_ROWS: usize = 24;

/// The dot at column `x` of row `y` as a number, zero beyond the width.
pub open spec fn bit(dots: Dots, x: int, y: int) -> int {
    if x < dots.width && dots.dots[y * dots.width + x] {
        1
    } else {
        0
    }
}

/// Byte `k` of row `y`: the eight dots from column `8 * k`, the first in
/// the highest bit.
pub open spec fn packed_byte(dots: Dots, y: int, k: int) -> u8 {
    (128 * bit(dots, 8 * k, y) + 64 * bit(dots, 8 * k + 1, y) + 32 * bit(dots, 8 * k + 2, y) + 16
        * bit(dots, 8 * k + 3, y) + 8 * bit(dots, 8 * k + 4, y) + 4 * bit(dots, 8 * k + 5, y) + 2
        * bit(dots, 8 * k + 6, y) + bit(dots, 8 * k + 7, y)) as u8
}

/// The number of bytes a row is packed into: its width rounded up to whole
/// bytes.
pub open spec fn row_bytes(dots: Dots) -> int {
    (dots.width + 7) / 8
}

/// The `rows` rows from row `from`, packed, one after the other.
pub open spec fn packed_rows(dots: Dots, from: int, rows: int) -> Seq<u8> {
    Seq::new(
        (rows * row_bytes(dots)) as nat,
        |i: int| packed_byte(dots, from + i / row_bytes(dots), i % row_bytes(dots)),
    )
}

/// The number of bands of an image.
pub open spec fn band_count(dots: Dots) -> int {
    (dots.height - 1) / (BAND_ROWS as int) + 1
}

/// The number of rows of band `band`: a full band, or what is left of the
/// image for the last one.
pub open spec fn rows_of_band(dots: Dots, band: int) -> int {
    if dots.height - band * BAND_ROWS < BAND_ROWS {
        dots.height - band * BAND_ROWS
    } else {
        BAND_ROWS as int
    }
}

/// The command that prints band `band`: the raster header with the scaling,
/// the row length in bytes and the number of rows, both low byte first,
/// then the packed rows.
pub open spec fn band_command(dots: Dots, size: BitImageSize, band: int) -> Seq<u8> {
    let rows = rows_of_band(dots, band);
    seq![
        GS,
        0x76u8,
        0x30u8,
        size.code(),
        (row_bytes(dots) % 256) as u8,
        (row_bytes(dots) / 256) as u8,
        (rows % 256) as u8,
        (rows / 256) as u8,
    ] + packed_rows(dots, band * BAND_ROWS, rows)
}

/// The commands of the first `upto` bands, one after the other.
pub open spec fn bands(dots: Dots, size: BitImageSize, upto: int) -> Seq<u8>
    decreases upto,
{
    if upto <= 0 {
        seq![]
    } else {
        bands(dots, size, upto - 1) + band_command(dots, size, upto - 1)
    }
}

/// The bytes that print an image: the commands of all its bands from the
/// top.
pub open spec fn raster_command(dots: Dots, size: BitImageSize) -> Seq<u8> {
    bands(dots, size, band_count(dots))
}

fn dot_value(matrix: &DotMatrix, x: usize, y: usize) -> (v: u8)
    requires
        y < matrix@.height,
    ensures
        v == bit(matrix@, x as int, y as int),
        v <= 1,
{
    let width = matrix.width();
    let dots = matrix.dots();
    if x < width {
        proof {
            row_is_within(x as int, y as int, matrix@.width, matrix@.height);
        }
        if dots[y * width + x] {
            1
        } else {
            0
        }
    } else {
        0
    }
}

fn pack_byte(matrix: &DotMatrix, y: usize, k: usize) -> (b: u8)
    requires
        y < matrix@.height,
        k < row_bytes(matrix@),
        matrix@.wf(),
    ensures
        b == packed_byte(matrix@, y as int, k as int),
{
    let x = 8 * k;
    128 * dot_value(matrix, x, y) + 64 * dot_value(matrix, x + 1, y) + 32 * dot_value(
        matrix,
        x + 2,
        y,
    ) + 16 * dot_value(matrix, x + 3, y) + 8 * dot_value(matrix, x + 4, y) + 4 * dot_value(
        matrix,
        x + 5,
        y,
    ) + 2 * dot_value(matrix, x + 6, y) + dot_value(matrix, x + 7, y)
}

fn append_rows(matrix: &DotMatrix, from: usize, rows: usize, out: &mut Vec<u8>)
    requires
        from + rows <= matrix@.height,
        from + rows <= usize::MAX,
        rows <= BAND_ROWS,
    ensures
        final(out)@ == old(out)@ + packed_rows(matrix@, from as int, rows as int),
{
    let width = matrix.width();
    let per_row = (width + 7) / 8;
    proof {
        vstd::arithmetic::mul::lemma_mul_upper_bound(
            rows as int,
            BAND_ROWS as int,
            per_row as int,
            65535,
        );
    }
    let total = rows * per_row;
    let mut i: usize = 0;
    while i < total
        invariant
            i <= total,
            total == rows * per_row,
            per_row == row_bytes(matrix@),
            1 <= per_row,
            from + rows <= matrix@.height,
            from + rows <= usize::MAX,
            matrix@.wf(),
            out@ == old(out)@ + Seq::new(
                i as nat,
                |j: int|
                    packed_byte(
                        matrix@,
                        from + j / row_bytes(matrix@),
                        j % row_bytes(matrix@),
                    ),
            ),
        decreases total - i,
    {
        proof {
            vstd::arithmetic::mul::lemma_mul_is_commutative(rows as int, per_row as int);
            place_in_grid(i as int, per_row as int, rows as int);
        }
        let row = from + i / per_row;
        let k = i % per_row;
        out.push(pack_byte(matrix, row, k));
        assert(out@ =~= old(out)@ + Seq::new(
            (i + 1) as nat,
            |j: int|
                packed_byte(matrix@, from + j / row_bytes(matrix@), j % row_bytes(matrix@)),
        ));
        i += 1;
    }
}

/// The bytes that print `matrix` at the scaling `size`.
pub fn raster_bytes(matrix: &DotMatrix, size: BitImageSize) -> (out: Vec<u8>)
    ensures
        out@ == raster_command(matrix@, size),
{
    let width = matrix.width();
    let height = matrix.height();
    let per_row = (width + 7) / 8;
    let count = (height - 1) / BAND_ROWS + 1;
    let mut out: Vec<u8> = Vec::new();
    let mut band: usize = 0;
    while band < count
        invariant
            band <= count,
            count == band_count(matrix@),
            height == matrix@.height,
            per_row == row_bytes(matrix@),
            per_row <= 65535,
            matrix@.wf(),
            out@ == bands(matrix@, size, band as int),
        decreases count - band,
    {
        let from = band * BAND_ROWS;
        let rows = if height - from < BAND_ROWS {
            height - from
        } else {
            BAND_ROWS
        };
        out.push(GS);
        out.push(0x76);
        out.push(0x30);
        out.push(size.byte());
        out.push((per_row % 256) as u8);
        out.push((per_row / 256) as u8);
        out.push((rows % 256) as u8);
        out.push((rows / 256) as u8);
        let ghost headed = out@;
        append_rows(matrix, from, rows, &mut out);
        assert(out@ =~= bands(matrix@, size, band as int) + band_command(
            matrix@,
            size,
            band as int,
        )) by {
            assert(headed =~= bands(matrix@, size, band as int) + seq![
                GS,
                0x76u8,
                0x30u8,
                size.code(),
                (row_bytes(matrix@) % 256) as u8,
                (row_bytes(matrix@) / 256) as u8,
                (rows % 256) as u8,
                (rows / 256) as u8,
            ]);
        }
        band += 1;
    }
    out
}

} // verus!
