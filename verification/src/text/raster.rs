//! From a canvas to raster lines.
//!
//! The printer takes a label as a sequence of raster lines, one for each
//! column of the canvas. A line is 90 bytes, read as 720 bits from the
//! most significant bit of the first byte on. The first twelve bits stay
//! blank; the dots of the column follow from the top row down.

use super::canvas::{image_get_pixel, image_height, Canvas};
use vstd::prelude::*;

verus! {

/// Number of bits in a raster line.
pub const LINE_BITS: usize = 720;

/// Position of the bit that holds the top row of the canvas.
pub const FIRST_DOT: usize = 12;

/// Number of rows that a raster line has room for.
pub const MAX_DOTS: u32 = 708;

/// Largest luma that still prints as ink: a pixel is ink below half
/// intensity and blank from there on.
pub const INK_THRESHOLD: u8 = 0xFF / 2;

/// Whether a pixel of this luma is printed.
pub open spec fn is_ink(luma: u8) -> bool {
    luma <= INK_THRESHOLD
}

/// Whether bit `index` of a byte is set, counted from the least
/// significant bit.
pub open spec fn has_bit(byte: u8, index: u8) -> bool {
    (byte >> index) & 1u8 == 1u8
}

/// Whether the bit at `position` of a line is set, counted from the most
/// significant bit of the first byte.
pub open spec fn bit_at(line: Seq<u8>, position: int) -> bool {
    has_bit(line[position / 8], (7 - position % 8) as u8)
}

/// Whether the dot at `position` of the raster line for `column` is
/// printed: the position belongs to a row of the canvas, and the pixel in
/// that row is ink.
pub open spec fn dot_at(rows: Seq<Seq<u8>>, column: int, position: int) -> bool {
    FIRST_DOT <= position < FIRST_DOT + rows.len() && is_ink(rows[position - FIRST_DOT][column])
}

/// Whether `line` is the raster line for `column` of a canvas: each of
/// its bits is set exactly where a dot is printed.
pub open spec fn is_raster_line(line: Seq<u8>, rows: Seq<Seq<u8>>, column: int) -> bool {
    &&& line.len() == 90
    &&& forall|position: int|
        0 <= position < LINE_BITS ==> #[trigger] bit_at(line, position) == dot_at(
            rows,
            column,
            position,
        )
}

proof fn lemma_put_bit(byte: u8, value: u8, index: u8, other: u8)
    by (bit_vector)
    requires
        value <= 1,
        index < 8,
        other < 8,
    ensures
        ((byte | (value << index)) >> other) & 1u8 == 1u8 <==> (other == index && value == 1) || (
        byte >> other) & 1u8 == 1u8,
{
}

proof fn lemma_no_bit(index: u8)
    by (bit_vector)
    requires
        index < 8,
    ensures
        (0u8 >> index) & 1u8 != 1u8,
{
}

proof fn lemma_same_bits(a: u8, b: u8)
    by (bit_vector)
    requires
        ((a >> 0u8) & 1u8 == 1u8) == ((b >> 0u8) & 1u8 == 1u8),
        ((a >> 1u8) & 1u8 == 1u8) == ((b >> 1u8) & 1u8 == 1u8),
        ((a >> 2u8) & 1u8 == 1u8) == ((b >> 2u8) & 1u8 == 1u8),
        ((a >> 3u8) & 1u8 == 1u8) == ((b >> 3u8) & 1u8 == 1u8),
        ((a >> 4u8) & 1u8 == 1u8) == ((b >> 4u8) & 1u8 == 1u8),
        ((a >> 5u8) & 1u8 == 1u8) == ((b >> 5u8) & 1u8 == 1u8),
        ((a >> 6u8) & 1u8 == 1u8) == ((b >> 6u8) & 1u8 == 1u8),
        ((a >> 7u8) & 1u8 == 1u8) == ((b >> 7u8) & 1u8 == 1u8),
    ensures
        a == b,
{
}

/// Two bytes of two lines are equal if the lines agree in the eight bits
/// of that byte.
proof fn lemma_byte_by_bits(a: Seq<u8>, b: Seq<u8>, k: int)
    requires
        forall|position: int|
            8 * k <= position < 8 * k + 8 ==> bit_at(a, position) == bit_at(b, position),
    ensures
        a[k] == b[k],
{
    assert(bit_at(a, 8 * k + 7) == bit_at(b, 8 * k + 7));
    assert(bit_at(a, 8 * k + 6) == bit_at(b, 8 * k + 6));
    assert(bit_at(a, 8 * k + 5) == bit_at(b, 8 * k + 5));
    assert(bit_at(a, 8 * k + 4) == bit_at(b, 8 * k + 4));
    assert(bit_at(a, 8 * k + 3) == bit_at(b, 8 * k + 3));
    assert(bit_at(a, 8 * k + 2) == bit_at(b, 8 * k + 2));
    assert(bit_at(a, 8 * k + 1) == bit_at(b, 8 * k + 1));
    assert(bit_at(a, 8 * k) == bit_at(b, 8 * k));
    lemma_same_bits(a[k], b[k]);
}

/// Converts a canvas into raster lines, one for each of its columns from
/// the left. `width` is the width of the canvas.
pub fn image_to_raster_lines(image: &Canvas, width: u32) -> (lines: Vec<[u8; 90]>)
    requires
        width == image.spec_width(),
        image.spec_height() <= MAX_DOTS,
    ensures
        lines@.len() == width,
        forall|c: int| 0 <= c < width ==> is_raster_line(#[trigger] lines@[c]@, image.rows(), c),
{
    let line_count = image_height(image);

    // We need to sidescan the image for the printer
    let mut lines: Vec<[u8; 90]> = Vec::new();
    let mut c: u32 = 0;
    while c < width
        invariant
            c <= width,
            width == image.spec_width(),
            line_count == image.spec_height(),
            line_count <= MAX_DOTS,
            lines@.len() == c,
            forall|k: int| 0 <= k < c ==> is_raster_line(#[trigger] lines@[k]@, image.rows(), k),
        decreases width - c,
    {
        let mut line = [0u8;90];
        // The first byte and the first nibble of the second byte stay blank
        let mut line_byte: usize = 1;
        // Bit index counts backwards
        let mut line_bit_index: u8 = 3;
        proof {
            assert forall|position: int| 0 <= position < LINE_BITS implies #[trigger] bit_at(
                line@,
                position,
            ) == false by {
                lemma_no_bit((7 - position % 8) as u8);
            }
        }
        let mut r: u32 = 0;
        while r < line_count
            invariant
                r <= line_count,
                c < width,
                width == image.spec_width(),
                line_count == image.spec_height(),
                line_count <= MAX_DOTS,
                line_bit_index < 8,
                FIRST_DOT + r == 8 * line_byte + (7 - line_bit_index),
                forall|position: int|
                    0 <= position < LINE_BITS ==> #[trigger] bit_at(line@, position) == (position
                        < FIRST_DOT + r && dot_at(image.rows(), c as int, position)),
            decreases line_count - r,
        {
            let luma_pixel = image_get_pixel(image, c, r);
            let value: u8 = if luma_pixel > INK_THRESHOLD {
                0
            } else {
                1
            };
            let ghost before = line@;
            let ghost here = FIRST_DOT + r;
            line[line_byte] = line[line_byte] | (value << line_bit_index);
            proof {
                assert forall|position: int| 0 <= position < LINE_BITS implies #[trigger] bit_at(
                    line@,
                    position,
                ) == (position < here + 1 && dot_at(image.rows(), c as int, position)) by {
                    if position / 8 == line_byte {
                        lemma_put_bit(
                            before[line_byte as int],
                            value,
                            line_bit_index,
                            (7 - position % 8) as u8,
                        );
                        assert(bit_at(before, position) == (position < here && dot_at(
                            image.rows(),
                            c as int,
                            position,
                        )));
                    } else {
                        assert(line@[position / 8] == before[position / 8]);
                        assert(bit_at(before, position) == (position < here && dot_at(
                            image.rows(),
                            c as int,
                            position,
                        )));
                    }
                }
            }
            if line_bit_index == 0 {
                line_byte += 1;
                line_bit_index = 7;
            } else {
                line_bit_index -= 1;
            }
            r += 1;
        }
        lines.push(line);
        c += 1;
    }
    lines
}

/// The raster line of a column is determined by the canvas: two lines
/// for the same column are the same line.
pub proof fn lemma_raster_line_unique(a: Seq<u8>, b: Seq<u8>, rows: Seq<Seq<u8>>, column: int)
    requires
        is_raster_line(a, rows, column),
        is_raster_line(b, rows, column),
    ensures
        a == b,
{
    assert forall|k: int| 0 <= k < 90 implies a[k] == b[k] by {
        assert forall|position: int| 8 * k <= position < 8 * k + 8 implies bit_at(a, position)
            == bit_at(b, position) by {
            assert(bit_at(a, position) == dot_at(rows, column, position));
            assert(bit_at(b, position) == dot_at(rows, column, position));
        }
        lemma_byte_by_bits(a, b, k);
    }
    assert(a =~= b);
}

/// A column without ink gives a line of zero bytes.
pub proof fn lemma_blank_column(line: Seq<u8>, rows: Seq<Seq<u8>>, column: int)
    requires
        is_raster_line(line, rows, column),
        forall|r: int| 0 <= r < rows.len() ==> !is_ink(#[trigger] rows[r][column]),
    ensures
        forall|k: int| 0 <= k < 90 ==> line[k] == 0,
{
    let zero = Seq::new(90, |k: int| 0u8);
    assert forall|k: int| 0 <= k < 90 implies line[k] == 0 by {
        assert forall|position: int| 8 * k <= position < 8 * k + 8 implies bit_at(line, position)
            == bit_at(zero, position) by {
            assert(bit_at(line, position) == dot_at(rows, column, position));
            lemma_no_bit((7 - position % 8) as u8);
            if FIRST_DOT <= position < FIRST_DOT + rows.len() {
                assert(!is_ink(rows[position - FIRST_DOT][column]));
            }
        }
        lemma_byte_by_bits(line, zero, k);
    }
}

/// A column of ink alone gives the complement: every bit that stands for
/// a row of the canvas is set, and no other.
pub proof fn lemma_inked_column(line: Seq<u8>, rows: Seq<Seq<u8>>, column: int)
    requires
        is_raster_line(line, rows, column),
        forall|r: int| 0 <= r < rows.len() ==> is_ink(#[trigger] rows[r][column]),
    ensures
        forall|position: int|
            0 <= position < LINE_BITS ==> #[trigger] bit_at(line, position) == (FIRST_DOT
                <= position < FIRST_DOT + rows.len()),
        forall|k: int|
            0 <= k < 90 && FIRST_DOT <= 8 * k && 8 * k + 8 <= FIRST_DOT + rows.len() ==> line[k]
                == 0xFF,
{
    assert forall|position: int| 0 <= position < LINE_BITS implies #[trigger] bit_at(
        line,
        position,
    ) == (FIRST_DOT <= position < FIRST_DOT + rows.len()) by {
        assert(bit_at(line, position) == dot_at(rows, column, position));
        if FIRST_DOT <= position < FIRST_DOT + rows.len() {
            assert(is_ink(rows[position - FIRST_DOT][column]));
        }
    }
    let full = Seq::new(90, |k: int| 0xFFu8);
    assert forall|k: int|
        0 <= k < 90 && FIRST_DOT <= 8 * k && 8 * k + 8 <= FIRST_DOT + rows.len() implies line[k]
        == 0xFF by {
        assert forall|position: int| 8 * k <= position < 8 * k + 8 implies bit_at(line, position)
            == bit_at(full, position) by {
            assert(bit_at(line, position));
            lemma_full_byte((7 - position % 8) as u8);
        }
        lemma_byte_by_bits(line, full, k);
    }
}

proof fn lemma_full_byte(index: u8)
    by (bit_vector)
    requires
        index < 8,
    ensures
        (0xFFu8 >> index) & 1u8 == 1u8,
{
}

/// The bits before the first dot are blank whatever the canvas holds:
/// the first byte of a line is zero, and so is the upper half of the
/// second.
pub proof fn lemma_reserved_bits_blank(line: Seq<u8>, rows: Seq<Seq<u8>>, column: int)
    requires
        is_raster_line(line, rows, column),
    ensures
        line[0] == 0,
        line[1] < 16,
{
    let zero = Seq::new(90, |k: int| 0u8);
    assert forall|position: int| 0 <= position < 8 implies bit_at(line, position) == bit_at(
        zero,
        position,
    ) by {
        assert(bit_at(line, position) == dot_at(rows, column, position));
        lemma_no_bit((7 - position % 8) as u8);
    }
    lemma_byte_by_bits(line, zero, 0);
    assert(!bit_at(line, 8) && !bit_at(line, 9) && !bit_at(line, 10) && !bit_at(line, 11)) by {
        assert(bit_at(line, 8) == dot_at(rows, column, 8));
        assert(bit_at(line, 9) == dot_at(rows, column, 9));
        assert(bit_at(line, 10) == dot_at(rows, column, 10));
        assert(bit_at(line, 11) == dot_at(rows, column, 11));
    }
    lemma_low_nibble(line[1]);
}

proof fn lemma_low_nibble(byte: u8)
    by (bit_vector)
    requires
        (byte >> 7u8) & 1u8 != 1u8,
        (byte >> 6u8) & 1u8 != 1u8,
        (byte >> 5u8) & 1u8 != 1u8,
        (byte >> 4u8) & 1u8 != 1u8,
    ensures
        byte < 16,
{
}

} // verus!
