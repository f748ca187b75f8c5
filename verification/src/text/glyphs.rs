//! Laid-out glyphs: measuring them and drawing them.
//!
//! A font is not read here. Whoever lays the text out hands over, for
//! each glyph, the pixel rectangle that it covers and how much of each
//! pixel in it is covered.

use super::canvas::{image_height, image_put_pixel, image_width, Canvas};
use vstd::prelude::*;

verus! {

/// A width and a height in pixels.
#[derive(Clone, Copy, Debug, PartialEq, Eq, Structural)]
pub struct Size {
    pub x: u32,
    pub y: u32,
}

/// A step to the right and down, in pixels.
#[derive(Clone, Copy, Debug, PartialEq, Eq, Structural)]
pub struct Offset {
    pub x: i64,
    pub y: i64,
}

/// The pixels that a glyph covers: from `min` up to, but without, `max`.
#[derive(Clone, Copy, Debug, PartialEq, Eq, Structural)]
pub struct BoundingBox {
    pub min_x: i32,
    pub min_y: i32,
    pub max_x: i32,
    pub max_y: i32,
}

impl BoundingBox {
    /// The number of pixels in a row of the box.
    pub open spec fn width(self) -> int {
        self.max_x - self.min_x
    }

    /// The number of rows of the box.
    pub open spec fn height(self) -> int {
        self.max_y - self.min_y
    }
}

/// A glyph at its place in a line of text.
///
/// A glyph without a shape, such as a space, has no bounding box.
/// `coverage` holds one value for each pixel of the box, row by row: 0
/// for a pixel that the shape leaves free, 255 for one that it fills.
#[derive(Debug)]
pub struct Glyph {
    pub bounding_box: Option<BoundingBox>,
    pub coverage: Vec<u8>,
}

impl Glyph {
    /// The box is not inside out, and there is one coverage value for
    /// each of its pixels.
    pub open spec fn well_formed(self) -> bool {
        match self.bounding_box {
            Some(bounds) => bounds.min_x <= bounds.max_x && bounds.min_y <= bounds.max_y
                && self.coverage@.len() == bounds.width() * bounds.height(),
            None => true,
        }
    }

    /// Whether the glyph, moved by `offset`, covers the pixel `(x, y)`.
    pub open spec fn covers(self, offset: Offset, x: int, y: int) -> bool {
        match self.bounding_box {
            Some(bounds) => bounds.min_x + offset.x <= x < bounds.max_x + offset.x && bounds.min_y
                + offset.y <= y < bounds.max_y + offset.y,
            None => false,
        }
    }

    /// The luma that the glyph, moved by `offset`, gives to a pixel that
    /// it covers: white less the coverage.
    pub open spec fn luma_at(self, offset: Offset, x: int, y: int) -> u8 {
        let bounds = self.bounding_box.unwrap();
        let column = x - offset.x - bounds.min_x;
        let row = y - offset.y - bounds.min_y;
        (255 - self.coverage@[row * bounds.width() + column]) as u8
    }

    /// Whether the glyph, moved by `offset`, stays inside an image of
    /// the given size.
    pub open spec fn fits(self, offset: Offset, width: int, height: int) -> bool {
        forall|x: int, y: int| #[trigger]
            self.covers(offset, x, y) ==> 0 <= x < width && 0 <= y < height
    }

    /// Checks that the glyph is well formed.
    pub fn is_well_formed(&self) -> (yes: bool)
        ensures
            yes == self.well_formed(),
    {
        match self.bounding_box {
            Some(bounds) => {
                if bounds.min_x > bounds.max_x || bounds.min_y > bounds.max_y {
                    return false;
                }
                let width: u64 = (bounds.max_x as i64 - bounds.min_x as i64) as u64;
                let height: u64 = (bounds.max_y as i64 - bounds.min_y as i64) as u64;
                assert(width * height <= 0xFFFF_FFFF * 0xFFFF_FFFF) by (nonlinear_arith)
                    requires
                        width <= 0xFFFF_FFFF,
                        height <= 0xFFFF_FFFF,
                ;
                self.coverage.len() as u64 == width * height
            },
            None => true,
        }
    }

    /// Checks that the glyph, moved by `offset`, stays inside an image of
    /// the given size.
    pub fn fits_within(&self, offset: Offset, width: u32, height: u32) -> (yes: bool)
        ensures
            yes == self.fits(offset, width as int, height as int),
    {
        match self.bounding_box {
            Some(bounds) => {
                if bounds.min_x >= bounds.max_x || bounds.min_y >= bounds.max_y {
                    return true;
                }
                let left: i128 = bounds.min_x as i128 + offset.x as i128;
                let right: i128 = bounds.max_x as i128 + offset.x as i128;
                let top: i128 = bounds.min_y as i128 + offset.y as i128;
                let bottom: i128 = bounds.max_y as i128 + offset.y as i128;
                let inside = 0 <= left && right <= width as i128 && 0 <= top && bottom
                    <= height as i128;
                proof {
                    if !inside {
                        assert(self.covers(offset, left as int, top as int));
                        assert(self.covers(offset, right - 1, bottom - 1));
                    }
                }
                inside
            },
            None => true,
        }
    }
}

/// Whether every glyph is well formed and, moved by `offset`, stays
/// inside an image of the given size.
pub open spec fn glyphs_fit(glyphs: Seq<Glyph>, offset: Offset, width: int, height: int) -> bool {
    forall|i: int|
        0 <= i < glyphs.len() ==> (#[trigger] glyphs[i]).well_formed() && glyphs[i].fits(
            offset,
            width,
            height,
        )
}

/// Checks that glyphs can be drawn at `offset` into an image of the given
/// size.
pub fn glyphs_fit_within(glyphs: &[Glyph], offset: Offset, width: u32, height: u32) -> (yes: bool)
    ensures
        yes == glyphs_fit(glyphs@, offset, width as int, height as int),
{
    let mut i: usize = 0;
    while i < glyphs.len()
        invariant
            i <= glyphs.len(),
            glyphs_fit(glyphs@.take(i as int), offset, width as int, height as int),
        decreases glyphs.len() - i,
    {
        if !glyphs[i].is_well_formed() || !glyphs[i].fits_within(offset, width, height) {
            return false;
        }
        proof {
            let next = glyphs@.take(i + 1);
            assert forall|k: int| 0 <= k < next.len() implies (#[trigger] next[k]).well_formed()
                && next[k].fits(offset, width as int, height as int) by {
                if k < i {
                    assert(glyphs@.take(i as int)[k] == next[k]);
                }
            }
        }
        i += 1;
    }
    assert(glyphs@.take(i as int) =~= glyphs@);
    true
}

/// A line of text can be measured if it has a glyph and both its first
/// and its last glyph have a bounding box.
pub open spec fn measurable(glyphs: Seq<Glyph>) -> bool {
    glyphs.len() > 0 && glyphs.first().bounding_box is Some && glyphs.last().bounding_box is Some
}

/// The width of a line of text in pixels: from the left edge of its
/// first glyph to the right edge of its last, as an unsigned 32-bit
/// number.
pub open spec fn text_width(glyphs: Seq<Glyph>) -> int {
    (glyphs.last().bounding_box.unwrap().max_x - glyphs.first().bounding_box.unwrap().min_x)
        % 0x1_0000_0000
}

/// Checks that a line of text can be measured.
pub fn is_measurable(glyphs: &[Glyph]) -> (yes: bool)
    ensures
        yes == measurable(glyphs@),
{
    glyphs.len() > 0 && glyphs[0].bounding_box.is_some() && glyphs[glyphs.len()
        - 1].bounding_box.is_some()
}

/// Measures a line of text.
pub fn calc_text_width(glyphs: &[Glyph]) -> (width: u32)
    requires
        measurable(glyphs@),
    ensures
        width == text_width(glyphs@),
{
    let min_x: i32 = glyphs[0].bounding_box.unwrap().min_x;
    let max_x: i32 = glyphs[glyphs.len() - 1].bounding_box.unwrap().max_x;
    let distance: i64 = max_x as i64 - min_x as i64;
    if distance < 0 {
        (distance + 0x1_0000_0000) as u32
    } else {
        distance as u32
    }
}

/// The luma of a pixel after glyphs were drawn over it one after the
/// other: that of the last glyph that covers the pixel, or what it was
/// if none does.
pub open spec fn painted(base: u8, glyphs: Seq<Glyph>, offset: Offset, x: int, y: int) -> u8
    decreases glyphs.len(),
{
    if glyphs.len() == 0 {
        base
    } else if glyphs.last().covers(offset, x, y) {
        glyphs.last().luma_at(offset, x, y)
    } else {
        painted(base, glyphs.drop_last(), offset, x, y)
    }
}

proof fn lemma_coverage_index(column: int, row: int, width: int, height: int)
    by (nonlinear_arith)
    requires
        0 <= column < width,
        0 <= row < height,
    ensures
        0 <= row * width + column < width * height,
{
}

/// Draws glyphs into an image, each moved by `offset`.
pub fn draw_glyphs(image: &mut Canvas, glyphs: &[Glyph], offset: Offset)
    requires
        glyphs_fit(
            glyphs@,
            offset,
            old(image).spec_width() as int,
            old(image).spec_height() as int,
        ),
    ensures
        final(image).same_size(*old(image)),
        forall|x: int, y: int|
            old(image).holds(x, y) ==> final(image).pixel(x, y) == painted(
                old(image).pixel(x, y),
                glyphs@,
                offset,
                x,
                y,
            ),
{
    let width: u32 = image_width(image);
    let height: u32 = image_height(image);
    let mut i: usize = 0;
    while i < glyphs.len()
        invariant
            i <= glyphs.len(),
            image.same_size(*old(image)),
            width == old(image).spec_width(),
            height == old(image).spec_height(),
            glyphs_fit(glyphs@, offset, width as int, height as int),
            forall|x: int, y: int|
                old(image).holds(x, y) ==> image.pixel(x, y) == painted(
                    old(image).pixel(x, y),
                    glyphs@.take(i as int),
                    offset,
                    x,
                    y,
                ),
        decreases glyphs.len() - i,
    {
        let glyph = &glyphs[i];
        let ghost before = *image;
        assert(glyph.well_formed() && glyph.fits(offset, width as int, height as int));
        if let Some(bounding_box) = glyph.bounding_box {
            let columns: u32 = (bounding_box.max_x as i64 - bounding_box.min_x as i64) as u32;
            let rows: u32 = (bounding_box.max_y as i64 - bounding_box.min_y as i64) as u32;
            let samples: usize = glyph.coverage.len();
            let mut y: u32 = 0;
            while y < rows
                invariant
                    y <= rows,
                    glyph.bounding_box == Some(bounding_box),
                    glyph.well_formed(),
                    glyph.fits(offset, width as int, height as int),
                    columns == bounding_box.width(),
                    rows == bounding_box.height(),
                    samples == glyph.coverage@.len(),
                    image.same_size(before),
                    width == before.spec_width(),
                    height == before.spec_height(),
                    forall|px: int, py: int|
                        before.holds(px, py) ==> image.pixel(px, py) == if glyph.covers(
                            offset,
                            px,
                            py,
                        ) && py < bounding_box.min_y + offset.y + y {
                            glyph.luma_at(offset, px, py)
                        } else {
                            before.pixel(px, py)
                        },
                decreases rows - y,
            {
                let mut x: u32 = 0;
                while x < columns
                    invariant
                        x <= columns,
                        y < rows,
                        glyph.bounding_box == Some(bounding_box),
                        glyph.well_formed(),
                        glyph.fits(offset, width as int, height as int),
                        columns == bounding_box.width(),
                        rows == bounding_box.height(),
                        samples == glyph.coverage@.len(),
                        image.same_size(before),
                        width == before.spec_width(),
                        height == before.spec_height(),
                        forall|px: int, py: int|
                            before.holds(px, py) ==> image.pixel(px, py) == if glyph.covers(
                                offset,
                                px,
                                py,
                            ) && (py < bounding_box.min_y + offset.y + y || (py
                                == bounding_box.min_y + offset.y + y && px < bounding_box.min_x
                                + offset.x + x)) {
                                glyph.luma_at(offset, px, py)
                            } else {
                                before.pixel(px, py)
                            },
                    decreases columns - x,
                {
                    proof {
                        lemma_coverage_index(x as int, y as int, columns as int, rows as int);
                        assert(glyph.coverage@.len() == columns * rows);
                        assert(glyph.covers(
                            offset,
                            x + bounding_box.min_x + offset.x,
                            y + bounding_box.min_y + offset.y,
                        ));
                    }
                    // Turn the coverage into an alpha value
                    let color: u8 = 255 - glyph.coverage[(y as usize) * (columns as usize) + (
                    x as usize)];
                    // Offset the position by the glyph bounding box
                    let px: u32 = (x as i64 + bounding_box.min_x as i64 + offset.x) as u32;
                    let py: u32 = (y as i64 + bounding_box.min_y as i64 + offset.y) as u32;
                    image_put_pixel(image, px, py, color);
                    x += 1;
                }
                y += 1;
            }
        }
        proof {
            let next = glyphs@.take(i + 1);
            assert(next.drop_last() =~= glyphs@.take(i as int));
            assert(next.last() == glyphs@[i as int]);
            assert forall|x: int, y: int| old(image).holds(x, y) implies image.pixel(x, y)
                == painted(old(image).pixel(x, y), next, offset, x, y) by {
                assert(before.holds(x, y));
                assert(before.pixel(x, y) == painted(
                    old(image).pixel(x, y),
                    glyphs@.take(i as int),
                    offset,
                    x,
                    y,
                ));
            }
        }
        i += 1;
    }
    assert(glyphs@.take(i as int) =~= glyphs@);
}

} // verus!
