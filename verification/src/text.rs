//! Turning text and images into the raster lines that the printer takes.
//!
//! A label is composed on a white canvas that is as long as the label
//! and as wide as its printable area: the glyphs of one or two lines of
//! text, and below them, on the narrowest tape, an image. The canvas is
//! then cut into raster lines, one for each of its columns.

pub mod canvas;
pub mod fit;
pub mod glyphs;
pub mod raster;

use crate::printer::constants::Label;
use canvas::{
    image_height, image_overlay, image_resize, image_width, overlaid_pixel, resized_rows, Canvas,
    MAX_RESIZE_SIDE, WHITE,
};
use fit::ResizedText;
use glyphs::{draw_glyphs, glyphs_fit, glyphs_fit_within, painted, Offset, Size};
use raster::{
    bit_at, dot_at, image_to_raster_lines, is_ink, is_raster_line, lemma_blank_column, FIRST_DOT,
    LINE_BITS, MAX_DOTS,
};
use vstd::prelude::*;

verus! {

/// Length of the canvas for continuous tape, in dots.
pub const DEFAULT_LENGTH: u32 = 750;

/// Width in millimetres of the narrowest tape.
pub const NARROW_TAPE: u32 = 12;

/// Dots by which the canvas for the narrowest tape is widened.
pub const NARROW_TAPE_PAD: u32 = 25;

/// Width in dots of the band below the text that holds the second-row
/// image.
pub const SECOND_ROW_WIDTH: u32 = 170;

/// Dots of the band that the second-row image leaves free.
pub const SECOND_ROW_TOP_MARGIN: u32 = 15;

/// Largest font size of a single line of text, before scaling.
pub const SINGLE_LINE_FONT_SIZE: u32 = 125;

/// Largest font size of the first of two lines of text, before scaling.
pub const FIRST_LINE_FONT_SIZE: u32 = 90;

/// Largest font size of the second of two lines of text, before scaling.
pub const SECOND_LINE_FONT_SIZE: u32 = 35;

/// Dots by which a single line of text is moved left of the centre.
pub const SINGLE_LINE_SHIFT: u32 = 5;

/// Dots by which the first of two lines is moved up from the centre.
pub const FIRST_LINE_RAISE: u32 = 25;

/// Dots by which the centre of the second of two lines stays above the
/// lower edge of the text area.
pub const SECOND_LINE_RAISE: u32 = 20;

/// The size of the canvas for a label: `length` dots along the feed
/// direction, and across the tape `width` dots for the text and
/// `secondary_width` dots for the second-row image.
#[derive(Clone, Copy, Debug, PartialEq, Eq, Structural)]
pub struct CanvasSize {
    pub length: u32,
    pub width: u32,
    pub secondary_width: u32,
}

/// The size of a canvas as the contracts see it.
pub struct Plan {
    pub length: int,
    pub width: int,
    pub secondary_width: int,
}

impl Plan {
    /// The number of rows of the canvas.
    pub open spec fn height(self) -> int {
        self.width + self.secondary_width
    }
}

/// Why a label cannot be rasterized.
#[derive(Clone, Copy, Debug, PartialEq, Eq, Structural)]
pub enum RasterError {
    /// The canvas has more rows than a raster line has room for, or more
    /// pixels than a buffer can hold.
    CanvasTooLarge,
    /// A glyph is not well formed or does not lie inside the canvas.
    GlyphOutsideCanvas,
    /// The second-row image has no pixels or is too large to be scaled.
    SecondRowImage,
}

/// Whether a label has the band for a second-row image: it is the
/// narrowest continuous tape, and there is an image.
pub open spec fn has_second_row(label: Label, with_image: bool) -> bool {
    label.tape_size.1 == 0 && label.tape_size.0 == NARROW_TAPE && with_image
}

/// The canvas for a label. Continuous tape gets the default length, a
/// die-cut label its printable length. The width is the printable width
/// and the right margin, and the pad on the narrowest continuous tape.
pub open spec fn plan(label: Label, with_image: bool) -> Plan {
    if label.tape_size.1 == 0 {
        Plan {
            length: DEFAULT_LENGTH as int,
            width: label.dots_printable.0 + label.right_margin + if label.tape_size.0
                == NARROW_TAPE {
                NARROW_TAPE_PAD as int
            } else {
                0
            },
            secondary_width: if has_second_row(label, with_image) {
                SECOND_ROW_WIDTH as int
            } else {
                0
            },
        }
    } else {
        Plan {
            length: label.dots_printable.1 as int,
            width: label.dots_printable.0 + label.right_margin,
            secondary_width: 0,
        }
    }
}

/// Where a single line of text is drawn: centred, and moved a little to
/// the left.
pub open spec fn single_line_offset(length: int, width: int, text: Size) -> Offset {
    Offset {
        x: (length / 2 - text.x / 2 - SINGLE_LINE_SHIFT) as i64,
        y: (width / 2 - text.y / 2) as i64,
    }
}

/// Where the first of two lines of text is drawn: centred, and moved up.
pub open spec fn first_line_offset(length: int, width: int, text: Size) -> Offset {
    Offset {
        x: (length / 2 - text.x / 2) as i64,
        y: (width / 2 - text.y / 2 - FIRST_LINE_RAISE) as i64,
    }
}

/// Where the second of two lines of text is drawn: centred along the
/// label, its middle a little above the lower edge of the text area.
pub open spec fn second_line_offset(length: int, width: int, text: Size) -> Offset {
    Offset {
        x: (length / 2 - text.x / 2) as i64,
        y: (width - text.y / 2 - SECOND_LINE_RAISE) as i64,
    }
}

/// Where the first line of text is drawn on a canvas with a text area of
/// the given length and width.
fn first_position(length: u32, width: u32, text: Size, two_lines: bool) -> (offset: Offset)
    ensures
        offset == if two_lines {
            first_line_offset(length as int, width as int, text)
        } else {
            single_line_offset(length as int, width as int, text)
        },
{
    let x: i64 = (length / 2) as i64 - (text.x / 2) as i64;
    let y: i64 = (width / 2) as i64 - (text.y / 2) as i64;
    if two_lines {
        Offset { x, y: y - FIRST_LINE_RAISE as i64 }
    } else {
        Offset { x: x - SINGLE_LINE_SHIFT as i64, y }
    }
}

/// Where the second line of text is drawn on a canvas with a text area
/// of the given length and width.
fn second_position(length: u32, width: u32, text: Size) -> (offset: Offset)
    ensures
        offset == second_line_offset(length as int, width as int, text),
{
    Offset {
        x: (length / 2) as i64 - (text.x / 2) as i64,
        y: width as i64 - (text.y / 2) as i64 - SECOND_LINE_RAISE as i64,
    }
}

/// The size of an image scaled to fit into a box without changing its
/// proportions: as wide as the box, or, where that would make it too
/// high, as high as the box. Sides are rounded down.
pub open spec fn scaled_to_fit(image: Size, max_width: int, max_height: int) -> Size {
    let height = max_width * image.y / (image.x as int);
    if height > max_height {
        Size { x: (max_height * image.x / (image.y as int)) as u32, y: max_height as u32 }
    } else {
        Size { x: max_width as u32, y: height as u32 }
    }
}

/// Whether an image can be scaled: it has a pixel, and no side is longer
/// than the largest that is resized.
pub open spec fn scalable(image: Size) -> bool {
    1 <= image.x <= MAX_RESIZE_SIDE && 1 <= image.y <= MAX_RESIZE_SIDE
}

/// The luma of a pixel once the second-row image is laid over it: the
/// image is scaled to fit the band below its top margin, centred along
/// the label, and put at the top of the band.
pub open spec fn second_row_pixel(
    base: u8,
    rows: Seq<Seq<u8>>,
    width: nat,
    plan: Plan,
    x: int,
    y: int,
) -> u8 {
    let scaled = scaled_to_fit(
        Size { x: width as u32, y: rows.len() as u32 },
        plan.length,
        plan.secondary_width - SECOND_ROW_TOP_MARGIN,
    );
    overlaid_pixel(
        base,
        resized_rows(rows, width, scaled.x as nat, scaled.y as nat),
        scaled.x as int,
        (plan.length - scaled.x) / 2,
        plan.width,
        x,
        y,
    )
}

proof fn lemma_scaled_width(image_width: int, image_height: int, max_width: int, max_height: int)
    by (nonlinear_arith)
    requires
        1 <= image_width,
        1 <= image_height,
        0 <= max_width,
        0 <= max_height,
        max_width * image_height / image_width > max_height,
    ensures
        0 <= max_height * image_width / image_height <= max_width,
{
}

/// A scaled image fits into its box and fills it in one direction, and
/// it keeps the proportions of the image as far as whole pixels allow:
/// the side that does not fill the box is rounded down.
pub proof fn lemma_scaled_to_fit(image: Size, max_width: u32, max_height: u32)
    requires
        image.x >= 1,
        image.y >= 1,
        max_width * image.y / (image.x as int) <= u32::MAX,
    ensures
        ({
            let scaled = scaled_to_fit(image, max_width as int, max_height as int);
            &&& scaled.x <= max_width
            &&& scaled.y <= max_height
            &&& {
                ||| scaled.x == max_width && scaled.y * image.x <= scaled.x * image.y < (scaled.y
                    + 1) * image.x
                ||| scaled.y == max_height && scaled.x * image.y <= scaled.y * image.x < (scaled.x
                    + 1) * image.y
            }
        }),
{
    let height = max_width * image.y / (image.x as int);
    lemma_floor_of_quotient(max_width * image.y, image.x as int);
    if height > max_height {
        lemma_scaled_width(image.x as int, image.y as int, max_width as int, max_height as int);
        lemma_floor_of_quotient(max_height * image.x, image.y as int);
    }
}

proof fn lemma_floor_of_quotient(a: int, b: int)
    by (nonlinear_arith)
    requires
        0 <= a,
        1 <= b,
    ensures
        0 <= a / b,
        (a / b) * b <= a < (a / b + 1) * b,
{
}

/// Checks that an image can be scaled.
fn is_scalable(image: &Canvas) -> (yes: bool)
    ensures
        yes == scalable(Size { x: image.spec_width() as u32, y: image.spec_height() as u32 }),
{
    let width = image_width(image);
    let height = image_height(image);
    1 <= width && width <= MAX_RESIZE_SIDE && 1 <= height && height <= MAX_RESIZE_SIDE
}

/// The size of an image scaled to fit into a box.
fn scale_to_fit(image: Size, max_width: u32, max_height: u32) -> (scaled: Size)
    requires
        scalable(image),
        max_width <= MAX_RESIZE_SIDE,
        max_height <= MAX_RESIZE_SIDE,
    ensures
        scaled == scaled_to_fit(image, max_width as int, max_height as int),
        scaled.x <= max_width,
        scaled.y <= max_height,
{
    assert(max_width * image.y <= 0xFFFF * 0xFFFF) by (nonlinear_arith)
        requires
            max_width <= 0xFFFF,
            image.y <= 0xFFFF,
    ;
    assert(max_height * image.x <= 0xFFFF * 0xFFFF) by (nonlinear_arith)
        requires
            max_height <= 0xFFFF,
            image.x <= 0xFFFF,
    ;
    let height: u64 = (max_width as u64) * (image.y as u64) / (image.x as u64);
    if height > max_height as u64 {
        proof {
            lemma_scaled_width(
                image.x as int,
                image.y as int,
                max_width as int,
                max_height as int,
            );
        }
        let width: u64 = (max_height as u64) * (image.x as u64) / (image.y as u64);
        Size { x: width as u32, y: max_height }
    } else {
        Size { x: max_width, y: height as u32 }
    }
}

/// Composes labels of one kind of media.
pub struct TextRasterizer {
    label: Label,
    second_row_image: Option<Canvas>,
}

impl TextRasterizer {
    /// The media that the labels are for.
    pub closed spec fn label(self) -> Label {
        self.label
    }

    /// The image that goes below the text, if there is one.
    pub closed spec fn second_row_image(self) -> Option<Canvas> {
        self.second_row_image
    }

    /// The canvas of the labels.
    pub open spec fn plan(self) -> Plan {
        plan(self.label(), self.second_row_image() is Some)
    }

    /// Where the first line of text is drawn.
    pub open spec fn first_offset(self, primary: ResizedText, two_lines: bool) -> Offset {
        if two_lines {
            first_line_offset(self.plan().length, self.plan().width, primary.rendered_size)
        } else {
            single_line_offset(self.plan().length, self.plan().width, primary.rendered_size)
        }
    }

    /// The luma of the pixel `(x, y)` of the finished canvas: white, with
    /// the first line of text drawn over it, then the second, then the
    /// second-row image where the label has the band for it.
    pub open spec fn rendered_pixel(
        self,
        primary: ResizedText,
        secondary: Option<&ResizedText>,
        x: int,
        y: int,
    ) -> u8 {
        let first = painted(
            WHITE,
            primary.glyphs@,
            self.first_offset(primary, secondary is Some),
            x,
            y,
        );
        let text = match secondary {
            Some(second) => painted(
                first,
                second.glyphs@,
                second_line_offset(self.plan().length, self.plan().width, second.rendered_size),
                x,
                y,
            ),
            None => first,
        };
        if self.plan().secondary_width > 0 {
            second_row_pixel(
                text,
                self.second_row_image().unwrap().rows(),
                self.second_row_image().unwrap().spec_width(),
                self.plan(),
                x,
                y,
            )
        } else {
            text
        }
    }

    /// The rows of the finished canvas.
    pub open spec fn rendered_rows(
        self,
        primary: ResizedText,
        secondary: Option<&ResizedText>,
    ) -> Seq<Seq<u8>> {
        Seq::new(
            self.plan().height() as nat,
            |y: int|
                Seq::new(
                    self.plan().length as nat,
                    |x: int| self.rendered_pixel(primary, secondary, x, y),
                ),
        )
    }

    /// Whether the glyphs of the text lie inside the canvas.
    pub open spec fn text_fits(
        self,
        primary: ResizedText,
        secondary: Option<&ResizedText>,
    ) -> bool {
        &&& glyphs_fit(
            primary.glyphs@,
            self.first_offset(primary, secondary is Some),
            self.plan().length,
            self.plan().height(),
        )
        &&& secondary matches Some(second) ==> glyphs_fit(
            second.glyphs@,
            second_line_offset(self.plan().length, self.plan().width, second.rendered_size),
            self.plan().length,
            self.plan().height(),
        )
    }

    /// Why a label cannot be rasterized, if it cannot.
    pub open spec fn refusal(
        self,
        primary: ResizedText,
        secondary: Option<&ResizedText>,
    ) -> Option<RasterError> {
        if self.plan().height() > MAX_DOTS || self.plan().length * self.plan().height()
            > usize::MAX {
            Some(RasterError::CanvasTooLarge)
        } else if !self.text_fits(primary, secondary) {
            Some(RasterError::GlyphOutsideCanvas)
        } else if self.plan().secondary_width > 0 && !scalable(
            Size {
                x: self.second_row_image().unwrap().spec_width() as u32,
                y: self.second_row_image().unwrap().spec_height() as u32,
            },
        ) {
            Some(RasterError::SecondRowImage)
        } else {
            None
        }
    }

    /// A rasterizer for labels of the given media, without an image.
    pub fn new(label: Label) -> (rasterizer: Self)
        ensures
            rasterizer.label() == label,
            rasterizer.second_row_image() is None,
    {
        Self { label, second_row_image: None }
    }

    /// Puts an image below the text of the labels. It shows only on the
    /// narrowest continuous tape.
    pub fn set_second_row_image(&mut self, image: Canvas)
        ensures
            final(self).label() == old(self).label(),
            final(self).second_row_image() == Some(image),
    {
        self.second_row_image = Some(image);
    }

    /// The size of the canvas, if a raster line has room for its rows.
    pub fn canvas_size(&self) -> (size: Option<CanvasSize>)
        ensures
            size is Some <==> self.plan().height() <= MAX_DOTS,
            size matches Some(s) ==> s.length == self.plan().length && s.width
                == self.plan().width && s.secondary_width == self.plan().secondary_width,
    {
        let mut length: u32 = DEFAULT_LENGTH;
        let mut width: u64 = self.label.dots_printable.0 as u64 + self.label.right_margin as u64;
        let mut secondary_width: u32 = 0;

        if self.label.tape_size.1 == 0 {
            // Continuous tape
            if self.label.tape_size.0 == NARROW_TAPE {
                width += NARROW_TAPE_PAD as u64;
                // The narrowest tape has room for a second row below the text
                if self.second_row_image.is_some() {
                    secondary_width = SECOND_ROW_WIDTH;
                }
            }
        } else {
            // Die cut labels
            length = self.label.dots_printable.1;
        }
        if width + secondary_width as u64 > MAX_DOTS as u64 {
            None
        } else {
            Some(CanvasSize { length, width: width as u32, secondary_width })
        }
    }

    /// Composes a label and converts it into raster lines.
    ///
    /// A single line of text is centred on the label. Of two lines the
    /// first stands above the centre and the second near the lower edge.
    pub fn rasterize(
        &self,
        primary: &ResizedText,
        secondary: Option<&ResizedText>,
    ) -> (lines: Result<Vec<[u8; 90]>, RasterError>)
        ensures
            match lines {
                Ok(lines) => {
                    &&& self.refusal(*primary, secondary) is None
                    &&& lines@.len() == self.plan().length
                    &&& forall|c: int|
                        0 <= c < lines@.len() ==> is_raster_line(
                            #[trigger] lines@[c]@,
                            self.rendered_rows(*primary, secondary),
                            c,
                        )
                },
                Err(error) => self.refusal(*primary, secondary) == Some(error),
            },
    {
        let size = match self.canvas_size() {
            Some(size) => size,
            None => {
                return Err(RasterError::CanvasTooLarge);
            },
        };
        let length: u32 = size.length;
        let width: u32 = size.width;
        let height: u32 = width + size.secondary_width;
        let mut image = match Canvas::new(length, height) {
            Some(image) => image,
            None => {
                return Err(RasterError::CanvasTooLarge);
            },
        };
        let ghost blank = image;

        let primary_offset = first_position(
            length,
            width,
            primary.rendered_size,
            secondary.is_some(),
        );
        if !glyphs_fit_within(primary.glyphs.as_slice(), primary_offset, length, height) {
            return Err(RasterError::GlyphOutsideCanvas);
        }
        if let Some(second) = secondary {
            let secondary_offset = second_position(length, width, second.rendered_size);
            if !glyphs_fit_within(second.glyphs.as_slice(), secondary_offset, length, height) {
                return Err(RasterError::GlyphOutsideCanvas);
            }
        }
        if size.secondary_width > 0 {
            if let Some(overlay) = &self.second_row_image {
                if !is_scalable(overlay) {
                    return Err(RasterError::SecondRowImage);
                }
            }
        }
        draw_glyphs(&mut image, primary.glyphs.as_slice(), primary_offset);
        let ghost first = image;
        if let Some(second) = secondary {
            let secondary_offset = second_position(length, width, second.rendered_size);
            draw_glyphs(&mut image, second.glyphs.as_slice(), secondary_offset);
        }
        let ghost text = image;

        if size.secondary_width > 0 {
            if let Some(overlay) = &self.second_row_image {
                let scaled = scale_to_fit(
                    Size { x: image_width(overlay), y: image_height(overlay) },
                    length,
                    size.secondary_width - SECOND_ROW_TOP_MARGIN,
                );
                let resized = image_resize(overlay, scaled.x, scaled.y);
                // Centre the image below the text
                image_overlay(&mut image, &resized, (length - scaled.x) / 2, width);
            }
        }
        let lines = image_to_raster_lines(&image, length);
        proof {
            let rows = self.rendered_rows(*primary, secondary);
            assert(rows.len() == image.rows().len());
            assert forall|x: int, y: int| image.holds(x, y) implies image.pixel(x, y)
                == self.rendered_pixel(*primary, secondary, x, y) by {
                assert(blank.holds(x, y));
                assert(first.holds(x, y));
                assert(text.holds(x, y));
                assert(blank.pixel(x, y) == WHITE);
            }
            assert forall|c: int| 0 <= c < lines@.len() implies is_raster_line(
                #[trigger] lines@[c]@,
                rows,
                c,
            ) by {
                let line = lines@[c]@;
                assert(is_raster_line(line, image.rows(), c));
                assert forall|position: int| 0 <= position < LINE_BITS implies #[trigger] bit_at(
                    line,
                    position,
                ) == dot_at(rows, c, position) by {
                    assert(bit_at(line, position) == dot_at(image.rows(), c, position));
                    if FIRST_DOT <= position < FIRST_DOT + rows.len() {
                        let row = position - FIRST_DOT;
                        assert(image.holds(c, row));
                        assert(rows[row][c] == self.rendered_pixel(*primary, secondary, c, row));
                    }
                }
            }
        }
        Ok(lines)
    }
}

/// A label without glyphs and without a second-row image prints
/// nothing: every byte of every raster line is zero.
pub proof fn lemma_label_without_ink(
    rasterizer: TextRasterizer,
    primary: ResizedText,
    secondary: Option<&ResizedText>,
    line: Seq<u8>,
    column: int,
)
    requires
        primary.glyphs@.len() == 0,
        secondary matches Some(second) ==> second.glyphs@.len() == 0,
        rasterizer.plan().secondary_width == 0,
        0 <= rasterizer.plan().height(),
        0 <= column < rasterizer.plan().length,
        is_raster_line(line, rasterizer.rendered_rows(primary, secondary), column),
    ensures
        forall|k: int| 0 <= k < 90 ==> line[k] == 0,
{
    let rows = rasterizer.rendered_rows(primary, secondary);
    assert forall|r: int| 0 <= r < rows.len() implies !is_ink(#[trigger] rows[r][column]) by {
        assert(rows[r][column] == rasterizer.rendered_pixel(primary, secondary, column, r));
    }
    lemma_blank_column(line, rows, column);
}

} // verus!
