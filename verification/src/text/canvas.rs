//! The grayscale pixel buffer that labels are drawn on.
//!
//! The buffer is an `image::GrayImage`. Verus does not look inside it:
//! what it holds is known through [`canvas_rows`] and [`canvas_width`],
//! and through the contracts that the functions at the end of this file
//! give to the methods of the `image` crate.

use vstd::prelude::*;

verus! {

/// Luma of a pixel without ink.
pub const WHITE: u8 = 255;

/// Largest width and height of an image that is resized.
pub const MAX_RESIZE_SIDE: u32 = 0xFFFF;

/// A grayscale image, one byte of luma for each pixel.
#[verifier::external_body]
pub struct Canvas {
    image: image::GrayImage,
}

/// The luma of the pixels of an image, row by row from the top, each row
/// from the left.
pub uninterp spec fn canvas_rows(canvas: Canvas) -> Seq<Seq<u8>>;

/// The number of pixels in each row of an image.
pub uninterp spec fn canvas_width(canvas: Canvas) -> nat;

/// The rows of an image after `image::imageops::resize` with the triangle
/// filter has brought it to another width and height.
pub uninterp spec fn resized_rows(
    rows: Seq<Seq<u8>>,
    width: nat,
    new_width: nat,
    new_height: nat,
) -> Seq<Seq<u8>>;

/// The luma of the pixel `(px, py)` after an image was laid over it with
/// its top left corner at `(x, y)`: inside the rectangle that the image
/// covers its pixel shows, elsewhere the pixel keeps its luma `base`.
pub open spec fn overlaid_pixel(
    base: u8,
    top: Seq<Seq<u8>>,
    top_width: int,
    x: int,
    y: int,
    px: int,
    py: int,
) -> u8 {
    if x <= px < x + top_width && y <= py < y + top.len() {
        top[py - y][px - x]
    } else {
        base
    }
}

impl Canvas {
    /// The rows of the image.
    pub open spec fn rows(self) -> Seq<Seq<u8>> {
        canvas_rows(self)
    }

    /// The width of the image.
    pub open spec fn spec_width(self) -> nat {
        canvas_width(self)
    }

    /// The height of the image.
    pub open spec fn spec_height(self) -> nat {
        canvas_rows(self).len()
    }

    /// The luma at column `x` of row `y`.
    pub open spec fn pixel(self, x: int, y: int) -> u8 {
        canvas_rows(self)[y][x]
    }

    /// Whether the image has a pixel at column `x` of row `y`.
    pub open spec fn holds(self, x: int, y: int) -> bool {
        0 <= x < self.spec_width() && 0 <= y < self.spec_height()
    }

    /// Whether every pixel of the image has the luma `value`.
    pub open spec fn is_filled_with(self, value: u8) -> bool {
        forall|x: int, y: int| self.holds(x, y) ==> self.pixel(x, y) == value
    }

    /// Whether two images have the same size.
    pub open spec fn same_size(self, other: Canvas) -> bool {
        self.spec_width() == other.spec_width() && self.spec_height() == other.spec_height()
    }

    /// A white image of the given size; `None` if it would hold more
    /// pixels than a buffer can.
    pub fn new(width: u32, height: u32) -> (canvas: Option<Canvas>)
        ensures
            canvas is Some <==> width * height <= usize::MAX,
            canvas matches Some(c) ==> c.spec_width() == width && c.spec_height() == height
                && c.is_filled_with(WHITE),
    {
        assert(width * height <= 0xFFFF_FFFF * 0xFFFF_FFFF) by (nonlinear_arith)
            requires
                width <= 0xFFFF_FFFF,
                height <= 0xFFFF_FFFF,
        ;
        if (width as u64) * (height as u64) > usize::MAX as u64 {
            return None;
        }
        Some(image_from_pixel(width, height, WHITE))
    }

    /// An image over the pixels of `pixels`, which holds the rows one
    /// after the other; `None` if there are fewer than the size asks for.
    pub fn from_raw(width: u32, height: u32, pixels: Vec<u8>) -> (canvas: Option<Canvas>)
        ensures
            canvas is Some <==> width * height <= pixels@.len(),
            canvas matches Some(c) ==> {
                &&& c.spec_width() == width
                &&& c.spec_height() == height
                &&& forall|x: int, y: int| c.holds(x, y) ==> c.pixel(x, y) == pixels@[y * width + x]
            },
    {
        image_from_raw(width, height, pixels)
    }

    /// The width of the image.
    pub fn width(&self) -> (width: u32)
        ensures
            width == self.spec_width(),
    {
        image_width(self)
    }

    /// The height of the image.
    pub fn height(&self) -> (height: u32)
        ensures
            height == self.spec_height(),
    {
        image_height(self)
    }

    /// The luma at column `x` of row `y`, if the image has such a pixel.
    pub fn get_pixel(&self, x: u32, y: u32) -> (luma: Option<u8>)
        ensures
            luma == if self.holds(x as int, y as int) {
                Some(self.pixel(x as int, y as int))
            } else {
                None
            },
    {
        if x < image_width(self) && y < image_height(self) {
            Some(image_get_pixel(self, x, y))
        } else {
            None
        }
    }

    /// Sets the luma at column `x` of row `y`. Says whether the image has
    /// such a pixel; if not, it is left as it was.
    pub fn put_pixel(&mut self, x: u32, y: u32, luma: u8) -> (done: bool)
        ensures
            done == old(self).holds(x as int, y as int),
            final(self).same_size(*old(self)),
            forall|px: int, py: int|
                old(self).holds(px, py) ==> final(self).pixel(px, py) == if done && px == x && py
                    == y {
                    luma
                } else {
                    old(self).pixel(px, py)
                },
    {
        if x < image_width(self) && y < image_height(self) {
            image_put_pixel(self, x, y, luma);
            true
        } else {
            false
        }
    }
}

/// `image::ImageBuffer::from_pixel`: an image of the given size with
/// every pixel set to `luma`. It panics where the number of pixels
/// overflows `usize`, which the precondition leaves out.
#[verifier::external_body]
pub(crate) fn image_from_pixel(width: u32, height: u32, luma: u8) -> (canvas: Canvas)
    requires
        width * height <= usize::MAX,
    ensures
        canvas.spec_width() == width,
        canvas.spec_height() == height,
        canvas.is_filled_with(luma),
{
    Canvas { image: image::ImageBuffer::from_pixel(width, height, image::Luma([luma])) }
}

/// `image::ImageBuffer::from_raw`: an image over a buffer that holds at
/// least as many samples as the size asks for, row after row; `None` over
/// a shorter one.
#[verifier::external_body]
pub(crate) fn image_from_raw(width: u32, height: u32, pixels: Vec<u8>) -> (canvas: Option<Canvas>)
    ensures
        canvas is Some <==> width * height <= pixels@.len(),
        canvas matches Some(c) ==> {
            &&& c.spec_width() == width
            &&& c.spec_height() == height
            &&& forall|x: int, y: int| c.holds(x, y) ==> c.pixel(x, y) == pixels@[y * width + x]
        },
{
    match image::ImageBuffer::from_raw(width, height, pixels) {
        Some(image) => Some(Canvas { image }),
        None => None,
    }
}

/// `image::ImageBuffer::width`.
#[verifier::external_body]
pub(crate) fn image_width(canvas: &Canvas) -> (width: u32)
    ensures
        width == canvas_width(*canvas),
{
    canvas.image.width()
}

/// `image::ImageBuffer::height`: the number of rows.
#[verifier::external_body]
pub(crate) fn image_height(canvas: &Canvas) -> (height: u32)
    ensures
        height == canvas_rows(*canvas).len(),
{
    canvas.image.height()
}

/// `image::ImageBuffer::get_pixel`, which panics outside the image: the
/// luma of the pixel at column `x` of row `y`.
#[verifier::external_body]
pub(crate) fn image_get_pixel(canvas: &Canvas, x: u32, y: u32) -> (luma: u8)
    requires
        canvas.holds(x as int, y as int),
    ensures
        luma == canvas_rows(*canvas)[y as int][x as int],
{
    canvas.image.get_pixel(x, y).0[0]
}

/// `image::ImageBuffer::put_pixel`, which panics outside the image: the
/// pixel at column `x` of row `y` gets the luma, every other pixel and
/// the size stay.
#[verifier::external_body]
pub(crate) fn image_put_pixel(canvas: &mut Canvas, x: u32, y: u32, luma: u8)
    requires
        old(canvas).holds(x as int, y as int),
    ensures
        final(canvas).same_size(*old(canvas)),
        forall|px: int, py: int|
            old(canvas).holds(px, py) ==> final(canvas).pixel(px, py) == if px == x && py == y {
                luma
            } else {
                old(canvas).pixel(px, py)
            },
{
    canvas.image.put_pixel(x, y, image::Luma([luma]))
}

/// `image::imageops::resize` with `FilterType::Triangle`: an image of the
/// new size whose pixels depend on the pixels and the size of the old one
/// alone. The sides are bounded so that the sampling positions are exact
/// in single precision, and the old image must have a pixel to sample.
#[verifier::external_body]
pub(crate) fn image_resize(canvas: &Canvas, new_width: u32, new_height: u32) -> (resized: Canvas)
    requires
        1 <= canvas.spec_width() <= MAX_RESIZE_SIDE,
        1 <= canvas.spec_height() <= MAX_RESIZE_SIDE,
        new_width <= MAX_RESIZE_SIDE,
        new_height <= MAX_RESIZE_SIDE,
    ensures
        resized.spec_width() == new_width,
        resized.spec_height() == new_height,
        resized.rows() == resized_rows(
            canvas.rows(),
            canvas.spec_width(),
            new_width as nat,
            new_height as nat,
        ),
{
    Canvas {
        image: image::imageops::resize(
            &canvas.image,
            new_width,
            new_height,
            image::FilterType::Triangle,
        ),
    }
}

/// `image::imageops::overlay` on grayscale images: `top` is copied onto
/// `bottom` with its top left corner at `(x, y)`, as far as it falls
/// inside; the rest of `bottom` and its size stay.
#[verifier::external_body]
pub(crate) fn image_overlay(bottom: &mut Canvas, top: &Canvas, x: u32, y: u32)
    ensures
        final(bottom).same_size(*old(bottom)),
        forall|px: int, py: int|
            old(bottom).holds(px, py) ==> final(bottom).pixel(px, py) == overlaid_pixel(
                old(bottom).pixel(px, py),
                top.rows(),
                top.spec_width() as int,
                x as int,
                y as int,
                px,
                py,
            ),
{
    image::imageops::overlay(&mut bottom.image, &top.image, x, y)
}

} // verus!
