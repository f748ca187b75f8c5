//! Shrinking a line of text until it fits.

use super::glyphs::{calc_text_width, is_measurable, measurable, text_width, Glyph, Size};
use vstd::prelude::*;

verus! {

/// A line of text laid out at one font size.
#[derive(Debug)]
pub struct TextLayout {
    /// Height of a line of the font at this size, in pixels.
    pub height: u32,
    /// The glyphs from left to right.
    pub glyphs: Vec<Glyph>,
}

/// A line of text at the font size at which it fits.
#[derive(Debug)]
pub struct ResizedText {
    /// The font size at which the text was laid out.
    pub font_size: u32,
    /// The width of the text and the height of a line, in pixels.
    pub rendered_size: Size,
    /// The glyphs from left to right.
    pub glyphs: Vec<Glyph>,
}

/// Why no font size was found for a line of text.
#[derive(Clone, Copy, Debug, PartialEq, Eq, Structural)]
pub enum FitError {
    /// A layout had no glyphs, or its first or last glyph had no bounding
    /// box.
    Unmeasurable,
    /// The text is too wide at every size from the largest down to 1.
    TooWide,
}

/// The layout function has given, for `size`, a layout that is measurable
/// and at least `max_width` wide.
pub open spec fn too_wide_at<F: Fn(u32) -> TextLayout>(
    layout: F,
    size: u32,
    max_width: u32,
) -> bool {
    exists|laid: TextLayout| #[trigger]
        layout.ensures((size,), laid) && measurable(laid.glyphs@) && text_width(laid.glyphs@)
            >= max_width
}

/// The layout function has given, for `size`, a layout that cannot be
/// measured.
pub open spec fn unmeasurable_at<F: Fn(u32) -> TextLayout>(layout: F, size: u32) -> bool {
    exists|laid: TextLayout| #[trigger] layout.ensures((size,), laid) && !measurable(laid.glyphs@)
}

/// The text was found too wide at every size above `size`, up to
/// `max_font_size`.
pub open spec fn too_wide_above<F: Fn(u32) -> TextLayout>(
    layout: F,
    size: u32,
    max_font_size: u32,
    max_width: u32,
) -> bool {
    forall|larger: u32|
        size < larger <= max_font_size ==> #[trigger] too_wide_at(layout, larger, max_width)
}

/// The layout function gives, for each size, only layouts that are
/// measurable and as wide as `width_at` says.
pub open spec fn has_widths<F: Fn(u32) -> TextLayout>(
    layout: F,
    width_at: spec_fn(u32) -> int,
) -> bool {
    forall|size: u32, laid: TextLayout| #[trigger]
        layout.ensures((size,), laid) ==> measurable(laid.glyphs@) && text_width(laid.glyphs@)
            == width_at(size)
}

/// The largest size from `start` down to 1 at which the text is less than
/// `max_width` wide, or 0 if there is none.
pub open spec fn largest_fitting(width_at: spec_fn(u32) -> int, start: u32, max_width: u32) -> u32
    decreases start,
{
    if start == 0 {
        0
    } else if width_at(start) < max_width {
        start
    } else {
        largest_fitting(width_at, (start - 1) as u32, max_width)
    }
}

impl ResizedText {
    /// What `create` may return for a layout function.
    ///
    /// A text that is returned was laid out at its font size by the
    /// function, is less than `max_width` wide, and was found too wide at
    /// every larger size. Without a text, either a size gave a layout
    /// that cannot be measured, all larger ones being too wide, or every
    /// size was too wide.
    pub open spec fn fitted<F: Fn(u32) -> TextLayout>(
        layout: F,
        max_width: u32,
        max_font_size: u32,
        outcome: Result<ResizedText, FitError>,
    ) -> bool {
        match outcome {
            Ok(text) => {
                &&& 1 <= text.font_size <= max_font_size
                &&& layout.ensures(
                    (text.font_size,),
                    TextLayout { height: text.rendered_size.y, glyphs: text.glyphs },
                )
                &&& measurable(text.glyphs@)
                &&& text.rendered_size.x == text_width(text.glyphs@)
                &&& text.rendered_size.x < max_width
                &&& too_wide_above(layout, text.font_size, max_font_size, max_width)
            },
            Err(FitError::Unmeasurable) => exists|size: u32|
                1 <= size <= max_font_size && #[trigger] unmeasurable_at(layout, size)
                    && too_wide_above(layout, size, max_font_size, max_width),
            Err(FitError::TooWide) => too_wide_above(layout, 0, max_font_size, max_width),
        }
    }

    /// Lays a text out at the largest font size at which it is less than
    /// `max_width` wide.
    ///
    /// `layout` lays the text out at a font size. It is asked for
    /// `max_font_size` first and then for one size less each time, down
    /// to 1, until the text fits.
    pub fn create<F: Fn(u32) -> TextLayout>(
        layout: F,
        max_width: u32,
        max_font_size: u32,
    ) -> (outcome: Result<ResizedText, FitError>)
        requires
            forall|size: u32| layout.requires((size,)),
        ensures
            Self::fitted(layout, max_width, max_font_size, outcome),
    {
        // Max possible font size
        let mut font_size: u32 = max_font_size;
        // Scale the font size down until it all fits length-wise
        while font_size > 0
            invariant
                font_size <= max_font_size,
                forall|size: u32| layout.requires((size,)),
                too_wide_above(layout, font_size, max_font_size, max_width),
            decreases font_size,
        {
            let laid = layout(font_size);
            if !is_measurable(laid.glyphs.as_slice()) {
                assert(unmeasurable_at(layout, font_size));
                return Err(FitError::Unmeasurable);
            }
            let width = calc_text_width(laid.glyphs.as_slice());
            if width < max_width {
                let ghost height = laid.height;
                let ghost glyphs = laid.glyphs;
                assert(laid == TextLayout { height, glyphs });
                return Ok(
                    ResizedText {
                        font_size,
                        rendered_size: Size { x: width, y: laid.height },
                        glyphs: laid.glyphs,
                    },
                );
            }
            assert(too_wide_at(layout, font_size, max_width));
            font_size -= 1;
        }
        Err(FitError::TooWide)
    }
}

/// The largest fitting size is at most the starting size; the text fits
/// at it; and the text fits at no size between it and the starting size.
pub proof fn lemma_largest_fitting(width_at: spec_fn(u32) -> int, start: u32, max_width: u32)
    ensures
        largest_fitting(width_at, start, max_width) <= start,
        largest_fitting(width_at, start, max_width) > 0 ==> width_at(
            largest_fitting(width_at, start, max_width),
        ) < max_width,
        forall|size: u32|
            largest_fitting(width_at, start, max_width) < size <= start ==> #[trigger] width_at(
                size,
            ) >= max_width,
    decreases start,
{
    if start > 0 && width_at(start) >= max_width {
        lemma_largest_fitting(width_at, (start - 1) as u32, max_width);
    }
}

/// Starting from a smaller size never gives a larger result.
pub proof fn lemma_smaller_start_smaller_size(
    width_at: spec_fn(u32) -> int,
    smaller: u32,
    start: u32,
    max_width: u32,
)
    requires
        smaller <= start,
    ensures
        largest_fitting(width_at, smaller, max_width) <= largest_fitting(
            width_at,
            start,
            max_width,
        ),
    decreases start,
{
    lemma_largest_fitting(width_at, smaller, max_width);
    if smaller < start && width_at(start) >= max_width {
        lemma_smaller_start_smaller_size(width_at, smaller, (start - 1) as u32, max_width);
    }
}

/// Where the width of the text depends on the font size alone, `create`
/// returns the text at the largest fitting size, and fails only where no
/// size fits.
pub proof fn lemma_create_picks_largest<F: Fn(u32) -> TextLayout>(
    layout: F,
    width_at: spec_fn(u32) -> int,
    max_width: u32,
    max_font_size: u32,
    outcome: Result<ResizedText, FitError>,
)
    requires
        ResizedText::fitted(layout, max_width, max_font_size, outcome),
        has_widths(layout, width_at),
    ensures
        match outcome {
            Ok(text) => text.font_size == largest_fitting(width_at, max_font_size, max_width),
            Err(error) => error == FitError::TooWide && largest_fitting(
                width_at,
                max_font_size,
                max_width,
            ) == 0,
        },
{
    let chosen: u32 = match outcome {
        Ok(text) => text.font_size,
        Err(_) => 0,
    };
    match outcome {
        Ok(text) => {},
        Err(FitError::Unmeasurable) => {
            let size = choose|size: u32|
                1 <= size <= max_font_size && #[trigger] unmeasurable_at(layout, size)
                    && too_wide_above(layout, size, max_font_size, max_width);
            let laid = choose|laid: TextLayout| #[trigger]
                layout.ensures((size,), laid) && !measurable(laid.glyphs@);
            assert(false);
        },
        Err(FitError::TooWide) => {},
    }
    assert forall|size: u32| chosen < size <= max_font_size implies #[trigger] width_at(size)
        >= max_width by {
        assert(too_wide_at(layout, size, max_width));
    }
    lemma_descent(width_at, chosen, max_font_size, max_width);
}

/// If the text fits at `chosen`, or `chosen` is 0, and the text fits at
/// no size above it, then `chosen` is the largest fitting size.
proof fn lemma_descent(width_at: spec_fn(u32) -> int, chosen: u32, start: u32, max_width: u32)
    requires
        chosen <= start,
        chosen > 0 ==> width_at(chosen) < max_width,
        forall|size: u32| chosen < size <= start ==> #[trigger] width_at(size) >= max_width,
    ensures
        largest_fitting(width_at, start, max_width) == chosen,
    decreases start,
{
    if chosen < start {
        lemma_descent(width_at, chosen, (start - 1) as u32, max_width);
    }
}

} // verus!
