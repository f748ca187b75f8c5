use brother_ql::printer::constants::{label_data, Label, WidthLength};
use brother_ql::text::canvas::Canvas;
use brother_ql::text::fit::{ResizedText, TextLayout};
use brother_ql::text::glyphs::{BoundingBox, Glyph, Size};
use brother_ql::text::{
    CanvasSize, RasterError, TextRasterizer, DEFAULT_LENGTH, FIRST_LINE_FONT_SIZE,
    SECOND_LINE_FONT_SIZE, SINGLE_LINE_FONT_SIZE,
};

fn solid(min_x: i32, min_y: i32, width: i32, height: i32, coverage: u8) -> Glyph {
    Glyph {
        bounding_box: Some(BoundingBox {
            min_x,
            min_y,
            max_x: min_x + width,
            max_y: min_y + height,
        }),
        coverage: vec![coverage; (width * height) as usize],
    }
}

fn text(width: u32, height: u32, glyphs: Vec<Glyph>) -> ResizedText {
    ResizedText { font_size: height, rendered_size: Size { x: width, y: height }, glyphs }
}

fn black(width: u32, height: u32) -> Canvas {
    Canvas::from_raw(width, height, vec![0; (width * height) as usize]).unwrap()
}

/// Whether the dot of row `row` is set in a raster line.
fn dot(line: &[u8; 90], row: usize) -> bool {
    let position = 12 + row;
    line[position / 8] & (0x80 >> (position % 8)) != 0
}

/// Checks that exactly the pixels of the given rectangles are printed.
fn expect_ink(lines: &[[u8; 90]], height: usize, ink: &[(usize, usize, usize, usize)]) {
    for (column, line) in lines.iter().enumerate() {
        assert_eq!(line[0], 0);
        assert_eq!(line[1] & 0xF0, 0);
        for row in 0..708 {
            let expected = row < height
                && ink.iter().any(|(left, top, right, bottom)| {
                    *left <= column && column < *right && *top <= row && row < *bottom
                });
            assert_eq!(dot(line, row), expected, "column {} row {}", column, row);
        }
    }
}

#[test]
fn canvas_sizes() {
    let size = |width: u8, length: Option<u8>| {
        TextRasterizer::new(label_data(width, length).unwrap()).canvas_size()
    };
    assert_eq!(DEFAULT_LENGTH, 750);
    assert_eq!(size(12, None), Some(CanvasSize { length: 750, width: 160, secondary_width: 0 }));
    assert_eq!(size(29, None), Some(CanvasSize { length: 750, width: 312, secondary_width: 0 }));
    assert_eq!(size(38, None), Some(CanvasSize { length: 750, width: 425, secondary_width: 0 }));
    assert_eq!(size(50, None), Some(CanvasSize { length: 750, width: 566, secondary_width: 0 }));
    assert_eq!(size(54, None), Some(CanvasSize { length: 750, width: 590, secondary_width: 0 }));
    assert_eq!(size(62, None), Some(CanvasSize { length: 750, width: 708, secondary_width: 0 }));
    assert_eq!(size(102, None), None);
    assert_eq!(
        size(17, Some(54)),
        Some(CanvasSize { length: 566, width: 165, secondary_width: 0 })
    );
    assert_eq!(
        size(23, Some(23)),
        Some(CanvasSize { length: 202, width: 244, secondary_width: 0 })
    );
    assert_eq!(
        size(29, Some(90)),
        Some(CanvasSize { length: 991, width: 312, secondary_width: 0 })
    );
    assert_eq!(
        size(62, Some(100)),
        Some(CanvasSize { length: 1109, width: 708, secondary_width: 0 })
    );
}

#[test]
fn second_row_only_on_the_narrowest_tape() {
    let with_image = |width: u8, length: Option<u8>| {
        let mut rasterizer = TextRasterizer::new(label_data(width, length).unwrap());
        rasterizer.set_second_row_image(black(4, 4));
        rasterizer.canvas_size()
    };
    assert_eq!(
        with_image(12, None),
        Some(CanvasSize { length: 750, width: 160, secondary_width: 170 })
    );
    assert_eq!(
        with_image(29, None),
        Some(CanvasSize { length: 750, width: 312, secondary_width: 0 })
    );
    assert_eq!(
        with_image(17, Some(54)),
        Some(CanvasSize { length: 566, width: 165, secondary_width: 0 })
    );
    // A die-cut label that is as wide as the narrowest tape gets neither pad nor band.
    let die_cut = Label {
        tape_size: WidthLength(12, 30),
        dots: WidthLength(142, 354),
        dots_printable: WidthLength(106, 300),
        right_margin: 29,
        feed_margin: 0,
    };
    let mut rasterizer = TextRasterizer::new(die_cut);
    rasterizer.set_second_row_image(black(4, 4));
    assert_eq!(
        rasterizer.canvas_size(),
        Some(CanvasSize { length: 300, width: 135, secondary_width: 0 })
    );
}

#[test]
fn label_without_ink() {
    for (width, length) in [(29u8, None), (12, None), (62, None), (29, Some(90u8))] {
        let label = label_data(width, length).unwrap();
        let rasterizer = TextRasterizer::new(label);
        let size = rasterizer.canvas_size().unwrap();
        let lines = rasterizer.rasterize(&text(10, 10, Vec::new()), None).unwrap();
        assert_eq!(lines.len(), size.length as usize);
        for line in lines.iter() {
            assert_eq!(line[..], [0u8; 90][..]);
        }
    }
}

#[test]
fn single_line_is_centred_and_moved_left() {
    let rasterizer = TextRasterizer::new(label_data(29, None).unwrap());
    let primary = text(100, 40, vec![solid(0, 0, 2, 2, 255)]);
    let lines = rasterizer.rasterize(&primary, None).unwrap();
    assert_eq!(lines.len(), 750);
    // 750 / 2 - 100 / 2 - 5 = 320 and 312 / 2 - 40 / 2 = 136
    expect_ink(&lines, 312, &[(320, 136, 322, 138)]);
    assert_eq!(lines[320][18], 0x0C);
    assert_eq!(lines[321][18], 0x0C);
    assert_eq!(lines[319][18], 0x00);
    assert_eq!(lines[322][18], 0x00);
}

#[test]
fn single_line_with_odd_sizes() {
    let rasterizer = TextRasterizer::new(label_data(17, Some(54)).unwrap());
    let primary = text(101, 41, vec![solid(3, 4, 5, 6, 200)]);
    let lines = rasterizer.rasterize(&primary, None).unwrap();
    assert_eq!(lines.len(), 566);
    // 566 / 2 - 101 / 2 - 5 = 228 and 165 / 2 - 41 / 2 = 62
    expect_ink(&lines, 165, &[(231, 66, 236, 72)]);
}

#[test]
fn two_lines_above_and_below_the_centre() {
    let rasterizer = TextRasterizer::new(label_data(29, None).unwrap());
    let primary = text(100, 40, vec![solid(0, 0, 2, 2, 255)]);
    let secondary = text(60, 20, vec![solid(0, 0, 3, 1, 255)]);
    let lines = rasterizer.rasterize(&primary, Some(&secondary)).unwrap();
    assert_eq!(lines.len(), 750);
    // First line: 750 / 2 - 100 / 2 = 325 and 312 / 2 - 40 / 2 - 25 = 111.
    // Second line: 750 / 2 - 60 / 2 = 345 and 312 - 20 / 2 - 20 = 282.
    expect_ink(&lines, 312, &[(325, 111, 327, 113), (345, 282, 348, 283)]);
}

#[test]
fn second_line_draws_over_the_first() {
    let rasterizer = TextRasterizer::new(label_data(29, None).unwrap());
    // The first line fills the canvas with ink.
    let primary = text(750, 312, vec![solid(0, 25, 750, 312, 255)]);
    // The second line clears a rectangle of it.
    let secondary = text(750, 0, vec![solid(10, 0, 5, 6, 0)]);
    let lines = rasterizer.rasterize(&primary, Some(&secondary)).unwrap();
    // Second line at 375 - 375 = 0 and 312 - 0 - 20 = 292.
    expect_ink(
        &lines,
        312,
        &[(0, 0, 750, 292), (0, 298, 750, 312), (0, 292, 10, 298), (15, 292, 750, 298)],
    );
}

#[test]
fn light_coverage_is_not_printed() {
    let rasterizer = TextRasterizer::new(label_data(29, None).unwrap());
    let glyphs = vec![solid(0, 0, 1, 1, 127), solid(1, 0, 1, 1, 128), solid(2, 0, 1, 1, 129)];
    let lines = rasterizer.rasterize(&text(0, 0, glyphs), None).unwrap();
    // 255 - 127 = 128 is blank, 255 - 128 = 127 is ink.
    expect_ink(&lines, 312, &[(371, 156, 373, 157)]);
}

#[test]
fn second_row_image_is_scaled_into_its_band() {
    let mut rasterizer = TextRasterizer::new(label_data(12, None).unwrap());
    rasterizer.set_second_row_image(black(10, 10));
    let lines = rasterizer.rasterize(&text(0, 0, Vec::new()), None).unwrap();
    assert_eq!(lines.len(), 750);
    // A square image becomes 155 dots high and wide, and is centred:
    // (750 - 155) / 2 = 297. It stands at the top of the band, in row 160.
    expect_ink(&lines, 330, &[(297, 160, 452, 315)]);
}

#[test]
fn wide_second_row_image_is_as_long_as_the_label() {
    let mut rasterizer = TextRasterizer::new(label_data(12, None).unwrap());
    rasterizer.set_second_row_image(black(300, 10));
    let lines = rasterizer.rasterize(&text(0, 0, Vec::new()), None).unwrap();
    // 750 * 10 / 300 = 25 rows.
    expect_ink(&lines, 330, &[(0, 160, 750, 185)]);

    let mut rasterizer = TextRasterizer::new(label_data(12, None).unwrap());
    rasterizer.set_second_row_image(black(7, 1));
    let lines = rasterizer.rasterize(&text(0, 0, Vec::new()), None).unwrap();
    // 750 * 1 / 7 = 107 rows.
    expect_ink(&lines, 330, &[(0, 160, 750, 267)]);
}

#[test]
fn high_second_row_image_is_as_high_as_the_band() {
    let mut rasterizer = TextRasterizer::new(label_data(12, None).unwrap());
    rasterizer.set_second_row_image(black(10, 40));
    let lines = rasterizer.rasterize(&text(0, 0, Vec::new()), None).unwrap();
    // 155 * 10 / 40 = 38 columns, from (750 - 38) / 2 = 356 on.
    expect_ink(&lines, 330, &[(356, 160, 394, 315)]);

    let mut rasterizer = TextRasterizer::new(label_data(12, None).unwrap());
    rasterizer.set_second_row_image(black(1, 1000));
    let lines = rasterizer.rasterize(&text(0, 0, Vec::new()), None).unwrap();
    // 155 * 1 / 1000 = 0 columns: nothing is left of the image.
    expect_ink(&lines, 330, &[]);
}

#[test]
fn second_row_image_keeps_its_picture() {
    // Left half black, right half white; scaled by 15.5 in both directions.
    let mut pixels = Vec::new();
    for _ in 0..10 {
        for x in 0..10 {
            pixels.push(if x < 5 { 0u8 } else { 255u8 });
        }
    }
    let mut rasterizer = TextRasterizer::new(label_data(12, None).unwrap());
    rasterizer.set_second_row_image(Canvas::from_raw(10, 10, pixels).unwrap());
    let lines = rasterizer.rasterize(&text(0, 0, Vec::new()), None).unwrap();
    for row in [160usize, 200, 314] {
        for column in 297..370 {
            assert!(dot(&lines[column], row), "column {} row {}", column, row);
        }
        for column in 380..452 {
            assert!(!dot(&lines[column], row), "column {} row {}", column, row);
        }
    }
    for column in 0..750 {
        assert!(!dot(&lines[column], 159));
        assert!(!dot(&lines[column], 315));
    }
}

#[test]
fn text_and_second_row_image() {
    let mut rasterizer = TextRasterizer::new(label_data(12, None).unwrap());
    rasterizer.set_second_row_image(black(10, 10));
    let primary = text(100, 40, vec![solid(0, 0, 2, 2, 255)]);
    let secondary = text(60, 20, vec![solid(0, 0, 3, 1, 255), solid(-40, 0, 2, 40, 255)]);
    let lines = rasterizer.rasterize(&primary, Some(&secondary)).unwrap();
    // First line: 375 - 50 = 325 and 80 - 20 - 25 = 35.
    // Second line: 375 - 30 = 345 and 160 - 10 - 20 = 130; its second glyph
    // reaches into the band, where the image is laid over it.
    expect_ink(
        &lines,
        330,
        &[
            (325, 35, 327, 37),
            (345, 130, 348, 131),
            (305, 130, 307, 170),
            (297, 160, 452, 315),
        ],
    );
}

#[test]
fn second_row_image_is_left_out_where_there_is_no_band() {
    let mut rasterizer = TextRasterizer::new(label_data(29, None).unwrap());
    rasterizer.set_second_row_image(black(10, 10));
    let lines = rasterizer.rasterize(&text(0, 0, Vec::new()), None).unwrap();
    expect_ink(&lines, 312, &[]);
    // Not even an image without pixels matters there.
    let mut rasterizer = TextRasterizer::new(label_data(29, None).unwrap());
    rasterizer.set_second_row_image(Canvas::new(0, 0).unwrap());
    assert!(rasterizer.rasterize(&text(0, 0, Vec::new()), None).is_ok());
}

#[test]
fn second_row_image_that_cannot_be_scaled() {
    for (width, height) in [(0u32, 0u32), (0, 5), (5, 0), (65536, 1), (1, 65536)] {
        let mut rasterizer = TextRasterizer::new(label_data(12, None).unwrap());
        rasterizer.set_second_row_image(Canvas::new(width, height).unwrap());
        assert_eq!(
            rasterizer.rasterize(&text(0, 0, Vec::new()), None).err(),
            Some(RasterError::SecondRowImage)
        );
    }
    let mut rasterizer = TextRasterizer::new(label_data(12, None).unwrap());
    rasterizer.set_second_row_image(Canvas::new(65535, 1).unwrap());
    assert!(rasterizer.rasterize(&text(0, 0, Vec::new()), None).is_ok());
}

#[test]
fn glyph_outside_the_canvas() {
    let rasterizer = TextRasterizer::new(label_data(29, None).unwrap());
    let outside = [
        solid(-321, 0, 1, 1, 255),
        solid(0, -137, 1, 1, 255),
        solid(429, 0, 2, 1, 255),
        solid(0, 175, 1, 2, 255),
    ];
    for glyph in outside {
        let primary = text(100, 40, vec![solid(0, 0, 1, 1, 255), glyph]);
        assert_eq!(
            rasterizer.rasterize(&primary, None).err(),
            Some(RasterError::GlyphOutsideCanvas)
        );
    }
    let inside = [
        solid(-320, 0, 1, 1, 255),
        solid(0, -136, 1, 1, 255),
        solid(429, 0, 1, 1, 255),
        solid(0, 175, 1, 1, 255),
    ];
    for glyph in inside {
        let primary = text(100, 40, vec![glyph]);
        assert!(rasterizer.rasterize(&primary, None).is_ok());
    }
    let fine = text(100, 40, vec![solid(0, 0, 1, 1, 255)]);
    let beyond = text(60, 20, vec![solid(0, 30, 1, 1, 255)]);
    assert_eq!(
        rasterizer.rasterize(&fine, Some(&beyond)).err(),
        Some(RasterError::GlyphOutsideCanvas)
    );
    let malformed = Glyph {
        bounding_box: Some(BoundingBox { min_x: 0, min_y: 0, max_x: 2, max_y: 2 }),
        coverage: vec![255; 3],
    };
    assert_eq!(
        rasterizer.rasterize(&text(100, 40, vec![malformed]), None).err(),
        Some(RasterError::GlyphOutsideCanvas)
    );
}

#[test]
fn canvas_with_more_rows_than_a_line_holds() {
    let rasterizer = TextRasterizer::new(label_data(102, None).unwrap());
    assert_eq!(rasterizer.canvas_size(), None);
    assert_eq!(
        rasterizer.rasterize(&text(0, 0, Vec::new()), None).err(),
        Some(RasterError::CanvasTooLarge)
    );
    let wide = Label {
        tape_size: WidthLength(62, 0),
        dots: WidthLength(732, 0),
        dots_printable: WidthLength(697, 0),
        right_margin: 12,
        feed_margin: 35,
    };
    assert_eq!(
        TextRasterizer::new(wide).rasterize(&text(0, 0, Vec::new()), None).err(),
        Some(RasterError::CanvasTooLarge)
    );
    let huge = Label {
        tape_size: WidthLength(62, 0),
        dots: WidthLength(u32::MAX, 0),
        dots_printable: WidthLength(u32::MAX, 0),
        right_margin: u32::MAX,
        feed_margin: 35,
    };
    assert_eq!(TextRasterizer::new(huge).canvas_size(), None);
}

/// A font in which every glyph is six tenths of the font size wide and
/// as high as the font size.
fn monospace(font: &str, text: &str, size: u32) -> TextLayout {
    assert_eq!(font, "./Space Mono Bold.ttf");
    let advance = size * 6 / 10;
    let mut glyphs = Vec::new();
    for (index, character) in text.chars().enumerate() {
        let left = index as u32 * advance;
        if character == ' ' {
            glyphs.push(Glyph { bounding_box: None, coverage: Vec::new() });
        } else {
            glyphs.push(solid(left as i32, 0, advance as i32 - 1, size as i32, 255));
        }
    }
    TextLayout { height: size, glyphs }
}

/// A picture of four by two pixels with a black frame to the left.
fn logo(path: &str) -> Canvas {
    assert_eq!(path, "./logos/BuildGT Mono.png");
    Canvas::from_raw(4, 2, vec![0, 255, 255, 255, 0, 255, 255, 255]).unwrap()
}

#[test]
fn rasterize_text() {
    let font = "./Space Mono Bold.ttf";
    let mut rasterizer = TextRasterizer::new(label_data(12, None).unwrap());
    rasterizer.set_second_row_image(logo("./logos/BuildGT Mono.png"));
    let font_scale: f32 = 1.2;
    let size = rasterizer.canvas_size().unwrap();
    let primary = ResizedText::create(
        |size| monospace(font, "Ryan Petschek", size),
        size.length,
        (FIRST_LINE_FONT_SIZE as f32 * font_scale).ceil() as u32,
    )
    .unwrap();
    let secondary = ResizedText::create(
        |size| monospace(font, "Computer Science", size),
        size.length,
        (SECOND_LINE_FONT_SIZE as f32 * font_scale).ceil() as u32,
    )
    .unwrap();
    let lines = rasterizer.rasterize(&primary, Some(&secondary)).unwrap();

    assert_eq!((SINGLE_LINE_FONT_SIZE as f32 * font_scale).ceil() as u32, 150);
    assert_eq!(primary.font_size, 96);
    assert_eq!(primary.rendered_size, Size { x: 740, y: 96 });
    assert_eq!(secondary.font_size, 42);
    assert_eq!(secondary.rendered_size, Size { x: 399, y: 42 });
    assert_eq!(lines.len(), 750);
    // The first line stands at 375 - 370 = 5 and 80 - 48 - 25 = 7, the
    // second at 375 - 199 = 176 and 160 - 21 - 20 = 119. The image becomes
    // 155 rows high and 155 * 4 / 2 = 310 dots long, from (750 - 310) / 2
    // = 220 on; its left quarter is black.
    assert!(dot(&lines[5], 7));
    assert!(!dot(&lines[4], 7));
    assert!(!dot(&lines[5], 6));
    assert!(dot(&lines[5], 102));
    assert!(!dot(&lines[5], 103));
    assert!(!dot(&lines[61], 50));
    assert!(dot(&lines[176], 119));
    assert!(!dot(&lines[176], 118));
    assert!(dot(&lines[176], 159));
    assert!(dot(&lines[225], 160));
    assert!(dot(&lines[225], 314));
    assert!(!dot(&lines[225], 315));
    assert!(!dot(&lines[219], 200));
    assert!(!dot(&lines[500], 200));
    assert!(!dot(&lines[529], 200));
    for line in lines.iter() {
        assert_eq!(line[0], 0);
        assert_eq!(line[1] & 0xF0, 0);
        assert!(line[41..].iter().all(|byte| *byte == 0));
    }
}
