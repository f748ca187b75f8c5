use brother_ql::text::canvas::{Canvas, WHITE};
use brother_ql::text::raster::image_to_raster_lines;

fn filled(width: u32, height: u32, luma: u8) -> Canvas {
    Canvas::from_raw(width, height, vec![luma; (width * height) as usize]).unwrap()
}

/// Whether the bit at `position` of a line is set, counted from the most
/// significant bit of the first byte.
fn bit(line: &[u8; 90], position: usize) -> bool {
    line[position / 8] & (0x80 >> (position % 8)) != 0
}

#[test]
fn new_canvas_is_white() {
    let canvas = Canvas::new(3, 2).unwrap();
    assert_eq!(WHITE, 255);
    assert_eq!(canvas.width(), 3);
    assert_eq!(canvas.height(), 2);
    for y in 0..2 {
        for x in 0..3 {
            assert_eq!(canvas.get_pixel(x, y), Some(255));
        }
    }
    assert_eq!(canvas.get_pixel(3, 0), None);
    assert_eq!(canvas.get_pixel(0, 2), None);
    assert_eq!(canvas.get_pixel(u32::MAX, u32::MAX), None);
}

#[test]
fn empty_canvas() {
    let canvas = Canvas::new(0, 0).unwrap();
    assert_eq!((canvas.width(), canvas.height()), (0, 0));
    assert_eq!(canvas.get_pixel(0, 0), None);
    let canvas = Canvas::new(5, 0).unwrap();
    assert_eq!((canvas.width(), canvas.height()), (5, 0));
    assert_eq!(canvas.get_pixel(0, 0), None);
}

#[test]
fn put_pixel_changes_one_pixel() {
    let mut canvas = Canvas::new(4, 3).unwrap();
    assert!(canvas.put_pixel(2, 1, 7));
    assert_eq!((canvas.width(), canvas.height()), (4, 3));
    for y in 0..3 {
        for x in 0..4 {
            let expected = if (x, y) == (2, 1) { 7 } else { 255 };
            assert_eq!(canvas.get_pixel(x, y), Some(expected));
        }
    }
    assert!(canvas.put_pixel(2, 1, 9));
    assert_eq!(canvas.get_pixel(2, 1), Some(9));
}

#[test]
fn put_pixel_outside_the_canvas() {
    let mut canvas = Canvas::new(4, 3).unwrap();
    assert!(!canvas.put_pixel(4, 0, 0));
    assert!(!canvas.put_pixel(0, 3, 0));
    assert!(!canvas.put_pixel(u32::MAX, 0, 0));
    for y in 0..3 {
        for x in 0..4 {
            assert_eq!(canvas.get_pixel(x, y), Some(255));
        }
    }
}

#[test]
fn from_raw_reads_row_by_row() {
    let canvas = Canvas::from_raw(3, 2, vec![10, 11, 12, 20, 21, 22]).unwrap();
    assert_eq!((canvas.width(), canvas.height()), (3, 2));
    assert_eq!(canvas.get_pixel(0, 0), Some(10));
    assert_eq!(canvas.get_pixel(1, 0), Some(11));
    assert_eq!(canvas.get_pixel(2, 0), Some(12));
    assert_eq!(canvas.get_pixel(0, 1), Some(20));
    assert_eq!(canvas.get_pixel(1, 1), Some(21));
    assert_eq!(canvas.get_pixel(2, 1), Some(22));
    assert_eq!(canvas.get_pixel(0, 2), None);
}

#[test]
fn from_raw_with_too_few_pixels() {
    assert!(Canvas::from_raw(3, 2, vec![0; 5]).is_none());
    assert!(Canvas::from_raw(1, 1, Vec::new()).is_none());
    assert!(Canvas::from_raw(u32::MAX, u32::MAX, vec![0; 16]).is_none());
    assert!(Canvas::from_raw(0, 7, Vec::new()).is_some());
    // Pixels beyond the size are not part of the image.
    let canvas = Canvas::from_raw(2, 1, vec![1, 2, 3]).unwrap();
    assert_eq!((canvas.width(), canvas.height()), (2, 1));
    assert_eq!(canvas.get_pixel(1, 0), Some(2));
    assert_eq!(canvas.get_pixel(0, 1), None);
}

#[test]
fn white_canvas_gives_blank_lines() {
    for (width, height) in [(1u32, 1u32), (3, 4), (750, 160), (750, 330), (16, 708), (5, 0)] {
        let lines = image_to_raster_lines(&Canvas::new(width, height).unwrap(), width);
        assert_eq!(lines.len(), width as usize);
        for line in lines.iter() {
            assert_eq!(line[..], [0u8; 90][..]);
        }
    }
}

#[test]
fn black_canvas_gives_the_complement() {
    for height in [1usize, 3, 4, 5, 12, 160, 330, 707, 708] {
        let lines = image_to_raster_lines(&filled(2, height as u32, 0), 2);
        assert_eq!(lines.len(), 2);
        for line in lines.iter() {
            for position in 0..720 {
                assert_eq!(bit(line, position), 12 <= position && position < 12 + height);
            }
        }
    }
    let lines = image_to_raster_lines(&filled(1, 708, 0), 1);
    assert_eq!(lines[0][0], 0x00);
    assert_eq!(lines[0][1], 0x0F);
    assert!(lines[0][2..].iter().all(|byte| *byte == 0xFF));
    let lines = image_to_raster_lines(&filled(1, 5, 0), 1);
    assert_eq!(lines[0][..4], [0x00, 0x0F, 0x80, 0x00]);
    assert!(lines[0][4..].iter().all(|byte| *byte == 0));
}

#[test]
fn canvas_without_columns_gives_no_lines() {
    assert!(image_to_raster_lines(&Canvas::new(0, 10).unwrap(), 0).is_empty());
}

#[test]
fn one_line_for_each_column() {
    // Two columns, three rows; ink at (0, 0), (1, 1) and (0, 2).
    let canvas = Canvas::from_raw(2, 3, vec![0, 255, 255, 0, 0, 255]).unwrap();
    let lines = image_to_raster_lines(&canvas, 2);
    assert_eq!(lines.len(), 2);
    assert_eq!(lines[0][..3], [0x00, 0b0000_1010, 0x00]);
    assert_eq!(lines[1][..3], [0x00, 0b0000_0100, 0x00]);
    assert!(lines[0][3..].iter().all(|byte| *byte == 0));
    assert!(lines[1][3..].iter().all(|byte| *byte == 0));
}

#[test]
fn first_dot_is_bit_three_of_the_second_byte() {
    for row in 0..20u32 {
        let mut canvas = Canvas::new(1, 20).unwrap();
        assert!(canvas.put_pixel(0, row, 0));
        let lines = image_to_raster_lines(&canvas, 1);
        let mut expected = [0u8; 90];
        let position = 12 + row as usize;
        expected[position / 8] = 0x80 >> (position % 8);
        assert_eq!(lines[0][..], expected[..]);
    }
    let mut canvas = Canvas::new(1, 20).unwrap();
    canvas.put_pixel(0, 0, 0);
    assert_eq!(image_to_raster_lines(&canvas, 1)[0][1], 0x08);
    let mut canvas = Canvas::new(1, 20).unwrap();
    canvas.put_pixel(0, 3, 0);
    assert_eq!(image_to_raster_lines(&canvas, 1)[0][1], 0x01);
    let mut canvas = Canvas::new(1, 20).unwrap();
    canvas.put_pixel(0, 4, 0);
    assert_eq!(image_to_raster_lines(&canvas, 1)[0][2], 0x80);
}

#[test]
fn ink_below_half_intensity() {
    for luma in 0..=255u8 {
        let lines = image_to_raster_lines(&filled(1, 1, luma), 1);
        let expected = if luma < 128 { 0x08 } else { 0x00 };
        assert_eq!(lines[0][1], expected);
        assert_eq!(lines[0][0], 0);
        assert!(lines[0][2..].iter().all(|byte| *byte == 0));
    }
}

#[test]
fn reserved_bits_stay_blank() {
    let mut pixels = Vec::new();
    for index in 0..(7 * 300) {
        pixels.push(((index * 37) % 256) as u8);
    }
    let canvas = Canvas::from_raw(7, 300, pixels.clone()).unwrap();
    let lines = image_to_raster_lines(&canvas, 7);
    for (column, line) in lines.iter().enumerate() {
        assert_eq!(line[0], 0);
        assert_eq!(line[1] & 0xF0, 0);
        for position in 0..720 {
            let expected = position >= 12
                && position < 312
                && pixels[(position - 12) * 7 + column] < 128;
            assert_eq!(bit(line, position), expected);
        }
    }
}
