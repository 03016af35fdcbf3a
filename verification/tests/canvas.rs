use embedded_graphics::coord::Coord;
use embedded_graphics::fonts::Font;
use embedded_graphics::fonts::Font6x8;
use embedded_graphics::image::Image1BPP;
use embedded_graphics::style::WithStyle;
use embedded_graphics::transform::Transform;
use embedded_graphics::Drawing;
use epd_waveshare::color::Color;
use epd_waveshare::epd1in54::Buffer1in54;
use epd_waveshare::graphics::Display;
use neo_eink::canvas::Canvas;
use neo_eink::canvas::{FRAME_BYTES, LINE_PITCH, MAX_LINES, MAX_LINE_BYTES, PANEL_HEIGHT, PANEL_WIDTH, TEXT_LEFT, TEXT_TOP};
use neo_eink::payload::Bitmap;
use neo_eink::raster::Dot;

fn pixel(bytes: &[u8], x: usize, y: usize) -> bool {
    bytes[x / 8 + 25 * y] & (0x80u8 >> (x % 8)) != 0
}

fn text_by_the_crates(text: &str, x: i32, y: i32) -> Vec<u8> {
    let mut buffer = Buffer1in54::default();
    {
        let mut display = Display::new(200, 200, &mut buffer.buffer);
        display.clear_buffer(Color::White);
        display.draw(
            Font6x8::render_str(text)
                .with_stroke(Some(Color::Black))
                .with_fill(Some(Color::White))
                .translate(Coord::new(x, y))
                .into_iter(),
        );
    }
    buffer.buffer.to_vec()
}

fn image_by_the_crates(data: &[u8], width: u32, height: u32, x: i32, y: i32) -> Vec<u8> {
    let mut buffer = Buffer1in54::default();
    {
        let mut display = Display::new(200, 200, &mut buffer.buffer);
        display.clear_buffer(Color::White);
        let image: Image1BPP<Color> = Image1BPP::new(data, width, height);
        display.draw(image.translate(Coord::new(x, y)).into_iter());
    }
    buffer.buffer.to_vec()
}

fn checkerboard(len: usize) -> Vec<u8> {
    (0..len).map(|i| if (i / 3) % 2 == 0 { 0xa5 } else { 0x3c }).collect()
}

#[test]
fn panel_constants() {
    assert_eq!((PANEL_WIDTH, PANEL_HEIGHT, FRAME_BYTES), (200, 200, 5000));
    assert_eq!((TEXT_LEFT, TEXT_TOP, LINE_PITCH), (5, 5, 9));
    assert_eq!(MAX_LINE_BYTES, (i32::MAX as usize - 5) / 6);
    assert_eq!(MAX_LINES as i64, (i32::MAX as i64 - 8 - 5) / 9 + 1);
}

#[test]
fn new_canvas_is_white() {
    let canvas = Canvas::new();
    assert_eq!(canvas.bytes().len(), 5000);
    assert!(canvas.bytes().iter().all(|b| *b == 0xff));
}

#[test]
fn clear_makes_a_drawn_canvas_white_again() {
    let mut canvas = Canvas::new();
    canvas.put_line(0, "Hello");
    assert!(canvas.bytes().iter().any(|b| *b != 0xff));
    canvas.clear();
    assert_eq!(canvas.bytes(), &vec![0xffu8; 5000]);
}

#[test]
fn letter_m_is_drawn_black_on_white() {
    let mut canvas = Canvas::new();
    canvas.put_line(0, "M");
    let rows = [
        [1, 0, 0, 0, 1, 0],
        [1, 1, 0, 1, 1, 0],
        [1, 0, 1, 0, 1, 0],
        [1, 0, 1, 0, 1, 0],
        [1, 0, 0, 0, 1, 0],
        [1, 0, 0, 0, 1, 0],
        [1, 0, 0, 0, 1, 0],
        [0, 0, 0, 0, 0, 0],
    ];
    for (r, row) in rows.iter().enumerate() {
        for (c, lit) in row.iter().enumerate() {
            assert_eq!(pixel(canvas.bytes(), 5 + c, 5 + r), *lit == 0, "pixel {} {}", c, r);
        }
    }
    // Row 5 holds columns 0 to 7 in byte 125: columns 5 and 9 are black.
    assert_eq!(canvas.bytes()[125], 0b1111_1011);
    assert_eq!(canvas.bytes()[126], 0b1011_1111);
}

#[test]
fn glyph_cells_are_repainted_white() {
    let mut canvas = Canvas::new();
    canvas.put_line(3, "MMMM");
    assert_ne!(canvas.bytes(), &vec![0xffu8; 5000]);
    canvas.put_line(3, "    ");
    assert_eq!(canvas.bytes(), &vec![0xffu8; 5000]);
}

#[test]
fn lines_match_the_graphics_crates() {
    for (text, index) in [
        ("Hello Rust!", 0u32),
        ("", 0),
        ("~ { | } \u{7f} \u{a1}\u{ff} \u{20ac} tab\there", 1),
        ("a line that is far too long to fit in two hundred pixels of width", 5),
        ("bottom edge", 21),
        ("below", 22),
        ("far away", 10_000),
    ] {
        let mut canvas = Canvas::new();
        canvas.put_line(index, text);
        let top = 5 + 9 * index as i32;
        assert_eq!(canvas.bytes(), &text_by_the_crates(text, 5, top), "for {:?} as line {}", text, index);
    }
}

#[test]
fn second_glyph_starts_six_columns_on() {
    let mut canvas = Canvas::new();
    canvas.put_line(1, " M");
    assert!(pixel(canvas.bytes(), 5, 14));
    assert!(!pixel(canvas.bytes(), 11, 14));
    assert!(pixel(canvas.bytes(), 12, 14));
    assert!(!pixel(canvas.bytes(), 15, 14));
    assert!(!pixel(canvas.bytes(), 11, 20));
    assert!(pixel(canvas.bytes(), 11, 21));
}

#[test]
fn dots_are_put_in_order_and_clipped() {
    let mut canvas = Canvas::new();
    let dots = vec![
        Dot { x: 0, y: 0, ink: 0 },
        Dot { x: 7, y: 0, ink: 0 },
        Dot { x: 7, y: 0, ink: 1 },
        Dot { x: 8, y: 0, ink: 0 },
        Dot { x: 199, y: 199, ink: 0 },
        Dot { x: 200, y: 0, ink: 0 },
        Dot { x: 0, y: 200, ink: 0 },
        Dot { x: u32::MAX, y: u32::MAX, ink: 0 },
        Dot { x: 3, y: 2, ink: 1 },
    ];
    canvas.put_dots(&dots);
    let mut expected = vec![0xffu8; 5000];
    expected[0] = 0b0111_1111;
    expected[1] = 0b0111_1111;
    expected[4999] = 0b1111_1110;
    assert_eq!(canvas.bytes(), &expected);
    canvas.put_dots(&Vec::new());
    assert_eq!(canvas.bytes(), &expected);
}

#[test]
fn line_index_sets_the_row() {
    for index in [0u32, 1, 2, 7, 21] {
        let mut canvas = Canvas::new();
        canvas.put_line(index, "M");
        let top = 5 + 9 * index as usize;
        assert!(!pixel(canvas.bytes(), 5, top), "line {}", index);
        assert!(pixel(canvas.bytes(), 6, top), "line {}", index);
        assert!(!pixel(canvas.bytes(), 9, top), "line {}", index);
        assert_eq!(canvas.bytes(), &text_by_the_crates("M", 5, 5 + 9 * index as i32));
    }
}

#[test]
fn lines_below_the_panel_leave_no_trace() {
    let mut canvas = Canvas::new();
    canvas.put_line(22, "M");
    canvas.put_line(1000, "MMM");
    canvas.put_line(MAX_LINES - 1, "MMM");
    assert_eq!(canvas.bytes(), &vec![0xffu8; 5000]);
}

#[test]
fn picture_bits_land_at_the_offset() {
    let data = [0b1010_0000u8, 0b0100_0000u8];
    let image = Bitmap::new(&data, 3, 2);
    assert!(Canvas::fits(10, 20, &image));
    let mut canvas = Canvas::new();
    canvas.put_image(10, 20, &Bitmap::new(&[0u8, 0u8], 3, 2));
    assert!(!pixel(canvas.bytes(), 10, 20));
    canvas.put_image(10, 20, &image);
    assert!(pixel(canvas.bytes(), 10, 20));
    assert!(!pixel(canvas.bytes(), 11, 20));
    assert!(pixel(canvas.bytes(), 12, 20));
    assert!(!pixel(canvas.bytes(), 10, 21));
    assert!(pixel(canvas.bytes(), 11, 21));
    assert!(!pixel(canvas.bytes(), 12, 21));
    assert!(pixel(canvas.bytes(), 13, 20));
}

#[test]
fn picture_matches_the_graphics_crates() {
    let data = checkerboard(2869);
    for (width, height, x, y) in [
        (144u32, 144u32, 28i32, 28i32),
        (151, 151, 24, 24),
        (151, 151, 0, 0),
        (151, 151, 100, 120),
        (151, 151, -30, -40),
        (151, 151, -30, 40),
        (151, 151, 30, -40),
        (151, 151, -151, -151),
        (151, 151, -200, -200),
        (151, 151, 300, 10),
        (9, 3, 1, 1),
        (0, 5, 1, 1),
        (5, 0, 1, 1),
    ] {
        let image = Bitmap::new(&data, width, height);
        assert!(Canvas::fits(x, y, &image));
        let mut canvas = Canvas::new();
        canvas.put_image(x, y, &image);
        assert_eq!(
            canvas.bytes(),
            &image_by_the_crates(&data, width, height, x, y),
            "for {}x{} at {} {}",
            width,
            height,
            x,
            y
        );
    }
}

#[test]
fn fits_refuses_what_cannot_be_counted_or_read() {
    let data = checkerboard(2869);
    assert!(Canvas::fits(i32::MAX - 151, i32::MAX - 151, &Bitmap::new(&data, 151, 151)));
    assert!(!Canvas::fits(i32::MAX - 150, 0, &Bitmap::new(&data, 151, 151)));
    assert!(!Canvas::fits(0, i32::MAX - 150, &Bitmap::new(&data, 151, 151)));
    assert!(!Canvas::fits(0, 0, &Bitmap::new(&data[..2868], 151, 151)));
    assert!(Canvas::fits(i32::MIN, i32::MIN, &Bitmap::new(&data, 151, 151)));
    assert!(!Canvas::fits(i32::MIN, 0, &Bitmap::new(&data, 0x8000_0000, 0)));
    assert!(Canvas::fits(i32::MIN, 0, &Bitmap::new(&data, 0x7fff_ffff, 0)));
}
