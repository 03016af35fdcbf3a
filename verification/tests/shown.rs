use neo_eink::canvas::Canvas;
use neo_eink::layout::compose_text;
use neo_eink::payload::Bitmap;

fn is_white(bytes: &[u8], x: usize, y: usize) -> bool {
    bytes[x / 8 + 25 * y] & (0x80u8 >> (x % 8)) != 0
}

/// Whether the font lights a cell of a glyph, read off a canvas on which the
/// glyph alone was drawn as the first line.
fn lit(glyph: char, column: usize, row: usize) -> bool {
    let mut canvas = Canvas::new();
    canvas.put_line(0, &glyph.to_string());
    !is_white(canvas.bytes(), 5 + column, 5 + row)
}

fn bit(data: &[u8], width: usize, column: usize, row: usize) -> u8 {
    (data[(width + 7) / 8 * row + column / 8] >> (7 - column % 8)) & 1
}

fn noise(len: usize) -> Vec<u8> {
    let mut state: u32 = 0x1234_5678;
    (0..len)
        .map(|_| {
            state = state.wrapping_mul(1_664_525).wrapping_add(1_013_904_223);
            (state >> 24) as u8
        })
        .collect()
}

#[test]
fn blank_canvas_has_every_pixel_white() {
    let canvas = Canvas::new();
    for y in 0..200 {
        for x in 0..200 {
            assert!(is_white(canvas.bytes(), x, y));
        }
    }
}

#[test]
fn line_shows_its_glyphs_cell_by_cell() {
    let text = "Rust e-paper 1.54 ~ÿ?";
    let glyphs: Vec<char> = text.chars().collect();
    for index in [0usize, 3, 21] {
        let mut canvas = Canvas::new();
        canvas.put_line(index as u32, text);
        for y in 0..200usize {
            for x in 0..200usize {
                let inside = x >= 5 && x < 5 + 6 * glyphs.len() && y >= 5 + 9 * index && y < 5 + 9 * index + 8;
                let expected = if inside {
                    !lit(glyphs[(x - 5) / 6], (x - 5) % 6, y - 5 - 9 * index)
                } else {
                    true
                };
                assert_eq!(is_white(canvas.bytes(), x, y), expected, "line {} pixel {} {}", index, x, y);
            }
        }
    }
}

#[test]
fn text_frame_is_black_exactly_where_a_decoded_line_is_lit() {
    let lines = vec![
        Some("first".to_string()),
        None,
        Some("the third line runs over the right edge of the panel".to_string()),
        Some(String::new()),
        None,
        Some("sixth".to_string()),
    ];
    let canvas = compose_text(&lines);
    let glyphs: Vec<Option<Vec<char>>> = lines.iter().map(|l| l.as_ref().map(|t| t.chars().collect())).collect();
    for y in 0..200usize {
        for x in 0..200usize {
            let mut black = false;
            if x >= 5 && y >= 5 && (y - 5) % 9 < 8 && (y - 5) / 9 < glyphs.len() {
                if let Some(text) = &glyphs[(y - 5) / 9] {
                    if (x - 5) / 6 < text.len() {
                        black = lit(text[(x - 5) / 6], (x - 5) % 6, (y - 5) % 9);
                    }
                }
            }
            assert_eq!(is_white(canvas.bytes(), x, y), !black, "pixel {} {}", x, y);
        }
    }
}

#[test]
fn later_line_leaves_earlier_lines_alone() {
    let mut canvas = Canvas::new();
    canvas.put_line(2, "MMMMMMMM");
    let before = canvas.bytes().clone();
    canvas.put_line(3, "WWWWWWWW");
    canvas.put_line(1, "WWWWWWWW");
    for y in 23..31 {
        for x in 0..200 {
            assert_eq!(is_white(canvas.bytes(), x, y), is_white(&before, x, y));
        }
    }
}

#[test]
fn picture_shows_its_bits_where_it_is_placed() {
    let data = noise(19 * 151);
    for (width, height, x0, y0) in [
        (144usize, 144usize, 28i64, 28i64),
        (151, 151, 24, 24),
        (151, 151, -7, -13),
        (151, 151, 120, -150),
        (151, 151, -150, 199),
        (13, 5, 195, 198),
        (8, 8, 0, 0),
        (1, 1, 199, 199),
        (1, 1, 200, 200),
    ] {
        let mut canvas = Canvas::new();
        let image = Bitmap::new(&data, width as u32, height as u32);
        assert!(Canvas::fits(x0 as i32, y0 as i32, &image));
        canvas.put_image(x0 as i32, y0 as i32, &image);
        for y in 0..200i64 {
            for x in 0..200i64 {
                let inside = x >= x0 && x < x0 + width as i64 && y >= y0 && y < y0 + height as i64;
                let expected = if inside { bit(&data, width, (x - x0) as usize, (y - y0) as usize) != 0 } else { true };
                assert_eq!(
                    is_white(canvas.bytes(), x as usize, y as usize),
                    expected,
                    "{}x{} at {} {} pixel {} {}",
                    width,
                    height,
                    x0,
                    y0,
                    x,
                    y
                );
            }
        }
    }
}

#[test]
fn picture_over_text_replaces_only_its_box() {
    let mut canvas = Canvas::new();
    canvas.put_line(0, "MMMMMMMMMMMMMMMMMMMMMMMMMMMMMMMM");
    let before = canvas.bytes().clone();
    let data = vec![0xffu8; 2];
    canvas.put_image(10, 6, &Bitmap::new(&data, 5, 2));
    for y in 0..200usize {
        for x in 0..200usize {
            let inside = (10..15).contains(&x) && (6..8).contains(&y);
            let expected = if inside { true } else { is_white(&before, x, y) };
            assert_eq!(is_white(canvas.bytes(), x, y), expected, "pixel {} {}", x, y);
        }
    }
}
