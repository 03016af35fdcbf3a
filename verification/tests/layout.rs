use embedded_graphics::coord::Coord;
use embedded_graphics::fonts::Font;
use embedded_graphics::fonts::Font6x8;
use embedded_graphics::image::Image1BPP;
use embedded_graphics::style::WithStyle;
use embedded_graphics::transform::Transform;
use embedded_graphics::Drawing;
use epd_waveshare::color::Color;
use epd_waveshare::epd1in54::Buffer1in54;
use epd_waveshare::graphics::Display;
use neo_eink::canvas::Canvas;
use neo_eink::canvas::MAX_LINE_BYTES;
use neo_eink::layout::can_compose;
use neo_eink::layout::compose_frame;
use neo_eink::layout::compose_text;
use neo_eink::layout::lines_can_be_drawn;
use neo_eink::payload::select_payload;
use neo_eink::payload::Bitmap;
use neo_eink::payload::PayloadData;

fn lines_by_the_crates(lines: &[Option<&str>]) -> Vec<u8> {
    let mut buffer = Buffer1in54::default();
    {
        let mut display = Display::new(200, 200, &mut buffer.buffer);
        display.clear_buffer(Color::White);
        for (pos, line) in lines.iter().enumerate() {
            if let Some(message) = line {
                display.draw(
                    Font6x8::render_str(message)
                        .with_stroke(Some(Color::Black))
                        .with_fill(Some(Color::White))
                        .translate(Coord::new(5, 5 + pos as i32 * 9))
                        .into_iter(),
                );
            }
        }
    }
    buffer.buffer.to_vec()
}

fn texts_by_the_crates(texts: &[(&str, i32, i32)]) -> Vec<u8> {
    let mut buffer = Buffer1in54::default();
    {
        let mut display = Display::new(200, 200, &mut buffer.buffer);
        display.clear_buffer(Color::White);
        for (text, x, y) in texts {
            display.draw(
                Font6x8::render_str(text)
                    .with_stroke(Some(Color::Black))
                    .with_fill(Some(Color::White))
                    .translate(Coord::new(*x, *y))
                    .into_iter(),
            );
        }
    }
    buffer.buffer.to_vec()
}

fn owned(lines: &[Option<&str>]) -> Vec<Option<String>> {
    lines.iter().map(|l| l.map(|s| s.to_string())).collect()
}

fn stripes(len: usize) -> Vec<u8> {
    (0..len).map(|i| (i * 37 % 251) as u8).collect()
}

#[test]
fn no_lines_compose_a_white_frame() {
    let canvas = compose_text(&Vec::new());
    assert_eq!(canvas.bytes(), &vec![0xffu8; 5000]);
}

#[test]
fn three_lines_land_at_rows_5_14_23() {
    let canvas = compose_text(&owned(&[Some("one"), Some("two"), Some("three")]));
    assert_eq!(canvas.bytes(), &texts_by_the_crates(&[("one", 5, 5), ("two", 5, 14), ("three", 5, 23)]));
    let mut expected = Canvas::new();
    expected.put_line(0, "one");
    expected.put_line(1, "two");
    expected.put_line(2, "three");
    assert_eq!(canvas.bytes(), expected.bytes());
    assert_eq!(canvas.bytes(), &lines_by_the_crates(&[Some("one"), Some("two"), Some("three")]));
}

#[test]
fn every_line_is_drawn_once() {
    let texts: Vec<String> = (0..30).map(|i| format!("line number {}", i)).collect();
    let lines: Vec<Option<String>> = texts.iter().map(|t| Some(t.clone())).collect();
    let canvas = compose_text(&lines);
    let placed: Vec<(&str, i32, i32)> =
        texts.iter().enumerate().map(|(i, t)| (t.as_str(), 5, 5 + 9 * i as i32)).collect();
    assert_eq!(canvas.bytes(), &texts_by_the_crates(&placed));
}

#[test]
fn undecoded_line_is_skipped_and_later_lines_keep_their_rows() {
    let lines = [Some("first"), None, Some("third"), None, None, Some("sixth")];
    let canvas = compose_text(&owned(&lines));
    assert_eq!(canvas.bytes(), &texts_by_the_crates(&[("first", 5, 5), ("third", 5, 23), ("sixth", 5, 50)]));
    let mut expected = Canvas::new();
    expected.put_line(0, "first");
    expected.put_line(2, "third");
    expected.put_line(5, "sixth");
    assert_eq!(canvas.bytes(), expected.bytes());
    assert_eq!(canvas.bytes(), &lines_by_the_crates(&lines));
}

#[test]
fn only_undecoded_lines_leave_the_frame_white() {
    let canvas = compose_text(&owned(&[None, None, None]));
    assert_eq!(canvas.bytes(), &vec![0xffu8; 5000]);
}

#[test]
fn skipped_line_differs_from_an_empty_one_only_in_nothing() {
    let skipped = compose_text(&owned(&[Some("a"), None, Some("b")]));
    let empty = compose_text(&owned(&[Some("a"), Some(""), Some("b")]));
    assert_eq!(skipped.bytes(), empty.bytes());
    let closed_up = compose_text(&owned(&[Some("a"), Some("b")]));
    assert_ne!(skipped.bytes(), closed_up.bytes());
}

#[test]
fn lines_can_be_drawn_checks_each_length() {
    assert!(lines_can_be_drawn(&owned(&[Some("short"), None])));
    let mut lines = vec![None, Some("x".repeat(MAX_LINE_BYTES))];
    assert!(lines_can_be_drawn(&lines));
    if let Some(Some(longest)) = lines.last_mut() {
        longest.push('x');
    }
    assert!(!lines_can_be_drawn(&lines));
}

#[test]
fn frame_of_text_payload() {
    let payload = PayloadData::Text(owned(&[Some("Hello"), None, Some("World")]));
    assert!(can_compose(&payload));
    let canvas = compose_frame(&payload);
    assert_eq!(canvas.bytes(), &lines_by_the_crates(&[Some("Hello"), None, Some("World")]));
}

#[test]
fn frame_of_picture_payload() {
    let data = stripes(2592);
    let payload: PayloadData<Vec<Option<String>>> = select_payload(Some("rust"), Vec::new(), &data, &[]);
    assert!(can_compose(&payload));
    let canvas = compose_frame(&payload);
    let mut buffer = Buffer1in54::default();
    {
        let mut display = Display::new(200, 200, &mut buffer.buffer);
        display.clear_buffer(Color::White);
        let image: Image1BPP<Color> = Image1BPP::new(&data, 144, 144);
        display.draw(image.translate(Coord::new(28, 28)).into_iter());
    }
    assert_eq!(canvas.bytes(), &buffer.buffer.to_vec());
    assert_ne!(canvas.bytes(), &vec![0xffu8; 5000]);
}

#[test]
fn frame_of_nothing_is_white() {
    let payload: PayloadData<Vec<Option<String>>> = select_payload(Some("unknown"), Vec::new(), &[], &[]);
    assert!(can_compose(&payload));
    assert_eq!(compose_frame(&payload).bytes(), &vec![0xffu8; 5000]);
}

#[test]
fn incomplete_picture_cannot_be_composed() {
    let data = stripes(2591);
    let payload: PayloadData<Vec<Option<String>>> = select_payload(Some("rust"), Vec::new(), &data, &[]);
    assert!(!can_compose(&payload));
    let short: PayloadData<Vec<Option<String>>> = PayloadData::Image(0, 0, Bitmap::new(&data, 8, 2592));
    assert!(!can_compose(&short));
}
