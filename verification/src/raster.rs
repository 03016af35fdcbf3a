//! One-bit pixels: which ones a line of text or a bitmap produces, and what
//! they do to the bytes of a frame.
//!
//! The glyph shapes, the bitmap walk and the frame's bit layout belong to the
//! graphics and panel crates. The functions at the end of this file call them
//! and state, without proof, what their sources show.

use vstd::prelude::*;
use vstd::string::StringSliceAdditionalSpecFns;
use embedded_graphics::coord::Coord;
use embedded_graphics::drawable::Pixel;
use embedded_graphics::fonts::Font;
use embedded_graphics::fonts::Font6x8;
use embedded_graphics::image::Image1BPP;
use embedded_graphics::style::WithStyle;
use embedded_graphics::transform::Transform;
use embedded_graphics::unsignedcoord::UnsignedCoord;
use embedded_graphics::Drawing;
use epd_waveshare::color::Color;
use epd_waveshare::epd1in54::Buffer1in54;
use epd_waveshare::graphics::Display;

verus! {

/// The ink value of a black pixel.
pub const BLACK: u8 = 0;

/// The ink value of a white pixel.
pub const WHITE: u8 = 1;

/// One pixel to be put on a frame: its column, its row, and its ink
/// (`BLACK` or `WHITE`).
#[derive(Clone, Copy, Debug, PartialEq, Eq, Structural)]
pub struct Dot {
    pub x: u32,
    pub y: u32,
    pub ink: u8,
}

/// Whether the 6x8 font of `embedded_graphics` lights the pixel at `column`,
/// `row` of the cell of `glyph`. The font's bitmap decides; it is not written
/// out here, and nothing more is said of it than that the same glyph, column
/// and row always give the same answer.
pub uninterp spec fn font6x8_lit(glyph: char, column: int, row: int) -> bool;

/// The `n`-th pixel of a line of text whose top left corner is at `x`, `y`.
/// Glyphs follow each other left to right, six columns apart; inside a glyph
/// the pixels run row by row. Lit pixels take `stroke`, the others `fill`.
pub open spec fn glyph_dot(text: Seq<char>, stroke: u8, fill: u8, x: int, y: int, n: int) -> Dot {
    Dot {
        x: (x + 6 * (n / 48) + n % 6) as u32,
        y: (y + (n % 48) / 6) as u32,
        ink: if font6x8_lit(text[n / 48], n % 6, (n % 48) / 6) {
            stroke
        } else {
            fill
        },
    }
}

/// All pixels of a line of text, in the order in which they are drawn.
pub open spec fn text_dots(text: Seq<char>, stroke: u8, fill: u8, x: int, y: int) -> Seq<Dot> {
    Seq::new((48 * text.len()) as nat, |n: int| glyph_dot(text, stroke, fill, x, y, n))
}

/// Bytes in one row of a packed one-bit bitmap: rows are padded to whole bytes.
pub open spec fn row_bytes(width: int) -> int {
    (width + 7) / 8
}

/// The bit of a packed bitmap at `column`, `row`; the leftmost pixel of a
/// byte is its highest bit.
pub open spec fn bitmap_bit(data: Seq<u8>, width: int, column: int, row: int) -> u8 {
    (data[row_bytes(width) * row + column / 8] >> ((7 - column % 8) as u8)) & 1u8
}

/// Whether the `n`-th pixel of a bitmap placed at `x`, `y` has a column and a
/// row that are not negative.
pub open spec fn bitmap_cell_shown(width: int, x: int, y: int, n: int) -> bool {
    x + n % width >= 0 && y + n / width >= 0
}

/// The `n`-th pixel of a bitmap placed at `x`, `y`, counting row by row.
pub open spec fn bitmap_dot(data: Seq<u8>, width: int, x: int, y: int, n: int) -> Dot {
    Dot {
        x: (x + n % width) as u32,
        y: (y + n / width) as u32,
        ink: bitmap_bit(data, width, n % width, n / width),
    }
}

/// All pixels of a bitmap placed at `x`, `y`, row by row. Pixels left of
/// column 0 or above row 0 are left out. A set bit is white.
pub open spec fn bitmap_dots(data: Seq<u8>, width: int, height: int, x: int, y: int) -> Seq<Dot> {
    Seq::new((width * height) as nat, |n: int| n).filter(
        |n: int| bitmap_cell_shown(width, x, y, n),
    ).map_values(|n: int| bitmap_dot(data, width, x, y, n))
}

/// The bit of a frame byte that holds column `x`: the leftmost of eight
/// pixels is the highest bit.
pub open spec fn column_bit(x: u32) -> u8 {
    0x80u8 >> ((x % 8) as u8)
}

/// The index of the frame byte that holds the pixel at `x`, `y`.
pub open spec fn byte_index(width: u32, x: u32, y: u32) -> int {
    x / 8 + (width / 8) * y
}

/// A frame after one pixel was put on it. A pixel outside the panel changes
/// nothing. Black clears the pixel's bit, white sets it.
pub open spec fn plot_one(frame: Seq<u8>, width: u32, height: u32, d: Dot) -> Seq<u8> {
    if d.x < width && d.y < height {
        let i = byte_index(width, d.x, d.y);
        frame.update(
            i,
            if d.ink == BLACK {
                frame[i] & !column_bit(d.x)
            } else {
                frame[i] | column_bit(d.x)
            },
        )
    } else {
        frame
    }
}

/// A frame after a sequence of pixels was put on it, first to last.
pub open spec fn plot_all(frame: Seq<u8>, width: u32, height: u32, dots: Seq<Dot>) -> Seq<u8> {
    dots.fold_left(frame, |f: Seq<u8>, d: Dot| plot_one(f, width, height, d))
}

/// The byte that holds eight pixels of one ink.
pub open spec fn solid_byte(ink: u8) -> u8 {
    if ink == BLACK {
        0x00u8
    } else {
        0xffu8
    }
}

/// A frame of `len` bytes in which every pixel has the same ink.
pub open spec fn solid_frame(len: nat, ink: u8) -> Seq<u8> {
    Seq::new(len, |i: int| solid_byte(ink))
}

/// Whether every pixel of a sequence has an ink that exists.
pub open spec fn inks_valid(dots: Seq<Dot>) -> bool {
    forall|n: int| 0 <= n < dots.len() ==> (#[trigger] dots[n]).ink <= WHITE
}

/// Renders `text` with `Font6x8::render_str` of `embedded_graphics`, styled
/// by `with_stroke` and `with_fill` and moved by `translate` to `x`, `y`, and
/// collects the pixels that its iterator yields.
///
/// Believed of that iterator, not proved: with a corner that is not negative
/// it yields 48 pixels for each character, glyph after glyph and row by row
/// inside a glyph, six columns to a glyph, and a pixel has the stroke ink
/// exactly where the font's bitmap has a set bit, the fill ink elsewhere.
#[verifier::external_body]
pub(crate) fn font6x8_pixels(text: &str, stroke: u8, fill: u8, x: i32, y: i32) -> (dots: Vec<Dot>)
    requires
        stroke <= WHITE,
        fill <= WHITE,
        0 <= x,
        0 <= y,
        x + 6 * text.spec_bytes().len() <= i32::MAX,
        y + 8 <= i32::MAX,
    ensures
        dots@.len() == 48 * text@.len(),
        forall|n: int|
            0 <= n < dots@.len() ==> #[trigger] dots@[n] == (Dot {
                x: (x + 6 * (n / 48) + n % 6) as u32,
                y: (y + (n % 48) / 6) as u32,
                ink: if font6x8_lit(text@[n / 48], n % 6, (n % 48) / 6) {
                    stroke
                } else {
                    fill
                },
            }),
{
    let glyphs = Font6x8::render_str(text)
        .with_stroke(Some(Color::from(stroke)))
        .with_fill(Some(Color::from(fill)))
        .translate(Coord::new(x, y));
    glyphs.into_iter().map(|Pixel(UnsignedCoord(px, py), c)| Dot { x: px, y: py, ink: c.get_bit_value() }).collect()
}

/// Walks a packed one-bit bitmap with `Image1BPP::new` of
/// `embedded_graphics`, moved by `translate` to `x`, `y`, and collects the
/// pixels that its iterator yields.
///
/// Believed of that iterator, not proved: it visits the `width * height`
/// pixels row by row, reads each from the byte and bit that `bitmap_bit`
/// names, and yields those whose column and row are not negative.
#[verifier::external_body]
pub(crate) fn bitmap_pixels(data: &[u8], width: u32, height: u32, x: i32, y: i32) -> (dots: Vec<Dot>)
    requires
        row_bytes(width as int) * height <= data@.len(),
        row_bytes(width as int) * height <= u32::MAX,
        x + width <= i32::MAX,
        y + height <= i32::MAX,
        width <= i32::MAX,
        height <= i32::MAX,
    ensures
        dots@ == bitmap_dots(data@, width as int, height as int, x as int, y as int),
{
    let image: Image1BPP<Color> = Image1BPP::new(data, width, height).translate(Coord::new(x, y));
    image.into_iter().map(|Pixel(UnsignedCoord(px, py), c)| Dot { x: px, y: py, ink: c.get_bit_value() }).collect()
}

/// Puts `dots` on `frame` with `Display::draw` of `epd_waveshare`, on a
/// `Display::new` that treats the bytes as a picture `width` wide and
/// `height` high, not rotated.
///
/// Believed of `Display::draw`, not proved: it takes the pixels in order,
/// passes over those outside the picture, and for the others clears (black)
/// or sets (white) the one bit that `byte_index` and `column_bit` name.
#[verifier::external_body]
pub(crate) fn plot(frame: &mut Vec<u8>, width: u32, height: u32, dots: &Vec<Dot>)
    requires
        width % 8 == 0,
        old(frame)@.len() == (width / 8) * height,
        (width / 8) * height <= u32::MAX,
        inks_valid(dots@),
    ensures
        final(frame)@ == plot_all(old(frame)@, width, height, dots@),
{
    let mut display = Display::new(width, height, frame.as_mut_slice());
    display.draw(dots.iter().map(|d| Pixel(UnsignedCoord(d.x, d.y), Color::from(d.ink))));
}

/// Fills `frame` with one ink with `Display::clear_buffer` of
/// `epd_waveshare`.
///
/// Believed of `Display::clear_buffer`, not proved: it writes the ink's solid
/// byte into every byte and leaves the length alone.
#[verifier::external_body]
pub(crate) fn wipe(frame: &mut Vec<u8>, width: u32, height: u32, ink: u8)
    requires
        ink <= WHITE,
        old(frame)@.len() <= (width / 8) * height,
        (width / 8) * height <= u32::MAX,
    ensures
        final(frame)@ == solid_frame(old(frame)@.len(), ink),
{
    let mut display = Display::new(width, height, frame.as_mut_slice());
    display.clear_buffer(Color::from(ink));
}

/// A fresh buffer for the 1.54 inch panel, as `Buffer1in54::default` of
/// `epd_waveshare` makes it.
///
/// Believed of `Buffer1in54::default`, not proved: 5000 bytes, one bit for
/// each pixel of 200 by 200, all white.
#[verifier::external_body]
pub(crate) fn panel_buffer() -> (frame: Vec<u8>)
    ensures
        frame@ == solid_frame(5000, WHITE),
{
    Buffer1in54::default().buffer.to_vec()
}

} // verus!
