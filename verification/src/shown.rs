//! What a composed frame shows, pixel by pixel: glyphs black on white where
//! lines of text were drawn, the bits of a picture where it was placed, and
//! everything else as it was.

use vstd::prelude::*;
use vstd::utf8::encode_scalar;
use vstd::utf8::encode_utf8;
use crate::canvas::blank_frame;
use crate::canvas::line_top;
use crate::canvas::with_image;
use crate::canvas::with_line;
use crate::canvas::with_text;
use crate::canvas::FRAME_BYTES;
use crate::canvas::LINE_PITCH;
use crate::canvas::MAX_LINES;
use crate::canvas::PANEL_HEIGHT;
use crate::canvas::PANEL_WIDTH;
use crate::canvas::TEXT_LEFT;
use crate::canvas::TEXT_TOP;
use crate::layout::frame_for;
use crate::layout::lemma_with_lines_push;
use crate::layout::line_fits;
use crate::layout::lines_fit;
use crate::layout::payload_fits;
use crate::layout::text_frame;
use crate::layout::with_lines;
use crate::layout::Lines;
use crate::payload::PayloadData;
use crate::pixels::is_white;
use crate::pixels::lemma_plot_all_agreed;
use crate::pixels::lemma_plot_all_untouched;
use crate::pixels::lemma_plot_keeps_len;
use crate::pixels::lemma_solid_frame_pixel;
use crate::raster::bitmap_bit;
use crate::raster::bitmap_cell_shown;
use crate::raster::bitmap_dot;
use crate::raster::bitmap_dots;
use crate::raster::font6x8_lit;
use crate::raster::glyph_dot;
use crate::raster::text_dots;
use crate::raster::BLACK;
use crate::raster::WHITE;

verus! {

/// Whether a pixel lies in the glyph cells of a text whose top left corner is
/// at `x0`, `y0`.
pub open spec fn in_text_box(text: Seq<char>, x0: int, y0: int, x: int, y: int) -> bool {
    x0 <= x < x0 + 6 * text.len() && y0 <= y < y0 + 8
}

/// Whether a pixel lies in a picture `width` wide and `height` high whose top
/// left corner is at `x0`, `y0`.
pub open spec fn in_image_box(width: int, height: int, x0: int, y0: int, x: int, y: int) -> bool {
    x0 <= x < x0 + width && y0 <= y < y0 + height
}

/// Whether a pixel lies in the glyph cells of one of `lines` that was
/// decoded, the first of which has index `first`.
pub open spec fn in_lines(lines: Lines, first: int, x: int, y: int) -> bool {
    let i = (y - TEXT_TOP) / (LINE_PITCH as int) - first;
    &&& TEXT_TOP <= y
    &&& 0 <= i < lines.len()
    &&& (y - TEXT_TOP) % (LINE_PITCH as int) < 8
    &&& lines[i] matches Some(text) && TEXT_LEFT <= x < TEXT_LEFT + 6 * text.len()
}

/// Whether the glyph that covers a pixel in the cells of `lines` lights it.
pub open spec fn lit_in_lines(lines: Lines, first: int, x: int, y: int) -> bool {
    let i = (y - TEXT_TOP) / (LINE_PITCH as int) - first;
    font6x8_lit(
        lines[i]->0[(x - TEXT_LEFT) / 6],
        (x - TEXT_LEFT) % 6,
        (y - TEXT_TOP) % (LINE_PITCH as int),
    )
}

/// A text has no more characters than bytes.
pub proof fn lemma_chars_within_bytes(text: Seq<char>)
    ensures
        text.len() <= encode_utf8(text).len(),
    decreases text.len(),
{
    if text.len() > 0 {
        lemma_chars_within_bytes(text.drop_first());
        assert(encode_scalar(text[0] as u32).len() >= 1);
    }
}

/// The number of the pixel at column `c`, row `r` of glyph `k` of a text, and
/// how the glyph, the column and the row are read back from it.
proof fn lemma_cell_number(k: int, c: int, r: int)
    requires
        0 <= k,
        0 <= c < 6,
        0 <= r < 8,
    ensures
        (48 * k + 6 * r + c) / 48 == k,
        (48 * k + 6 * r + c) % 6 == c,
        ((48 * k + 6 * r + c) % 48) / 6 == r,
{
}

/// Two pixels of a text at the same place are the same pixel.
proof fn lemma_cell_unique(n: int, k: int, c: int, r: int)
    requires
        0 <= n,
        0 <= k,
        0 <= c < 6,
        0 <= r < 8,
        6 * (n / 48) + n % 6 == 6 * k + c,
        (n % 48) / 6 == r,
    ensures
        n == 48 * k + 6 * r + c,
{
}

/// Where the `n`-th pixel of a text lies, and what ink it has.
proof fn lemma_glyph_dot_place(text: Seq<char>, x0: int, y0: int, n: int)
    requires
        0 <= n < 48 * text.len(),
        0 <= x0,
        0 <= y0,
        x0 + 6 * text.len() <= u32::MAX,
        y0 + 8 <= u32::MAX,
    ensures
        text_dots(text, BLACK, WHITE, x0, y0)[n].x == x0 + 6 * (n / 48) + n % 6,
        text_dots(text, BLACK, WHITE, x0, y0)[n].y == y0 + (n % 48) / 6,
        text_dots(text, BLACK, WHITE, x0, y0)[n].ink == if font6x8_lit(
            text[n / 48],
            n % 6,
            (n % 48) / 6,
        ) {
            BLACK
        } else {
            WHITE
        },
        0 <= n / 48 < text.len(),
        0 <= n % 6 < 6,
        0 <= (n % 48) / 6 < 8,
{
    assert(text_dots(text, BLACK, WHITE, x0, y0)[n] == glyph_dot(text, BLACK, WHITE, x0, y0, n));
}

/// The pixels of a text that lie on a place inside its glyph cells all have
/// the ink that the font gives that place, and there is one.
proof fn lemma_text_dots_in_box(text: Seq<char>, x0: int, y0: int, x: u32, y: u32) -> (here: int)
    requires
        0 <= x0,
        0 <= y0,
        x0 + 6 * text.len() <= u32::MAX,
        y0 + 8 <= u32::MAX,
        in_text_box(text, x0, y0, x as int, y as int),
    ensures
        0 <= here < text_dots(text, BLACK, WHITE, x0, y0).len(),
        text_dots(text, BLACK, WHITE, x0, y0)[here].x == x,
        text_dots(text, BLACK, WHITE, x0, y0)[here].y == y,
        forall|n: int|
            0 <= n < text_dots(text, BLACK, WHITE, x0, y0).len() && (#[trigger] text_dots(
                text,
                BLACK,
                WHITE,
                x0,
                y0,
            )[n]).x == x && text_dots(text, BLACK, WHITE, x0, y0)[n].y == y ==> text_dots(
                text,
                BLACK,
                WHITE,
                x0,
                y0,
            )[n].ink == if font6x8_lit(text[(x - x0) / 6], (x - x0) % 6, y - y0) {
                BLACK
            } else {
                WHITE
            },
{
    let dots = text_dots(text, BLACK, WHITE, x0, y0);
    let k = (x - x0) / 6;
    let c = (x - x0) % 6;
    let r = y - y0;
    let here = 48 * k + 6 * r + c;
    lemma_cell_number(k, c, r);
    lemma_glyph_dot_place(text, x0, y0, here);
    assert forall|n: int|
        0 <= n < dots.len() && (#[trigger] dots[n]).x == x && dots[n].y == y implies dots[n].ink
        == dots[here].ink by {
        lemma_glyph_dot_place(text, x0, y0, n);
        lemma_cell_unique(n, k, c, r);
    }
    here
}

/// No pixel of a text lies outside its glyph cells.
proof fn lemma_text_dots_stay_in_box(text: Seq<char>, x0: int, y0: int, x: u32, y: u32)
    requires
        0 <= x0,
        0 <= y0,
        x0 + 6 * text.len() <= u32::MAX,
        y0 + 8 <= u32::MAX,
        !in_text_box(text, x0, y0, x as int, y as int),
    ensures
        forall|n: int|
            0 <= n < text_dots(text, BLACK, WHITE, x0, y0).len() ==> !((#[trigger] text_dots(
                text,
                BLACK,
                WHITE,
                x0,
                y0,
            )[n]).x == x && text_dots(text, BLACK, WHITE, x0, y0)[n].y == y),
{
    let dots = text_dots(text, BLACK, WHITE, x0, y0);
    assert forall|n: int| 0 <= n < dots.len() implies !((#[trigger] dots[n]).x == x && dots[n].y
        == y) by {
        lemma_glyph_dot_place(text, x0, y0, n);
    }
}

/// After a text was drawn, a pixel of the panel inside the text's glyph
/// cells is black exactly where the font lights it, and a pixel outside
/// them is as it was.
pub proof fn law_text_pixels(frame: Seq<u8>, text: Seq<char>, x0: int, y0: int, x: u32, y: u32)
    requires
        frame.len() == FRAME_BYTES,
        0 <= x0,
        0 <= y0,
        x0 + 6 * text.len() <= u32::MAX,
        y0 + 8 <= u32::MAX,
        x < PANEL_WIDTH,
        y < PANEL_HEIGHT,
    ensures
        with_text(frame, text, x0, y0).len() == FRAME_BYTES,
        is_white(with_text(frame, text, x0, y0), PANEL_WIDTH, x, y) == if in_text_box(
            text,
            x0,
            y0,
            x as int,
            y as int,
        ) {
            !font6x8_lit(text[(x - x0) / 6], (x - x0) % 6, y - y0)
        } else {
            is_white(frame, PANEL_WIDTH, x, y)
        },
{
    let dots = text_dots(text, BLACK, WHITE, x0, y0);
    lemma_plot_keeps_len(frame, PANEL_WIDTH, PANEL_HEIGHT, dots);
    if in_text_box(text, x0, y0, x as int, y as int) {
        let ink = if font6x8_lit(text[(x - x0) / 6], (x - x0) % 6, y - y0) {
            BLACK
        } else {
            WHITE
        };
        let here = lemma_text_dots_in_box(text, x0, y0, x, y);
        lemma_plot_all_agreed(frame, PANEL_WIDTH, PANEL_HEIGHT, dots, x, y, ink, here);
    } else {
        lemma_text_dots_stay_in_box(text, x0, y0, x, y);
        lemma_plot_all_untouched(frame, PANEL_WIDTH, PANEL_HEIGHT, dots, x, y);
    }
}

/// After lines of text were drawn, a pixel of the panel inside the glyph
/// cells of a line that was decoded is black exactly where the font lights
/// it, and every other pixel is as it was. The cells of line `i` start at
/// column 5 and row `5 + 9 * i`; the ninth row below each line is never
/// touched, nor are the rows of a line that was not decoded.
pub proof fn law_lines_pixels(frame: Seq<u8>, lines: Lines, first: int, x: u32, y: u32)
    requires
        frame.len() == FRAME_BYTES,
        0 <= first,
        first + lines.len() <= MAX_LINES,
        forall|i: int| 0 <= i < lines.len() ==> line_fits(#[trigger] lines[i]),
        x < PANEL_WIDTH,
        y < PANEL_HEIGHT,
    ensures
        with_lines(frame, lines, first).len() == FRAME_BYTES,
        is_white(with_lines(frame, lines, first), PANEL_WIDTH, x, y) == if in_lines(
            lines,
            first,
            x as int,
            y as int,
        ) {
            !lit_in_lines(lines, first, x as int, y as int)
        } else {
            is_white(frame, PANEL_WIDTH, x, y)
        },
    decreases lines.len(),
{
    if lines.len() == 0 {
        assert(with_lines(frame, lines, first) == frame);
    } else {
        let rest = lines.drop_last();
        let last = lines.last();
        let index = first + rest.len();
        let before = with_lines(frame, rest, first);
        assert forall|i: int| 0 <= i < rest.len() implies line_fits(#[trigger] rest[i]) by {
            assert(rest[i] == lines[i]);
        }
        law_lines_pixels(frame, rest, first, x, y);
        lemma_with_lines_push(frame, rest, first, last);
        assert(rest.push(last) =~= lines);
        assert(line_fits(lines[lines.len() - 1]));
        let i = (y - TEXT_TOP) / (LINE_PITCH as int) - first;
        if 0 <= i < rest.len() {
            assert(rest[i] == lines[i]);
        }
        match last {
            Some(text) => {
                lemma_chars_within_bytes(text);
                law_text_pixels(before, text, TEXT_LEFT as int, line_top(index), x, y);
                assert(with_lines(frame, lines, first) == with_line(before, index, text));
            },
            None => {},
        }
    }
}

/// The frame that shows lines of text has a black pixel exactly where a
/// glyph of a line that was decoded lights it; every other pixel is white.
pub proof fn law_text_frame_pixels(lines: Lines, x: u32, y: u32)
    requires
        lines_fit(lines),
        x < PANEL_WIDTH,
        y < PANEL_HEIGHT,
    ensures
        is_white(text_frame(lines), PANEL_WIDTH, x, y) == !(in_lines(lines, 0, x as int, y as int)
            && lit_in_lines(lines, 0, x as int, y as int)),
{
    law_lines_pixels(blank_frame(), lines, 0, x, y);
    lemma_solid_frame_pixel(PANEL_WIDTH, PANEL_HEIGHT, WHITE, x, y);
}

/// After a picture was placed, a pixel of the panel inside the picture is
/// white exactly where the picture's bit is set, and a pixel outside it is as
/// it was: the picture is neither scaled nor turned.
pub proof fn law_image_pixels(
    frame: Seq<u8>,
    x0: int,
    y0: int,
    data: Seq<u8>,
    width: int,
    height: int,
    x: u32,
    y: u32,
)
    requires
        frame.len() == FRAME_BYTES,
        0 <= width,
        0 <= height,
        x0 + width <= i32::MAX,
        y0 + height <= i32::MAX,
        x < PANEL_WIDTH,
        y < PANEL_HEIGHT,
    ensures
        with_image(frame, x0, y0, data, width, height).len() == FRAME_BYTES,
        is_white(with_image(frame, x0, y0, data, width, height), PANEL_WIDTH, x, y) == if in_image_box(
            width,
            height,
            x0,
            y0,
            x as int,
            y as int,
        ) {
            bitmap_bit(data, width, x - x0, y - y0) != 0
        } else {
            is_white(frame, PANEL_WIDTH, x, y)
        },
{
    let cells = Seq::new((width * height) as nat, |n: int| n);
    let shown = |n: int| bitmap_cell_shown(width, x0, y0, n);
    let kept = cells.filter(shown);
    let dots = bitmap_dots(data, width, height, x0, y0);
    assert(dots == kept.map_values(|n: int| bitmap_dot(data, width, x0, y0, n)));
    lemma_plot_keeps_len(frame, PANEL_WIDTH, PANEL_HEIGHT, dots);
    assert(width * height >= 0) by (nonlinear_arith)
        requires
            0 <= width,
            0 <= height,
    ;
    assert forall|m: int| 0 <= m < dots.len() implies {
        let n = kept[m];
        &&& 0 <= n % width < width
        &&& 0 <= n / width < height
        &&& (#[trigger] dots[m]).x == x0 + n % width
        &&& dots[m].y == y0 + n / width
        &&& dots[m].ink == bitmap_bit(data, width, n % width, n / width)
    } by {
        let n = kept[m];
        cells.lemma_filter_pred(shown, m);
        assert(kept.contains(n));
        cells.lemma_filter_contains_rev(shown, n);
        let at = choose|at: int| 0 <= at < cells.len() && cells[at] == n;
        assert(0 <= n < width * height);
        assert(width > 0) by (nonlinear_arith)
            requires
                0 <= n < width * height,
                0 <= width,
        ;
        assert(0 <= n / width < height) by (nonlinear_arith)
            requires
                0 <= n < width * height,
                0 < width,
        ;
        assert(dots[m] == bitmap_dot(data, width, x0, y0, n));
    }
    if in_image_box(width, height, x0, y0, x as int, y as int) {
        let col = x - x0;
        let row = y - y0;
        let n = row * width + col;
        assert(0 <= n < width * height && n % width == col && n / width == row)
            by (nonlinear_arith)
            requires
                0 <= col < width,
                0 <= row < height,
                n == row * width + col,
        ;
        assert(cells[n] == n);
        assert(shown(cells[n]));
        cells.lemma_filter_contains(shown, n);
        let m = choose|m: int| 0 <= m < kept.len() && kept[m] == n;
        let ink = bitmap_bit(data, width, col, row);
        assert(dots[m].x == x && dots[m].y == y);
        assert forall|j: int|
            0 <= j < dots.len() && (#[trigger] dots[j]).x == x && dots[j].y == y implies dots[j].ink
            == ink by {
            let other = kept[j];
            assert(other % width == col && other / width == row);
        }
        lemma_plot_all_agreed(frame, PANEL_WIDTH, PANEL_HEIGHT, dots, x, y, ink, m);
    } else {
        lemma_plot_all_untouched(frame, PANEL_WIDTH, PANEL_HEIGHT, dots, x, y);
    }
}

/// The frame of a payload, pixel by pixel: for text, black where a glyph of
/// a decoded line is lit; for a picture, its bits inside its box and white
/// outside; for nothing to draw, white everywhere.
pub proof fn law_frame_pixels(payload: PayloadData<Lines>, x: u32, y: u32)
    requires
        payload_fits(payload),
        x < PANEL_WIDTH,
        y < PANEL_HEIGHT,
    ensures
        is_white(frame_for(payload), PANEL_WIDTH, x, y) == match payload {
            PayloadData::Text(lines) => !(in_lines(lines, 0, x as int, y as int) && lit_in_lines(
                lines,
                0,
                x as int,
                y as int,
            )),
            PayloadData::Image(x0, y0, image) => in_image_box(
                image.width as int,
                image.height as int,
                x0 as int,
                y0 as int,
                x as int,
                y as int,
            ) ==> bitmap_bit(image.data@, image.width as int, x - x0, y - y0) != 0,
            PayloadData::Internal => true,
        },
{
    lemma_solid_frame_pixel(PANEL_WIDTH, PANEL_HEIGHT, WHITE, x, y);
    match payload {
        PayloadData::Text(lines) => {
            law_text_frame_pixels(lines, x, y);
        },
        PayloadData::Image(x0, y0, image) => {
            law_image_pixels(
                blank_frame(),
                x0 as int,
                y0 as int,
                image.data@,
                image.width as int,
                image.height as int,
                x,
                y,
            );
        },
        PayloadData::Internal => {},
    }
}

} // verus!
