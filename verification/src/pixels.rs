//! What a frame shows: the colour of each pixel after dots were put on it.

use vstd::prelude::*;
use crate::raster::bitmap_cell_shown;
use crate::raster::bitmap_dots;
use crate::raster::byte_index;
use crate::raster::column_bit;
use crate::raster::inks_valid;
use crate::raster::plot_all;
use crate::raster::plot_one;
use crate::raster::row_bytes;
use crate::raster::solid_frame;
use crate::raster::Dot;
use crate::raster::BLACK;
use crate::raster::WHITE;

verus! {

/// Whether the pixel at column `x`, row `y` is white in a frame whose rows
/// are `width` pixels wide.
pub open spec fn is_white(frame: Seq<u8>, width: u32, x: u32, y: u32) -> bool {
    frame[byte_index(width, x, y)] & column_bit(x) != 0
}

/// Whether a frame has the bytes of a picture `width` wide and `height` high,
/// with rows of whole bytes.
pub open spec fn frame_sized(frame: Seq<u8>, width: u32, height: u32) -> bool {
    width % 8 == 0 && frame.len() == (width / 8) * height
}

/// Clearing or setting one bit of a byte changes that bit and no other.
proof fn lemma_one_bit(b: u8, k: u8, j: u8)
    requires
        k < 8,
        j < 8,
    ensures
        (b & !(0x80u8 >> k)) & (0x80u8 >> k) == 0,
        (b | (0x80u8 >> k)) & (0x80u8 >> k) != 0,
        k != j ==> (b & !(0x80u8 >> k)) & (0x80u8 >> j) == b & (0x80u8 >> j),
        k != j ==> (b | (0x80u8 >> k)) & (0x80u8 >> j) == b & (0x80u8 >> j),
{
    assert((b & !(0x80u8 >> k)) & (0x80u8 >> k) == 0) by (bit_vector)
        requires
            k < 8,
    ;
    assert((b | (0x80u8 >> k)) & (0x80u8 >> k) != 0) by (bit_vector)
        requires
            k < 8,
    ;
    if k != j {
        assert((b & !(0x80u8 >> k)) & (0x80u8 >> j) == b & (0x80u8 >> j)) by (bit_vector)
            requires
                k < 8,
                j < 8,
                k != j,
        ;
        assert((b | (0x80u8 >> k)) & (0x80u8 >> j) == b & (0x80u8 >> j)) by (bit_vector)
            requires
                k < 8,
                j < 8,
                k != j,
        ;
    }
}

/// A pixel inside a picture lies in one of the picture's bytes.
pub proof fn lemma_byte_index_in_frame(width: u32, height: u32, x: u32, y: u32)
    requires
        width % 8 == 0,
        x < width,
        y < height,
    ensures
        0 <= byte_index(width, x, y) < (width / 8) * height,
{
    let per_row = (width / 8) as int;
    assert(x / 8 < per_row);
    assert(per_row * y + per_row <= per_row * height) by (nonlinear_arith)
        requires
            0 <= per_row,
            y < height,
    ;
    assert(per_row * y >= 0) by (nonlinear_arith)
        requires
            0 <= per_row,
            0 <= y,
    ;
}

/// Two pixels of a picture that lie in the same byte are in the same row
/// and in the same group of eight columns.
pub proof fn lemma_byte_index_apart(width: u32, x: u32, y: u32, x2: u32, y2: u32)
    requires
        width % 8 == 0,
        x < width,
        x2 < width,
        byte_index(width, x, y) == byte_index(width, x2, y2),
    ensures
        y == y2,
        x / 8 == x2 / 8,
{
    let per_row = (width / 8) as int;
    let a = (x / 8) as int;
    let b = (x2 / 8) as int;
    assert(0 <= a < per_row && 0 <= b < per_row);
    assert(a + per_row * y == b + per_row * y2);
    if y < y2 {
        assert(per_row * y2 >= per_row * y + per_row) by (nonlinear_arith)
            requires
                0 <= per_row,
                y < y2,
        ;
    } else if y2 < y {
        assert(per_row * y >= per_row * y2 + per_row) by (nonlinear_arith)
            requires
                0 <= per_row,
                y2 < y,
        ;
    }
}

/// Putting one dot on a frame colours the pixel of the dot and leaves every
/// other pixel as it was.
pub proof fn lemma_plot_one_pixel(frame: Seq<u8>, width: u32, height: u32, d: Dot, x: u32, y: u32)
    requires
        frame_sized(frame, width, height),
        x < width,
        y < height,
    ensures
        is_white(plot_one(frame, width, height, d), width, x, y) == if d.x == x && d.y == y {
            d.ink != BLACK
        } else {
            is_white(frame, width, x, y)
        },
{
    if d.x < width && d.y < height {
        let at = byte_index(width, d.x, d.y);
        let here = byte_index(width, x, y);
        lemma_byte_index_in_frame(width, height, d.x, d.y);
        lemma_byte_index_in_frame(width, height, x, y);
        let k = (d.x % 8) as u8;
        let j = (x % 8) as u8;
        lemma_one_bit(frame[at], k, j);
        if at == here {
            lemma_byte_index_apart(width, x, y, d.x, d.y);
            if k == j {
                assert(d.x == x);
            }
        }
    }
}

/// Putting dots on a frame keeps its length.
pub proof fn lemma_plot_keeps_len(frame: Seq<u8>, width: u32, height: u32, dots: Seq<Dot>)
    requires
        frame_sized(frame, width, height),
    ensures
        plot_all(frame, width, height, dots).len() == frame.len(),
    decreases dots.len(),
{
    if dots.len() > 0 {
        let before = plot_all(frame, width, height, dots.drop_last());
        let d = dots.last();
        lemma_plot_keeps_len(frame, width, height, dots.drop_last());
        assert(plot_all(frame, width, height, dots) == plot_one(before, width, height, d));
        if d.x < width && d.y < height {
            lemma_byte_index_in_frame(width, height, d.x, d.y);
        }
    }
}

/// A pixel that no dot lies on keeps its colour.
pub proof fn lemma_plot_all_untouched(
    frame: Seq<u8>,
    width: u32,
    height: u32,
    dots: Seq<Dot>,
    x: u32,
    y: u32,
)
    requires
        frame_sized(frame, width, height),
        x < width,
        y < height,
        forall|n: int| 0 <= n < dots.len() ==> !((#[trigger] dots[n]).x == x && dots[n].y == y),
    ensures
        is_white(plot_all(frame, width, height, dots), width, x, y) == is_white(frame, width, x, y),
    decreases dots.len(),
{
    if dots.len() > 0 {
        let rest = dots.drop_last();
        let before = plot_all(frame, width, height, rest);
        assert forall|n: int| 0 <= n < rest.len() implies !((#[trigger] rest[n]).x == x && rest[n].y
            == y) by {
            assert(rest[n] == dots[n]);
        }
        lemma_plot_all_untouched(frame, width, height, rest, x, y);
        lemma_plot_keeps_len(frame, width, height, rest);
        assert(plot_all(frame, width, height, dots) == plot_one(before, width, height, dots.last()));
        lemma_plot_one_pixel(before, width, height, dots.last(), x, y);
        assert(dots.last() == dots[dots.len() - 1]);
    }
}

/// A pixel that at least one dot lies on, and on which all dots that lie on
/// it agree, has the ink of those dots.
pub proof fn lemma_plot_all_agreed(
    frame: Seq<u8>,
    width: u32,
    height: u32,
    dots: Seq<Dot>,
    x: u32,
    y: u32,
    ink: u8,
    witness: int,
)
    requires
        frame_sized(frame, width, height),
        x < width,
        y < height,
        0 <= witness < dots.len(),
        dots[witness].x == x && dots[witness].y == y,
        forall|n: int|
            0 <= n < dots.len() && (#[trigger] dots[n]).x == x && dots[n].y == y ==> dots[n].ink
                == ink,
    ensures
        is_white(plot_all(frame, width, height, dots), width, x, y) == (ink != BLACK),
    decreases dots.len(),
{
    let rest = dots.drop_last();
    let last = dots.last();
    let before = plot_all(frame, width, height, rest);
    lemma_plot_keeps_len(frame, width, height, rest);
    assert(plot_all(frame, width, height, dots) == plot_one(before, width, height, last));
    lemma_plot_one_pixel(before, width, height, last, x, y);
    assert(last == dots[dots.len() - 1]);
    if !(last.x == x && last.y == y) {
        assert(witness < rest.len());
        assert(rest[witness] == dots[witness]);
        assert forall|n: int|
            0 <= n < rest.len() && (#[trigger] rest[n]).x == x && rest[n].y == y implies rest[n].ink
            == ink by {
            assert(rest[n] == dots[n]);
        }
        lemma_plot_all_agreed(frame, width, height, rest, x, y, ink, witness);
    }
}

/// In a frame of one ink every pixel has that ink.
pub proof fn lemma_solid_frame_pixel(width: u32, height: u32, ink: u8, x: u32, y: u32)
    requires
        width % 8 == 0,
        x < width,
        y < height,
        ink <= WHITE,
    ensures
        is_white(solid_frame(((width / 8) * height) as nat, ink), width, x, y) == (ink != BLACK),
{
    lemma_byte_index_in_frame(width, height, x, y);
    let k = (x % 8) as u8;
    assert(0xffu8 & (0x80u8 >> k) != 0) by (bit_vector)
        requires
            k < 8,
    ;
    assert(0x00u8 & (0x80u8 >> k) == 0) by (bit_vector);
}

/// Every pixel of a picture is black or white.
pub proof fn lemma_bitmap_inks_valid(data: Seq<u8>, width: int, height: int, x: int, y: int)
    ensures
        inks_valid(bitmap_dots(data, width, height, x, y)),
{
    let dots = bitmap_dots(data, width, height, x, y);
    assert forall|n: int| 0 <= n < dots.len() implies (#[trigger] dots[n]).ink <= WHITE by {
        let cell = Seq::new((width * height) as nat, |n: int| n).filter(
            |n: int| bitmap_cell_shown(width, x, y, n),
        )[n];
        let byte = data[row_bytes(width) * (cell / width) + (cell % width) / 8];
        let shift = (7 - (cell % width) % 8) as u8;
        assert(dots[n].ink == (byte >> shift) & 1u8);
        assert((byte >> shift) & 1u8 <= 1u8) by (bit_vector);
    }
}

} // verus!
