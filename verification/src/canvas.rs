//! The frame of the 1.54 inch panel and what is drawn on it.

use vstd::prelude::*;
use vstd::string::StringSliceAdditionalSpecFns;
use crate::payload::Bitmap;
use crate::pixels::lemma_bitmap_inks_valid;
use crate::pixels::lemma_plot_keeps_len;
use crate::raster::bitmap_dots;
use crate::raster::bitmap_pixels;
use crate::raster::font6x8_pixels;
use crate::raster::inks_valid;
use crate::raster::panel_buffer;
use crate::raster::plot;
use crate::raster::plot_all;
use crate::raster::row_bytes;
use crate::raster::solid_frame;
use crate::raster::text_dots;
use crate::raster::wipe;
use crate::raster::Dot;
use crate::raster::BLACK;
use crate::raster::WHITE;

verus! {

/// Pixels in a row of the panel.
pub const PANEL_WIDTH: u32 = 200;

/// Rows of the panel.
pub const PANEL_HEIGHT: u32 = 200;

/// Bytes of a frame: one bit for each pixel.
pub const FRAME_BYTES: usize = 5000;

/// Column at which every line of text starts.
pub const TEXT_LEFT: i32 = 5;

/// Row at which the first line of text starts.
pub const TEXT_TOP: i32 = 5;

/// Rows from the top of one line of text to the top of the next.
pub const LINE_PITCH: i32 = 9;

/// The longest line, in bytes, whose pixel columns can still be counted.
pub const MAX_LINE_BYTES: usize = 357_913_940;

/// The number of lines whose rows can still be counted.
pub const MAX_LINES: u32 = 238_609_293;

/// The frame in which every pixel is white.
pub open spec fn blank_frame() -> Seq<u8> {
    solid_frame(FRAME_BYTES as nat, WHITE)
}

/// The row at which the line with the given index starts.
pub open spec fn line_top(index: int) -> int {
    TEXT_TOP + LINE_PITCH * index
}

/// A frame after `text` was drawn with its top left corner at `x`, `y`:
/// black glyphs in white cells.
pub open spec fn with_text(frame: Seq<u8>, text: Seq<char>, x: int, y: int) -> Seq<u8> {
    plot_all(frame, PANEL_WIDTH, PANEL_HEIGHT, text_dots(text, BLACK, WHITE, x, y))
}

/// A frame after `text` was drawn as the line with the given index.
pub open spec fn with_line(frame: Seq<u8>, index: int, text: Seq<char>) -> Seq<u8> {
    with_text(frame, text, TEXT_LEFT as int, line_top(index))
}

/// A frame after a picture was drawn with its top left corner at `x`, `y`.
pub open spec fn with_image(frame: Seq<u8>, x: int, y: int, data: Seq<u8>, width: int, height: int) -> Seq<
    u8,
> {
    plot_all(frame, PANEL_WIDTH, PANEL_HEIGHT, bitmap_dots(data, width, height, x, y))
}

/// Whether a picture can be placed at `x`, `y`: its data is complete and the
/// columns and rows it reaches can be counted.
pub open spec fn image_fits(x: int, y: int, image: Bitmap) -> bool {
    &&& image.complete()
    &&& row_bytes(image.width as int) * image.height <= u32::MAX
    &&& image.width <= i32::MAX
    &&& image.height <= i32::MAX
    &&& x + image.width <= i32::MAX
    &&& y + image.height <= i32::MAX
}

/// The frame of the panel, one bit for each pixel, row by row.
pub struct Canvas {
    frame: Vec<u8>,
}

impl View for Canvas {
    type V = Seq<u8>;

    closed spec fn view(&self) -> Seq<u8> {
        self.frame@
    }
}

impl Canvas {
    /// Whether the frame has the panel's size. Every canvas made and changed
    /// by the functions below has.
    pub open spec fn wf(&self) -> bool {
        self@.len() == FRAME_BYTES
    }

    /// A frame in which every pixel is white.
    pub fn new() -> (canvas: Canvas)
        ensures
            canvas.wf(),
            canvas@ == blank_frame(),
    {
        let mut canvas = Canvas { frame: panel_buffer() };
        canvas.clear();
        canvas
    }

    /// Makes every pixel white.
    pub fn clear(&mut self)
        requires
            old(self).wf(),
        ensures
            final(self).wf(),
            final(self)@ == blank_frame(),
    {
        wipe(&mut self.frame, PANEL_WIDTH, PANEL_HEIGHT, WHITE);
    }

    /// The bytes of the frame, as they are sent to the panel.
    pub fn bytes(&self) -> (bytes: &Vec<u8>)
        requires
            self.wf(),
        ensures
            bytes@ == self@,
            bytes@.len() == FRAME_BYTES,
    {
        &self.frame
    }

    /// Puts `dots` on the frame, first to last. A dot outside the panel
    /// changes nothing.
    pub fn put_dots(&mut self, dots: &Vec<Dot>)
        requires
            old(self).wf(),
            inks_valid(dots@),
        ensures
            final(self).wf(),
            final(self)@ == plot_all(old(self)@, PANEL_WIDTH, PANEL_HEIGHT, dots@),
    {
        proof {
            lemma_plot_keeps_len(self.frame@, PANEL_WIDTH, PANEL_HEIGHT, dots@);
        }
        plot(&mut self.frame, PANEL_WIDTH, PANEL_HEIGHT, dots);
    }

    /// Draws `text` in the 6x8 font with its top left corner at `x`, `y`,
    /// black on white.
    fn draw_text(&mut self, text: &str, x: i32, y: i32)
        requires
            old(self).wf(),
            0 <= x,
            0 <= y,
            x + 6 * text.spec_bytes().len() <= i32::MAX,
            y + 8 <= i32::MAX,
        ensures
            final(self).wf(),
            final(self)@ == with_text(old(self)@, text@, x as int, y as int),
    {
        let dots = font6x8_pixels(text, BLACK, WHITE, x, y);
        assert(dots@ =~= text_dots(text@, BLACK, WHITE, x as int, y as int));
        self.put_dots(&dots);
    }

    /// Draws `text` as the line with the given index: at column 5, nine rows
    /// below the line before it, the first line at row 5.
    pub fn put_line(&mut self, index: u32, text: &str)
        requires
            old(self).wf(),
            index < MAX_LINES,
            text.spec_bytes().len() <= MAX_LINE_BYTES,
        ensures
            final(self).wf(),
            final(self)@ == with_line(old(self)@, index as int, text@),
    {
        let top: i32 = TEXT_TOP + LINE_PITCH * (index as i32);
        self.draw_text(text, TEXT_LEFT, top);
    }

    /// Draws a picture with its top left corner at `x`, `y`.
    pub fn put_image(&mut self, x: i32, y: i32, image: &Bitmap)
        requires
            old(self).wf(),
            image_fits(x as int, y as int, *image),
        ensures
            final(self).wf(),
            final(self)@ == with_image(
                old(self)@,
                x as int,
                y as int,
                image.data@,
                image.width as int,
                image.height as int,
            ),
    {
        let dots = bitmap_pixels(image.data, image.width, image.height, x, y);
        proof {
            lemma_bitmap_inks_valid(
                image.data@,
                image.width as int,
                image.height as int,
                x as int,
                y as int,
            );
        }
        self.put_dots(&dots);
    }

    /// Tells whether a picture can be placed at `x`, `y`.
    pub fn fits(x: i32, y: i32, image: &Bitmap) -> (yes: bool)
        ensures
            yes == image_fits(x as int, y as int, *image),
    {
        let row: u64 = (image.width as u64 + 7) / 8;
        let rows: u64 = image.height as u64;
        assert(row * rows <= 0x2000_0000 * 0xffff_ffff) by (nonlinear_arith)
            requires
                row <= 0x2000_0000,
                rows <= 0xffff_ffff,
        ;
        image.is_complete() && row * rows <= 0xffff_ffff && image.width <= 0x7fff_ffff
            && image.height <= 0x7fff_ffff && x as i64 + image.width as i64 <= 0x7fff_ffff && y as i64
            + image.height as i64 <= 0x7fff_ffff
    }
}

} // verus!
