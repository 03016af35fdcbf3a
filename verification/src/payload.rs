//! What a run shows: lines of text, one of two bundled pictures, or nothing.

use vstd::prelude::*;
use crate::raster::row_bytes;

verus! {

/// Column and row at which the `rust` picture is placed.
pub const RUST_OFFSET: i32 = 28;

/// Width and height of the `rust` picture.
pub const RUST_SIDE: u32 = 144;

/// Column and row at which the `abema` picture is placed.
pub const ABEMA_OFFSET: i32 = 24;

/// Width and height of the `abema` picture.
pub const ABEMA_SIDE: u32 = 151;

/// A packed one-bit picture: `height` rows of `width` pixels, each row padded
/// to whole bytes, the leftmost pixel of a byte in its highest bit.
#[derive(Clone, Copy, Debug, PartialEq, Eq)]
pub struct Bitmap<'a> {
    pub data: &'a [u8],
    pub width: u32,
    pub height: u32,
}

impl<'a> Bitmap<'a> {
    /// A picture over `data`. Nothing is asked of the length of `data` here;
    /// see `is_complete`.
    pub fn new(data: &'a [u8], width: u32, height: u32) -> (bitmap: Bitmap<'a>)
        ensures
            bitmap == (Bitmap { data, width, height }),
    {
        Bitmap { data, width, height }
    }

    /// Whether `data` holds every row of the picture.
    pub open spec fn complete(&self) -> bool {
        row_bytes(self.width as int) * self.height <= self.data@.len()
    }

    /// Tells whether `data` holds every row of the picture.
    pub fn is_complete(&self) -> (yes: bool)
        ensures
            yes == self.complete(),
    {
        let row: u64 = (self.width as u64 + 7) / 8;
        let rows: u64 = self.height as u64;
        assert(row * rows <= 0x2000_0000 * 0xffff_ffff) by (nonlinear_arith)
            requires
                row <= 0x2000_0000,
                rows <= 0xffff_ffff,
        ;
        row * rows <= self.data.len() as u64
    }
}

/// The content chosen for one run. `T` is the source of text lines, which the
/// caller reads.
#[derive(Debug, PartialEq, Eq)]
pub enum PayloadData<'a, T> {
    /// Lines of text, read from the source one after the other.
    Text(T),
    /// A picture, with the column and the row of its top left corner.
    Image(i32, i32, Bitmap<'a>),
    /// Nothing to draw: the frame stays white.
    Internal,
}

/// The payload that belongs to the value given for the image option: `rust`
/// and `abema` name the two pictures, any other value names nothing to draw,
/// and without a value the text lines are shown.
pub open spec fn payload_for<'a, T>(
    image: Option<Seq<char>>,
    lines: T,
    rust: &'a [u8],
    abema: &'a [u8],
) -> PayloadData<'a, T> {
    match image {
        None => PayloadData::Text(lines),
        Some(name) => if name == "rust"@ {
            PayloadData::Image(
                RUST_OFFSET,
                RUST_OFFSET,
                Bitmap { data: rust, width: RUST_SIDE, height: RUST_SIDE },
            )
        } else if name == "abema"@ {
            PayloadData::Image(
                ABEMA_OFFSET,
                ABEMA_OFFSET,
                Bitmap { data: abema, width: ABEMA_SIDE, height: ABEMA_SIDE },
            )
        } else {
            PayloadData::Internal
        },
    }
}

/// The view of an optional string.
pub open spec fn opt_view(s: Option<&str>) -> Option<Seq<char>> {
    match s {
        None => None,
        Some(t) => Some(t@),
    }
}

/// Tells whether two strings hold the same characters.
fn same_text(a: &str, b: &str) -> (same: bool)
    ensures
        same == (a@ == b@),
{
    let x: String = a.to_owned();
    let y: String = b.to_owned();
    x == y
}

/// Chooses the payload for the value given for the image option. `rust` and
/// `abema` are the bytes of the two bundled pictures; `lines` is handed on
/// only where text is chosen.
pub fn select_payload<'a, T>(image: Option<&str>, lines: T, rust: &'a [u8], abema: &'a [u8]) -> (payload:
    PayloadData<'a, T>)
    ensures
        payload == payload_for(opt_view(image), lines, rust, abema),
{
    match image {
        None => PayloadData::Text(lines),
        Some(name) => {
            if same_text(name, "rust") {
                PayloadData::Image(RUST_OFFSET, RUST_OFFSET, Bitmap::new(rust, RUST_SIDE, RUST_SIDE))
            } else if same_text(name, "abema") {
                PayloadData::Image(
                    ABEMA_OFFSET,
                    ABEMA_OFFSET,
                    Bitmap::new(abema, ABEMA_SIDE, ABEMA_SIDE),
                )
            } else {
                PayloadData::Internal
            }
        },
    }
}

/// The hardware flavour named on the command line. Both behave alike; the
/// flavour only decides which notice is printed.
#[derive(Clone, Copy, Debug, PartialEq, Eq, Structural)]
pub enum HalMode {
    Rpi,
    Neo,
}

/// The flavour that belongs to the value given for the mode option: `neo`
/// names the second flavour, anything else and no value the first.
pub open spec fn hal_mode_for(arg: Option<Seq<char>>) -> HalMode {
    if arg == Some("neo"@) {
        HalMode::Neo
    } else {
        HalMode::Rpi
    }
}

/// The notice printed for a flavour.
pub open spec fn notice_for(mode: HalMode) -> Seq<char> {
    match mode {
        HalMode::Neo => "Neo mode not implemented yet"@,
        HalMode::Rpi => "default mode Rpi"@,
    }
}

impl HalMode {
    /// Reads the flavour from the value given for the mode option.
    pub fn from_arg(arg: Option<&str>) -> (mode: HalMode)
        ensures
            mode == hal_mode_for(opt_view(arg)),
    {
        match arg {
            Some(name) => if same_text(name, "neo") {
                HalMode::Neo
            } else {
                HalMode::Rpi
            },
            None => HalMode::Rpi,
        }
    }

    /// The notice to print for this flavour.
    pub fn notice(&self) -> (text: &'static str)
        ensures
            text@ == notice_for(*self),
    {
        match self {
            HalMode::Neo => "Neo mode not implemented yet",
            HalMode::Rpi => "default mode Rpi",
        }
    }
}

} // verus!
