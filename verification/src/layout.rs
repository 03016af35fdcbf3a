//! Where lines of text go on the frame, and the frame that a payload gives.

use vstd::prelude::*;
use vstd::utf8::encode_utf8;
use crate::canvas::blank_frame;
use crate::canvas::image_fits;
use crate::canvas::line_top;
use crate::canvas::with_image;
use crate::canvas::with_line;
use crate::canvas::with_text;
use crate::canvas::Canvas;
use crate::canvas::MAX_LINES;
use crate::canvas::MAX_LINE_BYTES;
use crate::canvas::TEXT_LEFT;
use crate::payload::PayloadData;

verus! {

/// The lines handed to a run, in the order in which they were read. A line
/// that could not be decoded is `None`.
pub type Lines = Seq<Option<Seq<char>>>;

/// One drawing of a line of text: the text and the column and row of its top
/// left corner.
pub struct Stamp {
    pub text: Seq<char>,
    pub x: int,
    pub y: int,
}

/// The drawing of `text` as the line with the given index.
pub open spec fn stamp_for(index: int, text: Seq<char>) -> Stamp {
    Stamp { text, x: TEXT_LEFT as int, y: line_top(index) }
}

/// The drawings made for `lines`, the first of which has index `first`: one
/// for each line that was decoded, in order, at the row that belongs to the
/// line's index. A line that was not decoded gives none and still counts.
pub open spec fn stamps(lines: Lines, first: int) -> Seq<Stamp>
    decreases lines.len(),
{
    if lines.len() == 0 {
        Seq::empty()
    } else {
        let before = stamps(lines.drop_last(), first);
        match lines.last() {
            Some(text) => before.push(stamp_for(first + lines.len() - 1, text)),
            None => before,
        }
    }
}

/// A frame after the given drawings were made on it, first to last.
pub open spec fn stamped(frame: Seq<u8>, marks: Seq<Stamp>) -> Seq<u8> {
    marks.fold_left(frame, |f: Seq<u8>, s: Stamp| with_text(f, s.text, s.x, s.y))
}

/// A frame after `lines` were drawn on it, the first of which has index
/// `first`.
pub open spec fn with_lines(frame: Seq<u8>, lines: Lines, first: int) -> Seq<u8> {
    stamped(frame, stamps(lines, first))
}

/// The frame that shows `lines` and nothing else.
pub open spec fn text_frame(lines: Lines) -> Seq<u8> {
    with_lines(blank_frame(), lines, 0)
}

/// The frame that a payload gives: its lines of text on white, its picture
/// on white, or white alone.
pub open spec fn frame_for(payload: PayloadData<Lines>) -> Seq<u8> {
    match payload {
        PayloadData::Text(lines) => text_frame(lines),
        PayloadData::Image(x, y, image) => with_image(
            blank_frame(),
            x as int,
            y as int,
            image.data@,
            image.width as int,
            image.height as int,
        ),
        PayloadData::Internal => blank_frame(),
    }
}

/// Whether a line can be drawn: the columns of its glyphs can be counted.
pub open spec fn line_fits(line: Option<Seq<char>>) -> bool {
    line matches Some(text) ==> encode_utf8(text).len() <= MAX_LINE_BYTES
}

/// Whether `lines` can be drawn: the rows can be counted, and so can the
/// columns of each line.
pub open spec fn lines_fit(lines: Lines) -> bool {
    &&& lines.len() <= MAX_LINES
    &&& forall|i: int| 0 <= i < lines.len() ==> line_fits(#[trigger] lines[i])
}

/// Whether the frame of a payload can be composed.
pub open spec fn payload_fits(payload: PayloadData<Lines>) -> bool {
    match payload {
        PayloadData::Text(lines) => lines_fit(lines),
        PayloadData::Image(x, y, image) => image_fits(x as int, y as int, image),
        PayloadData::Internal => true,
    }
}

/// A payload with its lines as they are seen in contracts.
pub open spec fn payload_view(payload: PayloadData<Vec<Option<String>>>) -> PayloadData<Lines> {
    match payload {
        PayloadData::Text(lines) => PayloadData::Text(lines.deep_view()),
        PayloadData::Image(x, y, image) => PayloadData::Image(x, y, image),
        PayloadData::Internal => PayloadData::Internal,
    }
}

/// One more line adds its drawing after the others, or none if it was not
/// decoded.
pub proof fn lemma_stamps_push(lines: Lines, first: int, line: Option<Seq<char>>)
    ensures
        stamps(lines.push(line), first) == match line {
            Some(text) => stamps(lines, first).push(stamp_for(first + lines.len(), text)),
            None => stamps(lines, first),
        },
{
    assert(lines.push(line).drop_last() =~= lines);
}

/// One more line changes the frame by its drawing, or not at all if it was
/// not decoded.
pub proof fn lemma_with_lines_push(frame: Seq<u8>, lines: Lines, first: int, line: Option<Seq<char>>)
    ensures
        with_lines(frame, lines.push(line), first) == match line {
            Some(text) => with_line(with_lines(frame, lines, first), first + lines.len(), text),
            None => with_lines(frame, lines, first),
        },
{
    lemma_stamps_push(lines, first, line);
    match line {
        Some(text) => {
            let before = stamps(lines, first);
            let mark = stamp_for(first + lines.len(), text);
            assert(before.push(mark).drop_last() =~= before);
        },
        None => {},
    }
}

/// Two runs of lines give the drawings of the first, then those of the
/// second with its indexes counted on from the end of the first.
pub proof fn lemma_stamps_concat(a: Lines, b: Lines, first: int)
    ensures
        stamps(a + b, first) == stamps(a, first) + stamps(b, first + a.len()),
    decreases b.len(),
{
    if b.len() == 0 {
        assert(a + b =~= a);
        assert(stamps(a, first) + stamps(b, first + a.len()) =~= stamps(a, first));
    } else {
        let rest = b.drop_last();
        lemma_stamps_concat(a, rest, first);
        assert((a + b).drop_last() =~= a + rest);
        assert((a + b).last() == b.last());
        match b.last() {
            Some(text) => {
                let mark = stamp_for(first + a.len() + b.len() - 1, text);
                assert((stamps(a, first) + stamps(rest, first + a.len())).push(mark) =~= stamps(
                    a,
                    first,
                ) + stamps(rest, first + a.len()).push(mark));
            },
            None => {},
        }
    }
}

/// There are no more drawings than lines.
pub proof fn lemma_stamps_len(lines: Lines, first: int)
    ensures
        stamps(lines, first).len() <= lines.len(),
    decreases lines.len(),
{
    if lines.len() > 0 {
        lemma_stamps_len(lines.drop_last(), first);
    }
}

/// Every drawing starts at the text column, at the row of a line of the run.
pub proof fn lemma_stamps_rows(lines: Lines, first: int, k: int)
    requires
        0 <= k < stamps(lines, first).len(),
    ensures
        stamps(lines, first)[k].x == TEXT_LEFT,
        line_top(first) <= stamps(lines, first)[k].y <= line_top(first + lines.len() - 1),
    decreases lines.len(),
{
    if lines.len() > 0 {
        let before = stamps(lines.drop_last(), first);
        if k < before.len() {
            lemma_stamps_rows(lines.drop_last(), first, k);
        }
    }
}

/// Where every line was decoded, each line is drawn exactly once: there are
/// as many drawings as lines, and the drawing of line `i` holds its text and
/// starts at column 5 and row `5 + 9 * i`.
pub proof fn law_each_line_drawn_once_at_its_row(lines: Lines)
    requires
        forall|i: int| 0 <= i < lines.len() ==> (#[trigger] lines[i]) is Some,
    ensures
        stamps(lines, 0).len() == lines.len(),
        forall|i: int|
            0 <= i < lines.len() ==> #[trigger] stamps(lines, 0)[i] == (Stamp {
                text: lines[i]->0,
                x: 5,
                y: 5 + 9 * i,
            }),
    decreases lines.len(),
{
    if lines.len() > 0 {
        let rest = lines.drop_last();
        assert forall|i: int| 0 <= i < rest.len() implies (#[trigger] rest[i]) is Some by {
            assert(rest[i] == lines[i]);
        }
        law_each_line_drawn_once_at_its_row(rest);
        assert(lines.last() is Some);
        assert forall|i: int| 0 <= i < lines.len() implies #[trigger] stamps(lines, 0)[i] == (Stamp {
            text: lines[i]->0,
            x: 5,
            y: 5 + 9 * i,
        }) by {
            if i < rest.len() {
                assert(stamps(lines, 0)[i] == stamps(rest, 0)[i]);
                assert(rest[i] == lines[i]);
            }
        }
    }
}

/// A line that was not decoded is passed over and nothing after it is lost
/// or moved: the drawings are those of the lines before it, followed by
/// those of the lines after it at the rows of their own indexes.
pub proof fn law_undecoded_line_is_skipped(before: Lines, after: Lines)
    ensures
        stamps(before.push(None) + after, 0) == stamps(before, 0) + stamps(
            after,
            before.len() as int + 1,
        ),
{
    lemma_stamps_concat(before.push(None), after, 0);
    lemma_stamps_push(before, 0, None);
}

/// No line is drawn twice: the rows of the drawings grow strictly, whatever
/// lines were not decoded.
pub proof fn law_rows_grow(lines: Lines, first: int, j: int, k: int)
    requires
        0 <= j < k < stamps(lines, first).len(),
    ensures
        stamps(lines, first)[j].y < stamps(lines, first)[k].y,
    decreases lines.len(),
{
    if lines.len() > 0 {
        let rest = lines.drop_last();
        let before = stamps(rest, first);
        if k < before.len() {
            law_rows_grow(rest, first, j, k);
        } else {
            lemma_stamps_len(rest, first);
            lemma_stamps_rows(rest, first, j);
        }
    }
}

/// Composes the frame that shows `lines`: line `i`, where it was decoded, in
/// the 6x8 font at column 5 and row `5 + 9 * i`.
pub fn compose_text(lines: &Vec<Option<String>>) -> (canvas: Canvas)
    requires
        lines_fit(lines.deep_view()),
    ensures
        canvas.wf(),
        canvas@ == text_frame(lines.deep_view()),
{
    let ghost all = lines.deep_view();
    let mut canvas = Canvas::new();
    let mut i: usize = 0;
    assert(all.take(0) =~= Seq::empty());
    while i < lines.len()
        invariant
            i <= lines.len(),
            all == lines.deep_view(),
            lines_fit(all),
            canvas.wf(),
            canvas@ == with_lines(blank_frame(), all.take(i as int), 0),
        decreases lines.len() - i,
    {
        proof {
            lemma_with_lines_push(blank_frame(), all.take(i as int), 0, all[i as int]);
            assert(all.take(i as int).push(all[i as int]) =~= all.take(i + 1));
            assert(line_fits(all[i as int]));
        }
        match &lines[i] {
            Some(text) => {
                canvas.put_line(i as u32, text.as_str());
            },
            None => {},
        }
        i += 1;
    }
    assert(all.take(lines.len() as int) =~= all);
    canvas
}

/// Tells whether `lines` can be drawn.
pub fn lines_can_be_drawn(lines: &Vec<Option<String>>) -> (yes: bool)
    ensures
        yes == lines_fit(lines.deep_view()),
{
    let ghost all = lines.deep_view();
    if lines.len() > MAX_LINES as usize {
        return false;
    }
    let mut i: usize = 0;
    while i < lines.len()
        invariant
            i <= lines.len(),
            all == lines.deep_view(),
            forall|k: int| 0 <= k < i ==> line_fits(#[trigger] all[k]),
        decreases lines.len() - i,
    {
        match &lines[i] {
            Some(text) => {
                if text.as_str().as_bytes().len() > MAX_LINE_BYTES {
                    assert(!line_fits(all[i as int]));
                    return false;
                }
            },
            None => {},
        }
        i += 1;
    }
    true
}

/// Tells whether the frame of a payload can be composed.
pub fn can_compose(payload: &PayloadData<Vec<Option<String>>>) -> (yes: bool)
    ensures
        yes == payload_fits(payload_view(*payload)),
{
    match payload {
        PayloadData::Text(lines) => lines_can_be_drawn(lines),
        PayloadData::Image(x, y, image) => Canvas::fits(*x, *y, image),
        PayloadData::Internal => true,
    }
}

/// Composes the frame of a payload.
pub fn compose_frame(payload: &PayloadData<Vec<Option<String>>>) -> (canvas: Canvas)
    requires
        payload_fits(payload_view(*payload)),
    ensures
        canvas.wf(),
        canvas@ == frame_for(payload_view(*payload)),
{
    match payload {
        PayloadData::Text(lines) => compose_text(lines),
        PayloadData::Image(x, y, image) => {
            let mut canvas = Canvas::new();
            canvas.put_image(*x, *y, image);
            canvas
        },
        PayloadData::Internal => Canvas::new(),
    }
}

} // verus!
