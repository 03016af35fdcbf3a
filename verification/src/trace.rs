//! What holds of every run: the order of the bring-up, what a failure does,
//! and what the lines that were read leave on the frame.

use vstd::prelude::*;
use crate::canvas::blank_frame;
use crate::canvas::MAX_LINES;
use crate::error::ErrorView;
use crate::error::FaultKind;
use crate::layout::frame_for;
use crate::layout::lemma_with_lines_push;
use crate::layout::line_fits;
use crate::layout::text_frame;
use crate::layout::with_lines;
use crate::layout::Lines;
use crate::payload::payload_for;
use crate::payload::PayloadData;
use crate::pins::PinMapping;
use crate::session::accepts;
use crate::session::action_of;
use crate::session::composed;
use crate::session::halted;
use crate::session::next;
use crate::session::run;
use crate::session::schedule;
use crate::session::start;
use crate::session::Action;
use crate::session::EventView;
use crate::session::Level;
use crate::session::SessionView;
use crate::session::STEP_COMPOSE;
use crate::session::STEP_CONFIGURE_SPI;
use crate::session::STEP_CONSTRUCT;
use crate::session::STEP_OPEN_SPI;
use crate::session::STEP_UPDATE;

verus! {

/// A payload of a run together with the lines that were read for it.
pub open spec fn lines_of<'a>(content: PayloadData<'a, ()>, lines: Lines) -> PayloadData<'a, Lines> {
    match content {
        PayloadData::Text(_) => PayloadData::Text(lines),
        PayloadData::Image(x, y, image) => PayloadData::Image(x, y, image),
        PayloadData::Internal => PayloadData::Internal,
    }
}

/// The GPIO line that an action touches, if it touches one.
pub open spec fn line_touched(action: Action) -> Option<u64> {
    match action {
        Action::Export(n) => Some(n),
        Action::OutputLow(n) => Some(n),
        Action::Drive(n, _) => Some(n),
        _ => None,
    }
}

/// `k` reports of success, one after the other.
pub open spec fn successes(k: nat) -> Seq<EventView> {
    Seq::new(k, |i: int| EventView::Done)
}

/// The reports of the lines that were read, in order.
pub open spec fn line_events(lines: Lines) -> Seq<EventView> {
    Seq::new(lines.len(), |i: int| EventView::Line(lines[i]))
}

/// The bring-up touches the four lines of the wiring and no other.
pub proof fn law_bring_up_touches_the_four_lines(mapping: PinMapping)
    ensures
        forall|k: int|
            0 <= k < schedule(mapping).len() ==> (line_touched(#[trigger] schedule(mapping)[k])
                matches Some(n) ==> mapping.has(n)),
        forall|n: u64|
            mapping.has(n) ==> exists|k: int|
                0 <= k < STEP_OPEN_SPI && #[trigger] schedule(mapping)[k] == Action::Export(n),
{
    let plan = schedule(mapping);
    assert(plan[0] == Action::Export(mapping.cs));
    assert(plan[2] == Action::Export(mapping.rst));
    assert(plan[6] == Action::Export(mapping.busy));
    assert(plan[8] == Action::Export(mapping.dc));
}

/// A line is claimed before it is made an output: wherever the schedule
/// makes a line an output, an earlier step claims that line.
pub proof fn law_line_claimed_before_direction(mapping: PinMapping, d: int, n: u64)
    requires
        0 <= d < schedule(mapping).len(),
        schedule(mapping)[d] == Action::OutputLow(n),
    ensures
        exists|e: int| 0 <= e < d && #[trigger] schedule(mapping)[e] == Action::Export(n),
{
    let plan = schedule(mapping);
    assert(d == 1 || d == 3 || d == 7 || d == 9);
    assert(plan[d - 1] == Action::Export(n));
}

/// The reset line goes low and then high before the controller is built,
/// and the controller is built at one step only.
pub proof fn law_reset_pulse_before_construction(mapping: PinMapping)
    ensures
        exists|low: int, high: int|
            0 <= low < high < STEP_CONSTRUCT && #[trigger] schedule(mapping)[low] == Action::Drive(
                mapping.rst,
                Level::Low,
            ) && #[trigger] schedule(mapping)[high] == Action::Drive(mapping.rst, Level::High),
        forall|k: int|
            0 <= k < schedule(mapping).len() && (#[trigger] schedule(mapping)[k]) is Construct ==> k
                == STEP_CONSTRUCT,
{
    let plan = schedule(mapping);
    assert(plan[4] == Action::Drive(mapping.rst, Level::Low));
    assert(plan[5] == Action::Drive(mapping.rst, Level::High));
}

/// As long as nothing fails, a run asks for the actions of the schedule in
/// order, up to the building of the controller, and leaves the frame white.
pub proof fn law_unfailing_run_follows_schedule(
    content: PayloadData<()>,
    mapping: PinMapping,
    k: int,
)
    requires
        0 <= k <= STEP_CONSTRUCT,
    ensures
        run(start(content, mapping), successes(k as nat)) == (SessionView {
            step: k,
            ..start(content, mapping)
        }),
        action_of(run(start(content, mapping), successes(k as nat))) == schedule(mapping)[k],
    decreases k,
{
    if k > 0 {
        law_unfailing_run_follows_schedule(content, mapping, k - 1);
        assert(successes(k as nat).drop_last() =~= successes((k - 1) as nat));
    } else {
        assert(start(content, mapping) == (SessionView { step: 0, ..start(content, mapping) }));
    }
}

/// A run that is over stays as it is, whatever is reported to it.
pub proof fn law_halted_run_stays(s: SessionView, events: Seq<EventView>)
    requires
        halted(s),
    ensures
        run(s, events) == s,
    decreases events.len(),
{
    if events.len() > 0 {
        law_halted_run_stays(s, events.drop_last());
    }
}

/// A failure that answers the action that is due ends the run.
pub proof fn law_failure_ends_run(s: SessionView, kind: FaultKind, message: Seq<char>)
    requires
        accepts(s, EventView::Failed(kind, message)),
    ensures
        halted(next(s, EventView::Failed(kind, message))),
        action_of(next(s, EventView::Failed(kind, message))) == Action::Halt,
        next(s, EventView::Failed(kind, message)).frame == s.frame,
{
}

/// When the configuration of the serial bus fails, the run ends with an i/o
/// error that carries the failure's message, and from then on no action is
/// asked for: the controller is not built and no frame is sent or shown.
pub proof fn law_bus_configuration_failure_ends_run(
    s: SessionView,
    kind: FaultKind,
    message: Seq<char>,
    later: Seq<EventView>,
)
    requires
        !halted(s),
        s.step == STEP_CONFIGURE_SPI,
    ensures
        run(next(s, EventView::Failed(kind, message)), later).failure == Some(
            ErrorView::IoError(message),
        ),
        action_of(run(next(s, EventView::Failed(kind, message)), later)) == Action::Halt,
{
    law_halted_run_stays(next(s, EventView::Failed(kind, message)), later);
}

/// Lines that are reported while text is composed are drawn as by the
/// layout of the whole text: line `i` of them, where it was decoded, at the
/// row of the index that it has among all lines reported so far.
pub proof fn law_reported_lines_are_laid_out(s: SessionView, lines: Lines)
    requires
        !halted(s),
        s.step == STEP_COMPOSE,
        0 <= s.lines,
        s.lines + lines.len() <= MAX_LINES,
        forall|i: int| 0 <= i < lines.len() ==> line_fits(#[trigger] lines[i]),
    ensures
        run(s, line_events(lines)) == (SessionView {
            frame: with_lines(s.frame, lines, s.lines),
            lines: s.lines + lines.len(),
            ..s
        }),
    decreases lines.len(),
{
    if lines.len() == 0 {
        assert(with_lines(s.frame, lines, s.lines) == s.frame);
        assert(s == (SessionView { frame: s.frame, lines: s.lines, ..s }));
    } else {
        let rest = lines.drop_last();
        assert forall|i: int| 0 <= i < rest.len() implies line_fits(#[trigger] rest[i]) by {
            assert(rest[i] == lines[i]);
        }
        law_reported_lines_are_laid_out(s, rest);
        assert(line_events(lines).drop_last() =~= line_events(rest));
        assert(line_events(lines).last() == EventView::Line(lines.last()));
        assert(line_fits(lines[lines.len() - 1]));
        lemma_with_lines_push(s.frame, rest, s.lines, lines.last());
        assert(rest.push(lines.last()) =~= lines);
    }
}

/// A run that shows text, once the controller is built, the lines are
/// reported and the input has ended, sends the frame of those lines.
pub proof fn law_text_run_sends_text_frame(mapping: PinMapping, lines: Lines)
    requires
        lines.len() <= MAX_LINES,
        forall|i: int| 0 <= i < lines.len() ==> line_fits(#[trigger] lines[i]),
    ensures
        ({
            let built = run(start(PayloadData::Text(()), mapping), successes(STEP_CONSTRUCT as nat + 1));
            let read = next(run(built, line_events(lines)), EventView::EndOfInput);
            &&& action_of(built) == Action::ReadLine
            &&& action_of(read) == Action::UpdateFrame
            &&& read.frame == text_frame(lines)
        }),
{
    let content = PayloadData::Text(());
    let ready = run(start(content, mapping), successes(STEP_CONSTRUCT as nat));
    law_unfailing_run_follows_schedule(content, mapping, STEP_CONSTRUCT as int);
    assert(successes(STEP_CONSTRUCT as nat + 1).drop_last() =~= successes(STEP_CONSTRUCT as nat));
    let built = run(start(content, mapping), successes(STEP_CONSTRUCT as nat + 1));
    assert(built == next(ready, EventView::Done));
    law_reported_lines_are_laid_out(built, lines);
}

/// A run that shows a picture or nothing reads no line: once the controller
/// is built, the frame of the payload is complete and is sent next.
pub proof fn law_run_without_text_sends_payload_frame(content: PayloadData<()>, mapping: PinMapping)
    requires
        !(content is Text),
    ensures
        ({
            let built = run(start(content, mapping), successes(STEP_CONSTRUCT as nat + 1));
            &&& action_of(built) == Action::UpdateFrame
            &&& built.frame == frame_for(lines_of(content, Seq::empty()))
        }),
{
    let ready = run(start(content, mapping), successes(STEP_CONSTRUCT as nat));
    law_unfailing_run_follows_schedule(content, mapping, STEP_CONSTRUCT as int);
    assert(successes(STEP_CONSTRUCT as nat + 1).drop_last() =~= successes(STEP_CONSTRUCT as nat));
    let built = run(start(content, mapping), successes(STEP_CONSTRUCT as nat + 1));
    assert(built == next(ready, EventView::Done));
}

/// A value of the image option that names no picture gives the payload
/// with nothing to draw: its frame is white, and a run that shows it goes
/// from the building of the controller straight to sending the frame it had.
pub proof fn law_unknown_image_draws_nothing(
    name: Seq<char>,
    lines: Lines,
    rust: &[u8],
    abema: &[u8],
    s: SessionView,
)
    requires
        name != "rust"@,
        name != "abema"@,
        s.content == PayloadData::<()>::Internal,
    ensures
        payload_for(Some(name), lines, rust, abema) == PayloadData::<Lines>::Internal,
        frame_for(payload_for(Some(name), lines, rust, abema)) == blank_frame(),
        composed(s).frame == s.frame,
        composed(s).step == STEP_UPDATE,
{
}

} // verus!
