//! One run, from the bring-up of the control lines to the refresh of the
//! panel, as a sequence of steps.
//!
//! A session decides; whoever holds the hardware acts. The session names the
//! next action, the driver performs it and reports what happened, and the
//! session moves on. The frame is composed inside the session.

use vstd::prelude::*;
use crate::canvas::blank_frame;
use crate::canvas::image_fits;
use crate::canvas::with_image;
use crate::canvas::with_line;
use crate::canvas::Canvas;
use crate::canvas::FRAME_BYTES;
use crate::canvas::MAX_LINES;
use crate::canvas::MAX_LINE_BYTES;
use crate::error::ErrorView;
use crate::error::Fault;
use crate::error::FaultKind;
use crate::error::NeoError;
use crate::layout::line_fits;
use crate::payload::PayloadData;
use crate::pins::PinMapping;

verus! {

/// The level of a control line.
#[derive(Clone, Copy, Debug, PartialEq, Eq, Structural)]
pub enum Level {
    Low,
    High,
}

/// How the serial bus to the panel is set up.
#[derive(Clone, Copy, Debug, PartialEq, Eq, Structural)]
pub struct SpiSettings {
    pub bits_per_word: u8,
    pub max_speed_hz: u32,
    /// The bus mode by its number; mode 0 idles the clock low and samples on
    /// the leading edge.
    pub mode: u8,
}

/// What the driver of the hardware is asked to do next.
#[derive(Clone, Copy, Debug, PartialEq, Eq, Structural)]
pub enum Action {
    /// Claim the GPIO line with this number.
    Export(u64),
    /// Make the GPIO line an output that starts low.
    OutputLow(u64),
    /// Drive the GPIO line to a level.
    Drive(u64, Level),
    /// Open the serial bus device.
    OpenSpi,
    /// Apply these settings to the serial bus.
    ConfigureSpi(SpiSettings),
    /// Build the panel's controller over the bus and the four lines.
    Construct(PinMapping),
    /// Read the next line of text and report it.
    ReadLine,
    /// Send the session's frame to the controller.
    UpdateFrame,
    /// Have the controller refresh the panel.
    DisplayFrame,
    /// Nothing: the run is over.
    Halt,
}

/// What the driver reports after an action.
#[derive(Clone, Debug, PartialEq, Eq)]
pub enum Event {
    /// The action was performed.
    Done,
    /// The action failed.
    Failed(Fault),
    /// A line was read; `None` where it could not be decoded.
    Line(Option<String>),
    /// There are no more lines.
    EndOfInput,
}

/// An event with its texts as sequences of characters.
pub enum EventView {
    Done,
    Failed(FaultKind, Seq<char>),
    Line(Option<Seq<char>>),
    EndOfInput,
}

impl View for Event {
    type V = EventView;

    open spec fn view(&self) -> EventView {
        match self {
            Event::Done => EventView::Done,
            Event::Failed(fault) => EventView::Failed(fault.kind, fault.message@),
            Event::Line(Some(text)) => EventView::Line(Some(text@)),
            Event::Line(None) => EventView::Line(None),
            Event::EndOfInput => EventView::EndOfInput,
        }
    }
}

/// The number of steps of a run.
pub const STEPS: u8 = 16;

/// The step at which the serial bus is opened; the steps before it bring up
/// the control lines.
pub const STEP_OPEN_SPI: u8 = 10;

/// The step at which the serial bus is configured.
pub const STEP_CONFIGURE_SPI: u8 = 11;

/// The step at which the controller is built.
pub const STEP_CONSTRUCT: u8 = 12;

/// The step at which lines of text are read and drawn.
pub const STEP_COMPOSE: u8 = 13;

/// The step at which the frame is sent.
pub const STEP_UPDATE: u8 = 14;

/// The step at which the panel is refreshed.
pub const STEP_PRESENT: u8 = 15;

/// The path of the serial bus device.
pub const SPI_DEVICE: &'static str = "/dev/spidev0.0";

/// The settings of the serial bus: words of 8 bits, 1 MHz, mode 0.
pub open spec fn spi_settings() -> SpiSettings {
    SpiSettings { bits_per_word: 8, max_speed_hz: 1_000_000, mode: 0 }
}

/// The actions of a run in which nothing fails, in order. Each control line
/// is claimed and then made an output, chip select first, then reset, busy
/// and data/command; the reset line is pulsed low and high as soon as it is an
/// output. Then the bus is opened and configured, the controller is built,
/// the frame is composed, sent and shown.
pub open spec fn schedule(mapping: PinMapping) -> Seq<Action> {
    seq![
        Action::Export(mapping.cs),
        Action::OutputLow(mapping.cs),
        Action::Export(mapping.rst),
        Action::OutputLow(mapping.rst),
        Action::Drive(mapping.rst, Level::Low),
        Action::Drive(mapping.rst, Level::High),
        Action::Export(mapping.busy),
        Action::OutputLow(mapping.busy),
        Action::Export(mapping.dc),
        Action::OutputLow(mapping.dc),
        Action::OpenSpi,
        Action::ConfigureSpi(spi_settings()),
        Action::Construct(mapping),
        Action::ReadLine,
        Action::UpdateFrame,
        Action::DisplayFrame,
    ]
}

/// The error that a failure at a step ends the run with. A control line that
/// fails keeps the kind of its failure. The serial bus fails as an i/o error.
/// The controller, when it is built, sent a frame or told to refresh, fails as
/// an unexpected response.
pub open spec fn error_for(step: int, kind: FaultKind, message: Seq<char>) -> ErrorView {
    if step < STEP_OPEN_SPI {
        match kind {
            FaultKind::Io => ErrorView::IoError(message),
            FaultKind::Unexpected => ErrorView::UnexpectedResponse,
            FaultKind::Other => ErrorView::Suberror(message),
        }
    } else if step < STEP_CONSTRUCT {
        ErrorView::IoError(message)
    } else {
        ErrorView::UnexpectedResponse
    }
}

/// A payload without its source of lines.
pub open spec fn content_of<'a, T>(payload: PayloadData<'a, T>) -> PayloadData<'a, ()> {
    match payload {
        PayloadData::Text(_) => PayloadData::Text(()),
        PayloadData::Image(x, y, image) => PayloadData::Image(x, y, image),
        PayloadData::Internal => PayloadData::Internal,
    }
}

/// The source of lines of a payload, where it has one.
pub open spec fn source_of<'a, T>(payload: PayloadData<'a, T>) -> Option<T> {
    match payload {
        PayloadData::Text(lines) => Some(lines),
        _ => None,
    }
}

/// Whether the picture of a payload, where it has one, can be placed.
pub open spec fn drawable<'a, T>(payload: PayloadData<'a, T>) -> bool {
    payload matches PayloadData::Image(x, y, image) ==> image_fits(x as int, y as int, image)
}

/// The state of a run.
pub struct SessionView<'a> {
    /// The wiring of the control lines.
    pub mapping: PinMapping,
    /// What is shown.
    pub content: PayloadData<'a, ()>,
    /// The index in the schedule of the action that is due.
    pub step: int,
    /// The error the run ended with, if it failed.
    pub failure: Option<ErrorView>,
    /// The frame as composed so far.
    pub frame: Seq<u8>,
    /// The number of lines of text reported so far.
    pub lines: int,
}

/// The state in which a run starts: the first step is due, and the frame is
/// white.
pub open spec fn start<'a>(content: PayloadData<'a, ()>, mapping: PinMapping) -> SessionView<'a> {
    SessionView { mapping, content, step: 0, failure: None, frame: blank_frame(), lines: 0 }
}

/// Whether the run is over, for better or worse.
pub open spec fn halted(s: SessionView) -> bool {
    s.failure is Some || s.step >= STEPS
}

/// The action that is due.
pub open spec fn action_of(s: SessionView) -> Action {
    if halted(s) || s.step < 0 {
        Action::Halt
    } else {
        schedule(s.mapping)[s.step]
    }
}

/// Whether an event answers the action that is due. A hardware action is
/// answered by `Done` or `Failed`; the reading of a line by a line, as long
/// as its row and columns can be counted, or by the end of the input.
pub open spec fn accepts(s: SessionView, e: EventView) -> bool {
    !halted(s) && match e {
        EventView::Done => s.step != STEP_COMPOSE,
        EventView::Failed(_, _) => s.step != STEP_COMPOSE,
        EventView::Line(line) => s.step == STEP_COMPOSE && s.lines < MAX_LINES && line_fits(line),
        EventView::EndOfInput => s.step == STEP_COMPOSE,
    }
}

/// The state after the controller was built. For text the lines are read
/// next; a picture is drawn at once, and then, as with nothing to draw, the
/// frame is sent next.
pub open spec fn composed<'a>(s: SessionView<'a>) -> SessionView<'a> {
    match s.content {
        PayloadData::Text(_) => SessionView { step: STEP_COMPOSE as int, ..s },
        PayloadData::Image(x, y, image) => SessionView {
            step: STEP_UPDATE as int,
            frame: with_image(
                s.frame,
                x as int,
                y as int,
                image.data@,
                image.width as int,
                image.height as int,
            ),
            ..s
        },
        PayloadData::Internal => SessionView { step: STEP_UPDATE as int, ..s },
    }
}

/// The state after an event. An event that does not answer the action that
/// is due changes nothing. A failure ends the run. A line is drawn where it
/// was decoded, and counted either way.
pub open spec fn next<'a>(s: SessionView<'a>, e: EventView) -> SessionView<'a> {
    if !accepts(s, e) {
        s
    } else {
        match e {
            EventView::Done => if s.step == STEP_CONSTRUCT {
                composed(s)
            } else {
                SessionView { step: s.step + 1, ..s }
            },
            EventView::Failed(kind, message) => SessionView {
                failure: Some(error_for(s.step, kind, message)),
                ..s
            },
            EventView::Line(Some(text)) => SessionView {
                frame: with_line(s.frame, s.lines, text),
                lines: s.lines + 1,
                ..s
            },
            EventView::Line(None) => SessionView { lines: s.lines + 1, ..s },
            EventView::EndOfInput => SessionView { step: STEP_UPDATE as int, ..s },
        }
    }
}

/// The state after a sequence of events.
pub open spec fn run<'a>(s: SessionView<'a>, events: Seq<EventView>) -> SessionView<'a>
    decreases events.len(),
{
    if events.len() == 0 {
        s
    } else {
        next(run(s, events.drop_last()), events.last())
    }
}

/// Whether a state is one that a run can be in.
pub open spec fn valid(s: SessionView) -> bool {
    &&& 0 <= s.step <= STEPS
    &&& 0 <= s.lines <= MAX_LINES
    &&& s.frame.len() == FRAME_BYTES
    &&& drawable(s.content)
}

/// A run of the panel.
pub struct Session<'a> {
    mapping: PinMapping,
    content: PayloadData<'a, ()>,
    step: u8,
    failure: Option<NeoError>,
    canvas: Canvas,
    lines: u32,
}

impl<'a> View for Session<'a> {
    type V = SessionView<'a>;

    closed spec fn view(&self) -> SessionView<'a> {
        SessionView {
            mapping: self.mapping,
            content: self.content,
            step: self.step as int,
            failure: match self.failure {
                Some(e) => Some(e@),
                None => None,
            },
            frame: self.canvas@,
            lines: self.lines as int,
        }
    }
}

/// The action at a step of the schedule.
fn action_at(mapping: &PinMapping, step: u8) -> (action: Action)
    requires
        step < STEPS,
    ensures
        action == schedule(*mapping)[step as int],
{
    if step == 0 {
        Action::Export(mapping.cs)
    } else if step == 1 {
        Action::OutputLow(mapping.cs)
    } else if step == 2 {
        Action::Export(mapping.rst)
    } else if step == 3 {
        Action::OutputLow(mapping.rst)
    } else if step == 4 {
        Action::Drive(mapping.rst, Level::Low)
    } else if step == 5 {
        Action::Drive(mapping.rst, Level::High)
    } else if step == 6 {
        Action::Export(mapping.busy)
    } else if step == 7 {
        Action::OutputLow(mapping.busy)
    } else if step == 8 {
        Action::Export(mapping.dc)
    } else if step == 9 {
        Action::OutputLow(mapping.dc)
    } else if step == STEP_OPEN_SPI {
        Action::OpenSpi
    } else if step == STEP_CONFIGURE_SPI {
        Action::ConfigureSpi(SpiSettings { bits_per_word: 8, max_speed_hz: 1_000_000, mode: 0 })
    } else if step == STEP_CONSTRUCT {
        Action::Construct(*mapping)
    } else if step == STEP_COMPOSE {
        Action::ReadLine
    } else if step == STEP_UPDATE {
        Action::UpdateFrame
    } else {
        Action::DisplayFrame
    }
}

/// The error that a failure at a step ends the run with.
fn error_at(step: u8, fault: Fault) -> (error: NeoError)
    ensures
        error@ == error_for(step as int, fault.kind, fault.message@),
{
    if step < STEP_OPEN_SPI {
        match fault.kind {
            FaultKind::Io => NeoError::IoError(fault.message),
            FaultKind::Unexpected => NeoError::UnexpectedResponse,
            FaultKind::Other => NeoError::Suberror(fault.message),
        }
    } else if step < STEP_CONSTRUCT {
        NeoError::IoError(fault.message)
    } else {
        NeoError::UnexpectedResponse
    }
}

/// Tells whether the picture of a payload, where it has one, can be placed.
pub fn is_drawable<'a, T>(payload: &PayloadData<'a, T>) -> (yes: bool)
    ensures
        yes == drawable(*payload),
{
    match payload {
        PayloadData::Image(x, y, image) => Canvas::fits(*x, *y, image),
        _ => true,
    }
}

impl<'a> Session<'a> {
    /// Whether the session is in a state that a run can be in. Every session
    /// made and changed by the functions below is.
    pub open spec fn wf(&self) -> bool {
        valid(self@)
    }

    /// Starts a run that shows `payload` on a panel wired by `mapping`. The
    /// source of lines of a text payload is handed back: the driver reads
    /// from it when a line is asked for.
    pub fn new<T>(payload: PayloadData<'a, T>, mapping: PinMapping) -> (made: (Session<'a>, Option<T>))
        requires
            drawable(payload),
        ensures
            made.0.wf(),
            made.0@ == start(content_of(payload), mapping),
            made.1 == source_of(payload),
    {
        let canvas = Canvas::new();
        match payload {
            PayloadData::Text(lines) => (
                Session {
                    mapping,
                    content: PayloadData::Text(()),
                    step: 0,
                    failure: None,
                    canvas,
                    lines: 0,
                },
                Some(lines),
            ),
            PayloadData::Image(x, y, image) => (
                Session {
                    mapping,
                    content: PayloadData::Image(x, y, image),
                    step: 0,
                    failure: None,
                    canvas,
                    lines: 0,
                },
                None,
            ),
            PayloadData::Internal => (
                Session {
                    mapping,
                    content: PayloadData::Internal,
                    step: 0,
                    failure: None,
                    canvas,
                    lines: 0,
                },
                None,
            ),
        }
    }

    /// The action that is due.
    pub fn action(&self) -> (action: Action)
        requires
            self.wf(),
        ensures
            action == action_of(self@),
    {
        if self.failure.is_some() || self.step >= STEPS {
            Action::Halt
        } else {
            action_at(&self.mapping, self.step)
        }
    }

    /// Tells whether an event answers the action that is due.
    pub fn accepts(&self, event: &Event) -> (yes: bool)
        requires
            self.wf(),
        ensures
            yes == accepts(self@, event@),
    {
        if self.failure.is_some() || self.step >= STEPS {
            return false;
        }
        match event {
            Event::Done => self.step != STEP_COMPOSE,
            Event::Failed(_) => self.step != STEP_COMPOSE,
            Event::Line(Some(text)) => self.step == STEP_COMPOSE && self.lines < MAX_LINES
                && text.as_str().as_bytes().len() <= MAX_LINE_BYTES,
            Event::Line(None) => self.step == STEP_COMPOSE && self.lines < MAX_LINES,
            Event::EndOfInput => self.step == STEP_COMPOSE,
        }
    }

    /// Moves on after the action that was due was performed.
    fn take_done(&mut self)
        requires
            old(self).wf(),
            accepts(old(self)@, EventView::Done),
        ensures
            final(self).wf(),
            final(self)@ == next(old(self)@, EventView::Done),
    {
        if self.step == STEP_CONSTRUCT {
            match self.content {
                PayloadData::Text(_) => {
                    self.step = STEP_COMPOSE;
                },
                PayloadData::Image(x, y, image) => {
                    self.canvas.put_image(x, y, &image);
                    self.step = STEP_UPDATE;
                },
                PayloadData::Internal => {
                    self.step = STEP_UPDATE;
                },
            }
        } else {
            self.step = self.step + 1;
        }
    }

    /// Ends the run with the error that belongs to a failure of the action
    /// that was due.
    fn take_failure(&mut self, fault: Fault)
        requires
            old(self).wf(),
            accepts(old(self)@, EventView::Failed(fault.kind, fault.message@)),
        ensures
            final(self).wf(),
            final(self)@ == next(old(self)@, EventView::Failed(fault.kind, fault.message@)),
    {
        self.failure = Some(error_at(self.step, fault));
    }

    /// Draws a line that was read, where it was decoded, and counts it.
    fn take_line(&mut self, line: Option<String>)
        requires
            old(self).wf(),
            accepts(old(self)@, EventView::Line(line.deep_view())),
        ensures
            final(self).wf(),
            final(self)@ == next(old(self)@, EventView::Line(line.deep_view())),
    {
        match line {
            Some(text) => {
                self.canvas.put_line(self.lines, text.as_str());
            },
            None => {},
        }
        self.lines = self.lines + 1;
    }

    /// Takes the driver's report of the action that was due and moves on.
    /// Tells whether the event answered that action; if it did not, nothing
    /// has changed.
    pub fn advance(&mut self, event: Event) -> (taken: bool)
        requires
            old(self).wf(),
        ensures
            final(self).wf(),
            taken == accepts(old(self)@, event@),
            final(self)@ == next(old(self)@, event@),
    {
        if !self.accepts(&event) {
            return false;
        }
        match event {
            Event::Done => {
                self.take_done();
            },
            Event::Failed(fault) => {
                self.take_failure(fault);
            },
            Event::Line(line) => {
                self.take_line(line);
            },
            Event::EndOfInput => {
                self.step = STEP_UPDATE;
            },
        }
        true
    }

    /// The bytes of the frame, as they are sent to the panel.
    pub fn frame(&self) -> (bytes: &Vec<u8>)
        requires
            self.wf(),
        ensures
            bytes@ == self@.frame,
            bytes@.len() == FRAME_BYTES,
    {
        self.canvas.bytes()
    }

    /// How the run ended: `None` while it is not over, `Ok` after the panel
    /// was refreshed, and the error after a failure.
    pub fn result(self) -> (outcome: Option<Result<(), NeoError>>)
        requires
            self.wf(),
        ensures
            outcome is Some <==> halted(self@),
            outcome matches Some(Ok(_)) ==> self@.failure is None,
            outcome matches Some(Err(e)) ==> self@.failure == Some(e@),
    {
        match self.failure {
            Some(e) => Some(Err(e)),
            None => if self.step >= STEPS {
                Some(Ok(()))
            } else {
                None
            },
        }
    }
}

} // verus!
