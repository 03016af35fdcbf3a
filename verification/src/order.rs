//! The order of the actions in every run, whatever the driver reports.

use vstd::prelude::*;
use crate::canvas::blank_frame;
use crate::error::ErrorView;
use crate::payload::PayloadData;
use crate::pins::PinMapping;
use crate::session::action_of;
use crate::session::halted;
use crate::session::next;
use crate::session::run;
use crate::session::schedule;
use crate::session::start;
use crate::session::Action;
use crate::session::EventView;
use crate::session::Level;
use crate::session::SessionView;
use crate::session::STEPS;
use crate::session::STEP_CONFIGURE_SPI;
use crate::session::STEP_CONSTRUCT;
use crate::trace::line_touched;

verus! {

/// The state of a run when the first `i` of its events have been reported.
pub open spec fn state_at<'a>(s: SessionView<'a>, events: Seq<EventView>, i: int) -> SessionView<'a> {
    run(s, events.take(i))
}

/// The action that is asked for when the first `i` events of a run have
/// been reported.
pub open spec fn asked_at(s: SessionView, events: Seq<EventView>, i: int) -> Action {
    action_of(state_at(s, events, i))
}

/// One event never takes a run back, never changes its wiring, and takes it
/// at most one step on as long as the controller is not built. A run that has
/// failed does not move.
pub proof fn lemma_next_moves_on(s: SessionView, e: EventView)
    ensures
        next(s, e).mapping == s.mapping,
        s.step <= next(s, e).step,
        s.step < STEP_CONSTRUCT ==> next(s, e).step <= s.step + 1,
        s.failure is Some ==> next(s, e) == s,
        s.step < next(s, e).step ==> s.failure is None && next(s, e).failure is None,
{
}

/// The state after one more event.
pub proof fn lemma_state_after(s: SessionView, events: Seq<EventView>, i: int)
    requires
        0 <= i < events.len(),
    ensures
        state_at(s, events, i + 1) == next(state_at(s, events, i), events[i]),
{
    assert(events.take(i + 1).drop_last() =~= events.take(i));
}

/// A run never goes back to an earlier step and keeps its wiring, and once
/// it has failed it stays as it is.
pub proof fn lemma_steps_never_go_back(s: SessionView, events: Seq<EventView>, i: int, j: int)
    requires
        0 <= i <= j <= events.len(),
    ensures
        state_at(s, events, j).mapping == state_at(s, events, i).mapping,
        state_at(s, events, i).step <= state_at(s, events, j).step,
        state_at(s, events, i).failure is Some ==> state_at(s, events, j) == state_at(s, events, i),
    decreases j - i,
{
    if i < j {
        lemma_steps_never_go_back(s, events, i, j - 1);
        lemma_state_after(s, events, j - 1);
        lemma_next_moves_on(state_at(s, events, j - 1), events[j - 1]);
    }
}

/// Every step up to the building of the controller that a run has passed or
/// reached was due at some point of the run.
pub proof fn lemma_step_was_due(s: SessionView, events: Seq<EventView>, j: int, k: int) -> (i: int)
    requires
        0 <= j <= events.len(),
        s.step <= k <= state_at(s, events, j).step,
        k <= STEP_CONSTRUCT,
    ensures
        0 <= i <= j,
        state_at(s, events, i).step == k,
    decreases j,
{
    if state_at(s, events, j).step == k {
        j
    } else {
        assert(events.take(0) =~= Seq::<EventView>::empty());
        assert(j > 0);
        lemma_state_after(s, events, j - 1);
        lemma_next_moves_on(state_at(s, events, j - 1), events[j - 1]);
        lemma_step_was_due(s, events, j - 1, k)
    }
}

/// Whatever is reported, a run touches no GPIO line but the four of its
/// wiring.
pub proof fn law_every_run_touches_only_the_four_lines(
    content: PayloadData<()>,
    mapping: PinMapping,
    events: Seq<EventView>,
    i: int,
)
    requires
        0 <= i <= events.len(),
    ensures
        line_touched(asked_at(start(content, mapping), events, i)) matches Some(n) ==> mapping.has(n),
{
    let s = start(content, mapping);
    assert(events.take(0) =~= Seq::<EventView>::empty());
    lemma_steps_never_go_back(s, events, 0, i);
}

/// The step that is due when a first action of the bring-up is asked for.
proof fn lemma_due_before_construction(
    content: PayloadData<()>,
    mapping: PinMapping,
    events: Seq<EventView>,
    c: int,
    k: int,
) -> (i: int)
    requires
        0 <= c <= events.len(),
        asked_at(start(content, mapping), events, c) is Construct,
        0 <= k < STEP_CONSTRUCT,
    ensures
        0 <= i < c,
        state_at(start(content, mapping), events, i).step == k,
        asked_at(start(content, mapping), events, i) == schedule(mapping)[k],
{
    let s = start(content, mapping);
    let built = state_at(s, events, c);
    assert(events.take(0) =~= Seq::<EventView>::empty());
    lemma_steps_never_go_back(s, events, 0, c);
    assert(!halted(built) && 0 <= built.step < STEPS);
    assert(built.step == STEP_CONSTRUCT);
    let i = lemma_step_was_due(s, events, c, k);
    lemma_steps_never_go_back(s, events, 0, i);
    lemma_steps_never_go_back(s, events, i, c);
    i
}

/// Whatever is reported, when a run asks for the controller to be built it
/// has asked before, in this order, for the reset line to be driven low and
/// to be driven high.
pub proof fn law_every_run_pulses_reset_before_construction(
    content: PayloadData<()>,
    mapping: PinMapping,
    events: Seq<EventView>,
    c: int,
)
    requires
        0 <= c <= events.len(),
        asked_at(start(content, mapping), events, c) is Construct,
    ensures
        exists|low: int, high: int|
            0 <= low < high < c && #[trigger] asked_at(start(content, mapping), events, low)
                == Action::Drive(mapping.rst, Level::Low) && #[trigger] asked_at(
                start(content, mapping),
                events,
                high,
            ) == Action::Drive(mapping.rst, Level::High),
{
    let s = start(content, mapping);
    let low = lemma_due_before_construction(content, mapping, events, c, 4);
    let high = lemma_due_before_construction(content, mapping, events, c, 5);
    if high <= low {
        lemma_steps_never_go_back(s, events, high, low);
    }
    assert(asked_at(s, events, low) == Action::Drive(mapping.rst, Level::Low));
    assert(asked_at(s, events, high) == Action::Drive(mapping.rst, Level::High));
}

/// Whatever is reported, when a run asks for the controller to be built it
/// has asked before, for each of the four lines of its wiring, to claim the
/// line and after that to make it an output.
pub proof fn law_every_run_claims_lines_before_direction(
    content: PayloadData<()>,
    mapping: PinMapping,
    events: Seq<EventView>,
    c: int,
    n: u64,
)
    requires
        0 <= c <= events.len(),
        asked_at(start(content, mapping), events, c) is Construct,
        mapping.has(n),
    ensures
        exists|e: int, d: int|
            0 <= e < d < c && #[trigger] asked_at(start(content, mapping), events, e)
                == Action::Export(n) && #[trigger] asked_at(start(content, mapping), events, d)
                == Action::OutputLow(n),
{
    let s = start(content, mapping);
    let k: int = if n == mapping.cs {
        0
    } else if n == mapping.rst {
        2
    } else if n == mapping.busy {
        6
    } else {
        8
    };
    let e = lemma_due_before_construction(content, mapping, events, c, k);
    let d = lemma_due_before_construction(content, mapping, events, c, k + 1);
    if d <= e {
        lemma_steps_never_go_back(s, events, d, e);
    }
    assert(asked_at(s, events, e) == Action::Export(n));
    assert(asked_at(s, events, d) == Action::OutputLow(n));
}

/// Whatever is reported before and after, when the configuration of the
/// serial bus fails the run ends there with an i/o error that carries the
/// failure's message: no action is asked for any more, so the controller is
/// not built and no frame is sent or shown.
pub proof fn law_every_run_ends_at_bus_configuration_failure(
    content: PayloadData<()>,
    mapping: PinMapping,
    events: Seq<EventView>,
    p: int,
    i: int,
)
    requires
        0 <= p < i <= events.len(),
        asked_at(start(content, mapping), events, p) is ConfigureSpi,
        events[p] is Failed,
    ensures
        asked_at(start(content, mapping), events, i) == Action::Halt,
        state_at(start(content, mapping), events, i).failure == Some(
            ErrorView::IoError(events[p]->Failed_1),
        ),
        state_at(start(content, mapping), events, i).frame == blank_frame(),
{
    let s = start(content, mapping);
    assert(events.take(0) =~= Seq::<EventView>::empty());
    lemma_steps_never_go_back(s, events, 0, p);
    let due = state_at(s, events, p);
    assert(!halted(due) && 0 <= due.step < STEPS);
    assert(due.step == STEP_CONFIGURE_SPI);
    lemma_state_after(s, events, p);
    lemma_steps_never_go_back(s, events, p + 1, i);
    lemma_white_until_construction(s, events, p);
}

/// Until the controller is built the frame of a run stays as it was.
pub proof fn lemma_white_until_construction(s: SessionView, events: Seq<EventView>, i: int)
    requires
        0 <= i <= events.len(),
        state_at(s, events, i).step <= STEP_CONSTRUCT,
    ensures
        state_at(s, events, i).frame == s.frame,
    decreases i,
{
    if i == 0 {
        assert(events.take(0) =~= Seq::<EventView>::empty());
    } else {
        lemma_state_after(s, events, i - 1);
        lemma_next_moves_on(state_at(s, events, i - 1), events[i - 1]);
        lemma_white_until_construction(s, events, i - 1);
    }
}

} // verus!
