//! The session controller: the order in which a session starts its worker,
//! takes the terminal, draws, waits and gives the terminal back.
//!
//! The controller does no input or output itself. It names the action that is
//! due, is told how the action went, and moves on: whoever runs it performs
//! the actions.

use crate::ip_fetcher::FetchState;
use crate::render::{render, screen_of};
use crate::screen::Screen;
use crate::session::{Delivery, DeliveryView, SessionState, SessionStateView};
use vstd::prelude::*;

verus! {

/// The exit code of a session that ran to its end without an error of the terminal.
pub const EXIT_OK: i32 = 0;

/// The exit code of a session in which an action on the terminal failed.
pub const EXIT_FAILED: i32 = 1;

/// Where the controller stands: each phase is named after the action that is
/// due in it.
#[derive(Clone, Copy, Debug, PartialEq, Eq, Structural)]
pub enum Phase {
    /// The worker is to be started.
    Launching,
    /// The terminal is to be taken.
    Acquiring,
    /// The first frame is to be drawn, with the lookup pending.
    DrawingPending,
    /// The worker's delivery is awaited.
    Waiting,
    /// The second frame is to be drawn, with the lookup resolved.
    DrawingResolved,
    /// A key press is awaited.
    Listening,
    /// The terminal is to be given back.
    Releasing,
    /// The session is over.
    Finished,
}

/// What the controller asks for.
#[derive(Clone, Copy, Debug, PartialEq, Eq, Structural)]
pub enum Action {
    /// Start the fetch worker, concurrently.
    StartWorker,
    /// Take the terminal: raw mode, the alternate screen.
    AcquireTerminal,
    /// Draw the controller's frame.
    Draw,
    /// Wait for the worker's delivery.
    AwaitWorker,
    /// Wait for the next input event.
    ReadInput,
    /// Give the terminal back: normal mode, the main screen, the cursor shown.
    ReleaseTerminal,
    /// Leave with this exit code.
    Exit { code: i32 },
}

/// What the controller is told of the action that was due.
#[derive(Debug, PartialEq, Eq)]
pub enum Event {
    /// The action was performed.
    Done,
    /// The action failed.
    Failed,
    /// The wait for the worker ended with this delivery.
    Delivered(Delivery),
    /// The input event was a key press.
    Key,
    /// The input event was not a key press.
    OtherInput,
}

/// What an [`Event`] holds.
pub enum EventView {
    Done,
    Failed,
    Delivered(DeliveryView),
    Key,
    OtherInput,
}

impl View for Event {
    type V = EventView;

    open spec fn view(&self) -> EventView {
        match *self {
            Event::Done => EventView::Done,
            Event::Failed => EventView::Failed,
            Event::Delivered(delivery) => EventView::Delivered(delivery@),
            Event::Key => EventView::Key,
            Event::OtherInput => EventView::OtherInput,
        }
    }
}

/// The controller of one session.
pub struct Controller {
    phase: Phase,
    state: SessionState,
    failed: bool,
}

/// What a [`Controller`] holds: its phase, the state of the session, and
/// whether an action on the terminal has failed.
pub struct ControllerView {
    pub phase: Phase,
    pub state: SessionStateView,
    pub failed: bool,
}

impl View for Controller {
    type V = ControllerView;

    closed spec fn view(&self) -> ControllerView {
        ControllerView { phase: self.phase, state: self.state@, failed: self.failed }
    }
}

impl Phase {
    /// The place of the phase in the course of a session.
    pub open spec fn rank(self) -> nat {
        match self {
            Phase::Launching => 0,
            Phase::Acquiring => 1,
            Phase::DrawingPending => 2,
            Phase::Waiting => 3,
            Phase::DrawingResolved => 4,
            Phase::Listening => 5,
            Phase::Releasing => 6,
            Phase::Finished => 7,
        }
    }

    /// Whether the terminal is held, or may be held in part, in this phase.
    pub open spec fn holds_terminal(self) -> bool {
        Phase::Acquiring.rank() <= self.rank() <= Phase::Releasing.rank()
    }
}

impl ControllerView {
    /// The controller of a session that has just begun.
    pub open spec fn initial() -> ControllerView {
        ControllerView {
            phase: Phase::Launching,
            state: SessionStateView::Pending,
            failed: false,
        }
    }

    /// The action that is due.
    pub open spec fn action(self) -> Action {
        match self.phase {
            Phase::Launching => Action::StartWorker,
            Phase::Acquiring => Action::AcquireTerminal,
            Phase::DrawingPending => Action::Draw,
            Phase::Waiting => Action::AwaitWorker,
            Phase::DrawingResolved => Action::Draw,
            Phase::Listening => Action::ReadInput,
            Phase::Releasing => Action::ReleaseTerminal,
            Phase::Finished => Action::Exit {
                code: if self.failed {
                    EXIT_FAILED
                } else {
                    EXIT_OK
                },
            },
        }
    }

    /// The controller after a failure on the terminal: the failure is kept,
    /// and the terminal is given back next.
    pub open spec fn abandon(self) -> ControllerView {
        ControllerView { phase: Phase::Releasing, failed: true, ..self }
    }

    /// The controller in another phase.
    pub open spec fn at(self, phase: Phase) -> ControllerView {
        ControllerView { phase, ..self }
    }

    /// The controller after an event.
    ///
    /// Each action that was performed leads to the next phase. A failure to
    /// start the worker ends the session; a failure to take the terminal, to
    /// draw or to read input leads to giving the terminal back; after that
    /// the session ends, failed if any action failed. The delivery resolves
    /// the state of the session. Of the input events only a key press leads
    /// on. An event that does not answer the action due changes nothing.
    pub open spec fn step(self, event: EventView) -> ControllerView {
        match (self.phase, event) {
            (Phase::Launching, EventView::Done) => self.at(Phase::Acquiring),
            (Phase::Launching, EventView::Failed) => ControllerView {
                phase: Phase::Finished,
                failed: true,
                ..self
            },
            (Phase::Acquiring, EventView::Done) => self.at(Phase::DrawingPending),
            (Phase::Acquiring, EventView::Failed) => self.abandon(),
            (Phase::DrawingPending, EventView::Done) => self.at(Phase::Waiting),
            (Phase::DrawingPending, EventView::Failed) => self.abandon(),
            (Phase::Waiting, EventView::Delivered(delivery)) => ControllerView {
                phase: Phase::DrawingResolved,
                state: self.state.resolve(delivery),
                ..self
            },
            (Phase::DrawingResolved, EventView::Done) => self.at(Phase::Listening),
            (Phase::DrawingResolved, EventView::Failed) => self.abandon(),
            (Phase::Listening, EventView::Key) => self.at(Phase::Releasing),
            (Phase::Listening, EventView::Failed) => self.abandon(),
            (Phase::Releasing, EventView::Done) => self.at(Phase::Finished),
            (Phase::Releasing, EventView::Failed) => ControllerView {
                phase: Phase::Finished,
                failed: true,
                ..self
            },
            _ => self,
        }
    }

    /// The controller after a run of events.
    pub open spec fn run(self, events: Seq<EventView>) -> ControllerView
        decreases events.len(),
    {
        if events.len() == 0 {
            self
        } else {
            self.run(events.drop_last()).step(events.last())
        }
    }

    /// Whether phase and state agree: the lookup is pending until the
    /// delivery has been taken, and resolved while the second frame is drawn
    /// and a key press awaited.
    pub open spec fn coherent(self) -> bool {
        &&& self.phase.rank() <= Phase::Waiting.rank() ==> self.state is Pending
        &&& self.phase == Phase::DrawingResolved || self.phase == Phase::Listening
            ==> !(self.state is Pending)
    }
}

impl Controller {
    /// The controller of a session that has just begun: the lookup is
    /// pending and the worker is to be started.
    pub fn new() -> (controller: Controller)
        ensures
            controller@ == ControllerView::initial(),
    {
        Controller { phase: Phase::Launching, state: SessionState::Pending, failed: false }
    }

    /// Where the controller stands.
    pub fn phase(&self) -> (phase: Phase)
        ensures
            phase == self@.phase,
    {
        self.phase
    }

    /// The state of the session.
    pub fn state(&self) -> (state: &SessionState)
        ensures
            state@ == self@.state,
    {
        &self.state
    }

    /// Whether an action on the terminal has failed.
    pub fn has_failed(&self) -> (failed: bool)
        ensures
            failed == self@.failed,
    {
        self.failed
    }

    /// The action that is due.
    pub fn action(&self) -> (action: Action)
        ensures
            action == self@.action(),
    {
        match self.phase {
            Phase::Launching => Action::StartWorker,
            Phase::Acquiring => Action::AcquireTerminal,
            Phase::DrawingPending => Action::Draw,
            Phase::Waiting => Action::AwaitWorker,
            Phase::DrawingResolved => Action::Draw,
            Phase::Listening => Action::ReadInput,
            Phase::Releasing => Action::ReleaseTerminal,
            Phase::Finished => if self.failed {
                Action::Exit { code: EXIT_FAILED }
            } else {
                Action::Exit { code: EXIT_OK }
            },
        }
    }

    /// The frame to draw: the screen of the session's state.
    pub fn frame(&self) -> (screen: Screen)
        ensures
            screen@ == screen_of(self@.state),
    {
        render(&self.state)
    }

    /// Tells the controller how the action due went; returns the controller
    /// as it then stands.
    pub fn advance(self, event: Event) -> (next: Controller)
        ensures
            next@ == self@.step(event@),
    {
        match self.phase {
            Phase::Launching => match event {
                Event::Done => Controller { phase: Phase::Acquiring, ..self },
                Event::Failed => Controller { phase: Phase::Finished, failed: true, ..self },
                _ => self,
            },
            Phase::Acquiring => match event {
                Event::Done => Controller { phase: Phase::DrawingPending, ..self },
                Event::Failed => Controller { phase: Phase::Releasing, failed: true, ..self },
                _ => self,
            },
            Phase::DrawingPending => match event {
                Event::Done => Controller { phase: Phase::Waiting, ..self },
                Event::Failed => Controller { phase: Phase::Releasing, failed: true, ..self },
                _ => self,
            },
            Phase::Waiting => match event {
                Event::Delivered(delivery) => Controller {
                    phase: Phase::DrawingResolved,
                    state: self.state.resolve(delivery),
                    failed: self.failed,
                },
                _ => self,
            },
            Phase::DrawingResolved => match event {
                Event::Done => Controller { phase: Phase::Listening, ..self },
                Event::Failed => Controller { phase: Phase::Releasing, failed: true, ..self },
                _ => self,
            },
            Phase::Listening => match event {
                Event::Key => Controller { phase: Phase::Releasing, ..self },
                Event::Failed => Controller { phase: Phase::Releasing, failed: true, ..self },
                _ => self,
            },
            Phase::Releasing => match event {
                Event::Done => Controller { phase: Phase::Finished, ..self },
                Event::Failed => Controller { phase: Phase::Finished, failed: true, ..self },
                _ => self,
            },
            Phase::Finished => self,
        }
    }
}

impl EventView {
    /// Whether the event tells how an action on the worker or the terminal
    /// went: that it was performed, or that it failed.
    pub open spec fn is_answer(self) -> bool {
        self is Done || self is Failed
    }
}

/// How many times `action` was attempted in a run of events from `start`: the
/// events that tell how it went while it was due.
pub open spec fn attempts(start: ControllerView, events: Seq<EventView>, action: Action) -> nat
    decreases events.len(),
{
    if events.len() == 0 {
        0
    } else {
        let earlier = attempts(start, events.drop_last(), action);
        if start.run(events.drop_last()).action() == action && events.last().is_answer() {
            earlier + 1
        } else {
            earlier
        }
    }
}

/// Whether none of `events` reports a failure.
pub open spec fn no_failure(events: Seq<EventView>) -> bool {
    forall|i: int| 0 <= i < events.len() ==> !(#[trigger] events[i] is Failed)
}

/// The state of a session is resolved once: a pending lookup changes only by
/// the delivery that is awaited, and a resolved one never changes again.
pub proof fn lemma_resolution_is_final(controller: ControllerView, event: EventView)
    ensures
        !(controller.state is Pending) ==> controller.step(event).state == controller.state,
        controller.step(event).state != controller.state ==> controller.phase == Phase::Waiting
            && event is Delivered && !(controller.step(event).state is Pending),
{
}

/// No event takes the controller back to an earlier phase, and none but a
/// failure sets the mark of failure, which nothing clears.
pub proof fn lemma_session_only_advances(controller: ControllerView, event: EventView)
    ensures
        controller.phase.rank() <= controller.step(event).phase.rank(),
        controller.failed ==> controller.step(event).failed,
        controller.step(event).failed && !controller.failed ==> event is Failed,
{
}

/// A session that has begun to take the terminal ends only by way of giving
/// it back: the one step into the last phase from a phase in which the
/// terminal may be held is the one that follows the release.
pub proof fn lemma_terminal_released_before_exit(controller: ControllerView, event: EventView)
    requires
        controller.phase.holds_terminal(),
        controller.step(event).phase == Phase::Finished,
    ensures
        controller.action() == Action::ReleaseTerminal,
        event is Done || event is Failed,
{
}

/// The worker's failure is no failure of the session: whatever is delivered,
/// the session goes on to draw the resolved state and its mark of failure
/// stays as it was.
pub proof fn lemma_delivery_never_fails_session(controller: ControllerView, delivery: DeliveryView)
    requires
        controller.phase == Phase::Waiting,
    ensures
        controller.step(EventView::Delivered(delivery)).failed == controller.failed,
        controller.step(EventView::Delivered(delivery)).action() == Action::Draw,
        controller.step(EventView::Delivered(delivery)).state == controller.state.resolve(delivery),
{
}

/// Whatever a session is told from its beginning on, and in whatever order:
/// phase and state agree. The worker is started and the terminal taken no
/// more than once each. No more than two frames are drawn: none before the
/// terminal is held, one of the pending lookup before the delivery, the
/// second of the resolved lookup before a key press is awaited. The terminal
/// is not given back before its time, and once a session has ended it has
/// been given back as often as it was taken. The session is marked failed
/// only if an event reported a failure.
pub proof fn lemma_course_of_session(events: Seq<EventView>)
    ensures
        ({
            let start = ControllerView::initial();
            let end = start.run(events);
            let launched = attempts(start, events, Action::StartWorker);
            let taken = attempts(start, events, Action::AcquireTerminal);
            let drawn = attempts(start, events, Action::Draw);
            let released = attempts(start, events, Action::ReleaseTerminal);
            &&& end.coherent()
            &&& launched == if end.phase == Phase::Launching {
                0nat
            } else {
                1nat
            }
            &&& taken <= 1
            &&& end.phase.rank() <= Phase::Acquiring.rank() ==> taken == 0
            &&& Phase::DrawingPending.rank() <= end.phase.rank() <= Phase::Releasing.rank()
                ==> taken == 1
            &&& drawn <= 2
            &&& end.phase.rank() <= Phase::DrawingPending.rank() ==> drawn == 0
            &&& end.phase == Phase::Waiting || end.phase == Phase::DrawingResolved ==> drawn == 1
            &&& end.phase == Phase::Listening ==> drawn == 2
            &&& end.phase.rank() >= Phase::Releasing.rank() && !end.failed ==> drawn == 2
            &&& end.phase.rank() <= Phase::Releasing.rank() ==> released == 0
            &&& end.phase == Phase::Finished ==> released == taken
            &&& end.phase == Phase::Finished && !end.failed ==> taken == 1
            &&& end.failed ==> !no_failure(events)
            &&& end.failed ==> end.phase.rank() >= Phase::Releasing.rank()
            &&& end.phase.rank() >= Phase::Releasing.rank() && !end.failed ==> !(end.state
                is Pending)
        }),
    decreases events.len(),
{
    if events.len() > 0 {
        lemma_course_of_session(events.drop_last());
        let start = ControllerView::initial();
        let before = start.run(events.drop_last());
        if before.failed {
            let i = choose|i: int|
                0 <= i < events.drop_last().len() && (#[trigger] events.drop_last()[i] is Failed);
            assert(events[i] is Failed);
        }
        if start.run(events).failed && !before.failed {
            assert(events[events.len() - 1] is Failed);
        }
    }
}

/// A session that is told of no failure and has come to its end has started
/// its worker, taken the terminal once, drawn two frames, given the terminal
/// back once, resolved its lookup, and leaves with the exit code of success,
/// whether the lookup succeeded or failed.
pub proof fn lemma_undisturbed_session_exits_ok(events: Seq<EventView>)
    requires
        no_failure(events),
        ControllerView::initial().run(events).phase == Phase::Finished,
    ensures
        ControllerView::initial().run(events).action() == (Action::Exit { code: EXIT_OK }),
        attempts(ControllerView::initial(), events, Action::StartWorker) == 1,
        attempts(ControllerView::initial(), events, Action::AcquireTerminal) == 1,
        attempts(ControllerView::initial(), events, Action::Draw) == 2,
        attempts(ControllerView::initial(), events, Action::ReleaseTerminal) == 1,
        !(ControllerView::initial().run(events).state is Pending),
{
    lemma_course_of_session(events);
}

} // verus!
