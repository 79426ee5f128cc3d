//! The fetch worker: one request to the geolocation service, and one report
//! of how it went.
//!
//! The worker does no input or output itself. It is a machine that is told
//! what happened and answers with what to do next: whoever runs it makes the
//! request and sends the report.

use crate::ip_fetcher::{
    judge, report_view, service_prefix, FetchError, IpFetcher, IpFetcherView, Reply, ReplyView,
};
use vstd::prelude::*;

verus! {

/// How far the worker has come.
#[derive(Clone, Copy, Debug, PartialEq, Eq, Structural)]
pub enum WorkerPhase {
    /// Nothing has been asked for yet.
    Ready,
    /// The request is under way.
    Requesting,
    /// The report has been handed out.
    Finished,
}

/// What the worker is told.
#[derive(Debug, PartialEq, Eq)]
pub enum WorkerEvent {
    /// The worker is to begin.
    Start,
    /// The request has come back.
    Replied(Reply),
}

/// What a [`WorkerEvent`] holds.
pub enum WorkerEventView {
    Start,
    Replied(ReplyView),
}

impl View for WorkerEvent {
    type V = WorkerEventView;

    open spec fn view(&self) -> WorkerEventView {
        match *self {
            WorkerEvent::Start => WorkerEventView::Start,
            WorkerEvent::Replied(reply) => WorkerEventView::Replied(reply@),
        }
    }
}

/// What the worker asks for.
#[derive(Debug, PartialEq, Eq)]
pub enum WorkerAction {
    /// Request this address and tell the worker what came back.
    Request(String),
    /// Send this report to the session.
    Send(Result<IpFetcher, FetchError>),
    /// Nothing is due: the event did not concern the worker as it stood.
    Idle,
    /// The worker is done.
    Halt,
}

/// What a [`WorkerAction`] holds.
pub enum WorkerActionView {
    Request(Seq<char>),
    Send(Result<IpFetcherView, FetchError>),
    Idle,
    Halt,
}

impl View for WorkerAction {
    type V = WorkerActionView;

    open spec fn view(&self) -> WorkerActionView {
        match *self {
            WorkerAction::Request(url) => WorkerActionView::Request(url@),
            WorkerAction::Send(report) => WorkerActionView::Send(report_view(report)),
            WorkerAction::Idle => WorkerActionView::Idle,
            WorkerAction::Halt => WorkerActionView::Halt,
        }
    }
}

/// The fetch worker for one target.
pub struct Worker {
    target: String,
    phase: WorkerPhase,
}

/// What a [`Worker`] holds.
pub struct WorkerView {
    pub target: Seq<char>,
    pub phase: WorkerPhase,
}

impl View for Worker {
    type V = WorkerView;

    closed spec fn view(&self) -> WorkerView {
        WorkerView { target: self.target@, phase: self.phase }
    }
}

impl WorkerView {
    /// The worker for `target` before it has begun.
    pub open spec fn initial(target: Seq<char>) -> WorkerView {
        WorkerView { target, phase: WorkerPhase::Ready }
    }

    /// The worker after an event, and what it asks for. A worker that is told
    /// to begin asks for the request; one whose request has come back asks
    /// for its judgement of the reply to be sent, and is finished; a finished
    /// one halts; any other event leaves the worker as it is.
    pub open spec fn step(self, event: WorkerEventView) -> (WorkerView, WorkerActionView) {
        match (self.phase, event) {
            (WorkerPhase::Ready, WorkerEventView::Start) => (
                WorkerView { phase: WorkerPhase::Requesting, ..self },
                WorkerActionView::Request(service_prefix() + self.target),
            ),
            (WorkerPhase::Requesting, WorkerEventView::Replied(reply)) => (
                WorkerView { phase: WorkerPhase::Finished, ..self },
                WorkerActionView::Send(judge(reply)),
            ),
            (WorkerPhase::Finished, _) => (self, WorkerActionView::Halt),
            _ => (self, WorkerActionView::Idle),
        }
    }

    /// The worker after a run of events, and what it asked for in turn.
    pub open spec fn run(self, events: Seq<WorkerEventView>) -> (WorkerView, Seq<WorkerActionView>)
        decreases events.len(),
    {
        if events.len() == 0 {
            (self, Seq::empty())
        } else {
            let (before, asked) = self.run(events.drop_last());
            let (after, action) = before.step(events.last());
            (after, asked.push(action))
        }
    }
}

/// How many of `actions` send a report.
pub open spec fn reports_sent(actions: Seq<WorkerActionView>) -> nat
    decreases actions.len(),
{
    if actions.len() == 0 {
        0
    } else {
        let earlier = reports_sent(actions.drop_last());
        if actions.last() is Send {
            earlier + 1
        } else {
            earlier
        }
    }
}

/// How many of `actions` ask for a request.
pub open spec fn requests_asked(actions: Seq<WorkerActionView>) -> nat
    decreases actions.len(),
{
    if actions.len() == 0 {
        0
    } else {
        let earlier = requests_asked(actions.drop_last());
        if actions.last() is Request {
            earlier + 1
        } else {
            earlier
        }
    }
}

impl Worker {
    /// The worker for `target`, before it has begun.
    pub fn new(target: String) -> (worker: Worker)
        ensures
            worker@ == WorkerView::initial(target@),
    {
        Worker { target, phase: WorkerPhase::Ready }
    }

    /// How far the worker has come.
    pub fn phase(&self) -> (phase: WorkerPhase)
        ensures
            phase == self@.phase,
    {
        self.phase
    }

    /// Tells the worker of an event; returns the worker as it then stands
    /// and what it asks for.
    pub fn step(self, event: WorkerEvent) -> (next: (Worker, WorkerAction))
        ensures
            (next.0@, next.1@) == self@.step(event@),
    {
        match self.phase {
            WorkerPhase::Ready => match event {
                WorkerEvent::Start => {
                    let url = IpFetcher::request_url(&self.target);
                    (
                        Worker { target: self.target, phase: WorkerPhase::Requesting },
                        WorkerAction::Request(url),
                    )
                },
                _ => (self, WorkerAction::Idle),
            },
            WorkerPhase::Requesting => match event {
                WorkerEvent::Replied(reply) => {
                    let report = IpFetcher::fetch(reply);
                    (
                        Worker { target: self.target, phase: WorkerPhase::Finished },
                        WorkerAction::Send(report),
                    )
                },
                _ => (self, WorkerAction::Idle),
            },
            WorkerPhase::Finished => (self, WorkerAction::Halt),
        }
    }
}

/// Whatever a worker is told, and in whatever order: it asks for one
/// request once it has begun and for none before, and it sends one report if
/// it has finished and none if it has not. It never asks twice, and never
/// sends two reports.
pub proof fn lemma_worker_reports_once(target: Seq<char>, events: Seq<WorkerEventView>)
    ensures
        ({
            let (worker, asked) = WorkerView::initial(target).run(events);
            &&& worker.target == target
            &&& asked.len() == events.len()
            &&& requests_asked(asked) == if worker.phase == WorkerPhase::Ready {
                0nat
            } else {
                1nat
            }
            &&& reports_sent(asked) == if worker.phase == WorkerPhase::Finished {
                1nat
            } else {
                0nat
            }
        }),
    decreases events.len(),
{
    if events.len() > 0 {
        lemma_worker_reports_once(target, events.drop_last());
        let (before, asked) = WorkerView::initial(target).run(events.drop_last());
        let (after, action) = before.step(events.last());
        assert(asked.push(action).drop_last() =~= asked);
    }
}

} // verus!
