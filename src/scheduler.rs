//! The poll scheduler: connect, fetch the graph once, then fetch, render,
//! decide and wait until the pipeline finishes, fails or is abandoned. The
//! scheduler only decides; its driver performs each action and reports the
//! outcome as the next event.

use vstd::prelude::*;
use crate::model::{
    all_terminal, covers, is_finished, topology_closed, GraphTopology, StatusSnapshot,
    TopologyView,
};
use crate::render::{all_quotable, dot_text, render, ColorScheme};

verus! {

/// The default wait between two poll cycles, in milliseconds.
pub const POLL_INTERVAL_MS: u64 = 3000;

/// What ended a session in failure.
#[derive(PartialEq, Eq, Structural, Clone, Copy, Debug)]
pub enum FailureKind {
    /// The transport could not be established.
    Connect,
    /// A call failed or returned data that does not fit together.
    Rpc,
    /// The description could not be written or turned into an image.
    Render,
}

/// How a session ended.
#[derive(PartialEq, Eq, Structural, Clone, Copy, Debug)]
pub enum Outcome {
    /// Every node reached a terminal state.
    Finished,
    /// The observer lost interest.
    Cancelled,
    Failed(FailureKind),
}

/// Where the scheduler stands.
#[derive(PartialEq, Eq, Structural, Clone, Copy, Debug)]
pub enum Phase {
    /// Waiting for the transport to connect.
    Connecting,
    /// Connected; waiting for the graph.
    Connected,
    /// Waiting for a status snapshot.
    Fetching,
    /// Waiting for the image of the last description.
    Rendering,
    /// Waiting out the delay between two cycles.
    Sleeping,
    /// The session is over; nothing follows.
    Disconnected(Outcome),
}

/// The connection state shown to the observer.
#[derive(PartialEq, Eq, Structural, Clone, Copy, Debug)]
pub enum ConnectionState {
    Connecting,
    Connected,
    Disconnected,
}

/// What the driver reports back.
pub enum Event {
    ConnectSucceeded,
    ConnectFailed,
    TopologyFetched(GraphTopology),
    SnapshotFetched(StatusSnapshot),
    /// A call failed, or the transport's message loop stopped.
    RpcFailed,
    ImageRendered,
    RenderFailed,
    DelayElapsed,
    /// The observer no longer wants the session.
    Cancelled,
}

/// What the driver is to do next.
#[derive(PartialEq, Eq, Debug)]
pub enum Action {
    FetchTopology,
    FetchStatus,
    /// Turn this description into an image and show it.
    RenderImage(String),
    /// Wait this many milliseconds.
    Sleep(u64),
    /// Release the transport; the session is over.
    Close,
    /// The session is over and holds no transport.
    Stop,
    /// Nothing: the event does not apply where the scheduler stands.
    Idle,
}

pub enum ActionView {
    FetchTopology,
    FetchStatus,
    RenderImage(Seq<char>),
    Sleep(u64),
    Close,
    Stop,
    Idle,
}

impl View for Action {
    type V = ActionView;

    open spec fn view(&self) -> ActionView {
        match self {
            Action::FetchTopology => ActionView::FetchTopology,
            Action::FetchStatus => ActionView::FetchStatus,
            Action::RenderImage(text) => ActionView::RenderImage(text@),
            Action::Sleep(ms) => ActionView::Sleep(*ms),
            Action::Close => ActionView::Close,
            Action::Stop => ActionView::Stop,
            Action::Idle => ActionView::Idle,
        }
    }
}

/// One session's decisions. The graph is kept once fetched; whether the
/// last snapshot was finished is kept until its image is shown.
pub struct PollScheduler {
    phase: Phase,
    topology: GraphTopology,
    finished: bool,
    scheme: ColorScheme,
    interval_ms: u64,
}

pub struct SchedulerView {
    pub phase: Phase,
    pub topology: TopologyView,
    pub finished: bool,
    pub scheme: ColorScheme,
    pub interval_ms: u64,
}

impl View for PollScheduler {
    type V = SchedulerView;

    closed spec fn view(&self) -> SchedulerView {
        SchedulerView {
            phase: self.phase,
            topology: self.topology@,
            finished: self.finished,
            scheme: self.scheme,
            interval_ms: self.interval_ms,
        }
    }
}

pub open spec fn with_phase(s: SchedulerView, phase: Phase) -> SchedulerView {
    SchedulerView { phase, ..s }
}

pub open spec fn ended(s: SchedulerView, outcome: Outcome) -> SchedulerView {
    with_phase(s, Phase::Disconnected(outcome))
}

pub open spec fn connection_of(phase: Phase) -> ConnectionState {
    match phase {
        Phase::Connecting => ConnectionState::Connecting,
        Phase::Disconnected(_) => ConnectionState::Disconnected,
        _ => ConnectionState::Connected,
    }
}

/// The decision on one event: the next state and the action to perform.
pub open spec fn next(s: SchedulerView, e: Event) -> (SchedulerView, ActionView) {
    match s.phase {
        Phase::Disconnected(_) => (s, ActionView::Stop),
        Phase::Connecting => match e {
            Event::ConnectSucceeded => (with_phase(s, Phase::Connected), ActionView::FetchTopology),
            Event::ConnectFailed => (
                ended(s, Outcome::Failed(FailureKind::Connect)),
                ActionView::Stop,
            ),
            Event::Cancelled => (ended(s, Outcome::Cancelled), ActionView::Stop),
            _ => (s, ActionView::Idle),
        },
        _ => match e {
            Event::Cancelled => (ended(s, Outcome::Cancelled), ActionView::Close),
            Event::RpcFailed => (ended(s, Outcome::Failed(FailureKind::Rpc)), ActionView::Close),
            Event::TopologyFetched(t) => if s.phase == Phase::Connected {
                if topology_closed(t@) {
                    (
                        SchedulerView { phase: Phase::Fetching, topology: t@, ..s },
                        ActionView::FetchStatus,
                    )
                } else {
                    (ended(s, Outcome::Failed(FailureKind::Rpc)), ActionView::Close)
                }
            } else {
                (s, ActionView::Idle)
            },
            Event::SnapshotFetched(snap) => if s.phase == Phase::Fetching {
                if !covers(s.topology, snap@) {
                    (ended(s, Outcome::Failed(FailureKind::Rpc)), ActionView::Close)
                } else if !all_quotable(s.topology) {
                    (ended(s, Outcome::Failed(FailureKind::Render)), ActionView::Close)
                } else {
                    (
                        SchedulerView {
                            phase: Phase::Rendering,
                            finished: all_terminal(snap@),
                            ..s
                        },
                        ActionView::RenderImage(dot_text(s.topology, snap@, s.scheme)),
                    )
                }
            } else {
                (s, ActionView::Idle)
            },
            Event::ImageRendered => if s.phase == Phase::Rendering {
                if s.finished {
                    (ended(s, Outcome::Finished), ActionView::Close)
                } else {
                    (with_phase(s, Phase::Sleeping), ActionView::Sleep(s.interval_ms))
                }
            } else {
                (s, ActionView::Idle)
            },
            Event::RenderFailed => if s.phase == Phase::Rendering {
                (ended(s, Outcome::Failed(FailureKind::Render)), ActionView::Close)
            } else {
                (s, ActionView::Idle)
            },
            Event::DelayElapsed => if s.phase == Phase::Sleeping {
                (with_phase(s, Phase::Fetching), ActionView::FetchStatus)
            } else {
                (s, ActionView::Idle)
            },
            _ => (s, ActionView::Idle),
        },
    }
}

/// The actions that a run of events brings, one per event.
pub open spec fn run(s: SchedulerView, events: Seq<Event>) -> Seq<ActionView>
    decreases events.len(),
{
    if events.len() == 0 {
        Seq::empty()
    } else {
        seq![next(s, events[0]).1] + run(next(s, events[0]).0, events.skip(1))
    }
}

impl PollScheduler {
    /// A scheduler that waits for the connection, renders in `scheme` and
    /// waits `interval_ms` between cycles.
    pub fn with_interval(scheme: ColorScheme, interval_ms: u64) -> (r: PollScheduler)
        ensures
            r@.phase == Phase::Connecting,
            r@.topology.nodes.len() == 0,
            r@.topology.edges.len() == 0,
            !r@.finished,
            r@.scheme == scheme,
            r@.interval_ms == interval_ms,
    {
        PollScheduler {
            phase: Phase::Connecting,
            topology: GraphTopology { nodes: Vec::new(), edges: Vec::new() },
            finished: false,
            scheme,
            interval_ms,
        }
    }

    /// A scheduler with the default interval between cycles.
    pub fn new(scheme: ColorScheme) -> (r: PollScheduler)
        ensures
            r@.phase == Phase::Connecting,
            r@.topology.nodes.len() == 0,
            r@.topology.edges.len() == 0,
            !r@.finished,
            r@.scheme == scheme,
            r@.interval_ms == POLL_INTERVAL_MS,
    {
        PollScheduler::with_interval(scheme, POLL_INTERVAL_MS)
    }

    /// Where the scheduler stands.
    pub fn phase(&self) -> (r: Phase)
        ensures
            r == self@.phase,
    {
        self.phase
    }

    /// The connection state to show: connecting until the transport is up,
    /// connected while the session lasts, disconnected once it is over.
    pub fn connection_state(&self) -> (r: ConnectionState)
        ensures
            r == connection_of(self@.phase),
    {
        match self.phase {
            Phase::Connecting => ConnectionState::Connecting,
            Phase::Disconnected(_) => ConnectionState::Disconnected,
            _ => ConnectionState::Connected,
        }
    }

    /// How the session ended, once it has; a finished pipeline is told
    /// apart from a failure and from a cancellation.
    pub fn outcome(&self) -> (r: Option<Outcome>)
        ensures
            r == match self@.phase {
                Phase::Disconnected(o) => Some(o),
                _ => None,
            },
    {
        match self.phase {
            Phase::Disconnected(o) => Some(o),
            _ => None,
        }
    }

    fn end(&mut self, outcome: Outcome, action: Action) -> (r: Action)
        ensures
            final(self)@ == ended(old(self)@, outcome),
            r == action,
    {
        self.phase = Phase::Disconnected(outcome);
        action
    }

    /// Decides on one event: moves to the next state and returns what the
    /// driver is to do.
    pub fn step(&mut self, event: Event) -> (r: Action)
        ensures
            (final(self)@, r@) == next(old(self)@, event),
    {
        match self.phase {
            Phase::Disconnected(_) => {
                return Action::Stop;
            },
            Phase::Connecting => {
                return match event {
                    Event::ConnectSucceeded => {
                        self.phase = Phase::Connected;
                        Action::FetchTopology
                    },
                    Event::ConnectFailed => self.end(
                        Outcome::Failed(FailureKind::Connect),
                        Action::Stop,
                    ),
                    Event::Cancelled => self.end(Outcome::Cancelled, Action::Stop),
                    _ => Action::Idle,
                };
            },
            _ => {},
        }
        match event {
            Event::Cancelled => self.end(Outcome::Cancelled, Action::Close),
            Event::RpcFailed => self.end(Outcome::Failed(FailureKind::Rpc), Action::Close),
            Event::TopologyFetched(t) => {
                if self.phase != Phase::Connected {
                    Action::Idle
                } else if t.is_closed() {
                    self.topology = t;
                    self.phase = Phase::Fetching;
                    Action::FetchStatus
                } else {
                    self.end(Outcome::Failed(FailureKind::Rpc), Action::Close)
                }
            },
            Event::SnapshotFetched(snap) => {
                if self.phase != Phase::Fetching {
                    Action::Idle
                } else if !snap.covers(&self.topology) {
                    self.end(Outcome::Failed(FailureKind::Rpc), Action::Close)
                } else {
                    match render(&self.topology, &snap, self.scheme) {
                        Ok(text) => {
                            self.finished = is_finished(&snap);
                            self.phase = Phase::Rendering;
                            Action::RenderImage(text)
                        },
                        Err(_) => self.end(Outcome::Failed(FailureKind::Render), Action::Close),
                    }
                }
            },
            Event::ImageRendered => {
                if self.phase != Phase::Rendering {
                    Action::Idle
                } else if self.finished {
                    self.end(Outcome::Finished, Action::Close)
                } else {
                    self.phase = Phase::Sleeping;
                    Action::Sleep(self.interval_ms)
                }
            },
            Event::RenderFailed => {
                if self.phase != Phase::Rendering {
                    Action::Idle
                } else {
                    self.end(Outcome::Failed(FailureKind::Render), Action::Close)
                }
            },
            Event::DelayElapsed => {
                if self.phase != Phase::Sleeping {
                    Action::Idle
                } else {
                    self.phase = Phase::Fetching;
                    Action::FetchStatus
                }
            },
            _ => Action::Idle,
        }
    }
}

} // verus!
