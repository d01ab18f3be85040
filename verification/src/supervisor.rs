use vstd::prelude::*;
use crate::outcome::{exit_outcome, exit_outcome_spec, ExitOutcome, SupervisorFault};
use crate::router::{RouterView, StreamId, StreamRouter};
use crate::signals::TermSignal;
use crate::sink::SinkView;

verus! {

/// The supervisor's phases: `Running` is the only steady state; `Draining`
/// follows a stream fault, when only the child's real exit still matters;
/// `Terminated` means the exit outcome has been computed.
#[derive(Clone, Copy, Debug, PartialEq, Eq, Structural)]
pub enum Phase {
    Running,
    Draining,
    Terminated,
}

/// One event the loop multiplexes; exactly one is handled per iteration.
#[derive(Debug)]
pub enum Event {
    /// A chunk of bytes was read from one child output pipe and durably
    /// written (the read saw `n > 0` bytes).
    Data(StreamId, Vec<u8>),
    /// A read of zero bytes: the pipe closed; the stream is done.
    Eof(StreamId),
    /// A read error: the child is unhealthy; fall back to awaiting its exit.
    ReadFault(StreamId),
    /// A write to the sink failed even after one reopen and retry: the
    /// child's output can no longer be durably captured.
    SinkFault(StreamId),
    /// The per-write staleness check found the sink's inode unlinked: an
    /// external rotation happened without a rotate signal.
    StaleHandle(StreamId),
    /// The operator sent the configured rotate signal.
    Rotate,
    /// A terminal signal arrived, to be relayed to the child.
    Terminal(TermSignal),
    /// The child terminated, with its exit code when one exists.
    Exited(Option<i32>),
}

/// Spec-level image of an `Event`.
pub enum EventView {
    Data(StreamId, Seq<u8>),
    Eof(StreamId),
    ReadFault(StreamId),
    SinkFault(StreamId),
    StaleHandle(StreamId),
    Rotate,
    Terminal(TermSignal),
    Exited(Option<i32>),
}

impl View for Event {
    type V = EventView;

    open spec fn view(&self) -> EventView {
        match self {
            Event::Data(sid, b) => EventView::Data(*sid, b@),
            Event::Eof(sid) => EventView::Eof(*sid),
            Event::ReadFault(sid) => EventView::ReadFault(*sid),
            Event::SinkFault(sid) => EventView::SinkFault(*sid),
            Event::StaleHandle(sid) => EventView::StaleHandle(*sid),
            Event::Rotate => EventView::Rotate,
            Event::Terminal(t) => EventView::Terminal(*t),
            Event::Exited(c) => EventView::Exited(*c),
        }
    }
}

/// What the loop's caller must do after one handled event.
#[derive(Clone, Copy, Debug, PartialEq, Eq)]
pub enum Action {
    /// Keep waiting on the remaining event sources.
    Continue,
    /// Relay this terminal signal to the child if it is still alive; a failed
    /// send is logged, never fatal.
    Forward(TermSignal),
    /// Stop pumping streams, await the child's real termination, and hand its
    /// status back as an `Exited` event: a stream fault never decides the
    /// wrapper's exit code by itself.
    AwaitExit,
    /// The run is over: remove the pidfile if one was written, then exit with
    /// this outcome.
    Finish(Result<ExitOutcome, SupervisorFault>),
}

/// Model of the whole supervisor: its phase and the two stream routers.
pub struct SupervisorView {
    pub phase: Phase,
    pub stdout: RouterView,
    pub stderr: RouterView,
}

/// The supervisor as it stands when the loop is entered: running, both pipes
/// open, both sinks freshly opened and empty.
pub open spec fn initial_supervisor_view() -> SupervisorView {
    SupervisorView {
        phase: Phase::Running,
        stdout: RouterView {
            sink: SinkView { files: seq![Seq::<u8>::empty()], stale: false },
            open: true,
        },
        stderr: RouterView {
            sink: SinkView { files: seq![Seq::<u8>::empty()], stale: false },
            open: true,
        },
    }
}

/// The bytes a data event carries for the given stream; empty for every other
/// event.
pub open spec fn event_payload(e: EventView, sid: StreamId) -> Seq<u8> {
    match e {
        EventView::Data(s2, b) => if s2 == sid {
            b
        } else {
            Seq::empty()
        },
        _ => Seq::empty(),
    }
}

impl SupervisorView {
    pub open spec fn wf(self) -> bool {
        self.stdout.wf() && self.stderr.wf()
    }

    /// The router serving one stream.
    pub open spec fn router(self, sid: StreamId) -> RouterView {
        match sid {
            StreamId::Stdout => self.stdout,
            StreamId::Stderr => self.stderr,
        }
    }

    /// This supervisor with one stream's router replaced.
    pub open spec fn with_router(self, sid: StreamId, r: RouterView) -> SupervisorView {
        match sid {
            StreamId::Stdout => SupervisorView { stdout: r, ..self },
            StreamId::Stderr => SupervisorView { stderr: r, ..self },
        }
    }

    /// Which events the loop still offers in this state: while running, every
    /// source, except that a closed pipe is never offered again; while
    /// draining, only the child's exit; a terminated supervisor offers none.
    pub open spec fn accepts(self, e: EventView) -> bool {
        match self.phase {
            Phase::Running => match e {
                EventView::Data(sid, _) => self.router(sid).open,
                EventView::Eof(sid) => self.router(sid).open,
                EventView::ReadFault(sid) => self.router(sid).open,
                EventView::SinkFault(sid) => self.router(sid).open,
                _ => true,
            },
            Phase::Draining => e is Exited,
            Phase::Terminated => false,
        }
    }

    /// The state after one handled event.
    pub open spec fn stepped(self, e: EventView) -> SupervisorView {
        match e {
            EventView::Data(sid, b) => self.with_router(sid, self.router(sid).delivered(b)),
            EventView::Eof(sid) => self.with_router(sid, self.router(sid).closed()),
            EventView::StaleHandle(sid) => self.with_router(sid, self.router(sid).marked_stale()),
            EventView::ReadFault(_) => SupervisorView { phase: Phase::Draining, ..self },
            EventView::SinkFault(_) => SupervisorView { phase: Phase::Draining, ..self },
            EventView::Rotate => SupervisorView {
                stdout: self.stdout.rotated(),
                stderr: self.stderr.rotated(),
                ..self
            },
            EventView::Terminal(_) => self,
            EventView::Exited(_) => SupervisorView { phase: Phase::Terminated, ..self },
        }
    }

    /// The action one handled event obliges the caller to.
    pub open spec fn step_action(self, e: EventView) -> Action {
        match e {
            EventView::Data(_, _) => Action::Continue,
            EventView::Eof(_) => Action::Continue,
            EventView::StaleHandle(_) => Action::Continue,
            EventView::Rotate => Action::Continue,
            EventView::ReadFault(_) => Action::AwaitExit,
            EventView::SinkFault(_) => Action::AwaitExit,
            EventView::Terminal(t) => Action::Forward(t),
            EventView::Exited(c) => Action::Finish(exit_outcome_spec(c)),
        }
    }
}

/// Drives the event loop's state: spawned child's streams in, log sinks out,
/// one event handled per iteration, until the child's exit decides the
/// outcome.
pub struct Supervisor {
    pub phase: Phase,
    pub stdout: StreamRouter,
    pub stderr: StreamRouter,
}

impl View for Supervisor {
    type V = SupervisorView;

    open spec fn view(&self) -> SupervisorView {
        SupervisorView { phase: self.phase, stdout: self.stdout@, stderr: self.stderr@ }
    }
}

impl Supervisor {
    /// A supervisor about to enter the loop, over two freshly opened sinks.
    pub fn new() -> (s: Supervisor)
        ensures
            s@ == initial_supervisor_view(),
            s@.wf(),
    {
        let s = Supervisor {
            phase: Phase::Running,
            stdout: StreamRouter::new(),
            stderr: StreamRouter::new(),
        };
        proof {
            assert(s@ =~= initial_supervisor_view());
        }
        s
    }

    /// Handles exactly one event and says what the caller must do next. The
    /// whole loop is this function applied to whichever source became ready.
    pub fn step(&mut self, event: Event) -> (a: Action)
        requires
            old(self)@.wf(),
            old(self)@.accepts(event@),
        ensures
            final(self)@ == old(self)@.stepped(event@),
            a == old(self)@.step_action(event@),
            final(self)@.wf(),
    {
        match event {
            Event::Data(sid, bytes) => {
                match sid {
                    StreamId::Stdout => self.stdout.deliver(bytes),
                    StreamId::Stderr => self.stderr.deliver(bytes),
                }
                Action::Continue
            },
            Event::Eof(sid) => {
                match sid {
                    StreamId::Stdout => self.stdout.note_eof(),
                    StreamId::Stderr => self.stderr.note_eof(),
                }
                Action::Continue
            },
            Event::StaleHandle(sid) => {
                match sid {
                    StreamId::Stdout => self.stdout.note_stale(),
                    StreamId::Stderr => self.stderr.note_stale(),
                }
                Action::Continue
            },
            Event::ReadFault(_) => {
                self.phase = Phase::Draining;
                Action::AwaitExit
            },
            Event::SinkFault(_) => {
                self.phase = Phase::Draining;
                Action::AwaitExit
            },
            Event::Rotate => {
                self.stdout.rotate();
                self.stderr.rotate();
                Action::Continue
            },
            Event::Terminal(t) => Action::Forward(t),
            Event::Exited(code) => {
                self.phase = Phase::Terminated;
                Action::Finish(exit_outcome(code))
            },
        }
    }
}

} // verus!
