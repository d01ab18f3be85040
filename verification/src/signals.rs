use vstd::prelude::*;

verus! {

/// The closed set of signals an operator may pick as the rotation trigger.
#[derive(Clone, Copy, Debug, PartialEq, Eq, Structural)]
pub enum HandledSignals {
    SIGHUP,
    SIGUSR1,
    SIGUSR2,
}

/// Terminal signals the wrapper relays to the child instead of acting on
/// itself; the wrapper's own termination is driven by the child's exit.
#[derive(Clone, Copy, Debug, PartialEq, Eq, Structural)]
pub enum TermSignal {
    Terminate,
    Quit,
    Interrupt,
}

/// Platform signal number (Linux numbering) of a rotate-signal choice.
pub open spec fn rotate_signal_number(s: HandledSignals) -> int {
    match s {
        HandledSignals::SIGHUP => 1,
        HandledSignals::SIGUSR1 => 10,
        HandledSignals::SIGUSR2 => 12,
    }
}

/// Platform signal number (Linux numbering) of a forwarded terminal signal.
pub open spec fn term_signal_number(s: TermSignal) -> int {
    match s {
        TermSignal::Terminate => 15,
        TermSignal::Quit => 3,
        TermSignal::Interrupt => 2,
    }
}

impl HandledSignals {
    /// The OS signal number this rotation trigger subscribes to.
    pub fn signal_number(&self) -> (n: i32)
        ensures
            n == rotate_signal_number(*self),
    {
        match self {
            HandledSignals::SIGHUP => 1,
            HandledSignals::SIGUSR1 => 10,
            HandledSignals::SIGUSR2 => 12,
        }
    }
}

impl TermSignal {
    /// The OS signal number delivered to the child when forwarding.
    pub fn signal_number(&self) -> (n: i32)
        ensures
            n == term_signal_number(*self),
    {
        match self {
            TermSignal::Terminate => 15,
            TermSignal::Quit => 3,
            TermSignal::Interrupt => 2,
        }
    }
}

/// What became of one attempt to relay a terminal signal to the child.
/// No variant is fatal to the wrapper.
#[derive(Clone, Copy, Debug, PartialEq, Eq, Structural)]
pub enum ForwardOutcome {
    /// The child had already been reaped, so nothing was sent.
    Skipped,
    /// The signal was delivered.
    Sent,
    /// The send failed; the field is the OS errno, for diagnostics only.
    Failed(i32),
}

/// Relies on nix::sys::signal::kill: asks the OS to deliver the signal that
/// matches `sig` to process `pid`. Whether that succeeds depends on whether
/// the process is still alive and on permissions, so nothing is promised of
/// the outcome; the error is the OS errno.
#[verifier::external_body]
fn kill_child(pid: i32, sig: &TermSignal) -> (r: Result<(), i32>) {
    let s = match sig {
        TermSignal::Terminate => nix::sys::signal::Signal::SIGTERM,
        TermSignal::Quit => nix::sys::signal::Signal::SIGQUIT,
        TermSignal::Interrupt => nix::sys::signal::Signal::SIGINT,
    };
    match nix::sys::signal::kill(nix::unistd::Pid::from_raw(pid), s) {
        Ok(()) => Ok(()),
        Err(e) => Err(e as i32),
    }
}

/// Relays a terminal signal to the child if it is still running. A child that
/// has already been reaped is skipped; a failed send is reported, never fatal.
pub fn forward_to_child(child_pid: Option<u32>, sig: &TermSignal) -> (r: ForwardOutcome)
    requires
        child_pid matches Some(p) ==> p <= 0x7fff_ffff,
    ensures
        child_pid is None ==> r is Skipped,
        child_pid is Some ==> (r is Sent || r matches ForwardOutcome::Failed(_)),
{
    match child_pid {
        None => ForwardOutcome::Skipped,
        Some(p) => match kill_child(p as i32, sig) {
            Ok(()) => ForwardOutcome::Sent,
            Err(e) => ForwardOutcome::Failed(e),
        },
    }
}

} // verus!
