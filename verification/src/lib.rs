//! A supervising wrapper's verified core: it models the event loop that
//! launches a child process, appends the child's stdout and stderr streams to
//! two independently rotatable log sinks, relays terminal signals, and
//! propagates the child's exit status.

pub mod config;
pub mod laws;
pub mod outcome;
pub mod pidfile;
pub mod router;
pub mod signals;
pub mod sink;
pub mod supervisor;
