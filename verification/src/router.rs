use vstd::prelude::*;
use crate::sink::{LogSink, SinkView};

verus! {

/// Which child output stream a router serves.
#[derive(Clone, Copy, Debug, PartialEq, Eq, Structural)]
pub enum StreamId {
    Stdout,
    Stderr,
}

/// Model of one stream router: its sink, and whether the child's pipe is
/// still open (a read of zero bytes closes it for good).
pub struct RouterView {
    pub sink: SinkView,
    pub open: bool,
}

impl RouterView {
    pub open spec fn wf(self) -> bool {
        self.sink.wf()
    }

    /// One chunk pumped from the pipe into the sink.
    pub open spec fn delivered(self, bytes: Seq<u8>) -> RouterView {
        RouterView { sink: self.sink.delivered(bytes), open: self.open }
    }

    /// End of stream: the router goes permanently idle; the sink keeps what
    /// it has.
    pub open spec fn closed(self) -> RouterView {
        RouterView { sink: self.sink, open: false }
    }

    /// Operator-requested rotation of the sink.
    pub open spec fn rotated(self) -> RouterView {
        RouterView { sink: self.sink.rotated(), open: self.open }
    }

    /// External rotation detected on the sink's handle.
    pub open spec fn marked_stale(self) -> RouterView {
        RouterView { sink: self.sink.marked_stale(), open: self.open }
    }
}

/// Pumps bytes from one child output pipe into one log sink, in the order
/// read, going permanently idle at end of stream.
pub struct StreamRouter {
    pub sink: LogSink,
    pub open: bool,
}

impl View for StreamRouter {
    type V = RouterView;

    open spec fn view(&self) -> RouterView {
        RouterView { sink: self.sink@, open: self.open }
    }
}

impl StreamRouter {
    /// A router over a freshly opened sink and a live pipe.
    pub fn new() -> (r: StreamRouter)
        ensures
            r@ == (RouterView {
                sink: SinkView { files: seq![Seq::<u8>::empty()], stale: false },
                open: true,
            }),
            r@.wf(),
    {
        StreamRouter { sink: LogSink::new(), open: true }
    }

    /// Routes one chunk read from the pipe into the sink, reopening first
    /// when the handle is stale.
    pub fn deliver(&mut self, bytes: Vec<u8>)
        requires
            old(self)@.wf(),
        ensures
            final(self)@ == old(self)@.delivered(bytes@),
            final(self)@.wf(),
            final(self)@.sink.appended() == old(self)@.sink.appended() + bytes@,
    {
        self.sink.deliver(bytes);
    }

    /// A read of zero bytes: the pipe closed; this event source is offered no
    /// more.
    pub fn note_eof(&mut self)
        ensures
            final(self)@ == old(self)@.closed(),
    {
        self.open = false;
    }

    /// Operator-requested rotation.
    pub fn rotate(&mut self)
        ensures
            final(self)@ == old(self)@.rotated(),
    {
        self.sink.rotate();
    }

    /// External rotation detected by the per-write staleness check.
    pub fn note_stale(&mut self)
        ensures
            final(self)@ == old(self)@.marked_stale(),
    {
        self.sink.mark_external_rotation();
    }
}

} // verus!
