use vstd::prelude::*;
use crate::router::StreamId;
use crate::signals::TermSignal;
use crate::sink::{lemma_delivered_exact, lemma_rotated_preserves_appended};
use crate::supervisor::{
    event_payload, initial_supervisor_view, Action, EventView, SupervisorView,
};

verus! {

/// The supervisor after a whole run of events, handled in order.
pub open spec fn run_steps(s: SupervisorView, evs: Seq<EventView>) -> SupervisorView
    decreases evs.len(),
{
    if evs.len() == 0 {
        s
    } else {
        run_steps(s.stepped(evs[0]), evs.drop_first())
    }
}

/// The concatenation of every chunk a run carries for one stream, in order.
pub open spec fn stream_payload(evs: Seq<EventView>, sid: StreamId) -> Seq<u8>
    decreases evs.len(),
{
    if evs.len() == 0 {
        Seq::empty()
    } else {
        event_payload(evs[0], sid) + stream_payload(evs.drop_first(), sid)
    }
}

/// One handled event extends a stream's appended bytes by exactly that
/// event's payload for the stream, and keeps the model well formed.
proof fn lemma_step_appends_exactly(s: SupervisorView, e: EventView, sid: StreamId)
    requires
        s.wf(),
    ensures
        s.stepped(e).wf(),
        s.stepped(e).router(sid).sink.appended() == s.router(sid).sink.appended() + event_payload(
            e,
            sid,
        ),
{
    match e {
        EventView::Data(s2, b) => {
            lemma_delivered_exact(s.router(s2).sink, b);
            if s2 != sid {
                assert(s.router(sid).sink.appended() + Seq::<u8>::empty() =~= s.router(
                    sid,
                ).sink.appended());
            }
        },
        EventView::Rotate => {
            lemma_rotated_preserves_appended(s.stdout.sink);
            lemma_rotated_preserves_appended(s.stderr.sink);
            assert(s.router(sid).sink.appended() + Seq::<u8>::empty() =~= s.router(
                sid,
            ).sink.appended());
        },
        _ => {
            assert(s.router(sid).sink.appended() + Seq::<u8>::empty() =~= s.router(
                sid,
            ).sink.appended());
        },
    }
}

/// Law: across any run of the event loop, the bytes appended to a stream's
/// log — across any number of rotations, operator-signalled or external —
/// are exactly the concatenation of the chunks read from that stream, with
/// no loss, duplication, or reordering within the stream.
pub proof fn lemma_stream_bytes_exact(s: SupervisorView, evs: Seq<EventView>, sid: StreamId)
    requires
        s.wf(),
    ensures
        run_steps(s, evs).wf(),
        run_steps(s, evs).router(sid).sink.appended() == s.router(sid).sink.appended()
            + stream_payload(evs, sid),
    decreases evs.len(),
{
    if evs.len() == 0 {
        assert(s.router(sid).sink.appended() + Seq::<u8>::empty() =~= s.router(
            sid,
        ).sink.appended());
    } else {
        lemma_step_appends_exactly(s, evs[0], sid);
        lemma_stream_bytes_exact(s.stepped(evs[0]), evs.drop_first(), sid);
        assert((s.router(sid).sink.appended() + event_payload(evs[0], sid)) + stream_payload(
            evs.drop_first(),
            sid,
        ) =~= s.router(sid).sink.appended() + stream_payload(evs, sid));
    }
}

/// Law: from the start of a run, the bytes appended to a stream's log —
/// concatenated across every generation its rotations created — are exactly
/// the bytes the child emitted on that stream.
pub proof fn lemma_run_from_start_bytes_exact(evs: Seq<EventView>, sid: StreamId)
    ensures
        run_steps(initial_supervisor_view(), evs).router(sid).sink.appended() == stream_payload(
            evs,
            sid,
        ),
{
    let s0 = initial_supervisor_view();
    lemma_stream_bytes_exact(s0, evs, sid);
    reveal_with_fuel(crate::sink::concat_all, 2);
    assert(s0.router(sid).sink.files =~= seq![Seq::<u8>::empty()]);
    assert(s0.router(sid).sink.files.drop_last() =~= Seq::<Seq<u8>>::empty());
    assert(s0.router(sid).sink.appended() =~= Seq::<u8>::empty());
    assert(Seq::<u8>::empty() + stream_payload(evs, sid) =~= stream_payload(evs, sid));
}

/// Law: handling a rotate signal when no write is pending leaves both logs'
/// appended content unchanged; it only makes both sinks target fresh, empty
/// files at their original paths, and it neither ends the loop nor closes a
/// stream.
pub proof fn lemma_rotation_preserves_content(s: SupervisorView)
    requires
        s.wf(),
    ensures
        s.stepped(EventView::Rotate).wf(),
        s.stepped(EventView::Rotate).stdout.sink.appended() == s.stdout.sink.appended(),
        s.stepped(EventView::Rotate).stderr.sink.appended() == s.stderr.sink.appended(),
        s.stepped(EventView::Rotate).stdout.sink.current() == Seq::<u8>::empty(),
        s.stepped(EventView::Rotate).stderr.sink.current() == Seq::<u8>::empty(),
        !s.stepped(EventView::Rotate).stdout.sink.stale,
        !s.stepped(EventView::Rotate).stderr.sink.stale,
        s.stepped(EventView::Rotate).phase == s.phase,
        s.stepped(EventView::Rotate).stdout.open == s.stdout.open,
        s.stepped(EventView::Rotate).stderr.open == s.stderr.open,
{
    lemma_rotated_preserves_appended(s.stdout.sink);
    lemma_rotated_preserves_appended(s.stderr.sink);
}

/// Law: when a sink's backing file is externally renamed away (its link count
/// drops to zero) without a rotate signal, the next chunk on that stream goes
/// entirely to a freshly created file at the original path, and not one byte
/// is lost from the stream's appended content.
pub proof fn lemma_stale_handle_redirects(s: SupervisorView, sid: StreamId, bytes: Seq<u8>)
    requires
        s.wf(),
    ensures
        s.stepped(EventView::StaleHandle(sid)).stepped(EventView::Data(sid, bytes)).router(
            sid,
        ).sink.current() == bytes,
        s.stepped(EventView::StaleHandle(sid)).stepped(EventView::Data(sid, bytes)).router(
            sid,
        ).sink.appended() == s.router(sid).sink.appended() + bytes,
{
    lemma_delivered_exact(s.router(sid).sink.marked_stale(), bytes);
}

/// Law: a terminal signal is only relayed to the child; it changes nothing in
/// the supervisor and never ends the loop. The wrapper keeps waiting for the
/// child's actual exit — even when both pipes have already closed.
pub proof fn lemma_terminal_signal_only_relays(s: SupervisorView, t: TermSignal)
    ensures
        s.stepped(EventView::Terminal(t)) == s,
        s.step_action(EventView::Terminal(t)) == Action::Forward(t),
{
}

/// Law: only the child's own termination event ends the run, and the outcome
/// it ends with is exactly the child's status — its code when one exists, the
/// loud missing-code fault when none does. No stream fault, signal, or
/// rotation ever decides the wrapper's exit by itself.
pub proof fn lemma_only_child_exit_finishes(s: SupervisorView, e: EventView)
    ensures
        (s.step_action(e) is Finish) <==> (e is Exited),
        forall|c: Option<i32>|
            s.step_action(EventView::Exited(c)) == Action::Finish(
                crate::outcome::exit_outcome_spec(c),
            ),
{
}

} // verus!
