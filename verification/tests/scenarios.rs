use logwrap::outcome::{ExitOutcome, SupervisorFault};
use logwrap::router::StreamId;
use logwrap::signals::TermSignal;
use logwrap::supervisor::{Action, Event, Phase, Supervisor};

#[test]
fn scenario_echo_hello() {
    // A child that prints one line on stdout and exits cleanly: the wrapper
    // exits with code 0 and the stdout log holds exactly that line.
    let mut sup = Supervisor::new();
    let a = sup.step(Event::Data(StreamId::Stdout, b"hello\n".to_vec()));
    assert_eq!(a, Action::Continue);
    assert_eq!(sup.step(Event::Eof(StreamId::Stdout)), Action::Continue);
    assert_eq!(sup.step(Event::Eof(StreamId::Stderr)), Action::Continue);
    let last = sup.step(Event::Exited(Some(0)));
    assert_eq!(last, Action::Finish(Ok(ExitOutcome { code: 0 })));
    assert_eq!(sup.phase, Phase::Terminated);
    assert_eq!(sup.stdout.sink.current, b"hello\n".to_vec());
    assert!(sup.stdout.sink.archived.is_empty());
    assert!(sup.stderr.sink.current.is_empty());
}

#[test]
fn scenario_stderr_then_exit_three() {
    // A child that writes to stderr and exits with code 3: the wrapper exits
    // with 3 and the stderr log holds the written bytes.
    let mut sup = Supervisor::new();
    assert_eq!(
        sup.step(Event::Data(StreamId::Stderr, b"boom\n".to_vec())),
        Action::Continue
    );
    assert_eq!(sup.step(Event::Eof(StreamId::Stderr)), Action::Continue);
    assert_eq!(sup.step(Event::Eof(StreamId::Stdout)), Action::Continue);
    let last = sup.step(Event::Exited(Some(3)));
    assert_eq!(last, Action::Finish(Ok(ExitOutcome { code: 3 })));
    assert_eq!(sup.stderr.sink.current, b"boom\n".to_vec());
    assert!(sup.stdout.sink.current.is_empty());
}

#[test]
fn scenario_double_rotation() {
    // Two rotate signals in succession: both sinks end up on fresh files at
    // their paths, and output written between the signals appears only in the
    // file opened after the first signal.
    let mut sup = Supervisor::new();
    sup.step(Event::Data(StreamId::Stdout, b"before".to_vec()));
    assert_eq!(sup.step(Event::Rotate), Action::Continue);
    sup.step(Event::Data(StreamId::Stdout, b"between".to_vec()));
    assert_eq!(sup.step(Event::Rotate), Action::Continue);
    sup.step(Event::Data(StreamId::Stdout, b"after".to_vec()));

    assert_eq!(
        sup.stdout.sink.archived,
        vec![b"before".to_vec(), b"between".to_vec()]
    );
    assert_eq!(sup.stdout.sink.current, b"after".to_vec());
    assert!(!sup.stdout.sink.stale);
    // the stderr sink rotated twice with nothing pending: contents unchanged
    assert_eq!(sup.stderr.sink.archived, vec![Vec::<u8>::new(), Vec::<u8>::new()]);
    assert!(sup.stderr.sink.current.is_empty());
}

#[test]
fn scenario_terminal_signal_waits_for_exit() {
    // Both pipes have closed but the child has not exited; a terminal signal
    // is relayed, and the wrapper keeps waiting for the real exit event.
    let mut sup = Supervisor::new();
    sup.step(Event::Eof(StreamId::Stdout));
    sup.step(Event::Eof(StreamId::Stderr));
    let a = sup.step(Event::Terminal(TermSignal::Terminate));
    assert_eq!(a, Action::Forward(TermSignal::Terminate));
    assert_eq!(sup.phase, Phase::Running);
    let a2 = sup.step(Event::Terminal(TermSignal::Quit));
    assert_eq!(a2, Action::Forward(TermSignal::Quit));
    assert_eq!(sup.phase, Phase::Running);
    let last = sup.step(Event::Exited(Some(0)));
    assert_eq!(last, Action::Finish(Ok(ExitOutcome { code: 0 })));
    assert_eq!(sup.phase, Phase::Terminated);
}

#[test]
fn scenario_missing_exit_code_is_fatal() {
    // A child terminated by a mechanism that yields no exit code: the wrapper
    // reports its own fault and never fabricates a code.
    let mut sup = Supervisor::new();
    sup.step(Event::Eof(StreamId::Stdout));
    sup.step(Event::Eof(StreamId::Stderr));
    let last = sup.step(Event::Exited(None));
    assert_eq!(
        last,
        Action::Finish(Err(SupervisorFault::MissingExitCode))
    );
    assert_eq!(sup.phase, Phase::Terminated);
}

#[test]
fn stream_concatenation_across_rotations() {
    // Whatever mix of rotations happens, the bytes appended to one stream's
    // log, concatenated across generations, equal the stream's chunks in
    // order — nothing lost, duplicated, or reordered.
    let mut sup = Supervisor::new();
    sup.step(Event::Data(StreamId::Stdout, b"one ".to_vec()));
    sup.step(Event::Data(StreamId::Stderr, b"E1".to_vec()));
    sup.step(Event::Rotate);
    sup.step(Event::Data(StreamId::Stdout, b"two ".to_vec()));
    sup.step(Event::StaleHandle(StreamId::Stdout));
    sup.step(Event::Data(StreamId::Stdout, b"three".to_vec()));

    let mut all: Vec<u8> = Vec::new();
    for f in &sup.stdout.sink.archived {
        all.extend_from_slice(f);
    }
    all.extend_from_slice(&sup.stdout.sink.current);
    assert_eq!(all, b"one two three".to_vec());
    assert_eq!(
        sup.stdout.sink.archived,
        vec![b"one ".to_vec(), b"two ".to_vec()]
    );
    assert_eq!(sup.stdout.sink.current, b"three".to_vec());

    let mut all_err: Vec<u8> = Vec::new();
    for f in &sup.stderr.sink.archived {
        all_err.extend_from_slice(f);
    }
    all_err.extend_from_slice(&sup.stderr.sink.current);
    assert_eq!(all_err, b"E1".to_vec());
}

#[test]
fn rotation_with_nothing_pending_changes_no_content() {
    // Idempotence of rotation on content: a rotate signal with no writes
    // pending only changes which file future writes target.
    let mut sup = Supervisor::new();
    sup.step(Event::Data(StreamId::Stdout, b"kept".to_vec()));
    let before_out: Vec<Vec<u8>> = {
        let mut v = sup.stdout.sink.archived.clone();
        v.push(sup.stdout.sink.current.clone());
        v
    };
    sup.step(Event::Rotate);
    let mut after_out = sup.stdout.sink.archived.clone();
    after_out.push(sup.stdout.sink.current.clone());
    // same bytes overall; only an empty fresh generation was added
    let flat = |fs: &Vec<Vec<u8>>| {
        let mut a: Vec<u8> = Vec::new();
        for f in fs {
            a.extend_from_slice(f);
        }
        a
    };
    assert_eq!(flat(&before_out), flat(&after_out));
    assert!(sup.stdout.sink.current.is_empty());
    // future writes target the new file
    sup.step(Event::Data(StreamId::Stdout, b"next".to_vec()));
    assert_eq!(sup.stdout.sink.current, b"next".to_vec());
    assert_eq!(sup.stdout.sink.archived, vec![b"kept".to_vec()]);
}

#[test]
fn stale_handle_write_redirected_to_fresh_file() {
    // The backing file is renamed away without a signal: the next write goes
    // to a freshly created file at the original path, with zero bytes lost.
    let mut sup = Supervisor::new();
    sup.step(Event::Data(StreamId::Stdout, b"old file".to_vec()));
    sup.step(Event::StaleHandle(StreamId::Stdout));
    assert!(sup.stdout.sink.stale);
    sup.step(Event::Data(StreamId::Stdout, b"new file".to_vec()));
    assert!(!sup.stdout.sink.stale);
    assert_eq!(sup.stdout.sink.archived, vec![b"old file".to_vec()]);
    assert_eq!(sup.stdout.sink.current, b"new file".to_vec());
}

#[test]
fn read_fault_drains_then_uses_real_exit_code() {
    // A pipe read error is fatal to the loop but not to the exit code: the
    // wrapper awaits the child's real status and reports that.
    let mut sup = Supervisor::new();
    sup.step(Event::Data(StreamId::Stdout, b"partial".to_vec()));
    let a = sup.step(Event::ReadFault(StreamId::Stdout));
    assert_eq!(a, Action::AwaitExit);
    assert_eq!(sup.phase, Phase::Draining);
    let last = sup.step(Event::Exited(Some(7)));
    assert_eq!(last, Action::Finish(Ok(ExitOutcome { code: 7 })));
    // what was already captured stays captured
    assert_eq!(sup.stdout.sink.current, b"partial".to_vec());
}

#[test]
fn sink_fault_drains_then_uses_real_exit_code() {
    // A write that failed even after reopen-and-retry: output can no longer
    // be durably captured; the child's real status still decides the code.
    let mut sup = Supervisor::new();
    let a = sup.step(Event::SinkFault(StreamId::Stderr));
    assert_eq!(a, Action::AwaitExit);
    assert_eq!(sup.phase, Phase::Draining);
    let last = sup.step(Event::Exited(None));
    assert_eq!(last, Action::Finish(Err(SupervisorFault::MissingExitCode)));
}
