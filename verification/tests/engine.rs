use winptyrs::pty::base::{
    classify_output, deliver, LocalHandle, OutputState, PTYProcess, Phase, StreamProbe,
    TeardownRequest,
};
use winptyrs::pty::reading::ReaderLink;
use winptyrs::pty::channel::Polled;
use winptyrs::pty::error::{ErrorKind, Operation, OsFault, PtyError};
use winptyrs::pty::reading::ReaderRequest;

fn wide_text(text: &str) -> Vec<u16> {
    text.encode_utf16().collect()
}

fn no_fault() -> OsFault {
    OsFault { code: 0, message: String::new() }
}

fn idle_probe() -> StreamProbe {
    StreamProbe { ready: true, reader_active: false, waiting: Some(0) }
}

fn drive_teardown(engine: &mut PTYProcess, steps: usize) -> Vec<TeardownRequest> {
    (0..steps).map(|_| engine.teardown()).collect()
}

/// Runs the reader of a spawned engine up to its end.
fn run_reader_to_its_end(reader: &ReaderLink) {
    assert!(reader.await_process().is_some());
    let stop = if reader.is_async() {
        reader.completed(Ok((Vec::new(), false)))
    } else {
        reader.probed(true)
    };
    assert_eq!(stop, ReaderRequest::Stop);
}

#[test]
fn new_engine_has_no_child() {
    let (engine, reader, watcher) =
        PTYProcess::new(LocalHandle(11), LocalHandle(12), false, false, None);
    assert_eq!(engine.get_pid(), 0);
    assert_eq!(engine.get_fd(), 0);
    assert_eq!(engine.input_handle(), LocalHandle(11));
    assert_eq!(engine.output_handle(), LocalHandle(12));
    assert!(engine.process_handle().is_invalid());
    assert!(!engine.is_async());
    assert!(!engine.uses_pipes());
    assert_eq!(engine.phase(), Phase::Open);
    assert!(!reader.is_async());
    assert_eq!(reader.output_stream(), LocalHandle(12));
    assert!(!reader.reads_pipe());
    assert!(watcher.is_none());
}

#[test]
fn async_engine_has_a_watcher() {
    let (engine, reader, watcher) =
        PTYProcess::new(LocalHandle(7), LocalHandle(7), true, true, None);
    assert!(engine.is_async());
    assert!(engine.uses_pipes());
    assert!(reader.is_async());
    assert!(reader.reads_pipe());
    assert_eq!(watcher.unwrap().output_stream(), LocalHandle(7));
}

#[test]
fn set_process_makes_the_child_known_to_all() {
    let (mut engine, reader, watcher) =
        PTYProcess::new(LocalHandle(7), LocalHandle(7), true, true, None);
    assert!(engine.set_process(LocalHandle(4242), false, 977));
    assert_eq!(engine.get_pid(), 977);
    assert_eq!(engine.get_fd(), 4242);
    assert_eq!(engine.process_handle(), LocalHandle(4242));
    assert_eq!(reader.await_process(), Some(LocalHandle(4242)));
    assert_eq!(watcher.unwrap().await_process(), Some(LocalHandle(4242)));
}

#[test]
fn read_nonblocking_on_idle_session_is_empty() {
    let (mut engine, _reader, _watcher) =
        PTYProcess::new(LocalHandle(11), LocalHandle(12), false, false, None);
    assert_eq!(engine.read(false).unwrap(), Vec::<u16>::new());
    assert_eq!(engine.read(false).unwrap(), Vec::<u16>::new());
}

#[test]
fn read_delivers_items_in_the_order_of_the_reader() {
    let (mut engine, reader, _watcher) =
        PTYProcess::new(LocalHandle(11), LocalHandle(12), true, true, None);
    assert_eq!(reader.completed(Ok((wide_text("one"), true))), ReaderRequest::Read);
    assert_eq!(reader.completed(Ok((wide_text("two"), true))), ReaderRequest::Read);
    assert_eq!(engine.read(true).unwrap(), wide_text("one"));
    assert_eq!(engine.read(false).unwrap(), wide_text("two"));
    assert_eq!(engine.read(false).unwrap(), Vec::<u16>::new());
}

#[test]
fn read_passes_on_the_errors_of_the_reader() {
    let (mut engine, reader, _watcher) =
        PTYProcess::new(LocalHandle(11), LocalHandle(12), true, true, None);
    let failure = PtyError::from_os(
        Operation::ReadFile,
        OsFault { code: -2147024787, message: String::from("The pipe has been ended.") },
    );
    assert_eq!(reader.completed(Err(failure)), ReaderRequest::Stop);
    let e = engine.read(true).unwrap_err();
    assert_eq!(e.kind, ErrorKind::OsFailure);
    assert_eq!(e.operation, Some(Operation::ReadFile));
    assert_eq!(e.message, "The pipe has been ended.");
    assert_eq!(engine.read(false).unwrap(), Vec::<u16>::new());
}

#[test]
fn end_of_stream_is_reported_for_good() {
    let (mut engine, reader, _watcher) =
        PTYProcess::new(LocalHandle(11), LocalHandle(12), false, false, None);
    assert_eq!(reader.completed(Ok((wide_text("last"), true))), ReaderRequest::ProbeEnd);
    assert_eq!(reader.probed(true), ReaderRequest::Stop);
    assert_eq!(engine.read(true).unwrap(), wide_text("last"));
    let first = engine.read(true).unwrap_err();
    assert_eq!(first.kind, ErrorKind::Eof);
    assert_eq!(first.message, "Standard out reached EOF");
    for _ in 0..5 {
        assert_eq!(engine.read(false).unwrap_err().kind, ErrorKind::Eof);
        assert_eq!(engine.read(true).unwrap_err().kind, ErrorKind::Eof);
    }
}

#[test]
fn end_of_stream_hides_later_items() {
    let (mut engine, reader, _watcher) =
        PTYProcess::new(LocalHandle(11), LocalHandle(12), false, false, None);
    assert_eq!(reader.probed(true), ReaderRequest::Stop);
    let _ = reader.completed(Ok((wide_text("late"), true)));
    assert_eq!(engine.read(false).unwrap_err().kind, ErrorKind::Eof);
    assert_eq!(engine.read(false).unwrap_err().kind, ErrorKind::Eof);
    assert_eq!(engine.read(true).unwrap_err().kind, ErrorKind::Eof);
}

#[test]
fn blocking_read_of_a_cut_queue_is_empty() {
    let (mut engine, reader, watcher) =
        PTYProcess::new(LocalHandle(11), LocalHandle(12), false, false, None);
    drop(reader);
    drop(watcher);
    assert_eq!(engine.read(true).unwrap(), Vec::<u16>::new());
    assert_eq!(engine.read(false).unwrap(), Vec::<u16>::new());
}

#[test]
fn deliver_maps_what_the_queue_held() {
    assert_eq!(deliver(Polled::Empty).unwrap(), Vec::<u16>::new());
    assert_eq!(deliver(Polled::Disconnected).unwrap(), Vec::<u16>::new());
    assert_eq!(deliver(Polled::Item(Some(Ok(vec![65u16, 66])))).unwrap(), vec![65u16, 66]);
    assert_eq!(deliver(Polled::Item(Some(Ok(Vec::new())))).unwrap(), Vec::<u16>::new());
    assert_eq!(deliver(Polled::Item(None)).unwrap_err().kind, ErrorKind::Eof);
    let e = deliver(Polled::Item(Some(Err(PtyError::protocol())))).unwrap_err();
    assert_eq!(e.kind, ErrorKind::InternalInvariant);
}

#[test]
fn output_states() {
    let idle = idle_probe();
    assert_eq!(classify_output(true, idle, true, true), OutputState::Closed);
    let early = StreamProbe { ready: false, reader_active: true, waiting: Some(0) };
    assert_eq!(classify_output(false, early, false, false), OutputState::PreReady);
    assert_eq!(classify_output(false, idle, true, false), OutputState::Streaming);
    assert_eq!(classify_output(false, idle, false, true), OutputState::Draining);
    let active = StreamProbe { ready: true, reader_active: true, waiting: Some(0) };
    assert_eq!(classify_output(false, active, false, false), OutputState::Draining);
    let bytes = StreamProbe { ready: true, reader_active: false, waiting: Some(9) };
    assert_eq!(classify_output(false, bytes, false, false), OutputState::Draining);
    assert_eq!(classify_output(false, idle, false, false), OutputState::Eof);
    let broken = StreamProbe { ready: true, reader_active: false, waiting: None };
    assert_eq!(classify_output(false, broken, false, false), OutputState::Eof);
    assert!(OutputState::Eof.at_end());
    assert!(OutputState::Closed.at_end());
    assert!(!OutputState::PreReady.at_end());
    assert!(!OutputState::Streaming.at_end());
    assert!(!OutputState::Draining.at_end());
}

#[test]
fn is_eof_is_false_while_anything_is_under_way() {
    let (mut engine, reader, _watcher) =
        PTYProcess::new(LocalHandle(11), LocalHandle(12), false, false, None);
    // The reader is not ready yet.
    assert_eq!(engine.is_eof(Some(0), Ok(false)).unwrap(), false);
    engine.set_process(LocalHandle(13), true, 5);
    assert!(reader.await_process().is_some());
    // The reader is ready and active.
    assert_eq!(engine.is_eof(Some(0), Ok(true)).unwrap(), false);
    assert_eq!(engine.is_eof(Some(0), Ok(false)).unwrap(), false);
    assert_eq!(reader.completed(Ok((wide_text("tail"), true))), ReaderRequest::ProbeEnd);
    assert_eq!(reader.probed(true), ReaderRequest::Stop);
    // The reader has ended; its last text and the end marker wait.
    assert_eq!(engine.is_eof(Some(0), Ok(false)).unwrap(), false);
    assert_eq!(engine.read(false).unwrap(), wide_text("tail"));
    assert_eq!(engine.is_eof(Some(0), Ok(false)).unwrap(), false);
    assert!(engine.read(false).is_err());
    // Nothing waits any more.
    assert_eq!(engine.is_eof(Some(7), Ok(false)).unwrap(), false);
    assert_eq!(engine.is_eof(Some(0), Ok(true)).unwrap(), false);
    assert_eq!(engine.is_eof(Some(0), Ok(false)).unwrap(), true);
    assert_eq!(engine.is_eof(None, Ok(false)).unwrap(), true);
}

#[test]
fn is_eof_reports_an_unknown_liveness() {
    let (engine, _reader, _watcher) =
        PTYProcess::new(LocalHandle(11), LocalHandle(12), false, false, None);
    let unknown = engine.is_alive(
        0xFFFF_FFFF,
        OsFault { code: -2147024890, message: String::from("The handle is invalid.") },
    );
    let e = engine.is_eof(Some(0), unknown).unwrap_err();
    assert_eq!(e.kind, ErrorKind::OsFailure);
    assert_eq!(e.message, "The handle is invalid.");
}

#[test]
fn exit_status_is_absent_before_a_spawn() {
    let (mut engine, _reader, _watcher) =
        PTYProcess::new(LocalHandle(11), LocalHandle(12), false, false, None);
    assert_eq!(engine.get_exitstatus(Ok(0)).unwrap(), None);
    assert_eq!(engine.get_exitstatus(Err(no_fault())).unwrap(), None);
    engine.set_process(LocalHandle(500), true, 31);
    assert_eq!(engine.get_exitstatus(Ok(0)).unwrap(), Some(0));
    assert_eq!(engine.get_exitstatus(Ok(259)).unwrap(), None);
    assert_eq!(engine.get_exitstatus(Ok(3)).unwrap(), Some(3));
    assert!(engine.get_exitstatus(Err(no_fault())).is_err());
}

#[test]
fn engine_forwards_liveness_and_cancel() {
    let (engine, _reader, _watcher) =
        PTYProcess::new(LocalHandle(11), LocalHandle(12), false, false, None);
    assert_eq!(engine.is_alive(258, no_fault()).unwrap(), true);
    assert_eq!(engine.is_alive(0, no_fault()).unwrap(), false);
    assert_eq!(engine.wait_for_exit(0, no_fault()).unwrap(), true);
    assert_eq!(engine.wait_for_exit(258, no_fault()).unwrap(), false);
    assert_eq!(engine.cancel_io(Ok(())).unwrap(), true);
    let e = engine
        .cancel_io(Err(OsFault { code: -2147023728, message: String::from("Element not found.") }))
        .unwrap_err();
    assert_eq!(e.operation, Some(Operation::CancelIoEx));
    assert_eq!(e.message, "Element not found.");
}

#[test]
fn teardown_of_a_sync_engine_closes_all_three_handles_in_order() {
    let (mut engine, reader, _watcher) =
        PTYProcess::new(LocalHandle(11), LocalHandle(12), false, false, None);
    engine.set_process(LocalHandle(13), true, 5);
    run_reader_to_its_end(&reader);
    let requests = drive_teardown(&mut engine, 7);
    assert_eq!(
        requests,
        vec![
            TeardownRequest::CheckReady,
            TeardownRequest::CheckAlive,
            TeardownRequest::JoinReader,
            TeardownRequest::Close(LocalHandle(11)),
            TeardownRequest::Close(LocalHandle(12)),
            TeardownRequest::Close(LocalHandle(13)),
            TeardownRequest::Done,
        ]
    );
    assert_eq!(engine.phase(), Phase::Closed);
}

#[test]
fn teardown_is_idempotent() {
    let (mut engine, reader, _watcher) =
        PTYProcess::new(LocalHandle(11), LocalHandle(12), false, false, None);
    engine.set_process(LocalHandle(13), true, 5);
    run_reader_to_its_end(&reader);
    let _ = drive_teardown(&mut engine, 7);
    assert_eq!(engine.phase(), Phase::Closed);
    for _ in 0..5 {
        assert_eq!(engine.teardown(), TeardownRequest::Done);
        assert_eq!(engine.phase(), Phase::Closed);
    }
    assert_eq!(engine.is_eof(Some(4), Ok(true)).unwrap(), true);
}

#[test]
fn teardown_of_an_async_engine_leaves_output_and_process_alone() {
    let (mut engine, reader, _watcher) =
        PTYProcess::new(LocalHandle(21), LocalHandle(21), true, true, None);
    engine.set_process(LocalHandle(23), false, 5);
    run_reader_to_its_end(&reader);
    let requests = drive_teardown(&mut engine, 6);
    assert_eq!(
        requests,
        vec![
            TeardownRequest::CheckReady,
            TeardownRequest::CheckAlive,
            TeardownRequest::JoinReader,
            TeardownRequest::Close(LocalHandle(21)),
            TeardownRequest::JoinWatcher,
            TeardownRequest::Done,
        ]
    );
}

#[test]
fn teardown_skips_invalid_handles() {
    let (mut engine, reader, _watcher) =
        PTYProcess::new(LocalHandle(-1), LocalHandle(0), false, false, None);
    engine.set_process(LocalHandle(0), true, 0);
    run_reader_to_its_end(&reader);
    let requests = drive_teardown(&mut engine, 4);
    assert_eq!(
        requests,
        vec![
            TeardownRequest::CheckReady,
            TeardownRequest::CheckAlive,
            TeardownRequest::JoinReader,
            TeardownRequest::Done,
        ]
    );
}

#[test]
fn teardown_releases_a_reader_that_waits_for_its_process() {
    let (mut engine, reader, _watcher) =
        PTYProcess::new(LocalHandle(11), LocalHandle(12), false, false, None);
    assert_eq!(engine.teardown(), TeardownRequest::CheckReady);
    assert_eq!(engine.teardown(), TeardownRequest::CheckReady);
    assert_eq!(engine.teardown(), TeardownRequest::CheckReady);
    // The reader finds the empty hand-off and ends without a loop.
    assert_eq!(reader.await_process(), None);
    assert_eq!(engine.teardown(), TeardownRequest::CheckAlive);
    assert_eq!(engine.teardown(), TeardownRequest::JoinReader);
    assert_eq!(engine.teardown(), TeardownRequest::Close(LocalHandle(11)));
    assert_eq!(engine.teardown(), TeardownRequest::Close(LocalHandle(12)));
    assert_eq!(engine.teardown(), TeardownRequest::Done);
}

#[test]
fn teardown_cancels_reads_until_the_reader_has_stopped() {
    let (mut engine, reader, _watcher) =
        PTYProcess::new(LocalHandle(11), LocalHandle(12), false, false, None);
    engine.set_process(LocalHandle(13), true, 5);
    assert!(reader.await_process().is_some());
    assert_eq!(reader.begin(), ReaderRequest::ProbeEnd);
    assert_eq!(engine.teardown(), TeardownRequest::CheckReady);
    assert_eq!(engine.teardown(), TeardownRequest::CheckAlive);
    assert_eq!(engine.teardown(), TeardownRequest::CancelReads(LocalHandle(12)));
    assert_eq!(engine.teardown(), TeardownRequest::CheckAlive);
    assert_eq!(engine.teardown(), TeardownRequest::CancelReads(LocalHandle(12)));
    assert_eq!(engine.teardown(), TeardownRequest::CheckAlive);
    // The cancelled read comes back, and the reader finds the word to stop.
    assert_eq!(reader.completed(Ok((wide_text("x"), true))), ReaderRequest::Stop);
    assert_eq!(engine.teardown(), TeardownRequest::JoinReader);
}

#[test]
fn teardown_never_asks_to_close_a_handle_twice() {
    for reader_ends_at in [0usize, 1, 2, 3, 5, 8, 13] {
        let (mut engine, reader, _watcher) =
            PTYProcess::new(LocalHandle(11), LocalHandle(12), false, false, None);
        engine.set_process(LocalHandle(13), true, 5);
        let mut closed: Vec<LocalHandle> = Vec::new();
        for step in 0..40 {
            if step == reader_ends_at {
                run_reader_to_its_end(&reader);
            }
            if let TeardownRequest::Close(handle) = engine.teardown() {
                assert!(!closed.contains(&handle));
                closed.push(handle);
            }
        }
        assert_eq!(closed, vec![LocalHandle(11), LocalHandle(12), LocalHandle(13)]);
        assert_eq!(engine.phase(), Phase::Closed);
    }
}
