use winptyrs::pty::base::{LocalHandle, PTYProcess};
use winptyrs::pty::error::{ErrorKind, Operation, OsFault};
use winptyrs::pty::writing::{WriteOp, WriteRequest, WriteStage, Writer};

fn write_fault(code: i32, text: &str) -> OsFault {
    OsFault { code, message: String::from(text) }
}

fn pending_fault() -> OsFault {
    write_fault(-2147023899, "Overlapped I/O operation is in progress.")
}

fn submitted_range(request: &WriteRequest) -> (usize, usize) {
    match request {
        WriteRequest::Submit { start, end } => (*start, *end),
        other => panic!("no chunk was handed over: {:?}", other),
    }
}

fn finished_count(request: &WriteRequest) -> u32 {
    match request {
        WriteRequest::Finish(Ok(count)) => *count,
        other => panic!("the write has not ended with a count: {:?}", other),
    }
}

fn run_sync(len: usize) -> (Vec<(usize, usize)>, u32) {
    let mut writer = Writer::new(false);
    let (mut op, mut request) = writer.begin(len);
    let mut ranges = Vec::new();
    loop {
        match request {
            WriteRequest::Submit { start, end } => {
                ranges.push((start, end));
                request = writer.submitted(&mut op, Ok((end - start) as u32));
            }
            WriteRequest::Finish(Ok(count)) => return (ranges, count),
            other => panic!("unexpected request: {:?}", other),
        }
    }
}

#[test]
fn empty_write_returns_zero() {
    let mut writer = Writer::new(false);
    let (op, request) = writer.begin(0);
    assert_eq!(finished_count(&request), 0);
    assert_eq!(op.stage, WriteStage::Finished);
    let mut writer = Writer { asynchronous: true, pending: true };
    let (_, request) = writer.begin(0);
    assert_eq!(finished_count(&request), 0);
    assert!(writer.pending);
}

#[test]
fn short_write_is_one_chunk() {
    let (ranges, count) = run_sync(11);
    assert_eq!(ranges, vec![(0, 11)]);
    assert_eq!(count, 11);
}

#[test]
fn write_of_exactly_one_chunk() {
    let (ranges, count) = run_sync(8192);
    assert_eq!(ranges, vec![(0, 8192)]);
    assert_eq!(count, 8192);
}

#[test]
fn long_write_goes_out_in_chunks_of_8192() {
    let (ranges, count) = run_sync(20000);
    assert_eq!(ranges, vec![(0, 8192), (8192, 16384), (16384, 20000)]);
    assert_eq!(count, 20000);
    let (ranges, _) = run_sync(8193);
    assert_eq!(ranges, vec![(0, 8192), (8192, 8193)]);
}

#[test]
fn chunks_tile_the_buffer() {
    for len in [1usize, 100, 8191, 8192, 8193, 16384, 16385, 50000, 100000] {
        let (ranges, count) = run_sync(len);
        let mut at = 0;
        for (start, end) in ranges {
            assert_eq!(start, at);
            assert!(end > start);
            assert!(end - start <= 8192);
            at = end;
        }
        assert_eq!(at, len);
        assert_eq!(count as usize, len);
    }
}

#[test]
fn sync_write_counts_what_the_system_reports() {
    let mut writer = Writer::new(false);
    let (mut op, request) = writer.begin(10000);
    assert_eq!(submitted_range(&request), (0, 8192));
    let request = writer.submitted(&mut op, Ok(8000));
    assert_eq!(submitted_range(&request), (8192, 10000));
    let request = writer.submitted(&mut op, Ok(1000));
    assert_eq!(finished_count(&request), 9000);
}

#[test]
fn sync_write_fails_on_a_fault() {
    let mut writer = Writer::new(false);
    let (mut op, _) = writer.begin(10000);
    let request = writer.submitted(&mut op, Err(write_fault(-2147024664, "The pipe is being closed.")));
    match request {
        WriteRequest::Finish(Err(e)) => {
            assert_eq!(e.kind, ErrorKind::OsFailure);
            assert_eq!(e.operation, Some(Operation::WriteFile));
            assert_eq!(e.message, "The pipe is being closed.");
        }
        other => panic!("unexpected request: {:?}", other),
    }
    assert_eq!(op.stage, WriteStage::Finished);
}

#[test]
fn sync_write_does_not_queue() {
    let mut writer = Writer::new(false);
    let (mut op, _) = writer.begin(5);
    let request = writer.submitted(&mut op, Err(pending_fault()));
    assert!(matches!(request, WriteRequest::Finish(Err(_))));
    assert!(!writer.pending);
}

#[test]
fn async_write_that_completes_at_once_counts_its_bytes() {
    let mut writer = Writer::new(true);
    let (mut op, request) = writer.begin(100);
    assert_eq!(submitted_range(&request), (0, 100));
    let request = writer.submitted(&mut op, Ok(100));
    assert_eq!(finished_count(&request), 100);
    assert!(!writer.pending);
}

#[test]
fn async_write_in_full_returns_the_length_of_the_buffer() {
    for len in [1usize, 8192, 8193, 20000, 65536] {
        let mut writer = Writer::new(true);
        let (mut op, mut request) = writer.begin(len);
        loop {
            match request {
                WriteRequest::Submit { start, end } => {
                    request = writer.submitted(&mut op, Ok((end - start) as u32));
                }
                WriteRequest::Finish(Ok(count)) => {
                    assert_eq!(count as usize, len);
                    break;
                }
                other => panic!("unexpected request: {:?}", other),
            }
        }
        assert!(!writer.pending);
    }
}

#[test]
fn async_write_mixes_chunks_written_at_once_and_queued() {
    let mut writer = Writer::new(true);
    let (mut op, request) = writer.begin(20000);
    assert_eq!(submitted_range(&request), (0, 8192));
    let request = writer.submitted(&mut op, Ok(8192));
    assert_eq!(submitted_range(&request), (8192, 16384));
    let request = writer.submitted(&mut op, Err(pending_fault()));
    assert!(matches!(request, WriteRequest::Drain));
    let request = writer.drained(&mut op, Ok(8192));
    assert_eq!(submitted_range(&request), (16384, 20000));
    let request = writer.submitted(&mut op, Ok(3616));
    assert_eq!(finished_count(&request), 20000);
}

#[test]
fn async_write_awaits_the_queued_chunk_before_the_next() {
    let mut writer = Writer::new(true);
    let (mut op, request) = writer.begin(20000);
    assert_eq!(submitted_range(&request), (0, 8192));
    let request = writer.submitted(&mut op, Err(pending_fault()));
    assert!(matches!(request, WriteRequest::Drain));
    assert!(!writer.pending);
    assert_eq!(op.stage, WriteStage::Draining);
    let request = writer.drained(&mut op, Ok(8192));
    assert_eq!(submitted_range(&request), (8192, 16384));
    let request = writer.submitted(&mut op, Err(pending_fault()));
    assert!(matches!(request, WriteRequest::Drain));
    let request = writer.drained(&mut op, Ok(8192));
    assert_eq!(submitted_range(&request), (16384, 20000));
    let request = writer.submitted(&mut op, Err(pending_fault()));
    assert_eq!(finished_count(&request), 16384);
    assert!(writer.pending);
}

#[test]
fn next_write_drains_the_trailing_chunk_first() {
    let mut writer = Writer::new(true);
    let (mut op, _) = writer.begin(4);
    let request = writer.submitted(&mut op, Err(pending_fault()));
    assert_eq!(finished_count(&request), 0);
    assert!(writer.pending);
    let (mut op, request) = writer.begin(6);
    assert!(matches!(request, WriteRequest::Drain));
    let request = writer.drained(&mut op, Ok(4));
    assert_eq!(submitted_range(&request), (0, 6));
    let request = writer.submitted(&mut op, Ok(6));
    assert_eq!(finished_count(&request), 10);
    assert!(!writer.pending);
}

#[test]
fn failed_drain_ends_the_write() {
    let mut writer = Writer { asynchronous: true, pending: true };
    let (mut op, request) = writer.begin(6);
    assert!(matches!(request, WriteRequest::Drain));
    let request = writer.drained(&mut op, Err(write_fault(-2147024664, "The pipe is being closed.")));
    match request {
        WriteRequest::Finish(Err(e)) => {
            assert_eq!(e.kind, ErrorKind::OsFailure);
            assert_eq!(e.operation, Some(Operation::GetOverlappedResult));
            assert_eq!(e.message, "The pipe is being closed.");
        }
        other => panic!("unexpected request: {:?}", other),
    }
    assert!(!writer.pending);
}

#[test]
fn async_write_fails_on_other_faults() {
    let mut writer = Writer::new(true);
    let (mut op, _) = writer.begin(6);
    let request = writer.submitted(&mut op, Err(write_fault(-2147024787, "The pipe has been ended.")));
    assert!(matches!(request, WriteRequest::Finish(Err(_))));
    assert!(!writer.pending);
}

#[test]
fn write_events_out_of_order_are_refused() {
    let mut writer = Writer::new(false);
    let (mut op, _) = writer.begin(6);
    let request = writer.drained(&mut op, Ok(1));
    match request {
        WriteRequest::Finish(Err(e)) => assert_eq!(e.kind, ErrorKind::InternalInvariant),
        other => panic!("unexpected request: {:?}", other),
    }
    let request = writer.submitted(&mut op, Ok(1));
    assert!(matches!(request, WriteRequest::Finish(Err(_))));
    let mut done = WriteOp { len: 3, offset: 3, total: 3, stage: WriteStage::Writing };
    assert!(matches!(writer.submitted(&mut done, Ok(1)), WriteRequest::Finish(Err(_))));
}

#[test]
fn engine_gives_the_writer_of_its_mode() {
    let (engine, _reader, _watcher) =
        PTYProcess::new(LocalHandle(3), LocalHandle(3), true, true, None);
    let mut writer = engine.writer();
    assert_eq!(writer, Writer { asynchronous: true, pending: false });
    let (_, request) = engine.write(&mut writer, 9000);
    assert_eq!(submitted_range(&request), (0, 8192));
    let (engine, _reader, _watcher) =
        PTYProcess::new(LocalHandle(3), LocalHandle(4), false, false, None);
    assert_eq!(engine.writer(), Writer { asynchronous: false, pending: false });
}
