use winptyrs::pty::base::{LocalHandle, TeardownRequest};
use winptyrs::pty::conpty::{
    compose_spawn, decide_cleanup, to_coord, ConPTY, ConPtyParts, ConPtySetup, ConsoleGuard, Coord,
    ReleaseInfo, ReleaseRequest, Resize, SetupRequest, SetupStage, SpawnRequest, StdStream,
    CREATE_UNICODE_ENVIRONMENT, ENABLE_VIRTUAL_TERMINAL_PROCESSING, EXTENDED_STARTUPINFO_PRESENT,
    PIPE_BUFFER_SIZE, PIPE_TIMEOUT, PROC_THREAD_ATTRIBUTE_PSEUDOCONSOLE,
};
use winptyrs::pty::error::{ErrorKind, Operation, OsFault};
use winptyrs::pty::reading::ReaderRequest;
use winptyrs::{AgentConfig, MouseMode, PTYArgs};

fn args_of(cols: i32, rows: i32) -> PTYArgs {
    PTYArgs {
        cols,
        rows,
        mouse_mode: MouseMode::WINPTY_MOUSE_MODE_NONE,
        timeout: 10000,
        agent_config: AgentConfig::WINPTY_FLAG_COLOR_ESCAPES(),
    }
}

fn os_fault(text: &str) -> OsFault {
    OsFault { code: -2147024891, message: String::from(text) }
}

fn wide_chars(text: &str) -> Vec<u16> {
    text.encode_utf16().collect()
}

/// Answers every request of the handshake with success: handles are numbered
/// from 100 in the order in which they are made, the console mode is 3, and
/// the pseudo-console is 9000.
fn run_handshake(cols: i32, rows: i32, allocate: bool) -> (ConPtySetup, Vec<String>) {
    let (mut setup, mut request) = ConPtySetup::begin(&args_of(cols, rows)).unwrap();
    let mut log = Vec::new();
    let mut next_handle: isize = 100;
    loop {
        log.push(format!("{:?}", request));
        let outcome: Result<isize, OsFault> = match request {
            SetupRequest::AllocConsole => {
                if allocate {
                    Ok(0)
                } else {
                    Err(os_fault("Access is denied."))
                }
            }
            SetupRequest::GetConsoleMode { .. } => Ok(3),
            SetupRequest::CreatePseudoConsole { .. } => Ok(9000),
            SetupRequest::OpenConsoleOutput
            | SetupRequest::OpenConsoleInput
            | SetupRequest::OpenPipeDirectory
            | SetupRequest::CreateServerPipe { .. }
            | SetupRequest::OpenClientPipe { .. }
            | SetupRequest::Duplicate { .. } => {
                next_handle += 1;
                Ok(next_handle)
            }
            SetupRequest::Ready | SetupRequest::Fail { .. } => return (setup, log),
            _ => Ok(0),
        };
        request = setup.advance(outcome);
    }
}

fn built_session() -> ConPtyParts {
    let (setup, _) = run_handshake(80, 25, true);
    ConPTY::new(setup).unwrap()
}

fn spawned_session() -> ConPtyParts {
    let mut parts = built_session();
    let _ = parts.session.spawn(&wide_chars("cmd.exe"), None, None, None);
    let _ = parts.session.spawn_step(Ok((48, 0)));
    let _ = parts.session.spawn_step(Ok((0, 0)));
    let _ = parts.session.spawn_step(Ok((0, 0)));
    let _ = parts.session.spawn_step(Ok((700, 701)));
    let _ = parts.session.spawn_step(Ok((4321, 0)));
    parts
}

#[test]
fn handshake_is_refused_for_bad_geometry() {
    for (cols, rows) in [(0, 25), (80, 0), (0, 0), (-1, 25), (80, -25), (i32::MIN, 1)] {
        let e = ConPtySetup::begin(&args_of(cols, rows)).unwrap_err();
        assert_eq!(e.kind, ErrorKind::InvalidConfiguration);
    }
    assert!(ConPtySetup::begin(&args_of(1, 1)).is_ok());
    assert!(ConPtySetup::begin(&args_of(80, 25)).is_ok());
    assert!(ConPtySetup::begin(&args_of(i32::MAX, i32::MAX)).is_ok());
}

#[test]
fn handshake_runs_its_steps_in_order() {
    let (setup, log) = run_handshake(80, 25, true);
    assert_eq!(setup.stage, SetupStage::Ready);
    let expected = vec![
        "AllocConsole",
        "HideConsoleWindow",
        "OpenConsoleOutput",
        "OpenConsoleInput",
        "GetConsoleMode { console: LocalHandle(101) }",
        "SetConsoleMode { console: LocalHandle(101), mode: 7 }",
        "SetStdHandle { stream: Output, handle: LocalHandle(101) }",
        "SetStdHandle { stream: Error, handle: LocalHandle(101) }",
        "SetStdHandle { stream: Input, handle: LocalHandle(102) }",
        "OpenPipeDirectory",
        "CreateServerPipe { directory: LocalHandle(103) }",
        "OpenClientPipe { server: LocalHandle(104) }",
        "Duplicate { source: LocalHandle(105) }",
        "Duplicate { source: LocalHandle(105) }",
        "CreatePseudoConsole { size: Coord { x: 80, y: 25 }, input: LocalHandle(106), output: LocalHandle(107) }",
        "HidePseudoConsole { pseudo: 9000 }",
        "Close(LocalHandle(106))",
        "Close(LocalHandle(107))",
        "Close(LocalHandle(103))",
        "Ready",
    ];
    assert_eq!(log, expected);
    assert!(setup.console_allocated);
    assert_eq!(setup.server_pipe, LocalHandle(104));
    assert_eq!(setup.console, 9000);
}

#[test]
fn handshake_goes_on_without_a_console_of_its_own() {
    let (setup, log) = run_handshake(80, 25, false);
    assert_eq!(setup.stage, SetupStage::Ready);
    assert!(!setup.console_allocated);
    assert_eq!(log[0], "AllocConsole");
    assert_eq!(log[1], "OpenConsoleOutput");
    assert_eq!(log.len(), 19);
}

#[test]
fn handshake_fails_where_a_required_call_fails() {
    let (mut setup, _) = ConPtySetup::begin(&args_of(80, 25)).unwrap();
    let _ = setup.advance(Ok(0));
    let _ = setup.advance(Ok(0));
    match setup.advance(Err(os_fault("The system cannot find the file specified."))) {
        SetupRequest::Fail { error, close } => {
            assert_eq!(error.kind, ErrorKind::OsFailure);
            assert_eq!(error.operation, Some(Operation::CreateFile));
            assert_eq!(error.message, "The system cannot find the file specified.");
            assert_eq!(close, None);
        }
        other => panic!("unexpected request: {:?}", other),
    }
    assert_eq!(setup.stage, SetupStage::Failed);
    assert!(matches!(setup.advance(Ok(0)), SetupRequest::Fail { .. }));
    assert!(ConPTY::new(setup).is_err());
}

#[test]
fn failing_handshake_gives_back_the_pipe_directory() {
    let (mut setup, mut request) = ConPtySetup::begin(&args_of(80, 25)).unwrap();
    let mut handle: isize = 200;
    loop {
        let outcome = match request {
            SetupRequest::CreatePseudoConsole { .. } => Err(os_fault("no console")),
            SetupRequest::Fail { error, close } => {
                assert_eq!(error.operation, Some(Operation::CreatePseudoConsole));
                assert_eq!(error.message, "no console");
                assert_eq!(close, Some(LocalHandle(203)));
                break;
            }
            SetupRequest::Ready => panic!("the handshake must fail"),
            SetupRequest::OpenConsoleOutput
            | SetupRequest::OpenConsoleInput
            | SetupRequest::OpenPipeDirectory
            | SetupRequest::CreateServerPipe { .. }
            | SetupRequest::OpenClientPipe { .. }
            | SetupRequest::Duplicate { .. } => {
                handle += 1;
                Ok(handle)
            }
            _ => Ok(0),
        };
        request = setup.advance(outcome);
    }
}

#[test]
fn console_mode_gains_the_escape_bit() {
    assert_eq!(ENABLE_VIRTUAL_TERMINAL_PROCESSING, 4);
    let (mut setup, _) = ConPtySetup::begin(&args_of(80, 25)).unwrap();
    let _ = setup.advance(Err(os_fault("has one")));
    let _ = setup.advance(Ok(31));
    let _ = setup.advance(Ok(32));
    match setup.advance(Ok(0x1f3)) {
        SetupRequest::SetConsoleMode { console, mode } => {
            assert_eq!(console, LocalHandle(31));
            assert_eq!(mode, 0x1f7);
        }
        other => panic!("unexpected request: {:?}", other),
    }
    match setup.advance(Ok(0)) {
        SetupRequest::SetStdHandle { stream, handle } => {
            assert_eq!(stream, StdStream::Output);
            assert_eq!(handle, LocalHandle(31));
        }
        other => panic!("unexpected request: {:?}", other),
    }
}

#[test]
fn pipe_parameters() {
    assert_eq!(PIPE_BUFFER_SIZE, 128 * 1024);
    assert_eq!(PIPE_TIMEOUT, -10_0000_0000);
}

#[test]
fn coordinates_of_a_geometry() {
    assert_eq!(to_coord(80, 25), Coord { x: 80, y: 25 });
    assert_eq!(to_coord(90, 30), Coord { x: 90, y: 30 });
    assert_eq!(to_coord(1, 1), Coord { x: 1, y: 1 });
    assert_eq!(to_coord(32767, 32767), Coord { x: 32767, y: 32767 });
}

#[test]
fn session_of_a_completed_handshake() {
    let parts = built_session();
    assert_eq!(parts.session.get_pid(), 0);
    assert_eq!(parts.session.get_fd(), 0);
    assert_eq!(parts.session.stream(), LocalHandle(104));
    assert_eq!(parts.guard, ConsoleGuard { console: 9000, open: true });
    assert!(parts.reader.is_async());
    assert!(parts.reader.reads_pipe());
    assert_eq!(parts.reader.output_stream(), LocalHandle(104));
    assert_eq!(parts.watcher.unwrap().output_stream(), LocalHandle(104));
}

#[test]
fn session_needs_a_completed_handshake() {
    let (setup, _) = ConPtySetup::begin(&args_of(80, 25)).unwrap();
    let e = ConPTY::new(setup).err().unwrap();
    assert_eq!(e.kind, ErrorKind::InternalInvariant);
}

#[test]
fn session_needs_a_valid_geometry() {
    let (complete, _) = run_handshake(80, 25, true);
    for (cols, rows) in [(0, -5), (0, 25), (80, 0), (-1, -1)] {
        let mut forged = complete;
        forged.cols = cols;
        forged.rows = rows;
        let e = ConPTY::new(forged).err().unwrap();
        assert_eq!(e.kind, ErrorKind::InvalidConfiguration);
    }
    assert!(ConPTY::new(complete).is_ok());
}

#[test]
fn spawn_runs_its_steps_in_order() {
    let mut parts = built_session();
    let app = wide_chars("C:\\Windows\\System32\\cmd.exe");
    let args = wide_chars("/c echo test");
    let cwd = wide_chars("C:\\");
    let env = wide_chars("A=1\0B=2\0");
    assert!(matches!(
        parts.session.spawn(&app, Some(&args), Some(&cwd), Some(&env)),
        SpawnRequest::QueryAttributeSize
    ));
    assert!(matches!(
        parts.session.spawn_step(Ok((48, 0))),
        SpawnRequest::InitAttributes { size: 48 }
    ));
    match parts.session.spawn_step(Ok((0, 0))) {
        SpawnRequest::AttachConsole { attribute, console } => {
            assert_eq!(attribute, 0x00020016);
            assert_eq!(attribute, PROC_THREAD_ATTRIBUTE_PSEUDOCONSOLE);
            assert_eq!(console, 9000);
        }
        other => panic!("unexpected request: {:?}", other),
    }
    match parts.session.spawn_step(Ok((0, 0))) {
        SpawnRequest::CreateProcess { flags, buffers } => {
            assert_eq!(flags, 0x00080400);
            assert_eq!(flags, EXTENDED_STARTUPINFO_PRESENT | CREATE_UNICODE_ENVIRONMENT);
            assert_eq!(
                buffers.command_line,
                wide_chars("C:\\Windows\\System32\\cmd.exe /c echo test\0")
            );
            assert_eq!(buffers.working_dir, Some(wide_chars("C:\\\0")));
            assert_eq!(buffers.environment, Some(wide_chars("A=1\0B=2\0\0")));
        }
        other => panic!("unexpected request: {:?}", other),
    }
    match parts.session.spawn_step(Ok((700, 701))) {
        SpawnRequest::Identify { process } => assert_eq!(process, LocalHandle(700)),
        other => panic!("unexpected request: {:?}", other),
    }
    assert!(matches!(parts.session.spawn_step(Ok((4321, 0))), SpawnRequest::Finish(Ok(true))));
    assert_eq!(parts.session.get_pid(), 4321);
    assert_eq!(parts.session.get_fd(), 700);
    assert_eq!(parts.session.process_handle(), LocalHandle(700));
    assert_eq!(parts.reader.await_process(), Some(LocalHandle(700)));
    assert_eq!(parts.reader.begin(), ReaderRequest::Read);
}

#[test]
fn spawn_step_without_a_spawn_is_refused() {
    let mut parts = built_session();
    match parts.session.spawn_step(Ok((0, 0))) {
        SpawnRequest::Finish(Err(e)) => assert_eq!(e.kind, ErrorKind::InternalInvariant),
        other => panic!("unexpected request: {:?}", other),
    }
}

#[test]
fn spawn_of_a_missing_program_is_a_spawn_failure() {
    let mut parts = built_session();
    let _ = parts.session.spawn(&wide_chars("cmd.exe"), None, None, None);
    let _ = parts.session.spawn_step(Ok((48, 0)));
    let _ = parts.session.spawn_step(Ok((0, 0)));
    let _ = parts.session.spawn_step(Ok((0, 0)));
    match parts.session.spawn_step(Err(os_fault("The system cannot find the file specified."))) {
        SpawnRequest::Finish(Err(e)) => {
            assert_eq!(e.kind, ErrorKind::ChildSpawnFailure);
            assert_eq!(e.operation, Some(Operation::CreateProcess));
            assert_eq!(e.message, "The system cannot find the file specified.");
        }
        other => panic!("unexpected request: {:?}", other),
    }
    assert_eq!(parts.session.get_pid(), 0);
    assert_eq!(parts.session.get_fd(), 0);
}

#[test]
fn spawn_fails_where_the_attribute_list_fails() {
    let mut parts = built_session();
    let _ = parts.session.spawn(&wide_chars("cmd.exe"), None, None, None);
    let _ = parts.session.spawn_step(Ok((48, 0)));
    match parts.session.spawn_step(Err(os_fault("bad list"))) {
        SpawnRequest::Finish(Err(e)) => {
            assert_eq!(e.kind, ErrorKind::OsFailure);
            assert_eq!(e.operation, Some(Operation::InitializeProcThreadAttributeList));
        }
        other => panic!("unexpected request: {:?}", other),
    }
    match parts.session.spawn_step(Ok((0, 0))) {
        SpawnRequest::Finish(Err(e)) => assert_eq!(e.kind, ErrorKind::InternalInvariant),
        other => panic!("unexpected request: {:?}", other),
    }
}

#[test]
fn spawn_buffers() {
    let app = wide_chars("C:\\Windows\\System32\\cmd.exe");
    let args = wide_chars("/c echo test");
    let cwd = wide_chars("C:\\");
    let env = wide_chars("A=1\0B=2\0");
    let buffers = compose_spawn(&app, Some(&args), Some(&cwd), Some(&env));
    assert_eq!(buffers.command_line, wide_chars("C:\\Windows\\System32\\cmd.exe /c echo test\0"));
    assert_eq!(buffers.working_dir, Some(wide_chars("C:\\\0")));
    assert_eq!(buffers.environment, Some(wide_chars("A=1\0B=2\0\0")));
    let buffers = compose_spawn(&app, None, None, None);
    assert_eq!(buffers.command_line, wide_chars("C:\\Windows\\System32\\cmd.exe\0"));
    assert_eq!(buffers.working_dir, None);
    assert_eq!(buffers.environment, None);
}

#[test]
fn resize_checks_the_geometry() {
    let parts = built_session();
    let guard = parts.guard;
    assert_eq!(
        parts.session.set_size(&guard, 90, 30).unwrap(),
        Resize { console: 9000, size: Coord { x: 90, y: 30 } }
    );
    let e = parts.session.set_size(&guard, 0, 30).unwrap_err();
    assert_eq!(e.kind, ErrorKind::InvalidConfiguration);
    assert_eq!(e.message, "PTY cols and rows must be positive and non-zero. Got: (0, 30)");
    assert!(parts.session.set_size(&guard, 90, -1).is_err());
    assert!(ConPTY::resized(Ok(())).is_ok());
    let e = ConPTY::resized(Err(os_fault("The handle is invalid."))).unwrap_err();
    assert_eq!(e.kind, ErrorKind::OsFailure);
    assert_eq!(e.operation, Some(Operation::ResizePseudoConsole));
}

#[test]
fn resize_is_refused_for_sides_that_do_not_fit() {
    let parts = built_session();
    let guard = parts.guard;
    assert_eq!(
        parts.session.set_size(&guard, 32767, 32767).unwrap().size,
        Coord { x: 32767, y: 32767 }
    );
    let e = parts.session.set_size(&guard, 65626, 30).unwrap_err();
    assert_eq!(e.kind, ErrorKind::InvalidConfiguration);
    assert_eq!(e.message, "PTY cols and rows must not exceed 32767. Got: (65626, 30)");
    assert!(parts.session.set_size(&guard, 32768, 30).is_err());
    assert!(parts.session.set_size(&guard, 90, 32768).is_err());
    assert!(parts.session.set_size(&guard, 90, 65537).is_err());
    assert!(parts.session.set_size(&guard, i32::MAX, i32::MAX).is_err());
}

#[test]
fn resize_after_the_console_was_closed_fails() {
    let parts = built_session();
    let mut guard = parts.guard;
    assert!(parts.session.set_size(&guard, 90, 30).is_ok());
    assert_eq!(guard.claim_close(), Some(9000));
    let e = parts.session.set_size(&guard, 90, 30).unwrap_err();
    assert_eq!(e.kind, ErrorKind::OsFailure);
    assert_eq!(e.operation, Some(Operation::ResizePseudoConsole));
    assert_eq!(e.message, "The pseudo-console has been closed");
    let e = parts.session.set_size(&guard, 0, 30).unwrap_err();
    assert_eq!(e.kind, ErrorKind::InvalidConfiguration);
}

#[test]
fn console_is_claimed_once() {
    let mut guard = ConsoleGuard::new(77);
    assert_eq!(guard.claim_close(), Some(77));
    assert_eq!(guard.claim_close(), None);
    assert_eq!(guard.claim_close(), None);
    assert_eq!(guard, ConsoleGuard { console: 77, open: false });
}

#[test]
fn release_plan_before_a_spawn() {
    let mut parts = built_session();
    assert_eq!(
        parts.session.release(),
        vec![ReleaseRequest::CloseConsole, ReleaseRequest::FreeConsole]
    );
    assert_eq!(parts.session.release(), Vec::<ReleaseRequest>::new());
}

#[test]
fn release_plan_after_a_spawn() {
    let mut parts = spawned_session();
    assert_eq!(
        parts.session.release(),
        vec![
            ReleaseRequest::Close(LocalHandle(701)),
            ReleaseRequest::Close(LocalHandle(700)),
            ReleaseRequest::DeleteAttributes,
            ReleaseRequest::CloseConsole,
            ReleaseRequest::FreeConsole,
        ]
    );
    assert_eq!(parts.session.release(), Vec::<ReleaseRequest>::new());
}

#[test]
fn release_and_teardown_close_each_handle_once() {
    let mut parts = spawned_session();
    let mut closed: Vec<LocalHandle> = Vec::new();
    for request in parts.session.release() {
        if let ReleaseRequest::Close(handle) = request {
            closed.push(handle);
        }
    }
    assert!(parts.reader.await_process().is_some());
    assert_eq!(parts.reader.completed(Ok((Vec::new(), false))), ReaderRequest::Stop);
    let mut last = TeardownRequest::CheckReady;
    for _ in 0..8 {
        last = parts.session.teardown();
        if let TeardownRequest::Close(handle) = last {
            closed.push(handle);
        }
    }
    assert_eq!(last, TeardownRequest::Done);
    assert_eq!(closed, vec![LocalHandle(701), LocalHandle(700), LocalHandle(104)]);
}

#[test]
fn cleanup_waits_for_the_exit_of_the_child() {
    let parts = spawned_session();
    parts.watcher.as_ref().unwrap().signal_exit();
    let order = parts.cleanup.await_order();
    assert_eq!(
        order,
        Some(ReleaseInfo { process: LocalHandle(700), thread: LocalHandle(701), console: 9000 })
    );
}

#[test]
fn cleanup_is_called_off_by_a_release() {
    let mut parts = spawned_session();
    let _ = parts.session.release();
    assert_eq!(parts.cleanup.await_order(), None);
}

#[test]
fn cleanup_without_a_spawn_does_nothing() {
    let parts = built_session();
    let ConPtyParts { session, cleanup, .. } = parts;
    drop(session);
    assert_eq!(cleanup.await_order(), None);
}

#[test]
fn cleanup_verdicts() {
    let info = ReleaseInfo { process: LocalHandle(1), thread: LocalHandle(2), console: 3 };
    assert_eq!(decide_cleanup(Some(info), Some(true)), Some(info));
    assert_eq!(decide_cleanup(Some(info), Some(false)), None);
    assert_eq!(decide_cleanup(Some(info), None), None);
    assert_eq!(decide_cleanup(None, Some(true)), None);
}
