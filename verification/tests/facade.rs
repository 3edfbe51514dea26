use winptyrs::pty::base::{LocalHandle, TeardownRequest};
use winptyrs::pty::reading::ReaderLink;
use winptyrs::pty::conpty::{ConPTY, ConPtySetup, SetupRequest};
use winptyrs::pty::error::{ErrorKind, OsFault};
use winptyrs::pty::select_backend;
use winptyrs::pty::winpty::{WinPTY, WinPtySetup};
use winptyrs::pty::writing::WriteRequest;
use winptyrs::{AgentConfig, MouseMode, PTYArgs, PTYBackend, PTY};

fn session_args(cols: i32, rows: i32) -> PTYArgs {
    PTYArgs {
        cols,
        rows,
        mouse_mode: MouseMode::WINPTY_MOUSE_MODE_NONE,
        timeout: 10000,
        agent_config: AgentConfig::WINPTY_FLAG_COLOR_ESCAPES(),
    }
}

fn quiet() -> OsFault {
    OsFault { code: 0, message: String::new() }
}

fn console_session() -> PTY {
    let (mut setup, mut request) = ConPtySetup::begin(&session_args(80, 25)).unwrap();
    loop {
        match request {
            SetupRequest::Ready => break,
            SetupRequest::Fail { .. } => panic!("the handshake failed"),
            _ => request = setup.advance(Ok(55)),
        }
    }
    PTY::ConPTY(ConPTY::new(setup).unwrap().session)
}

fn agent_backed_session() -> (PTY, ReaderLink) {
    let (mut setup, _) = WinPtySetup::begin(&session_args(80, 25));
    for value in [0, 0, 1, 2, 3] {
        let _ = setup.advance(Ok(value));
    }
    let parts = WinPTY::new(setup).unwrap();
    (PTY::WinPTY(parts.session), parts.reader)
}

#[test]
fn geometry_is_valid_iff_both_sides_are_positive() {
    for cols in [-80, -1, 0, 1, 80, i32::MAX, i32::MIN] {
        for rows in [-25, -1, 0, 1, 25, i32::MAX, i32::MIN] {
            let args = session_args(cols, rows);
            assert_eq!(args.validate().is_ok(), cols > 0 && rows > 0);
            assert_eq!(ConPtySetup::begin(&args).is_ok(), cols > 0 && rows > 0);
        }
    }
}

#[test]
fn mouse_mode_numbers() {
    assert_eq!(MouseMode::WINPTY_MOUSE_MODE_NONE.to_i32(), Some(0));
    assert_eq!(MouseMode::WINPTY_MOUSE_MODE_AUTO.to_i32(), Some(1));
    assert_eq!(MouseMode::WINPTY_MOUSE_MODE_FORCE.to_i32(), Some(2));
    assert_eq!(MouseMode::from_i32(0), Some(MouseMode::WINPTY_MOUSE_MODE_NONE));
    assert_eq!(MouseMode::from_i32(1), Some(MouseMode::WINPTY_MOUSE_MODE_AUTO));
    assert_eq!(MouseMode::from_i32(2), Some(MouseMode::WINPTY_MOUSE_MODE_FORCE));
    assert_eq!(MouseMode::from_i32(3), None);
    assert_eq!(MouseMode::from_i32(-1), None);
}

#[test]
fn agent_flags() {
    assert_eq!(AgentConfig::WINPTY_FLAG_CONERR().bits(), 1);
    assert_eq!(AgentConfig::WINPTY_FLAG_PLAIN_OUTPUT().bits(), 2);
    assert_eq!(AgentConfig::WINPTY_FLAG_COLOR_ESCAPES().bits(), 4);
    assert_eq!(AgentConfig::WINPTY_FLAG_ALLOW_CURPROC_DESKTOP_CREATION().bits(), 8);
    assert_eq!(AgentConfig::empty().bits(), 0);
    let both = AgentConfig::WINPTY_FLAG_CONERR().union(AgentConfig::WINPTY_FLAG_COLOR_ESCAPES());
    assert_eq!(both.bits(), 5);
    assert_eq!(both, AgentConfig::from_bits(5));
    assert!(both.contains(AgentConfig::WINPTY_FLAG_CONERR()));
    assert!(both.contains(AgentConfig::WINPTY_FLAG_COLOR_ESCAPES()));
    assert!(!both.contains(AgentConfig::WINPTY_FLAG_PLAIN_OUTPUT()));
    assert!(both.contains(AgentConfig::empty()));
}

#[test]
fn backend_selection() {
    assert_eq!(select_backend(PTYBackend::ConPTY, true, false).unwrap(), PTYBackend::ConPTY);
    assert_eq!(select_backend(PTYBackend::WinPTY, false, true).unwrap(), PTYBackend::WinPTY);
    assert_eq!(select_backend(PTYBackend::Auto, true, true).unwrap(), PTYBackend::ConPTY);
    assert_eq!(select_backend(PTYBackend::Auto, false, true).unwrap(), PTYBackend::WinPTY);
    assert_eq!(select_backend(PTYBackend::Auto, true, false).unwrap(), PTYBackend::ConPTY);
}

#[test]
fn backend_refusals() {
    let e = select_backend(PTYBackend::ConPTY, false, true).unwrap_err();
    assert_eq!(e.kind, ErrorKind::InvalidConfiguration);
    assert_eq!(e.message, "pty_rs was compiled without ConPTY enabled");
    let e = select_backend(PTYBackend::WinPTY, true, false).unwrap_err();
    assert_eq!(e.kind, ErrorKind::InvalidConfiguration);
    assert_eq!(e.message, "winpty_rs was compiled without WinPTY enabled");
    assert!(select_backend(PTYBackend::Auto, false, false).is_err());
    assert!(select_backend(PTYBackend::NoBackend, true, true).is_err());
}

#[test]
fn session_dispatches_to_its_backend() {
    let mut console = console_session();
    assert_eq!(console.backend(), PTYBackend::ConPTY);
    assert_eq!(console.get_pid(), 0);
    assert_eq!(console.get_fd(), 0);
    assert_eq!(console.read(false).unwrap(), Vec::<u16>::new());
    assert_eq!(console.is_alive(258, quiet()).unwrap(), true);
    assert_eq!(console.wait_for_exit(0, quiet()).unwrap(), true);
    assert_eq!(console.get_exitstatus(Ok(0)).unwrap(), None);
    assert_eq!(console.writer().asynchronous, true);
    let (mut agent, _reader) = agent_backed_session();
    assert_eq!(agent.backend(), PTYBackend::WinPTY);
    assert_eq!(agent.read(false).unwrap(), Vec::<u16>::new());
    assert_eq!(agent.writer().asynchronous, false);
    let mut writer = agent.writer();
    let (_, request) = agent.write(&mut writer, 0);
    assert!(matches!(request, WriteRequest::Finish(Ok(0))));
}

#[test]
fn session_is_over_once_torn_down() {
    let (mut agent, reader) = agent_backed_session();
    assert_eq!(agent.is_eof(Some(4), Ok(true)).unwrap(), false);
    assert_eq!(agent.teardown(), TeardownRequest::CheckReady);
    assert_eq!(agent.teardown(), TeardownRequest::CheckReady);
    assert_eq!(reader.await_process(), None);
    let mut closed = Vec::new();
    loop {
        match agent.teardown() {
            TeardownRequest::Done => break,
            TeardownRequest::Close(handle) => closed.push(handle),
            _ => {}
        }
    }
    assert_eq!(closed, vec![LocalHandle(2), LocalHandle(3)]);
    assert_eq!(agent.is_eof(Some(4), Ok(true)).unwrap(), true);
    assert_eq!(agent.teardown(), TeardownRequest::Done);
}
