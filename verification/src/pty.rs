//! Pseudoterminal sessions: the options of a session, the engine shared by
//! both backends, and the rules of each backend.

pub mod base;
pub mod channel;
pub mod conpty;
pub mod error;
pub mod flags;
pub mod reading;
pub mod status;
pub mod text;
pub mod winpty;
pub mod writing;

use base::{
    departure, exit_status, liveness, read_transition, text_view, EngineView, ItemView, Phase,
    TeardownRequest,
};
use channel::Polled;
use conpty::ConPTY;
use error::{lifted, os_error, ErrorKind, ErrorView, Operation, OsFault, PtyError};
use text::{append_decimal, decimal};
use winpty::WinPTY;
use writing::{write_next, write_start, WriteOp, WriteRequest, Writer};
use vstd::prelude::*;
use vstd::string::StringExecFns;

verus! {

/// How the agent of the WinPTY backend reports mouse input.
#[allow(non_camel_case_types)]
#[derive(Clone, Copy, Debug, PartialEq, Eq, Structural)]
pub enum MouseMode {
    /// Mouse input is never reported.
    WINPTY_MOUSE_MODE_NONE,
    /// Mouse input is reported when the program asks for it.
    WINPTY_MOUSE_MODE_AUTO,
    /// Mouse input is always reported.
    WINPTY_MOUSE_MODE_FORCE,
}

impl MouseMode {
    /// The number the agent knows the mode by.
    pub open spec fn code(self) -> i32 {
        match self {
            MouseMode::WINPTY_MOUSE_MODE_NONE => 0,
            MouseMode::WINPTY_MOUSE_MODE_AUTO => 1,
            MouseMode::WINPTY_MOUSE_MODE_FORCE => 2,
        }
    }

    /// The number the agent knows the mode by.
    pub fn to_i32(&self) -> (r: Option<i32>)
        ensures
            r == Some(self.code()),
    {
        match self {
            MouseMode::WINPTY_MOUSE_MODE_NONE => Some(0),
            MouseMode::WINPTY_MOUSE_MODE_AUTO => Some(1),
            MouseMode::WINPTY_MOUSE_MODE_FORCE => Some(2),
        }
    }

    /// The mode that the agent knows by `code`, if there is one.
    pub fn from_i32(code: i32) -> (r: Option<MouseMode>)
        ensures
            r matches Some(mode) ==> mode.code() == code,
            r is None ==> !(0 <= code <= 2),
    {
        if code == 0 {
            Some(MouseMode::WINPTY_MOUSE_MODE_NONE)
        } else if code == 1 {
            Some(MouseMode::WINPTY_MOUSE_MODE_AUTO)
        } else if code == 2 {
            Some(MouseMode::WINPTY_MOUSE_MODE_FORCE)
        } else {
            None
        }
    }
}

/// The backends a session can run on.
#[derive(Clone, Copy, Debug, PartialEq, Eq, Structural)]
pub enum PTYBackend {
    /// The pseudo-console of the operating system.
    ConPTY,
    /// The WinPTY agent.
    WinPTY,
    /// Whichever backend is available, the pseudo-console first.
    Auto,
    /// No backend.
    NoBackend,
}

/// Flags for the agent of the WinPTY backend, as a set of bits.
#[derive(Clone, Copy, Debug, PartialEq, Eq, Structural)]
pub struct AgentConfig {
    bits: u64,
}

impl AgentConfig {
    /// The bits of the set.
    pub closed spec fn spec_bits(&self) -> u64 {
        self.bits
    }

    /// The bits of the set.
    #[verifier::when_used_as_spec(spec_bits)]
    pub fn bits(&self) -> (r: u64)
        ensures
            r == self.spec_bits(),
    {
        self.bits
    }

    /// The set with exactly the given bits.
    pub fn from_bits(bits: u64) -> (r: AgentConfig)
        ensures
            r.spec_bits() == bits,
    {
        AgentConfig { bits }
    }

    /// No flag.
    pub fn empty() -> (r: AgentConfig)
        ensures
            r.spec_bits() == 0,
    {
        AgentConfig { bits: 0 }
    }

    /// Create a separate error stream.
    #[allow(non_snake_case)]
    pub fn WINPTY_FLAG_CONERR() -> (r: AgentConfig)
        ensures
            r.spec_bits() == 1,
    {
        AgentConfig { bits: 1 }
    }

    /// Do not emit escape sequences.
    #[allow(non_snake_case)]
    pub fn WINPTY_FLAG_PLAIN_OUTPUT() -> (r: AgentConfig)
        ensures
            r.spec_bits() == 2,
    {
        AgentConfig { bits: 2 }
    }

    /// Emit colour escape sequences.
    #[allow(non_snake_case)]
    pub fn WINPTY_FLAG_COLOR_ESCAPES() -> (r: AgentConfig)
        ensures
            r.spec_bits() == 4,
    {
        AgentConfig { bits: 4 }
    }

    /// Let the agent create its console on the desktop of the caller.
    #[allow(non_snake_case)]
    pub fn WINPTY_FLAG_ALLOW_CURPROC_DESKTOP_CREATION() -> (r: AgentConfig)
        ensures
            r.spec_bits() == 8,
    {
        AgentConfig { bits: 8 }
    }

    /// The flags of both sets.
    pub fn union(self, other: AgentConfig) -> (r: AgentConfig)
        ensures
            r.spec_bits() == self.spec_bits() | other.spec_bits(),
    {
        AgentConfig { bits: self.bits | other.bits }
    }

    /// Whether every flag of `other` is in this set.
    pub fn contains(&self, other: AgentConfig) -> (r: bool)
        ensures
            r == (self.spec_bits() & other.spec_bits() == other.spec_bits()),
    {
        self.bits & other.bits == other.bits
    }
}

/// The options of a session.
#[derive(Clone, Copy, Debug)]
pub struct PTYArgs {
    /// Number of character columns.
    pub cols: i32,
    /// Number of character rows.
    pub rows: i32,
    /// Mouse reporting of the agent (WinPTY only).
    pub mouse_mode: MouseMode,
    /// Time the agent is given to start, in milliseconds (WinPTY only).
    pub timeout: u32,
    /// Flags of the agent (WinPTY only).
    pub agent_config: AgentConfig,
}

/// A geometry is valid when it has at least one column and one row.
pub open spec fn valid_geometry(cols: int, rows: int) -> bool {
    cols > 0 && rows > 0
}

/// The text that rejects a geometry.
pub open spec fn geometry_message(cols: int, rows: int) -> Seq<char> {
    "PTY cols and rows must be positive and non-zero. Got: ("@ + decimal(cols) + ", "@ + decimal(
        rows,
    ) + ")"@
}

/// The error that rejects a geometry.
pub open spec fn geometry_error(cols: int, rows: int) -> ErrorView {
    ErrorView {
        kind: ErrorKind::InvalidConfiguration,
        operation: None,
        message: geometry_message(cols, rows),
    }
}

/// What the check of a geometry gives.
pub open spec fn geometry_verdict(cols: int, rows: int) -> Result<(), ErrorView> {
    if valid_geometry(cols, rows) {
        Ok(())
    } else {
        Err(geometry_error(cols, rows))
    }
}

/// Accepts a geometry exactly when both its sides are positive; the error
/// names the geometry that was refused.
pub fn check_geometry(cols: i32, rows: i32) -> (r: Result<(), PtyError>)
    ensures
        error::lifted(r) == geometry_verdict(cols as int, rows as int),
{
    if cols <= 0 || rows <= 0 {
        let mut message = String::from_str(
            "PTY cols and rows must be positive and non-zero. Got: (",
        );
        append_decimal(&mut message, cols as i64);
        message.append(", ");
        append_decimal(&mut message, rows as i64);
        message.append(")");
        Err(PtyError { kind: ErrorKind::InvalidConfiguration, operation: None, message })
    } else {
        Ok(())
    }
}

impl PTYArgs {
    /// Whether the options name a valid geometry.
    pub open spec fn valid(&self) -> bool {
        valid_geometry(self.cols as int, self.rows as int)
    }

    /// Checks the geometry of the options.
    pub fn validate(&self) -> (r: Result<(), PtyError>)
        ensures
            error::lifted(r) == geometry_verdict(self.cols as int, self.rows as int),
            r is Ok <==> self.valid(),
    {
        check_geometry(self.cols, self.rows)
    }
}

/// The backend that serves a request, given which backends this build
/// holds: a named backend serves if it is held; an open request is served
/// by the pseudo-console if it is held, else by the agent if that is held.
pub open spec fn backend_choice(requested: PTYBackend, conpty: bool, winpty: bool) -> Option<
    PTYBackend,
> {
    match requested {
        PTYBackend::ConPTY => if conpty {
            Some(PTYBackend::ConPTY)
        } else {
            None
        },
        PTYBackend::WinPTY => if winpty {
            Some(PTYBackend::WinPTY)
        } else {
            None
        },
        PTYBackend::Auto => if conpty {
            Some(PTYBackend::ConPTY)
        } else if winpty {
            Some(PTYBackend::WinPTY)
        } else {
            None
        },
        PTYBackend::NoBackend => None,
    }
}

/// The text that refuses a backend.
pub open spec fn unavailable_message(requested: PTYBackend) -> Seq<char> {
    match requested {
        PTYBackend::ConPTY => "pty_rs was compiled without ConPTY enabled"@,
        PTYBackend::WinPTY => "winpty_rs was compiled without WinPTY enabled"@,
        _ => "no pseudoterminal backend is available"@,
    }
}

/// The error that refuses a backend.
pub open spec fn unavailable_error(requested: PTYBackend) -> ErrorView {
    ErrorView {
        kind: ErrorKind::InvalidConfiguration,
        operation: None,
        message: unavailable_message(requested),
    }
}

/// Picks the backend that serves a request, or refuses the request.
pub fn select_backend(requested: PTYBackend, conpty: bool, winpty: bool) -> (r: Result<
    PTYBackend,
    PtyError,
>)
    ensures
        lifted(r) == match backend_choice(requested, conpty, winpty) {
            Some(backend) => Ok::<PTYBackend, ErrorView>(backend),
            None => Err::<PTYBackend, ErrorView>(unavailable_error(requested)),
        },
{
    let choice = match requested {
        PTYBackend::ConPTY => if conpty {
            Some(PTYBackend::ConPTY)
        } else {
            None
        },
        PTYBackend::WinPTY => if winpty {
            Some(PTYBackend::WinPTY)
        } else {
            None
        },
        PTYBackend::Auto => if conpty {
            Some(PTYBackend::ConPTY)
        } else if winpty {
            Some(PTYBackend::WinPTY)
        } else {
            None
        },
        PTYBackend::NoBackend => None,
    };
    match choice {
        Some(backend) => Ok(backend),
        None => {
            let message = match requested {
                PTYBackend::ConPTY => String::from_str(
                    "pty_rs was compiled without ConPTY enabled",
                ),
                PTYBackend::WinPTY => String::from_str(
                    "winpty_rs was compiled without WinPTY enabled",
                ),
                _ => String::from_str("no pseudoterminal backend is available"),
            };
            Err(PtyError { kind: ErrorKind::InvalidConfiguration, operation: None, message })
        },
    }
}

/// A request is served exactly when a backend that may serve it is held,
/// and is never served by a backend other than the one it names.
pub proof fn lemma_backend_choice(requested: PTYBackend, conpty: bool, winpty: bool)
    ensures
        backend_choice(requested, conpty, winpty) matches Some(backend) ==> (backend
            == PTYBackend::ConPTY && conpty) || (backend == PTYBackend::WinPTY && winpty),
        requested == PTYBackend::ConPTY ==> backend_choice(requested, conpty, winpty)
            != Some(PTYBackend::WinPTY),
        requested == PTYBackend::WinPTY ==> backend_choice(requested, conpty, winpty)
            != Some(PTYBackend::ConPTY),
        requested == PTYBackend::Auto ==> (backend_choice(requested, conpty, winpty) is Some <==> (
        conpty || winpty)),
{
}

/// A session, on whichever backend serves it.
pub enum PTY {
    /// A session on the pseudo-console.
    ConPTY(ConPTY),
    /// A session on the agent.
    WinPTY(WinPTY),
}

impl PTY {
    /// The engine of the session.
    pub open spec fn engine(&self) -> EngineView {
        match self {
            PTY::ConPTY(session) => session@.engine,
            PTY::WinPTY(session) => session@.engine,
        }
    }

    /// The backend that serves the session.
    pub open spec fn spec_backend(&self) -> PTYBackend {
        match self {
            PTY::ConPTY(_) => PTYBackend::ConPTY,
            PTY::WinPTY(_) => PTYBackend::WinPTY,
        }
    }

    /// The backend that serves the session.
    #[verifier::when_used_as_spec(spec_backend)]
    pub fn backend(&self) -> (r: PTYBackend)
        ensures
            r == self.spec_backend(),
    {
        match self {
            PTY::ConPTY(_) => PTYBackend::ConPTY,
            PTY::WinPTY(_) => PTYBackend::WinPTY,
        }
    }

    /// The identifier of the child, zero before a spawn.
    pub fn get_pid(&self) -> (pid: u32)
        ensures
            pid == self.engine().pid,
    {
        match self {
            PTY::ConPTY(session) => session.get_pid(),
            PTY::WinPTY(session) => session.get_pid(),
        }
    }

    /// The handle of the child as a number, zero before a spawn.
    pub fn get_fd(&self) -> (fd: isize)
        ensures
            fd == self.engine().process.0,
    {
        match self {
            PTY::ConPTY(session) => session.get_fd(),
            PTY::WinPTY(session) => session.get_fd(),
        }
    }

    /// Reads from the output of the child: waits for the next item of the
    /// output queue when `blocking`, else takes what is there. Once a read
    /// has reported the end of the stream, every read reports it.
    pub fn read(&mut self, blocking: bool) -> (r: Result<Vec<u16>, PtyError>)
        ensures
            final(self).spec_backend() == old(self).spec_backend(),
            final(self).engine() == (EngineView {
                at_eof: final(self).engine().at_eof,
                ..old(self).engine()
            }),
            exists|got: Polled<ItemView>|
                (final(self).engine().at_eof, text_view(r)) == #[trigger] read_transition(
                    old(self).engine().at_eof,
                    got,
                ),
    {
        match self {
            PTY::ConPTY(session) => session.read(blocking),
            PTY::WinPTY(session) => session.read(blocking),
        }
    }

    /// The write side that belongs to this session, with nothing in
    /// flight.
    pub fn writer(&self) -> (w: Writer)
        ensures
            w == (Writer { asynchronous: self.engine().asynchronous, pending: false }),
            w.wf(),
    {
        match self {
            PTY::ConPTY(session) => session.writer(),
            PTY::WinPTY(session) => session.writer(),
        }
    }

    /// Begins the write of a buffer of `len` bytes to the input of the
    /// child through the write side of this session.
    pub fn write(&self, writer: &mut Writer, len: usize) -> (r: (WriteOp, WriteRequest))
        ensures
            (*final(writer), r.0, r.1@) == write_next(*old(writer), write_start(len)),
            r.0.wf(),
            old(writer).wf() ==> final(writer).wf(),
    {
        match self {
            PTY::ConPTY(session) => session.write(writer, len),
            PTY::WinPTY(session) => session.write(writer, len),
        }
    }

    /// Whether the output of the session is over, from the count of bytes
    /// that wait in the output stream and the liveness of the child as the
    /// host observed them: never while the child is alive or bytes wait in
    /// the stream, unless the session is closed.
    pub fn is_eof(&self, waiting: Option<u32>, alive: Result<bool, PtyError>) -> (r: Result<
        bool,
        PtyError,
    >)
        ensures
            self.engine().phase == Phase::Closed ==> lifted(r) == Ok::<bool, ErrorView>(true),
            self.engine().phase != Phase::Closed && lifted(r) == Ok::<bool, ErrorView>(true)
                ==> alive == Ok::<bool, PtyError>(false) && (waiting matches Some(bytes) ==> bytes
                == 0),
            self.engine().phase != Phase::Closed ==> (alive matches Err(e) ==> lifted(r) == Err::<
                bool,
                ErrorView,
            >(e@)),
            self.engine().phase != Phase::Closed ==> (alive matches Ok(running) ==> exists|
                ready: bool,
                reader_active: bool,
                queued: bool,
            |
                lifted(r) == Ok::<bool, ErrorView>(
                    (#[trigger] base::output_state(
                        false,
                        base::StreamProbe { ready, reader_active, waiting },
                        running,
                        queued,
                    )).spec_at_end(),
                )),
    {
        match self {
            PTY::ConPTY(session) => session.is_eof(waiting, alive),
            PTY::WinPTY(session) => session.is_eof(waiting, alive),
        }
    }

    /// The exit status of the child: none before a spawn, and none while
    /// the exit code is the still-running marker.
    pub fn get_exitstatus(&self, outcome: Result<u32, OsFault>) -> (r: Result<
        Option<u32>,
        PtyError,
    >)
        ensures
            self.engine().pid == 0 ==> lifted(r) == Ok::<Option<u32>, ErrorView>(None),
            self.engine().pid != 0 ==> (outcome matches Ok(code) ==> lifted(r) == Ok::<
                Option<u32>,
                ErrorView,
            >(exit_status(code))),
            self.engine().pid != 0 ==> (outcome matches Err(fault) ==> lifted(r) == Err::<
                Option<u32>,
                ErrorView,
            >(os_error(Operation::GetExitCodeProcess, fault.message@))),
    {
        match self {
            PTY::ConPTY(session) => session.get_exitstatus(outcome),
            PTY::WinPTY(session) => session.get_exitstatus(outcome),
        }
    }

    /// Whether the child is alive, from a zero-time wait on its handle.
    pub fn is_alive(&self, status: u32, fault: OsFault) -> (r: Result<bool, PtyError>)
        ensures
            lifted(r) == liveness(status, fault.message@),
    {
        match self {
            PTY::ConPTY(session) => session.is_alive(status, fault),
            PTY::WinPTY(session) => session.is_alive(status, fault),
        }
    }

    /// Whether the child has exited, from an unbounded wait on its handle.
    pub fn wait_for_exit(&self, status: u32, fault: OsFault) -> (r: Result<bool, PtyError>)
        ensures
            lifted(r) == departure(status, fault.message@),
    {
        match self {
            PTY::ConPTY(session) => session.wait_for_exit(status, fault),
            PTY::WinPTY(session) => session.wait_for_exit(status, fault),
        }
    }

    /// Reads the outcome of cancelling the pending reads of the output.
    pub fn cancel_io(&self, outcome: Result<(), OsFault>) -> (r: Result<bool, PtyError>)
        ensures
            lifted(r) == base::cancellation(error::observed(outcome)),
    {
        match self {
            PTY::ConPTY(session) => session.cancel_io(outcome),
            PTY::WinPTY(session) => session.cancel_io(outcome),
        }
    }

    /// Drives the teardown of the engine one step.
    pub fn teardown(&mut self) -> (r: TeardownRequest)
        ensures
            final(self).spec_backend() == old(self).spec_backend(),
            exists|answer: bool|
                (final(self).engine(), r) == #[trigger] old(self).engine().teardown_step(answer),
    {
        match self {
            PTY::ConPTY(session) => session.teardown(),
            PTY::WinPTY(session) => session.teardown(),
        }
    }
}

} // verus!
