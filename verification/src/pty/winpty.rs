//! The WinPTY backend: the handshake with the agent, the spawn of the
//! child through it, and the texts of its errors.

use super::base::{
    fresh_engine, EngineView, LocalHandle, PTYProcess, Phase, TeardownRequest,
};
use super::conpty::{terminate_opt, terminated_opt, wide_ref_view, wide_view};
use super::error::{
    lifted, observed, os_error, protocol_error, ErrorView, FaultView, Operation,
    OsFault, PtyError,
};
use super::reading::ReaderLink;
use super::text::{append_decimal_nat, decimal_nat, terminate, terminated};
use super::{check_geometry, geometry_error, valid_geometry, PTYArgs};
use super::writing::{write_next, write_start, WriteOp, WriteRequest, Writer};
use vstd::prelude::*;
use vstd::string::StringExecFns;

verus! {

/// Spawn flags given to the agent: shut the agent down with the child, and
/// let it exit once it has shut down.
pub const AGENT_SPAWN_FLAGS: u64 = 3;

/// The text of an agent error that came without one.
pub open spec fn unknown_error() -> Seq<char> {
    "Unknown error"@
}

/// The text of an agent error: its own, or the stand-in where it has none.
pub open spec fn agent_text(message: Option<Seq<char>>) -> Seq<char> {
    match message {
        Some(text) => text,
        None => unknown_error(),
    }
}

/// The text of a failed spawn: the agent's text and the system's error
/// code in decimal.
pub open spec fn spawn_text(message: Option<Seq<char>>, os_code: u32) -> Seq<char> {
    agent_text(message) + " os error "@ + decimal_nat(os_code as nat)
}

/// The view of a text that may be absent.
pub open spec fn text_opt_view(message: Option<String>) -> Option<Seq<char>> {
    match message {
        Some(text) => Some(text@),
        None => None,
    }
}

/// The fault of an agent call from the agent's error code and text.
pub fn agent_fault(code: u32, message: Option<String>) -> (fault: OsFault)
    ensures
        fault@ == (FaultView { code: code as i32, message: agent_text(text_opt_view(message)) }),
{
    let text = match message {
        Some(text) => text,
        None => String::from_str("Unknown error"),
    };
    OsFault { code: #[verifier::truncate] (code as i32), message: text }
}

/// The fault of a failed spawn from the agent's text and the system's
/// error code.
pub fn agent_spawn_fault(os_code: u32, message: Option<String>) -> (fault: OsFault)
    ensures
        fault@ == (FaultView {
            code: os_code as i32,
            message: spawn_text(text_opt_view(message), os_code),
        }),
{
    let mut text = match message {
        Some(text) => text,
        None => String::from_str("Unknown error"),
    };
    text.append(" os error ");
    append_decimal_nat(&mut text, os_code as u64);
    OsFault { code: #[verifier::truncate] (os_code as i32), message: text }
}

/// The steps of the handshake with the agent.
#[derive(Clone, Copy, Debug, PartialEq, Eq, Structural)]
pub enum AgentStage {
    /// The agent's configuration is being created.
    CreatingConfig,
    /// The configuration is being filled in.
    Configuring,
    /// The agent is being started.
    OpeningAgent,
    /// The agent's input pipe is being opened.
    OpeningInput,
    /// The agent's output pipe is being opened.
    OpeningOutput,
    /// Every step succeeded.
    Ready,
    /// A step failed.
    Failed,
}

/// The handshake that builds a WinPTY session, with what it has gathered.
#[derive(Clone, Copy, Debug, PartialEq, Eq, Structural)]
pub struct WinPtySetup {
    /// Columns asked for.
    pub cols: i32,
    /// Rows asked for.
    pub rows: i32,
    /// The number of the mouse mode.
    pub mouse_mode: i32,
    /// Time the agent is given to start, in milliseconds.
    pub timeout: u32,
    /// The outstanding step.
    pub stage: AgentStage,
    /// The agent.
    pub agent: isize,
    /// The agent's input pipe.
    pub conin: LocalHandle,
    /// The agent's output pipe.
    pub conout: LocalHandle,
}

/// What the host must do next in the handshake, or how it ended. A call
/// that yields a handle or an object reports it with its success; any
/// other reports zero.
#[derive(Debug)]
pub enum AgentRequest {
    /// Create a configuration with these flags.
    CreateConfig { flags: u64 },
    /// Set the initial size, the mouse mode and the start-up time-out of
    /// the configuration.
    Configure { cols: i32, rows: i32, mouse_mode: i32, timeout: u32 },
    /// Start the agent with the configuration and free the configuration.
    OpenAgent,
    /// Open the agent's input pipe for writing.
    OpenInput { agent: isize },
    /// Open the agent's output pipe for reading.
    OpenOutput { agent: isize },
    /// The handshake is complete.
    Ready,
    /// The handshake failed with this error; the agent, if one was
    /// started, is to be freed.
    Fail { error: PtyError, free: Option<isize> },
}

/// Mathematical form of an [`AgentRequest`].
pub enum AgentRequestView {
    CreateConfig { flags: u64 },
    Configure { cols: i32, rows: i32, mouse_mode: i32, timeout: u32 },
    OpenAgent,
    OpenInput { agent: isize },
    OpenOutput { agent: isize },
    Ready,
    Fail { error: ErrorView, free: Option<isize> },
}

impl View for AgentRequest {
    type V = AgentRequestView;

    open spec fn view(&self) -> AgentRequestView {
        match *self {
            AgentRequest::CreateConfig { flags } => AgentRequestView::CreateConfig { flags },
            AgentRequest::Configure {
                cols,
                rows,
                mouse_mode,
                timeout,
            } => AgentRequestView::Configure { cols, rows, mouse_mode, timeout },
            AgentRequest::OpenAgent => AgentRequestView::OpenAgent,
            AgentRequest::OpenInput { agent } => AgentRequestView::OpenInput { agent },
            AgentRequest::OpenOutput { agent } => AgentRequestView::OpenOutput { agent },
            AgentRequest::Ready => AgentRequestView::Ready,
            AgentRequest::Fail { error, free } => AgentRequestView::Fail { error: error@, free },
        }
    }
}

/// The call an agent stage waits for.
pub open spec fn agent_operation(stage: AgentStage) -> Operation {
    match stage {
        AgentStage::CreatingConfig => Operation::AgentConfig,
        AgentStage::Configuring => Operation::AgentConfig,
        AgentStage::OpeningAgent => Operation::AgentOpen,
        _ => Operation::CreateFile,
    }
}

impl WinPtySetup {
    /// The handshake at another stage.
    pub open spec fn at(self, stage: AgentStage) -> WinPtySetup {
        WinPtySetup { stage, ..self }
    }

    /// The handshake before its first step.
    pub open spec fn initial(args: PTYArgs) -> WinPtySetup {
        WinPtySetup {
            cols: args.cols,
            rows: args.rows,
            mouse_mode: args.mouse_mode.code(),
            timeout: args.timeout,
            stage: AgentStage::CreatingConfig,
            agent: 0,
            conin: LocalHandle(0),
            conout: LocalHandle(0),
        }
    }

    /// The agent that a failing handshake must still free: the one it has
    /// started.
    pub open spec fn held_agent(self) -> Option<isize> {
        if self.stage == AgentStage::OpeningInput || self.stage == AgentStage::OpeningOutput
            || self.stage == AgentStage::Ready {
            Some(self.agent)
        } else {
            None
        }
    }

    /// The handshake that failed with `error`.
    pub open spec fn failing(self, error: ErrorView) -> (WinPtySetup, AgentRequestView) {
        (self.at(AgentStage::Failed), AgentRequestView::Fail { error, free: self.held_agent() })
    }

    /// The beginning of the handshake: a geometry that is not valid is
    /// refused at once, before anything is asked of the agent; for a valid
    /// one the configuration of the agent is asked for.
    pub open spec fn start(args: PTYArgs) -> (WinPtySetup, AgentRequestView) {
        if args.valid() {
            (
                WinPtySetup::initial(args),
                AgentRequestView::CreateConfig { flags: args.agent_config.spec_bits() },
            )
        } else {
            (
                WinPtySetup::initial(args).at(AgentStage::Failed),
                AgentRequestView::Fail {
                    error: geometry_error(args.cols as int, args.rows as int),
                    free: None,
                },
            )
        }
    }

    /// One step of the handshake: the outcome of the call that the stage
    /// waits for gives the next state and the next request.
    ///
    /// Filling in the configuration cannot fail. The failure of any other
    /// call ends the handshake with the error of that call.
    pub open spec fn step(self, outcome: Result<isize, FaultView>) -> (
        WinPtySetup,
        AgentRequestView,
    ) {
        match self.stage {
            AgentStage::Ready => self.failing(protocol_error()),
            AgentStage::Failed => self.failing(protocol_error()),
            AgentStage::Configuring => (
                self.at(AgentStage::OpeningAgent),
                AgentRequestView::OpenAgent,
            ),
            _ => match outcome {
                Err(fault) => self.failing(os_error(agent_operation(self.stage), fault.message)),
                Ok(value) => match self.stage {
                    AgentStage::CreatingConfig => (
                        self.at(AgentStage::Configuring),
                        AgentRequestView::Configure {
                            cols: self.cols,
                            rows: self.rows,
                            mouse_mode: self.mouse_mode,
                            timeout: self.timeout,
                        },
                    ),
                    AgentStage::OpeningAgent => (
                        WinPtySetup { agent: value, ..self }.at(AgentStage::OpeningInput),
                        AgentRequestView::OpenInput { agent: value },
                    ),
                    AgentStage::OpeningInput => (
                        WinPtySetup { conin: LocalHandle(value), ..self }.at(
                            AgentStage::OpeningOutput,
                        ),
                        AgentRequestView::OpenOutput { agent: self.agent },
                    ),
                    _ => (
                        WinPtySetup { conout: LocalHandle(value), ..self }.at(AgentStage::Ready),
                        AgentRequestView::Ready,
                    ),
                },
            },
        }
    }

    /// Begins the handshake for the given options. A geometry that is not
    /// valid is refused before anything is asked of the agent.
    pub fn begin(args: &PTYArgs) -> (r: (WinPtySetup, AgentRequest))
        ensures
            (r.0, r.1@) == WinPtySetup::start(*args),
            !args.valid() ==> r.0.stage == AgentStage::Failed && r.1@ == (AgentRequestView::Fail {
                error: geometry_error(args.cols as int, args.rows as int),
                free: None,
            }),
    {
        let mode: i32 = match args.mouse_mode.to_i32() {
            Some(code) => code,
            None => 0,
        };
        let mut setup = WinPtySetup {
            cols: args.cols,
            rows: args.rows,
            mouse_mode: mode,
            timeout: args.timeout,
            stage: AgentStage::CreatingConfig,
            agent: 0,
            conin: LocalHandle(0),
            conout: LocalHandle(0),
        };
        match check_geometry(args.cols, args.rows) {
            Err(error) => {
                setup.stage = AgentStage::Failed;
                (setup, AgentRequest::Fail { error, free: None })
            },
            Ok(_) => (setup, AgentRequest::CreateConfig { flags: args.agent_config.bits() }),
        }
    }

    /// Whether the handshake is complete.
    pub fn is_ready(&self) -> (r: bool)
        ensures
            r == (self.stage == AgentStage::Ready),
    {
        match self.stage {
            AgentStage::Ready => true,
            _ => false,
        }
    }

    /// Ends the handshake with `error`.
    fn fail(&mut self, error: PtyError) -> (r: AgentRequest)
        ensures
            (*final(self), r@) == old(self).failing(error@),
    {
        let free = match self.stage {
            AgentStage::OpeningInput => Some(self.agent),
            AgentStage::OpeningOutput => Some(self.agent),
            AgentStage::Ready => Some(self.agent),
            _ => None,
        };
        self.stage = AgentStage::Failed;
        AgentRequest::Fail { error, free }
    }

    /// Takes the outcome of the call that was asked for and gives the next
    /// request.
    pub fn advance(&mut self, outcome: Result<isize, OsFault>) -> (r: AgentRequest)
        ensures
            (*final(self), r@) == old(self).step(observed(outcome)),
    {
        match self.stage {
            AgentStage::Ready => self.fail(PtyError::protocol()),
            AgentStage::Failed => self.fail(PtyError::protocol()),
            AgentStage::Configuring => {
                self.stage = AgentStage::OpeningAgent;
                AgentRequest::OpenAgent
            },
            AgentStage::CreatingConfig => match outcome {
                Err(fault) => self.fail(PtyError::from_os(Operation::AgentConfig, fault)),
                Ok(_) => {
                    self.stage = AgentStage::Configuring;
                    AgentRequest::Configure {
                        cols: self.cols,
                        rows: self.rows,
                        mouse_mode: self.mouse_mode,
                        timeout: self.timeout,
                    }
                },
            },
            AgentStage::OpeningAgent => match outcome {
                Err(fault) => self.fail(PtyError::from_os(Operation::AgentOpen, fault)),
                Ok(value) => {
                    self.agent = value;
                    self.stage = AgentStage::OpeningInput;
                    AgentRequest::OpenInput { agent: value }
                },
            },
            AgentStage::OpeningInput => match outcome {
                Err(fault) => self.fail(PtyError::from_os(Operation::CreateFile, fault)),
                Ok(value) => {
                    self.conin = LocalHandle(value);
                    self.stage = AgentStage::OpeningOutput;
                    AgentRequest::OpenOutput { agent: self.agent }
                },
            },
            AgentStage::OpeningOutput => match outcome {
                Err(fault) => self.fail(PtyError::from_os(Operation::CreateFile, fault)),
                Ok(value) => {
                    self.conout = LocalHandle(value);
                    self.stage = AgentStage::Ready;
                    AgentRequest::Ready
                },
            },
        }
    }
}

/// The handshake after a run of successful calls.
pub open spec fn agent_run(s: WinPtySetup, values: Seq<isize>) -> WinPtySetup
    decreases values.len(),
{
    if values.len() == 0 {
        s
    } else {
        agent_run(s.step(Ok(values[0])).0, values.skip(1))
    }
}

/// A session is built exactly for the valid geometries. A geometry that
/// is not valid is refused at the beginning, with the error that names it
/// and without a call to the agent, and no later step mends it. For a
/// valid geometry the handshake is complete once the five calls it asks
/// for have succeeded.
pub proof fn lemma_agent_builds_iff_valid(args: PTYArgs, values: Seq<isize>)
    ensures
        !args.valid() ==> WinPtySetup::start(args).1 == (AgentRequestView::Fail {
            error: geometry_error(args.cols as int, args.rows as int),
            free: None,
        }),
        !args.valid() ==> agent_run(WinPtySetup::start(args).0, values).stage
            == AgentStage::Failed,
        args.valid() && values.len() == 5 ==> agent_run(WinPtySetup::start(args).0, values).stage
            == AgentStage::Ready,
    decreases values.len(),
{
    let s0 = WinPtySetup::start(args).0;
    if !args.valid() {
        lemma_failed_stays_failed(s0, values);
    } else if values.len() == 5 {
        reveal_with_fuel(agent_run, 6);
        let s1 = s0.step(Ok(values[0])).0;
        let v1 = values.skip(1);
        let s2 = s1.step(Ok(v1[0])).0;
        let v2 = v1.skip(1);
        let s3 = s2.step(Ok(v2[0])).0;
        let v3 = v2.skip(1);
        let s4 = s3.step(Ok(v3[0])).0;
        let v4 = v3.skip(1);
        let s5 = s4.step(Ok(v4[0])).0;
        assert(v4.skip(1).len() == 0);
        assert(agent_run(s0, values) == s5);
    }
}

/// A handshake that has failed stays failed.
pub proof fn lemma_failed_stays_failed(s: WinPtySetup, values: Seq<isize>)
    requires
        s.stage == AgentStage::Failed,
    ensures
        agent_run(s, values).stage == AgentStage::Failed,
    decreases values.len(),
{
    if values.len() > 0 {
        lemma_failed_stays_failed(s.step(Ok(values[0])).0, values.skip(1));
    }
}

/// The buffers that the agent is given for a spawn, each closed with a
/// NUL.
#[derive(Debug)]
pub struct AgentSpawnBuffers {
    /// The program.
    pub appname: Vec<u16>,
    /// The arguments, if any.
    pub cmdline: Option<Vec<u16>>,
    /// The working directory, if one was named.
    pub working_dir: Option<Vec<u16>>,
    /// The environment block, if one was given.
    pub environment: Option<Vec<u16>>,
}

/// Mathematical form of [`AgentSpawnBuffers`].
pub struct AgentBuffersView {
    pub appname: Seq<u16>,
    pub cmdline: Option<Seq<u16>>,
    pub working_dir: Option<Seq<u16>>,
    pub environment: Option<Seq<u16>>,
}

impl View for AgentSpawnBuffers {
    type V = AgentBuffersView;

    open spec fn view(&self) -> AgentBuffersView {
        AgentBuffersView {
            appname: self.appname@,
            cmdline: wide_view(self.cmdline),
            working_dir: wide_view(self.working_dir),
            environment: wide_view(self.environment),
        }
    }
}

/// The buffers of a spawn through the agent: the program name, the
/// arguments, the working directory and the environment, kept apart and
/// each closed with a NUL.
pub open spec fn agent_buffers(
    appname: Seq<u16>,
    cmdline: Option<Seq<u16>>,
    cwd: Option<Seq<u16>>,
    env: Option<Seq<u16>>,
) -> AgentBuffersView {
    AgentBuffersView {
        appname: terminated(appname),
        cmdline: terminated_opt(cmdline),
        working_dir: terminated_opt(cwd),
        environment: terminated_opt(env),
    }
}

/// Composes what the agent is given for a spawn: the program name, the
/// arguments, the working directory and the environment are kept apart,
/// and each is closed with a NUL.
pub fn compose_agent_spawn(
    appname: &Vec<u16>,
    cmdline: Option<&Vec<u16>>,
    cwd: Option<&Vec<u16>>,
    env: Option<&Vec<u16>>,
) -> (r: AgentSpawnBuffers)
    ensures
        r@ == agent_buffers(
            appname@,
            wide_ref_view(cmdline),
            wide_ref_view(cwd),
            wide_ref_view(env),
        ),
{
    AgentSpawnBuffers {
        appname: terminate(appname),
        cmdline: terminate_opt(cmdline),
        working_dir: terminate_opt(cwd),
        environment: terminate_opt(env),
    }
}

/// Where the spawn of a child through the agent stands.
#[derive(Clone, Copy, Debug, PartialEq, Eq, Structural)]
pub enum AgentSpawnStage {
    /// No spawn is under way.
    Idle,
    /// The spawn configuration is being created.
    Configuring,
    /// The agent is spawning the child.
    Spawning,
    /// The identifier of the process is being asked for.
    Identifying,
}

/// What the host must do next to spawn the child, or how the spawn ended.
#[derive(Debug)]
pub enum AgentSpawnRequest {
    /// Create a spawn configuration with these flags and these buffers.
    CreateSpawnConfig { flags: u64, buffers: AgentSpawnBuffers },
    /// Let the agent spawn the child, free the spawn configuration, and
    /// report the handle of the process.
    Spawn { agent: isize },
    /// Report the identifier of this process.
    Identify { process: LocalHandle },
    /// The spawn is over.
    Finish(Result<bool, PtyError>),
}

/// Mathematical form of an [`AgentSpawnRequest`].
pub enum AgentSpawnRequestView {
    CreateSpawnConfig { flags: u64, buffers: AgentBuffersView },
    Spawn { agent: isize },
    Identify { process: LocalHandle },
    Finish(Result<bool, ErrorView>),
}

impl View for AgentSpawnRequest {
    type V = AgentSpawnRequestView;

    open spec fn view(&self) -> AgentSpawnRequestView {
        match *self {
            AgentSpawnRequest::CreateSpawnConfig {
                flags,
                buffers,
            } => AgentSpawnRequestView::CreateSpawnConfig { flags, buffers: buffers@ },
            AgentSpawnRequest::Spawn { agent } => AgentSpawnRequestView::Spawn { agent },
            AgentSpawnRequest::Identify { process } => AgentSpawnRequestView::Identify { process },
            AgentSpawnRequest::Finish(Ok(done)) => AgentSpawnRequestView::Finish(Ok(done)),
            AgentSpawnRequest::Finish(Err(e)) => AgentSpawnRequestView::Finish(Err(e@)),
        }
    }
}

/// Mathematical form of a [`WinPTY`].
pub struct WinPtyView {
    /// The engine.
    pub engine: EngineView,
    /// The agent.
    pub agent: isize,
    /// Where a spawn stands.
    pub spawn: AgentSpawnStage,
    /// The handle of the child while its identifier is asked for.
    pub child: LocalHandle,
    /// Whether the agent was freed.
    pub released: bool,
}

impl WinPtyView {
    /// The session at another stage of a spawn.
    pub open spec fn spawning(self, spawn: AgentSpawnStage) -> WinPtyView {
        WinPtyView { spawn, ..self }
    }

    /// The spawn that failed in `operation`.
    pub open spec fn spawn_failure(self, operation: Operation, message: Seq<char>) -> (
        WinPtyView,
        AgentSpawnRequestView,
    ) {
        (
            self.spawning(AgentSpawnStage::Idle),
            AgentSpawnRequestView::Finish(Err(os_error(operation, message))),
        )
    }

    /// The first step of a spawn: the spawn configuration is asked for,
    /// with the buffers of the spawn.
    pub open spec fn spawn_start(self, buffers: AgentBuffersView) -> (
        WinPtyView,
        AgentSpawnRequestView,
    ) {
        (
            self.spawning(AgentSpawnStage::Configuring),
            AgentSpawnRequestView::CreateSpawnConfig { flags: AGENT_SPAWN_FLAGS, buffers },
        )
    }

    /// One step of a spawn: the outcome of the call that was asked for
    /// gives the next state and the next request.
    ///
    /// The spawn configuration is created, the agent spawns the child, the
    /// identifier of the child is asked for, and the engine takes the
    /// child, whose handle becomes the engine's to close. The failure of
    /// either agent call ends the spawn with the error of that call.
    pub open spec fn spawn_step(self, outcome: Result<isize, FaultView>) -> (
        WinPtyView,
        AgentSpawnRequestView,
    ) {
        match self.spawn {
            AgentSpawnStage::Idle => (
                self,
                AgentSpawnRequestView::Finish(Err(protocol_error())),
            ),
            AgentSpawnStage::Configuring => match outcome {
                Ok(_) => (
                    self.spawning(AgentSpawnStage::Spawning),
                    AgentSpawnRequestView::Spawn { agent: self.agent },
                ),
                Err(fault) => self.spawn_failure(Operation::AgentSpawnConfig, fault.message),
            },
            AgentSpawnStage::Spawning => match outcome {
                Ok(value) => (
                    WinPtyView { child: LocalHandle(value), ..self }.spawning(
                        AgentSpawnStage::Identifying,
                    ),
                    AgentSpawnRequestView::Identify { process: LocalHandle(value) },
                ),
                Err(fault) => self.spawn_failure(Operation::AgentSpawn, fault.message),
            },
            AgentSpawnStage::Identifying => {
                let pid = match outcome {
                    Ok(value) => value as u32,
                    Err(_) => 0u32,
                };
                (
                    WinPtyView {
                        engine: EngineView {
                            process: self.child,
                            close_process: true,
                            pid,
                            ..self.engine
                        },
                        ..self
                    }.spawning(AgentSpawnStage::Idle),
                    AgentSpawnRequestView::Finish(Ok(true)),
                )
            },
        }
    }

    /// What a release gives and leaves: the agent to free, once; nothing
    /// after.
    pub open spec fn release(self) -> (WinPtyView, Option<isize>) {
        if self.released {
            (self, None)
        } else {
            (WinPtyView { released: true, ..self }, Some(self.agent))
        }
    }
}

/// A session on the WinPTY backend.
pub struct WinPTY {
    /// The engine of the session.
    process: PTYProcess,
    /// The agent.
    agent: isize,
    /// Where a spawn stands.
    spawn: AgentSpawnStage,
    /// The handle of the child while its identifier is asked for.
    child: LocalHandle,
    /// Whether the agent was freed.
    released: bool,
}

impl View for WinPTY {
    type V = WinPtyView;

    closed spec fn view(&self) -> WinPtyView {
        WinPtyView {
            engine: self.process@,
            agent: self.agent,
            spawn: self.spawn,
            child: self.child,
            released: self.released,
        }
    }
}

/// What a completed handshake is turned into: the session and the ends of
/// its queues for the reader worker.
pub struct WinPtyParts {
    pub session: WinPTY,
    pub reader: ReaderLink,
}

/// The session that a completed handshake gives: an engine that reads and
/// writes the agent's pipes without completion records, no child yet.
pub open spec fn fresh_agent_session(setup: WinPtySetup) -> WinPtyView {
    WinPtyView {
        engine: fresh_engine(setup.conin, setup.conout, false, false),
        agent: setup.agent,
        spawn: AgentSpawnStage::Idle,
        child: LocalHandle(0),
        released: false,
    }
}

impl WinPTY {
    /// Makes the session of a completed handshake. A handshake that is
    /// not complete gives the error of a protocol that was not kept; one
    /// that claims to be complete for a geometry that is not valid is
    /// refused for its geometry.
    pub fn new(setup: WinPtySetup) -> (r: Result<WinPtyParts, PtyError>)
        ensures
            r is Ok <==> setup.stage == AgentStage::Ready && valid_geometry(
                setup.cols as int,
                setup.rows as int,
            ),
            r matches Ok(parts) ==> {
                &&& parts.session@ == fresh_agent_session(setup)
                &&& !parts.reader.asynchronous()
                &&& !parts.reader.using_pipes()
                &&& parts.reader.stream() == setup.conout
            },
            r matches Err(e) ==> e@ == if setup.stage == AgentStage::Ready {
                geometry_error(setup.cols as int, setup.rows as int)
            } else {
                protocol_error()
            },
    {
        if !setup.is_ready() {
            return Err(PtyError::protocol());
        }
        match check_geometry(setup.cols, setup.rows) {
            Err(e) => {
                return Err(e);
            },
            Ok(_) => {},
        }
        let (process, reader, _watcher) = PTYProcess::new(
            setup.conin,
            setup.conout,
            false,
            false,
            None,
        );
        Ok(
            WinPtyParts {
                session: WinPTY {
                    process,
                    agent: setup.agent,
                    spawn: AgentSpawnStage::Idle,
                    child: LocalHandle(0),
                    released: false,
                },
                reader,
            },
        )
    }

    /// Begins the spawn of a child from the program name, the arguments,
    /// the working directory and the environment, which holds `VAR=VALUE`
    /// entries behind a NUL each.
    pub fn spawn(
        &mut self,
        appname: &Vec<u16>,
        cmdline: Option<&Vec<u16>>,
        cwd: Option<&Vec<u16>>,
        env: Option<&Vec<u16>>,
    ) -> (r: AgentSpawnRequest)
        ensures
            (final(self)@, r@) == old(self)@.spawn_start(
                agent_buffers(
                    appname@,
                    wide_ref_view(cmdline),
                    wide_ref_view(cwd),
                    wide_ref_view(env),
                ),
            ),
    {
        self.spawn = AgentSpawnStage::Configuring;
        AgentSpawnRequest::CreateSpawnConfig {
            flags: AGENT_SPAWN_FLAGS,
            buffers: compose_agent_spawn(appname, cmdline, cwd, env),
        }
    }

    /// Ends a spawn with the failure of `operation`.
    fn spawn_failed(&mut self, operation: Operation, fault: OsFault) -> (r: AgentSpawnRequest)
        ensures
            (final(self)@, r@) == old(self)@.spawn_failure(operation, fault.message@),
    {
        self.spawn = AgentSpawnStage::Idle;
        AgentSpawnRequest::Finish(Err(PtyError::from_os(operation, fault)))
    }

    /// Takes the outcome of the call that was asked for and gives the next
    /// request of the spawn. The agent's spawn reports the handle of the
    /// process; the query of the identifier reports it; the creation of
    /// the spawn configuration reports zero.
    pub fn spawn_step(&mut self, outcome: Result<isize, OsFault>) -> (r: AgentSpawnRequest)
        ensures
            (final(self)@, r@) == old(self)@.spawn_step(observed(outcome)),
    {
        match self.spawn {
            AgentSpawnStage::Idle => AgentSpawnRequest::Finish(Err(PtyError::protocol())),
            AgentSpawnStage::Configuring => match outcome {
                Ok(_) => {
                    self.spawn = AgentSpawnStage::Spawning;
                    AgentSpawnRequest::Spawn { agent: self.agent }
                },
                Err(fault) => self.spawn_failed(Operation::AgentSpawnConfig, fault),
            },
            AgentSpawnStage::Spawning => match outcome {
                Ok(value) => {
                    self.child = LocalHandle(value);
                    self.spawn = AgentSpawnStage::Identifying;
                    AgentSpawnRequest::Identify { process: LocalHandle(value) }
                },
                Err(fault) => self.spawn_failed(Operation::AgentSpawn, fault),
            },
            AgentSpawnStage::Identifying => {
                let pid: u32 = match outcome {
                    Ok(value) => #[verifier::truncate] (value as u32),
                    Err(_) => 0u32,
                };
                let _ = self.process.set_process(self.child, true, pid);
                self.spawn = AgentSpawnStage::Idle;
                AgentSpawnRequest::Finish(Ok(true))
            },
        }
    }

    /// Checks a new geometry and gives the size to hand to the agent.
    pub fn set_size(&self, cols: i32, rows: i32) -> (r: Result<(i32, i32), PtyError>)
        ensures
            valid_geometry(cols as int, rows as int) ==> lifted(r) == Ok::<(i32, i32), ErrorView>(
                (cols, rows),
            ),
            !valid_geometry(cols as int, rows as int) ==> lifted(r) == Err::<
                (i32, i32),
                ErrorView,
            >(geometry_error(cols as int, rows as int)),
    {
        match check_geometry(cols, rows) {
            Ok(_) => Ok((cols, rows)),
            Err(e) => Err(e),
        }
    }

    /// Reads the outcome of resizing through the agent.
    pub fn resized(outcome: Result<(), OsFault>) -> (r: Result<(), PtyError>)
        ensures
            outcome is Ok ==> r is Ok,
            outcome matches Err(fault) ==> lifted(r) == Err::<(), ErrorView>(
                os_error(Operation::AgentSetSize, fault.message@),
            ),
    {
        match outcome {
            Ok(_) => Ok(()),
            Err(fault) => Err(PtyError::from_os(Operation::AgentSetSize, fault)),
        }
    }

    /// Begins the release of the session: gives the agent to free, once;
    /// the teardown of the engine follows.
    pub fn release(&mut self) -> (r: Option<isize>)
        ensures
            (final(self)@, r) == old(self)@.release(),
    {
        if self.released {
            None
        } else {
            self.released = true;
            Some(self.agent)
        }
    }

    /// Drives the teardown of the engine one step; the release of the
    /// session comes first. See [`PTYProcess::teardown`].
    pub fn teardown(&mut self) -> (r: TeardownRequest)
        ensures
            exists|answer: bool|
                (final(self)@.engine, r) == #[trigger] old(self)@.engine.teardown_step(answer),
            final(self)@ == (WinPtyView { engine: final(self)@.engine, ..old(self)@ }),
    {
        self.process.teardown()
    }

    /// Reads from the output of the child; see [`PTYProcess::read`].
    pub fn read(&mut self, blocking: bool) -> (r: Result<Vec<u16>, PtyError>)
        ensures
            final(self)@ == (WinPtyView { engine: final(self)@.engine, ..old(self)@ }),
            final(self)@.engine == (EngineView {
                at_eof: final(self)@.engine.at_eof,
                ..old(self)@.engine
            }),
            exists|got: super::channel::Polled<super::base::ItemView>|
                (final(self)@.engine.at_eof, super::base::text_view(r))
                    == #[trigger] super::base::read_transition(old(self)@.engine.at_eof, got),
    {
        self.process.read(blocking)
    }

    /// The write side that belongs to this session, with nothing in
    /// flight; see [`PTYProcess::writer`].
    pub fn writer(&self) -> (w: Writer)
        ensures
            w == (Writer { asynchronous: self@.engine.asynchronous, pending: false }),
            w.wf(),
    {
        self.process.writer()
    }

    /// Begins the write of a buffer of `len` bytes to the input of the
    /// child; see [`PTYProcess::write`].
    pub fn write(&self, writer: &mut Writer, len: usize) -> (r: (WriteOp, WriteRequest))
        ensures
            (*final(writer), r.0, r.1@) == write_next(*old(writer), write_start(len)),
            r.0.wf(),
            old(writer).wf() ==> final(writer).wf(),
    {
        self.process.write(writer, len)
    }

    /// Whether the output of the session is over; see
    /// [`PTYProcess::is_eof`].
    pub fn is_eof(&self, waiting: Option<u32>, alive: Result<bool, PtyError>) -> (r: Result<
        bool,
        PtyError,
    >)
        ensures
            self@.engine.phase == Phase::Closed ==> lifted(r) == Ok::<bool, ErrorView>(true),
            self@.engine.phase != Phase::Closed && lifted(r) == Ok::<bool, ErrorView>(true)
                ==> alive == Ok::<bool, PtyError>(false) && (waiting matches Some(bytes) ==> bytes
                == 0),
            self@.engine.phase != Phase::Closed ==> (alive matches Err(e) ==> lifted(r) == Err::<
                bool,
                ErrorView,
            >(e@)),
            self@.engine.phase != Phase::Closed ==> (alive matches Ok(running) ==> exists|
                ready: bool,
                reader_active: bool,
                queued: bool,
            |
                lifted(r) == Ok::<bool, ErrorView>(
                    (#[trigger] super::base::output_state(
                        false,
                        super::base::StreamProbe { ready, reader_active, waiting },
                        running,
                        queued,
                    )).spec_at_end(),
                )),
    {
        self.process.is_eof(waiting, alive)
    }

    /// The exit status of the child; see [`PTYProcess::get_exitstatus`].
    pub fn get_exitstatus(&self, outcome: Result<u32, OsFault>) -> (r: Result<
        Option<u32>,
        PtyError,
    >)
        ensures
            self@.engine.pid == 0 ==> lifted(r) == Ok::<Option<u32>, ErrorView>(None),
            self@.engine.pid != 0 ==> (outcome matches Ok(code) ==> lifted(r) == Ok::<
                Option<u32>,
                ErrorView,
            >(super::base::exit_status(code))),
            self@.engine.pid != 0 ==> (outcome matches Err(fault) ==> lifted(r) == Err::<
                Option<u32>,
                ErrorView,
            >(os_error(Operation::GetExitCodeProcess, fault.message@))),
    {
        self.process.get_exitstatus(outcome)
    }

    /// Whether the child is alive; see [`PTYProcess::is_alive`].
    pub fn is_alive(&self, status: u32, fault: OsFault) -> (r: Result<bool, PtyError>)
        ensures
            lifted(r) == super::base::liveness(status, fault.message@),
    {
        self.process.is_alive(status, fault)
    }

    /// Whether the child has exited; see [`PTYProcess::wait_for_exit`].
    pub fn wait_for_exit(&self, status: u32, fault: OsFault) -> (r: Result<bool, PtyError>)
        ensures
            lifted(r) == super::base::departure(status, fault.message@),
    {
        self.process.wait_for_exit(status, fault)
    }

    /// Reads the outcome of cancelling pending reads; see
    /// [`PTYProcess::cancel_io`].
    pub fn cancel_io(&self, outcome: Result<(), OsFault>) -> (r: Result<bool, PtyError>)
        ensures
            lifted(r) == super::base::cancellation(observed(outcome)),
    {
        self.process.cancel_io(outcome)
    }

    /// The agent of the session.
    pub fn agent(&self) -> (agent: isize)
        ensures
            agent == self@.agent,
    {
        self.agent
    }

    /// The identifier of the child, zero before a spawn.
    pub fn get_pid(&self) -> (pid: u32)
        ensures
            pid == self@.engine.pid,
    {
        self.process.get_pid()
    }

    /// The handle of the child as a number, zero before a spawn.
    pub fn get_fd(&self) -> (fd: isize)
        ensures
            fd == self@.engine.process.0,
    {
        self.process.get_fd()
    }

    /// The stream that is written to.
    pub fn input_handle(&self) -> (h: LocalHandle)
        ensures
            h == self@.engine.conin,
    {
        self.process.input_handle()
    }

    /// The stream that is read from.
    pub fn output_handle(&self) -> (h: LocalHandle)
        ensures
            h == self@.engine.conout,
    {
        self.process.output_handle()
    }

    /// The handle of the child process.
    pub fn process_handle(&self) -> (h: LocalHandle)
        ensures
            h == self@.engine.process,
    {
        self.process.process_handle()
    }
}

} // verus!
