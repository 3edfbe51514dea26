//! The pseudo-console backend: the handshake that builds a session, the
//! guard that lets the console be closed once, the spawn of the child and
//! the release of the session.

use super::base::{
    fresh_engine, EngineView, LocalHandle, PTYProcess, Phase, TeardownRequest,
};
use super::channel::{clone_sender, recv, send, unbounded};
use super::error::{
    lifted, observed, os_error, protocol_error, ErrorKind, ErrorView, FaultView, Operation,
    OsFault, PtyError,
};
use super::reading::{ReaderLink, WatcherLink};
use super::text::{
    append_decimal, command_line, compose_command_line, decimal, terminate, terminated,
};
use super::{check_geometry, geometry_error, geometry_verdict, valid_geometry, PTYArgs};
use crossbeam_channel::{Receiver, Sender};
use super::writing::{write_next, write_start, WriteOp, WriteRequest, Writer};
use vstd::prelude::*;
use vstd::string::StringExecFns;

verus! {

/// Console mode bit that makes a console interpret escape sequences.
pub const ENABLE_VIRTUAL_TERMINAL_PROCESSING: u32 = 4;

/// Identifier of the process attribute that carries a pseudo-console.
pub const PROC_THREAD_ATTRIBUTE_PSEUDOCONSOLE: u32 = 0x0002_0016;

/// Creation flag: the start-up record carries an attribute list.
pub const EXTENDED_STARTUPINFO_PRESENT: u32 = 0x0008_0000;

/// Creation flag: the environment block holds wide characters.
pub const CREATE_UNICODE_ENVIRONMENT: u32 = 0x0000_0400;

/// Size in bytes of each of the two buffers of the session's pipe.
pub const PIPE_BUFFER_SIZE: u32 = 131072;

/// Default time-out of the session's pipe: one hundred seconds, counted in
/// units of 100 nanoseconds and negative for being relative.
pub const PIPE_TIMEOUT: i64 = -1000000000;

/// The size of a console in character cells, as the system takes it.
#[derive(Clone, Copy, Debug, PartialEq, Eq, Structural)]
pub struct Coord {
    /// Columns.
    pub x: i16,
    /// Rows.
    pub y: i16,
}

/// The size the system is given for a geometry: each side cut down to its
/// low sixteen bits.
pub open spec fn coord_of(cols: i32, rows: i32) -> Coord {
    Coord { x: cols as i16, y: rows as i16 }
}

/// A geometry whose sides fit in sixteen bits is handed on unchanged.
pub proof fn lemma_coord_exact(cols: i32, rows: i32)
    requires
        0 < cols <= i16::MAX,
        0 < rows <= i16::MAX,
    ensures
        coord_of(cols, rows).x == cols,
        coord_of(cols, rows).y == rows,
{
}

/// The size the system is given for a geometry.
pub fn to_coord(cols: i32, rows: i32) -> (c: Coord)
    ensures
        c == coord_of(cols, rows),
{
    Coord { x: #[verifier::truncate] (cols as i16), y: #[verifier::truncate] (rows as i16) }
}

/// The standard streams of a process.
#[derive(Clone, Copy, Debug, PartialEq, Eq, Structural)]
pub enum StdStream {
    Input,
    Output,
    Error,
}

/// The steps of the handshake, each named by the call it waits for.
#[derive(Clone, Copy, Debug, PartialEq, Eq, Structural)]
pub enum SetupStage {
    AllocatingConsole,
    HidingWindow,
    OpeningConsoleOutput,
    OpeningConsoleInput,
    ReadingMode,
    SettingMode,
    BindingOutput,
    BindingError,
    BindingInput,
    OpeningPipeDirectory,
    CreatingServerPipe,
    OpeningClientPipe,
    DuplicatingInput,
    DuplicatingOutput,
    CreatingConsole,
    HidingConsole,
    ClosingInputRead,
    ClosingOutputWrite,
    ClosingDirectory,
    /// Every step succeeded.
    Ready,
    /// A step failed.
    Failed,
}

/// The handshake that builds a pseudo-console session, with what it has
/// gathered so far.
#[derive(Clone, Copy, Debug, PartialEq, Eq, Structural)]
pub struct ConPtySetup {
    /// Columns asked for.
    pub cols: i32,
    /// Rows asked for.
    pub rows: i32,
    /// The outstanding step.
    pub stage: SetupStage,
    /// Whether this session allocated the console of the process.
    pub console_allocated: bool,
    /// The console's output buffer.
    pub console_out: LocalHandle,
    /// The console's input buffer.
    pub console_in: LocalHandle,
    /// The directory of named pipes.
    pub directory: LocalHandle,
    /// The server end of the session's pipe, kept by the session.
    pub server_pipe: LocalHandle,
    /// The client end of the session's pipe.
    pub client_pipe: LocalHandle,
    /// The end from which the pseudo-console reads input.
    pub input_read: LocalHandle,
    /// The end to which the pseudo-console writes output.
    pub output_write: LocalHandle,
    /// The pseudo-console.
    pub console: isize,
}

/// What the host must do next in the handshake, or how it ended. A call
/// that yields a handle or a value reports it with its success; any other
/// reports zero.
#[derive(Debug)]
pub enum SetupRequest {
    /// Allocate a console for the process.
    AllocConsole,
    /// Hide the window of the console just allocated.
    HideConsoleWindow,
    /// Open the console's output buffer for reading and writing, shared
    /// for both.
    OpenConsoleOutput,
    /// Open the console's input buffer for reading and writing, shared for
    /// reading.
    OpenConsoleInput,
    /// Read the mode of this console buffer.
    GetConsoleMode { console: LocalHandle },
    /// Set the mode of this console buffer.
    SetConsoleMode { console: LocalHandle, mode: u32 },
    /// Make this handle a standard stream of the process.
    SetStdHandle { stream: StdStream, handle: LocalHandle },
    /// Open the directory of named pipes.
    OpenPipeDirectory,
    /// Create an unnamed byte-stream pipe in this directory, usable with
    /// completion records, with buffers of [`PIPE_BUFFER_SIZE`] bytes and
    /// a default time-out of [`PIPE_TIMEOUT`], and yield its server end.
    CreateServerPipe { directory: LocalHandle },
    /// Open the client end of the pipe with this server end.
    OpenClientPipe { server: LocalHandle },
    /// Duplicate this handle as one that a child inherits.
    Duplicate { source: LocalHandle },
    /// Create a pseudo-console of this size over these two ends.
    CreatePseudoConsole { size: Coord, input: LocalHandle, output: LocalHandle },
    /// Tell this pseudo-console that its window is hidden.
    HidePseudoConsole { pseudo: isize },
    /// Close this handle.
    Close(LocalHandle),
    /// The handshake is complete.
    Ready,
    /// The handshake failed with this error; this handle, if any, is to be
    /// closed.
    Fail { error: PtyError, close: Option<LocalHandle> },
}

/// Mathematical form of a [`SetupRequest`].
pub enum SetupRequestView {
    AllocConsole,
    HideConsoleWindow,
    OpenConsoleOutput,
    OpenConsoleInput,
    GetConsoleMode { console: LocalHandle },
    SetConsoleMode { console: LocalHandle, mode: u32 },
    SetStdHandle { stream: StdStream, handle: LocalHandle },
    OpenPipeDirectory,
    CreateServerPipe { directory: LocalHandle },
    OpenClientPipe { server: LocalHandle },
    Duplicate { source: LocalHandle },
    CreatePseudoConsole { size: Coord, input: LocalHandle, output: LocalHandle },
    HidePseudoConsole { pseudo: isize },
    Close(LocalHandle),
    Ready,
    Fail { error: ErrorView, close: Option<LocalHandle> },
}

impl View for SetupRequest {
    type V = SetupRequestView;

    open spec fn view(&self) -> SetupRequestView {
        match *self {
            SetupRequest::AllocConsole => SetupRequestView::AllocConsole,
            SetupRequest::HideConsoleWindow => SetupRequestView::HideConsoleWindow,
            SetupRequest::OpenConsoleOutput => SetupRequestView::OpenConsoleOutput,
            SetupRequest::OpenConsoleInput => SetupRequestView::OpenConsoleInput,
            SetupRequest::GetConsoleMode { console } => SetupRequestView::GetConsoleMode {
                console,
            },
            SetupRequest::SetConsoleMode { console, mode } => SetupRequestView::SetConsoleMode {
                console,
                mode,
            },
            SetupRequest::SetStdHandle { stream, handle } => SetupRequestView::SetStdHandle {
                stream,
                handle,
            },
            SetupRequest::OpenPipeDirectory => SetupRequestView::OpenPipeDirectory,
            SetupRequest::CreateServerPipe { directory } => SetupRequestView::CreateServerPipe {
                directory,
            },
            SetupRequest::OpenClientPipe { server } => SetupRequestView::OpenClientPipe { server },
            SetupRequest::Duplicate { source } => SetupRequestView::Duplicate { source },
            SetupRequest::CreatePseudoConsole {
                size,
                input,
                output,
            } => SetupRequestView::CreatePseudoConsole { size, input, output },
            SetupRequest::HidePseudoConsole { pseudo } => SetupRequestView::HidePseudoConsole {
                pseudo,
            },
            SetupRequest::Close(handle) => SetupRequestView::Close(handle),
            SetupRequest::Ready => SetupRequestView::Ready,
            SetupRequest::Fail { error, close } => SetupRequestView::Fail { error: error@, close },
        }
    }
}

/// The call a stage waits for.
pub open spec fn stage_operation(stage: SetupStage) -> Operation {
    match stage {
        SetupStage::AllocatingConsole => Operation::AllocConsole,
        SetupStage::HidingWindow => Operation::ShowWindow,
        SetupStage::OpeningConsoleOutput => Operation::CreateFile,
        SetupStage::OpeningConsoleInput => Operation::CreateFile,
        SetupStage::ReadingMode => Operation::GetConsoleMode,
        SetupStage::SettingMode => Operation::SetConsoleMode,
        SetupStage::BindingOutput => Operation::SetStdHandle,
        SetupStage::BindingError => Operation::SetStdHandle,
        SetupStage::BindingInput => Operation::SetStdHandle,
        SetupStage::OpeningPipeDirectory => Operation::NtCreateFile,
        SetupStage::CreatingServerPipe => Operation::NtCreateNamedPipeFile,
        SetupStage::OpeningClientPipe => Operation::NtCreateFile,
        SetupStage::DuplicatingInput => Operation::DuplicateHandle,
        SetupStage::DuplicatingOutput => Operation::DuplicateHandle,
        SetupStage::CreatingConsole => Operation::CreatePseudoConsole,
        SetupStage::HidingConsole => Operation::CreatePseudoConsole,
        SetupStage::ClosingInputRead => Operation::CreatePseudoConsole,
        SetupStage::ClosingOutputWrite => Operation::CreatePseudoConsole,
        SetupStage::ClosingDirectory => Operation::CreatePseudoConsole,
        SetupStage::Ready => Operation::CreatePseudoConsole,
        SetupStage::Failed => Operation::CreatePseudoConsole,
    }
}

/// Whether the failure of the call a stage waits for ends the handshake.
/// Allocating a console fails where the process has one already; hiding a
/// window, closing a handle and telling the pseudo-console of its window
/// are done for what they are worth.
pub open spec fn stage_required(stage: SetupStage) -> bool {
    match stage {
        SetupStage::AllocatingConsole => false,
        SetupStage::HidingWindow => false,
        SetupStage::HidingConsole => false,
        SetupStage::ClosingInputRead => false,
        SetupStage::ClosingOutputWrite => false,
        SetupStage::ClosingDirectory => false,
        SetupStage::Ready => false,
        SetupStage::Failed => false,
        _ => true,
    }
}

/// The place of a stage in the order of the handshake.
pub open spec fn stage_rank(stage: SetupStage) -> nat {
    match stage {
        SetupStage::AllocatingConsole => 0,
        SetupStage::HidingWindow => 1,
        SetupStage::OpeningConsoleOutput => 2,
        SetupStage::OpeningConsoleInput => 3,
        SetupStage::ReadingMode => 4,
        SetupStage::SettingMode => 5,
        SetupStage::BindingOutput => 6,
        SetupStage::BindingError => 7,
        SetupStage::BindingInput => 8,
        SetupStage::OpeningPipeDirectory => 9,
        SetupStage::CreatingServerPipe => 10,
        SetupStage::OpeningClientPipe => 11,
        SetupStage::DuplicatingInput => 12,
        SetupStage::DuplicatingOutput => 13,
        SetupStage::CreatingConsole => 14,
        SetupStage::HidingConsole => 15,
        SetupStage::ClosingInputRead => 16,
        SetupStage::ClosingOutputWrite => 17,
        SetupStage::ClosingDirectory => 18,
        SetupStage::Ready => 19,
        SetupStage::Failed => 20,
    }
}

impl ConPtySetup {
    /// The handshake at another stage.
    pub open spec fn at(self, stage: SetupStage) -> ConPtySetup {
        ConPtySetup { stage, ..self }
    }

    /// The handshake before its first step.
    pub open spec fn initial(cols: i32, rows: i32) -> ConPtySetup {
        ConPtySetup {
            cols,
            rows,
            stage: SetupStage::AllocatingConsole,
            console_allocated: false,
            console_out: LocalHandle(0),
            console_in: LocalHandle(0),
            directory: LocalHandle(0),
            server_pipe: LocalHandle(0),
            client_pipe: LocalHandle(0),
            input_read: LocalHandle(0),
            output_write: LocalHandle(0),
            console: 0,
        }
    }

    /// The handle that a failing handshake must still close: the directory
    /// of named pipes, from when it was opened until it is closed.
    pub open spec fn held_directory(self) -> Option<LocalHandle> {
        if stage_rank(SetupStage::OpeningPipeDirectory) < stage_rank(self.stage) <= stage_rank(
            SetupStage::ClosingDirectory,
        ) {
            Some(self.directory)
        } else {
            None
        }
    }

    /// The handshake after the call of its stage succeeded with `value`:
    /// what the call yielded is kept, and the next stage is entered.
    pub open spec fn proceed(self, value: isize) -> (ConPtySetup, SetupRequestView) {
        match self.stage {
            SetupStage::AllocatingConsole => (
                ConPtySetup { console_allocated: true, ..self }.at(SetupStage::HidingWindow),
                SetupRequestView::HideConsoleWindow,
            ),
            SetupStage::HidingWindow => self.skip(),
            SetupStage::OpeningConsoleOutput => (
                ConPtySetup { console_out: LocalHandle(value), ..self }.at(
                    SetupStage::OpeningConsoleInput,
                ),
                SetupRequestView::OpenConsoleInput,
            ),
            SetupStage::OpeningConsoleInput => (
                ConPtySetup { console_in: LocalHandle(value), ..self }.at(SetupStage::ReadingMode),
                SetupRequestView::GetConsoleMode { console: self.console_out },
            ),
            SetupStage::ReadingMode => (
                self.at(SetupStage::SettingMode),
                SetupRequestView::SetConsoleMode {
                    console: self.console_out,
                    mode: (value as u32) | ENABLE_VIRTUAL_TERMINAL_PROCESSING,
                },
            ),
            SetupStage::SettingMode => (
                self.at(SetupStage::BindingOutput),
                SetupRequestView::SetStdHandle {
                    stream: StdStream::Output,
                    handle: self.console_out,
                },
            ),
            SetupStage::BindingOutput => (
                self.at(SetupStage::BindingError),
                SetupRequestView::SetStdHandle {
                    stream: StdStream::Error,
                    handle: self.console_out,
                },
            ),
            SetupStage::BindingError => (
                self.at(SetupStage::BindingInput),
                SetupRequestView::SetStdHandle { stream: StdStream::Input, handle: self.console_in },
            ),
            SetupStage::BindingInput => (
                self.at(SetupStage::OpeningPipeDirectory),
                SetupRequestView::OpenPipeDirectory,
            ),
            SetupStage::OpeningPipeDirectory => (
                ConPtySetup { directory: LocalHandle(value), ..self }.at(
                    SetupStage::CreatingServerPipe,
                ),
                SetupRequestView::CreateServerPipe { directory: LocalHandle(value) },
            ),
            SetupStage::CreatingServerPipe => (
                ConPtySetup { server_pipe: LocalHandle(value), ..self }.at(
                    SetupStage::OpeningClientPipe,
                ),
                SetupRequestView::OpenClientPipe { server: LocalHandle(value) },
            ),
            SetupStage::OpeningClientPipe => (
                ConPtySetup { client_pipe: LocalHandle(value), ..self }.at(
                    SetupStage::DuplicatingInput,
                ),
                SetupRequestView::Duplicate { source: LocalHandle(value) },
            ),
            SetupStage::DuplicatingInput => (
                ConPtySetup { input_read: LocalHandle(value), ..self }.at(
                    SetupStage::DuplicatingOutput,
                ),
                SetupRequestView::Duplicate { source: self.client_pipe },
            ),
            SetupStage::DuplicatingOutput => (
                ConPtySetup { output_write: LocalHandle(value), ..self }.at(
                    SetupStage::CreatingConsole,
                ),
                SetupRequestView::CreatePseudoConsole {
                    size: coord_of(self.cols, self.rows),
                    input: self.input_read,
                    output: LocalHandle(value),
                },
            ),
            SetupStage::CreatingConsole => (
                ConPtySetup { console: value, ..self }.at(SetupStage::HidingConsole),
                SetupRequestView::HidePseudoConsole { pseudo: value },
            ),
            _ => self.skip(),
        }
    }

    /// The handshake after a call that is done for what it is worth, or
    /// whose result is of no interest: the next stage is entered.
    pub open spec fn skip(self) -> (ConPtySetup, SetupRequestView) {
        match self.stage {
            SetupStage::AllocatingConsole => (
                self.at(SetupStage::OpeningConsoleOutput),
                SetupRequestView::OpenConsoleOutput,
            ),
            SetupStage::HidingWindow => (
                self.at(SetupStage::OpeningConsoleOutput),
                SetupRequestView::OpenConsoleOutput,
            ),
            SetupStage::HidingConsole => (
                self.at(SetupStage::ClosingInputRead),
                SetupRequestView::Close(self.input_read),
            ),
            SetupStage::ClosingInputRead => (
                self.at(SetupStage::ClosingOutputWrite),
                SetupRequestView::Close(self.output_write),
            ),
            SetupStage::ClosingOutputWrite => (
                self.at(SetupStage::ClosingDirectory),
                SetupRequestView::Close(self.directory),
            ),
            SetupStage::ClosingDirectory => (self.at(SetupStage::Ready), SetupRequestView::Ready),
            _ => self.misuse(),
        }
    }

    /// The handshake that was driven against its protocol.
    pub open spec fn misuse(self) -> (ConPtySetup, SetupRequestView) {
        (
            self.at(SetupStage::Failed),
            SetupRequestView::Fail { error: protocol_error(), close: self.held_directory() },
        )
    }

    /// One step of the handshake: the outcome of the call that the stage
    /// waits for gives the next state and the next request.
    ///
    /// The failure of a required call ends the handshake with the error of
    /// that call; the failure of any other call is passed over.
    pub open spec fn step(self, outcome: Result<isize, FaultView>) -> (
        ConPtySetup,
        SetupRequestView,
    ) {
        if self.stage == SetupStage::Ready || self.stage == SetupStage::Failed {
            self.misuse()
        } else {
            match outcome {
                Ok(value) => self.proceed(value),
                Err(fault) => if stage_required(self.stage) {
                    (
                        self.at(SetupStage::Failed),
                        SetupRequestView::Fail {
                            error: os_error(stage_operation(self.stage), fault.message),
                            close: self.held_directory(),
                        },
                    )
                } else {
                    self.skip()
                },
            }
        }
    }
}

impl ConPtySetup {
    /// Begins the handshake for the given options. A geometry that is not
    /// valid is refused before anything is asked of the system.
    pub fn begin(args: &PTYArgs) -> (r: Result<(ConPtySetup, SetupRequest), PtyError>)
        ensures
            r is Ok <==> args.valid(),
            r matches Ok(pair) ==> pair.0 == ConPtySetup::initial(args.cols, args.rows) && pair.1@
                == SetupRequestView::AllocConsole,
            r matches Err(e) ==> e@ == geometry_error(args.cols as int, args.rows as int),
    {
        match check_geometry(args.cols, args.rows) {
            Err(e) => Err(e),
            Ok(_) => Ok(
                (
                    ConPtySetup {
                        cols: args.cols,
                        rows: args.rows,
                        stage: SetupStage::AllocatingConsole,
                        console_allocated: false,
                        console_out: LocalHandle(0),
                        console_in: LocalHandle(0),
                        directory: LocalHandle(0),
                        server_pipe: LocalHandle(0),
                        client_pipe: LocalHandle(0),
                        input_read: LocalHandle(0),
                        output_write: LocalHandle(0),
                        console: 0,
                    },
                    SetupRequest::AllocConsole,
                ),
            ),
        }
    }

    /// Whether the handshake is complete.
    pub fn is_ready(&self) -> (r: bool)
        ensures
            r == (self.stage == SetupStage::Ready),
    {
        match self.stage {
            SetupStage::Ready => true,
            _ => false,
        }
    }

    /// The call the current stage waits for.
    fn operation(&self) -> (r: Operation)
        ensures
            r == stage_operation(self.stage),
    {
        match self.stage {
            SetupStage::AllocatingConsole => Operation::AllocConsole,
            SetupStage::HidingWindow => Operation::ShowWindow,
            SetupStage::OpeningConsoleOutput => Operation::CreateFile,
            SetupStage::OpeningConsoleInput => Operation::CreateFile,
            SetupStage::ReadingMode => Operation::GetConsoleMode,
            SetupStage::SettingMode => Operation::SetConsoleMode,
            SetupStage::BindingOutput => Operation::SetStdHandle,
            SetupStage::BindingError => Operation::SetStdHandle,
            SetupStage::BindingInput => Operation::SetStdHandle,
            SetupStage::OpeningPipeDirectory => Operation::NtCreateFile,
            SetupStage::CreatingServerPipe => Operation::NtCreateNamedPipeFile,
            SetupStage::OpeningClientPipe => Operation::NtCreateFile,
            SetupStage::DuplicatingInput => Operation::DuplicateHandle,
            SetupStage::DuplicatingOutput => Operation::DuplicateHandle,
            _ => Operation::CreatePseudoConsole,
        }
    }

    /// Whether the failure of the current stage's call ends the handshake.
    fn required(&self) -> (r: bool)
        ensures
            r == stage_required(self.stage),
    {
        match self.stage {
            SetupStage::AllocatingConsole => false,
            SetupStage::HidingWindow => false,
            SetupStage::HidingConsole => false,
            SetupStage::ClosingInputRead => false,
            SetupStage::ClosingOutputWrite => false,
            SetupStage::ClosingDirectory => false,
            SetupStage::Ready => false,
            SetupStage::Failed => false,
            _ => true,
        }
    }

    /// The directory of named pipes, while the handshake holds it open.
    fn directory_held(&self) -> (r: Option<LocalHandle>)
        ensures
            r == self.held_directory(),
    {
        match self.stage {
            SetupStage::CreatingServerPipe => Some(self.directory),
            SetupStage::OpeningClientPipe => Some(self.directory),
            SetupStage::DuplicatingInput => Some(self.directory),
            SetupStage::DuplicatingOutput => Some(self.directory),
            SetupStage::CreatingConsole => Some(self.directory),
            SetupStage::HidingConsole => Some(self.directory),
            SetupStage::ClosingInputRead => Some(self.directory),
            SetupStage::ClosingOutputWrite => Some(self.directory),
            SetupStage::ClosingDirectory => Some(self.directory),
            _ => None,
        }
    }

    /// Ends the handshake with `error`.
    fn fail(&mut self, error: PtyError) -> (r: SetupRequest)
        ensures
            *final(self) == old(self).at(SetupStage::Failed),
            r@ == (SetupRequestView::Fail { error: error@, close: old(self).held_directory() }),
    {
        let close = self.directory_held();
        self.stage = SetupStage::Failed;
        SetupRequest::Fail { error, close }
    }

    /// Passes over the call of the current stage.
    fn pass(&mut self) -> (r: SetupRequest)
        ensures
            (*final(self), r@) == old(self).skip(),
    {
        match self.stage {
            SetupStage::AllocatingConsole => {
                self.stage = SetupStage::OpeningConsoleOutput;
                SetupRequest::OpenConsoleOutput
            },
            SetupStage::HidingWindow => {
                self.stage = SetupStage::OpeningConsoleOutput;
                SetupRequest::OpenConsoleOutput
            },
            SetupStage::HidingConsole => {
                self.stage = SetupStage::ClosingInputRead;
                SetupRequest::Close(self.input_read)
            },
            SetupStage::ClosingInputRead => {
                self.stage = SetupStage::ClosingOutputWrite;
                SetupRequest::Close(self.output_write)
            },
            SetupStage::ClosingOutputWrite => {
                self.stage = SetupStage::ClosingDirectory;
                SetupRequest::Close(self.directory)
            },
            SetupStage::ClosingDirectory => {
                self.stage = SetupStage::Ready;
                SetupRequest::Ready
            },
            _ => self.fail(PtyError::protocol()),
        }
    }

    /// Keeps what the call of the current stage yielded and moves on.
    fn keep(&mut self, value: isize) -> (r: SetupRequest)
        ensures
            (*final(self), r@) == old(self).proceed(value),
    {
        match self.stage {
            SetupStage::AllocatingConsole => {
                self.console_allocated = true;
                self.stage = SetupStage::HidingWindow;
                SetupRequest::HideConsoleWindow
            },
            SetupStage::OpeningConsoleOutput => {
                self.console_out = LocalHandle(value);
                self.stage = SetupStage::OpeningConsoleInput;
                SetupRequest::OpenConsoleInput
            },
            SetupStage::OpeningConsoleInput => {
                self.console_in = LocalHandle(value);
                self.stage = SetupStage::ReadingMode;
                SetupRequest::GetConsoleMode { console: self.console_out }
            },
            SetupStage::ReadingMode => {
                self.stage = SetupStage::SettingMode;
                let mode: u32 = #[verifier::truncate] (value as u32);
                SetupRequest::SetConsoleMode {
                    console: self.console_out,
                    mode: mode | ENABLE_VIRTUAL_TERMINAL_PROCESSING,
                }
            },
            SetupStage::SettingMode => {
                self.stage = SetupStage::BindingOutput;
                SetupRequest::SetStdHandle { stream: StdStream::Output, handle: self.console_out }
            },
            SetupStage::BindingOutput => {
                self.stage = SetupStage::BindingError;
                SetupRequest::SetStdHandle { stream: StdStream::Error, handle: self.console_out }
            },
            SetupStage::BindingError => {
                self.stage = SetupStage::BindingInput;
                SetupRequest::SetStdHandle { stream: StdStream::Input, handle: self.console_in }
            },
            SetupStage::BindingInput => {
                self.stage = SetupStage::OpeningPipeDirectory;
                SetupRequest::OpenPipeDirectory
            },
            SetupStage::OpeningPipeDirectory => {
                self.directory = LocalHandle(value);
                self.stage = SetupStage::CreatingServerPipe;
                SetupRequest::CreateServerPipe { directory: LocalHandle(value) }
            },
            SetupStage::CreatingServerPipe => {
                self.server_pipe = LocalHandle(value);
                self.stage = SetupStage::OpeningClientPipe;
                SetupRequest::OpenClientPipe { server: LocalHandle(value) }
            },
            SetupStage::OpeningClientPipe => {
                self.client_pipe = LocalHandle(value);
                self.stage = SetupStage::DuplicatingInput;
                SetupRequest::Duplicate { source: LocalHandle(value) }
            },
            SetupStage::DuplicatingInput => {
                self.input_read = LocalHandle(value);
                self.stage = SetupStage::DuplicatingOutput;
                SetupRequest::Duplicate { source: self.client_pipe }
            },
            SetupStage::DuplicatingOutput => {
                self.output_write = LocalHandle(value);
                self.stage = SetupStage::CreatingConsole;
                SetupRequest::CreatePseudoConsole {
                    size: to_coord(self.cols, self.rows),
                    input: self.input_read,
                    output: LocalHandle(value),
                }
            },
            SetupStage::CreatingConsole => {
                self.console = value;
                self.stage = SetupStage::HidingConsole;
                SetupRequest::HidePseudoConsole { pseudo: value }
            },
            _ => self.pass(),
        }
    }

    /// Takes the outcome of the call that was asked for and gives the next
    /// request. A call that yields a handle or a value reports it with its
    /// success; any other reports zero.
    pub fn advance(&mut self, outcome: Result<isize, OsFault>) -> (r: SetupRequest)
        ensures
            (*final(self), r@) == old(self).step(observed(outcome)),
    {
        let over = match self.stage {
            SetupStage::Ready => true,
            SetupStage::Failed => true,
            _ => false,
        };
        if over {
            self.fail(PtyError::protocol())
        } else {
            match outcome {
                Ok(value) => self.keep(value),
                Err(fault) => {
                    if self.required() {
                        let operation = self.operation();
                        self.fail(PtyError::from_os(operation, fault))
                    } else {
                        self.pass()
                    }
                },
            }
        }
    }
}

/// A handshake fails only where a required call fails or its protocol is
/// not kept: while it is under way, no success and no failure of a call
/// that is passed over ends it.
pub proof fn lemma_setup_fails_on_fault_only(s: ConPtySetup, outcome: Result<isize, FaultView>)
    requires
        s.stage != SetupStage::Ready,
        s.stage != SetupStage::Failed,
        s.step(outcome).1 is Fail,
    ensures
        outcome is Err,
        stage_required(s.stage),
        s.step(outcome).1 == (SetupRequestView::Fail {
            error: os_error(stage_operation(s.stage), outcome->Err_0.message),
            close: s.held_directory(),
        }),
{
}

/// The handshake goes forward: a step that does not end it enters a later
/// stage, and keeps the geometry it was begun with.
pub proof fn lemma_setup_progress(s: ConPtySetup, outcome: Result<isize, FaultView>)
    requires
        s.stage != SetupStage::Ready,
        s.stage != SetupStage::Failed,
    ensures
        stage_rank(s.step(outcome).0.stage) > stage_rank(s.stage),
        s.step(outcome).0.cols == s.cols,
        s.step(outcome).0.rows == s.rows,
{
}

/// Whether a handshake is over, complete or failed.
pub open spec fn setup_over(s: ConPtySetup) -> bool {
    s.stage == SetupStage::Ready || s.stage == SetupStage::Failed
}

/// The handshake after a run of outcomes; a handshake that is over takes
/// no further outcome.
pub open spec fn setup_run(s: ConPtySetup, outcomes: Seq<Result<isize, FaultView>>) -> ConPtySetup
    decreases outcomes.len(),
{
    if outcomes.len() == 0 || setup_over(s) {
        s
    } else {
        setup_run(s.step(outcomes[0]).0, outcomes.skip(1))
    }
}

/// Whether no required call fails in a run of outcomes.
pub open spec fn setup_unhindered(s: ConPtySetup, outcomes: Seq<Result<isize, FaultView>>) -> bool
    decreases outcomes.len(),
{
    if outcomes.len() == 0 || setup_over(s) {
        true
    } else {
        &&& outcomes[0] is Err ==> !stage_required(s.stage)
        &&& setup_unhindered(s.step(outcomes[0]).0, outcomes.skip(1))
    }
}

/// A handshake that no required call hinders is complete once it was
/// given an outcome for each stage it had left.
pub proof fn lemma_setup_completes(s: ConPtySetup, outcomes: Seq<Result<isize, FaultView>>)
    requires
        s.stage != SetupStage::Failed,
        outcomes.len() >= stage_rank(SetupStage::Ready) - stage_rank(s.stage),
        setup_unhindered(s, outcomes),
    ensures
        setup_run(s, outcomes).stage == SetupStage::Ready,
        setup_run(s, outcomes).cols == s.cols,
        setup_run(s, outcomes).rows == s.rows,
    decreases outcomes.len(),
{
    if !setup_over(s) {
        lemma_setup_progress(s, outcomes[0]);
        lemma_setup_completes(s.step(outcomes[0]).0, outcomes.skip(1));
    }
}

/// A session can be built for every valid geometry: the handshake begun
/// for it is complete after nineteen outcomes at most, provided that no
/// required call fails.
pub proof fn lemma_valid_geometry_builds(
    cols: i32,
    rows: i32,
    outcomes: Seq<Result<isize, FaultView>>,
)
    requires
        valid_geometry(cols as int, rows as int),
        outcomes.len() >= 19,
        setup_unhindered(ConPtySetup::initial(cols, rows), outcomes),
    ensures
        geometry_verdict(cols as int, rows as int) is Ok,
        setup_run(ConPtySetup::initial(cols, rows), outcomes).stage == SetupStage::Ready,
{
    lemma_setup_completes(ConPtySetup::initial(cols, rows), outcomes);
}

/// The pseudo-console of a session together with the mark that tells
/// whether it is still to be closed. The session and its cleanup worker
/// share one guard, and use it one at a time.
#[derive(Clone, Copy, Debug, PartialEq, Eq, Structural)]
pub struct ConsoleGuard {
    /// The pseudo-console.
    pub console: isize,
    /// Whether the pseudo-console is still to be closed.
    pub open: bool,
}

impl ConsoleGuard {
    /// What a claim gives and leaves: the console and a closed guard if
    /// the guard was open, else nothing and the guard as it was.
    pub open spec fn claimed(self) -> (ConsoleGuard, Option<isize>) {
        if self.open {
            (ConsoleGuard { open: false, ..self }, Some(self.console))
        } else {
            (self, None)
        }
    }

    /// What `n` claims in a row give.
    pub open spec fn claims(self, n: nat) -> Seq<Option<isize>>
        decreases n,
    {
        if n == 0 {
            Seq::empty()
        } else {
            seq![self.claimed().1] + self.claimed().0.claims((n - 1) as nat)
        }
    }

    /// The guard of a console that was just created.
    pub fn new(console: isize) -> (g: ConsoleGuard)
        ensures
            g == (ConsoleGuard { console, open: true }),
    {
        ConsoleGuard { console, open: true }
    }

    /// Claims the closing of the console: whoever gets the console must
    /// close it; whoever gets nothing must leave it alone.
    pub fn claim_close(&mut self) -> (r: Option<isize>)
        ensures
            (*final(self), r) == old(self).claimed(),
    {
        if self.open {
            self.open = false;
            Some(self.console)
        } else {
            None
        }
    }
}

/// The pseudo-console is closed once: of any number of claims on a guard,
/// the first gets the console if the guard was open, and no other gets
/// anything.
pub proof fn lemma_console_closed_once(g: ConsoleGuard, n: nat, i: int)
    requires
        0 <= i < n,
    ensures
        g.claims(n).len() == n,
        i > 0 ==> g.claims(n)[i] is None,
        g.claims(n)[0] == if g.open {
            Some(g.console)
        } else {
            None::<isize>
        },
    decreases n,
{
    let rest = g.claimed().0;
    if n > 1 {
        lemma_console_closed_once(rest, (n - 1) as nat, if i > 0 {
            i - 1
        } else {
            0
        });
        if i > 1 {
        } else if i == 1 {
            assert(!rest.open);
        }
    } else {
        assert(g.claims(1) =~= seq![g.claimed().1]) by {
            assert(rest.claims(0) =~= Seq::<Option<isize>>::empty());
        }
    }
}

/// What the spawn tells the cleanup worker: the handles of the child and of
/// its first thread, and the console the child runs in.
#[derive(Clone, Copy, Debug, PartialEq, Eq, Structural)]
pub struct ReleaseInfo {
    pub process: LocalHandle,
    pub thread: LocalHandle,
    pub console: isize,
}

/// What the cleanup worker does for what its two queues delivered: it
/// releases the console only when the spawn reported the child and the
/// watcher reported its exit; a session that is dropped first tells it to
/// leave the console alone.
pub open spec fn cleanup_verdict(info: Option<ReleaseInfo>, signal: Option<bool>) -> Option<
    ReleaseInfo,
> {
    match (info, signal) {
        (Some(release), Some(true)) => Some(release),
        _ => None,
    }
}

/// Decides what the cleanup worker does.
pub fn decide_cleanup(info: Option<ReleaseInfo>, signal: Option<bool>) -> (r: Option<ReleaseInfo>)
    ensures
        r == cleanup_verdict(info, signal),
{
    match info {
        Some(release) => match signal {
            Some(true) => Some(release),
            _ => None,
        },
        None => None,
    }
}

/// The cleanup worker's ends of the session's queues.
pub struct CleanupLink {
    release: Receiver<ReleaseInfo>,
    signal: Receiver<bool>,
}

impl CleanupLink {
    /// Waits for the spawn to report the child, and for the word on
    /// whether the console is to be released. With an answer the worker
    /// must claim the console from its guard and close it if it gets it.
    /// The console of the process is not the worker's to free: the session
    /// frees it when it is released.
    ///
    /// What the queues deliver is up to the session and its watcher; the
    /// result is what [`cleanup_verdict`] makes of it, and the second
    /// queue is not awaited where the first was cut.
    pub fn await_order(&self) -> (r: Option<ReleaseInfo>) {
        match recv(&self.release) {
            None => None,
            Some(info) => decide_cleanup(Some(info), recv(&self.signal)),
        }
    }
}

/// Where the spawn of a child stands.
#[derive(Clone, Copy, Debug, PartialEq, Eq, Structural)]
pub enum SpawnStage {
    /// No spawn is under way.
    Idle,
    /// The size of the attribute list is being asked for.
    Sizing,
    /// The attribute list is being initialised.
    Initializing,
    /// The pseudo-console is being put into the attribute list.
    Attaching,
    /// The process is being created.
    Creating,
    /// The identifier of the process is being asked for.
    Identifying,
}

/// What the host must do next to spawn the child, or how the spawn ended.
/// A call reports up to two numbers with its success.
#[derive(Debug)]
pub enum SpawnRequest {
    /// Report the size in bytes of an attribute list for one attribute.
    QueryAttributeSize,
    /// Initialise an attribute list for one attribute in `size` bytes of
    /// memory that live as long as the session.
    InitAttributes { size: usize },
    /// Put the pseudo-console into the list under this attribute.
    AttachConsole { attribute: u32, console: isize },
    /// Create the process with these flags, with the command line, the
    /// directory and the environment of these buffers, and with the
    /// attribute list; report the handles of the process and of its first
    /// thread.
    CreateProcess { flags: u32, buffers: SpawnBuffers },
    /// Report the identifier of this process.
    Identify { process: LocalHandle },
    /// The spawn is over.
    Finish(Result<bool, PtyError>),
}

/// Mathematical form of a [`SpawnRequest`].
pub enum SpawnRequestView {
    QueryAttributeSize,
    InitAttributes { size: usize },
    AttachConsole { attribute: u32, console: isize },
    CreateProcess { flags: u32, buffers: BuffersView },
    Identify { process: LocalHandle },
    Finish(Result<bool, ErrorView>),
}

impl View for SpawnRequest {
    type V = SpawnRequestView;

    open spec fn view(&self) -> SpawnRequestView {
        match *self {
            SpawnRequest::QueryAttributeSize => SpawnRequestView::QueryAttributeSize,
            SpawnRequest::InitAttributes { size } => SpawnRequestView::InitAttributes { size },
            SpawnRequest::AttachConsole { attribute, console } => SpawnRequestView::AttachConsole {
                attribute,
                console,
            },
            SpawnRequest::CreateProcess { flags, buffers } => SpawnRequestView::CreateProcess {
                flags,
                buffers: buffers@,
            },
            SpawnRequest::Identify { process } => SpawnRequestView::Identify { process },
            SpawnRequest::Finish(Ok(done)) => SpawnRequestView::Finish(Ok(done)),
            SpawnRequest::Finish(Err(e)) => SpawnRequestView::Finish(Err(e@)),
        }
    }
}

/// The buffers that process creation is given.
#[derive(Debug)]
pub struct SpawnBuffers {
    /// The command line: program, arguments, closing NUL.
    pub command_line: Vec<u16>,
    /// The working directory with its closing NUL, if one was named.
    pub working_dir: Option<Vec<u16>>,
    /// The environment block with its extra closing NUL, if one was given.
    pub environment: Option<Vec<u16>>,
}

/// Mathematical form of [`SpawnBuffers`].
pub struct BuffersView {
    pub command_line: Seq<u16>,
    pub working_dir: Option<Seq<u16>>,
    pub environment: Option<Seq<u16>>,
}

impl View for SpawnBuffers {
    type V = BuffersView;

    open spec fn view(&self) -> BuffersView {
        BuffersView {
            command_line: self.command_line@,
            working_dir: wide_view(self.working_dir),
            environment: wide_view(self.environment),
        }
    }
}

/// The buffers of a spawn: the arguments follow the program name after
/// one space; the command line, the directory and the environment are
/// each closed with a NUL.
pub open spec fn spawn_buffers(
    appname: Seq<u16>,
    cmdline: Option<Seq<u16>>,
    cwd: Option<Seq<u16>>,
    env: Option<Seq<u16>>,
) -> BuffersView {
    BuffersView {
        command_line: command_line(appname, cmdline),
        working_dir: terminated_opt(cwd),
        environment: terminated_opt(env),
    }
}

/// A wide text with a closing NUL, where there is one.
pub open spec fn terminated_opt(text: Option<Seq<u16>>) -> Option<Seq<u16>> {
    match text {
        Some(t) => Some(terminated(t)),
        None => None,
    }
}

/// The view of a wide text that may be absent.
pub open spec fn wide_view(text: Option<Vec<u16>>) -> Option<Seq<u16>> {
    match text {
        Some(t) => Some(t@),
        None => None,
    }
}

/// The view of a borrowed wide text that may be absent.
pub open spec fn wide_ref_view(text: Option<&Vec<u16>>) -> Option<Seq<u16>> {
    match text {
        Some(t) => Some(t@),
        None => None,
    }
}

/// Copies a wide text that may be absent and closes it with a NUL.
pub fn terminate_opt(text: Option<&Vec<u16>>) -> (r: Option<Vec<u16>>)
    ensures
        wide_view(r) == terminated_opt(wide_ref_view(text)),
{
    match text {
        Some(t) => Some(terminate(t)),
        None => None,
    }
}

/// Composes what process creation is given from the program name, the
/// arguments, the working directory and the environment: the arguments
/// follow the program name after one space; the directory and the
/// environment, which holds `VAR=VALUE` entries behind a NUL each, are
/// closed with a NUL.
pub fn compose_spawn(
    appname: &Vec<u16>,
    cmdline: Option<&Vec<u16>>,
    cwd: Option<&Vec<u16>>,
    env: Option<&Vec<u16>>,
) -> (r: SpawnBuffers)
    ensures
        r@ == spawn_buffers(
            appname@,
            wide_ref_view(cmdline),
            wide_ref_view(cwd),
            wide_ref_view(env),
        ),
{
    SpawnBuffers {
        command_line: compose_command_line(appname, cmdline),
        working_dir: terminate_opt(cwd),
        environment: terminate_opt(env),
    }
}

/// What the host must do to release a session, in the order in which it
/// must do it.
#[derive(Clone, Copy, Debug, PartialEq, Eq, Structural)]
pub enum ReleaseRequest {
    /// Close this handle.
    Close(LocalHandle),
    /// Delete the attribute list.
    DeleteAttributes,
    /// Claim the console from its guard and close it if the claim gets it.
    CloseConsole,
    /// Free the console of the process.
    FreeConsole,
}

/// Mathematical form of a [`ConPTY`].
pub struct ConPtyView {
    /// The engine.
    pub engine: EngineView,
    /// The pseudo-console.
    pub console: isize,
    /// Whether the session allocated the console of the process.
    pub console_allocated: bool,
    /// The handle of the child process, null before a spawn.
    pub child_process: LocalHandle,
    /// The handle of the child's first thread, null before a spawn.
    pub child_thread: LocalHandle,
    /// Whether an attribute list was initialised.
    pub attributes_ready: bool,
    /// Where a spawn stands.
    pub spawn: SpawnStage,
    /// The buffers of the spawn under way, until the process is created.
    pub buffers: Option<BuffersView>,
    /// Whether the release of the session was begun.
    pub released: bool,
}

impl ConPtyView {
    /// The session at another stage of a spawn.
    pub open spec fn spawning(self, spawn: SpawnStage) -> ConPtyView {
        ConPtyView { spawn, ..self }
    }

    /// The spawn that failed in `operation`.
    pub open spec fn spawn_failure(self, operation: Operation, message: Seq<char>) -> (
        ConPtyView,
        SpawnRequestView,
    ) {
        (
            ConPtyView { buffers: None, ..self }.spawning(SpawnStage::Idle),
            SpawnRequestView::Finish(Err(os_error(operation, message))),
        )
    }

    /// The first step of a spawn: the buffers are kept for the creation of
    /// the process.
    pub open spec fn spawn_start(self, buffers: BuffersView) -> (ConPtyView, SpawnRequestView) {
        (
            ConPtyView { buffers: Some(buffers), ..self }.spawning(SpawnStage::Sizing),
            SpawnRequestView::QueryAttributeSize,
        )
    }

    /// One step of a spawn: the outcome of the call that was asked for
    /// gives the next state and the next request.
    ///
    /// The attribute list is sized, initialised and given the
    /// pseudo-console; the process is created from the buffers that the
    /// spawn was begun with, with an extended start-up record and a
    /// wide-character environment; its identifier is asked
    /// for; the engine takes the child, whose handle stays the backend's
    /// to close. The failure of any call ends the spawn with the error of
    /// that call.
    pub open spec fn spawn_step(self, outcome: Result<(isize, isize), FaultView>) -> (
        ConPtyView,
        SpawnRequestView,
    ) {
        match self.spawn {
            SpawnStage::Idle => (
                self,
                SpawnRequestView::Finish(Err(protocol_error())),
            ),
            SpawnStage::Sizing => match outcome {
                Ok(pair) => (
                    self.spawning(SpawnStage::Initializing),
                    SpawnRequestView::InitAttributes { size: pair.0 as usize },
                ),
                Err(fault) => self.spawn_failure(
                    Operation::InitializeProcThreadAttributeList,
                    fault.message,
                ),
            },
            SpawnStage::Initializing => match outcome {
                Ok(_) => (
                    ConPtyView { attributes_ready: true, ..self }.spawning(SpawnStage::Attaching),
                    SpawnRequestView::AttachConsole {
                        attribute: PROC_THREAD_ATTRIBUTE_PSEUDOCONSOLE,
                        console: self.console,
                    },
                ),
                Err(fault) => self.spawn_failure(
                    Operation::InitializeProcThreadAttributeList,
                    fault.message,
                ),
            },
            SpawnStage::Attaching => match outcome {
                Ok(_) => match self.buffers {
                    Some(buffers) => (
                        ConPtyView { buffers: None, ..self }.spawning(SpawnStage::Creating),
                        SpawnRequestView::CreateProcess {
                            flags: EXTENDED_STARTUPINFO_PRESENT | CREATE_UNICODE_ENVIRONMENT,
                            buffers,
                        },
                    ),
                    None => (
                        self.spawning(SpawnStage::Idle),
                        SpawnRequestView::Finish(Err(protocol_error())),
                    ),
                },
                Err(fault) => self.spawn_failure(
                    Operation::UpdateProcThreadAttribute,
                    fault.message,
                ),
            },
            SpawnStage::Creating => match outcome {
                Ok(pair) => (
                    ConPtyView {
                        child_process: LocalHandle(pair.0),
                        child_thread: LocalHandle(pair.1),
                        ..self
                    }.spawning(SpawnStage::Identifying),
                    SpawnRequestView::Identify { process: LocalHandle(pair.0) },
                ),
                Err(fault) => self.spawn_failure(Operation::CreateProcess, fault.message),
            },
            SpawnStage::Identifying => {
                let pid = match outcome {
                    Ok(pair) => pair.0 as u32,
                    Err(_) => 0u32,
                };
                (
                    ConPtyView {
                        engine: EngineView {
                            process: self.child_process,
                            close_process: false,
                            pid,
                            ..self.engine
                        },
                        ..self
                    }.spawning(SpawnStage::Idle),
                    SpawnRequestView::Finish(Ok(true)),
                )
            },
        }
    }

    /// What the host must do to release the session, in order: the
    /// handles of the child's thread and process are closed where they are
    /// valid, the attribute list is deleted where one was initialised, the
    /// console is closed through its guard, and the console of the process
    /// is freed where the session allocated it.
    pub open spec fn release_plan(self) -> Seq<ReleaseRequest> {
        let thread = if self.child_thread.spec_is_invalid() {
            Seq::<ReleaseRequest>::empty()
        } else {
            seq![ReleaseRequest::Close(self.child_thread)]
        };
        let process = if self.child_process.spec_is_invalid() {
            Seq::<ReleaseRequest>::empty()
        } else {
            seq![ReleaseRequest::Close(self.child_process)]
        };
        let attributes = if self.attributes_ready {
            seq![ReleaseRequest::DeleteAttributes]
        } else {
            Seq::<ReleaseRequest>::empty()
        };
        let console = seq![ReleaseRequest::CloseConsole];
        let free = if self.console_allocated {
            seq![ReleaseRequest::FreeConsole]
        } else {
            Seq::<ReleaseRequest>::empty()
        };
        thread + process + attributes + console + free
    }

    /// What a release gives and leaves: the plan, once; nothing after.
    pub open spec fn release(self) -> (ConPtyView, Seq<ReleaseRequest>) {
        if self.released {
            (self, Seq::empty())
        } else {
            (ConPtyView { released: true, ..self }, self.release_plan())
        }
    }
}

/// A resize that the system is asked for.
#[derive(Clone, Copy, Debug, PartialEq, Eq, Structural)]
pub struct Resize {
    /// The console to resize.
    pub console: isize,
    /// Its new size.
    pub size: Coord,
}

/// Whether both sides of a geometry fit the sixteen bits in which the
/// system takes the size of a console.
pub open spec fn fits_console(cols: int, rows: int) -> bool {
    cols <= i16::MAX && rows <= i16::MAX
}

/// The error that refuses a size the system cannot take.
pub open spec fn oversize_error(cols: int, rows: int) -> ErrorView {
    ErrorView {
        kind: ErrorKind::InvalidConfiguration,
        operation: None,
        message: "PTY cols and rows must not exceed 32767. Got: ("@ + decimal(cols) + ", "@
            + decimal(rows) + ")"@,
    }
}

/// The error of a resize that comes after the console was closed.
pub open spec fn closed_console_error() -> ErrorView {
    os_error(Operation::ResizePseudoConsole, "The pseudo-console has been closed"@)
}

/// What a resize is answered with: a geometry that is not valid, or does
/// not fit, is refused; a resize of a console that was closed fails as a
/// call to the system would; else the system is asked for exactly the
/// size that was asked for.
pub open spec fn resize_verdict(guard: ConsoleGuard, cols: i32, rows: i32) -> Result<
    Resize,
    ErrorView,
> {
    if !valid_geometry(cols as int, rows as int) {
        Err(geometry_error(cols as int, rows as int))
    } else if !fits_console(cols as int, rows as int) {
        Err(oversize_error(cols as int, rows as int))
    } else if !guard.open {
        Err(closed_console_error())
    } else {
        Ok(Resize { console: guard.console, size: Coord { x: cols as i16, y: rows as i16 } })
    }
}

/// A resize that is granted asks the system for the size that was asked
/// for, on a console that is open; no resize is granted for a side above
/// 32767 or below 1, or after the console was closed.
pub proof fn lemma_resize_is_exact(guard: ConsoleGuard, cols: i32, rows: i32)
    ensures
        resize_verdict(guard, cols, rows) matches Ok(resize) ==> resize.size.x == cols
            && resize.size.y == rows && resize.console == guard.console && guard.open,
        resize_verdict(guard, cols, rows) is Ok <==> 0 < cols <= i16::MAX && 0 < rows
            <= i16::MAX && guard.open,
        !guard.open && valid_geometry(cols as int, rows as int) && fits_console(
            cols as int,
            rows as int,
        ) ==> resize_verdict(guard, cols, rows) == Err::<Resize, ErrorView>(
            closed_console_error(),
        ),
{
}

/// A session on the pseudo-console backend.
pub struct ConPTY {
    /// The engine of the session.
    process: PTYProcess,
    /// The pseudo-console.
    console: isize,
    /// Whether the session allocated the console of the process.
    console_allocated: bool,
    /// The handle of the child process.
    child_process: LocalHandle,
    /// The handle of the child's first thread.
    child_thread: LocalHandle,
    /// Whether an attribute list was initialised.
    attributes_ready: bool,
    /// Where a spawn stands.
    spawn: SpawnStage,
    /// The buffers of the spawn under way.
    buffers: Option<SpawnBuffers>,
    /// Whether the release of the session was begun.
    released: bool,
    /// Queue that tells the cleanup worker of the child.
    release_info_tx: Sender<ReleaseInfo>,
    /// Queue that tells the cleanup worker whether to release the console.
    cleanup_tx: Sender<bool>,
}

impl View for ConPTY {
    type V = ConPtyView;

    closed spec fn view(&self) -> ConPtyView {
        ConPtyView {
            engine: self.process@,
            console: self.console,
            console_allocated: self.console_allocated,
            child_process: self.child_process,
            child_thread: self.child_thread,
            attributes_ready: self.attributes_ready,
            spawn: self.spawn,
            buffers: match self.buffers {
                Some(buffers) => Some(buffers@),
                None => None,
            },
            released: self.released,
        }
    }
}

/// What a completed handshake is turned into: the session, the guard of
/// its console, and the ends of its queues for the three workers.
pub struct ConPtyParts {
    pub session: ConPTY,
    pub guard: ConsoleGuard,
    pub reader: ReaderLink,
    pub watcher: Option<WatcherLink>,
    pub cleanup: CleanupLink,
}

/// The session that a completed handshake gives: an engine that reads and
/// writes the server end of the pipe with completion records, no child
/// yet.
pub open spec fn fresh_session(setup: ConPtySetup) -> ConPtyView {
    ConPtyView {
        engine: fresh_engine(setup.server_pipe, setup.server_pipe, true, true),
        console: setup.console,
        console_allocated: setup.console_allocated,
        child_process: LocalHandle(0),
        child_thread: LocalHandle(0),
        attributes_ready: false,
        spawn: SpawnStage::Idle,
        buffers: None,
        released: false,
    }
}

impl ConPTY {
    /// Makes the session of a completed handshake. A handshake that is
    /// not complete gives the error of a protocol that was not kept; one
    /// that claims to be complete for a geometry that is not valid is
    /// refused for its geometry.
    pub fn new(setup: ConPtySetup) -> (r: Result<ConPtyParts, PtyError>)
        ensures
            r is Ok <==> setup.stage == SetupStage::Ready && valid_geometry(
                setup.cols as int,
                setup.rows as int,
            ),
            r matches Ok(parts) ==> {
                &&& parts.session@ == fresh_session(setup)
                &&& parts.guard == (ConsoleGuard { console: setup.console, open: true })
                &&& parts.reader.asynchronous()
                &&& parts.reader.using_pipes()
                &&& parts.reader.stream() == setup.server_pipe
                &&& parts.watcher matches Some(watcher) && watcher.stream() == setup.server_pipe
            },
            r matches Err(e) ==> e@ == if setup.stage == SetupStage::Ready {
                geometry_error(setup.cols as int, setup.rows as int)
            } else {
                protocol_error()
            },
    {
        if !setup.is_ready() {
            return Err(PtyError::protocol());
        }
        match check_geometry(setup.cols, setup.rows) {
            Err(e) => {
                return Err(e);
            },
            Ok(_) => {},
        }
        let (cleanup_tx, cleanup_rx) = unbounded::<bool>();
        let (release_info_tx, release_info_rx) = unbounded::<ReleaseInfo>();
        let (process, reader, watcher) = PTYProcess::new(
            setup.server_pipe,
            setup.server_pipe,
            true,
            true,
            Some(clone_sender(&cleanup_tx)),
        );
        let session = ConPTY {
            process,
            console: setup.console,
            console_allocated: setup.console_allocated,
            child_process: LocalHandle(0),
            child_thread: LocalHandle(0),
            attributes_ready: false,
            spawn: SpawnStage::Idle,
            buffers: None,
            released: false,
            release_info_tx,
            cleanup_tx,
        };
        Ok(
            ConPtyParts {
                session,
                guard: ConsoleGuard::new(setup.console),
                reader,
                watcher,
                cleanup: CleanupLink { release: release_info_rx, signal: cleanup_rx },
            },
        )
    }

    /// Begins the spawn of a child from the program name, the arguments,
    /// the working directory and the environment, which holds `VAR=VALUE`
    /// entries behind a NUL each. The buffers composed from them are what
    /// the process is created with.
    pub fn spawn(
        &mut self,
        appname: &Vec<u16>,
        cmdline: Option<&Vec<u16>>,
        cwd: Option<&Vec<u16>>,
        env: Option<&Vec<u16>>,
    ) -> (r: SpawnRequest)
        ensures
            (final(self)@, r@) == old(self)@.spawn_start(
                spawn_buffers(
                    appname@,
                    wide_ref_view(cmdline),
                    wide_ref_view(cwd),
                    wide_ref_view(env),
                ),
            ),
    {
        self.buffers = Some(compose_spawn(appname, cmdline, cwd, env));
        self.spawn = SpawnStage::Sizing;
        SpawnRequest::QueryAttributeSize
    }

    /// Ends a spawn with the failure of `operation`.
    fn spawn_failed(&mut self, operation: Operation, fault: OsFault) -> (r: SpawnRequest)
        ensures
            (final(self)@, r@) == old(self)@.spawn_failure(operation, fault.message@),
    {
        self.buffers = None;
        self.spawn = SpawnStage::Idle;
        SpawnRequest::Finish(Err(PtyError::from_os(operation, fault)))
    }

    /// Takes the outcome of the call that was asked for and gives the next
    /// request of the spawn. The size query reports the size; process
    /// creation reports the handles of the process and of its thread; the
    /// query of the identifier reports it; any other call reports zeros.
    pub fn spawn_step(&mut self, outcome: Result<(isize, isize), OsFault>) -> (r: SpawnRequest)
        ensures
            (final(self)@, r@) == old(self)@.spawn_step(observed(outcome)),
    {
        match self.spawn {
            SpawnStage::Idle => SpawnRequest::Finish(Err(PtyError::protocol())),
            SpawnStage::Sizing => match outcome {
                Ok(pair) => {
                    self.spawn = SpawnStage::Initializing;
                    SpawnRequest::InitAttributes { size: #[verifier::truncate] (pair.0 as usize) }
                },
                Err(fault) => self.spawn_failed(
                    Operation::InitializeProcThreadAttributeList,
                    fault,
                ),
            },
            SpawnStage::Initializing => match outcome {
                Ok(_) => {
                    self.attributes_ready = true;
                    self.spawn = SpawnStage::Attaching;
                    SpawnRequest::AttachConsole {
                        attribute: PROC_THREAD_ATTRIBUTE_PSEUDOCONSOLE,
                        console: self.console,
                    }
                },
                Err(fault) => self.spawn_failed(
                    Operation::InitializeProcThreadAttributeList,
                    fault,
                ),
            },
            SpawnStage::Attaching => match outcome {
                Ok(_) => match self.buffers.take() {
                    Some(buffers) => {
                        self.spawn = SpawnStage::Creating;
                        SpawnRequest::CreateProcess {
                            flags: EXTENDED_STARTUPINFO_PRESENT | CREATE_UNICODE_ENVIRONMENT,
                            buffers,
                        }
                    },
                    None => {
                        self.spawn = SpawnStage::Idle;
                        SpawnRequest::Finish(Err(PtyError::protocol()))
                    },
                },
                Err(fault) => self.spawn_failed(Operation::UpdateProcThreadAttribute, fault),
            },
            SpawnStage::Creating => match outcome {
                Ok(pair) => {
                    self.child_process = LocalHandle(pair.0);
                    self.child_thread = LocalHandle(pair.1);
                    self.spawn = SpawnStage::Identifying;
                    SpawnRequest::Identify { process: LocalHandle(pair.0) }
                },
                Err(fault) => self.spawn_failed(Operation::CreateProcess, fault),
            },
            SpawnStage::Identifying => {
                let pid: u32 = match outcome {
                    Ok(pair) => #[verifier::truncate] (pair.0 as u32),
                    Err(_) => 0u32,
                };
                let _ = self.process.set_process(self.child_process, false, pid);
                let _ = send(
                    &self.release_info_tx,
                    ReleaseInfo {
                        process: self.child_process,
                        thread: self.child_thread,
                        console: self.console,
                    },
                );
                self.spawn = SpawnStage::Idle;
                SpawnRequest::Finish(Ok(true))
            },
        }
    }

    /// Decides a resize, given the guard of the console: the geometry must
    /// be valid, each side must fit the sixteen bits the system takes, and
    /// the console must still be open. The answer names the console and
    /// the size to hand to the system, which is the size asked for.
    pub fn set_size(&self, guard: &ConsoleGuard, cols: i32, rows: i32) -> (r: Result<
        Resize,
        PtyError,
    >)
        ensures
            lifted(r) == resize_verdict(*guard, cols, rows),
            r matches Ok(resize) ==> resize.size.x == cols && resize.size.y == rows
                && resize.console == guard.console && guard.open,
            cols > i16::MAX || rows > i16::MAX || cols <= 0 || rows <= 0 || !guard.open ==> r
                is Err,
    {
        match check_geometry(cols, rows) {
            Err(e) => Err(e),
            Ok(_) => {
                if cols > 32767 || rows > 32767 {
                    let mut message = String::from_str(
                        "PTY cols and rows must not exceed 32767. Got: (",
                    );
                    append_decimal(&mut message, cols as i64);
                    message.append(", ");
                    append_decimal(&mut message, rows as i64);
                    message.append(")");
                    Err(
                        PtyError {
                            kind: ErrorKind::InvalidConfiguration,
                            operation: None,
                            message,
                        },
                    )
                } else if !guard.open {
                    Err(
                        PtyError::from_os(
                            Operation::ResizePseudoConsole,
                            OsFault {
                                code: 0,
                                message: String::from_str("The pseudo-console has been closed"),
                            },
                        ),
                    )
                } else {
                    Ok(
                        Resize {
                            console: guard.console,
                            size: Coord { x: cols as i16, y: rows as i16 },
                        },
                    )
                }
            },
        }
    }

    /// Reads the outcome of resizing the pseudo-console.
    pub fn resized(outcome: Result<(), OsFault>) -> (r: Result<(), PtyError>)
        ensures
            outcome is Ok ==> r is Ok,
            outcome matches Err(fault) ==> lifted(r) == Err::<(), ErrorView>(
                os_error(Operation::ResizePseudoConsole, fault.message@),
            ),
    {
        match outcome {
            Ok(_) => Ok(()),
            Err(fault) => Err(PtyError::from_os(Operation::ResizePseudoConsole, fault)),
        }
    }

    /// Begins the release of the session: tells the cleanup worker to
    /// leave the console alone, and gives what the host must do, in order,
    /// before it tears the engine down. A release that was begun before
    /// gives nothing to do.
    pub fn release(&mut self) -> (r: Vec<ReleaseRequest>)
        ensures
            (final(self)@, r@) == old(self)@.release(),
    {
        let mut plan: Vec<ReleaseRequest> = Vec::new();
        if self.released {
            return plan;
        }
        self.released = true;
        let _ = send(&self.cleanup_tx, false);
        let ghost thread = if self.child_thread.spec_is_invalid() {
            Seq::<ReleaseRequest>::empty()
        } else {
            seq![ReleaseRequest::Close(self.child_thread)]
        };
        let ghost process = if self.child_process.spec_is_invalid() {
            Seq::<ReleaseRequest>::empty()
        } else {
            seq![ReleaseRequest::Close(self.child_process)]
        };
        let ghost attributes = if self.attributes_ready {
            seq![ReleaseRequest::DeleteAttributes]
        } else {
            Seq::<ReleaseRequest>::empty()
        };
        if !self.child_thread.is_invalid() {
            plan.push(ReleaseRequest::Close(self.child_thread));
        }
        assert(plan@ =~= thread);
        if !self.child_process.is_invalid() {
            plan.push(ReleaseRequest::Close(self.child_process));
        }
        assert(plan@ =~= thread + process);
        if self.attributes_ready {
            plan.push(ReleaseRequest::DeleteAttributes);
        }
        assert(plan@ =~= thread + process + attributes);
        plan.push(ReleaseRequest::CloseConsole);
        if self.console_allocated {
            plan.push(ReleaseRequest::FreeConsole);
        }
        assert(plan@ =~= old(self)@.release_plan());
        plan
    }

    /// Drives the teardown of the engine one step; the release of the
    /// session comes first. See [`PTYProcess::teardown`].
    pub fn teardown(&mut self) -> (r: TeardownRequest)
        ensures
            exists|answer: bool|
                (final(self)@.engine, r) == #[trigger] old(self)@.engine.teardown_step(answer),
            final(self)@ == (ConPtyView { engine: final(self)@.engine, ..old(self)@ }),
    {
        self.process.teardown()
    }

    /// Reads from the output of the child; see [`PTYProcess::read`].
    pub fn read(&mut self, blocking: bool) -> (r: Result<Vec<u16>, PtyError>)
        ensures
            final(self)@ == (ConPtyView { engine: final(self)@.engine, ..old(self)@ }),
            final(self)@.engine == (EngineView {
                at_eof: final(self)@.engine.at_eof,
                ..old(self)@.engine
            }),
            exists|got: super::channel::Polled<super::base::ItemView>|
                (final(self)@.engine.at_eof, super::base::text_view(r))
                    == #[trigger] super::base::read_transition(old(self)@.engine.at_eof, got),
    {
        self.process.read(blocking)
    }

    /// The write side that belongs to this session, with nothing in
    /// flight; see [`PTYProcess::writer`].
    pub fn writer(&self) -> (w: Writer)
        ensures
            w == (Writer { asynchronous: self@.engine.asynchronous, pending: false }),
            w.wf(),
    {
        self.process.writer()
    }

    /// Begins the write of a buffer of `len` bytes to the input of the
    /// child; see [`PTYProcess::write`].
    pub fn write(&self, writer: &mut Writer, len: usize) -> (r: (WriteOp, WriteRequest))
        ensures
            (*final(writer), r.0, r.1@) == write_next(*old(writer), write_start(len)),
            r.0.wf(),
            old(writer).wf() ==> final(writer).wf(),
    {
        self.process.write(writer, len)
    }

    /// Whether the output of the session is over; see
    /// [`PTYProcess::is_eof`].
    pub fn is_eof(&self, waiting: Option<u32>, alive: Result<bool, PtyError>) -> (r: Result<
        bool,
        PtyError,
    >)
        ensures
            self@.engine.phase == Phase::Closed ==> lifted(r) == Ok::<bool, ErrorView>(true),
            self@.engine.phase != Phase::Closed && lifted(r) == Ok::<bool, ErrorView>(true)
                ==> alive == Ok::<bool, PtyError>(false) && (waiting matches Some(bytes) ==> bytes
                == 0),
            self@.engine.phase != Phase::Closed ==> (alive matches Err(e) ==> lifted(r) == Err::<
                bool,
                ErrorView,
            >(e@)),
            self@.engine.phase != Phase::Closed ==> (alive matches Ok(running) ==> exists|
                ready: bool,
                reader_active: bool,
                queued: bool,
            |
                lifted(r) == Ok::<bool, ErrorView>(
                    (#[trigger] super::base::output_state(
                        false,
                        super::base::StreamProbe { ready, reader_active, waiting },
                        running,
                        queued,
                    )).spec_at_end(),
                )),
    {
        self.process.is_eof(waiting, alive)
    }

    /// The exit status of the child; see [`PTYProcess::get_exitstatus`].
    pub fn get_exitstatus(&self, outcome: Result<u32, OsFault>) -> (r: Result<
        Option<u32>,
        PtyError,
    >)
        ensures
            self@.engine.pid == 0 ==> lifted(r) == Ok::<Option<u32>, ErrorView>(None),
            self@.engine.pid != 0 ==> (outcome matches Ok(code) ==> lifted(r) == Ok::<
                Option<u32>,
                ErrorView,
            >(super::base::exit_status(code))),
            self@.engine.pid != 0 ==> (outcome matches Err(fault) ==> lifted(r) == Err::<
                Option<u32>,
                ErrorView,
            >(os_error(Operation::GetExitCodeProcess, fault.message@))),
    {
        self.process.get_exitstatus(outcome)
    }

    /// Whether the child is alive; see [`PTYProcess::is_alive`].
    pub fn is_alive(&self, status: u32, fault: OsFault) -> (r: Result<bool, PtyError>)
        ensures
            lifted(r) == super::base::liveness(status, fault.message@),
    {
        self.process.is_alive(status, fault)
    }

    /// Whether the child has exited; see [`PTYProcess::wait_for_exit`].
    pub fn wait_for_exit(&self, status: u32, fault: OsFault) -> (r: Result<bool, PtyError>)
        ensures
            lifted(r) == super::base::departure(status, fault.message@),
    {
        self.process.wait_for_exit(status, fault)
    }

    /// Reads the outcome of cancelling pending reads; see
    /// [`PTYProcess::cancel_io`].
    pub fn cancel_io(&self, outcome: Result<(), OsFault>) -> (r: Result<bool, PtyError>)
        ensures
            lifted(r) == super::base::cancellation(observed(outcome)),
    {
        self.process.cancel_io(outcome)
    }

    /// The identifier of the child, zero before a spawn.
    pub fn get_pid(&self) -> (pid: u32)
        ensures
            pid == self@.engine.pid,
    {
        self.process.get_pid()
    }

    /// The handle of the child as a number, zero before a spawn.
    pub fn get_fd(&self) -> (fd: isize)
        ensures
            fd == self@.engine.process.0,
    {
        self.process.get_fd()
    }

    /// The stream that is written to and read from.
    pub fn stream(&self) -> (h: LocalHandle)
        ensures
            h == self@.engine.conin,
    {
        self.process.input_handle()
    }

    /// The handle of the child process.
    pub fn process_handle(&self) -> (h: LocalHandle)
        ensures
            h == self@.engine.process,
    {
        self.process.process_handle()
    }
}

/// The creation flags of the child are `0x80400`.
pub proof fn lemma_creation_flags()
    ensures
        EXTENDED_STARTUPINFO_PRESENT | CREATE_UNICODE_ENVIRONMENT == 0x0008_0400u32,
{
    assert(0x0008_0000u32 | 0x0000_0400u32 == 0x0008_0400u32) by (bit_vector);
}

/// A spawn that succeeds makes the child known: once process creation
/// has reported the handles of the child and the query has reported its
/// identifier, the session reports that identifier and that handle, and
/// the handle stays the backend's to close.
pub proof fn lemma_spawn_makes_child_known(
    v: ConPtyView,
    process: isize,
    thread: isize,
    pid: u32,
)
    requires
        v.spawn == SpawnStage::Creating,
    ensures
        ({
            let created = v.spawn_step(Ok((process, thread)));
            let known = created.0.spawn_step(Ok((pid as isize, 0isize)));
            &&& created.1 == (SpawnRequestView::Identify { process: LocalHandle(process) })
            &&& known.1 == SpawnRequestView::Finish(Ok(true))
            &&& known.0.engine.pid == pid
            &&& known.0.engine.process == LocalHandle(process)
            &&& !known.0.engine.close_process
            &&& known.0.child_process == LocalHandle(process)
            &&& known.0.child_thread == LocalHandle(thread)
            &&& known.0.spawn == SpawnStage::Idle
        }),
{
    let wide: isize = pid as isize;
    assert(wide as u32 == pid) by (bit_vector)
        requires
            wide == pid as isize,
    ;
}

/// The child is created from what the spawn was begun with: once the
/// attribute list was sized, initialised and given the console, the
/// request to create the process carries the buffers of the beginning of
/// the spawn, and the creation flags.
pub proof fn lemma_spawn_creates_from_its_buffers(
    v: ConPtyView,
    buffers: BuffersView,
    size: isize,
    done: (isize, isize),
)
    ensures
        ({
            let sized = v.spawn_start(buffers).0.spawn_step(Ok((size, 0isize))).0;
            let attached = sized.spawn_step(Ok(done)).0.spawn_step(Ok(done));
            attached.1 == (SpawnRequestView::CreateProcess {
                flags: EXTENDED_STARTUPINFO_PRESENT | CREATE_UNICODE_ENVIRONMENT,
                buffers,
            })
        }),
{
}

/// A spawn ends in failure exactly where one of its calls fails, with the
/// error of that call; the failure of process creation is a failure to
/// spawn the child.
pub proof fn lemma_spawn_failure(v: ConPtyView, fault: FaultView)
    requires
        v.spawn != SpawnStage::Idle,
        v.spawn != SpawnStage::Identifying,
    ensures
        v.spawn_step(Err(fault)).1 matches SpawnRequestView::Finish(Err(e)) && e.message
            == fault.message && (e.kind == super::error::ErrorKind::ChildSpawnFailure <==> v.spawn
            == SpawnStage::Creating),
        v.spawn_step(Err(fault)).0.engine == v.engine,
{
}

/// The handles that a release plan asks to close.
pub open spec fn released_handles(plan: Seq<ReleaseRequest>) -> Seq<LocalHandle>
    decreases plan.len(),
{
    if plan.len() == 0 {
        Seq::empty()
    } else {
        let rest = released_handles(plan.drop_last());
        match plan.last() {
            ReleaseRequest::Close(handle) => rest.push(handle),
            _ => rest,
        }
    }
}

/// Releasing a session and tearing its engine down closes no handle
/// twice. The release closes the handles of the child's thread and
/// process; the engine of a pseudo-console session closes its stream and
/// nothing else; so where the stream, the process and the thread are
/// three different handles, all that is closed is closed once. A second
/// release closes nothing.
pub proof fn lemma_session_closes_once(v: ConPtyView, answers: Seq<bool>)
    requires
        !v.released,
        v.engine.phase == Phase::Open,
        v.engine.asynchronous,
        !v.engine.close_process,
        v.child_thread != v.child_process,
        v.engine.conin != v.child_thread,
        v.engine.conin != v.child_process,
    ensures
        (released_handles(v.release().1) + v.engine.closed_by(answers)).no_duplicates(),
        released_handles(v.release().0.release().1) == Seq::<LocalHandle>::empty(),
        v.release().0.engine == v.engine,
{
    let plan = v.release_plan();
    let thread = if v.child_thread.spec_is_invalid() {
        Seq::<LocalHandle>::empty()
    } else {
        seq![v.child_thread]
    };
    let process = if v.child_process.spec_is_invalid() {
        Seq::<LocalHandle>::empty()
    } else {
        seq![v.child_process]
    };
    lemma_released_handles(v);
    assert(released_handles(plan) == thread + process);
    super::base::lemma_teardown_follows_plan(v.engine, answers);
    let torn = v.engine.closed_by(answers);
    let due = v.engine.close_plan();
    assert(due.len() <= 1);
    assert(forall|i: int| 0 <= i < due.len() ==> due[i] == v.engine.conin);
    assert(torn.len() <= due.len());
    assert forall|i: int| 0 <= i < torn.len() implies torn[i] == v.engine.conin by {
        assert(torn[i] == due[i]);
    }
    let all = released_handles(plan) + torn;
    assert forall|i: int, j: int| 0 <= i < all.len() && 0 <= j < all.len() && i != j implies all[i]
        != all[j] by {
        let head = thread + process;
        if i < head.len() && j < head.len() {
        } else if i < head.len() {
            assert(all[j] == torn[j - head.len()]);
        } else if j < head.len() {
            assert(all[i] == torn[i - head.len()]);
        } else {
            assert(torn.len() <= 1);
        }
    }
    assert(released_handles(Seq::<ReleaseRequest>::empty()) =~= Seq::<LocalHandle>::empty());
}

/// The handles that the release plan of a session asks to close are the
/// handle of the child's thread and the handle of the child's process, in
/// this order, each where it is valid.
pub proof fn lemma_released_handles(v: ConPtyView)
    ensures
        released_handles(v.release_plan()) == (if v.child_thread.spec_is_invalid() {
            Seq::<LocalHandle>::empty()
        } else {
            seq![v.child_thread]
        }) + (if v.child_process.spec_is_invalid() {
            Seq::<LocalHandle>::empty()
        } else {
            seq![v.child_process]
        }),
{
    let thread = if v.child_thread.spec_is_invalid() {
        Seq::<ReleaseRequest>::empty()
    } else {
        seq![ReleaseRequest::Close(v.child_thread)]
    };
    let process = if v.child_process.spec_is_invalid() {
        Seq::<ReleaseRequest>::empty()
    } else {
        seq![ReleaseRequest::Close(v.child_process)]
    };
    let attributes = if v.attributes_ready {
        seq![ReleaseRequest::DeleteAttributes]
    } else {
        Seq::<ReleaseRequest>::empty()
    };
    let console = seq![ReleaseRequest::CloseConsole];
    let free = if v.console_allocated {
        seq![ReleaseRequest::FreeConsole]
    } else {
        Seq::<ReleaseRequest>::empty()
    };
    let only_thread = thread;
    let upto_process = thread + process;
    let upto_attributes = upto_process + attributes;
    let upto_console = upto_attributes + console;
    let whole = upto_console + free;
    assert(whole == v.release_plan());
    reveal_with_fuel(released_handles, 3);
    assert(released_handles(Seq::<ReleaseRequest>::empty()) =~= Seq::<LocalHandle>::empty());
    if !v.child_thread.spec_is_invalid() {
        assert(only_thread.drop_last() =~= Seq::<ReleaseRequest>::empty());
    }
    assert(released_handles(only_thread) =~= if v.child_thread.spec_is_invalid() {
        Seq::<LocalHandle>::empty()
    } else {
        seq![v.child_thread]
    });
    if !v.child_process.spec_is_invalid() {
        assert(upto_process.drop_last() =~= only_thread);
        assert(upto_process.last() == ReleaseRequest::Close(v.child_process));
    } else {
        assert(upto_process =~= only_thread);
    }
    let handles = released_handles(upto_process);
    if v.attributes_ready {
        assert(upto_attributes.drop_last() =~= upto_process);
    } else {
        assert(upto_attributes =~= upto_process);
    }
    assert(released_handles(upto_attributes) == handles);
    assert(upto_console.drop_last() =~= upto_attributes);
    assert(released_handles(upto_console) == handles);
    if v.console_allocated {
        assert(whole.drop_last() =~= upto_console);
    } else {
        assert(whole =~= upto_console);
    }
    assert(released_handles(whole) == handles);
    assert(handles =~= (if v.child_thread.spec_is_invalid() {
        Seq::<LocalHandle>::empty()
    } else {
        seq![v.child_thread]
    }) + (if v.child_process.spec_is_invalid() {
        Seq::<LocalHandle>::empty()
    } else {
        seq![v.child_process]
    }));
}

} // verus!
