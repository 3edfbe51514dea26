//! Errors reported by a pseudoterminal session.

use vstd::prelude::*;
use vstd::string::StringExecFns;

verus! {

/// The classes of failure a session can report.
#[derive(Clone, Copy, Debug, PartialEq, Eq, Structural)]
pub enum ErrorKind {
    /// Rejected options: a non-positive geometry or an unavailable backend.
    InvalidConfiguration,
    /// A system call failed.
    OsFailure,
    /// The output stream has ended.
    Eof,
    /// The child process could not be created.
    ChildSpawnFailure,
    /// An ownership rule of the engine was broken.
    InternalInvariant,
}

/// The system operations a session performs.
#[derive(Clone, Copy, Debug, PartialEq, Eq, Structural)]
pub enum Operation {
    AllocConsole,
    ShowWindow,
    CreateFile,
    GetConsoleMode,
    SetConsoleMode,
    SetStdHandle,
    NtCreateFile,
    NtCreateNamedPipeFile,
    DuplicateHandle,
    CreatePseudoConsole,
    ResizePseudoConsole,
    ClosePseudoConsole,
    InitializeProcThreadAttributeList,
    UpdateProcThreadAttribute,
    CreateProcess,
    PeekNamedPipe,
    GetFileSizeEx,
    ReadFile,
    WriteFile,
    GetOverlappedResult,
    WaitForSingleObject,
    GetExitCodeProcess,
    CancelIoEx,
    AgentConfig,
    AgentOpen,
    AgentSpawnConfig,
    AgentSpawn,
    AgentSetSize,
}

impl Operation {
    /// Whether the operation is the one that creates the child process.
    pub open spec fn spec_creates_child(self) -> bool {
        self == Operation::CreateProcess || self == Operation::AgentSpawn
    }

    #[verifier::when_used_as_spec(spec_creates_child)]
    pub fn creates_child(self) -> (r: bool)
        ensures
            r == self.spec_creates_child(),
    {
        match self {
            Operation::CreateProcess => true,
            Operation::AgentSpawn => true,
            _ => false,
        }
    }
}

/// What the system reported for a failed call: its status code and its text.
#[derive(Debug)]
pub struct OsFault {
    pub code: i32,
    pub message: String,
}

/// Mathematical form of an [`OsFault`].
pub struct FaultView {
    pub code: i32,
    pub message: Seq<char>,
}

impl View for OsFault {
    type V = FaultView;

    open spec fn view(&self) -> FaultView {
        FaultView { code: self.code, message: self.message@ }
    }
}

/// Mathematical form of a [`PtyError`].
pub struct ErrorView {
    pub kind: ErrorKind,
    pub operation: Option<Operation>,
    pub message: Seq<char>,
}

/// An error of a session: its class, the failed operation if any, and a text.
#[derive(Debug)]
pub struct PtyError {
    pub kind: ErrorKind,
    pub operation: Option<Operation>,
    pub message: String,
}

impl View for PtyError {
    type V = ErrorView;

    open spec fn view(&self) -> ErrorView {
        ErrorView { kind: self.kind, operation: self.operation, message: self.message@ }
    }
}

/// The class of error a failed operation produces.
pub open spec fn failure_kind(operation: Operation) -> ErrorKind {
    if operation.spec_creates_child() {
        ErrorKind::ChildSpawnFailure
    } else {
        ErrorKind::OsFailure
    }
}

/// The error a failed operation produces from the system's report.
pub open spec fn os_error(operation: Operation, message: Seq<char>) -> ErrorView {
    ErrorView { kind: failure_kind(operation), operation: Some(operation), message }
}

/// The error that marks the end of the output stream.
pub open spec fn eof_error() -> ErrorView {
    ErrorView { kind: ErrorKind::Eof, operation: None, message: "Standard out reached EOF"@ }
}

/// The error of an engine that was driven against its protocol.
pub open spec fn protocol_error() -> ErrorView {
    ErrorView {
        kind: ErrorKind::InternalInvariant,
        operation: None,
        message: "operation used out of order"@,
    }
}

/// A result with its error taken to mathematical form.
pub open spec fn lifted<T>(r: Result<T, PtyError>) -> Result<T, ErrorView> {
    match r {
        Ok(v) => Ok(v),
        Err(e) => Err(e@),
    }
}

/// An outcome of a system call with its fault taken to mathematical form.
pub open spec fn observed<T>(r: Result<T, OsFault>) -> Result<T, FaultView> {
    match r {
        Ok(v) => Ok(v),
        Err(f) => Err(f@),
    }
}

impl PtyError {
    /// The error for `operation` having failed with `fault`.
    pub fn from_os(operation: Operation, fault: OsFault) -> (e: PtyError)
        ensures
            e@ == os_error(operation, fault.message@),
    {
        let kind = if operation.creates_child() {
            ErrorKind::ChildSpawnFailure
        } else {
            ErrorKind::OsFailure
        };
        PtyError { kind, operation: Some(operation), message: fault.message }
    }

    /// The end-of-stream error.
    pub fn eof() -> (e: PtyError)
        ensures
            e@ == eof_error(),
    {
        PtyError {
            kind: ErrorKind::Eof,
            operation: None,
            message: String::from_str("Standard out reached EOF"),
        }
    }

    /// The error of an engine that was driven against its protocol.
    pub fn protocol() -> (e: PtyError)
        ensures
            e@ == protocol_error(),
    {
        PtyError {
            kind: ErrorKind::InternalInvariant,
            operation: None,
            message: String::from_str("operation used out of order"),
        }
    }

    /// Whether this error marks the end of the output stream.
    pub fn is_eof(&self) -> (r: bool)
        ensures
            r == (self@.kind == ErrorKind::Eof),
    {
        match self.kind {
            ErrorKind::Eof => true,
            _ => false,
        }
    }
}

} // verus!
