//! The stream engine shared by both backends: handles, the rules that read
//! what the system reports about the child, and the state machines of the
//! reader, the writer and the teardown.

use super::channel::{is_empty, recv, send, try_recv, unbounded, Polled};
use super::error::{
    eof_error, lifted, os_error, ErrorKind, ErrorView, Operation, OsFault, PtyError,
};
use super::flags::{share, ReaderFlags};
use super::reading::{ReaderLink, WatcherLink};
use super::status::{STATUS_PENDING, WAIT_FAILED, WAIT_OBJECT_0, WAIT_TIMEOUT};
use super::writing::{write_next, write_start, WriteOp, WriteRequest, Writer};
use crossbeam_channel::{Receiver, Sender};
use std::sync::Arc;
use vstd::prelude::*;

verus! {

/// Bytes asked of the output stream in one read.
pub const READ_BUFFER_SIZE: u32 = 32768;

/// Largest number of bytes handed to the input stream in one write.
pub const WRITE_CHUNK_SIZE: usize = 8192;

/// An item of the output queue: text or an error from the reader, or the
/// end marker.
pub type OutputItem = Option<Result<Vec<u16>, PtyError>>;

/// A raw operating-system handle, held by value. Owning a `LocalHandle` is
/// a convention of the engine: only its designated owner closes it.
#[derive(Clone, Copy, Debug, PartialEq, Eq, Structural)]
pub struct LocalHandle(pub isize);

impl LocalHandle {
    /// A handle is invalid when it is null or the all-ones sentinel.
    pub open spec fn spec_is_invalid(&self) -> bool {
        self.0 == -1 || self.0 == 0
    }

    /// Whether the handle is null or the all-ones sentinel.
    #[verifier::when_used_as_spec(spec_is_invalid)]
    pub fn is_invalid(&self) -> (r: bool)
        ensures
            r == self.spec_is_invalid(),
    {
        self.0 == -1 || self.0 == 0
    }

    /// The null handle.
    pub fn null() -> (h: LocalHandle)
        ensures
            h.0 == 0,
            h.spec_is_invalid(),
    {
        LocalHandle(0)
    }
}

/// What a zero-time wait on the process says of its liveness: nothing when
/// the wait failed, else whether the wait timed out.
pub open spec fn liveness(status: u32, fault: Seq<char>) -> Result<bool, ErrorView> {
    if status == WAIT_FAILED {
        Err(os_error(Operation::WaitForSingleObject, fault))
    } else {
        Ok(status == WAIT_TIMEOUT)
    }
}

/// What an unbounded wait on the process says of its end: nothing when the
/// wait failed, else whether the process handle became signalled.
pub open spec fn departure(status: u32, fault: Seq<char>) -> Result<bool, ErrorView> {
    if status == WAIT_FAILED {
        Err(os_error(Operation::WaitForSingleObject, fault))
    } else {
        Ok(status == WAIT_OBJECT_0)
    }
}

/// The exit status that an exit code stands for: none while the code is the
/// still-running marker.
pub open spec fn exit_status(code: u32) -> Option<u32> {
    if code == STATUS_PENDING {
        None
    } else {
        Some(code)
    }
}

/// Whether the output stream has ended for the reader: the stream cannot be
/// inspected, or the liveness of the child cannot be told, or the child is
/// gone and no byte is waiting.
pub open spec fn stream_ended(waiting: Option<u32>, alive: Option<bool>) -> bool {
    match waiting {
        None => true,
        Some(bytes) => match alive {
            None => true,
            Some(running) => !running && bytes == 0,
        },
    }
}

/// Whether a wait result reports that the wait itself failed; only then is
/// the system's last error of interest.
pub fn wait_failed(status: u32) -> (r: bool)
    ensures
        r == (status == WAIT_FAILED),
{
    status == WAIT_FAILED
}

/// Reads the result of a zero-time wait on the process handle. `fault` is
/// the system's last error, and is read only when the wait failed.
pub fn is_alive(status: u32, fault: OsFault) -> (r: Result<bool, PtyError>)
    ensures
        lifted(r) == liveness(status, fault.message@),
{
    if status == WAIT_FAILED {
        Err(PtyError::from_os(Operation::WaitForSingleObject, fault))
    } else {
        Ok(status == WAIT_TIMEOUT)
    }
}

/// Reads the result of an unbounded wait on the process handle. `fault` is
/// the system's last error, and is read only when the wait failed.
pub fn wait_for_exit(status: u32, fault: OsFault) -> (r: Result<bool, PtyError>)
    ensures
        lifted(r) == departure(status, fault.message@),
{
    if status == WAIT_FAILED {
        Err(PtyError::from_os(Operation::WaitForSingleObject, fault))
    } else {
        Ok(status == WAIT_OBJECT_0)
    }
}

/// Reads the outcome of an exit-code query.
pub fn get_exitstatus(outcome: Result<u32, OsFault>) -> (r: Result<Option<u32>, PtyError>)
    ensures
        outcome matches Ok(code) ==> lifted(r) == Ok::<Option<u32>, ErrorView>(exit_status(code)),
        outcome matches Err(fault) ==> lifted(r) == Err::<Option<u32>, ErrorView>(
            os_error(Operation::GetExitCodeProcess, fault.message@),
        ),
{
    match outcome {
        Ok(code) => {
            if code == STATUS_PENDING {
                Ok(None)
            } else {
                Ok(Some(code))
            }
        },
        Err(fault) => Err(PtyError::from_os(Operation::GetExitCodeProcess, fault)),
    }
}

/// What cancelling the pending reads of the output stream gives.
pub open spec fn cancellation(outcome: Result<(), super::error::FaultView>) -> Result<
    bool,
    ErrorView,
> {
    match outcome {
        Ok(_) => Ok(true),
        Err(fault) => Err(os_error(Operation::CancelIoEx, fault.message)),
    }
}

/// Reads the outcome of cancelling the pending reads of the output stream.
pub fn cancel_io(outcome: Result<(), OsFault>) -> (r: Result<bool, PtyError>)
    ensures
        lifted(r) == cancellation(super::error::observed(outcome)),
{
    match outcome {
        Ok(_) => Ok(true),
        Err(fault) => Err(PtyError::from_os(Operation::CancelIoEx, fault)),
    }
}

/// Decides for the reader whether the output stream has ended, from the
/// count of waiting bytes (absent when the stream could not be inspected)
/// and the liveness of the child.
pub fn is_eof(waiting: Option<u32>, alive: Result<bool, PtyError>) -> (r: Result<bool, PtyError>)
    ensures
        lifted(r) == Ok::<bool, ErrorView>(
            stream_ended(
                waiting,
                match alive {
                    Ok(running) => Some(running),
                    Err(_) => None,
                },
            ),
        ),
{
    match waiting {
        None => Ok(true),
        Some(bytes) => match alive {
            Ok(running) => Ok(!running && bytes == 0),
            Err(_) => Ok(true),
        },
    }
}

/// Mathematical form of an [`OutputItem`].
pub type ItemView = Option<Result<Seq<u16>, ErrorView>>;

/// A piece of text or an error, in mathematical form.
pub open spec fn text_view(r: Result<Vec<u16>, PtyError>) -> Result<Seq<u16>, ErrorView> {
    match r {
        Ok(text) => Ok(text@),
        Err(e) => Err(e@),
    }
}

/// What a dequeue of the output queue found, in mathematical form.
pub open spec fn polled_view(got: Polled<OutputItem>) -> Polled<ItemView> {
    match got {
        Polled::Item(Some(r)) => Polled::Item(Some(text_view(r))),
        Polled::Item(None) => Polled::Item(None),
        Polled::Empty => Polled::Empty,
        Polled::Disconnected => Polled::Disconnected,
    }
}

/// What the consumer gets for what the output queue held: the end marker
/// is the end-of-stream error; text and errors of the reader are passed
/// on; a queue with nothing waiting gives empty text.
pub open spec fn delivered(got: Polled<ItemView>) -> Result<Seq<u16>, ErrorView> {
    match got {
        Polled::Item(None) => Err(eof_error()),
        Polled::Item(Some(r)) => r,
        Polled::Empty => Ok(Seq::<u16>::empty()),
        Polled::Disconnected => Ok(Seq::<u16>::empty()),
    }
}

/// Whether a result is an end-of-stream error.
pub open spec fn is_eof_result(r: Result<Seq<u16>, ErrorView>) -> bool {
    r matches Err(e) && e.kind == ErrorKind::Eof
}

/// One read of the consumer: whether the end of the stream had been seen,
/// and what the queue held, give whether it has been seen now and the
/// result. Once the end was seen the queue is not consulted again.
pub open spec fn read_transition(at_eof: bool, got: Polled<ItemView>) -> (
    bool,
    Result<Seq<u16>, ErrorView>,
) {
    if at_eof {
        (true, Err(eof_error()))
    } else {
        (is_eof_result(delivered(got)), delivered(got))
    }
}

/// The results of a run of reads that starts with `at_eof` and finds
/// `gots` in the queue, one per read.
pub open spec fn read_run(at_eof: bool, gots: Seq<Polled<ItemView>>) -> Seq<
    Result<Seq<u16>, ErrorView>,
>
    decreases gots.len(),
{
    if gots.len() == 0 {
        Seq::empty()
    } else {
        let step = read_transition(at_eof, gots[0]);
        seq![step.1] + read_run(step.0, gots.skip(1))
    }
}

/// A run of reads that starts after the end of the stream was seen gives
/// the end-of-stream error every time.
pub proof fn lemma_reads_after_eof(gots: Seq<Polled<ItemView>>, i: int)
    requires
        0 <= i < gots.len(),
    ensures
        read_run(true, gots).len() == gots.len(),
        read_run(true, gots)[i] == Err::<Seq<u16>, ErrorView>(eof_error()),
    decreases gots.len(),
{
    lemma_read_run_len(true, gots);
    if i > 0 {
        lemma_reads_after_eof(gots.skip(1), i - 1);
    }
}

/// A run of reads gives one result per read.
pub proof fn lemma_read_run_len(at_eof: bool, gots: Seq<Polled<ItemView>>)
    ensures
        read_run(at_eof, gots).len() == gots.len(),
    decreases gots.len(),
{
    if gots.len() > 0 {
        lemma_read_run_len(read_transition(at_eof, gots[0]).0, gots.skip(1));
    }
}

/// The end of the stream is reported for good: in any run of reads, after
/// the first read that gives an end-of-stream error every later read gives
/// the end-of-stream error, whatever the queue holds by then.
pub proof fn lemma_eof_is_final(at_eof: bool, gots: Seq<Polled<ItemView>>, i: int, j: int)
    requires
        0 <= i <= j < gots.len(),
        is_eof_result(read_run(at_eof, gots)[i]),
    ensures
        is_eof_result(read_run(at_eof, gots)[j]),
        i < j ==> read_run(at_eof, gots)[j] == Err::<Seq<u16>, ErrorView>(eof_error()),
    decreases gots.len(),
{
    lemma_read_run_len(at_eof, gots);
    let step = read_transition(at_eof, gots[0]);
    lemma_read_run_len(step.0, gots.skip(1));
    if i == 0 {
        if j > 0 {
            assert(step.0);
            lemma_reads_after_eof(gots.skip(1), j - 1);
        }
    } else {
        lemma_eof_is_final(step.0, gots.skip(1), i - 1, j - 1);
    }
}

/// Turns what the output queue held into what the consumer gets.
pub fn deliver(got: Polled<OutputItem>) -> (r: Result<Vec<u16>, PtyError>)
    ensures
        text_view(r) == delivered(polled_view(got)),
{
    match got {
        Polled::Item(None) => Err(PtyError::eof()),
        Polled::Item(Some(r)) => r,
        Polled::Empty => Ok(Vec::new()),
        Polled::Disconnected => Ok(Vec::new()),
    }
}

/// The states of the output side of a session.
#[derive(Clone, Copy, Debug, PartialEq, Eq, Structural)]
pub enum OutputState {
    /// The reader has not entered its loop yet.
    PreReady,
    /// The child runs and output flows.
    Streaming,
    /// The child has exited and output may still be on its way.
    Draining,
    /// The child has exited and all its output was consumed.
    Eof,
    /// The session was torn down.
    Closed,
}

/// What is observed of the output side.
#[derive(Clone, Copy, Debug, PartialEq, Eq, Structural)]
pub struct StreamProbe {
    /// The reader's ready flag.
    pub ready: bool,
    /// The reader's alive flag.
    pub reader_active: bool,
    /// The count of bytes waiting in the output stream, absent when the
    /// stream could not be inspected.
    pub waiting: Option<u32>,
}

/// The state of the output side, from whether the session is closed, what
/// the host observed, whether the child is alive and whether items wait in
/// the output queue.
pub open spec fn output_state(closed: bool, probe: StreamProbe, alive: bool, queued: bool)
    -> OutputState {
    if closed {
        OutputState::Closed
    } else if !probe.ready {
        OutputState::PreReady
    } else if alive {
        OutputState::Streaming
    } else if probe.reader_active || queued || (probe.waiting matches Some(bytes) && bytes > 0) {
        OutputState::Draining
    } else {
        OutputState::Eof
    }
}

impl OutputState {
    /// Whether the output side is over: at its end, or closed.
    pub open spec fn spec_at_end(self) -> bool {
        self == OutputState::Eof || self == OutputState::Closed
    }

    /// Whether the output side is over: at its end, or closed.
    #[verifier::when_used_as_spec(spec_at_end)]
    pub fn at_end(self) -> (r: bool)
        ensures
            r == self.spec_at_end(),
    {
        match self {
            OutputState::Eof => true,
            OutputState::Closed => true,
            _ => false,
        }
    }
}

/// Classifies the output side.
pub fn classify_output(closed: bool, probe: StreamProbe, alive: bool, queued: bool) -> (r:
    OutputState)
    ensures
        r == output_state(closed, probe, alive, queued),
{
    if closed {
        OutputState::Closed
    } else if !probe.ready {
        OutputState::PreReady
    } else if alive {
        OutputState::Streaming
    } else {
        let bytes_wait = match probe.waiting {
            Some(bytes) => bytes > 0,
            None => false,
        };
        if probe.reader_active || queued || bytes_wait {
            OutputState::Draining
        } else {
            OutputState::Eof
        }
    }
}

/// While a session is open its output is not over as long as the child is
/// alive, items wait in the output queue, the reader is active, or bytes
/// wait in the stream.
pub proof fn lemma_not_over_while_busy(probe: StreamProbe, alive: bool, queued: bool)
    requires
        output_state(false, probe, alive, queued).spec_at_end(),
    ensures
        probe.ready,
        !alive,
        !queued,
        !probe.reader_active,
        probe.waiting matches Some(bytes) ==> bytes == 0,
{
}

/// Where the teardown of an engine stands.
#[derive(Clone, Copy, Debug, PartialEq, Eq, Structural)]
pub enum Phase {
    /// The session runs.
    Open,
    /// The reader is being released from its wait for the process handle.
    UnblockingSetup,
    /// The reader is being asked whether it still runs.
    StoppingReader,
    /// Pending reads of the output stream are being cancelled.
    CancellingReads,
    /// The reader thread is being joined.
    JoiningReader,
    /// The input stream is being closed.
    ClosingInput,
    /// The output stream is being closed.
    ClosingOutput,
    /// The process handle is being closed.
    ClosingProcess,
    /// The liveness watcher is being joined.
    JoiningWatcher,
    /// Everything was released.
    Closed,
}

/// What the host must do next to tear the engine down.
#[derive(Clone, Copy, Debug, PartialEq, Eq, Structural)]
pub enum TeardownRequest {
    /// Nothing but to go on; the engine looks at the reader's ready flag
    /// next.
    CheckReady,
    /// Nothing but to go on; the engine looks at the reader's alive flag
    /// next.
    CheckAlive,
    /// Cancel the pending reads of this stream.
    CancelReads(LocalHandle),
    /// Join the reader thread.
    JoinReader,
    /// Close this handle.
    Close(LocalHandle),
    /// Join the liveness watcher.
    JoinWatcher,
    /// Nothing is left to do.
    Done,
}

/// Mathematical form of a [`PTYProcess`].
pub struct EngineView {
    pub process: LocalHandle,
    pub conin: LocalHandle,
    pub conout: LocalHandle,
    pub pid: u32,
    pub close_process: bool,
    pub asynchronous: bool,
    pub using_pipes: bool,
    pub at_eof: bool,
    pub phase: Phase,
}

impl EngineView {
    /// The engine in another phase of its teardown.
    pub open spec fn in_phase(self, phase: Phase) -> EngineView {
        EngineView { phase, ..self }
    }

    /// Whether the engine closes its input stream.
    pub open spec fn closes_input(self) -> bool {
        !self.conin.spec_is_invalid()
    }

    /// Whether the engine closes its output stream: not when the stream is
    /// read with completion records, for its backend closes it.
    pub open spec fn closes_output(self) -> bool {
        !self.conout.spec_is_invalid() && !self.asynchronous
    }

    /// Whether the engine closes the process handle.
    pub open spec fn closes_process(self) -> bool {
        self.close_process && !self.process.spec_is_invalid()
    }

    /// The handles the engine closes, in the order in which it closes them.
    pub open spec fn close_plan(self) -> Seq<LocalHandle> {
        self.closing_from(Phase::ClosingInput)
    }

    /// The handles still to be closed by an engine that is about to enter
    /// `phase`.
    pub open spec fn closing_from(self, phase: Phase) -> Seq<LocalHandle> {
        let input = if self.closes_input() {
            seq![self.conin]
        } else {
            Seq::empty()
        };
        let output = if self.closes_output() {
            seq![self.conout]
        } else {
            Seq::empty()
        };
        let process = if self.closes_process() {
            seq![self.process]
        } else {
            Seq::empty()
        };
        match phase {
            Phase::ClosingInput => input + output + process,
            Phase::ClosingOutput => output + process,
            Phase::ClosingProcess => process,
            Phase::JoiningWatcher => Seq::empty(),
            Phase::Closed => Seq::empty(),
            _ => input + output + process,
        }
    }

    /// The handles still to be closed by an engine in its current phase.
    pub open spec fn still_to_close(self) -> Seq<LocalHandle> {
        match self.phase {
            Phase::ClosingInput => self.closing_from(Phase::ClosingOutput),
            Phase::ClosingOutput => self.closing_from(Phase::ClosingProcess),
            Phase::ClosingProcess => Seq::empty(),
            Phase::JoiningWatcher => Seq::empty(),
            Phase::Closed => Seq::empty(),
            _ => self.close_plan(),
        }
    }

    /// The step of the teardown that releases what comes at or after
    /// `phase`: the first handle that is due, else the watcher, else done.
    pub open spec fn release_from(self, phase: Phase) -> (EngineView, TeardownRequest) {
        if phase == Phase::ClosingInput && self.closes_input() {
            (self.in_phase(Phase::ClosingInput), TeardownRequest::Close(self.conin))
        } else if (phase == Phase::ClosingInput || phase == Phase::ClosingOutput)
            && self.closes_output() {
            (self.in_phase(Phase::ClosingOutput), TeardownRequest::Close(self.conout))
        } else if (phase == Phase::ClosingInput || phase == Phase::ClosingOutput || phase
            == Phase::ClosingProcess) && self.closes_process() {
            (self.in_phase(Phase::ClosingProcess), TeardownRequest::Close(self.process))
        } else if phase != Phase::Closed && self.asynchronous {
            (self.in_phase(Phase::JoiningWatcher), TeardownRequest::JoinWatcher)
        } else {
            (self.in_phase(Phase::Closed), TeardownRequest::Done)
        }
    }

    /// One step of the teardown: the state, and what a look at the flag of
    /// the reader found where the phase depends on one, give the next
    /// state and the next request.
    ///
    /// The reader is first released from its wait for the process handle,
    /// until it is ready; it is next stopped, by cancelling its pending
    /// read for as long as it is alive; it is joined; the handles of the
    /// close plan are closed in their order; the watcher is joined where
    /// there is one.
    pub open spec fn teardown_step(self, answer: bool) -> (EngineView, TeardownRequest) {
        match self.phase {
            Phase::Open => (self.in_phase(Phase::UnblockingSetup), TeardownRequest::CheckReady),
            Phase::UnblockingSetup => if answer {
                (self.in_phase(Phase::StoppingReader), TeardownRequest::CheckAlive)
            } else {
                (self, TeardownRequest::CheckReady)
            },
            Phase::StoppingReader => if answer {
                (
                    self.in_phase(Phase::CancellingReads),
                    TeardownRequest::CancelReads(self.conout),
                )
            } else {
                (self.in_phase(Phase::JoiningReader), TeardownRequest::JoinReader)
            },
            Phase::CancellingReads => (
                self.in_phase(Phase::StoppingReader),
                TeardownRequest::CheckAlive,
            ),
            Phase::JoiningReader => self.release_from(Phase::ClosingInput),
            Phase::ClosingInput => self.release_from(Phase::ClosingOutput),
            Phase::ClosingOutput => self.release_from(Phase::ClosingProcess),
            Phase::ClosingProcess => self.release_from(Phase::JoiningWatcher),
            Phase::JoiningWatcher => self.release_from(Phase::Closed),
            Phase::Closed => (self, TeardownRequest::Done),
        }
    }

    /// The handles that a run of the teardown asks to close, in order,
    /// when the looks at the flags find `answers` one after the other.
    pub open spec fn closed_by(self, answers: Seq<bool>) -> Seq<LocalHandle>
        decreases answers.len(),
    {
        if answers.len() == 0 {
            Seq::empty()
        } else {
            let step = self.teardown_step(answers[0]);
            let rest = step.0.closed_by(answers.skip(1));
            match step.1 {
                TeardownRequest::Close(handle) => seq![handle] + rest,
                _ => rest,
            }
        }
    }
}

impl EngineView {
    /// The engine after a run of the teardown with the given answers.
    pub open spec fn after(self, answers: Seq<bool>) -> EngineView
        decreases answers.len(),
    {
        if answers.len() == 0 {
            self
        } else {
            self.teardown_step(answers[0]).0.after(answers.skip(1))
        }
    }

    /// Whether the three handles of the engine are three different handles.
    pub open spec fn handles_distinct(self) -> bool {
        &&& self.conin != self.conout
        &&& self.conin != self.process
        &&& self.conout != self.process
    }
}

/// A step of the teardown changes nothing of the engine but its phase, and
/// a request to close a handle asks for the first handle still to be
/// closed; no other request changes what is still to be closed.
pub proof fn lemma_teardown_step(v: EngineView, answer: bool)
    ensures
        v.teardown_step(answer).0 == v.in_phase(v.teardown_step(answer).0.phase),
        v.teardown_step(answer).1 matches TeardownRequest::Close(handle) ==> v.still_to_close()
            == seq![handle] + v.teardown_step(answer).0.still_to_close(),
        !(v.teardown_step(answer).1 is Close) ==> v.still_to_close() == v.teardown_step(
            answer,
        ).0.still_to_close(),
{
    let step = v.teardown_step(answer);
    let empty = Seq::<LocalHandle>::empty();
    assert(empty + empty =~= empty);
    assert(forall|a: Seq<LocalHandle>| #[trigger] (a + empty) =~= a);
    assert(forall|a: Seq<LocalHandle>| #[trigger] (empty + a) =~= a);
    assert(forall|a: Seq<LocalHandle>, b: Seq<LocalHandle>, c: Seq<LocalHandle>|
        #[trigger] ((a + b) + c) =~= a + (b + c));
    match step.1 {
        TeardownRequest::Close(handle) => {
            assert(v.still_to_close() =~= seq![handle] + step.0.still_to_close());
        },
        _ => {
            assert(v.still_to_close() =~= step.0.still_to_close());
        },
    }
}

/// Whatever the looks at the flags find, a teardown asks to close handles
/// of the engine's close plan only, each at most as often as the plan
/// holds it, and in the plan's order: what it asks to close is a prefix of
/// what was still to be closed.
pub proof fn lemma_teardown_follows_plan(v: EngineView, answers: Seq<bool>)
    ensures
        v.closed_by(answers).is_prefix_of(v.still_to_close()),
    decreases answers.len(),
{
    if answers.len() > 0 {
        let step = v.teardown_step(answers[0]);
        lemma_teardown_step(v, answers[0]);
        lemma_teardown_follows_plan(step.0, answers.skip(1));
        let rest = step.0.closed_by(answers.skip(1));
        match step.1 {
            TeardownRequest::Close(handle) => {
                assert((seq![handle] + rest).is_prefix_of(
                    seq![handle] + step.0.still_to_close(),
                ));
            },
            _ => {},
        }
    }
}

/// A teardown that reaches its end has asked to close exactly the handles
/// that were still to be closed, in their order.
pub proof fn lemma_teardown_completes_plan(v: EngineView, answers: Seq<bool>)
    requires
        v.after(answers).phase == Phase::Closed,
    ensures
        v.closed_by(answers) == v.still_to_close(),
    decreases answers.len(),
{
    if answers.len() > 0 {
        let step = v.teardown_step(answers[0]);
        lemma_teardown_step(v, answers[0]);
        lemma_teardown_completes_plan(step.0, answers.skip(1));
    } else {
        assert(v.still_to_close() =~= Seq::<LocalHandle>::empty());
    }
}

/// The close plan of an engine whose handles are three different handles
/// holds no handle twice.
pub proof fn lemma_close_plan_distinct(v: EngineView)
    requires
        v.handles_distinct(),
    ensures
        v.close_plan().no_duplicates(),
{
}

/// Tearing an engine down never closes a handle twice: whatever the flags
/// of the reader show, and however long the teardown is driven, a running
/// engine whose handles are three different handles is asked to close no
/// handle more than once.
pub proof fn lemma_no_double_close(v: EngineView, answers: Seq<bool>)
    requires
        v.phase == Phase::Open,
        v.handles_distinct(),
    ensures
        v.closed_by(answers).no_duplicates(),
        v.closed_by(answers).is_prefix_of(v.close_plan()),
{
    lemma_teardown_follows_plan(v, answers);
    lemma_close_plan_distinct(v);
    let done = v.closed_by(answers);
    let plan = v.close_plan();
    assert forall|i: int, j: int| 0 <= i < done.len() && 0 <= j < done.len() && i != j implies done[i]
        != done[j] by {
        assert(done[i] == plan[i]);
        assert(done[j] == plan[j]);
    }
}

/// A teardown that has ended stays ended: it asks for nothing more and
/// changes nothing.
pub proof fn lemma_teardown_idempotent(v: EngineView, answers: Seq<bool>)
    requires
        v.phase == Phase::Closed,
    ensures
        v.after(answers) == v,
        v.closed_by(answers) == Seq::<LocalHandle>::empty(),
    decreases answers.len(),
{
    if answers.len() > 0 {
        lemma_teardown_idempotent(v, answers.skip(1));
    }
}

/// No handle is closed before the reader was joined: a step that asks to
/// close a handle starts from the join of the reader or from an earlier
/// close.
pub proof fn lemma_close_after_join(v: EngineView, answer: bool)
    requires
        v.teardown_step(answer).1 is Close,
    ensures
        v.phase == Phase::JoiningReader || v.phase == Phase::ClosingInput || v.phase
            == Phase::ClosingOutput,
{
}

/// The I/O engine of a session: the streams and the process it serves, the
/// consumer's end of the output queue, and the queues by which it steers
/// its reader.
pub struct PTYProcess {
    /// Handle of the child process.
    process: LocalHandle,
    /// Handle of the input stream, which is written to.
    conin: LocalHandle,
    /// Handle of the output stream, which is read from.
    conout: LocalHandle,
    /// Identifier of the child process, zero before a spawn.
    pid: u32,
    /// Whether the engine closes the process handle at teardown.
    close_process: bool,
    /// Whether the streams are used with completion records.
    async_: bool,
    /// Whether the streams are pipes.
    using_pipes: bool,
    /// Whether the consumer has seen the end of the output stream.
    at_eof: bool,
    /// Where the teardown stands.
    phase: Phase,
    /// The flags of the reader.
    flags: Arc<ReaderFlags>,
    /// Queue that tells the reader to stop.
    reader_alive: Sender<bool>,
    /// Queue that hands the process handle to the reader.
    reader_process_out: Sender<Option<LocalHandle>>,
    /// Queue of what the reader has read.
    reader_out_rx: Receiver<OutputItem>,
}

impl View for PTYProcess {
    type V = EngineView;

    closed spec fn view(&self) -> EngineView {
        EngineView {
            process: self.process,
            conin: self.conin,
            conout: self.conout,
            pid: self.pid,
            close_process: self.close_process,
            asynchronous: self.async_,
            using_pipes: self.using_pipes,
            at_eof: self.at_eof,
            phase: self.phase,
        }
    }
}

/// The engine as [`PTYProcess::new`] makes it: no process yet, the process
/// handle its own to close, nothing read, running.
pub open spec fn fresh_engine(
    conin: LocalHandle,
    conout: LocalHandle,
    using_pipes: bool,
    asynchronous: bool,
) -> EngineView {
    EngineView {
        process: LocalHandle(0),
        conin,
        conout,
        pid: 0,
        close_process: true,
        asynchronous,
        using_pipes,
        at_eof: false,
        phase: Phase::Open,
    }
}

impl PTYProcess {
    /// Makes the engine of a session over the given streams, together with
    /// the ends of its queues for the reader worker and, where the streams
    /// are used with completion records, for the liveness watcher. The
    /// watcher is given `cleanup`, the queue on which it reports the exit
    /// of the child to the backend.
    pub fn new(
        conin: LocalHandle,
        conout: LocalHandle,
        using_pipes: bool,
        async_: bool,
        cleanup: Option<Sender<bool>>,
    ) -> (r: (PTYProcess, ReaderLink, Option<WatcherLink>))
        ensures
            r.0@ == fresh_engine(conin, conout, using_pipes, async_),
            r.1.asynchronous() == async_,
            r.1.stream() == conout,
            r.1.using_pipes() == using_pipes,
            r.2 is Some == async_,
            r.2 matches Some(watcher) ==> watcher.stream() == conout,
    {
        let (reader_out_tx, reader_out_rx) = unbounded::<OutputItem>();
        let (reader_alive_tx, reader_alive_rx) = unbounded::<bool>();
        let (reader_process_tx, reader_process_rx) = unbounded::<Option<LocalHandle>>();
        let flags = Arc::new(ReaderFlags::new());
        let (to_watcher, watcher) = if async_ {
            let (watcher_tx, watcher_rx) = unbounded::<LocalHandle>();
            (Some(watcher_tx), Some(WatcherLink::new(conout, share(&flags), watcher_rx, cleanup)))
        } else {
            (None, None)
        };
        let reader = ReaderLink::new(
            async_,
            conout,
            using_pipes,
            share(&flags),
            reader_process_rx,
            reader_alive_rx,
            reader_out_tx,
            to_watcher,
        );
        let engine = PTYProcess {
            process: LocalHandle(0),
            conin,
            conout,
            pid: 0,
            close_process: true,
            async_,
            using_pipes,
            at_eof: false,
            phase: Phase::Open,
            flags,
            reader_alive: reader_alive_tx,
            reader_process_out: reader_process_tx,
            reader_out_rx,
        };
        (engine, reader, watcher)
    }

    /// Reads from the output of the child: waits for the next item of the
    /// output queue when `blocking`, else takes what is there.
    ///
    /// After a read has reported the end of the stream, every read reports
    /// it again and leaves the queue alone. Otherwise the result is what
    /// [`deliver`] makes of what the queue held. Nothing but the memory of
    /// the end of the stream changes.
    pub fn read(&mut self, blocking: bool) -> (r: Result<Vec<u16>, PtyError>)
        ensures
            final(self)@ == (EngineView { at_eof: final(self)@.at_eof, ..old(self)@ }),
            old(self)@.at_eof ==> text_view(r) == Err::<Seq<u16>, ErrorView>(eof_error()),
            exists|got: Polled<ItemView>|
                (final(self)@.at_eof, text_view(r)) == #[trigger] read_transition(
                    old(self)@.at_eof,
                    got,
                ),
            final(self)@.at_eof == is_eof_result(text_view(r)),
    {
        if self.at_eof {
            let r = Err(PtyError::eof());
            assert((true, text_view(r)) == read_transition(true, Polled::<ItemView>::Empty));
            r
        } else {
            let got: Polled<OutputItem> = if blocking {
                match recv(&self.reader_out_rx) {
                    Some(item) => Polled::Item(item),
                    None => Polled::Disconnected,
                }
            } else {
                try_recv(&self.reader_out_rx)
            };
            let ghost found = polled_view(got);
            let r = deliver(got);
            self.at_eof = match &r {
                Ok(_) => false,
                Err(e) => e.is_eof(),
            };
            assert((self.at_eof, text_view(r)) == read_transition(false, found));
            r
        }
    }

    /// The write side that belongs to this engine, with nothing in flight.
    /// The host keeps it for the life of the engine, and lets one writer
    /// use it at a time.
    pub fn writer(&self) -> (w: Writer)
        ensures
            w == (Writer { asynchronous: self@.asynchronous, pending: false }),
            w.wf(),
    {
        Writer::new(self.async_)
    }

    /// Begins the write of a buffer of `len` bytes to the input of the
    /// child through the write side of this engine; the write goes on with
    /// [`Writer::drained`] and [`Writer::submitted`].
    pub fn write(&self, writer: &mut Writer, len: usize) -> (r: (WriteOp, WriteRequest))
        ensures
            (*final(writer), r.0, r.1@) == write_next(*old(writer), write_start(len)),
            r.0.wf(),
            old(writer).wf() ==> final(writer).wf(),
    {
        writer.begin(len)
    }

    /// Tells whether the output of the session is over, from the count of
    /// bytes that wait in the output stream (absent when the stream could
    /// not be inspected) and the liveness of the child, both as the host
    /// observed them.
    ///
    /// A closed session is over. Else an unknown liveness is reported as
    /// the error it came with. Else the answer is that of
    /// [`output_state`] for the observations, for the flags of the reader
    /// and for whether items wait in the output queue, as they are at this
    /// moment: never `true` while the child is alive or bytes wait in the
    /// stream.
    pub fn is_eof(&self, waiting: Option<u32>, alive: Result<bool, PtyError>) -> (r: Result<
        bool,
        PtyError,
    >)
        ensures
            self@.phase == Phase::Closed ==> lifted(r) == Ok::<bool, ErrorView>(true),
            self@.phase != Phase::Closed ==> match alive {
                Err(e) => lifted(r) == Err::<bool, ErrorView>(e@),
                Ok(running) => exists|ready: bool, reader_active: bool, queued: bool|
                    lifted(r) == Ok::<bool, ErrorView>(
                        (#[trigger] output_state(
                            false,
                            StreamProbe { ready, reader_active, waiting },
                            running,
                            queued,
                        )).spec_at_end(),
                    ),
            },
            self@.phase != Phase::Closed && lifted(r) == Ok::<bool, ErrorView>(true) ==> alive
                == Ok::<bool, PtyError>(false) && (waiting matches Some(bytes) ==> bytes == 0),
    {
        match self.phase {
            Phase::Closed => Ok(true),
            _ => match alive {
                Err(e) => Err(e),
                Ok(running) => {
                    let probe = StreamProbe {
                        ready: self.flags.is_ready(),
                        reader_active: self.flags.is_alive(),
                        waiting,
                    };
                    let queued = !is_empty(&self.reader_out_rx);
                    let state = classify_output(false, probe, running, queued);
                    Ok(state.at_end())
                },
            },
        }
    }

    /// The exit status of the child: none before a spawn, whatever the
    /// query gave; else what the outcome of the exit-code query stands for.
    pub fn get_exitstatus(&self, outcome: Result<u32, OsFault>) -> (r: Result<
        Option<u32>,
        PtyError,
    >)
        ensures
            self@.pid == 0 ==> lifted(r) == Ok::<Option<u32>, ErrorView>(None),
            self@.pid != 0 ==> (outcome matches Ok(code) ==> lifted(r) == Ok::<
                Option<u32>,
                ErrorView,
            >(exit_status(code))),
            self@.pid != 0 ==> (outcome matches Err(fault) ==> lifted(r) == Err::<
                Option<u32>,
                ErrorView,
            >(os_error(Operation::GetExitCodeProcess, fault.message@))),
    {
        if self.pid == 0 {
            Ok(None)
        } else {
            get_exitstatus(outcome)
        }
    }

    /// Whether the child is alive, from a zero-time wait on its handle.
    pub fn is_alive(&self, status: u32, fault: OsFault) -> (r: Result<bool, PtyError>)
        ensures
            lifted(r) == liveness(status, fault.message@),
    {
        is_alive(status, fault)
    }

    /// Whether the child has exited, from an unbounded wait on its handle.
    pub fn wait_for_exit(&self, status: u32, fault: OsFault) -> (r: Result<bool, PtyError>)
        ensures
            lifted(r) == departure(status, fault.message@),
    {
        wait_for_exit(status, fault)
    }

    /// Reads the outcome of cancelling the pending reads of the output
    /// stream.
    pub fn cancel_io(&self, outcome: Result<(), OsFault>) -> (r: Result<bool, PtyError>)
        ensures
            lifted(r) == cancellation(super::error::observed(outcome)),
    {
        cancel_io(outcome)
    }

    /// Takes the child that was spawned: its handle, whether the engine is
    /// to close that handle, and its identifier. The handle is handed to
    /// the reader; the answer is whether the reader could still be reached.
    pub fn set_process(&mut self, process: LocalHandle, close_process: bool, pid: u32) -> (reached:
        bool)
        ensures
            final(self)@ == (EngineView { process, close_process, pid, ..old(self)@ }),
    {
        self.process = process;
        self.close_process = close_process;
        let reached = send(&self.reader_process_out, Some(process));
        self.pid = pid;
        reached
    }

    /// The identifier of the child, zero before a spawn.
    pub fn get_pid(&self) -> (pid: u32)
        ensures
            pid == self@.pid,
    {
        self.pid
    }

    /// The handle of the child as a number, zero before a spawn.
    pub fn get_fd(&self) -> (fd: isize)
        ensures
            fd == self@.process.0,
    {
        self.process.0
    }

    /// The handle of the child.
    pub fn process_handle(&self) -> (h: LocalHandle)
        ensures
            h == self@.process,
    {
        self.process
    }

    /// The handle of the input stream.
    pub fn input_handle(&self) -> (h: LocalHandle)
        ensures
            h == self@.conin,
    {
        self.conin
    }

    /// The handle of the output stream.
    pub fn output_handle(&self) -> (h: LocalHandle)
        ensures
            h == self@.conout,
    {
        self.conout
    }

    /// Whether the streams are used with completion records.
    pub fn is_async(&self) -> (r: bool)
        ensures
            r == self@.asynchronous,
    {
        self.async_
    }

    /// Whether the streams are pipes.
    pub fn uses_pipes(&self) -> (r: bool)
        ensures
            r == self@.using_pipes,
    {
        self.using_pipes
    }

    /// Where the teardown stands.
    pub fn phase(&self) -> (r: Phase)
        ensures
            r == self@.phase,
    {
        self.phase
    }

    /// The next request of the teardown that releases what comes at or
    /// after `phase`.
    fn release_from(&mut self, phase: Phase) -> (r: TeardownRequest)
        requires
            phase == Phase::ClosingInput || phase == Phase::ClosingOutput || phase
                == Phase::ClosingProcess || phase == Phase::JoiningWatcher || phase
                == Phase::Closed,
        ensures
            (final(self)@, r) == old(self)@.release_from(phase),
    {
        let input_due = match phase {
            Phase::ClosingInput => true,
            _ => false,
        };
        let output_due = match phase {
            Phase::ClosingInput => true,
            Phase::ClosingOutput => true,
            _ => false,
        };
        let process_due = match phase {
            Phase::ClosingInput => true,
            Phase::ClosingOutput => true,
            Phase::ClosingProcess => true,
            _ => false,
        };
        let watcher_due = match phase {
            Phase::Closed => false,
            _ => true,
        };
        if input_due && !self.conin.is_invalid() {
            self.phase = Phase::ClosingInput;
            TeardownRequest::Close(self.conin)
        } else if output_due && !self.conout.is_invalid() && !self.async_ {
            self.phase = Phase::ClosingOutput;
            TeardownRequest::Close(self.conout)
        } else if process_due && self.close_process && !self.process.is_invalid() {
            self.phase = Phase::ClosingProcess;
            TeardownRequest::Close(self.process)
        } else if watcher_due && self.async_ {
            self.phase = Phase::JoiningWatcher;
            TeardownRequest::JoinWatcher
        } else {
            self.phase = Phase::Closed;
            TeardownRequest::Done
        }
    }

    /// Drives the teardown one step and gives what the host must do before
    /// the next step.
    ///
    /// While the reader is not ready an empty hand-off is queued for it,
    /// and after each cancelling of its reads it is told to stop. Where a
    /// step depends on a flag of the reader, the flag is looked at as it is
    /// at this moment; the step is that of [`EngineView::teardown_step`]
    /// for what was found.
    pub fn teardown(&mut self) -> (r: TeardownRequest)
        ensures
            exists|answer: bool| (final(self)@, r) == #[trigger] old(self)@.teardown_step(answer),
            final(self)@ == old(self)@.in_phase(final(self)@.phase),
    {
        let answer = match self.phase {
            Phase::UnblockingSetup => self.flags.is_ready(),
            Phase::StoppingReader => self.flags.is_alive(),
            _ => false,
        };
        let r = self.step(answer);
        assert((self@, r) == old(self)@.teardown_step(answer));
        r
    }

    /// The step of the teardown for what a look at the reader's flag found.
    fn step(&mut self, answer: bool) -> (r: TeardownRequest)
        ensures
            (final(self)@, r) == old(self)@.teardown_step(answer),
            final(self)@ == old(self)@.in_phase(final(self)@.phase),
    {
        match self.phase {
            Phase::Open => {
                self.phase = Phase::UnblockingSetup;
                TeardownRequest::CheckReady
            },
            Phase::UnblockingSetup => {
                if answer {
                    self.phase = Phase::StoppingReader;
                    TeardownRequest::CheckAlive
                } else {
                    let _ = send(&self.reader_process_out, None);
                    TeardownRequest::CheckReady
                }
            },
            Phase::StoppingReader => {
                if answer {
                    self.phase = Phase::CancellingReads;
                    TeardownRequest::CancelReads(self.conout)
                } else {
                    self.phase = Phase::JoiningReader;
                    TeardownRequest::JoinReader
                }
            },
            Phase::CancellingReads => {
                let _ = send(&self.reader_alive, false);
                self.phase = Phase::StoppingReader;
                TeardownRequest::CheckAlive
            },
            Phase::JoiningReader => self.release_from(Phase::ClosingInput),
            Phase::ClosingInput => self.release_from(Phase::ClosingOutput),
            Phase::ClosingOutput => self.release_from(Phase::ClosingProcess),
            Phase::ClosingProcess => self.release_from(Phase::JoiningWatcher),
            Phase::JoiningWatcher => self.release_from(Phase::Closed),
            Phase::Closed => TeardownRequest::Done,
        }
    }
}

} // verus!
