//! Reading the output stream: the steps of one read, and the loop of the
//! reader worker that feeds the output queue.

use super::base::{ItemView, LocalHandle, OutputItem, READ_BUFFER_SIZE};
use super::channel::{recv, send, try_recv, Polled};
use super::flags::ReaderFlags;
use std::sync::Arc;
use crossbeam_channel::{Receiver, Sender};
use super::error::{
    observed, os_error, protocol_error, ErrorView, FaultView, Operation, OsFault, PtyError,
};
use super::status::{failed, is_io_pending, win32_hresult, ERROR_IO_PENDING, STATUS_PENDING, WAIT_OBJECT_0};
use super::text::{strip_nuls, without_nuls};
use vstd::prelude::*;

verus! {

/// Where one read of the output stream stands.
#[derive(Clone, Copy, Debug, PartialEq, Eq, Structural)]
pub enum ReadStage {
    /// The stream is being inspected before a non-blocking read.
    Probing,
    /// The read request was handed to the system.
    Submitting,
    /// The completion record of a queued request is being looked at.
    Inspecting,
    /// The event of a queued request is being waited on.
    Waiting,
    /// The bytes that arrived are being decoded.
    Decoding,
    /// The read has produced its result.
    Finished,
}

/// One read of the output stream.
#[derive(Clone, Copy, Debug, PartialEq, Eq, Structural)]
pub struct ReadOp {
    /// Whether the stream is a pipe (else it is a file).
    pub using_pipes: bool,
    /// Whether the request carries a completion record and may be queued.
    pub overlapped: bool,
    /// The current stage.
    pub stage: ReadStage,
}

/// The completion record of a queued request, as the system filled it in.
#[derive(Debug)]
pub struct Completion {
    /// The status field of the record.
    pub status: usize,
    /// The count of transferred bytes in the record.
    pub transferred: usize,
    /// The system's text for `status` taken as a result code.
    pub text: String,
}

/// Mathematical form of a [`Completion`].
pub struct CompletionView {
    pub status: usize,
    pub transferred: usize,
    pub text: Seq<char>,
}

impl View for Completion {
    type V = CompletionView;

    open spec fn view(&self) -> CompletionView {
        CompletionView { status: self.status, transferred: self.transferred, text: self.text@ }
    }
}

/// What the host must do next for a read, or the result of the read.
#[derive(Debug)]
pub enum ReadRequest {
    /// Ask how much is waiting: the pipe's byte count, or the file's size.
    Probe { pipes: bool },
    /// Read into a zeroed buffer of `capacity` bytes, with a completion
    /// record when `overlapped`.
    Submit { capacity: u32, overlapped: bool },
    /// Report the completion record.
    Inspect,
    /// Wait without limit on the record's event and report the wait's
    /// result and the record.
    Wait,
    /// Decode the whole buffer from UTF-8 to UTF-16 code units.
    Decode,
    /// The read is over: the text and whether the stream goes on, or the
    /// error.
    Finish(Result<(Vec<u16>, bool), PtyError>),
}

/// Mathematical form of a [`ReadRequest`].
pub enum ReadRequestView {
    Probe { pipes: bool },
    Submit { capacity: u32, overlapped: bool },
    Inspect,
    Wait,
    Decode,
    Finish(Result<(Seq<u16>, bool), ErrorView>),
}

impl View for ReadRequest {
    type V = ReadRequestView;

    open spec fn view(&self) -> ReadRequestView {
        match *self {
            ReadRequest::Probe { pipes } => ReadRequestView::Probe { pipes },
            ReadRequest::Submit { capacity, overlapped } => ReadRequestView::Submit {
                capacity,
                overlapped,
            },
            ReadRequest::Inspect => ReadRequestView::Inspect,
            ReadRequest::Wait => ReadRequestView::Wait,
            ReadRequest::Decode => ReadRequestView::Decode,
            ReadRequest::Finish(Ok((text, more))) => ReadRequestView::Finish(Ok((text@, more))),
            ReadRequest::Finish(Err(e)) => ReadRequestView::Finish(Err(e@)),
        }
    }
}

/// The operation that inspects a stream of the given kind.
pub open spec fn probe_operation(using_pipes: bool) -> Operation {
    if using_pipes {
        Operation::PeekNamedPipe
    } else {
        Operation::GetFileSizeEx
    }
}

/// The result of a read that found the stream at its end.
pub open spec fn end_of_stream() -> ReadRequestView {
    ReadRequestView::Finish(Ok((Seq::<u16>::empty(), false)))
}

/// A read that failed in `operation`.
pub open spec fn read_failure(operation: Operation, message: Seq<char>) -> ReadRequestView {
    ReadRequestView::Finish(Err(os_error(operation, message)))
}

/// The read that was driven against its protocol.
pub open spec fn read_misuse() -> (ReadStage, ReadRequestView) {
    (ReadStage::Finished, ReadRequestView::Finish(Err(protocol_error())))
}

/// The first request of a read: a non-blocking read inspects the stream
/// first, a blocking one submits at once.
pub open spec fn read_start(blocking: bool, using_pipes: bool, overlapped: bool) -> (
    ReadStage,
    ReadRequestView,
) {
    if blocking {
        (
            ReadStage::Submitting,
            ReadRequestView::Submit { capacity: READ_BUFFER_SIZE, overlapped },
        )
    } else {
        (ReadStage::Probing, ReadRequestView::Probe { pipes: using_pipes })
    }
}

/// After the inspection: its failure ends the read, its success submits.
pub open spec fn read_after_probe(op: ReadOp, outcome: Result<(), FaultView>) -> (
    ReadStage,
    ReadRequestView,
) {
    if op.stage != ReadStage::Probing {
        read_misuse()
    } else {
        match outcome {
            Ok(_) => (
                ReadStage::Submitting,
                ReadRequestView::Submit { capacity: READ_BUFFER_SIZE, overlapped: op.overlapped },
            ),
            Err(fault) => (
                ReadStage::Finished,
                read_failure(probe_operation(op.using_pipes), fault.message),
            ),
        }
    }
}

/// What follows once `count` bytes are known to have arrived: with a
/// completion record, none means the stream is at its end; otherwise the
/// buffer is decoded.
pub open spec fn read_after_arrival(overlapped: bool, count: u32) -> (ReadStage, ReadRequestView) {
    if overlapped && count == 0 {
        (ReadStage::Finished, end_of_stream())
    } else {
        (ReadStage::Decoding, ReadRequestView::Decode)
    }
}

/// After the submission: bytes arrived, or the request was queued (only
/// possible with a completion record), or the read failed.
pub open spec fn read_after_submit(op: ReadOp, outcome: Result<u32, FaultView>) -> (
    ReadStage,
    ReadRequestView,
) {
    if op.stage != ReadStage::Submitting {
        read_misuse()
    } else {
        match outcome {
            Ok(count) => read_after_arrival(op.overlapped, count),
            Err(fault) => if op.overlapped && fault.code == win32_hresult(ERROR_IO_PENDING) {
                (ReadStage::Inspecting, ReadRequestView::Inspect)
            } else {
                (ReadStage::Finished, read_failure(Operation::ReadFile, fault.message))
            },
        }
    }
}

/// What a filled-in completion record means: a failing status ends the
/// read with the status' text; otherwise its count of bytes has arrived.
pub open spec fn read_after_completion(record: CompletionView) -> (ReadStage, ReadRequestView) {
    if failed(record.status as i32) {
        (ReadStage::Finished, read_failure(Operation::ReadFile, record.text))
    } else {
        read_after_arrival(true, record.transferred as u32)
    }
}

/// After a look at the completion record: while its status is the
/// in-progress marker the event is waited on; otherwise the record is final.
pub open spec fn read_after_inspect(op: ReadOp, record: CompletionView) -> (
    ReadStage,
    ReadRequestView,
) {
    if op.stage != ReadStage::Inspecting {
        read_misuse()
    } else if record.status == STATUS_PENDING as usize {
        (ReadStage::Waiting, ReadRequestView::Wait)
    } else {
        read_after_completion(record)
    }
}

/// After the wait: anything but the signalled event ends the read with the
/// system's last error; otherwise the record is final.
pub open spec fn read_after_wait(
    op: ReadOp,
    status: u32,
    fault: FaultView,
    record: CompletionView,
) -> (ReadStage, ReadRequestView) {
    if op.stage != ReadStage::Waiting {
        read_misuse()
    } else if status != WAIT_OBJECT_0 {
        (ReadStage::Finished, read_failure(Operation::WaitForSingleObject, fault.message))
    } else {
        read_after_completion(record)
    }
}

/// After decoding: the text is the decoded buffer without its NUL code
/// units, and the stream goes on.
pub open spec fn read_after_decode(op: ReadOp, wide: Seq<u16>) -> (ReadStage, ReadRequestView) {
    if op.stage != ReadStage::Decoding {
        read_misuse()
    } else {
        (ReadStage::Finished, ReadRequestView::Finish(Ok((without_nuls(wide), true))))
    }
}

impl ReadOp {
    /// The read with another stage.
    pub open spec fn at(self, stage: ReadStage) -> ReadOp {
        ReadOp { using_pipes: self.using_pipes, overlapped: self.overlapped, stage }
    }

    /// Begins a read.
    pub fn start(blocking: bool, using_pipes: bool, overlapped: bool) -> (r: (ReadOp, ReadRequest))
        ensures
            r.0.using_pipes == using_pipes,
            r.0.overlapped == overlapped,
            (r.0.stage, r.1@) == read_start(blocking, using_pipes, overlapped),
    {
        if blocking {
            (
                ReadOp { using_pipes, overlapped, stage: ReadStage::Submitting },
                ReadRequest::Submit { capacity: READ_BUFFER_SIZE, overlapped },
            )
        } else {
            (
                ReadOp { using_pipes, overlapped, stage: ReadStage::Probing },
                ReadRequest::Probe { pipes: using_pipes },
            )
        }
    }

    /// Ends the read for having been driven out of order.
    fn misuse(&mut self) -> (r: ReadRequest)
        ensures
            *final(self) == old(self).at(ReadStage::Finished),
            (final(self).stage, r@) == read_misuse(),
    {
        self.stage = ReadStage::Finished;
        ReadRequest::Finish(Err(PtyError::protocol()))
    }

    /// Ends the read with the failure of `operation`.
    fn fail(&mut self, operation: Operation, fault: OsFault) -> (r: ReadRequest)
        ensures
            *final(self) == old(self).at(ReadStage::Finished),
            r@ == read_failure(operation, fault.message@),
    {
        self.stage = ReadStage::Finished;
        ReadRequest::Finish(Err(PtyError::from_os(operation, fault)))
    }

    /// Goes on once `count` bytes are known to have arrived.
    fn arrived(&mut self, overlapped: bool, count: u32) -> (r: ReadRequest)
        ensures
            *final(self) == old(self).at(final(self).stage),
            (final(self).stage, r@) == read_after_arrival(overlapped, count),
    {
        if overlapped && count == 0 {
            self.stage = ReadStage::Finished;
            ReadRequest::Finish(Ok((Vec::new(), false)))
        } else {
            self.stage = ReadStage::Decoding;
            ReadRequest::Decode
        }
    }

    /// Goes on with a filled-in completion record.
    fn completed(&mut self, record: Completion) -> (r: ReadRequest)
        ensures
            *final(self) == old(self).at(final(self).stage),
            (final(self).stage, r@) == read_after_completion(record@),
    {
        let code: i32 = #[verifier::truncate] (record.status as i32);
        if code < 0 {
            self.fail(Operation::ReadFile, OsFault { code, message: record.text })
        } else {
            let count: u32 = #[verifier::truncate] (record.transferred as u32);
            self.arrived(true, count)
        }
    }

    /// Takes the outcome of the inspection that precedes a non-blocking read.
    pub fn probed(&mut self, outcome: Result<(), OsFault>) -> (r: ReadRequest)
        ensures
            *final(self) == old(self).at(final(self).stage),
            (final(self).stage, r@) == read_after_probe(*old(self), observed(outcome)),
    {
        match self.stage {
            ReadStage::Probing => match outcome {
                Ok(_) => {
                    self.stage = ReadStage::Submitting;
                    ReadRequest::Submit { capacity: READ_BUFFER_SIZE, overlapped: self.overlapped }
                },
                Err(fault) => {
                    let operation = if self.using_pipes {
                        Operation::PeekNamedPipe
                    } else {
                        Operation::GetFileSizeEx
                    };
                    self.fail(operation, fault)
                },
            },
            _ => self.misuse(),
        }
    }

    /// Takes the outcome of the read request: the count of bytes that
    /// arrived at once, or the fault.
    pub fn submitted(&mut self, outcome: Result<u32, OsFault>) -> (r: ReadRequest)
        ensures
            *final(self) == old(self).at(final(self).stage),
            (final(self).stage, r@) == read_after_submit(*old(self), observed(outcome)),
    {
        match self.stage {
            ReadStage::Submitting => match outcome {
                Ok(count) => {
                    let overlapped = self.overlapped;
                    self.arrived(overlapped, count)
                },
                Err(fault) => {
                    if self.overlapped && is_io_pending(fault.code) {
                        self.stage = ReadStage::Inspecting;
                        ReadRequest::Inspect
                    } else {
                        self.fail(Operation::ReadFile, fault)
                    }
                },
            },
            _ => self.misuse(),
        }
    }

    /// Takes the completion record of a queued request as it stands.
    pub fn inspected(&mut self, record: Completion) -> (r: ReadRequest)
        ensures
            *final(self) == old(self).at(final(self).stage),
            (final(self).stage, r@) == read_after_inspect(*old(self), record@),
    {
        match self.stage {
            ReadStage::Inspecting => {
                if record.status == STATUS_PENDING as usize {
                    self.stage = ReadStage::Waiting;
                    ReadRequest::Wait
                } else {
                    self.completed(record)
                }
            },
            _ => self.misuse(),
        }
    }

    /// Takes the result of the wait on the record's event, the system's
    /// last error (read only when the wait did not end signalled) and the
    /// record as it stands after the wait.
    pub fn waited(&mut self, status: u32, fault: OsFault, record: Completion) -> (r: ReadRequest)
        ensures
            *final(self) == old(self).at(final(self).stage),
            (final(self).stage, r@) == read_after_wait(*old(self), status, fault@, record@),
    {
        match self.stage {
            ReadStage::Waiting => {
                if status != WAIT_OBJECT_0 {
                    self.fail(Operation::WaitForSingleObject, fault)
                } else {
                    self.completed(record)
                }
            },
            _ => self.misuse(),
        }
    }

    /// Takes the decoded buffer and produces the text of the read.
    pub fn decoded(&mut self, wide: &Vec<u16>) -> (r: ReadRequest)
        ensures
            *final(self) == old(self).at(final(self).stage),
            (final(self).stage, r@) == read_after_decode(*old(self), wide@),
    {
        match self.stage {
            ReadStage::Decoding => {
                self.stage = ReadStage::Finished;
                ReadRequest::Finish(Ok((strip_nuls(wide), true)))
            },
            _ => self.misuse(),
        }
    }
}

/// The status with which a cancelled request completes.
pub const STATUS_CANCELLED: u32 = 0xC000_0120;

/// The text that a read produces holds no NUL code unit, and is no longer
/// than the decoded buffer.
pub proof fn lemma_read_text_clean(op: ReadOp, wide: Seq<u16>)
    requires
        op.stage == ReadStage::Decoding,
    ensures
        read_after_decode(op, wide).1 matches ReadRequestView::Finish(Ok((text, more))) && more
            && text.len() <= wide.len() && forall|i: int| 0 <= i < text.len() ==> text[i] != 0,
{
    super::text::lemma_without_nuls_clean(wide);
}

/// With a completion record, a read that completes without fault and
/// without a byte has found the end of the stream, at once or from the
/// record; without a completion record no read finds the end.
pub proof fn lemma_zero_bytes_end_stream(op: ReadOp, record: CompletionView, count: u32)
    ensures
        op.stage == ReadStage::Submitting && op.overlapped ==> read_after_submit(
            op,
            Ok(0u32),
        ).1 == end_of_stream(),
        !failed(record.status as i32) && record.transferred as u32 == 0
            ==> read_after_completion(record).1 == end_of_stream(),
        op.stage == ReadStage::Submitting && !op.overlapped ==> read_after_submit(op, Ok(count))
            == (ReadStage::Decoding, ReadRequestView::Decode),
{
}

/// A queued read that was cancelled ends in failure, whether the record is
/// looked at or waited for.
pub proof fn lemma_cancelled_read_fails(op: ReadOp, record: CompletionView, fault: FaultView)
    requires
        record.status == STATUS_CANCELLED as usize,
    ensures
        op.stage == ReadStage::Inspecting ==> read_after_inspect(op, record).1
            == read_failure(Operation::ReadFile, record.text),
        op.stage == ReadStage::Waiting ==> read_after_wait(op, WAIT_OBJECT_0, fault, record).1
            == read_failure(Operation::ReadFile, record.text),
{
    let status: usize = record.status;
    assert(status == 0xC000_0120usize ==> (status as i32) < 0) by (bit_vector);
}

/// A read that is over stays over: whatever is reported to it, it answers
/// with the error of a protocol that was not kept.
pub proof fn lemma_read_is_over(
    op: ReadOp,
    outcome: Result<u32, FaultView>,
    probe: Result<(), FaultView>,
    record: CompletionView,
    status: u32,
    fault: FaultView,
    wide: Seq<u16>,
)
    requires
        op.stage == ReadStage::Finished,
    ensures
        read_after_probe(op, probe) == read_misuse(),
        read_after_submit(op, outcome) == read_misuse(),
        read_after_inspect(op, record) == read_misuse(),
        read_after_wait(op, status, fault, record) == read_misuse(),
        read_after_decode(op, wide) == read_misuse(),
{
}

/// What the reader worker must do next.
#[derive(Clone, Copy, Debug, PartialEq, Eq, Structural)]
pub enum ReaderRequest {
    /// Find out whether the output stream has ended.
    ProbeEnd,
    /// Perform one blocking read of the output stream.
    Read,
    /// Leave the loop; the alive flag of the worker is lowered.
    Stop,
}

/// The process handle that a hand-off delivers: none when the queue was
/// cut, or when the session is being torn down before any spawn.
pub open spec fn handoff_verdict(got: Option<Option<LocalHandle>>) -> Option<LocalHandle> {
    match got {
        Some(Some(process)) => Some(process),
        _ => None,
    }
}

/// Whether the control queue lets the worker go on: only a waiting `false`
/// stops it.
pub open spec fn control_verdict(polled: Polled<bool>) -> bool {
    match polled {
        Polled::Item(go_on) => go_on,
        _ => true,
    }
}

/// The queue item that a finished read becomes: its text, or its error;
/// what the read said of the stream going on is not queued.
pub open spec fn reader_item(outcome: Result<(Vec<u16>, bool), PtyError>) -> ItemView {
    match outcome {
        Ok((text, _)) => Some(Ok(text@)),
        Err(e) => Some(Err(e@)),
    }
}

/// An item of the output queue in mathematical form.
pub open spec fn item_view(item: OutputItem) -> ItemView {
    match item {
        Some(Ok(text)) => Some(Ok(text@)),
        Some(Err(e)) => Some(Err(e@)),
        None => None,
    }
}

/// Makes the queue item of a finished read.
pub fn output_item(outcome: Result<(Vec<u16>, bool), PtyError>) -> (item: OutputItem)
    ensures
        item_view(item) == reader_item(outcome),
        outcome matches Ok(pair) ==> item matches Some(Ok(text)) && text@ == pair.0@,
        outcome matches Err(e) ==> item matches Some(Err(queued)) && queued@ == e@,
{
    match outcome {
        Ok(pair) => Some(Ok(pair.0)),
        Err(e) => Some(Err(e)),
    }
}

/// Makes the queue item that marks the end of the output stream.
pub fn end_marker() -> (item: OutputItem)
    ensures
        item is None,
        item_view(item) == None::<Result<Seq<u16>, ErrorView>>,
{
    None
}

/// What the liveness watcher must do next.
#[derive(Clone, Copy, Debug, PartialEq, Eq, Structural)]
pub enum WatcherRequest {
    /// Wait without limit for this process to exit.
    AwaitExit(LocalHandle),
    /// Cancel the pending reads of this stream.
    CancelReads(LocalHandle),
    /// Nothing is left to do; the exit was told to the backend.
    Done,
}

/// How the watcher begins: with a process it awaits the exit of that
/// process; without one it has nothing to do.
pub open spec fn watcher_start(got: Option<LocalHandle>) -> WatcherRequest {
    match got {
        Some(process) => WatcherRequest::AwaitExit(process),
        None => WatcherRequest::Done,
    }
}

/// What the watcher does once the child has exited: while the reader is
/// active it cancels the pending reads of the output stream, so that a
/// reader that waits in a read comes back; once the reader has ended it
/// is done.
pub open spec fn watcher_verdict(active: bool, stream: LocalHandle) -> WatcherRequest {
    if active {
        WatcherRequest::CancelReads(stream)
    } else {
        WatcherRequest::Done
    }
}

/// Decides how the watcher begins.
pub fn start_watcher(got: Option<LocalHandle>) -> (r: WatcherRequest)
    ensures
        r == watcher_start(got),
{
    match got {
        Some(process) => WatcherRequest::AwaitExit(process),
        None => WatcherRequest::Done,
    }
}

/// Decides what the watcher does once the child has exited.
pub fn decide_watcher(active: bool, stream: LocalHandle) -> (r: WatcherRequest)
    ensures
        r == watcher_verdict(active, stream),
{
    if active {
        WatcherRequest::CancelReads(stream)
    } else {
        WatcherRequest::Done
    }
}

/// What the worker does after a read was queued for the consumer.
///
/// A worker whose item could not be queued stops. With completion records
/// the worker goes on exactly while reads succeed and report that the
/// stream goes on. Without them it goes on, whatever the read gave, until
/// the control queue stops it; it probes for the end before each read.
pub open spec fn reader_verdict(
    asynchronous: bool,
    more: Option<bool>,
    queued: bool,
    go_on: bool,
) -> ReaderRequest {
    if !queued {
        ReaderRequest::Stop
    } else if asynchronous {
        if more == Some(true) {
            ReaderRequest::Read
        } else {
            ReaderRequest::Stop
        }
    } else if go_on {
        ReaderRequest::ProbeEnd
    } else {
        ReaderRequest::Stop
    }
}

/// What a finished read said of the stream going on: nothing when it failed.
pub open spec fn read_more(outcome: Result<(Vec<u16>, bool), PtyError>) -> Option<bool> {
    match outcome {
        Ok((_, more)) => Some(more),
        Err(_) => None,
    }
}

/// Reads what the hand-off queue delivered.
pub fn accept_handoff(got: Option<Option<LocalHandle>>) -> (r: Option<LocalHandle>)
    ensures
        r == handoff_verdict(got),
{
    match got {
        Some(Some(process)) => Some(process),
        _ => None,
    }
}

/// Reads what the control queue held.
pub fn accept_control(polled: Polled<bool>) -> (r: bool)
    ensures
        r == control_verdict(polled),
{
    match polled {
        Polled::Item(go_on) => go_on,
        _ => true,
    }
}

/// Decides the worker's next step after a read; `more` is what a
/// successful read said of the stream going on, and is absent after a
/// failed read.
pub fn decide_reader(asynchronous: bool, more: Option<bool>, queued: bool, go_on: bool) -> (r:
    ReaderRequest)
    ensures
        r == reader_verdict(asynchronous, more, queued, go_on),
{
    if !queued {
        ReaderRequest::Stop
    } else if asynchronous {
        match more {
            Some(true) => ReaderRequest::Read,
            _ => ReaderRequest::Stop,
        }
    } else if go_on {
        ReaderRequest::ProbeEnd
    } else {
        ReaderRequest::Stop
    }
}

/// The reader worker's ends of the session's queues.
pub struct ReaderLink {
    asynchronous: bool,
    stream: LocalHandle,
    using_pipes: bool,
    flags: Arc<ReaderFlags>,
    handoff: Receiver<Option<LocalHandle>>,
    control: Receiver<bool>,
    output: Sender<OutputItem>,
    watcher: Option<Sender<LocalHandle>>,
}

/// The liveness watcher's end of the session's queues.
pub struct WatcherLink {
    stream: LocalHandle,
    flags: Arc<ReaderFlags>,
    handoff: Receiver<LocalHandle>,
    cleanup: Option<Sender<bool>>,
}

impl ReaderLink {
    /// Whether the worker reads with completion records.
    pub closed spec fn asynchronous(&self) -> bool {
        self.asynchronous
    }

    /// The output stream the worker reads.
    pub closed spec fn stream(&self) -> LocalHandle {
        self.stream
    }

    /// Whether the output stream is a pipe.
    pub closed spec fn using_pipes(&self) -> bool {
        self.using_pipes
    }

    pub(crate) fn new(
        asynchronous: bool,
        stream: LocalHandle,
        using_pipes: bool,
        flags: Arc<ReaderFlags>,
        handoff: Receiver<Option<LocalHandle>>,
        control: Receiver<bool>,
        output: Sender<OutputItem>,
        watcher: Option<Sender<LocalHandle>>,
    ) -> (link: ReaderLink)
        ensures
            link.asynchronous() == asynchronous,
            link.stream() == stream,
            link.using_pipes() == using_pipes,
    {
        ReaderLink { asynchronous, stream, using_pipes, flags, handoff, control, output, watcher }
    }

    /// Whether the worker reads with completion records.
    pub fn is_async(&self) -> (r: bool)
        ensures
            r == self.asynchronous(),
    {
        self.asynchronous
    }

    /// The output stream the worker reads.
    pub fn output_stream(&self) -> (r: LocalHandle)
        ensures
            r == self.stream(),
    {
        self.stream
    }

    /// Whether the output stream is a pipe.
    pub fn reads_pipe(&self) -> (r: bool)
        ensures
            r == self.using_pipes(),
    {
        self.using_pipes
    }

    /// Waits for the hand-off of the process handle. With a handle the
    /// ready flag is raised and the handle is passed on to the liveness
    /// watcher where there is one. Without a handle the worker must end
    /// without entering its loop: the alive flag is lowered, and the ready
    /// flag is raised, for the worker waits no longer.
    ///
    /// What the hand-off queue delivers is up to the session's owner, so
    /// the result is whatever [`handoff_verdict`] makes of it.
    pub fn await_process(&self) -> (r: Option<LocalHandle>) {
        let got = accept_handoff(recv(&self.handoff));
        match got {
            Some(process) => {
                self.flags.raise_ready();
                match &self.watcher {
                    Some(tx) => {
                        let _ = send(tx, process);
                    },
                    None => {},
                }
                Some(process)
            },
            None => {
                self.flags.lower_alive();
                self.flags.raise_ready();
                None
            },
        }
    }

    /// Lowers the alive flag where the worker is told to stop.
    fn settle(&self, request: ReaderRequest) -> (r: ReaderRequest)
        ensures
            r == request,
    {
        match request {
            ReaderRequest::Stop => {
                self.flags.lower_alive();
            },
            _ => {},
        }
        request
    }

    /// The worker's first step once it holds the process handle.
    pub fn begin(&self) -> (r: ReaderRequest)
        ensures
            self.asynchronous() ==> r == ReaderRequest::Read,
            !self.asynchronous() ==> r == ReaderRequest::ProbeEnd || r == ReaderRequest::Stop,
    {
        if self.asynchronous {
            ReaderRequest::Read
        } else {
            let first = decide_reader(false, None, true, accept_control(try_recv(&self.control)));
            self.settle(first)
        }
    }

    /// Takes the answer to [`ReaderRequest::ProbeEnd`]: at the end of the
    /// stream the item of [`end_marker`] is queued and the worker stops,
    /// else it reads.
    pub fn probed(&self, ended: bool) -> (r: ReaderRequest)
        ensures
            r == if ended {
                ReaderRequest::Stop
            } else {
                ReaderRequest::Read
            },
    {
        if ended {
            let _ = send(&self.output, end_marker());
            self.settle(ReaderRequest::Stop)
        } else {
            ReaderRequest::Read
        }
    }

    /// Takes the result of a read, queues the item that [`output_item`]
    /// makes of it for the consumer, and decides how the worker goes on.
    pub fn completed(&self, outcome: Result<(Vec<u16>, bool), PtyError>) -> (r: ReaderRequest)
        ensures
            exists|queued: bool, go_on: bool|
                r == #[trigger] reader_verdict(
                    self.asynchronous(),
                    read_more(outcome),
                    queued,
                    go_on,
                ),
    {
        let more: Option<bool> = match &outcome {
            Ok(pair) => Some(pair.1),
            Err(_) => None,
        };
        assert(more == read_more(outcome));
        let item: OutputItem = output_item(outcome);
        let queued = send(&self.output, item);
        let go_on = if self.asynchronous || !queued {
            true
        } else {
            accept_control(try_recv(&self.control))
        };
        let next = decide_reader(self.asynchronous, more, queued, go_on);
        assert(next == reader_verdict(self.asynchronous(), read_more(outcome), queued, go_on));
        self.settle(next)
    }
}

impl WatcherLink {
    /// The output stream whose pending reads the watcher cancels.
    pub closed spec fn stream(&self) -> LocalHandle {
        self.stream
    }

    pub(crate) fn new(
        stream: LocalHandle,
        flags: Arc<ReaderFlags>,
        handoff: Receiver<LocalHandle>,
        cleanup: Option<Sender<bool>>,
    ) -> (link: WatcherLink)
        ensures
            link.stream() == stream,
    {
        WatcherLink { stream, flags, handoff, cleanup }
    }

    /// Whether the reader has not ended yet. While it has not, the watcher
    /// goes on cancelling the pending reads of the output stream.
    pub fn reader_active(&self) -> bool {
        self.flags.is_alive()
    }

    /// The output stream whose pending reads the watcher cancels.
    pub fn output_stream(&self) -> (r: LocalHandle)
        ensures
            r == self.stream(),
    {
        self.stream
    }

    /// Waits for the reader to pass the process handle on. Without a
    /// handle the watcher ends at once.
    pub fn await_process(&self) -> (r: Option<LocalHandle>) {
        recv(&self.handoff)
    }

    /// Begins the watch: waits for the reader to pass the process handle
    /// on, and asks to await the exit of that process; without a handle
    /// the watcher is done at once.
    pub fn begin(&self) -> (r: WatcherRequest)
        ensures
            r is AwaitExit || r == WatcherRequest::Done,
    {
        start_watcher(self.await_process())
    }

    /// Takes the word that the child has exited, or that the pending reads
    /// were cancelled once more: while the reader is active, as its flag
    /// shows at this moment, the reads of the output stream are to be
    /// cancelled again; once it has ended the exit is told to the backend
    /// and the watcher is done.
    pub fn exited(&self) -> (r: WatcherRequest)
        ensures
            exists|active: bool| r == #[trigger] watcher_verdict(active, self.stream()),
            r == WatcherRequest::CancelReads(self.stream()) || r == WatcherRequest::Done,
    {
        let active = self.reader_active();
        let r = decide_watcher(active, self.stream);
        assert(r == watcher_verdict(active, self.stream()));
        match r {
            WatcherRequest::Done => {
                self.signal_exit();
            },
            _ => {},
        }
        r
    }

    /// Tells the backend that the child has exited and the reader has
    /// ended, so that the console may be released.
    pub fn signal_exit(&self) {
        match &self.cleanup {
            Some(tx) => {
                let _ = send(tx, true);
            },
            None => {},
        }
    }
}

} // verus!
