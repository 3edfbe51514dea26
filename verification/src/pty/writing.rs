//! Writing the input stream: a buffer goes out in chunks, in order, and
//! with completion records no chunk is handed over while an earlier one is
//! still in flight.

use super::base::WRITE_CHUNK_SIZE;
use super::error::{observed, os_error, protocol_error, ErrorView, FaultView, Operation, OsFault, PtyError};
use super::status::{is_io_pending, win32_hresult, ERROR_IO_PENDING};
use vstd::prelude::*;

verus! {

/// The write side of an engine. It outlives the single writes, and is used
/// by one writer at a time.
#[derive(Clone, Copy, Debug, PartialEq, Eq, Structural)]
pub struct Writer {
    /// Whether writes carry a completion record and may be queued.
    pub asynchronous: bool,
    /// Whether a queued write has not been seen to complete yet.
    pub pending: bool,
}

/// Where one write of a buffer stands.
#[derive(Clone, Copy, Debug, PartialEq, Eq, Structural)]
pub enum WriteStage {
    /// The completion of an earlier queued write is being awaited.
    Draining,
    /// A chunk was handed to the system.
    Writing,
    /// The write has produced its result.
    Finished,
}

/// One write of a buffer.
#[derive(Clone, Copy, Debug, PartialEq, Eq, Structural)]
pub struct WriteOp {
    /// Length of the buffer in bytes.
    pub len: usize,
    /// Start of the chunk that is due or in flight; all bytes before it
    /// were handed over.
    pub offset: usize,
    /// Bytes that the system has reported as written.
    pub total: u32,
    /// The current stage.
    pub stage: WriteStage,
}

/// What the host must do next for a write, or the result of the write.
#[derive(Debug)]
pub enum WriteRequest {
    /// Wait for the queued write to complete and report its byte count.
    Drain,
    /// Write the bytes from `start` up to `end` of the buffer.
    Submit { start: usize, end: usize },
    /// The write is over: the count of bytes reported as written, or the
    /// error.
    Finish(Result<u32, PtyError>),
}

/// Mathematical form of a [`WriteRequest`].
pub enum WriteRequestView {
    Drain,
    Submit { start: usize, end: usize },
    Finish(Result<u32, ErrorView>),
}

impl View for WriteRequest {
    type V = WriteRequestView;

    open spec fn view(&self) -> WriteRequestView {
        match *self {
            WriteRequest::Drain => WriteRequestView::Drain,
            WriteRequest::Submit { start, end } => WriteRequestView::Submit { start, end },
            WriteRequest::Finish(Ok(count)) => WriteRequestView::Finish(Ok(count)),
            WriteRequest::Finish(Err(e)) => WriteRequestView::Finish(Err(e@)),
        }
    }
}

/// The end of the chunk that starts at `start` in a buffer of `len` bytes:
/// a full chunk further, or the end of the buffer if that comes first.
pub open spec fn chunk_end(len: usize, start: usize) -> usize {
    if len - start > WRITE_CHUNK_SIZE {
        (start + WRITE_CHUNK_SIZE) as usize
    } else {
        len
    }
}

impl Writer {
    /// A writer without completion records never has a write in flight.
    pub open spec fn wf(self) -> bool {
        self.pending ==> self.asynchronous
    }
}

impl WriteOp {
    /// The write at another stage.
    pub open spec fn at(self, stage: WriteStage) -> WriteOp {
        WriteOp { stage, ..self }
    }

    /// The write with `count` more bytes reported as written.
    pub open spec fn counting(self, count: u32) -> WriteOp {
        WriteOp { total: (self.total + count) as u32, ..self }
    }

    /// The write with the chunk in flight accepted by the system.
    pub open spec fn advanced(self) -> WriteOp {
        WriteOp { offset: chunk_end(self.len, self.offset), ..self }
    }

    /// The offset never passes the end of the buffer.
    pub open spec fn wf(self) -> bool {
        self.offset <= self.len
    }
}

/// The write that was driven against its protocol.
pub open spec fn write_misuse(w: Writer, op: WriteOp) -> (Writer, WriteOp, WriteRequestView) {
    (w, op.at(WriteStage::Finished), WriteRequestView::Finish(Err(protocol_error())))
}

/// A write that failed in `operation`.
pub open spec fn write_failure(w: Writer, op: WriteOp, operation: Operation, message: Seq<char>)
    -> (Writer, WriteOp, WriteRequestView) {
    (
        w,
        op.at(WriteStage::Finished),
        WriteRequestView::Finish(Err(os_error(operation, message))),
    )
}

/// The request for the chunk that is due.
pub open spec fn write_chunk(w: Writer, op: WriteOp) -> (Writer, WriteOp, WriteRequestView) {
    (
        w,
        op.at(WriteStage::Writing),
        WriteRequestView::Submit { start: op.offset, end: chunk_end(op.len, op.offset) },
    )
}

/// What a write does at the start of each chunk: with nothing left it ends
/// with its count; with an earlier write in flight it awaits that one
/// first, which from here on counts as observed; else it hands over the
/// chunk.
pub open spec fn write_next(w: Writer, op: WriteOp) -> (Writer, WriteOp, WriteRequestView) {
    if op.offset >= op.len {
        (w, op.at(WriteStage::Finished), WriteRequestView::Finish(Ok(op.total)))
    } else if w.asynchronous && w.pending {
        (Writer { pending: false, ..w }, op.at(WriteStage::Draining), WriteRequestView::Drain)
    } else {
        write_chunk(w, op)
    }
}

/// The write of a buffer of `len` bytes, before its first chunk.
pub open spec fn write_start(len: usize) -> WriteOp {
    WriteOp { len, offset: 0, total: 0, stage: WriteStage::Writing }
}

/// After the earlier write was awaited: its failure ends the write; its
/// byte count is added and the chunk that is due is handed over.
pub open spec fn write_after_drain(w: Writer, op: WriteOp, outcome: Result<u32, FaultView>) -> (
    Writer,
    WriteOp,
    WriteRequestView,
) {
    if op.stage != WriteStage::Draining {
        write_misuse(w, op)
    } else {
        match outcome {
            Ok(count) => write_chunk(w, op.counting(count)),
            Err(fault) => write_failure(w, op, Operation::GetOverlappedResult, fault.message),
        }
    }
}

/// After a chunk was handed over. A chunk that was written at once adds
/// its byte count. With completion records a chunk that was queued is
/// remembered as in flight, and its byte count is added when it is
/// awaited. Either way the write moves on to the next chunk. Any other
/// fault ends the write.
pub open spec fn write_after_submit(w: Writer, op: WriteOp, outcome: Result<u32, FaultView>) -> (
    Writer,
    WriteOp,
    WriteRequestView,
) {
    if op.stage != WriteStage::Writing || op.offset >= op.len {
        write_misuse(w, op)
    } else {
        match outcome {
            Ok(count) => write_next(w, op.counting(count).advanced()),
            Err(fault) => if w.asynchronous && fault.code == win32_hresult(ERROR_IO_PENDING) {
                write_next(Writer { pending: true, ..w }, op.advanced())
            } else {
                write_failure(w, op, Operation::WriteFile, fault.message)
            },
        }
    }
}

impl Writer {
    /// The write side of a new engine: nothing in flight.
    pub fn new(asynchronous: bool) -> (w: Writer)
        ensures
            w == (Writer { asynchronous, pending: false }),
            w.wf(),
    {
        Writer { asynchronous, pending: false }
    }

    /// Decides what a write does at the start of a chunk.
    fn next(&mut self, op: &mut WriteOp) -> (r: WriteRequest)
        requires
            old(op).wf(),
        ensures
            (*final(self), *final(op), r@) == write_next(*old(self), *old(op)),
            final(op).wf(),
    {
        if op.offset >= op.len {
            op.stage = WriteStage::Finished;
            WriteRequest::Finish(Ok(op.total))
        } else if self.asynchronous && self.pending {
            self.pending = false;
            op.stage = WriteStage::Draining;
            WriteRequest::Drain
        } else {
            Self::chunk(op)
        }
    }

    /// Requests the chunk that is due.
    fn chunk(op: &mut WriteOp) -> (r: WriteRequest)
        requires
            old(op).wf(),
        ensures
            *final(op) == old(op).at(WriteStage::Writing),
            r@ == (WriteRequestView::Submit {
                start: old(op).offset,
                end: chunk_end(old(op).len, old(op).offset),
            }),
    {
        op.stage = WriteStage::Writing;
        let end: usize = if op.len - op.offset > WRITE_CHUNK_SIZE {
            op.offset + WRITE_CHUNK_SIZE
        } else {
            op.len
        };
        WriteRequest::Submit { start: op.offset, end }
    }

    /// Moves the write past the chunk in flight.
    fn advance(op: &mut WriteOp)
        requires
            old(op).wf(),
        ensures
            *final(op) == old(op).advanced(),
            final(op).wf(),
    {
        op.offset = if op.len - op.offset > WRITE_CHUNK_SIZE {
            op.offset + WRITE_CHUNK_SIZE
        } else {
            op.len
        };
    }

    /// Begins the write of a buffer of `len` bytes.
    pub fn begin(&mut self, len: usize) -> (r: (WriteOp, WriteRequest))
        ensures
            (*final(self), r.0, r.1@) == write_next(*old(self), write_start(len)),
            r.0.wf(),
            old(self).wf() ==> final(self).wf(),
    {
        let mut op = WriteOp { len, offset: 0, total: 0, stage: WriteStage::Writing };
        let request = self.next(&mut op);
        (op, request)
    }

    /// Takes the outcome of awaiting the earlier queued write: its byte
    /// count, or the fault.
    pub fn drained(&mut self, op: &mut WriteOp, outcome: Result<u32, OsFault>) -> (r: WriteRequest)
        requires
            old(op).wf(),
            outcome matches Ok(count) ==> old(op).total + count <= u32::MAX,
        ensures
            (*final(self), *final(op), r@) == write_after_drain(
                *old(self),
                *old(op),
                observed(outcome),
            ),
            final(op).wf(),
            old(self).wf() ==> final(self).wf(),
    {
        match op.stage {
            WriteStage::Draining => match outcome {
                Ok(count) => {
                    op.total = op.total + count;
                    Self::chunk(op)
                },
                Err(fault) => {
                    op.stage = WriteStage::Finished;
                    WriteRequest::Finish(
                        Err(PtyError::from_os(Operation::GetOverlappedResult, fault)),
                    )
                },
            },
            _ => {
                op.stage = WriteStage::Finished;
                WriteRequest::Finish(Err(PtyError::protocol()))
            },
        }
    }

    /// Takes the outcome of handing over a chunk: its byte count, or the
    /// fault.
    pub fn submitted(&mut self, op: &mut WriteOp, outcome: Result<u32, OsFault>) -> (r:
        WriteRequest)
        requires
            old(op).wf(),
            outcome matches Ok(count) ==> old(op).total + count <= u32::MAX,
        ensures
            (*final(self), *final(op), r@) == write_after_submit(
                *old(self),
                *old(op),
                observed(outcome),
            ),
            final(op).wf(),
            old(self).wf() ==> final(self).wf(),
    {
        let in_flight = match op.stage {
            WriteStage::Writing => op.offset < op.len,
            _ => false,
        };
        if !in_flight {
            op.stage = WriteStage::Finished;
            WriteRequest::Finish(Err(PtyError::protocol()))
        } else {
            match outcome {
                Ok(count) => {
                    op.total = op.total + count;
                    Self::advance(op);
                    self.next(op)
                },
                Err(fault) => {
                    if self.asynchronous && is_io_pending(fault.code) {
                        self.pending = true;
                        Self::advance(op);
                        self.next(op)
                    } else {
                        op.stage = WriteStage::Finished;
                        WriteRequest::Finish(Err(PtyError::from_os(Operation::WriteFile, fault)))
                    }
                },
            }
        }
    }
}

/// One step of a write, whichever outcome the host reports: that of the
/// awaited earlier write while one is awaited, else that of the chunk.
pub open spec fn write_step(w: Writer, op: WriteOp, outcome: Result<u32, FaultView>) -> (
    Writer,
    WriteOp,
    WriteRequestView,
) {
    if op.stage == WriteStage::Draining {
        write_after_drain(w, op, outcome)
    } else {
        write_after_submit(w, op, outcome)
    }
}

/// A writer and a write of its own: the writer has nothing in flight while
/// the write is under way, and an earlier write is awaited only with a
/// chunk still due.
pub open spec fn in_order(w: Writer, op: WriteOp) -> bool {
    &&& w.wf()
    &&& op.wf()
    &&& op.stage != WriteStage::Finished ==> !w.pending
    &&& op.stage == WriteStage::Draining ==> op.offset < op.len
}

/// A request as a write in the given state issues it.
pub open spec fn issued(op: WriteOp, request: WriteRequestView) -> bool {
    match request {
        WriteRequestView::Submit { start, end } => {
            &&& op.stage == WriteStage::Writing
            &&& op.offset < op.len
            &&& start == op.offset
            &&& end == chunk_end(op.len, op.offset)
        },
        WriteRequestView::Drain => op.stage == WriteStage::Draining && op.offset < op.len,
        WriteRequestView::Finish(Ok(count)) => {
            &&& op.stage == WriteStage::Finished
            &&& op.offset == op.len
            &&& count == op.total
        },
        WriteRequestView::Finish(Err(_)) => op.stage == WriteStage::Finished,
    }
}

/// The ranges of the buffer that a run of a write hands over, in order:
/// the run stands at `request` and the host reports `outcomes` one after
/// the other.
pub open spec fn handed_over(
    w: Writer,
    op: WriteOp,
    request: WriteRequestView,
    outcomes: Seq<Result<u32, FaultView>>,
) -> Seq<(usize, usize)>
    decreases outcomes.len(),
{
    let here = match request {
        WriteRequestView::Submit { start, end } => seq![(start, end)],
        _ => Seq::empty(),
    };
    if outcomes.len() == 0 || request is Finish {
        here
    } else {
        let step = write_step(w, op, outcomes[0]);
        here + handed_over(step.0, step.1, step.2, outcomes.skip(1))
    }
}

/// The request at which such a run stands in the end.
pub open spec fn last_request(
    w: Writer,
    op: WriteOp,
    request: WriteRequestView,
    outcomes: Seq<Result<u32, FaultView>>,
) -> WriteRequestView
    decreases outcomes.len(),
{
    if outcomes.len() == 0 || request is Finish {
        request
    } else {
        let step = write_step(w, op, outcomes[0]);
        last_request(step.0, step.1, step.2, outcomes.skip(1))
    }
}

/// Whether `ranges` are chunks that lie end to end from `from` to `to`:
/// none is empty, none is longer than a chunk, each starts where the one
/// before it ends.
pub open spec fn tiles(ranges: Seq<(usize, usize)>, from: int, to: int) -> bool
    decreases ranges.len(),
{
    if ranges.len() == 0 {
        from == to
    } else {
        &&& ranges[0].0 == from
        &&& from < ranges[0].1
        &&& ranges[0].1 - from <= WRITE_CHUNK_SIZE
        &&& tiles(ranges.skip(1), ranges[0].1 as int, to)
    }
}

/// The chunk that is due is not empty, is no longer than a chunk, ends
/// within the buffer, and is a full chunk unless it ends the buffer.
pub proof fn lemma_chunk_bounds(len: usize, start: usize)
    requires
        start < len,
    ensures
        start < chunk_end(len, start) <= len,
        chunk_end(len, start) - start <= WRITE_CHUNK_SIZE,
        chunk_end(len, start) == len || chunk_end(len, start) - start == WRITE_CHUNK_SIZE,
{
}

/// A write of an empty buffer ends at once with a count of zero, and
/// leaves an earlier write in flight as it is.
pub proof fn lemma_empty_write(w: Writer)
    ensures
        write_next(w, write_start(0)).2 == WriteRequestView::Finish(Ok(0u32)),
        write_next(w, write_start(0)).0 == w,
{
}

/// A write begins in order: on a sound writer its first request is issued
/// as [`issued`] says, and leaves the writer with nothing in flight while
/// the write is under way.
pub proof fn lemma_write_begins_in_order(w: Writer, len: usize)
    requires
        w.wf(),
    ensures
        in_order(write_next(w, write_start(len)).0, write_next(w, write_start(len)).1),
        issued(write_next(w, write_start(len)).1, write_next(w, write_start(len)).2),
{
}

/// Writes on one stream are handed over one at a time: every step of a
/// write keeps its writer free of writes in flight while the write is
/// under way, so that a chunk is handed over only after the queued write
/// before it was seen to complete; and every request is issued as
/// [`issued`] says.
pub proof fn lemma_one_write_in_flight(w: Writer, op: WriteOp, outcome: Result<u32, FaultView>)
    requires
        in_order(w, op),
    ensures
        in_order(write_step(w, op, outcome).0, write_step(w, op, outcome).1),
        issued(write_step(w, op, outcome).1, write_step(w, op, outcome).2),
        write_step(w, op, outcome).2 is Submit ==> !write_step(w, op, outcome).0.pending,
{
}

/// A write that ends with a count has handed over its whole buffer, each
/// byte once and in order: the ranges it handed over are chunks that lie
/// end to end from where the write stood to the end of the buffer.
pub proof fn lemma_write_covers_buffer(
    w: Writer,
    op: WriteOp,
    request: WriteRequestView,
    outcomes: Seq<Result<u32, FaultView>>,
)
    requires
        in_order(w, op),
        issued(op, request),
        last_request(w, op, request, outcomes) matches WriteRequestView::Finish(Ok(_)),
    ensures
        tiles(handed_over(w, op, request, outcomes), op.offset as int, op.len as int),
    decreases outcomes.len(),
{
    if outcomes.len() == 0 || request is Finish {
    } else {
        let step = write_step(w, op, outcomes[0]);
        lemma_one_write_in_flight(w, op, outcomes[0]);
        lemma_write_covers_buffer(step.0, step.1, step.2, outcomes.skip(1));
        let rest = handed_over(step.0, step.1, step.2, outcomes.skip(1));
        match request {
            WriteRequestView::Submit { start, end } => {
                lemma_chunk_bounds(op.len, op.offset);
                assert((seq![(start, end)] + rest).skip(1) =~= rest);
                assert(step.1.offset == end || step.2 is Finish);
            },
            _ => {
                assert(Seq::<(usize, usize)>::empty() + rest =~= rest);
            },
        }
    }
}

/// A write that begins on a sound writer and ends with a count has handed
/// over its whole buffer in chunks that lie end to end.
pub proof fn lemma_write_in_order(w: Writer, len: usize, outcomes: Seq<Result<u32, FaultView>>)
    requires
        w.wf(),
        ({
            let first = write_next(w, write_start(len));
            last_request(first.0, first.1, first.2, outcomes) matches WriteRequestView::Finish(
                Ok(_),
            )
        }),
    ensures
        ({
            let first = write_next(w, write_start(len));
            tiles(handed_over(first.0, first.1, first.2, outcomes), 0, len as int)
        }),
{
    let first = write_next(w, write_start(len));
    lemma_write_begins_in_order(w, len);
    lemma_write_covers_buffer(first.0, first.1, first.2, outcomes);
}

/// The request at which a write stands after `steps` chunks at most, when
/// the system writes every chunk at once and in full.
pub open spec fn written_in_full(w: Writer, op: WriteOp, request: WriteRequestView, steps: nat)
    -> WriteRequestView
    decreases steps,
{
    match request {
        WriteRequestView::Submit { start, end } => if steps == 0 {
            request
        } else {
            let step = write_after_submit(w, op, Ok((end - start) as u32));
            written_in_full(step.0, step.1, step.2, (steps - 1) as nat)
        },
        _ => request,
    }
}

/// A write whose chunks the system writes at once and in full counts every
/// byte that was still to be written, with or without completion records.
pub proof fn lemma_full_write_counts(w: Writer, op: WriteOp, request: WriteRequestView, steps: nat)
    requires
        in_order(w, op),
        issued(op, request),
        !w.pending,
        request is Submit || request matches WriteRequestView::Finish(Ok(_)),
        op.total + (op.len - op.offset) <= u32::MAX,
        steps >= op.len - op.offset,
    ensures
        written_in_full(w, op, request, steps) == WriteRequestView::Finish(
            Ok((op.total + (op.len - op.offset)) as u32),
        ),
    decreases steps,
{
    match request {
        WriteRequestView::Submit { start, end } => {
            lemma_chunk_bounds(op.len, op.offset);
            let outcome = Ok::<u32, FaultView>((end - start) as u32);
            let step = write_after_submit(w, op, outcome);
            lemma_one_write_in_flight(w, op, outcome);
            lemma_full_write_counts(step.0, step.1, step.2, (steps - 1) as nat);
        },
        _ => {},
    }
}

/// A buffer that the system takes at once and in full is written with a
/// count of its length: on a writer with nothing in flight, the write of
/// `len` bytes ends with `len`.
pub proof fn lemma_whole_buffer_counts(asynchronous: bool, len: usize)
    requires
        len <= u32::MAX,
    ensures
        ({
            let w = Writer { asynchronous, pending: false };
            let first = write_next(w, write_start(len));
            written_in_full(first.0, first.1, first.2, len as nat) == WriteRequestView::Finish(
                Ok(len as u32),
            )
        }),
{
    let w = Writer { asynchronous, pending: false };
    let first = write_next(w, write_start(len));
    lemma_write_begins_in_order(w, len);
    lemma_full_write_counts(first.0, first.1, first.2, len as nat);
}

} // verus!
