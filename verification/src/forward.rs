//! Stream forwarding: the loop that copies one output stream of the child to
//! the matching stream of the caller.
//!
//! The loop reads a chunk, writes it verbatim, flushes, and reads again; an
//! empty chunk is the end of the stream. Reading and writing are for the
//! caller to do. [`Forwarder`] says what to do next and is told how it went.
//! It keeps, as ghost state, the bytes that were read and the bytes that were
//! written, so that its contract can say that nothing is lost, added or
//! reordered on the way.

use vstd::prelude::*;

verus! {

/// Most bytes that one read asks for.
pub const CHUNK_SIZE: usize = 1024;

/// One of the two output streams of a child.
#[derive(Clone, Copy, Debug, PartialEq, Eq, Structural)]
pub enum StreamId {
    Stdout,
    Stderr,
}

/// The operation of a forwarding loop that failed.
#[derive(Clone, Copy, Debug, PartialEq, Eq, Structural)]
pub enum StreamFault {
    Read,
    Write,
    Flush,
}

/// A failure of the forwarding loop of one stream.
#[derive(Clone, Copy, Debug, PartialEq, Eq, Structural)]
pub struct StreamIoError {
    pub stream: StreamId,
    pub fault: StreamFault,
}

/// What the caller of a [`Forwarder`] does next.
#[derive(Debug)]
pub enum ForwardStep {
    /// Read at most this many bytes from the child's stream.
    Read(usize),
    /// Write these bytes to the caller's stream and flush it.
    Write(Vec<u8>),
    /// Stop: the loop has ended, cleanly or with this fault.
    Finished(Option<StreamFault>),
}

/// How the last step went.
#[derive(Debug)]
pub enum ForwardEvent {
    /// The read returned these bytes; none means the stream has ended.
    Chunk(Vec<u8>),
    /// The read failed.
    ReadFailed,
    /// The bytes were written and flushed.
    Written,
    /// The write failed.
    WriteFailed,
    /// The bytes were written, and the flush failed.
    FlushFailed,
}

/// Where a forwarding loop stands.
pub enum ForwardPhase {
    /// About to read.
    Reading,
    /// About to write this chunk.
    Writing(Seq<u8>),
    /// Ended.
    Finished(Option<StreamFault>),
}

/// A forwarding loop with its history.
pub struct ForwardState {
    pub stream: StreamId,
    pub phase: ForwardPhase,
    /// All bytes read from the child, in the order read.
    pub consumed: Seq<u8>,
    /// All bytes written to the caller and flushed, in the order written.
    pub emitted: Seq<u8>,
}

/// A loop that has done nothing yet.
pub open spec fn initial(stream: StreamId) -> ForwardState {
    ForwardState {
        stream,
        phase: ForwardPhase::Reading,
        consumed: Seq::empty(),
        emitted: Seq::empty(),
    }
}

/// The loop after `event`. An event that does not answer the pending step
/// changes nothing.
pub open spec fn advance(state: ForwardState, event: ForwardEvent) -> ForwardState {
    match (state.phase, event) {
        (ForwardPhase::Reading, ForwardEvent::Chunk(bytes)) => if bytes@.len() == 0 {
            ForwardState { phase: ForwardPhase::Finished(None), ..state }
        } else {
            ForwardState {
                phase: ForwardPhase::Writing(bytes@),
                consumed: state.consumed + bytes@,
                ..state
            }
        },
        (ForwardPhase::Reading, ForwardEvent::ReadFailed) => ForwardState {
            phase: ForwardPhase::Finished(Some(StreamFault::Read)),
            ..state
        },
        (ForwardPhase::Writing(chunk), ForwardEvent::Written) => ForwardState {
            phase: ForwardPhase::Reading,
            emitted: state.emitted + chunk,
            ..state
        },
        (ForwardPhase::Writing(_), ForwardEvent::WriteFailed) => ForwardState {
            phase: ForwardPhase::Finished(Some(StreamFault::Write)),
            ..state
        },
        (ForwardPhase::Writing(_), ForwardEvent::FlushFailed) => ForwardState {
            phase: ForwardPhase::Finished(Some(StreamFault::Flush)),
            ..state
        },
        _ => state,
    }
}

/// The loop after each of `events` in turn.
pub open spec fn advance_all(state: ForwardState, events: Seq<ForwardEvent>) -> ForwardState
    decreases events.len(),
{
    if events.len() == 0 {
        state
    } else {
        advance(advance_all(state, events.drop_last()), events.last())
    }
}

/// What is written is what was read, in the same order: all of it while the
/// loop is between chunks or has ended cleanly, all but the chunk in hand
/// while it writes, and a leading part of it after a fault.
pub open spec fn in_order(state: ForwardState) -> bool {
    match state.phase {
        ForwardPhase::Reading => state.emitted == state.consumed,
        ForwardPhase::Writing(chunk) => chunk.len() > 0 && state.consumed == state.emitted + chunk,
        ForwardPhase::Finished(None) => state.emitted == state.consumed,
        ForwardPhase::Finished(Some(_)) => state.emitted.is_prefix_of(state.consumed),
    }
}

/// One event keeps the bytes in order.
pub proof fn lemma_advance_in_order(state: ForwardState, event: ForwardEvent)
    requires
        in_order(state),
    ensures
        in_order(advance(state, event)),
        advance(state, event).stream == state.stream,
        state.consumed.is_prefix_of(advance(state, event).consumed),
        state.emitted.is_prefix_of(advance(state, event).emitted),
{
    let next = advance(state, event);
    match (state.phase, event) {
        (ForwardPhase::Writing(chunk), ForwardEvent::Written) => {
            assert(state.emitted.is_prefix_of(state.emitted + chunk));
        },
        (ForwardPhase::Writing(chunk), _) => {
            assert(state.emitted.is_prefix_of(state.emitted + chunk));
        },
        (ForwardPhase::Reading, ForwardEvent::Chunk(bytes)) => {
            assert(state.consumed.is_prefix_of(state.consumed + bytes@));
        },
        _ => {},
    }
    assert(state.consumed.is_prefix_of(next.consumed));
    assert(state.emitted.is_prefix_of(next.emitted));
}

/// Whatever happens to a forwarding loop, the bytes that reach the caller are
/// the bytes that the child wrote, with none lost, added or reordered; and a
/// loop that has ended cleanly has delivered every byte that it read.
pub proof fn lemma_forwarding_preserves_bytes(stream: StreamId, events: Seq<ForwardEvent>)
    ensures
        in_order(advance_all(initial(stream), events)),
        advance_all(initial(stream), events).emitted.is_prefix_of(
            advance_all(initial(stream), events).consumed,
        ),
        advance_all(initial(stream), events).phase == ForwardPhase::Finished(None)
            ==> advance_all(initial(stream), events).emitted == advance_all(
            initial(stream),
            events,
        ).consumed,
    decreases events.len(),
{
    if events.len() > 0 {
        lemma_forwarding_preserves_bytes(stream, events.drop_last());
        lemma_advance_in_order(advance_all(initial(stream), events.drop_last()), events.last());
    }
    let end = advance_all(initial(stream), events);
    match end.phase {
        ForwardPhase::Writing(chunk) => {
            assert(end.emitted.is_prefix_of(end.emitted + chunk));
        },
        _ => {},
    }
}

/// The bytes of `chunks`, one chunk after the other.
pub open spec fn joined(chunks: Seq<Vec<u8>>) -> Seq<u8>
    decreases chunks.len(),
{
    if chunks.len() == 0 {
        Seq::empty()
    } else {
        joined(chunks.drop_last()) + chunks.last()@
    }
}

/// The loop after each of `chunks` was read and then written in turn.
pub open spec fn forwarded(state: ForwardState, chunks: Seq<Vec<u8>>) -> ForwardState
    decreases chunks.len(),
{
    if chunks.len() == 0 {
        state
    } else {
        advance(
            advance(forwarded(state, chunks.drop_last()), ForwardEvent::Chunk(chunks.last())),
            ForwardEvent::Written,
        )
    }
}

/// Whatever the child writes, in however many chunks it is read: once every
/// read has been followed by its write and the stream has ended, the caller
/// has received exactly the bytes that the child wrote, in the same order,
/// and the loop has ended cleanly.
pub proof fn lemma_every_byte_arrives_in_order(
    stream: StreamId,
    chunks: Seq<Vec<u8>>,
    end: Vec<u8>,
)
    requires
        forall|i: int| 0 <= i < chunks.len() ==> (#[trigger] chunks[i])@.len() > 0,
        end@.len() == 0,
    ensures
        forwarded(initial(stream), chunks).phase == ForwardPhase::Reading,
        forwarded(initial(stream), chunks).consumed == joined(chunks),
        forwarded(initial(stream), chunks).emitted == joined(chunks),
        advance(forwarded(initial(stream), chunks), ForwardEvent::Chunk(end)).phase
            == ForwardPhase::Finished(None),
        advance(forwarded(initial(stream), chunks), ForwardEvent::Chunk(end)).emitted == joined(
            chunks,
        ),
    decreases chunks.len(),
{
    if chunks.len() > 0 {
        lemma_every_byte_arrives_in_order(stream, chunks.drop_last(), end);
        assert(chunks.last()@.len() > 0);
    }
}

enum Phase {
    Reading,
    Writing(Vec<u8>),
    Finished(Option<StreamFault>),
}

/// The forwarding loop of one stream, one step at a time.
pub struct Forwarder {
    stream: StreamId,
    phase: Phase,
    consumed: Ghost<Seq<u8>>,
    emitted: Ghost<Seq<u8>>,
}

fn copy_bytes(bytes: &Vec<u8>) -> (out: Vec<u8>)
    ensures
        out@ == bytes@,
{
    let mut out: Vec<u8> = Vec::new();
    let mut i: usize = 0;
    while i < bytes.len()
        invariant
            i <= bytes.len(),
            out@ == bytes@.take(i as int),
        decreases bytes.len() - i,
    {
        out.push(bytes[i]);
        assert(out@ =~= bytes@.take(i + 1));
        i = i + 1;
    }
    assert(bytes@.take(bytes.len() as int) =~= bytes@);
    out
}

impl View for Forwarder {
    type V = ForwardState;

    closed spec fn view(&self) -> ForwardState {
        ForwardState {
            stream: self.stream,
            phase: match self.phase {
                Phase::Reading => ForwardPhase::Reading,
                Phase::Writing(chunk) => ForwardPhase::Writing(chunk@),
                Phase::Finished(fault) => ForwardPhase::Finished(fault),
            },
            consumed: self.consumed@,
            emitted: self.emitted@,
        }
    }
}

impl Forwarder {
    /// A forwarding loop for `stream` that has done nothing yet.
    pub fn new(stream: StreamId) -> (out: Forwarder)
        ensures
            out@ == initial(stream),
    {
        Forwarder {
            stream,
            phase: Phase::Reading,
            consumed: Ghost(Seq::empty()),
            emitted: Ghost(Seq::empty()),
        }
    }

    /// The stream that this loop forwards.
    pub fn stream(&self) -> (out: StreamId)
        ensures
            out == self@.stream,
    {
        self.stream
    }

    /// What the caller does next.
    pub fn step(&self) -> (out: ForwardStep)
        ensures
            match self@.phase {
                ForwardPhase::Reading => out matches ForwardStep::Read(n) && n == CHUNK_SIZE,
                ForwardPhase::Writing(chunk) => out matches ForwardStep::Write(bytes) && bytes@
                    == chunk,
                ForwardPhase::Finished(fault) => out matches ForwardStep::Finished(f) && f
                    == fault,
            },
    {
        match &self.phase {
            Phase::Reading => ForwardStep::Read(CHUNK_SIZE),
            Phase::Writing(chunk) => ForwardStep::Write(copy_bytes(chunk)),
            Phase::Finished(fault) => ForwardStep::Finished(*fault),
        }
    }

    /// Takes the result of the last step.
    pub fn on_event(self, event: ForwardEvent) -> (out: Forwarder)
        ensures
            out@ == advance(self@, event),
    {
        let Forwarder { stream, phase, consumed, emitted } = self;
        match (phase, event) {
            (Phase::Reading, ForwardEvent::Chunk(bytes)) => if bytes.len() == 0 {
                Forwarder { stream, phase: Phase::Finished(None), consumed, emitted }
            } else {
                let ghost read = consumed@ + bytes@;
                Forwarder { stream, phase: Phase::Writing(bytes), consumed: Ghost(read), emitted }
            },
            (Phase::Reading, ForwardEvent::ReadFailed) => Forwarder {
                stream,
                phase: Phase::Finished(Some(StreamFault::Read)),
                consumed,
                emitted,
            },
            (Phase::Writing(chunk), ForwardEvent::Written) => {
                let ghost written = emitted@ + chunk@;
                Forwarder { stream, phase: Phase::Reading, consumed, emitted: Ghost(written) }
            },
            (Phase::Writing(_), ForwardEvent::WriteFailed) => Forwarder {
                stream,
                phase: Phase::Finished(Some(StreamFault::Write)),
                consumed,
                emitted,
            },
            (Phase::Writing(_), ForwardEvent::FlushFailed) => Forwarder {
                stream,
                phase: Phase::Finished(Some(StreamFault::Flush)),
                consumed,
                emitted,
            },
            (phase, _) => Forwarder { stream, phase, consumed, emitted },
        }
    }

    /// The fault that ended the loop, as the error that is reported for it.
    pub fn error(&self) -> (out: Option<StreamIoError>)
        ensures
            out == match self@.phase {
                ForwardPhase::Finished(Some(fault)) => Some(
                    StreamIoError { stream: self@.stream, fault },
                ),
                _ => None,
            },
    {
        match &self.phase {
            Phase::Finished(Some(fault)) => Some(
                StreamIoError { stream: self.stream, fault: *fault },
            ),
            _ => None,
        }
    }
}

} // verus!
