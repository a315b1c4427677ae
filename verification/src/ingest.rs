//! Draining a request body: the bytes received so far and the decision taken
//! on each event of the transport.
//!
//! The caller reads the transport and reports each event to [`Ingest::step`],
//! which says whether to read on, to respond, or to give up. The whole body is
//! kept in memory, in a `bytes::BytesMut`; a body may hold at most
//! [`body_limit`] bytes.

use bytes::BytesMut;
use vstd::prelude::*;

verus! {

/// `bytes::BytesMut`, a growable buffer of bytes.
#[verifier::external_type_specification]
#[verifier::external_body]
pub struct ExBytesMut(bytes::BytesMut);

/// The bytes that a buffer holds, first to last: what `&buffer[..]` shows.
pub uninterp spec fn bytes_held(buffer: BytesMut) -> Seq<u8>;

/// `BytesMut::new` gives a buffer of length 0.
pub assume_specification[ BytesMut::new ]() -> (buffer: BytesMut)
    ensures
        bytes_held(buffer) == Seq::<u8>::empty(),
;

/// `BytesMut::len` is the number of bytes that the buffer holds.
pub assume_specification[ BytesMut::len ](buffer: &BytesMut) -> (n: usize)
    ensures
        n == bytes_held(*buffer).len(),
;

/// `BytesMut::extend_from_slice` appends the bytes of `extend` behind those
/// that the buffer holds, growing the buffer where it must. Growing may double
/// the capacity, and a capacity above `isize::MAX` makes the allocation panic:
/// the precondition keeps the new length at a quarter of `usize::MAX`, and so
/// twice any capacity that had to grow under that bound.
pub assume_specification[ BytesMut::extend_from_slice ](buffer: &mut BytesMut, extend: &[u8])
    requires
        bytes_held(*old(buffer)).len() + extend@.len() <= usize::MAX / 4,
    ensures
        bytes_held(*final(buffer)) == bytes_held(*old(buffer)) + extend@,
;

/// Copies out what the buffer holds: `BytesMut` dereferences to the slice of
/// its bytes, of which `to_vec` makes a vector.
#[verifier::external_body]
fn buffer_to_vec(buffer: &BytesMut) -> (bytes: Vec<u8>)
    ensures
        bytes@ == bytes_held(*buffer),
{
    buffer.to_vec()
}

/// The most bytes that one body may hold: a quarter of `usize::MAX`, so that
/// the buffer can always grow to take them.
pub open spec fn body_limit() -> int {
    usize::MAX as int / 4
}

/// What the transport reports while a body is read.
pub enum BodyEvent {
    /// The next piece of the body.
    Chunk(Vec<u8>),
    /// The body has ended.
    End,
    /// The transport failed before the body ended.
    Failed,
}

/// How far the draining of a body has come.
#[derive(Clone, Copy, Debug, PartialEq, Eq, Structural)]
pub enum Phase {
    /// More of the body may follow.
    Reading,
    /// The whole body has been received.
    Complete,
    /// The body could not be read to its end.
    Broken,
}

/// What the caller does after an event.
#[derive(Clone, Copy, Debug, PartialEq, Eq, Structural)]
pub enum Action {
    /// Read the next event from the transport.
    ReadOn,
    /// The body is complete: answer the request.
    Respond,
    /// The body is lost: report a transport failure, not a response.
    GiveUp,
}

/// The phase that follows `phase` on an event, with `held` bytes received
/// before it. A chunk that would take the body over the limit breaks it.
pub open spec fn next_phase(phase: Phase, held: nat, event: BodyEvent) -> Phase {
    match phase {
        Phase::Reading => match event {
            BodyEvent::Chunk(chunk) => if held + chunk@.len() <= body_limit() {
                Phase::Reading
            } else {
                Phase::Broken
            },
            BodyEvent::End => Phase::Complete,
            BodyEvent::Failed => Phase::Broken,
        },
        Phase::Complete => Phase::Complete,
        Phase::Broken => Phase::Broken,
    }
}

/// The bytes held after an event: a chunk is appended while the body is being
/// read and the limit allows it; nothing else changes them.
pub open spec fn next_bytes(phase: Phase, held: Seq<u8>, event: BodyEvent) -> Seq<u8> {
    match (phase, event) {
        (Phase::Reading, BodyEvent::Chunk(chunk)) => if held.len() + chunk@.len() <= body_limit() {
            held + chunk@
        } else {
            held
        },
        _ => held,
    }
}

/// What the caller is told to do in a phase.
pub open spec fn action_in(phase: Phase) -> Action {
    match phase {
        Phase::Reading => Action::ReadOn,
        Phase::Complete => Action::Respond,
        Phase::Broken => Action::GiveUp,
    }
}

/// Why a body cannot be answered for.
#[derive(Clone, Copy, Debug, PartialEq, Eq, Structural)]
pub enum IngestError {
    /// The body has not been read to its end yet.
    Unfinished,
    /// The transport failed, or the body went over the limit.
    Broken,
}

/// Whether a body in `phase` has been received whole, and if not, why.
pub open spec fn drained(phase: Phase) -> Result<(), IngestError> {
    match phase {
        Phase::Reading => Err(IngestError::Unfinished),
        Phase::Complete => Ok(()),
        Phase::Broken => Err(IngestError::Broken),
    }
}

/// A request body while it is drained.
pub struct Ingest {
    buffer: BytesMut,
    phase: Phase,
}

impl Ingest {
    /// The bytes received so far.
    pub closed spec fn bytes(&self) -> Seq<u8> {
        bytes_held(self.buffer)
    }

    /// How far the draining has come.
    pub closed spec fn phase(&self) -> Phase {
        self.phase
    }

    /// A body of which nothing has been received yet.
    pub fn new() -> (ingest: Ingest)
        ensures
            ingest.bytes() == Seq::<u8>::empty(),
            ingest.phase() == Phase::Reading,
    {
        Ingest { buffer: BytesMut::new(), phase: Phase::Reading }
    }

    /// Takes one event of the transport and says what to do next.
    pub fn step(&mut self, event: &BodyEvent) -> (action: Action)
        ensures
            final(self).phase() == next_phase(old(self).phase(), old(self).bytes().len(), *event),
            final(self).bytes() == next_bytes(old(self).phase(), old(self).bytes(), *event),
            action == action_in(final(self).phase()),
    {
        match self.phase {
            Phase::Reading => match event {
                BodyEvent::Chunk(chunk) => {
                    let limit: usize = usize::MAX / 4;
                    let held: usize = self.buffer.len();
                    if held <= limit && chunk.len() <= limit - held {
                        self.buffer.extend_from_slice(chunk.as_slice());
                        Action::ReadOn
                    } else {
                        self.phase = Phase::Broken;
                        Action::GiveUp
                    }
                },
                BodyEvent::End => {
                    self.phase = Phase::Complete;
                    Action::Respond
                },
                BodyEvent::Failed => {
                    self.phase = Phase::Broken;
                    Action::GiveUp
                },
            },
            Phase::Complete => Action::Respond,
            Phase::Broken => Action::GiveUp,
        }
    }

    /// Whether the whole body has been received, and if not, why.
    pub fn check_drained(&self) -> (outcome: Result<(), IngestError>)
        ensures
            outcome == drained(self.phase()),
    {
        match self.phase {
            Phase::Reading => Err(IngestError::Unfinished),
            Phase::Complete => Ok(()),
            Phase::Broken => Err(IngestError::Broken),
        }
    }

    /// How far the draining has come.
    pub fn current_phase(&self) -> (phase: Phase)
        ensures
            phase == self.phase(),
    {
        self.phase
    }

    /// The number of bytes received so far.
    pub fn len(&self) -> (n: usize)
        ensures
            n == self.bytes().len(),
    {
        self.buffer.len()
    }

    /// A copy of the bytes received so far.
    pub fn to_vec(&self) -> (bytes: Vec<u8>)
        ensures
            bytes@ == self.bytes(),
    {
        buffer_to_vec(&self.buffer)
    }
}

} // verus!
