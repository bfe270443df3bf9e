//! The request body: its declared size classification, and the writer state
//! machine that drains a chunk producer into the framed connection under
//! write-buffer backpressure.
//!
//! The writer itself performs no I/O. The unverified shell reports the state
//! of the outbound buffer (full? empty?) and the producer's chunks; the
//! writer answers with the next step to take. Its contract is the
//! backpressure discipline: a new chunk is pulled only while the buffer is
//! below capacity, so unflushed body data never exceeds one buffer's worth,
//! however fast the producer runs.

use vstd::prelude::*;

verus! {

/// The declared size classification of a request body.
#[derive(PartialEq, Eq, Structural, Clone, Copy, Debug)]
pub enum BodySize {
    /// No body at all (also what a tunnel handshake declares).
    Absent,
    /// A body known to be empty.
    Empty,
    /// A body of exactly this many bytes.
    Sized(u64),
    /// A body of unknown length, sent chunked.
    Stream,
}

impl BodySize {
    /// Whether this classification carries no bytes: absent, empty, or of
    /// declared size zero. Such a body is never transmitted, and declaring
    /// `Expect` alongside it is a client contract violation.
    pub open spec fn is_trivial(self) -> bool {
        match self {
            BodySize::Absent => true,
            BodySize::Empty => true,
            BodySize::Sized(n) => n == 0,
            BodySize::Stream => false,
        }
    }

    /// Decide `is_trivial`.
    pub fn trivial(&self) -> (r: bool)
        ensures
            r == self.is_trivial(),
    {
        match self {
            BodySize::Absent => true,
            BodySize::Empty => true,
            BodySize::Sized(n) => *n == 0,
            BodySize::Stream => false,
        }
    }
}

/// The next step the body writer asks of the shell.
#[derive(PartialEq, Eq, Structural, Clone, Copy, Debug)]
pub enum WriteStep {
    /// Pull the next chunk from the producer (only ever asked while the
    /// outbound buffer is below capacity).
    PullChunk,
    /// The buffer holds data and no more may be pulled: flush it.
    Flush,
    /// End of data and an empty buffer: perform the final flush and return.
    FinalFlush,
}

/// The frame the shell must hand the codec for one producer result.
pub enum BodyFrame {
    /// A body chunk.
    Piece(Vec<u8>),
    /// The length-zero sentinel that terminates the body.
    EndOfBody,
}

/// The step the writer takes for a given end-of-data flag and buffer state.
pub open spec fn write_step_of(eof: bool, buf_full: bool, buf_empty: bool) -> WriteStep {
    if !eof && !buf_full {
        WriteStep::PullChunk
    } else if !buf_empty {
        WriteStep::Flush
    } else {
        WriteStep::FinalFlush
    }
}

/// The body writer: all it remembers is whether the producer has signalled
/// end-of-data.
pub struct BodyWriter {
    pub eof: bool,
}

impl BodyWriter {
    /// A writer that has not yet seen end-of-data.
    pub fn new() -> (w: BodyWriter)
        ensures
            !w.eof,
    {
        BodyWriter { eof: false }
    }

    /// The next step, given the outbound buffer's state. A full buffer
    /// cannot be empty.
    pub fn next_step(&self, buf_full: bool, buf_empty: bool) -> (r: WriteStep)
        requires
            buf_full ==> !buf_empty,
        ensures
            r == write_step_of(self.eof, buf_full, buf_empty),
            r == WriteStep::PullChunk ==> !buf_full,
            r == WriteStep::FinalFlush ==> self.eof && buf_empty,
    {
        if !self.eof && !buf_full {
            WriteStep::PullChunk
        } else if !buf_empty {
            WriteStep::Flush
        } else {
            WriteStep::FinalFlush
        }
    }

    /// Turn one producer result into the frame the codec gets: a present
    /// chunk becomes a body-chunk frame; an absent one becomes the
    /// end-of-body sentinel and marks end-of-data.
    pub fn on_chunk(&mut self, chunk: Option<Vec<u8>>) -> (r: BodyFrame)
        requires
            !old(self).eof,
        ensures
            chunk is Some ==> r == BodyFrame::Piece(chunk->Some_0) && !final(self).eof,
            chunk is None ==> r == BodyFrame::EndOfBody && final(self).eof,
    {
        match chunk {
            Some(data) => BodyFrame::Piece(data),
            None => {
                self.eof = true;
                BodyFrame::EndOfBody
            },
        }
    }

    /// While a flush is pending, whether the writer must keep waiting for
    /// it: only while the buffer is still at capacity. Once the transport
    /// has drained the buffer below capacity, chunk pulling resumes even if
    /// the flush as a whole has not completed.
    pub fn keep_waiting_for_flush(&self, buf_full: bool) -> (r: bool)
        ensures
            r == buf_full,
    {
        buf_full
    }
}

/// Backpressure: the writer asks for a new chunk only while the outbound
/// buffer is below capacity. Whatever the producer's speed, unflushed body
/// data is bounded by one buffer's worth plus the chunk in flight.
pub proof fn lemma_backpressure(eof: bool, buf_full: bool, buf_empty: bool)
    ensures
        write_step_of(eof, buf_full, buf_empty) == WriteStep::PullChunk ==> !buf_full,
        buf_full && !buf_empty ==> write_step_of(eof, buf_full, buf_empty) == WriteStep::Flush,
{
}

/// The writer terminates only after the end-of-body sentinel: the final
/// flush is asked for only once the producer has signalled end-of-data and
/// the buffer has fully drained.
pub proof fn lemma_final_flush_after_eof(eof: bool, buf_full: bool, buf_empty: bool)
    requires
        buf_full ==> !buf_empty,
    ensures
        write_step_of(eof, buf_full, buf_empty) == WriteStep::FinalFlush ==> eof && buf_empty,
{
}

} // verus!
