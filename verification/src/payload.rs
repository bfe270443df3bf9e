//! The response payload stream: a lazy, finite, non-restartable sequence of
//! body chunks over the leased connection.
//!
//! Once the driver has seen a body-bearing response head, it moves the lease
//! in here; the head-capable codec is downgraded to a body-only one by the
//! unverified shell. Each frame the shell decodes is reported as a
//! [`FrameEvent`]; the stream answers with what the consumer gets and, at
//! end-of-sequence, with the one pool command that surrenders the lease.

use vstd::prelude::*;
use crate::conn::{H1Connection, PoolCommand};
use crate::PayloadError;

verus! {

/// One decoded result of the body-only codec, as the shell reports it.
pub enum FrameEvent {
    /// A body chunk.
    Chunk(Vec<u8>),
    /// The frame that ends the payload: the message is complete.
    Eof,
    /// The transport closed before an end-of-payload frame.
    Closed,
    /// The codec could not parse a frame.
    DecodeFailed,
    /// A transport read failed.
    IoFailed,
}

/// Where the stream stands.
#[derive(PartialEq, Eq, Structural, Clone, Copy, Debug)]
pub enum PlState {
    /// Chunks may still follow.
    Active,
    /// The sequence has ended; no further pull is allowed.
    Ended,
    /// A terminal payload error was surfaced; no further pull is allowed.
    Errored,
}

/// What one pull hands the consumer.
pub enum PullResult<T> {
    /// A chunk; the sequence continues.
    Yielded(Vec<u8>),
    /// End of sequence; perform this pool command (the lease's one
    /// surrender, following the keep-alive flag).
    Finished(PoolCommand<T>),
    /// End of sequence with the transport already closed; the lease is left
    /// untouched for its owner's fallback close.
    Ended,
    /// A terminal payload error; the lease is left untouched and must not
    /// be returned to the pool as reusable.
    Failed(PayloadError),
}

/// The payload stream: the lease it took over, and where it stands.
pub struct PlStream<T> {
    pub conn: H1Connection<T>,
    pub state: PlState,
}

/// The stream and pull result one frame event produces.
pub open spec fn spec_on_frame<T>(
    s: PlStream<T>,
    ev: FrameEvent,
    keep_alive: bool,
) -> (PlStream<T>, PullResult<T>) {
    match ev {
        FrameEvent::Chunk(data) => (s, PullResult::Yielded(data)),
        FrameEvent::Eof => (
            PlStream { conn: s.conn.surrendered(), state: PlState::Ended },
            PullResult::Finished(s.conn.surrender_command(keep_alive)),
        ),
        FrameEvent::Closed => (
            PlStream { conn: s.conn, state: PlState::Ended },
            PullResult::Ended,
        ),
        FrameEvent::DecodeFailed => (
            PlStream { conn: s.conn, state: PlState::Errored },
            PullResult::Failed(PayloadError::DecodeFailed),
        ),
        FrameEvent::IoFailed => (
            PlStream { conn: s.conn, state: PlState::Errored },
            PullResult::Failed(PayloadError::TransportFailed),
        ),
    }
}

impl<T> PlStream<T> {
    /// While the sequence is still running it owns the transport.
    pub open spec fn wf(self) -> bool {
        self.state == PlState::Active ==> self.conn.held()
    }

    /// Take over a still-held lease; the one-time hand-off from the driver.
    pub fn new(conn: H1Connection<T>) -> (s: PlStream<T>)
        requires
            conn.held(),
        ensures
            s.conn == conn,
            s.state == PlState::Active,
            s.wf(),
    {
        PlStream { conn, state: PlState::Active }
    }

    /// Account one decoded frame: yield a chunk, end the sequence (the one
    /// point at which the lease is surrendered, per keep-alive), or surface
    /// a terminal error leaving the lease untouched.
    pub fn on_frame(&mut self, ev: FrameEvent, keep_alive: bool) -> (r: PullResult<T>)
        requires
            old(self).state == PlState::Active,
            old(self).wf(),
        ensures
            *final(self) == spec_on_frame(*old(self), ev, keep_alive).0,
            r == spec_on_frame(*old(self), ev, keep_alive).1,
            final(self).wf(),
    {
        match ev {
            FrameEvent::Chunk(data) => PullResult::Yielded(data),
            FrameEvent::Eof => {
                let cmd = self.conn.on_release(keep_alive);
                self.state = PlState::Ended;
                PullResult::Finished(cmd)
            },
            FrameEvent::Closed => {
                self.state = PlState::Ended;
                PullResult::Ended
            },
            FrameEvent::DecodeFailed => {
                self.state = PlState::Errored;
                PullResult::Failed(PayloadError::DecodeFailed)
            },
            FrameEvent::IoFailed => {
                self.state = PlState::Errored;
                PullResult::Failed(PayloadError::TransportFailed)
            },
        }
    }
}

/// Release discipline of a body-bearing exchange: while chunks flow, the
/// lease is untouched; the sequence's end is the one point that surrenders
/// it, per keep-alive, and afterwards the lease is empty so no second
/// surrender can hand the transport out again.
pub proof fn lemma_stream_release_discipline<T>(s: PlStream<T>, ev: FrameEvent, keep_alive: bool)
    requires
        s.state == PlState::Active,
        s.conn.held(),
    ensures
        !(ev is Eof) ==> spec_on_frame(s, ev, keep_alive).0.conn == s.conn,
        ev is Eof ==> spec_on_frame(s, ev, keep_alive).1 == PullResult::Finished(
            s.conn.surrender_command(keep_alive),
        ) && s.conn.surrender_command(keep_alive) != PoolCommand::<T>::Noop
            && !spec_on_frame(s, ev, keep_alive).0.conn.held(),
{
}

/// The stream after consuming a whole run of frame events, in order; a
/// stream that is no longer active consumes nothing further.
pub open spec fn run_frames<T>(s: PlStream<T>, evs: Seq<FrameEvent>, keep_alive: bool) -> PlStream<
    T,
>
    decreases evs.len(),
{
    if evs.len() == 0 {
        s
    } else if s.state != PlState::Active {
        s
    } else {
        run_frames(spec_on_frame(s, evs[0], keep_alive).0, evs.drop_first(), keep_alive)
    }
}

/// Over any whole run of frame events, the lease is surrendered at most
/// once — the connection either stays exactly as it was or has been emptied
/// by its one surrender — and a surrender happens only when the stream has
/// reached its end, never while chunks still flow and never on an error.
pub proof fn lemma_run_surrenders_at_most_once<T>(
    s: PlStream<T>,
    evs: Seq<FrameEvent>,
    keep_alive: bool,
)
    requires
        s.wf(),
    ensures
        run_frames(s, evs, keep_alive).conn == s.conn || run_frames(s, evs, keep_alive).conn
            == s.conn.surrendered(),
        s.conn.held() && run_frames(s, evs, keep_alive).conn == s.conn.surrendered()
            ==> run_frames(s, evs, keep_alive).state == PlState::Ended,
    decreases evs.len(),
{
    if evs.len() == 0 || s.state != PlState::Active {
    } else {
        let stepped = spec_on_frame(s, evs[0], keep_alive).0;
        assert(stepped.wf());
        lemma_run_surrenders_at_most_once(stepped, evs.drop_first(), keep_alive);
    }
}

/// A decode failure is terminal and never returns the connection to the
/// pool as reusable: the consumer sees the payload error, the stream is
/// marked errored, and the lease is left exactly as it was, for its owner's
/// fallback close.
pub proof fn lemma_decode_failure_keeps_lease<T>(s: PlStream<T>, keep_alive: bool)
    requires
        s.state == PlState::Active,
        s.conn.held(),
    ensures
        spec_on_frame(s, FrameEvent::DecodeFailed, keep_alive).1 == PullResult::<T>::Failed(
            PayloadError::DecodeFailed,
        ),
        spec_on_frame(s, FrameEvent::DecodeFailed, keep_alive).0.conn == s.conn,
        spec_on_frame(s, FrameEvent::DecodeFailed, keep_alive).0.state == PlState::Errored,
{
}

} // verus!
