//! The request/response driver: the state machine of one HTTP/1 exchange.
//!
//! The driver decides every step of an exchange — whether the `Expect`
//! declaration is admissible, what to await after the head goes out, whether
//! a `100 Continue` opens the body send, and how the exchange ends — while
//! the unverified shell performs the I/O each decision asks for. Events flow
//! in (head sent, a response head, the body finished, a disconnect) and the
//! next obligation flows out. The lease travels with the driver and leaves
//! it exactly once: surrendered before the driver returns when the response
//! carries no body, or handed whole to the payload stream when one does.

use vstd::prelude::*;
use crate::SendError;
use crate::body::BodySize;
use crate::conn::{H1Connection, PoolCommand};
use crate::headers::HeaderMap;
use crate::payload::{PlStream, PlState};
use crate::request::{RequestHeadType, spec_expect_name, expect_name_bytes};

verus! {

/// The status code an interim response must carry to open the body send.
pub const CONTINUE_STATUS: u16 = 100;

/// A response head: status code and header set, parsed once, immutable
/// afterwards.
pub struct ResponseHead {
    pub status: u16,
    pub headers: HeaderMap,
}

/// The codec's classification of what follows a response head.
#[derive(PartialEq, Eq, Structural, Clone, Copy, Debug)]
pub enum MessageKind {
    /// No body follows (204, 304, a HEAD response): the exchange ends at
    /// the head.
    NoPayload,
    /// A body of known length follows.
    Payload,
    /// A body of unknown length follows.
    Stream,
}

/// Where the driver stands.
#[derive(PartialEq, Eq, Structural, Clone, Copy, Debug)]
pub enum DriverState {
    /// The head (with the declared body size) is being framed and flushed.
    SendingHead,
    /// The head is out and the request declared `Expect`: an interim
    /// response must arrive before any body byte.
    ExpectWait,
    /// The body writer is running.
    SendingBody,
    /// Everything owed has been sent; the final response head is awaited.
    AwaitingResponse,
    /// A final response head is in hand; only the body-presence decision
    /// remains.
    ResponseReady,
}

/// What to do once the head has been flushed.
#[derive(PartialEq, Eq, Structural, Clone, Copy, Debug)]
pub enum AfterHead {
    /// `Expect` was declared: await the interim response; send nothing.
    AwaitInterim,
    /// Run the body writer.
    SendBody,
    /// The body is trivial: skip its transmission entirely and await the
    /// final response head.
    AwaitFinal,
}

/// What to do with the head received while awaiting the `Expect` interim
/// response.
#[derive(PartialEq, Eq, Structural, Clone, Copy, Debug)]
pub enum AfterInterim {
    /// It was `100 Continue`: run the body writer; a second head follows
    /// later.
    SendBody,
    /// Any other status: that head is the final response head and the body
    /// is never sent.
    UseAsFinal,
}

/// Whether declaring `Expect` over this body size violates the client's
/// obligations: an expectation makes no sense for a body that carries no
/// bytes.
pub open spec fn expect_violation(has_expect: bool, size: BodySize) -> bool {
    has_expect && size.is_trivial()
}

/// The step owed after the head is out.
pub open spec fn after_head_of(is_expect: bool, trivial: bool) -> AfterHead {
    if is_expect {
        AfterHead::AwaitInterim
    } else if trivial {
        AfterHead::AwaitFinal
    } else {
        AfterHead::SendBody
    }
}

/// Whether an interim status opens the body send.
pub open spec fn continue_accepted(status: u16) -> bool {
    status == CONTINUE_STATUS
}

/// The step owed after the interim response of the `Expect` negotiation.
pub open spec fn after_interim_of(status: u16) -> AfterInterim {
    if continue_accepted(status) {
        AfterInterim::SendBody
    } else {
        AfterInterim::UseAsFinal
    }
}

/// The immediate failure of a request that declared `Expect` with a
/// body that carries no bytes: the error to surface, and the one pool
/// command that hands the connection back (per keep-alive — the peer did
/// nothing wrong).
pub struct ExpectRejection<T> {
    pub error: SendError,
    pub pool: PoolCommand<T>,
}

/// How a successful exchange ends.
pub enum ExchangeOutcome<T> {
    /// The response carries no body: the head, and the pool command of the
    /// lease's one surrender, already decided before the driver returned.
    NoBody { head: ResponseHead, pool: PoolCommand<T> },
    /// The response carries a body: the head, and the payload stream that
    /// now owns the lease.
    Streaming { head: ResponseHead, stream: PlStream<T> },
}

/// The driver of one exchange.
pub struct SendDriver<T> {
    pub conn: H1Connection<T>,
    /// Whether the request declared `Expect` (with a non-trivial body;
    /// otherwise the exchange was refused at the start).
    pub is_expect: bool,
    pub body_size: BodySize,
    pub state: DriverState,
}

impl<T> SendDriver<T> {
    /// The driver owns a live lease, and a pending expectation implies a
    /// body that actually carries bytes.
    pub open spec fn wf(self) -> bool {
        &&& self.conn.held()
        &&& self.is_expect ==> !self.body_size.is_trivial()
    }

    /// Begin an exchange: check the `Expect` declaration against the
    /// declared body size. A violation fails at once, surrendering the
    /// lease per keep-alive; otherwise the driver is ready to send the
    /// head.
    pub fn start(
        head: &RequestHeadType,
        body_size: BodySize,
        conn: H1Connection<T>,
        keep_alive: bool,
    ) -> (r: Result<SendDriver<T>, ExpectRejection<T>>)
        requires
            conn.held(),
        ensures
            r is Err <==> expect_violation(
                head.base().headers.spec_contains(spec_expect_name()),
                body_size,
            ),
            r matches Err(rej) ==> rej.error == SendError::ExpectContractViolated && rej.pool
                == conn.surrender_command(keep_alive) && rej.pool != PoolCommand::<T>::Noop,
            r matches Ok(d) ==> d == (SendDriver {
                conn,
                is_expect: head.base().headers.spec_contains(spec_expect_name()),
                body_size,
                state: DriverState::SendingHead,
            }) && d.wf(),
    {
        let en = expect_name_bytes();
        let has_expect = head.base_has_header(en.as_slice());
        let mut conn = conn;
        if has_expect && body_size.trivial() {
            let pool = conn.on_release(keep_alive);
            Err(ExpectRejection { error: SendError::ExpectContractViolated, pool })
        } else {
            Ok(SendDriver { conn, is_expect: has_expect, body_size, state: DriverState::SendingHead })
        }
    }

    /// The head (and declared body size) has been framed and flushed:
    /// decide what is owed next. With `Expect` pending, that is always the
    /// interim response — never a body byte; without it, the body runs
    /// unless it is trivial, in which case its transmission is skipped
    /// entirely.
    pub fn on_head_sent(&mut self) -> (r: AfterHead)
        requires
            old(self).state == DriverState::SendingHead,
            old(self).wf(),
        ensures
            r == after_head_of(old(self).is_expect, old(self).body_size.is_trivial()),
            final(self).state == match r {
                AfterHead::AwaitInterim => DriverState::ExpectWait,
                AfterHead::SendBody => DriverState::SendingBody,
                AfterHead::AwaitFinal => DriverState::AwaitingResponse,
            },
            final(self).conn == old(self).conn,
            final(self).is_expect == old(self).is_expect,
            final(self).body_size == old(self).body_size,
            final(self).wf(),
    {
        if self.is_expect {
            self.state = DriverState::ExpectWait;
            AfterHead::AwaitInterim
        } else if self.body_size.trivial() {
            self.state = DriverState::AwaitingResponse;
            AfterHead::AwaitFinal
        } else {
            self.state = DriverState::SendingBody;
            AfterHead::SendBody
        }
    }

    /// The interim response head arrived while `Expect` was pending. Its
    /// status decides: `100 Continue` opens the body send (a second, final
    /// head follows later); anything else makes this very head the final
    /// one, with the body never sent.
    pub fn on_interim_head(&mut self, status: u16) -> (r: AfterInterim)
        requires
            old(self).state == DriverState::ExpectWait,
            old(self).wf(),
        ensures
            r == after_interim_of(status),
            r == AfterInterim::SendBody <==> continue_accepted(status),
            continue_accepted(status) ==> final(self).state == DriverState::SendingBody,
            !continue_accepted(status) ==> r == AfterInterim::UseAsFinal && final(self).state
                == DriverState::ResponseReady,
            final(self).conn == old(self).conn,
            final(self).is_expect == old(self).is_expect,
            final(self).body_size == old(self).body_size,
            final(self).wf(),
    {
        if status == CONTINUE_STATUS {
            self.state = DriverState::SendingBody;
            AfterInterim::SendBody
        } else {
            self.state = DriverState::ResponseReady;
            AfterInterim::UseAsFinal
        }
    }

    /// The body writer has finished (its final flush included): the final
    /// response head is owed next.
    pub fn on_body_sent(&mut self)
        requires
            old(self).state == DriverState::SendingBody,
            old(self).wf(),
        ensures
            *final(self) == (SendDriver { state: DriverState::AwaitingResponse, ..*old(self) }),
            final(self).wf(),
    {
        self.state = DriverState::AwaitingResponse;
    }

    /// A final response head is in hand: decide how the exchange ends from
    /// the codec's message kind. No body owed: the lease is surrendered per
    /// keep-alive here and now, exactly once, and the command is part of
    /// the outcome. A body owed: the still-held lease moves whole into the
    /// payload stream, untouched until that stream ends.
    pub fn finish(self, head: ResponseHead, msg: MessageKind, keep_alive: bool) -> (r:
        ExchangeOutcome<T>)
        requires
            self.state == DriverState::AwaitingResponse || self.state
                == DriverState::ResponseReady,
            self.wf(),
        ensures
            msg == MessageKind::NoPayload ==> r == (ExchangeOutcome::NoBody {
                head,
                pool: self.conn.surrender_command(keep_alive),
            }) && self.conn.surrender_command(keep_alive) != PoolCommand::<T>::Noop,
            msg != MessageKind::NoPayload ==> r == (ExchangeOutcome::Streaming {
                head,
                stream: PlStream { conn: self.conn, state: PlState::Active },
            }),
    {
        match msg {
            MessageKind::NoPayload => {
                let mut conn = self.conn;
                let pool = conn.on_release(keep_alive);
                ExchangeOutcome::NoBody { head, pool }
            },
            _ => {
                ExchangeOutcome::Streaming { head, stream: PlStream::new(self.conn) }
            },
        }
    }

    /// The peer closed before delivering a head it owed (the interim or the
    /// final one): a protocol disconnection. The exchange is over; the
    /// still-held lease goes back to its owner, whose fallback is to close
    /// it.
    pub fn on_disconnected(self) -> (r: (SendError, H1Connection<T>))
        requires
            self.state == DriverState::ExpectWait || self.state == DriverState::AwaitingResponse,
            self.wf(),
        ensures
            r.0 == SendError::Disconnected,
            r.1 == self.conn,
            r.1.held(),
    {
        (SendError::Disconnected, self.conn)
    }

    /// A transport write, read or flush failed: the exchange is over. The
    /// still-held lease goes back to its owner, whose fallback is to close
    /// it.
    pub fn on_io_failure(self) -> (r: (SendError, H1Connection<T>))
        requires
            self.wf(),
        ensures
            r.0 == SendError::TransportFailed,
            r.1 == self.conn,
            r.1.held(),
    {
        (SendError::TransportFailed, self.conn)
    }
}

/// Where the tunnel opener stands.
#[derive(PartialEq, Eq, Structural, Clone, Copy, Debug)]
pub enum TunnelState {
    /// The head is being framed and flushed, with no body declared.
    SendingHead,
    /// Exactly one response head is awaited.
    AwaitingResponse,
    /// The head has been returned; the still-framed connection belongs to
    /// the caller.
    Done,
}

/// The reduced driver of a CONNECT-style handshake: send the head with no
/// body framing, await exactly one response head, and leave the connection —
/// no lease, no release/close decision — entirely to the caller.
pub struct TunnelDriver {
    pub state: TunnelState,
}

impl TunnelDriver {
    /// Begin a handshake; the head must be framed with no body, so the
    /// declared size handed to the codec is `Absent`.
    pub fn start() -> (r: (TunnelDriver, BodySize))
        ensures
            r.0.state == TunnelState::SendingHead,
            r.1 == BodySize::Absent,
    {
        (TunnelDriver { state: TunnelState::SendingHead }, BodySize::Absent)
    }

    /// The head has been flushed: one response head is owed.
    pub fn on_head_sent(&mut self)
        requires
            old(self).state == TunnelState::SendingHead,
        ensures
            final(self).state == TunnelState::AwaitingResponse,
    {
        self.state = TunnelState::AwaitingResponse;
    }

    /// The one response head arrived: hand it back; the handshake is over
    /// and connection ownership passes whole to the caller.
    pub fn on_response(&mut self, head: ResponseHead) -> (r: ResponseHead)
        requires
            old(self).state == TunnelState::AwaitingResponse,
        ensures
            final(self).state == TunnelState::Done,
            r == head,
    {
        self.state = TunnelState::Done;
        head
    }

    /// The peer closed without answering the handshake.
    pub fn on_disconnected(self) -> (e: SendError)
        requires
            self.state == TunnelState::AwaitingResponse,
        ensures
            e == SendError::Disconnected,
    {
        SendError::Disconnected
    }
}

/// The lease discipline of an exchange that ends without a response body:
/// the surrender decided in `finish` carries the transport out (reuse path
/// exactly when keep-alive holds), and the lease it leaves behind is empty,
/// so no later step can surrender it a second time.
pub proof fn lemma_no_body_release_discipline<T>(d: SendDriver<T>, keep_alive: bool)
    requires
        d.wf(),
    ensures
        d.conn.surrender_command(keep_alive) != PoolCommand::<T>::Noop,
        keep_alive ==> d.conn.surrender_command(keep_alive) == PoolCommand::Release(
            d.conn.io->Some_0,
            d.conn.created,
        ),
        !keep_alive ==> d.conn.surrender_command(keep_alive) == PoolCommand::Close(
            d.conn.io->Some_0,
        ),
        !d.conn.surrendered().held(),
        d.conn.surrendered().surrender_command(keep_alive) == PoolCommand::<T>::Noop,
{
}

/// A declared expectation over a byteless body is refused for every such
/// size, and only for those: an exchange that starts has either no
/// expectation or a body with bytes to send.
pub proof fn lemma_expect_refusal_exact(has_expect: bool, size: BodySize)
    ensures
        expect_violation(has_expect, size) <==> (has_expect && (size == BodySize::Absent || size
            == BodySize::Empty || size == BodySize::Sized(0))),
{
}

/// With `Expect` declared, the step after the head is always to await the
/// interim response — never to send body bytes; the body send opens only on
/// a `100 Continue` status, and any other interim status ends the matter
/// with that head as the final one.
pub proof fn lemma_expect_defers_body(trivial: bool, status: u16)
    ensures
        after_head_of(true, trivial) == AfterHead::AwaitInterim,
        after_interim_of(status) == AfterInterim::SendBody <==> status == 100,
        status != 100 ==> after_interim_of(status) == AfterInterim::UseAsFinal,
{
}

/// Without `Expect`, a trivial body's transmission is skipped entirely: the
/// driver goes straight from the head to awaiting the final response.
pub proof fn lemma_trivial_body_skipped(size: BodySize)
    requires
        size.is_trivial(),
    ensures
        after_head_of(false, size.is_trivial()) == AfterHead::AwaitFinal,
{
}

} // verus!
