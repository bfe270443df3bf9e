//! Core of an HTTP/1.x client exchange over a single pooled connection.
//!
//! The crate holds the decision logic of one request/response round trip:
//! Host-header synthesis, the `Expect: 100-continue` negotiation, body
//! transmission with write-buffer backpressure, the transition into streaming
//! the response payload, and the release-vs-close protocol that hands the
//! connection back to its pool. All of it is written over plain values and
//! verified; the surrounding asynchronous I/O (the transport, the wire codec,
//! the pool itself) is driven by an unverified shell that consults these state
//! machines at every decision point.

use vstd::prelude::*;

pub mod conn;
pub mod headers;
pub mod request;
pub mod body;
pub mod payload;
pub mod driver;

verus! {

/// A failure of the request-sending half of an exchange.
#[derive(PartialEq, Eq, Structural, Clone, Copy, Debug)]
pub enum SendError {
    /// The peer closed the connection before delivering an expected
    /// response head.
    Disconnected,
    /// The request declared `Expect` but its body is absent, empty or of
    /// declared size zero: a client-side contract violation, refused before
    /// anything beyond the head goes out.
    ExpectContractViolated,
    /// A transport read, write or flush failed.
    TransportFailed,
}

/// A terminal failure of the response-payload stream.
#[derive(PartialEq, Eq, Structural, Clone, Copy, Debug)]
pub enum PayloadError {
    /// The codec could not parse a response frame.
    DecodeFailed,
    /// A transport read failed while the payload was being streamed.
    TransportFailed,
}

} // verus!
