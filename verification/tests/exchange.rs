use h1_exchange::body::{BodyFrame, BodySize, BodyWriter, WriteStep};
use h1_exchange::conn::{H1Connection, PoolCommand};
use h1_exchange::driver::{
    AfterHead, AfterInterim, ExchangeOutcome, MessageKind, ResponseHead, SendDriver, TunnelDriver,
};
use h1_exchange::headers::HeaderMap;
use h1_exchange::payload::{FrameEvent, PullResult};
use h1_exchange::request::{RequestHead, RequestHeadType};
use h1_exchange::{PayloadError, SendError};

fn plain_head() -> RequestHeadType {
    RequestHeadType::Owned(RequestHead {
        headers: HeaderMap::new(),
        uri_host: Some(b"example.com".to_vec()),
        uri_port: None,
    })
}

fn expect_head() -> RequestHeadType {
    let mut headers = HeaderMap::new();
    headers.insert(b"expect".to_vec(), b"100-continue".to_vec());
    RequestHeadType::Owned(RequestHead {
        headers,
        uri_host: Some(b"example.com".to_vec()),
        uri_port: None,
    })
}

fn response(status: u16) -> ResponseHead {
    ResponseHead { status, headers: HeaderMap::new() }
}

#[test]
fn full_exchange_with_streaming_response() {
    let conn: H1Connection<u32> = H1Connection::new(7, 5);
    let mut d = SendDriver::start(&plain_head(), BodySize::Sized(3), conn, true).ok().unwrap();
    assert_eq!(d.on_head_sent(), AfterHead::SendBody);

    // the body writer drives two chunks and the sentinel through
    let mut w = BodyWriter::new();
    assert_eq!(w.next_step(false, true), WriteStep::PullChunk);
    assert!(matches!(w.on_chunk(Some(b"abc".to_vec())), BodyFrame::Piece(v) if v == b"abc".to_vec()));
    assert_eq!(w.next_step(false, false), WriteStep::PullChunk);
    assert!(matches!(w.on_chunk(None), BodyFrame::EndOfBody));
    assert_eq!(w.next_step(false, false), WriteStep::Flush);
    assert_eq!(w.next_step(false, true), WriteStep::FinalFlush);

    d.on_body_sent();
    let outcome = d.finish(response(200), MessageKind::Stream, true);
    let mut stream = match outcome {
        ExchangeOutcome::Streaming { head, stream } => {
            assert_eq!(head.status, 200);
            stream
        }
        _ => panic!("expected a streaming outcome"),
    };

    // no release while chunks flow; exactly one release at end-of-sequence
    assert!(matches!(
        stream.on_frame(FrameEvent::Chunk(b"xy".to_vec()), true),
        PullResult::Yielded(v) if v == b"xy".to_vec()
    ));
    assert!(stream.conn.is_held());
    assert!(matches!(
        stream.on_frame(FrameEvent::Eof, true),
        PullResult::Finished(PoolCommand::Release(7, 5))
    ));
    assert!(!stream.conn.is_held());
}

#[test]
fn trivial_body_skips_transmission() {
    // declared size zero, no expectation: the body step is skipped entirely
    let conn: H1Connection<u32> = H1Connection::new(7, 5);
    let mut d = SendDriver::start(&plain_head(), BodySize::Sized(0), conn, true).ok().unwrap();
    assert_eq!(d.on_head_sent(), AfterHead::AwaitFinal);
    let outcome = d.finish(response(204), MessageKind::NoPayload, true);
    match outcome {
        ExchangeOutcome::NoBody { head, pool } => {
            assert_eq!(head.status, 204);
            assert!(matches!(pool, PoolCommand::Release(7, 5)));
        }
        _ => panic!("expected a no-body outcome"),
    }
}

#[test]
fn no_body_response_closes_without_keep_alive() {
    let conn: H1Connection<u32> = H1Connection::new(8, 5);
    let mut d = SendDriver::start(&plain_head(), BodySize::Empty, conn, true).ok().unwrap();
    assert_eq!(d.on_head_sent(), AfterHead::AwaitFinal);
    let outcome = d.finish(response(304), MessageKind::NoPayload, false);
    match outcome {
        ExchangeOutcome::NoBody { pool, .. } => {
            assert!(matches!(pool, PoolCommand::Close(8)));
        }
        _ => panic!("expected a no-body outcome"),
    }
}

#[test]
fn expect_with_empty_body_is_refused() {
    for size in [BodySize::Absent, BodySize::Empty, BodySize::Sized(0)] {
        let conn: H1Connection<u32> = H1Connection::new(7, 5);
        let rej = match SendDriver::start(&expect_head(), size, conn, true) {
            Err(rej) => rej,
            Ok(_) => panic!("an expectation over a byteless body must be refused"),
        };
        assert_eq!(rej.error, SendError::ExpectContractViolated);
        // the peer did nothing wrong: released per keep-alive, not closed
        assert!(matches!(rej.pool, PoolCommand::Release(7, 5)));
    }
}

#[test]
fn expect_refusal_closes_without_keep_alive() {
    let conn: H1Connection<u32> = H1Connection::new(7, 5);
    let rej = SendDriver::start(&expect_head(), BodySize::Empty, conn, false).err().unwrap();
    assert_eq!(rej.error, SendError::ExpectContractViolated);
    assert!(matches!(rej.pool, PoolCommand::Close(7)));
}

#[test]
fn expect_continue_defers_then_sends_body() {
    let conn: H1Connection<u32> = H1Connection::new(7, 5);
    let mut d = SendDriver::start(&expect_head(), BodySize::Stream, conn, true).ok().unwrap();
    // no body byte may go out before the interim head
    assert_eq!(d.on_head_sent(), AfterHead::AwaitInterim);
    assert_eq!(d.on_interim_head(100), AfterInterim::SendBody);
    d.on_body_sent();
    let outcome = d.finish(response(200), MessageKind::Payload, true);
    assert!(matches!(outcome, ExchangeOutcome::Streaming { .. }));
}

#[test]
fn expect_rejected_uses_interim_head_as_final() {
    let conn: H1Connection<u32> = H1Connection::new(7, 5);
    let mut d = SendDriver::start(&expect_head(), BodySize::Stream, conn, true).ok().unwrap();
    assert_eq!(d.on_head_sent(), AfterHead::AwaitInterim);
    // any status but 100: that head is final, the body is never sent
    assert_eq!(d.on_interim_head(417), AfterInterim::UseAsFinal);
    let outcome = d.finish(response(417), MessageKind::NoPayload, true);
    match outcome {
        ExchangeOutcome::NoBody { head, pool } => {
            assert_eq!(head.status, 417);
            assert!(matches!(pool, PoolCommand::Release(7, 5)));
        }
        _ => panic!("expected a no-body outcome"),
    }
}

#[test]
fn expect_check_reads_base_head_only() {
    // an Expect header that sits only on the overlay does not arm the
    // negotiation: the declaration is read off the base head
    let base = std::rc::Rc::new(RequestHead {
        headers: HeaderMap::new(),
        uri_host: Some(b"example.com".to_vec()),
        uri_port: None,
    });
    let mut extra = HeaderMap::new();
    extra.insert(b"expect".to_vec(), b"100-continue".to_vec());
    let head = RequestHeadType::Shared(base, Some(extra));
    let conn: H1Connection<u32> = H1Connection::new(7, 5);
    let mut d = SendDriver::start(&head, BodySize::Empty, conn, true).ok().unwrap();
    assert_eq!(d.on_head_sent(), AfterHead::AwaitFinal);
}

#[test]
fn disconnection_surfaces_and_hands_lease_back() {
    let conn: H1Connection<u32> = H1Connection::new(7, 5);
    let mut d = SendDriver::start(&plain_head(), BodySize::Empty, conn, true).ok().unwrap();
    assert_eq!(d.on_head_sent(), AfterHead::AwaitFinal);
    let (err, conn) = d.on_disconnected();
    assert_eq!(err, SendError::Disconnected);
    assert!(conn.is_held());
}

#[test]
fn io_failure_surfaces_and_hands_lease_back() {
    let conn: H1Connection<u32> = H1Connection::new(7, 5);
    let d = SendDriver::start(&plain_head(), BodySize::Stream, conn, true).ok().unwrap();
    let (err, conn) = d.on_io_failure();
    assert_eq!(err, SendError::TransportFailed);
    assert!(conn.is_held());
}

#[test]
fn decode_failure_is_terminal_and_keeps_lease() {
    let conn: H1Connection<u32> = H1Connection::new(7, 5);
    let mut d = SendDriver::start(&plain_head(), BodySize::Empty, conn, true).ok().unwrap();
    assert_eq!(d.on_head_sent(), AfterHead::AwaitFinal);
    let mut stream = match d.finish(response(200), MessageKind::Stream, true) {
        ExchangeOutcome::Streaming { stream, .. } => stream,
        _ => panic!("expected a streaming outcome"),
    };
    assert!(matches!(
        stream.on_frame(FrameEvent::DecodeFailed, true),
        PullResult::Failed(PayloadError::DecodeFailed)
    ));
    // the connection is not handed back to the pool, reusable or otherwise
    assert!(stream.conn.is_held());
}

#[test]
fn transport_close_ends_stream_without_release() {
    let conn: H1Connection<u32> = H1Connection::new(7, 5);
    let mut d = SendDriver::start(&plain_head(), BodySize::Empty, conn, true).ok().unwrap();
    assert_eq!(d.on_head_sent(), AfterHead::AwaitFinal);
    let mut stream = match d.finish(response(200), MessageKind::Stream, true) {
        ExchangeOutcome::Streaming { stream, .. } => stream,
        _ => panic!("expected a streaming outcome"),
    };
    assert!(matches!(stream.on_frame(FrameEvent::Closed, true), PullResult::Ended));
    assert!(stream.conn.is_held());
}

#[test]
fn stream_io_failure_is_terminal() {
    let conn: H1Connection<u32> = H1Connection::new(7, 5);
    let mut d = SendDriver::start(&plain_head(), BodySize::Empty, conn, true).ok().unwrap();
    assert_eq!(d.on_head_sent(), AfterHead::AwaitFinal);
    let mut stream = match d.finish(response(200), MessageKind::Payload, true) {
        ExchangeOutcome::Streaming { stream, .. } => stream,
        _ => panic!("expected a streaming outcome"),
    };
    assert!(matches!(
        stream.on_frame(FrameEvent::IoFailed, true),
        PullResult::Failed(PayloadError::TransportFailed)
    ));
    assert!(stream.conn.is_held());
}

#[test]
fn body_writer_backpressure() {
    let w = BodyWriter::new();
    // a full buffer is never the moment to pull another chunk
    assert_eq!(w.next_step(true, false), WriteStep::Flush);
    assert_eq!(w.next_step(false, true), WriteStep::PullChunk);
    assert_eq!(w.next_step(false, false), WriteStep::PullChunk);
    // the flush wait ends as soon as the buffer is below capacity
    assert!(w.keep_waiting_for_flush(true));
    assert!(!w.keep_waiting_for_flush(false));
}

#[test]
fn tunnel_returns_head_and_makes_no_lease_decision() {
    let (mut t, size) = TunnelDriver::start();
    assert_eq!(size, BodySize::Absent);
    t.on_head_sent();
    let head = t.on_response(response(200));
    assert_eq!(head.status, 200);
}

#[test]
fn tunnel_disconnection() {
    let (mut t, _) = TunnelDriver::start();
    t.on_head_sent();
    let e = t.on_disconnected();
    assert_eq!(e, SendError::Disconnected);
}
