use sparx::request::{BodyItem, RequestHandle, RequestMetadata, ResponseMessage};
use sparx::response::NifResult;
use sparx::server::{
    body_pump_step, error_response, BodyFrameEvent, EnqueueResult, QueuedRequest, ReceiveResult,
    ServerHandle,
};

fn meta(path: &str) -> RequestMetadata {
    RequestMetadata {
        method: "GET".to_string(),
        path: path.to_string(),
        query: None,
        version: "HTTP/1.1".to_string(),
        headers: Vec::new(),
    }
}

#[test]
fn fresh_handle_is_fully_open() {
    let h = RequestHandle::new(meta("/"));
    assert!(h.body_open);
    assert!(h.sink_open);
    assert!(h.upgrade_open);
    assert!(h.outgoing.is_empty());
}

#[test]
fn send_ops_append_parts_in_order() {
    let mut h = RequestHandle::new(meta("/"));
    assert_eq!(h.send_status(200), NifResult::Success);
    assert_eq!(h.send_header("a".to_string(), "b".to_string()), NifResult::Success);
    assert_eq!(h.write_chunk(vec![1]), NifResult::Success);
    assert_eq!(h.finish(), NifResult::Success);
    let parts = h.take_outgoing();
    assert_eq!(
        parts,
        vec![
            ResponseMessage::Status(200),
            ResponseMessage::Header("a".to_string(), "b".to_string()),
            ResponseMessage::BodyChunk(vec![1]),
            ResponseMessage::Finish,
        ]
    );
    assert!(h.outgoing.is_empty());
}

#[test]
fn no_part_is_accepted_after_finish() {
    let mut h = RequestHandle::new(meta("/"));
    assert_eq!(h.finish(), NifResult::Success);
    assert_eq!(
        h.send_status(200),
        NifResult::Error("Response already sent".to_string())
    );
    assert_eq!(
        h.send_header("a".to_string(), "b".to_string()),
        NifResult::Error("Response already sent".to_string())
    );
    assert_eq!(
        h.write_chunk(vec![1]),
        NifResult::Error("Response already sent".to_string())
    );
    assert_eq!(h.finish(), NifResult::Error("Response already sent".to_string()));
    assert_eq!(h.take_outgoing(), vec![ResponseMessage::Finish]);
}

#[test]
fn body_reads_pass_chunks_then_explicit_eof() {
    let mut h = RequestHandle::new(meta("/"));
    let r1 = h.read_body_chunk(Some(BodyItem::Chunk(vec![7, 8])));
    assert_eq!(r1, Ok(Some(vec![7, 8])));
    let r2 = h.read_body_chunk(Some(BodyItem::Chunk(Vec::new())));
    assert_eq!(r2, Ok(None));
}

#[test]
fn second_full_body_consumption_is_a_contract_violation() {
    let mut h = RequestHandle::new(meta("/"));
    assert_eq!(h.read_body_chunk(Some(BodyItem::Chunk(Vec::new()))), Ok(None));
    assert_eq!(
        h.read_body_chunk(Some(BodyItem::Chunk(vec![1]))),
        Err("Body stream already consumed".to_string())
    );
}

#[test]
fn body_read_error_is_surfaced_and_ends_the_stream() {
    let mut h = RequestHandle::new(meta("/"));
    let r = h.read_body_chunk(Some(BodyItem::Failed("Body read error: reset".to_string())));
    assert_eq!(r, Err("Body read error: reset".to_string()));
    assert_eq!(
        h.read_body_chunk(None),
        Err("Body stream already consumed".to_string())
    );
}

#[test]
fn closed_body_channel_reads_as_eof() {
    let mut h = RequestHandle::new(meta("/"));
    assert_eq!(h.read_body_chunk(None), Ok(None));
}

#[test]
fn pump_forwards_nonempty_data_and_keeps_going() {
    let (item, stop) = body_pump_step(BodyFrameEvent::Data(vec![1, 2]));
    assert_eq!(item, Some(BodyItem::Chunk(vec![1, 2])));
    assert!(!stop);
}

#[test]
fn pump_skips_empty_data_and_trailers() {
    let (item, stop) = body_pump_step(BodyFrameEvent::Data(Vec::new()));
    assert_eq!(item, None);
    assert!(!stop);
    let (item, stop) = body_pump_step(BodyFrameEvent::Trailers);
    assert_eq!(item, None);
    assert!(!stop);
}

#[test]
fn pump_ends_with_error_marker_on_read_error() {
    let (item, stop) = body_pump_step(BodyFrameEvent::ReadError("boom".to_string()));
    assert_eq!(item, Some(BodyItem::Failed("boom".to_string())));
    assert!(stop);
}

#[test]
fn pump_ends_zero_length_body_with_explicit_sentinel() {
    // Even a zero-length body yields the explicit end-of-stream sentinel,
    // so the consumer's read terminates instead of hanging.
    let (item, stop) = body_pump_step(BodyFrameEvent::End);
    assert_eq!(item, Some(BodyItem::Chunk(Vec::new())));
    assert!(stop);
    let mut h = RequestHandle::new(meta("/"));
    assert_eq!(h.read_body_chunk(item), Ok(None));
}

#[test]
fn queue_delivers_each_request_once_in_order() {
    let mut q = ServerHandle::new(8);
    let a = QueuedRequest { handle: RequestHandle::new(meta("/a")) };
    let b = QueuedRequest { handle: RequestHandle::new(meta("/b")) };
    assert!(matches!(q.enqueue(a), EnqueueResult::Accepted));
    assert!(matches!(q.enqueue(b), EnqueueResult::Accepted));
    match q.receive_request() {
        ReceiveResult::Request(h) => assert_eq!(h.metadata.path, "/a"),
        other => panic!("expected a request, got {:?}", kind_of(&other)),
    }
    match q.receive_request() {
        ReceiveResult::Request(h) => assert_eq!(h.metadata.path, "/b"),
        other => panic!("expected a request, got {:?}", kind_of(&other)),
    }
    assert!(matches!(q.receive_request(), ReceiveResult::Empty));
}

fn kind_of(r: &ReceiveResult) -> &'static str {
    match r {
        ReceiveResult::Request(_) => "request",
        ReceiveResult::Empty => "empty",
        ReceiveResult::Ended => "ended",
    }
}

#[test]
fn full_queue_hands_the_request_back() {
    let mut q = ServerHandle::new(1);
    let a = QueuedRequest { handle: RequestHandle::new(meta("/a")) };
    let b = QueuedRequest { handle: RequestHandle::new(meta("/b")) };
    assert!(matches!(q.enqueue(a), EnqueueResult::Accepted));
    match q.enqueue(b) {
        EnqueueResult::Full(back) => assert_eq!(back.handle.metadata.path, "/b"),
        _ => panic!("expected the queue to be full"),
    }
}

#[test]
fn shutdown_ends_the_stream_and_refuses_new_requests() {
    let mut q = ServerHandle::new(8);
    let a = QueuedRequest { handle: RequestHandle::new(meta("/a")) };
    assert!(matches!(q.enqueue(a), EnqueueResult::Accepted));
    q.shutdown();
    assert!(matches!(q.receive_request(), ReceiveResult::Ended));
    assert!(matches!(q.receive_request(), ReceiveResult::Ended));
    let b = QueuedRequest { handle: RequestHandle::new(meta("/b")) };
    match q.enqueue(b) {
        EnqueueResult::Closed(back) => assert_eq!(back.handle.metadata.path, "/b"),
        _ => panic!("expected the queue to refuse the request"),
    }
    q.shutdown();
    assert!(matches!(q.receive_request(), ReceiveResult::Ended));
}

#[test]
fn synthesized_error_response_is_plain_text() {
    let r = error_response(500, "Server Error");
    assert_eq!(r.status, 500);
    assert_eq!(
        r.headers,
        vec![("content-type".to_string(), "text/plain".to_string())]
    );
    assert_eq!(r.body_chunks, vec![b"Server Error".to_vec()]);
}
