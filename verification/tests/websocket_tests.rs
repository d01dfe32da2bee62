use sparx::request::{RequestHandle, RequestMetadata, ResponseMessage};
use sparx::websocket::{
    find_websocket_key, upgrade_websocket, websocket_accept_key, Frame, RecvEvent,
    WebSocketHandle, WireMessage,
};

fn meta_with(headers: Vec<(&str, &str)>) -> RequestMetadata {
    RequestMetadata {
        method: "GET".to_string(),
        path: "/ws".to_string(),
        query: None,
        version: "HTTP/1.1".to_string(),
        headers: headers
            .into_iter()
            .map(|(n, v)| (n.to_string(), v.to_string()))
            .collect(),
    }
}

#[test]
fn accept_key_matches_the_handshake_example() {
    assert_eq!(
        websocket_accept_key("dGhlIHNhbXBsZSBub25jZQ=="),
        "s3pPLMBiTxaQ9kYGzzhZRbK+xOo="
    );
}

#[test]
fn key_lookup_ignores_ascii_case_and_takes_the_first() {
    let m = meta_with(vec![
        ("Host", "example.org"),
        ("Sec-WebSocket-Key", "first=="),
        ("sec-websocket-key", "second=="),
    ]);
    assert_eq!(find_websocket_key(&m.headers), Some("first==".to_string()));
}

#[test]
fn key_lookup_reports_absence() {
    let m = meta_with(vec![("Host", "example.org")]);
    assert_eq!(find_websocket_key(&m.headers), None);
    let near_miss = meta_with(vec![("sec-websocket-keys", "x")]);
    assert_eq!(find_websocket_key(&near_miss.headers), None);
}

#[test]
fn upgrade_emits_the_full_switching_protocols_handshake() {
    let mut req = RequestHandle::new(meta_with(vec![(
        "Sec-WebSocket-Key",
        "dGhlIHNhbXBsZSBub25jZQ==",
    )]));
    let ws = upgrade_websocket(&mut req).expect("upgrade should succeed");
    assert!(ws.open);
    assert!(!req.upgrade_open);
    assert!(!req.sink_open);
    assert_eq!(
        req.take_outgoing(),
        vec![
            ResponseMessage::Status(101),
            ResponseMessage::Header("Upgrade".to_string(), "websocket".to_string()),
            ResponseMessage::Header("Connection".to_string(), "Upgrade".to_string()),
            ResponseMessage::Header(
                "Sec-WebSocket-Accept".to_string(),
                "s3pPLMBiTxaQ9kYGzzhZRbK+xOo=".to_string()
            ),
            ResponseMessage::Finish,
        ]
    );
}

#[test]
fn upgrade_without_key_fails_and_leaves_the_request_untouched() {
    let mut req = RequestHandle::new(meta_with(vec![("Host", "example.org")]));
    let r = upgrade_websocket(&mut req);
    assert_eq!(r.unwrap_err(), "Missing Sec-WebSocket-Key header");
    assert!(req.upgrade_open);
    assert!(req.sink_open);
    assert!(req.outgoing.is_empty());
}

#[test]
fn second_upgrade_is_a_contract_violation() {
    let mut req = RequestHandle::new(meta_with(vec![(
        "Sec-WebSocket-Key",
        "dGhlIHNhbXBsZSBub25jZQ==",
    )]));
    assert!(upgrade_websocket(&mut req).is_ok());
    let r = upgrade_websocket(&mut req);
    assert_eq!(r.unwrap_err(), "Not an upgradeable request");
}

#[test]
fn upgrade_after_finish_is_refused() {
    let mut req = RequestHandle::new(meta_with(vec![(
        "Sec-WebSocket-Key",
        "dGhlIHNhbXBsZSBub25jZQ==",
    )]));
    assert_eq!(req.finish(), sparx::response::NifResult::Success);
    let r = upgrade_websocket(&mut req);
    assert_eq!(r.unwrap_err(), "Response already sent");
}

#[test]
fn frames_map_to_wire_messages_and_back() {
    let cases = vec![
        (Frame::Text("hi".to_string()), WireMessage::Text("hi".to_string())),
        (Frame::Binary(vec![1, 2]), WireMessage::Binary(vec![1, 2])),
        (Frame::Ping(vec![3]), WireMessage::Ping(vec![3])),
        (Frame::Pong(vec![4]), WireMessage::Pong(vec![4])),
        (Frame::Close, WireMessage::Close),
    ];
    for (frame, wire) in cases {
        assert_eq!(frame.to_ws_message(), wire);
        assert_eq!(Frame::from_ws_message(frame.to_ws_message()), Some(frame));
    }
}

#[test]
fn raw_wire_frames_produce_no_frame() {
    assert_eq!(Frame::from_ws_message(WireMessage::Raw), None);
}

#[test]
fn sends_map_to_wire_messages_while_open() {
    let mut ws = WebSocketHandle::new();
    let w = ws.send_frame(Frame::Text("hello".to_string())).unwrap();
    assert_eq!(w, WireMessage::Text("hello".to_string()));
    assert!(ws.open);
}

#[test]
fn sending_close_closes_the_handle_for_good() {
    let mut ws = WebSocketHandle::new();
    assert_eq!(ws.send_frame(Frame::Close).unwrap(), WireMessage::Close);
    assert!(!ws.open);
    let r = ws.send_frame(Frame::Text("late".to_string()));
    assert_eq!(r.unwrap_err(), "WebSocket closed");
}

#[test]
fn received_close_frame_surfaces_then_closes() {
    let mut ws = WebSocketHandle::new();
    let r = ws.recv_frame(RecvEvent::Message(WireMessage::Close));
    assert_eq!(r, Some(Frame::Close));
    assert!(!ws.open);
    assert_eq!(ws.recv_frame(RecvEvent::Message(WireMessage::Ping(vec![]))), None);
}

#[test]
fn stream_error_and_end_close_the_handle() {
    let mut ws = WebSocketHandle::new();
    assert_eq!(ws.recv_frame(RecvEvent::StreamError), None);
    assert!(!ws.open);

    let mut ws2 = WebSocketHandle::new();
    assert_eq!(ws2.recv_frame(RecvEvent::StreamEnd), None);
    assert!(!ws2.open);
}

#[test]
fn raw_frames_are_dropped_without_closing() {
    let mut ws = WebSocketHandle::new();
    assert_eq!(ws.recv_frame(RecvEvent::Message(WireMessage::Raw)), None);
    assert!(ws.open);
    let r = ws.recv_frame(RecvEvent::Message(WireMessage::Text("still here".to_string())));
    assert_eq!(r, Some(Frame::Text("still here".to_string())));
}

#[test]
fn mark_closed_fails_later_sends() {
    let mut ws = WebSocketHandle::new();
    ws.mark_closed();
    assert!(!ws.open);
    assert_eq!(
        ws.send_frame(Frame::Binary(vec![1])).unwrap_err(),
        "WebSocket closed"
    );
}
