use rust_drission::cdp::{
    CdpErrorBody, CdpMessage, Incoming, Routed, command, command_timeout_error, read_step,
    reply_for, response_channel_closed, route_message, waiter_error,
};
use rust_drission::json::Json;
use rust_drission::CdpError;

fn message(id: Option<i64>, result: Option<Json>, error: Option<(i64, &str)>) -> CdpMessage {
    CdpMessage {
        id,
        result,
        error: error.map(|(code, m)| CdpErrorBody { code, message: m.to_string() }),
        method: None,
        params: None,
        session_id: None,
    }
}

#[test]
fn cdp_error_display() {
    let e = CdpError::Http("timeout".into());
    assert!(e.to_string().contains("timeout"));
    let e = CdpError::Protocol {
        id: Some(1),
        code: -32600,
        message: "Invalid".into(),
    };
    assert!(e.to_string().contains("Invalid"));
    assert!(e.to_string().contains("-32600"));
}

#[test]
fn error_messages_are_exact() {
    let e = CdpError::Protocol { id: Some(1), code: -32600, message: "Invalid".into() };
    assert_eq!(e.to_string(), "CDP error: id=Some(1), code=-32600, message=Invalid");
    let e = CdpError::Protocol { id: None, code: -1, message: "m".into() };
    assert_eq!(e.to_string(), "CDP error: id=None, code=-1, message=m");
    assert_eq!(CdpError::HttpStatus { status: 404, body: "nf".into() }.to_string(), "HTTP status error: status=404, body=nf");
    assert_eq!(CdpError::Timeout("t".into()).to_string(), "Operation timed out: t");
    assert_eq!(CdpError::ChannelClosed("c".into()).to_string(), "Channel closed: c");
    assert_eq!(CdpError::Connect("c".into()).to_string(), "WebSocket connection failed: c");
    assert_eq!(CdpError::Send("s".into()).to_string(), "Failed to send message: s");
    assert_eq!(CdpError::Recv("r".into()).to_string(), "Failed to receive message: r");
    assert_eq!(CdpError::WebSocket("w".into()).to_string(), "WebSocket error: w");
}

#[test]
fn context_is_added_to_protocol_errors_only() {
    let e = CdpError::Protocol { id: None, code: -1, message: "boom".into() }.with_context("css:a");
    assert!(matches!(e, CdpError::Protocol { ref message, .. } if message == "boom (locator: css:a)"));
    let e = CdpError::Http("x".into()).with_context("css:a");
    assert!(matches!(e, CdpError::Http(ref m) if m == "x"));
}

#[test]
fn replies_are_matched_by_id() {
    assert!(reply_for(message(Some(2), Some(Json::Null), None), 3).is_none());
    assert!(reply_for(message(None, None, None), 3).is_none());
    let r = reply_for(message(Some(3), Some(Json::Bool(true)), None), 3).unwrap().unwrap();
    assert!(matches!(r, Json::Bool(true)));
    let e = reply_for(message(Some(3), None, Some((-32000, "bad"))), 3).unwrap().unwrap_err();
    assert!(matches!(e, CdpError::Protocol { id: Some(3), code: -32000, ref message } if message == "bad"));
    let e = reply_for(message(Some(3), None, None), 3).unwrap().unwrap_err();
    assert!(matches!(e, CdpError::Protocol { id: Some(3), code: -1, ref message } if message == "CDP response did not include a result payload"));
}

#[test]
fn reading_stops_at_close() {
    let e = read_step(Incoming::Close, 1).unwrap().unwrap_err();
    assert!(matches!(e, CdpError::Recv(ref m) if m == "Connection closed"));
    assert!(read_step(Incoming::Other, 1).is_none());
    assert!(read_step(Incoming::Message(message(Some(1), Some(Json::Null), None)), 1).is_some());
}

#[test]
fn messages_are_routed() {
    match route_message(message(Some(7), Some(Json::Null), None)) {
        Routed::Reply { id: 7, reply: Ok(Json::Null) } => {}
        _ => panic!("expected a reply"),
    }
    let ev = CdpMessage {
        id: None,
        result: None,
        error: None,
        method: Some("Page.loadEventFired".into()),
        params: None,
        session_id: Some("S".into()),
    };
    match route_message(ev) {
        Routed::Event(e) => {
            assert_eq!(e.method, "Page.loadEventFired");
            assert!(matches!(e.params, Json::Null));
            assert_eq!(e.session_id.as_deref(), Some("S"));
        }
        _ => panic!("expected an event"),
    }
    assert!(matches!(route_message(message(None, None, None)), Routed::Ignore));
}

#[test]
fn commands_and_client_errors() {
    let c = command(5, "DOM.enable", None, Some("S1"));
    assert_eq!(c.id, 5);
    assert_eq!(c.method, "DOM.enable");
    assert_eq!(c.session_id.as_deref(), Some("S1"));
    assert!(matches!(command_timeout_error("Page.navigate", 30), CdpError::Timeout(ref m) if m == "CDP command 'Page.navigate' timed out after 30s"));
    assert!(matches!(response_channel_closed(42), CdpError::ChannelClosed(ref m) if m == "CDP response channel closed for command id 42"));
    let w = waiter_error(&CdpError::Recv("Connection closed".into()));
    assert!(matches!(w, CdpError::ChannelClosed(ref m) if m == "Failed to receive message: Connection closed"));
}

#[test]
fn websocket_address_is_checked_before_connecting() {
    let url = rust_drission::cdp::ws_url_for_connect("ws://127.0.0.1:9222/devtools/browser/abc").unwrap();
    assert_eq!(url.as_str(), "ws://127.0.0.1:9222/devtools/browser/abc");
    match rust_drission::cdp::ws_url_for_connect("not a url") {
        Err(rust_drission::CdpError::Connect(m)) => assert_eq!(m, "relative URL without a base"),
        other => panic!("unexpected {:?}", other),
    }
}
