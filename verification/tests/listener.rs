use rust_drission::cdp::{CdpMessage, Incoming};
use rust_drission::json::Json;
use rust_drission::listener::{
    collect_step, CollectEvent, CollectStep, DataPacket, ListenerAction, ListenerState, PacketFilter, Request, Response,
    attached_session_id, body_of, listener_start_error, request_of, setup_read_step, setup_reply,
};
use rust_drission::CdpError;

fn s(x: &str) -> Json {
    Json::Str(x.to_string())
}

fn obj(members: Vec<(&str, Json)>) -> Json {
    Json::Object(members.into_iter().map(|(k, v)| (k.to_string(), v)).collect())
}

fn event(method: &str, params: Json) -> CdpMessage {
    CdpMessage { id: None, result: None, error: None, method: Some(method.into()), params: Some(params), session_id: None }
}

fn reply(id: i64, result: Option<Json>) -> CdpMessage {
    CdpMessage { id: Some(id), result, error: None, method: None, params: None, session_id: None }
}

fn sent(rid: &str, url: &str) -> CdpMessage {
    event(
        "Network.requestWillBeSent",
        obj(vec![
            ("requestId", s(rid)),
            ("type", s("XHR")),
            (
                "request",
                obj(vec![
                    ("url", s(url)),
                    ("method", s("POST")),
                    ("headers", obj(vec![("Accept", s("*/*")), ("X-N", Json::PosInt(1))])),
                    ("postData", s("a=1")),
                ]),
            ),
        ]),
    )
}

#[test]
fn full_request_cycle_emits_a_packet_with_its_body() {
    let mut st = ListenerState::new();
    assert!(matches!(st.on_message(sent("R1", "https://x/api")).unwrap(), ListenerAction::Nothing));
    let resp = event(
        "Network.responseReceived",
        obj(vec![
            ("requestId", s("R1")),
            ("type", s("Fetch")),
            ("response", obj(vec![("url", s("https://x/api")), ("status", Json::PosInt(201)), ("statusText", s("Created")), ("headers", obj(vec![("Content-Type", s("text/plain"))]))])),
        ]),
    );
    assert!(matches!(st.on_message(resp).unwrap(), ListenerAction::Nothing));
    let action = st.on_message(event("Network.loadingFinished", obj(vec![("requestId", s("R1"))]))).unwrap();
    let cmd = match action {
        ListenerAction::RequestBody { command_id, request_id } => {
            assert_eq!(request_id, "R1");
            command_id
        }
        other => panic!("unexpected {:?}", other),
    };
    assert_eq!(cmd, 3);
    let done = st
        .on_message(reply(cmd, Some(obj(vec![("body", s("aGVsbG8=")), ("base64Encoded", Json::Bool(true))]))))
        .unwrap();
    match done {
        ListenerAction::Emit(p) => {
            assert_eq!(p.request.url, "https://x/api");
            assert_eq!(p.request.method, "POST");
            assert_eq!(p.request.headers, vec![("Accept".to_string(), "*/*".to_string())]);
            assert_eq!(p.request.post_data.as_deref(), Some("a=1"));
            assert_eq!(p.response.status, Some(201));
            assert_eq!(p.response.status_text.as_deref(), Some("Created"));
            assert_eq!(p.body.as_deref(), Some(&b"hello"[..]));
            assert_eq!(p.response.body.as_deref(), Some(&b"hello"[..]));
            assert!(!p.is_failed);
            assert_eq!(p.resource_type.as_deref(), Some("Fetch"));
        }
        other => panic!("unexpected {:?}", other),
    }
    assert!(st.in_progress.is_empty());
    assert!(st.pending.is_empty());
}

#[test]
fn failed_request_is_reported() {
    let mut st = ListenerState::new();
    st.on_message(sent("R2", "https://x/y")).unwrap();
    let a = st
        .on_message(event("Network.loadingFailed", obj(vec![("requestId", s("R2")), ("type", s("Script"))])))
        .unwrap();
    match a {
        ListenerAction::Emit(p) => {
            assert!(p.is_failed);
            assert!(p.body.is_none());
            assert_eq!(p.response.url, "https://x/y");
            assert_eq!(p.resource_type.as_deref(), Some("Script"));
        }
        other => panic!("unexpected {:?}", other),
    }
    assert!(matches!(
        st.on_message(event("Network.loadingFailed", obj(vec![("requestId", s("R2"))]))).unwrap(),
        ListenerAction::Nothing
    ));
}

#[test]
fn request_without_request_object_is_an_error() {
    let mut st = ListenerState::new();
    let e = st.on_message(event("Network.requestWillBeSent", obj(vec![("requestId", s("R"))]))).unwrap_err();
    assert!(matches!(e, CdpError::Protocol { ref message, .. } if message == "requestWillBeSent 无 request"));
}

#[test]
fn unknown_replies_and_events_change_nothing() {
    let mut st = ListenerState::new();
    assert!(matches!(st.on_message(reply(99, Some(Json::Null))).unwrap(), ListenerAction::Nothing));
    assert!(matches!(st.on_message(event("Page.loadEventFired", Json::Null)).unwrap(), ListenerAction::Nothing));
    assert_eq!(st.next_id, 3);
}

#[test]
fn bodies() {
    assert_eq!(body_of(&obj(vec![("body", s("plain"))])), Some(b"plain".to_vec()));
    assert_eq!(body_of(&obj(vec![("body", s("!!")), ("base64Encoded", Json::Bool(true))])), None);
    assert_eq!(body_of(&obj(vec![])), None);
    let r = request_of(&obj(vec![]));
    assert_eq!(r.method, "GET");
    assert_eq!(r.url, "");
}

fn packet(url: &str, rtype: Option<&str>) -> DataPacket {
    DataPacket {
        request: Request { url: url.into(), method: "GET".into(), headers: vec![], post_data: None },
        response: Response { url: "https://cdn/x".into(), status: None, status_text: None, headers: vec![], body: None },
        body: None,
        is_failed: false,
        resource_type: rtype.map(String::from),
    }
}

#[test]
fn packet_filters() {
    assert!(PacketFilter::All.matches(&packet("a", None)));
    assert!(PacketFilter::UrlContains("api".into()).matches(&packet("https://h/api/v1", None)));
    assert!(PacketFilter::UrlContains("cdn".into()).matches(&packet("https://h/", None)));
    assert!(!PacketFilter::UrlContains("zzz".into()).matches(&packet("https://h/", None)));
    assert!(PacketFilter::ResourceType("xhr".into()).matches(&packet("a", Some("XHR"))));
    assert!(!PacketFilter::ResourceType("Fetch".into()).matches(&packet("a", Some("XHR"))));
    assert!(!PacketFilter::ResourceType("Fetch".into()).matches(&packet("a", None)));
}

#[test]
fn setup_replies() {
    assert!(setup_reply(reply(2, Some(Json::Null)), 1).is_none());
    assert!(matches!(setup_reply(reply(1, Some(Json::Bool(true))), 1), Some(Ok(Json::Bool(true)))));
    let e = setup_reply(reply(1, None), 1).unwrap().unwrap_err();
    assert!(matches!(e, CdpError::Protocol { id: Some(1), code: -1, ref message } if message == "响应无 result"));
    let e = setup_read_step(Incoming::Close, 1).unwrap().unwrap_err();
    assert!(matches!(e, CdpError::Recv(ref m) if m == "连接已关闭"));
    assert!(setup_read_step(Incoming::Other, 1).is_none());
    assert_eq!(attached_session_id(&obj(vec![("sessionId", s("S"))])).unwrap(), "S");
    let e = attached_session_id(&obj(vec![])).unwrap_err();
    assert!(matches!(e, CdpError::Protocol { id: Some(1), .. }));
    assert!(matches!(listener_start_error(), CdpError::Connect(ref m) if m == "监听线程启动失败"));
}

#[test]
fn collecting_stops_on_the_callback_or_an_empty_wait() {
    let step = collect_step(Vec::new(), CollectEvent::Packet(packet("http://a/1", None), true));
    let so_far = match step {
        CollectStep::Continue(v) => v,
        other => panic!("unexpected {:?}", other),
    };
    assert_eq!(so_far.len(), 1);
    match collect_step(so_far, CollectEvent::Packet(packet("http://a/2", None), false)) {
        CollectStep::Finish(Ok(v)) => {
            let urls: Vec<&str> = v.iter().map(|p| p.request.url.as_str()).collect();
            assert_eq!(urls, vec!["http://a/1", "http://a/2"]);
        }
        other => panic!("unexpected {:?}", other),
    }
    match collect_step(vec![packet("http://a/3", None)], CollectEvent::Nothing) {
        CollectStep::Finish(Ok(v)) => assert_eq!(v.len(), 1),
        other => panic!("unexpected {:?}", other),
    }
    let failed = CollectEvent::Failed(CdpError::Recv("closed".to_string()));
    assert!(matches!(collect_step(vec![packet("http://a/4", None)], failed), CollectStep::Finish(Err(CdpError::Recv(_)))));
}
