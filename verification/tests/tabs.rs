use rust_drission::json::Json;
use rust_drission::tabs::{
    JsonVersion, TabPick, browser_version, created_target_id, get_tab_matches, is_success_status,
    latest_tab_index, missing_target_id, page_targets, pick_tab, tab_filter_matches, tab_ids_of,
    tab_session_id, tabs_to_close, version_url, ws_url_of,
};
use rust_drission::CdpError;

fn s(x: &str) -> Json {
    Json::Str(x.to_string())
}

fn obj(members: Vec<(&str, Json)>) -> Json {
    Json::Object(members.into_iter().map(|(k, v)| (k.to_string(), v)).collect())
}

fn target(kind: &str, id: Option<&str>) -> Json {
    let mut m = vec![("type", s(kind))];
    if let Some(i) = id {
        m.push(("targetId", s(i)));
    }
    obj(m)
}

fn protocol_message(e: &CdpError) -> String {
    match e {
        CdpError::Protocol { id: None, code: -1, message } => message.clone(),
        other => panic!("unexpected error {:?}", other),
    }
}

#[test]
fn created_and_attached_ids() {
    assert_eq!(created_target_id(&obj(vec![("targetId", s("T1"))])).unwrap(), "T1");
    let e = created_target_id(&obj(vec![])).unwrap_err();
    assert_eq!(protocol_message(&e), "Target.createTarget did not return targetId");
    assert_eq!(tab_session_id(&obj(vec![("sessionId", s("S1"))])).unwrap(), "S1");
    let e = tab_session_id(&obj(vec![("sessionId", Json::Null)])).unwrap_err();
    assert_eq!(protocol_message(&e), "Target.attachToTarget did not return sessionId");
}

#[test]
fn page_targets_stop_at_an_entry_without_id() {
    let reply = obj(vec![(
        "targetInfos",
        Json::Array(vec![
            target("page", Some("A")),
            target("service_worker", Some("W")),
            target("page", Some("B")),
            target("page", None),
            target("page", Some("C")),
        ]),
    )]);
    let p = page_targets(&reply).unwrap();
    assert_eq!(p.ids, vec!["A".to_string(), "B".to_string()]);
    assert!(p.missing_id);
    assert_eq!(protocol_message(&missing_target_id()), "A target entry did not include targetId");
    let e = page_targets(&obj(vec![])).unwrap_err();
    assert_eq!(protocol_message(&e), "Target.getTargets did not return targetInfos");
}

#[test]
fn tab_ids_skip_entries_without_id() {
    let reply = obj(vec![(
        "targetInfos",
        Json::Array(vec![target("page", None), target("iframe", Some("F")), target("page", Some("P"))]),
    )]);
    assert_eq!(tab_ids_of(&reply).unwrap(), vec!["P".to_string()]);
    assert!(tab_ids_of(&obj(vec![("targetInfos", s("x"))])).is_err());
}

#[test]
fn latest_tab() {
    assert_eq!(latest_tab_index(3).unwrap(), 2);
    let e = latest_tab_index(0).unwrap_err();
    assert_eq!(protocol_message(&e), "No open tabs were found");
}

#[test]
fn tab_picking() {
    assert_eq!(pick_tab("2"), TabPick::Position(Some(1)));
    assert_eq!(pick_tab("+1"), TabPick::Position(Some(0)));
    assert_eq!(pick_tab("0"), TabPick::Position(None));
    assert_eq!(pick_tab("ABC123"), TabPick::Search);
    assert_eq!(pick_tab("-1"), TabPick::Search);
    assert_eq!(pick_tab(""), TabPick::Search);
}

#[test]
fn tab_filters() {
    assert!(tab_filter_matches(None, None, None, None, None));
    assert!(tab_filter_matches(Some("Example Domain"), Some("Example"), None, None, Some("page")));
    assert!(!tab_filter_matches(None, Some("Example"), None, None, None));
    assert!(!tab_filter_matches(None, None, Some("https://a"), Some("b"), None));
    assert!(!tab_filter_matches(None, None, None, None, Some("iframe")));
    assert!(get_tab_matches("T9", "T9", None, Some("x"), None, None, None));
    assert!(!get_tab_matches("T8", "T9", None, Some("x"), None, None, None));
}

#[test]
fn closing_tabs() {
    let all = vec!["a".to_string(), "b".to_string(), "c".to_string()];
    let named = vec!["b".to_string(), "z".to_string()];
    assert_eq!(tabs_to_close(&all, &named, true), vec!["a".to_string(), "c".to_string()]);
    assert_eq!(tabs_to_close(&all, &named, false), named);
    assert_eq!(tabs_to_close(&all, &[], false), vec!["a".to_string()]);
    assert_eq!(tabs_to_close(&all, &[], true), all);
    assert!(tabs_to_close(&Vec::new(), &[], false).is_empty());
}

#[test]
fn version_record() {
    let v = JsonVersion {
        browser: Some("Chrome/1".into()),
        protocol_version: None,
        user_agent: Some("UA".into()),
        web_socket_debugger_url: None,
    };
    let b = browser_version(v);
    assert_eq!(b.browser, "Chrome/1");
    assert_eq!(b.protocol_version, "");
    assert_eq!(b.web_socket_debugger_url, "");
    let v = JsonVersion { browser: None, protocol_version: None, user_agent: None, web_socket_debugger_url: Some("ws://x".into()) };
    assert_eq!(ws_url_of(v).unwrap(), "ws://x");
    let v = JsonVersion { browser: None, protocol_version: None, user_agent: None, web_socket_debugger_url: None };
    assert!(matches!(ws_url_of(v), Err(CdpError::Http(ref m)) if m == "The /json/version response did not include webSocketDebuggerUrl"));
    assert_eq!(version_url("http://127.0.0.1:9222//"), "http://127.0.0.1:9222/json/version");
    assert_eq!(version_url("http://h:1"), "http://h:1/json/version");
    assert!(is_success_status(200) && is_success_status(299));
    assert!(!is_success_status(300) && !is_success_status(404));
}

#[test]
fn version_is_read_from_the_known_endpoint() {
    assert_eq!(rust_drission::tabs::version_endpoint(Some("http://10.0.0.2:9333")), "http://10.0.0.2:9333");
    assert_eq!(rust_drission::tabs::version_endpoint(None), "http://127.0.0.1:9222");
}
