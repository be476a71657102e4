use rust_drission::json::Json;
use rust_drission::lookup::{
    frame_try_failed, refreshed_root, FrameFailure, FrameTry, ElementLookup, ElementsLookup, ElementsStep, LookupEvent, LookupRequest, LookupStep, PageLookup, ScopedLookup, css_only,
    element_not_found, frame_wait_timeout, frames_locator, hidden_now, hidden_timeout,
    page_lookup, parse_for_lookup, scoped_lookup, visible_now, visible_timeout,
};
use rust_drission::CdpError;

fn obj(members: Vec<(&str, Json)>) -> Json {
    Json::Object(members.into_iter().map(|(k, v)| (k.to_string(), v)).collect())
}

fn failure() -> CdpError {
    CdpError::Protocol { id: Some(3), code: -32000, message: "gone".to_string() }
}

fn next(step: LookupStep) -> ElementLookup {
    match step {
        LookupStep::Next(s) => s,
        LookupStep::Finish(r) => panic!("lookup ended early: {:?}", r),
    }
}

fn ok_reply() -> LookupEvent {
    LookupEvent::Reply(Ok(obj(vec![])))
}

fn protocol_message(e: &CdpError) -> String {
    match e {
        CdpError::Protocol { id: None, code: -1, message } => message.clone(),
        other => panic!("unexpected error {:?}", other),
    }
}

#[test]
fn page_lookups() {
    assert!(matches!(page_lookup("css:#a", false).unwrap(), PageLookup::Css(ref s) if s == "#a"));
    assert!(matches!(page_lookup("id:a", true).unwrap(), PageLookup::Css(ref s) if s == "#a"));
    match page_lookup("xpath://b", false).unwrap() {
        PageLookup::Search { query, fallback_xpath } => {
            assert_eq!(query, "//b");
            assert!(fallback_xpath.is_none());
        }
        _ => panic!("expected a search"),
    }
    match page_lookup("text:Go", true).unwrap() {
        PageLookup::Search { query, fallback_xpath } => {
            assert_eq!(query, "//*[contains(text(),'Go')]");
            assert_eq!(fallback_xpath.as_deref(), Some("//*[contains(text(),'Go')]"));
        }
        _ => panic!("expected a search"),
    }
    let e = page_lookup("123", true).unwrap_err();
    assert_eq!(protocol_message(&e), "Invalid locator: 123. Please check the locator syntax.");
}

#[test]
fn scoped_lookups() {
    assert!(matches!(scoped_lookup("tag:li").unwrap(), ScopedLookup::Css(ref s) if s == "li"));
    assert!(matches!(scoped_lookup("xpath:./a").unwrap(), ScopedLookup::XPath(ref s) if s == "./a"));
    assert!(scoped_lookup("css:").is_err());
    assert_eq!(css_only("class:c").unwrap().as_deref(), Some(".c"));
    assert_eq!(css_only("text:t").unwrap(), None);
    assert!(css_only("nope:x").is_err());
    assert!(parse_for_lookup("css:a").is_ok());
}

#[test]
fn lookup_errors() {
    assert_eq!(protocol_message(&element_not_found("css:a")), "Element not found for locator: css:a");
    assert_eq!(protocol_message(&visible_timeout("css:a")), "Timed out while waiting for element to become visible: css:a");
    assert_eq!(protocol_message(&hidden_timeout("css:a")), "Timed out while waiting for element to become hidden: css:a");
    assert_eq!(protocol_message(&frame_wait_timeout("css:a")), "Timed out while waiting for an element inside the frame: css:a");
}

#[test]
fn wait_polls() {
    assert!(visible_now(Some(true)));
    assert!(!visible_now(Some(false)));
    assert!(!visible_now(None));
    assert!(hidden_now(false, None));
    assert!(hidden_now(true, Some(false)));
    assert!(!hidden_now(true, Some(true)));
    assert!(!hidden_now(true, None));
    assert_eq!(frames_locator(None), "tag:iframe");
    assert_eq!(frames_locator(Some("css:iframe.x")), "css:iframe.x");
}

#[test]
fn element_lookup_takes_the_first_scan_match() {
    let l = ElementLookup::start("css:.btn").unwrap();
    assert!(matches!(l.request(), LookupRequest::Scan { ref selector } if selector == ".btn"));
    let pairs = vec![(7, "obj-7".to_string()), (9, "obj-9".to_string())];
    match l.step(LookupEvent::Scanned(Ok(pairs))) {
        LookupStep::Finish(Ok(Some(f))) => {
            assert_eq!(f.node_id, 7);
            assert_eq!(f.object_id.as_deref(), Some("obj-7"));
        }
        other => panic!("unexpected {:?}", other),
    }
}

#[test]
fn element_lookup_scan_error_is_reported() {
    let l = ElementLookup::start("#a").unwrap();
    assert!(matches!(l.step(LookupEvent::Scanned(Err(failure()))), LookupStep::Finish(Err(_))));
}

#[test]
fn element_lookup_empty_scan_falls_back_on_the_document() {
    let l = ElementLookup::start("css:#a").unwrap();
    let l = next(l.step(LookupEvent::Scanned(Ok(Vec::new()))));
    assert!(matches!(l.request(), LookupRequest::EnableDom));
    let l = next(l.step(ok_reply()));
    assert!(matches!(l.request(), LookupRequest::EnableRuntime));
    let l = next(l.step(ok_reply()));
    assert!(matches!(l.request(), LookupRequest::GetDocument));
    let l = next(l.step(LookupEvent::Reply(Ok(obj(vec![("root", obj(vec![("nodeId", Json::PosInt(1))]))])))));
    match l.request() {
        LookupRequest::QuerySelector { node_id, selector } => {
            assert_eq!(node_id, 1);
            assert_eq!(selector, "#a");
        }
        other => panic!("unexpected {:?}", other),
    }
    match l.step(LookupEvent::Reply(Ok(obj(vec![("nodeId", Json::PosInt(42))])))) {
        LookupStep::Finish(Ok(Some(f))) => {
            assert_eq!(f.node_id, 42);
            assert!(f.object_id.is_none());
        }
        other => panic!("unexpected {:?}", other),
    }
}

#[test]
fn element_lookup_fallback_failures_give_no_element() {
    let l = next(ElementLookup::start("css:#a").unwrap().step(LookupEvent::Scanned(Ok(Vec::new()))));
    assert!(matches!(l.step(LookupEvent::Reply(Err(failure()))), LookupStep::Finish(Ok(None))));
    let l = next(ElementLookup::start("css:#a").unwrap().step(LookupEvent::Scanned(Ok(Vec::new()))));
    let l = next(next(l.step(ok_reply())).step(ok_reply()));
    assert!(matches!(l.step(ok_reply()), LookupStep::Finish(Ok(None))));
    let l = next(ElementLookup::start("css:#a").unwrap().step(LookupEvent::Scanned(Ok(Vec::new()))));
    let l = next(next(l.step(ok_reply())).step(ok_reply()));
    let l = next(l.step(LookupEvent::Reply(Ok(obj(vec![("root", obj(vec![("nodeId", Json::PosInt(1))]))])))));
    assert!(matches!(l.step(LookupEvent::Reply(Ok(obj(vec![("nodeId", Json::PosInt(0))])))), LookupStep::Finish(Ok(None))));
}

#[test]
fn element_lookup_searches_for_text() {
    let l = ElementLookup::start("text:Go").unwrap();
    assert!(matches!(l.request(), LookupRequest::EnableDom));
    let l = next(l.step(ok_reply()));
    assert!(matches!(l.request(), LookupRequest::PerformSearch { ref query } if query == "//*[contains(text(),'Go')]"));
    let l = next(l.step(LookupEvent::Reply(Ok(obj(vec![
        ("searchId", Json::Str("s1".to_string())),
        ("resultCount", Json::PosInt(2)),
    ])))));
    match l.request() {
        LookupRequest::GetSearchResults { search_id, from, to } => {
            assert_eq!(search_id, "s1");
            assert_eq!((from, to), (0, 1));
        }
        other => panic!("unexpected {:?}", other),
    }
    let l = next(l.step(LookupEvent::Reply(Ok(obj(vec![("nodeIds", Json::Array(vec![Json::PosInt(5)]))])))));
    assert!(matches!(l.request(), LookupRequest::DiscardSearch { ref search_id } if search_id == "s1"));
    match l.step(ok_reply()) {
        LookupStep::Finish(Ok(Some(f))) => {
            assert_eq!(f.node_id, 5);
            assert!(f.object_id.is_none());
        }
        other => panic!("unexpected {:?}", other),
    }
}

#[test]
fn element_lookup_empty_search_is_discarded() {
    let l = next(ElementLookup::start("xpath://b").unwrap().step(ok_reply()));
    let l = next(l.step(LookupEvent::Reply(Ok(obj(vec![
        ("searchId", Json::Str("s2".to_string())),
        ("resultCount", Json::PosInt(0)),
    ])))));
    assert!(matches!(l.request(), LookupRequest::DiscardSearch { ref search_id } if search_id == "s2"));
    assert!(matches!(l.step(ok_reply()), LookupStep::Finish(Ok(None))));
}

#[test]
fn element_lookup_search_errors_are_reported() {
    let l = next(ElementLookup::start("xpath://b").unwrap().step(ok_reply()));
    match l.step(ok_reply()) {
        LookupStep::Finish(Err(e)) => assert_eq!(protocol_message(&e), "DOM.performSearch did not return searchId"),
        other => panic!("unexpected {:?}", other),
    }
    let l = next(ElementLookup::start("xpath://b").unwrap().step(ok_reply()));
    assert!(matches!(l.step(LookupEvent::Reply(Err(failure()))), LookupStep::Finish(Err(_))));
}

#[test]
fn element_lookup_rejects_bad_locators() {
    match ElementLookup::start("  ") {
        Err(e) => assert_eq!(protocol_message(&e), "Invalid locator:   . Please check the locator syntax."),
        Ok(_) => panic!("accepted"),
    }
}

fn next_all(step: ElementsStep) -> ElementsLookup {
    match step {
        ElementsStep::Next(s) => s,
        ElementsStep::Finish(r) => panic!("lookup ended early: {:?}", r),
    }
}

#[test]
fn elements_lookup_keeps_every_scan_match_in_order() {
    let l = ElementsLookup::start("tag:a").unwrap();
    assert!(matches!(l.request(), LookupRequest::Scan { ref selector } if selector == "a"));
    let pairs = vec![(3, "o3".to_string()), (1, "o1".to_string())];
    match l.step(LookupEvent::Scanned(Ok(pairs))) {
        ElementsStep::Finish(Ok(found)) => {
            let got: Vec<(i64, Option<String>)> =
                found.into_iter().map(|f| (f.node_id, f.object_id)).collect();
            assert_eq!(got, vec![(3, Some("o3".to_string())), (1, Some("o1".to_string()))]);
        }
        other => panic!("unexpected {:?}", other),
    }
}

#[test]
fn elements_lookup_takes_all_search_results() {
    let l = next_all(ElementsLookup::start("text:Go").unwrap().step(ok_reply()));
    let l = next_all(l.step(LookupEvent::Reply(Ok(obj(vec![
        ("searchId", Json::Str("s".to_string())),
        ("resultCount", Json::PosInt(2)),
    ])))));
    assert!(matches!(l.request(), LookupRequest::GetSearchResults { ref search_id, from: 0, to: 2 } if search_id == "s"));
    let l = next_all(l.step(LookupEvent::Reply(Ok(obj(vec![(
        "nodeIds",
        Json::Array(vec![Json::PosInt(4), Json::PosInt(0), Json::PosInt(6)]),
    )])))));
    assert!(matches!(l.request(), LookupRequest::DiscardSearch { .. }));
    match l.step(ok_reply()) {
        ElementsStep::Finish(Ok(found)) => {
            let ids: Vec<i64> = found.iter().map(|f| f.node_id).collect();
            assert_eq!(ids, vec![4, 6]);
            assert!(found.iter().all(|f| f.object_id.is_none()));
        }
        other => panic!("unexpected {:?}", other),
    }
}

#[test]
fn elements_lookup_falls_back_on_the_xpath_snapshot() {
    let l = next_all(ElementsLookup::start("xpath://li").unwrap().step(ok_reply()));
    let l = next_all(l.step(LookupEvent::Reply(Ok(obj(vec![
        ("searchId", Json::Str("s".to_string())),
        ("resultCount", Json::PosInt(0)),
    ])))));
    let l = next_all(l.step(ok_reply()));
    match l.request() {
        LookupRequest::Evaluate { expression } => assert_eq!(
            expression,
            "var r=document.evaluate(\"//li\", document, null, XPathResult.ORDERED_NODE_SNAPSHOT_TYPE, null); var a=[]; for(var i=0;i<r.snapshotLength;i++) a.push(r.snapshotItem(i)); a"
        ),
        other => panic!("unexpected {:?}", other),
    }
    let l = next_all(l.step(LookupEvent::Reply(Ok(obj(vec![(
        "result",
        obj(vec![("objectId", Json::Str("list-1".to_string()))]),
    )])))));
    assert!(matches!(l.request(), LookupRequest::WalkList { ref list } if list == "list-1"));
    match l.step(LookupEvent::Walked(Ok(vec![8, 9]))) {
        ElementsStep::Finish(Ok(found)) => {
            let ids: Vec<i64> = found.iter().map(|f| f.node_id).collect();
            assert_eq!(ids, vec![8, 9]);
        }
        other => panic!("unexpected {:?}", other),
    }
}

#[test]
fn elements_lookup_snapshot_without_object_is_empty() {
    let l = next_all(ElementsLookup::start("xpath://li").unwrap().step(ok_reply()));
    let l = next_all(l.step(LookupEvent::Reply(Ok(obj(vec![
        ("searchId", Json::Str("s".to_string())),
        ("resultCount", Json::PosInt(0)),
    ])))));
    let l = next_all(l.step(ok_reply()));
    assert!(matches!(l.step(ok_reply()), ElementsStep::Finish(Ok(ref v)) if v.is_empty()));
}

#[test]
fn elements_lookup_errors_end_it() {
    let l = ElementsLookup::start("css:a").unwrap();
    assert!(matches!(l.step(LookupEvent::Scanned(Err(failure()))), ElementsStep::Finish(Err(_))));
    let l = next_all(ElementsLookup::start("xpath://li").unwrap().step(ok_reply()));
    assert!(matches!(l.step(LookupEvent::Reply(Err(failure()))), ElementsStep::Finish(Err(_))));
}

#[test]
fn frame_lookup_retries_once_on_a_vanished_document() {
    let gone = || CdpError::Protocol { id: Some(1), code: -32000, message: "No node with given id found".to_string() };
    assert!(matches!(frame_try_failed(FrameTry::First, gone()), FrameFailure::Refresh));
    assert!(matches!(frame_try_failed(FrameTry::Retry, gone()), FrameFailure::Fail(_)));
    match frame_try_failed(FrameTry::First, failure()) {
        FrameFailure::Fail(e) => assert_eq!(protocol_message_any(&e), "gone"),
        other => panic!("unexpected {:?}", other),
    }
    assert_eq!(refreshed_root(4, Ok(Some(9))), 9);
    assert_eq!(refreshed_root(4, Ok(None)), 4);
    assert_eq!(refreshed_root(4, Err(failure())), 4);
}

fn protocol_message_any(e: &CdpError) -> String {
    match e {
        CdpError::Protocol { message, .. } => message.clone(),
        other => panic!("unexpected error {:?}", other),
    }
}
