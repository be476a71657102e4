use rust_drission::dom::{
    FoundNode, NodeRead, NodeWalk, WalkAction, backend_node_id_of, call_params,
    described_ids, described_node_id, document_root_id, frames_query_expression,
    is_no_node_error, is_object_invalid_error, is_transient_node_error, outer_html_of,
    query_all_expression, resolved_backend_object_id, resolved_object_id, result_object_id,
    search_node_ids, search_summary, selected_node_id, xpath_snapshot_expression,
};
use rust_drission::json::Json;
use rust_drission::CdpError;

fn s(x: &str) -> Json {
    Json::Str(x.to_string())
}

fn n(x: i64) -> Json {
    if x < 0 { Json::NegInt(x) } else { Json::PosInt(x as u64) }
}

fn obj(members: Vec<(&str, Json)>) -> Json {
    Json::Object(members.into_iter().map(|(k, v)| (k.to_string(), v)).collect())
}

fn perr(m: &str) -> CdpError {
    CdpError::Protocol { id: Some(4), code: -32000, message: m.to_string() }
}

fn protocol_message(e: &CdpError) -> String {
    match e {
        CdpError::Protocol { message, .. } => message.clone(),
        other => panic!("unexpected error {:?}", other),
    }
}

#[test]
fn stale_node_errors() {
    assert!(is_transient_node_error(&perr("No node with given id found")));
    assert!(is_transient_node_error(&perr("Object has been collected")));
    assert!(is_transient_node_error(&perr("Could not find object with given id")));
    assert!(!is_transient_node_error(&perr("Could not find object")));
    assert!(!is_transient_node_error(&CdpError::Recv("No node with given id".into())));
    assert!(is_no_node_error(&perr("Could not find node with given id")));
    assert!(!is_no_node_error(&perr("Object has been collected")));
    assert!(is_object_invalid_error(&perr("Could not find object")));
    assert!(is_object_invalid_error(&perr("nothing with given id")));
    assert!(!is_object_invalid_error(&perr("Invalid parameters")));
}

#[test]
fn reply_readers() {
    assert_eq!(document_root_id(&obj(vec![("root", obj(vec![("nodeId", n(1))]))])).unwrap(), 1);
    let e = document_root_id(&obj(vec![("root", obj(vec![]))])).unwrap_err();
    assert_eq!(protocol_message(&e), "DOM.getDocument did not return root.nodeId");
    assert_eq!(selected_node_id(&obj(vec![("nodeId", n(5))])), Some(5));
    assert_eq!(selected_node_id(&obj(vec![("nodeId", n(0))])), None);
    assert_eq!(outer_html_of(&obj(vec![("outerHTML", s("<p></p>"))])).unwrap(), "<p></p>");
    assert_eq!(protocol_message(&outer_html_of(&obj(vec![])).unwrap_err()), "DOM.getOuterHTML did not return outerHTML");
    let obj_reply = obj(vec![("object", obj(vec![("objectId", s("O1"))]))]);
    assert_eq!(resolved_object_id(&obj_reply).unwrap(), "O1");
    assert_eq!(protocol_message(&resolved_object_id(&obj(vec![])).unwrap_err()), "DOM.resolveNode did not return object.objectId");
    assert_eq!(protocol_message(&resolved_backend_object_id(&obj(vec![])).unwrap_err()), "DOM.resolveNode(backendNodeId) did not return object.objectId");
    let desc = obj(vec![("node", obj(vec![("nodeId", n(7)), ("backendNodeId", n(70))]))]);
    assert_eq!(backend_node_id_of(&desc).unwrap(), 70);
    assert_eq!(described_node_id(&desc).unwrap(), 7);
    assert_eq!(described_ids(&desc), (Some(7), Some(70)));
    assert_eq!(described_ids(&obj(vec![])), (None, None));
    assert_eq!(protocol_message(&backend_node_id_of(&obj(vec![])).unwrap_err()), "DOM.describeNode did not return node.backendNodeId");
    assert_eq!(protocol_message(&described_node_id(&obj(vec![])).unwrap_err()), "DOM.describeNode did not return node.nodeId");
}

#[test]
fn search_readers() {
    let (id, count) = search_summary(&obj(vec![("searchId", s("S")), ("resultCount", n(3))])).unwrap();
    assert_eq!((id.as_str(), count), ("S", 3));
    let (_, count) = search_summary(&obj(vec![("searchId", s("S")), ("resultCount", Json::PosInt(1 << 32 | 5))])).unwrap();
    assert_eq!(count, 5);
    let (_, count) = search_summary(&obj(vec![("searchId", s("S"))])).unwrap();
    assert_eq!(count, 0);
    assert_eq!(protocol_message(&search_summary(&obj(vec![])).unwrap_err()), "DOM.performSearch did not return searchId");
    let ids = search_node_ids(&obj(vec![("nodeIds", Json::Array(vec![n(4), n(0), s("x"), n(9)]))]));
    assert_eq!(ids, vec![4, 9]);
    assert!(search_node_ids(&obj(vec![])).is_empty());
}

#[test]
fn result_object_ids() {
    let r = obj(vec![("result", obj(vec![("objectId", s("L"))]))]);
    assert_eq!(result_object_id(&r, Some("missing")).unwrap().as_deref(), Some("L"));
    let r = obj(vec![("result", obj(vec![("type", s("undefined"))]))]);
    assert_eq!(result_object_id(&r, Some("missing")).unwrap(), None);
    let e = result_object_id(&obj(vec![]), Some("Runtime.evaluate did not return a result payload")).unwrap_err();
    assert_eq!(protocol_message(&e), "Runtime.evaluate did not return a result payload");
    assert_eq!(result_object_id(&obj(vec![]), None).unwrap(), None);
}

#[test]
fn expressions() {
    assert_eq!(query_all_expression("a[href=\"x\"]").unwrap(), "document.querySelectorAll(\"a[href=\\\"x\\\"]\")");
    assert_eq!(
        query_all_expression("a\\b\n\t\u{1}/é").unwrap(),
        "document.querySelectorAll(\"a\\\\b\\n\\t\\u0001/é\")"
    );
    let e = frames_query_expression("div").unwrap();
    assert!(e.starts_with("(function(selector){"));
    assert!(e.ends_with("})(\"div\")"));
    assert!(xpath_snapshot_expression("//a").unwrap().starts_with("var r=document.evaluate(\"//a\", document"));
}

#[test]
fn call_parameters() {
    let p = call_params("function(i){ return this[i]; }", "L1", Some(3));
    assert_eq!(p.get("objectId").and_then(|v| v.as_str()), Some("L1"));
    let args = p.get("arguments").and_then(|v| v.as_array()).unwrap();
    assert_eq!(args[0].get("value").and_then(|v| v.as_u64()), Some(3));
    let p = call_params("f", "L1", None);
    assert!(p.get("arguments").is_none());
}

fn send_of(a: WalkAction) -> (String, Json) {
    match a {
        WalkAction::Send { method, params } => (method, params),
        WalkAction::Done => panic!("walk ended early"),
    }
}

fn length_reply(len: u64) -> Json {
    obj(vec![("result", obj(vec![("type", s("number")), ("value", Json::PosInt(len))]))])
}

fn item_reply(oid: Option<&str>) -> Json {
    match oid {
        Some(o) => obj(vec![("result", obj(vec![("objectId", s(o))]))]),
        None => obj(vec![("result", obj(vec![("type", s("undefined"))]))]),
    }
}

#[test]
fn walk_collects_nodes_and_skips_vanished_items() {
    let mut w = NodeWalk::new("LIST".into(), true, NodeRead::Request);
    let (m, p) = send_of(w.action());
    assert_eq!(m, "Runtime.callFunctionOn");
    assert_eq!(p.get("functionDeclaration").and_then(|v| v.as_str()), Some("function(){ return this.length; }"));
    w.on_reply(Ok(length_reply(3))).unwrap();
    // item 0: an object, then its node
    let (_, p) = send_of(w.action());
    assert_eq!(p.get("functionDeclaration").and_then(|v| v.as_str()), Some("function(i){ return this[i]; }"));
    w.on_reply(Ok(item_reply(Some("E0")))).unwrap();
    let (m, p) = send_of(w.action());
    assert_eq!(m, "DOM.requestNode");
    assert_eq!(p.get("objectId").and_then(|v| v.as_str()), Some("E0"));
    w.on_reply(Ok(obj(vec![("nodeId", n(11))]))).unwrap();
    // item 1: vanished
    let _ = send_of(w.action());
    w.on_reply(Err(perr("Could not find object with given id"))).unwrap();
    // item 2: not an object
    let _ = send_of(w.action());
    w.on_reply(Ok(item_reply(None))).unwrap();
    assert!(matches!(w.action(), WalkAction::Done));
    let found: Vec<FoundNode> = w.into_found();
    assert_eq!(found.len(), 1);
    assert_eq!(found[0].node_id, 11);
    assert_eq!(found[0].object_id, "E0");
    assert_eq!(found[0].backend_node_id, None);
}

#[test]
fn walk_fails_on_other_errors() {
    let mut w = NodeWalk::new("LIST".into(), false, NodeRead::Describe);
    w.on_reply(Ok(length_reply(1))).unwrap();
    let e = w.on_reply(Err(perr("Could not find object with given id"))).unwrap_err();
    assert_eq!(protocol_message(&e), "Could not find object with given id");
    let mut w = NodeWalk::new("LIST".into(), false, NodeRead::Describe);
    w.on_reply(Ok(length_reply(1))).unwrap();
    w.on_reply(Ok(item_reply(Some("C0")))).unwrap();
    let (m, _) = send_of(w.action());
    assert_eq!(m, "DOM.describeNode");
    w.on_reply(Ok(obj(vec![("node", obj(vec![("nodeId", n(3)), ("backendNodeId", n(30))]))]))).unwrap();
    assert!(matches!(w.action(), WalkAction::Done));
    let found = w.into_found();
    assert_eq!((found[0].node_id, found[0].backend_node_id), (3, Some(30)));
}

#[test]
fn walk_of_an_empty_list() {
    let mut w = NodeWalk::new("LIST".into(), true, NodeRead::Request);
    w.on_reply(Ok(obj(vec![]))).unwrap();
    assert!(matches!(w.action(), WalkAction::Done));
    assert!(w.into_found().is_empty());
}
