use rust_drission::element::{
    CallRetry, attr_function, attrs_of, call_retry, check_needs_click, css_all_function,
    frame_script_function, input_function, is_frame_tag, optional_text, parent_function,
    property_function, remove_attr_function, scroll_function, select_function, select_tag_check,
    stale_node_backend, texts_of, value_args, value_bool_or, value_of, xpath_all_function,
    xpath_first_function,
};
use rust_drission::json::Json;
use rust_drission::CdpError;

fn s(x: &str) -> Json {
    Json::Str(x.to_string())
}

fn obj(members: Vec<(&str, Json)>) -> Json {
    Json::Object(members.into_iter().map(|(k, v)| (k.to_string(), v)).collect())
}

fn perr(m: &str) -> CdpError {
    CdpError::Protocol { id: Some(9), code: -32000, message: m.to_string() }
}

#[test]
fn element_functions() {
    assert_eq!(property_function("checked").unwrap(), "function(){ return this[\"checked\"]; }");
    assert_eq!(
        attr_function("data-x").unwrap(),
        "function(){ var v = this.getAttribute(\"data-x\"); return v !== null ? v : ''; }"
    );
    assert!(input_function("a\"b").unwrap().contains("this.value = \"a\\\"b\";"));
    assert_eq!(remove_attr_function("id").unwrap(), "function(){ this.removeAttribute(\"id\"); }");
    assert!(select_function("One", true).unwrap().contains("opts[i].text === \"One\""));
    assert!(select_function("1", false).unwrap().contains("opts[i].value === \"1\""));
    assert_eq!(
        parent_function(2),
        "function(){ var el = this; for(var i=0;i<2;i++){ if(el.parentElement){el=el.parentElement;}else{return null;} } return el; }"
    );
    assert_eq!(scroll_function(-1, 30), "function(){ this.scrollTo(-1, 30); }");
    assert_eq!(frame_script_function("return 1;"), "function() { var document = this; return 1; }");
    assert_eq!(css_all_function("li").unwrap(), "function(){ return Array.from(this.querySelectorAll(\"li\")); }");
    assert!(xpath_first_function("./a").unwrap().contains("document.evaluate(\"./a\", this,"));
    assert!(xpath_all_function("./a").unwrap().contains("ORDERED_NODE_SNAPSHOT_TYPE"));
}

#[test]
fn argument_lists() {
    let a = value_args(&vec!["sel", "attr"]);
    let items = a.as_array().unwrap();
    assert_eq!(items.len(), 2);
    assert_eq!(items[1].get("value").and_then(|v| v.as_str()), Some("attr"));
}

#[test]
fn result_readers() {
    assert!(value_bool_or(&obj(vec![("value", Json::Bool(true))]), false));
    assert!(value_bool_or(&obj(vec![]), true));
    assert!(!value_bool_or(&obj(vec![("value", s("yes"))]), false));
    assert_eq!(optional_text(&obj(vec![("value", s("t"))])).as_deref(), Some("t"));
    assert_eq!(optional_text(&obj(vec![("value", Json::Null)])), None);
    assert!(matches!(value_of(obj(vec![("value", Json::PosInt(4))])), Json::PosInt(4)));
    assert!(matches!(value_of(obj(vec![])), Json::Null));
}

#[test]
fn attributes_and_texts() {
    let r = obj(vec![("value", obj(vec![("id", s("a")), ("n", Json::PosInt(1)), ("class", s("c"))]))]);
    let attrs = attrs_of(&r).unwrap();
    assert_eq!(attrs, vec![("id".to_string(), "a".to_string()), ("class".to_string(), "c".to_string())]);
    let e = attrs_of(&obj(vec![("value", s("x"))])).unwrap_err();
    assert!(matches!(e, CdpError::Protocol { ref message, .. } if message == "The attrs result was not an object"));
    assert_eq!(texts_of(&obj(vec![("value", s("[\"a\",\"b c\"]"))])), vec!["a".to_string(), "b c".to_string()]);
    assert!(texts_of(&obj(vec![("value", s("not json"))])).is_empty());
    assert!(texts_of(&obj(vec![])).is_empty());
}

#[test]
fn check_and_select_decisions() {
    assert!(check_needs_click(false, &Json::Bool(false)));
    assert!(check_needs_click(false, &Json::Null));
    assert!(!check_needs_click(false, &Json::Bool(true)));
    assert!(check_needs_click(true, &Json::Bool(true)));
    assert!(!check_needs_click(true, &Json::Null));
    assert!(is_frame_tag("iframe") && is_frame_tag("frame") && !is_frame_tag("div"));
    assert!(select_tag_check("select").is_ok());
    let e = select_tag_check("div").unwrap_err();
    assert!(matches!(e, CdpError::Protocol { ref message, .. } if message == "select() can only be used on <select> elements, but the current element is <div>"));
}

#[test]
fn stale_node_decisions() {
    assert_eq!(call_retry(&perr("Could not find object"), true, Some(5)), CallRetry::ForgetObjectAndRetry);
    assert_eq!(call_retry(&perr("Object has been collected"), false, Some(5)), CallRetry::RefreshNodeAndRetry(5));
    assert_eq!(call_retry(&perr("No node with given id"), false, None), CallRetry::Fail);
    assert_eq!(call_retry(&perr("Invalid parameters"), true, Some(5)), CallRetry::Fail);
    assert_eq!(stale_node_backend(&perr("No node with given id"), Some(8)), Some(8));
    assert_eq!(stale_node_backend(&perr("Object has been collected"), Some(8)), None);
    assert_eq!(stale_node_backend(&CdpError::Http("No node with given id".into()), Some(8)), None);
}
