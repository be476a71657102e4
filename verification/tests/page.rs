use rust_drission::json::Json;
use rust_drission::page::{
    ClearStep, Cookie, Storage, clear_cache_steps, cookies_of, cookies_params,
    delete_cookie_params, dialog_params, history_entry, listener_endpoint, navigate_outcome,
    screenshot_data, scroll_by_script, scroll_to_script, set_cookie_params, storage_delete_script,
    storage_get_script, storage_set_script, storage_value, value_text,
};
use rust_drission::CdpError;

fn s(x: &str) -> Json {
    Json::Str(x.to_string())
}

fn obj(members: Vec<(&str, Json)>) -> Json {
    Json::Object(members.into_iter().map(|(k, v)| (k.to_string(), v)).collect())
}

fn protocol_message(e: &CdpError) -> String {
    match e {
        CdpError::Protocol { id: None, code: -1, message } => message.clone(),
        other => panic!("unexpected error {:?}", other),
    }
}

fn member<'a>(j: &'a Json, k: &str) -> Option<&'a Json> {
    j.get(k)
}

#[test]
fn cookie_construction() {
    let c = Cookie {
        name: "session".into(),
        value: "abc123".into(),
        domain: Some("example.com".into()),
        path: Some("/".into()),
    };
    assert_eq!(c.name, "session");
    assert_eq!(c.value, "abc123");
    assert_eq!(c.domain.as_deref(), Some("example.com"));
    assert_eq!(c.path.as_deref(), Some("/"));
}

#[test]
fn cookie_minimal() {
    let c = Cookie {
        name: "n".into(),
        value: "v".into(),
        domain: None,
        path: None,
    };
    assert_eq!(c.name, "n");
    assert!(c.domain.is_none());
}

#[test]
fn navigation_error_text_is_reported() {
    assert!(navigate_outcome(&obj(vec![("frameId", s("F"))])).is_ok());
    assert!(navigate_outcome(&obj(vec![("errorText", s(""))])).is_ok());
    let e = navigate_outcome(&obj(vec![("errorText", s("net::ERR_NAME_NOT_RESOLVED"))])).unwrap_err();
    assert_eq!(protocol_message(&e), "Page.navigate failed: net::ERR_NAME_NOT_RESOLVED");
}

fn history(current: u64, ids: &[i64]) -> Json {
    let entries = ids
        .iter()
        .map(|&i| obj(vec![("id", if i < 0 { Json::NegInt(i) } else { Json::PosInt(i as u64) })]))
        .collect();
    obj(vec![("currentIndex", Json::PosInt(current)), ("entries", Json::Array(entries))])
}

#[test]
fn history_back_and_forward() {
    let h = history(1, &[10, 11, 12]);
    assert_eq!(history_entry(&h, false).unwrap(), Some(10));
    assert_eq!(history_entry(&h, true).unwrap(), Some(12));
    let first = history(0, &[10, 11]);
    assert_eq!(history_entry(&first, false).unwrap(), None);
    let last = history(2, &[10, 11, 12]);
    assert_eq!(history_entry(&last, true).unwrap(), None);
}

#[test]
fn history_errors() {
    let e = history_entry(&obj(vec![]), false).unwrap_err();
    assert_eq!(protocol_message(&e), "No navigation history is available");
    let no_id = obj(vec![
        ("currentIndex", Json::PosInt(1)),
        ("entries", Json::Array(vec![obj(vec![]), obj(vec![])])),
    ]);
    let e = history_entry(&no_id, false).unwrap_err();
    assert_eq!(protocol_message(&e), "No previous page is available in the navigation history");
    let no_next = obj(vec![
        ("currentIndex", Json::PosInt(0)),
        ("entries", Json::Array(vec![obj(vec![]), obj(vec![])])),
    ]);
    let e = history_entry(&no_next, true).unwrap_err();
    assert_eq!(protocol_message(&e), "No next page is available in the navigation history");
    let beyond = history(5, &[1, 2]);
    let e = history_entry(&beyond, false).unwrap_err();
    assert_eq!(protocol_message(&e), "No previous page is available in the navigation history");
}

#[test]
fn value_text_defaults_to_empty() {
    assert_eq!(value_text(&obj(vec![("value", s("Title"))])), "Title");
    assert_eq!(value_text(&obj(vec![("value", Json::PosInt(3))])), "");
    assert_eq!(value_text(&Json::Null), "");
}

#[test]
fn cookies_are_read_in_order() {
    let reply = obj(vec![(
        "cookies",
        Json::Array(vec![
            obj(vec![("name", s("a")), ("value", s("1")), ("domain", s("x.com")), ("path", s("/"))]),
            obj(vec![("name", s("no-value"))]),
            obj(vec![("name", s("b")), ("value", s("2"))]),
        ]),
    )]);
    let cs = cookies_of(&reply).unwrap();
    assert_eq!(cs.len(), 2);
    assert_eq!(cs[0].name, "a");
    assert_eq!(cs[0].domain.as_deref(), Some("x.com"));
    assert_eq!(cs[0].path.as_deref(), Some("/"));
    assert_eq!(cs[1].name, "b");
    assert_eq!(cs[1].value, "2");
    assert!(cs[1].domain.is_none());
    let e = cookies_of(&obj(vec![])).unwrap_err();
    assert_eq!(protocol_message(&e), "Network.getCookies did not return any cookies");
}

#[test]
fn cookie_parameters() {
    let c = Cookie { name: "n".into(), value: "v".into(), domain: None, path: Some("/p".into()) };
    let p = set_cookie_params(&c, Some("https://a"));
    assert_eq!(member(&p, "name").and_then(|v| v.as_str()), Some("n"));
    assert_eq!(member(&p, "value").and_then(|v| v.as_str()), Some("v"));
    assert_eq!(member(&p, "url").and_then(|v| v.as_str()), Some("https://a"));
    assert!(member(&p, "domain").is_none());
    assert_eq!(member(&p, "path").and_then(|v| v.as_str()), Some("/p"));
    let d = delete_cookie_params("n", None);
    assert_eq!(member(&d, "name").and_then(|v| v.as_str()), Some("n"));
    assert!(member(&d, "url").is_none());
    let urls = vec!["https://a".to_string(), "https://b".to_string()];
    let q = cookies_params(Some(&urls));
    let list = member(&q, "urls").and_then(|v| v.as_array()).unwrap();
    assert_eq!(list.len(), 2);
    assert_eq!(list[1].as_str(), Some("https://b"));
    assert!(matches!(cookies_params(None), Json::Object(ref m) if m.is_empty()));
}

#[test]
fn dialog_parameters() {
    let p = dialog_params(true, None);
    assert_eq!(member(&p, "accept").and_then(|v| v.as_bool()), Some(true));
    assert_eq!(member(&p, "promptText").and_then(|v| v.as_str()), Some(""));
    let p = dialog_params(false, Some("hello"));
    assert_eq!(member(&p, "accept").and_then(|v| v.as_bool()), Some(false));
    assert_eq!(member(&p, "promptText").and_then(|v| v.as_str()), Some("hello"));
}

#[test]
fn screenshot_is_decoded() {
    let data = screenshot_data(&obj(vec![("data", s("aGVsbG8="))])).unwrap();
    assert_eq!(data, b"hello".to_vec());
    let e = screenshot_data(&obj(vec![])).unwrap_err();
    assert_eq!(protocol_message(&e), "Page.captureScreenshot did not return image data");
    let e = screenshot_data(&obj(vec![("data", s("###"))])).unwrap_err();
    assert!(protocol_message(&e).starts_with("Failed to decode base64 data: "));
}

#[test]
fn listener_needs_an_endpoint() {
    assert_eq!(listener_endpoint(Some("http://127.0.0.1:9222")).unwrap(), "http://127.0.0.1:9222");
    let e = listener_endpoint(None).unwrap_err();
    assert!(protocol_message(&e).starts_with("Unable to start the listener"));
}

#[test]
fn scroll_scripts() {
    assert_eq!(scroll_to_script(0, -20), "window.scrollTo(0, -20); window.scrollX; window.scrollY;");
    assert_eq!(scroll_by_script(5, 7), "window.scrollBy(5, 7); window.scrollX; window.scrollY;");
}

#[test]
fn storage_scripts() {
    assert_eq!(
        storage_get_script(Storage::Local, Some("k\"1")).unwrap(),
        "localStorage.getItem(\"k\\\"1\");"
    );
    assert_eq!(
        storage_get_script(Storage::Session, Some("tok")).unwrap(),
        "sessionStorage.getItem(\"tok\");"
    );
    assert_eq!(
        storage_get_script(Storage::Local, None).unwrap(),
        "JSON.stringify(Object.keys(localStorage).reduce((acc,k) => { acc[k] = localStorage.getItem(k); return acc; }, {}));"
    );
    assert_eq!(
        storage_set_script(Storage::Session, "a", "b").unwrap(),
        "sessionStorage.setItem(\"a\", \"b\"); null"
    );
    assert_eq!(storage_delete_script(Storage::Local, Some("k")), "localStorage.removeItem('k'); null");
    assert_eq!(storage_delete_script(Storage::Session, None), "sessionStorage.clear(); null");
}

#[test]
fn storage_values() {
    assert_eq!(storage_value(&obj(vec![("value", s("x"))])), Some("x".to_string()));
    assert_eq!(storage_value(&obj(vec![("value", s("null"))])), None);
    assert_eq!(storage_value(&obj(vec![])), None);
}

#[test]
fn clear_cache_order() {
    assert_eq!(
        clear_cache_steps(true, false, true, true),
        vec![ClearStep::SessionStorage, ClearStep::Cookies, ClearStep::Cache]
    );
    assert!(clear_cache_steps(false, false, false, false).is_empty());
}
