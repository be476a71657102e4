use rust_drission::cdp::CdpEvent;
use rust_drission::idle::{IdleChange, IdleInput, InflightCounter};
use rust_drission::json::Json;
use rust_drission::pause::random_wait_ms;
use rust_drission::stealth::stealth_params;
use rust_drission::CdpError;

fn ev(method: &str, session: Option<&str>) -> IdleInput {
    IdleInput::Event(CdpEvent { method: method.into(), params: Json::Null, session_id: session.map(String::from) })
}

#[test]
fn inflight_counting() {
    let mut c = InflightCounter::new();
    assert_eq!(c.update(ev("Network.requestWillBeSent", Some("S")), "S").unwrap(), IdleChange::Busy);
    assert_eq!(c.update(ev("Network.requestWillBeSent", Some("S")), "S").unwrap(), IdleChange::Busy);
    assert_eq!(c.update(ev("Network.requestWillBeSent", Some("T")), "S").unwrap(), IdleChange::Unchanged);
    assert_eq!(c.update(ev("Network.requestWillBeSent", None), "S").unwrap(), IdleChange::Unchanged);
    assert_eq!(c.inflight(), 2);
    assert_eq!(c.update(ev("Network.loadingFinished", Some("S")), "S").unwrap(), IdleChange::Unchanged);
    assert_eq!(c.update(ev("Network.loadingFailed", Some("S")), "S").unwrap(), IdleChange::QuietFromNow);
    assert_eq!(c.inflight(), 0);
    assert_eq!(c.update(ev("Network.loadingFinished", Some("S")), "S").unwrap(), IdleChange::QuietFromNow);
    assert_eq!(c.inflight(), 0);
    assert_eq!(c.update(ev("Page.frameNavigated", Some("S")), "S").unwrap(), IdleChange::Unchanged);
}

#[test]
fn inflight_subscription_errors() {
    let mut c = InflightCounter::new();
    assert!(matches!(c.update(IdleInput::Lagged(7), "S"), Err(CdpError::Recv(ref m)) if m == "CDP event receiver lagged by 7 events"));
    assert!(matches!(c.update(IdleInput::Closed, "S"), Err(CdpError::ChannelClosed(ref m)) if m == "CDP event channel closed"));
}

#[test]
fn random_waits_stay_in_range() {
    assert_eq!(random_wait_ms(5, 5, 123), 5);
    assert_eq!(random_wait_ms(10, 20, 0), 10);
    assert_eq!(random_wait_ms(20, 10, 12), 11);
    assert_eq!(random_wait_ms(10, 20, 10), 20);
    for nanos in [0u64, 1, 999, u64::MAX] {
        let w = random_wait_ms(100, 300, nanos);
        assert!((100..=300).contains(&w));
    }
}

#[test]
fn stealth_script_parameters() {
    let p = stealth_params();
    let src = p.get("source").and_then(|v| v.as_str()).unwrap();
    assert!(src.contains("Object.defineProperty(navigator, 'webdriver', { get: () => false });"));
    assert!(src.contains("makeNative"));
}

#[test]
fn string_pairs_keep_names_once() {
    let headers = Json::Object(vec![
        ("Accept".to_string(), Json::Str("*/*".to_string())),
        ("X-Count".to_string(), Json::PosInt(3)),
        ("Host".to_string(), Json::Str("a.b".to_string())),
    ]);
    let pairs = rust_drission::json::string_pairs(Some(&headers));
    assert_eq!(
        pairs,
        vec![("Accept".to_string(), "*/*".to_string()), ("Host".to_string(), "a.b".to_string())]
    );
}
