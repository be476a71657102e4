use rust_drission::config::BrowserConfig;
use rust_drission::launch::{
    ConnectDecision, ConnectStep, Platform, after_probe, chrome_file_name, connect_or_launch_step,
    default_chrome_name, find_chrome_executable, launch_args, launch_endpoint, mac_chrome_paths,
    normalize_endpoint, resolve_chrome_path, unix_chrome_names,
};

#[test]
fn endpoints_are_normalized() {
    assert_eq!(normalize_endpoint("127.0.0.1:9222"), "http://127.0.0.1:9222");
    assert_eq!(normalize_endpoint("  https://h:1 "), "https://h:1");
    assert_eq!(normalize_endpoint("   "), "http://127.0.0.1:9222");
    for e in ["x:1", " http://y ", "", "\thttps://z\n"] {
        let once = normalize_endpoint(e);
        assert_eq!(normalize_endpoint(&once), once);
    }
}

#[test]
fn connect_or_launch_decisions() {
    let c = BrowserConfig::new();
    match connect_or_launch_step(&c) {
        ConnectStep::Probe { host, port, endpoint } => {
            assert_eq!(host, "127.0.0.1");
            assert_eq!(port, 9222);
            assert_eq!(endpoint, "http://127.0.0.1:9222");
        }
        _ => panic!("expected a probe"),
    }
    let c = BrowserConfig::new().set_address("10.0.0.2:9333").existing_only(true);
    assert!(matches!(connect_or_launch_step(&c), ConnectStep::Connect(ref e) if e == "http://10.0.0.2:9333"));
    let c = BrowserConfig::new().set_address("10.0.0.2:bad");
    assert!(matches!(connect_or_launch_step(&c), ConnectStep::Probe { ref host, port: 9222, .. } if host == "10.0.0.2"));
    assert_eq!(after_probe("127.0.0.1", false), ConnectDecision::Launch);
    assert_eq!(after_probe("127.0.0.1", true), ConnectDecision::Connect);
    assert_eq!(after_probe("10.0.0.2", false), ConnectDecision::Connect);
}

#[test]
fn launch_endpoint_and_arguments() {
    let c = BrowserConfig::new().set_address("192.168.1.5:9444");
    assert_eq!(launch_endpoint(&c), "http://192.168.1.5:9444");
    let c = BrowserConfig::new().set_local_port(9300).args(vec!["--x".into()]).headless(true);
    assert_eq!(
        launch_args(&c, "/tmp/u"),
        vec!["--remote-debugging-port=9300", "--user-data-dir=/tmp/u", "--window-size=1920,1080", "--headless=new", "--x"]
    );
    let c = BrowserConfig::new().args(vec!["--headless".into()]).headless(true);
    assert_eq!(
        launch_args(&c, "d"),
        vec!["--remote-debugging-port=9222", "--user-data-dir=d", "--window-size=1920,1080", "--headless"]
    );
}

#[test]
fn chrome_executable_search() {
    assert_eq!(default_chrome_name(Platform::Windows), "chrome");
    assert_eq!(default_chrome_name(Platform::OtherUnix), "google-chrome");
    assert_eq!(chrome_file_name(Platform::Windows), "chrome.exe");
    assert_eq!(mac_chrome_paths().len(), 5);
    assert_eq!(unix_chrome_names(), vec!["google-chrome", "google-chrome-stable", "chromium", "chromium-browser"]);
    assert_eq!(find_chrome_executable(Platform::Windows, None, &vec![], &vec![]), "chrome");
    assert_eq!(find_chrome_executable(Platform::Windows, Some("C:\\c.exe".into()), &vec![], &vec![]), "C:\\c.exe");
    assert_eq!(
        find_chrome_executable(Platform::OtherUnix, None, &vec![], &vec![None, None, Some("/usr/bin/chromium".into())]),
        "chromium"
    );
    assert_eq!(
        find_chrome_executable(Platform::MacOs, None, &vec![false, true], &vec![Some("/x/google-chrome".into())]),
        "/Applications/Google Chrome Canary.app/Contents/MacOS/Google Chrome Canary"
    );
    assert_eq!(
        find_chrome_executable(Platform::MacOs, None, &vec![false], &vec![None, Some("/x/gcs".into())]),
        "/x/gcs"
    );
    assert_eq!(find_chrome_executable(Platform::MacOs, None, &vec![], &vec![]), "google-chrome");
}

#[test]
fn configured_chrome_path() {
    assert_eq!(resolve_chrome_path(&BrowserConfig::new(), None), None);
    let c = BrowserConfig::new().chrome_path("/opt/chrome");
    assert_eq!(resolve_chrome_path(&c, None).as_deref(), Some("/opt/chrome"));
    assert_eq!(resolve_chrome_path(&c, Some("/opt/chrome/chrome".into())).as_deref(), Some("/opt/chrome/chrome"));
}
