use rust_drission::config::BrowserConfig;

#[test]
fn config_default() {
    let c = BrowserConfig::new();
    assert_eq!(c.get_remote_debugging_port(), 9222);
    assert!(c.get_chrome_path().is_none());
    assert!(c.get_user_data_dir().is_none());
    assert!(!c.get_headless());
    assert!(!c.get_args().is_empty());
    assert!(c.get_address().is_none());
    assert!(!c.get_existing_only());
}

#[test]
fn config_builder() {
    let c = BrowserConfig::new()
        .chrome_path("/usr/bin/chrome")
        .user_data_dir("/tmp/profile")
        .headless(true)
        .remote_debugging_port(9333)
        .args(vec!["--foo".into(), "--bar".into()]);
    assert_eq!(c.get_chrome_path(), Some("/usr/bin/chrome"));
    assert_eq!(c.get_user_data_dir(), Some("/tmp/profile"));
    assert!(c.get_headless());
    assert_eq!(c.get_remote_debugging_port(), 9333);
    assert_eq!(c.get_args(), &["--foo", "--bar"]);
    assert_eq!(c.get_address(), Some("127.0.0.1:9333"));
}

#[test]
fn config_set_local_port_and_address() {
    let c = BrowserConfig::new().set_local_port(9223);
    assert_eq!(c.get_remote_debugging_port(), 9223);
    assert_eq!(c.get_address(), Some("127.0.0.1:9223"));
    let c = BrowserConfig::new().set_address("127.0.0.1:9224");
    assert_eq!(c.get_remote_debugging_port(), 9224);
    assert_eq!(c.get_address(), Some("127.0.0.1:9224"));
}

#[test]
fn config_default_impl() {
    let c = BrowserConfig::default();
    assert!(c.get_chrome_path().is_none());
    assert!(!c.get_headless());
}

#[test]
fn config_default_arguments() {
    let c = BrowserConfig::new();
    let args = c.get_args();
    assert!(args.iter().any(|a| a == "--no-first-run"));
    assert_eq!(BrowserConfig::default_args(), args.to_vec());
}

#[test]
fn config_set_argument_replaces_earlier_value() {
    let c = BrowserConfig::new()
        .set_argument("--lang", Some("en"))
        .set_argument("--lang", Some("fr"));
    let langs: Vec<&String> = c.get_args().iter().filter(|a| a.starts_with("--lang")).collect();
    assert_eq!(langs, vec!["--lang=fr"]);
    assert_eq!(c.get_args().last().map(|s| s.as_str()), Some("--lang=fr"));
}

#[test]
fn config_set_argument_without_value() {
    let c = BrowserConfig::new().args(vec!["--a".into()]).set_argument("--flag", None);
    assert_eq!(c.get_args(), &["--a", "--flag"]);
}

#[test]
fn config_remove_argument_removes_every_match() {
    let c = BrowserConfig::new()
        .args(vec!["--x=1".into(), "--y".into(), "--x=2".into()])
        .remove_argument("--x");
    assert_eq!(c.get_args(), &["--y"]);
}

#[test]
fn config_toggles_and_settings() {
    let c = BrowserConfig::new()
        .args(vec![])
        .no_imgs(true)
        .mute(true)
        .incognito(true)
        .ignore_certificate_errors(true)
        .set_user_agent("UA")
        .set_proxy("http://p:1")
        .set_cache_path("/c")
        .set_profile_directory("P");
    assert_eq!(
        c.get_args(),
        &[
            "--blink-settings=imagesEnabled=false",
            "--mute-audio",
            "--incognito",
            "--ignore-certificate-errors",
            "--user-agent=UA",
            "--proxy-server=http://p:1",
            "--disk-cache-dir=/c",
            "--profile-directory=P",
        ]
    );
    let c = c.mute(false);
    assert!(!c.get_args().iter().any(|a| a == "--mute-audio"));
}

#[test]
fn config_address_without_port_keeps_port() {
    let c = BrowserConfig::new().set_address("localhost");
    assert_eq!(c.get_remote_debugging_port(), 9222);
    assert_eq!(c.get_address(), Some("127.0.0.1"));
    let c = BrowserConfig::new().set_address("https://localhost:9555");
    assert_eq!(c.get_remote_debugging_port(), 9555);
    assert_eq!(c.get_address(), Some("127.0.0.1:9555"));
    let c = BrowserConfig::new().set_address("http://127.0.0.1:9555/");
    assert_eq!(c.get_remote_debugging_port(), 9222);
    let c = BrowserConfig::new().set_address("127.0.0.1:99999");
    assert_eq!(c.get_remote_debugging_port(), 9222);
}

#[test]
fn config_tmp_path_and_existing_only() {
    let c = BrowserConfig::new().tmp_path("/tmp/x").existing_only(true);
    assert_eq!(c.get_tmp_path(), Some("/tmp/x"));
    assert!(c.get_existing_only());
}

#[test]
fn mute_switch_stands_once_and_last() {
    let d = BrowserConfig::new().set_argument("--mute-audio", None).set_argument("--x", None).mute(true);
    let count = |c: &BrowserConfig| c.get_args().iter().filter(|a| a.as_str() == "--mute-audio").count();
    assert_eq!(count(&d), 1);
    assert_eq!(d.get_args().last().map(String::as_str), Some("--mute-audio"));
    let again = d.clone().mute(true);
    assert_eq!(again.get_args(), d.get_args());
    assert_eq!(count(&d.mute(false)), 0);
}
