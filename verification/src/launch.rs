//! Deciding how to reach a browser: endpoints, connect-or-launch, launch arguments and the
//! Chrome executable. The probing, spawning and file-system checks are done by the caller,
//! which hands their outcomes in.

use crate::config::{BrowserConfig, BrowserConfigView};
use crate::text::{chars_of, dec_nat, find_char, find_in_range, parse_unsigned, parse_unsigned_range, push_u64, range_starts_with, starts_with, string_of_range, trim, trim_range, trim_start, trim_end, is_ws, opt_string_view, opt_str_view};
use vstd::prelude::*;
use vstd::string::StringExecFns;

verus! {

/// `http://<s>` unless `s` already names a scheme; the empty endpoint means `http://127.0.0.1:9222`.
pub open spec fn normalize_endpoint_spec(e: Seq<char>) -> Seq<char> {
    let s = trim(e);
    if s.len() == 0 {
        "http://127.0.0.1:9222"@
    } else if starts_with(s, "http://"@) || starts_with(s, "https://"@) {
        s
    } else {
        "http://"@ + s
    }
}

/// Turns `127.0.0.1:9222` into `http://127.0.0.1:9222`; trims the input first.
pub fn normalize_endpoint(endpoint: &str) -> (r: String)
    ensures
        r@ == normalize_endpoint_spec(endpoint@),
{
    let v = chars_of(endpoint);
    let (a, b) = trim_range(&v, 0, v.len());
    assert(v@.subrange(0, v@.len() as int) =~= endpoint@);
    if a == b {
        return String::from_str("http://127.0.0.1:9222");
    }
    let s = string_of_range(&v, a, b);
    if range_starts_with(&v, a, b, &chars_of("http://")) || range_starts_with(
        &v,
        a,
        b,
        &chars_of("https://"),
    ) {
        return s;
    }
    let mut out = String::from_str("http://");
    out.append(s.as_str());
    out
}

proof fn lemma_trim_start_first(x: Seq<char>)
    ensures
        trim_start(x).len() > 0 ==> !is_ws(trim_start(x)[0]),
    decreases x.len(),
{
    if x.len() > 0 && is_ws(x[0]) {
        lemma_trim_start_first(x.drop_first());
    }
}

proof fn lemma_trim_end_prefix(y: Seq<char>)
    ensures
        trim_end(y).len() <= y.len(),
        trim_end(y) =~= y.take(trim_end(y).len() as int),
        trim_end(y).len() > 0 ==> !is_ws(trim_end(y).last()),
    decreases y.len(),
{
    if y.len() > 0 && is_ws(y.last()) {
        lemma_trim_end_prefix(y.drop_last());
        assert(y.drop_last().take(trim_end(y).len() as int) =~= y.take(trim_end(y).len() as int));
    } else {
        assert(y.take(y.len() as int) =~= y);
    }
}

/// A trimmed string that is not empty starts and ends with a character that is not
/// whitespace, and trimming it again changes nothing.
proof fn lemma_trimmed(e: Seq<char>)
    ensures
        trim(e).len() > 0 ==> !is_ws(trim(e)[0]) && !is_ws(trim(e).last()),
        trim(trim(e)) == trim(e),
{
    let x = trim_start(e);
    lemma_trim_start_first(e);
    lemma_trim_end_prefix(x);
    let t = trim(e);
    if t.len() > 0 {
        assert(t[0] == x[0]);
        lemma_trim_ends_kept(t);
    }
}

/// A string that starts and ends with a character that is not whitespace is its own trim.
proof fn lemma_trim_ends_kept(t: Seq<char>)
    requires
        t.len() > 0,
        !is_ws(t[0]),
        !is_ws(t.last()),
    ensures
        trim(t) == t,
{
}

/// Normalizing an endpoint twice gives what normalizing it once gives.
pub proof fn law_normalize_endpoint_idempotent(e: Seq<char>)
    ensures
        normalize_endpoint_spec(normalize_endpoint_spec(e)) == normalize_endpoint_spec(e),
{
    reveal_strlit("http://127.0.0.1:9222");
    reveal_strlit("http://");
    reveal_strlit("https://");
    let s = trim(e);
    lemma_trimmed(e);
    let r = normalize_endpoint_spec(e);
    if s.len() == 0 {
        lemma_trim_ends_kept(r);
        assert(r.take(7) =~= "http://"@);
    } else if starts_with(s, "http://"@) || starts_with(s, "https://"@) {
    } else {
        assert(r[0] == 'h');
        assert(r.last() == s.last());
        lemma_trim_ends_kept(r);
        assert(r.take(7) =~= "http://"@);
    }
}

/// The address a configuration points at: its address, else `127.0.0.1:<port>`.
pub open spec fn config_address(c: BrowserConfigView) -> Seq<char> {
    match c.address {
        Some(a) => a,
        None => "127.0.0.1:"@ + dec_nat(c.remote_debugging_port as nat),
    }
}

/// The host before the first `:` of an address, else `127.0.0.1`.
pub open spec fn address_host(a: Seq<char>) -> Seq<char> {
    match find_char(a, ':') {
        Some(i) => a.take(i),
        None => "127.0.0.1"@,
    }
}

/// The port after the first `:` of an address when it parses, else 9222.
pub open spec fn address_port_or_default(a: Seq<char>) -> u16 {
    match find_char(a, ':') {
        Some(i) => match parse_unsigned(a.skip(i + 1), 65535) {
            Some(p) => p as u16,
            None => 9222,
        },
        None => 9222,
    }
}

/// The first step of connect-or-launch.
#[derive(Debug)]
pub enum ConnectStep {
    /// Connect to the browser at this endpoint.
    Connect(String),
    /// Find out whether something listens at `host:port`, then call `after_probe`.
    Probe { host: String, port: u16, endpoint: String },
}

pub enum ConnectStepView {
    Connect(Seq<char>),
    Probe { host: Seq<char>, port: u16, endpoint: Seq<char> },
}

impl View for ConnectStep {
    type V = ConnectStepView;

    open spec fn view(&self) -> ConnectStepView {
        match self {
            ConnectStep::Connect(e) => ConnectStepView::Connect(e@),
            ConnectStep::Probe { host, port, endpoint } => ConnectStepView::Probe {
                host: host@,
                port: *port,
                endpoint: endpoint@,
            },
        }
    }
}

pub open spec fn connect_step_spec(c: BrowserConfigView) -> ConnectStepView {
    let a = config_address(c);
    let e = "http://"@ + a;
    if c.existing_only {
        ConnectStepView::Connect(e)
    } else {
        ConnectStepView::Probe { host: address_host(a), port: address_port_or_default(a), endpoint: e }
    }
}

/// What to do once the port has been probed.
#[derive(Debug, Clone, Copy, PartialEq, Eq)]
pub enum ConnectDecision {
    Connect,
    Launch,
}

fn address_of(config: &BrowserConfig) -> (r: String)
    ensures
        r@ == config_address(config@),
{
    match config.get_address() {
        Some(a) => String::from_str(a),
        None => {
            let mut s = String::from_str("127.0.0.1:");
            push_u64(&mut s, config.get_remote_debugging_port() as u64);
            s
        },
    }
}

/// The first step of connecting to, or else launching, the browser a configuration names:
/// with `existing_only` connect at once; otherwise probe the address's host and port
/// (`127.0.0.1` and 9222 when the address has no `:`; 9222 when the port does not parse).
pub fn connect_or_launch_step(config: &BrowserConfig) -> (r: ConnectStep)
    ensures
        r@ == connect_step_spec(config@),
{
    let address = address_of(config);
    let mut endpoint = String::from_str("http://");
    endpoint.append(address.as_str());
    if config.get_existing_only() {
        return ConnectStep::Connect(endpoint);
    }
    let v = chars_of(address.as_str());
    match find_in_range(&v, 0, v.len(), ':') {
        Some(i) => {
            assert(v@.subrange(0, v@.len() as int) =~= v@);
            assert(v@.take(i as int) =~= v@.subrange(0, i as int));
            assert(v@.skip(i + 1) =~= v@.subrange(i + 1, v@.len() as int));
            let host = string_of_range(&v, 0, i);
            let port: u16 = match parse_unsigned_range(&v, i + 1, v.len(), 65535) {
                Some(p) => p as u16,
                None => 9222,
            };
            ConnectStep::Probe { host, port, endpoint }
        },
        None => {
            assert(v@.subrange(0, v@.len() as int) =~= v@);
            ConnectStep::Probe { host: String::from_str("127.0.0.1"), port: 9222, endpoint }
        },
    }
}

/// Connect when the host is not `127.0.0.1` or the port is in use; otherwise launch.
pub fn after_probe(host: &str, in_use: bool) -> (r: ConnectDecision)
    ensures
        r == if host@ != "127.0.0.1"@ || in_use {
            ConnectDecision::Connect
        } else {
            ConnectDecision::Launch
        },
{
    let v = chars_of(host);
    let local = chars_of("127.0.0.1");
    let same = v.len() == local.len() && range_starts_with(&v, 0, v.len(), &local);
    assert(v@.subrange(0, v@.len() as int) =~= v@);
    assert(same == (host@ == "127.0.0.1"@)) by {
        if v@.len() == local@.len() && starts_with(v@, local@) {
            assert(v@.take(local@.len() as int) =~= v@);
        }
    }
    if !same || in_use {
        ConnectDecision::Connect
    } else {
        ConnectDecision::Launch
    }
}

/// The host a launched browser listens on: the configured address's host, else `127.0.0.1`.
pub open spec fn launch_host_spec(c: BrowserConfigView) -> Seq<char> {
    match c.address {
        Some(a) => address_host(a),
        None => "127.0.0.1"@,
    }
}

/// `http://<host>:<port>` of a browser launched with this configuration.
pub open spec fn launch_endpoint_spec(c: BrowserConfigView) -> Seq<char> {
    "http://"@ + launch_host_spec(c) + seq![':'] + dec_nat(c.remote_debugging_port as nat)
}

pub fn launch_endpoint(config: &BrowserConfig) -> (r: String)
    ensures
        r@ == launch_endpoint_spec(config@),
{
    let mut out = String::from_str("http://");
    match config.get_address() {
        Some(a) => {
            let v = chars_of(a);
            match find_in_range(&v, 0, v.len(), ':') {
                Some(i) => {
                    assert(v@.subrange(0, v@.len() as int) =~= v@);
                    assert(v@.take(i as int) =~= v@.subrange(0, i as int));
                    out.append(string_of_range(&v, 0, i).as_str());
                },
                None => {
                    assert(v@.subrange(0, v@.len() as int) =~= v@);
                    out.append("127.0.0.1");
                },
            }
        },
        None => {
            out.append("127.0.0.1");
        },
    }
    out.append(":");
    push_u64(&mut out, config.get_remote_debugging_port() as u64);
    proof {
        reveal_strlit(":");
    }
    assert(out@ =~= launch_endpoint_spec(config@));
    out
}

pub open spec fn any_headless(args: Seq<Seq<char>>) -> bool {
    exists|i: int| 0 <= i < args.len() && starts_with(#[trigger] args[i], "--headless"@)
}

/// The command line of a launched browser: debugging port, user data directory, window size,
/// `--headless=new` when headless is asked for and no `--headless…` argument is given, then
/// the configured arguments.
pub open spec fn launch_args_spec(c: BrowserConfigView, user_data_dir: Seq<char>) -> Seq<Seq<char>> {
    seq![
        "--remote-debugging-port="@ + dec_nat(c.remote_debugging_port as nat),
        "--user-data-dir="@ + user_data_dir,
        "--window-size=1920,1080"@,
    ] + (if c.headless && !any_headless(c.args) {
        seq!["--headless=new"@]
    } else {
        Seq::empty()
    }) + c.args
}

pub fn launch_args(config: &BrowserConfig, user_data_dir: &str) -> (r: Vec<String>)
    ensures
        r.deep_view() == launch_args_spec(config@, user_data_dir@),
{
    let mut out: Vec<String> = Vec::new();
    let mut a0 = String::from_str("--remote-debugging-port=");
    push_u64(&mut a0, config.get_remote_debugging_port() as u64);
    out.push(a0);
    let mut a1 = String::from_str("--user-data-dir=");
    a1.append(user_data_dir);
    out.push(a1);
    out.push(String::from_str("--window-size=1920,1080"));
    let args = config.get_args();
    let ghost cargs = config@.args;
    let ghost head = out.deep_view();
    assert(head =~= seq![
        "--remote-debugging-port="@ + dec_nat(config@.remote_debugging_port as nat),
        "--user-data-dir="@ + user_data_dir@,
        "--window-size=1920,1080"@,
    ]);
    if config.get_headless() {
        let prefix = chars_of("--headless");
        let mut found = false;
        let mut i: usize = 0;
        while i < args.len()
            invariant
                i <= args@.len(),
                args@.map_values(|s: String| s@) == cargs,
                prefix@ == "--headless"@,
                found == exists|k: int| 0 <= k < i && starts_with(#[trigger] cargs[k], "--headless"@),
            decreases args.len() - i,
        {
            let a = chars_of(args[i].as_str());
            assert(cargs[i as int] == a@);
            assert(a@.subrange(0, a@.len() as int) =~= a@);
            if range_starts_with(&a, 0, a.len(), &prefix) {
                found = true;
            }
            i = i + 1;
        }
        if !found {
            out.push(String::from_str("--headless=new"));
        }
    }
    let ghost mid = out.deep_view();
    assert(mid =~= head + (if config@.headless && !any_headless(cargs) {
        seq!["--headless=new"@]
    } else {
        Seq::empty()
    }));
    let mut j: usize = 0;
    while j < args.len()
        invariant
            j <= args@.len(),
            args@.map_values(|s: String| s@) == cargs,
            out.deep_view() == mid + cargs.take(j as int),
        decreases args.len() - j,
    {
        let ghost before = out.deep_view();
        let s = args[j].clone();
        assert(s@ == cargs[j as int]);
        out.push(s);
        assert(out.deep_view() =~= before.push(s@));
        j = j + 1;
        assert(out.deep_view() =~= mid + cargs.take(j as int));
    }
    assert(cargs.take(j as int) =~= cargs);
    out
}

/// The operating-system family the browser runs on.
#[derive(Debug, Clone, Copy, PartialEq, Eq)]
pub enum Platform {
    Windows,
    MacOs,
    OtherUnix,
}

/// The executable name tried last: `chrome` on Windows, `google-chrome` elsewhere.
pub fn default_chrome_name(platform: Platform) -> (r: &'static str)
    ensures
        r@ == if platform == Platform::Windows {
            "chrome"@
        } else {
            "google-chrome"@
        },
{
    match platform {
        Platform::Windows => "chrome",
        _ => "google-chrome",
    }
}

/// The file looked for inside a configured directory: `chrome.exe` on Windows, else `chrome`.
pub fn chrome_file_name(platform: Platform) -> (r: &'static str)
    ensures
        r@ == if platform == Platform::Windows {
            "chrome.exe"@
        } else {
            "chrome"@
        },
{
    match platform {
        Platform::Windows => "chrome.exe",
        _ => "chrome",
    }
}

pub open spec fn mac_paths_spec() -> Seq<Seq<char>> {
    seq![
        "/Applications/Google Chrome.app/Contents/MacOS/Google Chrome"@,
        "/Applications/Google Chrome Canary.app/Contents/MacOS/Google Chrome Canary"@,
        "/Applications/Chromium.app/Contents/MacOS/Chromium"@,
        "/Applications/Microsoft Edge.app/Contents/MacOS/Microsoft Edge"@,
        "/Applications/Brave Browser.app/Contents/MacOS/Brave Browser"@,
    ]
}

pub open spec fn unix_names_spec() -> Seq<Seq<char>> {
    seq!["google-chrome"@, "google-chrome-stable"@, "chromium"@, "chromium-browser"@]
}

/// The application bundles checked on macOS, in order.
pub fn mac_chrome_paths() -> (r: Vec<&'static str>)
    ensures
        r@.len() == mac_paths_spec().len(),
        forall|i: int| 0 <= i < r@.len() ==> #[trigger] r@[i]@ == mac_paths_spec()[i],
{
    vec![
        "/Applications/Google Chrome.app/Contents/MacOS/Google Chrome",
        "/Applications/Google Chrome Canary.app/Contents/MacOS/Google Chrome Canary",
        "/Applications/Chromium.app/Contents/MacOS/Chromium",
        "/Applications/Microsoft Edge.app/Contents/MacOS/Microsoft Edge",
        "/Applications/Brave Browser.app/Contents/MacOS/Brave Browser",
    ]
}

/// The executable names looked up on `PATH` on Unix systems, in order.
pub fn unix_chrome_names() -> (r: Vec<&'static str>)
    ensures
        r@.len() == unix_names_spec().len(),
        forall|i: int| 0 <= i < r@.len() ==> #[trigger] r@[i]@ == unix_names_spec()[i],
{
    vec!["google-chrome", "google-chrome-stable", "chromium", "chromium-browser"]
}

/// Index of the first `true`, if any.
pub open spec fn first_true(s: Seq<bool>) -> Option<int>
    decreases s.len(),
{
    if s.len() == 0 {
        None
    } else if s[0] {
        Some(0)
    } else {
        match first_true(s.drop_first()) {
            Some(i) => Some(i + 1),
            None => None,
        }
    }
}

fn first_true_exec(s: &Vec<bool>) -> (r: Option<usize>)
    ensures
        match r {
            Some(i) => first_true(s@) == Some(i as int),
            None => first_true(s@) is None,
        },
{
    let mut i: usize = 0;
    assert(s@.skip(0) =~= s@);
    while i < s.len()
        invariant
            i <= s@.len(),
            first_true(s@) == match first_true(s@.skip(i as int)) {
                Some(k) => Some(k + i),
                None => None,
            },
        decreases s.len() - i,
    {
        assert(s@.skip(i as int).drop_first() =~= s@.skip(i + 1));
        if s[i] {
            return Some(i);
        }
        i = i + 1;
    }
    None
}

/// What the search for a Chrome executable finds, given what was found on this machine:
/// on Windows the registry/`PATH` result; on macOS which of the bundles exist, then which
/// names are on `PATH` (their full paths); on other Unix systems which names are on `PATH`
/// (the name itself is used). Failing that, the default name.
pub open spec fn find_chrome_spec(
    platform: Platform,
    windows_found: Option<Seq<char>>,
    mac_exists: Seq<bool>,
    on_path: Seq<Option<Seq<char>>>,
) -> Seq<char> {
    let default = if platform == Platform::Windows {
        "chrome"@
    } else {
        "google-chrome"@
    };
    let path_hits = on_path.map_values(|o: Option<Seq<char>>| o is Some);
    match platform {
        Platform::Windows => match windows_found {
            Some(p) => p,
            None => default,
        },
        Platform::MacOs => match first_true(mac_exists) {
            Some(i) => mac_paths_spec()[i],
            None => match first_true(path_hits) {
                Some(j) => on_path[j]->0,
                None => default,
            },
        },
        Platform::OtherUnix => match first_true(path_hits) {
            Some(j) => unix_names_spec()[j],
            None => default,
        },
    }
}

/// Chooses the Chrome executable from what was found. `mac_exists[i]` says whether the
/// `i`-th bundle of `mac_chrome_paths` exists; `on_path[i]` is the full path of the `i`-th
/// name of `unix_chrome_names` on `PATH`, if there.
pub fn find_chrome_executable(
    platform: Platform,
    windows_found: Option<String>,
    mac_exists: &Vec<bool>,
    on_path: &Vec<Option<String>>,
) -> (r: String)
    requires
        mac_exists@.len() <= mac_paths_spec().len(),
        on_path@.len() <= unix_names_spec().len(),
    ensures
        r@ == find_chrome_spec(
            platform,
            opt_string_view(windows_found),
            mac_exists@,
            on_path@.map_values(|o: Option<String>| opt_string_view(o)),
        ),
{
    let mut hits: Vec<bool> = Vec::new();
    let mut i: usize = 0;
    while i < on_path.len()
        invariant
            i <= on_path@.len(),
            hits@ == on_path@.take(i as int).map_values(|o: Option<String>| o is Some),
        decreases on_path.len() - i,
    {
        hits.push(on_path[i].is_some());
        i = i + 1;
        assert(hits@ =~= on_path@.take(i as int).map_values(|o: Option<String>| o is Some));
    }
    assert(on_path@.take(i as int) =~= on_path@);
    let ghost views = on_path@.map_values(|o: Option<String>| opt_string_view(o));
    assert(hits@ =~= views.map_values(|o: Option<Seq<char>>| o is Some));
    match platform {
        Platform::Windows => match windows_found {
            Some(p) => p,
            None => String::from_str(default_chrome_name(platform)),
        },
        Platform::MacOs => match first_true_exec(mac_exists) {
            Some(k) => {
                proof { lemma_first_true_bound(mac_exists@); }
                String::from_str(mac_chrome_paths()[k])
            },
            None => match first_true_exec(&hits) {
                Some(j) => {
                    proof { lemma_first_true_bound(hits@); }
                    proof { lemma_first_true_holds(hits@); }
                    match &on_path[j] {
                        Some(p) => p.clone(),
                        None => String::from_str(default_chrome_name(platform)),
                    }
                },
                None => String::from_str(default_chrome_name(platform)),
            },
        },
        Platform::OtherUnix => match first_true_exec(&hits) {
            Some(j) => {
                proof { lemma_first_true_bound(hits@); }
                String::from_str(unix_chrome_names()[j])
            },
            None => String::from_str(default_chrome_name(platform)),
        },
    }
}

proof fn lemma_first_true_bound(s: Seq<bool>)
    ensures
        first_true(s) matches Some(i) ==> 0 <= i < s.len(),
    decreases s.len(),
{
    if s.len() > 0 && !s[0] {
        lemma_first_true_bound(s.drop_first());
    }
}

proof fn lemma_first_true_holds(s: Seq<bool>)
    ensures
        first_true(s) matches Some(i) ==> s[i],
    decreases s.len(),
{
    if s.len() > 0 && !s[0] {
        lemma_first_true_holds(s.drop_first());
        lemma_first_true_bound(s.drop_first());
    }
}

/// Where the configured executable setting leads: `None` when nothing is configured (search
/// with `find_chrome_executable`); otherwise the executable inside the configured directory
/// when the caller found one there (`exe_in_dir`), else the configured path itself.
pub fn resolve_chrome_path(config: &BrowserConfig, exe_in_dir: Option<String>) -> (r: Option<
    String,
>)
    ensures
        match config@.chrome_path {
            None => r is None,
            Some(p) => r matches Some(x) && x@ == match exe_in_dir {
                Some(e) => e@,
                None => p,
            },
        },
{
    match config.get_chrome_path() {
        None => None,
        Some(p) => match exe_in_dir {
            Some(e) => Some(e),
            None => Some(String::from_str(p)),
        },
    }
}


/// Law: the launch command line is the debugging port, the user data directory and the window
/// size, then `--headless=new` only when headless is on and no configured argument already asks
/// for headless, then the configured arguments in their order. With headless off nothing is
/// added to the configured arguments.
pub proof fn law_launch_args_shape(c: BrowserConfigView, user_data_dir: Seq<char>)
    ensures
        launch_args_spec(c, user_data_dir).len() == 3 + c.args.len() + (if c.headless
            && !any_headless(c.args) {
            1int
        } else {
            0int
        }),
        launch_args_spec(c, user_data_dir)[0] == "--remote-debugging-port="@ + dec_nat(
            c.remote_debugging_port as nat,
        ),
        launch_args_spec(c, user_data_dir)[1] == "--user-data-dir="@ + user_data_dir,
        launch_args_spec(c, user_data_dir)[2] == "--window-size=1920,1080"@,
        launch_args_spec(c, user_data_dir).skip(launch_args_spec(c, user_data_dir).len() - c.args.len())
            == c.args,
        !c.headless ==> launch_args_spec(c, user_data_dir).skip(3) == c.args,
        c.headless && !any_headless(c.args) ==> launch_args_spec(c, user_data_dir)[3] == "--headless=new"@,
{
    let r = launch_args_spec(c, user_data_dir);
    assert(r.skip(r.len() - c.args.len()) =~= c.args);
    if !c.headless {
        assert(r.skip(3) =~= c.args);
    }
}

} // verus!
