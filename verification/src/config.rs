//! Launch settings for a new Chrome: executable, profile, port, address and arguments.

use crate::text::{chars_of, dec_nat, find_char, find_in_range, parse_unsigned, parse_unsigned_range, push_u64, range_starts_with, replace_all, replace_all_exec, skip_char, starts_with, string_chars, string_of_range, string_push, trim_start_char, opt_string_view, opt_str_view};
use vstd::prelude::*;
use vstd::string::StringExecFns;

verus! {

/// Settings for launching or reaching a Chrome.
#[derive(Debug, Clone)]
pub struct BrowserConfig {
    chrome_path: Option<String>,
    user_data_dir: Option<String>,
    headless: bool,
    args: Vec<String>,
    remote_debugging_port: u16,
    address: Option<String>,
    tmp_path: Option<String>,
    existing_only: bool,
}

/// The settings with their strings as character sequences.
pub struct BrowserConfigView {
    pub chrome_path: Option<Seq<char>>,
    pub user_data_dir: Option<Seq<char>>,
    pub headless: bool,
    pub args: Seq<Seq<char>>,
    pub remote_debugging_port: u16,
    pub address: Option<Seq<char>>,
    pub tmp_path: Option<Seq<char>>,
    pub existing_only: bool,
}

impl View for BrowserConfig {
    type V = BrowserConfigView;

    closed spec fn view(&self) -> BrowserConfigView {
        BrowserConfigView {
            chrome_path: opt_string_view(self.chrome_path),
            user_data_dir: opt_string_view(self.user_data_dir),
            headless: self.headless,
            args: self.args.deep_view(),
            remote_debugging_port: self.remote_debugging_port,
            address: opt_string_view(self.address),
            tmp_path: opt_string_view(self.tmp_path),
            existing_only: self.existing_only,
        }
    }
}

/// The default launch arguments (anti-detection switches and common opt-outs).
pub open spec fn default_args_spec() -> Seq<Seq<char>> {
    seq![
        "--no-default-browser-check"@,
        "--disable-suggestions-ui"@,
        "--no-first-run"@,
        "--disable-infobars"@,
        "--disable-popup-blocking"@,
        "--hide-crash-restore-bubble"@,
        "--disable-features=PrivacySandboxSettings4"@,
        "--disable-blink-features=AutomationControlled"@,
        "--no-sandbox"@,
    ]
}

/// The settings of `BrowserConfig::new()`.
pub open spec fn default_config_spec() -> BrowserConfigView {
    BrowserConfigView {
        chrome_path: None,
        user_data_dir: None,
        headless: false,
        args: default_args_spec(),
        remote_debugging_port: 9222,
        address: None,
        tmp_path: None,
        existing_only: false,
    }
}

/// `127.0.0.1:<port>`.
pub open spec fn local_address(port: u16) -> Seq<char> {
    "127.0.0.1:"@ + dec_nat(port as nat)
}

/// Whether launch argument `a` is the switch `p`, with or without a value (`p` or `p=…`).
pub open spec fn arg_matches(a: Seq<char>, p: Seq<char>) -> bool {
    a == p || starts_with(a, p.push('='))
}

/// `args` without the entries that are the switch `p`, order kept.
pub open spec fn without_arg(args: Seq<Seq<char>>, p: Seq<char>) -> Seq<Seq<char>>
    decreases args.len(),
{
    if args.len() == 0 {
        args
    } else {
        let r = without_arg(args.drop_last(), p);
        if arg_matches(args.last(), p) {
            r
        } else {
            r.push(args.last())
        }
    }
}

/// The entries of `args` that are the switch `p`, order kept.
pub open spec fn only_arg(args: Seq<Seq<char>>, p: Seq<char>) -> Seq<Seq<char>>
    decreases args.len(),
{
    if args.len() == 0 {
        args
    } else {
        let r = only_arg(args.drop_last(), p);
        if arg_matches(args.last(), p) {
            r.push(args.last())
        } else {
            r
        }
    }
}

/// The entry `set_argument` adds: `arg` or `arg=value`.
pub open spec fn arg_entry(arg: Seq<char>, value: Option<Seq<char>>) -> Seq<char> {
    match value {
        Some(v) => arg + seq!['='] + v,
        None => arg,
    }
}

pub open spec fn with_args(c: BrowserConfigView, args: Seq<Seq<char>>) -> BrowserConfigView {
    BrowserConfigView { args, ..c }
}

pub open spec fn remove_argument_spec(c: BrowserConfigView, p: Seq<char>) -> BrowserConfigView {
    with_args(c, without_arg(c.args, p))
}

pub open spec fn set_argument_spec(
    c: BrowserConfigView,
    arg: Seq<char>,
    value: Option<Seq<char>>,
) -> BrowserConfigView {
    with_args(c, without_arg(c.args, arg).push(arg_entry(arg, value)))
}

/// A switch turned on (`set_argument(arg, value)`) or off (`remove_argument(arg)`).
pub open spec fn toggle_spec(
    c: BrowserConfigView,
    on: bool,
    arg: Seq<char>,
    value: Option<Seq<char>>,
) -> BrowserConfigView {
    if on {
        set_argument_spec(c, arg, value)
    } else {
        remove_argument_spec(c, arg)
    }
}

/// The address `set_address` keeps: `localhost` replaced by `127.0.0.1`, an `http://` or
/// `https://` scheme removed, then leading `/` removed.
pub open spec fn normalize_address(a: Seq<char>) -> Seq<char> {
    let r = replace_all(a, "localhost"@, "127.0.0.1"@);
    let r2 = if starts_with(r, "http://"@) {
        r.skip(7)
    } else if starts_with(r, "https://"@) {
        r.skip(8)
    } else {
        r
    };
    trim_start_char(r2, '/')
}

/// The port written after the first `:` of an address, if it is a valid `u16`.
pub open spec fn address_port(n: Seq<char>) -> Option<nat> {
    match find_char(n, ':') {
        Some(i) => parse_unsigned(n.skip(i + 1), 65535),
        None => None,
    }
}

pub open spec fn set_address_spec(c: BrowserConfigView, a: Seq<char>) -> BrowserConfigView {
    let n = normalize_address(a);
    BrowserConfigView {
        address: Some(n),
        remote_debugging_port: match address_port(n) {
            Some(p) => p as u16,
            None => c.remote_debugging_port,
        },
        ..c
    }
}

fn literal_chars(s: &str) -> (v: Vec<char>)
    ensures
        v@ == s@,
{
    chars_of(s)
}

fn local_address_exec(port: u16) -> (r: String)
    ensures
        r@ == local_address(port),
{
    let mut s = String::from_str("127.0.0.1:");
    push_u64(&mut s, port as u64);
    s
}

/// The default launch arguments.
pub fn default_chrome_args() -> (r: Vec<&'static str>)
    ensures
        r@.len() == default_args_spec().len(),
        forall|i: int| 0 <= i < r@.len() ==> #[trigger] r@[i]@ == default_args_spec()[i],
{
    let r = vec![
        "--no-default-browser-check",
        "--disable-suggestions-ui",
        "--no-first-run",
        "--disable-infobars",
        "--disable-popup-blocking",
        "--hide-crash-restore-bubble",
        "--disable-features=PrivacySandboxSettings4",
        "--disable-blink-features=AutomationControlled",
        "--no-sandbox",
    ];
    r
}

impl BrowserConfig {
    /// The default launch arguments as owned strings.
    pub fn default_args() -> (r: Vec<String>)
        ensures
            r.deep_view() == default_args_spec(),
    {
        let src = default_chrome_args();
        let mut out: Vec<String> = Vec::new();
        let mut i: usize = 0;
        while i < src.len()
            invariant
                i <= src@.len(),
                src@.len() == default_args_spec().len(),
                forall|k: int| 0 <= k < src@.len() ==> #[trigger] src@[k]@ == default_args_spec()[k],
                out.deep_view() == default_args_spec().take(i as int),
            decreases src.len() - i,
        {
            let ghost old_dv = out.deep_view();
            let s = String::from_str(src[i]);
            assert(s@ == default_args_spec()[i as int]);
            out.push(s);
            assert(out.deep_view() =~= old_dv.push(s@));
            i = i + 1;
            assert(out.deep_view() =~= default_args_spec().take(i as int));
        }
        assert(default_args_spec().take(i as int) =~= default_args_spec());
        out
    }

    /// A configuration with the defaults: port 9222, no address, the default arguments.
    pub fn new() -> (r: Self)
        ensures
            r@ == default_config_spec(),
    {
        BrowserConfig {
            chrome_path: None,
            user_data_dir: None,
            headless: false,
            args: Self::default_args(),
            remote_debugging_port: 9222,
            address: None,
            tmp_path: None,
            existing_only: false,
        }
    }

    /// Sets the browser executable.
    pub fn chrome_path(self, path: &str) -> (r: Self)
        ensures
            r@ == (BrowserConfigView { chrome_path: Some(path@), ..self@ }),
    {
        BrowserConfig { chrome_path: Some(String::from_str(path)), ..self }
    }

    /// Sets the user data directory.
    pub fn user_data_dir(self, dir: &str) -> (r: Self)
        ensures
            r@ == (BrowserConfigView { user_data_dir: Some(dir@), ..self@ }),
    {
        BrowserConfig { user_data_dir: Some(String::from_str(dir)), ..self }
    }

    /// Turns headless mode on or off.
    pub fn headless(self, on: bool) -> (r: Self)
        ensures
            r@ == (BrowserConfigView { headless: on, ..self@ }),
    {
        BrowserConfig { headless: on, ..self }
    }

    /// Sets the debugging port and the address `127.0.0.1:<port>`.
    pub fn set_local_port(self, port: u16) -> (r: Self)
        ensures
            r@ == (BrowserConfigView {
                remote_debugging_port: port,
                address: Some(local_address(port)),
                ..self@
            }),
    {
        BrowserConfig {
            remote_debugging_port: port,
            address: Some(local_address_exec(port)),
            ..self
        }
    }

    /// Sets the debugging address (`127.0.0.1:9222`, `http://localhost:9222`, …); the port
    /// after the first `:` is taken over when it is a valid port.
    pub fn set_address(self, address: &str) -> (r: Self)
        ensures
            r@ == set_address_spec(self@, address@),
    {
        proof {
            reveal_strlit("localhost");
            reveal_strlit("http://");
            reveal_strlit("https://");
        }
        let v = chars_of(address);
        let replaced = replace_all_exec(&v, &literal_chars("localhost"), &literal_chars("127.0.0.1"));
        let start: usize = if range_starts_with(&replaced, 0, replaced.len(), &literal_chars("http://")) {
            7
        } else if range_starts_with(&replaced, 0, replaced.len(), &literal_chars("https://")) {
            8
        } else {
            0
        };
        assert(replaced@.subrange(0, replaced@.len() as int) =~= replaced@);
        assert(replaced@.skip(0) =~= replaced@);
        let first = skip_char(&replaced, start, '/');
        let ghost n = replaced@.skip(first as int);
        assert(n == normalize_address(address@));
        let a = string_of_range(&replaced, first, replaced.len());
        assert(replaced@.subrange(first as int, replaced@.len() as int) =~= n);
        let mut port = self.remote_debugging_port;
        match find_in_range(&replaced, first, replaced.len(), ':') {
            Some(c) => {
                assert(n.skip(c - first + 1) =~= replaced@.subrange(c + 1, replaced@.len() as int));
                match parse_unsigned_range(&replaced, c + 1, replaced.len(), 65535) {
                    Some(p) => {
                        port = p as u16;
                    },
                    None => {},
                }
            },
            None => {},
        }
        BrowserConfig { remote_debugging_port: port, address: Some(a), ..self }
    }

    /// Sets the temporary directory under which the default user data directory is made.
    pub fn tmp_path(self, path: &str) -> (r: Self)
        ensures
            r@ == (BrowserConfigView { tmp_path: Some(path@), ..self@ }),
    {
        BrowserConfig { tmp_path: Some(String::from_str(path)), ..self }
    }

    /// Only connect to a running browser, never launch one.
    pub fn existing_only(self, on: bool) -> (r: Self)
        ensures
            r@ == (BrowserConfigView { existing_only: on, ..self@ }),
    {
        BrowserConfig { existing_only: on, ..self }
    }

    /// Removes every argument that is the switch `arg_prefix` (`p` itself or `p=…`).
    pub fn remove_argument(self, arg_prefix: &str) -> (r: Self)
        ensures
            r@ == remove_argument_spec(self@, arg_prefix@),
    {
        let p = chars_of(arg_prefix);
        let mut pe = chars_of(arg_prefix);
        pe.push('=');
        let mut out: Vec<String> = Vec::new();
        let mut i: usize = 0;
        while i < self.args.len()
            invariant
                i <= self.args@.len(),
                p@ == arg_prefix@,
                pe@ == arg_prefix@.push('='),
                out.deep_view() == without_arg(self.args.deep_view().take(i as int), arg_prefix@),
            decreases self.args.len() - i,
        {
            let a = string_chars(&self.args[i]);
            let ghost dv = self.args.deep_view();
            assert(dv.take(i + 1).drop_last() =~= dv.take(i as int));
            assert(dv[i as int] == a@);
            let is_same = a.len() == p.len() && range_starts_with(&a, 0, a.len(), &p);
            assert(a@.subrange(0, a@.len() as int) =~= a@);
            assert(is_same == (a@ == p@)) by {
                if a@.len() == p@.len() && starts_with(a@, p@) {
                    assert(a@.take(p@.len() as int) =~= a@);
                }
            }
            let has_value = range_starts_with(&a, 0, a.len(), &pe);
            if !(is_same || has_value) {
                out.push(self.args[i].clone());
            }
            i = i + 1;
            assert(out.deep_view() =~= without_arg(dv.take(i as int), arg_prefix@));
        }
        assert(self.args.deep_view().take(i as int) =~= self.args.deep_view());
        BrowserConfig { args: out, ..self }
    }

    /// Adds `arg` (or `arg=value`) after removing every earlier occurrence of the switch.
    pub fn set_argument(self, arg: &str, value: Option<&str>) -> (r: Self)
        ensures
            r@ == set_argument_spec(self@, arg@, opt_str_view(value)),
    {
        let mut c = self.remove_argument(arg);
        let entry = match value {
            Some(v) => {
                let mut e = String::from_str(arg);
                string_push(&mut e, '=');
                e.append(v);
                e
            },
            None => String::from_str(arg),
        };
        let ghost before = c.args.deep_view();
        assert(entry@ == arg_entry(arg@, opt_str_view(value)));
        c.args.push(entry);
        assert(c.args.deep_view() =~= before.push(arg_entry(arg@, opt_str_view(value))));
        c
    }

    /// Replaces all launch arguments.
    pub fn args(self, args: Vec<String>) -> (r: Self)
        ensures
            r@ == (BrowserConfigView { args: args.deep_view(), ..self@ }),
    {
        BrowserConfig { args, ..self }
    }

    /// Sets the debugging port; when no address is set, also the address `127.0.0.1:<port>`.
    pub fn remote_debugging_port(self, port: u16) -> (r: Self)
        ensures
            r@ == (BrowserConfigView {
                remote_debugging_port: port,
                address: if self@.address is None {
                    Some(local_address(port))
                } else {
                    self@.address
                },
                ..self@
            }),
    {
        let address = match self.address {
            None => Some(local_address_exec(port)),
            Some(a) => Some(a),
        };
        BrowserConfig { remote_debugging_port: port, address, ..self }
    }

    /// Turns off image loading (`--blink-settings=imagesEnabled=false`), or back on.
    pub fn no_imgs(self, on: bool) -> (r: Self)
        ensures
            r@ == toggle_spec(self@, on, "--blink-settings=imagesEnabled"@, Some("false"@)),
    {
        if on {
            self.set_argument("--blink-settings=imagesEnabled", Some("false"))
        } else {
            self.remove_argument("--blink-settings=imagesEnabled")
        }
    }

    /// Mutes audio (`--mute-audio`), or not.
    pub fn mute(self, on: bool) -> (r: Self)
        ensures
            r@ == toggle_spec(self@, on, "--mute-audio"@, None),
    {
        if on {
            self.set_argument("--mute-audio", None)
        } else {
            self.remove_argument("--mute-audio")
        }
    }

    /// Private browsing (`--incognito`), or not.
    pub fn incognito(self, on: bool) -> (r: Self)
        ensures
            r@ == toggle_spec(self@, on, "--incognito"@, None),
    {
        if on {
            self.set_argument("--incognito", None)
        } else {
            self.remove_argument("--incognito")
        }
    }

    /// Ignores certificate errors (`--ignore-certificate-errors`), or not.
    pub fn ignore_certificate_errors(self, on: bool) -> (r: Self)
        ensures
            r@ == toggle_spec(self@, on, "--ignore-certificate-errors"@, None),
    {
        if on {
            self.set_argument("--ignore-certificate-errors", None)
        } else {
            self.remove_argument("--ignore-certificate-errors")
        }
    }

    /// Sets the user agent (`--user-agent=…`).
    pub fn set_user_agent(self, ua: &str) -> (r: Self)
        ensures
            r@ == set_argument_spec(self@, "--user-agent"@, Some(ua@)),
    {
        self.set_argument("--user-agent", Some(ua))
    }

    /// Sets the proxy (`--proxy-server=…`).
    pub fn set_proxy(self, proxy: &str) -> (r: Self)
        ensures
            r@ == set_argument_spec(self@, "--proxy-server"@, Some(proxy@)),
    {
        self.set_argument("--proxy-server", Some(proxy))
    }

    /// Sets the disk cache directory (`--disk-cache-dir=…`).
    pub fn set_cache_path(self, path: &str) -> (r: Self)
        ensures
            r@ == set_argument_spec(self@, "--disk-cache-dir"@, Some(path@)),
    {
        self.set_argument("--disk-cache-dir", Some(path))
    }

    /// Sets the profile directory (`--profile-directory=…`).
    pub fn set_profile_directory(self, profile: &str) -> (r: Self)
        ensures
            r@ == set_argument_spec(self@, "--profile-directory"@, Some(profile@)),
    {
        self.set_argument("--profile-directory", Some(profile))
    }

    pub fn get_chrome_path(&self) -> (r: Option<&str>)
        ensures
            opt_str_view(r) == self@.chrome_path,
    {
        match &self.chrome_path {
            Some(s) => Some(s.as_str()),
            None => None,
        }
    }

    pub fn get_user_data_dir(&self) -> (r: Option<&str>)
        ensures
            opt_str_view(r) == self@.user_data_dir,
    {
        match &self.user_data_dir {
            Some(s) => Some(s.as_str()),
            None => None,
        }
    }

    pub fn get_headless(&self) -> (r: bool)
        ensures
            r == self@.headless,
    {
        self.headless
    }

    pub fn get_args(&self) -> (r: &[String])
        ensures
            r@.map_values(|s: String| s@) == self@.args,
    {
        let r = self.args.as_slice();
        assert(r@.map_values(|s: String| s@) =~= self@.args);
        r
    }

    pub fn get_remote_debugging_port(&self) -> (r: u16)
        ensures
            r == self@.remote_debugging_port,
    {
        self.remote_debugging_port
    }

    pub fn get_address(&self) -> (r: Option<&str>)
        ensures
            opt_str_view(r) == self@.address,
    {
        match &self.address {
            Some(s) => Some(s.as_str()),
            None => None,
        }
    }

    pub fn get_tmp_path(&self) -> (r: Option<&str>)
        ensures
            opt_str_view(r) == self@.tmp_path,
    {
        match &self.tmp_path {
            Some(s) => Some(s.as_str()),
            None => None,
        }
    }

    pub fn get_existing_only(&self) -> (r: bool)
        ensures
            r == self@.existing_only,
    {
        self.existing_only
    }
}

proof fn lemma_only_without(s: Seq<Seq<char>>, p: Seq<char>)
    ensures
        only_arg(without_arg(s, p), p) == Seq::<Seq<char>>::empty(),
    decreases s.len(),
{
    if s.len() > 0 {
        lemma_only_without(s.drop_last(), p);
        let r = without_arg(s.drop_last(), p);
        if !arg_matches(s.last(), p) {
            assert(r.push(s.last()).drop_last() =~= r);
        }
    }
}

proof fn lemma_without_idem(s: Seq<Seq<char>>, p: Seq<char>)
    ensures
        without_arg(without_arg(s, p), p) == without_arg(s, p),
    decreases s.len(),
{
    if s.len() > 0 {
        lemma_without_idem(s.drop_last(), p);
        let r = without_arg(s.drop_last(), p);
        if !arg_matches(s.last(), p) {
            assert(r.push(s.last()).drop_last() =~= r);
        }
    }
}

proof fn lemma_entry_matches(arg: Seq<char>, value: Option<Seq<char>>)
    ensures
        arg_matches(arg_entry(arg, value), arg),
{
    match value {
        Some(v) => {
            assert((arg + seq!['='] + v).take(arg.len() as int + 1) =~= arg.push('='));
        },
        None => {},
    }
}

/// How many entries of `args` are exactly `x`.
pub open spec fn count_of(args: Seq<Seq<char>>, x: Seq<char>) -> nat
    decreases args.len(),
{
    if args.len() == 0 {
        0
    } else {
        count_of(args.drop_last(), x) + if args.last() == x {
            1nat
        } else {
            0nat
        }
    }
}

proof fn lemma_count_without(s: Seq<Seq<char>>, p: Seq<char>)
    ensures
        count_of(without_arg(s, p), p) == 0,
    decreases s.len(),
{
    if s.len() > 0 {
        lemma_count_without(s.drop_last(), p);
        let r = without_arg(s.drop_last(), p);
        if !arg_matches(s.last(), p) {
            assert(r.push(s.last()).drop_last() =~= r);
        }
    }
}

/// Law: a switch turned on without a value (as `mute(true)` turns on `--mute-audio`) stands
/// in the arguments exactly once, as the last entry; turning it on again changes nothing;
/// turning it off leaves no entry equal to it.
pub proof fn law_switch_on_off(c: BrowserConfigView, p: Seq<char>)
    ensures
        count_of(toggle_spec(c, true, p, None).args, p) == 1,
        toggle_spec(c, true, p, None).args.last() == p,
        toggle_spec(toggle_spec(c, true, p, None), true, p, None) == toggle_spec(c, true, p, None),
        count_of(toggle_spec(toggle_spec(c, true, p, None), false, p, None).args, p) == 0,
        count_of(toggle_spec(c, false, p, None).args, p) == 0,
{
    let w = without_arg(c.args, p);
    lemma_count_without(c.args, p);
    assert(w.push(p).drop_last() =~= w);
    law_set_argument_last_wins(c, p, None, None);
    lemma_count_without(toggle_spec(c, true, p, None).args, p);
}

/// Law: after `set_argument(arg, value)` the arguments hold exactly one entry for the switch
/// `arg`, the one just added, and it comes last.
pub proof fn law_set_argument_single(c: BrowserConfigView, arg: Seq<char>, value: Option<Seq<char>>)
    ensures
        only_arg(set_argument_spec(c, arg, value).args, arg) == seq![arg_entry(arg, value)],
        set_argument_spec(c, arg, value).args.last() == arg_entry(arg, value),
{
    let w = without_arg(c.args, arg);
    lemma_only_without(c.args, arg);
    lemma_entry_matches(arg, value);
    assert(w.push(arg_entry(arg, value)).drop_last() =~= w);
    assert(Seq::<Seq<char>>::empty().push(arg_entry(arg, value)) =~= seq![arg_entry(arg, value)]);
}

/// Law: setting the same switch twice is the same as setting it once to the second value;
/// the last `set_argument` wins.
pub proof fn law_set_argument_last_wins(
    c: BrowserConfigView,
    arg: Seq<char>,
    v1: Option<Seq<char>>,
    v2: Option<Seq<char>>,
)
    ensures
        set_argument_spec(set_argument_spec(c, arg, v1), arg, v2) == set_argument_spec(c, arg, v2),
{
    let w = without_arg(c.args, arg);
    lemma_entry_matches(arg, v1);
    assert(w.push(arg_entry(arg, v1)).drop_last() =~= w);
    lemma_without_idem(c.args, arg);
    assert(without_arg(w.push(arg_entry(arg, v1)), arg) == w);
}

/// Law: after `remove_argument(p)` no argument is the switch `p`, and removing it again
/// changes nothing.
pub proof fn law_remove_argument(c: BrowserConfigView, p: Seq<char>)
    ensures
        only_arg(remove_argument_spec(c, p).args, p) == Seq::<Seq<char>>::empty(),
        remove_argument_spec(remove_argument_spec(c, p), p) == remove_argument_spec(c, p),
{
    lemma_only_without(c.args, p);
    lemma_without_idem(c.args, p);
}

/// Law: removing a switch keeps every other argument, in order; an argument that is not the
/// switch survives.
pub proof fn law_remove_argument_keeps_others(c: BrowserConfigView, p: Seq<char>, a: Seq<char>)
    requires
        c.args.contains(a),
        !arg_matches(a, p),
    ensures
        remove_argument_spec(c, p).args.contains(a),
{
    lemma_without_keeps(c.args, p, a);
}

proof fn lemma_without_keeps(s: Seq<Seq<char>>, p: Seq<char>, a: Seq<char>)
    requires
        s.contains(a),
        !arg_matches(a, p),
    ensures
        without_arg(s, p).contains(a),
    decreases s.len(),
{
    let r = without_arg(s.drop_last(), p);
    if s.last() == a {
        assert(r.push(a)[r.len() as int] == a);
    } else {
        let k = choose|k: int| 0 <= k < s.len() && s[k] == a;
        assert(s.drop_last()[k] == a);
        lemma_without_keeps(s.drop_last(), p, a);
        if !arg_matches(s.last(), p) {
            let j = choose|j: int| 0 <= j < r.len() && r[j] == a;
            assert(r.push(s.last())[j] == a);
        }
    }
}

impl Default for BrowserConfig {
    fn default() -> (r: Self)
        ensures
            r@ == default_config_spec(),
    {
        BrowserConfig::new()
    }
}

} // verus!
