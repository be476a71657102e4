//! The browser's tabs: what the target replies say about them, which tabs a query picks,
//! which ones a close request reaches, and the browser's version record.

use crate::cdp::{CdpError, CdpErrorView, local_error, string_result_view, err_view, protocol_error};
use crate::json::{Json, array_spec, get_spec, str_of, str_spec};
use crate::text::{chars_of, contains_seq, parse_unsigned, parse_unsigned_range, str_contains, str_equal, opt_str_view};
use vstd::prelude::*;
use vstd::string::StringExecFns;

verus! {

/// The string member `key` of a reply, or the protocol error `message` when it has none.
pub open spec fn required_str(result: Json, key: Seq<char>, message: Seq<char>) -> Result<
    Seq<char>,
    CdpErrorView,
> {
    match str_spec(get_spec(result, key)) {
        Some(s) => Ok(s),
        None => Err(local_error(message)),
    }
}

/// The `targetId` of a `Target.createTarget` reply.
pub fn created_target_id(result: &Json) -> (r: Result<String, CdpError>)
    ensures
        string_result_view(r) == required_str(
            *result,
            "targetId"@,
            "Target.createTarget did not return targetId"@,
        ),
{
    match str_of(result.get("targetId")) {
        Some(s) => Ok(s),
        None => Err(protocol_error("Target.createTarget did not return targetId")),
    }
}

/// The `sessionId` of a `Target.attachToTarget` reply made for a tab.
pub fn tab_session_id(result: &Json) -> (r: Result<String, CdpError>)
    ensures
        string_result_view(r) == required_str(
            *result,
            "sessionId"@,
            "Target.attachToTarget did not return sessionId"@,
        ),
{
    match str_of(result.get("sessionId")) {
        Some(s) => Ok(s),
        None => Err(protocol_error("Target.attachToTarget did not return sessionId")),
    }
}

/// Whether a target entry describes a page.
pub open spec fn is_page_entry(info: Json) -> bool {
    str_spec(get_spec(info, "type"@)) == Some("page"@)
}

/// The page targets of a target list, in order, up to the first page entry without a
/// `targetId`; the flag tells whether such an entry stopped the scan.
pub open spec fn page_scan(list: Seq<Json>) -> (Seq<Seq<char>>, bool)
    decreases list.len(),
{
    if list.len() == 0 {
        (Seq::empty(), false)
    } else {
        let (ids, stopped) = page_scan(list.drop_last());
        let info = list.last();
        if stopped || !is_page_entry(info) {
            (ids, stopped)
        } else {
            match str_spec(get_spec(info, "targetId"@)) {
                Some(t) => (ids.push(t), false),
                None => (ids, true),
            }
        }
    }
}

/// The page targets of a `Target.getTargets` reply, to attach to one after the other: their
/// ids, and whether a page entry without an id follows the last of them (attaching stops there
/// with an error).
#[derive(Debug)]
pub struct PageTargets {
    pub ids: Vec<String>,
    pub missing_id: bool,
}

pub open spec fn strings_view(v: Seq<String>) -> Seq<Seq<char>> {
    v.map_values(|s: String| s@)
}

fn is_page_info(info: &Json) -> (r: bool)
    ensures
        r == is_page_entry(*info),
{
    match info.get("type") {
        Some(Json::Str(t)) => {
            proof {
                reveal_strlit("page");
            }
            str_equal(t.as_str(), "page")
        },
        _ => false,
    }
}

/// Reads the page targets of a `Target.getTargets` reply.
pub fn page_targets(result: &Json) -> (r: Result<PageTargets, CdpError>)
    ensures
        match array_spec(get_spec(*result, "targetInfos"@)) {
            None => err_view(r) == Err::<PageTargets, CdpErrorView>(
                local_error("Target.getTargets did not return targetInfos"@),
            ),
            Some(list) => r matches Ok(p) && (strings_view(p.ids@), p.missing_id) == page_scan(
                list,
            ),
        },
{
    let list = match result.get("targetInfos") {
        Some(Json::Array(a)) => a,
        _ => {
            return Err(protocol_error("Target.getTargets did not return targetInfos"));
        },
    };
    let mut ids: Vec<String> = Vec::new();
    let mut stopped = false;
    let mut i: usize = 0;
    while i < list.len()
        invariant
            i <= list@.len(),
            (strings_view(ids@), stopped) == page_scan(list@.take(i as int)),
        decreases list.len() - i,
    {
        assert(list@.take(i + 1).drop_last() =~= list@.take(i as int));
        let info = &list[i];
        if !stopped && is_page_info(info) {
            match str_of(info.get("targetId")) {
                Some(t) => {
                    ids.push(t);
                },
                None => {
                    stopped = true;
                },
            }
        }
        i = i + 1;
        assert(strings_view(ids@) =~= page_scan(list@.take(i as int)).0);
    }
    assert(list@.take(i as int) =~= list@);
    Ok(PageTargets { ids, missing_id: stopped })
}

/// The error of a page entry without a `targetId`.
pub fn missing_target_id() -> (r: CdpError)
    ensures
        r@ == local_error("A target entry did not include targetId"@),
{
    protocol_error("A target entry did not include targetId")
}

/// The ids of the page targets of a target list, skipping entries without one.
pub open spec fn page_ids(list: Seq<Json>) -> Seq<Seq<char>>
    decreases list.len(),
{
    if list.len() == 0 {
        Seq::empty()
    } else {
        let ids = page_ids(list.drop_last());
        let info = list.last();
        if is_page_entry(info) {
            match str_spec(get_spec(info, "targetId"@)) {
                Some(t) => ids.push(t),
                None => ids,
            }
        } else {
            ids
        }
    }
}

/// The ids of the page targets of a `Target.getTargets` reply (`tab_ids`).
pub fn tab_ids_of(result: &Json) -> (r: Result<Vec<String>, CdpError>)
    ensures
        match array_spec(get_spec(*result, "targetInfos"@)) {
            None => err_view(r) == Err::<Vec<String>, CdpErrorView>(
                local_error("Target.getTargets did not return targetInfos"@),
            ),
            Some(list) => r matches Ok(v) && strings_view(v@) == page_ids(list),
        },
{
    let list = match result.get("targetInfos") {
        Some(Json::Array(a)) => a,
        _ => {
            return Err(protocol_error("Target.getTargets did not return targetInfos"));
        },
    };
    let mut ids: Vec<String> = Vec::new();
    let mut i: usize = 0;
    while i < list.len()
        invariant
            i <= list@.len(),
            strings_view(ids@) == page_ids(list@.take(i as int)),
        decreases list.len() - i,
    {
        assert(list@.take(i + 1).drop_last() =~= list@.take(i as int));
        let info = &list[i];
        if is_page_info(info) {
            match str_of(info.get("targetId")) {
                Some(t) => {
                    ids.push(t);
                },
                None => {},
            }
        }
        i = i + 1;
        assert(strings_view(ids@) =~= page_ids(list@.take(i as int)));
    }
    assert(list@.take(i as int) =~= list@);
    Ok(ids)
}

/// The position of the newest tab among `count` tabs; an error when there is none.
pub fn latest_tab_index(count: usize) -> (r: Result<usize, CdpError>)
    ensures
        count == 0 ==> err_view(r) == Err::<usize, CdpErrorView>(
            local_error("No open tabs were found"@),
        ),
        count > 0 ==> r == Ok::<usize, CdpError>((count - 1) as usize),
{
    if count == 0 {
        Err(protocol_error("No open tabs were found"))
    } else {
        Ok(count - 1)
    }
}

/// How `get_tab` reads its first argument: a number picks a tab by its 1-based position (0
/// picks none; a position past the end picks none), anything else is searched for.
#[derive(Debug, Clone, Copy, PartialEq, Eq)]
pub enum TabPick {
    /// The 0-based position of the tab, or `None` for the number 0.
    Position(Option<usize>),
    /// Match the tabs one by one.
    Search,
}

pub open spec fn tab_pick_spec(id_or_num: Seq<char>) -> TabPick {
    match parse_unsigned(id_or_num, usize::MAX as nat) {
        Some(n) => if n == 0 {
            TabPick::Position(None)
        } else {
            TabPick::Position(Some((n - 1) as usize))
        },
        None => TabPick::Search,
    }
}

pub fn pick_tab(id_or_num: &str) -> (r: TabPick)
    ensures
        r == tab_pick_spec(id_or_num@),
{
    let v = chars_of(id_or_num);
    match parse_unsigned_range(&v, 0, v.len(), usize::MAX as u64) {
        Some(n) => {
            assert(v@.subrange(0, v@.len() as int) =~= v@);
            if n == 0 {
                TabPick::Position(None)
            } else {
                TabPick::Position(Some((n - 1) as usize))
            }
        },
        None => {
            assert(v@.subrange(0, v@.len() as int) =~= v@);
            TabPick::Search
        },
    }
}

/// Whether a tab passes the optional title, URL and type filters. `tab_title` and `tab_url`
/// are the tab's title and URL as read, `None` where reading failed; a filter that is given
/// fails on a value that could not be read. A type filter passes only for `page`.
pub open spec fn filter_spec(
    tab_title: Option<Seq<char>>,
    title: Option<Seq<char>>,
    tab_url: Option<Seq<char>>,
    url: Option<Seq<char>>,
    tab_type: Option<Seq<char>>,
) -> bool {
    &&& match title {
        Some(t) => match tab_title {
            Some(tt) => contains_seq(tt, t),
            None => false,
        },
        None => true,
    }
    &&& match url {
        Some(u) => match tab_url {
            Some(tu) => contains_seq(tu, u),
            None => false,
        },
        None => true,
    }
    &&& match tab_type {
        Some(tp) => tp == "page"@,
        None => true,
    }
}

fn contains_or_unread(value: Option<&str>, pattern: Option<&str>) -> (r: bool)
    ensures
        r == match opt_str_view(pattern) {
            Some(p) => match opt_str_view(value) {
                Some(v) => contains_seq(v, p),
                None => false,
            },
            None => true,
        },
{
    match pattern {
        Some(p) => match value {
            Some(v) => str_contains(v, p),
            None => false,
        },
        None => true,
    }
}

/// The filter of `get_tabs` (and of the search in `get_tab`).
pub fn tab_filter_matches(
    tab_title: Option<&str>,
    title: Option<&str>,
    tab_url: Option<&str>,
    url: Option<&str>,
    tab_type: Option<&str>,
) -> (r: bool)
    ensures
        r == filter_spec(
            opt_str_view(tab_title),
            opt_str_view(title),
            opt_str_view(tab_url),
            opt_str_view(url),
            opt_str_view(tab_type),
        ),
{
    let t = contains_or_unread(tab_title, title);
    let u = contains_or_unread(tab_url, url);
    let k = match tab_type {
        Some(tp) => {
            proof {
                reveal_strlit("page");
            }
            str_equal(tp, "page")
        },
        None => true,
    };
    t && u && k
}

/// Whether `get_tab`'s search picks a tab: its target id is the one asked for, or it passes
/// the filters.
pub fn get_tab_matches(
    target_id: &str,
    id_or_num: &str,
    tab_title: Option<&str>,
    title: Option<&str>,
    tab_url: Option<&str>,
    url: Option<&str>,
    tab_type: Option<&str>,
) -> (r: bool)
    ensures
        r == (target_id@ == id_or_num@ || filter_spec(
            opt_str_view(tab_title),
            opt_str_view(title),
            opt_str_view(tab_url),
            opt_str_view(url),
            opt_str_view(tab_type),
        )),
{
    if str_equal(target_id, id_or_num) {
        true
    } else {
        tab_filter_matches(tab_title, title, tab_url, url, tab_type)
    }
}

/// The tabs a close request reaches: with `others`, every open tab not named, in order;
/// otherwise the named ones, as given, and with none named the current tab (the first open
/// one), if any is open.
pub open spec fn close_spec(all: Seq<Seq<char>>, named: Seq<Seq<char>>, others: bool) -> Seq<
    Seq<char>,
> {
    if others {
        all.filter(|id: Seq<char>| !named.contains(id))
    } else if named.len() == 0 {
        all.take(if all.len() == 0 { 0int } else { 1int })
    } else {
        named
    }
}

fn named_contains(named: &[String], id: &String) -> (r: bool)
    ensures
        r == strings_view(named@).contains(id@),
{
    let mut i: usize = 0;
    while i < named.len()
        invariant
            i <= named@.len(),
            forall|k: int| 0 <= k < i ==> named@[k]@ != id@,
        decreases named.len() - i,
    {
        if str_equal(named[i].as_str(), id.as_str()) {
            assert(strings_view(named@)[i as int] == id@);
            return true;
        }
        i = i + 1;
    }
    assert forall|k: int| 0 <= k < strings_view(named@).len() implies strings_view(named@)[k]
        != id@ by {
        assert(strings_view(named@)[k] == named@[k]@);
    }
    false
}

/// The ids of the tabs `close_tabs` closes.
pub fn tabs_to_close(all: &Vec<String>, named: &[String], others: bool) -> (r: Vec<String>)
    ensures
        strings_view(r@) == close_spec(strings_view(all@), strings_view(named@), others),
{
    let mut out: Vec<String> = Vec::new();
    if others {
        let ghost keep = |id: Seq<char>| !strings_view(named@).contains(id);
        let mut i: usize = 0;
        while i < all.len()
            invariant
                i <= all@.len(),
                keep == (|id: Seq<char>| !strings_view(named@).contains(id)),
                strings_view(out@) == strings_view(all@).take(i as int).filter(keep),
            decreases all.len() - i,
        {
            let ghost before = strings_view(all@).take(i as int);
            assert(strings_view(all@).take(i + 1) =~= before.push(all@[i as int]@));
            proof {
                before.lemma_filter_push(all@[i as int]@, keep);
            }
            if !named_contains(named, &all[i]) {
                out.push(all[i].clone());
            }
            i = i + 1;
            assert(strings_view(out@) =~= strings_view(all@).take(i as int).filter(keep));
        }
        assert(strings_view(all@).take(i as int) =~= strings_view(all@));
        out
    } else if named.len() == 0 {
        if all.len() > 0 {
            out.push(all[0].clone());
            assert(strings_view(out@) =~= strings_view(all@).take(1));
        } else {
            assert(strings_view(out@) =~= strings_view(all@).take(0));
        }
        out
    } else {
        let mut i: usize = 0;
        while i < named.len()
            invariant
                i <= named@.len(),
                strings_view(out@) == strings_view(named@).take(i as int),
            decreases named.len() - i,
        {
            let x = named[i].clone();
            let ghost prev = out@;
            out.push(x);
            assert(strings_view(out@) =~= strings_view(prev).push(named@[i as int]@));
            assert(strings_view(named@).take(i + 1) =~= strings_view(named@).take(i as int).push(
                named@[i as int]@,
            ));
            i = i + 1;
            assert(strings_view(out@) =~= strings_view(named@).take(i as int));
        }
        assert(strings_view(named@).take(i as int) =~= strings_view(named@));
        out
    }
}

/// Closing "the others" never reaches a named tab, and reaches every open tab that is not
/// named.
pub proof fn law_close_others(all: Seq<Seq<char>>, named: Seq<Seq<char>>)
    ensures
        forall|id: Seq<char>| #[trigger] close_spec(all, named, true).contains(id) <==> (all.contains(id)
            && !named.contains(id)),
{
    let keep = |id: Seq<char>| !named.contains(id);
    assert forall|id: Seq<char>| #[trigger] close_spec(all, named, true).contains(id) <==> (
    all.contains(id) && !named.contains(id)) by {
        let f = all.filter(keep);
        if f.contains(id) {
            all.lemma_filter_contains_rev(keep, id);
            let j = choose|j: int| 0 <= j < f.len() && f[j] == id;
            all.lemma_filter_pred(keep, j);
        }
        if all.contains(id) && !named.contains(id) {
            let k = choose|k: int| 0 <= k < all.len() && all[k] == id;
            all.lemma_filter_contains(keep, k);
        }
    }
}

/// The browser's `/json/version` record as read: each field may be absent.
#[derive(Debug)]
pub struct JsonVersion {
    pub browser: Option<String>,
    pub protocol_version: Option<String>,
    pub user_agent: Option<String>,
    pub web_socket_debugger_url: Option<String>,
}

/// Browser version information (from `/json/version`).
#[derive(Debug, Clone)]
pub struct BrowserVersion {
    pub browser: String,
    pub protocol_version: String,
    pub user_agent: String,
    pub web_socket_debugger_url: String,
}

pub open spec fn or_empty(o: Option<String>) -> Seq<char> {
    match o {
        Some(s) => s@,
        None => Seq::empty(),
    }
}

fn or_empty_exec(o: Option<String>) -> (r: String)
    ensures
        r@ == or_empty(o),
{
    match o {
        Some(s) => s,
        None => String::new(),
    }
}

/// The version record with every absent field empty.
pub fn browser_version(v: JsonVersion) -> (r: BrowserVersion)
    ensures
        r.browser@ == or_empty(v.browser),
        r.protocol_version@ == or_empty(v.protocol_version),
        r.user_agent@ == or_empty(v.user_agent),
        r.web_socket_debugger_url@ == or_empty(v.web_socket_debugger_url),
{
    BrowserVersion {
        browser: or_empty_exec(v.browser),
        protocol_version: or_empty_exec(v.protocol_version),
        user_agent: or_empty_exec(v.user_agent),
        web_socket_debugger_url: or_empty_exec(v.web_socket_debugger_url),
    }
}

/// The browser's WebSocket URL from its version record; an HTTP error when it is absent.
pub fn ws_url_of(v: JsonVersion) -> (r: Result<String, CdpError>)
    ensures
        match v.web_socket_debugger_url {
            Some(u) => r matches Ok(x) && x@ == u@,
            None => err_view(r) == Err::<String, CdpErrorView>(
                CdpErrorView::Http(
                    "The /json/version response did not include webSocketDebuggerUrl"@,
                ),
            ),
        },
{
    match v.web_socket_debugger_url {
        Some(u) => Ok(u),
        None => Err(
            CdpError::Http(
                String::from_str("The /json/version response did not include webSocketDebuggerUrl"),
            ),
        ),
    }
}

/// Whether an HTTP status is a success (2xx).
pub fn is_success_status(status: u16) -> (r: bool)
    ensures
        r == (200 <= status && status < 300),
{
    200 <= status && status < 300
}

/// `s` without its trailing `/` characters.
pub open spec fn trim_end_slashes(s: Seq<char>) -> Seq<char>
    decreases s.len(),
{
    if s.len() > 0 && s.last() == '/' {
        trim_end_slashes(s.drop_last())
    } else {
        s
    }
}

/// The endpoint a browser's version record is read from: the one the browser was reached
/// by, else the default local one.
pub fn version_endpoint(known: Option<&str>) -> (r: &str)
    ensures
        r@ == match known {
            Some(e) => e@,
            None => "http://127.0.0.1:9222"@,
        },
{
    match known {
        Some(e) => e,
        None => "http://127.0.0.1:9222",
    }
}

/// The version URL of a debugging endpoint: `<endpoint without trailing slashes>/json/version`.
pub fn version_url(endpoint: &str) -> (r: String)
    ensures
        r@ == trim_end_slashes(endpoint@) + "/json/version"@,
{
    let v = chars_of(endpoint);
    let mut end: usize = v.len();
    assert(v@.take(end as int) =~= v@);
    while end > 0 && v[end - 1] == '/'
        invariant
            end <= v@.len(),
            trim_end_slashes(v@) == trim_end_slashes(v@.take(end as int)),
        decreases end,
    {
        assert(v@.take(end as int).drop_last() =~= v@.take(end - 1));
        end = end - 1;
    }
    let mut s = crate::text::string_of_range(&v, 0, end);
    assert(s@ =~= v@.take(end as int));
    s.append("/json/version");
    s
}


/// Law: a URL filter alone passes a tab exactly when the tab's URL, as read, holds the filter
/// text somewhere in it; a tab whose URL could not be read never passes.
pub proof fn law_url_filter_is_a_substring_match(tab_url: Option<Seq<char>>, url: Seq<char>)
    ensures
        filter_spec(None, None, tab_url, Some(url), None) <==> (tab_url matches Some(tu) && exists|i: int|
            0 <= i && i + url.len() <= tu.len() && #[trigger] tu.subrange(i, i + url.len()) == url),
{
}

/// Law: any part of a tab's URL (its host, say) passes the URL filter for that tab, and so does
/// the empty text.
pub proof fn law_url_filter_passes_any_part(tab_url: Seq<char>, i: int, j: int)
    requires
        0 <= i <= j <= tab_url.len(),
    ensures
        filter_spec(None, None, Some(tab_url), Some(tab_url.subrange(i, j)), None),
        filter_spec(None, None, Some(tab_url), Some(Seq::empty()), None),
{
    assert(tab_url.subrange(i, i + tab_url.subrange(i, j).len()) =~= tab_url.subrange(i, j));
    let e = Seq::<char>::empty();
    assert(tab_url.subrange(0int, 0int + e.len()) =~= e);
}

/// Law: a title filter alone passes a tab exactly when the tab's title holds the filter text.
pub proof fn law_title_filter_is_a_substring_match(tab_title: Option<Seq<char>>, title: Seq<char>)
    ensures
        filter_spec(tab_title, Some(title), None, None, None) <==> (tab_title matches Some(tt) && exists|i: int|
            0 <= i && i + title.len() <= tt.len() && #[trigger] tt.subrange(i, i + title.len()) == title),
{
}


/// Law: the filters combine by "and": a tab passes when it passes each filter given, each on
/// its own; a type filter passes only the type `page`.
pub proof fn law_filters_combine(
    tab_title: Option<Seq<char>>,
    title: Option<Seq<char>>,
    tab_url: Option<Seq<char>>,
    url: Option<Seq<char>>,
    tab_type: Option<Seq<char>>,
)
    ensures
        filter_spec(tab_title, title, tab_url, url, tab_type) <==> (filter_spec(
            tab_title,
            title,
            None,
            None,
            None,
        ) && filter_spec(None, None, tab_url, url, None) && filter_spec(None, None, None, None, tab_type)),
        filter_spec(None, None, None, None, tab_type) <==> (tab_type is None || tab_type == Some(
            "page"@,
        )),
        filter_spec(None, None, None, None, None),
{
}

} // verus!
