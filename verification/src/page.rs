//! What a tab makes of the browser's replies: navigation outcomes, history moves, cookies,
//! screenshots and storage, and the parameters and scripts it sends.

use crate::cdp::{CdpError, CdpErrorView, err_view, local_error};
use crate::json::{
    Json, array_spec, get_spec, i64_of, i64_spec, json_quote, is_str, key, keys_of, lemma_members_get_at, opt_ref,
    str_of, str_spec, to_json_string, u64_of, u64_spec,
};
use crate::listener::{base64_standard_decode, decode_base64, decode_error_text};
use crate::text::{dec_int, push_i64, opt_string_view};
use vstd::prelude::*;
use vstd::string::StringExecFns;

verus! {

/// A cookie.
#[derive(Debug, Clone)]
pub struct Cookie {
    pub name: String,
    pub value: String,
    pub domain: Option<String>,
    pub path: Option<String>,
}

/// A string member when the object has one, or the empty string.
pub open spec fn text_or_empty(j: Option<Json>) -> Seq<char> {
    match str_spec(j) {
        Some(s) => s,
        None => Seq::empty(),
    }
}

fn text_or_empty_of(j: Option<&Json>) -> (r: String)
    ensures
        r@ == text_or_empty(opt_ref(j)),
{
    match str_of(j) {
        Some(s) => s,
        None => String::new(),
    }
}

/// The outcome of `Page.navigate`: an error when the reply carries a non-empty `errorText`.
pub fn navigate_outcome(result: &Json) -> (r: Result<(), CdpError>)
    ensures
        match str_spec(get_spec(*result, "errorText"@)) {
            Some(t) => if t.len() > 0 {
                err_view(r) == Err::<(), CdpErrorView>(
                    local_error("Page.navigate failed: "@ + t),
                )
            } else {
                r is Ok
            },
            None => r is Ok,
        },
{
    match result.get("errorText") {
        Some(Json::Str(t)) => {
            if t.as_str().is_empty() {
                Ok(())
            } else {
                let mut m = String::from_str("Page.navigate failed: ");
                m.append(t.as_str());
                Err(CdpError::Protocol { id: None, code: -1, message: m })
            }
        },
        _ => Ok(()),
    }
}

/// The history entry to go to from `Page.getNavigationHistory`: the previous entry (going
/// back) or the next one (going forward) of `currentIndex` (0 when absent); `None` when there
/// is none to go to. Errors when `entries` is missing, or the chosen entry has no `id`.
pub open spec fn history_entry_spec(result: Json, forward: bool) -> Result<Option<i64>, CdpErrorView> {
    match array_spec(get_spec(result, "entries"@)) {
        None => Err(local_error("No navigation history is available"@)),
        Some(entries) => {
            let current: int = match u64_spec(get_spec(result, "currentIndex"@)) {
                Some(n) => n as int,
                None => 0,
            };
            if !forward {
                if current == 0 {
                    Ok(None)
                } else {
                    let target = current - 1;
                    match (if target < entries.len() {
                        i64_spec(get_spec(entries[target], "id"@))
                    } else {
                        None
                    }) {
                        Some(id) => Ok(Some(id)),
                        None => Err(
                            local_error("No previous page is available in the navigation history"@),
                        ),
                    }
                }
            } else {
                if current + 1 >= entries.len() {
                    Ok(None)
                } else {
                    match i64_spec(get_spec(entries[current + 1], "id"@)) {
                        Some(id) => Ok(Some(id)),
                        None => Err(
                            local_error("No next page is available in the navigation history"@),
                        ),
                    }
                }
            }
        },
    }
}

/// Chooses the history entry for going back or forward.
pub fn history_entry(result: &Json, forward: bool) -> (r: Result<Option<i64>, CdpError>)
    ensures
        err_view(r) == history_entry_spec(*result, forward),
{
    let entries = match result.get("entries") {
        Some(Json::Array(a)) => a,
        _ => {
            return Err(
                CdpError::Protocol {
                    id: None,
                    code: -1,
                    message: String::from_str("No navigation history is available"),
                },
            );
        },
    };
    let current: u64 = match u64_of(result.get("currentIndex")) {
        Some(n) => n,
        None => 0,
    };
    if !forward {
        if current == 0 {
            return Ok(None);
        }
        let target = current - 1;
        let id = if target < entries.len() as u64 {
            i64_of(entries[target as usize].get("id"))
        } else {
            None
        };
        match id {
            Some(id) => Ok(Some(id)),
            None => Err(
                CdpError::Protocol {
                    id: None,
                    code: -1,
                    message: String::from_str(
                        "No previous page is available in the navigation history",
                    ),
                },
            ),
        }
    } else {
        if current >= entries.len() as u64 || current + 1 >= entries.len() as u64 {
            return Ok(None);
        }
        match i64_of(entries[(current + 1) as usize].get("id")) {
            Some(id) => Ok(Some(id)),
            None => Err(
                CdpError::Protocol {
                    id: None,
                    code: -1,
                    message: String::from_str("No next page is available in the navigation history"),
                },
            ),
        }
    }
}

/// The string `value` of an evaluation result, or the empty string (title, URL, HTML).
pub fn value_text(result: &Json) -> (r: String)
    ensures
        r@ == text_or_empty(get_spec(*result, "value"@)),
{
    text_or_empty_of(result.get("value"))
}

/// The cookies of a `Network.getCookies` reply: every entry with string `name` and `value`,
/// in order, with its string `domain` and `path` when present.
pub open spec fn cookies_spec(list: Seq<Json>) -> Seq<(Seq<char>, Seq<char>, Option<Seq<char>>, Option<Seq<char>>)>
    decreases list.len(),
{
    if list.len() == 0 {
        Seq::empty()
    } else {
        let r = cookies_spec(list.drop_last());
        let c = list.last();
        match (str_spec(get_spec(c, "name"@)), str_spec(get_spec(c, "value"@))) {
            (Some(n), Some(v)) => r.push(
                (n, v, str_spec(get_spec(c, "domain"@)), str_spec(get_spec(c, "path"@))),
            ),
            _ => r,
        }
    }
}

pub open spec fn cookie_view(c: Cookie) -> (Seq<char>, Seq<char>, Option<Seq<char>>, Option<Seq<char>>) {
    (c.name@, c.value@, opt_string_view(c.domain), opt_string_view(c.path))
}

/// Reads the cookies of a `Network.getCookies` reply.
pub fn cookies_of(result: &Json) -> (r: Result<Vec<Cookie>, CdpError>)
    ensures
        match array_spec(get_spec(*result, "cookies"@)) {
            None => err_view(r) == Err::<Vec<Cookie>, CdpErrorView>(
                local_error("Network.getCookies did not return any cookies"@),
            ),
            Some(list) => r matches Ok(cs) && cs@.map_values(|c: Cookie| cookie_view(c))
                == cookies_spec(list),
        },
{
    let list = match result.get("cookies") {
        Some(Json::Array(a)) => a,
        _ => {
            return Err(
                CdpError::Protocol {
                    id: None,
                    code: -1,
                    message: String::from_str("Network.getCookies did not return any cookies"),
                },
            );
        },
    };
    let mut out: Vec<Cookie> = Vec::new();
    let mut i: usize = 0;
    while i < list.len()
        invariant
            i <= list@.len(),
            out@.map_values(|c: Cookie| cookie_view(c)) == cookies_spec(list@.take(i as int)),
        decreases list.len() - i,
    {
        assert(list@.take(i + 1).drop_last() =~= list@.take(i as int));
        let c = &list[i];
        match (str_of(c.get("name")), str_of(c.get("value"))) {
            (Some(name), Some(value)) => {
                let domain = str_of(c.get("domain"));
                let path = str_of(c.get("path"));
                out.push(Cookie { name, value, domain, path });
            },
            _ => {},
        }
        i = i + 1;
        assert(out@.map_values(|c: Cookie| cookie_view(c)) =~= cookies_spec(list@.take(i as int)));
    }
    assert(list@.take(i as int) =~= list@);
    Ok(out)
}


/// Parameters of `Network.setCookie`: name and value, then `url`, `domain` and `path` when given.
pub fn set_cookie_params(cookie: &Cookie, url: Option<&str>) -> (r: Json)
    ensures
        is_str(get_spec(r, "name"@), cookie.name@),
        is_str(get_spec(r, "value"@), cookie.value@),
        keys_of(r) == seq!["name"@, "value"@] + (if url is Some {
            seq!["url"@]
        } else {
            Seq::empty()
        }) + (if cookie.domain is Some {
            seq!["domain"@]
        } else {
            Seq::empty()
        }) + (if cookie.path is Some {
            seq!["path"@]
        } else {
            Seq::empty()
        }),
        url matches Some(u) ==> is_str(get_spec(r, "url"@), u@),
        cookie.domain matches Some(d) ==> is_str(get_spec(r, "domain"@), d@),
        cookie.path matches Some(p) ==> is_str(get_spec(r, "path"@), p@),
{
    let mut ms: Vec<(String, Json)> = Vec::new();
    ms.push((key("name"), Json::Str(cookie.name.clone())));
    ms.push((key("value"), Json::Str(cookie.value.clone())));
    match url {
        Some(u) => {
            ms.push((key("url"), Json::Str(String::from_str(u))));
        },
        None => {},
    }
    match &cookie.domain {
        Some(d) => {
            ms.push((key("domain"), Json::Str(d.clone())));
        },
        None => {},
    }
    match &cookie.path {
        Some(p) => {
            ms.push((key("path"), Json::Str(p.clone())));
        },
        None => {},
    }
    proof {
        reveal_strlit("name");
        reveal_strlit("value");
        reveal_strlit("url");
        reveal_strlit("domain");
        reveal_strlit("path");
        let m = ms@;
        assert("name"@.len() == 4 && "value"@.len() == 5 && "url"@.len() == 3);
        assert("domain"@.len() == 6 && "path"@.len() == 4);
        assert("name"@[0] == 'n' && "path"@[0] == 'p');
        assert(m[0].0@ == "name"@ && m[1].0@ == "value"@);
        lemma_members_get_at(m, "name"@, 0);
        lemma_members_get_at(m, "value"@, 1);
        let mut at: int = 2;
        if url is Some {
            lemma_members_get_at(m, "url"@, at);
            at = at + 1;
        }
        if cookie.domain is Some {
            lemma_members_get_at(m, "domain"@, at);
            at = at + 1;
        }
        if cookie.path is Some {
            lemma_members_get_at(m, "path"@, at);
        }
    }
    let r = Json::Object(ms);
    assert(keys_of(r) =~= seq!["name"@, "value"@] + (if url is Some {
        seq!["url"@]
    } else {
        Seq::empty()
    }) + (if cookie.domain is Some {
        seq!["domain"@]
    } else {
        Seq::empty()
    }) + (if cookie.path is Some {
        seq!["path"@]
    } else {
        Seq::empty()
    }));
    r
}

/// Parameters of `Network.deleteCookies`: the name, and the URL when given.
pub fn delete_cookie_params(name: &str, url: Option<&str>) -> (r: Json)
    ensures
        is_str(get_spec(r, "name"@), name@),
        keys_of(r) == seq!["name"@] + (if url is Some {
            seq!["url"@]
        } else {
            Seq::empty()
        }),
        url matches Some(u) ==> is_str(get_spec(r, "url"@), u@),
{
    let mut ms: Vec<(String, Json)> = Vec::new();
    ms.push((key("name"), Json::Str(String::from_str(name))));
    match url {
        Some(u) => {
            ms.push((key("url"), Json::Str(String::from_str(u))));
        },
        None => {},
    }
    proof {
        reveal_strlit("name");
        reveal_strlit("url");
        assert(ms@[0].0@ == "name"@ && "name"@.len() == 4 && "url"@.len() == 3);
        lemma_members_get_at(ms@, "name"@, 0);
        if url is Some {
            lemma_members_get_at(ms@, "url"@, 1);
        }
    }
    let r = Json::Object(ms);
    assert(keys_of(r) =~= seq!["name"@] + (if url is Some {
        seq!["url"@]
    } else {
        Seq::empty()
    }));
    r
}

/// Parameters of `Network.getCookies`: `{"urls": [...]}` when URLs are given, else `{}`.
pub fn cookies_params(urls: Option<&Vec<String>>) -> (r: Json)
    ensures
        match urls {
            Some(u) => {
                &&& keys_of(r) == seq!["urls"@]
                &&& get_spec(r, "urls"@) matches Some(Json::Array(a))
                &&& a@.len() == u@.len()
                &&& forall|i: int| 0 <= i < u@.len() ==> is_str(Some(#[trigger] a@[i]), u@[i]@)
            },
            None => keys_of(r).len() == 0 && r is Object,
        },
{
    match urls {
        Some(u) => {
            let mut a: Vec<Json> = Vec::new();
            let mut i: usize = 0;
            while i < u.len()
                invariant
                    i <= u@.len(),
                    a@.len() == i,
                    forall|k: int| 0 <= k < i ==> is_str(Some(#[trigger] a@[k]), u@[k]@),
                decreases u.len() - i,
            {
                a.push(Json::Str(u[i].clone()));
                i = i + 1;
            }
            let mut ms: Vec<(String, Json)> = Vec::new();
            ms.push((key("urls"), Json::Array(a)));
            proof {
                reveal_strlit("urls");
            }
            let r = Json::Object(ms);
            assert(keys_of(r) =~= seq!["urls"@]);
            r
        },
        None => {
            let r = Json::Object(Vec::new());
            assert(keys_of(r) =~= Seq::<Seq<char>>::empty());
            r
        },
    }
}

/// Parameters of `Page.handleJavaScriptDialog`: accept or dismiss, with the prompt text
/// (empty when none is given).
pub fn dialog_params(accept: bool, prompt_text: Option<&str>) -> (r: Json)
    ensures
        keys_of(r) == seq!["accept"@, "promptText"@],
        get_spec(r, "accept"@) == Some(Json::Bool(accept)),
        is_str(get_spec(r, "promptText"@), match prompt_text {
            Some(p) => p@,
            None => Seq::empty(),
        }),
{
    let text = match prompt_text {
        Some(p) => String::from_str(p),
        None => String::new(),
    };
    let mut ms: Vec<(String, Json)> = Vec::new();
    ms.push((key("accept"), Json::Bool(accept)));
    ms.push((key("promptText"), Json::Str(text)));
    proof {
        reveal_strlit("accept");
        reveal_strlit("promptText");
        assert(ms@[0].0@ == "accept"@ && "accept"@.len() == 6 && "promptText"@.len() == 10);
        lemma_members_get_at(ms@, "accept"@, 0);
        lemma_members_get_at(ms@, "promptText"@, 1);
    }
    let r = Json::Object(ms);
    assert(keys_of(r) =~= seq!["accept"@, "promptText"@]);
    r
}

/// The image of a `Page.captureScreenshot` reply: its base64 `data`, decoded.
pub fn screenshot_data(result: &Json) -> (r: Result<Vec<u8>, CdpError>)
    ensures
        match str_spec(get_spec(*result, "data"@)) {
            None => err_view(r) == Err::<Vec<u8>, CdpErrorView>(
                local_error("Page.captureScreenshot did not return image data"@),
            ),
            Some(d) => match base64_standard_decode(d) {
                Some(bytes) => r matches Ok(v) && v@ == bytes,
                None => r matches Err(e) && e@ matches CdpErrorView::Protocol { id, code, message }
                    && id is None && code == -1 && message.len() >= 30 && message.take(30)
                    == "Failed to decode base64 data: "@,
            },
        },
{
    let data = match result.get("data") {
        Some(Json::Str(d)) => d,
        _ => {
            return Err(
                CdpError::Protocol {
                    id: None,
                    code: -1,
                    message: String::from_str("Page.captureScreenshot did not return image data"),
                },
            );
        },
    };
    match decode_base64(data.as_str()) {
        Ok(v) => Ok(v),
        Err(e) => {
            let mut m = String::from_str("Failed to decode base64 data: ");
            proof {
                reveal_strlit("Failed to decode base64 data: ");
            }
            let ghost head = m@;
            m.append(decode_error_text(&e).as_str());
            assert(m@.take(30) =~= head);
            Err(CdpError::Protocol { id: None, code: -1, message: m })
        },
    }
}

/// The endpoint a listener connects to; an error when the tab does not know its browser's.
pub fn listener_endpoint(endpoint: Option<&str>) -> (r: Result<String, CdpError>)
    ensures
        match endpoint {
            Some(e) => r matches Ok(x) && x@ == e@,
            None => err_view(r) == Err::<String, CdpErrorView>(
                local_error(
                    "Unable to start the listener because browser_endpoint is missing. Get the Page from Browser::new_tab or Browser::tabs first."@,
                ),
            ),
        },
{
    match endpoint {
        Some(e) => Ok(String::from_str(e)),
        None => Err(
            CdpError::Protocol {
                id: None,
                code: -1,
                message: String::from_str(
                    "Unable to start the listener because browser_endpoint is missing. Get the Page from Browser::new_tab or Browser::tabs first.",
                ),
            },
        ),
    }
}

/// `window.scrollTo(x, y); window.scrollX; window.scrollY;`
pub fn scroll_to_script(x: i64, y: i64) -> (r: String)
    ensures
        r@ == "window.scrollTo("@ + dec_int(x as int) + ", "@ + dec_int(y as int)
            + "); window.scrollX; window.scrollY;"@,
{
    let mut s = String::from_str("window.scrollTo(");
    push_i64(&mut s, x);
    s.append(", ");
    push_i64(&mut s, y);
    s.append("); window.scrollX; window.scrollY;");
    s
}

/// `window.scrollBy(dx, dy); window.scrollX; window.scrollY;`
pub fn scroll_by_script(delta_x: i64, delta_y: i64) -> (r: String)
    ensures
        r@ == "window.scrollBy("@ + dec_int(delta_x as int) + ", "@ + dec_int(delta_y as int)
            + "); window.scrollX; window.scrollY;"@,
{
    let mut s = String::from_str("window.scrollBy(");
    push_i64(&mut s, delta_x);
    s.append(", ");
    push_i64(&mut s, delta_y);
    s.append("); window.scrollX; window.scrollY;");
    s
}

/// The two web storages of a page.
#[derive(Debug, Clone, Copy, PartialEq, Eq)]
pub enum Storage {
    Session,
    Local,
}

pub open spec fn storage_name(k: Storage) -> Seq<char> {
    match k {
        Storage::Session => "sessionStorage"@,
        Storage::Local => "localStorage"@,
    }
}

fn storage_name_exec(k: Storage) -> (r: &'static str)
    ensures
        r@ == storage_name(k),
{
    match k {
        Storage::Session => "sessionStorage",
        Storage::Local => "localStorage",
    }
}

/// The script that reads a storage: one item by its key, given as a JSON string literal, or
/// all items as a JSON object.
pub open spec fn storage_get_script_spec(k: Storage, key: Option<Seq<char>>) -> Seq<char> {
    match key {
        Some(key) => storage_name(k) + ".getItem("@ + json_quote(key) + ");"@,
        None => "JSON.stringify(Object.keys("@ + storage_name(k)
            + ").reduce((acc,k) => { acc[k] = "@ + storage_name(k)
            + ".getItem(k); return acc; }, {}));"@,
    }
}

pub fn storage_get_script(k: Storage, key: Option<&str>) -> (r: Result<String, CdpError>)
    ensures
        r matches Ok(s) && s@ == storage_get_script_spec(k, match key {
            Some(x) => Some(x@),
            None => None,
        }),
{
    match key {
        Some(x) => {
            let q = match to_json_string(x) {
                Ok(q) => q,
                Err(e) => {
                    return Err(CdpError::Json(e));
                },
            };
            let mut s = String::from_str(storage_name_exec(k));
            s.append(".getItem(");
            s.append(q.as_str());
            s.append(");");
            Ok(s)
        },
        None => {
            let mut s = String::from_str("JSON.stringify(Object.keys(");
            s.append(storage_name_exec(k));
            s.append(").reduce((acc,k) => { acc[k] = ");
            s.append(storage_name_exec(k));
            s.append(".getItem(k); return acc; }, {}));");
            Ok(s)
        },
    }
}

/// What a storage read gives: nothing when the value is absent or the text `null`.
pub fn storage_value(result: &Json) -> (r: Option<String>)
    ensures
        ({
            let v = match str_spec(get_spec(*result, "value"@)) {
                Some(s) => s,
                None => "null"@,
            };
            if v == "null"@ {
                r is None
            } else {
                r matches Some(x) && x@ == v
            }
        }),
{
    match str_of(result.get("value")) {
        Some(s) => {
            if crate::text::str_equal(s.as_str(), "null") {
                None
            } else {
                Some(s)
            }
        },
        None => None,
    }
}

/// `<storage>.setItem(<key>, <value>); null` with key and value as JSON literals.
pub fn storage_set_script(k: Storage, key: &str, value: &str) -> (r: Result<String, CdpError>)
    ensures
        r matches Ok(s) && s@ == storage_name(k) + ".setItem("@ + json_quote(key@) + ", "@
            + json_quote(value@) + "); null"@,
{
    let kq = match to_json_string(key) {
        Ok(q) => q,
        Err(e) => {
            return Err(CdpError::Json(e));
        },
    };
    let vq = match to_json_string(value) {
        Ok(q) => q,
        Err(e) => {
            return Err(CdpError::Json(e));
        },
    };
    let mut s = String::from_str(storage_name_exec(k));
    s.append(".setItem(");
    s.append(kq.as_str());
    s.append(", ");
    s.append(vq.as_str());
    s.append("); null");
    Ok(s)
}

/// `<storage>.removeItem('<key>'); null` (the key inserted as it is), or `<storage>.clear(); null`.
pub fn storage_delete_script(k: Storage, key: Option<&str>) -> (r: String)
    ensures
        r@ == match key {
            Some(x) => storage_name(k) + ".removeItem('"@ + x@ + "'); null"@,
            None => storage_name(k) + ".clear(); null"@,
        },
{
    let mut s = String::from_str(storage_name_exec(k));
    match key {
        Some(x) => {
            s.append(".removeItem('");
            s.append(x);
            s.append("'); null");
        },
        None => {
            s.append(".clear(); null");
        },
    }
    s
}

/// One step of clearing a page's caches.
#[derive(Debug, Clone, Copy, PartialEq, Eq)]
pub enum ClearStep {
    /// Clear the session storage; a failure is ignored.
    SessionStorage,
    /// Clear the local storage; a failure is ignored.
    LocalStorage,
    /// `Network.clearBrowserCookies`; a failure is ignored.
    Cookies,
    /// `Network.clearBrowserCache`; a failure is reported.
    Cache,
}

/// The steps of `clear_cache`, in order, for the parts asked for.
pub fn clear_cache_steps(session: bool, local: bool, cookies: bool, cache: bool) -> (r: Vec<
    ClearStep,
>)
    ensures
        r@ == (if session {
            seq![ClearStep::SessionStorage]
        } else {
            Seq::empty()
        }) + (if local {
            seq![ClearStep::LocalStorage]
        } else {
            Seq::empty()
        }) + (if cookies {
            seq![ClearStep::Cookies]
        } else {
            Seq::empty()
        }) + (if cache {
            seq![ClearStep::Cache]
        } else {
            Seq::empty()
        }),
{
    let mut r: Vec<ClearStep> = Vec::new();
    if session {
        r.push(ClearStep::SessionStorage);
    }
    if local {
        r.push(ClearStep::LocalStorage);
    }
    if cookies {
        r.push(ClearStep::Cookies);
    }
    if cache {
        r.push(ClearStep::Cache);
    }
    assert(r@ =~= (if session {
        seq![ClearStep::SessionStorage]
    } else {
        Seq::empty()
    }) + (if local {
        seq![ClearStep::LocalStorage]
    } else {
        Seq::empty()
    }) + (if cookies {
        seq![ClearStep::Cookies]
    } else {
        Seq::empty()
    }) + (if cache {
        seq![ClearStep::Cache]
    } else {
        Seq::empty()
    }));
    r
}


/// Law: going forward from entry `c` goes to entry `c + 1`, the next one, when there is one,
/// and nowhere when `c` is the last; going back from entry `c > 0` goes to entry `c - 1`, and
/// nowhere from the first.
pub proof fn law_history_moves_one_entry(result: Json, entries: Seq<Json>, c: u64)
    requires
        array_spec(get_spec(result, "entries"@)) == Some(entries),
        u64_spec(get_spec(result, "currentIndex"@)) == Some(c),
    ensures
        c + 1 < entries.len() ==> match i64_spec(get_spec(entries[c + 1], "id"@)) {
            Some(id) => history_entry_spec(result, true) == Ok::<Option<i64>, CdpErrorView>(Some(id)),
            None => history_entry_spec(result, true) is Err,
        },
        c + 1 >= entries.len() ==> history_entry_spec(result, true) == Ok::<Option<i64>, CdpErrorView>(None),
        0 < c <= entries.len() ==> match i64_spec(get_spec(entries[c - 1], "id"@)) {
            Some(id) => history_entry_spec(result, false) == Ok::<Option<i64>, CdpErrorView>(Some(id)),
            None => history_entry_spec(result, false) is Err,
        },
        c == 0 ==> history_entry_spec(result, false) == Ok::<Option<i64>, CdpErrorView>(None),
{
}

} // verus!
