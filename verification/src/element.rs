//! What an element runs on itself and what it makes of the answers: the functions called on
//! the element's object, the reads of their results, and the decisions taken when the
//! element's node or object has gone stale.

use crate::cdp::{CdpError, CdpErrorView, local_error, err_view};
use crate::dom::{no_node_spec, object_invalid_spec, is_no_node_error, is_object_invalid_error, quoted_in};
use crate::json::{
    Json, bool_spec, get_spec, is_str, json_quote, key, keys_of, lemma_members_get_at,
    str_spec, string_members, string_pairs, take_member,
};
use crate::text::{dec_int, dec_nat, push_i64, push_u64, str_equal};
use vstd::prelude::*;
use vstd::string::StringExecFns;

verus! {

// ---------- functions called on the element ----------

/// The function that finds the first match of a selector (its argument) under the element.
pub fn child_query_function() -> (r: &'static str)
    ensures
        r@ == "function(sel){ try { return this.querySelector(sel); } catch(e) { return null; } }"@,
{
    "function(sel){ try { return this.querySelector(sel); } catch(e) { return null; } }"
}

/// The function that gives the text content of the first match of a selector, or null.
pub fn child_text_function() -> (r: &'static str)
    ensures
        r@
            == "function(sel){ try { const el = this.querySelector(sel); return el ? el.textContent : null; } catch(e) { return null; } }"@,
{
    "function(sel){ try { const el = this.querySelector(sel); return el ? el.textContent : null; } catch(e) { return null; } }"
}

/// The function that tells whether a selector matches under the element.
pub fn child_exists_function() -> (r: &'static str)
    ensures
        r@
            == "function(sel){ try { return this.querySelector(sel) !== null; } catch(e) { return false; } }"@,
{
    "function(sel){ try { return this.querySelector(sel) !== null; } catch(e) { return false; } }"
}

/// The function that gives an attribute (second argument) of the first match of a selector.
pub fn child_attr_function() -> (r: &'static str)
    ensures
        r@
            == "function(sel, attr){ try { var el = this.querySelector(sel); return el ? el.getAttribute(attr) : null; } catch(e) { return null; } }"@,
{
    "function(sel, attr){ try { var el = this.querySelector(sel); return el ? el.getAttribute(attr) : null; } catch(e) { return null; } }"
}

/// The function that gives the trimmed, non-empty text contents of every match of a selector,
/// as a JSON array written to a string.
pub fn child_texts_function() -> (r: &'static str)
    ensures
        r@
            == "function(sel){ try { var nodes = this.querySelectorAll(sel); var arr = []; for(var i=0;i<nodes.length;i++) { var t = (nodes[i].textContent||'').trim(); if(t) arr.push(t); } return JSON.stringify(arr); } catch(e) { return '[]'; } }"@,
{
    "function(sel){ try { var nodes = this.querySelectorAll(sel); var arr = []; for(var i=0;i<nodes.length;i++) { var t = (nodes[i].textContent||'').trim(); if(t) arr.push(t); } return JSON.stringify(arr); } catch(e) { return '[]'; } }"
}

/// Whether `a` is the argument list `[{"value": v0}, {"value": v1}, ...]` of these strings.
pub open spec fn is_value_args(a: Json, values: Seq<Seq<char>>) -> bool {
    &&& a matches Json::Array(items)
    &&& items@.len() == values.len()
    &&& forall|i: int|
        0 <= i < values.len() ==> {
            &&& keys_of(#[trigger] items@[i]) == seq!["value"@]
            &&& is_str(get_spec(items@[i], "value"@), values[i])
        }
}

/// The argument list of string values, in order.
pub fn value_args(values: &Vec<&str>) -> (r: Json)
    ensures
        is_value_args(r, values@.map_values(|s: &str| s@)),
{
    let mut items: Vec<Json> = Vec::new();
    let mut i: usize = 0;
    while i < values.len()
        invariant
            i <= values@.len(),
            items@.len() == i,
            forall|k: int|
                0 <= k < i ==> {
                    &&& keys_of(#[trigger] items@[k]) == seq!["value"@]
                    &&& is_str(get_spec(items@[k], "value"@), values@[k]@)
                },
        decreases values.len() - i,
    {
        let mut ms: Vec<(String, Json)> = Vec::new();
        ms.push((key("value"), Json::Str(String::from_str(values[i]))));
        proof {
            lemma_members_get_at(ms@, "value"@, 0);
        }
        let item = Json::Object(ms);
        assert(keys_of(item) =~= seq!["value"@]);
        items.push(item);
        i = i + 1;
    }
    Json::Array(items)
}

/// The function that finds the first node an XPath selects with the element as context.
pub fn xpath_first_function(xpath: &str) -> (r: Result<String, CdpError>)
    ensures
        r matches Ok(s) && s@ == "function(){ var r = document.evaluate("@ + json_quote(xpath@)
            + ", this, null, XPathResult.FIRST_ORDERED_NODE_TYPE, null); return r.singleNodeValue; }"@,
{
    quoted_in(
        "function(){ var r = document.evaluate(",
        xpath,
        ", this, null, XPathResult.FIRST_ORDERED_NODE_TYPE, null); return r.singleNodeValue; }",
    )
}

/// The function that lists every match of a selector under the element.
pub fn css_all_function(selector: &str) -> (r: Result<String, CdpError>)
    ensures
        r matches Ok(s) && s@ == "function(){ return Array.from(this.querySelectorAll("@
            + json_quote(selector@) + ")); }"@,
{
    quoted_in("function(){ return Array.from(this.querySelectorAll(", selector, ")); }")
}

/// The function that lists every node an XPath selects with the element as context.
pub fn xpath_all_function(xpath: &str) -> (r: Result<String, CdpError>)
    ensures
        r matches Ok(s) && s@ == "function(){ var r = document.evaluate("@ + json_quote(xpath@)
            + ", this, null, XPathResult.ORDERED_NODE_SNAPSHOT_TYPE, null); var a = []; for(var i=0;i<r.snapshotLength;i++) a.push(r.snapshotItem(i)); return a; }"@,
{
    quoted_in(
        "function(){ var r = document.evaluate(",
        xpath,
        ", this, null, XPathResult.ORDERED_NODE_SNAPSHOT_TYPE, null); var a = []; for(var i=0;i<r.snapshotLength;i++) a.push(r.snapshotItem(i)); return a; }",
    )
}

/// The function that reads a DOM property of the element.
pub fn property_function(name: &str) -> (r: Result<String, CdpError>)
    ensures
        r matches Ok(s) && s@ == "function(){ return this["@ + json_quote(name@) + "]; }"@,
{
    quoted_in("function(){ return this[", name, "]; }")
}

/// The function that reads an attribute of the element (the empty string when it is absent).
pub fn attr_function(name: &str) -> (r: Result<String, CdpError>)
    ensures
        r matches Ok(s) && s@ == "function(){ var v = this.getAttribute("@ + json_quote(name@)
            + "); return v !== null ? v : ''; }"@,
{
    quoted_in("function(){ var v = this.getAttribute(", name, "); return v !== null ? v : ''; }")
}

/// The function that types a text into the element: focus, set the value, fire `input` and
/// `change`.
pub fn input_function(text: &str) -> (r: Result<String, CdpError>)
    ensures
        r matches Ok(s) && s@ == "function(){ this.focus(); this.value = "@ + json_quote(text@)
            + "; this.dispatchEvent(new Event('input', { bubbles: true })); this.dispatchEvent(new Event('change', { bubbles: true })); }"@,
{
    quoted_in(
        "function(){ this.focus(); this.value = ",
        text,
        "; this.dispatchEvent(new Event('input', { bubbles: true })); this.dispatchEvent(new Event('change', { bubbles: true })); }",
    )
}

/// The function that removes an attribute of the element.
pub fn remove_attr_function(name: &str) -> (r: Result<String, CdpError>)
    ensures
        r matches Ok(s) && s@ == "function(){ this.removeAttribute("@ + json_quote(name@)
            + "); }"@,
{
    quoted_in("function(){ this.removeAttribute(", name, "); }")
}

/// The option field a selection compares: the text or the value.
pub open spec fn option_field(by_text: bool) -> Seq<char> {
    if by_text {
        "text"@
    } else {
        "value"@
    }
}

/// The function that selects the first option whose text (or value) is the given one and
/// fires `change`; it answers whether one was found.
pub fn select_function(text_or_value: &str, by_text: bool) -> (r: Result<String, CdpError>)
    ensures
        r matches Ok(s) && s@ == "function(){ var opts = this.options; for(var i=0;i<opts.length;i++){ if(opts[i]."@
            + option_field(by_text) + " === "@ + json_quote(text_or_value@)
            + "){ this.selectedIndex = i; this.dispatchEvent(new Event('change', {bubbles:true})); return true; } } return false; }"@,
{
    let head = if by_text {
        "function(){ var opts = this.options; for(var i=0;i<opts.length;i++){ if(opts[i].text === "
    } else {
        "function(){ var opts = this.options; for(var i=0;i<opts.length;i++){ if(opts[i].value === "
    };
    proof {
        reveal_strlit(
            "function(){ var opts = this.options; for(var i=0;i<opts.length;i++){ if(opts[i].text === ",
        );
        reveal_strlit(
            "function(){ var opts = this.options; for(var i=0;i<opts.length;i++){ if(opts[i].value === ",
        );
        reveal_strlit(
            "function(){ var opts = this.options; for(var i=0;i<opts.length;i++){ if(opts[i].",
        );
        reveal_strlit("text");
        reveal_strlit("value");
        reveal_strlit(" === ");
    }
    assert(head@ =~= "function(){ var opts = this.options; for(var i=0;i<opts.length;i++){ if(opts[i]."@
        + option_field(by_text) + " === "@);
    quoted_in(
        head,
        text_or_value,
        "){ this.selectedIndex = i; this.dispatchEvent(new Event('change', {bubbles:true})); return true; } } return false; }",
    )
}

/// The function that climbs `level` parents up (null when the chain ends first).
pub fn parent_function(level: u32) -> (r: String)
    ensures
        r@ == "function(){ var el = this; for(var i=0;i<"@ + dec_nat(level as nat)
            + ";i++){ if(el.parentElement){el=el.parentElement;}else{return null;} } return el; }"@,
{
    let mut s = String::from_str("function(){ var el = this; for(var i=0;i<");
    push_u64(&mut s, level as u64);
    s.append(";i++){ if(el.parentElement){el=el.parentElement;}else{return null;} } return el; }");
    s
}

/// The function that scrolls inside the element.
pub fn scroll_function(x: i64, y: i64) -> (r: String)
    ensures
        r@ == "function(){ this.scrollTo("@ + dec_int(x as int) + ", "@ + dec_int(y as int)
            + "); }"@,
{
    let mut s = String::from_str("function(){ this.scrollTo(");
    push_i64(&mut s, x);
    s.append(", ");
    push_i64(&mut s, y);
    s.append("); }");
    s
}

/// The function that runs a script inside a frame's document (`document` is the frame's).
pub fn frame_script_function(script: &str) -> (r: String)
    ensures
        r@ == "function() { var document = this; "@ + script@ + " }"@,
{
    let mut s = String::from_str("function() { var document = this; ");
    s.append(script);
    s.append(" }");
    s
}

/// The function that finds the first node an XPath (its argument) selects in a document.
pub fn frame_xpath_first_function() -> (r: &'static str)
    ensures
        r@
            == "function(xpath){ var r = this.evaluate(xpath, this, null, XPathResult.FIRST_ORDERED_NODE_TYPE, null); return r.singleNodeValue; }"@,
{
    "function(xpath){ var r = this.evaluate(xpath, this, null, XPathResult.FIRST_ORDERED_NODE_TYPE, null); return r.singleNodeValue; }"
}

/// The function that lists every node an XPath (its argument) selects in a document.
pub fn frame_xpath_all_function() -> (r: &'static str)
    ensures
        r@
            == "function(xpath){ var r = this.evaluate(xpath, this, null, XPathResult.ORDERED_NODE_SNAPSHOT_TYPE, null); var a = []; for(var i = 0; i < r.snapshotLength; i++) a.push(r.snapshotItem(i)); return a; }"@,
{
    "function(xpath){ var r = this.evaluate(xpath, this, null, XPathResult.ORDERED_NODE_SNAPSHOT_TYPE, null); var a = []; for(var i = 0; i < r.snapshotLength; i++) a.push(r.snapshotItem(i)); return a; }"
}

/// The function that lists the matches of a selector (its argument) under a document root.
pub fn root_query_all_function() -> (r: &'static str)
    ensures
        r@ == "function(sel){ return Array.from(this.querySelectorAll(sel)); }"@,
{
    "function(sel){ return Array.from(this.querySelectorAll(sel)); }"
}

// ---------- reading results ----------

/// A boolean `value` of a call's result, or `default` when it has none.
pub fn value_bool_or(result: &Json, default: bool) -> (r: bool)
    ensures
        r == match bool_spec(get_spec(*result, "value"@)) {
            Some(b) => b,
            None => default,
        },
{
    match result.get("value") {
        Some(v) => match v.as_bool() {
            Some(b) => b,
            None => default,
        },
        None => default,
    }
}

/// The text a child read gives: none when the value is null or not a string.
pub fn optional_text(result: &Json) -> (r: Option<String>)
    ensures
        match r {
            Some(s) => str_spec(get_spec(*result, "value"@)) == Some(s@),
            None => str_spec(get_spec(*result, "value"@)) is None,
        },
{
    match result.get("value") {
        Some(Json::Str(s)) => Some(s.clone()),
        _ => None,
    }
}

/// The `value` of a call's result, taken out of it (`null` when absent).
pub fn value_of(result: Json) -> (r: Json)
    ensures
        r == match get_spec(result, "value"@) {
            Some(v) => v,
            None => Json::Null,
        },
{
    take_member(result, "value")
}

/// The attributes of the element from the result of the attribute-reading function: the
/// string members of the `value` object, in order.
pub fn attrs_of(result: &Json) -> (r: Result<Vec<(String, String)>, CdpError>)
    ensures
        match get_spec(*result, "value"@) {
            Some(Json::Object(ms)) => r matches Ok(v) && v@.map_values(
                |p: (String, String)| (p.0@, p.1@),
            ) == string_members(ms@),
            _ => err_view(r) == Err::<Vec<(String, String)>, CdpErrorView>(
                local_error("The attrs result was not an object"@),
            ),
        },
{
    match result.get("value") {
        Some(v) => match v {
            Json::Object(_) => Ok(string_pairs(Some(v))),
            _ => Err(
                CdpError::Protocol {
                    id: None,
                    code: -1,
                    message: String::from_str("The attrs result was not an object"),
                },
            ),
        },
        None => Err(
            CdpError::Protocol {
                id: None,
                code: -1,
                message: String::from_str("The attrs result was not an object"),
            },
        ),
    }
}

/// The function that reads every attribute of the element into an object.
pub fn attrs_function() -> (r: &'static str)
    ensures
        r@
            == "function(){ var m=this.attributes; var o={}; for(var i=0;i<m.length;i++){ o[m[i].name]=m[i].value; } return o; }"@,
{
    "function(){ var m=this.attributes; var o={}; for(var i=0;i<m.length;i++){ o[m[i].name]=m[i].value; } return o; }"
}

/// What `serde_json::from_str::<Vec<String>>` makes of a text: the strings of a JSON array of
/// strings, or `None` when the text is not one.
pub uninterp spec fn json_string_list(s: Seq<char>) -> Option<Seq<Seq<char>>>;

/// `serde_json::from_str::<Vec<String>>`, with the error dropped. Claimed: the strings read are
/// `json_string_list` of the text, and it fails exactly when that is `None`.
#[verifier::external_body]
fn parse_string_list(s: &str) -> (r: Option<Vec<String>>)
    ensures
        match r {
            Some(v) => json_string_list(s@) == Some(v@.map_values(|x: String| x@)),
            None => json_string_list(s@) is None,
        },
{
    serde_json::from_str::<Vec<String>>(s).ok()
}

/// The texts the text-listing function gives: its `value` (`[]` when absent) read as a JSON
/// array of strings; no texts when it is not one.
pub fn texts_of(result: &Json) -> (r: Vec<String>)
    ensures
        r@.map_values(|x: String| x@) == match json_string_list(
            match str_spec(get_spec(*result, "value"@)) {
                Some(s) => s,
                None => "[]"@,
            },
        ) {
            Some(list) => list,
            None => Seq::empty(),
        },
{
    let parsed = match result.get("value") {
        Some(Json::Str(s)) => parse_string_list(s.as_str()),
        _ => parse_string_list("[]"),
    };
    match parsed {
        Some(v) => v,
        None => {
            let v: Vec<String> = Vec::new();
            assert(v@.map_values(|x: String| x@) =~= Seq::<Seq<char>>::empty());
            v
        },
    }
}

/// Whether checking (or, with `uncheck`, unchecking) needs a click, given the `checked`
/// property as read (anything but `true` counts as unchecked).
pub fn check_needs_click(uncheck: bool, checked: &Json) -> (r: bool)
    ensures
        r == (uncheck == (bool_spec(Some(*checked)) == Some(true))),
{
    let is_checked = match checked.as_bool() {
        Some(b) => b,
        None => false,
    };
    if uncheck {
        is_checked
    } else {
        !is_checked
    }
}

/// Whether a tag names a frame.
pub fn is_frame_tag(tag: &str) -> (r: bool)
    ensures
        r == (tag@ == "iframe"@ || tag@ == "frame"@),
{
    str_equal(tag, "iframe") || str_equal(tag, "frame")
}

/// Selecting an option needs a `<select>` element.
pub fn select_tag_check(tag: &str) -> (r: Result<(), CdpError>)
    ensures
        tag@ == "select"@ ==> r is Ok,
        tag@ != "select"@ ==> err_view(r) == Err::<(), CdpErrorView>(
            local_error(
                "select() can only be used on <select> elements, but the current element is <"@
                    + tag@ + ">"@,
            ),
        ),
{
    if str_equal(tag, "select") {
        Ok(())
    } else {
        let mut m = String::from_str(
            "select() can only be used on <select> elements, but the current element is <",
        );
        m.append(tag);
        m.append(">");
        Err(CdpError::Protocol { id: None, code: -1, message: m })
    }
}

// ---------- stale nodes and objects ----------

/// What to do after a call on the element failed.
#[derive(Debug, Clone, Copy, PartialEq, Eq)]
pub enum CallRetry {
    /// Forget the object id the element was found with and call again.
    ForgetObjectAndRetry,
    /// Read the node id afresh from this backend node id and call again (if that read fails,
    /// the call's error stands).
    RefreshNodeAndRetry(i64),
    /// Report the error.
    Fail,
}

/// The retry after a failed call: only an error saying the object is gone is retried; first
/// by dropping the object id held since the lookup, else by refreshing the node id from the
/// backend node id.
pub fn call_retry(e: &CdpError, holds_object_id: bool, backend_node_id: Option<i64>) -> (r:
    CallRetry)
    ensures
        !object_invalid_spec(e@) ==> r == CallRetry::Fail,
        object_invalid_spec(e@) && holds_object_id ==> r == CallRetry::ForgetObjectAndRetry,
        object_invalid_spec(e@) && !holds_object_id ==> r == match backend_node_id {
            Some(b) => CallRetry::RefreshNodeAndRetry(b),
            None => CallRetry::Fail,
        },
{
    if !is_object_invalid_error(e) {
        CallRetry::Fail
    } else if holds_object_id {
        CallRetry::ForgetObjectAndRetry
    } else {
        match backend_node_id {
            Some(b) => CallRetry::RefreshNodeAndRetry(b),
            None => CallRetry::Fail,
        }
    }
}

/// The backend node id to recover a stale node id with: only an error saying the node is
/// gone is recovered from, and only when the element has a backend node id.
pub fn stale_node_backend(e: &CdpError, backend_node_id: Option<i64>) -> (r: Option<i64>)
    ensures
        r == (if no_node_spec(e@) {
            backend_node_id
        } else {
            None
        }),
{
    if is_no_node_error(e) {
        backend_node_id
    } else {
        None
    }
}

} // verus!
