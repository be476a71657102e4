//! The DOM and Runtime domains: what their replies say, the errors that mean a node went
//! away, the expressions that query a document, and the walk that turns a remote list of
//! nodes into node ids one request at a time.

use crate::cdp::{CdpError, CdpErrorView, local_error, result_view, string_result_view, err_view, protocol_error};
use crate::json::{
    Json, array_spec, get_opt, get_spec, i64_spec, is_str, json_quote, key, keys_of,
    lemma_members_get_at, str_spec, to_json_string, u64_spec,
};
use crate::text::{contains_seq, str_contains, opt_string_view};
use vstd::prelude::*;
use vstd::string::StringExecFns;

verus! {

// ---------- errors that mean a node or object went away ----------

/// Whether a protocol error's message contains `p`.
pub open spec fn message_has(e: CdpErrorView, p: Seq<char>) -> bool {
    e matches CdpErrorView::Protocol { message, .. } && contains_seq(message, p)
}

/// A node or object that vanished while a list was being walked.
pub open spec fn transient_spec(e: CdpErrorView) -> bool {
    ||| message_has(e, "No node with given id"@)
    ||| message_has(e, "Could not find node with given id"@)
    ||| message_has(e, "Could not find object with given id"@)
    ||| message_has(e, "Object has been collected"@)
}

/// A node id that no longer names a node.
pub open spec fn no_node_spec(e: CdpErrorView) -> bool {
    ||| message_has(e, "No node with given id"@)
    ||| message_has(e, "Could not find node with given id"@)
}

/// An object id that no longer names an object.
pub open spec fn object_invalid_spec(e: CdpErrorView) -> bool {
    ||| message_has(e, "No node with given id"@)
    ||| message_has(e, "Could not find object"@)
    ||| message_has(e, "Object has been collected"@)
    ||| message_has(e, "given id"@)
}

fn protocol_message_has(e: &CdpError, p: &str) -> (r: bool)
    ensures
        r == message_has(e@, p@),
{
    match e {
        CdpError::Protocol { message, .. } => str_contains(message.as_str(), p),
        _ => false,
    }
}

/// Whether an error means that a node or object vanished while a list was being walked.
pub fn is_transient_node_error(e: &CdpError) -> (r: bool)
    ensures
        r == transient_spec(e@),
{
    protocol_message_has(e, "No node with given id") || protocol_message_has(
        e,
        "Could not find node with given id",
    ) || protocol_message_has(e, "Could not find object with given id") || protocol_message_has(
        e,
        "Object has been collected",
    )
}

/// Whether an error means that a node id no longer names a node.
pub fn is_no_node_error(e: &CdpError) -> (r: bool)
    ensures
        r == no_node_spec(e@),
{
    protocol_message_has(e, "No node with given id") || protocol_message_has(
        e,
        "Could not find node with given id",
    )
}

/// Whether an error means that an object id no longer names an object.
pub fn is_object_invalid_error(e: &CdpError) -> (r: bool)
    ensures
        r == object_invalid_spec(e@),
{
    protocol_message_has(e, "No node with given id") || protocol_message_has(
        e,
        "Could not find object",
    ) || protocol_message_has(e, "Object has been collected") || protocol_message_has(
        e,
        "given id",
    )
}

// ---------- reading replies ----------

/// The integer at `outer.inner` of a reply.
pub open spec fn nested_i64(j: Json, outer: Seq<char>, inner: Seq<char>) -> Option<i64> {
    i64_spec(get_opt(get_spec(j, outer), inner))
}

/// The string at `outer.inner` of a reply.
pub open spec fn nested_str(j: Json, outer: Seq<char>, inner: Seq<char>) -> Option<Seq<char>> {
    str_spec(get_opt(get_spec(j, outer), inner))
}

/// A value that must be there, or the protocol error `message`.
pub open spec fn required<T>(v: Option<T>, message: Seq<char>) -> Result<T, CdpErrorView> {
    match v {
        Some(x) => Ok(x),
        None => Err(local_error(message)),
    }
}

fn nested_i64_of(j: &Json, outer: &str, inner: &str) -> (r: Option<i64>)
    ensures
        r == nested_i64(*j, outer@, inner@),
{
    match j.get(outer) {
        Some(o) => match o.get(inner) {
            Some(v) => v.as_i64(),
            None => None,
        },
        None => None,
    }
}

fn nested_str_of(j: &Json, outer: &str, inner: &str) -> (r: Option<String>)
    ensures
        opt_string_view(r) == nested_str(*j, outer@, inner@),
{
    match j.get(outer) {
        Some(o) => match o.get(inner) {
            Some(Json::Str(s)) => Some(s.clone()),
            _ => None,
        },
        None => None,
    }
}

fn member_str_of(j: &Json, k: &str) -> (r: Option<String>)
    ensures
        opt_string_view(r) == str_spec(get_spec(*j, k@)),
{
    match j.get(k) {
        Some(Json::Str(s)) => Some(s.clone()),
        _ => None,
    }
}

/// `root.nodeId` of a `DOM.getDocument` reply.
pub fn document_root_id(result: &Json) -> (r: Result<i64, CdpError>)
    ensures
        err_view(r) == required(
            nested_i64(*result, "root"@, "nodeId"@),
            "DOM.getDocument did not return root.nodeId"@,
        ),
{
    match nested_i64_of(result, "root", "nodeId") {
        Some(n) => Ok(n),
        None => Err(protocol_error("DOM.getDocument did not return root.nodeId")),
    }
}

/// The node a `DOM.querySelector` or `DOM.requestNode` reply names; node id 0 names none.
pub open spec fn selected_node_spec(result: Json) -> Option<i64> {
    match i64_spec(get_spec(result, "nodeId"@)) {
        Some(n) => if n != 0 {
            Some(n)
        } else {
            None
        },
        None => None,
    }
}

pub fn selected_node_id(result: &Json) -> (r: Option<i64>)
    ensures
        r == selected_node_spec(*result),
{
    match result.get("nodeId") {
        Some(v) => match v.as_i64() {
            Some(n) => if n != 0 {
                Some(n)
            } else {
                None
            },
            None => None,
        },
        None => None,
    }
}

/// The `nodeId` of a `DOM.requestNode` reply, as it is (0 included).
pub fn requested_node_id(result: &Json) -> (r: Option<i64>)
    ensures
        r == i64_spec(get_spec(*result, "nodeId"@)),
{
    match result.get("nodeId") {
        Some(v) => v.as_i64(),
        None => None,
    }
}

/// `outerHTML` of a `DOM.getOuterHTML` reply.
pub fn outer_html_of(result: &Json) -> (r: Result<String, CdpError>)
    ensures
        string_result_view(r) == required(
            str_spec(get_spec(*result, "outerHTML"@)),
            "DOM.getOuterHTML did not return outerHTML"@,
        ),
{
    match member_str_of(result, "outerHTML") {
        Some(s) => Ok(s),
        None => Err(protocol_error("DOM.getOuterHTML did not return outerHTML")),
    }
}

/// The result count of a search: `resultCount` as an unsigned number, 0 when absent, cut to
/// its low 32 bits.
pub open spec fn result_count_spec(result: Json) -> u32 {
    match u64_spec(get_spec(result, "resultCount"@)) {
        Some(n) => n as u32,
        None => 0,
    }
}

/// The search id and result count of a `DOM.performSearch` reply.
pub fn search_summary(result: &Json) -> (r: Result<(String, u32), CdpError>)
    ensures
        match str_spec(get_spec(*result, "searchId"@)) {
            Some(id) => r matches Ok((s, n)) && s@ == id && n == result_count_spec(*result),
            None => err_view(r) == Err::<(String, u32), CdpErrorView>(
                local_error("DOM.performSearch did not return searchId"@),
            ),
        },
{
    let id = match member_str_of(result, "searchId") {
        Some(s) => s,
        None => {
            return Err(protocol_error("DOM.performSearch did not return searchId"));
        },
    };
    let count: u32 = match result.get("resultCount") {
        Some(v) => match v.as_u64() {
            Some(n) => {
                #[verifier::truncate]
                let c = n as u32;
                c
            },
            None => 0,
        },
        None => 0,
    };
    Ok((id, count))
}

/// The node ids of a `DOM.getSearchResults` reply: its integer entries other than 0, in
/// order; none when `nodeIds` is not an array.
pub open spec fn search_ids_spec(list: Seq<Json>) -> Seq<i64>
    decreases list.len(),
{
    if list.len() == 0 {
        Seq::empty()
    } else {
        let r = search_ids_spec(list.drop_last());
        match i64_spec(Some(list.last())) {
            Some(n) => if n != 0 {
                r.push(n)
            } else {
                r
            },
            None => r,
        }
    }
}

pub fn search_node_ids(result: &Json) -> (r: Vec<i64>)
    ensures
        r@ == match array_spec(get_spec(*result, "nodeIds"@)) {
            Some(list) => search_ids_spec(list),
            None => Seq::empty(),
        },
{
    let mut out: Vec<i64> = Vec::new();
    match result.get("nodeIds") {
        Some(Json::Array(list)) => {
            let mut i: usize = 0;
            while i < list.len()
                invariant
                    i <= list@.len(),
                    out@ == search_ids_spec(list@.take(i as int)),
                decreases list.len() - i,
            {
                assert(list@.take(i + 1).drop_last() =~= list@.take(i as int));
                match list[i].as_i64() {
                    Some(n) => {
                        if n != 0 {
                            out.push(n);
                        }
                    },
                    None => {},
                }
                i = i + 1;
            }
            assert(list@.take(i as int) =~= list@);
            out
        },
        _ => out,
    }
}

/// `object.objectId` of a `DOM.resolveNode` reply made with a node id.
pub fn resolved_object_id(result: &Json) -> (r: Result<String, CdpError>)
    ensures
        string_result_view(r) == required(
            nested_str(*result, "object"@, "objectId"@),
            "DOM.resolveNode did not return object.objectId"@,
        ),
{
    match nested_str_of(result, "object", "objectId") {
        Some(s) => Ok(s),
        None => Err(protocol_error("DOM.resolveNode did not return object.objectId")),
    }
}

/// `object.objectId` of a `DOM.resolveNode` reply made with a backend node id.
pub fn resolved_backend_object_id(result: &Json) -> (r: Result<String, CdpError>)
    ensures
        string_result_view(r) == required(
            nested_str(*result, "object"@, "objectId"@),
            "DOM.resolveNode(backendNodeId) did not return object.objectId"@,
        ),
{
    match nested_str_of(result, "object", "objectId") {
        Some(s) => Ok(s),
        None => Err(
            protocol_error("DOM.resolveNode(backendNodeId) did not return object.objectId"),
        ),
    }
}

/// `node.backendNodeId` of a `DOM.describeNode` reply.
pub fn backend_node_id_of(result: &Json) -> (r: Result<i64, CdpError>)
    ensures
        err_view(r) == required(
            nested_i64(*result, "node"@, "backendNodeId"@),
            "DOM.describeNode did not return node.backendNodeId"@,
        ),
{
    match nested_i64_of(result, "node", "backendNodeId") {
        Some(n) => Ok(n),
        None => Err(protocol_error("DOM.describeNode did not return node.backendNodeId")),
    }
}

/// `node.nodeId` of a `DOM.describeNode` reply.
pub fn described_node_id(result: &Json) -> (r: Result<i64, CdpError>)
    ensures
        err_view(r) == required(
            nested_i64(*result, "node"@, "nodeId"@),
            "DOM.describeNode did not return node.nodeId"@,
        ),
{
    match nested_i64_of(result, "node", "nodeId") {
        Some(n) => Ok(n),
        None => Err(protocol_error("DOM.describeNode did not return node.nodeId")),
    }
}

/// The node id and backend node id of a `DOM.describeNode` reply, each when present.
pub fn described_ids(result: &Json) -> (r: (Option<i64>, Option<i64>))
    ensures
        r.0 == nested_i64(*result, "node"@, "nodeId"@),
        r.1 == nested_i64(*result, "node"@, "backendNodeId"@),
{
    (nested_i64_of(result, "node", "nodeId"), nested_i64_of(result, "node", "backendNodeId"))
}

/// The object id of the value a `Runtime.evaluate` or `Runtime.callFunctionOn` reply
/// carries, when it has one; `payload_missing` is the error for a reply without a `result`
/// (`None`: such a reply simply has no object).
pub fn result_object_id(reply: &Json, payload_missing: Option<&str>) -> (r: Result<
    Option<String>,
    CdpError,
>)
    ensures
        match get_spec(*reply, "result"@) {
            Some(v) => r matches Ok(o) && opt_string_view(o) == str_spec(get_spec(v, "objectId"@)),
            None => match payload_missing {
                Some(m) => err_view(r) == Err::<Option<String>, CdpErrorView>(local_error(m@)),
                None => r matches Ok(o) && o is None,
            },
        },
{
    match reply.get("result") {
        Some(v) => Ok(member_str_of(v, "objectId")),
        None => match payload_missing {
            Some(m) => Err(protocol_error(m)),
            None => Ok(None),
        },
    }
}

/// The object id of an evaluated value (a `result` object), when it has one.
pub fn value_object_id(value: &Json) -> (r: Option<String>)
    ensures
        opt_string_view(r) == str_spec(get_spec(*value, "objectId"@)),
{
    member_str_of(value, "objectId")
}

// ---------- expressions and function declarations ----------

/// `<head><value as a JSON string><tail>` (writing the string always succeeds).
pub fn quoted_in(head: &str, value: &str, tail: &str) -> (r: Result<String, CdpError>)
    ensures
        r matches Ok(s) && s@ == head@ + json_quote(value@) + tail@,
{
    let q = match to_json_string(value) {
        Ok(q) => q,
        Err(e) => {
            return Err(CdpError::Json(e));
        },
    };
    let mut s = String::from_str(head);
    s.append(q.as_str());
    s.append(tail);
    Ok(s)
}

/// `document.querySelectorAll(<selector as a JSON string>)`.
pub fn query_all_expression(selector: &str) -> (r: Result<String, CdpError>)
    ensures
        r matches Ok(s) && s@ == "document.querySelectorAll("@ + json_quote(selector@) + ")"@,
{
    let q = match to_json_string(selector) {
        Ok(q) => q,
        Err(e) => {
            return Err(CdpError::Json(e));
        },
    };
    let mut s = String::from_str("document.querySelectorAll(");
    s.append(q.as_str());
    s.append(")");
    Ok(s)
}

/// The head of the expression that collects the matches of a selector in the document and in
/// every same-origin frame inside it, down to any depth.
pub open spec fn frames_expression_head() -> Seq<char> {
    "(function(selector){\n            var results = [];\n            function collect(root){\n                if(!root || !root.querySelectorAll) return;\n                try{\n                    var list = root.querySelectorAll(selector);\n                    for(var i=0;i<list.length;i++) results.push(list[i]);\n                    var frames = root.querySelectorAll('iframe,frame');\n                    for(var j=0;j<frames.length;j++){\n                        try{\n                            var doc = frames[j].contentDocument;\n                            if(doc) collect(doc);\n                        }catch(e){}\n                    }\n                }catch(e){}\n            }\n            collect(document);\n            return results;\n        })("@
}

/// The expression that collects the matches of `selector` in the document and its
/// same-origin frames: the collecting function applied to the selector as a JSON string.
pub fn frames_query_expression(selector: &str) -> (r: Result<String, CdpError>)
    ensures
        r matches Ok(s) && s@ == frames_expression_head() + json_quote(selector@) + ")"@,
{
    let q = match to_json_string(selector) {
        Ok(q) => q,
        Err(e) => {
            return Err(CdpError::Json(e));
        },
    };
    let mut s = String::from_str(
        "(function(selector){\n            var results = [];\n            function collect(root){\n                if(!root || !root.querySelectorAll) return;\n                try{\n                    var list = root.querySelectorAll(selector);\n                    for(var i=0;i<list.length;i++) results.push(list[i]);\n                    var frames = root.querySelectorAll('iframe,frame');\n                    for(var j=0;j<frames.length;j++){\n                        try{\n                            var doc = frames[j].contentDocument;\n                            if(doc) collect(doc);\n                        }catch(e){}\n                    }\n                }catch(e){}\n            }\n            collect(document);\n            return results;\n        })(",
    );
    s.append(q.as_str());
    s.append(")");
    Ok(s)
}

/// The expression that lists every node an XPath selects in the document, in document order.
pub open spec fn snapshot_expression_spec(xpath: Seq<char>) -> Seq<char> {
    "var r=document.evaluate("@ + json_quote(xpath)
        + ", document, null, XPathResult.ORDERED_NODE_SNAPSHOT_TYPE, null); var a=[]; for(var i=0;i<r.snapshotLength;i++) a.push(r.snapshotItem(i)); a"@
}

/// The expression that lists every node an XPath selects in the document, in document order.
pub fn xpath_snapshot_expression(xpath: &str) -> (r: Result<String, CdpError>)
    ensures
        r matches Ok(s) && s@ == snapshot_expression_spec(xpath@),
{
    let q = match to_json_string(xpath) {
        Ok(q) => q,
        Err(e) => {
            return Err(CdpError::Json(e));
        },
    };
    let mut s = String::from_str("var r=document.evaluate(");
    s.append(q.as_str());
    s.append(
        ", document, null, XPathResult.ORDERED_NODE_SNAPSHOT_TYPE, null); var a=[]; for(var i=0;i<r.snapshotLength;i++) a.push(r.snapshotItem(i)); a",
    );
    Ok(s)
}

/// The function that gives the length of a remote list.
pub fn length_function() -> (r: &'static str)
    ensures
        r@ == length_function_spec(),
{
    "function(){ return this.length; }"
}

pub open spec fn length_function_spec() -> Seq<char> {
    "function(){ return this.length; }"@
}

/// The function that gives item `i` of a remote list.
pub fn item_function() -> (r: &'static str)
    ensures
        r@ == item_function_spec(),
{
    "function(i){ return this[i]; }"
}

pub open spec fn item_function_spec() -> Seq<char> {
    "function(i){ return this[i]; }"@
}

// ---------- command parameters ----------

/// Whether `p` is `{"objectId": <object_id>}`.
pub open spec fn is_object_params(p: Json, object_id: Seq<char>) -> bool {
    &&& keys_of(p) == seq!["objectId"@]
    &&& is_str(get_spec(p, "objectId"@), object_id)
}

/// `{"objectId": <object_id>}`.
pub fn object_params(object_id: &str) -> (r: Json)
    ensures
        is_object_params(r, object_id@),
{
    let mut ms: Vec<(String, Json)> = Vec::new();
    ms.push((key("objectId"), Json::Str(String::from_str(object_id))));
    proof {
        lemma_members_get_at(ms@, "objectId"@, 0);
    }
    let r = Json::Object(ms);
    assert(keys_of(r) =~= seq!["objectId"@]);
    r
}

/// Whether `p` is `{"functionDeclaration": <declaration>, "objectId": <object_id>}`, with
/// `"arguments": [{"value": <index>}]` when an index is given.
pub open spec fn is_call_params(p: Json, declaration: Seq<char>, object_id: Seq<char>, index: Option<usize>) -> bool {
    &&& keys_of(p) == seq!["functionDeclaration"@, "objectId"@] + (if index is Some {
        seq!["arguments"@]
    } else {
        Seq::empty()
    })
    &&& is_str(get_spec(p, "functionDeclaration"@), declaration)
    &&& is_str(get_spec(p, "objectId"@), object_id)
    &&& index matches Some(i) ==> {
        &&& get_spec(p, "arguments"@) matches Some(Json::Array(a))
        &&& a@.len() == 1
        &&& keys_of(a@[0]) == seq!["value"@]
        &&& get_spec(a@[0], "value"@) == Some(Json::PosInt(i as u64))
    }
}

/// The parameters of `Runtime.callFunctionOn` for a function of no argument, or of the index.
pub fn call_params(declaration: &str, object_id: &str, index: Option<usize>) -> (r: Json)
    ensures
        is_call_params(r, declaration@, object_id@, index),
{
    let mut ms: Vec<(String, Json)> = Vec::new();
    ms.push((key("functionDeclaration"), Json::Str(String::from_str(declaration))));
    ms.push((key("objectId"), Json::Str(String::from_str(object_id))));
    match index {
        Some(i) => {
            let mut arg: Vec<(String, Json)> = Vec::new();
            arg.push((key("value"), Json::PosInt(i as u64)));
            proof {
                lemma_members_get_at(arg@, "value"@, 0);
            }
            let a = Json::Object(arg);
            assert(keys_of(a) =~= seq!["value"@]);
            let mut args: Vec<Json> = Vec::new();
            args.push(a);
            ms.push((key("arguments"), Json::Array(args)));
        },
        None => {},
    }
    proof {
        reveal_strlit("functionDeclaration");
        reveal_strlit("objectId");
        reveal_strlit("arguments");
        assert(ms@[0].0@ == "functionDeclaration"@ && ms@[1].0@ == "objectId"@);
        assert("functionDeclaration"@.len() == 19 && "objectId"@.len() == 8);
        assert("arguments"@.len() == 9);
        lemma_members_get_at(ms@, "functionDeclaration"@, 0);
        lemma_members_get_at(ms@, "objectId"@, 1);
        if index is Some {
            lemma_members_get_at(ms@, "arguments"@, 2);
        }
    }
    let r = Json::Object(ms);
    assert(keys_of(r) =~= seq!["functionDeclaration"@, "objectId"@] + (if index is Some {
        seq!["arguments"@]
    } else {
        Seq::empty()
    }));
    r
}

// ---------- walking a remote list of nodes ----------

/// How the node of each item of a walked list is read: `DOM.requestNode` (the node id) or
/// `DOM.describeNode` (the node id and the backend node id).
#[derive(Debug, Clone, Copy, PartialEq, Eq)]
pub enum NodeRead {
    Request,
    Describe,
}

pub open spec fn read_method(read: NodeRead) -> Seq<char> {
    match read {
        NodeRead::Request => "DOM.requestNode"@,
        NodeRead::Describe => "DOM.describeNode"@,
    }
}

/// A node reached by a walk: its node id, the object id it was reached by, and its backend
/// node id when the walk described it.
#[derive(Debug, Clone)]
pub struct FoundNode {
    pub node_id: i64,
    pub object_id: String,
    pub backend_node_id: Option<i64>,
}

pub open spec fn found_view(f: FoundNode) -> (i64, Seq<char>, Option<i64>) {
    (f.node_id, f.object_id@, f.backend_node_id)
}

/// A walk over a remote list of nodes: first the list's length is asked for, then each item
/// in turn, then the node behind each item that is an object. A walk that skips transient
/// errors steps over an item whose object or node vanished; any other error ends the walk.
#[derive(Debug)]
pub struct NodeWalk {
    list: String,
    skip_transient: bool,
    read: NodeRead,
    len: Option<usize>,
    next: usize,
    pending: Option<String>,
    found: Vec<FoundNode>,
}

pub struct NodeWalkView {
    pub list: Seq<char>,
    pub skip_transient: bool,
    pub read: NodeRead,
    /// The length of the list, once it is known.
    pub len: Option<usize>,
    /// The item being read.
    pub next: nat,
    /// The object id of the item whose node is being read.
    pub pending: Option<Seq<char>>,
    pub found: Seq<(i64, Seq<char>, Option<i64>)>,
}

impl View for NodeWalk {
    type V = NodeWalkView;

    closed spec fn view(&self) -> NodeWalkView {
        NodeWalkView {
            list: self.list@,
            skip_transient: self.skip_transient,
            read: self.read,
            len: self.len,
            next: self.next as nat,
            pending: opt_string_view(self.pending),
            found: self.found@.map_values(|f: FoundNode| found_view(f)),
        }
    }
}

/// The walk is in a state it can reach: the item being read is within the list.
pub open spec fn walk_wf(w: NodeWalkView) -> bool {
    match w.len {
        None => w.next == 0 && w.pending is None,
        Some(n) => w.next <= n && (w.pending is Some ==> w.next < n),
    }
}

/// What the walk asks for next: the method and the shape of its parameters; `None` when it
/// is over.
pub enum WalkRequest {
    /// `Runtime.callFunctionOn` on the list: its length, or item `index`.
    Call { declaration: Seq<char>, index: Option<usize> },
    /// `DOM.requestNode` or `DOM.describeNode` of the object.
    Node { method: Seq<char>, object_id: Seq<char> },
}

pub open spec fn walk_request(w: NodeWalkView) -> Option<WalkRequest> {
    match w.len {
        None => Some(WalkRequest::Call { declaration: length_function_spec(), index: None }),
        Some(n) => match w.pending {
            Some(oid) => Some(WalkRequest::Node { method: read_method(w.read), object_id: oid }),
            None => if w.next < n {
                Some(
                    WalkRequest::Call {
                        declaration: item_function_spec(),
                        index: Some(w.next as usize),
                    },
                )
            } else {
                None
            },
        },
    }
}

/// What the walk sends: a method with its parameters, or nothing when it is over.
#[derive(Debug)]
pub enum WalkAction {
    Send { method: String, params: Json },
    Done,
}

/// The length a reply to the length function gives: `result.value` as an unsigned number, 0
/// when absent.
pub open spec fn length_of_reply(v: Json) -> usize {
    match u64_spec(get_opt(get_spec(v, "result"@), "value"@)) {
        Some(n) => n as usize,
        None => 0,
    }
}

/// The node a node reply reports: for `DOM.requestNode` its `nodeId`; for `DOM.describeNode`
/// `node.nodeId` with `node.backendNodeId`.
pub open spec fn node_of_reply(read: NodeRead, v: Json) -> Option<(i64, Option<i64>)> {
    match read {
        NodeRead::Request => match i64_spec(get_spec(v, "nodeId"@)) {
            Some(n) => Some((n, None)),
            None => None,
        },
        NodeRead::Describe => match nested_i64(v, "node"@, "nodeId"@) {
            Some(n) => Some((n, nested_i64(v, "node"@, "backendNodeId"@))),
            None => None,
        },
    }
}

/// The walk moves past the current item, keeping what it found.
pub open spec fn walk_skip(s: NodeWalkView) -> NodeWalkView {
    NodeWalkView { next: s.next + 1, pending: None, ..s }
}

/// What one reply does to the walk: the state after it and whether the walk fails with an
/// error. A failed walk is left as it was, and so is a walk that is over.
pub open spec fn walk_step(s: NodeWalkView, reply: Result<Json, CdpErrorView>) -> (
    NodeWalkView,
    Option<CdpErrorView>,
) {
    if walk_request(s) is None {
        (s, None)
    } else {
        walk_reply(s, reply)
    }
}

/// What the reply to the request the walk made does to it.
pub open spec fn walk_reply(s: NodeWalkView, reply: Result<Json, CdpErrorView>) -> (
    NodeWalkView,
    Option<CdpErrorView>,
) {
    match reply {
        Err(e) => if s.len is Some && s.skip_transient && transient_spec(e) {
            (walk_skip(s), None)
        } else {
            (s, Some(e))
        },
        Ok(v) => match s.len {
            None => (NodeWalkView { len: Some(length_of_reply(v)), ..s }, None),
            Some(_) => match s.pending {
                Some(oid) => match node_of_reply(s.read, v) {
                    Some((nid, backend)) => (
                        NodeWalkView { found: s.found.push((nid, oid, backend)), ..walk_skip(s) },
                        None,
                    ),
                    None => (walk_skip(s), None),
                },
                None => match nested_str(v, "result"@, "objectId"@) {
                    Some(oid) => (NodeWalkView { pending: Some(oid), ..s }, None),
                    None => (walk_skip(s), None),
                },
            },
        },
    }
}

/// How much of the walk is left once the length is known: two requests for each unread item,
/// one for an item whose node is being read.
pub open spec fn walk_measure(w: NodeWalkView) -> int {
    match w.len {
        None => 0,
        Some(n) => 2 * (n - w.next) - (if w.pending is Some {
            1int
        } else {
            0
        }),
    }
}

/// A walk that skips transient errors survives an item or node that vanished: it moves on to
/// the next item, and what it found stays.
pub proof fn law_walk_skips_vanished_items(s: NodeWalkView, e: CdpErrorView)
    requires
        walk_wf(s),
        walk_request(s) is Some,
        s.len is Some,
        s.skip_transient,
        transient_spec(e),
    ensures
        walk_step(s, Err(e)).1 is None,
        walk_step(s, Err(e)).0.next == s.next + 1,
        walk_step(s, Err(e)).0.found == s.found,
{
}

/// A reply never takes back a node the walk found: the nodes found before it come first,
/// and at most one is added.
pub proof fn law_walk_only_adds(s: NodeWalkView, reply: Result<Json, CdpErrorView>)
    ensures
        walk_step(s, reply).0.found.len() <= s.found.len() + 1,
        walk_step(s, reply).0.found.take(s.found.len() as int) =~= s.found,
{
    let t = walk_step(s, reply).0;
    if t.found.len() == s.found.len() + 1 {
        assert(t.found.take(s.found.len() as int) =~= s.found);
    }
}

impl NodeWalk {
    /// Every walk is in a state it can reach.
    #[verifier::type_invariant]
    spec fn reachable(self) -> bool {
        walk_wf(self@)
    }

    /// A walk over the list with the given object id.
    pub fn new(list_object_id: String, skip_transient: bool, read: NodeRead) -> (r: Self)
        ensures
            r@ == (NodeWalkView {
                list: list_object_id@,
                skip_transient,
                read,
                len: None,
                next: 0,
                pending: None,
                found: Seq::empty(),
            }),
    {
        let r = NodeWalk {
            list: list_object_id,
            skip_transient,
            read,
            len: None,
            next: 0,
            pending: None,
            found: Vec::new(),
        };
        assert(r@.found =~= Seq::<(i64, Seq<char>, Option<i64>)>::empty());
        r
    }

    /// The request to make next, or `Done`.
    pub fn action(&self) -> (r: WalkAction)
        ensures
            walk_wf(self@),
            match walk_request(self@) {
                None => r is Done,
                Some(WalkRequest::Call { declaration, index }) => r matches WalkAction::Send {
                    method,
                    params,
                } && method@ == "Runtime.callFunctionOn"@ && is_call_params(
                    params,
                    declaration,
                    self@.list,
                    index,
                ),
                Some(WalkRequest::Node { method: m, object_id }) => r matches WalkAction::Send {
                    method,
                    params,
                } && method@ == m && is_object_params(params, object_id),
            },
    {
        proof {
            use_type_invariant(self);
        }
        match self.len {
            None => WalkAction::Send {
                method: String::from_str("Runtime.callFunctionOn"),
                params: call_params(length_function(), self.list.as_str(), None),
            },
            Some(n) => match &self.pending {
                Some(oid) => {
                    let method = match self.read {
                        NodeRead::Request => String::from_str("DOM.requestNode"),
                        NodeRead::Describe => String::from_str("DOM.describeNode"),
                    };
                    WalkAction::Send { method, params: object_params(oid.as_str()) }
                },
                None => if self.next < n {
                    WalkAction::Send {
                        method: String::from_str("Runtime.callFunctionOn"),
                        params: call_params(item_function(), self.list.as_str(), Some(self.next)),
                    }
                } else {
                    WalkAction::Done
                },
            },
        }
    }

    /// Takes the reply to the request `action` asked for (a walk that is over ignores it).
    /// Once the length is known, every reply the walk survives brings it closer to its end.
    pub fn on_reply(&mut self, reply: Result<Json, CdpError>) -> (r: Result<(), CdpError>)
        ensures
            walk_wf(old(self)@),
            walk_wf(final(self)@),
            (final(self)@, match r {
                Ok(_) => None,
                Err(e) => Some(e@),
            }) == walk_step(old(self)@, result_view(reply)),
            walk_request(old(self)@) is Some && r is Ok && old(self)@.len is Some ==> 0
                <= walk_measure(final(self)@) < walk_measure(old(self)@),
            walk_request(old(self)@) is Some && r is Ok ==> final(self)@.len is Some,
    {
        proof {
            use_type_invariant(&*self);
        }
        let ghost s = self@;
        let finished = match self.len {
            Some(n) => self.pending.is_none() && self.next >= n,
            None => false,
        };
        if finished {
            return Ok(());
        }
        match reply {
            Err(e) => {
                if self.len.is_some() && self.skip_transient && is_transient_node_error(&e) {
                    self.pending = None;
                    self.next = self.next + 1;
                    assert(self@ == walk_skip(s));
                    Ok(())
                } else {
                    Err(e)
                }
            },
            Ok(v) => {
                match self.len {
                    None => {
                        let n: usize = match v.get("result") {
                            Some(res) => match res.get("value") {
                                Some(x) => match x.as_u64() {
                                    Some(k) => {
                                        #[verifier::truncate]
                                        let c = k as usize;
                                        c
                                    },
                                    None => 0,
                                },
                                None => 0,
                            },
                            None => 0,
                        };
                        self.len = Some(n);
                        Ok(())
                    },
                    Some(_) => {
                        let mut pending: Option<String> = None;
                        std::mem::swap(&mut pending, &mut self.pending);
                        match pending {
                            Some(oid) => {
                                let node: Option<(i64, Option<i64>)> = match self.read {
                                    NodeRead::Request => match requested_node_id(&v) {
                                        Some(nid) => Some((nid, None)),
                                        None => None,
                                    },
                                    NodeRead::Describe => {
                                        let (nid, bid) = described_ids(&v);
                                        match nid {
                                            Some(nid) => Some((nid, bid)),
                                            None => None,
                                        }
                                    },
                                };
                                match node {
                                    Some((nid, bid)) => {
                                        let mut found: Vec<FoundNode> = Vec::new();
                                        std::mem::swap(&mut found, &mut self.found);
                                        found.push(
                                            FoundNode {
                                                node_id: nid,
                                                object_id: oid,
                                                backend_node_id: bid,
                                            },
                                        );
                                        self.found = found;
                                    },
                                    None => {},
                                }
                                self.next = self.next + 1;
                                assert(self@.found =~= walk_step(s, result_view(Ok(v))).0.found);
                                Ok(())
                            },
                            None => {
                                match nested_str_of(&v, "result", "objectId") {
                                    Some(oid) => {
                                        self.pending = Some(oid);
                                    },
                                    None => {
                                        self.next = self.next + 1;
                                    },
                                }
                                Ok(())
                            },
                        }
                    },
                }
            },
        }
    }

    /// The nodes the walk found, in the order of the list.
    pub fn into_found(self) -> (r: Vec<FoundNode>)
        ensures
            r@.map_values(|f: FoundNode| found_view(f)) == self@.found,
    {
        self.found
    }
}


/// Law: once the list's length is known and no item's node is being read, the walk asks for
/// the item whose index is the number of items it has moved past, with the function that
/// gives one item.
pub proof fn law_walk_asks_for_the_next_item(w: NodeWalkView)
    requires
        w.len matches Some(n) && w.next < n,
        w.pending is None,
    ensures
        walk_request(w) == Some(
            WalkRequest::Call { declaration: "function(i){ return this[i]; }"@, index: Some(w.next as usize) },
        ),
{
}

/// Law: a walk starts at item 0 and moves past one item at a time: a reply it survives leaves
/// it on the same item (only to read that item's node) or on the next one, so over a whole
/// walk the items are asked for as 0, 1, ..., n - 1, each once.
pub proof fn law_walk_moves_one_item_at_a_time(s: NodeWalkView, reply: Result<Json, CdpErrorView>)
    requires
        walk_wf(s),
        walk_request(s) is Some,
        walk_step(s, reply).1 is None,
    ensures
        s.len is None ==> walk_step(s, reply).0.next == 0 && walk_step(s, reply).0.pending is None,
        s.len is Some ==> (walk_step(s, reply).0.next == s.next && s.pending is None
            && walk_step(s, reply).0.pending is Some) || (walk_step(s, reply).0.next == s.next + 1
            && walk_step(s, reply).0.pending is None),
{
}

} // verus!
