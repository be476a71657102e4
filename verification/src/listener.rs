//! Network listening: assembling request/response packets from `Network.*` events, and the
//! filters a listener applies to them. The connection and its reading loop are the caller's;
//! each message read is handed to `ListenerState::on_message`, which says what to do next.

use crate::cdp::{CdpError, CdpErrorView, CdpMessage, Incoming, local_error, result_view};
use crate::json::{
    Json, array_spec, bool_of, bool_spec, get_in, get_opt, get_spec, opt_ref, str_of, str_spec,
    string_members, string_pairs, u64_of, u64_spec,
};
use crate::text::{contains_seq, eq_ignore_ascii_case, str_contains, str_eq_ignore_ascii_case, str_equal, opt_string_view};
use std::collections::HashMap;
use vstd::prelude::*;
use vstd::string::StringExecFns;

verus! {

broadcast use vstd::std_specs::hash::group_hash_axioms;

/// A request, from `Network.requestWillBeSent`.
#[derive(Debug, Clone)]
pub struct Request {
    pub url: String,
    pub method: String,
    /// The string-valued headers, in the order of the event's `headers` object; each name
    /// once, as the object holds it once (`string_pairs`).
    pub headers: Vec<(String, String)>,
    pub post_data: Option<String>,
}

/// A response, from `Network.responseReceived` and `Network.getResponseBody`.
#[derive(Debug, Clone)]
pub struct Response {
    pub url: String,
    pub status: Option<u32>,
    pub status_text: Option<String>,
    /// The string-valued headers, in the order of the event's `headers` object; each name
    /// once, as the object holds it once (`string_pairs`).
    pub headers: Vec<(String, String)>,
    /// Filled in together with `DataPacket::body`.
    pub body: Option<Vec<u8>>,
}

/// One request with its response.
#[derive(Debug, Clone)]
pub struct DataPacket {
    pub request: Request,
    pub response: Response,
    /// The response body, when it was fetched.
    pub body: Option<Vec<u8>>,
    /// Whether loading failed (`Network.loadingFailed`).
    pub is_failed: bool,
    /// Document, XHR, Fetch, Script, …
    pub resource_type: Option<String>,
}

/// A request whose response has not finished loading.
#[derive(Debug, Clone)]
pub struct InProgress {
    pub request: Request,
    pub response_url: String,
    pub response_status: Option<u32>,
    pub response_status_text: Option<String>,
    pub response_headers: Vec<(String, String)>,
    pub resource_type: Option<String>,
}

/// A finished request waiting for its body.
#[derive(Debug, Clone)]
pub struct PendingBody {
    pub request_id: String,
    pub request: Request,
    pub response: Response,
    pub resource_type: Option<String>,
}

/// What to do after a message.
#[derive(Debug)]
pub enum ListenerAction {
    Nothing,
    /// Hand this packet to the listener's receiver.
    Emit(DataPacket),
    /// Send `Network.getResponseBody` for `request_id` with command id `command_id`.
    RequestBody { command_id: i64, request_id: String },
}

/// The requests in progress (by request id) and the bodies asked for (by command id).
#[derive(Debug)]
pub struct ListenerState {
    pub in_progress: Vec<(String, InProgress)>,
    pub pending: HashMap<i64, PendingBody>,
    pub next_id: i64,
}

// ---------- association lists ----------

/// The value of the first entry whose key reads `k`.
pub open spec fn ip_get(s: Seq<(String, InProgress)>, k: Seq<char>) -> Option<InProgress>
    decreases s.len(),
{
    if s.len() == 0 {
        None
    } else {
        match ip_get(s.drop_last(), k) {
            Some(v) => Some(v),
            None => if s.last().0@ == k {
                Some(s.last().1)
            } else {
                None
            },
        }
    }
}

/// The entries whose key does not read `k`.
pub open spec fn ip_remove(s: Seq<(String, InProgress)>, k: Seq<char>) -> Seq<(String, InProgress)>
    decreases s.len(),
{
    if s.len() == 0 {
        s
    } else {
        let r = ip_remove(s.drop_last(), k);
        if s.last().0@ == k {
            r
        } else {
            r.push(s.last())
        }
    }
}

/// The body asked for under command id `k`, if any.
pub open spec fn pb_get(m: Map<i64, PendingBody>, k: i64) -> Option<PendingBody> {
    if m.contains_key(k) {
        Some(m[k])
    } else {
        None
    }
}

fn ip_take(v: &mut Vec<(String, InProgress)>, key: &str) -> (r: Option<InProgress>)
    ensures
        final(v)@ == ip_remove(old(v)@, key@),
        r == ip_get(old(v)@, key@),
{
    let mut rest: Vec<(String, InProgress)> = Vec::new();
    std::mem::swap(&mut rest, v);
    let ghost orig = rest@;
    let mut found: Option<InProgress> = None;
    let mut i: usize = 0;
    assert(orig.skip(0) =~= orig);
    assert(orig.len() == rest.len());
    while rest.len() > 0
        invariant
            i <= orig.len(),
            orig.len() <= usize::MAX,
            rest@ == orig.skip(i as int),
            v@ == ip_remove(orig.take(i as int), key@),
            found == ip_get(orig.take(i as int), key@),
        decreases rest.len(),
    {
        let (k, val) = rest.remove(0);
        assert(orig.take(i + 1).drop_last() =~= orig.take(i as int));
        assert(orig.skip(i as int)[0] == orig[i as int]);
        assert(orig.skip(i as int).remove(0) =~= orig.skip(i + 1));
        if str_equal(k.as_str(), key) {
            if found.is_none() {
                found = Some(val);
            }
        } else {
            v.push((k, val));
        }
        i = i + 1;
    }
    assert(orig.take(i as int) =~= orig);
    found
}

// ---------- reading events ----------

pub open spec fn headers_view(h: Seq<(String, String)>) -> Seq<(Seq<char>, Seq<char>)> {
    h.map_values(|p: (String, String)| (p.0@, p.1@))
}

/// The string-valued members of a `headers` object.
pub open spec fn headers_spec(h: Option<Json>) -> Seq<(Seq<char>, Seq<char>)> {
    match h {
        Some(Json::Object(ms)) => string_members(ms@),
        _ => Seq::empty(),
    }
}

/// A string member, or the empty string.
pub open spec fn str_or_empty(j: Option<Json>) -> Seq<char> {
    match str_spec(j) {
        Some(s) => s,
        None => Seq::empty(),
    }
}

/// Whether `req` is the request described by the `request` object of `requestWillBeSent`:
/// its URL (empty if absent), method (`GET` if absent), string headers and post data.
pub open spec fn request_from(req: Request, r: Json) -> bool {
    &&& req.url@ == str_or_empty(get_spec(r, "url"@))
    &&& req.method@ == match str_spec(get_spec(r, "method"@)) {
        Some(m) => m,
        None => "GET"@,
    }
    &&& headers_view(req.headers@) == headers_spec(get_spec(r, "headers"@))
    &&& opt_string_view(req.post_data) == str_spec(get_spec(r, "postData"@))
}

/// The request id of an event's params (empty if absent).
pub open spec fn request_id_of(params: Json) -> Seq<char> {
    str_or_empty(get_spec(params, "requestId"@))
}

/// The `response` object of `responseReceived` (an empty object if absent).
pub open spec fn response_obj(params: Json) -> Option<Json> {
    match get_spec(params, "response"@) {
        Some(r) => Some(r),
        None => None,
    }
}

/// The body a `getResponseBody` result carries: base64-decoded when `base64Encoded` is true
/// (nothing when that fails), else the UTF-8 bytes of the text; nothing without a `body`.
pub open spec fn body_spec(result: Json) -> Option<Seq<u8>> {
    let b64 = match bool_spec(get_spec(result, "base64Encoded"@)) {
        Some(b) => b,
        None => false,
    };
    match str_spec(get_spec(result, "body"@)) {
        Some(s) => if b64 {
            base64_standard_decode(s)
        } else {
            Some(vstd::utf8::encode_utf8(s))
        },
        None => None,
    }
}

/// What the `base64` crate's STANDARD engine decodes a text to (`None` when it refuses it).
pub uninterp spec fn base64_standard_decode(s: Seq<char>) -> Option<Seq<u8>>;

/// `base64::DecodeError`, carried through opaquely until its text is taken.
#[verifier::external_type_specification]
#[verifier::external_body]
pub struct ExDecodeError(base64::DecodeError);

/// Decodes standard base64 with the `base64` crate (`Engine::decode` on the STANDARD engine);
/// the bytes are whatever the crate gives for this text, and it fails exactly when the crate
/// refuses the text.
#[verifier::external_body]
pub(crate) fn decode_base64(s: &str) -> (r: Result<Vec<u8>, base64::DecodeError>)
    ensures
        match r {
            Ok(v) => base64_standard_decode(s@) == Some(v@),
            Err(_) => base64_standard_decode(s@) is None,
        },
{
    base64::Engine::decode(&base64::engine::general_purpose::STANDARD, s)
}

/// `to_string` of a `base64::DecodeError` (its `Display`). Nothing is claimed of the text.
#[verifier::external_body]
pub(crate) fn decode_error_text(e: &base64::DecodeError) -> String {
    e.to_string()
}

/// The body of a `getResponseBody` result.
pub fn body_of(result: &Json) -> (r: Option<Vec<u8>>)
    ensures
        match r {
            Some(v) => body_spec(*result) == Some(v@),
            None => body_spec(*result) is None,
        },
{
    let b64 = match bool_of(result.get("base64Encoded")) {
        Some(b) => b,
        None => false,
    };
    match result.get("body") {
        Some(Json::Str(s)) => {
            if b64 {
                match decode_base64(s.as_str()) {
                    Ok(v) => Some(v),
                    Err(_) => None,
                }
            } else {
                Some(vstd::slice::slice_to_vec(s.as_str().as_bytes()))
            }
        },
        _ => None,
    }
}

fn str_or_empty_of(j: Option<&Json>) -> (r: String)
    ensures
        r@ == str_or_empty(opt_ref(j)),
{
    match str_of(j) {
        Some(s) => s,
        None => String::new(),
    }
}

/// The request described by a `request` object.
pub fn request_of(r: &Json) -> (req: Request)
    ensures
        request_from(req, *r),
{
    let url = str_or_empty_of(r.get("url"));
    let method = match str_of(r.get("method")) {
        Some(m) => m,
        None => String::from_str("GET"),
    };
    let headers = string_pairs(r.get("headers"));
    let post_data = str_of(r.get("postData"));
    Request { url, method, headers, post_data }
}

pub open spec fn opt_bytes(o: Option<Vec<u8>>) -> Option<Seq<u8>> {
    match o {
        Some(v) => Some(v@),
        None => None,
    }
}

pub open spec fn status_spec(j: Option<Json>) -> Option<u32> {
    match u64_spec(j) {
        Some(n) => Some(n as u32),
        None => None,
    }
}

/// The state is as it was.
pub open spec fn unchanged(s: ListenerState, t: ListenerState) -> bool {
    &&& t.in_progress@ == s.in_progress@
    &&& t.pending@ == s.pending@
    &&& t.next_id == s.next_id
}

/// What the state becomes and what is done for one message, as a relation between the state
/// before (`s`), the message, the state after (`t`) and the outcome.
pub open spec fn step_spec(
    s: ListenerState,
    msg: CdpMessage,
    t: ListenerState,
    out: Result<ListenerAction, CdpErrorView>,
) -> bool {
    match msg.id {
        // The reply to a `getResponseBody` the state asked for: emit the packet with its body.
        Some(id) => match (msg.result, pb_get(s.pending@, id)) {
            (Some(result), Some(p)) => {
                &&& t.pending@ == s.pending@.remove(id)
                &&& t.in_progress@ == s.in_progress@
                &&& t.next_id == s.next_id
                &&& out matches Ok(ListenerAction::Emit(pkt))
                &&& pkt.request == p.request
                &&& pkt.response.url == p.response.url
                &&& pkt.response.status == p.response.status
                &&& pkt.response.status_text == p.response.status_text
                &&& pkt.response.headers == p.response.headers
                &&& opt_bytes(pkt.response.body) == opt_bytes(pkt.body)
                &&& match pkt.body {
                    Some(b) => body_spec(result) == Some(b@),
                    None => body_spec(result) is None,
                }
                &&& !pkt.is_failed
                &&& pkt.resource_type == p.resource_type
            },
            _ => unchanged(s, t) && out matches Ok(ListenerAction::Nothing),
        },
        None => match (msg.method, msg.params) {
            (Some(m), Some(params)) => {
                let rid = request_id_of(params);
                if m@ == "Network.requestWillBeSent"@ {
                    match get_spec(params, "request"@) {
                        None => unchanged(s, t) && out == Err::<ListenerAction, CdpErrorView>(
                            local_error("requestWillBeSent 无 request"@),
                        ),
                        Some(r) => {
                            &&& out matches Ok(ListenerAction::Nothing)
                            &&& t.pending@ == s.pending@
                            &&& t.next_id == s.next_id
                            &&& t.in_progress@.len() == ip_remove(s.in_progress@, rid).len() + 1
                            &&& t.in_progress@.drop_last() == ip_remove(s.in_progress@, rid)
                            &&& t.in_progress@.last().0@ == rid
                            &&& {
                                let ip = t.in_progress@.last().1;
                                &&& request_from(ip.request, r)
                                &&& ip.response_url@ == ip.request.url@
                                &&& ip.response_status is None
                                &&& ip.response_status_text is None
                                &&& ip.response_headers@.len() == 0
                                &&& opt_string_view(ip.resource_type) == str_spec(
                                    get_spec(params, "type"@),
                                )
                            }
                        },
                    }
                } else if m@ == "Network.responseReceived"@ {
                    match ip_get(s.in_progress@, rid) {
                        None => unchanged(s, t) && out matches Ok(ListenerAction::Nothing),
                        Some(p) => {
                            let resp = response_obj(params);
                            let rtype = str_spec(get_spec(params, "type"@));
                            &&& out matches Ok(ListenerAction::Nothing)
                            &&& t.pending@ == s.pending@
                            &&& t.next_id == s.next_id
                            &&& t.in_progress@.len() == ip_remove(s.in_progress@, rid).len() + 1
                            &&& t.in_progress@.drop_last() == ip_remove(s.in_progress@, rid)
                            &&& t.in_progress@.last().0@ == rid
                            &&& {
                                let ip = t.in_progress@.last().1;
                                &&& ip.request == p.request
                                &&& ip.response_url@ == str_or_empty(get_opt(resp, "url"@))
                                &&& ip.response_status == status_spec(get_opt(resp, "status"@))
                                &&& opt_string_view(ip.response_status_text) == str_spec(
                                    get_opt(resp, "statusText"@),
                                )
                                &&& headers_view(ip.response_headers@) == headers_spec(
                                    get_opt(resp, "headers"@),
                                )
                                &&& if rtype is Some {
                                    opt_string_view(ip.resource_type) == rtype
                                } else {
                                    ip.resource_type == p.resource_type
                                }
                            }
                        },
                    }
                } else if m@ == "Network.loadingFinished"@ {
                    match ip_get(s.in_progress@, rid) {
                        None => unchanged(s, t) && out matches Ok(ListenerAction::Nothing),
                        Some(p) => {
                            &&& t.in_progress@ == ip_remove(s.in_progress@, rid)
                            &&& t.next_id == s.next_id.wrapping_add(1)
                            &&& out matches Ok(ListenerAction::RequestBody { command_id, request_id })
                            &&& command_id == s.next_id
                            &&& request_id@ == rid
                            &&& t.pending@.contains_key(s.next_id)
                            &&& t.pending@ == s.pending@.insert(s.next_id, t.pending@[s.next_id])
                            &&& {
                                let pb = t.pending@[s.next_id];
                                &&& pb.request_id@ == rid
                                &&& pb.request == p.request
                                &&& pb.response == Response {
                                    url: p.response_url,
                                    status: p.response_status,
                                    status_text: p.response_status_text,
                                    headers: p.response_headers,
                                    body: None,
                                }
                                &&& pb.resource_type == p.resource_type
                            }
                        },
                    }
                } else if m@ == "Network.loadingFailed"@ {
                    match ip_get(s.in_progress@, rid) {
                        None => unchanged(s, t) && out matches Ok(ListenerAction::Nothing),
                        Some(p) => {
                            &&& t.in_progress@ == ip_remove(s.in_progress@, rid)
                            &&& t.pending@ == s.pending@
                            &&& t.next_id == s.next_id
                            &&& out matches Ok(ListenerAction::Emit(pkt))
                            &&& pkt.request == p.request
                            &&& pkt.response == Response {
                                url: p.response_url,
                                status: p.response_status,
                                status_text: p.response_status_text,
                                headers: p.response_headers,
                                body: None,
                            }
                            &&& pkt.body is None
                            &&& pkt.is_failed
                            &&& opt_string_view(pkt.resource_type) == str_spec(
                                get_spec(params, "type"@),
                            )
                        },
                    }
                } else {
                    unchanged(s, t) && out matches Ok(ListenerAction::Nothing)
                }
            },
            _ => unchanged(s, t) && out matches Ok(ListenerAction::Nothing),
        },
    }
}

pub open spec fn action_view(r: Result<ListenerAction, CdpError>) -> Result<ListenerAction, CdpErrorView> {
    match r {
        Ok(a) => Ok(a),
        Err(e) => Err(e@),
    }
}

/// The filter a listener applies to the packets it hands out.
#[derive(Debug, Clone)]
pub enum PacketFilter {
    /// Every packet.
    All,
    /// Packets whose request or response URL contains the text.
    UrlContains(String),
    /// Packets of this resource type, compared without ASCII case.
    ResourceType(String),
}

pub open spec fn filter_spec(f: PacketFilter, pkt: DataPacket) -> bool {
    match f {
        PacketFilter::All => true,
        PacketFilter::UrlContains(p) => contains_seq(pkt.request.url@, p@) || contains_seq(
            pkt.response.url@,
            p@,
        ),
        PacketFilter::ResourceType(rt) => match pkt.resource_type {
            Some(t) => eq_ignore_ascii_case(t@, rt@),
            None => false,
        },
    }
}

impl PacketFilter {
    /// Whether the packet passes the filter.
    pub fn matches(&self, packet: &DataPacket) -> (r: bool)
        ensures
            r == filter_spec(*self, *packet),
    {
        match self {
            PacketFilter::All => true,
            PacketFilter::UrlContains(p) => str_contains(packet.request.url.as_str(), p.as_str())
                || str_contains(packet.response.url.as_str(), p.as_str()),
            PacketFilter::ResourceType(rt) => match &packet.resource_type {
                Some(t) => str_eq_ignore_ascii_case(t.as_str(), rt.as_str()),
                None => false,
            },
        }
    }
}

/// While setting up the listening connection, the reply to command `expect_id`: `None` to keep
/// reading; else the result, or an error when the reply has none.
pub fn setup_reply(msg: CdpMessage, expect_id: i64) -> (r: Option<Result<Json, CdpError>>)
    ensures
        msg.id != Some(expect_id) ==> r is None,
        msg.id == Some(expect_id) ==> (r matches Some(x) && match msg.result {
            Some(j) => result_view(x) == Ok::<Json, CdpErrorView>(j),
            None => result_view(x) == Err::<Json, CdpErrorView>(
                CdpErrorView::Protocol { id: Some(expect_id), code: -1i64, message: "响应无 result"@ },
            ),
        }),
{
    match msg.id {
        Some(id) => {
            if id != expect_id {
                return None;
            }
            match msg.result {
                Some(j) => Some(Ok(j)),
                None => Some(
                    Err(
                        CdpError::Protocol {
                            id: Some(expect_id),
                            code: -1,
                            message: String::from_str("响应无 result"),
                        },
                    ),
                ),
            }
        },
        None => None,
    }
}

/// While setting up the listening connection: `None` to keep reading, else the reply to
/// command `expect_id` as `setup_reply` reads it; a closed connection ends the wait.
pub fn setup_read_step(incoming: Incoming, expect_id: i64) -> (r: Option<Result<Json, CdpError>>)
    ensures
        match incoming {
            Incoming::Message(m) => {
                &&& m.id != Some(expect_id) ==> r is None
                &&& m.id == Some(expect_id) ==> (r matches Some(x) && match m.result {
                    Some(j) => result_view(x) == Ok::<Json, CdpErrorView>(j),
                    None => result_view(x) == Err::<Json, CdpErrorView>(
                        CdpErrorView::Protocol {
                            id: Some(expect_id),
                            code: -1i64,
                            message: "响应无 result"@,
                        },
                    ),
                })
            },
            Incoming::Close => r matches Some(Err(e)) && e@ == CdpErrorView::Recv("连接已关闭"@),
            Incoming::Other => r is None,
        },
{
    match incoming {
        Incoming::Message(m) => setup_reply(m, expect_id),
        Incoming::Close => Some(Err(CdpError::Recv(String::from_str("连接已关闭")))),
        Incoming::Other => None,
    }
}

/// The error of a listener whose background connection never became ready.
pub fn listener_start_error() -> (r: CdpError)
    ensures
        r@ == CdpErrorView::Connect("监听线程启动失败"@),
{
    CdpError::Connect(String::from_str("监听线程启动失败"))
}

/// The session id in the result of attaching to the tab (command 1).
pub fn attached_session_id(result: &Json) -> (r: Result<String, CdpError>)
    ensures
        match r {
            Ok(sid) => str_spec(get_spec(*result, "sessionId"@)) == Some(sid@),
            Err(e) => str_spec(get_spec(*result, "sessionId"@)) is None && e@ == (
            CdpErrorView::Protocol {
                id: Some(1),
                code: -1i64,
                message: "Target.attachToTarget 无 sessionId"@,
            }),
        },
{
    match str_of(result.get("sessionId")) {
        Some(s) => Ok(s),
        None => Err(
            CdpError::Protocol {
                id: Some(1),
                code: -1,
                message: String::from_str("Target.attachToTarget 无 sessionId"),
            },
        ),
    }
}

impl ListenerState {
    /// A state with nothing in progress; body requests get ids from 3 on (ids 1 and 2 are
    /// taken by attaching to the tab and enabling the network domain).
    pub fn new() -> (r: Self)
        ensures
            r.in_progress@.len() == 0,
            r.pending@ == Map::<i64, PendingBody>::empty(),
            r.next_id == 3,
    {
        ListenerState { in_progress: Vec::new(), pending: HashMap::new(), next_id: 3 }
    }

    /// Takes in one message of the listening connection.
    pub fn on_message(&mut self, msg: CdpMessage) -> (r: Result<ListenerAction, CdpError>)
        ensures
            step_spec(*old(self), msg, *final(self), action_view(r)),
    {
        let ghost s = *self;
        match msg.id {
            Some(id) => {
                match &msg.result {
                    Some(result) => {
                        match self.pending.remove(&id) {
                            Some(p) => {
                                let body = body_of(result);
                                let response = Response {
                                    url: p.response.url,
                                    status: p.response.status,
                                    status_text: p.response.status_text,
                                    headers: p.response.headers,
                                    body: match &body {
                                        Some(b) => Some(b.clone()),
                                        None => None,
                                    },
                                };
                                let pkt = DataPacket {
                                    request: p.request,
                                    response,
                                    body,
                                    is_failed: false,
                                    resource_type: p.resource_type,
                                };
                                return Ok(ListenerAction::Emit(pkt));
                            },
                            None => {
                                assert(s.pending@.remove(id) =~= s.pending@);
                                return Ok(ListenerAction::Nothing);
                            },
                        }
                    },
                    None => {
                        return Ok(ListenerAction::Nothing);
                    },
                }
            },
            None => {},
        }
        let (method, params) = match (msg.method, msg.params) {
            (Some(m), Some(p)) => (m, p),
            _ => {
                return Ok(ListenerAction::Nothing);
            },
        };
        let rid = str_or_empty_of(params.get("requestId"));
        if str_equal(method.as_str(), "Network.requestWillBeSent") {
            let request = match params.get("request") {
                Some(r) => r,
                None => {
                    return Err(
                        CdpError::Protocol {
                            id: None,
                            code: -1,
                            message: String::from_str("requestWillBeSent 无 request"),
                        },
                    );
                },
            };
            let req = request_of(request);
            let resource_type = str_of(params.get("type"));
            let response_url = req.url.clone();
            let ip = InProgress {
                request: req,
                response_url,
                response_status: None,
                response_status_text: None,
                response_headers: Vec::new(),
                resource_type,
            };
            let _ = ip_take(&mut self.in_progress, rid.as_str());
            self.in_progress.push((rid, ip));
            assert(msg.method == Some(method));
            assert(msg.params == Some(params));
            assert(msg.id is None);
            assert(method@ == "Network.requestWillBeSent"@);
            assert(get_spec(params, "request"@) == Some(*request));
            assert(self.in_progress@.drop_last() == ip_remove(s.in_progress@, request_id_of(params)));
            assert(request_from(self.in_progress@.last().1.request, *request));
            assert(opt_string_view(self.in_progress@.last().1.resource_type) == str_spec(
                get_spec(params, "type"@),
            ));
            return Ok(ListenerAction::Nothing);
        }
        if str_equal(method.as_str(), "Network.responseReceived") {
            let empty = Json::Object(Vec::new());
            let response = match params.get("response") {
                Some(r) => r,
                None => &empty,
            };
            let url = str_or_empty_of(response.get("url"));
            let status = match u64_of(response.get("status")) {
                Some(n) => Some(#[verifier::truncate] (n as u32)),
                None => None,
            };
            let status_text = str_of(response.get("statusText"));
            let headers = string_pairs(response.get("headers"));
            let resource_type = str_of(params.get("type"));
            match ip_take(&mut self.in_progress, rid.as_str()) {
                Some(p) => {
                    let rt = match resource_type {
                        Some(t) => Some(t),
                        None => p.resource_type,
                    };
                    let ip = InProgress {
                        request: p.request,
                        response_url: url,
                        response_status: status,
                        response_status_text: status_text,
                        response_headers: headers,
                        resource_type: rt,
                    };
                    self.in_progress.push((rid, ip));
                    assert(msg.method == Some(method));
                    assert(msg.params == Some(params));
                    assert(msg.id is None);
                    assert(method@ == "Network.responseReceived"@);
                    assert(!(method@ == "Network.requestWillBeSent"@));
                    assert(ip_get(s.in_progress@, request_id_of(params)) == Some(p));
                    assert(self.in_progress@.drop_last() == ip_remove(
                        s.in_progress@,
                        request_id_of(params),
                    ));
                },
                None => {
                    proof {
                        lemma_ip_remove_absent(s.in_progress@, rid@);
                    }
                    assert(self.in_progress@ =~= s.in_progress@);
                },
            }
            return Ok(ListenerAction::Nothing);
        }
        if str_equal(method.as_str(), "Network.loadingFinished") {
            match ip_take(&mut self.in_progress, rid.as_str()) {
                Some(p) => {
                    let id = self.next_id;
                    self.next_id = self.next_id.wrapping_add(1);
                    let response = Response {
                        url: p.response_url,
                        status: p.response_status,
                        status_text: p.response_status_text,
                        headers: p.response_headers,
                        body: None,
                    };
                    let pb = PendingBody {
                        request_id: rid.clone(),
                        request: p.request,
                        response,
                        resource_type: p.resource_type,
                    };
                    self.pending.insert(id, pb);
                    assert(msg.method == Some(method));
                    assert(msg.params == Some(params));
                    assert(msg.id is None);
                    assert(method@ == "Network.loadingFinished"@);
                    assert(!(method@ == "Network.requestWillBeSent"@));
                    assert(!(method@ == "Network.responseReceived"@));
                    assert(ip_get(s.in_progress@, request_id_of(params)) == Some(p));
                    assert(self.pending@ =~= s.pending@.insert(s.next_id, self.pending@[s.next_id]));
                    return Ok(ListenerAction::RequestBody { command_id: id, request_id: rid });
                },
                None => {
                    proof {
                        lemma_ip_remove_absent(s.in_progress@, rid@);
                    }
                    assert(self.in_progress@ =~= s.in_progress@);
                    return Ok(ListenerAction::Nothing);
                },
            }
        }
        if str_equal(method.as_str(), "Network.loadingFailed") {
            let resource_type = str_of(params.get("type"));
            match ip_take(&mut self.in_progress, rid.as_str()) {
                Some(p) => {
                    let response = Response {
                        url: p.response_url,
                        status: p.response_status,
                        status_text: p.response_status_text,
                        headers: p.response_headers,
                        body: None,
                    };
                    let pkt = DataPacket {
                        request: p.request,
                        response,
                        body: None,
                        is_failed: true,
                        resource_type,
                    };
                    return Ok(ListenerAction::Emit(pkt));
                },
                None => {
                    proof {
                        lemma_ip_remove_absent(s.in_progress@, rid@);
                    }
                    assert(self.in_progress@ =~= s.in_progress@);
                    return Ok(ListenerAction::Nothing);
                },
            }
        }
        Ok(ListenerAction::Nothing)
    }
}

proof fn lemma_event_names_distinct()
    ensures
        "Network.requestWillBeSent"@.len() == 25,
        "Network.responseReceived"@.len() == 24,
        "Network.loadingFinished"@.len() == 23,
        "Network.loadingFailed"@.len() == 21,
{
    reveal_strlit("Network.requestWillBeSent");
    reveal_strlit("Network.responseReceived");
    reveal_strlit("Network.loadingFinished");
    reveal_strlit("Network.loadingFailed");
}

proof fn lemma_ip_get_removed(s: Seq<(String, InProgress)>, k: Seq<char>)
    ensures
        ip_get(ip_remove(s, k), k) is None,
    decreases s.len(),
{
    if s.len() > 0 {
        lemma_ip_get_removed(s.drop_last(), k);
        let r = ip_remove(s.drop_last(), k);
        if s.last().0@ != k {
            assert(r.push(s.last()).drop_last() =~= r);
        }
    }
}

proof fn lemma_ip_get_pushed(x: Seq<(String, InProgress)>, e: (String, InProgress), k: Seq<char>)
    requires
        ip_get(x, k) is None,
        e.0@ == k,
    ensures
        ip_get(x.push(e), k) == Some(e.1),
{
    assert(x.push(e).drop_last() =~= x);
}

/// The request ids of the requests in progress, in order.
pub open spec fn ip_keys(s: Seq<(String, InProgress)>) -> Seq<Seq<char>> {
    s.map_values(|p: (String, InProgress)| p.0@)
}

proof fn lemma_push_distinct(q: Seq<Seq<char>>, x: Seq<char>)
    requires
        q.no_duplicates(),
        !q.contains(x),
    ensures
        q.push(x).no_duplicates(),
{
    let r = q.push(x);
    assert forall|a: int, b: int| 0 <= a < r.len() && 0 <= b < r.len() && a != b implies r[a]
        != r[b] by {
        if a == q.len() {
            assert(q[b] == r[b]);
        } else if b == q.len() {
            assert(q[a] == r[a]);
        } else {
            assert(q[a] == r[a] && q[b] == r[b]);
        }
    }
}

/// Removing a request id keeps the others' ids, in order, and leaves that id out.
proof fn lemma_ip_remove_keys(s: Seq<(String, InProgress)>, k: Seq<char>)
    ensures
        forall|x: Seq<char>| #[trigger] ip_keys(ip_remove(s, k)).contains(x) ==> ip_keys(s).contains(x) && x != k,
        ip_keys(s).no_duplicates() ==> ip_keys(ip_remove(s, k)).no_duplicates(),
    decreases s.len(),
{
    if s.len() > 0 {
        let d = s.drop_last();
        lemma_ip_remove_keys(d, k);
        let r = ip_remove(d, k);
        assert(ip_keys(d) =~= ip_keys(s).drop_last());
        assert forall|x: Seq<char>| #[trigger] ip_keys(d).contains(x) implies ip_keys(s).contains(x) by {
            let j = choose|j: int| 0 <= j < ip_keys(d).len() && ip_keys(d)[j] == x;
            assert(ip_keys(s)[j] == x);
        }
        if s.last().0@ != k {
            assert(ip_keys(r.push(s.last())) =~= ip_keys(r).push(s.last().0@));
            assert forall|x: Seq<char>| #[trigger] ip_keys(ip_remove(s, k)).contains(x) implies ip_keys(s).contains(x) && x != k by {
                let q = ip_keys(r).push(s.last().0@);
                let j = choose|j: int| 0 <= j < q.len() && q[j] == x;
                if j == ip_keys(r).len() {
                    assert(ip_keys(s)[s.len() - 1] == x);
                } else {
                    assert(ip_keys(r)[j] == x);
                    assert(ip_keys(r).contains(x));
                }
            }
            if ip_keys(s).no_duplicates() {
                assert(ip_keys(d).no_duplicates()) by {
                    assert forall|a: int, b: int| 0 <= a < ip_keys(d).len() && 0 <= b < ip_keys(d).len() && a != b implies ip_keys(d)[a] != ip_keys(d)[b] by {
                        assert(ip_keys(d)[a] == ip_keys(s)[a] && ip_keys(d)[b] == ip_keys(s)[b]);
                    }
                }
                assert(!ip_keys(r).contains(s.last().0@)) by {
                    if ip_keys(r).contains(s.last().0@) {
                        let j = choose|j: int| 0 <= j < ip_keys(d).len() && ip_keys(d)[j] == s.last().0@;
                        assert(ip_keys(s)[j] == ip_keys(s)[s.len() - 1]);
                    }
                }
                lemma_push_distinct(ip_keys(r), s.last().0@);
            }
        } else {
            if ip_keys(s).no_duplicates() {
                assert(ip_keys(d).no_duplicates()) by {
                    assert forall|a: int, b: int| 0 <= a < ip_keys(d).len() && 0 <= b < ip_keys(d).len() && a != b implies ip_keys(d)[a] != ip_keys(d)[b] by {
                        assert(ip_keys(d)[a] == ip_keys(s)[a] && ip_keys(d)[b] == ip_keys(s)[b]);
                    }
                }
            }
        }
    }
}

/// Law: the state holds each request in progress under its id once, as a map from request
/// ids would: every message keeps the ids of the requests in progress distinct.
pub proof fn law_in_progress_ids_once(
    s: ListenerState,
    msg: CdpMessage,
    t: ListenerState,
    out: Result<ListenerAction, CdpErrorView>,
)
    requires
        step_spec(s, msg, t, out),
        ip_keys(s.in_progress@).no_duplicates(),
    ensures
        ip_keys(t.in_progress@).no_duplicates(),
{
    if msg.id is None && msg.method is Some && msg.params is Some {
        let rid = request_id_of(msg.params->0);
        let r = ip_remove(s.in_progress@, rid);
        lemma_ip_remove_keys(s.in_progress@, rid);
        let ti = t.in_progress@;
        if ti.len() > 0 && ti.drop_last() == r && ti.last().0@ == rid {
            assert(ti =~= r.push(ti.last()));
            assert(ip_keys(ti) =~= ip_keys(r).push(rid));
            lemma_push_distinct(ip_keys(r), rid);
        }
    }
}

/// Law: once a request has finished or failed loading, the state no longer holds it as in
/// progress; a later event for it finds nothing.
pub proof fn law_finished_request_leaves(
    s: ListenerState,
    msg: CdpMessage,
    t: ListenerState,
    out: Result<ListenerAction, CdpErrorView>,
)
    requires
        step_spec(s, msg, t, out),
        msg.id is None,
        msg.method matches Some(m) && (m@ == "Network.loadingFinished"@ || m@
            == "Network.loadingFailed"@),
        msg.params is Some,
    ensures
        ip_get(t.in_progress@, request_id_of(msg.params->0)) is None,
{
    lemma_event_names_distinct();
    let k = request_id_of(msg.params->0);
    lemma_ip_get_removed(s.in_progress@, k);
    if ip_get(s.in_progress@, k) is None {
        lemma_ip_remove_absent(s.in_progress@, k);
    }
}

/// Law: a request that is sent and then fails to load is reported once, as a failed packet
/// carrying that request and no body, whatever the state held before.
pub proof fn law_sent_then_failed_is_reported(
    s0: ListenerState,
    sent: CdpMessage,
    s1: ListenerState,
    out1: Result<ListenerAction, CdpErrorView>,
    failed: CdpMessage,
    s2: ListenerState,
    out2: Result<ListenerAction, CdpErrorView>,
)
    requires
        step_spec(s0, sent, s1, out1),
        step_spec(s1, failed, s2, out2),
        sent.id is None,
        sent.method matches Some(m) && m@ == "Network.requestWillBeSent"@,
        sent.params matches Some(p) && get_spec(p, "request"@) is Some,
        failed.id is None,
        failed.method matches Some(m) && m@ == "Network.loadingFailed"@,
        failed.params is Some,
        request_id_of(failed.params->0) == request_id_of(sent.params->0),
    ensures
        out2 matches Ok(ListenerAction::Emit(pkt)) && pkt.is_failed && pkt.body is None
            && request_from(pkt.request, get_spec(sent.params->0, "request"@)->0),
        ip_get(s2.in_progress@, request_id_of(sent.params->0)) is None,
{
    lemma_event_names_distinct();
    let k = request_id_of(sent.params->0);
    let x = ip_remove(s0.in_progress@, k);
    lemma_ip_get_removed(s0.in_progress@, k);
    assert(s1.in_progress@ =~= x.push(s1.in_progress@.last()));
    lemma_ip_get_pushed(x, s1.in_progress@.last(), k);
    lemma_ip_get_removed(s1.in_progress@, k);
}

/// Law: a request that is sent and then finishes loading has its body asked for, and the
/// reply to that request emits one packet carrying the request and the body the reply holds,
/// whatever the state held before.
pub proof fn law_finished_request_is_emitted_with_body(
    s0: ListenerState,
    sent: CdpMessage,
    s1: ListenerState,
    out1: Result<ListenerAction, CdpErrorView>,
    finished: CdpMessage,
    s2: ListenerState,
    out2: Result<ListenerAction, CdpErrorView>,
    reply: CdpMessage,
    s3: ListenerState,
    out3: Result<ListenerAction, CdpErrorView>,
)
    requires
        step_spec(s0, sent, s1, out1),
        step_spec(s1, finished, s2, out2),
        step_spec(s2, reply, s3, out3),
        sent.id is None,
        sent.method matches Some(m) && m@ == "Network.requestWillBeSent"@,
        sent.params matches Some(p) && get_spec(p, "request"@) is Some,
        finished.id is None,
        finished.method matches Some(m) && m@ == "Network.loadingFinished"@,
        finished.params is Some,
        request_id_of(finished.params->0) == request_id_of(sent.params->0),
        reply.id == Some(s1.next_id),
        reply.result is Some,
    ensures
        out2 matches Ok(ListenerAction::RequestBody { command_id, request_id }) && command_id
            == s1.next_id && request_id@ == request_id_of(sent.params->0),
        out3 matches Ok(ListenerAction::Emit(pkt)) && !pkt.is_failed && request_from(
            pkt.request,
            get_spec(sent.params->0, "request"@)->0,
        ) && match pkt.body {
            Some(b) => body_spec(reply.result->0) == Some(b@),
            None => body_spec(reply.result->0) is None,
        },
{
    lemma_event_names_distinct();
    let k = request_id_of(sent.params->0);
    let x = ip_remove(s0.in_progress@, k);
    lemma_ip_get_removed(s0.in_progress@, k);
    assert(s1.in_progress@ =~= x.push(s1.in_progress@.last()));
    lemma_ip_get_pushed(x, s1.in_progress@.last(), k);
}

proof fn lemma_ip_remove_absent(s: Seq<(String, InProgress)>, k: Seq<char>)
    requires
        ip_get(s, k) is None,
    ensures
        ip_remove(s, k) == s,
    decreases s.len(),
{
    if s.len() > 0 {
        lemma_ip_remove_absent(s.drop_last(), k);
        assert(s.drop_last().push(s.last()) =~= s);
    }
}


// ---------- collecting packets ----------

/// What one wait of a collection brought: a packet with the callback's answer to it (whether
/// to go on), nothing (the wait ran out or the connection ended), or an error.
#[derive(Debug)]
pub enum CollectEvent {
    Packet(DataPacket, bool),
    Nothing,
    Failed(CdpError),
}

/// The packets collected so far and whether to wait again, or the end of the collection.
#[derive(Debug)]
pub enum CollectStep {
    Continue(Vec<DataPacket>),
    Finish(Result<Vec<DataPacket>, CdpError>),
}

/// One wait of a collection: a packet is kept, and the collection goes on while the callback
/// answers `true`; a wait that brings nothing ends it with what was collected; an error ends
/// it with the error.
pub fn collect_step(collected: Vec<DataPacket>, event: CollectEvent) -> (r: CollectStep)
    ensures
        match event {
            CollectEvent::Packet(p, true) => r matches CollectStep::Continue(v) && v@
                == collected@.push(p),
            CollectEvent::Packet(p, false) => r matches CollectStep::Finish(Ok(v)) && v@
                == collected@.push(p),
            CollectEvent::Nothing => r matches CollectStep::Finish(Ok(v)) && v@ == collected@,
            CollectEvent::Failed(e) => r matches CollectStep::Finish(Err(x)) && x@ == e@,
        },
{
    let mut collected = collected;
    match event {
        CollectEvent::Packet(p, go_on) => {
            collected.push(p);
            if go_on {
                CollectStep::Continue(collected)
            } else {
                CollectStep::Finish(Ok(collected))
            }
        },
        CollectEvent::Nothing => CollectStep::Finish(Ok(collected)),
        CollectEvent::Failed(e) => CollectStep::Finish(Err(e)),
    }
}

} // verus!
