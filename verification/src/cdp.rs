//! The DevTools protocol's messages and errors: how a reply is matched to its command,
//! how an incoming message is routed, and what each error says.

use crate::json::Json;
use crate::text::{dec_int, push_i64, push_u64, starts_with, dec_nat};
use vstd::prelude::*;
use vstd::string::StringExecFns;

verus! {

/// `serde_json::Error`, carried through opaquely inside `CdpError::Json`.
#[verifier::external_type_specification]
#[verifier::external_body]
pub struct ExJsonError(serde_json::Error);

/// Errors of the protocol client and of the operations built on it.
#[derive(Debug)]
pub enum CdpError {
    Http(String),
    Connect(String),
    Send(String),
    Recv(String),
    Protocol { id: Option<i64>, code: i64, message: String },
    Json(serde_json::Error),
    Timeout(String),
    ChannelClosed(String),
    WebSocket(String),
    HttpStatus { status: u16, body: String },
}

/// An error with its strings as character sequences; a JSON error is only marked.
pub enum CdpErrorView {
    Http(Seq<char>),
    Connect(Seq<char>),
    Send(Seq<char>),
    Recv(Seq<char>),
    Protocol { id: Option<i64>, code: i64, message: Seq<char> },
    Json,
    Timeout(Seq<char>),
    ChannelClosed(Seq<char>),
    WebSocket(Seq<char>),
    HttpStatus { status: u16, body: Seq<char> },
}

impl View for CdpError {
    type V = CdpErrorView;

    open spec fn view(&self) -> CdpErrorView {
        match self {
            CdpError::Http(s) => CdpErrorView::Http(s@),
            CdpError::Connect(s) => CdpErrorView::Connect(s@),
            CdpError::Send(s) => CdpErrorView::Send(s@),
            CdpError::Recv(s) => CdpErrorView::Recv(s@),
            CdpError::Protocol { id, code, message } => CdpErrorView::Protocol {
                id: *id,
                code: *code,
                message: message@,
            },
            CdpError::Json(_) => CdpErrorView::Json,
            CdpError::Timeout(s) => CdpErrorView::Timeout(s@),
            CdpError::ChannelClosed(s) => CdpErrorView::ChannelClosed(s@),
            CdpError::WebSocket(s) => CdpErrorView::WebSocket(s@),
            CdpError::HttpStatus { status, body } => CdpErrorView::HttpStatus {
                status: *status,
                body: body@,
            },
        }
    }
}

/// A protocol error made by the library itself: no command id, code -1.
pub open spec fn local_error(message: Seq<char>) -> CdpErrorView {
    CdpErrorView::Protocol { id: None, code: -1i64, message }
}

/// `message (locator: ctx)`.
pub open spec fn with_context_message(message: Seq<char>, ctx: Seq<char>) -> Seq<char> {
    message + " (locator: "@ + ctx + ")"@
}

/// What `with_context` makes of an error: protocol errors get the locator appended to their
/// message; every other error is kept.
pub open spec fn with_context_spec(e: CdpErrorView, ctx: Seq<char>) -> CdpErrorView {
    match e {
        CdpErrorView::Protocol { id, code, message } => CdpErrorView::Protocol {
            id,
            code,
            message: with_context_message(message, ctx),
        },
        other => other,
    }
}

/// `Some(<n>)` or `None`, as `Debug` writes an optional integer.
pub open spec fn debug_opt_i64(id: Option<i64>) -> Seq<char> {
    match id {
        Some(n) => "Some("@ + dec_int(n as int) + ")"@,
        None => "None"@,
    }
}

/// The message of every error but a JSON error (whose text comes from the JSON parser).
pub open spec fn message_spec(e: CdpErrorView) -> Seq<char> {
    match e {
        CdpErrorView::Http(s) => "HTTP request failed: "@ + s,
        CdpErrorView::Connect(s) => "WebSocket connection failed: "@ + s,
        CdpErrorView::Send(s) => "Failed to send message: "@ + s,
        CdpErrorView::Recv(s) => "Failed to receive message: "@ + s,
        CdpErrorView::Protocol { id, code, message } => "CDP error: id="@ + debug_opt_i64(id)
            + ", code="@ + dec_int(code as int) + ", message="@ + message,
        CdpErrorView::Json => "JSON error: "@,
        CdpErrorView::Timeout(s) => "Operation timed out: "@ + s,
        CdpErrorView::ChannelClosed(s) => "Channel closed: "@ + s,
        CdpErrorView::WebSocket(s) => "WebSocket error: "@ + s,
        CdpErrorView::HttpStatus { status, body } => "HTTP status error: status="@ + dec_nat(
            status as nat,
        ) + ", body="@ + body,
    }
}

/// `to_string` of a `serde_json::Error` (its `Display`). Nothing is claimed of the text: it
/// is the parser's own description of the error.
#[verifier::external_body]
fn json_error_text(e: &serde_json::Error) -> String {
    e.to_string()
}

impl CdpError {
    /// Appends ` (locator: ctx)` to the message of a protocol error; other errors are kept.
    pub fn with_context(self, ctx: &str) -> (r: Self)
        ensures
            r@ == with_context_spec(self@, ctx@),
    {
        match self {
            CdpError::Protocol { id, code, message } => {
                let mut m = message;
                m.append(" (locator: ");
                m.append(ctx);
                m.append(")");
                CdpError::Protocol { id, code, message: m }
            },
            other => other,
        }
    }

    /// The error's message. For a JSON error it is `JSON error: ` followed by the parser's text.
    pub fn to_string(&self) -> (r: String)
        ensures
            self@ is Json ==> starts_with(r@, message_spec(self@)),
            !(self@ is Json) ==> r@ == message_spec(self@),
    {
        let (head, tail): (&str, &String) = match self {
            CdpError::Http(s) => ("HTTP request failed: ", s),
            CdpError::Connect(s) => ("WebSocket connection failed: ", s),
            CdpError::Send(s) => ("Failed to send message: ", s),
            CdpError::Recv(s) => ("Failed to receive message: ", s),
            CdpError::Timeout(s) => ("Operation timed out: ", s),
            CdpError::ChannelClosed(s) => ("Channel closed: ", s),
            CdpError::WebSocket(s) => ("WebSocket error: ", s),
            CdpError::Protocol { id, code, message } => {
                let mut out = String::from_str("CDP error: id=");
                match id {
                    Some(n) => {
                        out.append("Some(");
                        push_i64(&mut out, *n);
                        out.append(")");
                    },
                    None => {
                        out.append("None");
                    },
                }
                out.append(", code=");
                push_i64(&mut out, *code);
                out.append(", message=");
                out.append(message.as_str());
                return out;
            },
            CdpError::HttpStatus { status, body } => {
                let mut out = String::from_str("HTTP status error: status=");
                push_u64(&mut out, *status as u64);
                out.append(", body=");
                out.append(body.as_str());
                return out;
            },
            CdpError::Json(e) => {
                let mut out = String::from_str("JSON error: ");
                let ghost head = out@;
                out.append(json_error_text(e).as_str());
                assert(out@.take(head.len() as int) =~= head);
                return out;
            },
        };
        let mut out = String::from_str(head);
        out.append(tail.as_str());
        out
    }
}

/// A protocol error made by the library itself, with this message.
pub(crate) fn protocol_error(message: &str) -> (r: CdpError)
    ensures
        r@ == local_error(message@),
{
    CdpError::Protocol { id: None, code: -1, message: String::from_str(message) }
}

/// A result with its error by its view.
pub open spec fn err_view<T>(r: Result<T, CdpError>) -> Result<T, CdpErrorView> {
    match r {
        Ok(t) => Ok(t),
        Err(e) => Err(e@),
    }
}

/// A string result with the string and the error by their views.
pub open spec fn string_result_view(r: Result<String, CdpError>) -> Result<Seq<char>, CdpErrorView> {
    match r {
        Ok(s) => Ok(s@),
        Err(e) => Err(e@),
    }
}

/// The error body of a failed command's reply.
#[derive(Debug, Clone)]
pub struct CdpErrorBody {
    pub code: i64,
    pub message: String,
}

/// A message received from the browser: a reply (with `id`) or an event (with `method`).
#[derive(Debug)]
pub struct CdpMessage {
    pub id: Option<i64>,
    pub result: Option<Json>,
    /// The error of a failed command.
    pub error: Option<CdpErrorBody>,
    pub method: Option<String>,
    pub params: Option<Json>,
    pub session_id: Option<String>,
}

/// The reply a command gets from its response message: the error the browser reported, else
/// the result, else an error saying the result is missing.
pub open spec fn reply_spec(id: i64, result: Option<Json>, error: Option<CdpErrorBody>) -> Result<
    Json,
    CdpErrorView,
> {
    match error {
        Some(b) => Err(CdpErrorView::Protocol { id: Some(id), code: b.code, message: b.message@ }),
        None => match result {
            Some(r) => Ok(r),
            None => Err(
                CdpErrorView::Protocol {
                    id: Some(id),
                    code: -1i64,
                    message: "CDP response did not include a result payload"@,
                },
            ),
        },
    }
}

pub open spec fn result_view(r: Result<Json, CdpError>) -> Result<Json, CdpErrorView> {
    match r {
        Ok(j) => Ok(j),
        Err(e) => Err(e@),
    }
}

fn reply_of(id: i64, result: Option<Json>, error: Option<CdpErrorBody>) -> (r: Result<
    Json,
    CdpError,
>)
    ensures
        result_view(r) == reply_spec(id, result, error),
{
    match error {
        Some(b) => Err(CdpError::Protocol { id: Some(id), code: b.code, message: b.message }),
        None => match result {
            Some(j) => Ok(j),
            None => Err(
                CdpError::Protocol {
                    id: Some(id),
                    code: -1,
                    message: String::from_str("CDP response did not include a result payload"),
                },
            ),
        },
    }
}

/// While waiting for the reply to command `expect_id`: `None` to keep reading (an event or
/// another command's reply), else the reply.
pub fn reply_for(msg: CdpMessage, expect_id: i64) -> (r: Option<Result<Json, CdpError>>)
    ensures
        msg.id != Some(expect_id) ==> r is None,
        msg.id == Some(expect_id) ==> (r matches Some(x) && result_view(x) == reply_spec(
            expect_id,
            msg.result,
            msg.error,
        )),
{
    match msg.id {
        Some(id) => if id == expect_id {
            Some(reply_of(expect_id, msg.result, msg.error))
        } else {
            None
        },
        None => None,
    }
}

/// An event from the browser: its method, its params (`null` when none came) and the session
/// it belongs to.
#[derive(Debug)]
pub struct CdpEvent {
    pub method: String,
    pub params: Json,
    pub session_id: Option<String>,
}

/// A frame read from the connection: a text message (already read as a message), a close
/// frame, or anything else.
#[derive(Debug)]
pub enum Incoming {
    Message(CdpMessage),
    Close,
    Other,
}

/// While waiting for the reply to command `expect_id` on a blocking connection: `None` to keep
/// reading, else the reply; a closed connection ends the wait with an error.
pub fn read_step(incoming: Incoming, expect_id: i64) -> (r: Option<Result<Json, CdpError>>)
    ensures
        match incoming {
            Incoming::Message(m) => {
                &&& m.id != Some(expect_id) ==> r is None
                &&& m.id == Some(expect_id) ==> (r matches Some(x) && result_view(x) == reply_spec(
                    expect_id,
                    m.result,
                    m.error,
                ))
            },
            Incoming::Close => r matches Some(Err(e)) && e@ == CdpErrorView::Recv(
                "Connection closed"@,
            ),
            Incoming::Other => r is None,
        },
{
    match incoming {
        Incoming::Message(m) => reply_for(m, expect_id),
        Incoming::Close => Some(Err(CdpError::Recv(String::from_str("Connection closed")))),
        Incoming::Other => None,
    }
}

/// What a command still waiting for its reply gets when the connection's task stops with
/// error `e`: a closed-channel error carrying `e`'s message.
pub fn waiter_error(e: &CdpError) -> (r: CdpError)
    ensures
        r@ is ChannelClosed,
        !(e@ is Json) ==> r@ == CdpErrorView::ChannelClosed(message_spec(e@)),
{
    CdpError::ChannelClosed(e.to_string())
}

/// The error of a command whose reply did not come within `secs` seconds.
pub fn command_timeout_error(method: &str, secs: u64) -> (r: CdpError)
    ensures
        r@ == CdpErrorView::Timeout(
            "CDP command '"@ + method@ + "' timed out after "@ + dec_nat(secs as nat) + "s"@,
        ),
{
    let mut m = String::from_str("CDP command '");
    m.append(method);
    m.append("' timed out after ");
    push_u64(&mut m, secs);
    m.append("s");
    CdpError::Timeout(m)
}

/// The error of a command whose reply channel closed before the reply came.
pub fn response_channel_closed(id: i64) -> (r: CdpError)
    ensures
        r@ == CdpErrorView::ChannelClosed(
            "CDP response channel closed for command id "@ + dec_int(id as int),
        ),
{
    let mut m = String::from_str("CDP response channel closed for command id ");
    push_i64(&mut m, id);
    CdpError::ChannelClosed(m)
}

/// Where an incoming message goes.
#[derive(Debug)]
pub enum Routed {
    /// The reply to command `id`.
    Reply { id: i64, reply: Result<Json, CdpError> },
    /// An event.
    Event(CdpEvent),
    /// Neither a reply nor an event.
    Ignore,
}

/// Routes a message of the shared connection: a message with an `id` is that command's reply;
/// else a message with a `method` is an event; else it is dropped.
pub fn route_message(msg: CdpMessage) -> (r: Routed)
    ensures
        match msg.id {
            Some(id) => r matches Routed::Reply { id: rid, reply } && rid == id && result_view(reply)
                == reply_spec(id, msg.result, msg.error),
            None => match msg.method {
                Some(m) => r matches Routed::Event(ev) && ev.method@ == m@ && ev.params == (
                match msg.params {
                    Some(p) => p,
                    None => Json::Null,
                }) && ev.session_id == msg.session_id,
                None => r is Ignore,
            },
        },
{
    match msg.id {
        Some(id) => Routed::Reply { id, reply: reply_of(id, msg.result, msg.error) },
        None => match msg.method {
            Some(method) => {
                let params = match msg.params {
                    Some(p) => p,
                    None => Json::Null,
                };
                Routed::Event(CdpEvent { method, params, session_id: msg.session_id })
            },
            None => Routed::Ignore,
        },
    }
}

/// A command to send: its id, method, optional params and optional target session.
#[derive(Debug)]
pub struct CdpCommand {
    pub id: i64,
    pub method: String,
    pub params: Option<Json>,
    pub session_id: Option<String>,
}

/// The command with the given parts.
pub fn command(id: i64, method: &str, params: Option<Json>, session_id: Option<&str>) -> (r:
    CdpCommand)
    ensures
        r.id == id,
        r.method@ == method@,
        r.params == params,
        match session_id {
            Some(s) => r.session_id matches Some(x) && x@ == s@,
            None => r.session_id is None,
        },
{
    CdpCommand {
        id,
        method: String::from_str(method),
        params,
        session_id: match session_id {
            Some(s) => Some(String::from_str(s)),
            None => None,
        },
    }
}


// ---------- the WebSocket address of a connection ----------

/// `url::Url`, the parsed WebSocket address a connection is opened with.
#[verifier::external_type_specification]
#[verifier::external_body]
pub struct ExUrl(url::Url);

/// What `url::Url::parse` says of a text: `None` when it parses as an absolute URL, else the
/// text of its `ParseError` (its `Display`).
pub uninterp spec fn ws_url_parse_error(s: Seq<char>) -> Option<Seq<char>>;

/// `url::Url::parse` of the address, its error turned into its text. Claimed: the outcome is
/// `ws_url_parse_error` of the text; nothing is claimed of the parsed value, which is only
/// handed on to the socket.
#[verifier::external_body]
fn parse_ws_url(ws_url: &str) -> (r: Result<url::Url, String>)
    ensures
        match r {
            Ok(_) => ws_url_parse_error(ws_url@) is None,
            Err(m) => ws_url_parse_error(ws_url@) == Some(m@),
        },
{
    match url::Url::parse(ws_url) {
        Ok(u) => Ok(u),
        Err(e) => Err(e.to_string()),
    }
}

/// The address a connection is opened with; a connect error with the parser's text when the
/// address is not a URL.
pub fn ws_url_for_connect(ws_url: &str) -> (r: Result<url::Url, CdpError>)
    ensures
        match r {
            Ok(_) => ws_url_parse_error(ws_url@) is None,
            Err(e) => ws_url_parse_error(ws_url@) matches Some(m) && e@ == CdpErrorView::Connect(m),
        },
{
    match parse_ws_url(ws_url) {
        Ok(u) => Ok(u),
        Err(m) => Err(CdpError::Connect(m)),
    }
}

} // verus!
