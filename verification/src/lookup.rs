//! How a locator string becomes a lookup: the strategy a page, an element or a frame uses to
//! find what the locator names, and the errors a lookup reports.

use crate::cdp::{CdpError, CdpErrorView, local_error, err_view, result_view};
use crate::dom::{
    is_no_node_error, no_node_spec, document_root_id, nested_i64, nested_str, result_count_spec, result_object_id,
    search_ids_spec, search_node_ids, search_summary, selected_node_id, selected_node_spec,
    snapshot_expression_spec, xpath_snapshot_expression,
};
use crate::json::{Json, array_spec, get_spec, str_spec};
use crate::locator::{Locator, LocatorView, css_selector_spec, parse_spec, xpath_spec};
use vstd::prelude::*;
use vstd::string::StringExecFns;

verus! {

/// `Invalid locator: <locator>. Please check the locator syntax.`
pub open spec fn invalid_locator_message(locator: Seq<char>) -> Seq<char> {
    "Invalid locator: "@ + locator + ". Please check the locator syntax."@
}

/// The protocol error `<head><locator><tail>`.
fn message_error(head: &str, locator: &str, tail: &str) -> (r: CdpError)
    ensures
        r@ == local_error(head@ + locator@ + tail@),
{
    let mut m = String::from_str(head);
    m.append(locator);
    m.append(tail);
    CdpError::Protocol { id: None, code: -1, message: m }
}

/// The protocol error `<head><locator>`.
fn prefixed_error(head: &str, locator: &str) -> (r: CdpError)
    ensures
        r@ == local_error(head@ + locator@),
{
    let mut m = String::from_str(head);
    m.append(locator);
    CdpError::Protocol { id: None, code: -1, message: m }
}

/// The locator a lookup works with; the invalid-locator error when the string does not parse.
pub fn parse_for_lookup(locator: &str) -> (r: Result<Locator, CdpError>)
    ensures
        match parse_spec(locator@) {
            Ok(l) => r matches Ok(x) && x@ == l,
            Err(_) => err_view(r) == Err::<Locator, CdpErrorView>(
                local_error(invalid_locator_message(locator@)),
            ),
        },
{
    match Locator::parse(locator) {
        Ok(l) => Ok(l),
        Err(_) => Err(message_error("Invalid locator: ", locator, ". Please check the locator syntax.")),
    }
}

/// How a page looks for what a locator names.
#[derive(Debug)]
pub enum PageLookup {
    /// Collect the matches of this selector in the document and its same-origin frames.
    Css(String),
    /// `DOM.performSearch` with this query (which reaches into every frame); when looking for
    /// all matches, `fallback_xpath` is the XPath to evaluate when the search finds none.
    Search { query: String, fallback_xpath: Option<String> },
}

/// The page's lookup for a locator: its CSS selector when it has one, else a search for its
/// XPath, which a lookup of all matches falls back on evaluating.
pub fn page_lookup(locator: &str, all: bool) -> (r: Result<PageLookup, CdpError>)
    ensures
        match parse_spec(locator@) {
            Err(_) => err_view(r) == Err::<PageLookup, CdpErrorView>(
                local_error(invalid_locator_message(locator@)),
            ),
            Ok(l) => match css_selector_spec(l) {
                Some(c) => r matches Ok(PageLookup::Css(s)) && s@ == c,
                None => r matches Ok(PageLookup::Search { query, fallback_xpath }) && xpath_spec(l)
                    == Some(query@) && (if all {
                    fallback_xpath matches Some(x) && x@ == query@
                } else {
                    fallback_xpath is None
                }),
            },
        },
{
    let loc = match parse_for_lookup(locator) {
        Ok(l) => l,
        Err(e) => {
            return Err(e);
        },
    };
    match loc.to_css_selector() {
        Some(c) => Ok(PageLookup::Css(c)),
        None => {
            let query = match loc.to_search_query() {
                Some(q) => q,
                None => {
                    proof {
                        lemma_css_or_xpath(loc@);
                    }
                    return Ok(PageLookup::Search { query: String::new(), fallback_xpath: None });
                },
            };
            let fallback_xpath = if all {
                loc.to_xpath_expression()
            } else {
                None
            };
            Ok(PageLookup::Search { query, fallback_xpath })
        },
    }
}

/// Every locator names a CSS selector or an XPath.
pub proof fn lemma_css_or_xpath(l: LocatorView)
    ensures
        css_selector_spec(l) is Some || xpath_spec(l) is Some,
        css_selector_spec(l) is Some ==> xpath_spec(l) is None,
{
}

/// How an element or a frame looks for what a locator names inside it.
#[derive(Debug)]
pub enum ScopedLookup {
    /// Query with this CSS selector.
    Css(String),
    /// Evaluate this XPath with the element or document as its context.
    XPath(String),
}

/// The lookup inside an element or a frame: the locator's CSS selector, else its XPath.
pub fn scoped_lookup(locator: &str) -> (r: Result<ScopedLookup, CdpError>)
    ensures
        match parse_spec(locator@) {
            Err(_) => err_view(r) == Err::<ScopedLookup, CdpErrorView>(
                local_error(invalid_locator_message(locator@)),
            ),
            Ok(l) => match css_selector_spec(l) {
                Some(c) => r matches Ok(ScopedLookup::Css(s)) && s@ == c,
                None => r matches Ok(ScopedLookup::XPath(x)) && xpath_spec(l) == Some(x@),
            },
        },
{
    let loc = match parse_for_lookup(locator) {
        Ok(l) => l,
        Err(e) => {
            return Err(e);
        },
    };
    match loc.to_css_selector() {
        Some(c) => Ok(ScopedLookup::Css(c)),
        None => match loc.to_xpath_expression() {
            Some(x) => Ok(ScopedLookup::XPath(x)),
            None => {
                proof {
                    lemma_css_or_xpath(loc@);
                }
                Ok(ScopedLookup::XPath(String::new()))
            },
        },
    }
}

/// The CSS selector of a locator, for the reads inside an element that work with selectors
/// only; `None` for an XPath or text locator.
pub fn css_only(locator: &str) -> (r: Result<Option<String>, CdpError>)
    ensures
        match parse_spec(locator@) {
            Err(_) => err_view(r) == Err::<Option<String>, CdpErrorView>(
                local_error(invalid_locator_message(locator@)),
            ),
            Ok(l) => r matches Ok(o) && match o {
                Some(s) => css_selector_spec(l) == Some(s@),
                None => css_selector_spec(l) is None,
            },
        },
{
    let loc = match parse_for_lookup(locator) {
        Ok(l) => l,
        Err(e) => {
            return Err(e);
        },
    };
    Ok(loc.to_css_selector())
}

/// `Element not found for locator: <locator>` (clicking or typing into nothing).
pub fn element_not_found(locator: &str) -> (r: CdpError)
    ensures
        r@ == local_error("Element not found for locator: "@ + locator@),
{
    prefixed_error("Element not found for locator: ", locator)
}

/// The error of a wait for an element to become visible that ran out of time.
pub fn visible_timeout(locator: &str) -> (r: CdpError)
    ensures
        r@ == local_error("Timed out while waiting for element to become visible: "@ + locator@),
{
    prefixed_error("Timed out while waiting for element to become visible: ", locator)
}

/// The error of a wait for an element to become hidden that ran out of time.
pub fn hidden_timeout(locator: &str) -> (r: CdpError)
    ensures
        r@ == local_error("Timed out while waiting for element to become hidden: "@ + locator@),
{
    prefixed_error("Timed out while waiting for element to become hidden: ", locator)
}

/// The error of a wait for an element inside a frame that ran out of time.
pub fn frame_wait_timeout(locator: &str) -> (r: CdpError)
    ensures
        r@ == local_error(
            "Timed out while waiting for an element inside the frame: "@ + locator@,
        ),
{
    prefixed_error("Timed out while waiting for an element inside the frame: ", locator)
}

/// Whether a poll of a wait for visibility ends it: the element reads as displayed (a failed
/// read counts as not displayed).
pub fn visible_now(displayed: Option<bool>) -> (r: bool)
    ensures
        r == (displayed == Some(true)),
{
    match displayed {
        Some(d) => d,
        None => false,
    }
}

/// Whether a poll of a wait for hiding ends it: no element was found, or it reads as not
/// displayed (a failed read counts as displayed).
pub fn hidden_now(found: bool, displayed: Option<bool>) -> (r: bool)
    ensures
        r == (!found || displayed == Some(false)),
{
    if !found {
        true
    } else {
        match displayed {
            Some(d) => !d,
            None => false,
        }
    }
}

/// The frames `get_frames` looks through by default.
pub fn frames_locator(locator: Option<&str>) -> (r: &str)
    ensures
        r@ == match locator {
            Some(l) => l@,
            None => "tag:iframe"@,
        },
{
    match locator {
        Some(l) => l,
        None => "tag:iframe",
    }
}


// ---------- the first element a page's locator names ----------

/// Where a page's lookup of the first element a locator names stands: each state waits for
/// the answer to one request (see `request_spec`).
#[derive(Debug)]
pub enum ElementLookup {
    /// Waiting for the matches of the selector in the document and its same-origin frames.
    Scan { selector: String },
    /// The scan found nothing; the fallback waits for `DOM.enable`.
    FallbackDom { selector: String },
    /// The fallback waits for `Runtime.enable`.
    FallbackRuntime { selector: String },
    /// The fallback waits for `DOM.getDocument`.
    FallbackDocument { selector: String },
    /// The fallback waits for `DOM.querySelector` under the document root.
    FallbackQuery { root: i64, selector: String },
    /// A search (for a locator with no CSS selector) waits for `DOM.enable`.
    SearchDom { query: String },
    /// The search waits for `DOM.performSearch`.
    Search { query: String },
    /// The search waits for its first result.
    SearchResults { search_id: String },
    /// The search waits for being discarded; `hit` is the node it found, if any.
    Discard { search_id: String, hit: Option<i64> },
}

pub enum ElementLookupView {
    Scan { selector: Seq<char> },
    FallbackDom { selector: Seq<char> },
    FallbackRuntime { selector: Seq<char> },
    FallbackDocument { selector: Seq<char> },
    FallbackQuery { root: i64, selector: Seq<char> },
    SearchDom { query: Seq<char> },
    Search { query: Seq<char> },
    SearchResults { search_id: Seq<char> },
    Discard { search_id: Seq<char>, hit: Option<i64> },
}

impl View for ElementLookup {
    type V = ElementLookupView;

    open spec fn view(&self) -> ElementLookupView {
        match self {
            ElementLookup::Scan { selector } => ElementLookupView::Scan { selector: selector@ },
            ElementLookup::FallbackDom { selector } => ElementLookupView::FallbackDom {
                selector: selector@,
            },
            ElementLookup::FallbackRuntime { selector } => ElementLookupView::FallbackRuntime {
                selector: selector@,
            },
            ElementLookup::FallbackDocument { selector } => ElementLookupView::FallbackDocument {
                selector: selector@,
            },
            ElementLookup::FallbackQuery { root, selector } => ElementLookupView::FallbackQuery {
                root: *root,
                selector: selector@,
            },
            ElementLookup::SearchDom { query } => ElementLookupView::SearchDom { query: query@ },
            ElementLookup::Search { query } => ElementLookupView::Search { query: query@ },
            ElementLookup::SearchResults { search_id } => ElementLookupView::SearchResults {
                search_id: search_id@,
            },
            ElementLookup::Discard { search_id, hit } => ElementLookupView::Discard {
                search_id: search_id@,
                hit: *hit,
            },
        }
    }
}

/// A request the lookup waits on; the caller makes it on the page's session.
#[derive(Debug)]
pub enum LookupRequest {
    /// Collect the matches of the selector in the document and its same-origin frames.
    Scan { selector: String },
    /// `DOM.enable`.
    EnableDom,
    /// `Runtime.enable`.
    EnableRuntime,
    /// `DOM.getDocument`.
    GetDocument,
    /// `DOM.querySelector` with the selector under the node.
    QuerySelector { node_id: i64, selector: String },
    /// `DOM.performSearch` for the query, user-agent shadow trees included.
    PerformSearch { query: String },
    /// `DOM.getSearchResults` of the search, from index `from` up to `to`.
    GetSearchResults { search_id: String, from: u32, to: u32 },
    /// `DOM.discardSearchResults` of the search.
    DiscardSearch { search_id: String },
    /// `Runtime.evaluate` of the expression, the value kept remote.
    Evaluate { expression: String },
    /// Walk the remote list of nodes with this object id (a walk that stops at any error and
    /// reads each node with `DOM.requestNode`), giving the node ids it reaches.
    WalkList { list: String },
}

pub enum LookupRequestView {
    Scan { selector: Seq<char> },
    EnableDom,
    EnableRuntime,
    GetDocument,
    QuerySelector { node_id: i64, selector: Seq<char> },
    PerformSearch { query: Seq<char> },
    GetSearchResults { search_id: Seq<char>, from: u32, to: u32 },
    DiscardSearch { search_id: Seq<char> },
    Evaluate { expression: Seq<char> },
    WalkList { list: Seq<char> },
}

impl View for LookupRequest {
    type V = LookupRequestView;

    open spec fn view(&self) -> LookupRequestView {
        match self {
            LookupRequest::Scan { selector } => LookupRequestView::Scan { selector: selector@ },
            LookupRequest::EnableDom => LookupRequestView::EnableDom,
            LookupRequest::EnableRuntime => LookupRequestView::EnableRuntime,
            LookupRequest::GetDocument => LookupRequestView::GetDocument,
            LookupRequest::QuerySelector { node_id, selector } => LookupRequestView::QuerySelector {
                node_id: *node_id,
                selector: selector@,
            },
            LookupRequest::PerformSearch { query } => LookupRequestView::PerformSearch {
                query: query@,
            },
            LookupRequest::GetSearchResults { search_id, from, to } =>
                LookupRequestView::GetSearchResults { search_id: search_id@, from: *from, to: *to },
            LookupRequest::DiscardSearch { search_id } => LookupRequestView::DiscardSearch {
                search_id: search_id@,
            },
            LookupRequest::Evaluate { expression } => LookupRequestView::Evaluate {
                expression: expression@,
            },
            LookupRequest::WalkList { list } => LookupRequestView::WalkList { list: list@ },
        }
    }
}

/// What each state of the lookup waits on.
pub open spec fn request_spec(s: ElementLookupView) -> LookupRequestView {
    match s {
        ElementLookupView::Scan { selector } => LookupRequestView::Scan { selector },
        ElementLookupView::FallbackDom { .. } => LookupRequestView::EnableDom,
        ElementLookupView::FallbackRuntime { .. } => LookupRequestView::EnableRuntime,
        ElementLookupView::FallbackDocument { .. } => LookupRequestView::GetDocument,
        ElementLookupView::FallbackQuery { root, selector } => LookupRequestView::QuerySelector {
            node_id: root,
            selector,
        },
        ElementLookupView::SearchDom { .. } => LookupRequestView::EnableDom,
        ElementLookupView::Search { query } => LookupRequestView::PerformSearch { query },
        ElementLookupView::SearchResults { search_id } => LookupRequestView::GetSearchResults {
            search_id,
            from: 0,
            to: 1,
        },
        ElementLookupView::Discard { search_id, .. } => LookupRequestView::DiscardSearch {
            search_id,
        },
    }
}

/// What answers a request: the matches of a scan, as (node id, object id) pairs in document
/// order, the reply to a command, or the node ids a walk reached, in the list's order.
#[derive(Debug)]
pub enum LookupEvent {
    Scanned(Result<Vec<(i64, String)>, CdpError>),
    Reply(Result<Json, CdpError>),
    Walked(Result<Vec<i64>, CdpError>),
}

pub enum LookupEventView {
    Scanned(Result<Seq<(i64, Seq<char>)>, CdpErrorView>),
    Reply(Result<Json, CdpErrorView>),
    Walked(Result<Seq<i64>, CdpErrorView>),
}

impl View for LookupEvent {
    type V = LookupEventView;

    open spec fn view(&self) -> LookupEventView {
        match self {
            LookupEvent::Scanned(Ok(v)) => LookupEventView::Scanned(
                Ok(v@.map_values(|p: (i64, String)| (p.0, p.1@))),
            ),
            LookupEvent::Scanned(Err(e)) => LookupEventView::Scanned(Err(e@)),
            LookupEvent::Reply(r) => LookupEventView::Reply(result_view(*r)),
            LookupEvent::Walked(Ok(v)) => LookupEventView::Walked(Ok(v@)),
            LookupEvent::Walked(Err(e)) => LookupEventView::Walked(Err(e@)),
        }
    }
}

/// The element a lookup found: its node id, and the object id it was reached by when there
/// is one. Its backend node id is read when the element is made.
#[derive(Debug)]
pub struct FoundElement {
    pub node_id: i64,
    pub object_id: Option<String>,
}

/// The next state of a lookup, or its end.
#[derive(Debug)]
pub enum LookupStep {
    Next(ElementLookup),
    Finish(Result<Option<FoundElement>, CdpError>),
}

pub enum LookupStepView {
    Next(ElementLookupView),
    Finish(Result<Option<(i64, Option<Seq<char>>)>, CdpErrorView>),
}

pub open spec fn found_element_view(f: FoundElement) -> (i64, Option<Seq<char>>) {
    (f.node_id, match f.object_id {
        Some(o) => Some(o@),
        None => None,
    })
}

impl View for LookupStep {
    type V = LookupStepView;

    open spec fn view(&self) -> LookupStepView {
        match self {
            LookupStep::Next(s) => LookupStepView::Next(s@),
            LookupStep::Finish(Ok(Some(f))) => LookupStepView::Finish(
                Ok(Some(found_element_view(*f))),
            ),
            LookupStep::Finish(Ok(None)) => LookupStepView::Finish(Ok(None)),
            LookupStep::Finish(Err(e)) => LookupStepView::Finish(Err(e@)),
        }
    }
}

/// The lookup a locator starts with: the scan for its CSS selector, else a search for its
/// XPath; the invalid-locator error when it does not parse.
pub open spec fn lookup_start_spec(locator: Seq<char>) -> Result<ElementLookupView, CdpErrorView> {
    match parse_spec(locator) {
        Err(_) => Err(local_error(invalid_locator_message(locator))),
        Ok(l) => match css_selector_spec(l) {
            Some(c) => Ok(ElementLookupView::Scan { selector: c }),
            None => Ok(ElementLookupView::SearchDom { query: xpath_spec(l)->0 }),
        },
    }
}

/// The first node id a `DOM.getSearchResults` reply lists, if any.
pub open spec fn first_search_hit(v: Json) -> Option<i64> {
    let ids = match array_spec(get_spec(v, "nodeIds"@)) {
        Some(list) => search_ids_spec(list),
        None => Seq::empty(),
    };
    if ids.len() > 0 {
        Some(ids[0])
    } else {
        None
    }
}

/// What an answer does to the lookup. The scan's first match is the element; an empty scan
/// falls back on `DOM.querySelector` under the document root, whose failures all end in no
/// element. A search takes its first result and is then discarded; its errors end the
/// lookup. An answer of the other kind than the one waited for leaves the lookup as it is.
pub open spec fn lookup_step_spec(s: ElementLookupView, ev: LookupEventView) -> LookupStepView {
    match s {
        ElementLookupView::Scan { selector } => match ev {
            LookupEventView::Scanned(Err(e)) => LookupStepView::Finish(Err(e)),
            LookupEventView::Scanned(Ok(pairs)) => if pairs.len() > 0 {
                LookupStepView::Finish(Ok(Some((pairs[0].0, Some(pairs[0].1)))))
            } else {
                LookupStepView::Next(ElementLookupView::FallbackDom { selector })
            },
            _ => LookupStepView::Next(s),
        },
        ElementLookupView::FallbackDom { selector } => match ev {
            LookupEventView::Reply(Ok(_)) => LookupStepView::Next(
                ElementLookupView::FallbackRuntime { selector },
            ),
            LookupEventView::Reply(Err(_)) => LookupStepView::Finish(Ok(None)),
            _ => LookupStepView::Next(s),
        },
        ElementLookupView::FallbackRuntime { selector } => match ev {
            LookupEventView::Reply(Ok(_)) => LookupStepView::Next(
                ElementLookupView::FallbackDocument { selector },
            ),
            LookupEventView::Reply(Err(_)) => LookupStepView::Finish(Ok(None)),
            _ => LookupStepView::Next(s),
        },
        ElementLookupView::FallbackDocument { selector } => match ev {
            LookupEventView::Reply(Ok(v)) => match nested_i64(v, "root"@, "nodeId"@) {
                Some(root) => LookupStepView::Next(
                    ElementLookupView::FallbackQuery { root, selector },
                ),
                None => LookupStepView::Finish(Ok(None)),
            },
            LookupEventView::Reply(Err(_)) => LookupStepView::Finish(Ok(None)),
            _ => LookupStepView::Next(s),
        },
        ElementLookupView::FallbackQuery { .. } => match ev {
            LookupEventView::Reply(Ok(v)) => match selected_node_spec(v) {
                Some(id) => LookupStepView::Finish(Ok(Some((id, None)))),
                None => LookupStepView::Finish(Ok(None)),
            },
            LookupEventView::Reply(Err(_)) => LookupStepView::Finish(Ok(None)),
            _ => LookupStepView::Next(s),
        },
        ElementLookupView::SearchDom { query } => match ev {
            LookupEventView::Reply(Ok(_)) => LookupStepView::Next(
                ElementLookupView::Search { query },
            ),
            LookupEventView::Reply(Err(e)) => LookupStepView::Finish(Err(e)),
            _ => LookupStepView::Next(s),
        },
        ElementLookupView::Search { .. } => match ev {
            LookupEventView::Reply(Ok(v)) => match str_spec(get_spec(v, "searchId"@)) {
                Some(id) => if result_count_spec(v) > 0 {
                    LookupStepView::Next(ElementLookupView::SearchResults { search_id: id })
                } else {
                    LookupStepView::Next(ElementLookupView::Discard { search_id: id, hit: None })
                },
                None => LookupStepView::Finish(
                    Err(local_error("DOM.performSearch did not return searchId"@)),
                ),
            },
            LookupEventView::Reply(Err(e)) => LookupStepView::Finish(Err(e)),
            _ => LookupStepView::Next(s),
        },
        ElementLookupView::SearchResults { search_id } => match ev {
            LookupEventView::Reply(Ok(v)) => LookupStepView::Next(
                ElementLookupView::Discard { search_id, hit: first_search_hit(v) },
            ),
            LookupEventView::Reply(Err(e)) => LookupStepView::Finish(Err(e)),
            _ => LookupStepView::Next(s),
        },
        ElementLookupView::Discard { hit, .. } => match ev {
            LookupEventView::Reply(Ok(_)) => LookupStepView::Finish(
                Ok(
                    match hit {
                        Some(n) => Some((n, None)),
                        None => None,
                    },
                ),
            ),
            LookupEventView::Reply(Err(e)) => LookupStepView::Finish(Err(e)),
            _ => LookupStepView::Next(s),
        },
    }
}

/// The states of the fallback after an empty scan.
pub open spec fn in_fallback(s: ElementLookupView) -> bool {
    ||| s is FallbackDom
    ||| s is FallbackRuntime
    ||| s is FallbackDocument
    ||| s is FallbackQuery
}

/// Where a sequence of answers leaves a lookup: the state it waits in, or how it ended.
pub open spec fn lookup_run(s: ElementLookupView, evs: Seq<LookupEventView>) -> LookupStepView
    decreases evs.len(),
{
    if evs.len() == 0 {
        LookupStepView::Next(s)
    } else {
        match lookup_step_spec(s, evs[0]) {
            LookupStepView::Next(t) => lookup_run(t, evs.drop_first()),
            LookupStepView::Finish(r) => LookupStepView::Finish(r),
        }
    }
}

/// Law: a scan that finds nothing is no error; the lookup falls back on the document root.
pub proof fn law_empty_scan_falls_back(selector: Seq<char>)
    ensures
        lookup_step_spec(
            ElementLookupView::Scan { selector },
            LookupEventView::Scanned(Ok(Seq::empty())),
        ) == LookupStepView::Next(ElementLookupView::FallbackDom { selector }),
{
}

/// Law: once the fallback has begun, whatever answers come, the lookup either still waits in
/// the fallback or has ended with an element or with none, never with an error.
pub proof fn law_fallback_never_fails(s: ElementLookupView, evs: Seq<LookupEventView>)
    requires
        in_fallback(s),
    ensures
        match lookup_run(s, evs) {
            LookupStepView::Next(t) => in_fallback(t),
            LookupStepView::Finish(r) => r is Ok,
        },
    decreases evs.len(),
{
    if evs.len() > 0 {
        match lookup_step_spec(s, evs[0]) {
            LookupStepView::Next(t) => {
                law_fallback_never_fails(t, evs.drop_first());
            },
            LookupStepView::Finish(_) => {},
        }
    }
}

impl ElementLookup {
    /// The lookup for a locator; the invalid-locator error when it does not parse.
    pub fn start(locator: &str) -> (r: Result<ElementLookup, CdpError>)
        ensures
            match lookup_start_spec(locator@) {
                Ok(s) => r matches Ok(x) && x@ == s,
                Err(e) => r matches Err(x) && x@ == e,
            },
    {
        match page_lookup(locator, false) {
            Err(e) => Err(e),
            Ok(PageLookup::Css(selector)) => Ok(ElementLookup::Scan { selector }),
            Ok(PageLookup::Search { query, fallback_xpath: _ }) => Ok(
                ElementLookup::SearchDom { query },
            ),
        }
    }

    /// The request this state waits on.
    pub fn request(&self) -> (r: LookupRequest)
        ensures
            r@ == request_spec(self@),
    {
        match self {
            ElementLookup::Scan { selector } => LookupRequest::Scan { selector: selector.clone() },
            ElementLookup::FallbackDom { .. } => LookupRequest::EnableDom,
            ElementLookup::FallbackRuntime { .. } => LookupRequest::EnableRuntime,
            ElementLookup::FallbackDocument { .. } => LookupRequest::GetDocument,
            ElementLookup::FallbackQuery { root, selector } => LookupRequest::QuerySelector {
                node_id: *root,
                selector: selector.clone(),
            },
            ElementLookup::SearchDom { .. } => LookupRequest::EnableDom,
            ElementLookup::Search { query } => LookupRequest::PerformSearch { query: query.clone() },
            ElementLookup::SearchResults { search_id } => LookupRequest::GetSearchResults {
                search_id: search_id.clone(),
                from: 0,
                to: 1,
            },
            ElementLookup::Discard { search_id, .. } => LookupRequest::DiscardSearch {
                search_id: search_id.clone(),
            },
        }
    }

    /// Takes the answer to the request this state waits on.
    pub fn step(self, event: LookupEvent) -> (r: LookupStep)
        ensures
            r@ == lookup_step_spec(self@, event@),
    {
        match self {
            ElementLookup::Scan { selector } => match event {
                LookupEvent::Scanned(Err(e)) => LookupStep::Finish(Err(e)),
                LookupEvent::Scanned(Ok(pairs)) => {
                    let mut pairs = pairs;
                    if pairs.len() > 0 {
                        let (id, oid) = pairs.remove(0);
                        LookupStep::Finish(
                            Ok(Some(FoundElement { node_id: id, object_id: Some(oid) })),
                        )
                    } else {
                        LookupStep::Next(ElementLookup::FallbackDom { selector })
                    }
                },
                _ => LookupStep::Next(ElementLookup::Scan { selector }),
            },
            ElementLookup::FallbackDom { selector } => match event {
                LookupEvent::Reply(Ok(_)) => LookupStep::Next(
                    ElementLookup::FallbackRuntime { selector },
                ),
                LookupEvent::Reply(Err(_)) => LookupStep::Finish(Ok(None)),
                _ => LookupStep::Next(ElementLookup::FallbackDom { selector }),
            },
            ElementLookup::FallbackRuntime { selector } => match event {
                LookupEvent::Reply(Ok(_)) => LookupStep::Next(
                    ElementLookup::FallbackDocument { selector },
                ),
                LookupEvent::Reply(Err(_)) => LookupStep::Finish(Ok(None)),
                _ => LookupStep::Next(
                    ElementLookup::FallbackRuntime { selector },
                ),
            },
            ElementLookup::FallbackDocument { selector } => match event {
                LookupEvent::Reply(Ok(v)) => match document_root_id(&v) {
                    Ok(root) => LookupStep::Next(ElementLookup::FallbackQuery { root, selector }),
                    Err(_) => LookupStep::Finish(Ok(None)),
                },
                LookupEvent::Reply(Err(_)) => LookupStep::Finish(Ok(None)),
                _ => LookupStep::Next(
                    ElementLookup::FallbackDocument { selector },
                ),
            },
            ElementLookup::FallbackQuery { root, selector } => match event {
                LookupEvent::Reply(Ok(v)) => match selected_node_id(&v) {
                    Some(id) => LookupStep::Finish(
                        Ok(Some(FoundElement { node_id: id, object_id: None })),
                    ),
                    None => LookupStep::Finish(Ok(None)),
                },
                LookupEvent::Reply(Err(_)) => LookupStep::Finish(Ok(None)),
                _ => LookupStep::Next(
                    ElementLookup::FallbackQuery { root, selector },
                ),
            },
            ElementLookup::SearchDom { query } => match event {
                LookupEvent::Reply(Ok(_)) => LookupStep::Next(ElementLookup::Search { query }),
                LookupEvent::Reply(Err(e)) => LookupStep::Finish(Err(e)),
                _ => LookupStep::Next(ElementLookup::SearchDom { query }),
            },
            ElementLookup::Search { query } => match event {
                LookupEvent::Reply(Ok(v)) => match search_summary(&v) {
                    Ok((search_id, count)) => if count > 0 {
                        LookupStep::Next(ElementLookup::SearchResults { search_id })
                    } else {
                        LookupStep::Next(ElementLookup::Discard { search_id, hit: None })
                    },
                    Err(e) => LookupStep::Finish(Err(e)),
                },
                LookupEvent::Reply(Err(e)) => LookupStep::Finish(Err(e)),
                _ => LookupStep::Next(ElementLookup::Search { query }),
            },
            ElementLookup::SearchResults { search_id } => match event {
                LookupEvent::Reply(Ok(v)) => {
                    let ids = search_node_ids(&v);
                    let hit = if ids.len() > 0 {
                        Some(ids[0])
                    } else {
                        None
                    };
                    LookupStep::Next(ElementLookup::Discard { search_id, hit })
                },
                LookupEvent::Reply(Err(e)) => LookupStep::Finish(Err(e)),
                _ => LookupStep::Next(
                    ElementLookup::SearchResults { search_id },
                ),
            },
            ElementLookup::Discard { search_id, hit } => match event {
                LookupEvent::Reply(Ok(_)) => LookupStep::Finish(
                    Ok(
                        match hit {
                            Some(n) => Some(
                                FoundElement { node_id: n, object_id: None },
                            ),
                            None => None,
                        },
                    ),
                ),
                LookupEvent::Reply(Err(e)) => LookupStep::Finish(Err(e)),
                _ => LookupStep::Next(
                    ElementLookup::Discard { search_id, hit },
                ),
            },
        }
    }
}


// ---------- every element a page's locator names ----------

/// Where a page's lookup of every element a locator names stands: each state waits for the
/// answer to one request (see `all_request_spec`).
#[derive(Debug)]
pub enum ElementsLookup {
    /// Waiting for the matches of the selector in the document and its same-origin frames.
    Scan { selector: String },
    /// A search for the query (a locator with no CSS selector) waits for `DOM.enable`.
    SearchDom { query: String },
    /// The search waits for `DOM.performSearch`.
    Search { query: String },
    /// The search waits for its `count` results.
    SearchResults { query: String, search_id: String, count: u32 },
    /// The search waits for being discarded; `hits` are the nodes it found.
    Discard { query: String, search_id: String, hits: Vec<i64> },
    /// The search found nothing; the evaluation of the XPath's node snapshot is waited for.
    Evaluate { expression: String },
    /// The walk over the snapshot is waited for.
    Walk { list: String },
}

pub enum ElementsLookupView {
    Scan { selector: Seq<char> },
    SearchDom { query: Seq<char> },
    Search { query: Seq<char> },
    SearchResults { query: Seq<char>, search_id: Seq<char>, count: u32 },
    Discard { query: Seq<char>, search_id: Seq<char>, hits: Seq<i64> },
    Evaluate { expression: Seq<char> },
    Walk { list: Seq<char> },
}

impl View for ElementsLookup {
    type V = ElementsLookupView;

    open spec fn view(&self) -> ElementsLookupView {
        match self {
            ElementsLookup::Scan { selector } => ElementsLookupView::Scan { selector: selector@ },
            ElementsLookup::SearchDom { query } => ElementsLookupView::SearchDom { query: query@ },
            ElementsLookup::Search { query } => ElementsLookupView::Search { query: query@ },
            ElementsLookup::SearchResults { query, search_id, count } =>
                ElementsLookupView::SearchResults {
                query: query@,
                search_id: search_id@,
                count: *count,
            },
            ElementsLookup::Discard { query, search_id, hits } => ElementsLookupView::Discard {
                query: query@,
                search_id: search_id@,
                hits: hits@,
            },
            ElementsLookup::Evaluate { expression } => ElementsLookupView::Evaluate {
                expression: expression@,
            },
            ElementsLookup::Walk { list } => ElementsLookupView::Walk { list: list@ },
        }
    }
}

/// What each state of the lookup of every element waits on.
pub open spec fn all_request_spec(s: ElementsLookupView) -> LookupRequestView {
    match s {
        ElementsLookupView::Scan { selector } => LookupRequestView::Scan { selector },
        ElementsLookupView::SearchDom { .. } => LookupRequestView::EnableDom,
        ElementsLookupView::Search { query } => LookupRequestView::PerformSearch { query },
        ElementsLookupView::SearchResults { search_id, count, .. } =>
            LookupRequestView::GetSearchResults { search_id, from: 0, to: count },
        ElementsLookupView::Discard { search_id, .. } => LookupRequestView::DiscardSearch {
            search_id,
        },
        ElementsLookupView::Evaluate { expression } => LookupRequestView::Evaluate { expression },
        ElementsLookupView::Walk { list } => LookupRequestView::WalkList { list },
    }
}

/// The next state of a lookup of every element, or its end with the elements found.
#[derive(Debug)]
pub enum ElementsStep {
    Next(ElementsLookup),
    Finish(Result<Vec<FoundElement>, CdpError>),
}

pub enum ElementsStepView {
    Next(ElementsLookupView),
    Finish(Result<Seq<(i64, Option<Seq<char>>)>, CdpErrorView>),
}

impl View for ElementsStep {
    type V = ElementsStepView;

    open spec fn view(&self) -> ElementsStepView {
        match self {
            ElementsStep::Next(s) => ElementsStepView::Next(s@),
            ElementsStep::Finish(Ok(v)) => ElementsStepView::Finish(
                Ok(v@.map_values(|f: FoundElement| found_element_view(f))),
            ),
            ElementsStep::Finish(Err(e)) => ElementsStepView::Finish(Err(e@)),
        }
    }
}

/// The lookup of every element a locator starts with: the scan for its CSS selector, else a
/// search for its XPath; the invalid-locator error when it does not parse.
pub open spec fn all_start_spec(locator: Seq<char>) -> Result<ElementsLookupView, CdpErrorView> {
    match parse_spec(locator) {
        Err(_) => Err(local_error(invalid_locator_message(locator))),
        Ok(l) => match css_selector_spec(l) {
            Some(c) => Ok(ElementsLookupView::Scan { selector: c }),
            None => Ok(ElementsLookupView::SearchDom { query: xpath_spec(l)->0 }),
        },
    }
}

/// The node ids a `DOM.getSearchResults` reply lists.
pub open spec fn search_hits(v: Json) -> Seq<i64> {
    match array_spec(get_spec(v, "nodeIds"@)) {
        Some(list) => search_ids_spec(list),
        None => Seq::empty(),
    }
}

/// Elements found by node id alone; their backend node ids are to be read.
pub open spec fn by_node_ids(ids: Seq<i64>) -> Seq<(i64, Option<Seq<char>>)> {
    ids.map_values(|n: i64| (n, None::<Seq<char>>))
}

/// What an answer does to the lookup of every element. The scan's matches are the elements,
/// with the object ids they were reached by. A search takes all its results and is
/// discarded; when it found none, the XPath's node snapshot is evaluated and walked. Every
/// error ends the lookup. An answer of the other kind than the one waited for leaves the
/// lookup as it is.
pub open spec fn all_step_spec(s: ElementsLookupView, ev: LookupEventView) -> ElementsStepView {
    match s {
        ElementsLookupView::Scan { .. } => match ev {
            LookupEventView::Scanned(Err(e)) => ElementsStepView::Finish(Err(e)),
            LookupEventView::Scanned(Ok(pairs)) => ElementsStepView::Finish(
                Ok(pairs.map_values(|p: (i64, Seq<char>)| (p.0, Some(p.1)))),
            ),
            _ => ElementsStepView::Next(s),
        },
        ElementsLookupView::SearchDom { query } => match ev {
            LookupEventView::Reply(Ok(_)) => ElementsStepView::Next(
                ElementsLookupView::Search { query },
            ),
            LookupEventView::Reply(Err(e)) => ElementsStepView::Finish(Err(e)),
            _ => ElementsStepView::Next(s),
        },
        ElementsLookupView::Search { query } => match ev {
            LookupEventView::Reply(Ok(v)) => match str_spec(get_spec(v, "searchId"@)) {
                Some(id) => if result_count_spec(v) > 0 {
                    ElementsStepView::Next(
                        ElementsLookupView::SearchResults {
                            query,
                            search_id: id,
                            count: result_count_spec(v),
                        },
                    )
                } else {
                    ElementsStepView::Next(
                        ElementsLookupView::Discard { query, search_id: id, hits: Seq::empty() },
                    )
                },
                None => ElementsStepView::Finish(
                    Err(local_error("DOM.performSearch did not return searchId"@)),
                ),
            },
            LookupEventView::Reply(Err(e)) => ElementsStepView::Finish(Err(e)),
            _ => ElementsStepView::Next(s),
        },
        ElementsLookupView::SearchResults { query, search_id, .. } => match ev {
            LookupEventView::Reply(Ok(v)) => ElementsStepView::Next(
                ElementsLookupView::Discard { query, search_id, hits: search_hits(v) },
            ),
            LookupEventView::Reply(Err(e)) => ElementsStepView::Finish(Err(e)),
            _ => ElementsStepView::Next(s),
        },
        ElementsLookupView::Discard { query, hits, .. } => match ev {
            LookupEventView::Reply(Ok(_)) => if hits.len() > 0 {
                ElementsStepView::Finish(Ok(by_node_ids(hits)))
            } else {
                ElementsStepView::Next(
                    ElementsLookupView::Evaluate { expression: snapshot_expression_spec(query) },
                )
            },
            LookupEventView::Reply(Err(e)) => ElementsStepView::Finish(Err(e)),
            _ => ElementsStepView::Next(s),
        },
        ElementsLookupView::Evaluate { .. } => match ev {
            LookupEventView::Reply(Ok(v)) => match nested_str(v, "result"@, "objectId"@) {
                Some(list) => ElementsStepView::Next(ElementsLookupView::Walk { list }),
                None => ElementsStepView::Finish(Ok(Seq::empty())),
            },
            LookupEventView::Reply(Err(e)) => ElementsStepView::Finish(Err(e)),
            _ => ElementsStepView::Next(s),
        },
        ElementsLookupView::Walk { .. } => match ev {
            LookupEventView::Walked(Ok(ids)) => ElementsStepView::Finish(Ok(by_node_ids(ids))),
            LookupEventView::Walked(Err(e)) => ElementsStepView::Finish(Err(e)),
            _ => ElementsStepView::Next(s),
        },
    }
}

/// Law: a search that found nothing, once discarded, falls back on the XPath's snapshot.
pub proof fn law_empty_search_evaluates_xpath(query: Seq<char>, search_id: Seq<char>, reply: Json)
    ensures
        all_step_spec(
            ElementsLookupView::Discard { query, search_id, hits: Seq::empty() },
            LookupEventView::Reply(Ok(reply)),
        ) == ElementsStepView::Next(
            ElementsLookupView::Evaluate { expression: snapshot_expression_spec(query) },
        ),
{
}

/// The scan's matches as found elements.
fn found_from_pairs(pairs: &Vec<(i64, String)>) -> (r: Vec<FoundElement>)
    ensures
        r@.len() == pairs@.len(),
        forall|k: int| #![trigger r@[k]] 0 <= k < r@.len() ==> found_element_view(r@[k]) == (
            pairs@[k].0,
            Some(pairs@[k].1@),
        ),
{
    let mut out: Vec<FoundElement> = Vec::new();
    let mut i: usize = 0;
    while i < pairs.len()
        invariant
            i <= pairs@.len(),
            out@.len() == i,
            forall|k: int| #![trigger out@[k]] 0 <= k < i ==> found_element_view(out@[k]) == (
                pairs@[k].0,
                Some(pairs@[k].1@),
            ),
        decreases pairs.len() - i,
    {
        out.push(
            FoundElement { node_id: pairs[i].0, object_id: Some(pairs[i].1.clone()) },
        );
        i = i + 1;
    }
    out
}

/// Found elements by node id alone.
fn found_from_ids(ids: &Vec<i64>) -> (r: Vec<FoundElement>)
    ensures
        r@.map_values(|f: FoundElement| found_element_view(f)) == by_node_ids(ids@),
{
    let mut out: Vec<FoundElement> = Vec::new();
    let mut i: usize = 0;
    while i < ids.len()
        invariant
            i <= ids@.len(),
            out@.len() == i,
            forall|k: int| #![trigger out@[k]] 0 <= k < i ==> found_element_view(out@[k]) == (
                ids@[k],
                None::<Seq<char>>,
            ),
        decreases ids.len() - i,
    {
        out.push(FoundElement { node_id: ids[i], object_id: None });
        i = i + 1;
    }
    assert(out@.map_values(|f: FoundElement| found_element_view(f)) =~= by_node_ids(ids@));
    out
}

impl ElementsLookup {
    /// The lookup of every element a locator names; the invalid-locator error when it does
    /// not parse.
    pub fn start(locator: &str) -> (r: Result<ElementsLookup, CdpError>)
        ensures
            match all_start_spec(locator@) {
                Ok(s) => r matches Ok(x) && x@ == s,
                Err(e) => r matches Err(x) && x@ == e,
            },
    {
        match page_lookup(locator, true) {
            Err(e) => Err(e),
            Ok(PageLookup::Css(selector)) => Ok(ElementsLookup::Scan { selector }),
            Ok(PageLookup::Search { query, fallback_xpath: _ }) => Ok(
                ElementsLookup::SearchDom { query },
            ),
        }
    }

    /// The request this state waits on.
    pub fn request(&self) -> (r: LookupRequest)
        ensures
            r@ == all_request_spec(self@),
    {
        match self {
            ElementsLookup::Scan { selector } => LookupRequest::Scan { selector: selector.clone() },
            ElementsLookup::SearchDom { .. } => LookupRequest::EnableDom,
            ElementsLookup::Search { query } => LookupRequest::PerformSearch { query: query.clone() },
            ElementsLookup::SearchResults { search_id, count, .. } =>
                LookupRequest::GetSearchResults { search_id: search_id.clone(), from: 0, to: *count },
            ElementsLookup::Discard { search_id, .. } => LookupRequest::DiscardSearch {
                search_id: search_id.clone(),
            },
            ElementsLookup::Evaluate { expression } => LookupRequest::Evaluate {
                expression: expression.clone(),
            },
            ElementsLookup::Walk { list } => LookupRequest::WalkList { list: list.clone() },
        }
    }

    /// Takes the answer to the request this state waits on.
    pub fn step(self, event: LookupEvent) -> (r: ElementsStep)
        ensures
            r@ == all_step_spec(self@, event@),
    {
        match self {
            ElementsLookup::Scan { selector } => match event {
                LookupEvent::Scanned(Err(e)) => ElementsStep::Finish(Err(e)),
                LookupEvent::Scanned(Ok(pairs)) => {
                    let found = found_from_pairs(&pairs);
                    assert(found@.map_values(|f: FoundElement| found_element_view(f))
                        =~= pairs@.map_values(|p: (i64, String)| (p.0, p.1@)).map_values(
                        |p: (i64, Seq<char>)| (p.0, Some(p.1)),
                    ));
                    ElementsStep::Finish(Ok(found))
                },
                _ => ElementsStep::Next(ElementsLookup::Scan { selector }),
            },
            ElementsLookup::SearchDom { query } => match event {
                LookupEvent::Reply(Ok(_)) => ElementsStep::Next(ElementsLookup::Search { query }),
                LookupEvent::Reply(Err(e)) => ElementsStep::Finish(Err(e)),
                _ => ElementsStep::Next(ElementsLookup::SearchDom { query }),
            },
            ElementsLookup::Search { query } => match event {
                LookupEvent::Reply(Ok(v)) => match search_summary(&v) {
                    Ok((search_id, count)) => if count > 0 {
                        ElementsStep::Next(ElementsLookup::SearchResults { query, search_id, count })
                    } else {
                        ElementsStep::Next(
                            ElementsLookup::Discard { query, search_id, hits: Vec::new() },
                        )
                    },
                    Err(e) => ElementsStep::Finish(Err(e)),
                },
                LookupEvent::Reply(Err(e)) => ElementsStep::Finish(Err(e)),
                _ => ElementsStep::Next(ElementsLookup::Search { query }),
            },
            ElementsLookup::SearchResults { query, search_id, count } => match event {
                LookupEvent::Reply(Ok(v)) => {
                    let hits = search_node_ids(&v);
                    ElementsStep::Next(ElementsLookup::Discard { query, search_id, hits })
                },
                LookupEvent::Reply(Err(e)) => ElementsStep::Finish(Err(e)),
                _ => ElementsStep::Next(ElementsLookup::SearchResults { query, search_id, count }),
            },
            ElementsLookup::Discard { query, search_id, hits } => match event {
                LookupEvent::Reply(Ok(_)) => if hits.len() > 0 {
                    ElementsStep::Finish(Ok(found_from_ids(&hits)))
                } else {
                    match xpath_snapshot_expression(query.as_str()) {
                        Ok(expression) => ElementsStep::Next(ElementsLookup::Evaluate { expression }),
                        Err(e) => ElementsStep::Finish(Err(e)),
                    }
                },
                LookupEvent::Reply(Err(e)) => ElementsStep::Finish(Err(e)),
                _ => ElementsStep::Next(ElementsLookup::Discard { query, search_id, hits }),
            },
            ElementsLookup::Evaluate { expression } => match event {
                LookupEvent::Reply(Ok(v)) => match result_object_id(&v, None) {
                    Ok(Some(list)) => ElementsStep::Next(ElementsLookup::Walk { list }),
                    Ok(None) => {
                        let none: Vec<FoundElement> = Vec::new();
                        assert(none@.map_values(|f: FoundElement| found_element_view(f)) =~= Seq::<
                            (i64, Option<Seq<char>>),
                        >::empty());
                        ElementsStep::Finish(Ok(none))
                    },
                    Err(e) => ElementsStep::Finish(Err(e)),
                },
                LookupEvent::Reply(Err(e)) => ElementsStep::Finish(Err(e)),
                _ => ElementsStep::Next(ElementsLookup::Evaluate { expression }),
            },
            ElementsLookup::Walk { list } => match event {
                LookupEvent::Walked(Ok(ids)) => ElementsStep::Finish(Ok(found_from_ids(&ids))),
                LookupEvent::Walked(Err(e)) => ElementsStep::Finish(Err(e)),
                _ => ElementsStep::Next(ElementsLookup::Walk { list }),
            },
        }
    }
}


// ---------- a lookup inside a frame's document ----------

/// Which try of a lookup inside a frame's document failed.
#[derive(Debug, Clone, Copy, PartialEq, Eq)]
pub enum FrameTry {
    /// The try on the document node the frame holds.
    First,
    /// The try on the document read anew.
    Retry,
}

/// What follows a failed try inside a frame's document.
#[derive(Debug)]
pub enum FrameFailure {
    /// Read the frame's document anew (`refreshed_root`) and try once more.
    Refresh,
    /// The lookup ends with this error.
    Fail(CdpError),
}

/// What follows a failed try: when the document node has gone (a "no node" error), the first
/// try is followed by one more on the document read anew; every other failure, and any
/// failure of that second try, ends the lookup with its error.
pub fn frame_try_failed(attempt: FrameTry, e: CdpError) -> (r: FrameFailure)
    ensures
        if attempt == FrameTry::First && no_node_spec(e@) {
            r is Refresh
        } else {
            r matches FrameFailure::Fail(x) && x@ == e@
        },
{
    match attempt {
        FrameTry::First => if is_no_node_error(&e) {
            FrameFailure::Refresh
        } else {
            FrameFailure::Fail(e)
        },
        FrameTry::Retry => FrameFailure::Fail(e),
    }
}

/// The document node the second try uses: the one the frame's document was read anew as, or
/// the old one when that read failed or found none.
pub fn refreshed_root(root: i64, refreshed: Result<Option<i64>, CdpError>) -> (r: i64)
    ensures
        r == match refreshed {
            Ok(Some(n)) => n,
            _ => root,
        },
{
    match refreshed {
        Ok(Some(n)) => n,
        _ => root,
    }
}

} // verus!
