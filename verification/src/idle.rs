//! Waiting for the network to go quiet: the count of a tab's requests in flight, kept from the
//! protocol's events, and when the quiet period starts over.

use crate::cdp::{CdpError, CdpErrorView, CdpEvent};
use crate::text::{dec_nat, push_u64, str_equal};
use vstd::prelude::*;
use vstd::string::StringExecFns;

verus! {

/// What the event subscription handed over.
#[derive(Debug)]
pub enum IdleInput {
    /// An event.
    Event(CdpEvent),
    /// The subscription fell behind and lost this many events.
    Lagged(u64),
    /// The event channel closed.
    Closed,
}

/// What an event does to the quiet period.
#[derive(Debug, Clone, Copy, PartialEq, Eq)]
pub enum IdleChange {
    /// Nothing.
    Unchanged,
    /// A request started: the network is busy.
    Busy,
    /// The last request in flight ended (or a request ended with none in flight): the quiet
    /// period starts now.
    QuietFromNow,
}

/// The count of requests in flight of one tab.
#[derive(Debug)]
pub struct InflightCounter {
    inflight: usize,
}

pub open spec fn is_request_start(method: Seq<char>) -> bool {
    method == "Network.requestWillBeSent"@
}

pub open spec fn is_request_end(method: Seq<char>) -> bool {
    method == "Network.loadingFinished"@ || method == "Network.loadingFailed"@
}

/// Whether an event belongs to the session.
pub open spec fn in_session(ev: CdpEvent, session_id: Seq<char>) -> bool {
    ev.session_id matches Some(s) && s@ == session_id
}

/// The count of requests in flight after an event: a start of the session counts up, an end
/// of the session counts down (not below zero), anything else leaves it.
pub open spec fn count_after(c: nat, ev: CdpEvent, session_id: Seq<char>) -> nat {
    if !in_session(ev, session_id) {
        c
    } else if is_request_start(ev.method@) {
        c + 1
    } else if is_request_end(ev.method@) {
        if c == 0 {
            0
        } else {
            (c - 1) as nat
        }
    } else {
        c
    }
}

/// What an event does to the quiet period, given the count before it.
pub open spec fn change_after(c: nat, ev: CdpEvent, session_id: Seq<char>) -> IdleChange {
    if !in_session(ev, session_id) {
        IdleChange::Unchanged
    } else if is_request_start(ev.method@) {
        IdleChange::Busy
    } else if is_request_end(ev.method@) {
        if count_after(c, ev, session_id) == 0 {
            IdleChange::QuietFromNow
        } else {
            IdleChange::Unchanged
        }
    } else {
        IdleChange::Unchanged
    }
}

/// The end of a request undoes its start: the count comes back to what it was.
pub proof fn law_request_end_undoes_start(c: nat, start: CdpEvent, end: CdpEvent, session_id: Seq<char>)
    requires
        in_session(start, session_id),
        in_session(end, session_id),
        is_request_start(start.method@),
        is_request_end(end.method@),
    ensures
        count_after(count_after(c, start, session_id), end, session_id) == c,
        change_after(c, start, session_id) == IdleChange::Busy,
        change_after(count_after(c, start, session_id), end, session_id) == (if c == 0 {
            IdleChange::QuietFromNow
        } else {
            IdleChange::Unchanged
        }),
{
    reveal_strlit("Network.requestWillBeSent");
    reveal_strlit("Network.loadingFinished");
    reveal_strlit("Network.loadingFailed");
    assert("Network.requestWillBeSent"@.len() == 25);
    assert("Network.loadingFinished"@.len() == 23);
    assert("Network.loadingFailed"@.len() == 21);
}

impl InflightCounter {
    pub closed spec fn count(&self) -> nat {
        self.inflight as nat
    }

    /// No request in flight.
    pub fn new() -> (r: Self)
        ensures
            r.count() == 0,
    {
        InflightCounter { inflight: 0 }
    }

    /// The number of requests in flight.
    pub fn inflight(&self) -> (r: usize)
        ensures
            r == self.count(),
    {
        self.inflight
    }

    /// Takes what the subscription handed over: events of other sessions, and other events,
    /// change nothing; a request start counts up and makes the network busy; a request end
    /// counts down (not below zero) and starts the quiet period when none is left. A lagging
    /// or closed subscription is an error.
    pub fn update(&mut self, input: IdleInput, session_id: &str) -> (r: Result<IdleChange, CdpError>)
        requires
            old(self).count() < usize::MAX,
        ensures
            match input {
                IdleInput::Lagged(n) => r matches Err(e) && e@ == CdpErrorView::Recv(
                    "CDP event receiver lagged by "@ + dec_nat(n as nat) + " events"@,
                ) && final(self).count() == old(self).count(),
                IdleInput::Closed => r matches Err(e) && e@ == CdpErrorView::ChannelClosed(
                    "CDP event channel closed"@,
                ) && final(self).count() == old(self).count(),
                IdleInput::Event(ev) => {
                    &&& final(self).count() == count_after(old(self).count(), ev, session_id@)
                    &&& r == Ok::<IdleChange, CdpError>(
                        change_after(old(self).count(), ev, session_id@),
                    )
                },
            },
    {
        match input {
            IdleInput::Lagged(n) => {
                let mut m = String::from_str("CDP event receiver lagged by ");
                push_u64(&mut m, n);
                m.append(" events");
                Err(CdpError::Recv(m))
            },
            IdleInput::Closed => Err(
                CdpError::ChannelClosed(String::from_str("CDP event channel closed")),
            ),
            IdleInput::Event(ev) => {
                let same = match &ev.session_id {
                    Some(s) => str_equal(s.as_str(), session_id),
                    None => false,
                };
                if !same {
                    return Ok(IdleChange::Unchanged);
                }
                let m = ev.method.as_str();
                if str_equal(m, "Network.requestWillBeSent") {
                    self.inflight = self.inflight + 1;
                    Ok(IdleChange::Busy)
                } else if str_equal(m, "Network.loadingFinished") || str_equal(
                    m,
                    "Network.loadingFailed",
                ) {
                    if self.inflight > 0 {
                        self.inflight = self.inflight - 1;
                    }
                    if self.inflight == 0 {
                        Ok(IdleChange::QuietFromNow)
                    } else {
                        Ok(IdleChange::Unchanged)
                    }
                } else {
                    Ok(IdleChange::Unchanged)
                }
            },
        }
    }
}

} // verus!
