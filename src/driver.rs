//! The decisions of the HTTP/3 connection accept loop: each outcome of an
//! accept call becomes an action, and at most one WebTransport session is
//! ever promoted on a connection.
use vstd::prelude::*;

verus! {

/// The most WebTransport sessions one HTTP/3 connection may carry.
pub const MAX_WEBTRANSPORT_SESSIONS: u64 = 1;

/// How far an accept error reaches.
#[derive(Debug, Clone, Copy, PartialEq, Eq, Structural)]
pub enum ErrorLevel {
    /// The whole connection is broken.
    ConnectionError,
    /// Only one request stream is broken.
    StreamError,
}

/// What one accept call on the HTTP/3 connection produced.
#[derive(Debug, Clone, Copy, PartialEq, Eq, Structural)]
pub enum AcceptEvent {
    /// An ordinary request.
    Request,
    /// A CONNECT request that asks for a WebTransport session.
    WebTransportConnect,
    /// The peer will send no more requests.
    NoMoreRequests,
    /// The accept call failed.
    Failed(ErrorLevel),
}

/// What the loop does about an event.
#[derive(Debug, Clone, Copy, PartialEq, Eq, Structural)]
pub enum DriverAction {
    /// Note the request; ordinary requests are not served.
    Observe,
    /// Hand the new session to a session bridge.
    PromoteSession,
    /// The session cap is reached: do not start another session.
    RefuseSession,
    /// A stream-level error was logged: accept the next request.
    Continue,
    /// Leave the loop normally.
    Finish,
    /// Leave the loop with an error and tear the connection down.
    Abort,
}

/// The abstract state of the accept loop.
pub struct DriverView {
    pub sessions: nat,
    pub done: bool,
}

/// One event applied to the loop's state, with the action it calls for.
pub open spec fn step(s: DriverView, e: AcceptEvent) -> (DriverView, DriverAction) {
    if s.done {
        (s, DriverAction::Finish)
    } else {
        match e {
            AcceptEvent::Request => (s, DriverAction::Observe),
            AcceptEvent::WebTransportConnect => if s.sessions < MAX_WEBTRANSPORT_SESSIONS {
                (DriverView { sessions: s.sessions + 1, ..s }, DriverAction::PromoteSession)
            } else {
                (s, DriverAction::RefuseSession)
            },
            AcceptEvent::NoMoreRequests => (DriverView { done: true, ..s }, DriverAction::Finish),
            AcceptEvent::Failed(ErrorLevel::ConnectionError) => (
                DriverView { done: true, ..s },
                DriverAction::Abort,
            ),
            AcceptEvent::Failed(ErrorLevel::StreamError) => (s, DriverAction::Continue),
        }
    }
}

/// The state of a fresh connection.
pub open spec fn initial_driver() -> DriverView {
    DriverView { sessions: 0, done: false }
}

/// How many sessions a run of events promotes, from state `s`.
pub open spec fn promotions(s: DriverView, events: Seq<AcceptEvent>) -> nat
    decreases events.len(),
{
    if events.len() == 0 {
        0
    } else {
        let (t, a) = step(s, events[0]);
        (if a == DriverAction::PromoteSession {
            1nat
        } else {
            0nat
        }) + promotions(t, events.drop_first())
    }
}

/// The accept loop of one HTTP/3 connection.
pub struct H3Driver {
    sessions: u64,
    done: bool,
}

impl View for H3Driver {
    type V = DriverView;

    closed spec fn view(&self) -> DriverView {
        DriverView { sessions: self.sessions as nat, done: self.done }
    }
}

impl H3Driver {
    /// The session count never passes the cap.
    pub closed spec fn wf(&self) -> bool {
        self.sessions <= MAX_WEBTRANSPORT_SESSIONS
    }

    pub fn new() -> (r: Self)
        ensures
            r.wf(),
            r@ == initial_driver(),
    {
        H3Driver { sessions: 0, done: false }
    }

    /// How many sessions were promoted so far.
    pub fn sessions(&self) -> (r: u64)
        ensures
            r as nat == self@.sessions,
    {
        self.sessions
    }

    /// Whether the loop has ended.
    pub fn is_done(&self) -> (r: bool)
        ensures
            r == self@.done,
    {
        self.done
    }

    /// Applies the outcome of one accept call.
    pub fn on_event(&mut self, e: AcceptEvent) -> (r: DriverAction)
        requires
            old(self).wf(),
        ensures
            final(self).wf(),
            (final(self)@, r) == step(old(self)@, e),
            final(self)@.sessions <= MAX_WEBTRANSPORT_SESSIONS,
    {
        if self.done {
            return DriverAction::Finish;
        }
        match e {
            AcceptEvent::Request => DriverAction::Observe,
            AcceptEvent::WebTransportConnect => {
                if self.sessions < MAX_WEBTRANSPORT_SESSIONS {
                    self.sessions = self.sessions + 1;
                    DriverAction::PromoteSession
                } else {
                    DriverAction::RefuseSession
                }
            },
            AcceptEvent::NoMoreRequests => {
                self.done = true;
                DriverAction::Finish
            },
            AcceptEvent::Failed(ErrorLevel::ConnectionError) => {
                self.done = true;
                DriverAction::Abort
            },
            AcceptEvent::Failed(ErrorLevel::StreamError) => DriverAction::Continue,
        }
    }
}

proof fn lemma_promotions_bounded(s: DriverView, events: Seq<AcceptEvent>)
    requires
        s.sessions <= MAX_WEBTRANSPORT_SESSIONS,
    ensures
        s.sessions + promotions(s, events) <= MAX_WEBTRANSPORT_SESSIONS,
    decreases events.len(),
{
    if events.len() > 0 {
        let (t, a) = step(s, events[0]);
        lemma_promotions_bounded(t, events.drop_first());
    }
}

/// Whatever the peer sends, including repeated CONNECT upgrades, at most one
/// session is promoted on a connection.
pub proof fn lemma_at_most_one_session(events: Seq<AcceptEvent>)
    ensures
        promotions(initial_driver(), events) <= 1,
{
    lemma_promotions_bounded(initial_driver(), events);
}

} // verus!
