//! The decisions of one WebTransport session bridge: which path a bus
//! message takes to the client, which messages are dropped, and the
//! lifecycle `Subscribing -> Relaying -> Draining -> Terminated` with its
//! teardown. The relay loops themselves run outside and consult these.
use vstd::prelude::*;
use crate::subject::{own_subject, own_subject_of, room_subject, room_subject_of};

verus! {

/// Payloads up to this many bytes go to the client as one datagram; longer
/// ones go on a fresh unidirectional stream.
pub const DATAGRAM_MAX_BYTES: usize = 400;

/// How a payload crosses to the client.
#[derive(Debug, Clone, Copy, PartialEq, Eq, Structural)]
pub enum Route {
    Datagram,
    Stream,
}

/// What the bus-to-client loop does with one delivered bus message.
#[derive(Debug, Clone, Copy, PartialEq, Eq, Structural)]
pub enum BusAction {
    /// The cancellation flag is set: leave the loop.
    Stop,
    /// The message came from this participant: drop it.
    DiscardOwn,
    /// Send the payload as one datagram.
    SendDatagram,
    /// Open a unidirectional stream and write the payload on it.
    OpenStream,
}

/// How many outbound stream writes of one session may run at once.
#[derive(Debug, Clone, Copy, PartialEq, Eq, Structural)]
pub enum ConcurrencyBound {
    /// Every write runs on its own task, without limit.
    Unbounded,
    /// At most this many writes run at once; the next one waits its turn.
    AtMost(u64),
}

/// Where a session stands.
#[derive(Debug, Clone, Copy, PartialEq, Eq, Structural)]
pub enum SessionPhase {
    Subscribing,
    Relaying,
    Draining,
    Terminated,
}

/// What follows the answer to the bus subscription.
#[derive(Debug, Clone, Copy, PartialEq, Eq, Structural)]
pub enum SetupOutcome {
    /// Start the three relay loops.
    StartRelays,
    /// The subscription failed: report the error, start nothing.
    Abort,
}

/// The work to do once the inbound-stream loop has ended.
#[derive(Debug, Clone, Copy, PartialEq, Eq, Structural)]
pub struct Teardown {
    pub clear_run_flag: bool,
    pub abort_subscription: bool,
    pub cancel_datagram_loop: bool,
}

/// The path a payload of `payload_len` bytes takes to the client.
pub open spec fn route_of(payload_len: nat) -> Route {
    if payload_len > DATAGRAM_MAX_BYTES {
        Route::Stream
    } else {
        Route::Datagram
    }
}

/// What the bus-to-client loop does with a message, given the run flag
/// and the participant's own subject.
pub open spec fn bus_action_of(
    running: bool,
    msg_subject: Seq<char>,
    own: Seq<char>,
    payload_len: nat,
) -> BusAction {
    if !running {
        BusAction::Stop
    } else if msg_subject == own {
        BusAction::DiscardOwn
    } else {
        match route_of(payload_len) {
            Route::Datagram => BusAction::SendDatagram,
            Route::Stream => BusAction::OpenStream,
        }
    }
}

/// Whether one more write may start while `in_flight` are running.
pub open spec fn admitted(bound: ConcurrencyBound, in_flight: nat) -> bool {
    match bound {
        ConcurrencyBound::Unbounded => true,
        ConcurrencyBound::AtMost(n) => in_flight < n,
    }
}

/// Whether the action hands the payload to the client.
pub open spec fn forwards(a: BusAction) -> bool {
    a == BusAction::SendDatagram || a == BusAction::OpenStream
}

/// The position of a phase in the lifecycle.
pub open spec fn phase_rank(p: SessionPhase) -> nat {
    match p {
        SessionPhase::Subscribing => 0,
        SessionPhase::Relaying => 1,
        SessionPhase::Draining => 2,
        SessionPhase::Terminated => 3,
    }
}

/// The routing policy: datagram up to the threshold, stream above it.
pub fn route_for(payload_len: usize) -> (r: Route)
    ensures
        r == route_of(payload_len as nat),
{
    if payload_len > DATAGRAM_MAX_BYTES {
        Route::Stream
    } else {
        Route::Datagram
    }
}

/// Whether a new outbound stream write may be spawned now; where it may not,
/// the loop performs the write itself before taking the next message.
pub fn admits(bound: ConcurrencyBound, in_flight: u64) -> (r: bool)
    ensures
        r == admitted(bound, in_flight as nat),
{
    match bound {
        ConcurrencyBound::Unbounded => true,
        ConcurrencyBound::AtMost(n) => in_flight < n,
    }
}

/// One step of the bus-to-client loop: the cancellation flag is checked
/// first, then the self-echo guard, then the routing policy.
pub fn bus_to_client_action(
    running: bool,
    msg_subject: &String,
    own_subject: &String,
    payload_len: usize,
) -> (r: BusAction)
    ensures
        r == bus_action_of(running, msg_subject@, own_subject@, payload_len as nat),
{
    if !running {
        BusAction::Stop
    } else if *msg_subject == *own_subject {
        BusAction::DiscardOwn
    } else {
        match route_for(payload_len) {
            Route::Datagram => BusAction::SendDatagram,
            Route::Stream => BusAction::OpenStream,
        }
    }
}

/// The abstract state of a bridge.
pub struct BridgeView {
    pub phase: SessionPhase,
    pub running: bool,
    pub subscription_alive: bool,
    pub datagram_loop_alive: bool,
    pub room_subject: Seq<char>,
    pub own_subject: Seq<char>,
}

/// The bridge once the bus has answered the subscription.
pub open spec fn after_subscribe(v: BridgeView, ok: bool) -> BridgeView {
    if ok {
        BridgeView {
            phase: SessionPhase::Relaying,
            running: true,
            subscription_alive: true,
            datagram_loop_alive: true,
            ..v
        }
    } else {
        BridgeView { phase: SessionPhase::Terminated, ..v }
    }
}

/// The bridge once the inbound-stream loop has ended: the run flag is
/// cleared and nothing else keeps running.
pub open spec fn after_stream_loop_end(v: BridgeView) -> BridgeView {
    BridgeView {
        phase: SessionPhase::Draining,
        running: false,
        subscription_alive: false,
        datagram_loop_alive: false,
        ..v
    }
}

/// The bridge once teardown is complete.
pub open spec fn after_finish(v: BridgeView) -> BridgeView {
    BridgeView { phase: SessionPhase::Terminated, ..v }
}

/// The lifecycle of one WebTransport session bridge.
pub struct SessionBridge {
    phase: SessionPhase,
    running: bool,
    subscription_alive: bool,
    datagram_loop_alive: bool,
    room_subject: String,
    own_subject: String,
}

impl View for SessionBridge {
    type V = BridgeView;

    closed spec fn view(&self) -> BridgeView {
        BridgeView {
            phase: self.phase,
            running: self.running,
            subscription_alive: self.subscription_alive,
            datagram_loop_alive: self.datagram_loop_alive,
            room_subject: self.room_subject@,
            own_subject: self.own_subject@,
        }
    }
}

impl SessionBridge {
    /// Only a relaying bridge has its loops running.
    pub open spec fn wf(&self) -> bool {
        &&& (self@.running || self@.subscription_alive || self@.datagram_loop_alive) ==> self@.phase
            == SessionPhase::Relaying
        &&& self@.phase == SessionPhase::Relaying ==> (self@.running && self@.subscription_alive
            && self@.datagram_loop_alive)
    }

    /// A bridge about to subscribe for `username` in `lobby_id`.
    pub fn new(lobby_id: &str, username: &str) -> (r: Self)
        ensures
            r.wf(),
            r@.phase == SessionPhase::Subscribing,
            !r@.running,
            !r@.subscription_alive,
            !r@.datagram_loop_alive,
            r@.room_subject == room_subject_of(lobby_id@),
            r@.own_subject == own_subject_of(lobby_id@, username@),
    {
        SessionBridge {
            phase: SessionPhase::Subscribing,
            running: false,
            subscription_alive: false,
            datagram_loop_alive: false,
            room_subject: room_subject(lobby_id),
            own_subject: own_subject(lobby_id, username),
        }
    }

    pub fn phase(&self) -> (r: SessionPhase)
        ensures
            r == self@.phase,
    {
        self.phase
    }

    /// The cancellation flag read by the bus-to-client loop: `true` while
    /// it may go on.
    pub fn should_run(&self) -> (r: bool)
        ensures
            r == self@.running,
    {
        self.running
    }

    /// The wildcard subject to subscribe to.
    pub fn room_subject(&self) -> (r: &String)
        ensures
            r@ == self@.room_subject,
    {
        &self.room_subject
    }

    /// The subject to publish on, and the subscription's queue group.
    pub fn own_subject(&self) -> (r: &String)
        ensures
            r@ == self@.own_subject,
    {
        &self.own_subject
    }

    /// Records the bus's answer to the subscription.
    pub fn subscribed(&mut self, ok: bool) -> (r: SetupOutcome)
        requires
            old(self).wf(),
            old(self)@.phase == SessionPhase::Subscribing,
        ensures
            final(self).wf(),
            final(self)@ == after_subscribe(old(self)@, ok),
            r == (if ok {
                SetupOutcome::StartRelays
            } else {
                SetupOutcome::Abort
            }),
    {
        if ok {
            self.phase = SessionPhase::Relaying;
            self.running = true;
            self.subscription_alive = true;
            self.datagram_loop_alive = true;
            SetupOutcome::StartRelays
        } else {
            self.phase = SessionPhase::Terminated;
            SetupOutcome::Abort
        }
    }

    /// What the bus-to-client loop does with a message on `msg_subject`.
    pub fn on_bus_message(&self, msg_subject: &String, payload_len: usize) -> (r: BusAction)
        ensures
            r == bus_action_of(self@.running, msg_subject@, self@.own_subject, payload_len as nat),
    {
        bus_to_client_action(self.running, msg_subject, &self.own_subject, payload_len)
    }

    /// The inbound-stream loop has ended: clear the run flag, abort the
    /// subscription and cancel the datagram loop.
    pub fn stream_loop_ended(&mut self) -> (r: Teardown)
        requires
            old(self).wf(),
            old(self)@.phase == SessionPhase::Relaying,
        ensures
            final(self).wf(),
            final(self)@ == after_stream_loop_end(old(self)@),
            r == (Teardown {
                clear_run_flag: true,
                abort_subscription: true,
                cancel_datagram_loop: true,
            }),
    {
        self.phase = SessionPhase::Draining;
        self.running = false;
        self.subscription_alive = false;
        self.datagram_loop_alive = false;
        Teardown { clear_run_flag: true, abort_subscription: true, cancel_datagram_loop: true }
    }

    /// Teardown is complete.
    pub fn finish(&mut self)
        requires
            old(self).wf(),
            old(self)@.phase == SessionPhase::Draining,
        ensures
            final(self).wf(),
            final(self)@ == after_finish(old(self)@),
    {
        self.phase = SessionPhase::Terminated;
    }
}

/// A message published on a participant's own subject is never forwarded
/// back to that participant, whatever its size and whether or not the loop
/// is still running.
pub proof fn lemma_own_messages_never_forwarded(b: BridgeView, payload_len: nat)
    ensures
        !forwards(bus_action_of(b.running, b.own_subject, b.own_subject, payload_len)),
{
}

/// The routing threshold: 400 bytes go as a datagram, 401 as a stream, and
/// the route only changes there.
pub proof fn lemma_route_boundary(n: nat)
    ensures
        route_of(400) == Route::Datagram,
        route_of(401) == Route::Stream,
        n <= 400 ==> route_of(n) == Route::Datagram,
        n > 400 ==> route_of(n) == Route::Stream,
{
}

/// Once the inbound-stream loop of a relaying bridge ends, the run flag is
/// cleared, the subscription and the datagram loop are gone, and every later
/// bus message stops the bus-to-client loop without being forwarded.
pub proof fn lemma_teardown_stops_relaying(b: BridgeView, msg_subject: Seq<char>, payload_len: nat)
    requires
        b.phase == SessionPhase::Relaying,
    ensures
        !after_stream_loop_end(b).running,
        !after_stream_loop_end(b).subscription_alive,
        !after_stream_loop_end(b).datagram_loop_alive,
        bus_action_of(
            after_stream_loop_end(b).running,
            msg_subject,
            after_stream_loop_end(b).own_subject,
            payload_len,
        ) == BusAction::Stop,
{
}

/// No transition of the lifecycle goes back: the phase only moves forward.
pub proof fn lemma_phase_never_returns(b: BridgeView, ok: bool)
    ensures
        b.phase == SessionPhase::Subscribing ==> phase_rank(after_subscribe(b, ok).phase) > phase_rank(b.phase),
        phase_rank(after_stream_loop_end(b).phase) > phase_rank(SessionPhase::Relaying),
        phase_rank(after_finish(b).phase) > phase_rank(SessionPhase::Draining),
        after_stream_loop_end(b).phase != SessionPhase::Relaying,
        after_finish(b).phase != SessionPhase::Relaying,
{
}

} // verus!
