//! One connection's exchange, as a state machine over plain events.
//!
//! A dispatched connection repeatedly reads one request, hands it to the
//! handler, and writes the reply, until the peer closes, a request is
//! malformed, or the stream fails. Each connection runs this machine on its
//! own, over its own events alone, so no exchange of one connection can
//! affect or be routed to another, and a failure ends only the connection
//! it happened on.

use vstd::prelude::*;
use crate::handler::{handle, HttpRequest, HttpResponse};

verus! {

/// The phase of one connection's exchange. `Closed` is final.
#[derive(Clone, Copy, Debug, PartialEq, Eq, Structural)]
pub enum ConnPhase {
    /// The exchange is live: the next request will be answered.
    Open,
    /// The connection is done; nothing more is read or written on it.
    Closed,
}

/// One outcome of reading from a live connection.
#[derive(Debug)]
pub enum ConnEvent {
    /// One well-formed request was parsed from the stream.
    Request(HttpRequest),
    /// The peer closed the connection: the normal end of an exchange.
    PeerClosed,
    /// The stream held malformed protocol data.
    ProtocolError,
    /// Reading or writing failed mid-stream.
    IoError,
}

/// What the connection's task does in response to one event.
#[derive(Debug, PartialEq, Eq)]
pub enum ConnAction {
    /// Write this reply and keep the exchange going.
    Respond(HttpResponse),
    /// Drop the connection quietly: the peer is done.
    Close,
    /// Drop the connection and log the failure; nothing propagates past
    /// this connection.
    CloseLoggingError(ConnError),
}

/// Why a connection was dropped with a diagnostic.
#[derive(Clone, Copy, Debug, PartialEq, Eq, Structural)]
pub enum ConnError {
    /// The peer sent data the protocol codec could not parse.
    Malformed,
    /// The stream failed mid-exchange.
    Io,
}

/// Whether an action answers a request with the service's one reply.
pub open spec fn replies_ok(action: ConnAction) -> bool {
    action matches ConnAction::Respond(resp) && resp.is_ok_reply()
}

/// Whether an action closes the connection the way the given terminal
/// event calls for: quietly on the peer's close, logging the failure
/// otherwise.
pub open spec fn closes_for(action: ConnAction, event: ConnEvent) -> bool {
    match event {
        ConnEvent::Request(_) => false,
        ConnEvent::PeerClosed => action is Close,
        ConnEvent::ProtocolError => action == ConnAction::CloseLoggingError(ConnError::Malformed),
        ConnEvent::IoError => action == ConnAction::CloseLoggingError(ConnError::Io),
    }
}

/// The phase transition of one exchange step: a request keeps the
/// connection open, everything else closes it, and a closed connection
/// stays closed.
pub open spec fn conn_phase_step(phase: ConnPhase, event: &ConnEvent) -> ConnPhase {
    match phase {
        ConnPhase::Open => match event {
            ConnEvent::Request(_) => ConnPhase::Open,
            _ => ConnPhase::Closed,
        },
        ConnPhase::Closed => ConnPhase::Closed,
    }
}

/// Take one step of a live connection's exchange: answer a request with
/// the handler's reply — always the fixed success reply — or close on the
/// peer's close or on a failure, logging only the failures.
pub fn conn_step(phase: ConnPhase, event: &ConnEvent) -> (r: (ConnPhase, ConnAction))
    requires
        phase is Open,
    ensures
        r.0 == conn_phase_step(phase, event),
        event is Request ==> replies_ok(r.1),
        !(event is Request) ==> closes_for(r.1, *event),
{
    match event {
        ConnEvent::Request(req) => (ConnPhase::Open, ConnAction::Respond(handle(req))),
        ConnEvent::PeerClosed => (ConnPhase::Closed, ConnAction::Close),
        ConnEvent::ProtocolError => (
            ConnPhase::Closed,
            ConnAction::CloseLoggingError(ConnError::Malformed),
        ),
        ConnEvent::IoError => (ConnPhase::Closed, ConnAction::CloseLoggingError(ConnError::Io)),
    }
}

/// How many events from the start of a connection's trace are well-formed
/// requests: the length of the exchange's live prefix. The event at this
/// index, if any, is the one that ends the exchange.
pub open spec fn open_prefix_len(events: Seq<ConnEvent>) -> int
    decreases events.len(),
{
    if events.len() == 0 {
        0
    } else if events[0] is Request {
        1 + open_prefix_len(events.drop_first())
    } else {
        0
    }
}

/// The live prefix is exactly the longest all-request prefix: every event
/// before it is a request, and the event at its end, if any, is not.
pub proof fn lemma_open_prefix_len(events: Seq<ConnEvent>)
    ensures
        0 <= open_prefix_len(events) <= events.len(),
        forall|i: int| 0 <= i < open_prefix_len(events) ==> events[i] is Request,
        open_prefix_len(events) < events.len() ==> !(events[open_prefix_len(events)] is Request),
    decreases events.len(),
{
    if events.len() > 0 && events[0] is Request {
        lemma_open_prefix_len(events.drop_first());
        assert forall|i: int| 0 <= i < open_prefix_len(events) implies events[i] is Request by {
            if i > 0 {
                assert(events[i] == events.drop_first()[i - 1]);
            }
        }
    }
}

/// Drive one whole exchange over the events read from one connection, in
/// order. Every request on the live prefix is answered — the i-th reply
/// answers the i-th request, and each is the fixed success reply — and the
/// first terminal event closes the connection, after which nothing more is
/// produced. The actions depend on this connection's events alone, so no
/// reply can be routed to, or disturbed by, another connection.
pub fn conn_session(events: &Vec<ConnEvent>) -> (acts: Vec<ConnAction>)
    ensures
        ({
            let k = open_prefix_len(events@);
            &&& acts@.len() == (if k == events@.len() {
                k
            } else {
                k + 1
            })
            &&& forall|i: int| 0 <= i < k ==> replies_ok(#[trigger] acts@[i])
            &&& k < events@.len() ==> closes_for(acts@[k], events@[k])
        }),
{
    proof {
        lemma_open_prefix_len(events@);
    }
    let ghost k = open_prefix_len(events@);
    let mut acts: Vec<ConnAction> = Vec::new();
    let mut phase = ConnPhase::Open;
    let n = events.len();
    let mut i: usize = 0;
    while i < n && phase == ConnPhase::Open
        invariant
            n == events@.len(),
            i <= n,
            k == open_prefix_len(events@),
            0 <= k <= n,
            forall|j: int| 0 <= j < k ==> events@[j] is Request,
            k < n ==> !(events@[k] is Request),
            phase is Open ==> i <= k && acts@.len() == i,
            phase is Closed ==> k < n && i == k + 1 && acts@.len() == i,
            forall|j: int| 0 <= j < k && j < acts@.len() ==> replies_ok(#[trigger] acts@[j]),
            phase is Closed ==> closes_for(acts@[k], events@[k]),
        decreases n - i,
    {
        let (next, act) = conn_step(phase, &events[i]);
        acts.push(act);
        phase = next;
        i += 1;
    }
    acts
}

} // verus!
