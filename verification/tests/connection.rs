use hello_server::conn::{conn_session, conn_step, ConnAction, ConnError, ConnEvent, ConnPhase};
use hello_server::handler::HttpRequest;

fn request(method: &str, target: &str) -> ConnEvent {
    ConnEvent::Request(HttpRequest { method: method.to_string(), target: target.to_string() })
}

fn assert_ok_reply(action: &ConnAction) {
    match action {
        ConnAction::Respond(resp) => {
            assert_eq!(resp.status, 200);
            assert_eq!(resp.body, "Hello, World!\n");
        }
        other => panic!("expected a reply, got {:?}", other),
    }
}

#[test]
fn one_request_one_reply() {
    let acts = conn_session(&vec![request("GET", "/")]);
    assert_eq!(acts.len(), 1);
    assert_ok_reply(&acts[0]);
}

#[test]
fn peer_close_ends_the_exchange_quietly() {
    let acts = conn_session(&vec![request("GET", "/"), ConnEvent::PeerClosed]);
    assert_eq!(acts.len(), 2);
    assert_ok_reply(&acts[0]);
    assert_eq!(acts[1], ConnAction::Close);
}

#[test]
fn malformed_data_drops_only_this_connection() {
    // One peer sends garbage; its connection is dropped with a diagnostic.
    let bad = conn_session(&vec![ConnEvent::ProtocolError]);
    assert_eq!(bad, vec![ConnAction::CloseLoggingError(ConnError::Malformed)]);

    // A second connection, live at the same time, is answered as ever.
    let good = conn_session(&vec![request("GET", "/"), ConnEvent::PeerClosed]);
    assert_eq!(good.len(), 2);
    assert_ok_reply(&good[0]);
}

#[test]
fn io_error_drops_the_connection_with_a_diagnostic() {
    let acts = conn_session(&vec![request("GET", "/"), ConnEvent::IoError]);
    assert_eq!(acts.len(), 2);
    assert_ok_reply(&acts[0]);
    assert_eq!(acts[1], ConnAction::CloseLoggingError(ConnError::Io));
}

#[test]
fn nothing_follows_the_first_terminal_event() {
    let acts = conn_session(&vec![ConnEvent::PeerClosed, request("GET", "/")]);
    assert_eq!(acts, vec![ConnAction::Close]);
}

#[test]
fn many_requests_each_get_the_reply() {
    let acts = conn_session(&vec![
        request("GET", "/"),
        request("POST", "/a"),
        request("GET", "/b"),
    ]);
    assert_eq!(acts.len(), 3);
    for act in &acts {
        assert_ok_reply(act);
    }
}

#[test]
fn two_clients_get_independent_replies() {
    // Two connections, each with its own exchange, stepped in an
    // interleaved order: each reply answers its own connection's request.
    let first_req = request("GET", "/first");
    let second_req = request("POST", "/second");

    let (first_phase, first_act) = conn_step(ConnPhase::Open, &first_req);
    let (second_phase, second_act) = conn_step(ConnPhase::Open, &second_req);
    assert_eq!(first_phase, ConnPhase::Open);
    assert_eq!(second_phase, ConnPhase::Open);
    assert_ok_reply(&first_act);
    assert_ok_reply(&second_act);

    // One peer leaving does not end the other exchange.
    let (first_phase, _) = conn_step(first_phase, &ConnEvent::PeerClosed);
    assert_eq!(first_phase, ConnPhase::Closed);
    let (second_phase, third_act) = conn_step(second_phase, &request("GET", "/again"));
    assert_eq!(second_phase, ConnPhase::Open);
    assert_ok_reply(&third_act);
}
