//! Tests for the request handlers against real channels: a stub
//! controller is played by preloading the response channel or by
//! closing a channel end.

use std::sync::mpsc;

use captive_portal::errors::ErrorKind;
use captive_portal::ipv4::Ipv4;
use captive_portal::network::{Network, NetworkCommand, NetworkCommandResponse};
use captive_portal::params::ParamInput;
use captive_portal::server::{connect, networks, HandlerOutcome, RequestSharedState};

struct Harness {
    state: RequestSharedState,
    network_rx: mpsc::Receiver<NetworkCommand>,
    server_tx: mpsc::Sender<NetworkCommandResponse>,
    exit_rx: mpsc::Receiver<captive_portal::errors::ShutdownSignal>,
}

fn harness() -> Harness {
    let (network_tx, network_rx) = mpsc::channel();
    let (server_tx, server_rx) = mpsc::channel();
    let (exit_tx, exit_rx) = mpsc::channel();
    let state = RequestSharedState {
        gateway: Ipv4::new(192, 168, 42, 1),
        server_rx,
        network_tx,
        exit_tx,
    };
    Harness { state, network_rx, server_tx, exit_rx }
}

fn net(ssid: &str, signal_strength: u8, security: &str) -> Network {
    Network { ssid: ssid.to_owned(), signal_strength, security: security.to_owned() }
}

fn text(s: &str) -> Option<ParamInput> {
    Some(ParamInput::Text(s.to_owned()))
}

#[test]
fn networks_round_trip() {
    let h = harness();
    h.server_tx
        .send(NetworkCommandResponse::Networks(vec![net("Home", 80, "wpa2")]))
        .unwrap();
    match networks(&h.state) {
        HandlerOutcome::Success(reply) => {
            assert_eq!(reply.status, 200);
            assert_eq!(
                reply.body,
                "[{\"ssid\":\"Home\",\"signalStrength\":80,\"security\":\"wpa2\"}]"
            );
            assert_eq!(reply.location, None);
        }
        other => panic!("expected success, got {:?}", other),
    }
    assert_eq!(h.network_rx.try_recv(), Ok(NetworkCommand::Activate));
    assert!(h.network_rx.try_recv().is_err());
    assert!(h.exit_rx.try_recv().is_err());
}

#[test]
fn networks_requests_are_serialized() {
    let h = harness();
    let first = vec![net("One", 10, "none")];
    let second = vec![net("Two", 20, "wpa2")];
    h.server_tx.send(NetworkCommandResponse::Networks(first.clone())).unwrap();
    h.server_tx.send(NetworkCommandResponse::Networks(second.clone())).unwrap();
    let reply_one = match networks(&h.state) {
        HandlerOutcome::Success(reply) => reply,
        other => panic!("expected success, got {:?}", other),
    };
    let reply_two = match networks(&h.state) {
        HandlerOutcome::Success(reply) => reply,
        other => panic!("expected success, got {:?}", other),
    };
    // Each request consumed the response to its own command, in order.
    assert_eq!(reply_one.body, captive_portal::json::networks_to_json(&first));
    assert_eq!(reply_two.body, captive_portal::json::networks_to_json(&second));
    assert_eq!(h.network_rx.try_recv(), Ok(NetworkCommand::Activate));
    assert_eq!(h.network_rx.try_recv(), Ok(NetworkCommand::Activate));
    assert!(h.network_rx.try_recv().is_err());
}

#[test]
fn networks_send_failure_escalates_once() {
    let h = harness();
    drop(h.network_rx);
    match networks(&h.state) {
        HandlerOutcome::Fatal(kind, reply) => {
            assert_eq!(kind, ErrorKind::SendNetworkCommandActivate);
            assert_eq!(reply.status, 500);
            assert_eq!(reply.body, "Sending network command 'Activate' failed");
        }
        other => panic!("expected escalation, got {:?}", other),
    }
    let signal = h.exit_rx.try_recv().unwrap();
    assert_eq!(signal.kind, ErrorKind::SendNetworkCommandActivate);
    assert!(h.exit_rx.try_recv().is_err(), "exactly one shutdown signal");
}

#[test]
fn networks_recv_failure_escalates_once() {
    let h = harness();
    drop(h.server_tx);
    match networks(&h.state) {
        HandlerOutcome::Fatal(kind, reply) => {
            assert_eq!(kind, ErrorKind::RecvAccessPointSSIDs);
            assert_eq!(reply.status, 500);
            assert_eq!(reply.body, "Receiving access point SSIDs failed");
        }
        other => panic!("expected escalation, got {:?}", other),
    }
    // The command was sent before the receive failed.
    assert_eq!(h.network_rx.try_recv(), Ok(NetworkCommand::Activate));
    let signal = h.exit_rx.try_recv().unwrap();
    assert_eq!(signal.kind, ErrorKind::RecvAccessPointSSIDs);
    assert!(h.exit_rx.try_recv().is_err(), "exactly one shutdown signal");
}

#[test]
fn connect_records_one_command() {
    let h = harness();
    match connect(&h.state, text("Home"), text(""), text("secret")) {
        HandlerOutcome::Success(reply) => {
            assert_eq!(reply.status, 200);
            assert_eq!(reply.body, "");
            assert_eq!(reply.location, None);
        }
        other => panic!("expected success, got {:?}", other),
    }
    assert_eq!(
        h.network_rx.try_recv(),
        Ok(NetworkCommand::Connect {
            ssid: "Home".to_owned(),
            identity: "".to_owned(),
            passphrase: "secret".to_owned(),
        })
    );
    assert!(h.network_rx.try_recv().is_err(), "exactly one command");
    assert!(h.exit_rx.try_recv().is_err(), "no shutdown signal");
}

#[test]
fn connect_missing_param_fails_locally() {
    let h = harness();
    match connect(&h.state, None, text(""), text("secret")) {
        HandlerOutcome::LocalFailure(reply) => {
            assert_eq!(reply.status, 500);
            assert_eq!(reply.body, "'ssid' not found in request params");
        }
        other => panic!("expected a local failure, got {:?}", other),
    }
    assert!(h.network_rx.try_recv().is_err(), "zero commands sent");
    assert!(h.exit_rx.try_recv().is_err(), "no shutdown signal");
}

#[test]
fn connect_missing_identity_and_passphrase() {
    let h = harness();
    match connect(&h.state, text("Home"), None, text("secret")) {
        HandlerOutcome::LocalFailure(reply) => {
            assert_eq!(reply.body, "'identity' not found in request params");
        }
        other => panic!("expected a local failure, got {:?}", other),
    }
    match connect(&h.state, text("Home"), text(""), None) {
        HandlerOutcome::LocalFailure(reply) => {
            assert_eq!(reply.body, "'passphrase' not found in request params");
        }
        other => panic!("expected a local failure, got {:?}", other),
    }
    assert!(h.network_rx.try_recv().is_err(), "zero commands sent");
    assert!(h.exit_rx.try_recv().is_err(), "no shutdown signal");
}

#[test]
fn connect_mistyped_param_fails_locally() {
    let h = harness();
    match connect(&h.state, Some(ParamInput::NonText), text(""), text("secret")) {
        HandlerOutcome::LocalFailure(reply) => {
            assert_eq!(reply.status, 500);
            assert_eq!(reply.body, "Unexpected type for 'ssid'");
        }
        other => panic!("expected a local failure, got {:?}", other),
    }
    assert!(h.network_rx.try_recv().is_err(), "zero commands sent");
    assert!(h.exit_rx.try_recv().is_err(), "no shutdown signal");
}

#[test]
fn connect_checks_params_in_order() {
    let h = harness();
    // Both ssid and passphrase are bad: the ssid fault is reported.
    match connect(&h.state, None, Some(ParamInput::NonText), None) {
        HandlerOutcome::LocalFailure(reply) => {
            assert_eq!(reply.body, "'ssid' not found in request params");
        }
        other => panic!("expected a local failure, got {:?}", other),
    }
}

#[test]
fn connect_send_failure_escalates_once() {
    let h = harness();
    drop(h.network_rx);
    match connect(&h.state, text("Home"), text(""), text("secret")) {
        HandlerOutcome::Fatal(kind, reply) => {
            assert_eq!(kind, ErrorKind::SendNetworkCommandConnect);
            assert_eq!(reply.status, 500);
            assert_eq!(reply.body, "Sending network command 'Connect' failed");
        }
        other => panic!("expected escalation, got {:?}", other),
    }
    let signal = h.exit_rx.try_recv().unwrap();
    assert_eq!(signal.kind, ErrorKind::SendNetworkCommandConnect);
    assert!(h.exit_rx.try_recv().is_err(), "exactly one shutdown signal");
}

#[test]
fn error_descriptions() {
    assert_eq!(
        ErrorKind::SendNetworkCommandActivate.description(),
        "Sending network command 'Activate' failed"
    );
    assert_eq!(
        ErrorKind::RecvAccessPointSSIDs.description(),
        "Receiving access point SSIDs failed"
    );
    assert_eq!(
        ErrorKind::SerializeAccessPointSSIDs.description(),
        "Serializing access point SSIDs failed"
    );
    assert_eq!(
        ErrorKind::SendNetworkCommandConnect.description(),
        "Sending network command 'Connect' failed"
    );
    assert_eq!(ErrorKind::StartHTTPServer.description(), "Starting HTTP server failed");
}
