//! The synchronous command/response bridge.
//!
//! The network controller is reached through two one-way channels: a
//! command channel into it and a response channel out of it. Because
//! each request holds the shared-state lock across its whole round
//! trip, at most one command is ever awaiting a response, so a plain
//! two-channel rendezvous gives a synchronous remote call with no
//! request identifiers. Whether a call succeeds depends on the
//! controller process at the far end, so nothing is promised of the
//! outcome here; the callers say what they do with every outcome.

use vstd::prelude::*;
use std::sync::mpsc::{Receiver, Sender};
use crate::network::{NetworkCommand, NetworkCommandResponse};

verus! {

/// The sending half of a standard channel, declared so that it can
/// stand in fields and signatures.
#[verifier::external_type_specification]
#[verifier::external_body]
#[verifier::reject_recursive_types(T)]
pub struct ExSender<T>(Sender<T>);

/// The receiving half of a standard channel, declared so that it can
/// stand in fields and signatures.
#[verifier::external_type_specification]
#[verifier::external_body]
#[verifier::reject_recursive_types(T)]
pub struct ExReceiver<T>(Receiver<T>);

/// Relies on `std::sync::mpsc::Sender::send`: queues the value for the
/// receiver and reports whether the receiving half was still alive.
/// Whether it succeeds depends on the far end, so nothing is promised
/// of the result.
#[verifier::external_body]
pub(crate) fn channel_send<T>(tx: &Sender<T>, value: T) -> bool {
    tx.send(value).is_ok()
}

/// Relies on `std::sync::mpsc::Receiver::recv`: blocks until a value
/// arrives and returns it, or returns nothing once the sending half is
/// gone and the channel is drained. What arrives is chosen by the far
/// end, so nothing is promised of the result.
#[verifier::external_body]
pub(crate) fn channel_recv<T>(rx: &Receiver<T>) -> Option<T> {
    rx.recv().ok()
}

/// How a bridge call failed.
#[derive(Debug, Clone, Copy, PartialEq, Eq, Structural)]
pub enum BridgeError {
    /// The command channel's far end is gone: the controller exited.
    SendFailed,
    /// The response channel closed before a response arrived.
    RecvFailed,
}

/// Sends one command and blocks until the one matching response
/// arrives. The caller must hold the shared-state lock, so that no
/// other command is in flight; the response then answers exactly the
/// command sent here. The outcome depends on the controller at the far
/// end of the channels, so no outcome is promised; `SendFailed` means
/// the command channel was already closed, `RecvFailed` that the
/// response channel closed first.
pub fn call(
    network_tx: &Sender<NetworkCommand>,
    server_rx: &Receiver<NetworkCommandResponse>,
    command: NetworkCommand,
) -> Result<NetworkCommandResponse, BridgeError> {
    if !channel_send(network_tx, command) {
        return Result::Err(BridgeError::SendFailed);
    }
    match channel_recv(server_rx) {
        Option::Some(response) => Result::Ok(response),
        Option::None => Result::Err(BridgeError::RecvFailed),
    }
}

} // verus!
