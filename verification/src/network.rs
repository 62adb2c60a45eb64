//! The data exchanged with the network controller.

use vstd::prelude::*;

verus! {

/// A nearby wireless network as reported by the network controller.
#[derive(Debug, Clone, PartialEq, Eq)]
pub struct Network {
    /// The network's advertised name.
    pub ssid: String,
    /// Signal strength as the controller reports it, 0 to 255.
    pub signal_strength: u8,
    /// The security scheme, e.g. "wpa2" or "none".
    pub security: String,
}

/// A command sent to the network controller.
#[derive(Debug, Clone, PartialEq, Eq)]
pub enum NetworkCommand {
    /// Ask the controller for the current list of nearby networks.
    Activate,
    /// Ask the controller to connect to a network.
    Connect { ssid: String, identity: String, passphrase: String },
}

/// A reply produced by the network controller. Only the `Activate`
/// command elicits a reply on the response channel.
#[derive(Debug, Clone, PartialEq, Eq)]
pub enum NetworkCommandResponse {
    /// The list of nearby networks, in the controller's order.
    Networks(Vec<Network>),
}

} // verus!
