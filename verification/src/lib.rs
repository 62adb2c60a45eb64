//! Core logic of a captive-portal HTTP gateway.
//!
//! The gateway serves a small web UI, lets a client enumerate nearby
//! wireless networks, and submits a connection request on the client's
//! behalf. The wireless work itself is done by a separate network
//! controller, reached only through a command channel and a response
//! channel. This crate holds the part worth verifying: the synchronous
//! command/response bridge over those channels, parameter validation
//! for the connect endpoint, captive-portal redirect enforcement,
//! fail-fast escalation of channel failures, and the JSON encoding of
//! network lists. The HTTP plumbing around it (routing, static assets,
//! CORS, parameter decoding) stays outside.

pub mod bridge;
pub mod errors;
pub mod ipv4;
pub mod json;
pub mod network;
pub mod params;
pub mod protocol;
pub mod server;
pub mod text;
