//! Classified failures and the shutdown signal.
//!
//! A failure in the channel plumbing towards the network controller is
//! process-fatal: the controller's channel pair is a single shared,
//! non-recoverable resource, so once communication with it is suspect
//! the gateway asks the supervisor to shut the process down. Caller
//! errors (bad request parameters) never escalate.

use vstd::prelude::*;

verus! {

/// Classification of a fatal failure. The classification, and nothing
/// more, is what an HTTP client gets to see of an internal failure.
#[derive(Debug, Clone, Copy, PartialEq, Eq)]
pub enum ErrorKind {
    /// Sending the `Activate` command failed: the controller's inbound
    /// channel is gone.
    SendNetworkCommandActivate,
    /// The response channel closed before a network list arrived.
    RecvAccessPointSSIDs,
    /// A network list could not be encoded for transport.
    SerializeAccessPointSSIDs,
    /// Sending a `Connect` command failed: the controller's inbound
    /// channel is gone.
    SendNetworkCommandConnect,
    /// The HTTP listener could not start.
    StartHTTPServer,
}

impl ErrorKind {
    /// The human-readable classification shown to clients and carried
    /// by the shutdown signal.
    pub open spec fn spec_description(self) -> Seq<char> {
        match self {
            ErrorKind::SendNetworkCommandActivate => "Sending network command 'Activate' failed"@,
            ErrorKind::RecvAccessPointSSIDs => "Receiving access point SSIDs failed"@,
            ErrorKind::SerializeAccessPointSSIDs => "Serializing access point SSIDs failed"@,
            ErrorKind::SendNetworkCommandConnect => "Sending network command 'Connect' failed"@,
            ErrorKind::StartHTTPServer => "Starting HTTP server failed"@,
        }
    }

    /// Returns the classification as text.
    pub fn description(&self) -> (s: String)
        ensures
            s@ == self.spec_description(),
    {
        match self {
            ErrorKind::SendNetworkCommandActivate => {
                "Sending network command 'Activate' failed".to_owned()
            },
            ErrorKind::RecvAccessPointSSIDs => "Receiving access point SSIDs failed".to_owned(),
            ErrorKind::SerializeAccessPointSSIDs => {
                "Serializing access point SSIDs failed".to_owned()
            },
            ErrorKind::SendNetworkCommandConnect => {
                "Sending network command 'Connect' failed".to_owned()
            },
            ErrorKind::StartHTTPServer => "Starting HTTP server failed".to_owned(),
        }
    }
}

/// The classified error sent to the process supervisor to trigger
/// teardown. It is sent at most once per request, and only for channel
/// or startup failures, never for caller errors.
#[derive(Debug, Clone, PartialEq, Eq)]
pub struct ShutdownSignal {
    /// Why the process must stop.
    pub kind: ErrorKind,
    /// Free-form detail for the log, e.g. the address that could not
    /// be bound. Never shown to HTTP clients.
    pub detail: String,
}

impl ShutdownSignal {
    /// Builds the signal for a failure classified as `kind`.
    pub fn new(kind: ErrorKind, detail: String) -> (s: ShutdownSignal)
        ensures
            s.kind == kind,
            s.detail == detail,
    {
        ShutdownSignal { kind, detail }
    }
}

} // verus!
