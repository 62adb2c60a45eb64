//! The request handlers and the cross-cutting rules around them.
//!
//! Each inbound request acquires the shared state under the HTTP
//! layer's lock, talks to the network controller through the bridge,
//! and answers the client. Any failure in the channel plumbing is
//! escalated: a shutdown signal goes to the supervisor and the client
//! gets a failure reply carrying only the classification. A failed
//! request whose declared host is not the gateway itself is redirected
//! to the gateway instead (the captive-portal rule).

use vstd::prelude::*;
use vstd::string::StringExecFns;
use std::sync::mpsc::{Receiver, Sender};
use crate::bridge::{call, channel_send, BridgeError};
use crate::errors::{ErrorKind, ShutdownSignal};
use crate::ipv4::{spec_ipv4_text, Ipv4};
use crate::json::{networks_to_json, spec_networks_json};
use crate::network::{Network, NetworkCommand, NetworkCommandResponse};
use crate::params::{spec_validate_connect, validate_connect_params, ParamInput};

verus! {

/// The HTTP status of a successful reply.
pub const STATUS_OK: u16 = 200;

/// The HTTP status of a captive-portal redirect.
pub const STATUS_FOUND: u16 = 302;

/// The HTTP status of any failure, local or fatal.
pub const STATUS_INTERNAL_SERVER_ERROR: u16 = 500;

/// What the gateway answers to one HTTP request.
#[derive(Debug, Clone, PartialEq, Eq)]
pub struct Reply {
    /// The HTTP status code.
    pub status: u16,
    /// The response body.
    pub body: String,
    /// The target of a redirect, for status 302.
    pub location: Option<String>,
}

/// How a request ended.
#[derive(Debug, Clone, PartialEq, Eq)]
pub enum HandlerOutcome {
    /// The request was served.
    Success(Reply),
    /// The request failed through the caller's own fault; no shutdown
    /// signal was sent.
    LocalFailure(Reply),
    /// The channel plumbing failed: a shutdown signal classified by the
    /// given kind was handed to the supervisor, and the client gets the
    /// failure reply.
    Fatal(ErrorKind, Reply),
}

/// The state every request handler works on: the gateway's address,
/// the channel pair towards the network controller, and the shutdown
/// channel towards the process supervisor. The HTTP layer serializes
/// access to it with a lock held for a handler's whole run.
pub struct RequestSharedState {
    /// The gateway's own address, which captive clients are sent to.
    pub gateway: Ipv4,
    /// The controller's responses arrive here.
    pub server_rx: Receiver<NetworkCommandResponse>,
    /// Commands for the controller go here.
    pub network_tx: Sender<NetworkCommand>,
    /// The shutdown signal for the supervisor goes here.
    pub exit_tx: Sender<ShutdownSignal>,
}

/// A failure reply that escalated under the given classification: the
/// 500 status and the classification text, nothing else.
pub open spec fn spec_escalation_reply(kind: ErrorKind, r: Reply) -> bool {
    &&& r.status == STATUS_INTERNAL_SERVER_ERROR
    &&& r.body@ == kind.spec_description()
    &&& r.location is None
}

/// Sends a shutdown signal classified by `kind` to the supervisor and
/// builds the failure reply for the client. The reply carries only the
/// classification, never internal error detail, and is produced even
/// if the shutdown channel is already gone.
pub fn exit_with_error(state: &RequestSharedState, kind: ErrorKind) -> (r: Reply)
    ensures
        spec_escalation_reply(kind, r),
{
    let description = kind.description();
    let signal = ShutdownSignal::new(kind, kind.description());
    // The outcome of the send is deliberately ignored: the client must
    // get its reply whether or not the supervisor could be reached.
    let _ = channel_send(&state.exit_tx, signal);
    Reply { status: STATUS_INTERNAL_SERVER_ERROR, body: description, location: None }
}

/// The reply owed for a controller response to `Activate`: status 200
/// and the JSON array of exactly the reported networks, order
/// preserved.
pub open spec fn spec_networks_reply(response: NetworkCommandResponse, r: Reply) -> bool {
    match response {
        NetworkCommandResponse::Networks(nets) => {
            &&& r.status == STATUS_OK
            &&& r.body@ == spec_networks_json(nets@)
            &&& r.location is None
        },
    }
}

/// The success reply for a network list: status 200 and the JSON array
/// of exactly the networks the controller reported, order preserved.
pub fn networks_reply(response: NetworkCommandResponse) -> (r: Reply)
    ensures
        spec_networks_reply(response, r),
{
    match response {
        NetworkCommandResponse::Networks(nets) => Reply {
            status: STATUS_OK,
            body: networks_to_json(&nets),
            location: None,
        },
    }
}

/// Every outcome the `networks` handler may have: the JSON of some
/// network list on success, otherwise escalation classified as a send
/// or a receive failure; never a local failure.
pub open spec fn spec_networks_outcome(r: HandlerOutcome) -> bool {
    match r {
        HandlerOutcome::Success(rep) => {
            &&& rep.status == STATUS_OK
            &&& rep.location is None
            &&& exists|nets: Seq<Network>| rep.body@ == #[trigger] spec_networks_json(nets)
        },
        HandlerOutcome::LocalFailure(_) => false,
        HandlerOutcome::Fatal(kind, rep) => {
            &&& (kind == ErrorKind::SendNetworkCommandActivate || kind
                == ErrorKind::RecvAccessPointSSIDs)
            &&& spec_escalation_reply(kind, rep)
        },
    }
}

/// Serves a `networks` request: one `Activate` round trip through the
/// bridge, then the list as JSON. A send failure escalates as
/// `SendNetworkCommandActivate`, a receive failure as
/// `RecvAccessPointSSIDs`; this handler takes no parameters and never
/// fails locally. The caller must hold the shared-state lock for the
/// whole call.
pub fn networks(state: &RequestSharedState) -> (r: HandlerOutcome)
    ensures
        spec_networks_outcome(r),
{
    match call(&state.network_tx, &state.server_rx, NetworkCommand::Activate) {
        Result::Ok(response) => {
            let ghost got = response;
            let reply = networks_reply(response);
            proof {
                let nets = got->Networks_0;
                assert(reply.body@ == spec_networks_json(nets@));
            }
            HandlerOutcome::Success(reply)
        },
        Result::Err(BridgeError::SendFailed) => {
            let kind = ErrorKind::SendNetworkCommandActivate;
            HandlerOutcome::Fatal(kind, exit_with_error(state, kind))
        },
        Result::Err(BridgeError::RecvFailed) => {
            let kind = ErrorKind::RecvAccessPointSSIDs;
            HandlerOutcome::Fatal(kind, exit_with_error(state, kind))
        },
    }
}

/// How a `connect` request with the given validation result may end:
/// a bad parameter is answered locally with its classification and no
/// escalation; a valid request either succeeds with an empty body or
/// escalates as a send failure.
pub open spec fn spec_connect_outcome(
    validated: Result<NetworkCommand, crate::params::ParamError>,
    r: HandlerOutcome,
) -> bool {
    match validated {
        Result::Err(e) => match r {
            HandlerOutcome::LocalFailure(rep) => {
                &&& rep.status == STATUS_INTERNAL_SERVER_ERROR
                &&& rep.body@ == e.spec_description()
                &&& rep.location is None
            },
            _ => false,
        },
        Result::Ok(_) => match r {
            HandlerOutcome::Success(rep) => {
                &&& rep.status == STATUS_OK
                &&& rep.body@ == Seq::<char>::empty()
                &&& rep.location is None
            },
            HandlerOutcome::LocalFailure(_) => false,
            HandlerOutcome::Fatal(kind, rep) => {
                &&& kind == ErrorKind::SendNetworkCommandConnect
                &&& spec_escalation_reply(kind, rep)
            },
        },
    }
}

/// Serves a `connect` request. The three parameters are checked first,
/// in the order ssid, identity, passphrase: a missing or mistyped one
/// fails the request locally, before the controller is involved and
/// with no shutdown signal. A valid request sends one `Connect`
/// command; the controller answers `Connect` out of band, so success
/// is an empty 200 reply, and a send failure escalates as
/// `SendNetworkCommandConnect`. The caller must hold the shared-state
/// lock for the whole call.
pub fn connect(
    state: &RequestSharedState,
    ssid: Option<ParamInput>,
    identity: Option<ParamInput>,
    passphrase: Option<ParamInput>,
) -> (r: HandlerOutcome)
    ensures
        spec_connect_outcome(spec_validate_connect(ssid, identity, passphrase), r),
{
    let command = match validate_connect_params(ssid, identity, passphrase) {
        Result::Ok(command) => command,
        Result::Err(e) => {
            return HandlerOutcome::LocalFailure(
                Reply {
                    status: STATUS_INTERNAL_SERVER_ERROR,
                    body: e.description(),
                    location: None,
                },
            );
        },
    };
    if channel_send(&state.network_tx, command) {
        HandlerOutcome::Success(
            Reply { status: STATUS_OK, body: String::new(), location: None },
        )
    } else {
        let kind = ErrorKind::SendNetworkCommandConnect;
        HandlerOutcome::Fatal(kind, exit_with_error(state, kind))
    }
}

/// Law: in the `networks` handler, escalation accompanies exactly the
/// channel failures. Every fatal outcome is classified as the send or
/// the receive failure of the `Activate` round trip and carries the
/// 500 reply holding just that classification; the handler never fails
/// locally.
pub proof fn lemma_networks_escalation(r: HandlerOutcome)
    requires
        spec_networks_outcome(r),
    ensures
        !(r is LocalFailure),
        r matches HandlerOutcome::Fatal(kind, rep) ==> (kind
            == ErrorKind::SendNetworkCommandActivate || kind == ErrorKind::RecvAccessPointSSIDs)
            && spec_escalation_reply(kind, rep),
{
}

/// Law: in the `connect` handler, a parameter fault is resolved
/// locally — the outcome is never fatal, so no shutdown signal arises —
/// while every fatal outcome belongs to a validated request whose
/// `Connect` command could not be sent, and carries the 500 reply
/// holding just that classification.
pub proof fn lemma_connect_escalation(
    validated: Result<NetworkCommand, crate::params::ParamError>,
    r: HandlerOutcome,
)
    requires
        spec_connect_outcome(validated, r),
    ensures
        validated is Err ==> r is LocalFailure,
        r is Fatal ==> validated is Ok,
        r matches HandlerOutcome::Fatal(kind, rep) ==> kind == ErrorKind::SendNetworkCommandConnect
            && spec_escalation_reply(kind, rep),
{
}

/// The address a captive client is redirected to: the gateway's root.
pub open spec fn spec_redirect_url(g: Ipv4) -> Seq<char> {
    "http://"@ + spec_ipv4_text(g) + "/"@
}

/// Builds the redirect target `http://<gateway>/`.
pub fn redirect_url(gateway: &Ipv4) -> (r: String)
    ensures
        r@ == spec_redirect_url(*gateway),
{
    let mut url = String::new();
    url.append("http://");
    let address = gateway.to_text();
    url.append(address.as_str());
    url.append("/");
    proof {
        assert(url@ =~= spec_redirect_url(*gateway));
    }
    url
}

/// The captive-portal rule, applied to every request that otherwise
/// failed. If the request declared a host and that host is not the
/// gateway's own address, the failure is replaced by a redirect to
/// `http://<gateway>/`; otherwise the original failure passes through
/// unchanged. The decision is a pure function of the declared host and
/// the configured gateway.
pub fn redirect_catch(host: Option<&String>, gateway: &Ipv4, failure: Reply) -> (r: Result<
    Reply,
    Reply,
>)
    ensures
        (match host {
            Option::Some(h) => h@ != spec_ipv4_text(*gateway),
            Option::None => false,
        }) ==> (r matches Result::Ok(rep) && {
            &&& rep.status == STATUS_FOUND
            &&& rep.body@ == Seq::<char>::empty()
            &&& rep.location matches Option::Some(url) && url@ == spec_redirect_url(*gateway)
        }),
        (match host {
            Option::Some(h) => h@ == spec_ipv4_text(*gateway),
            Option::None => true,
        }) ==> r == Result::<Reply, Reply>::Err(failure),
{
    match host {
        Option::Some(h) => {
            let gateway_text = gateway.to_text();
            if *h == gateway_text {
                Result::Err(failure)
            } else {
                Result::Ok(
                    Reply {
                        status: STATUS_FOUND,
                        body: String::new(),
                        location: Some(redirect_url(gateway)),
                    },
                )
            }
        },
        Option::None => Result::Err(failure),
    }
}

} // verus!
