//! A model of the bridge protocol under the shared-state lock.
//!
//! Concurrent requests all go through one lock, held across a
//! handler's whole round trip, so their controller interactions happen
//! in some total order with never more than one command in flight. The
//! controller itself answers each command exactly once, in the order
//! the commands arrive. This module states that discipline as a small
//! state machine and proves its point: run serially, every request
//! consumes exactly the response to its own command, never another's.

use vstd::prelude::*;
use crate::json::spec_networks_json;
use crate::network::{Network, NetworkCommand, NetworkCommandResponse};
use crate::server::{spec_networks_reply, Reply, STATUS_OK};

verus! {

/// The controller's side of the bridge: every command it has received,
/// oldest first, and how many of them have been answered (each answer
/// consumed by the request that sent the command).
pub struct BridgeState {
    /// All commands the controller has received so far.
    pub sent: Seq<NetworkCommand>,
    /// How many of them have been answered already. The controller
    /// answers strictly in order, so these are the oldest ones.
    pub answered: nat,
}

impl BridgeState {
    /// A bridge with no traffic yet.
    pub open spec fn init() -> BridgeState {
        BridgeState { sent: Seq::<NetworkCommand>::empty(), answered: 0 }
    }
}

/// No command is awaiting a response. The lock keeps this true between
/// requests: it is the invariant that lets the bridge do without
/// request identifiers.
pub open spec fn bridge_idle(b: BridgeState) -> bool {
    b.answered == b.sent.len()
}

/// One request's round trip, run atomically under the lock: its
/// command goes to the controller, and the controller's next answer
/// — which answers the oldest unanswered command — is consumed by this
/// same request. `answer` is the controller's behaviour: what it
/// replies to a given command.
pub open spec fn round_trip(
    b: BridgeState,
    command: NetworkCommand,
    answer: spec_fn(NetworkCommand) -> NetworkCommandResponse,
) -> (BridgeState, NetworkCommandResponse) {
    let sent = b.sent.push(command);
    (BridgeState { sent, answered: b.answered + 1 }, answer(sent[b.answered as int]))
}

/// A set of requests run serially, in the total order the lock gave
/// them: each round trip completes before the next begins. Yields the
/// final bridge state and the response each request consumed, in that
/// order.
pub open spec fn run_round_trips(
    b: BridgeState,
    commands: Seq<NetworkCommand>,
    answer: spec_fn(NetworkCommand) -> NetworkCommandResponse,
) -> (BridgeState, Seq<NetworkCommandResponse>)
    decreases commands.len(),
{
    if commands.len() == 0 {
        (b, Seq::<NetworkCommandResponse>::empty())
    } else {
        let (b1, first) = round_trip(b, commands[0], answer);
        let (b2, rest) = run_round_trips(b1, commands.drop_first(), answer);
        (b2, seq![first] + rest)
    }
}

/// Law: for any requests run serially under the lock, starting from an
/// idle bridge, the controller observes their commands exactly in that
/// total order, the bridge is idle again afterwards, and each request
/// consumes precisely the controller's answer to its own command,
/// never another's.
pub proof fn lemma_request_serialization(
    b: BridgeState,
    commands: Seq<NetworkCommand>,
    answer: spec_fn(NetworkCommand) -> NetworkCommandResponse,
)
    requires
        bridge_idle(b),
    ensures
        ({
            let (end, responses) = run_round_trips(b, commands, answer);
            &&& bridge_idle(end)
            &&& end.sent == b.sent + commands
            &&& responses.len() == commands.len()
            &&& forall|i: int|
                0 <= i < commands.len() ==> responses[i] == answer(commands[i])
        }),
    decreases commands.len(),
{
    let (end, responses) = run_round_trips(b, commands, answer);
    if commands.len() == 0 {
        assert(b.sent + commands =~= b.sent);
    } else {
        let (b1, first) = round_trip(b, commands[0], answer);
        assert(first == answer(commands[0]));
        lemma_request_serialization(b1, commands.drop_first(), answer);
        let (b2, rest) = run_round_trips(b1, commands.drop_first(), answer);
        assert(end.sent =~= b.sent + commands);
        assert forall|i: int|
            0 <= i < commands.len() implies responses[i] == answer(commands[i]) by {
            if i > 0 {
                assert(rest[i - 1] == answer(commands.drop_first()[i - 1]));
                assert(commands.drop_first()[i - 1] == commands[i]);
            }
        }
    }
}

/// Law: a controller that answers `Activate` with a fixed network list
/// makes a `networks` request consume exactly that response, and any
/// reply owed for it carries status 200 and the JSON of exactly that
/// list, order preserved.
pub proof fn lemma_networks_round_trip(
    b: BridgeState,
    answer: spec_fn(NetworkCommand) -> NetworkCommandResponse,
    nets: Vec<Network>,
)
    requires
        bridge_idle(b),
        answer(NetworkCommand::Activate) == NetworkCommandResponse::Networks(nets),
    ensures
        ({
            let (end, responses) = run_round_trips(b, seq![NetworkCommand::Activate], answer);
            &&& responses == seq![NetworkCommandResponse::Networks(nets)]
            &&& forall|rep: Reply|
                #[trigger] spec_networks_reply(responses[0], rep) ==> rep.status == STATUS_OK
                    && rep.body@ == spec_networks_json(nets@)
        }),
{
    lemma_request_serialization(b, seq![NetworkCommand::Activate], answer);
    let (end, responses) = run_round_trips(b, seq![NetworkCommand::Activate], answer);
    assert(responses =~= seq![NetworkCommandResponse::Networks(nets)]);
}

} // verus!
