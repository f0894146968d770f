//! Which control frames are accepted, and what is said of the others.

use crate::mesh::control_frames::{
    ControlFrameError, DirectPathRequest, GossipFrame, InventoryEntry, MeshSubprotocolOpen,
    OwnerControlApplyConfigRequest, OwnerControlApplyConfigResponse, OwnerControlConfigSnapshot,
    OwnerControlConfigUpdate, OwnerControlEnvelope, OwnerControlError,
    OwnerControlGetConfigRequest, OwnerControlGetConfigResponse, OwnerControlHandshake,
    OwnerControlRefreshInventory, OwnerControlRefreshInventoryRequest,
    OwnerControlRefreshInventoryResponse, OwnerControlRequest, OwnerControlResponse,
    OwnerControlWatchAccepted, OwnerControlWatchConfigRequest, OwnerControlWatchConfigResponse,
    PeerAnnouncement, PeerDown, PeerLeaving, ProtocolSchema, RouteEntry, RouteTable,
    RouteTableRequest, SignedOwnership, Subprotocol, TunnelEntry, TunnelMap, ValidateControlFrame,
    first_problem, inventory_problem, present, verdict,
};
use crate::order::precedes;
use crate::scan::trimmed;
use vstd::prelude::*;

verus! {

/// A frame without a problem is accepted, and any other is refused with its
/// first problem.
pub proof fn law_first_problem_refuses(problem: Option<ControlFrameError>)
    ensures
        problem is None ==> verdict(problem) == Ok::<(), ControlFrameError>(()),
        problem matches Some(error) ==> verdict(problem) == Err::<(), ControlFrameError>(error),
{
}

/// A list has the problem of its first item that has one.
pub proof fn law_first_bad_item_decides<T: ValidateControlFrame>(
    items: Seq<T>,
    schema: &ProtocolSchema,
    at: int,
)
    requires
        0 <= at <= items.len(),
        forall|k: int| 0 <= k < at ==> (#[trigger] items[k]).problem(schema) is None,
        at < items.len() ==> items[at].problem(schema) is Some,
    ensures
        at == items.len() ==> first_problem(items, schema) is None,
        at < items.len() ==> first_problem(items, schema) == items[at].problem(schema),
    decreases items.len(),
{
    if at > 0 {
        assert(items[0].problem(schema) is None);
        let rest = items.drop_first();
        assert forall|k: int| 0 <= k < at - 1 implies (#[trigger] rest[k]).problem(
            schema,
        ) is None by {
            assert(rest[k] == items[k + 1]);
        }
        if at < items.len() {
            assert(rest[at - 1] == items[at]);
        }
        law_first_bad_item_decides(rest, schema, at - 1);
    }
}

/// One for a part that is there.
pub open spec fn held(there: bool) -> int {
    if there {
        1
    } else {
        0
    }
}

proof fn lemma_present_of_three(a: bool, b: bool, c: bool)
    ensures
        present(seq![a, b, c]) == held(a) + held(b) + held(c),
{
    assert(seq![a, b, c].drop_last() =~= seq![a, b]);
    assert(seq![a, b].drop_last() =~= seq![a]);
    assert(seq![a].drop_last() =~= Seq::<bool>::empty());
    reveal_with_fuel(present, 4);
}

proof fn lemma_present_of_four(a: bool, b: bool, c: bool, d: bool)
    ensures
        present(seq![a, b, c, d]) == held(a) + held(b) + held(c) + held(d),
{
    lemma_present_of_three(a, b, c);
    assert(seq![a, b, c, d].drop_last() =~= seq![a, b, c]);
}

/// An inventory is accepted exactly if every entry has a name and comes after
/// the one before it.
pub proof fn law_inventory_is_strictly_sorted(entries: Seq<InventoryEntry>)
    ensures
        inventory_problem(entries, None) is None <==> {
            &&& forall|i: int|
                0 <= i < entries.len() ==> trimmed(
                    (#[trigger] entries[i]).canonical_model_ref@,
                ).len() > 0
            &&& forall|i: int|
                0 < i < entries.len() ==> precedes(
                    trimmed(entries[i - 1].canonical_model_ref@),
                    trimmed((#[trigger] entries[i]).canonical_model_ref@),
                )
        },
{
    lemma_inventory_from(entries, None);
}

proof fn lemma_inventory_from(entries: Seq<InventoryEntry>, previous: Option<Seq<char>>)
    ensures
        inventory_problem(entries, previous) is None <==> {
            &&& forall|i: int|
                0 <= i < entries.len() ==> trimmed(
                    (#[trigger] entries[i]).canonical_model_ref@,
                ).len() > 0
            &&& forall|i: int|
                0 < i < entries.len() ==> precedes(
                    trimmed(entries[i - 1].canonical_model_ref@),
                    trimmed((#[trigger] entries[i]).canonical_model_ref@),
                )
            &&& entries.len() > 0 ==> (previous matches Some(value) ==> precedes(
                value,
                trimmed(entries[0].canonical_model_ref@),
            ))
        },
    decreases entries.len(),
{
    if entries.len() > 0 {
        let rest = entries.drop_first();
        let first = trimmed(entries[0].canonical_model_ref@);
        lemma_inventory_from(rest, Some(first));
        if inventory_problem(entries, previous) is None {
            assert forall|i: int| 0 <= i < entries.len() implies trimmed(
                (#[trigger] entries[i]).canonical_model_ref@,
            ).len() > 0 by {
                if i > 0 {
                    assert(rest[i - 1] == entries[i]);
                }
            }
            assert forall|i: int| 0 < i < entries.len() implies precedes(
                trimmed(entries[i - 1].canonical_model_ref@),
                trimmed((#[trigger] entries[i]).canonical_model_ref@),
            ) by {
                assert(rest[i - 1] == entries[i]);
                if i > 1 {
                    assert(rest[i - 2] == entries[i - 1]);
                }
            }
        }
        if (forall|i: int|
            0 <= i < entries.len() ==> trimmed((#[trigger] entries[i]).canonical_model_ref@).len()
                > 0) && (forall|i: int|
            0 < i < entries.len() ==> precedes(
                trimmed(entries[i - 1].canonical_model_ref@),
                trimmed((#[trigger] entries[i]).canonical_model_ref@),
            )) {
            assert(trimmed(entries[0].canonical_model_ref@).len() > 0);
            assert forall|i: int| 0 <= i < rest.len() implies trimmed(
                (#[trigger] rest[i]).canonical_model_ref@,
            ).len() > 0 by {
                assert(rest[i] == entries[i + 1]);
            }
            assert forall|i: int| 0 < i < rest.len() implies precedes(
                trimmed(rest[i - 1].canonical_model_ref@),
                trimmed((#[trigger] rest[i]).canonical_model_ref@),
            ) by {
                assert(rest[i] == entries[i + 1]);
                assert(rest[i - 1] == entries[i]);
            }
            if rest.len() > 0 {
                assert(rest[0] == entries[1]);
            }
        }
    }
}

/// A subprotocol needs a name and a version.
pub proof fn law_subprotocols_have_name_and_version(
    frame: Subprotocol,
    schema: &ProtocolSchema,
)
    ensures
        frame.problem(schema) == if trimmed(frame.name@).len() == 0 || frame.major == 0 {
            Some(ControlFrameError::InvalidSubprotocol)
        } else {
            None
        },
{
}

/// What a peer says of itself needs a full id, a port where the peer serves
/// HTTP, and subprotocols that can be accepted.
pub proof fn law_announcements_are_complete(
    frame: PeerAnnouncement,
    schema: &ProtocolSchema,
)
    ensures
        frame.problem(schema) == if frame.endpoint_id@.len() != 32 {
            Some(ControlFrameError::InvalidEndpointId { got: frame.endpoint_id.len() })
        } else if frame.role == schema.host_role && frame.http_port is None {
            Some(ControlFrameError::MissingHttpPort)
        } else {
            first_problem(frame.subprotocols@, schema)
        },
{
}

/// Gossip needs the generation, a full id of its sender, and peers that can be
/// accepted.
pub proof fn law_gossip_is_complete(
    frame: GossipFrame,
    schema: &ProtocolSchema,
)
    ensures
        frame.problem(schema) == if frame.generation != schema.generation {
            Some(ControlFrameError::BadGeneration { got: frame.generation })
        } else if frame.sender_id@.len() != 32 {
            Some(ControlFrameError::InvalidSenderId { got: frame.sender_id.len() })
        } else {
            first_problem(frame.peers@, schema)
        },
{
}

/// A tunnel needs the full id of its peer.
pub proof fn law_tunnels_name_their_peer(
    frame: TunnelEntry,
    schema: &ProtocolSchema,
)
    ensures
        frame.problem(schema) == if frame.target_peer_id@.len() != 32 {
            Some(ControlFrameError::InvalidEndpointId { got: frame.target_peer_id.len() })
        } else {
            None
        },
{
}

/// The tunnels of a peer need its full id, and tunnels that can be accepted.
pub proof fn law_tunnel_maps_name_their_owner(
    frame: TunnelMap,
    schema: &ProtocolSchema,
)
    ensures
        frame.problem(schema) == if frame.owner_peer_id@.len() != 32 {
            Some(ControlFrameError::InvalidEndpointId { got: frame.owner_peer_id.len() })
        } else {
            first_problem(frame.entries@, schema)
        },
{
}

/// A request for routes needs the generation, and a full id or none at all.
pub proof fn law_route_requests_may_be_anonymous(
    frame: RouteTableRequest,
    schema: &ProtocolSchema,
)
    ensures
        frame.problem(schema) == if frame.generation != schema.generation {
            Some(ControlFrameError::BadGeneration { got: frame.generation })
        } else if !(frame.requester_id@.len() == 0 || frame.requester_id@.len() == 32) {
            Some(ControlFrameError::InvalidEndpointId { got: frame.requester_id.len() })
        } else {
            None
        },
{
}

/// A route needs the full id of its peer.
pub proof fn law_routes_name_their_peer(
    frame: RouteEntry,
    schema: &ProtocolSchema,
)
    ensures
        frame.problem(schema) == if frame.endpoint_id@.len() != 32 {
            Some(ControlFrameError::InvalidEndpointId { got: frame.endpoint_id.len() })
        } else {
            None
        },
{
}

/// The routes of a node need the generation, and routes that can be accepted.
pub proof fn law_route_tables_hold_routes(
    frame: RouteTable,
    schema: &ProtocolSchema,
)
    ensures
        frame.problem(schema) == if frame.generation != schema.generation {
            Some(ControlFrameError::BadGeneration { got: frame.generation })
        } else {
            first_problem(frame.entries@, schema)
        },
{
}

/// Word that a peer is down needs the generation and its full id.
pub proof fn law_down_peers_are_named(
    frame: PeerDown,
    schema: &ProtocolSchema,
)
    ensures
        frame.problem(schema) == if frame.generation != schema.generation {
            Some(ControlFrameError::BadGeneration { got: frame.generation })
        } else if frame.peer_id@.len() != 32 {
            Some(ControlFrameError::InvalidEndpointId { got: frame.peer_id.len() })
        } else {
            None
        },
{
}

/// Word that a peer leaves needs the generation and its full id.
pub proof fn law_leaving_peers_are_named(
    frame: PeerLeaving,
    schema: &ProtocolSchema,
)
    ensures
        frame.problem(schema) == if frame.generation != schema.generation {
            Some(ControlFrameError::BadGeneration { got: frame.generation })
        } else if frame.peer_id@.len() != 32 {
            Some(ControlFrameError::InvalidEndpointId { got: frame.peer_id.len() })
        } else {
            None
        },
{
}

/// A request for a direct path needs the generation, a full id and an address.
pub proof fn law_direct_paths_have_an_address(
    frame: DirectPathRequest,
    schema: &ProtocolSchema,
)
    ensures
        frame.problem(schema) == if frame.generation != schema.generation {
            Some(ControlFrameError::BadGeneration { got: frame.generation })
        } else if frame.requester_id@.len() != 32 {
            Some(ControlFrameError::InvalidEndpointId { got: frame.requester_id.len() })
        } else if frame.serialized_addr@.len() == 0 {
            Some(ControlFrameError::MissingDirectPathAddress)
        } else {
            None
        },
{
}

/// What an owner signed needs the owner, a full key, the full id of the node and
/// a full signature; a missing one is told from one of the wrong length.
pub proof fn law_ownership_is_signed(
    frame: SignedOwnership,
    schema: &ProtocolSchema,
)
    ensures
        frame.problem(schema) == if trimmed(frame.owner_id@).len() == 0 {
            Some(ControlFrameError::MissingControlOwnerId)
        } else if frame.owner_sign_public_key@.len() != 32 {
            Some(
                ControlFrameError::InvalidPublicKeyLength {
                    got: frame.owner_sign_public_key.len(),
                },
            )
        } else if frame.node_endpoint_id@.len() != 32 {
            Some(ControlFrameError::InvalidEndpointId { got: frame.node_endpoint_id.len() })
        } else if frame.signature@.len() == 0 {
            Some(ControlFrameError::MissingSignature)
        } else if frame.signature@.len() != 64 {
            Some(ControlFrameError::InvalidSignatureLength { got: frame.signature.len() })
        } else {
            None
        },
{
}

/// A handshake needs an ownership that can be accepted.
pub proof fn law_handshakes_show_ownership(
    frame: OwnerControlHandshake,
    schema: &ProtocolSchema,
)
    ensures
        frame.problem(schema) == if frame.ownership is None {
            Some(ControlFrameError::MissingControlOwnership)
        } else {
            match frame.ownership {
                Some(part) => part.problem(schema),
                None => None,
            }
        },
{
}

/// A request for a configuration needs the full ids of both nodes.
pub proof fn law_config_reads_name_both_nodes(
    frame: OwnerControlGetConfigRequest,
    schema: &ProtocolSchema,
)
    ensures
        frame.problem(schema) == if frame.requester_node_id@.len() != 32 {
            Some(ControlFrameError::InvalidEndpointId { got: frame.requester_node_id.len() })
        } else if frame.target_node_id@.len() != 32 {
            Some(ControlFrameError::InvalidEndpointId { got: frame.target_node_id.len() })
        } else {
            None
        },
{
}

/// A request to be told of changes needs the full ids of both nodes.
pub proof fn law_config_watches_name_both_nodes(
    frame: OwnerControlWatchConfigRequest,
    schema: &ProtocolSchema,
)
    ensures
        frame.problem(schema) == if frame.requester_node_id@.len() != 32 {
            Some(ControlFrameError::InvalidEndpointId { got: frame.requester_node_id.len() })
        } else if frame.target_node_id@.len() != 32 {
            Some(ControlFrameError::InvalidEndpointId { got: frame.target_node_id.len() })
        } else {
            None
        },
{
}

/// A request for a change needs the full ids of both nodes and a configuration.
pub proof fn law_config_changes_hold_a_config(
    frame: OwnerControlApplyConfigRequest,
    schema: &ProtocolSchema,
)
    ensures
        frame.problem(schema) == if frame.requester_node_id@.len() != 32 {
            Some(ControlFrameError::InvalidEndpointId { got: frame.requester_node_id.len() })
        } else if frame.target_node_id@.len() != 32 {
            Some(ControlFrameError::InvalidEndpointId { got: frame.target_node_id.len() })
        } else if !frame.has_config {
            Some(ControlFrameError::MissingConfig)
        } else {
            None
        },
{
}

/// A request to look at the models needs the full ids of both nodes.
pub proof fn law_inventory_requests_name_both_nodes(
    frame: OwnerControlRefreshInventoryRequest,
    schema: &ProtocolSchema,
)
    ensures
        frame.problem(schema) == if frame.requester_node_id@.len() != 32 {
            Some(ControlFrameError::InvalidEndpointId { got: frame.requester_node_id.len() })
        } else if frame.target_node_id@.len() != 32 {
            Some(ControlFrameError::InvalidEndpointId { got: frame.target_node_id.len() })
        } else {
            None
        },
{
}

/// A configuration comes with the full id of its node and a full hash.
pub proof fn law_snapshots_are_complete(
    frame: OwnerControlConfigSnapshot,
    schema: &ProtocolSchema,
)
    ensures
        frame.problem(schema) == if frame.node_id@.len() != 32 {
            Some(ControlFrameError::InvalidEndpointId { got: frame.node_id.len() })
        } else if frame.config_hash@.len() != 32 {
            Some(ControlFrameError::InvalidConfigHashLength { got: frame.config_hash.len() })
        } else if !frame.has_config {
            Some(ControlFrameError::MissingConfig)
        } else {
            None
        },
{
}

/// A change comes with the full id of its node, a full hash and a configuration.
pub proof fn law_updates_are_complete(
    frame: OwnerControlConfigUpdate,
    schema: &ProtocolSchema,
)
    ensures
        frame.problem(schema) == if frame.node_id@.len() != 32 {
            Some(ControlFrameError::InvalidEndpointId { got: frame.node_id.len() })
        } else if frame.config_hash@.len() != 32 {
            Some(ControlFrameError::InvalidConfigHashLength { got: frame.config_hash.len() })
        } else if !frame.has_config {
            Some(ControlFrameError::MissingConfig)
        } else {
            None
        },
{
}

/// The answer with a configuration needs one that can be accepted.
pub proof fn law_config_answers_hold_a_snapshot(
    frame: OwnerControlGetConfigResponse,
    schema: &ProtocolSchema,
)
    ensures
        frame.problem(schema) == if frame.snapshot is None {
            Some(ControlFrameError::MissingConfig)
        } else {
            match frame.snapshot {
                Some(part) => part.problem(schema),
                None => None,
            }
        },
{
}

/// Word that changes will be told needs the full id of the node.
pub proof fn law_accepted_watches_name_the_node(
    frame: OwnerControlWatchAccepted,
    schema: &ProtocolSchema,
)
    ensures
        frame.problem(schema) == if frame.target_node_id@.len() != 32 {
            Some(ControlFrameError::InvalidEndpointId { got: frame.target_node_id.len() })
        } else {
            None
        },
{
}

/// The answer to a watch holds one result, which can be accepted.
pub proof fn law_watch_answers_hold_one_result(
    frame: OwnerControlWatchConfigResponse,
    schema: &ProtocolSchema,
)
    ensures
        frame.problem(schema) == if held(frame.accepted is Some) + held(frame.snapshot is Some)
            + held(frame.update is Some) != 1 {
            Some(ControlFrameError::MissingControlResult)
        } else {
            match frame.accepted {
                Some(part) => part.problem(schema),
                None => match frame.snapshot {
                    Some(part) => part.problem(schema),
                    None => match frame.update {
                        Some(part) => part.problem(schema),
                        None => None,
                    },
                },
            }
        },
{
    lemma_present_of_three(
        frame.accepted is Some,
        frame.snapshot is Some,
        frame.update is Some,
    );
}

/// The answer to a change that was made needs a full hash; one that was not made
/// may leave it out.
pub proof fn law_change_answers_hold_a_hash(
    frame: OwnerControlApplyConfigResponse,
    schema: &ProtocolSchema,
)
    ensures
        frame.problem(schema) == if frame.config_hash@.len() != 32 && (frame.success
            || frame.config_hash@.len() > 0) {
            Some(ControlFrameError::InvalidConfigHashLength { got: frame.config_hash.len() })
        } else {
            None
        },
{
}

/// The models of a node come with how they were found: by a scan or by one that
/// stood in for it.
pub proof fn law_inventories_say_how_they_came(
    frame: OwnerControlRefreshInventory,
    schema: &ProtocolSchema,
)
    ensures
        frame.problem(schema) == if frame.disposition != schema.disposition_executed
            && frame.disposition != schema.disposition_coalesced {
            Some(ControlFrameError::InvalidInventoryDisposition { got: frame.disposition })
        } else {
            inventory_problem(frame.entries@, None)
        },
{
}

/// The answer to a look at the models needs a configuration that can be
/// accepted, and models that can be where there are any.
pub proof fn law_inventory_answers_hold_a_snapshot(
    frame: OwnerControlRefreshInventoryResponse,
    schema: &ProtocolSchema,
)
    ensures
        frame.problem(schema) == if frame.snapshot is None {
            Some(ControlFrameError::MissingConfig)
        } else {
            match (frame.snapshot->0.problem(schema), frame.inventory) {
                (Some(problem), _) => Some(problem),
                (None, Some(part)) => part.problem(schema),
                (None, None) => None,
            }
        },
{
}

/// A request of an owner needs a number and one command, which can be accepted.
pub proof fn law_requests_hold_one_command(
    frame: OwnerControlRequest,
    schema: &ProtocolSchema,
)
    ensures
        frame.problem(schema) == if frame.request_id == 0 {
            Some(ControlFrameError::MissingRequestId)
        } else if held(frame.get_config is Some) + held(frame.watch_config is Some)
            + held(frame.apply_config is Some) + held(frame.refresh_inventory is Some) != 1 {
            Some(ControlFrameError::MissingControlCommand)
        } else {
            match frame.get_config {
                Some(part) => part.problem(schema),
                None => match frame.watch_config {
                    Some(part) => part.problem(schema),
                    None => match frame.apply_config {
                        Some(part) => part.problem(schema),
                        None => match frame.refresh_inventory {
                            Some(part) => part.problem(schema),
                            None => None,
                        },
                    },
                },
            }
        },
{
    lemma_present_of_four(
        frame.get_config is Some,
        frame.watch_config is Some,
        frame.apply_config is Some,
        frame.refresh_inventory is Some,
    );
}

/// An answer to an owner needs the number of the request and one result, which
/// can be accepted.
pub proof fn law_responses_hold_one_result(
    frame: OwnerControlResponse,
    schema: &ProtocolSchema,
)
    ensures
        frame.problem(schema) == if frame.request_id == 0 {
            Some(ControlFrameError::MissingRequestId)
        } else if held(frame.get_config is Some) + held(frame.watch_config is Some)
            + held(frame.apply_config is Some) + held(frame.refresh_inventory is Some) != 1 {
            Some(ControlFrameError::MissingControlResult)
        } else {
            match frame.get_config {
                Some(part) => part.problem(schema),
                None => match frame.watch_config {
                    Some(part) => part.problem(schema),
                    None => match frame.apply_config {
                        Some(part) => part.problem(schema),
                        None => match frame.refresh_inventory {
                            Some(part) => part.problem(schema),
                            None => None,
                        },
                    },
                },
            }
        },
{
    lemma_present_of_four(
        frame.get_config is Some,
        frame.watch_config is Some,
        frame.apply_config is Some,
        frame.refresh_inventory is Some,
    );
}

/// Word that a request failed needs a code that says something.
pub proof fn law_errors_have_a_known_code(
    frame: OwnerControlError,
    schema: &ProtocolSchema,
)
    ensures
        frame.problem(schema) == if forall|k: int|
            0 <= k < schema.error_codes@.len() ==> schema.error_codes@[k] != frame.code {
            Some(ControlFrameError::InvalidOwnerControlErrorCode { got: frame.code })
        } else {
            None
        },
{
}

/// An envelope needs the generation and one payload, which can be accepted.
pub proof fn law_envelopes_hold_one_payload(
    frame: OwnerControlEnvelope,
    schema: &ProtocolSchema,
)
    ensures
        frame.problem(schema) == if frame.generation != schema.generation {
            Some(ControlFrameError::BadGeneration { got: frame.generation })
        } else if held(frame.handshake is Some) + held(frame.request is Some)
            + held(frame.response is Some) + held(frame.error is Some) != 1 {
            Some(ControlFrameError::MissingControlEnvelope)
        } else {
            match frame.handshake {
                Some(part) => part.problem(schema),
                None => match frame.request {
                    Some(part) => part.problem(schema),
                    None => match frame.response {
                        Some(part) => part.problem(schema),
                        None => match frame.error {
                            Some(part) => part.problem(schema),
                            None => None,
                        },
                    },
                },
            }
        },
{
    lemma_present_of_four(
        frame.handshake is Some,
        frame.request is Some,
        frame.response is Some,
        frame.error is Some,
    );
}

/// A request to speak a subprotocol needs the generation, a name and a version.
pub proof fn law_opened_subprotocols_are_named(
    frame: MeshSubprotocolOpen,
    schema: &ProtocolSchema,
)
    ensures
        frame.problem(schema) == if frame.generation != schema.generation {
            Some(ControlFrameError::BadGeneration { got: frame.generation })
        } else if trimmed(frame.name@).len() == 0 || frame.major == 0 {
            Some(ControlFrameError::InvalidSubprotocol)
        } else {
            None
        },
{
}

} // verus!
