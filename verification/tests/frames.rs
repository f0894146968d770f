use mesh_llm::mesh::control_frames::{
    validate_peer_announcement, ControlFrameError, DirectPathRequest, GossipFrame,
    InventoryEntry, MeshSubprotocolOpen, OwnerControlApplyConfigRequest,
    OwnerControlApplyConfigResponse, OwnerControlConfigSnapshot, OwnerControlConfigUpdate,
    OwnerControlEnvelope, OwnerControlError, OwnerControlGetConfigRequest,
    OwnerControlGetConfigResponse, OwnerControlHandshake, OwnerControlRefreshInventory,
    OwnerControlRefreshInventoryRequest, OwnerControlRefreshInventoryResponse,
    OwnerControlRequest, OwnerControlResponse, OwnerControlWatchAccepted,
    OwnerControlWatchConfigRequest, OwnerControlWatchConfigResponse, PeerAnnouncement, PeerDown,
    PeerLeaving, ProtocolSchema, RouteEntry, RouteTable, RouteTableRequest, SignedOwnership,
    Subprotocol, TunnelEntry, TunnelMap, ValidateControlFrame,
};

fn schema() -> ProtocolSchema {
    ProtocolSchema {
        generation: 3,
        max_control_frame_bytes: 8,
        host_role: 1,
        error_codes: vec![1, 2],
        disposition_executed: 1,
        disposition_coalesced: 2,
    }
}

fn id() -> Vec<u8> {
    vec![7; 32]
}

fn problem<T: ValidateControlFrame>(frame: &T) -> Option<ControlFrameError> {
    frame.validate_frame(&schema()).err()
}

fn peer(role: i32, http_port: Option<u32>) -> PeerAnnouncement {
    PeerAnnouncement { endpoint_id: id(), role, http_port, subprotocols: vec![] }
}

#[test]
fn gossip_needs_whole_announcements() {
    let gossip = |generation: u32, sender: Vec<u8>, peers: Vec<PeerAnnouncement>| {
        problem(&GossipFrame { generation, sender_id: sender, peers })
    };
    assert_eq!(gossip(3, id(), vec![peer(0, None), peer(1, Some(80))]), None);
    assert_eq!(
        gossip(2, vec![], vec![]),
        Some(ControlFrameError::BadGeneration { got: 2 })
    );
    assert_eq!(
        gossip(3, vec![1; 31], vec![]),
        Some(ControlFrameError::InvalidSenderId { got: 31 })
    );
    assert_eq!(
        gossip(3, id(), vec![peer(0, None), peer(1, None)]),
        Some(ControlFrameError::MissingHttpPort)
    );
    let mut announcement = peer(0, None);
    announcement.subprotocols.push(Subprotocol { name: String::new(), major: 1 });
    assert_eq!(
        validate_peer_announcement(&announcement, &schema()),
        Err(ControlFrameError::InvalidSubprotocol)
    );
    announcement.endpoint_id.pop();
    assert_eq!(
        validate_peer_announcement(&announcement, &schema()),
        Err(ControlFrameError::InvalidEndpointId { got: 31 })
    );
}

#[test]
fn routes_and_tunnels_need_ids() {
    assert_eq!(problem(&TunnelMap { owner_peer_id: id(), entries: vec![] }), None);
    assert_eq!(
        problem(&TunnelMap {
            owner_peer_id: id(),
            entries: vec![TunnelEntry { target_peer_id: vec![] }],
        }),
        Some(ControlFrameError::InvalidEndpointId { got: 0 })
    );
    assert_eq!(problem(&RouteTableRequest { generation: 3, requester_id: id() }), None);
    assert_eq!(
        problem(&RouteTable { generation: 3, entries: vec![RouteEntry { endpoint_id: vec![1] }] }),
        Some(ControlFrameError::InvalidEndpointId { got: 1 })
    );
    assert_eq!(
        problem(&RouteTable { generation: 0, entries: vec![] }),
        Some(ControlFrameError::BadGeneration { got: 0 })
    );
    assert_eq!(problem(&PeerDown { generation: 3, peer_id: id() }), None);
    assert_eq!(
        problem(&PeerLeaving { generation: 3, peer_id: vec![] }),
        Some(ControlFrameError::InvalidEndpointId { got: 0 })
    );
    assert_eq!(
        problem(&DirectPathRequest {
            generation: 3,
            requester_id: id(),
            serialized_addr: vec![],
        }),
        Some(ControlFrameError::MissingDirectPathAddress)
    );
    assert_eq!(
        problem(&MeshSubprotocolOpen { generation: 3, name: "x".to_string(), major: 0 }),
        Some(ControlFrameError::InvalidSubprotocol)
    );
    assert_eq!(
        problem(&MeshSubprotocolOpen { generation: 3, name: "x".to_string(), major: 1 }),
        None
    );
}

fn ownership() -> SignedOwnership {
    SignedOwnership {
        owner_id: "owner".to_string(),
        owner_sign_public_key: vec![1; 32],
        node_endpoint_id: id(),
        signature: vec![2; 64],
    }
}

fn handshake(change: impl Fn(&mut SignedOwnership)) -> OwnerControlHandshake {
    let mut ownership = ownership();
    change(&mut ownership);
    OwnerControlHandshake { ownership: Some(ownership) }
}

#[test]
fn handshakes_need_a_signed_owner() {
    assert_eq!(problem(&handshake(|_| ())), None);
    assert_eq!(
        problem(&OwnerControlHandshake { ownership: None }),
        Some(ControlFrameError::MissingControlOwnership)
    );
    assert_eq!(
        problem(&handshake(|owner| owner.owner_id = String::new())),
        Some(ControlFrameError::MissingControlOwnerId)
    );
    assert_eq!(
        problem(&handshake(|owner| owner.owner_sign_public_key = vec![1; 33])),
        Some(ControlFrameError::InvalidPublicKeyLength { got: 33 })
    );
    assert_eq!(
        problem(&handshake(|owner| owner.node_endpoint_id = vec![])),
        Some(ControlFrameError::InvalidEndpointId { got: 0 })
    );
    assert_eq!(
        problem(&handshake(|owner| owner.signature = vec![2; 63])),
        Some(ControlFrameError::InvalidSignatureLength { got: 63 })
    );
}

fn request() -> OwnerControlRequest {
    OwnerControlRequest {
        request_id: 1,
        get_config: Some(OwnerControlGetConfigRequest {
            requester_node_id: id(),
            target_node_id: id(),
        }),
        watch_config: None,
        apply_config: None,
        refresh_inventory: None,
    }
}

#[test]
fn requests_have_one_command() {
    assert_eq!(problem(&request()), None);
    let mut none = request();
    none.get_config = None;
    assert_eq!(problem(&none), Some(ControlFrameError::MissingControlCommand));
    let mut two = request();
    two.watch_config = Some(OwnerControlWatchConfigRequest {
        requester_node_id: id(),
        target_node_id: id(),
    });
    assert_eq!(problem(&two), Some(ControlFrameError::MissingControlCommand));
    let mut unnumbered = request();
    unnumbered.request_id = 0;
    assert_eq!(problem(&unnumbered), Some(ControlFrameError::MissingRequestId));
    let apply = OwnerControlApplyConfigRequest {
        requester_node_id: id(),
        target_node_id: id(),
        has_config: false,
    };
    assert_eq!(problem(&apply), Some(ControlFrameError::MissingConfig));
    assert_eq!(
        problem(&OwnerControlRefreshInventoryRequest {
            requester_node_id: id(),
            target_node_id: vec![],
        }),
        Some(ControlFrameError::InvalidEndpointId { got: 0 })
    );
}

fn snapshot() -> OwnerControlConfigSnapshot {
    OwnerControlConfigSnapshot { node_id: id(), config_hash: vec![3; 32], has_config: true }
}

fn inventory(disposition: i32, refs: &[&str]) -> OwnerControlRefreshInventory {
    OwnerControlRefreshInventory {
        disposition,
        entries: refs
            .iter()
            .map(|name| InventoryEntry { canonical_model_ref: name.to_string() })
            .collect(),
    }
}

#[test]
fn inventories_are_sorted() {
    assert_eq!(problem(&inventory(1, &["a", "b", "c"])), None);
    assert_eq!(problem(&inventory(2, &[])), None);
    assert_eq!(
        problem(&inventory(0, &["a"])),
        Some(ControlFrameError::InvalidInventoryDisposition { got: 0 })
    );
    assert_eq!(
        problem(&inventory(1, &["a", "a"])),
        Some(ControlFrameError::InvalidInventoryOrder)
    );
    assert_eq!(
        problem(&inventory(1, &["b", "a"])),
        Some(ControlFrameError::InvalidInventoryOrder)
    );
    assert_eq!(
        problem(&inventory(1, &[" "])),
        Some(ControlFrameError::MissingInventoryModelRef)
    );
    let response = OwnerControlRefreshInventoryResponse {
        snapshot: Some(snapshot()),
        inventory: Some(inventory(1, &["a"])),
    };
    assert_eq!(problem(&response), None);
}

#[test]
fn responses_have_one_result() {
    let response = |get: bool, apply: bool| OwnerControlResponse {
        request_id: 1,
        get_config: if get {
            Some(OwnerControlGetConfigResponse { snapshot: Some(snapshot()) })
        } else {
            None
        },
        watch_config: None,
        apply_config: if apply {
            Some(OwnerControlApplyConfigResponse { success: true, config_hash: vec![3; 32] })
        } else {
            None
        },
        refresh_inventory: None,
    };
    assert_eq!(problem(&response(true, false)), None);
    assert_eq!(problem(&response(false, true)), None);
    assert_eq!(
        problem(&response(true, true)),
        Some(ControlFrameError::MissingControlResult)
    );
    assert_eq!(
        problem(&response(false, false)),
        Some(ControlFrameError::MissingControlResult)
    );
    assert_eq!(
        problem(&OwnerControlConfigUpdate {
            node_id: id(),
            config_hash: vec![],
            has_config: true,
        }),
        Some(ControlFrameError::InvalidConfigHashLength { got: 0 })
    );
    let watch = OwnerControlWatchConfigResponse {
        accepted: Some(OwnerControlWatchAccepted { target_node_id: id() }),
        snapshot: None,
        update: None,
    };
    assert_eq!(problem(&watch), None);
}

#[test]
fn envelopes_hold_one_payload() {
    let envelope = OwnerControlEnvelope {
        generation: 3,
        handshake: None,
        request: Some(request()),
        response: None,
        error: None,
    };
    assert_eq!(problem(&envelope), None);
    let empty = OwnerControlEnvelope {
        generation: 3,
        handshake: None,
        request: None,
        response: None,
        error: None,
    };
    assert_eq!(problem(&empty), Some(ControlFrameError::MissingControlEnvelope));
    let both = OwnerControlEnvelope {
        generation: 3,
        handshake: None,
        request: Some(request()),
        response: None,
        error: Some(OwnerControlError { code: 1 }),
    };
    assert_eq!(problem(&both), Some(ControlFrameError::MissingControlEnvelope));
    assert_eq!(problem(&OwnerControlError { code: 2 }), None);
    assert_eq!(
        problem(&OwnerControlError { code: -4 }),
        Some(ControlFrameError::InvalidOwnerControlErrorCode { got: -4 })
    );
}

#[test]
fn errors_are_put_into_words() {
    let words = |error: ControlFrameError| error.message(&schema());
    assert_eq!(
        words(ControlFrameError::OversizeFrame { size: 9 }),
        "control frame too large: 9 bytes (max 8)"
    );
    assert_eq!(
        words(ControlFrameError::BadGeneration { got: 2 }),
        "bad protocol generation: expected 3, got 2"
    );
    assert_eq!(
        words(ControlFrameError::InvalidOwnerControlErrorCode { got: -4 }),
        "invalid owner control error code: -4"
    );
    assert_eq!(
        words(ControlFrameError::InvalidSignatureLength { got: 63 }),
        "invalid signature length: expected 64, got 63"
    );
    assert_eq!(words(ControlFrameError::MissingSignature), "config push missing signature");
    assert_eq!(
        words(ControlFrameError::ForgedSender),
        "frame peer_id does not match QUIC connection identity"
    );
}
