//! The control frames that nodes exchange, and when a frame is refused.

use crate::number::{decimal, decimal_text, signed_decimal, signed_decimal_text};
use crate::order::{
    law_precedes_irreflexive, law_precedes_transitive, precedes, text_precedes,
};
use crate::scan::{is_blank, trim, trimmed};
use crate::text::concat;
use vstd::prelude::*;

verus! {

/// The numbers of the protocol that frames are held against.
pub struct ProtocolSchema {
    /// The generation that every frame has to be of.
    pub generation: u32,
    pub max_control_frame_bytes: usize,
    /// The role of a peer that serves HTTP.
    pub host_role: i32,
    /// The error codes that say something.
    pub error_codes: Vec<i32>,
    /// The disposition of a scan that was made.
    pub disposition_executed: i32,
    /// The disposition of a scan that another one stood in for.
    pub disposition_coalesced: i32,
}

/// Why a frame is refused.
#[derive(Debug, Clone, Copy, PartialEq, Eq, Structural)]
pub enum ControlFrameError {
    OversizeFrame { size: usize },
    BadGeneration { got: u32 },
    InvalidEndpointId { got: usize },
    InvalidSenderId { got: usize },
    MissingDirectPathAddress,
    MissingHttpPort,
    MissingControlOwnerId,
    InvalidConfigHashLength { got: usize },
    InvalidSubprotocol,
    InvalidPublicKeyLength { got: usize },
    MissingSignature,
    InvalidSignatureLength { got: usize },
    MissingConfig,
    MissingControlEnvelope,
    MissingControlCommand,
    MissingControlResult,
    MissingControlOwnership,
    MissingRequestId,
    InvalidOwnerControlErrorCode { got: i32 },
    InvalidInventoryDisposition { got: i32 },
    MissingInventoryModelRef,
    InvalidInventoryOrder,
    ForgedSender,
}

impl ControlFrameError {
    /// The text of the error.
    pub open spec fn text(self, schema: &ProtocolSchema) -> Seq<char> {
        match self {
            ControlFrameError::OversizeFrame { size } => "control frame too large: "@ + decimal(
                size as nat,
            ) + " bytes (max "@ + decimal(schema.max_control_frame_bytes as nat) + ")"@,
            ControlFrameError::BadGeneration { got } => {
                "bad protocol generation: expected "@ + decimal(schema.generation as nat)
                    + ", got "@ + decimal(got as nat)
            },
            ControlFrameError::MissingDirectPathAddress => { "direct path request missing endpoint address"@ },
            ControlFrameError::MissingHttpPort => { "HOST-role peer annotation missing http_port"@ },
            ControlFrameError::MissingControlOwnerId => { "owner control handshake missing owner_id"@ },
            ControlFrameError::InvalidSubprotocol => { "subprotocol entries require a non-empty name and major"@ },
            ControlFrameError::MissingSignature => { "config push missing signature"@ },
            ControlFrameError::MissingConfig => { "config field is required but missing"@ },
            ControlFrameError::MissingControlEnvelope => { "owner control envelope requires exactly one payload"@ },
            ControlFrameError::MissingControlCommand => { "owner control request requires exactly one command variant"@ },
            ControlFrameError::MissingControlResult => { "owner control response requires exactly one result variant"@ },
            ControlFrameError::MissingControlOwnership => { "owner control handshake missing ownership attestation"@ },
            ControlFrameError::MissingRequestId => { "owner control request_id must be non-zero"@ },
            ControlFrameError::MissingInventoryModelRef => { "inventory entry requires a canonical model ref"@ },
            ControlFrameError::InvalidInventoryOrder => { "inventory entries must be strictly sorted by canonical model ref"@ },
            ControlFrameError::ForgedSender => { "frame peer_id does not match QUIC connection identity"@ },
            ControlFrameError::InvalidEndpointId { got } => "invalid endpoint_id length: expected 32, got "@ + decimal(got as nat),
            ControlFrameError::InvalidSenderId { got } => "invalid sender_id length: expected 32, got "@ + decimal(got as nat),
            ControlFrameError::InvalidConfigHashLength { got } => "invalid config_hash length: expected 32, got "@ + decimal(got as nat),
            ControlFrameError::InvalidPublicKeyLength { got } => "invalid public key length: expected 32, got "@ + decimal(got as nat),
            ControlFrameError::InvalidSignatureLength { got } => "invalid signature length: expected 64, got "@ + decimal(got as nat),
            ControlFrameError::InvalidOwnerControlErrorCode { got } => "invalid owner control error code: "@ + signed_decimal(got as int),
            ControlFrameError::InvalidInventoryDisposition { got } => "invalid inventory scan disposition: "@ + signed_decimal(got as int),
        }
    }

    /// The text of the error.
    pub fn message(&self, schema: &ProtocolSchema) -> (message: String)
        ensures
            message@ == self.text(schema),
    {
        match self {
            ControlFrameError::OversizeFrame { size } => {
                let size_text = decimal_text(*size as u64);
                let max_text = decimal_text(schema.max_control_frame_bytes as u64);
                concat(
                    concat(
                        concat(
                            concat("control frame too large: ".to_owned(), size_text.as_str()),
                            " bytes (max ",
                        ),
                        max_text.as_str(),
                    ),
                    ")",
                )
            },
            ControlFrameError::BadGeneration { got } => {
                let expected_text = decimal_text(schema.generation as u64);
                let got_text = decimal_text(*got as u64);
                concat(
                    concat(
                        concat(
                            "bad protocol generation: expected ".to_owned(),
                            expected_text.as_str(),
                        ),
                        ", got ",
                    ),
                    got_text.as_str(),
                )
            },
            ControlFrameError::MissingDirectPathAddress => { "direct path request missing endpoint address".to_owned() },
            ControlFrameError::MissingHttpPort => { "HOST-role peer annotation missing http_port".to_owned() },
            ControlFrameError::MissingControlOwnerId => { "owner control handshake missing owner_id".to_owned() },
            ControlFrameError::InvalidSubprotocol => { "subprotocol entries require a non-empty name and major".to_owned() },
            ControlFrameError::MissingSignature => { "config push missing signature".to_owned() },
            ControlFrameError::MissingConfig => { "config field is required but missing".to_owned() },
            ControlFrameError::MissingControlEnvelope => { "owner control envelope requires exactly one payload".to_owned() },
            ControlFrameError::MissingControlCommand => { "owner control request requires exactly one command variant".to_owned() },
            ControlFrameError::MissingControlResult => { "owner control response requires exactly one result variant".to_owned() },
            ControlFrameError::MissingControlOwnership => { "owner control handshake missing ownership attestation".to_owned() },
            ControlFrameError::MissingRequestId => { "owner control request_id must be non-zero".to_owned() },
            ControlFrameError::MissingInventoryModelRef => { "inventory entry requires a canonical model ref".to_owned() },
            ControlFrameError::InvalidInventoryOrder => { "inventory entries must be strictly sorted by canonical model ref".to_owned() },
            ControlFrameError::ForgedSender => { "frame peer_id does not match QUIC connection identity".to_owned() },
            ControlFrameError::InvalidEndpointId { got } => {
                let got_text = decimal_text(*got as u64);
                concat(
                    "invalid endpoint_id length: expected 32, got ".to_owned(),
                    got_text.as_str(),
                )
            },
            ControlFrameError::InvalidSenderId { got } => {
                let got_text = decimal_text(*got as u64);
                concat("invalid sender_id length: expected 32, got ".to_owned(), got_text.as_str())
            },
            ControlFrameError::InvalidConfigHashLength { got } => {
                let got_text = decimal_text(*got as u64);
                concat(
                    "invalid config_hash length: expected 32, got ".to_owned(),
                    got_text.as_str(),
                )
            },
            ControlFrameError::InvalidPublicKeyLength { got } => {
                let got_text = decimal_text(*got as u64);
                concat("invalid public key length: expected 32, got ".to_owned(), got_text.as_str())
            },
            ControlFrameError::InvalidSignatureLength { got } => {
                let got_text = decimal_text(*got as u64);
                concat("invalid signature length: expected 64, got ".to_owned(), got_text.as_str())
            },
            ControlFrameError::InvalidOwnerControlErrorCode { got } => {
                let got_text = signed_decimal_text(*got as i64);
                concat("invalid owner control error code: ".to_owned(), got_text.as_str())
            },
            ControlFrameError::InvalidInventoryDisposition { got } => {
                let got_text = signed_decimal_text(*got as i64);
                concat("invalid inventory scan disposition: ".to_owned(), got_text.as_str())
            },
        }
    }
}

/// The verdict on a frame of which the first problem is known.
pub open spec fn verdict(problem: Option<ControlFrameError>) -> Result<(), ControlFrameError> {
    match problem {
        Some(error) => Err(error),
        None => Ok(()),
    }
}

/// The first of two problems.
pub open spec fn either(
    first: Option<ControlFrameError>,
    second: Option<ControlFrameError>,
) -> Option<ControlFrameError> {
    if first is Some {
        first
    } else {
        second
    }
}

/// A problem where a condition does not hold.
pub open spec fn unless(holds: bool, error: ControlFrameError) -> Option<ControlFrameError> {
    if holds {
        None
    } else {
        Some(error)
    }
}

/// A frame that can be held against the protocol.
pub trait ValidateControlFrame: Sized {
    /// The first thing that is wrong with the frame.
    spec fn problem(&self, schema: &ProtocolSchema) -> Option<ControlFrameError>;

    /// Accepts the frame, or says what is wrong first.
    fn validate_frame(&self, schema: &ProtocolSchema) -> (result: Result<(), ControlFrameError>)
        ensures
            result == verdict(self.problem(schema)),
    ;
}

/// The first problem among the items of a list, in their order.
pub open spec fn first_problem<T: ValidateControlFrame>(
    items: Seq<T>,
    schema: &ProtocolSchema,
) -> Option<ControlFrameError>
    decreases items.len(),
{
    if items.len() == 0 {
        None
    } else {
        either(items[0].problem(schema), first_problem(items.drop_first(), schema))
    }
}

/// The problem of a part that may be missing.
pub open spec fn part_problem<T: ValidateControlFrame>(
    part: Option<T>,
    schema: &ProtocolSchema,
) -> Option<ControlFrameError> {
    match part {
        Some(part) => part.problem(schema),
        None => None,
    }
}

fn validate_all<T: ValidateControlFrame>(items: &Vec<T>, schema: &ProtocolSchema) -> (result: Result<
    (),
    ControlFrameError,
>)
    ensures
        result == verdict(first_problem(items@, schema)),
{
    let mut i: usize = 0;
    assert(items@.skip(0) =~= items@);
    while i < items.len()
        invariant
            i <= items@.len(),
            first_problem(items@, schema) == first_problem(items@.skip(i as int), schema),
        decreases items@.len() - i,
    {
        assert(items@.skip(i as int).drop_first() =~= items@.skip(i + 1));
        let result = items[i].validate_frame(schema);
        if result.is_err() {
            return result;
        }
        i += 1;
    }
    Ok(())
}

fn validate_part<T: ValidateControlFrame>(
    part: &Option<T>,
    schema: &ProtocolSchema,
) -> (result: Result<(), ControlFrameError>)
    ensures
        result == verdict(part_problem(*part, schema)),
{
    match part {
        Some(part) => part.validate_frame(schema),
        None => Ok(()),
    }
}

/// What is wrong with the generation of a frame.
pub open spec fn generation_problem(generation: u32, schema: &ProtocolSchema) -> Option<
    ControlFrameError,
> {
    unless(generation == schema.generation, ControlFrameError::BadGeneration { got: generation })
}

fn validate_generation(generation: u32, schema: &ProtocolSchema) -> (result: Result<
    (),
    ControlFrameError,
>)
    ensures
        result == verdict(generation_problem(generation, schema)),
{
    if generation != schema.generation {
        return Err(ControlFrameError::BadGeneration { got: generation });
    }
    Ok(())
}

/// What is wrong with an endpoint id of this length.
pub open spec fn endpoint_problem(len: nat) -> Option<ControlFrameError> {
    unless(len == 32, ControlFrameError::InvalidEndpointId { got: len as usize })
}

fn validate_endpoint_id_length(len: usize) -> (result: Result<(), ControlFrameError>)
    ensures
        result == verdict(endpoint_problem(len as nat)),
{
    if len != 32 {
        return Err(ControlFrameError::InvalidEndpointId { got: len });
    }
    Ok(())
}

/// What is wrong with a configuration hash of this length.
pub open spec fn config_hash_problem(len: nat) -> Option<ControlFrameError> {
    unless(len == 32, ControlFrameError::InvalidConfigHashLength { got: len as usize })
}

fn validate_config_hash_length(len: usize) -> (result: Result<(), ControlFrameError>)
    ensures
        result == verdict(config_hash_problem(len as nat)),
{
    if len != 32 {
        return Err(ControlFrameError::InvalidConfigHashLength { got: len });
    }
    Ok(())
}

/// What is wrong with a public key of this length.
pub open spec fn public_key_problem(len: nat) -> Option<ControlFrameError> {
    unless(len == 32, ControlFrameError::InvalidPublicKeyLength { got: len as usize })
}

fn validate_public_key_length(len: usize) -> (result: Result<(), ControlFrameError>)
    ensures
        result == verdict(public_key_problem(len as nat)),
{
    if len != 32 {
        return Err(ControlFrameError::InvalidPublicKeyLength { got: len });
    }
    Ok(())
}

/// How many of the parts of a frame are there.
pub open spec fn present(parts: Seq<bool>) -> int
    decreases parts.len(),
{
    if parts.len() == 0 {
        0
    } else {
        present(parts.drop_last()) + if parts.last() {
            1int
        } else {
            0int
        }
    }
}

fn exactly_one(parts: &[bool]) -> (one: bool)
    ensures
        one == (present(parts@) == 1),
{
    let mut count: usize = 0;
    let mut i: usize = 0;
    while i < parts.len()
        invariant
            i <= parts@.len(),
            count <= i,
            count == present(parts@.take(i as int)),
        decreases parts@.len() - i,
    {
        assert(parts@.take(i + 1).drop_last() =~= parts@.take(i as int));
        if parts[i] {
            count += 1;
        }
        i += 1;
    }
    assert(parts@.take(i as int) =~= parts@);
    count == 1
}

/// A subprotocol that a peer speaks.
#[derive(Debug, Clone, PartialEq, Eq)]
pub struct Subprotocol {
    pub name: String,
    pub major: u32,
}

impl ValidateControlFrame for Subprotocol {
    open spec fn problem(&self, schema: &ProtocolSchema) -> Option<ControlFrameError> {
        unless(
            trimmed(self.name@).len() > 0 && self.major != 0,
            ControlFrameError::InvalidSubprotocol,
        )
    }

    fn validate_frame(&self, schema: &ProtocolSchema) -> (result: Result<(), ControlFrameError>) {
        if is_blank(self.name.as_str()) || self.major == 0 {
            return Err(ControlFrameError::InvalidSubprotocol);
        }
        Ok(())
    }
}

/// What a peer says of itself.
#[derive(Debug, Clone, PartialEq, Eq)]
pub struct PeerAnnouncement {
    pub endpoint_id: Vec<u8>,
    pub role: i32,
    pub http_port: Option<u32>,
    pub subprotocols: Vec<Subprotocol>,
}

impl ValidateControlFrame for PeerAnnouncement {
    open spec fn problem(&self, schema: &ProtocolSchema) -> Option<ControlFrameError> {
        either(
            endpoint_problem(self.endpoint_id@.len()),
            either(
                unless(
                    !(self.role == schema.host_role && self.http_port is None),
                    ControlFrameError::MissingHttpPort,
                ),
                first_problem(self.subprotocols@, schema),
            ),
        )
    }

    fn validate_frame(&self, schema: &ProtocolSchema) -> (result: Result<(), ControlFrameError>) {
        let result = validate_endpoint_id_length(self.endpoint_id.len());
        if result.is_err() {
            return result;
        }
        if self.role == schema.host_role && self.http_port.is_none() {
            return Err(ControlFrameError::MissingHttpPort);
        }
        let result = validate_all(&self.subprotocols, schema);
        if result.is_err() {
            return result;
        }
        Ok(())
    }
}

/// What a node knows of its peers.
#[derive(Debug, Clone, PartialEq, Eq)]
pub struct GossipFrame {
    pub generation: u32,
    pub sender_id: Vec<u8>,
    pub peers: Vec<PeerAnnouncement>,
}

impl ValidateControlFrame for GossipFrame {
    open spec fn problem(&self, schema: &ProtocolSchema) -> Option<ControlFrameError> {
        either(
            generation_problem(self.generation, schema),
            either(
                unless(
                    self.sender_id@.len() == 32,
                    ControlFrameError::InvalidSenderId { got: self.sender_id.len() },
                ),
                first_problem(self.peers@, schema),
            ),
        )
    }

    fn validate_frame(&self, schema: &ProtocolSchema) -> (result: Result<(), ControlFrameError>) {
        let result = validate_generation(self.generation, schema);
        if result.is_err() {
            return result;
        }
        if self.sender_id.len() != 32 {
            return Err(ControlFrameError::InvalidSenderId { got: self.sender_id.len() });
        }
        let result = validate_all(&self.peers, schema);
        if result.is_err() {
            return result;
        }
        Ok(())
    }
}

/// A tunnel to a peer.
#[derive(Debug, Clone, PartialEq, Eq)]
pub struct TunnelEntry {
    pub target_peer_id: Vec<u8>,
}

impl ValidateControlFrame for TunnelEntry {
    open spec fn problem(&self, schema: &ProtocolSchema) -> Option<ControlFrameError> {
        endpoint_problem(self.target_peer_id@.len())
    }

    fn validate_frame(&self, schema: &ProtocolSchema) -> (result: Result<(), ControlFrameError>) {
        let result = validate_endpoint_id_length(self.target_peer_id.len());
        if result.is_err() {
            return result;
        }
        Ok(())
    }
}

/// The tunnels of a peer.
#[derive(Debug, Clone, PartialEq, Eq)]
pub struct TunnelMap {
    pub owner_peer_id: Vec<u8>,
    pub entries: Vec<TunnelEntry>,
}

impl ValidateControlFrame for TunnelMap {
    open spec fn problem(&self, schema: &ProtocolSchema) -> Option<ControlFrameError> {
        either(
            endpoint_problem(self.owner_peer_id@.len()),
            first_problem(self.entries@, schema),
        )
    }

    fn validate_frame(&self, schema: &ProtocolSchema) -> (result: Result<(), ControlFrameError>) {
        let result = validate_endpoint_id_length(self.owner_peer_id.len());
        if result.is_err() {
            return result;
        }
        let result = validate_all(&self.entries, schema);
        if result.is_err() {
            return result;
        }
        Ok(())
    }
}

/// A request for the routes that a node knows.
#[derive(Debug, Clone, PartialEq, Eq)]
pub struct RouteTableRequest {
    pub generation: u32,
    pub requester_id: Vec<u8>,
}

impl ValidateControlFrame for RouteTableRequest {
    open spec fn problem(&self, schema: &ProtocolSchema) -> Option<ControlFrameError> {
        either(
            generation_problem(self.generation, schema),
            unless(
                self.requester_id@.len() == 0 || self.requester_id@.len() == 32,
                ControlFrameError::InvalidEndpointId { got: self.requester_id.len() },
            ),
        )
    }

    fn validate_frame(&self, schema: &ProtocolSchema) -> (result: Result<(), ControlFrameError>) {
        let result = validate_generation(self.generation, schema);
        if result.is_err() {
            return result;
        }
        if self.requester_id.len() != 0 && self.requester_id.len() != 32 {
            return Err(ControlFrameError::InvalidEndpointId { got: self.requester_id.len() });
        }
        Ok(())
    }
}

/// A route to a peer.
#[derive(Debug, Clone, PartialEq, Eq)]
pub struct RouteEntry {
    pub endpoint_id: Vec<u8>,
}

impl ValidateControlFrame for RouteEntry {
    open spec fn problem(&self, schema: &ProtocolSchema) -> Option<ControlFrameError> {
        endpoint_problem(self.endpoint_id@.len())
    }

    fn validate_frame(&self, schema: &ProtocolSchema) -> (result: Result<(), ControlFrameError>) {
        let result = validate_endpoint_id_length(self.endpoint_id.len());
        if result.is_err() {
            return result;
        }
        Ok(())
    }
}

/// The routes that a node knows.
#[derive(Debug, Clone, PartialEq, Eq)]
pub struct RouteTable {
    pub generation: u32,
    pub entries: Vec<RouteEntry>,
}

impl ValidateControlFrame for RouteTable {
    open spec fn problem(&self, schema: &ProtocolSchema) -> Option<ControlFrameError> {
        either(
            generation_problem(self.generation, schema),
            first_problem(self.entries@, schema),
        )
    }

    fn validate_frame(&self, schema: &ProtocolSchema) -> (result: Result<(), ControlFrameError>) {
        let result = validate_generation(self.generation, schema);
        if result.is_err() {
            return result;
        }
        let result = validate_all(&self.entries, schema);
        if result.is_err() {
            return result;
        }
        Ok(())
    }
}

/// Word that a peer is down.
#[derive(Debug, Clone, PartialEq, Eq)]
pub struct PeerDown {
    pub generation: u32,
    pub peer_id: Vec<u8>,
}

impl ValidateControlFrame for PeerDown {
    open spec fn problem(&self, schema: &ProtocolSchema) -> Option<ControlFrameError> {
        either(
            generation_problem(self.generation, schema),
            endpoint_problem(self.peer_id@.len()),
        )
    }

    fn validate_frame(&self, schema: &ProtocolSchema) -> (result: Result<(), ControlFrameError>) {
        let result = validate_generation(self.generation, schema);
        if result.is_err() {
            return result;
        }
        let result = validate_endpoint_id_length(self.peer_id.len());
        if result.is_err() {
            return result;
        }
        Ok(())
    }
}

/// Word that a peer leaves.
#[derive(Debug, Clone, PartialEq, Eq)]
pub struct PeerLeaving {
    pub generation: u32,
    pub peer_id: Vec<u8>,
}

impl ValidateControlFrame for PeerLeaving {
    open spec fn problem(&self, schema: &ProtocolSchema) -> Option<ControlFrameError> {
        either(
            generation_problem(self.generation, schema),
            endpoint_problem(self.peer_id@.len()),
        )
    }

    fn validate_frame(&self, schema: &ProtocolSchema) -> (result: Result<(), ControlFrameError>) {
        let result = validate_generation(self.generation, schema);
        if result.is_err() {
            return result;
        }
        let result = validate_endpoint_id_length(self.peer_id.len());
        if result.is_err() {
            return result;
        }
        Ok(())
    }
}

/// A request to open a direct path.
#[derive(Debug, Clone, PartialEq, Eq)]
pub struct DirectPathRequest {
    pub generation: u32,
    pub requester_id: Vec<u8>,
    pub serialized_addr: Vec<u8>,
}

impl ValidateControlFrame for DirectPathRequest {
    open spec fn problem(&self, schema: &ProtocolSchema) -> Option<ControlFrameError> {
        either(
            generation_problem(self.generation, schema),
            either(
                endpoint_problem(self.requester_id@.len()),
                unless(
                    self.serialized_addr@.len() > 0,
                    ControlFrameError::MissingDirectPathAddress,
                ),
            ),
        )
    }

    fn validate_frame(&self, schema: &ProtocolSchema) -> (result: Result<(), ControlFrameError>) {
        let result = validate_generation(self.generation, schema);
        if result.is_err() {
            return result;
        }
        let result = validate_endpoint_id_length(self.requester_id.len());
        if result.is_err() {
            return result;
        }
        if self.serialized_addr.len() == 0 {
            return Err(ControlFrameError::MissingDirectPathAddress);
        }
        Ok(())
    }
}

/// What an owner signed of a node.
#[derive(Debug, Clone, PartialEq, Eq)]
pub struct SignedOwnership {
    pub owner_id: String,
    pub owner_sign_public_key: Vec<u8>,
    pub node_endpoint_id: Vec<u8>,
    pub signature: Vec<u8>,
}

impl ValidateControlFrame for SignedOwnership {
    open spec fn problem(&self, schema: &ProtocolSchema) -> Option<ControlFrameError> {
        either(
            unless(trimmed(self.owner_id@).len() > 0, ControlFrameError::MissingControlOwnerId),
            either(
                public_key_problem(self.owner_sign_public_key@.len()),
                either(
                    endpoint_problem(self.node_endpoint_id@.len()),
                    either(
                        unless(self.signature@.len() > 0, ControlFrameError::MissingSignature),
                        unless(
                            self.signature@.len() == 64,
                            ControlFrameError::InvalidSignatureLength { got: self.signature.len() },
                        ),
                    ),
                ),
            ),
        )
    }

    fn validate_frame(&self, schema: &ProtocolSchema) -> (result: Result<(), ControlFrameError>) {
        if is_blank(self.owner_id.as_str()) {
            return Err(ControlFrameError::MissingControlOwnerId);
        }
        let result = validate_public_key_length(self.owner_sign_public_key.len());
        if result.is_err() {
            return result;
        }
        let result = validate_endpoint_id_length(self.node_endpoint_id.len());
        if result.is_err() {
            return result;
        }
        if self.signature.len() == 0 {
            return Err(ControlFrameError::MissingSignature);
        }
        if self.signature.len() != 64 {
            return Err(ControlFrameError::InvalidSignatureLength { got: self.signature.len() });
        }
        Ok(())
    }
}

/// The start of owner control.
#[derive(Debug, Clone, PartialEq, Eq)]
pub struct OwnerControlHandshake {
    pub ownership: Option<SignedOwnership>,
}

impl ValidateControlFrame for OwnerControlHandshake {
    open spec fn problem(&self, schema: &ProtocolSchema) -> Option<ControlFrameError> {
        either(
            unless(self.ownership is Some, ControlFrameError::MissingControlOwnership),
            part_problem(self.ownership, schema),
        )
    }

    fn validate_frame(&self, schema: &ProtocolSchema) -> (result: Result<(), ControlFrameError>) {
        if self.ownership.is_none() {
            return Err(ControlFrameError::MissingControlOwnership);
        }
        let result = validate_part(&self.ownership, schema);
        if result.is_err() {
            return result;
        }
        Ok(())
    }
}

/// A request for a node's configuration.
#[derive(Debug, Clone, PartialEq, Eq)]
pub struct OwnerControlGetConfigRequest {
    pub requester_node_id: Vec<u8>,
    pub target_node_id: Vec<u8>,
}

impl ValidateControlFrame for OwnerControlGetConfigRequest {
    open spec fn problem(&self, schema: &ProtocolSchema) -> Option<ControlFrameError> {
        either(
            endpoint_problem(self.requester_node_id@.len()),
            endpoint_problem(self.target_node_id@.len()),
        )
    }

    fn validate_frame(&self, schema: &ProtocolSchema) -> (result: Result<(), ControlFrameError>) {
        let result = validate_endpoint_id_length(self.requester_node_id.len());
        if result.is_err() {
            return result;
        }
        let result = validate_endpoint_id_length(self.target_node_id.len());
        if result.is_err() {
            return result;
        }
        Ok(())
    }
}

/// A request to be told of a node's configuration.
#[derive(Debug, Clone, PartialEq, Eq)]
pub struct OwnerControlWatchConfigRequest {
    pub requester_node_id: Vec<u8>,
    pub target_node_id: Vec<u8>,
}

impl ValidateControlFrame for OwnerControlWatchConfigRequest {
    open spec fn problem(&self, schema: &ProtocolSchema) -> Option<ControlFrameError> {
        either(
            endpoint_problem(self.requester_node_id@.len()),
            endpoint_problem(self.target_node_id@.len()),
        )
    }

    fn validate_frame(&self, schema: &ProtocolSchema) -> (result: Result<(), ControlFrameError>) {
        let result = validate_endpoint_id_length(self.requester_node_id.len());
        if result.is_err() {
            return result;
        }
        let result = validate_endpoint_id_length(self.target_node_id.len());
        if result.is_err() {
            return result;
        }
        Ok(())
    }
}

/// A request to change a node's configuration.
#[derive(Debug, Clone, PartialEq, Eq)]
pub struct OwnerControlApplyConfigRequest {
    pub requester_node_id: Vec<u8>,
    pub target_node_id: Vec<u8>,
    pub has_config: bool,
}

impl ValidateControlFrame for OwnerControlApplyConfigRequest {
    open spec fn problem(&self, schema: &ProtocolSchema) -> Option<ControlFrameError> {
        either(
            endpoint_problem(self.requester_node_id@.len()),
            either(
                endpoint_problem(self.target_node_id@.len()),
                unless(self.has_config, ControlFrameError::MissingConfig),
            ),
        )
    }

    fn validate_frame(&self, schema: &ProtocolSchema) -> (result: Result<(), ControlFrameError>) {
        let result = validate_endpoint_id_length(self.requester_node_id.len());
        if result.is_err() {
            return result;
        }
        let result = validate_endpoint_id_length(self.target_node_id.len());
        if result.is_err() {
            return result;
        }
        if !self.has_config {
            return Err(ControlFrameError::MissingConfig);
        }
        Ok(())
    }
}

/// A request to look again at a node's models.
#[derive(Debug, Clone, PartialEq, Eq)]
pub struct OwnerControlRefreshInventoryRequest {
    pub requester_node_id: Vec<u8>,
    pub target_node_id: Vec<u8>,
}

impl ValidateControlFrame for OwnerControlRefreshInventoryRequest {
    open spec fn problem(&self, schema: &ProtocolSchema) -> Option<ControlFrameError> {
        either(
            endpoint_problem(self.requester_node_id@.len()),
            endpoint_problem(self.target_node_id@.len()),
        )
    }

    fn validate_frame(&self, schema: &ProtocolSchema) -> (result: Result<(), ControlFrameError>) {
        let result = validate_endpoint_id_length(self.requester_node_id.len());
        if result.is_err() {
            return result;
        }
        let result = validate_endpoint_id_length(self.target_node_id.len());
        if result.is_err() {
            return result;
        }
        Ok(())
    }
}

/// A node's configuration.
#[derive(Debug, Clone, PartialEq, Eq)]
pub struct OwnerControlConfigSnapshot {
    pub node_id: Vec<u8>,
    pub config_hash: Vec<u8>,
    pub has_config: bool,
}

impl ValidateControlFrame for OwnerControlConfigSnapshot {
    open spec fn problem(&self, schema: &ProtocolSchema) -> Option<ControlFrameError> {
        either(
            endpoint_problem(self.node_id@.len()),
            either(
                config_hash_problem(self.config_hash@.len()),
                unless(self.has_config, ControlFrameError::MissingConfig),
            ),
        )
    }

    fn validate_frame(&self, schema: &ProtocolSchema) -> (result: Result<(), ControlFrameError>) {
        let result = validate_endpoint_id_length(self.node_id.len());
        if result.is_err() {
            return result;
        }
        let result = validate_config_hash_length(self.config_hash.len());
        if result.is_err() {
            return result;
        }
        if !self.has_config {
            return Err(ControlFrameError::MissingConfig);
        }
        Ok(())
    }
}

/// A change of a node's configuration.
#[derive(Debug, Clone, PartialEq, Eq)]
pub struct OwnerControlConfigUpdate {
    pub node_id: Vec<u8>,
    pub config_hash: Vec<u8>,
    pub has_config: bool,
}

impl ValidateControlFrame for OwnerControlConfigUpdate {
    open spec fn problem(&self, schema: &ProtocolSchema) -> Option<ControlFrameError> {
        either(
            endpoint_problem(self.node_id@.len()),
            either(
                config_hash_problem(self.config_hash@.len()),
                unless(self.has_config, ControlFrameError::MissingConfig),
            ),
        )
    }

    fn validate_frame(&self, schema: &ProtocolSchema) -> (result: Result<(), ControlFrameError>) {
        let result = validate_endpoint_id_length(self.node_id.len());
        if result.is_err() {
            return result;
        }
        let result = validate_config_hash_length(self.config_hash.len());
        if result.is_err() {
            return result;
        }
        if !self.has_config {
            return Err(ControlFrameError::MissingConfig);
        }
        Ok(())
    }
}

/// The answer with a configuration.
#[derive(Debug, Clone, PartialEq, Eq)]
pub struct OwnerControlGetConfigResponse {
    pub snapshot: Option<OwnerControlConfigSnapshot>,
}

impl ValidateControlFrame for OwnerControlGetConfigResponse {
    open spec fn problem(&self, schema: &ProtocolSchema) -> Option<ControlFrameError> {
        either(
            unless(self.snapshot is Some, ControlFrameError::MissingConfig),
            part_problem(self.snapshot, schema),
        )
    }

    fn validate_frame(&self, schema: &ProtocolSchema) -> (result: Result<(), ControlFrameError>) {
        if self.snapshot.is_none() {
            return Err(ControlFrameError::MissingConfig);
        }
        let result = validate_part(&self.snapshot, schema);
        if result.is_err() {
            return result;
        }
        Ok(())
    }
}

/// Word that changes will be told.
#[derive(Debug, Clone, PartialEq, Eq)]
pub struct OwnerControlWatchAccepted {
    pub target_node_id: Vec<u8>,
}

impl ValidateControlFrame for OwnerControlWatchAccepted {
    open spec fn problem(&self, schema: &ProtocolSchema) -> Option<ControlFrameError> {
        endpoint_problem(self.target_node_id@.len())
    }

    fn validate_frame(&self, schema: &ProtocolSchema) -> (result: Result<(), ControlFrameError>) {
        let result = validate_endpoint_id_length(self.target_node_id.len());
        if result.is_err() {
            return result;
        }
        Ok(())
    }
}

/// One of the answers to a watch.
#[derive(Debug, Clone, PartialEq, Eq)]
pub struct OwnerControlWatchConfigResponse {
    pub accepted: Option<OwnerControlWatchAccepted>,
    pub snapshot: Option<OwnerControlConfigSnapshot>,
    pub update: Option<OwnerControlConfigUpdate>,
}

impl ValidateControlFrame for OwnerControlWatchConfigResponse {
    open spec fn problem(&self, schema: &ProtocolSchema) -> Option<ControlFrameError> {
        either(
            unless(
                present(
                    seq![self.accepted is Some, self.snapshot is Some, self.update is Some],
                ) == 1,
                ControlFrameError::MissingControlResult,
            ),
            either(
                part_problem(self.accepted, schema),
                either(
                    part_problem(self.snapshot, schema),
                    part_problem(self.update, schema),
                ),
            ),
        )
    }

    fn validate_frame(&self, schema: &ProtocolSchema) -> (result: Result<(), ControlFrameError>) {
        let parts = [self.accepted.is_some(), self.snapshot.is_some(), self.update.is_some()];
        assert(parts@ =~= seq![self.accepted is Some, self.snapshot is Some, self.update is Some]);
        if !exactly_one(&parts) {
            return Err(ControlFrameError::MissingControlResult);
        }
        let result = validate_part(&self.accepted, schema);
        if result.is_err() {
            return result;
        }
        let result = validate_part(&self.snapshot, schema);
        if result.is_err() {
            return result;
        }
        let result = validate_part(&self.update, schema);
        if result.is_err() {
            return result;
        }
        Ok(())
    }
}

/// The answer to a change.
#[derive(Debug, Clone, PartialEq, Eq)]
pub struct OwnerControlApplyConfigResponse {
    pub success: bool,
    pub config_hash: Vec<u8>,
}

impl ValidateControlFrame for OwnerControlApplyConfigResponse {
    open spec fn problem(&self, schema: &ProtocolSchema) -> Option<ControlFrameError> {
        if self.success || self.config_hash@.len() > 0 {
            config_hash_problem(self.config_hash@.len())
        } else {
            None
        }
    }

    fn validate_frame(&self, schema: &ProtocolSchema) -> (result: Result<(), ControlFrameError>) {
        if self.success || self.config_hash.len() != 0 {
            let result = validate_config_hash_length(self.config_hash.len());
            if result.is_err() {
                return result;
            }
        }
        Ok(())
    }
}

/// A model that a node holds.
#[derive(Debug, Clone, PartialEq, Eq)]
pub struct InventoryEntry {
    pub canonical_model_ref: String,
}

/// The models that a node holds.
#[derive(Debug, Clone, PartialEq, Eq)]
pub struct OwnerControlRefreshInventory {
    pub disposition: i32,
    pub entries: Vec<InventoryEntry>,
}

impl ValidateControlFrame for OwnerControlRefreshInventory {
    open spec fn problem(&self, schema: &ProtocolSchema) -> Option<ControlFrameError> {
        either(
            unless(
                self.disposition == schema.disposition_executed || self.disposition == schema.disposition_coalesced,
                ControlFrameError::InvalidInventoryDisposition { got: self.disposition },
            ),
            inventory_problem(self.entries@, None),
        )
    }

    fn validate_frame(&self, schema: &ProtocolSchema) -> (result: Result<(), ControlFrameError>) {
        if self.disposition != schema.disposition_executed && self.disposition != schema.disposition_coalesced {
            return Err(ControlFrameError::InvalidInventoryDisposition { got: self.disposition });
        }
        let result = validate_inventory(&self.entries);
        if result.is_err() {
            return result;
        }
        Ok(())
    }
}

/// The answer to a look at the models.
#[derive(Debug, Clone, PartialEq, Eq)]
pub struct OwnerControlRefreshInventoryResponse {
    pub snapshot: Option<OwnerControlConfigSnapshot>,
    pub inventory: Option<OwnerControlRefreshInventory>,
}

impl ValidateControlFrame for OwnerControlRefreshInventoryResponse {
    open spec fn problem(&self, schema: &ProtocolSchema) -> Option<ControlFrameError> {
        either(
            unless(self.snapshot is Some, ControlFrameError::MissingConfig),
            either(
                part_problem(self.snapshot, schema),
                part_problem(self.inventory, schema),
            ),
        )
    }

    fn validate_frame(&self, schema: &ProtocolSchema) -> (result: Result<(), ControlFrameError>) {
        if self.snapshot.is_none() {
            return Err(ControlFrameError::MissingConfig);
        }
        let result = validate_part(&self.snapshot, schema);
        if result.is_err() {
            return result;
        }
        let result = validate_part(&self.inventory, schema);
        if result.is_err() {
            return result;
        }
        Ok(())
    }
}

/// A request of an owner.
#[derive(Debug, Clone, PartialEq, Eq)]
pub struct OwnerControlRequest {
    pub request_id: u64,
    pub get_config: Option<OwnerControlGetConfigRequest>,
    pub watch_config: Option<OwnerControlWatchConfigRequest>,
    pub apply_config: Option<OwnerControlApplyConfigRequest>,
    pub refresh_inventory: Option<OwnerControlRefreshInventoryRequest>,
}

impl ValidateControlFrame for OwnerControlRequest {
    open spec fn problem(&self, schema: &ProtocolSchema) -> Option<ControlFrameError> {
        either(
            unless(self.request_id != 0, ControlFrameError::MissingRequestId),
            either(
                unless(
                    present(
                        seq![
                            self.get_config is Some,
                            self.watch_config is Some,
                            self.apply_config is Some,
                            self.refresh_inventory is Some,
                        ],
                    ) == 1,
                    ControlFrameError::MissingControlCommand,
                ),
                either(
                    part_problem(self.get_config, schema),
                    either(
                        part_problem(self.watch_config, schema),
                        either(
                            part_problem(self.apply_config, schema),
                            part_problem(self.refresh_inventory, schema),
                        ),
                    ),
                ),
            ),
        )
    }

    fn validate_frame(&self, schema: &ProtocolSchema) -> (result: Result<(), ControlFrameError>) {
        if self.request_id == 0 {
            return Err(ControlFrameError::MissingRequestId);
        }
        let parts = [
            self.get_config.is_some(),
            self.watch_config.is_some(),
            self.apply_config.is_some(),
            self.refresh_inventory.is_some(),
        ];
        assert(parts@ =~= seq![
            self.get_config is Some,
            self.watch_config is Some,
            self.apply_config is Some,
            self.refresh_inventory is Some,
        ]);
        if !exactly_one(&parts) {
            return Err(ControlFrameError::MissingControlCommand);
        }
        let result = validate_part(&self.get_config, schema);
        if result.is_err() {
            return result;
        }
        let result = validate_part(&self.watch_config, schema);
        if result.is_err() {
            return result;
        }
        let result = validate_part(&self.apply_config, schema);
        if result.is_err() {
            return result;
        }
        let result = validate_part(&self.refresh_inventory, schema);
        if result.is_err() {
            return result;
        }
        Ok(())
    }
}

/// The answer to an owner.
#[derive(Debug, Clone, PartialEq, Eq)]
pub struct OwnerControlResponse {
    pub request_id: u64,
    pub get_config: Option<OwnerControlGetConfigResponse>,
    pub watch_config: Option<OwnerControlWatchConfigResponse>,
    pub apply_config: Option<OwnerControlApplyConfigResponse>,
    pub refresh_inventory: Option<OwnerControlRefreshInventoryResponse>,
}

impl ValidateControlFrame for OwnerControlResponse {
    open spec fn problem(&self, schema: &ProtocolSchema) -> Option<ControlFrameError> {
        either(
            unless(self.request_id != 0, ControlFrameError::MissingRequestId),
            either(
                unless(
                    present(
                        seq![
                            self.get_config is Some,
                            self.watch_config is Some,
                            self.apply_config is Some,
                            self.refresh_inventory is Some,
                        ],
                    ) == 1,
                    ControlFrameError::MissingControlResult,
                ),
                either(
                    part_problem(self.get_config, schema),
                    either(
                        part_problem(self.watch_config, schema),
                        either(
                            part_problem(self.apply_config, schema),
                            part_problem(self.refresh_inventory, schema),
                        ),
                    ),
                ),
            ),
        )
    }

    fn validate_frame(&self, schema: &ProtocolSchema) -> (result: Result<(), ControlFrameError>) {
        if self.request_id == 0 {
            return Err(ControlFrameError::MissingRequestId);
        }
        let parts = [
            self.get_config.is_some(),
            self.watch_config.is_some(),
            self.apply_config.is_some(),
            self.refresh_inventory.is_some(),
        ];
        assert(parts@ =~= seq![
            self.get_config is Some,
            self.watch_config is Some,
            self.apply_config is Some,
            self.refresh_inventory is Some,
        ]);
        if !exactly_one(&parts) {
            return Err(ControlFrameError::MissingControlResult);
        }
        let result = validate_part(&self.get_config, schema);
        if result.is_err() {
            return result;
        }
        let result = validate_part(&self.watch_config, schema);
        if result.is_err() {
            return result;
        }
        let result = validate_part(&self.apply_config, schema);
        if result.is_err() {
            return result;
        }
        let result = validate_part(&self.refresh_inventory, schema);
        if result.is_err() {
            return result;
        }
        Ok(())
    }
}

/// Word that a request failed.
#[derive(Debug, Clone, PartialEq, Eq)]
pub struct OwnerControlError {
    pub code: i32,
}

impl ValidateControlFrame for OwnerControlError {
    open spec fn problem(&self, schema: &ProtocolSchema) -> Option<ControlFrameError> {
        unless(
            schema.error_codes@.contains(self.code),
            ControlFrameError::InvalidOwnerControlErrorCode { got: self.code },
        )
    }

    fn validate_frame(&self, schema: &ProtocolSchema) -> (result: Result<(), ControlFrameError>) {
        if !knows_code(&schema.error_codes, self.code) {
            return Err(ControlFrameError::InvalidOwnerControlErrorCode { got: self.code });
        }
        Ok(())
    }
}

/// Everything that is said in owner control.
#[derive(Debug, Clone, PartialEq, Eq)]
pub struct OwnerControlEnvelope {
    pub generation: u32,
    pub handshake: Option<OwnerControlHandshake>,
    pub request: Option<OwnerControlRequest>,
    pub response: Option<OwnerControlResponse>,
    pub error: Option<OwnerControlError>,
}

impl ValidateControlFrame for OwnerControlEnvelope {
    open spec fn problem(&self, schema: &ProtocolSchema) -> Option<ControlFrameError> {
        either(
            generation_problem(self.generation, schema),
            either(
                unless(
                    present(
                        seq![
                            self.handshake is Some,
                            self.request is Some,
                            self.response is Some,
                            self.error is Some,
                        ],
                    ) == 1,
                    ControlFrameError::MissingControlEnvelope,
                ),
                either(
                    part_problem(self.handshake, schema),
                    either(
                        part_problem(self.request, schema),
                        either(
                            part_problem(self.response, schema),
                            part_problem(self.error, schema),
                        ),
                    ),
                ),
            ),
        )
    }

    fn validate_frame(&self, schema: &ProtocolSchema) -> (result: Result<(), ControlFrameError>) {
        let result = validate_generation(self.generation, schema);
        if result.is_err() {
            return result;
        }
        let parts = [
            self.handshake.is_some(),
            self.request.is_some(),
            self.response.is_some(),
            self.error.is_some(),
        ];
        assert(parts@ =~= seq![
            self.handshake is Some,
            self.request is Some,
            self.response is Some,
            self.error is Some,
        ]);
        if !exactly_one(&parts) {
            return Err(ControlFrameError::MissingControlEnvelope);
        }
        let result = validate_part(&self.handshake, schema);
        if result.is_err() {
            return result;
        }
        let result = validate_part(&self.request, schema);
        if result.is_err() {
            return result;
        }
        let result = validate_part(&self.response, schema);
        if result.is_err() {
            return result;
        }
        let result = validate_part(&self.error, schema);
        if result.is_err() {
            return result;
        }
        Ok(())
    }
}

/// A request to speak a subprotocol.
#[derive(Debug, Clone, PartialEq, Eq)]
pub struct MeshSubprotocolOpen {
    pub generation: u32,
    pub name: String,
    pub major: u32,
}

impl ValidateControlFrame for MeshSubprotocolOpen {
    open spec fn problem(&self, schema: &ProtocolSchema) -> Option<ControlFrameError> {
        either(
            generation_problem(self.generation, schema),
            unless(
                trimmed(self.name@).len() > 0 && self.major != 0,
                ControlFrameError::InvalidSubprotocol,
            ),
        )
    }

    fn validate_frame(&self, schema: &ProtocolSchema) -> (result: Result<(), ControlFrameError>) {
        let result = validate_generation(self.generation, schema);
        if result.is_err() {
            return result;
        }
        if is_blank(self.name.as_str()) || self.major == 0 {
            return Err(ControlFrameError::InvalidSubprotocol);
        }
        Ok(())
    }
}

fn knows_code(codes: &Vec<i32>, code: i32) -> (known: bool)
    ensures
        known == codes@.contains(code),
{
    let mut i: usize = 0;
    while i < codes.len()
        invariant
            i <= codes@.len(),
            forall|k: int| 0 <= k < i ==> codes@[k] != code,
        decreases codes@.len() - i,
    {
        if codes[i] == code {
            return true;
        }
        i += 1;
    }
    false
}

/// The first problem of an inventory whose entries follow `previous`: an entry
/// without a name, or one that does not come after the one before it.
pub open spec fn inventory_problem(
    entries: Seq<InventoryEntry>,
    previous: Option<Seq<char>>,
) -> Option<ControlFrameError>
    decreases entries.len(),
{
    if entries.len() == 0 {
        None
    } else {
        let canonical = trimmed(entries[0].canonical_model_ref@);
        if canonical.len() == 0 {
            Some(ControlFrameError::MissingInventoryModelRef)
        } else if previous matches Some(value) && !precedes(value, canonical) {
            Some(ControlFrameError::InvalidInventoryOrder)
        } else {
            inventory_problem(entries.drop_first(), Some(canonical))
        }
    }
}

fn validate_inventory(entries: &Vec<InventoryEntry>) -> (result: Result<(), ControlFrameError>)
    ensures
        result == verdict(inventory_problem(entries@, None)),
{
    let mut previous: Option<String> = None;
    let mut i: usize = 0;
    assert(entries@.skip(0) =~= entries@);
    while i < entries.len()
        invariant
            i <= entries@.len(),
            inventory_problem(entries@, None) == inventory_problem(
                entries@.skip(i as int),
                match previous {
                    Some(value) => Some(value@),
                    None => None,
                },
            ),
        decreases entries@.len() - i,
    {
        assert(entries@.skip(i as int).drop_first() =~= entries@.skip(i + 1));
        let canonical = trim(entries[i].canonical_model_ref.as_str());
        if canonical.as_str().is_empty() {
            return Err(ControlFrameError::MissingInventoryModelRef);
        }
        if let Some(value) = &previous {
            if !text_precedes(value.as_str(), canonical.as_str()) {
                return Err(ControlFrameError::InvalidInventoryOrder);
            }
        }
        previous = Some(canonical);
        i += 1;
    }
    Ok(())
}

/// Accepts what a peer says of itself, or says what is wrong first.
pub fn validate_peer_announcement(
    announcement: &PeerAnnouncement,
    schema: &ProtocolSchema,
) -> (result: Result<(), ControlFrameError>)
    ensures
        result == verdict(announcement.problem(schema)),
{
    announcement.validate_frame(schema)
}

proof fn lemma_no_problem_in_any<T: ValidateControlFrame>(
    items: Seq<T>,
    schema: &ProtocolSchema,
    i: int,
)
    requires
        first_problem(items, schema) is None,
        0 <= i < items.len(),
    ensures
        items[i].problem(schema) is None,
    decreases items.len(),
{
    if i > 0 {
        lemma_no_problem_in_any(items.drop_first(), schema, i - 1);
        assert(items.drop_first()[i - 1] == items[i]);
    }
}

/// In a gossip frame that is accepted, the sender and every peer have ids of
/// full length, every peer that serves HTTP says where, and every subprotocol
/// has a name and a version.
pub proof fn law_accepted_gossip_is_complete(frame: GossipFrame, schema: &ProtocolSchema)
    requires
        frame.problem(schema) is None,
    ensures
        frame.generation == schema.generation,
        frame.sender_id@.len() == 32,
        forall|i: int|
            #![trigger frame.peers@[i]]
            0 <= i < frame.peers@.len() ==> {
                &&& frame.peers@[i].endpoint_id@.len() == 32
                &&& frame.peers@[i].role == schema.host_role ==> frame.peers@[i].http_port is Some
                &&& forall|j: int|
                    #![trigger frame.peers@[i].subprotocols@[j]]
                    0 <= j < frame.peers@[i].subprotocols@.len() ==> trimmed(
                        frame.peers@[i].subprotocols@[j].name@,
                    ).len() > 0 && frame.peers@[i].subprotocols@[j].major != 0
            },
{
    assert forall|i: int| #![trigger frame.peers@[i]] 0 <= i < frame.peers@.len() implies {
        &&& frame.peers@[i].endpoint_id@.len() == 32
        &&& frame.peers@[i].role == schema.host_role ==> frame.peers@[i].http_port is Some
        &&& forall|j: int|
            #![trigger frame.peers@[i].subprotocols@[j]]
            0 <= j < frame.peers@[i].subprotocols@.len() ==> trimmed(
                frame.peers@[i].subprotocols@[j].name@,
            ).len() > 0 && frame.peers@[i].subprotocols@[j].major != 0
    } by {
        lemma_no_problem_in_any(frame.peers@, schema, i);
        let peer = frame.peers@[i];
        assert forall|j: int|
            #![trigger peer.subprotocols@[j]]
            0 <= j < peer.subprotocols@.len() implies trimmed(peer.subprotocols@[j].name@).len() > 0
            && peer.subprotocols@[j].major != 0 by {
            lemma_no_problem_in_any(peer.subprotocols@, schema, j);
        }
    }
}

proof fn lemma_inventory_sorted(
    entries: Seq<InventoryEntry>,
    previous: Option<Seq<char>>,
    i: int,
    j: int,
)
    requires
        inventory_problem(entries, previous) is None,
        0 <= i <= j < entries.len(),
    ensures
        trimmed(entries[i].canonical_model_ref@).len() > 0,
        i < j ==> precedes(
            trimmed(entries[i].canonical_model_ref@),
            trimmed(entries[j].canonical_model_ref@),
        ),
        previous matches Some(value) ==> precedes(value, trimmed(entries[i].canonical_model_ref@)),
    decreases entries.len(),
{
    let rest = entries.drop_first();
    let first = trimmed(entries[0].canonical_model_ref@);
    if i > 0 {
        lemma_inventory_sorted(rest, Some(first), i - 1, j - 1);
        assert(rest[i - 1] == entries[i]);
        assert(rest[j - 1] == entries[j]);
        if let Some(value) = previous {
            law_precedes_transitive(value, first, trimmed(entries[i].canonical_model_ref@));
        }
    } else if j > 0 {
        lemma_inventory_sorted(rest, Some(first), j - 1, j - 1);
        assert(rest[j - 1] == entries[j]);
    }
}

/// An inventory that is accepted names every model, in order, and none twice.
pub proof fn law_accepted_inventory_is_strictly_sorted(
    inventory: OwnerControlRefreshInventory,
    schema: &ProtocolSchema,
    i: int,
    j: int,
)
    requires
        inventory.problem(schema) is None,
        0 <= i < j < inventory.entries@.len(),
    ensures
        trimmed(inventory.entries@[i].canonical_model_ref@).len() > 0,
        trimmed(inventory.entries@[j].canonical_model_ref@).len() > 0,
        precedes(
            trimmed(inventory.entries@[i].canonical_model_ref@),
            trimmed(inventory.entries@[j].canonical_model_ref@),
        ),
        trimmed(inventory.entries@[i].canonical_model_ref@) != trimmed(
            inventory.entries@[j].canonical_model_ref@,
        ),
{
    lemma_inventory_sorted(inventory.entries@, None, i, j);
    lemma_inventory_sorted(inventory.entries@, None, j, j);
    law_precedes_irreflexive(trimmed(inventory.entries@[i].canonical_model_ref@));
}

/// An envelope that is accepted holds exactly one payload, and the payload is
/// accepted too.
pub proof fn law_accepted_envelope_holds_one_payload(
    envelope: OwnerControlEnvelope,
    schema: &ProtocolSchema,
)
    requires
        envelope.problem(schema) is None,
    ensures
        envelope.handshake is Some ==> envelope.request is None && envelope.response is None
            && envelope.error is None,
        envelope.request is Some ==> envelope.handshake is None && envelope.response is None
            && envelope.error is None,
        envelope.response is Some ==> envelope.handshake is None && envelope.request is None
            && envelope.error is None,
        envelope.error is Some ==> envelope.handshake is None && envelope.request is None
            && envelope.response is None,
        envelope.handshake is Some || envelope.request is Some || envelope.response is Some
            || envelope.error is Some,
        part_problem(envelope.handshake, schema) is None,
        part_problem(envelope.request, schema) is None,
        part_problem(envelope.response, schema) is None,
        part_problem(envelope.error, schema) is None,
{
    let parts = seq![
        envelope.handshake is Some,
        envelope.request is Some,
        envelope.response is Some,
        envelope.error is Some,
    ];
    reveal_with_fuel(present, 5);
    assert(parts.drop_last() =~= seq![
        envelope.handshake is Some,
        envelope.request is Some,
        envelope.response is Some,
    ]);
    assert(parts.drop_last().drop_last() =~= seq![
        envelope.handshake is Some,
        envelope.request is Some,
    ]);
    assert(parts.drop_last().drop_last().drop_last() =~= seq![envelope.handshake is Some]);
    assert(parts.drop_last().drop_last().drop_last().drop_last() =~= Seq::<bool>::empty());
}

} // verus!
