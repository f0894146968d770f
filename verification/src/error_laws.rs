//! What failures say.

use crate::benchmark::BenchmarkError;
use crate::decode::config::SpeculativeConfigError;
use crate::decode::scheduler::VerifyWindowSchedulerError;
use crate::host::unload::UnloadError;
use crate::mesh::control_frames::{ControlFrameError, ProtocolSchema};
use crate::number::{decimal, signed_decimal};
use crate::scan::joined;
use crate::stage::connection::{ConnectionError, ForwardMode};
use crate::text::texts;
use vstd::prelude::*;

verus! {

/// A connection says what it could not read, and what it waited for in vain.
pub proof fn law_connection_failures_say_what_went_wrong(stage_id: Seq<char>, count: usize)
    ensures
        ConnectionError::Read.text(stage_id) == "read binary stage message"@,
        ConnectionError::RecurrentState.text(stage_id)
            == "stage-state v10 positional speculation requires an attention-only stage; "@
            + stage_id + " contains recurrent state"@,
        ConnectionError::StopWithDeferredReplies(count).text(stage_id)
            == "cannot stop with "@ + decimal(count as nat) + " deferred prefill replies"@,
        ConnectionError::StopAck.text(stage_id) == "stop expected downstream ACK"@,
        ConnectionError::SessionControlAck.text(stage_id)
            == "session control expected downstream ACK"@,
        ConnectionError::GenerationConfigAck.text(stage_id)
            == "generation config expected downstream ACK"@,
        ConnectionError::PrefixCacheAck.text(stage_id)
            == "prefix cache control expected downstream ACK"@,
        ConnectionError::StateImport.text(stage_id)
            == "binary state import is no longer supported by the skippy runtime ABI"@,
        ConnectionError::StateExport.text(stage_id)
            == "binary state export is no longer supported by the skippy runtime ABI"@,
        ConnectionError::StateMismatch.text(stage_id)
            == "binary stage state does not match message kind"@,
        ConnectionError::BatchPosition.text(stage_id)
            == "batched decode frame has no authoritative position"@,
        ConnectionError::EmptyActivation.text(stage_id)
            == "stage has downstream but produced an empty activation payload"@,
        ConnectionError::DeferredAck.text(stage_id) == "expected deferred downstream ACK"@,
        ConnectionError::DownstreamAck.text(stage_id) == "expected downstream ACK"@,
        ConnectionError::CreditAck.text(stage_id)
            == "expected downstream ACK while enforcing credit"@,
{
}

/// The ways of an activation have their names.
pub proof fn law_forward_modes_are_named()
    ensures
        ForwardMode::Nothing.name() == "none"@,
        ForwardMode::AsyncEnqueue.name() == "async_enqueue"@,
        ForwardMode::SyncWrite.name() == "sync_write"@,
{
}

/// A window that cannot be opened or completed says why.
pub proof fn law_refused_windows_say_why(got: i32, expected: i32)
    ensures
        VerifyWindowSchedulerError::DepthExceeded.text()
            == "verify window pipeline depth exceeded"@,
        VerifyWindowSchedulerError::IdOverflow.text() == "verify window id overflow"@,
        VerifyWindowSchedulerError::NoWindowInFlight.text()
            == "verify window reply arrived with no in-flight window"@,
        (VerifyWindowSchedulerError::OutOfOrder { got, expected }).text()
            == "verify window reply out of order: got "@ + signed_decimal(got as int)
            + ", expected "@ + signed_decimal(expected as int),
{
}

/// A configuration that is refused says which bounds do not hold.
pub proof fn law_refused_configurations_say_why()
    ensures
        SpeculativeConfigError::EmptyStrategy.text()
            == "speculative decode strategies must not be empty"@,
        SpeculativeConfigError::NativeMtpDraftTokens.text()
            == "native MTP min_draft_tokens must not exceed max_draft_tokens"@,
        SpeculativeConfigError::NgramBounds.text()
            == "N-gram proposer requires 0 < min_ngram <= max_ngram and max_proposal_tokens >= min_ngram"@,
        SpeculativeConfigError::CacheNgramLimit.text()
            == "cache N-gram proposer max_ngram must not exceed llama.cpp limit "@ + decimal(4),
        SpeculativeConfigError::ExtensionWithoutProposers.text()
            == "N-gram extension requires both native MTP and an N-gram proposer"@,
        SpeculativeConfigError::ExtensionBounds.text()
            == "N-gram extension requires 0 < initial_tokens <= max_tokens"@,
        SpeculativeConfigError::VerifyWindowBounds.text()
            == "verify window requires 0 < min_tokens <= max_tokens and pipeline_depth > 0"@,
{
}

/// An unload that is refused names what it was for, and the instances to choose
/// from.
pub proof fn law_refused_unloads_say_why(target: String, instance_ids: Vec<String>)
    ensures
        (UnloadError::NotLoaded { target }).text()
            == "model or runtime instance '"@ + target@ + "' is not loaded"@,
        (UnloadError::Ambiguous { target, instance_ids }).text()
            == "model '"@ + target@ + "' has multiple loaded instances ("@
            + joined(texts(instance_ids@), ", "@) + "); unload by runtime instance id"@,
{
}

/// A frame that is refused says what is wrong with it.
pub proof fn law_refused_frames_say_why(
    schema: &ProtocolSchema,
    size: usize,
    generation: u32,
    got: usize,
    code: i32,
)
    ensures
        (ControlFrameError::OversizeFrame { size }).text(schema)
            == "control frame too large: "@ + decimal(size as nat) + " bytes (max "@
            + decimal(schema.max_control_frame_bytes as nat) + ")"@,
        (ControlFrameError::BadGeneration { got: generation }).text(schema)
            == "bad protocol generation: expected "@ + decimal(schema.generation as nat)
            + ", got "@ + decimal(generation as nat),
        ControlFrameError::MissingDirectPathAddress.text(schema)
            == "direct path request missing endpoint address"@,
        ControlFrameError::MissingHttpPort.text(schema)
            == "HOST-role peer annotation missing http_port"@,
        ControlFrameError::MissingControlOwnerId.text(schema)
            == "owner control handshake missing owner_id"@,
        ControlFrameError::InvalidSubprotocol.text(schema)
            == "subprotocol entries require a non-empty name and major"@,
        ControlFrameError::MissingSignature.text(schema) == "config push missing signature"@,
        ControlFrameError::MissingConfig.text(schema) == "config field is required but missing"@,
        ControlFrameError::MissingControlEnvelope.text(schema)
            == "owner control envelope requires exactly one payload"@,
        ControlFrameError::MissingControlCommand.text(schema)
            == "owner control request requires exactly one command variant"@,
        ControlFrameError::MissingControlResult.text(schema)
            == "owner control response requires exactly one result variant"@,
        ControlFrameError::MissingControlOwnership.text(schema)
            == "owner control handshake missing ownership attestation"@,
        ControlFrameError::MissingRequestId.text(schema)
            == "owner control request_id must be non-zero"@,
        ControlFrameError::MissingInventoryModelRef.text(schema)
            == "inventory entry requires a canonical model ref"@,
        ControlFrameError::InvalidInventoryOrder.text(schema)
            == "inventory entries must be strictly sorted by canonical model ref"@,
        ControlFrameError::ForgedSender.text(schema)
            == "frame peer_id does not match QUIC connection identity"@,
        (ControlFrameError::InvalidEndpointId { got }).text(schema)
            == "invalid endpoint_id length: expected 32, got "@ + decimal(got as nat),
        (ControlFrameError::InvalidSenderId { got }).text(schema)
            == "invalid sender_id length: expected 32, got "@ + decimal(got as nat),
        (ControlFrameError::InvalidConfigHashLength { got }).text(schema)
            == "invalid config_hash length: expected 32, got "@ + decimal(got as nat),
        (ControlFrameError::InvalidPublicKeyLength { got }).text(schema)
            == "invalid public key length: expected 32, got "@ + decimal(got as nat),
        (ControlFrameError::InvalidSignatureLength { got }).text(schema)
            == "invalid signature length: expected 64, got "@ + decimal(got as nat),
        (ControlFrameError::InvalidOwnerControlErrorCode { got: code }).text(schema)
            == "invalid owner control error code: "@ + signed_decimal(code as int),
        (ControlFrameError::InvalidInventoryDisposition { got: code }).text(schema)
            == "invalid inventory scan disposition: "@ + signed_decimal(code as int),
{
}

/// A measurement that fails says why.
pub proof fn law_failed_measurements_say_why(
    name: String,
    platform: String,
    path: String,
    seconds: String,
    detail: String,
    status: String,
)
    ensures
        BenchmarkError::NoGpus.text() == "no GPUs detected on this node"@,
        (BenchmarkError::UnsupportedBackend { name }).text()
            == "unsupported benchmark backend "@ + name@,
        (BenchmarkError::NoBackend { platform }).text()
            == "no supported benchmark backend found for detected GPU platform "@ + platform@,
        (BenchmarkError::UnknownMarker { path }).text()
            == "unknown benchmark runner marker "@ + path@,
        (BenchmarkError::TimedOut { seconds, detail: None }).text()
            == "benchmark timed out after "@ + seconds@ + "s"@,
        (BenchmarkError::TimedOut { seconds, detail: Some(detail) }).text()
            == "benchmark timed out after "@ + seconds@ + "s: "@ + detail@,
        (BenchmarkError::Exited { status }).text()
            == "benchmark child exited with status "@ + status@,
        (BenchmarkError::ChildFailed { detail }).text() == "benchmark child failed: "@ + detail@,
        BenchmarkError::InvalidOutput.text() == "benchmark child returned invalid output"@,
{
    reveal_strlit("s");
    reveal_strlit(": ");
    reveal_strlit("s: ");
    let told = "benchmark timed out after "@ + seconds@;
    assert(told + "s"@ + ": "@ + detail@ =~= told + "s: "@ + detail@);
}

} // verus!
