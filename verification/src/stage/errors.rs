//! What the failures of a stage connection are called.

use crate::number::{decimal, decimal_text};
use crate::stage::connection::{ConnectionError, ForwardMode};
use crate::text::concat;
use vstd::prelude::*;

verus! {

impl ConnectionError {
    /// The text of the error, for the stage with the given name.
    pub open spec fn text(self, stage_id: Seq<char>) -> Seq<char> {
        match self {
            ConnectionError::Read => "read binary stage message"@,
            ConnectionError::RecurrentState => {
                "stage-state v10 positional speculation requires an attention-only stage; "@
                    + stage_id + " contains recurrent state"@
            },
            ConnectionError::StopWithDeferredReplies(count) => "cannot stop with "@ + decimal(
                count as nat,
            ) + " deferred prefill replies"@,
            ConnectionError::StopAck => "stop expected downstream ACK"@,
            ConnectionError::SessionControlAck => "session control expected downstream ACK"@,
            ConnectionError::GenerationConfigAck => "generation config expected downstream ACK"@,
            ConnectionError::PrefixCacheAck => "prefix cache control expected downstream ACK"@,
            ConnectionError::StateImport => {
                "binary state import is no longer supported by the skippy runtime ABI"@
            },
            ConnectionError::StateExport => {
                "binary state export is no longer supported by the skippy runtime ABI"@
            },
            ConnectionError::StateMismatch => "binary stage state does not match message kind"@,
            ConnectionError::BatchPosition => {
                "batched decode frame has no authoritative position"@
            },
            ConnectionError::EmptyActivation => {
                "stage has downstream but produced an empty activation payload"@
            },
            ConnectionError::DeferredAck => "expected deferred downstream ACK"@,
            ConnectionError::DownstreamAck => "expected downstream ACK"@,
            ConnectionError::CreditAck => "expected downstream ACK while enforcing credit"@,
        }
    }

    /// The text of the error, for the stage with the given name.
    pub fn message(&self, stage_id: &str) -> (message: String)
        ensures
            message@ == self.text(stage_id@),
    {
        match self {
            ConnectionError::Read => "read binary stage message".to_owned(),
            ConnectionError::RecurrentState => concat(
                concat(
                    "stage-state v10 positional speculation requires an attention-only stage; ".to_owned(),
                    stage_id,
                ),
                " contains recurrent state",
            ),
            ConnectionError::StopWithDeferredReplies(count) => {
                let number = decimal_text(*count as u64);
                concat(
                    concat("cannot stop with ".to_owned(), number.as_str()),
                    " deferred prefill replies",
                )
            },
            ConnectionError::StopAck => "stop expected downstream ACK".to_owned(),
            ConnectionError::SessionControlAck => "session control expected downstream ACK".to_owned(),
            ConnectionError::GenerationConfigAck => {
                "generation config expected downstream ACK".to_owned()
            },
            ConnectionError::PrefixCacheAck => {
                "prefix cache control expected downstream ACK".to_owned()
            },
            ConnectionError::StateImport => {
                "binary state import is no longer supported by the skippy runtime ABI".to_owned()
            },
            ConnectionError::StateExport => {
                "binary state export is no longer supported by the skippy runtime ABI".to_owned()
            },
            ConnectionError::StateMismatch => {
                "binary stage state does not match message kind".to_owned()
            },
            ConnectionError::BatchPosition => {
                "batched decode frame has no authoritative position".to_owned()
            },
            ConnectionError::EmptyActivation => {
                "stage has downstream but produced an empty activation payload".to_owned()
            },
            ConnectionError::DeferredAck => "expected deferred downstream ACK".to_owned(),
            ConnectionError::DownstreamAck => "expected downstream ACK".to_owned(),
            ConnectionError::CreditAck => "expected downstream ACK while enforcing credit".to_owned(),
        }
    }
}

impl ForwardMode {
    /// What the mode is called in traces.
    pub open spec fn name(self) -> Seq<char> {
        match self {
            ForwardMode::Nothing => "none"@,
            ForwardMode::AsyncEnqueue => "async_enqueue"@,
            ForwardMode::SyncWrite => "sync_write"@,
        }
    }

    /// What the mode is called in traces.
    pub fn label(&self) -> (label: &'static str)
        ensures
            label@ == self.name(),
    {
        match self {
            ForwardMode::Nothing => "none",
            ForwardMode::AsyncEnqueue => "async_enqueue",
            ForwardMode::SyncWrite => "sync_write",
        }
    }
}

} // verus!
