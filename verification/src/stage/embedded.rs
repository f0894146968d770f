//! A generation that runs on the first stage of a pipeline.

use crate::attrs::{AttrMap, AttrView};
use crate::decode::config::SpeculativeDecodeConfig;
use crate::decode::scheduler::VerifyWindowPipelineStats;
use crate::decode::stats::OpenAiSpeculativeStats;
use vstd::prelude::*;

verus! {

/// What the decoding of a request took.
#[derive(Clone, Copy, Debug)]
pub struct EmbeddedDecodeSummary<M> {
    pub decoded_tokens: usize,
    pub stage0_compute_ms: M,
    pub runtime_lock_wait_ms: M,
    pub runtime_lock_wait_max_ms: M,
    pub runtime_lock_hold_ms: M,
    pub runtime_lock_hold_max_ms: M,
    pub runtime_lock_acquires: usize,
    pub decode_batch_size_max: usize,
    pub decode_batch_wait_ms: M,
    pub forward_write_ms: M,
    pub activation_encode_ms: M,
    pub output_activation_bytes: usize,
    pub forward_activation_bytes: usize,
    pub downstream_wait_ms: M,
}

impl<M> EmbeddedDecodeSummary<M> {
    /// The attributes with those of the decoding.
    pub open spec fn attrs_after(self, attrs: Map<Seq<char>, AttrView<M>>) -> Map<
        Seq<char>,
        AttrView<M>,
    > {
        attrs.insert(
            "llama_stage.decode_token_count"@,
            AttrView::Count(self.decoded_tokens as int),
        ).insert(
            "llama_stage.stage0_compute_ms"@,
            AttrView::Measure(self.stage0_compute_ms),
        ).insert(
            "llama_stage.runtime_lock_wait_ms"@,
            AttrView::Measure(self.runtime_lock_wait_ms),
        ).insert(
            "llama_stage.runtime_lock_wait_max_ms"@,
            AttrView::Measure(self.runtime_lock_wait_max_ms),
        ).insert(
            "llama_stage.runtime_lock_hold_ms"@,
            AttrView::Measure(self.runtime_lock_hold_ms),
        ).insert(
            "llama_stage.runtime_lock_hold_max_ms"@,
            AttrView::Measure(self.runtime_lock_hold_max_ms),
        ).insert(
            "llama_stage.runtime_lock_acquires"@,
            AttrView::Count(self.runtime_lock_acquires as int),
        ).insert(
            "llama_stage.decode_batch_size_max"@,
            AttrView::Count(self.decode_batch_size_max as int),
        ).insert(
            "llama_stage.decode_batch_wait_ms"@,
            AttrView::Measure(self.decode_batch_wait_ms),
        ).insert(
            "llama_stage.forward_write_ms"@,
            AttrView::Measure(self.forward_write_ms),
        ).insert(
            "llama_stage.activation_encode_ms"@,
            AttrView::Measure(self.activation_encode_ms),
        ).insert(
            "llama_stage.output_activation_bytes"@,
            AttrView::Count(self.output_activation_bytes as int),
        ).insert(
            "llama_stage.forward_activation_bytes"@,
            AttrView::Count(self.forward_activation_bytes as int),
        ).insert(
            "llama_stage.downstream_wait_ms"@,
            AttrView::Measure(self.downstream_wait_ms),
        )
    }

    /// Adds what the decoding took, the strategies, and what speculation came
    /// to.
    pub fn insert_attrs(
        &self,
        attrs: &mut AttrMap<M>,
        speculative: &SpeculativeDecodeConfig,
        speculative_stats: &OpenAiSpeculativeStats<M>,
    ) where M: Copy
        ensures
            final(attrs)@ == speculative_stats.attrs_after(
                self.attrs_after(old(attrs)@).insert(
                    "llama_stage.spec.requested_strategy"@,
                    AttrView::Text(speculative.requested_strategy@),
                ).insert(
                    "llama_stage.spec.effective_strategy"@,
                    AttrView::Text(speculative.effective_strategy@),
                ),
            ),
    {
        attrs.insert_count("llama_stage.decode_token_count", self.decoded_tokens);
        attrs.insert_measure("llama_stage.stage0_compute_ms", self.stage0_compute_ms);
        attrs.insert_measure("llama_stage.runtime_lock_wait_ms", self.runtime_lock_wait_ms);
        attrs.insert_measure(
            "llama_stage.runtime_lock_wait_max_ms",
            self.runtime_lock_wait_max_ms,
        );
        attrs.insert_measure("llama_stage.runtime_lock_hold_ms", self.runtime_lock_hold_ms);
        attrs.insert_measure(
            "llama_stage.runtime_lock_hold_max_ms",
            self.runtime_lock_hold_max_ms,
        );
        attrs.insert_count("llama_stage.runtime_lock_acquires", self.runtime_lock_acquires);
        attrs.insert_count("llama_stage.decode_batch_size_max", self.decode_batch_size_max);
        attrs.insert_measure("llama_stage.decode_batch_wait_ms", self.decode_batch_wait_ms);
        attrs.insert_measure("llama_stage.forward_write_ms", self.forward_write_ms);
        attrs.insert_measure("llama_stage.activation_encode_ms", self.activation_encode_ms);
        attrs.insert_count("llama_stage.output_activation_bytes", self.output_activation_bytes);
        attrs.insert_count("llama_stage.forward_activation_bytes", self.forward_activation_bytes);
        attrs.insert_measure("llama_stage.downstream_wait_ms", self.downstream_wait_ms);
        speculative.insert_telemetry_attrs(attrs);
        speculative_stats.insert_attrs(attrs);
    }
}

/// What the response to a request reports of its decoding. `N` and `T` are
/// what the native multi-token heads report.
#[derive(Clone, Copy, Debug)]
pub struct GenerationCacheStats<M, N, T> {
    pub native_mtp_stats: N,
    pub native_mtp_decode_telemetry: Option<T>,
    pub verify_window_pipeline_stats: Option<VerifyWindowPipelineStats>,
    pub speculative_stats: Option<OpenAiSpeculativeStats<M>>,
    pub predicted_ms: M,
}

impl<M, N, T> GenerationCacheStats<M, N, T> {
    /// Replaces the report by that of a decoding that has ended.
    pub fn record_decode(
        &mut self,
        native_mtp_stats: N,
        native_mtp_decode_telemetry: T,
        verify_window_pipeline_stats: VerifyWindowPipelineStats,
        speculative_stats: OpenAiSpeculativeStats<M>,
        predicted_ms: M,
    )
        ensures
            *final(self) == (GenerationCacheStats {
                native_mtp_stats,
                native_mtp_decode_telemetry: Some(native_mtp_decode_telemetry),
                verify_window_pipeline_stats: Some(verify_window_pipeline_stats),
                speculative_stats: Some(speculative_stats),
                predicted_ms,
            }),
    {
        *self =
        GenerationCacheStats {
            native_mtp_stats,
            native_mtp_decode_telemetry: Some(native_mtp_decode_telemetry),
            verify_window_pipeline_stats: Some(verify_window_pipeline_stats),
            speculative_stats: Some(speculative_stats),
            predicted_ms,
        };
    }
}

/// What becomes of the lane that a request used.
#[derive(Clone, Copy, Debug, PartialEq, Eq, Structural)]
pub enum LaneEnd {
    /// It goes back to the pool.
    Return,
    /// A new lane takes its place.
    Replace,
}

/// The end of a request on its lane: the lane is used again only where both
/// the generation and the stop went well, and a stop that failed is reported
/// only where the generation went well.
pub fn finish_embedded_generation_session<E>(generated: bool, stopped: Result<(), E>) -> (result: (
    LaneEnd,
    Result<(), E>,
))
    ensures
        result.0 == if generated && stopped is Ok {
            LaneEnd::Return
        } else {
            LaneEnd::Replace
        },
        result.1 == if generated {
            stopped
        } else {
            Ok(())
        },
{
    let end = match (generated, &stopped) {
        (true, Ok(_)) => LaneEnd::Return,
        _ => LaneEnd::Replace,
    };
    if generated {
        (end, stopped)
    } else {
        (end, Ok(()))
    }
}

/// Whether the context of a decoding goes along with it: it fits, and the
/// current token is its last.
pub fn decode_uses_context_sideband(
    context_token_ids: &[i32],
    current: i32,
    sideband_capacity: usize,
) -> (uses: bool)
    ensures
        uses == (0 < context_token_ids@.len() <= sideband_capacity && context_token_ids@.last()
            == current),
{
    let len: usize = context_token_ids.len();
    len > 0 && len <= sideband_capacity && context_token_ids[len - 1] == current
}

} // verus!
