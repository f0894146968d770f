//! What the attributes of traces hold.
//!
//! Attributes that are added take the place of those of the same name, and all
//! others stay.

use crate::attrs::AttrView;
use crate::decode::stats::OpenAiSpeculativeStats;
use crate::stage::connection::{ForwardMode, Observation};
use crate::stage::embedded::EmbeddedDecodeSummary;
use crate::stage::traces::{
    AlignTrace, CacheControlTrace, ComputeTrace, ForwardTrace, MessageTimes, RecvTrace, ReplyKind,
    RuntimeSessionStats, SessionDropStats, UpstreamReplyWriteSpan, with_known_nanos,
    with_known_sessions, with_observation, with_sessions, write_mode_name,
};
use vstd::prelude::*;

verus! {

/// The sessions of a runtime are told under their prefix, where they are known.
pub proof fn law_sessions_are_told_under_their_prefix<M>(
    attrs: Map<Seq<char>, AttrView<M>>,
    prefix: Seq<char>,
    stats: RuntimeSessionStats,
)
    ensures
        with_sessions(attrs, prefix, stats) == attrs.union_prefer_right(
            map![
                prefix + ".active_sessions"@ => AttrView::Count(stats.active_sessions as int),
                prefix + ".idle_sessions"@ => AttrView::Count(stats.idle_sessions as int),
                prefix + ".idle_resident_prefixes"@ => AttrView::Count(
                    stats.idle_resident_prefixes as int,
                ),
                prefix + ".tracked_token_counts"@ => AttrView::Count(
                    stats.tracked_token_counts as int,
                ),
            ],
        ),
        with_known_sessions(attrs, prefix, Some(stats)) == with_sessions(attrs, prefix, stats),
        with_known_sessions(attrs, prefix, None) == attrs,
{
}

/// A moment is told where it is known.
pub proof fn law_known_moments_are_told<M>(
    attrs: Map<Seq<char>, AttrView<M>>,
    name: Seq<char>,
    value: u64,
)
    ensures
        with_known_nanos(attrs, name, Some(value)) == attrs.insert(
            name,
            AttrView::Count(value as int),
        ),
        with_known_nanos(attrs, name, None) == attrs,
{
}

/// A receipt tells when and how the message came.
pub proof fn law_receipts_are_told<M>(recv: RecvTrace<M>, attrs: Map<Seq<char>, AttrView<M>>)
    ensures
        recv.attrs_after(attrs) == attrs.union_prefer_right(
            map![
                "llama_stage.recv_start_unix_nanos"@ => AttrView::Count(
                    recv.start_unix_nanos as int,
                ),
                "llama_stage.recv_end_unix_nanos"@ => AttrView::Count(recv.end_unix_nanos as int),
                "llama_stage.recv_read_ms"@ => AttrView::Measure(recv.read_ms),
                "skippy.upstream_message_wait_ms"@ => AttrView::Measure(recv.read_ms),
                "llama_stage.source_stage_index"@ => AttrView::Signed(
                    recv.source_stage_index as int,
                ),
                "llama_stage.configured_upstream_stage_index"@ => match recv.configured_upstream {
                    Some(value) => AttrView::Count(value as int),
                    None => AttrView::Null,
                },
                "llama_stage.message_wire_bytes"@ => AttrView::Count(recv.wire_bytes as int),
                "skippy.activation_bytes"@ => AttrView::Count(recv.activation_bytes as int),
            ],
        ),
{
}

/// A cache control tells whether it hit, and how long it took.
pub proof fn law_cache_controls_are_told<M>(
    control: CacheControlTrace<M>,
    attrs: Map<Seq<char>, AttrView<M>>,
)
    ensures
        control.attrs_after(attrs) == attrs.union_prefer_right(
            map![
                "skippy.kv.control_hit"@ => AttrView::Bool(control.hit),
                "llama_stage.elapsed_ms"@ => AttrView::Measure(control.elapsed_ms),
            ],
        ),
{
}

/// An alignment tells the tokens before and after it, and how long it took.
pub proof fn law_alignments_are_told<M>(align: AlignTrace<M>, attrs: Map<Seq<char>, AttrView<M>>)
    ensures
        align.attrs_after(attrs) == attrs.union_prefer_right(
            map![
                "llama_stage.session_auto_align_before_tokens"@ => AttrView::Count(
                    align.before_token_count as int,
                ),
                "llama_stage.session_auto_align_after_tokens"@ => AttrView::Count(
                    align.after_token_count as int,
                ),
                "llama_stage.elapsed_ms"@ => AttrView::Measure(align.elapsed_ms),
            ],
        ),
{
}

/// A computation tells its output, its times and the sessions around it.
pub proof fn law_computations_are_told<M>(
    compute: ComputeTrace<M>,
    attrs: Map<Seq<char>, AttrView<M>>,
)
    ensures
        compute.attrs_after(attrs) == ({
            let attrs = attrs.union_prefer_right(
                map![
                    "skippy.output_activation_bytes"@ => AttrView::Count(
                        compute.output_activation_bytes as int,
                    ),
                    "skippy.compute_ms"@ => AttrView::Measure(compute.compute_ms),
                    "llama_stage.input_activation_decode_ms"@ => AttrView::Measure(
                        compute.input_activation_decode_ms,
                    ),
                    "llama_stage.runtime_lock_wait_ms"@ => AttrView::Measure(
                        compute.runtime_lock_wait_ms,
                    ),
                    "llama_stage.runtime_lock_hold_ms"@ => AttrView::Measure(
                        compute.runtime_lock_hold_ms,
                    ),
                    "llama_stage.runtime_lock_acquires"@ => AttrView::Count(
                        compute.runtime_lock_acquires as int,
                    ),
                    "llama_stage.decode_batch_size"@ => AttrView::Count(
                        compute.decode_batch_size as int,
                    ),
                    "llama_stage.decode_batch_wait_ms"@ => AttrView::Measure(
                        compute.decode_batch_wait_ms,
                    ),
                ],
            );
            let attrs = with_known_sessions(
                attrs,
                "llama_stage.runtime_sessions_before"@,
                compute.sessions_before,
            );
            let attrs = with_known_sessions(
                attrs,
                "llama_stage.runtime_sessions_after"@,
                compute.sessions_after,
            );
            attrs.union_prefer_right(
                map![
                    "skippy.kv.restored_prefill"@ => AttrView::Bool(compute.restored_prefill),
                    "llama_stage.compute_start_unix_nanos"@ => AttrView::Count(
                        compute.compute_start_unix_nanos as int,
                    ),
                    "llama_stage.compute_end_unix_nanos"@ => AttrView::Count(
                        compute.compute_end_unix_nanos as int,
                    ),
                ],
            )
        }),
{
}

/// An activation that goes downstream tells its sizes and how long its encoding
/// took.
pub proof fn law_forwarded_activations_are_told<M>(
    forward: ForwardTrace<M>,
    attrs: Map<Seq<char>, AttrView<M>>,
)
    ensures
        forward.attrs_after(attrs) == attrs.union_prefer_right(
            map![
                "llama_stage.forward_activation_bytes"@ => AttrView::Count(
                    forward.forward_activation_bytes as int,
                ),
                "llama_stage.activation_encode_ms"@ => AttrView::Measure(
                    forward.activation_encode_ms,
                ),
                "llama_stage.output_activation_bytes"@ => AttrView::Count(
                    forward.output_activation_bytes as int,
                ),
            ],
        ),
{
}

/// A message tells when each part of its way began and ended.
pub proof fn law_message_times_are_told<M>(
    times: MessageTimes<M>,
    attrs: Map<Seq<char>, AttrView<M>>,
)
    ensures
        times.attrs_after(attrs) == ({
            let attrs = attrs.union_prefer_right(
                map![
                    "llama_stage.message_start_unix_nanos"@ => AttrView::Count(
                        times.message_start_unix_nanos as int,
                    ),
                    "llama_stage.message_end_unix_nanos"@ => AttrView::Count(
                        times.message_end_unix_nanos as int,
                    ),
                    "llama_stage.compute_start_unix_nanos"@ => AttrView::Count(
                        times.compute_start_unix_nanos as int,
                    ),
                    "llama_stage.compute_end_unix_nanos"@ => AttrView::Count(
                        times.compute_end_unix_nanos as int,
                    ),
                    "llama_stage.compute_ms"@ => AttrView::Measure(times.compute_ms),
                    "llama_stage.recv_read_ms"@ => AttrView::Measure(times.recv_read_ms),
                    "skippy.upstream_message_wait_ms"@ => AttrView::Measure(times.recv_read_ms),
                    "llama_stage.input_activation_decode_ms"@ => AttrView::Measure(
                        times.input_activation_decode_ms,
                    ),
                    "llama_stage.runtime_lock_wait_ms"@ => AttrView::Measure(
                        times.runtime_lock_wait_ms,
                    ),
                    "llama_stage.runtime_lock_hold_ms"@ => AttrView::Measure(
                        times.runtime_lock_hold_ms,
                    ),
                    "llama_stage.runtime_lock_acquires"@ => AttrView::Count(
                        times.runtime_lock_acquires as int,
                    ),
                ],
            );
            let attrs = with_known_sessions(
                attrs,
                "llama_stage.runtime_sessions_before"@,
                times.sessions_before,
            );
            let attrs = with_known_sessions(
                attrs,
                "llama_stage.runtime_sessions_after"@,
                times.sessions_after,
            );
            let attrs = attrs.union_prefer_right(
                map![
                    "llama_stage.forward_write_ms"@ => AttrView::Measure(times.forward_write_ms),
                    "llama_stage.activation_encode_ms"@ => AttrView::Measure(
                        times.activation_encode_ms,
                    ),
                    "llama_stage.downstream_wait_ms"@ => AttrView::Measure(
                        times.downstream_wait_ms,
                    ),
                    "skippy.compute_ms"@ => AttrView::Measure(times.compute_ms),
                    "skippy.forward_write_ms"@ => AttrView::Measure(times.forward_write_ms),
                    "skippy.downstream_wait_ms"@ => AttrView::Measure(times.downstream_wait_ms),
                    "skippy.upstream_reply_ms"@ => AttrView::Measure(times.upstream_reply_ms),
                ],
            );
            let attrs = with_known_nanos(
                attrs,
                "llama_stage.forward_write_start_unix_nanos"@,
                times.forward_write_start_unix_nanos,
            );
            let attrs = with_known_nanos(
                attrs,
                "llama_stage.forward_write_end_unix_nanos"@,
                times.forward_write_end_unix_nanos,
            );
            let attrs = with_known_nanos(
                attrs,
                "llama_stage.downstream_wait_start_unix_nanos"@,
                times.downstream_wait_start_unix_nanos,
            );
            let attrs = with_known_nanos(
                attrs,
                "llama_stage.downstream_wait_end_unix_nanos"@,
                times.downstream_wait_end_unix_nanos,
            );
            let attrs = with_known_nanos(
                attrs,
                "llama_stage.upstream_reply_start_unix_nanos"@,
                times.upstream_reply_start_unix_nanos,
            );
            let attrs = with_known_nanos(
                attrs,
                "llama_stage.upstream_reply_end_unix_nanos"@,
                times.upstream_reply_end_unix_nanos,
            );
            attrs.union_prefer_right(
                map![
                    "skippy.message_elapsed_ms"@ => AttrView::Measure(times.message_elapsed_ms),
                    "skippy.input_activation_bytes"@ => AttrView::Count(
                        times.input_activation_bytes as int,
                    ),
                    "skippy.output_activation_bytes"@ => AttrView::Count(
                        times.output_activation_bytes as int,
                    ),
                ],
            )
        }),
{
}

/// What a connection did with a message is told.
pub proof fn law_observations_are_told<M>(
    observation: Observation,
    attrs: Map<Seq<char>, AttrView<M>>,
)
    ensures
        with_observation(attrs, observation) == attrs.union_prefer_right(
            map![
                "llama_stage.forward_mode"@ => AttrView::Text(observation.mode.name()),
                "skippy.prefill_credit_limit"@ => AttrView::Count(observation.credit_limit as int),
                "skippy.prefill_pending_replies_before"@ => AttrView::Count(
                    observation.pending_before as int,
                ),
                "skippy.prefill_pending_replies_after"@ => AttrView::Count(
                    observation.pending_after as int,
                ),
                "skippy.prefill_credit_wait_count"@ => AttrView::Count(
                    observation.credit_waits as int,
                ),
                "skippy.prefill_deferred_replies_drained"@ => AttrView::Count(
                    observation.drained as int,
                ),
            ],
        ),
{
}

/// Only activations that are enqueued go by the writer.
pub proof fn law_only_enqueued_activations_go_by_the_writer(mode: ForwardMode)
    ensures
        mode == ForwardMode::AsyncEnqueue ==> write_mode_name(mode) == "async_writer"@,
        mode != ForwardMode::AsyncEnqueue ==> write_mode_name(mode) == "sync_write"@,
{
}

/// A reply is named by its kind.
pub proof fn law_replies_are_named(kind: ReplyKind)
    ensures
        kind == ReplyKind::Ack ==> kind.name() == "Ack"@,
        kind == ReplyKind::PredictedToken ==> kind.name() == "PredictedToken"@,
        kind == ReplyKind::PredictedTokens ==> kind.name() == "PredictedTokens"@,
{
}

/// A dropped session tells how it was reset and why its lane was discarded, if
/// there is a reason.
pub proof fn law_dropped_sessions_are_told<M>(
    stats: SessionDropStats<M>,
    attrs: Map<Seq<char>, AttrView<M>>,
    runtime_lock_wait_ms: M,
)
    ensures
        stats.lane_discard_reason is None ==> stats.attrs_after(attrs, runtime_lock_wait_ms)
            == with_sessions(
            attrs.union_prefer_right(
                map![
                    "llama_stage.runtime_lock_wait_ms"@ => AttrView::Measure(runtime_lock_wait_ms),
                    "llama_stage.session_reset_ms"@ => AttrView::Measure(stats.reset_ms),
                    "llama_stage.session_reset"@ => AttrView::Bool(stats.reset_session),
                    "llama_stage.lane_discarded"@ => AttrView::Bool(stats.lane_discarded),
                ],
            ),
            "llama_stage.runtime_sessions_after"@,
            stats.stats_after,
        ),
        stats.lane_discard_reason matches Some(reason) ==> stats.attrs_after(
            attrs,
            runtime_lock_wait_ms,
        ) == with_sessions(
            attrs.union_prefer_right(
                map![
                    "llama_stage.runtime_lock_wait_ms"@ => AttrView::Measure(runtime_lock_wait_ms),
                    "llama_stage.session_reset_ms"@ => AttrView::Measure(stats.reset_ms),
                    "llama_stage.session_reset"@ => AttrView::Bool(stats.reset_session),
                    "llama_stage.lane_discarded"@ => AttrView::Bool(stats.lane_discarded),
                    "llama_stage.lane_discard_reason"@ => AttrView::Text(reason@),
                ],
            ),
            "llama_stage.runtime_sessions_after"@,
            stats.stats_after,
        ),
{
}

/// A reply tells its kind, its size, and when it was written.
pub proof fn law_replies_are_told<M>(
    span: UpstreamReplyWriteSpan<M>,
    attrs: Map<Seq<char>, AttrView<M>>,
    reply_wire_bytes: usize,
)
    ensures
        span.attrs_after(attrs, reply_wire_bytes) == attrs.union_prefer_right(
            map![
                "llama_stage.reply_kind"@ => AttrView::Text(span.reply_kind.name()),
                "llama_stage.reply_predicted_token_count"@ => AttrView::Count(
                    span.predicted_token_count as int,
                ),
                "llama_stage.upstream_reply_ms"@ => AttrView::Measure(span.write_ms),
                "llama_stage.reply_wire_bytes"@ => AttrView::Count(reply_wire_bytes as int),
                "llama_stage.upstream_reply_start_unix_nanos"@ => AttrView::Count(
                    span.start_unix_nanos as int,
                ),
                "llama_stage.upstream_reply_end_unix_nanos"@ => AttrView::Count(
                    span.end_unix_nanos as int,
                ),
            ],
        ),
{
}

/// A decoding tells its tokens, its sizes and its times.
pub proof fn law_decodings_are_told<M>(
    summary: EmbeddedDecodeSummary<M>,
    attrs: Map<Seq<char>, AttrView<M>>,
)
    ensures
        summary.attrs_after(attrs) == attrs.union_prefer_right(
            map![
                "llama_stage.decode_token_count"@ => AttrView::Count(summary.decoded_tokens as int),
                "llama_stage.stage0_compute_ms"@ => AttrView::Measure(summary.stage0_compute_ms),
                "llama_stage.runtime_lock_wait_ms"@ => AttrView::Measure(
                    summary.runtime_lock_wait_ms,
                ),
                "llama_stage.runtime_lock_wait_max_ms"@ => AttrView::Measure(
                    summary.runtime_lock_wait_max_ms,
                ),
                "llama_stage.runtime_lock_hold_ms"@ => AttrView::Measure(
                    summary.runtime_lock_hold_ms,
                ),
                "llama_stage.runtime_lock_hold_max_ms"@ => AttrView::Measure(
                    summary.runtime_lock_hold_max_ms,
                ),
                "llama_stage.runtime_lock_acquires"@ => AttrView::Count(
                    summary.runtime_lock_acquires as int,
                ),
                "llama_stage.decode_batch_size_max"@ => AttrView::Count(
                    summary.decode_batch_size_max as int,
                ),
                "llama_stage.decode_batch_wait_ms"@ => AttrView::Measure(
                    summary.decode_batch_wait_ms,
                ),
                "llama_stage.forward_write_ms"@ => AttrView::Measure(summary.forward_write_ms),
                "llama_stage.activation_encode_ms"@ => AttrView::Measure(
                    summary.activation_encode_ms,
                ),
                "llama_stage.output_activation_bytes"@ => AttrView::Count(
                    summary.output_activation_bytes as int,
                ),
                "llama_stage.forward_activation_bytes"@ => AttrView::Count(
                    summary.forward_activation_bytes as int,
                ),
                "llama_stage.downstream_wait_ms"@ => AttrView::Measure(summary.downstream_wait_ms),
            ],
        ),
{
}

/// Speculation tells only that it was off where there was no window, and
/// otherwise everything that was counted and measured.
pub proof fn law_speculation_is_told<M>(
    stats: OpenAiSpeculativeStats<M>,
    attrs: Map<Seq<char>, AttrView<M>>,
)
    ensures
        stats.windows == 0 ==> stats.attrs_after(attrs) == attrs.insert(
            "llama_stage.spec.enabled"@,
            AttrView::Bool(false),
        ),
        stats.windows > 0 ==> stats.attrs_after(attrs) == attrs.union_prefer_right(
            map![
                "llama_stage.spec.enabled"@ => AttrView::Bool(true),
                "llama_stage.spec.windows"@ => AttrView::Count(stats.windows as int),
                "llama_stage.spec.proposed"@ => AttrView::Count(stats.draft_tokens as int),
                "llama_stage.spec.accepted"@ => AttrView::Count(stats.accepted_tokens as int),
                "llama_stage.spec.rejected"@ => AttrView::Count(stats.rejected_tokens as int),
                "llama_stage.spec.accept_rate"@ => AttrView::Ratio {
                    part: stats.accepted_tokens as int,
                    whole: stats.draft_tokens as int,
                },
                "llama_stage.spec.full_accept_windows"@ => AttrView::Count(
                    stats.full_accept_windows as int,
                ),
                "llama_stage.spec.accepted_stop_windows"@ => AttrView::Count(
                    stats.accepted_stop_windows as int,
                ),
                "llama_stage.spec.rejected_windows"@ => AttrView::Count(
                    stats.rejected_windows as int,
                ),
                "llama_stage.spec.early_reject_windows"@ => AttrView::Count(
                    stats.early_reject_windows as int,
                ),
                "llama_stage.spec.tail_reject_windows"@ => AttrView::Count(
                    stats.tail_reject_windows as int,
                ),
                "llama_stage.spec.repair_required_windows"@ => AttrView::Count(
                    stats.repair_required_windows as int,
                ),
                "llama_stage.spec.draft_reset_ms"@ => AttrView::Measure(stats.draft_reset_ms),
                "llama_stage.spec.draft_propose_ms"@ => AttrView::Measure(stats.draft_propose_ms),
                "llama_stage.spec.primary_verify_elapsed_ms"@ => AttrView::Measure(
                    stats.primary_verify_elapsed_ms,
                ),
                "llama_stage.spec.primary_verify_stage0_compute_ms"@ => AttrView::Measure(
                    stats.primary_verify_stage0_compute_ms,
                ),
                "llama_stage.spec.primary_verify_runtime_lock_wait_ms"@ => AttrView::Measure(
                    stats.primary_verify_runtime_lock_wait_ms,
                ),
                "llama_stage.spec.primary_verify_runtime_lock_hold_ms"@ => AttrView::Measure(
                    stats.primary_verify_runtime_lock_hold_ms,
                ),
                "llama_stage.spec.primary_verify_activation_encode_ms"@ => AttrView::Measure(
                    stats.primary_verify_activation_encode_ms,
                ),
                "llama_stage.spec.primary_verify_forward_write_ms"@ => AttrView::Measure(
                    stats.primary_verify_forward_write_ms,
                ),
                "llama_stage.spec.primary_verify_downstream_wait_ms"@ => AttrView::Measure(
                    stats.primary_verify_downstream_wait_ms,
                ),
                "llama_stage.spec.primary_verify_output_activation_bytes"@ => AttrView::Count(
                    stats.primary_verify_output_activation_bytes as int,
                ),
                "llama_stage.spec.primary_verify_forward_activation_bytes"@ => AttrView::Count(
                    stats.primary_verify_forward_activation_bytes as int,
                ),
                "llama_stage.spec.checkpoint_ms"@ => AttrView::Measure(stats.checkpoint_ms),
                "llama_stage.spec.recovery_restores"@ => AttrView::Count(
                    stats.recovery_restores as int,
                ),
                "llama_stage.spec.recovery_ms"@ => AttrView::Measure(stats.recovery_ms),
                "llama_stage.spec.recovery_restore_local_ms"@ => AttrView::Measure(
                    stats.recovery_restore_local_ms,
                ),
                "llama_stage.spec.recovery_restore_downstream_write_ms"@ => AttrView::Measure(
                    stats.recovery_restore_downstream_write_ms,
                ),
                "llama_stage.spec.recovery_restore_downstream_wait_ms"@ => AttrView::Measure(
                    stats.recovery_restore_downstream_wait_ms,
                ),
                "llama_stage.spec.adaptive_enabled"@ => AttrView::Bool(
                    stats.adaptive_window_enabled,
                ),
                "llama_stage.spec.window_start"@ => AttrView::Count(
                    stats.adaptive_window_start as int,
                ),
                "llama_stage.spec.window_final"@ => AttrView::Count(
                    stats.adaptive_window_final as int,
                ),
                "llama_stage.spec.window_max"@ => AttrView::Count(stats.adaptive_window_max as int),
                "llama_stage.spec.window_min"@ => AttrView::Count(stats.adaptive_window_min as int),
                "llama_stage.spec.window_max_seen"@ => AttrView::Count(
                    stats.adaptive_window_max_seen as int,
                ),
                "llama_stage.spec.window_grows"@ => AttrView::Count(
                    stats.adaptive_window_grows as int,
                ),
                "llama_stage.spec.window_shrinks"@ => AttrView::Count(
                    stats.adaptive_window_shrinks as int,
                ),
            ],
        ),
{
}

} // verus!
