//! What a stage's traces say.
//!
//! Each trace is a record of plain values; times in milliseconds are of a type
//! `M` that is only reported.

use crate::attrs::{AttrMap, AttrValue, AttrView};
use crate::stage::connection::{ForwardMode, Observation};
use crate::text::concat;
use vstd::prelude::*;

verus! {

/// The sessions that a runtime keeps.
#[derive(Clone, Copy, Debug, PartialEq, Eq)]
pub struct RuntimeSessionStats {
    pub active_sessions: usize,
    pub idle_sessions: usize,
    pub idle_resident_prefixes: usize,
    pub tracked_token_counts: usize,
}

/// The attributes with those of the sessions.
pub open spec fn with_sessions<M>(
    attrs: Map<Seq<char>, AttrView<M>>,
    prefix: Seq<char>,
    stats: RuntimeSessionStats,
) -> Map<Seq<char>, AttrView<M>> {
    attrs.insert(
        prefix + ".active_sessions"@,
        AttrView::Count(stats.active_sessions as int),
    ).insert(prefix + ".idle_sessions"@, AttrView::Count(stats.idle_sessions as int)).insert(
        prefix + ".idle_resident_prefixes"@,
        AttrView::Count(stats.idle_resident_prefixes as int),
    ).insert(
        prefix + ".tracked_token_counts"@,
        AttrView::Count(stats.tracked_token_counts as int),
    )
}

/// The attributes with those of the sessions, where they are known.
pub open spec fn with_known_sessions<M>(
    attrs: Map<Seq<char>, AttrView<M>>,
    prefix: Seq<char>,
    stats: Option<RuntimeSessionStats>,
) -> Map<Seq<char>, AttrView<M>> {
    match stats {
        Some(stats) => with_sessions(attrs, prefix, stats),
        None => attrs,
    }
}

/// The attributes with a moment, where it is known.
pub open spec fn with_known_nanos<M>(
    attrs: Map<Seq<char>, AttrView<M>>,
    name: Seq<char>,
    value: Option<u64>,
) -> Map<Seq<char>, AttrView<M>> {
    match value {
        Some(value) => attrs.insert(name, AttrView::Count(value as int)),
        None => attrs,
    }
}

/// Adds the sessions of a runtime under a common prefix.
pub fn insert_runtime_session_stats<M>(
    attrs: &mut AttrMap<M>,
    prefix: &str,
    stats: &RuntimeSessionStats,
)
    ensures
        final(attrs)@ == with_sessions(old(attrs)@, prefix@, *stats),
{
    let active = concat(prefix.to_owned(), ".active_sessions");
    attrs.insert_count(active.as_str(), stats.active_sessions);
    let idle = concat(prefix.to_owned(), ".idle_sessions");
    attrs.insert_count(idle.as_str(), stats.idle_sessions);
    let prefixes = concat(prefix.to_owned(), ".idle_resident_prefixes");
    attrs.insert_count(prefixes.as_str(), stats.idle_resident_prefixes);
    let counts = concat(prefix.to_owned(), ".tracked_token_counts");
    attrs.insert_count(counts.as_str(), stats.tracked_token_counts);
}

fn insert_known_sessions<M>(
    attrs: &mut AttrMap<M>,
    prefix: &str,
    stats: &Option<RuntimeSessionStats>,
)
    ensures
        final(attrs)@ == with_known_sessions(old(attrs)@, prefix@, *stats),
{
    if let Some(stats) = stats {
        insert_runtime_session_stats(attrs, prefix, stats);
    }
}

/// Adds a moment, where it is known.
pub fn insert_optional_unix_nanos<M>(attrs: &mut AttrMap<M>, name: &str, value: Option<u64>)
    ensures
        final(attrs)@ == with_known_nanos(old(attrs)@, name@, value),
{
    if let Some(value) = value {
        attrs.insert_number(name, value);
    }
}

/// The receipt of a message.
#[derive(Clone, Copy, Debug)]
pub struct RecvTrace<M> {
    pub start_unix_nanos: u64,
    pub end_unix_nanos: u64,
    pub read_ms: M,
    pub source_stage_index: i64,
    pub configured_upstream: Option<u64>,
    pub wire_bytes: usize,
    pub activation_bytes: usize,
}

impl<M> RecvTrace<M> {
    /// The attributes with those of the receipt.
    pub open spec fn attrs_after(self, attrs: Map<Seq<char>, AttrView<M>>) -> Map<
        Seq<char>,
        AttrView<M>,
    > {
        attrs.insert(
            "llama_stage.recv_start_unix_nanos"@,
            AttrView::Count(self.start_unix_nanos as int),
        ).insert(
            "llama_stage.recv_end_unix_nanos"@,
            AttrView::Count(self.end_unix_nanos as int),
        ).insert(
            "llama_stage.recv_read_ms"@,
            AttrView::Measure(self.read_ms),
        ).insert(
            "skippy.upstream_message_wait_ms"@,
            AttrView::Measure(self.read_ms),
        ).insert(
            "llama_stage.source_stage_index"@,
            AttrView::Signed(self.source_stage_index as int),
        ).insert(
            "llama_stage.configured_upstream_stage_index"@,
            match self.configured_upstream {
                Some(value) => AttrView::Count(value as int),
                None => AttrView::Null,
            },
        ).insert(
            "llama_stage.message_wire_bytes"@,
            AttrView::Count(self.wire_bytes as int),
        ).insert(
            "skippy.activation_bytes"@,
            AttrView::Count(self.activation_bytes as int),
        )
    }

    /// The attributes with those of the receipt.
    pub fn insert_attrs(&self, attrs: &mut AttrMap<M>) where M: Copy
        ensures
            final(attrs)@ == self.attrs_after(old(attrs)@),
    {
        attrs.insert_number("llama_stage.recv_start_unix_nanos", self.start_unix_nanos);
        attrs.insert_number("llama_stage.recv_end_unix_nanos", self.end_unix_nanos);
        attrs.insert_measure("llama_stage.recv_read_ms", self.read_ms);
        attrs.insert_measure("skippy.upstream_message_wait_ms", self.read_ms);
        attrs.insert("llama_stage.source_stage_index", AttrValue::Signed(self.source_stage_index));
        match self.configured_upstream {
            Some(value) => attrs.insert_number("llama_stage.configured_upstream_stage_index", value),
            None => attrs.insert("llama_stage.configured_upstream_stage_index", AttrValue::Null),
        }
        attrs.insert_count("llama_stage.message_wire_bytes", self.wire_bytes);
        attrs.insert_count("skippy.activation_bytes", self.activation_bytes);
    }
}

/// A prefix cache control.
#[derive(Clone, Copy, Debug)]
pub struct CacheControlTrace<M> {
    pub hit: bool,
    pub elapsed_ms: M,
}

impl<M> CacheControlTrace<M> {
    /// The attributes with those of the control.
    pub open spec fn attrs_after(self, attrs: Map<Seq<char>, AttrView<M>>) -> Map<
        Seq<char>,
        AttrView<M>,
    > {
        attrs.insert(
            "skippy.kv.control_hit"@,
            AttrView::Bool(self.hit),
        ).insert(
            "llama_stage.elapsed_ms"@,
            AttrView::Measure(self.elapsed_ms),
        )
    }

    /// The attributes with those of the control.
    pub fn insert_attrs(&self, attrs: &mut AttrMap<M>) where M: Copy
        ensures
            final(attrs)@ == self.attrs_after(old(attrs)@),
    {
        attrs.insert_bool("skippy.kv.control_hit", self.hit);
        attrs.insert_measure("llama_stage.elapsed_ms", self.elapsed_ms);
    }
}

/// A session that was cut back to the position of a message.
#[derive(Clone, Copy, Debug)]
pub struct AlignTrace<M> {
    pub before_token_count: u64,
    pub after_token_count: u64,
    pub elapsed_ms: M,
}

impl<M> AlignTrace<M> {
    /// The attributes with those of the alignment.
    pub open spec fn attrs_after(self, attrs: Map<Seq<char>, AttrView<M>>) -> Map<
        Seq<char>,
        AttrView<M>,
    > {
        attrs.insert(
            "llama_stage.session_auto_align_before_tokens"@,
            AttrView::Count(self.before_token_count as int),
        ).insert(
            "llama_stage.session_auto_align_after_tokens"@,
            AttrView::Count(self.after_token_count as int),
        ).insert(
            "llama_stage.elapsed_ms"@,
            AttrView::Measure(self.elapsed_ms),
        )
    }

    /// The attributes with those of the alignment.
    pub fn insert_attrs(&self, attrs: &mut AttrMap<M>) where M: Copy
        ensures
            final(attrs)@ == self.attrs_after(old(attrs)@),
    {
        attrs.insert_number(
            "llama_stage.session_auto_align_before_tokens",
            self.before_token_count,
        );
        attrs.insert_number("llama_stage.session_auto_align_after_tokens", self.after_token_count);
        attrs.insert_measure("llama_stage.elapsed_ms", self.elapsed_ms);
    }
}

/// The computation of a message.
#[derive(Clone, Copy, Debug)]
pub struct ComputeTrace<M> {
    pub output_activation_bytes: usize,
    pub compute_ms: M,
    pub input_activation_decode_ms: M,
    pub runtime_lock_wait_ms: M,
    pub runtime_lock_hold_ms: M,
    pub runtime_lock_acquires: usize,
    pub decode_batch_size: usize,
    pub decode_batch_wait_ms: M,
    pub sessions_before: Option<RuntimeSessionStats>,
    pub sessions_after: Option<RuntimeSessionStats>,
    pub restored_prefill: bool,
    pub compute_start_unix_nanos: u64,
    pub compute_end_unix_nanos: u64,
}

impl<M> ComputeTrace<M> {
    /// The attributes with those of the computation.
    pub open spec fn attrs_after(self, attrs: Map<Seq<char>, AttrView<M>>) -> Map<
        Seq<char>,
        AttrView<M>,
    > {
        with_known_sessions(
            with_known_sessions(
            attrs.insert(
            "skippy.output_activation_bytes"@,
            AttrView::Count(self.output_activation_bytes as int),
        ).insert(
            "skippy.compute_ms"@,
            AttrView::Measure(self.compute_ms),
        ).insert(
            "llama_stage.input_activation_decode_ms"@,
            AttrView::Measure(self.input_activation_decode_ms),
        ).insert(
            "llama_stage.runtime_lock_wait_ms"@,
            AttrView::Measure(self.runtime_lock_wait_ms),
        ).insert(
            "llama_stage.runtime_lock_hold_ms"@,
            AttrView::Measure(self.runtime_lock_hold_ms),
        ).insert(
            "llama_stage.runtime_lock_acquires"@,
            AttrView::Count(self.runtime_lock_acquires as int),
        ).insert(
            "llama_stage.decode_batch_size"@,
            AttrView::Count(self.decode_batch_size as int),
        ).insert(
            "llama_stage.decode_batch_wait_ms"@,
            AttrView::Measure(self.decode_batch_wait_ms),
        ),
            "llama_stage.runtime_sessions_before"@,
            self.sessions_before,
        ),
            "llama_stage.runtime_sessions_after"@,
            self.sessions_after,
        ).insert(
            "skippy.kv.restored_prefill"@,
            AttrView::Bool(self.restored_prefill),
        ).insert(
            "llama_stage.compute_start_unix_nanos"@,
            AttrView::Count(self.compute_start_unix_nanos as int),
        ).insert(
            "llama_stage.compute_end_unix_nanos"@,
            AttrView::Count(self.compute_end_unix_nanos as int),
        )
    }

    /// The attributes with those of the computation.
    pub fn insert_attrs(&self, attrs: &mut AttrMap<M>) where M: Copy
        ensures
            final(attrs)@ == self.attrs_after(old(attrs)@),
    {
        attrs.insert_count("skippy.output_activation_bytes", self.output_activation_bytes);
        attrs.insert_measure("skippy.compute_ms", self.compute_ms);
        attrs.insert_measure(
            "llama_stage.input_activation_decode_ms",
            self.input_activation_decode_ms,
        );
        attrs.insert_measure("llama_stage.runtime_lock_wait_ms", self.runtime_lock_wait_ms);
        attrs.insert_measure("llama_stage.runtime_lock_hold_ms", self.runtime_lock_hold_ms);
        attrs.insert_count("llama_stage.runtime_lock_acquires", self.runtime_lock_acquires);
        attrs.insert_count("llama_stage.decode_batch_size", self.decode_batch_size);
        attrs.insert_measure("llama_stage.decode_batch_wait_ms", self.decode_batch_wait_ms);
        insert_known_sessions(attrs, "llama_stage.runtime_sessions_before", &self.sessions_before);
        insert_known_sessions(attrs, "llama_stage.runtime_sessions_after", &self.sessions_after);
        attrs.insert_bool("skippy.kv.restored_prefill", self.restored_prefill);
        attrs.insert_number("llama_stage.compute_start_unix_nanos", self.compute_start_unix_nanos);
        attrs.insert_number("llama_stage.compute_end_unix_nanos", self.compute_end_unix_nanos);
    }
}

/// An activation on its way downstream.
#[derive(Clone, Copy, Debug)]
pub struct ForwardTrace<M> {
    pub forward_activation_bytes: usize,
    pub activation_encode_ms: M,
    pub output_activation_bytes: usize,
}

impl<M> ForwardTrace<M> {
    /// The attributes with those of the activation.
    pub open spec fn attrs_after(self, attrs: Map<Seq<char>, AttrView<M>>) -> Map<
        Seq<char>,
        AttrView<M>,
    > {
        attrs.insert(
            "llama_stage.forward_activation_bytes"@,
            AttrView::Count(self.forward_activation_bytes as int),
        ).insert(
            "llama_stage.activation_encode_ms"@,
            AttrView::Measure(self.activation_encode_ms),
        ).insert(
            "llama_stage.output_activation_bytes"@,
            AttrView::Count(self.output_activation_bytes as int),
        )
    }

    /// The attributes with those of the activation.
    pub fn insert_attrs(&self, attrs: &mut AttrMap<M>) where M: Copy
        ensures
            final(attrs)@ == self.attrs_after(old(attrs)@),
    {
        attrs.insert_count("llama_stage.forward_activation_bytes", self.forward_activation_bytes);
        attrs.insert_measure("llama_stage.activation_encode_ms", self.activation_encode_ms);
        attrs.insert_count("llama_stage.output_activation_bytes", self.output_activation_bytes);
    }
}

/// The times of a message.
#[derive(Clone, Copy, Debug)]
pub struct MessageTimes<M> {
    pub message_start_unix_nanos: u64,
    pub message_end_unix_nanos: u64,
    pub compute_start_unix_nanos: u64,
    pub compute_end_unix_nanos: u64,
    pub compute_ms: M,
    pub recv_read_ms: M,
    pub input_activation_decode_ms: M,
    pub runtime_lock_wait_ms: M,
    pub runtime_lock_hold_ms: M,
    pub runtime_lock_acquires: usize,
    pub sessions_before: Option<RuntimeSessionStats>,
    pub sessions_after: Option<RuntimeSessionStats>,
    pub forward_write_ms: M,
    pub activation_encode_ms: M,
    pub downstream_wait_ms: M,
    pub upstream_reply_ms: M,
    pub forward_write_start_unix_nanos: Option<u64>,
    pub forward_write_end_unix_nanos: Option<u64>,
    pub downstream_wait_start_unix_nanos: Option<u64>,
    pub downstream_wait_end_unix_nanos: Option<u64>,
    pub upstream_reply_start_unix_nanos: Option<u64>,
    pub upstream_reply_end_unix_nanos: Option<u64>,
    pub message_elapsed_ms: M,
    pub input_activation_bytes: usize,
    pub output_activation_bytes: usize,
}

impl<M> MessageTimes<M> {
    /// The attributes with the times.
    pub open spec fn attrs_after(self, attrs: Map<Seq<char>, AttrView<M>>) -> Map<
        Seq<char>,
        AttrView<M>,
    > {
        with_known_nanos(
            with_known_nanos(
            with_known_nanos(
            with_known_nanos(
            with_known_nanos(
            with_known_nanos(
            with_known_sessions(
            with_known_sessions(
            attrs.insert(
            "llama_stage.message_start_unix_nanos"@,
            AttrView::Count(self.message_start_unix_nanos as int),
        ).insert(
            "llama_stage.message_end_unix_nanos"@,
            AttrView::Count(self.message_end_unix_nanos as int),
        ).insert(
            "llama_stage.compute_start_unix_nanos"@,
            AttrView::Count(self.compute_start_unix_nanos as int),
        ).insert(
            "llama_stage.compute_end_unix_nanos"@,
            AttrView::Count(self.compute_end_unix_nanos as int),
        ).insert(
            "llama_stage.compute_ms"@,
            AttrView::Measure(self.compute_ms),
        ).insert(
            "llama_stage.recv_read_ms"@,
            AttrView::Measure(self.recv_read_ms),
        ).insert(
            "skippy.upstream_message_wait_ms"@,
            AttrView::Measure(self.recv_read_ms),
        ).insert(
            "llama_stage.input_activation_decode_ms"@,
            AttrView::Measure(self.input_activation_decode_ms),
        ).insert(
            "llama_stage.runtime_lock_wait_ms"@,
            AttrView::Measure(self.runtime_lock_wait_ms),
        ).insert(
            "llama_stage.runtime_lock_hold_ms"@,
            AttrView::Measure(self.runtime_lock_hold_ms),
        ).insert(
            "llama_stage.runtime_lock_acquires"@,
            AttrView::Count(self.runtime_lock_acquires as int),
        ),
            "llama_stage.runtime_sessions_before"@,
            self.sessions_before,
        ),
            "llama_stage.runtime_sessions_after"@,
            self.sessions_after,
        ).insert(
            "llama_stage.forward_write_ms"@,
            AttrView::Measure(self.forward_write_ms),
        ).insert(
            "llama_stage.activation_encode_ms"@,
            AttrView::Measure(self.activation_encode_ms),
        ).insert(
            "llama_stage.downstream_wait_ms"@,
            AttrView::Measure(self.downstream_wait_ms),
        ).insert(
            "skippy.compute_ms"@,
            AttrView::Measure(self.compute_ms),
        ).insert(
            "skippy.forward_write_ms"@,
            AttrView::Measure(self.forward_write_ms),
        ).insert(
            "skippy.downstream_wait_ms"@,
            AttrView::Measure(self.downstream_wait_ms),
        ).insert(
            "skippy.upstream_reply_ms"@,
            AttrView::Measure(self.upstream_reply_ms),
        ),
            "llama_stage.forward_write_start_unix_nanos"@,
            self.forward_write_start_unix_nanos,
        ),
            "llama_stage.forward_write_end_unix_nanos"@,
            self.forward_write_end_unix_nanos,
        ),
            "llama_stage.downstream_wait_start_unix_nanos"@,
            self.downstream_wait_start_unix_nanos,
        ),
            "llama_stage.downstream_wait_end_unix_nanos"@,
            self.downstream_wait_end_unix_nanos,
        ),
            "llama_stage.upstream_reply_start_unix_nanos"@,
            self.upstream_reply_start_unix_nanos,
        ),
            "llama_stage.upstream_reply_end_unix_nanos"@,
            self.upstream_reply_end_unix_nanos,
        ).insert(
            "skippy.message_elapsed_ms"@,
            AttrView::Measure(self.message_elapsed_ms),
        ).insert(
            "skippy.input_activation_bytes"@,
            AttrView::Count(self.input_activation_bytes as int),
        ).insert(
            "skippy.output_activation_bytes"@,
            AttrView::Count(self.output_activation_bytes as int),
        )
    }

    /// The attributes with the times.
    pub fn insert_attrs(&self, attrs: &mut AttrMap<M>) where M: Copy
        ensures
            final(attrs)@ == self.attrs_after(old(attrs)@),
    {
        attrs.insert_number("llama_stage.message_start_unix_nanos", self.message_start_unix_nanos);
        attrs.insert_number("llama_stage.message_end_unix_nanos", self.message_end_unix_nanos);
        attrs.insert_number("llama_stage.compute_start_unix_nanos", self.compute_start_unix_nanos);
        attrs.insert_number("llama_stage.compute_end_unix_nanos", self.compute_end_unix_nanos);
        attrs.insert_measure("llama_stage.compute_ms", self.compute_ms);
        attrs.insert_measure("llama_stage.recv_read_ms", self.recv_read_ms);
        attrs.insert_measure("skippy.upstream_message_wait_ms", self.recv_read_ms);
        attrs.insert_measure(
            "llama_stage.input_activation_decode_ms",
            self.input_activation_decode_ms,
        );
        attrs.insert_measure("llama_stage.runtime_lock_wait_ms", self.runtime_lock_wait_ms);
        attrs.insert_measure("llama_stage.runtime_lock_hold_ms", self.runtime_lock_hold_ms);
        attrs.insert_count("llama_stage.runtime_lock_acquires", self.runtime_lock_acquires);
        insert_known_sessions(attrs, "llama_stage.runtime_sessions_before", &self.sessions_before);
        insert_known_sessions(attrs, "llama_stage.runtime_sessions_after", &self.sessions_after);
        attrs.insert_measure("llama_stage.forward_write_ms", self.forward_write_ms);
        attrs.insert_measure("llama_stage.activation_encode_ms", self.activation_encode_ms);
        attrs.insert_measure("llama_stage.downstream_wait_ms", self.downstream_wait_ms);
        attrs.insert_measure("skippy.compute_ms", self.compute_ms);
        attrs.insert_measure("skippy.forward_write_ms", self.forward_write_ms);
        attrs.insert_measure("skippy.downstream_wait_ms", self.downstream_wait_ms);
        attrs.insert_measure("skippy.upstream_reply_ms", self.upstream_reply_ms);
        insert_optional_unix_nanos(
            attrs,
            "llama_stage.forward_write_start_unix_nanos",
            self.forward_write_start_unix_nanos,
        );
        insert_optional_unix_nanos(
            attrs,
            "llama_stage.forward_write_end_unix_nanos",
            self.forward_write_end_unix_nanos,
        );
        insert_optional_unix_nanos(
            attrs,
            "llama_stage.downstream_wait_start_unix_nanos",
            self.downstream_wait_start_unix_nanos,
        );
        insert_optional_unix_nanos(
            attrs,
            "llama_stage.downstream_wait_end_unix_nanos",
            self.downstream_wait_end_unix_nanos,
        );
        insert_optional_unix_nanos(
            attrs,
            "llama_stage.upstream_reply_start_unix_nanos",
            self.upstream_reply_start_unix_nanos,
        );
        insert_optional_unix_nanos(
            attrs,
            "llama_stage.upstream_reply_end_unix_nanos",
            self.upstream_reply_end_unix_nanos,
        );
        attrs.insert_measure("skippy.message_elapsed_ms", self.message_elapsed_ms);
        attrs.insert_count("skippy.input_activation_bytes", self.input_activation_bytes);
        attrs.insert_count("skippy.output_activation_bytes", self.output_activation_bytes);
    }
}

/// The attributes with those of what a connection did with a message.
pub open spec fn with_observation<M>(
    attrs: Map<Seq<char>, AttrView<M>>,
    observation: Observation,
) -> Map<Seq<char>, AttrView<M>> {
    attrs.insert(
        "llama_stage.forward_mode"@,
        AttrView::Text(observation.mode.name()),
    ).insert(
        "skippy.prefill_credit_limit"@,
        AttrView::Count(observation.credit_limit as int),
    ).insert(
        "skippy.prefill_pending_replies_before"@,
        AttrView::Count(observation.pending_before as int),
    ).insert(
        "skippy.prefill_pending_replies_after"@,
        AttrView::Count(observation.pending_after as int),
    ).insert(
        "skippy.prefill_credit_wait_count"@,
        AttrView::Count(observation.credit_waits as int),
    ).insert(
        "skippy.prefill_deferred_replies_drained"@,
        AttrView::Count(observation.drained as int),
    )
}

/// Adds what a connection did with a message.
pub fn insert_observation<M>(attrs: &mut AttrMap<M>, observation: &Observation)
    ensures
        final(attrs)@ == with_observation(old(attrs)@, *observation),
{
    attrs.insert_text("llama_stage.forward_mode", observation.mode.label());
    attrs.insert_count("skippy.prefill_credit_limit", observation.credit_limit);
    attrs.insert_count("skippy.prefill_pending_replies_before", observation.pending_before);
    attrs.insert_count("skippy.prefill_pending_replies_after", observation.pending_after);
    attrs.insert_count("skippy.prefill_credit_wait_count", observation.credit_waits);
    attrs.insert_count("skippy.prefill_deferred_replies_drained", observation.drained);
}

/// What the trace of a downstream write calls the mode.
pub open spec fn write_mode_name(mode: ForwardMode) -> Seq<char> {
    match mode {
        ForwardMode::AsyncEnqueue => "async_writer"@,
        _ => "sync_write"@,
    }
}

/// Adds how an activation is written downstream.
pub fn insert_write_mode<M>(attrs: &mut AttrMap<M>, mode: ForwardMode)
    ensures
        final(attrs)@ == old(attrs)@.insert(
            "llama_stage.forward_mode"@,
            AttrView::Text(write_mode_name(mode)),
        ),
{
    let name = match mode {
        ForwardMode::AsyncEnqueue => "async_writer",
        _ => "sync_write",
    };
    attrs.insert_text("llama_stage.forward_mode", name);
}

/// What became of a session that was dropped.
#[derive(Clone, Debug)]
pub struct SessionDropStats<M> {
    pub reset_ms: M,
    pub reset_session: bool,
    pub lane_discarded: bool,
    pub lane_discard_reason: Option<String>,
    pub stats_after: RuntimeSessionStats,
}

impl<M> SessionDropStats<M> {
    /// The attributes with those of the dropped session.
    pub open spec fn attrs_after(
        self,
        attrs: Map<Seq<char>, AttrView<M>>,
        runtime_lock_wait_ms: M,
    ) -> Map<Seq<char>, AttrView<M>> {
        let reset = attrs.insert(
            "llama_stage.runtime_lock_wait_ms"@,
            AttrView::Measure(runtime_lock_wait_ms),
        ).insert("llama_stage.session_reset_ms"@, AttrView::Measure(self.reset_ms)).insert(
            "llama_stage.session_reset"@,
            AttrView::Bool(self.reset_session),
        ).insert("llama_stage.lane_discarded"@, AttrView::Bool(self.lane_discarded));
        let explained = match self.lane_discard_reason {
            Some(reason) => reset.insert(
                "llama_stage.lane_discard_reason"@,
                AttrView::Text(reason@),
            ),
            None => reset,
        };
        with_sessions(explained, "llama_stage.runtime_sessions_after"@, self.stats_after)
    }

    /// Adds what became of the session.
    pub fn insert_attrs(&self, attrs: &mut AttrMap<M>, runtime_lock_wait_ms: M) where M: Copy
        ensures
            final(attrs)@ == self.attrs_after(old(attrs)@, runtime_lock_wait_ms),
    {
        attrs.insert_measure("llama_stage.runtime_lock_wait_ms", runtime_lock_wait_ms);
        attrs.insert_measure("llama_stage.session_reset_ms", self.reset_ms);
        attrs.insert_bool("llama_stage.session_reset", self.reset_session);
        attrs.insert_bool("llama_stage.lane_discarded", self.lane_discarded);
        if let Some(reason) = &self.lane_discard_reason {
            attrs.insert_text("llama_stage.lane_discard_reason", reason.as_str());
        }
        insert_runtime_session_stats(
            attrs,
            "llama_stage.runtime_sessions_after",
            &self.stats_after,
        );
    }
}

/// The kinds of reply that a stage sends.
#[derive(Clone, Copy, Debug, PartialEq, Eq, Structural)]
pub enum ReplyKind {
    Ack,
    PredictedToken,
    PredictedTokens,
}

impl ReplyKind {
    /// The name of the kind.
    pub open spec fn name(self) -> Seq<char> {
        match self {
            ReplyKind::Ack => "Ack"@,
            ReplyKind::PredictedToken => "PredictedToken"@,
            ReplyKind::PredictedTokens => "PredictedTokens"@,
        }
    }

    /// The name of the kind.
    pub fn label(&self) -> (label: &'static str)
        ensures
            label@ == self.name(),
    {
        match self {
            ReplyKind::Ack => "Ack",
            ReplyKind::PredictedToken => "PredictedToken",
            ReplyKind::PredictedTokens => "PredictedTokens",
        }
    }
}

/// The writing of a reply upstream.
#[derive(Clone, Copy, Debug)]
pub struct UpstreamReplyWriteSpan<M> {
    pub reply_kind: ReplyKind,
    pub predicted_token_count: usize,
    pub start_unix_nanos: u64,
    pub end_unix_nanos: u64,
    pub write_ms: M,
}

impl<M> UpstreamReplyWriteSpan<M> {
    /// The attributes with those of the reply, which takes the given bytes on
    /// the wire.
    pub open spec fn attrs_after(
        self,
        attrs: Map<Seq<char>, AttrView<M>>,
        reply_wire_bytes: usize,
    ) -> Map<Seq<char>, AttrView<M>> {
        attrs.insert("llama_stage.reply_kind"@, AttrView::Text(self.reply_kind.name())).insert(
            "llama_stage.reply_predicted_token_count"@,
            AttrView::Count(self.predicted_token_count as int),
        ).insert("llama_stage.upstream_reply_ms"@, AttrView::Measure(self.write_ms)).insert(
            "llama_stage.reply_wire_bytes"@,
            AttrView::Count(reply_wire_bytes as int),
        ).insert(
            "llama_stage.upstream_reply_start_unix_nanos"@,
            AttrView::Count(self.start_unix_nanos as int),
        ).insert(
            "llama_stage.upstream_reply_end_unix_nanos"@,
            AttrView::Count(self.end_unix_nanos as int),
        )
    }

    /// Adds the writing of the reply.
    pub fn insert_attrs(&self, attrs: &mut AttrMap<M>, reply_wire_bytes: usize) where M: Copy
        ensures
            final(attrs)@ == self.attrs_after(old(attrs)@, reply_wire_bytes),
    {
        attrs.insert_text("llama_stage.reply_kind", self.reply_kind.label());
        attrs.insert_count(
            "llama_stage.reply_predicted_token_count",
            self.predicted_token_count,
        );
        attrs.insert_measure("llama_stage.upstream_reply_ms", self.write_ms);
        attrs.insert_count("llama_stage.reply_wire_bytes", reply_wire_bytes);
        attrs.insert_number("llama_stage.upstream_reply_start_unix_nanos", self.start_unix_nanos);
        attrs.insert_number("llama_stage.upstream_reply_end_unix_nanos", self.end_unix_nanos);
    }
}

} // verus!
