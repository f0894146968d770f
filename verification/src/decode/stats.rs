//! What speculative decoding came to over a request.

use crate::attrs::{AttrMap, AttrValue, AttrView};
use crate::decode::verify_window::{VerifyWindowDecision, VerifyWindowDecisionKind};
use vstd::prelude::*;

verus! {

/// Counts and times of a request. Times are of a type `M` that is only stored
/// and reported.
#[derive(Clone, Copy, Debug)]
pub struct OpenAiSpeculativeStats<M> {
    pub windows: usize,
    pub draft_tokens: usize,
    pub accepted_tokens: usize,
    pub rejected_tokens: usize,
    pub full_accept_windows: usize,
    pub accepted_stop_windows: usize,
    pub rejected_windows: usize,
    pub early_reject_windows: usize,
    pub tail_reject_windows: usize,
    pub early_reject_stop_windows: usize,
    pub repair_required_windows: usize,
    pub first_reject_position_sum: usize,
    pub primary_verify_requests: usize,
    pub primary_verify_tokens: usize,
    pub primary_verify_elapsed_ms: M,
    pub primary_verify_stage0_compute_ms: M,
    pub primary_verify_runtime_lock_wait_ms: M,
    pub primary_verify_runtime_lock_hold_ms: M,
    pub primary_verify_activation_encode_ms: M,
    pub primary_verify_forward_write_ms: M,
    pub primary_verify_downstream_wait_ms: M,
    pub primary_verify_output_activation_bytes: usize,
    pub primary_verify_forward_activation_bytes: usize,
    pub checkpoint_ms: M,
    pub draft_reset_ms: M,
    pub draft_propose_ms: M,
    pub recovery_restores: usize,
    pub recovery_decode_repairs: usize,
    pub recovery_decode_elapsed_ms: M,
    pub recovery_reverify_tokens: usize,
    pub recovery_ms: M,
    pub recovery_restore_ms: M,
    pub recovery_restore_local_ms: M,
    pub recovery_restore_downstream_write_ms: M,
    pub recovery_restore_downstream_wait_ms: M,
    pub recovery_reverify_elapsed_ms: M,
    pub adaptive_window_start: usize,
    pub adaptive_window_final: usize,
    pub adaptive_window_max: usize,
    pub adaptive_window_min: usize,
    pub adaptive_window_max_seen: usize,
    pub adaptive_window_sum: usize,
    pub adaptive_window_grows: usize,
    pub adaptive_window_shrinks: usize,
    pub adaptive_window_enabled: bool,
}

/// The smaller of two counts, where zero stands for none yet.
pub open spec fn smallest_so_far(current: usize, candidate: usize) -> usize {
    if current == 0 || candidate < current {
        candidate
    } else {
        current
    }
}

/// The smaller of two counts, where zero stands for none yet.
pub fn nonzero_min(current: usize, candidate: usize) -> (min: usize)
    ensures
        min == smallest_so_far(current, candidate),
{
    if current == 0 || candidate < current {
        candidate
    } else {
        current
    }
}

/// The window after a rejection at the given input: one less, but no less
/// than what was accepted, and never none.
pub open spec fn shrunk_window(window: usize, repair_input_count: usize) -> int {
    let less = if window > 0 {
        window - 1
    } else {
        0
    };
    let kept = if less > repair_input_count {
        less
    } else {
        repair_input_count as int
    };
    if kept > 1 {
        kept
    } else {
        1
    }
}

impl<M> OpenAiSpeculativeStats<M> {
    /// A request without a window, with every time at `zero`.
    pub fn new(zero: M) -> (stats: OpenAiSpeculativeStats<M>) where M: Copy
        ensures
            stats == Self::empty(zero),
    {
        OpenAiSpeculativeStats {
            windows: 0,
            draft_tokens: 0,
            accepted_tokens: 0,
            rejected_tokens: 0,
            full_accept_windows: 0,
            accepted_stop_windows: 0,
            rejected_windows: 0,
            early_reject_windows: 0,
            tail_reject_windows: 0,
            early_reject_stop_windows: 0,
            repair_required_windows: 0,
            first_reject_position_sum: 0,
            primary_verify_requests: 0,
            primary_verify_tokens: 0,
            primary_verify_elapsed_ms: zero,
            primary_verify_stage0_compute_ms: zero,
            primary_verify_runtime_lock_wait_ms: zero,
            primary_verify_runtime_lock_hold_ms: zero,
            primary_verify_activation_encode_ms: zero,
            primary_verify_forward_write_ms: zero,
            primary_verify_downstream_wait_ms: zero,
            primary_verify_output_activation_bytes: 0,
            primary_verify_forward_activation_bytes: 0,
            checkpoint_ms: zero,
            draft_reset_ms: zero,
            draft_propose_ms: zero,
            recovery_restores: 0,
            recovery_decode_repairs: 0,
            recovery_decode_elapsed_ms: zero,
            recovery_reverify_tokens: 0,
            recovery_ms: zero,
            recovery_restore_ms: zero,
            recovery_restore_local_ms: zero,
            recovery_restore_downstream_write_ms: zero,
            recovery_restore_downstream_wait_ms: zero,
            recovery_reverify_elapsed_ms: zero,
            adaptive_window_start: 0,
            adaptive_window_final: 0,
            adaptive_window_max: 0,
            adaptive_window_min: 0,
            adaptive_window_max_seen: 0,
            adaptive_window_sum: 0,
            adaptive_window_grows: 0,
            adaptive_window_shrinks: 0,
            adaptive_window_enabled: false,
        }
    }

    /// A request without a window, with every time at `zero`.
    pub open spec fn empty(zero: M) -> OpenAiSpeculativeStats<M> {
        OpenAiSpeculativeStats {
            windows: 0,
            draft_tokens: 0,
            accepted_tokens: 0,
            rejected_tokens: 0,
            full_accept_windows: 0,
            accepted_stop_windows: 0,
            rejected_windows: 0,
            early_reject_windows: 0,
            tail_reject_windows: 0,
            early_reject_stop_windows: 0,
            repair_required_windows: 0,
            first_reject_position_sum: 0,
            primary_verify_requests: 0,
            primary_verify_tokens: 0,
            primary_verify_elapsed_ms: zero,
            primary_verify_stage0_compute_ms: zero,
            primary_verify_runtime_lock_wait_ms: zero,
            primary_verify_runtime_lock_hold_ms: zero,
            primary_verify_activation_encode_ms: zero,
            primary_verify_forward_write_ms: zero,
            primary_verify_downstream_wait_ms: zero,
            primary_verify_output_activation_bytes: 0,
            primary_verify_forward_activation_bytes: 0,
            checkpoint_ms: zero,
            draft_reset_ms: zero,
            draft_propose_ms: zero,
            recovery_restores: 0,
            recovery_decode_repairs: 0,
            recovery_decode_elapsed_ms: zero,
            recovery_reverify_tokens: 0,
            recovery_ms: zero,
            recovery_restore_ms: zero,
            recovery_restore_local_ms: zero,
            recovery_restore_downstream_write_ms: zero,
            recovery_restore_downstream_wait_ms: zero,
            recovery_reverify_elapsed_ms: zero,
            adaptive_window_start: 0,
            adaptive_window_final: 0,
            adaptive_window_max: 0,
            adaptive_window_min: 0,
            adaptive_window_max_seen: 0,
            adaptive_window_sum: 0,
            adaptive_window_grows: 0,
            adaptive_window_shrinks: 0,
            adaptive_window_enabled: false,
        }
    }

    /// The stats once a rejection has been counted.
    pub open spec fn after_reject(self, decision: VerifyWindowDecision) -> Self {
        match decision.repair_input_count {
            Some(count) => OpenAiSpeculativeStats {
                rejected_windows: (self.rejected_windows + 1) as usize,
                first_reject_position_sum: (self.first_reject_position_sum + count) as usize,
                ..self
            },
            None => self,
        }
    }

    /// The stats and the window once the window may have grown.
    pub open spec fn after_grow(self, window: usize, enabled: bool, max: usize) -> (Self, usize) {
        if enabled && window < max {
            (
                OpenAiSpeculativeStats {
                    adaptive_window_grows: (self.adaptive_window_grows + 1) as usize,
                    ..self
                },
                (window + 1) as usize,
            )
        } else {
            (self, window)
        }
    }

    /// The stats and the window once the window may have shrunk.
    pub open spec fn after_shrink(
        self,
        window: usize,
        enabled: bool,
        decision: VerifyWindowDecision,
    ) -> (Self, usize) {
        match decision.repair_input_count {
            Some(count) if enabled && shrunk_window(window, count) < window => (
                OpenAiSpeculativeStats {
                    adaptive_window_shrinks: (self.adaptive_window_shrinks + 1) as usize,
                    ..self
                },
                shrunk_window(window, count) as usize,
            ),
            _ => (self, window),
        }
    }

    /// The stats once the tokens of a window and its size have been counted.
    pub open spec fn after_tokens(self, decision: VerifyWindowDecision, window: usize) -> Self {
        let rejected = decision.kind is TailReject || decision.kind is EarlyReject
            || decision.kind is EarlyRejectStop;
        OpenAiSpeculativeStats {
            accepted_tokens: (self.accepted_tokens + decision.accepted_before_reject) as usize,
            rejected_tokens: if rejected {
                (self.rejected_tokens + 1) as usize
            } else {
                self.rejected_tokens
            },
            adaptive_window_sum: (self.adaptive_window_sum + window) as usize,
            adaptive_window_min: smallest_so_far(self.adaptive_window_min, window),
            adaptive_window_max_seen: if window > self.adaptive_window_max_seen {
                window
            } else {
                self.adaptive_window_max_seen
            },
            ..self
        }
    }

    /// The stats and the window once a window has been judged.
    pub open spec fn after_decision(
        self,
        decision: VerifyWindowDecision,
        window: usize,
        enabled: bool,
        max: usize,
    ) -> (Self, usize) {
        let counted = self.after_tokens(decision, window);
        match decision.kind {
            VerifyWindowDecisionKind::FullAccept => OpenAiSpeculativeStats {
                full_accept_windows: (counted.full_accept_windows + 1) as usize,
                ..counted
            }.after_grow(window, enabled, max),
            VerifyWindowDecisionKind::AcceptedStop => (
                OpenAiSpeculativeStats {
                    accepted_stop_windows: (counted.accepted_stop_windows + 1) as usize,
                    ..counted
                },
                window,
            ),
            VerifyWindowDecisionKind::TailReject => OpenAiSpeculativeStats {
                tail_reject_windows: (counted.tail_reject_windows + 1) as usize,
                ..counted.after_reject(decision)
            }.after_grow(window, enabled, max),
            VerifyWindowDecisionKind::EarlyReject => OpenAiSpeculativeStats {
                early_reject_windows: (counted.early_reject_windows + 1) as usize,
                repair_required_windows: (counted.repair_required_windows + 1) as usize,
                ..counted.after_reject(decision)
            }.after_shrink(window, enabled, decision),
            VerifyWindowDecisionKind::EarlyRejectStop => (
                OpenAiSpeculativeStats {
                    early_reject_windows: (counted.early_reject_windows + 1) as usize,
                    early_reject_stop_windows: (counted.early_reject_stop_windows + 1) as usize,
                    ..counted.after_reject(decision)
                },
                window,
            ),
        }
    }

    /// Whether every counter can take one more window.
    pub open spec fn has_room(self, decision: VerifyWindowDecision, window: usize) -> bool {
        &&& self.accepted_tokens + decision.accepted_before_reject <= usize::MAX
        &&& self.adaptive_window_sum + window <= usize::MAX
        &&& self.first_reject_position_sum + (match decision.repair_input_count {
            Some(count) => count as int,
            None => 0,
        }) <= usize::MAX
        &&& self.rejected_tokens < usize::MAX
        &&& self.full_accept_windows < usize::MAX
        &&& self.accepted_stop_windows < usize::MAX
        &&& self.rejected_windows < usize::MAX
        &&& self.tail_reject_windows < usize::MAX
        &&& self.early_reject_windows < usize::MAX
        &&& self.early_reject_stop_windows < usize::MAX
        &&& self.repair_required_windows < usize::MAX
        &&& self.adaptive_window_grows < usize::MAX
        &&& self.adaptive_window_shrinks < usize::MAX
    }

    /// Counts a window that has been judged, and adapts the window.
    pub fn observe_verify_decision(
        &mut self,
        decision: VerifyWindowDecision,
        adaptive_window: &mut usize,
        adaptive_enabled: bool,
        max_speculative_window: usize,
    )
        requires
            old(self).has_room(decision, *old(adaptive_window)),
        ensures
            (*final(self), *final(adaptive_window)) == old(self).after_decision(
                decision,
                *old(adaptive_window),
                adaptive_enabled,
                max_speculative_window,
            ),
    {
        self.accepted_tokens = self.accepted_tokens + decision.accepted_before_reject;
        if decision.rejected() {
            self.rejected_tokens = self.rejected_tokens + 1;
        }
        let window: usize = *adaptive_window;
        self.adaptive_window_sum = self.adaptive_window_sum + window;
        self.adaptive_window_min = nonzero_min(self.adaptive_window_min, window);
        if window > self.adaptive_window_max_seen {
            self.adaptive_window_max_seen = window;
        }
        match decision.kind {
            VerifyWindowDecisionKind::FullAccept => {
                self.full_accept_windows = self.full_accept_windows + 1;
                self.grow_adaptive_window(
                    adaptive_window,
                    adaptive_enabled,
                    max_speculative_window,
                );
            },
            VerifyWindowDecisionKind::AcceptedStop => {
                self.accepted_stop_windows = self.accepted_stop_windows + 1;
            },
            VerifyWindowDecisionKind::TailReject => {
                self.observe_reject(decision);
                self.tail_reject_windows = self.tail_reject_windows + 1;
                self.grow_adaptive_window(
                    adaptive_window,
                    adaptive_enabled,
                    max_speculative_window,
                );
            },
            VerifyWindowDecisionKind::EarlyReject => {
                self.observe_reject(decision);
                self.early_reject_windows = self.early_reject_windows + 1;
                self.repair_required_windows = self.repair_required_windows + 1;
                self.shrink_adaptive_window(adaptive_window, adaptive_enabled, decision);
            },
            VerifyWindowDecisionKind::EarlyRejectStop => {
                self.observe_reject(decision);
                self.early_reject_windows = self.early_reject_windows + 1;
                self.early_reject_stop_windows = self.early_reject_stop_windows + 1;
            },
        }
    }

    /// Counts where a window was rejected.
    pub fn observe_reject(&mut self, decision: VerifyWindowDecision)
        requires
            decision.repair_input_count matches Some(count) ==> old(self).rejected_windows
                < usize::MAX && old(self).first_reject_position_sum + count <= usize::MAX,
        ensures
            *final(self) == old(self).after_reject(decision),
    {
        if let Some(repair_input_count) = decision.repair_input_count {
            self.rejected_windows = self.rejected_windows + 1;
            self.first_reject_position_sum = self.first_reject_position_sum + repair_input_count;
        }
    }

    /// Widens the window by one token, up to the widest.
    pub fn grow_adaptive_window(
        &mut self,
        adaptive_window: &mut usize,
        adaptive_enabled: bool,
        max_speculative_window: usize,
    )
        requires
            old(self).adaptive_window_grows < usize::MAX,
        ensures
            (*final(self), *final(adaptive_window)) == old(self).after_grow(
                *old(adaptive_window),
                adaptive_enabled,
                max_speculative_window,
            ),
    {
        if adaptive_enabled && *adaptive_window < max_speculative_window {
            *adaptive_window = *adaptive_window + 1;
            self.adaptive_window_grows = self.adaptive_window_grows + 1;
        }
    }

    /// Narrows the window by one token, down to what was accepted.
    pub fn shrink_adaptive_window(
        &mut self,
        adaptive_window: &mut usize,
        adaptive_enabled: bool,
        decision: VerifyWindowDecision,
    )
        requires
            old(self).adaptive_window_shrinks < usize::MAX,
        ensures
            (*final(self), *final(adaptive_window)) == old(self).after_shrink(
                *old(adaptive_window),
                adaptive_enabled,
                decision,
            ),
    {
        if !adaptive_enabled {
            return;
        }
        if let Some(repair_input_count) = decision.repair_input_count {
            let window: usize = *adaptive_window;
            let less: usize = if window > 0 {
                window - 1
            } else {
                0
            };
            let kept: usize = if less > repair_input_count {
                less
            } else {
                repair_input_count
            };
            let next_window: usize = if kept > 1 {
                kept
            } else {
                1
            };
            if next_window < window {
                *adaptive_window = next_window;
                self.adaptive_window_shrinks = self.adaptive_window_shrinks + 1;
            }
        }
    }

    /// Adds the times of verification.
    pub fn insert_response_timings(&self, timings: &mut AttrMap<M>) where M: Copy
        ensures
            final(timings)@ == old(timings)@.insert(
                "verify_window_verify_elapsed_ms"@,
                AttrView::Measure(self.primary_verify_elapsed_ms),
            ).insert(
                "verify_window_stage0_compute_ms"@,
                AttrView::Measure(self.primary_verify_stage0_compute_ms),
            ).insert(
                "verify_window_forward_write_ms"@,
                AttrView::Measure(self.primary_verify_forward_write_ms),
            ).insert(
                "verify_window_downstream_wait_ms"@,
                AttrView::Measure(self.primary_verify_downstream_wait_ms),
            ),
    {
        timings.insert_measure("verify_window_verify_elapsed_ms", self.primary_verify_elapsed_ms);
        timings.insert_measure(
            "verify_window_stage0_compute_ms",
            self.primary_verify_stage0_compute_ms,
        );
        timings.insert_measure(
            "verify_window_forward_write_ms",
            self.primary_verify_forward_write_ms,
        );
        timings.insert_measure(
            "verify_window_downstream_wait_ms",
            self.primary_verify_downstream_wait_ms,
        );
    }

    /// The attributes of a request: only that speculation was off, or all.
    pub open spec fn attrs_after(self, attrs: Map<Seq<char>, AttrView<M>>) -> Map<
        Seq<char>,
        AttrView<M>,
    > {
        if self.windows == 0 {
            attrs.insert("llama_stage.spec.enabled"@, AttrView::Bool(false))
        } else {
            attrs.insert(
                "llama_stage.spec.enabled"@,
                AttrView::Bool(true),
            ).insert(
                "llama_stage.spec.windows"@,
                AttrView::Count(self.windows as int),
            ).insert(
                "llama_stage.spec.proposed"@,
                AttrView::Count(self.draft_tokens as int),
            ).insert(
                "llama_stage.spec.accepted"@,
                AttrView::Count(self.accepted_tokens as int),
            ).insert(
                "llama_stage.spec.rejected"@,
                AttrView::Count(self.rejected_tokens as int),
            ).insert(
                "llama_stage.spec.accept_rate"@,
                AttrView::Ratio {
                    part: self.accepted_tokens as int,
                    whole: self.draft_tokens as int,
                },
            ).insert(
                "llama_stage.spec.full_accept_windows"@,
                AttrView::Count(self.full_accept_windows as int),
            ).insert(
                "llama_stage.spec.accepted_stop_windows"@,
                AttrView::Count(self.accepted_stop_windows as int),
            ).insert(
                "llama_stage.spec.rejected_windows"@,
                AttrView::Count(self.rejected_windows as int),
            ).insert(
                "llama_stage.spec.early_reject_windows"@,
                AttrView::Count(self.early_reject_windows as int),
            ).insert(
                "llama_stage.spec.tail_reject_windows"@,
                AttrView::Count(self.tail_reject_windows as int),
            ).insert(
                "llama_stage.spec.repair_required_windows"@,
                AttrView::Count(self.repair_required_windows as int),
            ).insert(
                "llama_stage.spec.draft_reset_ms"@,
                AttrView::Measure(self.draft_reset_ms),
            ).insert(
                "llama_stage.spec.draft_propose_ms"@,
                AttrView::Measure(self.draft_propose_ms),
            ).insert(
                "llama_stage.spec.primary_verify_elapsed_ms"@,
                AttrView::Measure(self.primary_verify_elapsed_ms),
            ).insert(
                "llama_stage.spec.primary_verify_stage0_compute_ms"@,
                AttrView::Measure(self.primary_verify_stage0_compute_ms),
            ).insert(
                "llama_stage.spec.primary_verify_runtime_lock_wait_ms"@,
                AttrView::Measure(self.primary_verify_runtime_lock_wait_ms),
            ).insert(
                "llama_stage.spec.primary_verify_runtime_lock_hold_ms"@,
                AttrView::Measure(self.primary_verify_runtime_lock_hold_ms),
            ).insert(
                "llama_stage.spec.primary_verify_activation_encode_ms"@,
                AttrView::Measure(self.primary_verify_activation_encode_ms),
            ).insert(
                "llama_stage.spec.primary_verify_forward_write_ms"@,
                AttrView::Measure(self.primary_verify_forward_write_ms),
            ).insert(
                "llama_stage.spec.primary_verify_downstream_wait_ms"@,
                AttrView::Measure(self.primary_verify_downstream_wait_ms),
            ).insert(
                "llama_stage.spec.primary_verify_output_activation_bytes"@,
                AttrView::Count(self.primary_verify_output_activation_bytes as int),
            ).insert(
                "llama_stage.spec.primary_verify_forward_activation_bytes"@,
                AttrView::Count(self.primary_verify_forward_activation_bytes as int),
            ).insert(
                "llama_stage.spec.checkpoint_ms"@,
                AttrView::Measure(self.checkpoint_ms),
            ).insert(
                "llama_stage.spec.recovery_restores"@,
                AttrView::Count(self.recovery_restores as int),
            ).insert(
                "llama_stage.spec.recovery_ms"@,
                AttrView::Measure(self.recovery_ms),
            ).insert(
                "llama_stage.spec.recovery_restore_local_ms"@,
                AttrView::Measure(self.recovery_restore_local_ms),
            ).insert(
                "llama_stage.spec.recovery_restore_downstream_write_ms"@,
                AttrView::Measure(self.recovery_restore_downstream_write_ms),
            ).insert(
                "llama_stage.spec.recovery_restore_downstream_wait_ms"@,
                AttrView::Measure(self.recovery_restore_downstream_wait_ms),
            ).insert(
                "llama_stage.spec.adaptive_enabled"@,
                AttrView::Bool(self.adaptive_window_enabled),
            ).insert(
                "llama_stage.spec.window_start"@,
                AttrView::Count(self.adaptive_window_start as int),
            ).insert(
                "llama_stage.spec.window_final"@,
                AttrView::Count(self.adaptive_window_final as int),
            ).insert(
                "llama_stage.spec.window_max"@,
                AttrView::Count(self.adaptive_window_max as int),
            ).insert(
                "llama_stage.spec.window_min"@,
                AttrView::Count(self.adaptive_window_min as int),
            ).insert(
                "llama_stage.spec.window_max_seen"@,
                AttrView::Count(self.adaptive_window_max_seen as int),
            ).insert(
                "llama_stage.spec.window_grows"@,
                AttrView::Count(self.adaptive_window_grows as int),
            ).insert(
                "llama_stage.spec.window_shrinks"@,
                AttrView::Count(self.adaptive_window_shrinks as int),
            )
        }
    }

    /// Adds the attributes of the request.
    pub fn insert_attrs(&self, attrs: &mut AttrMap<M>) where M: Copy
        ensures
            final(attrs)@ == self.attrs_after(old(attrs)@),
    {
        if self.windows == 0 {
            attrs.insert_bool("llama_stage.spec.enabled", false);
            return;
        }
        attrs.insert_bool("llama_stage.spec.enabled", true);
        attrs.insert_count("llama_stage.spec.windows", self.windows);
        attrs.insert_count("llama_stage.spec.proposed", self.draft_tokens);
        attrs.insert_count("llama_stage.spec.accepted", self.accepted_tokens);
        attrs.insert_count("llama_stage.spec.rejected", self.rejected_tokens);
        attrs.insert(
            "llama_stage.spec.accept_rate",
            AttrValue::Ratio {
                part: self.accepted_tokens as u64,
                whole: self.draft_tokens as u64,
            },
        );
        attrs.insert_count("llama_stage.spec.full_accept_windows", self.full_accept_windows);
        attrs.insert_count("llama_stage.spec.accepted_stop_windows", self.accepted_stop_windows);
        attrs.insert_count("llama_stage.spec.rejected_windows", self.rejected_windows);
        attrs.insert_count("llama_stage.spec.early_reject_windows", self.early_reject_windows);
        attrs.insert_count("llama_stage.spec.tail_reject_windows", self.tail_reject_windows);
        attrs.insert_count(
            "llama_stage.spec.repair_required_windows",
            self.repair_required_windows,
        );
        attrs.insert_measure("llama_stage.spec.draft_reset_ms", self.draft_reset_ms);
        attrs.insert_measure("llama_stage.spec.draft_propose_ms", self.draft_propose_ms);
        attrs.insert_measure(
            "llama_stage.spec.primary_verify_elapsed_ms",
            self.primary_verify_elapsed_ms,
        );
        attrs.insert_measure(
            "llama_stage.spec.primary_verify_stage0_compute_ms",
            self.primary_verify_stage0_compute_ms,
        );
        attrs.insert_measure(
            "llama_stage.spec.primary_verify_runtime_lock_wait_ms",
            self.primary_verify_runtime_lock_wait_ms,
        );
        attrs.insert_measure(
            "llama_stage.spec.primary_verify_runtime_lock_hold_ms",
            self.primary_verify_runtime_lock_hold_ms,
        );
        attrs.insert_measure(
            "llama_stage.spec.primary_verify_activation_encode_ms",
            self.primary_verify_activation_encode_ms,
        );
        attrs.insert_measure(
            "llama_stage.spec.primary_verify_forward_write_ms",
            self.primary_verify_forward_write_ms,
        );
        attrs.insert_measure(
            "llama_stage.spec.primary_verify_downstream_wait_ms",
            self.primary_verify_downstream_wait_ms,
        );
        attrs.insert_count(
            "llama_stage.spec.primary_verify_output_activation_bytes",
            self.primary_verify_output_activation_bytes,
        );
        attrs.insert_count(
            "llama_stage.spec.primary_verify_forward_activation_bytes",
            self.primary_verify_forward_activation_bytes,
        );
        attrs.insert_measure("llama_stage.spec.checkpoint_ms", self.checkpoint_ms);
        attrs.insert_count("llama_stage.spec.recovery_restores", self.recovery_restores);
        attrs.insert_measure("llama_stage.spec.recovery_ms", self.recovery_ms);
        attrs.insert_measure(
            "llama_stage.spec.recovery_restore_local_ms",
            self.recovery_restore_local_ms,
        );
        attrs.insert_measure(
            "llama_stage.spec.recovery_restore_downstream_write_ms",
            self.recovery_restore_downstream_write_ms,
        );
        attrs.insert_measure(
            "llama_stage.spec.recovery_restore_downstream_wait_ms",
            self.recovery_restore_downstream_wait_ms,
        );
        attrs.insert_bool("llama_stage.spec.adaptive_enabled", self.adaptive_window_enabled);
        attrs.insert_count("llama_stage.spec.window_start", self.adaptive_window_start);
        attrs.insert_count("llama_stage.spec.window_final", self.adaptive_window_final);
        attrs.insert_count("llama_stage.spec.window_max", self.adaptive_window_max);
        attrs.insert_count("llama_stage.spec.window_min", self.adaptive_window_min);
        attrs.insert_count("llama_stage.spec.window_max_seen", self.adaptive_window_max_seen);
        attrs.insert_count("llama_stage.spec.window_grows", self.adaptive_window_grows);
        attrs.insert_count("llama_stage.spec.window_shrinks", self.adaptive_window_shrinks);
    }
}

/// Every judged window is counted under exactly one of four headings, and the
/// rejections under one of two. Where just the rejecting kinds of decision ask
/// for inputs to be repaired, each rejected token is that of a rejected window.
pub proof fn law_each_window_is_counted_once<M>(
    stats: OpenAiSpeculativeStats<M>,
    decision: VerifyWindowDecision,
    window: usize,
    enabled: bool,
    max: usize,
)
    requires
        stats.has_room(decision, window),
    ensures
        ({
            let after = stats.after_decision(decision, window, enabled, max).0;
            &&& after.full_accept_windows + after.accepted_stop_windows + after.tail_reject_windows
                + after.early_reject_windows == stats.full_accept_windows
                + stats.accepted_stop_windows + stats.tail_reject_windows
                + stats.early_reject_windows + 1
            &&& after.rejected_tokens - stats.rejected_tokens == (after.tail_reject_windows
                + after.early_reject_windows) - (stats.tail_reject_windows
                + stats.early_reject_windows)
            &&& after.early_reject_windows - stats.early_reject_windows == (
            after.repair_required_windows + after.early_reject_stop_windows) - (
            stats.repair_required_windows + stats.early_reject_stop_windows)
            &&& after.accepted_tokens == stats.accepted_tokens + decision.accepted_before_reject
            &&& (decision.repair_input_count is Some <==> decision.rejects()) ==> (
            after.rejected_windows - stats.rejected_windows == after.rejected_tokens
                - stats.rejected_tokens)
        }),
{
}

/// A window between one token and the widest stays there, moves by whole
/// tokens only while it adapts, and grows by at most one.
pub proof fn law_adaptive_window_stays_in_bounds<M>(
    stats: OpenAiSpeculativeStats<M>,
    decision: VerifyWindowDecision,
    window: usize,
    enabled: bool,
    max: usize,
)
    requires
        1 <= window <= max,
    ensures
        ({
            let next = stats.after_decision(decision, window, enabled, max).1;
            &&& 1 <= next <= max
            &&& next <= window + 1
            &&& !enabled ==> next == window
            &&& decision.kind is FullAccept || decision.kind is TailReject ==> next >= window
            &&& decision.kind is EarlyReject ==> next <= window
        }),
{
}

/// How a window adapts, and what is counted of it. Where it adapts, it grows by
/// one up to the widest after a window that was taken whole or but for its tail,
/// and after an earlier rejection it shrinks by one, not below the inputs up to
/// the rejection and not below one. Where generation ends, it stays.
pub proof fn law_window_follows_what_was_accepted<M>(
    stats: OpenAiSpeculativeStats<M>,
    decision: VerifyWindowDecision,
    window: usize,
    enabled: bool,
    max: usize,
)
    requires
        stats.has_room(decision, window),
    ensures
        ({
            let (after, next) = stats.after_decision(decision, window, enabled, max);
            let kind = decision.kind;
            let good = kind == VerifyWindowDecisionKind::FullAccept || kind
                == VerifyWindowDecisionKind::TailReject;
            let grows = good && enabled && window < max;
            let shrinks = kind == VerifyWindowDecisionKind::EarlyReject && enabled && window > 1 && (
            decision.repair_input_count matches Some(count) && count < window);
            &&& grows ==> next == window + 1 && after.adaptive_window_grows
                == stats.adaptive_window_grows + 1
            &&& shrinks ==> next == window - 1 && after.adaptive_window_shrinks
                == stats.adaptive_window_shrinks + 1
            &&& !grows ==> after.adaptive_window_grows == stats.adaptive_window_grows
            &&& !shrinks ==> after.adaptive_window_shrinks == stats.adaptive_window_shrinks
            &&& !grows && !shrinks ==> next == window
            &&& after.adaptive_window_sum == stats.adaptive_window_sum + window
            &&& after.adaptive_window_max_seen >= window && after.adaptive_window_max_seen
                >= stats.adaptive_window_max_seen
            &&& after.adaptive_window_max_seen == window || after.adaptive_window_max_seen
                == stats.adaptive_window_max_seen
            &&& stats.adaptive_window_min == 0 ==> after.adaptive_window_min == window
            &&& stats.adaptive_window_min > 0 ==> after.adaptive_window_min <= window
                && after.adaptive_window_min <= stats.adaptive_window_min && (
            after.adaptive_window_min == window || after.adaptive_window_min
                == stats.adaptive_window_min)
        }),
{
}

/// Each kind of end is counted as what it is, where a window was rejected is
/// added up, and nothing else is touched.
pub proof fn law_ends_are_counted_by_kind<M>(
    stats: OpenAiSpeculativeStats<M>,
    decision: VerifyWindowDecision,
    window: usize,
    enabled: bool,
    max: usize,
)
    requires
        stats.has_room(decision, window),
    ensures
        ({
            let after = stats.after_decision(decision, window, enabled, max).0;
            let kind = decision.kind;
            let one = |counts: bool|
                if counts {
                    1int
                } else {
                    0
                };
            let tail = kind == VerifyWindowDecisionKind::TailReject;
            let early = kind == VerifyWindowDecisionKind::EarlyReject;
            let stop = kind == VerifyWindowDecisionKind::EarlyRejectStop;
            &&& after.full_accept_windows == stats.full_accept_windows + one(
                kind == VerifyWindowDecisionKind::FullAccept,
            )
            &&& after.accepted_stop_windows == stats.accepted_stop_windows + one(
                kind == VerifyWindowDecisionKind::AcceptedStop,
            )
            &&& after.tail_reject_windows == stats.tail_reject_windows + one(tail)
            &&& after.early_reject_windows == stats.early_reject_windows + one(early || stop)
            &&& after.early_reject_stop_windows == stats.early_reject_stop_windows + one(stop)
            &&& after.repair_required_windows == stats.repair_required_windows + one(early)
            &&& after.rejected_tokens == stats.rejected_tokens + one(tail || early || stop)
            &&& after.accepted_tokens == stats.accepted_tokens + decision.accepted_before_reject
            &&& (tail || early || stop) ==> (decision.repair_input_count matches Some(count)
                ==> after.rejected_windows == stats.rejected_windows + 1
                && after.first_reject_position_sum == stats.first_reject_position_sum + count)
            &&& decision.repair_input_count is None || !(tail || early || stop)
                ==> after.rejected_windows == stats.rejected_windows
                && after.first_reject_position_sum == stats.first_reject_position_sum
            &&& after.windows == stats.windows
            &&& after.draft_tokens == stats.draft_tokens
            &&& after.recovery_restores == stats.recovery_restores
            &&& after.primary_verify_requests == stats.primary_verify_requests
            &&& after.adaptive_window_start == stats.adaptive_window_start
            &&& after.adaptive_window_enabled == stats.adaptive_window_enabled
        }),
{
}

} // verus!
