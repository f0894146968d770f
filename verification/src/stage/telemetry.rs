//! Counters that a stage adds to its replies.

use vstd::prelude::*;

verus! {

/// What the replies to verify windows add up to, times in microseconds.
#[derive(Clone, Copy, PartialEq, Eq, Structural, Debug)]
pub struct VerifyWindowTotals {
    pub verify_window_compute_us: i64,
    pub verify_window_forward_write_us: i64,
    pub verify_window_downstream_wait_us: i64,
    pub verify_window_total_us: i64,
    pub verify_window_stage_count: i64,
    pub verify_window_request_count: i64,
    pub verify_window_token_count: i64,
    pub verify_window_max_tokens: i64,
}

/// The tokens of a message, none where the count is negative.
pub open spec fn token_total(token_count: i32) -> int {
    if token_count > 0 {
        token_count as int
    } else {
        0
    }
}

/// Whether a sum of `i64`s is one.
pub open spec fn fits(value: int) -> bool {
    i64::MIN <= value <= i64::MAX
}

/// Adds one verify window; other messages change nothing.
pub fn record_verify_window_timing(
    totals: &mut VerifyWindowTotals,
    verify_window: bool,
    token_count: i32,
    compute_us: i64,
    forward_write_us: i64,
    downstream_wait_us: i64,
)
    requires
        verify_window ==> {
            &&& fits(old(totals).verify_window_compute_us + compute_us)
            &&& fits(old(totals).verify_window_forward_write_us + forward_write_us)
            &&& fits(old(totals).verify_window_downstream_wait_us + downstream_wait_us)
            &&& fits(compute_us + forward_write_us)
            &&& fits(compute_us + forward_write_us + downstream_wait_us)
            &&& fits(
                old(totals).verify_window_total_us + compute_us + forward_write_us
                    + downstream_wait_us,
            )
            &&& fits(old(totals).verify_window_stage_count + 1)
            &&& fits(old(totals).verify_window_request_count + 1)
            &&& fits(old(totals).verify_window_token_count + token_total(token_count))
        },
    ensures
        !verify_window ==> *final(totals) == *old(totals),
        verify_window ==> {
            &&& final(totals).verify_window_compute_us == old(totals).verify_window_compute_us
                + compute_us
            &&& final(totals).verify_window_forward_write_us
                == old(totals).verify_window_forward_write_us + forward_write_us
            &&& final(totals).verify_window_downstream_wait_us
                == old(totals).verify_window_downstream_wait_us + downstream_wait_us
            &&& final(totals).verify_window_total_us == old(totals).verify_window_total_us
                + compute_us + forward_write_us + downstream_wait_us
            &&& final(totals).verify_window_stage_count == old(totals).verify_window_stage_count + 1
            &&& final(totals).verify_window_request_count
                == old(totals).verify_window_request_count + 1
            &&& final(totals).verify_window_token_count == old(totals).verify_window_token_count
                + token_total(token_count)
            &&& final(totals).verify_window_max_tokens == if token_total(token_count)
                > old(totals).verify_window_max_tokens {
                token_total(token_count)
            } else {
                old(totals).verify_window_max_tokens as int
            }
        },
{
    if !verify_window {
        return;
    }
    let tokens: i64 = if token_count > 0 {
        token_count as i64
    } else {
        0
    };
    totals.verify_window_compute_us = totals.verify_window_compute_us + compute_us;
    totals.verify_window_forward_write_us = totals.verify_window_forward_write_us
        + forward_write_us;
    totals.verify_window_downstream_wait_us = totals.verify_window_downstream_wait_us
        + downstream_wait_us;
    let spent: i64 = compute_us + forward_write_us + downstream_wait_us;
    totals.verify_window_total_us = totals.verify_window_total_us + spent;
    totals.verify_window_stage_count = totals.verify_window_stage_count + 1;
    totals.verify_window_request_count = totals.verify_window_request_count + 1;
    totals.verify_window_token_count = totals.verify_window_token_count + tokens;
    if tokens > totals.verify_window_max_tokens {
        totals.verify_window_max_tokens = tokens;
    }
}

/// How many predicted tokens a reply counts: those of a verify window as they
/// are, and at least one for any other message.
pub fn predicted_token_count(verify_window: bool, predicted: usize) -> (count: usize)
    ensures
        count == if !verify_window && predicted == 0 {
            1
        } else {
            predicted
        },
{
    if !verify_window && predicted == 0 {
        1
    } else {
        predicted
    }
}

/// What was recorded of a prefill.
#[derive(Clone, Copy, PartialEq, Eq, Structural, Debug)]
pub struct PrefillRecord {
    pub recorded_pages: u64,
    pub recorded_activations: u64,
    pub recorded_activation_bytes: u64,
    pub evicted_activation_entries: u64,
    pub evicted_activation_bytes: u64,
}

/// The sum, or the greatest `u64` where it is greater.
pub open spec fn saturated(left: u64, right: u64) -> int {
    if left + right > u64::MAX {
        u64::MAX as int
    } else {
        left + right
    }
}

impl PrefillRecord {
    /// Adds one resident activation and what made room for it.
    pub fn add_activation(&mut self, payload_bytes: u64, evicted_entries: u64, evicted_bytes: u64)
        ensures
            final(self).recorded_pages == old(self).recorded_pages,
            final(self).recorded_activations == saturated(old(self).recorded_activations, 1),
            final(self).recorded_activation_bytes == saturated(
                old(self).recorded_activation_bytes,
                payload_bytes,
            ),
            final(self).evicted_activation_entries == saturated(
                old(self).evicted_activation_entries,
                evicted_entries,
            ),
            final(self).evicted_activation_bytes == saturated(
                old(self).evicted_activation_bytes,
                evicted_bytes,
            ),
    {
        self.recorded_activations = self.recorded_activations.saturating_add(1);
        self.recorded_activation_bytes = self.recorded_activation_bytes.saturating_add(
            payload_bytes,
        );
        self.evicted_activation_entries = self.evicted_activation_entries.saturating_add(
            evicted_entries,
        );
        self.evicted_activation_bytes = self.evicted_activation_bytes.saturating_add(evicted_bytes);
    }
}

/// A span of time of which the first beginning and the last end count, in
/// nanoseconds since 1970.
#[derive(Clone, Copy, PartialEq, Eq, Structural, Debug)]
pub struct OpenSpan {
    pub start_unix_nanos: Option<u64>,
    pub end_unix_nanos: Option<u64>,
}

impl OpenSpan {
    /// A span that has not begun.
    pub fn new() -> (span: OpenSpan)
        ensures
            span == (OpenSpan { start_unix_nanos: None, end_unix_nanos: None }),
    {
        OpenSpan { start_unix_nanos: None, end_unix_nanos: None }
    }

    /// Begins the span, where it has not begun yet.
    pub fn begin(&mut self, now: u64)
        ensures
            final(self).start_unix_nanos == Some(
                match old(self).start_unix_nanos {
                    Some(start) => start,
                    None => now,
                },
            ),
            final(self).end_unix_nanos == old(self).end_unix_nanos,
    {
        if self.start_unix_nanos.is_none() {
            self.start_unix_nanos = Some(now);
        }
    }

    /// Ends the span, once more where it has ended before.
    pub fn finish(&mut self, now: u64)
        ensures
            *final(self) == (OpenSpan { end_unix_nanos: Some(now), ..*old(self) }),
    {
        self.end_unix_nanos = Some(now);
    }
}

/// The time from one moment to another, none where the other comes first.
pub open spec fn elapsed_nanos(from: u64, to: u64) -> int {
    if to > from {
        to - from
    } else {
        0
    }
}

fn nanos_between(from: u64, to: u64) -> (nanos: u64)
    ensures
        nanos == elapsed_nanos(from, to),
{
    if to > from {
        to - from
    } else {
        0
    }
}

/// Where the time of a verify window went besides the computation, in
/// nanoseconds.
#[derive(Clone, Copy, PartialEq, Eq, Structural, Debug)]
pub struct VerifyWindowGaps {
    pub pre_compute: u64,
    pub post_compute: u64,
    pub pre_reply: u64,
    pub after_reply: u64,
}

/// Where the time of a message went besides the computation; only verify
/// windows are measured, and a reply only where there was one.
pub fn verify_window_gaps(
    verify_window: bool,
    message: (u64, u64),
    compute: (u64, u64),
    reply: &OpenSpan,
) -> (gaps: VerifyWindowGaps)
    ensures
        !verify_window ==> gaps == (VerifyWindowGaps {
            pre_compute: 0,
            post_compute: 0,
            pre_reply: 0,
            after_reply: 0,
        }),
        verify_window ==> {
            &&& gaps.pre_compute == elapsed_nanos(message.0, compute.0)
            &&& gaps.post_compute == elapsed_nanos(compute.1, message.1)
            &&& gaps.pre_reply == match reply.start_unix_nanos {
                Some(start) => elapsed_nanos(compute.1, start),
                None => 0,
            }
            &&& gaps.after_reply == match reply.end_unix_nanos {
                Some(end) => elapsed_nanos(end, message.1),
                None => 0,
            }
        },
{
    if !verify_window {
        return VerifyWindowGaps { pre_compute: 0, post_compute: 0, pre_reply: 0, after_reply: 0 };
    }
    let pre_reply: u64 = match reply.start_unix_nanos {
        Some(start) => nanos_between(compute.1, start),
        None => 0,
    };
    let after_reply: u64 = match reply.end_unix_nanos {
        Some(end) => nanos_between(end, message.1),
        None => 0,
    };
    VerifyWindowGaps {
        pre_compute: nanos_between(message.0, compute.0),
        post_compute: nanos_between(compute.1, message.1),
        pre_reply,
        after_reply,
    }
}

/// Messages of a negative number of tokens count none, and all others theirs.
pub proof fn law_negative_counts_are_none(token_count: i32)
    ensures
        token_count >= 0 ==> token_total(token_count) == token_count,
        token_count < 0 ==> token_total(token_count) == 0,
{
}

/// Sums are exact while they can be counted, and stay at the greatest count
/// from there on.
pub proof fn law_records_saturate(left: u64, right: u64)
    ensures
        left + right <= 0xffff_ffff_ffff_ffff ==> saturated(left, right) == left + right,
        left + right > 0xffff_ffff_ffff_ffff ==> saturated(left, right) == 0xffff_ffff_ffff_ffff,
{
}

/// Exactly the sums from the least to the greatest `i64` fit.
pub proof fn law_fitting_sums(value: int)
    ensures
        fits(value) <==> -0x8000_0000_0000_0000 <= value <= 0x7fff_ffff_ffff_ffff,
{
}

/// Time passes from one moment to a later one, as much as lies between them, and
/// none to an earlier one.
pub proof fn law_time_passes_forward(from: u64, to: u64, later: u64)
    ensures
        from <= to ==> from + elapsed_nanos(from, to) == to,
        from >= to ==> elapsed_nanos(from, to) == 0,
        from <= to <= later ==> elapsed_nanos(from, to) + elapsed_nanos(to, later)
            == elapsed_nanos(from, later),
{
}

} // verus!
