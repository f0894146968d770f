//! What holds of the pipeline policy over many windows.

use crate::attrs::AttrView;
use crate::decode::scheduler::{
    PIPELINE_PROFILE_MAX_OBSERVATIONS, PIPELINE_PROFILE_MIN_OBSERVATIONS, SchedulerView,
    VerifyWindowPipelineStats, VerifyWindowProfileObservation, as_count, capped, continuations,
    downstream_total, observed, profitable, stage0_total,
};
use vstd::prelude::*;

verus! {

/// What a width remembers after a list of observations.
pub open spec fn remembered(history: Seq<VerifyWindowProfileObservation>) -> Seq<
    VerifyWindowProfileObservation,
>
    decreases history.len(),
{
    if history.len() == 0 {
        Seq::empty()
    } else {
        observed(remembered(history.drop_last()), history.last())
    }
}

/// The most recent observations of a list, as many as are remembered.
pub open spec fn most_recent(history: Seq<VerifyWindowProfileObservation>) -> Seq<
    VerifyWindowProfileObservation,
> {
    if history.len() <= PIPELINE_PROFILE_MAX_OBSERVATIONS {
        history
    } else {
        history.skip(history.len() - PIPELINE_PROFILE_MAX_OBSERVATIONS)
    }
}

/// A width is judged by its most recent observations alone.
pub proof fn law_only_recent_windows_count(history: Seq<VerifyWindowProfileObservation>)
    ensures
        remembered(history) == most_recent(history),
    decreases history.len(),
{
    if history.len() > 0 {
        law_only_recent_windows_count(history.drop_last());
        assert(remembered(history) =~= most_recent(history));
    } else {
        assert(remembered(history) =~= most_recent(history));
    }
}

/// The last 32 observations of a width are remembered, and no others.
pub proof fn law_thirty_two_windows_are_remembered(
    history: Seq<VerifyWindowProfileObservation>,
)
    ensures
        history.len() <= 32 ==> remembered(history) == history,
        history.len() > 32 ==> remembered(history) == history.skip(history.len() - 32),
{
    law_only_recent_windows_count(history);
}

/// A counter grows by what is added, up to the greatest number it can hold.
pub proof fn law_counters_saturate(value: usize, more: usize, truth: bool)
    ensures
        value + more <= usize::MAX ==> capped(value, more) == value + more,
        value + more > usize::MAX ==> capped(value, more) == usize::MAX,
        truth ==> as_count(truth) == 1,
        !truth ==> as_count(truth) == 0,
{
}

proof fn lemma_totals_are_sums(observations: Seq<VerifyWindowProfileObservation>)
    ensures
        continuations(observations) == observations.filter(
            |o: VerifyWindowProfileObservation| o.continues,
        ).len(),
        continuations(observations) <= observations.len(),
        stage0_total(observations) == observations.fold_left(
            0int,
            |sum: int, o: VerifyWindowProfileObservation| sum + o.stage0_compute_nanos,
        ),
        downstream_total(observations) == observations.fold_left(
            0int,
            |sum: int, o: VerifyWindowProfileObservation| sum + o.downstream_wait_nanos,
        ),
    decreases observations.len(),
{
    reveal(Seq::filter);
    if observations.len() > 0 {
        lemma_totals_are_sums(observations.drop_last());
    }
}

/// When a width pays: of at least eight remembered windows, those that could be
/// gone on from hide more waiting than fifteen per cent over what the others
/// would cost, whether that is counted in waiting or in computing.
pub proof fn law_width_pays_by_its_totals(
    scheduler: SchedulerView,
    width: usize,
    n: int,
    c: int,
    compute: int,
    wait: int,
)
    requires
        scheduler.profiles.contains_key(width),
        n == scheduler.profiles[width].len(),
        c == scheduler.profiles[width].filter(
            |o: VerifyWindowProfileObservation| o.continues,
        ).len(),
        compute == scheduler.profiles[width].fold_left(
            0int,
            |sum: int, o: VerifyWindowProfileObservation| sum + o.stage0_compute_nanos,
        ),
        wait == scheduler.profiles[width].fold_left(
            0int,
            |sum: int, o: VerifyWindowProfileObservation| sum + o.downstream_wait_nanos,
        ),
    ensures
        n < 8 ==> !scheduler.width_pays(width),
        100 * (c * wait) <= 115 * ((n - c) * wait) ==> !scheduler.width_pays(width),
        100 * (c * wait) <= 115 * ((n - c) * compute) ==> !scheduler.width_pays(width),
        n >= 8 && 100 * (c * wait) > 115 * ((n - c) * wait) && 100 * (c * wait) > 115 * ((n - c)
            * compute) ==> scheduler.width_pays(width),
        scheduler.width_pays(width) == profitable(scheduler.profiles[width]),
{
    let observations = scheduler.profiles[width];
    lemma_totals_are_sums(observations);
    if compute > wait {
        assert((n - c) * compute >= (n - c) * wait) by (nonlinear_arith)
            requires
                compute > wait,
                n >= c,
        ;
    } else {
        assert((n - c) * compute <= (n - c) * wait) by (nonlinear_arith)
            requires
                compute <= wait,
                n >= c,
        ;
    }
}

/// A width that was never observed does not pay, and the widths that pay are
/// just those of which a second window does.
pub proof fn law_unknown_widths_never_pay(scheduler: SchedulerView, width: usize)
    ensures
        !scheduler.profiles.contains_key(width) ==> !scheduler.width_pays(width),
        scheduler.paying_widths().contains(width) <==> scheduler.width_pays(width),
{
}

/// Where at most half of the windows could be gone on from, a second one never
/// pays, however long anything takes.
pub proof fn law_even_odds_never_pay(observations: Seq<VerifyWindowProfileObservation>)
    requires
        2 * observations.filter(|o: VerifyWindowProfileObservation| o.continues).len()
            <= observations.len(),
    ensures
        !profitable(observations),
{
    lemma_totals_are_sums(observations);
    let n = observations.len() as int;
    let c = continuations(observations) as int;
    let wait = downstream_total(observations) as int;
    let compute = stage0_total(observations) as int;
    assert(c * wait <= (n - c) * wait) by (nonlinear_arith)
        requires
            2 * c <= n,
            wait >= 0,
    ;
    assert(0 <= (n - c) * wait) by (nonlinear_arith)
        requires
            n >= c,
            wait >= 0,
    ;
    if compute > wait {
        assert((n - c) * wait <= (n - c) * compute) by (nonlinear_arith)
            requires
                compute > wait,
                n >= c,
        ;
    }
}

/// Nothing is said of a width before there is enough evidence.
pub proof fn law_few_windows_never_pay(history: Seq<VerifyWindowProfileObservation>)
    requires
        history.len() < PIPELINE_PROFILE_MIN_OBSERVATIONS,
    ensures
        !profitable(remembered(history)),
{
    law_only_recent_windows_count(history);
}

proof fn lemma_no_continuation(observations: Seq<VerifyWindowProfileObservation>)
    requires
        forall|i: int| 0 <= i < observations.len() ==> !(#[trigger] observations[i]).continues,
    ensures
        continuations(observations) == 0,
    decreases observations.len(),
{
    if observations.len() > 0 {
        lemma_no_continuation(observations.drop_last());
    }
}

/// Where no window could have been gone on from, a second one never pays.
pub proof fn law_divergent_windows_never_pay(observations: Seq<VerifyWindowProfileObservation>)
    requires
        forall|i: int| 0 <= i < observations.len() ==> !(#[trigger] observations[i]).continues,
    ensures
        !profitable(observations),
{
    lemma_no_continuation(observations);
    let n = observations.len() as int;
    let compute = stage0_total(observations) as int;
    let wait = downstream_total(observations) as int;
    let longer = if compute > wait {
        compute
    } else {
        wait
    };
    assert(0 * wait == 0);
    assert(n * longer >= 0) by (nonlinear_arith)
        requires
            n >= 0,
            longer >= 0,
    ;
}

proof fn lemma_all_continue(observations: Seq<VerifyWindowProfileObservation>)
    requires
        forall|i: int| 0 <= i < observations.len() ==> (#[trigger] observations[i]).continues,
    ensures
        continuations(observations) == observations.len(),
    decreases observations.len(),
{
    if observations.len() > 0 {
        lemma_all_continue(observations.drop_last());
    }
}

/// Where every window could have been gone on from, a second one pays as soon
/// as there is enough evidence and any waiting to hide.
pub proof fn law_continuing_windows_pay(observations: Seq<VerifyWindowProfileObservation>)
    requires
        observations.len() >= PIPELINE_PROFILE_MIN_OBSERVATIONS,
        forall|i: int| 0 <= i < observations.len() ==> (#[trigger] observations[i]).continues,
        downstream_total(observations) > 0,
    ensures
        profitable(observations),
{
    lemma_all_continue(observations);
    let n = observations.len() as int;
    let wait = downstream_total(observations) as int;
    let compute = stage0_total(observations) as int;
    let longer = if compute > wait {
        compute
    } else {
        wait
    };
    assert(0 * longer == 0);
    assert(n * wait > 0) by (nonlinear_arith)
        requires
            n > 0,
            wait > 0,
    ;
}

/// The timings of a response tell every counter of the pipeline under its name.
pub proof fn law_pipeline_counters_are_told<M>(
    stats: VerifyWindowPipelineStats,
    timings: Map<Seq<char>, AttrView<M>>,
)
    ensures
        stats.timings_after(timings) == timings.union_prefer_right(
            map![
                "verify_window_depth"@ => AttrView::Count(stats.depth as int),
                "verify_window_direct_prediction_return"@ => AttrView::Bool(
                    stats.direct_prediction_return,
                ),
                "verify_window_opened"@ => AttrView::Count(stats.opened_windows as int),
                "verify_window_max_in_flight"@ => AttrView::Count(stats.max_in_flight as int),
                "verify_window_stale_discarded"@ => AttrView::Count(stats.stale_discarded as int),
                "verify_window_stale_drain_ms"@ => AttrView::Duration(
                    stats.stale_drain_nanos as int,
                ),
                "verify_window_policy_observed_windows"@ => AttrView::Count(
                    stats.policy_observed_windows as int,
                ),
                "verify_window_policy_continuation_windows"@ => AttrView::Count(
                    stats.policy_continuation_windows as int,
                ),
                "verify_window_policy_permit_checks"@ => AttrView::Count(
                    stats.policy_permit_checks as int,
                ),
                "verify_window_policy_permits"@ => AttrView::Count(stats.policy_permits as int),
                "verify_window_policy_suppressed"@ => AttrView::Count(
                    stats.policy_suppressed as int,
                ),
            ],
        ),
{
}

} // verus!
