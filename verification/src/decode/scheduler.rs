//! How many verify windows run at a time, and whether it pays to run a second
//! one before the first has been judged.
//!
//! Times are whole nanoseconds.

use crate::attrs::{AttrMap, AttrValue, AttrView};
use crate::number::{signed_decimal, signed_decimal_text};
use crate::text::concat;
use std::collections::{BTreeMap, VecDeque};
use vstd::prelude::*;

verus! {

/// The observations of a width below which nothing is said about it.
pub const PIPELINE_PROFILE_MIN_OBSERVATIONS: usize = 8;

/// The observations of a width that are remembered.
pub const PIPELINE_PROFILE_MAX_OBSERVATIONS: usize = 32;

/// How many hundredths of the expected loss the expected gain has to exceed.
pub const PIPELINE_PROFIT_MARGIN_PERCENT: u128 = 115;

/// How deep the pipeline of windows is.
#[derive(Debug, Clone, Copy, PartialEq, Eq, Structural)]
pub struct VerifyWindowPipelineConfig {
    pub depth: usize,
}

impl VerifyWindowPipelineConfig {
    /// A pipeline of the given depth, at least one.
    pub fn new(depth: usize) -> (config: VerifyWindowPipelineConfig)
        ensures
            config.depth == if depth > 1 {
                depth
            } else {
                1
            },
    {
        let depth: usize = if depth > 1 {
            depth
        } else {
            1
        };
        VerifyWindowPipelineConfig { depth }
    }

    /// How deep the pipeline is.
    pub fn depth(self) -> (depth: usize)
        ensures
            depth == self.depth,
    {
        self.depth
    }
}

/// What the pipeline came to. No counter passes the greatest `usize`.
#[derive(Debug, Clone, Copy, PartialEq, Eq, Structural)]
pub struct VerifyWindowPipelineStats {
    pub depth: usize,
    pub direct_prediction_return: bool,
    pub opened_windows: usize,
    pub max_in_flight: usize,
    pub stale_discarded: usize,
    pub stale_drain_nanos: u128,
    pub policy_observed_windows: usize,
    pub policy_continuation_windows: usize,
    pub policy_permit_checks: usize,
    pub policy_permits: usize,
    pub policy_suppressed: usize,
}

/// The sum, or the greatest `usize` where it is greater.
pub open spec fn capped(value: usize, more: usize) -> usize {
    if value + more > usize::MAX {
        usize::MAX
    } else {
        (value + more) as usize
    }
}

/// One where `truth` holds.
pub open spec fn as_count(truth: bool) -> usize {
    if truth {
        1
    } else {
        0
    }
}

impl VerifyWindowPipelineStats {
    /// The timings of a response with those of the pipeline.
    pub open spec fn timings_after<M>(self, timings: Map<Seq<char>, AttrView<M>>) -> Map<
        Seq<char>,
        AttrView<M>,
    > {
        timings.insert("verify_window_depth"@, AttrView::Count(self.depth as int)).insert(
            "verify_window_direct_prediction_return"@,
            AttrView::Bool(self.direct_prediction_return),
        ).insert("verify_window_opened"@, AttrView::Count(self.opened_windows as int)).insert(
            "verify_window_max_in_flight"@,
            AttrView::Count(self.max_in_flight as int),
        ).insert(
            "verify_window_stale_discarded"@,
            AttrView::Count(self.stale_discarded as int),
        ).insert(
            "verify_window_stale_drain_ms"@,
            AttrView::Duration(self.stale_drain_nanos as int),
        ).insert(
            "verify_window_policy_observed_windows"@,
            AttrView::Count(self.policy_observed_windows as int),
        ).insert(
            "verify_window_policy_continuation_windows"@,
            AttrView::Count(self.policy_continuation_windows as int),
        ).insert(
            "verify_window_policy_permit_checks"@,
            AttrView::Count(self.policy_permit_checks as int),
        ).insert(
            "verify_window_policy_permits"@,
            AttrView::Count(self.policy_permits as int),
        ).insert(
            "verify_window_policy_suppressed"@,
            AttrView::Count(self.policy_suppressed as int),
        )
    }

    /// Adds the counters to the timings of a response.
    pub fn insert_response_timings<M>(self, timings: &mut AttrMap<M>)
        ensures
            final(timings)@ == self.timings_after(old(timings)@),
    {
        timings.insert_count("verify_window_depth", self.depth);
        timings.insert_bool(
            "verify_window_direct_prediction_return",
            self.direct_prediction_return,
        );
        timings.insert_count("verify_window_opened", self.opened_windows);
        timings.insert_count("verify_window_max_in_flight", self.max_in_flight);
        timings.insert_count("verify_window_stale_discarded", self.stale_discarded);
        timings.insert(
            "verify_window_stale_drain_ms",
            AttrValue::Duration(self.stale_drain_nanos),
        );
        timings.insert_count("verify_window_policy_observed_windows", self.policy_observed_windows);
        timings.insert_count(
            "verify_window_policy_continuation_windows",
            self.policy_continuation_windows,
        );
        timings.insert_count("verify_window_policy_permit_checks", self.policy_permit_checks);
        timings.insert_count("verify_window_policy_permits", self.policy_permits);
        timings.insert_count("verify_window_policy_suppressed", self.policy_suppressed);
    }
}

/// How one window of a width went.
#[derive(Debug, Clone, Copy, PartialEq, Eq, Structural)]
pub struct VerifyWindowProfileObservation {
    /// Whether the next window could have gone on from this one.
    pub continues: bool,
    pub stage0_compute_nanos: u64,
    pub downstream_wait_nanos: u64,
}

/// How many of the observations could have been gone on from.
pub open spec fn continuations(observations: Seq<VerifyWindowProfileObservation>) -> nat
    decreases observations.len(),
{
    if observations.len() == 0 {
        0
    } else {
        continuations(observations.drop_last()) + as_count(observations.last().continues) as nat
    }
}

/// The time that the first stage computed.
pub open spec fn stage0_total(observations: Seq<VerifyWindowProfileObservation>) -> nat
    decreases observations.len(),
{
    if observations.len() == 0 {
        0
    } else {
        stage0_total(observations.drop_last()) + observations.last().stage0_compute_nanos as nat
    }
}

/// The time that the first stage waited for the others.
pub open spec fn downstream_total(observations: Seq<VerifyWindowProfileObservation>) -> nat
    decreases observations.len(),
{
    if observations.len() == 0 {
        0
    } else {
        downstream_total(observations.drop_last())
            + observations.last().downstream_wait_nanos as nat
    }
}

/// Whether a second window in flight pays.
///
/// With `n` observations, of which `c` could be gone on from, a second window
/// hides the average wait with probability `c / n` and costs the longer of the
/// two averages otherwise. The gain has to exceed the loss by the margin. Both
/// sides are multiplied by `n` squared.
pub open spec fn profitable(observations: Seq<VerifyWindowProfileObservation>) -> bool {
    let n = observations.len() as int;
    let c = continuations(observations) as int;
    let compute = stage0_total(observations) as int;
    let wait = downstream_total(observations) as int;
    let longer = if compute > wait {
        compute
    } else {
        wait
    };
    n >= PIPELINE_PROFILE_MIN_OBSERVATIONS && (c * wait) * 100 > ((n - c) * longer)
        * PIPELINE_PROFIT_MARGIN_PERCENT
}

/// The observations with one more, and without the oldest where they have
/// become too many.
pub open spec fn observed(
    observations: Seq<VerifyWindowProfileObservation>,
    observation: VerifyWindowProfileObservation,
) -> Seq<VerifyWindowProfileObservation> {
    let more = observations.push(observation);
    if more.len() > PIPELINE_PROFILE_MAX_OBSERVATIONS {
        more.drop_first()
    } else {
        more
    }
}

proof fn lemma_totals_bounded(observations: Seq<VerifyWindowProfileObservation>)
    ensures
        continuations(observations) <= observations.len(),
        stage0_total(observations) <= observations.len() * u64::MAX,
        downstream_total(observations) <= observations.len() * u64::MAX,
    decreases observations.len(),
{
    if observations.len() > 0 {
        lemma_totals_bounded(observations.drop_last());
        let n = observations.len() as int;
        assert((n - 1) * u64::MAX + u64::MAX == n * u64::MAX) by (nonlinear_arith);
    }
}

proof fn lemma_totals_drop_first(observations: Seq<VerifyWindowProfileObservation>)
    requires
        observations.len() > 0,
    ensures
        continuations(observations) == continuations(observations.drop_first()) + as_count(
            observations[0].continues,
        ),
        stage0_total(observations) == stage0_total(observations.drop_first())
            + observations[0].stage0_compute_nanos,
        downstream_total(observations) == downstream_total(observations.drop_first())
            + observations[0].downstream_wait_nanos,
    decreases observations.len(),
{
    if observations.len() > 1 {
        let rest = observations.drop_last();
        lemma_totals_drop_first(rest);
        assert(observations.drop_first().drop_last() =~= rest.drop_first());
        assert(rest[0] == observations[0]);
        assert(observations.drop_first().last() == observations.last());
    } else {
        assert(observations.drop_first() =~= Seq::empty());
        assert(observations.drop_last() =~= Seq::empty());
    }
}

/// The observations of one width, and what they add up to.
struct VerifyWindowWidthProfile {
    observations: VecDeque<VerifyWindowProfileObservation>,
    continuation_windows: usize,
    stage0_compute_nanos: u128,
    downstream_wait_nanos: u128,
}

impl VerifyWindowWidthProfile {
    spec fn wf(self) -> bool {
        &&& self.observations@.len() <= PIPELINE_PROFILE_MAX_OBSERVATIONS
        &&& self.continuation_windows == continuations(self.observations@)
        &&& self.stage0_compute_nanos == stage0_total(self.observations@)
        &&& self.downstream_wait_nanos == downstream_total(self.observations@)
    }

    fn new() -> (profile: VerifyWindowWidthProfile)
        ensures
            profile.wf(),
            profile.observations@ == Seq::<VerifyWindowProfileObservation>::empty(),
    {
        VerifyWindowWidthProfile {
            observations: VecDeque::new(),
            continuation_windows: 0,
            stage0_compute_nanos: 0,
            downstream_wait_nanos: 0,
        }
    }

    fn observe(&mut self, observation: VerifyWindowProfileObservation)
        requires
            old(self).wf(),
        ensures
            final(self).wf(),
            final(self).observations@ == observed(old(self).observations@, observation),
    {
        let ghost before = self.observations@;
        let ghost more = before.push(observation);
        proof {
            lemma_totals_bounded(before);
            assert(more.drop_last() =~= before);
        }
        self.observations.push_back(observation);
        if observation.continues {
            self.continuation_windows = self.continuation_windows + 1;
        }
        self.stage0_compute_nanos = self.stage0_compute_nanos
            + observation.stage0_compute_nanos as u128;
        self.downstream_wait_nanos = self.downstream_wait_nanos
            + observation.downstream_wait_nanos as u128;
        if self.observations.len() > PIPELINE_PROFILE_MAX_OBSERVATIONS {
            proof {
                lemma_totals_drop_first(more);
            }
            if let Some(expired) = self.observations.pop_front() {
                assert(self.observations@ =~= more.drop_first());
                if expired.continues {
                    self.continuation_windows = self.continuation_windows - 1;
                }
                self.stage0_compute_nanos = self.stage0_compute_nanos
                    - expired.stage0_compute_nanos as u128;
                self.downstream_wait_nanos = self.downstream_wait_nanos
                    - expired.downstream_wait_nanos as u128;
            }
        }
    }

    fn is_profitable(&self) -> (result: bool)
        requires
            self.wf(),
        ensures
            result == profitable(self.observations@),
    {
        let count: usize = self.observations.len();
        if count < PIPELINE_PROFILE_MIN_OBSERVATIONS {
            return false;
        }
        let compute: u128 = self.stage0_compute_nanos;
        let wait: u128 = self.downstream_wait_nanos;
        let longer: u128 = if compute > wait {
            compute
        } else {
            wait
        };
        proof {
            lemma_totals_bounded(self.observations@);
        }
        let kept: u128 = self.continuation_windows as u128;
        let lost: u128 = (count - self.continuation_windows) as u128;
        proof {
            assert(kept * wait <= 32 * (32 * u64::MAX)) by (nonlinear_arith)
                requires
                    kept <= 32,
                    wait <= 32 * u64::MAX,
            ;
            assert(lost * longer <= 32 * (32 * u64::MAX)) by (nonlinear_arith)
                requires
                    lost <= 32,
                    longer <= 32 * u64::MAX,
            ;
        }
        let gain: u128 = kept * wait;
        let loss: u128 = lost * longer;
        gain * 100 > loss * PIPELINE_PROFIT_MARGIN_PERCENT
    }
}

/// A window in flight.
#[derive(Debug, Clone, Copy, PartialEq, Eq, Structural)]
pub struct VerifyWindow {
    pub id: i32,
    pub base_position: usize,
    pub decode_step: usize,
}

/// Why a window cannot be opened or completed.
#[derive(Debug, Clone, Copy, PartialEq, Eq, Structural)]
pub enum VerifyWindowSchedulerError {
    DepthExceeded,
    IdOverflow,
    NoWindowInFlight,
    OutOfOrder { got: i32, expected: i32 },
}

impl VerifyWindowSchedulerError {
    /// The text of the error.
    pub open spec fn text(self) -> Seq<char> {
        match self {
            VerifyWindowSchedulerError::DepthExceeded => "verify window pipeline depth exceeded"@,
            VerifyWindowSchedulerError::IdOverflow => "verify window id overflow"@,
            VerifyWindowSchedulerError::NoWindowInFlight => {
                "verify window reply arrived with no in-flight window"@
            },
            VerifyWindowSchedulerError::OutOfOrder { got, expected } => {
                "verify window reply out of order: got "@ + signed_decimal(got as int)
                    + ", expected "@ + signed_decimal(expected as int)
            },
        }
    }

    /// The text of the error.
    pub fn message(&self) -> (message: String)
        ensures
            message@ == self.text(),
    {
        match self {
            VerifyWindowSchedulerError::DepthExceeded => {
                "verify window pipeline depth exceeded".to_owned()
            },
            VerifyWindowSchedulerError::IdOverflow => "verify window id overflow".to_owned(),
            VerifyWindowSchedulerError::NoWindowInFlight => {
                "verify window reply arrived with no in-flight window".to_owned()
            },
            VerifyWindowSchedulerError::OutOfOrder { got, expected } => {
                let got_text = signed_decimal_text(*got as i64);
                let expected_text = signed_decimal_text(*expected as i64);
                concat(
                    concat(
                        concat(
                            "verify window reply out of order: got ".to_owned(),
                            got_text.as_str(),
                        ),
                        ", expected ",
                    ),
                    expected_text.as_str(),
                )
            },
        }
    }
}

/// The state of a scheduler.
pub struct SchedulerView {
    pub depth: usize,
    pub next_id: int,
    /// The windows in flight, oldest first.
    pub in_flight: Seq<VerifyWindow>,
    pub stats: VerifyWindowPipelineStats,
    /// The remembered observations by width.
    pub profiles: Map<usize, Seq<VerifyWindowProfileObservation>>,
}

/// The windows in flight and what is known of each width.
pub struct VerifyWindowScheduler {
    config: VerifyWindowPipelineConfig,
    next_id: i32,
    in_flight: VecDeque<VerifyWindow>,
    stats: VerifyWindowPipelineStats,
    profiles: BTreeMap<usize, VerifyWindowWidthProfile>,
}

/// The observations of each width.
spec fn observations_of(profiles: Map<usize, VerifyWindowWidthProfile>) -> Map<
    usize,
    Seq<VerifyWindowProfileObservation>,
> {
    profiles.map_values(|profile: VerifyWindowWidthProfile| profile.observations@)
}

impl View for VerifyWindowScheduler {
    type V = SchedulerView;

    closed spec fn view(&self) -> SchedulerView {
        SchedulerView {
            depth: self.config.depth,
            next_id: self.next_id as int,
            in_flight: self.in_flight@,
            stats: self.stats,
            profiles: observations_of(self.profiles@),
        }
    }
}

impl SchedulerView {
    /// Whether the windows in flight have ascending ids before the next, no
    /// more of them than the pipeline is deep, no width remembers more than it
    /// may, none is zero, and the counters fit together: every check permitted
    /// or suppressed a width, and no window could be gone on from that was not
    /// observed.
    pub open spec fn valid(self) -> bool {
        &&& self.in_flight.len() <= self.depth
        &&& 1 <= self.next_id <= i32::MAX
        &&& forall|i: int|
            0 <= i < self.in_flight.len() ==> (#[trigger] self.in_flight[i]).id < self.next_id
        &&& forall|i: int, j: int|
            0 <= i < j < self.in_flight.len() ==> (#[trigger] self.in_flight[i]).id < (
            #[trigger] self.in_flight[j]).id
        &&& self.profiles.dom().finite()
        &&& forall|width: usize| #[trigger]
            self.profiles.contains_key(width) ==> self.profiles[width].len()
                <= PIPELINE_PROFILE_MAX_OBSERVATIONS
        &&& !self.profiles.contains_key(0)
        &&& self.stats.depth == self.depth
        &&& self.in_flight.len() <= self.stats.max_in_flight <= self.depth
        &&& self.stats.policy_permit_checks == capped(
            self.stats.policy_permits,
            self.stats.policy_suppressed,
        )
        &&& self.stats.policy_continuation_windows <= self.stats.policy_observed_windows
    }

    /// Whether a second window of this width pays.
    pub open spec fn width_pays(self, width: usize) -> bool {
        self.profiles.contains_key(width) && profitable(self.profiles[width])
    }

    /// The widths for which a second window pays.
    pub open spec fn paying_widths(self) -> Set<usize> {
        self.profiles.dom().filter(|width: usize| self.width_pays(width))
    }
}

impl VerifyWindowScheduler {
    /// Whether the private parts fit together.
    pub closed spec fn wf(&self) -> bool {
        &&& forall|width: usize| #[trigger]
            self.profiles@.contains_key(width) ==> self.profiles@[width].wf()
        &&& self@.valid()
    }

    /// A scheduler without windows.
    pub fn new(config: VerifyWindowPipelineConfig) -> (scheduler: VerifyWindowScheduler)
        ensures
            scheduler.wf(),
            scheduler@ == (SchedulerView {
                depth: config.depth,
                next_id: 1,
                in_flight: Seq::empty(),
                stats: VerifyWindowPipelineStats {
                    depth: config.depth,
                    direct_prediction_return: false,
                    opened_windows: 0,
                    max_in_flight: 0,
                    stale_discarded: 0,
                    stale_drain_nanos: 0,
                    policy_observed_windows: 0,
                    policy_continuation_windows: 0,
                    policy_permit_checks: 0,
                    policy_permits: 0,
                    policy_suppressed: 0,
                },
                profiles: Map::empty(),
            }),
    {
        let scheduler = VerifyWindowScheduler {
            config,
            next_id: 1,
            in_flight: VecDeque::new(),
            stats: VerifyWindowPipelineStats {
                depth: config.depth(),
                direct_prediction_return: false,
                opened_windows: 0,
                max_in_flight: 0,
                stale_discarded: 0,
                stale_drain_nanos: 0,
                policy_observed_windows: 0,
                policy_continuation_windows: 0,
                policy_permit_checks: 0,
                policy_permits: 0,
                policy_suppressed: 0,
            },
            profiles: BTreeMap::new(),
        };
        assert(scheduler@.profiles =~= Map::empty());
        scheduler
    }

    /// Whether another window can be opened.
    pub fn has_capacity(&self) -> (has: bool)
        ensures
            has == (self@.in_flight.len() < self@.depth),
    {
        self.in_flight.len() < self.config.depth
    }

    /// How deep the pipeline is.
    pub fn depth(&self) -> (depth: usize)
        ensures
            depth == self@.depth,
    {
        self.config.depth()
    }

    /// Notes that predictions come back on a stream of their own.
    pub fn mark_direct_prediction_return(&mut self)
        requires
            old(self).wf(),
        ensures
            final(self).wf(),
            final(self)@ == (SchedulerView {
                stats: VerifyWindowPipelineStats {
                    direct_prediction_return: true,
                    ..old(self)@.stats
                },
                ..old(self)@
            }),
    {
        self.stats.direct_prediction_return = true;
    }

    /// Remembers how a window of a width went. A window without tokens tells
    /// nothing.
    pub fn observe_pipeline_profile(
        &mut self,
        width: usize,
        continues: bool,
        stage0_compute_nanos: u64,
        downstream_wait_nanos: u64,
    )
        requires
            old(self).wf(),
        ensures
            final(self).wf(),
            width == 0 ==> final(self)@ == old(self)@,
            width != 0 ==> final(self)@ == (SchedulerView {
                stats: VerifyWindowPipelineStats {
                    policy_observed_windows: capped(old(self)@.stats.policy_observed_windows, 1),
                    policy_continuation_windows: capped(
                        old(self)@.stats.policy_continuation_windows,
                        as_count(continues),
                    ),
                    ..old(self)@.stats
                },
                profiles: old(self)@.profiles.insert(
                    width,
                    observed(
                        if old(self)@.profiles.contains_key(width) {
                            old(self)@.profiles[width]
                        } else {
                            Seq::empty()
                        },
                        VerifyWindowProfileObservation {
                            continues,
                            stage0_compute_nanos,
                            downstream_wait_nanos,
                        },
                    ),
                ),
                ..old(self)@
            }),
    {
        if width == 0 {
            return;
        }
        broadcast use vstd::std_specs::btree::group_btree_axioms;

        let ghost before = self.profiles@;
        let observation = VerifyWindowProfileObservation {
            continues,
            stage0_compute_nanos,
            downstream_wait_nanos,
        };
        self.stats.policy_observed_windows = self.stats.policy_observed_windows.saturating_add(1);
        let more: usize = if continues {
            1
        } else {
            0
        };
        self.stats.policy_continuation_windows = self.stats.policy_continuation_windows.saturating_add(
            more,
        );
        let mut profile = match self.profiles.remove(&width) {
            Some(profile) => profile,
            None => VerifyWindowWidthProfile::new(),
        };
        profile.observe(observation);
        self.profiles.insert(width, profile);
        proof {
            assert(self.profiles@ =~= before.insert(width, profile));
            assert(observations_of(self.profiles@) =~= observations_of(before).insert(
                width,
                profile.observations@,
            ));
        }
    }

    /// Whether a second window of some width pays.
    pub fn has_profitable_pipeline_width(&self) -> (has: bool)
        requires
            self.wf(),
        ensures
            has == (self@.depth > 1 && exists|width: usize| self@.width_pays(width)),
    {
        if self.config.depth() <= 1 {
            return false;
        }
        broadcast use vstd::std_specs::btree::group_btree_axioms;

        for entry in entries: self.profiles.iter()
            invariant
                self.wf(),
                self.config.depth > 1,
                forall|k: int|
                    0 <= k < entries.seq().len() ==> self.profiles@.contains_key(
                        *(#[trigger] entries.seq()[k]).0,
                    ) && self.profiles@[*entries.seq()[k].0] == *entries.seq()[k].1,
                forall|k: int|
                    0 <= k < entries.index() ==> !profitable(
                        (#[trigger] entries.seq()[k]).1.observations@,
                    ),
        {
            assert(entry == entries.seq()[entries.index()]);
            if entry.1.is_profitable() {
                assert(self@.width_pays(*entry.0));
                return true;
            }
        }
        assert(forall|width: usize| !self@.width_pays(width));
        false
    }

    /// Whether a window of this width may run beside another; the question is
    /// counted.
    pub fn permit_pipeline_width(&mut self, width: usize) -> (permitted: bool)
        requires
            old(self).wf(),
        ensures
            final(self).wf(),
            permitted == (old(self)@.depth > 1 && old(self)@.width_pays(width)),
            final(self)@ == (SchedulerView {
                stats: VerifyWindowPipelineStats {
                    policy_permit_checks: capped(old(self)@.stats.policy_permit_checks, 1),
                    policy_permits: if permitted {
                        capped(old(self)@.stats.policy_permits, 1)
                    } else {
                        old(self)@.stats.policy_permits
                    },
                    policy_suppressed: if permitted {
                        old(self)@.stats.policy_suppressed
                    } else {
                        capped(old(self)@.stats.policy_suppressed, 1)
                    },
                    ..old(self)@.stats
                },
                ..old(self)@
            }),
    {
        broadcast use vstd::std_specs::btree::group_btree_axioms;

        self.stats.policy_permit_checks = self.stats.policy_permit_checks.saturating_add(1);
        let pays = match self.profiles.get(&width) {
            Some(profile) => profile.is_profitable(),
            None => false,
        };
        let permitted = self.config.depth() > 1 && pays;
        if permitted {
            self.stats.policy_permits = self.stats.policy_permits.saturating_add(1);
        } else {
            self.stats.policy_suppressed = self.stats.policy_suppressed.saturating_add(1);
        }
        permitted
    }

    fn count_profitable(&self) -> (count: usize)
        requires
            self.wf(),
        ensures
            count == self@.paying_widths().len(),
    {
        broadcast use vstd::std_specs::btree::group_btree_axioms;

        let total: usize = self.profiles.len();
        let mut count: usize = 0;
        let ghost mut found: Set<usize> = Set::empty();
        for entry in entries: self.profiles.iter()
            invariant
                self.wf(),
                total == self.profiles@.len(),
                entries.seq().len() == total,
                entries.seq().no_duplicates(),
                forall|k: int|
                    0 <= k < entries.seq().len() ==> self.profiles@.contains_key(
                        *(#[trigger] entries.seq()[k]).0,
                    ) && self.profiles@[*entries.seq()[k].0] == *entries.seq()[k].1,
                count <= entries.index(),
                found.finite(),
                count == found.len(),
                forall|width: usize|
                    found.contains(width) <==> exists|k: int|
                        0 <= k < entries.index() && *(#[trigger] entries.seq()[k]).0 == width
                            && profitable(entries.seq()[k].1.observations@),
        {
            assert(entry == entries.seq()[entries.index()]);
            if entry.1.is_profitable() {
                proof {
                    if found.contains(*entry.0) {
                        let k = choose|k: int|
                            0 <= k < entries.index() && *(#[trigger] entries.seq()[k]).0
                                == *entry.0 && profitable(entries.seq()[k].1.observations@);
                        assert(entries.seq()[k] == entries.seq()[entries.index()]);
                    }
                    found = found.insert(*entry.0);
                }
                count += 1;
            }
        }
        assert(found =~= self@.paying_widths());
        count
    }

    /// Adds the counters of the policy.
    pub fn insert_policy_telemetry_attrs<M>(&self, attrs: &mut AttrMap<M>)
        requires
            self.wf(),
        ensures
            final(attrs)@ == old(attrs)@.insert(
                "llama_stage.verify_window.pipeline_policy_observed_windows"@,
                AttrView::Count(self@.stats.policy_observed_windows as int),
            ).insert(
                "llama_stage.verify_window.pipeline_policy_continuation_windows"@,
                AttrView::Count(self@.stats.policy_continuation_windows as int),
            ).insert(
                "llama_stage.verify_window.pipeline_policy_permit_checks"@,
                AttrView::Count(self@.stats.policy_permit_checks as int),
            ).insert(
                "llama_stage.verify_window.pipeline_policy_permits"@,
                AttrView::Count(self@.stats.policy_permits as int),
            ).insert(
                "llama_stage.verify_window.pipeline_policy_suppressed"@,
                AttrView::Count(self@.stats.policy_suppressed as int),
            ).insert(
                "llama_stage.verify_window.pipeline_policy_profitable_widths"@,
                AttrView::Count(self@.paying_widths().len() as int),
            ),
    {
        attrs.insert_count(
            "llama_stage.verify_window.pipeline_policy_observed_windows",
            self.stats.policy_observed_windows,
        );
        attrs.insert_count(
            "llama_stage.verify_window.pipeline_policy_continuation_windows",
            self.stats.policy_continuation_windows,
        );
        attrs.insert_count(
            "llama_stage.verify_window.pipeline_policy_permit_checks",
            self.stats.policy_permit_checks,
        );
        attrs.insert_count(
            "llama_stage.verify_window.pipeline_policy_permits",
            self.stats.policy_permits,
        );
        attrs.insert_count(
            "llama_stage.verify_window.pipeline_policy_suppressed",
            self.stats.policy_suppressed,
        );
        let count: usize = self.count_profitable();
        attrs.insert_count(
            "llama_stage.verify_window.pipeline_policy_profitable_widths",
            count,
        );
    }

    /// Opens a window, where there is room for one and an id is left.
    pub fn open(&mut self, base_position: usize, decode_step: usize) -> (result: Result<
        VerifyWindow,
        VerifyWindowSchedulerError,
    >)
        requires
            old(self).wf(),
        ensures
            final(self).wf(),
            result == if old(self)@.in_flight.len() >= old(self)@.depth {
                Err::<VerifyWindow, _>(VerifyWindowSchedulerError::DepthExceeded)
            } else if old(self)@.next_id == i32::MAX {
                Err::<VerifyWindow, _>(VerifyWindowSchedulerError::IdOverflow)
            } else {
                Ok(VerifyWindow { id: old(self)@.next_id as i32, base_position, decode_step })
            },
            result is Err ==> final(self)@ == old(self)@,
            result matches Ok(window) ==> final(self)@ == (SchedulerView {
                next_id: old(self)@.next_id + 1,
                in_flight: old(self)@.in_flight.push(window),
                stats: VerifyWindowPipelineStats {
                    opened_windows: capped(old(self)@.stats.opened_windows, 1),
                    max_in_flight: if old(self)@.in_flight.len() + 1
                        > old(self)@.stats.max_in_flight {
                        (old(self)@.in_flight.len() + 1) as usize
                    } else {
                        old(self)@.stats.max_in_flight
                    },
                    ..old(self)@.stats
                },
                ..old(self)@
            }),
    {
        if !self.has_capacity() {
            return Err(VerifyWindowSchedulerError::DepthExceeded);
        }
        let id: i32 = self.next_id;
        if id == i32::MAX {
            return Err(VerifyWindowSchedulerError::IdOverflow);
        }
        self.next_id = id + 1;
        let window = VerifyWindow { id, base_position, decode_step };
        self.in_flight.push_back(window);
        self.stats.opened_windows = self.stats.opened_windows.saturating_add(1);
        let count: usize = self.in_flight.len();
        if count > self.stats.max_in_flight {
            self.stats.max_in_flight = count;
        }
        Ok(window)
    }

    /// Completes the oldest window; its reply comes first.
    pub fn complete_next(&mut self, reply_window_id: i32) -> (result: Result<
        VerifyWindow,
        VerifyWindowSchedulerError,
    >)
        requires
            old(self).wf(),
        ensures
            final(self).wf(),
            result == if old(self)@.in_flight.len() == 0 {
                Err::<VerifyWindow, _>(VerifyWindowSchedulerError::NoWindowInFlight)
            } else if old(self)@.in_flight[0].id != reply_window_id {
                Err::<VerifyWindow, _>(
                    VerifyWindowSchedulerError::OutOfOrder {
                        got: reply_window_id,
                        expected: old(self)@.in_flight[0].id,
                    },
                )
            } else {
                Ok(old(self)@.in_flight[0])
            },
            result is Err ==> final(self)@ == old(self)@,
            result is Ok ==> final(self)@ == (SchedulerView {
                in_flight: old(self)@.in_flight.drop_first(),
                ..old(self)@
            }),
    {
        let ghost before = self.in_flight@;
        if self.in_flight.len() == 0 {
            return Err(VerifyWindowSchedulerError::NoWindowInFlight);
        }
        let expected: i32 = self.in_flight[0].id;
        if expected != reply_window_id {
            return Err(
                VerifyWindowSchedulerError::OutOfOrder { got: reply_window_id, expected },
            );
        }
        match self.in_flight.pop_front() {
            Some(window) => {
                assert(self.in_flight@ =~= before.drop_first());
                Ok(window)
            },
            None => Err(VerifyWindowSchedulerError::NoWindowInFlight),
        }
    }

    /// Forgets every window in flight and counts them as stale.
    pub fn discard_stale(&mut self) -> (discarded: usize)
        requires
            old(self).wf(),
        ensures
            final(self).wf(),
            discarded == old(self)@.in_flight.len(),
            final(self)@ == (SchedulerView {
                in_flight: Seq::empty(),
                stats: VerifyWindowPipelineStats {
                    stale_discarded: capped(old(self)@.stats.stale_discarded, discarded),
                    ..old(self)@.stats
                },
                ..old(self)@
            }),
    {
        let discarded: usize = self.in_flight.len();
        self.in_flight = VecDeque::new();
        self.stats.stale_discarded = self.stats.stale_discarded.saturating_add(discarded);
        discarded
    }

    /// Counts windows that were drained because they had become stale.
    pub fn record_stale_discarded(&mut self, count: usize, drain_nanos: u64)
        requires
            old(self).wf(),
        ensures
            final(self).wf(),
            final(self)@ == (SchedulerView {
                stats: VerifyWindowPipelineStats {
                    stale_discarded: capped(old(self)@.stats.stale_discarded, count),
                    stale_drain_nanos: if old(self)@.stats.stale_drain_nanos + drain_nanos
                        > u128::MAX {
                        u128::MAX
                    } else {
                        (old(self)@.stats.stale_drain_nanos + drain_nanos) as u128
                    },
                    ..old(self)@.stats
                },
                ..old(self)@
            }),
    {
        self.stats.stale_discarded = self.stats.stale_discarded.saturating_add(count);
        self.stats.stale_drain_nanos = self.stats.stale_drain_nanos.saturating_add(
            drain_nanos as u128,
        );
    }

    /// How many windows are in flight.
    pub fn in_flight_len(&self) -> (len: usize)
        ensures
            len == self@.in_flight.len(),
    {
        self.in_flight.len()
    }

    /// How many windows were stale.
    pub fn stale_discard_count(&self) -> (count: usize)
        ensures
            count == self@.stats.stale_discarded,
    {
        self.stats.stale_discarded
    }

    /// What the pipeline came to.
    pub fn stats(&self) -> (stats: VerifyWindowPipelineStats)
        ensures
            stats == self@.stats,
    {
        self.stats
    }
}

/// However a scheduler was used, its state is valid. In particular there is an
/// id for the next window, so that one can be opened as long as there is room
/// and the ids have not run out.
pub proof fn law_scheduler_is_valid(scheduler: &VerifyWindowScheduler)
    requires
        scheduler.wf(),
    ensures
        scheduler@.valid(),
        1 <= scheduler@.next_id <= i32::MAX,
{
}

/// However a scheduler was used, no more windows are in flight than its depth
/// allows, and those that are wait in the order of their ids, each used once.
pub proof fn law_windows_in_flight_are_few_and_ordered(scheduler: &VerifyWindowScheduler)
    requires
        scheduler.wf(),
    ensures
        scheduler@.in_flight.len() <= scheduler@.stats.max_in_flight <= scheduler@.depth,
        forall|i: int, j: int|
            0 <= i < j < scheduler@.in_flight.len() ==> (#[trigger] scheduler@.in_flight[i]).id < (
            #[trigger] scheduler@.in_flight[j]).id,
        forall|i: int|
            0 <= i < scheduler@.in_flight.len() ==> (#[trigger] scheduler@.in_flight[i]).id
                < scheduler@.next_id,
{
}

/// However a scheduler was used, every check of a width is counted as permitted
/// or as suppressed, and nothing is remembered of windows without tokens.
pub proof fn law_every_check_is_counted_once(scheduler: &VerifyWindowScheduler)
    requires
        scheduler.wf(),
    ensures
        scheduler@.stats.policy_permit_checks == capped(
            scheduler@.stats.policy_permits,
            scheduler@.stats.policy_suppressed,
        ),
        scheduler@.stats.policy_continuation_windows <= scheduler@.stats.policy_observed_windows,
        !scheduler@.profiles.contains_key(0),
{
}

} // verus!
