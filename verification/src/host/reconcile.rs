//! Loading the models that the mesh wants and this node can hold.

use crate::host::unload::LoadedInstance;
use crate::text::{concat, same_text, texts};
use crate::text_set::TextSet;
use vstd::prelude::*;

verus! {

/// What the configuration says of the matter.
#[derive(Debug, Clone, Copy, PartialEq, Eq)]
pub struct RuntimeSettings {
    pub reconcile_model_targets: bool,
    pub reconcile_model_target_demand_upgrades: bool,
    pub model_target_demand_upgrade_min_requests: u64,
    pub model_target_demand_upgrade_max_age_secs: u64,
}

/// When models are loaded without being asked for.
#[derive(Debug, Clone, Copy, PartialEq, Eq)]
pub struct ModelTargetReconciliationPolicy {
    pub enabled: bool,
    pub demand_upgrades_enabled: bool,
    pub demand_upgrade_min_request_count: u64,
    pub demand_upgrade_max_age_secs: u64,
}

/// The policy that the configuration asks for.
pub fn model_target_reconciliation_policy(settings: &RuntimeSettings) -> (policy:
    ModelTargetReconciliationPolicy)
    ensures
        policy == (ModelTargetReconciliationPolicy {
            enabled: settings.reconcile_model_targets,
            demand_upgrades_enabled: settings.reconcile_model_target_demand_upgrades,
            demand_upgrade_min_request_count: settings.model_target_demand_upgrade_min_requests,
            demand_upgrade_max_age_secs: settings.model_target_demand_upgrade_max_age_secs,
        }),
{
    ModelTargetReconciliationPolicy {
        enabled: settings.reconcile_model_targets,
        demand_upgrades_enabled: settings.reconcile_model_target_demand_upgrades,
        demand_upgrade_min_request_count: settings.model_target_demand_upgrade_min_requests,
        demand_upgrade_max_age_secs: settings.model_target_demand_upgrade_max_age_secs,
    }
}

/// Where a model fits. `S` tells the other cases apart; it is only passed on.
#[derive(Debug, Clone, Copy, PartialEq, Eq)]
pub enum CapacityAdviceState<S> {
    /// On a single node.
    SingleNodeFit,
    /// Anything else.
    Other(S),
}

/// What is known of where a model fits.
#[derive(Debug, Clone, Copy, PartialEq, Eq)]
pub struct CapacityAdvice<S> {
    pub state: CapacityAdviceState<S>,
    pub required_bytes: Option<u64>,
}

/// A model that the mesh knows of.
#[derive(Debug, PartialEq, Eq)]
pub struct ModelTargetPayload<S> {
    pub rank: u64,
    pub model_ref: String,
    pub profile: String,
    pub model_name: Option<String>,
    pub wanted: bool,
    pub wanted_reason: Option<String>,
    pub request_count: u64,
    pub last_active_secs_ago: Option<u64>,
    pub serving_node_count: usize,
    pub capacity_advice: CapacityAdvice<S>,
}

/// A model that may be loaded, with its file where this node has it.
#[derive(Debug, PartialEq, Eq)]
pub struct ModelTargetReconciliationCandidate<S> {
    pub rank: u64,
    pub model_ref: String,
    pub profile: String,
    pub model_name: Option<String>,
    pub wanted: bool,
    pub wanted_reason: Option<String>,
    pub request_count: u64,
    pub last_active_secs_ago: Option<u64>,
    pub serving_node_count: usize,
    pub capacity_state: CapacityAdviceState<S>,
    pub local_path: Option<String>,
}

/// Whether a model is known to fit into so much memory.
pub fn model_target_reconciliation_local_fit<S>(
    target: &ModelTargetPayload<S>,
    local_vram_bytes: u64,
) -> (fits: bool)
    ensures
        fits == fits_here(*target, local_vram_bytes),
{
    match target.capacity_advice.required_bytes {
        Some(required) => local_vram_bytes >= required,
        None => false,
    }
}

/// Whether a model is known to fit into so much memory.
pub open spec fn fits_here<S>(target: ModelTargetPayload<S>, local_vram_bytes: u64) -> bool {
    target.capacity_advice.required_bytes matches Some(required) && local_vram_bytes >= required
}

/// Whether enough was asked of a model, and lately, to load it in place of
/// another.
pub open spec fn in_demand<S>(
    policy: ModelTargetReconciliationPolicy,
    loaded: Set<Seq<char>>,
    target: ModelTargetPayload<S>,
) -> bool {
    &&& policy.demand_upgrades_enabled
    &&& loaded != Set::<Seq<char>>::empty()
    &&& target.wanted_reason matches Some(reason) && reason@ == "active_demand"@
    &&& target.request_count >= policy.demand_upgrade_min_request_count
    &&& target.last_active_secs_ago matches Some(age) && age <= policy.demand_upgrade_max_age_secs
}

/// Whether enough was asked of a model, and lately, to load it in place of
/// another.
pub fn model_target_reconciliation_demand_upgrade_candidate<S>(
    policy: &ModelTargetReconciliationPolicy,
    loaded_model_refs: &TextSet,
    target: &ModelTargetPayload<S>,
) -> (candidate: bool)
    ensures
        candidate == in_demand(*policy, loaded_model_refs@, *target),
{
    let asked = match &target.wanted_reason {
        Some(reason) => same_text(reason.as_str(), "active_demand"),
        None => false,
    };
    let recent = match target.last_active_secs_ago {
        Some(age) => age <= policy.demand_upgrade_max_age_secs,
        None => false,
    };
    policy.demand_upgrades_enabled && !loaded_model_refs.is_empty() && asked && target.request_count
        >= policy.demand_upgrade_min_request_count && recent
}

/// Whether this node should look for the file of a model: it is wanted, no
/// node serves it, this node is interested or it is in demand, and it fits.
pub open spec fn worth_looking<S>(
    policy: ModelTargetReconciliationPolicy,
    interests: Set<Seq<char>>,
    loaded: Set<Seq<char>>,
    target: ModelTargetPayload<S>,
    local_vram_bytes: u64,
) -> bool {
    &&& target.wanted
    &&& target.serving_node_count == 0
    &&& interests.contains(target.model_ref@) || in_demand(policy, loaded, target)
    &&& target.capacity_advice.state is SingleNodeFit
    &&& fits_here(target, local_vram_bytes)
}

/// Whether this node should look for the file of a model.
pub fn wants_local_path<S>(
    policy: &ModelTargetReconciliationPolicy,
    local_interest_model_refs: &TextSet,
    loaded_model_refs: &TextSet,
    target: &ModelTargetPayload<S>,
    local_vram_bytes: u64,
) -> (wants: bool)
    ensures
        wants == worth_looking(
            *policy,
            local_interest_model_refs@,
            loaded_model_refs@,
            *target,
            local_vram_bytes,
        ),
{
    let upgrade = model_target_reconciliation_demand_upgrade_candidate(
        policy,
        loaded_model_refs,
        target,
    );
    let asked_for = local_interest_model_refs.contains(target.model_ref.as_str()) || upgrade;
    target.wanted && target.serving_node_count == 0 && asked_for
        && matches!(target.capacity_advice.state, CapacityAdviceState::SingleNodeFit)
        && model_target_reconciliation_local_fit(target, local_vram_bytes)
}

/// The names under which the file of a model is looked for, in order.
pub fn local_path_names<S>(target: &ModelTargetPayload<S>) -> (names: Vec<String>)
    ensures
        texts(names@) == match target.model_name {
            Some(name) => seq![target.model_ref@, name@],
            None => seq![target.model_ref@],
        },
{
    let mut names: Vec<String> = Vec::new();
    names.push(target.model_ref.clone());
    if let Some(name) = &target.model_name {
        names.push(name.clone());
        assert(texts(names@) =~= seq![target.model_ref@, name@]);
    } else {
        assert(texts(names@) =~= seq![target.model_ref@]);
    }
    names
}

/// A model with its file, where it was found.
pub open spec fn candidate_of<S>(target: ModelTargetPayload<S>, local_path: Option<String>) ->
    ModelTargetReconciliationCandidate<S> {
    ModelTargetReconciliationCandidate {
        rank: target.rank,
        model_ref: target.model_ref,
        profile: target.profile,
        model_name: target.model_name,
        wanted: target.wanted,
        wanted_reason: target.wanted_reason,
        request_count: target.request_count,
        last_active_secs_ago: target.last_active_secs_ago,
        serving_node_count: target.serving_node_count,
        capacity_state: target.capacity_advice.state,
        local_path,
    }
}

fn reconciliation_candidate<S>(target: ModelTargetPayload<S>, local_path: Option<String>) -> (candidate:
    ModelTargetReconciliationCandidate<S>)
    ensures
        candidate == candidate_of(target, local_path),
{
    ModelTargetReconciliationCandidate {
        rank: target.rank,
        model_ref: target.model_ref,
        profile: target.profile,
        model_name: target.model_name,
        wanted: target.wanted,
        wanted_reason: target.wanted_reason,
        request_count: target.request_count,
        last_active_secs_ago: target.last_active_secs_ago,
        serving_node_count: target.serving_node_count,
        capacity_state: target.capacity_advice.state,
        local_path,
    }
}

/// The file of a model that is worth looking for, and none for any other.
pub open spec fn usable_path(worth: bool, found: Option<String>) -> Option<String> {
    if worth {
        found
    } else {
        None
    }
}

/// The models of a round, each with its file where it is worth looking for and
/// was found. `found` holds, model by model, the file that was found.
pub fn reconciliation_candidates<S>(
    policy: &ModelTargetReconciliationPolicy,
    local_interest_model_refs: &TextSet,
    loaded_model_refs: &TextSet,
    targets: Vec<ModelTargetPayload<S>>,
    local_vram_bytes: u64,
    found: Vec<Option<String>>,
) -> (candidates: Vec<ModelTargetReconciliationCandidate<S>>)
    requires
        found@.len() == targets@.len(),
    ensures
        candidates@.len() == targets@.len(),
        forall|i: int|
            0 <= i < targets@.len() ==> #[trigger] candidates@[i] == candidate_of(
                targets@[i],
                usable_path(
                    worth_looking(
                        *policy,
                        local_interest_model_refs@,
                        loaded_model_refs@,
                        targets@[i],
                        local_vram_bytes,
                    ),
                    found@[i],
                ),
            ),
{
    let ghost all = targets@;
    let ghost paths = found@;
    let mut targets = targets;
    let mut found = found;
    let mut candidates: Vec<ModelTargetReconciliationCandidate<S>> = Vec::new();
    assert(all.skip(0) =~= all && paths.skip(0) =~= paths);
    while targets.len() > 0
        invariant
            candidates@.len() <= all.len(),
            all.len() == paths.len(),
            targets@ == all.skip(candidates@.len() as int),
            found@ == paths.skip(candidates@.len() as int),
            forall|i: int|
                0 <= i < candidates@.len() ==> #[trigger] candidates@[i] == candidate_of(
                    all[i],
                    usable_path(
                        worth_looking(
                            *policy,
                            local_interest_model_refs@,
                            loaded_model_refs@,
                            all[i],
                            local_vram_bytes,
                        ),
                        paths[i],
                    ),
                ),
        decreases targets@.len(),
    {
        let ghost done = candidates@.len() as int;
        let target = targets.remove(0);
        let path = found.remove(0);
        assert(all.skip(done).remove(0) =~= all.skip(done + 1));
        assert(paths.skip(done).remove(0) =~= paths.skip(done + 1));
        let worth = wants_local_path(
            policy,
            local_interest_model_refs,
            loaded_model_refs,
            &target,
            local_vram_bytes,
        );
        let local_path = if worth {
            path
        } else {
            None
        };
        candidates.push(reconciliation_candidate(target, local_path));
    }
    candidates
}

/// Whether there is a round of reconciliation at all: not without a policy or
/// a console.
pub fn reconciles(policy: &ModelTargetReconciliationPolicy, has_console: bool) -> (reconciles: bool)
    ensures
        reconciles == (policy.enabled && has_console),
{
    policy.enabled && has_console
}

/// What a round of reconciliation begins with.
#[derive(Debug, Clone, Copy, PartialEq, Eq, Structural)]
pub enum ReconcileStart {
    /// Only what has expired is forgotten.
    PruneExpired,
    /// The targets are looked at.
    Plan,
}

/// What a round begins with: there is nothing to plan where there is neither
/// interest nor a loaded model.
pub fn reconcile_start(local_interest_model_refs: &TextSet, loaded_model_refs: &TextSet) -> (start:
    ReconcileStart)
    ensures
        start == if local_interest_model_refs@ == Set::<Seq<char>>::empty() && loaded_model_refs@
            == Set::<Seq<char>>::empty() {
            ReconcileStart::PruneExpired
        } else {
            ReconcileStart::Plan
        },
{
    if local_interest_model_refs.is_empty() && loaded_model_refs.is_empty() {
        ReconcileStart::PruneExpired
    } else {
        ReconcileStart::Plan
    }
}

/// A model that was chosen to be loaded.
#[derive(Debug, PartialEq, Eq)]
pub struct ModelTargetReconciliationAction {
    pub model_ref: String,
    pub profile: String,
    /// The file to load.
    pub load_spec: String,
    /// The model that makes room for it.
    pub replace_model_ref: Option<String>,
}

/// A request to the runtime.
#[derive(Debug, PartialEq, Eq)]
pub enum ReconciliationRequest {
    Unload { model_ref: String },
    Load { spec: String, profile: String },
}

/// What a request asks for.
pub enum RequestView {
    Unload { model_ref: Seq<char> },
    Load { spec: Seq<char>, profile: Seq<char> },
}

impl View for ReconciliationRequest {
    type V = RequestView;

    open spec fn view(&self) -> RequestView {
        match *self {
            ReconciliationRequest::Unload { model_ref } => RequestView::Unload {
                model_ref: model_ref@,
            },
            ReconciliationRequest::Load { spec, profile } => RequestView::Load {
                spec: spec@,
                profile: profile@,
            },
        }
    }
}

/// What the runtime answers to a load that was granted.
#[derive(Debug, PartialEq, Eq)]
pub struct LoadAnswer {
    /// The model as it was asked for.
    pub model_ref: String,
    /// The name under which it was loaded.
    pub model: String,
    pub instance_id: String,
    pub profile: String,
    pub backend: Option<String>,
    pub context_length: Option<u32>,
}

/// What the runtime answers to an unload that was granted.
#[derive(Debug, PartialEq, Eq)]
pub struct UnloadAnswer {
    pub model: String,
    pub instance_id: String,
    pub unloaded: bool,
}

/// Why a request was not granted.
#[derive(Debug, PartialEq, Eq)]
pub enum RequestFailure {
    /// It could not be queued.
    QueueClosed,
    /// No answer came; the cause.
    NoAnswer { cause: String },
    /// It was refused; the error.
    Refused { error: String },
}

/// The text for a request that was not granted.
pub open spec fn failure_text(request: RequestView, failure: RequestFailure) -> Seq<char> {
    match (failure, request) {
        (RequestFailure::QueueClosed, RequestView::Unload { model_ref }) => {
            "runtime unload queue closed for replacement target '"@ + model_ref + "'"@
        },
        (RequestFailure::QueueClosed, RequestView::Load { spec, .. }) => {
            "runtime load queue closed for '"@ + spec + "'"@
        },
        (RequestFailure::NoAnswer { cause }, RequestView::Unload { .. }) => {
            "runtime unload response channel closed: "@ + cause@
        },
        (RequestFailure::NoAnswer { cause }, RequestView::Load { .. }) => {
            "runtime load response channel closed: "@ + cause@
        },
        (RequestFailure::Refused { error }, _) => error@,
    }
}

/// The text for a request that was not granted.
pub fn failure_message(request: &ReconciliationRequest, failure: &RequestFailure) -> (message:
    String)
    ensures
        message@ == failure_text(request@, *failure),
{
    match failure {
        RequestFailure::QueueClosed => match request {
            ReconciliationRequest::Unload { model_ref } => concat(
                concat(
                    "runtime unload queue closed for replacement target '".to_owned(),
                    model_ref.as_str(),
                ),
                "'",
            ),
            ReconciliationRequest::Load { spec, .. } => concat(
                concat("runtime load queue closed for '".to_owned(), spec.as_str()),
                "'",
            ),
        },
        RequestFailure::NoAnswer { cause } => match request {
            ReconciliationRequest::Unload { .. } => concat(
                "runtime unload response channel closed: ".to_owned(),
                cause.as_str(),
            ),
            ReconciliationRequest::Load { .. } => concat(
                "runtime load response channel closed: ".to_owned(),
                cause.as_str(),
            ),
        },
        RequestFailure::Refused { error } => error.clone(),
    }
}

/// What is next for an action.
#[derive(Debug, PartialEq, Eq)]
pub enum ReconciliationStep {
    /// A request is made.
    Request(ReconciliationRequest),
    /// The action has ended with this.
    Finished(Result<LoadAnswer, String>),
}

/// What is next for an action.
pub enum StepView {
    Request(RequestView),
    Loaded(LoadAnswer),
    Failed(Seq<char>),
}

impl View for ReconciliationStep {
    type V = StepView;

    open spec fn view(&self) -> StepView {
        match *self {
            ReconciliationStep::Request(request) => StepView::Request(request@),
            ReconciliationStep::Finished(Ok(answer)) => StepView::Loaded(answer),
            ReconciliationStep::Finished(Err(error)) => StepView::Failed(error@),
        }
    }
}

/// The request that loads the model of an action.
pub open spec fn load_request(action: ModelTargetReconciliationAction) -> RequestView {
    RequestView::Load { spec: action.load_spec@, profile: action.profile@ }
}

/// What is next for an action, by the answers so far: what makes room is
/// unloaded first, and only when that was granted the model is loaded. The
/// answer to the load is the result.
pub open spec fn step_after(
    action: ModelTargetReconciliationAction,
    unloaded: Option<&Result<UnloadAnswer, RequestFailure>>,
    loaded: Option<Result<LoadAnswer, RequestFailure>>,
) -> StepView {
    match (action.replace_model_ref, unloaded) {
        (Some(model_ref), None) => StepView::Request(RequestView::Unload { model_ref: model_ref@ }),
        (Some(model_ref), Some(Err(failure))) => StepView::Failed(
            failure_text(RequestView::Unload { model_ref: model_ref@ }, *failure),
        ),
        _ => match loaded {
            None => StepView::Request(load_request(action)),
            Some(Ok(answer)) => StepView::Loaded(answer),
            Some(Err(failure)) => StepView::Failed(failure_text(load_request(action), failure)),
        },
    }
}

/// What is next for an action, by the answers to its unload and its load as
/// far as they have come.
pub fn run_model_target_reconciliation_action(
    action: &ModelTargetReconciliationAction,
    unloaded: Option<&Result<UnloadAnswer, RequestFailure>>,
    loaded: Option<Result<LoadAnswer, RequestFailure>>,
) -> (step: ReconciliationStep)
    ensures
        step@ == step_after(*action, unloaded, loaded),
{
    if let Some(model_ref) = &action.replace_model_ref {
        let request = ReconciliationRequest::Unload { model_ref: model_ref.clone() };
        match unloaded {
            None => {
                return ReconciliationStep::Request(request);
            },
            Some(Err(failure)) => {
                return ReconciliationStep::Finished(Err(failure_message(&request, failure)));
            },
            Some(Ok(_)) => {},
        }
    }
    let request = ReconciliationRequest::Load {
        spec: action.load_spec.clone(),
        profile: action.profile.clone(),
    };
    match loaded {
        None => ReconciliationStep::Request(request),
        Some(Ok(answer)) => ReconciliationStep::Finished(Ok(answer)),
        Some(Err(failure)) => ReconciliationStep::Finished(
            Err(failure_message(&request, &failure)),
        ),
    }
}

/// The steps of an action from its beginning on, where the runtime would
/// answer an unload and a load like this.
pub open spec fn steps_of(
    action: ModelTargetReconciliationAction,
    unload: Result<UnloadAnswer, RequestFailure>,
    load: Result<LoadAnswer, RequestFailure>,
) -> Seq<StepView> {
    if action.replace_model_ref is Some {
        let asked = seq![step_after(action, None, None)].push(
            step_after(action, Some(&unload), None),
        );
        if unload is Ok {
            asked.push(step_after(action, Some(&unload), Some(load)))
        } else {
            asked
        }
    } else {
        seq![step_after(action, None, None)].push(step_after(action, None, Some(load)))
    }
}

/// An action that replaces a model asks to unload that model before anything
/// else. Where this is not granted the action fails and nothing is loaded;
/// where it is, one load follows. An action that replaces none makes just the
/// load. Either way the answer to the load is the result.
pub proof fn law_replacement_unloads_before_loading(
    action: ModelTargetReconciliationAction,
    unload: Result<UnloadAnswer, RequestFailure>,
    load: Result<LoadAnswer, RequestFailure>,
)
    ensures
        ({
            let steps = steps_of(action, unload, load);
            let asks_load = StepView::Request(load_request(action));
            let ends = match load {
                Ok(answer) => StepView::Loaded(answer),
                Err(failure) => StepView::Failed(failure_text(load_request(action), failure)),
            };
            match action.replace_model_ref {
                Some(model_ref) => {
                    let unload_request = RequestView::Unload { model_ref: model_ref@ };
                    let asks_unload = StepView::Request(unload_request);
                    match unload {
                        Ok(_) => steps == seq![asks_unload, asks_load, ends],
                        Err(failure) => steps == seq![
                            asks_unload,
                            StepView::Failed(failure_text(unload_request, failure)),
                        ],
                    }
                },
                None => steps == seq![asks_load, ends],
            }
        }),
{
    let steps = steps_of(action, unload, load);
    let asks_load = StepView::Request(load_request(action));
    let ends = match load {
        Ok(answer) => StepView::Loaded(answer),
        Err(failure) => StepView::Failed(failure_text(load_request(action), failure)),
    };
    match action.replace_model_ref {
        Some(model_ref) => {
            let unload_request = RequestView::Unload { model_ref: model_ref@ };
            let asks_unload = StepView::Request(unload_request);
            match unload {
                Ok(_) => {
                    assert(steps =~= seq![asks_unload, asks_load, ends]);
                },
                Err(failure) => {
                    assert(steps =~= seq![
                        asks_unload,
                        StepView::Failed(failure_text(unload_request, failure)),
                    ]);
                },
            }
        },
        None => {
            assert(steps =~= seq![asks_load, ends]);
        },
    }
}

/// A line for the user.
#[derive(Debug, PartialEq, Eq)]
pub struct Notice {
    pub message: String,
    pub context: Option<String>,
}

/// What is told of an action that was queued.
pub fn reconciliation_queued_notice(action: &ModelTargetReconciliationAction) -> (notice: Notice)
    ensures
        match action.replace_model_ref {
            Some(replaced) => {
                &&& notice.message@ == "Model target reconciliation upgrading to '"@
                    + action.model_ref@ + "'"@
                &&& notice.context matches Some(context) && context@ == "replace="@ + replaced@
            },
            None => {
                &&& notice.message@ == "Model target reconciliation loading '"@ + action.model_ref@
                    + "'"@
                &&& notice.context matches Some(context) && context@ == "path="@ + action.load_spec@
            },
        },
{
    match &action.replace_model_ref {
        Some(replaced) => Notice {
            message: concat(
                concat(
                    "Model target reconciliation upgrading to '".to_owned(),
                    action.model_ref.as_str(),
                ),
                "'",
            ),
            context: Some(concat("replace=".to_owned(), replaced.as_str())),
        },
        None => Notice {
            message: concat(
                concat(
                    "Model target reconciliation loading '".to_owned(),
                    action.model_ref.as_str(),
                ),
                "'",
            ),
            context: Some(concat("path=".to_owned(), action.load_spec.as_str())),
        },
    }
}

/// What is recorded once an action has ended.
#[derive(Debug, PartialEq, Eq)]
pub struct ReconciliationRecord {
    /// Whether the model was loaded.
    pub loaded: bool,
    /// The profile under which the outcome is recorded.
    pub profile: String,
    /// Whether another profile was loaded than the one asked for.
    pub profile_differs: bool,
    pub notice: Notice,
}

/// What is recorded once an action has ended: under the profile that was
/// loaded, where the answer names one, and under the one asked for otherwise.
pub fn model_target_reconciliation_result(
    model_ref: &str,
    profile: &str,
    result: Result<LoadAnswer, String>,
) -> (record: ReconciliationRecord)
    ensures
        match result {
            Ok(answer) => {
                &&& record.loaded
                &&& record.profile@ == if answer.profile@.len() == 0 {
                    profile@
                } else {
                    answer.profile@
                }
                &&& record.profile_differs == (answer.profile@.len() != 0 && answer.profile@
                    != profile@)
                &&& record.notice.message@ == "Model target reconciliation loaded '"@
                    + answer.model@ + "'"@
                &&& record.notice.context matches Some(context) && context@ == "model_ref="@
                    + model_ref@ + " instance="@ + answer.instance_id@
            },
            Err(error) => {
                &&& !record.loaded
                &&& record.profile@ == profile@
                &&& !record.profile_differs
                &&& record.notice.message@ == "Model target reconciliation failed for '"@
                    + model_ref@ + "'"@
                &&& record.notice.context matches Some(context) && context@ == error@
            },
        },
{
    match result {
        Ok(answer) => {
            let named = !answer.profile.as_str().is_empty();
            let differs = named && !same_text(answer.profile.as_str(), profile);
            let notice = Notice {
                message: concat(
                    concat(
                        "Model target reconciliation loaded '".to_owned(),
                        answer.model.as_str(),
                    ),
                    "'",
                ),
                context: Some(
                    concat(
                        concat(concat("model_ref=".to_owned(), model_ref), " instance="),
                        answer.instance_id.as_str(),
                    ),
                ),
            };
            ReconciliationRecord {
                loaded: true,
                profile: if named {
                    answer.profile
                } else {
                    profile.to_owned()
                },
                profile_differs: differs,
                notice,
            }
        },
        Err(error) => ReconciliationRecord {
            loaded: false,
            profile: profile.to_owned(),
            profile_differs: false,
            notice: Notice {
                message: concat(
                    concat("Model target reconciliation failed for '".to_owned(), model_ref),
                    "'",
                ),
                context: Some(error),
            },
        },
    }
}

/// The names under which an unload by hand is recorded, so that the model is
/// not loaded again at once: the name in the request, and the model's own where
/// it is another. `unloaded` is the model that was unloaded, if one was.
pub fn manual_unload_refs(requested_target: &str, unloaded: Option<&str>) -> (refs: Vec<String>)
    ensures
        texts(refs@) == match unloaded {
            None => Seq::<Seq<char>>::empty(),
            Some(model) => if model@ != requested_target@ {
                seq![requested_target@, model@]
            } else {
                seq![requested_target@]
            },
        },
{
    let mut refs: Vec<String> = Vec::new();
    match unloaded {
        None => {
            assert(texts(refs@) =~= Seq::<Seq<char>>::empty());
        },
        Some(model) => {
            refs.push(requested_target.to_owned());
            if !same_text(model, requested_target) {
                refs.push(model.to_owned());
                assert(texts(refs@) =~= seq![requested_target@, model@]);
            } else {
                assert(texts(refs@) =~= seq![requested_target@]);
            }
        },
    }
    refs
}

/// Whether some instance of a list runs the model.
pub open spec fn runs_model(instances: Seq<LoadedInstance>, name: Seq<char>) -> bool {
    exists|i: int| 0 <= i < instances.len() && (#[trigger] instances[i]).model_name@ == name
}

/// The names of the models that a list of instances runs.
pub open spec fn model_names(instances: Seq<LoadedInstance>) -> Set<Seq<char>> {
    Set::new(|name: Seq<char>| runs_model(instances, name))
}

fn insert_model_names(names: &mut TextSet, instances: &Vec<LoadedInstance>)
    ensures
        final(names)@ == old(names)@.union(model_names(instances@)),
{
    let ghost before = names@;
    let mut i: usize = 0;
    proof {
        assert(names@ =~= before.union(model_names(instances@.take(0))));
    }
    while i < instances.len()
        invariant
            i <= instances@.len(),
            names@ == before.union(model_names(instances@.take(i as int))),
        decreases instances@.len() - i,
    {
        let ghost so_far = names@;
        names.insert(instances[i].model_name.as_str());
        proof {
            let earlier = instances@.take(i as int);
            let now = instances@.take(i + 1);
            assert forall|name: Seq<char>|
                #![trigger names@.contains(name)]
                names@.contains(name) <==> before.contains(name) || runs_model(now, name) by {
                assert(so_far.contains(name) <==> before.contains(name) || runs_model(
                    earlier,
                    name,
                ));
                if runs_model(earlier, name) {
                    let k = choose|k: int|
                        0 <= k < earlier.len() && (#[trigger] earlier[k]).model_name@ == name;
                    assert(now[k].model_name@ == name);
                }
                if runs_model(now, name) {
                    let k = choose|k: int|
                        0 <= k < now.len() && (#[trigger] now[k]).model_name@ == name;
                    if k < i {
                        assert(earlier[k].model_name@ == name);
                    }
                }
                if instances@[i as int].model_name@ == name {
                    assert(now[i as int].model_name@ == name);
                }
            }
            assert(names@ =~= before.union(model_names(now)));
        }
        i += 1;
    }
    assert(instances@.take(i as int) =~= instances@);
}

/// The names of all loaded models.
pub fn runtime_loaded_model_refs(
    runtime_models: &Vec<LoadedInstance>,
    managed_models: &Vec<LoadedInstance>,
) -> (refs: TextSet)
    ensures
        refs@ == model_names(runtime_models@).union(model_names(managed_models@)),
{
    let mut refs: TextSet = TextSet::new();
    insert_model_names(&mut refs, runtime_models);
    insert_model_names(&mut refs, managed_models);
    proof {
        assert(refs@ =~= model_names(runtime_models@).union(model_names(managed_models@)));
    }
    refs
}

/// A model gets a file to load only where it is known to fit into this node's
/// memory, nobody serves it and it is wanted.
pub proof fn law_only_fitting_models_are_loaded<S>(
    policy: ModelTargetReconciliationPolicy,
    interests: Set<Seq<char>>,
    loaded: Set<Seq<char>>,
    target: ModelTargetPayload<S>,
    local_vram_bytes: u64,
    found: Option<String>,
)
    requires
        candidate_of(
            target,
            usable_path(worth_looking(policy, interests, loaded, target, local_vram_bytes), found),
        ).local_path is Some,
    ensures
        target.capacity_advice.required_bytes matches Some(required) && required
            <= local_vram_bytes,
        target.serving_node_count == 0,
        target.wanted,
{
}

/// For which models a file is looked for: wanted, served by nobody, of interest
/// here or in demand, fitting a single node and this one's memory. In demand is
/// what has been asked for often and lately enough, where such upgrades are
/// wanted and there is a model to give way.
pub proof fn law_which_models_are_looked_for<S>(
    policy: ModelTargetReconciliationPolicy,
    interests: Set<Seq<char>>,
    loaded: Set<Seq<char>>,
    target: ModelTargetPayload<S>,
    local_vram_bytes: u64,
)
    ensures
        worth_looking(policy, interests, loaded, target, local_vram_bytes) <==> {
            let asked = policy.demand_upgrades_enabled && (exists|name: Seq<char>|
                loaded.contains(name)) && (target.wanted_reason matches Some(reason) && reason@
                == "active_demand"@) && target.request_count
                >= policy.demand_upgrade_min_request_count && (
            target.last_active_secs_ago matches Some(age) && age
                <= policy.demand_upgrade_max_age_secs);
            &&& target.wanted
            &&& target.serving_node_count == 0
            &&& interests.contains(target.model_ref@) || asked
            &&& target.capacity_advice.state is SingleNodeFit
            &&& target.capacity_advice.required_bytes matches Some(required) && required
                <= local_vram_bytes
        },
{
    if loaded == Set::<Seq<char>>::empty() {
        assert(forall|name: Seq<char>| !loaded.contains(name));
    } else {
        assert(exists|name: Seq<char>| loaded.contains(name)) by {
            if forall|name: Seq<char>| !loaded.contains(name) {
                assert(loaded =~= Set::<Seq<char>>::empty());
            }
        }
    }
}

/// A candidate is the model as it was announced, with the file that was found
/// where one was worth looking for.
pub proof fn law_candidates_are_the_announced_models<S>(
    target: ModelTargetPayload<S>,
    worth: bool,
    found: Option<String>,
)
    ensures
        ({
            let candidate = candidate_of(target, usable_path(worth, found));
            &&& candidate.rank == target.rank
            &&& candidate.model_ref == target.model_ref
            &&& candidate.profile == target.profile
            &&& candidate.model_name == target.model_name
            &&& candidate.wanted == target.wanted
            &&& candidate.wanted_reason == target.wanted_reason
            &&& candidate.request_count == target.request_count
            &&& candidate.last_active_secs_ago == target.last_active_secs_ago
            &&& candidate.serving_node_count == target.serving_node_count
            &&& candidate.capacity_state == target.capacity_advice.state
            &&& worth ==> candidate.local_path == found
            &&& !worth ==> candidate.local_path is None
        }),
{
}

/// What comes next for an action. The model that makes room is unloaded first;
/// where that is refused the action has failed; and only then the file is
/// loaded, under the profile that was asked for.
pub proof fn law_actions_take_their_steps(
    action: ModelTargetReconciliationAction,
    unload: Result<UnloadAnswer, RequestFailure>,
    load: Result<LoadAnswer, RequestFailure>,
)
    ensures
        ({
            let loads = StepView::Request(
                RequestView::Load { spec: action.load_spec@, profile: action.profile@ },
            );
            &&& action.replace_model_ref matches Some(replaced) ==> {
                &&& step_after(action, None, None) == StepView::Request(
                    RequestView::Unload { model_ref: replaced@ },
                )
                &&& unload is Ok ==> step_after(action, Some(&unload), None) == loads
                &&& unload matches Err(failure) ==> step_after(action, Some(&unload), None)
                    is Failed
                &&& unload is Ok ==> (load matches Ok(answer) ==> step_after(
                    action,
                    Some(&unload),
                    Some(load),
                ) == StepView::Loaded(answer))
                &&& load is Err && unload is Ok ==> step_after(action, Some(&unload), Some(load))
                    is Failed
            }
            &&& action.replace_model_ref is None ==> {
                &&& step_after(action, None, None) == loads
                &&& load matches Ok(answer) ==> step_after(action, None, Some(load))
                    == StepView::Loaded(answer)
                &&& load is Err ==> step_after(action, None, Some(load)) is Failed
            }
        }),
{
}

/// A request that was refused fails with the words of the refusal, and one that
/// could not be queued or answered with the name of what was asked.
pub proof fn law_failures_say_what_went_wrong(
    model_ref: Seq<char>,
    spec: Seq<char>,
    profile: Seq<char>,
    words: String,
)
    ensures
        ({
            let unload = RequestView::Unload { model_ref };
            let load = RequestView::Load { spec, profile };
            &&& failure_text(unload, RequestFailure::Refused { error: words }) == words@
            &&& failure_text(load, RequestFailure::Refused { error: words }) == words@
            &&& failure_text(unload, RequestFailure::QueueClosed)
                == "runtime unload queue closed for replacement target '"@ + model_ref + "'"@
            &&& failure_text(load, RequestFailure::QueueClosed)
                == "runtime load queue closed for '"@ + spec + "'"@
            &&& failure_text(unload, RequestFailure::NoAnswer { cause: words })
                == "runtime unload response channel closed: "@ + words@
            &&& failure_text(load, RequestFailure::NoAnswer { cause: words })
                == "runtime load response channel closed: "@ + words@
        }),
{
}

/// A name is that of a loaded model exactly if an instance of either list runs
/// under it.
pub proof fn law_loaded_names_are_those_of_instances(
    runtime_models: Seq<LoadedInstance>,
    managed_models: Seq<LoadedInstance>,
    name: Seq<char>,
)
    ensures
        model_names(runtime_models).union(model_names(managed_models)).contains(name) <==> (exists|
            i: int,
        |
            0 <= i < runtime_models.len() && (#[trigger] runtime_models[i]).model_name@ == name)
            || (exists|i: int|
            0 <= i < managed_models.len() && (#[trigger] managed_models[i]).model_name@ == name),
{
}

} // verus!
