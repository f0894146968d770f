//! What happens to a model from the request to load it until it is gone.
//!
//! The steps are performed elsewhere; here they are chosen and put in order.

use crate::host::reconcile::{LoadAnswer, Notice, UnloadAnswer};
use crate::host::unload::UnloadError;
use crate::number::{decimal, decimal_text};
use crate::text::{concat, same_text};
use vstd::prelude::*;

verus! {

/// What the dashboard says of a model.
#[derive(Debug, Clone, Copy, PartialEq, Eq, Structural)]
pub enum ProcessStatus {
    Running,
    ShuttingDown,
    Exited,
    Stopped,
}

impl ProcessStatus {
    /// The words for it; a running model has its own.
    pub fn label(&self) -> (label: Option<&'static str>)
        ensures
            match *self {
                ProcessStatus::Running => label is None,
                ProcessStatus::ShuttingDown => label matches Some(label) && label@
                    == "shutting down"@,
                ProcessStatus::Exited => label matches Some(label) && label@ == "exited"@,
                ProcessStatus::Stopped => label matches Some(label) && label@ == "stopped"@,
            },
    {
        match self {
            ProcessStatus::Running => None,
            ProcessStatus::ShuttingDown => Some("shutting down"),
            ProcessStatus::Exited => Some("exited"),
            ProcessStatus::Stopped => Some("stopped"),
        }
    }
}

/// One step in the life of a model.
#[derive(Debug, Clone, Copy, PartialEq, Eq, Structural)]
pub enum ModelStep {
    /// Tell the mesh that this node will serve the model.
    AddServingAssignment,
    RemoveServingAssignment,
    StartModel,
    /// Give back the memory that was set aside.
    ReleaseCapacity,
    RecordLaunchFailure,
    RecordLaunchSuccess,
    /// Route requests to the model.
    AddLocalTarget,
    RemoveLocalTarget,
    RegisterInstance,
    UnregisterInstance,
    PublishUnavailable,
    RescanModels,
    ShowProcess(ProcessStatus),
    ShowConsoleProcess(ProcessStatus),
    SetConsoleGuardrails,
    WatchForExit,
    TellLoaded,
    RefreshContextUsage,
    RemoveContextUsage,
    PublishSlots,
    RememberSurvey,
    RecordSurveyUnload,
    RecordSurveyExit,
    /// Put the model on the list of loaded models.
    KeepModel,
    RemoveModel,
    /// Let requests finish.
    Drain,
    ShutdownHandle,
    RemoveProcess,
    RemoveConsoleProcess,
    TellUnloaded,
    TellExited,
    TellUnloading,
    TellStopped,
    RemoveManaged,
    SignalStop,
    AwaitStop,
    WithdrawAdvertised,
    ClearAdvertisedContext,
    TellManagedUnloaded,
}

/// The step where it is wanted.
pub open spec fn step_if(wanted: bool, step: ModelStep) -> Seq<ModelStep> {
    if wanted {
        seq![step]
    } else {
        seq![]
    }
}

fn push_step(steps: &mut Vec<ModelStep>, wanted: bool, step: ModelStep)
    ensures
        final(steps)@ == old(steps)@ + step_if(wanted, step),
{
    if wanted {
        steps.push(step);
    }
    assert(steps@ =~= old(steps)@ + step_if(wanted, step));
}

/// The steps once memory was asked for: without it the model is not loaded.
pub open spec fn steps_after_reserve(reserved: bool) -> Seq<ModelStep> {
    if reserved {
        seq![ModelStep::AddServingAssignment].push(ModelStep::StartModel)
    } else {
        seq![]
    }
}

/// The steps once memory was asked for.
pub fn load_after_reserve(reserved: bool) -> (steps: Vec<ModelStep>)
    ensures
        steps@ == steps_after_reserve(reserved),
{
    let mut steps: Vec<ModelStep> = Vec::new();
    if reserved {
        steps.push(ModelStep::AddServingAssignment);
        steps.push(ModelStep::StartModel);
    }
    assert(steps@ =~= steps_after_reserve(reserved));
    steps
}

/// The steps once the model was started, or failed to start.
pub open spec fn steps_after_start(started: bool, console: bool) -> Seq<ModelStep> {
    if !started {
        seq![ModelStep::ReleaseCapacity].push(ModelStep::RemoveServingAssignment).push(
            ModelStep::RecordLaunchFailure,
        )
    } else {
        seq![ModelStep::RecordLaunchSuccess].push(ModelStep::AddLocalTarget).push(
            ModelStep::RegisterInstance,
        ).push(ModelStep::RescanModels).push(ModelStep::ShowProcess(ProcessStatus::Running))
            + step_if(console, ModelStep::SetConsoleGuardrails) + step_if(
            console,
            ModelStep::ShowConsoleProcess(ProcessStatus::Running),
        ) + seq![ModelStep::WatchForExit].push(ModelStep::TellLoaded).push(
            ModelStep::RefreshContextUsage,
        ).push(ModelStep::PublishSlots).push(ModelStep::RememberSurvey).push(ModelStep::KeepModel)
    }
}

/// The steps once the model was started, or failed to start.
pub fn load_after_start(started: bool, console: bool) -> (steps: Vec<ModelStep>)
    ensures
        steps@ == steps_after_start(started, console),
{
    let mut steps: Vec<ModelStep> = Vec::new();
    if !started {
        steps.push(ModelStep::ReleaseCapacity);
        steps.push(ModelStep::RemoveServingAssignment);
        steps.push(ModelStep::RecordLaunchFailure);
    } else {
        steps.push(ModelStep::RecordLaunchSuccess);
        steps.push(ModelStep::AddLocalTarget);
        steps.push(ModelStep::RegisterInstance);
        steps.push(ModelStep::RescanModels);
        steps.push(ModelStep::ShowProcess(ProcessStatus::Running));
        push_step(&mut steps, console, ModelStep::SetConsoleGuardrails);
        push_step(&mut steps, console, ModelStep::ShowConsoleProcess(ProcessStatus::Running));
        steps.push(ModelStep::WatchForExit);
        steps.push(ModelStep::TellLoaded);
        steps.push(ModelStep::RefreshContextUsage);
        steps.push(ModelStep::PublishSlots);
        steps.push(ModelStep::RememberSurvey);
        steps.push(ModelStep::KeepModel);
    }
    assert(steps@ =~= steps_after_start(started, console));
    steps
}

/// The steps that begin to unload a model of the runtime.
pub open spec fn steps_to_unload(surveyed: bool) -> Seq<ModelStep> {
    seq![ModelStep::RemoveModel] + step_if(surveyed, ModelStep::RecordSurveyUnload) + seq![
        ModelStep::RemoveLocalTarget,
    ].push(ModelStep::UnregisterInstance)
}

/// The steps that begin to unload a model of the runtime; `surveyed` tells
/// whether its load was recorded.
pub fn begin_unload(surveyed: bool) -> (steps: Vec<ModelStep>)
    ensures
        steps@ == steps_to_unload(surveyed),
{
    let mut steps: Vec<ModelStep> = Vec::new();
    steps.push(ModelStep::RemoveModel);
    push_step(&mut steps, surveyed, ModelStep::RecordSurveyUnload);
    steps.push(ModelStep::RemoveLocalTarget);
    steps.push(ModelStep::UnregisterInstance);
    assert(steps@ =~= steps_to_unload(surveyed));
    steps
}

/// The steps that finish an unload.
pub open spec fn steps_to_finish_unload(last: bool, console: bool, drains: bool) -> Seq<ModelStep> {
    step_if(last, ModelStep::PublishUnavailable) + seq![
        ModelStep::ShowProcess(ProcessStatus::ShuttingDown),
    ] + step_if(console, ModelStep::ShowConsoleProcess(ProcessStatus::ShuttingDown)) + step_if(
        drains,
        ModelStep::Drain,
    ) + seq![ModelStep::RemoveContextUsage].push(ModelStep::ShutdownHandle).push(
        ModelStep::ReleaseCapacity,
    ).push(ModelStep::RemoveProcess) + step_if(console, ModelStep::RemoveConsoleProcess) + seq![
        ModelStep::TellUnloaded,
    ]
}

/// The steps that finish an unload; `last` tells whether no other instance of
/// the model is left.
pub fn finish_unload(last: bool, console: bool, drain_delay_nanos: u128) -> (steps: Vec<ModelStep>)
    ensures
        steps@ == steps_to_finish_unload(last, console, drain_delay_nanos != 0),
{
    let mut steps: Vec<ModelStep> = Vec::new();
    push_step(&mut steps, last, ModelStep::PublishUnavailable);
    steps.push(ModelStep::ShowProcess(ProcessStatus::ShuttingDown));
    push_step(&mut steps, console, ModelStep::ShowConsoleProcess(ProcessStatus::ShuttingDown));
    push_step(&mut steps, drain_delay_nanos != 0, ModelStep::Drain);
    steps.push(ModelStep::RemoveContextUsage);
    steps.push(ModelStep::ShutdownHandle);
    steps.push(ModelStep::ReleaseCapacity);
    steps.push(ModelStep::RemoveProcess);
    push_step(&mut steps, console, ModelStep::RemoveConsoleProcess);
    steps.push(ModelStep::TellUnloaded);
    assert(steps@ =~= steps_to_finish_unload(last, console, drain_delay_nanos != 0));
    steps
}

/// The steps that begin to unload a managed model.
pub fn begin_managed_unload() -> (steps: Vec<ModelStep>)
    ensures
        steps@ == seq![
            ModelStep::RemoveManaged,
            ModelStep::SignalStop,
            ModelStep::AwaitStop,
        ],
{
    let mut steps: Vec<ModelStep> = Vec::new();
    steps.push(ModelStep::RemoveManaged);
    steps.push(ModelStep::SignalStop);
    steps.push(ModelStep::AwaitStop);
    assert(steps@ =~= seq![
        ModelStep::RemoveManaged,
        ModelStep::SignalStop,
        ModelStep::AwaitStop,
    ]);
    steps
}

/// The steps that finish the unload of a managed model: the mesh is told only
/// where no other instance of the model is left.
pub open spec fn steps_to_finish_managed_unload(still_registered: bool, console: bool) -> Seq<
    ModelStep,
> {
    step_if(!still_registered, ModelStep::PublishUnavailable) + step_if(
        !still_registered,
        ModelStep::WithdrawAdvertised,
    ) + step_if(!still_registered, ModelStep::ClearAdvertisedContext) + step_if(
        !still_registered,
        ModelStep::RemoveServingAssignment,
    ) + seq![ModelStep::RemoveProcess] + step_if(console, ModelStep::RemoveConsoleProcess) + seq![
        ModelStep::TellManagedUnloaded,
    ]
}

/// The steps that finish the unload of a managed model.
pub fn finish_managed_unload(still_registered: bool, console: bool) -> (steps: Vec<ModelStep>)
    ensures
        steps@ == steps_to_finish_managed_unload(still_registered, console),
{
    let mut steps: Vec<ModelStep> = Vec::new();
    push_step(&mut steps, !still_registered, ModelStep::PublishUnavailable);
    push_step(&mut steps, !still_registered, ModelStep::WithdrawAdvertised);
    push_step(&mut steps, !still_registered, ModelStep::ClearAdvertisedContext);
    push_step(&mut steps, !still_registered, ModelStep::RemoveServingAssignment);
    steps.push(ModelStep::RemoveProcess);
    push_step(&mut steps, console, ModelStep::RemoveConsoleProcess);
    steps.push(ModelStep::TellManagedUnloaded);
    assert(steps@ =~= steps_to_finish_managed_unload(still_registered, console));
    steps
}

/// Whether an exit is that of the loaded instance: `loaded` is the model and
/// the port that are loaded under its id.
pub fn exit_matches(loaded: Option<(&str, u16)>, model: &str, port: u16) -> (matches: bool)
    ensures
        matches == (loaded matches Some((name, loaded_port)) && name@ == model@ && loaded_port
            == port),
{
    match loaded {
        Some((name, loaded_port)) => loaded_port == port && same_text(name, model),
        None => false,
    }
}

/// The steps that begin after a model exited by itself.
pub open spec fn steps_after_exit(surveyed: bool) -> Seq<ModelStep> {
    seq![ModelStep::RemoveModel] + step_if(surveyed, ModelStep::RecordSurveyExit) + seq![
        ModelStep::UnregisterInstance,
    ]
}

/// The steps that begin after a model exited by itself.
pub fn begin_exit(surveyed: bool) -> (steps: Vec<ModelStep>)
    ensures
        steps@ == steps_after_exit(surveyed),
{
    let mut steps: Vec<ModelStep> = Vec::new();
    steps.push(ModelStep::RemoveModel);
    push_step(&mut steps, surveyed, ModelStep::RecordSurveyExit);
    steps.push(ModelStep::UnregisterInstance);
    assert(steps@ =~= steps_after_exit(surveyed));
    steps
}

/// The steps that finish after a model exited by itself.
pub open spec fn steps_to_finish_exit(last: bool, console: bool) -> Seq<ModelStep> {
    step_if(last, ModelStep::PublishUnavailable) + seq![
        ModelStep::ShowProcess(ProcessStatus::Exited),
    ] + step_if(console, ModelStep::ShowConsoleProcess(ProcessStatus::Exited)) + seq![
        ModelStep::RemoveContextUsage,
    ].push(ModelStep::ShutdownHandle).push(ModelStep::ReleaseCapacity).push(
        ModelStep::RemoveLocalTarget,
    ).push(ModelStep::TellExited)
}

/// The steps that finish after a model exited by itself.
pub fn finish_exit(last: bool, console: bool) -> (steps: Vec<ModelStep>)
    ensures
        steps@ == steps_to_finish_exit(last, console),
{
    let mut steps: Vec<ModelStep> = Vec::new();
    push_step(&mut steps, last, ModelStep::PublishUnavailable);
    steps.push(ModelStep::ShowProcess(ProcessStatus::Exited));
    push_step(&mut steps, console, ModelStep::ShowConsoleProcess(ProcessStatus::Exited));
    steps.push(ModelStep::RemoveContextUsage);
    steps.push(ModelStep::ShutdownHandle);
    steps.push(ModelStep::ReleaseCapacity);
    steps.push(ModelStep::RemoveLocalTarget);
    steps.push(ModelStep::TellExited);
    assert(steps@ =~= steps_to_finish_exit(last, console));
    steps
}

/// The steps that begin to stop a loaded model when the runtime stops.
pub open spec fn steps_to_stop(surveyed: bool, console: bool) -> Seq<ModelStep> {
    seq![ModelStep::RemoveModel] + step_if(surveyed, ModelStep::RecordSurveyUnload) + seq![
        ModelStep::ShowProcess(ProcessStatus::ShuttingDown),
    ] + step_if(console, ModelStep::ShowConsoleProcess(ProcessStatus::ShuttingDown)) + seq![
        ModelStep::RemoveLocalTarget,
    ].push(ModelStep::UnregisterInstance)
}

/// The steps that begin to stop a loaded model when the runtime stops.
pub fn begin_stop(surveyed: bool, console: bool) -> (steps: Vec<ModelStep>)
    ensures
        steps@ == steps_to_stop(surveyed, console),
{
    let mut steps: Vec<ModelStep> = Vec::new();
    steps.push(ModelStep::RemoveModel);
    push_step(&mut steps, surveyed, ModelStep::RecordSurveyUnload);
    steps.push(ModelStep::ShowProcess(ProcessStatus::ShuttingDown));
    push_step(&mut steps, console, ModelStep::ShowConsoleProcess(ProcessStatus::ShuttingDown));
    steps.push(ModelStep::RemoveLocalTarget);
    steps.push(ModelStep::UnregisterInstance);
    assert(steps@ =~= steps_to_stop(surveyed, console));
    steps
}

/// The steps that finish to stop a loaded model.
pub open spec fn steps_to_finish_stop(last: bool, console: bool) -> Seq<ModelStep> {
    step_if(last, ModelStep::PublishUnavailable) + seq![ModelStep::RemoveContextUsage].push(
        ModelStep::TellUnloading,
    ).push(ModelStep::ShutdownHandle).push(ModelStep::ReleaseCapacity).push(
        ModelStep::TellStopped,
    ).push(ModelStep::ShowProcess(ProcessStatus::Stopped)) + step_if(
        console,
        ModelStep::ShowConsoleProcess(ProcessStatus::Stopped),
    )
}

/// The steps that finish to stop a loaded model.
pub fn finish_stop(last: bool, console: bool) -> (steps: Vec<ModelStep>)
    ensures
        steps@ == steps_to_finish_stop(last, console),
{
    let mut steps: Vec<ModelStep> = Vec::new();
    push_step(&mut steps, last, ModelStep::PublishUnavailable);
    steps.push(ModelStep::RemoveContextUsage);
    steps.push(ModelStep::TellUnloading);
    steps.push(ModelStep::ShutdownHandle);
    steps.push(ModelStep::ReleaseCapacity);
    steps.push(ModelStep::TellStopped);
    steps.push(ModelStep::ShowProcess(ProcessStatus::Stopped));
    push_step(&mut steps, console, ModelStep::ShowConsoleProcess(ProcessStatus::Stopped));
    assert(steps@ =~= steps_to_finish_stop(last, console));
    steps
}

/// How long requests may take to finish before a model is unloaded.
pub fn drain_delay_nanos(force: bool, drain_timeout_nanos: u128) -> (delay: u128)
    ensures
        delay == if force {
            0
        } else {
            drain_timeout_nanos
        },
{
    if force {
        0
    } else {
        drain_timeout_nanos
    }
}

/// How the task of a managed model is brought to an end.
#[derive(Debug, Clone, Copy, PartialEq, Eq, Structural)]
pub enum ManagedStop {
    /// Wait for it so long.
    WaitFor { timeout_nanos: u128 },
    /// End it by force and wait until it has.
    AbortAndJoin,
    /// It has ended.
    Done,
}

/// What is done first to end a managed model.
pub fn begin_managed_stop(force: bool, drain_timeout_nanos: u128) -> (stop: ManagedStop)
    ensures
        stop == if force {
            ManagedStop::AbortAndJoin
        } else {
            ManagedStop::WaitFor { timeout_nanos: drain_timeout_nanos }
        },
{
    if force {
        ManagedStop::AbortAndJoin
    } else {
        ManagedStop::WaitFor { timeout_nanos: drain_timeout_nanos }
    }
}

/// What is done once it was waited for.
pub fn after_managed_wait(timed_out: bool) -> (stop: ManagedStop)
    ensures
        stop == if timed_out {
            ManagedStop::AbortAndJoin
        } else {
            ManagedStop::Done
        },
{
    if timed_out {
        ManagedStop::AbortAndJoin
    } else {
        ManagedStop::Done
    }
}

/// How long a managed model may take to stop when the runtime stops.
pub const MANAGED_SHUTDOWN_TIMEOUT_NANOS: u128 = 3_000_000_000;

/// The steps that stop a managed model when the runtime stops.
pub fn stop_managed_model() -> (steps: Vec<ModelStep>)
    ensures
        steps@ == seq![
            ModelStep::RemoveManaged,
            ModelStep::TellUnloading,
            ModelStep::SignalStop,
            ModelStep::AwaitStop,
            ModelStep::TellStopped,
        ],
{
    let mut steps: Vec<ModelStep> = Vec::new();
    steps.push(ModelStep::RemoveManaged);
    steps.push(ModelStep::TellUnloading);
    steps.push(ModelStep::SignalStop);
    steps.push(ModelStep::AwaitStop);
    steps.push(ModelStep::TellStopped);
    assert(steps@ =~= seq![
        ModelStep::RemoveManaged,
        ModelStep::TellUnloading,
        ModelStep::SignalStop,
        ModelStep::AwaitStop,
        ModelStep::TellStopped,
    ]);
    steps
}

/// What is done first to end a managed model when the runtime stops.
pub fn begin_managed_shutdown() -> (stop: ManagedStop)
    ensures
        stop == (ManagedStop::WaitFor { timeout_nanos: MANAGED_SHUTDOWN_TIMEOUT_NANOS }),
{
    ManagedStop::WaitFor { timeout_nanos: MANAGED_SHUTDOWN_TIMEOUT_NANOS }
}

/// What the configuration says of a model.
#[derive(Debug)]
pub struct ModelConfigEntry<F> {
    pub model: String,
    /// The profile that the entry is for.
    pub profile: String,
    pub ctx_size: Option<u32>,
    pub parallel: Option<usize>,
    pub cache_type_k: Option<String>,
    pub cache_type_v: Option<String>,
    pub batch: Option<u32>,
    pub ubatch: Option<u32>,
    pub flash_attention: Option<F>,
}

/// The position of the first entry for a model under a profile, or the length
/// where there is none.
pub open spec fn entry_position<F>(
    models: Seq<ModelConfigEntry<F>>,
    spec_name: Seq<char>,
    profile: Seq<char>,
) -> int
    decreases models.len(),
{
    if models.len() == 0 || (models[0].model@ == spec_name && models[0].profile@ == profile) {
        0
    } else {
        1 + entry_position(models.drop_first(), spec_name, profile)
    }
}

/// The first entry for a model under a profile.
pub fn find_model_overrides<'a, F>(
    models: &'a Vec<ModelConfigEntry<F>>,
    spec_name: &str,
    profile: &str,
) -> (found: Option<&'a ModelConfigEntry<F>>)
    ensures
        ({
            let at = entry_position(models@, spec_name@, profile@);
            match found {
                Some(entry) => at < models@.len() && *entry == models@[at],
                None => at == models@.len(),
            }
        }),
{
    let mut i: usize = 0;
    assert(models@.skip(0) =~= models@);
    while i < models.len()
        invariant
            i <= models@.len(),
            entry_position(models@, spec_name@, profile@) == i + entry_position(
                models@.skip(i as int),
                spec_name@,
                profile@,
            ),
        decreases models@.len() - i,
    {
        assert(models@.skip(i as int).drop_first() =~= models@.skip(i + 1));
        if same_text(models[i].model.as_str(), spec_name) && same_text(
            models[i].profile.as_str(),
            profile,
        ) {
            return Some(&models[i]);
        }
        i += 1;
    }
    None
}

/// The context size to load a model with: the one given on the command line,
/// or else the one in the model's configuration.
pub open spec fn ctx_size_override<F>(
    cli_ctx_size: Option<u32>,
    model: Option<&ModelConfigEntry<F>>,
) -> Option<u32> {
    if cli_ctx_size is Some {
        cli_ctx_size
    } else {
        match model {
            Some(model) => model.ctx_size,
            None => None,
        }
    }
}

/// The context size to load a model with: the one given on the command line,
/// or else the one in the model's configuration.
pub fn runtime_model_ctx_size_override<F>(
    cli_ctx_size: Option<u32>,
    model: Option<&ModelConfigEntry<F>>,
) -> (ctx_size: Option<u32>)
    ensures
        ctx_size == ctx_size_override(cli_ctx_size, model),
{
    match cli_ctx_size {
        Some(size) => Some(size),
        None => match model {
            Some(model) => model.ctx_size,
            None => None,
        },
    }
}

/// What a model is started with in place of what is usual.
#[derive(Debug)]
pub struct StartOverrides<F> {
    pub ctx_size: Option<u32>,
    pub cache_type_k: Option<String>,
    pub cache_type_v: Option<String>,
    pub batch: Option<u32>,
    pub ubatch: Option<u32>,
    pub flash_attention: F,
}

/// Whether two optional texts are the same.
pub open spec fn same_optional_text(left: Option<String>, right: Option<String>) -> bool {
    match (left, right) {
        (Some(left), Some(right)) => left@ == right@,
        (None, None) => true,
        _ => false,
    }
}

fn copy_optional_text(text: &Option<String>) -> (copy: Option<String>)
    ensures
        same_optional_text(copy, *text),
{
    match text {
        Some(text) => Some(text.clone()),
        None => None,
    }
}

/// What a model is started with: what the configuration sets for it, and else
/// nothing, with the automatic way of attention.
pub fn start_overrides<F: Copy>(
    cli_ctx_size: Option<u32>,
    model: Option<&ModelConfigEntry<F>>,
    automatic: F,
) -> (overrides: StartOverrides<F>)
    ensures
        overrides.ctx_size == ctx_size_override(cli_ctx_size, model),
        match model {
            Some(model) => {
                &&& same_optional_text(overrides.cache_type_k, model.cache_type_k)
                &&& same_optional_text(overrides.cache_type_v, model.cache_type_v)
                &&& overrides.batch == model.batch
                &&& overrides.ubatch == model.ubatch
                &&& overrides.flash_attention == match model.flash_attention {
                    Some(kind) => kind,
                    None => automatic,
                }
            },
            None => {
                &&& overrides.cache_type_k is None
                &&& overrides.cache_type_v is None
                &&& overrides.batch is None
                &&& overrides.ubatch is None
                &&& overrides.flash_attention == automatic
            },
        },
{
    let ctx_size = runtime_model_ctx_size_override(cli_ctx_size, model);
    match model {
        Some(model) => StartOverrides {
            ctx_size,
            cache_type_k: copy_optional_text(&model.cache_type_k),
            cache_type_v: copy_optional_text(&model.cache_type_v),
            batch: model.batch,
            ubatch: model.ubatch,
            flash_attention: match model.flash_attention {
                Some(kind) => kind,
                None => automatic,
            },
        },
        None => StartOverrides {
            ctx_size,
            cache_type_k: None,
            cache_type_v: None,
            batch: None,
            ubatch: None,
            flash_attention: automatic,
        },
    }
}

/// The name under which a model is loaded: that of the catalog, where it is
/// listed there, or else that of its file.
pub fn runtime_model_name(catalog_ref: Option<String>, path_ref: String) -> (name: String)
    ensures
        name == match catalog_ref {
            Some(name) => name,
            None => path_ref,
        },
{
    match catalog_ref {
        Some(name) => name,
        None => path_ref,
    }
}

/// The memory to plan for: what was worked out, or else the size of the file.
pub fn planning_bytes(planned: Option<u64>, file_bytes: u64) -> (bytes: u64)
    ensures
        bytes == match planned {
            Some(bytes) => bytes,
            None => file_bytes,
        },
{
    match planned {
        Some(bytes) => bytes,
        None => file_bytes,
    }
}

/// What is answered to a load that was granted.
pub fn load_answer(
    spec_name: String,
    loaded_name: String,
    instance_id: String,
    profile: String,
    backend: String,
    context_length: u32,
) -> (answer: LoadAnswer)
    ensures
        answer == (LoadAnswer {
            model_ref: spec_name,
            model: loaded_name,
            instance_id,
            profile,
            backend: Some(backend),
            context_length: Some(context_length),
        }),
{
    LoadAnswer {
        model_ref: spec_name,
        model: loaded_name,
        instance_id,
        profile,
        backend: Some(backend),
        context_length: Some(context_length),
    }
}

/// What is answered to an unload that was granted.
pub fn unload_answer(model: String, instance_id: String) -> (answer: UnloadAnswer)
    ensures
        answer == (UnloadAnswer { model, instance_id, unloaded: true }),
{
    UnloadAnswer { model, instance_id, unloaded: true }
}

/// What is told of a model that was loaded.
pub fn loaded_notice(backend: &str, model: &str, port: u16) -> (notice: Notice)
    ensures
        notice.message@ == "Runtime-loaded "@ + backend@ + " model '"@ + model@ + "' on :"@
            + decimal(port as nat),
        notice.context is None,
{
    let number = decimal_text(port as u64);
    Notice {
        message: concat(
            concat(
                concat(
                    concat(concat("Runtime-loaded ".to_owned(), backend), " model '"),
                    model,
                ),
                "' on :",
            ),
            number.as_str(),
        ),
        context: None,
    }
}

/// What is told of a model that was unloaded.
pub fn unloaded_notice(model: &str, port: u16) -> (notice: Notice)
    ensures
        notice.message@ == "Unloaded local model '"@ + model@ + "' from :"@ + decimal(port as nat),
        notice.context is None,
{
    let number = decimal_text(port as u64);
    Notice {
        message: concat(
            concat(concat("Unloaded local model '".to_owned(), model), "' from :"),
            number.as_str(),
        ),
        context: None,
    }
}

/// What is told of a managed model that was unloaded.
pub fn managed_unloaded_notice(model: &str) -> (notice: Notice)
    ensures
        notice.message@ == "Unloaded managed model '"@ + model@ + "'"@,
        notice.context is None,
{
    Notice {
        message: concat(concat("Unloaded managed model '".to_owned(), model), "'"),
        context: None,
    }
}

/// What is told of a model that exited by itself.
pub fn exited_notice(model: &str, port: u16) -> (notice: Notice)
    ensures
        notice.message@ == "Runtime model '"@ + model@ + "' exited unexpectedly"@,
        notice.context matches Some(context) && context@ == "model="@ + model@ + " port="@
            + decimal(port as nat),
{
    let number = decimal_text(port as u64);
    Notice {
        message: concat(
            concat("Runtime model '".to_owned(), model),
            "' exited unexpectedly",
        ),
        context: Some(
            concat(concat(concat("model=".to_owned(), model), " port="), number.as_str()),
        ),
    }
}

/// The error for an instance that went away before it could be unloaded.
pub fn instance_not_loaded(instance_id: &str) -> (error: UnloadError)
    ensures
        error matches UnloadError::NotLoaded { target } && target@ == instance_id@,
{
    UnloadError::NotLoaded { target: instance_id.to_owned() }
}

} // verus!
