//! What the runtime of a node does with what comes in, and how it stops.

use vstd::prelude::*;

verus! {

/// What comes in.
#[derive(Debug, Clone, Copy, PartialEq, Eq, Structural)]
pub enum LoopEvent {
    DashboardTick,
    ReconciliationTick,
    ShutdownSignal,
    Control(ControlKind),
    ReconciliationFinished,
    ModelExited,
}

/// The requests to the runtime.
#[derive(Debug, Clone, Copy, PartialEq, Eq, Structural)]
pub enum ControlKind {
    Join,
    Load,
    Unload,
    SetGuardrailMode,
    Shutdown,
}

/// What the runtime does.
#[derive(Debug, Clone, Copy, PartialEq, Eq, Structural)]
pub enum LoopAction {
    RefreshDashboard,
    ReconcileTargets,
    Join,
    Load,
    Unload,
    /// Remember that a model was unloaded by hand.
    RecordManualUnload,
    SetGuardrailMode,
    /// Answer the request.
    Respond,
    RecordReconciliation,
    HandleExit,
    TellShutdownRequested,
    MarkShutdownRequested,
    FlushOutput,
    TellShutdown,
}

/// Whether the runtime stops.
pub open spec fn stops(event: LoopEvent) -> bool {
    event is ShutdownSignal || event == LoopEvent::Control(ControlKind::Shutdown)
}

/// What the runtime does with an event.
pub open spec fn actions_on(event: LoopEvent) -> Seq<LoopAction> {
    if stops(event) {
        seq![
            LoopAction::TellShutdownRequested,
            LoopAction::MarkShutdownRequested,
            LoopAction::FlushOutput,
            LoopAction::TellShutdown,
        ]
    } else {
        match event {
            LoopEvent::DashboardTick => seq![LoopAction::RefreshDashboard],
            LoopEvent::ReconciliationTick => seq![LoopAction::ReconcileTargets],
            LoopEvent::Control(ControlKind::Join) => seq![LoopAction::Join, LoopAction::Respond],
            LoopEvent::Control(ControlKind::Load) => seq![LoopAction::Load, LoopAction::Respond],
            LoopEvent::Control(ControlKind::Unload) => seq![
                LoopAction::Unload,
                LoopAction::RecordManualUnload,
                LoopAction::Respond,
            ],
            LoopEvent::Control(ControlKind::SetGuardrailMode) => seq![
                LoopAction::SetGuardrailMode,
                LoopAction::Respond,
            ],
            LoopEvent::ReconciliationFinished => seq![LoopAction::RecordReconciliation],
            LoopEvent::ModelExited => seq![LoopAction::HandleExit],
            _ => seq![],
        }
    }
}

/// What the runtime does with an event, and whether it stops afterwards.
pub fn on_event(event: LoopEvent) -> (result: (Vec<LoopAction>, bool))
    ensures
        result.0@ == actions_on(event),
        result.1 == stops(event),
{
    let mut actions: Vec<LoopAction> = Vec::new();
    let mut stop = false;
    match event {
        LoopEvent::DashboardTick => {
            actions.push(LoopAction::RefreshDashboard);
        },
        LoopEvent::ReconciliationTick => {
            actions.push(LoopAction::ReconcileTargets);
        },
        LoopEvent::Control(ControlKind::Join) => {
            actions.push(LoopAction::Join);
            actions.push(LoopAction::Respond);
        },
        LoopEvent::Control(ControlKind::Load) => {
            actions.push(LoopAction::Load);
            actions.push(LoopAction::Respond);
        },
        LoopEvent::Control(ControlKind::Unload) => {
            actions.push(LoopAction::Unload);
            actions.push(LoopAction::RecordManualUnload);
            actions.push(LoopAction::Respond);
        },
        LoopEvent::Control(ControlKind::SetGuardrailMode) => {
            actions.push(LoopAction::SetGuardrailMode);
            actions.push(LoopAction::Respond);
        },
        LoopEvent::ReconciliationFinished => {
            actions.push(LoopAction::RecordReconciliation);
        },
        LoopEvent::ModelExited => {
            actions.push(LoopAction::HandleExit);
        },
        LoopEvent::ShutdownSignal | LoopEvent::Control(ControlKind::Shutdown) => {
            actions.push(LoopAction::TellShutdownRequested);
            actions.push(LoopAction::MarkShutdownRequested);
            actions.push(LoopAction::FlushOutput);
            actions.push(LoopAction::TellShutdown);
            stop = true;
        },
    }
    assert(actions@ =~= actions_on(event));
    (actions, stop)
}

/// The steps by which a runtime stops.
#[derive(Debug, Clone, Copy, PartialEq, Eq, Structural)]
pub enum ShutdownStep {
    BroadcastLeaving,
    UnpublishListing,
    AbortDiscovery,
    AbortLanBootstrap,
    StopServices,
    StopLoadedModels,
    StopManagedModels,
    ClearServingModels,
    ClearHostedModels,
    CleanUpRuntimeDir,
}

/// The steps by which a runtime stops: the mesh is told first, then nothing
/// new is taken in, and then the models are stopped.
pub open spec fn shutdown_order(discovery: bool) -> Seq<ShutdownStep> {
    seq![ShutdownStep::BroadcastLeaving, ShutdownStep::UnpublishListing] + (if discovery {
        seq![ShutdownStep::AbortDiscovery]
    } else {
        seq![]
    }) + seq![
        ShutdownStep::AbortLanBootstrap,
        ShutdownStep::StopServices,
        ShutdownStep::StopLoadedModels,
        ShutdownStep::StopManagedModels,
        ShutdownStep::ClearServingModels,
        ShutdownStep::ClearHostedModels,
        ShutdownStep::CleanUpRuntimeDir,
    ]
}

/// The steps by which a runtime stops; `discovery` tells whether it publishes
/// itself.
pub fn shutdown_run_auto_runtime(discovery: bool) -> (steps: Vec<ShutdownStep>)
    ensures
        steps@ == shutdown_order(discovery),
{
    let mut steps: Vec<ShutdownStep> = Vec::new();
    steps.push(ShutdownStep::BroadcastLeaving);
    steps.push(ShutdownStep::UnpublishListing);
    if discovery {
        steps.push(ShutdownStep::AbortDiscovery);
    }
    steps.push(ShutdownStep::AbortLanBootstrap);
    steps.push(ShutdownStep::StopServices);
    steps.push(ShutdownStep::StopLoadedModels);
    steps.push(ShutdownStep::StopManagedModels);
    steps.push(ShutdownStep::ClearServingModels);
    steps.push(ShutdownStep::ClearHostedModels);
    steps.push(ShutdownStep::CleanUpRuntimeDir);
    assert(steps@ =~= shutdown_order(discovery));
    steps
}

/// How strict the guardrails are.
#[derive(Debug, Clone, Copy, PartialEq, Eq, Structural)]
pub enum GuardrailMode {
    Disabled,
    MetricsOnly,
    Enforce,
}

/// What a mode is called.
pub fn guardrail_mode_status_label(mode: GuardrailMode) -> (label: &'static str)
    ensures
        label@ == match mode {
            GuardrailMode::Disabled => "disabled"@,
            GuardrailMode::MetricsOnly => "metrics"@,
            GuardrailMode::Enforce => "enforce"@,
        },
{
    match mode {
        GuardrailMode::Disabled => "disabled",
        GuardrailMode::MetricsOnly => "metrics",
        GuardrailMode::Enforce => "enforce",
    }
}

/// What a change of mode came to.
pub struct GuardrailUpdate<S> {
    pub updated_models: usize,
    pub status: S,
}

/// How many models took the mode.
pub open spec fn took_mode<S>(statuses: Seq<Option<S>>) -> nat
    decreases statuses.len(),
{
    if statuses.len() == 0 {
        0
    } else {
        took_mode(statuses.drop_last()) + if statuses.last() is Some {
            1nat
        } else {
            0nat
        }
    }
}

/// What the last model that took the mode says, or `otherwise`.
pub open spec fn latest_status<S>(statuses: Seq<Option<S>>, otherwise: S) -> S
    decreases statuses.len(),
{
    if statuses.len() == 0 {
        otherwise
    } else {
        match statuses.last() {
            Some(status) => status,
            None => latest_status(statuses.drop_last(), otherwise),
        }
    }
}

/// What a change of mode came to: how many models took it, and the status of
/// the last of them, or that of the policy where none did. A model that does
/// not take the mode has no status.
pub fn guardrail_update<S: Copy>(statuses: &Vec<Option<S>>, policy_status: S) -> (update:
    GuardrailUpdate<S>)
    ensures
        update.updated_models == took_mode(statuses@),
        update.status == latest_status(statuses@, policy_status),
{
    let mut updated_models: usize = 0;
    let mut status = policy_status;
    let mut i: usize = 0;
    while i < statuses.len()
        invariant
            i <= statuses@.len(),
            updated_models <= i,
            updated_models == took_mode(statuses@.take(i as int)),
            status == latest_status(statuses@.take(i as int), policy_status),
        decreases statuses@.len() - i,
    {
        assert(statuses@.take(i + 1).drop_last() =~= statuses@.take(i as int));
        if let Some(latest) = statuses[i] {
            updated_models += 1;
            status = latest;
        }
        i += 1;
    }
    assert(statuses@.take(i as int) =~= statuses@);
    GuardrailUpdate { updated_models, status }
}

/// The exit code of the program.
pub fn exit_code(succeeded: bool) -> (code: i32)
    ensures
        code == if succeeded {
            0i32
        } else {
            1i32
        },
{
    if succeeded {
        0
    } else {
        1
    }
}

/// How long the program waits for its last words, in milliseconds.
pub const FATAL_ERROR_GRACE_MS: u64 = 50;

/// The runtime stops only when it is told to, and then tells so before it
/// stops.
pub proof fn law_shutdown_is_announced(event: LoopEvent)
    ensures
        stops(event) <==> actions_on(event).contains(LoopAction::TellShutdown),
{
    let actions = actions_on(event);
    if stops(event) {
        assert(actions[3] == LoopAction::TellShutdown);
    }
}

/// What is done with each event: a tick refreshes or reconciles, a request is
/// carried out and then answered, an unload by hand is remembered before it is
/// answered, and what ended is recorded. A shutdown is told, noted and flushed
/// before it is told that the runtime stops.
pub proof fn law_every_event_has_its_actions(event: LoopEvent)
    ensures
        actions_on(event) == match event {
            LoopEvent::DashboardTick => seq![LoopAction::RefreshDashboard],
            LoopEvent::ReconciliationTick => seq![LoopAction::ReconcileTargets],
            LoopEvent::ReconciliationFinished => seq![LoopAction::RecordReconciliation],
            LoopEvent::ModelExited => seq![LoopAction::HandleExit],
            LoopEvent::Control(ControlKind::Join) => seq![LoopAction::Join, LoopAction::Respond],
            LoopEvent::Control(ControlKind::Load) => seq![LoopAction::Load, LoopAction::Respond],
            LoopEvent::Control(ControlKind::Unload) => seq![
                LoopAction::Unload,
                LoopAction::RecordManualUnload,
                LoopAction::Respond,
            ],
            LoopEvent::Control(ControlKind::SetGuardrailMode) => seq![
                LoopAction::SetGuardrailMode,
                LoopAction::Respond,
            ],
            LoopEvent::ShutdownSignal | LoopEvent::Control(ControlKind::Shutdown) => seq![
                LoopAction::TellShutdownRequested,
                LoopAction::MarkShutdownRequested,
                LoopAction::FlushOutput,
                LoopAction::TellShutdown,
            ],
        },
        stops(event) <==> (event == LoopEvent::ShutdownSignal || event == LoopEvent::Control(
            ControlKind::Shutdown,
        )),
{
}

/// A runtime that stops tells the mesh first, takes itself off the lists, stops
/// what finds others, then its services and its models, those of the runtime
/// before the managed ones, and cleans up last. Discovery is stopped where it
/// runs.
pub proof fn law_shutdown_goes_from_the_outside_in(discovery: bool)
    ensures
        ({
            let steps = shutdown_order(discovery);
            let rest = if discovery {
                3int
            } else {
                2
            };
            &&& steps.len() == rest + 7
            &&& steps[0] == ShutdownStep::BroadcastLeaving
            &&& steps[1] == ShutdownStep::UnpublishListing
            &&& discovery ==> steps[2] == ShutdownStep::AbortDiscovery
            &&& steps[rest] == ShutdownStep::AbortLanBootstrap
            &&& steps[rest + 1] == ShutdownStep::StopServices
            &&& steps[rest + 2] == ShutdownStep::StopLoadedModels
            &&& steps[rest + 3] == ShutdownStep::StopManagedModels
            &&& steps[rest + 4] == ShutdownStep::ClearServingModels
            &&& steps[rest + 5] == ShutdownStep::ClearHostedModels
            &&& steps[rest + 6] == ShutdownStep::CleanUpRuntimeDir
        }),
{
}

/// The models that took a mode are all counted, and the last of them tells the
/// status; where none took it, the policy's own stands.
pub proof fn law_guardrail_update_tells_the_last<S>(statuses: Seq<Option<S>>, otherwise: S)
    ensures
        took_mode(statuses) == statuses.filter(|status: Option<S>| status is Some).len(),
        took_mode(statuses) == 0 ==> latest_status(statuses, otherwise) == otherwise,
        took_mode(statuses) > 0 ==> Some(latest_status(statuses, otherwise)) == statuses.filter(
            |status: Option<S>| status is Some,
        ).last(),
    decreases statuses.len(),
{
    reveal(Seq::filter);
    if statuses.len() > 0 {
        law_guardrail_update_tells_the_last(statuses.drop_last(), otherwise);
    }
}

} // verus!
