use mesh_llm::host::control_loop::{
    exit_code, guardrail_mode_status_label, guardrail_update, on_event, shutdown_run_auto_runtime,
    ControlKind, GuardrailMode, LoopAction, LoopEvent, ShutdownStep,
};
use mesh_llm::host::lifecycle::{
    after_managed_wait, begin_exit, begin_managed_shutdown, begin_managed_stop,
    begin_managed_unload, begin_stop, begin_unload, drain_delay_nanos, exit_matches,
    exited_notice, find_model_overrides, finish_exit, finish_managed_unload, finish_stop,
    finish_unload, instance_not_loaded, load_after_reserve, load_after_start, load_answer,
    loaded_notice, managed_unloaded_notice, planning_bytes, runtime_model_ctx_size_override,
    runtime_model_name, start_overrides, stop_managed_model, unload_answer, unloaded_notice,
    ManagedStop, ModelConfigEntry, ModelStep, MANAGED_SHUTDOWN_TIMEOUT_NANOS,
};
use mesh_llm::host::reconcile::{
    failure_message, local_path_names, manual_unload_refs,
    model_target_reconciliation_demand_upgrade_candidate, model_target_reconciliation_local_fit,
    model_target_reconciliation_policy, model_target_reconciliation_result, reconcile_start,
    reconciles, reconciliation_candidates, reconciliation_queued_notice,
    run_model_target_reconciliation_action, runtime_loaded_model_refs, wants_local_path,
    CapacityAdvice, CapacityAdviceState, LoadAnswer, ModelTargetPayload,
    ModelTargetReconciliationAction, ModelTargetReconciliationPolicy, ReconcileStart,
    ReconciliationRequest, ReconciliationStep, RequestFailure, RuntimeSettings, UnloadAnswer,
};
use mesh_llm::host::unload::{
    resolve_runtime_unload_target, runtime_unload_candidates, LoadedInstance,
    RuntimeUnloadCandidate, RuntimeUnloadOwner, UnloadError,
};
use mesh_llm::text_set::TextSet;

fn reconciliation_target_with_required_bytes(
    required_bytes: Option<u64>,
) -> ModelTargetPayload<&'static str> {
    ModelTargetPayload {
        rank: 1,
        model_ref: "org/model@main:model.gguf".to_string(),
        profile: String::new(),
        model_name: Some("Model".to_string()),
        request_count: 0,
        last_active_secs_ago: None,
        serving_node_count: 0,
        wanted: true,
        wanted_reason: Some("explicit_interest".to_string()),
        capacity_advice: CapacityAdvice {
            state: CapacityAdviceState::SingleNodeFit,
            required_bytes,
        },
    }
}

fn set_of(names: &[&str]) -> TextSet {
    let mut set = TextSet::new();
    for name in names {
        set.insert(name);
    }
    set
}

#[test]
fn model_target_reconciliation_local_fit_requires_current_node_capacity() {
    let target = reconciliation_target_with_required_bytes(Some(10));

    assert!(model_target_reconciliation_local_fit(&target, 10));
    assert!(!model_target_reconciliation_local_fit(&target, 9));
}

#[test]
fn model_target_reconciliation_local_fit_rejects_unknown_required_bytes() {
    let target = reconciliation_target_with_required_bytes(None);

    assert!(!model_target_reconciliation_local_fit(&target, u64::MAX));
}

fn replacement() -> ModelTargetReconciliationAction {
    ModelTargetReconciliationAction {
        model_ref: "org/large".to_string(),
        profile: "low-ctx".to_string(),
        load_spec: "/models/large.gguf".to_string(),
        replace_model_ref: Some("Small".to_string()),
    }
}

#[test]
fn model_target_reconciliation_replacement_unloads_before_loading() {
    let action = replacement();

    let unloaded: Result<UnloadAnswer, RequestFailure> =
        match run_model_target_reconciliation_action(&action, None, None) {
            ReconciliationStep::Request(ReconciliationRequest::Unload { model_ref }) => {
                assert_eq!(model_ref, "Small");
                Ok(UnloadAnswer {
                    model: "Small".to_string(),
                    instance_id: "runtime-1".to_string(),
                    unloaded: true,
                })
            }
            _ => panic!("expected unload request before load"),
        };
    let loaded = match run_model_target_reconciliation_action(&action, Some(&unloaded), None) {
        ReconciliationStep::Request(ReconciliationRequest::Load { spec, profile }) => {
            assert_eq!(spec, "/models/large.gguf");
            assert_eq!(profile, "low-ctx");
            LoadAnswer {
                model_ref: spec,
                model: "Large".to_string(),
                instance_id: "runtime-2".to_string(),
                profile,
                backend: Some("skippy".to_string()),
                context_length: Some(4096),
            }
        }
        _ => panic!("expected load request after unload"),
    };

    match run_model_target_reconciliation_action(&action, Some(&unloaded), Some(Ok(loaded))) {
        ReconciliationStep::Finished(result) => {
            let result = result.expect("replacement action should finish");
            assert_eq!(result.model, "Large");
            assert_eq!(result.context_length, Some(4096));
        }
        ReconciliationStep::Request(_) => panic!("expected no further request"),
    }
}

#[test]
fn a_failed_unload_ends_the_replacement() {
    let action = replacement();
    let end = |failure: RequestFailure| {
        run_model_target_reconciliation_action(&action, Some(&Err(failure)), None)
    };
    assert_eq!(
        end(RequestFailure::Refused { error: "not loaded".to_string() }),
        ReconciliationStep::Finished(Err("not loaded".to_string()))
    );
    assert_eq!(
        end(RequestFailure::NoAnswer { cause: "channel closed".to_string() }),
        ReconciliationStep::Finished(Err(
            "runtime unload response channel closed: channel closed".to_string()
        ))
    );
    assert_eq!(
        end(RequestFailure::QueueClosed),
        ReconciliationStep::Finished(Err(
            "runtime unload queue closed for replacement target 'Small'".to_string()
        ))
    );
}

#[test]
fn the_answer_to_the_load_is_the_result() {
    let mut action = replacement();
    action.replace_model_ref = None;
    let request = ReconciliationRequest::Load {
        spec: "/models/large.gguf".to_string(),
        profile: "low-ctx".to_string(),
    };
    assert_eq!(
        failure_message(&request, &RequestFailure::QueueClosed),
        "runtime load queue closed for '/models/large.gguf'"
    );
    assert_eq!(
        run_model_target_reconciliation_action(&action, None, None),
        ReconciliationStep::Request(request)
    );
    let failure = RequestFailure::NoAnswer { cause: "gone".to_string() };
    assert_eq!(
        run_model_target_reconciliation_action(&action, None, Some(Err(failure))),
        ReconciliationStep::Finished(Err(
            "runtime load response channel closed: gone".to_string()
        ))
    );
    let answer = || {
        load_answer(
            "/models/large.gguf".to_string(),
            "Large".to_string(),
            "runtime-2".to_string(),
            "low-ctx".to_string(),
            "skippy".to_string(),
            4096,
        )
    };
    assert_eq!(answer().model_ref, "/models/large.gguf");
    assert_eq!(answer().backend.as_deref(), Some("skippy"));
    assert_eq!(
        run_model_target_reconciliation_action(&action, None, Some(Ok(answer()))),
        ReconciliationStep::Finished(Ok(answer()))
    );
    let unloaded = unload_answer("Small".to_string(), "runtime-1".to_string());
    assert!(unloaded.unloaded);
    assert_eq!((unloaded.model.as_str(), unloaded.instance_id.as_str()), ("Small", "runtime-1"));
}

#[test]
fn runtime_unload_target_requires_instance_id_for_duplicate_models() {
    let err = resolve_runtime_unload_target(
        "Qwen",
        vec![
            RuntimeUnloadCandidate {
                owner: RuntimeUnloadOwner::Runtime,
                instance_id: "runtime-1".to_string(),
                model_name: "Qwen".to_string(),
            },
            RuntimeUnloadCandidate {
                owner: RuntimeUnloadOwner::Managed,
                instance_id: "runtime-2".to_string(),
                model_name: "Qwen".to_string(),
            },
        ],
    )
    .expect_err("duplicate model-name unload should be ambiguous");

    assert!(err.message().contains("multiple loaded instances"));
}

#[test]
fn runtime_unload_target_resolves_exact_instance_before_model_name() {
    let target = resolve_runtime_unload_target(
        "runtime-2",
        vec![
            RuntimeUnloadCandidate {
                owner: RuntimeUnloadOwner::Runtime,
                instance_id: "runtime-1".to_string(),
                model_name: "runtime-2".to_string(),
            },
            RuntimeUnloadCandidate {
                owner: RuntimeUnloadOwner::Managed,
                instance_id: "runtime-2".to_string(),
                model_name: "Qwen".to_string(),
            },
        ],
    )
    .expect("exact instance id should resolve");

    assert_eq!(target.instance_id, "runtime-2");
    assert_eq!(target.model_name, "Qwen");
    assert_eq!(target.owner, RuntimeUnloadOwner::Managed);
}

fn model_entry(model: &str, profile: &str, ctx_size: Option<u32>) -> ModelConfigEntry<u8> {
    ModelConfigEntry {
        model: model.to_string(),
        profile: profile.to_string(),
        ctx_size,
        parallel: None,
        cache_type_k: None,
        cache_type_v: None,
        batch: None,
        ubatch: None,
        flash_attention: None,
    }
}

#[test]
fn runtime_load_ctx_size_uses_model_override_when_cli_is_unset() {
    let model = model_entry("runtime/model", "", Some(16_384));

    assert_eq!(runtime_model_ctx_size_override(None, Some(&model)), Some(16_384));
}

#[test]
fn runtime_load_ctx_size_prefers_cli_override_over_model_override() {
    let model = model_entry("runtime/model", "", Some(16_384));

    assert_eq!(runtime_model_ctx_size_override(Some(8192), Some(&model)), Some(8192));
}

#[test]
fn overrides_are_found_by_model_and_profile() {
    let models = vec![
        model_entry("a", "", Some(1)),
        model_entry("a", "long", Some(2)),
        model_entry("b", "", None),
    ];
    let ctx = |name: &str, profile: &str| {
        find_model_overrides(&models, name, profile).map(|entry| entry.ctx_size)
    };
    assert_eq!(ctx("a", ""), Some(Some(1)));
    assert_eq!(ctx("a", "long"), Some(Some(2)));
    assert_eq!(ctx("b", ""), Some(None));
    assert_eq!(ctx("c", ""), None);
    assert_eq!(runtime_model_ctx_size_override::<u8>(None, None), None);
}

#[test]
fn models_start_with_what_is_configured() {
    let mut entry = model_entry("a", "", Some(5));
    entry.cache_type_k = Some("q8_0".to_string());
    entry.batch = Some(512);
    let overrides = start_overrides(None, Some(&entry), 7);
    assert_eq!(overrides.ctx_size, Some(5));
    assert_eq!(overrides.cache_type_k.as_deref(), Some("q8_0"));
    assert_eq!(overrides.cache_type_v, None);
    assert_eq!((overrides.batch, overrides.ubatch), (Some(512), None));
    assert_eq!(overrides.flash_attention, 7);
    entry.flash_attention = Some(3);
    assert_eq!(start_overrides(Some(9), Some(&entry), 7).flash_attention, 3);
    let overrides = start_overrides(Some(9), None, 7);
    assert_eq!((overrides.ctx_size, overrides.flash_attention), (Some(9), 7));
    assert_eq!((overrides.batch, overrides.cache_type_k), (None, None));
}

#[test]
fn loaded_models_have_a_name_and_a_size() {
    assert_eq!(runtime_model_name(Some("cat".to_string()), "path".to_string()), "cat");
    assert_eq!(runtime_model_name(None, "path".to_string()), "path");
    assert_eq!(planning_bytes(Some(5), 9), 5);
    assert_eq!(planning_bytes(None, 9), 9);
}

#[test]
fn unload_errors_name_what_was_asked_for() {
    let err = resolve_runtime_unload_target("Qwen", vec![]).unwrap_err();
    assert!(matches!(&err, UnloadError::NotLoaded { target } if target == "Qwen"));
    assert!(err.message().contains("Qwen"));
    assert!(instance_not_loaded("runtime-9").message().contains("runtime-9"));
    let candidates = runtime_unload_candidates(
        &vec![LoadedInstance { instance_id: "i2".to_string(), model_name: "M".to_string() }],
        &vec![LoadedInstance { instance_id: "i1".to_string(), model_name: "M".to_string() }],
    );
    assert_eq!(candidates.len(), 2);
    let err = resolve_runtime_unload_target("M", candidates).unwrap_err();
    assert!(matches!(
        &err,
        UnloadError::Ambiguous { instance_ids, .. } if instance_ids.len() == 2
    ));
    assert!(err.message().contains("i1") && err.message().contains("i2"));
}

#[test]
fn a_loaded_model_can_be_unloaded_by_its_name() {
    let candidates = runtime_unload_candidates(
        &vec![LoadedInstance { instance_id: "i1".to_string(), model_name: "M".to_string() }],
        &vec![LoadedInstance { instance_id: "i2".to_string(), model_name: "N".to_string() }],
    );
    let target = resolve_runtime_unload_target("N", candidates).unwrap();
    assert_eq!(target.instance_id, "i2");
    assert_eq!(target.owner, RuntimeUnloadOwner::Managed);
}

fn policy() -> ModelTargetReconciliationPolicy {
    model_target_reconciliation_policy(&RuntimeSettings {
        reconcile_model_targets: true,
        reconcile_model_target_demand_upgrades: true,
        model_target_demand_upgrade_min_requests: 3,
        model_target_demand_upgrade_max_age_secs: 60,
    })
}

#[test]
fn policy_follows_the_settings() {
    let policy = policy();
    assert!(policy.enabled);
    assert!(policy.demand_upgrades_enabled);
    assert_eq!(policy.demand_upgrade_min_request_count, 3);
    assert_eq!(policy.demand_upgrade_max_age_secs, 60);
}

#[test]
fn demand_upgrades_need_recent_requests() {
    let mut target = reconciliation_target_with_required_bytes(Some(10));
    let loaded = set_of(&["Small"]);
    let none = TextSet::new();
    let asks = |target: &ModelTargetPayload<&'static str>, loaded: &TextSet| {
        model_target_reconciliation_demand_upgrade_candidate(&policy(), loaded, target)
    };
    target.wanted_reason = Some("active_demand".to_string());
    target.request_count = 3;
    target.last_active_secs_ago = Some(60);
    assert!(asks(&target, &loaded));
    assert!(!asks(&target, &none));
    target.request_count = 2;
    assert!(!asks(&target, &loaded));
    target.request_count = 3;
    target.last_active_secs_ago = Some(61);
    assert!(!asks(&target, &loaded));
    target.last_active_secs_ago = None;
    assert!(!asks(&target, &loaded));
    target.last_active_secs_ago = Some(1);
    target.wanted_reason = Some("explicit_interest".to_string());
    assert!(!asks(&target, &loaded));
}

#[test]
fn only_wanted_models_that_fit_are_looked_for() {
    let interests = set_of(&["org/model@main:model.gguf"]);
    let none = TextSet::new();
    let looks = |target: &ModelTargetPayload<&'static str>, interests: &TextSet| {
        wants_local_path(&policy(), interests, &TextSet::new(), target, 10)
    };
    let mut target = reconciliation_target_with_required_bytes(Some(10));
    assert!(looks(&target, &interests));
    assert!(!looks(&target, &none));
    target.serving_node_count = 1;
    assert!(!looks(&target, &interests));
    target.serving_node_count = 0;
    target.wanted = false;
    assert!(!looks(&target, &interests));
    target.wanted = true;
    target.capacity_advice.state = CapacityAdviceState::Other("split_capable");
    assert!(!looks(&target, &interests));
    target.capacity_advice.state = CapacityAdviceState::SingleNodeFit;
    target.capacity_advice.required_bytes = Some(11);
    assert!(!looks(&target, &interests));
}

#[test]
fn models_are_looked_for_under_both_names() {
    let mut target = reconciliation_target_with_required_bytes(Some(10));
    assert_eq!(local_path_names(&target), vec!["org/model@main:model.gguf", "Model"]);
    target.model_name = None;
    assert_eq!(local_path_names(&target), vec!["org/model@main:model.gguf"]);
    let mut served = reconciliation_target_with_required_bytes(Some(10));
    served.serving_node_count = 1;
    served.capacity_advice.state = CapacityAdviceState::Other("shortfall");
    let candidates = reconciliation_candidates(
        &policy(),
        &set_of(&["org/model@main:model.gguf"]),
        &TextSet::new(),
        vec![target, served],
        10,
        vec![Some("/m.gguf".to_string()), Some("/n.gguf".to_string())],
    );
    assert_eq!(candidates.len(), 2);
    assert_eq!(candidates[0].local_path.as_deref(), Some("/m.gguf"));
    assert_eq!(candidates[0].model_name, None);
    assert_eq!(candidates[0].capacity_state, CapacityAdviceState::SingleNodeFit);
    assert_eq!(candidates[1].local_path, None);
    assert_eq!(candidates[1].serving_node_count, 1);
    assert_eq!(candidates[1].capacity_state, CapacityAdviceState::Other("shortfall"));
}

#[test]
fn rounds_begin_as_the_policy_says() {
    let some = set_of(&["a"]);
    let none = TextSet::new();
    let mut policy = policy();
    assert_eq!(reconcile_start(&none, &none), ReconcileStart::PruneExpired);
    assert_eq!(reconcile_start(&some, &none), ReconcileStart::Plan);
    assert_eq!(reconcile_start(&none, &some), ReconcileStart::Plan);
    assert!(reconciles(&policy, true));
    assert!(!reconciles(&policy, false));
    policy.enabled = false;
    assert!(!reconciles(&policy, true));
}

#[test]
fn reconciliation_tells_what_it_did() {
    let action = ModelTargetReconciliationAction {
        model_ref: "org/large".to_string(),
        profile: String::new(),
        load_spec: "/l.gguf".to_string(),
        replace_model_ref: None,
    };
    assert!(reconciliation_queued_notice(&action).message.contains("org/large"));

    let record = model_target_reconciliation_result(
        "org/large",
        "long",
        Ok(LoadAnswer {
            model_ref: "/l.gguf".to_string(),
            model: "Large".to_string(),
            instance_id: "runtime-2".to_string(),
            profile: "short".to_string(),
            backend: None,
            context_length: None,
        }),
    );
    assert!(record.loaded);
    assert_eq!(record.profile, "short");
    assert!(record.profile_differs);
    assert!(record.notice.message.contains("Large"));

    let record =
        model_target_reconciliation_result("org/large", "long", Err("no room".to_string()));
    assert!(!record.loaded);
    assert_eq!(record.profile, "long");
    assert!(record.notice.context.iter().any(|context| context.contains("no room"))
        || record.notice.message.contains("no room"));
}

#[test]
fn manual_unloads_are_remembered_under_each_name() {
    assert_eq!(manual_unload_refs("runtime-1", Some("Qwen")), vec!["runtime-1", "Qwen"]);
    assert_eq!(manual_unload_refs("Qwen", Some("Qwen")), vec!["Qwen"]);
    assert!(manual_unload_refs("Qwen", None).is_empty());
}

#[test]
fn loaded_refs_are_sorted_and_distinct() {
    let instance = |id: &str, name: &str| LoadedInstance {
        instance_id: id.to_string(),
        model_name: name.to_string(),
    };
    let refs = runtime_loaded_model_refs(
        &vec![instance("1", "b"), instance("2", "a")],
        &vec![instance("3", "b"), instance("4", "c")],
    );
    assert_eq!(refs.sorted(), &vec!["a", "b", "c"]);
}

#[test]
fn a_load_that_fails_gives_back_what_it_took() {
    assert!(load_after_reserve(true).contains(&ModelStep::StartModel));
    assert!(!load_after_reserve(false).contains(&ModelStep::StartModel));
    let failed = load_after_start(false, true);
    assert!(failed.contains(&ModelStep::ReleaseCapacity));
    assert!(failed.contains(&ModelStep::RemoveServingAssignment));
    assert!(!failed.contains(&ModelStep::KeepModel));
    let loaded = load_after_start(true, true);
    assert!(loaded.contains(&ModelStep::KeepModel));
    assert!(loaded.contains(&ModelStep::AddLocalTarget));
    assert!(!loaded.contains(&ModelStep::ReleaseCapacity));
}

#[test]
fn unloading_routes_away_before_it_stops() {
    for steps in [begin_unload(true), finish_exit(true, true), begin_stop(true, true)] {
        assert!(steps.contains(&ModelStep::RemoveLocalTarget));
    }
    assert!(begin_exit(true).contains(&ModelStep::UnregisterInstance));
    let steps = finish_unload(true, true, 5);
    let drain = steps.iter().position(|step| *step == ModelStep::Drain);
    let stop = steps.iter().position(|step| *step == ModelStep::ShutdownHandle);
    assert!(drain.is_some() && drain < stop);
    assert!(!finish_unload(true, true, 0).contains(&ModelStep::Drain));
    for steps in [finish_unload(true, false, 0), finish_exit(true, false), finish_stop(true, false)] {
        assert!(steps.contains(&ModelStep::ReleaseCapacity));
    }
}

#[test]
fn managed_models_are_stopped_with_a_deadline() {
    assert_eq!(MANAGED_SHUTDOWN_TIMEOUT_NANOS, 3_000_000_000);
    assert!(matches!(
        begin_managed_shutdown(),
        ManagedStop::WaitFor { timeout_nanos: MANAGED_SHUTDOWN_TIMEOUT_NANOS }
    ));
    assert_eq!(
        stop_managed_model(),
        vec![
            ModelStep::RemoveManaged,
            ModelStep::TellUnloading,
            ModelStep::SignalStop,
            ModelStep::AwaitStop,
            ModelStep::TellStopped,
        ]
    );
    assert!(begin_managed_unload().contains(&ModelStep::SignalStop));
    assert!(!finish_managed_unload(true, true).is_empty());
    assert_eq!(drain_delay_nanos(true, 500), 0);
    assert_eq!(drain_delay_nanos(false, 500), 500);
    assert!(matches!(begin_managed_stop(true, 500), ManagedStop::AbortAndJoin));
    assert!(matches!(
        begin_managed_stop(false, 500),
        ManagedStop::WaitFor { timeout_nanos } if timeout_nanos == 500
    ));
    assert!(matches!(after_managed_wait(true), ManagedStop::AbortAndJoin));
    assert!(matches!(after_managed_wait(false), ManagedStop::Done));
}

#[test]
fn exits_are_matched_by_model_and_port() {
    assert!(exit_matches(Some(("m", 1)), "m", 1));
    assert!(!exit_matches(Some(("m", 1)), "m", 2));
    assert!(!exit_matches(Some(("m", 1)), "n", 1));
    assert!(!exit_matches(None, "m", 1));
}

#[test]
fn notices_name_model_and_port() {
    assert!(loaded_notice("skippy", "Qwen", 8080).message.contains("Qwen"));
    for notice in [unloaded_notice("Qwen", 8080), exited_notice("Qwen", 8080)] {
        assert!(notice.message.contains("Qwen"));
    }
    assert!(managed_unloaded_notice("Qwen").message.contains("Qwen"));
}

#[test]
fn only_a_shutdown_ends_the_loop() {
    for event in [
        LoopEvent::DashboardTick,
        LoopEvent::ReconciliationTick,
        LoopEvent::Control(ControlKind::Join),
        LoopEvent::Control(ControlKind::Load),
        LoopEvent::Control(ControlKind::Unload),
        LoopEvent::Control(ControlKind::SetGuardrailMode),
        LoopEvent::ReconciliationFinished,
        LoopEvent::ModelExited,
    ] {
        assert!(!on_event(event).1);
    }
    let (actions, ends) = on_event(LoopEvent::ShutdownSignal);
    assert!(ends);
    assert!(actions.contains(&LoopAction::TellShutdown));
    let (actions, ends) = on_event(LoopEvent::Control(ControlKind::Shutdown));
    assert!(ends);
    assert!(actions.contains(&LoopAction::TellShutdown));
    assert_eq!(on_event(LoopEvent::ModelExited).0, vec![LoopAction::HandleExit]);
}

#[test]
fn shutdown_takes_leave_first() {
    let steps = shutdown_run_auto_runtime(true);
    assert_eq!(steps.first(), Some(&ShutdownStep::BroadcastLeaving));
    assert_eq!(steps.last(), Some(&ShutdownStep::CleanUpRuntimeDir));
    assert!(steps.contains(&ShutdownStep::AbortDiscovery));
    assert!(!shutdown_run_auto_runtime(false).contains(&ShutdownStep::AbortDiscovery));
}

#[test]
fn guardrails_report_the_last_status() {
    assert_eq!(guardrail_mode_status_label(GuardrailMode::Disabled), "disabled");
    assert_eq!(guardrail_mode_status_label(GuardrailMode::MetricsOnly), "metrics");
    assert_eq!(guardrail_mode_status_label(GuardrailMode::Enforce), "enforce");
    let update = guardrail_update(&vec![None, Some(3), None, Some(5)], 9);
    assert_eq!(update.updated_models, 2);
    let update = guardrail_update(&vec![None, None], 9);
    assert_eq!((update.updated_models, update.status), (0, 9));
    assert_eq!(exit_code(true), 0);
    assert_eq!(exit_code(false), 1);
}
