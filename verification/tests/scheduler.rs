use mesh_llm::attrs::{AttrMap, AttrValue};
use mesh_llm::decode::scheduler::{
    VerifyWindowPipelineConfig, VerifyWindowScheduler, VerifyWindowSchedulerError,
    PIPELINE_PROFILE_MAX_OBSERVATIONS, PIPELINE_PROFILE_MIN_OBSERVATIONS,
};

const MS: u64 = 1_000_000;

fn is_count(attrs: &AttrMap<f64>, name: &str, value: u64) -> bool {
    matches!(attrs.get(name), Some(AttrValue::Count(count)) if *count == value)
}

#[test]
fn bounds_depth_and_requires_fifo_reply_ids() {
    let config = VerifyWindowPipelineConfig { depth: 2 };
    let mut scheduler = VerifyWindowScheduler::new(config);
    let first = scheduler.open(10, 0).unwrap();
    let second = scheduler.open(11, 1).unwrap();

    assert!(scheduler.open(12, 2).is_err());
    assert!(scheduler.complete_next(second.id).is_err());
    assert_eq!(scheduler.in_flight_len(), 2);
    assert_eq!(scheduler.complete_next(first.id).unwrap(), first);
    assert_eq!(scheduler.complete_next(second.id).unwrap(), second);
    assert_eq!(first.id, 1);
    assert_eq!(scheduler.stats().depth, 2);
    assert_eq!(scheduler.stats().opened_windows, 2);
    assert_eq!(scheduler.stats().max_in_flight, 2);
    assert!(!scheduler.stats().direct_prediction_return);
}

#[test]
fn discards_stale_windows_after_divergence() {
    let config = VerifyWindowPipelineConfig { depth: 3 };
    let mut scheduler = VerifyWindowScheduler::new(config);
    scheduler.open(10, 0).unwrap();
    scheduler.open(11, 1).unwrap();
    scheduler.open(12, 2).unwrap();

    assert_eq!(scheduler.discard_stale(), 3);
    assert_eq!(scheduler.stale_discard_count(), 3);
    assert_eq!(scheduler.in_flight_len(), 0);
    assert_eq!(scheduler.stats().stale_discarded, 3);
}

#[test]
fn pipeline_policy_waits_for_enough_width_specific_evidence() {
    let mut scheduler = VerifyWindowScheduler::new(VerifyWindowPipelineConfig { depth: 2 });
    for _ in 0..PIPELINE_PROFILE_MIN_OBSERVATIONS - 1 {
        scheduler.observe_pipeline_profile(2, true, 20 * MS, 80 * MS);
    }
    assert!(!scheduler.has_profitable_pipeline_width());
    assert!(!scheduler.permit_pipeline_width(2));

    scheduler.observe_pipeline_profile(2, true, 20 * MS, 80 * MS);
    assert!(scheduler.has_profitable_pipeline_width());
    assert!(scheduler.permit_pipeline_width(2));
}

#[test]
fn pipeline_policy_suppresses_low_acceptance_local_work() {
    let mut scheduler = VerifyWindowScheduler::new(VerifyWindowPipelineConfig { depth: 2 });
    for index in 0..PIPELINE_PROFILE_MIN_OBSERVATIONS {
        scheduler.observe_pipeline_profile(2, index < 2, 31 * MS, 24 * MS);
    }

    assert!(!scheduler.has_profitable_pipeline_width());
    assert!(!scheduler.permit_pipeline_width(2));
    assert_eq!(scheduler.stats().policy_permit_checks, 1);
    assert_eq!(scheduler.stats().policy_permits, 0);
    assert_eq!(scheduler.stats().policy_suppressed, 1);
}

#[test]
fn pipeline_policy_profiles_each_verify_width_independently() {
    let mut scheduler = VerifyWindowScheduler::new(VerifyWindowPipelineConfig { depth: 2 });
    for index in 0..PIPELINE_PROFILE_MIN_OBSERVATIONS {
        scheduler.observe_pipeline_profile(1, index < 7, 20 * MS, 80 * MS);
        scheduler.observe_pipeline_profile(2, index < 2, 31 * MS, 24 * MS);
    }

    assert!(scheduler.has_profitable_pipeline_width());
    assert!(scheduler.permit_pipeline_width(1));
    assert!(!scheduler.permit_pipeline_width(2));
}

#[test]
fn pipeline_depth_one_never_admits_dependent_work() {
    let mut scheduler = VerifyWindowScheduler::new(VerifyWindowPipelineConfig { depth: 1 });
    for _ in 0..PIPELINE_PROFILE_MIN_OBSERVATIONS {
        scheduler.observe_pipeline_profile(2, true, 20 * MS, 80 * MS);
    }

    assert!(!scheduler.has_profitable_pipeline_width());
    assert!(!scheduler.permit_pipeline_width(2));
}

#[test]
fn pipeline_policy_adapts_when_recent_acceptance_changes() {
    let mut scheduler = VerifyWindowScheduler::new(VerifyWindowPipelineConfig { depth: 2 });
    for _ in 0..PIPELINE_PROFILE_MAX_OBSERVATIONS {
        scheduler.observe_pipeline_profile(2, true, 20 * MS, 80 * MS);
    }
    assert!(scheduler.permit_pipeline_width(2));

    for _ in 0..PIPELINE_PROFILE_MAX_OBSERVATIONS {
        scheduler.observe_pipeline_profile(2, false, 20 * MS, 80 * MS);
    }
    assert!(!scheduler.permit_pipeline_width(2));
}

#[test]
fn pipeline_policy_counters_are_exposed_in_response_timings() {
    let mut scheduler = VerifyWindowScheduler::new(VerifyWindowPipelineConfig { depth: 2 });
    for _ in 0..PIPELINE_PROFILE_MIN_OBSERVATIONS {
        scheduler.observe_pipeline_profile(2, true, 20 * MS, 80 * MS);
    }
    assert!(scheduler.permit_pipeline_width(2));
    let mut timings: AttrMap<f64> = AttrMap::new();
    scheduler.stats().insert_response_timings(&mut timings);

    let observed = PIPELINE_PROFILE_MIN_OBSERVATIONS as u64;
    assert!(is_count(&timings, "verify_window_policy_observed_windows", observed));
    assert!(is_count(&timings, "verify_window_policy_continuation_windows", observed));
    assert!(is_count(&timings, "verify_window_policy_permit_checks", 1));
    assert!(is_count(&timings, "verify_window_policy_permits", 1));
    assert!(is_count(&timings, "verify_window_policy_suppressed", 0));

    let mut attrs: AttrMap<f64> = AttrMap::new();
    scheduler.insert_policy_telemetry_attrs(&mut attrs);
    assert!(is_count(
        &attrs,
        "llama_stage.verify_window.pipeline_policy_observed_windows",
        observed
    ));
    assert!(is_count(
        &attrs,
        "llama_stage.verify_window.pipeline_policy_continuation_windows",
        observed
    ));
    assert!(is_count(
        &attrs,
        "llama_stage.verify_window.pipeline_policy_profitable_widths",
        1
    ));
}

#[test]
fn depth_of_the_configuration_is_at_least_one() {
    assert_eq!(VerifyWindowPipelineConfig::new(0).depth(), 1);
    assert_eq!(VerifyWindowPipelineConfig::new(5).depth(), 5);
}

#[test]
fn scheduler_errors_say_what_went_wrong() {
    let mut scheduler = VerifyWindowScheduler::new(VerifyWindowPipelineConfig { depth: 1 });
    assert!(matches!(
        scheduler.complete_next(1),
        Err(VerifyWindowSchedulerError::NoWindowInFlight)
    ));
    let window = scheduler.open(3, 4).unwrap();
    assert_eq!((window.id, window.base_position, window.decode_step), (1, 3, 4));
    assert!(matches!(scheduler.open(4, 5), Err(VerifyWindowSchedulerError::DepthExceeded)));
    let error = scheduler.complete_next(9).unwrap_err();
    assert!(matches!(
        error,
        VerifyWindowSchedulerError::OutOfOrder { got: 9, expected: 1 }
    ));
    assert!(error.message().contains("9") && error.message().contains("1"));
    assert!(!VerifyWindowSchedulerError::IdOverflow.message().is_empty());
    assert_ne!(
        VerifyWindowSchedulerError::DepthExceeded.message(),
        VerifyWindowSchedulerError::NoWindowInFlight.message()
    );
}

#[test]
fn stale_windows_and_their_time_are_counted() {
    let mut scheduler = VerifyWindowScheduler::new(VerifyWindowPipelineConfig { depth: 4 });
    scheduler.mark_direct_prediction_return();
    scheduler.record_stale_discarded(2, 5 * MS);
    scheduler.record_stale_discarded(1, 7);
    let stats = scheduler.stats();
    assert_eq!(stats.stale_discarded, 3);
    assert_eq!(stats.stale_drain_nanos, 5_000_007);
    assert!(stats.direct_prediction_return);
    let mut timings: AttrMap<f64> = AttrMap::new();
    stats.insert_response_timings(&mut timings);
    let drained = timings
        .entries()
        .iter()
        .any(|(_, value)| matches!(value, AttrValue::Duration(nanos) if *nanos == 5_000_007));
    assert!(drained);
}

#[test]
fn ids_stay_in_order_while_windows_come_and_go() {
    let mut scheduler = VerifyWindowScheduler::new(VerifyWindowPipelineConfig { depth: 2 });
    for step in 0..5 {
        let window = scheduler.open(step, step).unwrap();
        assert_eq!(window.id, step as i32 + 1);
        assert!(scheduler.has_capacity());
        assert_eq!(scheduler.complete_next(window.id).unwrap(), window);
    }
    assert_eq!(scheduler.depth(), 2);
    assert_eq!(scheduler.in_flight_len(), 0);
}
