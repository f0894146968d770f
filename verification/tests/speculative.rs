use mesh_llm::attrs::{AttrMap, AttrValue};
use mesh_llm::decode::config::{
    load_standalone_speculative_config, standalone_simple_ngram_max, standalone_simple_ngram_min,
    NativeMtpProposalConfig, NgramExtensionConfig, NgramProposalConfig, NgramProposerKind,
    SpeculativeConfigError, SpeculativeDecodeConfig, VerifyWindowConfig, NGRAM_CACHE_MAX_NGRAM,
};
use mesh_llm::decode::proposer::{CacheUpdate, CachedNgramProposer};
use mesh_llm::decode::stats::{nonzero_min, OpenAiSpeculativeStats};
use mesh_llm::decode::verify_window::{
    classify_verify_window, repaired_commit_tokens, verify_inputs_for_proposals,
    VerifyWindowDecision, VerifyWindowDecisionKind, VerifyWindowError,
};

#[test]
fn standalone_speculative_config_rejects_invalid_composite_plan() {
    let config = SpeculativeDecodeConfig {
        extension: Some(NgramExtensionConfig {
            initial_tokens: 2,
            max_tokens: 4,
            tail_backoff_proposals: 1,
        }),
        ..SpeculativeDecodeConfig::default()
    };

    let error = config.validate().expect_err("extension requires proposers");

    assert!(error
        .message()
        .contains("requires both native MTP and an N-gram proposer"));
}

#[test]
fn standalone_speculative_config_rejects_cache_windows_above_llama_limit() {
    let config = SpeculativeDecodeConfig {
        ngram: Some(NgramProposalConfig {
            kind: NgramProposerKind::Cache,
            min_ngram: 2,
            max_ngram: NGRAM_CACHE_MAX_NGRAM + 1,
            max_proposal_tokens: 6,
        }),
        ..SpeculativeDecodeConfig::default()
    };

    let error = config.validate().expect_err("cache max must be bounded");

    assert!(error.message().contains("must not exceed llama.cpp limit 4"));
}

fn cache_composite() -> SpeculativeDecodeConfig {
    SpeculativeDecodeConfig {
        requested_strategy: "mtp-cache".to_string(),
        effective_strategy: "native-mtp-cache".to_string(),
        native_mtp: NativeMtpProposalConfig {
            enabled: true,
            max_draft_tokens: 2,
            ..SpeculativeDecodeConfig::default().native_mtp
        },
        ngram: Some(NgramProposalConfig {
            kind: NgramProposerKind::Cache,
            min_ngram: 2,
            max_ngram: 4,
            max_proposal_tokens: 6,
        }),
        extension: Some(NgramExtensionConfig {
            initial_tokens: 2,
            max_tokens: 6,
            tail_backoff_proposals: 2,
        }),
        ..SpeculativeDecodeConfig::default()
    }
}

#[test]
fn standalone_speculative_config_accepts_cache_composite() {
    cache_composite().validate().expect("valid composite plan");
    let loaded = load_standalone_speculative_config(Some(cache_composite())).unwrap();
    assert_eq!(loaded.requested_strategy, "mtp-cache");
    assert_eq!(standalone_simple_ngram_min(&loaded), 0);
    assert_eq!(standalone_simple_ngram_max(&loaded), 0);
    assert_eq!(CachedNgramProposer::from_config(&loaded), Some((2, 4)));
}

#[test]
fn standalone_speculative_config_defaults_are_valid() {
    let config = load_standalone_speculative_config(None).unwrap();
    assert_eq!(config.requested_strategy, "auto");
    assert_eq!(config.effective_strategy, "disabled");
    assert_eq!(config.native_mtp.max_draft_tokens, 1);
    assert_eq!(config.verify_window.max_tokens, 4);
    assert_eq!(CachedNgramProposer::from_config(&config), None);
}

fn problem(change: impl Fn(&mut SpeculativeDecodeConfig)) -> Option<SpeculativeConfigError> {
    let mut config = cache_composite();
    change(&mut config);
    let result = config.validate().err();
    assert_eq!(load_standalone_speculative_config(Some(config)).is_err(), result.is_some());
    result
}

#[test]
fn each_problem_of_a_plan_is_found() {
    assert_eq!(problem(|_| ()), None);
    assert_eq!(
        problem(|config| config.requested_strategy = " \t".to_string()),
        Some(SpeculativeConfigError::EmptyStrategy)
    );
    assert_eq!(
        problem(|config| config.effective_strategy = String::new()),
        Some(SpeculativeConfigError::EmptyStrategy)
    );
    assert_eq!(
        problem(|config| config.native_mtp.min_draft_tokens = 3),
        Some(SpeculativeConfigError::NativeMtpDraftTokens)
    );
    for (min, max, proposal) in [(0, 4, 6), (3, 2, 6), (2, 4, 1)] {
        let ngram = NgramProposalConfig {
            kind: NgramProposerKind::Simple,
            min_ngram: min,
            max_ngram: max,
            max_proposal_tokens: proposal,
        };
        assert_eq!(problem(|config| config.ngram = Some(ngram.clone())), Some(SpeculativeConfigError::NgramBounds));
    }
    let wide = NgramProposalConfig {
        kind: NgramProposerKind::Cache,
        min_ngram: 2,
        max_ngram: 5,
        max_proposal_tokens: 6,
    };
    assert_eq!(problem(|config| config.ngram = Some(wide.clone())), Some(SpeculativeConfigError::CacheNgramLimit));
    assert_eq!(problem(|config| config.ngram = None), Some(SpeculativeConfigError::ExtensionWithoutProposers));
    assert_eq!(
        problem(|config| config.native_mtp.enabled = false),
        Some(SpeculativeConfigError::ExtensionWithoutProposers)
    );
    for (initial, max) in [(0, 6), (7, 6), (0, 0)] {
        let extension = NgramExtensionConfig {
            initial_tokens: initial,
            max_tokens: max,
            tail_backoff_proposals: 0,
        };
        assert_eq!(
            problem(|config| config.extension = Some(extension.clone())),
            Some(SpeculativeConfigError::ExtensionBounds)
        );
    }
    for (min, max, depth) in [(0, 4, 1), (5, 4, 1), (1, 4, 0)] {
        let window =
            VerifyWindowConfig { min_tokens: min, max_tokens: max, pipeline_depth: depth };
        assert_eq!(
            problem(|config| config.verify_window = window.clone()),
            Some(SpeculativeConfigError::VerifyWindowBounds)
        );
    }
}

#[test]
fn plans_are_told_by_their_strategies() {
    let mut attrs: AttrMap<f64> = AttrMap::new();
    cache_composite().insert_telemetry_attrs(&mut attrs);
    assert!(matches!(
        attrs.get("llama_stage.spec.requested_strategy"),
        Some(AttrValue::Text(text)) if text == "mtp-cache"
    ));
    assert!(matches!(
        attrs.get("llama_stage.spec.effective_strategy"),
        Some(AttrValue::Text(text)) if text == "native-mtp-cache"
    ));
    assert_eq!(attrs.entries().len(), 2);
}

#[test]
fn simple_proposals_are_bounded_by_both_lengths() {
    let mut config = SpeculativeDecodeConfig::default();
    config.ngram = Some(NgramProposalConfig {
        kind: NgramProposerKind::Simple,
        min_ngram: 2,
        max_ngram: 5,
        max_proposal_tokens: 3,
    });
    assert_eq!(standalone_simple_ngram_min(&config), 2);
    assert_eq!(standalone_simple_ngram_max(&config), 3);
    assert_eq!(CachedNgramProposer::from_config(&config), None);
}

#[test]
fn cache_follows_the_committed_history() {
    let mut proposer = CachedNgramProposer::new();
    let history = [1, 2, 3, 1, 2, 3, 1, 2];
    assert_eq!(proposer.sync(&history), CacheUpdate::Append { from: 0 });
    proposer.synced(&history);
    assert_eq!(proposer.sync(&history), CacheUpdate::Append { from: 8 });
    assert_eq!(proposer.sync(&[1, 2, 3, 1, 2, 3, 1, 2, 9]), CacheUpdate::Append { from: 8 });
    assert_eq!(proposer.sync(&[1, 2]), CacheUpdate::Reset);
    assert_eq!(proposer.sync(&[1, 2, 4, 1, 2, 3, 1, 2]), CacheUpdate::Reset);
}

fn never(_: i32) -> Result<bool, String> {
    Ok(false)
}

fn decision(
    kind: VerifyWindowDecisionKind,
    accepted: usize,
    repair: Option<usize>,
    commit: usize,
) -> VerifyWindowDecision {
    VerifyWindowDecision {
        kind,
        accepted_before_reject: accepted,
        repair_input_count: repair,
        commit_count: commit,
    }
}

#[test]
fn windows_are_judged_by_their_first_difference() {
    let judge = |draft: &[i32], predicted: &[i32], max: usize| {
        classify_verify_window(draft, predicted, 0, max, never).unwrap()
    };
    assert_eq!(judge(&[1, 2, 3], &[1, 2, 3], 100), decision(VerifyWindowDecisionKind::FullAccept, 3, None, 3));
    assert_eq!(judge(&[1, 2, 3], &[1, 2, 9], 100), decision(VerifyWindowDecisionKind::TailReject, 2, Some(3), 3));
    assert_eq!(judge(&[1, 2, 3], &[1, 9, 3], 100), decision(VerifyWindowDecisionKind::EarlyReject, 1, Some(2), 2));
    assert_eq!(judge(&[1, 2, 3], &[1, 9, 3], 2), decision(VerifyWindowDecisionKind::EarlyRejectStop, 1, Some(2), 2));
    assert_eq!(judge(&[1, 2, 3], &[1, 2, 3], 2), decision(VerifyWindowDecisionKind::AcceptedStop, 2, None, 2));
    assert_eq!(judge(&[1, 2, 3], &[1, 2, 3], 3), decision(VerifyWindowDecisionKind::FullAccept, 3, None, 3));
    assert_eq!(judge(&[], &[], 5), decision(VerifyWindowDecisionKind::FullAccept, 0, None, 0));
    let ends = |token: i32| -> Result<bool, String> { Ok(token == 2) };
    assert_eq!(
        classify_verify_window(&[1, 2, 3], &[1, 2, 3], 0, 100, ends).unwrap(),
        decision(VerifyWindowDecisionKind::AcceptedStop, 2, None, 2)
    );
}

#[test]
fn windows_with_missing_tokens_are_refused() {
    let error = classify_verify_window(&[1, 2], &[1], 0, 5, never).unwrap_err();
    assert!(matches!(error, VerifyWindowError::TooFewTokens { got: 1, expected: 2 }));
    assert_eq!(
        error.message().as_deref(),
        Some("verify window returned too few tokens: got 1 expected 2")
    );
    let fails = |_: i32| -> Result<bool, String> { Err("gone".to_string()) };
    let error = classify_verify_window(&[1], &[1], 0, 5, fails).unwrap_err();
    assert!(matches!(&error, VerifyWindowError::EndOfText(text) if text == "gone"));
    assert_eq!(error.message(), None);
}

#[test]
fn rejections_and_repairs_are_told_apart() {
    assert!(decision(VerifyWindowDecisionKind::TailReject, 0, Some(1), 1).rejected());
    assert!(decision(VerifyWindowDecisionKind::EarlyRejectStop, 0, Some(1), 1).rejected());
    assert!(!decision(VerifyWindowDecisionKind::AcceptedStop, 0, None, 1).rejected());
    assert!(decision(VerifyWindowDecisionKind::EarlyReject, 0, Some(1), 1).requires_repair());
    assert!(!decision(VerifyWindowDecisionKind::TailReject, 0, Some(1), 1).requires_repair());
}

#[test]
fn inputs_are_the_current_token_and_all_but_the_last_proposal() {
    assert_eq!(verify_inputs_for_proposals(7, &[1, 2, 3]), vec![7, 1, 2]);
    assert_eq!(verify_inputs_for_proposals(7, &[1]), vec![7]);
    assert!(verify_inputs_for_proposals(7, &[]).is_empty());
}

#[test]
fn repaired_tokens_are_committed() {
    let commit = repaired_commit_tokens(&[1, 2, 3], 1, 2, &[1, 9, 8]).unwrap();
    assert_eq!(commit.tokens, vec![1, 9]);
    assert!(!commit.prefix_changed);
    let commit = repaired_commit_tokens(&[1, 2, 3], 1, 2, &[4, 9, 8]).unwrap();
    assert_eq!(commit.tokens, vec![4, 9]);
    assert!(commit.prefix_changed);
    let error = repaired_commit_tokens(&[1, 2, 3], 1, 2, &[1]).unwrap_err();
    assert_eq!(
        error.message(),
        "recovery verify returned too few tokens: expected 2 got [1]"
    );
    assert!(repaired_commit_tokens(&[1], 5, 2, &[1]).is_err());
    let error = repaired_commit_tokens(&[1, 2, 3], 1, 3, &[1, -2]).unwrap_err();
    assert_eq!(
        error.message(),
        "recovery verify returned too few tokens: expected 3 got [1, -2]"
    );
}

#[test]
fn least_window_ignores_zero() {
    assert_eq!(nonzero_min(0, 5), 5);
    assert_eq!(nonzero_min(3, 5), 3);
    assert_eq!(nonzero_min(6, 5), 5);
}

#[test]
fn window_adapts_to_what_is_accepted() {
    let mut stats = OpenAiSpeculativeStats::new(0.0);
    let mut window: usize = 2;
    stats.observe_verify_decision(decision(VerifyWindowDecisionKind::FullAccept, 2, None, 2), &mut window, true, 4);
    assert_eq!(window, 3);
    stats.observe_verify_decision(decision(VerifyWindowDecisionKind::TailReject, 2, Some(3), 3), &mut window, true, 4);
    assert_eq!(window, 4);
    stats.observe_verify_decision(decision(VerifyWindowDecisionKind::FullAccept, 4, None, 4), &mut window, true, 4);
    assert_eq!(window, 4);
    stats.observe_verify_decision(decision(VerifyWindowDecisionKind::EarlyReject, 0, Some(1), 1), &mut window, true, 4);
    assert_eq!(window, 3);
    stats.observe_verify_decision(
        decision(VerifyWindowDecisionKind::EarlyRejectStop, 1, Some(2), 2),
        &mut window,
        true,
        4,
    );
    stats.observe_verify_decision(decision(VerifyWindowDecisionKind::AcceptedStop, 1, None, 1), &mut window, true, 4);
    assert_eq!(window, 3);
    assert_eq!(stats.full_accept_windows, 2);
    assert_eq!(stats.tail_reject_windows, 1);
    assert_eq!(stats.early_reject_windows, 2);
    assert_eq!(stats.early_reject_stop_windows, 1);
    assert_eq!(stats.repair_required_windows, 1);
    assert_eq!(stats.accepted_stop_windows, 1);
    assert_eq!(stats.rejected_windows, 3);
    assert_eq!(stats.first_reject_position_sum, 6);
    assert_eq!(stats.accepted_tokens, 10);
    assert_eq!(stats.rejected_tokens, 3);
    assert_eq!(stats.adaptive_window_min, 2);
    assert_eq!(stats.adaptive_window_max_seen, 4);
    assert_eq!(stats.adaptive_window_sum, 2 + 3 + 4 + 4 + 3 + 3);
    assert_eq!((stats.adaptive_window_grows, stats.adaptive_window_shrinks), (2, 1));
}

#[test]
fn window_stays_where_it_is_not_adaptive() {
    let mut stats = OpenAiSpeculativeStats::new(0.0);
    let mut window: usize = 2;
    stats.observe_verify_decision(decision(VerifyWindowDecisionKind::FullAccept, 2, None, 2), &mut window, false, 4);
    stats.observe_verify_decision(decision(VerifyWindowDecisionKind::EarlyReject, 0, Some(1), 1), &mut window, false, 4);
    assert_eq!(window, 2);
    assert_eq!((stats.adaptive_window_grows, stats.adaptive_window_shrinks), (0, 0));
}

#[test]
fn stats_are_told_only_after_a_window() {
    let mut attrs: AttrMap<f64> = AttrMap::new();
    let mut stats = OpenAiSpeculativeStats::new(0.0);
    stats.insert_attrs(&mut attrs);
    assert!(matches!(
        attrs.get("llama_stage.spec.enabled"),
        Some(AttrValue::Bool(false))
    ));
    assert_eq!(attrs.entries().len(), 1);
    stats.windows = 2;
    stats.draft_tokens = 8;
    stats.accepted_tokens = 6;
    stats.checkpoint_ms = 1.5;
    let mut attrs: AttrMap<f64> = AttrMap::new();
    stats.insert_attrs(&mut attrs);
    assert!(matches!(attrs.get("llama_stage.spec.enabled"), Some(AttrValue::Bool(true))));
    assert!(matches!(attrs.get("llama_stage.spec.windows"), Some(AttrValue::Count(2))));
    assert!(matches!(
        attrs.get("llama_stage.spec.accept_rate"),
        Some(AttrValue::Ratio { part: 6, whole: 8 })
    ));
    assert!(matches!(
        attrs.get("llama_stage.spec.checkpoint_ms"),
        Some(AttrValue::Measure(ms)) if *ms == 1.5
    ));
    let mut timings: AttrMap<f64> = AttrMap::new();
    stats.insert_response_timings(&mut timings);
    assert!(timings.get("verify_window_verify_elapsed_ms").is_some());
}
