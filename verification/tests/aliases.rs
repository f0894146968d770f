use mesh_llm::json::Json;
use mesh_llm::mesh::aliases::{
    canonical_base_name, canonical_base_of_lowered, group_aliases_by_canonical_base,
    is_locally_served, local_port, InferenceTarget, ModelTargets,
};
use mesh_llm::mesh::thinking::{
    effective_enable_thinking_for_moa, extract_enable_thinking_override,
};

fn aliases() -> Vec<String> {
    vec![
        "enable_thinking".to_string(),
        "enable_reasoning".to_string(),
        "use_thinking".to_string(),
    ]
}

fn text(value: &str) -> Json {
    Json::Str(value.to_string())
}

fn object(members: Vec<(&str, Json)>) -> Json {
    Json::Object(members.into_iter().map(|(name, value)| (name.to_string(), value)).collect())
}

#[test]
fn canonical_base_dedupes_unsloth_and_gguf_variants() {
    assert_eq!(
        canonical_base_name("unsloth/Qwen3-8B-GGUF:Q4_K_M"),
        canonical_base_name("Qwen3-8B-Q4_K_M")
    );
    assert_eq!(
        canonical_base_name("unsloth/Qwen3-8B-GGUF@main:Q4_K_M"),
        canonical_base_name("Qwen3-8B-Q4_K_M")
    );
}

#[test]
fn canonical_base_keeps_distinct_models_distinct() {
    assert_ne!(
        canonical_base_name("unsloth/Qwen3-8B-GGUF:Q4_K_M"),
        canonical_base_name("unsloth/Qwen3-32B-GGUF:Q4_K_M")
    );
    assert_ne!(
        canonical_base_name("unsloth/Qwen3-32B-GGUF:Q4_K_M"),
        canonical_base_name("unsloth/MiniMax-M2.5-GGUF:Q4_K_M")
    );
}

fn make_targets(local_names: &[&str]) -> ModelTargets {
    let mut t = ModelTargets::new();
    for (i, name) in local_names.iter().enumerate() {
        t.targets.insert(name, vec![InferenceTarget::Local(50000 + i as u16)]);
    }
    t
}

#[test]
fn group_aliases_keeps_all_aliases_per_canonical_base() {
    let groups = group_aliases_by_canonical_base(
        vec![
            "Qwen3-8B-Q4_K_M".to_string(),
            "unsloth/Qwen3-8B-GGUF:Q4_K_M".to_string(),
        ],
        None,
    );
    assert_eq!(groups.len(), 1, "both names share a canonical base");
    assert_eq!(groups[0].len(), 2, "both aliases retained");
}

#[test]
fn group_aliases_prefers_locally_served_alias_even_when_longer() {
    let local = "unsloth/Qwen3-8B-GGUF:Q4_K_M";
    let peer = "Qwen3-8B-Q4_K_M";
    let targets = make_targets(&[local]);
    let groups = group_aliases_by_canonical_base(
        vec![peer.to_string(), local.to_string()],
        Some(&targets),
    );
    assert_eq!(groups.len(), 1);
    assert_eq!(
        groups[0].first().map(String::as_str),
        Some(local),
        "locally-served alias must win even though it's longer"
    );
}

#[test]
fn group_aliases_falls_back_to_shortest_when_no_local() {
    let groups = group_aliases_by_canonical_base(
        vec![
            "unsloth/Qwen3-8B-GGUF:Q4_K_M".to_string(),
            "Qwen3-8B-Q4_K_M".to_string(),
        ],
        None,
    );
    assert_eq!(groups.len(), 1);
    assert_eq!(
        groups[0].first().map(String::as_str),
        Some("Qwen3-8B-Q4_K_M")
    );
    assert_eq!(groups[0].len(), 2, "longer alias kept as fallback");
}

#[test]
fn group_aliases_distinct_models_stay_in_separate_groups() {
    let groups = group_aliases_by_canonical_base(
        vec![
            "unsloth/Qwen3-8B-GGUF:Q4_K_M".to_string(),
            "unsloth/Qwen3-32B-GGUF:Q4_K_M".to_string(),
            "unsloth/MiniMax-M2.5-GGUF:Q4_K_M".to_string(),
        ],
        None,
    );
    assert_eq!(groups.len(), 3);
}

#[test]
fn extract_no_knobs_returns_none() {
    let body = object(vec![("model", text("mesh")), ("messages", Json::Array(vec![]))]);
    assert_eq!(extract_enable_thinking_override(&body, &aliases()), None);
}

#[test]
fn extract_reasoning_effort_none_disables() {
    let body = object(vec![("reasoning_effort", text("none"))]);
    assert_eq!(extract_enable_thinking_override(&body, &aliases()), Some(false));
}

#[test]
fn extract_reasoning_effort_low_enables() {
    let body = object(vec![("reasoning_effort", text("low"))]);
    assert_eq!(extract_enable_thinking_override(&body, &aliases()), Some(true));
}

#[test]
fn extract_reasoning_enabled_false_disables() {
    let body = object(vec![("reasoning", object(vec![("enabled", Json::Bool(false))]))]);
    assert_eq!(extract_enable_thinking_override(&body, &aliases()), Some(false));
}

#[test]
fn extract_reasoning_max_tokens_zero_disables() {
    let body = object(vec![("reasoning", object(vec![("max_tokens", Json::Unsigned(0))]))]);
    assert_eq!(extract_enable_thinking_override(&body, &aliases()), Some(false));
}

#[test]
fn extract_top_level_enable_thinking_false() {
    let body = object(vec![("enable_thinking", Json::Bool(false))]);
    assert_eq!(extract_enable_thinking_override(&body, &aliases()), Some(false));
}

#[test]
fn extract_top_level_enable_thinking_alias() {
    let body = object(vec![("use_thinking", Json::Bool(false))]);
    assert_eq!(extract_enable_thinking_override(&body, &aliases()), Some(false));
}

#[test]
fn extract_thinking_budget_zero_disables() {
    let body = object(vec![("thinking_budget", Json::Unsigned(0))]);
    assert_eq!(extract_enable_thinking_override(&body, &aliases()), Some(false));
}

#[test]
fn extract_chat_template_kwargs_passes_through() {
    let body = object(vec![(
        "chat_template_kwargs",
        object(vec![("enable_thinking", Json::Bool(false))]),
    )]);
    assert_eq!(extract_enable_thinking_override(&body, &aliases()), Some(false));
}

#[test]
fn extract_latest_wins_when_multiple_set() {
    let body = object(vec![
        ("reasoning_effort", text("low")),
        (
            "chat_template_kwargs",
            object(vec![("enable_thinking", Json::Bool(false))]),
        ),
    ]);
    assert_eq!(extract_enable_thinking_override(&body, &aliases()), Some(false));
}

#[test]
fn effective_default_is_no_thinking_when_caller_silent() {
    let body = object(vec![("model", text("mesh")), ("messages", Json::Array(vec![]))]);
    assert_eq!(effective_enable_thinking_for_moa(&body, &aliases()), Some(false));
}

#[test]
fn effective_respects_explicit_disable_from_caller() {
    let body = object(vec![("reasoning_effort", text("none")), ("model", text("mesh"))]);
    assert_eq!(effective_enable_thinking_for_moa(&body, &aliases()), Some(false));
}

#[test]
fn effective_lets_caller_explicitly_enable_thinking() {
    let body = object(vec![("reasoning_effort", text("low")), ("model", text("mesh"))]);
    assert_eq!(effective_enable_thinking_for_moa(&body, &aliases()), Some(true));
}

#[test]
fn effective_default_for_tool_calling_request_still_no_thinking() {
    let tool = object(vec![
        ("type", text("function")),
        ("function", object(vec![("name", text("x"))])),
    ]);
    let body = object(vec![
        ("model", text("mesh")),
        ("messages", Json::Array(vec![])),
        ("tools", Json::Array(vec![tool])),
    ]);
    assert_eq!(effective_enable_thinking_for_moa(&body, &aliases()), Some(false));
}

#[test]
fn extract_ignores_what_is_not_an_object() {
    assert_eq!(extract_enable_thinking_override(&Json::Array(vec![]), &aliases()), None);
    assert_eq!(extract_enable_thinking_override(&Json::Null, &aliases()), None);
    assert_eq!(effective_enable_thinking_for_moa(&Json::Null, &aliases()), Some(false));
}

#[test]
fn extract_reads_only_a_budget_of_zero() {
    let body = object(vec![("thinking_budget", Json::Unsigned(16))]);
    assert_eq!(extract_enable_thinking_override(&body, &aliases()), None);
    let body = object(vec![("reasoning", object(vec![("max_tokens", Json::Unsigned(16))]))]);
    assert_eq!(extract_enable_thinking_override(&body, &aliases()), Some(true));
    let body = object(vec![("reasoning", object(vec![("effort", text("none"))]))]);
    assert_eq!(extract_enable_thinking_override(&body, &aliases()), Some(false));
}

#[test]
fn extract_takes_the_last_of_two_members() {
    let body = object(vec![
        ("enable_thinking", Json::Bool(true)),
        ("enable_thinking", Json::Bool(false)),
    ]);
    assert_eq!(extract_enable_thinking_override(&body, &aliases()), Some(false));
}

#[test]
fn canonical_base_leaves_any_publisher_out() {
    let plain = canonical_base_name("Qwen3-8B-Q4_K_M");
    assert_eq!(plain, "qwen38bq4km");
    for name in [
        "bartowski/Qwen3-8B-GGUF:Q4_K_M",
        "lmstudio-community/Qwen3-8B-GGUF@main:Q4_K_M",
        "meshllm/Qwen3-8B-GGUF:Q4_K_M",
        "QWEN/QWEN3-8B-Q4_K_M",
    ] {
        assert_eq!(canonical_base_name(name), plain, "{name}");
    }
    assert_eq!(canonical_base_name("hf.co/unsloth/Qwen3-8B-GGUF"), "qwen38b");
    assert_eq!(canonical_base_name("unsloth/a/b"), "ab");
    assert_eq!(canonical_base_name("Qwen3-8B@feature/x:Q4"), "qwen38bq4");
    let groups = group_aliases_by_canonical_base(
        vec!["bartowski/Qwen3-8B-GGUF:Q4_K_M".to_string(), "Qwen3-8B-Q4_K_M".to_string()],
        None,
    );
    assert_eq!(groups, vec![vec!["Qwen3-8B-Q4_K_M", "bartowski/Qwen3-8B-GGUF:Q4_K_M"]]);
}

#[test]
fn canonical_base_of_a_base_is_itself() {
    for name in [
        "Qwen3-8B-Q4_K_M",
        "unsloth/MiniMax-M2.5-GGUF:Q4_K_M",
        "ÄP\u{212A}",
        "modelΣ-ΣaΣ:q4",
    ] {
        let base = canonical_base_name(name);
        assert_eq!(canonical_base_name(&base), base);
        assert!(base.chars().all(|c| c.is_ascii_lowercase() || c.is_ascii_digit()));
        assert_eq!(canonical_base_name(&name.to_ascii_uppercase()), base);
    }
}

#[test]
fn canonical_base_holds_letters_and_digits_alone() {
    assert_eq!(canonical_base_name("Qwen3-8B-Q4_K_M"), "qwen38bq4km");
    assert_eq!(canonical_base_name("meshllm/Model@branch"), "model");
    // The Kelvin sign is an ASCII letter in lower case.
    assert_eq!(canonical_base_name("ÄP\u{212A}"), "pk");
    assert_eq!(canonical_base_of_lowered("unsloth/qwen3-8b-gguf@main:q4_k_m"), "qwen38bq4km");
    assert_eq!(canonical_base_of_lowered("QWEN"), "QWEN");
}

#[test]
fn local_targets_are_found() {
    let mut targets = make_targets(&["a", "b"]);
    targets.targets.insert("c", vec![InferenceTarget::Elsewhere]);
    targets.targets.insert(
        "d",
        vec![InferenceTarget::Elsewhere, InferenceTarget::Local(7), InferenceTarget::Local(8)],
    );
    assert_eq!(local_port("a", Some(&targets)), Some(50000));
    assert_eq!(local_port("b", Some(&targets)), Some(50001));
    assert_eq!(local_port("c", Some(&targets)), None);
    assert_eq!(local_port("d", Some(&targets)), Some(7));
    assert_eq!(local_port("e", Some(&targets)), None);
    assert_eq!(local_port("a", None), None);
    assert!(is_locally_served("d", Some(&targets)));
    assert!(!is_locally_served("c", Some(&targets)));
    assert!(!is_locally_served("a", None));
}

#[test]
fn groups_hold_every_alias_in_order() {
    let names: Vec<String> = vec![
        "unsloth/B-GGUF:Q8".to_string(),
        "A-Q8".to_string(),
        "B-Q8".to_string(),
        "unsloth/A-GGUF:Q8".to_string(),
        "B-q8".to_string(),
    ];
    let groups = group_aliases_by_canonical_base(names, None);
    let mut sizes: Vec<usize> = groups.iter().map(|group| group.len()).collect();
    sizes.sort();
    assert_eq!(sizes, vec![2, 3]);
    for group in &groups {
        for pair in group.windows(2) {
            assert!(pair[0].len() <= pair[1].len());
        }
    }
    assert!(groups.iter().any(|group| group == &vec!["A-Q8", "unsloth/A-GGUF:Q8"]));
    assert!(groups.iter().any(|group| group == &vec!["B-Q8", "B-q8", "unsloth/B-GGUF:Q8"]));
}
