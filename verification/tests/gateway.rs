use mesh_llm::json::Json;
use mesh_llm::mesh::aliases::{group_aliases_by_canonical_base, InferenceTarget, ModelTargets};
use mesh_llm::mesh::completion::{completion_request, BodyValue, EXCERPT_CHARS};
use mesh_llm::mesh::gateway::{
    build_moa_headers, candidate_models, moa_entry, turn_mode, MoaEntry, Question,
    ResponseAdapter, TurnReport, WorkerSearch, VIRTUAL_MODEL_NAME,
};
use mesh_llm::mesh::quic_http::{
    local_completions_url, parse_quic_http_response, quic_http_document_request,
    quic_http_request, split_http_response, QuicHttpError,
};
use mesh_llm::mesh::routing::{
    route_local_attempt, route_remote_attempt, AttemptEnd, RouteAttemptResult,
};

fn aliases() -> Vec<String> {
    vec!["enable_thinking".to_string()]
}

#[test]
fn only_requests_for_the_mesh_are_taken() {
    let body = Json::Object(vec![("enable_thinking".to_string(), Json::Bool(true))]);
    assert_eq!(moa_entry(Some("Qwen"), Some(&body), &aliases()), MoaEntry::PassOn);
    assert_eq!(moa_entry(None, None, &aliases()), MoaEntry::PassOn);
    assert_eq!(moa_entry(Some(VIRTUAL_MODEL_NAME), None, &aliases()), MoaEntry::BadRequest);
    assert_eq!(
        moa_entry(Some("mesh"), Some(&body), &aliases()),
        MoaEntry::FindWorkers { enable_thinking: Some(true) }
    );
    assert_eq!(
        moa_entry(Some("mesh"), Some(&Json::Null), &aliases()),
        MoaEntry::FindWorkers { enable_thinking: Some(false) }
    );
}

#[test]
fn the_mesh_is_no_worker_of_its_own() {
    let names = vec!["a".to_string(), "mesh".to_string(), "b".to_string()];
    assert_eq!(candidate_models(&names), vec!["a", "b"]);
}

fn run_search(
    names: &[&str],
    targets: Option<&ModelTargets>,
    local: &[&str],
    remote: &[&str],
) -> (WorkerSearch, Vec<String>) {
    let names: Vec<String> = names.iter().map(|name| name.to_string()).collect();
    let mut search = WorkerSearch::new(group_aliases_by_canonical_base(names, targets));
    let mut asked = Vec::new();
    loop {
        match search.question(targets) {
            Question::Done => return (search, asked),
            Question::Local { name, port } => {
                asked.push(format!("{name}:{port}"));
                search.answer(targets, local.contains(&name.as_str()));
            }
            Question::Remote { name } => {
                asked.push(name.clone());
                search.answer(targets, remote.contains(&name.as_str()));
            }
        }
    }
}

#[test]
fn every_model_contributes_one_worker() {
    let names = ["A-1", "unsloth/A-1", "bartowski/A-1-GGUF", "B", "meshllm/B"];
    let (search, asked) = run_search(&names, None, &[], &names);
    assert_eq!(asked, vec!["A-1", "B"]);
    let plan = search.finish().unwrap();
    let workers: Vec<&str> = plan.workers.iter().map(|worker| worker.name.as_str()).collect();
    assert_eq!(workers, vec!["A-1", "B"]);
}

#[test]
fn every_alias_is_tried_until_one_answers() {
    let mut targets = ModelTargets::new();
    targets.targets.insert("A-long", vec![InferenceTarget::Local(9)]);
    let (search, asked) = run_search(
        &["A-long", "unsloth/A-long", "B", "C"],
        Some(&targets),
        &[],
        &["unsloth/A-long", "C"],
    );
    assert_eq!(asked, vec!["A-long:9", "A-long", "unsloth/A-long", "B", "C"]);
    let plan = search.finish().unwrap();
    assert_eq!(plan.workers.len(), 2);
    assert_eq!(plan.workers[0].name, "unsloth/A-long");
    assert_eq!(plan.workers[0].port, None);
    assert_eq!(plan.local_count, 0);
    assert_eq!(plan.worker_timeout_secs, 60);
    assert_eq!(plan.first_answer_grace_secs, 3);
    assert_eq!(plan.strong_patience_secs, 20);
    assert_eq!(plan.enable_thinking, None);
}

#[test]
fn local_workers_are_counted() {
    let mut targets = ModelTargets::new();
    targets.targets.insert("A", vec![InferenceTarget::Local(9)]);
    let (search, _) = run_search(&["A", "B"], Some(&targets), &["A"], &["B"]);
    let plan = search.finish().unwrap();
    assert_eq!(plan.local_count, 1);
    assert_eq!(plan.workers[0].port, Some(9));
}

#[test]
fn one_worker_is_not_enough() {
    let (search, asked) = run_search(&["A", "B"], None, &[], &["B"]);
    assert_eq!(asked, vec!["A", "B"]);
    assert!(search.finish().is_none());
}

#[test]
fn streaming_turns_show_progress() {
    let stream = |value: Json| Json::Object(vec![("stream".to_string(), value)]);
    let mode = turn_mode(&stream(Json::Bool(true)), &ResponseAdapter::<&str>::Unchanged);
    assert!(mode.was_streaming && mode.with_progress);
    let mode = turn_mode(&stream(Json::Bool(true)), &ResponseAdapter::<&str>::OpenAiResponsesStream);
    assert!(mode.with_progress);
    let mode = turn_mode(&stream(Json::Bool(true)), &ResponseAdapter::Other("json"));
    assert!(mode.was_streaming && !mode.with_progress);
    let mode = turn_mode(&stream(Json::Bool(false)), &ResponseAdapter::<&str>::Unchanged);
    assert!(!mode.was_streaming && !mode.with_progress);
    assert!(!turn_mode(&Json::Null, &ResponseAdapter::<&str>::Unchanged).was_streaming);
}

#[test]
fn headers_tell_how_a_turn_went() {
    let headers = build_moa_headers(&TurnReport {
        elapsed_ms: 1234,
        turn_label: "chat".to_string(),
        workers_succeeded: vec![true, false, true],
        reducer_used: "Qwen".to_string(),
        reducer_attempts: 2,
    });
    let told: Vec<(&str, &str)> =
        headers.iter().map(|(name, value)| (*name, value.as_str())).collect();
    assert_eq!(
        told,
        vec![
            ("x-moa-elapsed-ms", "1234"),
            ("x-moa-turn", "chat"),
            ("x-moa-workers", "3"),
            ("x-moa-workers-ok", "2"),
            ("x-moa-reducer", "Qwen"),
            ("x-moa-reducer-attempts", "2"),
        ]
    );
}

#[test]
fn requests_carry_their_length() {
    assert_eq!(
        quic_http_request("{é}".as_bytes()),
        "POST /v1/chat/completions HTTP/1.1\r\nHost: localhost\r\nContent-Type: application/json\r\nContent-Length: 4\r\n\r\n{é}".as_bytes()
    );
    let document: serde_json::Value =
        serde_json::from_str("{ \"b\": [1, 2], \"a\": \"é\" }").unwrap();
    let body = "{\"a\":\"é\",\"b\":[1,2]}";
    assert_eq!(
        quic_http_document_request(&document),
        Ok(quic_http_request(body.as_bytes()))
    );
    assert_eq!(local_completions_url(8080), "http://127.0.0.1:8080/v1/chat/completions");
}

#[test]
fn responses_are_taken_apart() {
    let document =
        parse_quic_http_response(b"HTTP/1.1 200 OK\r\nA: b\r\n\r\n{\"a\": [1, 2.5]}").unwrap();
    assert_eq!(document.to_string(), "{\"a\":[1,2.5]}");
    assert_eq!(
        parse_quic_http_response(b"HTTP/1.1 200 OK\r\n").unwrap_err(),
        QuicHttpError::Malformed
    );
    assert_eq!(
        parse_quic_http_response(b"HTTP/1.1 503 Busy\r\n\r\nx\xff").unwrap_err(),
        QuicHttpError::Status {
            status: 503,
            response: "HTTP/1.1 503 Busy\r\n\r\nx\u{fffd}".to_string(),
        }
    );
    assert!(matches!(
        parse_quic_http_response(b"nonsense\r\n\r\n{}").unwrap_err(),
        QuicHttpError::Status { status: 0, .. }
    ));
    let error = parse_quic_http_response(b"HTTP/1.1 200 OK\r\n\r\n{").unwrap_err();
    assert!(matches!(&error, QuicHttpError::Parse(text) if text.contains("EOF")));
    assert_eq!(split_http_response("HTTP/1.1 200\r\n\r\nb\r\n\r\n").unwrap(), "b\r\n\r\n");
}

#[test]
fn attempts_end_in_a_verdict() {
    let unreachable = AttemptEnd::Unreachable { verdict: RouteAttemptResult::Other(7) };
    assert_eq!(
        route_local_attempt(unreachable),
        (RouteAttemptResult::RetryableUnavailable, false)
    );
    assert_eq!(route_remote_attempt(unreachable), RouteAttemptResult::Other(7));
    let lost: AttemptEnd<u8> = AttemptEnd::NotForwarded;
    assert_eq!(route_local_attempt(lost), (RouteAttemptResult::RetryableUnavailable, false));
    assert_eq!(route_remote_attempt(lost), RouteAttemptResult::RetryableUnavailable);
    let silent = AttemptEnd::NotAnswered { verdict: RouteAttemptResult::Other(3) };
    assert_eq!(route_local_attempt(silent), (RouteAttemptResult::Other(3), false));
    let gone: AttemptEnd<u8> = AttemptEnd::Relayed(RouteAttemptResult::ClientDisconnected);
    assert_eq!(route_local_attempt(gone), (RouteAttemptResult::ClientDisconnected, true));
    assert_eq!(route_remote_attempt(gone), RouteAttemptResult::ClientDisconnected);
}

#[test]
fn workers_are_asked_without_streaming() {
    let members = completion_request("m", "c", Some("t"), 256, "0.5", "0.9");
    let named = |name: &str| {
        members.iter().find(|(member, _)| *member == name).map(|(_, value)| value.clone())
    };
    assert_eq!(members.len(), 8);
    assert_eq!(named("model"), Some(BodyValue::Given("m")));
    assert_eq!(named("messages"), Some(BodyValue::Given("c")));
    assert_eq!(named("max_tokens"), Some(BodyValue::Number(256)));
    assert_eq!(named("temperature"), Some(BodyValue::Given("0.5")));
    assert_eq!(named("top_p"), Some(BodyValue::Given("0.9")));
    assert_eq!(named("stream"), Some(BodyValue::Flag(false)));
    assert_eq!(named("mesh_hooks"), Some(BodyValue::Flag(false)));
    assert_eq!(named("tools"), Some(BodyValue::Given("t")));
    assert_eq!(completion_request("m", "c", None, 1, "0", "1").len(), 7);
}

#[test]
fn refusals_are_put_into_words() {
    assert_eq!(QuicHttpError::Malformed.message(""), "malformed HTTP response");
    let refused = QuicHttpError::Status { status: 503, response: "long".to_string() };
    assert_eq!(refused.message("lo"), "HTTP 503: lo");
    assert_eq!(QuicHttpError::Parse("bad".to_string()).message(""), "parse: bad");
    assert_eq!(EXCERPT_CHARS, 200);
}
