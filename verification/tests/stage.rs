use mesh_llm::attrs::{AttrMap, AttrValue};
use mesh_llm::decode::config::SpeculativeDecodeConfig;
use mesh_llm::decode::scheduler::{VerifyWindowPipelineConfig, VerifyWindowScheduler};
use mesh_llm::decode::stats::OpenAiSpeculativeStats;
use mesh_llm::stage::connection::{
    Action, Connection, ConnectionConfig, ConnectionError, Event, ForwardMode, MessageKind, Phase,
    Register, StageMessage,
};
use mesh_llm::stage::embedded::{
    decode_uses_context_sideband, finish_embedded_generation_session, EmbeddedDecodeSummary,
    GenerationCacheStats, LaneEnd,
};
use mesh_llm::stage::forwarder::{AsyncForwarder, FlushError};
use mesh_llm::stage::telemetry::{
    predicted_token_count, record_verify_window_timing, verify_window_gaps, OpenSpan,
    PrefillRecord, VerifyWindowTotals,
};
use mesh_llm::stage::traces::{
    insert_observation, insert_optional_unix_nanos, insert_runtime_session_stats,
    insert_write_mode, AlignTrace, CacheControlTrace, ReplyKind, RuntimeSessionStats,
    SessionDropStats, UpstreamReplyWriteSpan,
};

fn config(downstream: bool) -> ConnectionConfig {
    ConnectionConfig {
        downstream,
        downstream_configured: downstream,
        max_inflight: 1,
        reply_credit_limit: Some(2),
        async_prefill_forward: true,
        recurrent_state: false,
        cache: true,
        layer_start: 0,
    }
}

fn message(kind: MessageKind) -> StageMessage {
    StageMessage {
        kind,
        prefill: false,
        requires_predicted: false,
        state_matches: true,
        token_count: 1,
        pos_start: 0,
        prompt_token_count: 4,
        position: None,
        current_token: 7,
        chat_sampling: false,
    }
}

fn prefill() -> StageMessage {
    StageMessage { prefill: true, ..message(MessageKind::Other) }
}

fn predicted() -> StageMessage {
    StageMessage { requires_predicted: true, ..message(MessageKind::Other) }
}

fn ack() -> Event {
    Event::Reply { ack: true, lookup_hits: 0, lookup_misses: 0, lookup_errors: 0 }
}

fn nack() -> Event {
    Event::Reply { ack: false, lookup_hits: 0, lookup_misses: 0, lookup_errors: 0 }
}

fn prepared(restored: usize) -> Event {
    Event::Prepared { token_count: 4, restored_tokens: restored, aligned: None }
}

fn input() -> Event {
    Event::Input { batched: false, first_token: Some(1) }
}

fn executed() -> Event {
    Event::Executed { accumulated: true }
}

/// Takes one step with an event that the connection waits for, and gives the
/// actions as text.
fn step(connection: &mut Connection, event: Event) -> Vec<String> {
    assert!(connection.accepts(&event));
    connection.step(event).iter().map(|action| format!("{action:?}")).collect()
}

fn failure(connection: &mut Connection, event: Event) -> ConnectionError {
    assert!(connection.accepts(&event));
    let actions = connection.step(event);
    assert_eq!(actions.len(), 1);
    assert!(matches!(connection.phase, Phase::Closed));
    match actions[0] {
        Action::Fail(error) => error,
        _ => panic!("expected a failure"),
    }
}

/// Runs a message through computation, without looking at the actions.
fn compute(connection: &mut Connection, message: StageMessage) -> Vec<String> {
    step(connection, Event::Message(message));
    step(connection, prepared(0));
    step(connection, input());
    step(connection, executed());
    if message.prefill {
        step(
            connection,
            Event::PrefillRecorded { pages: 0, activations: 0, activation_bytes: 0 },
        );
    }
    step(connection, Event::Output { empty: false, return_stream: false })
}

#[test]
fn prefill_is_acknowledged_before_it_is_computed() {
    let mut connection = Connection::new(config(false));
    let actions = step(&mut connection, Event::Message(prefill()));
    assert_eq!(
        actions,
        vec!["EarlyAck", "BeginMessageStats", "ReadTokens", "AccumulateTokens(0)", "LookupPrefill"]
    );
    let actions = step(&mut connection, prepared(0));
    assert_eq!(actions[0], "MergeLookup");
    assert_eq!(actions[1], "DecodeInput { first_token: 0 }");
    let actions = step(&mut connection, input());
    assert_eq!(actions.len(), 1);
    assert!(actions[0].starts_with("Execute("));
    assert_eq!(
        step(&mut connection, executed()),
        vec!["RecordPrefill(Session { activation: false })"]
    );
    assert_eq!(
        step(
            &mut connection,
            Event::PrefillRecorded { pages: 2, activations: 1, activation_bytes: 8 }
        ),
        vec!["AddRecordedPages(2)", "AddRecordedBytes(8)", "RecordSideband"]
    );
    let actions =
        step(&mut connection, Event::Output { empty: false, return_stream: false });
    assert_eq!(actions[0], "CarryMessageStats");
    assert!(actions[1].starts_with("Observe("));
    assert!(matches!(connection.phase, Phase::Reading));
}

#[test]
fn recorded_prefill_depends_on_what_was_gathered() {
    let recorded = |config: ConnectionConfig, accumulated: bool| {
        let mut connection = Connection::new(config);
        step(&mut connection, Event::Message(prefill()));
        assert_eq!(step(&mut connection, prepared(3))[1], "DecodeInput { first_token: 3 }");
        step(&mut connection, input());
        step(&mut connection, Event::Executed { accumulated }).remove(0)
    };
    let session = |activation: bool| {
        format!("RecordPrefill(Session {{ activation: {activation} }})")
    };
    assert_eq!(recorded(config(true), true), session(true));
    assert_eq!(recorded(config(false), true), session(false));
    assert_eq!(recorded(ConnectionConfig { cache: false, ..config(true) }, true), session(false));
    assert_eq!(
        recorded(config(true), false),
        "RecordPrefill(Message { restored_tokens: 3 })"
    );
}

#[test]
fn batched_decodes_need_a_position() {
    let positioned = StageMessage { position: Some(9), ..predicted() };
    let begin = |message: StageMessage| {
        let mut connection = Connection::new(config(false));
        step(&mut connection, Event::Message(message));
        step(&mut connection, prepared(0));
        connection
    };
    assert_eq!(
        step(&mut begin(positioned), Event::Input { batched: true, first_token: Some(4) }),
        vec!["ExecuteBatched { position: 9, token: 4 }"]
    );
    let mut connection = begin(positioned);
    assert_eq!(
        step(&mut connection, Event::Input { batched: true, first_token: None }),
        vec!["ExecuteBatched { position: 9, token: 7 }"]
    );
    assert_eq!(step(&mut connection, executed()), vec!["RecordSideband"]);
    let error = failure(
        &mut begin(predicted()),
        Event::Input { batched: true, first_token: Some(4) },
    );
    assert_eq!(error, ConnectionError::BatchPosition);
    assert_eq!(error.message("s"), "batched decode frame has no authoritative position");
}

#[test]
fn restored_prefill_is_not_computed_again() {
    let mut connection = Connection::new(config(false));
    step(&mut connection, Event::Message(prefill()));
    assert_eq!(
        step(&mut connection, prepared(4)),
        vec!["MergeLookup", "ReuseRestored", "RecordSideband"]
    );
    let mut connection = Connection::new(config(false));
    step(&mut connection, Event::Message(prefill()));
    let actions = step(&mut connection, prepared(1));
    assert_eq!(actions[1], "DecodeInput { first_token: 1 }");
    let actions = step(&mut connection, input());
    assert!(actions[0].contains("first_token: 1"));
    assert!(actions[0].contains("executable_tokens: 3"));
}

#[test]
fn predictions_carry_the_pending_statistics() {
    let mut connection = Connection::new(config(false));
    let actions = compute(&mut connection, predicted());
    assert_eq!(actions[0], "MergePendingStats");
    assert_eq!(actions[1], "SendPrediction { many: false, direct: false }");
    let mut connection = Connection::new(config(false));
    let window =
        StageMessage { requires_predicted: true, ..message(MessageKind::VerifyWindow) };
    let actions = compute(&mut connection, window);
    assert_eq!(actions[1], "RecordVerifyTiming");
    assert_eq!(actions[2], "SendPrediction { many: true, direct: false }");
}

#[test]
fn credit_bounds_what_is_outstanding() {
    let mut connection = Connection::new(config(true));
    for expected in 1..=2 {
        let actions = compute(&mut connection, prefill());
        assert_eq!(actions[0], "ForwardAsync");
        assert_eq!(actions[1], "CarryMessageStats");
        assert_eq!(connection.pending, expected);
    }
    let actions = compute(&mut connection, prefill());
    assert_eq!(actions, vec!["ForwardAsync", "AwaitReply"]);
    let actions = step(&mut connection, ack());
    assert_eq!(actions[0], "MergeReply(Pending)");
    assert_eq!(actions[1], "CarryMessageStats");
    assert_eq!(connection.pending, 2);
}

#[test]
fn predictions_wait_for_deferred_replies() {
    let mut connection = Connection::new(config(true));
    compute(&mut connection, prefill());
    compute(&mut connection, prefill());
    let actions = compute(&mut connection, predicted());
    assert_eq!(actions, vec!["FlushForwards", "ForwardSync", "AwaitReply"]);
    assert_eq!(
        step(&mut connection, ack()),
        vec!["MergeReply(Pending)", "AwaitReply"]
    );
    let actions = step(&mut connection, ack());
    assert_eq!(actions[0], "MergeReply(Pending)");
    assert!(actions[1].contains("drained: 2"));
    assert_eq!(connection.pending, 0);
}

#[test]
fn replies_are_relayed_without_credit() {
    let mut connection = Connection::new(ConnectionConfig {
        reply_credit_limit: Some(0),
        async_prefill_forward: false,
        ..config(true)
    });
    let actions = compute(&mut connection, message(MessageKind::Other));
    assert_eq!(actions, vec!["ForwardSync", "AwaitReply"]);
    let actions = step(&mut connection, ack());
    assert_eq!(actions[0], "MergeReply(Message)");
    assert_eq!(actions[1], "RelayAck");
}

#[test]
fn controls_drain_what_is_outstanding() {
    let mut connection = Connection::new(config(true));
    compute(&mut connection, prefill());
    let trim = StageMessage { token_count: 9, ..message(MessageKind::TrimSession) };
    assert_eq!(
        step(&mut connection, Event::Message(trim)),
        vec!["TakePendingStats", "FlushForwards", "AwaitReply"]
    );
    assert_eq!(
        step(&mut connection, ack()),
        vec!["MergeReply(Message)", "TrimSession(9)", "ForwardMessage", "AwaitReply"]
    );
    assert_eq!(
        step(&mut connection, ack()),
        vec!["MergeReply(Message)", "Acknowledge"]
    );
}

#[test]
fn generation_is_configured_at_the_last_stage() {
    let mut connection = Connection::new(config(false));
    let control = StageMessage { chat_sampling: true, ..message(MessageKind::GenerationControl) };
    assert_eq!(
        step(&mut connection, Event::Message(control)),
        vec![
            "TakePendingStats",
            "ConfigureSampling(4)",
            "ConfigureReturnStream",
            "Acknowledge"
        ]
    );
    let restore = message(MessageKind::TryRestorePrefillDecode);
    assert_eq!(
        step(&mut connection, Event::Message(restore)),
        vec!["TakePendingStats", "RestorePrefillDecode"]
    );
    assert!(step(&mut connection, Event::RestoreDone).is_empty());
}

#[test]
fn restores_that_miss_downstream_drop_the_session() {
    let mut connection = Connection::new(config(true));
    let restore = message(MessageKind::TryRestorePrefill);
    step(&mut connection, Event::Message(restore));
    assert_eq!(
        step(&mut connection, Event::LocalCache { hit: true }),
        vec!["MergeLocal", "ForwardMessage", "AwaitReply"]
    );
    assert_eq!(
        step(&mut connection, ack()),
        vec!["MergeReply(Message)", "DropMissedSession", "TraceCacheControl(true)", "Acknowledge"]
    );
    step(&mut connection, Event::Message(restore));
    assert_eq!(
        step(&mut connection, Event::LocalCache { hit: false }),
        vec!["MergeLocal", "TraceCacheControl(false)", "Acknowledge"]
    );
}

#[test]
fn stops_end_the_session() {
    let mut connection = Connection::new(config(true));
    assert_eq!(
        step(&mut connection, Event::Message(message(MessageKind::Stop))),
        vec!["TakePendingStats", "EmitSummary", "FlushForwards", "ForwardMessage", "AwaitReply"]
    );
    assert_eq!(
        step(&mut connection, ack()),
        vec!["MergeReply(Message)", "RecordSessions"]
    );
    assert_eq!(
        step(&mut connection, Event::SessionRecorded { pages: 3 }),
        vec!["AddRecordedPages(3)"]
    );
    assert_eq!(
        step(&mut connection, Event::SessionsDone),
        vec!["DropSession", "RemoveReturnStreams", "Acknowledge"]
    );
    assert!(matches!(connection.phase, Phase::Reading));
}

#[test]
fn end_of_input_is_clean_only_when_nothing_is_open() {
    let mut connection = Connection::new(config(true));
    let eof = Event::ReadFailed { eof: true, message_count: 0 };
    assert_eq!(step(&mut connection, eof), vec!["Finish"]);
    let mut connection = Connection::new(config(true));
    compute(&mut connection, prefill());
    assert_eq!(failure(&mut connection, eof), ConnectionError::Read);
    let mut connection = Connection::new(config(true));
    assert_eq!(
        failure(&mut connection, Event::ReadFailed { eof: true, message_count: 1 }),
        ConnectionError::Read
    );
    let mut connection = Connection::new(config(true));
    assert_eq!(
        failure(&mut connection, Event::ReadFailed { eof: false, message_count: 0 }),
        ConnectionError::Read
    );
}

#[test]
fn each_failure_has_its_cause() {
    let first = |config: ConnectionConfig, message: StageMessage| {
        failure(&mut Connection::new(config), Event::Message(message))
    };
    assert_eq!(
        first(
            ConnectionConfig { recurrent_state: true, ..config(false) },
            message(MessageKind::VerifyWindow)
        ),
        ConnectionError::RecurrentState
    );
    assert_eq!(
        first(config(false), message(MessageKind::StateImport)),
        ConnectionError::StateImport
    );
    assert_eq!(
        first(config(false), message(MessageKind::StateExport)),
        ConnectionError::StateExport
    );
    assert_eq!(
        first(
            config(false),
            StageMessage { state_matches: false, ..message(MessageKind::Other) }
        ),
        ConnectionError::StateMismatch
    );
    let mut connection = Connection::new(config(true));
    compute(&mut connection, prefill());
    assert_eq!(
        failure(&mut connection, Event::Message(message(MessageKind::Stop))),
        ConnectionError::StopWithDeferredReplies(1)
    );
    let after = |kind: MessageKind| {
        let mut connection = Connection::new(config(true));
        step(&mut connection, Event::Message(message(kind)));
        failure(&mut connection, nack())
    };
    assert_eq!(after(MessageKind::Stop), ConnectionError::StopAck);
    assert_eq!(after(MessageKind::TrimSession), ConnectionError::SessionControlAck);
    assert_eq!(after(MessageKind::GenerationControl), ConnectionError::GenerationConfigAck);
    let mut connection = Connection::new(config(true));
    step(&mut connection, Event::Message(message(MessageKind::OtherPrefixCacheControl)));
    step(&mut connection, Event::LocalCache { hit: true });
    assert_eq!(failure(&mut connection, nack()), ConnectionError::PrefixCacheAck);
    let mut connection = Connection::new(config(true));
    compute(&mut connection, prefill());
    step(&mut connection, Event::Message(message(MessageKind::TrimSession)));
    assert_eq!(failure(&mut connection, nack()), ConnectionError::DeferredAck);
    let mut connection = Connection::new(config(true));
    step(&mut connection, Event::Message(predicted()));
    step(&mut connection, prepared(0));
    step(&mut connection, input());
    step(&mut connection, executed());
    assert_eq!(
        failure(&mut connection, Event::Output { empty: true, return_stream: false }),
        ConnectionError::EmptyActivation
    );
    let mut connection =
        Connection::new(ConnectionConfig { reply_credit_limit: Some(0), ..config(true) });
    compute(&mut connection, prefill());
    assert_eq!(failure(&mut connection, nack()), ConnectionError::DownstreamAck);
    let mut connection =
        Connection::new(ConnectionConfig { reply_credit_limit: Some(1), ..config(true) });
    compute(&mut connection, prefill());
    compute(&mut connection, prefill());
    assert_eq!(failure(&mut connection, nack()), ConnectionError::CreditAck);
}

#[test]
fn failures_are_put_into_words() {
    let words = |error: ConnectionError| error.message("stage-1");
    assert!(words(ConnectionError::StopWithDeferredReplies(2)).contains("2"));
    let mut all: Vec<String> = [
        ConnectionError::Read,
        ConnectionError::RecurrentState,
        ConnectionError::StopAck,
        ConnectionError::SessionControlAck,
        ConnectionError::GenerationConfigAck,
        ConnectionError::PrefixCacheAck,
        ConnectionError::StateImport,
        ConnectionError::StateExport,
        ConnectionError::StateMismatch,
        ConnectionError::EmptyActivation,
        ConnectionError::DeferredAck,
        ConnectionError::DownstreamAck,
        ConnectionError::CreditAck,
    ]
    .into_iter()
    .map(words)
    .collect();
    assert!(all.iter().all(|text| !text.is_empty()));
    all.sort();
    all.dedup();
    assert!(all.len() > 10);
}

#[test]
fn credit_follows_the_configuration() {
    let limit = |max_inflight: usize, reply_credit_limit: Option<usize>| {
        ConnectionConfig { max_inflight, reply_credit_limit, ..config(true) }
            .max_deferred_prefill_replies()
    };
    assert_eq!(limit(4, None), 3);
    assert_eq!(limit(0, None), 0);
    assert_eq!(limit(4, Some(9)), 9);
    assert!(config(true).has_forwarder());
    assert!(!config(false).has_forwarder());
    assert!(prefill().acknowledged_early());
    assert!(!predicted().acknowledged_early());
}

fn flush(forwarder: &mut AsyncForwarder<i32>, dropped: i32, failed: i32) -> Result<(), FlushError<String>> {
    forwarder.flush(|receiver: i32| {
        if receiver == dropped {
            None
        } else if receiver == failed {
            Some(Err(format!("write {receiver}")))
        } else {
            Some(Ok(()))
        }
    })
}

#[test]
fn forwards_are_flushed_in_order() {
    let mut forwarder = AsyncForwarder::new();
    assert!(flush(&mut forwarder, 0, 0).is_ok());
    for receiver in 1..=4 {
        forwarder.send(receiver);
    }
    assert!(matches!(
        flush(&mut forwarder, 3, 2),
        Err(FlushError::Failed(text)) if text == "write 2"
    ));
    assert!(matches!(flush(&mut forwarder, 3, 2), Err(FlushError::Dropped)));
    assert!(matches!(
        flush(&mut forwarder, 1, 4),
        Err(FlushError::Failed(text)) if text == "write 4"
    ));
    assert!(flush(&mut forwarder, 1, 2).is_ok());
}

#[test]
fn spans_keep_their_first_beginning_and_last_end() {
    let mut span = OpenSpan::new();
    assert_eq!((span.start_unix_nanos, span.end_unix_nanos), (None, None));
    span.begin(5);
    span.begin(7);
    span.finish(8);
    span.finish(9);
    assert_eq!((span.start_unix_nanos, span.end_unix_nanos), (Some(5), Some(9)));
    let gaps = verify_window_gaps(true, (1, 30), (4, 20), &span);
    assert_eq!((gaps.pre_compute, gaps.post_compute), (3, 10));
    assert_eq!((gaps.pre_reply, gaps.after_reply), (0, 21));
    let gaps = verify_window_gaps(true, (1, 30), (4, 20), &OpenSpan::new());
    assert_eq!((gaps.pre_reply, gaps.after_reply), (0, 0));
    let gaps = verify_window_gaps(false, (1, 30), (4, 20), &span);
    assert_eq!((gaps.pre_compute, gaps.post_compute, gaps.after_reply), (0, 0, 0));
}

#[test]
fn window_timings_are_summed() {
    let mut totals = VerifyWindowTotals {
        verify_window_compute_us: 1,
        verify_window_forward_write_us: 2,
        verify_window_downstream_wait_us: 3,
        verify_window_total_us: 6,
        verify_window_stage_count: 1,
        verify_window_request_count: 1,
        verify_window_token_count: 4,
        verify_window_max_tokens: 4,
    };
    record_verify_window_timing(&mut totals, false, 9, 10, 20, 30);
    assert_eq!(totals.verify_window_compute_us, 1);
    record_verify_window_timing(&mut totals, true, 9, 10, 20, 30);
    assert_eq!(totals.verify_window_compute_us, 11);
    assert_eq!(totals.verify_window_forward_write_us, 22);
    assert_eq!(totals.verify_window_downstream_wait_us, 33);
    assert_eq!(totals.verify_window_total_us, 66);
    assert_eq!(totals.verify_window_stage_count, 2);
    assert_eq!(totals.verify_window_token_count, 13);
    assert_eq!(totals.verify_window_max_tokens, 9);
    assert_eq!(predicted_token_count(true, 5), 5);
    assert_eq!(predicted_token_count(true, 0), 0);
    assert_eq!(predicted_token_count(false, 5), 5);
    assert_eq!(predicted_token_count(false, 0), 1);
}

#[test]
fn records_of_activations_are_summed() {
    let mut record = PrefillRecord {
        recorded_pages: 1,
        recorded_activations: 0,
        recorded_activation_bytes: 0,
        evicted_activation_entries: 0,
        evicted_activation_bytes: 0,
    };
    record.add_activation(10, 1, 4);
    record.add_activation(5, 0, 0);
    assert_eq!(record.recorded_activations, 2);
    assert_eq!(record.recorded_activation_bytes, 15);
    assert_eq!(record.evicted_activation_entries, 1);
    assert_eq!(record.evicted_activation_bytes, 4);
    assert_eq!(record.recorded_pages, 1);
}

fn sessions() -> RuntimeSessionStats {
    RuntimeSessionStats {
        active_sessions: 1,
        idle_sessions: 2,
        idle_resident_prefixes: 3,
        tracked_token_counts: 4,
    }
}

#[test]
fn traces_name_what_they_measure() {
    let mut attrs: AttrMap<f64> = AttrMap::new();
    insert_runtime_session_stats(&mut attrs, "prefix", &sessions());
    assert_eq!(attrs.entries().len(), 4);
    assert!(attrs.entries().iter().all(|(name, _)| name.contains("prefix")));
    insert_optional_unix_nanos(&mut attrs, "none", None);
    assert!(attrs.get("none").is_none());
    insert_optional_unix_nanos(&mut attrs, "some", Some(5));
    assert!(matches!(attrs.get("some"), Some(AttrValue::Count(5))));

    let mut attrs: AttrMap<f64> = AttrMap::new();
    AlignTrace { before_token_count: 9, after_token_count: 4, elapsed_ms: 0.25 }
        .insert_attrs(&mut attrs);
    assert!(attrs
        .entries()
        .iter()
        .any(|(_, value)| matches!(value, AttrValue::Measure(ms) if *ms == 0.25)));
    let mut attrs: AttrMap<f64> = AttrMap::new();
    CacheControlTrace { hit: true, elapsed_ms: 0.5 }.insert_attrs(&mut attrs);
    assert!(attrs.entries().iter().any(|(_, value)| matches!(value, AttrValue::Bool(true))));
    let mut attrs: AttrMap<f64> = AttrMap::new();
    insert_write_mode(&mut attrs, ForwardMode::AsyncEnqueue);
    assert_eq!(attrs.entries().len(), 1);
    assert!(matches!(
        &attrs.entries()[0].1,
        AttrValue::Text(text) if text == "async_writer"
    ));
    assert_eq!(ForwardMode::AsyncEnqueue.label(), "async_enqueue");
    assert_eq!(ForwardMode::Nothing.label(), "none");
    let mut attrs: AttrMap<f64> = AttrMap::new();
    UpstreamReplyWriteSpan {
        reply_kind: ReplyKind::PredictedTokens,
        predicted_token_count: 3,
        start_unix_nanos: 1,
        end_unix_nanos: 2,
        write_ms: 0.125,
    }
    .insert_attrs(&mut attrs, 77);
    assert!(attrs.entries().iter().any(|(_, value)| matches!(value, AttrValue::Count(77))));
    let mut attrs: AttrMap<f64> = AttrMap::new();
    SessionDropStats {
        reset_ms: 1.0,
        reset_session: true,
        lane_discarded: true,
        lane_discard_reason: Some("worn".to_string()),
        stats_after: sessions(),
    }
    .insert_attrs(&mut attrs, 2.0);
    assert!(attrs
        .entries()
        .iter()
        .any(|(_, value)| matches!(value, AttrValue::Text(text) if text == "worn")));
}

#[test]
fn observations_are_told() {
    let mut connection = Connection::new(config(true));
    compute(&mut connection, prefill());
    step(&mut connection, Event::Message(prefill()));
    step(&mut connection, prepared(0));
    step(&mut connection, input());
    step(&mut connection, executed());
    step(
        &mut connection,
        Event::PrefillRecorded { pages: 0, activations: 0, activation_bytes: 0 },
    );
    let actions = connection.step(Event::Output { empty: false, return_stream: false });
    let observation = actions
        .iter()
        .find_map(|action| match action {
            Action::Observe(observation) => Some(*observation),
            _ => None,
        })
        .unwrap();
    assert_eq!(observation.credit_limit, 2);
    assert_eq!(observation.pending_before, 1);
    assert_eq!(observation.pending_after, 2);
    assert!(observation.mode == ForwardMode::AsyncEnqueue);
    let mut attrs: AttrMap<f64> = AttrMap::new();
    insert_observation(&mut attrs, &observation);
    assert!(!attrs.entries().is_empty());
    assert!(matches!(actions[0], Action::ForwardAsync));
    assert!(!matches!(actions[1], Action::MergeReply(Register::Message)));
}

#[test]
fn generations_give_their_lane_back_only_when_all_went_well() {
    let stopped: Result<(), String> = Ok(());
    let (end, result) = finish_embedded_generation_session(true, stopped);
    assert!(matches!(end, LaneEnd::Return));
    assert!(result.is_ok());
    let (end, result) = finish_embedded_generation_session(true, Err("stuck".to_string()));
    assert!(matches!(end, LaneEnd::Replace));
    assert_eq!(result, Err("stuck".to_string()));
    let (end, _) = finish_embedded_generation_session(false, Ok::<(), String>(()));
    assert!(matches!(end, LaneEnd::Replace));
}

#[test]
fn context_travels_beside_the_token_where_it_fits() {
    assert!(decode_uses_context_sideband(&[1, 2], 2, 2));
    assert!(!decode_uses_context_sideband(&[1, 2], 1, 2));
    assert!(!decode_uses_context_sideband(&[1, 2, 3], 3, 2));
    assert!(!decode_uses_context_sideband(&[], 3, 2));
}

#[test]
fn decode_summaries_hold_every_measure() {
    let summary = EmbeddedDecodeSummary {
        decoded_tokens: 5,
        stage0_compute_ms: 1.0,
        runtime_lock_wait_ms: 2.0,
        runtime_lock_wait_max_ms: 3.0,
        runtime_lock_hold_ms: 4.0,
        runtime_lock_hold_max_ms: 5.0,
        runtime_lock_acquires: 6,
        decode_batch_size_max: 7,
        decode_batch_wait_ms: 8.0,
        forward_write_ms: 9.0,
        activation_encode_ms: 10.0,
        output_activation_bytes: 11,
        forward_activation_bytes: 12,
        downstream_wait_ms: 13.0,
    };
    let mut attrs: AttrMap<f64> = AttrMap::new();
    let stats = OpenAiSpeculativeStats::new(0.0);
    summary.insert_attrs(&mut attrs, &SpeculativeDecodeConfig::default(), &stats);
    for wanted in [1.0, 2.0, 3.0, 4.0, 5.0, 8.0, 9.0, 10.0, 13.0] {
        assert!(attrs
            .entries()
            .iter()
            .any(|(_, value)| matches!(value, AttrValue::Measure(ms) if *ms == wanted)));
    }
    assert!(attrs.get("llama_stage.spec.requested_strategy").is_some());
    let mut cache: GenerationCacheStats<f64, u8, u16> = GenerationCacheStats {
        native_mtp_stats: 0,
        native_mtp_decode_telemetry: None,
        verify_window_pipeline_stats: None,
        speculative_stats: None,
        predicted_ms: 0.0,
    };
    let scheduler = VerifyWindowScheduler::new(VerifyWindowPipelineConfig { depth: 3 });
    cache.record_decode(4, 5, scheduler.stats(), stats, 6.5);
    assert_eq!(cache.native_mtp_stats, 4);
    assert_eq!(cache.native_mtp_decode_telemetry, Some(5));
    assert_eq!(cache.verify_window_pipeline_stats.map(|stats| stats.depth), Some(3));
    assert!(cache.speculative_stats.is_some());
    assert_eq!(cache.predicted_ms, 6.5);
}
