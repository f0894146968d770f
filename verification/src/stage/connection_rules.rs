//! What a stage does with each message, reply and result: which actions follow
//! and what is waited for next.

use crate::stage::connection::{
    Action, Connection, ConnectionError, Event, ForwardMode, MessageKind, Observation, Phase,
    PrefillScope, Register, StageMessage, Work,
};
use vstd::prelude::*;

verus! {

/// The session of a prefix cache control is dropped exactly where a restore was
/// asked for and the downstream stage reports a miss or an error, or no hit. A
/// restore that hit everywhere keeps its session. Upstream is told what came of
/// the control in either case, with the downstream report.
pub proof fn law_only_missed_restores_drop_their_session(
    connection: Connection,
    message: StageMessage,
    hit: bool,
    hits: i64,
    misses: i64,
    errors: i64,
)
    requires
        connection.phase == (Phase::CacheAck { message, hit }),
    ensures
        ({
            let (after, actions) = connection.next(
                Event::Reply {
                    ack: true,
                    lookup_hits: hits,
                    lookup_misses: misses,
                    lookup_errors: errors,
                },
            );
            let missed = misses > 0 || errors > 0 || hits == 0;
            &&& actions.contains(Action::DropMissedSession) <==> (message.kind
                == MessageKind::TryRestorePrefill && missed)
            &&& hits > 0 && misses == 0 && errors == 0 ==> !actions.contains(
                Action::DropMissedSession,
            )
            &&& !actions.contains(Action::DropSession)
            &&& actions[0] == Action::MergeReply(Register::Message)
            &&& actions[actions.len() - 2] == Action::TraceCacheControl(hit)
            &&& actions.last() == Action::Acknowledge
            &&& actions.len() == if message.kind == MessageKind::TryRestorePrefill && missed {
                4int
            } else {
                3
            }
            &&& after == Connection { phase: Phase::Reading, ..connection }
        }),
{
    let (after, actions) = connection.next(
        Event::Reply { ack: true, lookup_hits: hits, lookup_misses: misses, lookup_errors: errors },
    );
    if message.kind is TryRestorePrefill && (misses > 0 || errors > 0 || hits == 0) {
        assert(actions[1] == Action::DropMissedSession);
        assert(actions =~= seq![
            Action::MergeReply(Register::Message),
            Action::DropMissedSession,
            Action::TraceCacheControl(hit),
            Action::Acknowledge,
        ]);
    } else {
        assert(actions =~= seq![
            Action::MergeReply(Register::Message),
            Action::TraceCacheControl(hit),
            Action::Acknowledge,
        ]);
    }
}

/// Whether a list of actions drops no session.
spec fn drops_nothing(actions: Seq<Action>) -> bool {
    forall|i: int|
        0 <= i < actions.len() ==> #[trigger] actions[i] != Action::DropSession && actions[i]
            != Action::DropMissedSession
}

proof fn lemma_messages_drop_nothing(connection: Connection, message: StageMessage)
    ensures
        drops_nothing(connection.on_message(message).1),
        drops_nothing(connection.control_ready(message).1),
{
    assert(drops_nothing(connection.control_ready(message).1));
    assert(drops_nothing(Connection::begin(message)));
}

proof fn lemma_outputs_drop_nothing(
    connection: Connection,
    work: Work,
    empty: bool,
    return_stream: bool,
)
    ensures
        drops_nothing(connection.on_output(work, empty, return_stream).1),
{
}

/// A session is dropped at no other event than the end of a stop and the answer
/// to a restore.
pub proof fn law_sessions_are_dropped_nowhere_else(connection: Connection, event: Event)
    requires
        connection.awaits(event),
        !(event is SessionsDone),
        !(connection.phase is CacheAck),
    ensures
        !connection.next(event).1.contains(Action::DropSession),
        !connection.next(event).1.contains(Action::DropMissedSession),
{
    let actions = connection.next(event).1;
    match event {
        Event::Message(message) => lemma_messages_drop_nothing(connection, message),
        Event::Output { empty, return_stream } => lemma_outputs_drop_nothing(
            connection,
            connection.phase->Output_0,
            empty,
            return_stream,
        ),
        Event::Reply { ack, lookup_hits, lookup_misses, lookup_errors } => {
            if let Phase::Draining(message) = connection.phase {
                lemma_messages_drop_nothing(connection.one_less(), message);
            }
            assert(drops_nothing(actions));
        },
        _ => {
            assert(drops_nothing(actions));
        },
    }
}

/// What the local prefix cache held goes on downstream exactly where it held
/// something and there is a downstream stage; otherwise upstream is answered at
/// once with what came of it.
pub proof fn law_local_hits_go_downstream(
    connection: Connection,
    message: StageMessage,
    hit: bool,
)
    requires
        connection.phase == Phase::LocalCache(message),
    ensures
        ({
            let (after, actions) = connection.next(Event::LocalCache { hit });
            &&& hit && connection.config.downstream ==> after.phase == (Phase::CacheAck {
                message,
                hit,
            }) && actions == seq![Action::MergeLocal, Action::ForwardMessage, Action::AwaitReply]
            &&& !(hit && connection.config.downstream) ==> after.phase == Phase::Reading && actions
                == seq![Action::MergeLocal, Action::TraceCacheControl(hit), Action::Acknowledge]
            &&& after.pending == connection.pending
        }),
{
    let actions = connection.next(Event::LocalCache { hit }).1;
    if hit && connection.config.downstream {
        assert(actions =~= seq![Action::MergeLocal, Action::ForwardMessage, Action::AwaitReply]);
    } else {
        assert(actions =~= seq![
            Action::MergeLocal,
            Action::TraceCacheControl(hit),
            Action::Acknowledge,
        ]);
    }
}

/// A reply that is no acknowledgement ends the connection, with an error that
/// says what was waited for, and does nothing else.
pub proof fn law_other_replies_end_the_connection(
    connection: Connection,
    hits: i64,
    misses: i64,
    errors: i64,
)
    ensures
        ({
            let (after, actions) = connection.next(
                Event::Reply {
                    ack: false,
                    lookup_hits: hits,
                    lookup_misses: misses,
                    lookup_errors: errors,
                },
            );
            let waited = connection.awaits(
                Event::Reply {
                    ack: false,
                    lookup_hits: hits,
                    lookup_misses: misses,
                    lookup_errors: errors,
                },
            );
            &&& waited ==> after == Connection { phase: Phase::Closed, ..connection }
            &&& waited ==> actions.len() == 1
            &&& match connection.phase {
                Phase::StopAck => actions[0] == Action::Fail(ConnectionError::StopAck),
                Phase::Draining(_) | Phase::DrainingPredicted(_) => actions[0] == Action::Fail(
                    ConnectionError::DeferredAck,
                ),
                Phase::ControlAck(message) => actions[0] == if message.kind
                    == MessageKind::TrimSession {
                    Action::Fail(ConnectionError::SessionControlAck)
                } else {
                    Action::Fail(ConnectionError::GenerationConfigAck)
                },
                Phase::CacheAck { .. } => actions[0] == Action::Fail(
                    ConnectionError::PrefixCacheAck,
                ),
                Phase::Relay(_) => actions[0] == Action::Fail(ConnectionError::DownstreamAck),
                Phase::Credit(_) => actions[0] == Action::Fail(ConnectionError::CreditAck),
                _ => !waited,
            }
        }),
{
}

/// Which messages are refused, and why: windows where the model keeps recurrent
/// state, a stop with replies outstanding, states to be brought or taken, and
/// messages whose state header belongs to another kind. Every other message is
/// served.
pub proof fn law_refused_messages(connection: Connection, message: StageMessage)
    ensures
        ({
            let (after, actions) = connection.next(Event::Message(message));
            let kind = message.kind;
            let problem = if kind == MessageKind::VerifyWindow && connection.config.recurrent_state {
                Some(ConnectionError::RecurrentState)
            } else if kind == MessageKind::Stop && connection.pending > 0 {
                Some(ConnectionError::StopWithDeferredReplies(connection.pending))
            } else if kind == MessageKind::StateImport {
                Some(ConnectionError::StateImport)
            } else if kind == MessageKind::StateExport {
                Some(ConnectionError::StateExport)
            } else if !message.state_matches && (kind == MessageKind::VerifyWindow || kind
                == MessageKind::PrefillFinalEmbd || kind == MessageKind::Other) {
                Some(ConnectionError::StateMismatch)
            } else {
                None
            };
            &&& after.pending == connection.pending
            &&& after.config == connection.config
            &&& match problem {
                Some(problem) => after.phase == Phase::Closed && actions.len() == 1 && actions[0]
                    == Action::Fail(problem),
                None => after.phase != Phase::Closed && after.phase != Phase::Reading
                    || !connection.config.downstream && after.phase == Phase::Reading,
            }
            &&& problem is None ==> forall|error: ConnectionError| !actions.contains(
                Action::Fail(error),
            )
        }),
{
}

/// How a message that is computed begins. A prefill that asks for no prediction
/// is acknowledged before anything else. The statistics begin afresh, the tokens
/// are read, the session is aligned where the message claims a position, the
/// tokens of a prefill are gathered at its position, and last the cache is asked.
pub proof fn law_computed_messages_begin(connection: Connection, message: StageMessage)
    requires
        message.kind == MessageKind::VerifyWindow || message.kind == MessageKind::PrefillFinalEmbd
            || message.kind == MessageKind::Other,
        message.state_matches,
        !(message.kind == MessageKind::VerifyWindow && connection.config.recurrent_state),
    ensures
        ({
            let (after, actions) = connection.next(Event::Message(message));
            let early = message.prefill && !message.requires_predicted;
            let start = if early {
                1int
            } else {
                0
            };
            let gathered = start + 2 + if message.position is Some {
                1int
            } else {
                0
            };
            &&& after == Connection { phase: Phase::Preparing(message), ..connection }
            &&& actions.contains(Action::EarlyAck) <==> early
            &&& early ==> actions[0] == Action::EarlyAck
            &&& actions[start] == Action::BeginMessageStats
            &&& actions[start + 1] == Action::ReadTokens
            &&& message.position matches Some(target) ==> actions[start + 2]
                == Action::AlignSession(target)
            &&& message.prefill ==> actions[gathered] == Action::AccumulateTokens(
                (if message.pos_start > 0 {
                    message.pos_start as int
                } else {
                    0
                }) as usize,
            )
            &&& actions.last() == Action::LookupPrefill
            &&& actions.len() == gathered + 1 + if message.prefill {
                1int
            } else {
                0
            }
        }),
{
    let actions = connection.next(Event::Message(message)).1;
    if message.prefill && !message.requires_predicted {
        assert(actions[0] == Action::EarlyAck);
    }
}

/// A stop with nothing outstanding takes the pending statistics along and ends
/// the summary. Where there is a downstream stage, the stop goes there behind
/// everything that is still to be written, and its acknowledgement is awaited;
/// otherwise the sessions are recorded at once.
pub proof fn law_stop_goes_downstream_first(connection: Connection, message: StageMessage)
    requires
        message.kind == MessageKind::Stop,
        connection.pending == 0,
    ensures
        ({
            let (after, actions) = connection.next(Event::Message(message));
            let writer = connection.config.downstream && (connection.config.async_prefill_forward
                || connection.config.max_inflight > 1);
            let begin = seq![Action::TakePendingStats, Action::EmitSummary];
            &&& connection.config.downstream ==> after.phase == Phase::StopAck
            &&& !connection.config.downstream ==> after.phase == Phase::RecordingSessions && actions
                == begin + seq![Action::RecordSessions]
            &&& connection.config.downstream && writer ==> actions == begin + seq![
                Action::FlushForwards,
                Action::ForwardMessage,
                Action::AwaitReply,
            ]
            &&& connection.config.downstream && !writer ==> actions == begin + seq![
                Action::ForwardMessage,
                Action::AwaitReply,
            ]
        }),
{
    let actions = connection.next(Event::Message(message)).1;
    let begin = seq![Action::TakePendingStats, Action::EmitSummary];
    if !connection.config.downstream {
        assert(actions =~= begin + seq![Action::RecordSessions]);
    } else if connection.config.async_prefill_forward || connection.config.max_inflight > 1 {
        assert(actions =~= begin + seq![
            Action::FlushForwards,
            Action::ForwardMessage,
            Action::AwaitReply,
        ]);
    } else {
        assert(actions =~= begin + seq![Action::ForwardMessage, Action::AwaitReply]);
    }
}

/// A stop ends by recording each session, then dropping the session and the
/// streams for predictions, and only then it is acknowledged. The pages of a
/// session count where there are any.
pub proof fn law_stop_ends_with_the_answer(
    connection: Connection,
    pages: u64,
    hits: i64,
    misses: i64,
    errors: i64,
)
    ensures
        connection.phase == Phase::StopAck ==> ({
            let (after, actions) = connection.next(
                Event::Reply {
                    ack: true,
                    lookup_hits: hits,
                    lookup_misses: misses,
                    lookup_errors: errors,
                },
            );
            &&& after == Connection { phase: Phase::RecordingSessions, ..connection }
            &&& actions == seq![Action::MergeReply(Register::Message), Action::RecordSessions]
        }),
        ({
            let (after, actions) = connection.next(Event::SessionRecorded { pages });
            &&& after == connection
            &&& pages > 0 ==> actions == seq![Action::AddRecordedPages(pages)]
            &&& pages == 0 ==> actions.len() == 0
        }),
        ({
            let (after, actions) = connection.next(Event::SessionsDone);
            &&& after == Connection { phase: Phase::Reading, ..connection }
            &&& actions == seq![
                Action::DropSession,
                Action::RemoveReturnStreams,
                Action::Acknowledge,
            ]
        }),
{
    assert(connection.next(Event::SessionsDone).1 =~= seq![
        Action::DropSession,
        Action::RemoveReturnStreams,
        Action::Acknowledge,
    ]);
    if connection.phase == Phase::StopAck {
        assert(connection.next(
            Event::Reply {
                ack: true,
                lookup_hits: hits,
                lookup_misses: misses,
                lookup_errors: errors,
            },
        ).1 =~= seq![Action::MergeReply(Register::Message), Action::RecordSessions]);
    }
}

/// A control message waits for every outstanding reply before it is served.
pub proof fn law_control_waits_for_replies(connection: Connection, message: StageMessage)
    requires
        connection.pending > 0,
        message.kind == MessageKind::TrimSession || message.kind == MessageKind::GenerationControl
            || message.kind == MessageKind::TryRestorePrefill || message.kind
            == MessageKind::TryRestorePrefillDecode || message.kind
            == MessageKind::OtherPrefixCacheControl,
    ensures
        ({
            let (after, actions) = connection.next(Event::Message(message));
            let writer = connection.config.downstream && (connection.config.async_prefill_forward
                || connection.config.max_inflight > 1);
            &&& after == Connection { phase: Phase::Draining(message), ..connection }
            &&& writer ==> actions == seq![
                Action::TakePendingStats,
                Action::FlushForwards,
                Action::AwaitReply,
            ]
            &&& !writer ==> actions == seq![Action::TakePendingStats, Action::AwaitReply]
        }),
{
    let actions = connection.next(Event::Message(message)).1;
    if connection.config.downstream && (connection.config.async_prefill_forward
        || connection.config.max_inflight > 1) {
        assert(actions =~= seq![
            Action::TakePendingStats,
            Action::FlushForwards,
            Action::AwaitReply,
        ]);
    } else {
        assert(actions =~= seq![Action::TakePendingStats, Action::AwaitReply]);
    }
}

/// What a control message does when nothing is outstanding, behind the pending
/// statistics and whatever is still to be written.
pub proof fn law_control_is_served(connection: Connection, message: StageMessage)
    requires
        connection.pending == 0,
        message.kind == MessageKind::TrimSession || message.kind == MessageKind::GenerationControl
            || message.kind == MessageKind::TryRestorePrefill || message.kind
            == MessageKind::TryRestorePrefillDecode || message.kind
            == MessageKind::OtherPrefixCacheControl,
    ensures
        ({
            let (after, actions) = connection.next(Event::Message(message));
            let kind = message.kind;
            let writer = connection.config.downstream && (connection.config.async_prefill_forward
                || connection.config.max_inflight > 1);
            let start = if writer {
                2int
            } else {
                1
            };
            let served = actions.skip(start);
            let kept = (if message.token_count > 0 {
                message.token_count as int
            } else {
                0
            }) as u64;
            let prompt = (if message.prompt_token_count > 0 {
                message.prompt_token_count as int
            } else {
                0
            }) as u64;
            &&& actions[0] == Action::TakePendingStats
            &&& writer ==> actions[1] == Action::FlushForwards
            &&& after.pending == 0 && after.config == connection.config
            &&& kind == MessageKind::TryRestorePrefillDecode ==> after.phase == Phase::Delegated
                && served == seq![Action::RestorePrefillDecode]
            &&& kind == MessageKind::TryRestorePrefill || kind
                == MessageKind::OtherPrefixCacheControl ==> after.phase == Phase::LocalCache(
                message,
            ) && served == seq![Action::LocalCacheControl]
            &&& kind == MessageKind::TrimSession && connection.config.downstream ==> after.phase
                == Phase::ControlAck(message) && served == seq![
                Action::TrimSession(kept),
                Action::ForwardMessage,
                Action::AwaitReply,
            ]
            &&& kind == MessageKind::TrimSession && !connection.config.downstream ==> after.phase
                == Phase::Reading && served == seq![Action::TrimSession(kept), Action::Acknowledge]
            &&& kind == MessageKind::GenerationControl && connection.config.downstream
                ==> after.phase == Phase::ControlAck(message) && served == seq![
                Action::ForwardMessage,
                Action::AwaitReply,
            ]
            &&& kind == MessageKind::GenerationControl && !connection.config.downstream
                && message.chat_sampling ==> after.phase == Phase::Reading && served == seq![
                Action::ConfigureSampling(prompt),
                Action::ConfigureReturnStream,
                Action::Acknowledge,
            ]
            &&& kind == MessageKind::GenerationControl && !connection.config.downstream
                && !message.chat_sampling ==> after.phase == Phase::Reading && served == seq![
                Action::ConfigureReturnStream,
                Action::Acknowledge,
            ]
        }),
{
    let (after, actions) = connection.next(Event::Message(message));
    let writer = connection.config.downstream && (connection.config.async_prefill_forward
        || connection.config.max_inflight > 1);
    let start = if writer {
        2int
    } else {
        1
    };
    let served = actions.skip(start);
    assert(served =~= connection.control_ready(message).1);
    let kept = (if message.token_count > 0 {
        message.token_count as int
    } else {
        0
    }) as u64;
    let prompt = (if message.prompt_token_count > 0 {
        message.prompt_token_count as int
    } else {
        0
    }) as u64;
    if message.kind is TrimSession {
        if connection.config.downstream {
            assert(served =~= seq![
                Action::TrimSession(kept),
                Action::ForwardMessage,
                Action::AwaitReply,
            ]);
        } else {
            assert(served =~= seq![Action::TrimSession(kept), Action::Acknowledge]);
        }
    } else if message.kind is GenerationControl {
        if connection.config.downstream {
            assert(served =~= seq![Action::ForwardMessage, Action::AwaitReply]);
        } else if message.chat_sampling {
            assert(served =~= seq![
                Action::ConfigureSampling(prompt),
                Action::ConfigureReturnStream,
                Action::Acknowledge,
            ]);
        } else {
            assert(served =~= seq![Action::ConfigureReturnStream, Action::Acknowledge]);
        }
    }
}

/// Each acknowledgement that a control message waits for takes one off the
/// outstanding ones. After the last, the message is served as if nothing had
/// been outstanding when it came.
pub proof fn law_drained_control_is_served(
    connection: Connection,
    message: StageMessage,
    hits: i64,
    misses: i64,
    errors: i64,
)
    requires
        connection.phase == Phase::Draining(message),
        connection.pending > 0,
        message.kind == MessageKind::TrimSession || message.kind == MessageKind::GenerationControl
            || message.kind == MessageKind::TryRestorePrefill || message.kind
            == MessageKind::TryRestorePrefillDecode || message.kind
            == MessageKind::OtherPrefixCacheControl,
    ensures
        ({
            let (after, actions) = connection.next(
                Event::Reply {
                    ack: true,
                    lookup_hits: hits,
                    lookup_misses: misses,
                    lookup_errors: errors,
                },
            );
            let idle = Connection { pending: 0, phase: Phase::Reading, ..connection };
            let (at_once, served) = idle.next(Event::Message(message));
            let writer = connection.config.downstream && (connection.config.async_prefill_forward
                || connection.config.max_inflight > 1);
            &&& after.pending == connection.pending - 1
            &&& actions[0] == Action::MergeReply(Register::Message)
            &&& connection.pending > 1 ==> after.phase == Phase::Draining(message)
                && actions.skip(1) == seq![Action::AwaitReply]
            &&& connection.pending == 1 ==> after == at_once && actions.skip(1) == served.skip(
                if writer {
                    2
                } else {
                    1
                },
            )
        }),
{
    let (after, actions) = connection.next(
        Event::Reply { ack: true, lookup_hits: hits, lookup_misses: misses, lookup_errors: errors },
    );
    if connection.pending > 1 {
        assert(actions.skip(1) =~= seq![Action::AwaitReply]);
    } else {
        let idle = Connection { pending: 0, phase: Phase::Reading, ..connection };
        let served = idle.next(Event::Message(message)).1;
        let writer = connection.config.downstream && (connection.config.async_prefill_forward
            || connection.config.max_inflight > 1);
        let ready = connection.one_less().control_ready(message).1;
        assert(ready == idle.control_ready(message).1);
        assert(actions.skip(1) =~= ready);
        if writer {
            assert(served.skip(2) =~= ready);
        } else {
            assert(served.skip(1) =~= ready);
        }
    }
}

/// A control message that was acknowledged downstream is acknowledged upstream,
/// with what the downstream stage reported.
pub proof fn law_control_answer_is_passed_on(
    connection: Connection,
    message: StageMessage,
    hits: i64,
    misses: i64,
    errors: i64,
)
    requires
        connection.phase == Phase::ControlAck(message),
    ensures
        ({
            let (after, actions) = connection.next(
                Event::Reply {
                    ack: true,
                    lookup_hits: hits,
                    lookup_misses: misses,
                    lookup_errors: errors,
                },
            );
            &&& after == Connection { phase: Phase::Reading, ..connection }
            &&& actions == seq![Action::MergeReply(Register::Message), Action::Acknowledge]
        }),
{
    assert(connection.next(
        Event::Reply { ack: true, lookup_hits: hits, lookup_misses: misses, lookup_errors: errors },
    ).1 =~= seq![Action::MergeReply(Register::Message), Action::Acknowledge]);
}

/// What the cache held of a message decides how much is computed: nothing where
/// it held all tokens of a message that has some; where the first stage found a
/// part of a prefill, the tokens behind that part; and else all of them.
pub proof fn law_only_missing_tokens_are_computed(
    connection: Connection,
    message: StageMessage,
    token_count: usize,
    restored_tokens: usize,
    aligned: Option<(u64, u64)>,
)
    requires
        connection.phase == Phase::Preparing(message),
    ensures
        ({
            let (after, actions) = connection.next(
                Event::Prepared { token_count, restored_tokens, aligned },
            );
            let whole = token_count > 0 && restored_tokens >= token_count;
            let part = message.prefill && 0 < restored_tokens < token_count
                && connection.config.layer_start == 0;
            let work = if whole {
                after.phase->Output_0
            } else {
                after.phase->Input_0
            };
            &&& after.pending == connection.pending && after.config == connection.config
            &&& whole ==> after.phase is Output && actions == seq![
                Action::MergeLookup,
                Action::ReuseRestored,
                Action::RecordSideband,
            ]
            &&& !whole ==> after.phase is Input && actions == seq![
                Action::MergeLookup,
                Action::DecodeInput {
                    first_token: if part {
                        restored_tokens
                    } else {
                        0
                    },
                },
            ]
            &&& work.message == message
            &&& work.token_count == token_count
            &&& work.restored_tokens == restored_tokens
            &&& work.restored == whole
            &&& aligned is None <==> work.aligned is None
            &&& aligned matches Some((before, now)) ==> work.aligned == Some(
                (if before > now {
                    before - now
                } else {
                    0
                }) as u64,
            )
            &&& work.pending_before == 0 && work.credit_waits == 0 && work.drained == 0
            &&& work.mode == ForwardMode::Nothing
        }),
{
    let actions = connection.next(Event::Prepared { token_count, restored_tokens, aligned }).1;
    if restored_tokens >= token_count && token_count != 0 {
        assert(actions =~= seq![
            Action::MergeLookup,
            Action::ReuseRestored,
            Action::RecordSideband,
        ]);
    } else {
        let first = if message.prefill && 0 < restored_tokens < token_count
            && connection.config.layer_start == 0 {
            restored_tokens
        } else {
            0
        };
        assert(actions =~= seq![
            Action::MergeLookup,
            Action::DecodeInput { first_token: first },
        ]);
    }
}

/// What is computed on its own: the tokens that are missing, with what is left
/// of the prompt from the message's position on; the final prefill is that of
/// the last stage alone.
pub proof fn law_execution_covers_missing_tokens(
    connection: Connection,
    work: Work,
    first_token: Option<i32>,
)
    requires
        connection.phase == Phase::Input(work),
    ensures
        ({
            let (after, actions) = connection.next(Event::Input { batched: false, first_token });
            let plan = actions[0]->Execute_0;
            let part = work.message.prefill && 0 < work.restored_tokens < work.token_count
                && connection.config.layer_start == 0;
            let prompt = if work.message.prompt_token_count > 0 {
                work.message.prompt_token_count as int
            } else {
                0
            };
            let start = if work.message.pos_start > 0 {
                work.message.pos_start as int
            } else {
                0
            };
            &&& after == Connection { phase: Phase::Executing(work), ..connection }
            &&& actions.len() == 1 && actions[0] is Execute
            &&& plan.first_token == if part {
                work.restored_tokens
            } else {
                0
            }
            &&& plan.first_token + plan.executable_tokens == work.token_count
            &&& plan.remaining_prompt == if prompt > start {
                (prompt - start) as usize
            } else {
                0
            }
            &&& plan.final_prefill <==> (work.message.kind == MessageKind::PrefillFinalEmbd
                && !connection.config.downstream)
        }),
{
}

/// What joins a batch is computed at the position that the message claims, with
/// the first token that is left or else the one that the header names; without
/// a position it fails.
pub proof fn law_batches_need_a_position(
    connection: Connection,
    work: Work,
    first_token: Option<i32>,
)
    requires
        connection.phase == Phase::Input(work),
    ensures
        ({
            let (after, actions) = connection.next(Event::Input { batched: true, first_token });
            &&& actions.len() == 1
            &&& work.message.position is None ==> after.phase == Phase::Closed && actions[0]
                == Action::Fail(ConnectionError::BatchPosition)
            &&& work.message.position matches Some(at) ==> {
                &&& after == Connection { phase: Phase::Executing(work), ..connection }
                &&& first_token matches Some(first) ==> actions[0] == (Action::ExecuteBatched {
                    position: at,
                    token: first,
                })
                &&& first_token is None ==> actions[0] == (Action::ExecuteBatched {
                    position: at,
                    token: work.message.current_token,
                })
            }
        }),
{
}

/// Of what was computed, prefills are recorded: the session where its tokens
/// were gathered, with its activation where there is a cache and a stage to
/// come, and else the message. Anything else goes on to its output.
pub proof fn law_prefills_are_recorded(
    connection: Connection,
    work: Work,
    accumulated: bool,
)
    requires
        connection.phase == Phase::Executing(work),
    ensures
        ({
            let (after, actions) = connection.next(Event::Executed { accumulated });
            &&& actions.len() == 1
            &&& !work.message.prefill ==> after.phase == Phase::Output(work) && actions[0]
                == Action::RecordSideband
            &&& work.message.prefill ==> after.phase == Phase::RecordingPrefill(work)
            &&& work.message.prefill && accumulated ==> actions[0] == Action::RecordPrefill(
                PrefillScope::Session {
                    activation: connection.config.cache && connection.config.downstream_configured,
                },
            )
            &&& work.message.prefill && !accumulated ==> actions[0] == Action::RecordPrefill(
                PrefillScope::Message { restored_tokens: work.restored_tokens },
            )
            &&& after.pending == connection.pending
        }),
{
}

/// What was recorded counts where it is anything: pages by themselves, bytes
/// where an activation was kept. The token sideband comes behind.
pub proof fn law_recorded_prefills_count(
    connection: Connection,
    work: Work,
    pages: u64,
    activations: u64,
    activation_bytes: u64,
)
    requires
        connection.phase == Phase::RecordingPrefill(work),
    ensures
        ({
            let (after, actions) = connection.next(
                Event::PrefillRecorded { pages, activations, activation_bytes },
            );
            &&& after == Connection { phase: Phase::Output(work), ..connection }
            &&& actions.last() == Action::RecordSideband
            &&& forall|n: u64|
                actions.contains(Action::AddRecordedPages(n)) <==> n == pages && pages > 0
            &&& forall|n: u64|
                actions.contains(Action::AddRecordedBytes(n)) <==> n == activation_bytes
                    && activations > 0
            &&& actions.len() == 1 + (if pages > 0 {
                1int
            } else {
                0
            }) + if activations > 0 {
                1int
            } else {
                0
            }
        }),
{
    let actions = connection.next(
        Event::PrefillRecorded { pages, activations, activation_bytes },
    ).1;
    if pages > 0 {
        assert(actions[0] == Action::AddRecordedPages(pages));
        if activations > 0 {
            assert(actions[1] == Action::AddRecordedBytes(activation_bytes));
        }
    } else if activations > 0 {
        assert(actions[0] == Action::AddRecordedBytes(activation_bytes));
    }
}

/// How an output leaves for the downstream stage, and what is waited for then.
/// It needs an activation. A prefill that was acknowledged already, where the
/// configuration wants it and there is credit, and a window, where more than one
/// may be in flight, go to the writer; everything else is written behind what the
/// writer still holds.
pub proof fn law_outputs_leave_in_their_way(
    connection: Connection,
    work: Work,
    return_stream: bool,
)
    requires
        connection.phase == Phase::Output(work),
        connection.config.downstream,
    ensures
        ({
            let config = connection.config;
            let (after, actions) = connection.next(Event::Output { empty: false, return_stream });
            let failed = connection.next(Event::Output { empty: true, return_stream });
            let credit = match config.reply_credit_limit {
                Some(limit) => limit as int,
                None => if config.max_inflight > 0 {
                    config.max_inflight - 1
                } else {
                    0
                },
            };
            let queued = (config.async_prefill_forward && work.message.prefill
                && !work.message.requires_predicted && credit > 0) || (work.message.kind
                == MessageKind::VerifyWindow && config.max_inflight > 1);
            let writer = config.async_prefill_forward || config.max_inflight > 1;
            let left = if !queued && writer {
                2int
            } else {
                1
            };
            let mode = if queued {
                ForwardMode::AsyncEnqueue
            } else {
                ForwardMode::SyncWrite
            };
            let sent = Work { pending_before: connection.pending, mode, ..work };
            let observation = Observation {
                credit_limit: credit as usize,
                pending_before: connection.pending,
                pending_after: after.pending,
                credit_waits: work.credit_waits,
                drained: work.drained,
                align_count: if work.aligned is Some {
                    1
                } else {
                    0
                },
                aligned_tokens: match work.aligned {
                    Some(tokens) => tokens,
                    None => 0,
                },
                mode,
            };
            &&& failed.0.phase == Phase::Closed && failed.1.len() == 1 && failed.1[0]
                == Action::Fail(ConnectionError::EmptyActivation)
            &&& queued ==> actions[0] == Action::ForwardAsync
            &&& !queued && writer ==> actions[0] == Action::FlushForwards && actions[1]
                == Action::ForwardSync
            &&& !queued && !writer ==> actions[0] == Action::ForwardSync
            &&& work.message.requires_predicted && connection.pending > 0 ==> after.phase
                == Phase::DrainingPredicted(sent) && actions.skip(left) == seq![
                Action::AwaitReply,
            ] && after.pending == connection.pending
            &&& work.message.requires_predicted && connection.pending == 0 ==> after.phase
                == Phase::Reading && actions.skip(left) == seq![Action::Observe(observation)]
                && after.pending == 0
            &&& !work.message.requires_predicted && credit == 0 ==> after.phase == Phase::Relay(
                sent,
            ) && actions.skip(left) == seq![Action::AwaitReply] && after.pending
                == connection.pending
            &&& !work.message.requires_predicted && credit > 0 && connection.pending >= credit
                ==> after.phase == Phase::Credit(
                Work { credit_waits: (work.credit_waits + 1) as usize, ..sent },
            ) && actions.skip(left) == seq![Action::AwaitReply] && after.pending
                == connection.pending
            &&& !work.message.requires_predicted && connection.pending < credit ==> {
                &&& after.phase == Phase::Reading
                &&& after.pending == (connection.pending + 1) as usize
                &&& actions.skip(left) == seq![
                    if work.message.prefill {
                        Action::CarryMessageStats
                    } else {
                        Action::RelayAck
                    },
                    Action::Observe(observation),
                ]
            }
            &&& after.config == config
        }),
{
    let config = connection.config;
    let (after, actions) = connection.next(Event::Output { empty: false, return_stream });
    let queued = connection.enqueues(work.message);
    let writer = config.async_prefill_forward || config.max_inflight > 1;
    let left = if !queued && writer {
        2int
    } else {
        1
    };
    let rest = actions.skip(left);
    if after.phase is Reading {
        let observation = actions.last();
        if work.message.requires_predicted {
            assert(rest =~= seq![observation]);
        } else {
            assert(rest =~= seq![
                if work.message.prefill {
                    Action::CarryMessageStats
                } else {
                    Action::RelayAck
                },
                observation,
            ]);
        }
    } else {
        assert(rest =~= seq![Action::AwaitReply]);
    }
}

/// What the last stage does with an output: a prediction goes upstream with all
/// statistics, several of them for a window, directly where the request has a
/// stream for them; a message that was acknowledged already keeps its statistics
/// for later; any other is acknowledged.
pub proof fn law_last_stage_answers(
    connection: Connection,
    work: Work,
    empty: bool,
    return_stream: bool,
)
    requires
        connection.phase == Phase::Output(work),
        !connection.config.downstream,
    ensures
        ({
            let config = connection.config;
            let (after, actions) = connection.next(Event::Output { empty, return_stream });
            let edge = if work.message.prefill && config.downstream_configured {
                1int
            } else {
                0
            };
            let window = work.message.kind == MessageKind::VerifyWindow;
            let answer = actions.subrange(edge, actions.len() - 1);
            &&& after == Connection { phase: Phase::Reading, ..connection }
            &&& edge == 1 ==> actions[0] == Action::RecordEdgeTransport
            &&& actions.last() matches Action::Observe(observation) && observation.pending_before
                == connection.pending && observation.pending_after == connection.pending
                && observation.mode == work.mode && observation.credit_waits == work.credit_waits
                && observation.drained == work.drained && (work.aligned matches Some(tokens)
                ==> observation.align_count == 1 && observation.aligned_tokens == tokens) && (
            work.aligned is None ==> observation.align_count == 0 && observation.aligned_tokens
                == 0)
            &&& work.message.requires_predicted && window ==> answer == seq![
                Action::MergePendingStats,
                Action::RecordVerifyTiming,
                Action::SendPrediction { many: true, direct: return_stream },
            ]
            &&& work.message.requires_predicted && !window ==> answer == seq![
                Action::MergePendingStats,
                Action::SendPrediction { many: false, direct: return_stream },
            ]
            &&& !work.message.requires_predicted && work.message.prefill ==> answer == seq![
                Action::CarryMessageStats,
            ]
            &&& !work.message.requires_predicted && !work.message.prefill ==> answer == seq![
                Action::RelayAck,
            ]
        }),
{
    let config = connection.config;
    let actions = connection.next(Event::Output { empty, return_stream }).1;
    let edge = if work.message.prefill && config.downstream_configured {
        1int
    } else {
        0
    };
    let answer = actions.subrange(edge, actions.len() - 1);
    if work.message.requires_predicted {
        if work.message.kind is VerifyWindow {
            assert(answer =~= seq![
                Action::MergePendingStats,
                Action::RecordVerifyTiming,
                Action::SendPrediction { many: true, direct: return_stream },
            ]);
        } else {
            assert(answer =~= seq![
                Action::MergePendingStats,
                Action::SendPrediction { many: false, direct: return_stream },
            ]);
        }
    } else if work.message.prefill {
        assert(answer =~= seq![Action::CarryMessageStats]);
    } else {
        assert(answer =~= seq![Action::RelayAck]);
    }
}

/// What an acknowledgement of a computed message leads to. Before a prediction
/// each one is drained; where none may be deferred, the message is answered with
/// it; where there was no room, it makes room for the message's own. A message
/// that was acknowledged already is not acknowledged again.
pub proof fn law_acknowledged_outputs_are_answered(
    connection: Connection,
    work: Work,
    hits: i64,
    misses: i64,
    errors: i64,
)
    requires
        connection.pending > 0,
    ensures
        ({
            let (after, actions) = connection.next(
                Event::Reply {
                    ack: true,
                    lookup_hits: hits,
                    lookup_misses: misses,
                    lookup_errors: errors,
                },
            );
            let counted = Work { drained: (work.drained + 1) as usize, ..work };
            let answer = if work.message.prefill && !work.message.requires_predicted {
                Action::CarryMessageStats
            } else {
                Action::RelayAck
            };
            &&& connection.phase == Phase::DrainingPredicted(work) ==> {
                &&& actions[0] == Action::MergeReply(Register::Pending)
                &&& actions.len() == 2
                &&& after.pending == connection.pending - 1
                &&& connection.pending > 1 ==> after.phase == Phase::DrainingPredicted(counted)
                    && actions[1] == Action::AwaitReply
                &&& connection.pending == 1 ==> after.phase == Phase::Reading && (
                actions[1] matches Action::Observe(seen) && seen.drained == counted.drained
                    && seen.pending_before == work.pending_before && seen.pending_after == 0
                    && seen.credit_waits == work.credit_waits && seen.mode == work.mode)
            }
            &&& connection.phase == Phase::Credit(work) ==> {
                &&& actions[0] == Action::MergeReply(Register::Pending)
                &&& actions[1] == answer
                &&& actions.len() == 3
                &&& after.phase == Phase::Reading
                &&& after.pending == connection.pending
                &&& actions[2] matches Action::Observe(seen) && seen.drained == counted.drained
                    && seen.pending_before == work.pending_before && seen.pending_after
                    == connection.pending && seen.credit_waits == work.credit_waits && seen.mode
                    == work.mode
            }
        }),
{
}

/// Where no acknowledgement may be deferred, the downstream one answers the
/// message.
pub proof fn law_relayed_acknowledgement_answers(
    connection: Connection,
    work: Work,
    hits: i64,
    misses: i64,
    errors: i64,
)
    requires
        connection.phase == Phase::Relay(work),
    ensures
        ({
            let (after, actions) = connection.next(
                Event::Reply {
                    ack: true,
                    lookup_hits: hits,
                    lookup_misses: misses,
                    lookup_errors: errors,
                },
            );
            &&& after == Connection { phase: Phase::Reading, ..connection }
            &&& actions.len() == 3
            &&& actions[0] == Action::MergeReply(Register::Message)
            &&& actions[1] == if work.message.prefill && !work.message.requires_predicted {
                Action::CarryMessageStats
            } else {
                Action::RelayAck
            }
            &&& actions[2] matches Action::Observe(seen) && seen.drained == work.drained
                && seen.pending_before == work.pending_before && seen.pending_after
                == connection.pending && seen.credit_waits == work.credit_waits && seen.mode
                == work.mode
        }),
{
}

/// A connection whose messages cannot be read any more ends: without an error
/// only at the end of the stream, with nothing outstanding and no message since
/// the last summary.
pub proof fn law_reading_ends_cleanly_or_fails(
    connection: Connection,
    eof: bool,
    message_count: u64,
)
    ensures
        ({
            let (after, actions) = connection.next(Event::ReadFailed { eof, message_count });
            &&& after == Connection { phase: Phase::Closed, ..connection }
            &&& actions.len() == 1
            &&& actions[0] == Action::Finish <==> (eof && connection.pending == 0 && message_count
                == 0)
            &&& actions[0] != Action::Finish ==> actions[0] == Action::Fail(ConnectionError::Read)
        }),
{
}

/// A restore that answers for itself leaves nothing to do.
pub proof fn law_delegated_restore_needs_nothing(connection: Connection)
    ensures
        ({
            let (after, actions) = connection.next(Event::RestoreDone);
            &&& after == Connection { phase: Phase::Reading, ..connection }
            &&& actions.len() == 0
        }),
{
}

/// In each phase exactly the events that are waited for are taken.
pub proof fn law_each_phase_waits_for_its_event(connection: Connection, event: Event)
    ensures
        connection.awaits(event) <==> match connection.phase {
            Phase::Reading => event is Message || event is ReadFailed,
            Phase::RecordingSessions => event is SessionRecorded || event is SessionsDone,
            Phase::LocalCache(_) => event is LocalCache,
            Phase::Delegated => event is RestoreDone,
            Phase::Preparing(_) => event is Prepared,
            Phase::Input(_) => event is Input,
            Phase::Executing(_) => event is Executed,
            Phase::RecordingPrefill(_) => event is PrefillRecorded,
            Phase::Output(_) => event is Output,
            Phase::Closed => false,
            _ => event is Reply,
        },
{
}

} // verus!
