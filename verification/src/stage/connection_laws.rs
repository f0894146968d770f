//! What holds of every connection, whatever messages and replies come in.

use crate::stage::connection::{
    Action, Connection, ConnectionError, Event, ForwardMode, Phase, Register, StageMessage, Work, only_if,
};
use vstd::prelude::*;

verus! {

/// What a list of actions adds up to.
pub struct Tally {
    /// Answers sent upstream.
    pub answers: int,
    /// Control messages written downstream.
    pub controls: int,
    /// Activations written downstream, at once or by the asynchronous writer.
    pub activations: int,
    /// Whether the asynchronous writer may still hold an activation.
    pub unflushed: bool,
    /// Whether something was written while the asynchronous writer might
    /// still hold an activation.
    pub overtaken: bool,
    /// Reports in the message's register that have not been passed on.
    pub message: int,
    /// Reports that wait for a later reply.
    pub pending: int,
    /// Reports that an answer took along.
    pub sent: int,
    /// Reports that were discarded.
    pub lost: int,
    /// Whether the connection ended without an error.
    pub finished: bool,
}

impl Tally {
    /// What one action adds.
    pub open spec fn after(self, action: Action) -> Tally {
        match action {
            Action::TakePendingStats => Tally {
                lost: self.lost + self.message,
                message: self.pending,
                pending: 0,
                ..self
            },
            Action::BeginMessageStats => Tally {
                lost: self.lost + self.message,
                message: 0,
                ..self
            },
            Action::MergeReply(Register::Message) | Action::MergeLocal | Action::MergeLookup => Tally {
                message: self.message + 1,
                ..self
            },
            Action::MergeReply(Register::Pending) => Tally { pending: self.pending + 1, ..self },
            Action::MergePendingStats => Tally {
                message: self.message + self.pending,
                pending: 0,
                ..self
            },
            Action::CarryMessageStats => Tally {
                pending: self.pending + self.message,
                message: 0,
                ..self
            },
            Action::EarlyAck => Tally { answers: self.answers + 1, ..self },
            Action::Acknowledge | Action::RelayAck | Action::SendPrediction { .. } => Tally {
                answers: self.answers + 1,
                sent: self.sent + self.message,
                message: 0,
                ..self
            },
            Action::RestorePrefillDecode => Tally {
                sent: self.sent + self.message,
                message: 0,
                ..self
            },
            Action::Finish => Tally { finished: true, ..self },
            Action::FlushForwards => Tally { unflushed: false, ..self },
            Action::ForwardAsync => Tally {
                activations: self.activations + 1,
                unflushed: true,
                ..self
            },
            Action::ForwardSync => Tally {
                activations: self.activations + 1,
                overtaken: self.overtaken || self.unflushed,
                ..self
            },
            Action::ForwardMessage => Tally {
                controls: self.controls + 1,
                overtaken: self.overtaken || self.unflushed,
                ..self
            },
            _ => self,
        }
    }
}

/// What a list of actions adds to a tally.
pub open spec fn tally(start: Tally, actions: Seq<Action>) -> Tally
    decreases actions.len(),
{
    if actions.len() == 0 {
        start
    } else {
        tally(start, actions.drop_last()).after(actions.last())
    }
}

broadcast proof fn lemma_tally_empty(start: Tally)
    ensures
        #[trigger] tally(start, Seq::<Action>::empty()) == start,
{
}

broadcast proof fn lemma_tally_push(start: Tally, actions: Seq<Action>, action: Action)
    ensures
        #[trigger] tally(start, actions.push(action)) == tally(start, actions).after(action),
{
    assert(actions.push(action).drop_last() =~= actions);
}

broadcast proof fn lemma_tally_add(start: Tally, first: Seq<Action>, second: Seq<Action>)
    ensures
        #[trigger] tally(start, first + second) == tally(tally(start, first), second),
    decreases second.len(),
{
    if second.len() == 0 {
        assert(first + second =~= first);
    } else {
        assert((first + second).drop_last() =~= first + second.drop_last());
        lemma_tally_add(start, first, second.drop_last());
    }
}

broadcast proof fn lemma_tally_only_if(start: Tally, wanted: bool, action: Action)
    ensures
        #[trigger] tally(start, only_if(wanted, action)) == if wanted {
            start.after(action)
        } else {
            start
        },
{
    if wanted {
        lemma_tally_empty(start);
        lemma_tally_push(start, Seq::<Action>::empty(), action);
        assert(only_if(wanted, action) =~= Seq::<Action>::empty().push(action));
    } else {
        assert(only_if(wanted, action) =~= Seq::<Action>::empty());
    }
}

broadcast group group_tally {
    lemma_tally_empty,
    lemma_tally_push,
    lemma_tally_add,
    lemma_tally_only_if,
}

/// How many answers a message gets from this stage. A restore answers for
/// itself, and where there is a downstream stage, the prediction comes from
/// there.
pub open spec fn answers_due(connection: Connection, message: StageMessage) -> int {
    if message.kind is TryRestorePrefillDecode || (message.computed() && message.requires_predicted
        && connection.config.downstream) {
        0
    } else {
        1
    }
}

/// How many answers an event is due.
pub open spec fn answers_due_to(connection: Connection, event: Event) -> int {
    match event {
        Event::Message(message) => answers_due(connection, message),
        _ => 0,
    }
}

/// How many answers are still to be sent for the message at hand.
pub open spec fn answers_owed(connection: Connection) -> int {
    match connection.phase {
        Phase::Reading | Phase::Closed | Phase::Delegated => 0,
        Phase::StopAck | Phase::RecordingSessions => 1,
        Phase::Draining(message) => answers_due(connection, message),
        Phase::ControlAck(_) | Phase::LocalCache(_) | Phase::CacheAck { .. } => 1,
        Phase::Preparing(message) => if message.early() {
            0
        } else {
            answers_due(connection, message)
        },
        Phase::Input(work)
        | Phase::Executing(work)
        | Phase::RecordingPrefill(work)
        | Phase::Output(work)
        | Phase::DrainingPredicted(work)
        | Phase::Relay(work)
        | Phase::Credit(work) => if work.message.early() {
            0
        } else {
            answers_due(connection, work.message)
        },
    }
}

/// How many replies the downstream stage still has to send.
pub open spec fn replies_outstanding(connection: Connection) -> int {
    connection.pending + match connection.phase {
        Phase::StopAck
        | Phase::ControlAck(_)
        | Phase::CacheAck { .. }
        | Phase::Relay(_)
        | Phase::Credit(_) => 1int,
        _ => 0int,
    }
}

/// Whether the output at hand is acknowledged by the downstream stage.
pub open spec fn output_acknowledged(connection: Connection) -> bool {
    connection.phase matches Phase::Output(work) && !work.message.requires_predicted
}

/// Whether a control message is being served.
pub open spec fn serving_control(connection: Connection) -> bool {
    match connection.phase {
        Phase::StopAck
        | Phase::RecordingSessions
        | Phase::Draining(_)
        | Phase::ControlAck(_)
        | Phase::LocalCache(_)
        | Phase::CacheAck { .. }
        | Phase::Delegated => true,
        _ => false,
    }
}

/// Whether a prediction that the downstream stage makes is at hand.
pub open spec fn predicted_downstream(connection: Connection) -> bool {
    connection.config.downstream && match connection.phase {
        Phase::Output(work) | Phase::DrainingPredicted(work) => work.message.requires_predicted,
        _ => false,
    }
}

/// What holds of one step, stated over what its actions add to a tally.
spec fn result_holds(
    connection: Connection,
    event: Event,
    result: (Connection, Seq<Action>),
    start: Tally,
) -> bool {
    let (after, actions) = result;
    let total = tally(start, actions);
    let alive = !(after.phase is Closed);
    let written = total.controls - start.controls + if output_acknowledged(connection) {
        total.activations - start.activations
    } else {
        0
    };
    let received = if event is Reply {
        1int
    } else {
        0int
    };
    &&& after.valid()
    &&& after.config == connection.config
    &&& total.finished && !start.finished ==> connection.pending == 0 && (
    event matches Event::ReadFailed { eof, message_count } && eof && message_count == 0)
    &&& alive ==> total.answers - start.answers + answers_owed(after) == answers_owed(connection)
        + answers_due_to(connection, event)
    &&& alive ==> replies_outstanding(after) == replies_outstanding(connection) + written - received
    &&& (start.unflushed ==> connection.config.forwards_async() && !serving_control(connection))
        ==> total.overtaken == start.overtaken && (total.unflushed
        ==> after.config.forwards_async() && !serving_control(after))
    &&& alive && (connection.phase is Delegated ==> start.message == 0) ==> {
        &&& total.lost - start.lost == if event is Message {
            start.message
        } else {
            0
        }
        &&& after.phase is Reading && !predicted_downstream(connection) ==> total.message == 0
        &&& after.phase is Delegated ==> total.message == 0
    }
}

/// What holds of one step.
spec fn step_holds(connection: Connection, event: Event, start: Tally) -> bool {
    result_holds(connection, event, connection.next(event), start)
}

proof fn lemma_control_ready(connection: Connection, message: StageMessage, start: Tally)
    requires
        message.control(),
        connection.pending == 0,
        connection.pending <= connection.config.credit(),
    ensures
        ({
            let (after, actions) = connection.control_ready(message);
            let total = tally(start, actions);
            &&& after.valid()
            &&& after.config == connection.config
            &&& total.answers - start.answers + answers_owed(after) == answers_due(
                connection,
                message,
            )
            &&& replies_outstanding(after) == total.controls - start.controls
            &&& total.activations == start.activations
            &&& total.lost == start.lost
            &&& total.finished == start.finished
            &&& !start.unflushed ==> !total.unflushed && total.overtaken == start.overtaken
            &&& after.phase is Reading || after.phase is Delegated ==> total.message == 0
            &&& !(after.phase is Closed)
        }),
{
    broadcast use group_tally;

}

proof fn lemma_failure(connection: Connection, event: Event, error: ConnectionError, start: Tally)
    requires
        connection.valid(),
    ensures
        result_holds(connection, event, connection.failed(error), start),
{
    broadcast use group_tally;

}

proof fn lemma_stop(connection: Connection, message: StageMessage, start: Tally)
    requires
        connection.valid(),
        connection.phase is Reading,
        message.kind is Stop,
    ensures
        result_holds(
            connection,
            Event::Message(message),
            connection.on_message(message),
            start,
        ),
{
    broadcast use group_tally;

    if connection.pending != 0 {
        lemma_failure(
            connection,
            Event::Message(message),
            ConnectionError::StopWithDeferredReplies(connection.pending),
            start,
        );
    }
}

proof fn lemma_control(connection: Connection, message: StageMessage, start: Tally)
    requires
        connection.valid(),
        connection.phase is Reading,
        message.control(),
    ensures
        result_holds(
            connection,
            Event::Message(message),
            connection.on_message(message),
            start,
        ),
{
    broadcast use group_tally;

    if connection.pending == 0 {
        let flushed = tally(
            start,
            seq![Action::TakePendingStats] + only_if(
                connection.config.forwards_async(),
                Action::FlushForwards,
            ),
        );
        lemma_control_ready(connection, message, flushed);
    }
}

proof fn lemma_begin(connection: Connection, message: StageMessage, start: Tally)
    requires
        connection.valid(),
        connection.phase is Reading,
        message.computed(),
        message.state_matches,
    ensures
        result_holds(
            connection,
            Event::Message(message),
            (connection.at(Phase::Preparing(message)), Connection::begin(message)),
            start,
        ),
{
    broadcast use group_tally;

}

proof fn lemma_step_on_message(connection: Connection, message: StageMessage, start: Tally)
    requires
        connection.valid(),
        connection.phase is Reading,
    ensures
        result_holds(
            connection,
            Event::Message(message),
            connection.on_message(message),
            start,
        ),
{
    let event = Event::Message(message);
    if message.kind is VerifyWindow && connection.config.recurrent_state {
        lemma_failure(connection, event, ConnectionError::RecurrentState, start);
    } else if message.kind is Stop {
        lemma_stop(connection, message, start);
    } else if message.control() {
        lemma_control(connection, message, start);
    } else if message.kind is StateImport {
        lemma_failure(connection, event, ConnectionError::StateImport, start);
    } else if message.kind is StateExport {
        lemma_failure(connection, event, ConnectionError::StateExport, start);
    } else if !message.state_matches {
        lemma_failure(connection, event, ConnectionError::StateMismatch, start);
    } else {
        lemma_begin(connection, message, start);
    }
}

proof fn lemma_reply_to_control(
    connection: Connection,
    ack: bool,
    hits: i64,
    misses: i64,
    errors: i64,
    start: Tally,
)
    requires
        connection.valid(),
        connection.phase is StopAck || connection.phase is ControlAck || connection.phase is CacheAck,
    ensures
        result_holds(
            connection,
            Event::Reply {
                ack,
                lookup_hits: hits,
                lookup_misses: misses,
                lookup_errors: errors,
            },
            connection.on_reply(ack, hits, misses, errors),
            start,
        ),
{
    broadcast use group_tally;

}

proof fn lemma_reply_while_draining(
    connection: Connection,
    ack: bool,
    hits: i64,
    misses: i64,
    errors: i64,
    start: Tally,
)
    requires
        connection.valid(),
        connection.phase is Draining,
    ensures
        result_holds(
            connection,
            Event::Reply {
                ack,
                lookup_hits: hits,
                lookup_misses: misses,
                lookup_errors: errors,
            },
            connection.on_reply(ack, hits, misses, errors),
            start,
        ),
{
    broadcast use group_tally;

    if connection.pending == 1 {
        lemma_control_ready(
            connection.one_less(),
            connection.phase->Draining_0,
            tally(start, seq![Action::MergeReply(Register::Message)]),
        );
    }
}

proof fn lemma_reply_to_output(
    connection: Connection,
    ack: bool,
    hits: i64,
    misses: i64,
    errors: i64,
    start: Tally,
)
    requires
        connection.valid(),
        connection.phase is DrainingPredicted || connection.phase is Relay
            || connection.phase is Credit,
    ensures
        result_holds(
            connection,
            Event::Reply {
                ack,
                lookup_hits: hits,
                lookup_misses: misses,
                lookup_errors: errors,
            },
            connection.on_reply(ack, hits, misses, errors),
            start,
        ),
{
    broadcast use group_tally;

}

proof fn lemma_settle(connection: Connection, work: Work, before: Seq<Action>, start: Tally)
    requires
        connection.valid(),
        connection.config.downstream,
        connection.phase is Output,
        work.message.computed(),
        work.credit_waits == 0,
        work.drained == 0,
        work.pending_before == connection.pending,
    ensures
        ({
            let (after, actions) = connection.settle(work, before);
            let forwarded = tally(start, before);
            let total = tally(start, actions);
            &&& after.valid()
            &&& after.config == connection.config
            &&& !(after.phase is Closed)
            &&& !serving_control(after)
            &&& total.answers - forwarded.answers + answers_owed(after) == if work.message.early() {
                0
            } else {
                answers_due(connection, work.message)
            }
            &&& replies_outstanding(after) == connection.pending
                + if work.message.requires_predicted {
                0int
            } else {
                1int
            }
            &&& total.controls == forwarded.controls
            &&& total.activations == forwarded.activations
            &&& total.unflushed == forwarded.unflushed
            &&& total.overtaken == forwarded.overtaken
            &&& total.lost == forwarded.lost
            &&& total.finished == forwarded.finished
            &&& after.phase is Reading && !work.message.requires_predicted ==> total.message == 0
        }),
{
    broadcast use group_tally;

}

proof fn lemma_step_on_output(
    connection: Connection,
    work: Work,
    empty: bool,
    return_stream: bool,
    start: Tally,
)
    requires
        connection.valid(),
        connection.phase == Phase::Output(work),
    ensures
        result_holds(
            connection,
            Event::Output { empty, return_stream },
            connection.on_output(work, empty, return_stream),
            start,
        ),
{
    broadcast use group_tally;

    if connection.config.downstream && !empty {
        let counted = Work { pending_before: connection.pending, ..work };
        if connection.enqueues(work.message) {
            lemma_settle(
                connection,
                Work { mode: ForwardMode::AsyncEnqueue, ..counted },
                seq![Action::ForwardAsync],
                start,
            );
        } else {
            lemma_settle(
                connection,
                Work { mode: ForwardMode::SyncWrite, ..counted },
                only_if(connection.config.forwards_async(), Action::FlushForwards) + seq![
                    Action::ForwardSync,
                ],
                start,
            );
        }
    }
}

proof fn lemma_step_of_control(connection: Connection, event: Event, start: Tally)
    requires
        connection.valid(),
        connection.awaits(event),
        event is ReadFailed || event is SessionRecorded || event is SessionsDone
            || event is LocalCache || event is RestoreDone,
    ensures
        step_holds(connection, event, start),
{
    broadcast use group_tally;

}

proof fn lemma_step_of_work(connection: Connection, event: Event, start: Tally)
    requires
        connection.valid(),
        connection.awaits(event),
        event is Prepared || event is Input || event is Executed || event is PrefillRecorded,
    ensures
        step_holds(connection, event, start),
{
    broadcast use group_tally;

}

proof fn lemma_step(connection: Connection, event: Event, start: Tally)
    requires
        connection.valid(),
        connection.awaits(event),
    ensures
        step_holds(connection, event, start),
{
    match event {
        Event::Message(message) => lemma_step_on_message(connection, message, start),
        Event::Reply { ack, lookup_hits, lookup_misses, lookup_errors } => {
            if connection.phase is Draining {
                lemma_reply_while_draining(
                    connection,
                    ack,
                    lookup_hits,
                    lookup_misses,
                    lookup_errors,
                    start,
                );
            } else if connection.phase is DrainingPredicted || connection.phase is Relay
                || connection.phase is Credit {
                lemma_reply_to_output(
                    connection,
                    ack,
                    lookup_hits,
                    lookup_misses,
                    lookup_errors,
                    start,
                );
            } else {
                lemma_reply_to_control(
                    connection,
                    ack,
                    lookup_hits,
                    lookup_misses,
                    lookup_errors,
                    start,
                );
            }
        },
        Event::Output { empty, return_stream } => lemma_step_on_output(
            connection,
            connection.phase->Output_0,
            empty,
            return_stream,
            start,
        ),
        Event::Prepared { .. }
        | Event::Input { .. }
        | Event::Executed { .. }
        | Event::PrefillRecorded { .. } => { lemma_step_of_work(connection, event, start) },
        _ => lemma_step_of_control(connection, event, start),
    }
}

/// A valid connection stays valid, under the configuration it was made with.
pub proof fn law_step_keeps_connection_valid(connection: Connection, event: Event)
    requires
        connection.valid(),
        connection.awaits(event),
    ensures
        connection.next(event).0.valid(),
        connection.next(event).0.config == connection.config,
{
    lemma_step(connection, event, nothing());
}

/// While the connection lives, each event changes what is owed upstream by the
/// answers that its actions send and by what a new message is due.
pub proof fn law_step_settles_answers(connection: Connection, event: Event, start: Tally)
    requires
        connection.valid(),
        connection.awaits(event),
        !(connection.next(event).0.phase is Closed),
    ensures
        ({
            let (after, actions) = connection.next(event);
            tally(start, actions).answers - start.answers + answers_owed(after) == answers_owed(
                connection,
            ) + answers_due_to(connection, event)
        }),
{
    lemma_step(connection, event, start);
}

/// Each reply is awaited exactly once: what the downstream stage still owes
/// grows with each write that it acknowledges and shrinks with each reply.
pub proof fn law_step_awaits_each_reply_once(connection: Connection, event: Event, start: Tally)
    requires
        connection.valid(),
        connection.awaits(event),
        !(connection.next(event).0.phase is Closed),
    ensures
        ({
            let (after, actions) = connection.next(event);
            let total = tally(start, actions);
            let written = total.controls - start.controls + if output_acknowledged(connection) {
                total.activations - start.activations
            } else {
                0
            };
            let received = if event is Reply {
                1int
            } else {
                0int
            };
            replies_outstanding(after) == replies_outstanding(connection) + written - received
        }),
{
    lemma_step(connection, event, start);
}

/// Nothing overtakes an activation: whatever is written directly is written
/// when the asynchronous writer has nothing left, and a control message is
/// served with nothing left.
pub proof fn law_step_keeps_frames_in_order(connection: Connection, event: Event, start: Tally)
    requires
        connection.valid(),
        connection.awaits(event),
        start.unflushed ==> connection.config.forwards_async() && !serving_control(connection),
    ensures
        ({
            let (after, actions) = connection.next(event);
            let total = tally(start, actions);
            &&& total.overtaken == start.overtaken
            &&& total.unflushed ==> after.config.forwards_async() && !serving_control(after)
        }),
{
    lemma_step(connection, event, start);
}

/// No report is lost while a message is served. A report that came in with a
/// message is passed on by the time the next message is read, unless the
/// downstream stage makes the message's prediction; what is left then is
/// discarded with the next message.
pub proof fn law_step_passes_reports_on(connection: Connection, event: Event, start: Tally)
    requires
        connection.valid(),
        connection.awaits(event),
        !(connection.next(event).0.phase is Closed),
        connection.phase is Delegated ==> start.message == 0,
    ensures
        ({
            let (after, actions) = connection.next(event);
            let total = tally(start, actions);
            &&& total.lost - start.lost == if event is Message {
                start.message
            } else {
                0
            }
            &&& after.phase is Reading && !predicted_downstream(connection) ==> total.message == 0
            &&& after.phase is Delegated ==> total.message == 0
        }),
{
    lemma_step(connection, event, start);
}

/// The connection after a list of events, and all the actions up to there.
pub open spec fn run(connection: Connection, events: Seq<Event>) -> (Connection, Seq<Action>)
    decreases events.len(),
{
    if events.len() == 0 {
        (connection, seq![])
    } else {
        let (before, actions) = run(connection, events.drop_last());
        let (after, more) = before.next(events.last());
        (after, actions + more)
    }
}

/// Whether each event comes when the connection waits for it.
pub open spec fn fitting(connection: Connection, events: Seq<Event>) -> bool
    decreases events.len(),
{
    events.len() == 0 || {
        &&& fitting(connection, events.drop_last())
        &&& run(connection, events.drop_last()).0.awaits(events.last())
    }
}

/// How many answers the messages among the events are due.
pub open spec fn total_due(connection: Connection, events: Seq<Event>) -> int
    decreases events.len(),
{
    if events.len() == 0 {
        0
    } else {
        total_due(connection, events.drop_last()) + answers_due_to(connection, events.last())
    }
}

/// A tally with nothing in it.
pub open spec fn nothing() -> Tally {
    Tally {
        answers: 0,
        controls: 0,
        activations: 0,
        unflushed: false,
        overtaken: false,
        message: 0,
        pending: 0,
        sent: 0,
        lost: 0,
        finished: false,
    }
}

proof fn lemma_run_valid(connection: Connection, events: Seq<Event>)
    requires
        connection.valid(),
        fitting(connection, events),
    ensures
        run(connection, events).0.valid(),
        run(connection, events).0.config == connection.config,
    decreases events.len(),
{
    if events.len() > 0 {
        lemma_run_valid(connection, events.drop_last());
        law_step_keeps_connection_valid(
            run(connection, events.drop_last()).0,
            events.last(),
        );
    }
}

/// However the events go, the downstream stage is never asked for more
/// acknowledgements at a time than the credit allows, and nothing that is
/// written overtakes an activation.
pub proof fn law_credit_and_order_hold_throughout(connection: Connection, events: Seq<Event>)
    requires
        connection.valid(),
        connection.phase is Reading,
        fitting(connection, events),
    ensures
        ({
            let (after, actions) = run(connection, events);
            let total = tally(nothing(), actions);
            &&& after.pending <= connection.config.credit()
            &&& !total.overtaken
            &&& total.unflushed ==> connection.config.forwards_async() && !serving_control(after)
        }),
    decreases events.len(),
{
    broadcast use group_tally;

    if events.len() > 0 {
        let earlier = events.drop_last();
        law_credit_and_order_hold_throughout(connection, earlier);
        lemma_run_valid(connection, earlier);
        lemma_run_valid(connection, events);
        let (before, actions) = run(connection, earlier);
        law_step_keeps_frames_in_order(before, events.last(), tally(nothing(), actions));
    }
}

proof fn lemma_run_settles(connection: Connection, events: Seq<Event>)
    requires
        connection.valid(),
        connection.phase is Reading,
        fitting(connection, events),
        !(run(connection, events).0.phase is Closed),
    ensures
        tally(nothing(), run(connection, events).1).answers + answers_owed(
            run(connection, events).0,
        ) == total_due(connection, events),
    decreases events.len(),
{
    broadcast use group_tally;

    if events.len() > 0 {
        let earlier = events.drop_last();
        lemma_run_valid(connection, earlier);
        let (before, actions) = run(connection, earlier);
        lemma_run_settles(connection, earlier);
        law_step_settles_answers(before, events.last(), tally(nothing(), actions));
    }
}

/// Whenever the connection reads again, every message so far has got the
/// answers it was due: none more, none fewer.
pub proof fn law_every_message_is_answered(connection: Connection, events: Seq<Event>)
    requires
        connection.valid(),
        connection.phase is Reading,
        fitting(connection, events),
        run(connection, events).0.phase is Reading,
    ensures
        tally(nothing(), run(connection, events).1).answers == total_due(connection, events),
{
    lemma_run_settles(connection, events);
}

/// A connection ends without an error only at an end of file, with nothing
/// outstanding and no message seen since the last stop.
pub proof fn law_clean_end_leaves_nothing_outstanding(
    connection: Connection,
    event: Event,
    start: Tally,
)
    requires
        connection.valid(),
        connection.awaits(event),
        !start.finished,
        tally(start, connection.next(event).1).finished,
    ensures
        connection.pending == 0,
        event matches Event::ReadFailed { eof, message_count } && eof && message_count == 0,
{
    lemma_step(connection, event, start);
}

/// A stop is refused while acknowledgements are outstanding.
pub proof fn law_stop_waits_for_no_reply(connection: Connection, message: StageMessage)
    requires
        message.kind is Stop,
    ensures
        connection.pending > 0 ==> connection.next(Event::Message(message)).0.phase is Closed,
        connection.pending == 0 ==> serving_control(connection.next(Event::Message(message)).0),
{
}

/// The asynchronous writer is there whenever an activation is handed to it.
pub proof fn law_enqueueing_has_a_writer(connection: Connection, message: StageMessage)
    requires
        connection.config.downstream,
        connection.enqueues(message),
    ensures
        connection.config.forwards_async(),
{
}

} // verus!
