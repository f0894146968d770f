//! What a stage does with the messages of one upstream connection.
//!
//! A [`Connection`] decides and performs nothing itself: each event is
//! answered with the actions to perform, in order. Statistics travel in two
//! registers that the caller keeps. `Message` gathers what concerns the
//! message at hand; `Pending` gathers what waits for a later reply.

use vstd::prelude::*;

verus! {

/// The kinds of message that a stage tells apart.
#[derive(Clone, Copy, PartialEq, Eq, Structural, Debug)]
pub enum MessageKind {
    Stop,
    TrimSession,
    GenerationControl,
    TryRestorePrefill,
    TryRestorePrefillDecode,
    OtherPrefixCacheControl,
    StateImport,
    StateExport,
    VerifyWindow,
    PrefillFinalEmbd,
    Other,
}

/// What the decisions read of a message.
#[derive(Clone, Copy, Debug)]
pub struct StageMessage {
    pub kind: MessageKind,
    /// Whether the kind is one of the prefill kinds.
    pub prefill: bool,
    /// Whether the kind is answered with a prediction.
    pub requires_predicted: bool,
    /// Whether the state header belongs to this kind of message.
    pub state_matches: bool,
    pub token_count: i32,
    pub pos_start: i32,
    pub prompt_token_count: i32,
    /// The session position that the message claims, if it claims one.
    pub position: Option<u64>,
    /// The token that the state header names.
    pub current_token: i32,
    /// Whether the message carries chat sampling metadata.
    pub chat_sampling: bool,
}

/// How a connection was set up.
#[derive(Clone, Copy, Debug)]
pub struct ConnectionConfig {
    /// Whether a downstream stream is open.
    pub downstream: bool,
    /// Whether the stage's configuration names a downstream peer.
    pub downstream_configured: bool,
    pub max_inflight: usize,
    pub reply_credit_limit: Option<usize>,
    pub async_prefill_forward: bool,
    /// Whether the model keeps recurrent state.
    pub recurrent_state: bool,
    /// Whether the stage has a prefix cache.
    pub cache: bool,
    pub layer_start: u32,
}

impl ConnectionConfig {
    /// How many downstream acknowledgements may be outstanding.
    pub open spec fn credit(self) -> usize {
        match self.reply_credit_limit {
            Some(limit) => limit,
            None => if self.max_inflight > 0 {
                (self.max_inflight - 1) as usize
            } else {
                0
            },
        }
    }

    /// How many downstream acknowledgements may be outstanding.
    pub fn max_deferred_prefill_replies(&self) -> (limit: usize)
        ensures
            limit == self.credit(),
    {
        match self.reply_credit_limit {
            Some(limit) => limit,
            None => if self.max_inflight > 0 {
                self.max_inflight - 1
            } else {
                0
            },
        }
    }

    /// Whether activations can be handed to a writer of their own.
    pub open spec fn forwards_async(self) -> bool {
        self.downstream && (self.async_prefill_forward || self.max_inflight > 1)
    }

    /// Whether activations can be handed to a writer of their own.
    pub fn has_forwarder(&self) -> (has: bool)
        ensures
            has == self.forwards_async(),
    {
        self.downstream && (self.async_prefill_forward || self.max_inflight > 1)
    }
}

/// How an activation leaves for the downstream stage.
#[derive(Clone, Copy, PartialEq, Eq, Structural, Debug)]
pub enum ForwardMode {
    Nothing,
    AsyncEnqueue,
    SyncWrite,
}

/// What is known of a message once its tokens have been looked up.
#[derive(Clone, Copy, Debug)]
pub struct Work {
    pub message: StageMessage,
    pub token_count: usize,
    /// The tokens that the cache has already accounted for.
    pub restored_tokens: usize,
    pub restored: bool,
    /// The tokens that aligning the session cut off, where it was aligned.
    pub aligned: Option<u64>,
    pub pending_before: usize,
    pub credit_waits: usize,
    pub drained: usize,
    pub mode: ForwardMode,
}

/// What the connection waits for.
#[derive(Clone, Copy, Debug)]
pub enum Phase {
    /// The next message.
    Reading,
    /// The downstream acknowledgement of a stop.
    StopAck,
    /// The records of the sessions that a stop ends.
    RecordingSessions,
    /// The deferred replies that precede a control message.
    Draining(StageMessage),
    /// The downstream acknowledgement of a control message.
    ControlAck(StageMessage),
    /// The outcome of the local prefix cache.
    LocalCache(StageMessage),
    /// The downstream acknowledgement of a prefix cache control.
    CacheAck { message: StageMessage, hit: bool },
    /// The end of a restore that answers for itself.
    Delegated,
    /// The tokens of a message and what the cache holds of them.
    Preparing(StageMessage),
    /// The input of the computation, and whether it joins a batch.
    Input(Work),
    /// The computation.
    Executing(Work),
    /// The record of a computed prefill.
    RecordingPrefill(Work),
    /// The output, once the token sideband has been recorded.
    Output(Work),
    /// The deferred replies that precede a prediction.
    DrainingPredicted(Work),
    /// The downstream acknowledgement, where none may be deferred.
    Relay(Work),
    /// Room for one more deferred acknowledgement.
    Credit(Work),
    /// Nothing: the connection is over.
    Closed,
}

/// Why a connection fails.
#[derive(Clone, Copy, PartialEq, Eq, Structural, Debug)]
pub enum ConnectionError {
    Read,
    RecurrentState,
    StopWithDeferredReplies(usize),
    StopAck,
    SessionControlAck,
    GenerationConfigAck,
    PrefixCacheAck,
    StateImport,
    StateExport,
    StateMismatch,
    BatchPosition,
    EmptyActivation,
    DeferredAck,
    DownstreamAck,
    CreditAck,
}

/// What happened.
#[derive(Clone, Copy, Debug)]
pub enum Event {
    Message(StageMessage),
    /// No message could be read. `message_count` counts the messages that the
    /// running summary has seen.
    ReadFailed { eof: bool, message_count: u64 },
    Reply { ack: bool, lookup_hits: i64, lookup_misses: i64, lookup_errors: i64 },
    /// One of the sessions that a stop ends was recorded.
    SessionRecorded { pages: u64 },
    SessionsDone,
    LocalCache { hit: bool },
    RestoreDone,
    /// `aligned` holds the session's length before and after it was aligned.
    Prepared { token_count: usize, restored_tokens: usize, aligned: Option<(u64, u64)> },
    /// The input is there. `batched` tells whether the computation joins a
    /// batch, `first_token` is the first token that is left to compute.
    Input { batched: bool, first_token: Option<i32> },
    /// The message was computed; `accumulated` tells whether prefill tokens of
    /// its session were gathered.
    Executed { accumulated: bool },
    PrefillRecorded { pages: u64, activations: u64, activation_bytes: u64 },
    /// The output is there; `return_stream` tells whether predictions of this
    /// request have a stream of their own.
    Output { empty: bool, return_stream: bool },
}

/// How a message is to be computed.
#[derive(Clone, Copy, PartialEq, Eq, Structural, Debug)]
pub struct ExecutionPlan {
    /// The tokens that the cache has already accounted for.
    pub first_token: usize,
    /// The tokens that are left to compute.
    pub executable_tokens: usize,
    /// The prompt tokens from this message's position on.
    pub remaining_prompt: usize,
    /// Whether the last stage computes the final prefill.
    pub final_prefill: bool,
}

/// What the cache keeps of a computed prefill.
#[derive(Clone, Copy, PartialEq, Eq, Structural, Debug)]
pub enum PrefillScope {
    /// All gathered tokens of the session, and the output as a resident
    /// activation where `activation` says so.
    Session { activation: bool },
    /// The tokens of the message, of which so many were restored.
    Message { restored_tokens: usize },
}

/// What the request summary is told of a message.
#[derive(Clone, Copy, Debug)]
pub struct Observation {
    pub credit_limit: usize,
    pub pending_before: usize,
    pub pending_after: usize,
    pub credit_waits: usize,
    pub drained: usize,
    pub align_count: usize,
    pub aligned_tokens: u64,
    pub mode: ForwardMode,
}

/// Where statistics gather.
#[derive(Clone, Copy, PartialEq, Eq, Structural, Debug)]
pub enum Register {
    Message,
    Pending,
}

/// What is to be done.
#[derive(Clone, Copy, Debug)]
pub enum Action {
    /// Emit the request summary and start a new one.
    EmitSummary,
    /// Wait until the asynchronous writer has written everything.
    FlushForwards,
    /// Write the message downstream as it came.
    ForwardMessage,
    /// Read one reply from downstream.
    AwaitReply,
    /// Move the pending statistics into the message's.
    TakePendingStats,
    /// Merge the statistics of the reply just read.
    MergeReply(Register),
    /// Merge the statistics of the local prefix cache.
    MergeLocal,
    /// Merge the statistics of the prefill lookup.
    MergeLookup,
    AddRecordedPages(u64),
    AddRecordedBytes(u64),
    /// Record the prefill tokens of every session of the connection.
    RecordSessions,
    /// Drop the session; a failure ends the connection.
    DropSession,
    /// Drop the session whatever comes of it.
    DropMissedSession,
    RemoveReturnStreams,
    TrimSession(u64),
    ConfigureSampling(u64),
    ConfigureReturnStream,
    RestorePrefillDecode,
    LocalCacheControl,
    TraceCacheControl(bool),
    /// Acknowledge a prefill before computing it.
    EarlyAck,
    /// Start the message's statistics afresh.
    BeginMessageStats,
    ReadTokens,
    AlignSession(u64),
    AccumulateTokens(usize),
    LookupPrefill,
    ReuseRestored,
    /// Decode the input activation, for the tokens from this one on.
    DecodeInput { first_token: usize },
    Execute(ExecutionPlan),
    /// Compute one token of the session at this position, in a batch.
    ExecuteBatched { position: u64, token: i32 },
    RecordPrefill(PrefillScope),
    RecordSideband,
    ForwardAsync,
    ForwardSync,
    RecordEdgeTransport,
    /// Merge the pending statistics into the message's and start them afresh.
    MergePendingStats,
    RecordVerifyTiming,
    /// Merge the message's statistics into the pending ones.
    CarryMessageStats,
    /// Acknowledge a control message with the message's statistics.
    Acknowledge,
    /// Acknowledge a computed message with the message's statistics.
    RelayAck,
    /// Send the prediction with the message's statistics.
    SendPrediction { many: bool, direct: bool },
    Observe(Observation),
    Finish,
    Fail(ConnectionError),
}

/// One upstream connection.
#[derive(Clone, Copy, Debug)]
pub struct Connection {
    pub config: ConnectionConfig,
    /// Downstream acknowledgements that are still outstanding.
    pub pending: usize,
    pub phase: Phase,
}

/// The value, or zero where it is negative.
pub open spec fn at_least_zero(value: i32) -> int {
    if value > 0 {
        value as int
    } else {
        0
    }
}

fn non_negative(value: i32) -> (result: u64)
    ensures
        result == at_least_zero(value),
{
    if value > 0 {
        value as u64
    } else {
        0
    }
}

impl StageMessage {
    /// Whether the message is acknowledged before it is computed.
    pub open spec fn early(self) -> bool {
        self.prefill && !self.requires_predicted
    }

    /// Whether the message is acknowledged before it is computed.
    pub fn acknowledged_early(&self) -> (early: bool)
        ensures
            early == self.early(),
    {
        self.prefill && !self.requires_predicted
    }

    /// Whether the message is a control message that waits for every deferred
    /// reply.
    pub open spec fn control(self) -> bool {
        self.kind is TrimSession || self.kind is GenerationControl || self.kind is TryRestorePrefill
            || self.kind is TryRestorePrefillDecode || self.kind is OtherPrefixCacheControl
    }

    /// Whether the message is to be computed.
    pub open spec fn computed(self) -> bool {
        self.kind is VerifyWindow || self.kind is PrefillFinalEmbd || self.kind is Other
    }
}

impl Work {
    /// What the request summary is told once the message is done.
    pub open spec fn observation(self, config: ConnectionConfig, pending: usize) -> Observation {
        Observation {
            credit_limit: config.credit(),
            pending_before: self.pending_before,
            pending_after: pending,
            credit_waits: self.credit_waits,
            drained: self.drained,
            align_count: if self.aligned is Some {
                1
            } else {
                0
            },
            aligned_tokens: match self.aligned {
                Some(tokens) => tokens,
                None => 0,
            },
            mode: self.mode,
        }
    }

    fn observe(&self, config: &ConnectionConfig, pending: usize) -> (observation: Observation)
        ensures
            observation == self.observation(*config, pending),
    {
        let align_count: usize = match self.aligned {
            Some(_) => 1,
            None => 0,
        };
        let aligned_tokens: u64 = match self.aligned {
            Some(tokens) => tokens,
            None => 0,
        };
        Observation {
            credit_limit: config.max_deferred_prefill_replies(),
            pending_before: self.pending_before,
            pending_after: pending,
            credit_waits: self.credit_waits,
            drained: self.drained,
            align_count,
            aligned_tokens,
            mode: self.mode,
        }
    }
}

/// The actions when `wanted`, and none otherwise.
pub open spec fn only_if(wanted: bool, action: Action) -> Seq<Action> {
    if wanted {
        seq![action]
    } else {
        seq![]
    }
}

/// How a message whose tokens have been looked up is computed.
pub open spec fn plan_of(
    config: ConnectionConfig,
    message: StageMessage,
    token_count: usize,
    restored_tokens: usize,
) -> ExecutionPlan {
    let first = if message.prefill && 0 < restored_tokens < token_count && config.layer_start == 0 {
        restored_tokens
    } else {
        0
    };
    let remaining = at_least_zero(message.prompt_token_count) - at_least_zero(message.pos_start);
    ExecutionPlan {
        first_token: first,
        executable_tokens: (token_count - first) as usize,
        remaining_prompt: if remaining > 0 {
            remaining as usize
        } else {
            0
        },
        final_prefill: message.kind is PrefillFinalEmbd && !config.downstream,
    }
}

fn execution_plan(
    config: &ConnectionConfig,
    message: &StageMessage,
    token_count: usize,
    restored_tokens: usize,
) -> (plan: ExecutionPlan)
    ensures
        plan == plan_of(*config, *message, token_count, restored_tokens),
{
    let first: usize = if message.prefill && 0 < restored_tokens && restored_tokens < token_count
        && config.layer_start == 0 {
        restored_tokens
    } else {
        0
    };
    let prompt: u64 = non_negative(message.prompt_token_count);
    let start: u64 = non_negative(message.pos_start);
    let remaining: usize = if prompt > start {
        (prompt - start) as usize
    } else {
        0
    };
    ExecutionPlan {
        first_token: first,
        executable_tokens: token_count - first,
        remaining_prompt: remaining,
        final_prefill: message.kind == MessageKind::PrefillFinalEmbd && !config.downstream,
    }
}

impl Work {
    /// How the message is computed on its own.
    pub open spec fn plan(self, config: ConnectionConfig) -> ExecutionPlan {
        plan_of(config, self.message, self.token_count, self.restored_tokens)
    }

    /// What the cache keeps of the computed prefill: all of the session where
    /// its tokens were gathered, with the activation where there is a cache and
    /// a stage to come, and else the message.
    pub open spec fn scope(self, config: ConnectionConfig, accumulated: bool) -> PrefillScope {
        if accumulated {
            PrefillScope::Session { activation: config.cache && config.downstream_configured }
        } else {
            PrefillScope::Message { restored_tokens: self.restored_tokens }
        }
    }
}

impl Connection {
    /// The connection in another phase.
    pub open spec fn at(self, phase: Phase) -> Connection {
        Connection { phase, ..self }
    }

    /// The connection after one more reply came in.
    pub open spec fn one_less(self) -> Connection {
        Connection { pending: (self.pending - 1) as usize, ..self }
    }

    /// The connection over, with an error.
    pub open spec fn failed(self, error: ConnectionError) -> (Connection, Seq<Action>) {
        (self.at(Phase::Closed), seq![Action::Fail(error)])
    }

    /// The end of a computed message.
    pub open spec fn done(self, work: Work, before: Seq<Action>) -> (Connection, Seq<Action>) {
        (
            self.at(Phase::Reading),
            before + seq![Action::Observe(work.observation(self.config, self.pending))],
        )
    }

    /// A control message once nothing is outstanding any more.
    pub open spec fn control_ready(self, message: StageMessage) -> (Connection, Seq<Action>) {
        let trim = only_if(
            message.kind is TrimSession,
            Action::TrimSession(at_least_zero(message.token_count) as u64),
        );
        if message.kind is TryRestorePrefillDecode {
            (self.at(Phase::Delegated), seq![Action::RestorePrefillDecode])
        } else if message.kind is TryRestorePrefill || message.kind is OtherPrefixCacheControl {
            (self.at(Phase::LocalCache(message)), seq![Action::LocalCacheControl])
        } else if self.config.downstream {
            (
                self.at(Phase::ControlAck(message)),
                trim + seq![Action::ForwardMessage].push(Action::AwaitReply),
            )
        } else if message.kind is TrimSession {
            (self.at(Phase::Reading), trim + seq![Action::Acknowledge])
        } else {
            (
                self.at(Phase::Reading),
                only_if(
                    message.chat_sampling,
                    Action::ConfigureSampling(at_least_zero(message.prompt_token_count) as u64),
                ) + seq![Action::ConfigureReturnStream].push(Action::Acknowledge),
            )
        }
    }

    /// The actions that begin a message that is to be computed.
    pub open spec fn begin(message: StageMessage) -> Seq<Action> {
        let align = match message.position {
            Some(target) => seq![Action::AlignSession(target)],
            None => seq![],
        };
        let accumulate = only_if(
            message.prefill,
            Action::AccumulateTokens(at_least_zero(message.pos_start) as usize),
        );
        only_if(message.early(), Action::EarlyAck) + seq![Action::BeginMessageStats].push(
            Action::ReadTokens,
        ) + align + accumulate + seq![Action::LookupPrefill]
    }

    /// What a new message leads to.
    pub open spec fn on_message(self, message: StageMessage) -> (Connection, Seq<Action>) {
        let flush = only_if(self.config.forwards_async(), Action::FlushForwards);
        if message.kind is VerifyWindow && self.config.recurrent_state {
            self.failed(ConnectionError::RecurrentState)
        } else if message.kind is Stop {
            if self.pending != 0 {
                self.failed(ConnectionError::StopWithDeferredReplies(self.pending))
            } else if self.config.downstream {
                (
                    self.at(Phase::StopAck),
                    seq![Action::TakePendingStats].push(Action::EmitSummary) + flush
                        + seq![Action::ForwardMessage].push(Action::AwaitReply),
                )
            } else {
                (
                    self.at(Phase::RecordingSessions),
                    seq![Action::TakePendingStats].push(Action::EmitSummary).push(Action::RecordSessions),
                )
            }
        } else if message.control() {
            if self.pending > 0 {
                (
                    self.at(Phase::Draining(message)),
                    seq![Action::TakePendingStats] + flush + seq![Action::AwaitReply],
                )
            } else {
                let (after, actions) = self.control_ready(message);
                (after, seq![Action::TakePendingStats] + flush + actions)
            }
        } else if message.kind is StateImport {
            self.failed(ConnectionError::StateImport)
        } else if message.kind is StateExport {
            self.failed(ConnectionError::StateExport)
        } else if !message.state_matches {
            self.failed(ConnectionError::StateMismatch)
        } else {
            (self.at(Phase::Preparing(message)), Self::begin(message))
        }
    }

    /// The computed message takes one credit and is answered.
    pub open spec fn take_credit(self, work: Work, before: Seq<Action>) -> (Connection, Seq<Action>) {
        let after = Connection { pending: (self.pending + 1) as usize, ..self };
        after.done(
            work,
            before + seq![
                if work.message.early() {
                    Action::CarryMessageStats
                } else {
                    Action::RelayAck
                },
            ],
        )
    }

    /// What follows once the output has left for the downstream stage.
    pub open spec fn settle(self, work: Work, before: Seq<Action>) -> (Connection, Seq<Action>) {
        if work.message.requires_predicted {
            if self.pending > 0 {
                (self.at(Phase::DrainingPredicted(work)), before + seq![Action::AwaitReply])
            } else {
                self.done(work, before)
            }
        } else if self.config.credit() == 0 {
            (self.at(Phase::Relay(work)), before + seq![Action::AwaitReply])
        } else if self.pending >= self.config.credit() {
            let waiting = Work { credit_waits: (work.credit_waits + 1) as usize, ..work };
            (self.at(Phase::Credit(waiting)), before + seq![Action::AwaitReply])
        } else {
            self.take_credit(work, before)
        }
    }

    /// Whether the output of a message is handed to the asynchronous writer.
    pub open spec fn enqueues(self, message: StageMessage) -> bool {
        ||| self.config.async_prefill_forward && message.early() && self.config.credit() > 0
        ||| message.kind is VerifyWindow && self.config.max_inflight > 1
    }

    /// What the output of a computed message leads to.
    pub open spec fn on_output(self, work: Work, empty: bool, return_stream: bool) -> (
        Connection,
        Seq<Action>,
    ) {
        let edge = only_if(
            work.message.prefill && self.config.downstream_configured,
            Action::RecordEdgeTransport,
        );
        let counted = Work { pending_before: self.pending, ..work };
        if self.config.downstream {
            if empty {
                self.failed(ConnectionError::EmptyActivation)
            } else if self.enqueues(work.message) {
                self.settle(
                    Work { mode: ForwardMode::AsyncEnqueue, ..counted },
                    seq![Action::ForwardAsync],
                )
            } else {
                self.settle(
                    Work { mode: ForwardMode::SyncWrite, ..counted },
                    only_if(self.config.forwards_async(), Action::FlushForwards) + seq![
                        Action::ForwardSync,
                    ],
                )
            }
        } else if work.message.requires_predicted {
            self.done(
                counted,
                edge + seq![Action::MergePendingStats] + only_if(
                    work.message.kind is VerifyWindow,
                    Action::RecordVerifyTiming,
                ) + seq![
                    Action::SendPrediction {
                        many: work.message.kind is VerifyWindow,
                        direct: return_stream,
                    },
                ],
            )
        } else if !work.message.early() {
            self.done(counted, edge + seq![Action::RelayAck])
        } else {
            self.done(counted, edge + seq![Action::CarryMessageStats])
        }
    }

    /// What a reply from downstream leads to.
    pub open spec fn on_reply(
        self,
        ack: bool,
        lookup_hits: i64,
        lookup_misses: i64,
        lookup_errors: i64,
    ) -> (Connection, Seq<Action>) {
        let to_message = seq![Action::MergeReply(Register::Message)];
        let to_pending = seq![Action::MergeReply(Register::Pending)];
        match self.phase {
            Phase::StopAck => if !ack {
                self.failed(ConnectionError::StopAck)
            } else {
                (self.at(Phase::RecordingSessions), to_message + seq![Action::RecordSessions])
            },
            Phase::Draining(message) => if !ack {
                self.failed(ConnectionError::DeferredAck)
            } else if self.pending > 1 {
                (self.one_less(), to_message + seq![Action::AwaitReply])
            } else {
                let (after, actions) = self.one_less().control_ready(message);
                (after, to_message + actions)
            },
            Phase::ControlAck(message) => if !ack {
                self.failed(
                    if message.kind is TrimSession {
                        ConnectionError::SessionControlAck
                    } else {
                        ConnectionError::GenerationConfigAck
                    },
                )
            } else {
                (self.at(Phase::Reading), to_message + seq![Action::Acknowledge])
            },
            Phase::CacheAck { message, hit } => if !ack {
                self.failed(ConnectionError::PrefixCacheAck)
            } else {
                (
                    self.at(Phase::Reading),
                    to_message + only_if(
                        message.kind is TryRestorePrefill && (lookup_misses > 0 || lookup_errors > 0
                            || lookup_hits == 0),
                        Action::DropMissedSession,
                    ) + seq![Action::TraceCacheControl(hit)].push(Action::Acknowledge),
                )
            },
            Phase::DrainingPredicted(work) => {
                let counted = Work { drained: (work.drained + 1) as usize, ..work };
                if !ack {
                    self.failed(ConnectionError::DeferredAck)
                } else if self.pending > 1 {
                    (
                        self.one_less().at(Phase::DrainingPredicted(counted)),
                        to_pending + seq![Action::AwaitReply],
                    )
                } else {
                    self.one_less().done(counted, to_pending)
                }
            },
            Phase::Relay(work) => if !ack {
                self.failed(ConnectionError::DownstreamAck)
            } else {
                self.done(
                    work,
                    to_message + seq![
                        if work.message.early() {
                            Action::CarryMessageStats
                        } else {
                            Action::RelayAck
                        },
                    ],
                )
            },
            Phase::Credit(work) => {
                let counted = Work { drained: (work.drained + 1) as usize, ..work };
                if !ack {
                    self.failed(ConnectionError::CreditAck)
                } else {
                    self.one_less().take_credit(counted, to_pending)
                }
            },
            _ => (self, seq![]),
        }
    }

    /// What an event leads to: the connection after it, and the actions.
    pub open spec fn next(self, event: Event) -> (Connection, Seq<Action>) {
        match (event, self.phase) {
            (Event::Message(message), _) => self.on_message(message),
            (Event::ReadFailed { eof, message_count }, _) => if eof && self.pending == 0
                && message_count == 0 {
                (self.at(Phase::Closed), seq![Action::Finish])
            } else {
                self.failed(ConnectionError::Read)
            },
            (Event::Reply { ack, lookup_hits, lookup_misses, lookup_errors }, _) => self.on_reply(
                ack,
                lookup_hits,
                lookup_misses,
                lookup_errors,
            ),
            (Event::SessionRecorded { pages }, _) => (
                self,
                only_if(pages > 0, Action::AddRecordedPages(pages)),
            ),
            (Event::SessionsDone, _) => (
                self.at(Phase::Reading),
                seq![Action::DropSession].push(Action::RemoveReturnStreams).push(Action::Acknowledge),
            ),
            (Event::LocalCache { hit }, Phase::LocalCache(message)) => if hit
                && self.config.downstream {
                (
                    self.at(Phase::CacheAck { message, hit }),
                    seq![Action::MergeLocal].push(Action::ForwardMessage).push(Action::AwaitReply),
                )
            } else {
                (
                    self.at(Phase::Reading),
                    seq![Action::MergeLocal].push(Action::TraceCacheControl(hit)).push(Action::Acknowledge),
                )
            },
            (Event::RestoreDone, _) => (self.at(Phase::Reading), seq![]),
            (
                Event::Prepared { token_count, restored_tokens, aligned },
                Phase::Preparing(message),
            ) => {
                let restored = restored_tokens >= token_count && token_count != 0;
                let work = Work {
                    message,
                    token_count,
                    restored_tokens,
                    restored,
                    aligned: match aligned {
                        Some((before, after)) => Some(
                            if before > after {
                                (before - after) as u64
                            } else {
                                0
                            },
                        ),
                        None => None,
                    },
                    pending_before: 0,
                    credit_waits: 0,
                    drained: 0,
                    mode: ForwardMode::Nothing,
                };
                if restored {
                    (
                        self.at(Phase::Output(work)),
                        seq![Action::MergeLookup].push(Action::ReuseRestored).push(Action::RecordSideband),
                    )
                } else {
                    (
                        self.at(Phase::Input(work)),
                        seq![Action::MergeLookup].push(
                            Action::DecodeInput { first_token: work.plan(self.config).first_token },
                        ),
                    )
                }
            },
            (Event::Input { batched, first_token }, Phase::Input(work)) => if !batched {
                (
                    self.at(Phase::Executing(work)),
                    seq![Action::Execute(work.plan(self.config))],
                )
            } else {
                match work.message.position {
                    Some(position) => (
                        self.at(Phase::Executing(work)),
                        seq![
                            Action::ExecuteBatched {
                                position,
                                token: match first_token {
                                    Some(token) => token,
                                    None => work.message.current_token,
                                },
                            },
                        ],
                    ),
                    None => self.failed(ConnectionError::BatchPosition),
                }
            },
            (Event::Executed { accumulated }, Phase::Executing(work)) => if work.message.prefill {
                (
                    self.at(Phase::RecordingPrefill(work)),
                    seq![Action::RecordPrefill(work.scope(self.config, accumulated))],
                )
            } else {
                (self.at(Phase::Output(work)), seq![Action::RecordSideband])
            },
            (
                Event::PrefillRecorded { pages, activations, activation_bytes },
                Phase::RecordingPrefill(work),
            ) => (
                self.at(Phase::Output(work)),
                only_if(pages > 0, Action::AddRecordedPages(pages)) + only_if(
                    activations > 0,
                    Action::AddRecordedBytes(activation_bytes),
                ) + seq![Action::RecordSideband],
            ),
            (Event::Output { empty, return_stream }, Phase::Output(work)) => self.on_output(
                work,
                empty,
                return_stream,
            ),
            _ => (self, seq![]),
        }
    }

    /// Whether the connection waits for such an event.
    pub open spec fn awaits(self, event: Event) -> bool {
        match self.phase {
            Phase::Reading => event is Message || event is ReadFailed,
            Phase::StopAck => event is Reply,
            Phase::RecordingSessions => event is SessionRecorded || event is SessionsDone,
            Phase::Draining(_) => event is Reply,
            Phase::ControlAck(_) => event is Reply,
            Phase::LocalCache(_) => event is LocalCache,
            Phase::CacheAck { .. } => event is Reply,
            Phase::Delegated => event is RestoreDone,
            Phase::Preparing(_) => event is Prepared,
            Phase::Input(_) => event is Input,
            Phase::Executing(_) => event is Executed,
            Phase::RecordingPrefill(_) => event is PrefillRecorded,
            Phase::Output(_) => event is Output,
            Phase::DrainingPredicted(_) => event is Reply,
            Phase::Relay(_) => event is Reply,
            Phase::Credit(_) => event is Reply,
            Phase::Closed => false,
        }
    }

    /// What holds of a connection at all times: no more acknowledgements are
    /// outstanding than the credit allows, none without a downstream stage,
    /// and none while a control message is being served.
    pub open spec fn valid(self) -> bool {
        &&& self.pending <= self.config.credit()
        &&& !self.config.downstream ==> self.pending == 0
        &&& match self.phase {
            Phase::StopAck => self.pending == 0 && self.config.downstream,
            Phase::RecordingSessions => self.pending == 0,
            Phase::Draining(message) => self.pending > 0 && message.control(),
            Phase::ControlAck(message) => self.pending == 0 && self.config.downstream
                && message.control(),
            Phase::LocalCache(message) => self.pending == 0 && message.control(),
            Phase::CacheAck { message, .. } => self.pending == 0 && self.config.downstream
                && message.control(),
            Phase::Delegated => self.pending == 0,
            Phase::Preparing(message) => message.computed() && message.state_matches,
            Phase::Input(work) => work.fresh() && !work.restored,
            Phase::Executing(work) => work.fresh() && !work.restored,
            Phase::RecordingPrefill(work) => work.fresh() && !work.restored && work.message.prefill,
            Phase::Output(work) => work.fresh(),
            Phase::DrainingPredicted(work) => {
                &&& self.config.downstream
                &&& work.message.computed()
                &&& work.message.requires_predicted
                &&& self.pending > 0
                &&& self.pending + work.drained == work.pending_before
                &&& work.credit_waits == 0
            },
            Phase::Relay(work) => {
                &&& self.config.downstream
                &&& work.message.computed()
                &&& !work.message.requires_predicted
                &&& self.config.credit() == 0
                &&& work.drained == 0
                &&& work.credit_waits == 0
            },
            Phase::Credit(work) => {
                &&& self.config.downstream
                &&& work.message.computed()
                &&& !work.message.requires_predicted
                &&& self.pending == self.config.credit()
                &&& self.pending > 0
                &&& work.drained == 0
                &&& work.credit_waits == 1
                &&& work.pending_before == self.pending
            },
            _ => true,
        }
    }
}

impl Work {
    /// Whether nothing has been forwarded yet for a message to be computed.
    pub open spec fn fresh(self) -> bool {
        &&& self.message.computed()
        &&& self.pending_before == 0
        &&& self.credit_waits == 0
        &&& self.drained == 0
        &&& self.mode is Nothing
    }
}

fn push_if(actions: &mut Vec<Action>, wanted: bool, action: Action)
    ensures
        final(actions)@ == old(actions)@ + only_if(wanted, action),
{
    if wanted {
        actions.push(action);
    }
    assert(actions@ =~= old(actions)@ + only_if(wanted, action));
}

impl Connection {
    /// A connection that has yet to read its first message.
    pub fn new(config: ConnectionConfig) -> (connection: Connection)
        ensures
            connection.valid(),
            connection == (Connection { config, pending: 0, phase: Phase::Reading }),
    {
        Connection { config, pending: 0, phase: Phase::Reading }
    }

    /// Whether the connection waits for such an event.
    pub fn accepts(&self, event: &Event) -> (accepts: bool)
        ensures
            accepts == self.awaits(*event),
    {
        match self.phase {
            Phase::Reading => match event {
                Event::Message(_) => true,
                Event::ReadFailed { .. } => true,
                _ => false,
            },
            Phase::RecordingSessions => match event {
                Event::SessionRecorded { .. } => true,
                Event::SessionsDone => true,
                _ => false,
            },
            Phase::LocalCache(_) => matches!(event, Event::LocalCache { .. }),
            Phase::Delegated => matches!(event, Event::RestoreDone),
            Phase::Preparing(_) => matches!(event, Event::Prepared { .. }),
            Phase::Input(_) => matches!(event, Event::Input { .. }),
            Phase::Executing(_) => matches!(event, Event::Executed { .. }),
            Phase::RecordingPrefill(_) => matches!(event, Event::PrefillRecorded { .. }),
            Phase::Output(_) => matches!(event, Event::Output { .. }),
            Phase::Closed => false,
            _ => matches!(event, Event::Reply { .. }),
        }
    }

    fn fail(&mut self, error: ConnectionError) -> (actions: Vec<Action>)
        ensures
            (*final(self), actions@) == old(self).failed(error),
    {
        self.phase = Phase::Closed;
        let mut actions: Vec<Action> = Vec::new();
        actions.push(Action::Fail(error));
        assert(actions@ =~= seq![Action::Fail(error)]);
        actions
    }

    fn finish(&mut self, work: Work, actions: &mut Vec<Action>)
        ensures
            (*final(self), final(actions)@) == old(self).done(work, old(actions)@),
    {
        self.phase = Phase::Reading;
        let observation = work.observe(&self.config, self.pending);
        actions.push(Action::Observe(observation));
        assert(actions@ =~= old(actions)@ + seq![Action::Observe(observation)]);
    }

    fn serve_control(&mut self, message: StageMessage, actions: &mut Vec<Action>)
        requires
            message.control(),
        ensures
            (*final(self), final(actions)@) == (
                old(self).control_ready(message).0,
                old(actions)@ + old(self).control_ready(message).1,
            ),
    {
        let ghost before = actions@;
        match message.kind {
            MessageKind::TryRestorePrefillDecode => {
                self.phase = Phase::Delegated;
                actions.push(Action::RestorePrefillDecode);
            },
            MessageKind::TryRestorePrefill | MessageKind::OtherPrefixCacheControl => {
                self.phase = Phase::LocalCache(message);
                actions.push(Action::LocalCacheControl);
            },
            _ => {
                let trims = message.kind == MessageKind::TrimSession;
                if trims {
                    actions.push(Action::TrimSession(non_negative(message.token_count)));
                }
                if self.config.downstream {
                    self.phase = Phase::ControlAck(message);
                    actions.push(Action::ForwardMessage);
                    actions.push(Action::AwaitReply);
                } else {
                    self.phase = Phase::Reading;
                    if !trims {
                        push_if(
                            actions,
                            message.chat_sampling,
                            Action::ConfigureSampling(non_negative(message.prompt_token_count)),
                        );
                        actions.push(Action::ConfigureReturnStream);
                    }
                    actions.push(Action::Acknowledge);
                }
            },
        }
        assert(actions@ =~= before + old(self).control_ready(message).1);
    }

    fn begin_work(message: &StageMessage) -> (actions: Vec<Action>)
        ensures
            actions@ == Self::begin(*message),
    {
        let mut actions: Vec<Action> = Vec::new();
        push_if(&mut actions, message.acknowledged_early(), Action::EarlyAck);
        actions.push(Action::BeginMessageStats);
        actions.push(Action::ReadTokens);
        match message.position {
            Some(target) => {
                actions.push(Action::AlignSession(target));
            },
            None => {},
        }
        push_if(
            &mut actions,
            message.prefill,
            Action::AccumulateTokens(non_negative(message.pos_start) as usize),
        );
        actions.push(Action::LookupPrefill);
        assert(actions@ =~= Self::begin(*message));
        actions
    }

    fn receive(&mut self, message: StageMessage) -> (actions: Vec<Action>)
        requires
            old(self).valid(),
            old(self).phase is Reading,
        ensures
            (*final(self), actions@) == old(self).on_message(message),
            final(self).valid(),
    {
        if message.kind == MessageKind::VerifyWindow && self.config.recurrent_state {
            return self.fail(ConnectionError::RecurrentState);
        }
        let mut actions: Vec<Action> = Vec::new();
        match message.kind {
            MessageKind::Stop => {
                if self.pending != 0 {
                    let pending: usize = self.pending;
                    return self.fail(ConnectionError::StopWithDeferredReplies(pending));
                }
                actions.push(Action::TakePendingStats);
                actions.push(Action::EmitSummary);
                if self.config.downstream {
                    push_if(&mut actions, self.config.has_forwarder(), Action::FlushForwards);
                    actions.push(Action::ForwardMessage);
                    actions.push(Action::AwaitReply);
                    self.phase = Phase::StopAck;
                } else {
                    actions.push(Action::RecordSessions);
                    self.phase = Phase::RecordingSessions;
                }
                assert(actions@ =~= old(self).on_message(message).1);
                actions
            },
            MessageKind::TrimSession
            | MessageKind::GenerationControl
            | MessageKind::TryRestorePrefill
            | MessageKind::TryRestorePrefillDecode
            | MessageKind::OtherPrefixCacheControl => {
                actions.push(Action::TakePendingStats);
                push_if(&mut actions, self.config.has_forwarder(), Action::FlushForwards);
                if self.pending > 0 {
                    actions.push(Action::AwaitReply);
                    self.phase = Phase::Draining(message);
                } else {
                    self.serve_control(message, &mut actions);
                }
                assert(actions@ =~= old(self).on_message(message).1);
                actions
            },
            MessageKind::StateImport => self.fail(ConnectionError::StateImport),
            MessageKind::StateExport => self.fail(ConnectionError::StateExport),
            _ => {
                if !message.state_matches {
                    return self.fail(ConnectionError::StateMismatch);
                }
                self.phase = Phase::Preparing(message);
                Self::begin_work(&message)
            },
        }
    }

    fn use_credit(&mut self, work: Work, actions: &mut Vec<Action>)
        requires
            old(self).pending < usize::MAX,
        ensures
            (*final(self), final(actions)@) == old(self).take_credit(work, old(actions)@),
    {
        let ghost before = actions@;
        self.pending = self.pending + 1;
        if work.message.acknowledged_early() {
            actions.push(Action::CarryMessageStats);
        } else {
            actions.push(Action::RelayAck);
        }
        assert(actions@ =~= before + seq![
            if work.message.early() {
                Action::CarryMessageStats
            } else {
                Action::RelayAck
            },
        ]);
        self.finish(work, actions);
    }

    fn settle_forward(&mut self, work: Work, actions: &mut Vec<Action>)
        requires
            old(self).valid(),
            old(self).config.downstream,
            work.message.computed(),
            work.credit_waits == 0,
            work.drained == 0,
            work.pending_before == old(self).pending,
        ensures
            (*final(self), final(actions)@) == old(self).settle(work, old(actions)@),
            final(self).valid(),
    {
        let ghost before = actions@;
        let credit: usize = self.config.max_deferred_prefill_replies();
        if work.message.requires_predicted {
            if self.pending > 0 {
                self.phase = Phase::DrainingPredicted(work);
                actions.push(Action::AwaitReply);
            } else {
                self.finish(work, actions);
            }
        } else if credit == 0 {
            self.phase = Phase::Relay(work);
            actions.push(Action::AwaitReply);
        } else if self.pending >= credit {
            self.phase = Phase::Credit(Work { credit_waits: work.credit_waits + 1, ..work });
            actions.push(Action::AwaitReply);
        } else {
            self.use_credit(work, actions);
        }
        assert(actions@ =~= old(self).settle(work, before).1);
    }

    fn forward_output(&mut self, work: Work, empty: bool, return_stream: bool) -> (actions: Vec<
        Action,
    >)
        requires
            old(self).valid(),
            old(self).phase == Phase::Output(work),
        ensures
            (*final(self), actions@) == old(self).on_output(work, empty, return_stream),
            final(self).valid(),
    {
        let mut actions: Vec<Action> = Vec::new();
        if self.config.downstream {
            if empty {
                return self.fail(ConnectionError::EmptyActivation);
            }
            let credit: usize = self.config.max_deferred_prefill_replies();
            let enqueues = (self.config.async_prefill_forward && work.message.acknowledged_early()
                && credit > 0) || (work.message.kind == MessageKind::VerifyWindow
                && self.config.max_inflight > 1);
            if enqueues {
                actions.push(Action::ForwardAsync);
                assert(actions@ =~= seq![Action::ForwardAsync]);
                self.settle_forward(
                    Work { pending_before: self.pending, mode: ForwardMode::AsyncEnqueue, ..work },
                    &mut actions,
                );
            } else {
                push_if(&mut actions, self.config.has_forwarder(), Action::FlushForwards);
                actions.push(Action::ForwardSync);
                assert(actions@ =~= only_if(self.config.forwards_async(), Action::FlushForwards)
                    + seq![Action::ForwardSync]);
                self.settle_forward(
                    Work { pending_before: self.pending, mode: ForwardMode::SyncWrite, ..work },
                    &mut actions,
                );
            }
            return actions;
        }
        push_if(
            &mut actions,
            work.message.prefill && self.config.downstream_configured,
            Action::RecordEdgeTransport,
        );
        if work.message.requires_predicted {
            let verifies = work.message.kind == MessageKind::VerifyWindow;
            actions.push(Action::MergePendingStats);
            push_if(&mut actions, verifies, Action::RecordVerifyTiming);
            actions.push(Action::SendPrediction { many: verifies, direct: return_stream });
        } else if !work.message.acknowledged_early() {
            actions.push(Action::RelayAck);
        } else {
            actions.push(Action::CarryMessageStats);
        }
        self.finish(Work { pending_before: self.pending, ..work }, &mut actions);
        assert(actions@ =~= old(self).on_output(work, empty, return_stream).1);
        actions
    }

    fn reply(
        &mut self,
        ack: bool,
        lookup_hits: i64,
        lookup_misses: i64,
        lookup_errors: i64,
    ) -> (actions: Vec<Action>)
        requires
            old(self).valid(),
            forall|event: Event| event is Reply ==> old(self).awaits(event),
        ensures
            (*final(self), actions@) == old(self).on_reply(
                ack,
                lookup_hits,
                lookup_misses,
                lookup_errors,
            ),
            final(self).valid(),
    {
        let ghost before = *self;
        let ghost event = Event::Reply { ack, lookup_hits, lookup_misses, lookup_errors };
        assert(self.awaits(event));
        let mut actions: Vec<Action> = Vec::new();
        match self.phase {
            Phase::StopAck => {
                if !ack {
                    return self.fail(ConnectionError::StopAck);
                }
                actions.push(Action::MergeReply(Register::Message));
                actions.push(Action::RecordSessions);
                self.phase = Phase::RecordingSessions;
            },
            Phase::Draining(message) => {
                if !ack {
                    return self.fail(ConnectionError::DeferredAck);
                }
                actions.push(Action::MergeReply(Register::Message));
                self.pending = self.pending - 1;
                if self.pending > 0 {
                    actions.push(Action::AwaitReply);
                } else {
                    self.serve_control(message, &mut actions);
                }
            },
            Phase::ControlAck(message) => {
                if !ack {
                    let error = if message.kind == MessageKind::TrimSession {
                        ConnectionError::SessionControlAck
                    } else {
                        ConnectionError::GenerationConfigAck
                    };
                    return self.fail(error);
                }
                actions.push(Action::MergeReply(Register::Message));
                actions.push(Action::Acknowledge);
                self.phase = Phase::Reading;
            },
            Phase::CacheAck { message, hit } => {
                if !ack {
                    return self.fail(ConnectionError::PrefixCacheAck);
                }
                let missed = message.kind == MessageKind::TryRestorePrefill && (lookup_misses > 0
                    || lookup_errors > 0 || lookup_hits == 0);
                actions.push(Action::MergeReply(Register::Message));
                push_if(&mut actions, missed, Action::DropMissedSession);
                actions.push(Action::TraceCacheControl(hit));
                actions.push(Action::Acknowledge);
                self.phase = Phase::Reading;
            },
            Phase::DrainingPredicted(work) => {
                if !ack {
                    return self.fail(ConnectionError::DeferredAck);
                }
                let counted = Work { drained: work.drained + 1, ..work };
                actions.push(Action::MergeReply(Register::Pending));
                self.pending = self.pending - 1;
                if self.pending > 0 {
                    actions.push(Action::AwaitReply);
                    self.phase = Phase::DrainingPredicted(counted);
                } else {
                    self.finish(counted, &mut actions);
                }
            },
            Phase::Relay(work) => {
                if !ack {
                    return self.fail(ConnectionError::DownstreamAck);
                }
                actions.push(Action::MergeReply(Register::Message));
                if work.message.acknowledged_early() {
                    actions.push(Action::CarryMessageStats);
                } else {
                    actions.push(Action::RelayAck);
                }
                self.finish(work, &mut actions);
            },
            Phase::Credit(work) => {
                if !ack {
                    return self.fail(ConnectionError::CreditAck);
                }
                let counted = Work { drained: work.drained + 1, ..work };
                actions.push(Action::MergeReply(Register::Pending));
                self.pending = self.pending - 1;
                self.use_credit(counted, &mut actions);
            },
            _ => {},
        }
        assert(actions@ =~= before.on_reply(ack, lookup_hits, lookup_misses, lookup_errors).1);
        actions
    }

    fn prepared(
        &mut self,
        message: StageMessage,
        token_count: usize,
        restored_tokens: usize,
        aligned: Option<(u64, u64)>,
    ) -> (actions: Vec<Action>)
        requires
            old(self).valid(),
            old(self).phase == Phase::Preparing(message),
        ensures
            (*final(self), actions@) == old(self).next(
                Event::Prepared { token_count, restored_tokens, aligned },
            ),
            final(self).valid(),
    {
        let restored = restored_tokens >= token_count && token_count != 0;
        let trimmed: Option<u64> = match aligned {
            Some((before, after)) => if before > after {
                Some(before - after)
            } else {
                Some(0)
            },
            None => None,
        };
        let work = Work {
            message,
            token_count,
            restored_tokens,
            restored,
            aligned: trimmed,
            pending_before: 0,
            credit_waits: 0,
            drained: 0,
            mode: ForwardMode::Nothing,
        };
        let mut actions: Vec<Action> = Vec::new();
        actions.push(Action::MergeLookup);
        if restored {
            actions.push(Action::ReuseRestored);
            actions.push(Action::RecordSideband);
            self.phase = Phase::Output(work);
        } else {
            let plan = execution_plan(&self.config, &message, token_count, restored_tokens);
            actions.push(Action::DecodeInput { first_token: plan.first_token });
            self.phase = Phase::Input(work);
        }
        assert(actions@ =~= old(self).next(
            Event::Prepared { token_count, restored_tokens, aligned },
        ).1);
        actions
    }

    fn begin_execution(&mut self, work: Work, batched: bool, first_token: Option<i32>) -> (actions:
        Vec<Action>)
        requires
            old(self).valid(),
            old(self).phase == Phase::Input(work),
        ensures
            (*final(self), actions@) == old(self).next(Event::Input { batched, first_token }),
            final(self).valid(),
    {
        let mut actions: Vec<Action> = Vec::new();
        if !batched {
            actions.push(
                Action::Execute(
                    execution_plan(
                        &self.config,
                        &work.message,
                        work.token_count,
                        work.restored_tokens,
                    ),
                ),
            );
        } else {
            let token: i32 = match first_token {
                Some(token) => token,
                None => work.message.current_token,
            };
            match work.message.position {
                Some(position) => {
                    actions.push(Action::ExecuteBatched { position, token });
                },
                None => {
                    return self.fail(ConnectionError::BatchPosition);
                },
            }
        }
        self.phase = Phase::Executing(work);
        assert(actions@ =~= old(self).next(Event::Input { batched, first_token }).1);
        actions
    }

    /// Takes in an event and returns the actions to perform.
    pub fn step(&mut self, event: Event) -> (actions: Vec<Action>)
        requires
            old(self).valid(),
            old(self).awaits(event),
        ensures
            (*final(self), actions@) == old(self).next(event),
            final(self).valid(),
            final(self).config == old(self).config,
    {
        let ghost before = *self;
        let mut actions: Vec<Action> = Vec::new();
        match event {
            Event::Message(message) => {
                return self.receive(message);
            },
            Event::ReadFailed { eof, message_count } => {
                if eof && self.pending == 0 && message_count == 0 {
                    self.phase = Phase::Closed;
                    actions.push(Action::Finish);
                } else {
                    return self.fail(ConnectionError::Read);
                }
            },
            Event::Reply { ack, lookup_hits, lookup_misses, lookup_errors } => {
                return self.reply(ack, lookup_hits, lookup_misses, lookup_errors);
            },
            Event::SessionRecorded { pages } => {
                push_if(&mut actions, pages > 0, Action::AddRecordedPages(pages));
            },
            Event::SessionsDone => {
                actions.push(Action::DropSession);
                actions.push(Action::RemoveReturnStreams);
                actions.push(Action::Acknowledge);
                self.phase = Phase::Reading;
            },
            Event::LocalCache { hit } => {
                if let Phase::LocalCache(message) = self.phase {
                    actions.push(Action::MergeLocal);
                    if hit && self.config.downstream {
                        actions.push(Action::ForwardMessage);
                        actions.push(Action::AwaitReply);
                        self.phase = Phase::CacheAck { message, hit };
                    } else {
                        actions.push(Action::TraceCacheControl(hit));
                        actions.push(Action::Acknowledge);
                        self.phase = Phase::Reading;
                    }
                }
            },
            Event::RestoreDone => {
                self.phase = Phase::Reading;
            },
            Event::Prepared { token_count, restored_tokens, aligned } => {
                if let Phase::Preparing(message) = self.phase {
                    return self.prepared(message, token_count, restored_tokens, aligned);
                }
            },
            Event::Input { batched, first_token } => {
                if let Phase::Input(work) = self.phase {
                    return self.begin_execution(work, batched, first_token);
                }
            },
            Event::Executed { accumulated } => {
                if let Phase::Executing(work) = self.phase {
                    if work.message.prefill {
                        let scope = if accumulated {
                            PrefillScope::Session {
                                activation: self.config.cache && self.config.downstream_configured,
                            }
                        } else {
                            PrefillScope::Message { restored_tokens: work.restored_tokens }
                        };
                        actions.push(Action::RecordPrefill(scope));
                        self.phase = Phase::RecordingPrefill(work);
                    } else {
                        actions.push(Action::RecordSideband);
                        self.phase = Phase::Output(work);
                    }
                }
            },
            Event::PrefillRecorded { pages, activations, activation_bytes } => {
                if let Phase::RecordingPrefill(work) = self.phase {
                    push_if(&mut actions, pages > 0, Action::AddRecordedPages(pages));
                    push_if(
                        &mut actions,
                        activations > 0,
                        Action::AddRecordedBytes(activation_bytes),
                    );
                    actions.push(Action::RecordSideband);
                    self.phase = Phase::Output(work);
                }
            },
            Event::Output { empty, return_stream } => {
                if let Phase::Output(work) = self.phase {
                    return self.forward_output(work, empty, return_stream);
                }
            },
        }
        assert(actions@ =~= before.next(event).1);
        actions
    }
}

} // verus!
