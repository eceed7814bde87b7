//! A response stream: one request to the multi-agent API, its attempts, and what is
//! done about its failures.
//!
//! The stream is a state machine. A method takes what happened, changes the state
//! and returns, in order, the effects for the host to perform.
use crate::api::{
    AIApiError, AIApiErrorKind, AIIdentifiers, ErrorProfile, Event, RequestParams, ResponseEvent,
    ResponseEventType, StreamFinishedReason,
};
use crate::clock::{now, Timestamp};
use crate::consumable::Consumable;
use crate::ids::{random_uuid, RequestId, ResponseStreamId};
use crate::recovery::{recovery_action, RecoveryAction, MAX_RETRIES};
use vstd::prelude::*;

verus! {

/// Why a stream was cancelled.
#[derive(Debug, Clone, PartialEq, Eq)]
pub struct CancellationReason(pub String);

/// The identifier of a conversation.
#[derive(Debug, Clone, PartialEq, Eq)]
pub struct AIConversationId(pub String);

/// Cancellation context preserved for asynchronous event handling. It includes the
/// conversation, because truncation can remove exchange mappings before the event is
/// processed.
#[derive(Debug, Clone)]
pub struct StreamCancellation {
    pub reason: CancellationReason,
    pub conversation_id: AIConversationId,
}

/// What a stream tells its controller.
#[derive(Debug)]
pub enum ResponseStreamEvent {
    ReceivedEvent(Consumable<Event>),
    /// A retry is parked until connectivity returns (`waiting: true`) or has just
    /// fired (`waiting: false`). Always follows a recoverable request failure while
    /// offline. No `waiting: false` follows where the parked retry is dropped: because
    /// of a cancellation, or of client actions that arrived after all.
    WaitingForNetwork { waiting: bool },
    AfterStreamFinished {
        /// Some for cancellation (with context), None for natural completion.
        cancellation: Option<StreamCancellation>,
    },
}

/// What telemetry records.
#[derive(Debug)]
pub enum TelemetryEvent {
    AgentModeError {
        identifiers: AIIdentifiers,
        error: String,
        is_user_visible: bool,
        will_attempt_to_resume: bool,
    },
    AgentModeRequestRetrySucceeded {
        identifiers: AIIdentifiers,
        retry_count: usize,
        original_error: String,
    },
}

/// What crash reporting is told of a failure that is not retried.
#[derive(Debug)]
pub struct FailureReport {
    pub has_received_client_actions: bool,
    pub is_recoverable: bool,
    pub will_attempt_resume: bool,
    pub is_online: bool,
    pub retry_count: usize,
    pub error_kind: AIApiErrorKind,
    pub error_debug: String,
}

/// One thing for the host to do.
#[derive(Debug)]
pub enum Effect {
    /// Tell the controller.
    Emit(ResponseStreamEvent),
    /// Fire the cancellation signal of the attempt that is under way.
    SignalCancellation,
    /// Open a cancellation channel and send the request, with the stream's current
    /// parameters, as the given attempt.
    SpawnRequest { request_id: RequestId },
    /// Hand the request, with the stream's current parameters, to the API.
    SpawnGenerate { request_id: RequestId },
    /// Read the response of the given attempt, event by event, to its end.
    ConsumeResponse { request_id: RequestId },
    /// Wait for connectivity, then report it for the given attempt.
    WaitUntilOnline { request_id: Option<RequestId> },
    SendTelemetry(TelemetryEvent),
    ReportFailure(FailureReport),
    /// Report that a request could not be sent at all.
    ReportSendFailure { error_debug: String },
}

/// A response stream.
///
/// Retries are only attempted while no client actions have been received, so that
/// nothing is re-sent after the AI has started executing actions.
#[derive(Debug)]
pub struct ResponseStream {
    pub id: ResponseStreamId,
    pub params: RequestParams,
    pub retry_count: usize,
    pub start_time: Timestamp,
    /// Nanoseconds from the start to the latest event.
    pub time_to_latest_event: i128,
    /// Whether the current attempt can still be cancelled.
    pub cancellable: bool,
    /// The first error, for telemetry when a retry succeeds.
    pub original_error: Option<String>,
    /// Whether client actions have been received; if so, no retry is safe.
    pub has_received_client_actions: bool,
    pub ai_identifiers: AIIdentifiers,
    /// Whether this request can be followed by a resume on error. True for all
    /// requests except those that are themselves such a resume.
    pub can_attempt_resume_on_error: bool,
    /// Whether to resume the conversation after the stream finishes.
    pub should_resume_conversation_after_stream_finished: bool,
    /// Whether the event that ends a response was received for the current attempt.
    /// A response that completes without one was truncated in transit.
    pub stream_finished_received: bool,
    /// Whether a terminal error event has been emitted for the current attempt.
    pub error_event_emitted: bool,
    /// Whether a retry is parked waiting for connectivity. While set, completion of
    /// the failed attempt is ignored. Client actions that arrive after all make the
    /// retry unsafe: it is then no longer parked, and the attempt ends like any other.
    pub deferred_retry_pending: bool,
    /// The current attempt. Reports of any other attempt are ignored.
    pub current_request_id: Option<RequestId>,
}

/// What crash reporting is told of `error` in the given state.
pub open spec fn failure_report(
    stream: ResponseStream,
    error: AIApiError,
    is_online: bool,
) -> FailureReport {
    FailureReport {
        has_received_client_actions: stream.has_received_client_actions,
        is_recoverable: error.profile.is_recoverable,
        will_attempt_resume: stream.should_resume_conversation_after_stream_finished,
        is_online,
        retry_count: stream.retry_count,
        error_kind: error.kind,
        error_debug: error.profile.debug,
    }
}

/// The telemetry of an error that is retried: nothing that the user sees.
pub open spec fn retryable_error(stream: ResponseStream, debug: String) -> Effect {
    Effect::SendTelemetry(
        TelemetryEvent::AgentModeError {
            identifiers: stream.ai_identifiers,
            error: debug,
            is_user_visible: false,
            will_attempt_to_resume: false,
        },
    )
}

/// The effect that hands an event to the controller.
pub open spec fn received(event: Event) -> Effect {
    Effect::Emit(ResponseStreamEvent::ReceivedEvent(Consumable { value: Some(event) }))
}

/// The effect that tells the controller that the stream ended by itself.
pub open spec fn finished() -> Effect {
    Effect::Emit(ResponseStreamEvent::AfterStreamFinished { cancellation: None })
}

/// The state after a retry as attempt `fresh`: one more retry, and a clean slate for
/// the new attempt.
pub open spec fn retried(stream: ResponseStream, fresh: RequestId) -> ResponseStream {
    ResponseStream {
        retry_count: (stream.retry_count + 1) as usize,
        has_received_client_actions: false,
        stream_finished_received: false,
        error_event_emitted: false,
        deferred_retry_pending: false,
        cancellable: true,
        current_request_id: Some(fresh),
        ..stream
    }
}

/// The effects of a retry: the old attempt is cancelled, where it still can be, and
/// the new one is sent.
pub open spec fn retry_effects(stream: ResponseStream, fresh: RequestId) -> Seq<Effect> {
    let send = Effect::SpawnRequest { request_id: fresh };
    if stream.cancellable {
        seq![Effect::SignalCancellation, send]
    } else {
        seq![send]
    }
}

/// The effects of parking a retry.
pub open spec fn defer_effects(stream: ResponseStream) -> Seq<Effect> {
    seq![
        Effect::Emit(ResponseStreamEvent::WaitingForNetwork { waiting: true }),
        Effect::WaitUntilOnline { request_id: stream.current_request_id },
    ]
}

/// How the stream recovers from an error in its current state.
pub open spec fn chosen_recovery(
    stream: ResponseStream,
    is_recoverable: bool,
    is_online: bool,
) -> RecoveryAction {
    crate::recovery::recovery(
        stream.has_received_client_actions,
        is_recoverable,
        stream.retry_count < MAX_RETRIES,
        stream.can_attempt_resume_on_error,
        is_online,
    )
}

/// The state and effects of a failure of the current attempt.
pub open spec fn failure_step(
    stream: ResponseStream,
    error: AIApiError,
    is_online: bool,
    fresh: RequestId,
) -> (ResponseStream, Seq<Effect>) {
    let action = chosen_recovery(stream, error.profile.is_recoverable, is_online);
    if action is RetryNow {
        (
            retried(stream, fresh),
            seq![retryable_error(stream, error.profile.debug)] + retry_effects(stream, fresh),
        )
    } else if action is RetryWhenOnline {
        (
            ResponseStream { deferred_retry_pending: true, ..stream },
            seq![retryable_error(stream, error.profile.debug)] + defer_effects(stream),
        )
    } else {
        let next = ResponseStream {
            should_resume_conversation_after_stream_finished: stream.should_resume_conversation_after_stream_finished
                || action is Resume,
            error_event_emitted: true,
            ..stream
        };
        (
            next,
            seq![
                Effect::ReportFailure(failure_report(next, error, is_online)),
                received(Err(error)),
            ],
        )
    }
}

/// Whether the failure of the current attempt leaves it open: it is retried, now or
/// once connectivity returns.
pub open spec fn failure_is_retried(
    stream: ResponseStream,
    is_recoverable: bool,
    is_online: bool,
) -> bool {
    let action = chosen_recovery(stream, is_recoverable, is_online);
    action is RetryNow || action is RetryWhenOnline
}

/// Whether an event says that a response ended as it should.
pub open spec fn is_successful_finish(event: ResponseEvent) -> bool {
    &&& event.event_type matches Some(ResponseEventType::Finished(finish))
    &&& finish.reason matches Some(reason) ==> reason is Done
}

/// The state after a response event has been seen.
pub open spec fn after_response_event(
    stream: ResponseStream,
    event: ResponseEvent,
) -> ResponseStream {
    match event.event_type {
        Some(ResponseEventType::Init(init)) => ResponseStream {
            ai_identifiers: AIIdentifiers {
                server_output_id: Some(init.request_id),
                ..stream.ai_identifiers
            },
            ..stream
        },
        Some(ResponseEventType::ClientActions(_)) => ResponseStream {
            has_received_client_actions: true,
            deferred_retry_pending: false,
            ..stream
        },
        Some(ResponseEventType::Finished(_)) => ResponseStream {
            stream_finished_received: true,
            ..stream
        },
        None => stream,
    }
}

/// The effects of a response event: the event itself and, before it, where the
/// response succeeded after retries, the telemetry that says so.
pub open spec fn response_event_effects(stream: ResponseStream, event: ResponseEvent) -> Seq<
    Effect,
> {
    let hand_over = received(Ok(event));
    match stream.original_error {
        Some(original_error) if is_successful_finish(event) && stream.retry_count > 0 => seq![
            Effect::SendTelemetry(
                TelemetryEvent::AgentModeRequestRetrySucceeded {
                    identifiers: stream.ai_identifiers,
                    retry_count: stream.retry_count,
                    original_error,
                },
            ),
            hand_over,
        ],
        _ => seq![hand_over],
    }
}

/// The state and effects of an event that attempt `request_id` delivered at `moment`.
pub open spec fn event_step(
    stream: ResponseStream,
    request_id: RequestId,
    event: Event,
    is_online: bool,
    moment: Timestamp,
    fresh: RequestId,
) -> (ResponseStream, Seq<Effect>) {
    if stream.current_request_id != Some(request_id) {
        (stream, seq![])
    } else {
        let timed = ResponseStream {
            time_to_latest_event: (moment.total_nanos() - stream.start_time.total_nanos()) as i128,
            ..stream
        };
        match event {
            Ok(response_event) => (
                after_response_event(timed, response_event),
                response_event_effects(timed, response_event),
            ),
            Err(error) => {
                let noted = if timed.retry_count == 0 {
                    ResponseStream { original_error: Some(error.profile.debug), ..timed }
                } else {
                    timed
                };
                failure_step(noted, error, is_online, fresh)
            },
        }
    }
}

/// The error that stands for a response that was cut short.
pub open spec fn unexpected_eof(profile: ErrorProfile) -> AIApiError {
    AIApiError { kind: AIApiErrorKind::UnexpectedEof, profile }
}

/// The state and effects of the end of the response of attempt `request_id`.
pub open spec fn complete_step(
    stream: ResponseStream,
    request_id: RequestId,
    eof: ErrorProfile,
    is_online: bool,
    fresh: RequestId,
) -> (ResponseStream, Seq<Effect>) {
    if stream.current_request_id != Some(request_id) || stream.deferred_retry_pending {
        (stream, seq![])
    } else if stream.stream_finished_received || stream.error_event_emitted {
        (ResponseStream { cancellable: false, ..stream }, seq![finished()])
    } else {
        let (failed, effects) = failure_step(stream, unexpected_eof(eof), is_online, fresh);
        if failure_is_retried(stream, eof.is_recoverable, is_online) {
            (failed, effects)
        } else {
            (ResponseStream { cancellable: false, ..failed }, effects + seq![finished()])
        }
    }
}

/// The state and effects of an error that ends the stream without any recovery.
pub open spec fn terminal_error_step(
    stream: ResponseStream,
    request_id: RequestId,
    error: AIApiError,
    is_online: bool,
) -> (ResponseStream, Seq<Effect>) {
    let failed = ResponseStream { error_event_emitted: true, ..stream };
    let told = seq![
        Effect::ReportFailure(failure_report(failed, error, is_online)),
        received(Err(error)),
    ];
    if stream.current_request_id == Some(request_id) && !stream.deferred_retry_pending {
        (ResponseStream { cancellable: false, ..failed }, told + seq![finished()])
    } else {
        (failed, told)
    }
}

/// The state and effects of the return of connectivity for a retry that was parked
/// for `request_id_at_defer`.
pub open spec fn online_step(
    stream: ResponseStream,
    request_id_at_defer: Option<RequestId>,
    fresh: RequestId,
) -> (ResponseStream, Seq<Effect>) {
    if stream.awaits(request_id_at_defer) {
        (
            retried(stream, fresh),
            seq![Effect::Emit(ResponseStreamEvent::WaitingForNetwork { waiting: false })]
                + retry_effects(stream, fresh),
        )
    } else {
        (stream, seq![])
    }
}

impl ResponseStream {
    /// What holds of every stream: the retry budget is kept, also by the retry that
    /// may be parked; none is parked once client actions have been received; and a
    /// resume is only planned where one may be attempted.
    pub open spec fn well_formed(self) -> bool {
        &&& self.retry_count <= MAX_RETRIES
        &&& self.deferred_retry_pending ==> self.retry_count < MAX_RETRIES
            && !self.has_received_client_actions
        &&& self.should_resume_conversation_after_stream_finished
            ==> self.can_attempt_resume_on_error
    }

    /// What crash reporting is told of a failure.
    pub fn report_request_failure(&self, error: &AIApiError, is_online: bool) -> (report:
        FailureReport)
        ensures
            report == failure_report(*self, *error, is_online),
    {
        FailureReport {
            has_received_client_actions: self.has_received_client_actions,
            is_recoverable: error.profile.is_recoverable,
            will_attempt_resume: self.should_resume_conversation_after_stream_finished,
            is_online,
            retry_count: self.retry_count,
            error_kind: error.kind,
            error_debug: error.profile.debug.clone(),
        }
    }

    /// The telemetry of an error that is retried.
    pub fn emit_retryable_agent_mode_error_telemetry(&self, error: String) -> (effect: Effect)
        ensures
            effect == retryable_error(*self, error),
    {
        Effect::SendTelemetry(
            TelemetryEvent::AgentModeError {
                identifiers: self.ai_identifiers.duplicate(),
                error,
                is_user_visible: false,
                will_attempt_to_resume: false,
            },
        )
    }

    /// Re-sends the request as attempt `fresh`.
    fn retry_as(&mut self, fresh: RequestId, effects: &mut Vec<Effect>)
        requires
            old(self).retry_count < usize::MAX,
        ensures
            *final(self) == retried(*old(self), fresh),
            final(effects)@ == old(effects)@ + retry_effects(*old(self), fresh),
    {
        self.retry_count = self.retry_count + 1;
        self.has_received_client_actions = false;
        self.stream_finished_received = false;
        self.error_event_emitted = false;
        self.deferred_retry_pending = false;
        if self.cancellable {
            effects.push(Effect::SignalCancellation);
        }
        self.cancellable = true;
        self.current_request_id = Some(fresh);
        effects.push(Effect::SpawnRequest { request_id: fresh });
    }

    /// Re-sends the request as attempt `fresh`.
    pub fn retry_with(&mut self, fresh: RequestId) -> (effects: Vec<Effect>)
        requires
            old(self).retry_count < usize::MAX,
        ensures
            *final(self) == retried(*old(self), fresh),
            effects@ == retry_effects(*old(self), fresh),
    {
        let mut effects: Vec<Effect> = Vec::new();
        self.retry_as(fresh, &mut effects);
        effects
    }

    /// Re-sends the request as a fresh attempt.
    pub fn retry(&mut self) -> (effects: Vec<Effect>)
        requires
            old(self).retry_count < usize::MAX,
        ensures
            exists|fresh: u128|
                {
                    &&& crate::ids::is_random_uuid(fresh)
                    &&& *final(self) == #[trigger] retried(*old(self), RequestId(fresh))
                    &&& effects@ == retry_effects(*old(self), RequestId(fresh))
                },
    {
        let fresh: u128 = random_uuid();
        self.retry_with(RequestId(fresh))
    }

    /// Parks a retry until connectivity returns.
    fn defer_retry(&mut self, effects: &mut Vec<Effect>)
        ensures
            *final(self) == (ResponseStream { deferred_retry_pending: true, ..*old(self) }),
            final(effects)@ == old(effects)@ + defer_effects(*old(self)),
    {
        self.deferred_retry_pending = true;
        effects.push(Effect::Emit(ResponseStreamEvent::WaitingForNetwork { waiting: true }));
        effects.push(Effect::WaitUntilOnline { request_id: self.current_request_id });
    }

    /// Parks a retry until connectivity returns; a cancellation invalidates it.
    pub fn defer_retry_until_online(&mut self) -> (effects: Vec<Effect>)
        ensures
            *final(self) == (ResponseStream { deferred_retry_pending: true, ..*old(self) }),
            effects@ == defer_effects(*old(self)),
    {
        let mut effects: Vec<Effect> = Vec::new();
        self.defer_retry(&mut effects);
        effects
    }

    /// Whether a retry that was parked for the given attempt still stands: the attempt
    /// is the current one, and no client actions of it have been received.
    pub open spec fn awaits(self, request_id_at_defer: Option<RequestId>) -> bool {
        &&& request_id_at_defer is Some
        &&& self.current_request_id == request_id_at_defer
        &&& !self.has_received_client_actions
    }

    /// Fires, as attempt `fresh`, the retry that was parked for `request_id_at_defer`,
    /// unless that attempt was cancelled or superseded meanwhile, or client actions of
    /// it were received.
    pub fn connectivity_returned_with(
        &mut self,
        request_id_at_defer: Option<RequestId>,
        fresh: RequestId,
    ) -> (effects: Vec<Effect>)
        requires
            old(self).retry_count < usize::MAX,
        ensures
            (*final(self), effects@) == online_step(*old(self), request_id_at_defer, fresh),
    {
        let mut effects: Vec<Effect> = Vec::new();
        if request_id_at_defer.is_none() || self.current_request_id != request_id_at_defer {
            return effects;
        }
        if self.has_received_client_actions {
            return effects;
        }
        effects.push(Effect::Emit(ResponseStreamEvent::WaitingForNetwork { waiting: false }));
        self.retry_as(fresh, &mut effects);
        effects
    }

    /// Fires the retry that was parked for `request_id_at_defer`, unless that attempt
    /// was cancelled or superseded meanwhile, or client actions of it were received.
    pub fn connectivity_returned(&mut self, request_id_at_defer: Option<RequestId>) -> (effects:
        Vec<Effect>)
        requires
            old(self).retry_count < usize::MAX,
        ensures
            exists|fresh: u128|
                crate::ids::is_random_uuid(fresh) && (*final(self), effects@) == #[trigger] online_step(
                    *old(self),
                    request_id_at_defer,
                    RequestId(fresh),
                ),
    {
        let fresh: u128 = random_uuid();
        self.connectivity_returned_with(request_id_at_defer, RequestId(fresh))
    }

    /// Recovers from a failure of the current attempt, or surfaces it. Says whether
    /// the request is retried, now or later.
    fn recover(
        &mut self,
        error: AIApiError,
        is_online: bool,
        fresh: RequestId,
        effects: &mut Vec<Effect>,
    ) -> (retried: bool)
        ensures
            *final(self) == failure_step(*old(self), error, is_online, fresh).0,
            final(effects)@ == old(effects)@ + failure_step(*old(self), error, is_online, fresh).1,
            retried == failure_is_retried(*old(self), error.profile.is_recoverable, is_online),
    {
        let action = recovery_action(
            self.has_received_client_actions,
            error.profile.is_recoverable,
            self.retry_count < MAX_RETRIES,
            self.can_attempt_resume_on_error,
            is_online,
        );
        match action {
            RecoveryAction::RetryNow => {
                effects.push(
                    self.emit_retryable_agent_mode_error_telemetry(error.profile.debug.clone()),
                );
                self.retry_as(fresh, effects);
                return true;
            },
            RecoveryAction::RetryWhenOnline => {
                effects.push(
                    self.emit_retryable_agent_mode_error_telemetry(error.profile.debug.clone()),
                );
                self.defer_retry(effects);
                return true;
            },
            RecoveryAction::Resume => {
                self.should_resume_conversation_after_stream_finished = true;
            },
            RecoveryAction::Fail => {},
        }
        self.error_event_emitted = true;
        effects.push(Effect::ReportFailure(self.report_request_failure(&error, is_online)));
        effects.push(
            Effect::Emit(ResponseStreamEvent::ReceivedEvent(Consumable::new(Err(error)))),
        );
        false
    }

    /// Takes in an event that attempt `request_id` delivered at `moment`; a retry, if
    /// there is one, is attempt `fresh`.
    pub fn handle_response_stream_event_with(
        &mut self,
        request_id: RequestId,
        event: Event,
        is_online: bool,
        moment: Timestamp,
        fresh: RequestId,
    ) -> (effects: Vec<Effect>)
        ensures
            (*final(self), effects@) == event_step(
                *old(self),
                request_id,
                event,
                is_online,
                moment,
                fresh,
            ),
    {
        let mut effects: Vec<Effect> = Vec::new();
        if self.current_request_id != Some(request_id) {
            return effects;
        }
        self.time_to_latest_event = moment.signed_nanos_since(self.start_time);
        match event {
            Ok(response_event) => {
                match &response_event.event_type {
                    Some(ResponseEventType::Init(init)) => {
                        self.ai_identifiers.server_output_id = Some(init.request_id.clone());
                    },
                    Some(ResponseEventType::ClientActions(_)) => {
                        self.has_received_client_actions = true;
                        self.deferred_retry_pending = false;
                    },
                    Some(ResponseEventType::Finished(finish)) => {
                        self.stream_finished_received = true;
                        let succeeded = match &finish.reason {
                            Some(StreamFinishedReason::Done) => true,
                            None => true,
                            _ => false,
                        };
                        if succeeded && self.retry_count > 0 {
                            if let Some(original_error) = &self.original_error {
                                effects.push(
                                    Effect::SendTelemetry(
                                        TelemetryEvent::AgentModeRequestRetrySucceeded {
                                            identifiers: self.ai_identifiers.duplicate(),
                                            retry_count: self.retry_count,
                                            original_error: original_error.clone(),
                                        },
                                    ),
                                );
                            }
                        }
                    },
                    None => {},
                }
                effects.push(
                    Effect::Emit(
                        ResponseStreamEvent::ReceivedEvent(Consumable::new(Ok(response_event))),
                    ),
                );
            },
            Err(error) => {
                if self.retry_count == 0 {
                    self.original_error = Some(error.profile.debug.clone());
                }
                self.recover(error, is_online, fresh, &mut effects);
            },
        }
        effects
    }

    /// Takes in an event that attempt `request_id` delivered.
    pub fn handle_response_stream_event(
        &mut self,
        request_id: RequestId,
        event: Event,
        is_online: bool,
    ) -> (effects: Vec<Effect>)
        ensures
            exists|moment: Timestamp, fresh: u128|
                {
                    &&& crate::clock::is_reading(moment)
                    &&& crate::ids::is_random_uuid(fresh)
                    &&& (*final(self), effects@) == #[trigger] event_step(
                        *old(self),
                        request_id,
                        event,
                        is_online,
                        moment,
                        RequestId(fresh),
                    )
                },
    {
        let moment = now();
        let fresh: u128 = random_uuid();
        self.handle_response_stream_event_with(
            request_id,
            event,
            is_online,
            moment,
            RequestId(fresh),
        )
    }

    /// Takes in the end of the response of attempt `request_id`. A response that ends
    /// without the event that ends a response was cut short: `eof` is what the server
    /// API says of that, and a retry, if there is one, is attempt `fresh`.
    pub fn on_response_stream_complete_with(
        &mut self,
        request_id: RequestId,
        eof: ErrorProfile,
        is_online: bool,
        fresh: RequestId,
    ) -> (effects: Vec<Effect>)
        ensures
            (*final(self), effects@) == complete_step(
                *old(self),
                request_id,
                eof,
                is_online,
                fresh,
            ),
    {
        let mut effects: Vec<Effect> = Vec::new();
        if self.current_request_id != Some(request_id) {
            return effects;
        }
        if self.deferred_retry_pending {
            return effects;
        }
        if !self.stream_finished_received && !self.error_event_emitted {
            let error = AIApiError { kind: AIApiErrorKind::UnexpectedEof, profile: eof };
            if self.recover(error, is_online, fresh, &mut effects) {
                return effects;
            }
        }
        effects.push(
            Effect::Emit(ResponseStreamEvent::AfterStreamFinished { cancellation: None }),
        );
        self.cancellable = false;
        effects
    }

    /// Takes in the end of the response of attempt `request_id`.
    pub fn on_response_stream_complete(
        &mut self,
        request_id: RequestId,
        eof: ErrorProfile,
        is_online: bool,
    ) -> (effects: Vec<Effect>)
        ensures
            exists|fresh: u128|
                crate::ids::is_random_uuid(fresh) && (*final(self), effects@) == #[trigger] complete_step(
                    *old(self),
                    request_id,
                    eof,
                    is_online,
                    RequestId(fresh),
                ),
    {
        let fresh: u128 = random_uuid();
        self.on_response_stream_complete_with(request_id, eof, is_online, RequestId(fresh))
    }
}

/// Why a request could not be sent at all: the conversion error's debug text, and
/// what the server API says of the error that stands for it.
#[derive(Debug)]
pub struct SendFailure {
    pub conversion_debug: String,
    pub profile: ErrorProfile,
}

/// The state and effects of the outcome of sending attempt `request_id`.
pub open spec fn result_step(
    stream: ResponseStream,
    request_id: RequestId,
    result: Result<(), SendFailure>,
    is_online: bool,
) -> (ResponseStream, Seq<Effect>) {
    match result {
        Ok(_) => (stream, seq![Effect::ConsumeResponse { request_id }]),
        Err(failure) => {
            let reported = seq![
                Effect::ReportSendFailure { error_debug: failure.conversion_debug },
            ];
            if stream.current_request_id != Some(request_id) {
                (stream, reported)
            } else {
                let error = AIApiError { kind: AIApiErrorKind::Other, profile: failure.profile };
                let (next, effects) = terminal_error_step(stream, request_id, error, is_online);
                (next, reported + effects)
            }
        },
    }
}

/// The state and effects of a cancellation.
pub open spec fn cancel_step(
    stream: ResponseStream,
    reason: CancellationReason,
    conversation_id: AIConversationId,
) -> (ResponseStream, Seq<Effect>) {
    let next = ResponseStream { current_request_id: None, cancellable: false, ..stream };
    if stream.cancellable {
        (
            next,
            seq![
                Effect::SignalCancellation,
                Effect::Emit(
                    ResponseStreamEvent::AfterStreamFinished {
                        cancellation: Some(StreamCancellation { reason, conversation_id }),
                    },
                ),
            ],
        )
    } else {
        (next, seq![])
    }
}

/// A stream at its start.
pub open spec fn is_initial(stream: ResponseStream) -> bool {
    &&& stream.retry_count == 0
    &&& stream.time_to_latest_event == 0
    &&& stream.cancellable
    &&& stream.original_error is None
    &&& !stream.has_received_client_actions
    &&& !stream.should_resume_conversation_after_stream_finished
    &&& !stream.stream_finished_received
    &&& !stream.error_event_emitted
    &&& !stream.deferred_retry_pending
}

impl ResponseStream {
    /// Surfaces an error that is not recovered from, and completes the stream.
    fn end_in_error(
        &mut self,
        request_id: RequestId,
        error: AIApiError,
        is_online: bool,
        effects: &mut Vec<Effect>,
    )
        ensures
            *final(self) == terminal_error_step(*old(self), request_id, error, is_online).0,
            final(effects)@ == old(effects)@ + terminal_error_step(
                *old(self),
                request_id,
                error,
                is_online,
            ).1,
    {
        self.error_event_emitted = true;
        effects.push(Effect::ReportFailure(self.report_request_failure(&error, is_online)));
        effects.push(
            Effect::Emit(ResponseStreamEvent::ReceivedEvent(Consumable::new(Err(error)))),
        );
        if self.current_request_id == Some(request_id) && !self.deferred_retry_pending {
            effects.push(
                Effect::Emit(ResponseStreamEvent::AfterStreamFinished { cancellation: None }),
            );
            self.cancellable = false;
        }
    }

    /// Takes in the outcome of sending attempt `request_id`: a response to read, or a
    /// failure to convert the request. Such a failure is deterministic, so it is not
    /// retried: the error is surfaced as it is and the stream ends.
    pub fn handle_response_stream_result(
        &mut self,
        request_id: RequestId,
        stream_result: Result<(), SendFailure>,
        is_online: bool,
    ) -> (effects: Vec<Effect>)
        ensures
            (*final(self), effects@) == result_step(
                *old(self),
                request_id,
                stream_result,
                is_online,
            ),
    {
        let mut effects: Vec<Effect> = Vec::new();
        match stream_result {
            Ok(_) => {
                effects.push(Effect::ConsumeResponse { request_id });
            },
            Err(failure) => {
                effects.push(Effect::ReportSendFailure { error_debug: failure.conversion_debug });
                if self.current_request_id != Some(request_id) {
                    return effects;
                }
                let error = AIApiError::other(failure.profile);
                self.end_in_error(request_id, error, is_online, &mut effects);
            },
        }
        effects
    }

    /// Surfaces that the expired token of the request's subscription could not be
    /// refreshed, instead of sending the request with it. `profile` is what the
    /// server API says of that error.
    pub fn surface_grok_refresh_failure(
        &mut self,
        request_id: RequestId,
        profile: ErrorProfile,
        is_online: bool,
    ) -> (effects: Vec<Effect>)
        ensures
            (*final(self), effects@) == terminal_error_step(
                *old(self),
                request_id,
                AIApiError { kind: AIApiErrorKind::GrokSubscriptionTokenRefreshFailed, profile },
                is_online,
            ),
    {
        let mut effects: Vec<Effect> = Vec::new();
        let error = AIApiError {
            kind: AIApiErrorKind::GrokSubscriptionTokenRefreshFailed,
            profile,
        };
        self.end_in_error(request_id, error, is_online, &mut effects);
        effects
    }

    /// Cancels the stream. The conversation is kept in the emitted event for
    /// asynchronous handling.
    pub fn cancel(
        &mut self,
        reason: CancellationReason,
        conversation_id: AIConversationId,
    ) -> (effects: Vec<Effect>)
        ensures
            (*final(self), effects@) == cancel_step(*old(self), reason, conversation_id),
    {
        let mut effects: Vec<Effect> = Vec::new();
        self.current_request_id = None;
        if !self.cancellable {
            return effects;
        }
        self.cancellable = false;
        effects.push(Effect::SignalCancellation);
        effects.push(
            Effect::Emit(
                ResponseStreamEvent::AfterStreamFinished {
                    cancellation: Some(StreamCancellation { reason, conversation_id }),
                },
            ),
        );
        effects
    }

    /// A stream at its start, whose first attempt is `request_id`.
    pub fn start(
        id: ResponseStreamId,
        params: RequestParams,
        ai_identifiers: AIIdentifiers,
        can_attempt_resume_on_error: bool,
        start_time: Timestamp,
        request_id: RequestId,
    ) -> (stream: Self)
        ensures
            is_initial(stream),
            stream.id == id,
            stream.params == params,
            stream.ai_identifiers == ai_identifiers,
            stream.can_attempt_resume_on_error == can_attempt_resume_on_error,
            stream.start_time == start_time,
            stream.current_request_id == Some(request_id),
    {
        ResponseStream {
            id,
            params,
            retry_count: 0,
            start_time,
            time_to_latest_event: 0,
            cancellable: true,
            original_error: None,
            has_received_client_actions: false,
            ai_identifiers,
            can_attempt_resume_on_error,
            should_resume_conversation_after_stream_finished: false,
            stream_finished_received: false,
            error_event_emitted: false,
            deferred_retry_pending: false,
            current_request_id: Some(request_id),
        }
    }

    /// Opens a stream and sends its first attempt.
    pub fn new(
        params: RequestParams,
        ai_identifiers: AIIdentifiers,
        can_attempt_resume_on_error: bool,
    ) -> (opened: (Self, Vec<Effect>))
        ensures
            is_initial(opened.0),
            opened.0.well_formed(),
            opened.0.params == params,
            opened.0.ai_identifiers == ai_identifiers,
            opened.0.can_attempt_resume_on_error == can_attempt_resume_on_error,
            crate::clock::is_reading(opened.0.start_time),
            exists|uuid: u128|
                crate::ids::is_random_uuid(uuid) && opened.0.id@ == #[trigger] crate::ids::hyphenated(
                    uuid,
                ),
            opened.0.current_request_id matches Some(request_id)
                && crate::ids::is_random_uuid(request_id.0)
                && opened.1@ == seq![Effect::SpawnRequest { request_id }],
    {
        let request_id = RequestId(random_uuid());
        let id = ResponseStreamId::from_uuid(random_uuid());
        let stream = Self::start(
            id,
            params,
            ai_identifiers,
            can_attempt_resume_on_error,
            now(),
            request_id,
        );
        let mut effects: Vec<Effect> = Vec::new();
        effects.push(Effect::SpawnRequest { request_id });
        (stream, effects)
    }

    /// A stream at its start, with nothing sent.
    pub fn new_for_test(id: ResponseStreamId) -> (stream: Self)
        ensures
            is_initial(stream),
            stream.well_formed(),
            stream.id == id,
            crate::api::is_blank_request(stream.params),
            crate::clock::is_reading(stream.start_time),
            stream.ai_identifiers.server_output_id is None,
            stream.ai_identifiers.rest@.len() == 0,
            !stream.can_attempt_resume_on_error,
            stream.current_request_id matches Some(request_id)
                && crate::ids::is_random_uuid(request_id.0),
    {
        let request_id = RequestId(random_uuid());
        Self::start(
            id,
            RequestParams::new_for_test(),
            AIIdentifiers { server_output_id: None, rest: String::new() },
            false,
            now(),
            request_id,
        )
    }

    /// Emits a response event as if it had been received.
    pub fn emit_response_event_for_test(&mut self, event: ResponseEvent) -> (effects: Vec<Effect>)
        ensures
            *final(self) == *old(self),
            effects@ == seq![received(Ok(event))],
    {
        let mut effects: Vec<Effect> = Vec::new();
        effects.push(
            Effect::Emit(ResponseStreamEvent::ReceivedEvent(Consumable::new(Ok(event)))),
        );
        effects
    }

    /// The stream's identifier.
    pub fn id(&self) -> (id: &ResponseStreamId)
        ensures
            *id == self.id,
    {
        &self.id
    }

    /// Whether to resume the conversation after the stream finishes.
    pub fn should_resume_conversation_after_stream_finished(&self) -> (resume: bool)
        ensures
            resume == self.should_resume_conversation_after_stream_finished,
    {
        self.should_resume_conversation_after_stream_finished
    }
}

} // verus!
