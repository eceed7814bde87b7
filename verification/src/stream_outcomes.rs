//! What comes of each report to a response stream, case by case, in terms of what was
//! reported and what the stream had seen before.
use crate::api::{
    AIApiError, AIApiErrorKind, AIIdentifiers, ApiKeys, ErrorProfile, GoogleCloudCredentials,
    RequestParams, ResponseEvent, ResponseEventType, StreamFinishedReason,
};
use crate::clock::Timestamp;
use crate::consumable::Consumable;
use crate::ids::RequestId;
use crate::request::RefreshWait;
use crate::stream::{
    AIConversationId, CancellationReason, Effect, FailureReport, ResponseStream,
    ResponseStreamEvent, SendFailure, StreamCancellation, TelemetryEvent,
};
use vstd::prelude::*;

verus! {

/// An event of the current attempt is handed on as it is, at once and last; before it
/// only the telemetry of a success can come. It never sends, cancels or ends anything,
/// and the stream keeps its attempt.
pub proof fn response_events_are_handed_on(
    stream: ResponseStream,
    request_id: RequestId,
    event: ResponseEvent,
    is_online: bool,
    moment: Timestamp,
    fresh: RequestId,
)
    requires
        stream.current_request_id == Some(request_id),
    ensures
        ({
            let (next, effects) = crate::stream::event_step(
                stream,
                request_id,
                Ok(event),
                is_online,
                moment,
                fresh,
            );
            &&& 1 <= effects.len() <= 2
            &&& effects.last() == Effect::Emit(
                ResponseStreamEvent::ReceivedEvent(Consumable { value: Some(Ok(event)) }),
            )
            &&& effects.len() == 2 ==> effects[0] is SendTelemetry
            &&& next.time_to_latest_event == (moment.seconds - stream.start_time.seconds)
                * 1_000_000_000 + (moment.nanos - stream.start_time.nanos)
            &&& next == (ResponseStream {
                time_to_latest_event: next.time_to_latest_event,
                ai_identifiers: next.ai_identifiers,
                has_received_client_actions: next.has_received_client_actions,
                deferred_retry_pending: next.deferred_retry_pending,
                stream_finished_received: next.stream_finished_received,
                ..stream
            })
        }),
{
}

/// What the stream remembers of an event: the server's output id of an opening one,
/// that there were client actions, which also unparks a retry, and that the response
/// was ended; of any other event nothing.
pub proof fn response_events_are_remembered(
    stream: ResponseStream,
    request_id: RequestId,
    event: ResponseEvent,
    is_online: bool,
    moment: Timestamp,
    fresh: RequestId,
)
    requires
        stream.current_request_id == Some(request_id),
    ensures
        ({
            let next = crate::stream::event_step(
                stream,
                request_id,
                Ok(event),
                is_online,
                moment,
                fresh,
            ).0;
            let actions = event.event_type matches Some(ResponseEventType::ClientActions(_));
            let ended = event.event_type matches Some(ResponseEventType::Finished(_));
            &&& next.has_received_client_actions == (stream.has_received_client_actions || actions)
            &&& next.deferred_retry_pending == (stream.deferred_retry_pending && !actions)
            &&& next.stream_finished_received == (stream.stream_finished_received || ended)
            &&& next.ai_identifiers.rest == stream.ai_identifiers.rest
            &&& match event.event_type {
                Some(ResponseEventType::Init(init)) => next.ai_identifiers.server_output_id == Some(
                    init.request_id,
                ),
                _ => next.ai_identifiers == stream.ai_identifiers,
            }
        }),
{
}

/// The success of a retry is told, with the first error and the number of retries,
/// exactly on an event that ends the response as it should, after retries that an
/// error event started.
pub proof fn retry_successes_are_told(
    stream: ResponseStream,
    request_id: RequestId,
    event: ResponseEvent,
    is_online: bool,
    moment: Timestamp,
    fresh: RequestId,
)
    requires
        stream.current_request_id == Some(request_id),
    ensures
        ({
            let effects = crate::stream::event_step(
                stream,
                request_id,
                Ok(event),
                is_online,
                moment,
                fresh,
            ).1;
            let succeeded = match event.event_type {
                Some(ResponseEventType::Finished(finish)) => finish.reason is None
                    || finish.reason == Some(StreamFinishedReason::Done),
                _ => false,
            };
            let told = succeeded && stream.retry_count > 0 && stream.original_error is Some;
            &&& effects.len() == 2 <==> told
            &&& told ==> effects[0] == Effect::SendTelemetry(
                TelemetryEvent::AgentModeRequestRetrySucceeded {
                    identifiers: stream.ai_identifiers,
                    retry_count: stream.retry_count,
                    original_error: stream.original_error->0,
                },
            )
        }),
{
}

/// A transient error event of the current attempt, with budget left and nothing acted
/// on, while online: the request is re-sent at once as a clean attempt, the old one
/// is cancelled where it can be, and the controller sees nothing of it.
pub proof fn transient_errors_are_retried_at_once(
    stream: ResponseStream,
    request_id: RequestId,
    error: AIApiError,
    moment: Timestamp,
    fresh: RequestId,
)
    requires
        stream.current_request_id == Some(request_id),
        !stream.has_received_client_actions,
        error.profile.is_recoverable,
        stream.retry_count < 3,
    ensures
        ({
            let (next, effects) = crate::stream::event_step(
                stream,
                request_id,
                Err(error),
                true,
                moment,
                fresh,
            );
            let telemetry = Effect::SendTelemetry(
                TelemetryEvent::AgentModeError {
                    identifiers: stream.ai_identifiers,
                    error: error.profile.debug,
                    is_user_visible: false,
                    will_attempt_to_resume: false,
                },
            );
            let send = Effect::SpawnRequest { request_id: fresh };
            &&& effects == if stream.cancellable {
                seq![telemetry, Effect::SignalCancellation, send]
            } else {
                seq![telemetry, send]
            }
            &&& next.time_to_latest_event == (moment.seconds - stream.start_time.seconds)
                * 1_000_000_000 + (moment.nanos - stream.start_time.nanos)
            &&& next == (ResponseStream {
                retry_count: (stream.retry_count + 1) as usize,
                time_to_latest_event: next.time_to_latest_event,
                cancellable: true,
                original_error: if stream.retry_count == 0 {
                    Some(error.profile.debug)
                } else {
                    stream.original_error
                },
                stream_finished_received: false,
                error_event_emitted: false,
                deferred_retry_pending: false,
                current_request_id: Some(fresh),
                ..stream
            })
        }),
{
    let effects = crate::stream::event_step(
        stream,
        request_id,
        Err(error),
        true,
        moment,
        fresh,
    ).1;
    assert(effects.len() == if stream.cancellable {
        3nat
    } else {
        2
    });
}

/// The same error while offline: the retry is parked, which the controller is told,
/// and connectivity is waited for.
pub proof fn transient_errors_are_parked_while_offline(
    stream: ResponseStream,
    request_id: RequestId,
    error: AIApiError,
    moment: Timestamp,
    fresh: RequestId,
)
    requires
        stream.current_request_id == Some(request_id),
        !stream.has_received_client_actions,
        error.profile.is_recoverable,
        stream.retry_count < 3,
    ensures
        ({
            let (next, effects) = crate::stream::event_step(
                stream,
                request_id,
                Err(error),
                false,
                moment,
                fresh,
            );
            &&& effects == seq![
                Effect::SendTelemetry(
                    TelemetryEvent::AgentModeError {
                        identifiers: stream.ai_identifiers,
                        error: error.profile.debug,
                        is_user_visible: false,
                        will_attempt_to_resume: false,
                    },
                ),
                Effect::Emit(ResponseStreamEvent::WaitingForNetwork { waiting: true }),
                Effect::WaitUntilOnline { request_id: Some(request_id) },
            ]
            &&& next.time_to_latest_event == (moment.seconds - stream.start_time.seconds)
                * 1_000_000_000 + (moment.nanos - stream.start_time.nanos)
            &&& next == (ResponseStream {
                time_to_latest_event: next.time_to_latest_event,
                original_error: if stream.retry_count == 0 {
                    Some(error.profile.debug)
                } else {
                    stream.original_error
                },
                deferred_retry_pending: true,
                ..stream
            })
        }),
{
}

/// Any other error event of the current attempt is surfaced: it is reported as it is,
/// with what the stream knows, and handed to the controller. The conversation is to be
/// resumed exactly where the error is transient, client actions have been received and
/// a resume may be attempted: whether online or not, and whatever the error is.
pub proof fn other_errors_are_surfaced(
    stream: ResponseStream,
    request_id: RequestId,
    error: AIApiError,
    is_online: bool,
    moment: Timestamp,
    fresh: RequestId,
)
    requires
        stream.current_request_id == Some(request_id),
        stream.has_received_client_actions || !error.profile.is_recoverable || stream.retry_count
            >= 3,
    ensures
        ({
            let (next, effects) = crate::stream::event_step(
                stream,
                request_id,
                Err(error),
                is_online,
                moment,
                fresh,
            );
            let resumed = stream.should_resume_conversation_after_stream_finished || (
            stream.has_received_client_actions && error.profile.is_recoverable
                && stream.can_attempt_resume_on_error);
            &&& effects == seq![
                Effect::ReportFailure(
                    FailureReport {
                        has_received_client_actions: stream.has_received_client_actions,
                        is_recoverable: error.profile.is_recoverable,
                        will_attempt_resume: resumed,
                        is_online,
                        retry_count: stream.retry_count,
                        error_kind: error.kind,
                        error_debug: error.profile.debug,
                    },
                ),
                Effect::Emit(
                    ResponseStreamEvent::ReceivedEvent(Consumable { value: Some(Err(error)) }),
                ),
            ]
            &&& next.should_resume_conversation_after_stream_finished == resumed
            &&& next.time_to_latest_event == (moment.seconds - stream.start_time.seconds)
                * 1_000_000_000 + (moment.nanos - stream.start_time.nanos)
            &&& next == (ResponseStream {
                time_to_latest_event: next.time_to_latest_event,
                original_error: if stream.retry_count == 0 {
                    Some(error.profile.debug)
                } else {
                    stream.original_error
                },
                should_resume_conversation_after_stream_finished: resumed,
                error_event_emitted: true,
                ..stream
            })
        }),
{
}

/// After client actions, a transient failure of the current attempt plans a resume
/// wherever one may be attempted: be it an error event of any kind or a response that
/// was cut short, online or offline, with retries left or none.
pub proof fn failures_after_client_actions_plan_a_resume(
    stream: ResponseStream,
    request_id: RequestId,
    error: AIApiError,
    eof: ErrorProfile,
    is_online: bool,
    moment: Timestamp,
    fresh: RequestId,
)
    requires
        stream.current_request_id == Some(request_id),
        stream.has_received_client_actions,
        stream.can_attempt_resume_on_error,
    ensures
        error.profile.is_recoverable ==> crate::stream::event_step(
            stream,
            request_id,
            Err(error),
            is_online,
            moment,
            fresh,
        ).0.should_resume_conversation_after_stream_finished,
        eof.is_recoverable && !stream.deferred_retry_pending && !stream.stream_finished_received
            && !stream.error_event_emitted ==> crate::stream::complete_step(
            stream,
            request_id,
            eof,
            is_online,
            fresh,
        ).0.should_resume_conversation_after_stream_finished,
{
}

/// A response that is cut short, transiently, with budget left and nothing acted on:
/// the request is re-sent at once, or parked while offline.
pub proof fn truncations_are_retried(
    stream: ResponseStream,
    request_id: RequestId,
    eof: ErrorProfile,
    fresh: RequestId,
)
    requires
        stream.current_request_id == Some(request_id),
        !stream.deferred_retry_pending,
        !stream.stream_finished_received,
        !stream.error_event_emitted,
        !stream.has_received_client_actions,
        eof.is_recoverable,
        stream.retry_count < 3,
    ensures
        ({
            let telemetry = Effect::SendTelemetry(
                TelemetryEvent::AgentModeError {
                    identifiers: stream.ai_identifiers,
                    error: eof.debug,
                    is_user_visible: false,
                    will_attempt_to_resume: false,
                },
            );
            let send = Effect::SpawnRequest { request_id: fresh };
            &&& crate::stream::complete_step(stream, request_id, eof, true, fresh) == (
                ResponseStream {
                    retry_count: (stream.retry_count + 1) as usize,
                    cancellable: true,
                    current_request_id: Some(fresh),
                    ..stream
                },
                if stream.cancellable {
                    seq![telemetry, Effect::SignalCancellation, send]
                } else {
                    seq![telemetry, send]
                },
            )
            &&& crate::stream::complete_step(stream, request_id, eof, false, fresh) == (
                ResponseStream { deferred_retry_pending: true, ..stream },
                seq![
                    telemetry,
                    Effect::Emit(ResponseStreamEvent::WaitingForNetwork { waiting: true }),
                    Effect::WaitUntilOnline { request_id: Some(request_id) },
                ],
            )
        }),
{
    let effects = crate::stream::complete_step(stream, request_id, eof, true, fresh).1;
    let telemetry = Effect::SendTelemetry(
        TelemetryEvent::AgentModeError {
            identifiers: stream.ai_identifiers,
            error: eof.debug,
            is_user_visible: false,
            will_attempt_to_resume: false,
        },
    );
    let send = Effect::SpawnRequest { request_id: fresh };
    assert(effects =~= if stream.cancellable {
        seq![telemetry, Effect::SignalCancellation, send]
    } else {
        seq![telemetry, send]
    });
    let parked = crate::stream::complete_step(stream, request_id, eof, false, fresh).1;
    assert(parked =~= seq![
        telemetry,
        Effect::Emit(ResponseStreamEvent::WaitingForNetwork { waiting: true }),
        Effect::WaitUntilOnline { request_id: Some(request_id) },
    ]);
}

/// Any other response that is cut short is surfaced as such, and ends the stream; the
/// conversation is to be resumed exactly where the failure is transient, client
/// actions have been received and a resume may be attempted.
pub proof fn other_truncations_end_the_stream(
    stream: ResponseStream,
    request_id: RequestId,
    eof: ErrorProfile,
    is_online: bool,
    fresh: RequestId,
)
    requires
        stream.current_request_id == Some(request_id),
        !stream.deferred_retry_pending,
        !stream.stream_finished_received,
        !stream.error_event_emitted,
        stream.has_received_client_actions || !eof.is_recoverable || stream.retry_count >= 3,
    ensures
        ({
            let resumed = stream.should_resume_conversation_after_stream_finished || (
            stream.has_received_client_actions && eof.is_recoverable
                && stream.can_attempt_resume_on_error);
            let (next, effects) = crate::stream::complete_step(
                stream,
                request_id,
                eof,
                is_online,
                fresh,
            );
            &&& next == (ResponseStream {
                should_resume_conversation_after_stream_finished: resumed,
                error_event_emitted: true,
                cancellable: false,
                ..stream
            })
            &&& effects == seq![
                Effect::ReportFailure(
                    FailureReport {
                        has_received_client_actions: stream.has_received_client_actions,
                        is_recoverable: eof.is_recoverable,
                        will_attempt_resume: resumed,
                        is_online,
                        retry_count: stream.retry_count,
                        error_kind: AIApiErrorKind::UnexpectedEof,
                        error_debug: eof.debug,
                    },
                ),
                Effect::Emit(
                    ResponseStreamEvent::ReceivedEvent(
                        Consumable {
                            value: Some(
                                Err(
                                    AIApiError {
                                        kind: AIApiErrorKind::UnexpectedEof,
                                        profile: eof,
                                    },
                                ),
                            ),
                        },
                    ),
                ),
                Effect::Emit(ResponseStreamEvent::AfterStreamFinished { cancellation: None }),
            ]
        }),
{
}

/// A response that was ended, or whose failure was surfaced, ends the stream and
/// nothing else, unless a retry is parked.
pub proof fn ended_responses_end_the_stream(
    stream: ResponseStream,
    request_id: RequestId,
    eof: ErrorProfile,
    is_online: bool,
    fresh: RequestId,
)
    requires
        stream.current_request_id == Some(request_id),
        stream.stream_finished_received || stream.error_event_emitted,
    ensures
        crate::stream::complete_step(stream, request_id, eof, is_online, fresh).0 == if stream.deferred_retry_pending {
            stream
        } else {
            ResponseStream { cancellable: false, ..stream }
        },
        crate::stream::complete_step(stream, request_id, eof, is_online, fresh).1
            == if stream.deferred_retry_pending {
            Seq::<Effect>::empty()
        } else {
            seq![Effect::Emit(ResponseStreamEvent::AfterStreamFinished { cancellation: None })]
        },
{
}

/// Reports about an attempt that is not the current one do nothing.
pub proof fn superseded_attempts_are_silent(
    stream: ResponseStream,
    request_id: RequestId,
    event: crate::api::Event,
    eof: ErrorProfile,
    is_online: bool,
    moment: Timestamp,
    fresh: RequestId,
    wait: RefreshWait,
    token: Option<String>,
    credentials: Option<GoogleCloudCredentials>,
)
    requires
        stream.current_request_id != Some(request_id),
    ensures
        crate::stream::event_step(stream, request_id, event, is_online, moment, fresh) == (
            stream,
            Seq::<Effect>::empty(),
        ),
        crate::stream::complete_step(stream, request_id, eof, is_online, fresh) == (
            stream,
            Seq::<Effect>::empty(),
        ),
        crate::stream::online_step(stream, Some(request_id), fresh) == (
            stream,
            Seq::<Effect>::empty(),
        ),
        crate::request::grok_refresh_step(stream, request_id, wait, token, eof, is_online) == (
            stream,
            Seq::<Effect>::empty(),
        ),
        crate::request::geap_refresh_step(stream, request_id, wait, credentials) == (
            stream,
            Seq::<Effect>::empty(),
        ),
{
}

/// A request that was sent has its response read. One that could not be sent is
/// reported; on the current attempt the error is surfaced too, never retried or
/// resumed, and ends the stream, unless a retry is parked.
pub proof fn sends_are_followed_up(
    stream: ResponseStream,
    request_id: RequestId,
    failure: SendFailure,
    is_online: bool,
)
    ensures
        crate::stream::result_step(stream, request_id, Ok(()), is_online) == (
            stream,
            seq![Effect::ConsumeResponse { request_id }],
        ),
        ({
            let (next, effects) = crate::stream::result_step(
                stream,
                request_id,
                Err(failure),
                is_online,
            );
            let reported = Effect::ReportSendFailure { error_debug: failure.conversion_debug };
            let report = Effect::ReportFailure(
                FailureReport {
                    has_received_client_actions: stream.has_received_client_actions,
                    is_recoverable: failure.profile.is_recoverable,
                    will_attempt_resume: stream.should_resume_conversation_after_stream_finished,
                    is_online,
                    retry_count: stream.retry_count,
                    error_kind: AIApiErrorKind::Other,
                    error_debug: failure.profile.debug,
                },
            );
            let surfaced = Effect::Emit(
                ResponseStreamEvent::ReceivedEvent(
                    Consumable {
                        value: Some(
                            Err(
                                AIApiError {
                                    kind: AIApiErrorKind::Other,
                                    profile: failure.profile,
                                },
                            ),
                        ),
                    },
                ),
            );
            let over = Effect::Emit(
                ResponseStreamEvent::AfterStreamFinished { cancellation: None },
            );
            if stream.current_request_id != Some(request_id) {
                next == stream && effects == seq![reported]
            } else if stream.deferred_retry_pending {
                &&& next == (ResponseStream { error_event_emitted: true, ..stream })
                &&& effects == seq![reported, report, surfaced]
            } else {
                &&& next == (ResponseStream {
                    error_event_emitted: true,
                    cancellable: false,
                    ..stream
                })
                &&& effects == seq![reported, report, surfaced, over]
            }
        }),
{
    let effects = crate::stream::result_step(stream, request_id, Err(failure), is_online).1;
    assert(effects.len() <= 4);
}

/// When connectivity returns to the current attempt of a parked retry, and no client
/// actions of it have been received, the request is re-sent as a clean attempt;
/// otherwise nothing happens.
pub proof fn parked_retries_fire(
    stream: ResponseStream,
    waited: Option<RequestId>,
    fresh: RequestId,
)
    requires
        stream.retry_count < usize::MAX,
    ensures
        ({
            let (next, effects) = crate::stream::online_step(stream, waited, fresh);
            let told = Effect::Emit(ResponseStreamEvent::WaitingForNetwork { waiting: false });
            let send = Effect::SpawnRequest { request_id: fresh };
            if waited is Some && waited == stream.current_request_id
                && !stream.has_received_client_actions {
                &&& next == (ResponseStream {
                    retry_count: (stream.retry_count + 1) as usize,
                    stream_finished_received: false,
                    error_event_emitted: false,
                    deferred_retry_pending: false,
                    cancellable: true,
                    current_request_id: Some(fresh),
                    ..stream
                })
                &&& effects == if stream.cancellable {
                    seq![told, Effect::SignalCancellation, send]
                } else {
                    seq![told, send]
                }
            } else {
                next == stream && effects.len() == 0
            }
        }),
{
    let effects = crate::stream::online_step(stream, waited, fresh).1;
    assert(effects.len() <= 3);
}

/// A retry counts itself, forgets what the old attempt had seen, cancels the old
/// attempt where it can be, and sends the same request; parking a retry tells the
/// controller and waits for connectivity.
pub proof fn retries_and_deferrals(stream: ResponseStream, fresh: RequestId)
    requires
        stream.retry_count < usize::MAX,
    ensures
        crate::stream::retried(stream, fresh) == (ResponseStream {
            retry_count: (stream.retry_count + 1) as usize,
            has_received_client_actions: false,
            stream_finished_received: false,
            error_event_emitted: false,
            deferred_retry_pending: false,
            cancellable: true,
            current_request_id: Some(fresh),
            ..stream
        }),
        crate::stream::retried(stream, fresh).retry_count == stream.retry_count + 1,
        crate::stream::retry_effects(stream, fresh) == if stream.cancellable {
            seq![Effect::SignalCancellation, Effect::SpawnRequest { request_id: fresh }]
        } else {
            seq![Effect::SpawnRequest { request_id: fresh }]
        },
        crate::stream::defer_effects(stream) == seq![
            Effect::Emit(ResponseStreamEvent::WaitingForNetwork { waiting: true }),
            Effect::WaitUntilOnline { request_id: stream.current_request_id },
        ],
{
}

/// A cancellation drops the current attempt. Where it could still be cancelled, its
/// signal is fired, and the controller is told that the stream is over, why, and in
/// which conversation.
pub proof fn cancellations(
    stream: ResponseStream,
    reason: CancellationReason,
    conversation_id: AIConversationId,
)
    ensures
        crate::stream::cancel_step(stream, reason, conversation_id).0 == (ResponseStream {
            current_request_id: None,
            cancellable: false,
            ..stream
        }),
        crate::stream::cancel_step(stream, reason, conversation_id).1 == if stream.cancellable {
            seq![
                Effect::SignalCancellation,
                Effect::Emit(
                    ResponseStreamEvent::AfterStreamFinished {
                        cancellation: Some(StreamCancellation { reason, conversation_id }),
                    },
                ),
            ]
        } else {
            Seq::<Effect>::empty()
        },
{
}

/// After a refresh that succeeded, the request goes out with the fresh subscription
/// token in its keys, where it has keys and there is one; every other key, and the
/// rest of the request and the stream, stay as they were.
pub proof fn fresh_tokens_are_sent(
    stream: ResponseStream,
    request_id: RequestId,
    token: Option<String>,
    failure: ErrorProfile,
    is_online: bool,
)
    requires
        stream.current_request_id == Some(request_id),
    ensures
        ({
            let (next, effects) = crate::request::grok_refresh_step(
                stream,
                request_id,
                RefreshWait::Refreshed,
                token,
                failure,
                is_online,
            );
            &&& effects == seq![Effect::SpawnGenerate { request_id }]
            &&& next == (ResponseStream { params: next.params, ..stream })
            &&& next.params == (RequestParams { api_keys: next.params.api_keys, ..stream.params })
            &&& match stream.params.api_keys {
                Some(keys) => {
                    &&& next.params.api_keys matches Some(sent)
                    &&& sent.google_cloud_credentials == keys.google_cloud_credentials
                    &&& sent.grok_oauth_access_token == match token {
                        Some(fresh) => fresh,
                        None => keys.grok_oauth_access_token,
                    }
                },
                None => next.params.api_keys is None,
            }
        }),
{
}

/// After a refresh that did not succeed, the request does not go out and stays as it
/// was: the failure is reported and surfaced, never retried or resumed, and the stream
/// ends, unless a retry is parked.
pub proof fn failed_refreshes_are_surfaced(
    stream: ResponseStream,
    request_id: RequestId,
    wait: RefreshWait,
    token: Option<String>,
    failure: ErrorProfile,
    is_online: bool,
)
    requires
        stream.current_request_id == Some(request_id),
        wait != RefreshWait::Refreshed,
    ensures
        ({
            let (next, effects) = crate::request::grok_refresh_step(
                stream,
                request_id,
                wait,
                token,
                failure,
                is_online,
            );
            let report = Effect::ReportFailure(
                FailureReport {
                    has_received_client_actions: stream.has_received_client_actions,
                    is_recoverable: failure.is_recoverable,
                    will_attempt_resume: stream.should_resume_conversation_after_stream_finished,
                    is_online,
                    retry_count: stream.retry_count,
                    error_kind: AIApiErrorKind::GrokSubscriptionTokenRefreshFailed,
                    error_debug: failure.debug,
                },
            );
            let surfaced = Effect::Emit(
                ResponseStreamEvent::ReceivedEvent(
                    Consumable {
                        value: Some(
                            Err(
                                AIApiError {
                                    kind: AIApiErrorKind::GrokSubscriptionTokenRefreshFailed,
                                    profile: failure,
                                },
                            ),
                        ),
                    },
                ),
            );
            let over = Effect::Emit(
                ResponseStreamEvent::AfterStreamFinished { cancellation: None },
            );
            if stream.deferred_retry_pending {
                &&& next == (ResponseStream { error_event_emitted: true, ..stream })
                &&& effects == seq![report, surfaced]
            } else {
                &&& next == (ResponseStream {
                    error_event_emitted: true,
                    cancellable: false,
                    ..stream
                })
                &&& effects == seq![report, surfaced, over]
            }
        }),
{
}

/// An error that is surfaced without recovery is told whether or not its attempt is
/// still the current one; only on the current one, with no retry parked, does it end
/// the stream.
pub proof fn terminal_errors_are_told(
    stream: ResponseStream,
    request_id: RequestId,
    error: AIApiError,
    is_online: bool,
)
    ensures
        ({
            let (next, effects) = crate::stream::terminal_error_step(
                stream,
                request_id,
                error,
                is_online,
            );
            let ends = stream.current_request_id == Some(request_id)
                && !stream.deferred_retry_pending;
            &&& next == (ResponseStream {
                error_event_emitted: true,
                cancellable: stream.cancellable && !ends,
                ..stream
            })
            &&& effects.len() == if ends {
                3nat
            } else {
                2
            }
            &&& effects[0] == Effect::ReportFailure(
                FailureReport {
                    has_received_client_actions: stream.has_received_client_actions,
                    is_recoverable: error.profile.is_recoverable,
                    will_attempt_resume: stream.should_resume_conversation_after_stream_finished,
                    is_online,
                    retry_count: stream.retry_count,
                    error_kind: error.kind,
                    error_debug: error.profile.debug,
                },
            )
            &&& effects[1] == Effect::Emit(
                ResponseStreamEvent::ReceivedEvent(Consumable { value: Some(Err(error)) }),
            )
            &&& ends ==> effects[2] == Effect::Emit(
                ResponseStreamEvent::AfterStreamFinished { cancellation: None },
            )
        }),
{
}

/// However the wait for a minted credential ends, the request goes out. Its credential
/// is the fresh one exactly where the mint succeeded, there is one and the request has
/// keys; everything else stays as it was.
pub proof fn minted_credentials_are_sent(
    stream: ResponseStream,
    request_id: RequestId,
    wait: RefreshWait,
    credentials: Option<GoogleCloudCredentials>,
)
    requires
        stream.current_request_id == Some(request_id),
    ensures
        ({
            let (next, effects) = crate::request::geap_refresh_step(
                stream,
                request_id,
                wait,
                credentials,
            );
            &&& effects == seq![Effect::SpawnGenerate { request_id }]
            &&& next == (ResponseStream { params: next.params, ..stream })
            &&& next.params == (RequestParams { api_keys: next.params.api_keys, ..stream.params })
            &&& match stream.params.api_keys {
                Some(keys) => {
                    &&& next.params.api_keys matches Some(sent)
                    &&& sent.grok_oauth_access_token == keys.grok_oauth_access_token
                    &&& sent.google_cloud_credentials == if wait == RefreshWait::Refreshed
                        && credentials is Some {
                        credentials
                    } else {
                        keys.google_cloud_credentials
                    }
                },
                None => next.params.api_keys is None,
            }
        }),
{
}

/// A mint that is applied to a request: a fresh credential takes the place of the one
/// in its keys; without one, or without keys, the request stays as it was.
pub proof fn mints_replace_the_credential(
    params: RequestParams,
    fresh: Option<GoogleCloudCredentials>,
)
    ensures
        ({
            let after = crate::api::with_fresh_credentials(params, fresh);
            &&& after == (RequestParams { api_keys: after.api_keys, ..params })
            &&& fresh is None || params.api_keys is None ==> after == params
            &&& fresh is Some && params.api_keys is Some ==> after.api_keys == Some(
                ApiKeys {
                    grok_oauth_access_token: params.api_keys->0.grok_oauth_access_token,
                    google_cloud_credentials: fresh,
                },
            )
        }),
{
}

/// A stream at its start has seen nothing, retried nothing and can be cancelled.
pub proof fn streams_start_blank(stream: ResponseStream)
    requires
        crate::stream::is_initial(stream),
    ensures
        stream.retry_count == 0,
        stream.time_to_latest_event == 0,
        stream.cancellable,
        stream.original_error is None,
        !stream.has_received_client_actions,
        !stream.should_resume_conversation_after_stream_finished,
        !stream.stream_finished_received,
        !stream.error_event_emitted,
        !stream.deferred_retry_pending,
{
}

/// A well-formed stream keeps the retry budget, parks no retry without budget or after
/// client actions, and plans no resume where none may be attempted; a stream at its
/// start is well-formed.
pub proof fn well_formed_streams(stream: ResponseStream)
    ensures
        stream.well_formed() ==> stream.retry_count <= 3,
        stream.well_formed() && stream.deferred_retry_pending ==> stream.retry_count < 3
            && !stream.has_received_client_actions,
        stream.well_formed() && stream.should_resume_conversation_after_stream_finished
            ==> stream.can_attempt_resume_on_error,
        crate::stream::is_initial(stream) ==> stream.well_formed(),
{
}

/// What is reported of a failure is the failure and what the stream knows; what is
/// told of an error that is retried is its text, and nothing that a user sees.
pub proof fn failures_are_reported_as_they_are(
    stream: ResponseStream,
    error: AIApiError,
    is_online: bool,
    debug: String,
)
    ensures
        crate::stream::failure_report(stream, error, is_online) == (FailureReport {
            has_received_client_actions: stream.has_received_client_actions,
            is_recoverable: error.profile.is_recoverable,
            will_attempt_resume: stream.should_resume_conversation_after_stream_finished,
            is_online,
            retry_count: stream.retry_count,
            error_kind: error.kind,
            error_debug: error.profile.debug,
        }),
        crate::stream::retryable_error(stream, debug) == Effect::SendTelemetry(
            TelemetryEvent::AgentModeError {
                identifiers: AIIdentifiers {
                    server_output_id: stream.ai_identifiers.server_output_id,
                    rest: stream.ai_identifiers.rest,
                },
                error: debug,
                is_user_visible: false,
                will_attempt_to_resume: false,
            },
        ),
{
}

} // verus!
