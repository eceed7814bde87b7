use response_stream::api::{
    AIApiError, AIApiErrorKind, AIIdentifiers, Action, AddMessagesToTask, ClientAction,
    ClientActions, ErrorProfile, Event, Message, MessageContent, Opaque, RequestParams,
    ResponseEvent, ResponseEventType, StreamFinished, StreamFinishedReason, StreamInit,
};
use response_stream::clock::Timestamp;
use response_stream::ids::{RequestId, ResponseStreamId};
use response_stream::recovery::MAX_RETRIES;
use response_stream::stream::{
    AIConversationId, CancellationReason, Effect, ResponseStream, ResponseStreamEvent, SendFailure,
    TelemetryEvent,
};

const FIRST: RequestId = RequestId(1);
const SECOND: RequestId = RequestId(2);

fn started(can_attempt_resume_on_error: bool) -> ResponseStream {
    ResponseStream::start(
        ResponseStreamId::new_for_test(),
        RequestParams::new_for_test(),
        AIIdentifiers {
            server_output_id: None,
            rest: String::new(),
        },
        can_attempt_resume_on_error,
        moment(100, 5),
        FIRST,
    )
}

fn moment(seconds: i64, nanos: u32) -> Timestamp {
    Timestamp { seconds, nanos }
}

fn profile(is_recoverable: bool, debug: &str) -> ErrorProfile {
    ErrorProfile {
        is_recoverable,
        debug: debug.to_string(),
    }
}

fn failure(is_recoverable: bool, debug: &str) -> Event {
    Err(AIApiError {
        kind: AIApiErrorKind::Other,
        profile: profile(is_recoverable, debug),
    })
}

fn event(event_type: ResponseEventType) -> Event {
    Ok(ResponseEvent {
        event_type: Some(event_type),
    })
}

fn client_actions() -> Event {
    event(ResponseEventType::ClientActions(ClientActions {
        actions: vec![],
    }))
}

fn finished(reason: Option<StreamFinishedReason>) -> Event {
    event(ResponseEventType::Finished(StreamFinished {
        reason,
        should_refresh_model_config: false,
        extra: Opaque::empty(),
    }))
}

/// Hands an event of the given attempt to the stream, whose retry would be `fresh`.
fn deliver(
    stream: &mut ResponseStream,
    attempt: RequestId,
    event: Event,
    is_online: bool,
    fresh: RequestId,
) -> Vec<String> {
    named(stream.handle_response_stream_event_with(
        attempt,
        event,
        is_online,
        moment(107, 2),
        fresh,
    ))
}

fn complete(
    stream: &mut ResponseStream,
    attempt: RequestId,
    is_recoverable: bool,
    is_online: bool,
    fresh: RequestId,
) -> Vec<String> {
    named(stream.on_response_stream_complete_with(
        attempt,
        profile(is_recoverable, "eof"),
        is_online,
        fresh,
    ))
}

/// The effects in short.
fn named(effects: Vec<Effect>) -> Vec<String> {
    effects.into_iter().map(name).collect()
}

fn name(effect: Effect) -> String {
    match effect {
        Effect::Emit(ResponseStreamEvent::ReceivedEvent(mut consumable)) => {
            let first = consumable.consume();
            assert!(consumable.consume().is_none());
            match first {
                Some(Ok(_)) => "event".to_string(),
                Some(Err(error)) => format!("error {:?} {}", error.kind, error.profile.debug),
                None => panic!("the event was taken already"),
            }
        }
        Effect::Emit(ResponseStreamEvent::WaitingForNetwork { waiting }) => {
            format!("waiting {waiting}")
        }
        Effect::Emit(ResponseStreamEvent::AfterStreamFinished { cancellation: None }) => {
            "finished".to_string()
        }
        Effect::Emit(ResponseStreamEvent::AfterStreamFinished {
            cancellation: Some(cancellation),
        }) => format!(
            "cancelled {} {}",
            cancellation.reason.0, cancellation.conversation_id.0
        ),
        Effect::SignalCancellation => "signal".to_string(),
        Effect::SpawnRequest { request_id } => format!("send {}", request_id.0),
        Effect::SpawnGenerate { request_id } => format!("generate {}", request_id.0),
        Effect::ConsumeResponse { request_id } => format!("consume {}", request_id.0),
        Effect::WaitUntilOnline { request_id } => {
            format!("wait {}", request_id.map_or(0, |id| id.0))
        }
        Effect::SendTelemetry(TelemetryEvent::AgentModeError {
            error,
            is_user_visible,
            will_attempt_to_resume,
            ..
        }) => {
            assert!(!is_user_visible);
            assert!(!will_attempt_to_resume);
            format!("telemetry {error}")
        }
        Effect::SendTelemetry(TelemetryEvent::AgentModeRequestRetrySucceeded {
            retry_count,
            original_error,
            ..
        }) => format!("succeeded {retry_count} {original_error}"),
        Effect::ReportFailure(report) => format!(
            "report {} actions={} recoverable={} resume={} online={} retries={}",
            report.error_debug,
            report.has_received_client_actions,
            report.is_recoverable,
            report.will_attempt_resume,
            report.is_online,
            report.retry_count
        ),
        Effect::ReportSendFailure { error_debug } => format!("unsent {error_debug}"),
    }
}

#[test]
fn a_new_stream_sends_its_first_attempt() {
    let (stream, effects) = ResponseStream::new(
        RequestParams::new_for_test(),
        AIIdentifiers {
            server_output_id: Some("o".to_string()),
            rest: String::new(),
        },
        true,
    );
    let request_id = stream.current_request_id.unwrap();
    assert_eq!(named(effects), vec![format!("send {}", request_id.0)]);
    assert_eq!(stream.id().0.len(), 36);
    assert!(stream.can_attempt_resume_on_error);
    assert!(stream.cancellable);
    assert_eq!(stream.retry_count, 0);
    assert_eq!(stream.ai_identifiers.server_output_id.as_deref(), Some("o"));
    // A version 4 identifier.
    assert_eq!((request_id.0 >> 76) & 0xf, 4);
    assert_eq!((request_id.0 >> 62) & 0x3, 2);
    // The clock shows a plausible time.
    assert!(stream.start_time.seconds > 1_700_000_000);
    assert!(stream.start_time.seconds < 100_000_000_000);
    assert!(stream.start_time.nanos < 1_000_000_000);
}

#[test]
fn a_test_stream_starts_blank() {
    let id = ResponseStreamId::new_for_test();
    let mut stream = ResponseStream::new_for_test(id.clone());
    assert_eq!(*stream.id(), id);
    assert!(!stream.should_resume_conversation_after_stream_finished());
    assert!(!stream.can_attempt_resume_on_error);
    assert!(stream.current_request_id.is_some());
    assert_eq!(stream.params, RequestParams::new_for_test());
    let effects = stream.emit_response_event_for_test(ResponseEvent { event_type: None });
    assert_eq!(named(effects), vec!["event"]);
}

#[test]
fn events_are_passed_on_and_remembered() {
    let mut stream = started(true);
    let init = event(ResponseEventType::Init(StreamInit {
        request_id: "output".to_string(),
        conversation_id: String::new(),
        run_id: String::new(),
    }));
    assert_eq!(deliver(&mut stream, FIRST, init, true, SECOND), vec!["event"]);
    assert_eq!(
        stream.ai_identifiers.server_output_id.as_deref(),
        Some("output")
    );
    // 107 s 2 ns is 6 999 999 997 ns after 100 s 5 ns.
    assert_eq!(stream.time_to_latest_event, 6_999_999_997);
    assert_eq!(
        deliver(&mut stream, FIRST, client_actions(), true, SECOND),
        vec!["event"]
    );
    assert!(stream.has_received_client_actions);
    assert_eq!(
        deliver(
            &mut stream,
            FIRST,
            finished(Some(StreamFinishedReason::Done)),
            true,
            SECOND
        ),
        vec!["event"]
    );
    assert!(stream.stream_finished_received);
    assert_eq!(
        complete(&mut stream, FIRST, true, true, SECOND),
        vec!["finished"]
    );
    assert!(!stream.cancellable);
    assert_eq!(stream.retry_count, 0);
}

#[test]
fn an_event_of_no_type_changes_nothing_but_the_time() {
    let mut stream = started(true);
    assert_eq!(
        deliver(
            &mut stream,
            FIRST,
            Ok(ResponseEvent { event_type: None }),
            true,
            SECOND
        ),
        vec!["event"]
    );
    assert!(!stream.has_received_client_actions);
    assert!(!stream.stream_finished_received);
    assert_eq!(stream.ai_identifiers.server_output_id, None);
}

#[test]
fn a_transient_failure_is_retried_at_once_when_online() {
    let mut stream = started(true);
    assert_eq!(
        deliver(&mut stream, FIRST, failure(true, "boom"), true, SECOND),
        vec!["telemetry boom", "signal", "send 2"]
    );
    assert_eq!(stream.retry_count, 1);
    assert_eq!(stream.current_request_id, Some(SECOND));
    assert_eq!(stream.original_error.as_deref(), Some("boom"));
    // The old attempt has nothing more to say.
    assert!(deliver(&mut stream, FIRST, client_actions(), true, RequestId(3)).is_empty());
    assert!(!stream.has_received_client_actions);
    assert!(complete(&mut stream, FIRST, true, true, RequestId(3)).is_empty());
}

#[test]
fn a_retry_that_succeeds_is_told_with_the_first_error() {
    let mut stream = started(true);
    deliver(&mut stream, FIRST, failure(true, "one"), true, SECOND);
    deliver(&mut stream, SECOND, failure(true, "two"), true, RequestId(3));
    assert_eq!(stream.original_error.as_deref(), Some("one"));
    assert_eq!(
        deliver(&mut stream, RequestId(3), finished(None), true, RequestId(4)),
        vec!["succeeded 2 one", "event"]
    );
    let mut stream = started(true);
    deliver(&mut stream, FIRST, failure(true, "one"), true, SECOND);
    assert_eq!(
        deliver(
            &mut stream,
            SECOND,
            finished(Some(StreamFinishedReason::Other)),
            true,
            RequestId(4)
        ),
        vec!["event"]
    );
}

#[test]
fn a_truncation_leaves_no_original_error() {
    let mut stream = started(true);
    assert_eq!(
        complete(&mut stream, FIRST, true, true, SECOND),
        vec!["telemetry eof", "signal", "send 2"]
    );
    assert_eq!(stream.original_error, None);
    assert_eq!(
        deliver(
            &mut stream,
            SECOND,
            finished(Some(StreamFinishedReason::Done)),
            true,
            RequestId(3)
        ),
        vec!["event"]
    );
}

#[test]
fn a_request_is_resent_at_most_three_times() {
    let mut stream = started(true);
    for attempt in 1..=3u128 {
        let effects = deliver(
            &mut stream,
            RequestId(attempt),
            failure(true, "x"),
            true,
            RequestId(attempt + 1),
        );
        assert_eq!(effects.last().unwrap(), &format!("send {}", attempt + 1));
    }
    assert_eq!(stream.retry_count, MAX_RETRIES);
    assert_eq!(
        deliver(&mut stream, RequestId(4), failure(true, "x"), true, RequestId(5)),
        vec![
            "report x actions=false recoverable=true resume=false online=true retries=3",
            "error Other x"
        ]
    );
    assert_eq!(
        complete(&mut stream, RequestId(4), true, true, RequestId(5)),
        vec!["finished"]
    );
}

#[test]
fn an_offline_failure_waits_for_connectivity() {
    let mut stream = started(true);
    assert_eq!(
        deliver(&mut stream, FIRST, failure(true, "cut"), false, SECOND),
        vec!["telemetry cut", "waiting true", "wait 1"]
    );
    assert!(stream.deferred_retry_pending);
    // The end of the failed attempt is ignored meanwhile.
    assert!(complete(&mut stream, FIRST, true, false, SECOND).is_empty());
    assert_eq!(
        named(stream.connectivity_returned_with(Some(FIRST), SECOND)),
        vec!["waiting false", "signal", "send 2"]
    );
    assert!(!stream.deferred_retry_pending);
    assert_eq!(stream.retry_count, 1);
    // A second report for the old attempt is stale.
    assert!(named(stream.connectivity_returned_with(Some(FIRST), RequestId(3))).is_empty());
    assert!(named(stream.connectivity_returned_with(None, RequestId(3))).is_empty());
}

#[test]
fn a_truncated_response_waits_for_connectivity_too() {
    let mut stream = started(true);
    assert_eq!(
        complete(&mut stream, FIRST, true, false, SECOND),
        vec!["telemetry eof", "waiting true", "wait 1"]
    );
    let effects = stream.connectivity_returned(Some(FIRST));
    let fresh = stream.current_request_id.unwrap();
    assert_ne!(fresh, FIRST);
    assert_eq!(
        named(effects),
        vec![
            "waiting false".to_string(),
            "signal".to_string(),
            format!("send {}", fresh.0)
        ]
    );
}

#[test]
fn cancellation_drops_a_parked_retry() {
    let mut stream = started(true);
    deliver(&mut stream, FIRST, failure(true, "cut"), false, SECOND);
    let effects = stream.cancel(
        CancellationReason("user".to_string()),
        AIConversationId("c".to_string()),
    );
    assert_eq!(named(effects), vec!["signal", "cancelled user c"]);
    assert!(named(stream.connectivity_returned_with(Some(FIRST), SECOND)).is_empty());
    assert_eq!(stream.retry_count, 0);
}

#[test]
fn nothing_is_emitted_after_cancellation() {
    let mut stream = started(true);
    let cancel = |stream: &mut ResponseStream| {
        named(stream.cancel(
            CancellationReason("user".to_string()),
            AIConversationId("c".to_string()),
        ))
    };
    assert_eq!(cancel(&mut stream), vec!["signal", "cancelled user c"]);
    assert!(cancel(&mut stream).is_empty());
    assert!(deliver(&mut stream, FIRST, client_actions(), true, SECOND).is_empty());
    assert!(complete(&mut stream, FIRST, true, true, SECOND).is_empty());
    assert_eq!(
        named(stream.handle_response_stream_result(FIRST, Ok(()), true)),
        vec!["consume 1"]
    );
    assert_eq!(
        named(stream.handle_response_stream_result(FIRST, Err(unsent()), true)),
        vec!["unsent bad"]
    );
}

#[test]
fn a_finished_stream_is_not_cancelled() {
    let mut stream = started(true);
    deliver(&mut stream, FIRST, finished(None), true, SECOND);
    assert_eq!(
        complete(&mut stream, FIRST, true, true, SECOND),
        vec!["finished"]
    );
    let effects = stream.cancel(
        CancellationReason("user".to_string()),
        AIConversationId("c".to_string()),
    );
    assert!(effects.is_empty());
    assert_eq!(stream.current_request_id, None);
}

#[test]
fn a_failure_after_client_actions_resumes_the_conversation() {
    let mut stream = started(true);
    deliver(&mut stream, FIRST, client_actions(), true, SECOND);
    assert_eq!(
        deliver(&mut stream, FIRST, failure(true, "late"), false, SECOND),
        vec![
            "report late actions=true recoverable=true resume=true online=false retries=0",
            "error Other late"
        ]
    );
    assert!(stream.should_resume_conversation_after_stream_finished());
    assert_eq!(
        complete(&mut stream, FIRST, true, true, SECOND),
        vec!["finished"]
    );
}

#[test]
fn a_truncation_after_client_actions_resumes_the_conversation() {
    let mut stream = started(true);
    deliver(&mut stream, FIRST, client_actions(), true, SECOND);
    assert_eq!(
        complete(&mut stream, FIRST, true, true, SECOND),
        vec![
            "report eof actions=true recoverable=true resume=true online=true retries=0",
            "error UnexpectedEof eof",
            "finished"
        ]
    );
    assert!(stream.should_resume_conversation_after_stream_finished());
    assert!(!stream.cancellable);
}

#[test]
fn a_resume_is_not_followed_by_another() {
    let mut stream = started(false);
    deliver(&mut stream, FIRST, client_actions(), true, SECOND);
    assert_eq!(
        deliver(&mut stream, FIRST, failure(true, "late"), true, SECOND),
        vec![
            "report late actions=true recoverable=true resume=false online=true retries=0",
            "error Other late"
        ]
    );
    assert!(!stream.should_resume_conversation_after_stream_finished());
}

#[test]
fn a_failure_that_is_not_transient_is_surfaced() {
    let mut stream = started(true);
    assert_eq!(
        deliver(&mut stream, FIRST, failure(false, "bad"), true, SECOND),
        vec![
            "report bad actions=false recoverable=false resume=false online=true retries=0",
            "error Other bad"
        ]
    );
    let mut stream = started(true);
    assert_eq!(
        complete(&mut stream, FIRST, false, true, SECOND),
        vec![
            "report eof actions=false recoverable=false resume=false online=true retries=0",
            "error UnexpectedEof eof",
            "finished"
        ]
    );
}

#[test]
fn a_parked_retry_is_dropped_when_client_actions_come_late() {
    let mut stream = started(true);
    deliver(&mut stream, FIRST, failure(true, "cut"), false, SECOND);
    assert!(stream.deferred_retry_pending);
    assert_eq!(
        deliver(&mut stream, FIRST, client_actions(), false, SECOND),
        vec!["event"]
    );
    assert!(!stream.deferred_retry_pending);
    // Nothing is re-sent, whether the response has ended or not.
    assert!(named(stream.connectivity_returned_with(Some(FIRST), SECOND)).is_empty());
    assert_eq!(stream.retry_count, 0);
    assert!(stream.has_received_client_actions);
    // The end of the response is the end of the stream, which is resumed instead.
    assert_eq!(
        complete(&mut stream, FIRST, true, false, SECOND),
        vec![
            "report eof actions=true recoverable=true resume=true online=false retries=0",
            "error UnexpectedEof eof",
            "finished"
        ]
    );
    assert!(named(stream.connectivity_returned_with(Some(FIRST), SECOND)).is_empty());
    assert!(stream.should_resume_conversation_after_stream_finished());
}

#[test]
fn a_report_tells_the_kind_of_the_error() {
    let mut stream = started(true);
    let kind = |effects: Vec<Effect>| {
        let mut kinds = vec![];
        for effect in effects {
            if let Effect::ReportFailure(report) = effect {
                kinds.push(report.error_kind);
            }
        }
        kinds
    };
    let effects = stream.on_response_stream_complete_with(FIRST, profile(false, "e"), true, SECOND);
    assert_eq!(kind(effects), vec![AIApiErrorKind::UnexpectedEof]);
    let mut stream = started(true);
    let effects = stream.surface_grok_refresh_failure(FIRST, profile(false, "g"), true);
    assert_eq!(
        kind(effects),
        vec![AIApiErrorKind::GrokSubscriptionTokenRefreshFailed]
    );
    let mut stream = started(true);
    let effects = stream.handle_response_stream_result(FIRST, Err(unsent()), true);
    assert_eq!(kind(effects), vec![AIApiErrorKind::Other]);
    assert_eq!(
        AIApiError::other(profile(true, "o")),
        AIApiError {
            kind: AIApiErrorKind::Other,
            profile: profile(true, "o"),
        }
    );
}

#[test]
fn what_is_not_read_is_passed_on() {
    let opaque = |byte: u8| Opaque { bytes: vec![byte] };
    let mut stream = started(true);
    let message = Message {
        id: "m".to_string(),
        task_id: "t".to_string(),
        request_id: "r".to_string(),
        server_message_data: "d".to_string(),
        message: Some(MessageContent::Other(opaque(1))),
        extra: opaque(2),
    };
    let actions = event(ResponseEventType::ClientActions(ClientActions {
        actions: vec![
            ClientAction {
                action: Some(Action::Other(opaque(3))),
            },
            ClientAction {
                action: Some(Action::AddMessagesToTask(AddMessagesToTask {
                    task_id: "t".to_string(),
                    messages: vec![message],
                })),
            },
        ],
    }));
    let wanted = format!("{actions:?}");
    let mut effects =
        stream.handle_response_stream_event_with(FIRST, actions, true, moment(1, 0), SECOND);
    assert_eq!(effects.len(), 1);
    let Some(Effect::Emit(ResponseStreamEvent::ReceivedEvent(mut consumable))) = effects.pop()
    else {
        panic!("expected the event");
    };
    assert_eq!(format!("{:?}", consumable.consume().unwrap()), wanted);
    assert!(stream.has_received_client_actions);
    let end = event(ResponseEventType::Finished(StreamFinished {
        reason: Some(StreamFinishedReason::Further(opaque(5))),
        should_refresh_model_config: true,
        extra: opaque(4),
    }));
    let wanted = format!("{end:?}");
    let mut effects =
        stream.handle_response_stream_event_with(FIRST, end, true, moment(1, 0), SECOND);
    let Some(Effect::Emit(ResponseStreamEvent::ReceivedEvent(mut consumable))) = effects.pop()
    else {
        panic!("expected the event");
    };
    assert_eq!(format!("{:?}", consumable.consume().unwrap()), wanted);
}

fn unsent() -> SendFailure {
    SendFailure {
        conversion_debug: "bad".to_string(),
        profile: profile(true, "other"),
    }
}

#[test]
fn a_request_that_cannot_be_sent_ends_the_stream() {
    let mut stream = started(true);
    assert_eq!(
        named(stream.handle_response_stream_result(FIRST, Err(unsent()), true)),
        vec![
            "unsent bad",
            "report other actions=false recoverable=true resume=false online=true retries=0",
            "error Other other",
            "finished"
        ]
    );
    assert!(!stream.cancellable);
    let mut stream = started(true);
    assert_eq!(
        named(stream.handle_response_stream_result(FIRST, Ok(()), true)),
        vec!["consume 1"]
    );
}

#[test]
fn a_subscription_that_cannot_be_refreshed_ends_the_stream() {
    let mut stream = started(true);
    assert_eq!(
        named(stream.surface_grok_refresh_failure(FIRST, profile(false, "grok"), false)),
        vec![
            "report grok actions=false recoverable=false resume=false online=false retries=0",
            "error GrokSubscriptionTokenRefreshFailed grok",
            "finished"
        ]
    );
    // While a retry is parked, the stream is still active.
    let mut stream = started(true);
    deliver(&mut stream, FIRST, failure(true, "cut"), false, SECOND);
    assert_eq!(
        named(stream.surface_grok_refresh_failure(FIRST, profile(false, "grok"), false)),
        vec![
            "report grok actions=false recoverable=false resume=false online=false retries=0",
            "error GrokSubscriptionTokenRefreshFailed grok"
        ]
    );
    assert!(stream.cancellable);
}

#[test]
fn drawing_versions_use_a_random_attempt() {
    let mut stream = started(true);
    let effects = stream.handle_response_stream_event(FIRST, failure(true, "x"), true);
    let second = stream.current_request_id.unwrap();
    assert_ne!(second, FIRST);
    assert_eq!(
        named(effects),
        vec![
            "telemetry x".to_string(),
            "signal".to_string(),
            format!("send {}", second.0)
        ]
    );
    let effects = stream.on_response_stream_complete(second, profile(true, "eof"), true);
    let third = stream.current_request_id.unwrap();
    assert_ne!(third, second);
    assert_eq!(named(effects).last(), Some(&format!("send {}", third.0)));
    // The clock moves on: the stream started long before now.
    assert!(stream.time_to_latest_event > 1_000_000_000);
}

#[test]
fn retry_and_defer_on_their_own() {
    let mut stream = started(true);
    stream.cancellable = false;
    assert_eq!(named(stream.retry_with(SECOND)), vec!["send 2"]);
    assert!(stream.cancellable);
    assert_eq!(
        named(stream.defer_retry_until_online()),
        vec!["waiting true", "wait 2"]
    );
    let effects = stream.retry();
    let fresh = stream.current_request_id.unwrap();
    assert_eq!(
        named(effects),
        vec!["signal".to_string(), format!("send {}", fresh.0)]
    );
    assert_eq!(stream.retry_count, 2);
    let error = AIApiError {
        kind: AIApiErrorKind::UnexpectedEof,
        profile: profile(true, "d"),
    };
    let report = stream.report_request_failure(&error, true);
    assert_eq!(report.error_kind, AIApiErrorKind::UnexpectedEof);
    assert_eq!(report.retry_count, 2);
    assert!(report.is_recoverable);
    assert_eq!(report.error_debug, "d");
    assert_eq!(
        name(stream.emit_retryable_agent_mode_error_telemetry("e".to_string())),
        "telemetry e"
    );
}

#[test]
fn every_viewing_of_a_shared_session_has_its_own_stream() {
    let init = StreamInit {
        request_id: "request".to_string(),
        conversation_id: "conversation".to_string(),
        run_id: String::new(),
    };
    let first = ResponseStreamId::for_shared_session(&init);
    let second = ResponseStreamId::for_shared_session(&init);
    assert_ne!(first, second);
    assert!(first.0.starts_with("request-"));
    assert_eq!(first.0.len(), "request-".len() + 36);
    assert_eq!(
        ResponseStreamId::for_viewing(&init, 0x0123456789abcdef_fedcba9876543210).0,
        "request-01234567-89ab-cdef-fedc-ba9876543210"
    );
    assert_eq!(
        ResponseStreamId::from_uuid(0).0,
        "00000000-0000-0000-0000-000000000000"
    );
}
