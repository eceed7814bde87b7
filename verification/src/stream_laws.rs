//! What holds of response streams, whatever happens to them.
use crate::api::{AIApiError, ErrorProfile, Event, GoogleCloudCredentials};
use crate::clock::Timestamp;
use crate::ids::RequestId;
use crate::recovery::MAX_RETRIES;
use crate::request::RefreshWait;
use crate::stream::{
    AIConversationId, CancellationReason, Effect, ResponseStream, ResponseStreamEvent, SendFailure,
};
use vstd::prelude::*;

verus! {

/// What the host can report to a stream, with the time and the random identifier
/// that the stream draws on it.
pub enum Happening {
    /// An attempt delivered an event.
    Delivered {
        request_id: RequestId,
        event: Event,
        is_online: bool,
        moment: Timestamp,
        fresh: RequestId,
    },
    /// An attempt's response ended.
    Completed { request_id: RequestId, eof: ErrorProfile, is_online: bool, fresh: RequestId },
    /// An attempt was sent, or could not be.
    Sent { request_id: RequestId, result: Result<(), SendFailure>, is_online: bool },
    /// Connectivity returned for an attempt that waited for it.
    Online { request_id: RequestId, fresh: RequestId },
    /// An attempt's wait for a subscription token ended.
    GrokRefreshed {
        request_id: RequestId,
        wait: RefreshWait,
        access_token: Option<String>,
        failure: ErrorProfile,
        is_online: bool,
    },
    /// An attempt's wait for a minted credential ended.
    GeapRefreshed {
        request_id: RequestId,
        wait: RefreshWait,
        credentials: Option<GoogleCloudCredentials>,
    },
    /// The stream was cancelled.
    Cancelled { reason: CancellationReason, conversation_id: AIConversationId },
}

impl Happening {
    /// The attempt that the report is about.
    pub open spec fn attempt(self) -> Option<RequestId> {
        match self {
            Happening::Delivered { request_id, .. } => Some(request_id),
            Happening::Completed { request_id, .. } => Some(request_id),
            Happening::Sent { request_id, .. } => Some(request_id),
            Happening::Online { request_id, .. } => Some(request_id),
            Happening::GrokRefreshed { request_id, .. } => Some(request_id),
            Happening::GeapRefreshed { request_id, .. } => Some(request_id),
            Happening::Cancelled { .. } => None,
        }
    }

    /// The identifier that a retry on this report would get.
    pub open spec fn fresh(self) -> Option<RequestId> {
        match self {
            Happening::Delivered { fresh, .. } => Some(fresh),
            Happening::Completed { fresh, .. } => Some(fresh),
            Happening::Online { fresh, .. } => Some(fresh),
            _ => None,
        }
    }

    /// Whether the report is the last one about its attempt.
    pub open spec fn ends_attempt(self) -> bool {
        match self {
            Happening::Completed { .. } => true,
            Happening::Sent { result, .. } => result is Err,
            Happening::GrokRefreshed { wait, .. } => !(wait is Refreshed),
            _ => false,
        }
    }

    /// The failure that the report tells of, and whether the host is online.
    pub open spec fn failure(self) -> Option<(ErrorProfile, bool)> {
        match self {
            Happening::Delivered { event: Err(error), is_online, .. } => Some(
                (error.profile, is_online),
            ),
            Happening::Completed { eof, is_online, .. } => Some((eof, is_online)),
            _ => None,
        }
    }
}

/// The state and effects of a report.
pub open spec fn step(stream: ResponseStream, happening: Happening) -> (
    ResponseStream,
    Seq<Effect>,
) {
    match happening {
        Happening::Delivered { request_id, event, is_online, moment, fresh } =>
            crate::stream::event_step(stream, request_id, event, is_online, moment, fresh),
        Happening::Completed { request_id, eof, is_online, fresh } =>
            crate::stream::complete_step(stream, request_id, eof, is_online, fresh),
        Happening::Sent { request_id, result, is_online } => crate::stream::result_step(
            stream,
            request_id,
            result,
            is_online,
        ),
        Happening::Online { request_id, fresh } => crate::stream::online_step(
            stream,
            Some(request_id),
            fresh,
        ),
        Happening::GrokRefreshed { request_id, wait, access_token, failure, is_online } =>
            crate::request::grok_refresh_step(
            stream,
            request_id,
            wait,
            access_token,
            failure,
            is_online,
        ),
        Happening::GeapRefreshed { request_id, wait, credentials } =>
            crate::request::geap_refresh_step(stream, request_id, wait, credentials),
        Happening::Cancelled { reason, conversation_id } => crate::stream::cancel_step(
            stream,
            reason,
            conversation_id,
        ),
    }
}

/// Whether an effect tells the controller something.
pub open spec fn is_emission(effect: Effect) -> bool {
    effect is Emit
}

/// Whether an effect sends the request as an attempt.
pub open spec fn is_send(effect: Effect) -> bool {
    effect is SpawnRequest
}

/// Whether an effect tells the controller that the stream is over.
pub open spec fn is_finish(effect: Effect) -> bool {
    effect matches Effect::Emit(ResponseStreamEvent::AfterStreamFinished { .. })
}

/// Whether an effect tells the controller that a retry is parked, or has fired.
pub open spec fn is_waiting(effect: Effect, now_waiting: bool) -> bool {
    effect matches Effect::Emit(ResponseStreamEvent::WaitingForNetwork { waiting }) && waiting
        == now_waiting
}

/// Whether connectivity is only reported for a retry that was parked, and that is
/// parked still unless client actions have been received.
pub open spec fn waits_are_parked(stream: ResponseStream, happening: Happening) -> bool {
    happening matches Happening::Online { request_id, .. } ==> stream.current_request_id == Some(
        request_id,
    ) ==> stream.deferred_retry_pending || stream.has_received_client_actions
}

/// Every report keeps a stream well-formed: at most `MAX_RETRIES` retries, and a
/// resume only where one may be attempted. Connectivity is only reported for a retry
/// that was parked.
pub proof fn reports_keep_streams_well_formed(stream: ResponseStream, happening: Happening)
    requires
        stream.well_formed(),
        waits_are_parked(stream, happening),
    ensures
        step(stream, happening).0.well_formed(),
{
}

/// The identity of a stream never changes: its identifier, its start, and whether it
/// may be followed by a resume. Nor does what it asks for: a retry re-sends the same
/// request, in which only the keys can have been refreshed.
#[verifier::rlimit(40)]
pub proof fn reports_keep_the_request(stream: ResponseStream, happening: Happening)
    ensures
        step(stream, happening).0.id == stream.id,
        step(stream, happening).0.start_time == stream.start_time,
        step(stream, happening).0.can_attempt_resume_on_error == stream.can_attempt_resume_on_error,
        step(stream, happening).0.params == (crate::api::RequestParams {
            api_keys: step(stream, happening).0.params.api_keys,
            ..stream.params
        }),
        stream.params.api_keys is None ==> step(stream, happening).0.params == stream.params,
{
}

/// A report about an attempt that was cancelled or retried changes nothing, and
/// nothing comes of it that the controller sees: a response that arrives late is
/// read to its end, and a failure to send is reported.
pub proof fn stale_reports_are_ignored(stream: ResponseStream, happening: Happening)
    requires
        happening.attempt() is Some,
        happening.attempt() != stream.current_request_id,
    ensures
        step(stream, happening).0 == stream,
        forall|i: int|
            0 <= i < step(stream, happening).1.len() ==> happening is Sent && (
            #[trigger] step(stream, happening).1[i] is ConsumeResponse || step(
                stream,
                happening,
            ).1[i] is ReportSendFailure),
{
}

/// A retry makes the old attempt stale, as a cancellation does every attempt.
pub proof fn retries_and_cancellations_supersede(
    stream: ResponseStream,
    old: RequestId,
    fresh: RequestId,
    reason: CancellationReason,
    conversation_id: AIConversationId,
)
    requires
        stream.current_request_id == Some(old),
        fresh != old,
    ensures
        crate::stream::retried(stream, fresh).current_request_id != Some(old),
        crate::stream::cancel_step(stream, reason, conversation_id).0.current_request_id is None,
{
}

/// The request is only re-sent while no client actions have been received, whether
/// the retry comes at once or was parked.
pub proof fn requests_are_not_resent_after_client_actions(
    stream: ResponseStream,
    happening: Happening,
    i: int,
)
    requires
        0 <= i < step(stream, happening).1.len(),
        is_send(step(stream, happening).1[i]),
    ensures
        !stream.has_received_client_actions,
{
}

/// A resume is planned only for a transient failure after client actions, on a
/// request that is not itself a resume.
pub proof fn resumes_follow_client_actions(stream: ResponseStream, happening: Happening)
    requires
        !stream.should_resume_conversation_after_stream_finished,
        step(stream, happening).0.should_resume_conversation_after_stream_finished,
    ensures
        happening.attempt() == stream.current_request_id,
        happening.failure() matches Some((profile, _)) && profile.is_recoverable,
        stream.has_received_client_actions,
        stream.can_attempt_resume_on_error,
{
}

/// The controller is told that a retry is parked only on a transient failure of the
/// current attempt while offline, and then the stream waits for connectivity; it is
/// told that the retry has fired only when connectivity returned, and then the
/// request is re-sent.
pub proof fn waiting_follows_an_offline_failure(stream: ResponseStream, happening: Happening, i: int)
    requires
        0 <= i < step(stream, happening).1.len(),
    ensures
        is_waiting(step(stream, happening).1[i], true) ==> {
            &&& happening.attempt() == stream.current_request_id
            &&& happening.failure() matches Some((profile, is_online))
            &&& profile.is_recoverable
            &&& !is_online
            &&& step(stream, happening).0.deferred_retry_pending
            &&& step(stream, happening).1.last() == (Effect::WaitUntilOnline {
                request_id: stream.current_request_id,
            })
        },
        is_waiting(step(stream, happening).1[i], false) ==> {
            &&& happening matches Happening::Online { request_id, fresh }
            &&& stream.current_request_id == Some(request_id)
            &&& step(stream, happening).1.last() == (Effect::SpawnRequest { request_id: fresh })
        },
{
}

/// A failure of the current attempt is either retried, now or later, or handed to
/// the controller: never both, never neither.
pub proof fn failures_are_retried_or_surfaced(
    stream: ResponseStream,
    request_id: RequestId,
    error: AIApiError,
    is_online: bool,
    moment: Timestamp,
    fresh: RequestId,
)
    requires
        stream.current_request_id == Some(request_id),
    ensures
        ({
            let (next, effects) = crate::stream::event_step(
                stream,
                request_id,
                Err(error),
                is_online,
                moment,
                fresh,
            );
            let surfaced = effects.contains(crate::stream::received(Err(error)));
            let resent = effects.contains(Effect::SpawnRequest { request_id: fresh });
            let parked = effects.contains(
                Effect::WaitUntilOnline { request_id: stream.current_request_id },
            );
            &&& surfaced <==> !crate::stream::failure_is_retried(
                stream,
                error.profile.is_recoverable,
                is_online,
            )
            &&& resent <==> !surfaced && is_online
            &&& parked <==> !surfaced && !is_online
            &&& surfaced <==> next.error_event_emitted && !resent && !parked
        }),
{
    let (next, effects) = crate::stream::event_step(
        stream,
        request_id,
        Err(error),
        is_online,
        moment,
        fresh,
    );
    let told = crate::stream::received(Err(error));
    let action = crate::stream::chosen_recovery(stream, error.profile.is_recoverable, is_online);
    assert(effects[effects.len() - 1] == if action is RetryNow {
        Effect::SpawnRequest { request_id: fresh }
    } else if action is RetryWhenOnline {
        Effect::WaitUntilOnline { request_id: stream.current_request_id }
    } else {
        told
    });
    assert(forall|i: int|
        0 <= i < effects.len() - 1 ==> effects[i] != told && !(effects[i] is SpawnRequest) && !(
        effects[i] is WaitUntilOnline));
}

/// A response that ends without the event that ends a response recovers like any
/// transient error: what comes of it is what comes of the error event, and, where
/// that is not retried, the end of the stream.
pub proof fn truncation_recovers_like_an_error(
    stream: ResponseStream,
    request_id: RequestId,
    eof: ErrorProfile,
    is_online: bool,
    moment: Timestamp,
    fresh: RequestId,
)
    requires
        stream.current_request_id == Some(request_id),
        !stream.deferred_retry_pending,
        !stream.stream_finished_received,
        !stream.error_event_emitted,
    ensures
        ({
            let error = crate::stream::unexpected_eof(eof);
            let event = crate::stream::event_step(
                stream,
                request_id,
                Err(error),
                is_online,
                moment,
                fresh,
            );
            let end = crate::stream::complete_step(stream, request_id, eof, is_online, fresh);
            end.1 == if crate::stream::failure_is_retried(stream, eof.is_recoverable, is_online) {
                event.1
            } else {
                event.1 + seq![crate::stream::finished()]
            }
        }),
{
}

/// The end of a response adds no second failure to one that was surfaced, nor to a
/// response that ended as it should: the stream is simply over.
pub proof fn completion_adds_no_second_failure(
    stream: ResponseStream,
    request_id: RequestId,
    eof: ErrorProfile,
    is_online: bool,
    fresh: RequestId,
)
    requires
        stream.current_request_id == Some(request_id),
        !stream.deferred_retry_pending,
        stream.stream_finished_received || stream.error_event_emitted,
    ensures
        crate::stream::complete_step(stream, request_id, eof, is_online, fresh).1 == seq![
            crate::stream::finished(),
        ],
{
}

/// While a retry is parked, the end of the failed attempt's response is ignored.
pub proof fn parked_attempts_do_not_complete(
    stream: ResponseStream,
    request_id: RequestId,
    eof: ErrorProfile,
    is_online: bool,
    fresh: RequestId,
)
    requires
        stream.deferred_retry_pending,
    ensures
        crate::stream::complete_step(stream, request_id, eof, is_online, fresh) == (
            stream,
            Seq::<Effect>::empty(),
        ),
{
}

/// Once client actions of an attempt have been received, no retry of it is parked, and
/// the end of its response is the end of the stream.
pub proof fn attempts_with_client_actions_complete(
    stream: ResponseStream,
    request_id: RequestId,
    eof: ErrorProfile,
    is_online: bool,
    fresh: RequestId,
)
    requires
        stream.well_formed(),
        stream.current_request_id == Some(request_id),
        stream.has_received_client_actions,
    ensures
        crate::stream::complete_step(stream, request_id, eof, is_online, fresh).1.last()
            == crate::stream::finished(),
{
}

/// Once the request has been retried, the error that started it stays on record.
pub proof fn the_original_error_is_kept(stream: ResponseStream, happening: Happening)
    requires
        stream.retry_count > 0,
    ensures
        step(stream, happening).0.original_error == stream.original_error,
{
}

/// A subscription token that could not be refreshed is never sent: the request goes
/// out only after a refresh that succeeded.
pub proof fn expired_tokens_are_not_sent(
    stream: ResponseStream,
    request_id: RequestId,
    wait: RefreshWait,
    access_token: Option<String>,
    failure: ErrorProfile,
    is_online: bool,
)
    ensures
        crate::request::grok_refresh_step(
            stream,
            request_id,
            wait,
            access_token,
            failure,
            is_online,
        ).1.contains(Effect::SpawnGenerate { request_id }) <==> stream.current_request_id == Some(
            request_id,
        ) && wait is Refreshed,
{
    let effects = crate::request::grok_refresh_step(
        stream,
        request_id,
        wait,
        access_token,
        failure,
        is_online,
    ).1;
    if stream.current_request_id == Some(request_id) && wait is Refreshed {
        assert(effects[0] == Effect::SpawnGenerate { request_id });
    }
}

/// A mint that fails is never an error: the request goes out in any case, and as it
/// was unless there is a fresh credential. Nothing but that credential changes, and a
/// request without keys gets none.
pub proof fn failed_mints_leave_the_request_alone(
    stream: ResponseStream,
    request_id: RequestId,
    wait: RefreshWait,
    credentials: Option<GoogleCloudCredentials>,
)
    requires
        stream.current_request_id == Some(request_id),
    ensures
        ({
            let (next, effects) = crate::request::geap_refresh_step(
                stream,
                request_id,
                wait,
                credentials,
            );
            &&& effects == seq![Effect::SpawnGenerate { request_id }]
            &&& !(wait is Refreshed) || credentials is None || stream.params.api_keys is None
                ==> next == stream
            &&& next.params.api_keys is Some <==> stream.params.api_keys is Some
            &&& (next.params.api_keys matches Some(keys) ==> keys.grok_oauth_access_token
                == stream.params.api_keys->0.grok_oauth_access_token)
        }),
{
}

/// A stream's life so far.
pub struct Life {
    pub stream: ResponseStream,
    /// Everything that came of the reports, in order.
    pub effects: Seq<Effect>,
    /// The attempts that have been made.
    pub attempts: Set<RequestId>,
    /// The attempts for which connectivity is waited for, or was.
    pub waiting: Set<RequestId>,
    /// The attempts about which the last report has been made.
    pub ended: Set<RequestId>,
}

/// A stream's life before any report, with its first attempt under way.
pub open spec fn born(stream: ResponseStream, first: RequestId) -> Life {
    Life {
        stream,
        effects: seq![],
        attempts: set![first],
        waiting: set![],
        ended: set![],
    }
}

impl Life {
    /// Whether a report can come now. Random identifiers do not repeat; connectivity
    /// is reported to whom waits for it; nothing is reported about an attempt after
    /// the last report about it, or before it was made.
    pub open spec fn admits(self, happening: Happening) -> bool {
        &&& happening.fresh() matches Some(fresh) ==> !self.attempts.contains(fresh)
        &&& happening.attempt() matches Some(request_id) ==> {
            if happening is Online {
                self.waiting.contains(request_id)
            } else {
                self.attempts.contains(request_id) && !self.ended.contains(request_id)
            }
        }
    }

    /// The life with one more report.
    pub open spec fn with(self, happening: Happening) -> Life {
        let (stream, effects) = step(self.stream, happening);
        Life {
            stream,
            effects: self.effects + effects,
            attempts: Set::new(
                |id: RequestId|
                    self.attempts.contains(id) || effects.contains(
                        Effect::SpawnRequest { request_id: id },
                    ),
            ),
            waiting: Set::new(
                |id: RequestId|
                    self.waiting.contains(id) || effects.contains(
                        Effect::WaitUntilOnline { request_id: Some(id) },
                    ),
            ),
            ended: match happening.attempt() {
                Some(request_id) if happening.ends_attempt() => self.ended.insert(request_id),
                _ => self.ended,
            },
        }
    }

    /// Whether the stream has said that it is over.
    pub open spec fn finished(self) -> bool {
        exists|i: int| 0 <= i < self.effects.len() && is_finish(#[trigger] self.effects[i])
    }

    /// What holds throughout a life.
    pub open spec fn sound(self) -> bool {
        &&& self.stream.well_formed()
        &&& self.stream.current_request_id matches Some(id) ==> self.attempts.contains(id)
        &&& forall|id: RequestId| #[trigger]
            self.waiting.contains(id) ==> self.attempts.contains(id) && (
            self.stream.current_request_id == Some(id) ==> self.stream.deferred_retry_pending
                || self.stream.has_received_client_actions)
        &&& sends(self.effects) == self.stream.retry_count
        &&& self.finished() ==> !self.stream.cancellable && (self.stream.current_request_id matches Some(
            id,
        ) ==> self.ended.contains(id) && !self.stream.deferred_retry_pending)
        &&& forall|i: int, j: int|
            0 <= i < j < self.effects.len() && is_finish(#[trigger] self.effects[i])
                ==> !is_emission(#[trigger] self.effects[j])
    }
}

/// How often the request is sent.
pub open spec fn sends(effects: Seq<Effect>) -> nat
    decreases effects.len(),
{
    if effects.len() == 0 {
        0
    } else {
        sends(effects.drop_last()) + if is_send(effects.last()) {
            1nat
        } else {
            0
        }
    }
}

/// The life of a stream through a list of reports.
pub open spec fn lived(life: Life, happenings: Seq<Happening>) -> Life
    decreases happenings.len(),
{
    if happenings.len() == 0 {
        life
    } else {
        lived(life, happenings.drop_last()).with(happenings.last())
    }
}

/// Whether each of the reports can come when it comes.
pub open spec fn orderly(life: Life, happenings: Seq<Happening>) -> bool
    decreases happenings.len(),
{
    happenings.len() == 0 || orderly(life, happenings.drop_last()) && lived(
        life,
        happenings.drop_last(),
    ).admits(happenings.last())
}

/// Sends add up.
proof fn lemma_sends_add(a: Seq<Effect>, b: Seq<Effect>)
    ensures
        sends(a + b) == sends(a) + sends(b),
    decreases b.len(),
{
    if b.len() == 0 {
        assert(a + b =~= a);
    } else {
        assert((a + b).drop_last() =~= a + b.drop_last());
        lemma_sends_add(a, b.drop_last());
    }
}

/// Whether no effect sends the request.
pub open spec fn sends_nothing(effects: Seq<Effect>) -> bool {
    forall|i: int| 0 <= i < effects.len() ==> !is_send(#[trigger] effects[i])
}

/// Whether the last effect, and no other, sends the request, as attempt `fresh`.
pub open spec fn sends_last(effects: Seq<Effect>, fresh: RequestId) -> bool {
    &&& effects.len() > 0
    &&& effects.last() == (Effect::SpawnRequest { request_id: fresh })
    &&& sends_nothing(effects.drop_last())
}

/// The two ways in which a report can go: the stream stays with its attempt, unless
/// it is cancelled, or it makes a new one.
pub open spec fn stays_or_retries(stream: ResponseStream, happening: Happening) -> bool {
    let (next, effects) = step(stream, happening);
    ||| {
        &&& sends_nothing(effects)
        &&& next.retry_count == stream.retry_count
        &&& next.current_request_id == if happening is Cancelled {
            None
        } else {
            stream.current_request_id
        }
        &&& stream.deferred_retry_pending ==> next.deferred_retry_pending
            || next.has_received_client_actions
        &&& stream.has_received_client_actions ==> next.has_received_client_actions
    }
    ||| {
        &&& happening.fresh() matches Some(fresh)
        &&& sends_last(effects, fresh)
        &&& next.retry_count == stream.retry_count + 1
        &&& next.current_request_id == Some(fresh)
        &&& !next.deferred_retry_pending
    }
}

/// A failure sends the request only where it is retried at once, and then last.
proof fn lemma_failure_sends(
    stream: ResponseStream,
    error: AIApiError,
    is_online: bool,
    fresh: RequestId,
)
    requires
        stream.well_formed(),
    ensures
        ({
            let (next, effects) = crate::stream::failure_step(stream, error, is_online, fresh);
            if crate::stream::chosen_recovery(
                stream,
                error.profile.is_recoverable,
                is_online,
            ) is RetryNow {
                sends_last(effects, fresh) && next == crate::stream::retried(stream, fresh)
            } else {
                &&& sends_nothing(effects)
                &&& next.retry_count == stream.retry_count
                &&& next.current_request_id == stream.current_request_id
                &&& stream.deferred_retry_pending ==> next.deferred_retry_pending
                &&& next.has_received_client_actions == stream.has_received_client_actions
            }
        }),
{
    let (next, effects) = crate::stream::failure_step(stream, error, is_online, fresh);
    if crate::stream::chosen_recovery(
        stream,
        error.profile.is_recoverable,
        is_online,
    ) is RetryNow {
        let sent = crate::stream::retry_effects(stream, fresh);
        let all = seq![crate::stream::retryable_error(stream, error.profile.debug)] + sent;
        assert(effects == all);
        assert(all.last() == sent.last());
        assert(sends_nothing(all.drop_last()));
    }
}

/// An event goes in one of the two ways.
proof fn lemma_delivered_stays_or_retries(
    stream: ResponseStream,
    request_id: RequestId,
    event: Event,
    is_online: bool,
    moment: Timestamp,
    fresh: RequestId,
)
    requires
        stream.well_formed(),
    ensures
        stays_or_retries(
            stream,
            Happening::Delivered { request_id, event, is_online, moment, fresh },
        ),
{
    if stream.current_request_id == Some(request_id) {
        let timed = ResponseStream {
            time_to_latest_event: (moment.total_nanos() - stream.start_time.total_nanos()) as i128,
            ..stream
        };
        match event {
            Ok(response_event) => {
                assert(sends_nothing(
                    crate::stream::response_event_effects(timed, response_event),
                ));
            },
            Err(error) => {
                let noted = if timed.retry_count == 0 {
                    ResponseStream { original_error: Some(error.profile.debug), ..timed }
                } else {
                    timed
                };
                lemma_failure_sends(noted, error, is_online, fresh);
            },
        }
    }
}

/// The end of a response goes in one of the two ways.
proof fn lemma_completed_stays_or_retries(
    stream: ResponseStream,
    request_id: RequestId,
    eof: ErrorProfile,
    is_online: bool,
    fresh: RequestId,
)
    requires
        stream.well_formed(),
    ensures
        stays_or_retries(stream, Happening::Completed { request_id, eof, is_online, fresh }),
{
    let error = crate::stream::unexpected_eof(eof);
    let (failed, told) = crate::stream::failure_step(stream, error, is_online, fresh);
    lemma_failure_sends(stream, error, is_online, fresh);
    let over = told + seq![crate::stream::finished()];
    assert(sends_nothing(told) ==> sends_nothing(over)) by {
        if sends_nothing(told) {
            assert forall|i: int| 0 <= i < over.len() implies !is_send(#[trigger] over[i]) by {
                if i < told.len() {
                    assert(over[i] == told[i]);
                }
            }
        }
    }
}

/// The return of connectivity goes in one of the two ways.
proof fn lemma_online_stays_or_retries(
    stream: ResponseStream,
    request_id: RequestId,
    fresh: RequestId,
)
    requires
        stream.well_formed(),
        waits_are_parked(stream, Happening::Online { request_id, fresh }),
    ensures
        stays_or_retries(stream, Happening::Online { request_id, fresh }),
{
    if stream.awaits(Some(request_id)) {
        let effects = step(stream, Happening::Online { request_id, fresh }).1;
        let sent = crate::stream::retry_effects(stream, fresh);
        assert(effects.last() == sent.last());
        assert(sends_nothing(effects.drop_last()));
    }
}

/// Every report goes in one of the two ways.
proof fn lemma_stays_or_retries(stream: ResponseStream, happening: Happening)
    requires
        stream.well_formed(),
        waits_are_parked(stream, happening),
    ensures
        stays_or_retries(stream, happening),
{
    match happening {
        Happening::Delivered { request_id, event, is_online, moment, fresh } => {
            lemma_delivered_stays_or_retries(stream, request_id, event, is_online, moment, fresh);
        },
        Happening::Completed { request_id, eof, is_online, fresh } => {
            lemma_completed_stays_or_retries(stream, request_id, eof, is_online, fresh);
        },
        Happening::Online { request_id, fresh } => {
            lemma_online_stays_or_retries(stream, request_id, fresh);
        },
        _ => {
            assert(sends_nothing(step(stream, happening).1));
        },
    }
}

/// Effects that send nothing.
proof fn lemma_no_sends(effects: Seq<Effect>)
    requires
        sends_nothing(effects),
    ensures
        sends(effects) == 0,
        forall|id: RequestId|
            !(#[trigger] effects.contains(Effect::SpawnRequest { request_id: id })),
    decreases effects.len(),
{
    if effects.len() > 0 {
        assert(sends_nothing(effects.drop_last()));
        lemma_no_sends(effects.drop_last());
    }
    assert forall|id: RequestId| !(#[trigger] effects.contains(
        Effect::SpawnRequest { request_id: id },
    )) by {
        if effects.contains(Effect::SpawnRequest { request_id: id }) {
            let i = choose|i: int|
                0 <= i < effects.len() && effects[i] == (Effect::SpawnRequest { request_id: id });
            assert(is_send(effects[i]));
        }
    }
}

/// Effects of which the last one sends the request.
proof fn lemma_one_send(effects: Seq<Effect>, fresh: RequestId)
    requires
        sends_last(effects, fresh),
    ensures
        sends(effects) == 1,
        forall|id: RequestId| #[trigger]
            effects.contains(Effect::SpawnRequest { request_id: id }) <==> id == fresh,
{
    lemma_no_sends(effects.drop_last());
    assert(effects[effects.len() - 1] == Effect::SpawnRequest { request_id: fresh });
    assert forall|id: RequestId| #[trigger]
        effects.contains(Effect::SpawnRequest { request_id: id }) implies id == fresh by {
        let i = choose|i: int|
            0 <= i < effects.len() && effects[i] == (Effect::SpawnRequest { request_id: id });
        if i < effects.len() - 1 {
            assert(effects.drop_last()[i] == effects[i]);
        }
    }
}

/// What is waited for is the current attempt, whose retry is parked.
#[verifier::rlimit(40)]
proof fn lemma_waits_for_current(stream: ResponseStream, happening: Happening, id: RequestId)
    requires
        step(stream, happening).1.contains(Effect::WaitUntilOnline { request_id: Some(id) }),
    ensures
        stream.current_request_id == Some(id),
        step(stream, happening).0.deferred_retry_pending,
        step(stream, happening).0.current_request_id == Some(id),
{
    let (next, effects) = step(stream, happening);
    let i = choose|i: int|
        0 <= i < effects.len() && effects[i] == (Effect::WaitUntilOnline { request_id: Some(id) });
    assert(effects[i] is WaitUntilOnline);
}

/// A stream that is over says nothing more.
proof fn lemma_over_is_quiet(life: Life, happening: Happening)
    requires
        life.sound(),
        life.admits(happening),
        life.finished(),
    ensures
        forall|j: int|
            0 <= j < step(life.stream, happening).1.len() ==> !is_emission(
                #[trigger] step(life.stream, happening).1[j],
            ),
        !step(life.stream, happening).0.cancellable,
        step(life.stream, happening).0.current_request_id is None || step(
            life.stream,
            happening,
        ).0 == life.stream,
{
    if happening.attempt() is Some && happening.attempt() != life.stream.current_request_id {
        stale_reports_are_ignored(life.stream, happening);
    }
}

/// A report on which the stream says that it is over leaves it over, and says nothing
/// after that.
#[verifier::rlimit(40)]
proof fn lemma_finish_is_last(stream: ResponseStream, happening: Happening, i: int)
    requires
        0 <= i < step(stream, happening).1.len(),
        is_finish(step(stream, happening).1[i]),
    ensures
        i == step(stream, happening).1.len() - 1,
        !step(stream, happening).0.cancellable,
        happening is Cancelled ==> step(stream, happening).0.current_request_id is None,
        !(happening is Cancelled) ==> {
            &&& happening.ends_attempt()
            &&& step(stream, happening).0.current_request_id == happening.attempt()
            &&& !step(stream, happening).0.deferred_retry_pending
        },
{
    let (next, effects) = step(stream, happening);
    match happening {
        Happening::Delivered { request_id, event, .. } => {
            if stream.current_request_id == Some(request_id) {
                assert(forall|k: int| 0 <= k < effects.len() ==> !is_finish(#[trigger] effects[k]));
            }
        },
        Happening::Completed { request_id, eof, is_online, fresh } => {
            if stream.stream_finished_received || stream.error_event_emitted {
                assert(effects.len() == 1);
            } else {
                let (failed, told) = crate::stream::failure_step(
                    stream,
                    crate::stream::unexpected_eof(eof),
                    is_online,
                    fresh,
                );
                assert(forall|k: int| 0 <= k < told.len() ==> !is_finish(#[trigger] told[k]));
            }
        },
        Happening::Sent { .. } => {
            assert(effects.len() <= 4);
        },
        Happening::GrokRefreshed { .. } => {
            assert(effects.len() <= 3);
        },
        _ => {},
    }
}

/// One report keeps a sound life sound.
proof fn lemma_sound_step(life: Life, happening: Happening)
    requires
        life.sound(),
        life.admits(happening),
    ensures
        life.with(happening).sound(),
{
    let stream = life.stream;
    let (next, effects) = step(stream, happening);
    let after = life.with(happening);
    reports_keep_streams_well_formed(stream, happening);
    lemma_stays_or_retries(stream, happening);
    lemma_sends_add(life.effects, effects);
    if sends_nothing(effects) {
        lemma_no_sends(effects);
    } else {
        lemma_one_send(effects, happening.fresh()->0);
    }
    assert forall|id: RequestId| #[trigger] after.waiting.contains(id) implies
        after.attempts.contains(id) && (next.current_request_id == Some(id)
        ==> next.deferred_retry_pending || next.has_received_client_actions) by {
        if !life.waiting.contains(id) {
            lemma_waits_for_current(stream, happening, id);
        }
    }
    let n = life.effects.len() as int;
    if life.finished() {
        lemma_over_is_quiet(life, happening);
    } else if after.finished() {
        let i = choose|i: int|
            0 <= i < after.effects.len() && is_finish(#[trigger] after.effects[i]);
        assert(i < n ==> after.effects[i] == life.effects[i]);
        assert(after.effects[i] == effects[i - n]);
        lemma_finish_is_last(stream, happening, i - n);
    }
    assert forall|i: int, j: int|
        0 <= i < j < after.effects.len() && is_finish(
            #[trigger] after.effects[i],
        ) implies !is_emission(#[trigger] after.effects[j]) by {
        if i < n {
            assert(after.effects[i] == life.effects[i]);
            if j < n {
                assert(after.effects[j] == life.effects[j]);
            } else {
                assert(after.effects[j] == effects[j - n]);
            }
        } else {
            assert(after.effects[i] == effects[i - n]);
            lemma_finish_is_last(stream, happening, i - n);
        }
    }
}

/// A life that starts with a stream at its start stays sound.
proof fn lemma_lives_are_sound(
    stream: ResponseStream,
    first: RequestId,
    happenings: Seq<Happening>,
)
    requires
        crate::stream::is_initial(stream),
        stream.current_request_id == Some(first),
        orderly(born(stream, first), happenings),
    ensures
        lived(born(stream, first), happenings).sound(),
    decreases happenings.len(),
{
    if happenings.len() > 0 {
        lemma_lives_are_sound(stream, first, happenings.drop_last());
        lemma_sound_step(
            lived(born(stream, first), happenings.drop_last()),
            happenings.last(),
        );
    }
}

/// Whatever happens to a stream, its request is re-sent at most `MAX_RETRIES` times,
/// once for every retry that the stream counts.
pub proof fn requests_are_resent_a_bounded_number_of_times(
    stream: ResponseStream,
    first: RequestId,
    happenings: Seq<Happening>,
)
    requires
        crate::stream::is_initial(stream),
        stream.current_request_id == Some(first),
        orderly(born(stream, first), happenings),
    ensures
        sends(lived(born(stream, first), happenings).effects) == lived(
            born(stream, first),
            happenings,
        ).stream.retry_count,
        sends(lived(born(stream, first), happenings).effects) <= MAX_RETRIES,
{
    lemma_lives_are_sound(stream, first, happenings);
}

/// Whatever happens to a stream, it says at most once that it is over, and says
/// nothing after that.
pub proof fn streams_finish_once(
    stream: ResponseStream,
    first: RequestId,
    happenings: Seq<Happening>,
    i: int,
    j: int,
)
    requires
        crate::stream::is_initial(stream),
        stream.current_request_id == Some(first),
        orderly(born(stream, first), happenings),
        0 <= i < j < lived(born(stream, first), happenings).effects.len(),
        is_finish(lived(born(stream, first), happenings).effects[i]),
    ensures
        !is_emission(lived(born(stream, first), happenings).effects[j]),
{
    lemma_lives_are_sound(stream, first, happenings);
}

/// A request that is itself a resume is never followed by another, whatever happens
/// to it: recovery is bounded to a single resume.
pub proof fn resumes_are_not_resumed(
    stream: ResponseStream,
    first: RequestId,
    happenings: Seq<Happening>,
)
    requires
        crate::stream::is_initial(stream),
        !stream.can_attempt_resume_on_error,
    ensures
        !lived(born(stream, first), happenings).stream.can_attempt_resume_on_error,
        !lived(
            born(stream, first),
            happenings,
        ).stream.should_resume_conversation_after_stream_finished,
    decreases happenings.len(),
{
    if happenings.len() > 0 {
        resumes_are_not_resumed(stream, first, happenings.drop_last());
        let before = lived(born(stream, first), happenings.drop_last());
        reports_keep_the_request(before.stream, happenings.last());
        if step(
            before.stream,
            happenings.last(),
        ).0.should_resume_conversation_after_stream_finished {
            resumes_follow_client_actions(before.stream, happenings.last());
        }
    }
}

/// Once a stream has been cancelled, nothing that is reported to it changes it, and
/// nothing is emitted.
pub proof fn cancellation_is_final(
    stream: ResponseStream,
    reason: CancellationReason,
    conversation_id: AIConversationId,
    first: RequestId,
    happenings: Seq<Happening>,
)
    ensures
        ({
            let cancelled = crate::stream::cancel_step(stream, reason, conversation_id).0;
            let life = lived(born(cancelled, first), happenings);
            &&& life.stream == cancelled
            &&& forall|i: int|
                0 <= i < life.effects.len() ==> !is_emission(#[trigger] life.effects[i])
        }),
    decreases happenings.len(),
{
    if happenings.len() > 0 {
        let cancelled = crate::stream::cancel_step(stream, reason, conversation_id).0;
        let last = happenings.last();
        cancellation_is_final(stream, reason, conversation_id, first, happenings.drop_last());
        let before = lived(born(cancelled, first), happenings.drop_last());
        if last.attempt() is Some {
            stale_reports_are_ignored(cancelled, last);
        }
        let life = lived(born(cancelled, first), happenings);
        let n = before.effects.len() as int;
        assert forall|i: int| 0 <= i < life.effects.len() implies !is_emission(
            #[trigger] life.effects[i],
        ) by {
            if i < n {
                assert(life.effects[i] == before.effects[i]);
            } else {
                assert(life.effects[i] == step(cancelled, last).1[i - n]);
            }
        }
    }
}

} // verus!
