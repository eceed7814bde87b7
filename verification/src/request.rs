//! How a request is sent: which credentials are refreshed first, and what is done
//! with the outcome of a refresh.
//!
//! Sending alternates questions to the host and decisions: `spawn_request` takes the
//! answer to the last question and says what to do next.
use crate::api::{
    apply_geap_refresh_to_params, AIApiError, AIApiErrorKind, ErrorProfile, GoogleCloudCredentials,
    RequestParams,
};
use crate::ids::RequestId;
use crate::stream::{Effect, ResponseStream};
use vstd::prelude::*;

verus! {

/// Maximum time, in seconds, to wait for a request-time refresh of the subscription
/// token. Bounded so that a hung refresh cannot stall the request.
pub const GROK_REFRESH_REQUEST_TIMEOUT_SECS: u64 = 5;

/// How long, in seconds, a request is held for a request-time mint of a Gemini
/// Enterprise credential before it is sent anyway.
pub const GEAP_REFRESH_REQUEST_TIMEOUT_SECS: u64 = 10;

/// Who serves the inference.
#[derive(Debug, Clone, Copy, PartialEq, Eq, Structural)]
pub enum InferenceProvider {
    MultiAgentApi,
    Codex,
}

/// Who provides a model.
#[derive(Debug, Clone, Copy, PartialEq, Eq, Structural)]
pub enum LLMProvider {
    Xai,
    Other,
}

/// How a host may serve a model.
#[derive(Debug, Clone, Copy, PartialEq, Eq, Structural)]
pub struct LLMHostConfig {
    pub enabled: bool,
}

/// What is known of the request's model.
#[derive(Debug, Clone, Copy, PartialEq, Eq, Structural)]
pub struct LLMInfo {
    pub provider: LLMProvider,
    /// The configuration of the Gemini Enterprise host, where the model has one.
    pub gemini_enterprise: Option<LLMHostConfig>,
}

/// What the host has found out so far.
#[derive(Debug, Clone, Copy, PartialEq, Eq, Structural)]
pub enum SpawnAnswer {
    /// Nothing yet.
    Start,
    /// Whether the subscription token had expired, so that a refresh was started.
    GrokRefresh { started: bool },
    /// Whether the workspace's policy binds requests to minted credentials.
    GeapBinding { present: bool },
    /// Whether the minted credential had expired, so that a refresh was started.
    GeapRefresh { started: bool },
}

/// What to do next.
#[derive(Debug, Clone, Copy, PartialEq, Eq, Structural)]
pub enum SpawnStep {
    /// Hand the request to the Codex app-server.
    SpawnCodexGenerate,
    /// Start refreshing the subscription token if it has expired, and say so.
    BeginGrokRefresh,
    /// Wait for the refresh of the subscription token.
    AwaitGrokRefresh { timeout_secs: u64 },
    /// Read whether the workspace's policy binds requests to minted credentials.
    ReadGeapBinding,
    /// Start minting a credential if the current one has expired, and say so.
    BeginGeapRefresh,
    /// Wait for the mint.
    AwaitGeapRefresh { timeout_secs: u64 },
    /// Hand the request to the API.
    SpawnGenerate,
}

/// Whether a request uses the connected subscription. That is the only client-side
/// source of authorization for its provider, so the provider tells.
pub open spec fn uses_grok_subscription(llm: Option<LLMInfo>) -> bool {
    llm matches Some(info) && info.provider is Xai
}

/// Whether a request may be routed to Gemini Enterprise.
pub open spec fn uses_geap(llm: Option<LLMInfo>) -> bool {
    &&& llm matches Some(info)
    &&& info.gemini_enterprise matches Some(host)
    &&& host.enabled
}

/// What is done next about a request that needs no subscription token.
pub open spec fn step_after_grok(llm: Option<LLMInfo>) -> SpawnStep {
    if uses_geap(llm) {
        SpawnStep::ReadGeapBinding
    } else {
        SpawnStep::SpawnGenerate
    }
}

/// What is done next about a request.
pub open spec fn next_step(
    provider: InferenceProvider,
    llm: Option<LLMInfo>,
    answer: SpawnAnswer,
) -> SpawnStep {
    match answer {
        SpawnAnswer::Start => if provider is Codex {
            SpawnStep::SpawnCodexGenerate
        } else if uses_grok_subscription(llm) {
            SpawnStep::BeginGrokRefresh
        } else {
            step_after_grok(llm)
        },
        SpawnAnswer::GrokRefresh { started } => if started {
            SpawnStep::AwaitGrokRefresh { timeout_secs: GROK_REFRESH_REQUEST_TIMEOUT_SECS }
        } else {
            step_after_grok(llm)
        },
        SpawnAnswer::GeapBinding { present } => if present {
            SpawnStep::BeginGeapRefresh
        } else {
            SpawnStep::SpawnGenerate
        },
        SpawnAnswer::GeapRefresh { started } => if started {
            SpawnStep::AwaitGeapRefresh { timeout_secs: GEAP_REFRESH_REQUEST_TIMEOUT_SECS }
        } else {
            SpawnStep::SpawnGenerate
        },
    }
}

/// What to do next about a request: ask the host something, wait for a refresh, or
/// send it.
pub fn spawn_request(
    provider: InferenceProvider,
    llm: Option<LLMInfo>,
    answer: SpawnAnswer,
) -> (step: SpawnStep)
    ensures
        step == next_step(provider, llm, answer),
{
    match answer {
        SpawnAnswer::Start => {
            if provider == InferenceProvider::Codex {
                return SpawnStep::SpawnCodexGenerate;
            }
            if let Some(info) = llm {
                if info.provider == LLMProvider::Xai {
                    return SpawnStep::BeginGrokRefresh;
                }
            }
        },
        SpawnAnswer::GrokRefresh { started } => {
            if started {
                return SpawnStep::AwaitGrokRefresh {
                    timeout_secs: GROK_REFRESH_REQUEST_TIMEOUT_SECS,
                };
            }
        },
        SpawnAnswer::GeapBinding { present } => {
            return if present {
                SpawnStep::BeginGeapRefresh
            } else {
                SpawnStep::SpawnGenerate
            };
        },
        SpawnAnswer::GeapRefresh { started } => {
            return if started {
                SpawnStep::AwaitGeapRefresh { timeout_secs: GEAP_REFRESH_REQUEST_TIMEOUT_SECS }
            } else {
                SpawnStep::SpawnGenerate
            };
        },
    }
    if let Some(info) = llm {
        if let Some(host) = info.gemini_enterprise {
            if host.enabled {
                return SpawnStep::ReadGeapBinding;
            }
        }
    }
    SpawnStep::SpawnGenerate
}

/// What the host answers to each question, if asked.
pub struct HostAnswers {
    pub grok_refresh_started: bool,
    pub geap_binding_present: bool,
    pub geap_refresh_started: bool,
}

/// How far a step is from the end of the questions.
pub open spec fn questions_left(step: SpawnStep) -> nat {
    match step {
        SpawnStep::BeginGrokRefresh => 3,
        SpawnStep::ReadGeapBinding => 2,
        SpawnStep::BeginGeapRefresh => 1,
        _ => 0,
    }
}

/// Where the questions end, from the given step on.
pub open spec fn resolve(
    provider: InferenceProvider,
    llm: Option<LLMInfo>,
    answers: HostAnswers,
    step: SpawnStep,
) -> SpawnStep
    decreases questions_left(step),
{
    match step {
        SpawnStep::BeginGrokRefresh => resolve(
            provider,
            llm,
            answers,
            next_step(
                provider,
                llm,
                SpawnAnswer::GrokRefresh { started: answers.grok_refresh_started },
            ),
        ),
        SpawnStep::ReadGeapBinding => resolve(
            provider,
            llm,
            answers,
            next_step(
                provider,
                llm,
                SpawnAnswer::GeapBinding { present: answers.geap_binding_present },
            ),
        ),
        SpawnStep::BeginGeapRefresh => resolve(
            provider,
            llm,
            answers,
            next_step(
                provider,
                llm,
                SpawnAnswer::GeapRefresh { started: answers.geap_refresh_started },
            ),
        ),
        _ => step,
    }
}

/// A request goes to Codex where Codex serves the inference. Otherwise it waits for
/// an expired subscription token if it uses the subscription, else for an expired
/// Gemini Enterprise credential if it may go there and one is bound; a request with
/// valid credentials, or for another provider, is sent directly.
pub proof fn requests_wait_only_for_expired_credentials(
    provider: InferenceProvider,
    llm: Option<LLMInfo>,
    answers: HostAnswers,
)
    ensures
        resolve(provider, llm, answers, next_step(provider, llm, SpawnAnswer::Start)) == (
        if provider is Codex {
            SpawnStep::SpawnCodexGenerate
        } else if uses_grok_subscription(llm) && answers.grok_refresh_started {
            SpawnStep::AwaitGrokRefresh { timeout_secs: 5 }
        } else if uses_geap(llm) && answers.geap_binding_present && answers.geap_refresh_started {
            SpawnStep::AwaitGeapRefresh { timeout_secs: 10 }
        } else {
            SpawnStep::SpawnGenerate
        }),
{
    reveal_with_fuel(resolve, 5);
}

/// How the wait for a credential refresh ended.
#[derive(Debug, Clone, Copy, PartialEq, Eq, Structural)]
pub enum RefreshWait {
    /// The credential was refreshed.
    Refreshed,
    /// The refresh ended without a fresh credential.
    Failed,
    /// Whoever ran the refresh went away.
    Dropped,
    /// The refresh did not end in time.
    TimedOut,
}

/// The request with its subscription token replaced, where it carries keys at all
/// and there is a fresh token.
pub open spec fn with_fresh_token(params: RequestParams, fresh: Option<String>) -> RequestParams {
    match (params.api_keys, fresh) {
        (Some(keys), Some(token)) => RequestParams {
            api_keys: Some(crate::api::ApiKeys { grok_oauth_access_token: token, ..keys }),
            ..params
        },
        _ => params,
    }
}

/// The state and effects of the end of the wait for a subscription token.
pub open spec fn grok_refresh_step(
    stream: ResponseStream,
    request_id: RequestId,
    wait: RefreshWait,
    access_token: Option<String>,
    failure: ErrorProfile,
    is_online: bool,
) -> (ResponseStream, Seq<Effect>) {
    if stream.current_request_id != Some(request_id) {
        (stream, seq![])
    } else if wait is Refreshed {
        (
            ResponseStream { params: with_fresh_token(stream.params, access_token), ..stream },
            seq![Effect::SpawnGenerate { request_id }],
        )
    } else {
        crate::stream::terminal_error_step(
            stream,
            request_id,
            AIApiError {
                kind: AIApiErrorKind::GrokSubscriptionTokenRefreshFailed,
                profile: failure,
            },
            is_online,
        )
    }
}

/// The state and effects of the end of the wait for a minted credential.
pub open spec fn geap_refresh_step(
    stream: ResponseStream,
    request_id: RequestId,
    wait: RefreshWait,
    credentials: Option<GoogleCloudCredentials>,
) -> (ResponseStream, Seq<Effect>) {
    if stream.current_request_id != Some(request_id) {
        (stream, seq![])
    } else {
        let fresh = if wait is Refreshed {
            credentials
        } else {
            None
        };
        (
            ResponseStream {
                params: crate::api::with_fresh_credentials(stream.params, fresh),
                ..stream
            },
            seq![Effect::SpawnGenerate { request_id }],
        )
    }
}

impl ResponseStream {
    /// Ends the wait of attempt `request_id` for a subscription token. With a
    /// refreshed token the request is sent, carrying `access_token`; otherwise the
    /// error that `failure` describes is surfaced. An attempt that was cancelled or
    /// superseded meanwhile is dropped.
    pub fn on_grok_refresh_finished(
        &mut self,
        request_id: RequestId,
        wait: RefreshWait,
        access_token: Option<String>,
        failure: ErrorProfile,
        is_online: bool,
    ) -> (effects: Vec<Effect>)
        ensures
            (*final(self), effects@) == grok_refresh_step(
                *old(self),
                request_id,
                wait,
                access_token,
                failure,
                is_online,
            ),
    {
        let mut effects: Vec<Effect> = Vec::new();
        if self.current_request_id != Some(request_id) {
            return effects;
        }
        if wait != RefreshWait::Refreshed {
            return self.surface_grok_refresh_failure(request_id, failure, is_online);
        }
        if let Some(token) = access_token {
            if let Some(keys) = self.params.api_keys.as_mut() {
                keys.grok_oauth_access_token = token;
            }
        }
        effects.push(Effect::SpawnGenerate { request_id });
        effects
    }

    /// Ends the wait of attempt `request_id` for a minted credential. The request is
    /// sent in any case: with the fresh credential where there is one, else as it
    /// was. An attempt that was cancelled or superseded meanwhile is dropped.
    pub fn on_geap_refresh_finished(
        &mut self,
        request_id: RequestId,
        wait: RefreshWait,
        credentials: Option<GoogleCloudCredentials>,
    ) -> (effects: Vec<Effect>)
        ensures
            (*final(self), effects@) == geap_refresh_step(
                *old(self),
                request_id,
                wait,
                credentials,
            ),
    {
        let mut effects: Vec<Effect> = Vec::new();
        if self.current_request_id != Some(request_id) {
            return effects;
        }
        if wait == RefreshWait::Refreshed {
            apply_geap_refresh_to_params(&mut self.params, credentials);
        }
        effects.push(Effect::SpawnGenerate { request_id });
        effects
    }
}

/// A request goes to Codex at once where Codex serves the inference, whatever its
/// model. Otherwise the subscription token is looked at first for a model of that
/// provider, and only for one; then the minted credentials, for a model whose Gemini
/// Enterprise host is enabled, whoever provides it; any other request is sent at once.
pub proof fn requests_are_routed_by_their_model(provider: InferenceProvider, llm: Option<LLMInfo>)
    ensures
        ({
            let first = next_step(provider, llm, SpawnAnswer::Start);
            let subscribed = llm is Some && llm->0.provider == LLMProvider::Xai;
            let bound = llm is Some && llm->0.gemini_enterprise is Some
                && llm->0.gemini_enterprise->0.enabled;
            &&& first == SpawnStep::SpawnCodexGenerate <==> provider == InferenceProvider::Codex
            &&& first == SpawnStep::BeginGrokRefresh <==> provider != InferenceProvider::Codex
                && subscribed
            &&& first == SpawnStep::ReadGeapBinding <==> provider != InferenceProvider::Codex
                && !subscribed && bound
            &&& first == SpawnStep::SpawnGenerate <==> provider != InferenceProvider::Codex
                && !subscribed && !bound
        }),
{
}

/// A refresh that was started is waited for, for five seconds for a subscription token
/// and for ten for a minted credential. A subscription token that is still good leads
/// on to the minted credentials; a mint is only begun where the policy binds one; and
/// where there is nothing to wait for the request is sent.
pub proof fn requests_wait_for_what_was_started(provider: InferenceProvider, llm: Option<LLMInfo>)
    ensures
        next_step(provider, llm, SpawnAnswer::GrokRefresh { started: true })
            == (SpawnStep::AwaitGrokRefresh { timeout_secs: 5 }),
        next_step(provider, llm, SpawnAnswer::GrokRefresh { started: false }) == if llm is Some
            && llm->0.gemini_enterprise is Some && llm->0.gemini_enterprise->0.enabled {
            SpawnStep::ReadGeapBinding
        } else {
            SpawnStep::SpawnGenerate
        },
        next_step(provider, llm, SpawnAnswer::GeapBinding { present: true })
            == SpawnStep::BeginGeapRefresh,
        next_step(provider, llm, SpawnAnswer::GeapBinding { present: false })
            == SpawnStep::SpawnGenerate,
        next_step(provider, llm, SpawnAnswer::GeapRefresh { started: true })
            == (SpawnStep::AwaitGeapRefresh { timeout_secs: 10 }),
        next_step(provider, llm, SpawnAnswer::GeapRefresh { started: false })
            == SpawnStep::SpawnGenerate,
{
}

} // verus!
