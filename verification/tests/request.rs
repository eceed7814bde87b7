use response_stream::api::{
    AIIdentifiers, ApiKeys, ErrorProfile, GoogleCloudCredentials, RequestParams,
};
use response_stream::clock::Timestamp;
use response_stream::ids::{RequestId, ResponseStreamId};
use response_stream::request::{
    spawn_request, InferenceProvider, LLMHostConfig, LLMInfo, LLMProvider, RefreshWait,
    SpawnAnswer, SpawnStep,
};
use response_stream::stream::{Effect, ResponseStream, ResponseStreamEvent};

const API: InferenceProvider = InferenceProvider::MultiAgentApi;

fn llm(provider: LLMProvider, gemini_enterprise: Option<bool>) -> Option<LLMInfo> {
    Some(LLMInfo {
        provider,
        gemini_enterprise: gemini_enterprise.map(|enabled| LLMHostConfig { enabled }),
    })
}

/// Asks until there is nothing left to ask.
fn route(
    provider: InferenceProvider,
    llm: Option<LLMInfo>,
    grok: bool,
    binding: bool,
    geap: bool,
) -> SpawnStep {
    let mut step = spawn_request(provider, llm, SpawnAnswer::Start);
    loop {
        let answer = match step {
            SpawnStep::BeginGrokRefresh => SpawnAnswer::GrokRefresh { started: grok },
            SpawnStep::ReadGeapBinding => SpawnAnswer::GeapBinding { present: binding },
            SpawnStep::BeginGeapRefresh => SpawnAnswer::GeapRefresh { started: geap },
            _ => return step,
        };
        step = spawn_request(provider, llm, answer);
    }
}

#[test]
fn codex_takes_every_request() {
    assert_eq!(
        route(
            InferenceProvider::Codex,
            llm(LLMProvider::Xai, Some(true)),
            true,
            true,
            true
        ),
        SpawnStep::SpawnCodexGenerate
    );
}

#[test]
fn requests_for_other_providers_are_sent_directly() {
    assert_eq!(
        spawn_request(API, llm(LLMProvider::Other, None), SpawnAnswer::Start),
        SpawnStep::SpawnGenerate
    );
    assert_eq!(
        spawn_request(API, llm(LLMProvider::Other, Some(false)), SpawnAnswer::Start),
        SpawnStep::SpawnGenerate
    );
    assert_eq!(
        spawn_request(API, None, SpawnAnswer::Start),
        SpawnStep::SpawnGenerate
    );
}

#[test]
fn expired_subscription_tokens_are_waited_for() {
    assert_eq!(
        route(API, llm(LLMProvider::Xai, None), true, true, true),
        SpawnStep::AwaitGrokRefresh { timeout_secs: 5 }
    );
    assert_eq!(
        route(API, llm(LLMProvider::Xai, None), false, true, true),
        SpawnStep::SpawnGenerate
    );
}

#[test]
fn expired_minted_credentials_are_waited_for() {
    let model = llm(LLMProvider::Other, Some(true));
    assert_eq!(
        route(API, model, true, true, true),
        SpawnStep::AwaitGeapRefresh { timeout_secs: 10 }
    );
    assert_eq!(route(API, model, true, false, true), SpawnStep::SpawnGenerate);
    assert_eq!(route(API, model, true, true, false), SpawnStep::SpawnGenerate);
    // A usable subscription token does not spare the minted credential.
    assert_eq!(
        route(API, llm(LLMProvider::Xai, Some(true)), false, true, true),
        SpawnStep::AwaitGeapRefresh { timeout_secs: 10 }
    );
}

const FIRST: RequestId = RequestId(7);
const STALE: RequestId = RequestId(8);

fn stream(keys: bool) -> ResponseStream {
    let mut params = RequestParams::new_for_test();
    if keys {
        params.api_keys = Some(ApiKeys {
            grok_oauth_access_token: "old-grok".to_string(),
            google_cloud_credentials: Some(credentials("old-geap")),
        });
    }
    ResponseStream::start(
        ResponseStreamId::new_for_test(),
        params,
        AIIdentifiers {
            server_output_id: None,
            rest: String::new(),
        },
        true,
        Timestamp {
            seconds: 0,
            nanos: 0,
        },
        FIRST,
    )
}

fn credentials(token: &str) -> GoogleCloudCredentials {
    GoogleCloudCredentials {
        access_token: token.to_string(),
    }
}

fn profile() -> ErrorProfile {
    ErrorProfile {
        is_recoverable: false,
        debug: "grok".to_string(),
    }
}

fn generates(effects: &[Effect]) -> bool {
    matches!(effects, [Effect::SpawnGenerate { request_id }] if *request_id == FIRST)
}

fn tokens(stream: &ResponseStream) -> Option<(&str, &str)> {
    let keys = stream.params.api_keys.as_ref()?;
    let minted = keys.google_cloud_credentials.as_ref()?;
    Some((
        keys.grok_oauth_access_token.as_str(),
        minted.access_token.as_str(),
    ))
}

#[test]
fn a_refreshed_subscription_token_is_sent() {
    let mut stream = stream(true);
    let effects = stream.on_grok_refresh_finished(
        FIRST,
        RefreshWait::Refreshed,
        Some("new-grok".to_string()),
        profile(),
        true,
    );
    assert!(generates(&effects));
    assert_eq!(tokens(&stream), Some(("new-grok", "old-geap")));
    let effects =
        stream.on_grok_refresh_finished(FIRST, RefreshWait::Refreshed, None, profile(), true);
    assert!(generates(&effects));
    assert_eq!(tokens(&stream), Some(("new-grok", "old-geap")));
}

#[test]
fn a_keyless_request_gets_no_subscription_token() {
    let mut stream = stream(false);
    let effects = stream.on_grok_refresh_finished(
        FIRST,
        RefreshWait::Refreshed,
        Some("new-grok".to_string()),
        profile(),
        true,
    );
    assert!(generates(&effects));
    assert!(stream.params.api_keys.is_none());
}

#[test]
fn a_dead_subscription_token_is_never_sent() {
    for wait in [
        RefreshWait::Failed,
        RefreshWait::Dropped,
        RefreshWait::TimedOut,
    ] {
        let mut stream = stream(true);
        let effects = stream.on_grok_refresh_finished(
            FIRST,
            wait,
            Some("new-grok".to_string()),
            profile(),
            true,
        );
        assert_eq!(effects.len(), 3);
        assert!(matches!(effects[0], Effect::ReportFailure(_)));
        assert!(matches!(
            effects[1],
            Effect::Emit(ResponseStreamEvent::ReceivedEvent(_))
        ));
        assert!(matches!(
            effects[2],
            Effect::Emit(ResponseStreamEvent::AfterStreamFinished { cancellation: None })
        ));
        assert_eq!(tokens(&stream), Some(("old-grok", "old-geap")));
        assert!(!stream.cancellable);
    }
}

#[test]
fn a_mint_never_fails_the_request() {
    for wait in [
        RefreshWait::Failed,
        RefreshWait::Dropped,
        RefreshWait::TimedOut,
    ] {
        let mut stream = stream(true);
        let effects = stream.on_geap_refresh_finished(FIRST, wait, Some(credentials("new-geap")));
        assert!(generates(&effects));
        assert_eq!(tokens(&stream), Some(("old-grok", "old-geap")));
    }
    let mut stream = stream(true);
    let effects = stream.on_geap_refresh_finished(FIRST, RefreshWait::Refreshed, None);
    assert!(generates(&effects));
    assert_eq!(tokens(&stream), Some(("old-grok", "old-geap")));
    let effects = stream.on_geap_refresh_finished(
        FIRST,
        RefreshWait::Refreshed,
        Some(credentials("new-geap")),
    );
    assert!(generates(&effects));
    assert_eq!(tokens(&stream), Some(("old-grok", "new-geap")));
}

#[test]
fn refreshes_of_another_attempt_are_dropped() {
    let mut stream = stream(true);
    let effects = stream.on_grok_refresh_finished(
        STALE,
        RefreshWait::Refreshed,
        Some("new-grok".to_string()),
        profile(),
        true,
    );
    assert!(effects.is_empty());
    let effects =
        stream.on_grok_refresh_finished(STALE, RefreshWait::Failed, None, profile(), true);
    assert!(effects.is_empty());
    let effects = stream.on_geap_refresh_finished(
        STALE,
        RefreshWait::Refreshed,
        Some(credentials("new-geap")),
    );
    assert!(effects.is_empty());
    assert_eq!(tokens(&stream), Some(("old-grok", "old-geap")));
}
