use response_stream::api::{
    apply_geap_refresh_to_params, geap_token, ApiKeys, GoogleCloudCredentials, RequestParams,
};

fn credentials(access_token: &str) -> GoogleCloudCredentials {
    GoogleCloudCredentials {
        access_token: access_token.to_string(),
    }
}

fn params_with_geap_token(access_token: &str) -> RequestParams {
    let mut params = RequestParams::new_for_test();
    params.api_keys = Some(ApiKeys {
        grok_oauth_access_token: String::new(),
        google_cloud_credentials: None,
    });
    params.api_keys.as_mut().unwrap().google_cloud_credentials = Some(credentials(access_token));
    params
}

#[test]
fn geap_refresh_success_swaps_in_the_fresh_credential() {
    let mut params = params_with_geap_token("expired-token");

    apply_geap_refresh_to_params(&mut params, Some(credentials("fresh-token")));

    assert_eq!(geap_token(&params), Some("fresh-token"));
}

#[test]
fn geap_refresh_failure_leaves_the_request_snapshot_untouched() {
    // A failed mint, a timeout, and a dropped sender all arrive here as
    // `None`. The request must go out byte-for-byte as it would have without
    // the refresh attempt: the credential stays attached (so the server keeps
    // Gemini Enterprise in its fallback chain and reports a real credentials
    // error) rather than being stripped (which would silently reroute the
    // request to another host).
    let mut params = params_with_geap_token("expired-token");

    apply_geap_refresh_to_params(&mut params, None);

    assert_eq!(geap_token(&params), Some("expired-token"));
    assert_eq!(params, params_with_geap_token("expired-token"));
}

#[test]
fn geap_refresh_does_not_add_credentials_to_a_keyless_request() {
    // A request that carries no API keys at all is left alone, so the refresh
    // path can never introduce credentials the snapshot did not already gate.
    let mut params = RequestParams::new_for_test();
    params.api_keys = None;

    apply_geap_refresh_to_params(&mut params, Some(credentials("fresh-token")));

    assert!(params.api_keys.is_none());
}

#[test]
fn geap_token_is_absent_without_keys_or_credentials() {
    let mut params = RequestParams::new_for_test();
    assert_eq!(geap_token(&params), None);
    params.api_keys = Some(ApiKeys {
        grok_oauth_access_token: "grok".to_string(),
        google_cloud_credentials: None,
    });
    assert_eq!(geap_token(&params), None);
    apply_geap_refresh_to_params(&mut params, Some(credentials("minted")));
    assert_eq!(geap_token(&params), Some("minted"));
    assert_eq!(params.api_keys.unwrap().grok_oauth_access_token, "grok");
}
