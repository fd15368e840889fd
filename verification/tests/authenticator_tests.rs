use pandora_core::authenticator::{
    auth_url, create_authorization, minecraft_login_url, minecraft_profile_url, msa_error_of_failure,
    process_authenticate_minecraft, process_code_exchange, process_obtain_xsts,
    process_profile_response, process_refresh_msa, process_xbox_authenticate, server_address,
    token_url, xbox_authenticate_url, xsts_authorize_url, MinecraftLoginData, MsaAuthorizationError,
    MsaErrorCode, MsaServerError, MsaTokenData, TokenRequestFailure, XboxAuthenticateError,
    XboxTokenData, XstsResponseData,
};
use pandora_core::models::MinecraftProfileResponse;

fn msa_data(expires_in: Option<u64>) -> MsaTokenData {
    MsaTokenData {
        access_token: "acc".to_string(),
        expires_in,
        refresh_token: Some("ref".to_string()),
    }
}

#[test]
fn connection_error_predicates() {
    assert!(MsaAuthorizationError::ConnectionError("x".to_string()).is_connection_error());
    assert!(!MsaAuthorizationError::InvalidGrant.is_connection_error());
    assert!(!MsaAuthorizationError::InternalError.is_connection_error());
    assert!(XboxAuthenticateError::ConnectionError("x".to_string()).is_connection_error());
    assert!(!XboxAuthenticateError::NonOkHttpStatus(401).is_connection_error());
    assert!(!XboxAuthenticateError::MissingXui.is_connection_error());
}

#[test]
fn msa_error_mapping_classifies_every_failure() {
    assert_eq!(
        msa_error_of_failure(TokenRequestFailure::ServerResponse(MsaServerError::InvalidGrant)),
        MsaAuthorizationError::InvalidGrant
    );
    assert_eq!(
        msa_error_of_failure(TokenRequestFailure::ServerResponse(MsaServerError::InvalidClient)),
        MsaAuthorizationError::ExternalError(Some(MsaErrorCode::InvalidClient))
    );
    assert_eq!(
        msa_error_of_failure(TokenRequestFailure::ServerResponse(MsaServerError::Extension)),
        MsaAuthorizationError::ExternalError(None)
    );
    assert_eq!(
        msa_error_of_failure(TokenRequestFailure::Request("down".to_string())),
        MsaAuthorizationError::ConnectionError("down".to_string())
    );
    assert_eq!(msa_error_of_failure(TokenRequestFailure::Parse), MsaAuthorizationError::InternalError);
    assert_eq!(msa_error_of_failure(TokenRequestFailure::Other), MsaAuthorizationError::InternalError);
}

#[test]
fn code_exchange_applies_reported_validity() {
    let r = process_code_exchange(1_000, Ok(msa_data(Some(60)))).unwrap();
    assert_eq!(r.access.token, "acc");
    assert_eq!(r.access.expiry, 1_000 + 60_000);
    assert_eq!(r.refresh, Some("ref".to_string()));
}

#[test]
fn code_exchange_defaults_to_one_hour() {
    let r = process_code_exchange(500, Ok(msa_data(None))).unwrap();
    assert_eq!(r.access.expiry, 500 + 3_600_000);
}

#[test]
fn code_exchange_maps_failures() {
    let r = process_code_exchange(0, Err(TokenRequestFailure::Request("down".to_string())));
    assert_eq!(r, Err(MsaAuthorizationError::ConnectionError("down".to_string())));
}

#[test]
fn refresh_invalid_grant_is_ok_none() {
    let r = process_refresh_msa(
        0,
        Err(TokenRequestFailure::ServerResponse(MsaServerError::InvalidGrant)),
    );
    assert_eq!(r, Ok(None));
}

#[test]
fn refresh_success_and_other_failures() {
    let ok = process_refresh_msa(1_000, Ok(msa_data(Some(10)))).unwrap().unwrap();
    assert_eq!(ok.access.expiry, 11_000);
    let err = process_refresh_msa(0, Err(TokenRequestFailure::Parse));
    assert_eq!(err, Err(MsaAuthorizationError::InternalError));
}

#[test]
fn xbox_authenticate_requires_exactly_http_200() {
    let r = process_xbox_authenticate(0, 401, None);
    assert_eq!(r, Err(XboxAuthenticateError::NonOkHttpStatus(401)));
    let r = process_xbox_authenticate(0, 204, None);
    assert_eq!(r, Err(XboxAuthenticateError::NonOkHttpStatus(204)));
}

#[test]
fn xbox_authenticate_skew_corrects_expiry() {
    let data = XboxTokenData {
        token: "xbl".to_string(),
        issue_instant: 9_000,
        not_after: 50_000,
    };
    let t = process_xbox_authenticate(10_000, 200, Some(data)).unwrap();
    assert_eq!(t.token, "xbl");
    assert_eq!(t.expiry, 50_000 - 9_000 + 10_000);
}

#[test]
fn xbox_authenticate_unreadable_body_is_serialization_error() {
    assert_eq!(
        process_xbox_authenticate(0, 200, None),
        Err(XboxAuthenticateError::SerializationError)
    );
}

fn xsts_data(xui: Vec<Vec<(String, String)>>) -> XstsResponseData {
    XstsResponseData {
        token: XboxTokenData {
            token: "xsts".to_string(),
            issue_instant: 100,
            not_after: 600,
        },
        xui,
    }
}

#[test]
fn xsts_without_xui_entry_is_missing_xui() {
    assert_eq!(
        process_obtain_xsts(0, 200, Some(xsts_data(vec![]))),
        Err(XboxAuthenticateError::MissingXui)
    );
}

#[test]
fn xsts_without_uhs_claim_is_missing_uhs() {
    let xui = vec![vec![("xid".to_string(), "123".to_string())]];
    assert_eq!(
        process_obtain_xsts(0, 200, Some(xsts_data(xui))),
        Err(XboxAuthenticateError::MissingUhs)
    );
}

#[test]
fn xsts_takes_userhash_from_first_entry() {
    let xui = vec![
        vec![
            ("xid".to_string(), "123".to_string()),
            ("uhs".to_string(), "hash1".to_string()),
            ("uhs".to_string(), "hash2".to_string()),
        ],
        vec![("uhs".to_string(), "other".to_string())],
    ];
    let t = process_obtain_xsts(50, 200, Some(xsts_data(xui))).unwrap();
    assert_eq!(t.userhash, "hash1");
    assert_eq!(t.token, "xsts");
    assert_eq!(t.expiry, 600 - 100 + 50);
}

#[test]
fn minecraft_login_expiry_counts_from_now() {
    let data = MinecraftLoginData { access_token: "mc".to_string(), expires_in: 86_400 };
    let t = process_authenticate_minecraft(1_000, 200, Some(data)).unwrap();
    assert_eq!(t.token, "mc");
    assert_eq!(t.expiry, 1_000 + 86_400_000);
}

#[test]
fn profile_fetch_passes_profile_through() {
    let p = MinecraftProfileResponse { id: "uuid".to_string(), name: "Steve".to_string() };
    let r = process_profile_response(200, Some(p)).unwrap();
    assert_eq!(r.name, "Steve");
    assert_eq!(
        process_profile_response(503, None),
        Err(XboxAuthenticateError::NonOkHttpStatus(503))
    );
    assert_eq!(
        process_profile_response(200, None),
        Err(XboxAuthenticateError::SerializationError)
    );
}

#[test]
fn endpoints_are_the_fixed_ones() {
    assert_eq!(auth_url(), "https://login.microsoftonline.com/consumers/oauth2/v2.0/authorize");
    assert_eq!(token_url(), "https://login.microsoftonline.com/consumers/oauth2/v2.0/token");
    assert_eq!(server_address(), "127.0.0.1:35445");
    assert_eq!(xbox_authenticate_url(), "https://user.auth.xboxlive.com/user/authenticate");
    assert_eq!(xsts_authorize_url(), "https://xsts.auth.xboxlive.com/xsts/authorize");
    assert_eq!(
        minecraft_login_url(),
        "https://api.minecraftservices.com/authentication/login_with_xbox"
    );
    assert_eq!(minecraft_profile_url(), "https://api.minecraftservices.com/minecraft/profile");
}

#[test]
fn authorization_url_carries_state_challenge_and_prompt() {
    let p = create_authorization();
    assert!(p.url.starts_with(auth_url()));
    assert!(p.url.contains("response_type=code"));
    assert!(p.url.contains("&state="));
    assert!(p.url.contains("&code_challenge="));
    assert!(p.url.contains("code_challenge_method=S256"));
    assert!(p.url.contains("prompt=select_account"));
    assert!(p.url.contains("scope=XboxLive.signin%20XboxLive.offline_access"));
    assert!(!p.csrf_token.is_empty());
    assert!(!p.pkce_verifier.is_empty());
    assert!(p.url.contains(&p.csrf_token));
    // The S256 challenge embedded in the URL is derived from the
    // verifier, never the verifier itself.
    assert!(!p.url.contains(&p.pkce_verifier));
}

#[test]
fn fresh_authorizations_use_fresh_tokens() {
    let a = create_authorization();
    let b = create_authorization();
    assert_ne!(a.csrf_token, b.csrf_token);
    assert_ne!(a.pkce_verifier, b.pkce_verifier);
}
