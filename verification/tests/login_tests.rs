use pandora_core::authenticator::{MsaAuthorizationError, XboxAuthenticateError};
use pandora_core::credentials::{
    AccountCredentials, AuthStage, AuthStageWithData, MinecraftAccessToken, TokenWithExpiry,
    XstsToken,
};
use pandora_core::login::{
    apply_stage_outcome, begin_iteration, stage_progress, InitialFailure, LoginError, LoginState,
    StageEvent,
};
use pandora_core::models::{MinecraftProfileResponse, MsaTokens};
use pandora_core::redirect::ProcessAuthorizationError;

const NOW: i64 = 1_000_000;

fn empty() -> AccountCredentials {
    AccountCredentials {
        msa_refresh: None,
        msa_access: None,
        xbl: None,
        xsts: None,
        access_token: None,
    }
}

fn tok(token: &str) -> TokenWithExpiry {
    TokenWithExpiry { token: token.to_string(), expiry: NOW + 60_000 }
}

fn msa_tokens() -> MsaTokens {
    MsaTokens { access: tok("msa-access"), refresh: Some("msa-refresh".to_string()) }
}

fn profile() -> MinecraftProfileResponse {
    MinecraftProfileResponse { id: "uuid".to_string(), name: "Steve".to_string() }
}

#[test]
fn full_run_from_empty_credentials_yields_profile() {
    let mut creds = empty();
    let mut state = LoginState::new();

    // Initial: the browser round trip succeeds and the code exchange
    // hands back MSA tokens.
    let stage = begin_iteration(&mut state, &mut creds, NOW, false).unwrap();
    assert!(matches!(stage, AuthStageWithData::Initial));
    let r = apply_stage_outcome(&mut creds, state.allow_backwards, StageEvent::Initial(Ok(msa_tokens())));
    assert_eq!(r, Ok(None));
    assert!(creds.msa_access.is_some());
    assert_eq!(creds.msa_refresh, Some("msa-refresh".to_string()));

    // MsaAccess -> Xbox Live token.
    let stage = begin_iteration(&mut state, &mut creds, NOW, false).unwrap();
    assert!(matches!(stage, AuthStageWithData::MsaAccess(_)));
    apply_stage_outcome(&mut creds, state.allow_backwards, StageEvent::MsaAccess(Ok(tok("xbl")))).unwrap();
    assert_eq!(creds.xbl.as_ref().unwrap().token, "xbl");

    // XboxLive -> XSTS token.
    let stage = begin_iteration(&mut state, &mut creds, NOW, false).unwrap();
    assert!(matches!(stage, AuthStageWithData::XboxLive(_)));
    let xsts = XstsToken { token: "xsts".to_string(), expiry: NOW + 60_000, userhash: "uh".to_string() };
    apply_stage_outcome(&mut creds, state.allow_backwards, StageEvent::XboxLive(Ok(xsts))).unwrap();

    // XboxSecure -> Minecraft bearer token.
    let stage = begin_iteration(&mut state, &mut creds, NOW, false).unwrap();
    match &stage {
        AuthStageWithData::XboxSecure { xsts, userhash } => {
            assert_eq!(xsts, "xsts");
            assert_eq!(userhash, "uh");
        },
        other => panic!("expected XboxSecure, got {:?}", other),
    }
    apply_stage_outcome(&mut creds, state.allow_backwards, StageEvent::XboxSecure(Ok(tok("bearer")))).unwrap();

    // AccessToken -> profile.
    let stage = begin_iteration(&mut state, &mut creds, NOW, false).unwrap();
    let token = match stage {
        AuthStageWithData::AccessToken(t) => t,
        other => panic!("expected AccessToken, got {:?}", other),
    };
    let r = apply_stage_outcome(
        &mut creds,
        state.allow_backwards,
        StageEvent::AccessToken { token, result: Ok(profile()) },
    ).unwrap();
    let (p, t) = r.unwrap();
    assert_eq!(p.name, "Steve");
    assert_eq!(t.secret(), "bearer");
}

#[test]
fn valid_access_token_needs_one_call_only() {
    let mut creds = empty();
    creds.access_token = Some(tok("bearer"));
    let mut state = LoginState::new();
    let stage = begin_iteration(&mut state, &mut creds, NOW, false).unwrap();
    let token = match stage {
        AuthStageWithData::AccessToken(t) => t,
        other => panic!("expected AccessToken, got {:?}", other),
    };
    let r = apply_stage_outcome(
        &mut creds,
        state.allow_backwards,
        StageEvent::AccessToken { token, result: Ok(profile()) },
    ).unwrap();
    assert!(r.is_some());
}

#[test]
fn expired_access_token_rederives_from_xsts() {
    let mut creds = empty();
    creds.access_token = Some(TokenWithExpiry { token: "stale".to_string(), expiry: NOW - 1 });
    creds.xsts = Some(XstsToken {
        token: "xsts".to_string(),
        expiry: NOW + 60_000,
        userhash: "uh".to_string(),
    });
    let mut state = LoginState::new();

    // Iteration 1: the stale access token is cleared, XboxSecure runs.
    let stage = begin_iteration(&mut state, &mut creds, NOW, false).unwrap();
    assert!(matches!(stage, AuthStageWithData::XboxSecure { .. }));
    assert!(creds.access_token.is_none());
    apply_stage_outcome(&mut creds, state.allow_backwards, StageEvent::XboxSecure(Ok(tok("fresh")))).unwrap();
    assert_eq!(creds.access_token.as_ref().unwrap().token, "fresh");

    // Iteration 2: resumes at AccessToken.
    let stage = begin_iteration(&mut state, &mut creds, NOW, false).unwrap();
    assert!(matches!(stage, AuthStageWithData::AccessToken(_)));
}

#[test]
fn dead_refresh_grant_falls_back_to_initial_before_progress() {
    let mut creds = empty();
    creds.msa_refresh = Some("dead".to_string());
    let mut state = LoginState::new();
    let stage = begin_iteration(&mut state, &mut creds, NOW, false).unwrap();
    assert!(matches!(stage, AuthStageWithData::MsaRefresh(_)));
    let r = step_apply_refresh_none(&mut creds, state.allow_backwards);
    assert_eq!(r, Ok(None));
    assert!(creds.msa_refresh.is_none());
    let stage = begin_iteration(&mut state, &mut creds, NOW, false).unwrap();
    assert!(matches!(stage, AuthStageWithData::Initial));
}

fn step_apply_refresh_none(
    creds: &mut AccountCredentials,
    allow_backwards: bool,
) -> Result<Option<(MinecraftProfileResponse, MinecraftAccessToken)>, LoginError> {
    apply_stage_outcome(creds, allow_backwards, StageEvent::MsaRefresh(Ok(None)))
}

#[test]
fn dead_refresh_grant_after_progress_is_fatal() {
    let mut creds = empty();
    creds.msa_refresh = Some("dead".to_string());
    let r = step_apply_refresh_none(&mut creds, false);
    assert_eq!(
        r,
        Err(LoginError::MsaAuthorizationError(MsaAuthorizationError::InvalidGrant))
    );
    // The field is not cleared on the fatal path.
    assert!(creds.msa_refresh.is_some());
}

#[test]
fn unauthorized_after_progress_is_fatal_not_fallback() {
    let mut creds = empty();
    creds.msa_access = Some(tok("msa"));
    let r = apply_stage_outcome(
        &mut creds,
        false,
        StageEvent::MsaAccess(Err(XboxAuthenticateError::NonOkHttpStatus(401))),
    );
    assert_eq!(
        r,
        Err(LoginError::XboxAuthenticateError(XboxAuthenticateError::NonOkHttpStatus(401)))
    );
    assert!(creds.msa_access.is_some());
}

#[test]
fn unauthorized_before_progress_falls_back_one_stage() {
    let mut creds = empty();
    creds.msa_access = Some(tok("msa"));
    creds.msa_refresh = Some("r".to_string());
    let r = apply_stage_outcome(
        &mut creds,
        true,
        StageEvent::MsaAccess(Err(XboxAuthenticateError::NonOkHttpStatus(401))),
    );
    assert_eq!(r, Ok(None));
    assert!(creds.msa_access.is_none());
    assert!(creds.msa_refresh.is_some());
}

#[test]
fn non_unauthorized_failures_are_always_fatal() {
    let mut creds = empty();
    let r = apply_stage_outcome(
        &mut creds,
        true,
        StageEvent::XboxLive(Err(XboxAuthenticateError::MissingXui)),
    );
    assert_eq!(r, Err(LoginError::XboxAuthenticateError(XboxAuthenticateError::MissingXui)));
    let r = apply_stage_outcome(
        &mut creds,
        true,
        StageEvent::XboxSecure(Err(XboxAuthenticateError::ConnectionError("down".to_string()))),
    );
    assert!(matches!(
        r,
        Err(LoginError::XboxAuthenticateError(XboxAuthenticateError::ConnectionError(_)))
    ));
}

#[test]
fn initial_failures_map_to_their_layer() {
    let mut creds = empty();
    let r = apply_stage_outcome(
        &mut creds,
        true,
        StageEvent::Initial(Err(InitialFailure::Capture(ProcessAuthorizationError::CsrfMismatch))),
    );
    assert_eq!(
        r,
        Err(LoginError::ProcessAuthorizationError(ProcessAuthorizationError::CsrfMismatch))
    );
    let r = apply_stage_outcome(
        &mut creds,
        true,
        StageEvent::Initial(Err(InitialFailure::Exchange(MsaAuthorizationError::InternalError))),
    );
    assert_eq!(r, Err(LoginError::MsaAuthorizationError(MsaAuthorizationError::InternalError)));
}

#[test]
fn stalled_stage_is_a_fatal_bug_signal() {
    let mut creds = empty();
    creds.access_token = Some(tok("bearer"));
    let mut state = LoginState::new();
    let first = begin_iteration(&mut state, &mut creds, NOW, false);
    assert!(first.is_ok());
    // Nothing changed the credentials: the same stage twice in a row.
    let second = begin_iteration(&mut state, &mut creds, NOW, false);
    assert_eq!(second.map(|_| ()), Err(LoginError::LoginStageErrorDidntChange));
}

#[test]
fn moving_backwards_after_progress_is_fatal() {
    let mut creds = empty();
    creds.msa_access = Some(tok("msa"));
    let mut state = LoginState { last_stage: Some(AuthStage::XboxLive), allow_backwards: false };
    let r = begin_iteration(&mut state, &mut creds, NOW, false);
    assert_eq!(r.map(|_| ()), Err(LoginError::LoginStageErrorBackwards));
}

#[test]
fn moving_backwards_before_progress_is_allowed() {
    let mut creds = empty();
    creds.msa_access = Some(tok("msa"));
    let mut state = LoginState { last_stage: Some(AuthStage::XboxLive), allow_backwards: true };
    let r = begin_iteration(&mut state, &mut creds, NOW, false);
    assert!(r.is_ok());
    assert!(state.allow_backwards);
}

#[test]
fn advancing_locks_out_fallback() {
    let mut creds = empty();
    creds.msa_access = Some(tok("msa"));
    let mut state = LoginState { last_stage: Some(AuthStage::MsaRefresh), allow_backwards: true };
    begin_iteration(&mut state, &mut creds, NOW, false).unwrap();
    assert!(!state.allow_backwards);
}

#[test]
fn cancellation_is_observed_before_dispatch() {
    let mut creds = empty();
    creds.access_token = Some(tok("bearer"));
    let mut state = LoginState::new();
    let r = begin_iteration(&mut state, &mut creds, NOW, true);
    assert_eq!(r.map(|_| ()), Err(LoginError::CancelledByUser));
    // Neither the state nor the credentials moved.
    assert!(state.last_stage.is_none());
    assert!(creds.access_token.is_some());
}

#[test]
fn progress_counts_stage_index_out_of_seven() {
    assert_eq!(stage_progress(AuthStage::Initial), (1, 7));
    assert_eq!(stage_progress(AuthStage::XboxSecure), (5, 7));
    assert_eq!(stage_progress(AuthStage::AccessToken), (6, 7));
}
