//! The login orchestrator's decisions. One iteration resolves the stage,
//! checks the loop's self-consistency (the stage must change, and may
//! move backwards only while no forward progress has been made), and
//! applies the outcome of the stage's outside call to the credential
//! bundle: success populates exactly one field, the stage's expected
//! transient failure clears exactly one field, everything else is fatal.
//!
//! The outside calls themselves (browser hand-off, token exchanges,
//! profile fetch) are performed by the caller, which hands their
//! outcomes in as plain data.

use vstd::prelude::*;
use crate::authenticator::{MsaAuthorizationError, XboxAuthenticateError};
use crate::credentials::{
    AccountCredentials, AuthStage, AuthStageWithData, MinecraftAccessToken, TokenWithExpiry,
    XstsToken, AUTH_STAGE_COUNT,
};
use crate::models::{MinecraftProfileResponse, MsaTokens};
use crate::redirect::ProcessAuthorizationError;

verus! {

/// Why the whole orchestration failed.
#[derive(Clone, Debug, PartialEq, Eq)]
pub enum LoginError {
    /// The resolver moved backwards after forward progress: a bug signal.
    LoginStageErrorBackwards,
    /// The resolver reported the same stage twice in a row: a bug signal.
    LoginStageErrorDidntChange,
    /// Capturing the authorization redirect failed.
    ProcessAuthorizationError(ProcessAuthorizationError),
    /// An MSA exchange failed fatally.
    MsaAuthorizationError(MsaAuthorizationError),
    /// An Xbox-chain exchange failed fatally.
    XboxAuthenticateError(XboxAuthenticateError),
    /// The user cancelled the flow.
    CancelledByUser,
}

/// The loop's self-consistency state: the stage of the previous
/// iteration and whether falling back a stage is still allowed.
#[derive(Clone, Copy, Debug, PartialEq, Eq, Structural)]
pub struct LoginState {
    pub last_stage: Option<AuthStage>,
    pub allow_backwards: bool,
}

impl LoginState {
    /// The state before the first iteration.
    pub fn new() -> (r: Self)
        ensures
            r.last_stage is None,
            r.allow_backwards,
    {
        LoginState { last_stage: None, allow_backwards: true }
    }
}

/// The consistency check of one iteration: advancing beyond the previous
/// stage forbids later fallback; moving backwards after progress and
/// standing still are both fatal bug signals.
pub open spec fn iteration_check(state: LoginState, stage: AuthStage) -> Result<
    LoginState,
    LoginError,
> {
    match state.last_stage {
        None => Ok(LoginState { last_stage: Some(stage), ..state }),
        Some(last) => if stage.index_spec() > last.index_spec() {
            Ok(LoginState { last_stage: Some(stage), allow_backwards: false })
        } else if stage.index_spec() < last.index_spec() && !state.allow_backwards {
            Err(LoginError::LoginStageErrorBackwards)
        } else if stage == last {
            Err(LoginError::LoginStageErrorDidntChange)
        } else {
            Ok(LoginState { last_stage: Some(stage), ..state })
        },
    }
}

/// Begin one iteration: observe the cancellation flag, resolve the
/// current stage (clearing expired fields), and run the consistency
/// check. On success the returned payload is what the stage's outside
/// call needs.
pub fn begin_iteration(
    state: &mut LoginState,
    credentials: &mut AccountCredentials,
    now: i64,
    cancel_requested: bool,
) -> (r: Result<AuthStageWithData, LoginError>)
    ensures
        cancel_requested ==> r == Err::<AuthStageWithData, LoginError>(LoginError::CancelledByUser)
            && *final(state) == *old(state) && *final(credentials) == *old(credentials),
        !cancel_requested ==> *final(credentials) == old(credentials).cleared(now),
        !cancel_requested ==> match iteration_check(*old(state), old(credentials).stage_of(now)) {
            Ok(s2) => *final(state) == s2 && (r matches Ok(d) && d.stage_spec() == old(
                credentials,
            ).stage_of(now)),
            Err(e) => *final(state) == *old(state) && r == Err::<AuthStageWithData, LoginError>(e),
        },
        !cancel_requested ==> (r matches Ok(d) ==> {
            let c = *old(credentials);
            let stage = c.stage_of(now);
            &&& stage == AuthStage::AccessToken ==> (d matches AuthStageWithData::AccessToken(t)
                && t.0@ == c.access_token->0.token@)
            &&& stage == AuthStage::XboxSecure ==> (d matches AuthStageWithData::XboxSecure {
                xsts,
                userhash,
            } && xsts@ == c.xsts->0.token@ && userhash@ == c.xsts->0.userhash@)
            &&& stage == AuthStage::XboxLive ==> (d matches AuthStageWithData::XboxLive(t) && t@
                == c.xbl->0.token@)
            &&& stage == AuthStage::MsaAccess ==> (d matches AuthStageWithData::MsaAccess(t) && t@
                == c.msa_access->0.token@)
            &&& stage == AuthStage::MsaRefresh ==> (d matches AuthStageWithData::MsaRefresh(t)
                && t@ == c.msa_refresh->0@)
        }),
{
    if cancel_requested {
        return Err(LoginError::CancelledByUser);
    }
    let data = credentials.stage_at(now);
    let stage = data.stage();
    match state.last_stage {
        None => {},
        Some(last) => {
            let stage_index = stage.index();
            let last_index = last.index();
            if stage_index > last_index {
                state.allow_backwards = false;
            } else if stage_index < last_index && !state.allow_backwards {
                return Err(LoginError::LoginStageErrorBackwards);
            } else if stage_index == last_index {
                proof {
                    assert(stage == last);
                }
                return Err(LoginError::LoginStageErrorDidntChange);
            }
        },
    }
    state.last_stage = Some(stage);
    Ok(data)
}

/// What the orchestrator was told about one stage's outside call.
pub enum StageEvent {
    /// Outcome of a whole `Initial` attempt: redirect capture, then the
    /// authorization-code exchange.
    Initial(Result<MsaTokens, InitialFailure>),
    MsaRefresh(Result<Option<MsaTokens>, MsaAuthorizationError>),
    MsaAccess(Result<TokenWithExpiry, XboxAuthenticateError>),
    XboxLive(Result<XstsToken, XboxAuthenticateError>),
    XboxSecure(Result<TokenWithExpiry, XboxAuthenticateError>),
    AccessToken {
        token: MinecraftAccessToken,
        result: Result<MinecraftProfileResponse, XboxAuthenticateError>,
    },
}

/// How an `Initial` attempt failed.
pub enum InitialFailure {
    /// The redirect was never usable.
    Capture(ProcessAuthorizationError),
    /// The captured code could not be exchanged.
    Exchange(MsaAuthorizationError),
}

/// The stage an event reports on.
pub open spec fn event_stage(e: StageEvent) -> AuthStage {
    match e {
        StageEvent::Initial(..) => AuthStage::Initial,
        StageEvent::MsaRefresh(..) => AuthStage::MsaRefresh,
        StageEvent::MsaAccess(..) => AuthStage::MsaAccess,
        StageEvent::XboxLive(..) => AuthStage::XboxLive,
        StageEvent::XboxSecure(..) => AuthStage::XboxSecure,
        StageEvent::AccessToken { .. } => AuthStage::AccessToken,
    }
}

/// An outcome the stage may absorb by falling back exactly one stage:
/// the provider declaring the refresh grant invalid, or a 401 for a
/// cached token of the Xbox chain.
pub open spec fn event_is_transient_failure(e: StageEvent) -> bool {
    match e {
        StageEvent::Initial(..) => false,
        StageEvent::MsaRefresh(r) => r == Ok::<Option<MsaTokens>, MsaAuthorizationError>(None)
            || r == Err::<Option<MsaTokens>, _>(MsaAuthorizationError::InvalidGrant),
        StageEvent::MsaAccess(r) => r is Err && r->Err_0
            == XboxAuthenticateError::NonOkHttpStatus(401),
        StageEvent::XboxLive(r) => r is Err && r->Err_0 == XboxAuthenticateError::NonOkHttpStatus(
            401,
        ),
        StageEvent::XboxSecure(r) => r is Err && r->Err_0
            == XboxAuthenticateError::NonOkHttpStatus(401),
        StageEvent::AccessToken { result, .. } => result is Err && result->Err_0
            == XboxAuthenticateError::NonOkHttpStatus(401),
    }
}

/// What applying an event does: the new credential bundle and either the
/// final profile (`Ok(Some(..))`), the decision to loop (`Ok(None)`), or
/// the fatal error.
pub open spec fn apply_event_spec(
    c: AccountCredentials,
    allow_backwards: bool,
    e: StageEvent,
) -> (AccountCredentials, Result<
    Option<(MinecraftProfileResponse, MinecraftAccessToken)>,
    LoginError,
>) {
    match e {
        StageEvent::Initial(r) => match r {
            Ok(t) => (
                AccountCredentials {
                    msa_access: Some(t.access),
                    msa_refresh: t.refresh,
                    ..c
                },
                Ok(None),
            ),
            Err(InitialFailure::Capture(err)) => (
                c,
                Err(LoginError::ProcessAuthorizationError(err)),
            ),
            Err(InitialFailure::Exchange(err)) => (c, Err(LoginError::MsaAuthorizationError(err))),
        },
        StageEvent::MsaRefresh(r) => match r {
            Ok(Some(t)) => (
                AccountCredentials {
                    msa_access: Some(t.access),
                    msa_refresh: t.refresh,
                    ..c
                },
                Ok(None),
            ),
            Ok(None) => if allow_backwards {
                (AccountCredentials { msa_refresh: None, ..c }, Ok(None))
            } else {
                (c, Err(LoginError::MsaAuthorizationError(MsaAuthorizationError::InvalidGrant)))
            },
            Err(err) => if allow_backwards && err == MsaAuthorizationError::InvalidGrant {
                (AccountCredentials { msa_refresh: None, ..c }, Ok(None))
            } else {
                (c, Err(LoginError::MsaAuthorizationError(err)))
            },
        },
        StageEvent::MsaAccess(r) => match r {
            Ok(t) => (AccountCredentials { xbl: Some(t), ..c }, Ok(None)),
            Err(err) => if allow_backwards && err == XboxAuthenticateError::NonOkHttpStatus(401) {
                (AccountCredentials { msa_access: None, ..c }, Ok(None))
            } else {
                (c, Err(LoginError::XboxAuthenticateError(err)))
            },
        },
        StageEvent::XboxLive(r) => match r {
            Ok(t) => (AccountCredentials { xsts: Some(t), ..c }, Ok(None)),
            Err(err) => if allow_backwards && err == XboxAuthenticateError::NonOkHttpStatus(401) {
                (AccountCredentials { xbl: None, ..c }, Ok(None))
            } else {
                (c, Err(LoginError::XboxAuthenticateError(err)))
            },
        },
        StageEvent::XboxSecure(r) => match r {
            Ok(t) => (AccountCredentials { access_token: Some(t), ..c }, Ok(None)),
            Err(err) => if allow_backwards && err == XboxAuthenticateError::NonOkHttpStatus(401) {
                (AccountCredentials { xsts: None, ..c }, Ok(None))
            } else {
                (c, Err(LoginError::XboxAuthenticateError(err)))
            },
        },
        StageEvent::AccessToken { token, result } => match result {
            Ok(profile) => (c, Ok(Some((profile, token)))),
            Err(err) => if allow_backwards && err == XboxAuthenticateError::NonOkHttpStatus(401) {
                (AccountCredentials { access_token: None, ..c }, Ok(None))
            } else {
                (c, Err(LoginError::XboxAuthenticateError(err)))
            },
        },
    }
}

/// Apply one stage's outcome to the credential bundle. Success writes
/// the stage's field (or returns the profile); the stage's expected
/// transient failure clears the stage's own field so the next resolver
/// call falls back exactly one stage, but only while fallback is still
/// allowed; every other failure is fatal and leaves the bundle as it is.
pub fn apply_stage_outcome(
    credentials: &mut AccountCredentials,
    allow_backwards: bool,
    event: StageEvent,
) -> (r: Result<Option<(MinecraftProfileResponse, MinecraftAccessToken)>, LoginError>)
    ensures
        (*final(credentials), r) == apply_event_spec(*old(credentials), allow_backwards, event),
{
    match event {
        StageEvent::Initial(result) => match result {
            Ok(t) => {
                credentials.msa_access = Some(t.access);
                credentials.msa_refresh = t.refresh;
                Ok(None)
            },
            Err(InitialFailure::Capture(err)) => Err(LoginError::ProcessAuthorizationError(err)),
            Err(InitialFailure::Exchange(err)) => Err(LoginError::MsaAuthorizationError(err)),
        },
        StageEvent::MsaRefresh(result) => match result {
            Ok(Some(t)) => {
                credentials.msa_access = Some(t.access);
                credentials.msa_refresh = t.refresh;
                Ok(None)
            },
            Ok(None) => {
                if allow_backwards {
                    credentials.msa_refresh = None;
                    Ok(None)
                } else {
                    Err(LoginError::MsaAuthorizationError(MsaAuthorizationError::InvalidGrant))
                }
            },
            Err(err) => {
                if allow_backwards && matches!(err, MsaAuthorizationError::InvalidGrant) {
                    credentials.msa_refresh = None;
                    Ok(None)
                } else {
                    Err(LoginError::MsaAuthorizationError(err))
                }
            },
        },
        StageEvent::MsaAccess(result) => match result {
            Ok(t) => {
                credentials.xbl = Some(t);
                Ok(None)
            },
            Err(err) => {
                if allow_backwards && is_unauthorized(&err) {
                    credentials.msa_access = None;
                    Ok(None)
                } else {
                    Err(LoginError::XboxAuthenticateError(err))
                }
            },
        },
        StageEvent::XboxLive(result) => match result {
            Ok(t) => {
                credentials.xsts = Some(t);
                Ok(None)
            },
            Err(err) => {
                if allow_backwards && is_unauthorized(&err) {
                    credentials.xbl = None;
                    Ok(None)
                } else {
                    Err(LoginError::XboxAuthenticateError(err))
                }
            },
        },
        StageEvent::XboxSecure(result) => match result {
            Ok(t) => {
                credentials.access_token = Some(t);
                Ok(None)
            },
            Err(err) => {
                if allow_backwards && is_unauthorized(&err) {
                    credentials.xsts = None;
                    Ok(None)
                } else {
                    Err(LoginError::XboxAuthenticateError(err))
                }
            },
        },
        StageEvent::AccessToken { token, result } => match result {
            Ok(profile) => Ok(Some((profile, token))),
            Err(err) => {
                if allow_backwards && is_unauthorized(&err) {
                    credentials.access_token = None;
                    Ok(None)
                } else {
                    Err(LoginError::XboxAuthenticateError(err))
                }
            },
        },
    }
}

/// Whether an Xbox-chain error is exactly the 401 that marks a stale
/// cached token.
fn is_unauthorized(err: &XboxAuthenticateError) -> (r: bool)
    ensures
        r == (*err == XboxAuthenticateError::NonOkHttpStatus(401)),
{
    match err {
        XboxAuthenticateError::NonOkHttpStatus(code) => *code == 401,
        _ => false,
    }
}

/// The progress report of a stage: position `index + 1` out of a total
/// of one more than the number of stages (the last step being success).
pub fn stage_progress(stage: AuthStage) -> (r: (u8, u8))
    ensures
        r.0 as int == stage.index_spec() + 1,
        r.1 == AUTH_STAGE_COUNT + 1,
{
    (stage.index() + 1, AUTH_STAGE_COUNT + 1)
}

/// Once any stage has advanced, fallback is locked out: the consistency
/// check that observes a more advanced stage clears `allow_backwards`.
pub proof fn lemma_advance_locks_fallback(state: LoginState, stage: AuthStage)
    requires
        state.last_stage matches Some(last) && stage.index_spec() > last.index_spec(),
    ensures
        iteration_check(state, stage) matches Ok(s2) && !s2.allow_backwards,
{
}

/// After forward progress, a stage's expected transient failure (an
/// invalid grant or a 401 for a cached token) is fatal: it is never
/// absorbed, and no field is cleared.
pub proof fn lemma_no_fallback_after_progress(c: AccountCredentials, e: StageEvent)
    requires
        event_is_transient_failure(e),
    ensures
        apply_event_spec(c, false, e).1 is Err,
        apply_event_spec(c, false, e).0 == c,
{
}

/// A stage equal to the previous iteration's stage is always a fatal
/// bug signal, never silently looped.
pub proof fn lemma_stalled_stage_fatal(state: LoginState, stage: AuthStage)
    requires
        state.last_stage == Some(stage),
    ensures
        iteration_check(state, stage) == Err::<LoginState, LoginError>(
            LoginError::LoginStageErrorDidntChange,
        ),
{
}

} // verus!
