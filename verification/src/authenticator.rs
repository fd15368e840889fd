//! The four remote token exchanges and the profile fetch, split at the
//! I/O boundary: building the authorization URL and classifying every
//! response is verified here, while the HTTP transport itself stays
//! outside the library and hands results in as plain data.
//!
//! Expiries are skew-corrected: where a response reports both its issue
//! instant and its end of validity, the token expires at
//! `not_after - issue_instant + local_now`; where it reports only a
//! duration, at `local_now + duration`.

use vstd::prelude::*;
use vstd::string::*;
use crate::credentials::TokenWithExpiry;
use crate::credentials::XstsToken;
use crate::models::{MinecraftProfileResponse, MsaTokens, PendingAuthorization};

verus! {

// ---------------------------------------------------------------------
// Error taxonomy
// ---------------------------------------------------------------------

/// Known MSA provider error codes other than the invalid grant.
#[derive(Clone, Copy, Debug, PartialEq, Eq, Structural)]
pub enum MsaErrorCode {
    InvalidClient,
    InvalidRequest,
    InvalidScope,
    UnauthorizedClient,
    UnsupportedGrantType,
}

/// Why an MSA token request failed.
#[derive(Clone, Debug, PartialEq, Eq)]
pub enum MsaAuthorizationError {
    /// The HTTP exchange itself failed; carries the cause's text.
    ConnectionError(String),
    /// The grant is expired, invalid or revoked.
    InvalidGrant,
    /// The provider rejected the request for the carried reason, or for
    /// an extension code we do not know.
    ExternalError(Option<MsaErrorCode>),
    /// The provider's answer could not be understood.
    InternalError,
}

impl MsaAuthorizationError {
    pub fn is_connection_error(&self) -> (r: bool)
        ensures
            r == (self is ConnectionError),
    {
        match self {
            Self::ConnectionError(_) => true,
            _ => false,
        }
    }
}

/// Why one hop of the Xbox chain (user auth, XSTS, Minecraft login,
/// profile fetch) failed.
#[derive(Clone, Debug, PartialEq, Eq)]
pub enum XboxAuthenticateError {
    /// The HTTP exchange itself failed; carries the cause's text.
    ConnectionError(String),
    /// The response body could not be deserialized.
    SerializationError,
    /// The service answered with a status other than 200.
    NonOkHttpStatus(u16),
    /// The XSTS response carries no `xui` display-claim entry.
    MissingXui,
    /// The first `xui` entry carries no `uhs` claim.
    MissingUhs,
}

impl XboxAuthenticateError {
    pub fn is_connection_error(&self) -> (r: bool)
        ensures
            r == (self is ConnectionError),
    {
        match self {
            Self::ConnectionError(_) => true,
            _ => false,
        }
    }
}

/// How an MSA token request came back, as plain data: either a token
/// response or one of the failure shapes of the OAuth2 client.
#[derive(Clone, Debug, PartialEq, Eq)]
pub enum TokenRequestFailure {
    /// The provider answered with a structured error response.
    ServerResponse(MsaServerError),
    /// The HTTP request failed; carries the cause's text.
    Request(String),
    /// The response could not be parsed.
    Parse,
    /// Any other client-side failure.
    Other,
}

/// The error code of a structured MSA error response.
#[derive(Clone, Copy, Debug, PartialEq, Eq, Structural)]
pub enum MsaServerError {
    InvalidClient,
    InvalidGrant,
    InvalidRequest,
    InvalidScope,
    UnauthorizedClient,
    UnsupportedGrantType,
    Extension,
}

/// The domain error a failed MSA token request maps to: the invalid
/// grant is singled out, other provider rejections become external
/// errors, transport failures keep their text, parse and client
/// failures are internal.
pub open spec fn msa_error_spec(f: TokenRequestFailure) -> MsaAuthorizationError {
    match f {
        TokenRequestFailure::ServerResponse(code) => match code {
            MsaServerError::InvalidGrant => MsaAuthorizationError::InvalidGrant,
            MsaServerError::InvalidClient => MsaAuthorizationError::ExternalError(
                Some(MsaErrorCode::InvalidClient),
            ),
            MsaServerError::InvalidRequest => MsaAuthorizationError::ExternalError(
                Some(MsaErrorCode::InvalidRequest),
            ),
            MsaServerError::InvalidScope => MsaAuthorizationError::ExternalError(
                Some(MsaErrorCode::InvalidScope),
            ),
            MsaServerError::UnauthorizedClient => MsaAuthorizationError::ExternalError(
                Some(MsaErrorCode::UnauthorizedClient),
            ),
            MsaServerError::UnsupportedGrantType => MsaAuthorizationError::ExternalError(
                Some(MsaErrorCode::UnsupportedGrantType),
            ),
            MsaServerError::Extension => MsaAuthorizationError::ExternalError(None),
        },
        TokenRequestFailure::Request(text) => MsaAuthorizationError::ConnectionError(text),
        TokenRequestFailure::Parse => MsaAuthorizationError::InternalError,
        TokenRequestFailure::Other => MsaAuthorizationError::InternalError,
    }
}

/// Map a failed MSA token request to its domain error.
pub fn msa_error_of_failure(f: TokenRequestFailure) -> (r: MsaAuthorizationError)
    ensures
        r == msa_error_spec(f),
{
    match f {
        TokenRequestFailure::ServerResponse(code) => match code {
            MsaServerError::InvalidGrant => MsaAuthorizationError::InvalidGrant,
            MsaServerError::InvalidClient => MsaAuthorizationError::ExternalError(
                Some(MsaErrorCode::InvalidClient),
            ),
            MsaServerError::InvalidRequest => MsaAuthorizationError::ExternalError(
                Some(MsaErrorCode::InvalidRequest),
            ),
            MsaServerError::InvalidScope => MsaAuthorizationError::ExternalError(
                Some(MsaErrorCode::InvalidScope),
            ),
            MsaServerError::UnauthorizedClient => MsaAuthorizationError::ExternalError(
                Some(MsaErrorCode::UnauthorizedClient),
            ),
            MsaServerError::UnsupportedGrantType => MsaAuthorizationError::ExternalError(
                Some(MsaErrorCode::UnsupportedGrantType),
            ),
            MsaServerError::Extension => MsaAuthorizationError::ExternalError(None),
        },
        TokenRequestFailure::Request(text) => MsaAuthorizationError::ConnectionError(text),
        TokenRequestFailure::Parse => MsaAuthorizationError::InternalError,
        TokenRequestFailure::Other => MsaAuthorizationError::InternalError,
    }
}

// ---------------------------------------------------------------------
// Response data, as plain values
// ---------------------------------------------------------------------

/// A successful MSA token response.
#[derive(Clone, Debug, PartialEq, Eq)]
pub struct MsaTokenData {
    pub access_token: String,
    /// Validity in seconds, if the provider reported one.
    pub expires_in: Option<u64>,
    pub refresh_token: Option<String>,
}

/// A successful Xbox user-auth or XSTS response body, instants in unix
/// milliseconds.
#[derive(Clone, Debug, PartialEq, Eq)]
pub struct XboxTokenData {
    pub token: String,
    pub issue_instant: i64,
    pub not_after: i64,
}

/// A successful XSTS response: the token data plus the per-user display
/// claims (`xui`), each an ordered list of `claim = value` entries.
#[derive(Clone, Debug, PartialEq, Eq)]
pub struct XstsResponseData {
    pub token: XboxTokenData,
    pub xui: Vec<Vec<(String, String)>>,
}

/// A successful Minecraft login-with-Xbox response body.
#[derive(Clone, Debug, PartialEq, Eq)]
pub struct MinecraftLoginData {
    pub access_token: String,
    /// Validity in seconds.
    pub expires_in: u64,
}

/// Expiry of an MSA token: the reported validity (one hour if none was
/// reported) added to the local clock.
pub open spec fn msa_expiry(now: i64, expires_in: Option<u64>) -> int {
    now + (match expires_in {
        Some(e) => e as int,
        None => 3600,
    }) * 1000
}

/// Skew-corrected expiry: the server-reported end of validity, shifted
/// by the difference between the server's issue instant and our clock.
pub open spec fn skew_corrected_expiry(now: i64, issue_instant: i64, not_after: i64) -> int {
    not_after - issue_instant + now
}

/// Build the cached MSA tokens from a successful token response.
pub fn msa_tokens_of_response(now: i64, data: MsaTokenData) -> (r: MsaTokens)
    requires
        msa_expiry(now, data.expires_in) <= i64::MAX as int,
    ensures
        r.access.token == data.access_token,
        r.access.expiry as int == msa_expiry(now, data.expires_in),
        r.refresh == data.refresh_token,
{
    let secs: u64 = match data.expires_in {
        Some(e) => e,
        None => 3600,
    };
    let expiry = (now as i128 + secs as i128 * 1000) as i64;
    MsaTokens {
        access: TokenWithExpiry { token: data.access_token, expiry },
        refresh: data.refresh_token,
    }
}

/// Outcome of the authorization-code exchange that finishes an
/// `Initial` attempt.
pub fn process_code_exchange(now: i64, result: Result<MsaTokenData, TokenRequestFailure>) -> (r:
    Result<MsaTokens, MsaAuthorizationError>)
    requires
        result matches Ok(d) ==> msa_expiry(now, d.expires_in) <= i64::MAX as int,
    ensures
        result matches Ok(d) ==> (r matches Ok(t) && t.access.token == d.access_token
            && t.access.expiry as int == msa_expiry(now, d.expires_in) && t.refresh
            == d.refresh_token),
        result matches Err(f) ==> r == Err::<MsaTokens, MsaAuthorizationError>(msa_error_spec(f)),
{
    match result {
        Ok(data) => Ok(msa_tokens_of_response(now, data)),
        Err(f) => Err(msa_error_of_failure(f)),
    }
}

/// Outcome of a refresh-token exchange. An invalid grant reported by the
/// provider is the expected "grant expired or revoked" answer and maps
/// to `Ok(None)`, distinct from every other failure.
pub fn process_refresh_msa(now: i64, result: Result<MsaTokenData, TokenRequestFailure>) -> (r:
    Result<Option<MsaTokens>, MsaAuthorizationError>)
    requires
        result matches Ok(d) ==> msa_expiry(now, d.expires_in) <= i64::MAX as int,
    ensures
        result matches Err(f) ==> (if f == TokenRequestFailure::ServerResponse(
            MsaServerError::InvalidGrant,
        ) {
            r == Ok::<Option<MsaTokens>, MsaAuthorizationError>(None)
        } else {
            r == Err::<Option<MsaTokens>, MsaAuthorizationError>(msa_error_spec(f))
        }),
        result matches Ok(d) ==> (r matches Ok(o) && o matches Some(t) && t.access.token
            == d.access_token && t.access.expiry as int == msa_expiry(now, d.expires_in)
            && t.refresh == d.refresh_token),
{
    match result {
        Ok(data) => Ok(Some(msa_tokens_of_response(now, data))),
        Err(TokenRequestFailure::ServerResponse(MsaServerError::InvalidGrant)) => Ok(None),
        Err(f) => Err(msa_error_of_failure(f)),
    }
}

/// Outcome of the Xbox user-auth exchange: exactly HTTP 200 is accepted,
/// an unreadable body is a serialization error, and the token's expiry
/// is skew-corrected from the response's issue and not-after instants.
pub fn process_xbox_authenticate(now: i64, status: u16, data: Option<XboxTokenData>) -> (r: Result<
    TokenWithExpiry,
    XboxAuthenticateError,
>)
    requires
        data matches Some(d) ==> (status == 200 ==> i64::MIN as int <= skew_corrected_expiry(
            now,
            d.issue_instant,
            d.not_after,
        ) <= i64::MAX as int),
    ensures
        status != 200 ==> r == Err::<TokenWithExpiry, XboxAuthenticateError>(
            XboxAuthenticateError::NonOkHttpStatus(status),
        ),
        status == 200 && data is None ==> r == Err::<TokenWithExpiry, XboxAuthenticateError>(
            XboxAuthenticateError::SerializationError,
        ),
        data matches Some(d) ==> (status == 200 ==> (r matches Ok(t) && t.token == d.token
            && t.expiry as int == skew_corrected_expiry(now, d.issue_instant, d.not_after))),
{
    if status != 200 {
        return Err(XboxAuthenticateError::NonOkHttpStatus(status));
    }
    let Some(d) = data else {
        return Err(XboxAuthenticateError::SerializationError);
    };
    let expiry = (d.not_after as i128 - d.issue_instant as i128 + now as i128) as i64;
    Ok(TokenWithExpiry { token: d.token, expiry })
}

/// The value of the first `key = ...` entry of a claim list, if any.
pub open spec fn first_claim(claims: Seq<(String, String)>, key: Seq<char>) -> Option<Seq<char>>
    decreases claims.len(),
{
    if claims.len() == 0 {
        None
    } else if claims[0].0@ == key {
        Some(claims[0].1@)
    } else {
        first_claim(claims.skip(1), key)
    }
}

fn first_claim_exec(claims: &Vec<(String, String)>, key: &str) -> (r: Option<String>)
    ensures
        match r {
            Some(v) => first_claim(claims@, key@) == Some(v@),
            None => first_claim(claims@, key@) is None,
        },
{
    let mut i: usize = 0;
    proof {
        assert(claims@.skip(0) =~= claims@);
    }
    while i < claims.len()
        invariant
            i <= claims@.len(),
            first_claim(claims@, key@) == first_claim(claims@.skip(i as int), key@),
        decreases claims@.len() - i,
    {
        proof {
            assert(claims@.skip(i as int)[0] == claims@[i as int]);
        }
        if crate::strutil::str_eq(claims[i].0.as_str(), key) {
            return Some(claims[i].1.clone());
        }
        proof {
            assert(claims@.skip(i as int).skip(1) =~= claims@.skip(i as int + 1));
        }
        i = i + 1;
    }
    proof {
        assert(claims@.skip(claims@.len() as int) =~= Seq::<(String, String)>::empty());
    }
    None
}

/// Outcome of the XSTS exchange: as the user-auth exchange, plus the
/// userhash taken from the `uhs` claim of the first `xui` entry. An
/// account without an Xbox profile lacks that entry; its absence is
/// surfaced distinctly as `MissingXui` / `MissingUhs`.
pub fn process_obtain_xsts(now: i64, status: u16, data: Option<XstsResponseData>) -> (r: Result<
    XstsToken,
    XboxAuthenticateError,
>)
    requires
        data matches Some(d) ==> (status == 200 ==> i64::MIN as int <= skew_corrected_expiry(
            now,
            d.token.issue_instant,
            d.token.not_after,
        ) <= i64::MAX as int),
    ensures
        status != 200 ==> r == Err::<XstsToken, XboxAuthenticateError>(
            XboxAuthenticateError::NonOkHttpStatus(status),
        ),
        status == 200 && data is None ==> r == Err::<XstsToken, XboxAuthenticateError>(
            XboxAuthenticateError::SerializationError,
        ),
        data matches Some(d) ==> (status == 200 ==> {
            if d.xui@.len() == 0 {
                r == Err::<XstsToken, XboxAuthenticateError>(XboxAuthenticateError::MissingXui)
            } else {
                match first_claim(d.xui@[0]@, "uhs"@) {
                    None => r == Err::<XstsToken, XboxAuthenticateError>(
                        XboxAuthenticateError::MissingUhs,
                    ),
                    Some(u) => r matches Ok(t) && t.token == d.token.token && t.expiry as int
                        == skew_corrected_expiry(now, d.token.issue_instant, d.token.not_after)
                        && t.userhash@ == u,
                }
            }
        }),
{
    if status != 200 {
        return Err(XboxAuthenticateError::NonOkHttpStatus(status));
    }
    let Some(d) = data else {
        return Err(XboxAuthenticateError::SerializationError);
    };
    if d.xui.len() == 0 {
        return Err(XboxAuthenticateError::MissingXui);
    }
    let Some(userhash) = first_claim_exec(&d.xui[0], "uhs") else {
        return Err(XboxAuthenticateError::MissingUhs);
    };
    let expiry = (d.token.not_after as i128 - d.token.issue_instant as i128 + now as i128) as i64;
    Ok(XstsToken { token: d.token.token, expiry, userhash })
}

/// Outcome of the Minecraft login-with-Xbox exchange: the bearer token
/// expires the reported number of seconds from now.
pub fn process_authenticate_minecraft(now: i64, status: u16, data: Option<MinecraftLoginData>) -> (
    r: Result<TokenWithExpiry, XboxAuthenticateError>)
    requires
        data matches Some(d) ==> (status == 200 ==> now + d.expires_in as int * 1000 <= i64::MAX
            as int),
    ensures
        status != 200 ==> r == Err::<TokenWithExpiry, XboxAuthenticateError>(
            XboxAuthenticateError::NonOkHttpStatus(status),
        ),
        status == 200 && data is None ==> r == Err::<TokenWithExpiry, XboxAuthenticateError>(
            XboxAuthenticateError::SerializationError,
        ),
        data matches Some(d) ==> (status == 200 ==> (r matches Ok(t) && t.token == d.access_token
            && t.expiry as int == now + d.expires_in as int * 1000)),
{
    if status != 200 {
        return Err(XboxAuthenticateError::NonOkHttpStatus(status));
    }
    let Some(d) = data else {
        return Err(XboxAuthenticateError::SerializationError);
    };
    let expiry = (now as i128 + d.expires_in as i128 * 1000) as i64;
    Ok(TokenWithExpiry { token: d.access_token, expiry })
}

/// Outcome of the bearer profile fetch.
pub fn process_profile_response(status: u16, data: Option<MinecraftProfileResponse>) -> (r: Result<
    MinecraftProfileResponse,
    XboxAuthenticateError,
>)
    ensures
        status != 200 ==> r == Err::<MinecraftProfileResponse, XboxAuthenticateError>(
            XboxAuthenticateError::NonOkHttpStatus(status),
        ),
        status == 200 && data is None ==> r == Err::<MinecraftProfileResponse, XboxAuthenticateError>(
            XboxAuthenticateError::SerializationError,
        ),
        data matches Some(p) ==> (status == 200 ==> r == Ok::<
            MinecraftProfileResponse,
            XboxAuthenticateError,
        >(p)),
{
    if status != 200 {
        return Err(XboxAuthenticateError::NonOkHttpStatus(status));
    }
    match data {
        Some(p) => Ok(p),
        None => Err(XboxAuthenticateError::SerializationError),
    }
}

// ---------------------------------------------------------------------
// Fixed endpoints and client configuration
// ---------------------------------------------------------------------

pub open spec fn auth_url_spec() -> Seq<char> {
    "https://login.microsoftonline.com/consumers/oauth2/v2.0/authorize"@
}

/// The MSA authorization endpoint (opened in the browser).
pub fn auth_url() -> (r: &'static str)
    ensures
        r@ == auth_url_spec(),
{
    "https://login.microsoftonline.com/consumers/oauth2/v2.0/authorize"
}

pub open spec fn token_url_spec() -> Seq<char> {
    "https://login.microsoftonline.com/consumers/oauth2/v2.0/token"@
}

/// The MSA token endpoint (code and refresh exchanges).
pub fn token_url() -> (r: &'static str)
    ensures
        r@ == token_url_spec(),
{
    "https://login.microsoftonline.com/consumers/oauth2/v2.0/token"
}

pub open spec fn client_id_spec() -> Seq<char> {
    "00000000-0000-0000-0000-000000000000"@
}

/// The application (client) id this launcher is registered under; must
/// match the registration that owns the redirect URI.
pub fn client_id() -> (r: &'static str)
    ensures
        r@ == client_id_spec(),
{
    "00000000-0000-0000-0000-000000000000"
}

pub open spec fn redirect_url_spec() -> Seq<char> {
    "http://127.0.0.1:35445/"@
}

/// The registered redirect URI; the loopback listener binds its address.
pub fn redirect_url() -> (r: &'static str)
    ensures
        r@ == redirect_url_spec(),
{
    "http://127.0.0.1:35445/"
}

/// The loopback address the redirect listener binds.
pub fn server_address() -> (r: &'static str)
    ensures
        r@ == "127.0.0.1:35445"@,
{
    "127.0.0.1:35445"
}

pub open spec fn scopes_spec() -> Seq<char> {
    "XboxLive.signin XboxLive.offline_access"@
}

/// The scopes requested from MSA.
pub fn scopes() -> (r: &'static str)
    ensures
        r@ == scopes_spec(),
{
    "XboxLive.signin XboxLive.offline_access"
}

/// The Xbox Live user-auth endpoint.
pub fn xbox_authenticate_url() -> (r: &'static str)
    ensures
        r@ == "https://user.auth.xboxlive.com/user/authenticate"@,
{
    "https://user.auth.xboxlive.com/user/authenticate"
}

/// The Xbox XSTS authorize endpoint.
pub fn xsts_authorize_url() -> (r: &'static str)
    ensures
        r@ == "https://xsts.auth.xboxlive.com/xsts/authorize"@,
{
    "https://xsts.auth.xboxlive.com/xsts/authorize"
}

/// The Minecraft Services login-with-Xbox endpoint.
pub fn minecraft_login_url() -> (r: &'static str)
    ensures
        r@ == "https://api.minecraftservices.com/authentication/login_with_xbox"@,
{
    "https://api.minecraftservices.com/authentication/login_with_xbox"
}

/// The Minecraft Services profile endpoint.
pub fn minecraft_profile_url() -> (r: &'static str)
    ensures
        r@ == "https://api.minecraftservices.com/minecraft/profile"@,
{
    "https://api.minecraftservices.com/minecraft/profile"
}

// ---------------------------------------------------------------------
// Building the authorization URL
// ---------------------------------------------------------------------

pub open spec fn is_unreserved(c: char) -> bool {
    let u = c as u32;
    (48 <= u && u <= 57) || (65 <= u && u <= 90) || (97 <= u && u <= 122) || c == '-' || c == '.'
        || c == '_' || c == '~'
}

pub open spec fn upper_hex_digit(v: int) -> char {
    if v < 10 {
        ((48 + v) as u8) as char
    } else {
        ((55 + v) as u8) as char
    }
}

/// Percent encoding of one character. Unreserved characters stay; other
/// ASCII characters become `%XY`; characters above ASCII pass through
/// unchanged (every value built here is ASCII).
pub open spec fn encode_char(c: char) -> Seq<char> {
    if is_unreserved(c) || c as u32 >= 128 {
        seq![c]
    } else {
        seq![
            '%',
            upper_hex_digit(c as u32 as int / 16),
            upper_hex_digit(c as u32 as int % 16),
        ]
    }
}

pub open spec fn percent_encode_spec(s: Seq<char>) -> Seq<char>
    decreases s.len(),
{
    if s.len() == 0 {
        Seq::empty()
    } else {
        encode_char(s[0]) + percent_encode_spec(s.skip(1))
    }
}

/// Percent-encode a query-parameter value.
pub fn percent_encode(s: &str) -> (r: String)
    ensures
        r@ == percent_encode_spec(s@),
{
    let l = s.unicode_len();
    let mut out = String::new();
    let mut i: usize = 0;
    proof {
        assert(s@.skip(0) =~= s@);
    }
    while i < l
        invariant
            i <= l,
            l == s@.len(),
            out@ + percent_encode_spec(s@.skip(i as int)) == percent_encode_spec(s@),
        decreases l - i,
    {
        let ghost rem = s@.skip(i as int);
        let c = s.get_char(i);
        proof {
            assert(rem[0] == s@[i as int]);
        }
        let u = c as u32;
        let unreserved = (48 <= u && u <= 57) || (65 <= u && u <= 90) || (97 <= u && u <= 122)
            || c == '-' || c == '.' || c == '_' || c == '~';
        if unreserved || u >= 128 {
            out.push(c);
        } else {
            out.push('%');
            let hi = (u / 16) as u8;
            let lo = (u % 16) as u8;
            let hi_c = if hi < 10 {
                (48 + hi) as char
            } else {
                (55 + hi) as char
            };
            let lo_c = if lo < 10 {
                (48 + lo) as char
            } else {
                (55 + lo) as char
            };
            out.push(hi_c);
            out.push(lo_c);
            proof {
                assert(hi_c == upper_hex_digit(c as u32 as int / 16));
                assert(lo_c == upper_hex_digit(c as u32 as int % 16));
            }
        }
        proof {
            assert(rem.skip(1) =~= s@.skip(i as int + 1));
            assert(out@ + percent_encode_spec(s@.skip(i as int + 1)) =~= percent_encode_spec(s@));
        }
        i = i + 1;
    }
    proof {
        assert(s@.skip(l as int) =~= Seq::<char>::empty());
        assert(out@ =~= percent_encode_spec(s@));
    }
    out
}

/// The authorization URL for a given CSRF state and PKCE challenge:
/// the fixed endpoint with the client id, redirect URI, scopes, state,
/// challenge, challenge method and the account-chooser prompt.
pub open spec fn authorize_url_spec(state: Seq<char>, challenge: Seq<char>) -> Seq<char> {
    auth_url_spec() + "?response_type=code&client_id="@ + percent_encode_spec(client_id_spec())
        + "&redirect_uri="@ + percent_encode_spec(redirect_url_spec()) + "&scope="@
        + percent_encode_spec(scopes_spec()) + "&state="@ + percent_encode_spec(state)
        + "&code_challenge="@ + percent_encode_spec(challenge)
        + "&code_challenge_method=S256&prompt=select_account"@
}

// ---------------------------------------------------------------------
// Random material for one Initial attempt
// ---------------------------------------------------------------------

/// The S256 challenge belonging to a PKCE verifier: the base64url-encoded
/// SHA-256 digest of its bytes, a function of the verifier alone.
pub uninterp spec fn pkce_challenge_of(verifier: Seq<char>) -> Seq<char>;

/// Relies on `oauth2::PkceCodeChallenge::new_random_sha256`: a fresh
/// random PKCE verifier together with its S256 challenge; the challenge
/// is derived from the verifier alone.
#[verifier::external_body]
fn fresh_pkce_pair() -> (r: (String, String))
    ensures
        r.0@ == pkce_challenge_of(r.1@),
{
    let (challenge, verifier) = oauth2::PkceCodeChallenge::new_random_sha256();
    (challenge.as_str().to_string(), verifier.secret().clone())
}

/// Relies on `oauth2::CsrfToken::new_random`: a fresh random CSRF token.
/// Nothing can be promised of its value.
#[verifier::external_body]
fn fresh_csrf_token() -> String {
    oauth2::CsrfToken::new_random().secret().clone()
}

/// Start an `Initial` attempt: generate the PKCE pair and CSRF token and
/// build the authorization URL around them, requesting the account
/// chooser even when the OS holds a cached session.
pub fn create_authorization() -> (p: PendingAuthorization)
    ensures
        p.url@ == authorize_url_spec(p.csrf_token@, pkce_challenge_of(p.pkce_verifier@)),
{
    let csrf = fresh_csrf_token();
    let pkce = fresh_pkce_pair();
    let challenge = pkce.0;
    let verifier = pkce.1;
    let mut url = String::from_str(auth_url());
    url.append("?response_type=code&client_id=");
    let enc_client = percent_encode(client_id());
    url.append(enc_client.as_str());
    url.append("&redirect_uri=");
    let enc_redirect = percent_encode(redirect_url());
    url.append(enc_redirect.as_str());
    url.append("&scope=");
    let enc_scope = percent_encode(scopes());
    url.append(enc_scope.as_str());
    url.append("&state=");
    let enc_state = percent_encode(csrf.as_str());
    url.append(enc_state.as_str());
    url.append("&code_challenge=");
    let enc_challenge = percent_encode(challenge.as_str());
    url.append(enc_challenge.as_str());
    url.append("&code_challenge_method=S256&prompt=select_account");
    proof {
        assert(url@ =~= authorize_url_spec(csrf@, pkce_challenge_of(verifier@)));
    }
    PendingAuthorization { url, csrf_token: csrf, pkce_verifier: verifier }
}

} // verus!
