//! Data carried between the stages of the authentication flow.

use vstd::prelude::*;
use crate::credentials::TokenWithExpiry;

verus! {

/// One `Initial` attempt in flight: the authorization URL shown to the
/// user, the random CSRF token the redirect must echo in `state`, and the
/// PKCE verifier matching the challenge embedded in the URL.
#[derive(Clone, Debug, PartialEq, Eq)]
pub struct PendingAuthorization {
    pub url: String,
    pub csrf_token: String,
    pub pkce_verifier: String,
}

/// A pending authorization together with the captured authorization code;
/// consumed once by the MSA code exchange.
#[derive(Clone, Debug, PartialEq, Eq)]
pub struct FinishedAuthorization {
    pub pending: PendingAuthorization,
    pub code: String,
}

/// Result of a successful MSA code or refresh exchange.
#[derive(Clone, Debug, PartialEq, Eq)]
pub struct MsaTokens {
    pub access: TokenWithExpiry,
    pub refresh: Option<String>,
}

/// The Minecraft profile returned once the whole chain has succeeded.
#[derive(Clone, Debug, PartialEq, Eq)]
pub struct MinecraftProfileResponse {
    pub id: String,
    pub name: String,
}

} // verus!
