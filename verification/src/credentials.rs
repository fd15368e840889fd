//! Credential bundle for one Microsoft account and the stage resolver:
//! a pure function from the bundle and the current time to the most
//! advanced still-valid stage of the authentication chain.
//!
//! Instants are unix timestamps in milliseconds. A token is fresh at
//! instant `now` while `now < expiry`.

use vstd::prelude::*;

verus! {

/// A bearer token with its skew-corrected absolute expiry (unix millis).
#[derive(Clone, Debug, PartialEq, Eq)]
pub struct TokenWithExpiry {
    pub token: String,
    pub expiry: i64,
}

/// An XSTS token: a token with expiry plus the userhash extracted from the
/// response's per-user display claims.
#[derive(Clone, Debug, PartialEq, Eq)]
pub struct XstsToken {
    pub token: String,
    pub expiry: i64,
    pub userhash: String,
}

/// Secret bearer token for Minecraft Services calls.
#[derive(Clone, Debug, PartialEq, Eq)]
pub struct MinecraftAccessToken(pub String);

impl MinecraftAccessToken {
    pub fn secret(&self) -> (r: &String)
        ensures
            r == self.0,
    {
        &self.0
    }
}

/// All cached credentials of one account. The fields form a strict
/// dependency chain: `access_token` is derived from `xsts`, `xsts` from
/// `xbl`, `xbl` from `msa_access`, `msa_access` from `msa_refresh`.
/// Each field is independently re-derivable, so clearing one never
/// implies clearing another.
#[derive(Clone, Debug, PartialEq, Eq)]
pub struct AccountCredentials {
    pub msa_refresh: Option<String>,
    pub msa_access: Option<TokenWithExpiry>,
    pub xbl: Option<TokenWithExpiry>,
    pub xsts: Option<XstsToken>,
    pub access_token: Option<TokenWithExpiry>,
}

impl Default for AccountCredentials {
    fn default() -> (r: Self)
        ensures
            r == AccountCredentials::empty_spec(),
    {
        AccountCredentials {
            msa_refresh: None,
            msa_access: None,
            xbl: None,
            xsts: None,
            access_token: None,
        }
    }
}

/// Position in the five-hop credential chain, ordered from least to most
/// advanced. It is a resumption cursor, recomputed every iteration.
#[derive(Clone, Copy, PartialEq, Eq, Structural, Debug)]
pub enum AuthStage {
    Initial,
    MsaRefresh,
    MsaAccess,
    XboxLive,
    XboxSecure,
    AccessToken,
}

pub const AUTH_STAGE_COUNT: u8 = 6;

impl AuthStage {
    /// Order of the stage in the chain, `Initial` being 0.
    pub open spec fn index_spec(self) -> int {
        match self {
            AuthStage::Initial => 0,
            AuthStage::MsaRefresh => 1,
            AuthStage::MsaAccess => 2,
            AuthStage::XboxLive => 3,
            AuthStage::XboxSecure => 4,
            AuthStage::AccessToken => 5,
        }
    }

    pub fn index(self) -> (r: u8)
        ensures
            r as int == self.index_spec(),
    {
        match self {
            AuthStage::Initial => 0,
            AuthStage::MsaRefresh => 1,
            AuthStage::MsaAccess => 2,
            AuthStage::XboxLive => 3,
            AuthStage::XboxSecure => 4,
            AuthStage::AccessToken => 5,
        }
    }
}

/// A stage together with the cached value that lets the orchestrator
/// resume there: exactly one payload per stage, enforced by the type.
#[derive(Clone, Debug, PartialEq, Eq)]
pub enum AuthStageWithData {
    Initial,
    MsaRefresh(String),
    MsaAccess(String),
    XboxLive(String),
    XboxSecure { xsts: String, userhash: String },
    AccessToken(MinecraftAccessToken),
}

impl AuthStageWithData {
    pub open spec fn stage_spec(&self) -> AuthStage {
        match self {
            AuthStageWithData::Initial => AuthStage::Initial,
            AuthStageWithData::MsaRefresh(..) => AuthStage::MsaRefresh,
            AuthStageWithData::MsaAccess(..) => AuthStage::MsaAccess,
            AuthStageWithData::XboxLive(..) => AuthStage::XboxLive,
            AuthStageWithData::XboxSecure { .. } => AuthStage::XboxSecure,
            AuthStageWithData::AccessToken(..) => AuthStage::AccessToken,
        }
    }

    /// The bare stage this payload belongs to.
    pub fn stage(&self) -> (r: AuthStage)
        ensures
            r == self.stage_spec(),
    {
        match self {
            AuthStageWithData::Initial => AuthStage::Initial,
            AuthStageWithData::MsaRefresh(..) => AuthStage::MsaRefresh,
            AuthStageWithData::MsaAccess(..) => AuthStage::MsaAccess,
            AuthStageWithData::XboxLive(..) => AuthStage::XboxLive,
            AuthStageWithData::XboxSecure { .. } => AuthStage::XboxSecure,
            AuthStageWithData::AccessToken(..) => AuthStage::AccessToken,
        }
    }
}

impl AccountCredentials {
    pub open spec fn empty_spec() -> AccountCredentials {
        AccountCredentials {
            msa_refresh: None,
            msa_access: None,
            xbl: None,
            xsts: None,
            access_token: None,
        }
    }

    /// Whether the `access_token` field is present and unexpired.
    pub open spec fn access_token_fresh(self, now: i64) -> bool {
        match self.access_token {
            Some(t) => now < t.expiry,
            None => false,
        }
    }

    pub open spec fn xsts_fresh(self, now: i64) -> bool {
        match self.xsts {
            Some(t) => now < t.expiry,
            None => false,
        }
    }

    pub open spec fn xbl_fresh(self, now: i64) -> bool {
        match self.xbl {
            Some(t) => now < t.expiry,
            None => false,
        }
    }

    pub open spec fn msa_access_fresh(self, now: i64) -> bool {
        match self.msa_access {
            Some(t) => now < t.expiry,
            None => false,
        }
    }

    /// Whether the field belonging to `stage` is present and unexpired at
    /// `now`. `Initial` has no field and always counts as available;
    /// `msa_refresh` has no expiry and is fresh while present.
    pub open spec fn stage_fresh(self, stage: AuthStage, now: i64) -> bool {
        match stage {
            AuthStage::Initial => true,
            AuthStage::MsaRefresh => self.msa_refresh is Some,
            AuthStage::MsaAccess => self.msa_access_fresh(now),
            AuthStage::XboxLive => self.xbl_fresh(now),
            AuthStage::XboxSecure => self.xsts_fresh(now),
            AuthStage::AccessToken => self.access_token_fresh(now),
        }
    }

    /// The most advanced stage whose field is present and unexpired at `now`.
    pub open spec fn stage_of(self, now: i64) -> AuthStage {
        if self.access_token_fresh(now) {
            AuthStage::AccessToken
        } else if self.xsts_fresh(now) {
            AuthStage::XboxSecure
        } else if self.xbl_fresh(now) {
            AuthStage::XboxLive
        } else if self.msa_access_fresh(now) {
            AuthStage::MsaAccess
        } else if self.msa_refresh is Some {
            AuthStage::MsaRefresh
        } else {
            AuthStage::Initial
        }
    }

    /// The bundle after one resolver call at `now`: every field strictly
    /// more advanced than the returned stage (hence scanned and found
    /// expired) is cleared; the rest is untouched.
    pub open spec fn cleared(self, now: i64) -> AccountCredentials {
        AccountCredentials {
            access_token: if self.access_token_fresh(now) {
                self.access_token
            } else {
                None
            },
            xsts: if self.access_token_fresh(now) || self.xsts_fresh(now) {
                self.xsts
            } else {
                None
            },
            xbl: if self.access_token_fresh(now) || self.xsts_fresh(now) || self.xbl_fresh(now) {
                self.xbl
            } else {
                None
            },
            msa_access: if self.access_token_fresh(now) || self.xsts_fresh(now)
                || self.xbl_fresh(now) || self.msa_access_fresh(now) {
                self.msa_access
            } else {
                None
            },
            msa_refresh: self.msa_refresh,
        }
    }

    /// Resolve the most advanced still-valid stage against the wall
    /// clock. Same as [`Self::stage_at`] at the instant the call reads.
    pub fn stage(&mut self) -> (r: AuthStageWithData)
        ensures
            exists|now: i64|
                *final(self) == old(self).cleared(now) && r.stage_spec() == old(self).stage_of(
                    now,
                ),
    {
        let now = crate::clock::now_millis();
        let r = self.stage_at(now);
        proof {
            assert(*final(self) == old(self).cleared(now) && r.stage_spec() == old(
                self,
            ).stage_of(now));
        }
        r
    }

    /// Resolve the most advanced still-valid stage at instant `now`,
    /// clearing every more advanced, expired field on the way down.
    /// The returned payload is the cached value of the resolved stage.
    pub fn stage_at(&mut self, now: i64) -> (r: AuthStageWithData)
        ensures
            *final(self) == old(self).cleared(now),
            r.stage_spec() == old(self).stage_of(now),
            old(self).stage_of(now) == AuthStage::AccessToken ==> (r matches
                AuthStageWithData::AccessToken(t)
                && t.0@ == old(self).access_token->0.token@),
            old(self).stage_of(now) == AuthStage::XboxSecure ==> (r matches
                AuthStageWithData::XboxSecure { xsts, userhash }
                && xsts@ == old(self).xsts->0.token@
                && userhash@ == old(self).xsts->0.userhash@),
            old(self).stage_of(now) == AuthStage::XboxLive ==> (r matches
                AuthStageWithData::XboxLive(t) && t@ == old(self).xbl->0.token@),
            old(self).stage_of(now) == AuthStage::MsaAccess ==> (r matches
                AuthStageWithData::MsaAccess(t) && t@ == old(self).msa_access->0.token@),
            old(self).stage_of(now) == AuthStage::MsaRefresh ==> (r matches
                AuthStageWithData::MsaRefresh(t) && t@ == old(self).msa_refresh->0@),
    {
        if let Some(access_token) = &self.access_token {
            if now < access_token.expiry {
                return AuthStageWithData::AccessToken(
                    MinecraftAccessToken(access_token.token.clone()),
                );
            }
        }
        self.access_token = None;

        if let Some(xsts) = &self.xsts {
            if now < xsts.expiry {
                return AuthStageWithData::XboxSecure {
                    xsts: xsts.token.clone(),
                    userhash: xsts.userhash.clone(),
                };
            }
        }
        self.xsts = None;

        if let Some(xbl) = &self.xbl {
            if now < xbl.expiry {
                return AuthStageWithData::XboxLive(xbl.token.clone());
            }
        }
        self.xbl = None;

        if let Some(msa_access) = &self.msa_access {
            if now < msa_access.expiry {
                return AuthStageWithData::MsaAccess(msa_access.token.clone());
            }
        }
        self.msa_access = None;

        if let Some(msa_refresh) = &self.msa_refresh {
            return AuthStageWithData::MsaRefresh(msa_refresh.clone());
        }

        AuthStageWithData::Initial
    }
}

/// The resolved stage is the unique most advanced one: every strictly
/// more advanced stage has its field absent or expired at `now`, and the
/// resolved stage's own field is available.
pub proof fn lemma_stage_most_advanced(c: AccountCredentials, now: i64)
    ensures
        c.stage_fresh(c.stage_of(now), now),
        forall|s: AuthStage|
            s.index_spec() > c.stage_of(now).index_spec() ==> !c.stage_fresh(s, now),
{
}

/// Resolving is idempotent: a second call at the same instant resolves
/// the same stage and performs no further mutation.
pub proof fn lemma_stage_idempotent(c: AccountCredentials, now: i64)
    ensures
        c.cleared(now).cleared(now) == c.cleared(now),
        c.cleared(now).stage_of(now) == c.stage_of(now),
{
}

/// With every field absent or expired except a present `msa_refresh` the
/// resolver reports `MsaRefresh`; with every field absent it reports
/// `Initial`.
pub proof fn lemma_stage_fallback(c: AccountCredentials, now: i64)
    requires
        !c.access_token_fresh(now),
        !c.xsts_fresh(now),
        !c.xbl_fresh(now),
        !c.msa_access_fresh(now),
    ensures
        c.msa_refresh is Some ==> c.stage_of(now) == AuthStage::MsaRefresh,
        c.msa_refresh is None ==> c.stage_of(now) == AuthStage::Initial,
{
}

} // verus!
