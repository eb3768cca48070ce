//! OAuth2 authorisation of accounts: which tokens the refresh task renews, and
//! which pending authorisations have expired.
use vstd::prelude::*;

verus! {

/// Request for the authorisation URL of an account under an OAuth2 client.
#[derive(Clone, Debug, Default, PartialEq, Eq)]
pub struct AuthorizeUrlRequest {
    pub account_id: u64,
    pub oauth2_id: u64,
}

/// The authorisation flow of one OAuth2 client.
pub struct OAuth2Flow {
    pub oauth2_id: u64,
}

impl OAuth2Flow {
    pub fn new(oauth2_id: u64) -> (r: OAuth2Flow)
        ensures
            r.oauth2_id == oauth2_id,
    {
        OAuth2Flow { oauth2_id }
    }
}

/// The client id of tokens that were supplied from outside; they are never
/// refreshed here.
pub const EXTERNAL_OAUTH_APP_ID: u64 = 0;

/// A token is renewed once it is older than this, in milliseconds.
pub const REFRESH_AFTER_MS: i64 = 900000;

/// A pending authorisation expires after this, in milliseconds.
pub const PENDING_EXPIRATION_MS: i64 = 86400000;

/// Renews the access tokens every minute.
pub struct OAuth2RefreshTask;

/// Removes expired pending authorisations every six hours.
pub struct OAuth2CleanTask;

/// `now - then` does not overflow.
pub open spec fn age_fits(now: i64, then: i64) -> bool {
    i64::MIN <= now - then <= i64::MAX
}

/// Whether a token last updated at `updated_at` is renewed at `now`: it must
/// be older than fifteen minutes and belong to a client of this server.
pub fn needs_refresh(now: i64, updated_at: i64, oauth2_id: u64) -> (r: bool)
    requires
        age_fits(now, updated_at),
    ensures
        r == (now - updated_at > REFRESH_AFTER_MS && oauth2_id != EXTERNAL_OAUTH_APP_ID),
{
    now - updated_at > REFRESH_AFTER_MS && oauth2_id != EXTERNAL_OAUTH_APP_ID
}

/// Whether a pending authorisation created at `created_at` has expired at
/// `now`: it is older than a day.
pub fn pending_expired(now: i64, created_at: i64) -> (r: bool)
    requires
        age_fits(now, created_at),
    ensures
        r == (now - created_at > PENDING_EXPIRATION_MS),
{
    now - created_at > PENDING_EXPIRATION_MS
}

/// The refresh token to keep after a renewal: the new one when the server sent
/// one, else the old one.
pub fn refresh_token_after_renewal(old: String, new: Option<String>) -> (r: String)
    ensures
        r == (match new {
            Some(n) => n,
            None => old,
        }),
{
    match new {
        Some(n) => n,
        None => old,
    }
}


/// Why a token refresh does not go to the provider.
#[derive(Clone, Copy, Debug, PartialEq, Eq, Structural)]
pub enum RefreshRefusal {
    /// The OAuth2 client is disabled: the tokens issued through it (those of
    /// client `oauth2_id`) are deleted and the refresh fails.
    ClientDisabled { oauth2_id: u64 },
    /// There is no refresh token to exchange.
    MissingRefreshToken,
}

/// What a refresh does before it asks the provider: a disabled client has the
/// tokens of that client deleted and fails; a token without a refresh token
/// fails; otherwise its refresh token is exchanged.
pub fn refresh_decision(client_enabled: bool, token: &OAuth2AccessToken) -> (r: Result<
    String,
    RefreshRefusal,
>)
    ensures
        !client_enabled ==> r == Err::<String, RefreshRefusal>(
            RefreshRefusal::ClientDisabled { oauth2_id: token.oauth2_id },
        ),
        client_enabled && token.refresh_token is None ==> r == Err::<String, RefreshRefusal>(
            RefreshRefusal::MissingRefreshToken,
        ),
        client_enabled && token.refresh_token is Some ==> r == Ok::<String, RefreshRefusal>(
            token.refresh_token->0,
        ),
{
    if !client_enabled {
        return Err(RefreshRefusal::ClientDisabled { oauth2_id: token.oauth2_id });
    }
    match &token.refresh_token {
        Some(t) => Ok(t.clone()),
        None => Err(RefreshRefusal::MissingRefreshToken),
    }
}

/// The stored tokens of an account.
#[derive(Clone, Debug, Default, PartialEq, Eq)]
pub struct OAuth2AccessToken {
    pub account_id: u64,
    /// The OAuth2 client the tokens belong to ([`EXTERNAL_OAUTH_APP_ID`] for
    /// tokens supplied from outside).
    pub oauth2_id: u64,
    /// Stored encrypted.
    pub access_token: Option<String>,
    /// Stored encrypted.
    pub refresh_token: Option<String>,
    /// Milliseconds since the Unix epoch.
    pub created_at: i64,
    /// Milliseconds since the Unix epoch.
    pub updated_at: i64,
}

/// Tokens obtained outside the server, to store for an account.
#[derive(Clone, Debug, Default, PartialEq, Eq)]
pub struct ExternalOAuth2Request {
    pub oauth2_id: Option<u64>,
    pub access_token: Option<String>,
    pub refresh_token: Option<String>,
}

/// Why external tokens are refused.
#[derive(Clone, Copy, Debug, PartialEq, Eq, Structural)]
pub enum ExternalTokenError {
    /// A client id needs a refresh token to go with it.
    RefreshTokenRequired,
    /// A refresh token needs the client it belongs to.
    ClientRequired,
    /// No OAuth2 client with this id is configured.
    ClientNotFound(u64),
}

impl ExternalOAuth2Request {
    /// Checks external tokens: the client id and the refresh token come
    /// together or not at all, and a given client must be configured. The
    /// caller looks up whether the client exists (`client_exists`); the answer
    /// is consulted only when a client id is given.
    pub fn validate(&self, client_exists: bool) -> (r: Result<(), ExternalTokenError>)
        ensures
            self.oauth2_id is Some && self.refresh_token is None ==> r == Err::<(), ExternalTokenError>(
                ExternalTokenError::RefreshTokenRequired,
            ),
            self.oauth2_id is None && self.refresh_token is Some ==> r == Err::<(), ExternalTokenError>(
                ExternalTokenError::ClientRequired,
            ),
            self.oauth2_id is Some && self.refresh_token is Some ==> r == (if client_exists {
                Ok::<(), ExternalTokenError>(())
            } else {
                Err(ExternalTokenError::ClientNotFound(self.oauth2_id->0))
            }),
            self.oauth2_id is None && self.refresh_token is None ==> r is Ok,
    {
        match self.check_pairing() {
            Ok(()) => {},
            Err(e) => return Err(e),
        }
        match self.oauth2_id {
            Some(id) => if client_exists {
                Ok(())
            } else {
                Err(ExternalTokenError::ClientNotFound(id))
            },
            None => Ok(()),
        }
    }

    /// The client id and the refresh token come together or not at all: the
    /// part of [`ExternalOAuth2Request::validate`] that needs nothing from
    /// outside.
    pub fn check_pairing(&self) -> (r: Result<(), ExternalTokenError>)
        ensures
            self.oauth2_id is Some && self.refresh_token is None ==> r == Err::<(), ExternalTokenError>(
                ExternalTokenError::RefreshTokenRequired,
            ),
            self.oauth2_id is None && self.refresh_token is Some ==> r == Err::<(), ExternalTokenError>(
                ExternalTokenError::ClientRequired,
            ),
            (self.oauth2_id is Some) == (self.refresh_token is Some) ==> r is Ok,
    {
        match (self.oauth2_id.is_some(), self.refresh_token.is_some()) {
            (true, false) => Err(ExternalTokenError::RefreshTokenRequired),
            (false, true) => Err(ExternalTokenError::ClientRequired),
            _ => Ok(()),
        }
    }
}

/// The stored tokens after external tokens (already encrypted) arrive at
/// `now`: an existing record takes each value that was given; a new record
/// takes them all, with the external client id when none was given.
pub fn upsert_external_token(
    current: Option<OAuth2AccessToken>,
    account_id: u64,
    request: ExternalOAuth2Request,
    now: i64,
) -> (r: OAuth2AccessToken)
    ensures
        match current {
            Some(c) => r == (OAuth2AccessToken {
                oauth2_id: match request.oauth2_id {
                    Some(id) => id,
                    None => c.oauth2_id,
                },
                access_token: if request.access_token is Some {
                    request.access_token
                } else {
                    c.access_token
                },
                refresh_token: if request.refresh_token is Some {
                    request.refresh_token
                } else {
                    c.refresh_token
                },
                updated_at: now,
                ..c
            }),
            None => r == (OAuth2AccessToken {
                account_id,
                oauth2_id: match request.oauth2_id {
                    Some(id) => id,
                    None => EXTERNAL_OAUTH_APP_ID,
                },
                access_token: request.access_token,
                refresh_token: request.refresh_token,
                created_at: now,
                updated_at: now,
            }),
        },
{
    match current {
        Some(mut c) => {
            if let Some(id) = request.oauth2_id {
                c.oauth2_id = id;
            }
            if let Some(t) = request.access_token {
                c.access_token = Some(t);
            }
            if let Some(t) = request.refresh_token {
                c.refresh_token = Some(t);
            }
            c.updated_at = now;
            c
        },
        None => OAuth2AccessToken {
            account_id,
            oauth2_id: match request.oauth2_id {
                Some(id) => id,
                None => EXTERNAL_OAUTH_APP_ID,
            },
            access_token: request.access_token,
            refresh_token: request.refresh_token,
            created_at: now,
            updated_at: now,
        },
    }
}

} // verus!
