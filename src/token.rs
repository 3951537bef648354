//! Bearer-token lifecycle of the cloud-hosted-model provider: when to
//! refresh, what a refresh records, and the claims of the signed assertion.
use vstd::prelude::*;
use vstd::string::*;

verus! {

/// A service account's credentials.
#[derive(Debug)]
pub struct ServiceAccount {
    pub private_key: String,
    pub client_email: String,
}

/// A service account's credentials as a key file lists them.
#[derive(Debug)]
pub struct ServiceAccountInfo {
    pub private_key: String,
    pub client_email: String,
}

/// The claims of the assertion exchanged for an access token.
#[derive(Debug)]
pub struct GoogleClaims {
    pub iss: String,
    pub scope: String,
    pub aud: String,
    pub iat: i64,
    pub exp: i64,
}

/// The token endpoint's answer.
#[derive(Debug)]
pub struct GoogleAccessToken {
    pub access_token: String,
    pub token_type: String,
    pub expires_in: usize,
}

/// Seconds before expiry at which a token is already refreshed.
pub const REFRESH_SKEW_SECS: i64 = 300;

/// Lifetime of a signed assertion, in seconds.
pub const ASSERTION_LIFETIME_SECS: i64 = 3600;

/// The scope that assertions ask for.
pub const CLOUD_PLATFORM_SCOPE: &'static str = "https://www.googleapis.com/auth/cloud-platform";

/// The endpoint that assertions are exchanged at.
pub const TOKEN_ENDPOINT: &'static str = "https://oauth2.googleapis.com/token";

/// The grant type of the exchange.
pub const JWT_BEARER_GRANT: &'static str = "urn:ietf:params:oauth:grant-type:jwt-bearer";

/// The cached credential; `expires_at` is in seconds since the epoch.
#[derive(Debug)]
pub struct TokenState {
    pub access_token: String,
    pub token_type: String,
    pub expires_at: Option<i64>,
}

/// What `get_token` asks of its caller.
#[derive(Debug)]
pub enum TokenStep {
    /// The cached token is current: use it.
    Ready(String),
    /// A new token must be fetched and handed to `complete_refresh`.
    Fetch,
}

/// The cached token is empty, or `now` plus the skew has reached its expiry.
pub open spec fn needs_refresh(s: TokenState, now: i64) -> bool {
    s.access_token@.len() == 0 || match s.expires_at {
        Some(e) => now + REFRESH_SKEW_SECS >= e,
        None => false,
    }
}

/// `now + d`, held at `i64::MAX`.
pub open spec fn expiry_after(now: i64, d: usize) -> i64 {
    if now + d <= i64::MAX {
        (now + d) as i64
    } else {
        i64::MAX
    }
}

/// The state that a fetched token leaves behind.
pub open spec fn refreshed(s: TokenState, t: GoogleAccessToken, now: i64) -> bool {
    &&& s.access_token@ == t.access_token@
    &&& s.token_type@ == t.token_type@
    &&& s.expires_at == Some(expiry_after(now, t.expires_in))
}

impl TokenState {
    /// No token yet, of type `"Bearer"`.
    pub fn new() -> (r: Self)
        ensures
            r.access_token@.len() == 0,
            r.token_type@ == "Bearer"@,
            r.expires_at is None,
    {
        TokenState { access_token: String::new(), token_type: String::from_str("Bearer"), expires_at: None }
    }

    /// The cached token when it is current at `now`, else a request to fetch.
    pub fn get_token(&self, now: i64) -> (r: TokenStep)
        ensures
            needs_refresh(*self, now) <==> r is Fetch,
            r matches TokenStep::Ready(t) ==> t@ == self.access_token@,
    {
        let stale = match self.expires_at {
            Some(e) => now as i128 + REFRESH_SKEW_SECS as i128 >= e as i128,
            None => false,
        };
        if self.access_token.as_str().is_empty() || stale {
            TokenStep::Fetch
        } else {
            TokenStep::Ready(self.access_token.clone())
        }
    }

    /// Records a fetched token, fetched at `now`; returns it.
    pub fn complete_refresh(&mut self, fetched: GoogleAccessToken, now: i64) -> (r: String)
        ensures
            refreshed(*final(self), fetched, now),
            r@ == fetched.access_token@,
    {
        let sum: i128 = now as i128 + fetched.expires_in as i128;
        let exp: i64 = if sum <= i64::MAX as i128 {
            sum as i64
        } else {
            i64::MAX
        };
        self.access_token = fetched.access_token;
        self.token_type = fetched.token_type;
        self.expires_at = Some(exp);
        self.access_token.clone()
    }
}

/// With no expiry recorded, the first request fetches; once a token that
/// outlives the skew is recorded, a request at the same time uses it.
pub proof fn lemma_unset_expiry_fetches_once(s: TokenState, fetched: GoogleAccessToken, after: TokenState, now: i64)
    requires
        s.access_token@.len() == 0,
        s.expires_at is None,
        fetched.access_token@.len() > 0,
        fetched.expires_in > REFRESH_SKEW_SECS,
        now < i64::MAX - REFRESH_SKEW_SECS,
        refreshed(after, fetched, now),
    ensures
        needs_refresh(s, now),
        !needs_refresh(after, now),
{
}

/// A token that expires ten minutes from now is used without a fetch.
pub proof fn lemma_current_token_is_kept(s: TokenState, now: i64)
    requires
        s.access_token@.len() > 0,
        now <= i64::MAX - 600,
        s.expires_at == Some((now + 600) as i64),
    ensures
        !needs_refresh(s, now),
{
}

/// The value of an `Authorization` header for a token.
pub fn get_auth_header_value(token: &str) -> (r: String)
    ensures
        r@ == "Bearer "@ + token@,
{
    let r = String::from_str("Bearer ");
    r.concat(token)
}

impl GoogleClaims {
    /// The claims for `account` at `now`: issued now, valid for an hour,
    /// scoped to the cloud platform, addressed to the token endpoint.
    pub fn for_account(account: &ServiceAccount, now: i64) -> (r: GoogleClaims)
        requires
            now <= i64::MAX - ASSERTION_LIFETIME_SECS,
        ensures
            r.iss@ == account.client_email@,
            r.scope@ == CLOUD_PLATFORM_SCOPE@,
            r.aud@ == TOKEN_ENDPOINT@,
            r.iat == now,
            r.exp == now + ASSERTION_LIFETIME_SECS,
    {
        GoogleClaims {
            iss: account.client_email.clone(),
            scope: String::from_str(CLOUD_PLATFORM_SCOPE),
            aud: String::from_str(TOKEN_ENDPOINT),
            iat: now,
            exp: now + ASSERTION_LIFETIME_SECS,
        }
    }
}

} // verus!
