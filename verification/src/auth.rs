//! Contextual caching for authentication, allowing reusability of access
//! tokens and smart token refreshing.
//!
//! The cache itself is a verified reader-writer lock over an optional
//! [`AccessToken`]: many concurrent readers observe a consistent snapshot and
//! one writer at a time replaces it, with no network call ever made under the
//! lock. Deciding whether a snapshot may be reused, and turning an exchange
//! response into a fresh token, are pure verified functions over plain
//! values; performing the exchange itself is the caller's transport concern.

use vstd::prelude::*;
use vstd::rwlock::{RwLock, RwLockPredicate};

use crate::errors::{BubbleHearthError, BubbleHearthResult};
use crate::json::{find_entry, parse_json_shape, parsed_shape, spec_lookup_entry, JsonScalar, JsonShape};
use crate::regionality::{spec_token_endpoint, AccountRegion};

verus! {

/// Represents the access token response at the token endpoint based on the
/// client region.
#[derive(Default, Debug, Clone, PartialEq)]
pub struct AccessTokenResponse {
    /// Represents the access token used to authenticate against Blizzard APIs.
    pub access_token: String,
    /// OAuth-based token type, usually a bearer.
    pub token_type: String,
    /// Number of seconds until the token expires, usually defaulting to 1 day.
    pub expires_in: u64,
    /// Subscriber of the authentication request, defaults to the client ID of the request.
    pub sub: String,
    /// Optional scope associated to the token, mainly used for user profile data.
    pub scope: Option<String>,
}

/// An access token paired with the absolute instant it expires, in whole
/// seconds since the Unix epoch.
#[derive(Debug, Clone, PartialEq)]
pub struct AccessToken {
    /// The raw bearer token used to authenticate against Blizzard APIs.
    pub token: String,
    /// Absolute expiry instant of the token, in Unix seconds.
    pub expires_at: i64,
}

/// The form request a caller must send to perform the client-credentials
/// exchange: an HTTP POST with basic authentication and a single form field.
#[derive(Debug, Clone, PartialEq)]
pub struct TokenExchangeRequest {
    /// The token endpoint of the configured region.
    pub endpoint: String,
    /// Client ID, sent as the basic authentication user.
    pub client_id: String,
    /// Client secret, sent as the basic authentication password.
    pub client_secret: String,
    /// The OAuth grant type form value, always client credentials.
    pub grant_type: String,
}

/// Relies on `time::OffsetDateTime::now_utc` and `unix_timestamp`: the
/// current moment as whole seconds since the Unix epoch. The call can panic
/// only on a system clock outside the time crate's representable range of
/// years.
#[verifier::external_body]
pub fn now_unix_seconds() -> (now: i64) {
    time::OffsetDateTime::now_utc().unix_timestamp()
}

/// What a cache snapshot yields for a caller at clock reading `now`: absence
/// when nothing was ever cached, a forced refresh when the cached token's
/// expiry has passed, and the cached token string only while its expiry is
/// strictly in the future.
pub open spec fn spec_try_current(cache: Option<AccessToken>, now: int) -> Result<
    Option<String>,
    BubbleHearthError,
> {
    match cache {
        None => Err(BubbleHearthError::AccessTokenNotFound),
        Some(t) => if t.expires_at <= now {
            Ok(None)
        } else {
            Ok(Some(t.token))
        },
    }
}

/// Whether a cache snapshot requires a token refresh at clock reading `now`.
pub open spec fn spec_refresh_required(cache: Option<AccessToken>, now: int) -> bool {
    match cache {
        None => true,
        Some(t) => t.expires_at <= now,
    }
}

/// Evaluates a cache snapshot for a caller at clock reading `now`.
pub fn evaluate_cache(cache: &Option<AccessToken>, now: i64) -> (r: Result<
    Option<String>,
    BubbleHearthError,
>)
    ensures
        r == spec_try_current(*cache, now as int),
{
    match cache {
        None => Err(BubbleHearthError::AccessTokenNotFound),
        Some(t) => {
            if t.expires_at <= now {
                Ok(None)
            } else {
                Ok(Some(t.token.clone()))
            }
        },
    }
}

/// Evaluates whether a cache snapshot requires a token refresh at clock
/// reading `now`.
pub fn evaluate_refresh(cache: &Option<AccessToken>, now: i64) -> (required: bool)
    ensures
        required == spec_refresh_required(*cache, now as int),
{
    match cache {
        None => true,
        Some(t) => t.expires_at <= now,
    }
}

/// The invariant the cache's lock maintains over its contents: any optional
/// token is a valid state, so the predicate is unconditional.
pub struct TokenCachePred {}

impl RwLockPredicate<Option<AccessToken>> for TokenCachePred {
    open spec fn inv(self, v: Option<AccessToken>) -> bool {
        true
    }
}

/// A concurrency-safe holder of the current access token and its expiry:
/// many concurrent readers observe a consistent snapshot, and at most one
/// concurrent writer replaces it. Critical sections are bounded — a lookup
/// or a value replacement, never network I/O.
pub struct TokenCache {
    lock: RwLock<Option<AccessToken>, TokenCachePred>,
}

impl TokenCache {
    /// Constructs an empty cache holding no token.
    pub fn new() -> TokenCache {
        TokenCache { lock: RwLock::new(None, Ghost(TokenCachePred {})) }
    }

    /// Returns the cached token only if one is present and its expiry is
    /// strictly in the future relative to `now`; `Ok(None)` signals that a
    /// refresh is required, which is a trigger and not an error.
    pub fn try_current(&self, now: i64) -> (r: Result<Option<String>, BubbleHearthError>)
        ensures
            exists|cache: Option<AccessToken>| r == spec_try_current(cache, now as int),
    {
        let handle = self.lock.acquire_read();
        let r = evaluate_cache(handle.borrow(), now);
        handle.release_read();
        r
    }

    /// Whether the cache requires a token refresh at clock reading `now`.
    pub fn refresh_required(&self, now: i64) -> (r: bool)
        ensures
            exists|cache: Option<AccessToken>| r == spec_refresh_required(cache, now as int),
    {
        let handle = self.lock.acquire_read();
        let r = evaluate_refresh(handle.borrow(), now);
        handle.release_read();
        r
    }

    /// Atomically replaces the cached token: last writer wins, with no
    /// ordering enforced between concurrent refreshes other than the
    /// serialization the lock provides.
    pub fn store(&self, token: AccessToken) {
        let (_, handle) = self.lock.acquire_write();
        handle.release_write(Some(token));
    }

    /// A copy of the cache contents at one consistent instant.
    pub fn snapshot(&self) -> Option<AccessToken> {
        let handle = self.lock.acquire_read();
        let r = match handle.borrow() {
            None => None,
            Some(t) => Some(AccessToken { token: t.token.clone(), expires_at: t.expires_at }),
        };
        handle.release_read();
        r
    }
}

/// The access token response an exchange body decodes to, if its JSON shape
/// carries a string `access_token`, `token_type` and `sub`, an unsigned
/// `expires_in`, and at most a string `scope`.
pub open spec fn spec_token_response(shape: JsonShape) -> Option<AccessTokenResponse> {
    match shape {
        JsonShape::Object(entries) => spec_token_response_fields(
            spec_lookup_entry(entries@, "access_token"@),
            spec_lookup_entry(entries@, "token_type"@),
            spec_lookup_entry(entries@, "expires_in"@),
            spec_lookup_entry(entries@, "sub"@),
            spec_lookup_entry(entries@, "scope"@),
        ),
        _ => None,
    }
}

/// Assembles an access token response from the scalars found under each
/// expected key, if every required one is present with the right JSON kind.
pub open spec fn spec_token_response_fields(
    at: Option<JsonScalar>,
    tt: Option<JsonScalar>,
    ei: Option<JsonScalar>,
    sub: Option<JsonScalar>,
    sc: Option<JsonScalar>,
) -> Option<AccessTokenResponse> {
    match (at, tt, ei, sub) {
        (
            Some(JsonScalar::Text(a)),
            Some(JsonScalar::Text(t)),
            Some(JsonScalar::Unsigned(n)),
            Some(JsonScalar::Text(s)),
        ) => match sc {
            None => Some(
                AccessTokenResponse {
                    access_token: a,
                    token_type: t,
                    expires_in: n,
                    sub: s,
                    scope: None,
                },
            ),
            Some(JsonScalar::Text(x)) => Some(
                AccessTokenResponse {
                    access_token: a,
                    token_type: t,
                    expires_in: n,
                    sub: s,
                    scope: Some(x),
                },
            ),
            Some(_) => None,
        },
        _ => None,
    }
}

/// Decodes an exchange response body's JSON shape as an access token
/// response, failing with [`BubbleHearthError::AuthFailure`] when the shape
/// does not match.
pub fn token_response_of_shape(shape: &JsonShape) -> (r: Result<
    AccessTokenResponse,
    BubbleHearthError,
>)
    ensures
        match spec_token_response(*shape) {
            Some(resp) => r == Ok::<AccessTokenResponse, BubbleHearthError>(resp),
            None => r == Err::<AccessTokenResponse, BubbleHearthError>(
                BubbleHearthError::AuthFailure,
            ),
        },
{
    match shape {
        JsonShape::Object(entries) => {
            let access_token = match find_entry(entries, "access_token") {
                Some(i) => match &entries[i].1 {
                    JsonScalar::Text(s) => s.clone(),
                    _ => return Err(BubbleHearthError::AuthFailure),
                },
                None => return Err(BubbleHearthError::AuthFailure),
            };
            let token_type = match find_entry(entries, "token_type") {
                Some(i) => match &entries[i].1 {
                    JsonScalar::Text(s) => s.clone(),
                    _ => return Err(BubbleHearthError::AuthFailure),
                },
                None => return Err(BubbleHearthError::AuthFailure),
            };
            let expires_in = match find_entry(entries, "expires_in") {
                Some(i) => match &entries[i].1 {
                    JsonScalar::Unsigned(n) => *n,
                    _ => return Err(BubbleHearthError::AuthFailure),
                },
                None => return Err(BubbleHearthError::AuthFailure),
            };
            let sub = match find_entry(entries, "sub") {
                Some(i) => match &entries[i].1 {
                    JsonScalar::Text(s) => s.clone(),
                    _ => return Err(BubbleHearthError::AuthFailure),
                },
                None => return Err(BubbleHearthError::AuthFailure),
            };
            let scope = match find_entry(entries, "scope") {
                Some(i) => match &entries[i].1 {
                    JsonScalar::Text(s) => Some(s.clone()),
                    _ => return Err(BubbleHearthError::AuthFailure),
                },
                None => None,
            };
            Ok(AccessTokenResponse { access_token, token_type, expires_in, sub, scope })
        },
        _ => Err(BubbleHearthError::AuthFailure),
    }
}

/// Parses an exchange response body as an access token response, failing
/// with [`BubbleHearthError::AuthFailure`] when the body is not valid JSON
/// or does not match the expected shape.
pub fn parse_token_response(body: &str) -> (r: Result<AccessTokenResponse, BubbleHearthError>)
    ensures
        match parsed_shape(body@) {
            Some(shape) => match spec_token_response(shape) {
                Some(resp) => r == Ok::<AccessTokenResponse, BubbleHearthError>(resp),
                None => r == Err::<AccessTokenResponse, BubbleHearthError>(
                    BubbleHearthError::AuthFailure,
                ),
            },
            None => r == Err::<AccessTokenResponse, BubbleHearthError>(
                BubbleHearthError::AuthFailure,
            ),
        },
{
    match parse_json_shape(body) {
        Some(shape) => token_response_of_shape(&shape),
        None => Err(BubbleHearthError::AuthFailure),
    }
}

/// The absolute expiry of a token acquired at `now` with a declared lifetime
/// of `expires_in` seconds, saturating at the largest representable instant.
pub open spec fn spec_expiry(now: int, expires_in: int) -> int {
    if now + expires_in > i64::MAX {
        i64::MAX as int
    } else {
        now + expires_in
    }
}

/// Computes a token's absolute expiry from the acquisition instant and the
/// server-declared lifetime in seconds.
pub fn expiry_at(now: i64, expires_in: u64) -> (r: i64)
    ensures
        r as int == spec_expiry(now as int, expires_in as int),
{
    let sum: i128 = now as i128 + expires_in as i128;
    if sum > i64::MAX as i128 {
        i64::MAX
    } else {
        sum as i64
    }
}

/// The outcome of a client-credentials exchange at clock reading `now`,
/// given the response status (`None` for a transport-level failure) and the
/// parsed shape of the response body: a fresh token exactly when the status
/// is a success and the body decodes as an access token response, and
/// [`BubbleHearthError::AuthFailure`] otherwise.
pub open spec fn spec_exchange_outcome(
    status: Option<u16>,
    parsed: Option<JsonShape>,
    now: int,
) -> Result<AccessToken, BubbleHearthError> {
    match status {
        None => Err(BubbleHearthError::AuthFailure),
        Some(code) => if !(200 <= code < 300) {
            Err(BubbleHearthError::AuthFailure)
        } else {
            match parsed {
                None => Err(BubbleHearthError::AuthFailure),
                Some(shape) => match spec_token_response(shape) {
                    None => Err(BubbleHearthError::AuthFailure),
                    Some(resp) => Ok(
                        AccessToken {
                            token: resp.access_token,
                            expires_at: spec_expiry(now, resp.expires_in as int) as i64,
                        },
                    ),
                },
            }
        },
    }
}

/// The cache contents after an exchange outcome is applied: a successful
/// exchange replaces the cached token, a failed one leaves the cache as it
/// was.
pub open spec fn spec_cache_after_exchange(
    cache: Option<AccessToken>,
    outcome: Result<AccessToken, BubbleHearthError>,
) -> Option<AccessToken> {
    match outcome {
        Ok(t) => Some(t),
        Err(_) => cache,
    }
}

/// Represents the current authentication context, including the most
/// recently requested access token.
pub struct AuthenticationContext {
    /// Configured account region.
    pub region: AccountRegion,
    /// Client ID provided by Blizzard's developer portal.
    pub client_id: String,
    /// Client secret provided by Blizzard's developer portal.
    pub client_secret: String,
    /// Current access token used to authenticate against Blizzard APIs.
    pub cache: TokenCache,
}

impl AuthenticationContext {
    /// Constructs a new authentication context with an empty token cache.
    pub fn new(region: AccountRegion, client_id: String, client_secret: String) -> (ctx:
        AuthenticationContext)
        ensures
            ctx.region == region,
            ctx.client_id == client_id,
            ctx.client_secret == client_secret,
    {
        AuthenticationContext { region, client_id, client_secret, cache: TokenCache::new() }
    }

    /// Returns a copy of the current access token at clock reading `now`. In
    /// the case a token refresh is required, explicitly returns `Ok(None)`
    /// to force retrieving of a fresh access token.
    pub fn try_access_token_at(&self, now: i64) -> (r: Result<Option<String>, BubbleHearthError>)
        ensures
            exists|cache: Option<AccessToken>| r == spec_try_current(cache, now as int),
    {
        self.cache.try_current(now)
    }

    /// Returns a copy of the current access token at the current clock
    /// reading, with `Ok(None)` forcing retrieval of a fresh access token.
    pub fn try_access_token(&self) -> (r: Result<Option<String>, BubbleHearthError>)
        ensures
            exists|cache: Option<AccessToken>, now: int| r == spec_try_current(cache, now),
    {
        let now = now_unix_seconds();
        self.cache.try_current(now)
    }

    /// Determines if the current access token has expired at clock reading
    /// `now` and requires refreshing.
    pub fn try_refresh_required_at(&self, now: i64) -> (r: Result<bool, BubbleHearthError>)
        ensures
            exists|cache: Option<AccessToken>| r == Ok::<bool, BubbleHearthError>(
                spec_refresh_required(cache, now as int),
            ),
    {
        Ok(self.cache.refresh_required(now))
    }

    /// Determines if the current access token has expired at the current
    /// clock reading and requires refreshing.
    pub fn try_refresh_required(&self) -> (r: Result<bool, BubbleHearthError>)
        ensures
            exists|cache: Option<AccessToken>, now: int| r == Ok::<bool, BubbleHearthError>(
                spec_refresh_required(cache, now),
            ),
    {
        let now = now_unix_seconds();
        Ok(self.cache.refresh_required(now))
    }

    /// The client-credentials form request to send to the configured
    /// region's token endpoint.
    pub fn token_request(&self) -> (r: TokenExchangeRequest)
        ensures
            r.endpoint@ == spec_token_endpoint(self.region),
            r.client_id == self.client_id,
            r.client_secret == self.client_secret,
            r.grant_type@ == "client_credentials"@,
    {
        TokenExchangeRequest {
            endpoint: self.region.get_token_endpoint().to_owned(),
            client_id: self.client_id.clone(),
            client_secret: self.client_secret.clone(),
            grant_type: "client_credentials".to_owned(),
        }
    }

    /// Applies the result of a client-credentials exchange performed at
    /// clock reading `now`: on a success status with a well-formed body the
    /// fresh token is cached and returned, and on any failure the cache is
    /// left untouched and [`BubbleHearthError::AuthFailure`] surfaces.
    pub fn apply_token_response(&self, status: Option<u16>, body: &str, now: i64) -> (r: Result<
        String,
        BubbleHearthError,
    >)
        ensures
            match spec_exchange_outcome(status, parsed_shape(body@), now as int) {
                Ok(t) => r == Ok::<String, BubbleHearthError>(t.token),
                Err(e) => r == Err::<String, BubbleHearthError>(e),
            },
    {
        let code = match status {
            None => return Err(BubbleHearthError::AuthFailure),
            Some(code) => code,
        };
        if code < 200 || code >= 300 {
            return Err(BubbleHearthError::AuthFailure);
        }
        let response = match parse_token_response(body) {
            Ok(response) => response,
            Err(_) => return Err(BubbleHearthError::AuthFailure),
        };
        let expires_at = expiry_at(now, response.expires_in);
        let token = response.access_token;
        self.cache.store(AccessToken { token: token.clone(), expires_at });
        Ok(token)
    }

    /// A copy of the cached token and expiry at one consistent instant.
    pub fn current_token(&self) -> Option<AccessToken> {
        self.cache.snapshot()
    }
}

/// The cache contents after a sequence of stores is serialized through the
/// lock, each replacing the previous contents.
pub open spec fn spec_apply_stores(cache: Option<AccessToken>, stores: Seq<AccessToken>) -> Option<
    AccessToken,
>
    decreases stores.len(),
{
    if stores.len() == 0 {
        cache
    } else {
        spec_apply_stores(Some(stores[0]), stores.drop_first())
    }
}

/// The cache never yields a token whose expiry has passed: whatever the
/// snapshot, a returned token string comes from a cached token whose expiry
/// lies strictly after the clock reading.
pub proof fn lemma_never_returns_expired(cache: Option<AccessToken>, now: int)
    ensures
        spec_try_current(cache, now) matches Ok(Some(t)) ==> (cache matches Some(cached)
            && cached.token == t && now < cached.expires_at),
{
}

/// Token reuse: while a cached token's expiry lies strictly in the future,
/// every lookup — in particular two sequential calls within the token's
/// lifetime — yields that identical token string and triggers no exchange.
pub proof fn lemma_token_reuse(cache: Option<AccessToken>, now1: int, now2: int)
    requires
        cache matches Some(t) && now1 < t.expires_at && now2 < t.expires_at,
    ensures
        spec_try_current(cache, now1) == Ok::<Option<String>, BubbleHearthError>(
            Some(cache->0.token),
        ),
        spec_try_current(cache, now2) == spec_try_current(cache, now1),
        !spec_refresh_required(cache, now1),
        !spec_refresh_required(cache, now2),
{
}

/// Expiry triggers refresh: once the cached token's expiry has passed, a
/// lookup yields the refresh trigger rather than a token or an error, and a
/// successful exchange caches exactly the fresh token.
pub proof fn lemma_expiry_triggers_refresh(
    cache: Option<AccessToken>,
    now: int,
    status: Option<u16>,
    parsed: Option<JsonShape>,
)
    requires
        cache matches Some(t) && t.expires_at <= now,
    ensures
        spec_try_current(cache, now) == Ok::<Option<String>, BubbleHearthError>(None),
        spec_refresh_required(cache, now),
        spec_exchange_outcome(status, parsed, now) matches Ok(fresh)
            ==> spec_cache_after_exchange(cache, spec_exchange_outcome(status, parsed, now))
            == Some(fresh),
{
}

/// A token freshly acquired from a successful exchange with a positive
/// declared lifetime is immediately usable: a lookup at the acquisition
/// instant yields it rather than triggering another refresh.
pub proof fn lemma_fresh_token_is_usable(
    status: Option<u16>,
    parsed: Option<JsonShape>,
    now: int,
    t: AccessToken,
)
    requires
        spec_exchange_outcome(status, parsed, now) == Ok::<AccessToken, BubbleHearthError>(t),
        parsed matches Some(shape) && spec_token_response(shape) matches Some(resp)
            && resp.expires_in > 0,
        now < i64::MAX,
    ensures
        spec_try_current(Some(t), now) == Ok::<Option<String>, BubbleHearthError>(Some(t.token)),
        !spec_refresh_required(Some(t), now),
{
}

/// Concurrent refresh safety: however many racing refreshes store their
/// results, the serialized cache ends holding exactly the last-written one
/// of the acquired tokens — a valid state, never a mixture.
pub proof fn lemma_concurrent_refresh_safety(cache: Option<AccessToken>, stores: Seq<AccessToken>)
    requires
        stores.len() > 0,
    ensures
        spec_apply_stores(cache, stores) == Some(stores.last()),
        exists|i: int|
            0 <= i < stores.len() && spec_apply_stores(cache, stores) == Some(#[trigger] stores[i]),
    decreases stores.len(),
{
    if stores.len() == 1 {
        assert(stores.drop_first().len() == 0);
        assert(stores[0] == stores.last());
    } else {
        lemma_concurrent_refresh_safety(Some(stores[0]), stores.drop_first());
        assert(stores.drop_first().last() == stores.last());
    }
    assert(spec_apply_stores(cache, stores) == Some(stores[stores.len() - 1]));
}

/// Invalid credentials: a rejected exchange — any response that is not a
/// success status — fails with [`BubbleHearthError::AuthFailure`] and caches
/// no token.
pub proof fn lemma_invalid_credentials(
    cache: Option<AccessToken>,
    status: Option<u16>,
    parsed: Option<JsonShape>,
    now: int,
)
    requires
        status matches Some(code) ==> !(200 <= code < 300),
    ensures
        spec_exchange_outcome(status, parsed, now) == Err::<AccessToken, BubbleHearthError>(
            BubbleHearthError::AuthFailure,
        ),
        spec_cache_after_exchange(cache, spec_exchange_outcome(status, parsed, now)) == cache,
{
}

} // verus!
