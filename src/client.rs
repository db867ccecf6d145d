//! The client's configuration and its token lifecycle: which token is
//! current, when the cache is consulted, and when a new token is needed.
use vstd::prelude::*;

use crate::time::Timestamp;
use crate::token::{AccessToken, AccessTokenResponse};
use crate::Error;

verus! {

/// The two deployments of the API.
#[derive(Clone, Copy, Debug, PartialEq, Eq, Structural)]
pub enum Host {
    Live,
    Sandbox,
}

impl Host {
    /// The base address of the deployment.
    pub open spec fn base_url(self) -> Seq<char> {
        match self {
            Host::Live => "https://openapi.investec.com"@,
            Host::Sandbox => "https://openapisandbox.investec.com"@,
        }
    }

    /// The base address of the deployment.
    pub fn url(&self) -> (r: String)
        ensures
            r@ == self.base_url(),
    {
        match self {
            Host::Live => "https://openapi.investec.com".to_string(),
            Host::Sandbox => "https://openapisandbox.investec.com".to_string(),
        }
    }
}

/// A single slot that keeps one token across process runs. Writing
/// overwrites; a failed read means only that no cached token is at hand.
pub trait TokenStore {
    /// The token in the slot.
    fn read(&self) -> Result<AccessToken, Error>;

    /// Puts `token` in the slot in place of what was there.
    fn write(&self, token: &AccessToken) -> Result<(), Error>;
}

/// An authenticated client: credentials, deployment, cache policy and the
/// current token.
pub struct Client {
    pub id: String,
    pub secret: String,
    pub key: String,
    pub host: Host,
    /// The token in memory, if any.
    pub access_token: Option<AccessToken>,
    /// Where tokens are cached across runs, if anywhere.
    pub token_store: Option<Box<dyn TokenStore>>,
    /// Authenticate before each call.
    pub refresh_auth: bool,
    /// Why the last fetched token could not be cached, if it could not.
    pub persist_failure: Option<Error>,
}

/// What the client-credentials exchange sends: a form post to `url` with
/// basic credentials, the API key as a header, and the grant type.
pub struct TokenRequest {
    pub url: String,
    pub username: String,
    pub password: String,
    pub api_key: String,
    pub grant_type: String,
}

/// A response status of the HTTP client or server error classes.
pub open spec fn is_error_status(code: u16) -> bool {
    400 <= code && code < 600
}

/// Tells whether a response status reports a client or server error.
pub fn error_status(code: u16) -> (r: bool)
    ensures
        r == is_error_status(code),
{
    400 <= code && code < 600
}

/// The segments `parts`, each preceded by a slash.
pub open spec fn joined(parts: Seq<Seq<char>>) -> Seq<char>
    decreases parts.len(),
{
    if parts.len() == 0 {
        seq![]
    } else {
        joined(parts.drop_last()) + "/"@ + parts.last()
    }
}

/// The path of a resource of the private-banking API, whose address is
/// `/za/pb/v1` followed by the given segments.
pub fn api_path(parts: &[&str]) -> (r: String)
    ensures
        r@ == "/za/pb/v1"@ + joined(parts@.map_values(|p: &str| p@)),
{
    let mut path = "/za/pb/v1".to_string();
    let ghost views = parts@.map_values(|p: &str| p@);
    let mut i: usize = 0;
    while i < parts.len()
        invariant
            i <= parts@.len(),
            views == parts@.map_values(|p: &str| p@),
            path@ == "/za/pb/v1"@ + joined(views.subrange(0, i as int)),
        decreases parts@.len() - i,
    {
        path.append("/");
        path.append(parts[i]);
        assert(views.subrange(0, i + 1).drop_last() =~= views.subrange(0, i as int));
        i = i + 1;
    }
    assert(views.subrange(0, i as int) =~= views);
    path
}

/// `token` is present and not expired at `now`.
pub open spec fn usable(token: Option<AccessToken>, now: Timestamp) -> bool {
    token matches Some(t) && !t@.expired_at(now)
}

/// What authentication does first.
#[derive(Clone, Copy, Debug, PartialEq, Eq, Structural)]
pub enum CacheAction {
    /// The token in memory is usable: nothing else is needed.
    UseMemory,
    /// Memory holds no token and a store is configured: ask the store.
    ReadStore,
    /// A new token must be fetched.
    Fetch,
}

/// The first step of authentication at `now`, given the token in memory and
/// whether a store is configured. An expired token in memory leads straight
/// to a fetch: the store is only asked when memory holds no token.
pub open spec fn first_action(token: Option<AccessToken>, has_store: bool, now: Timestamp) -> CacheAction {
    match token {
        Some(t) => if t@.expired_at(now) {
            CacheAction::Fetch
        } else {
            CacheAction::UseMemory
        },
        None => if has_store {
            CacheAction::ReadStore
        } else {
            CacheAction::Fetch
        },
    }
}

/// What the cache step may do at `now`: `before` and `after` are the token
/// in memory around it, `has_store` tells whether a store is configured, and
/// `ready` is its report. A token in memory is kept and never checked against
/// the store; the store is only consulted when memory holds no token.
pub open spec fn cache_step(
    before: Option<AccessToken>,
    has_store: bool,
    now: Timestamp,
    after: Option<AccessToken>,
    ready: bool,
) -> bool {
    &&& before is Some ==> ready == usable(before, now) && after == before
    &&& before is None ==> ready == usable(after, now)
    &&& before is None && !ready ==> after is None
    &&& before is None && !has_store ==> !ready
}

/// What adopting the store's answer `read` at `now` does to a client that
/// holds no token: `after` is the token in memory afterwards.
pub open spec fn adopt_step(
    read: Result<AccessToken, Error>,
    now: Timestamp,
    after: Option<AccessToken>,
    ready: bool,
) -> bool {
    &&& ready == (read matches Ok(t) && !t@.expired_at(now))
    &&& ready ==> after == Some(read->Ok_0)
    &&& !ready ==> after is None
}

impl Client {
    /// `self` has the configuration of `other`: only the token and the
    /// record of a failed write may differ.
    pub open spec fn same_config(self, other: Client) -> bool {
        &&& self.id == other.id
        &&& self.secret == other.secret
        &&& self.key == other.key
        &&& self.host == other.host
        &&& self.token_store == other.token_store
        &&& self.refresh_auth == other.refresh_auth
    }

    /// `self` is the client that `b` builds: the given fields, the live host
    /// and no automatic refresh by default, and no token yet.
    pub open spec fn built_from(self, b: ClientBuilder) -> bool {
        &&& b.id == Some(self.id)
        &&& b.secret == Some(self.secret)
        &&& b.key == Some(self.key)
        &&& self.host == match b.host {
            Some(h) => h,
            None => Host::Live,
        }
        &&& self.access_token is None
        &&& self.token_store == b.token_store
        &&& self.refresh_auth == (b.refresh_auth == Some(true))
        &&& self.persist_failure is None
    }

    /// A client of the sandbox deployment with its published demo
    /// credentials, caching tokens in `store` and authenticating before each
    /// call.
    pub fn sandbox<T: TokenStore + 'static>(store: T) -> (r: Client)
        ensures
            r.id@ == "yAxzQRFX97vOcyQAwluEU6H6ePxMA5eY"@,
            r.secret@ == "4dY0PjEYqoBrZ99r"@,
            r.key@
                == "eUF4elFSRlg5N3ZPY3lRQXdsdUVVNkg2ZVB4TUE1ZVk6YVc1MlpYTjBaV010ZW1FdGNHSXRZV05qYjNWdWRITXRjMkZ1WkdKdmVBPT0="@,
            r.host == Host::Sandbox,
            r.access_token is None,
            r.token_store is Some,
            r.refresh_auth,
            r.persist_failure is None,
    {
        let boxed: Box<dyn TokenStore> = Box::new(store);
        Client {
            id: "yAxzQRFX97vOcyQAwluEU6H6ePxMA5eY".to_string(),
            secret: "4dY0PjEYqoBrZ99r".to_string(),
            key: "eUF4elFSRlg5N3ZPY3lRQXdsdUVVNkg2ZVB4TUE1ZVk6YVc1MlpYTjBaV010ZW1FdGNHSXRZV05qYjNWdWRITXRjMkZ1WkdKdmVBPT0=".to_string(),
            host: Host::Sandbox,
            access_token: None,
            token_store: Some(boxed),
            refresh_auth: true,
            persist_failure: None,
        }
    }

    /// The address of the endpoint at `path` on the client's deployment.
    pub fn endpoint(&self, path: &str) -> (r: String)
        ensures
            r@ == self.host.base_url() + path@,
    {
        let mut url = self.host.url();
        url.append(path);
        url
    }

    /// The exchange of the client's credentials for a token.
    pub fn token_request(&self) -> (r: TokenRequest)
        ensures
            r.url@ == self.host.base_url() + "/identity/v2/oauth2/token"@,
            r.username == self.id,
            r.password == self.secret,
            r.api_key == self.key,
            r.grant_type@ == "client_credentials"@,
    {
        TokenRequest {
            url: self.endpoint("/identity/v2/oauth2/token"),
            username: self.id.clone(),
            password: self.secret.clone(),
            api_key: self.key.clone(),
            grant_type: "client_credentials".to_string(),
        }
    }

    /// The first step of authentication at `now`.
    pub fn cache_action(&self, now: Timestamp) -> (r: CacheAction)
        ensures
            r == first_action(self.access_token, self.token_store is Some, now),
    {
        match &self.access_token {
            Some(token) => if token.expired_at(now) {
                CacheAction::Fetch
            } else {
                CacheAction::UseMemory
            },
            None => match &self.token_store {
                Some(_) => CacheAction::ReadStore,
                None => CacheAction::Fetch,
            },
        }
    }

    /// Adopts a token read from the store into a client that holds none, if
    /// the read succeeded and the token is still usable at `now`; reports
    /// whether a usable token is now in memory.
    pub fn adopt_stored(&mut self, read: Result<AccessToken, Error>, now: Timestamp) -> (ready:
        bool)
        requires
            old(self).access_token is None,
        ensures
            adopt_step(read, now, final(self).access_token, ready),
            final(self).same_config(*old(self)),
            final(self).persist_failure == old(self).persist_failure,
    {
        match read {
            Ok(token) => {
                if token.expired_at(now) {
                    false
                } else {
                    self.access_token = Some(token);
                    true
                }
            },
            Err(_) => false,
        }
    }

    /// The part of authentication that needs no network: keeps a usable
    /// token in memory, or, on a client that holds none, adopts a usable
    /// token from the store. Reports whether a usable token is in memory;
    /// if not, a new token must be fetched.
    pub fn resolve_cached(&mut self, now: Timestamp) -> (ready: bool)
        ensures
            cache_step(
                old(self).access_token,
                old(self).token_store is Some,
                now,
                final(self).access_token,
                ready,
            ),
            final(self).same_config(*old(self)),
            final(self).persist_failure == old(self).persist_failure,
    {
        match self.cache_action(now) {
            CacheAction::UseMemory => true,
            CacheAction::Fetch => false,
            CacheAction::ReadStore => {
                let read = match &self.token_store {
                    Some(store) => store.read(),
                    None => Err(Error::NoAccessToken),
                };
                self.adopt_stored(read, now)
            },
        }
    }

    /// Installs a token just fetched at `now`, after offering it to the
    /// store. A failed write does not keep the token from use: it is
    /// recorded in `persist_failure`.
    pub fn accept_fetched(&mut self, response: AccessTokenResponse, now: Timestamp)
        requires
            now.secs + response.expires_in <= i64::MAX,
        ensures
            final(self).access_token matches Some(t) && t@ == AccessToken::issued_spec(
                response,
                now,
            ),
            old(self).token_store is None ==> final(self).persist_failure is None,
            final(self).same_config(*old(self)),
    {
        let token = AccessToken::issued(response, now);
        let failure = match &self.token_store {
            Some(store) => match store.write(&token) {
                Ok(()) => None,
                Err(e) => Some(e),
            },
            None => None,
        };
        self.access_token = Some(token);
        self.persist_failure = failure;
    }

    /// The credential to present as bearer on an authenticated call made at
    /// `now`. A missing token and an expired one are both refused: an
    /// expired token is never sent.
    pub fn bearer_credential(&self, now: Timestamp) -> (r: Result<String, Error>)
        ensures
            usable(self.access_token, now) ==> (r matches Ok(c) && c@
                == self.access_token->0.access_token@),
            !usable(self.access_token, now) ==> (r matches Err(Error::NoAccessToken)),
    {
        match &self.access_token {
            Some(token) => {
                if token.expired_at(now) {
                    Err(Error::NoAccessToken)
                } else {
                    Ok(token.access_token.clone())
                }
            },
            None => Err(Error::NoAccessToken),
        }
    }
}

/// Assembles a [`Client`]: the required fields are checked once, in
/// [`ClientBuilder::build`].
pub struct ClientBuilder {
    pub id: Option<String>,
    pub secret: Option<String>,
    pub key: Option<String>,
    pub host: Option<Host>,
    pub token_store: Option<Box<dyn TokenStore>>,
    pub refresh_auth: Option<bool>,
}

impl ClientBuilder {
    /// The first required field that was never given, by name.
    pub open spec fn missing_field(self) -> Option<Seq<char>> {
        if self.id is None {
            Some("id"@)
        } else if self.secret is None {
            Some("secret"@)
        } else if self.key is None {
            Some("key"@)
        } else {
            None
        }
    }

    /// A builder with nothing set.
    pub fn new() -> (r: ClientBuilder)
        ensures
            r.id is None,
            r.secret is None,
            r.key is None,
            r.host is None,
            r.token_store is None,
            r.refresh_auth is None,
    {
        ClientBuilder {
            id: None,
            secret: None,
            key: None,
            host: None,
            token_store: None,
            refresh_auth: None,
        }
    }

    /// Builds the client, or names the first required field (`id`, then
    /// `secret`, then `key`) that was never given. The host defaults to
    /// live, automatic refresh to off; no token is held yet.
    pub fn build(self) -> (r: Result<Client, Error>)
        ensures
            self.missing_field() matches Some(name) ==> (r matches Err(
                Error::ClientFieldUndefined { field },
            ) && field@ == name),
            self.missing_field() is None ==> (r matches Ok(c) && c.built_from(self)),
    {
        let id = match self.id {
            Some(id) => id,
            None => {
                return Err(Error::ClientFieldUndefined { field: "id".to_string() });
            },
        };
        let secret = match self.secret {
            Some(secret) => secret,
            None => {
                return Err(Error::ClientFieldUndefined { field: "secret".to_string() });
            },
        };
        let key = match self.key {
            Some(key) => key,
            None => {
                return Err(Error::ClientFieldUndefined { field: "key".to_string() });
            },
        };
        let host = match self.host {
            Some(h) => h,
            None => Host::Live,
        };
        let refresh_auth = match self.refresh_auth {
            Some(b) => b,
            None => false,
        };
        Ok(
            Client {
                id,
                secret,
                key,
                host,
                access_token: None,
                token_store: self.token_store,
                refresh_auth,
                persist_failure: None,
            },
        )
    }

    /// Sets the client identifier.
    pub fn id(self, id: String) -> (r: ClientBuilder)
        ensures
            r == (ClientBuilder { id: Some(id), ..self }),
    {
        ClientBuilder { id: Some(id), ..self }
    }

    /// Sets the client secret.
    pub fn secret(self, secret: String) -> (r: ClientBuilder)
        ensures
            r == (ClientBuilder { secret: Some(secret), ..self }),
    {
        ClientBuilder { secret: Some(secret), ..self }
    }

    /// Sets the API key.
    pub fn key(self, key: String) -> (r: ClientBuilder)
        ensures
            r == (ClientBuilder { key: Some(key), ..self }),
    {
        ClientBuilder { key: Some(key), ..self }
    }

    /// Targets the sandbox deployment.
    pub fn sandbox(self) -> (r: ClientBuilder)
        ensures
            r == (ClientBuilder { host: Some(Host::Sandbox), ..self }),
    {
        ClientBuilder { host: Some(Host::Sandbox), ..self }
    }

    /// Caches tokens in `store`.
    pub fn token_store<T: TokenStore + 'static>(self, store: T) -> (r: ClientBuilder)
        ensures
            r.id == self.id && r.secret == self.secret && r.key == self.key && r.host == self.host
                && r.refresh_auth == self.refresh_auth && r.token_store is Some,
    {
        let boxed: Box<dyn TokenStore> = Box::new(store);
        ClientBuilder { token_store: Some(boxed), ..self }
    }

    /// Authenticates before each call.
    pub fn refresh_auth(self) -> (r: ClientBuilder)
        ensures
            r == (ClientBuilder { refresh_auth: Some(true), ..self }),
    {
        ClientBuilder { refresh_auth: Some(true), ..self }
    }
}

/// A token that is usable is reused: two cache steps in a row at the same
/// instant both report it ready, so no exchange is made, and the token in
/// memory stays the same.
pub proof fn lemma_usable_token_reused(
    t0: Option<AccessToken>,
    t1: Option<AccessToken>,
    t2: Option<AccessToken>,
    has_store: bool,
    now: Timestamp,
    r1: bool,
    r2: bool,
)
    requires
        usable(t0, now),
        cache_step(t0, has_store, now, t1, r1),
        cache_step(t1, has_store, now, t2, r2),
    ensures
        first_action(t0, has_store, now) == CacheAction::UseMemory,
        r1 && r2,
        t1 == t0 && t2 == t0,
{
}

/// A client that holds no token asks its store first, and adopts a usable
/// token from it: the cache step is ready, so no exchange is made, and the
/// token in memory is the stored one.
pub proof fn lemma_cold_start_adopts(
    stored: AccessToken,
    now: Timestamp,
    after: Option<AccessToken>,
    ready: bool,
)
    requires
        !stored@.expired_at(now),
        adopt_step(Ok(stored), now, after, ready),
    ensures
        first_action(None, true, now) == CacheAction::ReadStore,
        ready,
        after == Some(stored),
{
}

/// An expired token, in memory or in the store, is never used: the cache
/// step is not ready, so exactly one exchange follows, and the token it
/// installs carries the credential of the new response.
pub proof fn lemma_expired_forces_fetch(
    old_token: AccessToken,
    in_memory: bool,
    has_store: bool,
    now: Timestamp,
    after: Option<AccessToken>,
    ready: bool,
    response: AccessTokenResponse,
    fetched_at: Timestamp,
)
    requires
        old_token@.expired_at(now),
        in_memory ==> cache_step(Some(old_token), has_store, now, after, ready),
        !in_memory ==> adopt_step(Ok(old_token), now, after, ready),
    ensures
        in_memory ==> first_action(Some(old_token), has_store, now) == CacheAction::Fetch,
        !ready,
        response.access_token@ != old_token.access_token@ ==> AccessToken::issued_spec(
            response,
            fetched_at,
        ).access_token != old_token.access_token@,
{
}

} // verus!
