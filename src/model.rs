use crate::pkce::PkceChallenge;
use vstd::prelude::*;

verus! {

/// A registered relying application.
pub struct Client {
    /// The scopes the client may ask for, one bit per scope.
    pub scopes: u64,
    /// The redirect URIs registered for the client.
    pub redirect_uris: Vec<Vec<u8>>,
    /// Whether authorization requests of this client must carry PKCE.
    pub requires_pkce: bool,
}

/// A user's authenticated context.
#[derive(Debug, Clone, Copy, PartialEq, Eq, Structural)]
pub struct Session {
    pub user_id: u64,
    pub created_at: u64,
    pub active: bool,
}

/// Status of an authorization-code grant.
#[derive(Debug, Clone, Copy, PartialEq, Eq, Structural)]
pub enum GrantStatus {
    Pending,
    Fulfilled,
    Exchanged,
    Cancelled,
}

/// A pending or resolved authorization-code request. Its code is its index
/// in [`AuthServer::grants`].
pub struct AuthorizationGrant {
    pub client_id: usize,
    pub scopes: u64,
    pub redirect_uri: Vec<u8>,
    pub pkce: Option<PkceChallenge>,
    /// The client's `state`, echoed back with the code.
    pub state: Option<Vec<u8>>,
    /// The OpenID Connect `nonce`, carried into the ID token.
    pub nonce: Option<Vec<u8>>,
    pub status: GrantStatus,
    pub created_at: u64,
    pub expires_at: u64,
    /// The session bound at fulfilment.
    pub session_id: usize,
}

/// Status of a device-code grant.
#[derive(Debug, Clone, Copy, PartialEq, Eq, Structural)]
pub enum DeviceStatus {
    Pending,
    Fulfilled,
    Denied,
    Exchanged,
}

/// A device-flow authorization. Its device code is its index in
/// [`AuthServer::device_grants`].
pub struct DeviceCodeGrant {
    pub client_id: usize,
    pub scopes: u64,
    pub user_code: Vec<u8>,
    pub status: DeviceStatus,
    pub poll_interval: u64,
    pub expires_at: u64,
    pub last_polled_at: Option<u64>,
    pub session_id: usize,
}

/// A short-lived bearer credential; its value is its index in
/// [`TokenStore::access`].
#[derive(Debug, Clone, Copy, PartialEq, Eq, Structural)]
pub struct AccessToken {
    pub session_id: usize,
    pub client_id: usize,
    pub scopes: u64,
    pub expires_at: u64,
    pub revoked: bool,
}

/// A single-use rotation credential; its value is its index in
/// [`TokenStore::refresh`].
#[derive(Debug, Clone, Copy, PartialEq, Eq, Structural)]
pub struct RefreshToken {
    pub session_id: usize,
    pub client_id: usize,
    pub scopes: u64,
    pub access_token: usize,
    pub expires_at: u64,
    pub used: bool,
    pub revoked: bool,
    pub replaced_by: Option<usize>,
}

/// The token records; only the token issuer writes them.
pub struct TokenStore {
    pub access: Vec<AccessToken>,
    pub refresh: Vec<RefreshToken>,
}

/// Status of an upstream linking flow.
#[derive(Debug, Clone, Copy, PartialEq, Eq, Structural)]
pub enum LinkStatus {
    AuthorizeStarted,
    CallbackReceived,
    Linked,
    Failed,
}

/// A binding, complete or in progress, between a local user and an upstream
/// subject. Its id is its index in [`AuthServer::links`].
pub struct UpstreamLink {
    pub provider_id: u64,
    /// The anti-CSRF value sent to the provider.
    pub state: Vec<u8>,
    pub nonce: Vec<u8>,
    pub status: LinkStatus,
    pub subject: Vec<u8>,
    pub user_id: Option<u64>,
    pub expires_at: u64,
}

/// A session of a legacy (non-OAuth2) client.
#[derive(Debug, Clone, Copy, PartialEq, Eq, Structural)]
pub struct CompatSession {
    pub device_id: u64,
    pub user_id: u64,
    pub session_id: usize,
    pub access_token: usize,
    pub refresh_token: usize,
    pub terminated: bool,
}

/// Lifetimes, in seconds, of the entities that expire.
#[derive(Debug, Clone, Copy, PartialEq, Eq, Structural)]
pub struct Lifetimes {
    pub grant_ttl: u64,
    pub device_ttl: u64,
    pub link_ttl: u64,
    pub access_ttl: u64,
    pub refresh_ttl: u64,
    pub poll_interval: u64,
}

/// The repository state of the engine.
pub struct AuthServer {
    pub lifetimes: Lifetimes,
    pub user_count: u64,
    pub clients: Vec<Client>,
    pub sessions: Vec<Session>,
    pub tokens: TokenStore,
    pub grants: Vec<AuthorizationGrant>,
    pub device_grants: Vec<DeviceCodeGrant>,
    pub links: Vec<UpstreamLink>,
    pub compat_sessions: Vec<CompatSession>,
}

/// `now + ttl`, held at `u64::MAX`.
pub open spec fn deadline_of(now: u64, ttl: u64) -> u64 {
    if now as int + ttl as int > u64::MAX as int {
        u64::MAX
    } else {
        (now + ttl) as u64
    }
}

/// Computes [`deadline_of`].
pub fn deadline(now: u64, ttl: u64) -> (r: u64)
    ensures
        r == deadline_of(now, ttl),
{
    if now > u64::MAX - ttl {
        u64::MAX
    } else {
        now + ttl
    }
}

/// Whether every scope of `requested` is among `allowed`.
pub open spec fn scopes_within_spec(requested: u64, allowed: u64) -> bool {
    requested & allowed == requested
}

/// Computes [`scopes_within_spec`].
pub fn scopes_within(requested: u64, allowed: u64) -> (r: bool)
    ensures
        r == scopes_within_spec(requested, allowed),
{
    requested & allowed == requested
}

impl AuthServer {
    /// An empty repository with the given lifetimes.
    pub fn new(lifetimes: Lifetimes) -> (r: AuthServer)
        ensures
            r.lifetimes == lifetimes,
            r.user_count == 0,
            r.clients@.len() == 0,
            r.sessions@.len() == 0,
            r.tokens.access@.len() == 0,
            r.tokens.refresh@.len() == 0,
            r.grants@.len() == 0,
            r.device_grants@.len() == 0,
            r.links@.len() == 0,
            r.compat_sessions@.len() == 0,
    {
        AuthServer {
            lifetimes,
            user_count: 0,
            clients: Vec::new(),
            sessions: Vec::new(),
            tokens: TokenStore { access: Vec::new(), refresh: Vec::new() },
            grants: Vec::new(),
            device_grants: Vec::new(),
            links: Vec::new(),
            compat_sessions: Vec::new(),
        }
    }

    /// Registers a client; returns its id.
    pub fn register_client(&mut self, client: Client) -> (r: usize)
        ensures
            r == old(self).clients@.len(),
            final(self).clients@ == old(self).clients@.push(client),
            final(self).lifetimes == old(self).lifetimes,
            final(self).user_count == old(self).user_count,
            final(self).sessions == old(self).sessions,
            final(self).tokens == old(self).tokens,
            final(self).grants == old(self).grants,
            final(self).device_grants == old(self).device_grants,
            final(self).links == old(self).links,
            final(self).compat_sessions == old(self).compat_sessions,
    {
        let r = self.clients.len();
        self.clients.push(client);
        r
    }

    /// Provisions a local user; returns its id.
    pub fn create_user(&mut self) -> (r: u64)
        requires
            old(self).user_count < u64::MAX,
        ensures
            r == old(self).user_count,
            final(self).user_count == old(self).user_count + 1,
            final(self).lifetimes == old(self).lifetimes,
            final(self).clients == old(self).clients,
            final(self).sessions == old(self).sessions,
            final(self).tokens == old(self).tokens,
            final(self).grants == old(self).grants,
            final(self).device_grants == old(self).device_grants,
            final(self).links == old(self).links,
            final(self).compat_sessions == old(self).compat_sessions,
    {
        let r = self.user_count;
        self.user_count = self.user_count + 1;
        r
    }

    /// Opens a session for an existing user; returns its id.
    pub fn create_session(&mut self, user_id: u64, now: u64) -> (r: Result<usize, crate::error::AuthError>)
        ensures
            user_id < old(self).user_count ==> r == Ok::<usize, crate::error::AuthError>(old(self).sessions@.len() as usize)
                && final(self).sessions@ == old(self).sessions@.push(Session { user_id, created_at: now, active: true }),
            user_id >= old(self).user_count ==> r == Err::<usize, crate::error::AuthError>(crate::error::AuthError::NotFound)
                && final(self).sessions == old(self).sessions,
            final(self).lifetimes == old(self).lifetimes,
            final(self).user_count == old(self).user_count,
            final(self).clients == old(self).clients,
            final(self).tokens == old(self).tokens,
            final(self).grants == old(self).grants,
            final(self).device_grants == old(self).device_grants,
            final(self).links == old(self).links,
            final(self).compat_sessions == old(self).compat_sessions,
    {
        if user_id >= self.user_count {
            return Err(crate::error::AuthError::NotFound);
        }
        let r = self.sessions.len();
        self.sessions.push(Session { user_id, created_at: now, active: true });
        Ok(r)
    }
}

} // verus!

verus! {

/// `b` differs from `a` at most in its authorization grants and tokens.
pub open spec fn same_but_grants_tokens(a: AuthServer, b: AuthServer) -> bool {
    &&& b.lifetimes == a.lifetimes
    &&& b.user_count == a.user_count
    &&& b.clients == a.clients
    &&& b.sessions == a.sessions
    &&& b.device_grants == a.device_grants
    &&& b.links == a.links
    &&& b.compat_sessions == a.compat_sessions
}

/// `b` differs from `a` at most in its device grants and tokens.
pub open spec fn same_but_devices_tokens(a: AuthServer, b: AuthServer) -> bool {
    &&& b.lifetimes == a.lifetimes
    &&& b.user_count == a.user_count
    &&& b.clients == a.clients
    &&& b.sessions == a.sessions
    &&& b.grants == a.grants
    &&& b.links == a.links
    &&& b.compat_sessions == a.compat_sessions
}

/// `b` differs from `a` at most in its upstream links, users and sessions.
pub open spec fn same_but_links_sessions(a: AuthServer, b: AuthServer) -> bool {
    &&& b.lifetimes == a.lifetimes
    &&& b.clients == a.clients
    &&& b.tokens == a.tokens
    &&& b.grants == a.grants
    &&& b.device_grants == a.device_grants
    &&& b.compat_sessions == a.compat_sessions
}

/// `b` differs from `a` at most in its sessions, tokens and legacy sessions.
pub open spec fn same_but_compat(a: AuthServer, b: AuthServer) -> bool {
    &&& b.lifetimes == a.lifetimes
    &&& b.user_count == a.user_count
    &&& b.clients == a.clients
    &&& b.grants == a.grants
    &&& b.device_grants == a.device_grants
    &&& b.links == a.links
}

} // verus!
