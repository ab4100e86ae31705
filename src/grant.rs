use crate::error::AuthError;
use crate::model::{
    deadline, deadline_of, same_but_grants_tokens, scopes_within, scopes_within_spec, AuthServer,
    AuthorizationGrant, Client, GrantStatus,
};
use crate::pkce::{bytes_eq, pkce_accepts, verify_pkce, PkceChallenge};
use crate::tokens::{minted_access, minted_refresh, TokenPair};
use vstd::prelude::*;

verus! {

/// Whether `uri` is one of the client's registered redirect URIs.
pub open spec fn uri_registered(c: Client, uri: Seq<u8>) -> bool {
    exists|i: int| 0 <= i < c.redirect_uris@.len() && c.redirect_uris@[i]@ == uri
}

/// The outcome of an authorization request, before any change.
pub open spec fn start_check(s: AuthServer, client_id: usize, scopes: u64, redirect_uri: Seq<u8>, has_pkce: bool) -> Result<(), AuthError> {
    if client_id >= s.clients@.len() {
        Err(AuthError::InvalidClient)
    } else {
        let c = s.clients@[client_id as int];
        if !scopes_within_spec(scopes, c.scopes) || !uri_registered(c, redirect_uri) || (c.requires_pkce && !has_pkce) {
            Err(AuthError::InvalidRequest)
        } else {
            Ok(())
        }
    }
}

/// The outcome of a consent submission for grant `grant_id`, before the
/// policy decision and before any change.
pub open spec fn fulfill_check(s: AuthServer, grant_id: usize, session_id: usize, granted_scopes: u64, now: u64) -> Result<(), AuthError> {
    if grant_id >= s.grants@.len() || session_id >= s.sessions@.len() {
        Err(AuthError::NotFound)
    } else {
        let g = s.grants@[grant_id as int];
        if g.status != GrantStatus::Pending || now >= g.expires_at {
            Err(AuthError::InvalidState)
        } else if !scopes_within_spec(granted_scopes, g.scopes) {
            Err(AuthError::InvalidRequest)
        } else {
            Ok(())
        }
    }
}

/// A grant with a new status.
pub open spec fn with_status(g: AuthorizationGrant, status: GrantStatus) -> AuthorizationGrant {
    AuthorizationGrant { status, ..g }
}

/// The outcome of redeeming authorization code `code`, before any change.
pub open spec fn exchange_check(
    s: AuthServer,
    code: usize,
    client_id: usize,
    redirect_uri: Seq<u8>,
    code_verifier: Option<Seq<u8>>,
    now: u64,
) -> Result<(), AuthError> {
    if client_id >= s.clients@.len() {
        Err(AuthError::InvalidClient)
    } else if code >= s.grants@.len() {
        Err(AuthError::InvalidGrant)
    } else {
        let g = s.grants@[code as int];
        if g.status == GrantStatus::Exchanged {
            Err(AuthError::GrantAlreadyExchanged)
        } else if g.status != GrantStatus::Fulfilled || now >= g.expires_at || g.client_id != client_id
            || g.redirect_uri@ != redirect_uri {
            Err(AuthError::InvalidGrant)
        } else {
            match g.pkce {
                Some(p) => match code_verifier {
                    Some(v) => if pkce_accepts(p.method, p.challenge@, v) {
                        Ok(())
                    } else {
                        Err(AuthError::InvalidGrant)
                    },
                    None => Err(AuthError::InvalidGrant),
                },
                None => Ok(()),
            }
        }
    }
}

/// The verifier's bytes, if one was presented.
pub open spec fn verifier_view(v: Option<Vec<u8>>) -> Option<Seq<u8>> {
    match v {
        Some(x) => Some(x@),
        None => None,
    }
}

/// Whether `b` is `a` after a successful redemption of code `code`.
pub open spec fn exchanged(a: AuthServer, b: AuthServer, code: usize, now: u64) -> bool {
    let g = a.grants@[code as int];
    &&& same_but_grants_tokens(a, b)
    &&& b.grants@ == a.grants@.update(code as int, with_status(g, GrantStatus::Exchanged))
    &&& b.tokens.access@ == a.tokens.access@.push(minted_access(g.session_id, g.client_id, g.scopes, now, a.lifetimes.access_ttl))
    &&& b.tokens.refresh@ == a.tokens.refresh@.push(
        minted_refresh(g.session_id, g.client_id, g.scopes, a.tokens.access@.len() as usize, now, a.lifetimes.refresh_ttl),
    )
}

/// Whether `uri` is registered for `c`.
fn is_registered(c: &Client, uri: &Vec<u8>) -> (r: bool)
    ensures
        r == uri_registered(*c, uri@),
{
    let mut i: usize = 0;
    while i < c.redirect_uris.len()
        invariant
            i <= c.redirect_uris@.len(),
            forall|j: int| 0 <= j < i ==> c.redirect_uris@[j]@ != uri@,
        decreases c.redirect_uris@.len() - i,
    {
        if bytes_eq(&c.redirect_uris[i], uri) {
            return true;
        }
        i = i + 1;
    }
    false
}

impl AuthServer {
    /// Records an authorization request of client `client_id` as a Pending
    /// grant; returns its code. The scopes must be among the client's, the
    /// redirect URI registered for it, and PKCE present where the client
    /// requires it.
    pub fn start_authorization(
        &mut self,
        client_id: usize,
        scopes: u64,
        redirect_uri: Vec<u8>,
        pkce: Option<PkceChallenge>,
        state: Option<Vec<u8>>,
        nonce: Option<Vec<u8>>,
        now: u64,
    ) -> (r: Result<usize, AuthError>)
        ensures
            start_check(*old(self), client_id, scopes, redirect_uri@, pkce is Some) is Ok ==> {
                &&& r == Ok::<usize, AuthError>(old(self).grants@.len() as usize)
                &&& final(self).grants@ == old(self).grants@.push(AuthorizationGrant {
                    client_id,
                    scopes,
                    redirect_uri,
                    pkce,
                    state,
                    nonce,
                    status: GrantStatus::Pending,
                    created_at: now,
                    expires_at: deadline_of(now, old(self).lifetimes.grant_ttl),
                    session_id: 0,
                })
            },
            start_check(*old(self), client_id, scopes, redirect_uri@, pkce is Some) is Err ==> {
                &&& r == Err::<usize, AuthError>(start_check(*old(self), client_id, scopes, redirect_uri@, pkce is Some)->Err_0)
                &&& final(self).grants == old(self).grants
            },
            same_but_grants_tokens(*old(self), *final(self)),
            final(self).tokens == old(self).tokens,
    {
        if client_id >= self.clients.len() {
            return Err(AuthError::InvalidClient);
        }
        let c = &self.clients[client_id];
        if !scopes_within(scopes, c.scopes) || !is_registered(c, &redirect_uri) || (c.requires_pkce && pkce.is_none()) {
            return Err(AuthError::InvalidRequest);
        }
        let id = self.grants.len();
        let expires_at = deadline(now, self.lifetimes.grant_ttl);
        self.grants.push(AuthorizationGrant {
            client_id,
            scopes,
            redirect_uri,
            pkce,
            state,
            nonce,
            status: GrantStatus::Pending,
            created_at: now,
            expires_at,
            session_id: 0,
        });
        Ok(id)
    }

    /// Applies the user's consent to a Pending grant, given the scopes the
    /// user granted (within those requested) and the policy evaluator's
    /// decision on them: on Allow the grant becomes Fulfilled with the granted
    /// scopes and is bound to `session_id`; on Deny it becomes Cancelled.
    pub fn fulfill_authorization(&mut self, grant_id: usize, session_id: usize, granted_scopes: u64, policy_allows: bool, now: u64) -> (r: Result<(), AuthError>)
        ensures
            fulfill_check(*old(self), grant_id, session_id, granted_scopes, now) is Ok && policy_allows ==> {
                &&& r is Ok
                &&& final(self).grants@ == old(self).grants@.update(
                    grant_id as int,
                    AuthorizationGrant {
                        status: GrantStatus::Fulfilled,
                        session_id,
                        scopes: granted_scopes,
                        ..old(self).grants@[grant_id as int]
                    },
                )
            },
            fulfill_check(*old(self), grant_id, session_id, granted_scopes, now) is Ok && !policy_allows ==> {
                &&& r == Err::<(), AuthError>(AuthError::PolicyDenied)
                &&& final(self).grants@ == old(self).grants@.update(
                    grant_id as int,
                    with_status(old(self).grants@[grant_id as int], GrantStatus::Cancelled),
                )
            },
            fulfill_check(*old(self), grant_id, session_id, granted_scopes, now) is Err ==> {
                &&& r == fulfill_check(*old(self), grant_id, session_id, granted_scopes, now)
                &&& final(self).grants == old(self).grants
            },
            same_but_grants_tokens(*old(self), *final(self)),
            final(self).tokens == old(self).tokens,
    {
        if grant_id >= self.grants.len() || session_id >= self.sessions.len() {
            return Err(AuthError::NotFound);
        }
        if self.grants[grant_id].status != GrantStatus::Pending || now >= self.grants[grant_id].expires_at {
            return Err(AuthError::InvalidState);
        }
        if !scopes_within(granted_scopes, self.grants[grant_id].scopes) {
            return Err(AuthError::InvalidRequest);
        }
        if !policy_allows {
            self.grants[grant_id].status = GrantStatus::Cancelled;
            return Err(AuthError::PolicyDenied);
        }
        self.grants[grant_id].status = GrantStatus::Fulfilled;
        self.grants[grant_id].session_id = session_id;
        self.grants[grant_id].scopes = granted_scopes;
        Ok(())
    }

    /// Redeems authorization code `code` for client `client_id`: the grant
    /// must be Fulfilled and unexpired, the redirect URI byte-equal to the
    /// recorded one and the PKCE verifier must answer the challenge. The
    /// grant becomes Exchanged and a token pair is minted, once only.
    pub fn exchange_authorization_code(
        &mut self,
        code: usize,
        client_id: usize,
        redirect_uri: &Vec<u8>,
        code_verifier: Option<Vec<u8>>,
        now: u64,
    ) -> (r: Result<TokenPair, AuthError>)
        ensures
            exchange_check(*old(self), code, client_id, redirect_uri@, verifier_view(code_verifier), now) is Ok ==> {
                &&& r == Ok::<TokenPair, AuthError>(TokenPair {
                    access: old(self).tokens.access@.len() as usize,
                    refresh: old(self).tokens.refresh@.len() as usize,
                })
                &&& exchanged(*old(self), *final(self), code, now)
            },
            exchange_check(*old(self), code, client_id, redirect_uri@, verifier_view(code_verifier), now) is Err ==> {
                &&& r == Err::<TokenPair, AuthError>(
                    exchange_check(*old(self), code, client_id, redirect_uri@, verifier_view(code_verifier), now)->Err_0,
                )
                &&& *final(self) == *old(self)
            },
    {
        if client_id >= self.clients.len() {
            return Err(AuthError::InvalidClient);
        }
        if code >= self.grants.len() {
            return Err(AuthError::InvalidGrant);
        }
        let status = self.grants[code].status;
        if status == GrantStatus::Exchanged {
            return Err(AuthError::GrantAlreadyExchanged);
        }
        if status != GrantStatus::Fulfilled || now >= self.grants[code].expires_at || self.grants[code].client_id != client_id
            || !bytes_eq(&self.grants[code].redirect_uri, redirect_uri) {
            return Err(AuthError::InvalidGrant);
        }
        match &self.grants[code].pkce {
            Some(p) => match &code_verifier {
                Some(v) => {
                    if !verify_pkce(p, v) {
                        return Err(AuthError::InvalidGrant);
                    }
                },
                None => {
                    return Err(AuthError::InvalidGrant);
                },
            },
            None => {},
        }
        let session_id = self.grants[code].session_id;
        let scopes = self.grants[code].scopes;
        self.grants[code].status = GrantStatus::Exchanged;
        let lifetimes = self.lifetimes;
        Ok(self.tokens.issue(session_id, client_id, scopes, now, lifetimes.access_ttl, lifetimes.refresh_ttl))
    }
}

} // verus!
