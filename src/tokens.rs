use crate::error::AuthError;
use crate::model::{deadline, deadline_of, scopes_within, scopes_within_spec, AccessToken, AuthServer, RefreshToken, TokenStore};
use vstd::prelude::*;

verus! {

/// The two tokens minted together, as their values.
#[derive(Debug, Clone, Copy, PartialEq, Eq, Structural)]
pub struct TokenPair {
    pub access: usize,
    pub refresh: usize,
}

/// A token value as presented by a caller.
#[derive(Debug, Clone, Copy, PartialEq, Eq, Structural)]
pub enum TokenValue {
    Access(usize),
    Refresh(usize),
}

/// What introspection reports of a token.
#[derive(Debug, Clone, Copy, PartialEq, Eq, Structural)]
pub struct Introspection {
    pub active: bool,
    pub scopes: u64,
    pub user_id: u64,
    pub expires_at: u64,
}

/// The access token minted for a session.
pub open spec fn minted_access(session_id: usize, client_id: usize, scopes: u64, now: u64, ttl: u64) -> AccessToken {
    AccessToken { session_id, client_id, scopes, expires_at: deadline_of(now, ttl), revoked: false }
}

/// The refresh token minted beside access token `access_token`.
pub open spec fn minted_refresh(
    session_id: usize,
    client_id: usize,
    scopes: u64,
    access_token: usize,
    now: u64,
    ttl: u64,
) -> RefreshToken {
    RefreshToken {
        session_id,
        client_id,
        scopes,
        access_token,
        expires_at: deadline_of(now, ttl),
        used: false,
        revoked: false,
        replaced_by: None,
    }
}

/// An access token after its session's family has been revoked.
pub open spec fn family_revoked_access(t: AccessToken, session_id: usize) -> AccessToken {
    if t.session_id == session_id {
        AccessToken { revoked: true, ..t }
    } else {
        t
    }
}

/// A refresh token after its session's family has been revoked.
pub open spec fn family_revoked_refresh(t: RefreshToken, session_id: usize) -> RefreshToken {
    if t.session_id == session_id {
        RefreshToken { revoked: true, ..t }
    } else {
        t
    }
}

/// Whether every token of session `session_id` in `b` is revoked, and `b`
/// is `a` otherwise.
pub open spec fn family_revoked(a: TokenStore, b: TokenStore, session_id: usize) -> bool {
    &&& b.access@.len() == a.access@.len()
    &&& b.refresh@.len() == a.refresh@.len()
    &&& forall|i: int| 0 <= i < a.access@.len() ==> b.access@[i] == family_revoked_access(a.access@[i], session_id)
    &&& forall|i: int| 0 <= i < a.refresh@.len() ==> b.refresh@[i] == family_revoked_refresh(a.refresh@[i], session_id)
}

/// The outcome of presenting refresh token `value`, before any change.
pub open spec fn refresh_check(store: TokenStore, value: usize, requested: Option<u64>, now: u64) -> Result<(), AuthError> {
    if value >= store.refresh@.len() {
        Err(AuthError::TokenNotFound)
    } else {
        let t = store.refresh@[value as int];
        if t.used {
            Err(AuthError::TokenReplay)
        } else if t.revoked {
            Err(AuthError::TokenNotFound)
        } else if now >= t.expires_at {
            Err(AuthError::TokenExpired)
        } else if requested is Some && !scopes_within_spec(requested->0, t.scopes) {
            Err(AuthError::ScopeEscalation)
        } else {
            Ok(())
        }
    }
}

/// The scopes of the pair minted by a rotation.
pub open spec fn rotated_scopes(t: RefreshToken, requested: Option<u64>) -> u64 {
    match requested {
        Some(s) => s,
        None => t.scopes,
    }
}

/// Whether `b` is `a` after a successful rotation of refresh token `value`.
pub open spec fn rotated(a: TokenStore, b: TokenStore, value: usize, requested: Option<u64>, now: u64, access_ttl: u64, refresh_ttl: u64) -> bool {
    let t = a.refresh@[value as int];
    let scopes = rotated_scopes(t, requested);
    &&& b.access@ == a.access@.push(minted_access(t.session_id, t.client_id, scopes, now, access_ttl))
    &&& b.refresh@ == a.refresh@.update(
        value as int,
        RefreshToken { used: true, replaced_by: Some(a.refresh@.len() as usize), ..t },
    ).push(minted_refresh(t.session_id, t.client_id, scopes, a.access@.len() as usize, now, refresh_ttl))
}

/// Whether an access token is live for `caller` at `now`.
pub open spec fn access_active(t: AccessToken, caller: usize, now: u64) -> bool {
    !t.revoked && now < t.expires_at && t.client_id == caller
}

/// Whether a refresh token is live for `caller` at `now`.
pub open spec fn refresh_active(t: RefreshToken, caller: usize, now: u64) -> bool {
    !t.revoked && !t.used && now < t.expires_at && t.client_id == caller
}

/// The report for a token that is not active.
pub open spec fn inactive() -> Introspection {
    Introspection { active: false, scopes: 0, user_id: 0, expires_at: 0 }
}

/// What introspection of `value` by `caller` at `now` reports.
pub open spec fn introspection_of(s: AuthServer, value: TokenValue, caller: usize, now: u64) -> Introspection {
    match value {
        TokenValue::Access(i) => {
            if i < s.tokens.access@.len() && access_active(s.tokens.access@[i as int], caller, now)
                && s.tokens.access@[i as int].session_id < s.sessions@.len() {
                let t = s.tokens.access@[i as int];
                Introspection { active: true, scopes: t.scopes, user_id: s.sessions@[t.session_id as int].user_id, expires_at: t.expires_at }
            } else {
                inactive()
            }
        },
        TokenValue::Refresh(i) => {
            if i < s.tokens.refresh@.len() && refresh_active(s.tokens.refresh@[i as int], caller, now)
                && s.tokens.refresh@[i as int].session_id < s.sessions@.len() {
                let t = s.tokens.refresh@[i as int];
                Introspection { active: true, scopes: t.scopes, user_id: s.sessions@[t.session_id as int].user_id, expires_at: t.expires_at }
            } else {
                inactive()
            }
        },
    }
}

/// Whether `b` is `a` with token `value` revoked; an unknown value leaves
/// `a` as it is.
pub open spec fn revoked_in(a: TokenStore, b: TokenStore, value: TokenValue) -> bool {
    match value {
        TokenValue::Access(i) => if i < a.access@.len() {
            b.access@ == a.access@.update(i as int, AccessToken { revoked: true, ..a.access@[i as int] }) && b.refresh == a.refresh
        } else {
            b == a
        },
        TokenValue::Refresh(i) => if i < a.refresh@.len() {
            b.refresh@ == a.refresh@.update(i as int, RefreshToken { revoked: true, ..a.refresh@[i as int] }) && b.access == a.access
        } else {
            b == a
        },
    }
}

impl TokenStore {
    /// Mints an access/refresh pair for a session.
    pub fn issue(&mut self, session_id: usize, client_id: usize, scopes: u64, now: u64, access_ttl: u64, refresh_ttl: u64) -> (r: TokenPair)
        ensures
            r == (TokenPair { access: old(self).access@.len() as usize, refresh: old(self).refresh@.len() as usize }),
            final(self).access@ == old(self).access@.push(minted_access(session_id, client_id, scopes, now, access_ttl)),
            final(self).refresh@ == old(self).refresh@.push(
                minted_refresh(session_id, client_id, scopes, old(self).access@.len() as usize, now, refresh_ttl),
            ),
    {
        let access = self.access.len();
        let refresh = self.refresh.len();
        self.access.push(AccessToken { session_id, client_id, scopes, expires_at: deadline(now, access_ttl), revoked: false });
        self.refresh.push(RefreshToken {
            session_id,
            client_id,
            scopes,
            access_token: access,
            expires_at: deadline(now, refresh_ttl),
            used: false,
            revoked: false,
            replaced_by: None,
        });
        TokenPair { access, refresh }
    }

    /// Revokes every access and refresh token of a session.
    pub fn revoke_family(&mut self, session_id: usize)
        ensures
            family_revoked(*old(self), *final(self), session_id),
    {
        let mut i: usize = 0;
        while i < self.access.len()
            invariant
                self.access@.len() == old(self).access@.len(),
                self.refresh == old(self).refresh,
                i <= self.access@.len(),
                forall|j: int| 0 <= j < i ==> self.access@[j] == family_revoked_access(old(self).access@[j], session_id),
                forall|j: int| i <= j < self.access@.len() ==> self.access@[j] == old(self).access@[j],
            decreases self.access@.len() - i,
        {
            let t = self.access[i];
            if t.session_id == session_id {
                self.access.set(i, AccessToken { revoked: true, ..t });
            }
            i = i + 1;
        }
        let mut k: usize = 0;
        while k < self.refresh.len()
            invariant
                self.refresh@.len() == old(self).refresh@.len(),
                self.access@.len() == old(self).access@.len(),
                forall|j: int| 0 <= j < self.access@.len() ==> self.access@[j] == family_revoked_access(old(self).access@[j], session_id),
                k <= self.refresh@.len(),
                forall|j: int| 0 <= j < k ==> self.refresh@[j] == family_revoked_refresh(old(self).refresh@[j], session_id),
                forall|j: int| k <= j < self.refresh@.len() ==> self.refresh@[j] == old(self).refresh@[j],
            decreases self.refresh@.len() - k,
        {
            let t = self.refresh[k];
            if t.session_id == session_id {
                self.refresh.set(k, RefreshToken { revoked: true, ..t });
            }
            k = k + 1;
        }
    }

    /// Redeems refresh token `value`: on success marks it used, links it to
    /// its replacement and mints a new pair with the requested (narrower) or
    /// previous scopes. Presenting a used token revokes its whole family.
    pub fn refresh(&mut self, value: usize, requested: Option<u64>, now: u64, access_ttl: u64, refresh_ttl: u64) -> (r: Result<TokenPair, AuthError>)
        ensures
            refresh_check(*old(self), value, requested, now) is Ok ==> {
                &&& r == Ok::<TokenPair, AuthError>(TokenPair { access: old(self).access@.len() as usize, refresh: old(self).refresh@.len() as usize })
                &&& rotated(*old(self), *final(self), value, requested, now, access_ttl, refresh_ttl)
            },
            refresh_check(*old(self), value, requested, now) == Err::<(), AuthError>(AuthError::TokenReplay) ==> {
                &&& r == Err::<TokenPair, AuthError>(AuthError::TokenReplay)
                &&& family_revoked(*old(self), *final(self), old(self).refresh@[value as int].session_id)
            },
            refresh_check(*old(self), value, requested, now) is Err
                && refresh_check(*old(self), value, requested, now) != Err::<(), AuthError>(AuthError::TokenReplay) ==> {
                &&& r == Err::<TokenPair, AuthError>(refresh_check(*old(self), value, requested, now)->Err_0)
                &&& *final(self) == *old(self)
            },
    {
        if value >= self.refresh.len() {
            return Err(AuthError::TokenNotFound);
        }
        let t = self.refresh[value];
        if t.used {
            self.revoke_family(t.session_id);
            return Err(AuthError::TokenReplay);
        }
        if t.revoked {
            return Err(AuthError::TokenNotFound);
        }
        if now >= t.expires_at {
            return Err(AuthError::TokenExpired);
        }
        let scopes = match requested {
            Some(s) => {
                if !scopes_within(s, t.scopes) {
                    return Err(AuthError::ScopeEscalation);
                }
                s
            },
            None => t.scopes,
        };
        let next = self.refresh.len();
        self.refresh.set(value, RefreshToken { used: true, replaced_by: Some(next), ..t });
        Ok(self.issue(t.session_id, t.client_id, scopes, now, access_ttl, refresh_ttl))
    }

    /// Revokes one token; an unknown or already revoked token is left as it
    /// is, without error.
    pub fn revoke(&mut self, value: TokenValue)
        ensures
            revoked_in(*old(self), *final(self), value),
    {
        match value {
            TokenValue::Access(i) => {
                if i < self.access.len() {
                    let t = self.access[i];
                    self.access.set(i, AccessToken { revoked: true, ..t });
                }
            },
            TokenValue::Refresh(i) => {
                if i < self.refresh.len() {
                    let t = self.refresh[i];
                    self.refresh.set(i, RefreshToken { revoked: true, ..t });
                }
            },
        }
    }
}

impl AuthServer {
    /// Reports whether `value` is live for `caller` at `now`, with its
    /// scopes, subject and expiry. A token of another client, like an unknown
    /// one, is reported inactive.
    pub fn introspect(&self, value: TokenValue, caller: usize, now: u64) -> (r: Introspection)
        ensures
            r == introspection_of(*self, value, caller, now),
    {
        match value {
            TokenValue::Access(i) => {
                if i < self.tokens.access.len() {
                    let t = self.tokens.access[i];
                    if !t.revoked && now < t.expires_at && t.client_id == caller && t.session_id < self.sessions.len() {
                        return Introspection { active: true, scopes: t.scopes, user_id: self.sessions[t.session_id].user_id, expires_at: t.expires_at };
                    }
                }
                Introspection { active: false, scopes: 0, user_id: 0, expires_at: 0 }
            },
            TokenValue::Refresh(i) => {
                if i < self.tokens.refresh.len() {
                    let t = self.tokens.refresh[i];
                    if !t.revoked && !t.used && now < t.expires_at && t.client_id == caller && t.session_id < self.sessions.len() {
                        return Introspection { active: true, scopes: t.scopes, user_id: self.sessions[t.session_id].user_id, expires_at: t.expires_at };
                    }
                }
                Introspection { active: false, scopes: 0, user_id: 0, expires_at: 0 }
            },
        }
    }
}

} // verus!
