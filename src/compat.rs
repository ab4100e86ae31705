use crate::error::AuthError;
use crate::model::{same_but_compat, AuthServer, CompatSession, Session, TokenStore};
use crate::tokens::{family_revoked, minted_access, minted_refresh, refresh_check, rotated, TokenPair};
use vstd::prelude::*;

verus! {

/// The fixed scopes of legacy sessions: full client API access and the
/// session's own device.
pub const COMPAT_SCOPES: u64 = 3;

/// The client id under which legacy tokens are minted; no registered
/// client has it.
pub const COMPAT_CLIENT: usize = usize::MAX;

/// Whether `value` is a refresh token minted for a legacy session.
pub open spec fn is_compat_refresh(tokens: TokenStore, value: usize) -> bool {
    value < tokens.refresh@.len() && tokens.refresh@[value as int].client_id == COMPAT_CLIENT
}

/// Whether `j` is the first legacy session whose current refresh token is
/// `value`.
pub open spec fn first_compat_with_refresh(s: AuthServer, value: usize, j: int) -> bool {
    &&& 0 <= j < s.compat_sessions@.len()
    &&& s.compat_sessions@[j].refresh_token == value
    &&& forall|k: int| 0 <= k < j ==> s.compat_sessions@[k].refresh_token != value
}

impl AuthServer {
    /// Logs a legacy client in as `user_id` on `device_id`, given whether
    /// the credentials were verified: opens a session, mints a token pair with
    /// the fixed legacy scopes, and returns the legacy session's id.
    pub fn compat_login(&mut self, device_id: u64, user_id: u64, credentials_valid: bool, now: u64) -> (r: Result<usize, AuthError>)
        ensures
            !credentials_valid ==> r == Err::<usize, AuthError>(AuthError::InvalidRequest) && *final(self) == *old(self),
            credentials_valid && user_id >= old(self).user_count ==> r == Err::<usize, AuthError>(AuthError::NotFound)
                && *final(self) == *old(self),
            credentials_valid && user_id < old(self).user_count ==> {
                let session_id = old(self).sessions@.len() as usize;
                &&& r == Ok::<usize, AuthError>(old(self).compat_sessions@.len() as usize)
                &&& same_but_compat(*old(self), *final(self))
                &&& final(self).sessions@ == old(self).sessions@.push(Session { user_id, created_at: now, active: true })
                &&& final(self).tokens.access@ == old(self).tokens.access@.push(
                    minted_access(session_id, COMPAT_CLIENT, COMPAT_SCOPES, now, old(self).lifetimes.access_ttl),
                )
                &&& final(self).tokens.refresh@ == old(self).tokens.refresh@.push(
                    minted_refresh(session_id, COMPAT_CLIENT, COMPAT_SCOPES, old(self).tokens.access@.len() as usize, now, old(self).lifetimes.refresh_ttl),
                )
                &&& final(self).compat_sessions@ == old(self).compat_sessions@.push(CompatSession {
                    device_id,
                    user_id,
                    session_id,
                    access_token: old(self).tokens.access@.len() as usize,
                    refresh_token: old(self).tokens.refresh@.len() as usize,
                    terminated: false,
                })
            },
    {
        if !credentials_valid {
            return Err(AuthError::InvalidRequest);
        }
        if user_id >= self.user_count {
            return Err(AuthError::NotFound);
        }
        let session_id = self.sessions.len();
        self.sessions.push(Session { user_id, created_at: now, active: true });
        let lifetimes = self.lifetimes;
        let pair = self.tokens.issue(session_id, COMPAT_CLIENT, COMPAT_SCOPES, now, lifetimes.access_ttl, lifetimes.refresh_ttl);
        let id = self.compat_sessions.len();
        self.compat_sessions.push(CompatSession {
            device_id,
            user_id,
            session_id,
            access_token: pair.access,
            refresh_token: pair.refresh,
            terminated: false,
        });
        Ok(id)
    }

    /// The first legacy session whose current refresh token is `value`.
    pub fn find_compat_by_refresh(&self, value: usize) -> (r: Option<usize>)
        ensures
            r matches Some(j) ==> first_compat_with_refresh(*self, value, j as int),
            r is None ==> forall|j: int| 0 <= j < self.compat_sessions@.len() ==> self.compat_sessions@[j].refresh_token != value,
    {
        let mut j: usize = 0;
        while j < self.compat_sessions.len()
            invariant
                j <= self.compat_sessions@.len(),
                forall|k: int| 0 <= k < j ==> self.compat_sessions@[k].refresh_token != value,
            decreases self.compat_sessions@.len() - j,
        {
            if self.compat_sessions[j].refresh_token == value {
                return Some(j);
            }
            j = j + 1;
        }
        None
    }

    /// Rotates a legacy refresh token through the token issuer, with the
    /// same replay detection: a used token revokes its family. A token that
    /// was not minted for a legacy session is not found. On success the
    /// legacy session that held the token moves to the new pair.
    pub fn compat_refresh(&mut self, refresh_token: usize, now: u64) -> (r: Result<TokenPair, AuthError>)
        ensures
            same_but_compat(*old(self), *final(self)),
            final(self).sessions == old(self).sessions,
            !is_compat_refresh(old(self).tokens, refresh_token) ==> {
                &&& r == Err::<TokenPair, AuthError>(AuthError::TokenNotFound)
                &&& *final(self) == *old(self)
            },
            is_compat_refresh(old(self).tokens, refresh_token) && refresh_check(old(self).tokens, refresh_token, None, now) is Ok ==> {
                &&& r == Ok::<TokenPair, AuthError>(TokenPair {
                    access: old(self).tokens.access@.len() as usize,
                    refresh: old(self).tokens.refresh@.len() as usize,
                })
                &&& rotated(old(self).tokens, final(self).tokens, refresh_token, None, now, old(self).lifetimes.access_ttl, old(self).lifetimes.refresh_ttl)
                &&& forall|j: int| first_compat_with_refresh(*old(self), refresh_token, j) ==> final(self).compat_sessions@
                    == old(self).compat_sessions@.update(j, CompatSession {
                        access_token: old(self).tokens.access@.len() as usize,
                        refresh_token: old(self).tokens.refresh@.len() as usize,
                        ..old(self).compat_sessions@[j]
                    })
                &&& (forall|j: int| 0 <= j < old(self).compat_sessions@.len() ==> old(self).compat_sessions@[j].refresh_token != refresh_token)
                    ==> final(self).compat_sessions == old(self).compat_sessions
            },
            is_compat_refresh(old(self).tokens, refresh_token) && refresh_check(old(self).tokens, refresh_token, None, now)
                == Err::<(), AuthError>(AuthError::TokenReplay) ==> {
                &&& r == Err::<TokenPair, AuthError>(AuthError::TokenReplay)
                &&& family_revoked(old(self).tokens, final(self).tokens, old(self).tokens.refresh@[refresh_token as int].session_id)
                &&& final(self).compat_sessions == old(self).compat_sessions
            },
            is_compat_refresh(old(self).tokens, refresh_token) && refresh_check(old(self).tokens, refresh_token, None, now) is Err
                && refresh_check(old(self).tokens, refresh_token, None, now) != Err::<(), AuthError>(AuthError::TokenReplay) ==> {
                &&& r == Err::<TokenPair, AuthError>(refresh_check(old(self).tokens, refresh_token, None, now)->Err_0)
                &&& *final(self) == *old(self)
            },
    {
        if refresh_token >= self.tokens.refresh.len() || self.tokens.refresh[refresh_token].client_id != COMPAT_CLIENT {
            return Err(AuthError::TokenNotFound);
        }
        let lifetimes = self.lifetimes;
        let holder = self.find_compat_by_refresh(refresh_token);
        let r = self.tokens.refresh(refresh_token, None, now, lifetimes.access_ttl, lifetimes.refresh_ttl);
        if let Ok(pair) = r {
            if let Some(j) = holder {
                assert(forall|k: int| first_compat_with_refresh(*old(self), refresh_token, k) ==> k == j as int);
                let c = self.compat_sessions[j];
                self.compat_sessions.set(j, CompatSession { access_token: pair.access, refresh_token: pair.refresh, ..c });
            }
        }
        r
    }

    /// Ends a legacy session: revokes every token of its session, marks the
    /// session inactive and the legacy session terminated. Repeating it
    /// changes nothing more.
    pub fn compat_logout(&mut self, compat_id: usize) -> (r: Result<(), AuthError>)
        ensures
            compat_id >= old(self).compat_sessions@.len() ==> r == Err::<(), AuthError>(AuthError::NotFound)
                && *final(self) == *old(self),
            compat_id < old(self).compat_sessions@.len() ==> {
                let c = old(self).compat_sessions@[compat_id as int];
                &&& r is Ok
                &&& same_but_compat(*old(self), *final(self))
                &&& family_revoked(old(self).tokens, final(self).tokens, c.session_id)
                &&& final(self).compat_sessions@ == old(self).compat_sessions@.update(compat_id as int, CompatSession { terminated: true, ..c })
                &&& final(self).sessions@ == if c.session_id < old(self).sessions@.len() {
                    old(self).sessions@.update(c.session_id as int, Session { active: false, ..old(self).sessions@[c.session_id as int] })
                } else {
                    old(self).sessions@
                }
            },
    {
        if compat_id >= self.compat_sessions.len() {
            return Err(AuthError::NotFound);
        }
        let c = self.compat_sessions[compat_id];
        self.tokens.revoke_family(c.session_id);
        self.compat_sessions.set(compat_id, CompatSession { terminated: true, ..c });
        if c.session_id < self.sessions.len() {
            let s = self.sessions[c.session_id];
            self.sessions.set(c.session_id, Session { active: false, ..s });
        }
        Ok(())
    }
}

} // verus!
