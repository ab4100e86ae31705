use crate::error::AuthError;
use crate::model::{
    deadline, deadline_of, same_but_devices_tokens, scopes_within, scopes_within_spec, AuthServer,
    DeviceCodeGrant, DeviceStatus,
};
use crate::pkce::bytes_eq;
use crate::tokens::{minted_access, minted_refresh, TokenPair};
use vstd::prelude::*;

verus! {

/// What a device client is told when it polls.
#[derive(Debug, Clone, Copy, PartialEq, Eq, Structural)]
pub enum PollResult {
    AuthorizationPending,
    SlowDown,
    AccessDenied,
    Expired,
    Fulfilled(TokenPair),
}

/// The kind of answer a poll gets, before any change.
#[derive(Debug, Clone, Copy, PartialEq, Eq, Structural)]
pub enum PollOutcome {
    SlowDown,
    Expired,
    AccessDenied,
    AuthorizationPending,
    AlreadyExchanged,
    Ready,
}

/// Whether a poll at `now` comes sooner than the interval allows.
pub open spec fn polled_too_soon(g: DeviceCodeGrant, now: u64) -> bool {
    match g.last_polled_at {
        Some(t) => (now as int) < t as int + g.poll_interval as int,
        None => false,
    }
}

/// The answer to a poll of `g` at `now`.
pub open spec fn poll_outcome(g: DeviceCodeGrant, now: u64) -> PollOutcome {
    if polled_too_soon(g, now) {
        PollOutcome::SlowDown
    } else if now >= g.expires_at {
        PollOutcome::Expired
    } else {
        match g.status {
            DeviceStatus::Denied => PollOutcome::AccessDenied,
            DeviceStatus::Pending => PollOutcome::AuthorizationPending,
            DeviceStatus::Exchanged => PollOutcome::AlreadyExchanged,
            DeviceStatus::Fulfilled => PollOutcome::Ready,
        }
    }
}

/// `g` with its poll time recorded.
pub open spec fn polled_at(g: DeviceCodeGrant, now: u64) -> DeviceCodeGrant {
    DeviceCodeGrant { last_polled_at: Some(now), ..g }
}

/// `g` after the user's decision on it.
pub open spec fn consented(g: DeviceCodeGrant, session_id: usize, approve: bool) -> DeviceCodeGrant {
    if approve {
        DeviceCodeGrant { status: DeviceStatus::Fulfilled, session_id, ..g }
    } else {
        DeviceCodeGrant { status: DeviceStatus::Denied, ..g }
    }
}

/// Whether device grant `i` carries `user_code` and is unexpired at `now`.
pub open spec fn live_user_code_at(s: AuthServer, user_code: Seq<u8>, now: u64, i: int) -> bool {
    0 <= i < s.device_grants@.len() && s.device_grants@[i].user_code@ == user_code && now < s.device_grants@[i].expires_at
}

/// Whether some unexpired device grant carries `user_code`.
pub open spec fn user_code_live(s: AuthServer, user_code: Seq<u8>, now: u64) -> bool {
    exists|i: int| live_user_code_at(s, user_code, now, i)
}

/// Whether `i` is the first unexpired device grant that carries `user_code`.
pub open spec fn first_live_user_code(s: AuthServer, user_code: Seq<u8>, now: u64, i: int) -> bool {
    &&& live_user_code_at(s, user_code, now, i)
    &&& forall|j: int| 0 <= j < i ==> !live_user_code_at(s, user_code, now, j)
}

/// The outcome of a device authorization request, before any change.
pub open spec fn device_start_check(s: AuthServer, client_id: usize, scopes: u64, user_code: Seq<u8>, now: u64) -> Result<(), AuthError> {
    if client_id >= s.clients@.len() {
        Err(AuthError::InvalidClient)
    } else if !scopes_within_spec(scopes, s.clients@[client_id as int].scopes) || user_code_live(s, user_code, now) {
        Err(AuthError::InvalidRequest)
    } else {
        Ok(())
    }
}

impl AuthServer {
    /// The first unexpired device grant that carries `user_code`.
    pub fn find_user_code(&self, user_code: &Vec<u8>, now: u64) -> (r: Option<usize>)
        ensures
            r matches Some(i) ==> first_live_user_code(*self, user_code@, now, i as int),
            r is None ==> !user_code_live(*self, user_code@, now),
    {
        let mut i: usize = 0;
        while i < self.device_grants.len()
            invariant
                i <= self.device_grants@.len(),
                forall|j: int| 0 <= j < i ==> !live_user_code_at(*self, user_code@, now, j),
            decreases self.device_grants@.len() - i,
        {
            if now < self.device_grants[i].expires_at && bytes_eq(&self.device_grants[i].user_code, user_code) {
                return Some(i);
            }
            i = i + 1;
        }
        None
    }

    /// Records a device authorization request as a Pending device grant;
    /// returns its device code. `user_code` is refused while another
    /// unexpired grant carries it.
    pub fn start_device_authorization(&mut self, client_id: usize, scopes: u64, user_code: Vec<u8>, now: u64) -> (r: Result<usize, AuthError>)
        ensures
            device_start_check(*old(self), client_id, scopes, user_code@, now) is Ok ==> {
                &&& r == Ok::<usize, AuthError>(old(self).device_grants@.len() as usize)
                &&& final(self).device_grants@ == old(self).device_grants@.push(DeviceCodeGrant {
                    client_id,
                    scopes,
                    user_code,
                    status: DeviceStatus::Pending,
                    poll_interval: old(self).lifetimes.poll_interval,
                    expires_at: deadline_of(now, old(self).lifetimes.device_ttl),
                    last_polled_at: None,
                    session_id: 0,
                })
            },
            device_start_check(*old(self), client_id, scopes, user_code@, now) is Err ==> {
                &&& r == Err::<usize, AuthError>(device_start_check(*old(self), client_id, scopes, user_code@, now)->Err_0)
                &&& final(self).device_grants == old(self).device_grants
            },
            same_but_devices_tokens(*old(self), *final(self)),
            final(self).tokens == old(self).tokens,
    {
        if client_id >= self.clients.len() {
            return Err(AuthError::InvalidClient);
        }
        if !scopes_within(scopes, self.clients[client_id].scopes) {
            return Err(AuthError::InvalidRequest);
        }
        if self.find_user_code(&user_code, now).is_some() {
            return Err(AuthError::InvalidRequest);
        }
        let id = self.device_grants.len();
        let expires_at = deadline(now, self.lifetimes.device_ttl);
        let poll_interval = self.lifetimes.poll_interval;
        self.device_grants.push(DeviceCodeGrant {
            client_id,
            scopes,
            user_code,
            status: DeviceStatus::Pending,
            poll_interval,
            expires_at,
            last_polled_at: None,
            session_id: 0,
        });
        Ok(id)
    }

    /// Applies the user's decision to the device grant that `user_code`
    /// names; returns its device code. Only a Pending grant can be decided,
    /// so a second submission fails with `InvalidState`.
    pub fn submit_device_consent(&mut self, user_code: &Vec<u8>, session_id: usize, approve: bool, now: u64) -> (r: Result<usize, AuthError>)
        ensures
            session_id >= old(self).sessions@.len() || !user_code_live(*old(self), user_code@, now) ==> {
                &&& r == Err::<usize, AuthError>(AuthError::NotFound)
                &&& *final(self) == *old(self)
            },
            forall|i: int| session_id < old(self).sessions@.len() && first_live_user_code(*old(self), user_code@, now, i) ==> {
                if old(self).device_grants@[i].status == DeviceStatus::Pending {
                    &&& r == Ok::<usize, AuthError>(i as usize)
                    &&& final(self).device_grants@ == old(self).device_grants@.update(i, consented(old(self).device_grants@[i], session_id, approve))
                    &&& same_but_devices_tokens(*old(self), *final(self))
                    &&& final(self).tokens == old(self).tokens
                } else {
                    &&& r == Err::<usize, AuthError>(AuthError::InvalidState)
                    &&& *final(self) == *old(self)
                }
            },
    {
        if session_id >= self.sessions.len() {
            return Err(AuthError::NotFound);
        }
        let i = match self.find_user_code(user_code, now) {
            Some(i) => i,
            None => {
                return Err(AuthError::NotFound);
            },
        };
        assert(forall|k: int| first_live_user_code(*old(self), user_code@, now, k) ==> k == i as int);
        if self.device_grants[i].status != DeviceStatus::Pending {
            return Err(AuthError::InvalidState);
        }
        if approve {
            self.device_grants[i].status = DeviceStatus::Fulfilled;
            self.device_grants[i].session_id = session_id;
        } else {
            self.device_grants[i].status = DeviceStatus::Denied;
        }
        Ok(i)
    }

    /// Answers a poll of device code `device_code` by client `client_id`.
    /// Every poll of a known code records its time; a poll sooner than the
    /// grant's interval gets `SlowDown` whatever the user did. A Fulfilled
    /// grant yields its token pair once and becomes Exchanged.
    pub fn poll_device_code(&mut self, device_code: usize, client_id: usize, now: u64) -> (r: Result<PollResult, AuthError>)
        ensures
            device_code >= old(self).device_grants@.len() || old(self).device_grants@[device_code as int].client_id != client_id ==> {
                &&& r == Err::<PollResult, AuthError>(AuthError::InvalidGrant)
                &&& *final(self) == *old(self)
            },
            device_code < old(self).device_grants@.len() && old(self).device_grants@[device_code as int].client_id == client_id ==> {
                let g = old(self).device_grants@[device_code as int];
                &&& same_but_devices_tokens(*old(self), *final(self))
                &&& match poll_outcome(g, now) {
                    PollOutcome::Ready => {
                        &&& r == Ok::<PollResult, AuthError>(PollResult::Fulfilled(TokenPair {
                            access: old(self).tokens.access@.len() as usize,
                            refresh: old(self).tokens.refresh@.len() as usize,
                        }))
                        &&& final(self).device_grants@ == old(self).device_grants@.update(
                            device_code as int,
                            DeviceCodeGrant { status: DeviceStatus::Exchanged, ..polled_at(g, now) },
                        )
                        &&& final(self).tokens.access@ == old(self).tokens.access@.push(
                            minted_access(g.session_id, g.client_id, g.scopes, now, old(self).lifetimes.access_ttl),
                        )
                        &&& final(self).tokens.refresh@ == old(self).tokens.refresh@.push(
                            minted_refresh(g.session_id, g.client_id, g.scopes, old(self).tokens.access@.len() as usize, now, old(self).lifetimes.refresh_ttl),
                        )
                    },
                    other => {
                        &&& r == match other {
                            PollOutcome::SlowDown => Ok::<PollResult, AuthError>(PollResult::SlowDown),
                            PollOutcome::Expired => Ok(PollResult::Expired),
                            PollOutcome::AccessDenied => Ok(PollResult::AccessDenied),
                            PollOutcome::AuthorizationPending => Ok(PollResult::AuthorizationPending),
                            _ => Err(AuthError::GrantAlreadyExchanged),
                        }
                        &&& final(self).device_grants@ == old(self).device_grants@.update(device_code as int, polled_at(g, now))
                        &&& final(self).tokens == old(self).tokens
                    },
                }
            },
    {
        if device_code >= self.device_grants.len() || self.device_grants[device_code].client_id != client_id {
            return Err(AuthError::InvalidGrant);
        }
        let too_soon = match self.device_grants[device_code].last_polled_at {
            Some(t) => now < t || now - t < self.device_grants[device_code].poll_interval,
            None => false,
        };
        self.device_grants[device_code].last_polled_at = Some(now);
        if too_soon {
            return Ok(PollResult::SlowDown);
        }
        if now >= self.device_grants[device_code].expires_at {
            return Ok(PollResult::Expired);
        }
        match self.device_grants[device_code].status {
            DeviceStatus::Denied => Ok(PollResult::AccessDenied),
            DeviceStatus::Pending => Ok(PollResult::AuthorizationPending),
            DeviceStatus::Exchanged => Err(AuthError::GrantAlreadyExchanged),
            DeviceStatus::Fulfilled => {
                self.device_grants[device_code].status = DeviceStatus::Exchanged;
                let session_id = self.device_grants[device_code].session_id;
                let scopes = self.device_grants[device_code].scopes;
                let lifetimes = self.lifetimes;
                Ok(PollResult::Fulfilled(self.tokens.issue(session_id, client_id, scopes, now, lifetimes.access_ttl, lifetimes.refresh_ttl)))
            },
        }
    }
}

} // verus!
