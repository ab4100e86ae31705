use crate::error::AuthError;
use crate::model::{deadline, deadline_of, same_but_links_sessions, AuthServer, LinkStatus, Session, UpstreamLink};
use crate::pkce::bytes_eq;
use vstd::prelude::*;

verus! {

/// Which local user an upstream subject is bound to.
#[derive(Debug, Clone, Copy, PartialEq, Eq, Structural)]
pub enum LinkTarget {
    /// An existing user, whose session is stepped up.
    Existing(u64),
    /// A user provisioned for the occasion.
    NewUser,
}

/// Whether link `i` awaits a callback carrying `state` at `now`.
pub open spec fn live_state_at(s: AuthServer, state: Seq<u8>, now: u64, i: int) -> bool {
    &&& 0 <= i < s.links@.len()
    &&& s.links@[i].state@ == state
    &&& s.links@[i].status == LinkStatus::AuthorizeStarted
    &&& now < s.links@[i].expires_at
}

/// Whether some link awaits a callback carrying `state` at `now`.
pub open spec fn state_live(s: AuthServer, state: Seq<u8>, now: u64) -> bool {
    exists|i: int| live_state_at(s, state, now, i)
}

/// Whether `i` is the first link that awaits a callback carrying `state`.
pub open spec fn first_live_state(s: AuthServer, state: Seq<u8>, now: u64, i: int) -> bool {
    &&& live_state_at(s, state, now, i)
    &&& forall|j: int| 0 <= j < i ==> !live_state_at(s, state, now, j)
}

/// The local user that `target` designates.
pub open spec fn target_user(s: AuthServer, target: LinkTarget) -> u64 {
    match target {
        LinkTarget::Existing(u) => u,
        LinkTarget::NewUser => s.user_count,
    }
}

/// Whether another link binds the subject of `provider_id` to a user other
/// than `user_id`.
pub open spec fn subject_taken(s: AuthServer, provider_id: u64, subject: Seq<u8>, user_id: u64) -> bool {
    exists|j: int|
        0 <= j < s.links@.len() && s.links@[j].status == LinkStatus::Linked && s.links@[j].provider_id == provider_id
            && s.links@[j].subject@ == subject && s.links@[j].user_id != Some(user_id)
}

/// The outcome of completing link `link_id`, before any change.
pub open spec fn complete_check(s: AuthServer, link_id: usize, target: LinkTarget, now: u64) -> Result<(), AuthError> {
    if link_id >= s.links@.len() {
        Err(AuthError::NotFound)
    } else {
        let l = s.links@[link_id as int];
        if l.status != LinkStatus::CallbackReceived || now >= l.expires_at {
            Err(AuthError::InvalidState)
        } else if target matches LinkTarget::Existing(u) && u >= s.user_count {
            Err(AuthError::NotFound)
        } else if subject_taken(s, l.provider_id, l.subject@, target_user(s, target)) {
            Err(AuthError::SubjectAlreadyLinked)
        } else {
            Ok(())
        }
    }
}

impl AuthServer {
    /// Starts an upstream authorization flow with provider `provider_id`,
    /// binding the anti-CSRF `state` and the `nonce` to the new link; returns
    /// its id.
    pub fn start_link(&mut self, provider_id: u64, state: Vec<u8>, nonce: Vec<u8>, now: u64) -> (r: usize)
        ensures
            r == old(self).links@.len(),
            final(self).links@.len() == old(self).links@.len() + 1,
            final(self).links@.drop_last() == old(self).links@,
            final(self).links@.last().provider_id == provider_id,
            final(self).links@.last().state == state,
            final(self).links@.last().nonce == nonce,
            final(self).links@.last().status == LinkStatus::AuthorizeStarted,
            final(self).links@.last().subject@.len() == 0,
            final(self).links@.last().user_id is None,
            final(self).links@.last().expires_at == deadline_of(now, old(self).lifetimes.link_ttl),
            same_but_links_sessions(*old(self), *final(self)),
            final(self).sessions == old(self).sessions,
            final(self).user_count == old(self).user_count,
    {
        let r = self.links.len();
        let expires_at = deadline(now, self.lifetimes.link_ttl);
        self.links.push(UpstreamLink {
            provider_id,
            state,
            nonce,
            status: LinkStatus::AuthorizeStarted,
            subject: Vec::new(),
            user_id: None,
            expires_at,
        });
        r
    }
    /// The first link that awaits a callback carrying `state` at `now`.
    pub fn find_link_by_state(&self, state: &Vec<u8>, now: u64) -> (r: Option<usize>)
        ensures
            r matches Some(i) ==> first_live_state(*self, state@, now, i as int),
            r is None ==> !state_live(*self, state@, now),
    {
        let mut i: usize = 0;
        while i < self.links.len()
            invariant
                i <= self.links@.len(),
                forall|j: int| 0 <= j < i ==> !live_state_at(*self, state@, now, j),
            decreases self.links@.len() - i,
        {
            if self.links[i].status == LinkStatus::AuthorizeStarted && now < self.links[i].expires_at
                && bytes_eq(&self.links[i].state, state) {
                return Some(i);
            }
            i = i + 1;
        }
        None
    }

    /// Records the provider's answer to the flow that `state` names: the
    /// upstream subject (`Some`), or a provider error (`None`), which fails
    /// the link. A `state` that no unexpired, waiting link carries fails
    /// with `UnknownState`, whether it was never issued, has expired or was
    /// already used.
    pub fn handle_callback(&mut self, state: &Vec<u8>, provider_subject: Option<Vec<u8>>, now: u64) -> (r: Result<usize, AuthError>)
        ensures
            !state_live(*old(self), state@, now) ==> {
                &&& r == Err::<usize, AuthError>(AuthError::UnknownState)
                &&& *final(self) == *old(self)
            },
            forall|i: int| first_live_state(*old(self), state@, now, i) ==> {
                &&& same_but_links_sessions(*old(self), *final(self))
                &&& final(self).sessions == old(self).sessions
                &&& final(self).user_count == old(self).user_count
                &&& match provider_subject {
                    Some(subject) => {
                        &&& r == Ok::<usize, AuthError>(i as usize)
                        &&& final(self).links@ == old(self).links@.update(
                            i,
                            UpstreamLink { status: LinkStatus::CallbackReceived, subject, ..old(self).links@[i] },
                        )
                    },
                    None => {
                        &&& r == Err::<usize, AuthError>(AuthError::UpstreamProviderError)
                        &&& final(self).links@ == old(self).links@.update(
                            i,
                            UpstreamLink { status: LinkStatus::Failed, ..old(self).links@[i] },
                        )
                    },
                }
            },
    {
        let i = match self.find_link_by_state(state, now) {
            Some(i) => i,
            None => {
                return Err(AuthError::UnknownState);
            },
        };
        assert(forall|k: int| first_live_state(*old(self), state@, now, k) ==> k == i as int);
        match provider_subject {
            Some(subject) => {
                self.links[i].status = LinkStatus::CallbackReceived;
                self.links[i].subject = subject;
                Ok(i)
            },
            None => {
                self.links[i].status = LinkStatus::Failed;
                Err(AuthError::UpstreamProviderError)
            },
        }
    }

    /// Whether another link binds the subject of `provider_id` to a user
    /// other than `user_id`.
    fn subject_linked_elsewhere(&self, provider_id: u64, subject: &Vec<u8>, user_id: u64) -> (r: bool)
        ensures
            r == subject_taken(*self, provider_id, subject@, user_id),
    {
        let mut j: usize = 0;
        while j < self.links.len()
            invariant
                j <= self.links@.len(),
                forall|k: int|
                    0 <= k < j ==> !(self.links@[k].status == LinkStatus::Linked && self.links@[k].provider_id == provider_id
                        && self.links@[k].subject@ == subject@ && self.links@[k].user_id != Some(user_id)),
            decreases self.links@.len() - j,
        {
            let l = &self.links[j];
            if l.status == LinkStatus::Linked && l.provider_id == provider_id && bytes_eq(&l.subject, subject) {
                let other = match l.user_id {
                    Some(u) => u != user_id,
                    None => true,
                };
                if other {
                    return true;
                }
            }
            j = j + 1;
        }
        false
    }

    /// Binds the upstream subject of a link that received its callback to a
    /// local user, existing or new, and opens a session for that user;
    /// returns the session's id. A subject already linked to another user is
    /// refused.
    pub fn complete_link(&mut self, link_id: usize, target: LinkTarget, now: u64) -> (r: Result<usize, AuthError>)
        requires
            old(self).user_count < u64::MAX,
        ensures
            complete_check(*old(self), link_id, target, now) is Err ==> {
                &&& r == Err::<usize, AuthError>(complete_check(*old(self), link_id, target, now)->Err_0)
                &&& *final(self) == *old(self)
            },
            complete_check(*old(self), link_id, target, now) is Ok ==> {
                let user = target_user(*old(self), target);
                &&& r == Ok::<usize, AuthError>(old(self).sessions@.len() as usize)
                &&& final(self).sessions@ == old(self).sessions@.push(Session { user_id: user, created_at: now, active: true })
                &&& final(self).user_count == if target is NewUser { old(self).user_count + 1 } else { old(self).user_count as int }
                &&& final(self).links@ == old(self).links@.update(
                    link_id as int,
                    UpstreamLink { status: LinkStatus::Linked, user_id: Some(user), ..old(self).links@[link_id as int] },
                )
                &&& same_but_links_sessions(*old(self), *final(self))
            },
    {
        if link_id >= self.links.len() {
            return Err(AuthError::NotFound);
        }
        if self.links[link_id].status != LinkStatus::CallbackReceived || now >= self.links[link_id].expires_at {
            return Err(AuthError::InvalidState);
        }
        let user = match target {
            LinkTarget::Existing(u) => {
                if u >= self.user_count {
                    return Err(AuthError::NotFound);
                }
                u
            },
            LinkTarget::NewUser => self.user_count,
        };
        if self.subject_linked_elsewhere(self.links[link_id].provider_id, &self.links[link_id].subject, user) {
            return Err(AuthError::SubjectAlreadyLinked);
        }
        if target == LinkTarget::NewUser {
            self.user_count = self.user_count + 1;
        }
        let session_id = self.sessions.len();
        self.sessions.push(Session { user_id: user, created_at: now, active: true });
        self.links[link_id].status = LinkStatus::Linked;
        self.links[link_id].user_id = Some(user);
        Ok(session_id)
    }
}

} // verus!
