use crate::device::{consented, poll_outcome, polled_too_soon, PollOutcome};
use crate::error::AuthError;
use crate::grant::{exchange_check, exchanged};
use crate::model::{deadline_of, AuthServer, DeviceCodeGrant, DeviceStatus, GrantStatus, TokenStore};
use crate::pkce::{s256_challenge, PkceMethod};
use crate::tokens::{
    family_revoked, introspection_of, minted_access, minted_refresh, refresh_check, revoked_in, rotated,
    Introspection, TokenValue,
};
use vstd::prelude::*;

verus! {

/// An authorization code is redeemed at most once: after a successful
/// exchange, any later presentation of the same code by a registered client
/// fails with `GrantAlreadyExchanged`.
pub proof fn exchange_at_most_once(
    s: AuthServer,
    t: AuthServer,
    code: usize,
    client_id: usize,
    redirect_uri: Seq<u8>,
    code_verifier: Option<Seq<u8>>,
    now: u64,
    client_id2: usize,
    redirect_uri2: Seq<u8>,
    code_verifier2: Option<Seq<u8>>,
    now2: u64,
)
    requires
        exchange_check(s, code, client_id, redirect_uri, code_verifier, now) is Ok,
        exchanged(s, t, code, now),
        client_id2 < t.clients@.len(),
    ensures
        exchange_check(t, code, client_id2, redirect_uri2, code_verifier2, now2) == Err::<(), AuthError>(AuthError::GrantAlreadyExchanged),
{
}

/// Presenting a refresh token that was already used is a replay: it fails
/// with `TokenReplay`, whatever the scopes and time, and once its family is
/// revoked every access and refresh token of its session is revoked.
pub proof fn replay_revokes_family(a: TokenStore, b: TokenStore, value: usize, requested: Option<u64>, now: u64)
    requires
        value < a.refresh@.len(),
        a.refresh@[value as int].used,
        family_revoked(a, b, a.refresh@[value as int].session_id),
    ensures
        refresh_check(a, value, requested, now) == Err::<(), AuthError>(AuthError::TokenReplay),
        forall|i: int| 0 <= i < b.access@.len() && b.access@[i].session_id == a.refresh@[value as int].session_id ==> b.access@[i].revoked,
        forall|i: int| 0 <= i < b.refresh@.len() && b.refresh@[i].session_id == a.refresh@[value as int].session_id ==> b.refresh@[i].revoked,
{
}

/// A refresh token rotates once: after a successful rotation, presenting
/// it again fails with `TokenReplay`.
pub proof fn refresh_twice_replays(
    a: TokenStore,
    b: TokenStore,
    value: usize,
    requested: Option<u64>,
    now: u64,
    access_ttl: u64,
    refresh_ttl: u64,
    requested2: Option<u64>,
    now2: u64,
)
    requires
        refresh_check(a, value, requested, now) is Ok,
        rotated(a, b, value, requested, now, access_ttl, refresh_ttl),
    ensures
        refresh_check(b, value, requested2, now2) == Err::<(), AuthError>(AuthError::TokenReplay),
{
    assert(b.refresh@[value as int] == b.refresh@.drop_last()[value as int]);
}

/// A freshly issued pair introspects as active for its client until it
/// expires, with the issued scopes, the session's user as subject and the
/// issued expiry.
pub proof fn issued_pair_introspects_active(
    s: AuthServer,
    t: AuthServer,
    session_id: usize,
    client_id: usize,
    scopes: u64,
    now: u64,
    later: u64,
)
    requires
        t.sessions == s.sessions,
        t.tokens.access@ == s.tokens.access@.push(minted_access(session_id, client_id, scopes, now, s.lifetimes.access_ttl)),
        t.tokens.refresh@ == s.tokens.refresh@.push(
            minted_refresh(session_id, client_id, scopes, s.tokens.access@.len() as usize, now, s.lifetimes.refresh_ttl),
        ),
        session_id < s.sessions@.len(),
        s.tokens.access@.len() < usize::MAX,
        s.tokens.refresh@.len() < usize::MAX,
        now <= later,
    ensures
        later < deadline_of(now, s.lifetimes.access_ttl) ==> introspection_of(t, TokenValue::Access(s.tokens.access@.len() as usize), client_id, later)
            == (Introspection {
            active: true,
            scopes,
            user_id: s.sessions@[session_id as int].user_id,
            expires_at: deadline_of(now, s.lifetimes.access_ttl),
        }),
        later < deadline_of(now, s.lifetimes.refresh_ttl) ==> introspection_of(t, TokenValue::Refresh(s.tokens.refresh@.len() as usize), client_id, later)
            == (Introspection {
            active: true,
            scopes,
            user_id: s.sessions@[session_id as int].user_id,
            expires_at: deadline_of(now, s.lifetimes.refresh_ttl),
        }),
{
}

/// A revoked token introspects as inactive, for every caller and time.
pub proof fn revoked_introspects_inactive(s: AuthServer, t: AuthServer, value: TokenValue, caller: usize, now: u64)
    requires
        t.sessions == s.sessions,
        revoked_in(s.tokens, t.tokens, value),
    ensures
        !introspection_of(t, value, caller, now).active,
{
}

/// Under the `S256` method, a code that is otherwise redeemable is redeemed
/// exactly when the recorded challenge equals the unpadded base64url form of
/// the verifier's SHA-256; otherwise the exchange fails with `InvalidGrant`.
pub proof fn pkce_s256_decides(
    s: AuthServer,
    code: usize,
    client_id: usize,
    redirect_uri: Seq<u8>,
    verifier: Seq<u8>,
    now: u64,
)
    requires
        client_id < s.clients@.len(),
        code < s.grants@.len(),
        s.grants@[code as int].status == GrantStatus::Fulfilled,
        now < s.grants@[code as int].expires_at,
        s.grants@[code as int].client_id == client_id,
        s.grants@[code as int].redirect_uri@ == redirect_uri,
        s.grants@[code as int].pkce matches Some(p) && p.method == PkceMethod::S256,
    ensures
        exchange_check(s, code, client_id, redirect_uri, Some(verifier), now) == if s.grants@[code as int].pkce->0.challenge@
            == s256_challenge(verifier) {
            Ok::<(), AuthError>(())
        } else {
            Err(AuthError::InvalidGrant)
        },
{
}

/// Device polling: a poll sooner than the interval gets `SlowDown`; an
/// unexpired grant the user has not decided on gets `AuthorizationPending`;
/// after the user approves it, the grant is ready to hand out its tokens.
pub proof fn device_poll_answers(g: DeviceCodeGrant, session_id: usize, now: u64)
    ensures
        polled_too_soon(g, now) ==> poll_outcome(g, now) == PollOutcome::SlowDown,
        !polled_too_soon(g, now) && now < g.expires_at && g.status == DeviceStatus::Pending ==> poll_outcome(g, now)
            == PollOutcome::AuthorizationPending,
        !polled_too_soon(g, now) && now < g.expires_at && g.status == DeviceStatus::Pending ==> poll_outcome(
            consented(g, session_id, true),
            now,
        ) == PollOutcome::Ready,
{
}

} // verus!
