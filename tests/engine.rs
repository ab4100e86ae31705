use mas_handlers::{
    bytes_eq, deadline, scopes_within, verifier_matches, verify_pkce, AuthError, AuthServer, Client,
    DeviceStatus, GrantStatus, Introspection, Lifetimes, LinkStatus, LinkTarget, PkceChallenge,
    PkceMethod, PollResult, TokenPair, TokenValue, COMPAT_CLIENT, COMPAT_SCOPES,
};

const OPENID: u64 = 1;
const EMAIL: u64 = 2;
const ADMIN: u64 = 4;

const VERIFIER: &str = "dBjftJeZ4CVP-mJ92aXBcWJaa0uW-KK1E52AwbPZ2Ck";
const CHALLENGE: &str = "z6G7r9v_Q_7rpHujKddrzci8JdSjewBV9ZnpJGml7b0";

fn lifetimes() -> Lifetimes {
    Lifetimes {
        grant_ttl: 600,
        device_ttl: 900,
        link_ttl: 600,
        access_ttl: 300,
        refresh_ttl: 86400,
        poll_interval: 5,
    }
}

fn b(s: &str) -> Vec<u8> {
    s.as_bytes().to_vec()
}

/// A server with one client (id 0) registered for `https://app.example/cb`,
/// one user (id 0) and one session (id 0).
fn server(requires_pkce: bool) -> AuthServer {
    let mut s = AuthServer::new(lifetimes());
    let c = s.register_client(Client {
        scopes: OPENID | EMAIL,
        redirect_uris: vec![b("https://app.example/cb")],
        requires_pkce,
    });
    assert_eq!(c, 0);
    let u = s.create_user();
    assert_eq!(u, 0);
    assert_eq!(s.create_session(u, 100), Ok(0));
    s
}

fn s256(challenge: &str) -> Option<PkceChallenge> {
    Some(PkceChallenge { method: PkceMethod::S256, challenge: b(challenge) })
}

/// A fulfilled grant of client 0 bound to session 0; returns its code.
fn fulfilled_grant(s: &mut AuthServer, pkce: Option<PkceChallenge>) -> usize {
    let code = s
        .start_authorization(0, OPENID, b("https://app.example/cb"), pkce, None, None, 100)
        .unwrap();
    assert_eq!(s.fulfill_authorization(code, 0, OPENID, true, 110), Ok(()));
    code
}

#[test]
fn exchange_twice_succeeds_once() {
    let mut s = server(false);
    let code = fulfilled_grant(&mut s, None);
    let first = s.exchange_authorization_code(code, 0, &b("https://app.example/cb"), None, 120);
    assert_eq!(first, Ok(TokenPair { access: 0, refresh: 0 }));
    let second = s.exchange_authorization_code(code, 0, &b("https://app.example/cb"), None, 121);
    assert_eq!(second, Err(AuthError::GrantAlreadyExchanged));
    assert_eq!(s.grants[code].status, GrantStatus::Exchanged);
    assert_eq!(s.tokens.access.len(), 1);
    assert_eq!(s.tokens.refresh.len(), 1);
}

#[test]
fn replayed_refresh_token_revokes_family() {
    let mut s = server(false);
    let code = fulfilled_grant(&mut s, None);
    let pair = s.exchange_authorization_code(code, 0, &b("https://app.example/cb"), None, 120).unwrap();
    let next = s.tokens.refresh(pair.refresh, None, 130, 300, 86400).unwrap();
    assert_eq!(next, TokenPair { access: 1, refresh: 1 });
    assert!(s.tokens.refresh[pair.refresh].used);
    assert_eq!(s.tokens.refresh[pair.refresh].replaced_by, Some(1));
    assert!(s.introspect(TokenValue::Access(next.access), 0, 140).active);

    let replay = s.tokens.refresh(pair.refresh, None, 140, 300, 86400);
    assert_eq!(replay, Err(AuthError::TokenReplay));
    for t in &s.tokens.access {
        assert!(t.revoked);
    }
    for t in &s.tokens.refresh {
        assert!(t.revoked);
    }
    assert!(!s.introspect(TokenValue::Access(next.access), 0, 141).active);
    assert!(!s.introspect(TokenValue::Refresh(next.refresh), 0, 141).active);
}

#[test]
fn issue_introspect_revoke_round_trip() {
    let mut s = server(false);
    let pair = s.tokens.issue(0, 0, OPENID | EMAIL, 1000, 300, 86400);
    let seen = s.introspect(TokenValue::Access(pair.access), 0, 1100);
    assert_eq!(
        seen,
        Introspection { active: true, scopes: OPENID | EMAIL, user_id: 0, expires_at: 1300 }
    );
    let seen = s.introspect(TokenValue::Refresh(pair.refresh), 0, 1100);
    assert_eq!(
        seen,
        Introspection { active: true, scopes: OPENID | EMAIL, user_id: 0, expires_at: 87400 }
    );
    s.tokens.revoke(TokenValue::Access(pair.access));
    assert!(!s.introspect(TokenValue::Access(pair.access), 0, 1100).active);
    s.tokens.revoke(TokenValue::Refresh(pair.refresh));
    assert!(!s.introspect(TokenValue::Refresh(pair.refresh), 0, 1100).active);
}

#[test]
fn introspection_hides_other_clients_and_expiry() {
    let mut s = server(false);
    let pair = s.tokens.issue(0, 0, OPENID, 1000, 300, 86400);
    let inactive = Introspection { active: false, scopes: 0, user_id: 0, expires_at: 0 };
    assert_eq!(s.introspect(TokenValue::Access(pair.access), 7, 1100), inactive);
    assert_eq!(s.introspect(TokenValue::Access(pair.access), 0, 1300), inactive);
    assert_eq!(s.introspect(TokenValue::Access(99), 0, 1100), inactive);
}

#[test]
fn revoke_is_idempotent_and_silent() {
    let mut s = server(false);
    let pair = s.tokens.issue(0, 0, OPENID, 1000, 300, 86400);
    s.tokens.revoke(TokenValue::Access(pair.access));
    s.tokens.revoke(TokenValue::Access(pair.access));
    s.tokens.revoke(TokenValue::Refresh(42));
    assert!(s.tokens.access[pair.access].revoked);
    assert!(!s.tokens.refresh[pair.refresh].revoked);
}

#[test]
fn pkce_s256_matching_verifier_succeeds() {
    let mut s = server(true);
    let code = fulfilled_grant(&mut s, s256(CHALLENGE));
    let r = s.exchange_authorization_code(code, 0, &b("https://app.example/cb"), Some(b(VERIFIER)), 120);
    assert_eq!(r, Ok(TokenPair { access: 0, refresh: 0 }));
}

#[test]
fn pkce_s256_wrong_verifier_fails() {
    let mut s = server(true);
    let code = fulfilled_grant(&mut s, s256(CHALLENGE));
    let r = s.exchange_authorization_code(code, 0, &b("https://app.example/cb"), Some(b("another-verifier")), 120);
    assert_eq!(r, Err(AuthError::InvalidGrant));
    let r = s.exchange_authorization_code(code, 0, &b("https://app.example/cb"), None, 120);
    assert_eq!(r, Err(AuthError::InvalidGrant));
    // The challenge itself is not a valid verifier under S256.
    let r = s.exchange_authorization_code(code, 0, &b("https://app.example/cb"), Some(b(CHALLENGE)), 120);
    assert_eq!(r, Err(AuthError::InvalidGrant));
    assert_eq!(s.grants[code].status, GrantStatus::Fulfilled);
}

#[test]
fn pkce_helpers() {
    let s256 = PkceChallenge { method: PkceMethod::S256, challenge: b(CHALLENGE) };
    assert!(verify_pkce(&s256, &b(VERIFIER)));
    assert!(!verify_pkce(&s256, &b(CHALLENGE)));
    let empty = PkceChallenge {
        method: PkceMethod::S256,
        challenge: b("47DEQpj8HBSa-_TImW-5JCeuQeRkm5NMpJWZG3hSuFU"),
    };
    assert!(verify_pkce(&empty, &Vec::new()));
    let plain = PkceChallenge { method: PkceMethod::Plain, challenge: b("abc") };
    assert!(verify_pkce(&plain, &b("abc")));
    assert!(!verify_pkce(&plain, &b("abd")));
    assert!(verifier_matches(PkceMethod::S256, &b("xy"), &b("ignored"), &b("xy")));
    assert!(!verifier_matches(PkceMethod::S256, &b("xy"), &b("xy"), &b("zz")));
    assert!(verifier_matches(PkceMethod::Plain, &b("xy"), &b("xy"), &b("zz")));
}

#[test]
fn device_flow_polling() {
    let mut s = server(false);
    let dc = s.start_device_authorization(0, OPENID, b("WDJB-MJHT"), 1000).unwrap();
    assert_eq!(s.poll_device_code(dc, 0, 1000), Ok(PollResult::AuthorizationPending));
    assert_eq!(s.device_grants[dc].last_polled_at, Some(1000));
    assert_eq!(s.poll_device_code(dc, 0, 1002), Ok(PollResult::SlowDown));
    assert_eq!(s.device_grants[dc].last_polled_at, Some(1002));
    assert_eq!(s.poll_device_code(dc, 0, 1007), Ok(PollResult::AuthorizationPending));
    assert_eq!(s.submit_device_consent(&b("WDJB-MJHT"), 0, true, 1008), Ok(dc));
    assert_eq!(s.device_grants[dc].status, DeviceStatus::Fulfilled);
    // Too soon after the last poll: SlowDown even though the user approved.
    assert_eq!(s.poll_device_code(dc, 0, 1009), Ok(PollResult::SlowDown));
    let r = s.poll_device_code(dc, 0, 1020);
    assert_eq!(r, Ok(PollResult::Fulfilled(TokenPair { access: 0, refresh: 0 })));
    assert!(s.introspect(TokenValue::Access(0), 0, 1021).active);
    assert_eq!(s.poll_device_code(dc, 0, 1030), Err(AuthError::GrantAlreadyExchanged));
}

#[test]
fn device_consent_once_and_denial() {
    let mut s = server(false);
    let dc = s.start_device_authorization(0, OPENID, b("AAAA-BBBB"), 1000).unwrap();
    assert_eq!(s.start_device_authorization(0, OPENID, b("AAAA-BBBB"), 1001), Err(AuthError::InvalidRequest));
    assert_eq!(s.submit_device_consent(&b("AAAA-BBBB"), 0, false, 1002), Ok(dc));
    assert_eq!(s.submit_device_consent(&b("AAAA-BBBB"), 0, true, 1003), Err(AuthError::InvalidState));
    assert_eq!(s.poll_device_code(dc, 0, 1004), Ok(PollResult::AccessDenied));
    assert_eq!(s.submit_device_consent(&b("ZZZZ-ZZZZ"), 0, true, 1003), Err(AuthError::NotFound));
    assert_eq!(s.submit_device_consent(&b("AAAA-BBBB"), 9, true, 1003), Err(AuthError::NotFound));
}

#[test]
fn device_code_expiry_and_unknown() {
    let mut s = server(false);
    let dc = s.start_device_authorization(0, OPENID, b("CCCC-DDDD"), 1000).unwrap();
    assert_eq!(s.poll_device_code(dc, 0, 1900), Ok(PollResult::Expired));
    assert_eq!(s.poll_device_code(dc + 1, 0, 1900), Err(AuthError::InvalidGrant));
    assert_eq!(s.poll_device_code(dc, 3, 1900), Err(AuthError::InvalidGrant));
    // Once expired, the user code may be handed out again.
    assert_eq!(s.start_device_authorization(0, OPENID, b("CCCC-DDDD"), 1900), Ok(dc + 1));
    assert_eq!(s.start_device_authorization(5, OPENID, b("EEEE"), 1900), Err(AuthError::InvalidClient));
    assert_eq!(s.start_device_authorization(0, ADMIN, b("EEEE"), 1900), Err(AuthError::InvalidRequest));
}

#[test]
fn redirect_uri_mismatch_at_exchange() {
    let mut s = server(false);
    let code = fulfilled_grant(&mut s, None);
    let r = s.exchange_authorization_code(code, 0, &b("https://app.example/other"), None, 120);
    assert_eq!(r, Err(AuthError::InvalidGrant));
    let r = s.exchange_authorization_code(code, 0, &b("https://app.example/cb/"), None, 120);
    assert_eq!(r, Err(AuthError::InvalidGrant));
    assert_eq!(s.grants[code].status, GrantStatus::Fulfilled);
}

#[test]
fn authorization_request_validation() {
    let mut s = server(true);
    let cb = b("https://app.example/cb");
    assert_eq!(s.start_authorization(3, OPENID, cb.clone(), s256(CHALLENGE), None, None, 100), Err(AuthError::InvalidClient));
    assert_eq!(s.start_authorization(0, ADMIN, cb.clone(), s256(CHALLENGE), None, None, 100), Err(AuthError::InvalidRequest));
    assert_eq!(
        s.start_authorization(0, OPENID, b("https://evil.example/cb"), s256(CHALLENGE), None, None, 100),
        Err(AuthError::InvalidRequest)
    );
    assert_eq!(s.start_authorization(0, OPENID, cb.clone(), None, None, None, 100), Err(AuthError::InvalidRequest));
    assert_eq!(s.start_authorization(0, OPENID | EMAIL, cb, s256(CHALLENGE), None, None, 100), Ok(0));
    assert_eq!(s.grants[0].status, GrantStatus::Pending);
    assert_eq!(s.grants[0].expires_at, 700);
}

#[test]
fn fulfilment_rules() {
    let mut s = server(false);
    let cb = b("https://app.example/cb");
    let g = s.start_authorization(0, OPENID, cb.clone(), None, None, None, 100).unwrap();
    assert_eq!(s.fulfill_authorization(g, 0, OPENID, false, 110), Err(AuthError::PolicyDenied));
    assert_eq!(s.grants[g].status, GrantStatus::Cancelled);
    assert_eq!(s.fulfill_authorization(g, 0, OPENID, true, 111), Err(AuthError::InvalidState));
    let g2 = s.start_authorization(0, OPENID, cb.clone(), None, None, None, 100).unwrap();
    assert_eq!(s.fulfill_authorization(g2, 0, OPENID, true, 700), Err(AuthError::InvalidState));
    assert_eq!(s.fulfill_authorization(g2, 5, OPENID, true, 110), Err(AuthError::NotFound));
    assert_eq!(s.fulfill_authorization(40, 0, OPENID, true, 110), Err(AuthError::NotFound));
    assert_eq!(s.fulfill_authorization(g2, 0, OPENID | EMAIL, true, 110), Err(AuthError::InvalidRequest));
    // A code that was never fulfilled cannot be redeemed.
    assert_eq!(s.exchange_authorization_code(g2, 0, &cb, None, 120), Err(AuthError::InvalidGrant));
}

#[test]
fn exchange_rejections() {
    let mut s = server(false);
    let cb = b("https://app.example/cb");
    let code = fulfilled_grant(&mut s, None);
    assert_eq!(s.exchange_authorization_code(code, 4, &cb, None, 120), Err(AuthError::InvalidClient));
    assert_eq!(s.exchange_authorization_code(code + 1, 0, &cb, None, 120), Err(AuthError::InvalidGrant));
    assert_eq!(s.exchange_authorization_code(code, 0, &cb, None, 700), Err(AuthError::InvalidGrant));
    let other = s.register_client(Client { scopes: OPENID, redirect_uris: vec![cb.clone()], requires_pkce: false });
    assert_eq!(s.exchange_authorization_code(code, other, &cb, None, 120), Err(AuthError::InvalidGrant));
}

#[test]
fn upstream_unknown_and_expired_state_look_alike() {
    let mut s = server(false);
    let link = s.start_link(1, b("state-abc"), b("nonce"), 1000);
    let unknown = s.handle_callback(&b("forged-state"), Some(b("subject-1")), 1010);
    let expired = s.handle_callback(&b("state-abc"), Some(b("subject-1")), 1600);
    assert_eq!(unknown, Err(AuthError::UnknownState));
    assert_eq!(expired, unknown);
    assert_eq!(s.links[link].status, LinkStatus::AuthorizeStarted);
}

#[test]
fn upstream_link_lifecycle() {
    let mut s = server(false);
    let link = s.start_link(1, b("state-abc"), b("nonce"), 1000);
    assert_eq!(s.find_link_by_state(&b("state-abc"), 1001), Some(link));
    assert_eq!(s.handle_callback(&b("state-abc"), Some(b("subject-1")), 1010), Ok(link));
    assert_eq!(s.links[link].status, LinkStatus::CallbackReceived);
    assert_eq!(s.links[link].subject, b("subject-1"));
    // A state is good for one callback only.
    assert_eq!(s.handle_callback(&b("state-abc"), Some(b("subject-1")), 1011), Err(AuthError::UnknownState));
    let session = s.complete_link(link, LinkTarget::NewUser, 1020).unwrap();
    assert_eq!(s.user_count, 2);
    assert_eq!(s.sessions[session].user_id, 1);
    assert_eq!(s.links[link].status, LinkStatus::Linked);
    assert_eq!(s.links[link].user_id, Some(1));
    assert_eq!(s.complete_link(link, LinkTarget::Existing(0), 1021), Err(AuthError::InvalidState));

    // The same subject cannot be bound to another user.
    let again = s.start_link(1, b("state-def"), b("nonce"), 1030);
    assert_eq!(s.handle_callback(&b("state-def"), Some(b("subject-1")), 1031), Ok(again));
    assert_eq!(s.complete_link(again, LinkTarget::Existing(0), 1032), Err(AuthError::SubjectAlreadyLinked));
    assert_eq!(s.complete_link(again, LinkTarget::Existing(9), 1032), Err(AuthError::NotFound));
    assert!(s.complete_link(again, LinkTarget::Existing(1), 1032).is_ok());
    assert_eq!(s.complete_link(77, LinkTarget::NewUser, 1032), Err(AuthError::NotFound));
}

#[test]
fn upstream_provider_error_fails_link() {
    let mut s = server(false);
    let link = s.start_link(2, b("s"), b("n"), 1000);
    assert_eq!(s.handle_callback(&b("s"), None, 1001), Err(AuthError::UpstreamProviderError));
    assert_eq!(s.links[link].status, LinkStatus::Failed);
    assert_eq!(s.complete_link(link, LinkTarget::NewUser, 1002), Err(AuthError::InvalidState));
}

#[test]
fn compat_login_refresh_twice_replays() {
    let mut s = server(false);
    let compat = s.compat_login(7, 0, true, 1000).unwrap();
    let first = s.compat_sessions[compat];
    assert_eq!(first.user_id, 0);
    assert_eq!(s.tokens.access[first.access_token].scopes, COMPAT_SCOPES);
    assert_eq!(s.tokens.access[first.access_token].client_id, COMPAT_CLIENT);
    let next = s.compat_refresh(first.refresh_token, 1010).unwrap();
    assert_eq!(next, TokenPair { access: 1, refresh: 1 });
    assert_eq!(s.compat_sessions[compat].refresh_token, next.refresh);
    assert_eq!(s.compat_sessions[compat].access_token, next.access);
    assert_eq!(s.compat_refresh(first.refresh_token, 1020), Err(AuthError::TokenReplay));
    assert!(s.tokens.refresh[next.refresh].revoked);
    assert_eq!(s.compat_refresh(next.refresh, 1030), Err(AuthError::TokenNotFound));
}

#[test]
fn compat_login_and_logout() {
    let mut s = server(false);
    assert_eq!(s.compat_login(7, 0, false, 1000), Err(AuthError::InvalidRequest));
    assert_eq!(s.compat_login(7, 3, true, 1000), Err(AuthError::NotFound));
    let compat = s.compat_login(7, 0, true, 1000).unwrap();
    let c = s.compat_sessions[compat];
    assert_eq!(s.compat_logout(compat), Ok(()));
    assert!(s.compat_sessions[compat].terminated);
    assert!(!s.sessions[c.session_id].active);
    assert!(s.tokens.access[c.access_token].revoked);
    assert!(s.tokens.refresh[c.refresh_token].revoked);
    assert_eq!(s.compat_logout(compat), Ok(()));
    assert_eq!(s.compat_logout(compat + 1), Err(AuthError::NotFound));
}

#[test]
fn refresh_errors() {
    let mut s = server(false);
    let pair = s.tokens.issue(0, 0, OPENID | EMAIL, 1000, 300, 500);
    assert_eq!(s.tokens.refresh(9, None, 1001, 300, 500), Err(AuthError::TokenNotFound));
    assert_eq!(s.tokens.refresh(pair.refresh, Some(OPENID | ADMIN), 1001, 300, 500), Err(AuthError::ScopeEscalation));
    assert_eq!(s.tokens.refresh(pair.refresh, None, 1500, 300, 500), Err(AuthError::TokenExpired));
    let narrowed = s.tokens.refresh(pair.refresh, Some(OPENID), 1001, 300, 500).unwrap();
    assert_eq!(s.tokens.access[narrowed.access].scopes, OPENID);
    assert_eq!(s.tokens.refresh[narrowed.refresh].expires_at, 1501);
    s.tokens.revoke(TokenValue::Refresh(narrowed.refresh));
    assert_eq!(s.tokens.refresh(narrowed.refresh, None, 1002, 300, 500), Err(AuthError::TokenNotFound));
}

#[test]
fn small_helpers() {
    assert_eq!(deadline(10, 5), 15);
    assert_eq!(deadline(u64::MAX - 1, 5), u64::MAX);
    assert!(scopes_within(OPENID, OPENID | EMAIL));
    assert!(scopes_within(0, 0));
    assert!(!scopes_within(ADMIN, OPENID | EMAIL));
    assert!(bytes_eq(&b("abc"), &b("abc")));
    assert!(!bytes_eq(&b("abc"), &b("abd")));
    assert!(!bytes_eq(&b("abc"), &b("ab")));
    assert!(bytes_eq(&Vec::new(), &Vec::new()));
}

#[test]
fn consent_narrows_scopes_and_keeps_request_values() {
    let mut s = server(false);
    let cb = b("https://app.example/cb");
    let g = s
        .start_authorization(0, OPENID | EMAIL, cb.clone(), None, Some(b("xyz")), Some(b("n-0S6")), 100)
        .unwrap();
    assert_eq!(s.grants[g].state, Some(b("xyz")));
    assert_eq!(s.grants[g].nonce, Some(b("n-0S6")));
    assert_eq!(s.fulfill_authorization(g, 0, EMAIL, true, 110), Ok(()));
    assert_eq!(s.grants[g].scopes, EMAIL);
    let pair = s.exchange_authorization_code(g, 0, &cb, None, 120).unwrap();
    assert_eq!(s.tokens.access[pair.access].scopes, EMAIL);
    assert_eq!(s.introspect(TokenValue::Access(pair.access), 0, 130).scopes, EMAIL);
}

#[test]
fn compat_refresh_refuses_oauth_tokens() {
    let mut s = server(false);
    let pair = s.tokens.issue(0, 0, OPENID, 1000, 300, 86400);
    assert_eq!(s.compat_refresh(pair.refresh, 1001), Err(AuthError::TokenNotFound));
    assert_eq!(s.compat_refresh(55, 1001), Err(AuthError::TokenNotFound));
    assert!(!s.tokens.refresh[pair.refresh].used);
}
