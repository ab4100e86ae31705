//! Grant and token lifecycle engine of an OAuth2 / OpenID Connect
//! authorization server: authorization-code and device-code grants, token
//! minting and rotation with replay detection, upstream identity-provider
//! linking, and the legacy login bridge.

mod compat;
mod device;
mod error;
mod grant;
mod laws;
mod model;
mod pkce;
mod tokens;
mod upstream;

pub use compat::{first_compat_with_refresh, is_compat_refresh, COMPAT_CLIENT, COMPAT_SCOPES};
pub use device::{
    consented, device_start_check, first_live_user_code, live_user_code_at, poll_outcome,
    polled_at, polled_too_soon, user_code_live, PollOutcome, PollResult,
};
pub use error::AuthError;
pub use grant::{
    exchange_check, exchanged, fulfill_check, start_check, uri_registered, verifier_view,
    with_status,
};
pub use laws::{
    device_poll_answers, exchange_at_most_once, issued_pair_introspects_active, pkce_s256_decides,
    refresh_twice_replays, replay_revokes_family, revoked_introspects_inactive,
};
pub use model::{
    deadline, deadline_of, scopes_within, scopes_within_spec, AccessToken, AuthServer,
    AuthorizationGrant, Client, CompatSession, DeviceCodeGrant, DeviceStatus, GrantStatus,
    Lifetimes, LinkStatus, RefreshToken, Session, TokenStore, UpstreamLink,
};
pub use model::{same_but_compat, same_but_devices_tokens, same_but_grants_tokens, same_but_links_sessions};
pub use pkce::{
    base64url_of, bytes_eq, pkce_accepts, s256_challenge, sha256_of, verifier_matches,
    verify_pkce, PkceChallenge, PkceMethod,
};
pub use tokens::{
    access_active, family_revoked, family_revoked_access, family_revoked_refresh, inactive,
    introspection_of, minted_access, minted_refresh, refresh_active, refresh_check, revoked_in, rotated,
    rotated_scopes, Introspection, TokenPair, TokenValue,
};
pub use upstream::{
    complete_check, first_live_state, live_state_at, state_live, subject_taken, target_user,
    LinkTarget,
};
