use vstd::prelude::*;

verus! {

/// Why an operation of the engine was refused.
#[derive(Debug, Clone, Copy, PartialEq, Eq, Structural)]
pub enum AuthError {
    /// Malformed or policy-violating input that the client can fix.
    InvalidRequest,
    /// The client is unknown.
    InvalidClient,
    /// The presented code, redirect URI or PKCE verifier does not match.
    InvalidGrant,
    /// The entity is not in the status that the transition needs.
    InvalidState,
    /// The authorization code was already redeemed.
    GrantAlreadyExchanged,
    /// The policy evaluator refused the action.
    PolicyDenied,
    /// The refresh token does not exist or was revoked.
    TokenNotFound,
    /// The refresh token is past its expiry.
    TokenExpired,
    /// The refresh token was already used: its family has been revoked.
    TokenReplay,
    /// The requested scopes are broader than those the token carries.
    ScopeEscalation,
    /// No live upstream flow carries the presented `state`.
    UnknownState,
    /// The upstream subject is already linked to another local user.
    SubjectAlreadyLinked,
    /// The upstream provider reported an error.
    UpstreamProviderError,
    /// The referenced entity does not exist.
    NotFound,
}

} // verus!
