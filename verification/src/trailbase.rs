//! Trailbase token claims and the principal they describe.

use vstd::prelude::*;
use crate::auth::{AuthError, Principal};

verus! {

/// `TokenType::Auth` in Trailbase (`Unknown = 0`, `Auth = 1`, …).
pub const TRAILBASE_AUTH_TOKEN_TYPE: u8 = 1;

/// Configuration for creating a Trailbase HTTP client.
#[derive(Debug, Clone)]
pub struct TrailbaseClientConfig {
    pub base_url: String,
}

/// Payload of a Trailbase auth token.
#[derive(Debug)]
pub struct AuthTokenJwtClaims {
    pub sub: String,
    pub iat: i64,
    pub exp: i64,
    pub token_type: u8,
    pub admin: bool,
    pub mfa: bool,
    pub email: String,
    pub csrf_token: String,
}

/// The principal described by verified claims: only auth-session tokens are
/// accepted; subject, email, admin and MFA flags and CSRF token are carried over.
pub fn principal_from_claims(c: AuthTokenJwtClaims) -> (r: Result<Principal, AuthError>)
    ensures
        c.token_type != TRAILBASE_AUTH_TOKEN_TYPE ==> r == Err::<Principal, AuthError>(AuthError::WrongTokenType),
        c.token_type == TRAILBASE_AUTH_TOKEN_TYPE ==> r == Ok::<Principal, AuthError>(Principal {
            sub: c.sub,
            email: c.email,
            is_admin: c.admin,
            mfa: c.mfa,
            csrf_token: c.csrf_token,
        }),
{
    if c.token_type != TRAILBASE_AUTH_TOKEN_TYPE {
        return Err(AuthError::WrongTokenType);
    }
    Ok(Principal { sub: c.sub, email: c.email, is_admin: c.admin, mfa: c.mfa, csrf_token: c.csrf_token })
}

/// Verification result of a token from its decoding: a token that failed signature,
/// expiry or shape checks is invalid, a decoded one is judged by its claims.
pub fn principal_from_decoded(decoded: Option<AuthTokenJwtClaims>) -> (r: Result<Principal, AuthError>)
    ensures
        decoded is None ==> r == Err::<Principal, AuthError>(AuthError::InvalidToken),
        decoded matches Some(c) ==> (c.token_type != TRAILBASE_AUTH_TOKEN_TYPE ==> r == Err::<Principal, AuthError>(AuthError::WrongTokenType)),
        decoded matches Some(c) ==> (c.token_type == TRAILBASE_AUTH_TOKEN_TYPE ==> r == Ok::<Principal, AuthError>(Principal {
            sub: c.sub,
            email: c.email,
            is_admin: c.admin,
            mfa: c.mfa,
            csrf_token: c.csrf_token,
        })),
{
    match decoded {
        None => Err(AuthError::InvalidToken),
        Some(c) => principal_from_claims(c),
    }
}

} // verus!
