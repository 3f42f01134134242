//! Authentication domain: [`Principal`], [`Role`], [`AuthError`] and the
//! [`AccessTokenVerifier`] trait.

use vstd::prelude::*;

pub mod single_token;
pub mod test_utils;

verus! {

/// Application role derived from the access token.
#[derive(Debug, Clone, Copy, PartialEq, Eq, Structural)]
pub enum Role {
    User,
    Admin,
}

/// Authenticated subject derived from a validated access token.
#[derive(Debug, PartialEq, Eq)]
pub struct Principal {
    /// Stable subject identifier.
    pub sub: String,
    pub email: String,
    pub is_admin: bool,
    pub mfa: bool,
    pub csrf_token: String,
}

impl Clone for Principal {
    fn clone(&self) -> (r: Self)
        ensures
            r == *self,
    {
        Principal {
            sub: self.sub.clone(),
            email: self.email.clone(),
            is_admin: self.is_admin,
            mfa: self.mfa,
            csrf_token: self.csrf_token.clone(),
        }
    }
}

/// The role a principal has: `Admin` exactly when it is an admin.
pub open spec fn role_of(p: Principal) -> Role {
    if p.is_admin {
        Role::Admin
    } else {
        Role::User
    }
}

impl Principal {
    /// Maps [`Principal::is_admin`] to [`Role::Admin`] or [`Role::User`].
    pub fn role(&self) -> (r: Role)
        ensures
            r == role_of(*self),
    {
        if self.is_admin {
            Role::Admin
        } else {
            Role::User
        }
    }
}

/// Errors from access-token verification.
#[derive(Debug, Clone, Copy, PartialEq, Eq, Structural)]
pub enum AuthError {
    InvalidToken,
    WrongTokenType,
    MalformedAuthorization,
}

/// Verifies a raw token string (without the `Bearer ` prefix).
pub trait AccessTokenVerifier {
    /// Whether `r` is an answer this verifier may give for `token`. A verifier that
    /// does not describe its answers may give any of them.
    open spec fn answers(&self, token: Seq<char>, r: Result<Principal, AuthError>) -> bool {
        true
    }

    fn verify_bearer_token(&self, token: &str) -> (r: Result<Principal, AuthError>)
        ensures
            self.answers(token@, r);
}

} // verus!
