//! Verifier that accepts a single known token.

use vstd::prelude::*;
use crate::auth::{AccessTokenVerifier, AuthError, Principal};
use crate::text::{owned, str_eq};

verus! {

/// Accepts exactly one token string and returns a fixed [`Principal`].
#[derive(Debug)]
pub struct FixedTokenVerifier {
    token: String,
    principal: Principal,
}

impl FixedTokenVerifier {
    /// The accepted token.
    pub closed spec fn token(&self) -> Seq<char> {
        self.token@
    }

    /// The principal returned for the accepted token.
    pub closed spec fn principal(&self) -> Principal {
        self.principal
    }

    /// A verifier that accepts `token` only.
    pub fn new(token: &str, principal: Principal) -> (r: Self)
        ensures
            r.token() == token@,
            r.principal() == principal,
    {
        FixedTokenVerifier { token: owned(token), principal }
    }
}

impl AccessTokenVerifier for FixedTokenVerifier {
    /// The one answer for a token: the principal for the accepted token, an invalid
    /// token otherwise.
    open spec fn answers(&self, token: Seq<char>, r: Result<Principal, AuthError>) -> bool {
        r == (if token == self.token() {
            Ok::<Principal, AuthError>(self.principal())
        } else {
            Err::<Principal, AuthError>(AuthError::InvalidToken)
        })
    }

    fn verify_bearer_token(&self, token: &str) -> (r: Result<Principal, AuthError>)
        ensures
            token@ == self.token() ==> r == Ok::<Principal, AuthError>(self.principal()),
            token@ != self.token() ==> r == Err::<Principal, AuthError>(AuthError::InvalidToken),
    {
        if str_eq(token, self.token.as_str()) {
            Ok(self.principal.clone())
        } else {
            Err(AuthError::InvalidToken)
        }
    }
}

} // verus!
