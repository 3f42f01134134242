//! Verifier that accepts known tokens mapped to fixed [`Principal`]s.

use vstd::prelude::*;
use crate::auth::{AccessTokenVerifier, AuthError, Principal};
use crate::text::{owned, str_eq};

verus! {

/// The principal of the last pair whose token is `token`, if any (later pairs replace
/// earlier ones with the same token).
pub open spec fn principal_for_token(pairs: Seq<(String, Principal)>, token: Seq<char>) -> Option<Principal>
    decreases pairs.len(),
{
    if pairs.len() == 0 {
        None
    } else if pairs.last().0@ == token {
        Some(pairs.last().1)
    } else {
        principal_for_token(pairs.drop_last(), token)
    }
}

/// Accepts configured token strings and returns the matching [`Principal`].
#[derive(Debug)]
pub struct FixedTokenVerifier {
    tokens: Vec<(String, Principal)>,
}

impl FixedTokenVerifier {
    /// The principal accepted for `token`, if any.
    pub closed spec fn lookup(&self, token: Seq<char>) -> Option<Principal> {
        principal_for_token(self.tokens@, token)
    }

    /// Single token → principal.
    pub fn new(token: &str, principal: Principal) -> (r: Self)
        ensures
            forall|t: Seq<char>| r.lookup(t) == (if t == token@ {
                Some(principal)
            } else {
                None::<Principal>
            }),
    {
        let mut tokens: Vec<(String, Principal)> = Vec::new();
        let t = owned(token);
        tokens.push((t, principal));
        let r = FixedTokenVerifier { tokens };
        assert(r.tokens@.len() == 1);
        assert(r.tokens@.last().0@ == token@);
        assert(r.tokens@.last().1 == principal);
        assert forall|q: Seq<char>| r.lookup(q) == (if q == token@ {
            Some(principal)
        } else {
            None::<Principal>
        }) by {
            assert(r.tokens@.drop_last().len() == 0);
            assert(principal_for_token(r.tokens@.drop_last(), q) is None);
        }
        r
    }

    /// Multiple tokens; when a token occurs twice, the later pair wins.
    pub fn from_pairs(pairs: Vec<(String, Principal)>) -> (r: Self)
        ensures
            forall|t: Seq<char>| r.lookup(t) == principal_for_token(pairs@, t),
    {
        FixedTokenVerifier { tokens: pairs }
    }
}

impl AccessTokenVerifier for FixedTokenVerifier {
    /// The one answer for a token: its principal when some pair carries it, an invalid
    /// token otherwise.
    open spec fn answers(&self, token: Seq<char>, r: Result<Principal, AuthError>) -> bool {
        r == match self.lookup(token) {
            Some(p) => Ok::<Principal, AuthError>(p),
            None => Err::<Principal, AuthError>(AuthError::InvalidToken),
        }
    }

    fn verify_bearer_token(&self, token: &str) -> (r: Result<Principal, AuthError>)
        ensures
            self.lookup(token@) matches Some(p) ==> r == Ok::<Principal, AuthError>(p),
            self.lookup(token@) is None ==> r == Err::<Principal, AuthError>(AuthError::InvalidToken),
    {
        let mut i: usize = self.tokens.len();
        assert(self.tokens@.take(i as int) =~= self.tokens@);
        while i > 0
            invariant
                i <= self.tokens@.len(),
                principal_for_token(self.tokens@, token@) == principal_for_token(self.tokens@.take(i as int), token@),
            decreases i,
        {
            let ghost pre = self.tokens@.take(i as int);
            assert(pre.drop_last() =~= self.tokens@.take(i - 1));
            if str_eq(self.tokens[i - 1].0.as_str(), token) {
                return Ok(self.tokens[i - 1].1.clone());
            }
            i = i - 1;
        }
        Err(AuthError::InvalidToken)
    }
}

/// When several pairs carry the same token, the last one decides what the token
/// maps to; pairs for other tokens do not matter.
pub proof fn lemma_later_pair_wins(pairs: Seq<(String, Principal)>, last: (String, Principal), token: Seq<char>)
    ensures
        last.0@ == token ==> principal_for_token(pairs.push(last), token) == Some(last.1),
        last.0@ != token ==> principal_for_token(pairs.push(last), token) == principal_for_token(pairs, token),
{
    assert(pairs.push(last).drop_last() =~= pairs);
}

/// A verifier holding no pairs accepts no token.
pub proof fn lemma_no_pairs_no_tokens(token: Seq<char>)
    ensures
        principal_for_token(Seq::empty(), token) is None,
{
}

} // verus!
