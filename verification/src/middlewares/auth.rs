//! Bearer-token and session-cookie extraction, and the authentication decision.

use vstd::prelude::*;
use crate::auth::{AccessTokenVerifier, AuthError, Principal};
use crate::text::{
    chars_eq_str, find_char, index_of, lemma_index_of, lemma_index_of_is, split_by, starts_with,
    string_of, sub_chars, to_chars, trim, trim_chars,
};

verus! {

/// Name of the HttpOnly session cookie that carries the access token.
pub const TB_ACCESS_TOKEN_COOKIE: &'static str = "tb_access_token";

/// The token of an `Authorization` header value: the text after a leading `Bearer`,
/// trimmed, when that is not empty.
pub open spec fn spec_parse_bearer_token(h: Seq<char>) -> Option<Seq<char>> {
    if h.len() >= 6 && h.take(6) == "Bearer"@ {
        let t = trim(h.skip(6));
        if t.len() == 0 {
            None
        } else {
            Some(t)
        }
    } else {
        None
    }
}

/// Reads the token from an `Authorization` header value.
pub fn parse_bearer_token(header_value: &str) -> (r: Option<String>)
    ensures
        r is None <==> spec_parse_bearer_token(header_value@) is None,
        r matches Some(t) ==> spec_parse_bearer_token(header_value@) == Some(t@),
{
    proof {
        reveal_strlit("Bearer");
    }
    let chars = to_chars(header_value);
    if !starts_with(&chars, "Bearer") {
        return None;
    }
    let rest = sub_chars(&chars, 6, chars.len());
    assert(rest@ =~= header_value@.skip(6));
    let t = trim_chars(&rest);
    if t.len() == 0 {
        return None;
    }
    Some(string_of(&t, 0, t.len()))
}

/// The session token of a `Cookie` header, scanning its `;`-separated parts in order:
/// a part without `=` ends the scan with nothing; a part named like the session cookie
/// with a non-empty trimmed value gives that value.
pub open spec fn cookie_scan(parts: Seq<Seq<char>>) -> Option<Seq<char>>
    decreases parts.len(),
{
    if parts.len() == 0 {
        None
    } else {
        let p = trim(parts[0]);
        let k = index_of(p, '=');
        if k < 0 {
            None
        } else {
            let value = trim(p.skip(k + 1));
            if p.take(k) == TB_ACCESS_TOKEN_COOKIE@ && value.len() > 0 {
                Some(value)
            } else {
                cookie_scan(parts.drop_first())
            }
        }
    }
}

/// The text of an optional header value.
pub open spec fn opt_view(h: Option<&str>) -> Option<Seq<char>> {
    match h {
        Some(x) => Some(x@),
        None => None,
    }
}

/// Session token carried by a `Cookie` header, if any.
pub open spec fn spec_session_jwt(cookie: Option<Seq<char>>) -> Option<Seq<char>> {
    match cookie {
        None => None,
        Some(h) => cookie_scan(split_by(h, ';')),
    }
}

proof fn lemma_split_step(s: Seq<char>, k: int)
    requires
        0 <= k <= s.len(),
        forall|i: int| 0 <= i < k ==> #[trigger] s[i] != ';',
        k < s.len() ==> s[k] == ';',
    ensures
        k == s.len() ==> split_by(s, ';') == seq![s],
        k < s.len() ==> split_by(s, ';') == seq![s.take(k)] + split_by(s.skip(k + 1), ';'),
{
    lemma_index_of_is(s, ';', k);
}

/// Reads the session token from the `Cookie` header value, if present.
pub fn session_jwt_from_cookie_header(cookie: Option<&str>) -> (r: Option<String>)
    ensures
        r is None <==> spec_session_jwt(opt_view(cookie)) is None,
        r matches Some(t) ==> spec_session_jwt(opt_view(cookie)) == Some(t@),
{
    let raw = match cookie {
        None => {
            return None;
        },
        Some(h) => h,
    };
    let chars = to_chars(raw);
    let ghost all = split_by(raw@, ';');
    let mut start: usize = 0;
    assert(chars@.skip(0) =~= chars@);
    loop
        invariant
            chars@ == raw@,
            start <= chars@.len(),
            cookie_scan(all) == cookie_scan(split_by(chars@.skip(start as int), ';')),
            all == split_by(raw@, ';'),
            spec_session_jwt(opt_view(cookie)) == cookie_scan(all),
        decreases chars@.len() - start,
    {
        let end = find_char(&chars, ';', start);
        let part = sub_chars(&chars, start, end);
        let ghost rest = chars@.skip(start as int);
        let ghost parts = split_by(rest, ';');
        proof {
            assert forall|i: int| 0 <= i < end - start implies #[trigger] rest[i] != ';' by {
                assert(rest[i] == chars@[start + i]);
            }
            if end < chars@.len() {
                assert(rest[end - start] == chars@[end as int]);
            }
            lemma_split_step(rest, end - start);
            assert(rest.take(end - start) =~= part@);
            if end == chars@.len() {
                assert(rest =~= part@);
            }
            assert(parts.len() > 0);
            assert(parts[0] == part@);
            assert(cookie_scan(all) == cookie_scan(parts));
        }
        let p = trim_chars(&part);
        let eq = find_char(&p, '=', 0);
        proof {
            lemma_index_of_is(p@, '=', eq as int);
        }
        if eq == p.len() {
            assert(cookie_scan(parts) is None);
            return None;
        }
        let name = sub_chars(&p, 0, eq);
        let raw_value = sub_chars(&p, eq + 1, p.len());
        let value = trim_chars(&raw_value);
        proof {
            assert(name@ =~= p@.take(eq as int));
            assert(raw_value@ =~= p@.skip(eq + 1));
        }
        if chars_eq_str(&name, TB_ACCESS_TOKEN_COOKIE) && value.len() > 0 {
            assert(cookie_scan(parts) == Some(value@));
            return Some(string_of(&value, 0, value.len()));
        }
        assert(cookie_scan(parts) == cookie_scan(parts.drop_first()));
        if end == chars.len() {
            assert(parts.drop_first().len() == 0);
            return None;
        }
        proof {
            assert(parts.drop_first() =~= split_by(rest.skip(end - start + 1), ';'));
            assert(rest.skip(end - start + 1) =~= chars@.skip(end + 1));
            assert((seq![rest.take(end - start)] + split_by(rest.skip(end - start + 1), ';')).drop_first()
                =~= split_by(rest.skip(end - start + 1), ';'));
        }
        start = end + 1;
    }
}

/// The token a request carries: from the `Authorization` header when present (its
/// absence of a token is an error there), else from the session cookie.
pub open spec fn spec_jwt_from_request(authorization: Option<Seq<char>>, cookie: Option<Seq<char>>) -> Result<Seq<char>, Seq<char>> {
    match authorization {
        Some(h) => match spec_parse_bearer_token(h) {
            Some(t) => Ok(t),
            None => Err("Malformed bearer token"@),
        },
        None => match spec_session_jwt(cookie) {
            Some(t) => Ok(t),
            None => Err("Missing authorization header or session cookie"@),
        },
    }
}

/// Extracts the token from the `Authorization` header or the session cookie; the
/// error is the rejection reason.
pub fn jwt_from_request(authorization: Option<&str>, cookie: Option<&str>) -> (r: Result<String, &'static str>)
    ensures
        r matches Ok(t) ==> spec_jwt_from_request(opt_view(authorization), opt_view(cookie)) == Ok::<Seq<char>, Seq<char>>(t@),
        r matches Err(e) ==> spec_jwt_from_request(opt_view(authorization), opt_view(cookie)) == Err::<Seq<char>, Seq<char>>(e@),
{
    match authorization {
        Some(h) => match parse_bearer_token(h) {
            Some(t) => Ok(t),
            None => Err("Malformed bearer token"),
        },
        None => match session_jwt_from_cookie_header(cookie) {
            Some(t) => Ok(t),
            None => Err("Missing authorization header or session cookie"),
        },
    }
}

/// Decision on a request once the verifier has judged its token: the verified
/// principal, or rejection as an invalid or expired token.
pub fn verified_outcome(verified: Result<Principal, AuthError>) -> (r: Result<Principal, &'static str>)
    ensures
        verified matches Ok(p) ==> r == Ok::<Principal, &'static str>(p),
        verified is Err ==> (r matches Err(e) && e@ == "Invalid or expired token"@),
{
    proof {
        reveal_strlit("Invalid or expired token");
    }
    match verified {
        Ok(p) => Ok(p),
        Err(_) => Err("Invalid or expired token"),
    }
}

/// The principal a verifier's answer grants, if any.
pub open spec fn verified_principal(v: Result<Principal, AuthError>) -> Option<Principal> {
    match v {
        Ok(p) => Some(p),
        Err(_) => None,
    }
}

/// Reads and verifies the principal of a request when it carries a token; `None` when
/// it carries none or the verifier refuses it.
pub fn extract_optional_principal_from_headers<V: AccessTokenVerifier>(authorization: Option<&str>, cookie: Option<&str>, verifier: &V) -> (r: Option<Principal>)
    ensures
        spec_jwt_from_request(opt_view(authorization), opt_view(cookie)) is Err ==> r is None,
        spec_jwt_from_request(opt_view(authorization), opt_view(cookie)) matches Ok(t) ==> exists|v: Result<Principal, AuthError>|
            verifier.answers(t, v) && r == verified_principal(v),
{
    match jwt_from_request(authorization, cookie) {
        Err(_) => None,
        Ok(jwt) => {
            let v = verifier.verify_bearer_token(jwt.as_str());
            let ghost answer = v;
            let r = match verified_outcome(v) {
                Ok(p) => Some(p),
                Err(_) => None,
            };
            assert(verifier.answers(jwt@, answer) && r == verified_principal(answer));
            r
        },
    }
}

/// `r` is the request decision for the verifier's answer `v`: the granted principal,
/// or rejection as an invalid or expired token.
pub open spec fn request_decision(r: Result<Principal, &'static str>, v: Result<Principal, AuthError>) -> bool {
    match v {
        Ok(p) => r == Ok::<Principal, &'static str>(p),
        Err(_) => r matches Err(e) && e@ == "Invalid or expired token"@,
    }
}

/// Authentication decision of the request middleware: the principal, or the reason
/// the request is rejected with 401.
pub fn authenticate_request<V: AccessTokenVerifier>(authorization: Option<&str>, cookie: Option<&str>, verifier: &V) -> (r: Result<Principal, &'static str>)
    ensures
        spec_jwt_from_request(opt_view(authorization), opt_view(cookie)) matches Err(reason) ==> (r matches Err(e) && e@ == reason),
        spec_jwt_from_request(opt_view(authorization), opt_view(cookie)) matches Ok(t) ==> exists|v: Result<Principal, AuthError>|
            verifier.answers(t, v) && request_decision(r, v),
{
    match jwt_from_request(authorization, cookie) {
        Err(reason) => Err(reason),
        Ok(jwt) => {
            let v = verifier.verify_bearer_token(jwt.as_str());
            let ghost answer = v;
            let r = verified_outcome(v);
            assert(verifier.answers(jwt@, answer) && request_decision(r, answer));
            r
        },
    }
}

/// A token without surrounding whitespace, sent as `Bearer <token>`, is read back
/// unchanged.
pub proof fn lemma_bearer_roundtrip(t: Seq<char>)
    requires
        t.len() > 0,
        !crate::text::is_whitespace(t[0]),
        !crate::text::is_whitespace(t.last()),
    ensures
        spec_parse_bearer_token("Bearer "@ + t) == Some(t),
{
    reveal_strlit("Bearer ");
    reveal_strlit("Bearer");
    let h = "Bearer "@ + t;
    assert(h.take(6) =~= "Bearer"@);
    let rest = h.skip(6);
    assert(rest =~= seq![' '] + t);
    assert(rest.drop_first() =~= t);
    assert(crate::text::is_whitespace(rest[0]));
    assert(crate::text::trim_start_index(rest) == 1 + crate::text::trim_start_index(t));
    crate::text::lemma_trim_of_trimmed(t);
    assert(crate::text::trim_start_index(t) == 0);
    assert(crate::text::trim_end_index(t) == t.len());
    assert(crate::text::trim_end_index(rest) == rest.len());
    assert(trim(rest) =~= t);
}

/// When an `Authorization` header is present, it alone decides the token: the
/// session cookie is not consulted, even when the header is malformed.
pub proof fn lemma_authorization_header_takes_precedence(h: Seq<char>, c1: Option<Seq<char>>, c2: Option<Seq<char>>)
    ensures
        spec_jwt_from_request(Some(h), c1) == spec_jwt_from_request(Some(h), c2),
{
}

/// Without an `Authorization` header, a request whose cookie header is absent is
/// rejected as carrying no credentials.
pub proof fn lemma_no_credentials_rejected()
    ensures
        spec_jwt_from_request(None, None) == Err::<Seq<char>, Seq<char>>("Missing authorization header or session cookie"@),
{
}

} // verus!
