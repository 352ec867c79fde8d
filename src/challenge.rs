//! Reading a digest challenge out of response headers and answering it.

use vstd::prelude::*;

use crate::digest::{
    answerable_qop, answers_challenge, digest_answer, opt_bytes, opt_str, opt_text, parse_challenge,
    parsed_challenge, respond,
};
use crate::error::Error;
use crate::headers::{
    ascii_chars, challenge_field, get_www_authenticate, header_fields, header_text,
    is_visible_ascii,
};

verus! {

/// What the negotiation reads of a built request: its method, its path and query
/// (scheme, host and port taken off), and its body where that is held in memory.
pub struct RequestParts {
    pub method: String,
    pub path: String,
    pub body: Option<Vec<u8>>,
}

/// The bytes of an optional body held in a vector.
pub open spec fn opt_vec_bytes(b: Option<Vec<u8>>) -> Option<Seq<u8>> {
    match b {
        Some(v) => Some(v@),
        None => None,
    }
}

/// The outcome of asking for a duplicate of a request: the duplicate, or
/// `RequestBuilderNotCloneable` where none could be made.
pub open spec fn duplicate_outcome<T>(copy: Option<T>) -> Result<T, Error> {
    match copy {
        Some(c) => Ok(c),
        None => Err(Error::RequestBuilderNotCloneable),
    }
}

/// Turns the outcome of duplicating a request into a result: a request whose body
/// is a stream gives no duplicate, and that is an error.
pub fn clone_request_builder<T>(copy: Option<T>) -> (r: Result<T, Error>)
    ensures
        r == duplicate_outcome(copy),
{
    match copy {
        Some(c) => Ok(c),
        None => Err(Error::RequestBuilderNotCloneable),
    }
}

/// The bytes of the first `www-authenticate` value of `h`, if it has one.
pub open spec fn www_authenticate_value(h: http::HeaderMap) -> Option<Seq<u8>> {
    if header_fields(h).contains_key(challenge_field()) && header_fields(h)[challenge_field()].len() > 0 {
        Some(header_fields(h)[challenge_field()][0])
    } else {
        None
    }
}

/// Every byte is visible ASCII or a tab.
pub open spec fn is_header_text(b: Seq<u8>) -> bool {
    forall|i: int| 0 <= i < b.len() ==> is_visible_ascii(#[trigger] b[i])
}

/// The digest challenge that `h` carries: its `www-authenticate` value is there,
/// is text, and reads as a challenge.
pub open spec fn challenge_of(h: http::HeaderMap) -> Option<digest_auth::WwwAuthenticateHeader> {
    match www_authenticate_value(h) {
        Some(b) => if is_header_text(b) { parsed_challenge(ascii_chars(b)) } else { None },
        None => None,
    }
}

/// `a` is a credential that answers `challenge` for the request and the user:
/// it has the fields that `answers_challenge` fixes, and its digest is the one
/// computed with the given client nonce, or with some client nonce where none is
/// given.
pub open spec fn is_credential(
    a: digest_auth::AuthorizationHeader,
    challenge: digest_auth::WwwAuthenticateHeader,
    method: Seq<char>,
    path: Seq<char>,
    body: Option<Seq<u8>>,
    username: Seq<char>,
    password: Seq<char>,
    cnonce: Option<Seq<char>>,
) -> bool {
    &&& answers_challenge(a, challenge, username, path, body is Some, cnonce)
    &&& match cnonce {
        Some(c) => a == digest_answer(challenge, username, password, method, path, body, c),
        None => exists|c: Seq<char>|
            a == #[trigger] digest_answer(challenge, username, password, method, path, body, c),
    }
}

/// What answering the challenge in `h` gives: which error for which header, and
/// a credential exactly when the header holds a challenge that can be answered.
pub open spec fn is_answer_outcome(
    h: http::HeaderMap,
    method: Seq<char>,
    path: Seq<char>,
    body: Option<Seq<u8>>,
    username: Seq<char>,
    password: Seq<char>,
    cnonce: Option<Seq<char>>,
    r: Result<digest_auth::AuthorizationHeader, Error>,
) -> bool {
    match www_authenticate_value(h) {
        None => r matches Err(Error::AuthHeaderMissing),
        Some(b) => if !is_header_text(b) {
            r matches Err(Error::ToStr(_))
        } else {
            match parsed_challenge(ascii_chars(b)) {
                None => r matches Err(Error::DigestAuth(_)),
                Some(p) => if !answerable_qop(p.qop) {
                    r matches Err(Error::DigestAuth(_))
                } else {
                    r is Ok && is_credential(r->Ok_0, p, method, path, body, username, password, cnonce)
                },
            }
        },
    }
}

/// Computes the `Authorization` credential that answers the challenge in
/// `header` for a request with `method`, `path` (path and query) and `body`.
/// `cnonce` fixes the client nonce; without it a random one is drawn.
pub fn parse_digest_auth_header(
    header: &http::HeaderMap,
    path: &str,
    method: &str,
    body: Option<&[u8]>,
    username: &str,
    password: &str,
    cnonce: Option<&str>,
) -> (r: Result<digest_auth::AuthorizationHeader, Error>)
    ensures
        is_answer_outcome(*header, method@, path@, opt_bytes(body), username@, password@, opt_str(cnonce), r),
{
    let value = match get_www_authenticate(header) {
        Some(v) => v,
        None => return Err(Error::AuthHeaderMissing),
    };
    let text = match header_text(value) {
        Ok(t) => t,
        Err(e) => return Err(Error::ToStr(e)),
    };
    proof {
        let b = crate::headers::header_value_bytes(*value);
        assert forall|i: int| 0 <= i < text@.len() implies (#[trigger] text@[i] as u32) < 128 by {
            assert(is_visible_ascii(b[i]));
        }
    }
    let mut prompt = match parse_challenge(text) {
        Ok(p) => p,
        Err(e) => return Err(Error::DigestAuth(e)),
    };
    match respond(&mut prompt, username, password, method, path, body, cnonce) {
        Ok(a) => Ok(a),
        Err(e) => Err(Error::DigestAuth(e)),
    }
}

/// What looking for a credential gives: nothing where the response carries no
/// `www-authenticate` field, and otherwise the outcome of answering its challenge.
pub open spec fn is_resolution(
    h: http::HeaderMap,
    parts: RequestParts,
    username: Seq<char>,
    password: Seq<char>,
    cnonce: Option<Seq<char>>,
    r: Result<Option<digest_auth::AuthorizationHeader>, Error>,
) -> bool {
    match www_authenticate_value(h) {
        None => r == Ok::<Option<digest_auth::AuthorizationHeader>, Error>(None),
        Some(_) => match r {
            Ok(Some(a)) => is_answer_outcome(h, parts.method@, parts.path@, opt_vec_bytes(parts.body),
                username, password, cnonce, Ok(a)),
            Ok(None) => false,
            Err(e) => is_answer_outcome(h, parts.method@, parts.path@, opt_vec_bytes(parts.body),
                username, password, cnonce, Err(e)),
        },
    }
}

/// Answers the challenge in `headers` for the request described by `parts`.
fn calculate_answer(
    parts: &RequestParts,
    headers: &http::HeaderMap,
    username: &str,
    password: &str,
    cnonce: Option<&str>,
) -> (r: Result<digest_auth::AuthorizationHeader, Error>)
    ensures
        is_answer_outcome(*headers, parts.method@, parts.path@, opt_vec_bytes(parts.body),
            username@, password@, opt_str(cnonce), r),
{
    let body: Option<&[u8]> = match &parts.body {
        Some(b) => Some(b.as_slice()),
        None => None,
    };
    parse_digest_auth_header(headers, parts.path.as_str(), parts.method.as_str(), body, username, password, cnonce)
}

/// Looks for a credential for the request described by `parts`, given the headers
/// of its `401` response: none where there is no challenge, an error where the
/// challenge cannot be read or answered.
pub fn get_answer(
    parts: &RequestParts,
    headers: &http::HeaderMap,
    username: &str,
    password: &str,
    cnonce: Option<&str>,
) -> (r: Result<Option<digest_auth::AuthorizationHeader>, Error>)
    ensures
        is_resolution(*headers, *parts, username@, password@, opt_str(cnonce), r),
{
    match calculate_answer(parts, headers, username, password, cnonce) {
        Ok(answer) => Ok(Some(answer)),
        Err(Error::AuthHeaderMissing) => Ok(None),
        Err(error) => Err(error),
    }
}

/// The `uri` of a credential is the path and query of the request it was computed
/// for, whatever the scheme, host and port of its URL.
pub proof fn lemma_credential_uri_is_request_path(
    h: http::HeaderMap,
    parts: RequestParts,
    username: Seq<char>,
    password: Seq<char>,
    cnonce: Option<Seq<char>>,
    a: digest_auth::AuthorizationHeader,
)
    requires
        is_resolution(h, parts, username, password, cnonce, Ok(Some(a))),
    ensures
        a.uri@ == parts.path@,
{
}

/// Answering one challenge twice, for one request and user and with one fixed
/// client nonce, gives the same outcome each time where it succeeds.
pub proof fn lemma_same_challenge_same_credential(
    h: http::HeaderMap,
    parts: RequestParts,
    username: Seq<char>,
    password: Seq<char>,
    cnonce: Seq<char>,
    r1: Result<Option<digest_auth::AuthorizationHeader>, Error>,
    r2: Result<Option<digest_auth::AuthorizationHeader>, Error>,
)
    requires
        is_resolution(h, parts, username, password, Some(cnonce), r1),
        is_resolution(h, parts, username, password, Some(cnonce), r2),
        r1 is Ok,
    ensures
        r1 == r2,
{
}

/// Answering one challenge twice, for one request and user, with a client nonce
/// drawn each time, gives two credentials that agree in every field but the client
/// nonce and the digest computed over it (and the user name, where the challenge
/// asks for it hashed).
pub proof fn lemma_drawn_cnonce_changes_only_cnonce(
    h: http::HeaderMap,
    parts: RequestParts,
    username: Seq<char>,
    password: Seq<char>,
    a1: digest_auth::AuthorizationHeader,
    a2: digest_auth::AuthorizationHeader,
)
    requires
        is_resolution(h, parts, username, password, None, Ok(Some(a1))),
        is_resolution(h, parts, username, password, None, Ok(Some(a2))),
    ensures
        a1.realm@ == a2.realm@,
        a1.nonce@ == a2.nonce@,
        opt_text(a1.opaque) == opt_text(a2.opaque),
        a1.uri@ == a2.uri@,
        a1.qop == a2.qop,
        a1.nc == a2.nc,
        a1.algorithm == a2.algorithm,
        a1.userhash == a2.userhash,
        a1.cnonce is Some <==> a2.cnonce is Some,
        !a1.userhash ==> a1.username@ == a2.username@,
{
}

} // verus!
