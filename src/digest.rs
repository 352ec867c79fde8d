//! The digest computation, as done by the `digest_auth` crate.

use digest_auth::Error as DigestError;
use vstd::prelude::*;

verus! {

/// `digest_auth::AlgorithmType`, the hash function of a challenge.
#[verifier::external_type_specification]
pub struct ExAlgorithmType(digest_auth::AlgorithmType);

/// `digest_auth::Algorithm`, a hash function and its `-sess` flag.
#[verifier::external_type_specification]
pub struct ExAlgorithm(digest_auth::Algorithm);

/// `digest_auth::Qop`, a quality of protection.
#[verifier::external_type_specification]
pub struct ExQop(digest_auth::Qop);

/// `digest_auth::Charset`, the character set a server declares.
#[verifier::external_type_specification]
pub struct ExCharset(digest_auth::Charset);

/// `digest_auth::WwwAuthenticateHeader`, a parsed challenge; its fields are public.
#[verifier::external_type_specification]
pub struct ExWwwAuthenticateHeader(digest_auth::WwwAuthenticateHeader);

/// `digest_auth::AuthorizationHeader`, a computed credential; its fields are public.
#[verifier::external_type_specification]
pub struct ExAuthorizationHeader(digest_auth::AuthorizationHeader);

/// `DigestError`, why a challenge could not be read or answered.
#[verifier::external_type_specification]
#[verifier::external_body]
pub struct ExDigestError(DigestError);

/// The challenge that `digest_auth` reads out of a header value, if it reads one.
pub uninterp spec fn parsed_challenge(text: Seq<char>) -> Option<digest_auth::WwwAuthenticateHeader>;

/// The credential that `digest_auth` computes for a challenge (as it stands before
/// its nonce count is advanced), a request and a user, with the client nonce
/// `cnonce`.
pub uninterp spec fn digest_answer(
    challenge: digest_auth::WwwAuthenticateHeader,
    username: Seq<char>,
    password: Seq<char>,
    method: Seq<char>,
    uri: Seq<char>,
    body: Option<Seq<u8>>,
    cnonce: Seq<char>,
) -> digest_auth::AuthorizationHeader;

/// The text of an optional string.
pub open spec fn opt_text(s: Option<String>) -> Option<Seq<char>> {
    match s {
        Some(t) => Some(t@),
        None => None,
    }
}

/// The text of an optional string slice.
pub open spec fn opt_str(s: Option<&str>) -> Option<Seq<char>> {
    match s {
        Some(t) => Some(t@),
        None => None,
    }
}

/// The bytes of an optional body.
pub open spec fn opt_bytes(b: Option<&[u8]>) -> Option<Seq<u8>> {
    match b {
        Some(x) => Some(x@),
        None => None,
    }
}

/// A string of ASCII characters.
pub open spec fn is_ascii_text(s: Seq<char>) -> bool {
    forall|i: int| 0 <= i < s.len() ==> (#[trigger] s[i] as u32) < 128
}

/// The challenge offers no quality of protection (RFC 2069), or offers one that
/// can be answered.
pub open spec fn answerable_qop(offered: Option<Vec<digest_auth::Qop>>) -> bool {
    match offered {
        None => true,
        Some(v) => v@.contains(digest_auth::Qop::AUTH) || v@.contains(digest_auth::Qop::AUTH_INT),
    }
}

/// The quality of protection of the answer: `auth-int` where it is offered and a
/// body is there to protect, else `auth` where `auth` or `auth-int` is offered.
pub open spec fn chosen_qop(offered: Option<Vec<digest_auth::Qop>>, has_body: bool) -> Option<digest_auth::Qop> {
    match offered {
        None => None,
        Some(v) => if v@.contains(digest_auth::Qop::AUTH_INT) && has_body {
            Some(digest_auth::Qop::AUTH_INT)
        } else if v@.contains(digest_auth::Qop::AUTH) || v@.contains(digest_auth::Qop::AUTH_INT) {
            Some(digest_auth::Qop::AUTH)
        } else {
            None
        },
    }
}

/// `answer` answers `challenge` for a request to `uri` by `username`: it carries the
/// challenge's realm, nonce, opaque value and algorithm back, the request's path,
/// the next nonce count, and the chosen quality of protection. A client nonce is
/// there exactly when a quality of protection is, and it is `cnonce` where one was
/// given.
pub open spec fn answers_challenge(
    answer: digest_auth::AuthorizationHeader,
    challenge: digest_auth::WwwAuthenticateHeader,
    username: Seq<char>,
    uri: Seq<char>,
    has_body: bool,
    cnonce: Option<Seq<char>>,
) -> bool {
    &&& answer.realm@ == challenge.realm@
    &&& answer.nonce@ == challenge.nonce@
    &&& opt_text(answer.opaque) == opt_text(challenge.opaque)
    &&& answer.userhash == challenge.userhash
    &&& answer.algorithm == challenge.algorithm
    &&& answer.uri@ == uri
    &&& answer.nc == challenge.nc + 1
    &&& answer.qop == chosen_qop(challenge.qop, has_body)
    &&& (answer.cnonce is Some <==> answer.qop is Some)
    &&& (answer.qop is Some && cnonce is Some ==> opt_text(answer.cnonce) == cnonce)
    &&& (!challenge.userhash ==> answer.username@ == username)
}

/// Relies on `digest_auth::parse`: reads a `WWW-Authenticate` value into a
/// challenge whose nonce count starts at zero. Its parser indexes the text by
/// character count, so it is given ASCII text only.
#[verifier::external_body]
pub(crate) fn parse_challenge(text: &str) -> (r: Result<digest_auth::WwwAuthenticateHeader, DigestError>)
    requires
        is_ascii_text(text@),
    ensures
        r is Ok <==> parsed_challenge(text@) is Some,
        r is Ok ==> r->Ok_0 == parsed_challenge(text@)->Some_0,
        r is Ok ==> r->Ok_0.nc == 0,
{
    digest_auth::parse(text)
}

/// Relies on `digest_auth::WwwAuthenticateHeader::respond`: answers the challenge
/// for the request and the user, and counts one more use of its nonce. Without a
/// client nonce given, `digest_auth` draws a random one.
#[verifier::external_body]
pub(crate) fn respond(
    challenge: &mut digest_auth::WwwAuthenticateHeader,
    username: &str,
    password: &str,
    method: &str,
    uri: &str,
    body: Option<&[u8]>,
    cnonce: Option<&str>,
) -> (r: Result<digest_auth::AuthorizationHeader, DigestError>)
    requires
        old(challenge).nc < u32::MAX,
    ensures
        r is Ok <==> answerable_qop(old(challenge).qop),
        final(challenge).nc == (if r is Ok { old(challenge).nc + 1 } else { old(challenge).nc as int }),
        *final(challenge) == (digest_auth::WwwAuthenticateHeader { nc: final(challenge).nc, ..*old(challenge) }),
        r is Ok ==> answers_challenge(r->Ok_0, *old(challenge), username@, uri@, body is Some, opt_str(cnonce)),
        r is Ok && cnonce is Some ==> r->Ok_0 == digest_answer(
            *old(challenge), username@, password@, method@, uri@, opt_bytes(body), cnonce->Some_0@),
        r is Ok && cnonce is None ==> exists|c: Seq<char>| r->Ok_0 == #[trigger] digest_answer(
            *old(challenge), username@, password@, method@, uri@, opt_bytes(body), c),
{
    let mut context = digest_auth::AuthContext::new_with_method(
        username,
        password,
        uri,
        body,
        digest_auth::HttpMethod::from(method),
    );
    context.cnonce = cnonce.map(std::borrow::Cow::Borrowed);
    challenge.respond(&context)
}

} // verus!
