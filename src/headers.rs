//! Response headers, as held by the `http` crate.

use vstd::prelude::*;

verus! {

/// `http::HeaderMap`, the header collection of a response; opaque here.
#[verifier::external_type_specification]
#[verifier::external_body]
#[verifier::reject_recursive_types(T)]
pub struct ExHeaderMap<T>(http::HeaderMap<T>);

/// `http::HeaderValue`, the bytes of one header field; opaque here.
#[verifier::external_type_specification]
#[verifier::external_body]
pub struct ExHeaderValue(http::HeaderValue);

/// `http::header::ToStrError`, the failure to read a header value as text.
#[verifier::external_type_specification]
#[verifier::external_body]
pub struct ExToStrError(http::header::ToStrError);

/// What a header map holds: for each (lower-case) field name, the byte strings of
/// its values in the order in which they were added.
pub uninterp spec fn header_fields(h: http::HeaderMap) -> Map<Seq<char>, Seq<Seq<u8>>>;

/// The bytes that a header value holds.
pub uninterp spec fn header_value_bytes(v: http::HeaderValue) -> Seq<u8>;

/// The name of the field that carries an authentication challenge.
pub open spec fn challenge_field() -> Seq<char> {
    "www-authenticate"@
}

/// A byte that `http` accepts in a header value read as text: visible ASCII or a tab.
pub open spec fn is_visible_ascii(b: u8) -> bool {
    (32 <= b && b < 127) || b == 9
}

/// The characters of a string of ASCII bytes.
pub open spec fn ascii_chars(bytes: Seq<u8>) -> Seq<char> {
    bytes.map_values(|b: u8| b as char)
}

/// Relies on `http::HeaderMap::get`: the first value of the `www-authenticate`
/// field, if the map holds one.
#[verifier::external_body]
pub(crate) fn get_www_authenticate(h: &http::HeaderMap) -> (r: Option<&http::HeaderValue>)
    ensures
        r is Some <==> (header_fields(*h).contains_key(challenge_field())
            && header_fields(*h)[challenge_field()].len() > 0),
        r is Some ==> header_value_bytes(*r->Some_0) == header_fields(*h)[challenge_field()][0],
{
    h.get("www-authenticate")
}

/// Relies on `http::HeaderValue::to_str`: the value as text when every byte is
/// visible ASCII or a tab, and an error otherwise.
#[verifier::external_body]
pub(crate) fn header_text(v: &http::HeaderValue) -> (r: Result<&str, http::header::ToStrError>)
    ensures
        r is Ok <==> (forall|i: int| 0 <= i < header_value_bytes(*v).len()
            ==> is_visible_ascii(#[trigger] header_value_bytes(*v)[i])),
        r is Ok ==> r->Ok_0@ == ascii_chars(header_value_bytes(*v)),
{
    v.to_str()
}

} // verus!
