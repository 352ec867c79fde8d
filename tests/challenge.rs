use diqwest::challenge::{clone_request_builder, get_answer, parse_digest_auth_header, RequestParts};
use diqwest::error::Error;
use digest_auth::Qop;
use http::header::{HeaderMap, HeaderValue};

const RFC_CHALLENGE: &str = "Digest realm=\"testrealm@host.com\",qop=\"auth,auth-int\",nonce=\"dcd98b7102dd2f0e8b11d0f600bfb0c093\",opaque=\"5ccc069c403ebaf9f0171e9517f40e41\"";

fn headers_with(name: &str, value: HeaderValue) -> HeaderMap {
    let mut header = HeaderMap::new();
    header.insert(http::header::HeaderName::from_bytes(name.as_bytes()).unwrap(), value);
    header
}

fn rfc_headers() -> HeaderMap {
    headers_with("www-authenticate", HeaderValue::from_static(RFC_CHALLENGE))
}

#[test]
fn rfc_2617_example_gives_its_response() {
    let answer = parse_digest_auth_header(
        &rfc_headers(), "/dir/index.html", "GET", None, "Mufasa", "Circle Of Life", Some("0a4f113b"),
    )
    .unwrap();
    assert_eq!(answer.response, "6629fae49393a05397450978507c4ef1");
    assert_eq!(
        answer.to_header_string(),
        "Digest username=\"Mufasa\", realm=\"testrealm@host.com\", nonce=\"dcd98b7102dd2f0e8b11d0f600bfb0c093\", uri=\"/dir/index.html\", qop=auth, nc=00000001, cnonce=\"0a4f113b\", response=\"6629fae49393a05397450978507c4ef1\", opaque=\"5ccc069c403ebaf9f0171e9517f40e41\", algorithm=MD5"
    );
}

#[test]
fn answer_carries_challenge_fields_back() {
    let answer =
        parse_digest_auth_header(&rfc_headers(), "/a?b=c", "GET", None, "user", "pw", None).unwrap();
    assert_eq!(answer.realm, "testrealm@host.com");
    assert_eq!(answer.nonce, "dcd98b7102dd2f0e8b11d0f600bfb0c093");
    assert_eq!(answer.opaque, Some("5ccc069c403ebaf9f0171e9517f40e41".to_string()));
    assert_eq!(answer.uri, "/a?b=c");
    assert_eq!(answer.username, "user");
    assert_eq!(answer.nc, 1);
    assert_eq!(answer.qop, Some(Qop::AUTH));
    assert!(answer.cnonce.is_some());
}

#[test]
fn uri_is_the_path_and_query_given() {
    let a = parse_digest_auth_header(&rfc_headers(), "/x/y?z=1", "GET", None, "u", "p", Some("c")).unwrap();
    let b = parse_digest_auth_header(&rfc_headers(), "/x/y?z=1", "GET", None, "u", "p", Some("c")).unwrap();
    assert_eq!(a.uri, "/x/y?z=1");
    assert_eq!(a.to_header_string(), b.to_header_string());
}

#[test]
fn body_selects_auth_int() {
    let answer = parse_digest_auth_header(
        &rfc_headers(), "/p", "POST", Some(b"payload".as_slice()), "u", "p", Some("c"),
    )
    .unwrap();
    assert_eq!(answer.qop, Some(Qop::AUTH_INT));
    let plain = parse_digest_auth_header(&rfc_headers(), "/p", "POST", None, "u", "p", Some("c")).unwrap();
    assert_eq!(plain.qop, Some(Qop::AUTH));
    assert_ne!(answer.response, plain.response);
}

#[test]
fn challenge_without_qop_has_no_cnonce() {
    let headers = headers_with("www-authenticate", HeaderValue::from_static("Digest realm=\"r\", nonce=\"n\""));
    let answer = parse_digest_auth_header(&headers, "/", "GET", None, "u", "p", Some("c")).unwrap();
    assert_eq!(answer.qop, None);
    assert_eq!(answer.cnonce, None);
    assert!(!answer.to_header_string().contains("cnonce"));
}

#[test]
fn same_challenge_and_cnonce_give_identical_headers() {
    let first = parse_digest_auth_header(&rfc_headers(), "/test", "GET", None, "u", "p", Some("abc")).unwrap();
    let second = parse_digest_auth_header(&rfc_headers(), "/test", "GET", None, "u", "p", Some("abc")).unwrap();
    assert_eq!(first.to_header_string(), second.to_header_string());
}

#[test]
fn drawn_cnonces_change_only_cnonce_and_response() {
    let first = parse_digest_auth_header(&rfc_headers(), "/test", "GET", None, "u", "p", None).unwrap();
    let second = parse_digest_auth_header(&rfc_headers(), "/test", "GET", None, "u", "p", None).unwrap();
    assert_ne!(first.cnonce, second.cnonce);
    assert_eq!(first.realm, second.realm);
    assert_eq!(first.nonce, second.nonce);
    assert_eq!(first.uri, second.uri);
    assert_eq!(first.nc, second.nc);
    assert_eq!(first.qop, second.qop);
    assert_eq!(first.username, second.username);
}

#[test]
fn missing_header_is_reported_as_missing() {
    let result = parse_digest_auth_header(&HeaderMap::new(), "/", "GET", None, "u", "p", None);
    assert!(matches!(result, Err(Error::AuthHeaderMissing)));
}

#[test]
fn header_name_is_found_whatever_its_case() {
    let headers = headers_with("WWW-Authenticate", HeaderValue::from_static(RFC_CHALLENGE));
    assert!(parse_digest_auth_header(&headers, "/", "GET", None, "u", "p", None).is_ok());
}

#[test]
fn first_of_several_values_is_answered() {
    let mut headers = rfc_headers();
    headers.append("www-authenticate", HeaderValue::from_static("Basic realm=\"x\""));
    let answer = parse_digest_auth_header(&headers, "/", "GET", None, "u", "p", None).unwrap();
    assert_eq!(answer.realm, "testrealm@host.com");
}

#[test]
fn non_text_header_is_a_to_str_error() {
    let headers = headers_with("www-authenticate", HeaderValue::from_bytes(b"Digest realm=\"\xe9\"").unwrap());
    let result = parse_digest_auth_header(&headers, "/", "GET", None, "u", "p", None);
    assert!(matches!(result, Err(Error::ToStr(_))));
}

#[test]
fn challenge_without_realm_is_a_digest_error() {
    let headers = headers_with("www-authenticate", HeaderValue::from_static("Digest nonce=\"n\""));
    let result = parse_digest_auth_header(&headers, "/", "GET", None, "u", "p", None);
    assert!(matches!(result, Err(Error::DigestAuth(_))));
}

#[test]
fn unknown_qop_is_a_digest_error() {
    let headers = headers_with("www-authenticate", HeaderValue::from_static("Digest realm=\"r\", nonce=\"n\", qop=\"auth-conf\""));
    let result = parse_digest_auth_header(&headers, "/", "GET", None, "u", "p", None);
    assert!(matches!(result, Err(Error::DigestAuth(_))));
}

#[test]
fn get_answer_without_challenge_is_none() {
    let parts = RequestParts { method: "GET".to_string(), path: "/test".to_string(), body: None };
    assert!(matches!(get_answer(&parts, &HeaderMap::new(), "u", "p", None), Ok(None)));
}

#[test]
fn get_answer_uses_the_parts_of_the_request() {
    let parts = RequestParts {
        method: "GET".to_string(),
        path: "/dir/index.html".to_string(),
        body: None,
    };
    let answer = get_answer(&parts, &rfc_headers(), "Mufasa", "Circle Of Life", Some("0a4f113b")).unwrap().unwrap();
    assert_eq!(answer.uri, "/dir/index.html");
    assert_eq!(answer.response, "6629fae49393a05397450978507c4ef1");
}

#[test]
fn get_answer_passes_errors_on() {
    let parts = RequestParts { method: "GET".to_string(), path: "/".to_string(), body: None };
    let headers = headers_with("www-authenticate", HeaderValue::from_static("Digest realm=\"unterminated"));
    assert!(matches!(get_answer(&parts, &headers, "u", "p", None), Err(Error::DigestAuth(_))));
}

#[test]
fn duplicate_missing_is_not_cloneable() {
    assert!(matches!(clone_request_builder::<u8>(None), Err(Error::RequestBuilderNotCloneable)));
    assert!(matches!(clone_request_builder(Some(7u8)), Ok(7)));
}

#[test]
fn messages_describe_errors() {
    assert_eq!(Error::AuthHeaderMissing.message(), "The header 'www-authenticate' is missing.");
    assert_eq!(Error::RequestBuilderNotCloneable.message(), "Request body must not be a stream.");
    let e = digest_auth::parse("Digest nonce=\"n\"").unwrap_err();
    assert!(Error::DigestAuth(e).message().contains("realm"));
}
