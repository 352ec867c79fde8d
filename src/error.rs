//! Why a negotiation failed.

use digest_auth::Error as DigestError;
use reqwest::Error as TransportError;
use vstd::prelude::*;

verus! {

/// `reqwest::Error`, a failure of the transport or of building a request; opaque here.
#[verifier::external_type_specification]
#[verifier::external_body]
pub struct ExReqwestError(TransportError);

/// Why sending with digest authentication failed.
#[derive(Debug)]
pub enum Error {
    /// The transport failed, or a request could not be built.
    Reqwest(TransportError),
    /// The challenge could not be read or answered.
    DigestAuth(DigestError),
    /// The `www-authenticate` value is not visible ASCII text.
    ToStr(http::header::ToStrError),
    /// The response carries no `www-authenticate` field.
    AuthHeaderMissing,
    /// The request cannot be duplicated, as its body is a stream.
    RequestBuilderNotCloneable,
}

impl Error {
    /// A description of the error for people: the outside error's own where it
    /// wraps one.
    pub fn message(&self) -> (r: String)
        ensures
            self is AuthHeaderMissing ==> r@ == "The header 'www-authenticate' is missing."@,
            self is RequestBuilderNotCloneable ==> r@ == "Request body must not be a stream."@,
    {
        match self {
            Error::Reqwest(e) => e.to_string(),
            Error::DigestAuth(e) => e.to_string(),
            Error::ToStr(e) => e.to_string(),
            Error::RequestBuilderNotCloneable => "Request body must not be a stream.".to_string(),
            Error::AuthHeaderMissing => "The header 'www-authenticate' is missing.".to_string(),
        }
    }
}

} // verus!
