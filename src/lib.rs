//! Digest access authentication (RFC 2617 / RFC 7616) as a single retry around an
//! HTTP request: the first response is inspected, a `WWW-Authenticate: Digest`
//! challenge is answered, and the request is sent once more with the credential.
//!
//! The library holds the parts that decide and compute: reading the challenge out
//! of the response headers, answering it, and the negotiation that says what to
//! do after each step. Sending requests is left to the caller.

pub mod digest;
pub mod challenge;
pub mod error;
pub mod headers;
pub mod negotiation;
