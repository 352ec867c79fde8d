//! The negotiation: what to do after each step of sending a request with digest
//! authentication.
//!
//! The caller runs it. It calls `start`, then performs each `Action` it is given
//! and reports the outcome: `on_response` with the status of a response,
//! `on_described` with the headers of the first response and the parts of a
//! freshly built duplicate, `on_failure` when a duplicate, a build or a
//! transmission fails. It stops at `ReturnFirst`, `ReturnSecond` or `Fail`.

use vstd::prelude::*;

use crate::challenge::{
    challenge_of, duplicate_outcome, get_answer, is_credential, is_resolution, opt_vec_bytes, www_authenticate_value,
    RequestParts,
};
use crate::digest::{answerable_qop, opt_text};
use crate::error::Error;

verus! {

/// The status code with which a server asks for authentication.
pub const UNAUTHORIZED: u16 = 401;

/// Where a negotiation stands.
#[derive(Debug, PartialEq, Eq, Structural)]
pub enum Stage {
    /// Nothing sent yet.
    Ready,
    /// The first duplicate is on its way.
    AwaitingFirst,
    /// The first response was a `401`; the request's parts are awaited.
    Challenged,
    /// The duplicate with the credential is on its way.
    AwaitingSecond,
    /// An answer was given; nothing more is done.
    Finished,
}

/// What the caller is to do next.
#[derive(Debug)]
pub enum Action {
    /// Send a fresh duplicate of the request, with this credential as its
    /// `Authorization` field where there is one.
    Transmit(Option<digest_auth::AuthorizationHeader>),
    /// Build a fresh duplicate of the request and report its parts.
    Describe,
    /// Hand the first response to the caller, as it came.
    ReturnFirst,
    /// Hand the second response to the caller, as it came.
    ReturnSecond,
    /// Give up with this error.
    Fail(Error),
}

/// One negotiation: the user's credentials, an optional fixed client nonce, the
/// stage, and how many responses have come back.
#[derive(Debug)]
pub struct Negotiation {
    pub username: String,
    pub password: String,
    pub cnonce: Option<String>,
    pub stage: Stage,
    pub transmissions: u8,
}

impl Negotiation {
    /// The number of responses agrees with the stage: none before the first one,
    /// one while the challenge is answered, at most two in all.
    pub open spec fn wf(self) -> bool {
        match self.stage {
            Stage::Ready | Stage::AwaitingFirst => self.transmissions == 0,
            Stage::Challenged | Stage::AwaitingSecond => self.transmissions == 1,
            Stage::Finished => self.transmissions <= 2,
        }
    }

    /// The negotiation after `start`, and the action it gives.
    pub open spec fn after_start(self) -> (Negotiation, Action) {
        (Negotiation { stage: Stage::AwaitingFirst, ..self }, Action::Transmit(None))
    }

    /// The negotiation after a response with `status`, and the action it gives: a
    /// first response is returned unless it is a `401`; a second one is returned
    /// whatever its status.
    pub open spec fn after_response(self, status: u16) -> (Negotiation, Action) {
        if self.stage == Stage::AwaitingFirst && status == UNAUTHORIZED {
            (Negotiation { stage: Stage::Challenged, transmissions: 1, ..self }, Action::Describe)
        } else if self.stage == Stage::AwaitingFirst {
            (Negotiation { stage: Stage::Finished, transmissions: 1, ..self }, Action::ReturnFirst)
        } else {
            (Negotiation { stage: Stage::Finished, transmissions: 2, ..self }, Action::ReturnSecond)
        }
    }

    /// The negotiation after a failure, and the action it gives: the error ends it.
    pub open spec fn after_failure(self, e: Error) -> (Negotiation, Action) {
        (Negotiation { stage: Stage::Finished, ..self }, Action::Fail(e))
    }

    /// The negotiation after looking for a credential, and the action it gives: a
    /// credential is sent, no challenge passes the first response through, an
    /// error ends it.
    pub open spec fn after_resolution(
        self,
        res: Result<Option<digest_auth::AuthorizationHeader>, Error>,
    ) -> (Negotiation, Action) {
        match res {
            Ok(Some(a)) => (Negotiation { stage: Stage::AwaitingSecond, ..self }, Action::Transmit(Some(a))),
            Ok(None) => (Negotiation { stage: Stage::Finished, ..self }, Action::ReturnFirst),
            Err(e) => (Negotiation { stage: Stage::Finished, ..self }, Action::Fail(e)),
        }
    }

    /// The credentials and client nonce with which challenges are answered.
    pub open spec fn same_user(self, other: Negotiation) -> bool {
        &&& self.username@ == other.username@
        &&& self.password@ == other.password@
        &&& opt_text(self.cnonce) == opt_text(other.cnonce)
    }

    /// A negotiation for `username` and `password`, with a random client nonce.
    pub fn new(username: &str, password: &str) -> (r: Negotiation)
        ensures
            r.wf(),
            r.stage == Stage::Ready,
            r.username@ == username@,
            r.password@ == password@,
            r.cnonce is None,
    {
        Negotiation {
            username: username.to_string(),
            password: password.to_string(),
            cnonce: None,
            stage: Stage::Ready,
            transmissions: 0,
        }
    }

    /// A negotiation for `username` and `password` that answers with the client
    /// nonce `cnonce`, so that its credential can be computed again.
    pub fn with_cnonce(username: &str, password: &str, cnonce: &str) -> (r: Negotiation)
        ensures
            r.wf(),
            r.stage == Stage::Ready,
            r.username@ == username@,
            r.password@ == password@,
            opt_text(r.cnonce) == Some(cnonce@),
    {
        Negotiation {
            username: username.to_string(),
            password: password.to_string(),
            cnonce: Some(cnonce.to_string()),
            stage: Stage::Ready,
            transmissions: 0,
        }
    }

    /// Starts the negotiation: the request is sent as it is.
    pub fn start(&mut self) -> (r: Action)
        requires
            old(self).wf(),
            old(self).stage == Stage::Ready,
        ensures
            final(self).wf(),
            (*final(self), r) == old(self).after_start(),
    {
        self.stage = Stage::AwaitingFirst;
        Action::Transmit(None)
    }

    /// A response with `status` came back.
    pub fn on_response(&mut self, status: u16) -> (r: Action)
        requires
            old(self).wf(),
            old(self).stage == Stage::AwaitingFirst || old(self).stage == Stage::AwaitingSecond,
        ensures
            final(self).wf(),
            (*final(self), r) == old(self).after_response(status),
    {
        if self.stage == Stage::AwaitingFirst {
            self.transmissions = 1;
            if status == UNAUTHORIZED {
                self.stage = Stage::Challenged;
                Action::Describe
            } else {
                self.stage = Stage::Finished;
                Action::ReturnFirst
            }
        } else {
            self.transmissions = 2;
            self.stage = Stage::Finished;
            Action::ReturnSecond
        }
    }

    /// Duplicating, building or sending the request failed with `e`.
    pub fn on_failure(&mut self, e: Error) -> (r: Action)
        requires
            old(self).wf(),
            old(self).stage != Stage::Ready,
            old(self).stage != Stage::Finished,
        ensures
            final(self).wf(),
            (*final(self), r) == old(self).after_failure(e),
    {
        self.stage = Stage::Finished;
        Action::Fail(e)
    }

    /// Takes the outcome of looking for a credential.
    pub fn on_resolution(&mut self, res: Result<Option<digest_auth::AuthorizationHeader>, Error>) -> (r: Action)
        requires
            old(self).wf(),
            old(self).stage == Stage::Challenged,
        ensures
            final(self).wf(),
            (*final(self), r) == old(self).after_resolution(res),
    {
        match res {
            Ok(Some(a)) => {
                self.stage = Stage::AwaitingSecond;
                Action::Transmit(Some(a))
            },
            Ok(None) => {
                self.stage = Stage::Finished;
                Action::ReturnFirst
            },
            Err(e) => {
                self.stage = Stage::Finished;
                Action::Fail(e)
            },
        }
    }

    /// The parts of the request came back: the challenge in `headers`, those of
    /// the first response, is answered for them.
    pub fn on_described(&mut self, headers: &http::HeaderMap, parts: &RequestParts) -> (r: Action)
        requires
            old(self).wf(),
            old(self).stage == Stage::Challenged,
        ensures
            final(self).wf(),
            exists|res: Result<Option<digest_auth::AuthorizationHeader>, Error>|
                #[trigger] is_resolution(*headers, *parts, old(self).username@, old(self).password@,
                    opt_text(old(self).cnonce), res)
                && (*final(self), r) == old(self).after_resolution(res),
    {
        let cnonce: Option<&str> = match &self.cnonce {
            Some(c) => Some(c.as_str()),
            None => None,
        };
        let res = get_answer(parts, headers, self.username.as_str(), self.password.as_str(), cnonce);
        self.on_resolution(res)
    }
}

/// A request whose first response is not a `401` is sent once, and that first
/// response is what the caller gets.
pub proof fn lemma_other_status_returns_first(n: Negotiation, status: u16)
    requires
        n.wf(),
        n.stage == Stage::Ready,
        status != UNAUTHORIZED,
    ensures
        ({
            let (n1, a1) = n.after_start();
            let (n2, a2) = n1.after_response(status);
            &&& a1 == Action::Transmit(None)
            &&& a2 == Action::ReturnFirst
            &&& n2.stage == Stage::Finished
            &&& n2.transmissions == 1
        }),
{
}

/// A request whose first response is a `401` without a `www-authenticate` field
/// is sent once, and that `401` is what the caller gets.
pub proof fn lemma_no_challenge_returns_first(
    n: Negotiation,
    h: http::HeaderMap,
    parts: RequestParts,
    res: Result<Option<digest_auth::AuthorizationHeader>, Error>,
)
    requires
        n.wf(),
        n.stage == Stage::Ready,
        www_authenticate_value(h) is None,
        is_resolution(h, parts, n.username@, n.password@, opt_text(n.cnonce), res),
    ensures
        ({
            let (n1, a1) = n.after_start();
            let (n2, a2) = n1.after_response(UNAUTHORIZED);
            let (n3, a3) = n2.after_resolution(res);
            &&& a1 == Action::Transmit(None)
            &&& a2 == Action::Describe
            &&& a3 == Action::ReturnFirst
            &&& n3.stage == Stage::Finished
            &&& n3.transmissions == 1
        }),
{
}

/// A request whose first response is a `401` with a digest challenge that can be
/// answered is sent exactly twice: the second time with a credential that answers
/// that challenge for the request's method, path and body and the user, whose
/// digest is the one computed from them; the second response, whatever its
/// status, is what the caller gets.
pub proof fn lemma_challenge_answered_once(
    n: Negotiation,
    h: http::HeaderMap,
    parts: RequestParts,
    res: Result<Option<digest_auth::AuthorizationHeader>, Error>,
    second_status: u16,
)
    requires
        n.wf(),
        n.stage == Stage::Ready,
        challenge_of(h) is Some,
        answerable_qop(challenge_of(h)->Some_0.qop),
        is_resolution(h, parts, n.username@, n.password@, opt_text(n.cnonce), res),
    ensures
        ({
            let (n1, a1) = n.after_start();
            let (n2, a2) = n1.after_response(UNAUTHORIZED);
            let (n3, a3) = n2.after_resolution(res);
            let (n4, a4) = n3.after_response(second_status);
            &&& a1 == Action::Transmit(None)
            &&& a2 == Action::Describe
            &&& a3 matches Action::Transmit(Some(a))
            &&& is_credential(a3->Transmit_0->Some_0, challenge_of(h)->Some_0, parts.method@, parts.path@,
                opt_vec_bytes(parts.body), n.username@, n.password@, opt_text(n.cnonce))
            &&& a4 == Action::ReturnSecond
            &&& n4.stage == Stage::Finished
            &&& n4.transmissions == 2
        }),
{
}

/// A request that cannot be duplicated fails with `RequestBuilderNotCloneable`
/// before any response has come back.
pub proof fn lemma_not_duplicable_fails_unsent<T>(n: Negotiation, copy: Option<T>)
    requires
        n.wf(),
        n.stage == Stage::Ready,
        copy is None,
    ensures
        duplicate_outcome(copy) is Err,
        ({
            let (n1, a1) = n.after_start();
            let (n2, a2) = n1.after_failure(duplicate_outcome(copy)->Err_0);
            &&& a1 == Action::Transmit(None)
            &&& a2 == Action::Fail(Error::RequestBuilderNotCloneable)
            &&& n2.stage == Stage::Finished
            &&& n2.transmissions == 0
        }),
{
}

} // verus!
