//! The identity gate: decides, per request, whether the inner handler may
//! see the request, and produces the fixed unauthorized response when not.

use vstd::prelude::*;
use crate::error::ErrorResponse;
use crate::error::{spec_error_json, spec_escape_char, spec_digits, lemma_escaped_plain};

verus! {

/// The identity state attached to a request by the surrounding session
/// layer before the identity gate runs. The identity gate only reads it.
pub enum IdentityContext {
    /// No identity is attached to the request.
    Missing,
    /// An identity is attached, but it could not be resolved to a subject
    /// (malformed or expired).
    Unresolvable,
    /// The attached identity resolved to this subject identifier.
    Subject(String),
}

/// The identity gate's verdict on one request.
#[derive(Clone, Copy, PartialEq, Eq, Structural, Debug)]
pub enum Decision {
    Allow,
    Deny,
}

/// A request is allowed exactly when its identity resolved to a subject.
pub open spec fn spec_allowed(identity: IdentityContext) -> bool {
    identity is Subject
}

/// The decision the identity gate reaches for a given identity context.
pub open spec fn spec_decision(identity: IdentityContext) -> Decision {
    if spec_allowed(identity) {
        Decision::Allow
    } else {
        Decision::Deny
    }
}

/// Decides whether a request with the given identity context may pass.
pub fn decide(identity: &IdentityContext) -> (d: Decision)
    ensures
        d == spec_decision(*identity),
        d == Decision::Allow <==> spec_allowed(*identity),
{
    match identity {
        IdentityContext::Subject(_) => Decision::Allow,
        IdentityContext::Missing => Decision::Deny,
        IdentityContext::Unresolvable => Decision::Deny,
    }
}

/// An inbound unit of work: the identity context resolved for it, and the
/// content the inner handler works on. The identity gate never touches the content.
pub struct Request<T> {
    pub identity: IdentityContext,
    pub content: T,
}

/// What an inner handler answers: a status code and a body of its own type.
pub struct Response<B> {
    pub status: u16,
    pub body: B,
}

/// The body of a gated response: either the inner handler's body, passed
/// through unchanged, or the identity gate's own serialized error body.
pub enum GateBody<B> {
    Inner(B),
    Unauthorized(String),
}

/// The response a gated route returns to the transport layer.
pub struct GateResponse<B> {
    pub status: u16,
    pub body: GateBody<B>,
}

/// The HTTP status the identity gate answers with on a denied request.
pub const UNAUTHORIZED_STATUS: u16 = 401;

/// The exact JSON body the identity gate answers with on a denied request.
pub open spec fn unauthorized_json() -> Seq<char> {
    spec_error_json(401, "You are not authenticated"@)
}

/// The serialized error body of a denied request.
pub fn unauthorized_body() -> (r: String)
    ensures
        r@ == unauthorized_json(),
{
    let err = ErrorResponse::new(
        UNAUTHORIZED_STATUS,
        String::from_str("You are not authenticated"),
    );
    err.to_json()
}

/// The terminal response of a denied request: status 401 and the fixed
/// JSON error body, whatever the inner handler's body type is.
pub fn unauthorized_response<B>() -> (r: GateResponse<B>)
    ensures
        r.status == 401,
        r.body matches GateBody::Unauthorized(m) && m@ == unauthorized_json(),
{
    GateResponse { status: UNAUTHORIZED_STATUS, body: GateBody::Unauthorized(unauthorized_body()) }
}

/// The next stage of the processing pipeline: any handler answering a
/// request with a response. Implementors state what they answer through
/// `response`, and `handle` must answer exactly that.
pub trait Handler<T, B> {
    /// What the handler answers to `req`, as a function of its state
    /// before the call.
    spec fn response(&self, req: Request<T>) -> Response<B>;

    /// Handles one request.
    fn handle(&mut self, req: Request<T>) -> (r: Response<B>)
        ensures
            r == old(self).response(req);
}

/// The middleware factory: wraps the next service of the chain in a gate.
pub struct IsAuthenticated;

/// A gate wrapped around one inner service.
pub struct IsAuthenticatedMiddleware<S> {
    pub service: S,
}

impl IsAuthenticated {
    /// Builds the per-connection middleware instance around `service`.
    pub fn new_transform<S>(&self, service: S) -> (m: IsAuthenticatedMiddleware<S>)
        ensures
            m.service == service,
    {
        IsAuthenticatedMiddleware { service }
    }
}

impl<S> IsAuthenticatedMiddleware<S> {
    /// Processes one request: a request whose identity resolved to a
    /// subject is handed to the inner service unchanged and its response
    /// passed through; any other request is answered with the fixed 401
    /// body, and the inner service is left untouched.
    pub fn call<T, B>(&mut self, req: Request<T>) -> (r: GateResponse<B>) where
        S: Handler<T, B>,
        ensures
            spec_allowed(req.identity) ==> r.status == old(self).service.response(req).status,
            spec_allowed(req.identity) ==> r.body == GateBody::<B>::Inner(
                old(self).service.response(req).body,
            ),
            !spec_allowed(req.identity) ==> r.status == 401,
            !spec_allowed(req.identity) ==> (r.body matches GateBody::Unauthorized(m) && m@
                == unauthorized_json()),
            !spec_allowed(req.identity) ==> *final(self) == *old(self),
    {
        match decide(&req.identity) {
            Decision::Allow => {
                let resp = self.service.handle(req);
                GateResponse { status: resp.status, body: GateBody::Inner(resp.body) }
            },
            Decision::Deny => unauthorized_response(),
        }
    }
}

/// The deny body, written out: the identity gate's fixed JSON body is exactly the
/// literal `{"status_code":401,"message":"You are not authenticated"}`.
pub proof fn lemma_unauthorized_json_literal()
    ensures
        unauthorized_json() == "{\"status_code\":401,\"message\":\"You are not authenticated\"}"@,
{
    reveal_strlit("You are not authenticated");
    let msg = "You are not authenticated"@;
    assert forall|i: int| 0 <= i < msg.len() implies spec_escape_char(msg[i]) == seq![
        msg[i],
    ] by {
        assert((msg[i] as nat) >= 32);
    }
    lemma_escaped_plain(msg);
    reveal_strlit("{\"status_code\":");
    reveal_strlit(",\"message\":\"");
    reveal_strlit("\"}");
    reveal_strlit("{\"status_code\":401,\"message\":\"You are not authenticated\"}");
    assert(spec_digits(4) =~= seq!['4']);
    assert(spec_digits(40) =~= seq!['4', '0']);
    assert(spec_digits(401) =~= seq!['4', '0', '1']);
    assert(unauthorized_json() =~= "{\"status_code\":401,\"message\":\"You are not authenticated\"}"@);
}

/// The identity gate is idempotent: run twice over the same immutable identity
/// context, it reaches the same decision both times.
pub proof fn lemma_decision_idempotent(first: IdentityContext, second: IdentityContext)
    requires
        first == second,
    ensures
        spec_decision(first) == spec_decision(second),
{
}

/// The two failure classes are externally indistinguishable: a request
/// with no identity and a request whose identity fails subject resolution
/// are both denied, by one and the same decision.
pub proof fn lemma_deny_indistinguishable()
    ensures
        spec_decision(IdentityContext::Missing) == spec_decision(IdentityContext::Unresolvable),
        spec_decision(IdentityContext::Missing) == Decision::Deny,
{
}

/// An inner handler that records how often it was invoked and answers
/// with a fixed status and body: the observable collaborator the tests
/// put behind the identity gate.
pub struct CountingHandler {
    pub calls: u64,
    pub status: u16,
    pub body: String,
}

impl CountingHandler {
    /// A handler that always answers `status` and `body`, invoked 0 times
    /// so far.
    pub fn new(status: u16, body: String) -> (r: CountingHandler)
        ensures
            r.calls == 0,
            r.status == status,
            r.body == body,
    {
        CountingHandler { calls: 0, status, body }
    }
}

impl<T> Handler<T, String> for CountingHandler {
    open spec fn response(&self, req: Request<T>) -> Response<String> {
        Response { status: self.status, body: self.body }
    }

    fn handle(&mut self, _req: Request<T>) -> (r: Response<String>) {
        if self.calls < u64::MAX {
            self.calls = self.calls + 1;
        }
        Response { status: self.status, body: self.body.clone() }
    }
}

} // verus!
