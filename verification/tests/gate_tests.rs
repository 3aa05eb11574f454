use identity_gate::gate::CountingHandler;
use identity_gate::gate::Decision;
use identity_gate::gate::GateBody;
use identity_gate::gate::GateResponse;
use identity_gate::gate::IdentityContext;
use identity_gate::gate::IsAuthenticated;
use identity_gate::gate::Request;
use identity_gate::gate::UNAUTHORIZED_STATUS;
use identity_gate::gate::decide;
use identity_gate::gate::unauthorized_body;
use identity_gate::gate::unauthorized_response;

const FIXED_BODY: &str = "{\"status_code\":401,\"message\":\"You are not authenticated\"}";

#[test]
fn valid_session_passes_through() {
    let handler = CountingHandler::new(200, String::from("ok"));
    let mut mw = IsAuthenticated.new_transform(handler);
    let req: Request<String> = Request {
        identity: IdentityContext::Subject(String::from("user-42")),
        content: String::from("GET /profile"),
    };
    let resp: GateResponse<String> = mw.call(req);
    assert_eq!(resp.status, 200);
    match resp.body {
        GateBody::Inner(b) => assert_eq!(b, "ok"),
        GateBody::Unauthorized(_) => panic!("request was denied"),
    }
    assert_eq!(mw.service.calls, 1);
}

#[test]
fn no_identity_denied_handler_not_invoked() {
    let handler = CountingHandler::new(200, String::from("ok"));
    let mut mw = IsAuthenticated.new_transform(handler);
    let req: Request<u32> = Request { identity: IdentityContext::Missing, content: 7 };
    let resp: GateResponse<String> = mw.call(req);
    assert_eq!(resp.status, 401);
    match resp.body {
        GateBody::Unauthorized(b) => assert_eq!(b, FIXED_BODY),
        GateBody::Inner(_) => panic!("request passed the identity gate"),
    }
    assert_eq!(mw.service.calls, 0);
}

#[test]
fn unresolvable_identity_denied_like_missing() {
    let handler = CountingHandler::new(200, String::from("ok"));
    let mut mw = IsAuthenticated.new_transform(handler);
    let tampered: Request<u32> = Request { identity: IdentityContext::Unresolvable, content: 1 };
    let denied: GateResponse<String> = mw.call(tampered);
    assert_eq!(mw.service.calls, 0);

    let handler2 = CountingHandler::new(200, String::from("ok"));
    let mut mw2 = IsAuthenticated.new_transform(handler2);
    let anonymous: Request<u32> = Request { identity: IdentityContext::Missing, content: 1 };
    let also_denied: GateResponse<String> = mw2.call(anonymous);

    assert_eq!(denied.status, also_denied.status);
    let body_a = match denied.body {
        GateBody::Unauthorized(b) => b,
        GateBody::Inner(_) => panic!("request passed the identity gate"),
    };
    let body_b = match also_denied.body {
        GateBody::Unauthorized(b) => b,
        GateBody::Inner(_) => panic!("request passed the identity gate"),
    };
    assert_eq!(body_a, body_b);
    assert_eq!(body_a, FIXED_BODY);
}

#[test]
fn decision_idempotent() {
    let session = IdentityContext::Subject(String::from("user-42"));
    assert_eq!(decide(&session), decide(&session));
    assert_eq!(decide(&session), Decision::Allow);
    let anonymous = IdentityContext::Missing;
    assert_eq!(decide(&anonymous), decide(&anonymous));
    assert_eq!(decide(&anonymous), Decision::Deny);
    let tampered = IdentityContext::Unresolvable;
    assert_eq!(decide(&tampered), decide(&tampered));
    assert_eq!(decide(&tampered), Decision::Deny);
}

#[test]
fn empty_subject_is_still_a_subject() {
    assert_eq!(decide(&IdentityContext::Subject(String::new())), Decision::Allow);
}

#[test]
fn mixed_batch_fifty_fifty() {
    let handler = CountingHandler::new(200, String::from("ok"));
    let mut mw = IsAuthenticated.new_transform(handler);
    let mut allowed: u32 = 0;
    let mut denied: u32 = 0;
    for i in 0..100u32 {
        let identity = if i % 2 == 0 {
            IdentityContext::Subject(format!("user-{}", i))
        } else {
            IdentityContext::Missing
        };
        let req: Request<u32> = Request { identity, content: i };
        let resp: GateResponse<String> = mw.call(req);
        match resp.body {
            GateBody::Inner(b) => {
                allowed += 1;
                assert_eq!(resp.status, 200);
                assert_eq!(b, "ok");
            }
            GateBody::Unauthorized(b) => {
                denied += 1;
                assert_eq!(resp.status, 401);
                assert_eq!(b, FIXED_BODY);
            }
        }
    }
    assert_eq!(allowed, 50);
    assert_eq!(denied, 50);
    assert_eq!(mw.service.calls, 50);
}

#[test]
fn unauthorized_body_is_exact() {
    assert_eq!(unauthorized_body(), FIXED_BODY);
    assert_eq!(UNAUTHORIZED_STATUS, 401);
}

#[test]
fn unauthorized_response_fields() {
    let r: GateResponse<String> = unauthorized_response();
    assert_eq!(r.status, 401);
    match r.body {
        GateBody::Unauthorized(b) => assert_eq!(b, FIXED_BODY),
        GateBody::Inner(_) => panic!("deny response carried an inner body"),
    }
}

#[test]
fn new_transform_keeps_service() {
    let handler = CountingHandler::new(204, String::new());
    let mw = IsAuthenticated.new_transform(handler);
    assert_eq!(mw.service.calls, 0);
    assert_eq!(mw.service.status, 204);
    assert_eq!(mw.service.body, "");
}
