use ravix::response::{DiError, ErrorResponse, FrameworkError, ReplyBody, Response};

fn error_text(body: &ReplyBody) -> Option<&str> {
    match body {
        ReplyBody::ErrorMessage(m) => Some(m.as_str()),
        _ => None,
    }
}

#[test]
fn helpers_set_status_and_body() {
    let v = serde_json::Value::from(5);
    let r = Response::json(v.clone());
    assert_eq!(r.status, 200);
    assert!(matches!(r.body, ReplyBody::Json(ref x) if *x == v));
    assert_eq!(Response::created(v).status, 201);
    assert_eq!(Response::ok().status, 200);
    assert!(matches!(Response::ok().body, ReplyBody::Empty));
    assert_eq!(Response::no_content().status, 204);
    let nf = Response::not_found("User not found");
    assert_eq!(nf.status, 404);
    assert_eq!(error_text(&nf.body), Some("User not found"));
    assert_eq!(Response::unauthorized("no").status, 401);
    assert_eq!(Response::bad_request("bad").status, 400);
    assert_eq!(Response::internal_error("oops").status, 500);
}

#[test]
fn status_accepts_only_valid_codes() {
    assert_eq!(Response::status(418).status, 418);
    assert_eq!(Response::status(100).status, 100);
    assert_eq!(Response::status(999).status, 999);
    assert_eq!(Response::status(99).status, 500);
    assert_eq!(Response::status(1000).status, 500);
    assert_eq!(Response::status(0).status, 500);
}

#[test]
fn error_response_bodies() {
    let m = ErrorResponse::message("Not found").into_json();
    assert_eq!(error_text(&m), Some("Not found"));
    let mut map = serde_json::Map::new();
    map.insert("code".to_string(), serde_json::Value::from("USER_NOT_FOUND"));
    let obj = serde_json::Value::Object(map);
    match ErrorResponse::object(Ok(obj.clone())).into_json() {
        ReplyBody::Json(v) => assert_eq!(v, obj),
        _ => panic!("expected an object"),
    }
    let failed: Result<serde_json::Value, serde_json::Error> = serde_json::from_str("{");
    let fallback = ErrorResponse::object(failed).into_json();
    assert_eq!(error_text(&fallback), Some("serialization failed"));
}

#[test]
fn framework_errors_map_to_statuses() {
    let r = FrameworkError::InjectionError("missing".to_string()).into_response();
    assert_eq!(r.status, 500);
    assert_eq!(error_text(&r.body), Some("missing"));
    let r = FrameworkError::RoutingError("nope".to_string()).into_response();
    assert_eq!(r.status, 404);
    let r = FrameworkError::MiddlewareError("mw".to_string()).into_response();
    assert_eq!(r.status, 500);
    assert_eq!(FrameworkError::RoutingError("x".to_string()).to_message(), "Routing error: x");
    assert_eq!(FrameworkError::MiddlewareError("y".to_string()).to_message(), "Middleware error: y");
}

#[test]
fn di_errors_convert_and_respond() {
    let e = DiError::InjectionError("no repo".to_string());
    assert_eq!(e.to_message(), "Dependency injection error: no repo");
    match FrameworkError::from_di(e) {
        FrameworkError::InjectionError(m) => assert_eq!(m, "Dependency injection error: no repo"),
        _ => panic!("expected an injection error"),
    }
    let r = DiError::InjectionError("no repo".to_string()).into_response();
    assert_eq!(r.status, 500);
    assert_eq!(error_text(&r.body), Some("no repo"));
}

#[test]
fn error_response_from_message_and_object() {
    match ErrorResponse::from("boom".to_string()).into_json() {
        ReplyBody::ErrorMessage(m) => assert_eq!(m, "boom"),
        _ => panic!("a message error renders as an error message"),
    }
    let obj = serde_json::Value::String("detail".to_string());
    match ErrorResponse::from(obj.clone()).into_json() {
        ReplyBody::Json(v) => assert_eq!(v, obj),
        _ => panic!("an object error renders as its JSON"),
    }
}
