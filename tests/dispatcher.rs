use sumup::{AccessToken, Api, Error, Json, JsonError, Message, Method, Reply, Response, Scopes};

fn token(value: &str) -> AccessToken {
    AccessToken {
        access_token: value.to_string(),
        token_type: "Bearer".to_string(),
        expires_in: None,
        scope: Scopes::new(),
        refresh_token: None,
    }
}

fn messages(e: Error) -> Vec<Message> {
    match e {
        Error::Api(Response::Message(m)) => vec![m],
        Error::Api(Response::Messages(v)) => v,
        other => panic!("unexpected {:?}", other),
    }
}

#[test]
fn single_error_message_decodes() {
    let e = Error::from_body(r#"{"message":"invalid request","error_code":"400"}"#);
    match e {
        Error::Api(Response::Message(m)) => {
            assert_eq!(m.message, "invalid request");
            assert_eq!(m.error_code, Some("400".to_string()));
            assert_eq!(m.param, None);
            assert_eq!(m.status, None);
        }
        other => panic!("unexpected {:?}", other),
    }
}

#[test]
fn error_message_sequence_decodes_in_order() {
    let e = Error::from_body(r#"[{"message":"a"},{"message":"b"}]"#);
    match e {
        Error::Api(Response::Messages(v)) => {
            let texts: Vec<&str> = v.iter().map(|m| m.message.as_str()).collect();
            assert_eq!(texts, vec!["a", "b"]);
        }
        other => panic!("unexpected {:?}", other),
    }
}

#[test]
fn error_message_carries_every_field() {
    let body = r#"{"message":"m","instance":"i","error_code":"c","param":"p","type":"t","title":"ti","status":42,"detail":"d","other":true}"#;
    let m = messages(Error::from_body(body)).remove(0);
    assert_eq!(m.message, "m");
    assert_eq!(m.instance.as_deref(), Some("i"));
    assert_eq!(m.error_code.as_deref(), Some("c"));
    assert_eq!(m.param.as_deref(), Some("p"));
    assert_eq!(m.ty.as_deref(), Some("t"));
    assert_eq!(m.title.as_deref(), Some("ti"));
    assert_eq!(m.status, Some(42));
    assert_eq!(m.detail.as_deref(), Some("d"));
}

#[test]
fn undecodable_error_bodies_surface_the_failure() {
    match Error::from_body("<html>") {
        Error::Json(JsonError::Syntax(text)) => assert!(!text.is_empty()),
        other => panic!("unexpected {:?}", other),
    }
    for body in [
        r#"{"error":"x"}"#,
        r#"{"message":"m","status":70000}"#,
        r#"{"message":"m","status":-1}"#,
        r#"[{"message":"a"},{"text":"b"}]"#,
        r#""message""#,
    ] {
        match Error::from_body(body) {
            Error::Json(JsonError::Shape) => {}
            other => panic!("unexpected {:?} for {}", other, body),
        }
    }
    assert_eq!(messages(Error::from_body("[]")).len(), 0);
}

#[test]
fn success_reply_decodes_typed_record() {
    let q = Api::new().checkout_get("1", &token("T"));
    assert_eq!(q.method, Method::Get);
    assert!(q.payload.is_none());
    let reply = Reply { status: 200, body: r#"{"id":"1"}"#.to_string() };
    let pm = Api::read_payment_method(&reply).unwrap();
    assert_eq!(pm.id, "1");
}

#[test]
fn success_reply_of_wrong_shape_is_a_json_error() {
    let reply = Reply { status: 200, body: r#"{"id":1}"#.to_string() };
    match Api::read_payment_method(&reply) {
        Err(Error::Json(JsonError::Shape)) => {}
        other => panic!("unexpected {:?}", other),
    }
    let reply = Reply { status: 204, body: String::new() };
    match Api::receive(&reply) {
        Err(Error::Json(JsonError::Syntax(_))) => {}
        other => panic!("unexpected {:?}", other),
    }
}

#[test]
fn failure_reply_goes_through_error_decoder() {
    let reply = Reply { status: 404, body: r#"{"message":"not found"}"#.to_string() };
    assert_eq!(messages(Api::receive(&reply).unwrap_err())[0].message, "not found");
    let reply = Reply { status: 399, body: r#"{"message":"not found"}"#.to_string() };
    match Api::receive(&reply) {
        Ok(Json::Object(m)) => assert_eq!(m[0].0, "message"),
        other => panic!("unexpected {:?}", other),
    }
}

#[test]
fn parse_reads_numbers() {
    let reply = Reply { status: 200, body: r#"[7, -2, 1.5, null, true]"#.to_string() };
    match Api::receive(&reply).unwrap() {
        Json::Array(v) => {
            assert!(matches!(v[0], Json::Unsigned(7)));
            assert!(matches!(v[1], Json::OtherNumber));
            assert!(matches!(v[2], Json::OtherNumber));
            assert!(matches!(v[3], Json::Null));
            assert!(matches!(v[4], Json::Bool(true)));
        }
        other => panic!("unexpected {:?}", other),
    }
}

#[test]
fn bearer_is_attached_when_given() {
    let q = Api::new().account_get(&token("abc"));
    assert_eq!(q.authorization.as_deref(), Some("Bearer abc"));
    let q = Api::new().token(Json::Null);
    assert_eq!(q.authorization, None);
    assert_eq!(q.method, Method::Post);
}

#[test]
fn bodiless_operations_accept_any_success() {
    assert!(Api::confirm(&Reply { status: 204, body: String::new() }).is_ok());
    assert!(Api::confirm(&Reply { status: 200, body: "ok".to_string() }).is_ok());
    let e = Api::confirm(&Reply { status: 500, body: r#"{"message":"boom"}"#.to_string() });
    assert_eq!(messages(e.unwrap_err())[0].message, "boom");
}

#[test]
fn error_message_keeps_http_status() {
    let reply = Reply { status: 404, body: r#"{"message":"not found","status":404}"#.to_string() };
    match Api::receive(&reply) {
        Err(Error::Api(Response::Message(m))) => {
            assert_eq!(m.message, "not found");
            assert_eq!(m.status, Some(404));
        }
        other => panic!("unexpected {:?}", other),
    }
    let m = messages(Error::from_body(r#"[{"message":"a","status":599},{"message":"b"}]"#));
    assert_eq!(m[0].status, Some(599));
    assert_eq!(m[1].status, None);
}
