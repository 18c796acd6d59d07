use sumup::services::{Authorization, TokenStep};
use sumup::{
    AccessToken, Api, AuthError, Config, Error, GrantType, Json, JsonError, Method, Opening, Reply,
    Scope, Scopes, SumUp,
};

fn members(j: &Json) -> Vec<(String, Option<String>)> {
    match j {
        Json::Object(m) => m
            .iter()
            .map(|(k, v)| {
                let v = match v {
                    Json::Str(s) => Some(s.clone()),
                    Json::Null => None,
                    other => panic!("not a text member: {:?}", other),
                };
                (k.clone(), v)
            })
            .collect(),
        other => panic!("not an object: {:?}", other),
    }
}

fn pair(k: &str, v: Option<&str>) -> (String, Option<String>) {
    (k.to_string(), v.map(|s| s.to_string()))
}

fn ready(config: Config) -> SumUp {
    match SumUp::from(config) {
        Ok(Opening::Ready(s)) => s,
        Ok(Opening::Pending(_)) => panic!("a call was asked for"),
        Err(e) => panic!("unexpected {:?}", e),
    }
}

#[test]
fn configured_access_token_is_used_without_a_call() {
    let config = Config {
        access_token: Some("T".to_string()),
        scopes: Scopes::from(vec![Scope::Payments]),
        ..Default::default()
    };
    let api = Api::new();
    match Authorization::new(&api, &config).token() {
        Ok(TokenStep::Ready(t)) => {
            assert_eq!(t.access_token, "T");
            assert_eq!(t.scope.as_slice(), &[Scope::Payments]);
            assert_eq!(t.expires_in, Some(0));
            assert_eq!(t.refresh_token, None);
            assert_eq!(t.bearer(), "Bearer T");
        }
        other => panic!("unexpected {:?}", other),
    }
    let session = ready(config);
    assert_eq!(session.access_token.access_token, "T");
}

#[test]
fn configured_refresh_token_is_carried_without_a_call() {
    let config = Config {
        refresh_token: Some("R".to_string()),
        scopes: Scopes::from(vec![Scope::Balance, Scope::Products]),
        grant_type: GrantType::Password,
        ..Default::default()
    };
    let session = ready(config);
    let t = &session.access_token;
    assert_eq!(t.access_token, "");
    assert_eq!(t.refresh_token, Some("R".to_string()));
    assert_eq!(t.expires_in, Some(0));
    assert_eq!(t.scope.as_slice(), &[Scope::Balance, Scope::Products]);
}

#[test]
fn access_token_wins_over_refresh_token() {
    let config = Config {
        access_token: Some("A".to_string()),
        refresh_token: Some("R".to_string()),
        ..Default::default()
    };
    let session = ready(config);
    assert_eq!(session.access_token.access_token, "A");
    assert_eq!(session.access_token.refresh_token, Some("R".to_string()));
}

#[test]
fn password_grant_without_password_fails_locally() {
    let config = Config {
        grant_type: GrantType::Password,
        username: Some("user".to_string()),
        ..Default::default()
    };
    match SumUp::from(config) {
        Err(Error::Auth(AuthError::MissingPassword)) => {}
        other => panic!("unexpected {:?}", other),
    }
}

#[test]
fn password_grant_without_username_fails_locally() {
    let config = Config {
        grant_type: GrantType::Password,
        password: Some("secret".to_string()),
        ..Default::default()
    };
    match SumUp::from(config) {
        Err(Error::Auth(AuthError::MissingUsername)) => {}
        other => panic!("unexpected {:?}", other),
    }
}

#[test]
fn password_grant_posts_credentials() {
    let config = Config {
        client_id: "id".to_string(),
        client_secret: "secret".to_string(),
        grant_type: GrantType::Password,
        scopes: Scopes::from(vec![Scope::Payments, Scope::UserProfile]),
        username: Some("u".to_string()),
        password: Some("p".to_string()),
        ..Default::default()
    };
    match SumUp::from(config) {
        Ok(Opening::Pending(p)) => {
            assert_eq!(p.request.method, Method::Post);
            assert_eq!(p.request.url, "https://api.sumup.com/token");
            assert_eq!(p.request.authorization, None);
            assert_eq!(
                members(p.request.payload.as_ref().unwrap()),
                vec![
                    pair("grant_type", Some("password")),
                    pair("client_id", Some("id")),
                    pair("client_secret", Some("secret")),
                    pair("scope", Some("payments user.profile")),
                    pair("username", Some("u")),
                    pair("password", Some("p")),
                ]
            );
        }
        other => panic!("unexpected {:?}", other),
    }
}

#[test]
fn authorization_code_grant_posts_the_code_once() {
    match SumUp::new("id", "secret", "the-code") {
        Ok(Opening::Pending(p)) => {
            assert_eq!(p.request.method, Method::Post);
            assert_eq!(p.request.url, "https://api.sumup.com/token");
            assert_eq!(p.request.authorization, None);
            assert_eq!(
                members(p.request.payload.as_ref().unwrap()),
                vec![
                    pair("grant_type", Some("authorization_code")),
                    pair("client_id", Some("id")),
                    pair("client_secret", Some("secret")),
                    pair("scope", Some("transactions.history")),
                    pair("code", Some("the-code")),
                ]
            );
        }
        other => panic!("unexpected {:?}", other),
    }
}

#[test]
fn authorization_code_grant_without_code_sends_null() {
    let config = Config {
        client_id: "id".to_string(),
        ..Default::default()
    };
    let api = Api::new();
    let q = Authorization::new(&api, &config).token_by_code();
    assert_eq!(members(q.payload.as_ref().unwrap())[4], pair("code", None));
}

#[test]
fn client_credentials_grant_posts_common_members() {
    let config = Config {
        client_id: "id".to_string(),
        client_secret: "s".to_string(),
        grant_type: GrantType::ClientCredentials,
        ..Default::default()
    };
    let api = Api::new();
    match Authorization::new(&api, &config).token() {
        Ok(TokenStep::Send(q)) => assert_eq!(
            members(q.payload.as_ref().unwrap()),
            vec![
                pair("grant_type", Some("client_credentials")),
                pair("client_id", Some("id")),
                pair("client_secret", Some("s")),
                pair("scope", Some("")),
            ]
        ),
        other => panic!("unexpected {:?}", other),
    }
}

#[test]
fn refresh_without_any_refresh_token_fails_locally() {
    let config = Config {
        access_token: Some("T".to_string()),
        ..Default::default()
    };
    let session = ready(config);
    match session.refresh_token(None) {
        Err(Error::Auth(AuthError::MissingRefreshToken)) => {}
        other => panic!("unexpected {:?}", other),
    }
}

#[test]
fn refresh_uses_given_then_held_token() {
    let config = Config {
        access_token: Some("T".to_string()),
        refresh_token: Some("held".to_string()),
        client_id: "id".to_string(),
        client_secret: "s".to_string(),
        ..Default::default()
    };
    let session = ready(config);
    let q = session.refresh_token(None).unwrap();
    assert_eq!(q.method, Method::Post);
    assert_eq!(q.url, "https://api.sumup.com/token");
    assert_eq!(
        members(q.payload.as_ref().unwrap()),
        vec![
            pair("grant_type", Some("refresh_token")),
            pair("client_id", Some("id")),
            pair("client_secret", Some("s")),
            pair("scope", Some("")),
            pair("refresh_token", Some("held")),
        ]
    );
    let q = session.refresh_token(Some("given")).unwrap();
    assert_eq!(members(q.payload.as_ref().unwrap())[4], pair("refresh_token", Some("given")));
}

#[test]
fn pending_session_completes_with_token_reply() {
    let p = match SumUp::new("id", "secret", "c") {
        Ok(Opening::Pending(p)) => p,
        other => panic!("unexpected {:?}", other),
    };
    let reply = Reply {
        status: 200,
        body: r#"{"access_token":"abc","token_type":"Bearer","expires_in":3599,"scope":"payments balance","refresh_token":"r1"}"#.to_string(),
    };
    let s = p.complete(&reply).unwrap();
    assert_eq!(s.access_token.access_token, "abc");
    assert_eq!(s.access_token.token_type, "Bearer");
    assert_eq!(s.access_token.expires_in, Some(3599));
    assert_eq!(s.access_token.scope.as_slice(), &[Scope::Payments, Scope::Balance]);
    assert_eq!(s.access_token.refresh_token, Some("r1".to_string()));
    assert_eq!(s.config.client_id, "id");
}

#[test]
fn refresh_replaces_token_wholesale() {
    let config = Config {
        access_token: Some("old".to_string()),
        refresh_token: Some("r0".to_string()),
        ..Default::default()
    };
    let mut session = ready(config);
    let failure = Reply {
        status: 401,
        body: r#"{"message":"invalid grant"}"#.to_string(),
    };
    match session.apply_refresh(&failure) {
        Err(Error::Api(_)) => {}
        other => panic!("unexpected {:?}", other),
    }
    assert_eq!(session.access_token.access_token, "old");
    let ok = Reply {
        status: 200,
        body: r#"{"access_token":"new","token_type":"Bearer","scope":""}"#.to_string(),
    };
    session.apply_refresh(&ok).unwrap();
    assert_eq!(session.access_token.access_token, "new");
    assert_eq!(session.access_token.expires_in, None);
    assert_eq!(session.access_token.refresh_token, None);
    assert_eq!(session.access_token.scope.len(), 0);
}

#[test]
fn token_reply_with_unknown_scope_names_it() {
    let reply = Reply {
        status: 200,
        body: r#"{"access_token":"a","token_type":"b","scope":"payments nope"}"#.to_string(),
    };
    match Api::read_token(&reply) {
        Err(Error::InvalidScope(s)) => assert_eq!(s, "nope"),
        other => panic!("unexpected {:?}", other),
    }
}

#[test]
fn token_reply_of_wrong_shape_is_a_json_error() {
    for body in [
        r#"{"token_type":"b","scope":""}"#,
        r#"{"access_token":"a","token_type":"b","scope":"","expires_in":-1}"#,
        r#"{"access_token":"a","token_type":"b","scope":"","expires_in":4294967296}"#,
        r#"["a","b"]"#,
    ] {
        let reply = Reply { status: 200, body: body.to_string() };
        match Api::read_token(&reply) {
            Err(Error::Json(JsonError::Shape)) => {}
            other => panic!("unexpected {:?} for {}", other, body),
        }
    }
    let reply = Reply { status: 200, body: "not json".to_string() };
    match Api::read_token(&reply) {
        Err(Error::Json(JsonError::Syntax(_))) => {}
        other => panic!("unexpected {:?}", other),
    }
}

#[test]
fn token_reply_ignores_unknown_members_and_null_options() {
    let reply = Reply {
        status: 200,
        body: r#"{"access_token":"a","token_type":"b","scope":"balance","expires_in":null,"refresh_token":null,"extra":1}"#.to_string(),
    };
    let t: AccessToken = Api::read_token(&reply).unwrap();
    assert_eq!(t.expires_in, None);
    assert_eq!(t.refresh_token, None);
    assert_eq!(t.scope.as_slice(), &[Scope::Balance]);
}

#[test]
fn config_new_defaults() {
    let c = Config::new("a", "b", "c");
    assert_eq!(c.client_id, "a");
    assert_eq!(c.client_secret, "b");
    assert_eq!(c.code, Some("c".to_string()));
    assert_eq!(c.grant_type, GrantType::AuthorizationCode);
    assert_eq!(c.scopes.as_slice(), &[Scope::TransactionsHistory]);
    assert_eq!(GrantType::default().as_str(), "authorization_code");
    assert_eq!(GrantType::Password.as_str(), "password");
}
