use vstd::prelude::*;

use crate::api::{url_of, Api, Method, Request};
use crate::config::{Config, GrantType};
use crate::entity::AccessToken;
use crate::errors::{AuthError, Error};
use crate::json::{field, members_are, text_member, text_or_null, Json};
use crate::scope::join_wire;

verus! {

/// The token manager: picks how to obtain a token for a configuration.
#[derive(Clone, Copy, Debug)]
pub struct Authorization<'a> {
    pub api: &'a Api,
    pub config: &'a Config,
}

/// What acquiring a token asks for next.
#[derive(Debug)]
pub enum TokenStep {
    /// The token is known without any call.
    Ready(AccessToken),
    /// The token endpoint must be called; its reply is read with `Api::read_token`.
    Send(Request<Json>),
}

/// The view of an optional text.
pub open spec fn text_view(o: Option<String>) -> Option<Seq<char>> {
    match o {
        Some(s) => Some(s@),
        None => None,
    }
}

/// The members that every token request starts with.
pub open spec fn common_members(config: Config, grant: Seq<char>) -> Seq<(Seq<char>, Option<Seq<char>>)> {
    seq![
        ("grant_type"@, Some(grant)),
        ("client_id"@, Some(config.client_id@)),
        ("client_secret"@, Some(config.client_secret@)),
        ("scope"@, Some(join_wire(config.scopes@))),
    ]
}

/// The body of the authorization code request; an unset code is sent as null.
pub open spec fn code_body(config: Config) -> Seq<(Seq<char>, Option<Seq<char>>)> {
    common_members(config, "authorization_code"@).push(("code"@, text_view(config.code)))
}

/// The body of the client credentials request.
pub open spec fn client_credentials_body(config: Config) -> Seq<(Seq<char>, Option<Seq<char>>)> {
    common_members(config, "client_credentials"@)
}

/// The body of the password request.
pub open spec fn password_body(config: Config, username: Seq<char>, password: Seq<char>) -> Seq<
    (Seq<char>, Option<Seq<char>>),
> {
    common_members(config, "password"@).push(("username"@, Some(username))).push(
        ("password"@, Some(password)),
    )
}

/// The body of the refresh request.
pub open spec fn refresh_body(config: Config, refresh_token: Seq<char>) -> Seq<
    (Seq<char>, Option<Seq<char>>),
> {
    common_members(config, "refresh_token"@).push(("refresh_token"@, Some(refresh_token)))
}

/// Whether `r` is one POST of the JSON body `body` to the token endpoint, without a bearer.
pub open spec fn is_token_request(r: Request<Json>, body: Seq<(Seq<char>, Option<Seq<char>>)>) -> bool {
    &&& r.method == Method::Post
    &&& r.url@ == url_of("/token"@, seq![])
    &&& r.authorization is None
    &&& match r.payload {
        Some(Json::Object(members)) => members_are(members@, body),
        _ => false,
    }
}

/// Whether `t` is the token built from configuration alone: the given value, no type,
/// the configured scopes, the given refresh token, and zero seconds of validity.
pub open spec fn is_local_token(
    t: AccessToken,
    config: Config,
    value: Seq<char>,
    refresh_token: Option<String>,
) -> bool {
    &&& t.access_token@ == value
    &&& t.token_type@ == Seq::<char>::empty()
    &&& t.expires_in == Some(0u32)
    &&& t.scope@ == config.scopes@
    &&& t.refresh_token == refresh_token
}

/// What acquiring a token for `config` gives, first match winning: a configured access
/// token is used as it is; else a configured refresh token is carried forward without a
/// value; else the grant type decides the request, where the password grant first needs
/// a username and then a password.
pub open spec fn acquired(config: Config, r: Result<TokenStep, Error>) -> bool {
    match config.access_token {
        Some(v) => r matches Ok(TokenStep::Ready(t)) && is_local_token(
            t,
            config,
            v@,
            config.refresh_token,
        ),
        None => match config.refresh_token {
            Some(rt) => r matches Ok(TokenStep::Ready(t)) && is_local_token(
                t,
                config,
                Seq::empty(),
                Some(rt),
            ),
            None => match config.grant_type {
                GrantType::AuthorizationCode => r matches Ok(TokenStep::Send(q))
                    && is_token_request(q, code_body(config)),
                GrantType::ClientCredentials => r matches Ok(TokenStep::Send(q))
                    && is_token_request(q, client_credentials_body(config)),
                GrantType::Password => match (config.username, config.password) {
                    (None, _) => r matches Err(Error::Auth(AuthError::MissingUsername)),
                    (Some(_), None) => r matches Err(Error::Auth(AuthError::MissingPassword)),
                    (Some(u), Some(p)) => r matches Ok(TokenStep::Send(q)) && is_token_request(
                        q,
                        password_body(config, u@, p@),
                    ),
                },
            },
        },
    }
}

/// An authorization code configuration with a code, and no token configured, gives
/// exactly one POST to the token endpoint, whose body names the authorization code grant
/// and carries the configured code.
pub proof fn lemma_code_grant_request(config: Config, r: Result<TokenStep, Error>)
    requires
        acquired(config, r),
        config.access_token is None,
        config.refresh_token is None,
        config.grant_type == GrantType::AuthorizationCode,
        config.code is Some,
    ensures
        r matches Ok(TokenStep::Send(q)) && {
            &&& q.method == Method::Post
            &&& q.url@ == url_of("/token"@, seq![])
            &&& q.payload matches Some(Json::Object(m)) && {
                &&& field(m@, "grant_type"@) matches Some(Json::Str(g)) && g@
                    == "authorization_code"@
                &&& field(m@, "code"@) matches Some(Json::Str(c)) && c@ == config.code->0@
            }
        },
{
    reveal_strlit("grant_type");
    reveal_strlit("client_id");
    reveal_strlit("client_secret");
    reveal_strlit("scope");
    reveal_strlit("code");
    let q = r->Ok_0->Send_0;
    let m = q.payload->0->Object_0@;
    let expect = code_body(config);
    assert(m[0].0@ == expect[0].0);
    assert(text_or_null(m[0].1) == Some(expect[0].1));
    assert(m[1].0@ == expect[1].0);
    assert(m[2].0@ == expect[2].0);
    assert(m[3].0@ == expect[3].0);
    assert(m[4].0@ == expect[4].0);
    assert(text_or_null(m[4].1) == Some(expect[4].1));
    assert("client_id"@.len() != "code"@.len());
    assert("client_secret"@.len() != "code"@.len());
    assert("scope"@.len() != "code"@.len());
    assert("grant_type"@.len() != "code"@.len());
    assert(m.drop_first().drop_first().drop_first().drop_first()[0] == m[4]);
    assert(field(m.drop_first().drop_first().drop_first().drop_first(), "code"@) == Some(m[4].1));
    assert(field(m.drop_first().drop_first().drop_first(), "code"@) == Some(m[4].1));
    assert(field(m.drop_first().drop_first(), "code"@) == Some(m[4].1));
    assert(field(m.drop_first(), "code"@) == Some(m[4].1));
}

/// The members that every token request starts with.
fn common(config: &Config, grant: &str) -> (r: Vec<(String, Json)>)
    ensures
        members_are(r@, common_members(*config, grant@)),
{
    let scope = config.scopes.to_string();
    let mut v: Vec<(String, Json)> = Vec::new();
    let grant = String::from_str(grant);
    v.push(text_member("grant_type", Some(&grant)));
    v.push(text_member("client_id", Some(&config.client_id)));
    v.push(text_member("client_secret", Some(&config.client_secret)));
    v.push(text_member("scope", Some(&scope)));
    v
}

impl<'a> Authorization<'a> {
    pub fn new(api: &'a Api, config: &'a Config) -> (r: Authorization<'a>)
        ensures
            r.api == api,
            r.config == config,
    {
        Authorization { api, config }
    }

    /// Acquires a token, first match winning: a configured access token, then a
    /// configured refresh token (neither makes a call), then the configured grant.
    pub fn token(&self) -> (r: Result<TokenStep, Error>)
        ensures
            acquired(*self.config, r),
    {
        match &self.config.access_token {
            Some(access_token) => {
                let t = AccessToken {
                    access_token: access_token.clone(),
                    token_type: String::new(),
                    expires_in: Some(0),
                    scope: self.config.scopes.copied(),
                    refresh_token: crate::config::copy_text(&self.config.refresh_token),
                };
                Ok(TokenStep::Ready(t))
            },
            None => match &self.config.refresh_token {
                Some(refresh_token) => {
                    let t = AccessToken {
                        access_token: String::new(),
                        token_type: String::new(),
                        expires_in: Some(0),
                        scope: self.config.scopes.copied(),
                        refresh_token: Some(refresh_token.clone()),
                    };
                    Ok(TokenStep::Ready(t))
                },
                None => match self.config.grant_type {
                    GrantType::AuthorizationCode => Ok(TokenStep::Send(self.token_by_code())),
                    GrantType::ClientCredentials => Ok(
                        TokenStep::Send(self.token_by_client_credentials()),
                    ),
                    GrantType::Password => match self.token_password() {
                        Ok(q) => Ok(TokenStep::Send(q)),
                        Err(e) => Err(e),
                    },
                },
            },
        }
    }

    /// The authorization code request: the common members and the configured code.
    pub fn token_by_code(&self) -> (r: Request<Json>)
        ensures
            is_token_request(r, code_body(*self.config)),
    {
        let mut v = common(self.config, "authorization_code");
        let ghost before = v@;
        v.push(text_member("code", self.config.code.as_ref()));
        proof {
            let expect = code_body(*self.config);
            assert forall|i: int| 0 <= i < expect.len() implies (#[trigger] v@[i]).0@ == expect[i].0
                && crate::json::text_or_null(v@[i].1) == Some(expect[i].1) by {
                if i < before.len() {
                    assert(v@[i] == before[i]);
                }
            }
        }
        self.api.token(Json::Object(v))
    }

    /// The client credentials request: the common members alone.
    pub fn token_by_client_credentials(&self) -> (r: Request<Json>)
        ensures
            is_token_request(r, client_credentials_body(*self.config)),
    {
        let v = common(self.config, "client_credentials");
        self.api.token(Json::Object(v))
    }

    /// The password request; a missing username, then a missing password, is an
    /// `Auth` error and makes no call.
    pub fn token_password(&self) -> (r: Result<Request<Json>, Error>)
        ensures
            match (self.config.username, self.config.password) {
                (None, _) => r matches Err(Error::Auth(AuthError::MissingUsername)),
                (Some(_), None) => r matches Err(Error::Auth(AuthError::MissingPassword)),
                (Some(u), Some(p)) => r matches Ok(q) && is_token_request(
                    q,
                    password_body(*self.config, u@, p@),
                ),
            },
    {
        let username = match &self.config.username {
            Some(username) => username,
            None => return Err(Error::Auth(AuthError::MissingUsername)),
        };
        let password = match &self.config.password {
            Some(password) => password,
            None => return Err(Error::Auth(AuthError::MissingPassword)),
        };
        let mut v = common(self.config, "password");
        let ghost before = v@;
        v.push(text_member("username", Some(username)));
        v.push(text_member("password", Some(password)));
        proof {
            let expect = password_body(*self.config, username@, password@);
            assert forall|i: int| 0 <= i < expect.len() implies (#[trigger] v@[i]).0@ == expect[i].0
                && crate::json::text_or_null(v@[i].1) == Some(expect[i].1) by {
                if i < before.len() {
                    assert(v@[i] == before[i]);
                }
            }
        }
        Ok(self.api.token(Json::Object(v)))
    }

    /// The refresh request for `refresh_token`.
    pub fn refresh_token(&self, refresh_token: &str) -> (r: Request<Json>)
        ensures
            is_token_request(r, refresh_body(*self.config, refresh_token@)),
    {
        let mut v = common(self.config, "refresh_token");
        let ghost before = v@;
        let rt = String::from_str(refresh_token);
        v.push(text_member("refresh_token", Some(&rt)));
        proof {
            let expect = refresh_body(*self.config, refresh_token@);
            assert forall|i: int| 0 <= i < expect.len() implies (#[trigger] v@[i]).0@ == expect[i].0
                && crate::json::text_or_null(v@[i].1) == Some(expect[i].1) by {
                if i < before.len() {
                    assert(v@[i] == before[i]);
                }
            }
        }
        self.api.token(Json::Object(v))
    }
}

} // verus!
