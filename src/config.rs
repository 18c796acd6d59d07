use vstd::prelude::*;

use crate::scope::{Scope, Scopes};

verus! {

/// The OAuth2 flow used to obtain a token when the configuration holds no token.
#[derive(Clone, Copy, Debug, PartialEq, Eq, Structural)]
pub enum GrantType {
    AuthorizationCode,
    ClientCredentials,
    Password,
}

/// The wire form of a grant type.
pub open spec fn grant_wire(g: GrantType) -> Seq<char> {
    match g {
        GrantType::AuthorizationCode => "authorization_code"@,
        GrantType::ClientCredentials => "client_credentials"@,
        GrantType::Password => "password"@,
    }
}

impl GrantType {
    /// The wire form of this grant type.
    pub fn as_str(&self) -> (r: &'static str)
        ensures
            r@ == grant_wire(*self),
    {
        match self {
            GrantType::AuthorizationCode => "authorization_code",
            GrantType::ClientCredentials => "client_credentials",
            GrantType::Password => "password",
        }
    }
}

impl Default for GrantType {
    fn default() -> (r: GrantType)
        ensures
            r == GrantType::AuthorizationCode,
    {
        GrantType::AuthorizationCode
    }
}

/// How to obtain a token: read-only to the token manager.
#[derive(Clone, Debug)]
pub struct Config {
    /// The client id received when the application was registered.
    pub client_id: String,
    /// The client secret that belongs to the client id.
    pub client_secret: String,
    /// The flow used to acquire a token when no token is configured.
    pub grant_type: GrantType,
    /// The scopes that the application asks for.
    pub scopes: Scopes,
    /// The code returned by the last step of the authorization code flow.
    pub code: Option<String>,
    /// The username of the password flow.
    pub username: Option<String>,
    /// The password of the password flow.
    pub password: Option<String>,
    /// A valid access token acquired elsewhere; no token is requested when it is set.
    pub access_token: Option<String>,
    /// A refresh token through which a new access token can be requested.
    pub refresh_token: Option<String>,
}

impl Config {
    /// An authorization code configuration that asks for the transactions history scope.
    pub fn new(client_id: &str, client_secret: &str, code: &str) -> (r: Config)
        ensures
            r.client_id@ == client_id@,
            r.client_secret@ == client_secret@,
            r.grant_type == GrantType::AuthorizationCode,
            r.scopes@ == seq![Scope::TransactionsHistory],
            r.code matches Some(c) && c@ == code@,
            r.username is None,
            r.password is None,
            r.access_token is None,
            r.refresh_token is None,
    {
        let mut scopes: Vec<Scope> = Vec::new();
        scopes.push(Scope::TransactionsHistory);
        Config {
            client_id: String::from_str(client_id),
            client_secret: String::from_str(client_secret),
            grant_type: GrantType::AuthorizationCode,
            scopes: Scopes { scopes },
            code: Some(String::from_str(code)),
            username: None,
            password: None,
            access_token: None,
            refresh_token: None,
        }
    }
}

impl Default for Config {
    fn default() -> (r: Config)
        ensures
            r.client_id@ == Seq::<char>::empty(),
            r.client_secret@ == Seq::<char>::empty(),
            r.grant_type == GrantType::AuthorizationCode,
            r.scopes@ == Seq::<Scope>::empty(),
            r.code is None,
            r.username is None,
            r.password is None,
            r.access_token is None,
            r.refresh_token is None,
    {
        Config {
            client_id: String::new(),
            client_secret: String::new(),
            grant_type: GrantType::AuthorizationCode,
            scopes: Scopes::new(),
            code: None,
            username: None,
            password: None,
            access_token: None,
            refresh_token: None,
        }
    }
}

/// A copy of an optional text.
pub fn copy_text(o: &Option<String>) -> (r: Option<String>)
    ensures
        r == *o,
{
    match o {
        Some(s) => Some(s.clone()),
        None => None,
    }
}

} // verus!
