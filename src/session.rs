use vstd::prelude::*;

use crate::api::{token_reply_as, Api, Reply, Request};
use crate::config::{Config, GrantType};
use crate::entity::AccessToken;
use crate::errors::{AuthError, Error};
use crate::json::Json;
use crate::scope::Scope;
use crate::services::authorization::{acquired, is_token_request, refresh_body};
use crate::services::{
    Account, Authorization, Checkout, Customer, Merchant, Payouts, Personal, Subaccounts,
    TokenStep, Transactions,
};

verus! {

/// A session: the token held for a configuration, replaced wholesale on refresh.
#[derive(Debug)]
pub struct SumUp {
    pub access_token: AccessToken,
    pub api: Api,
    pub config: Config,
}

/// A session being opened.
#[derive(Debug)]
pub enum Opening {
    /// The token was known without any call.
    Ready(SumUp),
    /// The token endpoint must be called with `request`; `Pending::complete` reads its reply.
    Pending(Pending),
}

/// A session that awaits the token endpoint's reply.
#[derive(Debug)]
pub struct Pending {
    pub api: Api,
    pub config: Config,
    pub request: Request<Json>,
}

/// Whether opening a session for `config` gave `r`: it follows acquiring a token.
pub open spec fn opened(config: Config, r: Result<Opening, Error>) -> bool {
    match r {
        Ok(Opening::Ready(s)) => s.config == config && acquired(
            config,
            Ok(TokenStep::Ready(s.access_token)),
        ),
        Ok(Opening::Pending(p)) => p.config == config && acquired(
            config,
            Ok(TokenStep::Send(p.request)),
        ),
        Err(e) => acquired(config, Err(e)),
    }
}

/// The refresh token that a refresh uses: the one given, else the held token's.
pub open spec fn refresh_token_for(given: Option<&str>, held: AccessToken) -> Option<Seq<char>> {
    match given {
        Some(t) => Some(t@),
        None => match held.refresh_token {
            Some(t) => Some(t@),
            None => None,
        },
    }
}

impl Pending {
    /// Completes the session with the token endpoint's reply.
    pub fn complete(self, reply: &Reply) -> (r: Result<SumUp, Error>)
        ensures
            match r {
                Ok(s) => s.config == self.config && token_reply_as(*reply, Ok(s.access_token)),
                Err(e) => token_reply_as(*reply, Err(e)),
            },
    {
        let access_token = Api::read_token(reply)?;
        Ok(SumUp { access_token, api: self.api, config: self.config })
    }
}

impl SumUp {
    /// Opens a session through the authorization code flow.
    pub fn new(client_id: &str, client_secret: &str, code: &str) -> (r: Result<Opening, Error>)
        ensures
            r matches Ok(Opening::Pending(p)) && {
                &&& p.config.client_id@ == client_id@
                &&& p.config.client_secret@ == client_secret@
                &&& p.config.code matches Some(c) && c@ == code@
                &&& p.config.grant_type == GrantType::AuthorizationCode
                &&& p.config.scopes@ == seq![Scope::TransactionsHistory]
                &&& p.config.username is None
                &&& p.config.password is None
                &&& p.config.access_token is None
                &&& p.config.refresh_token is None
                &&& opened(p.config, r)
            },
    {
        let config = Config::new(client_id, client_secret, code);
        SumUp::from(config)
    }

    /// Opens a session for `config`: the token is known at once, or the token endpoint
    /// must be called; a failed local precondition makes no call.
    pub fn from(config: Config) -> (r: Result<Opening, Error>)
        ensures
            opened(config, r),
    {
        let api = Api::new();
        let step = Authorization::new(&api, &config).token();
        match step {
            Ok(TokenStep::Ready(access_token)) => Ok(Opening::Ready(SumUp { access_token, api, config })),
            Ok(TokenStep::Send(request)) => Ok(Opening::Pending(Pending { api, config, request })),
            Err(e) => Err(e),
        }
    }

    /// The refresh request, with the refresh token given or else the held token's; where
    /// there is neither, an `Auth` error and no call.
    pub fn refresh_token(&self, refresh_token: Option<&str>) -> (r: Result<Request<Json>, Error>)
        ensures
            match refresh_token_for(refresh_token, self.access_token) {
                None => r matches Err(Error::Auth(AuthError::MissingRefreshToken)),
                Some(t) => r matches Ok(q) && is_token_request(q, refresh_body(self.config, t)),
            },
    {
        let token: &str = match refresh_token {
            Some(t) => t,
            None => match &self.access_token.refresh_token {
                Some(t) => t.as_str(),
                None => return Err(Error::Auth(AuthError::MissingRefreshToken)),
            },
        };
        Ok(self.authorization().refresh_token(token))
    }

    /// Replaces the held token with the one in the token endpoint's reply; on failure the
    /// session is left as it was.
    pub fn apply_refresh(&mut self, reply: &Reply) -> (r: Result<(), Error>)
        ensures
            match r {
                Ok(()) => final(self).config == old(self).config && token_reply_as(
                    *reply,
                    Ok(final(self).access_token),
                ),
                Err(e) => *final(self) == *old(self) && token_reply_as(*reply, Err(e)),
            },
    {
        match Api::read_token(reply) {
            Ok(t) => {
                self.access_token = t;
                Ok(())
            },
            Err(e) => Err(e),
        }
    }

    pub fn account(&self) -> (r: Account<'_>)
        ensures
            *r.api == self.api,
            *r.access_token == self.access_token,
    {
        Account::new(&self.api, &self.access_token)
    }

    pub fn authorization(&self) -> (r: Authorization<'_>)
        ensures
            *r.api == self.api,
            *r.config == self.config,
    {
        Authorization::new(&self.api, &self.config)
    }

    pub fn checkout(&self) -> (r: Checkout<'_>)
        ensures
            *r.api == self.api,
            *r.access_token == self.access_token,
    {
        Checkout::new(&self.api, &self.access_token)
    }

    pub fn customer(&self) -> (r: Customer<'_>)
        ensures
            *r.api == self.api,
            *r.access_token == self.access_token,
    {
        Customer::new(&self.api, &self.access_token)
    }

    pub fn merchant(&self) -> (r: Merchant<'_>)
        ensures
            *r.api == self.api,
            *r.access_token == self.access_token,
    {
        Merchant::new(&self.api, &self.access_token)
    }

    pub fn payouts(&self) -> (r: Payouts<'_>)
        ensures
            *r.api == self.api,
            *r.access_token == self.access_token,
    {
        Payouts::new(&self.api, &self.access_token)
    }

    pub fn personal(&self) -> (r: Personal<'_>)
        ensures
            *r.api == self.api,
            *r.access_token == self.access_token,
    {
        Personal::new(&self.api, &self.access_token)
    }

    pub fn subaccounts(&self) -> (r: Subaccounts<'_>)
        ensures
            *r.api == self.api,
            *r.access_token == self.access_token,
    {
        Subaccounts::new(&self.api, &self.access_token)
    }

    pub fn transactions(&self) -> (r: Transactions<'_>)
        ensures
            *r.api == self.api,
            *r.access_token == self.access_token,
    {
        Transactions::new(&self.api, &self.access_token)
    }
}

} // verus!
