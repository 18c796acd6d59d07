use vstd::prelude::*;

use crate::api::{account_get_call, Api, Request};
use crate::entity::AccessToken;

verus! {

/// The account behind a token.
#[derive(Clone, Copy, Debug)]
pub struct Account<'a> {
    pub api: &'a Api,
    pub access_token: &'a AccessToken,
}

impl<'a> Account<'a> {
    pub fn new(api: &'a Api, access_token: &'a AccessToken) -> (r: Account<'a>)
        ensures
            r.api == api,
            r.access_token == access_token,
    {
        Account { api, access_token }
    }

    /// The account behind the token.
    pub fn get(&self) -> (r: Request<()>)
        ensures
            account_get_call(r, *self.access_token),
    {
        self.api.account_get(self.access_token)
    }
}

} // verus!
