use vstd::prelude::*;

use crate::api::{personal_get_call, Api, Request};
use crate::entity::AccessToken;

verus! {

/// The personal profile behind a token.
#[derive(Clone, Copy, Debug)]
pub struct Personal<'a> {
    pub api: &'a Api,
    pub access_token: &'a AccessToken,
}

impl<'a> Personal<'a> {
    pub fn new(api: &'a Api, access_token: &'a AccessToken) -> (r: Personal<'a>)
        ensures
            r.api == api,
            r.access_token == access_token,
    {
        Personal { api, access_token }
    }

    /// The personal profile.
    pub fn get(&self) -> (r: Request<()>)
        ensures
            personal_get_call(r, *self.access_token),
    {
        self.api.personal_get(self.access_token)
    }
}

} // verus!
