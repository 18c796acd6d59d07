use vstd::prelude::*;

use crate::api::{
    profile_bank_accounts_call, profile_doing_business_as_get_call,
    profile_doing_business_as_update_call, profile_get_call, profile_settings_call,
    profile_update_call, Api, Request,
};
use crate::entity::{AccessToken, DoingBusinessAs, Profile};

verus! {

/// The merchant profile behind a token.
#[derive(Clone, Copy, Debug)]
pub struct Merchant<'a> {
    pub api: &'a Api,
    pub access_token: &'a AccessToken,
}

impl<'a> Merchant<'a> {
    pub fn new(api: &'a Api, access_token: &'a AccessToken) -> (r: Merchant<'a>)
        ensures
            r.api == api,
            r.access_token == access_token,
    {
        Merchant { api, access_token }
    }

    /// The merchant profile.
    pub fn profile(&self) -> (r: Request<()>)
        ensures
            profile_get_call(r, *self.access_token),
    {
        self.api.profile_get(self.access_token)
    }

    /// Replaces the merchant profile.
    pub fn update_profile<'b>(&self, profile: &'b Profile) -> (r: Request<&'b Profile>)
        ensures
            profile_update_call(r, profile, *self.access_token),
    {
        self.api.profile_update(profile, self.access_token)
    }

    /// The doing-business-as details.
    pub fn doing_business_as(&self) -> (r: Request<()>)
        ensures
            profile_doing_business_as_get_call(r, *self.access_token),
    {
        self.api.profile_doing_business_as_get(self.access_token)
    }

    /// Replaces the doing-business-as details.
    pub fn update_doing_business_as<'b>(&self, dba: &'b DoingBusinessAs) -> (r: Request<&'b DoingBusinessAs>)
        ensures
            profile_doing_business_as_update_call(r, dba, *self.access_token),
    {
        self.api.profile_doing_business_as_update(dba, self.access_token)
    }

    /// The merchant's bank accounts.
    pub fn bank_accounts(&self) -> (r: Request<()>)
        ensures
            profile_bank_accounts_call(r, *self.access_token),
    {
        self.api.profile_bank_accounts(self.access_token)
    }

    /// The merchant's settings.
    pub fn settings(&self) -> (r: Request<()>)
        ensures
            profile_settings_call(r, *self.access_token),
    {
        self.api.profile_settings(self.access_token)
    }
}

} // verus!
