use vstd::prelude::*;

use crate::api::{
    subaccounts_create_call, subaccounts_delete_call, subaccounts_list_call,
    subaccounts_update_call, Api, Request,
};
use crate::entity::AccessToken;
use crate::json::{members_are, text_member, Json};

verus! {

/// The operator accounts under a merchant.
#[derive(Clone, Copy, Debug)]
pub struct Subaccounts<'a> {
    pub api: &'a Api,
    pub access_token: &'a AccessToken,
}

/// The members set by an update, in order: the new username, then the new password.
pub open spec fn update_members(
    new_username: Option<Seq<char>>,
    new_password: Option<Seq<char>>,
) -> Seq<(Seq<char>, Option<Seq<char>>)> {
    (match new_username {
        Some(u) => seq![("username"@, Some(u))],
        None => seq![],
    }) + (match new_password {
        Some(p) => seq![("password"@, Some(p))],
        None => seq![],
    })
}

/// The view of an optional text.
pub open spec fn str_view(o: Option<&str>) -> Option<Seq<char>> {
    match o {
        Some(s) => Some(s@),
        None => None,
    }
}

impl<'a> Subaccounts<'a> {
    pub fn new(api: &'a Api, access_token: &'a AccessToken) -> (r: Subaccounts<'a>)
        ensures
            r.api == api,
            r.access_token == access_token,
    {
        Subaccounts { api, access_token }
    }

    /// Creates an operator account with the given email as username.
    pub fn create(&self, email: &str, password: &str) -> (r: Request<Json>)
        ensures
            r.payload matches Some(Json::Object(m)) && members_are(
                m@,
                seq![("username"@, Some(email@)), ("password"@, Some(password@))],
            ),
            subaccounts_create_call(r, r.payload->0, *self.access_token),
    {
        let email = String::from_str(email);
        let password = String::from_str(password);
        let mut v: Vec<(String, Json)> = Vec::new();
        v.push(text_member("username", Some(&email)));
        v.push(text_member("password", Some(&password)));
        self.api.subaccounts_create(Json::Object(v), self.access_token)
    }

    /// The operator accounts.
    pub fn list(&self) -> (r: Request<()>)
        ensures
            subaccounts_list_call(r, *self.access_token),
    {
        self.api.subaccounts_list(self.access_token)
    }

    /// Changes the username, the password, or both, of an operator account; what is not
    /// given is left out of the body.
    pub fn update(&self, id: &str, new_username: Option<&str>, new_password: Option<&str>) -> (r:
        Request<Json>)
        ensures
            r.payload matches Some(Json::Object(m)) && members_are(
                m@,
                update_members(str_view(new_username), str_view(new_password)),
            ),
            subaccounts_update_call(r, id@, r.payload->0, *self.access_token),
    {
        let mut v: Vec<(String, Json)> = Vec::new();
        if let Some(u) = new_username {
            let u = String::from_str(u);
            v.push(text_member("username", Some(&u)));
        }
        let ghost before = v@;
        if let Some(p) = new_password {
            let p = String::from_str(p);
            v.push(text_member("password", Some(&p)));
        }
        proof {
            let expect = update_members(str_view(new_username), str_view(new_password));
            assert forall|i: int| 0 <= i < expect.len() implies (#[trigger] v@[i]).0@ == expect[i].0
                && crate::json::text_or_null(v@[i].1) == Some(expect[i].1) by {
                if i < before.len() {
                    assert(v@[i] == before[i]);
                }
            }
        }
        self.api.subaccounts_update(id, Json::Object(v), self.access_token)
    }

    /// Deactivates an operator account.
    pub fn delete(&self, id: &str) -> (r: Request<()>)
        ensures
            subaccounts_delete_call(r, id@, *self.access_token),
    {
        self.api.subaccounts_delete(id, self.access_token)
    }
}

} // verus!
