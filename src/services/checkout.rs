use vstd::prelude::*;

use crate::api::{
    checkout_create_call, checkout_delete_call, checkout_get_call, checkout_list_call,
    checkout_reference_id_call, checkout_update_call, Api, Request,
};
use crate::entity::AccessToken;
use crate::json::Json;

verus! {

/// The checkouts of a merchant.
#[derive(Clone, Copy, Debug)]
pub struct Checkout<'a> {
    pub api: &'a Api,
    pub access_token: &'a AccessToken,
}

/// Whether `j` is the body that pays a checkout by card:
/// `{"payment_type": "card", "customer_id": ..., "token": ..., "installments": ...}`.
pub open spec fn is_payment_body(j: Json, customer_id: Seq<char>, card_token: Seq<char>, installments: u8) -> bool {
    match j {
        Json::Object(m) => {
            &&& m@.len() == 4
            &&& m@[0].0@ == "payment_type"@
            &&& m@[0].1 matches Json::Str(t) && t@ == "card"@
            &&& m@[1].0@ == "customer_id"@
            &&& m@[1].1 matches Json::Str(c) && c@ == customer_id
            &&& m@[2].0@ == "token"@
            &&& m@[2].1 matches Json::Str(t) && t@ == card_token
            &&& m@[3].0@ == "installments"@
            &&& m@[3].1 == Json::Unsigned(installments as u64)
        },
        _ => false,
    }
}

impl<'a> Checkout<'a> {
    pub fn new(api: &'a Api, access_token: &'a AccessToken) -> (r: Checkout<'a>)
        ensures
            r.api == api,
            r.access_token == access_token,
    {
        Checkout { api, access_token }
    }

    /// Creates a checkout from its JSON form.
    pub fn create<P>(&self, checkout: P) -> (r: Request<P>)
        ensures
            checkout_create_call(r, checkout, *self.access_token),
    {
        self.api.checkout_create(checkout, self.access_token)
    }

    /// The checkouts with the given reference.
    pub fn list(&self, checkout_reference: &str) -> (r: Request<()>)
        ensures
            checkout_list_call(r, checkout_reference@, *self.access_token),
    {
        self.api.checkout_list(checkout_reference, self.access_token)
    }

    /// The checkout with the given id.
    pub fn find_by_id(&self, id: &str) -> (r: Request<()>)
        ensures
            checkout_get_call(r, id@, *self.access_token),
    {
        self.api.checkout_get(id, self.access_token)
    }

    /// The checkout with the given reference.
    pub fn find_by_reference_id(&self, reference_id: &str) -> (r: Request<()>)
        ensures
            checkout_reference_id_call(r, reference_id@, *self.access_token),
    {
        self.api.checkout_reference_id(reference_id, self.access_token)
    }

    /// Deactivates a checkout.
    pub fn delete(&self, id: &str) -> (r: Request<()>)
        ensures
            checkout_delete_call(r, id@, *self.access_token),
    {
        self.api.checkout_delete(id, self.access_token)
    }

    /// Pays a checkout with a customer's stored card, in one installment when unset.
    pub fn pay(&self, id: &str, customer_id: &str, card_token: &str, installments: Option<u8>) -> (r:
        Request<Json>)
        ensures
            r.payload matches Some(j) && is_payment_body(
                j,
                customer_id@,
                card_token@,
                match installments {
                    Some(n) => n,
                    None => 1u8,
                },
            ),
            checkout_update_call(r, id@, r.payload->0, *self.access_token),
    {
        let n: u8 = match installments {
            Some(n) => n,
            None => 1,
        };
        let mut v: Vec<(String, Json)> = Vec::new();
        v.push((String::from_str("payment_type"), Json::Str(String::from_str("card"))));
        v.push((String::from_str("customer_id"), Json::Str(String::from_str(customer_id))));
        v.push((String::from_str("token"), Json::Str(String::from_str(card_token))));
        v.push((String::from_str("installments"), Json::Unsigned(n as u64)));
        self.api.checkout_update(id, Json::Object(v), self.access_token)
    }
}

} // verus!
