use vstd::prelude::*;

use crate::api::{
    customer_create_call, customer_create_payment_instruments_call,
    customer_delete_payment_instruments_call, customer_get_call, customer_payment_instruments_call,
    customer_update_call, Api, Request,
};
use crate::entity::{AccessToken, Card, Customer as CustomerRecord};
use crate::json::{members_are, text_member, Json};

verus! {

/// The customers of a merchant.
#[derive(Clone, Copy, Debug)]
pub struct Customer<'a> {
    pub api: &'a Api,
    pub access_token: &'a AccessToken,
}

/// The members of a card, in declaration order.
pub open spec fn card_members(card: Card) -> Seq<(Seq<char>, Option<Seq<char>>)> {
    seq![
        ("name"@, Some(card.name@)),
        ("number"@, Some(card.number@)),
        ("expiry_year"@, Some(card.expiry_year@)),
        ("expiry_month"@, Some(card.expiry_month@)),
        ("cvv"@, Some(card.cvv@)),
        ("zip_code"@, Some(card.zip_code@)),
    ]
}

/// Whether `j` is the body that registers `card` as a payment instrument:
/// `{"type": "card", "card": {...}}`.
pub open spec fn is_instrument_body(j: Json, card: Card) -> bool {
    match j {
        Json::Object(m) => {
            &&& m@.len() == 2
            &&& m@[0].0@ == "type"@
            &&& m@[0].1 matches Json::Str(t) && t@ == "card"@
            &&& m@[1].0@ == "card"@
            &&& m@[1].1 matches Json::Object(c) && members_are(c@, card_members(card))
        },
        _ => false,
    }
}

/// A card as a JSON object.
fn card_json(card: &Card) -> (r: Json)
    ensures
        r matches Json::Object(m) && members_are(m@, card_members(*card)),
{
    let mut v: Vec<(String, Json)> = Vec::new();
    v.push(text_member("name", Some(&card.name)));
    v.push(text_member("number", Some(&card.number)));
    v.push(text_member("expiry_year", Some(&card.expiry_year)));
    v.push(text_member("expiry_month", Some(&card.expiry_month)));
    v.push(text_member("cvv", Some(&card.cvv)));
    v.push(text_member("zip_code", Some(&card.zip_code)));
    Json::Object(v)
}

impl<'a> Customer<'a> {
    pub fn new(api: &'a Api, access_token: &'a AccessToken) -> (r: Customer<'a>)
        ensures
            r.api == api,
            r.access_token == access_token,
    {
        Customer { api, access_token }
    }

    /// Creates a customer.
    pub fn create<'b>(&self, customer: &'b CustomerRecord) -> (r: Request<&'b CustomerRecord>)
        ensures
            customer_create_call(r, customer, *self.access_token),
    {
        self.api.customer_create(customer, self.access_token)
    }

    /// Replaces the customer with the same id.
    pub fn update<'b>(&self, customer: &'b CustomerRecord) -> (r: Request<&'b CustomerRecord>)
        ensures
            customer_update_call(r, customer.customer_id@, customer, *self.access_token),
    {
        self.api.customer_update(customer.customer_id.as_str(), customer, self.access_token)
    }

    /// The customer with the given id.
    pub fn get(&self, id: &str) -> (r: Request<()>)
        ensures
            customer_get_call(r, id@, *self.access_token),
    {
        self.api.customer_get(id, self.access_token)
    }

    /// The payment instruments of a customer.
    pub fn payment_instruments(&self, customer_id: &str) -> (r: Request<()>)
        ensures
            customer_payment_instruments_call(r, customer_id@, *self.access_token),
    {
        self.api.customer_payment_instruments(customer_id, self.access_token)
    }

    /// Registers a card as a payment instrument of a customer.
    pub fn create_payment_instruments(&self, customer_id: &str, card: &Card) -> (r: Request<Json>)
        ensures
            r.payload matches Some(j) && is_instrument_body(j, *card),
            customer_create_payment_instruments_call(
                r,
                customer_id@,
                r.payload->0,
                *self.access_token,
            ),
    {
        let mut v: Vec<(String, Json)> = Vec::new();
        v.push((String::from_str("type"), Json::Str(String::from_str("card"))));
        v.push((String::from_str("card"), card_json(card)));
        self.api.customer_create_payment_instruments(customer_id, Json::Object(v), self.access_token)
    }

    /// Deactivates a payment instrument of a customer.
    pub fn delete_payment_instruments(&self, customer_id: &str, card_token: &str) -> (r: Request<
        (),
    >)
        ensures
            customer_delete_payment_instruments_call(
                r,
                customer_id@,
                card_token@,
                *self.access_token,
            ),
    {
        self.api.customer_delete_payment_instruments(customer_id, card_token, self.access_token)
    }
}

} // verus!
