use vstd::prelude::*;

use crate::api::{
    decimal, decimal_text, transactions_get_by_code_call, transactions_get_by_internal_id_call,
    transactions_get_call, transactions_get_receipt_call, transactions_history_call, transactions_refund_call, Api, Request,
};
use crate::json::Json;
use crate::entity::{payment_type_wire, status_wire, type_wire, AccessToken, PaymentType, Status, Type};

verus! {

/// The transactions of a merchant.
#[derive(Clone, Copy, Debug)]
pub struct Transactions<'a> {
    pub api: &'a Api,
    pub access_token: &'a AccessToken,
}

/// Which transactions a history lists.
#[derive(Clone, Debug, Default)]
pub struct Filter {
    pub start_date: String,
    pub end_date: String,
    /// `asc` when unset.
    pub order: Option<String>,
    /// At most this many; 10 when unset.
    pub limit: Option<u32>,
    pub user_id: Option<u32>,
    pub users: Vec<u32>,
    pub statuses: Vec<Status>,
    pub payment_types: Vec<PaymentType>,
    pub types: Vec<Type>,
    pub changes_since: Option<String>,
    pub newest_time: Option<String>,
    pub newest_ref: Option<String>,
    pub oldest_time: Option<String>,
    pub oldest_ref: Option<String>,
}

/// The views of a sequence of strings.
pub open spec fn texts(v: Seq<String>) -> Seq<Seq<char>> {
    v.map_values(|s: String| s@)
}

/// `key=value` where the value is set, nothing otherwise.
pub open spec fn optional_part(key: Seq<char>, value: Option<String>) -> Seq<Seq<char>> {
    match value {
        Some(v) => seq![key + "="@ + v@],
        None => seq![],
    }
}

/// The parts joined by `&`.
pub open spec fn join_parts(parts: Seq<Seq<char>>) -> Seq<char>
    decreases parts.len(),
{
    if parts.len() == 0 {
        Seq::empty()
    } else if parts.len() == 1 {
        parts[0]
    } else {
        join_parts(parts.drop_last()) + "&"@ + parts.last()
    }
}

/// The parts of a filter's query string, in order.
pub open spec fn filter_parts(f: Filter) -> Seq<Seq<char>> {
    let order = match f.order {
        Some(o) => o@,
        None => "asc"@,
    };
    let limit: u32 = match f.limit {
        Some(l) => l,
        None => 10,
    };
    seq!["start_date="@ + f.start_date@ + "&end_date="@ + f.end_date@ + "&order="@ + order]
        + seq!["limit"@ + "="@ + decimal(limit as nat)] + match f.user_id {
        Some(u) => seq!["user_id"@ + "="@ + decimal(u as nat)],
        None => seq![],
    } + f.users@.map_values(|u: u32| "user"@ + "="@ + decimal(u as nat)) + f.statuses@.map_values(
        |s: Status| "statuse"@ + "="@ + status_wire(s),
    ) + f.payment_types@.map_values(|p: PaymentType| "payment_type"@ + "="@ + payment_type_wire(p))
        + f.types@.map_values(|t: Type| "type"@ + "="@ + type_wire(t)) + optional_part(
        "changes_since"@,
        f.changes_since,
    ) + optional_part("newest_time"@, f.newest_time) + optional_part(
        "newest_ref"@,
        f.newest_ref,
    ) + optional_part("oldest_time"@, f.oldest_time) + optional_part(
        "oldest_ref"@,
        f.oldest_ref,
    ) + seq!["format=json"@]
}

/// The query string of a filter.
pub open spec fn filter_query(f: Filter) -> Seq<char> {
    join_parts(filter_parts(f))
}

/// `key=value`.
fn part(key: &str, value: &str) -> (r: String)
    ensures
        r@ == key@ + "="@ + value@,
{
    let mut r = String::from_str(key);
    r.append("=");
    r.append(value);
    r
}

/// Adds `key=value` where the value is set.
fn push_optional(v: &mut Vec<String>, key: &str, value: &Option<String>)
    ensures
        texts(final(v)@) == texts(old(v)@) + optional_part(key@, *value),
{
    let ghost before = texts(v@);
    match value {
        Some(x) => {
            v.push(part(key, x.as_str()));
            assert(texts(v@) =~= before + optional_part(key@, *value));
        },
        None => {
            assert(texts(v@) =~= before + optional_part(key@, *value));
        },
    }
}

/// The parts joined by `&`.
fn join(parts: &Vec<String>) -> (r: String)
    ensures
        r@ == join_parts(texts(parts@)),
{
    let mut r = String::new();
    let mut i: usize = 0;
    while i < parts.len()
        invariant
            i <= parts@.len(),
            r@ == join_parts(texts(parts@).take(i as int)),
        decreases parts@.len() - i,
    {
        assert(texts(parts@).take(i + 1).drop_last() =~= texts(parts@).take(i as int));
        if i > 0 {
            r.append("&");
        }
        r.append(parts[i].as_str());
        i += 1;
    }
    assert(texts(parts@).take(i as int) =~= texts(parts@));
    r
}

/// Adds `key=value` for each item, in order.
fn push_numbers(v: &mut Vec<String>, key: &str, items: &Vec<u32>)
    ensures
        texts(final(v)@) == texts(old(v)@) + items@.map_values(|u: u32| key@ + "="@ + decimal(u as nat)),
{
    let ghost start = texts(v@);
    let mut i: usize = 0;
    while i < items.len()
        invariant
            i <= items@.len(),
            texts(v@) == start + items@.take(i as int).map_values(|u: u32| key@ + "="@ + decimal(u as nat)),
        decreases items@.len() - i,
    {
        let text = decimal_text(items[i] as u64);
        let ghost prev = texts(v@);
        let p = part(key, text.as_str());
        let ghost pv = p@;
        v.push(p);
        assert(texts(v@) =~= prev.push(pv));
        assert(items@.take(i + 1).map_values(|u: u32| key@ + "="@ + decimal(u as nat)) =~= items@.take(
            i as int,
        ).map_values(|u: u32| key@ + "="@ + decimal(u as nat)).push(key@ + "="@ + decimal(items@[i as int] as nat)));
        i += 1;
    }
    assert(items@.take(i as int) =~= items@);
}

/// Adds `key=value` for each item, in order.
fn push_statuses(v: &mut Vec<String>, key: &str, items: &Vec<Status>)
    ensures
        texts(final(v)@) == texts(old(v)@) + items@.map_values(|s: Status| key@ + "="@ + status_wire(s)),
{
    let ghost start = texts(v@);
    let mut i: usize = 0;
    while i < items.len()
        invariant
            i <= items@.len(),
            texts(v@) == start + items@.take(i as int).map_values(|s: Status| key@ + "="@ + status_wire(s)),
        decreases items@.len() - i,
    {
        let text = items[i].to_string();
        let ghost prev = texts(v@);
        let p = part(key, text.as_str());
        let ghost pv = p@;
        v.push(p);
        assert(texts(v@) =~= prev.push(pv));
        assert(items@.take(i + 1).map_values(|s: Status| key@ + "="@ + status_wire(s)) =~= items@.take(
            i as int,
        ).map_values(|s: Status| key@ + "="@ + status_wire(s)).push(key@ + "="@ + status_wire(items@[i as int])));
        i += 1;
    }
    assert(items@.take(i as int) =~= items@);
}

/// Adds `key=value` for each item, in order.
fn push_payment_types(v: &mut Vec<String>, key: &str, items: &Vec<PaymentType>)
    ensures
        texts(final(v)@) == texts(old(v)@) + items@.map_values(|p: PaymentType| key@ + "="@ + payment_type_wire(p)),
{
    let ghost start = texts(v@);
    let mut i: usize = 0;
    while i < items.len()
        invariant
            i <= items@.len(),
            texts(v@) == start + items@.take(i as int).map_values(|p: PaymentType| key@ + "="@ + payment_type_wire(p)),
        decreases items@.len() - i,
    {
        let text = items[i].to_string();
        let ghost prev = texts(v@);
        let p = part(key, text.as_str());
        let ghost pv = p@;
        v.push(p);
        assert(texts(v@) =~= prev.push(pv));
        assert(items@.take(i + 1).map_values(|p: PaymentType| key@ + "="@ + payment_type_wire(p)) =~= items@.take(
            i as int,
        ).map_values(|p: PaymentType| key@ + "="@ + payment_type_wire(p)).push(key@ + "="@ + payment_type_wire(items@[i as int])));
        i += 1;
    }
    assert(items@.take(i as int) =~= items@);
}

/// Adds `key=value` for each item, in order.
fn push_types(v: &mut Vec<String>, key: &str, items: &Vec<Type>)
    ensures
        texts(final(v)@) == texts(old(v)@) + items@.map_values(|t: Type| key@ + "="@ + type_wire(t)),
{
    let ghost start = texts(v@);
    let mut i: usize = 0;
    while i < items.len()
        invariant
            i <= items@.len(),
            texts(v@) == start + items@.take(i as int).map_values(|t: Type| key@ + "="@ + type_wire(t)),
        decreases items@.len() - i,
    {
        let text = items[i].to_string();
        let ghost prev = texts(v@);
        let p = part(key, text.as_str());
        let ghost pv = p@;
        v.push(p);
        assert(texts(v@) =~= prev.push(pv));
        assert(items@.take(i + 1).map_values(|t: Type| key@ + "="@ + type_wire(t)) =~= items@.take(
            i as int,
        ).map_values(|t: Type| key@ + "="@ + type_wire(t)).push(key@ + "="@ + type_wire(items@[i as int])));
        i += 1;
    }
    assert(items@.take(i as int) =~= items@);
}

impl Filter {
    /// The query string: dates and order (`asc` when unset), limit (10 when unset), the
    /// user, each user, status, payment type and kind, the set time and reference
    /// bounds, then the JSON format, joined by `&`.
    #[verifier::rlimit(40)]
    pub fn to_string(&self) -> (r: String)
        ensures
            r@ == filter_query(*self),
    {
        let mut v: Vec<String> = Vec::new();
        let mut first = String::from_str("start_date=");
        first.append(self.start_date.as_str());
        first.append("&end_date=");
        first.append(self.end_date.as_str());
        first.append("&order=");
        match &self.order {
            Some(o) => first.append(o.as_str()),
            None => first.append("asc"),
        }
        v.push(first);
        let limit: u32 = match self.limit {
            Some(l) => l,
            None => 10,
        };
        let digits = decimal_text(limit as u64);
        v.push(part("limit", digits.as_str()));
        let ghost head = texts(v@);
        if let Some(user_id) = self.user_id {
            let digits = decimal_text(user_id as u64);
            let p = part("user_id", digits.as_str());
            let ghost pv = p@;
            v.push(p);
            assert(texts(v@) =~= head.push(pv));
        } else {
            assert(texts(v@) =~= head);
        }
        push_numbers(&mut v, "user", &self.users);
        push_statuses(&mut v, "statuse", &self.statuses);
        push_payment_types(&mut v, "payment_type", &self.payment_types);
        push_types(&mut v, "type", &self.types);
        push_optional(&mut v, "changes_since", &self.changes_since);
        push_optional(&mut v, "newest_time", &self.newest_time);
        push_optional(&mut v, "newest_ref", &self.newest_ref);
        push_optional(&mut v, "oldest_time", &self.oldest_time);
        push_optional(&mut v, "oldest_ref", &self.oldest_ref);
        let ghost before_format = texts(v@);
        v.push(String::from_str("format=json"));
        assert(texts(v@) =~= before_format.push("format=json"@));
        assert(texts(v@) =~= filter_parts(*self));
        join(&v)
    }
}

impl<'a> Transactions<'a> {
    pub fn new(api: &'a Api, access_token: &'a AccessToken) -> (r: Transactions<'a>)
        ensures
            r.api == api,
            r.access_token == access_token,
    {
        Transactions { api, access_token }
    }

    /// The transaction with the given id.
    pub fn find_by_id(&self, id: &str) -> (r: Request<()>)
        ensures
            transactions_get_call(r, id@, *self.access_token),
    {
        self.api.transactions_get(id, self.access_token)
    }

    /// The transaction with the given internal id.
    pub fn find_by_internal_id(&self, internal_id: &str) -> (r: Request<()>)
        ensures
            transactions_get_by_internal_id_call(r, internal_id@, *self.access_token),
    {
        self.api.transactions_get_by_internal_id(internal_id, self.access_token)
    }

    /// The transaction with the given code.
    pub fn find_by_code(&self, code: &str) -> (r: Request<()>)
        ensures
            transactions_get_by_code_call(r, code@, *self.access_token),
    {
        self.api.transactions_get_by_code(code, self.access_token)
    }

    /// The transactions that `filter` selects.
    pub fn history(&self, filter: &Filter) -> (r: Request<()>)
        ensures
            transactions_history_call(r, *filter, *self.access_token),
    {
        self.api.transactions_history(filter, self.access_token)
    }

    /// Refunds the whole of a transaction: an empty JSON object as the body.
    pub fn full_refund(&self, id: u32) -> (r: Request<Json>)
        ensures
            r.payload matches Some(Json::Object(m)) && m@.len() == 0,
            transactions_refund_call(r, id, r.payload->0, *self.access_token),
    {
        self.api.transactions_refund(id, Json::Object(Vec::new()), self.access_token)
    }

    /// The receipt of a transaction.
    pub fn receipt(&self, id: u32, merchant_id: u32) -> (r: Request<()>)
        ensures
            transactions_get_receipt_call(r, id, merchant_id, *self.access_token),
    {
        self.api.transactions_get_receipt(id, merchant_id, self.access_token)
    }
}

} // verus!
