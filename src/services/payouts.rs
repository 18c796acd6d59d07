use vstd::prelude::*;

use crate::api::{decimal, decimal_text, payouts_list_call, transactions_list_call, Api, Request};
use crate::entity::AccessToken;

verus! {

/// The payouts and transactions of a merchant.
#[derive(Clone, Copy, Debug)]
pub struct Payouts<'a> {
    pub api: &'a Api,
    pub access_token: &'a AccessToken,
}

/// Which payouts or transactions to list.
#[derive(Clone, Debug, Default)]
pub struct Filter {
    pub start_date: String,
    pub end_date: String,
    /// At most this many; 10 when unset.
    pub limit: Option<u32>,
    pub descending_order: bool,
}

/// The query string of a filter.
pub open spec fn filter_query(f: Filter) -> Seq<char> {
    let limit: u32 = match f.limit {
        Some(l) => l,
        None => 10,
    };
    "start_date="@ + f.start_date@ + "&end_date="@ + f.end_date@ + "&limit="@ + decimal(
        limit as nat,
    ) + "&order="@ + (if f.descending_order {
        "desc"@
    } else {
        "asc"@
    }) + "&format=json"@
}

impl Filter {
    /// The query string: dates, limit (10 when unset), order and the JSON format.
    pub fn to_string(&self) -> (r: String)
        ensures
            r@ == filter_query(*self),
    {
        let limit: u32 = match self.limit {
            Some(l) => l,
            None => 10,
        };
        let mut r = String::from_str("start_date=");
        r.append(self.start_date.as_str());
        r.append("&end_date=");
        r.append(self.end_date.as_str());
        r.append("&limit=");
        let digits = decimal_text(limit as u64);
        r.append(digits.as_str());
        r.append("&order=");
        r.append(if self.descending_order { "desc" } else { "asc" });
        r.append("&format=json");
        r
    }
}

impl<'a> Payouts<'a> {
    pub fn new(api: &'a Api, access_token: &'a AccessToken) -> (r: Payouts<'a>)
        ensures
            r.api == api,
            r.access_token == access_token,
    {
        Payouts { api, access_token }
    }

    /// The payouts that `filters` selects.
    pub fn payouts(&self, filters: &Filter) -> (r: Request<()>)
        ensures
            payouts_list_call(r, *filters, *self.access_token),
    {
        self.api.payouts_list(filters, self.access_token)
    }

    /// The transactions that `filters` selects.
    pub fn transactions(&self, filters: &Filter) -> (r: Request<()>)
        ensures
            transactions_list_call(r, *filters, *self.access_token),
    {
        self.api.transactions_list(filters, self.access_token)
    }
}

} // verus!
