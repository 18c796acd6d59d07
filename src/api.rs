use vstd::prelude::*;

use crate::entity::{bearer_of, AccessToken, DoingBusinessAs, PaymentMethod, Profile};
use crate::errors::{error_of_body, Error, JsonError};
use crate::json::{parse, parsed_json, Json};

verus! {

/// The HTTP method of a call.
#[derive(Clone, Copy, Debug, PartialEq, Eq, Structural)]
pub enum Method {
    Delete,
    Get,
    Post,
    Put,
}

/// One HTTP call for the transport to make: JSON `payload` is sent as the body whatever
/// the method, and `authorization` is the `Authorization` header.
#[derive(Clone, Debug)]
pub struct Request<P> {
    pub method: Method,
    pub url: String,
    pub payload: Option<P>,
    pub authorization: Option<String>,
}

/// What the transport received for a call.
#[derive(Clone, Debug)]
pub struct Reply {
    pub status: u16,
    pub body: String,
}

/// Statuses that the transport treats as success: below 400.
pub open spec fn is_success(status: u16) -> bool {
    status < 400
}

/// What reading the token endpoint's `reply` gives: the token for a success reply whose
/// body is a token, else the failure.
pub open spec fn token_reply_as(reply: Reply, r: Result<AccessToken, Error>) -> bool {
    if is_success(reply.status) {
        match parsed_json(reply.body@) {
            Some(j) => crate::entity::token_read_as(j, r),
            None => r matches Err(Error::Json(JsonError::Syntax(_))),
        }
    } else {
        r matches Err(e) && error_of_body(reply.body@, e)
    }
}

/// The platform's address.
pub open spec fn base_url() -> Seq<char> {
    "https://api.sumup.com"@
}

/// The base address, then `path`, then each segment after a slash.
pub open spec fn url_of(path: Seq<char>, segments: Seq<Seq<char>>) -> Seq<char>
    decreases segments.len(),
{
    if segments.len() == 0 {
        base_url() + path
    } else {
        url_of(path, segments.drop_last()) + "/"@ + segments.last()
    }
}

/// One decimal digit.
pub open spec fn digit(d: nat) -> char {
    seq!['0', '1', '2', '3', '4', '5', '6', '7', '8', '9'][d as int]
}

/// The decimal form of `n`, without sign or leading zeros.
pub open spec fn decimal(n: nat) -> Seq<char>
    decreases n,
{
    if n < 10 {
        seq![digit(n)]
    } else {
        decimal(n / 10).push(digit(n % 10))
    }
}

/// The text of one decimal digit.
fn digit_text(d: u64) -> (r: &'static str)
    requires
        d < 10,
    ensures
        r@ == seq![digit(d as nat)],
{
    proof {
        reveal_strlit("0");
        reveal_strlit("1");
        reveal_strlit("2");
        reveal_strlit("3");
        reveal_strlit("4");
        reveal_strlit("5");
        reveal_strlit("6");
        reveal_strlit("7");
        reveal_strlit("8");
        reveal_strlit("9");
    }
    let r = if d == 0 {
        "0"
    } else if d == 1 {
        "1"
    } else if d == 2 {
        "2"
    } else if d == 3 {
        "3"
    } else if d == 4 {
        "4"
    } else if d == 5 {
        "5"
    } else if d == 6 {
        "6"
    } else if d == 7 {
        "7"
    } else if d == 8 {
        "8"
    } else {
        "9"
    };
    assert(r@ =~= seq![digit(d as nat)]);
    r
}

/// The decimal form of `n`, without sign or leading zeros.
pub(crate) fn decimal_text(n: u64) -> (r: String)
    ensures
        r@ == decimal(n as nat),
    decreases n,
{
    if n < 10 {
        String::from_str(digit_text(n))
    } else {
        let mut r = decimal_text(n / 10);
        r.append(digit_text(n % 10));
        assert(r@ =~= decimal((n / 10) as nat).push(digit((n % 10) as nat)));
        r
    }
}

/// Whether `r` is the call `method url` with `payload`, under the bearer of `token`.
pub open spec fn is_call<P>(
    r: Request<P>,
    method: Method,
    url: Seq<char>,
    payload: Option<P>,
    token: Option<AccessToken>,
) -> bool {
    &&& r.method == method
    &&& r.url@ == url
    &&& r.payload == payload
    &&& match token {
        Some(t) => r.authorization matches Some(a) && a@ == bearer_of(t),
        None => r.authorization is None,
    }
}

/// The address of `path` under the platform's base, then each segment after a slash.
pub fn url(path: &str, segments: &[&str]) -> (r: String)
    ensures
        r@ == url_of(path@, segments@.map_values(|s: &str| s@)),
{
    let mut r = String::from_str("https://api.sumup.com");
    r.append(path);
    let mut i: usize = 0;
    while i < segments.len()
        invariant
            i <= segments@.len(),
            r@ == url_of(path@, segments@.take(i as int).map_values(|s: &str| s@)),
        decreases segments@.len() - i,
    {
        let ghost before = segments@.take(i as int).map_values(|s: &str| s@);
        r.append("/");
        r.append(segments[i]);
        assert(segments@.take(i + 1).map_values(|s: &str| s@).drop_last() =~= before);
        i += 1;
    }
    assert(segments@.take(i as int) =~= segments@);
    r
}

/// `base` followed by `?`, `key`, `=` and `value`.
pub fn with_query(base: String, key: &str, value: &str) -> (r: String)
    ensures
        r@ == base@ + "?"@ + key@ + "="@ + value@,
{
    let mut r = base;
    r.append("?");
    r.append(key);
    r.append("=");
    r.append(value);
    r
}

/// POST /token with `payload`, without a bearer.
pub open spec fn token_call<P>(r: Request<P>, payload: P) -> bool {
    is_call(r, Method::Post, url_of("/token"@, seq![]), Some(payload), None)
}

/// GET /v0.1/me: the account behind the token.
pub open spec fn account_get_call(r: Request<()>, token: AccessToken) -> bool {
    is_call(r, Method::Get, url_of("/v0.1/me"@, seq![]), None, Some(token))
}

/// POST /checkouts with `payload`.
pub open spec fn checkout_create_call<P>(r: Request<P>, payload: P, token: AccessToken) -> bool {
    is_call(r, Method::Post, url_of("/checkouts"@, seq![]), Some(payload), Some(token))
}

/// GET /v0.1/checkouts?checkout_reference=...
pub open spec fn checkout_list_call(
    r: Request<()>,
    checkout_reference: Seq<char>,
    token: AccessToken,
) -> bool {
    is_call(
        r,
        Method::Get,
        url_of("/v0.1/checkouts"@, seq![]) + "?"@ + "checkout_reference"@ + "="@ + checkout_reference,
        None,
        Some(token),
    )
}

/// GET /checkouts/{id}.
pub open spec fn checkout_get_call(r: Request<()>, id: Seq<char>, token: AccessToken) -> bool {
    is_call(r, Method::Get, url_of("/checkouts"@, seq![id]), None, Some(token))
}

/// GET /checkouts?checkout_reference=...
pub open spec fn checkout_reference_id_call(
    r: Request<()>,
    reference_id: Seq<char>,
    token: AccessToken,
) -> bool {
    is_call(
        r,
        Method::Get,
        url_of("/checkouts"@, seq![]) + "?"@ + "checkout_reference"@ + "="@ + reference_id,
        None,
        Some(token),
    )
}

/// DELETE /checkouts/{id}.
pub open spec fn checkout_delete_call(r: Request<()>, id: Seq<char>, token: AccessToken) -> bool {
    is_call(r, Method::Delete, url_of("/checkouts"@, seq![id]), None, Some(token))
}

/// PUT /checkouts/{id} with `payload`.
pub open spec fn checkout_update_call<P>(
    r: Request<P>,
    id: Seq<char>,
    payload: P,
    token: AccessToken,
) -> bool {
    is_call(r, Method::Put, url_of("/checkouts"@, seq![id]), Some(payload), Some(token))
}

/// POST /v0.1/customers with `payload`.
pub open spec fn customer_create_call<P>(r: Request<P>, payload: P, token: AccessToken) -> bool {
    is_call(r, Method::Post, url_of("/v0.1/customers"@, seq![]), Some(payload), Some(token))
}

/// PUT /v0.1/customers/{id} with `payload`.
pub open spec fn customer_update_call<P>(
    r: Request<P>,
    id: Seq<char>,
    payload: P,
    token: AccessToken,
) -> bool {
    is_call(r, Method::Put, url_of("/v0.1/customers"@, seq![id]), Some(payload), Some(token))
}

/// GET /v0.1/customers/{id}.
pub open spec fn customer_get_call(r: Request<()>, id: Seq<char>, token: AccessToken) -> bool {
    is_call(r, Method::Get, url_of("/v0.1/customers"@, seq![id]), None, Some(token))
}

/// GET /v0.1/customers/{customer_id}/payment-instruments.
pub open spec fn customer_payment_instruments_call(
    r: Request<()>,
    customer_id: Seq<char>,
    token: AccessToken,
) -> bool {
    is_call(
        r,
        Method::Get,
        url_of("/v0.1/customers"@, seq![customer_id, "payment-instruments"@]),
        None,
        Some(token),
    )
}

/// POST /v0.1/customers/{customer_id}/payment-instruments with `payload`.
pub open spec fn customer_create_payment_instruments_call<P>(
    r: Request<P>,
    customer_id: Seq<char>,
    payload: P,
    token: AccessToken,
) -> bool {
    is_call(
        r,
        Method::Post,
        url_of("/v0.1/customers"@, seq![customer_id, "payment-instruments"@]),
        Some(payload),
        Some(token),
    )
}

/// DELETE /customers/{customer_id}/payment-instruments/{card_token}.
pub open spec fn customer_delete_payment_instruments_call(
    r: Request<()>,
    customer_id: Seq<char>,
    card_token: Seq<char>,
    token: AccessToken,
) -> bool {
    is_call(
        r,
        Method::Delete,
        url_of("/customers"@, seq![customer_id, "payment-instruments"@, card_token]),
        None,
        Some(token),
    )
}

/// GET /v0.1/me/personal-profile.
pub open spec fn personal_get_call(r: Request<()>, token: AccessToken) -> bool {
    is_call(r, Method::Get, url_of("/v0.1/me/personal-profile"@, seq![]), None, Some(token))
}

/// GET /v0.1/me/merchant-profile.
pub open spec fn profile_get_call(r: Request<()>, token: AccessToken) -> bool {
    is_call(r, Method::Get, url_of("/v0.1/me/merchant-profile"@, seq![]), None, Some(token))
}

/// PUT /v0.1/me/merchant-profile with the profile.
pub open spec fn profile_update_call<P>(r: Request<P>, payload: P, token: AccessToken) -> bool {
    is_call(
        r,
        Method::Put,
        url_of("/v0.1/me/merchant-profile"@, seq![]),
        Some(payload),
        Some(token),
    )
}

/// GET /v0.1/me/merchant-profile/doing-business-as.
pub open spec fn profile_doing_business_as_get_call(r: Request<()>, token: AccessToken) -> bool {
    is_call(
        r,
        Method::Get,
        url_of("/v0.1/me/merchant-profile/doing-business-as"@, seq![]),
        None,
        Some(token),
    )
}

/// PUT /v0.1/me/merchant-profile/doing-business-as with `dba`.
pub open spec fn profile_doing_business_as_update_call<P>(
    r: Request<P>,
    payload: P,
    token: AccessToken,
) -> bool {
    is_call(
        r,
        Method::Put,
        url_of("/v0.1/me/merchant-profile/doing-business-as"@, seq![]),
        Some(payload),
        Some(token),
    )
}

/// GET /v0.1/me/merchant-profile/bank-accounts.
pub open spec fn profile_bank_accounts_call(r: Request<()>, token: AccessToken) -> bool {
    is_call(
        r,
        Method::Get,
        url_of("/v0.1/me/merchant-profile/bank-accounts"@, seq![]),
        None,
        Some(token),
    )
}

/// GET /v0.1/me/merchant-profile/settings.
pub open spec fn profile_settings_call(r: Request<()>, token: AccessToken) -> bool {
    is_call(
        r,
        Method::Get,
        url_of("/v0.1/me/merchant-profile/settings"@, seq![]),
        None,
        Some(token),
    )
}

/// GET /v0.1/me/financials/payouts?{filter}.
pub open spec fn payouts_list_call(
    r: Request<()>,
    filter: crate::services::payouts::Filter,
    token: AccessToken,
) -> bool {
    is_call(
        r,
        Method::Get,
        url_of("/v0.1/me/financials/payouts"@, seq![]) + "?"@ + crate::services::payouts::filter_query(filter),
        None,
        Some(token),
    )
}

/// POST /v0.1/me/accounts with `payload`.
pub open spec fn subaccounts_create_call<P>(r: Request<P>, payload: P, token: AccessToken) -> bool {
    is_call(r, Method::Post, url_of("/v0.1/me/accounts"@, seq![]), Some(payload), Some(token))
}

/// DELETE /v0.1/me/accounts/{id}.
pub open spec fn subaccounts_delete_call(
    r: Request<()>,
    id: Seq<char>,
    token: AccessToken,
) -> bool {
    is_call(r, Method::Delete, url_of("/v0.1/me/accounts"@, seq![id]), None, Some(token))
}

/// GET /v0.1/me/accounts.
pub open spec fn subaccounts_list_call(r: Request<()>, token: AccessToken) -> bool {
    is_call(r, Method::Get, url_of("/v0.1/me/accounts"@, seq![]), None, Some(token))
}

/// PUT /v0.1/me/accounts/{id} with `payload`.
pub open spec fn subaccounts_update_call<P>(
    r: Request<P>,
    id: Seq<char>,
    payload: P,
    token: AccessToken,
) -> bool {
    is_call(r, Method::Put, url_of("/v0.1/me/accounts"@, seq![id]), Some(payload), Some(token))
}

/// GET /v0.1/me/financials/transactions?{filter}.
pub open spec fn transactions_list_call(
    r: Request<()>,
    filter: crate::services::payouts::Filter,
    token: AccessToken,
) -> bool {
    is_call(
        r,
        Method::Get,
        url_of("/v0.1/me/financials/transactions"@, seq![]) + "?"@ + crate::services::payouts::filter_query(filter),
        None,
        Some(token),
    )
}

/// GET /v0.1/me/transactions?id=...
pub open spec fn transactions_get_call(r: Request<()>, id: Seq<char>, token: AccessToken) -> bool {
    is_call(
        r,
        Method::Get,
        url_of("/v0.1/me/transactions"@, seq![]) + "?"@ + "id"@ + "="@ + id,
        None,
        Some(token),
    )
}

/// GET /v0.1/me/transactions?internal_id=...
pub open spec fn transactions_get_by_internal_id_call(
    r: Request<()>,
    internal_id: Seq<char>,
    token: AccessToken,
) -> bool {
    is_call(
        r,
        Method::Get,
        url_of("/v0.1/me/transactions"@, seq![]) + "?"@ + "internal_id"@ + "="@ + internal_id,
        None,
        Some(token),
    )
}

/// GET /v0.1/me/transactions?transaction_code=...
pub open spec fn transactions_get_by_code_call(
    r: Request<()>,
    transaction_code: Seq<char>,
    token: AccessToken,
) -> bool {
    is_call(
        r,
        Method::Get,
        url_of("/v0.1/me/transactions"@, seq![]) + "?"@ + "transaction_code"@ + "="@ + transaction_code,
        None,
        Some(token),
    )
}

/// GET /v0.1/me/financials/payouts?{filter} with the history filter.
pub open spec fn transactions_history_call(
    r: Request<()>,
    filter: crate::services::transactions::Filter,
    token: AccessToken,
) -> bool {
    is_call(
        r,
        Method::Get,
        url_of("/v0.1/me/financials/payouts"@, seq![]) + "?"@ + crate::services::transactions::filter_query(filter),
        None,
        Some(token),
    )
}

/// GET /v0.1/me/refund/{id} with `payload` as the body, as the platform documents it.
pub open spec fn transactions_refund_call<P>(
    r: Request<P>,
    id: u32,
    payload: P,
    token: AccessToken,
) -> bool {
    is_call(
        r,
        Method::Get,
        url_of("/v0.1/me/refund"@, seq![decimal(id as nat)]),
        Some(payload),
        Some(token),
    )
}

/// GET /receipts/{id}?mid={merchant_id}.
pub open spec fn transactions_get_receipt_call(
    r: Request<()>,
    id: u32,
    merchant_id: u32,
    token: AccessToken,
) -> bool {
    is_call(
        r,
        Method::Get,
        url_of("/receipts"@, seq![decimal(id as nat)]) + "?"@ + "mid"@ + "="@ + decimal(merchant_id as nat),
        None,
        Some(token),
    )
}

/// GET /v0.1/merchants/{merchant_code}/payment-methods?, then `amount=...&` and
/// `currency=...` where given.
pub open spec fn merchants_payment_methods_call(
    r: Request<()>,
    merchant_code: Seq<char>,
    amount: Option<Seq<char>>,
    currency: Option<Seq<char>>,
    token: AccessToken,
) -> bool {
    is_call(
        r,
        Method::Get,
        url_of("/v0.1/merchants"@, seq![merchant_code, "payment-methods?"@]) + match amount {
            Some(a) => "amount="@ + a + "&"@,
            None => Seq::empty(),
        } + match currency {
            Some(c) => "currency="@ + c,
            None => Seq::empty(),
        },
        None,
        Some(token),
    )
}

/// Access to the platform's REST API: each method describes one call.
#[derive(Clone, Copy, Debug, Default)]
pub struct Api {}

impl Api {
    pub fn new() -> Api {
        Api {}
    }

    /// The call `method url` with `payload`, under the bearer of `access_token`.
    pub fn request<P>(
        method: Method,
        url: String,
        payload: Option<P>,
        access_token: Option<&AccessToken>,
    ) -> (r: Request<P>)
        ensures
            is_call(
                r,
                method,
                url@,
                payload,
                match access_token {
                    Some(t) => Some(*t),
                    None => None,
                },
            ),
    {
        let authorization = match access_token {
            Some(t) => Some(t.bearer()),
            None => None,
        };
        Request { method, url, payload, authorization }
    }

    /// The body of a reply as JSON: a success reply gives the parsed document, a failure
    /// reply goes through the error decoder.
    pub fn receive(reply: &Reply) -> (r: Result<Json, Error>)
        ensures
            is_success(reply.status) ==> match parsed_json(reply.body@) {
                Some(j) => r == Ok::<Json, Error>(j),
                None => r matches Err(Error::Json(JsonError::Syntax(_))),
            },
            !is_success(reply.status) ==> (r matches Err(e) && error_of_body(reply.body@, e)),
    {
        if reply.status < 400 {
            match parse(reply.body.as_str()) {
                Ok(j) => Ok(j),
                Err(text) => Err(Error::Json(JsonError::Syntax(text))),
            }
        } else {
            Err(Error::from_body(reply.body.as_str()))
        }
    }

    /// Accepts the reply of an operation without a response body: any success reply,
    /// whatever its body; a failure reply goes through the error decoder.
    pub fn confirm(reply: &Reply) -> (r: Result<(), Error>)
        ensures
            is_success(reply.status) ==> r is Ok,
            !is_success(reply.status) ==> (r matches Err(e) && error_of_body(reply.body@, e)),
    {
        if reply.status < 400 {
            Ok(())
        } else {
            Err(Error::from_body(reply.body.as_str()))
        }
    }

    /// Reads the token endpoint's reply as an access token.
    pub fn read_token(reply: &Reply) -> (r: Result<AccessToken, Error>)
        ensures
            token_reply_as(*reply, r),
    {
        let j = Api::receive(reply)?;
        AccessToken::from_json(&j)
    }

    /// Reads a reply as one payment method.
    pub fn read_payment_method(reply: &Reply) -> (r: Result<PaymentMethod, Error>)
        ensures
            is_success(reply.status) ==> match parsed_json(reply.body@) {
                Some(j) => match r {
                    Ok(p) => crate::entity::payment_method_of(j) == Some(p),
                    Err(e) => crate::entity::payment_method_of(j) is None && e matches Error::Json(
                        JsonError::Shape,
                    ),
                },
                None => r matches Err(Error::Json(JsonError::Syntax(_))),
            },
            !is_success(reply.status) ==> (r matches Err(e) && error_of_body(reply.body@, e)),
    {
        let j = Api::receive(reply)?;
        PaymentMethod::from_json(&j)
    }

    /// POST /token with `payload`, without a bearer.
    pub fn token<P>(&self, payload: P) -> (r: Request<P>)
        ensures
            token_call(r, payload),
    {
        let segments: &[&str] = &[];
        proof {
            assert(segments@.map_values(|s: &str| s@) =~= seq![]);
        }
        let u = url("/token", segments);
        Api::request(Method::Post, u, Some(payload), None)
    }

    /// GET /v0.1/me: the account behind the token.
    pub fn account_get(&self, access_token: &AccessToken) -> (r: Request<()>)
        ensures
            account_get_call(r, *access_token),
    {
        let segments: &[&str] = &[];
        proof {
            assert(segments@.map_values(|s: &str| s@) =~= seq![]);
        }
        let u = url("/v0.1/me", segments);
        Api::request(Method::Get, u, None, Some(access_token))
    }

    /// POST /checkouts with `payload`.
    pub fn checkout_create<P>(&self, payload: P, access_token: &AccessToken) -> (r: Request<P>)
        ensures
            checkout_create_call(r, payload, *access_token),
    {
        let segments: &[&str] = &[];
        proof {
            assert(segments@.map_values(|s: &str| s@) =~= seq![]);
        }
        let u = url("/checkouts", segments);
        Api::request(Method::Post, u, Some(payload), Some(access_token))
    }

    /// GET /v0.1/checkouts?checkout_reference=...
    pub fn checkout_list(
        &self,
        checkout_reference: &str,
        access_token: &AccessToken,
    ) -> (r: Request<()>)
        ensures
            checkout_list_call(r, checkout_reference@, *access_token),
    {
        let segments: &[&str] = &[];
        proof {
            assert(segments@.map_values(|s: &str| s@) =~= seq![]);
        }
        let u = url("/v0.1/checkouts", segments);
        let u = with_query(u, "checkout_reference", checkout_reference);
        Api::request(Method::Get, u, None, Some(access_token))
    }

    /// GET /checkouts/{id}.
    pub fn checkout_get(&self, id: &str, access_token: &AccessToken) -> (r: Request<()>)
        ensures
            checkout_get_call(r, id@, *access_token),
    {
        let segments: &[&str] = &[id];
        proof {
            assert(segments@.map_values(|s: &str| s@) =~= seq![id@]);
        }
        let u = url("/checkouts", segments);
        Api::request(Method::Get, u, None, Some(access_token))
    }

    /// GET /checkouts?checkout_reference=...
    pub fn checkout_reference_id(
        &self,
        reference_id: &str,
        access_token: &AccessToken,
    ) -> (r: Request<()>)
        ensures
            checkout_reference_id_call(r, reference_id@, *access_token),
    {
        let segments: &[&str] = &[];
        proof {
            assert(segments@.map_values(|s: &str| s@) =~= seq![]);
        }
        let u = url("/checkouts", segments);
        let u = with_query(u, "checkout_reference", reference_id);
        Api::request(Method::Get, u, None, Some(access_token))
    }

    /// DELETE /checkouts/{id}.
    pub fn checkout_delete(&self, id: &str, access_token: &AccessToken) -> (r: Request<()>)
        ensures
            checkout_delete_call(r, id@, *access_token),
    {
        let segments: &[&str] = &[id];
        proof {
            assert(segments@.map_values(|s: &str| s@) =~= seq![id@]);
        }
        let u = url("/checkouts", segments);
        Api::request(Method::Delete, u, None, Some(access_token))
    }

    /// PUT /checkouts/{id} with `payload`.
    pub fn checkout_update<P>(
        &self,
        id: &str,
        payload: P,
        access_token: &AccessToken,
    ) -> (r: Request<P>)
        ensures
            checkout_update_call(r, id@, payload, *access_token),
    {
        let segments: &[&str] = &[id];
        proof {
            assert(segments@.map_values(|s: &str| s@) =~= seq![id@]);
        }
        let u = url("/checkouts", segments);
        Api::request(Method::Put, u, Some(payload), Some(access_token))
    }

    /// POST /v0.1/customers with `payload`.
    pub fn customer_create<P>(&self, payload: P, access_token: &AccessToken) -> (r: Request<P>)
        ensures
            customer_create_call(r, payload, *access_token),
    {
        let segments: &[&str] = &[];
        proof {
            assert(segments@.map_values(|s: &str| s@) =~= seq![]);
        }
        let u = url("/v0.1/customers", segments);
        Api::request(Method::Post, u, Some(payload), Some(access_token))
    }

    /// PUT /v0.1/customers/{id} with `payload`.
    pub fn customer_update<P>(
        &self,
        id: &str,
        payload: P,
        access_token: &AccessToken,
    ) -> (r: Request<P>)
        ensures
            customer_update_call(r, id@, payload, *access_token),
    {
        let segments: &[&str] = &[id];
        proof {
            assert(segments@.map_values(|s: &str| s@) =~= seq![id@]);
        }
        let u = url("/v0.1/customers", segments);
        Api::request(Method::Put, u, Some(payload), Some(access_token))
    }

    /// GET /v0.1/customers/{id}.
    pub fn customer_get(&self, id: &str, access_token: &AccessToken) -> (r: Request<()>)
        ensures
            customer_get_call(r, id@, *access_token),
    {
        let segments: &[&str] = &[id];
        proof {
            assert(segments@.map_values(|s: &str| s@) =~= seq![id@]);
        }
        let u = url("/v0.1/customers", segments);
        Api::request(Method::Get, u, None, Some(access_token))
    }

    /// GET /v0.1/customers/{customer_id}/payment-instruments.
    pub fn customer_payment_instruments(
        &self,
        customer_id: &str,
        access_token: &AccessToken,
    ) -> (r: Request<()>)
        ensures
            customer_payment_instruments_call(r, customer_id@, *access_token),
    {
        let segments: &[&str] = &[customer_id, "payment-instruments"];
        proof {
            assert(segments@.map_values(|s: &str| s@) =~= seq![customer_id@, "payment-instruments"@]);
        }
        let u = url("/v0.1/customers", segments);
        Api::request(Method::Get, u, None, Some(access_token))
    }

    /// POST /v0.1/customers/{customer_id}/payment-instruments with `payload`.
    pub fn customer_create_payment_instruments<P>(
        &self,
        customer_id: &str,
        payload: P,
        access_token: &AccessToken,
    ) -> (r: Request<P>)
        ensures
            customer_create_payment_instruments_call(r, customer_id@, payload, *access_token),
    {
        let segments: &[&str] = &[customer_id, "payment-instruments"];
        proof {
            assert(segments@.map_values(|s: &str| s@) =~= seq![customer_id@, "payment-instruments"@]);
        }
        let u = url("/v0.1/customers", segments);
        Api::request(Method::Post, u, Some(payload), Some(access_token))
    }

    /// DELETE /customers/{customer_id}/payment-instruments/{card_token}.
    pub fn customer_delete_payment_instruments(
        &self,
        customer_id: &str,
        card_token: &str,
        access_token: &AccessToken,
    ) -> (r: Request<()>)
        ensures
            customer_delete_payment_instruments_call(r, customer_id@, card_token@, *access_token),
    {
        let segments: &[&str] = &[customer_id, "payment-instruments", card_token];
        proof {
            assert(segments@.map_values(|s: &str| s@) =~= seq![customer_id@, "payment-instruments"@, card_token@]);
        }
        let u = url("/customers", segments);
        Api::request(Method::Delete, u, None, Some(access_token))
    }

    /// GET /v0.1/merchants/{merchant_code}/payment-methods, narrowed to the amount (in
    /// its decimal form) and the currency where given.
    pub fn merchants_payment_methods(
        &self,
        merchant_code: &str,
        amount: Option<&str>,
        currency: Option<&str>,
        access_token: &AccessToken,
    ) -> (r: Request<()>)
        ensures
            merchants_payment_methods_call(
                r,
                merchant_code@,
                match amount {
                    Some(a) => Some(a@),
                    None => None,
                },
                match currency {
                    Some(c) => Some(c@),
                    None => None,
                },
                *access_token,
            ),
    {
        let segments: &[&str] = &[merchant_code, "payment-methods?"];
        proof {
            assert(segments@.map_values(|s: &str| s@) =~= seq![merchant_code@, "payment-methods?"@]);
        }
        let mut u = url("/v0.1/merchants", segments);
        let ghost base = u@;
        if let Some(a) = amount {
            u.append("amount=");
            u.append(a);
            u.append("&");
        }
        let ghost with_amount = u@;
        if let Some(c) = currency {
            u.append("currency=");
            u.append(c);
        }
        proof {
            let ea = match amount {
                Some(a) => "amount="@ + a@ + "&"@,
                None => Seq::<char>::empty(),
            };
            let ec = match currency {
                Some(c) => "currency="@ + c@,
                None => Seq::<char>::empty(),
            };
            assert(with_amount =~= base + ea);
            assert(u@ =~= base + ea + ec);
        }
        Api::request(Method::Get, u, None, Some(access_token))
    }

    /// GET /v0.1/me/personal-profile.
    pub fn personal_get(&self, access_token: &AccessToken) -> (r: Request<()>)
        ensures
            personal_get_call(r, *access_token),
    {
        let segments: &[&str] = &[];
        proof {
            assert(segments@.map_values(|s: &str| s@) =~= seq![]);
        }
        let u = url("/v0.1/me/personal-profile", segments);
        Api::request(Method::Get, u, None, Some(access_token))
    }

    /// GET /v0.1/me/merchant-profile.
    pub fn profile_get(&self, access_token: &AccessToken) -> (r: Request<()>)
        ensures
            profile_get_call(r, *access_token),
    {
        let segments: &[&str] = &[];
        proof {
            assert(segments@.map_values(|s: &str| s@) =~= seq![]);
        }
        let u = url("/v0.1/me/merchant-profile", segments);
        Api::request(Method::Get, u, None, Some(access_token))
    }

    /// PUT /v0.1/me/merchant-profile with the profile.
    pub fn profile_update<'a>(
        &self,
        profile: &'a Profile,
        access_token: &AccessToken,
    ) -> (r: Request<&'a Profile>)
        ensures
            profile_update_call(r, profile, *access_token),
    {
        let segments: &[&str] = &[];
        proof {
            assert(segments@.map_values(|s: &str| s@) =~= seq![]);
        }
        let u = url("/v0.1/me/merchant-profile", segments);
        Api::request(Method::Put, u, Some(profile), Some(access_token))
    }

    /// GET /v0.1/me/merchant-profile/doing-business-as.
    pub fn profile_doing_business_as_get(&self, access_token: &AccessToken) -> (r: Request<()>)
        ensures
            profile_doing_business_as_get_call(r, *access_token),
    {
        let segments: &[&str] = &[];
        proof {
            assert(segments@.map_values(|s: &str| s@) =~= seq![]);
        }
        let u = url("/v0.1/me/merchant-profile/doing-business-as", segments);
        Api::request(Method::Get, u, None, Some(access_token))
    }

    /// PUT /v0.1/me/merchant-profile/doing-business-as with `dba`.
    pub fn profile_doing_business_as_update<'a>(
        &self,
        dba: &'a DoingBusinessAs,
        access_token: &AccessToken,
    ) -> (r: Request<&'a DoingBusinessAs>)
        ensures
            profile_doing_business_as_update_call(r, dba, *access_token),
    {
        let segments: &[&str] = &[];
        proof {
            assert(segments@.map_values(|s: &str| s@) =~= seq![]);
        }
        let u = url("/v0.1/me/merchant-profile/doing-business-as", segments);
        Api::request(Method::Put, u, Some(dba), Some(access_token))
    }

    /// GET /v0.1/me/merchant-profile/bank-accounts.
    pub fn profile_bank_accounts(&self, access_token: &AccessToken) -> (r: Request<()>)
        ensures
            profile_bank_accounts_call(r, *access_token),
    {
        let segments: &[&str] = &[];
        proof {
            assert(segments@.map_values(|s: &str| s@) =~= seq![]);
        }
        let u = url("/v0.1/me/merchant-profile/bank-accounts", segments);
        Api::request(Method::Get, u, None, Some(access_token))
    }

    /// GET /v0.1/me/merchant-profile/settings.
    pub fn profile_settings(&self, access_token: &AccessToken) -> (r: Request<()>)
        ensures
            profile_settings_call(r, *access_token),
    {
        let segments: &[&str] = &[];
        proof {
            assert(segments@.map_values(|s: &str| s@) =~= seq![]);
        }
        let u = url("/v0.1/me/merchant-profile/settings", segments);
        Api::request(Method::Get, u, None, Some(access_token))
    }

    /// GET /v0.1/me/financials/payouts?{filter}.
    pub fn payouts_list(
        &self,
        filter: &crate::services::payouts::Filter,
        access_token: &AccessToken,
    ) -> (r: Request<()>)
        ensures
            payouts_list_call(r, *filter, *access_token),
    {
        let segments: &[&str] = &[];
        proof {
            assert(segments@.map_values(|s: &str| s@) =~= seq![]);
        }
        let u = url("/v0.1/me/financials/payouts", segments);
        let mut u = u;
        u.append("?");
        let q = filter.to_string();
        u.append(q.as_str());
        Api::request(Method::Get, u, None, Some(access_token))
    }

    /// POST /v0.1/me/accounts with `payload`.
    pub fn subaccounts_create<P>(&self, payload: P, access_token: &AccessToken) -> (r: Request<P>)
        ensures
            subaccounts_create_call(r, payload, *access_token),
    {
        let segments: &[&str] = &[];
        proof {
            assert(segments@.map_values(|s: &str| s@) =~= seq![]);
        }
        let u = url("/v0.1/me/accounts", segments);
        Api::request(Method::Post, u, Some(payload), Some(access_token))
    }

    /// DELETE /v0.1/me/accounts/{id}.
    pub fn subaccounts_delete(&self, id: &str, access_token: &AccessToken) -> (r: Request<()>)
        ensures
            subaccounts_delete_call(r, id@, *access_token),
    {
        let segments: &[&str] = &[id];
        proof {
            assert(segments@.map_values(|s: &str| s@) =~= seq![id@]);
        }
        let u = url("/v0.1/me/accounts", segments);
        Api::request(Method::Delete, u, None, Some(access_token))
    }

    /// GET /v0.1/me/accounts.
    pub fn subaccounts_list(&self, access_token: &AccessToken) -> (r: Request<()>)
        ensures
            subaccounts_list_call(r, *access_token),
    {
        let segments: &[&str] = &[];
        proof {
            assert(segments@.map_values(|s: &str| s@) =~= seq![]);
        }
        let u = url("/v0.1/me/accounts", segments);
        Api::request(Method::Get, u, None, Some(access_token))
    }

    /// PUT /v0.1/me/accounts/{id} with `payload`.
    pub fn subaccounts_update<P>(
        &self,
        id: &str,
        payload: P,
        access_token: &AccessToken,
    ) -> (r: Request<P>)
        ensures
            subaccounts_update_call(r, id@, payload, *access_token),
    {
        let segments: &[&str] = &[id];
        proof {
            assert(segments@.map_values(|s: &str| s@) =~= seq![id@]);
        }
        let u = url("/v0.1/me/accounts", segments);
        Api::request(Method::Put, u, Some(payload), Some(access_token))
    }

    /// GET /v0.1/me/financials/transactions?{filter}.
    pub fn transactions_list(
        &self,
        filter: &crate::services::payouts::Filter,
        access_token: &AccessToken,
    ) -> (r: Request<()>)
        ensures
            transactions_list_call(r, *filter, *access_token),
    {
        let segments: &[&str] = &[];
        proof {
            assert(segments@.map_values(|s: &str| s@) =~= seq![]);
        }
        let u = url("/v0.1/me/financials/transactions", segments);
        let mut u = u;
        u.append("?");
        let q = filter.to_string();
        u.append(q.as_str());
        Api::request(Method::Get, u, None, Some(access_token))
    }

    /// GET /v0.1/me/transactions?id=...
    pub fn transactions_get(&self, id: &str, access_token: &AccessToken) -> (r: Request<()>)
        ensures
            transactions_get_call(r, id@, *access_token),
    {
        let segments: &[&str] = &[];
        proof {
            assert(segments@.map_values(|s: &str| s@) =~= seq![]);
        }
        let u = url("/v0.1/me/transactions", segments);
        let u = with_query(u, "id", id);
        Api::request(Method::Get, u, None, Some(access_token))
    }

    /// GET /v0.1/me/transactions?internal_id=...
    pub fn transactions_get_by_internal_id(
        &self,
        internal_id: &str,
        access_token: &AccessToken,
    ) -> (r: Request<()>)
        ensures
            transactions_get_by_internal_id_call(r, internal_id@, *access_token),
    {
        let segments: &[&str] = &[];
        proof {
            assert(segments@.map_values(|s: &str| s@) =~= seq![]);
        }
        let u = url("/v0.1/me/transactions", segments);
        let u = with_query(u, "internal_id", internal_id);
        Api::request(Method::Get, u, None, Some(access_token))
    }

    /// GET /v0.1/me/transactions?transaction_code=...
    pub fn transactions_get_by_code(
        &self,
        transaction_code: &str,
        access_token: &AccessToken,
    ) -> (r: Request<()>)
        ensures
            transactions_get_by_code_call(r, transaction_code@, *access_token),
    {
        let segments: &[&str] = &[];
        proof {
            assert(segments@.map_values(|s: &str| s@) =~= seq![]);
        }
        let u = url("/v0.1/me/transactions", segments);
        let u = with_query(u, "transaction_code", transaction_code);
        Api::request(Method::Get, u, None, Some(access_token))
    }

    /// GET /v0.1/me/financials/payouts?{filter} with the history filter.
    pub fn transactions_history(
        &self,
        filter: &crate::services::transactions::Filter,
        access_token: &AccessToken,
    ) -> (r: Request<()>)
        ensures
            transactions_history_call(r, *filter, *access_token),
    {
        let segments: &[&str] = &[];
        proof {
            assert(segments@.map_values(|s: &str| s@) =~= seq![]);
        }
        let u = url("/v0.1/me/financials/payouts", segments);
        let mut u = u;
        u.append("?");
        let q = filter.to_string();
        u.append(q.as_str());
        Api::request(Method::Get, u, None, Some(access_token))
    }

    /// GET /v0.1/me/refund/{id} with `payload` as the body, as the platform documents it.
    pub fn transactions_refund<P>(
        &self,
        id: u32,
        payload: P,
        access_token: &AccessToken,
    ) -> (r: Request<P>)
        ensures
            transactions_refund_call(r, id, payload, *access_token),
    {
        let id_text = decimal_text(id as u64);
        let segments: &[&str] = &[id_text.as_str()];
        proof {
            assert(segments@.map_values(|s: &str| s@) =~= seq![id_text@]);
        }
        let u = url("/v0.1/me/refund", segments);
        Api::request(Method::Get, u, Some(payload), Some(access_token))
    }

    /// GET /receipts/{id}?mid={merchant_id}.
    pub fn transactions_get_receipt(
        &self,
        id: u32,
        merchant_id: u32,
        access_token: &AccessToken,
    ) -> (r: Request<()>)
        ensures
            transactions_get_receipt_call(r, id, merchant_id, *access_token),
    {
        let id_text = decimal_text(id as u64);
        let segments: &[&str] = &[id_text.as_str()];
        proof {
            assert(segments@.map_values(|s: &str| s@) =~= seq![id_text@]);
        }
        let u = url("/receipts", segments);
        let merchant_id_text = decimal_text(merchant_id as u64);
        let u = with_query(u, "mid", merchant_id_text.as_str());
        Api::request(Method::Get, u, None, Some(access_token))
    }
}

} // verus!
