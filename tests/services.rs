use sumup::entity::{Card, Customer, Details, DoingBusinessAs, PaymentType, Profile, Status, Type};
use sumup::services::{payouts, transactions};
use sumup::{Config, Json, Method, Opening, Reply, Request, SumUp};

const BASE: &str = "https://api.sumup.com";

fn api() -> SumUp {
    let config = Config {
        client_id: "id".to_string(),
        client_secret: "secret".to_string(),
        access_token: Some("T".to_string()),
        refresh_token: Some("R".to_string()),
        ..Default::default()
    };
    match SumUp::from(config) {
        Ok(Opening::Ready(s)) => s,
        other => panic!("unexpected {:?}", other),
    }
}

fn check<P>(q: &Request<P>, method: Method, url: &str) {
    assert_eq!(q.method, method);
    assert_eq!(q.url, format!("{BASE}{url}"));
    assert_eq!(q.authorization.as_deref(), Some("Bearer T"));
}

fn text(j: &Json) -> &str {
    match j {
        Json::Str(s) => s,
        other => panic!("not a string: {:?}", other),
    }
}

fn object(j: &Json) -> &Vec<(String, Json)> {
    match j {
        Json::Object(m) => m,
        other => panic!("not an object: {:?}", other),
    }
}

#[test]
fn new() {
    match SumUp::new("id", "secret", "code") {
        Ok(Opening::Pending(p)) => {
            assert_eq!(p.request.url, format!("{BASE}/token"));
            assert_eq!(p.config.grant_type, sumup::GrantType::AuthorizationCode);
            assert_eq!(p.config.scopes.as_slice(), &[sumup::Scope::TransactionsHistory]);
            assert!(p.config.username.is_none() && p.config.access_token.is_none());
        }
        other => panic!("unexpected {:?}", other),
    }
}

#[test]
fn refresh_token() {
    let mut api = api();
    let access_token = api.access_token.clone();

    let q = api.refresh_token(None).unwrap();
    assert_eq!(q.method, Method::Post);
    let reply = Reply {
        status: 200,
        body: r#"{"access_token":"T2","token_type":"Bearer","expires_in":3600,"scope":"","refresh_token":"R2"}"#.to_string(),
    };
    api.apply_refresh(&reply).unwrap();

    assert_ne!(access_token, api.access_token);
}

#[test]
fn account_get() {
    let api = api();

    let q = api.account().get();
    check(&q, Method::Get, "/v0.1/me");
    assert!(q.payload.is_none());
}

#[test]
fn checkout_create() {
    let api = api();

    let profile = Profile { merchant_code: "M1".to_string(), ..Default::default() };
    let q = api.checkout().create(profile.merchant_code.clone());
    check(&q, Method::Post, "/checkouts");
    assert_eq!(q.payload.as_deref(), Some("M1"));
}

#[test]
fn list() {
    let api = api();

    let q = api.checkout().list("1");
    check(&q, Method::Get, "/v0.1/checkouts?checkout_reference=1");
}

#[test]
fn checkout_find_by_id() {
    let api = api();

    let q = api.checkout().find_by_id("1");
    check(&q, Method::Get, "/checkouts/1");
}

#[test]
fn find_by_reference_id() {
    let api = api();

    let q = api.checkout().find_by_reference_id("1");
    check(&q, Method::Get, "/checkouts?checkout_reference=1");
}

#[test]
fn delete() {
    let api = api();

    let q = api.checkout().delete("1");
    check(&q, Method::Delete, "/checkouts/1");
}

#[test]
fn pay() {
    let api = api();

    let q = api.checkout().pay("1", "1", "1", None);
    check(&q, Method::Put, "/checkouts/1");
    let m = object(q.payload.as_ref().unwrap());
    assert_eq!(m.len(), 4);
    assert_eq!((m[0].0.as_str(), text(&m[0].1)), ("payment_type", "card"));
    assert_eq!((m[1].0.as_str(), text(&m[1].1)), ("customer_id", "1"));
    assert_eq!((m[2].0.as_str(), text(&m[2].1)), ("token", "1"));
    assert_eq!(m[3].0, "installments");
    assert!(matches!(m[3].1, Json::Unsigned(1)));
    let q = api.checkout().pay("1", "1", "1", Some(3));
    assert!(matches!(object(q.payload.as_ref().unwrap())[3].1, Json::Unsigned(3)));
}

#[test]
fn customer() {
    let api = api();
    let api_customer = api.customer();

    let mut customer = Customer {
        customer_id: "0".to_string(),
        personal_detail: Details {
            first_name: Some("John".to_string()),
            last_name: Some("Doe".to_string()),
            email: Some("john.doe@example.org".to_string()),

            ..Default::default()
        },
    };

    let q = api_customer.create(&customer);
    check(&q, Method::Post, "/v0.1/customers");
    assert_eq!(q.payload.unwrap().personal_detail.email.as_deref(), Some("john.doe@example.org"));
    check(&api_customer.get("0"), Method::Get, "/v0.1/customers/0");

    customer.personal_detail.email = None;
    let q = api_customer.update(&customer);
    check(&q, Method::Put, "/v0.1/customers/0");

    let new_customer = q.payload.unwrap();
    assert!(new_customer.personal_detail.email.is_none());
}

#[test]
fn payment() {
    let api = api();
    let api_customer = api.customer();

    let card = Card {
        name: "FIRSTNAME LASTNAME".to_string(),
        number: "1234567890123456".to_string(),
        expiry_year: "2023".to_string(),
        expiry_month: "01".to_string(),
        cvv: "123".to_string(),
        zip_code: "12345".to_string(),
    };

    let q = api_customer.create_payment_instruments("63827d30b0ccda0004457bc5", &card);
    check(&q, Method::Post, "/v0.1/customers/63827d30b0ccda0004457bc5/payment-instruments");
    let m = object(q.payload.as_ref().unwrap());
    assert_eq!((m[0].0.as_str(), text(&m[0].1)), ("type", "card"));
    let c = object(&m[1].1);
    let names: Vec<&str> = c.iter().map(|(k, _)| k.as_str()).collect();
    assert_eq!(names, vec!["name", "number", "expiry_year", "expiry_month", "cvv", "zip_code"]);
    assert_eq!(text(&c[1].1), "1234567890123456");
    let q = api_customer.payment_instruments("63827d30b0ccda0004457bc5");
    check(&q, Method::Get, "/v0.1/customers/63827d30b0ccda0004457bc5/payment-instruments");
    let q = api_customer.delete_payment_instruments("63827d30b0ccda0004457bc5", &card.name);
    check(
        &q,
        Method::Delete,
        "/customers/63827d30b0ccda0004457bc5/payment-instruments/FIRSTNAME LASTNAME",
    );
}

#[test]
fn profile() {
    let api = api();

    check(&api.merchant().profile(), Method::Get, "/v0.1/me/merchant-profile");
}

#[test]
fn update_profile() {
    let api = api();

    let mut profile = Profile::default();
    profile.default_currency = "USD".to_string();

    let q = api.merchant().update_profile(&profile);
    check(&q, Method::Put, "/v0.1/me/merchant-profile");
    assert_eq!(q.payload.unwrap().default_currency, "USD");
}

#[test]
fn doing_business_as() {
    let api = api();

    check(
        &api.merchant().doing_business_as(),
        Method::Get,
        "/v0.1/me/merchant-profile/doing-business-as",
    );
    let mut dba = DoingBusinessAs::default();
    dba.dynamic_descriptor = "Update".to_string();

    let q = api.merchant().update_doing_business_as(&dba);
    check(&q, Method::Put, "/v0.1/me/merchant-profile/doing-business-as");
    assert_eq!(q.payload.unwrap().dynamic_descriptor, "Update");
}

#[test]
fn bank_accounts() {
    let api = api();

    check(&api.merchant().bank_accounts(), Method::Get, "/v0.1/me/merchant-profile/bank-accounts");
}

#[test]
fn settings() {
    let api = api();

    check(&api.merchant().settings(), Method::Get, "/v0.1/me/merchant-profile/settings");
}

#[test]
fn payouts() {
    let api = api();

    let filter = payouts::Filter {
        start_date: "2021-01-01".to_string(),
        end_date: "2021-01-12".to_string(),
        limit: Some(20),
        descending_order: true,
    };

    let q = api.payouts().payouts(&filter);
    check(
        &q,
        Method::Get,
        "/v0.1/me/financials/payouts?start_date=2021-01-01&end_date=2021-01-12&limit=20&order=desc&format=json",
    );
}

#[test]
fn transactions() {
    let api = api();

    let filter = payouts::Filter {
        start_date: "2021-01-01".to_string(),
        end_date: "2021-01-12".to_string(),
        limit: Some(20),
        descending_order: true,
    };

    let q = api.payouts().transactions(&filter);
    check(
        &q,
        Method::Get,
        "/v0.1/me/financials/transactions?start_date=2021-01-01&end_date=2021-01-12&limit=20&order=desc&format=json",
    );
}

#[test]
fn payouts_filter_defaults() {
    let filter = payouts::Filter::default();
    assert_eq!(filter.to_string(), "start_date=&end_date=&limit=10&order=asc&format=json");
}

#[test]
fn personal_get() {
    let api = api();

    check(&api.personal().get(), Method::Get, "/v0.1/me/personal-profile");
}

#[test]
fn subaccounts_create() {
    let api = api();
    let subaccounts = api.subaccounts();

    let q = subaccounts.create("sb@example.org", "pass1");
    check(&q, Method::Post, "/v0.1/me/accounts");
    let m = object(q.payload.as_ref().unwrap());
    assert_eq!((m[0].0.as_str(), text(&m[0].1)), ("username", "sb@example.org"));
    assert_eq!((m[1].0.as_str(), text(&m[1].1)), ("password", "pass1"));

    check(&subaccounts.list(), Method::Get, "/v0.1/me/accounts");

    let q = subaccounts.update("42", Some("sb_new@example.org"), None);
    check(&q, Method::Put, "/v0.1/me/accounts/42");
    let m = object(q.payload.as_ref().unwrap());
    assert_eq!(m.len(), 1);
    assert_eq!((m[0].0.as_str(), text(&m[0].1)), ("username", "sb_new@example.org"));
    let q = subaccounts.update("42", None, Some("p2"));
    assert_eq!(object(q.payload.as_ref().unwrap())[0].0, "password");
    check(&subaccounts.delete("42"), Method::Delete, "/v0.1/me/accounts/42");
}

#[test]
fn transactions_find_by_id() {
    let api = api();

    check(&api.transactions().find_by_id("1"), Method::Get, "/v0.1/me/transactions?id=1");
}

#[test]
fn find_by_code() {
    let api = api();

    check(
        &api.transactions().find_by_code("1234"),
        Method::Get,
        "/v0.1/me/transactions?transaction_code=1234",
    );
}

#[test]
fn find_by_internal_id() {
    let api = api();

    check(
        &api.transactions().find_by_internal_id("1234"),
        Method::Get,
        "/v0.1/me/transactions?internal_id=1234",
    );
}

#[test]
fn history() {
    let api = api();

    let filter = transactions::Filter {
        start_date: "2021-01-01".to_string(),
        end_date: "2021-12-31".to_string(),

        ..Default::default()
    };

    let q = api.transactions().history(&filter);
    check(
        &q,
        Method::Get,
        "/v0.1/me/financials/payouts?start_date=2021-01-01&end_date=2021-12-31&order=asc&limit=10&format=json",
    );
}

#[test]
fn history_filter_lists_every_criterion() {
    let filter = transactions::Filter {
        start_date: "a".to_string(),
        end_date: "b".to_string(),
        order: Some("desc".to_string()),
        limit: Some(5),
        user_id: Some(7),
        users: vec![1, 23],
        statuses: vec![Status::Successful, Status::ChargeBack],
        payment_types: vec![PaymentType::Pos],
        types: vec![Type::Refund],
        changes_since: Some("c".to_string()),
        newest_time: Some("nt".to_string()),
        newest_ref: Some("nr".to_string()),
        oldest_time: Some("ot".to_string()),
        oldest_ref: Some("or".to_string()),
    };
    assert_eq!(
        filter.to_string(),
        "start_date=a&end_date=b&order=desc&limit=5&user_id=7&user=1&user=23\
         &statuse=SUCCESSFUL&statuse=CHARGE_BACK&payment_type=POS&type=REFUND&changes_since=c\
         &newest_time=nt&newest_ref=nr&oldest_time=ot&oldest_ref=or&format=json"
    );
}

#[test]
fn full_refund() {
    let api = api();

    let q = api.transactions().full_refund(1);
    check(&q, Method::Get, "/v0.1/me/refund/1");
    assert_eq!(object(q.payload.as_ref().unwrap()).len(), 0);
}

#[test]
fn receipt() {
    let api = api();

    check(&api.transactions().receipt(1, 1), Method::Get, "/receipts/1?mid=1");
    check(&api.transactions().receipt(4096, 70), Method::Get, "/receipts/4096?mid=70");
    check(&api.transactions().receipt(0, 4294967295), Method::Get, "/receipts/0?mid=4294967295");
}

#[test]
fn payment_methods_query() {
    let api = api();

    let q = api.api.merchants_payment_methods("M", Some("12.5"), Some("EUR"), &api.access_token);
    check(&q, Method::Get, "/v0.1/merchants/M/payment-methods?amount=12.5&currency=EUR");
    let q = api.api.merchants_payment_methods("M", None, None, &api.access_token);
    check(&q, Method::Get, "/v0.1/merchants/M/payment-methods?");
}
