use sumup::{Error, Scope, Scopes};

fn all_scopes() -> Vec<Scope> {
    vec![
        Scope::Payments,
        Scope::TransactionsHistory,
        Scope::UserAppSettings,
        Scope::UserProfileReadonly,
        Scope::UserProfile,
        Scope::UserSubaccounts,
        Scope::UserPayoutSettings,
        Scope::Balance,
        Scope::Products,
    ]
}

#[test]
fn serialize_scopes() {
    let scopes = Scopes::from(vec![Scope::Payments, Scope::Products]);

    assert_eq!(
        serde_json::to_string(&scopes.to_string()).unwrap(),
        "\"payments products\""
    );
}

#[test]
fn deserialize_scopes() {
    let scopes = Scopes::from(vec![Scope::Payments, Scope::Products]);

    let text: String = serde_json::from_str("\"payments products\"").unwrap();
    assert!(scopes == Scopes::from_string(&text).unwrap());
    let empty: String = serde_json::from_str("\"\"").unwrap();
    assert!(Scopes::default() == Scopes::from_string(&empty).unwrap());
}

#[test]
fn scopes_round_trip_keeps_order_and_duplicates() {
    let list = vec![
        Scope::Balance,
        Scope::Payments,
        Scope::Balance,
        Scope::UserProfileReadonly,
        Scope::UserProfile,
    ];
    let scopes = Scopes::from(list.clone());
    let text = scopes.to_string();
    assert_eq!(text, "balance payments balance user.profile_readonly user.profile");
    let back = Scopes::from_string(&text).unwrap();
    assert_eq!(back.as_slice(), list.as_slice());
}

#[test]
fn every_scope_round_trips() {
    let scopes = Scopes::from(all_scopes());
    let text = scopes.to_string();
    assert_eq!(
        text,
        "payments transactions.history user.app-settings user.profile_readonly user.profile \
         user.subaccounts user.payout-settings balance products"
    );
    assert!(Scopes::from_string(&text).unwrap() == scopes);
    for s in all_scopes() {
        let one = Scopes::from(vec![s]);
        assert_eq!(Scopes::from_string(&one.to_string()).unwrap().as_slice(), &[s]);
    }
}

#[test]
fn empty_scopes_are_the_empty_string() {
    assert_eq!(Scopes::new().to_string(), "");
    assert_eq!(Scopes::from_string("").unwrap().len(), 0);
}

#[test]
fn unknown_scope_is_named() {
    match Scopes::from_string("payments refunds balance") {
        Err(Error::InvalidScope(t)) => assert_eq!(t, "refunds"),
        other => panic!("unexpected {:?}", other),
    }
    match Scopes::from_string("payments  balance") {
        Err(Error::InvalidScope(t)) => assert_eq!(t, ""),
        other => panic!("unexpected {:?}", other),
    }
    match Scope::from_str("Payments") {
        Err(Error::InvalidScope(t)) => assert_eq!(t, "Payments"),
        other => panic!("unexpected {:?}", other),
    }
}

#[test]
fn scope_wire_forms() {
    assert_eq!(Scope::TransactionsHistory.as_str(), "transactions.history");
    assert_eq!(Scope::UserPayoutSettings.as_str(), "user.payout-settings");
    assert_eq!(Scope::from_str("user.app-settings").unwrap(), Scope::UserAppSettings);
}
