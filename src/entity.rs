use vstd::prelude::*;

use crate::errors::{Error, JsonError};
use crate::json::{
    field, get_field, optional_str, optional_u32, read_optional_str, read_optional_u32,
    read_required_str, required_str, Json,
};
use crate::scope::{parse_scopes, Scopes};

verus! {

/// A normalized OAuth2 access token; replaced wholesale, never changed in place.
#[derive(Clone, Debug, PartialEq, Eq)]
pub struct AccessToken {
    /// The token's value; empty where only a refresh token is known.
    pub access_token: String,
    pub token_type: String,
    /// The number of seconds the access token will be valid.
    pub expires_in: Option<u32>,
    pub scope: Scopes,
    pub refresh_token: Option<String>,
}

/// The `Authorization` header value of a token.
pub open spec fn bearer_of(token: AccessToken) -> Seq<char> {
    "Bearer "@ + token.access_token@
}

/// The members of a token body, where each of them has the type it needs: two required
/// strings, an optional 32-bit integer, a required scope string and an optional string.
/// Members of other names are ignored.
pub open spec fn token_members(j: Json) -> Option<Seq<(String, Json)>> {
    match j {
        Json::Object(members) => {
            let m = members@;
            if required_str(field(m, "access_token"@)) is Some && required_str(
                field(m, "token_type"@),
            ) is Some && optional_u32(field(m, "expires_in"@)) is Some && required_str(
                field(m, "scope"@),
            ) is Some && optional_str(field(m, "refresh_token"@)) is Some {
                Some(m)
            } else {
                None
            }
        },
        _ => None,
    }
}

/// The scope text of well-typed token members.
pub open spec fn token_scope_text(m: Seq<(String, Json)>) -> Seq<char> {
    required_str(field(m, "scope"@))->0@
}

/// Whether `t` is the token that well-typed members denote.
pub open spec fn token_from_members(m: Seq<(String, Json)>, t: AccessToken) -> bool {
    &&& Some(t.access_token) == required_str(field(m, "access_token"@))
    &&& Some(t.token_type) == required_str(field(m, "token_type"@))
    &&& Some(t.expires_in) == optional_u32(field(m, "expires_in"@))
    &&& Some(t.refresh_token) == optional_str(field(m, "refresh_token"@))
    &&& parse_scopes(token_scope_text(m)) == Ok::<Seq<crate::scope::Scope>, Seq<char>>(t.scope@)
}

/// The outcome of reading a token from `j`: the token, an unknown scope, or a shape fault.
pub open spec fn token_read_as(j: Json, r: Result<AccessToken, Error>) -> bool {
    match token_members(j) {
        None => r matches Err(Error::Json(JsonError::Shape)),
        Some(m) => match parse_scopes(token_scope_text(m)) {
            Ok(_) => r matches Ok(t) && token_from_members(m, t),
            Err(bad) => r matches Err(Error::InvalidScope(s)) && s@ == bad,
        },
    }
}

impl AccessToken {
    /// The `Authorization` header value: `"Bearer "` followed by the token's value.
    pub fn bearer(&self) -> (r: String)
        ensures
            r@ == bearer_of(*self),
    {
        let mut r = String::from_str("Bearer ");
        r.append(self.access_token.as_str());
        r
    }

    /// Reads a token from the token endpoint's JSON reply.
    pub fn from_json(j: &Json) -> (r: Result<AccessToken, Error>)
        ensures
            token_read_as(*j, r),
    {
        match j {
            Json::Object(members) => {
                let access_token = read_required_str(get_field(members, "access_token"));
                let token_type = read_required_str(get_field(members, "token_type"));
                let expires_in = read_optional_u32(get_field(members, "expires_in"));
                let scope = read_required_str(get_field(members, "scope"));
                let refresh_token = read_optional_str(get_field(members, "refresh_token"));
                match (access_token, token_type, expires_in, scope, refresh_token) {
                    (
                        Some(access_token),
                        Some(token_type),
                        Some(expires_in),
                        Some(scope),
                        Some(refresh_token),
                    ) => {
                        let scope = Scopes::from_string(scope.as_str())?;
                        Ok(AccessToken { access_token, token_type, expires_in, scope, refresh_token })
                    },
                    _ => Err(Error::Json(JsonError::Shape)),
                }
            },
            _ => Err(Error::Json(JsonError::Shape)),
        }
    }
}

/// A payment method that a merchant accepts.
#[derive(Clone, Debug)]
pub struct PaymentMethod {
    pub id: String,
}

/// The payment method that `j` denotes: an object with a string `id`.
pub open spec fn payment_method_of(j: Json) -> Option<PaymentMethod> {
    match j {
        Json::Object(members) => match required_str(field(members@, "id"@)) {
            Some(id) => Some(PaymentMethod { id }),
            None => None,
        },
        _ => None,
    }
}

impl PaymentMethod {
    /// Reads a payment method from JSON.
    pub fn from_json(j: &Json) -> (r: Result<PaymentMethod, Error>)
        ensures
            match r {
                Ok(p) => payment_method_of(*j) == Some(p),
                Err(e) => payment_method_of(*j) is None && e matches Error::Json(JsonError::Shape),
            },
    {
        match j {
            Json::Object(members) => match read_required_str(get_field(members, "id")) {
                Some(id) => Ok(PaymentMethod { id }),
                None => Err(Error::Json(JsonError::Shape)),
            },
            _ => Err(Error::Json(JsonError::Shape)),
        }
    }
}

/// The account behind a token.
#[derive(Clone, Debug, Default)]
pub struct Account {
    pub account: AccountInfo,
    pub personal_profile: PersonalProfile,
    pub merchant_profile: Profile,
    pub requirements: Vec<String>,
    pub verifications: Vec<String>,
    pub is_migrated_payleven_br: bool,
    pub signup_time: String,
    pub details_submitted: bool,
}

#[derive(Clone, Debug, Default)]
pub struct AccountInfo {
    pub username: String,
    pub ty: String,
}

#[derive(Clone, Debug, Default)]
pub struct PersonalProfile {
    pub first_name: String,
    pub last_name: String,
    pub date_of_birth: String,
    pub mobile_phone: Option<String>,
    pub address: Address,
    pub national_id: String,
    pub complete: bool,
}

#[derive(Clone, Debug, Default)]
pub struct Customer {
    pub customer_id: String,
    pub personal_detail: Details,
}

#[derive(Clone, Debug, Default)]
pub struct Details {
    pub first_name: Option<String>,
    pub last_name: Option<String>,
    pub email: Option<String>,
    pub phone: Option<String>,
    pub address: Option<Address>,
}

#[derive(Clone, Debug, Default)]
pub struct Address {
    pub city: Option<String>,
    pub country: Option<String>,
    pub line1: Option<String>,
    pub address_line1: Option<String>,
    pub line2: Option<String>,
    pub state: Option<String>,
    pub postalcode: Option<String>,
    pub post_code: Option<String>,
    pub landline: Option<String>,
}

#[derive(Clone, Debug, Default)]
pub struct Profile {
    pub merchant_code: String,
    pub company_name: String,
    pub legal_type: LegalType,
    pub merchant_category_code: String,
    pub address: Address,
    pub business_owners: Vec<()>,
    pub doing_business_as: DoingBusinessAs,
    pub locale: String,
    pub complete: bool,
    pub extdev: bool,
    pub country: String,
    pub default_currency: String,
}

#[derive(Clone, Debug, Default)]
pub struct LegalType {
    pub id: u32,
    pub full_description: String,
    pub description: String,
    pub sole_trader: bool,
}

#[derive(Clone, Debug, Default)]
pub struct DoingBusinessAs {
    pub business_name: String,
    pub email: String,
    pub dynamic_descriptor: String,
    pub address: Address,
}

#[derive(Clone, Debug, Default)]
pub struct BankAccount {
    pub bank_code: String,
    pub account_number: String,
    pub account_holder_name: String,
    pub status: String,
    pub primary: bool,
    pub created_at: String,
    pub bank_name: String,
}

#[derive(Clone, Debug, Default)]
pub struct Settings {
    pub tax_enabled: bool,
    pub payout_type: String,
    pub payout_period: String,
    pub payout_on_demand_available: bool,
    pub payout_on_demand: bool,
    pub printers_enabled: bool,
    pub payout_instrument: String,
    pub moto_payment: String,
    pub checkout_payments: String,
    pub daily_payout_email: bool,
    pub monthly_payout_email: bool,
    pub gross_settlement: bool,
    pub bank_account_change_blocked: bool,
    pub operator_personal_profile_name: bool,
    pub operator_personal_profile_date_of_birth: bool,
    pub operator_personal_profile_address: bool,
    pub operator_personal_profile_note: bool,
}

#[derive(Clone, Debug, Default)]
pub struct Card {
    pub name: String,
    pub number: String,
    pub expiry_year: String,
    pub expiry_month: String,
    pub cvv: String,
    pub zip_code: String,
}

#[derive(Clone, Debug, Default)]
pub struct TransactionCard {
    pub last_4_digits: String,
    pub ty: String,
}

#[derive(Clone, Debug, Default)]
pub struct SubAccount {
    pub account_type: String,
    pub created_at: String,
    pub disabled: bool,
    pub id: String,
    pub permissions: Permissions,
    pub updated_at: String,
    pub username: String,
}

#[derive(Clone, Debug, Default)]
pub struct Permissions {
    pub create_moto_payments: bool,
    pub create_referral: bool,
    pub full_transaction_history_view: bool,
    pub refund_transactions: bool,
}

/// The state of a transaction.
#[derive(Clone, Copy, Debug, PartialEq, Eq, Structural)]
pub enum Status {
    Successful,
    Cancelled,
    Failed,
    Refunded,
    ChargeBack,
}

pub open spec fn status_wire(s: Status) -> Seq<char> {
    match s {
        Status::Successful => "SUCCESSFUL"@,
        Status::Cancelled => "CANCELLED"@,
        Status::Failed => "FAILED"@,
        Status::Refunded => "REFUNDED"@,
        Status::ChargeBack => "CHARGE_BACK"@,
    }
}

impl Status {
    /// The wire form of this status.
    pub fn to_string(&self) -> (r: String)
        ensures
            r@ == status_wire(*self),
    {
        String::from_str(
            match self {
                Status::Successful => "SUCCESSFUL",
                Status::Cancelled => "CANCELLED",
                Status::Failed => "FAILED",
                Status::Refunded => "REFUNDED",
                Status::ChargeBack => "CHARGE_BACK",
            },
        )
    }
}

/// How a transaction was paid.
#[derive(Clone, Copy, Debug, PartialEq, Eq, Structural)]
pub enum PaymentType {
    Cash,
    Pos,
    Ecom,
    Balance,
    Moto,
    Boleto,
    Unknown,
}

pub open spec fn payment_type_wire(p: PaymentType) -> Seq<char> {
    match p {
        PaymentType::Cash => "CASH"@,
        PaymentType::Pos => "POS"@,
        PaymentType::Ecom => "ECOM"@,
        PaymentType::Balance => "BALANCE"@,
        PaymentType::Moto => "MOTO"@,
        PaymentType::Boleto => "BOLETO"@,
        PaymentType::Unknown => "UNKNOWN"@,
    }
}

impl PaymentType {
    /// The wire form of this payment type.
    pub fn to_string(&self) -> (r: String)
        ensures
            r@ == payment_type_wire(*self),
    {
        String::from_str(
            match self {
                PaymentType::Cash => "CASH",
                PaymentType::Pos => "POS",
                PaymentType::Ecom => "ECOM",
                PaymentType::Balance => "BALANCE",
                PaymentType::Moto => "MOTO",
                PaymentType::Boleto => "BOLETO",
                PaymentType::Unknown => "UNKNOWN",
            },
        )
    }
}

/// The kind of a transaction.
#[derive(Clone, Copy, Debug, PartialEq, Eq, Structural)]
pub enum Type {
    Payment,
    Refund,
    ChargeBack,
}

pub open spec fn type_wire(t: Type) -> Seq<char> {
    match t {
        Type::Payment => "PAYMENT"@,
        Type::Refund => "REFUND"@,
        Type::ChargeBack => "CHARGE_BACK"@,
    }
}

impl Type {
    /// The wire form of this kind.
    pub fn to_string(&self) -> (r: String)
        ensures
            r@ == type_wire(*self),
    {
        String::from_str(
            match self {
                Type::Payment => "PAYMENT",
                Type::Refund => "REFUND",
                Type::ChargeBack => "CHARGE_BACK",
            },
        )
    }
}

} // verus!
