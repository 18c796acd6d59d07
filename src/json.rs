use vstd::prelude::*;

verus! {

#[verifier::external_type_specification]
#[verifier::external_body]
pub struct ExValue(serde_json::Value);

/// A JSON document as the library reads it.
#[derive(Debug)]
pub enum Json {
    Null,
    Bool(bool),
    /// A non-negative integer.
    Unsigned(u64),
    /// A negative or fractional number; the library reads no such value.
    OtherNumber,
    Str(String),
    Array(Vec<Json>),
    /// Members in the order that serde_json's map keeps, each key once.
    Object(Vec<(String, Json)>),
}

/// The document that serde_json reads from `text`, or `None` where `text` is not JSON.
pub uninterp spec fn parsed_json(text: Seq<char>) -> Option<Json>;

/// Relies on serde_json::Value's `Deserialize` through serde_json::from_str: the
/// document, or the failure, depends on the text alone. A failure is handed on as
/// serde_json::Error's `Display` text.
#[verifier::external_body]
pub(crate) fn parse(text: &str) -> (r: Result<Json, String>)
    ensures
        match r {
            Ok(j) => parsed_json(text@) == Some(j),
            Err(_) => parsed_json(text@) is None,
        },
{
    serde_json::from_str::<serde_json::Value>(text).map(from_value).map_err(|e| e.to_string())
}

/// Relies on the variants of serde_json::Value and on serde_json::Number::as_u64,
/// which gives the value of a non-negative integer and `None` for any other number.
#[verifier::external_body]
fn from_value(v: serde_json::Value) -> Json {
    match v {
        serde_json::Value::Null => Json::Null,
        serde_json::Value::Bool(b) => Json::Bool(b),
        serde_json::Value::Number(n) => match n.as_u64() {
            Some(u) => Json::Unsigned(u),
            None => Json::OtherNumber,
        },
        serde_json::Value::String(s) => Json::Str(s),
        serde_json::Value::Array(a) => Json::Array(a.into_iter().map(from_value).collect()),
        serde_json::Value::Object(o) => Json::Object(o.into_iter().map(|(k, v)| (k, from_value(v))).collect()),
    }
}

/// The value of the first member named `key`.
pub open spec fn field(members: Seq<(String, Json)>, key: Seq<char>) -> Option<Json>
    decreases members.len(),
{
    if members.len() == 0 {
        None
    } else if members[0].0@ == key {
        Some(members[0].1)
    } else {
        field(members.drop_first(), key)
    }
}

/// A required string member.
pub open spec fn required_str(v: Option<Json>) -> Option<String> {
    match v {
        Some(Json::Str(s)) => Some(s),
        _ => None,
    }
}

/// An optional string member: absent or null is `None`; the outer `None` is a shape fault.
pub open spec fn optional_str(v: Option<Json>) -> Option<Option<String>> {
    match v {
        None => Some(None),
        Some(Json::Null) => Some(None),
        Some(Json::Str(s)) => Some(Some(s)),
        _ => None,
    }
}

/// An optional 16-bit integer member, such as an HTTP status: absent or null is `None`.
pub open spec fn optional_u16(v: Option<Json>) -> Option<Option<u16>> {
    match v {
        None => Some(None),
        Some(Json::Null) => Some(None),
        Some(Json::Unsigned(n)) => if n <= u16::MAX {
            Some(Some(n as u16))
        } else {
            None
        },
        _ => None,
    }
}

/// An optional 32-bit integer member: absent or null is `None`.
pub open spec fn optional_u32(v: Option<Json>) -> Option<Option<u32>> {
    match v {
        None => Some(None),
        Some(Json::Null) => Some(None),
        Some(Json::Unsigned(n)) => if n <= u32::MAX {
            Some(Some(n as u32))
        } else {
            None
        },
        _ => None,
    }
}

/// The value of the first member named `key`.
pub fn get_field<'a>(members: &'a Vec<(String, Json)>, key: &str) -> (r: Option<&'a Json>)
    ensures
        match r {
            Some(v) => field(members@, key@) == Some(*v),
            None => field(members@, key@) is None,
        },
{
    let mut i: usize = 0;
    assert(members@.skip(0) =~= members@);
    while i < members.len()
        invariant
            i <= members@.len(),
            field(members@, key@) == field(members@.skip(i as int), key@),
        decreases members@.len() - i,
    {
        let ghost rest = members@.skip(i as int);
        assert(rest.drop_first() =~= members@.skip(i + 1));
        if crate::scope::same_text(members[i].0.as_str(), key) {
            return Some(&members[i].1);
        }
        i += 1;
    }
    assert(members@.skip(i as int) =~= Seq::<(String, Json)>::empty());
    None
}

/// A member value that is a string or null.
pub open spec fn text_or_null(j: Json) -> Option<Option<Seq<char>>> {
    match j {
        Json::Str(s) => Some(Some(s@)),
        Json::Null => Some(None),
        _ => None,
    }
}

/// Whether the members are, in order, the given keys with string (`Some`) or null
/// (`None`) values.
pub open spec fn members_are(m: Seq<(String, Json)>, expect: Seq<(Seq<char>, Option<Seq<char>>)>) -> bool {
    m.len() == expect.len() && forall|i: int|
        0 <= i < expect.len() ==> (#[trigger] m[i]).0@ == expect[i].0 && text_or_null(m[i].1) == Some(
            expect[i].1,
        )
}

/// Whether `j` is an object whose members are, in order, the given keys with string
/// (`Some`) or null (`None`) values.
pub open spec fn is_text_object(j: Json, expect: Seq<(Seq<char>, Option<Seq<char>>)>) -> bool {
    match j {
        Json::Object(members) => members_are(members@, expect),
        _ => false,
    }
}

/// A member whose value is the given text, or null.
pub fn text_member(key: &str, value: Option<&String>) -> (r: (String, Json))
    ensures
        r.0@ == key@,
        text_or_null(r.1) == Some(
            match value {
                Some(v) => Some(v@),
                None => None::<Seq<char>>,
            },
        ),
{
    let v = match value {
        Some(v) => Json::Str(v.clone()),
        None => Json::Null,
    };
    (String::from_str(key), v)
}

/// Reads a required string member.
pub fn read_required_str(v: Option<&Json>) -> (r: Option<String>)
    ensures
        r == required_str(match v {
            Some(j) => Some(*j),
            None => None,
        }),
{
    match v {
        Some(Json::Str(s)) => Some(s.clone()),
        _ => None,
    }
}

/// Reads an optional string member.
pub fn read_optional_str(v: Option<&Json>) -> (r: Option<Option<String>>)
    ensures
        r == optional_str(match v {
            Some(j) => Some(*j),
            None => None,
        }),
{
    match v {
        None => Some(None),
        Some(Json::Null) => Some(None),
        Some(Json::Str(s)) => Some(Some(s.clone())),
        _ => None,
    }
}

/// Reads an optional 16-bit integer member.
pub fn read_optional_u16(v: Option<&Json>) -> (r: Option<Option<u16>>)
    ensures
        r == optional_u16(match v {
            Some(j) => Some(*j),
            None => None,
        }),
{
    match v {
        None => Some(None),
        Some(Json::Null) => Some(None),
        Some(Json::Unsigned(n)) => if *n <= 65535 {
            Some(Some(*n as u16))
        } else {
            None
        },
        _ => None,
    }
}

/// Reads an optional 32-bit integer member.
pub fn read_optional_u32(v: Option<&Json>) -> (r: Option<Option<u32>>)
    ensures
        r == optional_u32(match v {
            Some(j) => Some(*j),
            None => None,
        }),
{
    match v {
        None => Some(None),
        Some(Json::Null) => Some(None),
        Some(Json::Unsigned(n)) => if *n <= 4294967295 {
            Some(Some(*n as u32))
        } else {
            None
        },
        _ => None,
    }
}

} // verus!
