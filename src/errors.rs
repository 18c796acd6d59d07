use vstd::prelude::*;

use crate::json::{
    field, get_field, optional_str, optional_u16, parse, parsed_json, read_optional_str,
    read_optional_u16, read_required_str, required_str, Json,
};

verus! {

/// A local precondition that failed before any call was made.
#[derive(Clone, Copy, Debug, PartialEq, Eq, Structural)]
pub enum AuthError {
    /// Neither the caller nor the held token offers a refresh token.
    MissingRefreshToken,
    /// The password grant was chosen without a username.
    MissingUsername,
    /// The password grant was chosen without a password.
    MissingPassword,
}

/// Why a body could not be read as the JSON value that was expected.
#[derive(Clone, Debug)]
pub enum JsonError {
    /// The text is not JSON; the parser's own description of the fault.
    Syntax(String),
    /// The text is JSON, but not of the expected shape.
    Shape,
}

/// One structured message of the platform's error payload.
#[derive(Clone, Debug)]
pub struct Message {
    pub message: String,
    pub instance: Option<String>,
    pub error_code: Option<String>,
    pub param: Option<String>,
    pub ty: Option<String>,
    pub title: Option<String>,
    /// The HTTP status the platform reports.
    pub status: Option<u16>,
    pub detail: Option<String>,
}

/// The platform's error payload: one message or a sequence of them.
#[derive(Clone, Debug)]
pub enum Response {
    Message(Message),
    Messages(Vec<Message>),
}

/// Every failure that the library reports.
#[derive(Clone, Debug)]
pub enum Error {
    /// A structured error decoded from the remote service's reply.
    Api(Response),
    /// A local precondition failed; no call was made.
    Auth(AuthError),
    /// A scope string is not one of the known scopes.
    InvalidScope(String),
    /// The transport failed below the HTTP layer.
    Io(String),
    /// A body could not be read as JSON of the expected shape.
    Json(JsonError),
}

/// The message that a JSON object denotes: `message` is a required string, the other
/// members are optional (absent or null), and members of other names are ignored.
pub open spec fn message_of(j: Json) -> Option<Message> {
    match j {
        Json::Object(members) => {
            let m = members@;
            let message = required_str(field(m, "message"@));
            let instance = optional_str(field(m, "instance"@));
            let error_code = optional_str(field(m, "error_code"@));
            let param = optional_str(field(m, "param"@));
            let ty = optional_str(field(m, "type"@));
            let title = optional_str(field(m, "title"@));
            let status = optional_u16(field(m, "status"@));
            let detail = optional_str(field(m, "detail"@));
            if message is Some && instance is Some && error_code is Some && param is Some
                && ty is Some && title is Some && status is Some && detail is Some {
                Some(
                    Message {
                        message: message->0,
                        instance: instance->0,
                        error_code: error_code->0,
                        param: param->0,
                        ty: ty->0,
                        title: title->0,
                        status: status->0,
                        detail: detail->0,
                    },
                )
            } else {
                None
            }
        },
        _ => None,
    }
}

/// The messages that a sequence of documents denotes, when each one is a message.
pub open spec fn messages_of(items: Seq<Json>) -> Option<Seq<Message>>
    decreases items.len(),
{
    if items.len() == 0 {
        Some(Seq::empty())
    } else {
        match (messages_of(items.drop_last()), message_of(items.last())) {
            (Some(ms), Some(m)) => Some(ms.push(m)),
            _ => None,
        }
    }
}

/// Whether `j` reads as an error payload: first as one message, then as a sequence of them.
pub open spec fn is_error_payload(j: Json) -> bool {
    message_of(j) is Some || match j {
        Json::Array(items) => messages_of(items@) is Some,
        _ => false,
    }
}

/// Whether `r` is the error payload that `j` denotes, tried in that order.
pub open spec fn payload_is(j: Json, r: Response) -> bool {
    match r {
        Response::Message(m) => message_of(j) == Some(m),
        Response::Messages(v) => message_of(j) is None && match j {
            Json::Array(items) => messages_of(items@) == Some(v@),
            _ => false,
        },
    }
}

/// The error that a failure body denotes: the decoded payload, or the decoding failure.
pub open spec fn error_of_body(body: Seq<char>, e: Error) -> bool {
    match parsed_json(body) {
        None => e is Json && e->Json_0 is Syntax,
        Some(j) => if is_error_payload(j) {
            e is Api && payload_is(j, e->Api_0)
        } else {
            e is Json && e->Json_0 is Shape
        },
    }
}

impl Message {
    /// Reads one structured message from a JSON object.
    pub fn from_json(j: &Json) -> (r: Option<Message>)
        ensures
            r == message_of(*j),
    {
        match j {
            Json::Object(members) => {
                let message = read_required_str(get_field(members, "message"));
                let instance = read_optional_str(get_field(members, "instance"));
                let error_code = read_optional_str(get_field(members, "error_code"));
                let param = read_optional_str(get_field(members, "param"));
                let ty = read_optional_str(get_field(members, "type"));
                let title = read_optional_str(get_field(members, "title"));
                let status = read_optional_u16(get_field(members, "status"));
                let detail = read_optional_str(get_field(members, "detail"));
                match (message, instance, error_code, param, ty, title, status, detail) {
                    (
                        Some(message),
                        Some(instance),
                        Some(error_code),
                        Some(param),
                        Some(ty),
                        Some(title),
                        Some(status),
                        Some(detail),
                    ) => Some(
                        Message { message, instance, error_code, param, ty, title, status, detail },
                    ),
                    _ => None,
                }
            },
            _ => None,
        }
    }
}

impl Response {
    /// Reads the platform's error payload: first as one message, then as a sequence of
    /// messages; `None` where it is neither.
    pub fn from_json(j: &Json) -> (r: Option<Response>)
        ensures
            match r {
                Some(resp) => payload_is(*j, resp),
                None => !is_error_payload(*j),
            },
    {
        let first = Message::from_json(j);
        if first.is_some() {
            return match first {
                Some(m) => Some(Response::Message(m)),
                None => None,
            };
        }
        assert(message_of(*j) is None);
        match j {
            Json::Array(items) => {
                let mut out: Vec<Message> = Vec::new();
                let mut i: usize = 0;
                while i < items.len()
                    invariant
                        message_of(*j) is None,
                        *j == Json::Array(*items),
                        i <= items@.len(),
                        messages_of(items@.take(i as int)) == Some(out@),
                    decreases items@.len() - i,
                {
                    assert(items@.take(i + 1).drop_last() =~= items@.take(i as int));
                    assert(items@.take(i + 1).last() == items@[i as int]);
                    match Message::from_json(&items[i]) {
                        Some(m) => out.push(m),
                        None => {
                            proof {
                                lemma_messages_fail(items@, i + 1);
                            }
                            return None;
                        },
                    }
                    i += 1;
                }
                assert(items@.take(i as int) =~= items@);
                Some(Response::Messages(out))
            },
            _ => None,
        }
    }
}

/// Once a prefix holds a document that is no message, the whole sequence is none.
proof fn lemma_messages_fail(items: Seq<Json>, k: int)
    requires
        0 <= k <= items.len(),
        messages_of(items.take(k)) is None,
    ensures
        messages_of(items) is None,
    decreases items.len() - k,
{
    if k < items.len() {
        assert(items.take(k + 1).drop_last() =~= items.take(k));
        lemma_messages_fail(items, k + 1);
    } else {
        assert(items.take(k) =~= items);
    }
}

impl Error {
    /// Decodes the body of a failure reply: the platform's error payload becomes `Api`;
    /// a body that is not JSON, or JSON of neither payload shape, becomes `Json`.
    pub fn from_body(body: &str) -> (e: Error)
        ensures
            error_of_body(body@, e),
    {
        match parse(body) {
            Err(text) => Error::Json(JsonError::Syntax(text)),
            Ok(j) => match Response::from_json(&j) {
                Some(resp) => Error::Api(resp),
                None => Error::Json(JsonError::Shape),
            },
        }
    }
}

} // verus!
