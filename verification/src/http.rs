use crate::info::InstanceInfo;
use vstd::prelude::*;

verus! {

/// The shape of a successful broker answer, as far as the HTTP front end
/// tells them apart.
pub enum AnswerKind {
    /// The request was carried out; nothing to return.
    Nothing,
    /// A text to return.
    Message(String),
    /// A listener to an instance's output.
    Receiver,
}

/// The body of an HTTP reply.
pub enum ReplyBody {
    Empty,
    /// A `SrvMessage` carrying this text, as JSON.
    Message(String),
    /// This text, already JSON.
    Json(String),
}

/// An HTTP reply: status code and body.
pub struct HttpReply {
    pub status: u16,
    pub body: ReplyBody,
}

pub open spec fn body_message(r: HttpReply) -> Option<Seq<char>> {
    match r.body {
        ReplyBody::Message(m) => Some(m@),
        _ => None,
    }
}

pub open spec fn body_json(r: HttpReply) -> Option<Seq<char>> {
    match r.body {
        ReplyBody::Json(m) => Some(m@),
        _ => None,
    }
}

pub open spec fn body_is_empty(r: HttpReply) -> bool {
    r.body is Empty
}

pub open spec fn no_answer_message() -> Seq<char> {
    "Failed to receive response"@
}

fn no_answer() -> (r: HttpReply)
    ensures
        r.status == 500,
        body_message(r) == Some(no_answer_message()),
{
    HttpReply { status: 500, body: ReplyBody::Message(String::from_str("Failed to receive response")) }
}

/// The reply to a broker request whose success carries nothing the client
/// needs (start, stop, halt, remove, execute, save, update). `outcome` is
/// `None` when no answer came back.
pub fn operation_reply(outcome: Option<Result<AnswerKind, String>>) -> (r: HttpReply)
    ensures
        match outcome {
            None => r.status == 500 && body_message(r) == Some(no_answer_message()),
            Some(Ok(_)) => r.status == 200 && body_is_empty(r),
            Some(Err(m)) => r.status == 502 && body_message(r) == Some(m@),
        },
{
    match outcome {
        None => no_answer(),
        Some(Ok(_)) => HttpReply { status: 200, body: ReplyBody::Empty },
        Some(Err(m)) => HttpReply { status: 502, body: ReplyBody::Message(m) },
    }
}

/// The reply to a create request: only a plain success is a success.
pub fn create_reply(outcome: Option<Result<AnswerKind, String>>) -> (r: HttpReply)
    ensures
        match outcome {
            None => r.status == 500 && body_message(r) == Some(no_answer_message()),
            Some(Ok(AnswerKind::Nothing)) => r.status == 200 && body_is_empty(r),
            Some(Ok(_)) => r.status == 500 && body_is_empty(r),
            Some(Err(m)) => r.status == 502 && body_message(r) == Some(m@),
        },
{
    match outcome {
        None => no_answer(),
        Some(Ok(AnswerKind::Nothing)) => HttpReply { status: 200, body: ReplyBody::Empty },
        Some(Ok(_)) => HttpReply { status: 500, body: ReplyBody::Empty },
        Some(Err(m)) => HttpReply { status: 502, body: ReplyBody::Message(m) },
    }
}

/// The reply to a listing request: the listing text is returned as JSON.
pub fn list_reply(outcome: Option<Result<AnswerKind, String>>) -> (r: HttpReply)
    ensures
        match outcome {
            None => r.status == 500 && body_message(r) == Some(no_answer_message()),
            Some(Ok(AnswerKind::Message(m))) => r.status == 200 && body_json(r) == Some(m@),
            Some(Ok(_)) => r.status == 500 && body_is_empty(r),
            Some(Err(m)) => r.status == 502 && body_message(r) == Some(m@),
        },
{
    match outcome {
        None => no_answer(),
        Some(Ok(AnswerKind::Message(m))) => HttpReply { status: 200, body: ReplyBody::Json(m) },
        Some(Ok(_)) => HttpReply { status: 500, body: ReplyBody::Empty },
        Some(Err(m)) => HttpReply { status: 502, body: ReplyBody::Message(m) },
    }
}

/// An update may not rename an instance: the reply when the name in the
/// path differs from the name in the new description, `None` otherwise.
pub fn update_name_check(name: &String, new_info: &InstanceInfo) -> (r: Option<HttpReply>)
    ensures
        name@ == new_info@.name ==> r is None,
        name@ != new_info@.name ==> (r matches Some(x) && x.status == 403
            && body_message(x) == Some("Changing instance name is not allowed"@)),
{
    if *name != new_info.name {
        Some(HttpReply { status: 403, body: ReplyBody::Message(String::from_str("Changing instance name is not allowed")) })
    } else {
        None
    }
}

/// The reply to a path no route serves.
pub fn undefined_reply() -> (r: HttpReply)
    ensures
        r.status == 404 && body_is_empty(r),
{
    HttpReply { status: 404, body: ReplyBody::Empty }
}

/// The reply to a request without the right credentials.
pub fn unauthorized_reply() -> (r: HttpReply)
    ensures
        r.status == 401 && body_is_empty(r),
{
    HttpReply { status: 401, body: ReplyBody::Empty }
}

/// The credential clients must present: `Bearer ` followed by the token.
pub fn expected_token(token: &String) -> (r: String)
    ensures
        r@ == "Bearer "@ + token@,
{
    let mut r = String::from_str("Bearer ");
    r.append(token.as_str());
    r
}

/// A request is let through when it presents exactly the expected
/// credential.
pub fn is_authorized(presented: Option<String>, expected: &String) -> (b: bool)
    ensures
        b == (presented matches Some(p) && p@ == expected@),
{
    match presented {
        Some(p) => p == *expected,
        None => false,
    }
}

/// The text first sent to an output listener: the current log, or the
/// broker's error prefixed with the manager's name; nothing for other
/// answers.
pub fn initial_log_text(outcome: Option<Result<AnswerKind, String>>) -> (r: Option<String>)
    ensures
        match outcome {
            Some(Ok(AnswerKind::Message(s))) => r matches Some(x) && x@ == s@,
            Some(Err(m)) => r matches Some(x) && x@ == "CAIManager: "@ + m@,
            _ => r is None,
        },
{
    match outcome {
        Some(Ok(AnswerKind::Message(s))) => Some(s),
        Some(Err(m)) => {
            let mut x = String::from_str("CAIManager: ");
            x.append(m.as_str());
            Some(x)
        },
        _ => None,
    }
}

/// Whether an output listener was handed out; otherwise the message to
/// send the client before closing.
pub fn reader_failure(outcome: Option<Result<AnswerKind, String>>) -> (r: Option<String>)
    ensures
        match outcome {
            Some(Ok(AnswerKind::Receiver)) => r is None,
            Some(Ok(_)) => r matches Some(x) && x@ == "Getting stdout reader failed"@,
            Some(Err(m)) => r matches Some(x) && x@ == m@,
            None => r matches Some(x) && x@ == "Unexpected result from broker"@,
        },
{
    match outcome {
        Some(Ok(AnswerKind::Receiver)) => None,
        Some(Ok(_)) => Some(String::from_str("Getting stdout reader failed")),
        Some(Err(m)) => Some(m),
        None => Some(String::from_str("Unexpected result from broker")),
    }
}

} // verus!
