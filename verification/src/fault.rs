//! Faults: a handler that ends by unwinding instead of returning. The fault is
//! turned into a response, so that the caller of the middleware sees an error
//! response and never the fault.

use crate::text::view_of;
use vstd::prelude::*;
use vstd::string::*;

verus! {

/// The text that `std`'s `Debug` writes for a `str`: the characters between
/// double quotes, with escapes where `Debug` uses them.
pub uninterp spec fn debug_text(text: Seq<char>) -> Seq<char>;

/// `format!` with `{:?}` on a `&str`, which is `<str as Debug>::fmt`. The
/// result is a function of the characters alone, and `debug_text` is its name.
#[verifier::external_body]
fn debug_str(text: &str) -> (quoted: String)
    ensures
        quoted@ == debug_text(text@),
{
    format!("{:?}", text)
}

/// The payload of a fault as text, where `quoted` is the message of the fault
/// as `Debug` writes it. A fault that was raised with a plain message has the
/// message as its payload; any other fault has none.
pub open spec fn payload_text(quoted: Option<Seq<char>>) -> Seq<char> {
    match quoted {
        Some(quoted) => "Some("@ + quoted + ")"@,
        None => "None"@,
    }
}

/// The message of a fault as `Debug` writes it.
pub open spec fn quoted_message(message: Option<Seq<char>>) -> Option<Seq<char>> {
    match message {
        Some(message) => Some(debug_text(message)),
        None => None,
    }
}

/// Writes the payload of a fault as text, from the message as `Debug` writes
/// it.
pub fn render_payload(quoted: Option<&str>) -> (text: String)
    ensures
        text@ == payload_text(view_of(quoted)),
{
    match quoted {
        Some(quoted) => {
            let mut text = String::from_str("Some(");
            text.append(quoted);
            text.append(")");
            text
        },
        None => String::from_str("None"),
    }
}

/// Writes the payload of a fault as text, for the panic mapper and for the
/// telemetry. `message` is the message that the fault was raised with, if it
/// was raised with one.
pub fn payload_string(message: Option<&str>) -> (text: String)
    ensures
        text@ == payload_text(quoted_message(view_of(message))),
{
    match message {
        Some(message) => {
            let quoted = debug_str(message);
            render_payload(Some(quoted.as_str()))
        },
        None => render_payload(None),
    }
}

/// The status of the response to a fault where no panic mapper is configured.
pub const DEFAULT_FAULT_STATUS: u16 = 500;

/// The text that `serde_json` writes for a string: the characters between
/// double quotes, with the escapes of JSON.
pub uninterp spec fn json_string(text: Seq<char>) -> Seq<char>;

/// `serde_json::to_string` on a `&str`. It writes the text as one JSON string,
/// and what it writes is a function of the characters alone: `json_string` is
/// its name. The call fails where a value refuses to be written or a map has
/// keys that are no strings; a `str` is neither.
#[verifier::external_body]
fn json_str(text: &str) -> (quoted: String)
    ensures
        quoted@ == json_string(text@),
{
    match serde_json::to_string(text) {
        Ok(quoted) => quoted,
        Err(_) => String::new(),
    }
}

/// The message of the response to a fault where no panic mapper is
/// configured. It names the payload of the fault.
pub open spec fn fault_message(payload_text: Seq<char>) -> Seq<char> {
    "A panic occurred: "@ + payload_text + "."@
}

/// The JSON object with the status 500 and the message `quoted`, which is a
/// JSON string already.
pub open spec fn default_body_of(quoted: Seq<char>) -> Seq<char> {
    "{\"status\":500,\"message\":"@ + quoted + "}"@
}

/// The body of the response to a fault where no panic mapper is configured: a
/// JSON object with the status 500 and the message of the fault.
pub open spec fn default_fault_body(payload_text: Seq<char>) -> Seq<char> {
    default_body_of(json_string(fault_message(payload_text)))
}

/// Writes the JSON object with the status 500 and the message `quoted`, which
/// is a JSON string already.
pub fn default_body(quoted: &str) -> (body: String)
    ensures
        body@ == default_body_of(quoted@),
{
    let mut body = String::from_str("{\"status\":500,\"message\":");
    body.append(quoted);
    body.append("}");
    body
}

/// The status and body that the panic mapper made of a fault, the body already
/// serialized; `None` where no mapper is configured.
pub open spec fn fault_status(mapped: Option<(u16, Seq<char>)>) -> u16 {
    match mapped {
        Some(made) => made.0,
        None => DEFAULT_FAULT_STATUS,
    }
}

pub open spec fn fault_body(payload_text: Seq<char>, mapped: Option<(u16, Seq<char>)>) -> Seq<
    char,
> {
    match mapped {
        Some(made) => made.1,
        None => default_fault_body(payload_text),
    }
}

/// The response that stands for a fault.
#[derive(Clone, Debug, PartialEq, Eq)]
pub struct FaultReply {
    pub status: u16,
    pub content_type: String,
    pub body: String,
}

/// The response for a fault with the payload `payload_text`. `mapped` is what
/// the panic mapper made of the payload.
pub fn fault_reply(payload_text: &str, mapped: Option<(u16, String)>) -> (reply: FaultReply)
    ensures
        reply.status == fault_status(mapped.deep_view()),
        reply.body@ == fault_body(payload_text@, mapped.deep_view()),
        reply.content_type@ == "application/json"@,
        mapped matches Some(made) ==> reply.body == made.1,
{
    let content_type = String::from_str("application/json");
    match mapped {
        Some(made) => FaultReply { status: made.0, content_type, body: made.1 },
        None => {
            let mut message = String::from_str("A panic occurred: ");
            message.append(payload_text);
            message.append(".");
            let quoted = json_str(message.as_str());
            let body = default_body(quoted.as_str());
            FaultReply { status: DEFAULT_FAULT_STATUS, content_type, body }
        },
    }
}

/// What `map_fault` promises of `mapped`, whatever the mapper and `encode` do:
/// without a mapper there is nothing; with one, the mapper was handed the text
/// `payload_text` and `encode` the payload that the mapper returned, and
/// `mapped` holds the status that the mapper gave and what `encode` returned.
pub open spec fn mapped_by<P, M, S>(
    payload_text: Seq<char>,
    mapper: Option<M>,
    encode: S,
    mapped: Option<(u16, String)>,
) -> bool where M: Fn(String) -> (u16, P), S: Fn(&P) -> String {
    match (mapper, mapped) {
        (Some(mapper), Some(made)) => exists|text: String, payload: P|
            {
                &&& text@ == payload_text
                &&& #[trigger] call_ensures(mapper, (text,), (made.0, payload))
                &&& #[trigger] call_ensures(encode, (&payload,), made.1)
            },
        (None, None) => true,
        _ => false,
    }
}

/// Asks the panic mapper, where one is configured, what the response to a
/// fault is.
///
/// The mapper is handed `payload_text`, and `encode` the payload that the
/// mapper returns; what `encode` returns is the second part of the result.
/// Without a mapper neither is called.
pub fn map_fault<P, M, S>(payload_text: &str, mapper: Option<M>, encode: S) -> (mapped: Option<
    (u16, String),
>) where M: Fn(String) -> (u16, P), S: Fn(&P) -> String
    requires
        mapper matches Some(mapper) ==> forall|text: String| call_requires(mapper, (text,)),
        forall|payload: &P| call_requires(encode, (payload,)),
    ensures
        mapped_by::<P, M, S>(payload_text@, mapper, encode, mapped),
{
    match mapper {
        Some(mapper) => {
            let text = payload_text.to_owned();
            let (status, payload) = mapper(text);
            let body = encode(&payload);
            let mapped = Some((status, body));
            assert(call_ensures(mapper, (text,), ((mapped->0).0, payload)));
            assert(call_ensures(encode, (&payload,), (mapped->0).1));
            mapped
        },
        None => None,
    }
}

/// Who reports a fault of the process.
#[derive(Clone, Copy, Debug, PartialEq, Eq, Structural)]
pub enum Reporter {
    /// The middleware, with the request whose handler raised the fault.
    Middleware,
    /// The hook of the process.
    Hook,
}

/// Says who reports a fault that is raised while `handlers_running` handlers
/// of the middleware run on the thread. A fault of a handler is left to the
/// middleware, so that it is reported once; any other fault is the hook's.
pub fn reporter(handlers_running: usize) -> (who: Reporter)
    ensures
        who == if handlers_running > 0 {
            Reporter::Middleware
        } else {
            Reporter::Hook
        },
{
    if handlers_running > 0 {
        Reporter::Middleware
    } else {
        Reporter::Hook
    }
}

} // verus!
