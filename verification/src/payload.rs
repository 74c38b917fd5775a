//! The error payload of an application: what a failure response carries in its
//! body, and what the telemetry reads from it.

use vstd::prelude::*;

verus! {

/// What the telemetry reads from an application's error type: a message for
/// people, and a backtrace. A type gives `None` for what it does not have.
pub trait AppInsightsError {
    /// The message of the error.
    fn message(&self) -> Option<String>;

    /// The backtrace of the error.
    fn backtrace(&self) -> Option<String>;
}

/// The unit type is the payload of an application that has no error type: it
/// has neither message nor backtrace.
impl AppInsightsError for () {
    fn message(&self) -> (message: Option<String>)
        ensures
            message is None,
    {
        None
    }

    fn backtrace(&self) -> (backtrace: Option<String>)
        ensures
            backtrace is None,
    {
        None
    }
}

/// What inspecting the body of a failure response found: the payload's message
/// and backtrace, where it has them, and the payload written out again as text.
#[derive(Clone, Debug, PartialEq, Eq)]
pub struct Findings {
    pub message: Option<String>,
    pub backtrace: Option<String>,
    pub serialized: String,
}

pub struct FindingsView {
    pub message: Option<Seq<char>>,
    pub backtrace: Option<Seq<char>>,
    pub serialized: Seq<char>,
}

impl View for Findings {
    type V = FindingsView;

    open spec fn view(&self) -> FindingsView {
        FindingsView {
            message: self.message.deep_view(),
            backtrace: self.backtrace.deep_view(),
            serialized: self.serialized@,
        }
    }
}

/// What `examine` promises of `found`, whatever the closures and the payload
/// do. `decode` was handed `body`. The payload that was read is the one that
/// `decode` gave, or the default payload where `decode` gave none.
/// `found.message` and `found.backtrace` are what that payload answered, and
/// `found.serialized` is what `encode` made of it.
pub open spec fn examined<E, D, S>(body: &[u8], decode: D, encode: S, found: Findings) -> bool where
    E: AppInsightsError + Default,
    D: Fn(&[u8]) -> Option<E>,
    S: Fn(&E) -> String,
 {
    exists|payload: E|
        {
            &&& call_ensures(decode, (body,), Some(payload)) || (call_ensures(
                decode,
                (body,),
                None::<E>,
            ) && call_ensures(E::default, (), payload))
            &&& call_ensures(E::message, (&payload,), found.message)
            &&& call_ensures(E::backtrace, (&payload,), found.backtrace)
            &&& #[trigger] call_ensures(encode, (&payload,), found.serialized)
        }
}

/// Decodes the payload of a failure response from its body and reads it.
///
/// `decode` is handed the body as it is. Where it gives no payload, because the
/// body is empty or malformed, the default payload stands in: the inspection
/// always completes. `encode` is handed the payload that was read, and what it
/// returns is `serialized`. The message and the backtrace are what the payload
/// answers when it is asked for them.
pub fn examine<E, D, S>(body: &[u8], decode: D, encode: S) -> (found: Findings) where
    E: AppInsightsError + Default,
    D: Fn(&[u8]) -> Option<E>,
    S: Fn(&E) -> String,

    requires
        call_requires(decode, (body,)),
        forall|payload: &E| call_requires(encode, (payload,)),
    ensures
        examined::<E, D, S>(body, decode, encode, found),
{
    let payload = match decode(body) {
        Some(payload) => payload,
        None => E::default(),
    };
    let message = payload.message();
    let backtrace = payload.backtrace();
    let serialized = encode(&payload);
    let found = Findings { message, backtrace, serialized };
    assert(call_ensures(E::message, (&payload,), found.message));
    assert(call_ensures(E::backtrace, (&payload,), found.backtrace));
    assert(call_ensures(encode, (&payload,), found.serialized));
    found
}

} // verus!
