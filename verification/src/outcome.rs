//! The outcome of a request: whether its response counts as a success, and
//! what is known of the failure where it does not.

use crate::telemetry::{text_or_empty, FailureEvent, FailureEventView, FailureKind, SpanStatus};
use vstd::prelude::*;

verus! {

/// The success predicate that holds where no filter is configured:
/// informational, success and redirection codes count as success.
pub open spec fn default_success(status: u16) -> bool {
    100 <= status < 400
}

pub fn is_default_success(status: u16) -> (accepted: bool)
    ensures
        accepted == default_success(status),
{
    100 <= status && status < 400
}

/// Whether a response with `status` counts as a success. A configured filter
/// decides alone; it is asked before any body is read.
pub fn is_success<F>(filter: Option<F>, status: u16) -> (accepted: bool) where F: Fn(u16) -> bool
    requires
        filter matches Some(filter) ==> call_requires(filter, (status,)),
    ensures
        match filter {
            Some(filter) => call_ensures(filter, (status,), accepted),
            None => accepted == default_success(status),
        },
{
    match filter {
        Some(filter) => filter(status),
        None => is_default_success(status),
    }
}

/// The result of one request.
#[derive(Clone, Debug, PartialEq, Eq)]
pub enum Outcome {
    /// The response is returned as the handler made it.
    Success,
    /// The response is a failure, with what its payload says of it.
    Failure { status: u16, message: String, backtrace: String },
}

pub enum OutcomeView {
    Success,
    Failure { status: u16, message: Seq<char>, backtrace: Seq<char> },
}

impl View for Outcome {
    type V = OutcomeView;

    open spec fn view(&self) -> OutcomeView {
        match self {
            Outcome::Success => OutcomeView::Success,
            Outcome::Failure { status, message, backtrace } => OutcomeView::Failure {
                status: *status,
                message: message@,
                backtrace: backtrace@,
            },
        }
    }
}

/// The outcome of a request whose response has `status`, where `accepted` is
/// what the success predicate says of `status` and `message` and `backtrace`
/// are what the payload of the response gives. What the payload does not give
/// is empty.
pub open spec fn classification(
    status: u16,
    accepted: bool,
    message: Option<Seq<char>>,
    backtrace: Option<Seq<char>>,
) -> OutcomeView {
    if accepted {
        OutcomeView::Success
    } else {
        OutcomeView::Failure {
            status,
            message: text_or_empty(message),
            backtrace: text_or_empty(backtrace),
        }
    }
}

impl OutcomeView {
    /// The final status of the span of a request with this outcome.
    pub open spec fn span_status(self) -> SpanStatus {
        match self {
            OutcomeView::Success => SpanStatus::Okay,
            OutcomeView::Failure { .. } => SpanStatus::Error,
        }
    }

    /// The failure event of a request with this outcome: none for a success.
    pub open spec fn event(self) -> Option<FailureEventView> {
        match self {
            OutcomeView::Success => None,
            OutcomeView::Failure { status, message, backtrace } => Some(
                FailureEventView { kind: FailureKind::Http(status), message, backtrace },
            ),
        }
    }
}

impl Outcome {
    /// The outcome of a request whose response was rejected by the success
    /// predicate.
    pub fn failure(status: u16, message: Option<String>, backtrace: Option<String>) -> (outcome:
        Outcome)
        ensures
            outcome@ == classification(status, false, message.deep_view(), backtrace.deep_view()),
    {
        let event = FailureEvent::http(status, message, backtrace);
        Outcome::Failure { status, message: event.message, backtrace: event.backtrace }
    }

    pub fn span_status(&self) -> (status: SpanStatus)
        ensures
            status == self@.span_status(),
    {
        match self {
            Outcome::Success => SpanStatus::Okay,
            Outcome::Failure { .. } => SpanStatus::Error,
        }
    }

    pub fn event(&self) -> (event: Option<FailureEvent>)
        ensures
            event.deep_view() == self@.event(),
    {
        match self {
            Outcome::Success => None,
            Outcome::Failure { status, message, backtrace } => Some(
                FailureEvent {
                    kind: FailureKind::Http(*status),
                    message: message.clone(),
                    backtrace: backtrace.clone(),
                },
            ),
        }
    }
}

} // verus!
