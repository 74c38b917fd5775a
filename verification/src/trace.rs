//! The telemetry of one request as a whole: what the span sink is told from
//! the arrival of the request to the return of its response, and in what
//! order.

use crate::fault::fault_status;
use crate::outcome::{classification, OutcomeView};
use crate::payload::FindingsView;
use crate::telemetry::{
    text_or_empty, FailureEventView, FailureKind, RecordView, SpanStartView, SpanStatus,
    TelemetryView,
};
use vstd::prelude::*;

verus! {

/// How the handler of a request ended.
pub enum Ending {
    /// It returned a response with this status.
    Returned { status: u16 },
    /// It raised a fault. `payload_text` is the payload of the fault as text,
    /// `backtrace` where the fault was raised, and `mapped` the status and the
    /// body that the panic mapper made of the payload, if one is configured.
    Faulted { payload_text: Seq<char>, backtrace: Seq<char>, mapped: Option<(u16, Seq<char>)> },
    /// It returned its own error, which goes to the caller as it is.
    Failed,
}

/// One request, as far as its telemetry depends on it.
pub struct Script {
    /// The fields that the span is opened with.
    pub start: SpanStartView,
    pub ending: Ending,
    /// What the success predicate says of the status of the response.
    pub accepted: bool,
    /// What the body of the response holds. It is read for a response that the
    /// success predicate rejects, and for no other.
    pub findings: FindingsView,
}

/// The telemetry of the arrival of a request.
pub open spec fn opening(start: SpanStartView) -> Seq<TelemetryView> {
    seq![TelemetryView::SpanOpened(start)]
}

/// The telemetry of a fault that was intercepted.
pub open spec fn fault_notice(payload_text: Seq<char>, backtrace: Seq<char>) -> Seq<TelemetryView> {
    seq![
        TelemetryView::Failure(
            FailureEventView { kind: FailureKind::Panic, message: payload_text, backtrace },
        ),
    ]
}

/// The telemetry that ends a request whose response is a success. No status
/// message is recorded.
pub open spec fn success_closing(status: u16) -> Seq<TelemetryView> {
    seq![
        TelemetryView::Recorded(RecordView::StatusCode(status)),
        TelemetryView::Recorded(RecordView::Status(SpanStatus::Okay)),
        TelemetryView::SpanClosed,
    ]
}

/// The telemetry that ends a request whose response is a failure: the failure
/// event first, then the fields of the span.
pub open spec fn failure_closing(status: u16, findings: FindingsView) -> Seq<TelemetryView> {
    seq![
        TelemetryView::Failure(
            FailureEventView {
                kind: FailureKind::Http(status),
                message: text_or_empty(findings.message),
                backtrace: text_or_empty(findings.backtrace),
            },
        ),
        TelemetryView::Recorded(RecordView::StatusCode(status)),
        TelemetryView::Recorded(RecordView::Status(SpanStatus::Error)),
        TelemetryView::Recorded(RecordView::StatusMessage(findings.serialized)),
        TelemetryView::SpanClosed,
    ]
}

/// The telemetry that ends a request whose response has `status`.
pub open spec fn closing(status: u16, accepted: bool, findings: FindingsView) -> Seq<
    TelemetryView,
> {
    if accepted {
        success_closing(status)
    } else {
        failure_closing(status, findings)
    }
}

/// The telemetry that ends a request whose handler returned its own error.
pub open spec fn abandoning() -> Seq<TelemetryView> {
    seq![TelemetryView::SpanClosed]
}

impl Script {
    /// Whether the request ends with a response: one that the handler
    /// returned, or one that stands for a fault.
    pub open spec fn answered(self) -> bool {
        !(self.ending is Failed)
    }

    /// The status of the response that is classified and returned.
    pub open spec fn status(self) -> u16 {
        match self.ending {
            Ending::Returned { status } => status,
            Ending::Faulted { mapped, .. } => fault_status(mapped),
            Ending::Failed => 0,
        }
    }

    /// The outcome of the request.
    pub open spec fn outcome(self) -> OutcomeView {
        classification(
            self.status(),
            self.accepted,
            self.findings.message,
            self.findings.backtrace,
        )
    }
}

/// Everything that the span sink is told of one request, in order. In no-op
/// mode that is nothing.
pub open spec fn trace(noop: bool, script: Script) -> Seq<TelemetryView> {
    if noop {
        Seq::empty()
    } else {
        opening(script.start) + match script.ending {
            Ending::Returned { status } => closing(status, script.accepted, script.findings),
            Ending::Faulted { payload_text, backtrace, mapped } => fault_notice(
                payload_text,
                backtrace,
            ) + closing(fault_status(mapped), script.accepted, script.findings),
            Ending::Failed => abandoning(),
        }
    }
}

/// A failure event.
pub open spec fn is_failure(told: TelemetryView) -> bool {
    told is Failure
}

/// A failure event of the kind `kind`.
pub open spec fn is_failure_of(told: TelemetryView, kind: FailureKind) -> bool {
    told matches TelemetryView::Failure(event) && event.kind == kind
}

/// The record of the span's final status.
pub open spec fn is_status(told: TelemetryView) -> bool {
    told matches TelemetryView::Recorded(record) && record is Status
}

/// The record of a status message.
pub open spec fn is_status_message(told: TelemetryView) -> bool {
    told matches TelemetryView::Recorded(record) && record is StatusMessage
}

/// `wanted` holds at the position `at` of `told`, and at no other.
pub open spec fn only_at(
    told: Seq<TelemetryView>,
    at: int,
    wanted: spec_fn(TelemetryView) -> bool,
) -> bool {
    &&& 0 <= at < told.len()
    &&& forall|i: int| 0 <= i < told.len() ==> (#[trigger] wanted(told[i]) <==> i == at)
}

/// No-op mode: no span is created and no event is emitted, however the
/// handler ends.
pub proof fn lemma_noop_is_silent(script: Script)
    ensures
        trace(true, script).len() == 0,
{
}

/// The span of a request is opened first and once, and it is closed last and
/// once: whatever is emitted or recorded lies between.
pub proof fn lemma_span_opened_and_closed_once(script: Script)
    ensures
        ({
            let told = trace(false, script);
            &&& told.len() >= 2
            &&& told[0] == TelemetryView::SpanOpened(script.start)
            &&& only_at(told, 0, |t: TelemetryView| t is SpanOpened)
            &&& only_at(told, told.len() - 1, |t: TelemetryView| t is SpanClosed)
        }),
{
}

/// Where the handler returns a response that counts as a success, the span's
/// status is recorded as `OK` after the status code, no status message is
/// recorded and no failure event is emitted.
pub proof fn lemma_success_records_ok(script: Script)
    requires
        script.ending is Returned,
        script.accepted,
    ensures
        ({
            let told = trace(false, script);
            &&& script.outcome() == OutcomeView::Success
            &&& told == opening(script.start) + success_closing(script.status())
            &&& told[1] == TelemetryView::Recorded(RecordView::StatusCode(script.status()))
            &&& told[2] == TelemetryView::Recorded(RecordView::Status(SpanStatus::Okay))
            &&& forall|i: int| 0 <= i < told.len() ==> !is_status_message(#[trigger] told[i])
            &&& forall|i: int| 0 <= i < told.len() ==> !is_failure(#[trigger] told[i])
        }),
{
}

/// Where the handler returns a response that counts as a failure, one failure
/// event is emitted, its kind is `HTTP` with the status of the response, and it
/// comes before the span is closed. The span's status is recorded as `ERROR`,
/// with the serialized payload as its status message.
pub proof fn lemma_failure_emits_one_event(script: Script)
    requires
        script.ending is Returned,
        !script.accepted,
    ensures
        ({
            let told = trace(false, script);
            let status = script.status();
            &&& told == opening(script.start) + failure_closing(status, script.findings)
            &&& only_at(told, 1, |t: TelemetryView| is_failure(t))
            &&& is_failure_of(told[1], FailureKind::Http(status))
            &&& script.outcome().event() == Some(told[1]->Failure_0)
            &&& told[3] == TelemetryView::Recorded(RecordView::Status(SpanStatus::Error))
            &&& told[4] == TelemetryView::Recorded(
                RecordView::StatusMessage(script.findings.serialized),
            )
            &&& told[5] == TelemetryView::SpanClosed
        }),
{
}

/// Where the handler raises a fault, the response that is classified has the
/// status that the panic mapper gave, or 500 without a mapper. One `PANIC`
/// event is emitted, and one final status is recorded after it, for that
/// status.
pub proof fn lemma_fault_emits_panic_then_status(script: Script)
    requires
        script.ending is Faulted,
    ensures
        ({
            let told = trace(false, script);
            let status = fault_status(script.ending->Faulted_mapped);
            let at = if script.accepted {
                3int
            } else {
                4int
            };
            &&& script.status() == status
            &&& only_at(told, 1, |t: TelemetryView| is_failure_of(t, FailureKind::Panic))
            &&& told[1] == TelemetryView::Failure(
                FailureEventView {
                    kind: FailureKind::Panic,
                    message: script.ending->Faulted_payload_text,
                    backtrace: script.ending->Faulted_backtrace,
                },
            )
            &&& only_at(told, at, |t: TelemetryView| is_status(t))
            &&& told[at] == TelemetryView::Recorded(
                RecordView::Status(script.outcome().span_status()),
            )
            &&& told[at - 1] == TelemetryView::Recorded(RecordView::StatusCode(status))
            &&& !script.accepted ==> is_failure_of(told[2], FailureKind::Http(status))
        }),
{
}

/// The fields of the span are recorded after the outcome is known: every
/// failure event comes before every record.
pub proof fn lemma_events_precede_records(noop: bool, script: Script, i: int, j: int)
    requires
        0 <= i < trace(noop, script).len(),
        0 <= j < trace(noop, script).len(),
        trace(noop, script)[i] is Failure,
        trace(noop, script)[j] is Recorded,
    ensures
        i < j,
{
}

/// The final status that is recorded is that of the outcome, and a status
/// message is recorded for an error and for nothing else.
pub proof fn lemma_status_follows_outcome(script: Script, i: int)
    requires
        script.answered(),
        0 <= i < trace(false, script).len(),
    ensures
        ({
            let told = trace(false, script)[i];
            &&& is_status(told) ==> told == TelemetryView::Recorded(
                RecordView::Status(script.outcome().span_status()),
            )
            &&& is_status_message(told) ==> script.outcome().span_status() == SpanStatus::Error
        }),
{
}

} // verus!
