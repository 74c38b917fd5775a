//! What the middleware tells the span sink: a span is opened, failure events
//! are emitted, fields of the span are recorded, the span is closed.

use crate::text::{append_decimal, decimal};
use vstd::prelude::*;
use vstd::string::*;

verus! {

/// The kind of a failure event: an intercepted fault, or a response that was
/// classified as a failure, with its status code.
#[derive(Clone, Copy, Debug, PartialEq, Eq, Structural)]
pub enum FailureKind {
    Panic,
    Http(u16),
}

impl FailureKind {
    /// The text under which the sink sees the kind: `PANIC`, or `HTTP` and the
    /// status code.
    pub open spec fn label(self) -> Seq<char> {
        match self {
            FailureKind::Panic => "PANIC"@,
            FailureKind::Http(status) => "HTTP "@ + decimal(status as nat),
        }
    }

    pub fn to_text(&self) -> (text: String)
        ensures
            text@ == self.label(),
    {
        match self {
            FailureKind::Panic => String::from_str("PANIC"),
            FailureKind::Http(status) => {
                let mut text = String::from_str("HTTP ");
                append_decimal(&mut text, *status);
                text
            },
        }
    }
}

/// A structured failure event. It is emitted beside the span, so that failures
/// can be queried without the span's fields.
#[derive(Clone, Debug, PartialEq, Eq)]
pub struct FailureEvent {
    pub kind: FailureKind,
    pub message: String,
    pub backtrace: String,
}

pub struct FailureEventView {
    pub kind: FailureKind,
    pub message: Seq<char>,
    pub backtrace: Seq<char>,
}

impl View for FailureEvent {
    type V = FailureEventView;

    open spec fn view(&self) -> FailureEventView {
        FailureEventView { kind: self.kind, message: self.message@, backtrace: self.backtrace@ }
    }
}

impl DeepView for FailureEvent {
    type V = FailureEventView;

    open spec fn deep_view(&self) -> FailureEventView {
        self@
    }
}

/// The text of a field that may be absent: empty where it is.
pub open spec fn text_or_empty(text: Option<Seq<char>>) -> Seq<char> {
    match text {
        Some(text) => text,
        None => Seq::empty(),
    }
}

fn or_empty(text: Option<String>) -> (present: String)
    ensures
        present@ == text_or_empty(text.deep_view()),
{
    match text {
        Some(text) => text,
        None => String::new(),
    }
}

impl FailureEvent {
    /// The event for a fault that was intercepted: the fault's payload is the
    /// message.
    pub fn panic(message: String, backtrace: String) -> (event: FailureEvent)
        ensures
            event@ == (FailureEventView {
                kind: FailureKind::Panic,
                message: message@,
                backtrace: backtrace@,
            }),
    {
        FailureEvent { kind: FailureKind::Panic, message, backtrace }
    }

    /// The event for a response with `status` that was classified as a failure.
    /// A message or a backtrace that the payload does not give is empty, never
    /// left out.
    pub fn http(status: u16, message: Option<String>, backtrace: Option<String>) -> (event:
        FailureEvent)
        ensures
            event@ == (FailureEventView {
                kind: FailureKind::Http(status),
                message: text_or_empty(message.deep_view()),
                backtrace: text_or_empty(backtrace.deep_view()),
            }),
    {
        FailureEvent {
            kind: FailureKind::Http(status),
            message: or_empty(message),
            backtrace: or_empty(backtrace),
        }
    }
}

/// The final status of a span.
#[derive(Clone, Copy, Debug, PartialEq, Eq, Structural)]
pub enum SpanStatus {
    Okay,
    Error,
}

impl SpanStatus {
    pub open spec fn label(self) -> Seq<char> {
        match self {
            SpanStatus::Okay => "OK"@,
            SpanStatus::Error => "ERROR"@,
        }
    }

    pub fn as_str(&self) -> (text: &'static str)
        ensures
            text@ == self.label(),
    {
        match self {
            SpanStatus::Okay => "OK",
            SpanStatus::Error => "ERROR",
        }
    }
}

/// A field of the span that is filled once the response is known. The span is
/// opened with the three of them empty.
#[derive(Clone, Debug, PartialEq, Eq)]
pub enum Record {
    StatusCode(u16),
    Status(SpanStatus),
    StatusMessage(String),
}

pub enum RecordView {
    StatusCode(u16),
    Status(SpanStatus),
    StatusMessage(Seq<char>),
}

impl View for Record {
    type V = RecordView;

    open spec fn view(&self) -> RecordView {
        match self {
            Record::StatusCode(code) => RecordView::StatusCode(*code),
            Record::Status(status) => RecordView::Status(*status),
            Record::StatusMessage(message) => RecordView::StatusMessage(message@),
        }
    }
}

impl RecordView {
    /// The name of the span's field that the record fills.
    pub open spec fn name(self) -> Seq<char> {
        match self {
            RecordView::StatusCode(_) => "http.response.status_code"@,
            RecordView::Status(_) => "otel.status_code"@,
            RecordView::StatusMessage(_) => "otel.status_message"@,
        }
    }
}

impl Record {
    pub fn name(&self) -> (name: &'static str)
        ensures
            name@ == self@.name(),
    {
        match self {
            Record::StatusCode(_) => "http.response.status_code",
            Record::Status(_) => "otel.status_code",
            Record::StatusMessage(_) => "otel.status_message",
        }
    }
}

/// The fields that a span is opened with. They describe the request; the fields
/// that describe the response are reserved and left empty.
#[derive(Clone, Debug, PartialEq, Eq)]
pub struct SpanStart {
    pub name: String,
    pub kind: String,
    pub method: String,
    pub url: String,
    pub client_address: String,
    pub route: String,
    pub extra_fields: String,
}

pub struct SpanStartView {
    pub name: Seq<char>,
    pub kind: Seq<char>,
    pub method: Seq<char>,
    pub url: Seq<char>,
    pub client_address: Seq<char>,
    pub route: Seq<char>,
    pub extra_fields: Seq<char>,
}

impl View for SpanStart {
    type V = SpanStartView;

    open spec fn view(&self) -> SpanStartView {
        SpanStartView {
            name: self.name@,
            kind: self.kind@,
            method: self.method@,
            url: self.url@,
            client_address: self.client_address@,
            route: self.route@,
            extra_fields: self.extra_fields@,
        }
    }
}

/// One thing that the span sink is told.
#[derive(Clone, Debug, PartialEq, Eq)]
pub enum Telemetry {
    SpanOpened(SpanStart),
    Failure(FailureEvent),
    Recorded(Record),
    SpanClosed,
}

pub enum TelemetryView {
    SpanOpened(SpanStartView),
    Failure(FailureEventView),
    Recorded(RecordView),
    SpanClosed,
}

impl View for Telemetry {
    type V = TelemetryView;

    open spec fn view(&self) -> TelemetryView {
        match self {
            Telemetry::SpanOpened(start) => TelemetryView::SpanOpened(start@),
            Telemetry::Failure(event) => TelemetryView::Failure(event@),
            Telemetry::Recorded(record) => TelemetryView::Recorded(record@),
            Telemetry::SpanClosed => TelemetryView::SpanClosed,
        }
    }
}

impl DeepView for Telemetry {
    type V = TelemetryView;

    open spec fn deep_view(&self) -> TelemetryView {
        self@
    }
}

} // verus!
