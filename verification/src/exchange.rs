//! One request as it passes the middleware, step by step.
//!
//! The middleware itself waits: for the handler, and for the body of a failure
//! response. Between the waits it decides, and the steps here are those
//! decisions. Each state is a type of its own with the steps that may follow
//! it, so that a caller cannot record a status before the response is
//! classified, or classify twice. A step hands back what the span sink is to be
//! told now; told in that order, the whole is `trace` of the request.

use crate::fault::{fault_body, fault_reply, fault_status, map_fault, mapped_by, FaultReply};
use crate::outcome::{classification, default_success, is_success, Outcome, OutcomeView};
use crate::payload::{examine, examined, AppInsightsError, Findings, FindingsView};
use crate::telemetry::{FailureEvent, Record, SpanStart, SpanStatus, Telemetry};
use crate::trace::{abandoning, failure_closing, fault_notice, opening, success_closing};
use vstd::prelude::*;
use vstd::slice::slice_to_vec;

verus! {

/// What a middleware is set up with, as far as the steps of a request read it.
#[derive(Clone, Copy, Debug, PartialEq, Eq, Structural)]
pub struct Instrumentation {
    pub noop: bool,
}

/// How a request enters the middleware.
pub enum Entry {
    /// No-op mode: the request goes to the handler and the handler's result
    /// to the caller, both as they are, and the span sink is told nothing.
    Bypass,
    /// The request is instrumented.
    Observe(Arrival),
}

/// A request that is to be instrumented and has no span yet.
pub struct Arrival {
    sealed: (),
}

/// A request whose span is open and whose handler runs.
pub struct Running {
    sealed: (),
}

/// A request whose handler raised a fault, with the response that stands for
/// the fault.
pub struct Recovered {
    reply: FaultReply,
}

/// A request with a response that is not yet classified.
pub struct Answered<R> {
    status: u16,
    response: R,
}

/// A request whose response was rejected by the success predicate, and whose
/// body is to be read.
pub struct Inspection {
    status: u16,
}

/// A response after the success predicate was asked.
pub enum Judged<R> {
    /// A success. The response is the one that was classified, untouched, and
    /// the request is over.
    Accepted { response: R, outcome: Outcome, told: Vec<Telemetry> },
    /// A failure. Nothing is told yet: the body of the response is read first.
    Rejected { response: R, inspection: Inspection },
}

/// A request that ended in a failure response. `head` and `body` are what the
/// response is put together from again.
pub struct Concluded<H> {
    pub head: H,
    pub body: Vec<u8>,
    pub outcome: Outcome,
    pub told: Vec<Telemetry>,
}

impl Instrumentation {
    pub fn new(noop: bool) -> (set: Instrumentation)
        ensures
            set.noop == noop,
    {
        Instrumentation { noop }
    }

    /// Takes a request in. In no-op mode nothing is looked at.
    pub fn enter(&self) -> (entry: Entry)
        ensures
            self.noop <==> entry is Bypass,
    {
        if self.noop {
            Entry::Bypass
        } else {
            Entry::Observe(Arrival { sealed: () })
        }
    }
}

impl Arrival {
    /// Opens the span of the request, before the handler is called.
    pub fn open(self, start: SpanStart) -> (step: (Running, Vec<Telemetry>))
        ensures
            step.1.deep_view() == opening(start@),
    {
        let mut told: Vec<Telemetry> = Vec::new();
        told.push(Telemetry::SpanOpened(start));
        assert(told.deep_view() =~= opening(start@));
        (Running { sealed: () }, told)
    }
}

/// What `faulted` makes of a fault with the payload `payload_text`, where
/// `mapped` is what the panic mapper made of it.
pub open spec fn faulted_as(
    payload_text: Seq<char>,
    backtrace: Seq<char>,
    mapped: Option<(u16, String)>,
    step: (Recovered, Vec<Telemetry>),
) -> bool {
    &&& step.0.reply().status == fault_status(mapped.deep_view())
    &&& step.0.reply().body@ == fault_body(payload_text, mapped.deep_view())
    &&& mapped matches Some(made) ==> step.0.reply().body == made.1
    &&& step.0.reply().content_type@ == "application/json"@
    &&& step.1.deep_view() == fault_notice(payload_text, backtrace)
}

impl Running {
    /// The handler returned `response`, whose status is `status`.
    pub fn returned<R>(self, response: R, status: u16) -> (answered: Answered<R>)
        ensures
            answered.status() == status,
            answered.response() == response,
    {
        Answered { status, response }
    }

    /// The handler raised a fault with the payload `payload_text`. The fault
    /// goes no further: a response stands for it, and a `PANIC` event is
    /// emitted. `mapped` is what the panic mapper made of the payload, its
    /// status and the body that it serialized; without a mapper the status is
    /// 500 and the body the default one.
    pub fn faulted(
        self,
        payload_text: String,
        backtrace: String,
        mapped: Option<(u16, String)>,
    ) -> (step: (Recovered, Vec<Telemetry>))
        ensures
            faulted_as(payload_text@, backtrace@, mapped, step),
    {
        let reply = fault_reply(payload_text.as_str(), mapped);
        let mut told: Vec<Telemetry> = Vec::new();
        told.push(Telemetry::Failure(FailureEvent::panic(payload_text, backtrace)));
        assert(told.deep_view() =~= fault_notice(payload_text@, backtrace@));
        (Recovered { reply }, told)
    }

    /// The handler raised a fault with the payload `payload_text`, and the
    /// panic mapper, where one is configured, says what the response is. The
    /// mapper is handed `payload_text`, and `encode` what the mapper returns.
    pub fn faulted_with<P, M, S>(
        self,
        payload_text: String,
        backtrace: String,
        mapper: Option<M>,
        encode: S,
    ) -> (step: (Recovered, Vec<Telemetry>)) where M: Fn(String) -> (u16, P), S: Fn(&P) -> String
        requires
            mapper matches Some(mapper) ==> forall|text: String| call_requires(mapper, (text,)),
            forall|payload: &P| call_requires(encode, (payload,)),
        ensures
            exists|mapped: Option<(u16, String)>|
                {
                    &&& #[trigger] mapped_by::<P, M, S>(payload_text@, mapper, encode, mapped)
                    &&& faulted_as(payload_text@, backtrace@, mapped, step)
                },
    {
        let mapped = map_fault(payload_text.as_str(), mapper, encode);
        let ghost made = mapped;
        let step = self.faulted(payload_text, backtrace, mapped);
        assert(mapped_by::<P, M, S>(payload_text@, mapper, encode, made));
        step
    }

    /// The handler returned its own error. It goes to the caller as it is, and
    /// the span is closed with nothing recorded.
    pub fn failed(self) -> (told: Vec<Telemetry>)
        ensures
            told.deep_view() == abandoning(),
    {
        let mut told: Vec<Telemetry> = Vec::new();
        told.push(Telemetry::SpanClosed);
        assert(told.deep_view() =~= abandoning());
        told
    }
}

impl Recovered {
    pub closed spec fn reply(self) -> FaultReply {
        self.reply
    }

    /// The response that stands for the fault: its status, its content type
    /// and its body.
    pub fn fault_reply(&self) -> (reply: &FaultReply)
        ensures
            *reply == self.reply(),
    {
        &self.reply
    }

    /// Goes on with `response`, the response that the caller built from the
    /// fault's reply, as if the handler had returned it.
    pub fn resume<R>(self, response: R) -> (answered: Answered<R>)
        ensures
            answered.status() == self.reply().status,
            answered.response() == response,
    {
        Answered { status: self.reply.status, response }
    }
}

/// What `judge` decides of a response with `status` that is `accepted` or not.
pub open spec fn judged_as<R>(status: u16, response: R, accepted: bool, judged: Judged<R>) -> bool {
    if accepted {
        &&& judged matches Judged::Accepted { response: returned, outcome, told }
        &&& returned == response
        &&& outcome@ == OutcomeView::Success
        &&& told.deep_view() == success_closing(status)
    } else {
        &&& judged matches Judged::Rejected { response: returned, inspection }
        &&& returned == response
        &&& inspection.status() == status
    }
}

impl<R> Answered<R> {
    pub closed spec fn status(self) -> u16 {
        self.status
    }

    pub closed spec fn response(self) -> R {
        self.response
    }

    /// The status of the response, for the success predicate.
    pub fn response_status(&self) -> (status: u16)
        ensures
            status == self.status(),
    {
        self.status
    }

    /// Classifies the response, where `accepted` is what the success predicate
    /// says of its status. A success is returned as it is and the span gets its
    /// status code and the status `OK`. A failure waits for its body.
    pub fn judge(self, accepted: bool) -> (judged: Judged<R>)
        ensures
            judged_as(self.status(), self.response(), accepted, judged),
    {
        if accepted {
            let mut told: Vec<Telemetry> = Vec::new();
            told.push(Telemetry::Recorded(Record::StatusCode(self.status)));
            told.push(Telemetry::Recorded(Record::Status(SpanStatus::Okay)));
            told.push(Telemetry::SpanClosed);
            assert(told.deep_view() =~= success_closing(self.status));
            Judged::Accepted { response: self.response, outcome: Outcome::Success, told }
        } else {
            Judged::Rejected {
                response: self.response,
                inspection: Inspection { status: self.status },
            }
        }
    }

    /// Classifies the response by the configured filter, or by the default
    /// predicate where there is none. The filter is handed the status of the
    /// response.
    pub fn judge_by<F>(self, filter: Option<F>) -> (judged: Judged<R>) where F: Fn(u16) -> bool
        requires
            filter matches Some(filter) ==> call_requires(filter, (self.status(),)),
        ensures
            judged_as(self.status(), self.response(), judged is Accepted, judged),
            match filter {
                Some(filter) => call_ensures(filter, (self.status(),), judged is Accepted),
                None => (judged is Accepted) == default_success(self.status()),
            },
    {
        let accepted = is_success(filter, self.status);
        self.judge(accepted)
    }
}

/// What `conclude` makes of a failure response with `status`, put together
/// again from `head` and `body`, whose body holds `findings`.
pub open spec fn concluded_as<H>(
    status: u16,
    head: H,
    body: Seq<u8>,
    findings: FindingsView,
    concluded: Concluded<H>,
) -> bool {
    &&& concluded.head == head
    &&& concluded.body@ == body
    &&& concluded.outcome@ == classification(status, false, findings.message, findings.backtrace)
    &&& concluded.told.deep_view() == failure_closing(status, findings)
}

impl Inspection {
    pub closed spec fn status(self) -> u16 {
        self.status
    }

    /// The status of the failure response.
    pub fn response_status(&self) -> (status: u16)
        ensures
            status == self.status(),
    {
        self.status
    }

    /// Ends the request, where `findings` is what the body of the response
    /// holds. The failure event is emitted, then the span gets its status code,
    /// the status `ERROR` and the serialized payload as its status message. The
    /// response is put together again from `head` and the bytes of `body`,
    /// which are those that were read.
    pub fn conclude<H>(self, head: H, body: Vec<u8>, findings: Findings) -> (concluded: Concluded<H>)
        ensures
            concluded_as(self.status(), head, body@, findings@, concluded),
    {
        let status = self.status;
        let outcome = Outcome::failure(status, findings.message, findings.backtrace);
        let event = outcome.event();
        let mut told: Vec<Telemetry> = Vec::new();
        match event {
            Some(event) => {
                told.push(Telemetry::Failure(event));
            },
            None => {},
        }
        told.push(Telemetry::Recorded(Record::StatusCode(status)));
        told.push(Telemetry::Recorded(Record::Status(outcome.span_status())));
        told.push(Telemetry::Recorded(Record::StatusMessage(findings.serialized)));
        told.push(Telemetry::SpanClosed);
        assert(told.deep_view() =~= failure_closing(status, findings@));
        Concluded { head, body, outcome, told }
    }

    /// Reads the body of the failure response and ends the request. `decode`
    /// is handed `body`; where it gives no payload, the default payload stands
    /// in. `encode` is handed the payload that was read.
    pub fn inspect<H, E, D, S>(self, head: H, body: &[u8], decode: D, encode: S) -> (concluded:
        Concluded<H>) where
        E: AppInsightsError + Default,
        D: Fn(&[u8]) -> Option<E>,
        S: Fn(&E) -> String,

        requires
            call_requires(decode, (body,)),
            forall|payload: &E| call_requires(encode, (payload,)),
        ensures
            exists|findings: Findings|
                {
                    &&& #[trigger] examined::<E, D, S>(body, decode, encode, findings)
                    &&& concluded_as(self.status(), head, body@, findings@, concluded)
                },
    {
        let findings = examine(body, decode, encode);
        let ghost found = findings;
        let concluded = self.conclude(head, slice_to_vec(body), findings);
        assert(examined::<E, D, S>(body, decode, encode, found));
        concluded
    }
}

/// Classifying a response again gives the same outcome. `accepts` is the
/// success predicate and `reads` what decoding a body finds. A response that
/// was accepted is returned as it is, and it is accepted again.
pub proof fn lemma_reclassifying_success<R>(
    accepts: spec_fn(u16) -> bool,
    reads: spec_fn(Seq<u8>) -> FindingsView,
    status: u16,
    response: R,
    body: Seq<u8>,
    judged: Judged<R>,
)
    requires
        accepts(status),
        judged_as(status, response, accepts(status), judged),
    ensures
        judged matches Judged::Accepted { response: returned, outcome, .. } && returned == response
            && outcome@ == classification(
            status,
            accepts(status),
            reads(body).message,
            reads(body).backtrace,
        ),
{
}

/// Classifying a response again gives the same outcome. `accepts` is the
/// success predicate and `reads` what decoding a body finds. A response that
/// was rejected is returned with its status and with the bytes that were read
/// from it, so that reading them again finds the failure that was recorded.
pub proof fn lemma_reclassifying_failure<H>(
    accepts: spec_fn(u16) -> bool,
    reads: spec_fn(Seq<u8>) -> FindingsView,
    status: u16,
    head: H,
    body: Seq<u8>,
    concluded: Concluded<H>,
)
    requires
        !accepts(status),
        concluded_as(status, head, body, reads(body), concluded),
    ensures
        concluded.outcome@ == classification(
            status,
            accepts(status),
            reads(concluded.body@).message,
            reads(concluded.body@).backtrace,
        ),
{
}

} // verus!
