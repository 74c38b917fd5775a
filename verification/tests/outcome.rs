use axum_insights::outcome::{is_default_success, is_success, Outcome};
use axum_insights::payload::{examine, AppInsightsError, Findings};
use axum_insights::telemetry::{FailureKind, SpanStatus};

#[derive(Clone, Debug, Default, PartialEq)]
struct WebError {
    status: u16,
    message: String,
}

impl AppInsightsError for WebError {
    fn message(&self) -> Option<String> {
        Some(self.message.clone())
    }

    fn backtrace(&self) -> Option<String> {
        None
    }
}

fn decode(body: &[u8]) -> Option<WebError> {
    let value: serde_json::Value = serde_json::from_slice(body).ok()?;
    let status = u16::try_from(value.get("status")?.as_u64()?).ok()?;
    let message = value.get("message")?.as_str()?.to_owned();
    Some(WebError { status, message })
}

fn encode(error: &WebError) -> String {
    format!("{{\n  \"status\": {},\n  \"message\": {:?}\n}}", error.status, error.message)
}

#[test]
fn default_predicate_accepts_from_100_to_399() {
    assert!(!is_default_success(0));
    assert!(!is_default_success(99));
    assert!(is_default_success(100));
    assert!(is_default_success(199));
    assert!(is_default_success(200));
    assert!(is_default_success(304));
    assert!(is_default_success(399));
    assert!(!is_default_success(400));
    assert!(!is_default_success(404));
    assert!(!is_default_success(429));
    assert!(!is_default_success(500));
    assert!(!is_default_success(999));
    assert!(!is_default_success(u16::MAX));
}

#[test]
fn without_filter_the_default_predicate_decides() {
    assert!(is_success::<fn(u16) -> bool>(None, 200));
    assert!(is_success::<fn(u16) -> bool>(None, 304));
    assert!(!is_success::<fn(u16) -> bool>(None, 404));
    assert!(!is_success::<fn(u16) -> bool>(None, 500));
}

#[test]
fn a_filter_decides_alone() {
    let lenient = |status: u16| (100..400).contains(&status) || status == 404;
    assert!(is_success(Some(lenient), 404));
    assert!(is_success(Some(lenient), 200));
    assert!(!is_success(Some(lenient), 429));

    let strict = |status: u16| status == 204;
    assert!(!is_success(Some(strict), 200));
    assert!(is_success(Some(strict), 204));
}

#[test]
fn a_filter_is_handed_the_status() {
    let seen = std::cell::Cell::new(0u16);
    let filter = |status: u16| {
        seen.set(status);
        true
    };
    assert!(is_success(Some(&filter), 418));
    assert_eq!(seen.get(), 418);
}

#[test]
fn failure_outcome_fills_absent_fields_with_empty_text() {
    let outcome = Outcome::failure(500, None, None);
    assert_eq!(
        outcome,
        Outcome::Failure { status: 500, message: String::new(), backtrace: String::new() }
    );
}

#[test]
fn failure_outcome_keeps_what_the_payload_gives() {
    let outcome = Outcome::failure(429, Some(String::from("foo")), Some(String::from("bt")));
    assert_eq!(
        outcome,
        Outcome::Failure { status: 429, message: String::from("foo"), backtrace: String::from("bt") }
    );
}

#[test]
fn span_status_follows_the_outcome() {
    assert_eq!(Outcome::Success.span_status(), SpanStatus::Okay);
    assert_eq!(Outcome::failure(500, None, None).span_status(), SpanStatus::Error);
}

#[test]
fn only_a_failure_has_an_event() {
    assert_eq!(Outcome::Success.event(), None);
    let event = Outcome::failure(429, Some(String::from("foo")), None).event().unwrap();
    assert_eq!(event.kind, FailureKind::Http(429));
    assert_eq!(event.kind.to_text(), "HTTP 429");
    assert_eq!(event.message, "foo");
    assert_eq!(event.backtrace, "");
}

#[test]
fn unit_payload_has_neither_message_nor_backtrace() {
    assert_eq!(().message(), None);
    assert_eq!(().backtrace(), None);
}

#[test]
fn examine_reads_the_payload_of_the_body() {
    let found = examine(b"{\"status\":429,\"message\":\"foo\"}", decode, encode);
    assert_eq!(
        found,
        Findings {
            message: Some(String::from("foo")),
            backtrace: None,
            serialized: String::from("{\n  \"status\": 429,\n  \"message\": \"foo\"\n}"),
        }
    );
}

#[test]
fn examine_falls_back_to_the_default_payload() {
    for body in [&b""[..], &b"not json"[..], &b"{\"status\": 500,}"[..]] {
        let found = examine(body, decode, encode);
        assert_eq!(
            found,
            Findings {
                message: Some(String::new()),
                backtrace: None,
                serialized: String::from("{\n  \"status\": 0,\n  \"message\": \"\"\n}"),
            }
        );
    }
}

#[test]
fn examine_of_the_unit_payload_finds_nothing() {
    let found = examine(b"anything", |_: &[u8]| None::<()>, |_: &()| String::from("null"));
    assert_eq!(
        found,
        Findings { message: None, backtrace: None, serialized: String::from("null") }
    );
}

#[test]
fn examine_hands_the_body_to_the_decoder() {
    let seen = std::cell::RefCell::new(Vec::new());
    let found = examine(
        b"\x00\x01\xff",
        |body: &[u8]| {
            seen.borrow_mut().extend_from_slice(body);
            Some(())
        },
        |_: &()| String::new(),
    );
    assert_eq!(*seen.borrow(), vec![0u8, 1, 255]);
    assert_eq!(found.serialized, "");
}
