use axum_insights::fault::{
    default_body, fault_reply, map_fault, payload_string, render_payload, reporter, Reporter,
    DEFAULT_FAULT_STATUS,
};

const DEFAULT_BODY_OF_PANIC: &str =
    "{\"status\":500,\"message\":\"A panic occurred: Some(\\\"panic\\\").\"}";

#[test]
fn payload_of_a_plain_message_is_quoted() {
    assert_eq!(payload_string(Some("panic")), "Some(\"panic\")");
}

#[test]
fn payload_without_message_is_none() {
    assert_eq!(payload_string(None), "None");
}

#[test]
fn payload_escapes_as_debug_does() {
    assert_eq!(payload_string(Some("a \"b\"\n\\")), "Some(\"a \\\"b\\\"\\n\\\\\")");
    assert_eq!(payload_string(Some("")), "Some(\"\")");
}

#[test]
fn payload_is_what_debug_writes_for_the_option() {
    for message in ["panic", "", "tab\there", "caf\u{e9}", "'single'", "nul\0"] {
        assert_eq!(payload_string(Some(message)), format!("{:?}", Some(message)));
    }
    assert_eq!(payload_string(None), format!("{:?}", None::<&str>));
}

#[test]
fn render_payload_wraps_what_it_is_given() {
    assert_eq!(render_payload(Some("\"x\"")), "Some(\"x\")");
    assert_eq!(render_payload(Some("")), "Some()");
    assert_eq!(render_payload(None), "None");
}

#[test]
fn default_fault_status_is_500() {
    assert_eq!(DEFAULT_FAULT_STATUS, 500);
}

#[test]
fn fault_reply_without_mapper_is_the_default() {
    let reply = fault_reply("Some(\"panic\")", None);
    assert_eq!(reply.status, 500);
    assert_eq!(reply.content_type, "application/json");
    assert_eq!(reply.body, DEFAULT_BODY_OF_PANIC);
}

#[test]
fn default_fault_body_is_json() {
    for payload in ["Some(\"panic\")", "None", "Some(\"a \\\"b\\\"\\n\")", "caf\u{e9}\t\u{1}"] {
        let reply = fault_reply(payload, None);
        let read: serde_json::Value = serde_json::from_str(&reply.body).unwrap();
        let object = read.as_object().unwrap();
        assert_eq!(object.len(), 2);
        assert_eq!(object["status"].as_u64(), Some(500));
        assert_eq!(
            object["message"].as_str(),
            Some(format!("A panic occurred: {}.", payload).as_str())
        );
    }
}

#[test]
fn default_fault_body_names_the_payload() {
    let reply = fault_reply("None", None);
    assert_eq!(reply.body, "{\"status\":500,\"message\":\"A panic occurred: None.\"}");
    assert!(reply.body.contains("A panic occurred: None."));
}

#[test]
fn default_body_takes_the_message_as_it_is() {
    assert_eq!(default_body("\"x\""), "{\"status\":500,\"message\":\"x\"}");
    assert_eq!(default_body(""), "{\"status\":500,\"message\":}");
}

#[test]
fn a_fault_of_a_handler_is_left_to_the_middleware() {
    assert_eq!(reporter(0), Reporter::Hook);
    assert_eq!(reporter(1), Reporter::Middleware);
    assert_eq!(reporter(usize::MAX), Reporter::Middleware);
}

#[test]
fn fault_reply_with_mapper_takes_what_the_mapper_made() {
    let reply = fault_reply(
        "Some(\"panic\")",
        Some((503, String::from("{\"status\":503,\"message\":\"down\"}"))),
    );
    assert_eq!(reply.status, 503);
    assert_eq!(reply.content_type, "application/json");
    assert_eq!(reply.body, "{\"status\":503,\"message\":\"down\"}");
}

#[test]
fn map_fault_without_mapper_calls_nothing() {
    let mapped = map_fault::<u8, fn(String) -> (u16, u8), _>("None", None, |_: &u8| -> String {
        panic!("encode is not to be called")
    });
    assert_eq!(mapped, None);
}

#[test]
fn map_fault_hands_the_payload_to_the_mapper_and_its_result_to_encode() {
    let mapped = map_fault(
        "Some(\"panic\")",
        Some(|text: String| (418u16, (text.len(), text))),
        |made: &(usize, String)| format!("{}:{}", made.0, made.1),
    );
    assert_eq!(mapped, Some((418, String::from("13:Some(\"panic\")"))));
}
