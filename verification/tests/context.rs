use axum_insights::context::RequestContext;
use std::collections::HashMap;

fn context(forwarded_for: Option<&str>, route: Option<&str>) -> RequestContext {
    RequestContext::new(
        String::from("GET"),
        String::from("/orders/17?full=1"),
        forwarded_for,
        route.map(String::from),
        HashMap::new(),
    )
}

#[test]
fn context_keeps_method_and_url() {
    let context = context(None, None);
    assert_eq!(context.method, "GET");
    assert_eq!(context.url, "/orders/17?full=1");
    assert!(context.extra_fields.is_empty());
}

#[test]
fn client_address_is_the_first_forwarded_entry() {
    let context = context(Some("203.0.113.7, 10.0.0.1"), None);
    assert_eq!(context.client_address, "203.0.113.7");
}

#[test]
fn client_address_without_header_is_unknown() {
    let context = context(None, None);
    assert_eq!(context.client_address, "unknown");
}

#[test]
fn client_address_of_an_empty_header_is_empty() {
    let context = context(Some(""), None);
    assert_eq!(context.client_address, "");
}

#[test]
fn route_is_the_matched_template() {
    let context = context(None, Some("/orders/:id"));
    assert_eq!(context.route, "/orders/:id");
}

#[test]
fn route_without_match_is_unknown() {
    let context = context(None, None);
    assert_eq!(context.route, "unknown");
}

#[test]
fn span_start_takes_the_fields_of_the_context() {
    let context = context(Some("203.0.113.7"), Some("/orders/:id"));
    let start = context.span_start(String::from("{\"a\":\"b\"}"));
    assert_eq!(start.name, "request");
    assert_eq!(start.kind, "server");
    assert_eq!(start.method, "GET");
    assert_eq!(start.url, "/orders/17?full=1");
    assert_eq!(start.client_address, "203.0.113.7");
    assert_eq!(start.route, "/orders/:id");
    assert_eq!(start.extra_fields, "{\"a\":\"b\"}");
}

#[test]
fn open_span_without_extra_fields_has_an_empty_object() {
    let start = context(None, None).open_span();
    assert_eq!(start.extra_fields, "{}");
    assert_eq!(start.name, "request");
    assert_eq!(start.kind, "server");
}

#[test]
fn open_span_writes_the_extra_fields_as_indented_json() {
    let mut fields = HashMap::new();
    fields.insert("extra_field".to_owned(), "extra_value".to_owned());
    let context = RequestContext::new(
        String::from("GET"),
        String::from("/succeed1"),
        None,
        None,
        fields,
    );
    let start = context.open_span();
    assert_eq!(start.extra_fields, "{\n  \"extra_field\": \"extra_value\"\n}");
    assert_eq!(start.method, "GET");
    assert_eq!(start.url, "/succeed1");
}

#[test]
fn open_span_escapes_what_json_escapes() {
    let mut fields = HashMap::new();
    fields.insert("quote".to_owned(), "say \"hi\"\n".to_owned());
    let context =
        RequestContext::new(String::from("GET"), String::from("/"), None, None, fields);
    let start = context.open_span();
    assert_eq!(start.extra_fields, "{\n  \"quote\": \"say \\\"hi\\\"\\n\"\n}");
}

#[test]
fn open_span_puts_braces_around_the_extra_fields() {
    for count in 0..4 {
        let fields: HashMap<String, String> =
            (0..count).map(|i| (format!("k{}", i), format!("v{}", i))).collect();
        let context =
            RequestContext::new(String::from("GET"), String::from("/"), None, None, fields);
        let start = context.open_span();
        assert!(start.extra_fields.starts_with('{'));
        assert!(start.extra_fields.ends_with('}'));
        assert_eq!(start.extra_fields == "{}", count == 0);
    }
}

#[test]
fn open_span_holds_every_extra_field() {
    let mut fields = HashMap::new();
    fields.insert("tenant".to_owned(), "north".to_owned());
    fields.insert("plan".to_owned(), "free".to_owned());
    let context =
        RequestContext::new(String::from("GET"), String::from("/"), None, None, fields.clone());
    let start = context.open_span();
    let read: HashMap<String, String> = serde_json::from_str(&start.extra_fields).unwrap();
    assert_eq!(read, fields);
}
