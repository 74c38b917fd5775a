//! The request as the telemetry sees it: a snapshot that is taken once, before
//! the span is opened, and never changed.

use crate::telemetry::SpanStart;
use crate::text::{first_token, leading_token, view_of};
use std::collections::HashMap;
use vstd::prelude::*;
use vstd::string::*;

verus! {

/// The address of the client, from the header that lists the addresses a
/// request was forwarded for: the first entry of the list, or `unknown` where
/// the request has no such header.
pub open spec fn client_address_of(forwarded_for: Option<Seq<char>>) -> Seq<char> {
    match forwarded_for {
        Some(list) => first_token(list),
        None => "unknown"@,
    }
}

/// The route template that the router matched, or `unknown` where it matched
/// none.
pub open spec fn route_of(matched_route: Option<String>) -> Seq<char> {
    match matched_route {
        Some(route) => route@,
        None => "unknown"@,
    }
}

/// What is known of a request before its handler runs.
#[derive(Clone, Debug, PartialEq, Eq)]
pub struct RequestContext {
    pub method: String,
    pub url: String,
    pub client_address: String,
    pub route: String,
    pub extra_fields: HashMap<String, String>,
}

impl RequestContext {
    /// Takes the snapshot. `forwarded_for` is the text of the forwarded-address
    /// header, `matched_route` the route template that the router resolved, and
    /// `extra_fields` what the field mapper made of the request.
    pub fn new(
        method: String,
        url: String,
        forwarded_for: Option<&str>,
        matched_route: Option<String>,
        extra_fields: HashMap<String, String>,
    ) -> (context: RequestContext)
        ensures
            context.method == method,
            context.url == url,
            context.client_address@ == client_address_of(view_of(forwarded_for)),
            context.route@ == route_of(matched_route),
            context.extra_fields == extra_fields,
    {
        let client_address = match forwarded_for {
            Some(list) => leading_token(list).to_owned(),
            None => String::from_str("unknown"),
        };
        let route = match matched_route {
            Some(route) => route,
            None => String::from_str("unknown"),
        };
        RequestContext { method, url, client_address, route, extra_fields }
    }

    /// The fields that the span of this request is opened with. `extra_fields`
    /// is the serialized form of the extra fields.
    pub fn span_start(&self, extra_fields: String) -> (start: SpanStart)
        ensures
            start.name@ == "request"@,
            start.kind@ == "server"@,
            start.method == self.method,
            start.url == self.url,
            start.client_address == self.client_address,
            start.route == self.route,
            start.extra_fields == extra_fields,
    {
        SpanStart {
            name: String::from_str("request"),
            kind: String::from_str("server"),
            method: self.method.clone(),
            url: self.url.clone(),
            client_address: self.client_address.clone(),
            route: self.route.clone(),
            extra_fields,
        }
    }

    /// The fields that the span of this request is opened with, the extra
    /// fields serialized as one JSON object. Without extra fields that object
    /// is `{}`; with several, their order is that in which the map hands them
    /// out, so that of their text only the braces around it are stated.
    pub fn open_span(&self) -> (start: SpanStart)
        ensures
            start.name@ == "request"@,
            start.kind@ == "server"@,
            start.method == self.method,
            start.url == self.url,
            start.client_address == self.client_address,
            start.route == self.route,
            is_json_object(start.extra_fields@),
            self.extra_fields@.len() == 0 <==> start.extra_fields@ == "{}"@,
    {
        let extra_fields = pretty_json(&self.extra_fields);
        self.span_start(extra_fields)
    }
}

/// A text that opens with a brace and closes with one, as a JSON object does.
pub open spec fn is_json_object(text: Seq<char>) -> bool {
    &&& text.len() >= 2
    &&& text.first() == '{'
    &&& text.last() == '}'
}

/// `serde_json::to_string_pretty` on a map from text to text. It writes one
/// JSON object, indented by two blanks: an opening brace, the entries in the
/// order in which the map hands them out, each on a line of its own, and a
/// closing brace. That order differs from one process to the next, so the text
/// between the braces is stated for the empty map only, where there is none.
/// The call fails on keys that are no strings and where an entry refuses to be
/// written; a map from text to text has neither.
#[verifier::external_body]
fn pretty_json(fields: &HashMap<String, String>) -> (text: String)
    ensures
        is_json_object(text@),
        fields@.len() == 0 <==> text@ == "{}"@,
{
    match serde_json::to_string_pretty(fields) {
        Ok(text) => text,
        Err(_) => String::new(),
    }
}

} // verus!
