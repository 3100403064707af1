//! Descriptions of the HTTP requests the client sends to the service.
use vstd::prelude::*;
use crate::json::{JsonNumber, JsonValue};

verus! {

/// The HTTP method of a request.
#[derive(Debug, Clone, Copy, PartialEq, Eq, Structural)]
pub enum Method {
    Get,
    Post,
}

/// The body of a request.
#[derive(Debug)]
pub enum Body {
    /// No body.
    Empty,
    /// A form, already encoded as `name=value&...`.
    Form(String),
    /// A JSON document, sent as `application/json`.
    Json(JsonValue),
}

/// A request: method, full URL, extra headers (name, value) and body.
#[derive(Debug)]
pub struct HttpRequest {
    pub method: Method,
    pub url: String,
    pub headers: Vec<(String, String)>,
    pub body: Body,
}

/// The method, URL and headers of a request, as mathematical values.
pub struct RequestModel {
    pub method: Method,
    pub url: Seq<char>,
    pub headers: Seq<(Seq<char>, Seq<char>)>,
}

impl HttpRequest {
    /// The method, URL and headers, as mathematical values.
    pub open spec fn model(&self) -> RequestModel {
        RequestModel {
            method: self.method,
            url: self.url@,
            headers: self.headers@.map_values(|h: (String, String)| (h.0@, h.1@)),
        }
    }
}

/// The body is the form `form`.
pub open spec fn form_body(body: Body, form: Seq<char>) -> bool {
    body matches Body::Form(f) && f@ == form
}

/// A member `key` whose value is the unsigned integer `n`.
pub open spec fn number_member(m: (String, JsonValue), key: Seq<char>, n: u64) -> bool {
    &&& m.0@ == key
    &&& m.1 matches JsonValue::Number(JsonNumber::PosInt(v)) && v == n
}

/// A member `key` whose value is the string `text`.
pub open spec fn text_member(m: (String, JsonValue), key: Seq<char>, text: Seq<char>) -> bool {
    &&& m.0@ == key
    &&& m.1 matches JsonValue::String(s) && s@ == text
}

/// The name of the header that gives the body's media type.
pub const CONTENT_TYPE: &'static str = "content-type";

/// The name of the header that names the page a request comes from.
pub const REFERER: &'static str = "referer";

/// The name of the header that marks a request as made by a script.
pub const REQUESTED_WITH: &'static str = "x-requested-with";

/// The media type of a form body.
pub const FORM_MEDIA_TYPE: &'static str = "application/x-www-form-urlencoded";

/// The media type of a form body with its character set named.
pub const FORM_MEDIA_TYPE_UTF8: &'static str = "application/x-www-form-urlencoded; charset=UTF-8";

/// The value of the header that marks a script request.
pub const XML_HTTP_REQUEST: &'static str = "XMLHttpRequest";

/// A JSON member holding an unsigned integer.
pub fn number_entry(key: &str, n: u64) -> (r: (String, JsonValue))
    ensures
        number_member(r, key@, n),
{
    (key.to_owned(), JsonValue::Number(JsonNumber::PosInt(n)))
}

/// A JSON member holding a string.
pub fn text_entry(key: &str, text: String) -> (r: (String, JsonValue))
    ensures
        text_member(r, key@, text@),
{
    (key.to_owned(), JsonValue::String(text))
}

/// A header, as a pair of owned strings.
pub fn header(name: &str, value: &str) -> (r: (String, String))
    ensures
        r.0@ == name@,
        r.1@ == value@,
{
    (name.to_owned(), value.to_owned())
}

} // verus!
