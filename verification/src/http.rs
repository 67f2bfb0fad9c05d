//! Requests and responses as plain values, and the two services that an
//! outside crate renders: the check of a request target and the quoting of a
//! string for a JSON body.

use crate::text::{decimal, digit_char, is_digit, lemma_decimal_digits};
use vstd::prelude::*;

verus! {

/// The request methods that the components are addressed with.
#[derive(Clone, Copy, Debug, PartialEq, Eq, Structural, Hash)]
pub enum Method {
    Get,
    Post,
    Delete,
}

/// Why a request could not be made, or what became of it.
#[derive(Clone, Copy, Debug, PartialEq, Eq, Structural, Hash)]
pub enum RequestError {
    /// The name that the request is about does not give a valid target.
    InvalidTarget,
    /// The component answered with a status outside the success range.
    Status(u16),
}

/// A request to one of the components' HTTP interfaces.
#[derive(Clone, Debug, PartialEq, Eq)]
pub struct HttpRequest {
    pub method: Method,
    /// Path and query, relative to the component's own base.
    pub path: String,
    pub content_type: Option<String>,
    pub body: Option<String>,
}

pub struct HttpRequestView {
    pub method: Method,
    pub path: Seq<char>,
    pub content_type: Option<Seq<char>>,
    pub body: Option<Seq<char>>,
}

impl View for HttpRequest {
    type V = HttpRequestView;

    open spec fn view(&self) -> HttpRequestView {
        HttpRequestView {
            method: self.method,
            path: self.path@,
            content_type: match self.content_type {
                Some(t) => Some(t@),
                None => None,
            },
            body: match self.body {
                Some(b) => Some(b@),
                None => None,
            },
        }
    }
}

/// A component's answer to a request.
#[derive(Clone, Debug, PartialEq, Eq)]
pub struct HttpResponse {
    pub status: u16,
    pub body: Vec<u8>,
}

/// A request without a body.
pub open spec fn bare_request(method: Method, path: Seq<char>) -> HttpRequestView {
    HttpRequestView { method, path, content_type: None, body: None }
}

/// A `POST` request that carries a JSON document.
pub open spec fn json_request(path: Seq<char>, body: Seq<char>) -> HttpRequestView {
    HttpRequestView {
        method: Method::Post,
        path,
        content_type: Some("application/json"@),
        body: Some(body),
    }
}

/// Makes a request without a body.
pub fn bare(method: Method, path: String) -> (request: HttpRequest)
    ensures
        request@ == bare_request(method, path@),
{
    HttpRequest { method, path, content_type: None, body: None }
}

/// Makes a `POST` request that carries the JSON document `body`.
pub fn post_json(path: String, body: String) -> (request: HttpRequest)
    ensures
        request@ == json_request(path@, body@),
{
    HttpRequest {
        method: Method::Post,
        path,
        content_type: Some(String::from_str("application/json")),
        body: Some(body),
    }
}

/// A status in the success range, 200 to 299.
pub open spec fn is_success(status: u16) -> bool {
    200 <= status < 300
}

/// The body of an answer, where the component reports success. Any other
/// status is a failed request, whatever the body holds.
pub fn response_body(response: HttpResponse) -> (body: Result<Vec<u8>, RequestError>)
    ensures
        match body {
            Ok(b) => is_success(response.status) && b == response.body,
            Err(e) => !is_success(response.status) && e == RequestError::Status(response.status),
        },
{
    if 200 <= response.status && response.status < 300 {
        Ok(response.body)
    } else {
        Err(RequestError::Status(response.status))
    }
}

/// Whether `hyper::Uri` accepts `target` as a request target.
pub uninterp spec fn uri_accepts(target: Seq<char>) -> bool;

/// Parses `target` with `hyper::Uri`'s `FromStr` and tells whether the
/// parser accepted it. Nothing is stated of which targets that is: the
/// result is `uri_accepts` of the same characters.
#[verifier::external_body]
fn parses_as_uri(target: &str) -> (accepted: bool)
    ensures
        accepted == uri_accepts(target@),
{
    target.parse::<hyper::Uri>().is_ok()
}

/// The request, if its target was accepted.
pub fn accept_request(accepted: bool, request: HttpRequest) -> (checked: Result<
    HttpRequest,
    RequestError,
>)
    ensures
        accepted ==> checked == Ok::<HttpRequest, RequestError>(request),
        !accepted ==> checked == Err::<HttpRequest, RequestError>(RequestError::InvalidTarget),
{
    if accepted {
        Ok(request)
    } else {
        Err(RequestError::InvalidTarget)
    }
}

/// Hands the request on if its path is a valid request target.
pub fn validated(request: HttpRequest) -> (checked: Result<HttpRequest, RequestError>)
    ensures
        uri_accepts(request.path@) ==> checked == Ok::<HttpRequest, RequestError>(request),
        !uri_accepts(request.path@) ==> checked == Err::<HttpRequest, RequestError>(
            RequestError::InvalidTarget,
        ),
{
    let accepted = parses_as_uri(request.path.as_str());
    accept_request(accepted, request)
}

/// The character that stands for the hexadecimal digit `d`, in lower case.
pub open spec fn hex_char(d: nat) -> char {
    if d < 10 {
        digit_char(d)
    } else if d == 10 {
        'a'
    } else if d == 11 {
        'b'
    } else if d == 12 {
        'c'
    } else if d == 13 {
        'd'
    } else if d == 14 {
        'e'
    } else {
        'f'
    }
}

/// A character that a JSON string holds as it is.
pub open spec fn json_plain(c: char) -> bool {
    c != '"' && c != '\\' && (c as u32) >= 0x20
}

/// How a JSON string holds the character `c`: quote and backslash behind a
/// backslash, the control characters below U+0020 by their short escape
/// where there is one and as `\u00XX` otherwise, every other character as
/// it is.
pub open spec fn json_escape(c: char) -> Seq<char> {
    if c == '"' {
        seq!['\\', '"']
    } else if c == '\\' {
        seq!['\\', '\\']
    } else if c == '\u{8}' {
        seq!['\\', 'b']
    } else if c == '\t' {
        seq!['\\', 't']
    } else if c == '\n' {
        seq!['\\', 'n']
    } else if c == '\u{c}' {
        seq!['\\', 'f']
    } else if c == '\r' {
        seq!['\\', 'r']
    } else if (c as u32) < 0x20 {
        seq!['\\', 'u', '0', '0', hex_char((c as u32 / 16) as nat), hex_char((c as u32 % 16) as nat)]
    } else {
        seq![c]
    }
}

/// The characters of `text`, each as a JSON string holds it.
pub open spec fn json_escaped(text: Seq<char>) -> Seq<char>
    decreases text.len(),
{
    if text.len() == 0 {
        Seq::empty()
    } else {
        json_escaped(text.drop_last()) + json_escape(text.last())
    }
}

/// `text` as a JSON string: between double quotes, each character escaped
/// where JSON asks for it.
pub open spec fn json_quoted(text: Seq<char>) -> Seq<char> {
    seq!['"'] + json_escaped(text) + seq!['"']
}

/// Text without quote, backslash or control character is its own escaped
/// form.
pub proof fn lemma_plain_text(text: Seq<char>)
    requires
        forall|i: int| 0 <= i < text.len() ==> json_plain(#[trigger] text[i]),
    ensures
        json_escaped(text) == text,
    decreases text.len(),
{
    if text.len() > 0 {
        let front = text.drop_last();
        assert forall|i: int| 0 <= i < front.len() implies json_plain(#[trigger] front[i]) by {
            assert(front[i] == text[i]);
        }
        lemma_plain_text(front);
        assert(json_plain(text[text.len() - 1]));
        assert(json_escape(text.last()) == seq![text.last()]);
        assert(front + seq![text.last()] =~= text);
    }
}

/// A number in base ten is its own escaped form.
pub proof fn lemma_decimal_plain(n: nat)
    ensures
        json_escaped(decimal(n)) == decimal(n),
{
    lemma_decimal_digits(n);
    assert forall|i: int| 0 <= i < decimal(n).len() implies json_plain(#[trigger] decimal(n)[i]) by {
        assert(is_digit(decimal(n)[i]));
    }
    lemma_plain_text(decimal(n));
}

/// Serializes `text` with `serde_json::to_string`. For a string slice the
/// serializer only writes into a buffer in memory, so it always succeeds;
/// what it writes is the JSON string for `text` as `json_quoted` has it.
#[verifier::external_body]
fn json_string(text: &str) -> (quoted: Option<String>)
    ensures
        quoted is Some,
        quoted->0@ == json_quoted(text@),
{
    serde_json::to_string(text).ok()
}

/// Appends `text` as a JSON string to `out`.
pub fn push_json_string(out: &mut String, text: &str)
    ensures
        final(out)@ == old(out)@ + json_quoted(text@),
{
    match json_string(text) {
        Some(quoted) => {
            out.append(quoted.as_str());
        },
        None => {},
    }
}

} // verus!
