use std::collections::HashMap;
use vstd::prelude::*;

use crate::text::same_text;

verus! {

/// The HTTP methods a request can be sent with.
#[derive(Debug, Clone, Copy, PartialEq, Eq, Structural)]
pub enum HttpMethod {
    Get,
    Post,
    Put,
    Delete,
}

/// The wire name of a method.
pub open spec fn method_name(m: HttpMethod) -> Seq<char> {
    match m {
        HttpMethod::Get => seq!['G', 'E', 'T'],
        HttpMethod::Post => seq!['P', 'O', 'S', 'T'],
        HttpMethod::Put => seq!['P', 'U', 'T'],
        HttpMethod::Delete => seq!['D', 'E', 'L', 'E', 'T', 'E'],
    }
}

/// The method whose wire name is exactly `s`, if any.
pub open spec fn method_named(s: Seq<char>) -> Option<HttpMethod> {
    if s == method_name(HttpMethod::Get) {
        Some(HttpMethod::Get)
    } else if s == method_name(HttpMethod::Post) {
        Some(HttpMethod::Post)
    } else if s == method_name(HttpMethod::Put) {
        Some(HttpMethod::Put)
    } else if s == method_name(HttpMethod::Delete) {
        Some(HttpMethod::Delete)
    } else {
        None
    }
}

impl HttpMethod {
    /// Parses a method from its exact, upper-case wire name.
    pub fn from_str(method: &str) -> (r: Option<Self>)
        ensures
            r == method_named(method@),
    {
        proof {
            reveal_strlit("GET");
            reveal_strlit("POST");
            reveal_strlit("PUT");
            reveal_strlit("DELETE");
            assert("GET"@ =~= method_name(HttpMethod::Get));
            assert("POST"@ =~= method_name(HttpMethod::Post));
            assert("PUT"@ =~= method_name(HttpMethod::Put));
            assert("DELETE"@ =~= method_name(HttpMethod::Delete));
        }
        if same_text(method, "GET") {
            Some(HttpMethod::Get)
        } else if same_text(method, "POST") {
            Some(HttpMethod::Post)
        } else if same_text(method, "PUT") {
            Some(HttpMethod::Put)
        } else if same_text(method, "DELETE") {
            Some(HttpMethod::Delete)
        } else {
            None
        }
    }

    /// The wire name of this method.
    pub fn to_string(&self) -> (r: String)
        ensures
            r@ == method_name(*self),
    {
        proof {
            reveal_strlit("GET");
            reveal_strlit("POST");
            reveal_strlit("PUT");
            reveal_strlit("DELETE");
        }
        match self {
            HttpMethod::Get => "GET".to_owned(),
            HttpMethod::Post => "POST".to_owned(),
            HttpMethod::Put => "PUT".to_owned(),
            HttpMethod::Delete => "DELETE".to_owned(),
        }
    }
}

/// What a request holds, as mathematical values.
pub struct RequestView {
    pub method: HttpMethod,
    pub url: Seq<char>,
    pub headers: Seq<(Seq<char>, Seq<char>)>,
    pub body: Option<Seq<char>>,
}

/// A request to be sent: method, URL, ordered header pairs and an optional body.
pub struct HttpRequest {
    pub method: HttpMethod,
    pub url: String,
    pub headers: Vec<(String, String)>,
    pub body: Option<String>,
}

pub open spec fn header_view(h: (String, String)) -> (Seq<char>, Seq<char>) {
    (h.0@, h.1@)
}

/// The characters of an optional string.
pub open spec fn text_view(b: Option<String>) -> Option<Seq<char>> {
    match b {
        Some(s) => Some(s@),
        None => None,
    }
}

impl View for HttpRequest {
    type V = RequestView;

    open spec fn view(&self) -> RequestView {
        RequestView {
            method: self.method,
            url: self.url@,
            headers: self.headers@.map_values(|h: (String, String)| header_view(h)),
            body: text_view(self.body),
        }
    }
}

/// Why a request cannot be handed to the transport.
#[derive(Debug, Clone, Copy, PartialEq, Eq, Structural)]
pub enum RequestError {
    /// The URL does not parse as an absolute URL.
    InvalidUrl,
    /// The name of the header at this position is not a valid header name.
    InvalidHeaderName(usize),
    /// The value of the header at this position is not a valid header value.
    InvalidHeaderValue(usize),
}

/// Whether `s` parses as an absolute URL.
pub uninterp spec fn parses_as_url(s: Seq<char>) -> bool;

/// A character allowed in a header name.
pub open spec fn is_header_name_char(c: char) -> bool {
    let n = c as u32;
    ||| 97 <= n <= 122  // a-z
    ||| 65 <= n <= 90  // A-Z
    ||| 48 <= n <= 57  // 0-9
    ||| 33 <= n <= 39  // ! " # $ % & '
    ||| n == 42 || n == 43 || n == 45 || n == 46  // * + - .
    ||| 94 <= n <= 96  // ^ _ `
    ||| n == 124 || n == 126  // | ~

}

/// A header name: one to 65535 name characters.
pub open spec fn valid_header_name(s: Seq<char>) -> bool {
    &&& 1 <= s.len() <= 65535
    &&& forall|i: int| 0 <= i < s.len() ==> #[trigger] is_header_name_char(s[i])
}

/// A header value: tabs and any character from space upward, except DEL.
pub open spec fn valid_header_value(s: Seq<char>) -> bool {
    forall|i: int|
        0 <= i < s.len() ==> (#[trigger] s[i] == '\t' || (s[i] as u32 >= 32 && s[i] as u32 != 127))
}

/// Every header before position `n` has a valid name and a valid value.
pub open spec fn headers_valid_before(h: Seq<(Seq<char>, Seq<char>)>, n: int) -> bool {
    forall|i: int|
        0 <= i < n ==> valid_header_name(#[trigger] h[i].0) && valid_header_value(h[i].1)
}

/// The request can be handed to the transport as it stands.
pub open spec fn is_sendable(r: RequestView) -> bool {
    parses_as_url(r.url) && headers_valid_before(r.headers, r.headers.len() as int)
}

/// Relies on `reqwest::Url::parse`: the answer depends on the text alone.
#[verifier::external_body]
fn url_parses(url: &str) -> (r: bool)
    ensures
        r == parses_as_url(url@),
{
    reqwest::Url::parse(url).is_ok()
}

/// Relies on `reqwest::header::HeaderName::from_bytes`, which accepts 1 to
/// 65535 bytes, each a token character of its table; bytes above 127 are refused.
#[verifier::external_body]
fn header_name_accepted(name: &str) -> (r: bool)
    ensures
        r == valid_header_name(name@),
{
    reqwest::header::HeaderName::from_bytes(name.as_bytes()).is_ok()
}

/// Relies on `reqwest::header::HeaderValue::from_str`, which accepts tab and
/// every byte from 32 up but 127.
#[verifier::external_body]
fn header_value_accepted(value: &str) -> (r: bool)
    ensures
        r == valid_header_value(value@),
{
    reqwest::header::HeaderValue::from_str(value).is_ok()
}

impl HttpRequest {
    /// A request with no headers and no body.
    pub fn new(method: HttpMethod, url: &str) -> (r: Self)
        ensures
            r@ == (RequestView { method, url: url@, headers: Seq::empty(), body: None }),
    {
        let r = HttpRequest { method, url: url.to_owned(), headers: Vec::new(), body: None };
        assert(r@.headers =~= Seq::<(Seq<char>, Seq<char>)>::empty());
        r
    }

    /// Appends a header after those already present.
    pub fn add_header(&mut self, key: &str, value: &str)
        ensures
            final(self)@ == (RequestView {
                headers: old(self)@.headers.push((key@, value@)),
                ..old(self)@
            }),
    {
        let pair = (key.to_owned(), value.to_owned());
        self.headers.push(pair);
        assert(final(self)@.headers =~= old(self)@.headers.push((key@, value@)));
    }

    /// Sets the body, replacing any earlier one.
    pub fn set_body(&mut self, body: &str)
        ensures
            final(self)@ == (RequestView { body: Some(body@), ..old(self)@ }),
    {
        self.body = Some(body.to_owned());
        assert(final(self)@.headers =~= old(self)@.headers);
    }

    /// Checks that the transport can be given this request: the URL first,
    /// then each header in order, its name before its value. The first
    /// failure found is reported.
    pub fn validate(&self) -> (r: Result<(), RequestError>)
        ensures
            match r {
                Ok(()) => is_sendable(self@),
                Err(RequestError::InvalidUrl) => !parses_as_url(self@.url),
                Err(RequestError::InvalidHeaderName(i)) => {
                    &&& parses_as_url(self@.url)
                    &&& i < self@.headers.len()
                    &&& headers_valid_before(self@.headers, i as int)
                    &&& !valid_header_name(self@.headers[i as int].0)
                },
                Err(RequestError::InvalidHeaderValue(i)) => {
                    &&& parses_as_url(self@.url)
                    &&& i < self@.headers.len()
                    &&& headers_valid_before(self@.headers, i as int)
                    &&& valid_header_name(self@.headers[i as int].0)
                    &&& !valid_header_value(self@.headers[i as int].1)
                },
            },
    {
        if !url_parses(self.url.as_str()) {
            return Err(RequestError::InvalidUrl);
        }
        let n = self.headers.len();
        let mut i: usize = 0;
        while i < n
            invariant
                n == self.headers@.len(),
                i <= n,
                parses_as_url(self@.url),
                headers_valid_before(self@.headers, i as int),
            decreases n - i,
        {
            proof {
                assert(self@.headers[i as int] == header_view(self.headers@[i as int]));
            }
            let name_ok = header_name_accepted(self.headers[i].0.as_str());
            if !name_ok {
                return Err(RequestError::InvalidHeaderName(i));
            }
            let value_ok = header_value_accepted(self.headers[i].1.as_str());
            if !value_ok {
                return Err(RequestError::InvalidHeaderValue(i));
            }
            assert(headers_valid_before(self@.headers, i + 1)) by {
                assert(self@.headers[i as int] == header_view(self.headers@[i as int]));
            }
            i = i + 1;
        }
        Ok(())
    }
}

/// What came back from the transport: status, headers and body.
pub struct HttpResponse {
    pub status_code: u16,
    pub headers: HashMap<String, String>,
    pub body: Vec<u8>,
}

impl HttpResponse {
    /// An empty response: status 0, no headers, no body.
    pub fn new() -> (r: Self)
        ensures
            r.status_code == 0,
            r.headers@ == Map::<String, String>::empty(),
            r.body@.len() == 0,
    {
        HttpResponse { status_code: 0, headers: HashMap::new(), body: Vec::new() }
    }
}

} // verus!
