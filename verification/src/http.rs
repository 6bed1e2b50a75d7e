//! The plain data of an HTTP exchange: what is asked for and what came
//! back. Sending is not done here.

use crate::text::same_text;
use reqwest::header::{HeaderName, HeaderValue};
use std::collections::HashMap;
use vstd::prelude::*;
use vstd::string::StringExecFns;
use vstd::utf8::{decode_utf8, valid_utf8};

verus! {

/// The request methods that can be sent.
#[derive(Clone, Copy, Debug, PartialEq, Eq, Structural)]
pub enum HttpMethod {
    GET,
    POST,
    PUT,
    DELETE,
    PATCH,
    HEAD,
    OPTIONS,
}

/// A method's name, in capitals, as it stands on the request line.
pub open spec fn method_name(method: HttpMethod) -> Seq<char> {
    match method {
        HttpMethod::GET => "GET"@,
        HttpMethod::POST => "POST"@,
        HttpMethod::PUT => "PUT"@,
        HttpMethod::DELETE => "DELETE"@,
        HttpMethod::PATCH => "PATCH"@,
        HttpMethod::HEAD => "HEAD"@,
        HttpMethod::OPTIONS => "OPTIONS"@,
    }
}

/// The method that a name in capitals stands for, if it is one.
pub open spec fn method_named(name: Seq<char>) -> Option<HttpMethod> {
    if name == "GET"@ {
        Some(HttpMethod::GET)
    } else if name == "POST"@ {
        Some(HttpMethod::POST)
    } else if name == "PUT"@ {
        Some(HttpMethod::PUT)
    } else if name == "DELETE"@ {
        Some(HttpMethod::DELETE)
    } else if name == "PATCH"@ {
        Some(HttpMethod::PATCH)
    } else if name == "HEAD"@ {
        Some(HttpMethod::HEAD)
    } else if name == "OPTIONS"@ {
        Some(HttpMethod::OPTIONS)
    } else {
        None
    }
}

/// A text with every letter in upper case, as `str::to_uppercase` gives it.
pub uninterp spec fn uppercased(text: Seq<char>) -> Seq<char>;

/// `str::to_uppercase` gives the upper-case form of a text. The form
/// depends on the text alone.
pub assume_specification[ str::to_uppercase ](text: &str) -> (upper: String)
    ensures
        upper@ == uppercased(text@),
;

/// What invalid UTF-8 is replaced by when bytes are read as text, as
/// `String::from_utf8_lossy` does it.
pub uninterp spec fn lossy_text(bytes: Seq<u8>) -> Seq<char>;

/// `String::from_utf8_lossy` reads bytes as text and puts the replacement
/// character where they are no valid UTF-8. Valid UTF-8 is read as it
/// stands.
#[verifier::external_body]
fn read_lossy(bytes: &[u8]) -> (text: String)
    ensures
        text@ == lossy_text(bytes@),
        valid_utf8(bytes@) ==> text@ == decode_utf8(bytes@),
{
    String::from_utf8_lossy(bytes).into_owned()
}

/// Whether the client takes a text as the name of a header.
pub uninterp spec fn header_name_valid(name: Seq<char>) -> bool;

/// Whether the client takes a text as the value of a header.
pub uninterp spec fn header_value_valid(value: Seq<char>) -> bool;

/// `HeaderName::from_str` reads the name of a header and refuses what is
/// none. Whether it refuses depends on the text alone.
#[verifier::external_body]
fn header_name_is_valid(name: &str) -> (valid: bool)
    ensures
        valid == header_name_valid(name@),
{
    <HeaderName as std::str::FromStr>::from_str(name).is_ok()
}

/// `HeaderValue::from_str` reads the value of a header and refuses what is
/// none. Whether it refuses depends on the text alone.
#[verifier::external_body]
fn header_value_is_valid(value: &str) -> (valid: bool)
    ensures
        valid == header_value_valid(value@),
{
    HeaderValue::from_str(value).is_ok()
}

/// Whether a header goes out with the request: only one whose name and
/// value the client both takes. Any other is left out without a word.
pub fn sends_header(name: &str, value: &str) -> (sent: bool)
    ensures
        sent == (header_name_valid(name@) && header_value_valid(value@)),
{
    header_name_is_valid(name) && header_value_is_valid(value)
}

/// The seconds a request may take where it names no limit of its own.
pub const DEFAULT_TIMEOUT_SECONDS: u64 = 30;

impl HttpMethod {
    pub fn as_str(&self) -> (name: &str)
        ensures
            name@ == method_name(*self),
    {
        match self {
            HttpMethod::GET => "GET",
            HttpMethod::POST => "POST",
            HttpMethod::PUT => "PUT",
            HttpMethod::DELETE => "DELETE",
            HttpMethod::PATCH => "PATCH",
            HttpMethod::HEAD => "HEAD",
            HttpMethod::OPTIONS => "OPTIONS",
        }
    }

    /// The method with exactly this name, in capitals.
    pub fn from_name(name: &str) -> (method: Option<HttpMethod>)
        ensures
            method == method_named(name@),
    {
        if same_text(name, "GET") {
            Some(HttpMethod::GET)
        } else if same_text(name, "POST") {
            Some(HttpMethod::POST)
        } else if same_text(name, "PUT") {
            Some(HttpMethod::PUT)
        } else if same_text(name, "DELETE") {
            Some(HttpMethod::DELETE)
        } else if same_text(name, "PATCH") {
            Some(HttpMethod::PATCH)
        } else if same_text(name, "HEAD") {
            Some(HttpMethod::HEAD)
        } else if same_text(name, "OPTIONS") {
            Some(HttpMethod::OPTIONS)
        } else {
            None
        }
    }

    /// The method that a name stands for, in whatever case it is written.
    pub fn parse(name: &str) -> (method: Option<HttpMethod>)
        ensures
            method == method_named(uppercased(name@)),
    {
        let upper = name.to_uppercase();
        HttpMethod::from_name(upper.as_str())
    }

    /// A method's name stands for that method and for no other.
    pub proof fn name_reads_back(self)
        ensures
            method_named(method_name(self)) == Some(self),
    {
        reveal_strlit("GET");
        reveal_strlit("POST");
        reveal_strlit("PUT");
        reveal_strlit("DELETE");
        reveal_strlit("PATCH");
        reveal_strlit("HEAD");
        reveal_strlit("OPTIONS");
        let name = method_name(self);
        match self {
            HttpMethod::GET => {},
            HttpMethod::POST => {
                assert(name.len() != "GET"@.len());
            },
            HttpMethod::PUT => {
                assert(name[0] != "GET"@[0]);
                assert(name.len() != "POST"@.len());
            },
            HttpMethod::DELETE => {
                assert(name.len() != "GET"@.len());
                assert(name.len() != "POST"@.len());
                assert(name.len() != "PUT"@.len());
            },
            HttpMethod::PATCH => {
                assert(name.len() != "GET"@.len());
                assert(name.len() != "POST"@.len());
                assert(name.len() != "PUT"@.len());
                assert(name.len() != "DELETE"@.len());
            },
            HttpMethod::HEAD => {
                assert(name.len() != "GET"@.len());
                assert(name[0] != "POST"@[0]);
                assert(name.len() != "PUT"@.len());
                assert(name.len() != "DELETE"@.len());
                assert(name.len() != "PATCH"@.len());
            },
            HttpMethod::OPTIONS => {
                assert(name.len() != "GET"@.len());
                assert(name.len() != "POST"@.len());
                assert(name.len() != "PUT"@.len());
                assert(name.len() != "DELETE"@.len());
                assert(name.len() != "PATCH"@.len());
                assert(name.len() != "HEAD"@.len());
            },
        }
    }
}

/// A request as it is handed in: the method still a text, the headers and
/// the time limit optional.
#[derive(Debug)]
pub struct RequestPayload {
    pub method: String,
    pub url: String,
    pub headers: Option<HashMap<String, String>>,
    pub body: Option<String>,
    pub timeout: Option<u64>,
}

/// A request that is ready to be sent.
#[derive(Debug, Clone)]
pub struct HttpRequest {
    pub method: HttpMethod,
    pub url: String,
    pub headers: HashMap<String, String>,
    pub body: Option<String>,
    pub timeout: Option<u64>,
}

/// What came back for a request.
#[derive(Debug, Clone)]
pub struct HttpResponse {
    pub status: u16,
    pub status_text: String,
    pub headers: HashMap<String, String>,
    pub body: String,
    /// The time from sending to the last byte of the body, in milliseconds.
    pub response_time: u128,
    /// The length of the body in bytes, as it was received.
    pub size: usize,
}

/// The headers of a payload, none where it names none.
pub open spec fn headers_of(payload: RequestPayload) -> Map<String, String> {
    match payload.headers {
        Some(headers) => headers@,
        None => Map::empty(),
    }
}

impl HttpRequest {
    /// Makes a request of a payload. The method is read in any case; a name
    /// that stands for no method is refused, with a message that shows the
    /// name as it was given. All else is taken over as it is.
    pub fn from_payload(payload: RequestPayload) -> (request: Result<HttpRequest, String>)
        ensures
            match request {
                Ok(request) => {
                    &&& method_named(uppercased(payload.method@)) == Some(request.method)
                    &&& request.url == payload.url
                    &&& request.headers@ == headers_of(payload)
                    &&& request.body == payload.body
                    &&& request.timeout == payload.timeout
                },
                Err(message) => {
                    &&& method_named(uppercased(payload.method@)).is_none()
                    &&& message@ == "Unsupported HTTP method: "@ + payload.method@
                },
            },
    {
        let method = match HttpMethod::parse(payload.method.as_str()) {
            Some(method) => method,
            None => {
                return Err(
                    String::from_str("Unsupported HTTP method: ").concat(payload.method.as_str()),
                );
            },
        };
        let headers = match payload.headers {
            Some(headers) => headers,
            None => HashMap::new(),
        };
        Ok(
            HttpRequest {
                method,
                url: payload.url,
                headers,
                body: payload.body,
                timeout: payload.timeout,
            },
        )
    }

    /// The seconds this request may take: its own limit, or the default.
    pub fn timeout_seconds(&self) -> (seconds: u64)
        ensures
            seconds == match self.timeout {
                Some(limit) => limit,
                None => DEFAULT_TIMEOUT_SECONDS,
            },
    {
        match self.timeout {
            Some(limit) => limit,
            None => DEFAULT_TIMEOUT_SECONDS,
        }
    }
}

impl HttpResponse {
    /// Puts a response together of what was received. The body is read as
    /// text, with the replacement character where it is no valid UTF-8; the
    /// size is the number of bytes received, whatever the text became.
    pub fn assemble(
        status: u16,
        status_text: String,
        headers: HashMap<String, String>,
        body: &[u8],
        response_time: u128,
    ) -> (response: HttpResponse)
        ensures
            response.status == status,
            response.status_text == status_text,
            response.headers == headers,
            response.response_time == response_time,
            response.size == body@.len(),
            response.body@ == lossy_text(body@),
            valid_utf8(body@) ==> response.body@ == decode_utf8(body@),
    {
        HttpResponse {
            status,
            status_text,
            headers,
            body: read_lossy(body),
            response_time,
            size: body.len(),
        }
    }
}

} // verus!
