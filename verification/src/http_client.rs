//! The requests that a transport is asked to perform, and the decoding of
//! what it brings back.

use vstd::prelude::*;
use vstd::string::*;
use vstd::utf8::*;

use crate::service_error::ServiceError;
use crate::service_error::ServiceErrorView;

verus! {

/// What stands between a target and the payload in the request target of a GET.
pub const QUERY_SEPARATOR: &'static str = "?";

/// Media type announced for the body of a POST.
pub const JSON_CONTENT_TYPE: &'static str = "application/json";

/// Text of the error for a response body that is not UTF-8.
pub const INVALID_BODY: &'static str = "response body is not valid UTF-8";

/// How a payload travels to a target.
#[derive(Clone, Copy, Debug, PartialEq, Eq, Structural)]
pub enum RequestMethod {
    /// The payload is the query string of a GET.
    Get,
    /// The payload is the JSON body of a POST.
    PostJson,
}

/// One call for a transport to make: everything it needs, and nothing that it
/// has to decide.
#[derive(Debug)]
pub struct HttpRequest {
    pub method: RequestMethod,
    /// The full request target.
    pub url: String,
    /// Value of the `Content-Type` header, where one is sent.
    pub content_type: Option<String>,
    /// The request body, sent as it is; empty for a GET.
    pub body: String,
    /// Time allowed for the whole call.
    pub timeout_ms: u64,
}

/// Mathematical value of an [`HttpRequest`].
pub struct HttpRequestView {
    pub method: RequestMethod,
    pub url: Seq<char>,
    pub content_type: Option<Seq<char>>,
    pub body: Seq<char>,
    pub timeout_ms: u64,
}

impl View for HttpRequest {
    type V = HttpRequestView;

    open spec fn view(&self) -> HttpRequestView {
        HttpRequestView {
            method: self.method,
            url: self.url@,
            content_type: match self.content_type {
                Some(value) => Some(value@),
                None => None,
            },
            body: self.body@,
            timeout_ms: self.timeout_ms,
        }
    }
}

/// The GET of `url`: no body, no content type.
pub open spec fn get_request(url: Seq<char>, timeout_ms: u64) -> HttpRequestView {
    HttpRequestView {
        method: RequestMethod::Get,
        url,
        content_type: None,
        body: Seq::empty(),
        timeout_ms,
    }
}

/// The POST of `post_data` to `url`, announced as JSON.
pub open spec fn post_json_request(url: Seq<char>, post_data: Seq<char>, timeout_ms: u64) -> HttpRequestView {
    HttpRequestView {
        method: RequestMethod::PostJson,
        url,
        content_type: Some(JSON_CONTENT_TYPE@),
        body: post_data,
        timeout_ms,
    }
}

/// The request that carries `payload` to the target at `base_url`: a GET of
/// the target, one separator and the payload, nothing encoded or checked; or a
/// POST to the target with the payload as body.
pub open spec fn request_for(method: RequestMethod, base_url: Seq<char>, payload: Seq<char>, timeout_ms: u64) -> HttpRequestView {
    match method {
        RequestMethod::Get => get_request(base_url + QUERY_SEPARATOR@ + payload, timeout_ms),
        RequestMethod::PostJson => post_json_request(base_url, payload, timeout_ms),
    }
}

/// What a transport's raw response bytes decode to: their text where they are
/// UTF-8, an error of the transport kind where they are not.
pub open spec fn decoded_body(raw: Seq<u8>) -> Result<Seq<char>, ServiceErrorView> {
    if valid_utf8(raw) {
        Ok(decode_utf8(raw))
    } else {
        Err(ServiceErrorView::Transport(INVALID_BODY@))
    }
}

/// `String::from_utf8`: the text of `raw` where the bytes are UTF-8, nothing
/// where they are not.
#[verifier::external_body]
fn string_from_utf8(raw: Vec<u8>) -> (text: Option<String>)
    ensures
        text is Some <==> valid_utf8(raw@),
        text matches Some(s) ==> s@ == decode_utf8(raw@),
{
    match String::from_utf8(raw) {
        Ok(text) => Some(text),
        Err(_) => None,
    }
}

impl RequestMethod {
    /// Builds the request that carries `payload` to the target at `base_url`.
    pub fn request(self, base_url: &str, payload: &str, timeout_ms: u64) -> (request: HttpRequest)
        ensures
            request@ == request_for(self, base_url@, payload@, timeout_ms),
            request@.method == self,
            request@.timeout_ms == timeout_ms,
            self is Get ==> request@.url == base_url@ + "?"@ + payload@,
            self is PostJson ==> request@.url == base_url@ && request@.body == payload@
                && request@.content_type == Some("application/json"@),
    {
        match self {
            RequestMethod::Get => {
                let mut url = String::from_str(base_url);
                url.append(QUERY_SEPARATOR);
                url.append(payload);
                HttpClient::get(url.as_str(), timeout_ms)
            },
            RequestMethod::PostJson => HttpClient::post_json(base_url, payload, timeout_ms),
        }
    }
}

/// Builder of requests and decoder of responses; the transfer itself is the
/// caller's.
pub struct HttpClient {}

impl HttpClient {
    /// The request for a GET of `url`.
    pub fn get(url: &str, timeout_ms: u64) -> (request: HttpRequest)
        ensures
            request@ == get_request(url@, timeout_ms),
    {
        HttpRequest {
            method: RequestMethod::Get,
            url: String::from_str(url),
            content_type: None,
            body: String::new(),
            timeout_ms,
        }
    }

    /// The request for a POST to `url` whose body is `post_data`, unchanged,
    /// with the content type `application/json`.
    pub fn post_json(url: &str, post_data: &str, timeout_ms: u64) -> (request: HttpRequest)
        ensures
            request@ == post_json_request(url@, post_data@, timeout_ms),
            request@.body == post_data@,
            request@.content_type == Some("application/json"@),
    {
        HttpRequest {
            method: RequestMethod::PostJson,
            url: String::from_str(url),
            content_type: Some(String::from_str(JSON_CONTENT_TYPE)),
            body: String::from_str(post_data),
            timeout_ms,
        }
    }

    /// Decodes the bytes of a response body, once, as UTF-8. Bytes that are
    /// not UTF-8 make the call a failed one.
    pub fn decode_body(raw: Vec<u8>) -> (body: Result<String, ServiceError>)
        ensures
            match body {
                Ok(text) => decoded_body(raw@) == Ok::<Seq<char>, ServiceErrorView>(text@),
                Err(error) => decoded_body(raw@) == Err::<Seq<char>, ServiceErrorView>(error@),
            },
    {
        match string_from_utf8(raw) {
            Some(text) => Ok(text),
            None => Err(ServiceError::Transport(String::from_str(INVALID_BODY))),
        }
    }
}

} // verus!
