//! The shape of an API request, and what a response status means.

use crate::error::MossError;
use vstd::prelude::*;
use vstd::string::StringExecFns;

verus! {

/// The HTTP method of an API request.
#[derive(Debug, Clone, Copy, PartialEq, Eq, Structural)]
pub enum HttpMethod {
    Get,
    Post,
}

/// An API request for the transport to send: method, full URL, the value of
/// the `Authorization` header and, where there is one, the JSON body.
#[derive(Debug, Clone)]
pub struct HttpCall {
    pub method: HttpMethod,
    pub url: String,
    pub authorization: String,
    pub body: Option<String>,
}

/// The mathematical content of an [`HttpCall`].
pub struct HttpCallView {
    pub method: HttpMethod,
    pub url: Seq<char>,
    pub authorization: Seq<char>,
    pub body: Option<Seq<char>>,
}

impl View for HttpCall {
    type V = HttpCallView;

    open spec fn view(&self) -> HttpCallView {
        HttpCallView {
            method: self.method,
            url: self.url@,
            authorization: self.authorization@,
            body: match self.body {
                Some(b) => Some(b@),
                None => None,
            },
        }
    }
}

/// The request for `path` under `base_url`, authorized by the bearer token
/// `api_key`.
pub open spec fn api_call(
    method: HttpMethod,
    base_url: Seq<char>,
    path: Seq<char>,
    api_key: Seq<char>,
    body: Option<Seq<char>>,
) -> HttpCallView {
    HttpCallView { method, url: base_url + path, authorization: "Bearer "@ + api_key, body }
}

/// Builds the request for `path` under `base_url`.
pub fn make_call(
    method: HttpMethod,
    base_url: &str,
    path: &str,
    api_key: &str,
    body: Option<String>,
) -> (r: HttpCall)
    ensures
        r@ == api_call(
            method,
            base_url@,
            path@,
            api_key@,
            match body {
                Some(b) => Some(b@),
                None => None,
            },
        ),
{
    let mut url = base_url.to_string();
    url.append(path);
    let mut authorization = "Bearer ".to_string();
    authorization.append(api_key);
    HttpCall { method, url, authorization, body }
}

/// How a response is to be read.
#[derive(Debug, Clone, Copy, PartialEq, Eq, Structural)]
pub enum ResponseKind {
    /// A success status: the body holds the answer.
    Success,
    /// `404 Not Found` where the operation reads it as "no such item".
    Absent,
    /// Any other status: the operation fails with the status and body.
    Failure,
}

/// Whether `status` is a success status (200 to 299).
pub open spec fn is_success_status(status: u16) -> bool {
    200 <= status <= 299
}

/// What a response with `status` means: `Absent` for 404 where the operation
/// reads it so, else `Success` for a 2xx status, else `Failure`.
pub open spec fn kind_of_status(status: u16, absent_on_not_found: bool) -> ResponseKind {
    if absent_on_not_found && status == 404 {
        ResponseKind::Absent
    } else if is_success_status(status) {
        ResponseKind::Success
    } else {
        ResponseKind::Failure
    }
}

/// Classifies a response status.
pub fn response_kind(status: u16, absent_on_not_found: bool) -> (r: ResponseKind)
    ensures
        r == kind_of_status(status, absent_on_not_found),
{
    if absent_on_not_found && status == 404 {
        ResponseKind::Absent
    } else if 200 <= status && status <= 299 {
        ResponseKind::Success
    } else {
        ResponseKind::Failure
    }
}

/// The message of a failed response: the status as the transport displays
/// it, and the response body.
pub open spec fn api_error_message(status_text: Seq<char>, body_text: Seq<char>) -> Seq<char> {
    "status "@ + status_text + ": "@ + body_text
}

/// The error for a response with a failure status.
pub fn api_error(status_text: &str, body_text: &str) -> (r: MossError)
    ensures
        r matches MossError::ApiError(m) && m@ == api_error_message(status_text@, body_text@),
{
    let mut message = "status ".to_string();
    message.append(status_text);
    message.append(": ");
    message.append(body_text);
    MossError::ApiError(message)
}

} // verus!
