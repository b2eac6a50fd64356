//! The pieces of the API client that decide: which responses succeed, and the error that a
//! failed response becomes.

use vstd::prelude::*;

use crate::error::CliError;
use crate::text::{decimal, push_decimal, string_from_chars};
use crate::urls::{join_url, opt_str_view, url_join};

verus! {

/// A decoded successful response with the headers that the CLI keeps.
pub struct ApiResponse<T> {
    pub value: T,
    /// The `X-Request-Id` header.
    pub request_id: Option<String>,
    /// The `ETag` header.
    pub etag: Option<String>,
}

/// The JSON body of an API error; every field may be missing.
pub struct ErrorResponse {
    pub error: Option<String>,
    pub message: Option<String>,
    pub request_id: Option<String>,
}

/// Whether an HTTP status is a success (200–299).
pub open spec fn is_success(status: u16) -> bool {
    200 <= status && status <= 299
}

/// Decides `is_success`.
pub fn is_success_status(status: u16) -> (r: bool)
    ensures
        r == is_success(status),
{
    200 <= status && status <= 299
}

/// The canonical reason phrase that the `http` crate (through `reqwest::StatusCode`) knows for
/// a status code.
pub uninterp spec fn status_canonical_reason(status: u16) -> Option<Seq<char>>;

/// Calls `reqwest::StatusCode::from_u16` and `StatusCode::canonical_reason`.
/// Claims that the phrase is the named function `status_canonical_reason` of the code, and,
/// as `from_u16`'s source shows, that codes outside 100–999 have none.
#[verifier::external_body]
fn canonical_reason(status: u16) -> (r: Option<String>)
    ensures
        opt_str_view(r) == status_canonical_reason(status),
        (status < 100 || status > 999) ==> r is None,
{
    reqwest::StatusCode::from_u16(status).ok()?.canonical_reason().map(str::to_owned)
}

/// The code of the error that a failed response reports: the body's `error`, else the status's
/// canonical reason, else `http_error`.
pub open spec fn api_error_code(status: u16, body: Option<ErrorResponse>) -> Seq<char> {
    match body {
        Some(ErrorResponse { error: Some(code), .. }) => code@,
        _ => match status_canonical_reason(status) {
            Some(reason) => reason,
            None => "http_error"@,
        },
    }
}

/// The message of the error that a failed response reports: the body's `message`, else one
/// that names the status.
pub open spec fn api_error_message(status: u16, body: Option<ErrorResponse>) -> Seq<char> {
    match body {
        Some(ErrorResponse { message: Some(m), .. }) => m@,
        _ => "D6E Auth returned HTTP "@ + decimal(status as nat),
    }
}

/// The request ID of a failed response: the body's `request_id`, else the `X-Request-Id` header.
pub open spec fn api_error_request_id(
    body: Option<ErrorResponse>,
    header_request_id: Option<String>,
) -> Option<Seq<char>> {
    match body {
        Some(ErrorResponse { request_id: Some(id), .. }) => Some(id@),
        _ => opt_str_view(header_request_id),
    }
}

/// The error that a response with the failing status `status` reports; `body` is its JSON body
/// where it could be decoded.
pub fn api_error(status: u16, body: Option<ErrorResponse>, header_request_id: Option<String>) -> (r:
    CliError)
    ensures
        r matches CliError::Api { status: s, code, message, request_id } && s == status
            && code@ == api_error_code(status, body) && message@ == api_error_message(
            status,
            body,
        ) && opt_str_view(request_id) == api_error_request_id(body, header_request_id),
{
    let ghost body0 = body;
    let (error, message, body_request_id) = match body {
        Some(b) => (b.error, b.message, b.request_id),
        None => (None, None, None),
    };
    let code = match error {
        Some(code) => code,
        None => match canonical_reason(status) {
            Some(reason) => reason,
            None => String::from_str("http_error"),
        },
    };
    let message = match message {
        Some(m) => m,
        None => {
            let mut digits: Vec<char> = Vec::new();
            push_decimal(status as u64, &mut digits);
            let mut m = String::from_str("D6E Auth returned HTTP ");
            m.append(string_from_chars(&digits).as_str());
            m
        },
    };
    let request_id = match body_request_id {
        Some(id) => Some(id),
        None => header_request_id,
    };
    CliError::Api { status, code, message, request_id }
}

/// The URL of the API path `path` (relative, without a leading `/`) under the origin `base`.
pub fn api_url(base: &str, path: &str) -> (r: Result<String, CliError>)
    ensures
        match r {
            Ok(u) => url_join(base@, path@) == Some(u@),
            Err(e) => e matches CliError::InvalidInput { message } && message@
                == "could not construct API URL"@ && url_join(base@, path@) is None,
        },
{
    match join_url(base, path) {
        Some(u) => Ok(u),
        None => Err(CliError::InvalidInput { message: String::from_str("could not construct API URL") }),
    }
}

} // verus!
