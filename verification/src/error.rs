//! The error envelope: what a refused request is answered with.
use vstd::prelude::*;

verus! {

/// An HTTP status code: a number with three digits.
#[derive(Debug, Clone, Copy, PartialEq, Eq)]
pub struct StatusCode {
    code: u16,
}

impl View for StatusCode {
    type V = u16;

    closed spec fn view(&self) -> u16 {
        self.code
    }
}

/// `axum::http::StatusCode::from_u16`, read back with `as_u16`: a number is a
/// status code exactly from 100 to 999, and the code stands for that number.
#[verifier::external_body]
fn http_status(number: u16) -> (code: Option<u16>)
    ensures
        code == if 100 <= number <= 999 {
            Some(number)
        } else {
            None
        },
{
    match axum::http::StatusCode::from_u16(number) {
        Ok(status) => Some(status.as_u16()),
        Err(_) => None,
    }
}

/// `axum::http::StatusCode::BAD_REQUEST`, read with `as_u16`: the number 400.
#[verifier::external_body]
fn http_bad_request() -> (code: u16)
    ensures
        code == 400,
{
    axum::http::StatusCode::BAD_REQUEST.as_u16()
}

impl StatusCode {
    #[verifier::type_invariant]
    spec fn has_three_digits(self) -> bool {
        100 <= self.code <= 999
    }

    /// The status code with the given number, where there is one.
    pub fn from_u16(number: u16) -> (status: Option<StatusCode>)
        ensures
            status is Some <==> 100 <= number <= 999,
            status matches Some(s) ==> s@ == number,
    {
        match http_status(number) {
            Some(code) => Some(StatusCode { code }),
            None => None,
        }
    }

    /// 400 Bad Request.
    pub fn bad_request() -> (status: StatusCode)
        ensures
            status@ == 400,
    {
        StatusCode { code: http_bad_request() }
    }

    /// The number that the status code stands for.
    pub fn as_u16(&self) -> (number: u16)
        ensures
            number == self@,
            100 <= number <= 999,
    {
        proof {
            use_type_invariant(self);
        }
        self.code
    }
}

/// The body of an error: one member, `error`.
#[derive(Debug)]
pub struct ErrorResponse {
    pub error: ErrorDetail,
}

/// What went wrong with a request.
#[derive(Debug)]
pub struct ErrorDetail {
    /// Says in words what was refused.
    pub message: String,
    /// The class of the error, `type` on the wire.
    pub error_type: String,
    pub code: Option<String>,
    /// The name of the refused field; `messages` for what is wrong inside a message.
    pub param: Option<String>,
    /// The HTTP status, carried in the body as well.
    pub status: u16,
}

/// An error on its way to the client: the HTTP status and the body.
#[derive(Debug)]
pub struct Response {
    pub status: StatusCode,
    pub body: ErrorResponse,
}

/// An [`ErrorDetail`] with its strings as character sequences.
pub struct ErrorDetailView {
    pub message: Seq<char>,
    pub error_type: Seq<char>,
    pub code: Option<Seq<char>>,
    pub param: Option<Seq<char>>,
    pub status: u16,
}

/// A [`Response`] with its strings as character sequences.
pub struct ResponseView {
    pub status: u16,
    pub error: ErrorDetailView,
}

/// The characters of an optional string.
pub open spec fn characters(s: Option<String>) -> Option<Seq<char>> {
    match s {
        Some(s) => Some(s@),
        None => None,
    }
}

impl View for ErrorDetail {
    type V = ErrorDetailView;

    open spec fn view(&self) -> ErrorDetailView {
        ErrorDetailView {
            message: self.message@,
            error_type: self.error_type@,
            code: characters(self.code),
            param: characters(self.param),
            status: self.status,
        }
    }
}

impl View for Response {
    type V = ResponseView;

    open spec fn view(&self) -> ResponseView {
        ResponseView { status: self.status@, error: self.body.error@ }
    }
}

/// What every refused request is answered: 400, an `invalid_request_error`
/// without a code, with `message` and the name of the field at fault.
pub open spec fn invalid_request(message: Seq<char>, param: Seq<char>) -> ResponseView {
    ResponseView {
        status: 400,
        error: ErrorDetailView {
            message,
            error_type: "invalid_request_error"@,
            code: None,
            param: Some(param),
            status: 400,
        },
    }
}

/// The outcome of a check, with a refusal by its view.
pub open spec fn outcome(result: Result<(), Response>) -> Result<(), ResponseView> {
    match result {
        Ok(()) => Ok(()),
        Err(response) => Err(response@),
    }
}

/// The error envelope with the given contents. The HTTP status stands in the
/// body as well.
pub fn error_response(
    status: StatusCode,
    error_type: &str,
    message: &str,
    code: Option<&str>,
    param: Option<&str>,
) -> (response: Response)
    ensures
        response.status == status,
        response.body.error.message@ == message@,
        response.body.error.error_type@ == error_type@,
        match code {
            Some(c) => response.body.error.code matches Some(s) && s@ == c@,
            None => response.body.error.code is None,
        },
        match param {
            Some(p) => response.body.error.param matches Some(s) && s@ == p@,
            None => response.body.error.param is None,
        },
        response.body.error.status == status@,
{
    Response {
        status,
        body: ErrorResponse {
            error: ErrorDetail {
                message: message.to_string(),
                error_type: error_type.to_string(),
                code: match code {
                    Some(c) => Some(c.to_string()),
                    None => None,
                },
                param: match param {
                    Some(p) => Some(p.to_string()),
                    None => None,
                },
                status: status.as_u16(),
            },
        },
    }
}

/// The answer to a request that is refused for `param`.
pub(crate) fn refuse(message: &str, param: &str) -> (response: Response)
    ensures
        response@ == invalid_request(message@, param@),
{
    error_response(
        StatusCode::bad_request(),
        "invalid_request_error",
        message,
        None,
        Some(param),
    )
}

}
