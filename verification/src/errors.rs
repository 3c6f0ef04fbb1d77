//! The error every SDK call fails with, and the field-level validation
//! errors that an API error carries.

use vstd::prelude::*;

/// Response code constants, also reachable from here.
pub use crate::codes;

verus! {

/// The transport error of the HTTP client, carried through unchanged.
#[verifier::external_type_specification]
#[verifier::external_body]
pub struct ExReqwestError(reqwest::Error);

/// A JSON decoding error, carried through unchanged.
#[verifier::external_type_specification]
#[verifier::external_body]
pub struct ExJsonError(serde_json::Error);

/// A single field-level validation error from the API.
#[derive(Debug, Clone)]
pub struct ErrorField {
    pub field: String,
    pub rule: String,
    pub message: String,
}

/// Mathematical model of an [`ErrorField`].
pub struct ErrorFieldView {
    pub field: Seq<char>,
    pub rule: Seq<char>,
    pub message: Seq<char>,
}

impl View for ErrorField {
    type V = ErrorFieldView;

    open spec fn view(&self) -> ErrorFieldView {
        ErrorFieldView { field: self.field@, rule: self.rule@, message: self.message@ }
    }
}

/// Every SDK method returns this on failure.
/// Use `is_code()` for programmatic error handling — never match on message.
#[derive(Debug)]
pub enum PayfakeError {
    Api {
        /// X-Payfake-Code header value — use this for programmatic handling.
        code: String,
        /// Human-readable error message — log this, don't match on it.
        message: String,
        /// Field-level validation errors (populated when code is VALIDATION_ERROR).
        fields: Vec<ErrorField>,
        /// HTTP status code of the failed response.
        http_status: u16,
    },
    Http(reqwest::Error),
    Json(serde_json::Error),
}

impl PayfakeError {
    /// The code of an API error; none for transport and decoding errors.
    pub open spec fn api_code(&self) -> Option<Seq<char>> {
        match self {
            PayfakeError::Api { code, .. } => Some(code@),
            _ => None,
        }
    }

    /// Returns true if this is an Api error with the given code.
    pub fn is_code(&self, code: &str) -> (b: bool)
        ensures
            b == is_code_result(*self, code@),
            self matches PayfakeError::Api { code: k, .. } ==> (b <==> k@ == code@),
            !(self is Api) ==> !b,
    {
        match self {
            PayfakeError::Api { code: c, .. } => {
                let expected = String::from_str(code);
                *c == expected
            },
            _ => false,
        }
    }

    /// Returns the error code if this is an Api error.
    pub fn code(&self) -> (r: Option<&str>)
        ensures
            match r {
                Some(s) => code_result(*self) == Some(s@),
                None => code_result(*self) is None,
            },
            self matches PayfakeError::Api { code: k, .. } ==> (r matches Some(s) && s@ == k@),
            !(self is Api) ==> r is None,
    {
        match self {
            PayfakeError::Api { code, .. } => Some(code.as_str()),
            _ => None,
        }
    }
}

/// What `e.is_code(c)` returns: whether `e` is an API error whose code is `c`.
pub open spec fn is_code_result(e: PayfakeError, c: Seq<char>) -> bool {
    e.api_code() == Some(c)
}

/// What `e.code()` returns, as text: the code of an API error, none otherwise.
pub open spec fn code_result(e: PayfakeError) -> Option<Seq<char>> {
    e.api_code()
}

/// `e.is_code(c)` returns true exactly when `e.code()` returns `Some(c)`; and
/// when `e` is a transport or decoding error, `code()` returns `None` and no
/// `is_code` returns true.
pub proof fn law_is_code_agrees_with_code(e: PayfakeError, c: Seq<char>)
    ensures
        is_code_result(e, c) <==> code_result(e) == Some(c),
        !(e is Api) ==> code_result(e) is None && !is_code_result(e, c),
{
}

/// An API error's code is what `code()` reports and what `is_code` tests,
/// whatever else the error carries (message, field errors, HTTP status):
/// `code()` gives `Some` of the `code` field, and `is_code(c)` holds exactly
/// when `c` equals that field.
pub proof fn law_api_error_is_classified_by_its_code(
    code: String,
    message: String,
    fields: Vec<ErrorField>,
    http_status: u16,
    c: Seq<char>,
)
    ensures
        ({
            let e = PayfakeError::Api { code, message, fields, http_status };
            &&& code_result(e) == Some(code@)
            &&& is_code_result(e, c) <==> code@ == c
        }),
{
}

} // verus!
