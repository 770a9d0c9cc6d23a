//! Errors that request handlers answer with.

use vstd::prelude::*;

verus! {

/// The class of a failed request.
#[derive(Debug, Clone, Copy, PartialEq, Eq, Structural)]
pub enum ApiErrorKind {
    BadRequest,
    Unauthorized,
    Forbidden,
    NotFound,
    Conflict,
    Internal,
}

/// A failed request: its class and a message for the client.
#[derive(Debug)]
pub struct ApiError {
    pub kind: ApiErrorKind,
    pub message: String,
}

pub ghost struct ApiErrorView {
    pub kind: ApiErrorKind,
    pub message: Seq<char>,
}

impl View for ApiError {
    type V = ApiErrorView;

    open spec fn view(&self) -> ApiErrorView {
        ApiErrorView { kind: self.kind, message: self.message@ }
    }
}

pub open spec fn error_view(kind: ApiErrorKind, message: Seq<char>) -> ApiErrorView {
    ApiErrorView { kind, message }
}

/// The HTTP status code of each class.
pub open spec fn spec_status(kind: ApiErrorKind) -> u16 {
    match kind {
        ApiErrorKind::BadRequest => 400,
        ApiErrorKind::Unauthorized => 401,
        ApiErrorKind::Forbidden => 403,
        ApiErrorKind::NotFound => 404,
        ApiErrorKind::Conflict => 409,
        ApiErrorKind::Internal => 500,
    }
}

impl ApiError {
    pub fn new(kind: ApiErrorKind, message: &str) -> (r: ApiError)
        ensures
            r@ == error_view(kind, message@),
    {
        ApiError { kind, message: message.to_string() }
    }

    pub fn bad_request(message: &str) -> (r: ApiError)
        ensures
            r@ == error_view(ApiErrorKind::BadRequest, message@),
    {
        Self::new(ApiErrorKind::BadRequest, message)
    }

    pub fn unauthorized(message: &str) -> (r: ApiError)
        ensures
            r@ == error_view(ApiErrorKind::Unauthorized, message@),
    {
        Self::new(ApiErrorKind::Unauthorized, message)
    }

    pub fn forbidden(message: &str) -> (r: ApiError)
        ensures
            r@ == error_view(ApiErrorKind::Forbidden, message@),
    {
        Self::new(ApiErrorKind::Forbidden, message)
    }

    pub fn not_found(message: &str) -> (r: ApiError)
        ensures
            r@ == error_view(ApiErrorKind::NotFound, message@),
    {
        Self::new(ApiErrorKind::NotFound, message)
    }

    pub fn conflict(message: &str) -> (r: ApiError)
        ensures
            r@ == error_view(ApiErrorKind::Conflict, message@),
    {
        Self::new(ApiErrorKind::Conflict, message)
    }

    pub fn internal_error(message: &str) -> (r: ApiError)
        ensures
            r@ == error_view(ApiErrorKind::Internal, message@),
    {
        Self::new(ApiErrorKind::Internal, message)
    }

    /// The HTTP status code that answers this error.
    pub fn status(&self) -> (r: u16)
        ensures
            r == spec_status(self.kind),
    {
        match self.kind {
            ApiErrorKind::BadRequest => 400,
            ApiErrorKind::Unauthorized => 401,
            ApiErrorKind::Forbidden => 403,
            ApiErrorKind::NotFound => 404,
            ApiErrorKind::Conflict => 409,
            ApiErrorKind::Internal => 500,
        }
    }
}

/// `prefix` followed by `suffix`.
pub fn concat(prefix: &str, suffix: &str) -> (r: String)
    ensures
        r@ == prefix@ + suffix@,
{
    let mut s = String::from_str(prefix);
    s.append(suffix);
    s
}

} // verus!
