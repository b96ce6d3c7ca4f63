//! Typed failures reported by the library.
use vstd::prelude::*;

verus! {

/// Failure reported to an API caller.
#[derive(Debug)]
pub enum ApiErrorResponse {
    /// The input is valid in general but not allowed in this context.
    PreconditionFailed { message: String },
    /// The request carries data that cannot be accepted.
    InvalidRequestData { message: String },
    /// An unexpected failure outside the caller's control.
    InternalServerError,
}

/// Abstract value of an [`ApiErrorResponse`], with messages as character sequences.
pub enum ApiErrorView {
    PreconditionFailed { message: Seq<char> },
    InvalidRequestData { message: Seq<char> },
    InternalServerError,
}

impl View for ApiErrorResponse {
    type V = ApiErrorView;

    open spec fn view(&self) -> ApiErrorView {
        match self {
            ApiErrorResponse::PreconditionFailed { message } => ApiErrorView::PreconditionFailed {
                message: message@,
            },
            ApiErrorResponse::InvalidRequestData { message } => ApiErrorView::InvalidRequestData {
                message: message@,
            },
            ApiErrorResponse::InternalServerError => ApiErrorView::InternalServerError,
        }
    }
}

/// Abstract value of an outcome that may fail with an [`ApiErrorResponse`].
pub open spec fn api_result_view<T>(r: Result<T, ApiErrorResponse>) -> Result<T, ApiErrorView> {
    match r {
        Ok(v) => Ok(v),
        Err(e) => Err(e@),
    }
}

/// Failure to validate a value against the domain it is meant for.
#[derive(Clone, Copy, Debug)]
pub enum ValidationError {
    /// The named field holds a value that is not valid here.
    IncorrectValueProvided { field_name: &'static str },
}

/// Abstract value of a [`ValidationError`], with the field name as a character sequence.
pub enum ValidationErrorView {
    IncorrectValueProvided { field_name: Seq<char> },
}

impl View for ValidationError {
    type V = ValidationErrorView;

    open spec fn view(&self) -> ValidationErrorView {
        match self {
            ValidationError::IncorrectValueProvided { field_name } => {
                ValidationErrorView::IncorrectValueProvided { field_name: field_name@ }
            },
        }
    }
}

/// Abstract value of an outcome that may fail with a [`ValidationError`].
pub open spec fn validation_result_view<T>(r: Result<T, ValidationError>) -> Result<
    T,
    ValidationErrorView,
> {
    match r {
        Ok(v) => Ok(v),
        Err(e) => Err(e@),
    }
}

} // verus!
