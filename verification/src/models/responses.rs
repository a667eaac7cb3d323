//! The JSON envelope of API answers.

use vstd::prelude::*;

verus! {

/// An API answer: data, metadata, an error and a message, each optional.
#[derive(Debug, Clone, PartialEq, Eq)]
pub struct ApiResponse<'a, T> {
    pub data: Option<T>,
    pub meta: Option<ResponseMeta>,
    pub error: Option<ApiError<'a>>,
    pub message: Option<&'a str>,
}

/// A struct with nothing, used as a default placeholder
#[derive(Debug, Clone, Copy, PartialEq, Eq, Structural)]
pub struct Empty {}

/// Paging metadata.
#[derive(Debug, Clone, Copy, PartialEq, Eq, Structural)]
pub struct ResponseMeta {
    pub limit: i32,
    pub total: i32,
}

/// An error reported in an API answer.
#[derive(Debug, Clone, PartialEq, Eq)]
pub struct ApiError<'a> {
    pub code: &'a str,
    pub message: &'a str,
    pub details: &'a [ErrorDetail<'a>],
}

/// A detail of an error, tied to one field.
#[derive(Debug, Clone, PartialEq, Eq)]
pub struct ErrorDetail<'a> {
    pub field: &'a str,
    pub message: &'a str,
}

impl<T> Default for ApiResponse<'_, T> {
    fn default() -> (r: Self)
        ensures
            r.data is None,
            r.meta is None,
            r.error is None,
            r.message is None,
    {
        ApiResponse { data: None, meta: None, error: None, message: None }
    }
}

impl<'a, T> ApiResponse<'a, T> {
    /// Create a success response with data
    pub fn success(data: T) -> (r: Self)
        ensures
            r.data == Some(data),
            r.meta is None,
            r.error is None,
            r.message is None,
    {
        ApiResponse { data: Some(data), meta: None, error: None, message: None }
    }

    /// Create a success response with data and a message
    pub fn success_with_message(data: T, message: &'a str) -> (r: Self)
        ensures
            r.data == Some(data),
            r.meta is None,
            r.error is None,
            r.message == Some(message),
    {
        ApiResponse { data: Some(data), meta: None, error: None, message: Some(message) }
    }

    /// Create a success response with data and metadata
    pub fn success_with_meta(data: T, meta: ResponseMeta) -> (r: Self)
        ensures
            r.data == Some(data),
            r.meta == Some(meta),
            r.error is None,
            r.message is None,
    {
        ApiResponse { data: Some(data), meta: Some(meta), error: None, message: None }
    }

    /// Create an error response
    pub fn error(error: ApiError<'a>) -> (r: Self)
        ensures
            r.data is None,
            r.meta is None,
            r.error == Some(error),
            r.message is None,
    {
        ApiResponse { data: None, meta: None, error: Some(error), message: None }
    }

    /// Create an error response with a message
    pub fn error_with_message(error: ApiError<'a>, message: &'a str) -> (r: Self)
        ensures
            r.data is None,
            r.meta is None,
            r.error == Some(error),
            r.message == Some(message),
    {
        ApiResponse { data: None, meta: None, error: Some(error), message: Some(message) }
    }
}

impl<'a> ApiError<'a> {
    /// Create a simple error with code and message
    pub fn new(code: &'a str, message: &'a str) -> (e: Self)
        ensures
            e.code == code,
            e.message == message,
            e.details@.len() == 0,
    {
        ApiError { code, message, details: &[] }
    }

    /// Create an error with details
    pub fn with_details(code: &'a str, message: &'a str, details: &'a [ErrorDetail<'a>]) -> (e:
        Self)
        ensures
            e.code == code,
            e.message == message,
            e.details == details,
    {
        ApiError { code, message, details }
    }
}

impl<'a> ErrorDetail<'a> {
    /// Create a new error detail
    pub fn new(field: &'a str, message: &'a str) -> (d: Self)
        ensures
            d.field == field,
            d.message == message,
    {
        ErrorDetail { field, message }
    }
}

} // verus!
