//! The failures that a request can end in.

use crate::api_error_code::ApiErrorCode;
use vstd::prelude::*;
use vstd::string::*;

verus! {

/// Every way in which a request can fail.
#[derive(Debug, Clone, PartialEq, Eq)]
pub enum Error {
    /// A failure at construction time, or one that fits no other kind.
    Unspecified(String),
    /// Input could not be parsed before anything was sent.
    ParseError(String),
    /// A request body could not be serialized, or a response body could not
    /// be decoded into the expected shape.
    SerializationError(String),
    /// The HTTP exchange itself did not complete.
    NetworkError(String),
    /// The remote service refused the request, with its reason and its text.
    ApiError(ApiErrorCode, String),
    /// The remote service asked the caller to slow down (HTTP 429).
    Throttling,
}

/// The mathematical value of an [`Error`]: texts are sequences of characters.
pub enum ErrorView {
    Unspecified(Seq<char>),
    ParseError(Seq<char>),
    SerializationError(Seq<char>),
    NetworkError(Seq<char>),
    ApiError(ApiErrorCode, Seq<char>),
    Throttling,
}

impl View for Error {
    type V = ErrorView;

    open spec fn view(&self) -> ErrorView {
        match self {
            Error::Unspecified(m) => ErrorView::Unspecified(m@),
            Error::ParseError(m) => ErrorView::ParseError(m@),
            Error::SerializationError(m) => ErrorView::SerializationError(m@),
            Error::NetworkError(m) => ErrorView::NetworkError(m@),
            Error::ApiError(code, m) => ErrorView::ApiError(*code, m@),
            Error::Throttling => ErrorView::Throttling,
        }
    }
}

impl ErrorView {
    /// The text shown for the error: the message it carries, and a fixed
    /// text for throttling, which carries none.
    pub open spec fn text(self) -> Seq<char> {
        match self {
            ErrorView::Unspecified(m) => m,
            ErrorView::ParseError(m) => m,
            ErrorView::SerializationError(m) => m,
            ErrorView::NetworkError(m) => m,
            ErrorView::ApiError(_, m) => m,
            ErrorView::Throttling => "Throttling."@,
        }
    }

    /// Whether the failure is transient, so that the request may be tried
    /// again: only throttling is.
    pub open spec fn is_retryable(self) -> bool {
        self is Throttling
    }
}

impl Error {
    /// The text shown for the error.
    pub fn to_string(&self) -> (text: String)
        ensures
            text@ == self@.text(),
    {
        match self {
            Error::Unspecified(m) => m.clone(),
            Error::ParseError(m) => m.clone(),
            Error::SerializationError(m) => m.clone(),
            Error::NetworkError(m) => m.clone(),
            Error::ApiError(_, m) => m.clone(),
            Error::Throttling => String::from_str("Throttling."),
        }
    }

    /// Whether the request may be tried again after this failure.
    pub fn is_retryable(&self) -> (b: bool)
        ensures
            b == self@.is_retryable(),
    {
        match self {
            Error::Throttling => true,
            _ => false,
        }
    }
}

} // verus!
