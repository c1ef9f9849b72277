//! Errors, each with its message.

use vstd::prelude::*;

verus! {

/// Why a request or a response failed.
#[derive(Debug)]
pub enum LlmConnectorError {
    /// What came back cannot be read.
    ParseError(String),
    /// The request is not one that the provider takes.
    InvalidRequest(String),
    /// The key is not accepted.
    AuthenticationError(String),
    /// The key does not allow this.
    PermissionError(String),
    /// There were too many requests.
    RateLimitError(String),
    /// The provider failed.
    ServerError(String),
    /// Another answer of the provider.
    ApiError(String),
    /// The request is longer than the model can take.
    ContextLengthExceeded(String),
}

/// What an error holds.
pub enum LlmConnectorErrorView {
    ParseError(Seq<char>),
    InvalidRequest(Seq<char>),
    AuthenticationError(Seq<char>),
    PermissionError(Seq<char>),
    RateLimitError(Seq<char>),
    ServerError(Seq<char>),
    ApiError(Seq<char>),
    ContextLengthExceeded(Seq<char>),
}

impl View for LlmConnectorError {
    type V = LlmConnectorErrorView;

    open spec fn view(&self) -> LlmConnectorErrorView {
        match self {
            LlmConnectorError::ParseError(m) => LlmConnectorErrorView::ParseError(m@),
            LlmConnectorError::InvalidRequest(m) => LlmConnectorErrorView::InvalidRequest(m@),
            LlmConnectorError::AuthenticationError(m) => LlmConnectorErrorView::AuthenticationError(
                m@,
            ),
            LlmConnectorError::PermissionError(m) => LlmConnectorErrorView::PermissionError(m@),
            LlmConnectorError::RateLimitError(m) => LlmConnectorErrorView::RateLimitError(m@),
            LlmConnectorError::ServerError(m) => LlmConnectorErrorView::ServerError(m@),
            LlmConnectorError::ApiError(m) => LlmConnectorErrorView::ApiError(m@),
            LlmConnectorError::ContextLengthExceeded(m) => LlmConnectorErrorView::ContextLengthExceeded(
                m@,
            ),
        }
    }
}

} // verus!
