//! The ways in which a request to the API can fail.

use vstd::prelude::*;
use vstd::string::*;

verus! {

/// Why no record could be produced.
#[derive(Debug, Clone, PartialEq, Eq)]
pub enum ApiError {
    /// The network layer did not answer.
    TransportTimeout,
    /// The response bytes are not valid UTF-8.
    InvalidEncoding,
    /// The response is not valid JSON, or lacks a key that gives it its
    /// structure. Carries the reason.
    MalformedResponse(String),
    /// The response parsed, but its embedded success flag is false.
    UpstreamUnavailable,
    /// The account does not share its match history.
    MatchHistoryNotAllowed,
}

/// An `ApiError` as a mathematical value.
pub enum ApiErrorView {
    TransportTimeout,
    InvalidEncoding,
    MalformedResponse(Seq<char>),
    UpstreamUnavailable,
    MatchHistoryNotAllowed,
}

impl View for ApiError {
    type V = ApiErrorView;

    open spec fn view(&self) -> ApiErrorView {
        match self {
            ApiError::TransportTimeout => ApiErrorView::TransportTimeout,
            ApiError::InvalidEncoding => ApiErrorView::InvalidEncoding,
            ApiError::MalformedResponse(reason) => ApiErrorView::MalformedResponse(reason@),
            ApiError::UpstreamUnavailable => ApiErrorView::UpstreamUnavailable,
            ApiError::MatchHistoryNotAllowed => ApiErrorView::MatchHistoryNotAllowed,
        }
    }
}

/// The view of a result: that of the record, or that of the failure.
pub open spec fn result_view<T: View>(result: Result<T, ApiError>) -> Result<T::V, ApiErrorView> {
    match result {
        Ok(record) => Ok(record@),
        Err(error) => Err(error@),
    }
}

impl ApiErrorView {
    /// Whether trying the same request again can help: only failures of the
    /// transport and of the encoding are transient.
    pub open spec fn is_retryable(self) -> bool {
        self is TransportTimeout || self is InvalidEncoding
    }

    /// The text that describes the failure.
    pub open spec fn message(self) -> Seq<char> {
        match self {
            ApiErrorView::TransportTimeout => "Operation timed out (API call)"@,
            ApiErrorView::InvalidEncoding => "invalid utf-8 sequence"@,
            ApiErrorView::MalformedResponse(reason) => reason,
            ApiErrorView::UpstreamUnavailable => "steampowered api returned failed response"@,
            ApiErrorView::MatchHistoryNotAllowed =>
                "Cannot get match history for a user that hasn't allowed it"@,
        }
    }
}

impl ApiError {
    /// Whether trying the same request again can help.
    pub fn is_retryable(&self) -> (r: bool)
        ensures
            r == self@.is_retryable(),
    {
        match self {
            ApiError::TransportTimeout => true,
            ApiError::InvalidEncoding => true,
            _ => false,
        }
    }

    /// The text that describes the failure.
    pub fn message(&self) -> (text: String)
        ensures
            text@ == self@.message(),
    {
        match self {
            ApiError::TransportTimeout => String::from_str("Operation timed out (API call)"),
            ApiError::InvalidEncoding => String::from_str("invalid utf-8 sequence"),
            ApiError::MalformedResponse(reason) => reason.clone(),
            ApiError::UpstreamUnavailable => String::from_str(
                "steampowered api returned failed response",
            ),
            ApiError::MatchHistoryNotAllowed => String::from_str(
                "Cannot get match history for a user that hasn't allowed it",
            ),
        }
    }
}

} // verus!
