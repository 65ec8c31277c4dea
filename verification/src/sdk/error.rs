//! What can go wrong between a client and the server.

use crate::model::{RutifyError, RutifyErrorView};
use crate::text::join2;
use vstd::prelude::*;
use vstd::std_specs::convert::FromSpecImpl;

verus! {

/// A failure of a client call. The texts are those of the failure that
/// was met.
#[derive(Debug, Clone, PartialEq, Eq)]
pub enum SdkError {
    HttpError(String),
    JsonError(String),
    ApiError { status: String },
    InvalidUrl(String),
    NetworkError(String),
}

/// `SdkError` over sequences of characters.
pub enum SdkErrorView {
    HttpError(Seq<char>),
    JsonError(Seq<char>),
    ApiError { status: Seq<char> },
    InvalidUrl(Seq<char>),
    NetworkError(Seq<char>),
}

impl View for SdkError {
    type V = SdkErrorView;

    open spec fn view(&self) -> SdkErrorView {
        match self {
            SdkError::HttpError(detail) => SdkErrorView::HttpError(detail@),
            SdkError::JsonError(detail) => SdkErrorView::JsonError(detail@),
            SdkError::ApiError { status } => SdkErrorView::ApiError { status: status@ },
            SdkError::InvalidUrl(detail) => SdkErrorView::InvalidUrl(detail@),
            SdkError::NetworkError(detail) => SdkErrorView::NetworkError(detail@),
        }
    }
}

/// The line that reports a failure.
pub open spec fn failure_line(error: SdkErrorView) -> Seq<char> {
    match error {
        SdkErrorView::HttpError(detail) => "HTTP request failed: "@ + detail,
        SdkErrorView::JsonError(detail) => "JSON serialization/deserialization failed: "@ + detail,
        SdkErrorView::ApiError { status } => "API returned errors status: "@ + status,
        SdkErrorView::InvalidUrl(detail) => "Invalid URL: "@ + detail,
        SdkErrorView::NetworkError(detail) => "Network errors: "@ + detail,
    }
}

/// The client error that stands for a failure of a call.
pub open spec fn client_error(error: SdkErrorView) -> RutifyErrorView {
    match error {
        SdkErrorView::HttpError(detail) => RutifyErrorView::Network { message: detail },
        SdkErrorView::JsonError(detail) => RutifyErrorView::Parse { message: detail },
        SdkErrorView::ApiError { status } => RutifyErrorView::Api {
            status,
            message: "API errors"@,
        },
        SdkErrorView::InvalidUrl(detail) => RutifyErrorView::Config { message: detail },
        SdkErrorView::NetworkError(detail) => RutifyErrorView::Network { message: detail },
    }
}

impl SdkError {
    /// The line that reports the failure.
    pub fn to_string(&self) -> (line: String)
        ensures
            line@ == failure_line(self@),
    {
        match self {
            SdkError::HttpError(detail) => join2("HTTP request failed: ", detail.as_str()),
            SdkError::JsonError(detail) => join2(
                "JSON serialization/deserialization failed: ",
                detail.as_str(),
            ),
            SdkError::ApiError { status } => join2("API returned errors status: ", status.as_str()),
            SdkError::InvalidUrl(detail) => join2("Invalid URL: ", detail.as_str()),
            SdkError::NetworkError(detail) => join2("Network errors: ", detail.as_str()),
        }
    }
}

impl From<SdkError> for RutifyError {
    fn from(err: SdkError) -> (converted: RutifyError)
        ensures
            converted@ == client_error(err@),
    {
        match err {
            SdkError::HttpError(detail) => RutifyError::Network { message: detail },
            SdkError::JsonError(detail) => RutifyError::Parse { message: detail },
            SdkError::ApiError { status } => RutifyError::Api {
                status,
                message: String::from_str("API errors"),
            },
            SdkError::InvalidUrl(detail) => RutifyError::Config { message: detail },
            SdkError::NetworkError(detail) => RutifyError::Network { message: detail },
        }
    }
}

impl FromSpecImpl<SdkError> for RutifyError {
    open spec fn obeys_from_spec() -> bool {
        false
    }

    open spec fn from_spec(err: SdkError) -> RutifyError {
        arbitrary()
    }
}

/// The result of a client call.
pub type SdkResult<T> = Result<T, SdkError>;

} // verus!
