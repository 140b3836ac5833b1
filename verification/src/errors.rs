//! The error taxonomy of the pipeline: transport failures, parse failures,
//! application-level error responses, retry exhaustion, and a missing
//! credential.

use vstd::prelude::*;

verus! {

/// One failure of an orchestrated call. `RequestFailed` is a transport-level
/// failure, `ResponseParseFailed` a body that does not match the expected
/// schema, `ApiErrorResponse` a non-success HTTP status carrying the raw body,
/// `RetryExhausted` the terminal signal of a call whose attempts are all
/// spent, and `MissingApiKey` a call attempted without a credential. Each
/// text payload is a human-readable description.
#[derive(Debug, PartialEq, Eq)]
pub enum ApiError {
    RequestFailed(String),
    ResponseParseFailed(String),
    ApiErrorResponse(String),
    RetryExhausted,
    MissingApiKey,
}

/// Mathematical form of an error: the kind, and the payload where one is
/// determined by the pipeline's inputs. The description of a parse failure
/// comes from the JSON library and is not modelled.
pub enum ErrorModel {
    RequestFailed(Seq<char>),
    ResponseParseFailed,
    ApiErrorResponse(Seq<char>),
    RetryExhausted,
    MissingApiKey,
}

impl View for ApiError {
    type V = ErrorModel;

    open spec fn view(&self) -> ErrorModel {
        match self {
            ApiError::RequestFailed(e) => ErrorModel::RequestFailed(e@),
            ApiError::ResponseParseFailed(_) => ErrorModel::ResponseParseFailed,
            ApiError::ApiErrorResponse(e) => ErrorModel::ApiErrorResponse(e@),
            ApiError::RetryExhausted => ErrorModel::RetryExhausted,
            ApiError::MissingApiKey => ErrorModel::MissingApiKey,
        }
    }
}

impl ApiError {
    /// The description shown to the user, one fixed prefix per kind.
    pub open spec fn message_spec(&self) -> Seq<char> {
        match self {
            ApiError::RequestFailed(e) => "Request failed: "@ + e@,
            ApiError::ResponseParseFailed(e) => "Failed to parse response: "@ + e@,
            ApiError::ApiErrorResponse(e) => "API error: "@ + e@,
            ApiError::RetryExhausted => "Retry attempts exhausted"@,
            ApiError::MissingApiKey => "OPENROUTER_API_KEY not set"@,
        }
    }

    pub fn message(&self) -> (r: String)
        ensures
            r@ == self.message_spec(),
    {
        match self {
            ApiError::RequestFailed(e) => String::from_str("Request failed: ").concat(e.as_str()),
            ApiError::ResponseParseFailed(e) => String::from_str("Failed to parse response: ")
                .concat(e.as_str()),
            ApiError::ApiErrorResponse(e) => String::from_str("API error: ").concat(e.as_str()),
            ApiError::RetryExhausted => String::from_str("Retry attempts exhausted"),
            ApiError::MissingApiKey => String::from_str("OPENROUTER_API_KEY not set"),
        }
    }
}

} // verus!
