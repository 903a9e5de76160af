//! The errors of adapters, of storage and of the merchant-facing interface,
//! and how a storage error is turned into one shown to the merchant at the
//! boundary of the pipeline.

use vstd::prelude::*;

verus! {

/// Raised by an adapter or by the transport to an acquirer.
#[derive(Clone, Copy, Debug, PartialEq, Eq, Structural)]
pub enum ConnectorError {
    FailedToObtainAuthType,
    RequestEncodingFailed,
    ResponseDeserializationFailed,
    ResponseHandlingFailed,
    FailedToObtainIntegrationUrl,
    RequestTimeoutReceived,
    WebhookSignatureNotFound,
    WebhookSourceVerificationFailed,
    WebhookVerificationSecretNotFound,
    WebhookReferenceIdNotFound,
    WebhookEventTypeNotFound,
    WebhookResourceObjectNotFound,
}

/// What the database reported.
#[derive(Clone, Copy, Debug, PartialEq, Eq, Structural)]
pub enum DatabaseError {
    NotFound,
    UniqueViolation,
    Others,
}

/// Raised by the persistence layer.
#[derive(Clone, Copy, Debug, PartialEq, Eq, Structural)]
pub enum StorageError {
    DatabaseError(DatabaseError),
    SerializationFailed,
    DeserializationFailed,
}

/// The error shown to the merchant.
#[derive(Clone, Debug, PartialEq, Eq)]
pub enum ApiErrorResponse {
    PaymentNotFound,
    MissingRequiredField { name: String },
    InvalidRequestData { message: String },
    PaymentAuthorizationFailed { code: String, message: String },
    PaymentCaptureFailed { code: String, message: String },
    RefundFailed { code: String, message: String },
    InternalServerError,
}

/// The mathematical value of an [`ApiErrorResponse`].
pub enum ApiError {
    PaymentNotFound,
    MissingRequiredField { name: Seq<char> },
    InvalidRequestData { message: Seq<char> },
    PaymentAuthorizationFailed { code: Seq<char>, message: Seq<char> },
    PaymentCaptureFailed { code: Seq<char>, message: Seq<char> },
    RefundFailed { code: Seq<char>, message: Seq<char> },
    InternalServerError,
}

impl View for ApiErrorResponse {
    type V = ApiError;

    open spec fn view(&self) -> ApiError {
        match *self {
            ApiErrorResponse::PaymentNotFound => ApiError::PaymentNotFound,
            ApiErrorResponse::MissingRequiredField { name } => ApiError::MissingRequiredField {
                name: name@,
            },
            ApiErrorResponse::InvalidRequestData { message } => ApiError::InvalidRequestData {
                message: message@,
            },
            ApiErrorResponse::PaymentAuthorizationFailed {
                code,
                message,
            } => ApiError::PaymentAuthorizationFailed { code: code@, message: message@ },
            ApiErrorResponse::PaymentCaptureFailed {
                code,
                message,
            } => ApiError::PaymentCaptureFailed { code: code@, message: message@ },
            ApiErrorResponse::RefundFailed { code, message } => ApiError::RefundFailed {
                code: code@,
                message: message@,
            },
            ApiErrorResponse::InternalServerError => ApiError::InternalServerError,
        }
    }
}

impl ApiErrorResponse {
    /// The error that reports a required field, named `name`, as absent.
    pub fn missing_required_field(name: &str) -> (r: ApiErrorResponse)
        ensures
            r@ == (ApiError::MissingRequiredField { name: name@ }),
    {
        ApiErrorResponse::MissingRequiredField { name: String::from_str(name) }
    }

    /// The error that rejects a request for the reason given in `message`.
    pub fn invalid_request_data(message: &str) -> (r: ApiErrorResponse)
        ensures
            r@ == (ApiError::InvalidRequestData { message: message@ }),
    {
        ApiErrorResponse::InvalidRequestData { message: String::from_str(message) }
    }
}

impl StorageError {
    /// Tells whether the record looked for does not exist.
    pub open spec fn is_not_found(self) -> bool {
        self == StorageError::DatabaseError(DatabaseError::NotFound)
    }

    /// Turns a storage error into one shown to the merchant: a record
    /// that was not found becomes `not_found_response`, every other storage
    /// error becomes `InternalServerError`.
    pub fn to_not_found_response(self, not_found_response: ApiErrorResponse) -> (r:
        ApiErrorResponse)
        ensures
            self.is_not_found() ==> r == not_found_response,
            !self.is_not_found() ==> r == ApiErrorResponse::InternalServerError,
    {
        match self {
            StorageError::DatabaseError(DatabaseError::NotFound) => not_found_response,
            _ => ApiErrorResponse::InternalServerError,
        }
    }
}

} // verus!
