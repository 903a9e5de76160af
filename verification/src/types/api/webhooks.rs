//! What an adapter does with the webhooks of its acquirer, and how the
//! source of a webhook is verified.

use crate::errors::{ConnectorError, StorageError};
use crate::services::{made_text, FlowKind};
use crate::utils::crypto::{verifies, SignatureAlgorithm};
use crate::utils::json::Json;
use actix_web::http::header::HeaderMap;
use vstd::prelude::*;

verus! {

/// The neutral taxonomy of the events that acquirers announce.
#[derive(Clone, Copy, Debug, PartialEq, Eq, Structural)]
pub enum IncomingWebhookEvent {
    PaymentIntentSuccess,
    PaymentIntentFailure,
    RefundSuccess,
    RefundFailure,
    EndpointVerification,
}

impl IncomingWebhookEvent {
    /// The flow by which the pipeline takes an event in: an event about a
    /// payment has the payment read from the acquirer, an event about a
    /// refund the refund, and the verification of an endpoint nothing.
    pub open spec fn sync_flow(self) -> Option<FlowKind> {
        match self {
            IncomingWebhookEvent::PaymentIntentSuccess => Some(FlowKind::PSync),
            IncomingWebhookEvent::PaymentIntentFailure => Some(FlowKind::PSync),
            IncomingWebhookEvent::RefundSuccess => Some(FlowKind::RefundSync),
            IncomingWebhookEvent::RefundFailure => Some(FlowKind::RefundSync),
            IncomingWebhookEvent::EndpointVerification => None,
        }
    }

    /// The flow that the pipeline runs for the resource of the event, so that
    /// a state change announced by a webhook passes the same state machine as
    /// one found by polling.
    pub fn get_sync_flow(self) -> (r: Option<FlowKind>)
        ensures
            r == self.sync_flow(),
    {
        match self {
            IncomingWebhookEvent::PaymentIntentSuccess
            | IncomingWebhookEvent::PaymentIntentFailure => Some(FlowKind::PSync),
            IncomingWebhookEvent::RefundSuccess | IncomingWebhookEvent::RefundFailure => Some(
                FlowKind::RefundSync,
            ),
            IncomingWebhookEvent::EndpointVerification => None,
        }
    }
}

/// The view of bytes that were found or not.
pub open spec fn found_bytes(r: Result<Vec<u8>, ConnectorError>) -> Result<Seq<u8>, ConnectorError> {
    match r {
        Ok(bytes) => Ok(bytes@),
        Err(error) => Err(error),
    }
}

/// The secret of a merchant, from what the key-value store answered: a store
/// that did not give the secret gives `WebhookVerificationSecretNotFound`.
pub open spec fn merchant_secret(found: Result<Vec<u8>, StorageError>) -> Result<
    Vec<u8>,
    ConnectorError,
> {
    match found {
        Ok(secret) => Ok(secret),
        Err(_) => Err(ConnectorError::WebhookVerificationSecretNotFound),
    }
}

/// Whether a webhook is accepted as sent by the acquirer: the algorithm, the
/// signature and the message are found, the first of them that is not
/// deciding the error, and the signature verifies for the message under the
/// secret of the merchant. A signature that does not verify gives
/// `WebhookSourceVerificationFailed`.
pub open spec fn source_verdict(
    algorithm: Result<SignatureAlgorithm, ConnectorError>,
    signature: Result<Seq<u8>, ConnectorError>,
    message: Result<Seq<u8>, ConnectorError>,
    secret: Seq<u8>,
) -> Result<(), ConnectorError> {
    match (algorithm, signature, message) {
        (Err(error), _, _) => Err(error),
        (Ok(_), Err(error), _) => Err(error),
        (Ok(_), Ok(_), Err(error)) => Err(error),
        (Ok(SignatureAlgorithm::HmacSha256), Ok(signature), Ok(message)) => if verifies(
            secret,
            signature,
            message,
        ) {
            Ok(())
        } else {
            Err(ConnectorError::WebhookSourceVerificationFailed)
        },
    }
}

/// What an adapter does with the webhooks of its acquirer. An adapter says
/// what each operation gives by the specification functions of the trait,
/// and each operation is held to them.
pub trait IncomingWebhook {
    /// The algorithm by which the acquirer signed the webhook.
    spec fn source_verification_algorithm(&self, headers: HeaderMap, body: Seq<u8>) -> Result<
        SignatureAlgorithm,
        ConnectorError,
    >;

    /// The signature that the webhook carries.
    spec fn source_verification_signature(&self, headers: HeaderMap, body: Seq<u8>) -> Result<
        Seq<u8>,
        ConnectorError,
    >;

    /// The message that the signature is a code of.
    spec fn source_verification_message(&self, headers: HeaderMap, body: Seq<u8>) -> Result<
        Seq<u8>,
        ConnectorError,
    >;

    /// The key under which the key-value store holds the secret that the
    /// acquirer shares with a merchant.
    spec fn merchant_secret_key(&self, merchant_id: Seq<char>) -> Seq<char>;

    /// The acquirer's id of what the event in `body` is about.
    spec fn object_reference_id(&self, body: Seq<u8>) -> Result<Seq<char>, ConnectorError>;

    /// The kind of event that `body` announces.
    spec fn event_type(&self, body: Seq<u8>) -> Result<IncomingWebhookEvent, ConnectorError>;

    /// The object that the event in `body` is about.
    spec fn resource_object(&self, body: Seq<u8>) -> Result<Json, ConnectorError>;

    /// The algorithm by which the acquirer signed the webhook.
    fn get_webhook_source_verification_algorithm(&self, headers: &HeaderMap, body: &[u8]) -> (r:
        Result<SignatureAlgorithm, ConnectorError>)
        ensures
            r == self.source_verification_algorithm(*headers, body@),
    ;

    /// The signature that the webhook carries.
    fn get_webhook_source_verification_signature(&self, headers: &HeaderMap, body: &[u8]) -> (r:
        Result<Vec<u8>, ConnectorError>)
        ensures
            found_bytes(r) == self.source_verification_signature(*headers, body@),
    ;

    /// The message that the signature of the webhook is a code of.
    fn get_webhook_source_verification_message(&self, headers: &HeaderMap, body: &[u8]) -> (r:
        Result<Vec<u8>, ConnectorError>)
        ensures
            found_bytes(r) == self.source_verification_message(*headers, body@),
    ;

    /// The key under which the key-value store holds the secret that the
    /// acquirer shares with the merchant.
    fn get_webhook_source_verification_merchant_secret_key(&self, merchant_id: &str) -> (r: String)
        ensures
            r@ == self.merchant_secret_key(merchant_id@),
    ;

    /// The secret of the merchant, from what the key-value store answered
    /// when asked for the key of the secret.
    fn get_webhook_source_verification_merchant_secret(
        &self,
        found: Result<Vec<u8>, StorageError>,
    ) -> (r: Result<Vec<u8>, ConnectorError>)
        ensures
            r == merchant_secret(found),
    ;

    /// The acquirer's id of what the event in `body` is about.
    fn get_webhook_object_reference_id(&self, body: &[u8]) -> (r: Result<String, ConnectorError>)
        ensures
            made_text(r) == self.object_reference_id(body@),
    ;

    /// The kind of event that `body` announces.
    fn get_webhook_event_type(&self, body: &[u8]) -> (r: Result<
        IncomingWebhookEvent,
        ConnectorError,
    >)
        ensures
            r == self.event_type(body@),
    ;

    /// The object that the event in `body` is about, as it came.
    fn get_webhook_resource_object(&self, body: &[u8]) -> (r: Result<Json, ConnectorError>)
        ensures
            r == self.resource_object(body@),
    ;
}

/// Verifies that a webhook was sent by the acquirer of `connector`, under the
/// secret of the merchant.
pub fn verify_webhook_source<C: IncomingWebhook>(
    connector: &C,
    headers: &HeaderMap,
    body: &[u8],
    secret: &[u8],
) -> (r: Result<(), ConnectorError>)
    ensures
        r == source_verdict(
            connector.source_verification_algorithm(*headers, body@),
            connector.source_verification_signature(*headers, body@),
            connector.source_verification_message(*headers, body@),
            secret@,
        ),
{
    let algorithm = connector.get_webhook_source_verification_algorithm(headers, body)?;
    let signature = connector.get_webhook_source_verification_signature(headers, body)?;
    let message = connector.get_webhook_source_verification_message(headers, body)?;
    if algorithm.verify_signature(secret, signature.as_slice(), message.as_slice()) {
        Ok(())
    } else {
        Err(ConnectorError::WebhookSourceVerificationFailed)
    }
}

} // verus!
