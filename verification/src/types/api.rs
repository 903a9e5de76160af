//! What a merchant sends, and the tags that tell the flows apart.

use crate::errors::ApiErrorResponse;
use crate::services::FlowKind;
use vstd::prelude::*;

pub mod webhooks;

verus! {

/// Flow tag: authorise a payment.
#[derive(Clone, Copy, Debug)]
pub struct Authorize;

/// Flow tag: capture an authorised payment.
#[derive(Clone, Copy, Debug)]
pub struct Capture;

/// Flow tag: ask the acquirer for the status of a payment.
#[derive(Clone, Copy, Debug)]
pub struct PSync;

/// Flow tag: cancel a payment that was not captured.
#[derive(Clone, Copy, Debug)]
pub struct Void;

/// Flow tag: verify a payment method without a charge.
#[derive(Clone, Copy, Debug)]
pub struct Verify;

/// Flow tag: execute a refund.
#[derive(Clone, Copy, Debug)]
pub struct Execute;

/// Flow tag: ask the acquirer for the status of a refund.
#[derive(Clone, Copy, Debug)]
pub struct RSync;

/// What every flow tag tells: the flow that it stands for.
pub trait Flow {
    /// The flow that the tag stands for.
    spec fn flow_kind() -> FlowKind;

    /// The flow that the tag stands for.
    fn kind() -> (r: FlowKind)
        ensures
            r == Self::flow_kind(),
    ;
}

impl Flow for Authorize {
    open spec fn flow_kind() -> FlowKind {
        FlowKind::Authorize
    }

    fn kind() -> (r: FlowKind) {
        FlowKind::Authorize
    }
}

impl Flow for Capture {
    open spec fn flow_kind() -> FlowKind {
        FlowKind::Capture
    }

    fn kind() -> (r: FlowKind) {
        FlowKind::Capture
    }
}

impl Flow for PSync {
    open spec fn flow_kind() -> FlowKind {
        FlowKind::PSync
    }

    fn kind() -> (r: FlowKind) {
        FlowKind::PSync
    }
}

impl Flow for Void {
    open spec fn flow_kind() -> FlowKind {
        FlowKind::Void
    }

    fn kind() -> (r: FlowKind) {
        FlowKind::Void
    }
}

impl Flow for Verify {
    open spec fn flow_kind() -> FlowKind {
        FlowKind::Verify
    }

    fn kind() -> (r: FlowKind) {
        FlowKind::Verify
    }
}

impl Flow for Execute {
    open spec fn flow_kind() -> FlowKind {
        FlowKind::RefundExecute
    }

    fn kind() -> (r: FlowKind) {
        FlowKind::RefundExecute
    }
}

impl Flow for RSync {
    open spec fn flow_kind() -> FlowKind {
        FlowKind::RefundSync
    }

    fn kind() -> (r: FlowKind) {
        FlowKind::RefundSync
    }
}

/// The kinds of id by which a request may name a payment.
#[derive(Clone, Debug, PartialEq, Eq)]
pub enum PaymentIdType {
    PaymentIntentId(String),
    ConnectorTransactionId(String),
    PaymentTxnId(String),
}

impl PaymentIdType {
    /// The id of the intent, where the request named the payment by it. A
    /// payment named in any other way is reported as not found.
    pub fn get_payment_intent_id(&self) -> (r: Result<String, ApiErrorResponse>)
        ensures
            match *self {
                PaymentIdType::PaymentIntentId(id) => r == Ok::<String, ApiErrorResponse>(id),
                _ => r == Err::<String, ApiErrorResponse>(ApiErrorResponse::PaymentNotFound),
            },
    {
        match self {
            PaymentIdType::PaymentIntentId(id) => Ok(id.clone()),
            _ => Err(ApiErrorResponse::PaymentNotFound),
        }
    }
}

/// Whether a payment sets a mandate up or debits under one.
#[derive(Clone, Copy, Debug, PartialEq, Eq, Structural)]
pub enum MandateTxnType {
    NewMandateTxn,
    RecurringMandateTxn,
}

/// A merchant's request to capture an authorised payment.
#[derive(Clone, Debug, PartialEq, Eq)]
pub struct PaymentsCaptureRequest {
    pub payment_id: Option<String>,
    pub merchant_id: Option<String>,
    /// In minor units; where absent, what the attempt holds is captured.
    pub amount_to_capture: Option<i64>,
    pub refund_uncaptured_amount: Option<bool>,
    pub statement_descriptor_suffix: Option<String>,
    pub statement_descriptor_prefix: Option<String>,
}

/// Card data as the merchant sent it.
#[derive(Clone, Debug, PartialEq, Eq)]
pub struct CCard {
    pub card_number: String,
    pub card_exp_month: String,
    pub card_exp_year: String,
    pub card_holder_name: String,
    pub card_cvc: String,
}

/// The payment instrument of a request.
#[derive(Clone, Debug, PartialEq, Eq)]
pub enum PaymentMethod {
    Card(CCard),
    BankTransfer,
    Wallet,
    PayLater,
    Paypal,
}

} // verus!
