//! The working record of a payment request, and what governs the call to the
//! acquirer.

use crate::types::api::PaymentMethod;
use crate::types::storage::address::Address;
use crate::types::storage::connector_response::ConnectorResponse;
use crate::types::storage::enums::{AttemptStatus, Currency};
use crate::types::storage::payment_attempt::PaymentAttempt;
use crate::types::storage::payment_intent::PaymentIntent;
use crate::types::storage::refund::Refund;
use crate::utils::text::text_of;
use std::marker::PhantomData;
use vstd::prelude::*;

pub mod helpers;
pub mod operations;

verus! {

/// What the execution engine does before it would call the acquirer.
#[derive(Clone, Copy, Debug, PartialEq, Eq, Structural)]
pub enum CallConnectorAction {
    /// Build the request and send it.
    Trigger,
    /// Send nothing.
    Avoid,
    /// Send nothing and take the given status as the acquirer's answer.
    StatusUpdate(AttemptStatus),
}

/// The addresses of a payment.
#[derive(Clone, Debug, PartialEq, Eq)]
pub struct PaymentAddress {
    pub shipping: Option<Address>,
    pub billing: Option<Address>,
}

/// The limits that a merchant asks a new mandate to carry.
#[derive(Clone, Debug, PartialEq, Eq)]
pub struct MandateData {
    pub single_use: bool,
    pub amount: Option<i64>,
    pub currency: Option<Currency>,
}

/// The record that one request threads through the stages of its operation.
/// A stage takes it by value and hands it on by value.
#[derive(Debug)]
pub struct PaymentData<F> {
    pub flow: PhantomData<F>,
    pub payment_intent: PaymentIntent,
    pub payment_attempt: PaymentAttempt,
    pub connector_response: ConnectorResponse,
    /// In minor units.
    pub amount: i64,
    pub currency: Currency,
    pub mandate_id: Option<String>,
    pub setup_mandate: Option<MandateData>,
    pub address: PaymentAddress,
    pub token: Option<String>,
    pub confirm: Option<bool>,
    pub force_sync: Option<bool>,
    pub payment_method_data: Option<PaymentMethod>,
    pub refunds: Vec<Refund>,
}

/// The mathematical value of a [`PaymentData`].
pub struct PaymentDataView {
    pub payment_intent: PaymentIntent,
    pub payment_attempt: PaymentAttempt,
    pub connector_response: ConnectorResponse,
    pub amount: i64,
    pub currency: Currency,
    pub mandate_id: Option<Seq<char>>,
    pub setup_mandate: Option<MandateData>,
    pub address: PaymentAddress,
    pub token: Option<Seq<char>>,
    pub confirm: Option<bool>,
    pub force_sync: Option<bool>,
    pub payment_method_data: Option<PaymentMethod>,
    pub refunds: Seq<Refund>,
}

impl<F> View for PaymentData<F> {
    type V = PaymentDataView;

    open spec fn view(&self) -> PaymentDataView {
        PaymentDataView {
            payment_intent: self.payment_intent,
            payment_attempt: self.payment_attempt,
            connector_response: self.connector_response,
            amount: self.amount,
            currency: self.currency,
            mandate_id: text_of(self.mandate_id),
            setup_mandate: self.setup_mandate,
            address: self.address,
            token: text_of(self.token),
            confirm: self.confirm,
            force_sync: self.force_sync,
            payment_method_data: self.payment_method_data,
            refunds: self.refunds@,
        }
    }
}

} // verus!
