//! One execution of an intent against one connector.

use crate::types::storage::enums::{
    AttemptStatus, AuthenticationType, CaptureMethod, Currency, PaymentMethodType,
};
use crate::utils::text::copy_text;
use time::PrimitiveDateTime;
use vstd::prelude::*;

verus! {

#[derive(Debug, PartialEq, Eq)]
pub struct PaymentAttempt {
    pub payment_id: String,
    pub merchant_id: String,
    /// The router's own id of the attempt.
    pub txn_id: String,
    /// The acquirer's id of the attempt, once it has one.
    pub connector_transaction_id: Option<String>,
    pub status: AttemptStatus,
    /// In minor units.
    pub amount: i64,
    pub currency: Option<Currency>,
    pub capture_method: Option<CaptureMethod>,
    pub amount_to_capture: Option<i64>,
    pub payment_method: Option<PaymentMethodType>,
    pub authentication_type: Option<AuthenticationType>,
    pub error_message: Option<String>,
    pub created_at: PrimitiveDateTime,
    pub modified_at: PrimitiveDateTime,
}

impl Clone for PaymentAttempt {
    fn clone(&self) -> (r: Self)
        ensures
            r == *self,
    {
        PaymentAttempt {
            payment_id: self.payment_id.clone(),
            merchant_id: self.merchant_id.clone(),
            txn_id: self.txn_id.clone(),
            connector_transaction_id: copy_text(&self.connector_transaction_id),
            status: self.status,
            amount: self.amount,
            currency: self.currency,
            capture_method: self.capture_method,
            amount_to_capture: self.amount_to_capture,
            payment_method: self.payment_method,
            authentication_type: self.authentication_type,
            error_message: copy_text(&self.error_message),
            created_at: self.created_at,
            modified_at: self.modified_at,
        }
    }
}

impl PaymentAttempt {
    /// No attempt is to capture more than its amount.
    pub open spec fn well_formed(self) -> bool {
        self.amount_to_capture matches Some(capture) ==> capture <= self.amount
    }

    /// The attempt after the status `projected`, mapped from an acquirer's
    /// answer, is reconciled with the status that it holds.
    pub fn reconcile_status(self, projected: AttemptStatus) -> (r: PaymentAttempt)
        ensures
            r == (PaymentAttempt { status: self.status.reconciled(projected), ..self }),
            self.status.precedes(r.status),
    {
        let status = self.status.reconcile(projected);
        PaymentAttempt { status, ..self }
    }

    /// Tells whether the attempt obeys its invariant.
    pub fn is_well_formed(&self) -> (r: bool)
        ensures
            r == self.well_formed(),
    {
        match self.amount_to_capture {
            Some(capture) => capture <= self.amount,
            None => true,
        }
    }
}

} // verus!
