//! The logical payment that a merchant created.

use crate::types::storage::enums::{AttemptStatus, Currency, IntentStatus};
use crate::utils::text::copy_text;
use time::PrimitiveDateTime;
use vstd::prelude::*;

verus! {

/// One per merchant and payment id.
#[derive(Debug, PartialEq, Eq)]
pub struct PaymentIntent {
    pub payment_id: String,
    pub merchant_id: String,
    pub status: IntentStatus,
    /// In minor units.
    pub amount: i64,
    pub currency: Option<Currency>,
    pub shipping_address_id: Option<String>,
    pub billing_address_id: Option<String>,
    pub created_at: PrimitiveDateTime,
    pub modified_at: PrimitiveDateTime,
}

impl Clone for PaymentIntent {
    fn clone(&self) -> (r: Self)
        ensures
            r == *self,
    {
        PaymentIntent {
            payment_id: self.payment_id.clone(),
            merchant_id: self.merchant_id.clone(),
            status: self.status,
            amount: self.amount,
            currency: self.currency,
            shipping_address_id: copy_text(&self.shipping_address_id),
            billing_address_id: copy_text(&self.billing_address_id),
            created_at: self.created_at,
            modified_at: self.modified_at,
        }
    }
}

impl PaymentIntent {
    /// The intent after the status of its latest attempt is projected onto it;
    /// an intent in a terminal status is not changed.
    pub fn follow_attempt(self, attempt_status: AttemptStatus) -> (r: PaymentIntent)
        ensures
            r == (PaymentIntent { status: self.status.followed(attempt_status), ..self }),
    {
        let status = self.status.follow(attempt_status);
        PaymentIntent { status, ..self }
    }
}

} // verus!
