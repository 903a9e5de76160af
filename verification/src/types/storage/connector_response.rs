//! The last stored projection of an acquirer's answer for an attempt.

use crate::utils::text::copy_text;
use time::PrimitiveDateTime;
use vstd::prelude::*;

verus! {

/// One per attempt.
#[derive(Debug, PartialEq, Eq)]
pub struct ConnectorResponse {
    pub payment_id: String,
    pub merchant_id: String,
    pub txn_id: String,
    pub connector_name: String,
    pub connector_transaction_id: Option<String>,
    pub authentication_data: Option<String>,
    pub encoded_data: Option<String>,
    pub created_at: PrimitiveDateTime,
}

impl Clone for ConnectorResponse {
    fn clone(&self) -> (r: Self)
        ensures
            r == *self,
    {
        ConnectorResponse {
            payment_id: self.payment_id.clone(),
            merchant_id: self.merchant_id.clone(),
            txn_id: self.txn_id.clone(),
            connector_name: self.connector_name.clone(),
            connector_transaction_id: copy_text(&self.connector_transaction_id),
            authentication_data: copy_text(&self.authentication_data),
            encoded_data: copy_text(&self.encoded_data),
            created_at: self.created_at,
        }
    }
}

} // verus!
