//! Refunds: the stored record, what creates one, and what may change one.

use crate::types::storage::enums::{Currency, RefundStatus, RefundType};
use crate::utils::text::copy_text;
use time::PrimitiveDateTime;
use vstd::prelude::*;
use vstd::std_specs::convert::FromSpecImpl;

verus! {

/// A refund as storage holds it.
#[derive(Debug, PartialEq, Eq)]
pub struct Refund {
    pub id: i32,
    /// Unique over all refunds.
    pub internal_reference_id: String,
    /// The id that the merchant sees.
    pub refund_id: String,
    pub payment_id: String,
    pub merchant_id: String,
    /// Names the attempt that is refunded.
    pub transaction_id: String,
    pub connector: String,
    /// The acquirer's id of the refund, once it has one.
    pub pg_refund_id: Option<String>,
    pub external_reference_id: Option<String>,
    pub refund_type: RefundType,
    /// The amount of the attempt, in minor units.
    pub total_amount: i64,
    pub currency: Currency,
    /// In minor units.
    pub refund_amount: i64,
    pub refund_status: RefundStatus,
    pub sent_to_gateway: bool,
    pub refund_error_message: Option<String>,
    /// Free-form data of the merchant, carried and never read.
    pub metadata: Option<serde_json::Value>,
    pub refund_arn: Option<String>,
    pub created_at: PrimitiveDateTime,
    pub updated_at: PrimitiveDateTime,
    pub description: Option<String>,
}

/// What storage needs to create a refund.
#[derive(Debug, PartialEq, Eq)]
pub struct RefundNew {
    pub refund_id: String,
    pub payment_id: String,
    pub merchant_id: String,
    pub internal_reference_id: String,
    pub external_reference_id: Option<String>,
    pub transaction_id: String,
    pub connector: String,
    pub pg_refund_id: Option<String>,
    pub refund_type: RefundType,
    pub total_amount: i64,
    pub currency: Currency,
    pub refund_amount: i64,
    pub refund_status: RefundStatus,
    pub sent_to_gateway: bool,
    pub refund_error_message: Option<String>,
    pub metadata: Option<serde_json::Value>,
    pub refund_arn: Option<String>,
    pub created_at: Option<PrimitiveDateTime>,
    pub modified_at: Option<PrimitiveDateTime>,
    pub description: Option<String>,
}

/// The changes that the pipeline makes to a stored refund.
#[derive(Debug)]
#[allow(inconsistent_fields)]
pub enum RefundUpdate {
    Update {
        pg_refund_id: String,
        refund_status: RefundStatus,
        sent_to_gateway: bool,
        refund_error_message: Option<String>,
        refund_arn: String,
    },
    MetadataUpdate { metadata: Option<serde_json::Value> },
    StatusUpdate { pg_refund_id: Option<String>, sent_to_gateway: bool, refund_status: RefundStatus },
    ErrorUpdate { refund_status: Option<RefundStatus>, refund_error_message: Option<String> },
}

/// A change set: a column with `None` keeps its stored value.
#[derive(Debug)]
pub struct RefundUpdateInternal {
    pub pg_refund_id: Option<String>,
    pub refund_status: Option<RefundStatus>,
    pub sent_to_gateway: Option<bool>,
    pub refund_error_message: Option<String>,
    pub refund_arn: Option<String>,
    pub metadata: Option<serde_json::Value>,
}

/// Copies the free-form data of a refund.
pub fn copy_metadata(metadata: &Option<serde_json::Value>) -> (r: Option<serde_json::Value>)
    ensures
        r == *metadata,
{
    match metadata {
        Some(value) => Some(value.clone()),
        None => None,
    }
}

impl Clone for Refund {
    fn clone(&self) -> (r: Self)
        ensures
            r == *self,
    {
        Refund {
            id: self.id,
            internal_reference_id: self.internal_reference_id.clone(),
            refund_id: self.refund_id.clone(),
            payment_id: self.payment_id.clone(),
            merchant_id: self.merchant_id.clone(),
            transaction_id: self.transaction_id.clone(),
            connector: self.connector.clone(),
            pg_refund_id: copy_text(&self.pg_refund_id),
            external_reference_id: copy_text(&self.external_reference_id),
            refund_type: self.refund_type,
            total_amount: self.total_amount,
            currency: self.currency,
            refund_amount: self.refund_amount,
            refund_status: self.refund_status,
            sent_to_gateway: self.sent_to_gateway,
            refund_error_message: copy_text(&self.refund_error_message),
            metadata: copy_metadata(&self.metadata),
            refund_arn: copy_text(&self.refund_arn),
            created_at: self.created_at,
            updated_at: self.updated_at,
            description: copy_text(&self.description),
        }
    }
}

impl Clone for RefundNew {
    fn clone(&self) -> (r: Self)
        ensures
            r == *self,
    {
        RefundNew {
            refund_id: self.refund_id.clone(),
            payment_id: self.payment_id.clone(),
            merchant_id: self.merchant_id.clone(),
            internal_reference_id: self.internal_reference_id.clone(),
            external_reference_id: copy_text(&self.external_reference_id),
            transaction_id: self.transaction_id.clone(),
            connector: self.connector.clone(),
            pg_refund_id: copy_text(&self.pg_refund_id),
            refund_type: self.refund_type,
            total_amount: self.total_amount,
            currency: self.currency,
            refund_amount: self.refund_amount,
            refund_status: self.refund_status,
            sent_to_gateway: self.sent_to_gateway,
            refund_error_message: copy_text(&self.refund_error_message),
            metadata: copy_metadata(&self.metadata),
            refund_arn: copy_text(&self.refund_arn),
            created_at: self.created_at,
            modified_at: self.modified_at,
            description: copy_text(&self.description),
        }
    }
}

impl Clone for RefundUpdateInternal {
    fn clone(&self) -> (r: Self)
        ensures
            r == *self,
    {
        RefundUpdateInternal {
            pg_refund_id: copy_text(&self.pg_refund_id),
            refund_status: self.refund_status,
            sent_to_gateway: self.sent_to_gateway,
            refund_error_message: copy_text(&self.refund_error_message),
            refund_arn: copy_text(&self.refund_arn),
            metadata: copy_metadata(&self.metadata),
        }
    }
}

impl RefundUpdateInternal {
    /// The change set that changes no column.
    pub open spec fn unchanged() -> RefundUpdateInternal {
        RefundUpdateInternal {
            pg_refund_id: None,
            refund_status: None,
            sent_to_gateway: None,
            refund_error_message: None,
            refund_arn: None,
            metadata: None,
        }
    }

    /// The change set of an update: each column that the update names is set,
    /// every other column is kept.
    pub open spec fn of_update(update: RefundUpdate) -> RefundUpdateInternal {
        match update {
            RefundUpdate::Update {
                pg_refund_id,
                refund_status,
                sent_to_gateway,
                refund_error_message,
                refund_arn,
            } => RefundUpdateInternal {
                pg_refund_id: Some(pg_refund_id),
                refund_status: Some(refund_status),
                sent_to_gateway: Some(sent_to_gateway),
                refund_error_message,
                refund_arn: Some(refund_arn),
                ..Self::unchanged()
            },
            RefundUpdate::MetadataUpdate { metadata } => RefundUpdateInternal {
                metadata,
                ..Self::unchanged()
            },
            RefundUpdate::StatusUpdate {
                pg_refund_id,
                sent_to_gateway,
                refund_status,
            } => RefundUpdateInternal {
                pg_refund_id,
                sent_to_gateway: Some(sent_to_gateway),
                refund_status: Some(refund_status),
                ..Self::unchanged()
            },
            RefundUpdate::ErrorUpdate {
                refund_status,
                refund_error_message,
            } => RefundUpdateInternal {
                refund_status,
                refund_error_message,
                ..Self::unchanged()
            },
        }
    }

    /// The refund that storage holds after the change set is written over
    /// `refund`.
    pub open spec fn applied_to(self, refund: Refund) -> Refund {
        Refund {
            pg_refund_id: if self.pg_refund_id is Some {
                self.pg_refund_id
            } else {
                refund.pg_refund_id
            },
            refund_status: if let Some(status) = self.refund_status {
                status
            } else {
                refund.refund_status
            },
            sent_to_gateway: if let Some(sent) = self.sent_to_gateway {
                sent
            } else {
                refund.sent_to_gateway
            },
            refund_error_message: if self.refund_error_message is Some {
                self.refund_error_message
            } else {
                refund.refund_error_message
            },
            refund_arn: if self.refund_arn is Some {
                self.refund_arn
            } else {
                refund.refund_arn
            },
            metadata: if self.metadata is Some {
                self.metadata
            } else {
                refund.metadata
            },
            ..refund
        }
    }

    /// Writes the change set over `refund`: the columns it names are replaced,
    /// the others stay.
    pub fn apply(self, refund: Refund) -> (r: Refund)
        ensures
            r == self.applied_to(refund),
    {
        let mut refund = refund;
        if self.pg_refund_id.is_some() {
            refund.pg_refund_id = self.pg_refund_id;
        }
        if let Some(status) = self.refund_status {
            refund.refund_status = status;
        }
        if let Some(sent) = self.sent_to_gateway {
            refund.sent_to_gateway = sent;
        }
        if self.refund_error_message.is_some() {
            refund.refund_error_message = self.refund_error_message;
        }
        if self.refund_arn.is_some() {
            refund.refund_arn = self.refund_arn;
        }
        if self.metadata.is_some() {
            refund.metadata = self.metadata;
        }
        refund
    }
}

impl From<RefundUpdate> for RefundUpdateInternal {
    fn from(refund_update: RefundUpdate) -> (r: Self) {
        match refund_update {
            RefundUpdate::Update {
                pg_refund_id,
                refund_status,
                sent_to_gateway,
                refund_error_message,
                refund_arn,
            } => RefundUpdateInternal {
                pg_refund_id: Some(pg_refund_id),
                refund_status: Some(refund_status),
                sent_to_gateway: Some(sent_to_gateway),
                refund_error_message,
                refund_arn: Some(refund_arn),
                metadata: None,
            },
            RefundUpdate::MetadataUpdate { metadata } => RefundUpdateInternal {
                pg_refund_id: None,
                refund_status: None,
                sent_to_gateway: None,
                refund_error_message: None,
                refund_arn: None,
                metadata,
            },
            RefundUpdate::StatusUpdate {
                pg_refund_id,
                sent_to_gateway,
                refund_status,
            } => RefundUpdateInternal {
                pg_refund_id,
                refund_status: Some(refund_status),
                sent_to_gateway: Some(sent_to_gateway),
                refund_error_message: None,
                refund_arn: None,
                metadata: None,
            },
            RefundUpdate::ErrorUpdate {
                refund_status,
                refund_error_message,
            } => RefundUpdateInternal {
                pg_refund_id: None,
                refund_status,
                sent_to_gateway: None,
                refund_error_message,
                refund_arn: None,
                metadata: None,
            },
        }
    }
}

impl FromSpecImpl<RefundUpdate> for RefundUpdateInternal {
    open spec fn obeys_from_spec() -> bool {
        true
    }

    open spec fn from_spec(refund_update: RefundUpdate) -> Self {
        Self::of_update(refund_update)
    }
}

/// What the refund workflow keeps between its steps to find a refund again.
#[derive(Clone, Debug, PartialEq, Eq)]
pub struct RefundCoreWorkflow {
    pub refund_internal_reference_id: String,
    pub transaction_id: String,
    pub merchant_id: String,
    pub payment_id: String,
}

} // verus!
