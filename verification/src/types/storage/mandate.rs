//! Mandates: stored authorisations to debit a customer later.

use crate::errors::{DatabaseError, StorageError};
use crate::types::storage::enums::{Currency, MandateStatus, MandateType};
use crate::utils::text::copy_text;
use time::PrimitiveDateTime;
use vstd::prelude::*;
use vstd::std_specs::convert::FromSpecImpl;

verus! {

/// A mandate as storage holds it: one per merchant and mandate id.
#[derive(Debug, PartialEq, Eq)]
pub struct Mandate {
    pub id: i32,
    pub mandate_id: String,
    pub customer_id: String,
    pub merchant_id: String,
    pub payment_method_id: String,
    pub mandate_status: MandateStatus,
    pub mandate_type: MandateType,
    pub network_transaction_id: Option<String>,
    pub previous_transaction_id: Option<String>,
    /// The most that may be debited, in minor units.
    pub mandate_amount: Option<i64>,
    pub mandate_currency: Option<Currency>,
    /// What has been debited so far, in minor units.
    pub amount_captured: Option<i64>,
    pub connector: String,
    pub connector_mandate_id: Option<String>,
    pub created_at: PrimitiveDateTime,
}

/// What storage needs to create a mandate.
#[derive(Debug, PartialEq, Eq)]
pub struct MandateNew {
    pub mandate_id: String,
    pub customer_id: String,
    pub merchant_id: String,
    pub payment_method_id: String,
    pub mandate_status: MandateStatus,
    pub mandate_type: MandateType,
    pub network_transaction_id: Option<String>,
    pub previous_transaction_id: Option<String>,
    pub mandate_amount: Option<i64>,
    pub mandate_currency: Option<Currency>,
    pub amount_captured: Option<i64>,
    pub connector: String,
    pub connector_mandate_id: Option<String>,
    pub created_at: Option<PrimitiveDateTime>,
}

/// The changes that the pipeline makes to a stored mandate.
#[derive(Clone, Debug, PartialEq, Eq)]
pub enum MandateUpdate {
    StatusUpdate { mandate_status: MandateStatus },
    CaptureAmountUpdate { amount_captured: Option<i64> },
    ConnectorReferenceUpdate { connector_mandate_id: Option<String> },
}

/// A change set: a column with `None` keeps its stored value.
#[derive(Clone, Debug, PartialEq, Eq)]
pub struct MandateUpdateInternal {
    pub mandate_status: Option<MandateStatus>,
    pub amount_captured: Option<i64>,
    pub connector_mandate_id: Option<String>,
}

impl Clone for Mandate {
    fn clone(&self) -> (r: Self)
        ensures
            r == *self,
    {
        Mandate {
            id: self.id,
            mandate_id: self.mandate_id.clone(),
            customer_id: self.customer_id.clone(),
            merchant_id: self.merchant_id.clone(),
            payment_method_id: self.payment_method_id.clone(),
            mandate_status: self.mandate_status,
            mandate_type: self.mandate_type,
            network_transaction_id: copy_text(&self.network_transaction_id),
            previous_transaction_id: copy_text(&self.previous_transaction_id),
            mandate_amount: self.mandate_amount,
            mandate_currency: self.mandate_currency,
            amount_captured: self.amount_captured,
            connector: self.connector.clone(),
            connector_mandate_id: copy_text(&self.connector_mandate_id),
            created_at: self.created_at,
        }
    }
}

impl Clone for MandateNew {
    fn clone(&self) -> (r: Self)
        ensures
            r == *self,
    {
        MandateNew {
            mandate_id: self.mandate_id.clone(),
            customer_id: self.customer_id.clone(),
            merchant_id: self.merchant_id.clone(),
            payment_method_id: self.payment_method_id.clone(),
            mandate_status: self.mandate_status,
            mandate_type: self.mandate_type,
            network_transaction_id: copy_text(&self.network_transaction_id),
            previous_transaction_id: copy_text(&self.previous_transaction_id),
            mandate_amount: self.mandate_amount,
            mandate_currency: self.mandate_currency,
            amount_captured: self.amount_captured,
            connector: self.connector.clone(),
            connector_mandate_id: copy_text(&self.connector_mandate_id),
            created_at: self.created_at,
        }
    }
}

impl MandateUpdateInternal {
    /// The change set of an update: the column that the update names is set,
    /// every other column is kept.
    pub open spec fn of_update(update: MandateUpdate) -> MandateUpdateInternal {
        match update {
            MandateUpdate::StatusUpdate { mandate_status } => MandateUpdateInternal {
                mandate_status: Some(mandate_status),
                amount_captured: None,
                connector_mandate_id: None,
            },
            MandateUpdate::CaptureAmountUpdate { amount_captured } => MandateUpdateInternal {
                mandate_status: None,
                amount_captured,
                connector_mandate_id: None,
            },
            MandateUpdate::ConnectorReferenceUpdate {
                connector_mandate_id,
            } => MandateUpdateInternal {
                mandate_status: None,
                amount_captured: None,
                connector_mandate_id,
            },
        }
    }

    /// The mandate that storage holds after the change set is written over
    /// `mandate`.
    pub open spec fn applied_to(self, mandate: Mandate) -> Mandate {
        Mandate {
            mandate_status: if let Some(status) = self.mandate_status {
                status
            } else {
                mandate.mandate_status
            },
            amount_captured: if self.amount_captured is Some {
                self.amount_captured
            } else {
                mandate.amount_captured
            },
            connector_mandate_id: if self.connector_mandate_id is Some {
                self.connector_mandate_id
            } else {
                mandate.connector_mandate_id
            },
            ..mandate
        }
    }

    /// Writes the change set over `mandate`: the columns it names are
    /// replaced, the others stay.
    pub fn apply(self, mandate: Mandate) -> (r: Mandate)
        ensures
            r == self.applied_to(mandate),
    {
        let mut mandate = mandate;
        if let Some(status) = self.mandate_status {
            mandate.mandate_status = status;
        }
        if self.amount_captured.is_some() {
            mandate.amount_captured = self.amount_captured;
        }
        if self.connector_mandate_id.is_some() {
            mandate.connector_mandate_id = self.connector_mandate_id;
        }
        mandate
    }
}

impl From<MandateUpdate> for MandateUpdateInternal {
    fn from(mandate_update: MandateUpdate) -> (r: Self) {
        match mandate_update {
            MandateUpdate::StatusUpdate { mandate_status } => MandateUpdateInternal {
                mandate_status: Some(mandate_status),
                amount_captured: None,
                connector_mandate_id: None,
            },
            MandateUpdate::CaptureAmountUpdate { amount_captured } => MandateUpdateInternal {
                mandate_status: None,
                amount_captured,
                connector_mandate_id: None,
            },
            MandateUpdate::ConnectorReferenceUpdate {
                connector_mandate_id,
            } => MandateUpdateInternal {
                mandate_status: None,
                amount_captured: None,
                connector_mandate_id,
            },
        }
    }
}

impl FromSpecImpl<MandateUpdate> for MandateUpdateInternal {
    open spec fn obeys_from_spec() -> bool {
        true
    }

    open spec fn from_spec(mandate_update: MandateUpdate) -> Self {
        Self::of_update(mandate_update)
    }
}

impl Mandate {
    /// What the update of the mandate of a merchant gives its caller, from the
    /// rows that storage returned as updated: the first of them, and
    /// `NotFound` where storage updated none.
    pub fn update_by_merchant_id_mandate_id(updated: Vec<Mandate>) -> (r: Result<
        Mandate,
        StorageError,
    >)
        ensures
            updated@.len() > 0 ==> r == Ok::<Mandate, StorageError>(updated@[0]),
            updated@.len() == 0 ==> r == Err::<Mandate, StorageError>(
                StorageError::DatabaseError(DatabaseError::NotFound),
            ),
    {
        let mut updated = updated;
        if updated.len() > 0 {
            Ok(updated.swap_remove(0))
        } else {
            Err(StorageError::DatabaseError(DatabaseError::NotFound))
        }
    }
}

} // verus!
