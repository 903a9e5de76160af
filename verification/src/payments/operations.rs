//! The operations of the payment pipeline, one per flow.
//!
//! An operation decides; it never reaches storage itself. Where it needs a
//! record it names the lookup, and goes on when the caller hands the answer
//! of storage back.

use crate::errors::{ApiError, ApiErrorResponse};
use crate::payments::{PaymentData, PaymentDataView};
use crate::types::storage::address::Address;
use crate::types::storage::connector_response::ConnectorResponse;
use crate::types::storage::payment_attempt::PaymentAttempt;
use crate::types::storage::payment_intent::PaymentIntent;
use vstd::prelude::*;

pub mod payment_capture;

verus! {

/// A record that an operation asks storage for.
#[derive(Debug, PartialEq, Eq)]
pub enum TrackerLookup {
    PaymentIntent { payment_id: String, merchant_id: String },
    PaymentAttempt { payment_id: String, merchant_id: String },
    ConnectorResponse { payment_id: String, merchant_id: String, txn_id: String },
    Address { address_id: String },
}

/// The mathematical value of a [`TrackerLookup`].
pub enum LookupKey {
    PaymentIntent { payment_id: Seq<char>, merchant_id: Seq<char> },
    PaymentAttempt { payment_id: Seq<char>, merchant_id: Seq<char> },
    ConnectorResponse { payment_id: Seq<char>, merchant_id: Seq<char>, txn_id: Seq<char> },
    Address { address_id: Seq<char> },
}

impl View for TrackerLookup {
    type V = LookupKey;

    open spec fn view(&self) -> LookupKey {
        match *self {
            TrackerLookup::PaymentIntent { payment_id, merchant_id } => LookupKey::PaymentIntent {
                payment_id: payment_id@,
                merchant_id: merchant_id@,
            },
            TrackerLookup::PaymentAttempt {
                payment_id,
                merchant_id,
            } => LookupKey::PaymentAttempt { payment_id: payment_id@, merchant_id: merchant_id@ },
            TrackerLookup::ConnectorResponse {
                payment_id,
                merchant_id,
                txn_id,
            } => LookupKey::ConnectorResponse {
                payment_id: payment_id@,
                merchant_id: merchant_id@,
                txn_id: txn_id@,
            },
            TrackerLookup::Address { address_id } => LookupKey::Address { address_id: address_id@ },
        }
    }
}

/// A record that storage found.
#[derive(Debug, PartialEq, Eq)]
pub enum TrackerRecord {
    PaymentIntent(PaymentIntent),
    PaymentAttempt(PaymentAttempt),
    ConnectorResponse(ConnectorResponse),
    Address(Address),
}

/// Where the loading of the trackers stands after a step, `S` being the
/// operation's own account of what it has loaded.
#[derive(Debug)]
pub enum TrackerStep<F, S> {
    /// Storage is to answer `lookup`; the operation goes on from `stage`.
    Lookup { stage: S, lookup: TrackerLookup },
    /// Every tracker is loaded and the flow is admitted.
    Ready(PaymentData<F>),
    /// The flow is refused.
    Rejected(ApiErrorResponse),
}

/// The mathematical value of a [`TrackerStep`].
pub enum TrackerOutcome<S> {
    Lookup { stage: S, lookup: LookupKey },
    Ready(PaymentDataView),
    Rejected(ApiError),
}

impl<F, S> View for TrackerStep<F, S> {
    type V = TrackerOutcome<S>;

    open spec fn view(&self) -> TrackerOutcome<S> {
        match *self {
            TrackerStep::Lookup { stage, lookup } => TrackerOutcome::Lookup { stage, lookup: lookup@ },
            TrackerStep::Ready(payment_data) => TrackerOutcome::Ready(payment_data@),
            TrackerStep::Rejected(error) => TrackerOutcome::Rejected(error@),
        }
    }
}

} // verus!
