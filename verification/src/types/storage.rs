//! Persisted records and the enumerations stored with them.

use vstd::prelude::*;

pub mod address;
pub mod connector_response;
pub mod customer;
pub mod enums;
pub mod mandate;
pub mod merchant_account;
pub mod payment_attempt;
pub mod payment_intent;
pub mod refund;

verus! {

/// The calendar time that storage keeps with each record. The library carries
/// it and never reads it.
#[verifier::external_type_specification]
#[verifier::external_body]
pub struct ExPrimitiveDateTime(time::PrimitiveDateTime);

} // verus!
