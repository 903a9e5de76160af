//! Payment orchestration core of a multi-acquirer payments router.
//!
//! The crate holds the status state machines, the admissibility rules of the
//! payment flows, the connector-integration layer with its Stripe adapter, the
//! capture operation, the refund and mandate records, and the verification of
//! acquirer webhooks. Every function states its behaviour in a contract.

pub mod connector;
pub mod consts;
pub mod errors;
pub mod headers;
pub mod payments;
pub mod services;
pub mod types;
pub mod utils;
