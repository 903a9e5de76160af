//! The adapters, one per acquirer.

pub mod stripe;
