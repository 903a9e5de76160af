//! Sentinel values shared by the adapters.

use vstd::prelude::*;

verus! {

/// Stands for the code of an acquirer error that gave none.
pub const NO_ERROR_CODE: &'static str = "NO_ERROR_CODE";

/// Stands for the message of an acquirer error that gave none.
pub const NO_ERROR_MESSAGE: &'static str = "NO_ERROR_MESSAGE";

} // verus!
