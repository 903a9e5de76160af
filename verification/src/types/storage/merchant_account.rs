//! The account of a merchant. The pipeline reads it and never changes it.

use vstd::prelude::*;

verus! {

#[derive(Clone, Debug, PartialEq, Eq)]
pub struct MerchantAccount {
    pub merchant_id: String,
    pub api_key: Option<String>,
    pub merchant_name: Option<String>,
    pub return_url: Option<String>,
    pub webhook_url: Option<String>,
    pub enable_payment_response_hash: bool,
    pub redirect_to_merchant_with_http_post: bool,
}

} // verus!
