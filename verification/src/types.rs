//! Data carried between the pipeline, the adapters and storage.

use crate::payments::PaymentAddress;
use crate::types::api::{
    Authorize, Capture, Execute, PSync, PaymentMethod, RSync, Verify, Void,
};
use crate::types::storage::enums::{
    AttemptStatus, AuthenticationType, CaptureMethod, Currency, PaymentMethodType, RefundStatus,
};
use crate::utils::text::text_is;
use bytes::Bytes;
use std::marker::PhantomData;
use vstd::prelude::*;

pub mod api;
pub mod storage;

verus! {

/// A buffer of bytes as the HTTP client hands it over.
#[verifier::external_type_specification]
#[verifier::external_body]
pub struct ExBytes(Bytes);

/// The bytes that a buffer holds, in order.
pub uninterp spec fn bytes_content(buffer: Bytes) -> Seq<u8>;

/// Copies the content of a `Bytes` buffer with `to_vec` of the slice that it
/// dereferences to. The contract names what the buffer holds
/// [`bytes_content`] and claims that the copy holds the same.
#[verifier::external_body]
pub(crate) fn bytes_to_vec(buffer: &Bytes) -> (r: Vec<u8>)
    ensures
        r@ == bytes_content(*buffer),
{
    buffer.to_vec()
}

/// How a merchant authenticates with a connector.
#[derive(Clone, Debug, PartialEq, Eq)]
pub enum ConnectorAuthType {
    HeaderKey { api_key: String },
    BodyKey { api_key: String, key1: String },
}

/// The mathematical value of a [`ConnectorAuthType`].
pub enum ConnectorAuth {
    HeaderKey { api_key: Seq<char> },
    BodyKey { api_key: Seq<char>, key1: Seq<char> },
}

impl View for ConnectorAuthType {
    type V = ConnectorAuth;

    open spec fn view(&self) -> ConnectorAuth {
        match *self {
            ConnectorAuthType::HeaderKey { api_key } => ConnectorAuth::HeaderKey {
                api_key: api_key@,
            },
            ConnectorAuthType::BodyKey { api_key, key1 } => ConnectorAuth::BodyKey {
                api_key: api_key@,
                key1: key1@,
            },
        }
    }
}

/// What an acquirer said of a request that it refused.
#[derive(Clone, Debug, PartialEq, Eq)]
pub struct ErrorResponse {
    pub code: String,
    pub message: String,
    pub reason: Option<String>,
}

/// The mathematical value of an [`ErrorResponse`].
pub struct ErrorResponseView {
    pub code: Seq<char>,
    pub message: Seq<char>,
    pub reason: Option<Seq<char>>,
}

impl View for ErrorResponse {
    type V = ErrorResponseView;

    open spec fn view(&self) -> ErrorResponseView {
        ErrorResponseView {
            code: self.code@,
            message: self.message@,
            reason: match self.reason {
                Some(reason) => Some(reason@),
                None => None,
            },
        }
    }
}

/// The answer of an acquirer as it came.
#[derive(Debug, PartialEq, Eq)]
pub struct Response {
    pub response: Bytes,
    pub status_code: u16,
}

/// Where one connector is reached.
#[derive(Clone, Debug, PartialEq, Eq)]
pub struct ConnectorParams {
    pub base_url: String,
}

/// The registry of the connectors, by adapter id. It does not change after
/// startup.
#[derive(Clone, Debug, PartialEq, Eq)]
pub struct Connectors {
    pub aci: ConnectorParams,
    pub adyen: ConnectorParams,
    pub authorizedotnet: ConnectorParams,
    pub checkout: ConnectorParams,
    pub stripe: ConnectorParams,
    pub worldpay: ConnectorParams,
}

/// The adapters that the registry knows.
#[derive(Clone, Copy, Debug, PartialEq, Eq, Structural)]
pub enum Connector {
    Aci,
    Adyen,
    Authorizedotnet,
    Checkout,
    Stripe,
    Worldpay,
}

impl Connector {
    /// The id of the adapter: the key of its entry in the registry.
    pub open spec fn name(self) -> Seq<char> {
        match self {
            Connector::Aci => "aci"@,
            Connector::Adyen => "adyen"@,
            Connector::Authorizedotnet => "authorizedotnet"@,
            Connector::Checkout => "checkout"@,
            Connector::Stripe => "stripe"@,
            Connector::Worldpay => "worldpay"@,
        }
    }

    /// The adapter that an id names; `None` for an id that the registry does
    /// not know.
    pub open spec fn named(id: Seq<char>) -> Option<Connector> {
        if id == "aci"@ {
            Some(Connector::Aci)
        } else if id == "adyen"@ {
            Some(Connector::Adyen)
        } else if id == "authorizedotnet"@ {
            Some(Connector::Authorizedotnet)
        } else if id == "checkout"@ {
            Some(Connector::Checkout)
        } else if id == "stripe"@ {
            Some(Connector::Stripe)
        } else if id == "worldpay"@ {
            Some(Connector::Worldpay)
        } else {
            None
        }
    }

    /// The id of the adapter.
    pub fn id(self) -> (r: &'static str)
        ensures
            r@ == self.name(),
    {
        match self {
            Connector::Aci => "aci",
            Connector::Adyen => "adyen",
            Connector::Authorizedotnet => "authorizedotnet",
            Connector::Checkout => "checkout",
            Connector::Stripe => "stripe",
            Connector::Worldpay => "worldpay",
        }
    }

    /// The adapter that an id names.
    pub fn from_id(id: &str) -> (r: Option<Connector>)
        ensures
            r == Self::named(id@),
    {
        let id = String::from_str(id);
        if text_is(&id, "aci") {
            Some(Connector::Aci)
        } else if text_is(&id, "adyen") {
            Some(Connector::Adyen)
        } else if text_is(&id, "authorizedotnet") {
            Some(Connector::Authorizedotnet)
        } else if text_is(&id, "checkout") {
            Some(Connector::Checkout)
        } else if text_is(&id, "stripe") {
            Some(Connector::Stripe)
        } else if text_is(&id, "worldpay") {
            Some(Connector::Worldpay)
        } else {
            None
        }
    }
}

impl Connectors {
    /// The entry of an adapter in the registry.
    pub open spec fn entry(self, connector: Connector) -> ConnectorParams {
        match connector {
            Connector::Aci => self.aci,
            Connector::Adyen => self.adyen,
            Connector::Authorizedotnet => self.authorizedotnet,
            Connector::Checkout => self.checkout,
            Connector::Stripe => self.stripe,
            Connector::Worldpay => self.worldpay,
        }
    }

    /// Looks the entry of an adapter up.
    pub fn get(&self, connector: Connector) -> (r: &ConnectorParams)
        ensures
            *r == self.entry(connector),
    {
        match connector {
            Connector::Aci => &self.aci,
            Connector::Adyen => &self.adyen,
            Connector::Authorizedotnet => &self.authorizedotnet,
            Connector::Checkout => &self.checkout,
            Connector::Stripe => &self.stripe,
            Connector::Worldpay => &self.worldpay,
        }
    }
}

/// An adapter is found again by its id.
pub proof fn connector_id_names_the_connector(connector: Connector)
    ensures
        Connector::named(connector.name()) == Some(connector),
{
    reveal_strlit("aci");
    reveal_strlit("adyen");
    reveal_strlit("authorizedotnet");
    reveal_strlit("checkout");
    reveal_strlit("stripe");
    reveal_strlit("worldpay");
    assert("aci"@.len() == 3 && "adyen"@.len() == 5 && "authorizedotnet"@.len() == 15);
    assert("checkout"@.len() == 8 && "stripe"@.len() == 6 && "worldpay"@.len() == 8);
    assert("checkout"@[0] == 'c' && "worldpay"@[0] == 'w');
}

/// The envelope of one call to a connector: who calls, the request of the
/// flow, and the response once there is one.
#[derive(Debug)]
pub struct RouterData<Flow, Request, Response> {
    pub flow: PhantomData<Flow>,
    pub merchant_id: String,
    pub connector: String,
    pub payment_id: String,
    pub status: AttemptStatus,
    pub payment_method: PaymentMethodType,
    pub connector_auth_type: ConnectorAuthType,
    pub description: Option<String>,
    pub return_url: Option<String>,
    pub orca_return_url: Option<String>,
    pub address: PaymentAddress,
    pub auth_type: AuthenticationType,
    pub request: Request,
    pub response: Result<Response, ErrorResponse>,
    pub payment_method_id: Option<String>,
}

impl<Flow, Request, Response> RouterData<Flow, Request, Response> {
    /// Two envelopes are of the same call where they differ at most in the
    /// status and in the response.
    pub open spec fn same_call_as(self, other: RouterData<Flow, Request, Response>) -> bool {
        &&& self.merchant_id == other.merchant_id
        &&& self.connector == other.connector
        &&& self.payment_id == other.payment_id
        &&& self.payment_method == other.payment_method
        &&& self.connector_auth_type == other.connector_auth_type
        &&& self.description == other.description
        &&& self.return_url == other.return_url
        &&& self.orca_return_url == other.orca_return_url
        &&& self.address == other.address
        &&& self.auth_type == other.auth_type
        &&& self.request == other.request
        &&& self.payment_method_id == other.payment_method_id
    }
}

/// What an authorization asks of the acquirer.
#[derive(Clone, Debug, PartialEq, Eq)]
pub struct PaymentsAuthorizeData {
    pub payment_method_data: PaymentMethod,
    /// In minor units.
    pub amount: i64,
    pub currency: Currency,
    pub confirm: bool,
    pub statement_descriptor_suffix: Option<String>,
    pub capture_method: Option<CaptureMethod>,
    pub setup_future_usage: Option<String>,
    pub mandate_id: Option<String>,
    pub off_session: Option<bool>,
}

/// What a capture asks of the acquirer.
#[derive(Clone, Debug, PartialEq, Eq)]
pub struct PaymentsCaptureData {
    /// In minor units; where absent, the acquirer captures what it authorised.
    pub amount_to_capture: Option<i64>,
    /// The acquirer's id of the payment; empty where there is none yet.
    pub connector_transaction_id: String,
}

/// What a payment sync asks of the acquirer.
#[derive(Clone, Debug, PartialEq, Eq)]
pub struct PaymentsSyncData {
    /// The acquirer's id of the payment; empty where there is none yet.
    pub connector_transaction_id: String,
    pub encoded_data: Option<String>,
}

/// What a void asks of the acquirer.
#[derive(Clone, Debug, PartialEq, Eq)]
pub struct PaymentsCancelData {
    /// The acquirer's id of the payment; empty where there is none yet.
    pub connector_transaction_id: String,
    pub cancellation_reason: Option<String>,
}

/// What the verification of a payment method asks of the acquirer.
#[derive(Clone, Debug, PartialEq, Eq)]
pub struct VerifyRequestData {
    pub payment_method_data: PaymentMethod,
    pub confirm: bool,
    pub statement_descriptor_suffix: Option<String>,
    pub mandate_id: Option<String>,
    pub setup_future_usage: Option<String>,
    pub off_session: Option<bool>,
}

/// What a refund asks of the acquirer.
#[derive(Clone, Debug, PartialEq, Eq)]
pub struct RefundsData {
    pub refund_id: String,
    pub payment_method_data: PaymentMethod,
    /// The acquirer's id of the payment that is refunded.
    pub connector_transaction_id: String,
    pub currency: Currency,
    /// The amount of the payment, in minor units.
    pub amount: i64,
    /// The amount to refund, in minor units.
    pub refund_amount: i64,
}

/// The id under which the acquirer knows a payment.
#[derive(Clone, Debug, PartialEq, Eq)]
pub enum ResponseId {
    ConnectorTransactionId(String),
    EncodedData(String),
}

impl ResponseId {
    /// The acquirer's id of the transaction, where the response names one.
    pub fn get_connector_transaction_id(&self) -> (r: Option<String>)
        ensures
            match *self {
                ResponseId::ConnectorTransactionId(id) => r == Some(id),
                ResponseId::EncodedData(_) => r is None,
            },
    {
        match self {
            ResponseId::ConnectorTransactionId(id) => Some(id.clone()),
            ResponseId::EncodedData(_) => None,
        }
    }
}

/// What an acquirer answered to a payment flow.
#[derive(Clone, Debug, PartialEq, Eq)]
pub struct PaymentsResponseData {
    pub resource_id: ResponseId,
    /// The payer has to be sent to the acquirer to authenticate.
    pub redirect: bool,
}

/// What an acquirer answered to a refund flow.
#[derive(Clone, Debug, PartialEq, Eq)]
pub struct RefundsResponseData {
    pub connector_refund_id: String,
    pub refund_status: RefundStatus,
}

pub type PaymentsAuthorizeRouterData = RouterData<
    Authorize,
    PaymentsAuthorizeData,
    PaymentsResponseData,
>;

pub type PaymentsCaptureRouterData = RouterData<Capture, PaymentsCaptureData, PaymentsResponseData>;

pub type PaymentsSyncRouterData = RouterData<PSync, PaymentsSyncData, PaymentsResponseData>;

pub type PaymentsCancelRouterData = RouterData<Void, PaymentsCancelData, PaymentsResponseData>;

pub type VerifyRouterData = RouterData<Verify, VerifyRequestData, PaymentsResponseData>;

pub type RefundsRouterData<F> = RouterData<F, RefundsData, RefundsResponseData>;

pub type RefundExecuteRouterData = RouterData<Execute, RefundsData, RefundsResponseData>;

pub type RefundSyncRouterData = RouterData<RSync, RefundsData, RefundsResponseData>;

} // verus!
