//! The capture of an authorised payment.

use crate::errors::{ApiError, ApiErrorResponse, StorageError};
use crate::payments::helpers::{
    capture_amount_verdict, capture_attempt_amount_verdict, capture_method_verdict,
    capture_status_verdict, validate_amount_to_capture, validate_attempt_amount,
    validate_capture_method, validate_status,
};
use crate::payments::operations::{
    LookupKey, TrackerLookup, TrackerOutcome, TrackerRecord, TrackerStep,
};
use crate::payments::{PaymentAddress, PaymentData, PaymentDataView};
use crate::types::api::{MandateTxnType, PaymentIdType, PaymentsCaptureRequest};
use crate::types::storage::address::Address;
use crate::types::storage::connector_response::ConnectorResponse;
use crate::types::storage::customer::Customer;
use crate::types::storage::enums::{AttemptStatus, Currency, IntentStatus};
use crate::types::storage::merchant_account::MerchantAccount;
use crate::types::storage::payment_attempt::PaymentAttempt;
use crate::types::storage::payment_intent::PaymentIntent;
use crate::types::Connector;
use std::marker::PhantomData;
use vstd::prelude::*;

verus! {

/// The operation of the capture flow.
#[derive(Clone, Copy, Debug)]
pub struct PaymentCapture;

/// What the capture operation has loaded so far, and so which answer of
/// storage it waits for.
#[derive(Debug)]
pub enum CaptureStage {
    /// Waits for the intent.
    Intent,
    /// Waits for the attempt.
    Attempt { payment_intent: PaymentIntent },
    /// Waits for the stored answer of the connector.
    ConnectorResponse {
        payment_intent: PaymentIntent,
        payment_attempt: PaymentAttempt,
        currency: Currency,
    },
    /// Waits for the shipping address.
    Shipping {
        payment_intent: PaymentIntent,
        payment_attempt: PaymentAttempt,
        currency: Currency,
        connector_response: ConnectorResponse,
    },
    /// Waits for the billing address.
    Billing {
        payment_intent: PaymentIntent,
        payment_attempt: PaymentAttempt,
        currency: Currency,
        connector_response: ConnectorResponse,
        shipping: Option<Address>,
    },
}

/// What a storage failure becomes at the boundary of the pipeline.
pub open spec fn lookup_failure(error: StorageError) -> ApiError {
    if error.is_not_found() {
        ApiError::PaymentNotFound
    } else {
        ApiError::InternalServerError
    }
}

/// The attempt as the capture leaves it: an amount to capture that the
/// request gives replaces the stored one.
pub open spec fn attempt_for_capture(
    payment_attempt: PaymentAttempt,
    request: PaymentsCaptureRequest,
) -> PaymentAttempt {
    PaymentAttempt {
        amount_to_capture: if request.amount_to_capture is Some {
            request.amount_to_capture
        } else {
            payment_attempt.amount_to_capture
        },
        ..payment_attempt
    }
}

/// The working record of a capture whose trackers are all loaded.
pub open spec fn capture_data(
    payment_intent: PaymentIntent,
    payment_attempt: PaymentAttempt,
    currency: Currency,
    connector_response: ConnectorResponse,
    shipping: Option<Address>,
    billing: Option<Address>,
) -> PaymentDataView {
    PaymentDataView {
        payment_intent,
        payment_attempt,
        connector_response,
        amount: payment_attempt.amount,
        currency,
        mandate_id: None,
        setup_mandate: None,
        address: PaymentAddress { shipping, billing },
        token: None,
        confirm: None,
        force_sync: None,
        payment_method_data: None,
        refunds: Seq::empty(),
    }
}

/// The first rule of the capture flow that a loaded intent breaks.
pub open spec fn intent_verdict(payment_intent: PaymentIntent, request: PaymentsCaptureRequest)
    -> Result<(), ApiError> {
    if capture_status_verdict(payment_intent.status) is Err {
        capture_status_verdict(payment_intent.status)
    } else {
        capture_amount_verdict(payment_intent.amount, request.amount_to_capture)
    }
}

/// The first rule of the capture flow that a loaded attempt breaks: it names
/// a capture method, the method admits a capture, it names a currency, and
/// the amount to capture that it holds once the request is taken in is
/// positive, at most the amount of the intent and at most its own amount.
pub open spec fn attempt_verdict(
    intent_amount: i64,
    payment_attempt: PaymentAttempt,
    request: PaymentsCaptureRequest,
) -> Result<(), ApiError> {
    let amount_to_capture = attempt_for_capture(payment_attempt, request).amount_to_capture;
    match payment_attempt.capture_method {
        None => Err(ApiError::MissingRequiredField { name: "capture_method"@ }),
        Some(capture_method) => if capture_method_verdict(capture_method) is Err {
            capture_method_verdict(capture_method)
        } else if payment_attempt.currency is None {
            Err(ApiError::MissingRequiredField { name: "currency"@ })
        } else if capture_amount_verdict(intent_amount, amount_to_capture) is Err {
            capture_amount_verdict(intent_amount, amount_to_capture)
        } else {
            capture_attempt_amount_verdict(payment_attempt.amount, amount_to_capture)
        },
    }
}

/// What follows once the addresses before `billing` are settled.
pub open spec fn after_shipping(
    payment_intent: PaymentIntent,
    payment_attempt: PaymentAttempt,
    currency: Currency,
    connector_response: ConnectorResponse,
    shipping: Option<Address>,
) -> TrackerOutcome<CaptureStage> {
    match payment_intent.billing_address_id {
        Some(address_id) => TrackerOutcome::Lookup {
            stage: CaptureStage::Billing {
                payment_intent,
                payment_attempt,
                currency,
                connector_response,
                shipping,
            },
            lookup: LookupKey::Address { address_id: address_id@ },
        },
        None => TrackerOutcome::Ready(
            capture_data(
                payment_intent,
                payment_attempt,
                currency,
                connector_response,
                shipping,
                None,
            ),
        ),
    }
}

/// What follows once the connector's stored answer is loaded.
pub open spec fn after_connector_response(
    payment_intent: PaymentIntent,
    payment_attempt: PaymentAttempt,
    currency: Currency,
    connector_response: ConnectorResponse,
) -> TrackerOutcome<CaptureStage> {
    match payment_intent.shipping_address_id {
        Some(address_id) => TrackerOutcome::Lookup {
            stage: CaptureStage::Shipping {
                payment_intent,
                payment_attempt,
                currency,
                connector_response,
            },
            lookup: LookupKey::Address { address_id: address_id@ },
        },
        None => after_shipping(payment_intent, payment_attempt, currency, connector_response, None),
    }
}

impl PaymentCapture {
    /// The first step of the loading: the intent is asked for, by the id that
    /// the request named the payment with.
    pub open spec fn first_step(payment_id: PaymentIdType, merchant_id: Seq<char>)
        -> TrackerOutcome<CaptureStage> {
        match payment_id {
            PaymentIdType::PaymentIntentId(id) => TrackerOutcome::Lookup {
                stage: CaptureStage::Intent,
                lookup: LookupKey::PaymentIntent { payment_id: id@, merchant_id },
            },
            _ => TrackerOutcome::Rejected(ApiError::PaymentNotFound),
        }
    }

    /// The step that follows an answer of storage. A failure of storage ends
    /// the loading. A record of another kind than the one waited for is an
    /// internal error. Otherwise the record is checked against the rules of
    /// the capture flow and the next record is asked for; after the last, the
    /// working record is ready.
    pub open spec fn next_step(
        stage: CaptureStage,
        found: Result<TrackerRecord, StorageError>,
        request: PaymentsCaptureRequest,
    ) -> TrackerOutcome<CaptureStage> {
        match (stage, found) {
            (_, Err(error)) => TrackerOutcome::Rejected(lookup_failure(error)),
            (CaptureStage::Intent, Ok(TrackerRecord::PaymentIntent(payment_intent))) => {
                match intent_verdict(payment_intent, request) {
                    Err(error) => TrackerOutcome::Rejected(error),
                    Ok(_) => TrackerOutcome::Lookup {
                        stage: CaptureStage::Attempt { payment_intent },
                        lookup: LookupKey::PaymentAttempt {
                            payment_id: payment_intent.payment_id@,
                            merchant_id: payment_intent.merchant_id@,
                        },
                    },
                }
            },
            (
                CaptureStage::Attempt { payment_intent },
                Ok(TrackerRecord::PaymentAttempt(payment_attempt)),
            ) => {
                match attempt_verdict(payment_intent.amount, payment_attempt, request) {
                    Err(error) => TrackerOutcome::Rejected(error),
                    Ok(_) => TrackerOutcome::Lookup {
                        stage: CaptureStage::ConnectorResponse {
                            payment_intent,
                            payment_attempt: attempt_for_capture(payment_attempt, request),
                            currency: payment_attempt.currency->0,
                        },
                        lookup: LookupKey::ConnectorResponse {
                            payment_id: payment_attempt.payment_id@,
                            merchant_id: payment_attempt.merchant_id@,
                            txn_id: payment_attempt.txn_id@,
                        },
                    },
                }
            },
            (
                CaptureStage::ConnectorResponse { payment_intent, payment_attempt, currency },
                Ok(TrackerRecord::ConnectorResponse(connector_response)),
            ) => after_connector_response(
                payment_intent,
                payment_attempt,
                currency,
                connector_response,
            ),
            (
                CaptureStage::Shipping {
                    payment_intent,
                    payment_attempt,
                    currency,
                    connector_response,
                },
                Ok(TrackerRecord::Address(address)),
            ) => after_shipping(
                payment_intent,
                payment_attempt,
                currency,
                connector_response,
                Some(address),
            ),
            (
                CaptureStage::Billing {
                    payment_intent,
                    payment_attempt,
                    currency,
                    connector_response,
                    shipping,
                },
                Ok(TrackerRecord::Address(address)),
            ) => TrackerOutcome::Ready(
                capture_data(
                    payment_intent,
                    payment_attempt,
                    currency,
                    connector_response,
                    shipping,
                    Some(address),
                ),
            ),
            _ => TrackerOutcome::Rejected(ApiError::InternalServerError),
        }
    }

    /// Checks that the request names the payment to capture, and hands back
    /// the operation, the merchant, the payment id as an intent id, and no
    /// mandate.
    pub fn validate_request<'a>(
        &self,
        request: &PaymentsCaptureRequest,
        merchant_account: &'a MerchantAccount,
    ) -> (r: Result<
        (PaymentCapture, &'a str, PaymentIdType, Option<MandateTxnType>),
        ApiErrorResponse,
    >)
        ensures
            match r {
                Ok((_, merchant_id, payment_id, mandate_type)) => {
                    &&& request.payment_id matches Some(id)
                    &&& payment_id == PaymentIdType::PaymentIntentId(id)
                    &&& merchant_id@ == merchant_account.merchant_id@
                    &&& mandate_type is None
                },
                Err(error) => {
                    &&& request.payment_id is None
                    &&& error@ == (ApiError::MissingRequiredField { name: "payment_id"@ })
                },
            },
    {
        match &request.payment_id {
            Some(payment_id) => Ok(
                (
                    *self,
                    merchant_account.merchant_id.as_str(),
                    PaymentIdType::PaymentIntentId(payment_id.clone()),
                    None,
                ),
            ),
            None => Err(ApiErrorResponse::missing_required_field("payment_id")),
        }
    }

    /// Starts the loading of the trackers of a capture: asks for the intent of
    /// the payment, or refuses a payment that the request did not name by its
    /// intent id.
    pub fn get_trackers<F>(
        &self,
        payment_id: &PaymentIdType,
        merchant_id: &str,
        _connector: Connector,
        _mandate_type: Option<MandateTxnType>,
    ) -> (r: TrackerStep<F, CaptureStage>)
        ensures
            r@ == Self::first_step(*payment_id, merchant_id@),
    {
        match payment_id.get_payment_intent_id() {
            Ok(payment_id) => TrackerStep::Lookup {
                stage: CaptureStage::Intent,
                lookup: TrackerLookup::PaymentIntent {
                    payment_id,
                    merchant_id: String::from_str(merchant_id),
                },
            },
            Err(error) => TrackerStep::Rejected(error),
        }
    }

    /// Goes on with the loading once storage has answered the lookup that the
    /// step before asked for.
    pub fn continue_get_trackers<F>(
        &self,
        stage: CaptureStage,
        found: Result<TrackerRecord, StorageError>,
        request: &PaymentsCaptureRequest,
    ) -> (r: TrackerStep<F, CaptureStage>)
        ensures
            r@ == Self::next_step(stage, found, *request),
            stage is Attempt ==> (r matches TrackerStep::Lookup {
                stage: CaptureStage::ConnectorResponse { payment_attempt, .. },
                ..
            } ==> payment_attempt.well_formed()),
    {
        let record = match found {
            Ok(record) => record,
            Err(error) => {
                return TrackerStep::Rejected(
                    error.to_not_found_response(ApiErrorResponse::PaymentNotFound),
                );
            },
        };
        match (stage, record) {
            (CaptureStage::Intent, TrackerRecord::PaymentIntent(payment_intent)) => {
                if let Err(error) = validate_status(payment_intent.status) {
                    return TrackerStep::Rejected(error);
                }
                if let Err(error) = validate_amount_to_capture(
                    payment_intent.amount,
                    request.amount_to_capture,
                ) {
                    return TrackerStep::Rejected(error);
                }
                let lookup = TrackerLookup::PaymentAttempt {
                    payment_id: payment_intent.payment_id.clone(),
                    merchant_id: payment_intent.merchant_id.clone(),
                };
                TrackerStep::Lookup { stage: CaptureStage::Attempt { payment_intent }, lookup }
            },
            (
                CaptureStage::Attempt { payment_intent },
                TrackerRecord::PaymentAttempt(payment_attempt),
            ) => {
                let capture_method = match payment_attempt.capture_method {
                    Some(capture_method) => capture_method,
                    None => {
                        return TrackerStep::Rejected(
                            ApiErrorResponse::missing_required_field("capture_method"),
                        );
                    },
                };
                if let Err(error) = validate_capture_method(capture_method) {
                    return TrackerStep::Rejected(error);
                }
                let currency = match payment_attempt.currency {
                    Some(currency) => currency,
                    None => {
                        return TrackerStep::Rejected(
                            ApiErrorResponse::missing_required_field("currency"),
                        );
                    },
                };
                let lookup = TrackerLookup::ConnectorResponse {
                    payment_id: payment_attempt.payment_id.clone(),
                    merchant_id: payment_attempt.merchant_id.clone(),
                    txn_id: payment_attempt.txn_id.clone(),
                };
                let mut payment_attempt = payment_attempt;
                if request.amount_to_capture.is_some() {
                    payment_attempt.amount_to_capture = request.amount_to_capture;
                }
                if let Err(error) = validate_amount_to_capture(
                    payment_intent.amount,
                    payment_attempt.amount_to_capture,
                ) {
                    return TrackerStep::Rejected(error);
                }
                if let Err(error) = validate_attempt_amount(
                    payment_attempt.amount,
                    payment_attempt.amount_to_capture,
                ) {
                    return TrackerStep::Rejected(error);
                }
                TrackerStep::Lookup {
                    stage: CaptureStage::ConnectorResponse {
                        payment_intent,
                        payment_attempt,
                        currency,
                    },
                    lookup,
                }
            },
            (
                CaptureStage::ConnectorResponse { payment_intent, payment_attempt, currency },
                TrackerRecord::ConnectorResponse(connector_response),
            ) => {
                match &payment_intent.shipping_address_id {
                    Some(address_id) => {
                        let lookup = TrackerLookup::Address { address_id: address_id.clone() };
                        TrackerStep::Lookup {
                            stage: CaptureStage::Shipping {
                                payment_intent,
                                payment_attempt,
                                currency,
                                connector_response,
                            },
                            lookup,
                        }
                    },
                    None => Self::settle_billing(
                        payment_intent,
                        payment_attempt,
                        currency,
                        connector_response,
                        None,
                    ),
                }
            },
            (
                CaptureStage::Shipping {
                    payment_intent,
                    payment_attempt,
                    currency,
                    connector_response,
                },
                TrackerRecord::Address(address),
            ) => Self::settle_billing(
                payment_intent,
                payment_attempt,
                currency,
                connector_response,
                Some(address),
            ),
            (
                CaptureStage::Billing {
                    payment_intent,
                    payment_attempt,
                    currency,
                    connector_response,
                    shipping,
                },
                TrackerRecord::Address(address),
            ) => TrackerStep::Ready(
                Self::assemble(
                    payment_intent,
                    payment_attempt,
                    currency,
                    connector_response,
                    shipping,
                    Some(address),
                ),
            ),
            _ => TrackerStep::Rejected(ApiErrorResponse::InternalServerError),
        }
    }

    fn settle_billing<F>(
        payment_intent: PaymentIntent,
        payment_attempt: PaymentAttempt,
        currency: Currency,
        connector_response: ConnectorResponse,
        shipping: Option<Address>,
    ) -> (r: TrackerStep<F, CaptureStage>)
        ensures
            r@ == after_shipping(
                payment_intent,
                payment_attempt,
                currency,
                connector_response,
                shipping,
            ),
    {
        match &payment_intent.billing_address_id {
            Some(address_id) => {
                let lookup = TrackerLookup::Address { address_id: address_id.clone() };
                TrackerStep::Lookup {
                    stage: CaptureStage::Billing {
                        payment_intent,
                        payment_attempt,
                        currency,
                        connector_response,
                        shipping,
                    },
                    lookup,
                }
            },
            None => TrackerStep::Ready(
                Self::assemble(
                    payment_intent,
                    payment_attempt,
                    currency,
                    connector_response,
                    shipping,
                    None,
                ),
            ),
        }
    }

    fn assemble<F>(
        payment_intent: PaymentIntent,
        payment_attempt: PaymentAttempt,
        currency: Currency,
        connector_response: ConnectorResponse,
        shipping: Option<Address>,
        billing: Option<Address>,
    ) -> (r: PaymentData<F>)
        ensures
            r@ == capture_data(
                payment_intent,
                payment_attempt,
                currency,
                connector_response,
                shipping,
                billing,
            ),
    {
        let amount = payment_attempt.amount;
        PaymentData {
            flow: PhantomData,
            payment_intent,
            payment_attempt,
            connector_response,
            amount,
            currency,
            mandate_id: None,
            setup_mandate: None,
            address: PaymentAddress { shipping, billing },
            token: None,
            confirm: None,
            force_sync: None,
            payment_method_data: None,
            refunds: Vec::new(),
        }
    }

    /// The capture writes nothing back by itself: the working record passes
    /// through unchanged.
    pub fn update_trackers<F>(
        &self,
        _payment_id: &PaymentIdType,
        payment_data: PaymentData<F>,
        _customer: Option<Customer>,
    ) -> (r: (PaymentCapture, PaymentData<F>))
        ensures
            r.1 == payment_data,
    {
        (*self, payment_data)
    }
}

/// What storage holds of one payment, as far as a capture asks for it.
pub struct StoredPayment {
    pub payment_intent: Result<PaymentIntent, StorageError>,
    pub payment_attempt: Result<PaymentAttempt, StorageError>,
    pub connector_response: Result<ConnectorResponse, StorageError>,
    pub shipping: Result<Address, StorageError>,
    pub billing: Result<Address, StorageError>,
}

impl StoredPayment {
    /// The answer of storage to the lookup that `stage` waits for.
    pub open spec fn answer(self, stage: CaptureStage) -> Result<TrackerRecord, StorageError> {
        match stage {
            CaptureStage::Intent => match self.payment_intent {
                Ok(record) => Ok(TrackerRecord::PaymentIntent(record)),
                Err(error) => Err(error),
            },
            CaptureStage::Attempt { .. } => match self.payment_attempt {
                Ok(record) => Ok(TrackerRecord::PaymentAttempt(record)),
                Err(error) => Err(error),
            },
            CaptureStage::ConnectorResponse { .. } => match self.connector_response {
                Ok(record) => Ok(TrackerRecord::ConnectorResponse(record)),
                Err(error) => Err(error),
            },
            CaptureStage::Shipping { .. } => match self.shipping {
                Ok(record) => Ok(TrackerRecord::Address(record)),
                Err(error) => Err(error),
            },
            CaptureStage::Billing { .. } => match self.billing {
                Ok(record) => Ok(TrackerRecord::Address(record)),
                Err(error) => Err(error),
            },
        }
    }

    /// The address that a payment refers to by `address_id`, where it refers
    /// to one.
    pub open spec fn address(address_id: Option<String>, stored: Result<Address, StorageError>)
        -> Result<Option<Address>, ApiError> {
        match (address_id, stored) {
            (None, _) => Ok(None),
            (Some(_), Ok(address)) => Ok(Some(address)),
            (Some(_), Err(error)) => Err(lookup_failure(error)),
        }
    }

    /// The trackers of a capture, stated at once: the payment is named by its
    /// intent id; the intent is found and waits for capture; the amount to
    /// capture, if the request gives one, is positive and within the amount of
    /// the intent; the attempt is found, is captured manually and names its
    /// currency; the amount to capture that the attempt holds once the request
    /// is taken in is positive, within the amount of the intent and within
    /// the amount of the attempt; the connector's stored answer and the
    /// addresses that the intent refers to are found. The first of these to fail decides the
    /// error.
    pub open spec fn capture_trackers(
        self,
        payment_id: PaymentIdType,
        request: PaymentsCaptureRequest,
    ) -> Result<PaymentDataView, ApiError> {
        if !(payment_id is PaymentIntentId) {
            Err(ApiError::PaymentNotFound)
        } else {
            match (self.payment_intent, self.payment_attempt, self.connector_response) {
                (Err(error), _, _) => Err(lookup_failure(error)),
                (Ok(payment_intent), found_attempt, found_response) => {
                    match (intent_verdict(payment_intent, request), found_attempt) {
                        (Err(error), _) => Err(error),
                        (Ok(_), Err(error)) => Err(lookup_failure(error)),
                        (Ok(_), Ok(payment_attempt)) => {
                            match (
                                attempt_verdict(payment_intent.amount, payment_attempt, request),
                                found_response,
                            ) {
                                (Err(error), _) => Err(error),
                                (Ok(_), Err(error)) => Err(lookup_failure(error)),
                                (Ok(_), Ok(connector_response)) => {
                                    match (
                                        Self::address(
                                            payment_intent.shipping_address_id,
                                            self.shipping,
                                        ),
                                        Self::address(
                                            payment_intent.billing_address_id,
                                            self.billing,
                                        ),
                                    ) {
                                        (Err(error), _) => Err(error),
                                        (Ok(_), Err(error)) => Err(error),
                                        (Ok(shipping), Ok(billing)) => Ok(
                                            capture_data(
                                                payment_intent,
                                                attempt_for_capture(payment_attempt, request),
                                                payment_attempt.currency->0,
                                                connector_response,
                                                shipping,
                                                billing,
                                            ),
                                        ),
                                    }
                                },
                            }
                        },
                    }
                },
            }
        }
    }
}

/// The outcome of the loading when each lookup is answered from `stored`, at
/// most `steps` times.
pub open spec fn loaded(
    outcome: TrackerOutcome<CaptureStage>,
    stored: StoredPayment,
    request: PaymentsCaptureRequest,
    steps: nat,
) -> TrackerOutcome<CaptureStage>
    decreases steps,
{
    match outcome {
        TrackerOutcome::Lookup { stage, .. } if steps > 0 => loaded(
            PaymentCapture::next_step(stage, stored.answer(stage), request),
            stored,
            request,
            (steps - 1) as nat,
        ),
        _ => outcome,
    }
}

/// Loading the trackers step by step, each lookup answered by storage, ends
/// after at most five answers, and ends as [`StoredPayment::capture_trackers`]
/// says: with the working record where every rule of the capture flow holds,
/// and else with the error of the first rule that fails.
pub proof fn loading_ends_in_capture_trackers(
    payment_id: PaymentIdType,
    merchant_id: Seq<char>,
    request: PaymentsCaptureRequest,
    stored: StoredPayment,
)
    ensures
        loaded(PaymentCapture::first_step(payment_id, merchant_id), stored, request, 5) == (
        match stored.capture_trackers(payment_id, request) {
            Ok(payment_data) => TrackerOutcome::<CaptureStage>::Ready(payment_data),
            Err(error) => TrackerOutcome::<CaptureStage>::Rejected(error),
        }),
{
    reveal_with_fuel(loaded, 6);
}

/// A capture is only ever admitted within the amount of its intent and of
/// its attempt: the working record of an admitted capture holds an intent
/// that waits for capture and an attempt that obeys its invariant; an amount
/// to capture that the attempt holds is positive and at most the amount of
/// the intent; and the attempt is the stored one but for an amount to capture
/// that the request gave.
pub proof fn admitted_capture_is_within_the_intent(
    payment_id: PaymentIdType,
    request: PaymentsCaptureRequest,
    stored: StoredPayment,
)
    requires
        stored.capture_trackers(payment_id, request) is Ok,
    ensures
        ({
            let payment_data = stored.capture_trackers(payment_id, request)->Ok_0;
            &&& payment_data.payment_intent.status == IntentStatus::RequiresCapture
            &&& payment_data.payment_attempt.well_formed()
            &&& payment_data.payment_attempt.amount_to_capture matches Some(capture) ==> 0
                < capture <= payment_data.payment_intent.amount
            &&& request.amount_to_capture matches Some(capture)
                ==> payment_data.payment_attempt.amount_to_capture == Some(capture)
            &&& payment_data.payment_attempt == attempt_for_capture(
                stored.payment_attempt->Ok_0,
                request,
            )
        }),
{
}

/// A capture that asks for more than the amount of the stored attempt is
/// refused, whatever else holds.
pub proof fn a_capture_above_the_attempt_is_refused(
    payment_id: PaymentIdType,
    request: PaymentsCaptureRequest,
    stored: StoredPayment,
)
    requires
        stored.payment_attempt is Ok,
        request.amount_to_capture is Some,
        request.amount_to_capture->0 > (stored.payment_attempt->Ok_0).amount,
    ensures
        stored.capture_trackers(payment_id, request) is Err,
{
}

/// One capture of a payment, as the pipeline sees it: what the merchant asks,
/// the attempt that storage holds, and the status that the acquirer's answer
/// is projected to.
pub struct CaptureRound {
    pub request: PaymentsCaptureRequest,
    pub payment_attempt: PaymentAttempt,
    pub answer: AttemptStatus,
}

impl CaptureRound {
    /// The rules of the capture flow hold of the round, for an intent of the
    /// given status and amount.
    pub open spec fn admitted(self, status: IntentStatus, amount: i64) -> bool {
        &&& capture_status_verdict(status) is Ok
        &&& capture_amount_verdict(amount, self.request.amount_to_capture) is Ok
        &&& attempt_verdict(amount, self.payment_attempt, self.request) is Ok
    }

    /// The status of the attempt after the round.
    pub open spec fn attempt_status(self) -> AttemptStatus {
        self.payment_attempt.status.reconciled(self.answer)
    }

    /// The amount that the acquirer was asked to capture: what the attempt
    /// holds once the request is taken in, and the whole amount where it holds
    /// nothing.
    pub open spec fn asked(self, amount: i64) -> int {
        match attempt_for_capture(self.payment_attempt, self.request).amount_to_capture {
            Some(capture) => capture as int,
            None => amount as int,
        }
    }
}

/// The sum of the amounts captured by the successful rounds among `rounds`,
/// run in order against an intent of the given status and amount. A round
/// that is not admitted changes nothing. An admitted round projects the status
/// of its attempt onto the intent, and is successful where that status is
/// `Charged`.
pub open spec fn total_captured(status: IntentStatus, amount: i64, rounds: Seq<CaptureRound>)
    -> int
    decreases rounds.len(),
{
    if rounds.len() == 0 {
        0
    } else if !rounds[0].admitted(status, amount) {
        total_captured(status, amount, rounds.drop_first())
    } else {
        let captured = if rounds[0].attempt_status() == AttemptStatus::Charged {
            rounds[0].asked(amount)
        } else {
            0
        };
        captured + total_captured(
            status.followed(rounds[0].attempt_status()),
            amount,
            rounds.drop_first(),
        )
    }
}

/// Once an intent has left `RequiresCapture` for a terminal status, no
/// capture is admitted and nothing more is captured.
pub proof fn nothing_is_captured_after_a_terminal_status(
    status: IntentStatus,
    amount: i64,
    rounds: Seq<CaptureRound>,
)
    requires
        status.is_terminal(),
    ensures
        total_captured(status, amount, rounds) == 0,
    decreases rounds.len(),
{
    if rounds.len() > 0 {
        nothing_is_captured_after_a_terminal_status(status, amount, rounds.drop_first());
    }
}

/// Amounts are not inflated: whatever captures are asked for, whatever the
/// attempts hold and whatever the acquirer answers, the successful captures
/// of an intent sum to at most the amount of the intent.
pub proof fn captures_never_exceed_the_intent(
    status: IntentStatus,
    amount: i64,
    rounds: Seq<CaptureRound>,
)
    requires
        0 <= amount,
    ensures
        total_captured(status, amount, rounds) <= amount,
    decreases rounds.len(),
{
    if rounds.len() > 0 {
        let rest = rounds.drop_first();
        if rounds[0].admitted(status, amount) {
            let next = status.followed(rounds[0].attempt_status());
            if rounds[0].attempt_status() == AttemptStatus::Charged {
                nothing_is_captured_after_a_terminal_status(next, amount, rest);
            } else {
                captures_never_exceed_the_intent(next, amount, rest);
            }
        } else {
            captures_never_exceed_the_intent(status, amount, rest);
        }
    }
}

} // verus!
