use router::errors::{ApiErrorResponse, DatabaseError, StorageError};
use router::payments::operations::payment_capture::{CaptureStage, PaymentCapture};
use router::payments::operations::{TrackerLookup, TrackerRecord, TrackerStep};
use router::payments::PaymentData;
use router::types::api::{Capture, MandateTxnType, PaymentIdType, PaymentsCaptureRequest};
use router::types::storage::address::Address;
use router::types::storage::connector_response::ConnectorResponse;
use router::types::storage::enums::{
    AttemptStatus, AuthenticationType, CaptureMethod, Currency, IntentStatus, PaymentMethodType,
};
use router::types::storage::merchant_account::MerchantAccount;
use router::types::storage::payment_attempt::PaymentAttempt;
use router::types::storage::payment_intent::PaymentIntent;
use router::types::Connector;

type Step = TrackerStep<Capture, CaptureStage>;

fn capture_intent() -> PaymentIntent {
    PaymentIntent {
        payment_id: "pay_1".to_string(),
        merchant_id: "M1".to_string(),
        status: IntentStatus::RequiresCapture,
        amount: 1000,
        currency: Some(Currency::USD),
        shipping_address_id: Some("addr_ship".to_string()),
        billing_address_id: Some("addr_bill".to_string()),
        created_at: time::PrimitiveDateTime::MIN,
        modified_at: time::PrimitiveDateTime::MIN,
    }
}

fn capture_attempt() -> PaymentAttempt {
    PaymentAttempt {
        payment_id: "pay_1".to_string(),
        merchant_id: "M1".to_string(),
        txn_id: "txn_1".to_string(),
        connector_transaction_id: Some("pi_abc".to_string()),
        status: AttemptStatus::Authorized,
        amount: 1000,
        currency: Some(Currency::USD),
        capture_method: Some(CaptureMethod::Manual),
        amount_to_capture: None,
        payment_method: Some(PaymentMethodType::Card),
        authentication_type: Some(AuthenticationType::NoThreeDs),
        error_message: None,
        created_at: time::PrimitiveDateTime::MIN,
        modified_at: time::PrimitiveDateTime::MIN,
    }
}

fn capture_connector_response() -> ConnectorResponse {
    ConnectorResponse {
        payment_id: "pay_1".to_string(),
        merchant_id: "M1".to_string(),
        txn_id: "txn_1".to_string(),
        connector_name: "stripe".to_string(),
        connector_transaction_id: Some("pi_abc".to_string()),
        authentication_data: None,
        encoded_data: None,
        created_at: time::PrimitiveDateTime::MIN,
    }
}

fn capture_address(id: &str) -> Address {
    Address {
        address_id: id.to_string(),
        city: Some("Zurich".to_string()),
        country: Some("CH".to_string()),
        line1: None,
        line2: None,
        line3: None,
        state: None,
        zip: None,
        first_name: None,
        last_name: None,
        phone_number: None,
        country_code: None,
    }
}

fn capture_request(amount_to_capture: Option<i64>) -> PaymentsCaptureRequest {
    PaymentsCaptureRequest {
        payment_id: Some("pay_1".to_string()),
        merchant_id: Some("M1".to_string()),
        amount_to_capture,
        refund_uncaptured_amount: None,
        statement_descriptor_suffix: None,
        statement_descriptor_prefix: None,
    }
}

fn expect_lookup(step: Step) -> (CaptureStage, TrackerLookup) {
    match step {
        TrackerStep::Lookup { stage, lookup } => (stage, lookup),
        other => panic!("expected a lookup, got {other:?}"),
    }
}

fn expect_ready(step: Step) -> PaymentData<Capture> {
    match step {
        TrackerStep::Ready(payment_data) => payment_data,
        other => panic!("expected the working record, got {other:?}"),
    }
}

fn expect_rejected(step: Step) -> ApiErrorResponse {
    match step {
        TrackerStep::Rejected(error) => error,
        other => panic!("expected a rejection, got {other:?}"),
    }
}

fn load_up_to_attempt(
    intent: PaymentIntent,
    request: &PaymentsCaptureRequest,
) -> (CaptureStage, TrackerLookup) {
    let operation = PaymentCapture;
    let first: Step =
        operation.get_trackers(&PaymentIdType::PaymentIntentId("pay_1".to_string()), "M1", Connector::Stripe, None);
    let (stage, _) = expect_lookup(first);
    expect_lookup(operation.continue_get_trackers(
        stage,
        Ok(TrackerRecord::PaymentIntent(intent)),
        request,
    ))
}

#[test]
fn validate_request_names_the_payment_by_its_intent_id() {
    let merchant = MerchantAccount {
        merchant_id: "M1".to_string(),
        api_key: None,
        merchant_name: None,
        return_url: None,
        webhook_url: None,
        enable_payment_response_hash: false,
        redirect_to_merchant_with_http_post: false,
    };
    let (_, merchant_id, payment_id, mandate_type) =
        PaymentCapture.validate_request(&capture_request(Some(1000)), &merchant).unwrap();
    assert_eq!(merchant_id, "M1");
    assert_eq!(payment_id, PaymentIdType::PaymentIntentId("pay_1".to_string()));
    assert_eq!(mandate_type, None::<MandateTxnType>);

    let mut unnamed = capture_request(None);
    unnamed.payment_id = None;
    assert_eq!(
        PaymentCapture.validate_request(&unnamed, &merchant).err(),
        Some(ApiErrorResponse::MissingRequiredField { name: "payment_id".to_string() })
    );
}

#[test]
fn get_trackers_asks_for_the_intent_first() {
    let first: Step =
        PaymentCapture.get_trackers(&PaymentIdType::PaymentIntentId("pay_1".to_string()), "M1", Connector::Stripe, None);
    let (stage, lookup) = expect_lookup(first);
    assert!(matches!(stage, CaptureStage::Intent));
    assert_eq!(
        lookup,
        TrackerLookup::PaymentIntent {
            payment_id: "pay_1".to_string(),
            merchant_id: "M1".to_string()
        }
    );
}

#[test]
fn get_trackers_refuses_a_payment_named_otherwise() {
    let by_connector: Step = PaymentCapture
        .get_trackers(&PaymentIdType::ConnectorTransactionId("pi_abc".to_string()), "M1", Connector::Stripe, None);
    assert_eq!(expect_rejected(by_connector), ApiErrorResponse::PaymentNotFound);
    let by_txn: Step =
        PaymentCapture.get_trackers(&PaymentIdType::PaymentTxnId("txn_1".to_string()), "M1", Connector::Stripe, None);
    assert_eq!(expect_rejected(by_txn), ApiErrorResponse::PaymentNotFound);
    assert_eq!(
        PaymentIdType::PaymentIntentId("pay_1".to_string()).get_payment_intent_id(),
        Ok("pay_1".to_string())
    );
}

#[test]
fn get_trackers_loads_every_tracker_in_order() {
    let operation = PaymentCapture;
    let request = capture_request(Some(600));
    let (stage, lookup) = load_up_to_attempt(capture_intent(), &request);
    assert_eq!(
        lookup,
        TrackerLookup::PaymentAttempt {
            payment_id: "pay_1".to_string(),
            merchant_id: "M1".to_string()
        }
    );
    let (stage, lookup) = expect_lookup(operation.continue_get_trackers(
        stage,
        Ok(TrackerRecord::PaymentAttempt(capture_attempt())),
        &request,
    ));
    assert_eq!(
        lookup,
        TrackerLookup::ConnectorResponse {
            payment_id: "pay_1".to_string(),
            merchant_id: "M1".to_string(),
            txn_id: "txn_1".to_string()
        }
    );
    let (stage, lookup) = expect_lookup(operation.continue_get_trackers(
        stage,
        Ok(TrackerRecord::ConnectorResponse(capture_connector_response())),
        &request,
    ));
    assert_eq!(lookup, TrackerLookup::Address { address_id: "addr_ship".to_string() });
    let (stage, lookup) = expect_lookup(operation.continue_get_trackers(
        stage,
        Ok(TrackerRecord::Address(capture_address("addr_ship"))),
        &request,
    ));
    assert_eq!(lookup, TrackerLookup::Address { address_id: "addr_bill".to_string() });
    let payment_data = expect_ready(operation.continue_get_trackers(
        stage,
        Ok(TrackerRecord::Address(capture_address("addr_bill"))),
        &request,
    ));
    assert_eq!(payment_data.payment_intent, capture_intent());
    let mut expected_attempt = capture_attempt();
    expected_attempt.amount_to_capture = Some(600);
    assert_eq!(payment_data.payment_attempt, expected_attempt);
    assert!(payment_data.payment_attempt.is_well_formed());
    assert_eq!(payment_data.connector_response, capture_connector_response());
    assert_eq!(payment_data.amount, 1000);
    assert_eq!(payment_data.currency, Currency::USD);
    assert_eq!(payment_data.address.shipping, Some(capture_address("addr_ship")));
    assert_eq!(payment_data.address.billing, Some(capture_address("addr_bill")));
    assert_eq!(payment_data.mandate_id, None);
    assert_eq!(payment_data.setup_mandate, None);
    assert_eq!(payment_data.token, None);
    assert_eq!(payment_data.confirm, None);
    assert_eq!(payment_data.force_sync, None);
    assert_eq!(payment_data.payment_method_data, None);
    assert!(payment_data.refunds.is_empty());
}

#[test]
fn get_trackers_skips_addresses_that_the_intent_does_not_name() {
    let operation = PaymentCapture;
    let request = capture_request(None);
    let mut intent = capture_intent();
    intent.shipping_address_id = None;
    intent.billing_address_id = None;
    let (stage, _) = load_up_to_attempt(intent, &request);
    let mut attempt = capture_attempt();
    attempt.amount_to_capture = Some(250);
    let (stage, _) = expect_lookup(operation.continue_get_trackers(
        stage,
        Ok(TrackerRecord::PaymentAttempt(attempt)),
        &request,
    ));
    let payment_data = expect_ready(operation.continue_get_trackers(
        stage,
        Ok(TrackerRecord::ConnectorResponse(capture_connector_response())),
        &request,
    ));
    assert_eq!(payment_data.address.shipping, None);
    assert_eq!(payment_data.address.billing, None);
    assert_eq!(payment_data.payment_attempt.amount_to_capture, Some(250));
}

#[test]
fn get_trackers_maps_storage_failures() {
    let operation = PaymentCapture;
    let request = capture_request(None);
    let first: Step =
        operation.get_trackers(&PaymentIdType::PaymentIntentId("pay_1".to_string()), "M1", Connector::Stripe, None);
    let (stage, _) = expect_lookup(first);
    assert_eq!(
        expect_rejected(operation.continue_get_trackers(
            stage,
            Err(StorageError::DatabaseError(DatabaseError::NotFound)),
            &request
        )),
        ApiErrorResponse::PaymentNotFound
    );
    let (stage, _) = load_up_to_attempt(capture_intent(), &request);
    assert_eq!(
        expect_rejected(operation.continue_get_trackers(
            stage,
            Err(StorageError::DatabaseError(DatabaseError::Others)),
            &request
        )),
        ApiErrorResponse::InternalServerError
    );
    let (stage, _) = load_up_to_attempt(capture_intent(), &request);
    assert_eq!(
        expect_rejected(operation.continue_get_trackers(
            stage,
            Ok(TrackerRecord::Address(capture_address("addr_ship"))),
            &request
        )),
        ApiErrorResponse::InternalServerError
    );
}

#[test]
fn get_trackers_enforces_the_rules_of_the_capture_flow() {
    let operation = PaymentCapture;
    let first = |request: &PaymentsCaptureRequest, intent: PaymentIntent| -> Step {
        let start: Step =
            operation.get_trackers(&PaymentIdType::PaymentIntentId("pay_1".to_string()), "M1", Connector::Stripe, None);
        let (stage, _) = expect_lookup(start);
        operation.continue_get_trackers(stage, Ok(TrackerRecord::PaymentIntent(intent)), request)
    };
    let mut succeeded = capture_intent();
    succeeded.status = IntentStatus::Succeeded;
    assert_eq!(
        expect_rejected(first(&capture_request(Some(10)), succeeded)),
        ApiErrorResponse::InvalidRequestData {
            message: "the payment is not in a status that admits a capture".to_string()
        }
    );
    assert_eq!(
        expect_rejected(first(&capture_request(Some(1001)), capture_intent())),
        ApiErrorResponse::InvalidRequestData {
            message:
                "amount_to_capture must be positive and not greater than the amount of the payment"
                    .to_string()
        }
    );
    assert_eq!(
        expect_rejected(first(&capture_request(Some(0)), capture_intent())),
        ApiErrorResponse::InvalidRequestData {
            message:
                "amount_to_capture must be positive and not greater than the amount of the payment"
                    .to_string()
        }
    );

    let request = capture_request(Some(1000));
    let with_attempt = |attempt: PaymentAttempt| -> Step {
        let (stage, _) = load_up_to_attempt(capture_intent(), &request);
        operation.continue_get_trackers(stage, Ok(TrackerRecord::PaymentAttempt(attempt)), &request)
    };
    let mut no_method = capture_attempt();
    no_method.capture_method = None;
    assert_eq!(
        expect_rejected(with_attempt(no_method)),
        ApiErrorResponse::MissingRequiredField { name: "capture_method".to_string() }
    );
    let mut automatic = capture_attempt();
    automatic.capture_method = Some(CaptureMethod::Automatic);
    assert_eq!(
        expect_rejected(with_attempt(automatic)),
        ApiErrorResponse::InvalidRequestData {
            message: "the capture method of the payment admits no manual capture".to_string()
        }
    );
    let mut no_currency = capture_attempt();
    no_currency.currency = None;
    assert_eq!(
        expect_rejected(with_attempt(no_currency)),
        ApiErrorResponse::MissingRequiredField { name: "currency".to_string() }
    );
}

#[test]
fn payment_records_are_cloned_field_by_field() {
    assert_eq!(capture_intent().clone(), capture_intent());
    assert_eq!(capture_attempt().clone(), capture_attempt());
    assert_eq!(capture_connector_response().clone(), capture_connector_response());
    let terminal = capture_intent().follow_attempt(AttemptStatus::Voided);
    assert_eq!(terminal.status, IntentStatus::Cancelled);
    assert_eq!(terminal.follow_attempt(AttemptStatus::Charged).status, IntentStatus::Cancelled);
}

#[test]
fn a_capture_above_the_amount_of_the_attempt_is_refused() {
    let operation = PaymentCapture;
    let above_attempt = ApiErrorResponse::InvalidRequestData {
        message: "amount_to_capture is greater than the amount of the attempt".to_string(),
    };
    let out_of_range = ApiErrorResponse::InvalidRequestData {
        message:
            "amount_to_capture must be positive and not greater than the amount of the payment"
                .to_string(),
    };
    let with_attempt = |request: &PaymentsCaptureRequest, attempt: PaymentAttempt| -> Step {
        let (stage, _) = load_up_to_attempt(capture_intent(), request);
        operation.continue_get_trackers(stage, Ok(TrackerRecord::PaymentAttempt(attempt)), request)
    };
    let mut smaller = capture_attempt();
    smaller.amount = 500;
    assert_eq!(
        expect_rejected(with_attempt(&capture_request(Some(501)), smaller.clone())),
        above_attempt
    );
    assert_eq!(
        expect_rejected(with_attempt(&capture_request(Some(1000)), smaller.clone())),
        above_attempt
    );
    let (stage, _) = expect_lookup(with_attempt(&capture_request(Some(500)), smaller.clone()));
    match stage {
        CaptureStage::ConnectorResponse { payment_attempt, .. } => {
            assert_eq!(payment_attempt.amount_to_capture, Some(500));
            assert!(payment_attempt.is_well_formed());
        }
        other => panic!("expected the attempt to be loaded, got {other:?}"),
    }

    let mut stored_above = capture_attempt();
    stored_above.amount = 500;
    stored_above.amount_to_capture = Some(600);
    assert_eq!(
        expect_rejected(with_attempt(&capture_request(None), stored_above.clone())),
        above_attempt
    );
    let (stage, _) = expect_lookup(with_attempt(&capture_request(Some(400)), stored_above));
    assert!(matches!(
        stage,
        CaptureStage::ConnectorResponse { ref payment_attempt, .. }
            if payment_attempt.amount_to_capture == Some(400) && payment_attempt.is_well_formed()
    ));

    let mut stored_beyond_intent = capture_attempt();
    stored_beyond_intent.amount = 2000;
    stored_beyond_intent.amount_to_capture = Some(1500);
    assert_eq!(
        expect_rejected(with_attempt(&capture_request(None), stored_beyond_intent)),
        out_of_range
    );
    let mut stored_zero = capture_attempt();
    stored_zero.amount_to_capture = Some(0);
    assert_eq!(expect_rejected(with_attempt(&capture_request(None), stored_zero)), out_of_range);
}

#[test]
fn update_trackers_passes_the_working_record_through() {
    let operation = PaymentCapture;
    let request = capture_request(None);
    let mut intent = capture_intent();
    intent.shipping_address_id = None;
    intent.billing_address_id = None;
    let (stage, _) = load_up_to_attempt(intent, &request);
    let (stage, _) = expect_lookup(operation.continue_get_trackers(
        stage,
        Ok(TrackerRecord::PaymentAttempt(capture_attempt())),
        &request,
    ));
    let payment_data = expect_ready(operation.continue_get_trackers(
        stage,
        Ok(TrackerRecord::ConnectorResponse(capture_connector_response())),
        &request,
    ));
    let (_, after) = operation.update_trackers(
        &PaymentIdType::PaymentIntentId("pay_1".to_string()),
        payment_data,
        None,
    );
    assert_eq!(after.payment_attempt, capture_attempt());
    assert_eq!(after.amount, 1000);
}

#[test]
fn a_second_capture_is_refused_after_a_successful_one() {
    let operation = PaymentCapture;
    let request = capture_request(Some(1000));
    let (_stage, _) = load_up_to_attempt(capture_intent(), &request);
    let attempt = capture_attempt().reconcile_status(AttemptStatus::Charged);
    assert_eq!(attempt.status, AttemptStatus::Charged);
    let intent = capture_intent().follow_attempt(attempt.status);
    assert_eq!(intent.status, IntentStatus::Succeeded);
    let first: Step =
        operation.get_trackers(&PaymentIdType::PaymentIntentId("pay_1".to_string()), "M1", Connector::Stripe, None);
    let (stage, _) = expect_lookup(first);
    let again =
        operation.continue_get_trackers(stage, Ok(TrackerRecord::PaymentIntent(intent)), &request);
    assert!(matches!(
        expect_rejected(again),
        ApiErrorResponse::InvalidRequestData { .. }
    ));
}
