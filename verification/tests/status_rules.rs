use router::errors::{ApiErrorResponse, DatabaseError, StorageError};
use router::payments::helpers::{
    total_refunded_amount, validate_amount_to_capture, validate_attempt_amount,
    validate_authorize_status,
    validate_capture_method, validate_refund_amount, validate_refund_sync_status,
    validate_status, validate_sync_status, validate_void_status,
};
use router::types::storage::enums::{
    AttemptStatus, CaptureMethod, Currency, IntentStatus, RefundStatus, RefundType,
};
use router::types::storage::refund::Refund;

fn rules_refund(amount: i64, status: RefundStatus) -> Refund {
    Refund {
        id: 1,
        internal_reference_id: "ref_internal".to_string(),
        refund_id: "ref_1".to_string(),
        payment_id: "pay_1".to_string(),
        merchant_id: "M1".to_string(),
        transaction_id: "txn_1".to_string(),
        connector: "stripe".to_string(),
        pg_refund_id: None,
        external_reference_id: None,
        refund_type: RefundType::RegularRefund,
        total_amount: 100,
        currency: Currency::USD,
        refund_amount: amount,
        refund_status: status,
        sent_to_gateway: false,
        refund_error_message: None,
        metadata: None,
        refund_arn: None,
        created_at: time::PrimitiveDateTime::MIN,
        updated_at: time::PrimitiveDateTime::MIN,
        description: None,
    }
}

fn rules_rejection(message: &str) -> ApiErrorResponse {
    ApiErrorResponse::InvalidRequestData { message: message.to_string() }
}

const ALL_ATTEMPT_STATUSES: [AttemptStatus; 7] = [
    AttemptStatus::Started,
    AttemptStatus::AuthenticationPending,
    AttemptStatus::Authorized,
    AttemptStatus::Charged,
    AttemptStatus::Voided,
    AttemptStatus::Failure,
    AttemptStatus::Pending,
];

#[test]
fn terminal_attempt_statuses_absorb_every_projection() {
    for current in [AttemptStatus::Charged, AttemptStatus::Voided, AttemptStatus::Failure] {
        assert!(current.terminal());
        for projected in ALL_ATTEMPT_STATUSES {
            assert_eq!(current.reconcile(projected), current);
        }
    }
}

#[test]
fn attempt_status_moves_forward_only() {
    assert_eq!(
        AttemptStatus::Started.reconcile(AttemptStatus::Authorized),
        AttemptStatus::Authorized
    );
    assert_eq!(
        AttemptStatus::Authorized.reconcile(AttemptStatus::Charged),
        AttemptStatus::Charged
    );
    assert_eq!(
        AttemptStatus::Authorized.reconcile(AttemptStatus::Pending),
        AttemptStatus::Authorized
    );
    assert_eq!(
        AttemptStatus::Pending.reconcile(AttemptStatus::AuthenticationPending),
        AttemptStatus::Pending
    );
    assert_eq!(
        AttemptStatus::AuthenticationPending.reconcile(AttemptStatus::Pending),
        AttemptStatus::Pending
    );
    assert!(AttemptStatus::Started.can_transition_to(AttemptStatus::Started));
    assert!(AttemptStatus::Started.can_transition_to(AttemptStatus::Failure));
    assert!(!AttemptStatus::Charged.can_transition_to(AttemptStatus::Voided));
    assert!(!AttemptStatus::Authorized.can_transition_to(AttemptStatus::Started));
    assert!(!AttemptStatus::Authorized.terminal());
}

#[test]
fn reconciling_twice_changes_nothing_more() {
    for current in ALL_ATTEMPT_STATUSES {
        for projected in ALL_ATTEMPT_STATUSES {
            let once = current.reconcile(projected);
            assert_eq!(once.reconcile(projected), once);
            assert!(current.can_transition_to(once));
        }
    }
}

#[test]
fn intent_status_follows_the_attempt() {
    assert_eq!(
        IntentStatus::from_attempt_status(AttemptStatus::Authorized),
        IntentStatus::RequiresCapture
    );
    assert_eq!(IntentStatus::from_attempt_status(AttemptStatus::Charged), IntentStatus::Succeeded);
    assert_eq!(IntentStatus::from_attempt_status(AttemptStatus::Voided), IntentStatus::Cancelled);
    assert_eq!(IntentStatus::from_attempt_status(AttemptStatus::Failure), IntentStatus::Failed);
    assert_eq!(IntentStatus::from_attempt_status(AttemptStatus::Pending), IntentStatus::Processing);
    assert_eq!(IntentStatus::from_attempt_status(AttemptStatus::Started), IntentStatus::Processing);
    assert_eq!(
        IntentStatus::from_attempt_status(AttemptStatus::AuthenticationPending),
        IntentStatus::Processing
    );
    assert!(IntentStatus::Succeeded.terminal());
    assert!(IntentStatus::Cancelled.terminal());
    assert!(IntentStatus::Failed.terminal());
    assert!(!IntentStatus::RequiresCapture.terminal());
}

#[test]
fn a_terminal_intent_is_not_changed_by_its_attempt() {
    assert_eq!(IntentStatus::RequiresCapture.follow(AttemptStatus::Charged), IntentStatus::Succeeded);
    assert_eq!(
        IntentStatus::RequiresConfirmation.follow(AttemptStatus::Authorized),
        IntentStatus::RequiresCapture
    );
    assert_eq!(IntentStatus::Processing.follow(AttemptStatus::Failure), IntentStatus::Failed);
    for terminal in [IntentStatus::Succeeded, IntentStatus::Cancelled, IntentStatus::Failed] {
        for attempt in ALL_ATTEMPT_STATUSES {
            assert_eq!(terminal.follow(attempt), terminal);
        }
    }
}

#[test]
fn refund_status_is_absorbing_once_terminal() {
    assert_eq!(RefundStatus::Pending.reconcile(RefundStatus::Success), RefundStatus::Success);
    assert_eq!(
        RefundStatus::ManualReview.reconcile(RefundStatus::Failure),
        RefundStatus::Failure
    );
    assert_eq!(RefundStatus::Success.reconcile(RefundStatus::Failure), RefundStatus::Success);
    assert_eq!(RefundStatus::Failure.reconcile(RefundStatus::Success), RefundStatus::Failure);
    assert_eq!(
        RefundStatus::TransactionFailure.reconcile(RefundStatus::Pending),
        RefundStatus::TransactionFailure
    );
    assert!(RefundStatus::Failure.failed());
    assert!(RefundStatus::TransactionFailure.failed());
    assert!(!RefundStatus::Success.failed());
    assert!(!RefundStatus::Pending.terminal());
}

#[test]
fn storage_errors_are_mapped_at_the_boundary() {
    assert_eq!(
        StorageError::DatabaseError(DatabaseError::NotFound)
            .to_not_found_response(ApiErrorResponse::PaymentNotFound),
        ApiErrorResponse::PaymentNotFound
    );
    assert_eq!(
        StorageError::DatabaseError(DatabaseError::UniqueViolation)
            .to_not_found_response(ApiErrorResponse::PaymentNotFound),
        ApiErrorResponse::InternalServerError
    );
    assert_eq!(
        StorageError::DatabaseError(DatabaseError::Others)
            .to_not_found_response(ApiErrorResponse::PaymentNotFound),
        ApiErrorResponse::InternalServerError
    );
    assert_eq!(
        StorageError::SerializationFailed.to_not_found_response(ApiErrorResponse::PaymentNotFound),
        ApiErrorResponse::InternalServerError
    );
    assert_eq!(
        ApiErrorResponse::missing_required_field("payment_id"),
        ApiErrorResponse::MissingRequiredField { name: "payment_id".to_string() }
    );
}

#[test]
fn capture_is_admitted_from_requires_capture_only() {
    assert_eq!(validate_status(IntentStatus::RequiresCapture), Ok(()));
    for status in [
        IntentStatus::RequiresPaymentMethod,
        IntentStatus::RequiresConfirmation,
        IntentStatus::Processing,
        IntentStatus::Succeeded,
        IntentStatus::Cancelled,
        IntentStatus::Failed,
    ] {
        assert_eq!(
            validate_status(status),
            Err(rules_rejection("the payment is not in a status that admits a capture"))
        );
    }
}

#[test]
fn amount_to_capture_is_positive_and_within_the_amount() {
    assert_eq!(validate_amount_to_capture(1000, None), Ok(()));
    assert_eq!(validate_amount_to_capture(1000, Some(1)), Ok(()));
    assert_eq!(validate_amount_to_capture(1000, Some(1000)), Ok(()));
    let rejected = Err(rules_rejection(
        "amount_to_capture must be positive and not greater than the amount of the payment",
    ));
    assert_eq!(validate_amount_to_capture(1000, Some(1001)), rejected);
    assert_eq!(validate_amount_to_capture(1000, Some(0)), rejected);
    assert_eq!(validate_amount_to_capture(1000, Some(-5)), rejected);
    assert_eq!(validate_amount_to_capture(i64::MAX, Some(i64::MAX)), Ok(()));
}

#[test]
fn amount_to_capture_is_within_the_amount_of_the_attempt() {
    assert_eq!(validate_attempt_amount(500, None), Ok(()));
    assert_eq!(validate_attempt_amount(500, Some(500)), Ok(()));
    assert_eq!(validate_attempt_amount(500, Some(1)), Ok(()));
    assert_eq!(
        validate_attempt_amount(500, Some(501)),
        Err(rules_rejection("amount_to_capture is greater than the amount of the attempt"))
    );
    assert_eq!(validate_attempt_amount(i64::MAX, Some(i64::MAX)), Ok(()));
}

#[test]
fn capture_needs_a_manual_capture_method() {
    assert_eq!(validate_capture_method(CaptureMethod::Manual), Ok(()));
    assert_eq!(validate_capture_method(CaptureMethod::ManualMultiple), Ok(()));
    let rejected =
        Err(rules_rejection("the capture method of the payment admits no manual capture"));
    assert_eq!(validate_capture_method(CaptureMethod::Automatic), rejected);
    assert_eq!(validate_capture_method(CaptureMethod::Scheduled), rejected);
}

#[test]
fn authorize_void_and_sync_are_admitted_by_status() {
    assert_eq!(validate_authorize_status(IntentStatus::RequiresPaymentMethod), Ok(()));
    assert_eq!(validate_authorize_status(IntentStatus::RequiresConfirmation), Ok(()));
    assert_eq!(
        validate_authorize_status(IntentStatus::RequiresCapture),
        Err(rules_rejection("the payment is not in a status that admits an authorization"))
    );
    assert_eq!(validate_void_status(IntentStatus::RequiresCapture), Ok(()));
    assert_eq!(validate_void_status(IntentStatus::RequiresConfirmation), Ok(()));
    assert_eq!(
        validate_void_status(IntentStatus::Succeeded),
        Err(rules_rejection("the payment is not in a status that admits a void"))
    );
    assert_eq!(validate_sync_status(IntentStatus::Processing, false), Ok(()));
    assert_eq!(validate_sync_status(IntentStatus::Succeeded, true), Ok(()));
    assert_eq!(
        validate_sync_status(IntentStatus::Succeeded, false),
        Err(rules_rejection("the payment has reached a terminal status"))
    );
    assert_eq!(validate_refund_sync_status(RefundStatus::Pending), Ok(()));
    assert_eq!(
        validate_refund_sync_status(RefundStatus::Success),
        Err(rules_rejection("the refund is not pending"))
    );
    assert_eq!(
        validate_refund_sync_status(RefundStatus::ManualReview),
        Err(rules_rejection("the refund is not pending"))
    );
}

#[test]
fn refunds_that_have_not_failed_are_summed() {
    let refunds = vec![
        rules_refund(10, RefundStatus::Success),
        rules_refund(20, RefundStatus::Pending),
        rules_refund(40, RefundStatus::Failure),
        rules_refund(5, RefundStatus::ManualReview),
        rules_refund(80, RefundStatus::TransactionFailure),
    ];
    assert_eq!(total_refunded_amount(&refunds), 35);
    assert_eq!(total_refunded_amount(&Vec::new()), 0);
    let large = vec![
        rules_refund(i64::MAX, RefundStatus::Success),
        rules_refund(i64::MAX, RefundStatus::Pending),
    ];
    assert_eq!(total_refunded_amount(&large), 2 * (i64::MAX as i128));
}

#[test]
fn refund_excess_is_rejected_as_invalid_request_data() {
    let result = validate_refund_amount(
        IntentStatus::Succeeded,
        AttemptStatus::Charged,
        100,
        &Vec::new(),
        696969,
    );
    assert_eq!(
        result,
        Err(rules_rejection("the refund amount exceeds what is left of the payment"))
    );
    assert!(matches!(result, Err(ApiErrorResponse::InvalidRequestData { .. })));
}

#[test]
fn refund_is_admitted_within_what_is_left() {
    let refunds = vec![
        rules_refund(60, RefundStatus::Success),
        rules_refund(30, RefundStatus::Pending),
        rules_refund(50, RefundStatus::Failure),
    ];
    let check = |amount: i64| {
        validate_refund_amount(
            IntentStatus::Succeeded,
            AttemptStatus::Charged,
            100,
            &refunds,
            amount,
        )
    };
    assert_eq!(check(10), Ok(()));
    assert_eq!(check(1), Ok(()));
    assert_eq!(
        check(11),
        Err(rules_rejection("the refund amount exceeds what is left of the payment"))
    );
    assert_eq!(check(0), Err(rules_rejection("the refund amount must be positive")));
    assert_eq!(check(-1), Err(rules_rejection("the refund amount must be positive")));
    assert_eq!(
        validate_refund_amount(
            IntentStatus::RequiresCapture,
            AttemptStatus::Authorized,
            100,
            &refunds,
            10
        ),
        Err(rules_rejection("the payment has not been charged"))
    );
    assert_eq!(
        validate_refund_amount(
            IntentStatus::Succeeded,
            AttemptStatus::Pending,
            100,
            &refunds,
            10
        ),
        Err(rules_rejection("the payment has not been charged"))
    );
}

#[test]
fn admitted_refunds_keep_the_sum_within_the_attempt() {
    let mut refunds: Vec<Refund> = Vec::new();
    for amount in [40, 70, 60, 1, 30] {
        if validate_refund_amount(
            IntentStatus::Succeeded,
            AttemptStatus::Charged,
            100,
            &refunds,
            amount,
        )
        .is_ok()
        {
            refunds.push(rules_refund(amount, RefundStatus::Pending));
        }
        assert!(total_refunded_amount(&refunds) <= 100);
    }
    assert_eq!(total_refunded_amount(&refunds), 100);
    refunds[0].refund_status = refunds[0].refund_status.reconcile(RefundStatus::Failure);
    assert_eq!(total_refunded_amount(&refunds), 60);
    refunds[0].refund_status = refunds[0].refund_status.reconcile(RefundStatus::Success);
    assert_eq!(total_refunded_amount(&refunds), 60);
}
