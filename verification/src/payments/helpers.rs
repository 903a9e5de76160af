//! The admissibility rules: what must hold of the stored state before a flow
//! may start.

use crate::errors::{ApiError, ApiErrorResponse};
use crate::types::storage::enums::{AttemptStatus, CaptureMethod, IntentStatus, RefundStatus};
use crate::types::storage::refund::Refund;
use vstd::prelude::*;

verus! {

pub const CAPTURE_STATUS_MESSAGE: &'static str =
    "the payment is not in a status that admits a capture";

pub const CAPTURE_AMOUNT_MESSAGE: &'static str =
    "amount_to_capture must be positive and not greater than the amount of the payment";

pub const CAPTURE_ATTEMPT_AMOUNT_MESSAGE: &'static str =
    "amount_to_capture is greater than the amount of the attempt";

pub const CAPTURE_METHOD_MESSAGE: &'static str =
    "the capture method of the payment admits no manual capture";

pub const AUTHORIZE_STATUS_MESSAGE: &'static str =
    "the payment is not in a status that admits an authorization";

pub const VOID_STATUS_MESSAGE: &'static str = "the payment is not in a status that admits a void";

pub const SYNC_STATUS_MESSAGE: &'static str = "the payment has reached a terminal status";

pub const REFUND_STATUS_MESSAGE: &'static str = "the payment has not been charged";

pub const REFUND_AMOUNT_MESSAGE: &'static str = "the refund amount must be positive";

pub const REFUND_EXCESS_MESSAGE: &'static str =
    "the refund amount exceeds what is left of the payment";

pub const REFUND_SYNC_STATUS_MESSAGE: &'static str = "the refund is not pending";

/// The rejection of a request for the reason given in `message`.
pub open spec fn rejection(message: &str) -> ApiError {
    ApiError::InvalidRequestData { message: message@ }
}

/// An authorization starts from an intent that waits for a payment method or
/// for confirmation.
pub open spec fn authorize_admissible(status: IntentStatus) -> bool {
    status == IntentStatus::RequiresPaymentMethod || status == IntentStatus::RequiresConfirmation
}

/// A capture starts from an intent that waits for capture.
pub open spec fn capture_status_admissible(status: IntentStatus) -> bool {
    status == IntentStatus::RequiresCapture
}

/// An amount to capture, where the request gives one, is positive and at most
/// the amount of the intent.
pub open spec fn capture_amount_admissible(amount: i64, amount_to_capture: Option<i64>) -> bool {
    amount_to_capture matches Some(capture) ==> 0 < capture <= amount
}

/// An amount to capture is at most the amount of the attempt that it is
/// captured of.
pub open spec fn capture_within_attempt(attempt_amount: i64, amount_to_capture: Option<i64>) -> bool {
    amount_to_capture matches Some(capture) ==> capture <= attempt_amount
}

/// Only a manual capture method admits a capture on request.
pub open spec fn capture_method_admissible(capture_method: CaptureMethod) -> bool {
    capture_method == CaptureMethod::Manual || capture_method == CaptureMethod::ManualMultiple
}

/// A void starts from an intent that waits for capture or for confirmation.
pub open spec fn void_admissible(status: IntentStatus) -> bool {
    status == IntentStatus::RequiresCapture || status == IntentStatus::RequiresConfirmation
}

/// A payment sync starts from any intent that is not terminal, and from any
/// intent at all where a webhook asks for it.
pub open spec fn sync_admissible(status: IntentStatus, on_demand: bool) -> bool {
    on_demand || !status.is_terminal()
}

/// A refund sync starts from a pending refund.
pub open spec fn refund_sync_admissible(status: RefundStatus) -> bool {
    status == RefundStatus::Pending
}

/// The sum of the amounts of the refunds that have not failed.
pub open spec fn refunded_total(refunds: Seq<Refund>) -> int
    decreases refunds.len(),
{
    if refunds.len() == 0 {
        0
    } else {
        refunded_total(refunds.drop_last()) + if refunds.last().refund_status.is_failed() {
            0
        } else {
            refunds.last().refund_amount as int
        }
    }
}

/// A refund starts from a succeeded intent with a charged attempt, for a
/// positive amount that, together with the refunds of the attempt that have
/// not failed, stays within the amount of the attempt.
pub open spec fn refund_admissible(
    intent_status: IntentStatus,
    attempt_status: AttemptStatus,
    attempt_amount: i64,
    refunds: Seq<Refund>,
    refund_amount: i64,
) -> bool {
    &&& intent_status == IntentStatus::Succeeded
    &&& attempt_status == AttemptStatus::Charged
    &&& 0 < refund_amount
    &&& refunded_total(refunds) + refund_amount <= attempt_amount
}

/// What the check of a capture's intent status answers.
pub open spec fn capture_status_verdict(status: IntentStatus) -> Result<(), ApiError> {
    if capture_status_admissible(status) {
        Ok(())
    } else {
        Err(rejection(CAPTURE_STATUS_MESSAGE))
    }
}

/// What the check of a capture's amount answers.
pub open spec fn capture_amount_verdict(amount: i64, amount_to_capture: Option<i64>) -> Result<
    (),
    ApiError,
> {
    if capture_amount_admissible(amount, amount_to_capture) {
        Ok(())
    } else {
        Err(rejection(CAPTURE_AMOUNT_MESSAGE))
    }
}

/// What the check of a capture's amount against its attempt answers.
pub open spec fn capture_attempt_amount_verdict(
    attempt_amount: i64,
    amount_to_capture: Option<i64>,
) -> Result<(), ApiError> {
    if capture_within_attempt(attempt_amount, amount_to_capture) {
        Ok(())
    } else {
        Err(rejection(CAPTURE_ATTEMPT_AMOUNT_MESSAGE))
    }
}

/// What the check of a capture's method answers.
pub open spec fn capture_method_verdict(capture_method: CaptureMethod) -> Result<(), ApiError> {
    if capture_method_admissible(capture_method) {
        Ok(())
    } else {
        Err(rejection(CAPTURE_METHOD_MESSAGE))
    }
}

/// What the check of a refund answers: the first rule that the refund breaks,
/// taken in the order status, sign of the amount, bound.
pub open spec fn refund_verdict(
    intent_status: IntentStatus,
    attempt_status: AttemptStatus,
    attempt_amount: i64,
    refunds: Seq<Refund>,
    refund_amount: i64,
) -> Result<(), ApiError> {
    if !(intent_status == IntentStatus::Succeeded && attempt_status == AttemptStatus::Charged) {
        Err(rejection(REFUND_STATUS_MESSAGE))
    } else if refund_amount <= 0 {
        Err(rejection(REFUND_AMOUNT_MESSAGE))
    } else if refunded_total(refunds) + refund_amount > attempt_amount {
        Err(rejection(REFUND_EXCESS_MESSAGE))
    } else {
        Ok(())
    }
}

/// The view of a check's answer.
pub open spec fn verdict(r: Result<(), ApiErrorResponse>) -> Result<(), ApiError> {
    match r {
        Ok(()) => Ok(()),
        Err(error) => Err(error@),
    }
}

fn accept_when(admissible: bool, message: &str) -> (r: Result<(), ApiErrorResponse>)
    ensures
        verdict(r) == if admissible {
            Ok::<(), ApiError>(())
        } else {
            Err::<(), ApiError>(rejection(message))
        },
{
    if admissible {
        Ok(())
    } else {
        Err(ApiErrorResponse::invalid_request_data(message))
    }
}

/// Admits an authorization by the status of its intent.
pub fn validate_authorize_status(status: IntentStatus) -> (r: Result<(), ApiErrorResponse>)
    ensures
        r is Ok <==> authorize_admissible(status),
        r matches Err(error) ==> error@ == rejection(AUTHORIZE_STATUS_MESSAGE),
{
    accept_when(
        matches!(status, IntentStatus::RequiresPaymentMethod | IntentStatus::RequiresConfirmation),
        AUTHORIZE_STATUS_MESSAGE,
    )
}

/// Admits a capture by the status of its intent.
pub fn validate_status(status: IntentStatus) -> (r: Result<(), ApiErrorResponse>)
    ensures
        verdict(r) == capture_status_verdict(status),
{
    accept_when(matches!(status, IntentStatus::RequiresCapture), CAPTURE_STATUS_MESSAGE)
}

/// Admits a capture by its amount: `amount` is that of the intent.
pub fn validate_amount_to_capture(amount: i64, amount_to_capture: Option<i64>) -> (r: Result<
    (),
    ApiErrorResponse,
>)
    ensures
        verdict(r) == capture_amount_verdict(amount, amount_to_capture),
{
    let admissible = match amount_to_capture {
        Some(capture) => 0 < capture && capture <= amount,
        None => true,
    };
    accept_when(admissible, CAPTURE_AMOUNT_MESSAGE)
}

/// Admits a capture by its amount against the attempt: `attempt_amount` is
/// that of the attempt, which no capture may exceed.
pub fn validate_attempt_amount(attempt_amount: i64, amount_to_capture: Option<i64>) -> (r: Result<
    (),
    ApiErrorResponse,
>)
    ensures
        verdict(r) == capture_attempt_amount_verdict(attempt_amount, amount_to_capture),
{
    let admissible = match amount_to_capture {
        Some(capture) => capture <= attempt_amount,
        None => true,
    };
    accept_when(admissible, CAPTURE_ATTEMPT_AMOUNT_MESSAGE)
}

/// Admits a capture by the capture method of its attempt.
pub fn validate_capture_method(capture_method: CaptureMethod) -> (r: Result<(), ApiErrorResponse>)
    ensures
        verdict(r) == capture_method_verdict(capture_method),
{
    accept_when(
        matches!(capture_method, CaptureMethod::Manual | CaptureMethod::ManualMultiple),
        CAPTURE_METHOD_MESSAGE,
    )
}

/// Admits a void by the status of its intent.
pub fn validate_void_status(status: IntentStatus) -> (r: Result<(), ApiErrorResponse>)
    ensures
        r is Ok <==> void_admissible(status),
        r matches Err(error) ==> error@ == rejection(VOID_STATUS_MESSAGE),
{
    accept_when(
        matches!(status, IntentStatus::RequiresCapture | IntentStatus::RequiresConfirmation),
        VOID_STATUS_MESSAGE,
    )
}

/// Admits a payment sync by the status of its intent; `on_demand` says that a
/// webhook asks for it.
pub fn validate_sync_status(status: IntentStatus, on_demand: bool) -> (r: Result<
    (),
    ApiErrorResponse,
>)
    ensures
        r is Ok <==> sync_admissible(status, on_demand),
        r matches Err(error) ==> error@ == rejection(SYNC_STATUS_MESSAGE),
{
    accept_when(on_demand || !status.terminal(), SYNC_STATUS_MESSAGE)
}

/// Admits a refund sync by the status of its refund.
pub fn validate_refund_sync_status(status: RefundStatus) -> (r: Result<(), ApiErrorResponse>)
    ensures
        r is Ok <==> refund_sync_admissible(status),
        r matches Err(error) ==> error@ == rejection(REFUND_SYNC_STATUS_MESSAGE),
{
    accept_when(matches!(status, RefundStatus::Pending), REFUND_SYNC_STATUS_MESSAGE)
}

/// Each amount is at least `i64::MIN` and at most `i64::MAX`, so the sum of
/// the first `n` lies within `n` times those bounds.
proof fn refunded_total_is_bounded(refunds: Seq<Refund>)
    ensures
        -(refunds.len() as int) * 0x8000_0000_0000_0000 <= refunded_total(refunds),
        refunded_total(refunds) <= refunds.len() as int * 0x7fff_ffff_ffff_ffff,
    decreases refunds.len(),
{
    if refunds.len() > 0 {
        refunded_total_is_bounded(refunds.drop_last());
    }
}

/// The sum of the amounts of the refunds among `all_refunds` that have not
/// failed.
pub fn total_refunded_amount(all_refunds: &Vec<Refund>) -> (r: i128)
    ensures
        r == refunded_total(all_refunds@),
{
    let mut total: i128 = 0;
    let mut index: usize = 0;
    while index < all_refunds.len()
        invariant
            index <= all_refunds.len(),
            total == refunded_total(all_refunds@.take(index as int)),
        decreases all_refunds.len() - index,
    {
        proof {
            let ghost seen = all_refunds@.take(index as int + 1);
            assert(seen.drop_last() == all_refunds@.take(index as int));
            assert(seen.last() == all_refunds@[index as int]);
            refunded_total_is_bounded(all_refunds@.take(index as int));
        }
        if !all_refunds[index].refund_status.failed() {
            total = total + all_refunds[index].refund_amount as i128;
        }
        index = index + 1;
    }
    assert(all_refunds@.take(index as int) == all_refunds@);
    total
}

/// Admits a refund of `refund_amount` against an attempt of `attempt_amount`
/// whose refunds so far are `all_refunds`.
pub fn validate_refund_amount(
    intent_status: IntentStatus,
    attempt_status: AttemptStatus,
    attempt_amount: i64,
    all_refunds: &Vec<Refund>,
    refund_amount: i64,
) -> (r: Result<(), ApiErrorResponse>)
    ensures
        verdict(r) == refund_verdict(
            intent_status,
            attempt_status,
            attempt_amount,
            all_refunds@,
            refund_amount,
        ),
        r is Ok <==> refund_admissible(
            intent_status,
            attempt_status,
            attempt_amount,
            all_refunds@,
            refund_amount,
        ),
{
    if !(matches!(intent_status, IntentStatus::Succeeded) && matches!(
        attempt_status,
        AttemptStatus::Charged
    )) {
        return accept_when(false, REFUND_STATUS_MESSAGE);
    }
    if refund_amount <= 0 {
        return accept_when(false, REFUND_AMOUNT_MESSAGE);
    }
    let total = total_refunded_amount(all_refunds);
    accept_when(total <= attempt_amount as i128 - refund_amount as i128, REFUND_EXCESS_MESSAGE)
}

/// What a refund counts towards the bound of its attempt.
pub open spec fn counted(refund: Refund) -> int {
    if refund.refund_status.is_failed() {
        0
    } else {
        refund.refund_amount as int
    }
}

/// The sum of the amounts of the refunds that have succeeded or are pending.
pub open spec fn successful_or_pending_total(refunds: Seq<Refund>) -> int
    decreases refunds.len(),
{
    if refunds.len() == 0 {
        0
    } else {
        successful_or_pending_total(refunds.drop_last()) + if refunds.last().refund_status
            == RefundStatus::Success || refunds.last().refund_status == RefundStatus::Pending {
            refunds.last().refund_amount as int
        } else {
            0
        }
    }
}

/// The invariant of the refunds of one attempt: each is for a positive
/// amount, and those that have not failed sum to at most the amount of the
/// attempt.
pub open spec fn refunds_within_bound(refunds: Seq<Refund>, attempt_amount: i64) -> bool {
    &&& forall|i: int| 0 <= i < refunds.len() ==> 0 < (#[trigger] refunds[i]).refund_amount
    &&& refunded_total(refunds) <= attempt_amount
}

/// The refund `refund` with the status that reconciling with `projected`
/// gives it.
pub open spec fn reconciled_refund(refund: Refund, projected: RefundStatus) -> Refund {
    Refund { refund_status: refund.refund_status.reconciled(projected), ..refund }
}

proof fn refunded_total_after_update(refunds: Seq<Refund>, index: int, refund: Refund)
    requires
        0 <= index < refunds.len(),
    ensures
        refunded_total(refunds.update(index, refund)) == refunded_total(refunds) - counted(
            refunds[index],
        ) + counted(refund),
    decreases refunds.len(),
{
    let updated = refunds.update(index, refund);
    if index == refunds.len() - 1 {
        assert(updated.drop_last() == refunds.drop_last());
    } else {
        assert(updated.drop_last() == refunds.drop_last().update(index, refund));
        refunded_total_after_update(refunds.drop_last(), index, refund);
    }
}

/// A refund that is admitted keeps the refunds of its attempt within the
/// bound, whatever status it starts in.
pub proof fn admitted_refund_keeps_the_bound(
    intent_status: IntentStatus,
    attempt_status: AttemptStatus,
    attempt_amount: i64,
    refunds: Seq<Refund>,
    refund: Refund,
)
    requires
        refunds_within_bound(refunds, attempt_amount),
        refund_admissible(
            intent_status,
            attempt_status,
            attempt_amount,
            refunds,
            refund.refund_amount,
        ),
    ensures
        refunds_within_bound(refunds.push(refund), attempt_amount),
{
    assert(refunds.push(refund).drop_last() == refunds);
}

/// Reconciling the status of a refund with what the acquirer answers keeps
/// the refunds of its attempt within the bound: a failed refund stays failed.
pub proof fn reconciled_refund_keeps_the_bound(
    attempt_amount: i64,
    refunds: Seq<Refund>,
    index: int,
    projected: RefundStatus,
)
    requires
        refunds_within_bound(refunds, attempt_amount),
        0 <= index < refunds.len(),
    ensures
        refunds_within_bound(
            refunds.update(index, reconciled_refund(refunds[index], projected)),
            attempt_amount,
        ),
{
    refunded_total_after_update(refunds, index, reconciled_refund(refunds[index], projected));
}

proof fn successful_or_pending_is_part_of_refunded(refunds: Seq<Refund>)
    requires
        forall|i: int| 0 <= i < refunds.len() ==> 0 < (#[trigger] refunds[i]).refund_amount,
    ensures
        successful_or_pending_total(refunds) <= refunded_total(refunds),
    decreases refunds.len(),
{
    if refunds.len() > 0 {
        let earlier = refunds.drop_last();
        assert forall|i: int| 0 <= i < earlier.len() implies 0 < (
        #[trigger] earlier[i]).refund_amount by {
            assert(earlier[i] == refunds[i]);
        }
        assert(0 < refunds[refunds.len() - 1].refund_amount);
        successful_or_pending_is_part_of_refunded(earlier);
    }
}

/// The refund bound: of the refunds of one attempt, those that have succeeded
/// or are pending sum to at most the amount of the attempt.
pub proof fn successful_and_pending_refunds_stay_within_the_attempt(
    attempt_amount: i64,
    refunds: Seq<Refund>,
)
    requires
        refunds_within_bound(refunds, attempt_amount),
    ensures
        successful_or_pending_total(refunds) <= attempt_amount,
{
    successful_or_pending_is_part_of_refunded(refunds);
}

} // verus!
