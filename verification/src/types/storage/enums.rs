//! Status enumerations and the rules by which a stored status may change.

use vstd::prelude::*;

verus! {

/// Currency of an amount given in minor units.
#[derive(Clone, Copy, Debug, PartialEq, Eq, Structural)]
pub enum Currency {
    AUD,
    CAD,
    CHF,
    EUR,
    GBP,
    INR,
    JPY,
    SGD,
    USD,
}

/// Status of a payment intent.
#[derive(Clone, Copy, Debug, PartialEq, Eq, Structural)]
pub enum IntentStatus {
    RequiresPaymentMethod,
    RequiresConfirmation,
    RequiresCapture,
    Processing,
    Succeeded,
    Cancelled,
    Failed,
}

/// Status of one attempt of an intent against a connector.
#[derive(Clone, Copy, Debug, PartialEq, Eq, Structural)]
pub enum AttemptStatus {
    Started,
    AuthenticationPending,
    Authorized,
    Charged,
    Voided,
    Failure,
    Pending,
}

/// How the funds of an attempt are captured.
#[derive(Clone, Copy, Debug, PartialEq, Eq, Structural)]
pub enum CaptureMethod {
    Automatic,
    Manual,
    ManualMultiple,
    Scheduled,
}

/// Status of a refund.
#[derive(Clone, Copy, Debug, PartialEq, Eq, Structural)]
pub enum RefundStatus {
    Pending,
    Success,
    Failure,
    ManualReview,
    TransactionFailure,
}

/// Whether a refund is settled at once or in the regular cycle.
#[derive(Clone, Copy, Debug, PartialEq, Eq, Structural)]
pub enum RefundType {
    InstantRefund,
    RegularRefund,
}

/// Whether the payer is authenticated with 3-D Secure.
#[derive(Clone, Copy, Debug, PartialEq, Eq, Structural)]
pub enum AuthenticationType {
    ThreeDs,
    NoThreeDs,
}

/// Kind of payment instrument.
#[derive(Clone, Copy, Debug, PartialEq, Eq, Structural)]
pub enum PaymentMethodType {
    Card,
    PaymentContainer,
    BankTransfer,
    BankDebit,
    PayLater,
    Netbanking,
    Upi,
    OpenBanking,
    ConsumerFinance,
    Wallet,
}

/// Status of a stored mandate.
#[derive(Clone, Copy, Debug, PartialEq, Eq, Structural)]
pub enum MandateStatus {
    Active,
    Inactive,
    Pending,
    Revoked,
}

/// Whether a mandate covers one later debit or many.
#[derive(Clone, Copy, Debug, PartialEq, Eq, Structural)]
pub enum MandateType {
    SingleUse,
    MultiUse,
}

impl IntentStatus {
    /// An intent in a terminal status is not mutated again, but for the start
    /// of a refund from `Succeeded`.
    pub open spec fn is_terminal(self) -> bool {
        self == IntentStatus::Succeeded || self == IntentStatus::Cancelled || self
            == IntentStatus::Failed
    }

    /// The intent status that an attempt status stands for.
    pub open spec fn of_attempt(status: AttemptStatus) -> IntentStatus {
        match status {
            AttemptStatus::Charged => IntentStatus::Succeeded,
            AttemptStatus::Authorized => IntentStatus::RequiresCapture,
            AttemptStatus::Voided => IntentStatus::Cancelled,
            AttemptStatus::Failure => IntentStatus::Failed,
            AttemptStatus::Started => IntentStatus::Processing,
            AttemptStatus::AuthenticationPending => IntentStatus::Processing,
            AttemptStatus::Pending => IntentStatus::Processing,
        }
    }

    /// The status of an intent once the status of its latest attempt is
    /// projected onto it: a terminal status stays, any other gives way to the
    /// status that the attempt stands for.
    pub open spec fn followed(self, attempt_status: AttemptStatus) -> IntentStatus {
        if self.is_terminal() {
            self
        } else {
            Self::of_attempt(attempt_status)
        }
    }

    /// Tells whether no further payment flow may change the intent.
    pub fn terminal(self) -> (r: bool)
        ensures
            r == self.is_terminal(),
    {
        match self {
            IntentStatus::Succeeded | IntentStatus::Cancelled | IntentStatus::Failed => true,
            _ => false,
        }
    }

    /// Projects the status of the latest attempt onto its intent.
    pub fn from_attempt_status(status: AttemptStatus) -> (r: IntentStatus)
        ensures
            r == Self::of_attempt(status),
    {
        match status {
            AttemptStatus::Charged => IntentStatus::Succeeded,
            AttemptStatus::Authorized => IntentStatus::RequiresCapture,
            AttemptStatus::Voided => IntentStatus::Cancelled,
            AttemptStatus::Failure => IntentStatus::Failed,
            AttemptStatus::Started => IntentStatus::Processing,
            AttemptStatus::AuthenticationPending => IntentStatus::Processing,
            AttemptStatus::Pending => IntentStatus::Processing,
        }
    }
}

impl IntentStatus {
    /// Projects the status of the latest attempt onto the intent that holds
    /// `self`: a terminal intent is not changed.
    pub fn follow(self, attempt_status: AttemptStatus) -> (r: IntentStatus)
        ensures
            r == self.followed(attempt_status),
            self.is_terminal() ==> r == self,
    {
        if self.terminal() {
            self
        } else {
            Self::from_attempt_status(attempt_status)
        }
    }
}

impl AttemptStatus {
    /// `Charged`, `Voided` and `Failure` are absorbing.
    pub open spec fn is_terminal(self) -> bool {
        self == AttemptStatus::Charged || self == AttemptStatus::Voided || self
            == AttemptStatus::Failure
    }

    /// How far an attempt has progressed; the terminal statuses share the top.
    pub open spec fn progress(self) -> nat {
        match self {
            AttemptStatus::Started => 0,
            AttemptStatus::AuthenticationPending => 1,
            AttemptStatus::Pending => 2,
            AttemptStatus::Authorized => 3,
            AttemptStatus::Charged => 4,
            AttemptStatus::Voided => 4,
            AttemptStatus::Failure => 4,
        }
    }

    /// The order of the attempt state machine: a status precedes itself and
    /// every status of greater progress. Two distinct terminal statuses are
    /// not comparable.
    pub open spec fn precedes(self, next: AttemptStatus) -> bool {
        self == next || self.progress() < next.progress()
    }

    /// The status an attempt holds once `projected`, the status mapped from an
    /// acquirer's answer, is reconciled with the stored status `self`.
    pub open spec fn reconciled(self, projected: AttemptStatus) -> AttemptStatus {
        if self.precedes(projected) {
            projected
        } else {
            self
        }
    }

    /// Tells whether the status is absorbing.
    pub fn terminal(self) -> (r: bool)
        ensures
            r == self.is_terminal(),
    {
        match self {
            AttemptStatus::Charged | AttemptStatus::Voided | AttemptStatus::Failure => true,
            _ => false,
        }
    }

    fn rank(self) -> (r: u8)
        ensures
            r == self.progress(),
    {
        match self {
            AttemptStatus::Started => 0,
            AttemptStatus::AuthenticationPending => 1,
            AttemptStatus::Pending => 2,
            AttemptStatus::Authorized => 3,
            AttemptStatus::Charged => 4,
            AttemptStatus::Voided => 4,
            AttemptStatus::Failure => 4,
        }
    }

    /// Tells whether the state machine admits the step from `self` to `next`.
    pub fn can_transition_to(self, next: AttemptStatus) -> (r: bool)
        ensures
            r == self.precedes(next),
    {
        self == next || self.rank() < next.rank()
    }

    /// Reconciles the stored status with one projected from an acquirer's
    /// answer: the projected status is taken where the state machine admits the
    /// step, and the stored status is kept where it does not.
    pub fn reconcile(self, projected: AttemptStatus) -> (r: AttemptStatus)
        ensures
            r == self.reconciled(projected),
            self.precedes(r),
            self.is_terminal() ==> r == self,
    {
        if self.can_transition_to(projected) {
            projected
        } else {
            self
        }
    }
}

impl RefundStatus {
    /// `Success` and the two failures are absorbing.
    pub open spec fn is_terminal(self) -> bool {
        self == RefundStatus::Success || self == RefundStatus::Failure || self
            == RefundStatus::TransactionFailure
    }

    /// A failed refund returns no money and counts against no bound.
    pub open spec fn is_failed(self) -> bool {
        self == RefundStatus::Failure || self == RefundStatus::TransactionFailure
    }

    /// The status a refund holds once `projected` is reconciled with the stored
    /// status `self`.
    pub open spec fn reconciled(self, projected: RefundStatus) -> RefundStatus {
        if self.is_terminal() {
            self
        } else {
            projected
        }
    }

    /// Tells whether the status is absorbing.
    pub fn terminal(self) -> (r: bool)
        ensures
            r == self.is_terminal(),
    {
        match self {
            RefundStatus::Success | RefundStatus::Failure | RefundStatus::TransactionFailure => true,
            _ => false,
        }
    }

    /// Tells whether the refund has failed.
    pub fn failed(self) -> (r: bool)
        ensures
            r == self.is_failed(),
    {
        match self {
            RefundStatus::Failure | RefundStatus::TransactionFailure => true,
            _ => false,
        }
    }

    /// Reconciles the stored status with one projected from an acquirer's
    /// answer: a terminal status stays, any other gives way to the projection.
    pub fn reconcile(self, projected: RefundStatus) -> (r: RefundStatus)
        ensures
            r == self.reconciled(projected),
    {
        if self.terminal() {
            self
        } else {
            projected
        }
    }
}

/// No status steps out of `Charged`, `Voided` or `Failure`: whatever an
/// acquirer answers, a terminal attempt keeps its status.
pub proof fn terminal_attempt_status_is_absorbing(current: AttemptStatus, projected: AttemptStatus)
    requires
        current.is_terminal(),
    ensures
        current.reconciled(projected) == current,
        forall|next: AttemptStatus| current.precedes(next) ==> next == current,
{
}

/// The order of the attempt state machine is a partial order, and reconciling
/// only ever moves a status forward in it.
pub proof fn attempt_status_order_is_partial(a: AttemptStatus, b: AttemptStatus, c: AttemptStatus)
    ensures
        a.precedes(a),
        a.precedes(b) && b.precedes(a) ==> a == b,
        a.precedes(b) && b.precedes(c) ==> a.precedes(c),
        a.precedes(a.reconciled(b)),
{
}

/// Reconciling twice with the same projection changes nothing after the first
/// time.
pub proof fn attempt_reconcile_is_idempotent(current: AttemptStatus, projected: AttemptStatus)
    ensures
        current.reconciled(projected).reconciled(projected) == current.reconciled(projected),
{
}

} // verus!
