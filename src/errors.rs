use vstd::prelude::*;

verus! {

/// Every way in which an operation of the ledger can fail. An operation that
/// fails leaves every record it was handed unchanged.
#[derive(Debug, Clone, Copy, PartialEq, Eq, Structural)]
pub enum LooprError {
    PlanNotActive,
    MaxSubscribersReached,
    SubscriptionNotActive,
    InvalidPaymentAmount,
    InsufficientFunds,
    PaymentOverdue,
    PaymentNotDue,
    AutoPayNotEnabled,
    ThreadAuthorityMismatch,
    PlanIdTooLong,
    PlanNameTooLong,
    PlanDescriptionTooLong,
    SubscriptionIdTooLong,
    InvalidPeriodDuration,
    Unauthorized,
    ProgramPaused,
    PaymentIntentNotFound,
    PaymentIntentExpired,
    PaymentIntentAlreadyFulfilled,
    InvalidPaymentIntentStatus,
    QRPaymentFailed,
    IntentIdTooLong,
    /// A text does not fit the capacity of the field that should hold it.
    TextTooLong,
    /// A transaction reference is longer than a payment record can hold.
    TransactionReferenceTooLong,
    /// The transaction reference of a payment record was already filled in.
    PaymentAlreadyConfirmed,
    /// An aggregate counter, a subscriber count or a due date would overflow.
    CounterOverflow,
    /// No bump value yields a valid address for the given seeds.
    AddressDerivationExhausted,
}

impl LooprError {
    /// The human-readable message of the error.
    pub fn message(&self) -> (r: &'static str) {
        match self {
            LooprError::PlanNotActive => "Subscription plan is not active",
            LooprError::MaxSubscribersReached => "Maximum subscribers reached",
            LooprError::SubscriptionNotActive => "Subscription is not active",
            LooprError::InvalidPaymentAmount => "Payment amount does not match plan price",
            LooprError::InsufficientFunds => "Insufficient funds",
            LooprError::PaymentOverdue => "Payment is overdue",
            LooprError::PaymentNotDue => "Payment is not due yet",
            LooprError::AutoPayNotEnabled => "Auto-pay is not enabled",
            LooprError::ThreadAuthorityMismatch => "Thread authority mismatch",
            LooprError::PlanIdTooLong => "Plan ID too long",
            LooprError::PlanNameTooLong => "Plan name too long",
            LooprError::PlanDescriptionTooLong => "Plan description too long",
            LooprError::SubscriptionIdTooLong => "Subscription ID too long",
            LooprError::InvalidPeriodDuration => "Invalid period duration",
            LooprError::Unauthorized => "Unauthorized operation",
            LooprError::ProgramPaused => "Program is paused",
            LooprError::PaymentIntentNotFound => "Payment intent not found",
            LooprError::PaymentIntentExpired => "Payment intent expired",
            LooprError::PaymentIntentAlreadyFulfilled => "Payment intent already fulfilled",
            LooprError::InvalidPaymentIntentStatus => "Invalid payment intent status",
            LooprError::QRPaymentFailed => "QR code payment failed",
            LooprError::IntentIdTooLong => "Intent ID too long",
            LooprError::TextTooLong => "Text does not fit its field",
            LooprError::TransactionReferenceTooLong => "Transaction reference too long",
            LooprError::PaymentAlreadyConfirmed => "Payment already confirmed",
            LooprError::CounterOverflow => "Counter overflow",
            LooprError::AddressDerivationExhausted => "No valid address for these seeds",
        }
    }
}

} // verus!
