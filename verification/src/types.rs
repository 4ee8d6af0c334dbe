//! Core data types: identities, subscription records, statuses, errors and
//! the read-only projections derived from them.

use vstd::prelude::*;

verus! {

/// An identity handle. Identities are opaque to the billing core: it only
/// ever compares them for equality. The host maps them to real account
/// addresses.
#[derive(Clone, Copy, Debug, PartialEq, Eq, Structural)]
pub struct Address {
    pub id: u64,
}

/// Lifecycle state of a subscription.
///
/// Statuses change only through transitions the table in
/// `state_machine::spec_can_transition` permits; `Cancelled` is terminal.
#[derive(Clone, Copy, Debug, PartialEq, Eq, Structural)]
pub enum SubscriptionStatus {
    /// Charges can be processed.
    Active,
    /// Temporarily suspended; no charges until resumed.
    Paused,
    /// Permanently terminated; no further status changes.
    Cancelled,
    /// The last charge attempt found the prepaid balance short; charging is
    /// blocked until the subscriber tops up and resumes.
    InsufficientBalance,
    /// A missed charge put the subscription into a grace period before
    /// suspension.
    GracePeriod,
}

/// Everything that can go wrong in the billing core.
#[derive(Clone, Copy, Debug, PartialEq, Eq, Structural)]
pub enum Error {
    /// Caller lacks the required authorization or is not the admin.
    Unauthorized,
    /// Caller is authorized but not permitted to act on this record.
    Forbidden,
    /// The requested record was not found.
    NotFound,
    /// The requested status change is not allowed by the state machine.
    InvalidStatusTransition,
    /// The top-up amount is below the configured minimum threshold.
    BelowMinimumTopup,
    /// The provided amount is zero or negative.
    InvalidAmount,
    /// Charge already processed for this billing period.
    Replay,
    /// Invalid recovery amount.
    InvalidRecoveryAmount,
    /// Already initialized.
    AlreadyInitialized,
    /// Recovery operation not allowed for this reason or context.
    RecoveryNotAllowed,
    /// Invalid input provided to a function.
    InvalidInput,
    /// The billing interval has not elapsed since the last payment.
    IntervalNotElapsed,
    /// The subscription is not in an active state.
    NotActive,
    /// Insufficient prepaid balance to cover an interval charge.
    InsufficientBalance,
    /// Usage charging is not enabled for this subscription.
    UsageNotEnabled,
    /// Insufficient prepaid balance for the requested usage charge.
    InsufficientPrepaidBalance,
    /// The operation would overflow an i128 or u64.
    Overflow,
    /// The operation would underflow or drive a balance negative.
    Underflow,
    /// The contract or requested configuration is not initialized.
    NotInitialized,
    /// The requested export limit exceeds the maximum allowed.
    InvalidExportLimit,
    /// The subscription's expiration time has been reached.
    SubscriptionExpired,
}

/// The numeric wire code of each error, used in batch result reporting.
pub open spec fn spec_error_code(e: Error) -> u32 {
    match e {
        Error::Unauthorized => 401,
        Error::Forbidden => 403,
        Error::NotFound => 404,
        Error::InvalidStatusTransition => 400,
        Error::BelowMinimumTopup => 402,
        Error::InvalidAmount => 1006,
        Error::Replay => 1007,
        Error::InvalidRecoveryAmount => 1008,
        Error::AlreadyInitialized => 1009,
        Error::RecoveryNotAllowed => 1011,
        Error::InvalidInput => 1015,
        Error::IntervalNotElapsed => 1001,
        Error::NotActive => 1002,
        Error::InsufficientBalance => 1003,
        Error::UsageNotEnabled => 1004,
        Error::InsufficientPrepaidBalance => 1005,
        Error::Overflow => 1012,
        Error::Underflow => 1010,
        Error::NotInitialized => 1013,
        Error::InvalidExportLimit => 1014,
        Error::SubscriptionExpired => 1016,
    }
}

impl Error {
    /// Returns the numeric code for this error (for batch result reporting).
    pub fn to_code(self) -> (code: u32)
        ensures
            code == spec_error_code(self),
    {
        match self {
            Error::Unauthorized => 401,
            Error::Forbidden => 403,
            Error::NotFound => 404,
            Error::InvalidStatusTransition => 400,
            Error::BelowMinimumTopup => 402,
            Error::InvalidAmount => 1006,
            Error::Replay => 1007,
            Error::InvalidRecoveryAmount => 1008,
            Error::AlreadyInitialized => 1009,
            Error::RecoveryNotAllowed => 1011,
            Error::InvalidInput => 1015,
            Error::IntervalNotElapsed => 1001,
            Error::NotActive => 1002,
            Error::InsufficientBalance => 1003,
            Error::UsageNotEnabled => 1004,
            Error::InsufficientPrepaidBalance => 1005,
            Error::Overflow => 1012,
            Error::Underflow => 1010,
            Error::NotInitialized => 1013,
            Error::InvalidExportLimit => 1014,
            Error::SubscriptionExpired => 1016,
        }
    }
}

/// Detailed error information for insufficient balance scenarios: how much
/// was available and how much the charge required.
#[derive(Clone, Copy, Debug, PartialEq, Eq, Structural)]
pub struct InsufficientBalanceError {
    /// The available prepaid balance at the time of the failed charge.
    pub available: i128,
    /// The amount the charge required.
    pub required: i128,
}

impl InsufficientBalanceError {
    /// Creates a record of a failed charge with the given available and
    /// required amounts.
    pub fn new(available: i128, required: i128) -> (e: Self)
        ensures
            e.available == available,
            e.required == required,
    {
        InsufficientBalanceError { available, required }
    }

    /// Returns the shortfall amount (required - available).
    pub fn shortfall(&self) -> (s: i128)
        requires
            i128::MIN <= self.required - self.available <= i128::MAX,
        ensures
            s == self.required - self.available,
    {
        self.required - self.available
    }
}

/// Result of charging one subscription in a batch.
#[derive(Clone, Copy, Debug, PartialEq, Eq, Structural)]
pub struct BatchChargeResult {
    /// True if the charge succeeded.
    pub success: bool,
    /// If `success` is false, the error's numeric code; otherwise 0.
    pub error_code: u32,
}

/// A subscription agreement between a subscriber and a merchant.
///
/// For the lifetime of a record `amount > 0`, `interval_seconds > 0` and
/// `prepaid_balance >= 0` (see `sub_wf`); `status` changes only through
/// table-validated transitions, and `last_payment_timestamp` never decreases.
#[derive(Clone, Copy, Debug, PartialEq, Eq)]
pub struct Subscription {
    /// Identity of the paying party.
    pub subscriber: Address,
    /// Identity of the party being paid.
    pub merchant: Address,
    /// Recurring charge per interval; positive.
    pub amount: i128,
    /// Billing period length in seconds; positive.
    pub interval_seconds: u64,
    /// Watermark advanced only on a successful interval charge.
    pub last_payment_timestamp: u64,
    /// Current lifecycle state; modified only through the state machine.
    pub status: SubscriptionStatus,
    /// Funds available to be debited; never negative.
    pub prepaid_balance: i128,
    /// Gates metered (usage-based) charging.
    pub usage_enabled: bool,
    /// If present, charges are blocked once the ledger clock reaches or
    /// passes this time.
    pub expiration: Option<u64>,
}

/// The invariant every stored subscription record satisfies.
pub open spec fn sub_wf(s: Subscription) -> bool {
    &&& s.amount > 0
    &&& s.interval_seconds > 0
    &&& s.prepaid_balance >= 0
}

/// A merchant-owned reusable parameter set used to stamp out subscriptions.
/// Immutable once created.
#[derive(Clone, Copy, Debug, PartialEq, Eq)]
pub struct PlanTemplate {
    /// Merchant who owns this plan template.
    pub merchant: Address,
    /// Recurring charge amount per interval; positive.
    pub amount: i128,
    /// Billing interval in seconds; positive.
    pub interval_seconds: u64,
    /// Whether usage-based charging is enabled.
    pub usage_enabled: bool,
}

/// The invariant every stored plan template satisfies.
pub open spec fn plan_wf(p: PlanTemplate) -> bool {
    &&& p.amount > 0
    &&& p.interval_seconds > 0
}

/// Result of computing next charge information for a subscription.
#[derive(Clone, Copy, Debug, PartialEq, Eq, Structural)]
pub struct NextChargeInfo {
    /// Estimated timestamp for the next charge attempt:
    /// `last_payment_timestamp + interval_seconds`, saturating at `u64::MAX`.
    pub next_charge_timestamp: u64,
    /// Whether a charge is actually expected given the current status:
    /// true for `Active`, `InsufficientBalance` and `GracePeriod`, false for
    /// `Paused` and `Cancelled`.
    pub is_charge_expected: bool,
}

/// The saturating next-charge timestamp of a subscription.
pub open spec fn spec_next_charge_timestamp(s: Subscription) -> u64 {
    if s.last_payment_timestamp + s.interval_seconds <= u64::MAX {
        (s.last_payment_timestamp + s.interval_seconds) as u64
    } else {
        u64::MAX
    }
}

/// Whether a future charge is expected for a subscription in this status.
pub open spec fn spec_is_charge_expected(status: SubscriptionStatus) -> bool {
    match status {
        SubscriptionStatus::Active => true,
        SubscriptionStatus::InsufficientBalance => true,
        SubscriptionStatus::GracePeriod => true,
        SubscriptionStatus::Paused => false,
        SubscriptionStatus::Cancelled => false,
    }
}

/// Computes the estimated next charge timestamp for a subscription and
/// whether a charge is expected at all. Read-only; never overflows (the
/// timestamp saturates).
pub fn compute_next_charge_info(subscription: &Subscription) -> (info: NextChargeInfo)
    ensures
        info.next_charge_timestamp == spec_next_charge_timestamp(*subscription),
        info.is_charge_expected == spec_is_charge_expected(subscription.status),
{
    let next_charge_timestamp = subscription
        .last_payment_timestamp
        .saturating_add(subscription.interval_seconds);

    let is_charge_expected = match subscription.status {
        SubscriptionStatus::Active => true,
        SubscriptionStatus::InsufficientBalance => true,
        SubscriptionStatus::GracePeriod => true,
        SubscriptionStatus::Paused => false,
        SubscriptionStatus::Cancelled => false,
    };

    NextChargeInfo { next_charge_timestamp, is_charge_expected }
}

/// The documented reason for an admin recovery of stranded funds.
#[derive(Clone, Copy, Debug, PartialEq, Eq, Structural)]
pub enum RecoveryReason {
    /// Funds sent to the contract address by mistake.
    AccidentalTransfer,
    /// Funds from deprecated contract flows or logic errors.
    DeprecatedFlow,
    /// Funds from cancelled subscriptions with unreachable addresses.
    UnreachableSubscriber,
}

/// Audit record of an admin recovery of stranded funds. Returned by
/// `recover_stranded_funds` so the host can publish it.
#[derive(Clone, Copy, Debug, PartialEq, Eq, Structural)]
pub struct RecoveryEvent {
    /// The admin who authorized the recovery.
    pub admin: Address,
    /// The destination receiving the recovered funds.
    pub recipient: Address,
    /// The amount of funds recovered.
    pub amount: i128,
    /// The documented reason for recovery.
    pub reason: RecoveryReason,
    /// When the recovery was executed.
    pub timestamp: u64,
}

/// A merchant's accrued balance: credited on each successful charge of a
/// subscription paying this merchant, debited on withdrawal. Never negative.
#[derive(Clone, Copy, Debug, PartialEq, Eq, Structural)]
pub struct MerchantAccrual {
    /// The merchant the balance belongs to.
    pub merchant: Address,
    /// The accrued, not yet withdrawn, amount.
    pub balance: i128,
}

} // verus!
