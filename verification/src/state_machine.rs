//! The authoritative table of legal subscription-status transitions.
//!
//! Every lifecycle operation and the charge engine consult this table before
//! mutating a status; no caller assigns `status` directly. Same-state
//! transitions are always allowed (idempotence) and `Cancelled` is terminal.

use vstd::prelude::*;

use crate::types::{Error, SubscriptionStatus};

verus! {

/// The transition table: whether a record may move from `from` to `to`.
///
/// Besides the idempotent same-state transitions:
/// - `Active` may move to `Paused`, `Cancelled`, `InsufficientBalance` or
///   `GracePeriod`;
/// - `Paused` may move to `Active` or `Cancelled`;
/// - `InsufficientBalance` may move to `Active`, `Cancelled` or `GracePeriod`;
/// - `GracePeriod` may move to `Active`, `InsufficientBalance` or `Cancelled`;
/// - `Cancelled` may move nowhere else.
pub open spec fn spec_can_transition(from: SubscriptionStatus, to: SubscriptionStatus) -> bool {
    ||| from == to
    ||| match from {
        SubscriptionStatus::Active => {
            ||| to == SubscriptionStatus::Paused
            ||| to == SubscriptionStatus::Cancelled
            ||| to == SubscriptionStatus::InsufficientBalance
            ||| to == SubscriptionStatus::GracePeriod
        },
        SubscriptionStatus::Paused => {
            ||| to == SubscriptionStatus::Active
            ||| to == SubscriptionStatus::Cancelled
        },
        SubscriptionStatus::InsufficientBalance => {
            ||| to == SubscriptionStatus::Active
            ||| to == SubscriptionStatus::Cancelled
            ||| to == SubscriptionStatus::GracePeriod
        },
        SubscriptionStatus::GracePeriod => {
            ||| to == SubscriptionStatus::Active
            ||| to == SubscriptionStatus::InsufficientBalance
            ||| to == SubscriptionStatus::Cancelled
        },
        SubscriptionStatus::Cancelled => false,
    }
}

/// Returns whether the state machine allows moving from `current` to
/// `target`.
pub fn can_transition(current: &SubscriptionStatus, target: &SubscriptionStatus) -> (allowed:
    bool)
    ensures
        allowed == spec_can_transition(*current, *target),
{
    if *current == *target {
        return true;
    }
    match current {
        SubscriptionStatus::Active => match target {
            SubscriptionStatus::Paused => true,
            SubscriptionStatus::Cancelled => true,
            SubscriptionStatus::InsufficientBalance => true,
            SubscriptionStatus::GracePeriod => true,
            _ => false,
        },
        SubscriptionStatus::Paused => match target {
            SubscriptionStatus::Active => true,
            SubscriptionStatus::Cancelled => true,
            _ => false,
        },
        SubscriptionStatus::InsufficientBalance => match target {
            SubscriptionStatus::Active => true,
            SubscriptionStatus::Cancelled => true,
            SubscriptionStatus::GracePeriod => true,
            _ => false,
        },
        SubscriptionStatus::GracePeriod => match target {
            SubscriptionStatus::Active => true,
            SubscriptionStatus::InsufficientBalance => true,
            SubscriptionStatus::Cancelled => true,
            _ => false,
        },
        SubscriptionStatus::Cancelled => false,
    }
}

/// Validates a requested status transition: `Ok(())` exactly when the table
/// allows it, `InvalidStatusTransition` otherwise.
pub fn validate_status_transition(
    current: &SubscriptionStatus,
    target: &SubscriptionStatus,
) -> (r: Result<(), Error>)
    ensures
        r is Ok <==> spec_can_transition(*current, *target),
        r is Err ==> r == Err::<(), Error>(Error::InvalidStatusTransition),
{
    if can_transition(current, target) {
        Ok(())
    } else {
        Err(Error::InvalidStatusTransition)
    }
}

/// The distinct non-grace statuses the table permits as targets from `from`;
/// a helper for user interfaces that list the actions available on a record.
/// The idempotent same-state transition and the grace-period status, which no
/// operation of this crate assigns, are omitted.
pub open spec fn spec_allowed_transitions(from: SubscriptionStatus) -> Seq<SubscriptionStatus> {
    match from {
        SubscriptionStatus::Active => seq![
            SubscriptionStatus::Paused,
            SubscriptionStatus::Cancelled,
            SubscriptionStatus::InsufficientBalance,
        ],
        SubscriptionStatus::Paused => seq![
            SubscriptionStatus::Active,
            SubscriptionStatus::Cancelled,
        ],
        SubscriptionStatus::Cancelled => Seq::empty(),
        SubscriptionStatus::InsufficientBalance => seq![
            SubscriptionStatus::Active,
            SubscriptionStatus::Cancelled,
        ],
        SubscriptionStatus::GracePeriod => seq![
            SubscriptionStatus::Active,
            SubscriptionStatus::InsufficientBalance,
            SubscriptionStatus::Cancelled,
        ],
    }
}

/// Lists the distinct non-grace statuses reachable from `current` according
/// to the transition table. Every listed target is a valid transition.
pub fn get_allowed_transitions(current: &SubscriptionStatus) -> (targets: Vec<SubscriptionStatus>)
    ensures
        targets@ == spec_allowed_transitions(*current),
        forall|i: int|
            0 <= i < targets@.len() ==> spec_can_transition(*current, #[trigger] targets@[i]),
{
    let mut targets: Vec<SubscriptionStatus> = Vec::new();
    match current {
        SubscriptionStatus::Active => {
            targets.push(SubscriptionStatus::Paused);
            targets.push(SubscriptionStatus::Cancelled);
            targets.push(SubscriptionStatus::InsufficientBalance);
        },
        SubscriptionStatus::Paused => {
            targets.push(SubscriptionStatus::Active);
            targets.push(SubscriptionStatus::Cancelled);
        },
        SubscriptionStatus::Cancelled => {},
        SubscriptionStatus::InsufficientBalance => {
            targets.push(SubscriptionStatus::Active);
            targets.push(SubscriptionStatus::Cancelled);
        },
        SubscriptionStatus::GracePeriod => {
            targets.push(SubscriptionStatus::Active);
            targets.push(SubscriptionStatus::InsufficientBalance);
            targets.push(SubscriptionStatus::Cancelled);
        },
    }
    proof {
        assert(targets@ =~= spec_allowed_transitions(*current));
    }
    targets
}

/// `Cancelled` is terminal: the only transition the table allows out of
/// `Cancelled` is the idempotent one back to `Cancelled`.
pub proof fn lemma_cancelled_terminal(to: SubscriptionStatus)
    ensures
        spec_can_transition(SubscriptionStatus::Cancelled, to) <==> to
            == SubscriptionStatus::Cancelled,
{
}

} // verus!
