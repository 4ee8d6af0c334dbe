//! Single-subscription charge algorithms: the interval charge and the
//! metered usage charge. Both are "early-validate, late-mutate": no partial
//! state is written on a failure path, except the single documented
//! status-only transition to `InsufficientBalance`.

use vstd::prelude::*;

use crate::safe_math::safe_sub_balance;
use crate::state_machine::validate_status_transition;
use crate::types::{spec_error_code, sub_wf, Error, Subscription, SubscriptionStatus};
use crate::vault::{accrual_of, credit_accrual, spec_credit, vault_inv, SubscriptionVault, VaultView};

verus! {

/// Whether the subscription's expiration time has been reached at `now`.
pub open spec fn spec_expired(s: Subscription, now: u64) -> bool {
    s.expiration matches Some(e) && now >= e
}

/// The earliest time at which the next interval charge is allowed
/// (as a mathematical integer; it may exceed `u64::MAX`).
pub open spec fn spec_next_allowed(s: Subscription) -> int {
    s.last_payment_timestamp + s.interval_seconds
}

/// Whether an interval charge of `s` at time `now` succeeds: the record is
/// active and unexpired, the interval boundary has been computed without
/// overflow and reached (a charge at exactly the boundary succeeds), and the
/// prepaid balance covers the amount.
pub open spec fn spec_charge_ok(s: Subscription, now: u64) -> bool {
    &&& s.status == SubscriptionStatus::Active
    &&& !spec_expired(s, now)
    &&& spec_next_allowed(s) <= u64::MAX
    &&& now >= spec_next_allowed(s)
    &&& s.prepaid_balance >= s.amount
}

/// The error an interval charge of `s` at `now` fails with, in validation
/// order, when `spec_charge_ok(s, now)` does not hold.
pub open spec fn spec_charge_err(s: Subscription, now: u64) -> Error {
    if s.status != SubscriptionStatus::Active {
        Error::NotActive
    } else if spec_expired(s, now) {
        Error::SubscriptionExpired
    } else if spec_next_allowed(s) > u64::MAX {
        Error::Overflow
    } else if now < spec_next_allowed(s) {
        Error::IntervalNotElapsed
    } else {
        Error::InsufficientBalance
    }
}

/// The record after a successful interval charge at `now`: the amount is
/// debited, the payment watermark advances to `now`, and everything else,
/// the `Active` status included, is unchanged.
pub open spec fn spec_charged(s: Subscription, now: u64) -> Subscription {
    Subscription {
        prepaid_balance: (s.prepaid_balance - s.amount) as i128,
        last_payment_timestamp: now,
        ..s
    }
}

/// The record after an interval charge attempt at `now`, successful or not:
/// on success the charged record, on an insufficient-balance failure the
/// record with only its status moved to `InsufficientBalance`, and otherwise
/// the record unchanged.
pub open spec fn spec_after_charge(s: Subscription, now: u64) -> Subscription {
    if spec_charge_ok(s, now) {
        spec_charged(s, now)
    } else if spec_charge_err(s, now) == Error::InsufficientBalance {
        Subscription { status: SubscriptionStatus::InsufficientBalance, ..s }
    } else {
        s
    }
}

/// Charges one billing interval of a subscription at ledger time `now`.
///
/// Succeeds exactly when `spec_charge_ok` holds, debiting `amount` and
/// advancing `last_payment_timestamp` to `now`. Fails with the first error
/// of: `NotActive`, `SubscriptionExpired`, `Overflow` (the interval boundary
/// does not fit in a u64), `IntervalNotElapsed` (strict boundary: a charge at
/// exactly `last_payment_timestamp + interval_seconds` succeeds), or
/// `InsufficientBalance`. The insufficient-balance failure is the one path
/// that still mutates state: the status moves to `InsufficientBalance`
/// through the state machine and no balance is debited. Every other failure
/// leaves the record unchanged.
pub fn charge_one(sub: &mut Subscription, now: u64) -> (r: Result<(), Error>)
    requires
        sub_wf(*old(sub)),
    ensures
        r is Ok <==> spec_charge_ok(*old(sub), now),
        r matches Err(e) ==> e == spec_charge_err(*old(sub), now),
        *final(sub) == spec_after_charge(*old(sub), now),
        sub_wf(*final(sub)),
        final(sub).last_payment_timestamp >= old(sub).last_payment_timestamp,
{
    if sub.status != SubscriptionStatus::Active {
        return Err(Error::NotActive);
    }

    match sub.expiration {
        Some(expiration) => {
            if now >= expiration {
                return Err(Error::SubscriptionExpired);
            }
        },
        None => {},
    }

    let next_allowed = match sub.last_payment_timestamp.checked_add(sub.interval_seconds) {
        Some(v) => v,
        None => {
            return Err(Error::Overflow);
        },
    };
    if now < next_allowed {
        return Err(Error::IntervalNotElapsed);
    }

    if sub.prepaid_balance < sub.amount {
        match validate_status_transition(&sub.status, &SubscriptionStatus::InsufficientBalance) {
            Ok(()) => {},
            Err(e) => {
                return Err(e);
            },
        }
        sub.status = SubscriptionStatus::InsufficientBalance;
        return Err(Error::InsufficientBalance);
    }

    let new_balance = match safe_sub_balance(sub.prepaid_balance, sub.amount) {
        Ok(v) => v,
        Err(e) => {
            return Err(e);
        },
    };
    sub.prepaid_balance = new_balance;
    sub.last_payment_timestamp = now;
    Ok(())
}

/// Whether a usage charge of `usage_amount` against `s` succeeds: the record
/// is active, metered charging is enabled, the amount is positive and the
/// prepaid balance covers it.
pub open spec fn spec_usage_ok(s: Subscription, usage_amount: i128) -> bool {
    &&& s.status == SubscriptionStatus::Active
    &&& s.usage_enabled
    &&& usage_amount > 0
    &&& s.prepaid_balance >= usage_amount
}

/// The error a usage charge fails with, in validation order, when
/// `spec_usage_ok` does not hold.
pub open spec fn spec_usage_err(s: Subscription, usage_amount: i128) -> Error {
    if s.status != SubscriptionStatus::Active {
        Error::NotActive
    } else if !s.usage_enabled {
        Error::UsageNotEnabled
    } else if usage_amount <= 0 {
        Error::InvalidAmount
    } else {
        Error::InsufficientPrepaidBalance
    }
}

/// The record after a successful usage charge: the amount is debited, and if
/// the balance is thereby drained to exactly zero the status moves to
/// `InsufficientBalance`, blocking further interval and usage charges until
/// the subscriber tops up.
pub open spec fn spec_usage_charged(s: Subscription, usage_amount: i128) -> Subscription {
    Subscription {
        prepaid_balance: (s.prepaid_balance - usage_amount) as i128,
        status: if s.prepaid_balance - usage_amount == 0 {
            SubscriptionStatus::InsufficientBalance
        } else {
            s.status
        },
        ..s
    }
}

/// Debits a metered `usage_amount` from a subscription's prepaid balance.
///
/// Succeeds exactly when `spec_usage_ok` holds. Fails with the first error
/// of: `NotActive`, `UsageNotEnabled`, `InvalidAmount` (non-positive
/// amount), or `InsufficientPrepaidBalance`; every failure leaves the record
/// unchanged. On success the balance is reduced, and if it reaches exactly
/// zero the status moves to `InsufficientBalance` through the state machine.
pub fn charge_usage_one(sub: &mut Subscription, usage_amount: i128) -> (r: Result<(), Error>)
    requires
        sub_wf(*old(sub)),
    ensures
        r is Ok <==> spec_usage_ok(*old(sub), usage_amount),
        r matches Err(e) ==> e == spec_usage_err(*old(sub), usage_amount),
        spec_usage_ok(*old(sub), usage_amount) ==> *final(sub) == spec_usage_charged(
            *old(sub),
            usage_amount,
        ),
        !spec_usage_ok(*old(sub), usage_amount) ==> *final(sub) == *old(sub),
        sub_wf(*final(sub)),
{
    if sub.status != SubscriptionStatus::Active {
        return Err(Error::NotActive);
    }
    if !sub.usage_enabled {
        return Err(Error::UsageNotEnabled);
    }
    if usage_amount <= 0 {
        return Err(Error::InvalidAmount);
    }
    if sub.prepaid_balance < usage_amount {
        return Err(Error::InsufficientPrepaidBalance);
    }

    let new_balance = match safe_sub_balance(sub.prepaid_balance, usage_amount) {
        Ok(v) => v,
        Err(e) => {
            return Err(e);
        },
    };
    sub.prepaid_balance = new_balance;

    // If the vault is now empty, block further charges (interval or usage)
    // until the subscriber tops up.
    if sub.prepaid_balance == 0 {
        match validate_status_transition(&sub.status, &SubscriptionStatus::InsufficientBalance) {
            Ok(()) => {},
            Err(e) => {
                return Err(e);
            },
        }
        sub.status = SubscriptionStatus::InsufficientBalance;
    }
    Ok(())
}

/// An interval charge at exactly the boundary succeeds, and one second
/// before the boundary fails with `IntervalNotElapsed`: for an active,
/// unexpired, sufficiently funded record whose boundary fits in a u64,
/// charging at `last_payment_timestamp + interval_seconds` is allowed and
/// charging any earlier is rejected with `IntervalNotElapsed` (and, by
/// `charge_one`'s contract, leaves the record unchanged).
pub proof fn lemma_charge_boundary(s: Subscription, now: u64)
    requires
        sub_wf(s),
        s.status == SubscriptionStatus::Active,
        !spec_expired(s, now),
        s.prepaid_balance >= s.amount,
        spec_next_allowed(s) <= u64::MAX,
        now == spec_next_allowed(s),
    ensures
        spec_charge_ok(s, now),
        !spec_charge_ok(s, (now - 1) as u64),
        spec_charge_err(s, (now - 1) as u64) == Error::IntervalNotElapsed,
{
    assert(now >= 1);
}

/// A repeated interval charge at an unchanged `now` after a prior success
/// fails with `IntervalNotElapsed`, provided the advanced boundary
/// `now + interval_seconds` still fits in a u64 (when it does not, the
/// repeat fails all the same, with `Overflow`). In particular the repeat
/// never succeeds.
pub proof fn lemma_charge_replay(s: Subscription, now: u64)
    requires
        sub_wf(s),
        spec_charge_ok(s, now),
    ensures
        !spec_charge_ok(spec_charged(s, now), now),
        now + s.interval_seconds <= u64::MAX ==> spec_charge_err(spec_charged(s, now), now)
            == Error::IntervalNotElapsed,
        now + s.interval_seconds > u64::MAX ==> spec_charge_err(spec_charged(s, now), now)
            == Error::Overflow,
{
}

/// A failed interval charge never debits the balance, and only the
/// insufficient-balance failure touches the record at all (status only).
pub proof fn lemma_failed_charge_preserves_balance(s: Subscription, now: u64)
    requires
        !spec_charge_ok(s, now),
    ensures
        spec_after_charge(s, now).prepaid_balance == s.prepaid_balance,
        spec_after_charge(s, now).last_payment_timestamp == s.last_payment_timestamp,
        spec_charge_err(s, now) != Error::InsufficientBalance ==> spec_after_charge(s, now) == s,
{
}

/// The outcome code of charging one identifier against a vault: 0 on
/// success, the error's numeric code on failure. A charge fails `NotFound`
/// for an identifier never assigned, with the record-level error when
/// `spec_charge_ok` does not hold, and with `Overflow` in the extreme case
/// that crediting the merchant's accrued balance would exceed `i128::MAX`.
pub open spec fn spec_charge_step_code(v: VaultView, id: u32, now: u64) -> u32 {
    if !(id < v.subs.len()) {
        spec_error_code(Error::NotFound)
    } else {
        let s = v.subs[id as int];
        if !spec_charge_ok(s, now) {
            spec_error_code(spec_charge_err(s, now))
        } else if accrual_of(v.accruals, s.merchant) + s.amount > i128::MAX {
            spec_error_code(Error::Overflow)
        } else {
            0
        }
    }
}

/// The vault after charging one identifier: on success the record is debited
/// and its watermark advanced, and the merchant's accrued balance is
/// credited with the amount; on an insufficient-balance failure only the
/// record's status moves to `InsufficientBalance`; on any other failure the
/// vault is unchanged.
pub open spec fn spec_charge_step(v: VaultView, id: u32, now: u64) -> VaultView {
    if !(id < v.subs.len()) {
        v
    } else {
        let s = v.subs[id as int];
        if !spec_charge_ok(s, now) {
            if spec_charge_err(s, now) == Error::InsufficientBalance {
                VaultView { subs: v.subs.update(id as int, spec_after_charge(s, now)), ..v }
            } else {
                v
            }
        } else if accrual_of(v.accruals, s.merchant) + s.amount > i128::MAX {
            v
        } else {
            VaultView {
                subs: v.subs.update(id as int, spec_charged(s, now)),
                accruals: spec_credit(v.accruals, s.merchant, s.amount as int),
                ..v
            }
        }
    }
}

/// A charge step keeps the vault invariant: the records it rewrites stay
/// well formed and the credited accrued balance stays non-negative.
pub proof fn lemma_charge_step_preserves_inv(v: VaultView, id: u32, now: u64)
    requires
        vault_inv(v),
    ensures
        vault_inv(spec_charge_step(v, id, now)),
{
    let stepped = spec_charge_step(v, id, now);
    assert forall|i: int| 0 <= i < stepped.subs.len() implies sub_wf(#[trigger] stepped.subs[i]) by {
        assert(sub_wf(v.subs[i]));
    }
    assert forall|i: int| 0 <= i < stepped.accruals.len() implies (#[trigger] stepped.accruals[i]).balance
        >= 0 by {
        if id < v.subs.len() {
            let s = v.subs[id as int];
            assert(sub_wf(s));
            if spec_charge_ok(s, now) && accrual_of(v.accruals, s.merchant) + s.amount
                <= i128::MAX {
                crate::vault::lemma_find_accrual_valid(v.accruals, s.merchant);
                if i < v.accruals.len() {
                    assert(v.accruals[i].balance >= 0);
                }
            }
        }
    }
}

/// The payment watermark never goes backwards: a charge step leaves every
/// record's `last_payment_timestamp` at least where it was (a successful
/// charge advances the charged record's watermark to `now`, which lies at or
/// past its interval boundary; everything else keeps it).
pub proof fn lemma_charge_step_timestamps(v: VaultView, id: u32, now: u64, i: int)
    requires
        vault_inv(v),
        0 <= i < v.subs.len(),
    ensures
        spec_charge_step(v, id, now).subs.len() == v.subs.len(),
        spec_charge_step(v, id, now).subs[i].last_payment_timestamp
            >= v.subs[i].last_payment_timestamp,
{
    assert(sub_wf(v.subs[i]));
}

/// Once cancelled, always cancelled: no charge step moves a record out of
/// `Cancelled`. A charge only ever touches an `Active` record (a cancelled
/// one fails `NotActive`, changing nothing), so a cancelled record's status —
/// and every other field of it — survives any charge of any identifier.
pub proof fn lemma_charge_step_preserves_cancelled(v: VaultView, id: u32, now: u64, i: int)
    requires
        0 <= i < v.subs.len(),
        v.subs[i].status == SubscriptionStatus::Cancelled,
    ensures
        spec_charge_step(v, id, now).subs.len() == v.subs.len(),
        spec_charge_step(v, id, now).subs[i] == v.subs[i],
{
}

impl SubscriptionVault {
    /// Charges one billing interval of the subscription `subscription_id` at
    /// ledger time `now`, debiting its prepaid balance and crediting the
    /// merchant's accrued balance.
    ///
    /// Succeeds exactly when the identifier exists, `spec_charge_ok` holds of
    /// its record, and the merchant credit fits in an i128; the failures, in
    /// order, are `NotFound`, the record-level charge error (`NotActive`,
    /// `SubscriptionExpired`, `Overflow`, `IntervalNotElapsed`,
    /// `InsufficientBalance` — see `charge_one`), and `Overflow`. The
    /// insufficient-balance failure persists the status move to
    /// `InsufficientBalance`; every other failure leaves the vault unchanged.
    pub fn charge_subscription(&mut self, subscription_id: u32, now: u64) -> (r: Result<
        (),
        Error,
    >)
        requires
            vault_inv(old(self)@),
        ensures
            vault_inv(final(self)@),
            final(self)@ == spec_charge_step(old(self)@, subscription_id, now),
            r is Ok <==> spec_charge_step_code(old(self)@, subscription_id, now) == 0,
            r matches Err(e) ==> spec_error_code(e) == spec_charge_step_code(
                old(self)@,
                subscription_id,
                now,
            ),
            !(subscription_id < old(self)@.subs.len()) ==> r == Err::<(), Error>(Error::NotFound),
            subscription_id < old(self)@.subs.len() && !spec_charge_ok(
                old(self)@.subs[subscription_id as int],
                now,
            ) ==> r == Err::<(), Error>(
                spec_charge_err(old(self)@.subs[subscription_id as int], now),
            ),
    {
        let id = subscription_id as usize;
        if id >= self.subscriptions.len() {
            return Err(Error::NotFound);
        }
        let mut sub = self.subscriptions[id];
        let merchant = sub.merchant;
        let amount = sub.amount;
        match charge_one(&mut sub, now) {
            Ok(()) => {
                match credit_accrual(&mut self.accruals, merchant, amount) {
                    Ok(()) => {
                        self.subscriptions[id] = sub;
                        Ok(())
                    },
                    Err(e) => Err(e),
                }
            },
            Err(e) => {
                if e == Error::InsufficientBalance {
                    // The one failure that still mutates state: persist the
                    // status-only move to InsufficientBalance.
                    self.subscriptions[id] = sub;
                }
                Err(e)
            },
        }
    }

    /// Debits a metered `usage_amount` from the subscription's prepaid
    /// balance and credits the merchant's accrued balance.
    ///
    /// Succeeds exactly when the identifier exists, `spec_usage_ok` holds of
    /// its record, and the merchant credit fits in an i128; the failures, in
    /// order, are `NotFound`, the record-level usage error (`NotActive`,
    /// `UsageNotEnabled`, `InvalidAmount`, `InsufficientPrepaidBalance` — see
    /// `charge_usage_one`), and `Overflow`. Every failure leaves the vault
    /// unchanged; on success, a balance drained to exactly zero moves the
    /// status to `InsufficientBalance`.
    pub fn charge_usage(&mut self, subscription_id: u32, usage_amount: i128) -> (r: Result<
        (),
        Error,
    >)
        requires
            vault_inv(old(self)@),
        ensures
            vault_inv(final(self)@),
            !(subscription_id < old(self)@.subs.len()) ==> r == Err::<(), Error>(Error::NotFound)
                && final(self)@ == old(self)@,
            subscription_id < old(self)@.subs.len() && !spec_usage_ok(
                old(self)@.subs[subscription_id as int],
                usage_amount,
            ) ==> r == Err::<(), Error>(
                spec_usage_err(old(self)@.subs[subscription_id as int], usage_amount),
            ) && final(self)@ == old(self)@,
            subscription_id < old(self)@.subs.len() && spec_usage_ok(
                old(self)@.subs[subscription_id as int],
                usage_amount,
            ) && accrual_of(
                old(self)@.accruals,
                old(self)@.subs[subscription_id as int].merchant,
            ) + usage_amount > i128::MAX ==> r == Err::<(), Error>(Error::Overflow) && final(self)@ == old(self)@,
            subscription_id < old(self)@.subs.len() && spec_usage_ok(
                old(self)@.subs[subscription_id as int],
                usage_amount,
            ) && accrual_of(
                old(self)@.accruals,
                old(self)@.subs[subscription_id as int].merchant,
            ) + usage_amount <= i128::MAX ==> r == Ok::<(), Error>(()) && final(self)@ == (VaultView {
                subs: old(self)@.subs.update(
                    subscription_id as int,
                    spec_usage_charged(old(self)@.subs[subscription_id as int], usage_amount),
                ),
                accruals: spec_credit(
                    old(self)@.accruals,
                    old(self)@.subs[subscription_id as int].merchant,
                    usage_amount as int,
                ),
                ..old(self)@
            }),
    {
        let id = subscription_id as usize;
        if id >= self.subscriptions.len() {
            return Err(Error::NotFound);
        }
        let mut sub = self.subscriptions[id];
        let merchant = sub.merchant;
        match charge_usage_one(&mut sub, usage_amount) {
            Ok(()) => {
                match credit_accrual(&mut self.accruals, merchant, usage_amount) {
                    Ok(()) => {
                        self.subscriptions[id] = sub;
                        Ok(())
                    },
                    Err(e) => Err(e),
                }
            },
            Err(e) => Err(e),
        }
    }
}

} // verus!
