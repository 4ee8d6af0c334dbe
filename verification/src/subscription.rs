//! Subscription lifecycle: creation (directly or from a plan template),
//! deposits, pause/resume/cancel, the merchant-initiated one-off charge, and
//! the withdrawal of a cancelled subscription's residual balance.
//!
//! Every operation either succeeds with the stated mutation or fails with no
//! mutation; every status change goes through the state machine and every
//! balance change through the safe arithmetic layer.

use vstd::prelude::*;

use crate::safe_math::{safe_add_balance, safe_sub_balance};
use crate::state_machine::{spec_can_transition, validate_status_transition};
use crate::types::{Address, Error, PlanTemplate, Subscription, SubscriptionStatus};
use crate::vault::{
    accrual_of, credit_accrual, spec_credit, vault_inv, SubscriptionVault, VaultView,
};

verus! {

/// The record a creation request yields before any deposit: active, with the
/// payment watermark at the creation time and an empty prepaid balance.
pub open spec fn spec_new_subscription(
    subscriber: Address,
    merchant: Address,
    amount: i128,
    interval_seconds: u64,
    usage_enabled: bool,
    expiration: Option<u64>,
    now: u64,
) -> Subscription {
    Subscription {
        subscriber,
        merchant,
        amount,
        interval_seconds,
        last_payment_timestamp: now,
        status: SubscriptionStatus::Active,
        prepaid_balance: 0,
        usage_enabled,
        expiration,
    }
}

/// Whether `authorizer` is a party to the subscription: its subscriber or
/// its merchant. Lifecycle changes demand one of the two.
pub open spec fn spec_is_party(s: Subscription, authorizer: Address) -> bool {
    authorizer == s.subscriber || authorizer == s.merchant
}

impl SubscriptionVault {
    /// Creates a subscription and assigns it the next identifier (one more
    /// than the previously assigned one; identifiers start at 0).
    ///
    /// Validates `amount > 0` (`InvalidAmount`) and `interval_seconds > 0`
    /// (`InvalidInput`); fails `Overflow` when the identifiers are exhausted.
    /// The record starts `Active` with an empty prepaid balance and its
    /// payment watermark at `now`; on failure nothing changes.
    pub fn create_subscription(
        &mut self,
        subscriber: Address,
        merchant: Address,
        amount: i128,
        interval_seconds: u64,
        usage_enabled: bool,
        expiration: Option<u64>,
        now: u64,
    ) -> (r: Result<u32, Error>)
        requires
            vault_inv(old(self)@),
        ensures
            vault_inv(final(self)@),
            amount <= 0 ==> r == Err::<u32, Error>(Error::InvalidAmount) && final(self)@ == old(
                self,
            )@,
            amount > 0 && interval_seconds == 0 ==> r == Err::<u32, Error>(Error::InvalidInput)
                && final(self)@ == old(self)@,
            amount > 0 && interval_seconds > 0 && old(self)@.subs.len() == u32::MAX ==> r == Err::<
                u32,
                Error,
            >(Error::Overflow) && final(self)@ == old(self)@,
            amount > 0 && interval_seconds > 0 && old(self)@.subs.len() < u32::MAX ==> r == Ok::<
                u32,
                Error,
            >(old(self)@.subs.len() as u32) && final(self)@ == (VaultView {
                subs: old(self)@.subs.push(
                    spec_new_subscription(
                        subscriber,
                        merchant,
                        amount,
                        interval_seconds,
                        usage_enabled,
                        expiration,
                        now,
                    ),
                ),
                ..old(self)@
            }),
    {
        if amount <= 0 {
            return Err(Error::InvalidAmount);
        }
        if interval_seconds == 0 {
            return Err(Error::InvalidInput);
        }
        if self.subscriptions.len() >= u32::MAX as usize {
            return Err(Error::Overflow);
        }
        let id = self.subscriptions.len() as u32;
        let sub = Subscription {
            subscriber,
            merchant,
            amount,
            interval_seconds,
            last_payment_timestamp: now,
            status: SubscriptionStatus::Active,
            prepaid_balance: 0,
            usage_enabled,
            expiration,
        };
        self.subscriptions.push(sub);
        Ok(id)
    }

    /// Creates a reusable plan template owned by `merchant` and assigns it
    /// the next plan identifier.
    ///
    /// Validates `amount > 0` (`InvalidAmount`) and `interval_seconds > 0`
    /// (`InvalidInput`), so every subscription stamped from a template is
    /// well formed; fails `Overflow` when the identifiers are exhausted. On
    /// failure nothing changes.
    pub fn create_plan_template(
        &mut self,
        merchant: Address,
        amount: i128,
        interval_seconds: u64,
        usage_enabled: bool,
    ) -> (r: Result<u32, Error>)
        requires
            vault_inv(old(self)@),
        ensures
            vault_inv(final(self)@),
            amount <= 0 ==> r == Err::<u32, Error>(Error::InvalidAmount) && final(self)@ == old(
                self,
            )@,
            amount > 0 && interval_seconds == 0 ==> r == Err::<u32, Error>(Error::InvalidInput)
                && final(self)@ == old(self)@,
            amount > 0 && interval_seconds > 0 && old(self)@.plans.len() == u32::MAX ==> r
                == Err::<u32, Error>(Error::Overflow) && final(self)@ == old(self)@,
            amount > 0 && interval_seconds > 0 && old(self)@.plans.len() < u32::MAX ==> r == Ok::<
                u32,
                Error,
            >(old(self)@.plans.len() as u32) && final(self)@ == (VaultView {
                plans: old(self)@.plans.push(
                    PlanTemplate { merchant, amount, interval_seconds, usage_enabled },
                ),
                ..old(self)@
            }),
    {
        if amount <= 0 {
            return Err(Error::InvalidAmount);
        }
        if interval_seconds == 0 {
            return Err(Error::InvalidInput);
        }
        if self.plans.len() >= u32::MAX as usize {
            return Err(Error::Overflow);
        }
        let plan_id = self.plans.len() as u32;
        self.plans.push(PlanTemplate { merchant, amount, interval_seconds, usage_enabled });
        Ok(plan_id)
    }

    /// Retrieves a plan template by its identifier; `NotFound` when none was
    /// ever assigned that identifier.
    pub fn get_plan_template(&self, plan_template_id: u32) -> (r: Result<PlanTemplate, Error>)
        requires
            vault_inv(self@),
        ensures
            plan_template_id < self@.plans.len() ==> r == Ok::<PlanTemplate, Error>(
                self@.plans[plan_template_id as int],
            ),
            !(plan_template_id < self@.plans.len()) ==> r == Err::<PlanTemplate, Error>(
                Error::NotFound,
            ),
    {
        let id = plan_template_id as usize;
        if id >= self.plans.len() {
            return Err(Error::NotFound);
        }
        Ok(self.plans[id])
    }

    /// Creates a subscription from a plan template: the subscriber only
    /// names the plan, all other parameters are inherited from it. Fails
    /// `NotFound` for an unknown plan and `Overflow` when the subscription
    /// identifiers are exhausted; on failure nothing changes.
    pub fn create_subscription_from_plan(
        &mut self,
        subscriber: Address,
        plan_template_id: u32,
        now: u64,
    ) -> (r: Result<u32, Error>)
        requires
            vault_inv(old(self)@),
        ensures
            vault_inv(final(self)@),
            !(plan_template_id < old(self)@.plans.len()) ==> r == Err::<u32, Error>(Error::NotFound)
                && final(self)@ == old(self)@,
            plan_template_id < old(self)@.plans.len() && old(self)@.subs.len() == u32::MAX ==> r
                == Err::<u32, Error>(Error::Overflow) && final(self)@ == old(self)@,
            plan_template_id < old(self)@.plans.len() && old(self)@.subs.len() < u32::MAX ==> r
                == Ok::<u32, Error>(old(self)@.subs.len() as u32) && final(self)@ == (VaultView {
                subs: old(self)@.subs.push(
                    spec_new_subscription(
                        subscriber,
                        old(self)@.plans[plan_template_id as int].merchant,
                        old(self)@.plans[plan_template_id as int].amount,
                        old(self)@.plans[plan_template_id as int].interval_seconds,
                        old(self)@.plans[plan_template_id as int].usage_enabled,
                        None,
                        now,
                    ),
                ),
                ..old(self)@
            }),
    {
        let plan_id = plan_template_id as usize;
        if plan_id >= self.plans.len() {
            return Err(Error::NotFound);
        }
        let plan = self.plans[plan_id];
        if self.subscriptions.len() >= u32::MAX as usize {
            return Err(Error::Overflow);
        }
        let id = self.subscriptions.len() as u32;
        let sub = Subscription {
            subscriber,
            merchant: plan.merchant,
            amount: plan.amount,
            interval_seconds: plan.interval_seconds,
            last_payment_timestamp: now,
            status: SubscriptionStatus::Active,
            prepaid_balance: 0,
            usage_enabled: plan.usage_enabled,
            expiration: None,
        };
        self.subscriptions.push(sub);
        Ok(id)
    }

    /// Credits `amount` to the subscription's prepaid balance.
    ///
    /// Enforces the configured minimum top-up: fails `NotFound` before
    /// initialization, `BelowMinimumTopup` for amounts under the threshold,
    /// `InvalidAmount` for non-positive amounts, `NotFound` for an unknown
    /// identifier, and `Overflow` when the credited balance would exceed
    /// `i128::MAX`; on failure nothing changes. The host transfers the funds
    /// from the subscriber only after this succeeds.
    pub fn deposit_funds(&mut self, subscription_id: u32, subscriber: Address, amount: i128) -> (r:
        Result<(), Error>)
        requires
            vault_inv(old(self)@),
        ensures
            vault_inv(final(self)@),
            old(self)@.cfg is None ==> r == Err::<(), Error>(Error::NotFound) && final(self)@
                == old(self)@,
            old(self)@.cfg matches Some(c) && amount < c.min_topup ==> r == Err::<(), Error>(
                Error::BelowMinimumTopup,
            ) && final(self)@ == old(self)@,
            old(self)@.cfg matches Some(c) && amount >= c.min_topup && amount <= 0 ==> r == Err::<
                (),
                Error,
            >(Error::InvalidAmount) && final(self)@ == old(self)@,
            old(self)@.cfg matches Some(c) && amount >= c.min_topup && amount > 0 && !(
            subscription_id < old(self)@.subs.len()) ==> r == Err::<(), Error>(Error::NotFound)
                && final(self)@ == old(self)@,
            old(self)@.cfg matches Some(c) && amount >= c.min_topup && amount > 0
                && subscription_id < old(self)@.subs.len() && old(self)@.subs[subscription_id as int].prepaid_balance
                + amount > i128::MAX ==> r == Err::<(), Error>(Error::Overflow) && final(self)@
                == old(self)@,
            old(self)@.cfg matches Some(c) && amount >= c.min_topup && amount > 0
                && subscription_id < old(self)@.subs.len() && old(self)@.subs[subscription_id as int].prepaid_balance
                + amount <= i128::MAX ==> r == Ok::<(), Error>(()) && final(self)@ == (VaultView {
                subs: old(self)@.subs.update(
                    subscription_id as int,
                    (Subscription {
                        prepaid_balance: (old(self)@.subs[subscription_id as int].prepaid_balance
                            + amount) as i128,
                        ..old(self)@.subs[subscription_id as int]
                    }),
                ),
                ..old(self)@
            }),
    {
        let min_topup = match self.config {
            Some(c) => c.min_topup,
            None => {
                return Err(Error::NotFound);
            },
        };
        if amount < min_topup {
            return Err(Error::BelowMinimumTopup);
        }
        if amount <= 0 {
            return Err(Error::InvalidAmount);
        }
        let id = subscription_id as usize;
        if id >= self.subscriptions.len() {
            return Err(Error::NotFound);
        }
        let mut sub = self.subscriptions[id];
        let new_balance = match safe_add_balance(sub.prepaid_balance, amount) {
            Ok(v) => v,
            Err(e) => {
                return Err(e);
            },
        };
        sub.prepaid_balance = new_balance;
        self.subscriptions[id] = sub;
        Ok(())
    }

    /// Moves the subscription to `target`, on behalf of `authorizer`.
    /// Shared by pause, resume and cancel: fails `NotFound` for an unknown
    /// identifier, `Forbidden` when `authorizer` is neither the subscriber
    /// nor the merchant, and `InvalidStatusTransition` when the table forbids
    /// the move; on failure nothing changes.
    fn transition_subscription(
        &mut self,
        subscription_id: u32,
        authorizer: Address,
        target: SubscriptionStatus,
    ) -> (r: Result<(), Error>)
        requires
            vault_inv(old(self)@),
        ensures
            vault_inv(final(self)@),
            !(subscription_id < old(self)@.subs.len()) ==> r == Err::<(), Error>(Error::NotFound)
                && final(self)@ == old(self)@,
            subscription_id < old(self)@.subs.len() && !spec_is_party(
                old(self)@.subs[subscription_id as int],
                authorizer,
            ) ==> r == Err::<(), Error>(Error::Forbidden) && final(self)@ == old(self)@,
            subscription_id < old(self)@.subs.len() && spec_is_party(
                old(self)@.subs[subscription_id as int],
                authorizer,
            ) && !spec_can_transition(old(self)@.subs[subscription_id as int].status, target) ==> r
                == Err::<(), Error>(Error::InvalidStatusTransition) && final(self)@ == old(self)@,
            subscription_id < old(self)@.subs.len() && spec_is_party(
                old(self)@.subs[subscription_id as int],
                authorizer,
            ) && spec_can_transition(old(self)@.subs[subscription_id as int].status, target) ==> r
                == Ok::<(), Error>(()) && final(self)@ == (VaultView {
                subs: old(self)@.subs.update(
                    subscription_id as int,
                    (Subscription { status: target, ..old(self)@.subs[subscription_id as int] }),
                ),
                ..old(self)@
            }),
    {
        let id = subscription_id as usize;
        if id >= self.subscriptions.len() {
            return Err(Error::NotFound);
        }
        let mut sub = self.subscriptions[id];
        if authorizer != sub.subscriber && authorizer != sub.merchant {
            return Err(Error::Forbidden);
        }
        match validate_status_transition(&sub.status, &target) {
            Ok(()) => {},
            Err(e) => {
                return Err(e);
            },
        }
        sub.status = target;
        self.subscriptions[id] = sub;
        Ok(())
    }

    /// Pauses the subscription: no charges are processed until it is
    /// resumed. Only the subscriber or the merchant may pause (`Forbidden`),
    /// the identifier must exist (`NotFound`), and the table must allow the
    /// move to `Paused` (`InvalidStatusTransition`) — it does from `Active`
    /// and, idempotently, from `Paused`; on failure nothing changes.
    pub fn pause_subscription(&mut self, subscription_id: u32, authorizer: Address) -> (r: Result<
        (),
        Error,
    >)
        requires
            vault_inv(old(self)@),
        ensures
            vault_inv(final(self)@),
            !(subscription_id < old(self)@.subs.len()) ==> r == Err::<(), Error>(Error::NotFound)
                && final(self)@ == old(self)@,
            subscription_id < old(self)@.subs.len() && !spec_is_party(
                old(self)@.subs[subscription_id as int],
                authorizer,
            ) ==> r == Err::<(), Error>(Error::Forbidden) && final(self)@ == old(self)@,
            subscription_id < old(self)@.subs.len() && spec_is_party(
                old(self)@.subs[subscription_id as int],
                authorizer,
            ) && !spec_can_transition(
                old(self)@.subs[subscription_id as int].status,
                SubscriptionStatus::Paused,
            ) ==> r == Err::<(), Error>(Error::InvalidStatusTransition) && final(self)@ == old(
                self,
            )@,
            subscription_id < old(self)@.subs.len() && spec_is_party(
                old(self)@.subs[subscription_id as int],
                authorizer,
            ) && spec_can_transition(
                old(self)@.subs[subscription_id as int].status,
                SubscriptionStatus::Paused,
            ) ==> r == Ok::<(), Error>(()) && final(self)@ == (VaultView {
                subs: old(self)@.subs.update(
                    subscription_id as int,
                    (Subscription {
                        status: SubscriptionStatus::Paused,
                        ..old(self)@.subs[subscription_id as int]
                    }),
                ),
                ..old(self)@
            }),
    {
        self.transition_subscription(subscription_id, authorizer, SubscriptionStatus::Paused)
    }

    /// Resumes the subscription to `Active`. Only the subscriber or the
    /// merchant may resume (`Forbidden`), the identifier must exist
    /// (`NotFound`), and the table must allow the move to `Active`
    /// (`InvalidStatusTransition`) — it does from `Paused`,
    /// `InsufficientBalance`, a grace period and, idempotently, from
    /// `Active`, but never from `Cancelled`; on failure nothing changes.
    pub fn resume_subscription(&mut self, subscription_id: u32, authorizer: Address) -> (r: Result<
        (),
        Error,
    >)
        requires
            vault_inv(old(self)@),
        ensures
            vault_inv(final(self)@),
            !(subscription_id < old(self)@.subs.len()) ==> r == Err::<(), Error>(Error::NotFound)
                && final(self)@ == old(self)@,
            subscription_id < old(self)@.subs.len() && !spec_is_party(
                old(self)@.subs[subscription_id as int],
                authorizer,
            ) ==> r == Err::<(), Error>(Error::Forbidden) && final(self)@ == old(self)@,
            subscription_id < old(self)@.subs.len() && spec_is_party(
                old(self)@.subs[subscription_id as int],
                authorizer,
            ) && !spec_can_transition(
                old(self)@.subs[subscription_id as int].status,
                SubscriptionStatus::Active,
            ) ==> r == Err::<(), Error>(Error::InvalidStatusTransition) && final(self)@ == old(
                self,
            )@,
            subscription_id < old(self)@.subs.len() && spec_is_party(
                old(self)@.subs[subscription_id as int],
                authorizer,
            ) && spec_can_transition(
                old(self)@.subs[subscription_id as int].status,
                SubscriptionStatus::Active,
            ) ==> r == Ok::<(), Error>(()) && final(self)@ == (VaultView {
                subs: old(self)@.subs.update(
                    subscription_id as int,
                    (Subscription {
                        status: SubscriptionStatus::Active,
                        ..old(self)@.subs[subscription_id as int]
                    }),
                ),
                ..old(self)@
            }),
    {
        self.transition_subscription(subscription_id, authorizer, SubscriptionStatus::Active)
    }

    /// Cancels the subscription, permanently. Only the subscriber or the
    /// merchant may cancel (`Forbidden`), the identifier must exist
    /// (`NotFound`), and the table must allow the move to `Cancelled`
    /// (`InvalidStatusTransition`) — it does from every status, idempotently
    /// from `Cancelled` itself. Once cancelled, the residual balance can
    /// still be withdrawn by the subscriber, but the status never changes
    /// again; on failure nothing changes.
    pub fn cancel_subscription(&mut self, subscription_id: u32, authorizer: Address) -> (r: Result<
        (),
        Error,
    >)
        requires
            vault_inv(old(self)@),
        ensures
            vault_inv(final(self)@),
            !(subscription_id < old(self)@.subs.len()) ==> r == Err::<(), Error>(Error::NotFound)
                && final(self)@ == old(self)@,
            subscription_id < old(self)@.subs.len() && !spec_is_party(
                old(self)@.subs[subscription_id as int],
                authorizer,
            ) ==> r == Err::<(), Error>(Error::Forbidden) && final(self)@ == old(self)@,
            subscription_id < old(self)@.subs.len() && spec_is_party(
                old(self)@.subs[subscription_id as int],
                authorizer,
            ) ==> r == Ok::<(), Error>(()) && final(self)@ == (VaultView {
                subs: old(self)@.subs.update(
                    subscription_id as int,
                    (Subscription {
                        status: SubscriptionStatus::Cancelled,
                        ..old(self)@.subs[subscription_id as int]
                    }),
                ),
                ..old(self)@
            }),
    {
        self.transition_subscription(subscription_id, authorizer, SubscriptionStatus::Cancelled)
    }

    /// Merchant-initiated immediate debit of `amount` from the
    /// subscription's prepaid balance, credited to the merchant's accrued
    /// balance.
    ///
    /// Fails `NotFound` for an unknown identifier, `Unauthorized` when
    /// `merchant` is not the subscription's merchant, `NotActive` unless the
    /// status is `Active` or `Paused`, `InvalidAmount` for a non-positive
    /// amount, `InsufficientPrepaidBalance` when the balance cannot cover
    /// it, and `Overflow` in the extreme case that the merchant credit would
    /// exceed `i128::MAX`; on failure nothing changes. The status is left as
    /// it was.
    pub fn charge_one_off(&mut self, subscription_id: u32, merchant: Address, amount: i128) -> (r:
        Result<(), Error>)
        requires
            vault_inv(old(self)@),
        ensures
            vault_inv(final(self)@),
            !(subscription_id < old(self)@.subs.len()) ==> r == Err::<(), Error>(Error::NotFound)
                && final(self)@ == old(self)@,
            subscription_id < old(self)@.subs.len() && ({
                let s = old(self)@.subs[subscription_id as int];
                &&& merchant == s.merchant
                &&& (s.status == SubscriptionStatus::Active || s.status
                    == SubscriptionStatus::Paused)
                &&& amount > 0
                &&& s.prepaid_balance >= amount
                &&& accrual_of(old(self)@.accruals, merchant) + amount <= i128::MAX
            }) ==> r == Ok::<(), Error>(()) && final(self)@ == (VaultView {
                subs: old(self)@.subs.update(
                    subscription_id as int,
                    (Subscription {
                        prepaid_balance: (old(self)@.subs[subscription_id as int].prepaid_balance
                            - amount) as i128,
                        ..old(self)@.subs[subscription_id as int]
                    }),
                ),
                accruals: spec_credit(old(self)@.accruals, merchant, amount as int),
                ..old(self)@
            }),
            subscription_id < old(self)@.subs.len() ==> ({
                let s = old(self)@.subs[subscription_id as int];
                &&& merchant != s.merchant ==> r == Err::<(), Error>(Error::Unauthorized)
                    && final(self)@ == old(self)@
                &&& merchant == s.merchant && !(s.status == SubscriptionStatus::Active || s.status
                    == SubscriptionStatus::Paused) ==> r == Err::<(), Error>(Error::NotActive)
                    && final(self)@ == old(self)@
                &&& merchant == s.merchant && (s.status == SubscriptionStatus::Active || s.status
                    == SubscriptionStatus::Paused) && amount <= 0 ==> r == Err::<(), Error>(
                    Error::InvalidAmount,
                ) && final(self)@ == old(self)@
                &&& merchant == s.merchant && (s.status == SubscriptionStatus::Active || s.status
                    == SubscriptionStatus::Paused) && amount > 0 && s.prepaid_balance < amount
                    ==> r == Err::<(), Error>(Error::InsufficientPrepaidBalance) && final(self)@
                    == old(self)@
                &&& merchant == s.merchant && (s.status == SubscriptionStatus::Active || s.status
                    == SubscriptionStatus::Paused) && amount > 0 && s.prepaid_balance >= amount
                    && accrual_of(old(self)@.accruals, merchant) + amount > i128::MAX ==> r
                    == Err::<(), Error>(Error::Overflow) && final(self)@ == old(self)@
            }),
    {
        let id = subscription_id as usize;
        if id >= self.subscriptions.len() {
            return Err(Error::NotFound);
        }
        let mut sub = self.subscriptions[id];
        if sub.merchant != merchant {
            return Err(Error::Unauthorized);
        }
        if sub.status != SubscriptionStatus::Active && sub.status != SubscriptionStatus::Paused {
            return Err(Error::NotActive);
        }
        if amount <= 0 {
            return Err(Error::InvalidAmount);
        }
        if sub.prepaid_balance < amount {
            return Err(Error::InsufficientPrepaidBalance);
        }
        let new_balance = match safe_sub_balance(sub.prepaid_balance, amount) {
            Ok(v) => v,
            Err(e) => {
                return Err(e);
            },
        };
        match credit_accrual(&mut self.accruals, merchant, amount) {
            Ok(()) => {},
            Err(e) => {
                return Err(e);
            },
        }
        sub.prepaid_balance = new_balance;
        self.subscriptions[id] = sub;
        Ok(())
    }

    /// Withdraws the residual prepaid balance of a cancelled subscription to
    /// its subscriber, zeroing the balance and returning the amount the host
    /// must transfer.
    ///
    /// Fails `NotFound` for an unknown identifier, `Forbidden` when
    /// `subscriber` is not the subscription's subscriber, and
    /// `InvalidStatusTransition` unless the subscription is `Cancelled`; on
    /// failure nothing changes.
    pub fn withdraw_subscriber_funds(&mut self, subscription_id: u32, subscriber: Address) -> (r:
        Result<i128, Error>)
        requires
            vault_inv(old(self)@),
        ensures
            vault_inv(final(self)@),
            !(subscription_id < old(self)@.subs.len()) ==> r == Err::<i128, Error>(Error::NotFound)
                && final(self)@ == old(self)@,
            subscription_id < old(self)@.subs.len() && subscriber != old(
                self,
            )@.subs[subscription_id as int].subscriber ==> r == Err::<i128, Error>(Error::Forbidden)
                && final(self)@ == old(self)@,
            subscription_id < old(self)@.subs.len() && subscriber == old(
                self,
            )@.subs[subscription_id as int].subscriber && old(
                self,
            )@.subs[subscription_id as int].status != SubscriptionStatus::Cancelled ==> r == Err::<
                i128,
                Error,
            >(Error::InvalidStatusTransition) && final(self)@ == old(self)@,
            subscription_id < old(self)@.subs.len() && subscriber == old(
                self,
            )@.subs[subscription_id as int].subscriber && old(
                self,
            )@.subs[subscription_id as int].status == SubscriptionStatus::Cancelled ==> r == Ok::<
                i128,
                Error,
            >(old(self)@.subs[subscription_id as int].prepaid_balance) && final(self)@
                == (VaultView {
                subs: old(self)@.subs.update(
                    subscription_id as int,
                    (Subscription {
                        prepaid_balance: 0,
                        ..old(self)@.subs[subscription_id as int]
                    }),
                ),
                ..old(self)@
            }),
    {
        let id = subscription_id as usize;
        if id >= self.subscriptions.len() {
            return Err(Error::NotFound);
        }
        let mut sub = self.subscriptions[id];
        if subscriber != sub.subscriber {
            return Err(Error::Forbidden);
        }
        if sub.status != SubscriptionStatus::Cancelled {
            return Err(Error::InvalidStatusTransition);
        }
        let amount_to_refund = sub.prepaid_balance;
        sub.prepaid_balance = 0;
        self.subscriptions[id] = sub;
        Ok(amount_to_refund)
    }
}

} // verus!
