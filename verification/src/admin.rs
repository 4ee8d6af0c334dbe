//! Administrative configuration: initialization, the minimum top-up
//! threshold, admin identity rotation, the stranded-funds recovery path, and
//! batch charging.
//!
//! The host's capability check (`require_auth`) runs before these are called;
//! the identity checks against the stored admin are enforced here.

use vstd::prelude::*;

use crate::charge_core::{
    lemma_charge_step_preserves_cancelled, lemma_charge_step_preserves_inv,
    lemma_charge_step_timestamps, spec_charge_step, spec_charge_step_code,
};
use crate::types::{Address, BatchChargeResult, Error, RecoveryEvent, RecoveryReason, SubscriptionStatus};
use crate::vault::{vault_inv, Config, SubscriptionVault, VaultView};

verus! {

/// The vault after charging each identifier of `ids` in order, each against
/// the state the previous charges left behind.
pub open spec fn spec_batch_state(v: VaultView, ids: Seq<u32>, now: u64) -> VaultView
    decreases ids.len(),
{
    if ids.len() == 0 {
        v
    } else {
        spec_batch_state(spec_charge_step(v, ids[0], now), ids.drop_first(), now)
    }
}

/// The batch result for one charge outcome code: success with code 0, or
/// failure carrying the error's code.
pub open spec fn spec_batch_entry(code: u32) -> BatchChargeResult {
    BatchChargeResult { success: code == 0, error_code: code }
}

/// The results of charging each identifier of `ids` in order: one entry per
/// identifier, in input order, each reporting the outcome of its own charge
/// against the state the previous charges left behind.
pub open spec fn spec_batch_results(v: VaultView, ids: Seq<u32>, now: u64) -> Seq<
    BatchChargeResult,
>
    decreases ids.len(),
{
    if ids.len() == 0 {
        Seq::empty()
    } else {
        seq![spec_batch_entry(spec_charge_step_code(v, ids[0], now))] + spec_batch_results(
            spec_charge_step(v, ids[0], now),
            ids.drop_first(),
            now,
        )
    }
}

/// Batch state and results over one more identifier: charging `ids + [id]`
/// is charging `ids`, then `id` against the resulting state.
pub proof fn lemma_batch_push(v: VaultView, ids: Seq<u32>, id: u32, now: u64)
    ensures
        spec_batch_state(v, ids.push(id), now) == spec_charge_step(
            spec_batch_state(v, ids, now),
            id,
            now,
        ),
        spec_batch_results(v, ids.push(id), now) == spec_batch_results(v, ids, now).push(
            spec_batch_entry(spec_charge_step_code(spec_batch_state(v, ids, now), id, now)),
        ),
    decreases ids.len(),
{
    let s1 = ids.push(id);
    if ids.len() == 0 {
        assert(s1[0] == id);
        assert(s1.drop_first() =~= ids);
        assert(spec_batch_state(v, s1, now) == spec_batch_state(
            spec_charge_step(v, id, now),
            ids,
            now,
        ));
        assert(spec_batch_state(spec_charge_step(v, id, now), ids, now) == spec_charge_step(
            v,
            id,
            now,
        ));
        assert(spec_batch_state(v, ids, now) == v);
        assert(spec_batch_results(spec_charge_step(v, id, now), ids, now) =~= Seq::<
            BatchChargeResult,
        >::empty());
        assert(spec_batch_results(v, ids, now) =~= Seq::<BatchChargeResult>::empty());
        assert(spec_batch_results(v, s1, now) =~= spec_batch_results(v, ids, now).push(
            spec_batch_entry(spec_charge_step_code(spec_batch_state(v, ids, now), id, now)),
        ));
    } else {
        assert(s1[0] == ids[0]);
        assert(s1.drop_first() =~= ids.drop_first().push(id));
        lemma_batch_push(spec_charge_step(v, ids[0], now), ids.drop_first(), id, now);
        assert(spec_batch_state(v, s1, now) == spec_batch_state(
            spec_charge_step(v, ids[0], now),
            ids.drop_first().push(id),
            now,
        ));
        assert(spec_batch_state(v, ids, now) == spec_batch_state(
            spec_charge_step(v, ids[0], now),
            ids.drop_first(),
            now,
        ));
        assert(spec_batch_results(v, s1, now) =~= spec_batch_results(v, ids, now).push(
            spec_batch_entry(spec_charge_step_code(spec_batch_state(v, ids, now), id, now)),
        ));
    }
}

/// A batch returns one result per requested identifier, in input order:
/// the results of a batch over `ids` have length `ids.len()`, and the entry
/// at `i` reports the outcome of charging `ids[i]` against the state left by
/// the charges before it. In particular an empty batch returns no results,
/// and no entry's outcome is affected by the entries after it.
pub proof fn lemma_batch_results_pointwise(v: VaultView, ids: Seq<u32>, now: u64, i: int)
    requires
        0 <= i < ids.len(),
    ensures
        spec_batch_results(v, ids, now).len() == ids.len(),
        spec_batch_results(v, ids, now)[i] == spec_batch_entry(
            spec_charge_step_code(spec_batch_state(v, ids.take(i), now), ids[i], now),
        ),
    decreases ids.len(),
{
    lemma_batch_results_len(v, ids, now);
    if i == 0 {
        assert(ids.take(0) =~= Seq::<u32>::empty());
    } else {
        lemma_batch_results_pointwise(spec_charge_step(v, ids[0], now), ids.drop_first(), now, i - 1);
        assert(ids.drop_first().take(i - 1) =~= ids.take(i).drop_first());
        assert(ids.take(i)[0] == ids[0]);
        assert(ids.drop_first()[i - 1] == ids[i]);
    }
}

/// A batch over `ids` returns exactly `ids.len()` results.
pub proof fn lemma_batch_results_len(v: VaultView, ids: Seq<u32>, now: u64)
    ensures
        spec_batch_results(v, ids, now).len() == ids.len(),
    decreases ids.len(),
{
    if ids.len() == 0 {
    } else {
        lemma_batch_results_len(spec_charge_step(v, ids[0], now), ids.drop_first(), now);
    }
}

/// The payment watermark never goes backwards through whole batches either:
/// every record's `last_payment_timestamp` after a batch is at least what it
/// was before, however many times the batch charged it.
pub proof fn lemma_batch_timestamps(v: VaultView, ids: Seq<u32>, now: u64, i: int)
    requires
        vault_inv(v),
        0 <= i < v.subs.len(),
    ensures
        spec_batch_state(v, ids, now).subs.len() == v.subs.len(),
        spec_batch_state(v, ids, now).subs[i].last_payment_timestamp
            >= v.subs[i].last_payment_timestamp,
    decreases ids.len(),
{
    if ids.len() == 0 {
    } else {
        lemma_charge_step_timestamps(v, ids[0], now, i);
        lemma_charge_step_preserves_inv(v, ids[0], now);
        lemma_batch_timestamps(spec_charge_step(v, ids[0], now), ids.drop_first(), now, i);
    }
}

/// Once cancelled, always cancelled, through whole batches too: a record
/// that is `Cancelled` going into a batch comes out of it untouched,
/// whatever identifiers the batch names and however often it names them.
pub proof fn lemma_batch_preserves_cancelled(v: VaultView, ids: Seq<u32>, now: u64, i: int)
    requires
        0 <= i < v.subs.len(),
        v.subs[i].status == SubscriptionStatus::Cancelled,
    ensures
        spec_batch_state(v, ids, now).subs.len() == v.subs.len(),
        spec_batch_state(v, ids, now).subs[i] == v.subs[i],
    decreases ids.len(),
{
    if ids.len() == 0 {
    } else {
        lemma_charge_step_preserves_cancelled(v, ids[0], now, i);
        lemma_batch_preserves_cancelled(spec_charge_step(v, ids[0], now), ids.drop_first(), now, i);
    }
}

impl SubscriptionVault {
    /// Charges one billing interval of each of `subscription_ids`, in input
    /// order, at ledger time `now`, and reports one result per identifier.
    ///
    /// Fails `Unauthorized`, charging nothing, when no admin is configured.
    /// Otherwise it returns `Ok`: per-item failures are captured as data
    /// (`success == false` and the error's numeric code) and never abort,
    /// roll back, or otherwise affect the other items. An empty input yields
    /// an empty result. Duplicate identifiers are each evaluated
    /// independently, in order, against the state the earlier charges left
    /// behind.
    pub fn batch_charge(&mut self, subscription_ids: &Vec<u32>, now: u64) -> (r: Result<
        Vec<BatchChargeResult>,
        Error,
    >)
        requires
            vault_inv(old(self)@),
        ensures
            vault_inv(final(self)@),
            old(self)@.cfg is None ==> r == Err::<Vec<BatchChargeResult>, Error>(
                Error::Unauthorized,
            ) && final(self)@ == old(self)@,
            old(self)@.cfg is Some ==> (r matches Ok(results) && results@ == spec_batch_results(
                old(self)@,
                subscription_ids@,
                now,
            ) && final(self)@ == spec_batch_state(old(self)@, subscription_ids@, now)),
    {
        match self.config {
            Some(_) => {},
            None => {
                return Err(Error::Unauthorized);
            },
        }
        let ghost v0 = self@;
        let mut results: Vec<BatchChargeResult> = Vec::new();
        let mut i: usize = 0;
        while i < subscription_ids.len()
            invariant
                vault_inv(self@),
                i <= subscription_ids@.len(),
                self@ == spec_batch_state(v0, subscription_ids@.take(i as int), now),
                results@ == spec_batch_results(v0, subscription_ids@.take(i as int), now),
            decreases subscription_ids@.len() - i,
        {
            let id = subscription_ids[i];
            let charge_result = self.charge_subscription(id, now);
            let entry = match charge_result {
                Ok(()) => BatchChargeResult { success: true, error_code: 0 },
                Err(e) => BatchChargeResult { success: false, error_code: e.to_code() },
            };
            results.push(entry);
            proof {
                lemma_batch_push(v0, subscription_ids@.take(i as int), id, now);
                assert(subscription_ids@.take(i as int).push(id) =~= subscription_ids@.take(
                    i as int + 1,
                ));
            }
            i += 1;
        }
        proof {
            assert(subscription_ids@.take(subscription_ids@.len() as int) =~= subscription_ids@);
        }
        Ok(results)
    }

    /// Initializes the contract configuration: the token, the admin identity
    /// and the minimum top-up. Fails `AlreadyInitialized`, changing nothing,
    /// when run a second time.
    pub fn init(&mut self, token: Address, admin: Address, min_topup: i128) -> (r: Result<
        (),
        Error,
    >)
        requires
            vault_inv(old(self)@),
        ensures
            vault_inv(final(self)@),
            old(self)@.cfg is None ==> r == Ok::<(), Error>(()) && final(self)@ == (VaultView {
                cfg: Some(Config { token, admin, min_topup }),
                ..old(self)@
            }),
            old(self)@.cfg is Some ==> r == Err::<(), Error>(Error::AlreadyInitialized) && final(self)@
                == old(self)@,
    {
        match self.config {
            Some(_) => Err(Error::AlreadyInitialized),
            None => {
                self.config = Some(Config { token, admin, min_topup });
                Ok(())
            },
        }
    }

    /// The configured admin identity; `NotFound` before initialization.
    pub fn get_admin(&self) -> (r: Result<Address, Error>)
        ensures
            self@.cfg matches Some(c) ==> r == Ok::<Address, Error>(c.admin),
            self@.cfg is None ==> r == Err::<Address, Error>(Error::NotFound),
    {
        match self.config {
            Some(cfg) => Ok(cfg.admin),
            None => Err(Error::NotFound),
        }
    }

    /// The configured minimum top-up threshold; `NotFound` before
    /// initialization.
    pub fn get_min_topup(&self) -> (r: Result<i128, Error>)
        ensures
            self@.cfg matches Some(c) ==> r == Ok::<i128, Error>(c.min_topup),
            self@.cfg is None ==> r == Err::<i128, Error>(Error::NotFound),
    {
        match self.config {
            Some(cfg) => Ok(cfg.min_topup),
            None => Err(Error::NotFound),
        }
    }

    /// Updates the minimum top-up threshold. Only the stored admin may do so:
    /// fails `NotFound` before initialization and `Unauthorized` for any
    /// other caller, changing nothing in either case.
    pub fn set_min_topup(&mut self, admin: Address, min_topup: i128) -> (r: Result<(), Error>)
        requires
            vault_inv(old(self)@),
        ensures
            vault_inv(final(self)@),
            old(self)@.cfg is None ==> r == Err::<(), Error>(Error::NotFound) && final(self)@ == old(self)@,
            old(self)@.cfg matches Some(c) && admin != c.admin ==> r == Err::<(), Error>(
                Error::Unauthorized,
            ) && final(self)@ == old(self)@,
            old(self)@.cfg matches Some(c) && admin == c.admin ==> r == Ok::<(), Error>(())
                && final(self)@ == (VaultView {
                cfg: Some(
                    Config {
                        token: old(self)@.cfg->Some_0.token,
                        admin: old(self)@.cfg->Some_0.admin,
                        min_topup,
                    },
                ),
                ..old(self)@
            }),
    {
        let stored = match self.config {
            Some(cfg) => cfg,
            None => {
                return Err(Error::NotFound);
            },
        };
        if admin != stored.admin {
            return Err(Error::Unauthorized);
        }
        self.config = Some(Config { min_topup, ..stored });
        Ok(())
    }

    /// Rotates the admin identity to `new_admin`, immediately and
    /// irreversibly. Only the current stored admin may do so: fails
    /// `NotFound` before initialization and `Unauthorized` for any other
    /// caller, changing nothing in either case.
    pub fn rotate_admin(&mut self, current_admin: Address, new_admin: Address) -> (r: Result<
        (),
        Error,
    >)
        requires
            vault_inv(old(self)@),
        ensures
            vault_inv(final(self)@),
            old(self)@.cfg is None ==> r == Err::<(), Error>(Error::NotFound) && final(self)@ == old(self)@,
            old(self)@.cfg matches Some(c) && current_admin != c.admin ==> r == Err::<
                (),
                Error,
            >(Error::Unauthorized) && final(self)@ == old(self)@,
            old(self)@.cfg matches Some(c) && current_admin == c.admin ==> r == Ok::<
                (),
                Error,
            >(()) && final(self)@ == (VaultView {
                cfg: Some(
                    Config {
                        token: old(self)@.cfg->Some_0.token,
                        admin: new_admin,
                        min_topup: old(self)@.cfg->Some_0.min_topup,
                    },
                ),
                ..old(self)@
            }),
    {
        let stored = match self.config {
            Some(cfg) => cfg,
            None => {
                return Err(Error::NotFound);
            },
        };
        if current_admin != stored.admin {
            return Err(Error::Unauthorized);
        }
        self.config = Some(Config { admin: new_admin, ..stored });
        Ok(())
    }

    /// Authorizes the recovery of stranded funds: funds held by the contract
    /// with no normal-flow path to their owner. Only the stored admin may
    /// recover (`NotFound` before initialization, `Unauthorized` otherwise),
    /// the amount must be positive (`InvalidRecoveryAmount`), and every
    /// successful recovery returns the audit record the host must publish
    /// before transferring the funds. The vault state itself is unchanged.
    pub fn recover_stranded_funds(
        &self,
        admin: Address,
        recipient: Address,
        amount: i128,
        reason: RecoveryReason,
        now: u64,
    ) -> (r: Result<RecoveryEvent, Error>)
        ensures
            self@.cfg is None ==> r == Err::<RecoveryEvent, Error>(Error::NotFound),
            self@.cfg matches Some(c) && admin != c.admin ==> r == Err::<RecoveryEvent, Error>(
                Error::Unauthorized,
            ),
            self@.cfg matches Some(c) && admin == c.admin && amount <= 0 ==> r == Err::<
                RecoveryEvent,
                Error,
            >(Error::InvalidRecoveryAmount),
            self@.cfg matches Some(c) && admin == c.admin && amount > 0 ==> r == Ok::<
                RecoveryEvent,
                Error,
            >(RecoveryEvent { admin, recipient, amount, reason, timestamp: now }),
    {
        let stored = match self.config {
            Some(cfg) => cfg,
            None => {
                return Err(Error::NotFound);
            },
        };
        if admin != stored.admin {
            return Err(Error::Unauthorized);
        }
        if amount <= 0 {
            return Err(Error::InvalidRecoveryAmount);
        }
        Ok(RecoveryEvent { admin, recipient, amount, reason, timestamp: now })
    }
}

} // verus!
