//! Read-only projections: record lookup, next-charge estimation, top-up
//! sizing, and pagination over the per-party indices. None of these mutate
//! the vault.

use vstd::prelude::*;

use crate::types::{
    compute_next_charge_info, spec_is_charge_expected, spec_next_charge_timestamp, Address, Error,
    NextChargeInfo, Subscription,
};
use crate::vault::{vault_inv, SubscriptionVault};

verus! {

/// The top-up needed to fund `n` further interval charges of `s`:
/// `max(0, s.amount * n - s.prepaid_balance)`.
pub open spec fn spec_topup_for_intervals(s: Subscription, n: u32) -> int {
    if s.amount * n <= s.prepaid_balance {
        0
    } else {
        s.amount * n - s.prepaid_balance
    }
}

/// The identifiers, in increasing (that is, insertion) order, of the
/// subscriptions whose merchant is `merchant`.
pub open spec fn spec_merchant_ids(subs: Seq<Subscription>, merchant: Address) -> Seq<u32>
    decreases subs.len(),
{
    if subs.len() == 0 {
        Seq::empty()
    } else {
        let prefix = spec_merchant_ids(subs.drop_last(), merchant);
        if subs.last().merchant == merchant {
            prefix.push((subs.len() - 1) as u32)
        } else {
            prefix
        }
    }
}

/// The identifiers, in increasing (that is, insertion) order, of the
/// subscriptions whose subscriber is `subscriber`.
pub open spec fn spec_subscriber_ids(subs: Seq<Subscription>, subscriber: Address) -> Seq<u32>
    decreases subs.len(),
{
    if subs.len() == 0 {
        Seq::empty()
    } else {
        let prefix = spec_subscriber_ids(subs.drop_last(), subscriber);
        if subs.last().subscriber == subscriber {
            prefix.push((subs.len() - 1) as u32)
        } else {
            prefix
        }
    }
}

/// One page of a listing: the window of `all` starting at `offset` and at
/// most `limit` long. An offset at or past the end yields an empty page.
pub open spec fn spec_page(all: Seq<u32>, offset: u32, limit: u32) -> Seq<u32> {
    if offset >= all.len() {
        Seq::empty()
    } else if offset + limit >= all.len() {
        all.subrange(offset as int, all.len() as int)
    } else {
        all.subrange(offset as int, offset + limit)
    }
}

impl SubscriptionVault {
    /// Reads a subscription record by its identifier; `NotFound` when none
    /// was ever assigned that identifier.
    pub fn get_subscription(&self, subscription_id: u32) -> (r: Result<Subscription, Error>)
        ensures
            subscription_id < self@.subs.len() ==> r == Ok::<Subscription, Error>(
                self@.subs[subscription_id as int],
            ),
            !(subscription_id < self@.subs.len()) ==> r == Err::<Subscription, Error>(
                Error::NotFound,
            ),
    {
        let id = subscription_id as usize;
        if id >= self.subscriptions.len() {
            return Err(Error::NotFound);
        }
        Ok(self.subscriptions[id])
    }

    /// The estimated next charge time of a subscription
    /// (`last_payment_timestamp + interval_seconds`, saturating) and whether
    /// a charge is expected at all in its current status; `NotFound` for an
    /// unknown identifier.
    pub fn get_next_charge_info(&self, subscription_id: u32) -> (r: Result<NextChargeInfo, Error>)
        ensures
            subscription_id < self@.subs.len() ==> r == Ok::<NextChargeInfo, Error>(
                NextChargeInfo {
                    next_charge_timestamp: spec_next_charge_timestamp(
                        self@.subs[subscription_id as int],
                    ),
                    is_charge_expected: spec_is_charge_expected(
                        self@.subs[subscription_id as int].status,
                    ),
                },
            ),
            !(subscription_id < self@.subs.len()) ==> r == Err::<NextChargeInfo, Error>(
                Error::NotFound,
            ),
    {
        let id = subscription_id as usize;
        if id >= self.subscriptions.len() {
            return Err(Error::NotFound);
        }
        let subscription = self.subscriptions[id];
        Ok(compute_next_charge_info(&subscription))
    }

    /// The top-up needed to fund `intervals` further interval charges:
    /// `max(0, amount * intervals - prepaid_balance)`. Fails `NotFound` for
    /// an unknown identifier and `Overflow` when the required total exceeds
    /// `i128::MAX`.
    pub fn estimate_topup_for_intervals(&self, subscription_id: u32, intervals: u32) -> (r: Result<
        i128,
        Error,
    >)
        requires
            vault_inv(self@),
        ensures
            !(subscription_id < self@.subs.len()) ==> r == Err::<i128, Error>(Error::NotFound),
            subscription_id < self@.subs.len() && self@.subs[subscription_id as int].amount
                * intervals > i128::MAX ==> r == Err::<i128, Error>(Error::Overflow),
            subscription_id < self@.subs.len() && self@.subs[subscription_id as int].amount
                * intervals <= i128::MAX ==> r == Ok::<i128, Error>(
                spec_topup_for_intervals(self@.subs[subscription_id as int], intervals) as i128,
            ),
    {
        let id = subscription_id as usize;
        if id >= self.subscriptions.len() {
            return Err(Error::NotFound);
        }
        let sub = self.subscriptions[id];
        proof {
            assert(sub.amount * intervals >= 0) by (nonlinear_arith)
                requires
                    sub.amount > 0,
                    intervals >= 0,
            ;
        }
        let required = match sub.amount.checked_mul(intervals as i128) {
            Some(v) => v,
            None => {
                return Err(Error::Overflow);
            },
        };
        if required <= sub.prepaid_balance {
            Ok(0)
        } else {
            Ok(required - sub.prepaid_balance)
        }
    }

    /// One page of the identifiers of the subscriptions paying `merchant`,
    /// in insertion order: at most `limit` identifiers starting at position
    /// `offset` of the full listing. An out-of-range offset yields an empty
    /// page.
    pub fn list_merchant_subscriptions(&self, merchant: Address, offset: u32, limit: u32) -> (ids:
        Vec<u32>)
        requires
            vault_inv(self@),
        ensures
            ids@ == spec_page(spec_merchant_ids(self@.subs, merchant), offset, limit),
    {
        let mut all: Vec<u32> = Vec::new();
        let mut i: usize = 0;
        while i < self.subscriptions.len()
            invariant
                vault_inv(self@),
                i <= self@.subs.len(),
                all@ == spec_merchant_ids(self@.subs.take(i as int), merchant),
            decreases self@.subs.len() - i,
        {
            if self.subscriptions[i].merchant == merchant {
                all.push(i as u32);
            }
            proof {
                assert(self@.subs.take(i as int + 1).drop_last() =~= self@.subs.take(i as int));
                assert(self@.subs.take(i as int + 1).last() == self@.subs[i as int]);
            }
            i += 1;
        }
        proof {
            assert(self@.subs.take(self@.subs.len() as int) =~= self@.subs);
        }
        page_of(&all, offset, limit)
    }

    /// One page of the identifiers of the subscriptions paid for by
    /// `subscriber`, in insertion order: at most `limit` identifiers
    /// starting at position `offset` of the full listing. An out-of-range
    /// offset yields an empty page.
    pub fn list_subscriber_subscriptions(
        &self,
        subscriber: Address,
        offset: u32,
        limit: u32,
    ) -> (ids: Vec<u32>)
        requires
            vault_inv(self@),
        ensures
            ids@ == spec_page(spec_subscriber_ids(self@.subs, subscriber), offset, limit),
    {
        let mut all: Vec<u32> = Vec::new();
        let mut i: usize = 0;
        while i < self.subscriptions.len()
            invariant
                vault_inv(self@),
                i <= self@.subs.len(),
                all@ == spec_subscriber_ids(self@.subs.take(i as int), subscriber),
            decreases self@.subs.len() - i,
        {
            if self.subscriptions[i].subscriber == subscriber {
                all.push(i as u32);
            }
            proof {
                assert(self@.subs.take(i as int + 1).drop_last() =~= self@.subs.take(i as int));
                assert(self@.subs.take(i as int + 1).last() == self@.subs[i as int]);
            }
            i += 1;
        }
        proof {
            assert(self@.subs.take(self@.subs.len() as int) =~= self@.subs);
        }
        page_of(&all, offset, limit)
    }
}

/// The window of `all` starting at `offset` and at most `limit` long.
fn page_of(all: &Vec<u32>, offset: u32, limit: u32) -> (page: Vec<u32>)
    ensures
        page@ == spec_page(all@, offset, limit),
{
    let mut page: Vec<u32> = Vec::new();
    let start = offset as usize;
    if start >= all.len() {
        proof {
            assert(page@ =~= spec_page(all@, offset, limit));
        }
        return page;
    }
    let end: usize = if limit as usize >= all.len() - start {
        all.len()
    } else {
        start + limit as usize
    };
    let mut j: usize = start;
    while j < end
        invariant
            start <= j <= end <= all@.len(),
            page@ == all@.subrange(start as int, j as int),
        decreases end - j,
    {
        page.push(all[j]);
        proof {
            assert(all@.subrange(start as int, j as int + 1) =~= all@.subrange(
                start as int,
                j as int,
            ).push(all@[j as int]));
        }
        j += 1;
    }
    proof {
        assert(page@ =~= spec_page(all@, offset, limit));
    }
    page
}

} // verus!
