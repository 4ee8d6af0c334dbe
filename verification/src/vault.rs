//! The vault: the persistent state of the billing contract, modelled as an
//! explicit value. It holds the configuration, the subscription records keyed
//! by their identifier (the index at which they were created), the plan
//! templates, and the per-merchant accrued balances.
//!
//! The host is responsible for persisting a vault between invocations and for
//! verifying capability signatures; the operations here take the already
//! authenticated identities as explicit parameters and enforce every other
//! rule themselves.

use vstd::prelude::*;

use crate::types::{plan_wf, sub_wf, Address, MerchantAccrual, PlanTemplate, Subscription};
use crate::types::Error;

verus! {

/// Contract-level configuration, set once at initialization.
#[derive(Clone, Copy, Debug)]
pub struct Config {
    /// The token whose units all balances are denominated in.
    pub token: Address,
    /// The administrator identity.
    pub admin: Address,
    /// The minimum amount `deposit_funds` accepts.
    pub min_topup: i128,
}

/// The billing contract's state. Mutate it only through its methods: they
/// keep `vault_inv`, which the contracts require.
pub struct SubscriptionVault {
    /// The configuration, present once `init` has run.
    pub config: Option<Config>,
    /// All subscription records, in creation order; a subscription's
    /// identifier is its index.
    pub subscriptions: Vec<Subscription>,
    /// All plan templates, in creation order; a plan's identifier is its
    /// index.
    pub plans: Vec<PlanTemplate>,
    /// The per-merchant accrued balances, at most one entry per merchant.
    pub accruals: Vec<MerchantAccrual>,
}

/// The mathematical model of a vault: its configuration and the three
/// sequences of records. A subscription's identifier is its index in `subs`,
/// a plan's its index in `plans`; both are assigned in creation order by a
/// monotonically increasing counter (the length of the sequence).
#[verifier::ext_equal]
pub struct VaultView {
    /// The configuration, present once `init` has run.
    pub cfg: Option<Config>,
    /// All subscription records, in creation order.
    pub subs: Seq<Subscription>,
    /// All plan templates, in creation order.
    pub plans: Seq<PlanTemplate>,
    /// The per-merchant accrued balances, at most one entry per merchant.
    pub accruals: Seq<MerchantAccrual>,
}

impl View for SubscriptionVault {
    type V = VaultView;

    open spec fn view(&self) -> VaultView {
        VaultView {
            cfg: self.config,
            subs: self.subscriptions@,
            plans: self.plans@,
            accruals: self.accruals@,
        }
    }
}

/// The vault invariant: every stored record is well formed, no accrued
/// balance is negative, and the record counts leave room for u32
/// identifiers.
pub open spec fn vault_inv(v: VaultView) -> bool {
    &&& forall|i: int| 0 <= i < v.subs.len() ==> sub_wf(#[trigger] v.subs[i])
    &&& forall|i: int| 0 <= i < v.plans.len() ==> plan_wf(#[trigger] v.plans[i])
    &&& forall|i: int| 0 <= i < v.accruals.len() ==> (#[trigger] v.accruals[i]).balance >= 0
    &&& v.subs.len() <= u32::MAX
    &&& v.plans.len() <= u32::MAX
}

/// The state of a vault that has not served any request.
pub open spec fn empty_vault() -> VaultView {
    VaultView {
        cfg: None,
        subs: Seq::empty(),
        plans: Seq::empty(),
        accruals: Seq::empty(),
    }
}

/// The index of the accrual entry of `merchant`, or -1 when the merchant has
/// never been credited. Entries are searched in order; at most one entry per
/// merchant ever exists because credits only append when none is found.
pub open spec fn find_accrual(accs: Seq<MerchantAccrual>, merchant: Address) -> int
    decreases accs.len(),
{
    if accs.len() == 0 {
        -1
    } else if accs[0].merchant == merchant {
        0
    } else {
        let r = find_accrual(accs.drop_first(), merchant);
        if r < 0 {
            -1
        } else {
            r + 1
        }
    }
}

/// The accrued balance of `merchant`: the balance of its entry, or 0 when it
/// has none.
pub open spec fn accrual_of(accs: Seq<MerchantAccrual>, merchant: Address) -> int {
    let i = find_accrual(accs, merchant);
    if i >= 0 {
        accs[i].balance as int
    } else {
        0
    }
}

/// The accruals after crediting `merchant` with `amount`: its entry's balance
/// grows by `amount`, or a new entry is appended when it has none.
pub open spec fn spec_credit(
    accs: Seq<MerchantAccrual>,
    merchant: Address,
    amount: int,
) -> Seq<MerchantAccrual>
    recommends
        0 <= accrual_of(accs, merchant) + amount <= i128::MAX,
{
    let i = find_accrual(accs, merchant);
    if i >= 0 {
        accs.update(i, MerchantAccrual { merchant, balance: (accs[i].balance + amount) as i128 })
    } else {
        accs.push(MerchantAccrual { merchant, balance: amount as i128 })
    }
}

/// The accruals after debiting `merchant` by `amount`.
pub open spec fn spec_debit(
    accs: Seq<MerchantAccrual>,
    merchant: Address,
    amount: int,
) -> Seq<MerchantAccrual>
    recommends
        find_accrual(accs, merchant) >= 0,
        0 <= amount <= accrual_of(accs, merchant),
{
    let i = find_accrual(accs, merchant);
    accs.update(i, MerchantAccrual { merchant, balance: (accs[i].balance - amount) as i128 })
}

/// Where `find_accrual` points: always inside the sequence or -1, and when
/// inside, at an entry of the searched merchant.
pub proof fn lemma_find_accrual_valid(accs: Seq<MerchantAccrual>, merchant: Address)
    ensures
        -1 <= find_accrual(accs, merchant) < accs.len(),
        find_accrual(accs, merchant) >= 0 ==> accs[find_accrual(accs, merchant)].merchant
            == merchant,
    decreases accs.len(),
{
    if accs.len() == 0 {
    } else if accs[0].merchant == merchant {
    } else {
        lemma_find_accrual_valid(accs.drop_first(), merchant);
    }
}

/// `find_accrual` finds the first matching entry.
pub proof fn lemma_find_accrual_first(accs: Seq<MerchantAccrual>, merchant: Address, j: int)
    requires
        0 <= j < accs.len(),
        accs[j].merchant == merchant,
        forall|k: int| 0 <= k < j ==> accs[k].merchant != merchant,
    ensures
        find_accrual(accs, merchant) == j,
    decreases accs.len(),
{
    if j == 0 {
    } else {
        assert(accs[0].merchant != merchant);
        assert(accs.drop_first()[j - 1].merchant == merchant);
        assert(forall|k: int| 0 <= k < j - 1 ==> accs.drop_first()[k].merchant != merchant);
        lemma_find_accrual_first(accs.drop_first(), merchant, j - 1);
    }
}

/// When no entry matches, `find_accrual` reports -1.
pub proof fn lemma_find_accrual_none(accs: Seq<MerchantAccrual>, merchant: Address)
    requires
        forall|k: int| 0 <= k < accs.len() ==> accs[k].merchant != merchant,
    ensures
        find_accrual(accs, merchant) == -1,
    decreases accs.len(),
{
    if accs.len() == 0 {
    } else {
        lemma_find_accrual_none(accs.drop_first(), merchant);
    }
}

/// Returns the index of `merchant`'s accrual entry, or `None` when it has
/// none.
pub(crate) fn find_accrual_index(accruals: &Vec<MerchantAccrual>, merchant: Address) -> (r: Option<
    usize,
>)
    ensures
        match r {
            Some(i) => i < accruals@.len() && find_accrual(accruals@, merchant) == i,
            None => find_accrual(accruals@, merchant) == -1,
        },
{
    let mut j: usize = 0;
    while j < accruals.len()
        invariant
            j <= accruals@.len(),
            forall|k: int| 0 <= k < j ==> accruals@[k].merchant != merchant,
        decreases accruals@.len() - j,
    {
        if accruals[j].merchant == merchant {
            proof {
                lemma_find_accrual_first(accruals@, merchant, j as int);
            }
            return Some(j);
        }
        j += 1;
    }
    proof {
        lemma_find_accrual_none(accruals@, merchant);
    }
    None
}

/// Credits `merchant`'s accrued balance with `amount`, appending an entry
/// when the merchant has none yet. Fails `Overflow`, changing nothing, when
/// the credited balance would exceed `i128::MAX`.
pub(crate) fn credit_accrual(
    accruals: &mut Vec<MerchantAccrual>,
    merchant: Address,
    amount: i128,
) -> (r: Result<(), Error>)
    requires
        amount >= 0,
        forall|i: int| 0 <= i < old(accruals)@.len() ==> (#[trigger] old(accruals)@[i]).balance
            >= 0,
    ensures
        accrual_of(old(accruals)@, merchant) + amount <= i128::MAX ==> r == Ok::<(), Error>(())
            && final(accruals)@ == spec_credit(old(accruals)@, merchant, amount as int),
        accrual_of(old(accruals)@, merchant) + amount > i128::MAX ==> r == Err::<(), Error>(
            Error::Overflow,
        ) && final(accruals)@ == old(accruals)@,
        forall|i: int| 0 <= i < final(accruals)@.len() ==> (#[trigger] final(accruals)@[i]).balance
            >= 0,
{
    match find_accrual_index(accruals, merchant) {
        Some(i) => {
            let current = accruals[i].balance;
            match current.checked_add(amount) {
                Some(new_balance) => {
                    accruals[i] = MerchantAccrual { merchant, balance: new_balance };
                    Ok(())
                },
                None => Err(Error::Overflow),
            }
        },
        None => {
            accruals.push(MerchantAccrual { merchant, balance: amount });
            Ok(())
        },
    }
}

impl SubscriptionVault {
    /// A vault with no configuration and no records; `init` configures it.
    pub fn new() -> (vault: SubscriptionVault)
        ensures
            vault@ == empty_vault(),
            vault_inv(vault@),
    {
        SubscriptionVault {
            config: None,
            subscriptions: Vec::new(),
            plans: Vec::new(),
            accruals: Vec::new(),
        }
    }

    /// The number of subscriptions ever created (also the next identifier to
    /// be assigned).
    pub fn subscription_count(&self) -> (n: u32)
        requires
            vault_inv(self@),
        ensures
            n == self@.subs.len(),
    {
        self.subscriptions.len() as u32
    }

    /// The accrued, not yet withdrawn, balance of a merchant.
    pub fn get_merchant_balance(&self, merchant: Address) -> (balance: i128)
        ensures
            balance == accrual_of(self@.accruals, merchant),
    {
        match find_accrual_index(&self.accruals, merchant) {
            Some(i) => self.accruals[i].balance,
            None => 0,
        }
    }
}

} // verus!
