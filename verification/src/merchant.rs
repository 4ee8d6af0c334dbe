//! The merchant ledger: withdrawal of the per-merchant accrued balance that
//! successful charges credit.

use vstd::prelude::*;

use crate::safe_math::safe_sub_balance;
use crate::types::{Address, Error, MerchantAccrual};
use crate::vault::{
    accrual_of, find_accrual_index, spec_debit, vault_inv, SubscriptionVault, VaultView,
};

verus! {

impl SubscriptionVault {
    /// Debits `amount` from the merchant's accrued balance, in preparation
    /// for the host's transfer to the merchant's wallet.
    ///
    /// Fails `InvalidAmount` for a non-positive amount and `Underflow` when
    /// the withdrawal would overdraw the accrued balance (a merchant that was
    /// never credited has balance 0); on failure nothing changes. The host
    /// transfers the funds only after this succeeds.
    pub fn withdraw_merchant_funds(&mut self, merchant: Address, amount: i128) -> (r: Result<
        (),
        Error,
    >)
        requires
            vault_inv(old(self)@),
        ensures
            vault_inv(final(self)@),
            amount <= 0 ==> r == Err::<(), Error>(Error::InvalidAmount) && final(self)@ == old(
                self,
            )@,
            amount > 0 && accrual_of(old(self)@.accruals, merchant) < amount ==> r == Err::<
                (),
                Error,
            >(Error::Underflow) && final(self)@ == old(self)@,
            amount > 0 && accrual_of(old(self)@.accruals, merchant) >= amount ==> r == Ok::<
                (),
                Error,
            >(()) && final(self)@ == (VaultView {
                accruals: spec_debit(old(self)@.accruals, merchant, amount as int),
                ..old(self)@
            }),
    {
        if amount <= 0 {
            return Err(Error::InvalidAmount);
        }
        match find_accrual_index(&self.accruals, merchant) {
            Some(i) => {
                let current = self.accruals[i].balance;
                let new_balance = match safe_sub_balance(current, amount) {
                    Ok(v) => v,
                    Err(e) => {
                        return Err(e);
                    },
                };
                self.accruals[i] = MerchantAccrual { merchant, balance: new_balance };
                Ok(())
            },
            None => Err(Error::Underflow),
        }
    }
}

} // verus!
