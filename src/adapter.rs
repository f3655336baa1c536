//! Presents the native backend under the canonical multi-asset contract.

use vstd::prelude::*;
use crate::balances::Balances;
use crate::book::{
    acct, deposit_done, deposit_result, reserve_done, slash_done, transfer_done, unreserve_done,
    withdraw_done, slash_reserved_done, can_slash_spec, can_reserve_spec, repatriate_done,
};
use crate::types::{AccountData, AccountId, Balance, BalanceStatus, DispatchError, Error};

verus! {

/// The native backend seen through the canonical contract: deposits never
/// fail, and slashes return the shortfall alone.
pub struct Stp258AssetAdapter {
    pub currency: Balances,
}

impl Stp258AssetAdapter {
    pub open spec fn wf(&self) -> bool {
        self.currency.wf()
    }

    pub open spec fn accounts(&self) -> Map<AccountId, AccountData> {
        self.currency.accounts()
    }

    pub open spec fn issuance(&self) -> u128 {
        self.currency.issuance()
    }

    /// Its configured constant, kept by every operation.
    pub open spec fn minimum(&self) -> u128 {
        self.currency.existential_deposit
    }

    /// The locks of the backend, kept by every operation but its own setter.
    pub open spec fn locks(&self) -> Map<AccountId, Balance> {
        self.currency.locks@
    }

    pub fn new(currency: Balances) -> (r: Stp258AssetAdapter)
        ensures
            r.currency == currency,
    {
        Stp258AssetAdapter { currency }
    }

    pub fn minimum_balance(&self) -> (r: Balance)
        ensures
            r == self.minimum(),
    {
        self.currency.minimum_balance()
    }

    pub fn total_issuance(&self) -> (r: Balance)
        ensures
            r == self.issuance(),
    {
        self.currency.total_issuance()
    }

    pub fn total_balance(&self, who: AccountId) -> (r: Balance)
        requires
            self.wf(),
        ensures
            r == acct(self.accounts(), who).total(),
    {
        self.currency.total_balance(who)
    }

    pub fn free_balance(&self, who: AccountId) -> (r: Balance)
        ensures
            r == acct(self.accounts(), who).free,
    {
        self.currency.free_balance(who)
    }

    pub fn reserved_balance(&self, who: AccountId) -> (r: Balance)
        ensures
            r == acct(self.accounts(), who).reserved,
    {
        self.currency.reserved_balance(who)
    }

    /// Fails with `BalanceTooLow` when free balance minus `amount` would
    /// underflow; otherwise answers as the backend's withdrawal check does on
    /// the balance that would remain.
    pub fn ensure_can_withdraw(&self, who: AccountId, amount: Balance) -> (r: Result<(), DispatchError>)
        ensures
            r == (if acct(self.accounts(), who).free < amount {
                Err(DispatchError::Module(Error::BalanceTooLow))
            } else {
                self.currency.withdraw_check(who, amount, (acct(self.accounts(), who).free - amount) as u128)
            }),
    {
        match self.free_balance(who).checked_sub(amount) {
            Some(new_balance) => self.currency.ensure_can_withdraw(who, amount, new_balance),
            None => Err(DispatchError::Module(Error::BalanceTooLow)),
        }
    }

    pub fn transfer(&mut self, from: AccountId, to: AccountId, amount: Balance) -> (r: Result<(), DispatchError>)
        requires
            old(self).wf(),
        ensures
            final(self).wf(),
            final(self).minimum() == old(self).minimum(),
            final(self).locks() == old(self).locks(),
            transfer_done(old(self).accounts(), old(self).issuance(), final(self).accounts(),
                final(self).issuance(), from, to, amount, r),
    {
        self.currency.transfer(from, to, amount)
    }

    /// Credits `who` as far as the backend can; never fails.
    pub fn deposit(&mut self, who: AccountId, amount: Balance) -> (r: Result<(), DispatchError>)
        requires
            old(self).wf(),
        ensures
            final(self).wf(),
            final(self).minimum() == old(self).minimum(),
            final(self).locks() == old(self).locks(),
            r == Ok::<(), DispatchError>(()),
            deposit_done(old(self).accounts(), old(self).issuance(), final(self).accounts(),
                final(self).issuance(), who, amount,
                deposit_result(old(self).accounts(), old(self).issuance(), who, amount)),
    {
        let _credit = self.currency.deposit_creating(who, amount);
        Ok(())
    }

    pub fn withdraw(&mut self, who: AccountId, amount: Balance) -> (r: Result<(), DispatchError>)
        requires
            old(self).wf(),
        ensures
            final(self).wf(),
            final(self).minimum() == old(self).minimum(),
            final(self).locks() == old(self).locks(),
            withdraw_done(old(self).accounts(), old(self).issuance(), final(self).accounts(),
                final(self).issuance(), who, amount, r),
    {
        match self.currency.withdraw(who, amount) {
            Ok(_) => Ok(()),
            Err(e) => Err(e),
        }
    }

    pub fn can_slash(&self, who: AccountId, amount: Balance) -> (r: bool)
        ensures
            r == can_slash_spec(self.accounts(), who, amount),
    {
        self.currency.can_slash(who, amount)
    }

    /// Removes up to `amount`; returns the shortfall.
    pub fn slash(&mut self, who: AccountId, amount: Balance) -> (gap: Balance)
        requires
            old(self).wf(),
        ensures
            final(self).wf(),
            final(self).minimum() == old(self).minimum(),
            final(self).locks() == old(self).locks(),
            slash_done(old(self).accounts(), old(self).issuance(), final(self).accounts(),
                final(self).issuance(), who, amount, gap),
    {
        let (_credit, gap) = self.currency.slash(who, amount);
        gap
    }

    pub fn can_reserve(&self, who: AccountId, value: Balance) -> (r: bool)
        ensures
            r == can_reserve_spec(self.accounts(), who, value),
    {
        self.currency.can_reserve(who, value)
    }

    pub fn reserve(&mut self, who: AccountId, value: Balance) -> (r: Result<(), DispatchError>)
        requires
            old(self).wf(),
        ensures
            final(self).wf(),
            final(self).minimum() == old(self).minimum(),
            final(self).locks() == old(self).locks(),
            reserve_done(old(self).accounts(), old(self).issuance(), final(self).accounts(),
                final(self).issuance(), who, value, r),
    {
        self.currency.reserve(who, value)
    }

    /// Moves up to `value` back to free; returns the shortfall.
    pub fn unreserve(&mut self, who: AccountId, value: Balance) -> (gap: Balance)
        requires
            old(self).wf(),
        ensures
            final(self).wf(),
            final(self).minimum() == old(self).minimum(),
            final(self).locks() == old(self).locks(),
            unreserve_done(old(self).accounts(), old(self).issuance(), final(self).accounts(),
                final(self).issuance(), who, value, gap),
    {
        self.currency.unreserve(who, value)
    }

    /// Removes up to `value` of reserved balance; returns the shortfall.
    pub fn slash_reserved(&mut self, who: AccountId, value: Balance) -> (gap: Balance)
        requires
            old(self).wf(),
        ensures
            final(self).wf(),
            final(self).minimum() == old(self).minimum(),
            final(self).locks() == old(self).locks(),
            slash_reserved_done(old(self).accounts(), old(self).issuance(), final(self).accounts(),
                final(self).issuance(), who, value, gap),
    {
        let (_credit, gap) = self.currency.slash_reserved(who, value);
        gap
    }

    pub fn repatriate_reserved(
        &mut self,
        slashed: AccountId,
        beneficiary: AccountId,
        value: Balance,
        status: BalanceStatus,
    ) -> (r: Result<Balance, DispatchError>)
        requires
            old(self).wf(),
        ensures
            final(self).wf(),
            final(self).minimum() == old(self).minimum(),
            final(self).locks() == old(self).locks(),
            repatriate_done(old(self).accounts(), old(self).issuance(), final(self).accounts(),
                final(self).issuance(), slashed, beneficiary, value, status, r),
    {
        self.currency.repatriate_reserved(slashed, beneficiary, value, status)
    }
}

} // verus!
