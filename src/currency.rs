//! A single-asset view of the router: one asset id fixed, every operation
//! forwarded with it.

use vstd::prelude::*;
use crate::book::{
    can_reserve_spec, can_slash_spec, deposit_done, deposit_result, repatriate_done, reserve_done,
    slash_done, slash_reserved_done, transfer_done, unreserve_done, withdraw_done,
};
use crate::pallet::Pallet;
use crate::types::{AccountId, Balance, BalanceStatus, CurrencyId, DispatchError, Event};

verus! {

/// One asset of the router, fixed; it holds no state of its own.
#[derive(Clone, Copy, Debug, PartialEq, Eq, Structural)]
pub struct Currency {
    pub currency_id: CurrencyId,
}

impl Currency {
    pub fn new(currency_id: CurrencyId) -> (r: Currency)
        ensures
            r.currency_id == currency_id,
    {
        Currency { currency_id }
    }

    /// The handle on the native asset of `pallet`.
    pub fn native_of(pallet: &Pallet) -> (r: Currency)
        ensures
            r.currency_id == pallet.config.native_currency_id,
    {
        Currency { currency_id: pallet.config.native_currency_id }
    }

    pub fn minimum_balance(&self, pallet: &Pallet) -> (r: Balance)
        ensures
            r == if pallet.is_native(self.currency_id) {
                pallet.native.minimum()
            } else {
                pallet.tokens.params_of(self.currency_id).minimum_balance
            },
    {
        pallet.minimum_balance(self.currency_id)
    }

    pub fn total_issuance(&self, pallet: &Pallet) -> (r: Balance)
        ensures
            r == pallet.issuance(self.currency_id),
    {
        pallet.total_issuance(self.currency_id)
    }

    pub fn total_balance(&self, pallet: &Pallet, who: AccountId) -> (r: Balance)
        requires
            pallet.wf(),
        ensures
            r == pallet.data(self.currency_id, who).total(),
    {
        pallet.total_balance(self.currency_id, who)
    }

    pub fn free_balance(&self, pallet: &Pallet, who: AccountId) -> (r: Balance)
        ensures
            r == pallet.data(self.currency_id, who).free,
    {
        pallet.free_balance(self.currency_id, who)
    }

    pub fn reserved_balance(&self, pallet: &Pallet, who: AccountId) -> (r: Balance)
        ensures
            r == pallet.data(self.currency_id, who).reserved,
    {
        pallet.reserved_balance(self.currency_id, who)
    }

    pub fn ensure_can_withdraw(&self, pallet: &Pallet, who: AccountId, amount: Balance) -> (r: Result<(), DispatchError>)
        ensures
            r == pallet.withdraw_check(self.currency_id, who, amount),
    {
        pallet.ensure_can_withdraw(self.currency_id, who, amount)
    }

    pub fn transfer(&self, pallet: &mut Pallet, from: AccountId, to: AccountId, amount: Balance) -> (r: Result<(), DispatchError>)
        requires
            old(pallet).wf(),
        ensures
            final(pallet).wf(),
            amount == 0 || from == to ==> r is Ok && final(pallet).unchanged(old(pallet)),
            final(pallet).routed(old(pallet), self.currency_id),
            transfer_done(old(pallet).accounts(self.currency_id), old(pallet).issuance(self.currency_id),
                final(pallet).accounts(self.currency_id), final(pallet).issuance(self.currency_id),
                from, to, amount, r),
            final(pallet).events@ == if r is Ok && amount != 0 && from != to {
                old(pallet).events@.push(Event::Transferred(self.currency_id, from, to, amount))
            } else {
                old(pallet).events@
            },
    {
        pallet.transfer_between(self.currency_id, from, to, amount)
    }

    pub fn deposit(&self, pallet: &mut Pallet, who: AccountId, amount: Balance) -> (r: Result<(), DispatchError>)
        requires
            old(pallet).wf(),
        ensures
            final(pallet).wf(),
            amount == 0 ==> r is Ok && final(pallet).unchanged(old(pallet)),
            final(pallet).routed(old(pallet), self.currency_id),
            deposit_done(old(pallet).accounts(self.currency_id), old(pallet).issuance(self.currency_id),
                final(pallet).accounts(self.currency_id), final(pallet).issuance(self.currency_id),
                who, amount, deposit_result(old(pallet).accounts(self.currency_id),
                old(pallet).issuance(self.currency_id), who, amount)),
            r == if old(pallet).is_native(self.currency_id) {
                Ok(())
            } else {
                deposit_result(old(pallet).accounts(self.currency_id),
                    old(pallet).issuance(self.currency_id), who, amount)
            },
            final(pallet).events@ == if r is Ok && amount != 0 {
                old(pallet).events@.push(Event::Deposited(self.currency_id, who, amount))
            } else {
                old(pallet).events@
            },
    {
        pallet.deposit(self.currency_id, who, amount)
    }

    pub fn withdraw(&self, pallet: &mut Pallet, who: AccountId, amount: Balance) -> (r: Result<(), DispatchError>)
        requires
            old(pallet).wf(),
        ensures
            final(pallet).wf(),
            amount == 0 ==> r is Ok && final(pallet).unchanged(old(pallet)),
            final(pallet).routed(old(pallet), self.currency_id),
            withdraw_done(old(pallet).accounts(self.currency_id), old(pallet).issuance(self.currency_id),
                final(pallet).accounts(self.currency_id), final(pallet).issuance(self.currency_id),
                who, amount, r),
            final(pallet).events@ == if r is Ok && amount != 0 {
                old(pallet).events@.push(Event::Withdrawn(self.currency_id, who, amount))
            } else {
                old(pallet).events@
            },
    {
        pallet.withdraw(self.currency_id, who, amount)
    }

    pub fn can_slash(&self, pallet: &Pallet, who: AccountId, amount: Balance) -> (r: bool)
        ensures
            r == can_slash_spec(pallet.accounts(self.currency_id), who, amount),
    {
        pallet.can_slash(self.currency_id, who, amount)
    }

    pub fn slash(&self, pallet: &mut Pallet, who: AccountId, amount: Balance) -> (gap: Balance)
        requires
            old(pallet).wf(),
        ensures
            final(pallet).wf(),
            final(pallet).routed(old(pallet), self.currency_id),
            slash_done(old(pallet).accounts(self.currency_id), old(pallet).issuance(self.currency_id),
                final(pallet).accounts(self.currency_id), final(pallet).issuance(self.currency_id),
                who, amount, gap),
            final(pallet).events@ == old(pallet).events@,
    {
        pallet.slash(self.currency_id, who, amount)
    }

    pub fn can_reserve(&self, pallet: &Pallet, who: AccountId, value: Balance) -> (r: bool)
        ensures
            r == can_reserve_spec(pallet.accounts(self.currency_id), who, value),
    {
        pallet.can_reserve(self.currency_id, who, value)
    }

    pub fn reserve(&self, pallet: &mut Pallet, who: AccountId, value: Balance) -> (r: Result<(), DispatchError>)
        requires
            old(pallet).wf(),
        ensures
            final(pallet).wf(),
            final(pallet).routed(old(pallet), self.currency_id),
            reserve_done(old(pallet).accounts(self.currency_id), old(pallet).issuance(self.currency_id),
                final(pallet).accounts(self.currency_id), final(pallet).issuance(self.currency_id),
                who, value, r),
            final(pallet).events@ == old(pallet).events@,
    {
        pallet.reserve(self.currency_id, who, value)
    }

    pub fn unreserve(&self, pallet: &mut Pallet, who: AccountId, value: Balance) -> (gap: Balance)
        requires
            old(pallet).wf(),
        ensures
            final(pallet).wf(),
            final(pallet).routed(old(pallet), self.currency_id),
            unreserve_done(old(pallet).accounts(self.currency_id), old(pallet).issuance(self.currency_id),
                final(pallet).accounts(self.currency_id), final(pallet).issuance(self.currency_id),
                who, value, gap),
            final(pallet).events@ == old(pallet).events@,
    {
        pallet.unreserve(self.currency_id, who, value)
    }

    pub fn slash_reserved(&self, pallet: &mut Pallet, who: AccountId, value: Balance) -> (gap: Balance)
        requires
            old(pallet).wf(),
        ensures
            final(pallet).wf(),
            final(pallet).routed(old(pallet), self.currency_id),
            slash_reserved_done(old(pallet).accounts(self.currency_id),
                old(pallet).issuance(self.currency_id), final(pallet).accounts(self.currency_id),
                final(pallet).issuance(self.currency_id), who, value, gap),
            final(pallet).events@ == old(pallet).events@,
    {
        pallet.slash_reserved(self.currency_id, who, value)
    }

    pub fn repatriate_reserved(
        &self,
        pallet: &mut Pallet,
        slashed: AccountId,
        beneficiary: AccountId,
        value: Balance,
        status: BalanceStatus,
    ) -> (r: Result<Balance, DispatchError>)
        requires
            old(pallet).wf(),
        ensures
            final(pallet).wf(),
            final(pallet).routed(old(pallet), self.currency_id),
            repatriate_done(old(pallet).accounts(self.currency_id),
                old(pallet).issuance(self.currency_id), final(pallet).accounts(self.currency_id),
                final(pallet).issuance(self.currency_id), slashed, beneficiary, value, status, r),
            final(pallet).events@ == old(pallet).events@,
    {
        pallet.repatriate_reserved(self.currency_id, slashed, beneficiary, value, status)
    }
}

} // verus!
