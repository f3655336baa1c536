//! The router: one multi-asset interface over the native backend and the
//! multi-asset backend, chosen by comparing the asset with the configured
//! native id. It short-circuits zero amounts and self-transfers, and records
//! an event after each successful mutation.

use vstd::prelude::*;
use crate::adapter::Stp258AssetAdapter;
use crate::book::{
    acct, deposit_done, deposit_result, reserve_done, slash_done, transfer_done, unreserve_done, withdraw_done,
    slash_reserved_done, can_slash_spec, can_reserve_spec, repatriate_done,
};
use crate::tokens::Tokens;
use crate::types::{
    AccountData, AccountId, Balance, BalanceStatus, CurrencyId, DispatchError, Error, Event,
};

verus! {

/// The configuration the router is built with.
#[derive(Clone, Copy, Debug, PartialEq, Eq, Structural)]
pub struct Config {
    /// The asset served by the native backend.
    pub native_currency_id: CurrencyId,
}

/// Who dispatched a call.
#[derive(Clone, Copy, Debug, PartialEq, Eq, Structural)]
pub enum Origin {
    Root,
    Signed(AccountId),
    Unsigned,
}

/// The account that signed `origin`, or `BadOrigin`.
pub open spec fn signer(origin: Origin) -> Result<AccountId, DispatchError> {
    match origin {
        Origin::Signed(who) => Ok(who),
        _ => Err(DispatchError::BadOrigin),
    }
}

pub fn ensure_signed(origin: Origin) -> (r: Result<AccountId, DispatchError>)
    ensures
        r == signer(origin),
{
    match origin {
        Origin::Signed(who) => Ok(who),
        _ => Err(DispatchError::BadOrigin),
    }
}

/// The router, its two backends and the events recorded so far.
pub struct Pallet {
    pub config: Config,
    pub native: Stp258AssetAdapter,
    pub tokens: Tokens,
    pub events: Vec<Event>,
}

impl Pallet {
    pub open spec fn wf(&self) -> bool {
        self.native.wf() && self.tokens.wf()
    }

    pub open spec fn is_native(&self, asset: CurrencyId) -> bool {
        asset == self.config.native_currency_id
    }

    /// The balances held in `asset`, by whichever backend serves it.
    pub open spec fn accounts(&self, asset: CurrencyId) -> Map<AccountId, AccountData> {
        if self.is_native(asset) {
            self.native.accounts()
        } else {
            self.tokens.accounts(asset)
        }
    }

    pub open spec fn issuance(&self, asset: CurrencyId) -> u128 {
        if self.is_native(asset) {
            self.native.issuance()
        } else {
            self.tokens.issuance(asset)
        }
    }

    pub open spec fn data(&self, asset: CurrencyId, who: AccountId) -> AccountData {
        acct(self.accounts(asset), who)
    }

    /// A call on `asset` took `old` to `self` through the backend that serves
    /// `asset` alone: the other backend, the configuration, the constants and
    /// every other asset are as they were.
    pub open spec fn routed(&self, old: &Pallet, asset: CurrencyId) -> bool {
        &&& self.config == old.config
        &&& old.is_native(asset) ==> self.tokens == old.tokens && self.native.minimum()
            == old.native.minimum() && self.native.locks() == old.native.locks()
        &&& !old.is_native(asset) ==> self.native == old.native && self.tokens.unchanged_except(
            &old.tokens,
            asset,
        )
    }

    /// Nothing at all changed.
    pub open spec fn unchanged(&self, old: &Pallet) -> bool {
        &&& self.config == old.config
        &&& self.native == old.native
        &&& self.tokens == old.tokens
        &&& self.events@ == old.events@
    }

    /// What `ensure_can_withdraw` answers.
    pub open spec fn withdraw_check(&self, asset: CurrencyId, who: AccountId, amount: Balance) -> Result<(), DispatchError> {
        if self.data(asset, who).free < amount {
            if self.is_native(asset) {
                Err(DispatchError::Module(Error::BalanceTooLow))
            } else {
                Err(DispatchError::InsufficientBalance)
            }
        } else if self.is_native(asset) {
            self.native.currency.withdraw_check(who, amount, (self.data(asset, who).free - amount) as u128)
        } else {
            Ok(())
        }
    }

    /// A router over the two backends, with no events yet.
    pub fn new(config: Config, native: Stp258AssetAdapter, tokens: Tokens) -> (r: Pallet)
        ensures
            r.config == config,
            r.native == native,
            r.tokens == tokens,
            r.events@ == Seq::<Event>::empty(),
    {
        Pallet { config, native, tokens, events: Vec::new() }
    }

    /// The events recorded so far, oldest first.
    pub fn events(&self) -> (r: &Vec<Event>)
        ensures
            r@ == self.events@,
    {
        &self.events
    }

    pub fn native_currency_id(&self) -> (r: CurrencyId)
        ensures
            r == self.config.native_currency_id,
    {
        self.config.native_currency_id
    }

    /// The smallest meaningful unit of `asset`; for the native asset, its
    /// minimum balance.
    pub fn base_unit(&self, currency_id: CurrencyId) -> (r: Balance)
        ensures
            r == if self.is_native(currency_id) {
                self.native.minimum()
            } else {
                self.tokens.params_of(currency_id).base_unit
            },
    {
        if currency_id == self.config.native_currency_id {
            self.native.minimum_balance()
        } else {
            self.tokens.base_unit(currency_id)
        }
    }

    pub fn minimum_balance(&self, currency_id: CurrencyId) -> (r: Balance)
        ensures
            r == if self.is_native(currency_id) {
                self.native.minimum()
            } else {
                self.tokens.params_of(currency_id).minimum_balance
            },
    {
        if currency_id == self.config.native_currency_id {
            self.native.minimum_balance()
        } else {
            self.tokens.minimum_balance(currency_id)
        }
    }

    pub fn total_issuance(&self, currency_id: CurrencyId) -> (r: Balance)
        ensures
            r == self.issuance(currency_id),
    {
        if currency_id == self.config.native_currency_id {
            self.native.total_issuance()
        } else {
            self.tokens.total_issuance(currency_id)
        }
    }

    pub fn total_balance(&self, currency_id: CurrencyId, who: AccountId) -> (r: Balance)
        requires
            self.wf(),
        ensures
            r == self.data(currency_id, who).total(),
    {
        if currency_id == self.config.native_currency_id {
            self.native.total_balance(who)
        } else {
            self.tokens.total_balance(currency_id, who)
        }
    }

    pub fn free_balance(&self, currency_id: CurrencyId, who: AccountId) -> (r: Balance)
        ensures
            r == self.data(currency_id, who).free,
    {
        if currency_id == self.config.native_currency_id {
            self.native.free_balance(who)
        } else {
            self.tokens.free_balance(currency_id, who)
        }
    }

    pub fn reserved_balance(&self, currency_id: CurrencyId, who: AccountId) -> (r: Balance)
        ensures
            r == self.data(currency_id, who).reserved,
    {
        if currency_id == self.config.native_currency_id {
            self.native.reserved_balance(who)
        } else {
            self.tokens.reserved_balance(currency_id, who)
        }
    }

    pub fn ensure_can_withdraw(&self, currency_id: CurrencyId, who: AccountId, amount: Balance) -> (r: Result<(), DispatchError>)
        ensures
            r == self.withdraw_check(currency_id, who, amount),
    {
        if currency_id == self.config.native_currency_id {
            self.native.ensure_can_withdraw(who, amount)
        } else {
            self.tokens.ensure_can_withdraw(currency_id, who, amount)
        }
    }

    /// Moves `amount` of free balance from `from` to `to`. A zero amount or
    /// a transfer to oneself succeeds at once and changes nothing.
    pub fn transfer_between(
        &mut self,
        currency_id: CurrencyId,
        from: AccountId,
        to: AccountId,
        amount: Balance,
    ) -> (r: Result<(), DispatchError>)
        requires
            old(self).wf(),
        ensures
            final(self).wf(),
            amount == 0 || from == to ==> r is Ok && final(self).unchanged(old(self)),
            final(self).routed(old(self), currency_id),
            transfer_done(old(self).accounts(currency_id), old(self).issuance(currency_id),
                final(self).accounts(currency_id), final(self).issuance(currency_id), from, to,
                amount, r),
            final(self).events@ == if r is Ok && amount != 0 && from != to {
                old(self).events@.push(Event::Transferred(currency_id, from, to, amount))
            } else {
                old(self).events@
            },
    {
        if amount == 0 || from == to {
            return Ok(());
        }
        let r = if currency_id == self.config.native_currency_id {
            self.native.transfer(from, to, amount)
        } else {
            self.tokens.transfer(currency_id, from, to, amount)
        };
        if r.is_ok() {
            self.events.push(Event::Transferred(currency_id, from, to, amount));
        }
        r
    }

    /// Credits `who`. A zero amount succeeds at once and changes nothing.
    pub fn deposit(&mut self, currency_id: CurrencyId, who: AccountId, amount: Balance) -> (r: Result<(), DispatchError>)
        requires
            old(self).wf(),
        ensures
            final(self).wf(),
            amount == 0 ==> r is Ok && final(self).unchanged(old(self)),
            final(self).routed(old(self), currency_id),
            deposit_done(old(self).accounts(currency_id), old(self).issuance(currency_id),
                final(self).accounts(currency_id), final(self).issuance(currency_id), who, amount,
                deposit_result(old(self).accounts(currency_id), old(self).issuance(currency_id), who,
                amount)),
            r == if old(self).is_native(currency_id) {
                Ok(())
            } else {
                deposit_result(old(self).accounts(currency_id), old(self).issuance(currency_id), who,
                    amount)
            },
            final(self).events@ == if r is Ok && amount != 0 {
                old(self).events@.push(Event::Deposited(currency_id, who, amount))
            } else {
                old(self).events@
            },
    {
        if amount == 0 {
            return Ok(());
        }
        let r = if currency_id == self.config.native_currency_id {
            self.native.deposit(who, amount)
        } else {
            self.tokens.deposit(currency_id, who, amount)
        };
        if r.is_ok() {
            self.events.push(Event::Deposited(currency_id, who, amount));
        }
        r
    }

    /// Debits `who`. A zero amount succeeds at once and changes nothing.
    pub fn withdraw(&mut self, currency_id: CurrencyId, who: AccountId, amount: Balance) -> (r: Result<(), DispatchError>)
        requires
            old(self).wf(),
        ensures
            final(self).wf(),
            amount == 0 ==> r is Ok && final(self).unchanged(old(self)),
            final(self).routed(old(self), currency_id),
            withdraw_done(old(self).accounts(currency_id), old(self).issuance(currency_id),
                final(self).accounts(currency_id), final(self).issuance(currency_id), who, amount, r),
            final(self).events@ == if r is Ok && amount != 0 {
                old(self).events@.push(Event::Withdrawn(currency_id, who, amount))
            } else {
                old(self).events@
            },
    {
        if amount == 0 {
            return Ok(());
        }
        let r = if currency_id == self.config.native_currency_id {
            self.native.withdraw(who, amount)
        } else {
            self.tokens.withdraw(currency_id, who, amount)
        };
        if r.is_ok() {
            self.events.push(Event::Withdrawn(currency_id, who, amount));
        }
        r
    }

    pub fn can_slash(&self, currency_id: CurrencyId, who: AccountId, amount: Balance) -> (r: bool)
        ensures
            r == can_slash_spec(self.accounts(currency_id), who, amount),
    {
        if currency_id == self.config.native_currency_id {
            self.native.can_slash(who, amount)
        } else {
            self.tokens.can_slash(currency_id, who, amount)
        }
    }

    /// Removes up to `amount`, free balance first; returns the shortfall.
    pub fn slash(&mut self, currency_id: CurrencyId, who: AccountId, amount: Balance) -> (gap: Balance)
        requires
            old(self).wf(),
        ensures
            final(self).wf(),
            final(self).routed(old(self), currency_id),
            slash_done(old(self).accounts(currency_id), old(self).issuance(currency_id),
                final(self).accounts(currency_id), final(self).issuance(currency_id), who, amount, gap),
            final(self).events@ == old(self).events@,
    {
        if currency_id == self.config.native_currency_id {
            self.native.slash(who, amount)
        } else {
            self.tokens.slash(currency_id, who, amount)
        }
    }

    pub fn can_reserve(&self, currency_id: CurrencyId, who: AccountId, value: Balance) -> (r: bool)
        ensures
            r == can_reserve_spec(self.accounts(currency_id), who, value),
    {
        if currency_id == self.config.native_currency_id {
            self.native.can_reserve(who, value)
        } else {
            self.tokens.can_reserve(currency_id, who, value)
        }
    }

    /// Moves `value` from free to reserved, or fails with nothing changed.
    pub fn reserve(&mut self, currency_id: CurrencyId, who: AccountId, value: Balance) -> (r: Result<(), DispatchError>)
        requires
            old(self).wf(),
        ensures
            final(self).wf(),
            final(self).routed(old(self), currency_id),
            reserve_done(old(self).accounts(currency_id), old(self).issuance(currency_id),
                final(self).accounts(currency_id), final(self).issuance(currency_id), who, value, r),
            final(self).events@ == old(self).events@,
    {
        if currency_id == self.config.native_currency_id {
            self.native.reserve(who, value)
        } else {
            self.tokens.reserve(currency_id, who, value)
        }
    }

    /// Moves up to `value` from reserved to free; returns the shortfall.
    pub fn unreserve(&mut self, currency_id: CurrencyId, who: AccountId, value: Balance) -> (gap: Balance)
        requires
            old(self).wf(),
        ensures
            final(self).wf(),
            final(self).routed(old(self), currency_id),
            unreserve_done(old(self).accounts(currency_id), old(self).issuance(currency_id),
                final(self).accounts(currency_id), final(self).issuance(currency_id), who, value, gap),
            final(self).events@ == old(self).events@,
    {
        if currency_id == self.config.native_currency_id {
            self.native.unreserve(who, value)
        } else {
            self.tokens.unreserve(currency_id, who, value)
        }
    }

    /// Removes up to `value` of reserved balance; returns the shortfall.
    pub fn slash_reserved(&mut self, currency_id: CurrencyId, who: AccountId, value: Balance) -> (gap: Balance)
        requires
            old(self).wf(),
        ensures
            final(self).wf(),
            final(self).routed(old(self), currency_id),
            slash_reserved_done(old(self).accounts(currency_id), old(self).issuance(currency_id),
                final(self).accounts(currency_id), final(self).issuance(currency_id), who, value, gap),
            final(self).events@ == old(self).events@,
    {
        if currency_id == self.config.native_currency_id {
            self.native.slash_reserved(who, value)
        } else {
            self.tokens.slash_reserved(currency_id, who, value)
        }
    }

    /// Moves up to `value` of the reserved balance of `slashed` into the
    /// bucket of `beneficiary` that `status` selects; returns the shortfall.
    pub fn repatriate_reserved(
        &mut self,
        currency_id: CurrencyId,
        slashed: AccountId,
        beneficiary: AccountId,
        value: Balance,
        status: BalanceStatus,
    ) -> (r: Result<Balance, DispatchError>)
        requires
            old(self).wf(),
        ensures
            final(self).wf(),
            final(self).routed(old(self), currency_id),
            repatriate_done(old(self).accounts(currency_id), old(self).issuance(currency_id),
                final(self).accounts(currency_id), final(self).issuance(currency_id), slashed,
                beneficiary, value, status, r),
            final(self).events@ == old(self).events@,
    {
        if currency_id == self.config.native_currency_id {
            self.native.repatriate_reserved(slashed, beneficiary, value, status)
        } else {
            self.tokens.repatriate_reserved(currency_id, slashed, beneficiary, value, status)
        }
    }

    /// Dispatchable: the signer of `origin` transfers `amount` of
    /// `currency_id` to `dest`.
    pub fn transfer(
        &mut self,
        origin: Origin,
        dest: AccountId,
        currency_id: CurrencyId,
        amount: Balance,
    ) -> (r: Result<(), DispatchError>)
        requires
            old(self).wf(),
        ensures
            final(self).wf(),
            signer(origin) is Err ==> r == Err::<(), DispatchError>(DispatchError::BadOrigin)
                && final(self).unchanged(old(self)),
            signer(origin) matches Ok(from) ==> {
                &&& final(self).routed(old(self), currency_id)
                &&& transfer_done(old(self).accounts(currency_id), old(self).issuance(currency_id),
                    final(self).accounts(currency_id), final(self).issuance(currency_id), from,
                    dest, amount, r)
                &&& final(self).events@ == if r is Ok && amount != 0 && from != dest {
                    old(self).events@.push(Event::Transferred(currency_id, from, dest, amount))
                } else {
                    old(self).events@
                }
            },
    {
        let from = match ensure_signed(origin) {
            Ok(who) => who,
            Err(e) => return Err(e),
        };
        self.transfer_between(currency_id, from, dest, amount)
    }

    /// Dispatchable: the signer of `origin` transfers `amount` of the native
    /// asset to `dest` through the native backend, and the transfer is
    /// recorded under the native id. A zero amount or a transfer to oneself
    /// succeeds at once and changes nothing.
    pub fn transfer_native_currency(
        &mut self,
        origin: Origin,
        dest: AccountId,
        amount: Balance,
    ) -> (r: Result<(), DispatchError>)
        requires
            old(self).wf(),
        ensures
            final(self).wf(),
            signer(origin) is Err ==> r == Err::<(), DispatchError>(DispatchError::BadOrigin)
                && final(self).unchanged(old(self)),
            signer(origin) matches Ok(from) ==> {
                &&& amount == 0 || from == dest ==> r is Ok && final(self).unchanged(old(self))
                &&& final(self).routed(old(self), old(self).config.native_currency_id)
                &&& transfer_done(old(self).native.accounts(), old(self).native.issuance(),
                    final(self).native.accounts(), final(self).native.issuance(), from, dest,
                    amount, r)
                &&& final(self).events@ == if r is Ok && amount != 0 && from != dest {
                    old(self).events@.push(
                        Event::Transferred(old(self).config.native_currency_id, from, dest, amount),
                    )
                } else {
                    old(self).events@
                }
            },
    {
        let from = match ensure_signed(origin) {
            Ok(who) => who,
            Err(e) => return Err(e),
        };
        if amount == 0 || from == dest {
            return Ok(());
        }
        let r = self.native.transfer(from, dest, amount);
        if r.is_ok() {
            self.events.push(Event::Transferred(self.config.native_currency_id, from, dest, amount));
        }
        r
    }
}

} // verus!
