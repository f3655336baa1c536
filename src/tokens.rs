//! The multi-asset backend: one book per non-native asset, with the
//! canonical contract (a slash returns the shortfall alone).

use vstd::prelude::*;
use vstd::hash_map::HashMapWithView;
use crate::book::{
    acct, deposit_done, reserve_done, slash_done, transfer_done, unreserve_done, withdraw_done,
    slash_reserved_done, can_slash_spec, can_reserve_spec, repatriate_done, Book,
};
use crate::types::{AccountData, AccountId, Balance, BalanceStatus, CurrencyId, DispatchError};

verus! {

broadcast use vstd::std_specs::hash::group_hash_axioms;

/// The configured constants of one non-native asset.
#[derive(Clone, Copy, Debug, PartialEq, Eq, Structural)]
pub struct AssetParams {
    pub minimum_balance: Balance,
    pub base_unit: Balance,
}

/// The multi-asset backend. An asset with no book holds nothing yet; an
/// asset with no parameters has a minimum balance and a base unit of zero.
pub struct Tokens {
    pub books: HashMapWithView<CurrencyId, Book>,
    pub params: HashMapWithView<CurrencyId, AssetParams>,
}

impl Tokens {
    pub open spec fn wf(&self) -> bool {
        forall|a: CurrencyId| self.books@.contains_key(a) ==> (#[trigger] self.books@[a]).wf()
    }

    /// The balances held in `asset`.
    pub open spec fn accounts(&self, asset: CurrencyId) -> Map<AccountId, AccountData> {
        if self.books@.contains_key(asset) {
            self.books@[asset].accounts@
        } else {
            Map::empty()
        }
    }

    pub open spec fn issuance(&self, asset: CurrencyId) -> u128 {
        if self.books@.contains_key(asset) {
            self.books@[asset].issuance
        } else {
            0
        }
    }

    pub open spec fn params_of(&self, asset: CurrencyId) -> AssetParams {
        if self.params@.contains_key(asset) {
            self.params@[asset]
        } else {
            AssetParams { minimum_balance: 0, base_unit: 0 }
        }
    }

    /// Every asset but `asset`, and every asset's parameters, are as in `old`.
    pub open spec fn unchanged_except(&self, old: &Tokens, asset: CurrencyId) -> bool {
        &&& self.params@ == old.params@
        &&& forall|a: CurrencyId| a != asset ==> #[trigger] self.accounts(a) == old.accounts(a)
            && self.issuance(a) == old.issuance(a)
    }

    /// No assets and no parameters.
    pub fn new() -> (r: Tokens)
        ensures
            r.wf(),
            r.books@ == Map::<CurrencyId, Book>::empty(),
            r.params@ == Map::<CurrencyId, AssetParams>::empty(),
    {
        Tokens { books: HashMapWithView::new(), params: HashMapWithView::new() }
    }

    /// Sets the constants of `asset`.
    pub fn set_params(&mut self, asset: CurrencyId, params: AssetParams)
        requires
            old(self).wf(),
        ensures
            final(self).wf(),
            final(self).books@ == old(self).books@,
            final(self).params@ == old(self).params@.insert(asset, params),
    {
        self.params.insert(asset, params);
    }

    fn take_book(&mut self, asset: CurrencyId) -> (b: Book)
        requires
            old(self).wf(),
        ensures
            final(self).wf(),
            b.wf(),
            b.accounts@ == old(self).accounts(asset),
            b.issuance == old(self).issuance(asset),
            final(self).books@ == old(self).books@.remove(asset),
            final(self).params@ == old(self).params@,
    {
        match self.books.remove(&asset) {
            Some(b) => b,
            None => Book::new(),
        }
    }

    fn put_book(&mut self, asset: CurrencyId, b: Book)
        requires
            old(self).wf(),
            b.wf(),
        ensures
            final(self).wf(),
            final(self).books@ == old(self).books@.insert(asset, b),
            final(self).params@ == old(self).params@,
    {
        self.books.insert(asset, b);
    }

    fn account(&self, asset: CurrencyId, who: AccountId) -> (r: AccountData)
        ensures
            r == acct(self.accounts(asset), who),
    {
        match self.books.get(&asset) {
            Some(b) => b.account(who),
            None => AccountData { free: 0, reserved: 0 },
        }
    }

    pub fn base_unit(&self, asset: CurrencyId) -> (r: Balance)
        ensures
            r == self.params_of(asset).base_unit,
    {
        match self.params.get(&asset) {
            Some(p) => p.base_unit,
            None => 0,
        }
    }

    pub fn minimum_balance(&self, asset: CurrencyId) -> (r: Balance)
        ensures
            r == self.params_of(asset).minimum_balance,
    {
        match self.params.get(&asset) {
            Some(p) => p.minimum_balance,
            None => 0,
        }
    }

    pub fn total_issuance(&self, asset: CurrencyId) -> (r: Balance)
        ensures
            r == self.issuance(asset),
    {
        match self.books.get(&asset) {
            Some(b) => b.issuance,
            None => 0,
        }
    }

    pub fn total_balance(&self, asset: CurrencyId, who: AccountId) -> (r: Balance)
        requires
            self.wf(),
        ensures
            r == acct(self.accounts(asset), who).total(),
    {
        let a = self.account(asset, who);
        a.free + a.reserved
    }

    pub fn free_balance(&self, asset: CurrencyId, who: AccountId) -> (r: Balance)
        ensures
            r == acct(self.accounts(asset), who).free,
    {
        self.account(asset, who).free
    }

    pub fn reserved_balance(&self, asset: CurrencyId, who: AccountId) -> (r: Balance)
        ensures
            r == acct(self.accounts(asset), who).reserved,
    {
        self.account(asset, who).reserved
    }

    /// Fails with `InsufficientBalance` when the free balance is under `amount`.
    pub fn ensure_can_withdraw(&self, asset: CurrencyId, who: AccountId, amount: Balance) -> (r: Result<(), DispatchError>)
        ensures
            r == (if acct(self.accounts(asset), who).free < amount {
                Err(DispatchError::InsufficientBalance)
            } else {
                Ok(())
            }),
    {
        if self.account(asset, who).free < amount {
            Err(DispatchError::InsufficientBalance)
        } else {
            Ok(())
        }
    }

    pub fn transfer(&mut self, asset: CurrencyId, from: AccountId, to: AccountId, amount: Balance) -> (r: Result<(), DispatchError>)
        requires
            old(self).wf(),
        ensures
            final(self).wf(),
            final(self).unchanged_except(old(self), asset),
            transfer_done(old(self).accounts(asset), old(self).issuance(asset),
                final(self).accounts(asset), final(self).issuance(asset), from, to, amount, r),
    {
        let mut b = self.take_book(asset);
        let r = b.transfer(from, to, amount);
        self.put_book(asset, b);
        r
    }

    pub fn deposit(&mut self, asset: CurrencyId, who: AccountId, amount: Balance) -> (r: Result<(), DispatchError>)
        requires
            old(self).wf(),
        ensures
            final(self).wf(),
            final(self).unchanged_except(old(self), asset),
            deposit_done(old(self).accounts(asset), old(self).issuance(asset),
                final(self).accounts(asset), final(self).issuance(asset), who, amount, r),
    {
        let mut b = self.take_book(asset);
        let r = b.deposit(who, amount);
        self.put_book(asset, b);
        r
    }

    pub fn withdraw(&mut self, asset: CurrencyId, who: AccountId, amount: Balance) -> (r: Result<(), DispatchError>)
        requires
            old(self).wf(),
        ensures
            final(self).wf(),
            final(self).unchanged_except(old(self), asset),
            withdraw_done(old(self).accounts(asset), old(self).issuance(asset),
                final(self).accounts(asset), final(self).issuance(asset), who, amount, r),
    {
        let mut b = self.take_book(asset);
        let r = b.withdraw(who, amount);
        self.put_book(asset, b);
        r
    }

    pub fn can_slash(&self, asset: CurrencyId, who: AccountId, amount: Balance) -> (r: bool)
        ensures
            r == can_slash_spec(self.accounts(asset), who, amount),
    {
        amount == 0 || self.account(asset, who).free >= amount
    }

    /// Removes up to `amount`; returns the shortfall.
    pub fn slash(&mut self, asset: CurrencyId, who: AccountId, amount: Balance) -> (gap: Balance)
        requires
            old(self).wf(),
        ensures
            final(self).wf(),
            final(self).unchanged_except(old(self), asset),
            slash_done(old(self).accounts(asset), old(self).issuance(asset),
                final(self).accounts(asset), final(self).issuance(asset), who, amount, gap),
    {
        let mut b = self.take_book(asset);
        let removed = b.slash(who, amount);
        self.put_book(asset, b);
        amount - removed
    }

    pub fn can_reserve(&self, asset: CurrencyId, who: AccountId, value: Balance) -> (r: bool)
        ensures
            r == can_reserve_spec(self.accounts(asset), who, value),
    {
        self.account(asset, who).free >= value
    }

    pub fn reserve(&mut self, asset: CurrencyId, who: AccountId, value: Balance) -> (r: Result<(), DispatchError>)
        requires
            old(self).wf(),
        ensures
            final(self).wf(),
            final(self).unchanged_except(old(self), asset),
            reserve_done(old(self).accounts(asset), old(self).issuance(asset),
                final(self).accounts(asset), final(self).issuance(asset), who, value, r),
    {
        let mut b = self.take_book(asset);
        let r = b.reserve(who, value);
        self.put_book(asset, b);
        r
    }

    /// Moves up to `value` back to free; returns the shortfall.
    pub fn unreserve(&mut self, asset: CurrencyId, who: AccountId, value: Balance) -> (gap: Balance)
        requires
            old(self).wf(),
        ensures
            final(self).wf(),
            final(self).unchanged_except(old(self), asset),
            unreserve_done(old(self).accounts(asset), old(self).issuance(asset),
                final(self).accounts(asset), final(self).issuance(asset), who, value, gap),
    {
        let mut b = self.take_book(asset);
        let moved = b.unreserve(who, value);
        self.put_book(asset, b);
        value - moved
    }

    /// Removes up to `value` of reserved balance; returns the shortfall.
    pub fn slash_reserved(&mut self, asset: CurrencyId, who: AccountId, value: Balance) -> (gap: Balance)
        requires
            old(self).wf(),
        ensures
            final(self).wf(),
            final(self).unchanged_except(old(self), asset),
            slash_reserved_done(old(self).accounts(asset), old(self).issuance(asset),
                final(self).accounts(asset), final(self).issuance(asset), who, value, gap),
    {
        let mut b = self.take_book(asset);
        let taken = b.slash_reserved(who, value);
        self.put_book(asset, b);
        value - taken
    }

    pub fn repatriate_reserved(
        &mut self,
        asset: CurrencyId,
        slashed: AccountId,
        beneficiary: AccountId,
        value: Balance,
        status: BalanceStatus,
    ) -> (r: Result<Balance, DispatchError>)
        requires
            old(self).wf(),
        ensures
            final(self).wf(),
            final(self).unchanged_except(old(self), asset),
            repatriate_done(old(self).accounts(asset), old(self).issuance(asset),
                final(self).accounts(asset), final(self).issuance(asset), slashed, beneficiary,
                value, status, r),
    {
        let mut b = self.take_book(asset);
        let r = b.repatriate_reserved(slashed, beneficiary, value, status);
        self.put_book(asset, b);
        r
    }
}

} // verus!
