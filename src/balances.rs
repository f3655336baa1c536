//! The native asset's single-asset backend. Its conventions differ from the
//! canonical multi-asset contract: a deposit hands back the credit it created,
//! a withdrawal the debit it removed, and a slash the pair of what it removed
//! and the shortfall.

use vstd::prelude::*;
use vstd::hash_map::HashMapWithView;
use crate::book::{
    acct, deposit_done, deposit_result, reserve_done, reserved_part, slash_done, slash_removed, transfer_done,
    unreserve_done, withdraw_done, after_slash_reserved, issuance_less, can_slash_spec,
    can_reserve_spec, repatriate_done, Book,
};
use crate::types::{AccountData, AccountId, Balance, BalanceStatus, DispatchError};

verus! {

broadcast use vstd::std_specs::hash::group_hash_axioms;

/// Funds that a deposit brought into circulation.
pub struct PositiveImbalance(pub Balance);

/// Funds that a withdrawal or a slash took out of circulation.
pub struct NegativeImbalance(pub Balance);

/// The native backend: one book, the asset's existential deposit, and the
/// amount that a lock keeps frozen on each account. A withdrawal check refuses
/// to let the free balance fall below the frozen amount.
pub struct Balances {
    pub book: Book,
    pub existential_deposit: Balance,
    pub locks: HashMapWithView<AccountId, Balance>,
}

impl Balances {
    pub open spec fn wf(&self) -> bool {
        self.book.wf()
    }

    pub open spec fn accounts(&self) -> Map<AccountId, AccountData> {
        self.book.accounts@
    }

    pub open spec fn issuance(&self) -> u128 {
        self.book.issuance
    }

    /// The amount frozen on `who`; an account never locked has none.
    pub open spec fn frozen(&self, who: AccountId) -> Balance {
        if self.locks@.contains_key(who) {
            self.locks@[who]
        } else {
            0
        }
    }

    /// What the withdrawal check answers for a withdrawal of `amount` that
    /// would leave `who` with `new_balance`.
    pub open spec fn withdraw_check(&self, who: AccountId, amount: Balance, new_balance: Balance) -> Result<(), DispatchError> {
        if amount == 0 || new_balance >= self.frozen(who) {
            Ok(())
        } else {
            Err(DispatchError::LiquidityRestrictions)
        }
    }

    /// A native asset with no accounts yet.
    pub fn new(existential_deposit: Balance) -> (r: Balances)
        ensures
            r.wf(),
            r.accounts() == Map::<AccountId, AccountData>::empty(),
            r.issuance() == 0,
            r.existential_deposit == existential_deposit,
            r.locks@ == Map::<AccountId, Balance>::empty(),
    {
        Balances { book: Book::new(), existential_deposit, locks: HashMapWithView::new() }
    }

    /// Freezes `amount` of the balance of `who`, replacing any earlier lock.
    pub fn set_lock(&mut self, who: AccountId, amount: Balance)
        ensures
            final(self).book == old(self).book,
            final(self).existential_deposit == old(self).existential_deposit,
            final(self).locks@ == old(self).locks@.insert(who, amount),
    {
        self.locks.insert(who, amount);
    }

    /// Whether a withdrawal of `amount` that leaves `new_balance` is allowed
    /// by the locks on `who`.
    pub fn ensure_can_withdraw(&self, who: AccountId, amount: Balance, new_balance: Balance) -> (r: Result<(), DispatchError>)
        ensures
            r == self.withdraw_check(who, amount, new_balance),
    {
        if amount == 0 {
            return Ok(());
        }
        let frozen: Balance = match self.locks.get(&who) {
            Some(f) => *f,
            None => 0,
        };
        if new_balance >= frozen {
            Ok(())
        } else {
            Err(DispatchError::LiquidityRestrictions)
        }
    }

    pub fn minimum_balance(&self) -> (r: Balance)
        ensures
            r == self.existential_deposit,
    {
        self.existential_deposit
    }

    pub fn total_issuance(&self) -> (r: Balance)
        ensures
            r == self.issuance(),
    {
        self.book.issuance
    }

    pub fn total_balance(&self, who: AccountId) -> (r: Balance)
        requires
            self.wf(),
        ensures
            r == acct(self.accounts(), who).total(),
    {
        let a = self.book.account(who);
        a.free + a.reserved
    }

    pub fn free_balance(&self, who: AccountId) -> (r: Balance)
        ensures
            r == acct(self.accounts(), who).free,
    {
        self.book.account(who).free
    }

    pub fn reserved_balance(&self, who: AccountId) -> (r: Balance)
        ensures
            r == acct(self.accounts(), who).reserved,
    {
        self.book.account(who).reserved
    }

    pub fn transfer(&mut self, from: AccountId, to: AccountId, amount: Balance) -> (r: Result<(), DispatchError>)
        requires
            old(self).wf(),
        ensures
            final(self).wf(),
            final(self).existential_deposit == old(self).existential_deposit,
            final(self).locks@ == old(self).locks@,
            transfer_done(old(self).accounts(), old(self).issuance(), final(self).accounts(),
                final(self).issuance(), from, to, amount, r),
    {
        self.book.transfer(from, to, amount)
    }

    /// Credits `who`, creating the account if needed. On overflow nothing is
    /// credited and the returned credit is zero.
    pub fn deposit_creating(&mut self, who: AccountId, amount: Balance) -> (r: PositiveImbalance)
        requires
            old(self).wf(),
        ensures
            final(self).wf(),
            final(self).existential_deposit == old(self).existential_deposit,
            final(self).locks@ == old(self).locks@,
            deposit_done(old(self).accounts(), old(self).issuance(), final(self).accounts(),
                final(self).issuance(), who, amount, deposit_result(old(self).accounts(), old(self).issuance(), who, amount)),
            r.0 == if deposit_result(old(self).accounts(), old(self).issuance(), who, amount) is Ok { amount } else { 0 },
    {
        match self.book.deposit(who, amount) {
            Ok(()) => PositiveImbalance(amount),
            Err(_) => PositiveImbalance(0),
        }
    }

    /// Debits `who`; the account may fall to zero.
    pub fn withdraw(&mut self, who: AccountId, amount: Balance) -> (r: Result<NegativeImbalance, DispatchError>)
        requires
            old(self).wf(),
        ensures
            final(self).wf(),
            final(self).existential_deposit == old(self).existential_deposit,
            final(self).locks@ == old(self).locks@,
            withdraw_done(old(self).accounts(), old(self).issuance(), final(self).accounts(),
                final(self).issuance(), who, amount,
                match r { Ok(_) => Ok(()), Err(e) => Err(e) }),
            r matches Ok(d) ==> d.0 == amount,
    {
        match self.book.withdraw(who, amount) {
            Ok(()) => Ok(NegativeImbalance(amount)),
            Err(e) => Err(e),
        }
    }

    pub fn can_slash(&self, who: AccountId, amount: Balance) -> (r: bool)
        ensures
            r == can_slash_spec(self.accounts(), who, amount),
    {
        self.book.can_slash(who, amount)
    }

    /// Removes up to `amount`; returns what was removed and the shortfall.
    pub fn slash(&mut self, who: AccountId, amount: Balance) -> (r: (NegativeImbalance, Balance))
        requires
            old(self).wf(),
        ensures
            final(self).wf(),
            final(self).existential_deposit == old(self).existential_deposit,
            final(self).locks@ == old(self).locks@,
            slash_done(old(self).accounts(), old(self).issuance(), final(self).accounts(),
                final(self).issuance(), who, amount, r.1),
            r.0.0 == slash_removed(old(self).accounts(), who, amount),
    {
        let removed = self.book.slash(who, amount);
        (NegativeImbalance(removed), amount - removed)
    }

    pub fn can_reserve(&self, who: AccountId, value: Balance) -> (r: bool)
        ensures
            r == can_reserve_spec(self.accounts(), who, value),
    {
        self.book.can_reserve(who, value)
    }

    pub fn reserve(&mut self, who: AccountId, value: Balance) -> (r: Result<(), DispatchError>)
        requires
            old(self).wf(),
        ensures
            final(self).wf(),
            final(self).existential_deposit == old(self).existential_deposit,
            final(self).locks@ == old(self).locks@,
            reserve_done(old(self).accounts(), old(self).issuance(), final(self).accounts(),
                final(self).issuance(), who, value, r),
    {
        self.book.reserve(who, value)
    }

    /// Moves up to `value` back to free; returns the shortfall.
    pub fn unreserve(&mut self, who: AccountId, value: Balance) -> (gap: Balance)
        requires
            old(self).wf(),
        ensures
            final(self).wf(),
            final(self).existential_deposit == old(self).existential_deposit,
            final(self).locks@ == old(self).locks@,
            unreserve_done(old(self).accounts(), old(self).issuance(), final(self).accounts(),
                final(self).issuance(), who, value, gap),
    {
        let moved = self.book.unreserve(who, value);
        value - moved
    }

    /// Removes up to `value` of reserved balance; returns what was removed
    /// and the shortfall.
    pub fn slash_reserved(&mut self, who: AccountId, value: Balance) -> (r: (NegativeImbalance, Balance))
        requires
            old(self).wf(),
        ensures
            final(self).wf(),
            final(self).existential_deposit == old(self).existential_deposit,
            final(self).locks@ == old(self).locks@,
            r.0.0 == reserved_part(old(self).accounts(), who, value),
            r.1 == value - reserved_part(old(self).accounts(), who, value),
            final(self).accounts() == after_slash_reserved(old(self).accounts(), who, value),
            final(self).issuance() == issuance_less(old(self).issuance(), r.0.0 as int),
    {
        let taken = self.book.slash_reserved(who, value);
        (NegativeImbalance(taken), value - taken)
    }

    pub fn repatriate_reserved(
        &mut self,
        slashed: AccountId,
        beneficiary: AccountId,
        value: Balance,
        status: BalanceStatus,
    ) -> (r: Result<Balance, DispatchError>)
        requires
            old(self).wf(),
        ensures
            final(self).wf(),
            final(self).existential_deposit == old(self).existential_deposit,
            final(self).locks@ == old(self).locks@,
            repatriate_done(old(self).accounts(), old(self).issuance(), final(self).accounts(),
                final(self).issuance(), slashed, beneficiary, value, status, r),
    {
        self.book.repatriate_reserved(slashed, beneficiary, value, status)
    }
}

} // verus!
