//! One asset's ledger: the free and reserved balance of each account and the
//! asset's total issuance. Both backends keep their balances in books.

use vstd::prelude::*;
use vstd::hash_map::HashMapWithView;
use crate::types::{AccountData, AccountId, Balance, BalanceStatus, DispatchError, MAX_BALANCE};

verus! {

broadcast use vstd::std_specs::hash::group_hash_axioms;

/// The balances of `who` in `m`; an account never seen holds nothing.
pub open spec fn acct(m: Map<AccountId, AccountData>, who: AccountId) -> AccountData {
    if m.contains_key(who) {
        m[who]
    } else {
        AccountData::zero()
    }
}

/// Every account's total fits in a balance.
pub open spec fn ledger_wf(m: Map<AccountId, AccountData>) -> bool {
    forall|w: AccountId| m.contains_key(w) ==> (#[trigger] m[w]).wf()
}

/// `m` with the balances of `who` set to `free` and `reserved`.
pub open spec fn with_account(
    m: Map<AccountId, AccountData>,
    who: AccountId,
    free: int,
    reserved: int,
) -> Map<AccountId, AccountData> {
    m.insert(who, AccountData { free: free as u128, reserved: reserved as u128 })
}

pub open spec fn min(a: int, b: int) -> int {
    if a <= b {
        a
    } else {
        b
    }
}

/// Issuance after `amount` leaves circulation, floored at zero.
pub open spec fn issuance_less(issuance: u128, amount: int) -> u128 {
    if issuance >= amount {
        (issuance - amount) as u128
    } else {
        0
    }
}

// ---- transfer ----
pub open spec fn transfer_result(
    m: Map<AccountId, AccountData>,
    from: AccountId,
    to: AccountId,
    amount: Balance,
) -> Result<(), DispatchError> {
    if amount == 0 || from == to {
        Ok(())
    } else if acct(m, from).free < amount {
        Err(DispatchError::InsufficientBalance)
    } else if acct(m, to).total() + amount > MAX_BALANCE {
        Err(DispatchError::Overflow)
    } else {
        Ok(())
    }
}

pub open spec fn after_transfer(
    m: Map<AccountId, AccountData>,
    from: AccountId,
    to: AccountId,
    amount: Balance,
) -> Map<AccountId, AccountData> {
    if amount == 0 || from == to || transfer_result(m, from, to, amount) is Err {
        m
    } else {
        let m1 = with_account(m, from, acct(m, from).free - amount, acct(m, from).reserved as int);
        with_account(m1, to, acct(m, to).free + amount, acct(m, to).reserved as int)
    }
}

// ---- deposit ----
pub open spec fn deposit_result(
    m: Map<AccountId, AccountData>,
    issuance: u128,
    who: AccountId,
    amount: Balance,
) -> Result<(), DispatchError> {
    if amount == 0 {
        Ok(())
    } else if issuance + amount > MAX_BALANCE || acct(m, who).total() + amount > MAX_BALANCE {
        Err(DispatchError::Overflow)
    } else {
        Ok(())
    }
}

pub open spec fn after_deposit(
    m: Map<AccountId, AccountData>,
    issuance: u128,
    who: AccountId,
    amount: Balance,
) -> Map<AccountId, AccountData> {
    if amount == 0 || deposit_result(m, issuance, who, amount) is Err {
        m
    } else {
        with_account(m, who, acct(m, who).free + amount, acct(m, who).reserved as int)
    }
}

pub open spec fn issuance_after_deposit(
    m: Map<AccountId, AccountData>,
    issuance: u128,
    who: AccountId,
    amount: Balance,
) -> u128 {
    if deposit_result(m, issuance, who, amount) is Err {
        issuance
    } else {
        (issuance + amount) as u128
    }
}

// ---- withdraw ----
pub open spec fn withdraw_result(
    m: Map<AccountId, AccountData>,
    who: AccountId,
    amount: Balance,
) -> Result<(), DispatchError> {
    if amount != 0 && acct(m, who).free < amount {
        Err(DispatchError::InsufficientBalance)
    } else {
        Ok(())
    }
}

pub open spec fn after_withdraw(
    m: Map<AccountId, AccountData>,
    who: AccountId,
    amount: Balance,
) -> Map<AccountId, AccountData> {
    if amount == 0 || withdraw_result(m, who, amount) is Err {
        m
    } else {
        with_account(m, who, acct(m, who).free - amount, acct(m, who).reserved as int)
    }
}

pub open spec fn issuance_after_withdraw(
    m: Map<AccountId, AccountData>,
    issuance: u128,
    who: AccountId,
    amount: Balance,
) -> u128 {
    if withdraw_result(m, who, amount) is Err {
        issuance
    } else {
        issuance_less(issuance, amount as int)
    }
}

// ---- slash: free balance first, then reserved ----
pub open spec fn slash_from_free(m: Map<AccountId, AccountData>, who: AccountId, amount: Balance) -> int {
    min(acct(m, who).free as int, amount as int)
}

pub open spec fn slash_from_reserved(
    m: Map<AccountId, AccountData>,
    who: AccountId,
    amount: Balance,
) -> int {
    min(acct(m, who).reserved as int, amount - slash_from_free(m, who, amount))
}

/// What a slash of `amount` actually removes.
pub open spec fn slash_removed(m: Map<AccountId, AccountData>, who: AccountId, amount: Balance) -> int {
    slash_from_free(m, who, amount) + slash_from_reserved(m, who, amount)
}

pub open spec fn after_slash(
    m: Map<AccountId, AccountData>,
    who: AccountId,
    amount: Balance,
) -> Map<AccountId, AccountData> {
    if slash_removed(m, who, amount) == 0 {
        m
    } else {
        with_account(
            m,
            who,
            acct(m, who).free - slash_from_free(m, who, amount),
            acct(m, who).reserved - slash_from_reserved(m, who, amount),
        )
    }
}

pub open spec fn can_slash_spec(m: Map<AccountId, AccountData>, who: AccountId, amount: Balance) -> bool {
    amount == 0 || acct(m, who).free >= amount
}

// ---- reserve / unreserve ----
pub open spec fn can_reserve_spec(m: Map<AccountId, AccountData>, who: AccountId, value: Balance) -> bool {
    acct(m, who).free >= value
}

pub open spec fn reserve_result(
    m: Map<AccountId, AccountData>,
    who: AccountId,
    value: Balance,
) -> Result<(), DispatchError> {
    if can_reserve_spec(m, who, value) {
        Ok(())
    } else {
        Err(DispatchError::InsufficientBalance)
    }
}

pub open spec fn after_reserve(
    m: Map<AccountId, AccountData>,
    who: AccountId,
    value: Balance,
) -> Map<AccountId, AccountData> {
    if value == 0 || !can_reserve_spec(m, who, value) {
        m
    } else {
        with_account(m, who, acct(m, who).free - value, acct(m, who).reserved + value)
    }
}

/// What an unreserve, a reserved slash or a repatriation of `value` can move.
pub open spec fn reserved_part(m: Map<AccountId, AccountData>, who: AccountId, value: Balance) -> int {
    min(acct(m, who).reserved as int, value as int)
}

pub open spec fn after_unreserve(
    m: Map<AccountId, AccountData>,
    who: AccountId,
    value: Balance,
) -> Map<AccountId, AccountData> {
    let moved = reserved_part(m, who, value);
    if moved == 0 {
        m
    } else {
        with_account(m, who, acct(m, who).free + moved, acct(m, who).reserved - moved)
    }
}

pub open spec fn after_slash_reserved(
    m: Map<AccountId, AccountData>,
    who: AccountId,
    value: Balance,
) -> Map<AccountId, AccountData> {
    let taken = reserved_part(m, who, value);
    if taken == 0 {
        m
    } else {
        with_account(m, who, acct(m, who).free as int, acct(m, who).reserved - taken)
    }
}

// ---- repatriation ----
pub open spec fn repatriate_result(
    m: Map<AccountId, AccountData>,
    slashed: AccountId,
    beneficiary: AccountId,
    value: Balance,
) -> Result<Balance, DispatchError> {
    let moved = reserved_part(m, slashed, value);
    if slashed != beneficiary && acct(m, beneficiary).total() + moved > MAX_BALANCE {
        Err(DispatchError::Overflow)
    } else {
        Ok((value - moved) as u128)
    }
}

pub open spec fn after_repatriate(
    m: Map<AccountId, AccountData>,
    slashed: AccountId,
    beneficiary: AccountId,
    value: Balance,
    status: BalanceStatus,
) -> Map<AccountId, AccountData> {
    let moved = reserved_part(m, slashed, value);
    if moved == 0 || repatriate_result(m, slashed, beneficiary, value) is Err {
        m
    } else {
        let m1 = with_account(m, slashed, acct(m, slashed).free as int, acct(m, slashed).reserved - moved);
        let b = acct(m1, beneficiary);
        match status {
            BalanceStatus::Free => with_account(m1, beneficiary, b.free + moved, b.reserved as int),
            BalanceStatus::Reserved => with_account(m1, beneficiary, b.free as int, b.reserved + moved),
        }
    }
}

/// The outcome of a canonical transfer on ledger `m` with issuance `iss`,
/// leaving `m2`, `iss2` and result `r`.
pub open spec fn transfer_done(
    m: Map<AccountId, AccountData>, iss: u128, m2: Map<AccountId, AccountData>, iss2: u128,
    from: AccountId, to: AccountId, amount: Balance, r: Result<(), DispatchError>,
) -> bool {
    &&& r == transfer_result(m, from, to, amount)
    &&& m2 == after_transfer(m, from, to, amount)
    &&& iss2 == iss
}

pub open spec fn deposit_done(
    m: Map<AccountId, AccountData>, iss: u128, m2: Map<AccountId, AccountData>, iss2: u128,
    who: AccountId, amount: Balance, r: Result<(), DispatchError>,
) -> bool {
    &&& r == deposit_result(m, iss, who, amount)
    &&& m2 == after_deposit(m, iss, who, amount)
    &&& iss2 == issuance_after_deposit(m, iss, who, amount)
}

pub open spec fn withdraw_done(
    m: Map<AccountId, AccountData>, iss: u128, m2: Map<AccountId, AccountData>, iss2: u128,
    who: AccountId, amount: Balance, r: Result<(), DispatchError>,
) -> bool {
    &&& r == withdraw_result(m, who, amount)
    &&& m2 == after_withdraw(m, who, amount)
    &&& iss2 == issuance_after_withdraw(m, iss, who, amount)
}

/// A slash that returns the shortfall `gap`.
pub open spec fn slash_done(
    m: Map<AccountId, AccountData>, iss: u128, m2: Map<AccountId, AccountData>, iss2: u128,
    who: AccountId, amount: Balance, gap: Balance,
) -> bool {
    &&& gap == amount - slash_removed(m, who, amount)
    &&& m2 == after_slash(m, who, amount)
    &&& iss2 == issuance_less(iss, slash_removed(m, who, amount))
}

pub open spec fn reserve_done(
    m: Map<AccountId, AccountData>, iss: u128, m2: Map<AccountId, AccountData>, iss2: u128,
    who: AccountId, value: Balance, r: Result<(), DispatchError>,
) -> bool {
    &&& r == reserve_result(m, who, value)
    &&& m2 == after_reserve(m, who, value)
    &&& iss2 == iss
}

/// An unreserve that returns the shortfall `gap`.
pub open spec fn unreserve_done(
    m: Map<AccountId, AccountData>, iss: u128, m2: Map<AccountId, AccountData>, iss2: u128,
    who: AccountId, value: Balance, gap: Balance,
) -> bool {
    &&& gap == value - reserved_part(m, who, value)
    &&& m2 == after_unreserve(m, who, value)
    &&& iss2 == iss
}

/// A reserved slash that returns the shortfall `gap`.
pub open spec fn slash_reserved_done(
    m: Map<AccountId, AccountData>, iss: u128, m2: Map<AccountId, AccountData>, iss2: u128,
    who: AccountId, value: Balance, gap: Balance,
) -> bool {
    &&& gap == value - reserved_part(m, who, value)
    &&& m2 == after_slash_reserved(m, who, value)
    &&& iss2 == issuance_less(iss, reserved_part(m, who, value))
}

pub open spec fn repatriate_done(
    m: Map<AccountId, AccountData>, iss: u128, m2: Map<AccountId, AccountData>, iss2: u128,
    slashed: AccountId, beneficiary: AccountId, value: Balance, status: BalanceStatus,
    r: Result<Balance, DispatchError>,
) -> bool {
    &&& r == repatriate_result(m, slashed, beneficiary, value)
    &&& m2 == after_repatriate(m, slashed, beneficiary, value, status)
    &&& iss2 == iss
}

/// The balances of one asset and its total issuance.
pub struct Book {
    pub accounts: HashMapWithView<AccountId, AccountData>,
    pub issuance: Balance,
}

impl Book {
    pub open spec fn wf(&self) -> bool {
        ledger_wf(self.accounts@)
    }

    /// An asset with no accounts and nothing issued.
    pub fn new() -> (r: Book)
        ensures
            r.wf(),
            r.accounts@ == Map::<AccountId, AccountData>::empty(),
            r.issuance == 0,
    {
        Book { accounts: HashMapWithView::new(), issuance: 0 }
    }

    /// The balances of `who`.
    pub fn account(&self, who: AccountId) -> (r: AccountData)
        ensures
            r == acct(self.accounts@, who),
    {
        match self.accounts.get(&who) {
            Some(d) => *d,
            None => AccountData { free: 0, reserved: 0 },
        }
    }

    fn put(&mut self, who: AccountId, free: Balance, reserved: Balance)
        requires
            old(self).wf(),
            free + reserved <= MAX_BALANCE,
        ensures
            final(self).wf(),
            final(self).accounts@ == with_account(old(self).accounts@, who, free as int, reserved as int),
            final(self).issuance == old(self).issuance,
    {
        self.accounts.insert(who, AccountData { free, reserved });
    }

    pub fn transfer(&mut self, from: AccountId, to: AccountId, amount: Balance) -> (r: Result<(), DispatchError>)
        requires
            old(self).wf(),
        ensures
            final(self).wf(),
            r == transfer_result(old(self).accounts@, from, to, amount),
            final(self).accounts@ == after_transfer(old(self).accounts@, from, to, amount),
            final(self).issuance == old(self).issuance,
    {
        if amount == 0 || from == to {
            return Ok(());
        }
        let f = self.account(from);
        let t = self.account(to);
        if f.free < amount {
            return Err(DispatchError::InsufficientBalance);
        }
        if t.reserved > MAX_BALANCE - t.free || amount > MAX_BALANCE - t.free - t.reserved {
            return Err(DispatchError::Overflow);
        }
        self.put(from, f.free - amount, f.reserved);
        self.put(to, t.free + amount, t.reserved);
        Ok(())
    }

    pub fn deposit(&mut self, who: AccountId, amount: Balance) -> (r: Result<(), DispatchError>)
        requires
            old(self).wf(),
        ensures
            final(self).wf(),
            r == deposit_result(old(self).accounts@, old(self).issuance, who, amount),
            final(self).accounts@ == after_deposit(old(self).accounts@, old(self).issuance, who, amount),
            final(self).issuance == issuance_after_deposit(old(self).accounts@, old(self).issuance, who, amount),
    {
        if amount == 0 {
            return Ok(());
        }
        let a = self.account(who);
        if amount > MAX_BALANCE - self.issuance || a.reserved > MAX_BALANCE - a.free
            || amount > MAX_BALANCE - a.free - a.reserved {
            return Err(DispatchError::Overflow);
        }
        self.put(who, a.free + amount, a.reserved);
        self.issuance = self.issuance + amount;
        Ok(())
    }

    pub fn withdraw(&mut self, who: AccountId, amount: Balance) -> (r: Result<(), DispatchError>)
        requires
            old(self).wf(),
        ensures
            final(self).wf(),
            r == withdraw_result(old(self).accounts@, who, amount),
            final(self).accounts@ == after_withdraw(old(self).accounts@, who, amount),
            final(self).issuance == issuance_after_withdraw(old(self).accounts@, old(self).issuance, who, amount),
    {
        if amount == 0 {
            return Ok(());
        }
        let a = self.account(who);
        if a.free < amount {
            return Err(DispatchError::InsufficientBalance);
        }
        self.put(who, a.free - amount, a.reserved);
        self.issuance = self.issuance.saturating_sub(amount);
        Ok(())
    }
    /// Removes up to `amount`, free balance first, then reserved; returns
    /// what was removed.
    pub fn slash(&mut self, who: AccountId, amount: Balance) -> (removed: Balance)
        requires
            old(self).wf(),
        ensures
            final(self).wf(),
            removed == slash_removed(old(self).accounts@, who, amount),
            final(self).accounts@ == after_slash(old(self).accounts@, who, amount),
            final(self).issuance == issuance_less(old(self).issuance, removed as int),
    {
        let a = self.account(who);
        let from_free: Balance = if a.free <= amount { a.free } else { amount };
        let rest: Balance = amount - from_free;
        let from_reserved: Balance = if a.reserved <= rest { a.reserved } else { rest };
        let removed: Balance = from_free + from_reserved;
        if removed == 0 {
            return 0;
        }
        self.put(who, a.free - from_free, a.reserved - from_reserved);
        self.issuance = self.issuance.saturating_sub(removed);
        removed
    }

    pub fn can_slash(&self, who: AccountId, amount: Balance) -> (r: bool)
        ensures
            r == can_slash_spec(self.accounts@, who, amount),
    {
        amount == 0 || self.account(who).free >= amount
    }

    pub fn can_reserve(&self, who: AccountId, value: Balance) -> (r: bool)
        ensures
            r == can_reserve_spec(self.accounts@, who, value),
    {
        self.account(who).free >= value
    }

    /// Moves `value` from free to reserved, or fails with nothing changed.
    pub fn reserve(&mut self, who: AccountId, value: Balance) -> (r: Result<(), DispatchError>)
        requires
            old(self).wf(),
        ensures
            final(self).wf(),
            r == reserve_result(old(self).accounts@, who, value),
            final(self).accounts@ == after_reserve(old(self).accounts@, who, value),
            final(self).issuance == old(self).issuance,
    {
        let a = self.account(who);
        if a.free < value {
            return Err(DispatchError::InsufficientBalance);
        }
        if value == 0 {
            return Ok(());
        }
        self.put(who, a.free - value, a.reserved + value);
        Ok(())
    }

    /// Moves up to `value` from reserved to free; returns what was moved.
    pub fn unreserve(&mut self, who: AccountId, value: Balance) -> (moved: Balance)
        requires
            old(self).wf(),
        ensures
            final(self).wf(),
            moved == reserved_part(old(self).accounts@, who, value),
            final(self).accounts@ == after_unreserve(old(self).accounts@, who, value),
            final(self).issuance == old(self).issuance,
    {
        let a = self.account(who);
        let moved: Balance = if a.reserved <= value { a.reserved } else { value };
        if moved == 0 {
            return 0;
        }
        self.put(who, a.free + moved, a.reserved - moved);
        moved
    }

    /// Removes up to `value` from reserved balance; returns what was removed.
    pub fn slash_reserved(&mut self, who: AccountId, value: Balance) -> (taken: Balance)
        requires
            old(self).wf(),
        ensures
            final(self).wf(),
            taken == reserved_part(old(self).accounts@, who, value),
            final(self).accounts@ == after_slash_reserved(old(self).accounts@, who, value),
            final(self).issuance == issuance_less(old(self).issuance, taken as int),
    {
        let a = self.account(who);
        let taken: Balance = if a.reserved <= value { a.reserved } else { value };
        if taken == 0 {
            return 0;
        }
        self.put(who, a.free, a.reserved - taken);
        self.issuance = self.issuance.saturating_sub(taken);
        taken
    }

    /// Moves up to `value` of the reserved balance of `slashed` into the
    /// bucket of `beneficiary` that `status` selects; returns the shortfall.
    pub fn repatriate_reserved(
        &mut self,
        slashed: AccountId,
        beneficiary: AccountId,
        value: Balance,
        status: BalanceStatus,
    ) -> (r: Result<Balance, DispatchError>)
        requires
            old(self).wf(),
        ensures
            final(self).wf(),
            r == repatriate_result(old(self).accounts@, slashed, beneficiary, value),
            final(self).accounts@ == after_repatriate(old(self).accounts@, slashed, beneficiary, value, status),
            final(self).issuance == old(self).issuance,
    {
        let a = self.account(slashed);
        let moved: Balance = if a.reserved <= value { a.reserved } else { value };
        if slashed != beneficiary {
            let b = self.account(beneficiary);
            if b.reserved > MAX_BALANCE - b.free || moved > MAX_BALANCE - b.free - b.reserved {
                return Err(DispatchError::Overflow);
            }
        }
        if moved == 0 {
            return Ok(value);
        }
        self.put(slashed, a.free, a.reserved - moved);
        let b = self.account(beneficiary);
        match status {
            BalanceStatus::Free => self.put(beneficiary, b.free + moved, b.reserved),
            BalanceStatus::Reserved => self.put(beneficiary, b.free, b.reserved + moved),
        }
        Ok(value - moved)
    }
}

} // verus!
