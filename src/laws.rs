//! Laws of the accounting layer, proved over the models that the operations'
//! contracts speak of.

use vstd::prelude::*;
use crate::adapter::Stp258AssetAdapter;
use crate::book::{
    acct, after_repatriate, after_reserve, after_slash, after_slash_reserved, after_unreserve,
    issuance_less, ledger_wf, min, repatriate_result, reserve_result, reserved_part,
    slash_done, slash_removed, transfer_done,
};
use crate::pallet::Pallet;
use crate::tokens::Tokens;
use crate::types::{AccountData, AccountId, Balance, BalanceStatus, CurrencyId, DispatchError, MAX_BALANCE};

verus! {

/// In every well-formed router, the total balance of any account in any
/// asset is its free balance plus its reserved balance, and fits in a
/// balance.
pub proof fn total_is_free_plus_reserved(p: &Pallet, asset: CurrencyId, who: AccountId)
    requires
        p.wf(),
    ensures
        p.data(asset, who).total() == p.data(asset, who).free + p.data(asset, who).reserved,
        p.data(asset, who).total() <= MAX_BALANCE,
{
    let m = p.accounts(asset);
    if !p.is_native(asset) && p.tokens.books@.contains_key(asset) {
        assert(p.tokens.books@[asset].wf());
    }
    if m.contains_key(who) {
        assert(m[who].wf());
    }
}

/// A slash never fails: it removes no more than was asked and no more than
/// the account held, the shortfall is what was asked minus what was removed,
/// and the account's total falls by exactly what was removed.
pub proof fn slash_shortfall(m: Map<AccountId, AccountData>, iss: u128, who: AccountId, amount: Balance)
    requires
        ledger_wf(m),
    ensures
        0 <= slash_removed(m, who, amount) <= amount,
        slash_removed(m, who, amount) <= acct(m, who).total(),
        acct(after_slash(m, who, amount), who).total() == acct(m, who).total() - slash_removed(m, who, amount),
        slash_done(m, iss, after_slash(m, who, amount), issuance_less(iss, slash_removed(m, who, amount)),
            who, amount, (amount - slash_removed(m, who, amount)) as u128),
{
    if m.contains_key(who) {
        assert(m[who].wf());
    }
}

/// A reserved slash never fails: it removes no more than was asked and no
/// more than was reserved, and the reserved balance falls by exactly that.
pub proof fn slash_reserved_shortfall(m: Map<AccountId, AccountData>, who: AccountId, value: Balance)
    requires
        ledger_wf(m),
    ensures
        0 <= reserved_part(m, who, value) <= value,
        reserved_part(m, who, value) <= acct(m, who).reserved,
        acct(after_slash_reserved(m, who, value), who).reserved == acct(m, who).reserved - reserved_part(m, who, value),
        acct(after_slash_reserved(m, who, value), who).free == acct(m, who).free,
{
}

/// Reserving `v` of the free balance and then unreserving `v` restores
/// every balance exactly, and the unreserve has no shortfall.
pub proof fn reserve_then_unreserve(m: Map<AccountId, AccountData>, who: AccountId, v: Balance)
    requires
        ledger_wf(m),
        v <= acct(m, who).free,
    ensures
        reserve_result(m, who, v) is Ok,
        reserved_part(after_reserve(m, who, v), who, v) == v,
        after_unreserve(after_reserve(m, who, v), who, v) == m,
{
    if v > 0 {
        assert(m.contains_key(who));
        assert(m[who].wf());
        assert(after_unreserve(after_reserve(m, who, v), who, v) =~= m);
    }
}

/// Repatriating `v` into the free balance of `b` moves exactly
/// `min(reserved of a, v)`: the reserved balance of `a` falls by it, the free
/// balance of `b` rises by it, and the shortfall is `v` minus it. The call
/// fails only where `b` is another account whose total could not take it.
pub proof fn repatriate_to_free(m: Map<AccountId, AccountData>, a: AccountId, b: AccountId, v: Balance)
    requires
        ledger_wf(m),
        a != b ==> acct(m, b).total() + min(acct(m, a).reserved as int, v as int) <= MAX_BALANCE,
    ensures
        ({
            let r = acct(m, a).reserved;
            let moved = min(r as int, v as int);
            let m2 = after_repatriate(m, a, b, v, BalanceStatus::Free);
            &&& repatriate_result(m, a, b, v) == Ok::<Balance, DispatchError>((v - moved) as u128)
            &&& acct(m2, a).reserved == r - moved
            &&& acct(m2, b).free == acct(m, b).free + moved
            &&& r >= v ==> moved == v && repatriate_result(m, a, b, v) == Ok::<Balance, DispatchError>(0)
            &&& r < v ==> acct(m2, a).reserved == 0
        }),
{
    if m.contains_key(a) {
        assert(m[a].wf());
    }
    if m.contains_key(b) {
        assert(m[b].wf());
    }
}

/// On the native asset, a router transfer and a transfer made on the native
/// adapter itself from the same state give the same result and the same
/// balances.
pub proof fn native_transfer_routes_to_adapter(
    p: &Pallet, p2: &Pallet, r: Result<(), DispatchError>,
    a2: &Stp258AssetAdapter, ra: Result<(), DispatchError>,
    from: AccountId, to: AccountId, amount: Balance,
)
    requires
        transfer_done(p.accounts(p.config.native_currency_id), p.issuance(p.config.native_currency_id),
            p2.accounts(p.config.native_currency_id), p2.issuance(p.config.native_currency_id), from, to, amount, r),
        p2.config == p.config,
        transfer_done(p.native.accounts(), p.native.issuance(), a2.accounts(), a2.issuance(), from, to, amount, ra),
    ensures
        r == ra,
        p2.native.accounts() == a2.accounts(),
        p2.native.issuance() == a2.issuance(),
{
}

/// On a non-native asset, a router transfer and a transfer made on the
/// multi-asset backend itself from the same state give the same result and
/// the same balances.
pub proof fn token_transfer_routes_to_backend(
    p: &Pallet, p2: &Pallet, r: Result<(), DispatchError>,
    t2: &Tokens, rt: Result<(), DispatchError>,
    asset: CurrencyId, from: AccountId, to: AccountId, amount: Balance,
)
    requires
        !p.is_native(asset),
        p2.config == p.config,
        transfer_done(p.accounts(asset), p.issuance(asset), p2.accounts(asset), p2.issuance(asset), from, to, amount, r),
        transfer_done(p.tokens.accounts(asset), p.tokens.issuance(asset), t2.accounts(asset), t2.issuance(asset), from, to, amount, rt),
    ensures
        r == rt,
        p2.tokens.accounts(asset) == t2.accounts(asset),
        p2.tokens.issuance(asset) == t2.issuance(asset),
{
}

/// On the native asset, the shortfall of a router slash equals the gap that
/// the native adapter returns from the same state, and the balances agree,
/// although the backend beneath reports a (credit, gap) pair.
pub proof fn native_slash_routes_to_adapter(
    p: &Pallet, p2: &Pallet, gap: Balance,
    a2: &Stp258AssetAdapter, gap_a: Balance,
    who: AccountId, amount: Balance,
)
    requires
        slash_done(p.accounts(p.config.native_currency_id), p.issuance(p.config.native_currency_id),
            p2.accounts(p.config.native_currency_id), p2.issuance(p.config.native_currency_id), who, amount, gap),
        p2.config == p.config,
        slash_done(p.native.accounts(), p.native.issuance(), a2.accounts(), a2.issuance(), who, amount, gap_a),
    ensures
        gap == gap_a,
        p2.native.accounts() == a2.accounts(),
        p2.native.issuance() == a2.issuance(),
{
}

} // verus!
