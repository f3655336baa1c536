use stp258_currencies::adapter::Stp258AssetAdapter;
use stp258_currencies::balances::Balances;
use stp258_currencies::currency::Currency;
use stp258_currencies::pallet::{Config, Origin, Pallet};
use stp258_currencies::tokens::{AssetParams, Tokens};
use stp258_currencies::types::{BalanceStatus, DispatchError, Error, Event, MAX_BALANCE};

const NATIVE: u32 = 0;
const TOKEN: u32 = 1;
const ALICE: u64 = 1;
const BOB: u64 = 2;

fn setup() -> Pallet {
    let mut tokens = Tokens::new();
    tokens.set_params(TOKEN, AssetParams { minimum_balance: 2, base_unit: 1000 });
    let native = Stp258AssetAdapter::new(Balances::new(5));
    Pallet::new(Config { native_currency_id: NATIVE }, native, tokens)
}

fn funded() -> Pallet {
    let mut p = setup();
    assert_eq!(p.deposit(NATIVE, ALICE, 100), Ok(()));
    assert_eq!(p.deposit(TOKEN, ALICE, 100), Ok(()));
    p
}

#[test]
fn native_transfer_moves_free_balance_and_records_event() {
    let mut p = funded();
    let before = p.events().len();
    assert_eq!(p.transfer_between(NATIVE, ALICE, BOB, 30), Ok(()));
    assert_eq!(p.free_balance(NATIVE, ALICE), 70);
    assert_eq!(p.free_balance(NATIVE, BOB), 30);
    assert_eq!(p.events().len(), before + 1);
    assert_eq!(p.events()[before], Event::Transferred(NATIVE, ALICE, BOB, 30));
}

#[test]
fn zero_deposit_changes_nothing() {
    let mut p = setup();
    assert_eq!(p.deposit(NATIVE, ALICE, 0), Ok(()));
    assert_eq!(p.free_balance(NATIVE, ALICE), 0);
    assert_eq!(p.total_issuance(NATIVE), 0);
    assert!(p.events().is_empty());
}

#[test]
fn zero_amounts_are_no_ops_on_every_mutation() {
    let mut p = funded();
    let before = p.events().len();
    assert_eq!(p.transfer_between(TOKEN, ALICE, BOB, 0), Ok(()));
    assert_eq!(p.withdraw(TOKEN, ALICE, 0), Ok(()));
    assert_eq!(p.deposit(TOKEN, BOB, 0), Ok(()));
    assert_eq!(p.free_balance(TOKEN, ALICE), 100);
    assert_eq!(p.free_balance(TOKEN, BOB), 0);
    assert_eq!(p.total_issuance(TOKEN), 100);
    assert_eq!(p.events().len(), before);
}

#[test]
fn self_transfer_is_a_no_op_even_beyond_balance() {
    let mut p = funded();
    let before = p.events().len();
    assert_eq!(p.transfer_between(NATIVE, ALICE, ALICE, 1_000), Ok(()));
    assert_eq!(p.transfer_between(TOKEN, BOB, BOB, 5), Ok(()));
    assert_eq!(p.free_balance(NATIVE, ALICE), 100);
    assert_eq!(p.events().len(), before);
}

#[test]
fn repatriate_reserved_to_free_on_token() {
    let mut p = setup();
    assert_eq!(p.deposit(TOKEN, ALICE, 50), Ok(()));
    assert_eq!(p.reserve(TOKEN, ALICE, 50), Ok(()));
    assert_eq!(p.deposit(TOKEN, BOB, 7), Ok(()));
    let before = p.events().len();
    assert_eq!(p.repatriate_reserved(TOKEN, ALICE, BOB, 20, BalanceStatus::Free), Ok(0));
    assert_eq!(p.reserved_balance(TOKEN, ALICE), 30);
    assert_eq!(p.free_balance(TOKEN, BOB), 27);
    assert_eq!(p.events().len(), before);
}

#[test]
fn repatriate_beyond_reserved_reports_shortfall() {
    let mut p = funded();
    assert_eq!(p.reserve(NATIVE, ALICE, 15), Ok(()));
    assert_eq!(p.repatriate_reserved(NATIVE, ALICE, BOB, 40, BalanceStatus::Free), Ok(25));
    assert_eq!(p.reserved_balance(NATIVE, ALICE), 0);
    assert_eq!(p.free_balance(NATIVE, BOB), 15);
}

#[test]
fn repatriate_into_reserved_bucket() {
    let mut p = funded();
    assert_eq!(p.reserve(TOKEN, ALICE, 40), Ok(()));
    assert_eq!(p.repatriate_reserved(TOKEN, ALICE, BOB, 10, BalanceStatus::Reserved), Ok(0));
    assert_eq!(p.reserved_balance(TOKEN, ALICE), 30);
    assert_eq!(p.reserved_balance(TOKEN, BOB), 10);
    assert_eq!(p.free_balance(TOKEN, BOB), 0);
}

#[test]
fn repatriate_overflowing_beneficiary_fails_unchanged() {
    let mut p = setup();
    assert_eq!(p.deposit(NATIVE, ALICE, MAX_BALANCE), Ok(()));
    // Issuance bounds every total reached by deposits; clearing it by hand
    // builds a ledger where a beneficiary's total can overflow.
    p.native.currency.book.issuance = 0;
    assert_eq!(p.deposit(NATIVE, BOB, 10), Ok(()));
    assert_eq!(p.reserve(NATIVE, BOB, 10), Ok(()));
    assert_eq!(
        p.repatriate_reserved(NATIVE, BOB, ALICE, 10, BalanceStatus::Free),
        Err(DispatchError::Overflow)
    );
    assert_eq!(p.reserved_balance(NATIVE, BOB), 10);
    assert_eq!(p.free_balance(NATIVE, ALICE), MAX_BALANCE);
}

#[test]
fn native_withdraw_beyond_free_fails() {
    let mut p = setup();
    assert_eq!(p.deposit(NATIVE, ALICE, 10), Ok(()));
    let before = p.events().len();
    assert_eq!(
        p.ensure_can_withdraw(NATIVE, ALICE, 50),
        Err(DispatchError::Module(Error::BalanceTooLow))
    );
    assert_eq!(p.withdraw(NATIVE, ALICE, 50), Err(DispatchError::InsufficientBalance));
    assert_eq!(p.free_balance(NATIVE, ALICE), 10);
    assert_eq!(p.events().len(), before);
}

#[test]
fn token_ensure_can_withdraw_uses_backend_error() {
    let p = funded();
    assert_eq!(p.ensure_can_withdraw(TOKEN, ALICE, 100), Ok(()));
    assert_eq!(p.ensure_can_withdraw(TOKEN, ALICE, 101), Err(DispatchError::InsufficientBalance));
    assert_eq!(p.ensure_can_withdraw(NATIVE, ALICE, 100), Ok(()));
}

#[test]
fn withdraw_records_event_and_lowers_issuance() {
    let mut p = funded();
    let before = p.events().len();
    assert_eq!(p.withdraw(TOKEN, ALICE, 40), Ok(()));
    assert_eq!(p.free_balance(TOKEN, ALICE), 60);
    assert_eq!(p.total_issuance(TOKEN), 60);
    assert_eq!(p.events()[before], Event::Withdrawn(TOKEN, ALICE, 40));
}

#[test]
fn deposit_records_event_and_raises_issuance() {
    let mut p = setup();
    assert_eq!(p.deposit(TOKEN, BOB, 9), Ok(()));
    assert_eq!(p.total_issuance(TOKEN), 9);
    assert_eq!(p.total_balance(TOKEN, BOB), 9);
    assert_eq!(p.events().to_vec(), vec![Event::Deposited(TOKEN, BOB, 9)]);
}

#[test]
fn token_deposit_overflow_fails_native_deposit_never_fails() {
    let mut p = setup();
    assert_eq!(p.deposit(TOKEN, ALICE, MAX_BALANCE), Ok(()));
    assert_eq!(p.deposit(TOKEN, BOB, 1), Err(DispatchError::Overflow));
    assert_eq!(p.free_balance(TOKEN, BOB), 0);
    assert_eq!(p.deposit(NATIVE, ALICE, MAX_BALANCE), Ok(()));
    assert_eq!(p.deposit(NATIVE, ALICE, 1), Ok(()));
    assert_eq!(p.free_balance(NATIVE, ALICE), MAX_BALANCE);
}

#[test]
fn transfer_errors_leave_no_event() {
    let mut p = funded();
    let before = p.events().len();
    assert_eq!(p.transfer_between(TOKEN, ALICE, BOB, 101), Err(DispatchError::InsufficientBalance));
    assert_eq!(p.transfer_between(NATIVE, ALICE, BOB, 101), Err(DispatchError::InsufficientBalance));
    // Issuance bounds every total reached by deposits; clearing it by hand
    // builds a ledger where a transfer's recipient can overflow.
    p.native.currency.book.issuance = 0;
    assert_eq!(p.deposit(NATIVE, BOB, MAX_BALANCE), Ok(()));
    let mid = p.events().len();
    assert_eq!(mid, before + 1);
    assert_eq!(p.transfer_between(NATIVE, ALICE, BOB, 1), Err(DispatchError::Overflow));
    assert_eq!(p.events().len(), mid);
    assert_eq!(p.free_balance(NATIVE, ALICE), 100);
    assert_eq!(p.free_balance(NATIVE, BOB), MAX_BALANCE);
}

#[test]
fn total_is_free_plus_reserved_in_both_backends() {
    let mut p = funded();
    assert_eq!(p.reserve(NATIVE, ALICE, 25), Ok(()));
    assert_eq!(p.reserve(TOKEN, ALICE, 60), Ok(()));
    for asset in [NATIVE, TOKEN] {
        let free = p.free_balance(asset, ALICE);
        let reserved = p.reserved_balance(asset, ALICE);
        assert_eq!(p.total_balance(asset, ALICE), free + reserved);
        assert_eq!(p.total_balance(asset, ALICE), 100);
    }
    assert_eq!(p.free_balance(NATIVE, ALICE), 75);
    assert_eq!(p.free_balance(TOKEN, ALICE), 40);
}

#[test]
fn slash_takes_free_then_reserved_and_returns_shortfall() {
    let mut p = funded();
    assert_eq!(p.reserve(NATIVE, ALICE, 30), Ok(()));
    assert!(p.can_slash(NATIVE, ALICE, 70));
    assert!(!p.can_slash(NATIVE, ALICE, 71));
    assert_eq!(p.slash(NATIVE, ALICE, 90), 0);
    assert_eq!(p.free_balance(NATIVE, ALICE), 0);
    assert_eq!(p.reserved_balance(NATIVE, ALICE), 10);
    assert_eq!(p.slash(NATIVE, ALICE, 25), 15);
    assert_eq!(p.total_balance(NATIVE, ALICE), 0);
    assert_eq!(p.total_issuance(NATIVE), 0);
    assert_eq!(p.slash(TOKEN, ALICE, 130), 30);
    assert_eq!(p.total_balance(TOKEN, ALICE), 0);
}

#[test]
fn slash_reserved_returns_shortfall() {
    let mut p = funded();
    assert_eq!(p.reserve(TOKEN, ALICE, 20), Ok(()));
    assert_eq!(p.slash_reserved(TOKEN, ALICE, 50), 30);
    assert_eq!(p.reserved_balance(TOKEN, ALICE), 0);
    assert_eq!(p.free_balance(TOKEN, ALICE), 80);
    assert_eq!(p.total_issuance(TOKEN), 80);
    assert_eq!(p.reserve(NATIVE, ALICE, 20), Ok(()));
    assert_eq!(p.slash_reserved(NATIVE, ALICE, 5), 0);
    assert_eq!(p.reserved_balance(NATIVE, ALICE), 15);
}

#[test]
fn reserve_then_unreserve_restores_split() {
    let mut p = funded();
    assert_eq!(p.reserve(NATIVE, ALICE, 10), Ok(()));
    let free = p.free_balance(NATIVE, ALICE);
    let reserved = p.reserved_balance(NATIVE, ALICE);
    assert_eq!(p.reserve(NATIVE, ALICE, 40), Ok(()));
    assert_eq!(p.free_balance(NATIVE, ALICE), free - 40);
    assert_eq!(p.unreserve(NATIVE, ALICE, 40), 0);
    assert_eq!(p.free_balance(NATIVE, ALICE), free);
    assert_eq!(p.reserved_balance(NATIVE, ALICE), reserved);
}

#[test]
fn reserve_beyond_free_fails_and_unreserve_reports_shortfall() {
    let mut p = funded();
    assert!(p.can_reserve(TOKEN, ALICE, 100));
    assert!(!p.can_reserve(TOKEN, ALICE, 101));
    assert_eq!(p.reserve(TOKEN, ALICE, 101), Err(DispatchError::InsufficientBalance));
    assert_eq!(p.reserved_balance(TOKEN, ALICE), 0);
    assert_eq!(p.reserve(TOKEN, ALICE, 30), Ok(()));
    assert_eq!(p.unreserve(TOKEN, ALICE, 50), 20);
    assert_eq!(p.free_balance(TOKEN, ALICE), 100);
}

#[test]
fn reads_route_by_asset() {
    let p = setup();
    assert_eq!(p.minimum_balance(NATIVE), 5);
    assert_eq!(p.base_unit(NATIVE), 5);
    assert_eq!(p.minimum_balance(TOKEN), 2);
    assert_eq!(p.base_unit(TOKEN), 1000);
    assert_eq!(p.minimum_balance(9), 0);
    assert_eq!(p.native_currency_id(), NATIVE);
}

#[test]
fn assets_are_kept_apart() {
    let mut p = funded();
    assert_eq!(p.transfer_between(TOKEN, ALICE, BOB, 60), Ok(()));
    assert_eq!(p.free_balance(NATIVE, ALICE), 100);
    assert_eq!(p.free_balance(NATIVE, BOB), 0);
    assert_eq!(p.free_balance(2, BOB), 0);
    assert_eq!(p.free_balance(TOKEN, BOB), 60);
}

#[test]
fn native_routing_matches_adapter() {
    let mut p = funded();
    let mut adapter = Stp258AssetAdapter::new(Balances::new(5));
    assert_eq!(adapter.deposit(ALICE, 100), Ok(()));
    assert_eq!(p.transfer_between(NATIVE, ALICE, BOB, 33), adapter.transfer(ALICE, BOB, 33));
    assert_eq!(p.slash(NATIVE, ALICE, 80), adapter.slash(ALICE, 80));
    assert_eq!(p.free_balance(NATIVE, ALICE), adapter.free_balance(ALICE));
    assert_eq!(p.free_balance(NATIVE, BOB), adapter.free_balance(BOB));
    assert_eq!(p.total_issuance(NATIVE), adapter.total_issuance());
    assert_eq!(
        p.ensure_can_withdraw(NATIVE, BOB, 40),
        adapter.ensure_can_withdraw(BOB, 40)
    );
}

#[test]
fn token_routing_matches_backend() {
    let mut p = funded();
    let mut tokens = Tokens::new();
    assert_eq!(tokens.deposit(TOKEN, ALICE, 100), Ok(()));
    assert_eq!(p.transfer_between(TOKEN, ALICE, BOB, 45), tokens.transfer(TOKEN, ALICE, BOB, 45));
    assert_eq!(p.slash(TOKEN, BOB, 50), tokens.slash(TOKEN, BOB, 50));
    assert_eq!(p.free_balance(TOKEN, ALICE), tokens.free_balance(TOKEN, ALICE));
    assert_eq!(p.total_balance(TOKEN, BOB), tokens.total_balance(TOKEN, BOB));
}

#[test]
fn native_backend_slash_returns_credit_and_gap() {
    let mut b = Balances::new(1);
    let credit = b.deposit_creating(ALICE, 40);
    assert_eq!(credit.0, 40);
    let (removed, gap) = b.slash(ALICE, 55);
    assert_eq!(removed.0, 40);
    assert_eq!(gap, 15);
    assert_eq!(b.withdraw(ALICE, 1).err(), Some(DispatchError::InsufficientBalance));
}

#[test]
fn dispatch_transfer_requires_signed_origin() {
    let mut p = funded();
    let before = p.events().len();
    assert_eq!(p.transfer(Origin::Root, BOB, TOKEN, 10), Err(DispatchError::BadOrigin));
    assert_eq!(p.transfer(Origin::Unsigned, BOB, TOKEN, 10), Err(DispatchError::BadOrigin));
    assert_eq!(p.events().len(), before);
    assert_eq!(p.transfer(Origin::Signed(ALICE), BOB, TOKEN, 10), Ok(()));
    assert_eq!(p.free_balance(TOKEN, BOB), 10);
    assert_eq!(p.events()[before], Event::Transferred(TOKEN, ALICE, BOB, 10));
}

#[test]
fn dispatch_native_transfer_records_native_id() {
    let mut p = funded();
    let before = p.events().len();
    assert_eq!(p.transfer_native_currency(Origin::Signed(ALICE), BOB, 12), Ok(()));
    assert_eq!(p.free_balance(NATIVE, BOB), 12);
    assert_eq!(p.events()[before], Event::Transferred(NATIVE, ALICE, BOB, 12));
    assert_eq!(
        p.transfer_native_currency(Origin::Signed(BOB), ALICE, 13),
        Err(DispatchError::InsufficientBalance)
    );
    assert_eq!(p.transfer_native_currency(Origin::Root, ALICE, 1), Err(DispatchError::BadOrigin));
    assert_eq!(p.events().len(), before + 1);
}

#[test]
fn handle_forwards_with_its_asset() {
    let mut p = funded();
    let native = Currency::native_of(&p);
    let token = Currency::new(TOKEN);
    assert_eq!(native.currency_id, NATIVE);
    assert_eq!(native.transfer(&mut p, ALICE, BOB, 20), Ok(()));
    assert_eq!(native.free_balance(&p, BOB), 20);
    assert_eq!(token.free_balance(&p, BOB), 0);
    assert_eq!(token.deposit(&mut p, BOB, 5), Ok(()));
    assert_eq!(token.withdraw(&mut p, BOB, 2), Ok(()));
    assert_eq!(token.reserve(&mut p, BOB, 3), Ok(()));
    assert_eq!(token.reserved_balance(&p, BOB), 3);
    assert!(token.can_reserve(&p, ALICE, 100));
    assert!(token.can_slash(&p, ALICE, 100));
    assert_eq!(token.repatriate_reserved(&mut p, BOB, ALICE, 5, BalanceStatus::Free), Ok(2));
    assert_eq!(token.free_balance(&p, ALICE), 103);
    assert_eq!(token.unreserve(&mut p, BOB, 1), 1);
    assert_eq!(token.slash(&mut p, ALICE, 3), 0);
    assert_eq!(token.slash_reserved(&mut p, ALICE, 3), 3);
    assert_eq!(token.total_balance(&p, ALICE), 100);
    assert_eq!(token.total_issuance(&p), 100);
    assert_eq!(token.minimum_balance(&p), 2);
    assert_eq!(native.minimum_balance(&p), 5);
    assert_eq!(
        native.ensure_can_withdraw(&p, BOB, 21),
        Err(DispatchError::Module(Error::BalanceTooLow))
    );
}

#[test]
fn native_withdraw_check_consults_backend_locks() {
    let mut p = funded();
    p.native.currency.set_lock(ALICE, 60);
    assert_eq!(p.ensure_can_withdraw(NATIVE, ALICE, 40), Ok(()));
    assert_eq!(
        p.ensure_can_withdraw(NATIVE, ALICE, 41),
        Err(DispatchError::LiquidityRestrictions)
    );
    assert_eq!(
        p.ensure_can_withdraw(NATIVE, ALICE, 101),
        Err(DispatchError::Module(Error::BalanceTooLow))
    );
    assert_eq!(p.ensure_can_withdraw(NATIVE, ALICE, 0), Ok(()));
    assert_eq!(p.ensure_can_withdraw(TOKEN, ALICE, 41), Ok(()));
    assert_eq!(
        p.native.currency.ensure_can_withdraw(ALICE, 50, 59),
        Err(DispatchError::LiquidityRestrictions)
    );
    assert_eq!(p.native.currency.ensure_can_withdraw(BOB, 50, 0), Ok(()));
}

#[test]
fn dispatch_native_transfer_to_self_or_zero_records_nothing() {
    let mut p = funded();
    let before = p.events().len();
    assert_eq!(p.transfer_native_currency(Origin::Signed(ALICE), ALICE, 1_000), Ok(()));
    assert_eq!(p.transfer_native_currency(Origin::Signed(ALICE), BOB, 0), Ok(()));
    assert_eq!(p.free_balance(NATIVE, ALICE), 100);
    assert_eq!(p.free_balance(NATIVE, BOB), 0);
    assert_eq!(p.events().len(), before);
}
