use vstd::prelude::*;

verus! {

/// Identifies an account of the ledger.
pub type AccountId = u64;

/// Identifies an asset; one configured value is the native asset.
pub type CurrencyId = u32;

/// An unsigned quantity of some asset.
pub type Balance = u128;

/// The largest representable balance.
pub const MAX_BALANCE: u128 = 0xffff_ffff_ffff_ffff_ffff_ffff_ffff_ffff;

/// Which bucket of the beneficiary a repatriation credits.
#[derive(Clone, Copy, Debug, PartialEq, Eq, Structural)]
pub enum BalanceStatus {
    Free,
    Reserved,
}

/// The errors of this accounting layer itself.
#[derive(Clone, Copy, Debug, PartialEq, Eq, Structural)]
pub enum Error {
    /// Unable to convert the Amount type into Balance.
    AmountIntoBalanceFailed,
    /// Balance is too low.
    BalanceTooLow,
}

/// Why a call failed: an error of this layer, or one of a backend, passed on
/// unchanged.
#[derive(Clone, Copy, Debug, PartialEq, Eq, Structural)]
pub enum DispatchError {
    /// An error raised by this layer.
    Module(Error),
    /// The origin of a call is not a signed account.
    BadOrigin,
    /// A backend found too little free balance for the call.
    InsufficientBalance,
    /// A backend balance or issuance would exceed the largest balance.
    Overflow,
    /// A lock of the native backend keeps the balance that would remain.
    LiquidityRestrictions,
}

/// A completed mutation, recorded only once it has succeeded.
#[derive(Clone, Copy, Debug, PartialEq, Eq, Structural)]
pub enum Event {
    /// Currency transfer success: currency, from, to, amount.
    Transferred(CurrencyId, AccountId, AccountId, Balance),
    /// Update balance success: currency, who, signed amount.
    BalanceUpdated(CurrencyId, AccountId, i128),
    /// Deposit success: currency, who, amount.
    Deposited(CurrencyId, AccountId, Balance),
    /// Withdraw success: currency, who, amount.
    Withdrawn(CurrencyId, AccountId, Balance),
}

/// The free and reserved balance of one account in one asset.
#[derive(Clone, Copy, Debug, PartialEq, Eq, Structural)]
pub struct AccountData {
    pub free: Balance,
    pub reserved: Balance,
}

impl AccountData {
    /// Free plus reserved.
    pub open spec fn total(self) -> int {
        self.free + self.reserved
    }

    /// The total of an account always fits in a balance.
    pub open spec fn wf(self) -> bool {
        self.total() <= MAX_BALANCE
    }

    pub open spec fn zero() -> AccountData {
        AccountData { free: 0, reserved: 0 }
    }
}

} // verus!
