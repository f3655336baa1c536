//! Unified balance accounting over one native asset and many non-native
//! assets, routed to two backends with different conventions.

pub mod types;
pub mod book;
pub mod balances;
pub mod tokens;
pub mod adapter;
pub mod pallet;
pub mod currency;
pub mod laws;
