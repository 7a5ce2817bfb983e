//! Replays deposits, withdrawals, disputes, resolutions and chargebacks
//! against per-client accounts and reports the resulting balances.
//!
//! The crate is verified with Verus. Contracts are stated over mathematical
//! models: a decimal amount is a mantissa and a scale ([`amount::Fixed`]), an
//! account is a [`client::Account`], and the engine is a [`state::Ledger`] of
//! two maps. What holds of every run is proved in [`theorems`].
//!
//! Decimal arithmetic is that of `rust_decimal`. The module [`decimal`] states
//! what the crate relies on; those statements are believed, not proved.
use vstd::prelude::*;

pub mod amount;
pub mod client;
pub mod decimal;
pub mod event;
pub mod records;
pub mod state;
pub mod theorems;
pub mod transaction;

verus! {

/// Uniquely refers to a client.
pub type ClientId = u16;

/// Uniquely refers to a transaction.
pub type TxId = u32;

} // verus!
