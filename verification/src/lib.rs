//! An escrow module that mediates the exchange of a non-fungible asset for a
//! fixed amount of a fungible payment token between a seller and a buyer.
//!
//! The module keeps a configuration record (administrator, payment
//! denomination, enabled flag, next escrow identifier), a ledger of escrow
//! records keyed by sequentially assigned identifiers, and an append-only
//! index from each seller to the escrows they created. The operations —
//! creation on receipt of an asset, cancellation while unfunded, and
//! settlement against a sufficient payment — are verified against contracts
//! that state exactly when each succeeds, which error each input produces,
//! and how the state changes.

pub mod contract;
pub mod error;
pub mod msg;
pub mod state;

pub use crate::error::ContractError;
