//! The errors an operation can end with. Every precondition violation aborts
//! the whole operation with one of these and leaves the state unchanged.

use vstd::prelude::*;

verus! {

/// The reasons an operation can fail.
///
/// - `NotFound`: the configuration was never initialized, or no escrow with
///   the requested identifier exists.
/// - `Disabled`: the module's enabled flag is off; every mutating operation
///   is rejected while it is.
/// - `InvalidCw721Token`: the sender of an asset-received notification is not
///   the asset-collection address named in the creation directive.
/// - `CannotCancelEscrowNotSeller`: only the seller may cancel an escrow.
/// - `CannotCancelEscrowNoFunds`: an escrow with a recorded payment may not
///   be canceled.
/// - `InvalidBuyer`: only the designated buyer may settle an escrow.
/// - `InsufficientFund`: the funds attached to a settlement hold less of the
///   configured denomination than the escrow's price.
/// - `CannotMigrate`: the stored contract name does not match this module.
#[derive(Debug, PartialEq, Eq)]
pub enum ContractError {
    NotFound {},
    Disabled {},
    InvalidCw721Token {},
    CannotCancelEscrowNotSeller {},
    CannotCancelEscrowNoFunds {},
    InvalidBuyer {},
    InsufficientFund {},
    CannotMigrate { previous_contract: String },
}

} // verus!
