//! The reasons for which the registry refuses a request.

use cosmwasm_std::StdError;
use vstd::prelude::*;

verus! {

/// Why an operation was refused. Whatever the reason, the store is left as it
/// was.
#[derive(Debug)]
pub enum ContractError {
    /// The ownership registry could not be asked or gave no usable answer; this
    /// is its error, unchanged.
    Std(StdError),
    /// The sender is not the one who may make this change.
    Unauthorized {},
    /// Nothing is stored where a record was asked for.
    NotFound {},
}

} // verus!
