//! What a nested contract call reports when it fails.

use crate::felt::Felt252;
use vstd::prelude::*;

verus! {

/// The failure of a nested contract call.
#[derive(Debug, PartialEq, Eq)]
pub enum CallContractFailure {
    /// The called contract panicked with this data.
    Panic { panic_data: Vec<Felt252> },
    /// The call could not be made or carried out.
    Error { msg: String },
}

} // verus!
