//! Cheatcodes and the errors that they return to a test.

use crate::error::{EnhancedHintError, HintError};
use crate::felt::Felt252;
use crate::rpc::CallContractFailure;
use vstd::prelude::*;
use vstd::std_specs::convert::FromSpecImpl;

pub mod spoof;

verus! {

/// The error of a cheatcode.
#[derive(Debug, PartialEq, Eq)]
pub enum CheatcodeError {
    /// Panic data, which is handed to the contract under test as the error
    /// of its call; the test goes on.
    Recoverable(Vec<Felt252>),
    /// A failure of the harness, which ends the test.
    Unrecoverable(EnhancedHintError),
}

impl From<EnhancedHintError> for CheatcodeError {
    fn from(error: EnhancedHintError) -> (classified: CheatcodeError) {
        CheatcodeError::Unrecoverable(error)
    }
}

impl FromSpecImpl<EnhancedHintError> for CheatcodeError {
    open spec fn obeys_from_spec() -> bool {
        true
    }

    open spec fn from_spec(error: EnhancedHintError) -> CheatcodeError {
        CheatcodeError::Unrecoverable(error)
    }
}

impl From<CallContractFailure> for CheatcodeError {
    /// Classifies the failure of a nested call: the panic of the called
    /// contract can be handled by the caller, any other failure cannot.
    fn from(value: CallContractFailure) -> (classified: CheatcodeError) {
        match value {
            CallContractFailure::Panic { panic_data } => CheatcodeError::Recoverable(panic_data),
            CallContractFailure::Error { msg } => {
                CheatcodeError::Unrecoverable(EnhancedHintError::from(HintError::CustomHint(msg)))
            },
        }
    }
}

impl FromSpecImpl<CallContractFailure> for CheatcodeError {
    open spec fn obeys_from_spec() -> bool {
        true
    }

    open spec fn from_spec(value: CallContractFailure) -> CheatcodeError {
        match value {
            CallContractFailure::Panic { panic_data } => CheatcodeError::Recoverable(panic_data),
            CallContractFailure::Error { msg } => CheatcodeError::Unrecoverable(
                EnhancedHintError::Hint(HintError::CustomHint(msg)),
            ),
        }
    }
}

} // verus!
