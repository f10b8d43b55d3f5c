//! The errors that end a hint, and with it the test that ran it.

use vstd::prelude::*;
use vstd::std_specs::convert::FromSpecImpl;

verus! {

/// A hint that could not be processed.
#[derive(Debug, PartialEq, Eq)]
pub enum HintError {
    /// A failure that the harness reports in its own words.
    CustomHint(String),
}

impl HintError {
    /// The words of the error.
    pub open spec fn text(self) -> Seq<char> {
        match self {
            HintError::CustomHint(msg) => msg@,
        }
    }

    /// The error that reports `msg`.
    pub fn custom(msg: &str) -> (error: HintError)
        ensures
            error.text() == msg@,
    {
        HintError::CustomHint(msg.to_owned())
    }

    /// The words of the error.
    pub fn message(&self) -> (msg: String)
        ensures
            msg@ == self.text(),
    {
        match self {
            HintError::CustomHint(msg) => msg.clone(),
        }
    }
}

/// A failure of the harness. It cannot be handed to the contract under test
/// and ends the test.
#[derive(Debug, PartialEq, Eq)]
pub enum EnhancedHintError {
    /// A hint could not be processed.
    Hint(HintError),
}

impl EnhancedHintError {
    /// The words of the error.
    pub open spec fn text(self) -> Seq<char> {
        match self {
            EnhancedHintError::Hint(error) => error.text(),
        }
    }

    /// The words of the error.
    pub fn message(&self) -> (msg: String)
        ensures
            msg@ == self.text(),
    {
        match self {
            EnhancedHintError::Hint(error) => error.message(),
        }
    }
}

impl From<HintError> for EnhancedHintError {
    fn from(error: HintError) -> (wrapped: EnhancedHintError) {
        EnhancedHintError::Hint(error)
    }
}

impl FromSpecImpl<HintError> for EnhancedHintError {
    open spec fn obeys_from_spec() -> bool {
        true
    }

    open spec fn from_spec(error: HintError) -> EnhancedHintError {
        EnhancedHintError::Hint(error)
    }
}

} // verus!
