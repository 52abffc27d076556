//! The failures of a key agreement.

use vstd::prelude::*;

verus! {

/// What can go wrong in a key agreement.
#[derive(Clone, Copy, Debug, PartialEq, Eq, Structural)]
pub enum ExchangeError {
    /// The random source of the operating system gave no output.
    EntropyFailure,
    /// The two parties derived different keys.
    KeyMismatch,
}

impl ExchangeError {
    /// A sentence that names the failure.
    pub fn describe(&self) -> (text: &'static str)
        ensures
            text@ == (match *self {
                ExchangeError::EntropyFailure => "the random source gave no output"@,
                ExchangeError::KeyMismatch => "the derived keys differ"@,
            }),
    {
        match self {
            ExchangeError::EntropyFailure => "the random source gave no output",
            ExchangeError::KeyMismatch => "the derived keys differ",
        }
    }
}

} // verus!
