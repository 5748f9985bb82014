//! The ways in which producing the artifacts can fail before anything is
//! written.

use vstd::prelude::*;
use vstd::string::StringExecFns;

verus! {

/// Why no artifact could be planned.
#[derive(Clone, Copy, Debug, PartialEq, Eq, Structural)]
pub enum Error {
    /// The configuration names a fitting strategy that does not exist.
    Config,
    /// No cost model could be fitted to the samples of an operation.
    Analysis,
}

impl Error {
    /// A short description for the user.
    pub fn describe(self) -> (r: String)
        ensures
            r@ == match self {
                Error::Config => "invalid analysis string"@,
                Error::Analysis => "no cost model fits the benchmark results"@,
            },
    {
        match self {
            Error::Config => String::from_str("invalid analysis string"),
            Error::Analysis => String::from_str("no cost model fits the benchmark results"),
        }
    }
}

} // verus!
