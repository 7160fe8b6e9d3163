//! Why a configuration is refused.

use vstd::prelude::*;
use crate::percent::PERCENT_FORMAT_ERROR;

verus! {

/// The failure of resolving a configuration.
#[derive(Debug, Clone, Copy, PartialEq, Eq, Structural)]
pub enum Error {
    /// The devfund percentage is not of the form `XX` or `XX.YY`.
    PercentFormat,
}

impl Error {
    /// What to tell the user.
    pub fn message(&self) -> (m: &'static str)
        ensures
            m@ == PERCENT_FORMAT_ERROR@,
    {
        match self {
            Error::PercentFormat => PERCENT_FORMAT_ERROR,
        }
    }
}

} // verus!
