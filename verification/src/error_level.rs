//! The process exit level: zero on success, one on any failure — a declined
//! confirmation included, so that scripts invoking the tool can detect it.

use vstd::prelude::*;

verus! {

/// How an invocation ended.
pub enum ErrorLevel {
    Success,
    Failure,
}

impl ErrorLevel {
    /// The process exit code this level maps to.
    pub fn exit_code(&self) -> (r: u8)
        ensures
            self matches ErrorLevel::Success ==> r == 0,
            self matches ErrorLevel::Failure ==> r == 1,
    {
        match self {
            ErrorLevel::Success => 0,
            ErrorLevel::Failure => 1,
        }
    }
}

} // verus!
