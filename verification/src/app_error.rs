//! The single top-level error every failure flows into. It exists only for
//! display: once a failure reaches the command boundary, the process reports
//! the message and exits with a failure code.

use vstd::prelude::*;

use crate::parameters_error::ParametersError;

verus! {

/// Why a command failed.
#[derive(Debug)]
pub enum AppError {
    /// A URL could not be parsed; carries the parser's message.
    Url(String),
    /// The forge collaborator reported a failure; carries its message.
    Api(String),
    /// Parameter resolution failed.
    Parameter(ParametersError),
    /// Any other failure, such as a declined confirmation; carries the
    /// message shown to the user.
    Other(String),
    /// Reading from or writing to the terminal failed.
    Io(String),
}

impl AppError {
    /// The message carried by this error.
    pub fn message(&self) -> (r: &String)
        ensures
            self matches AppError::Url(m) ==> r@ == m@,
            self matches AppError::Api(m) ==> r@ == m@,
            self matches AppError::Parameter(p) ==> {
                &&& p matches ParametersError::GitCommand(m) ==> r@ == m@
                &&& p matches ParametersError::Url(m) ==> r@ == m@
                &&& p matches ParametersError::Other(m) ==> r@ == m@
                &&& p matches ParametersError::Io(m) ==> r@ == m@
            },
            self matches AppError::Other(m) ==> r@ == m@,
            self matches AppError::Io(m) ==> r@ == m@,
    {
        match self {
            AppError::Url(m) => m,
            AppError::Api(m) => m,
            AppError::Parameter(p) => p.message(),
            AppError::Other(m) => m,
            AppError::Io(m) => m,
        }
    }
}

} // verus!
