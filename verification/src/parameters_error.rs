//! The error a failed parameter resolution reports. Resolution aborts on the
//! first failing field; no partial parameter record is ever produced.

use vstd::prelude::*;

verus! {

/// Why resolving a command's parameters failed.
#[derive(Debug)]
pub enum ParametersError {
    /// The version-control collaborator rejected a value; carries its message.
    GitCommand(String),
    /// A URL field's value did not parse; carries the message naming the field.
    Url(String),
    /// A field's value failed validation; carries the message naming the field.
    Other(String),
    /// Reading from or writing to the terminal failed.
    Io(String),
}

impl ParametersError {
    /// The message carried by this error.
    pub fn message(&self) -> (r: &String)
        ensures
            self matches ParametersError::GitCommand(m) ==> r@ == m@,
            self matches ParametersError::Url(m) ==> r@ == m@,
            self matches ParametersError::Other(m) ==> r@ == m@,
            self matches ParametersError::Io(m) ==> r@ == m@,
    {
        match self {
            ParametersError::GitCommand(m) => m,
            ParametersError::Url(m) => m,
            ParametersError::Other(m) => m,
            ParametersError::Io(m) => m,
        }
    }
}

} // verus!
