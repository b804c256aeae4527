//! Errors reported by the step circuit and the run state machine.

use vstd::prelude::*;

verus! {

/// A contract violation detected at the library boundary.
///
/// Each variant names the vector whose arity disagreed with the one the
/// circuit declares. Engine-internal failures belong to the outside
/// collaborators and never take this form.
#[derive(Clone, Copy, Debug, PartialEq, Eq, Structural)]
pub enum Error {
    /// The state vector's length differs from the declared state arity.
    WrongStateLength,
    /// The external-input vector's length differs from the declared arity.
    WrongExternalInputsLength,
    /// A constraint expression names an input variable past the declared arity.
    VariableOutOfRange,
}

impl Error {
    /// A short description of the error.
    pub fn describe(&self) -> &'static str {
        match self {
            Error::WrongStateLength => "state vector has the wrong length",
            Error::WrongExternalInputsLength => "external inputs have the wrong length",
            Error::VariableOutOfRange => "constraint expression names an unknown variable",
        }
    }
}

} // verus!
