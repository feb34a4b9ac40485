//! The errors of the crate.
use qoqo_calculator::CalculatorError;
use vstd::prelude::*;

verus! {

/// Why an operation on a gate failed.
#[derive(Debug, PartialEq)]
pub enum RoqoqoError {
    /// A parameter could not be turned into a number.
    CalculatorError(CalculatorError),
    /// Two gates on different qubits cannot be multiplied.
    MultiplicationIncompatibleQubits {
        /// The qubit of the left factor.
        squbit: usize,
        /// The qubit of the right factor.
        oqubit: usize,
    },
    /// A qubit of a gate has no entry in the mapping.
    QubitMappingError {
        /// The first qubit that the mapping lacks.
        qubit: usize,
    },
}

} // verus!
