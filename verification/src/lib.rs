//! Quantum gate operations with symbolic parameters.
//!
//! Every gate stores the qubits it acts on and its parameters, each of which
//! is either a number or an expression over named variables.
//!
//! - [`operations`] holds the gates, one type for each kind, and
//!   [`operation`] their closed union. Every gate offers its name and tags,
//!   the qubits it involves, the substitution of its parameters, the
//!   remapping of its qubits, copies and equality.
//! - [`gate`] holds the catalogue of the kinds and the mathematical model of
//!   a gate, over which all contracts are stated.
//! - [`calculator`] is the boundary to the calculator that provides the
//!   parameters; [`parameters`] and [`qubits`] hold what is common to all
//!   gates.
//! - [`algebra`] multiplies gates on one qubit; rotations are raised to a
//!   power by the gates themselves.
//! - [`matrix`] holds the exact unitary matrices of the gates with a fixed
//!   structure.
//! - [`decomposition`] turns the gates on several qubits into
//!   [`circuit`]s of gates on one and two qubits.
//! - [`laws`] states what relates these operations to each other.
pub mod algebra;
pub mod calculator;
pub mod circuit;
pub mod decomposition;
pub mod error;
pub mod gate;
pub mod laws;
pub mod matrix;
pub mod operation;
pub mod operations;
pub mod parameters;
pub mod qubits;

pub use circuit::Circuit;
pub use error::RoqoqoError;
