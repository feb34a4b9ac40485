//! The gates.
pub mod four_qubit;
pub mod multi_qubit;
pub mod single_qubit;
pub mod three_qubit;
pub mod two_qubit;

pub use crate::gate::{GateGroup, GateKind, GateView, AVAILABLE_GATES_HQSLANG};
pub use crate::operation::{CompareOp, Operation};
pub use crate::qubits::InvolvedQubits;
pub use four_qubit::{TripleControlledPauliX, TripleControlledPauliZ};
pub use multi_qubit::{CallDefinedGate, MultiQubitCNOT, MultiQubitMS, MultiQubitZZ, QFT};
pub use single_qubit::{
    Hadamard, PhaseShiftState0, PhaseShiftState1, RotateAroundSphericalAxis, RotateX, RotateY,
    RotateZ, SingleQubitGate, TGate,
};
pub use three_qubit::{ControlledControlledPauliZ, ControlledControlledPhaseShift};
pub use two_qubit::{ControlledPhaseShift, CNOT, SWAP};
