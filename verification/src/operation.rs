//! The closed union of all gates, and the interface that every gate offers.
use crate::calculator::variables;
use crate::error::RoqoqoError;
use crate::gate::{texts, viewed, GateKind, GateView};
use crate::laws::lemma_substituted_is_not_parametrized;
use crate::operations::four_qubit::{TripleControlledPauliX, TripleControlledPauliZ};
use crate::operations::multi_qubit::{
    CallDefinedGate, MultiQubitCNOT, MultiQubitMS, MultiQubitZZ, QFT,
};
use crate::operations::single_qubit::{
    Hadamard, PhaseShiftState0, PhaseShiftState1, RotateAroundSphericalAxis, RotateX, RotateY,
    RotateZ, SingleQubitGate, TGate,
};
use crate::operations::three_qubit::{ControlledControlledPauliZ, ControlledControlledPhaseShift};
use crate::operations::two_qubit::{ControlledPhaseShift, CNOT, SWAP};
use crate::qubits::{covers, remapping, InvolvedQubits};
use qoqo_calculator::Calculator;
use std::collections::HashMap;
use vstd::prelude::*;
use vstd::std_specs::cmp::PartialEqSpecImpl;
use vstd::std_specs::convert::FromSpecImpl;

verus! {

/// The comparisons that can be asked of two operations.
#[derive(Debug, Clone, Copy, PartialEq, Eq, Structural)]
pub enum CompareOp {
    /// Less than.
    Lt,
    /// Less than or equal.
    Le,
    /// Equal.
    Eq,
    /// Not equal.
    Ne,
    /// Greater than.
    Gt,
    /// Greater than or equal.
    Ge,
}

/// A gate of any kind.
#[derive(Debug)]
pub enum Operation {
    SingleQubitGate(SingleQubitGate),
    RotateX(RotateX),
    RotateY(RotateY),
    RotateZ(RotateZ),
    PhaseShiftState0(PhaseShiftState0),
    PhaseShiftState1(PhaseShiftState1),
    RotateAroundSphericalAxis(RotateAroundSphericalAxis),
    Hadamard(Hadamard),
    TGate(TGate),
    CNOT(CNOT),
    SWAP(SWAP),
    ControlledPhaseShift(ControlledPhaseShift),
    ControlledControlledPauliZ(ControlledControlledPauliZ),
    ControlledControlledPhaseShift(ControlledControlledPhaseShift),
    TripleControlledPauliX(TripleControlledPauliX),
    TripleControlledPauliZ(TripleControlledPauliZ),
    MultiQubitMS(MultiQubitMS),
    MultiQubitZZ(MultiQubitZZ),
    MultiQubitCNOT(MultiQubitCNOT),
    QFT(QFT),
    CallDefinedGate(CallDefinedGate),
}

impl View for Operation {
    type V = GateView;

    open spec fn view(&self) -> GateView {
        match self {
            Operation::SingleQubitGate(gate) => gate@,
            Operation::RotateX(gate) => gate@,
            Operation::RotateY(gate) => gate@,
            Operation::RotateZ(gate) => gate@,
            Operation::PhaseShiftState0(gate) => gate@,
            Operation::PhaseShiftState1(gate) => gate@,
            Operation::RotateAroundSphericalAxis(gate) => gate@,
            Operation::Hadamard(gate) => gate@,
            Operation::TGate(gate) => gate@,
            Operation::CNOT(gate) => gate@,
            Operation::SWAP(gate) => gate@,
            Operation::ControlledPhaseShift(gate) => gate@,
            Operation::ControlledControlledPauliZ(gate) => gate@,
            Operation::ControlledControlledPhaseShift(gate) => gate@,
            Operation::TripleControlledPauliX(gate) => gate@,
            Operation::TripleControlledPauliZ(gate) => gate@,
            Operation::MultiQubitMS(gate) => gate@,
            Operation::MultiQubitZZ(gate) => gate@,
            Operation::MultiQubitCNOT(gate) => gate@,
            Operation::QFT(gate) => gate@,
            Operation::CallDefinedGate(gate) => gate@,
        }
    }
}

impl Clone for Operation {
    fn clone(&self) -> (copy: Self)
        ensures
            copy@ == self@,
    {
        match self {
            Operation::SingleQubitGate(gate) => Operation::SingleQubitGate(gate.clone()),
            Operation::RotateX(gate) => Operation::RotateX(gate.clone()),
            Operation::RotateY(gate) => Operation::RotateY(gate.clone()),
            Operation::RotateZ(gate) => Operation::RotateZ(gate.clone()),
            Operation::PhaseShiftState0(gate) => Operation::PhaseShiftState0(gate.clone()),
            Operation::PhaseShiftState1(gate) => Operation::PhaseShiftState1(gate.clone()),
            Operation::RotateAroundSphericalAxis(gate) => {
                Operation::RotateAroundSphericalAxis(gate.clone())
            },
            Operation::Hadamard(gate) => Operation::Hadamard(gate.clone()),
            Operation::TGate(gate) => Operation::TGate(gate.clone()),
            Operation::CNOT(gate) => Operation::CNOT(gate.clone()),
            Operation::SWAP(gate) => Operation::SWAP(gate.clone()),
            Operation::ControlledPhaseShift(gate) => Operation::ControlledPhaseShift(gate.clone()),
            Operation::ControlledControlledPauliZ(gate) => {
                Operation::ControlledControlledPauliZ(gate.clone())
            },
            Operation::ControlledControlledPhaseShift(gate) => {
                Operation::ControlledControlledPhaseShift(gate.clone())
            },
            Operation::TripleControlledPauliX(gate) => {
                Operation::TripleControlledPauliX(gate.clone())
            },
            Operation::TripleControlledPauliZ(gate) => {
                Operation::TripleControlledPauliZ(gate.clone())
            },
            Operation::MultiQubitMS(gate) => Operation::MultiQubitMS(gate.clone()),
            Operation::MultiQubitZZ(gate) => Operation::MultiQubitZZ(gate.clone()),
            Operation::MultiQubitCNOT(gate) => Operation::MultiQubitCNOT(gate.clone()),
            Operation::QFT(gate) => Operation::QFT(gate.clone()),
            Operation::CallDefinedGate(gate) => Operation::CallDefinedGate(gate.clone()),
        }
    }
}

impl PartialEq for Operation {
    fn eq(&self, other: &Self) -> (r: bool) {
        proof {
            self.lemma_kind();
            other.lemma_kind();
        }
        match (self, other) {
            (Operation::SingleQubitGate(left), Operation::SingleQubitGate(right)) => left == right,
            (Operation::RotateX(left), Operation::RotateX(right)) => left == right,
            (Operation::RotateY(left), Operation::RotateY(right)) => left == right,
            (Operation::RotateZ(left), Operation::RotateZ(right)) => left == right,
            (
                Operation::PhaseShiftState0(left),
                Operation::PhaseShiftState0(right),
            ) => left == right,
            (
                Operation::PhaseShiftState1(left),
                Operation::PhaseShiftState1(right),
            ) => left == right,
            (
                Operation::RotateAroundSphericalAxis(left),
                Operation::RotateAroundSphericalAxis(right),
            ) => left == right,
            (Operation::Hadamard(left), Operation::Hadamard(right)) => left == right,
            (Operation::TGate(left), Operation::TGate(right)) => left == right,
            (Operation::CNOT(left), Operation::CNOT(right)) => left == right,
            (Operation::SWAP(left), Operation::SWAP(right)) => left == right,
            (
                Operation::ControlledPhaseShift(left),
                Operation::ControlledPhaseShift(right),
            ) => left == right,
            (
                Operation::ControlledControlledPauliZ(left),
                Operation::ControlledControlledPauliZ(right),
            ) => left == right,
            (
                Operation::ControlledControlledPhaseShift(left),
                Operation::ControlledControlledPhaseShift(right),
            ) => left == right,
            (
                Operation::TripleControlledPauliX(left),
                Operation::TripleControlledPauliX(right),
            ) => left == right,
            (
                Operation::TripleControlledPauliZ(left),
                Operation::TripleControlledPauliZ(right),
            ) => left == right,
            (Operation::MultiQubitMS(left), Operation::MultiQubitMS(right)) => left == right,
            (Operation::MultiQubitZZ(left), Operation::MultiQubitZZ(right)) => left == right,
            (Operation::MultiQubitCNOT(left), Operation::MultiQubitCNOT(right)) => left == right,
            (Operation::QFT(left), Operation::QFT(right)) => left == right,
            (Operation::CallDefinedGate(left), Operation::CallDefinedGate(right)) => left == right,
            _ => false,
        }
    }
}

impl PartialEqSpecImpl for Operation {
    open spec fn obeys_eq_spec() -> bool {
        true
    }

    open spec fn eq_spec(&self, other: &Self) -> bool {
        self@.equals(other@)
    }
}

impl Operation {
    /// The kind that the variant stands for.
    pub open spec fn variant_kind(&self) -> GateKind {
        match self {
            Operation::SingleQubitGate(_) => GateKind::SingleQubitGate,
            Operation::RotateX(_) => GateKind::RotateX,
            Operation::RotateY(_) => GateKind::RotateY,
            Operation::RotateZ(_) => GateKind::RotateZ,
            Operation::PhaseShiftState0(_) => GateKind::PhaseShiftState0,
            Operation::PhaseShiftState1(_) => GateKind::PhaseShiftState1,
            Operation::RotateAroundSphericalAxis(_) => GateKind::RotateAroundSphericalAxis,
            Operation::Hadamard(_) => GateKind::Hadamard,
            Operation::TGate(_) => GateKind::TGate,
            Operation::CNOT(_) => GateKind::CNOT,
            Operation::SWAP(_) => GateKind::SWAP,
            Operation::ControlledPhaseShift(_) => GateKind::ControlledPhaseShift,
            Operation::ControlledControlledPauliZ(_) => GateKind::ControlledControlledPauliZ,
            Operation::ControlledControlledPhaseShift(_) => {
                GateKind::ControlledControlledPhaseShift
            },
            Operation::TripleControlledPauliX(_) => GateKind::TripleControlledPauliX,
            Operation::TripleControlledPauliZ(_) => GateKind::TripleControlledPauliZ,
            Operation::MultiQubitMS(_) => GateKind::MultiQubitMS,
            Operation::MultiQubitZZ(_) => GateKind::MultiQubitZZ,
            Operation::MultiQubitCNOT(_) => GateKind::MultiQubitCNOT,
            Operation::QFT(_) => GateKind::QFT,
            Operation::CallDefinedGate(_) => GateKind::CallDefinedGate,
        }
    }

    /// The kind in the view is the kind of the variant.
    pub proof fn lemma_kind(&self)
        ensures
            self@.kind == self.variant_kind(),
    {
        match self {
            Operation::SingleQubitGate(gate) => gate.lemma_view(),
            Operation::RotateX(gate) => gate.lemma_view(),
            Operation::RotateY(gate) => gate.lemma_view(),
            Operation::RotateZ(gate) => gate.lemma_view(),
            Operation::PhaseShiftState0(gate) => gate.lemma_view(),
            Operation::PhaseShiftState1(gate) => gate.lemma_view(),
            Operation::RotateAroundSphericalAxis(gate) => gate.lemma_view(),
            Operation::Hadamard(gate) => gate.lemma_view(),
            Operation::TGate(gate) => gate.lemma_view(),
            Operation::CNOT(gate) => gate.lemma_view(),
            Operation::SWAP(gate) => gate.lemma_view(),
            Operation::ControlledPhaseShift(gate) => gate.lemma_view(),
            Operation::ControlledControlledPauliZ(gate) => gate.lemma_view(),
            Operation::ControlledControlledPhaseShift(gate) => gate.lemma_view(),
            Operation::TripleControlledPauliX(gate) => gate.lemma_view(),
            Operation::TripleControlledPauliZ(gate) => gate.lemma_view(),
            Operation::MultiQubitMS(gate) => gate.lemma_view(),
            Operation::MultiQubitZZ(gate) => gate.lemma_view(),
            Operation::MultiQubitCNOT(gate) => gate.lemma_view(),
            Operation::QFT(gate) => gate.lemma_view(),
            Operation::CallDefinedGate(gate) => gate.lemma_view(),
        }
    }

    /// Every gate has as many qubits, parameters and flags as its kind asks for.
    pub proof fn lemma_well_formed(&self)
        ensures
            self@.well_formed(),
    {
        match self {
            Operation::SingleQubitGate(gate) => gate.lemma_view(),
            Operation::RotateX(gate) => gate.lemma_view(),
            Operation::RotateY(gate) => gate.lemma_view(),
            Operation::RotateZ(gate) => gate.lemma_view(),
            Operation::PhaseShiftState0(gate) => gate.lemma_view(),
            Operation::PhaseShiftState1(gate) => gate.lemma_view(),
            Operation::RotateAroundSphericalAxis(gate) => gate.lemma_view(),
            Operation::Hadamard(gate) => gate.lemma_view(),
            Operation::TGate(gate) => gate.lemma_view(),
            Operation::CNOT(gate) => gate.lemma_view(),
            Operation::SWAP(gate) => gate.lemma_view(),
            Operation::ControlledPhaseShift(gate) => gate.lemma_view(),
            Operation::ControlledControlledPauliZ(gate) => gate.lemma_view(),
            Operation::ControlledControlledPhaseShift(gate) => gate.lemma_view(),
            Operation::TripleControlledPauliX(gate) => gate.lemma_view(),
            Operation::TripleControlledPauliZ(gate) => gate.lemma_view(),
            Operation::MultiQubitMS(gate) => gate.lemma_view(),
            Operation::MultiQubitZZ(gate) => gate.lemma_view(),
            Operation::MultiQubitCNOT(gate) => gate.lemma_view(),
            Operation::QFT(gate) => gate.lemma_view(),
            Operation::CallDefinedGate(gate) => gate.lemma_view(),
        }
    }

    /// Answers a comparison of two operations. Operations are not ordered:
    /// only the questions for equality and for inequality have an answer.
    pub fn compare(&self, other: &Operation, op: CompareOp) -> (r: Option<bool>)
        ensures
            r == match op {
                CompareOp::Eq => Some(self@.equals(other@)),
                CompareOp::Ne => Some(!self@.equals(other@)),
                _ => None::<bool>,
            },
    {
        match op {
            CompareOp::Eq => Some(self == other),
            CompareOp::Ne => Some(self != other),
            _ => None,
        }
    }

    /// The kind of this gate.
    pub fn kind(&self) -> (r: GateKind)
        ensures
            r == self@.kind,
    {
        match self {
            Operation::SingleQubitGate(gate) => {
                proof {
                    gate.lemma_view();
                }
                GateKind::SingleQubitGate
            },
            Operation::RotateX(gate) => {
                proof {
                    gate.lemma_view();
                }
                GateKind::RotateX
            },
            Operation::RotateY(gate) => {
                proof {
                    gate.lemma_view();
                }
                GateKind::RotateY
            },
            Operation::RotateZ(gate) => {
                proof {
                    gate.lemma_view();
                }
                GateKind::RotateZ
            },
            Operation::PhaseShiftState0(gate) => {
                proof {
                    gate.lemma_view();
                }
                GateKind::PhaseShiftState0
            },
            Operation::PhaseShiftState1(gate) => {
                proof {
                    gate.lemma_view();
                }
                GateKind::PhaseShiftState1
            },
            Operation::RotateAroundSphericalAxis(gate) => {
                proof {
                    gate.lemma_view();
                }
                GateKind::RotateAroundSphericalAxis
            },
            Operation::Hadamard(gate) => {
                proof {
                    gate.lemma_view();
                }
                GateKind::Hadamard
            },
            Operation::TGate(gate) => {
                proof {
                    gate.lemma_view();
                }
                GateKind::TGate
            },
            Operation::CNOT(gate) => {
                proof {
                    gate.lemma_view();
                }
                GateKind::CNOT
            },
            Operation::SWAP(gate) => {
                proof {
                    gate.lemma_view();
                }
                GateKind::SWAP
            },
            Operation::ControlledPhaseShift(gate) => {
                proof {
                    gate.lemma_view();
                }
                GateKind::ControlledPhaseShift
            },
            Operation::ControlledControlledPauliZ(gate) => {
                proof {
                    gate.lemma_view();
                }
                GateKind::ControlledControlledPauliZ
            },
            Operation::ControlledControlledPhaseShift(gate) => {
                proof {
                    gate.lemma_view();
                }
                GateKind::ControlledControlledPhaseShift
            },
            Operation::TripleControlledPauliX(gate) => {
                proof {
                    gate.lemma_view();
                }
                GateKind::TripleControlledPauliX
            },
            Operation::TripleControlledPauliZ(gate) => {
                proof {
                    gate.lemma_view();
                }
                GateKind::TripleControlledPauliZ
            },
            Operation::MultiQubitMS(gate) => {
                proof {
                    gate.lemma_view();
                }
                GateKind::MultiQubitMS
            },
            Operation::MultiQubitZZ(gate) => {
                proof {
                    gate.lemma_view();
                }
                GateKind::MultiQubitZZ
            },
            Operation::MultiQubitCNOT(gate) => {
                proof {
                    gate.lemma_view();
                }
                GateKind::MultiQubitCNOT
            },
            Operation::QFT(gate) => {
                proof {
                    gate.lemma_view();
                }
                GateKind::QFT
            },
            Operation::CallDefinedGate(gate) => {
                proof {
                    gate.lemma_view();
                }
                GateKind::CallDefinedGate
            },
        }
    }

    /// The canonical name of this kind of gate.
    pub fn hqslang(&self) -> (r: &'static str)
        ensures
            r@ == self@.kind.name(),
    {
        self.kind().hqslang()
    }

    /// The tags of this gate. They depend on its kind alone, not on its
    /// qubits or parameters.
    pub fn tags(&self) -> (r: Vec<&'static str>)
        ensures
            texts(r@) == self@.kind.tag_chain(),
            r@.len() == self@.kind.tag_chain().len(),
    {
        self.kind().tags()
    }

    /// Whether some parameter is an expression.
    pub fn is_parametrized(&self) -> (r: bool)
        ensures
            r == self@.is_parametrized(),
    {
        match self {
            Operation::SingleQubitGate(gate) => gate.is_parametrized(),
            Operation::RotateX(gate) => gate.is_parametrized(),
            Operation::RotateY(gate) => gate.is_parametrized(),
            Operation::RotateZ(gate) => gate.is_parametrized(),
            Operation::PhaseShiftState0(gate) => gate.is_parametrized(),
            Operation::PhaseShiftState1(gate) => gate.is_parametrized(),
            Operation::RotateAroundSphericalAxis(gate) => gate.is_parametrized(),
            Operation::Hadamard(gate) => gate.is_parametrized(),
            Operation::TGate(gate) => gate.is_parametrized(),
            Operation::CNOT(gate) => gate.is_parametrized(),
            Operation::SWAP(gate) => gate.is_parametrized(),
            Operation::ControlledPhaseShift(gate) => gate.is_parametrized(),
            Operation::ControlledControlledPauliZ(gate) => gate.is_parametrized(),
            Operation::ControlledControlledPhaseShift(gate) => gate.is_parametrized(),
            Operation::TripleControlledPauliX(gate) => gate.is_parametrized(),
            Operation::TripleControlledPauliZ(gate) => gate.is_parametrized(),
            Operation::MultiQubitMS(gate) => gate.is_parametrized(),
            Operation::MultiQubitZZ(gate) => gate.is_parametrized(),
            Operation::MultiQubitCNOT(gate) => gate.is_parametrized(),
            Operation::QFT(gate) => gate.is_parametrized(),
            Operation::CallDefinedGate(gate) => gate.is_parametrized(),
        }
    }

    /// The qubits that are acted on.
    pub fn involved_qubits(&self) -> (r: InvolvedQubits)
        ensures
            r matches InvolvedQubits::Qubits(set) && set@ == self@.involved(),
    {
        match self {
            Operation::SingleQubitGate(gate) => gate.involved_qubits(),
            Operation::RotateX(gate) => gate.involved_qubits(),
            Operation::RotateY(gate) => gate.involved_qubits(),
            Operation::RotateZ(gate) => gate.involved_qubits(),
            Operation::PhaseShiftState0(gate) => gate.involved_qubits(),
            Operation::PhaseShiftState1(gate) => gate.involved_qubits(),
            Operation::RotateAroundSphericalAxis(gate) => gate.involved_qubits(),
            Operation::Hadamard(gate) => gate.involved_qubits(),
            Operation::TGate(gate) => gate.involved_qubits(),
            Operation::CNOT(gate) => gate.involved_qubits(),
            Operation::SWAP(gate) => gate.involved_qubits(),
            Operation::ControlledPhaseShift(gate) => gate.involved_qubits(),
            Operation::ControlledControlledPauliZ(gate) => gate.involved_qubits(),
            Operation::ControlledControlledPhaseShift(gate) => gate.involved_qubits(),
            Operation::TripleControlledPauliX(gate) => gate.involved_qubits(),
            Operation::TripleControlledPauliZ(gate) => gate.involved_qubits(),
            Operation::MultiQubitMS(gate) => gate.involved_qubits(),
            Operation::MultiQubitZZ(gate) => gate.involved_qubits(),
            Operation::MultiQubitCNOT(gate) => gate.involved_qubits(),
            Operation::QFT(gate) => gate.involved_qubits(),
            Operation::CallDefinedGate(gate) => gate.involved_qubits(),
        }
    }

    /// A copy with every parameter evaluated by `calculator`: the same
    /// kind on the same qubits, every parameter a number, and the
    /// parameters that were numbers unchanged. Where a parameter cannot be
    /// evaluated, the calculator's error is returned and no copy. A gate
    /// without an expression among its parameters is always returned, and
    /// unchanged.
    pub fn substitute_parameters(&self, calculator: &Calculator) -> (r: Result<
        Operation,
        RoqoqoError,
    >)
        ensures
            self@.substitution(variables(*calculator), viewed(r)),
            match r {
                Ok(operation) => self@.substitutes_to(operation@) && !operation@.is_parametrized(),
                Err(error) => error is CalculatorError && self@.is_parametrized(),
            },
            !self@.is_parametrized() ==> (r matches Ok(operation) && operation@ == self@),
    {
        let substituted = match self {
            Operation::SingleQubitGate(gate) => match gate.substitute_parameters(calculator) {
                Ok(gate) => Ok(Operation::SingleQubitGate(gate)),
                Err(error) => Err(error),
            },
            Operation::RotateX(gate) => match gate.substitute_parameters(calculator) {
                Ok(gate) => Ok(Operation::RotateX(gate)),
                Err(error) => Err(error),
            },
            Operation::RotateY(gate) => match gate.substitute_parameters(calculator) {
                Ok(gate) => Ok(Operation::RotateY(gate)),
                Err(error) => Err(error),
            },
            Operation::RotateZ(gate) => match gate.substitute_parameters(calculator) {
                Ok(gate) => Ok(Operation::RotateZ(gate)),
                Err(error) => Err(error),
            },
            Operation::PhaseShiftState0(gate) => match gate.substitute_parameters(calculator) {
                Ok(gate) => Ok(Operation::PhaseShiftState0(gate)),
                Err(error) => Err(error),
            },
            Operation::PhaseShiftState1(gate) => match gate.substitute_parameters(calculator) {
                Ok(gate) => Ok(Operation::PhaseShiftState1(gate)),
                Err(error) => Err(error),
            },
            Operation::RotateAroundSphericalAxis(gate) => {
                match gate.substitute_parameters(calculator) {
                    Ok(gate) => Ok(Operation::RotateAroundSphericalAxis(gate)),
                    Err(error) => Err(error),
                }
            },
            Operation::Hadamard(gate) => match gate.substitute_parameters(calculator) {
                Ok(gate) => Ok(Operation::Hadamard(gate)),
                Err(error) => Err(error),
            },
            Operation::TGate(gate) => match gate.substitute_parameters(calculator) {
                Ok(gate) => Ok(Operation::TGate(gate)),
                Err(error) => Err(error),
            },
            Operation::CNOT(gate) => match gate.substitute_parameters(calculator) {
                Ok(gate) => Ok(Operation::CNOT(gate)),
                Err(error) => Err(error),
            },
            Operation::SWAP(gate) => match gate.substitute_parameters(calculator) {
                Ok(gate) => Ok(Operation::SWAP(gate)),
                Err(error) => Err(error),
            },
            Operation::ControlledPhaseShift(gate) => match gate.substitute_parameters(calculator) {
                Ok(gate) => Ok(Operation::ControlledPhaseShift(gate)),
                Err(error) => Err(error),
            },
            Operation::ControlledControlledPauliZ(gate) => {
                match gate.substitute_parameters(calculator) {
                    Ok(gate) => Ok(Operation::ControlledControlledPauliZ(gate)),
                    Err(error) => Err(error),
                }
            },
            Operation::ControlledControlledPhaseShift(gate) => {
                match gate.substitute_parameters(calculator) {
                    Ok(gate) => Ok(Operation::ControlledControlledPhaseShift(gate)),
                    Err(error) => Err(error),
                }
            },
            Operation::TripleControlledPauliX(gate) => {
                match gate.substitute_parameters(calculator) {
                    Ok(gate) => Ok(Operation::TripleControlledPauliX(gate)),
                    Err(error) => Err(error),
                }
            },
            Operation::TripleControlledPauliZ(gate) => {
                match gate.substitute_parameters(calculator) {
                    Ok(gate) => Ok(Operation::TripleControlledPauliZ(gate)),
                    Err(error) => Err(error),
                }
            },
            Operation::MultiQubitMS(gate) => match gate.substitute_parameters(calculator) {
                Ok(gate) => Ok(Operation::MultiQubitMS(gate)),
                Err(error) => Err(error),
            },
            Operation::MultiQubitZZ(gate) => match gate.substitute_parameters(calculator) {
                Ok(gate) => Ok(Operation::MultiQubitZZ(gate)),
                Err(error) => Err(error),
            },
            Operation::MultiQubitCNOT(gate) => match gate.substitute_parameters(calculator) {
                Ok(gate) => Ok(Operation::MultiQubitCNOT(gate)),
                Err(error) => Err(error),
            },
            Operation::QFT(gate) => match gate.substitute_parameters(calculator) {
                Ok(gate) => Ok(Operation::QFT(gate)),
                Err(error) => Err(error),
            },
            Operation::CallDefinedGate(gate) => match gate.substitute_parameters(calculator) {
                Ok(gate) => Ok(Operation::CallDefinedGate(gate)),
                Err(error) => Err(error),
            },
        };
        proof {
            if let Ok(operation) = &substituted {
                lemma_substituted_is_not_parametrized(self@, operation@);
            }
        }
        substituted
    }

    /// A copy with each of its qubits replaced by the entry of `mapping`.
    /// Entries for other qubits are ignored. Where `mapping` has no entry
    /// for one of them, the error names the first that lacks one, in the
    /// order of the fields.
    pub fn remap_qubits(&self, mapping: &HashMap<usize, usize>) -> (r: Result<
        Operation,
        RoqoqoError,
    >)
        ensures
            match r {
                Ok(operation) => covers(mapping@, self@.qubits) && operation@ == self@.remapped(
                    mapping@,
                ),
                Err(error) => remapping(mapping@, self@.qubits) == Err::<Seq<usize>, RoqoqoError>(
                    error,
                ),
            },
    {
        match self {
            Operation::SingleQubitGate(gate) => match gate.remap_qubits(mapping) {
                Ok(gate) => Ok(Operation::SingleQubitGate(gate)),
                Err(error) => Err(error),
            },
            Operation::RotateX(gate) => match gate.remap_qubits(mapping) {
                Ok(gate) => Ok(Operation::RotateX(gate)),
                Err(error) => Err(error),
            },
            Operation::RotateY(gate) => match gate.remap_qubits(mapping) {
                Ok(gate) => Ok(Operation::RotateY(gate)),
                Err(error) => Err(error),
            },
            Operation::RotateZ(gate) => match gate.remap_qubits(mapping) {
                Ok(gate) => Ok(Operation::RotateZ(gate)),
                Err(error) => Err(error),
            },
            Operation::PhaseShiftState0(gate) => match gate.remap_qubits(mapping) {
                Ok(gate) => Ok(Operation::PhaseShiftState0(gate)),
                Err(error) => Err(error),
            },
            Operation::PhaseShiftState1(gate) => match gate.remap_qubits(mapping) {
                Ok(gate) => Ok(Operation::PhaseShiftState1(gate)),
                Err(error) => Err(error),
            },
            Operation::RotateAroundSphericalAxis(gate) => match gate.remap_qubits(mapping) {
                Ok(gate) => Ok(Operation::RotateAroundSphericalAxis(gate)),
                Err(error) => Err(error),
            },
            Operation::Hadamard(gate) => match gate.remap_qubits(mapping) {
                Ok(gate) => Ok(Operation::Hadamard(gate)),
                Err(error) => Err(error),
            },
            Operation::TGate(gate) => match gate.remap_qubits(mapping) {
                Ok(gate) => Ok(Operation::TGate(gate)),
                Err(error) => Err(error),
            },
            Operation::CNOT(gate) => match gate.remap_qubits(mapping) {
                Ok(gate) => Ok(Operation::CNOT(gate)),
                Err(error) => Err(error),
            },
            Operation::SWAP(gate) => match gate.remap_qubits(mapping) {
                Ok(gate) => Ok(Operation::SWAP(gate)),
                Err(error) => Err(error),
            },
            Operation::ControlledPhaseShift(gate) => match gate.remap_qubits(mapping) {
                Ok(gate) => Ok(Operation::ControlledPhaseShift(gate)),
                Err(error) => Err(error),
            },
            Operation::ControlledControlledPauliZ(gate) => match gate.remap_qubits(mapping) {
                Ok(gate) => Ok(Operation::ControlledControlledPauliZ(gate)),
                Err(error) => Err(error),
            },
            Operation::ControlledControlledPhaseShift(gate) => match gate.remap_qubits(mapping) {
                Ok(gate) => Ok(Operation::ControlledControlledPhaseShift(gate)),
                Err(error) => Err(error),
            },
            Operation::TripleControlledPauliX(gate) => match gate.remap_qubits(mapping) {
                Ok(gate) => Ok(Operation::TripleControlledPauliX(gate)),
                Err(error) => Err(error),
            },
            Operation::TripleControlledPauliZ(gate) => match gate.remap_qubits(mapping) {
                Ok(gate) => Ok(Operation::TripleControlledPauliZ(gate)),
                Err(error) => Err(error),
            },
            Operation::MultiQubitMS(gate) => match gate.remap_qubits(mapping) {
                Ok(gate) => Ok(Operation::MultiQubitMS(gate)),
                Err(error) => Err(error),
            },
            Operation::MultiQubitZZ(gate) => match gate.remap_qubits(mapping) {
                Ok(gate) => Ok(Operation::MultiQubitZZ(gate)),
                Err(error) => Err(error),
            },
            Operation::MultiQubitCNOT(gate) => match gate.remap_qubits(mapping) {
                Ok(gate) => Ok(Operation::MultiQubitCNOT(gate)),
                Err(error) => Err(error),
            },
            Operation::QFT(gate) => match gate.remap_qubits(mapping) {
                Ok(gate) => Ok(Operation::QFT(gate)),
                Err(error) => Err(error),
            },
            Operation::CallDefinedGate(gate) => match gate.remap_qubits(mapping) {
                Ok(gate) => Ok(Operation::CallDefinedGate(gate)),
                Err(error) => Err(error),
            },
        }
    }
}

impl From<SingleQubitGate> for Operation {
    fn from(gate: SingleQubitGate) -> (operation: Operation) {
        Operation::SingleQubitGate(gate)
    }
}

impl FromSpecImpl<SingleQubitGate> for Operation {
    open spec fn obeys_from_spec() -> bool {
        true
    }

    open spec fn from_spec(gate: SingleQubitGate) -> Operation {
        Operation::SingleQubitGate(gate)
    }
}

impl From<RotateX> for Operation {
    fn from(gate: RotateX) -> (operation: Operation) {
        Operation::RotateX(gate)
    }
}

impl FromSpecImpl<RotateX> for Operation {
    open spec fn obeys_from_spec() -> bool {
        true
    }

    open spec fn from_spec(gate: RotateX) -> Operation {
        Operation::RotateX(gate)
    }
}

impl From<RotateY> for Operation {
    fn from(gate: RotateY) -> (operation: Operation) {
        Operation::RotateY(gate)
    }
}

impl FromSpecImpl<RotateY> for Operation {
    open spec fn obeys_from_spec() -> bool {
        true
    }

    open spec fn from_spec(gate: RotateY) -> Operation {
        Operation::RotateY(gate)
    }
}

impl From<RotateZ> for Operation {
    fn from(gate: RotateZ) -> (operation: Operation) {
        Operation::RotateZ(gate)
    }
}

impl FromSpecImpl<RotateZ> for Operation {
    open spec fn obeys_from_spec() -> bool {
        true
    }

    open spec fn from_spec(gate: RotateZ) -> Operation {
        Operation::RotateZ(gate)
    }
}

impl From<PhaseShiftState0> for Operation {
    fn from(gate: PhaseShiftState0) -> (operation: Operation) {
        Operation::PhaseShiftState0(gate)
    }
}

impl FromSpecImpl<PhaseShiftState0> for Operation {
    open spec fn obeys_from_spec() -> bool {
        true
    }

    open spec fn from_spec(gate: PhaseShiftState0) -> Operation {
        Operation::PhaseShiftState0(gate)
    }
}

impl From<PhaseShiftState1> for Operation {
    fn from(gate: PhaseShiftState1) -> (operation: Operation) {
        Operation::PhaseShiftState1(gate)
    }
}

impl FromSpecImpl<PhaseShiftState1> for Operation {
    open spec fn obeys_from_spec() -> bool {
        true
    }

    open spec fn from_spec(gate: PhaseShiftState1) -> Operation {
        Operation::PhaseShiftState1(gate)
    }
}

impl From<RotateAroundSphericalAxis> for Operation {
    fn from(gate: RotateAroundSphericalAxis) -> (operation: Operation) {
        Operation::RotateAroundSphericalAxis(gate)
    }
}

impl FromSpecImpl<RotateAroundSphericalAxis> for Operation {
    open spec fn obeys_from_spec() -> bool {
        true
    }

    open spec fn from_spec(gate: RotateAroundSphericalAxis) -> Operation {
        Operation::RotateAroundSphericalAxis(gate)
    }
}

impl From<Hadamard> for Operation {
    fn from(gate: Hadamard) -> (operation: Operation) {
        Operation::Hadamard(gate)
    }
}

impl FromSpecImpl<Hadamard> for Operation {
    open spec fn obeys_from_spec() -> bool {
        true
    }

    open spec fn from_spec(gate: Hadamard) -> Operation {
        Operation::Hadamard(gate)
    }
}

impl From<TGate> for Operation {
    fn from(gate: TGate) -> (operation: Operation) {
        Operation::TGate(gate)
    }
}

impl FromSpecImpl<TGate> for Operation {
    open spec fn obeys_from_spec() -> bool {
        true
    }

    open spec fn from_spec(gate: TGate) -> Operation {
        Operation::TGate(gate)
    }
}

impl From<CNOT> for Operation {
    fn from(gate: CNOT) -> (operation: Operation) {
        Operation::CNOT(gate)
    }
}

impl FromSpecImpl<CNOT> for Operation {
    open spec fn obeys_from_spec() -> bool {
        true
    }

    open spec fn from_spec(gate: CNOT) -> Operation {
        Operation::CNOT(gate)
    }
}

impl From<SWAP> for Operation {
    fn from(gate: SWAP) -> (operation: Operation) {
        Operation::SWAP(gate)
    }
}

impl FromSpecImpl<SWAP> for Operation {
    open spec fn obeys_from_spec() -> bool {
        true
    }

    open spec fn from_spec(gate: SWAP) -> Operation {
        Operation::SWAP(gate)
    }
}

impl From<ControlledPhaseShift> for Operation {
    fn from(gate: ControlledPhaseShift) -> (operation: Operation) {
        Operation::ControlledPhaseShift(gate)
    }
}

impl FromSpecImpl<ControlledPhaseShift> for Operation {
    open spec fn obeys_from_spec() -> bool {
        true
    }

    open spec fn from_spec(gate: ControlledPhaseShift) -> Operation {
        Operation::ControlledPhaseShift(gate)
    }
}

impl From<ControlledControlledPauliZ> for Operation {
    fn from(gate: ControlledControlledPauliZ) -> (operation: Operation) {
        Operation::ControlledControlledPauliZ(gate)
    }
}

impl FromSpecImpl<ControlledControlledPauliZ> for Operation {
    open spec fn obeys_from_spec() -> bool {
        true
    }

    open spec fn from_spec(gate: ControlledControlledPauliZ) -> Operation {
        Operation::ControlledControlledPauliZ(gate)
    }
}

impl From<ControlledControlledPhaseShift> for Operation {
    fn from(gate: ControlledControlledPhaseShift) -> (operation: Operation) {
        Operation::ControlledControlledPhaseShift(gate)
    }
}

impl FromSpecImpl<ControlledControlledPhaseShift> for Operation {
    open spec fn obeys_from_spec() -> bool {
        true
    }

    open spec fn from_spec(gate: ControlledControlledPhaseShift) -> Operation {
        Operation::ControlledControlledPhaseShift(gate)
    }
}

impl From<TripleControlledPauliX> for Operation {
    fn from(gate: TripleControlledPauliX) -> (operation: Operation) {
        Operation::TripleControlledPauliX(gate)
    }
}

impl FromSpecImpl<TripleControlledPauliX> for Operation {
    open spec fn obeys_from_spec() -> bool {
        true
    }

    open spec fn from_spec(gate: TripleControlledPauliX) -> Operation {
        Operation::TripleControlledPauliX(gate)
    }
}

impl From<TripleControlledPauliZ> for Operation {
    fn from(gate: TripleControlledPauliZ) -> (operation: Operation) {
        Operation::TripleControlledPauliZ(gate)
    }
}

impl FromSpecImpl<TripleControlledPauliZ> for Operation {
    open spec fn obeys_from_spec() -> bool {
        true
    }

    open spec fn from_spec(gate: TripleControlledPauliZ) -> Operation {
        Operation::TripleControlledPauliZ(gate)
    }
}

impl From<MultiQubitMS> for Operation {
    fn from(gate: MultiQubitMS) -> (operation: Operation) {
        Operation::MultiQubitMS(gate)
    }
}

impl FromSpecImpl<MultiQubitMS> for Operation {
    open spec fn obeys_from_spec() -> bool {
        true
    }

    open spec fn from_spec(gate: MultiQubitMS) -> Operation {
        Operation::MultiQubitMS(gate)
    }
}

impl From<MultiQubitZZ> for Operation {
    fn from(gate: MultiQubitZZ) -> (operation: Operation) {
        Operation::MultiQubitZZ(gate)
    }
}

impl FromSpecImpl<MultiQubitZZ> for Operation {
    open spec fn obeys_from_spec() -> bool {
        true
    }

    open spec fn from_spec(gate: MultiQubitZZ) -> Operation {
        Operation::MultiQubitZZ(gate)
    }
}

impl From<MultiQubitCNOT> for Operation {
    fn from(gate: MultiQubitCNOT) -> (operation: Operation) {
        Operation::MultiQubitCNOT(gate)
    }
}

impl FromSpecImpl<MultiQubitCNOT> for Operation {
    open spec fn obeys_from_spec() -> bool {
        true
    }

    open spec fn from_spec(gate: MultiQubitCNOT) -> Operation {
        Operation::MultiQubitCNOT(gate)
    }
}

impl From<QFT> for Operation {
    fn from(gate: QFT) -> (operation: Operation) {
        Operation::QFT(gate)
    }
}

impl FromSpecImpl<QFT> for Operation {
    open spec fn obeys_from_spec() -> bool {
        true
    }

    open spec fn from_spec(gate: QFT) -> Operation {
        Operation::QFT(gate)
    }
}

impl From<CallDefinedGate> for Operation {
    fn from(gate: CallDefinedGate) -> (operation: Operation) {
        Operation::CallDefinedGate(gate)
    }
}

impl FromSpecImpl<CallDefinedGate> for Operation {
    open spec fn obeys_from_spec() -> bool {
        true
    }

    open spec fn from_spec(gate: CallDefinedGate) -> Operation {
        Operation::CallDefinedGate(gate)
    }
}

} // verus!
