//! The catalogue of gate kinds, and the mathematical model of a gate.
//!
//! Every gate of the crate is viewed as a [`GateView`]: its kind, the qubits
//! of its roles in the order of the fields, and what its parameters hold in
//! the order of the fields. The name and the tags of a gate depend on its
//! kind alone.
use crate::calculator::{answers, SymbolicFloat};
use crate::error::RoqoqoError;
use crate::parameters::{any_symbolic, collected, contents_of, equal_lists, evaluated_from};
use crate::qubits::mapped;
use qoqo_calculator::{CalculatorError, CalculatorFloat};
use vstd::prelude::*;

verus! {

/// The kinds of gates.
#[derive(Debug, Clone, Copy, PartialEq, Eq, Structural)]
pub enum GateKind {
    SingleQubitGate,
    RotateX,
    RotateY,
    RotateZ,
    PhaseShiftState0,
    PhaseShiftState1,
    RotateAroundSphericalAxis,
    Hadamard,
    TGate,
    CNOT,
    SWAP,
    ControlledPhaseShift,
    ControlledControlledPauliZ,
    ControlledControlledPhaseShift,
    TripleControlledPauliX,
    TripleControlledPauliZ,
    MultiQubitMS,
    MultiQubitZZ,
    MultiQubitCNOT,
    QFT,
    CallDefinedGate,
}

/// How many qubits the gates of a group act on.
#[derive(Debug, Clone, Copy, PartialEq, Eq, Structural)]
pub enum GateGroup {
    SingleQubit,
    TwoQubit,
    ThreeQubit,
    MultiQubit,
}

/// The names of all gate kinds.
pub const AVAILABLE_GATES_HQSLANG: [&'static str; 21] = [
    "SingleQubitGate",
    "RotateX",
    "RotateY",
    "RotateZ",
    "PhaseShiftState0",
    "PhaseShiftState1",
    "RotateAroundSphericalAxis",
    "Hadamard",
    "TGate",
    "CNOT",
    "SWAP",
    "ControlledPhaseShift",
    "ControlledControlledPauliZ",
    "ControlledControlledPhaseShift",
    "TripleControlledPauliX",
    "TripleControlledPauliZ",
    "MultiQubitMS",
    "MultiQubitZZ",
    "MultiQubitCNOT",
    "QFT",
    "CallDefinedGate",
];

impl GateGroup {
    /// The tag of the group.
    pub open spec fn tag(self) -> Seq<char> {
        match self {
            GateGroup::SingleQubit => "SingleQubitGateOperation"@,
            GateGroup::TwoQubit => "TwoQubitGateOperation"@,
            GateGroup::ThreeQubit => "ThreeQubitGateOperation"@,
            GateGroup::MultiQubit => "MultiQubitGateOperation"@,
        }
    }

    /// The tag of the group, as text.
    pub fn tag_text(self) -> (r: &'static str)
        ensures
            r@ == self.tag(),
    {
        match self {
            GateGroup::SingleQubit => "SingleQubitGateOperation",
            GateGroup::TwoQubit => "TwoQubitGateOperation",
            GateGroup::ThreeQubit => "ThreeQubitGateOperation",
            GateGroup::MultiQubit => "MultiQubitGateOperation",
        }
    }
}

impl GateKind {
    /// The canonical name of the kind.
    pub open spec fn name(self) -> Seq<char> {
        match self {
            GateKind::SingleQubitGate => "SingleQubitGate"@,
            GateKind::RotateX => "RotateX"@,
            GateKind::RotateY => "RotateY"@,
            GateKind::RotateZ => "RotateZ"@,
            GateKind::PhaseShiftState0 => "PhaseShiftState0"@,
            GateKind::PhaseShiftState1 => "PhaseShiftState1"@,
            GateKind::RotateAroundSphericalAxis => "RotateAroundSphericalAxis"@,
            GateKind::Hadamard => "Hadamard"@,
            GateKind::TGate => "TGate"@,
            GateKind::CNOT => "CNOT"@,
            GateKind::SWAP => "SWAP"@,
            GateKind::ControlledPhaseShift => "ControlledPhaseShift"@,
            GateKind::ControlledControlledPauliZ => "ControlledControlledPauliZ"@,
            GateKind::ControlledControlledPhaseShift => "ControlledControlledPhaseShift"@,
            GateKind::TripleControlledPauliX => "TripleControlledPauliX"@,
            GateKind::TripleControlledPauliZ => "TripleControlledPauliZ"@,
            GateKind::MultiQubitMS => "MultiQubitMS"@,
            GateKind::MultiQubitZZ => "MultiQubitZZ"@,
            GateKind::MultiQubitCNOT => "MultiQubitCNOT"@,
            GateKind::QFT => "QFT"@,
            GateKind::CallDefinedGate => "CallDefinedGate"@,
        }
    }

    /// The group under which the kind is tagged. The gates with three
    /// controls are tagged with the gates on a variable number of qubits.
    pub open spec fn group(self) -> GateGroup {
        match self {
            GateKind::SingleQubitGate
            | GateKind::RotateX
            | GateKind::RotateY
            | GateKind::RotateZ
            | GateKind::PhaseShiftState0
            | GateKind::PhaseShiftState1
            | GateKind::RotateAroundSphericalAxis
            | GateKind::Hadamard
            | GateKind::TGate => GateGroup::SingleQubit,
            GateKind::CNOT | GateKind::SWAP | GateKind::ControlledPhaseShift => GateGroup::TwoQubit,
            GateKind::ControlledControlledPauliZ
            | GateKind::ControlledControlledPhaseShift => GateGroup::ThreeQubit,
            GateKind::TripleControlledPauliX
            | GateKind::TripleControlledPauliZ
            | GateKind::MultiQubitMS
            | GateKind::MultiQubitZZ
            | GateKind::MultiQubitCNOT
            | GateKind::QFT
            | GateKind::CallDefinedGate => GateGroup::MultiQubit,
        }
    }

    /// The kind carries its own unitary. A call of a defined gate does not:
    /// its unitary is that of the definition it refers to.
    pub open spec fn is_unitary_gate(self) -> bool {
        self != GateKind::CallDefinedGate
    }

    /// The kind is tagged as a rotation.
    pub open spec fn is_tagged_rotation(self) -> bool {
        match self {
            GateKind::RotateX
            | GateKind::RotateY
            | GateKind::RotateZ
            | GateKind::PhaseShiftState0
            | GateKind::PhaseShiftState1
            | GateKind::RotateAroundSphericalAxis
            | GateKind::ControlledPhaseShift
            | GateKind::ControlledControlledPhaseShift => true,
            _ => false,
        }
    }

    /// The tags of the kind, from the most general to the name of the kind.
    pub open spec fn tag_chain(self) -> Seq<Seq<char>> {
        seq!["Operation"@] + (if self.is_unitary_gate() {
            seq!["GateOperation"@]
        } else {
            Seq::empty()
        }) + seq![self.group().tag()] + (if self.is_tagged_rotation() {
            seq!["Rotation"@]
        } else {
            Seq::empty()
        }) + seq![self.name()]
    }

    /// How many qubits a gate of the kind has; `None` for the kinds whose
    /// gates hold a list of any length.
    pub open spec fn qubit_count(self) -> Option<nat> {
        match self.group() {
            GateGroup::SingleQubit => Some(1),
            GateGroup::TwoQubit => Some(2),
            GateGroup::ThreeQubit => Some(3),
            GateGroup::MultiQubit => match self {
                GateKind::TripleControlledPauliX | GateKind::TripleControlledPauliZ => Some(4),
                _ => None,
            },
        }
    }

    /// How many parameters a gate of the kind has; `None` for a call of a
    /// defined gate, which holds a list of any length.
    pub open spec fn parameter_count(self) -> Option<nat> {
        match self {
            GateKind::SingleQubitGate => Some(5),
            GateKind::RotateAroundSphericalAxis => Some(3),
            GateKind::RotateX
            | GateKind::RotateY
            | GateKind::RotateZ
            | GateKind::PhaseShiftState0
            | GateKind::PhaseShiftState1
            | GateKind::ControlledPhaseShift
            | GateKind::ControlledControlledPhaseShift
            | GateKind::MultiQubitMS
            | GateKind::MultiQubitZZ => Some(1),
            GateKind::CallDefinedGate => None,
            _ => Some(0),
        }
    }

    /// The canonical name of the kind.
    pub fn hqslang(self) -> (r: &'static str)
        ensures
            r@ == self.name(),
    {
        match self {
            GateKind::SingleQubitGate => "SingleQubitGate",
            GateKind::RotateX => "RotateX",
            GateKind::RotateY => "RotateY",
            GateKind::RotateZ => "RotateZ",
            GateKind::PhaseShiftState0 => "PhaseShiftState0",
            GateKind::PhaseShiftState1 => "PhaseShiftState1",
            GateKind::RotateAroundSphericalAxis => "RotateAroundSphericalAxis",
            GateKind::Hadamard => "Hadamard",
            GateKind::TGate => "TGate",
            GateKind::CNOT => "CNOT",
            GateKind::SWAP => "SWAP",
            GateKind::ControlledPhaseShift => "ControlledPhaseShift",
            GateKind::ControlledControlledPauliZ => "ControlledControlledPauliZ",
            GateKind::ControlledControlledPhaseShift => "ControlledControlledPhaseShift",
            GateKind::TripleControlledPauliX => "TripleControlledPauliX",
            GateKind::TripleControlledPauliZ => "TripleControlledPauliZ",
            GateKind::MultiQubitMS => "MultiQubitMS",
            GateKind::MultiQubitZZ => "MultiQubitZZ",
            GateKind::MultiQubitCNOT => "MultiQubitCNOT",
            GateKind::QFT => "QFT",
            GateKind::CallDefinedGate => "CallDefinedGate",
        }
    }

    /// The group under which the kind is tagged.
    pub fn gate_group(self) -> (r: GateGroup)
        ensures
            r == self.group(),
    {
        match self {
            GateKind::SingleQubitGate
            | GateKind::RotateX
            | GateKind::RotateY
            | GateKind::RotateZ
            | GateKind::PhaseShiftState0
            | GateKind::PhaseShiftState1
            | GateKind::RotateAroundSphericalAxis
            | GateKind::Hadamard
            | GateKind::TGate => GateGroup::SingleQubit,
            GateKind::CNOT | GateKind::SWAP | GateKind::ControlledPhaseShift => GateGroup::TwoQubit,
            GateKind::ControlledControlledPauliZ
            | GateKind::ControlledControlledPhaseShift => GateGroup::ThreeQubit,
            _ => GateGroup::MultiQubit,
        }
    }

    /// Decides whether the kind is tagged as a rotation.
    pub fn has_rotation_tag(self) -> (r: bool)
        ensures
            r == self.is_tagged_rotation(),
    {
        match self {
            GateKind::RotateX
            | GateKind::RotateY
            | GateKind::RotateZ
            | GateKind::PhaseShiftState0
            | GateKind::PhaseShiftState1
            | GateKind::RotateAroundSphericalAxis
            | GateKind::ControlledPhaseShift
            | GateKind::ControlledControlledPhaseShift => true,
            _ => false,
        }
    }

    /// The tags of the kind, from the most general to the name of the kind.
    pub fn tags(self) -> (r: Vec<&'static str>)
        ensures
            texts(r@) == self.tag_chain(),
            r@.len() == self.tag_chain().len(),
    {
        let mut chain: Vec<&'static str> = Vec::new();
        chain.push("Operation");
        match self {
            GateKind::CallDefinedGate => {},
            _ => {
                chain.push("GateOperation");
            },
        }
        chain.push(self.gate_group().tag_text());
        if self.has_rotation_tag() {
            chain.push("Rotation");
        }
        chain.push(self.hqslang());
        assert(texts(chain@) =~= self.tag_chain());
        chain
    }
}

/// The characters of each text of a list.
pub open spec fn texts(list: Seq<&'static str>) -> Seq<Seq<char>> {
    Seq::new(list.len(), |i: int| list[i]@)
}

/// A result, with a gate in it seen as its model.
pub open spec fn viewed<G: View<V = GateView>>(result: Result<G, RoqoqoError>) -> Result<
    GateView,
    RoqoqoError,
> {
    match result {
        Ok(gate) => Ok(gate@),
        Err(error) => Err(error),
    }
}

/// The mathematical model of a gate.
pub struct GateView {
    /// The kind.
    pub kind: GateKind,
    /// The qubits, in the order of the roles.
    pub qubits: Seq<usize>,
    /// What the parameters hold, in the order of the fields.
    pub parameters: Seq<SymbolicFloat>,
    /// The flags, in the order of the fields.
    pub flags: Seq<bool>,
    /// The name of the definition that a call of a defined gate refers to;
    /// empty for every other kind.
    pub definition: Seq<char>,
}

impl GateView {
    /// A gate of a kind that has neither flags nor a definition.
    pub open spec fn plain(
        kind: GateKind,
        qubits: Seq<usize>,
        parameters: Seq<SymbolicFloat>,
    ) -> GateView {
        GateView { kind, qubits, parameters, flags: Seq::empty(), definition: Seq::empty() }
    }

    /// The same gate on other qubits.
    pub open spec fn with_qubits(self, qubits: Seq<usize>) -> GateView {
        GateView { qubits, ..self }
    }

    /// The same gate with other parameters.
    pub open spec fn with_parameters(self, parameters: Seq<SymbolicFloat>) -> GateView {
        GateView { parameters, ..self }
    }

    /// Some parameter is an expression.
    pub open spec fn is_parametrized(self) -> bool {
        any_symbolic(self.parameters)
    }

    /// The set of qubits that are acted on.
    pub open spec fn involved(self) -> Set<usize> {
        self.qubits.to_set()
    }

    /// Two gates are equal where they are of the same kind, on the same
    /// qubits in the same order, with equal parameters, the same flags and
    /// the same definition. Gates of different kinds are never equal.
    pub open spec fn equals(self, other: GateView) -> bool {
        &&& self.kind == other.kind
        &&& self.qubits == other.qubits
        &&& equal_lists(self.parameters, other.parameters)
        &&& self.flags == other.flags
        &&& self.definition == other.definition
    }

    /// The list of qubits and the list of parameters have the lengths that the kind asks for.
    pub open spec fn well_formed(self) -> bool {
        &&& self.kind.qubit_count() matches Some(count) ==> self.qubits.len() == count
        &&& self.kind.parameter_count() matches Some(count) ==> self.parameters.len() == count
        &&& self.flags.len() == (if self.kind == GateKind::QFT {
            2nat
        } else {
            0nat
        })
        &&& self.kind != GateKind::CallDefinedGate ==> self.definition.len() == 0
    }

    /// The same gate with its qubits renamed by a mapping that covers them.
    pub open spec fn remapped(self, mapping: Map<usize, usize>) -> GateView {
        self.with_qubits(mapped(mapping, self.qubits))
    }

    /// What the answers of the calculator to the parameters make of this
    /// gate: where every answer is a number, the same gate with these
    /// numbers as its parameters, each in the place of the parameter it
    /// answers; else the first error among the answers, and no gate.
    pub open spec fn with_answers(
        self,
        given: Seq<Result<CalculatorFloat, CalculatorError>>,
    ) -> Result<GateView, RoqoqoError> {
        match collected(given) {
            Ok(values) => Ok(self.with_parameters(contents_of(values))),
            Err(error) => Err(RoqoqoError::CalculatorError(error)),
        }
    }

    /// `outcome` is what substitution under the bound variables may give:
    /// every parameter is answered in order, a number by itself, a text
    /// that cannot be handed to the parser by the error that carries the
    /// text, any other text by the parser; and the answers make the outcome.
    pub open spec fn substitution(
        self,
        bound: Map<Seq<char>, u64>,
        outcome: Result<GateView, RoqoqoError>,
    ) -> bool {
        exists|given: Seq<Result<CalculatorFloat, CalculatorError>>|
            {
                &&& given.len() == self.parameters.len()
                &&& forall|i: int|
                    0 <= i < given.len() ==> answers(bound, self.parameters[i], #[trigger] given[i])
                &&& outcome == self.with_answers(given)
            }
    }

    /// `after` is what substitution may make of this gate: the same gate on
    /// the same qubits, with every parameter a number and the parameters
    /// that were numbers already unchanged.
    pub open spec fn substitutes_to(self, after: GateView) -> bool {
        &&& after == self.with_parameters(after.parameters)
        &&& evaluated_from(self.parameters, after.parameters)
    }
}

} // verus!
