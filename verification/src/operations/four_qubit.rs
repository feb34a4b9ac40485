//! Gates on four qubits.
use crate::calculator::variables;
use crate::error::RoqoqoError;
use crate::gate::{texts, viewed, GateKind, GateView};
use crate::laws::lemma_substitution_without_parameters;
use crate::matrix::{
    exchange_of_last_two, is_unitary, lemma_exchange_of_last_two_is_unitary,
    lemma_phase_on_last_is_unitary, matrix_of, phase_on_last, Entry, EntryView, UnitaryMatrix,
};
use crate::qubits::{covers, involved_set, remap_qubit_list, remapping, InvolvedQubits};
use qoqo_calculator::Calculator;
use std::collections::HashMap;
use vstd::prelude::*;
use vstd::std_specs::cmp::PartialEqSpecImpl;

verus! {

/// The triply controlled Pauli X gate: flips `target` where all three
/// controls are |1>.
#[derive(Debug)]
pub struct TripleControlledPauliX {
    /// The first controlling qubit, the most significant one in the unitary.
    control_0: usize,
    /// The second controlling qubit.
    control_1: usize,
    /// The third controlling qubit.
    control_2: usize,
    /// The qubit that is acted on, the least significant one in the unitary.
    target: usize,
}

impl View for TripleControlledPauliX {
    type V = GateView;

    closed spec fn view(&self) -> GateView {
        GateView::plain(
            GateKind::TripleControlledPauliX,
            seq![self.control_0, self.control_1, self.control_2, self.target],
            Seq::empty(),
        )
    }
}

impl Clone for TripleControlledPauliX {
    fn clone(&self) -> (copy: Self)
        ensures
            copy@ == self@,
    {
        TripleControlledPauliX {
            control_0: self.control_0,
            control_1: self.control_1,
            control_2: self.control_2,
            target: self.target,
        }
    }
}

impl PartialEq for TripleControlledPauliX {
    fn eq(&self, other: &Self) -> (r: bool) {
        let r = self.control_0 == other.control_0
            && self.control_1 == other.control_1
            && self.control_2 == other.control_2
            && self.target == other.target;
        proof {
            if r {
                assert(self@.qubits =~= other@.qubits);
            } else {
                assert(self@.qubits[0] == self.control_0 && other@.qubits[0] == other.control_0);
                assert(self@.qubits[1] == self.control_1 && other@.qubits[1] == other.control_1);
                assert(self@.qubits[2] == self.control_2 && other@.qubits[2] == other.control_2);
                assert(self@.qubits[3] == self.target && other@.qubits[3] == other.target);
            }
        }
        r
    }
}

impl PartialEqSpecImpl for TripleControlledPauliX {
    open spec fn obeys_eq_spec() -> bool {
        true
    }

    open spec fn eq_spec(&self, other: &Self) -> bool {
        self@.equals(other@)
    }
}

impl TripleControlledPauliX {
    /// Creates a new instance.
    pub fn new(control_0: usize, control_1: usize, control_2: usize, target: usize) -> (gate: Self)
        ensures
            gate@ == GateView::plain(
                GateKind::TripleControlledPauliX,
                seq![control_0, control_1, control_2, target],
                Seq::empty(),
            ),
    {
        TripleControlledPauliX { control_0, control_1, control_2, target }
    }

    /// The shape of the view: the kind, and one entry for each field.
    pub proof fn lemma_view(&self)
        ensures
            self@ == GateView::plain(
                GateKind::TripleControlledPauliX,
                seq![self@.qubits[0], self@.qubits[1], self@.qubits[2], self@.qubits[3]],
                Seq::empty(),
            ),
            self@.well_formed(),
    {
    }

    /// The first controlling qubit, the most significant one in the unitary.
    pub fn control_0(&self) -> (r: &usize)
        ensures
            *r == self@.qubits[0],
    {
        &self.control_0
    }

    /// The second controlling qubit.
    pub fn control_1(&self) -> (r: &usize)
        ensures
            *r == self@.qubits[1],
    {
        &self.control_1
    }

    /// The third controlling qubit.
    pub fn control_2(&self) -> (r: &usize)
        ensures
            *r == self@.qubits[2],
    {
        &self.control_2
    }

    /// The qubit that is acted on, the least significant one in the unitary.
    pub fn target(&self) -> (r: &usize)
        ensures
            *r == self@.qubits[3],
    {
        &self.target
    }

    /// The canonical name of this kind of gate.
    pub fn hqslang(&self) -> (r: &'static str)
        ensures
            r@ == GateKind::TripleControlledPauliX.name(),
    {
        GateKind::TripleControlledPauliX.hqslang()
    }

    /// The tags of this kind of gate; no field is read.
    pub fn tags(&self) -> (r: Vec<&'static str>)
        ensures
            texts(r@) == GateKind::TripleControlledPauliX.tag_chain(),
            r@.len() == GateKind::TripleControlledPauliX.tag_chain().len(),
    {
        GateKind::TripleControlledPauliX.tags()
    }

    /// There is no parameter, so this is never parametrized.
    pub fn is_parametrized(&self) -> (r: bool)
        ensures
            r == self@.is_parametrized(),
            !r,
    {
        false
    }

    /// The qubits that are acted on.
    pub fn involved_qubits(&self) -> (r: InvolvedQubits)
        ensures
            r matches InvolvedQubits::Qubits(set) && set@ == self@.involved(),
    {
        involved_set(&self.qubit_list())
    }

    /// There is no parameter: substitution returns a copy.
    pub fn substitute_parameters(&self, calculator: &Calculator) -> (r: Result<Self, RoqoqoError>)
        ensures
            r matches Ok(gate) && gate@ == self@ && self@.substitutes_to(gate@),
            self@.substitution(variables(*calculator), viewed(r)),
    {
        proof {
            lemma_substitution_without_parameters(self@, variables(*calculator));
        }
        Ok(self.clone())
    }

    /// A copy with each of its qubits replaced by the entry of `mapping`. Where
    /// `mapping` has no entry for one of them, the error names the
    /// first that lacks one.
    pub fn remap_qubits(&self, mapping: &HashMap<usize, usize>) -> (r: Result<Self, RoqoqoError>)
        ensures
            match r {
                Ok(gate) => covers(mapping@, self@.qubits) && gate@ == self@.remapped(mapping@),
                Err(error) => remapping(mapping@, self@.qubits) == Err::<Seq<usize>, RoqoqoError>(
                    error,
                ),
            },
    {
        match remap_qubit_list(&self.qubit_list(), mapping) {
            Ok(qubits) => {
                let gate = TripleControlledPauliX {
                    control_0: qubits[0],
                    control_1: qubits[1],
                    control_2: qubits[2],
                    target: qubits[3],
                };
                assert(gate@.qubits =~= qubits@);
                Ok(gate)
            },
            Err(error) => Err(error),
        }
    }

    /// The first version of the library that knows this kind of gate.
    pub fn minimum_supported_roqoqo_version(&self) -> (r: (u32, u32, u32))
        ensures
            r == (1u32, 15u32, 0u32),
    {
        (1, 15, 0)
    }

    /// The unitary matrix: the identity but for the states
    /// |1110> and |1111>, which are exchanged. Its product with its
    /// conjugate transpose is the identity.
    pub fn unitary_matrix(&self) -> (r: Result<UnitaryMatrix, RoqoqoError>)
        ensures
            r matches Ok(matrix) && matrix@ == matrix_of(16, exchange_of_last_two(16)),
            r matches Ok(matrix) && is_unitary(matrix@),
    {
        proof {
            lemma_exchange_of_last_two_is_unitary(16);
        }
        Ok(UnitaryMatrix::with_exchange_of_last_two(16))
    }

    fn qubit_list(&self) -> (r: Vec<usize>)
        ensures
            r@ == self@.qubits,
    {
        let list = vec![self.control_0, self.control_1, self.control_2, self.target];
        assert(list@ =~= self@.qubits);
        list
    }
}

/// The triply controlled Pauli Z gate: applies Z to `target` where all
/// three controls are |1>.
#[derive(Debug)]
pub struct TripleControlledPauliZ {
    /// The first controlling qubit, the most significant one in the unitary.
    control_0: usize,
    /// The second controlling qubit.
    control_1: usize,
    /// The third controlling qubit.
    control_2: usize,
    /// The qubit that is acted on, the least significant one in the unitary.
    target: usize,
}

impl View for TripleControlledPauliZ {
    type V = GateView;

    closed spec fn view(&self) -> GateView {
        GateView::plain(
            GateKind::TripleControlledPauliZ,
            seq![self.control_0, self.control_1, self.control_2, self.target],
            Seq::empty(),
        )
    }
}

impl Clone for TripleControlledPauliZ {
    fn clone(&self) -> (copy: Self)
        ensures
            copy@ == self@,
    {
        TripleControlledPauliZ {
            control_0: self.control_0,
            control_1: self.control_1,
            control_2: self.control_2,
            target: self.target,
        }
    }
}

impl PartialEq for TripleControlledPauliZ {
    fn eq(&self, other: &Self) -> (r: bool) {
        let r = self.control_0 == other.control_0
            && self.control_1 == other.control_1
            && self.control_2 == other.control_2
            && self.target == other.target;
        proof {
            if r {
                assert(self@.qubits =~= other@.qubits);
            } else {
                assert(self@.qubits[0] == self.control_0 && other@.qubits[0] == other.control_0);
                assert(self@.qubits[1] == self.control_1 && other@.qubits[1] == other.control_1);
                assert(self@.qubits[2] == self.control_2 && other@.qubits[2] == other.control_2);
                assert(self@.qubits[3] == self.target && other@.qubits[3] == other.target);
            }
        }
        r
    }
}

impl PartialEqSpecImpl for TripleControlledPauliZ {
    open spec fn obeys_eq_spec() -> bool {
        true
    }

    open spec fn eq_spec(&self, other: &Self) -> bool {
        self@.equals(other@)
    }
}

impl TripleControlledPauliZ {
    /// Creates a new instance.
    pub fn new(control_0: usize, control_1: usize, control_2: usize, target: usize) -> (gate: Self)
        ensures
            gate@ == GateView::plain(
                GateKind::TripleControlledPauliZ,
                seq![control_0, control_1, control_2, target],
                Seq::empty(),
            ),
    {
        TripleControlledPauliZ { control_0, control_1, control_2, target }
    }

    /// The shape of the view: the kind, and one entry for each field.
    pub proof fn lemma_view(&self)
        ensures
            self@ == GateView::plain(
                GateKind::TripleControlledPauliZ,
                seq![self@.qubits[0], self@.qubits[1], self@.qubits[2], self@.qubits[3]],
                Seq::empty(),
            ),
            self@.well_formed(),
    {
    }

    /// The first controlling qubit, the most significant one in the unitary.
    pub fn control_0(&self) -> (r: &usize)
        ensures
            *r == self@.qubits[0],
    {
        &self.control_0
    }

    /// The second controlling qubit.
    pub fn control_1(&self) -> (r: &usize)
        ensures
            *r == self@.qubits[1],
    {
        &self.control_1
    }

    /// The third controlling qubit.
    pub fn control_2(&self) -> (r: &usize)
        ensures
            *r == self@.qubits[2],
    {
        &self.control_2
    }

    /// The qubit that is acted on, the least significant one in the unitary.
    pub fn target(&self) -> (r: &usize)
        ensures
            *r == self@.qubits[3],
    {
        &self.target
    }

    /// The canonical name of this kind of gate.
    pub fn hqslang(&self) -> (r: &'static str)
        ensures
            r@ == GateKind::TripleControlledPauliZ.name(),
    {
        GateKind::TripleControlledPauliZ.hqslang()
    }

    /// The tags of this kind of gate; no field is read.
    pub fn tags(&self) -> (r: Vec<&'static str>)
        ensures
            texts(r@) == GateKind::TripleControlledPauliZ.tag_chain(),
            r@.len() == GateKind::TripleControlledPauliZ.tag_chain().len(),
    {
        GateKind::TripleControlledPauliZ.tags()
    }

    /// There is no parameter, so this is never parametrized.
    pub fn is_parametrized(&self) -> (r: bool)
        ensures
            r == self@.is_parametrized(),
            !r,
    {
        false
    }

    /// The qubits that are acted on.
    pub fn involved_qubits(&self) -> (r: InvolvedQubits)
        ensures
            r matches InvolvedQubits::Qubits(set) && set@ == self@.involved(),
    {
        involved_set(&self.qubit_list())
    }

    /// There is no parameter: substitution returns a copy.
    pub fn substitute_parameters(&self, calculator: &Calculator) -> (r: Result<Self, RoqoqoError>)
        ensures
            r matches Ok(gate) && gate@ == self@ && self@.substitutes_to(gate@),
            self@.substitution(variables(*calculator), viewed(r)),
    {
        proof {
            lemma_substitution_without_parameters(self@, variables(*calculator));
        }
        Ok(self.clone())
    }

    /// A copy with each of its qubits replaced by the entry of `mapping`. Where
    /// `mapping` has no entry for one of them, the error names the
    /// first that lacks one.
    pub fn remap_qubits(&self, mapping: &HashMap<usize, usize>) -> (r: Result<Self, RoqoqoError>)
        ensures
            match r {
                Ok(gate) => covers(mapping@, self@.qubits) && gate@ == self@.remapped(mapping@),
                Err(error) => remapping(mapping@, self@.qubits) == Err::<Seq<usize>, RoqoqoError>(
                    error,
                ),
            },
    {
        match remap_qubit_list(&self.qubit_list(), mapping) {
            Ok(qubits) => {
                let gate = TripleControlledPauliZ {
                    control_0: qubits[0],
                    control_1: qubits[1],
                    control_2: qubits[2],
                    target: qubits[3],
                };
                assert(gate@.qubits =~= qubits@);
                Ok(gate)
            },
            Err(error) => Err(error),
        }
    }

    /// The first version of the library that knows this kind of gate.
    pub fn minimum_supported_roqoqo_version(&self) -> (r: (u32, u32, u32))
        ensures
            r == (1u32, 15u32, 0u32),
    {
        (1, 15, 0)
    }

    /// The unitary matrix: the identity but for the entry -1
    /// of the state |1111>. Its product with its conjugate transpose is the identity.
    pub fn unitary_matrix(&self) -> (r: Result<UnitaryMatrix, RoqoqoError>)
        ensures
            r matches Ok(matrix) && matrix@ == matrix_of(
                16,
                phase_on_last(16, EntryView::MinusOne),
            ),
            r matches Ok(matrix) && is_unitary(matrix@),
    {
        proof {
            lemma_phase_on_last_is_unitary(16, EntryView::MinusOne);
        }
        Ok(UnitaryMatrix::with_phase_on_last(16, Entry::MinusOne))
    }

    fn qubit_list(&self) -> (r: Vec<usize>)
        ensures
            r@ == self@.qubits,
    {
        let list = vec![self.control_0, self.control_1, self.control_2, self.target];
        assert(list@ =~= self@.qubits);
        list
    }
}

} // verus!
