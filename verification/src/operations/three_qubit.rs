//! Gates on three qubits.
use crate::calculator::{
    contents, multiplied, product, require_literal, same, symbolic_not_convertable, variables,
    SymbolicFloat,
};
use crate::error::RoqoqoError;
use crate::gate::{texts, viewed, GateKind, GateView};
use crate::laws::{lemma_substitution_outcome, lemma_substitution_without_parameters};
use crate::matrix::{
    is_finite, is_unitary, lemma_phase_on_last_is_unitary, matrix_of, phase_on_last, Entry,
    EntryView, UnitaryMatrix,
};
use crate::parameters::{collect, contents_of, evaluate_all, lemma_any_symbolic_of_one};
use crate::qubits::{covers, involved_set, remap_qubit_list, remapping, InvolvedQubits};
use qoqo_calculator::{Calculator, CalculatorError, CalculatorFloat};
use std::collections::HashMap;
use vstd::prelude::*;
use vstd::std_specs::cmp::PartialEqSpecImpl;

verus! {

/// The doubly controlled Pauli Z gate: applies Z to `target` where both
/// controls are |1>.
#[derive(Debug)]
pub struct ControlledControlledPauliZ {
    /// The first controlling qubit, the most significant one in the unitary.
    control_0: usize,
    /// The second controlling qubit.
    control_1: usize,
    /// The qubit that is acted on, the least significant one in the unitary.
    target: usize,
}

impl View for ControlledControlledPauliZ {
    type V = GateView;

    closed spec fn view(&self) -> GateView {
        GateView::plain(
            GateKind::ControlledControlledPauliZ,
            seq![self.control_0, self.control_1, self.target],
            Seq::empty(),
        )
    }
}

impl Clone for ControlledControlledPauliZ {
    fn clone(&self) -> (copy: Self)
        ensures
            copy@ == self@,
    {
        ControlledControlledPauliZ {
            control_0: self.control_0,
            control_1: self.control_1,
            target: self.target,
        }
    }
}

impl PartialEq for ControlledControlledPauliZ {
    fn eq(&self, other: &Self) -> (r: bool) {
        let r = self.control_0 == other.control_0
            && self.control_1 == other.control_1
            && self.target == other.target;
        proof {
            if r {
                assert(self@.qubits =~= other@.qubits);
            } else {
                assert(self@.qubits[0] == self.control_0 && other@.qubits[0] == other.control_0);
                assert(self@.qubits[1] == self.control_1 && other@.qubits[1] == other.control_1);
                assert(self@.qubits[2] == self.target && other@.qubits[2] == other.target);
            }
        }
        r
    }
}

impl PartialEqSpecImpl for ControlledControlledPauliZ {
    open spec fn obeys_eq_spec() -> bool {
        true
    }

    open spec fn eq_spec(&self, other: &Self) -> bool {
        self@.equals(other@)
    }
}

impl ControlledControlledPauliZ {
    /// Creates a new instance.
    pub fn new(control_0: usize, control_1: usize, target: usize) -> (gate: Self)
        ensures
            gate@ == GateView::plain(
                GateKind::ControlledControlledPauliZ,
                seq![control_0, control_1, target],
                Seq::empty(),
            ),
    {
        ControlledControlledPauliZ { control_0, control_1, target }
    }

    /// The shape of the view: the kind, and one entry for each field.
    pub proof fn lemma_view(&self)
        ensures
            self@ == GateView::plain(
                GateKind::ControlledControlledPauliZ,
                seq![self@.qubits[0], self@.qubits[1], self@.qubits[2]],
                Seq::empty(),
            ),
            self@.well_formed(),
    {
    }

    /// The first controlling qubit, the most significant one in the unitary.
    pub fn control_0(&self) -> (r: &usize)
        ensures
            *r == self@.qubits[0],
    {
        &self.control_0
    }

    /// The second controlling qubit.
    pub fn control_1(&self) -> (r: &usize)
        ensures
            *r == self@.qubits[1],
    {
        &self.control_1
    }

    /// The qubit that is acted on, the least significant one in the unitary.
    pub fn target(&self) -> (r: &usize)
        ensures
            *r == self@.qubits[2],
    {
        &self.target
    }

    /// The canonical name of this kind of gate.
    pub fn hqslang(&self) -> (r: &'static str)
        ensures
            r@ == GateKind::ControlledControlledPauliZ.name(),
    {
        GateKind::ControlledControlledPauliZ.hqslang()
    }

    /// The tags of this kind of gate; no field is read.
    pub fn tags(&self) -> (r: Vec<&'static str>)
        ensures
            texts(r@) == GateKind::ControlledControlledPauliZ.tag_chain(),
            r@.len() == GateKind::ControlledControlledPauliZ.tag_chain().len(),
    {
        GateKind::ControlledControlledPauliZ.tags()
    }

    /// There is no parameter, so this is never parametrized.
    pub fn is_parametrized(&self) -> (r: bool)
        ensures
            r == self@.is_parametrized(),
            !r,
    {
        false
    }

    /// The qubits that are acted on.
    pub fn involved_qubits(&self) -> (r: InvolvedQubits)
        ensures
            r matches InvolvedQubits::Qubits(set) && set@ == self@.involved(),
    {
        involved_set(&self.qubit_list())
    }

    /// There is no parameter: substitution returns a copy.
    pub fn substitute_parameters(&self, calculator: &Calculator) -> (r: Result<Self, RoqoqoError>)
        ensures
            r matches Ok(gate) && gate@ == self@ && self@.substitutes_to(gate@),
            self@.substitution(variables(*calculator), viewed(r)),
    {
        proof {
            lemma_substitution_without_parameters(self@, variables(*calculator));
        }
        Ok(self.clone())
    }

    /// A copy with each of its qubits replaced by the entry of `mapping`. Where
    /// `mapping` has no entry for one of them, the error names the
    /// first that lacks one.
    pub fn remap_qubits(&self, mapping: &HashMap<usize, usize>) -> (r: Result<Self, RoqoqoError>)
        ensures
            match r {
                Ok(gate) => covers(mapping@, self@.qubits) && gate@ == self@.remapped(mapping@),
                Err(error) => remapping(mapping@, self@.qubits) == Err::<Seq<usize>, RoqoqoError>(
                    error,
                ),
            },
    {
        match remap_qubit_list(&self.qubit_list(), mapping) {
            Ok(qubits) => {
                let gate = ControlledControlledPauliZ {
                    control_0: qubits[0],
                    control_1: qubits[1],
                    target: qubits[2],
                };
                assert(gate@.qubits =~= qubits@);
                Ok(gate)
            },
            Err(error) => Err(error),
        }
    }

    /// The unitary matrix: the identity but for the entry -1
    /// of the state |111>. Its product with its conjugate transpose is the identity.
    pub fn unitary_matrix(&self) -> (r: Result<UnitaryMatrix, RoqoqoError>)
        ensures
            r matches Ok(matrix) && matrix@ == matrix_of(8, phase_on_last(8, EntryView::MinusOne)),
            r matches Ok(matrix) && is_unitary(matrix@),
    {
        proof {
            lemma_phase_on_last_is_unitary(8, EntryView::MinusOne);
        }
        Ok(UnitaryMatrix::with_phase_on_last(8, Entry::MinusOne))
    }

    fn qubit_list(&self) -> (r: Vec<usize>)
        ensures
            r@ == self@.qubits,
    {
        let list = vec![self.control_0, self.control_1, self.target];
        assert(list@ =~= self@.qubits);
        list
    }
}

/// The doubly controlled phase shift: multiplies |111> by exp(i * theta).
#[derive(Debug)]
pub struct ControlledControlledPhaseShift {
    /// The first controlling qubit, the most significant one in the unitary.
    control_0: usize,
    /// The second controlling qubit.
    control_1: usize,
    /// The qubit that is acted on, the least significant one in the unitary.
    target: usize,
    /// The angle of the phase shift.
    theta: CalculatorFloat,
}

impl View for ControlledControlledPhaseShift {
    type V = GateView;

    closed spec fn view(&self) -> GateView {
        GateView::plain(
            GateKind::ControlledControlledPhaseShift,
            seq![self.control_0, self.control_1, self.target],
            seq![contents(self.theta)],
        )
    }
}

impl Clone for ControlledControlledPhaseShift {
    fn clone(&self) -> (copy: Self)
        ensures
            copy@ == self@,
    {
        ControlledControlledPhaseShift {
            control_0: self.control_0,
            control_1: self.control_1,
            target: self.target,
            theta: self.theta.clone(),
        }
    }
}

impl PartialEq for ControlledControlledPhaseShift {
    fn eq(&self, other: &Self) -> (r: bool) {
        let r = self.control_0 == other.control_0
            && self.control_1 == other.control_1
            && self.target == other.target
            && same(&self.theta, &other.theta);
        proof {
            if r {
                assert(self@.qubits =~= other@.qubits);
            } else {
                assert(self@.qubits[0] == self.control_0 && other@.qubits[0] == other.control_0);
                assert(self@.qubits[1] == self.control_1 && other@.qubits[1] == other.control_1);
                assert(self@.qubits[2] == self.target && other@.qubits[2] == other.target);
                assert(self@.parameters[0] == contents(self.theta));
                assert(other@.parameters[0] == contents(other.theta));
            }
        }
        r
    }
}

impl PartialEqSpecImpl for ControlledControlledPhaseShift {
    open spec fn obeys_eq_spec() -> bool {
        true
    }

    open spec fn eq_spec(&self, other: &Self) -> bool {
        self@.equals(other@)
    }
}

impl ControlledControlledPhaseShift {
    /// Creates a new instance.
    pub fn new(
        control_0: usize,
        control_1: usize,
        target: usize,
        theta: CalculatorFloat,
    ) -> (gate: Self)
        ensures
            gate@ == GateView::plain(
                GateKind::ControlledControlledPhaseShift,
                seq![control_0, control_1, target],
                seq![contents(theta)],
            ),
    {
        ControlledControlledPhaseShift { control_0, control_1, target, theta }
    }

    /// The shape of the view: the kind, and one entry for each field.
    pub proof fn lemma_view(&self)
        ensures
            self@ == GateView::plain(
                GateKind::ControlledControlledPhaseShift,
                seq![self@.qubits[0], self@.qubits[1], self@.qubits[2]],
                seq![self@.parameters[0]],
            ),
            self@.well_formed(),
    {
    }

    /// The first controlling qubit, the most significant one in the unitary.
    pub fn control_0(&self) -> (r: &usize)
        ensures
            *r == self@.qubits[0],
    {
        &self.control_0
    }

    /// The second controlling qubit.
    pub fn control_1(&self) -> (r: &usize)
        ensures
            *r == self@.qubits[1],
    {
        &self.control_1
    }

    /// The qubit that is acted on, the least significant one in the unitary.
    pub fn target(&self) -> (r: &usize)
        ensures
            *r == self@.qubits[2],
    {
        &self.target
    }

    /// The angle of the phase shift.
    pub fn theta(&self) -> (r: &CalculatorFloat)
        ensures
            contents(*r) == self@.parameters[0],
    {
        &self.theta
    }

    /// The canonical name of this kind of gate.
    pub fn hqslang(&self) -> (r: &'static str)
        ensures
            r@ == GateKind::ControlledControlledPhaseShift.name(),
    {
        GateKind::ControlledControlledPhaseShift.hqslang()
    }

    /// The tags of this kind of gate; no field is read.
    pub fn tags(&self) -> (r: Vec<&'static str>)
        ensures
            texts(r@) == GateKind::ControlledControlledPhaseShift.tag_chain(),
            r@.len() == GateKind::ControlledControlledPhaseShift.tag_chain().len(),
    {
        GateKind::ControlledControlledPhaseShift.tags()
    }

    /// Parametrized where `theta` is an expression.
    pub fn is_parametrized(&self) -> (r: bool)
        ensures
            r == self@.is_parametrized(),
    {
        proof {
            lemma_any_symbolic_of_one(contents(self.theta));
        }
        !self.theta.is_float()
    }

    /// The qubits that are acted on.
    pub fn involved_qubits(&self) -> (r: InvolvedQubits)
        ensures
            r matches InvolvedQubits::Qubits(set) && set@ == self@.involved(),
    {
        involved_set(&self.qubit_list())
    }

    /// What the answers of the calculator to the parameters make of this
    /// gate: where every answer is a number, a copy with these numbers as
    /// its parameters, each in the place of the parameter it answers; else
    /// the first error among the answers, and no copy.
    pub fn with_answers(
        &self,
        given: Vec<Result<CalculatorFloat, CalculatorError>>,
    ) -> (r: Result<Self, RoqoqoError>)
        requires
            given@.len() == self@.parameters.len(),
        ensures
            viewed(r) == self@.with_answers(given@),
    {
        match collect(given) {
            Ok(values) => {
                let gate = ControlledControlledPhaseShift {
                    control_0: self.control_0,
                    control_1: self.control_1,
                    target: self.target,
                    theta: values[0].clone(),
                };
                assert(gate@.parameters =~= contents_of(values@));
                Ok(gate)
            },
            Err(error) => Err(RoqoqoError::CalculatorError(error)),
        }
    }

    /// Asks `calculator` for its parameter and returns what `with_answers` makes
    /// with these answers. A parameter that is a number is answered by
    /// itself; the name of a variable by the value that `calculator` holds
    /// for it, or by an error where it holds none; a text that cannot be
    /// handed to the parser by an error. Where an answer is an error, the
    /// first such error is returned and no copy.
    pub fn substitute_parameters(&self, calculator: &Calculator) -> (r: Result<Self, RoqoqoError>)
        ensures
            self@.substitution(variables(*calculator), viewed(r)),
            match r {
                Ok(gate) => self@.substitutes_to(gate@),
                Err(error) => error is CalculatorError && self@.is_parametrized(),
            },
            !self@.is_parametrized() ==> (r matches Ok(gate) && gate@ == self@),
    {
        let given = evaluate_all(&self.parameter_list(), calculator);
        let ghost asked = given@;
        let r = self.with_answers(given);
        proof {
            assert(viewed(r) == self@.with_answers(asked));
            lemma_substitution_outcome(self@, variables(*calculator), viewed(r));
        }
        r
    }

    /// A copy with each of its qubits replaced by the entry of `mapping`. Where
    /// `mapping` has no entry for one of them, the error names the
    /// first that lacks one.
    pub fn remap_qubits(&self, mapping: &HashMap<usize, usize>) -> (r: Result<Self, RoqoqoError>)
        ensures
            match r {
                Ok(gate) => covers(mapping@, self@.qubits) && gate@ == self@.remapped(mapping@),
                Err(error) => remapping(mapping@, self@.qubits) == Err::<Seq<usize>, RoqoqoError>(
                    error,
                ),
            },
    {
        match remap_qubit_list(&self.qubit_list(), mapping) {
            Ok(qubits) => {
                let gate = ControlledControlledPhaseShift {
                    control_0: qubits[0],
                    control_1: qubits[1],
                    target: qubits[2],
                    theta: self.theta.clone(),
                };
                assert(gate@.qubits =~= qubits@);
                Ok(gate)
            },
            Err(error) => Err(error),
        }
    }

    /// The power of this gate with the exponent `power`: `theta` is multiplied by it.
    pub fn powercf(&self, power: CalculatorFloat) -> (gate: Self)
        ensures
            gate@ == self@.with_parameters(
                seq![multiplied(contents(power), self@.parameters[0])],
            ),
            contents(power) is Literal && !self@.is_parametrized() ==> !gate@.is_parametrized(),
    {
        let gate = ControlledControlledPhaseShift {
            control_0: self.control_0,
            control_1: self.control_1,
            target: self.target,
            theta: product(&power, &self.theta),
        };
        assert(gate@.parameters =~= seq![multiplied(contents(power), self@.parameters[0])]);
        proof {
            if contents(power) is Literal && !self@.is_parametrized() {
                assert forall|i: int| 0 <= i < 1 implies !(
                #[trigger] self@.parameters[i] is Symbolic) by {}
                assert forall|i: int| 0 <= i < 1 implies !(
                #[trigger] gate@.parameters[i] is Symbolic) by {}
            }
        }
        gate
    }

    /// The unitary matrix: the identity but for the entry
    /// exp(i * theta) of the state |111>. For a finite angle its product
    /// with its conjugate transpose is the identity. An angle that is an
    /// expression gives the error that carries its text.
    pub fn unitary_matrix(&self) -> (r: Result<UnitaryMatrix, RoqoqoError>)
        ensures
            match self@.parameters[0] {
                SymbolicFloat::Literal(_) => r matches Ok(matrix) && matrix@ == matrix_of(
                    8,
                    phase_on_last(8, EntryView::Phase(self@.parameters[0])),
                ) && (is_finite(self@.parameters[0]) ==> is_unitary(matrix@)),
                SymbolicFloat::Symbolic(text) => r == Err::<UnitaryMatrix, RoqoqoError>(
                    RoqoqoError::CalculatorError(symbolic_not_convertable(text)),
                ),
            },
    {
        proof {
            if is_finite(self@.parameters[0]) {
                lemma_phase_on_last_is_unitary(8, EntryView::Phase(self@.parameters[0]));
            }
        }
        match require_literal(&self.theta) {
            Ok(_) => Ok(
                UnitaryMatrix::with_phase_on_last(8, Entry::Phase(self.theta.clone())),
            ),
            Err(error) => Err(RoqoqoError::CalculatorError(error)),
        }
    }

    fn qubit_list(&self) -> (r: Vec<usize>)
        ensures
            r@ == self@.qubits,
    {
        let list = vec![self.control_0, self.control_1, self.target];
        assert(list@ =~= self@.qubits);
        list
    }

    fn parameter_list(&self) -> (r: Vec<CalculatorFloat>)
        ensures
            contents_of(r@) == self@.parameters,
    {
        let list = vec![self.theta.clone()];
        assert(contents_of(list@) =~= self@.parameters);
        list
    }
}

} // verus!
