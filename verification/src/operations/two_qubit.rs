//! Gates on two qubits.
use crate::calculator::{
    contents, multiplied, product, require_literal, same, symbolic_not_convertable, variables,
    SymbolicFloat,
};
use crate::error::RoqoqoError;
use crate::gate::{texts, viewed, GateKind, GateView};
use crate::laws::{lemma_substitution_outcome, lemma_substitution_without_parameters};
use crate::matrix::{
    exchange_of, exchange_of_last_two, is_finite, is_unitary, lemma_exchange_is_unitary,
    lemma_exchange_of_last_two_is_unitary, lemma_phase_on_last_is_unitary, matrix_of,
    phase_on_last, Entry, EntryView, UnitaryMatrix,
};
use crate::parameters::{collect, contents_of, evaluate_all, lemma_any_symbolic_of_one};
use crate::qubits::{covers, involved_set, remap_qubit_list, remapping, InvolvedQubits};
use qoqo_calculator::{Calculator, CalculatorError, CalculatorFloat};
use std::collections::HashMap;
use vstd::prelude::*;
use vstd::std_specs::cmp::PartialEqSpecImpl;

verus! {

/// The controlled NOT gate: flips `target` where `control` is |1>.
#[derive(Debug)]
pub struct CNOT {
    /// The controlling qubit, the more significant one in the unitary.
    control: usize,
    /// The qubit that is acted on, the less significant one in the unitary.
    target: usize,
}

impl View for CNOT {
    type V = GateView;

    closed spec fn view(&self) -> GateView {
        GateView::plain(
            GateKind::CNOT,
            seq![self.control, self.target],
            Seq::empty(),
        )
    }
}

impl Clone for CNOT {
    fn clone(&self) -> (copy: Self)
        ensures
            copy@ == self@,
    {
        CNOT { control: self.control, target: self.target }
    }
}

impl PartialEq for CNOT {
    fn eq(&self, other: &Self) -> (r: bool) {
        let r = self.control == other.control
            && self.target == other.target;
        proof {
            if r {
                assert(self@.qubits =~= other@.qubits);
            } else {
                assert(self@.qubits[0] == self.control && other@.qubits[0] == other.control);
                assert(self@.qubits[1] == self.target && other@.qubits[1] == other.target);
            }
        }
        r
    }
}

impl PartialEqSpecImpl for CNOT {
    open spec fn obeys_eq_spec() -> bool {
        true
    }

    open spec fn eq_spec(&self, other: &Self) -> bool {
        self@.equals(other@)
    }
}

impl CNOT {
    /// Creates a new instance.
    pub fn new(control: usize, target: usize) -> (gate: Self)
        ensures
            gate@ == GateView::plain(
                GateKind::CNOT,
                seq![control, target],
                Seq::empty(),
            ),
    {
        CNOT { control, target }
    }

    /// The shape of the view: the kind, and one entry for each field.
    pub proof fn lemma_view(&self)
        ensures
            self@ == GateView::plain(
                GateKind::CNOT,
                seq![self@.qubits[0], self@.qubits[1]],
                Seq::empty(),
            ),
            self@.well_formed(),
    {
    }

    /// The controlling qubit, the more significant one in the unitary.
    pub fn control(&self) -> (r: &usize)
        ensures
            *r == self@.qubits[0],
    {
        &self.control
    }

    /// The qubit that is acted on, the less significant one in the unitary.
    pub fn target(&self) -> (r: &usize)
        ensures
            *r == self@.qubits[1],
    {
        &self.target
    }

    /// The canonical name of this kind of gate.
    pub fn hqslang(&self) -> (r: &'static str)
        ensures
            r@ == GateKind::CNOT.name(),
    {
        GateKind::CNOT.hqslang()
    }

    /// The tags of this kind of gate; no field is read.
    pub fn tags(&self) -> (r: Vec<&'static str>)
        ensures
            texts(r@) == GateKind::CNOT.tag_chain(),
            r@.len() == GateKind::CNOT.tag_chain().len(),
    {
        GateKind::CNOT.tags()
    }

    /// There is no parameter, so this is never parametrized.
    pub fn is_parametrized(&self) -> (r: bool)
        ensures
            r == self@.is_parametrized(),
            !r,
    {
        false
    }

    /// The qubits that are acted on.
    pub fn involved_qubits(&self) -> (r: InvolvedQubits)
        ensures
            r matches InvolvedQubits::Qubits(set) && set@ == self@.involved(),
    {
        involved_set(&self.qubit_list())
    }

    /// There is no parameter: substitution returns a copy.
    pub fn substitute_parameters(&self, calculator: &Calculator) -> (r: Result<Self, RoqoqoError>)
        ensures
            r matches Ok(gate) && gate@ == self@ && self@.substitutes_to(gate@),
            self@.substitution(variables(*calculator), viewed(r)),
    {
        proof {
            lemma_substitution_without_parameters(self@, variables(*calculator));
        }
        Ok(self.clone())
    }

    /// A copy with each of its qubits replaced by the entry of `mapping`. Where
    /// `mapping` has no entry for one of them, the error names the
    /// first that lacks one.
    pub fn remap_qubits(&self, mapping: &HashMap<usize, usize>) -> (r: Result<Self, RoqoqoError>)
        ensures
            match r {
                Ok(gate) => covers(mapping@, self@.qubits) && gate@ == self@.remapped(mapping@),
                Err(error) => remapping(mapping@, self@.qubits) == Err::<Seq<usize>, RoqoqoError>(
                    error,
                ),
            },
    {
        match remap_qubit_list(&self.qubit_list(), mapping) {
            Ok(qubits) => {
                let gate = CNOT {
                    control: qubits[0],
                    target: qubits[1],
                };
                assert(gate@.qubits =~= qubits@);
                Ok(gate)
            },
            Err(error) => Err(error),
        }
    }

    /// The unitary matrix: the identity but for the states |10> and |11>,
    /// which are exchanged. Its product with its conjugate transpose is the identity.
    pub fn unitary_matrix(&self) -> (r: Result<UnitaryMatrix, RoqoqoError>)
        ensures
            r matches Ok(matrix) && matrix@ == matrix_of(4, exchange_of_last_two(4)),
            r matches Ok(matrix) && is_unitary(matrix@),
    {
        proof {
            lemma_exchange_of_last_two_is_unitary(4);
        }
        Ok(UnitaryMatrix::with_exchange_of_last_two(4))
    }

    fn qubit_list(&self) -> (r: Vec<usize>)
        ensures
            r@ == self@.qubits,
    {
        let list = vec![self.control, self.target];
        assert(list@ =~= self@.qubits);
        list
    }
}

/// The SWAP gate: exchanges the states of its two qubits.
#[derive(Debug)]
pub struct SWAP {
    /// The first qubit, the more significant one in the unitary.
    control: usize,
    /// The second qubit, the less significant one in the unitary.
    target: usize,
}

impl View for SWAP {
    type V = GateView;

    closed spec fn view(&self) -> GateView {
        GateView::plain(
            GateKind::SWAP,
            seq![self.control, self.target],
            Seq::empty(),
        )
    }
}

impl Clone for SWAP {
    fn clone(&self) -> (copy: Self)
        ensures
            copy@ == self@,
    {
        SWAP { control: self.control, target: self.target }
    }
}

impl PartialEq for SWAP {
    fn eq(&self, other: &Self) -> (r: bool) {
        let r = self.control == other.control
            && self.target == other.target;
        proof {
            if r {
                assert(self@.qubits =~= other@.qubits);
            } else {
                assert(self@.qubits[0] == self.control && other@.qubits[0] == other.control);
                assert(self@.qubits[1] == self.target && other@.qubits[1] == other.target);
            }
        }
        r
    }
}

impl PartialEqSpecImpl for SWAP {
    open spec fn obeys_eq_spec() -> bool {
        true
    }

    open spec fn eq_spec(&self, other: &Self) -> bool {
        self@.equals(other@)
    }
}

impl SWAP {
    /// Creates a new instance.
    pub fn new(control: usize, target: usize) -> (gate: Self)
        ensures
            gate@ == GateView::plain(
                GateKind::SWAP,
                seq![control, target],
                Seq::empty(),
            ),
    {
        SWAP { control, target }
    }

    /// The shape of the view: the kind, and one entry for each field.
    pub proof fn lemma_view(&self)
        ensures
            self@ == GateView::plain(
                GateKind::SWAP,
                seq![self@.qubits[0], self@.qubits[1]],
                Seq::empty(),
            ),
            self@.well_formed(),
    {
    }

    /// The first qubit, the more significant one in the unitary.
    pub fn control(&self) -> (r: &usize)
        ensures
            *r == self@.qubits[0],
    {
        &self.control
    }

    /// The second qubit, the less significant one in the unitary.
    pub fn target(&self) -> (r: &usize)
        ensures
            *r == self@.qubits[1],
    {
        &self.target
    }

    /// The canonical name of this kind of gate.
    pub fn hqslang(&self) -> (r: &'static str)
        ensures
            r@ == GateKind::SWAP.name(),
    {
        GateKind::SWAP.hqslang()
    }

    /// The tags of this kind of gate; no field is read.
    pub fn tags(&self) -> (r: Vec<&'static str>)
        ensures
            texts(r@) == GateKind::SWAP.tag_chain(),
            r@.len() == GateKind::SWAP.tag_chain().len(),
    {
        GateKind::SWAP.tags()
    }

    /// There is no parameter, so this is never parametrized.
    pub fn is_parametrized(&self) -> (r: bool)
        ensures
            r == self@.is_parametrized(),
            !r,
    {
        false
    }

    /// The qubits that are acted on.
    pub fn involved_qubits(&self) -> (r: InvolvedQubits)
        ensures
            r matches InvolvedQubits::Qubits(set) && set@ == self@.involved(),
    {
        involved_set(&self.qubit_list())
    }

    /// There is no parameter: substitution returns a copy.
    pub fn substitute_parameters(&self, calculator: &Calculator) -> (r: Result<Self, RoqoqoError>)
        ensures
            r matches Ok(gate) && gate@ == self@ && self@.substitutes_to(gate@),
            self@.substitution(variables(*calculator), viewed(r)),
    {
        proof {
            lemma_substitution_without_parameters(self@, variables(*calculator));
        }
        Ok(self.clone())
    }

    /// A copy with each of its qubits replaced by the entry of `mapping`. Where
    /// `mapping` has no entry for one of them, the error names the
    /// first that lacks one.
    pub fn remap_qubits(&self, mapping: &HashMap<usize, usize>) -> (r: Result<Self, RoqoqoError>)
        ensures
            match r {
                Ok(gate) => covers(mapping@, self@.qubits) && gate@ == self@.remapped(mapping@),
                Err(error) => remapping(mapping@, self@.qubits) == Err::<Seq<usize>, RoqoqoError>(
                    error,
                ),
            },
    {
        match remap_qubit_list(&self.qubit_list(), mapping) {
            Ok(qubits) => {
                let gate = SWAP {
                    control: qubits[0],
                    target: qubits[1],
                };
                assert(gate@.qubits =~= qubits@);
                Ok(gate)
            },
            Err(error) => Err(error),
        }
    }

    /// The unitary matrix: the identity but for the states |01> and |10>,
    /// which are exchanged. Its product with its conjugate transpose is the identity.
    pub fn unitary_matrix(&self) -> (r: Result<UnitaryMatrix, RoqoqoError>)
        ensures
            r matches Ok(matrix) && matrix@ == matrix_of(4, exchange_of(1, 2)),
            r matches Ok(matrix) && is_unitary(matrix@),
    {
        proof {
            lemma_exchange_is_unitary(4, 1, 2);
        }
        Ok(UnitaryMatrix::with_exchange(4, 1, 2))
    }

    fn qubit_list(&self) -> (r: Vec<usize>)
        ensures
            r@ == self@.qubits,
    {
        let list = vec![self.control, self.target];
        assert(list@ =~= self@.qubits);
        list
    }
}

/// The controlled phase shift: multiplies |11> by exp(i * theta).
#[derive(Debug)]
pub struct ControlledPhaseShift {
    /// The controlling qubit, the more significant one in the unitary.
    control: usize,
    /// The qubit that is acted on, the less significant one in the unitary.
    target: usize,
    /// The angle of the phase shift.
    theta: CalculatorFloat,
}

impl View for ControlledPhaseShift {
    type V = GateView;

    closed spec fn view(&self) -> GateView {
        GateView::plain(
            GateKind::ControlledPhaseShift,
            seq![self.control, self.target],
            seq![contents(self.theta)],
        )
    }
}

impl Clone for ControlledPhaseShift {
    fn clone(&self) -> (copy: Self)
        ensures
            copy@ == self@,
    {
        ControlledPhaseShift {
            control: self.control,
            target: self.target,
            theta: self.theta.clone(),
        }
    }
}

impl PartialEq for ControlledPhaseShift {
    fn eq(&self, other: &Self) -> (r: bool) {
        let r = self.control == other.control
            && self.target == other.target
            && same(&self.theta, &other.theta);
        proof {
            if r {
                assert(self@.qubits =~= other@.qubits);
            } else {
                assert(self@.qubits[0] == self.control && other@.qubits[0] == other.control);
                assert(self@.qubits[1] == self.target && other@.qubits[1] == other.target);
                assert(self@.parameters[0] == contents(self.theta));
                assert(other@.parameters[0] == contents(other.theta));
            }
        }
        r
    }
}

impl PartialEqSpecImpl for ControlledPhaseShift {
    open spec fn obeys_eq_spec() -> bool {
        true
    }

    open spec fn eq_spec(&self, other: &Self) -> bool {
        self@.equals(other@)
    }
}

impl ControlledPhaseShift {
    /// Creates a new instance.
    pub fn new(control: usize, target: usize, theta: CalculatorFloat) -> (gate: Self)
        ensures
            gate@ == GateView::plain(
                GateKind::ControlledPhaseShift,
                seq![control, target],
                seq![contents(theta)],
            ),
    {
        ControlledPhaseShift { control, target, theta }
    }

    /// The shape of the view: the kind, and one entry for each field.
    pub proof fn lemma_view(&self)
        ensures
            self@ == GateView::plain(
                GateKind::ControlledPhaseShift,
                seq![self@.qubits[0], self@.qubits[1]],
                seq![self@.parameters[0]],
            ),
            self@.well_formed(),
    {
    }

    /// The controlling qubit, the more significant one in the unitary.
    pub fn control(&self) -> (r: &usize)
        ensures
            *r == self@.qubits[0],
    {
        &self.control
    }

    /// The qubit that is acted on, the less significant one in the unitary.
    pub fn target(&self) -> (r: &usize)
        ensures
            *r == self@.qubits[1],
    {
        &self.target
    }

    /// The angle of the phase shift.
    pub fn theta(&self) -> (r: &CalculatorFloat)
        ensures
            contents(*r) == self@.parameters[0],
    {
        &self.theta
    }

    /// The canonical name of this kind of gate.
    pub fn hqslang(&self) -> (r: &'static str)
        ensures
            r@ == GateKind::ControlledPhaseShift.name(),
    {
        GateKind::ControlledPhaseShift.hqslang()
    }

    /// The tags of this kind of gate; no field is read.
    pub fn tags(&self) -> (r: Vec<&'static str>)
        ensures
            texts(r@) == GateKind::ControlledPhaseShift.tag_chain(),
            r@.len() == GateKind::ControlledPhaseShift.tag_chain().len(),
    {
        GateKind::ControlledPhaseShift.tags()
    }

    /// Parametrized where `theta` is an expression.
    pub fn is_parametrized(&self) -> (r: bool)
        ensures
            r == self@.is_parametrized(),
    {
        proof {
            lemma_any_symbolic_of_one(contents(self.theta));
        }
        !self.theta.is_float()
    }

    /// The qubits that are acted on.
    pub fn involved_qubits(&self) -> (r: InvolvedQubits)
        ensures
            r matches InvolvedQubits::Qubits(set) && set@ == self@.involved(),
    {
        involved_set(&self.qubit_list())
    }

    /// What the answers of the calculator to the parameters make of this
    /// gate: where every answer is a number, a copy with these numbers as
    /// its parameters, each in the place of the parameter it answers; else
    /// the first error among the answers, and no copy.
    pub fn with_answers(
        &self,
        given: Vec<Result<CalculatorFloat, CalculatorError>>,
    ) -> (r: Result<Self, RoqoqoError>)
        requires
            given@.len() == self@.parameters.len(),
        ensures
            viewed(r) == self@.with_answers(given@),
    {
        match collect(given) {
            Ok(values) => {
                let gate = ControlledPhaseShift {
                    control: self.control,
                    target: self.target,
                    theta: values[0].clone(),
                };
                assert(gate@.parameters =~= contents_of(values@));
                Ok(gate)
            },
            Err(error) => Err(RoqoqoError::CalculatorError(error)),
        }
    }

    /// Asks `calculator` for its parameter and returns what `with_answers` makes
    /// with these answers. A parameter that is a number is answered by
    /// itself; the name of a variable by the value that `calculator` holds
    /// for it, or by an error where it holds none; a text that cannot be
    /// handed to the parser by an error. Where an answer is an error, the
    /// first such error is returned and no copy.
    pub fn substitute_parameters(&self, calculator: &Calculator) -> (r: Result<Self, RoqoqoError>)
        ensures
            self@.substitution(variables(*calculator), viewed(r)),
            match r {
                Ok(gate) => self@.substitutes_to(gate@),
                Err(error) => error is CalculatorError && self@.is_parametrized(),
            },
            !self@.is_parametrized() ==> (r matches Ok(gate) && gate@ == self@),
    {
        let given = evaluate_all(&self.parameter_list(), calculator);
        let ghost asked = given@;
        let r = self.with_answers(given);
        proof {
            assert(viewed(r) == self@.with_answers(asked));
            lemma_substitution_outcome(self@, variables(*calculator), viewed(r));
        }
        r
    }

    /// A copy with each of its qubits replaced by the entry of `mapping`. Where
    /// `mapping` has no entry for one of them, the error names the
    /// first that lacks one.
    pub fn remap_qubits(&self, mapping: &HashMap<usize, usize>) -> (r: Result<Self, RoqoqoError>)
        ensures
            match r {
                Ok(gate) => covers(mapping@, self@.qubits) && gate@ == self@.remapped(mapping@),
                Err(error) => remapping(mapping@, self@.qubits) == Err::<Seq<usize>, RoqoqoError>(
                    error,
                ),
            },
    {
        match remap_qubit_list(&self.qubit_list(), mapping) {
            Ok(qubits) => {
                let gate = ControlledPhaseShift {
                    control: qubits[0],
                    target: qubits[1],
                    theta: self.theta.clone(),
                };
                assert(gate@.qubits =~= qubits@);
                Ok(gate)
            },
            Err(error) => Err(error),
        }
    }

    /// The power of this gate with the exponent `power`: `theta` is multiplied by it.
    pub fn powercf(&self, power: CalculatorFloat) -> (gate: Self)
        ensures
            gate@ == self@.with_parameters(
                seq![multiplied(contents(power), self@.parameters[0])],
            ),
            contents(power) is Literal && !self@.is_parametrized() ==> !gate@.is_parametrized(),
    {
        let gate = ControlledPhaseShift {
            control: self.control,
            target: self.target,
            theta: product(&power, &self.theta),
        };
        assert(gate@.parameters =~= seq![multiplied(contents(power), self@.parameters[0])]);
        proof {
            if contents(power) is Literal && !self@.is_parametrized() {
                assert forall|i: int| 0 <= i < 1 implies !(
                #[trigger] self@.parameters[i] is Symbolic) by {}
                assert forall|i: int| 0 <= i < 1 implies !(
                #[trigger] gate@.parameters[i] is Symbolic) by {}
            }
        }
        gate
    }

    /// The unitary matrix: the identity but for the entry
    /// exp(i * theta) of the state |11>. For a finite angle its product
    /// with its conjugate transpose is the identity. An angle that is an
    /// expression gives the error that carries its text.
    pub fn unitary_matrix(&self) -> (r: Result<UnitaryMatrix, RoqoqoError>)
        ensures
            match self@.parameters[0] {
                SymbolicFloat::Literal(_) => r matches Ok(matrix) && matrix@ == matrix_of(
                    4,
                    phase_on_last(4, EntryView::Phase(self@.parameters[0])),
                ) && (is_finite(self@.parameters[0]) ==> is_unitary(matrix@)),
                SymbolicFloat::Symbolic(text) => r == Err::<UnitaryMatrix, RoqoqoError>(
                    RoqoqoError::CalculatorError(symbolic_not_convertable(text)),
                ),
            },
    {
        proof {
            if is_finite(self@.parameters[0]) {
                lemma_phase_on_last_is_unitary(4, EntryView::Phase(self@.parameters[0]));
            }
        }
        match require_literal(&self.theta) {
            Ok(_) => Ok(
                UnitaryMatrix::with_phase_on_last(4, Entry::Phase(self.theta.clone())),
            ),
            Err(error) => Err(RoqoqoError::CalculatorError(error)),
        }
    }

    fn qubit_list(&self) -> (r: Vec<usize>)
        ensures
            r@ == self@.qubits,
    {
        let list = vec![self.control, self.target];
        assert(list@ =~= self@.qubits);
        list
    }

    fn parameter_list(&self) -> (r: Vec<CalculatorFloat>)
        ensures
            contents_of(r@) == self@.parameters,
    {
        let list = vec![self.theta.clone()];
        assert(contents_of(list@) =~= self@.parameters);
        list
    }
}

} // verus!
