//! Gates on one qubit.
use crate::calculator::{
    contents, multiplied, product, require_literal, same, symbolic_not_convertable, variables,
    SymbolicFloat,
};
use crate::error::RoqoqoError;
use crate::gate::{texts, viewed, GateKind, GateView};
use crate::laws::{lemma_substitution_outcome, lemma_substitution_without_parameters};
use crate::matrix::{
    is_finite, is_unitary, lemma_phase_on_last_is_unitary, matrix_of, phase_on_last, Entry,
    EntryView, UnitaryMatrix,
};
use crate::parameters::{
    collect, contents_of, evaluate_all, has_symbolic, lemma_any_symbolic_of_one,
};
use crate::qubits::{covers, involved_set, remap_qubit_list, remapping, InvolvedQubits};
use qoqo_calculator::{Calculator, CalculatorError, CalculatorFloat};
use std::collections::HashMap;
use vstd::prelude::*;
use vstd::std_specs::cmp::PartialEqSpecImpl;

verus! {

/// The general gate on one qubit, given by two complex numbers alpha and
/// beta and a global phase:
/// U = exp(i * phase) * [[alpha, -conj(beta)], [beta, conj(alpha)]].
/// It is unitary where |alpha|^2 + |beta|^2 = 1.
#[derive(Debug)]
pub struct SingleQubitGate {
    /// The qubit that is acted on.
    qubit: usize,
    /// The real part of alpha, the on-diagonal element.
    alpha_r: CalculatorFloat,
    /// The imaginary part of alpha.
    alpha_i: CalculatorFloat,
    /// The real part of beta, the off-diagonal element.
    beta_r: CalculatorFloat,
    /// The imaginary part of beta.
    beta_i: CalculatorFloat,
    /// The global phase.
    global_phase: CalculatorFloat,
}

impl View for SingleQubitGate {
    type V = GateView;

    closed spec fn view(&self) -> GateView {
        GateView::plain(
            GateKind::SingleQubitGate,
            seq![self.qubit],
            seq![
                contents(self.alpha_r),
                contents(self.alpha_i),
                contents(self.beta_r),
                contents(self.beta_i),
                contents(self.global_phase),
            ],
        )
    }
}

impl Clone for SingleQubitGate {
    fn clone(&self) -> (copy: Self)
        ensures
            copy@ == self@,
    {
        SingleQubitGate {
            qubit: self.qubit,
            alpha_r: self.alpha_r.clone(),
            alpha_i: self.alpha_i.clone(),
            beta_r: self.beta_r.clone(),
            beta_i: self.beta_i.clone(),
            global_phase: self.global_phase.clone(),
        }
    }
}

impl PartialEq for SingleQubitGate {
    fn eq(&self, other: &Self) -> (r: bool) {
        let r = self.qubit == other.qubit
            && same(&self.alpha_r, &other.alpha_r)
            && same(&self.alpha_i, &other.alpha_i)
            && same(&self.beta_r, &other.beta_r)
            && same(&self.beta_i, &other.beta_i)
            && same(&self.global_phase, &other.global_phase);
        proof {
            if r {
                assert(self@.qubits =~= other@.qubits);
            } else {
                assert(self@.qubits[0] == self.qubit && other@.qubits[0] == other.qubit);
                assert(self@.parameters[0] == contents(self.alpha_r));
                assert(other@.parameters[0] == contents(other.alpha_r));
                assert(self@.parameters[1] == contents(self.alpha_i));
                assert(other@.parameters[1] == contents(other.alpha_i));
                assert(self@.parameters[2] == contents(self.beta_r));
                assert(other@.parameters[2] == contents(other.beta_r));
                assert(self@.parameters[3] == contents(self.beta_i));
                assert(other@.parameters[3] == contents(other.beta_i));
                assert(self@.parameters[4] == contents(self.global_phase));
                assert(other@.parameters[4] == contents(other.global_phase));
            }
        }
        r
    }
}

impl PartialEqSpecImpl for SingleQubitGate {
    open spec fn obeys_eq_spec() -> bool {
        true
    }

    open spec fn eq_spec(&self, other: &Self) -> bool {
        self@.equals(other@)
    }
}

impl SingleQubitGate {
    /// Creates a new instance.
    pub fn new(
        qubit: usize,
        alpha_r: CalculatorFloat,
        alpha_i: CalculatorFloat,
        beta_r: CalculatorFloat,
        beta_i: CalculatorFloat,
        global_phase: CalculatorFloat,
    ) -> (gate: Self)
        ensures
            gate@ == GateView::plain(
                GateKind::SingleQubitGate,
                seq![qubit],
                seq![
                    contents(alpha_r),
                    contents(alpha_i),
                    contents(beta_r),
                    contents(beta_i),
                    contents(global_phase),
                ],
            ),
    {
        SingleQubitGate { qubit, alpha_r, alpha_i, beta_r, beta_i, global_phase }
    }

    /// The shape of the view: the kind, and one entry for each field.
    pub proof fn lemma_view(&self)
        ensures
            self@ == GateView::plain(
                GateKind::SingleQubitGate,
                seq![self@.qubits[0]],
                seq![
                    self@.parameters[0],
                    self@.parameters[1],
                    self@.parameters[2],
                    self@.parameters[3],
                    self@.parameters[4],
                ],
            ),
            self@.well_formed(),
    {
    }

    /// The qubit that is acted on.
    pub fn qubit(&self) -> (r: &usize)
        ensures
            *r == self@.qubits[0],
    {
        &self.qubit
    }

    /// The real part of alpha, the on-diagonal element.
    pub fn alpha_r(&self) -> (r: &CalculatorFloat)
        ensures
            contents(*r) == self@.parameters[0],
    {
        &self.alpha_r
    }

    /// The imaginary part of alpha.
    pub fn alpha_i(&self) -> (r: &CalculatorFloat)
        ensures
            contents(*r) == self@.parameters[1],
    {
        &self.alpha_i
    }

    /// The real part of beta, the off-diagonal element.
    pub fn beta_r(&self) -> (r: &CalculatorFloat)
        ensures
            contents(*r) == self@.parameters[2],
    {
        &self.beta_r
    }

    /// The imaginary part of beta.
    pub fn beta_i(&self) -> (r: &CalculatorFloat)
        ensures
            contents(*r) == self@.parameters[3],
    {
        &self.beta_i
    }

    /// The global phase.
    pub fn global_phase(&self) -> (r: &CalculatorFloat)
        ensures
            contents(*r) == self@.parameters[4],
    {
        &self.global_phase
    }

    /// The canonical name of this kind of gate.
    pub fn hqslang(&self) -> (r: &'static str)
        ensures
            r@ == GateKind::SingleQubitGate.name(),
    {
        GateKind::SingleQubitGate.hqslang()
    }

    /// The tags of this kind of gate; no field is read.
    pub fn tags(&self) -> (r: Vec<&'static str>)
        ensures
            texts(r@) == GateKind::SingleQubitGate.tag_chain(),
            r@.len() == GateKind::SingleQubitGate.tag_chain().len(),
    {
        GateKind::SingleQubitGate.tags()
    }

    /// Parametrized where one of its parameters is an expression.
    pub fn is_parametrized(&self) -> (r: bool)
        ensures
            r == self@.is_parametrized(),
    {
        has_symbolic(&self.parameter_list())
    }

    /// The qubits that are acted on.
    pub fn involved_qubits(&self) -> (r: InvolvedQubits)
        ensures
            r matches InvolvedQubits::Qubits(set) && set@ == self@.involved(),
    {
        involved_set(&self.qubit_list())
    }

    /// What the answers of the calculator to the parameters make of this
    /// gate: where every answer is a number, a copy with these numbers as
    /// its parameters, each in the place of the parameter it answers; else
    /// the first error among the answers, and no copy.
    pub fn with_answers(
        &self,
        given: Vec<Result<CalculatorFloat, CalculatorError>>,
    ) -> (r: Result<Self, RoqoqoError>)
        requires
            given@.len() == self@.parameters.len(),
        ensures
            viewed(r) == self@.with_answers(given@),
    {
        match collect(given) {
            Ok(values) => {
                let gate = SingleQubitGate {
                    qubit: self.qubit,
                    alpha_r: values[0].clone(),
                    alpha_i: values[1].clone(),
                    beta_r: values[2].clone(),
                    beta_i: values[3].clone(),
                    global_phase: values[4].clone(),
                };
                assert(gate@.parameters =~= contents_of(values@));
                Ok(gate)
            },
            Err(error) => Err(RoqoqoError::CalculatorError(error)),
        }
    }

    /// Asks `calculator` for every parameter and returns what `with_answers` makes
    /// with these answers. A parameter that is a number is answered by
    /// itself; the name of a variable by the value that `calculator` holds
    /// for it, or by an error where it holds none; a text that cannot be
    /// handed to the parser by an error. Where an answer is an error, the
    /// first such error is returned and no copy.
    pub fn substitute_parameters(&self, calculator: &Calculator) -> (r: Result<Self, RoqoqoError>)
        ensures
            self@.substitution(variables(*calculator), viewed(r)),
            match r {
                Ok(gate) => self@.substitutes_to(gate@),
                Err(error) => error is CalculatorError && self@.is_parametrized(),
            },
            !self@.is_parametrized() ==> (r matches Ok(gate) && gate@ == self@),
    {
        let given = evaluate_all(&self.parameter_list(), calculator);
        let ghost asked = given@;
        let r = self.with_answers(given);
        proof {
            assert(viewed(r) == self@.with_answers(asked));
            lemma_substitution_outcome(self@, variables(*calculator), viewed(r));
        }
        r
    }

    /// A copy with its qubit replaced by the entry of `mapping`. Where
    /// `mapping` has no entry for one of them, the error names the
    /// first that lacks one.
    pub fn remap_qubits(&self, mapping: &HashMap<usize, usize>) -> (r: Result<Self, RoqoqoError>)
        ensures
            match r {
                Ok(gate) => covers(mapping@, self@.qubits) && gate@ == self@.remapped(mapping@),
                Err(error) => remapping(mapping@, self@.qubits) == Err::<Seq<usize>, RoqoqoError>(
                    error,
                ),
            },
    {
        match remap_qubit_list(&self.qubit_list(), mapping) {
            Ok(qubits) => {
                let gate = SingleQubitGate {
                    qubit: qubits[0],
                    alpha_r: self.alpha_r.clone(),
                    alpha_i: self.alpha_i.clone(),
                    beta_r: self.beta_r.clone(),
                    beta_i: self.beta_i.clone(),
                    global_phase: self.global_phase.clone(),
                };
                assert(gate@.qubits =~= qubits@);
                Ok(gate)
            },
            Err(error) => Err(error),
        }
    }

    fn qubit_list(&self) -> (r: Vec<usize>)
        ensures
            r@ == self@.qubits,
    {
        let list = vec![self.qubit];
        assert(list@ =~= self@.qubits);
        list
    }

    fn parameter_list(&self) -> (r: Vec<CalculatorFloat>)
        ensures
            contents_of(r@) == self@.parameters,
    {
        let list = vec![
            self.alpha_r.clone(),
            self.alpha_i.clone(),
            self.beta_r.clone(),
            self.beta_i.clone(),
            self.global_phase.clone(),
        ];
        assert(contents_of(list@) =~= self@.parameters);
        list
    }
}

/// The rotation about the x axis: exp(-i * theta/2 * X).
#[derive(Debug)]
pub struct RotateX {
    /// The qubit that is acted on.
    qubit: usize,
    /// The angle of the rotation.
    theta: CalculatorFloat,
}

impl View for RotateX {
    type V = GateView;

    closed spec fn view(&self) -> GateView {
        GateView::plain(
            GateKind::RotateX,
            seq![self.qubit],
            seq![contents(self.theta)],
        )
    }
}

impl Clone for RotateX {
    fn clone(&self) -> (copy: Self)
        ensures
            copy@ == self@,
    {
        RotateX { qubit: self.qubit, theta: self.theta.clone() }
    }
}

impl PartialEq for RotateX {
    fn eq(&self, other: &Self) -> (r: bool) {
        let r = self.qubit == other.qubit
            && same(&self.theta, &other.theta);
        proof {
            if r {
                assert(self@.qubits =~= other@.qubits);
            } else {
                assert(self@.qubits[0] == self.qubit && other@.qubits[0] == other.qubit);
                assert(self@.parameters[0] == contents(self.theta));
                assert(other@.parameters[0] == contents(other.theta));
            }
        }
        r
    }
}

impl PartialEqSpecImpl for RotateX {
    open spec fn obeys_eq_spec() -> bool {
        true
    }

    open spec fn eq_spec(&self, other: &Self) -> bool {
        self@.equals(other@)
    }
}

impl RotateX {
    /// Creates a new instance.
    pub fn new(qubit: usize, theta: CalculatorFloat) -> (gate: Self)
        ensures
            gate@ == GateView::plain(
                GateKind::RotateX,
                seq![qubit],
                seq![contents(theta)],
            ),
    {
        RotateX { qubit, theta }
    }

    /// The shape of the view: the kind, and one entry for each field.
    pub proof fn lemma_view(&self)
        ensures
            self@ == GateView::plain(
                GateKind::RotateX,
                seq![self@.qubits[0]],
                seq![self@.parameters[0]],
            ),
            self@.well_formed(),
    {
    }

    /// The qubit that is acted on.
    pub fn qubit(&self) -> (r: &usize)
        ensures
            *r == self@.qubits[0],
    {
        &self.qubit
    }

    /// The angle of the rotation.
    pub fn theta(&self) -> (r: &CalculatorFloat)
        ensures
            contents(*r) == self@.parameters[0],
    {
        &self.theta
    }

    /// The canonical name of this kind of gate.
    pub fn hqslang(&self) -> (r: &'static str)
        ensures
            r@ == GateKind::RotateX.name(),
    {
        GateKind::RotateX.hqslang()
    }

    /// The tags of this kind of gate; no field is read.
    pub fn tags(&self) -> (r: Vec<&'static str>)
        ensures
            texts(r@) == GateKind::RotateX.tag_chain(),
            r@.len() == GateKind::RotateX.tag_chain().len(),
    {
        GateKind::RotateX.tags()
    }

    /// Parametrized where `theta` is an expression.
    pub fn is_parametrized(&self) -> (r: bool)
        ensures
            r == self@.is_parametrized(),
    {
        proof {
            lemma_any_symbolic_of_one(contents(self.theta));
        }
        !self.theta.is_float()
    }

    /// The qubits that are acted on.
    pub fn involved_qubits(&self) -> (r: InvolvedQubits)
        ensures
            r matches InvolvedQubits::Qubits(set) && set@ == self@.involved(),
    {
        involved_set(&self.qubit_list())
    }

    /// What the answers of the calculator to the parameters make of this
    /// gate: where every answer is a number, a copy with these numbers as
    /// its parameters, each in the place of the parameter it answers; else
    /// the first error among the answers, and no copy.
    pub fn with_answers(
        &self,
        given: Vec<Result<CalculatorFloat, CalculatorError>>,
    ) -> (r: Result<Self, RoqoqoError>)
        requires
            given@.len() == self@.parameters.len(),
        ensures
            viewed(r) == self@.with_answers(given@),
    {
        match collect(given) {
            Ok(values) => {
                let gate = RotateX {
                    qubit: self.qubit,
                    theta: values[0].clone(),
                };
                assert(gate@.parameters =~= contents_of(values@));
                Ok(gate)
            },
            Err(error) => Err(RoqoqoError::CalculatorError(error)),
        }
    }

    /// Asks `calculator` for its parameter and returns what `with_answers` makes
    /// with these answers. A parameter that is a number is answered by
    /// itself; the name of a variable by the value that `calculator` holds
    /// for it, or by an error where it holds none; a text that cannot be
    /// handed to the parser by an error. Where an answer is an error, the
    /// first such error is returned and no copy.
    pub fn substitute_parameters(&self, calculator: &Calculator) -> (r: Result<Self, RoqoqoError>)
        ensures
            self@.substitution(variables(*calculator), viewed(r)),
            match r {
                Ok(gate) => self@.substitutes_to(gate@),
                Err(error) => error is CalculatorError && self@.is_parametrized(),
            },
            !self@.is_parametrized() ==> (r matches Ok(gate) && gate@ == self@),
    {
        let given = evaluate_all(&self.parameter_list(), calculator);
        let ghost asked = given@;
        let r = self.with_answers(given);
        proof {
            assert(viewed(r) == self@.with_answers(asked));
            lemma_substitution_outcome(self@, variables(*calculator), viewed(r));
        }
        r
    }

    /// A copy with its qubit replaced by the entry of `mapping`. Where
    /// `mapping` has no entry for one of them, the error names the
    /// first that lacks one.
    pub fn remap_qubits(&self, mapping: &HashMap<usize, usize>) -> (r: Result<Self, RoqoqoError>)
        ensures
            match r {
                Ok(gate) => covers(mapping@, self@.qubits) && gate@ == self@.remapped(mapping@),
                Err(error) => remapping(mapping@, self@.qubits) == Err::<Seq<usize>, RoqoqoError>(
                    error,
                ),
            },
    {
        match remap_qubit_list(&self.qubit_list(), mapping) {
            Ok(qubits) => {
                let gate = RotateX {
                    qubit: qubits[0],
                    theta: self.theta.clone(),
                };
                assert(gate@.qubits =~= qubits@);
                Ok(gate)
            },
            Err(error) => Err(error),
        }
    }

    /// The power of this gate with the exponent `power`: `theta` is multiplied by it.
    pub fn powercf(&self, power: CalculatorFloat) -> (gate: Self)
        ensures
            gate@ == self@.with_parameters(
                seq![multiplied(contents(power), self@.parameters[0])],
            ),
            contents(power) is Literal && !self@.is_parametrized() ==> !gate@.is_parametrized(),
    {
        let gate = RotateX {
            qubit: self.qubit,
            theta: product(&power, &self.theta),
        };
        assert(gate@.parameters =~= seq![multiplied(contents(power), self@.parameters[0])]);
        proof {
            if contents(power) is Literal && !self@.is_parametrized() {
                assert forall|i: int| 0 <= i < 1 implies !(
                #[trigger] self@.parameters[i] is Symbolic) by {}
                assert forall|i: int| 0 <= i < 1 implies !(
                #[trigger] gate@.parameters[i] is Symbolic) by {}
            }
        }
        gate
    }

    fn qubit_list(&self) -> (r: Vec<usize>)
        ensures
            r@ == self@.qubits,
    {
        let list = vec![self.qubit];
        assert(list@ =~= self@.qubits);
        list
    }

    fn parameter_list(&self) -> (r: Vec<CalculatorFloat>)
        ensures
            contents_of(r@) == self@.parameters,
    {
        let list = vec![self.theta.clone()];
        assert(contents_of(list@) =~= self@.parameters);
        list
    }
}

/// The rotation about the y axis: exp(-i * theta/2 * Y).
#[derive(Debug)]
pub struct RotateY {
    /// The qubit that is acted on.
    qubit: usize,
    /// The angle of the rotation.
    theta: CalculatorFloat,
}

impl View for RotateY {
    type V = GateView;

    closed spec fn view(&self) -> GateView {
        GateView::plain(
            GateKind::RotateY,
            seq![self.qubit],
            seq![contents(self.theta)],
        )
    }
}

impl Clone for RotateY {
    fn clone(&self) -> (copy: Self)
        ensures
            copy@ == self@,
    {
        RotateY { qubit: self.qubit, theta: self.theta.clone() }
    }
}

impl PartialEq for RotateY {
    fn eq(&self, other: &Self) -> (r: bool) {
        let r = self.qubit == other.qubit
            && same(&self.theta, &other.theta);
        proof {
            if r {
                assert(self@.qubits =~= other@.qubits);
            } else {
                assert(self@.qubits[0] == self.qubit && other@.qubits[0] == other.qubit);
                assert(self@.parameters[0] == contents(self.theta));
                assert(other@.parameters[0] == contents(other.theta));
            }
        }
        r
    }
}

impl PartialEqSpecImpl for RotateY {
    open spec fn obeys_eq_spec() -> bool {
        true
    }

    open spec fn eq_spec(&self, other: &Self) -> bool {
        self@.equals(other@)
    }
}

impl RotateY {
    /// Creates a new instance.
    pub fn new(qubit: usize, theta: CalculatorFloat) -> (gate: Self)
        ensures
            gate@ == GateView::plain(
                GateKind::RotateY,
                seq![qubit],
                seq![contents(theta)],
            ),
    {
        RotateY { qubit, theta }
    }

    /// The shape of the view: the kind, and one entry for each field.
    pub proof fn lemma_view(&self)
        ensures
            self@ == GateView::plain(
                GateKind::RotateY,
                seq![self@.qubits[0]],
                seq![self@.parameters[0]],
            ),
            self@.well_formed(),
    {
    }

    /// The qubit that is acted on.
    pub fn qubit(&self) -> (r: &usize)
        ensures
            *r == self@.qubits[0],
    {
        &self.qubit
    }

    /// The angle of the rotation.
    pub fn theta(&self) -> (r: &CalculatorFloat)
        ensures
            contents(*r) == self@.parameters[0],
    {
        &self.theta
    }

    /// The canonical name of this kind of gate.
    pub fn hqslang(&self) -> (r: &'static str)
        ensures
            r@ == GateKind::RotateY.name(),
    {
        GateKind::RotateY.hqslang()
    }

    /// The tags of this kind of gate; no field is read.
    pub fn tags(&self) -> (r: Vec<&'static str>)
        ensures
            texts(r@) == GateKind::RotateY.tag_chain(),
            r@.len() == GateKind::RotateY.tag_chain().len(),
    {
        GateKind::RotateY.tags()
    }

    /// Parametrized where `theta` is an expression.
    pub fn is_parametrized(&self) -> (r: bool)
        ensures
            r == self@.is_parametrized(),
    {
        proof {
            lemma_any_symbolic_of_one(contents(self.theta));
        }
        !self.theta.is_float()
    }

    /// The qubits that are acted on.
    pub fn involved_qubits(&self) -> (r: InvolvedQubits)
        ensures
            r matches InvolvedQubits::Qubits(set) && set@ == self@.involved(),
    {
        involved_set(&self.qubit_list())
    }

    /// What the answers of the calculator to the parameters make of this
    /// gate: where every answer is a number, a copy with these numbers as
    /// its parameters, each in the place of the parameter it answers; else
    /// the first error among the answers, and no copy.
    pub fn with_answers(
        &self,
        given: Vec<Result<CalculatorFloat, CalculatorError>>,
    ) -> (r: Result<Self, RoqoqoError>)
        requires
            given@.len() == self@.parameters.len(),
        ensures
            viewed(r) == self@.with_answers(given@),
    {
        match collect(given) {
            Ok(values) => {
                let gate = RotateY {
                    qubit: self.qubit,
                    theta: values[0].clone(),
                };
                assert(gate@.parameters =~= contents_of(values@));
                Ok(gate)
            },
            Err(error) => Err(RoqoqoError::CalculatorError(error)),
        }
    }

    /// Asks `calculator` for its parameter and returns what `with_answers` makes
    /// with these answers. A parameter that is a number is answered by
    /// itself; the name of a variable by the value that `calculator` holds
    /// for it, or by an error where it holds none; a text that cannot be
    /// handed to the parser by an error. Where an answer is an error, the
    /// first such error is returned and no copy.
    pub fn substitute_parameters(&self, calculator: &Calculator) -> (r: Result<Self, RoqoqoError>)
        ensures
            self@.substitution(variables(*calculator), viewed(r)),
            match r {
                Ok(gate) => self@.substitutes_to(gate@),
                Err(error) => error is CalculatorError && self@.is_parametrized(),
            },
            !self@.is_parametrized() ==> (r matches Ok(gate) && gate@ == self@),
    {
        let given = evaluate_all(&self.parameter_list(), calculator);
        let ghost asked = given@;
        let r = self.with_answers(given);
        proof {
            assert(viewed(r) == self@.with_answers(asked));
            lemma_substitution_outcome(self@, variables(*calculator), viewed(r));
        }
        r
    }

    /// A copy with its qubit replaced by the entry of `mapping`. Where
    /// `mapping` has no entry for one of them, the error names the
    /// first that lacks one.
    pub fn remap_qubits(&self, mapping: &HashMap<usize, usize>) -> (r: Result<Self, RoqoqoError>)
        ensures
            match r {
                Ok(gate) => covers(mapping@, self@.qubits) && gate@ == self@.remapped(mapping@),
                Err(error) => remapping(mapping@, self@.qubits) == Err::<Seq<usize>, RoqoqoError>(
                    error,
                ),
            },
    {
        match remap_qubit_list(&self.qubit_list(), mapping) {
            Ok(qubits) => {
                let gate = RotateY {
                    qubit: qubits[0],
                    theta: self.theta.clone(),
                };
                assert(gate@.qubits =~= qubits@);
                Ok(gate)
            },
            Err(error) => Err(error),
        }
    }

    /// The power of this gate with the exponent `power`: `theta` is multiplied by it.
    pub fn powercf(&self, power: CalculatorFloat) -> (gate: Self)
        ensures
            gate@ == self@.with_parameters(
                seq![multiplied(contents(power), self@.parameters[0])],
            ),
            contents(power) is Literal && !self@.is_parametrized() ==> !gate@.is_parametrized(),
    {
        let gate = RotateY {
            qubit: self.qubit,
            theta: product(&power, &self.theta),
        };
        assert(gate@.parameters =~= seq![multiplied(contents(power), self@.parameters[0])]);
        proof {
            if contents(power) is Literal && !self@.is_parametrized() {
                assert forall|i: int| 0 <= i < 1 implies !(
                #[trigger] self@.parameters[i] is Symbolic) by {}
                assert forall|i: int| 0 <= i < 1 implies !(
                #[trigger] gate@.parameters[i] is Symbolic) by {}
            }
        }
        gate
    }

    fn qubit_list(&self) -> (r: Vec<usize>)
        ensures
            r@ == self@.qubits,
    {
        let list = vec![self.qubit];
        assert(list@ =~= self@.qubits);
        list
    }

    fn parameter_list(&self) -> (r: Vec<CalculatorFloat>)
        ensures
            contents_of(r@) == self@.parameters,
    {
        let list = vec![self.theta.clone()];
        assert(contents_of(list@) =~= self@.parameters);
        list
    }
}

/// The rotation about the z axis: exp(-i * theta/2 * Z).
#[derive(Debug)]
pub struct RotateZ {
    /// The qubit that is acted on.
    qubit: usize,
    /// The angle of the rotation.
    theta: CalculatorFloat,
}

impl View for RotateZ {
    type V = GateView;

    closed spec fn view(&self) -> GateView {
        GateView::plain(
            GateKind::RotateZ,
            seq![self.qubit],
            seq![contents(self.theta)],
        )
    }
}

impl Clone for RotateZ {
    fn clone(&self) -> (copy: Self)
        ensures
            copy@ == self@,
    {
        RotateZ { qubit: self.qubit, theta: self.theta.clone() }
    }
}

impl PartialEq for RotateZ {
    fn eq(&self, other: &Self) -> (r: bool) {
        let r = self.qubit == other.qubit
            && same(&self.theta, &other.theta);
        proof {
            if r {
                assert(self@.qubits =~= other@.qubits);
            } else {
                assert(self@.qubits[0] == self.qubit && other@.qubits[0] == other.qubit);
                assert(self@.parameters[0] == contents(self.theta));
                assert(other@.parameters[0] == contents(other.theta));
            }
        }
        r
    }
}

impl PartialEqSpecImpl for RotateZ {
    open spec fn obeys_eq_spec() -> bool {
        true
    }

    open spec fn eq_spec(&self, other: &Self) -> bool {
        self@.equals(other@)
    }
}

impl RotateZ {
    /// Creates a new instance.
    pub fn new(qubit: usize, theta: CalculatorFloat) -> (gate: Self)
        ensures
            gate@ == GateView::plain(
                GateKind::RotateZ,
                seq![qubit],
                seq![contents(theta)],
            ),
    {
        RotateZ { qubit, theta }
    }

    /// The shape of the view: the kind, and one entry for each field.
    pub proof fn lemma_view(&self)
        ensures
            self@ == GateView::plain(
                GateKind::RotateZ,
                seq![self@.qubits[0]],
                seq![self@.parameters[0]],
            ),
            self@.well_formed(),
    {
    }

    /// The qubit that is acted on.
    pub fn qubit(&self) -> (r: &usize)
        ensures
            *r == self@.qubits[0],
    {
        &self.qubit
    }

    /// The angle of the rotation.
    pub fn theta(&self) -> (r: &CalculatorFloat)
        ensures
            contents(*r) == self@.parameters[0],
    {
        &self.theta
    }

    /// The canonical name of this kind of gate.
    pub fn hqslang(&self) -> (r: &'static str)
        ensures
            r@ == GateKind::RotateZ.name(),
    {
        GateKind::RotateZ.hqslang()
    }

    /// The tags of this kind of gate; no field is read.
    pub fn tags(&self) -> (r: Vec<&'static str>)
        ensures
            texts(r@) == GateKind::RotateZ.tag_chain(),
            r@.len() == GateKind::RotateZ.tag_chain().len(),
    {
        GateKind::RotateZ.tags()
    }

    /// Parametrized where `theta` is an expression.
    pub fn is_parametrized(&self) -> (r: bool)
        ensures
            r == self@.is_parametrized(),
    {
        proof {
            lemma_any_symbolic_of_one(contents(self.theta));
        }
        !self.theta.is_float()
    }

    /// The qubits that are acted on.
    pub fn involved_qubits(&self) -> (r: InvolvedQubits)
        ensures
            r matches InvolvedQubits::Qubits(set) && set@ == self@.involved(),
    {
        involved_set(&self.qubit_list())
    }

    /// What the answers of the calculator to the parameters make of this
    /// gate: where every answer is a number, a copy with these numbers as
    /// its parameters, each in the place of the parameter it answers; else
    /// the first error among the answers, and no copy.
    pub fn with_answers(
        &self,
        given: Vec<Result<CalculatorFloat, CalculatorError>>,
    ) -> (r: Result<Self, RoqoqoError>)
        requires
            given@.len() == self@.parameters.len(),
        ensures
            viewed(r) == self@.with_answers(given@),
    {
        match collect(given) {
            Ok(values) => {
                let gate = RotateZ {
                    qubit: self.qubit,
                    theta: values[0].clone(),
                };
                assert(gate@.parameters =~= contents_of(values@));
                Ok(gate)
            },
            Err(error) => Err(RoqoqoError::CalculatorError(error)),
        }
    }

    /// Asks `calculator` for its parameter and returns what `with_answers` makes
    /// with these answers. A parameter that is a number is answered by
    /// itself; the name of a variable by the value that `calculator` holds
    /// for it, or by an error where it holds none; a text that cannot be
    /// handed to the parser by an error. Where an answer is an error, the
    /// first such error is returned and no copy.
    pub fn substitute_parameters(&self, calculator: &Calculator) -> (r: Result<Self, RoqoqoError>)
        ensures
            self@.substitution(variables(*calculator), viewed(r)),
            match r {
                Ok(gate) => self@.substitutes_to(gate@),
                Err(error) => error is CalculatorError && self@.is_parametrized(),
            },
            !self@.is_parametrized() ==> (r matches Ok(gate) && gate@ == self@),
    {
        let given = evaluate_all(&self.parameter_list(), calculator);
        let ghost asked = given@;
        let r = self.with_answers(given);
        proof {
            assert(viewed(r) == self@.with_answers(asked));
            lemma_substitution_outcome(self@, variables(*calculator), viewed(r));
        }
        r
    }

    /// A copy with its qubit replaced by the entry of `mapping`. Where
    /// `mapping` has no entry for one of them, the error names the
    /// first that lacks one.
    pub fn remap_qubits(&self, mapping: &HashMap<usize, usize>) -> (r: Result<Self, RoqoqoError>)
        ensures
            match r {
                Ok(gate) => covers(mapping@, self@.qubits) && gate@ == self@.remapped(mapping@),
                Err(error) => remapping(mapping@, self@.qubits) == Err::<Seq<usize>, RoqoqoError>(
                    error,
                ),
            },
    {
        match remap_qubit_list(&self.qubit_list(), mapping) {
            Ok(qubits) => {
                let gate = RotateZ {
                    qubit: qubits[0],
                    theta: self.theta.clone(),
                };
                assert(gate@.qubits =~= qubits@);
                Ok(gate)
            },
            Err(error) => Err(error),
        }
    }

    /// The power of this gate with the exponent `power`: `theta` is multiplied by it.
    pub fn powercf(&self, power: CalculatorFloat) -> (gate: Self)
        ensures
            gate@ == self@.with_parameters(
                seq![multiplied(contents(power), self@.parameters[0])],
            ),
            contents(power) is Literal && !self@.is_parametrized() ==> !gate@.is_parametrized(),
    {
        let gate = RotateZ {
            qubit: self.qubit,
            theta: product(&power, &self.theta),
        };
        assert(gate@.parameters =~= seq![multiplied(contents(power), self@.parameters[0])]);
        proof {
            if contents(power) is Literal && !self@.is_parametrized() {
                assert forall|i: int| 0 <= i < 1 implies !(
                #[trigger] self@.parameters[i] is Symbolic) by {}
                assert forall|i: int| 0 <= i < 1 implies !(
                #[trigger] gate@.parameters[i] is Symbolic) by {}
            }
        }
        gate
    }

    fn qubit_list(&self) -> (r: Vec<usize>)
        ensures
            r@ == self@.qubits,
    {
        let list = vec![self.qubit];
        assert(list@ =~= self@.qubits);
        list
    }

    fn parameter_list(&self) -> (r: Vec<CalculatorFloat>)
        ensures
            contents_of(r@) == self@.parameters,
    {
        let list = vec![self.theta.clone()];
        assert(contents_of(list@) =~= self@.parameters);
        list
    }
}

/// The phase shift of the state |0>: diag(exp(i * theta), 1).
#[derive(Debug)]
pub struct PhaseShiftState0 {
    /// The qubit that is acted on.
    qubit: usize,
    /// The angle of the phase shift.
    theta: CalculatorFloat,
}

impl View for PhaseShiftState0 {
    type V = GateView;

    closed spec fn view(&self) -> GateView {
        GateView::plain(
            GateKind::PhaseShiftState0,
            seq![self.qubit],
            seq![contents(self.theta)],
        )
    }
}

impl Clone for PhaseShiftState0 {
    fn clone(&self) -> (copy: Self)
        ensures
            copy@ == self@,
    {
        PhaseShiftState0 { qubit: self.qubit, theta: self.theta.clone() }
    }
}

impl PartialEq for PhaseShiftState0 {
    fn eq(&self, other: &Self) -> (r: bool) {
        let r = self.qubit == other.qubit
            && same(&self.theta, &other.theta);
        proof {
            if r {
                assert(self@.qubits =~= other@.qubits);
            } else {
                assert(self@.qubits[0] == self.qubit && other@.qubits[0] == other.qubit);
                assert(self@.parameters[0] == contents(self.theta));
                assert(other@.parameters[0] == contents(other.theta));
            }
        }
        r
    }
}

impl PartialEqSpecImpl for PhaseShiftState0 {
    open spec fn obeys_eq_spec() -> bool {
        true
    }

    open spec fn eq_spec(&self, other: &Self) -> bool {
        self@.equals(other@)
    }
}

impl PhaseShiftState0 {
    /// Creates a new instance.
    pub fn new(qubit: usize, theta: CalculatorFloat) -> (gate: Self)
        ensures
            gate@ == GateView::plain(
                GateKind::PhaseShiftState0,
                seq![qubit],
                seq![contents(theta)],
            ),
    {
        PhaseShiftState0 { qubit, theta }
    }

    /// The shape of the view: the kind, and one entry for each field.
    pub proof fn lemma_view(&self)
        ensures
            self@ == GateView::plain(
                GateKind::PhaseShiftState0,
                seq![self@.qubits[0]],
                seq![self@.parameters[0]],
            ),
            self@.well_formed(),
    {
    }

    /// The qubit that is acted on.
    pub fn qubit(&self) -> (r: &usize)
        ensures
            *r == self@.qubits[0],
    {
        &self.qubit
    }

    /// The angle of the phase shift.
    pub fn theta(&self) -> (r: &CalculatorFloat)
        ensures
            contents(*r) == self@.parameters[0],
    {
        &self.theta
    }

    /// The canonical name of this kind of gate.
    pub fn hqslang(&self) -> (r: &'static str)
        ensures
            r@ == GateKind::PhaseShiftState0.name(),
    {
        GateKind::PhaseShiftState0.hqslang()
    }

    /// The tags of this kind of gate; no field is read.
    pub fn tags(&self) -> (r: Vec<&'static str>)
        ensures
            texts(r@) == GateKind::PhaseShiftState0.tag_chain(),
            r@.len() == GateKind::PhaseShiftState0.tag_chain().len(),
    {
        GateKind::PhaseShiftState0.tags()
    }

    /// Parametrized where `theta` is an expression.
    pub fn is_parametrized(&self) -> (r: bool)
        ensures
            r == self@.is_parametrized(),
    {
        proof {
            lemma_any_symbolic_of_one(contents(self.theta));
        }
        !self.theta.is_float()
    }

    /// The qubits that are acted on.
    pub fn involved_qubits(&self) -> (r: InvolvedQubits)
        ensures
            r matches InvolvedQubits::Qubits(set) && set@ == self@.involved(),
    {
        involved_set(&self.qubit_list())
    }

    /// What the answers of the calculator to the parameters make of this
    /// gate: where every answer is a number, a copy with these numbers as
    /// its parameters, each in the place of the parameter it answers; else
    /// the first error among the answers, and no copy.
    pub fn with_answers(
        &self,
        given: Vec<Result<CalculatorFloat, CalculatorError>>,
    ) -> (r: Result<Self, RoqoqoError>)
        requires
            given@.len() == self@.parameters.len(),
        ensures
            viewed(r) == self@.with_answers(given@),
    {
        match collect(given) {
            Ok(values) => {
                let gate = PhaseShiftState0 {
                    qubit: self.qubit,
                    theta: values[0].clone(),
                };
                assert(gate@.parameters =~= contents_of(values@));
                Ok(gate)
            },
            Err(error) => Err(RoqoqoError::CalculatorError(error)),
        }
    }

    /// Asks `calculator` for its parameter and returns what `with_answers` makes
    /// with these answers. A parameter that is a number is answered by
    /// itself; the name of a variable by the value that `calculator` holds
    /// for it, or by an error where it holds none; a text that cannot be
    /// handed to the parser by an error. Where an answer is an error, the
    /// first such error is returned and no copy.
    pub fn substitute_parameters(&self, calculator: &Calculator) -> (r: Result<Self, RoqoqoError>)
        ensures
            self@.substitution(variables(*calculator), viewed(r)),
            match r {
                Ok(gate) => self@.substitutes_to(gate@),
                Err(error) => error is CalculatorError && self@.is_parametrized(),
            },
            !self@.is_parametrized() ==> (r matches Ok(gate) && gate@ == self@),
    {
        let given = evaluate_all(&self.parameter_list(), calculator);
        let ghost asked = given@;
        let r = self.with_answers(given);
        proof {
            assert(viewed(r) == self@.with_answers(asked));
            lemma_substitution_outcome(self@, variables(*calculator), viewed(r));
        }
        r
    }

    /// A copy with its qubit replaced by the entry of `mapping`. Where
    /// `mapping` has no entry for one of them, the error names the
    /// first that lacks one.
    pub fn remap_qubits(&self, mapping: &HashMap<usize, usize>) -> (r: Result<Self, RoqoqoError>)
        ensures
            match r {
                Ok(gate) => covers(mapping@, self@.qubits) && gate@ == self@.remapped(mapping@),
                Err(error) => remapping(mapping@, self@.qubits) == Err::<Seq<usize>, RoqoqoError>(
                    error,
                ),
            },
    {
        match remap_qubit_list(&self.qubit_list(), mapping) {
            Ok(qubits) => {
                let gate = PhaseShiftState0 {
                    qubit: qubits[0],
                    theta: self.theta.clone(),
                };
                assert(gate@.qubits =~= qubits@);
                Ok(gate)
            },
            Err(error) => Err(error),
        }
    }

    /// The power of this gate with the exponent `power`: `theta` is multiplied by it.
    pub fn powercf(&self, power: CalculatorFloat) -> (gate: Self)
        ensures
            gate@ == self@.with_parameters(
                seq![multiplied(contents(power), self@.parameters[0])],
            ),
            contents(power) is Literal && !self@.is_parametrized() ==> !gate@.is_parametrized(),
    {
        let gate = PhaseShiftState0 {
            qubit: self.qubit,
            theta: product(&power, &self.theta),
        };
        assert(gate@.parameters =~= seq![multiplied(contents(power), self@.parameters[0])]);
        proof {
            if contents(power) is Literal && !self@.is_parametrized() {
                assert forall|i: int| 0 <= i < 1 implies !(
                #[trigger] self@.parameters[i] is Symbolic) by {}
                assert forall|i: int| 0 <= i < 1 implies !(
                #[trigger] gate@.parameters[i] is Symbolic) by {}
            }
        }
        gate
    }

    fn qubit_list(&self) -> (r: Vec<usize>)
        ensures
            r@ == self@.qubits,
    {
        let list = vec![self.qubit];
        assert(list@ =~= self@.qubits);
        list
    }

    fn parameter_list(&self) -> (r: Vec<CalculatorFloat>)
        ensures
            contents_of(r@) == self@.parameters,
    {
        let list = vec![self.theta.clone()];
        assert(contents_of(list@) =~= self@.parameters);
        list
    }
}

/// The phase shift of the state |1>: diag(1, exp(i * theta)).
#[derive(Debug)]
pub struct PhaseShiftState1 {
    /// The qubit that is acted on.
    qubit: usize,
    /// The angle of the phase shift.
    theta: CalculatorFloat,
}

impl View for PhaseShiftState1 {
    type V = GateView;

    closed spec fn view(&self) -> GateView {
        GateView::plain(
            GateKind::PhaseShiftState1,
            seq![self.qubit],
            seq![contents(self.theta)],
        )
    }
}

impl Clone for PhaseShiftState1 {
    fn clone(&self) -> (copy: Self)
        ensures
            copy@ == self@,
    {
        PhaseShiftState1 { qubit: self.qubit, theta: self.theta.clone() }
    }
}

impl PartialEq for PhaseShiftState1 {
    fn eq(&self, other: &Self) -> (r: bool) {
        let r = self.qubit == other.qubit
            && same(&self.theta, &other.theta);
        proof {
            if r {
                assert(self@.qubits =~= other@.qubits);
            } else {
                assert(self@.qubits[0] == self.qubit && other@.qubits[0] == other.qubit);
                assert(self@.parameters[0] == contents(self.theta));
                assert(other@.parameters[0] == contents(other.theta));
            }
        }
        r
    }
}

impl PartialEqSpecImpl for PhaseShiftState1 {
    open spec fn obeys_eq_spec() -> bool {
        true
    }

    open spec fn eq_spec(&self, other: &Self) -> bool {
        self@.equals(other@)
    }
}

impl PhaseShiftState1 {
    /// Creates a new instance.
    pub fn new(qubit: usize, theta: CalculatorFloat) -> (gate: Self)
        ensures
            gate@ == GateView::plain(
                GateKind::PhaseShiftState1,
                seq![qubit],
                seq![contents(theta)],
            ),
    {
        PhaseShiftState1 { qubit, theta }
    }

    /// The shape of the view: the kind, and one entry for each field.
    pub proof fn lemma_view(&self)
        ensures
            self@ == GateView::plain(
                GateKind::PhaseShiftState1,
                seq![self@.qubits[0]],
                seq![self@.parameters[0]],
            ),
            self@.well_formed(),
    {
    }

    /// The qubit that is acted on.
    pub fn qubit(&self) -> (r: &usize)
        ensures
            *r == self@.qubits[0],
    {
        &self.qubit
    }

    /// The angle of the phase shift.
    pub fn theta(&self) -> (r: &CalculatorFloat)
        ensures
            contents(*r) == self@.parameters[0],
    {
        &self.theta
    }

    /// The canonical name of this kind of gate.
    pub fn hqslang(&self) -> (r: &'static str)
        ensures
            r@ == GateKind::PhaseShiftState1.name(),
    {
        GateKind::PhaseShiftState1.hqslang()
    }

    /// The tags of this kind of gate; no field is read.
    pub fn tags(&self) -> (r: Vec<&'static str>)
        ensures
            texts(r@) == GateKind::PhaseShiftState1.tag_chain(),
            r@.len() == GateKind::PhaseShiftState1.tag_chain().len(),
    {
        GateKind::PhaseShiftState1.tags()
    }

    /// Parametrized where `theta` is an expression.
    pub fn is_parametrized(&self) -> (r: bool)
        ensures
            r == self@.is_parametrized(),
    {
        proof {
            lemma_any_symbolic_of_one(contents(self.theta));
        }
        !self.theta.is_float()
    }

    /// The qubits that are acted on.
    pub fn involved_qubits(&self) -> (r: InvolvedQubits)
        ensures
            r matches InvolvedQubits::Qubits(set) && set@ == self@.involved(),
    {
        involved_set(&self.qubit_list())
    }

    /// What the answers of the calculator to the parameters make of this
    /// gate: where every answer is a number, a copy with these numbers as
    /// its parameters, each in the place of the parameter it answers; else
    /// the first error among the answers, and no copy.
    pub fn with_answers(
        &self,
        given: Vec<Result<CalculatorFloat, CalculatorError>>,
    ) -> (r: Result<Self, RoqoqoError>)
        requires
            given@.len() == self@.parameters.len(),
        ensures
            viewed(r) == self@.with_answers(given@),
    {
        match collect(given) {
            Ok(values) => {
                let gate = PhaseShiftState1 {
                    qubit: self.qubit,
                    theta: values[0].clone(),
                };
                assert(gate@.parameters =~= contents_of(values@));
                Ok(gate)
            },
            Err(error) => Err(RoqoqoError::CalculatorError(error)),
        }
    }

    /// Asks `calculator` for its parameter and returns what `with_answers` makes
    /// with these answers. A parameter that is a number is answered by
    /// itself; the name of a variable by the value that `calculator` holds
    /// for it, or by an error where it holds none; a text that cannot be
    /// handed to the parser by an error. Where an answer is an error, the
    /// first such error is returned and no copy.
    pub fn substitute_parameters(&self, calculator: &Calculator) -> (r: Result<Self, RoqoqoError>)
        ensures
            self@.substitution(variables(*calculator), viewed(r)),
            match r {
                Ok(gate) => self@.substitutes_to(gate@),
                Err(error) => error is CalculatorError && self@.is_parametrized(),
            },
            !self@.is_parametrized() ==> (r matches Ok(gate) && gate@ == self@),
    {
        let given = evaluate_all(&self.parameter_list(), calculator);
        let ghost asked = given@;
        let r = self.with_answers(given);
        proof {
            assert(viewed(r) == self@.with_answers(asked));
            lemma_substitution_outcome(self@, variables(*calculator), viewed(r));
        }
        r
    }

    /// A copy with its qubit replaced by the entry of `mapping`. Where
    /// `mapping` has no entry for one of them, the error names the
    /// first that lacks one.
    pub fn remap_qubits(&self, mapping: &HashMap<usize, usize>) -> (r: Result<Self, RoqoqoError>)
        ensures
            match r {
                Ok(gate) => covers(mapping@, self@.qubits) && gate@ == self@.remapped(mapping@),
                Err(error) => remapping(mapping@, self@.qubits) == Err::<Seq<usize>, RoqoqoError>(
                    error,
                ),
            },
    {
        match remap_qubit_list(&self.qubit_list(), mapping) {
            Ok(qubits) => {
                let gate = PhaseShiftState1 {
                    qubit: qubits[0],
                    theta: self.theta.clone(),
                };
                assert(gate@.qubits =~= qubits@);
                Ok(gate)
            },
            Err(error) => Err(error),
        }
    }

    /// The power of this gate with the exponent `power`: `theta` is multiplied by it.
    pub fn powercf(&self, power: CalculatorFloat) -> (gate: Self)
        ensures
            gate@ == self@.with_parameters(
                seq![multiplied(contents(power), self@.parameters[0])],
            ),
            contents(power) is Literal && !self@.is_parametrized() ==> !gate@.is_parametrized(),
    {
        let gate = PhaseShiftState1 {
            qubit: self.qubit,
            theta: product(&power, &self.theta),
        };
        assert(gate@.parameters =~= seq![multiplied(contents(power), self@.parameters[0])]);
        proof {
            if contents(power) is Literal && !self@.is_parametrized() {
                assert forall|i: int| 0 <= i < 1 implies !(
                #[trigger] self@.parameters[i] is Symbolic) by {}
                assert forall|i: int| 0 <= i < 1 implies !(
                #[trigger] gate@.parameters[i] is Symbolic) by {}
            }
        }
        gate
    }

    /// The unitary matrix: the identity but for the entry
    /// exp(i * theta) of the state |1>. For a finite angle its product
    /// with its conjugate transpose is the identity. An angle that is an
    /// expression gives the error that carries its text.
    pub fn unitary_matrix(&self) -> (r: Result<UnitaryMatrix, RoqoqoError>)
        ensures
            match self@.parameters[0] {
                SymbolicFloat::Literal(_) => r matches Ok(matrix) && matrix@ == matrix_of(
                    2,
                    phase_on_last(2, EntryView::Phase(self@.parameters[0])),
                ) && (is_finite(self@.parameters[0]) ==> is_unitary(matrix@)),
                SymbolicFloat::Symbolic(text) => r == Err::<UnitaryMatrix, RoqoqoError>(
                    RoqoqoError::CalculatorError(symbolic_not_convertable(text)),
                ),
            },
    {
        proof {
            if is_finite(self@.parameters[0]) {
                lemma_phase_on_last_is_unitary(2, EntryView::Phase(self@.parameters[0]));
            }
        }
        match require_literal(&self.theta) {
            Ok(_) => Ok(
                UnitaryMatrix::with_phase_on_last(2, Entry::Phase(self.theta.clone())),
            ),
            Err(error) => Err(RoqoqoError::CalculatorError(error)),
        }
    }

    fn qubit_list(&self) -> (r: Vec<usize>)
        ensures
            r@ == self@.qubits,
    {
        let list = vec![self.qubit];
        assert(list@ =~= self@.qubits);
        list
    }

    fn parameter_list(&self) -> (r: Vec<CalculatorFloat>)
        ensures
            contents_of(r@) == self@.parameters,
    {
        let list = vec![self.theta.clone()];
        assert(contents_of(list@) =~= self@.parameters);
        list
    }
}

/// The rotation by theta about an axis in spherical coordinates:
/// exp(-i * theta/2 * (sin(st) cos(sp) X + sin(st) sin(sp) Y + cos(st) Z)),
/// with st the polar and sp the azimuthal angle of the axis.
#[derive(Debug)]
pub struct RotateAroundSphericalAxis {
    /// The qubit that is acted on.
    qubit: usize,
    /// The angle of the rotation.
    theta: CalculatorFloat,
    /// The polar angle of the axis.
    spherical_theta: CalculatorFloat,
    /// The azimuthal angle of the axis.
    spherical_phi: CalculatorFloat,
}

impl View for RotateAroundSphericalAxis {
    type V = GateView;

    closed spec fn view(&self) -> GateView {
        GateView::plain(
            GateKind::RotateAroundSphericalAxis,
            seq![self.qubit],
            seq![
                contents(self.theta),
                contents(self.spherical_theta),
                contents(self.spherical_phi),
            ],
        )
    }
}

impl Clone for RotateAroundSphericalAxis {
    fn clone(&self) -> (copy: Self)
        ensures
            copy@ == self@,
    {
        RotateAroundSphericalAxis {
            qubit: self.qubit,
            theta: self.theta.clone(),
            spherical_theta: self.spherical_theta.clone(),
            spherical_phi: self.spherical_phi.clone(),
        }
    }
}

impl PartialEq for RotateAroundSphericalAxis {
    fn eq(&self, other: &Self) -> (r: bool) {
        let r = self.qubit == other.qubit
            && same(&self.theta, &other.theta)
            && same(&self.spherical_theta, &other.spherical_theta)
            && same(&self.spherical_phi, &other.spherical_phi);
        proof {
            if r {
                assert(self@.qubits =~= other@.qubits);
            } else {
                assert(self@.qubits[0] == self.qubit && other@.qubits[0] == other.qubit);
                assert(self@.parameters[0] == contents(self.theta));
                assert(other@.parameters[0] == contents(other.theta));
                assert(self@.parameters[1] == contents(self.spherical_theta));
                assert(other@.parameters[1] == contents(other.spherical_theta));
                assert(self@.parameters[2] == contents(self.spherical_phi));
                assert(other@.parameters[2] == contents(other.spherical_phi));
            }
        }
        r
    }
}

impl PartialEqSpecImpl for RotateAroundSphericalAxis {
    open spec fn obeys_eq_spec() -> bool {
        true
    }

    open spec fn eq_spec(&self, other: &Self) -> bool {
        self@.equals(other@)
    }
}

impl RotateAroundSphericalAxis {
    /// Creates a new instance.
    pub fn new(
        qubit: usize,
        theta: CalculatorFloat,
        spherical_theta: CalculatorFloat,
        spherical_phi: CalculatorFloat,
    ) -> (gate: Self)
        ensures
            gate@ == GateView::plain(
                GateKind::RotateAroundSphericalAxis,
                seq![qubit],
                seq![contents(theta), contents(spherical_theta), contents(spherical_phi)],
            ),
    {
        RotateAroundSphericalAxis { qubit, theta, spherical_theta, spherical_phi }
    }

    /// The shape of the view: the kind, and one entry for each field.
    pub proof fn lemma_view(&self)
        ensures
            self@ == GateView::plain(
                GateKind::RotateAroundSphericalAxis,
                seq![self@.qubits[0]],
                seq![self@.parameters[0], self@.parameters[1], self@.parameters[2]],
            ),
            self@.well_formed(),
    {
    }

    /// The qubit that is acted on.
    pub fn qubit(&self) -> (r: &usize)
        ensures
            *r == self@.qubits[0],
    {
        &self.qubit
    }

    /// The angle of the rotation.
    pub fn theta(&self) -> (r: &CalculatorFloat)
        ensures
            contents(*r) == self@.parameters[0],
    {
        &self.theta
    }

    /// The polar angle of the axis.
    pub fn spherical_theta(&self) -> (r: &CalculatorFloat)
        ensures
            contents(*r) == self@.parameters[1],
    {
        &self.spherical_theta
    }

    /// The azimuthal angle of the axis.
    pub fn spherical_phi(&self) -> (r: &CalculatorFloat)
        ensures
            contents(*r) == self@.parameters[2],
    {
        &self.spherical_phi
    }

    /// The canonical name of this kind of gate.
    pub fn hqslang(&self) -> (r: &'static str)
        ensures
            r@ == GateKind::RotateAroundSphericalAxis.name(),
    {
        GateKind::RotateAroundSphericalAxis.hqslang()
    }

    /// The tags of this kind of gate; no field is read.
    pub fn tags(&self) -> (r: Vec<&'static str>)
        ensures
            texts(r@) == GateKind::RotateAroundSphericalAxis.tag_chain(),
            r@.len() == GateKind::RotateAroundSphericalAxis.tag_chain().len(),
    {
        GateKind::RotateAroundSphericalAxis.tags()
    }

    /// Parametrized where one of its parameters is an expression.
    pub fn is_parametrized(&self) -> (r: bool)
        ensures
            r == self@.is_parametrized(),
    {
        has_symbolic(&self.parameter_list())
    }

    /// The qubits that are acted on.
    pub fn involved_qubits(&self) -> (r: InvolvedQubits)
        ensures
            r matches InvolvedQubits::Qubits(set) && set@ == self@.involved(),
    {
        involved_set(&self.qubit_list())
    }

    /// What the answers of the calculator to the parameters make of this
    /// gate: where every answer is a number, a copy with these numbers as
    /// its parameters, each in the place of the parameter it answers; else
    /// the first error among the answers, and no copy.
    pub fn with_answers(
        &self,
        given: Vec<Result<CalculatorFloat, CalculatorError>>,
    ) -> (r: Result<Self, RoqoqoError>)
        requires
            given@.len() == self@.parameters.len(),
        ensures
            viewed(r) == self@.with_answers(given@),
    {
        match collect(given) {
            Ok(values) => {
                let gate = RotateAroundSphericalAxis {
                    qubit: self.qubit,
                    theta: values[0].clone(),
                    spherical_theta: values[1].clone(),
                    spherical_phi: values[2].clone(),
                };
                assert(gate@.parameters =~= contents_of(values@));
                Ok(gate)
            },
            Err(error) => Err(RoqoqoError::CalculatorError(error)),
        }
    }

    /// Asks `calculator` for every parameter and returns what `with_answers` makes
    /// with these answers. A parameter that is a number is answered by
    /// itself; the name of a variable by the value that `calculator` holds
    /// for it, or by an error where it holds none; a text that cannot be
    /// handed to the parser by an error. Where an answer is an error, the
    /// first such error is returned and no copy.
    pub fn substitute_parameters(&self, calculator: &Calculator) -> (r: Result<Self, RoqoqoError>)
        ensures
            self@.substitution(variables(*calculator), viewed(r)),
            match r {
                Ok(gate) => self@.substitutes_to(gate@),
                Err(error) => error is CalculatorError && self@.is_parametrized(),
            },
            !self@.is_parametrized() ==> (r matches Ok(gate) && gate@ == self@),
    {
        let given = evaluate_all(&self.parameter_list(), calculator);
        let ghost asked = given@;
        let r = self.with_answers(given);
        proof {
            assert(viewed(r) == self@.with_answers(asked));
            lemma_substitution_outcome(self@, variables(*calculator), viewed(r));
        }
        r
    }

    /// A copy with its qubit replaced by the entry of `mapping`. Where
    /// `mapping` has no entry for one of them, the error names the
    /// first that lacks one.
    pub fn remap_qubits(&self, mapping: &HashMap<usize, usize>) -> (r: Result<Self, RoqoqoError>)
        ensures
            match r {
                Ok(gate) => covers(mapping@, self@.qubits) && gate@ == self@.remapped(mapping@),
                Err(error) => remapping(mapping@, self@.qubits) == Err::<Seq<usize>, RoqoqoError>(
                    error,
                ),
            },
    {
        match remap_qubit_list(&self.qubit_list(), mapping) {
            Ok(qubits) => {
                let gate = RotateAroundSphericalAxis {
                    qubit: qubits[0],
                    theta: self.theta.clone(),
                    spherical_theta: self.spherical_theta.clone(),
                    spherical_phi: self.spherical_phi.clone(),
                };
                assert(gate@.qubits =~= qubits@);
                Ok(gate)
            },
            Err(error) => Err(error),
        }
    }

    /// The power of this gate with the exponent `power`: `theta` is multiplied by it.
    pub fn powercf(&self, power: CalculatorFloat) -> (gate: Self)
        ensures
            gate@ == self@.with_parameters(
                self@.parameters.update(0, multiplied(contents(power), self@.parameters[0])),
            ),
            contents(power) is Literal && !self@.is_parametrized() ==> !gate@.is_parametrized(),
    {
        let gate = RotateAroundSphericalAxis {
            qubit: self.qubit,
            theta: product(&power, &self.theta),
            spherical_theta: self.spherical_theta.clone(),
            spherical_phi: self.spherical_phi.clone(),
        };
        assert(gate@.parameters =~= self@.parameters.update(
            0,
            multiplied(contents(power), self@.parameters[0]),
        ));
        proof {
            if contents(power) is Literal && !self@.is_parametrized() {
                assert forall|i: int| 0 <= i < 3 implies !(
                #[trigger] self@.parameters[i] is Symbolic) by {}
                assert forall|i: int| 0 <= i < 3 implies !(
                #[trigger] gate@.parameters[i] is Symbolic) by {}
            }
        }
        gate
    }

    fn qubit_list(&self) -> (r: Vec<usize>)
        ensures
            r@ == self@.qubits,
    {
        let list = vec![self.qubit];
        assert(list@ =~= self@.qubits);
        list
    }

    fn parameter_list(&self) -> (r: Vec<CalculatorFloat>)
        ensures
            contents_of(r@) == self@.parameters,
    {
        let list = vec![
            self.theta.clone(),
            self.spherical_theta.clone(),
            self.spherical_phi.clone(),
        ];
        assert(contents_of(list@) =~= self@.parameters);
        list
    }
}

/// The Hadamard gate.
#[derive(Debug)]
pub struct Hadamard {
    /// The qubit that is acted on.
    qubit: usize,
}

impl View for Hadamard {
    type V = GateView;

    closed spec fn view(&self) -> GateView {
        GateView::plain(
            GateKind::Hadamard,
            seq![self.qubit],
            Seq::empty(),
        )
    }
}

impl Clone for Hadamard {
    fn clone(&self) -> (copy: Self)
        ensures
            copy@ == self@,
    {
        Hadamard { qubit: self.qubit }
    }
}

impl PartialEq for Hadamard {
    fn eq(&self, other: &Self) -> (r: bool) {
        let r = self.qubit == other.qubit;
        proof {
            if r {
                assert(self@.qubits =~= other@.qubits);
            } else {
                assert(self@.qubits[0] == self.qubit && other@.qubits[0] == other.qubit);
            }
        }
        r
    }
}

impl PartialEqSpecImpl for Hadamard {
    open spec fn obeys_eq_spec() -> bool {
        true
    }

    open spec fn eq_spec(&self, other: &Self) -> bool {
        self@.equals(other@)
    }
}

impl Hadamard {
    /// Creates a new instance.
    pub fn new(qubit: usize) -> (gate: Self)
        ensures
            gate@ == GateView::plain(
                GateKind::Hadamard,
                seq![qubit],
                Seq::empty(),
            ),
    {
        Hadamard { qubit }
    }

    /// The shape of the view: the kind, and one entry for each field.
    pub proof fn lemma_view(&self)
        ensures
            self@ == GateView::plain(
                GateKind::Hadamard,
                seq![self@.qubits[0]],
                Seq::empty(),
            ),
            self@.well_formed(),
    {
    }

    /// The qubit that is acted on.
    pub fn qubit(&self) -> (r: &usize)
        ensures
            *r == self@.qubits[0],
    {
        &self.qubit
    }

    /// The canonical name of this kind of gate.
    pub fn hqslang(&self) -> (r: &'static str)
        ensures
            r@ == GateKind::Hadamard.name(),
    {
        GateKind::Hadamard.hqslang()
    }

    /// The tags of this kind of gate; no field is read.
    pub fn tags(&self) -> (r: Vec<&'static str>)
        ensures
            texts(r@) == GateKind::Hadamard.tag_chain(),
            r@.len() == GateKind::Hadamard.tag_chain().len(),
    {
        GateKind::Hadamard.tags()
    }

    /// There is no parameter, so this is never parametrized.
    pub fn is_parametrized(&self) -> (r: bool)
        ensures
            r == self@.is_parametrized(),
            !r,
    {
        false
    }

    /// The qubits that are acted on.
    pub fn involved_qubits(&self) -> (r: InvolvedQubits)
        ensures
            r matches InvolvedQubits::Qubits(set) && set@ == self@.involved(),
    {
        involved_set(&self.qubit_list())
    }

    /// There is no parameter: substitution returns a copy.
    pub fn substitute_parameters(&self, calculator: &Calculator) -> (r: Result<Self, RoqoqoError>)
        ensures
            r matches Ok(gate) && gate@ == self@ && self@.substitutes_to(gate@),
            self@.substitution(variables(*calculator), viewed(r)),
    {
        proof {
            lemma_substitution_without_parameters(self@, variables(*calculator));
        }
        Ok(self.clone())
    }

    /// A copy with its qubit replaced by the entry of `mapping`. Where
    /// `mapping` has no entry for one of them, the error names the
    /// first that lacks one.
    pub fn remap_qubits(&self, mapping: &HashMap<usize, usize>) -> (r: Result<Self, RoqoqoError>)
        ensures
            match r {
                Ok(gate) => covers(mapping@, self@.qubits) && gate@ == self@.remapped(mapping@),
                Err(error) => remapping(mapping@, self@.qubits) == Err::<Seq<usize>, RoqoqoError>(
                    error,
                ),
            },
    {
        match remap_qubit_list(&self.qubit_list(), mapping) {
            Ok(qubits) => {
                let gate = Hadamard {
                    qubit: qubits[0],
                };
                assert(gate@.qubits =~= qubits@);
                Ok(gate)
            },
            Err(error) => Err(error),
        }
    }

    fn qubit_list(&self) -> (r: Vec<usize>)
        ensures
            r@ == self@.qubits,
    {
        let list = vec![self.qubit];
        assert(list@ =~= self@.qubits);
        list
    }
}

/// The T gate: diag(1, exp(i * pi/4)).
#[derive(Debug)]
pub struct TGate {
    /// The qubit that is acted on.
    qubit: usize,
}

impl View for TGate {
    type V = GateView;

    closed spec fn view(&self) -> GateView {
        GateView::plain(
            GateKind::TGate,
            seq![self.qubit],
            Seq::empty(),
        )
    }
}

impl Clone for TGate {
    fn clone(&self) -> (copy: Self)
        ensures
            copy@ == self@,
    {
        TGate { qubit: self.qubit }
    }
}

impl PartialEq for TGate {
    fn eq(&self, other: &Self) -> (r: bool) {
        let r = self.qubit == other.qubit;
        proof {
            if r {
                assert(self@.qubits =~= other@.qubits);
            } else {
                assert(self@.qubits[0] == self.qubit && other@.qubits[0] == other.qubit);
            }
        }
        r
    }
}

impl PartialEqSpecImpl for TGate {
    open spec fn obeys_eq_spec() -> bool {
        true
    }

    open spec fn eq_spec(&self, other: &Self) -> bool {
        self@.equals(other@)
    }
}

impl TGate {
    /// Creates a new instance.
    pub fn new(qubit: usize) -> (gate: Self)
        ensures
            gate@ == GateView::plain(
                GateKind::TGate,
                seq![qubit],
                Seq::empty(),
            ),
    {
        TGate { qubit }
    }

    /// The shape of the view: the kind, and one entry for each field.
    pub proof fn lemma_view(&self)
        ensures
            self@ == GateView::plain(
                GateKind::TGate,
                seq![self@.qubits[0]],
                Seq::empty(),
            ),
            self@.well_formed(),
    {
    }

    /// The qubit that is acted on.
    pub fn qubit(&self) -> (r: &usize)
        ensures
            *r == self@.qubits[0],
    {
        &self.qubit
    }

    /// The canonical name of this kind of gate.
    pub fn hqslang(&self) -> (r: &'static str)
        ensures
            r@ == GateKind::TGate.name(),
    {
        GateKind::TGate.hqslang()
    }

    /// The tags of this kind of gate; no field is read.
    pub fn tags(&self) -> (r: Vec<&'static str>)
        ensures
            texts(r@) == GateKind::TGate.tag_chain(),
            r@.len() == GateKind::TGate.tag_chain().len(),
    {
        GateKind::TGate.tags()
    }

    /// There is no parameter, so this is never parametrized.
    pub fn is_parametrized(&self) -> (r: bool)
        ensures
            r == self@.is_parametrized(),
            !r,
    {
        false
    }

    /// The qubits that are acted on.
    pub fn involved_qubits(&self) -> (r: InvolvedQubits)
        ensures
            r matches InvolvedQubits::Qubits(set) && set@ == self@.involved(),
    {
        involved_set(&self.qubit_list())
    }

    /// There is no parameter: substitution returns a copy.
    pub fn substitute_parameters(&self, calculator: &Calculator) -> (r: Result<Self, RoqoqoError>)
        ensures
            r matches Ok(gate) && gate@ == self@ && self@.substitutes_to(gate@),
            self@.substitution(variables(*calculator), viewed(r)),
    {
        proof {
            lemma_substitution_without_parameters(self@, variables(*calculator));
        }
        Ok(self.clone())
    }

    /// A copy with its qubit replaced by the entry of `mapping`. Where
    /// `mapping` has no entry for one of them, the error names the
    /// first that lacks one.
    pub fn remap_qubits(&self, mapping: &HashMap<usize, usize>) -> (r: Result<Self, RoqoqoError>)
        ensures
            match r {
                Ok(gate) => covers(mapping@, self@.qubits) && gate@ == self@.remapped(mapping@),
                Err(error) => remapping(mapping@, self@.qubits) == Err::<Seq<usize>, RoqoqoError>(
                    error,
                ),
            },
    {
        match remap_qubit_list(&self.qubit_list(), mapping) {
            Ok(qubits) => {
                let gate = TGate {
                    qubit: qubits[0],
                };
                assert(gate@.qubits =~= qubits@);
                Ok(gate)
            },
            Err(error) => Err(error),
        }
    }

    fn qubit_list(&self) -> (r: Vec<usize>)
        ensures
            r@ == self@.qubits,
    {
        let list = vec![self.qubit];
        assert(list@ =~= self@.qubits);
        list
    }
}

} // verus!
