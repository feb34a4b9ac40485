//! Gates on a variable number of qubits.
use crate::calculator::{contents, multiplied, product, same, variables};
use crate::error::RoqoqoError;
use crate::gate::{texts, viewed, GateKind, GateView};
use crate::laws::{lemma_substitution_outcome, lemma_substitution_without_parameters};
use crate::matrix::{
    exchange_of_last_two, is_unitary, lemma_exchange_of_last_two_is_unitary, matrix_of,
    UnitaryMatrix,
};
use crate::parameters::{
    collect, contents_of, evaluate_all, has_symbolic, lemma_any_symbolic_of_one,
    same_parameters,
};
use crate::qubits::{
    covers, involved_set, remap_qubit_list, remapping, same_qubits, InvolvedQubits,
};
use qoqo_calculator::{Calculator, CalculatorError, CalculatorFloat};
use std::collections::HashMap;
use vstd::arithmetic::power2::{lemma2_to64, lemma_pow2_strictly_increases, lemma_pow2_unfold, pow2};
use vstd::prelude::*;
use vstd::std_specs::cmp::PartialEqSpecImpl;

verus! {

/// The Molmer-Sorensen gate on several qubits: the rotation under the
/// product of the Pauli X operators of its qubits,
/// exp(-i * theta/2 * X_0 * X_1 * ... * X_n).
#[derive(Debug)]
pub struct MultiQubitMS {
    /// The qubits that are acted on, the first the most significant one in the unitary.
    qubits: Vec<usize>,
    /// The angle of the rotation.
    theta: CalculatorFloat,
}

impl View for MultiQubitMS {
    type V = GateView;

    closed spec fn view(&self) -> GateView {
        GateView {
            kind: GateKind::MultiQubitMS,
            qubits: self.qubits@,
            parameters: seq![contents(self.theta)],
            flags: Seq::empty(),
            definition: Seq::empty(),
        }
    }
}

impl Clone for MultiQubitMS {
    fn clone(&self) -> (copy: Self)
        ensures
            copy@ == self@,
    {
        MultiQubitMS { qubits: self.qubits.clone(), theta: self.theta.clone() }
    }
}

impl PartialEq for MultiQubitMS {
    fn eq(&self, other: &Self) -> (r: bool) {
        let r = same_qubits(&self.qubits, &other.qubits)
            && same(&self.theta, &other.theta);
        proof {
            assert(self@.parameters[0] == contents(self.theta));
            assert(other@.parameters[0] == contents(other.theta));
        }
        r
    }
}

impl PartialEqSpecImpl for MultiQubitMS {
    open spec fn obeys_eq_spec() -> bool {
        true
    }

    open spec fn eq_spec(&self, other: &Self) -> bool {
        self@.equals(other@)
    }
}

impl MultiQubitMS {
    /// Creates a new instance.
    pub fn new(qubits: Vec<usize>, theta: CalculatorFloat) -> (gate: Self)
        ensures
            gate@ == (GateView {
                kind: GateKind::MultiQubitMS,
                qubits: qubits@,
                parameters: seq![contents(theta)],
                flags: Seq::empty(),
                definition: Seq::empty(),
            }),
    {
        MultiQubitMS { qubits, theta }
    }

    /// The shape of the view: the kind, and one entry for each field but the qubit list.
    pub proof fn lemma_view(&self)
        ensures
            self@ == (GateView {
                kind: GateKind::MultiQubitMS,
                qubits: self@.qubits,
                parameters: seq![self@.parameters[0]],
                flags: Seq::empty(),
                definition: Seq::empty(),
            }),
            self@.well_formed(),
    {
    }

    /// The qubits that are acted on.
    pub fn qubits(&self) -> (r: &Vec<usize>)
        ensures
            r@ == self@.qubits,
    {
        &self.qubits
    }

    /// The angle of the rotation.
    pub fn theta(&self) -> (r: &CalculatorFloat)
        ensures
            contents(*r) == self@.parameters[0],
    {
        &self.theta
    }

    /// The canonical name of this kind of gate.
    pub fn hqslang(&self) -> (r: &'static str)
        ensures
            r@ == GateKind::MultiQubitMS.name(),
    {
        GateKind::MultiQubitMS.hqslang()
    }

    /// The tags of this kind of gate; no field is read.
    pub fn tags(&self) -> (r: Vec<&'static str>)
        ensures
            texts(r@) == GateKind::MultiQubitMS.tag_chain(),
            r@.len() == GateKind::MultiQubitMS.tag_chain().len(),
    {
        GateKind::MultiQubitMS.tags()
    }

    /// Parametrized where `theta` is an expression.
    pub fn is_parametrized(&self) -> (r: bool)
        ensures
            r == self@.is_parametrized(),
    {
        proof {
            lemma_any_symbolic_of_one(contents(self.theta));
        }
        !self.theta.is_float()
    }

    /// The qubits that are acted on, as a set.
    pub fn involved_qubits(&self) -> (r: InvolvedQubits)
        ensures
            r matches InvolvedQubits::Qubits(set) && set@ == self@.involved(),
    {
        involved_set(&self.qubits)
    }

    /// What the answers of the calculator to the parameters make of this
    /// gate: where every answer is a number, a copy with these numbers as
    /// its parameters, each in the place of the parameter it answers; else
    /// the first error among the answers, and no copy.
    pub fn with_answers(
        &self,
        given: Vec<Result<CalculatorFloat, CalculatorError>>,
    ) -> (r: Result<Self, RoqoqoError>)
        requires
            given@.len() == self@.parameters.len(),
        ensures
            viewed(r) == self@.with_answers(given@),
    {
        match collect(given) {
            Ok(values) => {
                let gate = MultiQubitMS { qubits: self.qubits.clone(), theta: values[0].clone() };
                assert(gate@.parameters =~= contents_of(values@));
                Ok(gate)
            },
            Err(error) => Err(RoqoqoError::CalculatorError(error)),
        }
    }

    /// Asks `calculator` for the angle and returns what `with_answers` makes
    /// with these answers. A parameter that is a number is answered by
    /// itself; the name of a variable by the value that `calculator` holds
    /// for it, or by an error where it holds none; a text that cannot be
    /// handed to the parser by an error. Where an answer is an error, the
    /// first such error is returned and no copy.
    pub fn substitute_parameters(&self, calculator: &Calculator) -> (r: Result<Self, RoqoqoError>)
        ensures
            self@.substitution(variables(*calculator), viewed(r)),
            match r {
                Ok(gate) => self@.substitutes_to(gate@),
                Err(error) => error is CalculatorError && self@.is_parametrized(),
            },
            !self@.is_parametrized() ==> (r matches Ok(gate) && gate@ == self@),
    {
        let given = evaluate_all(&self.parameter_list(), calculator);
        let ghost asked = given@;
        let r = self.with_answers(given);
        proof {
            assert(viewed(r) == self@.with_answers(asked));
            lemma_substitution_outcome(self@, variables(*calculator), viewed(r));
        }
        r
    }

    /// A copy with each of its qubits replaced by the entry of `mapping`,
    /// in the same order. Where `mapping` has no entry for a qubit of the
    /// gate, the error names the first such qubit.
    pub fn remap_qubits(&self, mapping: &HashMap<usize, usize>) -> (r: Result<Self, RoqoqoError>)
        ensures
            match r {
                Ok(gate) => covers(mapping@, self@.qubits) && gate@ == self@.remapped(mapping@),
                Err(error) => remapping(mapping@, self@.qubits) == Err::<Seq<usize>, RoqoqoError>(
                    error,
                ),
            },
    {
        match remap_qubit_list(&self.qubits, mapping) {
            Ok(qubits) => Ok(MultiQubitMS { qubits, theta: self.theta.clone() }),
            Err(error) => Err(error),
        }
    }

    /// The power of this gate with the exponent `power`: `theta` is multiplied by it.
    pub fn powercf(&self, power: CalculatorFloat) -> (gate: Self)
        ensures
            gate@ == self@.with_parameters(
                seq![multiplied(contents(power), self@.parameters[0])],
            ),
            contents(power) is Literal && !self@.is_parametrized() ==> !gate@.is_parametrized(),
    {
        let gate = MultiQubitMS {
            qubits: self.qubits.clone(),
            theta: product(&power, &self.theta),
        };
        assert(gate@.parameters =~= seq![multiplied(contents(power), self@.parameters[0])]);
        proof {
            lemma_any_symbolic_of_one(self@.parameters[0]);
            lemma_any_symbolic_of_one(gate@.parameters[0]);
        }
        gate
    }

    fn parameter_list(&self) -> (r: Vec<CalculatorFloat>)
        ensures
            contents_of(r@) == self@.parameters,
    {
        let list = vec![self.theta.clone()];
        assert(contents_of(list@) =~= self@.parameters);
        list
    }
}

/// The rotation under the product of the Pauli Z operators of its
/// qubits, exp(-i * theta/2 * Z_0 * Z_1 * ... * Z_n).
#[derive(Debug)]
pub struct MultiQubitZZ {
    /// The qubits that are acted on, the first the most significant one in the unitary.
    qubits: Vec<usize>,
    /// The angle of the rotation.
    theta: CalculatorFloat,
}

impl View for MultiQubitZZ {
    type V = GateView;

    closed spec fn view(&self) -> GateView {
        GateView {
            kind: GateKind::MultiQubitZZ,
            qubits: self.qubits@,
            parameters: seq![contents(self.theta)],
            flags: Seq::empty(),
            definition: Seq::empty(),
        }
    }
}

impl Clone for MultiQubitZZ {
    fn clone(&self) -> (copy: Self)
        ensures
            copy@ == self@,
    {
        MultiQubitZZ { qubits: self.qubits.clone(), theta: self.theta.clone() }
    }
}

impl PartialEq for MultiQubitZZ {
    fn eq(&self, other: &Self) -> (r: bool) {
        let r = same_qubits(&self.qubits, &other.qubits)
            && same(&self.theta, &other.theta);
        proof {
            assert(self@.parameters[0] == contents(self.theta));
            assert(other@.parameters[0] == contents(other.theta));
        }
        r
    }
}

impl PartialEqSpecImpl for MultiQubitZZ {
    open spec fn obeys_eq_spec() -> bool {
        true
    }

    open spec fn eq_spec(&self, other: &Self) -> bool {
        self@.equals(other@)
    }
}

impl MultiQubitZZ {
    /// Creates a new instance.
    pub fn new(qubits: Vec<usize>, theta: CalculatorFloat) -> (gate: Self)
        ensures
            gate@ == (GateView {
                kind: GateKind::MultiQubitZZ,
                qubits: qubits@,
                parameters: seq![contents(theta)],
                flags: Seq::empty(),
                definition: Seq::empty(),
            }),
    {
        MultiQubitZZ { qubits, theta }
    }

    /// The shape of the view: the kind, and one entry for each field but the qubit list.
    pub proof fn lemma_view(&self)
        ensures
            self@ == (GateView {
                kind: GateKind::MultiQubitZZ,
                qubits: self@.qubits,
                parameters: seq![self@.parameters[0]],
                flags: Seq::empty(),
                definition: Seq::empty(),
            }),
            self@.well_formed(),
    {
    }

    /// The qubits that are acted on.
    pub fn qubits(&self) -> (r: &Vec<usize>)
        ensures
            r@ == self@.qubits,
    {
        &self.qubits
    }

    /// The angle of the rotation.
    pub fn theta(&self) -> (r: &CalculatorFloat)
        ensures
            contents(*r) == self@.parameters[0],
    {
        &self.theta
    }

    /// The canonical name of this kind of gate.
    pub fn hqslang(&self) -> (r: &'static str)
        ensures
            r@ == GateKind::MultiQubitZZ.name(),
    {
        GateKind::MultiQubitZZ.hqslang()
    }

    /// The tags of this kind of gate; no field is read.
    pub fn tags(&self) -> (r: Vec<&'static str>)
        ensures
            texts(r@) == GateKind::MultiQubitZZ.tag_chain(),
            r@.len() == GateKind::MultiQubitZZ.tag_chain().len(),
    {
        GateKind::MultiQubitZZ.tags()
    }

    /// Parametrized where `theta` is an expression.
    pub fn is_parametrized(&self) -> (r: bool)
        ensures
            r == self@.is_parametrized(),
    {
        proof {
            lemma_any_symbolic_of_one(contents(self.theta));
        }
        !self.theta.is_float()
    }

    /// The qubits that are acted on, as a set.
    pub fn involved_qubits(&self) -> (r: InvolvedQubits)
        ensures
            r matches InvolvedQubits::Qubits(set) && set@ == self@.involved(),
    {
        involved_set(&self.qubits)
    }

    /// What the answers of the calculator to the parameters make of this
    /// gate: where every answer is a number, a copy with these numbers as
    /// its parameters, each in the place of the parameter it answers; else
    /// the first error among the answers, and no copy.
    pub fn with_answers(
        &self,
        given: Vec<Result<CalculatorFloat, CalculatorError>>,
    ) -> (r: Result<Self, RoqoqoError>)
        requires
            given@.len() == self@.parameters.len(),
        ensures
            viewed(r) == self@.with_answers(given@),
    {
        match collect(given) {
            Ok(values) => {
                let gate = MultiQubitZZ { qubits: self.qubits.clone(), theta: values[0].clone() };
                assert(gate@.parameters =~= contents_of(values@));
                Ok(gate)
            },
            Err(error) => Err(RoqoqoError::CalculatorError(error)),
        }
    }

    /// Asks `calculator` for the angle and returns what `with_answers` makes
    /// with these answers. A parameter that is a number is answered by
    /// itself; the name of a variable by the value that `calculator` holds
    /// for it, or by an error where it holds none; a text that cannot be
    /// handed to the parser by an error. Where an answer is an error, the
    /// first such error is returned and no copy.
    pub fn substitute_parameters(&self, calculator: &Calculator) -> (r: Result<Self, RoqoqoError>)
        ensures
            self@.substitution(variables(*calculator), viewed(r)),
            match r {
                Ok(gate) => self@.substitutes_to(gate@),
                Err(error) => error is CalculatorError && self@.is_parametrized(),
            },
            !self@.is_parametrized() ==> (r matches Ok(gate) && gate@ == self@),
    {
        let given = evaluate_all(&self.parameter_list(), calculator);
        let ghost asked = given@;
        let r = self.with_answers(given);
        proof {
            assert(viewed(r) == self@.with_answers(asked));
            lemma_substitution_outcome(self@, variables(*calculator), viewed(r));
        }
        r
    }

    /// A copy with each of its qubits replaced by the entry of `mapping`,
    /// in the same order. Where `mapping` has no entry for a qubit of the
    /// gate, the error names the first such qubit.
    pub fn remap_qubits(&self, mapping: &HashMap<usize, usize>) -> (r: Result<Self, RoqoqoError>)
        ensures
            match r {
                Ok(gate) => covers(mapping@, self@.qubits) && gate@ == self@.remapped(mapping@),
                Err(error) => remapping(mapping@, self@.qubits) == Err::<Seq<usize>, RoqoqoError>(
                    error,
                ),
            },
    {
        match remap_qubit_list(&self.qubits, mapping) {
            Ok(qubits) => Ok(MultiQubitZZ { qubits, theta: self.theta.clone() }),
            Err(error) => Err(error),
        }
    }

    /// The power of this gate with the exponent `power`: `theta` is multiplied by it.
    pub fn powercf(&self, power: CalculatorFloat) -> (gate: Self)
        ensures
            gate@ == self@.with_parameters(
                seq![multiplied(contents(power), self@.parameters[0])],
            ),
            contents(power) is Literal && !self@.is_parametrized() ==> !gate@.is_parametrized(),
    {
        let gate = MultiQubitZZ {
            qubits: self.qubits.clone(),
            theta: product(&power, &self.theta),
        };
        assert(gate@.parameters =~= seq![multiplied(contents(power), self@.parameters[0])]);
        proof {
            lemma_any_symbolic_of_one(self@.parameters[0]);
            lemma_any_symbolic_of_one(gate@.parameters[0]);
        }
        gate
    }

    fn parameter_list(&self) -> (r: Vec<CalculatorFloat>)
        ensures
            contents_of(r@) == self@.parameters,
    {
        let list = vec![self.theta.clone()];
        assert(contents_of(list@) =~= self@.parameters);
        list
    }
}

/// The NOT gate with several controls, a generalized Toffoli gate: flips
/// the last qubit where all the qubits before it are |1>.
#[derive(Debug)]
pub struct MultiQubitCNOT {
    /// The qubits that are acted on, the first the most significant one in the unitary.
    qubits: Vec<usize>,
}

impl View for MultiQubitCNOT {
    type V = GateView;

    closed spec fn view(&self) -> GateView {
        GateView {
            kind: GateKind::MultiQubitCNOT,
            qubits: self.qubits@,
            parameters: Seq::empty(),
            flags: Seq::empty(),
            definition: Seq::empty(),
        }
    }
}

impl Clone for MultiQubitCNOT {
    fn clone(&self) -> (copy: Self)
        ensures
            copy@ == self@,
    {
        MultiQubitCNOT { qubits: self.qubits.clone() }
    }
}

impl PartialEq for MultiQubitCNOT {
    fn eq(&self, other: &Self) -> (r: bool) {
        let r = same_qubits(&self.qubits, &other.qubits);
        r
    }
}

impl PartialEqSpecImpl for MultiQubitCNOT {
    open spec fn obeys_eq_spec() -> bool {
        true
    }

    open spec fn eq_spec(&self, other: &Self) -> bool {
        self@.equals(other@)
    }
}

impl MultiQubitCNOT {
    /// Creates a new instance.
    pub fn new(qubits: Vec<usize>) -> (gate: Self)
        ensures
            gate@ == (GateView {
                kind: GateKind::MultiQubitCNOT,
                qubits: qubits@,
                parameters: Seq::empty(),
                flags: Seq::empty(),
                definition: Seq::empty(),
            }),
    {
        MultiQubitCNOT { qubits }
    }

    /// The shape of the view: the kind, and one entry for each field but the qubit list.
    pub proof fn lemma_view(&self)
        ensures
            self@ == (GateView {
                kind: GateKind::MultiQubitCNOT,
                qubits: self@.qubits,
                parameters: Seq::empty(),
                flags: Seq::empty(),
                definition: Seq::empty(),
            }),
            self@.well_formed(),
    {
    }

    /// The qubits that are acted on.
    pub fn qubits(&self) -> (r: &Vec<usize>)
        ensures
            r@ == self@.qubits,
    {
        &self.qubits
    }

    /// The canonical name of this kind of gate.
    pub fn hqslang(&self) -> (r: &'static str)
        ensures
            r@ == GateKind::MultiQubitCNOT.name(),
    {
        GateKind::MultiQubitCNOT.hqslang()
    }

    /// The tags of this kind of gate; no field is read.
    pub fn tags(&self) -> (r: Vec<&'static str>)
        ensures
            texts(r@) == GateKind::MultiQubitCNOT.tag_chain(),
            r@.len() == GateKind::MultiQubitCNOT.tag_chain().len(),
    {
        GateKind::MultiQubitCNOT.tags()
    }

    /// There is no parameter, so this is never parametrized.
    pub fn is_parametrized(&self) -> (r: bool)
        ensures
            r == self@.is_parametrized(),
            !r,
    {
        false
    }

    /// The qubits that are acted on, as a set.
    pub fn involved_qubits(&self) -> (r: InvolvedQubits)
        ensures
            r matches InvolvedQubits::Qubits(set) && set@ == self@.involved(),
    {
        involved_set(&self.qubits)
    }

    /// There is no parameter: substitution returns a copy.
    pub fn substitute_parameters(&self, calculator: &Calculator) -> (r: Result<Self, RoqoqoError>)
        ensures
            r matches Ok(gate) && gate@ == self@ && self@.substitutes_to(gate@),
            self@.substitution(variables(*calculator), viewed(r)),
    {
        proof {
            lemma_substitution_without_parameters(self@, variables(*calculator));
        }
        Ok(self.clone())
    }

    /// A copy with each of its qubits replaced by the entry of `mapping`,
    /// in the same order. Where `mapping` has no entry for a qubit of the
    /// gate, the error names the first such qubit.
    pub fn remap_qubits(&self, mapping: &HashMap<usize, usize>) -> (r: Result<Self, RoqoqoError>)
        ensures
            match r {
                Ok(gate) => covers(mapping@, self@.qubits) && gate@ == self@.remapped(mapping@),
                Err(error) => remapping(mapping@, self@.qubits) == Err::<Seq<usize>, RoqoqoError>(
                    error,
                ),
            },
    {
        match remap_qubit_list(&self.qubits, mapping) {
            Ok(qubits) => Ok(MultiQubitCNOT { qubits }),
            Err(error) => Err(error),
        }
    }

    /// The unitary matrix on n qubits: the identity on the 2^n
    /// basis states but for the last two, which are exchanged. This flips
    /// the last qubit where all the qubits before it are |1>. The product
    /// of the matrix with its conjugate transpose is the identity.
    pub fn unitary_matrix(&self) -> (r: Result<UnitaryMatrix, RoqoqoError>)
        requires
            self@.qubits.len() >= 1,
            pow2(self@.qubits.len()) <= usize::MAX,
        ensures
            r matches Ok(matrix) && matrix@ == matrix_of(
                pow2(self@.qubits.len()) as int,
                exchange_of_last_two(pow2(self@.qubits.len()) as int),
            ),
            r matches Ok(matrix) && is_unitary(matrix@),
    {
        let dimension = power_of_two(self.qubits.len());
        proof {
            lemma_pow2_strictly_increases(0, self@.qubits.len());
            lemma2_to64();
            lemma_exchange_of_last_two_is_unitary(dimension as int);
        }
        Ok(UnitaryMatrix::with_exchange_of_last_two(dimension))
    }
}

/// The quantum Fourier transform, the quantum analogue of the discrete
/// Fourier transform:
/// y_k = 1/sqrt(N) * sum_j x_j * exp(2 pi i * j * k / N).
#[derive(Debug)]
pub struct QFT {
    /// The qubits that are acted on, the first the most significant one in the unitary.
    qubits: Vec<usize>,
    /// Whether the order of the qubits is reversed by SWAP gates.
    swaps: bool,
    /// Whether the inverse transform is applied.
    inverse: bool,
}

impl View for QFT {
    type V = GateView;

    closed spec fn view(&self) -> GateView {
        GateView {
            kind: GateKind::QFT,
            qubits: self.qubits@,
            parameters: Seq::empty(),
            flags: seq![self.swaps, self.inverse],
            definition: Seq::empty(),
        }
    }
}

impl Clone for QFT {
    fn clone(&self) -> (copy: Self)
        ensures
            copy@ == self@,
    {
        QFT { qubits: self.qubits.clone(), swaps: self.swaps, inverse: self.inverse }
    }
}

impl PartialEq for QFT {
    fn eq(&self, other: &Self) -> (r: bool) {
        let r = same_qubits(&self.qubits, &other.qubits)
            && self.swaps == other.swaps
            && self.inverse == other.inverse;
        proof {
            if r {
                assert(self@.flags =~= other@.flags);
            } else {
                assert(self@.flags[0] == self.swaps && other@.flags[0] == other.swaps);
                assert(self@.flags[1] == self.inverse && other@.flags[1] == other.inverse);
            }
        }
        r
    }
}

impl PartialEqSpecImpl for QFT {
    open spec fn obeys_eq_spec() -> bool {
        true
    }

    open spec fn eq_spec(&self, other: &Self) -> bool {
        self@.equals(other@)
    }
}

impl QFT {
    /// Creates a new instance.
    pub fn new(qubits: Vec<usize>, swaps: bool, inverse: bool) -> (gate: Self)
        ensures
            gate@ == (GateView {
                kind: GateKind::QFT,
                qubits: qubits@,
                parameters: Seq::empty(),
                flags: seq![swaps, inverse],
                definition: Seq::empty(),
            }),
    {
        QFT { qubits, swaps, inverse }
    }

    /// The shape of the view: the kind, and one entry for each field but the qubit list.
    pub proof fn lemma_view(&self)
        ensures
            self@ == (GateView {
                kind: GateKind::QFT,
                qubits: self@.qubits,
                parameters: Seq::empty(),
                flags: seq![self@.flags[0], self@.flags[1]],
                definition: Seq::empty(),
            }),
            self@.well_formed(),
    {
    }

    /// The qubits that are acted on.
    pub fn qubits(&self) -> (r: &Vec<usize>)
        ensures
            r@ == self@.qubits,
    {
        &self.qubits
    }

    /// Whether the order of the qubits is reversed by SWAP gates.
    pub fn swaps(&self) -> (r: &bool)
        ensures
            *r == self@.flags[0],
    {
        &self.swaps
    }

    /// Whether the inverse transform is applied.
    pub fn inverse(&self) -> (r: &bool)
        ensures
            *r == self@.flags[1],
    {
        &self.inverse
    }

    /// The canonical name of this kind of gate.
    pub fn hqslang(&self) -> (r: &'static str)
        ensures
            r@ == GateKind::QFT.name(),
    {
        GateKind::QFT.hqslang()
    }

    /// The tags of this kind of gate; no field is read.
    pub fn tags(&self) -> (r: Vec<&'static str>)
        ensures
            texts(r@) == GateKind::QFT.tag_chain(),
            r@.len() == GateKind::QFT.tag_chain().len(),
    {
        GateKind::QFT.tags()
    }

    /// There is no parameter, so this is never parametrized.
    pub fn is_parametrized(&self) -> (r: bool)
        ensures
            r == self@.is_parametrized(),
            !r,
    {
        false
    }

    /// The qubits that are acted on, as a set.
    pub fn involved_qubits(&self) -> (r: InvolvedQubits)
        ensures
            r matches InvolvedQubits::Qubits(set) && set@ == self@.involved(),
    {
        involved_set(&self.qubits)
    }

    /// There is no parameter: substitution returns a copy.
    pub fn substitute_parameters(&self, calculator: &Calculator) -> (r: Result<Self, RoqoqoError>)
        ensures
            r matches Ok(gate) && gate@ == self@ && self@.substitutes_to(gate@),
            self@.substitution(variables(*calculator), viewed(r)),
    {
        proof {
            lemma_substitution_without_parameters(self@, variables(*calculator));
        }
        Ok(self.clone())
    }

    /// A copy with each of its qubits replaced by the entry of `mapping`,
    /// in the same order. Where `mapping` has no entry for a qubit of the
    /// gate, the error names the first such qubit.
    pub fn remap_qubits(&self, mapping: &HashMap<usize, usize>) -> (r: Result<Self, RoqoqoError>)
        ensures
            match r {
                Ok(gate) => covers(mapping@, self@.qubits) && gate@ == self@.remapped(mapping@),
                Err(error) => remapping(mapping@, self@.qubits) == Err::<Seq<usize>, RoqoqoError>(
                    error,
                ),
            },
    {
        match remap_qubit_list(&self.qubits, mapping) {
            Ok(qubits) => Ok(QFT { qubits, swaps: self.swaps, inverse: self.inverse }),
            Err(error) => Err(error),
        }
    }
}

/// The call of a gate that a definition has given a name.
///
/// The qubits of the call take the places of the qubits of the definition,
/// and its parameters the places of the free parameters of the definition,
/// each in the order of appearance. The call carries no unitary of its own.
#[derive(Debug)]
pub struct CallDefinedGate {
    /// The name of the definition.
    gate_name: String,
    /// The qubits that replace the qubits of the definition.
    qubits: Vec<usize>,
    /// The values that replace the free parameters of the definition.
    free_parameters: Vec<CalculatorFloat>,
}

impl View for CallDefinedGate {
    type V = GateView;

    closed spec fn view(&self) -> GateView {
        GateView {
            kind: GateKind::CallDefinedGate,
            qubits: self.qubits@,
            parameters: contents_of(self.free_parameters@),
            flags: Seq::empty(),
            definition: self.gate_name@,
        }
    }
}

impl Clone for CallDefinedGate {
    fn clone(&self) -> (copy: Self)
        ensures
            copy@ == self@,
    {
        let free_parameters = self.free_parameters.clone();
        assert(free_parameters@ =~= self.free_parameters@);
        CallDefinedGate {
            gate_name: self.gate_name.clone(),
            qubits: self.qubits.clone(),
            free_parameters,
        }
    }
}

impl PartialEq for CallDefinedGate {
    fn eq(&self, other: &Self) -> (r: bool) {
        self.gate_name == other.gate_name && same_qubits(&self.qubits, &other.qubits)
            && same_parameters(&self.free_parameters, &other.free_parameters)
    }
}

impl PartialEqSpecImpl for CallDefinedGate {
    open spec fn obeys_eq_spec() -> bool {
        true
    }

    open spec fn eq_spec(&self, other: &Self) -> bool {
        self@.equals(other@)
    }
}

impl CallDefinedGate {
    /// Creates the call.
    pub fn new(
        gate_name: String,
        qubits: Vec<usize>,
        free_parameters: Vec<CalculatorFloat>,
    ) -> (gate: Self)
        ensures
            gate@ == (GateView {
                kind: GateKind::CallDefinedGate,
                qubits: qubits@,
                parameters: contents_of(free_parameters@),
                flags: Seq::empty(),
                definition: gate_name@,
            }),
    {
        CallDefinedGate { gate_name, qubits, free_parameters }
    }

    /// The shape of the view: the kind, and no flags.
    pub proof fn lemma_view(&self)
        ensures
            self@ == (GateView {
                kind: GateKind::CallDefinedGate,
                qubits: self@.qubits,
                parameters: self@.parameters,
                flags: Seq::empty(),
                definition: self@.definition,
            }),
            self@.well_formed(),
    {
    }

    /// The name of the definition.
    pub fn gate_name(&self) -> (r: &String)
        ensures
            r@ == self@.definition,
    {
        &self.gate_name
    }

    /// The qubits that replace the qubits of the definition.
    pub fn qubits(&self) -> (r: &Vec<usize>)
        ensures
            r@ == self@.qubits,
    {
        &self.qubits
    }

    /// The values that replace the free parameters of the definition.
    pub fn free_parameters(&self) -> (r: &Vec<CalculatorFloat>)
        ensures
            contents_of(r@) == self@.parameters,
    {
        &self.free_parameters
    }

    /// The canonical name of the operation.
    pub fn hqslang(&self) -> (r: &'static str)
        ensures
            r@ == GateKind::CallDefinedGate.name(),
    {
        GateKind::CallDefinedGate.hqslang()
    }

    /// The tags of the operation, which its kind alone decides.
    pub fn tags(&self) -> (r: Vec<&'static str>)
        ensures
            texts(r@) == GateKind::CallDefinedGate.tag_chain(),
            r@.len() == GateKind::CallDefinedGate.tag_chain().len(),
    {
        GateKind::CallDefinedGate.tags()
    }

    /// The call is parametrized where one of its parameters is an expression.
    pub fn is_parametrized(&self) -> (r: bool)
        ensures
            r == self@.is_parametrized(),
    {
        has_symbolic(&self.free_parameters)
    }

    /// The qubits that are acted on, as a set.
    pub fn involved_qubits(&self) -> (r: InvolvedQubits)
        ensures
            r matches InvolvedQubits::Qubits(set) && set@ == self@.involved(),
    {
        involved_set(&self.qubits)
    }

    /// What the answers of the calculator to the parameters make of this
    /// call: where every answer is a number, a copy with these numbers as
    /// its parameters, in the order of the answers; else the first error
    /// among the answers, and no copy.
    pub fn with_answers(
        &self,
        given: Vec<Result<CalculatorFloat, CalculatorError>>,
    ) -> (r: Result<Self, RoqoqoError>)
        requires
            given@.len() == self@.parameters.len(),
        ensures
            viewed(r) == self@.with_answers(given@),
    {
        match collect(given) {
            Ok(values) => Ok(
                CallDefinedGate {
                    gate_name: self.gate_name.clone(),
                    qubits: self.qubits.clone(),
                    free_parameters: values,
                },
            ),
            Err(error) => Err(RoqoqoError::CalculatorError(error)),
        }
    }

    /// Asks `calculator` for every parameter and returns what `with_answers`
    /// makes with these answers. A parameter that is a number is answered by
    /// itself; the name of a variable by the value that `calculator` holds
    /// for it, or by an error where it holds none; a text that cannot be
    /// handed to the parser by an error. Where an answer is an error, the
    /// first such error is returned and no copy.
    pub fn substitute_parameters(&self, calculator: &Calculator) -> (r: Result<Self, RoqoqoError>)
        ensures
            self@.substitution(variables(*calculator), viewed(r)),
            match r {
                Ok(gate) => self@.substitutes_to(gate@),
                Err(error) => error is CalculatorError && self@.is_parametrized(),
            },
            !self@.is_parametrized() ==> (r matches Ok(gate) && gate@ == self@),
    {
        let given = evaluate_all(&self.free_parameters, calculator);
        let ghost asked = given@;
        let r = self.with_answers(given);
        proof {
            assert(viewed(r) == self@.with_answers(asked));
            lemma_substitution_outcome(self@, variables(*calculator), viewed(r));
        }
        r
    }

    /// The call with each of its qubits replaced by the entry of `mapping`,
    /// in the same order. Where `mapping` has no entry for a qubit of the
    /// call, the error names the first such qubit.
    pub fn remap_qubits(&self, mapping: &HashMap<usize, usize>) -> (r: Result<Self, RoqoqoError>)
        ensures
            match r {
                Ok(gate) => covers(mapping@, self@.qubits) && gate@ == self@.remapped(mapping@),
                Err(error) => remapping(mapping@, self@.qubits) == Err::<Seq<usize>, RoqoqoError>(
                    error,
                ),
            },
    {
        match remap_qubit_list(&self.qubits, mapping) {
            Ok(qubits) => {
                let free_parameters = self.free_parameters.clone();
                assert(free_parameters@ =~= self.free_parameters@);
                Ok(CallDefinedGate { gate_name: self.gate_name.clone(), qubits, free_parameters })
            },
            Err(error) => Err(error),
        }
    }

    /// The first version of the library that knows this operation.
    pub fn minimum_supported_roqoqo_version(&self) -> (r: (u32, u32, u32))
        ensures
            r == (1u32, 13u32, 0u32),
    {
        (1, 13, 0)
    }
}

/// The number 2^exponent.
pub fn power_of_two(exponent: usize) -> (r: usize)
    requires
        pow2(exponent as nat) <= usize::MAX,
    ensures
        r == pow2(exponent as nat),
{
    let mut power: usize = 1;
    let mut done: usize = 0;
    proof {
        lemma2_to64();
    }
    while done < exponent
        invariant
            done <= exponent,
            power == pow2(done as nat),
            pow2(exponent as nat) <= usize::MAX,
        decreases exponent - done,
    {
        proof {
            lemma_pow2_unfold((done + 1) as nat);
            if done + 1 < exponent {
                lemma_pow2_strictly_increases((done + 1) as nat, exponent as nat);
            }
        }
        power = power * 2;
        done += 1;
    }
    power
}

} // verus!
