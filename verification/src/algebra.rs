//! The algebra of gates on one qubit.
//!
//! A gate on one qubit is given by two complex numbers alpha and beta and a
//! global phase, with the unitary
//! `exp(i * phase) * [[alpha, -conj(beta)], [beta, conj(alpha)]]`.
//! The product of two such gates is again of this form.
use crate::calculator::{
    added, contents, difference, multiplied, product, subtracted, sum, SymbolicFloat,
};
use crate::error::RoqoqoError;
use crate::gate::{GateKind, GateView};
use crate::operations::single_qubit::SingleQubitGate;
use vstd::prelude::*;

verus! {

/// The parameters of the product of two gates on one qubit, each given as
/// real and imaginary part of alpha, real and imaginary part of beta, and
/// global phase:
/// alpha = alpha_l * alpha_r - conj(beta_l) * beta_r,
/// beta = beta_l * alpha_r + conj(alpha_l) * beta_r,
/// and the phases add up. The terms are taken in the order written here.
pub open spec fn composed(left: Seq<SymbolicFloat>, right: Seq<SymbolicFloat>) -> Seq<
    SymbolicFloat,
> {
    let (a, b, c, d) = (left[0], left[1], left[2], left[3]);
    let (e, f, g, h) = (right[0], right[1], right[2], right[3]);
    seq![
        subtracted(
            subtracted(subtracted(multiplied(a, e), multiplied(b, f)), multiplied(c, g)),
            multiplied(d, h),
        ),
        added(
            subtracted(added(multiplied(a, f), multiplied(b, e)), multiplied(c, h)),
            multiplied(d, g),
        ),
        added(
            added(subtracted(multiplied(c, e), multiplied(d, f)), multiplied(a, g)),
            multiplied(b, h),
        ),
        subtracted(
            added(added(multiplied(c, f), multiplied(d, e)), multiplied(a, h)),
            multiplied(b, g),
        ),
        added(left[4], right[4]),
    ]
}

impl SingleQubitGate {
    /// The product of two gates on the same qubit: its unitary is the
    /// unitary of `self` times the unitary of `other`. Gates on different
    /// qubits have no product.
    pub fn mul(&self, other: &SingleQubitGate) -> (r: Result<SingleQubitGate, RoqoqoError>)
        ensures
            match r {
                Ok(gate) => self@.qubits[0] == other@.qubits[0] && gate@ == GateView::plain(
                    GateKind::SingleQubitGate,
                    self@.qubits,
                    composed(self@.parameters, other@.parameters),
                ),
                Err(error) => self@.qubits[0] != other@.qubits[0] && error
                    == (RoqoqoError::MultiplicationIncompatibleQubits {
                    squbit: self@.qubits[0],
                    oqubit: other@.qubits[0],
                }),
            },
            !self@.is_parametrized() && !other@.is_parametrized() ==> match r {
                Ok(gate) => !gate@.is_parametrized(),
                Err(_) => true,
            },
    {
        proof {
            self.lemma_view();
            other.lemma_view();
        }
        let qubit = *self.qubit();
        if qubit != *other.qubit() {
            return Err(
                RoqoqoError::MultiplicationIncompatibleQubits {
                    squbit: qubit,
                    oqubit: *other.qubit(),
                },
            );
        }
        let (a, b, c, d) = (self.alpha_r(), self.alpha_i(), self.beta_r(), self.beta_i());
        let (e, f, g, h) = (other.alpha_r(), other.alpha_i(), other.beta_r(), other.beta_i());
        let alpha_r = difference(
            &difference(&difference(&product(a, e), &product(b, f)), &product(c, g)),
            &product(d, h),
        );
        let alpha_i = sum(
            &difference(&sum(&product(a, f), &product(b, e)), &product(c, h)),
            &product(d, g),
        );
        let beta_r = sum(
            &sum(&difference(&product(c, e), &product(d, f)), &product(a, g)),
            &product(b, h),
        );
        let beta_i = difference(
            &sum(&sum(&product(c, f), &product(d, e)), &product(a, h)),
            &product(b, g),
        );
        let global_phase = sum(self.global_phase(), other.global_phase());
        let gate = SingleQubitGate::new(qubit, alpha_r, alpha_i, beta_r, beta_i, global_phase);
        assert(gate@.parameters =~= composed(self@.parameters, other@.parameters));
        assert(gate@.qubits =~= self@.qubits);
        proof {
            if !self@.is_parametrized() && !other@.is_parametrized() {
                assert forall|i: int| 0 <= i < 5 implies !(
                #[trigger] self@.parameters[i] is Symbolic) && !(
                other@.parameters[i] is Symbolic) by {}
                assert forall|i: int| 0 <= i < 5 implies !(
                #[trigger] gate@.parameters[i] is Symbolic) by {}
            }
        }
        Ok(gate)
    }
}

} // verus!
