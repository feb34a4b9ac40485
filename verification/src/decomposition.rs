//! The decomposition of the gates on several qubits into circuits of gates
//! on one and two qubits.
//!
//! Every decomposition is a function of the qubit list, the angle and the
//! flags alone. The qubits are taken by their position in the list.
use crate::calculator::{
    contents, half, halved, negated, negative, pi, SymbolicFloat, PI_BITS,
};
use crate::circuit::{any_parametrized, Circuit};
use crate::gate::{GateKind, GateView};
use crate::operation::Operation;
use crate::operations::multi_qubit::{MultiQubitCNOT, MultiQubitMS, MultiQubitZZ, QFT};
use crate::operations::single_qubit::{Hadamard, PhaseShiftState1, RotateZ, TGate};
use crate::operations::three_qubit::{ControlledControlledPauliZ, ControlledControlledPhaseShift};
use crate::operations::two_qubit::{ControlledPhaseShift, CNOT, SWAP};
use crate::parameters::lemma_any_symbolic_of_one;
use qoqo_calculator::CalculatorFloat;
use vstd::prelude::*;

verus! {

/// The Hadamard gate on `qubit`.
pub open spec fn hadamard(qubit: usize) -> GateView {
    GateView::plain(GateKind::Hadamard, seq![qubit], Seq::empty())
}

/// The T gate on `qubit`.
pub open spec fn t_gate(qubit: usize) -> GateView {
    GateView::plain(GateKind::TGate, seq![qubit], Seq::empty())
}

/// The rotation about z on `qubit` by `theta`.
pub open spec fn rotate_z(qubit: usize, theta: SymbolicFloat) -> GateView {
    GateView::plain(GateKind::RotateZ, seq![qubit], seq![theta])
}

/// The phase shift of |1> on `qubit` by `theta`.
pub open spec fn phase_shift_state_1(qubit: usize, theta: SymbolicFloat) -> GateView {
    GateView::plain(GateKind::PhaseShiftState1, seq![qubit], seq![theta])
}

/// The controlled NOT from `control` to `target`.
pub open spec fn cnot(control: usize, target: usize) -> GateView {
    GateView::plain(GateKind::CNOT, seq![control, target], Seq::empty())
}

/// The SWAP of `first` and `second`.
pub open spec fn swap(first: usize, second: usize) -> GateView {
    GateView::plain(GateKind::SWAP, seq![first, second], Seq::empty())
}

/// The controlled phase shift from `control` to `target` by `theta`.
pub open spec fn controlled_phase_shift(
    control: usize,
    target: usize,
    theta: SymbolicFloat,
) -> GateView {
    GateView::plain(GateKind::ControlledPhaseShift, seq![control, target], seq![theta])
}

/// The angle pi / 2^exponent: pi, halved `exponent` times.
pub open spec fn dyadic_angle(exponent: nat) -> SymbolicFloat
    decreases exponent,
{
    if exponent == 0 {
        SymbolicFloat::Literal(PI_BITS)
    } else {
        half(dyadic_angle((exponent - 1) as nat))
    }
}

/// The angle pi / 2^exponent, negative for the inverse transform.
pub open spec fn signed_dyadic_angle(exponent: nat, inverse: bool) -> SymbolicFloat {
    if inverse {
        negated(dyadic_angle(exponent))
    } else {
        dyadic_angle(exponent)
    }
}

/// A Hadamard gate on every qubit of the list, in order.
pub open spec fn hadamards(qubits: Seq<usize>) -> Seq<GateView> {
    Seq::new(qubits.len(), |i: int| hadamard(qubits[i]))
}

/// The staircase of controlled NOTs from each qubit of the list to the next.
pub open spec fn staircase(qubits: Seq<usize>) -> Seq<GateView> {
    Seq::new((qubits.len() - 1) as nat, |i: int| cnot(qubits[i], qubits[i + 1]))
}

/// The staircase in reverse order.
pub open spec fn staircase_back(qubits: Seq<usize>) -> Seq<GateView> {
    Seq::new(
        (qubits.len() - 1) as nat,
        |i: int| cnot(qubits[qubits.len() - 2 - i], qubits[qubits.len() - 1 - i]),
    )
}

/// The rotation under the product of Pauli Z operators: the staircase
/// gathers the parity of the qubits in the last one, which is rotated about
/// z, and the staircase back restores the qubits.
pub open spec fn zz_decomposition(qubits: Seq<usize>, theta: SymbolicFloat) -> Seq<GateView> {
    staircase(qubits) + seq![rotate_z(qubits.last(), theta)] + staircase_back(qubits)
}

/// The Molmer-Sorensen rotation: the rotation under the product of Pauli Z
/// operators between two layers of Hadamard gates.
pub open spec fn ms_decomposition(qubits: Seq<usize>, theta: SymbolicFloat) -> Seq<GateView> {
    hadamards(qubits) + zz_decomposition(qubits, theta) + hadamards(qubits)
}

/// The angle -pi/4.
pub open spec fn minus_quarter_pi() -> SymbolicFloat {
    negated(dyadic_angle(2))
}

/// The Toffoli gate with the controls `first` and `second` on `target`, in
/// Hadamard, T, controlled NOT and phase shift gates.
pub open spec fn toffoli_decomposition(first: usize, second: usize, target: usize) -> Seq<
    GateView,
> {
    seq![
        hadamard(target),
        cnot(second, target),
        phase_shift_state_1(target, minus_quarter_pi()),
        cnot(first, target),
        t_gate(target),
        cnot(second, target),
        phase_shift_state_1(target, minus_quarter_pi()),
        cnot(first, target),
        t_gate(second),
        t_gate(target),
        hadamard(target),
        cnot(first, second),
        t_gate(first),
        phase_shift_state_1(second, minus_quarter_pi()),
        cnot(first, second),
    ]
}

/// The qubits of the list without the last control: the controls before it,
/// and the target.
pub open spec fn without_last_control(qubits: Seq<usize>) -> Seq<usize> {
    qubits.take(qubits.len() - 2).push(qubits.last())
}

/// The phase shift with controls: the state in which every qubit of the
/// list is |1> is multiplied by exp(i * angle).
///
/// On two qubits this is the controlled phase shift. On more, with the
/// last qubit as the target, the qubit before it as the last control and V
/// the shift by half the angle: V from the last control, the NOT from the
/// other controls on the last control, the inverse of V from the last
/// control, that NOT again, and V controlled by the other controls. The
/// target is shifted by V as often as the last control and the other
/// controls are set, less once where exactly one of the two is set: twice
/// where all are set, and else not at all.
pub open spec fn controlled_phase_decomposition(qubits: Seq<usize>, angle: SymbolicFloat) -> Seq<
    GateView,
>
    decreases qubits.len(), 0nat,
{
    if qubits.len() <= 2 {
        seq![controlled_phase_shift(qubits[0], qubits[1], angle)]
    } else {
        let last_control = qubits[qubits.len() - 2];
        let target = qubits.last();
        seq![controlled_phase_shift(last_control, target, half(angle))] + cnot_decomposition(
            qubits.drop_last(),
        ) + seq![controlled_phase_shift(last_control, target, negated(half(angle)))]
            + cnot_decomposition(qubits.drop_last()) + controlled_phase_decomposition(
            without_last_control(qubits),
            half(angle),
        )
    }
}

/// The NOT with controls, the last qubit of the list as the target: with
/// one control the controlled NOT itself, with two controls the Toffoli
/// gate, and with more the phase shift by pi with controls between two
/// Hadamard gates on the target.
pub open spec fn cnot_decomposition(qubits: Seq<usize>) -> Seq<GateView>
    decreases qubits.len(), 1nat,
{
    if qubits.len() <= 2 {
        seq![cnot(qubits[0], qubits[1])]
    } else if qubits.len() == 3 {
        toffoli_decomposition(qubits[0], qubits[1], qubits[2])
    } else {
        seq![hadamard(qubits.last())] + controlled_phase_decomposition(
            qubits,
            SymbolicFloat::Literal(PI_BITS),
        ) + seq![hadamard(qubits.last())]
    }
}

/// The SWAP gates that reverse the order of the qubits of the list.
pub open spec fn reversal(qubits: Seq<usize>) -> Seq<GateView> {
    Seq::new(
        (qubits.len() / 2) as nat,
        |i: int| swap(qubits[i], qubits[qubits.len() - 1 - i]),
    )
}

/// The stage of the Fourier transform for the qubit at `position`: a
/// Hadamard gate on it, then from every later qubit a controlled phase shift
/// on it, by pi/2 from the next qubit, pi/4 from the one after, and so on.
pub open spec fn qft_stage(qubits: Seq<usize>, inverse: bool, position: int) -> Seq<GateView> {
    seq![hadamard(qubits[position])] + Seq::new(
        (qubits.len() - 1 - position) as nat,
        |k: int|
            controlled_phase_shift(
                qubits[position + 1 + k],
                qubits[position],
                signed_dyadic_angle((k + 1) as nat, inverse),
            ),
    )
}

/// The first `count` stages of the Fourier transform, in order.
pub open spec fn qft_stages(qubits: Seq<usize>, inverse: bool, count: nat) -> Seq<GateView>
    decreases count,
{
    if count == 0 {
        Seq::empty()
    } else {
        qft_stages(qubits, inverse, (count - 1) as nat) + qft_stage(qubits, inverse, count - 1)
    }
}

/// The Fourier transform: a stage for every qubit. With `swaps`, the order
/// of the qubits is reversed, after the stages of the transform and before
/// the stages of its inverse.
pub open spec fn qft_decomposition(qubits: Seq<usize>, swaps: bool, inverse: bool) -> Seq<
    GateView,
> {
    (if swaps && inverse {
        reversal(qubits)
    } else {
        Seq::empty()
    }) + qft_stages(qubits, inverse, qubits.len()) + (if swaps && !inverse {
        reversal(qubits)
    } else {
        Seq::empty()
    })
}

/// Appends a Hadamard gate on every qubit of the list.
fn append_hadamards(circuit: &mut Circuit, qubits: &Vec<usize>)
    ensures
        final(circuit)@ == old(circuit)@ + hadamards(qubits@),
        any_parametrized(final(circuit)@) == any_parametrized(old(circuit)@),
{
    let ghost start = circuit@;
    let mut index: usize = 0;
    while index < qubits.len()
        invariant
            index <= qubits.len(),
            circuit@ == start + hadamards(qubits@).take(index as int),
            any_parametrized(circuit@) == any_parametrized(start),
        decreases qubits.len() - index,
    {
        circuit.add_operation(Operation::Hadamard(Hadamard::new(qubits[index])));
        index += 1;
        assert(circuit@ =~= start + hadamards(qubits@).take(index as int));
    }
    assert(hadamards(qubits@).take(index as int) =~= hadamards(qubits@));
}

/// Appends the staircase of controlled NOTs over the list.
fn append_staircase(circuit: &mut Circuit, qubits: &Vec<usize>)
    requires
        qubits@.len() >= 1,
    ensures
        final(circuit)@ == old(circuit)@ + staircase(qubits@),
        any_parametrized(final(circuit)@) == any_parametrized(old(circuit)@),
{
    let ghost start = circuit@;
    let mut index: usize = 0;
    while index < qubits.len() - 1
        invariant
            qubits@.len() >= 1,
            index <= qubits.len() - 1,
            circuit@ == start + staircase(qubits@).take(index as int),
            any_parametrized(circuit@) == any_parametrized(start),
        decreases qubits.len() - 1 - index,
    {
        circuit.add_operation(Operation::CNOT(CNOT::new(qubits[index], qubits[index + 1])));
        index += 1;
        assert(circuit@ =~= start + staircase(qubits@).take(index as int));
    }
    assert(staircase(qubits@).take(index as int) =~= staircase(qubits@));
}

/// Appends the staircase of controlled NOTs over the list in reverse order.
fn append_staircase_back(circuit: &mut Circuit, qubits: &Vec<usize>)
    requires
        qubits@.len() >= 1,
    ensures
        final(circuit)@ == old(circuit)@ + staircase_back(qubits@),
        any_parametrized(final(circuit)@) == any_parametrized(old(circuit)@),
{
    let ghost start = circuit@;
    let length = qubits.len();
    let mut index: usize = 0;
    while index < length - 1
        invariant
            length == qubits@.len(),
            length >= 1,
            index <= length - 1,
            circuit@ == start + staircase_back(qubits@).take(index as int),
            any_parametrized(circuit@) == any_parametrized(start),
        decreases length - 1 - index,
    {
        circuit.add_operation(
            Operation::CNOT(CNOT::new(qubits[length - 2 - index], qubits[length - 1 - index])),
        );
        index += 1;
        assert(circuit@ =~= start + staircase_back(qubits@).take(index as int));
    }
    assert(staircase_back(qubits@).take(index as int) =~= staircase_back(qubits@));
}

/// Appends the rotation under the product of Pauli Z operators.
fn append_zz(circuit: &mut Circuit, qubits: &Vec<usize>, theta: &CalculatorFloat)
    requires
        qubits@.len() >= 1,
    ensures
        final(circuit)@ == old(circuit)@ + zz_decomposition(qubits@, contents(*theta)),
        any_parametrized(final(circuit)@) == (any_parametrized(old(circuit)@) || contents(
            *theta,
        ) is Symbolic),
{
    let ghost start = circuit@;
    append_staircase(circuit, qubits);
    let last = qubits[qubits.len() - 1];
    proof {
        lemma_any_symbolic_of_one(contents(*theta));
    }
    circuit.add_operation(Operation::RotateZ(RotateZ::new(last, theta.clone())));
    append_staircase_back(circuit, qubits);
    assert(circuit@ =~= start + zz_decomposition(qubits@, contents(*theta)));
}

/// Appends the SWAP gates that reverse the order of the qubits of the list.
fn append_reversal(circuit: &mut Circuit, qubits: &Vec<usize>)
    ensures
        final(circuit)@ == old(circuit)@ + reversal(qubits@),
        any_parametrized(final(circuit)@) == any_parametrized(old(circuit)@),
{
    let ghost start = circuit@;
    let length = qubits.len();
    let mut index: usize = 0;
    while index < length / 2
        invariant
            length == qubits@.len(),
            index <= length / 2,
            circuit@ == start + reversal(qubits@).take(index as int),
            any_parametrized(circuit@) == any_parametrized(start),
        decreases length / 2 - index,
    {
        let mirrored = qubits[length - 1 - index];
        circuit.add_operation(Operation::SWAP(SWAP::new(qubits[index], mirrored)));
        index += 1;
        assert(circuit@ =~= start + reversal(qubits@).take(index as int));
    }
    assert(reversal(qubits@).take(index as int) =~= reversal(qubits@));
}

/// Appends the stage of the Fourier transform for the qubit at `position`.
fn append_qft_stage(circuit: &mut Circuit, qubits: &Vec<usize>, inverse: bool, position: usize)
    requires
        position < qubits@.len(),
    ensures
        final(circuit)@ == old(circuit)@ + qft_stage(qubits@, inverse, position as int),
        any_parametrized(final(circuit)@) == any_parametrized(old(circuit)@),
{
    let ghost start = circuit@;
    let ghost stage = qft_stage(qubits@, inverse, position as int);
    let length = qubits.len();
    circuit.add_operation(Operation::Hadamard(Hadamard::new(qubits[position])));
    assert(circuit@ =~= start + stage.take(1));
    let mut angle = pi();
    let mut other: usize = position + 1;
    while other < length
        invariant
            length == qubits@.len(),
            position < other <= length,
            stage == qft_stage(qubits@, inverse, position as int),
            contents(angle) == dyadic_angle((other - position - 1) as nat),
            circuit@ == start + stage.take(other - position),
            any_parametrized(circuit@) == any_parametrized(start),
            contents(angle) is Literal,
        decreases length - other,
    {
        angle = halved(&angle);
        assert(contents(angle) == dyadic_angle((other - position) as nat));
        let signed = if inverse {
            negative(&angle)
        } else {
            angle.clone()
        };
        proof {
            lemma_any_symbolic_of_one(contents(signed));
        }
        circuit.add_operation(
            Operation::ControlledPhaseShift(
                ControlledPhaseShift::new(qubits[other], qubits[position], signed),
            ),
        );
        other += 1;
        assert(circuit@ =~= start + stage.take(other - position));
    }
    assert(stage.take(other - position) =~= stage);
}

impl MultiQubitMS {
    /// The circuit that this gate stands for: Hadamard gates on every qubit,
    /// the staircase of controlled NOTs from the first qubit to the last, the
    /// rotation of the last qubit about z by the angle `theta`, the
    /// staircase back, and Hadamard gates on every qubit.
    pub fn circuit(&self) -> (circuit: Circuit)
        requires
            self@.qubits.len() >= 1,
        ensures
            circuit@ == ms_decomposition(self@.qubits, self@.parameters[0]),
            any_parametrized(circuit@) == self@.is_parametrized(),
    {
        proof {
            self.lemma_view();
            lemma_any_symbolic_of_one(self@.parameters[0]);
        }
        let mut circuit = Circuit::new();
        append_hadamards(&mut circuit, self.qubits());
        append_zz(&mut circuit, self.qubits(), self.theta());
        append_hadamards(&mut circuit, self.qubits());
        assert(circuit@ =~= ms_decomposition(self@.qubits, self@.parameters[0]));
        circuit
    }
}

impl MultiQubitZZ {
    /// The circuit that this gate stands for: the staircase of controlled
    /// NOTs from the first qubit to the last, the rotation of the last qubit
    /// about z by the angle `theta`, and the staircase back.
    pub fn circuit(&self) -> (circuit: Circuit)
        requires
            self@.qubits.len() >= 1,
        ensures
            circuit@ == zz_decomposition(self@.qubits, self@.parameters[0]),
            any_parametrized(circuit@) == self@.is_parametrized(),
    {
        proof {
            self.lemma_view();
            lemma_any_symbolic_of_one(self@.parameters[0]);
        }
        let mut circuit = Circuit::new();
        append_zz(&mut circuit, self.qubits(), self.theta());
        assert(circuit@ =~= zz_decomposition(self@.qubits, self@.parameters[0]));
        circuit
    }
}

/// The first `count` qubits of the list.
fn first_qubits(qubits: &Vec<usize>, count: usize) -> (r: Vec<usize>)
    requires
        count <= qubits@.len(),
    ensures
        r@ == qubits@.take(count as int),
{
    let mut first: Vec<usize> = Vec::new();
    let mut index: usize = 0;
    while index < count
        invariant
            index <= count <= qubits@.len(),
            first@ == qubits@.take(index as int),
        decreases count - index,
    {
        first.push(qubits[index]);
        index += 1;
        assert(first@ =~= qubits@.take(index as int));
    }
    first
}

/// Appends the Toffoli gate with the controls `first` and `second` on `target`.
fn append_toffoli(circuit: &mut Circuit, first: usize, second: usize, target: usize)
    ensures
        final(circuit)@ == old(circuit)@ + toffoli_decomposition(first, second, target),
        any_parametrized(final(circuit)@) == any_parametrized(old(circuit)@),
{
    let quarter = halved(&halved(&pi()));
    assert(contents(quarter) == dyadic_angle(2)) by {
        assert(dyadic_angle(1) == half(dyadic_angle(0)));
        assert(dyadic_angle(2) == half(dyadic_angle(1)));
    }
    let angle = negative(&quarter);
    proof {
        lemma_any_symbolic_of_one(contents(angle));
    }
    circuit.add_operation(Operation::Hadamard(Hadamard::new(target)));
    circuit.add_operation(Operation::CNOT(CNOT::new(second, target)));
    circuit.add_operation(
        Operation::PhaseShiftState1(PhaseShiftState1::new(target, angle.clone())),
    );
    circuit.add_operation(Operation::CNOT(CNOT::new(first, target)));
    circuit.add_operation(Operation::TGate(TGate::new(target)));
    circuit.add_operation(Operation::CNOT(CNOT::new(second, target)));
    circuit.add_operation(
        Operation::PhaseShiftState1(PhaseShiftState1::new(target, angle.clone())),
    );
    circuit.add_operation(Operation::CNOT(CNOT::new(first, target)));
    circuit.add_operation(Operation::TGate(TGate::new(second)));
    circuit.add_operation(Operation::TGate(TGate::new(target)));
    circuit.add_operation(Operation::Hadamard(Hadamard::new(target)));
    circuit.add_operation(Operation::CNOT(CNOT::new(first, second)));
    circuit.add_operation(Operation::TGate(TGate::new(first)));
    circuit.add_operation(Operation::PhaseShiftState1(PhaseShiftState1::new(second, angle)));
    circuit.add_operation(Operation::CNOT(CNOT::new(first, second)));
    assert(circuit@ =~= old(circuit)@ + toffoli_decomposition(first, second, target));
}

/// Appends the NOT with controls.
fn append_cnot(circuit: &mut Circuit, qubits: &Vec<usize>)
    requires
        qubits@.len() >= 2,
    ensures
        final(circuit)@ == old(circuit)@ + cnot_decomposition(qubits@),
        any_parametrized(final(circuit)@) == any_parametrized(old(circuit)@),
    decreases qubits@.len(), 1nat,
{
    let ghost start = circuit@;
    let length = qubits.len();
    if length == 2 {
        circuit.add_operation(Operation::CNOT(CNOT::new(qubits[0], qubits[1])));
        assert(circuit@ =~= start + cnot_decomposition(qubits@));
    } else if length == 3 {
        append_toffoli(circuit, qubits[0], qubits[1], qubits[2]);
    } else {
        let target = qubits[length - 1];
        circuit.add_operation(Operation::Hadamard(Hadamard::new(target)));
        let angle = pi();
        append_controlled_phase(circuit, qubits, &angle);
        circuit.add_operation(Operation::Hadamard(Hadamard::new(target)));
        assert(circuit@ =~= start + cnot_decomposition(qubits@));
    }
}

/// Appends the phase shift with controls by `angle`.
fn append_controlled_phase(circuit: &mut Circuit, qubits: &Vec<usize>, angle: &CalculatorFloat)
    requires
        qubits@.len() >= 2,
    ensures
        final(circuit)@ == old(circuit)@ + controlled_phase_decomposition(
            qubits@,
            contents(*angle),
        ),
        any_parametrized(final(circuit)@) == (any_parametrized(old(circuit)@) || contents(
            *angle,
        ) is Symbolic),
    decreases qubits@.len(), 0nat,
{
    let ghost start = circuit@;
    let length = qubits.len();
    proof {
        lemma_any_symbolic_of_one(contents(*angle));
    }
    if length == 2 {
        circuit.add_operation(
            Operation::ControlledPhaseShift(
                ControlledPhaseShift::new(qubits[0], qubits[1], angle.clone()),
            ),
        );
        assert(circuit@ =~= start + controlled_phase_decomposition(qubits@, contents(*angle)));
    } else {
        let last_control = qubits[length - 2];
        let target = qubits[length - 1];
        let half_angle = halved(angle);
        let minus_half_angle = negative(&half_angle);
        proof {
            lemma_any_symbolic_of_one(contents(half_angle));
            lemma_any_symbolic_of_one(contents(minus_half_angle));
        }
        let controls = first_qubits(qubits, length - 1);
        assert(controls@ =~= qubits@.drop_last());
        let mut others = first_qubits(qubits, length - 2);
        others.push(target);
        assert(others@ =~= without_last_control(qubits@));
        circuit.add_operation(
            Operation::ControlledPhaseShift(
                ControlledPhaseShift::new(last_control, target, half_angle.clone()),
            ),
        );
        append_cnot(circuit, &controls);
        circuit.add_operation(
            Operation::ControlledPhaseShift(
                ControlledPhaseShift::new(last_control, target, minus_half_angle),
            ),
        );
        append_cnot(circuit, &controls);
        append_controlled_phase(circuit, &others, &half_angle);
        assert(circuit@ =~= start + controlled_phase_decomposition(qubits@, contents(*angle)));
    }
}

impl ControlledControlledPauliZ {
    /// The circuit that this gate stands for: the phase shift by pi with two
    /// controls, in controlled phase shifts by pi/2 and controlled NOTs.
    pub fn circuit(&self) -> (circuit: Circuit)
        ensures
            circuit@ == controlled_phase_decomposition(
                self@.qubits,
                SymbolicFloat::Literal(PI_BITS),
            ),
            !any_parametrized(circuit@),
    {
        proof {
            self.lemma_view();
        }
        let mut qubits: Vec<usize> = Vec::new();
        qubits.push(*self.control_0());
        qubits.push(*self.control_1());
        qubits.push(*self.target());
        assert(qubits@ =~= self@.qubits);
        let angle = pi();
        let mut circuit = Circuit::new();
        append_controlled_phase(&mut circuit, &qubits, &angle);
        assert(circuit@ =~= controlled_phase_decomposition(
            self@.qubits,
            SymbolicFloat::Literal(PI_BITS),
        ));
        circuit
    }
}

impl ControlledControlledPhaseShift {
    /// The circuit that this gate stands for: controlled phase shifts by
    /// half the angle `theta` from each control, with between them the
    /// shift back from the second control where the controls differ.
    pub fn circuit(&self) -> (circuit: Circuit)
        ensures
            circuit@ == controlled_phase_decomposition(self@.qubits, self@.parameters[0]),
            any_parametrized(circuit@) == self@.is_parametrized(),
    {
        proof {
            self.lemma_view();
            lemma_any_symbolic_of_one(self@.parameters[0]);
        }
        let mut qubits: Vec<usize> = Vec::new();
        qubits.push(*self.control_0());
        qubits.push(*self.control_1());
        qubits.push(*self.target());
        assert(qubits@ =~= self@.qubits);
        let mut circuit = Circuit::new();
        append_controlled_phase(&mut circuit, &qubits, self.theta());
        assert(circuit@ =~= controlled_phase_decomposition(self@.qubits, self@.parameters[0]));
        circuit
    }
}

impl MultiQubitCNOT {
    /// The circuit that this gate stands for, the last qubit being the
    /// target: with one control the controlled NOT itself, with two controls
    /// the Toffoli gate in gates on one and two qubits, and with more
    /// controls controlled phase shifts by pi/2, pi/4 and so on, with NOTs
    /// with fewer controls between them.
    pub fn circuit(&self) -> (circuit: Circuit)
        requires
            self@.qubits.len() >= 2,
        ensures
            circuit@ == cnot_decomposition(self@.qubits),
            !any_parametrized(circuit@),
    {
        let mut circuit = Circuit::new();
        append_cnot(&mut circuit, self.qubits());
        assert(circuit@ =~= cnot_decomposition(self@.qubits));
        circuit
    }
}

impl QFT {
    /// The circuit that the transform stands for: for every qubit in order a
    /// Hadamard gate and controlled phase shifts from the later qubits, by
    /// the angles pi/2, pi/4 and so on, negative for the inverse. With
    /// `swaps` the order of the qubits is reversed by SWAP gates, after the
    /// transform and before its inverse.
    pub fn circuit(&self) -> (circuit: Circuit)
        ensures
            circuit@ == qft_decomposition(self@.qubits, self@.flags[0], self@.flags[1]),
            !any_parametrized(circuit@),
    {
        let qubits = self.qubits();
        let swaps = *self.swaps();
        let inverse = *self.inverse();
        let mut circuit = Circuit::new();
        if swaps && inverse {
            append_reversal(&mut circuit, qubits);
        }
        let ghost start = circuit@;
        let mut position: usize = 0;
        while position < qubits.len()
            invariant
                position <= qubits.len(),
                circuit@ == start + qft_stages(qubits@, inverse, position as nat),
                !any_parametrized(circuit@),
            decreases qubits.len() - position,
        {
            append_qft_stage(&mut circuit, qubits, inverse, position);
            position += 1;
            assert(circuit@ =~= start + qft_stages(qubits@, inverse, position as nat));
        }
        if swaps && !inverse {
            append_reversal(&mut circuit, qubits);
        }
        assert(circuit@ =~= qft_decomposition(self@.qubits, swaps, inverse));
        circuit
    }
}

} // verus!
