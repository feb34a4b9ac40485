//! Tests of the circuits that the gates on several qubits stand for.
use qoqo_calculator::CalculatorFloat;
use roqoqo::operations::{
    ControlledPhaseShift, Hadamard, MultiQubitCNOT, MultiQubitMS, MultiQubitZZ, Operation,
    PhaseShiftState1, RotateZ, TGate, CNOT, QFT, SWAP,
};
use roqoqo::Circuit;
use std::f64::consts::{FRAC_PI_2, FRAC_PI_4, PI};

fn circuit_of(operations: Vec<Operation>) -> Circuit {
    let mut circuit = Circuit::new();
    for operation in operations {
        circuit.add_operation(operation);
    }
    circuit
}

fn h(qubit: usize) -> Operation {
    Operation::Hadamard(Hadamard::new(qubit))
}

fn t(qubit: usize) -> Operation {
    Operation::TGate(TGate::new(qubit))
}

fn cnot(control: usize, target: usize) -> Operation {
    Operation::CNOT(CNOT::new(control, target))
}

fn swap(control: usize, target: usize) -> Operation {
    Operation::SWAP(SWAP::new(control, target))
}

fn rz(qubit: usize, theta: CalculatorFloat) -> Operation {
    Operation::RotateZ(RotateZ::new(qubit, theta))
}

fn ps1(qubit: usize, theta: CalculatorFloat) -> Operation {
    Operation::PhaseShiftState1(PhaseShiftState1::new(qubit, theta))
}

fn cps(control: usize, target: usize, theta: f64) -> Operation {
    Operation::ControlledPhaseShift(ControlledPhaseShift::new(control, target, theta.into()))
}

#[test]
fn test_circuit_multi_ms_two_qubit() {
    let gate = MultiQubitMS::new(vec![0, 1], CalculatorFloat::FRAC_PI_2);
    let comparison_circuit = circuit_of(vec![
        h(0),
        h(1),
        cnot(0, 1),
        rz(1, CalculatorFloat::FRAC_PI_2),
        cnot(0, 1),
        h(0),
        h(1),
    ]);
    assert!(gate.circuit() == comparison_circuit);
}

#[test]
fn test_circuit_multi_ms_three_qubit() {
    let gate = MultiQubitMS::new(vec![0, 1, 2], CalculatorFloat::FRAC_PI_2);
    let comparison_circuit = circuit_of(vec![
        h(0),
        h(1),
        h(2),
        cnot(0, 1),
        cnot(1, 2),
        rz(2, CalculatorFloat::FRAC_PI_2),
        cnot(1, 2),
        cnot(0, 1),
        h(0),
        h(1),
        h(2),
    ]);
    assert!(gate.circuit() == comparison_circuit);
}

#[test]
fn circuit_of_multi_ms_goes_by_position_and_keeps_the_angle() {
    let gate = MultiQubitMS::new(vec![7, 3, 5], CalculatorFloat::from("theta"));
    let comparison_circuit = circuit_of(vec![
        h(7),
        h(3),
        h(5),
        cnot(7, 3),
        cnot(3, 5),
        rz(5, CalculatorFloat::from("theta")),
        cnot(3, 5),
        cnot(7, 3),
        h(7),
        h(3),
        h(5),
    ]);
    let circuit = gate.circuit();
    assert_eq!(circuit.len(), 11);
    assert!(circuit == comparison_circuit);
}

#[test]
fn circuit_of_multi_ms_on_one_qubit() {
    let gate = MultiQubitMS::new(vec![4], CalculatorFloat::from(0.5));
    assert!(gate.circuit() == circuit_of(vec![h(4), rz(4, CalculatorFloat::from(0.5)), h(4)]));
    let gate = MultiQubitZZ::new(vec![4], CalculatorFloat::from(0.5));
    assert!(gate.circuit() == circuit_of(vec![rz(4, CalculatorFloat::from(0.5))]));
}

#[test]
fn test_circuit_multi_cnot_two_qubit() {
    let gate = MultiQubitCNOT::new(vec![0, 1]);
    assert!(gate.circuit() == circuit_of(vec![cnot(0, 1)]));
}

#[test]
fn test_circuit_multi_cnot_three_qubit() {
    let gate = MultiQubitCNOT::new(vec![0, 1, 2]);
    let comparison_circuit = circuit_of(vec![
        h(2),
        cnot(1, 2),
        ps1(2, -CalculatorFloat::FRAC_PI_4),
        cnot(0, 2),
        t(2),
        cnot(1, 2),
        ps1(2, -CalculatorFloat::FRAC_PI_4),
        cnot(0, 2),
        t(1),
        t(2),
        h(2),
        cnot(0, 1),
        t(0),
        ps1(1, -CalculatorFloat::FRAC_PI_4),
        cnot(0, 1),
    ]);
    assert!(gate.circuit() == comparison_circuit);
}

#[test]
fn test_circuit_multi_zz_two_qubit() {
    let gate = MultiQubitZZ::new(vec![0, 1], CalculatorFloat::FRAC_PI_2);
    let comparison_circuit =
        circuit_of(vec![cnot(0, 1), rz(1, CalculatorFloat::FRAC_PI_2), cnot(0, 1)]);
    assert!(gate.circuit() == comparison_circuit);
}

#[test]
fn test_circuit_multi_zz_three_qubit() {
    let gate = MultiQubitZZ::new(vec![0, 1, 2], CalculatorFloat::FRAC_PI_2);
    let comparison_circuit = circuit_of(vec![
        cnot(0, 1),
        cnot(1, 2),
        rz(2, CalculatorFloat::FRAC_PI_2),
        cnot(1, 2),
        cnot(0, 1),
    ]);
    assert!(gate.circuit() == comparison_circuit);
}

fn expected_qft(qubits: &[usize], swap_gates: bool, inverse: bool) -> Circuit {
    let sign = if inverse { -1. } else { 1. };
    let mut operations = Vec::new();
    if qubits.len() == 1 {
        operations.push(h(0));
    } else if qubits.len() == 2 {
        if swap_gates && inverse {
            operations.push(swap(0, 1));
        }
        operations.push(h(0));
        operations.push(cps(1, 0, sign * FRAC_PI_2));
        operations.push(h(1));
        if swap_gates && !inverse {
            operations.push(swap(0, 1));
        }
    } else if qubits.len() == 3 {
        if swap_gates && inverse {
            operations.push(swap(0, 2));
        }
        operations.push(h(0));
        operations.push(cps(1, 0, sign * FRAC_PI_2));
        operations.push(cps(2, 0, sign * FRAC_PI_4));
        operations.push(h(1));
        operations.push(cps(2, 1, sign * FRAC_PI_2));
        operations.push(h(2));
        if swap_gates && !inverse {
            operations.push(swap(0, 2));
        }
    }
    circuit_of(operations)
}

#[test]
fn test_circuit_qft() {
    for qubits in [vec![0], vec![0, 1], vec![0, 1, 2]] {
        for swap_gates in [false, true] {
            for inverse in [false, true] {
                let gate = QFT::new(qubits.clone(), swap_gates, inverse);
                let c = gate.circuit();
                assert!(c == expected_qft(&qubits, swap_gates, inverse));
            }
        }
    }
}

#[test]
fn circuit_of_qft_on_four_qubits() {
    let gate = QFT::new(vec![3, 2, 1, 0], true, false);
    let comparison_circuit = circuit_of(vec![
        h(3),
        cps(2, 3, PI / 2.0),
        cps(1, 3, PI / 4.0),
        cps(0, 3, PI / 8.0),
        h(2),
        cps(1, 2, PI / 2.0),
        cps(0, 2, PI / 4.0),
        h(1),
        cps(0, 1, PI / 2.0),
        h(0),
        swap(3, 0),
        swap(2, 1),
    ]);
    assert!(gate.circuit() == comparison_circuit);
    let inverse = QFT::new(vec![3, 2, 1, 0], true, true).circuit();
    assert_eq!(inverse.len(), 12);
    assert_eq!(inverse.get(0), Some(&swap(3, 0)));
    assert_eq!(inverse.get(1), Some(&swap(2, 1)));
    assert_eq!(inverse.get(5), Some(&cps(0, 3, -PI / 8.0)));
    assert_eq!(inverse.get(12), None);
}

#[test]
fn circuit_of_qft_without_qubits_is_empty() {
    let circuit = QFT::new(vec![], true, false).circuit();
    assert!(circuit.is_empty());
    assert_eq!(circuit.len(), 0);
    assert_eq!(circuit.operations().len(), 0);
}

#[test]
fn circuit_is_parametrized_where_a_gate_is() {
    assert!(!Circuit::new().is_parametrized());
    assert!(!circuit_of(vec![h(0), cnot(0, 1)]).is_parametrized());
    assert!(circuit_of(vec![h(0), rz(1, CalculatorFloat::from("theta")), h(0)]).is_parametrized());
    assert!(MultiQubitMS::new(vec![0, 1], CalculatorFloat::from("theta")).circuit().is_parametrized());
    assert!(!MultiQubitMS::new(vec![0, 1], CalculatorFloat::from(0.5)).circuit().is_parametrized());
    assert!(!QFT::new(vec![0, 1, 2, 3], true, true).circuit().is_parametrized());
    assert!(!MultiQubitCNOT::new(vec![0, 1, 2, 3]).circuit().is_parametrized());
}

#[test]
fn decomposed_gates_have_numbers_for_angles() {
    let circuit = QFT::new(vec![0, 1, 2], false, true).circuit();
    for operation in circuit.operations() {
        assert!(!operation.is_parametrized());
    }
    let circuit = MultiQubitCNOT::new(vec![5, 6, 7]).circuit();
    for operation in circuit.operations() {
        assert!(!operation.is_parametrized());
    }
}
