//! Tests of the exact unitary matrices.
use qoqo_calculator::{CalculatorError, CalculatorFloat};
use roqoqo::matrix::{Entry, UnitaryMatrix};
use roqoqo::operations::{
    ControlledControlledPauliZ, ControlledControlledPhaseShift, ControlledPhaseShift,
    MultiQubitCNOT, PhaseShiftState1, TripleControlledPauliX, TripleControlledPauliZ, CNOT, SWAP,
};
use roqoqo::RoqoqoError;

/// The image of a basis state: the row that holds the one entry of the column
/// that is not zero, where that entry is 1.
fn image(matrix: &UnitaryMatrix, state: usize) -> Option<usize> {
    let mut found = None;
    for row in 0..matrix.dimension() {
        match matrix.entry(row, state) {
            Entry::Zero => {}
            Entry::One => {
                if found.is_some() {
                    return None;
                }
                found = Some(row);
            }
            _ => return None,
        }
    }
    found
}

fn matrix_output_multi_cnot(num_qubits: usize) {
    let gate = MultiQubitCNOT::new((0..num_qubits).collect());
    let unit = gate.unitary_matrix().unwrap();
    let n = 2_usize.pow(num_qubits as u32);
    assert_eq!(unit.dimension(), n);
    for i in 0..n - 2 {
        assert_eq!(image(&unit, i), Some(i));
    }
    assert_eq!(image(&unit, n - 2), Some(n - 1));
    assert_eq!(image(&unit, n - 1), Some(n - 2));
}

#[test]
fn test_matrix_output_multi_cnot_two_qubit() {
    matrix_output_multi_cnot(2);
}

#[test]
fn test_matrix_output_multi_cnot_three_qubit() {
    matrix_output_multi_cnot(3);
}

#[test]
fn test_matrix_output_multi_cnot_four_qubit() {
    matrix_output_multi_cnot(4);
}

#[test]
fn matrix_of_multi_cnot_on_one_qubit_is_pauli_x() {
    let unit = MultiQubitCNOT::new(vec![9]).unitary_matrix().unwrap();
    assert_eq!(unit.dimension(), 2);
    assert_eq!(unit.entry(0, 0), &Entry::Zero);
    assert_eq!(unit.entry(0, 1), &Entry::One);
    assert_eq!(unit.entry(1, 0), &Entry::One);
    assert_eq!(unit.entry(1, 1), &Entry::Zero);
}

fn assert_diagonal_with_last(matrix: &UnitaryMatrix, dimension: usize, last: &Entry) {
    assert_eq!(matrix.dimension(), dimension);
    for row in 0..dimension {
        for column in 0..dimension {
            let expected = if row != column {
                &Entry::Zero
            } else if row == dimension - 1 {
                last
            } else {
                &Entry::One
            };
            assert_eq!(matrix.entry(row, column), expected);
        }
    }
}

#[test]
fn matrix_of_controlled_controlled_pauli_z() {
    let gate = ControlledControlledPauliZ::new(0, 1, 2);
    assert_diagonal_with_last(&gate.unitary_matrix().unwrap(), 8, &Entry::MinusOne);
}

#[test]
fn matrix_of_controlled_controlled_phase_shift() {
    let gate = ControlledControlledPhaseShift::new(0, 1, 2, CalculatorFloat::from(0.3));
    assert_diagonal_with_last(
        &gate.unitary_matrix().unwrap(),
        8,
        &Entry::Phase(CalculatorFloat::from(0.3)),
    );
}

#[test]
fn matrix_of_a_symbolic_phase_shift_is_an_error() {
    let gate = ControlledControlledPhaseShift::new(0, 1, 2, CalculatorFloat::from("theta"));
    assert_eq!(
        gate.unitary_matrix(),
        Err(RoqoqoError::CalculatorError(
            CalculatorError::FloatSymbolicNotConvertable {
                val: "theta".to_string()
            }
        ))
    );
}

#[test]
fn matrix_of_triple_controlled_pauli_x() {
    let unit = TripleControlledPauliX::new(0, 1, 2, 3).unitary_matrix().unwrap();
    assert_eq!(unit.dimension(), 16);
    for i in 0..14 {
        assert_eq!(image(&unit, i), Some(i));
    }
    assert_eq!(image(&unit, 14), Some(15));
    assert_eq!(image(&unit, 15), Some(14));
}

#[test]
fn matrix_of_triple_controlled_pauli_z() {
    let gate = TripleControlledPauliZ::new(0, 1, 2, 3);
    assert_diagonal_with_last(&gate.unitary_matrix().unwrap(), 16, &Entry::MinusOne);
}

#[test]
fn four_qubit_gates_report_their_fields() {
    let gate = TripleControlledPauliX::new(4, 3, 2, 1);
    assert_eq!(gate.control_0(), &4);
    assert_eq!(gate.control_1(), &3);
    assert_eq!(gate.control_2(), &2);
    assert_eq!(gate.target(), &1);
    assert_eq!(gate.hqslang(), "TripleControlledPauliX");
    assert_eq!(
        gate.tags(),
        &[
            "Operation",
            "GateOperation",
            "MultiQubitGateOperation",
            "TripleControlledPauliX"
        ]
    );
    assert_eq!(gate.minimum_supported_roqoqo_version(), (1, 15, 0));
    let gate = TripleControlledPauliZ::new(4, 3, 2, 1);
    assert_eq!(gate.hqslang(), "TripleControlledPauliZ");
    assert_eq!(
        gate.tags(),
        &[
            "Operation",
            "GateOperation",
            "MultiQubitGateOperation",
            "TripleControlledPauliZ"
        ]
    );
    assert_eq!(gate.minimum_supported_roqoqo_version(), (1, 15, 0));
    assert!(!gate.is_parametrized());
}

#[test]
fn three_qubit_gates_report_their_fields() {
    let gate = ControlledControlledPauliZ::new(4, 3, 2);
    assert_eq!(gate.control_0(), &4);
    assert_eq!(gate.control_1(), &3);
    assert_eq!(gate.target(), &2);
    assert_eq!(
        gate.tags(),
        &[
            "Operation",
            "GateOperation",
            "ThreeQubitGateOperation",
            "ControlledControlledPauliZ"
        ]
    );
    let gate = ControlledControlledPhaseShift::new(4, 3, 2, CalculatorFloat::from("theta"));
    assert_eq!(gate.hqslang(), "ControlledControlledPhaseShift");
    assert_eq!(
        gate.tags(),
        &[
            "Operation",
            "GateOperation",
            "ThreeQubitGateOperation",
            "Rotation",
            "ControlledControlledPhaseShift"
        ]
    );
    assert!(gate.is_parametrized());
    assert_eq!(
        gate.powercf(CalculatorFloat::from(2.0)).theta(),
        &CalculatorFloat::from("(2e0 * theta)")
    );
}

#[test]
fn matrix_of_cnot_and_of_swap() {
    let unit = CNOT::new(0, 1).unitary_matrix().unwrap();
    assert_eq!(unit.dimension(), 4);
    assert_eq!(image(&unit, 0), Some(0));
    assert_eq!(image(&unit, 1), Some(1));
    assert_eq!(image(&unit, 2), Some(3));
    assert_eq!(image(&unit, 3), Some(2));
    let unit = SWAP::new(0, 1).unitary_matrix().unwrap();
    assert_eq!(unit.dimension(), 4);
    assert_eq!(image(&unit, 0), Some(0));
    assert_eq!(image(&unit, 1), Some(2));
    assert_eq!(image(&unit, 2), Some(1));
    assert_eq!(image(&unit, 3), Some(3));
}

#[test]
fn matrix_of_phase_shifts() {
    let gate = ControlledPhaseShift::new(0, 1, CalculatorFloat::from(0.3));
    assert_diagonal_with_last(
        &gate.unitary_matrix().unwrap(),
        4,
        &Entry::Phase(CalculatorFloat::from(0.3)),
    );
    let gate = PhaseShiftState1::new(0, CalculatorFloat::from(-1.5));
    assert_diagonal_with_last(
        &gate.unitary_matrix().unwrap(),
        2,
        &Entry::Phase(CalculatorFloat::from(-1.5)),
    );
    let gate = PhaseShiftState1::new(0, CalculatorFloat::from("phi"));
    assert_eq!(
        gate.unitary_matrix(),
        Err(RoqoqoError::CalculatorError(
            CalculatorError::FloatSymbolicNotConvertable {
                val: "phi".to_string()
            }
        ))
    );
}
