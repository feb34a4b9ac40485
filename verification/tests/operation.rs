//! Tests of the union of all gates and of the laws that hold of every gate.
use qoqo_calculator::{Calculator, CalculatorFloat};
use roqoqo::operations::{
    CallDefinedGate, CompareOp, ControlledControlledPhaseShift, ControlledPhaseShift, GateKind, Hadamard,
    InvolvedQubits, MultiQubitMS, Operation, RotateX, CNOT, QFT, AVAILABLE_GATES_HQSLANG,
};
use roqoqo::parameters::{collect, evaluate_all, has_symbolic};
use roqoqo::qubits::{involved_set, remap_qubit_list};
use roqoqo::RoqoqoError;
use std::collections::{HashMap, HashSet};

fn some_operations() -> Vec<Operation> {
    vec![
        Operation::Hadamard(Hadamard::new(2)),
        Operation::RotateX(RotateX::new(1, CalculatorFloat::from("theta"))),
        Operation::CNOT(CNOT::new(0, 2)),
        Operation::ControlledPhaseShift(ControlledPhaseShift::new(2, 1, CalculatorFloat::from(0.5))),
        Operation::ControlledControlledPhaseShift(ControlledControlledPhaseShift::new(
            0,
            1,
            2,
            CalculatorFloat::from("phi"),
        )),
        Operation::MultiQubitMS(MultiQubitMS::new(vec![2, 0, 1], CalculatorFloat::from(1.5))),
        Operation::QFT(QFT::new(vec![1, 2], true, false)),
        Operation::CallDefinedGate(CallDefinedGate::new(
            "name".to_string(),
            vec![0, 1],
            vec![CalculatorFloat::from("theta"), CalculatorFloat::from(2.0)],
        )),
    ]
}

#[test]
fn every_kind_has_its_name_and_the_name_is_its_last_tag() {
    let kinds = [
        GateKind::SingleQubitGate,
        GateKind::RotateX,
        GateKind::RotateY,
        GateKind::RotateZ,
        GateKind::PhaseShiftState0,
        GateKind::PhaseShiftState1,
        GateKind::RotateAroundSphericalAxis,
        GateKind::Hadamard,
        GateKind::TGate,
        GateKind::CNOT,
        GateKind::SWAP,
        GateKind::ControlledPhaseShift,
        GateKind::ControlledControlledPauliZ,
        GateKind::ControlledControlledPhaseShift,
        GateKind::TripleControlledPauliX,
        GateKind::TripleControlledPauliZ,
        GateKind::MultiQubitMS,
        GateKind::MultiQubitZZ,
        GateKind::MultiQubitCNOT,
        GateKind::QFT,
        GateKind::CallDefinedGate,
    ];
    for (kind, name) in kinds.iter().zip(AVAILABLE_GATES_HQSLANG.iter()) {
        assert_eq!(kind.hqslang(), *name);
        let tags = kind.tags();
        assert_eq!(tags[0], "Operation");
        assert_eq!(tags.last(), Some(name));
    }
    assert_eq!(
        GateKind::ControlledPhaseShift.tags(),
        &[
            "Operation",
            "GateOperation",
            "TwoQubitGateOperation",
            "Rotation",
            "ControlledPhaseShift"
        ]
    );
    assert_eq!(
        GateKind::CNOT.tags(),
        &["Operation", "GateOperation", "TwoQubitGateOperation", "CNOT"]
    );
}

#[test]
fn operation_answers_as_the_gate_inside() {
    let operations = some_operations();
    let names = [
        "Hadamard",
        "RotateX",
        "CNOT",
        "ControlledPhaseShift",
        "ControlledControlledPhaseShift",
        "MultiQubitMS",
        "QFT",
        "CallDefinedGate",
    ];
    let parametrized = [false, true, false, false, true, false, false, true];
    let qubits: [&[usize]; 8] = [&[2], &[1], &[0, 2], &[2, 1], &[0, 1, 2], &[2, 0, 1], &[1, 2], &[0, 1]];
    for (i, operation) in operations.iter().enumerate() {
        assert_eq!(operation.hqslang(), names[i]);
        assert_eq!(operation.kind().hqslang(), names[i]);
        assert_eq!(operation.tags().last(), Some(&names[i]));
        assert_eq!(operation.is_parametrized(), parametrized[i]);
        let set: HashSet<usize> = qubits[i].iter().copied().collect();
        assert_eq!(operation.involved_qubits(), InvolvedQubits::Qubits(set));
    }
}

#[test]
fn remap_and_remap_back_gives_the_operation() {
    let mut mapping: HashMap<usize, usize> = HashMap::new();
    mapping.insert(0, 5);
    mapping.insert(1, 0);
    mapping.insert(2, 9);
    mapping.insert(7, 7);
    let mut inverse: HashMap<usize, usize> = HashMap::new();
    for (from, to) in mapping.iter() {
        inverse.insert(*to, *from);
    }
    for operation in some_operations() {
        let remapped = operation.remap_qubits(&mapping).unwrap();
        assert_eq!(remapped.hqslang(), operation.hqslang());
        assert_eq!(remapped.is_parametrized(), operation.is_parametrized());
        assert_eq!(remapped.remap_qubits(&inverse), Ok(operation));
    }
    let remapped = Operation::CNOT(CNOT::new(0, 2)).remap_qubits(&mapping);
    assert_eq!(remapped, Ok(Operation::CNOT(CNOT::new(5, 9))));
}

#[test]
fn remap_names_the_first_qubit_without_an_entry() {
    let mut mapping: HashMap<usize, usize> = HashMap::new();
    mapping.insert(1, 0);
    let operation = Operation::MultiQubitMS(MultiQubitMS::new(vec![1, 4, 3], CalculatorFloat::from(1.5)));
    assert_eq!(
        operation.remap_qubits(&mapping),
        Err(RoqoqoError::QubitMappingError { qubit: 4 })
    );
    assert_eq!(
        remap_qubit_list(&vec![1, 1, 8, 4], &mapping),
        Err(RoqoqoError::QubitMappingError { qubit: 8 })
    );
    assert_eq!(remap_qubit_list(&vec![1, 1], &mapping), Ok(vec![0, 0]));
    assert_eq!(remap_qubit_list(&vec![], &mapping), Ok(vec![]));
}

#[test]
fn substitution_leaves_no_expression() {
    let mut calculator = Calculator::new();
    calculator.set_variable("theta", 0.25);
    calculator.set_variable("phi", -1.0);
    for operation in some_operations() {
        let substituted = operation.substitute_parameters(&calculator).unwrap();
        assert!(!substituted.is_parametrized());
        assert_eq!(substituted.hqslang(), operation.hqslang());
        assert_eq!(substituted.involved_qubits(), operation.involved_qubits());
        if !operation.is_parametrized() {
            assert_eq!(substituted, operation);
        }
    }
    assert_eq!(
        Operation::RotateX(RotateX::new(1, CalculatorFloat::from("theta")))
            .substitute_parameters(&calculator),
        Ok(Operation::RotateX(RotateX::new(1, CalculatorFloat::from(0.25))))
    );
}

#[test]
fn substitution_without_a_binding_fails_and_changes_nothing() {
    let calculator = Calculator::new();
    for operation in some_operations() {
        let copy = operation.clone();
        let result = operation.substitute_parameters(&calculator);
        assert_eq!(result.is_err(), operation.is_parametrized());
        assert_eq!(operation, copy);
    }
}

#[test]
fn answers_collect_to_all_values_or_the_first_error() {
    let mut calculator = Calculator::new();
    calculator.set_variable("b", 2.0);
    let parameters = vec![
        CalculatorFloat::from(1.0),
        CalculatorFloat::from("a"),
        CalculatorFloat::from("b"),
        CalculatorFloat::from("c"),
    ];
    assert!(has_symbolic(&parameters));
    let answers = evaluate_all(&parameters, &calculator);
    assert_eq!(answers.len(), 4);
    assert_eq!(answers[0], Ok(CalculatorFloat::from(1.0)));
    assert_eq!(answers[2], Ok(CalculatorFloat::from(2.0)));
    assert_eq!(
        collect(answers),
        Err(qoqo_calculator::CalculatorError::VariableNotSet { name: "a".to_string() })
    );
    calculator.set_variable("a", 0.5);
    calculator.set_variable("c", 4.0);
    assert_eq!(
        collect(evaluate_all(&parameters, &calculator)),
        Ok(vec![
            CalculatorFloat::from(1.0),
            CalculatorFloat::from(0.5),
            CalculatorFloat::from(2.0),
            CalculatorFloat::from(4.0)
        ])
    );
    assert_eq!(collect(vec![]), Ok(vec![]));
    let numbers = vec![CalculatorFloat::from(1.0), CalculatorFloat::from(-3.0)];
    assert!(!has_symbolic(&numbers));
    assert_eq!(collect(evaluate_all(&numbers, &Calculator::new())), Ok(numbers.clone()));
}

#[test]
fn involved_set_forgets_order_and_repetition() {
    let set: HashSet<usize> = [1usize, 4, 6].into_iter().collect();
    assert_eq!(involved_set(&vec![4, 1, 4, 6, 1]), InvolvedQubits::Qubits(set));
    assert_eq!(involved_set(&vec![]), InvolvedQubits::Qubits(HashSet::new()));
}

#[test]
fn equality_is_structural() {
    let number = |x: f64| Operation::RotateX(RotateX::new(0, CalculatorFloat::from(x)));
    let text = |x: &str| Operation::RotateX(RotateX::new(0, CalculatorFloat::from(x)));
    assert_eq!(number(0.5), number(0.5));
    assert_ne!(number(0.5), number(0.25));
    // The two zeros are equal as numbers; a NaN equals nothing, not even itself.
    assert_eq!(number(0.0), number(-0.0));
    assert_ne!(number(f64::NAN), number(f64::NAN));
    // Expressions are compared as texts, not by what they mean.
    assert_eq!(text("x+1"), text("x+1"));
    assert_ne!(text("x+1"), text("1+x"));
    assert_ne!(text("x"), number(1.0));
    // The qubits count, and their order.
    assert_ne!(
        Operation::CNOT(CNOT::new(0, 1)),
        Operation::CNOT(CNOT::new(1, 0))
    );
    assert_ne!(
        Operation::QFT(QFT::new(vec![0, 1], true, false)),
        Operation::QFT(QFT::new(vec![0, 1], false, true))
    );
    assert_ne!(
        Operation::QFT(QFT::new(vec![0, 1], true, false)),
        Operation::QFT(QFT::new(vec![0, 1, 2], true, false))
    );
    assert_ne!(
        Operation::CallDefinedGate(CallDefinedGate::new("a".to_string(), vec![0], vec![])),
        Operation::CallDefinedGate(CallDefinedGate::new("b".to_string(), vec![0], vec![]))
    );
}

#[test]
fn gates_of_different_kinds_are_never_equal() {
    let operations = some_operations();
    for (i, left) in operations.iter().enumerate() {
        for (j, right) in operations.iter().enumerate() {
            assert_eq!(left == right, i == j);
        }
    }
    assert_ne!(
        Operation::Hadamard(Hadamard::new(0)),
        Operation::RotateX(RotateX::new(0, CalculatorFloat::from(0.0)))
    );
}

#[test]
fn gates_convert_into_operations() {
    assert_eq!(
        Operation::from(Hadamard::new(2)),
        Operation::Hadamard(Hadamard::new(2))
    );
    let operation: Operation = RotateX::new(1, CalculatorFloat::from("theta")).into();
    assert_eq!(operation.hqslang(), "RotateX");
    let operation: Operation = QFT::new(vec![0, 1], true, true).into();
    assert_eq!(operation, Operation::QFT(QFT::new(vec![0, 1], true, true)));
    let operation: Operation =
        CallDefinedGate::new("name".to_string(), vec![0], vec![CalculatorFloat::from(1.0)]).into();
    assert_eq!(operation.kind(), GateKind::CallDefinedGate);
}

#[test]
fn copies_are_equal_and_independent() {
    for operation in some_operations() {
        let copy = operation.clone();
        assert_eq!(copy, operation);
        drop(operation);
        assert_eq!(copy.clone(), copy);
    }
    let mut circuit = roqoqo::Circuit::new();
    for operation in some_operations() {
        circuit.add_operation(operation);
    }
    let copy = circuit.clone();
    assert_eq!(copy, circuit);
    circuit.add_operation(Hadamard::new(0).into());
    assert_ne!(copy, circuit);
    assert_eq!(copy.len() + 1, circuit.len());
}

#[test]
fn comparison_answers_equality_only() {
    let left = Operation::Hadamard(Hadamard::new(0));
    let same = Operation::Hadamard(Hadamard::new(0));
    let other = Operation::Hadamard(Hadamard::new(1));
    assert_eq!(left.compare(&same, CompareOp::Eq), Some(true));
    assert_eq!(left.compare(&same, CompareOp::Ne), Some(false));
    assert_eq!(left.compare(&other, CompareOp::Eq), Some(false));
    assert_eq!(left.compare(&other, CompareOp::Ne), Some(true));
    for op in [CompareOp::Lt, CompareOp::Le, CompareOp::Gt, CompareOp::Ge] {
        assert_eq!(left.compare(&same, op), None);
    }
}

#[test]
fn answers_take_the_places_of_the_parameters_they_answer() {
    let gate = roqoqo::operations::SingleQubitGate::new(
        3,
        CalculatorFloat::from("a"),
        CalculatorFloat::from("b"),
        CalculatorFloat::from(0.5),
        CalculatorFloat::from("d"),
        CalculatorFloat::from("e"),
    );
    let answers = vec![
        Ok(CalculatorFloat::from(1.0)),
        Ok(CalculatorFloat::from(2.0)),
        Ok(CalculatorFloat::from(3.0)),
        Ok(CalculatorFloat::from(4.0)),
        Ok(CalculatorFloat::from(5.0)),
    ];
    let made = gate.with_answers(answers).unwrap();
    assert_eq!(made.qubit(), &3);
    assert_eq!(made.alpha_r(), &CalculatorFloat::from(1.0));
    assert_eq!(made.alpha_i(), &CalculatorFloat::from(2.0));
    assert_eq!(made.beta_r(), &CalculatorFloat::from(3.0));
    assert_eq!(made.beta_i(), &CalculatorFloat::from(4.0));
    assert_eq!(made.global_phase(), &CalculatorFloat::from(5.0));
    let answers = vec![
        Ok(CalculatorFloat::from(1.0)),
        Err(qoqo_calculator::CalculatorError::DivisionByZero),
        Ok(CalculatorFloat::from(3.0)),
        Err(qoqo_calculator::CalculatorError::NotConvertable),
        Ok(CalculatorFloat::from(5.0)),
    ];
    assert_eq!(
        gate.with_answers(answers),
        Err(RoqoqoError::CalculatorError(
            qoqo_calculator::CalculatorError::DivisionByZero
        ))
    );
}

#[test]
fn a_variable_is_answered_by_its_value() {
    let mut calculator = Calculator::new();
    calculator.set_variable("theta_1", -0.0);
    calculator.set_variable("Infinite", f64::INFINITY);
    let gate = CallDefinedGate::new(
        "name".to_string(),
        vec![0],
        vec![
            CalculatorFloat::from("theta_1"),
            CalculatorFloat::Str("Infinite".to_string()),
            CalculatorFloat::from(2.5),
        ],
    );
    let substituted = gate.substitute_parameters(&calculator).unwrap();
    match &substituted.free_parameters()[0] {
        CalculatorFloat::Float(x) => assert_eq!(x.to_bits(), (-0.0f64).to_bits()),
        other => panic!("not a number: {other:?}"),
    }
    assert_eq!(
        substituted.free_parameters()[1],
        CalculatorFloat::Float(f64::INFINITY)
    );
    assert_eq!(substituted.free_parameters()[2], CalculatorFloat::from(2.5));
    let unbound = CallDefinedGate::new(
        "name".to_string(),
        vec![0],
        vec![CalculatorFloat::from("theta_1"), CalculatorFloat::from("theta_2")],
    );
    assert_eq!(
        unbound.substitute_parameters(&calculator),
        Err(RoqoqoError::CalculatorError(
            qoqo_calculator::CalculatorError::VariableNotSet { name: "theta_2".to_string() }
        ))
    );
}

#[test]
fn a_power_that_is_no_number_equals_nothing() {
    // Infinity times zero is a NaN, whichever: it is a number, and equal to nothing.
    let gate = RotateX::new(0, CalculatorFloat::from(0.0));
    let power = gate.powercf(CalculatorFloat::from(f64::INFINITY));
    assert!(!power.is_parametrized());
    assert_ne!(power, power.clone());
    match power.theta() {
        CalculatorFloat::Float(x) => assert!(x.is_nan()),
        other => panic!("not a number: {other:?}"),
    }
}
