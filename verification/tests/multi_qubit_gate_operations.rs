//! Tests of the gates on a variable number of qubits.
use qoqo_calculator::{Calculator, CalculatorFloat};
use roqoqo::operations::{
    CallDefinedGate, InvolvedQubits, MultiQubitCNOT, MultiQubitMS, MultiQubitZZ, QFT,
};
use std::collections::{HashMap, HashSet};

#[test]
fn test_clone_partial_eq_multi_ms() {
    let qubits = vec![0, 1, 2];

    let gate = MultiQubitMS::new(qubits.clone(), CalculatorFloat::FRAC_PI_2);
    assert_eq!(gate.hqslang(), "MultiQubitMS");
    assert_eq!(
        gate.tags(),
        &[
            "Operation",
            "GateOperation",
            "MultiQubitGateOperation",
            "MultiQubitMS",
        ]
    );
    assert!(!gate.is_parametrized());
    let gate1 = MultiQubitMS::new(qubits, "theta".into());
    assert!(gate1.is_parametrized());
    let helper = gate != gate1;
    assert!(helper);
    #[allow(clippy::redundant_clone)]
    let gate2 = gate1.clone();
    assert_eq!(gate2, gate1);
}

#[test]
fn test_substitute_multi_ms() {
    let qubits = vec![0, 1, 2];
    let gate1 = MultiQubitMS::new(qubits.clone(), "theta".into());
    let gate = MultiQubitMS::new(qubits, CalculatorFloat::FRAC_PI_2);
    let mut calc = Calculator::new();
    calc.set_variable("theta", std::f64::consts::FRAC_PI_2);
    let gate_substituted = gate1.substitute_parameters(&calc);
    let subs = gate_substituted.unwrap();
    assert_eq!(gate, subs);
    let mut mapping: HashMap<usize, usize> = std::collections::HashMap::new();
    let _ = mapping.insert(0, 1);
    let _ = mapping.insert(1, 2);
    let _ = mapping.insert(2, 0);
    let remapped = gate1.remap_qubits(&mapping).unwrap();
    let qubits = remapped.qubits();
    assert_eq!(qubits, &vec![1, 2, 0]);
}

#[test]
fn test_substitute_error_multi_ms() {
    let qubits = vec![0, 1, 2];
    let gate1 = MultiQubitMS::new(qubits, "theta".into());
    let calc = Calculator::new();
    let gate_substituted = gate1.substitute_parameters(&calc);
    assert!(gate_substituted.is_err());
    let mut mapping: HashMap<usize, usize> = std::collections::HashMap::new();
    let _ = mapping.insert(1, 2);
    let _ = mapping.insert(2, 0);
    let remapped = gate1.remap_qubits(&mapping);
    assert!(remapped.is_err());
}

#[test]
fn test_format_multi_ms() {
    let qubits = vec![0, 1, 2];
    let gate = MultiQubitMS::new(qubits, "theta".into());
    let string = format!("{gate:?}");
    assert!(string.contains("theta"));
    assert!(string.contains("MultiQubitMS"));
}

#[test]
fn test_involved_qubits_multi_ms() {
    let qubits = vec![0, 1, 2];
    let gate = MultiQubitMS::new(qubits, "theta".into());
    let involved_qubits = gate.involved_qubits();
    let mut comp_set: HashSet<usize> = HashSet::new();
    let _ = comp_set.insert(0);
    let _ = comp_set.insert(1);
    let _ = comp_set.insert(2);
    assert_eq!(involved_qubits, InvolvedQubits::Qubits(comp_set));
}

#[test]
fn test_clone_partial_eq_multi_cnot() {
    let qubits = vec![0, 1, 2];

    let gate = MultiQubitCNOT::new(qubits);
    assert_eq!(gate.hqslang(), "MultiQubitCNOT");
    assert_eq!(
        gate.tags(),
        &[
            "Operation",
            "GateOperation",
            "MultiQubitGateOperation",
            "MultiQubitCNOT",
        ]
    );
    assert!(!gate.is_parametrized());

    let gate2 = gate.clone();
    assert_eq!(gate2, gate);
}

#[test]
fn test_substitute_multi_cnot() {
    let qubits = vec![0, 1, 2];
    let gate = MultiQubitCNOT::new(qubits);
    let mut mapping: HashMap<usize, usize> = std::collections::HashMap::new();
    let _ = mapping.insert(0, 1);
    let _ = mapping.insert(1, 2);
    let _ = mapping.insert(2, 0);
    let remapped = gate.remap_qubits(&mapping).unwrap();
    let qubits = remapped.qubits();
    assert_eq!(qubits, &vec![1, 2, 0]);
}

#[test]
fn test_substitute_error_multi_cnot() {
    let qubits = vec![0, 1, 2];
    let gate = MultiQubitCNOT::new(qubits);
    let mut mapping: HashMap<usize, usize> = std::collections::HashMap::new();
    let _ = mapping.insert(1, 2);
    let _ = mapping.insert(2, 0);
    let remapped = gate.remap_qubits(&mapping);
    assert!(remapped.is_err());
}

#[test]
fn test_format_multi_cnot() {
    let qubits = vec![0, 1, 2];
    let gate = MultiQubitCNOT::new(qubits);
    let string = format!("{gate:?}");
    assert!(string.contains("MultiQubitCNOT"));
}

#[test]
fn test_involved_qubits_multi_cnot() {
    let qubits = vec![0, 1, 2];
    let gate = MultiQubitCNOT::new(qubits);
    let involved_qubits = gate.involved_qubits();
    let mut comp_set: HashSet<usize> = HashSet::new();
    let _ = comp_set.insert(0);
    let _ = comp_set.insert(1);
    let _ = comp_set.insert(2);
    assert_eq!(involved_qubits, InvolvedQubits::Qubits(comp_set));
}

#[test]
fn test_clone_partial_eq_multi_qubit_ms() {
    let qubits = vec![0, 1, 2];

    let gate = MultiQubitZZ::new(qubits.clone(), CalculatorFloat::FRAC_PI_2);
    assert_eq!(gate.hqslang(), "MultiQubitZZ");
    assert_eq!(
        gate.tags(),
        &[
            "Operation",
            "GateOperation",
            "MultiQubitGateOperation",
            "MultiQubitZZ",
        ]
    );
    assert!(!gate.is_parametrized());
    let gate1 = MultiQubitZZ::new(qubits, "theta".into());
    assert!(gate1.is_parametrized());
    let helper = gate != gate1;
    assert!(helper);
    #[allow(clippy::redundant_clone)]
    let gate2 = gate1.clone();
    assert_eq!(gate2, gate1);
}

#[test]
fn test_operate_multi_qubit_zz() {
    let qubits = vec![0, 1, 2];
    let gate = MultiQubitZZ::new(qubits.clone(), CalculatorFloat::FRAC_PI_2);
    assert_eq!(gate.hqslang(), "MultiQubitZZ");
    assert_eq!(
        gate.tags(),
        &[
            "Operation",
            "GateOperation",
            "MultiQubitGateOperation",
            "MultiQubitZZ",
        ]
    );
    assert_eq!(gate.qubits(), &vec![0, 1, 2]);
    assert!(!gate.is_parametrized());
    let gate1 = MultiQubitZZ::new(qubits, "theta".into());
    assert!(gate1.is_parametrized());
}

#[test]
fn test_substitute_multi_qubit_zz() {
    let qubits = vec![0, 1, 2];
    let gate1 = MultiQubitZZ::new(qubits.clone(), "theta".into());
    let gate = MultiQubitZZ::new(qubits, CalculatorFloat::FRAC_PI_2);
    let mut calc = Calculator::new();
    calc.set_variable("theta", std::f64::consts::FRAC_PI_2);
    let gate_substituted = gate1.substitute_parameters(&calc);
    let subs = gate_substituted.unwrap();
    assert_eq!(gate, subs);
    let mut mapping: HashMap<usize, usize> = std::collections::HashMap::new();
    let _ = mapping.insert(0, 1);
    let _ = mapping.insert(1, 2);
    let _ = mapping.insert(2, 0);
    let remapped = gate1.remap_qubits(&mapping).unwrap();
    let qubits = remapped.qubits();
    assert_eq!(qubits, &vec![1, 2, 0]);
}

#[test]
fn test_substitute_error_multi_qubit_zz() {
    let qubits = vec![0, 1, 2];
    let gate1 = MultiQubitZZ::new(qubits, "theta".into());
    let calc = Calculator::new();
    let gate_substituted = gate1.substitute_parameters(&calc);
    assert!(gate_substituted.is_err());
    let mut mapping: HashMap<usize, usize> = std::collections::HashMap::new();
    let _ = mapping.insert(1, 2);
    let _ = mapping.insert(2, 0);
    let remapped = gate1.remap_qubits(&mapping);
    assert!(remapped.is_err());
}

#[test]
fn test_format_error_multi_qubit_zz() {
    let qubits = vec![0, 1, 2];
    let gate = MultiQubitZZ::new(qubits, "theta".into());
    let string = format!("{gate:?}");
    assert!(string.contains("theta"));
    assert!(string.contains("MultiQubitZZ"));
}

#[test]
fn test_involved_qubits_multi_qubit_zz() {
    let qubits = vec![0, 1, 2];
    let gate = MultiQubitZZ::new(qubits, "theta".into());
    let involved_qubits = gate.involved_qubits();
    let mut comp_set: HashSet<usize> = HashSet::new();
    let _ = comp_set.insert(0);
    let _ = comp_set.insert(1);
    let _ = comp_set.insert(2);
    assert_eq!(involved_qubits, InvolvedQubits::Qubits(comp_set));
}

// Test partialEq function of CallDefinedGate
#[test]
fn test_clone_partial_eq_call_defined_gate() {
    let qubits = vec![0, 1, 2];

    let gate = CallDefinedGate::new(
        "name".into(),
        qubits.clone(),
        vec![CalculatorFloat::from(0.6)],
    );
    assert_eq!(gate.hqslang(), "CallDefinedGate");
    assert_eq!(
        gate.tags(),
        &["Operation", "MultiQubitGateOperation", "CallDefinedGate",]
    );
    assert!(!gate.is_parametrized());
    let gate1 = CallDefinedGate::new("name".into(), qubits, vec![CalculatorFloat::from(0.7)]);
    let helper = gate != gate1;
    assert!(helper);
    #[allow(clippy::redundant_clone)]
    let gate2 = gate1.clone();
    assert_eq!(gate2, gate1);
}

#[test]
fn test_substitute_call_defined_gate() {
    let qubits = vec![0, 1, 2];
    let gate1 = CallDefinedGate::new("name".to_owned(), qubits.clone(), vec!["theta".into()]);
    let gate = CallDefinedGate::new("name".to_owned(), qubits, vec![CalculatorFloat::FRAC_PI_2]);
    let mut calc = Calculator::new();
    calc.set_variable("theta", std::f64::consts::FRAC_PI_2);
    let gate_substituted = gate1.substitute_parameters(&calc);
    let subs = gate_substituted.unwrap();
    assert_eq!(gate, subs);
    let mut mapping: HashMap<usize, usize> = std::collections::HashMap::new();
    let _ = mapping.insert(0, 1);
    let _ = mapping.insert(1, 2);
    let _ = mapping.insert(2, 0);
    let remapped = gate1.remap_qubits(&mapping).unwrap();
    let qubits = remapped.qubits();
    assert_eq!(qubits, &vec![1, 2, 0]);
}

#[test]
fn test_substitute_error_call_defined_gate() {
    let qubits = vec![0, 1, 2];
    let gate1 = CallDefinedGate::new("name".to_owned(), qubits, vec!["theta".into()]);
    let calc = Calculator::new();
    let gate_substituted = gate1.substitute_parameters(&calc);
    assert!(gate_substituted.is_err());
    let mut mapping: HashMap<usize, usize> = std::collections::HashMap::new();
    let _ = mapping.insert(1, 2);
    let _ = mapping.insert(2, 0);
    let remapped = gate1.remap_qubits(&mapping);
    assert!(remapped.is_err());
}

#[test]
fn test_format_call_defined_gate() {
    let qubits = vec![0, 1, 2];
    let gate = CallDefinedGate::new(
        "name".into(),
        qubits.clone(),
        vec![CalculatorFloat::from(0.6)],
    );
    let string = format!("{gate:?}");
    assert!(
        string
            == "CallDefinedGate { gate_name: \"name\", qubits: [0, 1, 2], free_parameters: [Float(0.6)] }"
    );
}

#[test]
fn test_remap_defined_gate() {
    let qubits = vec![0, 1, 2];
    let gate = CallDefinedGate::new(
        "name".into(),
        qubits.clone(),
        vec![CalculatorFloat::from(0.6)],
    );
    let mut mapping: HashMap<usize, usize> = std::collections::HashMap::new();
    let _ = mapping.insert(0, 1);
    let _ = mapping.insert(1, 2);
    let _ = mapping.insert(2, 0);
    let remapped = gate.remap_qubits(&mapping).unwrap();
    let qubits = remapped.qubits();
    assert_eq!(qubits, &vec![1, 2, 0]);
}

#[test]
fn test_remap_error_call_defined_gate() {
    let qubits = vec![0, 1, 2];
    let gate = CallDefinedGate::new(
        "name".into(),
        qubits.clone(),
        vec![CalculatorFloat::from(0.6)],
    );
    let mut mapping: HashMap<usize, usize> = std::collections::HashMap::new();
    let _ = mapping.insert(1, 2);
    let _ = mapping.insert(2, 0);
    let remapped = gate.remap_qubits(&mapping);
    assert!(remapped.is_err());
}

#[test]
fn test_involved_qubits_call_defined_gate() {
    let qubits = vec![0, 1, 2];
    let gate = CallDefinedGate::new(
        "name".into(),
        qubits.clone(),
        vec![CalculatorFloat::Float(0.6)],
    );
    let involved_qubits = gate.involved_qubits();
    let mut comp_set: HashSet<usize> = HashSet::new();
    let _ = comp_set.insert(0);
    let _ = comp_set.insert(1);
    let _ = comp_set.insert(2);
    assert_eq!(involved_qubits, InvolvedQubits::Qubits(comp_set));
}

#[test]
fn test_clone_partial_eq_qft() {
    let qubits = vec![0, 1, 2];

    let gate = QFT::new(qubits.clone(), true, true);
    assert_eq!(gate.hqslang(), "QFT");
    assert_eq!(
        gate.tags(),
        &[
            "Operation",
            "GateOperation",
            "MultiQubitGateOperation",
            "QFT",
        ]
    );
    assert!(!gate.is_parametrized());
    let gate2 = gate.clone();
    assert_eq!(gate2, gate);
}

#[test]
fn test_substitute_qft() {
    let qubits = vec![0, 1, 2];
    let gate = QFT::new(qubits.clone(), false, false);
    let mut mapping: HashMap<usize, usize> = std::collections::HashMap::new();
    let _ = mapping.insert(0, 1);
    let _ = mapping.insert(1, 2);
    let _ = mapping.insert(2, 0);
    let remapped = gate.remap_qubits(&mapping).unwrap();
    let qubits = remapped.qubits();
    assert_eq!(qubits, &vec![1, 2, 0]);
}

#[test]
fn test_substitute_error_qft() {
    let qubits = vec![0, 1, 2];
    let gate = QFT::new(qubits.clone(), false, false);
    let mut mapping: HashMap<usize, usize> = std::collections::HashMap::new();
    let _ = mapping.insert(1, 2);
    let _ = mapping.insert(2, 0);
    let remapped = gate.remap_qubits(&mapping);
    assert!(remapped.is_err());
}

#[test]
fn test_format_error_qft() {
    let qubits = vec![0, 1, 2];
    let gate = QFT::new(qubits.clone(), false, false);
    let string = format!("{gate:?}");
    assert!(string.contains("QFT"));
}

#[test]
fn test_involved_qubits_qft() {
    for (swaps, inverse) in [(false, false), (true, false), (false, true), (true, true)] {
        let qubits = vec![0, 1, 2];
        let gate = QFT::new(qubits.clone(), swaps, inverse);
        assert_eq!(gate.swaps(), &swaps);
        assert_eq!(gate.inverse(), &inverse);
        let involved_qubits = gate.involved_qubits();
        let mut comp_set: HashSet<usize> = HashSet::new();
        let _ = comp_set.insert(0);
        let _ = comp_set.insert(1);
        let _ = comp_set.insert(2);
        assert_eq!(involved_qubits, InvolvedQubits::Qubits(comp_set));
    }
}

fn powers() -> Vec<CalculatorFloat> {
    vec![
        CalculatorFloat::from(2.0),
        CalculatorFloat::from(1.0 / 2.0),
        CalculatorFloat::from(1.0),
        CalculatorFloat::from(0.0),
        CalculatorFloat::from(-2.0),
        CalculatorFloat::from("power"),
    ]
}

#[test]
fn test_rotatex_powercf_multi_ms() {
    for power in powers() {
        let qubits = vec![0, 1, 2];
        let gate = MultiQubitMS::new(qubits.clone(), CalculatorFloat::from("theta"));

        let power_gate = gate.powercf(power.clone());
        let test_theta = power * gate.theta().clone();
        let test_gate = MultiQubitMS::new(qubits, test_theta);
        assert_eq!(power_gate, test_gate);
        assert_eq!(power_gate.theta(), test_gate.theta());
    }
}

#[test]
fn test_rotatex_powercf_multi_qubit_zz() {
    for power in powers() {
        let qubits = vec![0, 1, 2];
        let gate = MultiQubitZZ::new(qubits.clone(), CalculatorFloat::from("theta"));

        let power_gate = gate.powercf(power.clone());
        let test_theta = power * gate.theta().clone();
        let test_gate = MultiQubitZZ::new(qubits, test_theta);
        assert_eq!(power_gate, test_gate);
        assert_eq!(power_gate.theta(), test_gate.theta());
    }
}

#[test]
fn call_defined_gate_reports_its_fields_and_version() {
    let gate = CallDefinedGate::new(
        "name".into(),
        vec![4, 2],
        vec![CalculatorFloat::from(0.6), CalculatorFloat::from("a")],
    );
    assert_eq!(gate.gate_name(), "name");
    assert_eq!(gate.qubits(), &vec![4, 2]);
    assert_eq!(
        gate.free_parameters(),
        &vec![CalculatorFloat::from(0.6), CalculatorFloat::from("a")]
    );
    assert!(gate.is_parametrized());
    assert_eq!(gate.minimum_supported_roqoqo_version(), (1, 13, 0));
}

#[test]
fn call_defined_gate_substitution_is_all_or_nothing() {
    let gate = CallDefinedGate::new(
        "name".into(),
        vec![0],
        vec![CalculatorFloat::from("a"), CalculatorFloat::from("b")],
    );
    let mut calc = Calculator::new();
    calc.set_variable("a", 1.0);
    // `b` is not bound: nothing is substituted.
    assert!(gate.substitute_parameters(&calc).is_err());
    assert_eq!(
        gate.free_parameters(),
        &vec![CalculatorFloat::from("a"), CalculatorFloat::from("b")]
    );
    calc.set_variable("b", 2.0);
    let substituted = gate.substitute_parameters(&calc).unwrap();
    assert!(!substituted.is_parametrized());
    assert_eq!(
        substituted.free_parameters(),
        &vec![CalculatorFloat::from(1.0), CalculatorFloat::from(2.0)]
    );
}
