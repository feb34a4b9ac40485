//! Tests of the gates on one qubit.
use qoqo_calculator::{Calculator, CalculatorFloat};
use roqoqo::operations::{
    Hadamard, InvolvedQubits, PhaseShiftState0, PhaseShiftState1, RotateAroundSphericalAxis,
    RotateX, RotateY, RotateZ, SingleQubitGate, TGate,
};
use roqoqo::RoqoqoError;
use std::collections::{HashMap, HashSet};
use std::f64::consts::PI;

/// Test 'qubit()' for SingleQubitGate
#[test]
fn test_singlequbitgate_operatesinglequbit() {
    let gate = SingleQubitGate::new(
        0,
        CalculatorFloat::from(1.0),
        CalculatorFloat::from(0.0),
        CalculatorFloat::from(0.0),
        CalculatorFloat::from(0.0),
        CalculatorFloat::from(0.0),
    );
    let qubit_p: &usize = &gate.qubit();
    assert_eq!(qubit_p, &0);
}

/// Test 'clone()' for SingleQubitGate
#[test]
fn test_singlequbitgate_clone() {
    let gate1 = SingleQubitGate::new(
        0,
        CalculatorFloat::from(1.0),
        CalculatorFloat::from(0.0),
        CalculatorFloat::from(0.0),
        CalculatorFloat::from(0.0),
        CalculatorFloat::from(0.0),
    );
    let gate2 = gate1.clone();
    assert_eq!(gate2, gate1);
}

/// Test substitute parameters for SingleQubitGate
#[test]
fn test_singlequbitgate_substitute_parameters() {
    let gate = SingleQubitGate::new(
        0,
        CalculatorFloat::from("alpha_r"),
        CalculatorFloat::from("alpha_i"),
        CalculatorFloat::from("beta_r"),
        CalculatorFloat::from("beta_i"),
        CalculatorFloat::from("global_phase"),
    );
    assert_eq!(gate.alpha_r().clone(), CalculatorFloat::from("alpha_r"));
    assert_eq!(gate.alpha_i().clone(), CalculatorFloat::from("alpha_i"));
    assert_eq!(gate.beta_r().clone(), CalculatorFloat::from("beta_r"));
    assert_eq!(gate.beta_i().clone(), CalculatorFloat::from("beta_i"));
    assert_eq!(
        gate.global_phase().clone(),
        CalculatorFloat::from("global_phase")
    );
    assert!(gate.is_parametrized());
    let mut substitution_dict: Calculator = Calculator::new();
    substitution_dict.set_variable("alpha_r", 0.0);
    substitution_dict.set_variable("alpha_i", 0.0);
    substitution_dict.set_variable("global_phase", PI);
    substitution_dict.set_variable("beta_r", 1.0);
    substitution_dict.set_variable("beta_i", -1.0);
    let result = gate.substitute_parameters(&mut substitution_dict).unwrap();
    assert!(!result.is_parametrized());
    assert_eq!(result.alpha_r().clone(), CalculatorFloat::from(0.0));
    assert_eq!(result.alpha_i().clone(), CalculatorFloat::from(0.0));
    assert_eq!(result.beta_r().clone(), CalculatorFloat::from(1.0));
    assert_eq!(result.beta_i().clone(), CalculatorFloat::from(-1.0));
    assert_eq!(result.global_phase().clone(), CalculatorFloat::from(PI));
}

/// Test debug for SingleQubitGate
#[test]
fn test_singlequbitgate_debug() {
    let gate = SingleQubitGate::new(
        0,
        CalculatorFloat::from(1.0),
        CalculatorFloat::from(0.0),
        CalculatorFloat::from(0.0),
        CalculatorFloat::from(0.0),
        CalculatorFloat::from(PI),
    );
    let name =  "SingleQubitGate { qubit: 0, alpha_r: Float(1.0), alpha_i: Float(0.0), beta_r: Float(0.0), beta_i: Float(0.0), global_phase: Float(3.141592653589793) }";
    assert_eq!(format!("{:?}", gate), name);
}

/// Test RotateX substitute parameters
#[test]
fn test_rotatex_substitute_parameters() {
    let gate: RotateX = RotateX::new(0, CalculatorFloat::from("theta"));
    assert_eq!(gate.theta().clone(), CalculatorFloat::from("theta"));
    assert!(gate.is_parametrized());
    let mut substitution_dict: Calculator = Calculator::new();
    substitution_dict.set_variable("theta", 0.0);
    let result = gate.substitute_parameters(&mut substitution_dict).unwrap();
    assert!(!result.is_parametrized());
    assert_eq!(result.theta().clone(), CalculatorFloat::from(0.0));
}

/// Test RotateY substitute parameters
#[test]
fn test_rotatey_substitute_parameters() {
    let gate: RotateY = RotateY::new(0, CalculatorFloat::from("theta"));
    assert_eq!(gate.theta().clone(), CalculatorFloat::from("theta"));
    assert!(gate.is_parametrized());
    let mut substitution_dict: Calculator = Calculator::new();
    substitution_dict.set_variable("theta", 0.0);
    let result = gate.substitute_parameters(&mut substitution_dict).unwrap();
    assert!(!result.is_parametrized());
    assert_eq!(result.theta().clone(), CalculatorFloat::from(0.0));
}

/// Test RotateZ substitute parameters
#[test]
fn test_rotatez_substitute_parameters() {
    let gate: RotateZ = RotateZ::new(0, CalculatorFloat::from("theta"));
    assert_eq!(gate.theta().clone(), CalculatorFloat::from("theta"));
    assert!(gate.is_parametrized());
    let mut substitution_dict: Calculator = Calculator::new();
    substitution_dict.set_variable("theta", 0.0);
    let result = gate.substitute_parameters(&mut substitution_dict).unwrap();
    assert!(!result.is_parametrized());
    assert_eq!(result.theta().clone(), CalculatorFloat::from(0.0));
}

/// Test substitute_parameters for PhaseShiftState1
#[test]
fn test_phaseshiftstate1_substitute_parameters() {
    let gate: PhaseShiftState1 = PhaseShiftState1::new(0, CalculatorFloat::from("theta"));
    assert_eq!(gate.theta().clone(), CalculatorFloat::from("theta"));
    assert!(gate.is_parametrized());
    let mut substitution_dict: Calculator = Calculator::new();
    substitution_dict.set_variable("theta", 0.0);
    let result = gate.substitute_parameters(&mut substitution_dict).unwrap();
    assert!(!result.is_parametrized());
    assert_eq!(result.theta().clone(), CalculatorFloat::from(0.0));
}

/// Test substitute parameters for RotateAroundSphericalAxis
#[test]
fn test_rotatearoundsphericalaxis_substitute_parameters() {
    let gate = RotateAroundSphericalAxis::new(
        0,
        CalculatorFloat::from("theta"),
        CalculatorFloat::from("spherical_theta"),
        CalculatorFloat::from("spherical_phi"),
    );
    assert!(gate.is_parametrized());
    assert_eq!(gate.theta().clone(), CalculatorFloat::from("theta"));
    assert_eq!(
        gate.spherical_theta().clone(),
        CalculatorFloat::from("spherical_theta"),
    );
    assert_eq!(
        gate.spherical_phi().clone(),
        CalculatorFloat::from("spherical_phi"),
    );
    let mut substitution_dict: Calculator = Calculator::new();
    substitution_dict.set_variable("theta", 0.0);
    substitution_dict.set_variable("spherical_theta", PI);
    substitution_dict.set_variable("spherical_phi", PI / 2.0);
    let result = gate.substitute_parameters(&mut substitution_dict).unwrap();
    assert!(!result.is_parametrized());
    assert_eq!(result.theta().clone(), CalculatorFloat::from(0.0));
    assert_eq!(result.spherical_theta().clone(), CalculatorFloat::from(PI));
    assert_eq!(
        result.spherical_phi().clone(),
        CalculatorFloat::from(PI / 2.0)
    );
}

fn remap_single_qubit_gate(newqubit: usize) {
    let gate = SingleQubitGate::new(
        0,
        CalculatorFloat::from(1.0),
        CalculatorFloat::from(0.0),
        CalculatorFloat::from(0.0),
        CalculatorFloat::from(0.0),
        CalculatorFloat::from(PI),
    );
    let test_gate = SingleQubitGate::new(
        newqubit,
        CalculatorFloat::from(1.0),
        CalculatorFloat::from(0.0),
        CalculatorFloat::from(0.0),
        CalculatorFloat::from(0.0),
        CalculatorFloat::from(PI),
    );
    // qubit mapping
    let mut qubit_mapping: HashMap<usize, usize> = HashMap::new();
    qubit_mapping.insert(0, newqubit);
    let result = gate.remap_qubits(&qubit_mapping);
    assert_eq!(&result, &Ok(test_gate.clone()));

    // comparison of involved qubits
    let mut qubits: HashSet<usize> = HashSet::new();
    qubits.insert(newqubit);
    let test_qubits: InvolvedQubits = InvolvedQubits::Qubits(qubits);
    let result_unwrapped = result.unwrap();
    assert_eq!(
        result_unwrapped.involved_qubits(),
        test_gate.involved_qubits()
    );
    assert_eq!(result_unwrapped.involved_qubits(), test_qubits);

    // does 'mapping back' work?
    qubit_mapping.remove(&0);
    qubit_mapping.insert(newqubit, 0);
    let result2 = result_unwrapped.remap_qubits(&qubit_mapping);
    assert_eq!(result2, Ok(gate));
}

#[test]
fn test_singlequbitgate_remap_qubits_no_mapping() {
    remap_single_qubit_gate(0);
}

#[test]
fn test_singlequbitgate_remap_qubits_1() {
    remap_single_qubit_gate(1);
}

#[test]
fn test_singlequbitgate_remap_qubits_100000() {
    remap_single_qubit_gate(100000);
}

#[test]
fn remap_without_an_entry_names_the_qubit() {
    let gate = RotateX::new(7, CalculatorFloat::from(0.5));
    let mut mapping: HashMap<usize, usize> = HashMap::new();
    mapping.insert(1, 2);
    assert_eq!(
        gate.remap_qubits(&mapping),
        Err(RoqoqoError::QubitMappingError { qubit: 7 })
    );
}

#[test]
fn test_ineffective_substitute_parameters() {
    let mut substitution_dict: Calculator = Calculator::new();
    substitution_dict.set_variable("theta", 0.0);
    let hadamard = Hadamard::new(0);
    assert_eq!(hadamard.substitute_parameters(&substitution_dict).unwrap(), hadamard);
    let t = TGate::new(1);
    assert_eq!(t.substitute_parameters(&substitution_dict).unwrap(), t);
    let x = RotateX::new(0, CalculatorFloat::from(0));
    assert_eq!(x.substitute_parameters(&substitution_dict).unwrap(), x);
    let y = RotateY::new(0, CalculatorFloat::from(0));
    assert_eq!(y.substitute_parameters(&substitution_dict).unwrap(), y);
    let z = RotateZ::new(0, CalculatorFloat::from(0));
    assert_eq!(z.substitute_parameters(&substitution_dict).unwrap(), z);
    let axis = RotateAroundSphericalAxis::new(
        0,
        CalculatorFloat::from(0),
        CalculatorFloat::from(0),
        CalculatorFloat::from(0),
    );
    assert_eq!(axis.substitute_parameters(&substitution_dict).unwrap(), axis);
    let p0 = PhaseShiftState0::new(0, CalculatorFloat::from(PI / 2.0));
    assert_eq!(p0.substitute_parameters(&substitution_dict).unwrap(), p0);
    let p1 = PhaseShiftState1::new(0, CalculatorFloat::from(PI / 2.0));
    assert_eq!(p1.substitute_parameters(&substitution_dict).unwrap(), p1);
}

#[test]
fn test_phaseshiftstate0_substitute_parameters() {
    let gate = PhaseShiftState0::new(0, CalculatorFloat::from("theta"));
    let testgate = PhaseShiftState0::new(0, CalculatorFloat::from(0.0));
    let mut substitution_dict: Calculator = Calculator::new();
    substitution_dict.set_variable("theta", 0.0);
    let result = gate.substitute_parameters(&mut substitution_dict).unwrap();
    assert_eq!(result, testgate);
}

#[test]
fn substitution_fails_on_the_first_unbound_parameter() {
    let gate = RotateAroundSphericalAxis::new(
        0,
        CalculatorFloat::from("theta"),
        CalculatorFloat::from("first_missing"),
        CalculatorFloat::from("second_missing"),
    );
    let mut calculator = Calculator::new();
    calculator.set_variable("theta", 0.25);
    assert_eq!(
        gate.substitute_parameters(&calculator),
        Err(RoqoqoError::CalculatorError(
            qoqo_calculator::CalculatorError::VariableNotSet {
                name: "first_missing".to_string()
            }
        ))
    );
}

#[test]
fn substitution_refuses_text_that_cannot_be_parsed() {
    // An empty expression and a symbol outside ASCII are not handed to the parser.
    let empty = RotateX::new(0, CalculatorFloat::Str(String::new()));
    assert_eq!(
        empty.substitute_parameters(&Calculator::new()),
        Err(RoqoqoError::CalculatorError(
            qoqo_calculator::CalculatorError::FloatSymbolicNotConvertable { val: String::new() }
        ))
    );
    let euro = RotateX::new(0, CalculatorFloat::Str("2\u{20ac}".to_string()));
    assert_eq!(
        euro.substitute_parameters(&Calculator::new()),
        Err(RoqoqoError::CalculatorError(
            qoqo_calculator::CalculatorError::FloatSymbolicNotConvertable {
                val: "2\u{20ac}".to_string()
            }
        ))
    );
    // A letter outside ASCII is a variable like any other.
    let mut calculator = Calculator::new();
    calculator.set_variable("\u{3b8}", 1.5);
    let theta = RotateX::new(0, CalculatorFloat::Str("2*\u{3b8}".to_string()));
    assert_eq!(
        theta.substitute_parameters(&calculator),
        Ok(RotateX::new(0, CalculatorFloat::from(3.0)))
    );
}

#[test]
fn substitution_evaluates_expressions() {
    let mut calculator = Calculator::new();
    calculator.set_variable("a", 2.0);
    calculator.set_variable("b", 0.5);
    let gate = RotateZ::new(3, CalculatorFloat::from("a * b + 1"));
    assert_eq!(
        gate.substitute_parameters(&calculator),
        Ok(RotateZ::new(3, CalculatorFloat::from(2.0)))
    );
    let by_zero = RotateZ::new(3, CalculatorFloat::from("a / 0"));
    assert_eq!(
        by_zero.substitute_parameters(&calculator),
        Err(RoqoqoError::CalculatorError(
            qoqo_calculator::CalculatorError::DivisionByZero
        ))
    );
}

#[test]
fn power_of_rotate_x_scales_the_angle() {
    // symbolic angle: structural equality
    let gate = RotateX::new(0, CalculatorFloat::from("theta"));
    let squared = gate.powercf(CalculatorFloat::from(2.0));
    assert_eq!(
        squared,
        RotateX::new(0, CalculatorFloat::from(2.0) * CalculatorFloat::from("theta"))
    );
    assert_eq!(squared.theta(), &CalculatorFloat::from("(2e0 * theta)"));
    // number: the product
    let gate = RotateX::new(4, CalculatorFloat::from(0.75));
    let squared = gate.powercf(CalculatorFloat::from(2.0));
    assert_eq!(squared, RotateX::new(4, CalculatorFloat::from(1.5)));
    assert_eq!(squared.qubit(), &4);
}

#[test]
fn power_keeps_the_axis_of_a_spherical_rotation() {
    let gate = RotateAroundSphericalAxis::new(
        1,
        CalculatorFloat::from(0.5),
        CalculatorFloat::from("st"),
        CalculatorFloat::from(0.125),
    );
    let power = gate.powercf(CalculatorFloat::from(3.0));
    assert_eq!(
        power,
        RotateAroundSphericalAxis::new(
            1,
            CalculatorFloat::from(1.5),
            CalculatorFloat::from("st"),
            CalculatorFloat::from(0.125),
        )
    );
}

#[test]
fn tags_do_not_depend_on_qubits_or_parameters() {
    let expected = [
        "Operation",
        "GateOperation",
        "SingleQubitGateOperation",
        "Rotation",
        "RotateX",
    ];
    assert_eq!(RotateX::new(0, CalculatorFloat::from(0.0)).tags(), &expected);
    assert_eq!(RotateX::new(17, CalculatorFloat::from("theta")).tags(), &expected);
    assert_eq!(RotateX::new(0, CalculatorFloat::from(0.0)).hqslang(), "RotateX");
    assert_eq!(
        Hadamard::new(3).tags(),
        &["Operation", "GateOperation", "SingleQubitGateOperation", "Hadamard"]
    );
    assert_eq!(
        SingleQubitGate::new(
            0,
            CalculatorFloat::from(1.0),
            CalculatorFloat::from(0.0),
            CalculatorFloat::from(0.0),
            CalculatorFloat::from(0.0),
            CalculatorFloat::from(0.0),
        )
        .tags(),
        &["Operation", "GateOperation", "SingleQubitGateOperation", "SingleQubitGate"]
    );
}

fn gate_of(qubit: usize, values: [f64; 5]) -> SingleQubitGate {
    SingleQubitGate::new(
        qubit,
        CalculatorFloat::from(values[0]),
        CalculatorFloat::from(values[1]),
        CalculatorFloat::from(values[2]),
        CalculatorFloat::from(values[3]),
        CalculatorFloat::from(values[4]),
    )
}

#[test]
fn product_of_single_qubit_gates() {
    // alpha = 0, beta = -i times alpha = -i, beta = 0: alpha = 0 and
    // beta = (-i) * (-i) = -1. The phases add up.
    let x = gate_of(0, [0.0, 0.0, 0.0, -1.0, 0.5]);
    let z = gate_of(0, [0.0, -1.0, 0.0, 0.0, 0.5]);
    let product = x.mul(&z).unwrap();
    assert_eq!(product, gate_of(0, [0.0, 0.0, -1.0, 0.0, 1.0]));
    // The identity is neutral.
    let one = gate_of(0, [1.0, 0.0, 0.0, 0.0, 0.0]);
    let gate = gate_of(0, [0.5, 0.25, -0.125, 2.0, 0.75]);
    assert_eq!(one.mul(&gate).unwrap(), gate);
    assert_eq!(gate.mul(&one).unwrap(), gate);
    // alpha = (1 + 2i)(5 + 6i) - conj(3 + 4i)(7 + 8i), beta = (3 + 4i)(5 + 6i) + conj(1 + 2i)(7 + 8i)
    let left = gate_of(2, [1.0, 2.0, 3.0, 4.0, 0.5]);
    let right = gate_of(2, [5.0, 6.0, 7.0, 8.0, 0.25]);
    assert_eq!(
        left.mul(&right).unwrap(),
        gate_of(2, [-60.0, 20.0, 14.0, 32.0, 0.75])
    );
}

#[test]
fn product_of_gates_on_different_qubits_fails() {
    let left = gate_of(1, [1.0, 0.0, 0.0, 0.0, 0.0]);
    let right = gate_of(3, [1.0, 0.0, 0.0, 0.0, 0.0]);
    assert_eq!(
        left.mul(&right),
        Err(RoqoqoError::MultiplicationIncompatibleQubits { squbit: 1, oqubit: 3 })
    );
}

#[test]
fn product_with_a_symbolic_factor_is_symbolic() {
    let left = SingleQubitGate::new(
        0,
        CalculatorFloat::from("a"),
        CalculatorFloat::from(0.0),
        CalculatorFloat::from(0.0),
        CalculatorFloat::from(0.0),
        CalculatorFloat::from("p"),
    );
    let right = gate_of(0, [1.0, 0.0, 0.0, 0.0, 0.5]);
    let product = left.mul(&right).unwrap();
    assert!(product.is_parametrized());
    assert_eq!(product.alpha_r(), &CalculatorFloat::from("a"));
    assert_eq!(product.global_phase(), &CalculatorFloat::from("(p + 5e-1)"));
}
