use roqoqo::operations::{InvolvedQubits, AVAILABLE_GATES_HQSLANG};

// Test InvolvedQubits clone
#[test]
fn test_involved_qubits_clone() {
    let iq = InvolvedQubits::All;
    #[allow(clippy::redundant_clone)]
    let iq2 = iq.clone();
    assert_eq!(iq, iq2);
    let iq3 = InvolvedQubits::Nothing;
    let helper = iq != iq3;
    assert!(helper);
}

#[test]
fn test_available_gates() {
    assert!(AVAILABLE_GATES_HQSLANG.contains(&"Hadamard"));
    assert!(!AVAILABLE_GATES_HQSLANG.contains(&"Error"));
}

#[test]
fn involved_qubits_clone_keeps_the_set() {
    let mut set = std::collections::HashSet::new();
    set.insert(3usize);
    set.insert(5usize);
    let involved = InvolvedQubits::Qubits(set.clone());
    assert_eq!(involved.clone(), InvolvedQubits::Qubits(set));
}

#[test]
fn available_gates_name_every_kind_once() {
    assert_eq!(AVAILABLE_GATES_HQSLANG.len(), 21);
    for (i, name) in AVAILABLE_GATES_HQSLANG.iter().enumerate() {
        assert!(!AVAILABLE_GATES_HQSLANG[..i].contains(name));
    }
    assert!(AVAILABLE_GATES_HQSLANG.contains(&"MultiQubitMS"));
    assert!(AVAILABLE_GATES_HQSLANG.contains(&"CallDefinedGate"));
}
