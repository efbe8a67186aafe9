use zkp_exchange_network::circuits::CircuitManager;
use zkp_exchange_network::errors::ZkpError;
use zkp_exchange_network::CircuitConfig;

fn config(id: &str, name: &str, description: &str, private: usize, public: usize, constraints: usize) -> CircuitConfig {
    CircuitConfig {
        id: id.to_string(),
        name: name.to_string(),
        description: description.to_string(),
        num_private_inputs: private,
        num_public_inputs: public,
        num_constraints: constraints,
        version: "1.0".to_string(),
    }
}

#[test]
fn test_circuit_manager_creation() {
    let manager = CircuitManager::new();
    assert_eq!(manager.total_circuits(), 0);
}

#[test]
fn circuits_test_register_circuit() {
    let mut manager = CircuitManager::new();
    let circuit = config("test", "Test", "tst circuit", 1, 1, 100);
    assert!(manager.register_circuit(circuit).is_ok());
    assert_eq!(manager.total_circuits(), 1);
}

#[test]
fn test_duplicate_registration() {
    let mut manager = CircuitManager::new();
    let circuit = config("test", "Test", "tst circuit", 1, 1, 100);
    assert!(manager.register_circuit(circuit.clone()).is_ok());
    assert!(manager.register_circuit(circuit).is_err());
}

#[test]
fn test_get_circuit() {
    let mut manager = CircuitManager::new();
    let circuit = config("test", "Test", "Test circuit", 1, 1, 100);
    manager.register_circuit(circuit).unwrap();
    let retrieved = manager.get_circuit("test");
    assert!(retrieved.is_ok());
}

#[test]
fn test_list_circuits() {
    let mut manager = CircuitManager::new();
    manager.load_default_circuits().unwrap();
    assert_eq!(manager.total_circuits(), 4);
}

#[test]
fn test_has_circuit() {
    let mut manager = CircuitManager::new();
    manager.load_default_circuits().unwrap();
    assert!(manager.has_circuit("age_proof"));
    assert!(!manager.has_circuit("unknown"));
}

#[test]
fn test_remove_circuit() {
    let mut manager = CircuitManager::new();
    let circuit = config("test", "Test", "Test circuit", 1, 1, 100);
    manager.register_circuit(circuit).unwrap();
    assert_eq!(manager.total_circuits(), 1);
    assert!(manager.remove_circuit("test").is_ok());
    assert_eq!(manager.total_circuits(), 0);
}

#[test]
fn test_validate_circuit() {
    let _manager = CircuitManager::new();
    // Invalid circuit with no constraints
    let invalid = config("invalid", "Invalid", "Invalid", 0, 0, 0);
    assert_eq!(invalid.num_constraints, 0);
}

#[test]
fn duplicate_registration_message_and_state() {
    let mut manager = CircuitManager::new();
    manager.register_circuit(config("test", "Test", "first", 1, 1, 100)).unwrap();
    match manager.register_circuit(config("test", "Other", "second", 2, 2, 200)) {
        Err(ZkpError::CircuitError(m)) => assert_eq!(m, "circuit test already refgistered"),
        other => panic!("unexpected {:?}", other),
    }
    assert_eq!(manager.total_circuits(), 1);
    assert_eq!(manager.get_circuit("test").unwrap().description, "first");
}

#[test]
fn get_returns_registered_circuit() {
    let mut manager = CircuitManager::new();
    manager.register_circuit(config("a", "A", "first", 1, 2, 3)).unwrap();
    manager.register_circuit(config("b", "B", "second", 4, 5, 6)).unwrap();
    let b = manager.get_circuit("b").unwrap();
    assert_eq!(b.name, "B");
    assert_eq!(b.num_private_inputs, 4);
    assert_eq!(b.num_public_inputs, 5);
    assert_eq!(b.num_constraints, 6);
    match manager.get_circuit("c") {
        Err(ZkpError::UnknownCircuit(id)) => assert_eq!(id, "c"),
        other => panic!("unexpected {:?}", other),
    }
}

#[test]
fn remove_returns_circuit_and_forgets_it() {
    let mut manager = CircuitManager::new();
    manager.register_circuit(config("a", "A", "first", 1, 1, 1)).unwrap();
    manager.register_circuit(config("b", "B", "second", 1, 1, 1)).unwrap();
    let removed = manager.remove_circuit("a").unwrap();
    assert_eq!(removed.name, "A");
    assert!(!manager.has_circuit("a"));
    assert!(manager.has_circuit("b"));
    match manager.remove_circuit("a") {
        Err(ZkpError::UnknownCircuit(id)) => assert_eq!(id, "a"),
        other => panic!("unexpected {:?}", other),
    }
    assert_eq!(manager.total_circuits(), 1);
}

#[test]
fn update_replaces_registered_circuit() {
    let mut manager = CircuitManager::new();
    manager.register_circuit(config("a", "A", "first", 1, 1, 1)).unwrap();
    assert!(manager.update_ciruit(config("a", "A2", "changed", 2, 2, 2)).is_ok());
    assert_eq!(manager.get_circuit("a").unwrap().name, "A2");
    assert_eq!(manager.total_circuits(), 1);
    match manager.update_ciruit(config("z", "Z", "none", 1, 1, 1)) {
        Err(ZkpError::UnknownCircuit(id)) => assert_eq!(id, "z"),
        other => panic!("unexpected {:?}", other),
    }
}

#[test]
fn list_circuits_in_registration_order() {
    let mut manager = CircuitManager::new();
    manager.load_default_circuits().unwrap();
    let ids: Vec<String> = manager.list_circuits().into_iter().map(|c| c.id).collect();
    assert_eq!(ids, vec!["age_proof", "ownership_proof", "membership_proof", "credential_proof"]);
    let membership = manager.get_circuit("membership_proof").unwrap();
    assert_eq!(membership.name, "Memberhip proof");
    assert_eq!(membership.num_private_inputs, 2);
    assert_eq!(membership.num_constraints, 800);
}

#[test]
fn loading_defaults_twice_is_refused() {
    let mut manager = CircuitManager::default();
    manager.load_default_circuits().unwrap();
    match manager.load_default_circuits() {
        Err(ZkpError::CircuitError(m)) => assert_eq!(m, "circuit age_proof already refgistered"),
        other => panic!("unexpected {:?}", other),
    }
    assert_eq!(manager.total_circuits(), 4);
}

#[test]
fn validate_circuit_outcomes() {
    let mut manager = CircuitManager::new();
    manager.register_circuit(config("no_inputs", "N", "n", 0, 0, 10)).unwrap();
    manager.register_circuit(config("no_constraints", "C", "c", 1, 0, 0)).unwrap();
    manager.register_circuit(config("good", "G", "g", 0, 1, 10)).unwrap();
    match manager.validate_circuit("no_inputs") {
        Err(ZkpError::CircuitError(m)) => assert_eq!(m, "Circuit must have atleast one input"),
        other => panic!("unexpected {:?}", other),
    }
    match manager.validate_circuit("no_constraints") {
        Err(ZkpError::CircuitError(m)) => assert_eq!(m, "Circuit must have at least one constraint"),
        other => panic!("unexpected {:?}", other),
    }
    assert!(manager.validate_circuit("good").is_ok());
    match manager.validate_circuit("missing") {
        Err(ZkpError::UnknownCircuit(id)) => assert_eq!(id, "missing"),
        other => panic!("unexpected {:?}", other),
    }
}
