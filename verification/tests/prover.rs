use zkp_exchange_network::errors::ZkpError;
use zkp_exchange_network::prover::{parse_proof_inputs, proof_request_from_json, Prover};
use zkp_exchange_network::types::{InputValue, ProofInputs};
use zkp_exchange_network::{CircuitConfig, ProofRequest};

fn create_test_circuit() -> CircuitConfig {
    CircuitConfig {
        id: "test_circuit".to_string(),
        name: "Test Circuit".to_string(),
        description: "A test circuit".to_string(),
        num_private_inputs: 2,
        num_public_inputs: 1,
        num_constraints: 100,
        version: "1.0".to_string(),
    }
}

fn object(entries: &[(&str, &str)]) -> ProofInputs {
    ProofInputs::Object(entries.iter().map(|(k, v)| (k.to_string(), InputValue::Text(v.to_string()))).collect())
}

fn request(private: ProofInputs, public: ProofInputs) -> ProofRequest {
    ProofRequest { circuit_id: "test_circuit".to_string(), private_inputs: private, public_inputs: public, metadata: None }
}

fn ready_prover() -> Prover {
    let mut prover = Prover::new();
    prover.register_circuit(create_test_circuit()).unwrap();
    prover.load_proving_key("test_circuit", "dummy_key".to_string()).unwrap();
    prover
}

#[test]
fn test_prover_creation() {
    let prover = Prover::new();
    assert_eq!(prover.get_circuits().len(), 0);
}

#[test]
fn prover_test_register_circuit() {
    let mut prover = Prover::new();
    let circuit = create_test_circuit();
    assert!(prover.register_circuit(circuit).is_ok());
    assert_eq!(prover.get_circuits().len(), 1);
}

#[test]
fn test_duplicate_circuit_registration() {
    let mut prover = Prover::new();
    let circuit = create_test_circuit();
    assert!(prover.register_circuit(circuit.clone()).is_ok());
    assert!(prover.register_circuit(circuit).is_err());
}

#[test]
fn test_load_proving_key() {
    let mut prover = Prover::new();
    let circuit = create_test_circuit();
    prover.register_circuit(circuit).unwrap();
    let result = prover.load_proving_key("test_circuit", "key_data".to_string());
    assert!(result.is_ok());
}

#[test]
fn test_load_proving_key_unknown_circuit() {
    let mut prover = Prover::new();
    let result = prover.load_proving_key("unknown", "key_data".to_string());
    assert!(result.is_err());
}

#[test]
fn test_proof_generation() {
    let mut prover = Prover::new();
    let circuit = create_test_circuit();
    prover.register_circuit(circuit).unwrap();
    prover.load_proving_key("test_circuit", "dummy_key".to_string()).unwrap();

    let request = ProofRequest {
        circuit_id: "test_circuit".to_string(),
        private_inputs: object(&[("secret1", "value1"), ("secret2", "value2")]),
        public_inputs: object(&[("public1", "visible")]),
        metadata: None,
    };

    let proof = prover.generate_proof(request);
    assert!(proof.is_ok());

    let proof = proof.unwrap();
    assert_eq!(proof.circuit_id, "test_circuit");
    assert!(!proof.proof_data.is_empty());
    assert_eq!(proof.public_signals.len(), 1);
}

#[test]
fn generated_proof_content() {
    let prover = ready_prover();
    let public = ProofInputs::Object(vec![("n".to_string(), InputValue::Json("42".to_string()))]);
    let proof = prover
        .generate_proof_at(request(object(&[("a", "1"), ("b", "2")]), public), 1234)
        .unwrap();
    assert_eq!(
        proof.proof_data,
        r#"{"pi_a":["0","0"],"pi_b":[["0","0"],["0","0"]],"pi_c":["0","0"],"protocol":"groth16","curve":"bn128"}"#
    );
    assert_eq!(proof.public_signals, vec!["42"]);
    assert_eq!(proof.timestamp, 1234);
    assert_eq!(proof.signature, None);
    assert_eq!(proof.version, "1.0");
}

#[test]
fn generation_refusals() {
    let mut prover = Prover::new();
    let req = || request(object(&[("a", "1"), ("b", "2")]), object(&[("p", "x")]));
    match prover.generate_proof(req()) {
        Err(ZkpError::UnknownCircuit(id)) => assert_eq!(id, "test_circuit"),
        other => panic!("unexpected {:?}", other),
    }
    prover.register_circuit(create_test_circuit()).unwrap();
    match prover.generate_proof(req()) {
        Err(ZkpError::KeyError(m)) => assert_eq!(m, "Proving Key not loaded for test_circuit"),
        other => panic!("unexpected {:?}", other),
    }
    prover.load_proving_key("test_circuit", "k".to_string()).unwrap();
    match prover.generate_proof(request(object(&[("a", "1")]), object(&[("p", "x")]))) {
        Err(ZkpError::InvalidInput(m)) => assert_eq!(m, "Expected 2 private inputs, got 1 "),
        other => panic!("unexpected {:?}", other),
    }
    match prover.generate_proof(request(ProofInputs::NotObject, object(&[("p", "x")]))) {
        Err(ZkpError::InvalidInput(m)) => assert_eq!(m, "Private inputs must be a JSON object"),
        other => panic!("unexpected {:?}", other),
    }
    match prover.generate_proof(request(object(&[("a", "1"), ("b", "2")]), object(&[]))) {
        Err(ZkpError::InvalidInput(m)) => assert_eq!(m, "Expected 1 public inputs ,got 0"),
        other => panic!("unexpected {:?}", other),
    }
    match prover.generate_proof(request(object(&[("a", "1"), ("b", "2")]), ProofInputs::NotObject)) {
        Err(ZkpError::InvalidInput(m)) => assert_eq!(m, "Public inputs must be a JSON object"),
        other => panic!("unexpected {:?}", other),
    }
    assert!(prover.generate_proof(req()).is_ok());
}

#[test]
fn prover_registry_behaviour() {
    let mut prover = Prover::default();
    prover.load_default_circuits().unwrap();
    assert_eq!(prover.get_circuits().len(), 4);
    assert_eq!(prover.get_circuit("credential_proof").unwrap().name, "Credential Proof");
    assert!(prover.get_circuit("nope").is_none());
    match prover.register_circuit(prover.get_circuit("age_proof").unwrap()) {
        Err(ZkpError::CircuitError(m)) => assert_eq!(m, "Cicruit age_proof already registered"),
        other => panic!("unexpected {:?}", other),
    }
    match prover.load_proving_key("nope", "k".to_string()) {
        Err(ZkpError::UnknownCircuit(id)) => assert_eq!(id, "nope"),
        other => panic!("unexpected {:?}", other),
    }
    // loading again replaces the key data
    assert!(prover.load_proving_key("age_proof", "k1".to_string()).is_ok());
    assert!(prover.load_proving_key("age_proof", "k2".to_string()).is_ok());
}

#[test]
fn parse_proof_inputs_keeps_order_and_texts() {
    let inputs = parse_proof_inputs(r#"{"b": "x", "a": 42, "c": [1, "y"], "d": null}"#).unwrap();
    match inputs {
        ProofInputs::Object(entries) => {
            let keys: Vec<&str> = entries.iter().map(|(k, _)| k.as_str()).collect();
            assert_eq!(keys, vec!["b", "a", "c", "d"]);
            assert!(matches!(&entries[0].1, InputValue::Text(s) if s == "x"));
            assert!(matches!(&entries[1].1, InputValue::Json(s) if s == "42"));
            assert!(matches!(&entries[2].1, InputValue::Json(s) if s == "[1,\"y\"]"));
            assert!(matches!(&entries[3].1, InputValue::Json(s) if s == "null"));
        },
        ProofInputs::NotObject => panic!("expected an object"),
    }
    assert!(matches!(parse_proof_inputs("[1, 2]"), Ok(ProofInputs::NotObject)));
    assert!(matches!(parse_proof_inputs("\"text\""), Ok(ProofInputs::NotObject)));
    assert!(matches!(parse_proof_inputs("{\"a\": "), Err(ZkpError::SerializationError(_))));
    assert!(matches!(parse_proof_inputs(""), Err(ZkpError::SerializationError(_))));
}

#[test]
fn proof_request_from_json_text() {
    let request = proof_request_from_json("test_circuit".to_string(), r#"{"x": 1, "y": 2}"#, r#"{"z": "5"}"#).unwrap();
    assert_eq!(request.circuit_id, "test_circuit");
    assert!(request.metadata.is_none());
    assert!(matches!(&request.private_inputs, ProofInputs::Object(e) if e.len() == 2));
    let proof = ready_prover().generate_proof(request).unwrap();
    assert_eq!(proof.public_signals, vec!["5".to_string()]);
    assert_eq!(proof.circuit_id, "test_circuit");

    let r = proof_request_from_json("c".to_string(), "{", r#"{"z": 1}"#);
    assert!(matches!(r, Err(ZkpError::SerializationError(_))));
    let r = proof_request_from_json("c".to_string(), r#"{"x": 1}"#, "not json");
    assert!(matches!(r, Err(ZkpError::SerializationError(_))));
}
