use zkp_exchange_network::errors::ZkpError;
use zkp_exchange_network::proof_verifier::Verifier;
use zkp_exchange_network::utils;
use zkp_exchange_network::{CircuitConfig, VerificationRequest, ZkProof};

fn create_test_circuit() -> CircuitConfig {
    CircuitConfig {
        id: "test_circuit".to_string(),
        name: "Test Circuit".to_string(),
        description: "A test circuit".to_string(),
        num_private_inputs: 2,
        num_public_inputs: 1,
        num_constraints: 100,
        version: "1.0".to_string(),
    }
}

fn create_test_proof() -> ZkProof {
    let document: serde_json::Value = serde_json::from_str(
        r#"{"pi_a":["1","2"],"pi_b":[["3","4"],["5","6"]],"pi_c":["7","8"],"protocol":"groth16"}"#,
    )
    .unwrap();
    ZkProof {
        proof_data: utils::base64_encode(document.to_string().as_bytes()),
        public_signals: vec!["signal1".to_string()],
        circuit_id: "test_circuit".to_string(),
        timestamp: utils::current_timestamp(),
        signature: None,
        version: "1.0".to_string(),
    }
}

fn ready_verifier() -> Verifier {
    let mut verifier = Verifier::new();
    verifier.register_circuit(create_test_circuit()).unwrap();
    verifier.load_verification_key("test_circuit", "dummy_key".to_string()).unwrap();
    verifier
}

fn plain(proof: ZkProof) -> VerificationRequest {
    VerificationRequest { proof, expected_signals: None, max_age: None }
}

#[test]
fn test_verifier_creation() {
    let verifier = Verifier::new();
    assert_eq!(verifier.get_circuits().len(), 0);
}

#[test]
fn verifier_test_register_circuit() {
    let mut verifier = Verifier::new();
    let circuit = create_test_circuit();
    assert!(verifier.register_circuit(circuit).is_ok());
    assert_eq!(verifier.get_circuits().len(), 1);
}

#[test]
fn test_verify_proof_missing_key() {
    let mut verifier = Verifier::new();
    let circuit = create_test_circuit();
    verifier.register_circuit(circuit).unwrap();

    let proof = create_test_proof();
    let request = VerificationRequest { proof, expected_signals: None, max_age: None };

    let result = verifier.verify_proof(request);
    assert!(result.is_err());
}

#[test]
fn test_verify_proof_success() {
    let mut verifier = Verifier::new();
    let circuit = create_test_circuit();
    verifier.register_circuit(circuit).unwrap();
    verifier.load_verification_key("test_circuit", "dummy_key".to_string()).unwrap();

    let proof = create_test_proof();
    let request = VerificationRequest { proof, expected_signals: None, max_age: None };

    let result = verifier.verify_proof(request);
    assert!(result.is_ok());
    let verification_result = result.unwrap();
    assert!(verification_result.is_valid);
}

#[test]
fn test_quick_verify() {
    let mut verifier = Verifier::new();
    let circuit = create_test_circuit();
    verifier.register_circuit(circuit).unwrap();
    verifier.load_verification_key("test_circuit", "dummy_key".to_string()).unwrap();

    let proof = create_test_proof();
    let result = verifier.quick_verify(&proof);
    assert!(result.is_ok());
}

#[test]
fn verifier_test_timestamp_validation() {
    let mut verifier = Verifier::new();
    let circuit = create_test_circuit();
    verifier.register_circuit(circuit).unwrap();
    verifier.load_verification_key("test_circuit", "dummy_key".to_string()).unwrap();

    let mut proof = create_test_proof();
    proof.timestamp = utils::current_timestamp() - 1000;

    let request = VerificationRequest { proof, expected_signals: None, max_age: Some(60) };

    let result = verifier.verify_proof(request);
    assert!(result.is_ok());
    let verification_result = result.unwrap();
    assert!(!verification_result.is_valid);
}

#[test]
fn verification_result_fields() {
    let verifier = ready_verifier();
    let mut proof = create_test_proof();
    proof.timestamp = 100;
    let result = verifier.verify_proof_at(plain(proof.clone()), 5000).unwrap();
    assert!(result.is_valid);
    assert_eq!(result.message, "Proof is valid");
    assert_eq!(result.verified_at, 5000);
    assert_eq!(result.circuit_id, "test_circuit");
    assert_eq!(result.public_signals, vec!["signal1"]);

    let stale = VerificationRequest { proof: proof.clone(), expected_signals: None, max_age: Some(4899) };
    let result = verifier.verify_proof_at(stale, 5000).unwrap();
    assert!(!result.is_valid);
    assert_eq!(result.message, "Proof is too old");

    let fresh = VerificationRequest { proof: proof.clone(), expected_signals: None, max_age: Some(4900) };
    assert!(verifier.verify_proof_at(fresh, 5000).unwrap().is_valid);

    let future = VerificationRequest { proof: proof.clone(), expected_signals: None, max_age: Some(u64::MAX) };
    assert!(!verifier.verify_proof_at(future, 99).unwrap().is_valid);

    let mismatch =
        VerificationRequest { proof: proof.clone(), expected_signals: Some(vec!["other".to_string()]), max_age: None };
    let result = verifier.verify_proof_at(mismatch, 5000).unwrap();
    assert!(!result.is_valid);
    assert_eq!(result.message, "Public signals do not match expected values");

    let matching =
        VerificationRequest { proof, expected_signals: Some(vec!["signal1".to_string()]), max_age: None };
    assert!(verifier.verify_proof_at(matching, 5000).unwrap().is_valid);
}

#[test]
fn verification_errors() {
    let verifier = ready_verifier();
    let mut unknown = create_test_proof();
    unknown.circuit_id = "other".to_string();
    match verifier.verify_proof(plain(unknown.clone())) {
        Err(ZkpError::UnknownCircuit(id)) => assert_eq!(id, "other"),
        other => panic!("unexpected {:?}", other),
    }
    match verifier.quick_verify(&unknown) {
        Err(ZkpError::UnknownCircuit(id)) => assert_eq!(id, "other"),
        other => panic!("unexpected {:?}", other),
    }

    let mut empty = create_test_proof();
    empty.proof_data = String::new();
    match verifier.verify_proof(plain(empty)) {
        Err(ZkpError::InvalidProofFormat(m)) => assert_eq!(m, "Proof data is empty"),
        other => panic!("unexpected {:?}", other),
    }
    let mut no_signals = create_test_proof();
    no_signals.public_signals = vec![];
    match verifier.verify_proof(plain(no_signals)) {
        Err(ZkpError::InvalidProofFormat(m)) => assert_eq!(m, "Proof has no public signals"),
        other => panic!("unexpected {:?}", other),
    }
    let mut not_base64 = create_test_proof();
    not_base64.proof_data = "not base64!".to_string();
    assert!(matches!(verifier.verify_proof(plain(not_base64.clone())), Err(ZkpError::EncodingError(_))));
    assert!(matches!(verifier.quick_verify(&not_base64), Err(ZkpError::EncodingError(_))));
    let mut not_json = create_test_proof();
    not_json.proof_data = utils::base64_encode(b"not json");
    assert!(matches!(verifier.verify_proof(plain(not_json.clone())), Err(ZkpError::SerializationError(_))));
    assert_eq!(verifier.quick_verify(&not_json).unwrap(), true);

    let mut without_key = Verifier::new();
    without_key.register_circuit(create_test_circuit()).unwrap();
    match without_key.verify_proof(plain(create_test_proof())) {
        Err(ZkpError::KeyError(m)) => assert_eq!(m, "Verification Key not loaded for test_circuit"),
        other => panic!("unexpected {:?}", other),
    }
    match without_key.quick_verify(&create_test_proof()) {
        Err(ZkpError::KeyError(m)) => assert_eq!(m, "Verification key not loaded for test_circuit "),
        other => panic!("unexpected {:?}", other),
    }
}

#[test]
fn verifier_registry_behaviour() {
    let mut verifier = Verifier::default();
    verifier.register_circuit(create_test_circuit()).unwrap();
    match verifier.register_circuit(create_test_circuit()) {
        Err(ZkpError::CircuitError(m)) => assert_eq!(m, "circuit test_circuit already registered"),
        other => panic!("unexpected {:?}", other),
    }
    match verifier.load_verification_key("nope", "k".to_string()) {
        Err(ZkpError::UnknownCircuit(id)) => assert_eq!(id, "nope"),
        other => panic!("unexpected {:?}", other),
    }
    assert_eq!(verifier.get_circuit("test_circuit").unwrap().num_constraints, 100);
    assert!(verifier.get_circuit("nope").is_none());
}
