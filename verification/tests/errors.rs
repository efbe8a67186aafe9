use zkp_exchange_network::errors::ZkpError;

#[test]
fn test_verification_failed_error() {
    let error = ZkpError::VerificationFailed("Proof does not match".to_string());
    assert_eq!(error.message(), "Proof verification failed:Proof does not match");
}

#[test]
fn test_invalid_proof_format_error() {
    let error = ZkpError::InvalidProofFormat("Missing field".to_string());
    assert_eq!(error.message(), "Invalid proof format:Missing field");
}

#[test]
fn error_messages() {
    assert_eq!(ZkpError::CircuitError("x".to_string()).message(), "Circuit error:x");
    assert_eq!(ZkpError::KeyError("x".to_string()).message(), "Key management error:x");
    assert_eq!(ZkpError::EncodingError("x".to_string()).message(), "encoding error:x");
    assert_eq!(ZkpError::UnknownCircuit("x".to_string()).message(), "Unknown Circuit:x");
    assert_eq!(ZkpError::ProofGeneration("x".to_string()).message(), "Proof generation failed: x");
    assert_eq!(ZkpError::NoCircuitsRegistered("none").message(), "No circuits registered:none");
    assert_eq!(ZkpError::InternalError("x".to_string()).message(), "Intrenal error:x");
    let json_error = serde_json::from_str::<serde_json::Value>("{").unwrap_err();
    let text = json_error.to_string();
    assert_eq!(ZkpError::SerializationError(json_error).message(), format!("Serialization error: {}", text));
}
