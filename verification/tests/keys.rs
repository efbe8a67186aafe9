use zkp_exchange_network::errors::ZkpError;
use zkp_exchange_network::keys::KeyManager;
use zkp_exchange_network::utils;
use zkp_exchange_network::{KeyMaterial, KeyType};

fn create_test_key(key_id: &str, circuit_id: &str) -> KeyMaterial {
    KeyMaterial {
        key_id: key_id.to_string(),
        key_type: KeyType::VerificationKey,
        key_data: "test_key_data".to_string(),
        circuit_id: circuit_id.to_string(),
        created_at: utils::current_timestamp(),
        expires_at: None,
    }
}

fn key(key_id: &str, key_type: KeyType, data: &str, circuit_id: &str, expires_at: Option<u64>) -> KeyMaterial {
    KeyMaterial {
        key_id: key_id.to_string(),
        key_type,
        key_data: data.to_string(),
        circuit_id: circuit_id.to_string(),
        created_at: 1000,
        expires_at,
    }
}

#[test]
fn test_key_manager_creation() {
    let manager = KeyManager::new();
    assert_eq!(manager.total_keys(), 0);
}

#[test]
fn test_store_and_retrieve_key() {
    let mut manager = KeyManager::new();
    let key = create_test_key("test_key", "test_circuit");
    assert!(manager.store_key(key).is_ok());
    assert_eq!(manager.total_keys(), 1);

    let retrieved = manager.get_key("test_key");
    assert!(retrieved.is_ok());
}

#[test]
fn test_duplicate_key_storage() {
    let mut manager = KeyManager::new();
    let key = create_test_key("test_key", "test_circuit");
    assert!(manager.store_key(key.clone()).is_ok());
    assert!(manager.store_key(key).is_err());
}

#[test]
fn test_get_keys_for_circuit() {
    let mut manager = KeyManager::new();
    manager.store_key(create_test_key("key1", "circuit1")).unwrap();
    manager.store_key(create_test_key("key2", "circuit1")).unwrap();
    manager.store_key(create_test_key("key3", "circuit2")).unwrap();

    let circuit1_keys = manager.get_keys_for_circuit("circuit1");
    assert_eq!(circuit1_keys.len(), 2);

    let circuit2_keys = manager.get_keys_for_circuit("circuit2");
    assert_eq!(circuit2_keys.len(), 1);
}

#[test]
fn test_remove_key() {
    let mut manager = KeyManager::new();
    let key = create_test_key("test_key", "test_circuit");
    manager.store_key(key).unwrap();
    assert_eq!(manager.total_keys(), 1);

    assert!(manager.remove_key("test_key").is_ok());
    assert_eq!(manager.total_keys(), 0);
}

#[test]
fn test_has_key() {
    let mut manager = KeyManager::new();
    let key = create_test_key("test_key", "test_circuit");
    manager.store_key(key).unwrap();

    assert!(manager.has_key("test_key"));
    assert!(!manager.has_key("nonexistent"));
}

#[test]
fn test_key_expiration() {
    let mut manager = KeyManager::new();
    let now = utils::current_timestamp();

    // Create an expired key
    let expired_key = KeyMaterial {
        key_id: "expired_key".to_string(),
        key_type: KeyType::VerificationKey,
        key_data: "test".to_string(),
        circuit_id: "test".to_string(),
        created_at: now - 100,
        expires_at: Some(now - 10), // Expired 10 seconds ago
    };

    manager.store_key(expired_key).unwrap();
    assert!(manager.is_key_expired("expired_key").unwrap());
    assert!(manager.validate_key("expired_key").is_err());
}

#[test]
fn test_load_default_keys() {
    let mut manager = KeyManager::new();
    assert!(manager.load_default_keys().is_ok());
    assert!(manager.total_keys() > 0);
}

#[test]
fn store_duplicate_message_and_state() {
    let mut manager = KeyManager::new();
    manager.store_key(key("k", KeyType::ProvingKey, "first", "c", None)).unwrap();
    match manager.store_key(key("k", KeyType::VerificationKey, "second", "c", None)) {
        Err(ZkpError::KeyError(m)) => assert_eq!(m, "key k already exists"),
        other => panic!("unexpected {:?}", other),
    }
    assert_eq!(manager.total_keys(), 1);
    assert_eq!(manager.get_key("k").unwrap().key_data, "first");
}

#[test]
fn missing_key_messages() {
    let mut manager = KeyManager::new();
    match manager.get_key("nope") {
        Err(ZkpError::KeyError(m)) => assert_eq!(m, "Key nope not found"),
        other => panic!("unexpected {:?}", other),
    }
    match manager.remove_key("nope") {
        Err(ZkpError::KeyError(m)) => assert_eq!(m, "key nope doens not exist"),
        other => panic!("unexpected {:?}", other),
    }
    match manager.export_key_data("nope") {
        Err(ZkpError::KeyError(m)) => assert_eq!(m, "Key nope not found"),
        other => panic!("unexpected {:?}", other),
    }
    match manager.is_key_expired("nope") {
        Err(ZkpError::KeyError(m)) => assert_eq!(m, "Key nope not found"),
        other => panic!("unexpected {:?}", other),
    }
}

#[test]
fn keys_by_kind_and_listing() {
    let mut manager = KeyManager::new();
    manager.store_key(key("v1", KeyType::VerificationKey, "d1", "c1", None)).unwrap();
    manager.store_key(key("p1", KeyType::ProvingKey, "d2", "c1", None)).unwrap();
    manager.store_key(key("v2", KeyType::VerificationKey, "d3", "c2", None)).unwrap();
    manager.store_key(key("v3", KeyType::VerificationKey, "d4", "c1", None)).unwrap();
    assert_eq!(manager.get_verification_key("c1").unwrap().key_id, "v1");
    assert_eq!(manager.get_proving_key("c1").unwrap().key_id, "p1");
    match manager.get_proving_key("c2") {
        Err(ZkpError::KeyError(m)) => assert_eq!(m, "Proving key not found for circuit c2"),
        other => panic!("unexpected {:?}", other),
    }
    match manager.get_verification_key("c9") {
        Err(ZkpError::KeyError(m)) => assert_eq!(m, "Verification key not found for circuit c9"),
        other => panic!("unexpected {:?}", other),
    }
    assert_eq!(manager.list_circuit_keys("c1"), vec!["v1", "p1", "v3"]);
    assert_eq!(manager.list_circuit_keys("c3"), Vec::<String>::new());
}

#[test]
fn expiry_and_validation_at_given_times() {
    let mut manager = KeyManager::new();
    manager.store_key(key("e", KeyType::ProvingKey, "data", "c", Some(500))).unwrap();
    manager.store_key(key("n", KeyType::ProvingKey, "data", "c", None)).unwrap();
    manager.store_key(key("empty", KeyType::ProvingKey, "", "c", None)).unwrap();
    assert!(!manager.is_key_expired_at("e", 499).unwrap());
    assert!(manager.is_key_expired_at("e", 500).unwrap());
    assert!(!manager.is_key_expired_at("n", u64::MAX).unwrap());
    assert!(manager.validate_key_at("e", 499).is_ok());
    match manager.validate_key_at("e", 500) {
        Err(ZkpError::KeyError(m)) => assert_eq!(m, "Key e is expired"),
        other => panic!("unexpected {:?}", other),
    }
    match manager.validate_key_at("empty", 0) {
        Err(ZkpError::KeyError(m)) => assert_eq!(m, "Key empty has no data key"),
        other => panic!("unexpected {:?}", other),
    }
    assert!(manager.validate_key("n").is_ok());
}

#[test]
fn rotate_keeps_old_key() {
    let mut manager = KeyManager::new();
    manager.store_key(key("old", KeyType::ProvingKey, "a", "c", None)).unwrap();
    assert!(manager.rotate_key("old", key("new", KeyType::ProvingKey, "b", "c", None)).is_ok());
    assert!(manager.has_key("old"));
    assert!(manager.has_key("new"));
    match manager.rotate_key("absent", key("newer", KeyType::ProvingKey, "c", "c", None)) {
        Err(ZkpError::KeyError(m)) => assert_eq!(m, "Key absent not found"),
        other => panic!("unexpected {:?}", other),
    }
    assert!(!manager.has_key("newer"));
    assert_eq!(manager.export_key_data("new").unwrap(), "b");
}

#[test]
fn default_keys_content() {
    let mut manager = KeyManager::new();
    manager.load_default_keys().unwrap();
    assert_eq!(manager.total_keys(), 4);
    let k = manager.get_key("age_proof_proving_key").unwrap();
    assert_eq!(k.key_type, KeyType::ProvingKey);
    assert_eq!(k.circuit_id, "age_proof");
    assert_eq!(k.key_data, utils::base64_encode(b"mock_age_proving_key"));
    assert_eq!(k.expires_at, None);
    assert_eq!(manager.get_verification_key("ownership_proof").unwrap().key_id, "ownership_proof_verification_key");
    assert!(manager.load_default_keys().is_err());
    assert_eq!(manager.total_keys(), 4);
}
