use zkp_exchange_network::errors::ZkpError;
use zkp_exchange_network::exchange::ProofExchange;
use zkp_exchange_network::types::TransmissionMetadata;
use zkp_exchange_network::utils;
use zkp_exchange_network::{ProofPacket, TransmissionChannel, ZkProof};

fn create_test_proof() -> ZkProof {
    ZkProof {
        proof_data: "test_proof".to_string(),
        public_signals: vec!["signal1".to_string()],
        circuit_id: "test".to_string(),
        timestamp: utils::current_timestamp(),
        signature: None,
        version: "1.0".to_string(),
    }
}

fn fixed_proof() -> ZkProof {
    ZkProof {
        proof_data: "d\"q".to_string(),
        public_signals: vec!["a".to_string(), "b".to_string()],
        circuit_id: "c".to_string(),
        timestamp: 7,
        signature: Some("sig".to_string()),
        version: "1.0".to_string(),
    }
}

fn json_of(text: &str) -> serde_json::Value {
    serde_json::from_str(text).unwrap()
}

#[test]
fn test_qr_encoding_decoding() {
    let proof = create_test_proof();
    let encoded = ProofExchange::encode_for_qr(&proof);
    assert!(encoded.is_ok());

    let decoded = ProofExchange::decode_from_qr(&encoded.unwrap());
    assert!(decoded.is_ok());

    let decoded_proof = json_of(&decoded.unwrap());
    assert_eq!(decoded_proof["circuit_id"], proof.circuit_id.as_str());
}

#[test]
fn test_qr_encoding_size_limits() {
    let mut proof = create_test_proof();
    proof.proof_data = "x".repeat(5000);

    let encoded = ProofExchange::encode_for_qr(&proof);
    assert!(encoded.is_err());
}

#[test]
fn test_ble_chunking() {
    let proof = create_test_proof();
    let chunks = ProofExchange::encode_for_ble(&proof, 100);
    assert!(chunks.is_ok());
    let chunks = chunks.unwrap();
    assert!(chunks.len() > 0);

    let reassambled = ProofExchange::decode_from_ble(&chunks);
    assert!(reassambled.is_ok());
}

#[test]
fn test_ultrasonic_encoding() {
    let proof = create_test_proof();
    let encoded = ProofExchange::encode_for_ultrasonic(&proof);
    assert!(encoded.is_ok());

    let decoded = ProofExchange::decode_from_ultrasonic(&encoded.unwrap());
    assert!(decoded.is_ok());
}

#[test]
fn test_create_packet() {
    let proof = create_test_proof();
    let packet = ProofExchange::create_packet(proof, TransmissionChannel::BluetoothLe, None);

    assert!(packet.is_ok());
    let packet = packet.unwrap();
    assert!(packet.metadata.nonce.is_some());
}

#[test]
fn test_transmission_size_estimation() {
    let proof = create_test_proof();

    let qr_size = ProofExchange::estimate_transmission_size(&proof, &TransmissionChannel::QrCode);
    let ble_size = ProofExchange::estimate_transmission_size(&proof, &TransmissionChannel::BluetoothLe);
    let ultrasonic_size = ProofExchange::estimate_transmission_size(&proof, &TransmissionChannel::UltrasonicAudio);

    assert!(qr_size.is_ok());
    assert!(ble_size.is_ok());
    assert!(ultrasonic_size.is_ok());
    assert!(ultrasonic_size.unwrap() > ble_size.unwrap());
}

const FIXED_JSON: &str =
    r#"{"proof_data":"d\"q","public_signals":["a","b"],"circuit_id":"c","timestamp":7,"signature":"sig","version":"1.0"}"#;

#[test]
fn qr_round_trip_gives_proof_json() {
    let qr = ProofExchange::encode_for_qr(&fixed_proof()).unwrap();
    assert_eq!(qr, utils::base64_encode(FIXED_JSON.as_bytes()));
    assert_eq!(ProofExchange::decode_from_qr(&qr).unwrap(), FIXED_JSON);
    let mut unsigned = fixed_proof();
    unsigned.signature = None;
    let text = ProofExchange::decode_from_qr(&ProofExchange::encode_for_qr(&unsigned).unwrap()).unwrap();
    assert_eq!(json_of(&text)["signature"], serde_json::Value::Null);
}

#[test]
fn qr_limit_and_errors() {
    let exactly = vec![b'a'; 2175];
    assert_eq!(ProofExchange::encode_json_for_qr(&exactly).unwrap().len(), 2900);
    let over = vec![b'a'; 2176];
    match ProofExchange::encode_json_for_qr(&over) {
        Err(ZkpError::EncodingError(m)) => {
            assert_eq!(m, "Proof too large for QR code  (2904 bytes,\n                    max 2900)")
        },
        other => panic!("unexpected {:?}", other),
    }
    assert!(matches!(ProofExchange::decode_from_qr("***"), Err(ZkpError::EncodingError(_))));
    match ProofExchange::decode_from_qr(&utils::base64_encode(&[0xff, 0xfe])) {
        Err(ZkpError::EncodingError(m)) => assert!(m.starts_with("Invalid UTF-8:")),
        other => panic!("unexpected {:?}", other),
    }
}

#[test]
fn ble_chunks_and_reassembly() {
    let json = b"0123456789";
    let chunks = ProofExchange::chunk_json_for_ble(json, 4).unwrap();
    assert_eq!(chunks, vec![b"0123".to_vec(), b"4567".to_vec(), b"89".to_vec()]);
    assert_eq!(ProofExchange::decode_from_ble(&chunks).unwrap(), "0123456789");
    assert_eq!(ProofExchange::chunk_json_for_ble(b"", 3).unwrap(), Vec::<Vec<u8>>::new());
    assert_eq!(ProofExchange::chunk_json_for_ble(json, 10).unwrap(), vec![json.to_vec()]);
    match ProofExchange::chunk_json_for_ble(json, 0) {
        Err(ZkpError::EncodingError(m)) => assert_eq!(m, "\n            Chunk size must be greater than 0"),
        other => panic!("unexpected {:?}", other),
    }
    assert!(matches!(ProofExchange::encode_for_ble(&fixed_proof(), 0), Err(ZkpError::EncodingError(_))));
    let chunks = ProofExchange::encode_for_ble(&fixed_proof(), 7).unwrap();
    assert!(chunks.iter().all(|c| !c.is_empty() && c.len() <= 7));
    assert_eq!(ProofExchange::decode_from_ble(&chunks).unwrap(), FIXED_JSON);
    match ProofExchange::decode_from_ble(&[vec![0xc3], vec![0x28]]) {
        Err(ZkpError::EncodingError(m)) => assert!(m.starts_with("Invalid UTF-8 ") && m.ends_with(' ')),
        other => panic!("unexpected {:?}", other),
    }
}

#[test]
fn ultrasonic_round_trip_drops_signature() {
    let proof = fixed_proof();
    let bytes = ProofExchange::encode_for_ultrasonic(&proof).unwrap();
    assert_eq!(String::from_utf8(bytes.clone()).unwrap(), r#"{"p":"d\"q","s":["a","b"],"c":"c","t":7,"v":"1.0"}"#);
    let decoded = ProofExchange::decode_from_ultrasonic(&bytes).unwrap();
    assert_eq!(decoded.proof_data, proof.proof_data);
    assert_eq!(decoded.public_signals, proof.public_signals);
    assert_eq!(decoded.circuit_id, proof.circuit_id);
    assert_eq!(decoded.timestamp, proof.timestamp);
    assert_eq!(decoded.signature, None);
    assert_eq!(decoded.version, proof.version);
}

#[test]
fn ultrasonic_decoding_rules() {
    let decoded =
        ProofExchange::decode_from_ultrasonic(br#"{"p":"x","s":["a",1,"b",null],"c":"k","t":3,"sig":"z"}"#).unwrap();
    assert_eq!(decoded.public_signals, vec!["a", "b"]);
    assert_eq!(decoded.signature, Some("z".to_string()));
    assert_eq!(decoded.version, "1.0");
    let missing = |data: &[u8], expected: &str| match ProofExchange::decode_from_ultrasonic(data) {
        Err(ZkpError::InvalidProofFormat(m)) => assert_eq!(m, expected),
        other => panic!("unexpected {:?}", other),
    };
    missing(br#"{"s":[],"c":"k","t":3}"#, "Missing proof data");
    missing(br#"{"p":"x","s":"no","c":"k","t":3}"#, "Missing signals");
    missing(br#"{"p":"x","s":[],"t":3}"#, "Missing circuit ID");
    missing(br#"{"p":"x","s":[],"c":"k","t":-3}"#, "Missing timestamp");
    missing(br#"[1,2]"#, "Missing proof data");
    assert!(matches!(ProofExchange::decode_from_ultrasonic(b"{"), Err(ZkpError::SerializationError(_))));
}

#[test]
fn packets() {
    let packet = ProofExchange::create_packet(fixed_proof(), TransmissionChannel::Nfc, Some("pk".to_string())).unwrap();
    assert_eq!(packet.metadata.channel, TransmissionChannel::Nfc);
    assert_eq!(packet.metadata.compression, Some("base64".to_string()));
    assert_eq!(packet.metadata.receiver_pubkey, Some("pk".to_string()));
    assert_eq!(packet.metadata.nonce.as_ref().unwrap().len(), 64);
    assert!(ProofExchange::validate_packet_at(&packet, 10, 17).is_ok());
    match ProofExchange::validate_packet_at(&packet, 10, 18) {
        Err(ZkpError::InvalidProofFormat(m)) => assert_eq!(m, "Proof is too old"),
        other => panic!("unexpected {:?}", other),
    }
    let no_nonce = ProofPacket {
        proof: fixed_proof(),
        metadata: TransmissionMetadata {
            channel: TransmissionChannel::QrCode,
            nonce: None,
            compression: None,
            receiver_pubkey: None,
        },
    };
    match ProofExchange::validate_packet_at(&no_nonce, 10, 17) {
        Err(ZkpError::InvalidProofFormat(m)) => assert_eq!(m, "Missing nonce"),
        other => panic!("unexpected {:?}", other),
    }
    let mut empty = packet.clone();
    empty.proof.proof_data = String::new();
    match ProofExchange::validate_packet(&empty, 10) {
        Err(ZkpError::InvalidProofFormat(m)) => assert_eq!(m, "Proof data is empty"),
        other => panic!("unexpected {:?}", other),
    }
}

#[test]
fn size_estimates() {
    assert_eq!(ProofExchange::transmission_size(100, &TransmissionChannel::QrCode), 133);
    assert_eq!(ProofExchange::transmission_size(99, &TransmissionChannel::QrCode), 131);
    assert_eq!(ProofExchange::transmission_size(100, &TransmissionChannel::Nfc), 120);
    assert_eq!(ProofExchange::transmission_size(101, &TransmissionChannel::UltrasonicAudio), 151);
    assert_eq!(ProofExchange::transmission_size(101, &TransmissionChannel::BluetoothLe), 101);
    assert_eq!(ProofExchange::transmission_size(101, &TransmissionChannel::DirectTransfer), 101);
    assert_eq!(ProofExchange::transmission_size(usize::MAX, &TransmissionChannel::QrCode), usize::MAX);
    let n = FIXED_JSON.len();
    assert_eq!(
        ProofExchange::estimate_transmission_size(&fixed_proof(), &TransmissionChannel::UltrasonicAudio).unwrap(),
        n * 3 / 2
    );
    assert_eq!(ProofExchange::estimate_transmission_size(&fixed_proof(), &TransmissionChannel::DirectTransfer).unwrap(), n);
}

#[test]
fn empty_proof_json_still_grows_over_ultrasonic() {
    let mut proof = fixed_proof();
    proof.proof_data = String::new();
    proof.public_signals = Vec::new();
    proof.circuit_id = String::new();
    proof.signature = None;
    let ble = ProofExchange::estimate_transmission_size(&proof, &TransmissionChannel::BluetoothLe).unwrap();
    let ultrasonic = ProofExchange::estimate_transmission_size(&proof, &TransmissionChannel::UltrasonicAudio).unwrap();
    assert!(ble >= 2);
    assert!(ultrasonic > ble);
    let mut long = fixed_proof();
    long.proof_data = "y".repeat(2174);
    assert!(matches!(ProofExchange::encode_for_qr(&long), Err(ZkpError::EncodingError(_))));
}
