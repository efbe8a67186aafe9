//! Offline exchange of zero-knowledge proofs: circuit and key registries, a prover
//! and a verifier front end, and the framing of proofs for QR, BLE, ultrasonic and
//! direct transmission.

pub mod types;
pub mod errors;
pub mod text;
pub mod json;
pub mod utils;
pub mod circuits;
pub mod keys;
pub mod loaded_keys;
pub mod prover;
pub mod proof_verifier;
pub mod exchange;

pub use types::{
    CircuitConfig, KeyMaterial, KeyType, ProofPacket, ProofRequest, TransmissionChannel, VerificationRequest,
    VerificationResult, ZkProof,
};
