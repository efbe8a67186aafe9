//! Errors of proof operations.

use vstd::prelude::*;
use crate::text::concat2;

verus! {

/// `serde_json::Error`, carried opaquely inside [`ZkpError::SerializationError`].
#[verifier::external_type_specification]
#[verifier::external_body]
pub struct ExJsonError(serde_json::Error);

/// `std::io::Error`, carried opaquely inside [`ZkpError::IoError`].
#[verifier::external_type_specification]
#[verifier::external_body]
pub struct ExIoError(std::io::Error);

/// Errors of proof operations.
#[derive(Debug)]
pub enum ZkpError {
    VerificationFailed(String),
    InvalidProofFormat(String),
    CircuitNotFound(String),
    ProofGeneration(String),
    Verification(String),
    CircuitError(String),
    NoCircuitsRegistered(&'static str),
    WasmInit(String),
    WitnessGeneration(String),
    InvalidZkey(String),
    Serialization(String),
    KeyError(String),
    SerializationError(serde_json::Error),
    EncodingError(String),
    InvalidInput(String),
    UnknownCircuit(String),
    ProofGenerationFailed(String),
    PublicSignalMismatch(String),
    IoError(std::io::Error),
    InternalError(String),
}

/// The mathematical view of a [`ZkpError`]: its variant and its text; the two
/// variants that carry an outside error keep only the variant.
pub enum ZkpErrorView {
    VerificationFailed(Seq<char>),
    InvalidProofFormat(Seq<char>),
    CircuitNotFound(Seq<char>),
    ProofGeneration(Seq<char>),
    Verification(Seq<char>),
    CircuitError(Seq<char>),
    NoCircuitsRegistered(Seq<char>),
    WasmInit(Seq<char>),
    WitnessGeneration(Seq<char>),
    InvalidZkey(Seq<char>),
    Serialization(Seq<char>),
    KeyError(Seq<char>),
    SerializationError,
    EncodingError(Seq<char>),
    InvalidInput(Seq<char>),
    UnknownCircuit(Seq<char>),
    ProofGenerationFailed(Seq<char>),
    PublicSignalMismatch(Seq<char>),
    IoError,
    InternalError(Seq<char>),
}

impl View for ZkpError {
    type V = ZkpErrorView;

    open spec fn view(&self) -> ZkpErrorView {
        match self {
            ZkpError::VerificationFailed(s) => ZkpErrorView::VerificationFailed(s@),
            ZkpError::InvalidProofFormat(s) => ZkpErrorView::InvalidProofFormat(s@),
            ZkpError::CircuitNotFound(s) => ZkpErrorView::CircuitNotFound(s@),
            ZkpError::ProofGeneration(s) => ZkpErrorView::ProofGeneration(s@),
            ZkpError::Verification(s) => ZkpErrorView::Verification(s@),
            ZkpError::CircuitError(s) => ZkpErrorView::CircuitError(s@),
            ZkpError::NoCircuitsRegistered(s) => ZkpErrorView::NoCircuitsRegistered(s@),
            ZkpError::WasmInit(s) => ZkpErrorView::WasmInit(s@),
            ZkpError::WitnessGeneration(s) => ZkpErrorView::WitnessGeneration(s@),
            ZkpError::InvalidZkey(s) => ZkpErrorView::InvalidZkey(s@),
            ZkpError::Serialization(s) => ZkpErrorView::Serialization(s@),
            ZkpError::KeyError(s) => ZkpErrorView::KeyError(s@),
            ZkpError::SerializationError(_) => ZkpErrorView::SerializationError,
            ZkpError::EncodingError(s) => ZkpErrorView::EncodingError(s@),
            ZkpError::InvalidInput(s) => ZkpErrorView::InvalidInput(s@),
            ZkpError::UnknownCircuit(s) => ZkpErrorView::UnknownCircuit(s@),
            ZkpError::ProofGenerationFailed(s) => ZkpErrorView::ProofGenerationFailed(s@),
            ZkpError::PublicSignalMismatch(s) => ZkpErrorView::PublicSignalMismatch(s@),
            ZkpError::IoError(_) => ZkpErrorView::IoError,
            ZkpError::InternalError(s) => ZkpErrorView::InternalError(s@),
        }
    }
}

/// Result of a proof operation.
pub type ZkpResult<T> = Result<T, ZkpError>;

/// The view of a result whose success value has a view.
pub open spec fn result_view<T: View>(r: ZkpResult<T>) -> Result<T::V, ZkpErrorView> {
    match r {
        Ok(v) => Ok(v@),
        Err(e) => Err(e@),
    }
}

/// The human-readable message of an error with a text, as a spec function of its view.
pub open spec fn error_message(e: ZkpErrorView) -> Option<Seq<char>> {
    match e {
        ZkpErrorView::VerificationFailed(s) => Some("Proof verification failed:"@ + s),
        ZkpErrorView::InvalidProofFormat(s) => Some("Invalid proof format:"@ + s),
        ZkpErrorView::CircuitNotFound(s) => Some("Circuit not found: "@ + s),
        ZkpErrorView::ProofGeneration(s) => Some("Proof generation failed: "@ + s),
        ZkpErrorView::Verification(s) => Some("Verification failed: "@ + s),
        ZkpErrorView::CircuitError(s) => Some("Circuit error:"@ + s),
        ZkpErrorView::NoCircuitsRegistered(s) => Some("No circuits registered:"@ + s),
        ZkpErrorView::WasmInit(s) => Some("WASM Runtime initialization error: "@ + s),
        ZkpErrorView::WitnessGeneration(s) => Some("Witness generation failed: "@ + s),
        ZkpErrorView::InvalidZkey(s) => Some("Invalid Proving Key (zkey) format: "@ + s),
        ZkpErrorView::Serialization(s) => Some("Serialization failed: "@ + s),
        ZkpErrorView::KeyError(s) => Some("Key management error:"@ + s),
        ZkpErrorView::SerializationError => None,
        ZkpErrorView::EncodingError(s) => Some("encoding error:"@ + s),
        ZkpErrorView::InvalidInput(s) => Some("Invalid input:"@ + s),
        ZkpErrorView::UnknownCircuit(s) => Some("Unknown Circuit:"@ + s),
        ZkpErrorView::ProofGenerationFailed(s) => Some("Proof generation failed:"@ + s),
        ZkpErrorView::PublicSignalMismatch(s) => Some("Public signal mismatch:"@ + s),
        ZkpErrorView::IoError => None,
        ZkpErrorView::InternalError(s) => Some("Intrenal error:"@ + s),
    }
}

impl ZkpError {
    /// The human-readable message of the error.
    pub fn message(&self) -> (res: String)
        ensures
            error_message(self@) matches Some(m) ==> res@ == m,
            self@ is SerializationError ==> exists|t: Seq<char>|
                res@ == "Serialization error: "@ + t,
            self@ is IoError ==> exists|t: Seq<char>| res@ == "IO error:"@ + t,
    {
        match self {
            ZkpError::VerificationFailed(s) => concat2("Proof verification failed:", s.as_str()),
            ZkpError::InvalidProofFormat(s) => concat2("Invalid proof format:", s.as_str()),
            ZkpError::CircuitNotFound(s) => concat2("Circuit not found: ", s.as_str()),
            ZkpError::ProofGeneration(s) => concat2("Proof generation failed: ", s.as_str()),
            ZkpError::Verification(s) => concat2("Verification failed: ", s.as_str()),
            ZkpError::CircuitError(s) => concat2("Circuit error:", s.as_str()),
            ZkpError::NoCircuitsRegistered(s) => concat2("No circuits registered:", s),
            ZkpError::WasmInit(s) => concat2("WASM Runtime initialization error: ", s.as_str()),
            ZkpError::WitnessGeneration(s) => concat2("Witness generation failed: ", s.as_str()),
            ZkpError::InvalidZkey(s) => concat2("Invalid Proving Key (zkey) format: ", s.as_str()),
            ZkpError::Serialization(s) => concat2("Serialization failed: ", s.as_str()),
            ZkpError::KeyError(s) => concat2("Key management error:", s.as_str()),
            ZkpError::SerializationError(e) => {
                let t = e.to_string();
                concat2("Serialization error: ", t.as_str())
            },
            ZkpError::EncodingError(s) => concat2("encoding error:", s.as_str()),
            ZkpError::InvalidInput(s) => concat2("Invalid input:", s.as_str()),
            ZkpError::UnknownCircuit(s) => concat2("Unknown Circuit:", s.as_str()),
            ZkpError::ProofGenerationFailed(s) => concat2("Proof generation failed:", s.as_str()),
            ZkpError::PublicSignalMismatch(s) => concat2("Public signal mismatch:", s.as_str()),
            ZkpError::IoError(e) => {
                let t = e.to_string();
                concat2("IO error:", t.as_str())
            },
            ZkpError::InternalError(s) => concat2("Intrenal error:", s.as_str()),
        }
    }
}

} // verus!

verus! {

/// What an operation is specified to return: an exact result, or an encoding error
/// whose text is the outside decoder's own message.
pub enum Outcome<V> {
    Exactly(Result<V, ZkpErrorView>),
    EncodingFailure,
}

/// Whether an actual result is one that `expected` allows.
pub open spec fn meets<V>(actual: Result<V, ZkpErrorView>, expected: Outcome<V>) -> bool {
    match expected {
        Outcome::Exactly(r) => actual == r,
        Outcome::EncodingFailure => actual matches Err(e) && e is EncodingError,
    }
}

} // verus!
