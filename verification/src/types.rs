//! Core data types for proof exchange, each with a mathematical view.

use vstd::prelude::*;

verus! {

/// The view of a string vector: the sequence of the strings' character sequences.
pub open spec fn strings_view(v: Seq<String>) -> Seq<Seq<char>> {
    v.map_values(|s: String| s@)
}

/// The view of an optional string.
pub open spec fn opt_string_view(o: Option<String>) -> Option<Seq<char>> {
    match o {
        Some(s) => Some(s@),
        None => None,
    }
}

/// Copies an optional string, keeping its contents.
pub fn copy_opt_string(o: &Option<String>) -> (res: Option<String>)
    ensures
        opt_string_view(res) == opt_string_view(*o),
{
    match o {
        Some(s) => Some(s.clone()),
        None => None,
    }
}

/// Copies a vector of strings, keeping every element's contents.
pub fn copy_strings(v: &Vec<String>) -> (res: Vec<String>)
    ensures
        strings_view(res@) == strings_view(v@),
{
    let mut res: Vec<String> = Vec::new();
    let mut i: usize = 0;
    while i < v.len()
        invariant
            i <= v.len(),
            res@.len() == i,
            forall|j: int| 0 <= j < i ==> #[trigger] res@[j]@ == v@[j]@,
        decreases v.len() - i,
    {
        res.push(v[i].clone());
        i = i + 1;
    }
    assert(strings_view(res@) =~= strings_view(v@));
    res
}

/// A zero-knowledge proof with its metadata.
#[derive(Debug)]
pub struct ZkProof {
    /// Serialized proof (typically base64 encoded).
    pub proof_data: String,
    /// Public signals that the proof reveals.
    pub public_signals: Vec<String>,
    /// Identifier of the circuit that produced the proof.
    pub circuit_id: String,
    /// Unix time at which the proof was generated.
    pub timestamp: u64,
    /// Optional signature for authenticity.
    pub signature: Option<String>,
    /// Proof format version.
    pub version: String,
}

/// The mathematical view of a [`ZkProof`].
pub struct ZkProofView {
    pub proof_data: Seq<char>,
    pub public_signals: Seq<Seq<char>>,
    pub circuit_id: Seq<char>,
    pub timestamp: u64,
    pub signature: Option<Seq<char>>,
    pub version: Seq<char>,
}

impl View for ZkProof {
    type V = ZkProofView;

    open spec fn view(&self) -> ZkProofView {
        ZkProofView {
            proof_data: self.proof_data@,
            public_signals: strings_view(self.public_signals@),
            circuit_id: self.circuit_id@,
            timestamp: self.timestamp,
            signature: opt_string_view(self.signature),
            version: self.version@,
        }
    }
}

impl Clone for ZkProof {
    fn clone(&self) -> (res: Self)
        ensures
            res@ == self@,
    {
        ZkProof {
            proof_data: self.proof_data.clone(),
            public_signals: copy_strings(&self.public_signals),
            circuit_id: self.circuit_id.clone(),
            timestamp: self.timestamp,
            signature: copy_opt_string(&self.signature),
            version: self.version.clone(),
        }
    }
}

/// Channels over which a proof can travel.
#[derive(Debug, Clone, Copy, PartialEq, Eq, Structural)]
pub enum TransmissionChannel {
    QrCode,
    BluetoothLe,
    UltrasonicAudio,
    Nfc,
    DirectTransfer,
}

/// Metadata that accompanies a proof in transit.
#[derive(Debug)]
pub struct TransmissionMetadata {
    /// Channel used.
    pub channel: TransmissionChannel,
    /// Optional nonce for replay protection.
    pub nonce: Option<String>,
    /// Compression used, if any.
    pub compression: Option<String>,
    /// Optional public key of the receiver.
    pub receiver_pubkey: Option<String>,
}

/// The mathematical view of [`TransmissionMetadata`].
pub struct TransmissionMetadataView {
    pub channel: TransmissionChannel,
    pub nonce: Option<Seq<char>>,
    pub compression: Option<Seq<char>>,
    pub receiver_pubkey: Option<Seq<char>>,
}

impl View for TransmissionMetadata {
    type V = TransmissionMetadataView;

    open spec fn view(&self) -> TransmissionMetadataView {
        TransmissionMetadataView {
            channel: self.channel,
            nonce: opt_string_view(self.nonce),
            compression: opt_string_view(self.compression),
            receiver_pubkey: opt_string_view(self.receiver_pubkey),
        }
    }
}

impl Clone for TransmissionMetadata {
    fn clone(&self) -> (res: Self)
        ensures
            res@ == self@,
    {
        TransmissionMetadata {
            channel: self.channel,
            nonce: copy_opt_string(&self.nonce),
            compression: copy_opt_string(&self.compression),
            receiver_pubkey: copy_opt_string(&self.receiver_pubkey),
        }
    }
}

/// A proof packaged for offline transmission.
#[derive(Debug)]
pub struct ProofPacket {
    /// The proof itself.
    pub proof: ZkProof,
    /// Transmission metadata.
    pub metadata: TransmissionMetadata,
}

/// The mathematical view of a [`ProofPacket`].
pub struct ProofPacketView {
    pub proof: ZkProofView,
    pub metadata: TransmissionMetadataView,
}

impl View for ProofPacket {
    type V = ProofPacketView;

    open spec fn view(&self) -> ProofPacketView {
        ProofPacketView { proof: self.proof@, metadata: self.metadata@ }
    }
}

impl Clone for ProofPacket {
    fn clone(&self) -> (res: Self)
        ensures
            res@ == self@,
    {
        ProofPacket { proof: self.proof.clone(), metadata: self.metadata.clone() }
    }
}

/// Configuration of a circuit.
#[derive(Debug)]
pub struct CircuitConfig {
    /// Unique identifier of the circuit.
    pub id: String,
    /// Human-readable name.
    pub name: String,
    /// Description of the circuit.
    pub description: String,
    /// Number of private inputs.
    pub num_private_inputs: usize,
    /// Number of public inputs (signals).
    pub num_public_inputs: usize,
    /// Approximate number of constraints.
    pub num_constraints: usize,
    /// Version of the circuit.
    pub version: String,
}

/// The mathematical view of a [`CircuitConfig`].
pub struct CircuitConfigView {
    pub id: Seq<char>,
    pub name: Seq<char>,
    pub description: Seq<char>,
    pub num_private_inputs: usize,
    pub num_public_inputs: usize,
    pub num_constraints: usize,
    pub version: Seq<char>,
}

impl View for CircuitConfig {
    type V = CircuitConfigView;

    open spec fn view(&self) -> CircuitConfigView {
        CircuitConfigView {
            id: self.id@,
            name: self.name@,
            description: self.description@,
            num_private_inputs: self.num_private_inputs,
            num_public_inputs: self.num_public_inputs,
            num_constraints: self.num_constraints,
            version: self.version@,
        }
    }
}

impl Clone for CircuitConfig {
    fn clone(&self) -> (res: Self)
        ensures
            res@ == self@,
    {
        CircuitConfig {
            id: self.id.clone(),
            name: self.name.clone(),
            description: self.description.clone(),
            num_private_inputs: self.num_private_inputs,
            num_public_inputs: self.num_public_inputs,
            num_constraints: self.num_constraints,
            version: self.version.clone(),
        }
    }
}

/// Kinds of key material.
#[derive(Debug, Clone, Copy, PartialEq, Eq, Structural)]
pub enum KeyType {
    /// Proving key (secret, for proof generation).
    ProvingKey,
    /// Verification key (public, for proof verification).
    VerificationKey,
    /// Key pair holding both.
    Keypair,
}

/// Key material for proof operations.
#[derive(Debug)]
pub struct KeyMaterial {
    /// Key identifier.
    pub key_id: String,
    /// Kind of key.
    pub key_type: KeyType,
    /// Base64-encoded key material.
    pub key_data: String,
    /// Associated circuit.
    pub circuit_id: String,
    /// Creation time (Unix seconds).
    pub created_at: u64,
    /// Optional expiry time (Unix seconds).
    pub expires_at: Option<u64>,
}

/// The mathematical view of [`KeyMaterial`].
pub struct KeyMaterialView {
    pub key_id: Seq<char>,
    pub key_type: KeyType,
    pub key_data: Seq<char>,
    pub circuit_id: Seq<char>,
    pub created_at: u64,
    pub expires_at: Option<u64>,
}

impl View for KeyMaterial {
    type V = KeyMaterialView;

    open spec fn view(&self) -> KeyMaterialView {
        KeyMaterialView {
            key_id: self.key_id@,
            key_type: self.key_type,
            key_data: self.key_data@,
            circuit_id: self.circuit_id@,
            created_at: self.created_at,
            expires_at: self.expires_at,
        }
    }
}

impl Clone for KeyMaterial {
    fn clone(&self) -> (res: Self)
        ensures
            res@ == self@,
    {
        KeyMaterial {
            key_id: self.key_id.clone(),
            key_type: self.key_type,
            key_data: self.key_data.clone(),
            circuit_id: self.circuit_id.clone(),
            created_at: self.created_at,
            expires_at: self.expires_at,
        }
    }
}

/// Request to verify a proof.
#[derive(Debug)]
pub struct VerificationRequest {
    /// The proof to verify.
    pub proof: ZkProof,
    /// Expected public signals, for double-checking.
    pub expected_signals: Option<Vec<String>>,
    /// Largest acceptable age of the proof in seconds.
    pub max_age: Option<u64>,
}

/// The mathematical view of a [`VerificationRequest`].
pub struct VerificationRequestView {
    pub proof: ZkProofView,
    pub expected_signals: Option<Seq<Seq<char>>>,
    pub max_age: Option<u64>,
}

impl View for VerificationRequest {
    type V = VerificationRequestView;

    open spec fn view(&self) -> VerificationRequestView {
        VerificationRequestView {
            proof: self.proof@,
            expected_signals: match self.expected_signals {
                Some(v) => Some(strings_view(v@)),
                None => None,
            },
            max_age: self.max_age,
        }
    }
}

/// Outcome of a verification.
#[derive(Debug)]
pub struct VerificationResult {
    /// Whether the proof is valid.
    pub is_valid: bool,
    /// Detailed message.
    pub message: String,
    /// Verification time (Unix seconds).
    pub verified_at: u64,
    /// Circuit used for verification.
    pub circuit_id: String,
    /// Public signals that were revealed.
    pub public_signals: Vec<String>,
}

/// The mathematical view of a [`VerificationResult`].
pub struct VerificationResultView {
    pub is_valid: bool,
    pub message: Seq<char>,
    pub verified_at: u64,
    pub circuit_id: Seq<char>,
    pub public_signals: Seq<Seq<char>>,
}

impl View for VerificationResult {
    type V = VerificationResultView;

    open spec fn view(&self) -> VerificationResultView {
        VerificationResultView {
            is_valid: self.is_valid,
            message: self.message@,
            verified_at: self.verified_at,
            circuit_id: self.circuit_id@,
            public_signals: strings_view(self.public_signals@),
        }
    }
}

} // verus!

verus! {

/// A value of an input object: a JSON string, or the JSON text of any other value.
#[derive(Debug)]
pub enum InputValue {
    Text(String),
    Json(String),
}

/// The mathematical view of an [`InputValue`].
pub enum InputValueView {
    Text(Seq<char>),
    Json(Seq<char>),
}

impl View for InputValue {
    type V = InputValueView;

    open spec fn view(&self) -> InputValueView {
        match self {
            InputValue::Text(s) => InputValueView::Text(s@),
            InputValue::Json(s) => InputValueView::Json(s@),
        }
    }
}

/// The inputs of a proof request: the entries (key and value) of a JSON object in
/// their order, or a JSON value that is not an object.
#[derive(Debug)]
pub enum ProofInputs {
    Object(Vec<(String, InputValue)>),
    NotObject,
}

/// The view of the entries of an input object.
pub open spec fn input_entries_view(v: Seq<(String, InputValue)>) -> Seq<(Seq<char>, InputValueView)> {
    v.map_values(|e: (String, InputValue)| (e.0@, e.1@))
}

/// The mathematical view of [`ProofInputs`].
pub enum ProofInputsView {
    Object(Seq<(Seq<char>, InputValueView)>),
    NotObject,
}

impl View for ProofInputs {
    type V = ProofInputsView;

    open spec fn view(&self) -> ProofInputsView {
        match self {
            ProofInputs::Object(v) => ProofInputsView::Object(input_entries_view(v@)),
            ProofInputs::NotObject => ProofInputsView::NotObject,
        }
    }
}

/// Request for a proof.
#[derive(Debug)]
pub struct ProofRequest {
    /// Circuit to use for proof generation.
    pub circuit_id: String,
    /// Private inputs (not revealed).
    pub private_inputs: ProofInputs,
    /// Public inputs (revealed).
    pub public_inputs: ProofInputs,
    /// Optional metadata, carried along.
    pub metadata: Option<serde_json::Value>,
}

/// The mathematical view of a [`ProofRequest`]; the metadata is not read.
pub struct ProofRequestView {
    pub circuit_id: Seq<char>,
    pub private_inputs: ProofInputsView,
    pub public_inputs: ProofInputsView,
}

impl View for ProofRequest {
    type V = ProofRequestView;

    open spec fn view(&self) -> ProofRequestView {
        ProofRequestView {
            circuit_id: self.circuit_id@,
            private_inputs: self.private_inputs@,
            public_inputs: self.public_inputs@,
        }
    }
}

} // verus!
