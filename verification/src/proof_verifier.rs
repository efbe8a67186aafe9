//! The verifier: checks proofs against registered circuits and loaded keys.

use vstd::prelude::*;
use crate::circuits::{
    CircuitManager, configs_view, find_circuit, has_circuit_id, register_step,
};
use crate::errors::{Outcome, ZkpError, ZkpErrorView, ZkpResult, meets, result_view};
use crate::json::{json_bytes_valid, parse_json};
use crate::loaded_keys::{KeyTable, table_has};
use crate::prover::load_key_outcome;
use crate::text::{concat2, concat3};
use crate::types::{
    CircuitConfig, CircuitConfigView, VerificationRequest, VerificationRequestView, VerificationResult,
    VerificationResultView, ZkProof, ZkProofView, copy_strings, strings_view,
};
use crate::utils::{base64_decode, base64_decoded, current_timestamp, is_fresh, timestamp_is_fresh};

verus! {

/// The mathematical view of a [`Verifier`].
pub struct VerifierView {
    /// Registered circuits, in order of registration.
    pub circuits: Seq<CircuitConfigView>,
    /// Verification key data per circuit.
    pub verification_keys: Seq<(Seq<char>, Seq<char>)>,
}

/// The error of [`Verifier::register_circuit`] for a taken identifier.
pub open spec fn verifier_duplicate(id: Seq<char>) -> ZkpErrorView {
    ZkpErrorView::CircuitError("circuit "@ + id + " already registered"@)
}

/// The result of checking a proof's format.
pub enum FormatCheck {
    /// Well formed; the proof data decodes from base64 to these bytes.
    Fine(Seq<u8>),
    /// Refused with this error.
    Rejected(ZkpErrorView),
    /// The proof data is not base64.
    BadEncoding,
}

/// Checks a proof's format: non-empty data, signals and circuit identifier, and data
/// that decodes from base64.
pub open spec fn format_check(p: ZkProofView) -> FormatCheck {
    if p.proof_data.len() == 0 {
        FormatCheck::Rejected(ZkpErrorView::InvalidProofFormat("Proof data is empty"@))
    } else if p.public_signals.len() == 0 {
        FormatCheck::Rejected(ZkpErrorView::InvalidProofFormat("Proof has no public signals"@))
    } else if p.circuit_id.len() == 0 {
        FormatCheck::Rejected(ZkpErrorView::InvalidProofFormat("Circuit ID is empty"@))
    } else {
        match base64_decoded(p.proof_data) {
            Some(d) => FormatCheck::Fine(d),
            None => FormatCheck::BadEncoding,
        }
    }
}

/// A verification result for proof `p` at time `now`.
pub open spec fn result_for(p: ZkProofView, is_valid: bool, message: Seq<char>, now: u64) -> VerificationResultView {
    VerificationResultView {
        is_valid,
        message,
        verified_at: now,
        circuit_id: p.circuit_id,
        public_signals: p.public_signals,
    }
}

/// The outcome of verifying `req` at time `now`.
pub open spec fn verify_outcome(v: VerifierView, req: VerificationRequestView, now: u64) -> Outcome<VerificationResultView> {
    let p = req.proof;
    let cid = p.circuit_id;
    if !has_circuit_id(v.circuits, cid) {
        Outcome::Exactly(Err(ZkpErrorView::UnknownCircuit(cid)))
    } else if !table_has(v.verification_keys, cid) {
        Outcome::Exactly(Err(ZkpErrorView::KeyError("Verification Key not loaded for "@ + cid)))
    } else {
        match format_check(p) {
            FormatCheck::Rejected(e) => Outcome::Exactly(Err(e)),
            FormatCheck::BadEncoding => Outcome::EncodingFailure,
            FormatCheck::Fine(d) => if req.max_age matches Some(m) && !is_fresh(now, p.timestamp, m) {
                Outcome::Exactly(Ok(result_for(p, false, "Proof is too old"@, now)))
            } else if req.expected_signals matches Some(es) && p.public_signals != es {
                Outcome::Exactly(Ok(result_for(p, false, "Public signals do not match expected values"@, now)))
            } else if !json_bytes_valid(d) {
                Outcome::Exactly(Err(ZkpErrorView::SerializationError))
            } else {
                Outcome::Exactly(Ok(result_for(p, true, "Proof is valid"@, now)))
            },
        }
    }
}

/// The outcome of the quick check of proof `p`.
pub open spec fn quick_outcome(v: VerifierView, p: ZkProofView) -> Outcome<bool> {
    let cid = p.circuit_id;
    if !has_circuit_id(v.circuits, cid) {
        Outcome::Exactly(Err(ZkpErrorView::UnknownCircuit(cid)))
    } else if !table_has(v.verification_keys, cid) {
        Outcome::Exactly(Err(ZkpErrorView::KeyError("Verification key not loaded for "@ + cid + " "@)))
    } else {
        match format_check(p) {
            FormatCheck::Rejected(e) => Outcome::Exactly(Err(e)),
            FormatCheck::BadEncoding => Outcome::EncodingFailure,
            FormatCheck::Fine(_) => Outcome::Exactly(Ok(true)),
        }
    }
}

/// Whether two string vectors hold the same strings in the same order.
pub fn strings_equal(a: &Vec<String>, b: &Vec<String>) -> (res: bool)
    ensures
        res == (strings_view(a@) == strings_view(b@)),
{
    if a.len() != b.len() {
        assert(strings_view(a@).len() != strings_view(b@).len());
        return false;
    }
    let mut i: usize = 0;
    while i < a.len()
        invariant
            i <= a@.len(),
            a@.len() == b@.len(),
            forall|j: int| 0 <= j < i ==> #[trigger] a@[j]@ == b@[j]@,
        decreases a@.len() - i,
    {
        if !a[i].eq(&b[i]) {
            assert(strings_view(a@)[i as int] != strings_view(b@)[i as int]);
            return false;
        }
        i = i + 1;
    }
    assert(strings_view(a@) =~= strings_view(b@));
    true
}

/// Validates zero-knowledge proofs for registered circuits.
pub struct Verifier {
    circuits: CircuitManager,
    verification_keys: KeyTable,
}

impl View for Verifier {
    type V = VerifierView;

    closed spec fn view(&self) -> VerifierView {
        VerifierView { circuits: self.circuits@, verification_keys: self.verification_keys@ }
    }
}

impl Verifier {
    /// A verifier with no circuits and no keys.
    pub fn new() -> (res: Self)
        ensures
            res@.circuits == Seq::<CircuitConfigView>::empty(),
            res@.verification_keys == Seq::<(Seq<char>, Seq<char>)>::empty(),
    {
        Verifier { circuits: CircuitManager::new(), verification_keys: KeyTable::new() }
    }

    /// Registers a circuit; a circuit error when its identifier is already registered,
    /// in which case nothing changes.
    pub fn register_circuit(&mut self, circuit: CircuitConfig) -> (res: ZkpResult<()>)
        ensures
            (final(self)@.circuits, result_view(res)) == register_step(old(self)@.circuits, circuit@, |id: Seq<char>| verifier_duplicate(id)),
            final(self)@.verification_keys == old(self)@.verification_keys,
    {
        if self.circuits.has_circuit(circuit.id.as_str()) {
            return Err(ZkpError::CircuitError(concat3("circuit ", circuit.id.as_str(), " already registered")));
        }
        self.circuits.insert_new(circuit);
        Ok(())
    }

    /// Loads the verification key data of a registered circuit, replacing earlier data;
    /// an unknown-circuit error otherwise, in which case nothing changes.
    pub fn load_verification_key(&mut self, circuit_id: &str, key_data: String) -> (res: ZkpResult<()>)
        ensures
            (final(self)@.verification_keys, result_view(res)) == load_key_outcome(old(self)@.circuits, old(self)@.verification_keys, circuit_id@, key_data@),
            final(self)@.circuits == old(self)@.circuits,
    {
        if !self.circuits.has_circuit(circuit_id) {
            return Err(ZkpError::UnknownCircuit(String::from_str(circuit_id)));
        }
        self.verification_keys.insert(circuit_id, key_data);
        Ok(())
    }

    /// A verification result for `proof` at time `now`.
    fn result_of(proof: &ZkProof, is_valid: bool, message: &str, now: u64) -> (res: VerificationResult)
        ensures
            res@ == result_for(proof@, is_valid, message@, now),
    {
        VerificationResult {
            is_valid,
            message: String::from_str(message),
            verified_at: now,
            circuit_id: proof.circuit_id.clone(),
            public_signals: copy_strings(&proof.public_signals),
        }
    }

    /// Verifies a proof at time `now`: the circuit must be registered and its key
    /// loaded, the proof well formed; a proof older than `max_age`, or whose signals
    /// differ from the expected ones, gives an invalid result; the decoded proof data
    /// must parse as JSON.
    pub fn verify_proof_at(&self, request: VerificationRequest, now: u64) -> (res: ZkpResult<VerificationResult>)
        ensures
            meets(result_view(res), verify_outcome(self@, request@, now)),
    {
        let proof = &request.proof;
        let circuit = match self.circuits.get_circuit(proof.circuit_id.as_str()) {
            Ok(c) => c,
            Err(e) => return Err(e),
        };
        if !self.verification_keys.contains(proof.circuit_id.as_str()) {
            return Err(ZkpError::KeyError(concat2("Verification Key not loaded for ", proof.circuit_id.as_str())));
        }
        match self.validate_proof_format(proof) {
            Ok(()) => {},
            Err(e) => return Err(e),
        }
        if let Some(max_age) = request.max_age {
            if !timestamp_is_fresh(now, proof.timestamp, max_age) {
                return Ok(Self::result_of(proof, false, "Proof is too old", now));
            }
        }
        if let Some(expected) = &request.expected_signals {
            if !strings_equal(&proof.public_signals, expected) {
                return Ok(Self::result_of(proof, false, "Public signals do not match expected values", now));
            }
        }
        let is_valid = match self.verify_proof_cryptography(proof, &circuit) {
            Ok(b) => b,
            Err(e) => return Err(e),
        };
        if is_valid {
            Ok(Self::result_of(proof, true, "Proof is valid", now))
        } else {
            Ok(Self::result_of(proof, false, "Proof verification failed", now))
        }
    }

    /// Verifies a proof at the current time.
    pub fn verify_proof(&self, request: VerificationRequest) -> (res: ZkpResult<VerificationResult>)
        ensures
            exists|now: u64| meets(result_view(res), verify_outcome(self@, request@, now)),
    {
        let now = current_timestamp();
        self.verify_proof_at(request, now)
    }

    /// Checks a proof's format.
    fn validate_proof_format(&self, proof: &ZkProof) -> (res: ZkpResult<()>)
        ensures
            match format_check(proof@) {
                FormatCheck::Fine(_) => res is Ok,
                FormatCheck::Rejected(e) => result_view(res) == Err::<(), ZkpErrorView>(e),
                FormatCheck::BadEncoding => res matches Err(e) && e@ is EncodingError,
            },
    {
        if proof.proof_data.as_str().is_empty() {
            return Err(ZkpError::InvalidProofFormat(String::from_str("Proof data is empty")));
        }
        if proof.public_signals.len() == 0 {
            return Err(ZkpError::InvalidProofFormat(String::from_str("Proof has no public signals")));
        }
        if proof.circuit_id.as_str().is_empty() {
            return Err(ZkpError::InvalidProofFormat(String::from_str("Circuit ID is empty")));
        }
        match base64_decode(proof.proof_data.as_str()) {
            Ok(_) => Ok(()),
            Err(e) => Err(e),
        }
    }

    /// The check of a well-formed proof: its base64-decoded data must parse as JSON.
    fn verify_proof_cryptography(&self, proof: &ZkProof, _circuit: &CircuitConfig) -> (res: ZkpResult<bool>)
        ensures
            match base64_decoded(proof.proof_data@) {
                Some(d) => if json_bytes_valid(d) {
                    res == Ok::<bool, ZkpError>(true)
                } else {
                    res matches Err(e) && e@ is SerializationError
                },
                None => res matches Err(e) && e@ is EncodingError,
            },
    {
        let proof_data = match base64_decode(proof.proof_data.as_str()) {
            Ok(d) => d,
            Err(e) => return Err(e),
        };
        match parse_json(proof_data.as_slice()) {
            Ok(_) => Ok(true),
            Err(e) => Err(ZkpError::SerializationError(e)),
        }
    }

    /// Checks, without a full verification, that the circuit is registered, its key
    /// loaded and the proof well formed.
    pub fn quick_verify(&self, proof: &ZkProof) -> (res: ZkpResult<bool>)
        ensures
            meets(result_view(res), quick_outcome(self@, proof@)),
    {
        if !self.circuits.has_circuit(proof.circuit_id.as_str()) {
            return Err(ZkpError::UnknownCircuit(proof.circuit_id.clone()));
        }
        if !self.verification_keys.contains(proof.circuit_id.as_str()) {
            return Err(ZkpError::KeyError(concat3("Verification key not loaded for ", proof.circuit_id.as_str(), " ")));
        }
        match self.validate_proof_format(proof) {
            Ok(()) => {},
            Err(e) => return Err(e),
        }
        Ok(true)
    }

    /// All registered circuits, in the order of registration.
    pub fn get_circuits(&self) -> (res: Vec<CircuitConfig>)
        ensures
            configs_view(res@) == self@.circuits,
    {
        self.circuits.list_circuits()
    }

    /// The circuit with identifier `circuit_id`, if registered.
    pub fn get_circuit(&self, circuit_id: &str) -> (res: Option<CircuitConfig>)
        ensures
            match res {
                Some(c) => find_circuit(self@.circuits, circuit_id@) == Some(c@),
                None => find_circuit(self@.circuits, circuit_id@) is None,
            },
    {
        match self.circuits.get_circuit(circuit_id) {
            Ok(c) => Some(c),
            Err(_) => None,
        }
    }
}

impl Default for Verifier {
    fn default() -> (res: Self)
        ensures
            res@.circuits == Seq::<CircuitConfigView>::empty(),
            res@.verification_keys == Seq::<(Seq<char>, Seq<char>)>::empty(),
    {
        Self::new()
    }
}

} // verus!

verus! {

/// A well-formed proof of a registered circuit with a loaded key, whose data is base64 of
/// a JSON document, is valid when it is fresh enough and shows the expected signals.
pub proof fn law_well_formed_proof_is_valid(v: VerifierView, req: VerificationRequestView, now: u64, d: Seq<u8>)
    requires
        has_circuit_id(v.circuits, req.proof.circuit_id),
        table_has(v.verification_keys, req.proof.circuit_id),
        format_check(req.proof) == FormatCheck::Fine(d),
        json_bytes_valid(d),
        req.max_age matches Some(m) ==> is_fresh(now, req.proof.timestamp, m),
        req.expected_signals matches Some(es) ==> es == req.proof.public_signals,
    ensures
        verify_outcome(v, req, now) == Outcome::<VerificationResultView>::Exactly(
            Ok(result_for(req.proof, true, "Proof is valid"@, now)),
        ),
{
}

/// A well-formed proof that is older than the age limit is answered with an invalid
/// result, not an error.
pub proof fn law_stale_proof_is_invalid(v: VerifierView, req: VerificationRequestView, now: u64, d: Seq<u8>)
    requires
        has_circuit_id(v.circuits, req.proof.circuit_id),
        table_has(v.verification_keys, req.proof.circuit_id),
        format_check(req.proof) == FormatCheck::Fine(d),
        req.max_age matches Some(m) && !is_fresh(now, req.proof.timestamp, m),
    ensures
        verify_outcome(v, req, now) == Outcome::<VerificationResultView>::Exactly(
            Ok(result_for(req.proof, false, "Proof is too old"@, now)),
        ),
{
}

/// Whatever a full verification accepts without error, the quick check accepts too.
pub proof fn law_quick_check_agrees(v: VerifierView, req: VerificationRequestView, now: u64)
    requires
        verify_outcome(v, req, now) matches Outcome::Exactly(Ok(_)),
    ensures
        quick_outcome(v, req.proof) == Outcome::<bool>::Exactly(Ok(true)),
{
}


/// A well-formed proof whose public signals differ from the expected ones is answered
/// with an invalid result saying so, whether or not an age limit is given, as long as
/// the proof is not too old.
pub proof fn law_mismatched_signals_are_invalid(v: VerifierView, req: VerificationRequestView, now: u64, d: Seq<u8>)
    requires
        has_circuit_id(v.circuits, req.proof.circuit_id),
        table_has(v.verification_keys, req.proof.circuit_id),
        format_check(req.proof) == FormatCheck::Fine(d),
        req.max_age matches Some(m) ==> is_fresh(now, req.proof.timestamp, m),
        req.expected_signals matches Some(es) && es != req.proof.public_signals,
    ensures
        verify_outcome(v, req, now) matches Outcome::Exactly(Ok(r)) && {
            &&& !r.is_valid
            &&& r.message == "Public signals do not match expected values"@
            &&& r.verified_at == now
            &&& r.circuit_id == req.proof.circuit_id
            &&& r.public_signals == req.proof.public_signals
        },
{
}


/// A proof for an unregistered circuit, or for one whose verification key is not
/// loaded, is refused with an error naming the circuit, by both the full and the quick
/// check.
pub proof fn law_unknown_or_keyless_circuit_refused(v: VerifierView, req: VerificationRequestView, now: u64)
    ensures
        !has_circuit_id(v.circuits, req.proof.circuit_id) ==> {
            &&& verify_outcome(v, req, now) == Outcome::<VerificationResultView>::Exactly(
                Err(ZkpErrorView::UnknownCircuit(req.proof.circuit_id)),
            )
            &&& quick_outcome(v, req.proof) == Outcome::<bool>::Exactly(Err(ZkpErrorView::UnknownCircuit(req.proof.circuit_id)))
        },
        has_circuit_id(v.circuits, req.proof.circuit_id) && !table_has(v.verification_keys, req.proof.circuit_id)
            ==> verify_outcome(v, req, now) == Outcome::<VerificationResultView>::Exactly(
                Err(ZkpErrorView::KeyError("Verification Key not loaded for "@ + req.proof.circuit_id)),
            ),
{
}

/// For a registered circuit with its key loaded, a proof with empty data, no public
/// signals or an empty circuit identifier is refused as badly formed (checked in that
/// order), and proof data that is not base64 is an encoding failure, by both the full
/// and the quick check.
pub proof fn law_malformed_proof_refused(v: VerifierView, req: VerificationRequestView, now: u64)
    requires
        has_circuit_id(v.circuits, req.proof.circuit_id),
        table_has(v.verification_keys, req.proof.circuit_id),
    ensures
        req.proof.proof_data.len() == 0 ==> verify_outcome(v, req, now) == Outcome::<VerificationResultView>::Exactly(
            Err(ZkpErrorView::InvalidProofFormat("Proof data is empty"@)),
        ),
        req.proof.proof_data.len() > 0 && req.proof.public_signals.len() == 0 ==> verify_outcome(v, req, now)
            == Outcome::<VerificationResultView>::Exactly(Err(ZkpErrorView::InvalidProofFormat("Proof has no public signals"@))),
        req.proof.proof_data.len() > 0 && req.proof.public_signals.len() > 0 && req.proof.circuit_id.len() == 0
            ==> verify_outcome(v, req, now) == Outcome::<VerificationResultView>::Exactly(
                Err(ZkpErrorView::InvalidProofFormat("Circuit ID is empty"@)),
            ),
        req.proof.proof_data.len() > 0 && req.proof.public_signals.len() > 0 && req.proof.circuit_id.len() > 0
            && base64_decoded(req.proof.proof_data) is None ==> {
            &&& verify_outcome(v, req, now) == Outcome::<VerificationResultView>::EncodingFailure
            &&& quick_outcome(v, req.proof) == Outcome::<bool>::EncodingFailure
        },
        req.proof.proof_data.len() > 0 && req.proof.public_signals.len() > 0 && req.proof.circuit_id.len() > 0
            && base64_decoded(req.proof.proof_data) is Some ==> quick_outcome(v, req.proof) == Outcome::<bool>::Exactly(Ok(true)),
{
}

/// A well-formed, fresh proof with the expected signals whose decoded data is not JSON
/// is refused with a serialization error.
pub proof fn law_non_json_proof_data_refused(v: VerifierView, req: VerificationRequestView, now: u64, d: Seq<u8>)
    requires
        has_circuit_id(v.circuits, req.proof.circuit_id),
        table_has(v.verification_keys, req.proof.circuit_id),
        format_check(req.proof) == FormatCheck::Fine(d),
        !json_bytes_valid(d),
        req.max_age matches Some(m) ==> is_fresh(now, req.proof.timestamp, m),
        req.expected_signals matches Some(es) ==> es == req.proof.public_signals,
    ensures
        verify_outcome(v, req, now) == Outcome::<VerificationResultView>::Exactly(Err(ZkpErrorView::SerializationError)),
{
}

} // verus!
