//! The prover: checks proof requests against registered circuits and loaded keys and
//! produces proofs.

use vstd::prelude::*;
use vstd::string::StringSliceAdditionalSpecFns;
use crate::circuits::{
    CircuitManager, circuit_config, circuit_ids_unique, configs_view, default_circuits, find_circuit,
    has_circuit_id, lemma_circuit_index_unique, register_all, register_step,
};
use crate::errors::{ZkpError, ZkpErrorView, ZkpResult, result_view};
use crate::json::{
    JsonLeaf, JsonLeafView, entries_view, json_bytes_valid, json_inputs, json_object_bytes, read_proof_inputs,
    write_json_object,
};
use crate::loaded_keys::{KeyTable, table_has, table_insert};
use crate::text::{concat2, concat3, decimal_text, string_from_utf8, usize_text};
use crate::types::{
    CircuitConfig, CircuitConfigView, InputValue, InputValueView, ProofInputs, ProofInputsView,
    ProofRequest, ProofRequestView, ZkProof, ZkProofView, input_entries_view, strings_view,
};
use crate::utils::current_timestamp;

verus! {

/// The mathematical view of a [`Prover`].
pub struct ProverView {
    /// Registered circuits, in order of registration.
    pub circuits: Seq<CircuitConfigView>,
    /// Proving key data per circuit.
    pub proving_keys: Seq<(Seq<char>, Seq<char>)>,
}

/// The error of [`Prover::register_circuit`] for a taken identifier.
pub open spec fn prover_duplicate(id: Seq<char>) -> ZkpErrorView {
    ZkpErrorView::CircuitError("Cicruit "@ + id + " already registered"@)
}

/// Outcome of loading key data for circuit `id`: refused for an unknown circuit.
pub open spec fn load_key_outcome(
    circuits: Seq<CircuitConfigView>,
    keys: Seq<(Seq<char>, Seq<char>)>,
    id: Seq<char>,
    data: Seq<char>,
) -> (Seq<(Seq<char>, Seq<char>)>, Result<(), ZkpErrorView>) {
    if !has_circuit_id(circuits, id) {
        (keys, Err(ZkpErrorView::UnknownCircuit(id)))
    } else {
        (table_insert(keys, id, data), Ok(()))
    }
}

/// Checks the private inputs against the expected count.
pub open spec fn private_inputs_outcome(inputs: ProofInputsView, expected: usize) -> Result<(), ZkpErrorView> {
    match inputs {
        ProofInputsView::Object(o) => if o.len() != expected {
            Err(ZkpErrorView::InvalidInput(
                "Expected "@ + decimal_text(expected as nat) + " private inputs, got "@ + decimal_text(o.len()) + " "@,
            ))
        } else {
            Ok(())
        },
        ProofInputsView::NotObject => Err(ZkpErrorView::InvalidInput("Private inputs must be a JSON object"@)),
    }
}

/// Checks the public inputs against the expected count.
pub open spec fn public_inputs_outcome(inputs: ProofInputsView, expected: usize) -> Result<(), ZkpErrorView> {
    match inputs {
        ProofInputsView::Object(o) => if o.len() != expected {
            Err(ZkpErrorView::InvalidInput(
                "Expected "@ + decimal_text(expected as nat) + " public inputs ,got "@ + decimal_text(o.len()),
            ))
        } else {
            Ok(())
        },
        ProofInputsView::NotObject => Err(ZkpErrorView::InvalidInput("Public inputs must be a JSON object"@)),
    }
}

/// Checks both input objects against circuit `c`, private inputs first.
pub open spec fn inputs_outcome(req: ProofRequestView, c: CircuitConfigView) -> Result<(), ZkpErrorView> {
    match private_inputs_outcome(req.private_inputs, c.num_private_inputs) {
        Err(e) => Err(e),
        Ok(_) => public_inputs_outcome(req.public_inputs, c.num_public_inputs),
    }
}

/// The text of an input value: a string as it is, any other value as its JSON text.
pub open spec fn input_text(v: InputValueView) -> Seq<char> {
    match v {
        InputValueView::Text(s) => s,
        InputValueView::Json(t) => t,
    }
}

/// The public signals of public inputs: the texts of the object's values, in order.
pub open spec fn signals_of(inputs: ProofInputsView) -> Result<Seq<Seq<char>>, ZkpErrorView> {
    match inputs {
        ProofInputsView::Object(o) => Ok(o.map_values(|e: (Seq<char>, InputValueView)| input_text(e.1))),
        ProofInputsView::NotObject => Err(ZkpErrorView::InvalidInput("Public inputs must be a JSON object"@)),
    }
}

/// The checks made before a proof is produced: the circuit is registered, its proving
/// key is loaded and the inputs fit it.
pub open spec fn request_check(p: ProverView, req: ProofRequestView) -> Result<CircuitConfigView, ZkpErrorView> {
    match find_circuit(p.circuits, req.circuit_id) {
        None => Err(ZkpErrorView::UnknownCircuit(req.circuit_id)),
        Some(c) => if !table_has(p.proving_keys, req.circuit_id) {
            Err(ZkpErrorView::KeyError("Proving Key not loaded for "@ + req.circuit_id))
        } else {
            match inputs_outcome(req, c) {
                Err(e) => Err(e),
                Ok(_) => Ok(c),
            }
        },
    }
}

/// The entries of the placeholder Groth16 proof object.
pub open spec fn groth16_entries() -> Seq<(Seq<char>, JsonLeafView)> {
    seq![
        ("pi_a"@, JsonLeafView::Texts(seq!["0"@, "0"@])),
        ("pi_b"@, JsonLeafView::Grid(seq![seq!["0"@, "0"@], seq!["0"@, "0"@]])),
        ("pi_c"@, JsonLeafView::Texts(seq!["0"@, "0"@])),
        ("protocol"@, JsonLeafView::Text("groth16"@)),
        ("curve"@, JsonLeafView::Text("bn128"@)),
    ]
}

/// The JSON text of the placeholder Groth16 proof.
pub open spec fn placeholder_proof_text() -> Seq<char> {
    vstd::utf8::decode_utf8(json_object_bytes(groth16_entries()))
}

/// The proof produced for an accepted request at time `now`.
pub open spec fn proof_for(req: ProofRequestView, now: u64) -> ZkProofView {
    ZkProofView {
        proof_data: placeholder_proof_text(),
        public_signals: signals_of(req.public_inputs)->Ok_0,
        circuit_id: req.circuit_id,
        timestamp: now,
        signature: None,
        version: "1.0"@,
    }
}

/// The request that [`proof_request_from_json`] builds from a circuit identifier and
/// the bytes of the private and public inputs' JSON texts: refused with a
/// serialization error when either text is not JSON (the private one is read first).
pub open spec fn request_from_json(circuit_id: Seq<char>, private: Seq<u8>, public: Seq<u8>) -> Result<ProofRequestView, ZkpErrorView> {
    if !json_bytes_valid(private) || !json_bytes_valid(public) {
        Err(ZkpErrorView::SerializationError)
    } else {
        Ok(ProofRequestView {
            circuit_id,
            private_inputs: json_inputs(private),
            public_inputs: json_inputs(public),
        })
    }
}

/// Reads proof inputs from JSON text: an object becomes its entries in order, a string
/// value as its text and any other value as its JSON text; any other document is not
/// an object. A serialization error when the text is not JSON.
pub fn parse_proof_inputs(text: &str) -> (res: ZkpResult<ProofInputs>)
    ensures
        res is Ok <==> json_bytes_valid(text.spec_bytes()),
        res matches Ok(i) ==> i@ == json_inputs(text.spec_bytes()),
        res matches Err(e) ==> e@ is SerializationError,
{
    match read_proof_inputs(text.as_bytes()) {
        Ok(i) => Ok(i),
        Err(e) => Err(ZkpError::SerializationError(e)),
    }
}

/// Builds a proof request for `circuit_id` from the JSON texts of its private and
/// public inputs, without metadata.
pub fn proof_request_from_json(circuit_id: String, private_json: &str, public_json: &str) -> (res: ZkpResult<ProofRequest>)
    ensures
        result_view(res) == request_from_json(circuit_id@, private_json.spec_bytes(), public_json.spec_bytes()),
        res matches Ok(r) ==> r.metadata is None,
{
    let private_inputs = match parse_proof_inputs(private_json) {
        Ok(i) => i,
        Err(e) => return Err(e),
    };
    let public_inputs = match parse_proof_inputs(public_json) {
        Ok(i) => i,
        Err(e) => return Err(e),
    };
    Ok(ProofRequest { circuit_id, private_inputs, public_inputs, metadata: None })
}

/// `["0", "0"]`.
fn zero_pair() -> (res: Vec<String>)
    ensures
        strings_view(res@) == seq!["0"@, "0"@],
{
    let mut v: Vec<String> = Vec::new();
    v.push(String::from_str("0"));
    v.push(String::from_str("0"));
    assert(strings_view(v@) =~= seq!["0"@, "0"@]);
    v
}

/// Generates zero-knowledge proofs for registered circuits.
pub struct Prover {
    circuits: CircuitManager,
    proving_keys: KeyTable,
}

impl View for Prover {
    type V = ProverView;

    closed spec fn view(&self) -> ProverView {
        ProverView { circuits: self.circuits@, proving_keys: self.proving_keys@ }
    }
}

impl Prover {
    /// A prover with no circuits and no keys.
    pub fn new() -> (res: Self)
        ensures
            res@.circuits == Seq::<CircuitConfigView>::empty(),
            res@.proving_keys == Seq::<(Seq<char>, Seq<char>)>::empty(),
    {
        Prover { circuits: CircuitManager::new(), proving_keys: KeyTable::new() }
    }

    /// Registers a circuit; a circuit error when its identifier is already registered,
    /// in which case nothing changes.
    pub fn register_circuit(&mut self, circuit: CircuitConfig) -> (res: ZkpResult<()>)
        ensures
            (final(self)@.circuits, result_view(res)) == register_step(old(self)@.circuits, circuit@, |id: Seq<char>| prover_duplicate(id)),
            final(self)@.proving_keys == old(self)@.proving_keys,
    {
        if self.circuits.has_circuit(circuit.id.as_str()) {
            return Err(ZkpError::CircuitError(concat3("Cicruit ", circuit.id.as_str(), " already registered")));
        }
        self.circuits.insert_new(circuit);
        Ok(())
    }

    /// Loads the proving key data of a registered circuit, replacing earlier data; an
    /// unknown-circuit error otherwise, in which case nothing changes.
    pub fn load_proving_key(&mut self, circuit_id: &str, key_data: String) -> (res: ZkpResult<()>)
        ensures
            (final(self)@.proving_keys, result_view(res)) == load_key_outcome(old(self)@.circuits, old(self)@.proving_keys, circuit_id@, key_data@),
            final(self)@.circuits == old(self)@.circuits,
    {
        if !self.circuits.has_circuit(circuit_id) {
            return Err(ZkpError::UnknownCircuit(String::from_str(circuit_id)));
        }
        self.proving_keys.insert(circuit_id, key_data);
        Ok(())
    }

    /// Produces a proof for `request` stamped with time `now`, after checking that the
    /// circuit is registered, its proving key loaded and the inputs fit it.
    pub fn generate_proof_at(&self, request: ProofRequest, now: u64) -> (res: ZkpResult<ZkProof>)
        ensures
            match request_check(self@, request@) {
                Err(e) => result_view(res) == Err::<ZkProofView, ZkpErrorView>(e),
                Ok(_) => res matches Ok(p) && p@ == proof_for(request@, now) && p@.proof_data.len() > 0,
            },
    {
        let circuit = match self.circuits.get_circuit(request.circuit_id.as_str()) {
            Ok(c) => c,
            Err(e) => return Err(e),
        };
        if !self.proving_keys.contains(request.circuit_id.as_str()) {
            return Err(ZkpError::KeyError(concat2("Proving Key not loaded for ", request.circuit_id.as_str())));
        }
        match self.validate_inputs(&request, &circuit) {
            Ok(()) => {},
            Err(e) => return Err(e),
        }
        let proof_data = match self.simulate_proof_generation(&request) {
            Ok(d) => d,
            Err(e) => return Err(e),
        };
        let public_signals = match self.extract_public_signals(&request.public_inputs) {
            Ok(s) => s,
            Err(e) => return Err(e),
        };
        Ok(ZkProof {
            proof_data,
            public_signals,
            circuit_id: request.circuit_id,
            timestamp: now,
            signature: None,
            version: String::from_str("1.0"),
        })
    }

    /// Produces a proof for `request`, stamped with the current time.
    pub fn generate_proof(&self, request: ProofRequest) -> (res: ZkpResult<ZkProof>)
        ensures
            match request_check(self@, request@) {
                Err(e) => result_view(res) == Err::<ZkProofView, ZkpErrorView>(e),
                Ok(_) => res matches Ok(p) && (exists|now: u64| p@ == proof_for(request@, now))
                    && p@.proof_data.len() > 0,
            },
    {
        let now = current_timestamp();
        self.generate_proof_at(request, now)
    }

    /// Registers the four built-in circuits in order, stopping at the first that is
    /// refused (those before it stay registered).
    pub fn load_default_circuits(&mut self) -> (res: ZkpResult<()>)
        ensures
            (final(self)@.circuits, result_view(res)) == register_all(old(self)@.circuits, default_circuits(), |id: Seq<char>| prover_duplicate(id)),
            final(self)@.proving_keys == old(self)@.proving_keys,
    {
        proof {
            reveal_with_fuel(register_all, 5);
        }
        let r = self.register_circuit(circuit_config("age_proof", "Age Proof", "Prove that age >=18 without revealing actual age", 1, 1, 500));
        if r.is_err() { return r; }
        let r = self.register_circuit(circuit_config("ownership_proof", "Ownership Proof", "Prove ownership of a secret key or asset", 1, 1, 300));
        if r.is_err() { return r; }
        let r = self.register_circuit(circuit_config("membership_proof", "Memberhip proof", "Prove Membership in a set without revealing which member", 2, 1, 800));
        if r.is_err() { return r; }
        let r = self.register_circuit(circuit_config("credential_proof", "Credential Proof", "Prove Posssession of a valid credential", 2, 1, 600));
        if r.is_err() { return r; }
        Ok(())
    }

    /// Checks the request's inputs against the circuit's input counts.
    fn validate_inputs(&self, request: &ProofRequest, circuit: &CircuitConfig) -> (res: ZkpResult<()>)
        ensures
            result_view(res) == inputs_outcome(request@, circuit@),
    {
        match &request.private_inputs {
            ProofInputs::Object(obj) => {
                if obj.len() != circuit.num_private_inputs {
                    let expected = usize_text(circuit.num_private_inputs);
                    let got = usize_text(obj.len());
                    let head = concat3("Expected ", expected.as_str(), " private inputs, got ");
                    return Err(ZkpError::InvalidInput(concat3(head.as_str(), got.as_str(), " ")));
                }
            },
            ProofInputs::NotObject => {
                return Err(ZkpError::InvalidInput(String::from_str("Private inputs must be a JSON object")));
            },
        }
        match &request.public_inputs {
            ProofInputs::Object(obj) => {
                if obj.len() != circuit.num_public_inputs {
                    let expected = usize_text(circuit.num_public_inputs);
                    let got = usize_text(obj.len());
                    let head = concat3("Expected ", expected.as_str(), " public inputs ,got ");
                    return Err(ZkpError::InvalidInput(concat2(head.as_str(), got.as_str())));
                }
            },
            ProofInputs::NotObject => {
                return Err(ZkpError::InvalidInput(String::from_str("Public inputs must be a JSON object")));
            },
        }
        Ok(())
    }

    /// The proof data of a request: the placeholder Groth16 proof as JSON text.
    fn simulate_proof_generation(&self, request: &ProofRequest) -> (res: ZkpResult<String>)
        ensures
            res matches Ok(s) && s@ == placeholder_proof_text() && s@.len() > 0,
    {
        let proof = Self::groth16_prove();
        match write_json_object(&proof) {
            Ok(bytes) => match string_from_utf8(bytes) {
                Ok(s) => Ok(s),
                // not reached: the writer's output is valid UTF-8
                Err(_) => Err(ZkpError::ProofGeneration(String::from_str("Serialization failed: "))),
            },
            Err(e) => {
                let t = e.to_string();
                Err(ZkpError::ProofGeneration(concat2("Serialization failed: ", t.as_str())))
            },
        }
    }

    /// The entries of the placeholder Groth16 proof object.
    fn groth16_prove() -> (res: Vec<(String, JsonLeaf)>)
        ensures
            entries_view(res@) == groth16_entries(),
    {
        let mut entries: Vec<(String, JsonLeaf)> = Vec::new();
        entries.push((String::from_str("pi_a"), JsonLeaf::Texts(zero_pair())));
        let mut grid: Vec<Vec<String>> = Vec::new();
        grid.push(zero_pair());
        grid.push(zero_pair());
        let ghost g = grid@;
        entries.push((String::from_str("pi_b"), JsonLeaf::Grid(grid)));
        entries.push((String::from_str("pi_c"), JsonLeaf::Texts(zero_pair())));
        entries.push((String::from_str("protocol"), JsonLeaf::Text(String::from_str("groth16"))));
        entries.push((String::from_str("curve"), JsonLeaf::Text(String::from_str("bn128"))));
        assert(g.map_values(|r: Vec<String>| strings_view(r@)) =~= seq![seq!["0"@, "0"@], seq!["0"@, "0"@]]);
        assert(entries_view(entries@) =~= groth16_entries());
        entries
    }

    /// The public signals of public inputs: the texts of the object's values, in order.
    fn extract_public_signals(&self, public_inputs: &ProofInputs) -> (res: ZkpResult<Vec<String>>)
        ensures
            match (res, signals_of(public_inputs@)) {
                (Ok(v), Ok(s)) => strings_view(v@) == s,
                (Err(e), Err(f)) => e@ == f,
                _ => false,
            },
    {
        match public_inputs {
            ProofInputs::Object(obj) => {
                let mut res: Vec<String> = Vec::new();
                let mut i: usize = 0;
                while i < obj.len()
                    invariant
                        i <= obj@.len(),
                        res@.len() == i,
                        forall|j: int| 0 <= j < i ==> #[trigger] res@[j]@ == input_text(obj@[j].1@),
                    decreases obj@.len() - i,
                {
                    let text = match &obj[i].1 {
                        InputValue::Text(s) => s.clone(),
                        InputValue::Json(t) => t.clone(),
                    };
                    res.push(text);
                    i = i + 1;
                }
                assert(strings_view(res@) =~= input_entries_view(obj@).map_values(
                    |e: (Seq<char>, InputValueView)| input_text(e.1),
                ));
                Ok(res)
            },
            ProofInputs::NotObject => Err(ZkpError::InvalidInput(String::from_str("Public inputs must be a JSON object"))),
        }
    }

    /// All registered circuits, in the order of registration.
    pub fn get_circuits(&self) -> (res: Vec<CircuitConfig>)
        ensures
            configs_view(res@) == self@.circuits,
    {
        self.circuits.list_circuits()
    }

    /// The circuit with identifier `circuit_id`, if registered.
    pub fn get_circuit(&self, circuit_id: &str) -> (res: Option<CircuitConfig>)
        ensures
            match res {
                Some(c) => find_circuit(self@.circuits, circuit_id@) == Some(c@),
                None => find_circuit(self@.circuits, circuit_id@) is None,
            },
    {
        match self.circuits.get_circuit(circuit_id) {
            Ok(c) => Some(c),
            Err(_) => None,
        }
    }
}

impl Default for Prover {
    fn default() -> (res: Self)
        ensures
            res@.circuits == Seq::<CircuitConfigView>::empty(),
            res@.proving_keys == Seq::<(Seq<char>, Seq<char>)>::empty(),
    {
        Self::new()
    }
}

} // verus!

verus! {

/// A proof produced for an accepted request carries one public signal per public input
/// that the circuit declares, the request's circuit, no signature and version "1.0".
pub proof fn law_proof_matches_circuit(p: ProverView, req: ProofRequestView, now: u64)
    requires
        request_check(p, req) is Ok,
    ensures
        proof_for(req, now).public_signals.len() == request_check(p, req)->Ok_0.num_public_inputs,
        proof_for(req, now).circuit_id == req.circuit_id,
        proof_for(req, now).signature is None,
        proof_for(req, now).version == "1.0"@,
        proof_for(req, now).timestamp == now,
{
}

/// A request for a circuit that is registered, with its proving key loaded and inputs
/// of the declared sizes, is accepted.
pub proof fn law_fitting_request_accepted(p: ProverView, req: ProofRequestView, k: int)
    requires
        circuit_ids_unique(p.circuits),
        0 <= k < p.circuits.len(),
        p.circuits[k].id == req.circuit_id,
        table_has(p.proving_keys, req.circuit_id),
        req.private_inputs matches ProofInputsView::Object(o) && o.len() == p.circuits[k].num_private_inputs,
        req.public_inputs matches ProofInputsView::Object(o) && o.len() == p.circuits[k].num_public_inputs,
    ensures
        request_check(p, req) == Ok::<CircuitConfigView, ZkpErrorView>(p.circuits[k]),
{
    lemma_circuit_index_unique(p.circuits, k);
}


/// The public signals of the proof produced for a request are the values of its public
/// inputs object, in order: the i-th signal is the i-th value, a string as it is and
/// any other value as its JSON text.
pub proof fn law_signals_are_public_inputs_in_order(req: ProofRequestView, now: u64, o: Seq<(Seq<char>, InputValueView)>)
    requires
        req.public_inputs == ProofInputsView::Object(o),
    ensures
        proof_for(req, now).public_signals.len() == o.len(),
        forall|i: int| 0 <= i < o.len() ==> #[trigger] proof_for(req, now).public_signals[i] == match o[i].1 {
            InputValueView::Text(s) => s,
            InputValueView::Json(t) => t,
        },
{
}


/// A request for an unregistered circuit is refused naming the circuit; one for a
/// registered circuit whose proving key is not loaded is refused saying so.
pub proof fn law_unknown_or_keyless_request_refused(p: ProverView, req: ProofRequestView)
    ensures
        !has_circuit_id(p.circuits, req.circuit_id) ==> request_check(p, req)
            == Err::<CircuitConfigView, ZkpErrorView>(ZkpErrorView::UnknownCircuit(req.circuit_id)),
        has_circuit_id(p.circuits, req.circuit_id) && !table_has(p.proving_keys, req.circuit_id) ==> request_check(p, req)
            == Err::<CircuitConfigView, ZkpErrorView>(ZkpErrorView::KeyError("Proving Key not loaded for "@ + req.circuit_id)),
{
}

/// For a registered circuit with its proving key loaded, the private inputs are
/// checked first: they must be an object with as many entries as the circuit declares.
pub proof fn law_private_inputs_checked_first(p: ProverView, req: ProofRequestView, k: int)
    requires
        circuit_ids_unique(p.circuits),
        0 <= k < p.circuits.len(),
        p.circuits[k].id == req.circuit_id,
        table_has(p.proving_keys, req.circuit_id),
    ensures
        match req.private_inputs {
            ProofInputsView::NotObject => request_check(p, req) == Err::<CircuitConfigView, ZkpErrorView>(
                ZkpErrorView::InvalidInput("Private inputs must be a JSON object"@),
            ),
            ProofInputsView::Object(o) => o.len() != p.circuits[k].num_private_inputs ==> request_check(p, req)
                == Err::<CircuitConfigView, ZkpErrorView>(ZkpErrorView::InvalidInput(
                    "Expected "@ + decimal_text(p.circuits[k].num_private_inputs as nat) + " private inputs, got "@
                        + decimal_text(o.len()) + " "@,
                )),
        },
{
    lemma_circuit_index_unique(p.circuits, k);
}

/// When the private inputs fit, the public inputs must be an object with as many
/// entries as the circuit declares.
pub proof fn law_public_inputs_checked(p: ProverView, req: ProofRequestView, k: int, o: Seq<(Seq<char>, InputValueView)>)
    requires
        circuit_ids_unique(p.circuits),
        0 <= k < p.circuits.len(),
        p.circuits[k].id == req.circuit_id,
        table_has(p.proving_keys, req.circuit_id),
        req.private_inputs == ProofInputsView::Object(o),
        o.len() == p.circuits[k].num_private_inputs,
    ensures
        match req.public_inputs {
            ProofInputsView::NotObject => request_check(p, req) == Err::<CircuitConfigView, ZkpErrorView>(
                ZkpErrorView::InvalidInput("Public inputs must be a JSON object"@),
            ),
            ProofInputsView::Object(q) => q.len() != p.circuits[k].num_public_inputs ==> request_check(p, req)
                == Err::<CircuitConfigView, ZkpErrorView>(ZkpErrorView::InvalidInput(
                    "Expected "@ + decimal_text(p.circuits[k].num_public_inputs as nat) + " public inputs ,got "@
                        + decimal_text(q.len()),
                )),
        },
{
    lemma_circuit_index_unique(p.circuits, k);
}

} // verus!
