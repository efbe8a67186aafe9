//! Registry of circuit definitions.

use vstd::prelude::*;
use crate::errors::{ZkpError, ZkpErrorView, ZkpResult, result_view};
use crate::text::concat3;
use crate::types::CircuitConfig;
use crate::types::CircuitConfigView;

verus! {

/// The views of a sequence of circuit configurations.
pub open spec fn configs_view(v: Seq<CircuitConfig>) -> Seq<CircuitConfigView> {
    v.map_values(|c: CircuitConfig| c@)
}

/// Whether some circuit in `s` has identifier `id`.
pub open spec fn has_circuit_id(s: Seq<CircuitConfigView>, id: Seq<char>) -> bool {
    exists|i: int| 0 <= i < s.len() && #[trigger] s[i].id == id
}

/// No two circuits in `s` share an identifier.
pub open spec fn circuit_ids_unique(s: Seq<CircuitConfigView>) -> bool {
    forall|i: int, j: int| 0 <= i < s.len() && 0 <= j < s.len() && i != j ==> #[trigger] s[i].id != #[trigger] s[j].id
}

/// The position of the circuit with identifier `id` in `s`.
pub open spec fn circuit_index(s: Seq<CircuitConfigView>, id: Seq<char>) -> int {
    choose|i: int| 0 <= i < s.len() && #[trigger] s[i].id == id
}

/// The circuit with identifier `id` in `s`, if any.
pub open spec fn find_circuit(s: Seq<CircuitConfigView>, id: Seq<char>) -> Option<CircuitConfigView> {
    if has_circuit_id(s, id) {
        Some(s[circuit_index(s, id)])
    } else {
        None
    }
}

/// In a sequence with unique identifiers, the circuit at position `k` is the one found
/// under its identifier.
pub proof fn lemma_circuit_index_unique(s: Seq<CircuitConfigView>, k: int)
    requires
        circuit_ids_unique(s),
        0 <= k < s.len(),
    ensures
        has_circuit_id(s, s[k].id),
        circuit_index(s, s[k].id) == k,
        find_circuit(s, s[k].id) == Some(s[k]),
{
    let id = s[k].id;
    assert(s[k].id == id);
    let c = circuit_index(s, id);
    assert(0 <= c < s.len() && s[c].id == id);
}

/// One registration: a circuit whose identifier is taken is refused with `dup(id)`,
/// any other is appended.
pub open spec fn register_step(
    s: Seq<CircuitConfigView>,
    c: CircuitConfigView,
    dup: spec_fn(Seq<char>) -> ZkpErrorView,
) -> (Seq<CircuitConfigView>, Result<(), ZkpErrorView>) {
    if has_circuit_id(s, c.id) {
        (s, Err(dup(c.id)))
    } else {
        (s.push(c), Ok(()))
    }
}

/// Registrations in order, stopping at the first refusal (what came before it stays).
pub open spec fn register_all(
    s: Seq<CircuitConfigView>,
    cs: Seq<CircuitConfigView>,
    dup: spec_fn(Seq<char>) -> ZkpErrorView,
) -> (Seq<CircuitConfigView>, Result<(), ZkpErrorView>)
    decreases cs.len(),
{
    if cs.len() == 0 {
        (s, Ok(()))
    } else {
        let (s1, r1) = register_step(s, cs[0], dup);
        if r1 is Err {
            (s1, r1)
        } else {
            register_all(s1, cs.drop_first(), dup)
        }
    }
}

/// The error of [`CircuitManager::register_circuit`] for a taken identifier.
pub open spec fn manager_duplicate(id: Seq<char>) -> ZkpErrorView {
    ZkpErrorView::CircuitError("circuit "@ + id + " already refgistered"@)
}

/// The view of a circuit configuration with version "1.0".
pub open spec fn circuit_view(
    id: Seq<char>,
    name: Seq<char>,
    description: Seq<char>,
    num_private_inputs: usize,
    num_public_inputs: usize,
    num_constraints: usize,
) -> CircuitConfigView {
    CircuitConfigView {
        id,
        name,
        description,
        num_private_inputs,
        num_public_inputs,
        num_constraints,
        version: "1.0"@,
    }
}

/// The four built-in circuits, in the order in which they are loaded.
pub open spec fn default_circuits() -> Seq<CircuitConfigView> {
    seq![
        circuit_view("age_proof"@, "Age Proof"@, "Prove that age >=18 without revealing actual age"@, 1, 1, 500),
        circuit_view("ownership_proof"@, "Ownership Proof"@, "Prove ownership of a secret key or asset"@, 1, 1, 300),
        circuit_view("membership_proof"@, "Memberhip proof"@, "Prove Membership in a set without revealing which member"@, 2, 1, 800),
        circuit_view("credential_proof"@, "Credential Proof"@, "Prove Posssession of a valid credential"@, 2, 1, 600),
    ]
}

/// Builds a circuit configuration with version "1.0".
pub fn circuit_config(
    id: &str,
    name: &str,
    description: &str,
    num_private_inputs: usize,
    num_public_inputs: usize,
    num_constraints: usize,
) -> (res: CircuitConfig)
    ensures
        res@ == circuit_view(id@, name@, description@, num_private_inputs, num_public_inputs, num_constraints),
{
    CircuitConfig {
        id: String::from_str(id),
        name: String::from_str(name),
        description: String::from_str(description),
        num_private_inputs,
        num_public_inputs,
        num_constraints,
        version: String::from_str("1.0"),
    }
}

/// Outcome of validating the circuit with identifier `id`.
pub open spec fn validate_outcome(s: Seq<CircuitConfigView>, id: Seq<char>) -> Result<(), ZkpErrorView> {
    match find_circuit(s, id) {
        None => Err(ZkpErrorView::UnknownCircuit(id)),
        Some(c) => if c.num_private_inputs == 0 && c.num_public_inputs == 0 {
            Err(ZkpErrorView::CircuitError("Circuit must have atleast one input"@))
        } else if c.num_constraints == 0 {
            Err(ZkpErrorView::CircuitError("Circuit must have at least one constraint"@))
        } else {
            Ok(())
        },
    }
}

/// Registry of circuits, keyed by their identifiers.
pub struct CircuitManager {
    circuits: Vec<CircuitConfig>,
}

impl View for CircuitManager {
    type V = Seq<CircuitConfigView>;

    /// The registered circuits in the order of registration.
    closed spec fn view(&self) -> Seq<CircuitConfigView> {
        configs_view(self.circuits@)
    }
}

impl CircuitManager {
    #[verifier::type_invariant]
    spec fn ids_unique(&self) -> bool {
        circuit_ids_unique(configs_view(self.circuits@))
    }

    /// An empty registry.
    pub fn new() -> (res: Self)
        ensures
            res@ == Seq::<CircuitConfigView>::empty(),
    {
        let res = CircuitManager { circuits: Vec::new() };
        assert(res@ =~= Seq::<CircuitConfigView>::empty());
        res
    }

    /// The registered identifiers are unique.
    pub fn ids_are_unique(&self)
        ensures
            circuit_ids_unique(self@),
    {
        proof {
            use_type_invariant(self);
        }
    }

    /// The position of the circuit with identifier `circuit_id`, if any.
    fn position(&self, circuit_id: &str) -> (res: Option<usize>)
        ensures
            match res {
                Some(k) => k < self@.len() && self@[k as int].id == circuit_id@ && circuit_index(self@, circuit_id@) == k
                    && find_circuit(self@, circuit_id@) == Some(self@[k as int]),
                None => !has_circuit_id(self@, circuit_id@) && find_circuit(self@, circuit_id@) is None,
            },
    {
        proof {
            use_type_invariant(self);
        }
        let key = String::from_str(circuit_id);
        let mut i: usize = 0;
        while i < self.circuits.len()
            invariant
                i <= self.circuits@.len(),
                key@ == circuit_id@,
                circuit_ids_unique(self@),
                forall|j: int| 0 <= j < i ==> #[trigger] self.circuits@[j].id@ != circuit_id@,
            decreases self.circuits@.len() - i,
        {
            if self.circuits[i].id.eq(&key) {
                proof {
                    lemma_circuit_index_unique(self@, i as int);
                }
                return Some(i);
            }
            i = i + 1;
        }
        proof {
            if has_circuit_id(self@, circuit_id@) {
                let k = choose|k: int| 0 <= k < self@.len() && #[trigger] self@[k].id == circuit_id@;
                assert(self.circuits@[k].id@ == circuit_id@);
            }
        }
        None
    }

    /// Appends a circuit whose identifier is not taken.
    pub(crate) fn insert_new(&mut self, circuit: CircuitConfig)
        requires
            !has_circuit_id(old(self)@, circuit@.id),
        ensures
            final(self)@ == old(self)@.push(circuit@),
    {
        proof {
            use_type_invariant(&*self);
        }
        let ghost c = circuit@;
        let mut v: Vec<CircuitConfig> = Vec::new();
        std::mem::swap(&mut v, &mut self.circuits);
        v.push(circuit);
        proof {
            assert(configs_view(v@) =~= old(self)@.push(c));
            assert forall|i: int, j: int|
                0 <= i < configs_view(v@).len() && 0 <= j < configs_view(v@).len() && i != j implies
                #[trigger] configs_view(v@)[i].id != #[trigger] configs_view(v@)[j].id by {
                if i == configs_view(v@).len() - 1 {
                    assert(old(self)@[j].id == configs_view(v@)[j].id);
                } else if j == configs_view(v@).len() - 1 {
                    assert(old(self)@[i].id == configs_view(v@)[i].id);
                }
            }
        }
        self.circuits = v;
    }

    /// Registers a circuit; a circuit error when its identifier is already registered,
    /// in which case nothing changes.
    pub fn register_circuit(&mut self, circuit: CircuitConfig) -> (res: ZkpResult<()>)
        ensures
            (final(self)@, result_view(res)) == register_step(old(self)@, circuit@, |id: Seq<char>| manager_duplicate(id)),
    {
        if self.has_circuit(circuit.id.as_str()) {
            return Err(ZkpError::CircuitError(concat3("circuit ", circuit.id.as_str(), " already refgistered")));
        }
        self.insert_new(circuit);
        Ok(())
    }

    /// The circuit with identifier `circuit_id`; an unknown-circuit error when there is none.
    pub fn get_circuit(&self, circuit_id: &str) -> (res: ZkpResult<CircuitConfig>)
        ensures
            result_view(res) == match find_circuit(self@, circuit_id@) {
                Some(c) => Ok(c),
                None => Err(ZkpErrorView::UnknownCircuit(circuit_id@)),
            },
    {
        match self.position(circuit_id) {
            Some(k) => Ok(self.circuits[k].clone()),
            None => Err(ZkpError::UnknownCircuit(String::from_str(circuit_id))),
        }
    }

    /// All registered circuits, in the order of registration.
    pub fn list_circuits(&self) -> (res: Vec<CircuitConfig>)
        ensures
            configs_view(res@) == self@,
    {
        let mut res: Vec<CircuitConfig> = Vec::new();
        let mut i: usize = 0;
        while i < self.circuits.len()
            invariant
                i <= self.circuits@.len(),
                res@.len() == i,
                forall|j: int| 0 <= j < i ==> #[trigger] res@[j]@ == self.circuits@[j]@,
            decreases self.circuits@.len() - i,
        {
            res.push(self.circuits[i].clone());
            i = i + 1;
        }
        assert(configs_view(res@) =~= self@);
        res
    }

    /// Whether a circuit with identifier `circuit_id` is registered.
    pub fn has_circuit(&self, circuit_id: &str) -> (res: bool)
        ensures
            res == has_circuit_id(self@, circuit_id@),
    {
        self.position(circuit_id).is_some()
    }

    /// Removes the circuit with identifier `circuit_id` and returns it; an
    /// unknown-circuit error when there is none, in which case nothing changes.
    pub fn remove_circuit(&mut self, circuit_id: &str) -> (res: ZkpResult<CircuitConfig>)
        ensures
            match find_circuit(old(self)@, circuit_id@) {
                Some(c) => result_view(res) == Ok::<CircuitConfigView, ZkpErrorView>(c)
                    && final(self)@ == old(self)@.remove(circuit_index(old(self)@, circuit_id@)),
                None => result_view(res) == Err::<CircuitConfigView, ZkpErrorView>(ZkpErrorView::UnknownCircuit(circuit_id@))
                    && final(self)@ == old(self)@,
            },
    {
        proof {
            use_type_invariant(&*self);
        }
        match self.position(circuit_id) {
            None => Err(ZkpError::UnknownCircuit(String::from_str(circuit_id))),
            Some(k) => {
                let mut v: Vec<CircuitConfig> = Vec::new();
                std::mem::swap(&mut v, &mut self.circuits);
                let removed = v.remove(k);
                proof {
                    assert(configs_view(v@) =~= old(self)@.remove(k as int));
                    assert forall|i: int, j: int|
                        0 <= i < configs_view(v@).len() && 0 <= j < configs_view(v@).len() && i != j implies
                        #[trigger] configs_view(v@)[i].id != #[trigger] configs_view(v@)[j].id by {
                        let oi = if i < k { i } else { i + 1 };
                        let oj = if j < k { j } else { j + 1 };
                        assert(old(self)@[oi].id == configs_view(v@)[i].id);
                        assert(old(self)@[oj].id == configs_view(v@)[j].id);
                    }
                }
                self.circuits = v;
                Ok(removed)
            },
        }
    }

    /// Replaces the registered circuit with the same identifier; an unknown-circuit
    /// error when there is none, in which case nothing changes.
    pub fn update_ciruit(&mut self, circuit: CircuitConfig) -> (res: ZkpResult<()>)
        ensures
            has_circuit_id(old(self)@, circuit@.id) ==> res is Ok
                && final(self)@ == old(self)@.update(circuit_index(old(self)@, circuit@.id), circuit@),
            !has_circuit_id(old(self)@, circuit@.id) ==> result_view(res) == Err::<(), ZkpErrorView>(
                ZkpErrorView::UnknownCircuit(circuit@.id),
            ) && final(self)@ == old(self)@,
    {
        proof {
            use_type_invariant(&*self);
        }
        match self.position(circuit.id.as_str()) {
            None => Err(ZkpError::UnknownCircuit(circuit.id)),
            Some(k) => {
                let ghost c = circuit@;
                let mut v: Vec<CircuitConfig> = Vec::new();
                std::mem::swap(&mut v, &mut self.circuits);
                v.set(k, circuit);
                proof {
                    assert(configs_view(v@) =~= old(self)@.update(k as int, c));
                    assert forall|i: int, j: int|
                        0 <= i < configs_view(v@).len() && 0 <= j < configs_view(v@).len() && i != j implies
                        #[trigger] configs_view(v@)[i].id != #[trigger] configs_view(v@)[j].id by {
                        assert(old(self)@[i].id == configs_view(v@)[i].id);
                        assert(old(self)@[j].id == configs_view(v@)[j].id);
                    }
                }
                self.circuits = v;
                Ok(())
            },
        }
    }

    /// Number of registered circuits.
    pub fn total_circuits(&self) -> (res: usize)
        ensures
            res == self@.len(),
    {
        self.circuits.len()
    }

    /// Registers the four built-in circuits in order, stopping at the first that is
    /// refused (those before it stay registered).
    pub fn load_default_circuits(&mut self) -> (res: ZkpResult<()>)
        ensures
            (final(self)@, result_view(res)) == register_all(old(self)@, default_circuits(), |id: Seq<char>| manager_duplicate(id)),
    {
        proof {
            reveal_with_fuel(register_all, 5);
        }
        let r = self.register_circuit(circuit_config("age_proof", "Age Proof", "Prove that age >=18 without revealing actual age", 1, 1, 500));
        if r.is_err() { return r; }
        let r = self.register_circuit(circuit_config("ownership_proof", "Ownership Proof", "Prove ownership of a secret key or asset", 1, 1, 300));
        if r.is_err() { return r; }
        let r = self.register_circuit(circuit_config("membership_proof", "Memberhip proof", "Prove Membership in a set without revealing which member", 2, 1, 800));
        if r.is_err() { return r; }
        let r = self.register_circuit(circuit_config("credential_proof", "Credential Proof", "Prove Posssession of a valid credential", 2, 1, 600));
        if r.is_err() { return r; }
        Ok(())
    }

    /// Checks that the circuit with identifier `circuit_id` exists, has at least one
    /// input and at least one constraint.
    pub fn validate_circuit(&self, circuit_id: &str) -> (res: ZkpResult<()>)
        ensures
            result_view(res) == validate_outcome(self@, circuit_id@),
    {
        let circuit = match self.get_circuit(circuit_id) {
            Ok(c) => c,
            Err(e) => return Err(e),
        };
        if circuit.num_private_inputs == 0 && circuit.num_public_inputs == 0 {
            return Err(ZkpError::CircuitError(String::from_str("Circuit must have atleast one input")));
        }
        if circuit.num_constraints == 0 {
            return Err(ZkpError::CircuitError(String::from_str("Circuit must have at least one constraint")));
        }
        Ok(())
    }
}

impl Default for CircuitManager {
    fn default() -> (res: Self)
        ensures
            res@ == Seq::<CircuitConfigView>::empty(),
    {
        Self::new()
    }
}

} // verus!

verus! {

/// Registering a circuit under a fresh identifier succeeds, keeps identifiers unique,
/// adds exactly one circuit, and the circuit is then found under its identifier.
pub proof fn law_register_then_find(s: Seq<CircuitConfigView>, c: CircuitConfigView, dup: spec_fn(Seq<char>) -> ZkpErrorView)
    requires
        circuit_ids_unique(s),
        !has_circuit_id(s, c.id),
    ensures
        register_step(s, c, dup) == (s.push(c), Ok::<(), ZkpErrorView>(())),
        circuit_ids_unique(s.push(c)),
        s.push(c).len() == s.len() + 1,
        find_circuit(s.push(c), c.id) == Some(c),
{
    let t = s.push(c);
    assert forall|i: int, j: int| 0 <= i < t.len() && 0 <= j < t.len() && i != j implies
        #[trigger] t[i].id != #[trigger] t[j].id by {
        if i == s.len() {
            assert(s[j].id == t[j].id);
        } else if j == s.len() {
            assert(s[i].id == t[i].id);
        } else {
            assert(s[i].id == t[i].id && s[j].id == t[j].id);
        }
    }
    lemma_circuit_index_unique(t, s.len() as int);
}

/// Registering a circuit whose identifier is taken is refused and changes nothing.
pub proof fn law_register_duplicate_refused(s: Seq<CircuitConfigView>, c: CircuitConfigView, dup: spec_fn(Seq<char>) -> ZkpErrorView)
    requires
        has_circuit_id(s, c.id),
    ensures
        register_step(s, c, dup) == (s, Err::<(), ZkpErrorView>(dup(c.id))),
{
}

/// Every registration keeps identifiers unique.
pub proof fn law_register_keeps_unique(s: Seq<CircuitConfigView>, c: CircuitConfigView, dup: spec_fn(Seq<char>) -> ZkpErrorView)
    requires
        circuit_ids_unique(s),
    ensures
        circuit_ids_unique(register_step(s, c, dup).0),
{
    if !has_circuit_id(s, c.id) {
        law_register_then_find(s, c, dup);
    }
}

/// Removing a circuit right after registering it under a fresh identifier gives it back
/// and restores the registry.
pub proof fn law_remove_undoes_register(s: Seq<CircuitConfigView>, c: CircuitConfigView)
    requires
        circuit_ids_unique(s),
        !has_circuit_id(s, c.id),
    ensures
        find_circuit(s.push(c), c.id) == Some(c),
        s.push(c).remove(circuit_index(s.push(c), c.id)) == s,
{
    law_register_then_find(s, c, |id: Seq<char>| manager_duplicate(id));
    lemma_circuit_index_unique(s.push(c), s.len() as int);
    assert(s.push(c).remove(s.len() as int) =~= s);
}

/// Removing a circuit keeps identifiers unique, takes exactly one circuit away, and the
/// identifier is then no longer registered.
pub proof fn law_remove_forgets(s: Seq<CircuitConfigView>, id: Seq<char>)
    requires
        circuit_ids_unique(s),
        has_circuit_id(s, id),
    ensures
        circuit_ids_unique(s.remove(circuit_index(s, id))),
        s.remove(circuit_index(s, id)).len() == s.len() - 1,
        !has_circuit_id(s.remove(circuit_index(s, id)), id),
{
    let k = circuit_index(s, id);
    let t = s.remove(k);
    assert forall|i: int, j: int| 0 <= i < t.len() && 0 <= j < t.len() && i != j implies
        #[trigger] t[i].id != #[trigger] t[j].id by {
        let oi = if i < k { i } else { i + 1 };
        let oj = if j < k { j } else { j + 1 };
        assert(s[oi].id == t[i].id && s[oj].id == t[j].id);
    }
    if has_circuit_id(t, id) {
        let i = choose|i: int| 0 <= i < t.len() && #[trigger] t[i].id == id;
        let oi = if i < k { i } else { i + 1 };
        assert(s[oi].id == id);
    }
}

/// Updating a registered circuit keeps identifiers unique and the new configuration is
/// then found under the identifier.
pub proof fn law_update_then_find(s: Seq<CircuitConfigView>, c: CircuitConfigView)
    requires
        circuit_ids_unique(s),
        has_circuit_id(s, c.id),
    ensures
        circuit_ids_unique(s.update(circuit_index(s, c.id), c)),
        find_circuit(s.update(circuit_index(s, c.id), c), c.id) == Some(c),
{
    let k = circuit_index(s, c.id);
    let t = s.update(k, c);
    assert forall|i: int, j: int| 0 <= i < t.len() && 0 <= j < t.len() && i != j implies
        #[trigger] t[i].id != #[trigger] t[j].id by {
        assert(s[i].id == t[i].id && s[j].id == t[j].id);
    }
    lemma_circuit_index_unique(t, k);
}

/// Loading the built-in circuits into an empty registry registers all four, in order.
pub proof fn law_defaults_load_into_empty(dup: spec_fn(Seq<char>) -> ZkpErrorView)
    ensures
        register_all(Seq::<CircuitConfigView>::empty(), default_circuits(), dup) == (default_circuits(), Ok::<(), ZkpErrorView>(())),
{
    reveal_with_fuel(register_all, 5);
    reveal_strlit("age_proof");
    reveal_strlit("ownership_proof");
    reveal_strlit("membership_proof");
    reveal_strlit("credential_proof");
    let d = default_circuits();
    assert(d[0].id[0] == 'a' && d[1].id[0] == 'o' && d[2].id[0] == 'm' && d[3].id[0] == 'c');
    let s0 = Seq::<CircuitConfigView>::empty();
    let s1 = s0.push(d[0]);
    let s2 = s1.push(d[1]);
    let s3 = s2.push(d[2]);
    assert(!has_circuit_id(s0, d[0].id));
    assert(!has_circuit_id(s1, d[1].id)) by {
        if has_circuit_id(s1, d[1].id) {
            let i = choose|i: int| 0 <= i < s1.len() && #[trigger] s1[i].id == d[1].id;
            assert(s1[i] == d[0]);
        }
    }
    assert(!has_circuit_id(s2, d[2].id)) by {
        if has_circuit_id(s2, d[2].id) {
            let i = choose|i: int| 0 <= i < s2.len() && #[trigger] s2[i].id == d[2].id;
            assert(s2[i] == d[0] || s2[i] == d[1]);
        }
    }
    assert(!has_circuit_id(s3, d[3].id)) by {
        if has_circuit_id(s3, d[3].id) {
            let i = choose|i: int| 0 <= i < s3.len() && #[trigger] s3[i].id == d[3].id;
            assert(s3[i] == d[0] || s3[i] == d[1] || s3[i] == d[2]);
        }
    }
    assert(d.drop_first().drop_first().drop_first().drop_first() =~= Seq::<CircuitConfigView>::empty());
    assert(s3.push(d[3]) =~= d);
}


/// A registered circuit without constraints never validates, whatever its input
/// counts; when it has an input, the answer is that it needs a constraint.
pub proof fn law_circuit_without_constraints_refused(s: Seq<CircuitConfigView>, k: int)
    requires
        circuit_ids_unique(s),
        0 <= k < s.len(),
        s[k].num_constraints == 0,
    ensures
        validate_outcome(s, s[k].id) is Err,
        s[k].num_private_inputs > 0 || s[k].num_public_inputs > 0 ==> validate_outcome(s, s[k].id)
            == Err::<(), ZkpErrorView>(ZkpErrorView::CircuitError("Circuit must have at least one constraint"@)),
{
    lemma_circuit_index_unique(s, k);
}


/// Validating a circuit that is not registered is refused naming it; a registered one
/// with no inputs at all is refused for that first; one with an input and a
/// constraint validates.
pub proof fn law_circuit_validation(s: Seq<CircuitConfigView>, k: int, id: Seq<char>)
    requires
        circuit_ids_unique(s),
        0 <= k < s.len(),
    ensures
        !has_circuit_id(s, id) ==> validate_outcome(s, id) == Err::<(), ZkpErrorView>(ZkpErrorView::UnknownCircuit(id)),
        s[k].num_private_inputs == 0 && s[k].num_public_inputs == 0 ==> validate_outcome(s, s[k].id)
            == Err::<(), ZkpErrorView>(ZkpErrorView::CircuitError("Circuit must have atleast one input"@)),
        (s[k].num_private_inputs > 0 || s[k].num_public_inputs > 0) && s[k].num_constraints > 0
            ==> validate_outcome(s, s[k].id) == Ok::<(), ZkpErrorView>(()),
{
    lemma_circuit_index_unique(s, k);
}

} // verus!
