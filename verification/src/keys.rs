//! Store of key material.

use vstd::prelude::*;
use crate::errors::{ZkpError, ZkpErrorView, ZkpResult, result_view};
use crate::text::concat3;
use crate::types::{KeyMaterial, KeyMaterialView, KeyType};
use crate::utils::{base64_encode, base64_text, current_timestamp};

verus! {

/// The views of a sequence of keys.
pub open spec fn keys_view(v: Seq<KeyMaterial>) -> Seq<KeyMaterialView> {
    v.map_values(|k: KeyMaterial| k@)
}

/// Whether some key in `s` has identifier `id`.
pub open spec fn has_key_id(s: Seq<KeyMaterialView>, id: Seq<char>) -> bool {
    exists|i: int| 0 <= i < s.len() && #[trigger] s[i].key_id == id
}

/// No two keys in `s` share an identifier.
pub open spec fn key_ids_unique(s: Seq<KeyMaterialView>) -> bool {
    forall|i: int, j: int| 0 <= i < s.len() && 0 <= j < s.len() && i != j ==> #[trigger] s[i].key_id != #[trigger] s[j].key_id
}

/// The position of the key with identifier `id` in `s`.
pub open spec fn key_index(s: Seq<KeyMaterialView>, id: Seq<char>) -> int {
    choose|i: int| 0 <= i < s.len() && #[trigger] s[i].key_id == id
}

/// The key with identifier `id` in `s`, if any.
pub open spec fn find_key(s: Seq<KeyMaterialView>, id: Seq<char>) -> Option<KeyMaterialView> {
    if has_key_id(s, id) {
        Some(s[key_index(s, id)])
    } else {
        None
    }
}

/// In a sequence with unique identifiers, the key at position `k` is the one found under
/// its identifier.
pub proof fn lemma_key_index_unique(s: Seq<KeyMaterialView>, k: int)
    requires
        key_ids_unique(s),
        0 <= k < s.len(),
    ensures
        has_key_id(s, s[k].key_id),
        key_index(s, s[k].key_id) == k,
        find_key(s, s[k].key_id) == Some(s[k]),
{
    let id = s[k].key_id;
    assert(s[k].key_id == id);
    let c = key_index(s, id);
    assert(0 <= c < s.len() && s[c].key_id == id);
}

/// The keys of circuit `circuit_id`, in order.
pub open spec fn keys_for_circuit(s: Seq<KeyMaterialView>, circuit_id: Seq<char>) -> Seq<KeyMaterialView> {
    s.filter(|k: KeyMaterialView| k.circuit_id == circuit_id)
}

/// The first key of circuit `circuit_id` and kind `t`, if any.
pub open spec fn first_key_of(s: Seq<KeyMaterialView>, circuit_id: Seq<char>, t: KeyType) -> Option<KeyMaterialView>
    decreases s.len(),
{
    if s.len() == 0 {
        None
    } else if s[0].circuit_id == circuit_id && s[0].key_type == t {
        Some(s[0])
    } else {
        first_key_of(s.drop_first(), circuit_id, t)
    }
}

/// The error for a key identifier that is taken.
pub open spec fn key_exists_error(id: Seq<char>) -> ZkpErrorView {
    ZkpErrorView::KeyError("key "@ + id + " already exists"@)
}

/// The error for a key identifier that is not stored.
pub open spec fn key_not_found_error(id: Seq<char>) -> ZkpErrorView {
    ZkpErrorView::KeyError("Key "@ + id + " not found"@)
}

/// Storing one key: a key whose identifier is taken is refused, any other appended.
pub open spec fn store_step(s: Seq<KeyMaterialView>, k: KeyMaterialView) -> (Seq<KeyMaterialView>, Result<(), ZkpErrorView>) {
    if has_key_id(s, k.key_id) {
        (s, Err(key_exists_error(k.key_id)))
    } else {
        (s.push(k), Ok(()))
    }
}

/// Storing keys in order, stopping at the first refusal (what came before it stays).
pub open spec fn store_all(s: Seq<KeyMaterialView>, ks: Seq<KeyMaterialView>) -> (Seq<KeyMaterialView>, Result<(), ZkpErrorView>)
    decreases ks.len(),
{
    if ks.len() == 0 {
        (s, Ok(()))
    } else {
        let (s1, r1) = store_step(s, ks[0]);
        if r1 is Err {
            (s1, r1)
        } else {
            store_all(s1, ks.drop_first())
        }
    }
}

/// The outcome of looking up key `id`.
pub open spec fn get_key_outcome(s: Seq<KeyMaterialView>, id: Seq<char>) -> Result<KeyMaterialView, ZkpErrorView> {
    match find_key(s, id) {
        Some(k) => Ok(k),
        None => Err(key_not_found_error(id)),
    }
}

/// Whether key `k` has expired at time `now`.
pub open spec fn expired_at(k: KeyMaterialView, now: u64) -> bool {
    match k.expires_at {
        Some(e) => now >= e,
        None => false,
    }
}

/// The outcome of checking whether key `id` has expired at time `now`.
pub open spec fn expiry_outcome(s: Seq<KeyMaterialView>, id: Seq<char>, now: u64) -> Result<bool, ZkpErrorView> {
    match find_key(s, id) {
        Some(k) => Ok(expired_at(k, now)),
        None => Err(key_not_found_error(id)),
    }
}

/// The outcome of validating key `id` at time `now`.
pub open spec fn validate_key_outcome(s: Seq<KeyMaterialView>, id: Seq<char>, now: u64) -> Result<(), ZkpErrorView> {
    match find_key(s, id) {
        None => Err(key_not_found_error(id)),
        Some(k) => if expired_at(k, now) {
            Err(ZkpErrorView::KeyError("Key "@ + id + " is expired"@))
        } else if k.key_data.len() == 0 {
            Err(ZkpErrorView::KeyError("Key "@ + id + " has no data key"@))
        } else {
            Ok(())
        },
    }
}

/// The view of a built-in key whose data is the base64 text of `mock`.
pub open spec fn default_key_view(id: Seq<char>, t: KeyType, mock: Seq<char>, circuit_id: Seq<char>, created_at: u64) -> KeyMaterialView {
    KeyMaterialView {
        key_id: id,
        key_type: t,
        key_data: base64_text(vstd::utf8::encode_utf8(mock)),
        circuit_id,
        created_at,
        expires_at: None,
    }
}

/// The four built-in keys, created at the times `t`.
pub open spec fn default_keys(t: Seq<u64>) -> Seq<KeyMaterialView> {
    seq![
        default_key_view("age_proof_proving_key"@, KeyType::ProvingKey, "mock_age_proving_key"@, "age_proof"@, t[0]),
        default_key_view("age_proof_verification_key"@, KeyType::VerificationKey, "mock_age_verification_key"@, "age_proof"@, t[1]),
        default_key_view("ownership_proof_proving_key"@, KeyType::ProvingKey, "mock_ownership_proving_key"@, "ownership_proof"@, t[2]),
        default_key_view("ownership_proof_verification_key"@, KeyType::VerificationKey, "mock_ownership_verification_key"@, "ownership_proof"@, t[3]),
    ]
}

/// Builds a built-in key with the given creation time.
fn default_key(id: &str, t: KeyType, mock: &str, circuit_id: &str, created_at: u64) -> (res: KeyMaterial)
    ensures
        res@ == default_key_view(id@, t, mock@, circuit_id@, created_at),
{
    KeyMaterial {
        key_id: String::from_str(id),
        key_type: t,
        key_data: base64_encode(mock.as_bytes()),
        circuit_id: String::from_str(circuit_id),
        created_at,
        expires_at: None,
    }
}

/// Store of key material, keyed by key identifier.
pub struct KeyManager {
    keys: Vec<KeyMaterial>,
}

impl View for KeyManager {
    type V = Seq<KeyMaterialView>;

    /// The stored keys in the order in which they were stored.
    closed spec fn view(&self) -> Seq<KeyMaterialView> {
        keys_view(self.keys@)
    }
}

impl KeyManager {
    #[verifier::type_invariant]
    spec fn ids_unique(&self) -> bool {
        key_ids_unique(keys_view(self.keys@))
    }

    /// An empty store.
    pub fn new() -> (res: Self)
        ensures
            res@ == Seq::<KeyMaterialView>::empty(),
    {
        let res = KeyManager { keys: Vec::new() };
        assert(res@ =~= Seq::<KeyMaterialView>::empty());
        res
    }

    /// The stored identifiers are unique.
    pub fn ids_are_unique(&self)
        ensures
            key_ids_unique(self@),
    {
        proof {
            use_type_invariant(self);
        }
    }

    /// The position of the key with identifier `key_id`, if any.
    fn position(&self, key_id: &str) -> (res: Option<usize>)
        ensures
            match res {
                Some(k) => k < self@.len() && self@[k as int].key_id == key_id@ && key_index(self@, key_id@) == k
                    && find_key(self@, key_id@) == Some(self@[k as int]),
                None => !has_key_id(self@, key_id@) && find_key(self@, key_id@) is None,
            },
    {
        proof {
            use_type_invariant(self);
        }
        let key = String::from_str(key_id);
        let mut i: usize = 0;
        while i < self.keys.len()
            invariant
                i <= self.keys@.len(),
                key@ == key_id@,
                key_ids_unique(self@),
                forall|j: int| 0 <= j < i ==> #[trigger] self.keys@[j].key_id@ != key_id@,
            decreases self.keys@.len() - i,
        {
            if self.keys[i].key_id.eq(&key) {
                proof {
                    lemma_key_index_unique(self@, i as int);
                }
                return Some(i);
            }
            i = i + 1;
        }
        proof {
            if has_key_id(self@, key_id@) {
                let k = choose|k: int| 0 <= k < self@.len() && #[trigger] self@[k].key_id == key_id@;
                assert(self.keys@[k].key_id@ == key_id@);
            }
        }
        None
    }

    /// Stores a key; a key error when its identifier is taken, in which case nothing
    /// changes.
    pub fn store_key(&mut self, key: KeyMaterial) -> (res: ZkpResult<()>)
        ensures
            (final(self)@, result_view(res)) == store_step(old(self)@, key@),
    {
        proof {
            use_type_invariant(&*self);
        }
        if self.has_key(key.key_id.as_str()) {
            return Err(ZkpError::KeyError(concat3("key ", key.key_id.as_str(), " already exists")));
        }
        let ghost k = key@;
        let mut v: Vec<KeyMaterial> = Vec::new();
        std::mem::swap(&mut v, &mut self.keys);
        v.push(key);
        proof {
            assert(keys_view(v@) =~= old(self)@.push(k));
            assert forall|i: int, j: int|
                0 <= i < keys_view(v@).len() && 0 <= j < keys_view(v@).len() && i != j implies
                #[trigger] keys_view(v@)[i].key_id != #[trigger] keys_view(v@)[j].key_id by {
                if i == keys_view(v@).len() - 1 {
                    assert(old(self)@[j].key_id == keys_view(v@)[j].key_id);
                } else if j == keys_view(v@).len() - 1 {
                    assert(old(self)@[i].key_id == keys_view(v@)[i].key_id);
                }
            }
        }
        self.keys = v;
        Ok(())
    }

    /// The key with identifier `key_id`; a key error when there is none.
    pub fn get_key(&self, key_id: &str) -> (res: ZkpResult<KeyMaterial>)
        ensures
            result_view(res) == get_key_outcome(self@, key_id@),
    {
        match self.position(key_id) {
            Some(k) => Ok(self.keys[k].clone()),
            None => Err(ZkpError::KeyError(concat3("Key ", key_id, " not found"))),
        }
    }

    /// All keys of circuit `circuit_id`, in the order in which they were stored.
    pub fn get_keys_for_circuit(&self, circuit_id: &str) -> (res: Vec<KeyMaterial>)
        ensures
            keys_view(res@) == keys_for_circuit(self@, circuit_id@),
    {
        let ghost pred = |k: KeyMaterialView| k.circuit_id == circuit_id@;
        let cid = String::from_str(circuit_id);
        let mut res: Vec<KeyMaterial> = Vec::new();
        let mut i: usize = 0;
        while i < self.keys.len()
            invariant
                i <= self.keys@.len(),
                cid@ == circuit_id@,
                pred == (|k: KeyMaterialView| k.circuit_id == circuit_id@),
                keys_view(res@) == self@.take(i as int).filter(pred),
            decreases self.keys@.len() - i,
        {
            proof {
                assert(self@.take(i + 1) =~= self@.take(i as int).push(self@[i as int]));
                self@.take(i as int).lemma_filter_push(self@[i as int], pred);
            }
            if self.keys[i].circuit_id.eq(&cid) {
                let ghost before = res@;
                res.push(self.keys[i].clone());
                assert(keys_view(res@) =~= keys_view(before).push(self@[i as int]));
            }
            i = i + 1;
        }
        assert(self@.take(self@.len() as int) =~= self@);
        res
    }

    /// The first key of circuit `circuit_id` and kind `t`, if any.
    fn first_of_kind(&self, circuit_id: &str, t: KeyType) -> (res: Option<KeyMaterial>)
        ensures
            match res {
                Some(k) => first_key_of(self@, circuit_id@, t) == Some(k@),
                None => first_key_of(self@, circuit_id@, t) is None,
            },
    {
        let cid = String::from_str(circuit_id);
        let mut i: usize = 0;
        assert(self@.skip(0) =~= self@);
        while i < self.keys.len()
            invariant
                i <= self.keys@.len(),
                cid@ == circuit_id@,
                first_key_of(self@, circuit_id@, t) == first_key_of(self@.skip(i as int), circuit_id@, t),
            decreases self.keys@.len() - i,
        {
            assert(self@.skip(i as int)[0] == self@[i as int]);
            if self.keys[i].circuit_id.eq(&cid) && self.keys[i].key_type == t {
                return Some(self.keys[i].clone());
            }
            assert(self@.skip(i as int).drop_first() =~= self@.skip(i + 1));
            i = i + 1;
        }
        None
    }

    /// The first verification key of circuit `circuit_id`; a key error when it has none.
    pub fn get_verification_key(&self, circuit_id: &str) -> (res: ZkpResult<KeyMaterial>)
        ensures
            result_view(res) == match first_key_of(self@, circuit_id@, KeyType::VerificationKey) {
                Some(k) => Ok(k),
                None => Err(ZkpErrorView::KeyError("Verification key not found for circuit "@ + circuit_id@)),
            },
    {
        match self.first_of_kind(circuit_id, KeyType::VerificationKey) {
            Some(k) => Ok(k),
            None => Err(ZkpError::KeyError(crate::text::concat2("Verification key not found for circuit ", circuit_id))),
        }
    }

    /// The first proving key of circuit `circuit_id`; a key error when it has none.
    pub fn get_proving_key(&self, circuit_id: &str) -> (res: ZkpResult<KeyMaterial>)
        ensures
            result_view(res) == match first_key_of(self@, circuit_id@, KeyType::ProvingKey) {
                Some(k) => Ok(k),
                None => Err(ZkpErrorView::KeyError("Proving key not found for circuit "@ + circuit_id@)),
            },
    {
        match self.first_of_kind(circuit_id, KeyType::ProvingKey) {
            Some(k) => Ok(k),
            None => Err(ZkpError::KeyError(crate::text::concat2("Proving key not found for circuit ", circuit_id))),
        }
    }

    /// Removes the key with identifier `key_id` and returns it; a key error when there
    /// is none, in which case nothing changes.
    pub fn remove_key(&mut self, key_id: &str) -> (res: ZkpResult<KeyMaterial>)
        ensures
            match find_key(old(self)@, key_id@) {
                Some(k) => result_view(res) == Ok::<KeyMaterialView, ZkpErrorView>(k)
                    && final(self)@ == old(self)@.remove(key_index(old(self)@, key_id@)),
                None => result_view(res) == Err::<KeyMaterialView, ZkpErrorView>(
                    ZkpErrorView::KeyError("key "@ + key_id@ + " doens not exist"@),
                ) && final(self)@ == old(self)@,
            },
    {
        proof {
            use_type_invariant(&*self);
        }
        match self.position(key_id) {
            None => Err(ZkpError::KeyError(concat3("key ", key_id, " doens not exist"))),
            Some(k) => {
                let mut v: Vec<KeyMaterial> = Vec::new();
                std::mem::swap(&mut v, &mut self.keys);
                let removed = v.remove(k);
                proof {
                    assert(keys_view(v@) =~= old(self)@.remove(k as int));
                    assert forall|i: int, j: int|
                        0 <= i < keys_view(v@).len() && 0 <= j < keys_view(v@).len() && i != j implies
                        #[trigger] keys_view(v@)[i].key_id != #[trigger] keys_view(v@)[j].key_id by {
                        let oi = if i < k { i } else { i + 1 };
                        let oj = if j < k { j } else { j + 1 };
                        assert(old(self)@[oi].key_id == keys_view(v@)[i].key_id);
                        assert(old(self)@[oj].key_id == keys_view(v@)[j].key_id);
                    }
                }
                self.keys = v;
                Ok(removed)
            },
        }
    }

    /// Whether a key with identifier `key_id` is stored.
    pub fn has_key(&self, key_id: &str) -> (res: bool)
        ensures
            res == has_key_id(self@, key_id@),
    {
        self.position(key_id).is_some()
    }

    /// Number of stored keys.
    pub fn total_keys(&self) -> (res: usize)
        ensures
            res == self@.len(),
    {
        self.keys.len()
    }

    /// The identifiers of the keys of circuit `circuit_id`, in the order in which they
    /// were stored.
    pub fn list_circuit_keys(&self, circuit_id: &str) -> (res: Vec<String>)
        ensures
            crate::types::strings_view(res@) == keys_for_circuit(self@, circuit_id@).map_values(
                |k: KeyMaterialView| k.key_id,
            ),
    {
        let keys = self.get_keys_for_circuit(circuit_id);
        let mut res: Vec<String> = Vec::new();
        let mut i: usize = 0;
        while i < keys.len()
            invariant
                i <= keys@.len(),
                res@.len() == i,
                forall|j: int| 0 <= j < i ==> #[trigger] res@[j]@ == keys@[j].key_id@,
            decreases keys@.len() - i,
        {
            res.push(keys[i].key_id.clone());
            i = i + 1;
        }
        assert(crate::types::strings_view(res@) =~= keys_view(keys@).map_values(|k: KeyMaterialView| k.key_id));
        res
    }

    /// Whether the key with identifier `key_id` has expired at time `now`; a key error
    /// when there is none.
    pub fn is_key_expired_at(&self, key_id: &str, now: u64) -> (res: ZkpResult<bool>)
        ensures
            result_view(res) == expiry_outcome(self@, key_id@, now),
    {
        let key = match self.get_key(key_id) {
            Ok(k) => k,
            Err(e) => return Err(e),
        };
        match key.expires_at {
            Some(expires_at) => Ok(now >= expires_at),
            None => Ok(false),
        }
    }

    /// Whether the key with identifier `key_id` has expired at the current time; a key
    /// error when there is none.
    pub fn is_key_expired(&self, key_id: &str) -> (res: ZkpResult<bool>)
        ensures
            exists|now: u64| result_view(res) == expiry_outcome(self@, key_id@, now),
    {
        let now = current_timestamp();
        self.is_key_expired_at(key_id, now)
    }

    /// Checks at time `now` that key `key_id` exists, has not expired and has data.
    pub fn validate_key_at(&self, key_id: &str, now: u64) -> (res: ZkpResult<()>)
        ensures
            result_view(res) == validate_key_outcome(self@, key_id@, now),
    {
        let key = match self.get_key(key_id) {
            Ok(k) => k,
            Err(e) => return Err(e),
        };
        let expired = match self.is_key_expired_at(key_id, now) {
            Ok(b) => b,
            Err(e) => return Err(e),
        };
        if expired {
            return Err(ZkpError::KeyError(concat3("Key ", key_id, " is expired")));
        }
        if key.key_data.as_str().is_empty() {
            return Err(ZkpError::KeyError(concat3("Key ", key_id, " has no data key")));
        }
        Ok(())
    }

    /// Checks at the current time that key `key_id` exists, has not expired and has data.
    pub fn validate_key(&self, key_id: &str) -> (res: ZkpResult<()>)
        ensures
            exists|now: u64| result_view(res) == validate_key_outcome(self@, key_id@, now),
    {
        let now = current_timestamp();
        self.validate_key_at(key_id, now)
    }

    /// Stores `new_key` provided that a key `old_key_id` exists; the old key stays.
    pub fn rotate_key(&mut self, old_key_id: &str, new_key: KeyMaterial) -> (res: ZkpResult<()>)
        ensures
            match find_key(old(self)@, old_key_id@) {
                None => result_view(res) == Err::<(), ZkpErrorView>(key_not_found_error(old_key_id@))
                    && final(self)@ == old(self)@,
                Some(_) => (final(self)@, result_view(res)) == store_step(old(self)@, new_key@),
            },
    {
        match self.get_key(old_key_id) {
            Ok(_) => {},
            Err(e) => return Err(e),
        }
        self.store_key(new_key)
    }

    /// Stores the four built-in keys in order, each created at the current time,
    /// stopping at the first that is refused.
    pub fn load_default_keys(&mut self) -> (res: ZkpResult<()>)
        ensures
            exists|t: Seq<u64>| t.len() == 4 && (final(self)@, result_view(res)) == store_all(old(self)@, default_keys(t)),
    {
        proof {
            reveal_with_fuel(store_all, 5);
        }
        let t0 = current_timestamp();
        let r = self.store_key(default_key("age_proof_proving_key", KeyType::ProvingKey, "mock_age_proving_key", "age_proof", t0));
        if r.is_err() {
            let ghost t = seq![t0, 0, 0, 0];
            assert(t.len() == 4 && (self@, result_view(r)) == store_all(old(self)@, default_keys(t)));
            return r;
        }
        let t1 = current_timestamp();
        let r = self.store_key(default_key("age_proof_verification_key", KeyType::VerificationKey, "mock_age_verification_key", "age_proof", t1));
        if r.is_err() {
            let ghost t = seq![t0, t1, 0, 0];
            assert(t.len() == 4 && (self@, result_view(r)) == store_all(old(self)@, default_keys(t)));
            return r;
        }
        let t2 = current_timestamp();
        let r = self.store_key(default_key("ownership_proof_proving_key", KeyType::ProvingKey, "mock_ownership_proving_key", "ownership_proof", t2));
        if r.is_err() {
            let ghost t = seq![t0, t1, t2, 0];
            assert(t.len() == 4 && (self@, result_view(r)) == store_all(old(self)@, default_keys(t)));
            return r;
        }
        let t3 = current_timestamp();
        let r = self.store_key(default_key("ownership_proof_verification_key", KeyType::VerificationKey, "mock_ownership_verification_key", "ownership_proof", t3));
        let ghost t = seq![t0, t1, t2, t3];
        assert(t.len() == 4 && (self@, result_view(r)) == store_all(old(self)@, default_keys(t)));
        r
    }

    /// The data of the key with identifier `key_id`; a key error when there is none.
    pub fn export_key_data(&self, key_id: &str) -> (res: ZkpResult<String>)
        ensures
            result_view(res) == match find_key(self@, key_id@) {
                Some(k) => Ok(k.key_data),
                None => Err(key_not_found_error(key_id@)),
            },
    {
        let key = match self.get_key(key_id) {
            Ok(k) => k,
            Err(e) => return Err(e),
        };
        Ok(key.key_data)
    }
}

impl Default for KeyManager {
    fn default() -> (res: Self)
        ensures
            res@ == Seq::<KeyMaterialView>::empty(),
    {
        Self::new()
    }
}

} // verus!

verus! {

/// Storing a key under a fresh identifier succeeds, keeps identifiers unique, adds
/// exactly one key, and looking the identifier up then gives the key.
pub proof fn law_store_then_get(s: Seq<KeyMaterialView>, k: KeyMaterialView)
    requires
        key_ids_unique(s),
        !has_key_id(s, k.key_id),
    ensures
        store_step(s, k) == (s.push(k), Ok::<(), ZkpErrorView>(())),
        key_ids_unique(s.push(k)),
        s.push(k).len() == s.len() + 1,
        get_key_outcome(s.push(k), k.key_id) == Ok::<KeyMaterialView, ZkpErrorView>(k),
{
    let t = s.push(k);
    assert forall|i: int, j: int| 0 <= i < t.len() && 0 <= j < t.len() && i != j implies
        #[trigger] t[i].key_id != #[trigger] t[j].key_id by {
        if i == s.len() {
            assert(s[j].key_id == t[j].key_id);
        } else if j == s.len() {
            assert(s[i].key_id == t[i].key_id);
        } else {
            assert(s[i].key_id == t[i].key_id && s[j].key_id == t[j].key_id);
        }
    }
    lemma_key_index_unique(t, s.len() as int);
}

/// Storing a key whose identifier is taken is refused and changes nothing.
pub proof fn law_store_duplicate_refused(s: Seq<KeyMaterialView>, k: KeyMaterialView)
    requires
        has_key_id(s, k.key_id),
    ensures
        store_step(s, k) == (s, Err::<(), ZkpErrorView>(key_exists_error(k.key_id))),
{
}

/// Removing a key right after storing it under a fresh identifier gives it back and
/// restores the store.
pub proof fn law_remove_undoes_store(s: Seq<KeyMaterialView>, k: KeyMaterialView)
    requires
        key_ids_unique(s),
        !has_key_id(s, k.key_id),
    ensures
        find_key(s.push(k), k.key_id) == Some(k),
        s.push(k).remove(key_index(s.push(k), k.key_id)) == s,
{
    law_store_then_get(s, k);
    lemma_key_index_unique(s.push(k), s.len() as int);
    assert(s.push(k).remove(s.len() as int) =~= s);
}

/// The keys listed for a circuit are exactly the stored keys of that circuit: each
/// listed key belongs to it, and each stored key of it is listed.
pub proof fn law_keys_for_circuit(s: Seq<KeyMaterialView>, circuit_id: Seq<char>)
    ensures
        forall|i: int| 0 <= i < keys_for_circuit(s, circuit_id).len() ==>
            (#[trigger] keys_for_circuit(s, circuit_id)[i]).circuit_id == circuit_id
            && s.contains(keys_for_circuit(s, circuit_id)[i]),
        forall|i: int| 0 <= i < s.len() && (#[trigger] s[i]).circuit_id == circuit_id ==>
            keys_for_circuit(s, circuit_id).contains(s[i]),
{
    let p = |k: KeyMaterialView| k.circuit_id == circuit_id;
    assert forall|i: int| 0 <= i < keys_for_circuit(s, circuit_id).len() implies
        (#[trigger] keys_for_circuit(s, circuit_id)[i]).circuit_id == circuit_id
            && s.contains(keys_for_circuit(s, circuit_id)[i]) by {
        s.lemma_filter_pred(p, i);
        let f = s.filter(p);
        assert(f.contains(f[i]));
        s.lemma_filter_contains_rev(p, f[i]);
    }
    assert forall|i: int| 0 <= i < s.len() && (#[trigger] s[i]).circuit_id == circuit_id implies
        keys_for_circuit(s, circuit_id).contains(s[i]) by {
        s.lemma_filter_contains(p, i);
    }
}

/// A key without an expiry time never expires; one with an expiry time has expired
/// exactly from that time on.
pub proof fn law_expiry(k: KeyMaterialView, now: u64)
    ensures
        k.expires_at is None ==> !expired_at(k, now),
        k.expires_at matches Some(e) ==> (expired_at(k, now) <==> now >= e),
{
}

/// A stored key with data validates at any time before its expiry.
pub proof fn law_valid_key_validates(s: Seq<KeyMaterialView>, k: int, now: u64)
    requires
        key_ids_unique(s),
        0 <= k < s.len(),
        s[k].key_data.len() > 0,
        !expired_at(s[k], now),
    ensures
        validate_key_outcome(s, s[k].key_id, now) == Ok::<(), ZkpErrorView>(()),
{
    lemma_key_index_unique(s, k);
}

} // verus!

verus! {

/// Loading the built-in keys into an empty store stores all four, in order, whatever
/// their creation times.
pub proof fn law_default_keys_load_into_empty(t: Seq<u64>)
    requires
        t.len() == 4,
    ensures
        store_all(Seq::<KeyMaterialView>::empty(), default_keys(t)) == (default_keys(t), Ok::<(), ZkpErrorView>(())),
{
    reveal_with_fuel(store_all, 5);
    reveal_strlit("age_proof_proving_key");
    reveal_strlit("age_proof_verification_key");
    reveal_strlit("ownership_proof_proving_key");
    reveal_strlit("ownership_proof_verification_key");
    let d = default_keys(t);
    assert(d[0].key_id.len() == 21 && d[1].key_id.len() == 26 && d[2].key_id.len() == 27 && d[3].key_id.len() == 32);
    let s0 = Seq::<KeyMaterialView>::empty();
    let s1 = s0.push(d[0]);
    let s2 = s1.push(d[1]);
    let s3 = s2.push(d[2]);
    assert(!has_key_id(s0, d[0].key_id));
    assert(!has_key_id(s1, d[1].key_id)) by {
        if has_key_id(s1, d[1].key_id) {
            let i = choose|i: int| 0 <= i < s1.len() && #[trigger] s1[i].key_id == d[1].key_id;
            assert(s1[i] == d[0]);
        }
    }
    assert(!has_key_id(s2, d[2].key_id)) by {
        if has_key_id(s2, d[2].key_id) {
            let i = choose|i: int| 0 <= i < s2.len() && #[trigger] s2[i].key_id == d[2].key_id;
            assert(s2[i] == d[0] || s2[i] == d[1]);
        }
    }
    assert(!has_key_id(s3, d[3].key_id)) by {
        if has_key_id(s3, d[3].key_id) {
            let i = choose|i: int| 0 <= i < s3.len() && #[trigger] s3[i].key_id == d[3].key_id;
            assert(s3[i] == d[0] || s3[i] == d[1] || s3[i] == d[2]);
        }
    }
    assert(d.drop_first().drop_first().drop_first().drop_first() =~= Seq::<KeyMaterialView>::empty());
    assert(s3.push(d[3]) =~= d);
}


/// A stored key without data never validates, whatever its type; before its expiry
/// the answer is that it has no data.
pub proof fn law_key_without_data_refused(s: Seq<KeyMaterialView>, k: int, now: u64)
    requires
        key_ids_unique(s),
        0 <= k < s.len(),
        s[k].key_data.len() == 0,
    ensures
        validate_key_outcome(s, s[k].key_id, now) is Err,
        (match s[k].expires_at {
            Some(e) => now < e,
            None => true,
        }) ==> validate_key_outcome(s, s[k].key_id, now)
            == Err::<(), ZkpErrorView>(ZkpErrorView::KeyError("Key "@ + s[k].key_id + " has no data key"@)),
{
    lemma_key_index_unique(s, k);
}


/// A key that is not stored does not validate: the answer is that it is not found.
pub proof fn law_missing_key_refused(s: Seq<KeyMaterialView>, id: Seq<char>, now: u64)
    requires
        !has_key_id(s, id),
    ensures
        validate_key_outcome(s, id, now) == Err::<(), ZkpErrorView>(ZkpErrorView::KeyError("Key "@ + id + " not found"@)),
{
}

/// A stored key does not validate from its expiry time on, whatever its data or type:
/// the answer is that it has expired.
pub proof fn law_expired_key_refused(s: Seq<KeyMaterialView>, k: int, now: u64, e: u64)
    requires
        key_ids_unique(s),
        0 <= k < s.len(),
        s[k].expires_at == Some(e),
        now >= e,
    ensures
        validate_key_outcome(s, s[k].key_id, now)
            == Err::<(), ZkpErrorView>(ZkpErrorView::KeyError("Key "@ + s[k].key_id + " is expired"@)),
{
    lemma_key_index_unique(s, k);
}

} // verus!
