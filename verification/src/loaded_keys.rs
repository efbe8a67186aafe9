//! Key data loaded per circuit, as held by the prover and the verifier.

use vstd::prelude::*;

verus! {

/// The views of the table's entries: circuit identifier and key data.
pub open spec fn table_view(v: Seq<(String, String)>) -> Seq<(Seq<char>, Seq<char>)> {
    v.map_values(|e: (String, String)| (e.0@, e.1@))
}

/// Whether key data is loaded for circuit `id`.
pub open spec fn table_has(s: Seq<(Seq<char>, Seq<char>)>, id: Seq<char>) -> bool {
    exists|i: int| 0 <= i < s.len() && #[trigger] s[i].0 == id
}

/// No circuit has two entries.
pub open spec fn table_unique(s: Seq<(Seq<char>, Seq<char>)>) -> bool {
    forall|i: int, j: int| 0 <= i < s.len() && 0 <= j < s.len() && i != j ==> #[trigger] s[i].0 != #[trigger] s[j].0
}

/// The position of circuit `id`'s entry.
pub open spec fn table_index(s: Seq<(Seq<char>, Seq<char>)>, id: Seq<char>) -> int {
    choose|i: int| 0 <= i < s.len() && #[trigger] s[i].0 == id
}

/// The key data loaded for circuit `id`, if any.
pub open spec fn table_get(s: Seq<(Seq<char>, Seq<char>)>, id: Seq<char>) -> Option<Seq<char>> {
    if table_has(s, id) {
        Some(s[table_index(s, id)].1)
    } else {
        None
    }
}

/// Loading key data for circuit `id`: it replaces what was loaded for that circuit, or
/// is added.
pub open spec fn table_insert(s: Seq<(Seq<char>, Seq<char>)>, id: Seq<char>, data: Seq<char>) -> Seq<(Seq<char>, Seq<char>)> {
    if table_has(s, id) {
        s.update(table_index(s, id), (id, data))
    } else {
        s.push((id, data))
    }
}

/// In a table with unique circuits, the entry at position `k` is the one found under its
/// circuit.
pub proof fn lemma_table_index_unique(s: Seq<(Seq<char>, Seq<char>)>, k: int)
    requires
        table_unique(s),
        0 <= k < s.len(),
    ensures
        table_has(s, s[k].0),
        table_index(s, s[k].0) == k,
{
    let id = s[k].0;
    assert(s[k].0 == id);
    let c = table_index(s, id);
    assert(0 <= c < s.len() && s[c].0 == id);
}

/// Key data per circuit identifier; loading again for a circuit replaces its data.
pub struct KeyTable {
    entries: Vec<(String, String)>,
}

impl View for KeyTable {
    type V = Seq<(Seq<char>, Seq<char>)>;

    closed spec fn view(&self) -> Seq<(Seq<char>, Seq<char>)> {
        table_view(self.entries@)
    }
}

impl KeyTable {
    #[verifier::type_invariant]
    spec fn unique(&self) -> bool {
        table_unique(table_view(self.entries@))
    }

    /// An empty table.
    pub fn new() -> (res: Self)
        ensures
            res@ == Seq::<(Seq<char>, Seq<char>)>::empty(),
    {
        let res = KeyTable { entries: Vec::new() };
        assert(res@ =~= Seq::<(Seq<char>, Seq<char>)>::empty());
        res
    }

    /// Each circuit has at most one entry.
    pub fn entries_are_unique(&self)
        ensures
            table_unique(self@),
    {
        proof {
            use_type_invariant(self);
        }
    }

    /// The position of circuit `id`'s entry, if any.
    fn position(&self, id: &str) -> (res: Option<usize>)
        ensures
            match res {
                Some(k) => k < self@.len() && self@[k as int].0 == id@ && table_index(self@, id@) == k
                    && table_has(self@, id@),
                None => !table_has(self@, id@),
            },
    {
        proof {
            use_type_invariant(self);
        }
        let key = String::from_str(id);
        let mut i: usize = 0;
        while i < self.entries.len()
            invariant
                i <= self.entries@.len(),
                key@ == id@,
                table_unique(self@),
                forall|j: int| 0 <= j < i ==> #[trigger] self.entries@[j].0@ != id@,
            decreases self.entries@.len() - i,
        {
            if self.entries[i].0.eq(&key) {
                proof {
                    lemma_table_index_unique(self@, i as int);
                }
                return Some(i);
            }
            i = i + 1;
        }
        proof {
            if table_has(self@, id@) {
                let k = choose|k: int| 0 <= k < self@.len() && #[trigger] self@[k].0 == id@;
                assert(self.entries@[k].0@ == id@);
            }
        }
        None
    }

    /// Whether key data is loaded for circuit `id`.
    pub fn contains(&self, id: &str) -> (res: bool)
        ensures
            res == table_has(self@, id@),
    {
        self.position(id).is_some()
    }

    /// Loads `data` for circuit `id`, replacing any earlier data for it.
    pub fn insert(&mut self, id: &str, data: String)
        ensures
            final(self)@ == table_insert(old(self)@, id@, data@),
    {
        proof {
            use_type_invariant(&*self);
        }
        let ghost e = (id@, data@);
        let pos = self.position(id);
        let mut v: Vec<(String, String)> = Vec::new();
        std::mem::swap(&mut v, &mut self.entries);
        match pos {
            Some(k) => {
                v.set(k, (String::from_str(id), data));
                proof {
                    assert(table_view(v@) =~= old(self)@.update(k as int, e));
                    assert forall|i: int, j: int|
                        0 <= i < table_view(v@).len() && 0 <= j < table_view(v@).len() && i != j implies
                        #[trigger] table_view(v@)[i].0 != #[trigger] table_view(v@)[j].0 by {
                        assert(old(self)@[i].0 == table_view(v@)[i].0);
                        assert(old(self)@[j].0 == table_view(v@)[j].0);
                    }
                }
            },
            None => {
                v.push((String::from_str(id), data));
                proof {
                    assert(table_view(v@) =~= old(self)@.push(e));
                    assert forall|i: int, j: int|
                        0 <= i < table_view(v@).len() && 0 <= j < table_view(v@).len() && i != j implies
                        #[trigger] table_view(v@)[i].0 != #[trigger] table_view(v@)[j].0 by {
                        if i == table_view(v@).len() - 1 {
                            assert(old(self)@[j].0 == table_view(v@)[j].0);
                        } else if j == table_view(v@).len() - 1 {
                            assert(old(self)@[i].0 == table_view(v@)[i].0);
                        }
                    }
                }
            },
        }
        self.entries = v;
    }
}

} // verus!

verus! {

/// Loading key data for a circuit keeps one entry per circuit, and the data is then
/// what the table holds for that circuit, whether or not it held data before.
pub proof fn law_insert_then_get(s: Seq<(Seq<char>, Seq<char>)>, id: Seq<char>, data: Seq<char>)
    requires
        table_unique(s),
    ensures
        table_unique(table_insert(s, id, data)),
        table_has(table_insert(s, id, data), id),
        table_get(table_insert(s, id, data), id) == Some(data),
{
    let t = table_insert(s, id, data);
    if table_has(s, id) {
        let k = table_index(s, id);
        assert forall|i: int, j: int| 0 <= i < t.len() && 0 <= j < t.len() && i != j implies
            #[trigger] t[i].0 != #[trigger] t[j].0 by {
            assert(s[i].0 == t[i].0 && s[j].0 == t[j].0);
        }
        lemma_table_index_unique(t, k);
    } else {
        assert forall|i: int, j: int| 0 <= i < t.len() && 0 <= j < t.len() && i != j implies
            #[trigger] t[i].0 != #[trigger] t[j].0 by {
            if i == s.len() {
                assert(s[j].0 == t[j].0);
            } else if j == s.len() {
                assert(s[i].0 == t[i].0);
            } else {
                assert(s[i].0 == t[i].0 && s[j].0 == t[j].0);
            }
        }
        lemma_table_index_unique(t, s.len() as int);
    }
}

} // verus!
