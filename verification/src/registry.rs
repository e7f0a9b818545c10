//! A small verified association table keyed by strings. It stands in for a
//! hash map wherever the runtime keeps named things (nodes, edges, per-node
//! configuration, context metadata): lookups go by string content, an insert
//! with an existing key overwrites the previous entry, and the insertion
//! order of first occurrences is kept (the first registered key is
//! observable, which the engine's start-node fallback relies on).

use vstd::prelude::*;
use crate::text::str_equal;

verus! {

/// Index of the first entry of `keys` whose content is `k`, or -1.
pub open spec fn find_key(keys: Seq<String>, k: Seq<char>) -> int
    decreases keys.len(),
{
    if keys.len() == 0 {
        -1
    } else if keys[0]@ == k {
        0
    } else {
        let r = find_key(keys.drop_first(), k);
        if r == -1 {
            -1
        } else {
            r + 1
        }
    }
}

/// Basic facts about `find_key`: it is a valid index or -1, it points at a
/// matching key, and everything before it differs from `k`.
proof fn lemma_find_key_props(keys: Seq<String>, k: Seq<char>)
    ensures
        -1 <= find_key(keys, k) < keys.len(),
        find_key(keys, k) >= 0 ==> keys[find_key(keys, k)]@ == k,
        find_key(keys, k) == -1 ==> forall|i: int| 0 <= i < keys.len() ==> keys[i]@ != k,
        forall|i: int| 0 <= i < find_key(keys, k) ==> keys[i]@ != k,
    decreases keys.len(),
{
    if keys.len() == 0 {
    } else if keys[0]@ == k {
    } else {
        lemma_find_key_props(keys.drop_first(), k);
        assert forall|i: int| 0 <= i < keys.len() && i >= 1 implies keys[i]
            == keys.drop_first()[i - 1] by {}
        if find_key(keys, k) == -1 {
            assert forall|i: int| 0 <= i < keys.len() implies keys[i]@ != k by {
                if i >= 1 {
                    assert(keys[i] == keys.drop_first()[i - 1]);
                }
            }
        }
        assert forall|i: int| 0 <= i < find_key(keys, k) implies keys[i]@ != k by {
            if i >= 1 {
                assert(keys[i] == keys.drop_first()[i - 1]);
            }
        }
    }
}

/// How `find_key` behaves when one more key is pushed at the end.
proof fn lemma_find_key_push(keys: Seq<String>, key2: String, k: Seq<char>)
    ensures
        find_key(keys.push(key2), k) == if find_key(keys, k) >= 0 {
            find_key(keys, k)
        } else if key2@ == k {
            keys.len() as int
        } else {
            -1
        },
    decreases keys.len(),
{
    let p = keys.push(key2);
    if keys.len() == 0 {
        assert(p.len() == 1);
        assert(p[0] == key2);
        if p[0]@ == k {
            assert(find_key(p, k) == 0);
        } else {
            assert(p.drop_first() =~= Seq::<String>::empty());
            assert(find_key(p.drop_first(), k) == -1);
            assert(find_key(p, k) == -1);
        }
    } else {
        assert(p[0] == keys[0]);
        assert(p.drop_first() =~= keys.drop_first().push(key2));
        lemma_find_key_push(keys.drop_first(), key2, k);
        assert(find_key(p.drop_first(), k) == find_key(keys.drop_first().push(key2), k));
    }
}

/// When entry `i` is the first with its content, `find_key` returns `i`.
proof fn lemma_find_at(keys: Seq<String>, i: int)
    requires
        0 <= i < keys.len(),
        forall|j: int| 0 <= j < i ==> keys[j]@ != keys[i]@,
    ensures
        find_key(keys, keys[i]@) == i,
{
    let k = keys[i]@;
    lemma_find_key_props(keys, k);
    let f = find_key(keys, k);
    if f == -1 {
        assert(keys[i]@ != k);
    } else if f < i {
        assert(keys[f]@ != keys[i]@);
        assert(keys[f]@ == k);
    } else if f > i {
        assert(keys[i]@ != k);
    }
}

/// An association table from string keys to values of type `V`.
#[derive(Debug)]
pub struct Registry<V> {
    keys: Vec<String>,
    vals: Vec<V>,
}

impl<V> View for Registry<V> {
    type V = Map<Seq<char>, V>;

    closed spec fn view(&self) -> Map<Seq<char>, V> {
        Map::new(
            |k: Seq<char>| find_key(self.keys@, k) >= 0,
            |k: Seq<char>| self.vals@[find_key(self.keys@, k)],
        )
    }
}

impl<V> Registry<V> {
    /// The two columns of the table are aligned.
    pub closed spec fn wf(&self) -> bool {
        self.keys@.len() == self.vals@.len()
    }

    /// The key contents, in insertion order of first occurrences.
    pub closed spec fn spec_key_views(&self) -> Seq<Seq<char>> {
        self.keys@.map_values(|s: String| s@)
    }

    /// `spec_key_views` is the pointwise content of the key column.
    proof fn lemma_key_views(&self)
        ensures
            self.spec_key_views().len() == self.keys@.len(),
            forall|j: int|
                0 <= j < self.keys@.len() ==> #[trigger] self.spec_key_views()[j]
                    == self.keys@[j]@,
    {
    }

    /// The domain of the view is exactly the set of key contents.
    pub proof fn lemma_dom_is_keys(&self)
        ensures
            forall|k: Seq<char>| #[trigger]
                self@.dom().contains(k) <==> self.spec_key_views().contains(k),
    {
        assert forall|k: Seq<char>| #[trigger] self@.dom().contains(k) implies self
            .spec_key_views()
            .contains(k) by {
            lemma_find_key_props(self.keys@, k);
            let i = find_key(self.keys@, k);
            assert(self.spec_key_views()[i] == k);
        }
        assert forall|k: Seq<char>| self.spec_key_views().contains(k) implies self
            @
            .dom()
            .contains(k) by {
            let i = choose|i: int|
                0 <= i < self.spec_key_views().len() && self.spec_key_views()[i] == k;
            assert(self.keys@[i]@ == k);
            lemma_find_key_props(self.keys@, k);
        }
    }

    /// An empty table.
    pub fn new() -> (r: Self)
        ensures
            r.wf(),
            r@ =~= Map::<Seq<char>, V>::empty(),
            r.spec_key_views() =~= Seq::<Seq<char>>::empty(),
    {
        let r = Registry { keys: Vec::new(), vals: Vec::new() };
        proof {
            assert forall|k: Seq<char>| !(#[trigger] r@.dom().contains(k)) by {
                lemma_find_key_props(r.keys@, k);
            }
        }
        r
    }

    /// Number of entries.
    pub fn len(&self) -> (r: usize)
        ensures
            r == self.spec_key_views().len(),
    {
        self.keys.len()
    }

    /// Whether the table has no entries; an empty table has an empty view.
    pub fn is_empty(&self) -> (r: bool)
        ensures
            r == (self.spec_key_views().len() == 0),
            r ==> self@.dom() =~= Set::<Seq<char>>::empty(),
    {
        let r = self.keys.len() == 0;
        proof {
            if r {
                assert forall|k: Seq<char>| !(#[trigger] self@.dom().contains(k)) by {
                    lemma_find_key_props(self.keys@, k);
                }
            }
        }
        r
    }

    /// The first registered key (by first occurrence).
    pub fn first_key(&self) -> (r: &String)
        requires
            self.spec_key_views().len() > 0,
        ensures
            r@ == self.spec_key_views()[0],
            self@.dom().contains(r@),
    {
        let r = &self.keys[0];
        proof {
            assert(find_key(self.keys@, r@) == 0);
        }
        r
    }

    /// Index of the first entry with key content `k`, if any.
    pub fn index_of(&self, k: &str) -> (r: Option<usize>)
        requires
            self.wf(),
        ensures
            match r {
                Some(i) => {
                    &&& 0 <= i < self.spec_key_views().len()
                    &&& self.spec_key_views()[i as int] == k@
                    &&& forall|j: int| 0 <= j < i ==> self.spec_key_views()[j] != k@
                    &&& self@.dom().contains(k@)
                },
                None => !self@.dom().contains(k@),
            },
    {
        let n = self.keys.len();
        let mut i: usize = 0;
        while i < n
            invariant
                0 <= i <= n,
                n == self.keys@.len(),
                self.wf(),
                forall|j: int| 0 <= j < i ==> self.keys@[j]@ != k@,
            decreases n - i,
        {
            if str_equal(self.keys[i].as_str(), k) {
                proof {
                    lemma_find_key_props(self.keys@, k@);
                    assert(find_key(self.keys@, k@) == i);
                }
                return Some(i);
            }
            i += 1;
        }
        proof {
            lemma_find_key_props(self.keys@, k@);
        }
        None
    }

    /// The value stored for the entry at `i`, when `i` is the first entry
    /// with its key content.
    pub fn val_at(&self, i: usize) -> (r: &V)
        requires
            self.wf(),
            i < self.spec_key_views().len(),
            forall|j: int| 0 <= j < i ==> self.spec_key_views()[j] != self.spec_key_views()[i as int],
        ensures
            self@.dom().contains(self.spec_key_views()[i as int]),
            *r == self@[self.spec_key_views()[i as int]],
    {
        proof {
            self.lemma_key_views();
            assert forall|j: int| 0 <= j < i implies self.keys@[j]@ != self.keys@[
                i as int
            ]@ by {
                assert(self.spec_key_views()[j] == self.keys@[j]@);
                assert(self.spec_key_views()[i as int] == self.keys@[i as int]@);
            }
            lemma_find_at(self.keys@, i as int);
        }
        &self.vals[i]
    }

    /// Whether some entry has key content `k`.
    pub fn contains_key(&self, k: &str) -> (r: bool)
        requires
            self.wf(),
        ensures
            r == self@.dom().contains(k@),
            r == self.spec_key_views().contains(k@),
    {
        proof {
            self.lemma_dom_is_keys();
        }
        match self.index_of(k) {
            Some(_) => true,
            None => {
                proof {
                    self.lemma_dom_is_keys();
                }
                false
            },
        }
    }

    /// Read access to the value stored under `k`, if any.
    pub fn get(&self, k: &str) -> (r: Option<&V>)
        requires
            self.wf(),
        ensures
            match r {
                Some(v) => self@.dom().contains(k@) && *v == self@[k@],
                None => !self@.dom().contains(k@),
            },
    {
        match self.index_of(k) {
            Some(i) => Some(self.val_at(i)),
            None => None,
        }
    }

    /// Stores `v` under `key`; a previous entry with the same content is
    /// overwritten, otherwise the entry is appended.
    pub fn insert(&mut self, key: String, v: V)
        requires
            old(self).wf(),
        ensures
            final(self).wf(),
            final(self)@ =~= old(self)@.insert(key@, v),
            final(self).spec_key_views() == if old(self)@.dom().contains(key@) {
                old(self).spec_key_views()
            } else {
                old(self).spec_key_views().push(key@)
            },
    {
        let idx = self.index_of(key.as_str());
        match idx {
            Some(i) => {
                self.vals[i] = v;
                proof {
                    let keys = self.keys@;
                    let k = key@;
                    self.lemma_key_views();
                    assert forall|j: int| 0 <= j < i implies keys[j]@ != keys[i as int]@ by {
                        assert(self.spec_key_views()[j] == keys[j]@);
                        assert(self.spec_key_views()[i as int] == keys[i as int]@);
                    }
                    assert(keys[i as int]@ == k);
                    lemma_find_at(keys, i as int);
                    lemma_find_key_props(keys, k);
                    assert forall|k2: Seq<char>|
                        #[trigger] find_key(keys, k2) >= 0 && k2 != k implies find_key(keys, k2)
                        != i by {
                        lemma_find_key_props(keys, k2);
                    }
                    assert(self.vals@ == old(self).vals@.update(i as int, v));
                    let m1 = self@;
                    let m2 = old(self)@.insert(k, v);
                    assert forall|k2: Seq<char>| #[trigger] m1.dom().contains(k2) implies m2
                        .dom()
                        .contains(k2) && m1[k2] == m2[k2] by {
                        lemma_find_key_props(keys, k2);
                    }
                    assert forall|k2: Seq<char>| #[trigger] m2.dom().contains(k2) implies m1
                        .dom()
                        .contains(k2) by {}
                    assert(m1 =~= m2);
                }
            },
            None => {
                let ghost oldkeys = self.keys@;
                let ghost oldvals = self.vals@;
                self.keys.push(key);
                self.vals.push(v);
                proof {
                    assert(self.keys@ == oldkeys.push(key));
                    assert(self.vals@ == oldvals.push(v));
                    assert forall|k2: Seq<char>| true implies #[trigger] find_key(
                        self.keys@,
                        k2,
                    ) == if find_key(oldkeys, k2) >= 0 {
                        find_key(oldkeys, k2)
                    } else if key@ == k2 {
                        oldkeys.len() as int
                    } else {
                        -1
                    } by {
                        lemma_find_key_push(oldkeys, key, k2);
                    }
                    assert forall|k2: Seq<char>| find_key(oldkeys, k2) >= 0 implies self.vals@[
                        find_key(oldkeys, k2)
                    ] == oldvals[find_key(oldkeys, k2)] by {
                        lemma_find_key_props(oldkeys, k2);
                    }
                    assert(self.spec_key_views() =~= old(self).spec_key_views().push(key@));
                    let m1 = self@;
                    let m2 = old(self)@.insert(key@, v);
                    assert forall|k2: Seq<char>| #[trigger] m1.dom().contains(k2) implies m2
                        .dom()
                        .contains(k2) && m1[k2] == m2[k2] by {
                        lemma_find_key_props(oldkeys, k2);
                    }
                    assert forall|k2: Seq<char>| #[trigger] m2.dom().contains(k2) implies m1
                        .dom()
                        .contains(k2) by {
                        lemma_find_key_props(oldkeys, k2);
                    }
                    assert(m1 =~= m2);
                }
            },
        }
    }
}

impl Registry<String> {
    /// A content-equal copy of a table of strings.
    pub fn duplicate(&self) -> (r: Self)
        ensures
            r.wf(),
            self.wf() ==> r@ == self@ && r.spec_key_views() == self.spec_key_views(),
    {
        let n = if self.keys.len() < self.vals.len() {
            self.keys.len()
        } else {
            self.vals.len()
        };
        let mut keys: Vec<String> = Vec::new();
        let mut vals: Vec<String> = Vec::new();
        let mut i: usize = 0;
        while i < n
            invariant
                0 <= i <= n,
                n <= self.keys@.len(),
                n <= self.vals@.len(),
                keys@.len() == i,
                vals@.len() == i,
                forall|j: int| 0 <= j < i ==> keys@[j] == self.keys@[j],
                forall|j: int| 0 <= j < i ==> vals@[j] == self.vals@[j],
            decreases n - i,
        {
            keys.push(self.keys[i].clone());
            vals.push(self.vals[i].clone());
            i += 1;
        }
        let r = Registry { keys, vals };
        proof {
            if self.wf() {
                assert(r.keys@ =~= self.keys@);
                assert(r.vals@ =~= self.vals@);
            }
        }
        r
    }
}

} // verus!
