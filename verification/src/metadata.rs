//! The metadata attached to a memory: a map from names to small JSON values.
use vstd::prelude::*;

verus! {

/// A metadata value: the JSON values the bridge stores are strings,
/// non-negative integers and booleans.
#[derive(Debug)]
pub enum MetaValue {
    Text(String),
    Number(u64),
    Flag(bool),
}

/// The mathematical value of a [`MetaValue`].
pub enum MetaModel {
    Text(Seq<char>),
    Number(nat),
    Flag(bool),
}

impl View for MetaValue {
    type V = MetaModel;

    open spec fn view(&self) -> MetaModel {
        match self {
            MetaValue::Text(s) => MetaModel::Text(s@),
            MetaValue::Number(n) => MetaModel::Number(*n as nat),
            MetaValue::Flag(b) => MetaModel::Flag(*b),
        }
    }
}

/// One named metadata value.
#[derive(Debug)]
pub struct MetaEntry {
    pub key: String,
    pub value: MetaValue,
}

/// The value stored under `k`: the last entry that has that key.
pub open spec fn find_entry(entries: Seq<MetaEntry>, k: Seq<char>) -> Option<MetaModel>
    decreases entries.len(),
{
    if entries.len() == 0 {
        None
    } else if entries.last().key@ == k {
        Some(entries.last().value@)
    } else {
        find_entry(entries.drop_last(), k)
    }
}

/// No two entries have the same key.
pub open spec fn keys_distinct(entries: Seq<MetaEntry>) -> bool {
    forall|i: int, j: int|
        0 <= i < entries.len() && 0 <= j < entries.len() && i != j ==> entries[i].key@
            != entries[j].key@
}

impl Clone for MetaValue {
    fn clone(&self) -> (res: Self)
        ensures
            res == *self,
    {
        match self {
            MetaValue::Text(s) => MetaValue::Text(s.clone()),
            MetaValue::Number(n) => MetaValue::Number(*n),
            MetaValue::Flag(b) => MetaValue::Flag(*b),
        }
    }
}

impl Clone for MetaEntry {
    fn clone(&self) -> (res: Self)
        ensures
            res == *self,
    {
        MetaEntry { key: self.key.clone(), value: self.value.clone() }
    }
}

/// A map from names to values, each name at most once.
#[derive(Debug)]
pub struct Metadata {
    entries: Vec<MetaEntry>,
}

impl View for Metadata {
    type V = Map<Seq<char>, MetaModel>;

    closed spec fn view(&self) -> Map<Seq<char>, MetaModel> {
        Map::new(
            |k: Seq<char>| find_entry(self.entries@, k) is Some,
            |k: Seq<char>| find_entry(self.entries@, k)->0,
        )
    }
}

proof fn lemma_find_absent(entries: Seq<MetaEntry>, k: Seq<char>)
    requires
        forall|i: int| 0 <= i < entries.len() ==> entries[i].key@ != k,
    ensures
        find_entry(entries, k) is None,
    decreases entries.len(),
{
    if entries.len() > 0 {
        lemma_find_absent(entries.drop_last(), k);
    }
}

proof fn lemma_find_at(entries: Seq<MetaEntry>, i: int)
    requires
        keys_distinct(entries),
        0 <= i < entries.len(),
    ensures
        find_entry(entries, entries[i].key@) == Some(entries[i].value@),
    decreases entries.len(),
{
    if i < entries.len() - 1 {
        lemma_find_at(entries.drop_last(), i);
    }
}

proof fn lemma_find_update(entries: Seq<MetaEntry>, i: int, e: MetaEntry, k: Seq<char>)
    requires
        0 <= i < entries.len(),
        entries[i].key@ == e.key@,
        keys_distinct(entries),
    ensures
        find_entry(entries.update(i, e), k) == if k == e.key@ {
            Some(e.value@)
        } else {
            find_entry(entries, k)
        },
    decreases entries.len(),
{
    let u = entries.update(i, e);
    if i == entries.len() - 1 {
        assert(u.drop_last() =~= entries.drop_last());
    } else {
        assert(u.drop_last() =~= entries.drop_last().update(i, e));
        lemma_find_update(entries.drop_last(), i, e, k);
        if k == e.key@ {
            assert(entries.last().key@ != entries[i].key@);
        }
    }
}

impl Clone for Metadata {
    fn clone(&self) -> (res: Self)
        ensures
            res@ == self@,
    {
        proof {
            use_type_invariant(self);
        }
        let mut entries: Vec<MetaEntry> = Vec::new();
        let mut i: usize = 0;
        while i < self.entries.len()
            invariant
                keys_distinct(self.entries@),
                i <= self.entries@.len(),
                entries@ =~= self.entries@.take(i as int),
            decreases self.entries.len() - i,
        {
            entries.push(self.entries[i].clone());
            i = i + 1;
        }
        assert(entries@ =~= self.entries@);
        Metadata { entries }
    }
}

proof fn lemma_update_view(entries: Seq<MetaEntry>, i: int, e: MetaEntry)
    requires
        0 <= i < entries.len(),
        entries[i].key@ == e.key@,
        keys_distinct(entries),
    ensures
        keys_distinct(entries.update(i, e)),
        forall|k: Seq<char>|
            #![trigger find_entry(entries.update(i, e), k)]
            find_entry(entries.update(i, e), k) == if k == e.key@ {
                Some(e.value@)
            } else {
                find_entry(entries, k)
            },
{
    assert forall|k: Seq<char>|
        #![trigger find_entry(entries.update(i, e), k)]
        find_entry(entries.update(i, e), k) == if k == e.key@ {
            Some(e.value@)
        } else {
            find_entry(entries, k)
        } by {
        lemma_find_update(entries, i, e, k);
    }
}

impl Metadata {
    /// Every key occurs once.
    #[verifier::type_invariant]
    closed spec fn wf(&self) -> bool {
        keys_distinct(self.entries@)
    }

    /// An empty map.
    pub fn new() -> (m: Self)
        ensures
            m@ == Map::<Seq<char>, MetaModel>::empty(),
    {
        let m = Metadata { entries: Vec::new() };
        assert(m@ =~= Map::<Seq<char>, MetaModel>::empty());
        m
    }

    /// Number of keys.
    pub fn len(&self) -> (n: usize)
        ensures
            self@.dom().finite(),
            n == self@.dom().len(),
    {
        proof {
            use_type_invariant(self);
            self.lemma_dom_len();
        }
        self.entries.len()
    }

    proof fn lemma_dom_len(&self)
        requires
            self.wf(),
        ensures
            self@.dom().finite(),
            self@.dom().len() == self.entries@.len(),
        decreases self.entries@.len(),
    {
        let e = self.entries@;
        let keys = e.map_values(|x: MetaEntry| x.key@);
        assert forall|i: int, j: int| 0 <= i < keys.len() && 0 <= j < keys.len() && i != j implies keys[i]
            != keys[j] by {}
        keys.unique_seq_to_set();
        assert forall|k: Seq<char>| #[trigger] self@.dom().contains(k) <==> keys.to_set().contains(k) by {
            if keys.to_set().contains(k) {
                let i = choose|i: int| 0 <= i < keys.len() && keys[i] == k;
                lemma_find_at(e, i);
            } else {
                assert forall|i: int| 0 <= i < e.len() implies e[i].key@ != k by {
                    assert(keys[i] == e[i].key@);
                }
                lemma_find_absent(e, k);
            }
        }
        assert(self@.dom() =~= keys.to_set());
    }

    /// The entries, each key once, in the order they were first stored.
    pub fn entries(&self) -> (r: &Vec<MetaEntry>)
        ensures
            keys_distinct(r@),
            r@.len() == self@.dom().len(),
            forall|i: int|
                0 <= i < r@.len() ==> self@.contains_key(#[trigger] r@[i].key@) && self@[r@[i].key@]
                    == r@[i].value@,
            forall|k: Seq<char>|
                #[trigger] self@.contains_key(k) ==> exists|i: int| 0 <= i < r@.len() && r@[i].key@ == k,
    {
        proof {
            use_type_invariant(self);
            self.lemma_dom_len();
            assert forall|i: int| 0 <= i < self.entries@.len() implies self@.contains_key(
                #[trigger] self.entries@[i].key@,
            ) && self@[self.entries@[i].key@] == self.entries@[i].value@ by {
                lemma_find_at(self.entries@, i);
            }
            assert forall|k: Seq<char>| #[trigger] self@.contains_key(k) implies exists|i: int|
                0 <= i < self.entries@.len() && self.entries@[i].key@ == k by {
                if !exists|i: int| 0 <= i < self.entries@.len() && self.entries@[i].key@ == k {
                    lemma_find_absent(self.entries@, k);
                }
            }
        }
        &self.entries
    }

    /// The value stored under `key`, if any.
    pub fn get(&self, key: &str) -> (res: Option<&MetaValue>)
        ensures
            match res {
                Some(v) => self@.contains_key(key@) && self@[key@] == v@,
                None => !self@.contains_key(key@),
            },
    {
        proof {
            use_type_invariant(self);
        }
        let target = key.to_string();
        let mut i: usize = 0;
        while i < self.entries.len()
            invariant
                keys_distinct(self.entries@),
                target@ == key@,
                i <= self.entries@.len(),
                forall|j: int| 0 <= j < i ==> self.entries@[j].key@ != key@,
            decreases self.entries.len() - i,
        {
            if self.entries[i].key == target {
                proof {
                    lemma_find_at(self.entries@, i as int);
                }
                return Some(&self.entries[i].value);
            }
            i = i + 1;
        }
        proof {
            lemma_find_absent(self.entries@, key@);
        }
        None
    }

    /// Stores `value` under `key`, replacing what was stored there.
    pub fn insert(&mut self, key: String, value: MetaValue)
        ensures
            final(self)@ == old(self)@.insert(key@, value@),
    {
        proof {
            use_type_invariant(&*self);
        }
        let ghost k = key@;
        let ghost v = value@;
        let mut entries: Vec<MetaEntry> = Vec::new();
        std::mem::swap(&mut entries, &mut self.entries);
        let mut i: usize = 0;
        while i < entries.len()
            invariant
                keys_distinct(entries@),
                entries@ == old(self).entries@,
                key@ == k,
                value@ == v,
                i <= entries@.len(),
                forall|j: int| 0 <= j < i ==> entries@[j].key@ != key@,
            decreases entries.len() - i,
        {
            if entries[i].key == key {
                let ghost before = entries@;
                let entry = MetaEntry { key, value };
                entries.set(i, entry);
                proof {
                    lemma_update_view(before, i as int, entry);
                }
                self.entries = entries;
                proof {
                    assert(self@ =~= old(self)@.insert(k, v));
                }
                return;
            }
            i = i + 1;
        }
        let ghost before = entries@;
        let entry = MetaEntry { key, value };
        entries.push(entry);
        proof {
            assert(entries@.drop_last() =~= before);
            assert(keys_distinct(entries@));
        }
        self.entries = entries;
        proof {
            assert(self@ =~= old(self)@.insert(k, v));
        }
    }
}

} // verus!
