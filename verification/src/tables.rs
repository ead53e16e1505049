//! An insertion-ordered map from table names to their configurations.
//!
//! The panel's table configurations are keyed by table name. Insertion
//! order is part of the data: the panel lists tables in the order their
//! configuration files were found. An existing key keeps its place and
//! takes the new value; a new key goes to the end.

use vstd::prelude::*;

verus! {

/// Look a key up in an association sequence. Under `distinct_keys` at most
/// one entry can match; in general the first match wins.
pub open spec fn assoc_get<T>(s: Seq<(Seq<char>, T)>, key: Seq<char>) -> Option<T>
    decreases s.len(),
{
    if s.len() == 0 {
        None
    } else if s[0].0 == key {
        Some(s[0].1)
    } else {
        assoc_get(s.drop_first(), key)
    }
}

/// Insert into an association sequence, keeping insertion order: an existing
/// key keeps its place and takes the new value; a new key goes to the end.
pub open spec fn assoc_insert<T>(
    s: Seq<(Seq<char>, T)>,
    key: Seq<char>,
    value: T,
) -> Seq<(Seq<char>, T)>
    decreases s.len(),
{
    if s.len() == 0 {
        seq![(key, value)]
    } else if s[0].0 == key {
        seq![(key, value)] + s.drop_first()
    } else {
        seq![s[0]] + assoc_insert(s.drop_first(), key, value)
    }
}

/// Insert every entry in order, later entries overriding earlier ones of
/// the same key.
pub open spec fn assoc_insert_all<T>(
    s: Seq<(Seq<char>, T)>,
    entries: Seq<(Seq<char>, T)>,
) -> Seq<(Seq<char>, T)>
    decreases entries.len(),
{
    if entries.len() == 0 {
        s
    } else {
        assoc_insert_all(assoc_insert(s, entries[0].0, entries[0].1), entries.drop_first())
    }
}

/// No key occurs twice.
pub open spec fn distinct_keys<T>(s: Seq<(Seq<char>, T)>) -> bool {
    forall|i: int, j: int| 0 <= i < j < s.len() ==> s[i].0 != s[j].0
}

/// When `key` first occurs at `idx`, inserting replaces that entry in place.
pub proof fn lemma_assoc_insert_found<T>(
    s: Seq<(Seq<char>, T)>,
    key: Seq<char>,
    value: T,
    idx: int,
)
    requires
        0 <= idx < s.len(),
        s[idx].0 == key,
        forall|j: int| 0 <= j < idx ==> s[j].0 != key,
    ensures
        assoc_insert(s, key, value) =~= s.update(idx, (key, value)),
    decreases idx,
{
    if idx == 0 {
        assert(assoc_insert(s, key, value) =~= s.update(0, (key, value)));
    } else {
        lemma_assoc_insert_found(s.drop_first(), key, value, idx - 1);
        assert(assoc_insert(s, key, value) =~= s.update(idx, (key, value)));
    }
}

/// When `key` does not occur, inserting appends the new entry.
pub proof fn lemma_assoc_insert_missing<T>(s: Seq<(Seq<char>, T)>, key: Seq<char>, value: T)
    requires
        forall|j: int| 0 <= j < s.len() ==> s[j].0 != key,
    ensures
        assoc_insert(s, key, value) =~= s.push((key, value)),
    decreases s.len(),
{
    if s.len() == 0 {
        assert(assoc_insert(s, key, value) =~= s.push((key, value)));
    } else {
        lemma_assoc_insert_missing(s.drop_first(), key, value);
        assert(assoc_insert(s, key, value) =~= s.push((key, value)));
    }
}

/// Inserting never duplicates a key.
pub proof fn lemma_assoc_insert_distinct<T>(s: Seq<(Seq<char>, T)>, key: Seq<char>, value: T)
    requires
        distinct_keys(s),
    ensures
        distinct_keys(assoc_insert(s, key, value)),
    decreases s.len(),
{
    if exists|idx: int|
        0 <= idx < s.len() && s[idx].0 == key && (forall|j: int| 0 <= j < idx ==> s[j].0 != key) {
        let idx = choose|idx: int|
            0 <= idx < s.len() && s[idx].0 == key && (forall|j: int|
                0 <= j < idx ==> s[j].0 != key);
        lemma_assoc_insert_found(s, key, value, idx);
    } else {
        assert forall|j: int| 0 <= j < s.len() implies s[j].0 != key by {
            if s[j].0 == key {
                let first = choose|idx: int|
                    0 <= idx <= j && s[idx].0 == key && (forall|l: int|
                        0 <= l < idx ==> s[l].0 != key);
                assert(exists|idx: int|
                    0 <= idx <= j && s[idx].0 == key && (forall|l: int|
                        0 <= l < idx ==> s[l].0 != key)) by {
                    lemma_first_occurrence(s, key, j);
                }
            }
        }
        lemma_assoc_insert_missing(s, key, value);
    }
}

/// Whenever some entry up to `j` carries `key`, there is a first one.
proof fn lemma_first_occurrence<T>(s: Seq<(Seq<char>, T)>, key: Seq<char>, j: int)
    requires
        0 <= j < s.len(),
        s[j].0 == key,
    ensures
        exists|idx: int|
            0 <= idx <= j && s[idx].0 == key && (forall|l: int| 0 <= l < idx ==> s[l].0 != key),
    decreases j,
{
    if forall|l: int| 0 <= l < j ==> s[l].0 != key {
        assert(0 <= j <= j && s[j].0 == key && (forall|l: int| 0 <= l < j ==> s[l].0 != key));
    } else {
        let j2 = choose|j2: int| 0 <= j2 < j && s[j2].0 == key;
        lemma_first_occurrence(s, key, j2);
        let idx = choose|idx: int|
            0 <= idx <= j2 && s[idx].0 == key && (forall|l: int| 0 <= l < idx ==> s[l].0 != key);
        assert(0 <= idx <= j && s[idx].0 == key && (forall|l: int| 0 <= l < idx ==> s[l].0 != key));
    }
}

/// After an insert, the inserted key maps to the new value and every other
/// key maps to what it mapped to before.
pub proof fn lemma_assoc_get_insert<T>(
    s: Seq<(Seq<char>, T)>,
    key: Seq<char>,
    value: T,
    probe: Seq<char>,
)
    ensures
        probe == key ==> assoc_get(assoc_insert(s, key, value), probe) == Some(value),
        probe != key ==> assoc_get(assoc_insert(s, key, value), probe) == assoc_get(s, probe),
    decreases s.len(),
{
    let t = assoc_insert(s, key, value);
    if s.len() == 0 {
        assert(t[0] == (key, value));
        assert(t.drop_first() =~= Seq::<(Seq<char>, T)>::empty());
        assert(probe != key ==> assoc_get(t, probe) is None);
    } else if s[0].0 == key {
        assert(t[0] == (key, value));
        assert(t.drop_first() =~= s.drop_first());
        if probe != key {
            assert(assoc_get(t, probe) == assoc_get(s.drop_first(), probe));
            assert(assoc_get(s, probe) == assoc_get(s.drop_first(), probe));
        }
    } else {
        lemma_assoc_get_insert(s.drop_first(), key, value, probe);
        assert(t[0] == s[0]);
        assert(t.drop_first() =~= assoc_insert(s.drop_first(), key, value));
        if probe == key {
            assert(assoc_get(t, probe) == assoc_get(t.drop_first(), probe));
        } else {
            if s[0].0 == probe {
                assert(assoc_get(t, probe) == Some(s[0].1));
                assert(assoc_get(s, probe) == Some(s[0].1));
            } else {
                assert(assoc_get(t, probe) == assoc_get(t.drop_first(), probe));
                assert(assoc_get(s, probe) == assoc_get(s.drop_first(), probe));
            }
        }
    }
}

/// A map from table names to configurations that keeps insertion order,
/// with each name held at most once.
#[derive(Debug, Clone)]
pub struct ConfigMap<T> {
    entries: Vec<(String, T)>,
}

impl<T> View for ConfigMap<T> {
    type V = Seq<(Seq<char>, T)>;

    closed spec fn view(&self) -> Seq<(Seq<char>, T)> {
        self.entries@.map_values(|p: (String, T)| (p.0@, p.1))
    }
}

impl<T> ConfigMap<T> {
    /// The map never holds a name twice.
    pub open spec fn wf(&self) -> bool {
        distinct_keys(self@)
    }

    /// The empty map.
    pub fn new() -> (r: ConfigMap<T>)
        ensures
            r@ =~= Seq::<(Seq<char>, T)>::empty(),
            r.wf(),
    {
        ConfigMap { entries: Vec::new() }
    }

    /// How many tables are configured.
    pub fn len(&self) -> (n: usize)
        ensures
            n == self@.len(),
    {
        self.entries.len()
    }

    /// The configuration under `key`, if any.
    pub fn get<'a>(&'a self, key: &str) -> (r: Option<&'a T>)
        ensures
            match r {
                Some(v) => assoc_get(self@, key@) == Some(*v),
                None => assoc_get(self@, key@) is None,
            },
    {
        let key_owned: String = key.to_owned();
        let n = self.entries.len();
        for i in 0..n
            invariant
                n == self@.len(),
                key_owned@ == key@,
                forall|j: int| 0 <= j < i ==> self@[j].0 != key@,
        {
            if self.entries[i].0 == key_owned {
                proof {
                    lemma_assoc_get_found(self@, key@, i as int);
                }
                return Some(&self.entries[i].1);
            }
        }
        proof {
            lemma_assoc_get_none(self@, key@);
        }
        None
    }

    /// Insert `value` under `key`: an existing key keeps its place and takes
    /// the new value; a new key goes to the end.
    pub fn insert(&mut self, key: String, value: T)
        requires
            old(self).wf(),
        ensures
            final(self).wf(),
            final(self)@ == assoc_insert(old(self)@, key@, value),
    {
        let n = self.entries.len();
        for i in 0..n
            invariant
                self@ == old(self)@,
                n == self@.len(),
                old(self).wf(),
                forall|j: int| 0 <= j < i ==> self@[j].0 != key@,
        {
            if self.entries[i].0 == key {
                proof {
                    lemma_assoc_insert_distinct(old(self)@, key@, value);
                    lemma_assoc_insert_found(old(self)@, key@, value, i as int);
                }
                self.entries[i] = (key, value);
                assert(self@ =~= old(self)@.update(i as int, (key@, value)));
                assert(self@ =~= assoc_insert(old(self)@, key@, value));
                assert(self@ == assoc_insert(old(self)@, key@, value));
                assert(distinct_keys(self@));
                return ;
            }
        }
        proof {
            lemma_assoc_insert_distinct(old(self)@, key@, value);
            lemma_assoc_insert_missing(old(self)@, key@, value);
        }
        self.entries.push((key, value));
        assert(self@ =~= old(self)@.push((key@, value)));
        assert(self@ == assoc_insert(old(self)@, key@, value));
    }

    /// The entries in insertion order, for rendering or serialising.
    pub fn entries(&self) -> (r: &Vec<(String, T)>)
        ensures
            r@.len() == self@.len(),
            forall|i: int| 0 <= i < r@.len() ==> (#[trigger] r@[i].0@, r@[i].1) == self@[i],
    {
        &self.entries
    }
}

/// When `key` first occurs at `idx`, lookup returns that entry's value.
pub proof fn lemma_assoc_get_found<T>(s: Seq<(Seq<char>, T)>, key: Seq<char>, idx: int)
    requires
        0 <= idx < s.len(),
        s[idx].0 == key,
        forall|j: int| 0 <= j < idx ==> s[j].0 != key,
    ensures
        assoc_get(s, key) == Some(s[idx].1),
    decreases idx,
{
    if idx > 0 {
        lemma_assoc_get_found(s.drop_first(), key, idx - 1);
    }
}

/// When no entry carries `key`, lookup returns nothing.
pub proof fn lemma_assoc_get_none<T>(s: Seq<(Seq<char>, T)>, key: Seq<char>)
    requires
        forall|j: int| 0 <= j < s.len() ==> s[j].0 != key,
    ensures
        assoc_get(s, key) is None,
    decreases s.len(),
{
    if s.len() > 0 {
        lemma_assoc_get_none(s.drop_first(), key);
    }
}

} // verus!
