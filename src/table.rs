use vstd::prelude::*;

verus! {

/// The value of the first entry whose key is `key`.
pub open spec fn lookup<V>(entries: Seq<(String, V)>, key: Seq<char>) -> Option<V>
    decreases entries.len(),
{
    if entries.len() == 0 {
        None
    } else if entries[0].0@ == key {
        Some(entries[0].1)
    } else {
        lookup(entries.drop_first(), key)
    }
}

/// Whether some entry has key `key`.
pub open spec fn has_key<V>(entries: Seq<(String, V)>, key: Seq<char>) -> bool {
    exists|i: int| 0 <= i < entries.len() && (#[trigger] entries[i]).0@ == key
}

/// A string-keyed table that keeps its keys unique, in insertion order.
#[derive(Debug)]
pub struct Table<V> {
    entries: Vec<(String, V)>,
}

proof fn lemma_lookup_found<V>(entries: Seq<(String, V)>, key: Seq<char>, i: int)
    requires
        0 <= i < entries.len(),
        entries[i].0@ == key,
        forall|j: int| 0 <= j < i ==> (#[trigger] entries[j]).0@ != key,
    ensures
        lookup(entries, key) == Some(entries[i].1),
    decreases i,
{
    if i > 0 {
        let rest = entries.drop_first();
        assert forall|j: int| 0 <= j < i - 1 implies (#[trigger] rest[j]).0@ != key by {
            assert(rest[j] == entries[j + 1]);
        }
        lemma_lookup_found(rest, key, i - 1);
    }
}

proof fn lemma_lookup_missing<V>(entries: Seq<(String, V)>, key: Seq<char>)
    requires
        forall|j: int| 0 <= j < entries.len() ==> (#[trigger] entries[j]).0@ != key,
    ensures
        lookup(entries, key) is None,
    decreases entries.len(),
{
    if entries.len() > 0 {
        let rest = entries.drop_first();
        assert forall|j: int| 0 <= j < rest.len() implies (#[trigger] rest[j]).0@ != key by {
            assert(rest[j] == entries[j + 1]);
        }
        lemma_lookup_missing(rest, key);
    }
}

impl<V> Table<V> {
    pub closed spec fn spec_entries(&self) -> Seq<(String, V)> {
        self.entries@
    }

    /// The keys are pairwise distinct.
    pub closed spec fn wf(&self) -> bool {
        forall|i: int, j: int|
            0 <= i < j < self.entries@.len() ==> (#[trigger] self.entries@[i]).0@
                != (#[trigger] self.entries@[j]).0@
    }

    /// The value stored under `key`, if any.
    pub closed spec fn spec_get(&self, key: Seq<char>) -> Option<V> {
        lookup(self.entries@, key)
    }

    pub fn new() -> (r: Self)
        ensures
            r.wf(),
            r.spec_entries().len() == 0,
            forall|k: Seq<char>| r.spec_get(k) is None,
    {
        let r = Table { entries: Vec::new() };
        assert forall|k: Seq<char>| r.spec_get(k) is None by {
            assert(lookup(r.entries@, k) is None);
        }
        r
    }

    /// The position of the entry with key `key`.
    pub fn index_of(&self, key: &str) -> (r: Option<usize>)
        ensures
            match r {
                Some(i) => i < self.spec_entries().len() && self.spec_entries()[i as int].0@ == key@
                    && self.spec_get(key@) == Some(self.spec_entries()[i as int].1),
                None => self.spec_get(key@) is None && !has_key(self.spec_entries(), key@),
            },
    {
        let n = self.entries.len();
        let mut i: usize = 0;
        while i < n
            invariant
                i <= n,
                n == self.entries@.len(),
                forall|j: int| 0 <= j < i ==> (#[trigger] self.entries@[j]).0@ != key@,
            decreases n - i,
        {
            if crate::keys::str_eq(self.entries[i].0.as_str(), key) {
                proof {
                    lemma_lookup_found(self.entries@, key@, i as int);
                }
                return Some(i);
            }
            i = i + 1;
        }
        proof {
            lemma_lookup_missing(self.entries@, key@);
        }
        None
    }

    /// The value stored under `key`, if any.
    pub fn get(&self, key: &str) -> (r: Option<&V>)
        ensures
            match r {
                Some(v) => self.spec_get(key@) == Some(*v),
                None => self.spec_get(key@) is None,
            },
    {
        match self.index_of(key) {
            Some(i) => Some(&self.entries[i].1),
            None => None,
        }
    }

    /// Stores `value` under `key`, replacing the value that was there.
    pub fn insert(&mut self, key: String, value: V)
        requires
            old(self).wf(),
        ensures
            final(self).wf(),
            final(self).spec_get(key@) == Some(value),
            forall|k: Seq<char>| k != key@ ==> final(self).spec_get(k) == old(self).spec_get(k),
    {
        let ghost key_view = key@;
        match self.index_of(key.as_str()) {
            Some(i) => {
                let ghost before = self.entries@;
                self.entries.set(i, (key, value));
                proof {
                    let after = self.entries@;
                    assert forall|k: Seq<char>| k != key_view implies lookup(after, k) == lookup(
                        before,
                        k,
                    ) by {
                        lemma_lookup_same_keys(before, after, k, i as int);
                    }
                    assert forall|j: int| 0 <= j < i implies (#[trigger] after[j]).0@ != key_view by {
                        assert(after[j] == before[j]);
                        assert(before[i as int].0@ == key_view);
                    }
                    lemma_lookup_found(after, key_view, i as int);
                }
            },
            None => {
                let ghost before = self.entries@;
                self.entries.push((key, value));
                proof {
                    let after = self.entries@;
                    assert forall|k: Seq<char>| k != key_view implies lookup(after, k) == lookup(
                        before,
                        k,
                    ) by {
                        lemma_lookup_append(before, after, k);
                    }
                    assert forall|j: int| 0 <= j < before.len() implies (#[trigger] after[j]).0@
                        != key_view by {
                        assert(after[j] == before[j]);
                        assert(before[j].0@ != key_view);
                    }
                    lemma_lookup_found(after, key_view, before.len() as int);
                }
            },
        }
    }
}

proof fn lemma_lookup_same_keys<V>(
    before: Seq<(String, V)>,
    after: Seq<(String, V)>,
    k: Seq<char>,
    i: int,
)
    requires
        before.len() == after.len(),
        0 <= i < before.len(),
        before[i].0@ == after[i].0@,
        before[i].0@ != k,
        forall|j: int| 0 <= j < before.len() && j != i ==> before[j] == after[j],
    ensures
        lookup(after, k) == lookup(before, k),
    decreases before.len(),
{
    if before.len() > 0 {
        if i > 0 {
            lemma_lookup_same_keys(before.drop_first(), after.drop_first(), k, i - 1);
        } else {
            assert(before.drop_first() =~= after.drop_first());
        }
    }
}

proof fn lemma_lookup_append<V>(before: Seq<(String, V)>, after: Seq<(String, V)>, k: Seq<char>)
    requires
        after.len() == before.len() + 1,
        after[before.len() as int].0@ != k,
        forall|j: int| 0 <= j < before.len() ==> before[j] == after[j],
    ensures
        lookup(after, k) == lookup(before, k),
    decreases before.len(),
{
    if before.len() > 0 {
        assert(before[0] == after[0]);
        assert forall|j: int| 0 <= j < before.len() - 1 implies before.drop_first()[j]
            == after.drop_first()[j] by {
            assert(before[j + 1] == after[j + 1]);
        }
        lemma_lookup_append(before.drop_first(), after.drop_first(), k);
    } else {
        assert(lookup(after.drop_first(), k) is None);
    }
}

} // verus!
