//! A small map keyed by name that keeps insertion order.
use vstd::prelude::*;

verus! {

/// A map keyed by name, in insertion order; each name occurs once.
#[derive(Debug)]
pub struct NamedMap<V> {
    /// The entries in insertion order; names are distinct (see `wf`).
    pub entries: Vec<(String, V)>,
}

/// The count of the first entry named `k`.
pub open spec fn lookup<V>(entries: Seq<(String, V)>, k: Seq<char>) -> Option<V>
    decreases entries.len(),
{
    if entries.len() == 0 {
        None
    } else if entries[0].0@ == k {
        Some(entries[0].1)
    } else {
        lookup(entries.drop_first(), k)
    }
}

/// Names are distinct.
pub open spec fn keys_distinct<V>(entries: Seq<(String, V)>) -> bool {
    forall|i: int, j: int| 0 <= i < j < entries.len() ==> entries[i].0@ != entries[j].0@
}

proof fn lemma_lookup_index<V>(entries: Seq<(String, V)>, k: Seq<char>, i: int)
    requires
        keys_distinct(entries),
        0 <= i < entries.len(),
        entries[i].0@ == k,
    ensures
        lookup(entries, k) == Some(entries[i].1),
    decreases entries.len(),
{
    if i > 0 {
        lemma_lookup_index(entries.drop_first(), k, i - 1);
    }
}

proof fn lemma_lookup_absent<V>(entries: Seq<(String, V)>, k: Seq<char>)
    requires
        forall|i: int| 0 <= i < entries.len() ==> entries[i].0@ != k,
    ensures
        lookup(entries, k) is None,
    decreases entries.len(),
{
    if entries.len() > 0 {
        lemma_lookup_absent(entries.drop_first(), k);
    }
}

proof fn lemma_lookup_found<V>(entries: Seq<(String, V)>, k: Seq<char>)
    requires
        lookup(entries, k) is Some,
    ensures
        exists|i: int| 0 <= i < entries.len() && entries[i].0@ == k,
    decreases entries.len(),
{
    if entries[0].0@ != k {
        lemma_lookup_found(entries.drop_first(), k);
        let i = choose|i: int| 0 <= i < entries.drop_first().len() && entries.drop_first()[i].0@ == k;
        assert(entries[i + 1].0@ == k);
    }
}

impl<V> View for NamedMap<V> {
    type V = Map<Seq<char>, V>;

    open spec fn view(&self) -> Map<Seq<char>, V> {
        Map::new(|k: Seq<char>| lookup(self.entries@, k) is Some, |k: Seq<char>| lookup(self.entries@, k).unwrap())
    }
}

impl<V> NamedMap<V> {
    pub open spec fn wf(&self) -> bool {
        keys_distinct(self.entries@)
    }

    pub fn new() -> (r: Self)
        ensures
            r.wf(),
            r@ == Map::<Seq<char>, V>::empty(),
    {
        let r = NamedMap { entries: Vec::new() };
        assert(r@ =~= Map::<Seq<char>, V>::empty());
        r
    }

    fn position(&self, key: &str) -> (r: Option<usize>)
        requires
            self.wf(),
        ensures
            r matches Some(i) ==> i < self.entries@.len() && self.entries@[i as int].0@ == key@,
            r is None ==> forall|i: int| 0 <= i < self.entries@.len() ==> self.entries@[i].0@ != key@,
    {
        let k = key.to_owned();
        let mut i: usize = 0;
        while i < self.entries.len()
            invariant
                i <= self.entries@.len(),
                k@ == key@,
                forall|j: int| 0 <= j < i ==> self.entries@[j].0@ != key@,
            decreases self.entries@.len() - i,
        {
            if self.entries[i].0 == k {
                return Some(i);
            }
            i = i + 1;
        }
        None
    }

    /// The count recorded under `key`.
    pub fn get(&self, key: &str) -> (r: Option<&V>)
        requires
            self.wf(),
        ensures
            r is None <==> !self@.contains_key(key@),
            r matches Some(v) ==> *v == self@[key@],
    {
        match self.position(key) {
            Some(i) => {
                proof {
                    lemma_lookup_index(self.entries@, key@, i as int);
                }
                Some(&self.entries[i].1)
            },
            None => {
                proof {
                    lemma_lookup_absent(self.entries@, key@);
                }
                None
            },
        }
    }

    /// Records `value` under `key`, replacing what was there.
    pub fn insert(&mut self, key: String, value: V)
        requires
            old(self).wf(),
        ensures
            final(self).wf(),
            final(self)@ == old(self)@.insert(key@, value),
    {
        let ghost k = key@;
        let ghost before = self.entries@;
        match self.position(key.as_str()) {
            Some(i) => {
                self.entries.set(i, (key, value));
                proof {
                    let after = self.entries@;
                    assert forall|q: Seq<char>| #[trigger] lookup(after, q) == (if q == k { Some(value) } else { lookup(before, q) }) by {
                        if q == k {
                            lemma_lookup_index(after, q, i as int);
                        } else {
                            match lookup(before, q) {
                                Some(_) => {
                                    lemma_lookup_found(before, q);
                                    let j = choose|j: int| 0 <= j < before.len() && before[j].0@ == q;
                                    lemma_lookup_index(before, q, j);
                                    lemma_lookup_index(after, q, j);
                                },
                                None => {
                                    if lookup(after, q) is Some {
                                        lemma_lookup_found(after, q);
                                        let j = choose|j: int| 0 <= j < after.len() && after[j].0@ == q;
                                        lemma_lookup_index(before, q, j);
                                    }
                                },
                            }
                        }
                    }
                    assert(self@ =~= old(self)@.insert(k, value));
                }
            },
            None => {
                self.entries.push((key, value));
                proof {
                    let after = self.entries@;
                    assert forall|q: Seq<char>| #[trigger] lookup(after, q) == (if q == k { Some(value) } else { lookup(before, q) }) by {
                        if q == k {
                            lemma_lookup_index(after, q, before.len() as int);
                        } else {
                            match lookup(before, q) {
                                Some(_) => {
                                    lemma_lookup_found(before, q);
                                    let j = choose|j: int| 0 <= j < before.len() && before[j].0@ == q;
                                    lemma_lookup_index(before, q, j);
                                    lemma_lookup_index(after, q, j);
                                },
                                None => {
                                    if lookup(after, q) is Some {
                                        lemma_lookup_found(after, q);
                                        let j = choose|j: int| 0 <= j < after.len() && after[j].0@ == q;
                                        lemma_lookup_index(before, q, j);
                                    }
                                },
                            }
                        }
                    }
                    assert(self@ =~= old(self)@.insert(k, value));
                }
            },
        }
    }

    /// Records `value` under `key` unless `key` is already there; tells
    /// whether it was recorded.
    pub fn insert_if_absent(&mut self, key: String, value: V) -> (added: bool)
        requires
            old(self).wf(),
        ensures
            final(self).wf(),
            added == !old(self)@.contains_key(key@),
            final(self)@ == (if added {
                old(self)@.insert(key@, value)
            } else {
                old(self)@
            }),
    {
        let present = self.get(key.as_str()).is_some();
        if present {
            false
        } else {
            self.insert(key, value);
            true
        }
    }

    /// The number of entries.
    pub open spec fn num_entries(&self) -> nat {
        self.entries@.len()
    }

    /// The number of names recorded.
    pub fn len(&self) -> (r: usize)
        ensures
            r == self.num_entries(),
    {
        self.entries.len()
    }

    /// The name of the `i`-th entry, in insertion order.
    pub open spec fn key_at(&self, i: int) -> Seq<char> {
        self.entries@[i].0@
    }

    /// The value of the `i`-th entry, in insertion order.
    pub open spec fn value_at(&self, i: int) -> V {
        self.entries@[i].1
    }

    /// The entries list the map: each name once, with its value.
    pub proof fn lemma_entries(&self)
        requires
            self.wf(),
        ensures
            forall|i: int| 0 <= i < self.num_entries() ==> self@.contains_key(#[trigger] self.key_at(i))
                && self@[self.key_at(i)] == self.value_at(i),
            forall|k: Seq<char>| #[trigger] self@.contains_key(k) ==> exists|i: int|
                0 <= i < self.num_entries() && self.key_at(i) == k,
            forall|i: int, j: int| 0 <= i < j < self.num_entries() ==> self.key_at(i) != self.key_at(j),
    {
        assert forall|i: int| 0 <= i < self.num_entries() implies self@.contains_key(#[trigger] self.key_at(i))
            && self@[self.key_at(i)] == self.value_at(i) by {
            lemma_lookup_index(self.entries@, self.entries@[i].0@, i);
        }
        assert forall|k: Seq<char>| #[trigger] self@.contains_key(k) implies exists|i: int|
            0 <= i < self.num_entries() && self.key_at(i) == k by {
            lemma_lookup_found(self.entries@, k);
            let i = choose|i: int| 0 <= i < self.entries@.len() && self.entries@[i].0@ == k;
            assert(self.key_at(i) == k);
        }
    }

    /// Whether `key` has a value.
    pub fn contains_key(&self, key: &str) -> (r: bool)
        requires
            self.wf(),
        ensures
            r == self@.contains_key(key@),
    {
        self.get(key).is_some()
    }

    /// The name and value at `i`, in insertion order.
    pub fn entry(&self, i: usize) -> (r: (&String, &V))
        requires
            self.wf(),
            i < self.num_entries(),
        ensures
            self@.contains_key(r.0@),
            self@[r.0@] == *r.1,
            r.0@ == self.key_at(i as int),
            *r.1 == self.value_at(i as int),
    {
        proof {
            lemma_lookup_index(self.entries@, self.entries@[i as int].0@, i as int);
        }
        (&self.entries[i].0, &self.entries[i].1)
    }
}

impl NamedMap<usize> {
    /// Adds each count of `other` to the count of the same name here.
    /// Counts saturate at `usize::MAX`.
    pub fn merge_from(&mut self, other: &NamedMap<usize>)
        requires
            old(self).wf(),
            other.wf(),
        ensures
            final(self).wf(),
            final(self)@ == merge_counts(old(self)@, other@),
    {
        let ghost start = self@;
        let mut i: usize = 0;
        assert(prefix_map(other.entries@.take(0)) =~= Map::<Seq<char>, usize>::empty());
        assert(merge_counts(start, Map::<Seq<char>, usize>::empty()) =~= start);
        while i < other.entries.len()
            invariant
                i <= other.entries@.len(),
                other.wf(),
                self.wf(),
                self@ == merge_counts(start, prefix_map(other.entries@.take(i as int))),
            decreases other.entries@.len() - i,
        {
            let ghost p = prefix_map(other.entries@.take(i as int));
            let e = &other.entries[i];
            let ghost k = e.0@;
            proof {
                assert(other.entries@.take(i as int + 1) =~= other.entries@.take(i as int).push(other.entries@[i as int]));
                assert forall|q: Seq<char>| #[trigger] lookup(other.entries@.take(i as int), q) is Some implies q != k by {
                    lemma_lookup_found(other.entries@.take(i as int), q);
                    let j = choose|j: int| 0 <= j < i && other.entries@.take(i as int)[j].0@ == q;
                    assert(other.entries@[j].0@ == q);
                }
                assert forall|q: Seq<char>| #[trigger] lookup(other.entries@.take(i as int + 1), q) == (if q == k { Some(e.1) } else { lookup(other.entries@.take(i as int), q) }) by {
                    lemma_lookup_push(other.entries@.take(i as int), other.entries@[i as int], q);
                }
                assert(prefix_map(other.entries@.take(i as int + 1)) =~= p.insert(k, e.1));
            }
            let cur: usize = match self.get(e.0.as_str()) {
                Some(v) => *v,
                None => 0,
            };
            let sum: usize = if cur <= usize::MAX - e.1 { cur + e.1 } else { usize::MAX };
            self.insert(e.0.clone(), sum);
            i = i + 1;
            proof {
                assert(!p.contains_key(k));
                assert(self@ =~= merge_counts(start, prefix_map(other.entries@.take(i as int))));
            }
        }
        proof {
            assert(other.entries@.take(i as int) =~= other.entries@);
            assert(prefix_map(other.entries@) =~= other@);
        }
    }

}

/// `a + b`, or `usize::MAX` where the sum would pass it.
pub open spec fn sat_add(a: usize, b: usize) -> usize {
    if a + b <= usize::MAX {
        (a + b) as usize
    } else {
        usize::MAX
    }
}

/// `cur` with each count of `add` added to it per name; a name absent from
/// `cur` counts from zero.
pub open spec fn merge_counts(cur: Map<Seq<char>, usize>, add: Map<Seq<char>, usize>) -> Map<
    Seq<char>,
    usize,
> {
    Map::new(
        |k: Seq<char>| cur.contains_key(k) || add.contains_key(k),
        |k: Seq<char>|
            if add.contains_key(k) {
                sat_add(if cur.contains_key(k) { cur[k] } else { 0 }, add[k])
            } else {
                cur[k]
            },
    )
}

/// The map that the first entries of a list describe.
spec fn prefix_map<V>(entries: Seq<(String, V)>) -> Map<Seq<char>, V> {
    Map::new(|k: Seq<char>| lookup(entries, k) is Some, |k: Seq<char>| lookup(entries, k).unwrap())
}

proof fn lemma_lookup_push<V>(entries: Seq<(String, V)>, e: (String, V), k: Seq<char>)
    ensures
        lookup(entries.push(e), k) == (match lookup(entries, k) {
            Some(v) => Some(v),
            None => if e.0@ == k {
                Some(e.1)
            } else {
                None
            },
        }),
    decreases entries.len(),
{
    if entries.len() > 0 {
        assert(entries.push(e).drop_first() =~= entries.drop_first().push(e));
        assert(entries.push(e)[0] == entries[0]);
        lemma_lookup_push(entries.drop_first(), e, k);
        assert(lookup(entries.push(e), k) == if entries[0].0@ == k {
            Some(entries[0].1)
        } else {
            lookup(entries.drop_first().push(e), k)
        });
    } else {
        assert(entries.push(e).drop_first() =~= Seq::<(String, V)>::empty());
        assert(entries.push(e)[0] == e);
        assert(lookup(entries.push(e).drop_first(), k) is None);
        assert(lookup(entries, k) is None);
    }
}

} // verus!
