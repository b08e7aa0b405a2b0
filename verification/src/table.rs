//! An insertion-ordered table keyed by text, the container behind the
//! participant map and the endpoint maps.
//!
//! The keys are `String`s. vstd specifies `HashMap` only for key types with a
//! known key model, and `String` has none, so nothing could be proved of a
//! hash map of these keys. The table keeps its keys in a vector instead and
//! carries as its invariant what a map gives: no key occurs twice.

use vstd::prelude::*;

verus! {

/// The mapping that a list of distinct keys and a list of values stand for.
pub open spec fn table_map<V>(keys: Seq<Seq<char>>, values: Seq<V>) -> Map<Seq<char>, V> {
    Map::new(|k: Seq<char>| keys.contains(k), |k: Seq<char>| values[keys.index_of(k)])
}

/// In a list of distinct keys, the value of the key at position `i` is the
/// value at position `i`.
pub proof fn lemma_table_map_at<V>(keys: Seq<Seq<char>>, values: Seq<V>, i: int)
    requires
        keys.no_duplicates(),
        0 <= i < keys.len(),
    ensures
        table_map(keys, values).contains_key(keys[i]),
        table_map(keys, values)[keys[i]] == values[i],
        keys.index_of(keys[i]) == i,
{
    let j = keys.index_of(keys[i]);
    assert(0 <= j < keys.len() && keys[j] == keys[i]);
}

/// Appending a key that is new, with its value, inserts that pair.
pub proof fn lemma_table_map_push<V>(keys: Seq<Seq<char>>, values: Seq<V>, key: Seq<char>, value: V)
    requires
        keys.no_duplicates(),
        keys.len() == values.len(),
        !keys.contains(key),
    ensures
        keys.push(key).no_duplicates(),
        table_map(keys.push(key), values.push(value)) == table_map(keys, values).insert(
            key,
            value,
        ),
{
    let keys2 = keys.push(key);
    let values2 = values.push(value);
    assert(keys2.no_duplicates()) by {
        assert forall|i: int, j: int| 0 <= i < keys2.len() && 0 <= j < keys2.len() && i != j implies keys2[i] != keys2[j] by {
            if i < keys.len() && j < keys.len() {
                assert(keys[i] != keys[j]);
            } else if i < keys.len() {
                assert(keys[i] == keys2[i]);
            } else {
                assert(keys[j] == keys2[j]);
            }
        }
    }
    let left = table_map(keys2, values2);
    let right = table_map(keys, values).insert(key, value);
    assert forall|k: Seq<char>| left.contains_key(k) <==> right.contains_key(k) by {
        if keys2.contains(k) {
            let i = choose|i: int| 0 <= i < keys2.len() && keys2[i] == k;
            if i < keys.len() {
                assert(keys[i] == k);
            }
        }
        if keys.contains(k) {
            let i = choose|i: int| 0 <= i < keys.len() && keys[i] == k;
            assert(keys2[i] == k);
        }
        if k == key {
            assert(keys2[keys.len() as int] == k);
        }
    }
    assert forall|k: Seq<char>| left.contains_key(k) implies left[k] == right[k] by {
        let i = keys2.index_of(k);
        assert(0 <= i < keys2.len() && keys2[i] == k);
        lemma_table_map_at(keys2, values2, i);
        if i < keys.len() {
            assert(keys[i] == k);
            lemma_table_map_at(keys, values, i);
        }
    }
    assert(left =~= right);
}

/// Replacing the value at position `i` replaces the value of the key there.
pub proof fn lemma_table_map_update<V>(keys: Seq<Seq<char>>, values: Seq<V>, i: int, value: V)
    requires
        keys.no_duplicates(),
        keys.len() == values.len(),
        0 <= i < keys.len(),
    ensures
        table_map(keys, values.update(i, value)) == table_map(keys, values).insert(keys[i], value),
{
    let left = table_map(keys, values.update(i, value));
    let right = table_map(keys, values).insert(keys[i], value);
    assert forall|k: Seq<char>| left.contains_key(k) <==> right.contains_key(k) by {}
    assert forall|k: Seq<char>| left.contains_key(k) implies left[k] == right[k] by {
        let j = keys.index_of(k);
        assert(0 <= j < keys.len() && keys[j] == k);
        lemma_table_map_at(keys, values, j);
        lemma_table_map_at(keys, values.update(i, value), j);
    }
    assert(left =~= right);
}

/// A table from text keys to values that keeps its entries in the order in
/// which their keys first arrived.
#[derive(Debug)]
pub struct Table<V> {
    keys: Vec<String>,
    values: Vec<V>,
}

impl<V> Table<V> {
    /// The keys, in order of arrival.
    pub closed spec fn keys(&self) -> Seq<Seq<char>> {
        self.keys.deep_view()
    }

    /// The values, each at the position of its key.
    pub closed spec fn values(&self) -> Seq<V> {
        self.values@
    }

    /// Every key has one value and no key occurs twice.
    #[verifier::type_invariant]
    pub open spec fn wf(&self) -> bool {
        &&& self.keys().len() == self.values().len()
        &&& self.keys().no_duplicates()
    }

    /// The mapping from key to value.
    pub open spec fn map(&self) -> Map<Seq<char>, V> {
        table_map(self.keys(), self.values())
    }

    /// An empty table.
    pub fn new() -> (r: Table<V>)
        ensures
            r.keys() == Seq::<Seq<char>>::empty(),
            r.values() == Seq::<V>::empty(),
    {
        let r = Table { keys: Vec::new(), values: Vec::new() };
        assert(r.keys() =~= Seq::<Seq<char>>::empty());
        r
    }

    /// The number of entries.
    pub fn len(&self) -> (r: usize)
        ensures
            r == self.keys().len(),
    {
        self.keys.len()
    }

    /// The position of `key`, if the table holds it.
    pub fn find(&self, key: &String) -> (r: Option<usize>)
        ensures
            match r {
                Some(i) => i < self.keys().len() && self.keys()[i as int] == key@,
                None => !self.keys().contains(key@),
            },
    {
        let mut i: usize = 0;
        while i < self.keys.len()
            invariant
                i <= self.keys.len(),
                forall|j: int| 0 <= j < i ==> self.keys()[j] != key@,
            decreases self.keys.len() - i,
        {
            if self.keys[i] == *key {
                return Some(i);
            }
            i += 1;
        }
        None
    }

    /// The value at position `i`.
    pub fn value_at(&self, i: usize) -> (r: &V)
        requires
            i < self.keys().len(),
        ensures
            *r == self.values()[i as int],
    {
        proof {
            use_type_invariant(self);
        }
        &self.values[i]
    }

    /// The value at position `i`, to be changed in place.
    pub fn value_at_mut(&mut self, i: usize) -> (r: &mut V)
        requires
            i < old(self).keys().len(),
        ensures
            *r == old(self).values()[i as int],
            final(self).keys() == old(self).keys(),
            final(self).values() == old(self).values().update(i as int, *final(r)),
    {
        proof {
            use_type_invariant(&*self);
        }
        &mut self.values[i]
    }

    /// Appends an entry whose key the table does not hold yet.
    pub fn insert_new(&mut self, key: String, value: V)
        requires
            !old(self).keys().contains(key@),
        ensures
            final(self).keys() == old(self).keys().push(key@),
            final(self).values() == old(self).values().push(value),
            final(self).map() == old(self).map().insert(key@, value),
    {
        proof {
            use_type_invariant(&*self);
            lemma_table_map_push(self.keys(), self.values(), key@, value);
        }
        let mut taken = Table::new();
        core::mem::swap(self, &mut taken);
        let Table { mut keys, mut values } = taken;
        keys.push(key);
        values.push(value);
        assert(keys.deep_view() =~= old(self).keys().push(key@));
        *self = Table { keys, values };
    }

    /// A copy of the keys, in order of arrival.
    pub fn key_list(&self) -> (r: Vec<String>)
        ensures
            r.deep_view() == self.keys(),
    {
        let mut out: Vec<String> = Vec::new();
        let mut i: usize = 0;
        while i < self.keys.len()
            invariant
                i <= self.keys.len(),
                out.deep_view() == self.keys().take(i as int),
            decreases self.keys.len() - i,
        {
            let ghost before = out.deep_view();
            out.push(self.keys[i].clone());
            assert(out.deep_view() =~= before.push(self.keys()[i as int]));
            assert(self.keys().take(i + 1) =~= self.keys().take(i as int).push(self.keys()[i as int]));
            i += 1;
        }
        assert(self.keys().take(i as int) =~= self.keys());
        out
    }
}

} // verus!
