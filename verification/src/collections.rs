//! The map shim early user code sees: named like the hashing map it stands
//! in for, but backed by an ordered map, since no hashing allocator is up
//! yet during bootstrap.

use std::collections::btree_map::Iter;
use std::collections::BTreeMap;
use vstd::prelude::*;
use vstd::std_specs::btree::key_obeys_cmp_spec;
use vstd::std_specs::iter::IteratorSpec;

verus! {

/// A map from `K` to `V`, viewed as the mathematical map of its entries.
pub struct HashMap<K, V> {
    hashmap: BTreeMap<K, V>,
}

impl<K, V> View for HashMap<K, V> {
    type V = Map<K, V>;

    closed spec fn view(&self) -> Map<K, V> {
        self.hashmap@
    }
}

impl<K, V> HashMap<K, V> {
    /// An empty map.
    pub fn new() -> (r: Self)
        ensures
            r@ == Map::<K, V>::empty(),
    {
        Self { hashmap: BTreeMap::new() }
    }

    /// Insert `v` under `k`, returning the value previously there, if any.
    pub fn insert(&mut self, k: K, v: V) -> (r: Option<V>) where K: Ord
        ensures
            vstd::laws_cmp::obeys_cmp::<K>() ==> {
                &&& final(self)@ == old(self)@.insert(k, v)
                &&& (r matches Some(prev) ==> old(self)@.contains_key(k) && prev == old(self)@[k])
                &&& (r is None ==> !old(self)@.contains_key(k))
            },
    {
        self.hashmap.insert(k, v)
    }

    /// Iterate over the entries: each pair handed out is an entry of the
    /// map, every entry is handed out, and none is handed out twice.
    pub fn iter<'a>(&'a self) -> (it: Iter<'a, K, V>)
        ensures
            key_obeys_cmp_spec::<K>() ==> {
                let pairs = it.remaining();
                &&& pairs.len() == self@.dom().len()
                &&& (forall|i: int|
                    #![auto]
                    0 <= i < pairs.len() ==> self@.contains_key(*pairs[i].0) && *pairs[i].1
                        == self@[*pairs[i].0])
                &&& (forall|k: K| #[trigger] self@.contains_key(k) ==> pairs.contains(
                    (&k, &self@[k]),
                ))
                &&& pairs.no_duplicates()
            },
    {
        self.hashmap.iter()
    }
}

} // verus!
