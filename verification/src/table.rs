//! Tables by number: what a backend remembers of each native handle.
use std::collections::HashMap;
use vstd::prelude::*;

verus! {

broadcast use vstd::std_specs::hash::group_hash_axioms;

/// A table from handles to what is remembered of them.
pub struct Table<V> {
    map: HashMap<u64, V>,
}

impl<V: View> View for Table<V> {
    type V = Map<u64, V::V>;

    closed spec fn view(&self) -> Map<u64, V::V> {
        Map::new(|k: u64| self.map@.contains_key(k), |k: u64| self.map@[k]@)
    }
}

impl<V: View> Table<V> {
    /// A table that remembers nothing.
    pub fn new() -> (t: Table<V>)
        ensures
            t@ == Map::<u64, V::V>::empty(),
    {
        let t: Table<V> = Table { map: HashMap::new() };
        assert(t@ =~= Map::<u64, V::V>::empty());
        t
    }

    /// What is remembered of a handle.
    pub fn get(&self, k: u64) -> (r: Option<&V>)
        ensures
            match r {
                Some(v) => self@.contains_key(k) && v@ == self@[k],
                None => !self@.contains_key(k),
            },
    {
        self.map.get(&k)
    }

    /// Whether anything is remembered of a handle.
    pub fn has(&self, k: u64) -> (b: bool)
        ensures
            b == self@.contains_key(k),
    {
        self.map.contains_key(&k)
    }

    /// Remembers `v` of a handle.
    pub fn put(&mut self, k: u64, v: V)
        ensures
            final(self)@ == old(self)@.insert(k, v@),
    {
        let ghost w = v@;
        self.map.insert(k, v);
        proof {
            assert(self@ =~= old(self)@.insert(k, w));
        }
    }

    /// Forgets a handle, and hands back what was remembered of it.
    pub fn take(&mut self, k: u64) -> (r: Option<V>)
        ensures
            final(self)@ == old(self)@.remove(k),
            match r {
                Some(v) => old(self)@.contains_key(k) && v@ == old(self)@[k],
                None => !old(self)@.contains_key(k),
            },
    {
        let r = self.map.remove(&k);
        proof {
            assert(self@ =~= old(self)@.remove(k));
        }
        r
    }
}

/// What a table holds of a number, where it holds anything.
pub open spec fn entry<V>(m: Map<u64, V>, k: u64) -> Option<V> {
    if m.contains_key(k) {
        Some(m[k])
    } else {
        None
    }
}

/// What a table holds of a number, else the value given.
pub open spec fn look_up(m: Map<u64, u64>, k: u64, otherwise: u64) -> u64 {
    if m.contains_key(k) {
        m[k]
    } else {
        otherwise
    }
}

/// What a table holds of a number.
pub fn found(t: &Table<u64>, k: u64) -> (r: Option<u64>)
    ensures
        r == entry(t@, k),
{
    match t.get(k) {
        Some(v) => Some(*v),
        None => None,
    }
}

/// What a table holds of a number, else the value given.
pub fn found_or(t: &Table<u64>, k: u64, otherwise: u64) -> (r: u64)
    ensures
        r == look_up(t@, k, otherwise),
{
    match t.get(k) {
        Some(v) => *v,
        None => otherwise,
    }
}

} // verus!
