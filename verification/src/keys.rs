//! Sets of numbers, and association lists in the order things came.
use std::collections::HashSet;
use vstd::prelude::*;

verus! {

broadcast use vstd::std_specs::hash::group_hash_axioms;

/// A set of numbers.
pub struct Keys {
    set: HashSet<u64>,
}

impl View for Keys {
    type V = Set<u64>;

    closed spec fn view(&self) -> Set<u64> {
        self.set@
    }
}

impl Keys {
    /// No number.
    pub fn new() -> (s: Keys)
        ensures
            s@ == Set::<u64>::empty(),
    {
        Keys { set: HashSet::new() }
    }

    /// Whether the number is in the set.
    pub fn has(&self, k: u64) -> (b: bool)
        ensures
            b == self@.contains(k),
    {
        self.set.contains(&k)
    }

    /// Puts a number in, and says whether it is new.
    pub fn put(&mut self, k: u64) -> (fresh: bool)
        ensures
            final(self)@ == old(self)@.insert(k),
            fresh == !old(self)@.contains(k),
    {
        self.set.insert(k)
    }

    /// Takes a number out, and says whether it was in.
    pub fn drop(&mut self, k: u64) -> (was_in: bool)
        ensures
            final(self)@ == old(self)@.remove(k),
            was_in == old(self)@.contains(k),
    {
        let was_in = self.set.remove(&k);
        proof {
            assert(self@ =~= old(self)@.remove(k));
        }
        was_in
    }

    /// Takes every number out.
    pub fn clear(&mut self)
        ensures
            final(self)@ == Set::<u64>::empty(),
    {
        self.set = HashSet::new();
    }

    /// Whether no number is in the set.
    pub fn is_empty(&self) -> (b: bool)
        ensures
            b == (self@ == Set::<u64>::empty()),
    {
        let b = self.set.is_empty();
        proof {
            if self@.is_empty() {
                assert(self@ =~= Set::<u64>::empty());
            }
        }
        b
    }
}

/// Pairs in the order they came.
pub type Pairs = Seq<(u64, u64)>;

/// The pairs without those that start with `k`.
pub open spec fn without_first(v: Pairs, k: u64) -> Pairs
    decreases v.len(),
{
    if v.len() == 0 {
        v
    } else if v.last().0 == k {
        without_first(v.drop_last(), k)
    } else {
        without_first(v.drop_last(), k).push(v.last())
    }
}

/// The pairs without those that end in `k`.
pub open spec fn without_second(v: Pairs, k: u64) -> Pairs
    decreases v.len(),
{
    if v.len() == 0 {
        v
    } else if v.last().1 == k {
        without_second(v.drop_last(), k)
    } else {
        without_second(v.drop_last(), k).push(v.last())
    }
}

/// What the last pair that starts with `k` ends in.
pub open spec fn second_of(v: Pairs, k: u64) -> Option<u64>
    decreases v.len(),
{
    if v.len() == 0 {
        None
    } else if v.last().0 == k {
        Some(v.last().1)
    } else {
        second_of(v.drop_last(), k)
    }
}

/// Whether a pair ends in `k`.
pub open spec fn has_second(v: Pairs, k: u64) -> bool {
    exists|i: int| 0 <= i < v.len() && (#[trigger] v[i]).1 == k
}

/// The numbers without `k`.
pub open spec fn without(v: Seq<u64>, k: u64) -> Seq<u64>
    decreases v.len(),
{
    if v.len() == 0 {
        v
    } else if v.last() == k {
        without(v.drop_last(), k)
    } else {
        without(v.drop_last(), k).push(v.last())
    }
}

/// Taking pairs out by how they start leaves none that starts so, and every other one.
pub proof fn without_first_members(v: Pairs, k: u64)
    ensures
        forall|i: int| 0 <= i < without_first(v, k).len() ==> (#[trigger] without_first(v, k)[i]).0 != k,
        second_of(without_first(v, k), k) is None,
        forall|j: u64| j != k ==> #[trigger] second_of(without_first(v, k), j) == second_of(v, j),
    decreases v.len(),
{
    if v.len() > 0 {
        without_first_members(v.drop_last(), k);
        let w = without_first(v, k);
        let d = without_first(v.drop_last(), k);
        if v.last().0 != k {
            assert(w.drop_last() =~= d);
        }
        assert forall|j: u64| j != k implies #[trigger] second_of(w, j) == second_of(v, j) by {
            assert(second_of(d, j) == second_of(v.drop_last(), j));
        }
    }
}

/// Taking pairs out by how they end leaves none that ends so.
pub proof fn without_second_members(v: Pairs, k: u64)
    ensures
        forall|i: int|
            0 <= i < without_second(v, k).len() ==> (#[trigger] without_second(v, k)[i]).1 != k,
        !has_second(without_second(v, k), k),
    decreases v.len(),
{
    if v.len() > 0 {
        without_second_members(v.drop_last(), k);
        let d = without_second(v.drop_last(), k);
        let w = without_second(v, k);
        assert forall|i: int| 0 <= i < w.len() implies (#[trigger] w[i]).1 != k by {
            if i < d.len() {
                assert(w[i] == d[i]);
            }
        }
    }
}

proof fn without_members(v: Seq<u64>, k: u64)
    ensures
        forall|x: u64| #[trigger] without(v, k).contains(x) <==> (v.contains(x) && x != k),
    decreases v.len(),
{
    let w = without(v, k);
    if v.len() > 0 {
        let d = v.drop_last();
        without_members(d, k);
        let wd = without(d, k);
        assert forall|x: u64| #[trigger] w.contains(x) <==> (v.contains(x) && x != k) by {
            if v.contains(x) && x != k {
                let i = v.index_of(x);
                if i < d.len() {
                    assert(d[i] == x);
                    assert(wd.contains(x));
                    assert(w[wd.index_of(x)] == x);
                } else {
                    assert(w[wd.len() as int] == x);
                }
            }
            if w.contains(x) {
                let i = w.index_of(x);
                if i < wd.len() {
                    assert(wd[i] == x);
                    assert(wd.contains(x));
                    assert(v[d.index_of(x)] == x);
                } else {
                    assert(v[v.len() - 1] == x);
                }
            }
        }
    }
}

/// Taking a number out leaves every other one and not that one.
pub proof fn taking_out_leaves_the_others(v: Seq<u64>, k: u64, x: u64)
    ensures
        without(v, k).contains(x) <==> (v.contains(x) && x != k),
{
    without_members(v, k);
}

pub fn drop_first(v: &Vec<(u64, u64)>, k: u64) -> (out: Vec<(u64, u64)>)
    ensures
        out@ == without_first(v@, k),
{
    let mut out: Vec<(u64, u64)> = Vec::new();
    let mut i: usize = 0;
    while i < v.len()
        invariant
            i <= v.len(),
            out@ == without_first(v@.take(i as int), k),
        decreases v.len() - i,
    {
        if v[i].0 != k {
            out.push(v[i]);
        }
        proof {
            assert(v@.take(i + 1).drop_last() =~= v@.take(i as int));
        }
        i = i + 1;
    }
    assert(v@.take(v.len() as int) =~= v@);
    out
}

pub fn drop_second(v: &Vec<(u64, u64)>, k: u64) -> (out: Vec<(u64, u64)>)
    ensures
        out@ == without_second(v@, k),
{
    let mut out: Vec<(u64, u64)> = Vec::new();
    let mut i: usize = 0;
    while i < v.len()
        invariant
            i <= v.len(),
            out@ == without_second(v@.take(i as int), k),
        decreases v.len() - i,
    {
        if v[i].1 != k {
            out.push(v[i]);
        }
        proof {
            assert(v@.take(i + 1).drop_last() =~= v@.take(i as int));
        }
        i = i + 1;
    }
    assert(v@.take(v.len() as int) =~= v@);
    out
}

pub fn find_second(v: &Vec<(u64, u64)>, k: u64) -> (r: Option<u64>)
    ensures
        r == second_of(v@, k),
{
    let mut i: usize = v.len();
    proof {
        assert(v@.take(v.len() as int) =~= v@);
    }
    while i > 0
        invariant
            i <= v.len(),
            second_of(v@, k) == second_of(v@.take(i as int), k),
        decreases i,
    {
        proof {
            assert(v@.take(i as int).drop_last() =~= v@.take(i - 1));
        }
        if v[i - 1].0 == k {
            return Some(v[i - 1].1);
        }
        i = i - 1;
    }
    None
}

pub fn ends_in(v: &Vec<(u64, u64)>, k: u64) -> (b: bool)
    ensures
        b == has_second(v@, k),
{
    let mut i: usize = 0;
    while i < v.len()
        invariant
            i <= v.len(),
            forall|j: int| 0 <= j < i ==> (#[trigger] v@[j]).1 != k,
        decreases v.len() - i,
    {
        if v[i].1 == k {
            assert(v@[i as int].1 == k);
            return true;
        }
        i = i + 1;
    }
    false
}

pub fn take_out(v: &Vec<u64>, k: u64) -> (out: Vec<u64>)
    ensures
        out@ == without(v@, k),
{
    let mut out: Vec<u64> = Vec::new();
    let mut i: usize = 0;
    while i < v.len()
        invariant
            i <= v.len(),
            out@ == without(v@.take(i as int), k),
        decreases v.len() - i,
    {
        if v[i] != k {
            out.push(v[i]);
        }
        proof {
            assert(v@.take(i + 1).drop_last() =~= v@.take(i as int));
        }
        i = i + 1;
    }
    assert(v@.take(v.len() as int) =~= v@);
    out
}

} // verus!
