//! A set of row numbers, kept in ascending order: what is selected in a list.
use vstd::prelude::*;

verus! {

/// Row numbers in strictly ascending order.
pub struct RowSet {
    pub rows: Vec<usize>,
}

/// Each number above the one before it.
pub open spec fn ascending(s: Seq<usize>) -> bool {
    forall|i: int, j: int| 0 <= i < j < s.len() ==> s[i] < s[j]
}

/// The rows from `a` to `b`, whichever is the lower, both ends in.
pub open spec fn span(a: usize, b: usize) -> Seq<usize> {
    if a <= b {
        Seq::new((b - a + 1) as nat, |i: int| (a + i) as usize)
    } else {
        Seq::new((a - b + 1) as nat, |i: int| (b + i) as usize)
    }
}

/// The rows between two ends ascend, and are those no further out than either end.
pub proof fn span_is_the_rows_between(a: usize, b: usize)
    ensures
        ascending(span(a, b)),
        forall|r: usize| #[trigger]
            span(a, b).contains(r) <==> (a <= r <= b || b <= r <= a),
        span(a, b) == span(b, a),
{
    assert forall|r: usize| #[trigger]
        span(a, b).contains(r) <==> (a <= r <= b || b <= r <= a) by {
        if a <= r <= b {
            assert(span(a, b)[r - a] == r);
        }
        if b <= r <= a {
            assert(span(a, b)[r - b] == r);
        }
    }
    assert(span(a, b) =~= span(b, a));
}

/// Two ascending lists with the same members are the same list.
pub proof fn members_decide(s: Seq<usize>, t: Seq<usize>)
    requires
        ascending(s),
        ascending(t),
        forall|r: usize| #[trigger] s.contains(r) <==> t.contains(r),
    ensures
        s == t,
    decreases s.len(),
{
    if s.len() == 0 {
        if t.len() > 0 {
            assert(t.contains(t[0]));
            assert(s.contains(t[0]));
        }
        assert(s =~= t);
    } else {
        assert(s.contains(s.last()));
        assert(t.contains(s.last()));
        assert(t.len() > 0);
        assert(t.contains(t.last()));
        let (i, j) = (s.index_of(t.last()), t.index_of(s.last()));
        assert(s.contains(t.last()));
        assert(s[i] == t.last() && t[j] == s.last());
        assert(s.last() == t.last());
        let (s1, t1) = (s.drop_last(), t.drop_last());
        assert forall|r: usize| #[trigger] s1.contains(r) <==> t1.contains(r) by {
            if s1.contains(r) {
                let k = s1.index_of(r);
                assert(s[k] == r && r < s.last());
                assert(s.contains(r));
                let m = t.index_of(r);
                assert(t[m] == r);
                assert(t1[m] == r);
            }
            if t1.contains(r) {
                let k = t1.index_of(r);
                assert(t[k] == r && r < t.last());
                assert(t.contains(r));
                assert(s.contains(r));
                let m = s.index_of(r);
                assert(s[m] == r);
                assert(s1[m] == r);
            }
        }
        members_decide(s1, t1);
        assert(s =~= s1.push(s.last()));
        assert(t =~= t1.push(t.last()));
    }
}

/// An ascending list with one more row in its place.
pub open spec fn with_row(s: Seq<usize>, row: usize) -> Seq<usize>
    decreases s.len(),
{
    if s.len() == 0 {
        seq![row]
    } else if s.last() < row {
        s.push(row)
    } else {
        with_row(s.drop_last(), row).push(s.last())
    }
}

/// A list without a row.
pub open spec fn without_row(s: Seq<usize>, row: usize) -> Seq<usize>
    decreases s.len(),
{
    if s.len() == 0 {
        s
    } else if s.last() == row {
        without_row(s.drop_last(), row)
    } else {
        without_row(s.drop_last(), row).push(s.last())
    }
}

/// A list with a row's membership turned over.
pub open spec fn toggled(s: Seq<usize>, row: usize) -> Seq<usize> {
    if s.contains(row) {
        without_row(s, row)
    } else {
        with_row(s, row)
    }
}

proof fn with_row_members(s: Seq<usize>, row: usize)
    requires
        ascending(s),
        !s.contains(row),
    ensures
        ascending(with_row(s, row)),
        forall|r: usize| #[trigger] with_row(s, row).contains(r) <==> (s.contains(r) || r == row),
    decreases s.len(),
{
    let w = with_row(s, row);
    if s.len() == 0 {
        assert(w[0] == row);
    } else if s.last() < row {
        assert forall|r: usize| #[trigger] w.contains(r) <==> (s.contains(r) || r == row) by {
            if s.contains(r) {
                assert(w[s.index_of(r)] == r);
            }
            if r == row {
                assert(w[s.len() as int] == r);
            }
            if w.contains(r) {
                let k = w.index_of(r);
                if k < s.len() {
                    assert(s[k] == r);
                }
            }
        }
    } else {
        let d = s.drop_last();
        assert(s.contains(s.last()));
        assert forall|r: usize| d.contains(r) implies s.contains(r) by {
            assert(s[d.index_of(r)] == r);
        }
        with_row_members(d, row);
        let wd = with_row(d, row);
        assert forall|i: int| 0 <= i < wd.len() implies #[trigger] wd[i] < s.last() by {
            assert(wd.contains(wd[i]));
            if d.contains(wd[i]) {
                assert(d[d.index_of(wd[i])] == wd[i]);
            }
        }
        assert forall|r: usize| #[trigger] w.contains(r) <==> (s.contains(r) || r == row) by {
            if s.contains(r) {
                let k = s.index_of(r);
                if k < d.len() {
                    assert(d[k] == r);
                    assert(wd.contains(r));
                    assert(w[wd.index_of(r)] == r);
                } else {
                    assert(w[wd.len() as int] == r);
                }
            }
            if r == row {
                assert(wd.contains(r));
                assert(w[wd.index_of(r)] == r);
            }
            if w.contains(r) {
                let k = w.index_of(r);
                if k < wd.len() {
                    assert(wd[k] == r);
                    assert(wd.contains(r));
                }
            }
        }
    }
}

proof fn without_row_members(s: Seq<usize>, row: usize)
    requires
        ascending(s),
    ensures
        ascending(without_row(s, row)),
        forall|r: usize| #[trigger]
            without_row(s, row).contains(r) <==> (s.contains(r) && r != row),
    decreases s.len(),
{
    let w = without_row(s, row);
    if s.len() > 0 {
        let d = s.drop_last();
        without_row_members(d, row);
        let wd = without_row(d, row);
        assert forall|i: int| 0 <= i < wd.len() implies #[trigger] wd[i] < s.last() by {
            assert(wd.contains(wd[i]));
            assert(d[d.index_of(wd[i])] == wd[i]);
        }
        assert forall|r: usize| #[trigger] w.contains(r) <==> (s.contains(r) && r != row) by {
            if s.contains(r) && r != row {
                let k = s.index_of(r);
                if k < d.len() {
                    assert(d[k] == r);
                    assert(wd.contains(r));
                    assert(w[wd.index_of(r)] == r);
                } else {
                    assert(w[wd.len() as int] == r);
                }
            }
            if w.contains(r) {
                let k = w.index_of(r);
                if k < wd.len() {
                    assert(wd[k] == r);
                    assert(wd.contains(r));
                    assert(s[d.index_of(r)] == r);
                } else {
                    assert(s[s.len() - 1] == r);
                }
            }
        }
    }
}

/// The rows of a list in ascending order, each of them once.
pub open spec fn gathered(list: Seq<usize>) -> Seq<usize>
    decreases list.len(),
{
    if list.len() == 0 {
        list
    } else {
        let g = gathered(list.drop_last());
        if g.contains(list.last()) {
            g
        } else {
            with_row(g, list.last())
        }
    }
}

/// Gathering keeps exactly the rows of the list.
pub proof fn gathering_keeps_the_rows(list: Seq<usize>)
    ensures
        ascending(gathered(list)),
        forall|r: usize| #[trigger] gathered(list).contains(r) <==> list.contains(r),
    decreases list.len(),
{
    if list.len() > 0 {
        let d = list.drop_last();
        gathering_keeps_the_rows(d);
        let g = gathered(d);
        if !g.contains(list.last()) {
            with_row_members(g, list.last());
        }
        assert forall|r: usize| #[trigger]
            gathered(list).contains(r) <==> list.contains(r) by {
            if d.contains(r) {
                assert(list[d.index_of(r)] == r);
                assert(g.contains(r));
            }
            if list.contains(r) {
                let k = list.index_of(r);
                if k < d.len() {
                    assert(d[k] == r);
                    assert(g.contains(r));
                }
            }
            if r == list.last() {
                assert(list[list.len() - 1] == r);
            }
            if g.contains(r) {
                assert(d.contains(r));
            }
        }
    }
}

/// Turning a row's membership over changes that row's membership and no other, and keeps the
/// list ascending.
pub proof fn toggling_changes_one_row(s: Seq<usize>, row: usize)
    requires
        ascending(s),
    ensures
        ascending(toggled(s, row)),
        forall|r: usize| #[trigger]
            toggled(s, row).contains(r) <==> (s.contains(r) != (r == row)),
{
    if s.contains(row) {
        without_row_members(s, row);
    } else {
        with_row_members(s, row);
    }
}

/// Turning a row's membership over twice leaves the list as it was.
pub proof fn toggling_twice_is_nothing(s: Seq<usize>, row: usize)
    requires
        ascending(s),
    ensures
        toggled(toggled(s, row), row) == s,
{
    let t = toggled(s, row);
    toggling_changes_one_row(s, row);
    toggling_changes_one_row(t, row);
    assert forall|r: usize| #[trigger] toggled(t, row).contains(r) <==> s.contains(r) by {
        assert(t.contains(r) <==> (s.contains(r) != (r == row)));
    }
    members_decide(toggled(t, row), s);
}

impl View for RowSet {
    type V = Seq<usize>;

    open spec fn view(&self) -> Seq<usize> {
        self.rows@
    }
}

impl RowSet {
    /// The rows ascend.
    pub open spec fn wf(&self) -> bool {
        ascending(self@)
    }

    /// No row.
    pub fn empty() -> (s: RowSet)
        ensures
            s.wf(),
            s@ == Seq::<usize>::empty(),
    {
        RowSet { rows: Vec::new() }
    }

    /// One row.
    pub fn one(row: usize) -> (s: RowSet)
        ensures
            s.wf(),
            s@ == seq![row],
    {
        let mut rows: Vec<usize> = Vec::new();
        rows.push(row);
        assert(rows@ =~= seq![row]);
        RowSet { rows }
    }

    /// The rows between two ends, both ends in.
    pub fn between(a: usize, b: usize) -> (s: RowSet)
        ensures
            s.wf(),
            s@ == span(a, b),
    {
        let (lo, hi): (usize, usize) = if a <= b {
            (a, b)
        } else {
            (b, a)
        };
        let mut rows: Vec<usize> = Vec::new();
        let mut r: usize = lo;
        while r < hi
            invariant
                lo <= r <= hi,
                rows@ == Seq::new((r - lo) as nat, |i: int| (lo + i) as usize),
            decreases hi - r,
        {
            rows.push(r);
            r = r + 1;
            assert(rows@ =~= Seq::new((r - lo) as nat, |i: int| (lo + i) as usize));
        }
        rows.push(hi);
        assert(rows@ =~= span(a, b));
        RowSet { rows }
    }

    /// Whether the row is in the set.
    pub fn has(&self, row: usize) -> (b: bool)
        ensures
            b == self@.contains(row),
    {
        let mut i: usize = 0;
        while i < self.rows.len()
            invariant
                i <= self.rows.len(),
                forall|k: int| 0 <= k < i ==> self.rows[k] != row,
            decreases self.rows.len() - i,
        {
            if self.rows[i] == row {
                assert(self@[i as int] == row);
                return true;
            }
            i = i + 1;
        }
        false
    }

    /// The last row, where there is one.
    pub fn last(&self) -> (r: Option<usize>)
        ensures
            r == (if self@.len() > 0 {
                Some(self@.last())
            } else {
                None
            }),
    {
        if self.rows.len() > 0 {
            Some(self.rows[self.rows.len() - 1])
        } else {
            None
        }
    }

    /// Puts a row in.
    pub fn insert(&mut self, row: usize)
        requires
            old(self).wf(),
        ensures
            final(self).wf(),
            forall|r: usize| #[trigger]
                final(self)@.contains(r) <==> (old(self)@.contains(r) || r == row),
    {
        let mut i: usize = 0;
        while i < self.rows.len() && self.rows[i] < row
            invariant
                i <= self.rows.len(),
                self@ == old(self)@,
                forall|k: int| 0 <= k < i ==> self.rows[k] < row,
            decreases self.rows.len() - i,
        {
            i = i + 1;
        }
        let ghost was = self@;
        if i < self.rows.len() && self.rows[i] == row {
            assert(was[i as int] == row);
        } else {
            self.rows.insert(i, row);
            proof {
                let now = self@;
                assert(now == was.insert(i as int, row));
                assert forall|r: usize| #[trigger]
                    now.contains(r) <==> (was.contains(r) || r == row) by {
                    if was.contains(r) {
                        let k = was.index_of(r);
                        assert(now[if k < i {
                            k
                        } else {
                            k + 1
                        }] == r);
                    }
                    if r == row {
                        assert(now[i as int] == r);
                    }
                    if now.contains(r) {
                        let k = now.index_of(r);
                        if k < i {
                            assert(was[k] == r);
                        } else if k > i {
                            assert(was[k - 1] == r);
                        }
                    }
                }
            }
        }
    }

    /// Takes a row out, and says whether it was in.
    pub fn remove(&mut self, row: usize) -> (was_in: bool)
        requires
            old(self).wf(),
        ensures
            final(self).wf(),
            was_in == old(self)@.contains(row),
            forall|r: usize| #[trigger]
                final(self)@.contains(r) <==> (old(self)@.contains(r) && r != row),
            !was_in ==> final(self)@ == old(self)@,
    {
        let mut i: usize = 0;
        while i < self.rows.len() && self.rows[i] != row
            invariant
                i <= self.rows.len(),
                self@ == old(self)@,
                forall|k: int| 0 <= k < i ==> self.rows[k] != row,
            decreases self.rows.len() - i,
        {
            i = i + 1;
        }
        let ghost was = self@;
        if i < self.rows.len() {
            assert(was[i as int] == row);
            self.rows.remove(i);
            proof {
                let now = self@;
                assert forall|r: usize| #[trigger]
                    now.contains(r) <==> (was.contains(r) && r != row) by {
                    if was.contains(r) && r != row {
                        let k = was.index_of(r);
                        assert(now[if k < i {
                            k
                        } else {
                            k - 1
                        }] == r);
                    }
                    if now.contains(r) {
                        let k = now.index_of(r);
                        if k < i {
                            assert(was[k] == r);
                        } else {
                            assert(was[k + 1] == r);
                        }
                    }
                }
            }
            true
        } else {
            assert(!was.contains(row));
            false
        }
    }

    /// Turns a row's membership over.
    pub fn toggle(&mut self, row: usize)
        requires
            old(self).wf(),
        ensures
            final(self).wf(),
            final(self)@ == toggled(old(self)@, row),
    {
        let ghost was = self@;
        let was_in = self.remove(row);
        if !was_in {
            self.insert(row);
        }
        proof {
            toggling_changes_one_row(was, row);
            assert forall|r: usize| #[trigger]
                self@.contains(r) <==> toggled(was, row).contains(r) by {
                assert(toggled(was, row).contains(r) <==> (was.contains(r) != (r == row)));
            }
            members_decide(self@, toggled(was, row));
        }
    }

    /// The set of the rows in a list.
    pub fn of(list: &Vec<usize>) -> (s: RowSet)
        ensures
            s.wf(),
            s@ == gathered(list@),
    {
        let mut s = RowSet::empty();
        let mut i: usize = 0;
        while i < list.len()
            invariant
                i <= list.len(),
                s.wf(),
                forall|r: usize| #[trigger] s@.contains(r) <==> list@.take(i as int).contains(r),
            decreases list.len() - i,
        {
            let ghost before = s@;
            let ghost row = list@[i as int];
            s.insert(list[i]);
            proof {
                let (t0, t1) = (list@.take(i as int), list@.take(i + 1));
                assert(t1 =~= t0.push(row));
                assert forall|r: usize| #[trigger] s@.contains(r) <==> t1.contains(r) by {
                    if t0.contains(r) {
                        assert(t1[t0.index_of(r)] == r);
                    }
                    if r == row {
                        assert(t1[i as int] == r);
                    }
                    if t1.contains(r) {
                        let k = t1.index_of(r);
                        if k < i {
                            assert(t0[k] == r);
                        }
                    }
                }
            }
            i = i + 1;
        }
        proof {
            assert(list@.take(list.len() as int) =~= list@);
            gathering_keeps_the_rows(list@);
            members_decide(s@, gathered(list@));
        }
        s
    }

    /// Whether two sets hold the same rows.
    pub fn equals(&self, other: &RowSet) -> (b: bool)
        ensures
            b == (self@ == other@),
    {
        if self.rows.len() != other.rows.len() {
            return false;
        }
        let mut i: usize = 0;
        while i < self.rows.len()
            invariant
                i <= self.rows.len() == other.rows.len(),
                forall|k: int| 0 <= k < i ==> self.rows[k] == other.rows[k],
            decreases self.rows.len() - i,
        {
            if self.rows[i] != other.rows[i] {
                assert(self@[i as int] != other@[i as int]);
                return false;
            }
            i = i + 1;
        }
        assert(self@ =~= other@);
        true
    }

    /// The rows as the app's events number them.
    pub fn numbers(&self) -> (v: Vec<i64>)
        ensures
            v@ == row_numbers(self@),
    {
        let mut v: Vec<i64> = Vec::new();
        let mut i: usize = 0;
        while i < self.rows.len()
            invariant
                i <= self.rows.len(),
                v@ == row_numbers(self@.take(i as int)),
            decreases self.rows.len() - i,
        {
            v.push(#[verifier::truncate] (self.rows[i] as i64));
            i = i + 1;
            assert(v@ =~= row_numbers(self@.take(i as int)));
        }
        assert(self@.take(self@.len() as int) =~= self@);
        v
    }
}

/// Rows as the app's events number them.
pub open spec fn row_numbers(rows: Seq<usize>) -> Seq<i64> {
    Seq::new(rows.len(), |i: int| rows[i] as i64)
}

} // verus!
