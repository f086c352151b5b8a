//! What the page's list promises of its selection and of its rows, row by row: which rows a press
//! or a key leaves selected, which cells the painting marks, what the app hears, and which rows
//! are built for a window.
use crate::dom::act::{Act, El, SpecAct, LAST};
use crate::dom::list::{
    app_selected, cell_paint, clicked, fill_acts, filled, given, grown, key_row, keyed,
    missing_rows, mount, mounts, painted, row_acts, rows_acts, selection_event, selection_paint,
    stale_cell, stale_cells, unbound, unbound_rows, window_from, window_to, ListView, Window,
};
use crate::dom::listen::CLICK;
use crate::model::SpecEvent;
use crate::num::Num;
use vstd::prelude::*;

verus! {

/// A press decides row by row: with control it turns over the pressed row and leaves every other
/// as it was; with shift it selects exactly the rows from the anchor to the pressed one, both
/// in; alone, or in a list that selects one row at a time, it selects the pressed row and no
/// other. The pressed row is the lead. The anchor stays where a range grows from it, and else
/// moves to the pressed row. The rows stay in ascending order and the rest of the list is as it
/// was.
pub proof fn a_press_decides_each_row(v: ListView, row: usize, ctrl: bool, shift: bool)
    requires
        forall|i: int, j: int| 0 <= i < j < v.selected.len() ==> v.selected[i] < v.selected[j],
    ensures
        ({
            let w = clicked(v, row, ctrl, shift);
            &&& forall|x: usize| #[trigger]
                w.selected.contains(x) <==> if v.multi && ctrl {
                    v.selected.contains(x) != (x == row)
                } else if v.multi && shift && v.anchor is Some {
                    v.anchor->0 <= x <= row || row <= x <= v.anchor->0
                } else {
                    x == row
                }
            &&& forall|i: int, j: int|
                0 <= i < j < w.selected.len() ==> w.selected[i] < w.selected[j]
            &&& w.lead == Some(row)
            &&& w.anchor == if v.multi && shift && !ctrl && v.anchor is Some {
                v.anchor
            } else {
                Some(row)
            }
            &&& (ListView { selected: v.selected, anchor: v.anchor, lead: v.lead, ..w }) == v
        }),
{
    let w = clicked(v, row, ctrl, shift);
    if v.multi && ctrl {
        crate::rows::toggling_changes_one_row(v.selected, row);
    } else if v.multi && shift {
        let a = if v.anchor is Some {
            v.anchor->0
        } else {
            row
        };
        crate::rows::span_is_the_rows_between(a, row);
    } else {
        assert(w.selected[0] == row);
    }
}

/// A plain press and a shifted one after it select exactly the rows from the first to the second,
/// whichever is lower, and further shifted presses move the second end only.
pub proof fn a_shifted_press_reaches_from_the_plain_one(
    v: ListView,
    first: usize,
    between: usize,
    second: usize,
)
    requires
        v.multi,
        forall|i: int, j: int| 0 <= i < j < v.selected.len() ==> v.selected[i] < v.selected[j],
    ensures
        ({
            let plain = clicked(v, first, false, false);
            let shifted = clicked(clicked(plain, between, false, true), second, false, true);
            &&& forall|x: usize| #[trigger]
                shifted.selected.contains(x) <==> (first <= x <= second || second <= x <= first)
            &&& shifted.anchor == Some(first)
            &&& shifted.lead == Some(second)
            &&& shifted == clicked(plain, second, false, true)
        }),
{
    let plain = clicked(v, first, false, false);
    let once = clicked(plain, between, false, true);
    a_press_decides_each_row(v, first, false, false);
    a_press_decides_each_row(plain, between, false, true);
    a_press_decides_each_row(once, second, false, true);
    let shifted = clicked(once, second, false, true);
    assert(shifted =~= clicked(plain, second, false, true));
}

/// A second press with control on the same row undoes the first.
pub proof fn control_pressed_twice_is_undone(v: ListView, row: usize)
    requires
        v.multi,
        forall|i: int, j: int| 0 <= i < j < v.selected.len() ==> v.selected[i] < v.selected[j],
    ensures
        clicked(clicked(v, row, true, false), row, true, false).selected == v.selected,
        clicked(v, row, true, false).selected.contains(row) == !v.selected.contains(row),
{
    crate::rows::toggling_twice_is_nothing(v.selected, row);
    crate::rows::toggling_changes_one_row(v.selected, row);
}

/// A key decides row by row as a press does: shifted where several rows may be selected it
/// selects exactly the rows from the anchor to the row it leads to, else that row and no other.
pub proof fn a_key_decides_each_row(v: ListView, row: usize, shift: bool)
    ensures
        ({
            let w = keyed(v, row, shift);
            &&& forall|x: usize| #[trigger]
                w.selected.contains(x) <==> if v.multi && shift && v.anchor is Some {
                    v.anchor->0 <= x <= row || row <= x <= v.anchor->0
                } else {
                    x == row
                }
            &&& forall|i: int, j: int|
                0 <= i < j < w.selected.len() ==> w.selected[i] < w.selected[j]
            &&& w.lead == Some(row)
            &&& w.anchor == if v.multi && shift && v.anchor is Some {
                v.anchor
            } else {
                Some(row)
            }
            &&& (ListView { selected: v.selected, anchor: v.anchor, lead: v.lead, ..w }) == v
        }),
{
    let w = keyed(v, row, shift);
    if v.multi && shift {
        let a = if v.anchor is Some {
            v.anchor->0
        } else {
            row
        };
        crate::rows::span_is_the_rows_between(a, row);
    } else {
        assert(w.selected[0] == row);
    }
}

/// Where the keys lead in a list of `n` rows. Up and down go one row from where the keyboard is,
/// the lead before the anchor before the last selected row, and stop at the first and the last
/// row; where the keyboard is nowhere, up starts at the last row and down at the first. The third
/// key leads to the first row and the fourth to the last; no other key leads anywhere.
pub proof fn keys_go_one_row_or_to_an_end(v: ListView, n: usize, dir: u32)
    requires
        n > 0,
    ensures
        v.lead matches Some(c) ==> 0 < c ==> key_row(v, 0, n) == Some((c - 1) as usize),
        v.lead matches Some(c) ==> c + 1 < n ==> key_row(v, 1, n) == Some((c + 1) as usize),
        v.lead == Some(0usize) ==> key_row(v, 0, n) == Some(0usize),
        v.lead matches Some(c) ==> c + 1 >= n ==> key_row(v, 1, n) == Some((n - 1) as usize),
        v.lead is None && v.anchor is Some ==> forall|d: u32| #[trigger]
            key_row(v, d, n) == key_row(ListView { lead: v.anchor, ..v }, d, n),
        v.lead is None && v.anchor is None && v.selected.len() > 0 ==> forall|d: u32| #[trigger]
            key_row(v, d, n) == key_row(
                ListView { lead: Some(v.selected[v.selected.len() - 1]), ..v },
                d,
                n,
            ),
        v.lead is None && v.anchor is None && v.selected.len() == 0 ==> {
            &&& key_row(v, 0, n) == Some((n - 1) as usize)
            &&& key_row(v, 1, n) == Some(0usize)
        },
        key_row(v, 2, n) == Some(0usize),
        key_row(v, 3, n) == Some((n - 1) as usize),
        dir > 3 ==> key_row(v, dir, n) is None,
{
}

/// What the app hears of a press or a key: where several rows may be selected the selected rows,
/// all of them in ascending order; else the one row.
pub proof fn the_selection_is_heard_as_it_is(v: ListView, row: usize)
    ensures
        v.multi ==> {
            &&& selection_event(v, row) is SelectionSet
            &&& selection_event(v, row)->SelectionSet_0.len() == v.selected.len()
            &&& forall|i: int|
                0 <= i < v.selected.len() ==> #[trigger] selection_event(
                    v,
                    row,
                )->SelectionSet_0[i] == v.selected[i] as i64
        },
        !v.multi ==> selection_event(v, row) == SpecEvent::SelectionChanged(row as i64),
{
}

/// The app's own selection: exactly the rows it named end up selected, in ascending order and
/// once each. Rows that were not the selection put both ends on the last of them; the same
/// rows again leave the ends where they are.
pub proof fn the_app_selects_the_rows_it_names(v: ListView, rows: Seq<usize>)
    requires
        forall|i: int, j: int| 0 <= i < j < v.selected.len() ==> v.selected[i] < v.selected[j],
    ensures
        ({
            let w = app_selected(v, rows);
            &&& forall|x: usize| #[trigger] w.selected.contains(x) <==> rows.contains(x)
            &&& forall|i: int, j: int|
                0 <= i < j < w.selected.len() ==> w.selected[i] < w.selected[j]
            &&& (forall|x: usize| #[trigger] v.selected.contains(x) <==> rows.contains(x)) ==> w
                == v
            &&& !(forall|x: usize| #[trigger] v.selected.contains(x) <==> rows.contains(x)) ==> {
                &&& w.anchor == if rows.len() > 0 {
                    Some(rows[rows.len() - 1])
                } else {
                    None::<usize>
                }
                &&& w.lead == w.anchor
            }
            &&& (ListView { selected: v.selected, anchor: v.anchor, lead: v.lead, ..w }) == v
        }),
{
    crate::rows::gathering_keeps_the_rows(rows);
    let g = crate::rows::gathered(rows);
    if forall|x: usize| #[trigger] v.selected.contains(x) <==> rows.contains(x) {
        assert forall|x: usize| #[trigger] g.contains(x) <==> v.selected.contains(x) by {
            assert(rows.contains(x) <==> v.selected.contains(x));
        }
        crate::rows::members_decide(g, v.selected);
    }
}

proof fn painted_marks(v: ListView, n: int, i: int)
    requires
        0 <= i < n <= v.cells.len(),
        v.cells[i] != 0,
    ensures
        ({
            let on = v.selected.contains(i as usize);
            let c = El::Own(v.cells[i]);
            &&& painted(v, n).contains(Act::Class(c, "selected"@, on))
            &&& v.selectable ==> painted(v, n).contains(
                Act::Attr(
                    c,
                    "aria-selected"@,
                    if on {
                        "true"@
                    } else {
                        "false"@
                    },
                ),
            )
        }),
    decreases n,
{
    let on = v.selected.contains(i as usize);
    let c = El::Own(v.cells[i]);
    let before = painted(v, n - 1);
    if i == n - 1 {
        let k = before.len() as int;
        assert(painted(v, n)[k] == cell_paint(v, i)[0]);
        if v.selectable {
            assert(painted(v, n)[k + 1] == cell_paint(v, i)[1]);
        }
    } else {
        painted_marks(v, n - 1, i);
        let a: SpecAct = Act::Class(c, "selected"@, on);
        assert(painted(v, n)[before.index_of(a)] == a);
        if v.selectable {
            let b: SpecAct = Act::Attr(
                c,
                "aria-selected"@,
                if on {
                    "true"@
                } else {
                    "false"@
                },
            );
            assert(painted(v, n)[before.index_of(b)] == b);
        }
    }
}

proof fn painted_is_marks(v: ListView, n: int, k: int)
    requires
        n <= v.cells.len(),
        0 <= k < painted(v, n).len(),
    ensures
        exists|i: int|
            0 <= i < n && #[trigger] v.cells[i] != 0 && {
                let on = v.selected.contains(i as usize);
                let c = El::Own(v.cells[i]);
                ||| painted(v, n)[k] == SpecAct::Class(c, "selected"@, on)
                ||| v.selectable && painted(v, n)[k] == SpecAct::Attr(
                    c,
                    "aria-selected"@,
                    if on {
                        "true"@
                    } else {
                        "false"@
                    },
                )
            },
    decreases n,
{
    let before = painted(v, n - 1);
    if n > 0 {
        if k < before.len() {
            painted_is_marks(v, n - 1, k);
            assert(painted(v, n)[k] == before[k]);
        } else {
            assert(painted(v, n)[k] == cell_paint(v, n - 1)[k - before.len()]);
            assert(v.cells[n - 1] != 0);
        }
    }
}

/// Painting marks the cell of every built row, on where the row is selected and off where it is
/// not, for eyes and, in a list that can be selected in, for screen readers too; and it does
/// nothing else.
pub proof fn painting_marks_the_selected_rows(v: ListView, i: int, k: int)
    ensures
        0 <= i < v.cells.len() && v.cells[i] != 0 ==> {
            let on = v.selected.contains(i as usize);
            let c = El::Own(v.cells[i]);
            &&& selection_paint(v).contains(Act::Class(c, "selected"@, on))
            &&& v.selectable && on ==> selection_paint(v).contains(
                Act::Attr(c, "aria-selected"@, "true"@),
            )
            &&& v.selectable && !on ==> selection_paint(v).contains(
                Act::Attr(c, "aria-selected"@, "false"@),
            )
        },
        0 <= k < selection_paint(v).len() ==> exists|r: int|
            0 <= r < v.cells.len() && #[trigger] v.cells[r] != 0 && {
                let on = v.selected.contains(r as usize);
                let c = El::Own(v.cells[r]);
                ||| selection_paint(v)[k] == SpecAct::Class(c, "selected"@, on)
                ||| v.selectable && selection_paint(v)[k] == SpecAct::Attr(
                    c,
                    "aria-selected"@,
                    if on {
                        "true"@
                    } else {
                        "false"@
                    },
                )
            },
{
    let n = v.cells.len() as int;
    if 0 <= i < n && v.cells[i] != 0 {
        painted_marks(v, n, i);
    }
    if 0 <= k < selection_paint(v).len() {
        painted_is_marks(v, n, k);
    }
}

// ---- building rows ----------------------------------------------------------------------------

proof fn missing_members(cells: Seq<u32>, lo: int, hi: int)
    requires
        0 <= lo,
        hi <= usize::MAX,
    ensures
        forall|r: usize| #[trigger]
            missing_rows(cells, lo, hi).contains(r) <==> (lo <= r < hi && cells[r as int] == 0),
        forall|i: int, j: int|
            0 <= i < j < missing_rows(cells, lo, hi).len() ==> missing_rows(cells, lo, hi)[i]
                < missing_rows(cells, lo, hi)[j],
    decreases hi - lo,
{
    let m = missing_rows(cells, lo, hi);
    if lo < hi {
        missing_members(cells, lo, hi - 1);
        let before = missing_rows(cells, lo, hi - 1);
        assert forall|i: int| 0 <= i < before.len() implies #[trigger] before[i] < hi - 1 by {
            assert(before.contains(before[i]));
        }
        assert forall|r: usize| #[trigger]
            m.contains(r) <==> (lo <= r < hi && cells[r as int] == 0) by {
            assert(before.contains(r) <==> (lo <= r < hi - 1 && cells[r as int] == 0));
            if before.contains(r) {
                assert(m[before.index_of(r)] == r);
            }
            if r == hi - 1 && cells[r as int] == 0 {
                assert(m[before.len() as int] == r);
            }
            if m.contains(r) {
                let k = m.index_of(r);
                if k < before.len() {
                    assert(before[k] == r);
                }
            }
        }
    }
}

proof fn unbound_members(bound: Seq<bool>, lo: int, hi: int)
    requires
        0 <= lo,
        hi <= usize::MAX,
    ensures
        forall|r: usize| #[trigger]
            unbound_rows(bound, lo, hi).contains(r) <==> (lo <= r < hi && !bound[r as int]),
    decreases hi - lo,
{
    let m = unbound_rows(bound, lo, hi);
    if lo < hi {
        unbound_members(bound, lo, hi - 1);
        let before = unbound_rows(bound, lo, hi - 1);
        assert forall|r: usize| #[trigger]
            m.contains(r) <==> (lo <= r < hi && !bound[r as int]) by {
            assert(before.contains(r) <==> (lo <= r < hi - 1 && !bound[r as int]));
            if before.contains(r) {
                assert(m[before.index_of(r)] == r);
            }
            if r == hi - 1 && !bound[r as int] {
                assert(m[before.len() as int] == r);
            }
            if m.contains(r) {
                let k = m.index_of(r);
                if k < before.len() {
                    assert(before[k] == r);
                }
            }
        }
    }
}

/// The rows that need a cell are those of the source within eight rows of what shows that have
/// none, each of them once, from the top down.
pub proof fn the_rows_near_the_window_get_cells(v: ListView, n: usize, w: Window)
    ensures
        ({
            let rows = missing_rows(grown(v, n).cells, window_from(w), window_to(w, n));
            &&& forall|r: usize| #[trigger]
                rows.contains(r) <==> {
                    &&& w.first <= r + 8
                    &&& r < w.end + 8
                    &&& r < n
                    &&& r < v.cells.len() ==> v.cells[r as int] == 0
                }
            &&& forall|i: int, j: int| 0 <= i < j < rows.len() ==> rows[i] < rows[j]
        }),
{
    missing_members(grown(v, n).cells, window_from(w), window_to(w, n));
}

proof fn given_in_order(cells: Seq<u32>, created: Seq<u32>, lo: int, hi: int, k: int, m: int)
    requires
        0 <= lo <= hi <= cells.len() <= usize::MAX,
        lo <= m <= hi,
        0 <= k < missing_rows(cells, lo, m).len(),
    ensures
        ({
            let r = missing_rows(cells, lo, m)[k];
            &&& lo <= r < m
            &&& cells[r as int] == 0
            &&& missing_rows(cells, lo, r as int).len() == k
        }),
    decreases m - lo,
{
    if lo < m {
        let before = missing_rows(cells, lo, m - 1);
        if k < before.len() {
            given_in_order(cells, created, lo, hi, k, m - 1);
        }
    }
}

/// The cells made for a window go to the rows that had none, the k-th new cell to the k-th of
/// those rows from the top; every other row keeps what it had.
pub proof fn new_cells_go_to_their_rows(
    v: ListView,
    n: usize,
    w: Window,
    width: Num,
    created: Seq<u32>,
    k: int,
    row: usize,
)
    requires
        v.cells.len() <= usize::MAX,
    ensures
        ({
            let rows = missing_rows(grown(v, n).cells, window_from(w), window_to(w, n));
            let f = filled(v, n, w, width, created);
            &&& 0 <= k < rows.len() ==> f.cells[rows[k] as int] == created[k]
            &&& row < v.cells.len() && !rows.contains(row) ==> f.cells[row as int]
                == v.cells[row as int]
            &&& f.cells.len() == if v.cells.len() < n {
                n as nat
            } else {
                v.cells.len()
            }
            &&& f.last_width == width
        }),
{
    let g = grown(v, n);
    let (lo, hi) = (window_from(w), window_to(w, n));
    missing_members(g.cells, lo, hi);
    let rows = missing_rows(g.cells, lo, hi);
    if 0 <= k < rows.len() {
        given_in_order(g.cells, created, lo, hi, k, hi);
    }
    if row < v.cells.len() && !rows.contains(row) {
        assert(!(lo <= row < hi && g.cells[row as int] == 0));
    }
}

proof fn rows_do(v: ListView, rows: Seq<usize>, width: Num, k: int, i: int)
    requires
        0 <= i < k <= rows.len(),
    ensures
        ({
            let all = rows_acts(v, rows, width, k);
            let one = row_acts(v, rows[i], width);
            forall|j: int| 0 <= j < one.len() ==> all.contains(#[trigger] one[j])
        }),
    decreases k,
{
    let all = rows_acts(v, rows, width, k);
    let before = rows_acts(v, rows, width, k - 1);
    let one = row_acts(v, rows[i], width);
    assert forall|j: int| 0 <= j < one.len() implies all.contains(#[trigger] one[j]) by {
        if i == k - 1 {
            assert(all[before.len() + j] == one[j]);
        } else {
            rows_do(v, rows, width, k - 1, i);
            assert(all[before.index_of(one[j])] == one[j]);
        }
    }
}

proof fn rows_bind_only_theirs(v: ListView, rows: Seq<usize>, width: Num, k: int, m: int)
    requires
        k <= rows.len(),
        0 <= m < rows_acts(v, rows, width, k).len(),
        rows_acts(v, rows, width, k)[m] is BindRow,
    ensures
        rows_acts(v, rows, width, k)[m] matches Act::BindRow { row, cell } && rows.contains(row)
            && cell == v.cells[row as int],
    decreases k,
{
    if k > 0 {
        let before = rows_acts(v, rows, width, k - 1);
        let all = rows_acts(v, rows, width, k);
        if m < before.len() {
            assert(all[m] == before[m]);
            rows_bind_only_theirs(v, rows, width, k - 1, m);
        } else {
            assert(all[m] == row_acts(v, rows[k - 1], width)[m - before.len()]);
            assert(rows.contains(rows[k - 1]));
        }
    }
}

proof fn mounts_do(v: ListView, created: Seq<u32>, k: int, i: int)
    requires
        0 <= i < k <= created.len(),
    ensures
        ({
            let all = mounts(v, created, k);
            let one = mount(v, created[i]);
            forall|j: int| 0 <= j < one.len() ==> all.contains(#[trigger] one[j])
        }),
    decreases k,
{
    let all = mounts(v, created, k);
    let before = mounts(v, created, k - 1);
    let one = mount(v, created[i]);
    assert forall|j: int| 0 <= j < one.len() implies all.contains(#[trigger] one[j]) by {
        if i == k - 1 {
            assert(all[before.len() + j] == one[j]);
        } else {
            mounts_do(v, created, k - 1, i);
            assert(all[before.index_of(one[j])] == one[j]);
        }
    }
}

proof fn mounts_only_mount(v: ListView, created: Seq<u32>, k: int, m: int)
    requires
        0 <= m < mounts(v, created, k).len(),
    ensures
        !(mounts(v, created, k)[m] is BindRow),
    decreases k,
{
    if k > 0 {
        let before = mounts(v, created, k - 1);
        if m < before.len() {
            mounts_only_mount(v, created, k - 1, m);
        }
    }
}

/// Building a window does for each new cell what makes it part of the list: it stands last in
/// the content and, in a list that can be selected in, hears presses and is an option to screen
/// readers.
pub proof fn new_cells_join_the_list(
    v: ListView,
    n: usize,
    w: Window,
    width: Num,
    created: Seq<u32>,
    k: int,
)
    requires
        0 <= k < created.len(),
    ensures
        ({
            let done = fill_acts(v, n, w, width, created);
            let c = created[k];
            &&& done.contains(Act::Insert { parent: v.content, child: El::Own(c), index: LAST })
            &&& v.selectable ==> done.contains(Act::Listen(c, CLICK))
            &&& v.selectable ==> done.contains(Act::Attr(El::Own(c), "role"@, "option"@))
        }),
{
    let done = fill_acts(v, n, w, width, created);
    let m = mounts(v, created, created.len() as int);
    let one = mount(v, created[k]);
    mounts_do(v, created, created.len() as int, k);
    assert forall|j: int| 0 <= j < one.len() implies done.contains(#[trigger] one[j]) by {
        assert(m.contains(one[j]));
        assert(done[m.index_of(one[j])] == one[j]);
    }
    assert(one[0] == SpecAct::Insert {
        parent: v.content,
        child: El::Own(created[k]),
        index: LAST,
    });
    if v.selectable {
        assert(one[1] == SpecAct::Listen(created[k], CLICK));
        assert(one[2] == SpecAct::Attr(
            El::Own(created[k]),
            "role"@,
            "option"@,
        ));
    }
}

/// Building a window fills exactly the rows near it that are not current: each such row's cell
/// is framed at the row's place with the list's width and pitch, shown, ruled off where the list
/// has separators, and bound to the row; no other row is bound. The content is sized to the
/// whole source.
pub proof fn the_rows_out_of_date_are_filled(
    v: ListView,
    n: usize,
    w: Window,
    width: Num,
    created: Seq<u32>,
    row: usize,
    cell: u32,
)
    requires
        v.cells.len() == v.bound.len(),
    ensures
        ({
            let done = fill_acts(v, n, w, width, created);
            let f = filled(v, n, w, width, created);
            let due = w.first <= row + 8 && row < w.end + 8 && row < n && (row < v.bound.len()
                ==> !v.bound[row as int]);
            let pitch = crate::dom::list::at_least_one(v.pitch);
            &&& done.contains(Act::BindRow { row, cell }) <==> due && cell == f.cells[row as int]
            &&& due ==> {
                let c = f.cells[row as int];
                &&& done.contains(Act::RowFrame { cell: c, row, width, pitch })
                &&& done.contains(Act::Style(El::Own(c), "display"@, "block"@))
                &&& v.separators ==> done.contains(
                    Act::Style(El::Own(c), "box-sizing"@, "border-box"@),
                )
                &&& v.separators ==> done.contains(
                    Act::Style(
                        El::Own(c),
                        "border-bottom"@,
                        "1px solid color-mix(in srgb, currentColor 18%, transparent)"@,
                    ),
                )
            }
            &&& done.contains(Act::Extent { content: v.content, rows: n, pitch })
            &&& row < n && w.first <= row + 8 && row < w.end + 8 ==> f.bound[row as int]
            &&& row < v.bound.len() && !(row < n && w.first <= row + 8 && row < w.end + 8)
                ==> f.bound[row as int] == v.bound[row as int]
        }),
{
    let done = fill_acts(v, n, w, width, created);
    let f = filled(v, n, w, width, created);
    let g = grown(v, n);
    let (lo, hi) = (window_from(w), window_to(w, n));
    let rows = unbound_rows(g.bound, lo, hi);
    let due = w.first <= row + 8 && row < w.end + 8 && row < n && (row < v.bound.len()
        ==> !v.bound[row as int]);
    unbound_members(g.bound, lo, hi);
    let m = mounts(v, created, created.len() as int);
    let r = rows_acts(f, rows, width, rows.len() as int);
    let extent: Seq<SpecAct> = seq![
        Act::Style(El::Own(v.content), "position"@, "relative"@),
        Act::Extent {
            content: v.content,
            rows: n,
            pitch: crate::dom::list::at_least_one(v.pitch),
        },
    ];
    let p = selection_paint(f);
    assert(done =~= m + r + extent + p);
    assert(done[(m.len() + r.len() + 1) as int] == extent[1]);
    assert(rows.contains(row) <==> due);
    if due {
        let i = rows.index_of(row);
        rows_do(f, rows, width, rows.len() as int, i);
        let one = row_acts(f, row, width);
        assert forall|j: int| 0 <= j < one.len() implies done.contains(#[trigger] one[j]) by {
            assert(r.contains(one[j]));
            assert(done[m.len() + r.index_of(one[j])] == one[j]);
        }
        let c = f.cells[row as int];
        assert(done.contains(one[0]));
        assert(done.contains(one[1]));
        if v.separators {
            assert(done.contains(one[2]));
            assert(done.contains(one[3]));
        }
        assert(one.last() == SpecAct::BindRow { row, cell: c });
        assert(done.contains(one[one.len() - 1]));
    }
    let b: SpecAct = Act::BindRow { row, cell };
    if done.contains(b) {
        let k = done.index_of(b);
        if k < m.len() {
            assert(done[k] == m[k]);
            mounts_only_mount(v, created, created.len() as int, k);
        } else if k < m.len() + r.len() {
            assert(done[k] == r[k - m.len()]);
            rows_bind_only_theirs(f, rows, width, rows.len() as int, k - m.len());
        } else if k < m.len() + r.len() + 2 {
            assert(done[k] == extent[k - m.len() - r.len()]);
        } else {
            assert(done[k] == p[k - m.len() - r.len() - 2]);
            painting_marks_the_selected_rows(f, 0, k - m.len() - r.len() - 2);
        }
    }
}

proof fn stale_hidden(v: ListView, n: int, k: int, i: int)
    requires
        n <= i < k,
        v.cells[i] != 0,
    ensures
        stale_cells(v, n, k).contains(Act::Style(El::Own(v.cells[i]), "display"@, "none"@)),
        v.attached ==> stale_cells(v, n, k).contains(Act::RecycleCell(v.cells[i])),
    decreases k - n,
{
    let all = stale_cells(v, n, k);
    let before = stale_cells(v, n, k - 1);
    let a: SpecAct = Act::Style(El::Own(v.cells[i]), "display"@, "none"@);
    let b: SpecAct = Act::RecycleCell(v.cells[i]);
    if i == k - 1 {
        assert(all[before.len() as int] == stale_cell(v, i)[0]);
        if v.attached {
            assert(all[(before.len() + 1) as int] == stale_cell(v, i)[1]);
        }
    } else {
        stale_hidden(v, n, k - 1, i);
        assert(all[before.index_of(a)] == a);
        if v.attached {
            assert(all[before.index_of(b)] == b);
        }
    }
}

/// When the source changes nothing that was built is current any more; and the cells of rows
/// past the source's end are hidden and, where the source is attached, given back.
pub proof fn a_changed_source_leaves_nothing_current(v: ListView, n: usize, row: int)
    requires
        v.cells.len() == v.bound.len(),
        0 <= row < v.cells.len(),
    ensures
        !unbound(v).bound[row],
        unbound(v).cells == v.cells,
        unbound(v).selected == v.selected,
        n <= row && v.cells[row] != 0 ==> {
            let done = stale_cells(v, n as int, v.cells.len() as int);
            &&& done.contains(Act::Style(El::Own(v.cells[row]), "display"@, "none"@))
            &&& v.attached ==> done.contains(Act::RecycleCell(v.cells[row]))
        },
{
    if n <= row && v.cells[row] != 0 {
        stale_hidden(v, n as int, v.cells.len() as int, row);
    }
}

} // verus!
