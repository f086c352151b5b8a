//! The list the page emulates: which rows are built, which are selected, and where the keyboard
//! is. A row's cell, once made, stays that row's for good.
use crate::dom::act::{act, acts, attr, class, style, Act, DomAct, El, SpecAct, LAST};
use crate::dom::listen::CLICK;
use crate::model::{AppEvent, Event, NodeId, SpecEvent, Target};
use crate::num::{Num, INFINITY};
use crate::rows::{row_numbers, span, gathered, toggled, RowSet};
use vstd::prelude::*;

verus! {

/// Rows built beyond each edge of what shows.
pub const LIST_OVERSCAN: usize = 8;

/// The bit pattern of the number one.
pub const ONE: u64 = 0x3ff0_0000_0000_0000;

/// A number, or one where it is below one or not a number.
pub open spec fn at_least_one(n: Num) -> Num {
    if ONE <= n.bits <= INFINITY {
        n
    } else {
        Num { bits: ONE }
    }
}

pub fn one_at_least(n: Num) -> (r: Num)
    ensures
        r == at_least_one(n),
{
    if ONE <= n.bits && n.bits <= INFINITY {
        n
    } else {
        Num { bits: ONE }
    }
}

/// A list: its rows' cells and which of them show current content, and its selection. The
/// anchor is the fixed end of a shifted range, the lead the moving one.
pub struct ListEntry {
    pub node: NodeId,
    pub content: u32,
    pub pitch: Num,
    pub attached: bool,
    pub cells: Vec<u32>,
    pub bound: Vec<bool>,
    pub fill_pending: bool,
    pub last_width: Num,
    pub selectable: bool,
    pub separators: bool,
    pub multi: bool,
    pub selected: RowSet,
    pub anchor: Option<usize>,
    pub lead: Option<usize>,
}

/// A list as contracts speak of it.
#[verifier::ext_equal]
pub ghost struct ListView {
    pub node: NodeId,
    pub content: u32,
    pub pitch: Num,
    pub attached: bool,
    pub cells: Seq<u32>,
    pub bound: Seq<bool>,
    pub fill_pending: bool,
    pub last_width: Num,
    pub selectable: bool,
    pub separators: bool,
    pub multi: bool,
    pub selected: Seq<usize>,
    pub anchor: Option<usize>,
    pub lead: Option<usize>,
}

impl View for ListEntry {
    type V = ListView;

    open spec fn view(&self) -> ListView {
        ListView {
            node: self.node,
            content: self.content,
            pitch: self.pitch,
            attached: self.attached,
            cells: self.cells@,
            bound: self.bound@,
            fill_pending: self.fill_pending,
            last_width: self.last_width,
            selectable: self.selectable,
            separators: self.separators,
            multi: self.multi,
            selected: self.selected@,
            anchor: self.anchor,
            lead: self.lead,
        }
    }
}

// ---- selection -------------------------------------------------------------------------------

/// The treatment of one cell; a row that was never built has none to give.
pub open spec fn cell_paint(v: ListView, i: int) -> Seq<SpecAct> {
    let on = v.selected.contains(i as usize);
    if v.cells[i] == 0 {
        Seq::empty()
    } else if v.selectable {
        seq![
            Act::Class(El::Own(v.cells[i]), "selected"@, on),
            Act::Attr(
                El::Own(v.cells[i]),
                "aria-selected"@,
                if on {
                    "true"@
                } else {
                    "false"@
                },
            ),
        ]
    } else {
        seq![Act::Class(El::Own(v.cells[i]), "selected"@, on)]
    }
}

/// The treatment of the first `n` cells.
pub open spec fn painted(v: ListView, n: int) -> Seq<SpecAct>
    decreases n,
{
    if n <= 0 {
        Seq::empty()
    } else {
        painted(v, n - 1) + cell_paint(v, n - 1)
    }
}

/// The treatment of every cell.
pub open spec fn selection_paint(v: ListView) -> Seq<SpecAct> {
    painted(v, v.cells.len() as int)
}

/// Where the keyboard is: the end a shifted range last moved, else its fixed end, else the last
/// selected row.
pub open spec fn cursor(v: ListView) -> Option<usize> {
    if v.lead is Some {
        v.lead
    } else if v.anchor is Some {
        v.anchor
    } else if v.selected.len() > 0 {
        Some(v.selected.last())
    } else {
        None
    }
}

/// The row a key leads to in a list of `n` rows: 0 up, 1 down, 2 first, 3 last. With no cursor
/// down enters at the top and up at the bottom.
pub open spec fn key_row(v: ListView, dir: u32, n: usize) -> Option<usize> {
    if dir == 0 {
        match cursor(v) {
            Some(c) => Some(if c > 0 {
                (c - 1) as usize
            } else {
                0
            }),
            None => Some((n - 1) as usize),
        }
    } else if dir == 1 {
        match cursor(v) {
            Some(c) => Some(if c >= n - 1 {
                (n - 1) as usize
            } else {
                (c + 1) as usize
            }),
            None => Some(0),
        }
    } else if dir == 2 {
        Some(0)
    } else if dir == 3 {
        Some((n - 1) as usize)
    } else {
        None
    }
}

/// The range from the anchor to `row`, which becomes the lead; the anchor stays.
pub open spec fn extended(v: ListView, row: usize) -> ListView {
    let a = match v.anchor {
        Some(a) => a,
        None => row,
    };
    ListView { selected: span(a, row), anchor: Some(a), lead: Some(row), ..v }
}

/// `row` alone, both ends on it.
pub open spec fn picked(v: ListView, row: usize) -> ListView {
    ListView { selected: seq![row], anchor: Some(row), lead: Some(row), ..v }
}

/// `row` in or out of the selection, both ends on it.
pub open spec fn flipped(v: ListView, row: usize) -> ListView {
    ListView { selected: toggled(v.selected, row), anchor: Some(row), lead: Some(row), ..v }
}

/// The list after a key that leads to `row`.
pub open spec fn keyed(v: ListView, row: usize, shift: bool) -> ListView {
    if v.multi && shift {
        extended(v, row)
    } else {
        picked(v, row)
    }
}

/// The list after a press on `row`.
pub open spec fn clicked(v: ListView, row: usize, ctrl: bool, shift: bool) -> ListView {
    if v.multi && ctrl {
        flipped(v, row)
    } else if v.multi && shift {
        extended(v, row)
    } else {
        picked(v, row)
    }
}

/// What the app hears of a selection made at `row`.
pub open spec fn selection_event(v: ListView, row: usize) -> SpecEvent {
    if v.multi {
        Event::SelectionSet(row_numbers(v.selected))
    } else {
        Event::SelectionChanged(row as i64)
    }
}

/// The list after the app sets its selection. The same rows coming back leave everything where
/// it is; other rows put both ends on the last of them.
pub open spec fn app_selected(v: ListView, rows: Seq<usize>) -> ListView {
    let last = if rows.len() > 0 {
        Some(rows.last())
    } else {
        None
    };
    if gathered(rows) == v.selected {
        v
    } else {
        ListView { selected: gathered(rows), anchor: last, lead: last, ..v }
    }
}

/// The echo of a list's own selection changes nothing, so the range being extended keeps its
/// fixed end.
pub proof fn echoed_selection_changes_nothing(v: ListView)
    requires
        crate::rows::ascending(v.selected),
    ensures
        app_selected(v, v.selected) == v,
{
    crate::rows::gathering_keeps_the_rows(v.selected);
    crate::rows::members_decide(gathered(v.selected), v.selected);
}

/// A shifted arrow down and one back up leave the range as it was: it is one range that grows
/// and shrinks at its moving end.
pub proof fn shifted_arrows_grow_and_shrink_one_range(v: ListView, n: usize)
    requires
        v.multi,
        v.anchor is Some,
        v.lead is Some,
        v.selected == span(v.anchor->0, v.lead->0),
        v.lead->0 + 1 < n,
    ensures
        ({
            let down = keyed(v, key_row(v, 1, n)->0, true);
            let back = keyed(down, key_row(down, 0, n)->0, true);
            &&& down.selected == span(v.anchor->0, (v.lead->0 + 1) as usize)
            &&& down.anchor == v.anchor
            &&& back == v
        }),
{
    let down = keyed(v, key_row(v, 1, n)->0, true);
    let back = keyed(down, key_row(down, 0, n)->0, true);
    assert(back =~= v);
}

/// A key from a row of the list leads to a row of the list.
pub proof fn keys_stay_in_the_list(v: ListView, dir: u32, n: usize)
    requires
        n > 0,
        cursor(v) matches Some(c) ==> c < n,
    ensures
        key_row(v, dir, n) matches Some(row) ==> row < n,
{
}

/// A list that selects one row at a time has one row selected, the one pressed.
pub proof fn single_selection_is_one_row(v: ListView, row: usize, ctrl: bool, shift: bool)
    requires
        !v.multi,
    ensures
        clicked(v, row, ctrl, shift).selected == seq![row],
        keyed(v, row, shift).selected == seq![row],
{
}

impl ListEntry {
    /// The selection ascends, and every cell has its mark of current content.
    pub open spec fn wf(&self) -> bool {
        self.selected.wf() && self.cells.len() == self.bound.len()
    }

    fn paint_selection(&self, out: &mut Vec<DomAct>)
        ensures
            acts(final(out)@) == acts(old(out)@) + selection_paint(self@),
    {
        let ghost start = acts(out@);
        let mut i: usize = 0;
        proof {
            assert(start =~= start + painted(self@, 0));
        }
        while i < self.cells.len()
            invariant
                i <= self.cells.len(),
                acts(out@) == start + painted(self@, i as int),
            decreases self.cells.len() - i,
        {
            let ghost before = acts(out@);
            let cell = self.cells[i];
            if cell != 0 {
                let on = self.selected.has(i);
                class(out, El::Own(cell), "selected", on);
                if self.selectable {
                    attr(
                        out,
                        El::Own(cell),
                        "aria-selected",
                        if on {
                            "true"
                        } else {
                            "false"
                        },
                    );
                }
            }
            proof {
                assert(acts(out@) =~= before + cell_paint(self@, i as int));
                assert(acts(out@) =~= start + painted(self@, i + 1));
            }
            i = i + 1;
        }
    }

    fn cursor(&self) -> (c: Option<usize>)
        ensures
            c == cursor(self@),
    {
        if self.lead.is_some() {
            self.lead
        } else if self.anchor.is_some() {
            self.anchor
        } else {
            self.selected.last()
        }
    }

    fn extend(&mut self, row: usize)
        requires
            old(self).wf(),
        ensures
            final(self).wf(),
            final(self)@ == extended(old(self)@, row),
    {
        let a: usize = match self.anchor {
            Some(a) => a,
            None => row,
        };
        self.selected = RowSet::between(a, row);
        self.anchor = Some(a);
        self.lead = Some(row);
    }

    fn pick(&mut self, row: usize)
        requires
            old(self).wf(),
        ensures
            final(self).wf(),
            final(self)@ == picked(old(self)@, row),
    {
        self.selected = RowSet::one(row);
        self.anchor = Some(row);
        self.lead = Some(row);
    }

    fn flip(&mut self, row: usize)
        requires
            old(self).wf(),
        ensures
            final(self).wf(),
            final(self)@ == flipped(old(self)@, row),
    {
        let mut selected = RowSet::empty();
        std::mem::swap(&mut selected, &mut self.selected);
        selected.toggle(row);
        self.selected = selected;
        self.anchor = Some(row);
        self.lead = Some(row);
    }

    fn event_at(&self, row: usize) -> (e: AppEvent)
        ensures
            e@ == selection_event(self@, row),
    {
        if self.multi {
            Event::SelectionSet(self.selected.numbers())
        } else {
            Event::SelectionChanged(#[verifier::truncate] (row as i64))
        }
    }

    /// A key the focused list claims, in a list of `n` rows: moves the selection, or extends it
    /// where several rows may be selected and shift is held, paints it, shows the row and tells
    /// the app. Nothing happens in a list that cannot be selected in, has no rows, or for any
    /// other key.
    pub fn key(&mut self, host: u32, dir: u32, shift: bool, n: usize) -> (out: Vec<DomAct>)
        requires
            old(self).wf(),
        ensures
            final(self).wf(),
            ({
                let v = old(self)@;
                if !v.selectable || n == 0 || key_row(v, dir, n) is None {
                    final(self)@ == v && acts(out@) == Seq::<SpecAct>::empty()
                } else {
                    let row = key_row(v, dir, n)->0;
                    let w = keyed(v, row, shift);
                    &&& final(self)@ == w
                    &&& acts(out@) == selection_paint(w).push(
                        Act::RevealRow { el: host, row, pitch: at_least_one(w.pitch) },
                    ).push(Act::Emit { to: Target::Node(w.node), event: selection_event(w, row) })
                }
            }),
    {
        let mut out: Vec<DomAct> = Vec::new();
        proof {
            assert(acts(out@) =~= Seq::<SpecAct>::empty());
        }
        if !self.selectable || n == 0 {
            return out;
        }
        let at = self.cursor();
        let row: usize = match dir {
            0 => match at {
                Some(c) => if c > 0 {
                    c - 1
                } else {
                    0
                },
                None => n - 1,
            },
            1 => match at {
                Some(c) => if c >= n - 1 {
                    n - 1
                } else {
                    c + 1
                },
                None => 0,
            },
            2 => 0,
            3 => n - 1,
            _ => {
                return out;
            },
        };
        if self.multi && shift {
            self.extend(row);
        } else {
            self.pick(row);
        }
        self.paint_selection(&mut out);
        proof {
            assert(acts(out@) =~= selection_paint(self@));
        }
        act(&mut out, Act::RevealRow { el: host, row, pitch: one_at_least(self.pitch) });
        let event = self.event_at(row);
        act(&mut out, Act::Emit { to: Target::Node(self.node), event });
        out
    }

    /// A press on a row: alone it picks the row, with control it turns its membership over,
    /// with shift it extends the range, the last two only where several rows may be selected.
    pub fn click(&mut self, row: usize, ctrl: bool, shift: bool) -> (out: Vec<DomAct>)
        requires
            old(self).wf(),
        ensures
            final(self).wf(),
            final(self)@ == clicked(old(self)@, row, ctrl, shift),
            acts(out@) == selection_paint(final(self)@).push(
                Act::Emit {
                    to: Target::Node(final(self)@.node),
                    event: selection_event(final(self)@, row),
                },
            ),
    {
        let mut out: Vec<DomAct> = Vec::new();
        if self.multi && ctrl {
            self.flip(row);
        } else if self.multi && shift {
            self.extend(row);
        } else {
            self.pick(row);
        }
        proof {
            assert(acts(out@) =~= Seq::<SpecAct>::empty());
        }
        self.paint_selection(&mut out);
        proof {
            assert(acts(out@) =~= selection_paint(self@));
        }
        let event = self.event_at(row);
        act(&mut out, Act::Emit { to: Target::Node(self.node), event });
        out
    }

    /// The app sets the selection.
    pub fn select(&mut self, rows: &Vec<usize>) -> (out: Vec<DomAct>)
        requires
            old(self).wf(),
        ensures
            final(self).wf(),
            final(self)@ == app_selected(old(self)@, rows@),
            acts(out@) == (if gathered(rows@) == old(self)@.selected {
                Seq::empty()
            } else {
                selection_paint(final(self)@)
            }),
    {
        let mut out: Vec<DomAct> = Vec::new();
        proof {
            assert(acts(out@) =~= Seq::<SpecAct>::empty());
        }
        let incoming = RowSet::of(rows);
        if !incoming.equals(&self.selected) {
            self.selected = incoming;
            self.anchor = if rows.len() > 0 {
                Some(rows[rows.len() - 1])
            } else {
                None
            };
            self.lead = self.anchor;
            self.paint_selection(&mut out);
            proof {
                assert(acts(out@) =~= selection_paint(self@));
            }
        }
        out
    }
}

// ---- building rows -----------------------------------------------------------------------------

/// The rows that show, from the first one up to, not including, `end`.
#[derive(Clone, Copy, Debug, PartialEq, Eq, Structural)]
pub struct Window {
    pub first: usize,
    pub end: usize,
}

/// The first row to have: the overscan above the first that shows.
pub open spec fn window_from(w: Window) -> int {
    if w.first > LIST_OVERSCAN {
        w.first - LIST_OVERSCAN
    } else {
        0
    }
}

/// The end of the rows to have: the overscan below the last that shows, inside the source.
pub open spec fn window_to(w: Window, n: usize) -> int {
    if w.end + LIST_OVERSCAN < n {
        w.end + LIST_OVERSCAN
    } else {
        n as int
    }
}

/// A list with a slot for each of `n` rows at least.
pub open spec fn grown(v: ListView, n: usize) -> ListView {
    if v.cells.len() < n {
        ListView {
            cells: Seq::new(n as nat, |i: int| if i < v.cells.len() { v.cells[i] } else { 0 }),
            bound: Seq::new(n as nat, |i: int| i < v.bound.len() && v.bound[i]),
            ..v
        }
    } else {
        v
    }
}

/// The rows from `lo` up to `hi` that have no cell.
pub open spec fn missing_rows(cells: Seq<u32>, lo: int, hi: int) -> Seq<usize>
    decreases hi - lo,
{
    if lo >= hi {
        Seq::empty()
    } else if cells[hi - 1] == 0 {
        missing_rows(cells, lo, hi - 1).push((hi - 1) as usize)
    } else {
        missing_rows(cells, lo, hi - 1)
    }
}

/// The rows from `lo` up to `hi` whose content is not current.
pub open spec fn unbound_rows(bound: Seq<bool>, lo: int, hi: int) -> Seq<usize>
    decreases hi - lo,
{
    if lo >= hi {
        Seq::empty()
    } else if !bound[hi - 1] {
        unbound_rows(bound, lo, hi - 1).push((hi - 1) as usize)
    } else {
        unbound_rows(bound, lo, hi - 1)
    }
}

/// The cells once the rows that had none have theirs: the k-th of them takes the k-th new cell.
pub open spec fn given(cells: Seq<u32>, created: Seq<u32>, lo: int, hi: int) -> Seq<u32> {
    Seq::new(
        cells.len(),
        |i: int|
            if lo <= i < hi && cells[i] == 0 {
                created[missing_rows(cells, lo, i).len() as int]
            } else {
                cells[i]
            },
    )
}

/// The list once the window's rows are built at this width.
pub open spec fn filled(v: ListView, n: usize, w: Window, width: Num, created: Seq<u32>) -> ListView {
    let g = grown(v, n);
    let (lo, hi) = (window_from(w), window_to(w, n));
    ListView {
        cells: given(g.cells, created, lo, hi),
        bound: Seq::new(g.bound.len(), |i: int| lo <= i < hi || g.bound[i]),
        last_width: width,
        ..g
    }
}

/// A new cell's place in the list's content, and its part in selecting.
pub open spec fn mount(v: ListView, cell: u32) -> Seq<SpecAct> {
    let placed: Seq<SpecAct> = seq![
        Act::Insert { parent: v.content, child: El::Own(cell), index: LAST },
    ];
    if v.selectable {
        placed.push(Act::Listen(cell, CLICK)).push(Act::Attr(El::Own(cell), "role"@, "option"@))
    } else {
        placed
    }
}

/// The first `k` new cells, mounted.
pub open spec fn mounts(v: ListView, created: Seq<u32>, k: int) -> Seq<SpecAct>
    decreases k,
{
    if k <= 0 {
        Seq::empty()
    } else {
        mounts(v, created, k - 1) + mount(v, created[k - 1])
    }
}

/// A row put in its place and filled.
pub open spec fn row_acts(v: ListView, row: usize, width: Num) -> Seq<SpecAct> {
    let cell = v.cells[row as int];
    let shown: Seq<SpecAct> = seq![
        Act::RowFrame { cell, row, width, pitch: at_least_one(v.pitch) },
        Act::Style(El::Own(cell), "display"@, "block"@),
    ];
    let lined = if v.separators {
        shown.push(Act::Style(El::Own(cell), "box-sizing"@, "border-box"@)).push(
            Act::Style(
                El::Own(cell),
                "border-bottom"@,
                "1px solid color-mix(in srgb, currentColor 18%, transparent)"@,
            ),
        )
    } else {
        shown
    };
    lined.push(Act::BindRow { row, cell })
}

/// The first `k` of the rows, put in their places and filled.
pub open spec fn rows_acts(v: ListView, rows: Seq<usize>, width: Num, k: int) -> Seq<SpecAct>
    decreases k,
{
    if k <= 0 {
        Seq::empty()
    } else {
        rows_acts(v, rows, width, k - 1) + row_acts(v, rows[k - 1], width)
    }
}

/// Everything that building the window's rows does.
pub open spec fn fill_acts(
    v: ListView,
    n: usize,
    w: Window,
    width: Num,
    created: Seq<u32>,
) -> Seq<SpecAct> {
    let g = grown(v, n);
    let f = filled(v, n, w, width, created);
    let rows = unbound_rows(g.bound, window_from(w), window_to(w, n));
    mounts(v, created, created.len() as int) + rows_acts(f, rows, width, rows.len() as int) + seq![
        Act::Style(El::Own(v.content), "position"@, "relative"@),
        Act::Extent { content: v.content, rows: n, pitch: at_least_one(v.pitch) },
    ] + selection_paint(f)
}

/// The list once everything it shows is out of date.
pub open spec fn unbound(v: ListView) -> ListView {
    ListView { bound: Seq::new(v.bound.len(), |i: int| false), ..v }
}

/// What happens to a cell that a shrunk source has left behind: it is hidden, and the source
/// forgets what it showed.
pub open spec fn stale_cell(v: ListView, i: int) -> Seq<SpecAct> {
    if v.cells[i] == 0 {
        Seq::empty()
    } else if v.attached {
        seq![
            Act::Style(El::Own(v.cells[i]), "display"@, "none"@),
            Act::RecycleCell(v.cells[i]),
        ]
    } else {
        seq![Act::Style(El::Own(v.cells[i]), "display"@, "none"@)]
    }
}

/// The cells from the `n`-th up to the `k`-th, left behind.
pub open spec fn stale_cells(v: ListView, n: int, k: int) -> Seq<SpecAct>
    decreases k - n,
{
    if k <= n {
        Seq::empty()
    } else {
        stale_cells(v, n, k - 1) + stale_cell(v, k - 1)
    }
}

proof fn missing_of_given(cells: Seq<u32>, created: Seq<u32>, lo: int, hi: int, k: int)
    requires
        0 <= lo <= k <= hi <= cells.len(),
        created.len() == missing_rows(cells, lo, hi).len(),
        forall|i: int| 0 <= i < created.len() ==> created[i] != 0,
    ensures
        missing_rows(given(cells, created, lo, hi), lo, k).len() == 0,
    decreases k - lo,
{
    if k > lo {
        missing_of_given(cells, created, lo, hi, k - 1);
        missing_grows(cells, lo, k, hi);
    }
}

proof fn missing_grows(cells: Seq<u32>, lo: int, a: int, b: int)
    requires
        0 <= lo <= a <= b <= cells.len(),
    ensures
        missing_rows(cells, lo, a).len() <= missing_rows(cells, lo, b).len(),
    decreases b - a,
{
    if a < b {
        missing_grows(cells, lo, a, b - 1);
    }
}

proof fn none_unbound(bound: Seq<bool>, lo: int, hi: int)
    requires
        0 <= lo,
        hi <= bound.len(),
        forall|i: int| lo <= i < hi ==> bound[i],
    ensures
        unbound_rows(bound, lo, hi) == Seq::<usize>::empty(),
    decreases hi - lo,
{
    if lo < hi {
        none_unbound(bound, lo, hi - 1);
    }
}

/// Building the rows of a window that has them builds none: the second time there is no cell to
/// make and no row to fill, and the list stays as it was. That is what lets every scroll ask. (The
/// number zero is no cell: a row that was given it is one still to be built.)
pub proof fn filling_again_builds_nothing(
    v: ListView,
    n: usize,
    w: Window,
    width: Num,
    created: Seq<u32>,
)
    requires
        v.cells.len() == v.bound.len(),
        created.len() == missing_rows(grown(v, n).cells, window_from(w), window_to(w, n)).len(),
        forall|i: int| 0 <= i < created.len() ==> created[i] != 0,
    ensures
        ({
            let f = filled(v, n, w, width, created);
            let (lo, hi) = (window_from(w), window_to(w, n));
            &&& missing_rows(grown(f, n).cells, lo, hi) == Seq::<usize>::empty()
            &&& unbound_rows(grown(f, n).bound, lo, hi) == Seq::<usize>::empty()
            &&& filled(f, n, w, width, Seq::empty()) == f
        }),
{
    let f = filled(v, n, w, width, created);
    let g = grown(v, n);
    let (lo, hi) = (window_from(w), window_to(w, n));
    assert(grown(f, n) == f);
    if lo <= hi {
        missing_of_given(g.cells, created, lo, hi, hi);
    }
    assert(missing_rows(f.cells, lo, hi) =~= Seq::<usize>::empty());
    none_unbound(f.bound, lo, hi);
    assert forall|i: int| lo <= i < hi implies f.cells[i] != 0 by {
        missing_grows(g.cells, lo, i + 1, hi);
    }
    assert(filled(f, n, w, width, Seq::empty()) =~= f);
}

proof fn mounts_bind_nothing(v: ListView, created: Seq<u32>, k: int)
    ensures
        forall|i: int|
            0 <= i < mounts(v, created, k).len() ==> !((#[trigger] mounts(v, created, k)[i])
                is BindRow),
    decreases k,
{
    if k > 0 {
        mounts_bind_nothing(v, created, k - 1);
    }
}

proof fn painting_binds_nothing(v: ListView, k: int)
    ensures
        forall|i: int| 0 <= i < painted(v, k).len() ==> !((#[trigger] painted(v, k)[i]) is BindRow),
    decreases k,
{
    if k > 0 {
        painting_binds_nothing(v, k - 1);
    }
}

/// A row of the window is filled once: building the same window again fills no row, whatever
/// cells were made for it and are made again.
pub proof fn rows_are_filled_once(
    v: ListView,
    n: usize,
    w: Window,
    width: Num,
    created: Seq<u32>,
    again: Seq<u32>,
    i: int,
)
    requires
        v.cells.len() == v.bound.len(),
        0 <= i < fill_acts(filled(v, n, w, width, created), n, w, width, again).len(),
    ensures
        !(fill_acts(filled(v, n, w, width, created), n, w, width, again)[i] is BindRow),
{
    let f = filled(v, n, w, width, created);
    let (lo, hi) = (window_from(w), window_to(w, n));
    assert(grown(f, n) == f);
    none_unbound(f.bound, lo, hi);
    let e = filled(f, n, w, width, again);
    mounts_bind_nothing(f, again, again.len() as int);
    painting_binds_nothing(e, e.cells.len() as int);
    let m = mounts(f, again, again.len() as int);
    let s = fill_acts(f, n, w, width, again);
    let extent: Seq<SpecAct> = seq![
        Act::Style(El::Own(f.content), "position"@, "relative"@),
        Act::Extent { content: f.content, rows: n, pitch: at_least_one(f.pitch) },
    ];
    assert(s =~= m + extent + selection_paint(e));
    if i < m.len() {
        assert(s[i] == m[i]);
    } else if i < m.len() + 2 {
        assert(s[i] == extent[i - m.len()]);
    } else {
        assert(s[i] == selection_paint(e)[i - m.len() - 2]);
    }
}

/// A row's cell is that row's for good: building rows gives cells to rows that have none and
/// never takes or moves one.
pub proof fn a_cell_stays_with_its_row(
    v: ListView,
    n: usize,
    w: Window,
    width: Num,
    created: Seq<u32>,
    row: int,
)
    requires
        0 <= row < v.cells.len(),
        v.cells[row] != 0,
    ensures
        filled(v, n, w, width, created).cells.len() >= v.cells.len(),
        filled(v, n, w, width, created).cells[row] == v.cells[row],
{
}

impl ListEntry {
    fn grow(&mut self, n: usize)
        requires
            old(self).wf(),
        ensures
            final(self).wf(),
            final(self)@ == grown(old(self)@, n),
    {
        let ghost v = self@;
        while self.cells.len() < n
            invariant
                self.wf(),
                v.cells.len() == v.bound.len(),
                v.cells.len() <= self.cells.len(),
                self.cells.len() <= n || self.cells.len() == v.cells.len(),
                self@ == (ListView {
                    cells: Seq::new(
                        self.cells@.len(),
                        |i: int| if i < v.cells.len() { v.cells[i] } else { 0 },
                    ),
                    bound: Seq::new(
                        self.cells@.len(),
                        |i: int| i < v.bound.len() && v.bound[i],
                    ),
                    ..v
                }),
            decreases n - self.cells.len(),
        {
            self.cells.push(0);
            self.bound.push(false);
            proof {
                assert(self@.cells =~= Seq::new(
                    self.cells@.len(),
                    |i: int| if i < v.cells.len() { v.cells[i] } else { 0 },
                ));
                assert(self@.bound =~= Seq::new(
                    self.cells@.len(),
                    |i: int| i < v.bound.len() && v.bound[i],
                ));
            }
        }
        proof {
            assert(self@ =~= grown(v, n));
        }
    }

    /// The rows of the window that need a cell made for them, in a source of `n` rows.
    pub fn missing(&self, n: usize, w: Window) -> (rows: Vec<usize>)
        requires
            self.wf(),
            w.end + LIST_OVERSCAN <= usize::MAX,
        ensures
            rows@ == missing_rows(grown(self@, n).cells, window_from(w), window_to(w, n)),
    {
        let lo: usize = if w.first > LIST_OVERSCAN {
            w.first - LIST_OVERSCAN
        } else {
            0
        };
        let hi: usize = if w.end + LIST_OVERSCAN < n {
            w.end + LIST_OVERSCAN
        } else {
            n
        };
        let ghost cells = grown(self@, n).cells;
        let mut rows: Vec<usize> = Vec::new();
        let mut i: usize = lo;
        while i < hi
            invariant
                lo <= i,
                i <= hi || i == lo,
                hi <= n,
                self.wf(),
                cells == grown(self@, n).cells,
                rows@ == missing_rows(cells, lo as int, i as int),
            decreases hi - i,
        {
            if i >= self.cells.len() || self.cells[i] == 0 {
                rows.push(i);
            }
            i = i + 1;
        }
        if lo < hi {
            assert(i == hi);
        }
        rows
    }

    /// Builds the window's rows: `created` holds a new cell for each row that [`Self::missing`]
    /// names, in the same order. Each new cell is mounted, each row whose content is not current
    /// is put in its place and filled, the content is sized to the whole source, and the
    /// selection is painted.
    pub fn fill(&mut self, n: usize, w: Window, width: Num, created: &Vec<u32>) -> (out: Vec<
        DomAct,
    >)
        requires
            old(self).wf(),
            w.end + LIST_OVERSCAN <= usize::MAX,
            created.len() == missing_rows(
                grown(old(self)@, n).cells,
                window_from(w),
                window_to(w, n),
            ).len(),
        ensures
            final(self).wf(),
            final(self)@ == filled(old(self)@, n, w, width, created@),
            acts(out@) == fill_acts(old(self)@, n, w, width, created@),
    {
        let ghost v = self@;
        let ghost g = grown(v, n);
        let lo: usize = if w.first > LIST_OVERSCAN {
            w.first - LIST_OVERSCAN
        } else {
            0
        };
        let hi: usize = if w.end + LIST_OVERSCAN < n {
            w.end + LIST_OVERSCAN
        } else {
            n
        };
        self.grow(n);
        let mut out: Vec<DomAct> = Vec::new();
        let mut work: Vec<usize> = Vec::new();
        let mut k: usize = 0;
        let mut i: usize = lo;
        proof {
            assert(acts(out@) =~= mounts(v, created@, 0));
            assert(self@ =~= (ListView {
                cells: given(g.cells, created@, lo as int, i as int),
                bound: Seq::new(g.bound.len(), |j: int| lo <= j < i || g.bound[j]),
                ..g
            }));
        }
        while i < hi
            invariant
                lo <= i,
                i <= hi || i == lo,
                hi <= n <= g.cells.len(),
                g.cells.len() == g.bound.len(),
                g.content == v.content,
                g.selectable == v.selectable,
                self.wf(),
                created.len() == missing_rows(g.cells, lo as int, hi as int).len(),
                k == missing_rows(g.cells, lo as int, i as int).len(),
                self@ == (ListView {
                    cells: given(g.cells, created@, lo as int, i as int),
                    bound: Seq::new(g.bound.len(), |j: int| lo <= j < i || g.bound[j]),
                    ..g
                }),
                work@ == unbound_rows(g.bound, lo as int, i as int),
                forall|m: int| 0 <= m < work.len() ==> work[m] < hi,
                acts(out@) == mounts(v, created@, k as int),
            decreases hi - i,
        {
            let ghost before = acts(out@);
            let ghost k0 = k;
            proof {
                missing_grows(g.cells, lo as int, i + 1, hi as int);
            }
            if self.cells[i] == 0 {
                let cell = created[k];
                act(&mut out, Act::Insert { parent: self.content, child: El::Own(cell), index: LAST });
                if self.selectable {
                    act(&mut out, Act::Listen(cell, CLICK));
                    attr(&mut out, El::Own(cell), "role", "option");
                }
                self.cells.set(i, cell);
                proof {
                    assert(acts(out@) =~= before + mount(v, cell));
                }
                k = k + 1;
            }
            if !self.bound[i] {
                self.bound.set(i, true);
                work.push(i);
            }
            proof {
                assert(self@.cells =~= given(g.cells, created@, lo as int, i + 1));
                assert(self@.bound =~= Seq::new(
                    g.bound.len(),
                    |j: int| lo <= j < i + 1 || g.bound[j],
                ));
            }
            i = i + 1;
        }
        self.last_width = width;
        let ghost f = filled(v, n, w, width, created@);
        proof {
            if lo < hi {
                assert(i == hi);
            }
            assert(self@.bound =~= f.bound);
            assert(self@.cells =~= f.cells);
            assert(self@ =~= f);
            assert(k == created.len());
        }
        let ghost mounted = acts(out@);
        let mut j: usize = 0;
        proof {
            assert(mounted =~= mounted + rows_acts(f, work@, width, 0));
        }
        while j < work.len()
            invariant
                j <= work.len(),
                self@ == f,
                work@ == unbound_rows(g.bound, lo as int, i as int),
                forall|m: int| 0 <= m < work.len() ==> work[m] < self.cells.len(),
                acts(out@) == mounted + rows_acts(f, work@, width, j as int),
            decreases work.len() - j,
        {
            let ghost before = acts(out@);
            let row = work[j];
            let cell = self.cells[row];
            act(&mut out, Act::RowFrame { cell, row, width, pitch: one_at_least(self.pitch) });
            style(&mut out, El::Own(cell), "display", "block");
            if self.separators {
                style(&mut out, El::Own(cell), "box-sizing", "border-box");
                style(
                    &mut out,
                    El::Own(cell),
                    "border-bottom",
                    "1px solid color-mix(in srgb, currentColor 18%, transparent)",
                );
            }
            act(&mut out, Act::BindRow { row, cell });
            proof {
                assert(acts(out@) =~= before + row_acts(f, row, width));
                assert(acts(out@) =~= mounted + rows_acts(f, work@, width, j + 1));
            }
            j = j + 1;
        }
        let ghost built = acts(out@);
        style(&mut out, El::Own(self.content), "position", "relative");
        act(
            &mut out,
            Act::Extent { content: self.content, rows: n, pitch: one_at_least(self.pitch) },
        );
        proof {
            assert(acts(out@) =~= built + seq![
                Act::Style(El::Own(v.content), "position"@, "relative"@),
                Act::Extent { content: v.content, rows: n, pitch: at_least_one(v.pitch) },
            ]);
        }
        self.paint_selection(&mut out);
        out
    }

    /// A change under the cells, in a source that now has `n` rows: nothing built is current any
    /// more, and the cells past the source's end are hidden.
    pub fn populate(&mut self, n: usize) -> (out: Vec<DomAct>)
        requires
            old(self).wf(),
        ensures
            final(self).wf(),
            final(self)@ == unbound(old(self)@),
            acts(out@) == stale_cells(old(self)@, n as int, old(self)@.cells.len() as int),
    {
        let ghost v = self@;
        let mut i: usize = 0;
        while i < self.bound.len()
            invariant
                i <= self.bound.len() == v.bound.len(),
                v.cells.len() == v.bound.len(),
                self.wf(),
                self@ == (ListView {
                    bound: Seq::new(v.bound.len(), |j: int| j >= i && v.bound[j]),
                    ..v
                }),
            decreases self.bound.len() - i,
        {
            self.bound.set(i, false);
            i = i + 1;
            proof {
                assert(self@.bound =~= Seq::new(v.bound.len(), |j: int| j >= i && v.bound[j]));
            }
        }
        proof {
            assert(self@ =~= unbound(v));
        }
        let mut out: Vec<DomAct> = Vec::new();
        let mut k: usize = n;
        proof {
            assert(acts(out@) =~= stale_cells(v, n as int, n as int));
        }
        while k < self.cells.len()
            invariant
                n <= k,
                k <= self.cells.len() || k == n,
                self.wf(),
                self@ == unbound(v),
                acts(out@) == stale_cells(v, n as int, k as int),
            decreases self.cells.len() - k,
        {
            let ghost before = acts(out@);
            let cell = self.cells[k];
            if cell != 0 {
                style(&mut out, El::Own(cell), "display", "none");
                if self.attached {
                    act(&mut out, Act::RecycleCell(cell));
                }
            }
            proof {
                assert(acts(out@) =~= before + stale_cell(v, k as int));
            }
            k = k + 1;
        }
        out
    }

    /// The list scrolled: whether a fill has to be put off to the next turn, which is only where
    /// none is waiting already.
    pub fn scrolled(&mut self) -> (post: bool)
        requires
            old(self).wf(),
        ensures
            final(self).wf(),
            post == !old(self)@.fill_pending,
            final(self)@ == (ListView { fill_pending: true, ..old(self)@ }),
    {
        let post = !self.fill_pending;
        self.fill_pending = true;
        post
    }

    /// The put-off fill is under way.
    pub fn fill_due(&mut self)
        requires
            old(self).wf(),
        ensures
            final(self).wf(),
            final(self)@ == (ListView { fill_pending: false, ..old(self)@ }),
    {
        self.fill_pending = false;
    }
}

} // verus!
