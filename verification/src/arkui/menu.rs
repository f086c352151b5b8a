//! Navigation rows: the scrolling column of a menu, and the bottom bar the same rows make where
//! they stand around the pages. Each row answers a click under a number of its own.
use crate::arkui::act::{act, acts, regroup, Act, ArkAct, SpecAct};
use crate::arkui::looks::{
    argb, argb_of, theme_color, themed, K_COLUMN, K_IMAGE, K_ROW, K_STACK, K_TEXT,
};
use crate::arkui::suite::{bar_tint, tint_of, BarCell};
use crate::dom::css::{is_listed, listed};
use crate::model::{Color, Length};
use crate::pieces::{at, entry_at, MenuRows};
use crate::table::Table;
use crate::text::{cat3, owned};
use vstd::prelude::*;

verus! {

/// A row that answers clicks: its number, its menu and its place in it.
#[derive(Clone, Copy, Debug, PartialEq, Eq, Structural)]
pub struct MenuRow {
    pub click: u64,
    pub menu: u64,
    pub index: i64,
}

/// The rows that answer clicks, and which app node a menu's scrolling node is.
pub struct MenuBook {
    pub rows: Vec<MenuRow>,
    pub ids: Table<u64>,
    pub next: u64,
}

/// The first number a row can have: the app numbers its own nodes below it.
pub const FIRST_CLICK: u64 = 0x8000_0000_0000_0000;

#[verifier::ext_equal]
pub ghost struct MenuView {
    pub rows: Seq<MenuRow>,
    pub ids: Map<u64, u64>,
    pub next: u64,
}

impl View for MenuBook {
    type V = MenuView;

    open spec fn view(&self) -> MenuView {
        MenuView { rows: self.rows@, ids: self.ids@, next: self.next }
    }
}

impl MenuView {
    /// Every row has a number of its own, above those of the app's nodes and below the next one.
    pub open spec fn wf(self) -> bool {
        &&& FIRST_CLICK <= self.next
        &&& forall|i: int|
            0 <= i < self.rows.len() ==> FIRST_CLICK <= (#[trigger] self.rows[i]).click < self.next
        &&& forall|i: int, j: int|
            0 <= i < j < self.rows.len() ==> (#[trigger] self.rows[i]).click != (
            #[trigger] self.rows[j]).click
    }
}

/// The rows without those of a menu.
pub open spec fn rows_without(rows: Seq<MenuRow>, menu: u64) -> Seq<MenuRow>
    decreases rows.len(),
{
    if rows.len() == 0 {
        rows
    } else if rows.last().menu == menu {
        rows_without(rows.drop_last(), menu)
    } else {
        rows_without(rows.drop_last(), menu).push(rows.last())
    }
}

/// The row that answers a click.
pub open spec fn answering(rows: Seq<MenuRow>, click: u64) -> Option<MenuRow>
    decreases rows.len(),
{
    if rows.len() == 0 {
        None
    } else if rows.last().click == click {
        Some(rows.last())
    } else {
        answering(rows.drop_last(), click)
    }
}

/// `n` rows of a menu, numbered from `next` on.
pub open spec fn numbered(menu: u64, next: u64, n: int) -> Seq<MenuRow> {
    Seq::new(
        n as nat,
        |i: int| MenuRow { click: (next + i) as u64, menu, index: i as i64 },
    )
}

/// The book with `n` more rows of a menu.
pub open spec fn with_rows(v: MenuView, menu: u64, n: int) -> MenuView {
    MenuView { rows: v.rows + numbered(menu, v.next, n), next: (v.next + n) as u64, ..v }
}

/// The book without the rows of a menu.
pub open spec fn retired(v: MenuView, menu: u64) -> MenuView {
    MenuView { rows: rows_without(v.rows, menu), ..v }
}

proof fn answers_before(rows: Seq<MenuRow>, more: Seq<MenuRow>, click: u64)
    requires
        forall|j: int| 0 <= j < more.len() ==> (#[trigger] more[j]).click != click,
    ensures
        answering(rows + more, click) == answering(rows, click),
    decreases more.len(),
{
    if more.len() == 0 {
        assert(rows + more =~= rows);
    } else {
        let d = more.drop_last();
        assert((rows + more).last() == more[more.len() - 1]);
        assert((rows + more).drop_last() =~= rows + d);
        assert forall|j: int| 0 <= j < d.len() implies (#[trigger] d[j]).click != click by {
            assert(d[j] == more[j]);
        }
        answers_before(rows, d, click);
    }
}

proof fn nobody_answers(rows: Seq<MenuRow>, click: u64)
    requires
        forall|j: int| 0 <= j < rows.len() ==> (#[trigger] rows[j]).click != click,
    ensures
        answering(rows, click) is None,
{
    answers_before(Seq::empty(), rows, click);
    assert(Seq::<MenuRow>::empty() + rows =~= rows);
}

/// Rows that are numbered get numbers that answered nothing before, each its own and above those
/// of the app's nodes; row `i` answers under the `i`-th of them, and whatever answered before
/// still does.
pub proof fn a_numbered_row_answers(v: MenuView, menu: u64, n: int, i: int, click: u64)
    requires
        v.wf(),
        0 <= i < n <= i64::MAX,
        v.next + n <= u64::MAX,
    ensures
        ({
            let w = with_rows(v, menu, n);
            let own = (v.next + i) as u64;
            &&& own == v.next + i
            &&& own >= FIRST_CLICK
            &&& answering(v.rows, own) is None
            &&& answering(w.rows, own) == Some(MenuRow { click: own, menu, index: i as i64 })
            &&& w.rows.len() == v.rows.len() + n
            &&& (!(v.next <= click < v.next + n) ==> answering(w.rows, click) == answering(
                v.rows,
                click,
            ))
        }),
    decreases n,
{
    let w = with_rows(v, menu, n);
    let own = (v.next + i) as u64;
    let more = numbered(menu, v.next, n);
    nobody_answers(v.rows, own);
    let upto = numbered(menu, v.next, i + 1);
    let rest = more.skip(i + 1);
    assert(more =~= upto + rest);
    assert forall|j: int| 0 <= j < rest.len() implies (#[trigger] rest[j]).click != own by {
        assert(rest[j] == more[i + 1 + j]);
    }
    assert(w.rows =~= (v.rows + upto) + rest);
    answers_before(v.rows + upto, rest, own);
    assert((v.rows + upto).last() == upto[i]);
    if !(v.next <= click < v.next + n) {
        assert forall|j: int| 0 <= j < more.len() implies (#[trigger] more[j]).click != click by {
            assert(more[j].click == v.next + j);
        }
        answers_before(v.rows, more, click);
    }
}

/// Numbering rows keeps the numbers apart.
pub proof fn numbering_keeps_numbers_apart(v: MenuView, menu: u64, n: int)
    requires
        v.wf(),
        0 <= n <= i64::MAX,
        v.next + n <= u64::MAX,
    ensures
        with_rows(v, menu, n).wf(),
{
}

/// A row that was taken out, and only such a row, answers no click any more.
pub proof fn retired_rows_are_silent(rows: Seq<MenuRow>, menu: u64, click: u64)
    ensures
        answering(rows_without(rows, menu), click) matches Some(r) ==> r.menu != menu
            && r.click == click,
        answering(rows, click) matches Some(r) ==> r.menu != menu ==> answering(
            rows_without(rows, menu),
            click,
        ) == Some(r),
    decreases rows.len(),
{
    if rows.len() > 0 {
        retired_rows_are_silent(rows.drop_last(), menu, click);
        let d = rows_without(rows.drop_last(), menu);
        assert(d.push(rows.last()).drop_last() =~= d);
    }
}

proof fn taken_rows_come_from(rows: Seq<MenuRow>, menu: u64)
    ensures
        rows_without(rows, menu).len() <= rows.len(),
        forall|i: int|
            0 <= i < rows_without(rows, menu).len() ==> rows.contains(
                #[trigger] rows_without(rows, menu)[i],
            ),
    decreases rows.len(),
{
    if rows.len() > 0 {
        let d = rows.drop_last();
        taken_rows_come_from(d, menu);
        let w = rows_without(rows, menu);
        assert forall|i: int| 0 <= i < w.len() implies rows.contains(#[trigger] w[i]) by {
            let wd = rows_without(d, menu);
            if i < wd.len() {
                assert(w[i] == wd[i]);
                let k = d.index_of(wd[i]);
                assert(rows[k] == w[i]);
            } else {
                assert(rows[rows.len() - 1] == w[i]);
            }
        }
    }
}

proof fn taking_keeps_numbers_apart(rows: Seq<MenuRow>, menu: u64)
    requires
        forall|i: int, j: int|
            0 <= i < j < rows.len() ==> (#[trigger] rows[i]).click != (#[trigger] rows[j]).click,
    ensures
        forall|i: int, j: int|
            0 <= i < j < rows_without(rows, menu).len() ==> (#[trigger] rows_without(
                rows,
                menu,
            )[i]).click != (#[trigger] rows_without(rows, menu)[j]).click,
    decreases rows.len(),
{
    if rows.len() > 0 {
        let d = rows.drop_last();
        assert forall|i: int, j: int| 0 <= i < j < d.len() implies (#[trigger] d[i]).click != (
        #[trigger] d[j]).click by {
            assert(d[i] == rows[i] && d[j] == rows[j]);
        }
        taking_keeps_numbers_apart(d, menu);
        taken_rows_come_from(d, menu);
        let wd = rows_without(d, menu);
        let w = rows_without(rows, menu);
        assert forall|i: int, j: int| 0 <= i < j < w.len() implies (#[trigger] w[i]).click != (
        #[trigger] w[j]).click by {
            assert(w[i] == wd[i]);
            if j < wd.len() {
                assert(w[j] == wd[j]);
            } else {
                let k = d.index_of(wd[i]);
                assert(rows[k] == wd[i]);
                assert(rows[rows.len() - 1] == w[j]);
            }
        }
    }
}

impl MenuBook {
    /// No row yet.
    pub fn new() -> (b: MenuBook)
        ensures
            b@.wf(),
            b@ == (MenuView { rows: Seq::empty(), ids: Map::empty(), next: FIRST_CLICK }),
    {
        MenuBook { rows: Vec::new(), ids: Table::new(), next: FIRST_CLICK }
    }

    /// Numbers `n` rows of a menu.
    pub fn number(&mut self, menu: u64, n: usize)
        requires
            old(self)@.wf(),
            old(self).next + n <= u64::MAX,
            n <= i64::MAX,
        ensures
            final(self)@ == with_rows(old(self)@, menu, n as int),
            final(self)@.wf(),
    {
        let ghost v = self@;
        let mut i: usize = 0;
        proof {
            assert(self@ =~= with_rows(v, menu, 0));
        }
        while i < n
            invariant
                i <= n,
                v.next + n <= u64::MAX,
                n <= i64::MAX,
                v.wf(),
                self@.wf(),
                self@ == with_rows(v, menu, i as int),
            decreases n - i,
        {
            let row = MenuRow { click: self.next, menu, index: i as i64 };
            self.rows.push(row);
            self.next = self.next + 1;
            proof {
                assert(self@.rows =~= with_rows(v, menu, i + 1).rows);
            }
            i = i + 1;
        }
    }

    /// Takes a menu's rows out.
    pub fn retire(&mut self, menu: u64)
        requires
            old(self)@.wf(),
        ensures
            final(self)@ == retired(old(self)@, menu),
            final(self)@.wf(),
    {
        let ghost v = self@;
        let mut kept: Vec<MenuRow> = Vec::new();
        let mut i: usize = 0;
        while i < self.rows.len()
            invariant
                i <= self.rows.len(),
                self@ == v,
                kept@ == rows_without(v.rows.take(i as int), menu),
            decreases self.rows.len() - i,
        {
            let r = self.rows[i];
            if r.menu != menu {
                kept.push(r);
            }
            proof {
                assert(v.rows.take(i + 1).drop_last() =~= v.rows.take(i as int));
            }
            i = i + 1;
        }
        self.rows = kept;
        proof {
            assert(v.rows.take(i as int) =~= v.rows);
            taken_rows_come_from(v.rows, menu);
            taking_keeps_numbers_apart(v.rows, menu);
            let w = self@.rows;
            assert forall|k: int| 0 <= k < w.len() implies FIRST_CLICK <= (#[trigger] w[k]).click
                < self@.next by {
                let j = v.rows.index_of(w[k]);
                assert(v.rows[j] == w[k]);
            }
        }
    }

    /// The row that answers a click.
    pub fn find(&self, click: u64) -> (r: Option<MenuRow>)
        ensures
            r == answering(self@.rows, click),
    {
        let mut i: usize = self.rows.len();
        proof {
            assert(self.rows@.take(i as int) =~= self.rows@);
        }
        while i > 0
            invariant
                i <= self.rows.len(),
                answering(self@.rows, click) == answering(self@.rows.take(i as int), click),
            decreases i,
        {
            proof {
                assert(self@.rows.take(i as int).drop_last() =~= self@.rows.take(i - 1));
            }
            if self.rows[i - 1].click == click {
                return Some(self.rows[i - 1]);
            }
            i = i - 1;
        }
        None
    }
}

/// Numbers the app gives its own nodes answer no row.
pub proof fn own_nodes_answer_no_row(v: MenuView, click: u64, n: int)
    requires
        v.wf(),
        click < FIRST_CLICK,
        0 <= n <= v.rows.len(),
    ensures
        answering(v.rows.take(n), click) is None,
    decreases n,
{
    if n > 0 {
        own_nodes_answer_no_row(v, click, n - 1);
        assert(v.rows.take(n).drop_last() =~= v.rows.take(n - 1));
        assert(v.rows.take(n).last() == v.rows[n - 1]);
    }
}

// ---- glyphs ------------------------------------------------------------------------------------

/// Where a bundled image lies: a vector as it is, anything else as a picture.
pub open spec fn rawfile(name: Seq<char>, vectors: Seq<String>) -> Seq<char> {
    "resource://RAWFILE/day/"@ + name + (if listed(vectors, name) {
        ".svg"@
    } else {
        ".png"@
    })
}

/// A node's picture; only a vector takes a fill.
pub open spec fn picture(node: u64, name: Seq<char>, fill: Option<u32>, vectors: Seq<String>) -> Seq<
    SpecAct,
> {
    let source: Seq<SpecAct> = seq![Act::ImageSource { node, src: rawfile(name, vectors) }];
    match fill {
        Some(argb) => if listed(vectors, name) {
            source.push(Act::ImageFill { node, argb })
        } else {
            source
        },
        None => source,
    }
}

pub fn set_picture(
    out: &mut Vec<ArkAct>,
    node: u64,
    name: &str,
    fill: Option<u32>,
    vectors: &Vec<String>,
)
    ensures
        acts(final(out)@) == acts(old(out)@) + picture(node, name@, fill, vectors@),
{
    let vector = is_listed(vectors, name);
    let ext: &str = if vector {
        ".svg"
    } else {
        ".png"
    };
    act(out, Act::ImageSource { node, src: cat3("resource://RAWFILE/day/", name, ext) });
    match fill {
        Some(argb) => {
            if vector {
                act(out, Act::ImageFill { node, argb });
            }
        },
        None => {},
    }
    proof {
        assert(acts(out@) =~= acts(old(out)@) + picture(node, name@, fill, vectors@));
    }
}

/// A glyph's own tint, or the theme's secondary color.
pub open spec fn glyph_fill(dark: bool, tints: Seq<Option<Color>>, i: int) -> u32 {
    match at(tints, i) {
        Some(c) => argb_of(c),
        None => themed(dark, 0x9900_0000, 0x99FF_FFFF),
    }
}

fn fill_of(dark: bool, tints: &Vec<Option<Color>>, i: usize) -> (n: u32)
    ensures
        n == glyph_fill(dark, tints@, i as int),
{
    match entry_at(tints, i) {
        Some(c) => argb(c),
        None => theme_color(dark, 0x9900_0000, 0x99FF_FFFF),
    }
}

/// A glyph of a row: its picture, fitted to a square with a margin, at a place of the row.
pub open spec fn glyph(
    row: u64,
    node: u64,
    name: Seq<char>,
    fill: u32,
    side: u32,
    index: usize,
    vectors: Seq<String>,
) -> Seq<SpecAct> {
    picture(node, name, Some(fill), vectors) + seq![
        Act::ImageFit { node, fit: 0 },
        Act::Resize { node, width: Length::Whole(side), height: Length::Whole(side) },
        Act::Margin { node, margin: 4 },
        Act::Insert { parent: row, child: node, index },
    ]
}

fn put_glyph(
    out: &mut Vec<ArkAct>,
    row: u64,
    node: u64,
    name: &str,
    fill: u32,
    side: u32,
    index: usize,
    vectors: &Vec<String>,
)
    ensures
        acts(final(out)@) == acts(old(out)@) + glyph(
            row,
            node,
            name@,
            fill,
            side,
            index,
            vectors@,
        ),
{
    set_picture(out, node, name, Some(fill), vectors);
    act(out, Act::ImageFit { node, fit: 0 });
    act(out, Act::Resize { node, width: Length::Whole(side), height: Length::Whole(side) });
    act(out, Act::Margin { node, margin: 4 });
    act(out, Act::Insert { parent: row, child: node, index });
    proof {
        assert(acts(out@) =~= acts(old(out)@) + glyph(
            row,
            node,
            name@,
            fill,
            side,
            index,
            vectors@,
        ));
    }
}

// ---- the rows of a menu ------------------------------------------------------------------------

/// One where there is something at `i`, else zero.
pub open spec fn one_if(v: Seq<Option<String>>, i: int) -> int {
    if at(v, i) is Some {
        1
    } else {
        0
    }
}

/// The nodes of row `i` of `n`: the row, its label and its arrow, its icon and its badge, and
/// the line below it unless it is the last.
pub open spec fn row_kinds(r: MenuRows, i: int) -> Seq<u32> {
    let three: Seq<u32> = seq![K_ROW, K_TEXT, K_TEXT];
    let icon: Seq<u32> = if at(r.icons@, i) is Some {
        seq![K_IMAGE]
    } else {
        Seq::empty()
    };
    let badge: Seq<u32> = if at(r.badge_icons@, i) is Some {
        seq![K_IMAGE]
    } else {
        Seq::empty()
    };
    let line: Seq<u32> = if i + 1 < r.items@.len() {
        seq![K_STACK]
    } else {
        Seq::empty()
    };
    three + icon + badge + line
}

/// The nodes of the first `n` rows.
pub open spec fn rows_kinds(r: MenuRows, n: int) -> Seq<u32>
    decreases n,
{
    if n <= 0 {
        Seq::empty()
    } else {
        rows_kinds(r, n - 1) + row_kinds(r, n - 1)
    }
}

/// The label and the arrow of a row.
pub open spec fn row_texts(dark: bool, row: u64, label: u64, arrow: u64, title: Seq<char>, index: usize) -> Seq<
    SpecAct,
> {
    seq![
        Act::Text { node: label, text: title },
        Act::FontSize { node: label, size: Length::Whole(16) },
        Act::FontColor { node: label, argb: themed(dark, 0xE500_0000, 0xE6FF_FFFF) },
        Act::Grow { node: label },
        Act::Text { node: arrow, text: "\u{203a}"@ },
        Act::FontSize { node: arrow, size: Length::Whole(20) },
        Act::FontColor { node: arrow, argb: themed(dark, 0x4D00_0000, 0x66FF_FFFF) },
        Act::Insert { parent: row, child: label, index },
    ]
}

/// The end of a row: its arrow, its height, its click and its place in the column.
pub open spec fn row_end(col: u64, row: u64, arrow: u64, index: usize, click: u64, place: usize) -> Seq<
    SpecAct,
> {
    seq![
        Act::Insert { parent: row, child: arrow, index },
        Act::StyleRow { node: row, height: 52 },
        Act::Register { node: row, kind: 0, id: click },
        Act::Insert { parent: col, child: row, index: place },
    ]
}

/// The line below a row.
pub open spec fn row_line(dark: bool, col: u64, line: u64, place: usize) -> Seq<SpecAct> {
    seq![
        Act::Separator { node: line, argb: themed(dark, 0x1400_0000, 0x24FF_FFFF) },
        Act::Insert { parent: col, child: line, index: place },
    ]
}

/// The icon of row `i`, where it has one.
pub open spec fn row_icon(dark: bool, r: MenuRows, i: int, row: u64, icon: u64, vectors: Seq<String>) -> Seq<
    SpecAct,
> {
    match at(r.icons@, i) {
        Some(name) => glyph(row, icon, name@, glyph_fill(dark, r.tints@, i), 20, 0, vectors),
        None => Seq::empty(),
    }
}

/// The badge of row `i`, where it has one.
pub open spec fn row_badge(
    dark: bool,
    r: MenuRows,
    i: int,
    row: u64,
    badge: u64,
    index: usize,
    vectors: Seq<String>,
) -> Seq<SpecAct> {
    match at(r.badge_icons@, i) {
        Some(name) => glyph(
            row,
            badge,
            name@,
            glyph_fill(dark, r.badge_tints@, i),
            16,
            index,
            vectors,
        ),
        None => Seq::empty(),
    }
}

/// Row `i`, built from the nodes at `p` on: an icon, the growing label, a badge and an arrow,
/// and a line below it unless it is the last.
pub open spec fn row_acts(
    dark: bool,
    r: MenuRows,
    i: int,
    col: u64,
    nodes: Seq<u64>,
    p: int,
    click: u64,
    vectors: Seq<String>,
) -> Seq<SpecAct> {
    let row = nodes[p];
    let after = one_if(r.icons@, i);
    let past = after + one_if(r.badge_icons@, i);
    let head = row_icon(dark, r, i, row, nodes[p + 3], vectors) + row_texts(
        dark,
        row,
        nodes[p + 1],
        nodes[p + 2],
        r.items@[i]@,
        after as usize,
    );
    let tail = row_badge(dark, r, i, row, nodes[p + 3 + after], (after + 1) as usize, vectors)
        + row_end(col, row, nodes[p + 2], (past + 1) as usize, click, (2 * i) as usize);
    let line: Seq<SpecAct> = if i + 1 < r.items@.len() {
        row_line(dark, col, nodes[p + 3 + past], (2 * i + 1) as usize)
    } else {
        Seq::empty()
    };
    head + tail + line
}

/// The first `n` rows of a menu's column.
pub open spec fn rows_acts(
    dark: bool,
    r: MenuRows,
    n: int,
    col: u64,
    nodes: Seq<u64>,
    from: int,
    next: u64,
    vectors: Seq<String>,
) -> Seq<SpecAct>
    decreases n,
{
    if n <= 0 {
        Seq::empty()
    } else {
        rows_acts(dark, r, n - 1, col, nodes, from, next, vectors) + row_acts(
            dark,
            r,
            n - 1,
            col,
            nodes,
            from + rows_kinds(r, n - 1).len(),
            (next + (n - 1)) as u64,
            vectors,
        )
    }
}

/// The children that calls put under a node, each with its place, in order.
pub open spec fn put_under(s: Seq<SpecAct>, parent: u64) -> Seq<(u64, usize)>
    decreases s.len(),
{
    if s.len() == 0 {
        Seq::empty()
    } else {
        match s.last() {
            Act::Insert { parent: p, child, index } => if p == parent {
                put_under(s.drop_last(), parent).push((child, index))
            } else {
                put_under(s.drop_last(), parent)
            },
            _ => put_under(s.drop_last(), parent),
        }
    }
}

/// The nodes that calls have report their clicks, each with its number, in order.
pub open spec fn clicks_of(s: Seq<SpecAct>) -> Seq<(u64, u64)>
    decreases s.len(),
{
    if s.len() == 0 {
        Seq::empty()
    } else {
        match s.last() {
            Act::Register { node, kind: _, id } => clicks_of(s.drop_last()).push((node, id)),
            _ => clicks_of(s.drop_last()),
        }
    }
}

proof fn put_under_both(s: Seq<SpecAct>, more: Seq<SpecAct>, parent: u64)
    ensures
        put_under(s + more, parent) == put_under(s, parent) + put_under(more, parent),
        clicks_of(s + more) == clicks_of(s) + clicks_of(more),
    decreases more.len(),
{
    if more.len() == 0 {
        assert(s + more =~= s);
        assert(put_under(s, parent) + put_under(more, parent) =~= put_under(s, parent));
        assert(clicks_of(s) + clicks_of(more) =~= clicks_of(s));
    } else {
        put_under_both(s, more.drop_last(), parent);
        assert((s + more).last() == more.last());
        assert((s + more).drop_last() =~= s + more.drop_last());
        assert(put_under(s + more, parent) =~= put_under(s, parent) + put_under(more, parent));
        assert(clicks_of(s + more) =~= clicks_of(s) + clicks_of(more));
    }
}

/// Whether a call puts nothing under a node and numbers no click.
pub open spec fn elsewhere(a: SpecAct, parent: u64) -> bool {
    match a {
        Act::Insert { parent: p, .. } => p != parent,
        Act::Register { .. } => false,
        _ => true,
    }
}

proof fn nothing_under(s: Seq<SpecAct>, parent: u64)
    requires
        forall|j: int| 0 <= j < s.len() ==> elsewhere(#[trigger] s[j], parent),
    ensures
        put_under(s, parent) == Seq::<(u64, usize)>::empty(),
        clicks_of(s) == Seq::<(u64, u64)>::empty(),
    decreases s.len(),
{
    if s.len() > 0 {
        let d = s.drop_last();
        assert(elsewhere(s[s.len() - 1], parent));
        assert forall|j: int| 0 <= j < d.len() implies elsewhere(#[trigger] d[j], parent) by {
            assert(d[j] == s[j]);
        }
        nothing_under(d, parent);
    }
}

/// What the column gets of row `i`.
pub open spec fn row_places(r: MenuRows, i: int, nodes: Seq<u64>, p: int) -> Seq<(u64, usize)> {
    let row: Seq<(u64, usize)> = seq![(nodes[p], (2 * i) as usize)];
    if i + 1 < r.items@.len() {
        row.push(
            (
                nodes[p + 3 + one_if(r.icons@, i) + one_if(r.badge_icons@, i)],
                (2 * i + 1) as usize,
            ),
        )
    } else {
        row
    }
}

#[verifier::spinoff_prover]
#[verifier::rlimit(40)]
proof fn one_row_stands(
    dark: bool,
    r: MenuRows,
    i: int,
    col: u64,
    nodes: Seq<u64>,
    p: int,
    click: u64,
    vectors: Seq<String>,
)
    requires
        nodes[p] != col,
    ensures
        put_under(row_acts(dark, r, i, col, nodes, p, click, vectors), col) == row_places(
            r,
            i,
            nodes,
            p,
        ),
        clicks_of(row_acts(dark, r, i, col, nodes, p, click, vectors)) == seq![(nodes[p], click)],
{
    let row = nodes[p];
    let after = one_if(r.icons@, i);
    let past = after + one_if(r.badge_icons@, i);
    let icon = row_icon(dark, r, i, row, nodes[p + 3], vectors);
    let words = row_texts(dark, row, nodes[p + 1], nodes[p + 2], r.items@[i]@, after as usize);
    let badge = row_badge(dark, r, i, row, nodes[p + 3 + after], (after + 1) as usize, vectors);
    let end = row_end(col, row, nodes[p + 2], (past + 1) as usize, click, (2 * i) as usize);
    let line: Seq<SpecAct> = if i + 1 < r.items@.len() {
        row_line(dark, col, nodes[p + 3 + past], (2 * i + 1) as usize)
    } else {
        Seq::empty()
    };
    nothing_under(icon, col);
    nothing_under(words, col);
    nothing_under(badge, col);
    put_under_both(icon, words, col);
    put_under_both(badge, end, col);
    put_under_both(icon + words, badge + end, col);
    put_under_both(icon + words + (badge + end), line, col);
    let e3 = end.drop_last();
    let e2 = e3.drop_last();
    assert forall|j: int| 0 <= j < e2.len() implies elsewhere(#[trigger] e2[j], col) by {
        assert(e2[j] == end[j]);
    }
    nothing_under(e2, col);
    assert(e3.last() == end[2]);
    assert(end.last() == end[3]);
    assert(put_under(e3, col) == put_under(e2, col));
    assert(clicks_of(e3) == clicks_of(e2).push((row, click)));
    assert(put_under(end, col) =~= seq![(row, (2 * i) as usize)]);
    assert(clicks_of(end) =~= seq![(row, click)]);
    if i + 1 < r.items@.len() {
        let l1 = line.drop_last();
        assert forall|j: int| 0 <= j < l1.len() implies elsewhere(#[trigger] l1[j], col) by {
            assert(l1[j] == line[j]);
        }
        nothing_under(l1, col);
        assert(line.last() == line[1]);
    }
    let all = row_acts(dark, r, i, col, nodes, p, click, vectors);
    assert(all =~= icon + words + (badge + end) + line);
    assert(put_under(all, col) =~= row_places(r, i, nodes, p));
    assert(clicks_of(all) =~= seq![(row, click)]);
}

/// What the column gets of the first `n` rows.
pub open spec fn column_places(r: MenuRows, n: int, nodes: Seq<u64>, from: int) -> Seq<(u64, usize)>
    decreases n,
{
    if n <= 0 {
        Seq::empty()
    } else {
        column_places(r, n - 1, nodes, from) + row_places(
            r,
            n - 1,
            nodes,
            from + rows_kinds(r, n - 1).len(),
        )
    }
}

proof fn rows_stand(
    dark: bool,
    r: MenuRows,
    n: int,
    col: u64,
    nodes: Seq<u64>,
    from: int,
    next: u64,
    vectors: Seq<String>,
)
    requires
        0 <= n <= r.items@.len(),
        next + n <= u64::MAX,
        forall|j: int|
            0 <= j < n ==> nodes[from + #[trigger] rows_kinds(r, j).len()] != col,
    ensures
        ({
            let all = rows_acts(dark, r, n, col, nodes, from, next, vectors);
            &&& put_under(all, col) == column_places(r, n, nodes, from)
            &&& clicks_of(all) == Seq::new(
                n as nat,
                |j: int| (nodes[from + rows_kinds(r, j).len()], (next + j) as u64),
            )
        }),
    decreases n,
{
    let clicks = Seq::new(
        n as nat,
        |j: int| (nodes[from + rows_kinds(r, j).len()], (next + j) as u64),
    );
    if n > 0 {
        let p = from + rows_kinds(r, n - 1).len();
        let click = (next + (n - 1)) as u64;
        rows_stand(dark, r, n - 1, col, nodes, from, next, vectors);
        one_row_stands(dark, r, n - 1, col, nodes, p, click, vectors);
        put_under_both(
            rows_acts(dark, r, n - 1, col, nodes, from, next, vectors),
            row_acts(dark, r, n - 1, col, nodes, p, click, vectors),
            col,
        );
        assert(clicks =~= clicks.drop_last().push((nodes[p], click)));
    }
    assert(clicks_of(rows_acts(dark, r, n, col, nodes, from, next, vectors)) =~= clicks);
}

proof fn places_count(r: MenuRows, n: int, nodes: Seq<u64>, from: int)
    requires
        0 <= n <= r.items@.len(),
        2 * r.items@.len() <= usize::MAX,
    ensures
        ({
            let places = column_places(r, n, nodes, from);
            &&& places.len() == (if n > 0 && n == r.items@.len() {
                2 * n - 1
            } else {
                2 * n
            })
            &&& forall|j: int| 0 <= j < places.len() ==> (#[trigger] places[j]).1 == j
            &&& forall|i: int|
                0 <= i < n ==> places[2 * i].0 == nodes[from + (#[trigger] rows_kinds(r, i)).len()]
            &&& forall|i: int|
                0 <= i < n && i + 1 < r.items@.len() ==> places[2 * i + 1].0
                    == #[trigger] line_node(r, i, nodes, from)
        }),
    decreases n,
{
    if n > 0 {
        places_count(r, n - 1, nodes, from);
        let before = column_places(r, n - 1, nodes, from);
        let places = column_places(r, n, nodes, from);
        let last = row_places(r, n - 1, nodes, from + rows_kinds(r, n - 1).len());
        assert forall|j: int| 0 <= j < places.len() implies (#[trigger] places[j]).1 == j by {
            if j < before.len() {
                assert(places[j] == before[j]);
            } else {
                assert(places[j] == last[j - before.len()]);
            }
        }
        assert forall|i: int| 0 <= i < n implies places[2 * i].0 == nodes[from + (
        #[trigger] rows_kinds(r, i)).len()] by {
            if i < n - 1 {
                assert(places[2 * i] == before[2 * i]);
            } else {
                assert(places[2 * i] == last[0]);
            }
        }
        assert forall|i: int| 0 <= i < n && i + 1 < r.items@.len() implies places[2 * i + 1].0
            == #[trigger] line_node(r, i, nodes, from) by {
            if i < n - 1 {
                assert(places[2 * i + 1] == before[2 * i + 1]);
            } else {
                assert(places[2 * i + 1] == last[1]);
            }
        }
    }
}

/// The line below row `i`.
pub open spec fn line_node(r: MenuRows, i: int, nodes: Seq<u64>, from: int) -> u64 {
    nodes[from + rows_kinds(r, i).len() + 3 + one_if(r.icons@, i) + one_if(r.badge_icons@, i)]
}

/// The call that makes a node the line between two rows.
pub open spec fn line_act(dark: bool, node: u64) -> SpecAct {
    Act::Separator { node, argb: themed(dark, 0x1400_0000, 0x24FF_FFFF) }
}

proof fn lines_are_drawn(
    dark: bool,
    r: MenuRows,
    n: int,
    col: u64,
    nodes: Seq<u64>,
    from: int,
    next: u64,
    vectors: Seq<String>,
    i: int,
)
    requires
        0 <= i < n <= r.items@.len(),
        i + 1 < r.items@.len(),
    ensures
        rows_acts(dark, r, n, col, nodes, from, next, vectors).contains(
            line_act(dark, line_node(r, i, nodes, from)),
        ),
    decreases n,
{
    let all = rows_acts(dark, r, n, col, nodes, from, next, vectors);
    let before = rows_acts(dark, r, n - 1, col, nodes, from, next, vectors);
    let a = line_act(dark, line_node(r, i, nodes, from));
    if i < n - 1 {
        lines_are_drawn(dark, r, n - 1, col, nodes, from, next, vectors, i);
        let k = before.index_of(a);
        assert(all[k] == a);
    } else {
        let p = from + rows_kinds(r, n - 1).len();
        let row = row_acts(dark, r, i, col, nodes, p, (next + (n - 1)) as u64, vectors);
        assert(row[row.len() - 2] == a);
        assert(all[all.len() - 2] == a);
    }
}

/// The column of a menu holds its rows in the order of their items, with a line between
/// neighbors and none below the last; row `i` reports its clicks under the `i`-th number.
pub proof fn rows_stand_in_order(
    dark: bool,
    r: MenuRows,
    col: u64,
    nodes: Seq<u64>,
    from: int,
    next: u64,
    vectors: Seq<String>,
)
    requires
        2 * r.items@.len() <= usize::MAX,
        next + r.items@.len() <= u64::MAX,
        forall|j: int|
            0 <= j < r.items@.len() ==> nodes[from + #[trigger] rows_kinds(r, j).len()] != col,
    ensures
        ({
            let n = r.items@.len();
            let all = rows_acts(dark, r, n as int, col, nodes, from, next, vectors);
            let places = put_under(all, col);
            &&& places.len() == (if n > 0 {
                2 * n - 1
            } else {
                0
            })
            &&& forall|j: int| 0 <= j < places.len() ==> (#[trigger] places[j]).1 == j
            &&& forall|i: int|
                0 <= i < n ==> places[2 * i].0 == nodes[from + (#[trigger] rows_kinds(r, i)).len()]
            &&& forall|i: int|
                0 <= i < n - 1 ==> {
                    &&& places[2 * i + 1].0 == #[trigger] line_node(r, i, nodes, from)
                    &&& all.contains(line_act(dark, line_node(r, i, nodes, from)))
                }
            &&& clicks_of(all) == Seq::new(
                n,
                |i: int| (nodes[from + rows_kinds(r, i).len()], (next + i) as u64),
            )
        }),
{
    let n = r.items@.len() as int;
    rows_stand(dark, r, n, col, nodes, from, next, vectors);
    places_count(r, n, nodes, from);
    let all = rows_acts(dark, r, n, col, nodes, from, next, vectors);
    let places = put_under(all, col);
    assert forall|i: int| 0 <= i < n - 1 implies places[2 * i + 1].0 == #[trigger] line_node(
        r,
        i,
        nodes,
        from,
    ) && all.contains(line_act(dark, line_node(r, i, nodes, from))) by {
        lines_are_drawn(dark, r, n, col, nodes, from, next, vectors, i);
    }
}

proof fn kinds_grow(r: MenuRows, m: int, n: int)
    requires
        0 <= m <= n,
    ensures
        rows_kinds(r, m).len() <= rows_kinds(r, n).len(),
    decreases n,
{
    if m < n {
        kinds_grow(r, m, n - 1);
    }
}

fn put_row_texts(
    out: &mut Vec<ArkAct>,
    dark: bool,
    row: u64,
    label: u64,
    arrow: u64,
    title: &str,
    index: usize,
)
    ensures
        acts(final(out)@) == acts(old(out)@) + row_texts(dark, row, label, arrow, title@, index),
{
    act(out, Act::Text { node: label, text: owned(title) });
    act(out, Act::FontSize { node: label, size: Length::Whole(16) });
    act(
        out,
        Act::FontColor { node: label, argb: theme_color(dark, 0xE500_0000, 0xE6FF_FFFF) },
    );
    act(out, Act::Grow { node: label });
    act(out, Act::Text { node: arrow, text: owned("\u{203a}") });
    act(out, Act::FontSize { node: arrow, size: Length::Whole(20) });
    act(
        out,
        Act::FontColor { node: arrow, argb: theme_color(dark, 0x4D00_0000, 0x66FF_FFFF) },
    );
    act(out, Act::Insert { parent: row, child: label, index });
    proof {
        assert(acts(out@) =~= acts(old(out)@) + row_texts(dark, row, label, arrow, title@, index));
    }
}

fn put_row_end(
    out: &mut Vec<ArkAct>,
    col: u64,
    row: u64,
    arrow: u64,
    index: usize,
    click: u64,
    place: usize,
)
    ensures
        acts(final(out)@) == acts(old(out)@) + row_end(col, row, arrow, index, click, place),
{
    act(out, Act::Insert { parent: row, child: arrow, index });
    act(out, Act::StyleRow { node: row, height: 52 });
    act(out, Act::Register { node: row, kind: 0, id: click });
    act(out, Act::Insert { parent: col, child: row, index: place });
    proof {
        assert(acts(out@) =~= acts(old(out)@) + row_end(col, row, arrow, index, click, place));
    }
}

/// Builds row `i` from the nodes at `p` on, and says where the next row's nodes begin.
#[verifier::spinoff_prover]
#[verifier::rlimit(60)]
fn build_row(
    out: &mut Vec<ArkAct>,
    dark: bool,
    r: &MenuRows,
    i: usize,
    col: u64,
    nodes: &Vec<u64>,
    p: usize,
    click: u64,
    vectors: &Vec<String>,
) -> (q: usize)
    requires
        i < r.items.len(),
        r.items.len() < 0x4000_0000,
        p + row_kinds(*r, i as int).len() <= nodes.len(),
    ensures
        acts(final(out)@) == acts(old(out)@) + row_acts(
            dark,
            *r,
            i as int,
            col,
            nodes@,
            p as int,
            click,
            vectors@,
        ),
        q == p + row_kinds(*r, i as int).len(),
{
    let ghost start = acts(out@);
    let row = nodes[p];
    let label = nodes[p + 1];
    let arrow = nodes[p + 2];
    let mut q: usize = p + 3;
    let mut child: usize = 0;
    match entry_at(&r.icons, i) {
        Some(name) => {
            let icon = nodes[q];
            put_glyph(out, row, icon, name.as_str(), fill_of(dark, &r.tints, i), 20, 0, vectors);
            q = q + 1;
            child = 1;
        },
        None => {},
    }
    let ghost a1 = row_icon(dark, *r, i as int, row, nodes@[p + 3], vectors@);
    proof {
        assert(acts(out@) =~= start + a1);
    }
    put_row_texts(out, dark, row, label, arrow, r.items[i].as_str(), child);
    let ghost a2 = row_texts(dark, row, label, arrow, r.items@[i as int]@, child);
    let ghost head = a1 + a2;
    proof {
        regroup(start, a1, a2);
    }
    let mut after: usize = child + 1;
    let ghost badge_node = nodes@[p + 3 + child];
    match entry_at(&r.badge_icons, i) {
        Some(name) => {
            let badge = nodes[q];
            put_glyph(
                out,
                row,
                badge,
                name.as_str(),
                fill_of(dark, &r.badge_tints, i),
                16,
                after,
                vectors,
            );
            q = q + 1;
            after = after + 1;
        },
        None => {},
    }
    let ghost b1 = row_badge(dark, *r, i as int, row, badge_node, (child + 1) as usize, vectors@);
    proof {
        assert(acts(out@) =~= start + head + b1);
    }
    put_row_end(out, col, row, arrow, after, click, 2 * i);
    let ghost b2 = row_end(col, row, arrow, after, click, (2 * i) as usize);
    proof {
        regroup(start + head, b1, b2);
        regroup(start, head, b1 + b2);
    }
    let ghost tail = b1 + b2;
    if i + 1 < r.items.len() {
        let line = nodes[q];
        act(
            out,
            Act::Separator { node: line, argb: theme_color(dark, 0x1400_0000, 0x24FF_FFFF) },
        );
        act(out, Act::Insert { parent: col, child: line, index: 2 * i + 1 });
        proof {
            assert(acts(out@) =~= start + (head + tail) + row_line(
                dark,
                col,
                line,
                (2 * i + 1) as usize,
            ));
            regroup(start, head + tail, row_line(dark, col, line, (2 * i + 1) as usize));
        }
        q = q + 1;
    } else {
        proof {
            assert(head + tail + Seq::<SpecAct>::empty() =~= head + tail);
        }
    }
    q
}

/// The nodes the rows of a menu take.
pub fn menu_nodes(r: &MenuRows) -> (out: Vec<u32>)
    ensures
        out@ == rows_kinds(*r, r.items@.len() as int),
{
    let mut out: Vec<u32> = Vec::new();
    let mut i: usize = 0;
    while i < r.items.len()
        invariant
            i <= r.items.len(),
            out@ == rows_kinds(*r, i as int),
        decreases r.items.len() - i,
    {
        out.push(K_ROW);
        out.push(K_TEXT);
        out.push(K_TEXT);
        if entry_at(&r.icons, i).is_some() {
            out.push(K_IMAGE);
        }
        if entry_at(&r.badge_icons, i).is_some() {
            out.push(K_IMAGE);
        }
        if i + 1 < r.items.len() {
            out.push(K_STACK);
        }
        proof {
            assert(out@ =~= rows_kinds(*r, i as int) + row_kinds(*r, i as int));
        }
        i = i + 1;
    }
    out
}

/// Builds a menu's rows into its column, numbered from `next` on, from the nodes at `from` on.
pub fn build_nav_menu_rows(
    out: &mut Vec<ArkAct>,
    dark: bool,
    r: &MenuRows,
    col: u64,
    nodes: &Vec<u64>,
    from: usize,
    next: u64,
    vectors: &Vec<String>,
)
    requires
        r.items.len() < 0x4000_0000,
        next + r.items.len() <= u64::MAX,
        from + rows_kinds(*r, r.items@.len() as int).len() <= nodes.len(),
    ensures
        acts(final(out)@) == acts(old(out)@) + rows_acts(
            dark,
            *r,
            r.items@.len() as int,
            col,
            nodes@,
            from as int,
            next,
            vectors@,
        ),
{
    let ghost start = acts(out@);
    let mut i: usize = 0;
    let mut p: usize = from;
    proof {
        assert(start + Seq::<SpecAct>::empty() =~= start);
    }
    while i < r.items.len()
        invariant
            i <= r.items.len(),
            r.items.len() < 0x4000_0000,
            next + r.items.len() <= u64::MAX,
            from + rows_kinds(*r, r.items@.len() as int).len() <= nodes.len(),
            p == from + rows_kinds(*r, i as int).len(),
            acts(out@) == start + rows_acts(
                dark,
                *r,
                i as int,
                col,
                nodes@,
                from as int,
                next,
                vectors@,
            ),
        decreases r.items.len() - i,
    {
        proof {
            kinds_grow(*r, i + 1, r.items@.len() as int);
        }
        let ghost before = rows_acts(dark, *r, i as int, col, nodes@, from as int, next, vectors@);
        let click: u64 = next + i as u64;
        let ghost one = row_acts(dark, *r, i as int, col, nodes@, p as int, click, vectors@);
        p = build_row(out, dark, r, i, col, nodes, p, click, vectors);
        proof {
            regroup(start, before, one);
        }
        i = i + 1;
    }
}

// ---- the bottom bar ----------------------------------------------------------------------------

/// The nodes of the first `n` entries of a bar: a cell each, its icon and its label.
pub open spec fn bar_kinds(r: MenuRows, n: int) -> Seq<u32>
    decreases n,
{
    if n <= 0 {
        Seq::empty()
    } else {
        bar_kinds(r, n - 1) + (if at(r.icons@, n - 1) is Some {
            seq![K_COLUMN, K_IMAGE, K_TEXT]
        } else {
            seq![K_COLUMN, K_TEXT]
        })
    }
}

/// Entry `i` as it is remembered, built from the nodes at `p` on; only a vector takes a color.
pub open spec fn bar_cell(r: MenuRows, i: int, nodes: Seq<u64>, p: int, vectors: Seq<String>) -> BarCell {
    BarCell {
        node: nodes[p],
        label: nodes[p + 1 + one_if(r.icons@, i)],
        glyph: match at(r.icons@, i) {
            Some(name) => if listed(vectors, name@) {
                Some(nodes[p + 1])
            } else {
                None
            },
            None => None,
        },
    }
}

/// The first `n` entries as they are remembered.
pub open spec fn bar_cells(r: MenuRows, n: int, nodes: Seq<u64>, from: int, vectors: Seq<String>) -> Seq<
    BarCell,
>
    decreases n,
{
    if n <= 0 {
        Seq::empty()
    } else {
        bar_cells(r, n - 1, nodes, from, vectors).push(
            bar_cell(r, n - 1, nodes, from + bar_kinds(r, n - 1).len(), vectors),
        )
    }
}

/// The icon of entry `i`, where it has one.
pub open spec fn bar_icon(r: MenuRows, i: int, cell: u64, icon: u64, tint: u32, vectors: Seq<String>) -> Seq<
    SpecAct,
> {
    match at(r.icons@, i) {
        Some(name) => picture(icon, name@, Some(tint), vectors) + seq![
            Act::ImageFit { node: icon, fit: 0 },
            Act::Resize { node: icon, width: Length::Whole(24), height: Length::Whole(24) },
            Act::Insert { parent: cell, child: icon, index: 0 },
        ],
        None => Seq::empty(),
    }
}

/// The label of entry `i`, and the entry's place in the bar.
pub open spec fn bar_label(
    bar: u64,
    cell: u64,
    label: u64,
    title: Seq<char>,
    tint: u32,
    index: usize,
    click: u64,
    i: usize,
) -> Seq<SpecAct> {
    seq![
        Act::Text { node: label, text: title },
        Act::FontSize { node: label, size: Length::Whole(10) },
        Act::FontColor { node: label, argb: tint },
        Act::Insert { parent: cell, child: label, index },
        Act::Grow { node: cell },
        Act::Register { node: cell, kind: 0, id: click },
        Act::Insert { parent: bar, child: cell, index: i },
    ]
}

/// Entry `i` of a bar, built from the nodes at `p` on.
pub open spec fn entry_acts(
    dark: bool,
    r: MenuRows,
    i: int,
    selected: usize,
    bar: u64,
    nodes: Seq<u64>,
    p: int,
    click: u64,
    vectors: Seq<String>,
) -> Seq<SpecAct> {
    let tint = bar_tint(dark, i == selected);
    let icons = one_if(r.icons@, i);
    bar_icon(r, i, nodes[p], nodes[p + 1], tint, vectors) + bar_label(
        bar,
        nodes[p],
        nodes[p + 1 + icons],
        r.items@[i]@,
        tint,
        icons as usize,
        click,
        i as usize,
    )
}

/// The first `n` entries of a bar.
pub open spec fn bar_acts(
    dark: bool,
    r: MenuRows,
    n: int,
    selected: usize,
    bar: u64,
    nodes: Seq<u64>,
    from: int,
    next: u64,
    vectors: Seq<String>,
) -> Seq<SpecAct>
    decreases n,
{
    if n <= 0 {
        Seq::empty()
    } else {
        bar_acts(dark, r, n - 1, selected, bar, nodes, from, next, vectors) + entry_acts(
            dark,
            r,
            n - 1,
            selected,
            bar,
            nodes,
            from + bar_kinds(r, n - 1).len(),
            (next + (n - 1)) as u64,
            vectors,
        )
    }
}

proof fn bar_kinds_grow(r: MenuRows, m: int, n: int)
    requires
        0 <= m <= n,
    ensures
        bar_kinds(r, m).len() <= bar_kinds(r, n).len(),
    decreases n,
{
    if m < n {
        bar_kinds_grow(r, m, n - 1);
    }
}

/// The nodes a bar takes.
pub fn bar_nodes(r: &MenuRows) -> (out: Vec<u32>)
    ensures
        out@ == bar_kinds(*r, r.items@.len() as int),
{
    let mut out: Vec<u32> = Vec::new();
    let mut i: usize = 0;
    while i < r.items.len()
        invariant
            i <= r.items.len(),
            out@ == bar_kinds(*r, i as int),
        decreases r.items.len() - i,
    {
        out.push(K_COLUMN);
        if entry_at(&r.icons, i).is_some() {
            out.push(K_IMAGE);
        }
        out.push(K_TEXT);
        proof {
            assert(out@ =~= bar_kinds(*r, i + 1));
        }
        i = i + 1;
    }
    out
}

#[verifier::spinoff_prover]
#[verifier::rlimit(60)]
fn build_entry(
    out: &mut Vec<ArkAct>,
    dark: bool,
    r: &MenuRows,
    i: usize,
    selected: usize,
    bar: u64,
    nodes: &Vec<u64>,
    p: usize,
    click: u64,
    vectors: &Vec<String>,
) -> (built: (usize, BarCell))
    requires
        i < r.items.len(),
        p + 2 + one_if(r.icons@, i as int) <= nodes.len(),
    ensures
        acts(final(out)@) == acts(old(out)@) + entry_acts(
            dark,
            *r,
            i as int,
            selected,
            bar,
            nodes@,
            p as int,
            click,
            vectors@,
        ),
        built.0 == p + 2 + one_if(r.icons@, i as int),
        built.1 == bar_cell(*r, i as int, nodes@, p as int, vectors@),
{
    let ghost start = acts(out@);
    let tint: u32 = tint_of(dark, i == selected);
    let cell = nodes[p];
    let mut q: usize = p + 1;
    let mut child: usize = 0;
    let mut glyph: Option<u64> = None;
    match entry_at(&r.icons, i) {
        Some(name) => {
            let icon = nodes[q];
            set_picture(out, icon, name.as_str(), Some(tint), vectors);
            act(out, Act::ImageFit { node: icon, fit: 0 });
            act(
                out,
                Act::Resize { node: icon, width: Length::Whole(24), height: Length::Whole(24) },
            );
            act(out, Act::Insert { parent: cell, child: icon, index: 0 });
            if is_listed(vectors, name.as_str()) {
                glyph = Some(icon);
            }
            q = q + 1;
            child = 1;
        },
        None => {},
    }
    let ghost a1 = bar_icon(*r, i as int, cell, nodes@[p + 1], tint, vectors@);
    proof {
        assert(acts(out@) =~= start + a1);
    }
    let label = nodes[q];
    act(out, Act::Text { node: label, text: owned(r.items[i].as_str()) });
    act(out, Act::FontSize { node: label, size: Length::Whole(10) });
    act(out, Act::FontColor { node: label, argb: tint });
    act(out, Act::Insert { parent: cell, child: label, index: child });
    act(out, Act::Grow { node: cell });
    act(out, Act::Register { node: cell, kind: 0, id: click });
    act(out, Act::Insert { parent: bar, child: cell, index: i });
    proof {
        let a2 = bar_label(bar, cell, label, r.items@[i as int]@, tint, child, click, i);
        assert(acts(out@) =~= start + a1 + a2);
        regroup(start, a1, a2);
    }
    (q + 1, BarCell { node: cell, label, glyph })
}

/// Builds the entries of a bar, numbered from `next` on, from the nodes at `from` on; the
/// entries that were built.
pub fn build_bar(
    out: &mut Vec<ArkAct>,
    dark: bool,
    r: &MenuRows,
    selected: usize,
    bar: u64,
    nodes: &Vec<u64>,
    from: usize,
    next: u64,
    vectors: &Vec<String>,
) -> (cells: Vec<BarCell>)
    requires
        next + r.items.len() <= u64::MAX,
        from + bar_kinds(*r, r.items@.len() as int).len() <= nodes.len(),
    ensures
        acts(final(out)@) == acts(old(out)@) + bar_acts(
            dark,
            *r,
            r.items@.len() as int,
            selected,
            bar,
            nodes@,
            from as int,
            next,
            vectors@,
        ),
        cells@ == bar_cells(*r, r.items@.len() as int, nodes@, from as int, vectors@),
{
    let ghost start = acts(out@);
    let mut cells: Vec<BarCell> = Vec::new();
    let mut i: usize = 0;
    let mut p: usize = from;
    proof {
        assert(start + Seq::<SpecAct>::empty() =~= start);
    }
    while i < r.items.len()
        invariant
            i <= r.items.len(),
            next + r.items.len() <= u64::MAX,
            from + bar_kinds(*r, r.items@.len() as int).len() <= nodes.len(),
            p == from + bar_kinds(*r, i as int).len(),
            cells@ == bar_cells(*r, i as int, nodes@, from as int, vectors@),
            acts(out@) == start + bar_acts(
                dark,
                *r,
                i as int,
                selected,
                bar,
                nodes@,
                from as int,
                next,
                vectors@,
            ),
        decreases r.items.len() - i,
    {
        proof {
            bar_kinds_grow(*r, i + 1, r.items@.len() as int);
        }
        let ghost before = bar_acts(
            dark,
            *r,
            i as int,
            selected,
            bar,
            nodes@,
            from as int,
            next,
            vectors@,
        );
        let click: u64 = next + i as u64;
        let ghost one = entry_acts(
            dark,
            *r,
            i as int,
            selected,
            bar,
            nodes@,
            p as int,
            click,
            vectors@,
        );
        let (q, cell) = build_entry(out, dark, r, i, selected, bar, nodes, p, click, vectors);
        cells.push(cell);
        p = q;
        proof {
            regroup(start, before, one);
        }
        i = i + 1;
    }
    cells
}

} // verus!
