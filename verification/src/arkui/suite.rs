//! Pages that all stay, over a bottom bar made of the navigation's rows.
use crate::arkui::act::{act, acts, no_acts, Act, ArkAct, SpecAct};
use crate::arkui::looks::{theme_color, themed};
use crate::keys::Pairs;
use crate::model::{Event, Length, Size, Target};
use vstd::prelude::*;

verus! {

/// The height of the bar.
pub const NAV_BAR_H: u32 = 56;

/// An entry of the bar: the node it stands in, its label, and its icon where that takes a color.
#[derive(Clone, Copy, Debug, PartialEq, Eq, Structural)]
pub struct BarCell {
    pub node: u64,
    pub label: u64,
    pub glyph: Option<u64>,
}

/// The one suite: its host, the node its pages stand in, its bar, the destinations with their
/// app nodes in the order of the bar, and the bar's cells.
pub struct Suite {
    pub host: u64,
    pub pages: u64,
    pub bar: u64,
    pub items: Vec<(u64, u64)>,
    pub cells: Vec<BarCell>,
    pub selected: usize,
    pub page_size: Size,
}

#[verifier::ext_equal]
pub ghost struct SuiteView {
    pub host: u64,
    pub pages: u64,
    pub bar: u64,
    pub items: Pairs,
    pub cells: Seq<BarCell>,
    pub selected: usize,
    pub page_size: Size,
}

impl View for Suite {
    type V = SuiteView;

    open spec fn view(&self) -> SuiteView {
        SuiteView {
            host: self.host,
            pages: self.pages,
            bar: self.bar,
            items: self.items@,
            cells: self.cells@,
            selected: self.selected,
            page_size: self.page_size,
        }
    }
}

/// The first `n` destinations shown or hidden: `i` shows, the others do not.
pub open spec fn shown_acts(items: Pairs, i: usize, n: int) -> Seq<SpecAct>
    decreases n,
{
    if n <= 0 {
        Seq::empty()
    } else {
        shown_acts(items, i, n - 1).push(Act::Visible { node: items[n - 1].0, on: n - 1 == i })
    }
}

/// The color of an entry: the accent where it is the selected one.
pub open spec fn bar_tint(dark: bool, on: bool) -> u32 {
    if on {
        themed(dark, 0xFF00_7DFF, 0xFF3E_9BFF)
    } else {
        themed(dark, 0x9900_0000, 0x99FF_FFFF)
    }
}

pub fn tint_of(dark: bool, on: bool) -> (argb: u32)
    ensures
        argb == bar_tint(dark, on),
{
    if on {
        theme_color(dark, 0xFF00_7DFF, 0xFF3E_9BFF)
    } else {
        theme_color(dark, 0x9900_0000, 0x99FF_FFFF)
    }
}

/// An entry in its color.
pub open spec fn tinted(c: BarCell, argb: u32) -> Seq<SpecAct> {
    let label: Seq<SpecAct> = seq![Act::FontColor { node: c.label, argb }];
    match c.glyph {
        Some(node) => label.push(Act::ImageFill { node, argb }),
        None => label,
    }
}

/// The first `n` entries colored: `i` has the accent, the others do not.
pub open spec fn accent_acts(dark: bool, cells: Seq<BarCell>, i: usize, n: int) -> Seq<SpecAct>
    decreases n,
{
    if n <= 0 {
        Seq::empty()
    } else {
        accent_acts(dark, cells, i, n - 1) + tinted(cells[n - 1], bar_tint(dark, n - 1 == i))
    }
}

/// Destination `i` selected: it shows and the others do not, and the bar's accent is on it.
pub open spec fn select_acts(dark: bool, v: SuiteView, i: usize) -> Seq<SpecAct> {
    shown_acts(v.items, i, v.items.len() as int) + accent_acts(
        dark,
        v.cells,
        i,
        v.cells.len() as int,
    )
}

/// The first `n` destinations sized to a page.
pub open spec fn sized_acts(items: Pairs, page: Size, n: int) -> Seq<SpecAct>
    decreases n,
{
    if n <= 0 {
        Seq::empty()
    } else {
        sized_acts(items, page, n - 1).push(
            Act::Resize {
                node: items[n - 1].0,
                width: Length::Given(page.width),
                height: Length::Given(page.height),
            },
        )
    }
}

/// The first `n` destinations told how much room they have.
pub open spec fn told_acts(items: Pairs, page: Size, n: int) -> Seq<SpecAct>
    decreases n,
{
    if n <= 0 {
        Seq::empty()
    } else {
        told_acts(items, page, n - 1).push(
            Act::Emit { to: Target::Node(items[n - 1].1), event: Event::FrameChanged(page) },
        )
    }
}

/// The suite laid out: the pages above, the bar below, every page sized and then told.
pub open spec fn layout_acts(v: SuiteView, size: Size, page: Size) -> Seq<SpecAct> {
    let frame: Seq<SpecAct> = seq![
        Act::Resize {
            node: v.pages,
            width: Length::Given(page.width),
            height: Length::Given(page.height),
        },
        Act::Resize {
            node: v.bar,
            width: Length::Given(size.width),
            height: Length::Whole(NAV_BAR_H),
        },
    ];
    frame + sized_acts(v.items, page, v.items.len() as int) + told_acts(
        v.items,
        page,
        v.items.len() as int,
    )
}

/// The first `n` cells taken out of the bar.
pub open spec fn cleared_acts(bar: u64, cells: Seq<BarCell>, n: int) -> Seq<SpecAct>
    decreases n,
{
    if n <= 0 {
        Seq::empty()
    } else {
        cleared_acts(bar, cells, n - 1).push(Act::Remove { parent: bar, child: cells[n - 1].node })
    }
}

/// A child that came under the host: the first one, which holds the rows as a list, is kept out
/// of sight; every other one is a destination.
pub open spec fn joined(v: SuiteView, child: u64, id: u64, index: usize) -> SuiteView {
    if index == 0 {
        v
    } else {
        SuiteView { items: v.items.push((child, id)), ..v }
    }
}

/// The calls for a child that came: it is placed and sized, and shows only where it is the first
/// destination.
pub open spec fn joined_acts(v: SuiteView, child: u64, index: usize) -> Seq<SpecAct> {
    seq![
        Act::Insert { parent: v.pages, child, index },
        Act::Resize {
            node: child,
            width: Length::Given(v.page_size.width),
            height: Length::Given(v.page_size.height),
        },
        Act::Visible { node: child, on: index != 0 && v.items.len() == 0 },
    ]
}

/// Whether a call shows a node, where it decides that at all.
pub open spec fn decides(a: SpecAct, node: u64) -> Option<bool> {
    match a {
        Act::Visible { node: n, on } => if n == node {
            Some(on)
        } else {
            None
        },
        _ => None,
    }
}

/// Whether a node shows after the calls, given whether it showed before.
pub open spec fn shows_after(s: Seq<SpecAct>, node: u64, before: bool) -> bool
    decreases s.len(),
{
    if s.len() == 0 {
        before
    } else {
        match decides(s.last(), node) {
            Some(on) => on,
            None => shows_after(s.drop_last(), node, before),
        }
    }
}

proof fn shown_of(items: Pairs, i: usize, n: int, k: int, before: bool)
    requires
        0 <= k < n <= items.len(),
        forall|a: int, b: int|
            0 <= a < b < items.len() ==> (#[trigger] items[a]).0 != (#[trigger] items[b]).0,
    ensures
        shows_after(shown_acts(items, i, n), items[k].0, before) == (k == i),
    decreases n,
{
    let s = shown_acts(items, i, n);
    assert(s.drop_last() =~= shown_acts(items, i, n - 1));
    if k < n - 1 {
        assert(items[k].0 != items[n - 1].0);
        shown_of(items, i, n - 1, k, before);
    }
}

proof fn colors_show_nothing(s: Seq<SpecAct>, more: Seq<SpecAct>, node: u64, before: bool)
    requires
        forall|j: int| 0 <= j < more.len() ==> decides(#[trigger] more[j], node) is None,
    ensures
        shows_after(s + more, node, before) == shows_after(s, node, before),
    decreases more.len(),
{
    if more.len() == 0 {
        assert(s + more =~= s);
    } else {
        assert((s + more).last() == more[more.len() - 1]);
        assert((s + more).drop_last() =~= s + more.drop_last());
        assert forall|j: int| 0 <= j < more.drop_last().len() implies decides(
            #[trigger] more.drop_last()[j],
            node,
        ) is None by {
            assert(more.drop_last()[j] == more[j]);
        }
        colors_show_nothing(s, more.drop_last(), node, before);
    }
}

proof fn accents_only_color(dark: bool, cells: Seq<BarCell>, i: usize, n: int, node: u64)
    ensures
        forall|j: int|
            0 <= j < accent_acts(dark, cells, i, n).len() ==> decides(
                #[trigger] accent_acts(dark, cells, i, n)[j],
                node,
            ) is None,
    decreases n,
{
    if n > 0 {
        accents_only_color(dark, cells, i, n - 1, node);
    }
}

/// After a destination is selected it is the one that shows.
pub proof fn selecting_shows_one_page(dark: bool, v: SuiteView, i: usize, k: int, before: bool)
    requires
        0 <= k < v.items.len(),
        forall|a: int, b: int|
            0 <= a < b < v.items.len() ==> (#[trigger] v.items[a]).0 != (#[trigger] v.items[b]).0,
    ensures
        shows_after(select_acts(dark, v, i), v.items[k].0, before) == (k == i),
{
    let node = v.items[k].0;
    shown_of(v.items, i, v.items.len() as int, k, before);
    accents_only_color(dark, v.cells, i, v.cells.len() as int, node);
    colors_show_nothing(
        shown_acts(v.items, i, v.items.len() as int),
        accent_acts(dark, v.cells, i, v.cells.len() as int),
        node,
        before,
    );
}

/// The color a call gives a node's text or picture, where it gives one.
pub open spec fn colors(a: SpecAct, node: u64) -> Option<u32> {
    match a {
        Act::FontColor { node: n, argb } => if n == node {
            Some(argb)
        } else {
            None
        },
        Act::ImageFill { node: n, argb } => if n == node {
            Some(argb)
        } else {
            None
        },
        _ => None,
    }
}

/// The color of a node's text or picture after the calls, given the one it had before.
pub open spec fn color_after(s: Seq<SpecAct>, node: u64, before: u32) -> u32
    decreases s.len(),
{
    if s.len() == 0 {
        before
    } else {
        match colors(s.last(), node) {
            Some(argb) => argb,
            None => color_after(s.drop_last(), node, before),
        }
    }
}

proof fn last_color(s: Seq<SpecAct>, more: Seq<SpecAct>, node: u64, before: u32)
    ensures
        color_after(s + more, node, before) == color_after(more, node, color_after(s, node, before)),
    decreases more.len(),
{
    if more.len() == 0 {
        assert(s + more =~= s);
    } else {
        assert((s + more).last() == more.last());
        assert((s + more).drop_last() =~= s + more.drop_last());
        last_color(s, more.drop_last(), node, before);
    }
}

proof fn showing_colors_nothing(items: Pairs, i: usize, n: int, node: u64, before: u32)
    ensures
        color_after(shown_acts(items, i, n), node, before) == before,
    decreases n,
{
    if n > 0 {
        assert(shown_acts(items, i, n).drop_last() =~= shown_acts(items, i, n - 1));
        showing_colors_nothing(items, i, n - 1, node, before);
    }
}

/// Whether a node is the label or the icon of an entry.
pub open spec fn part_of(c: BarCell, node: u64) -> bool {
    c.label == node || c.glyph == Some(node)
}

proof fn tinting(c: BarCell, argb: u32, node: u64, before: u32)
    ensures
        color_after(tinted(c, argb), node, before) == (if part_of(c, node) {
            argb
        } else {
            before
        }),
{
    reveal_with_fuel(color_after, 3);
    let s = tinted(c, argb);
    if s.len() == 2 {
        assert(s.drop_last().last() == s[0]);
        assert(s.drop_last().drop_last().len() == 0);
    }
}

proof fn accent_of(dark: bool, cells: Seq<BarCell>, i: usize, n: int, k: int, node: u64, before: u32)
    requires
        0 <= k < n <= cells.len(),
        part_of(cells[k], node),
        forall|a: int| 0 <= a < cells.len() && a != k ==> !part_of(#[trigger] cells[a], node),
    ensures
        color_after(accent_acts(dark, cells, i, n), node, before) == bar_tint(dark, k == i),
    decreases n,
{
    let s = accent_acts(dark, cells, i, n - 1);
    let more = tinted(cells[n - 1], bar_tint(dark, n - 1 == i));
    last_color(s, more, node, before);
    tinting(cells[n - 1], bar_tint(dark, n - 1 == i), node, color_after(s, node, before));
    if k < n - 1 {
        accent_of(dark, cells, i, n - 1, k, node, before);
    }
}

/// After a destination is selected its entry has the accent, label and icon, and every other
/// entry has the secondary color.
pub proof fn the_accent_follows_the_selection(
    dark: bool,
    v: SuiteView,
    i: usize,
    k: int,
    node: u64,
    before: u32,
)
    requires
        0 <= k < v.cells.len(),
        part_of(v.cells[k], node),
        forall|a: int| 0 <= a < v.cells.len() && a != k ==> !part_of(#[trigger] v.cells[a], node),
    ensures
        color_after(select_acts(dark, v, i), node, before) == bar_tint(dark, k == i),
{
    let n = v.cells.len() as int;
    let shown = shown_acts(v.items, i, v.items.len() as int);
    showing_colors_nothing(v.items, i, v.items.len() as int, node, before);
    last_color(shown, accent_acts(dark, v.cells, i, n), node, before);
    accent_of(dark, v.cells, i, n, k, node, before);
}

impl Suite {
    /// A suite of these nodes, without a page.
    pub fn new(host: u64, pages: u64, bar: u64) -> (s: Suite)
        ensures
            s@ == (SuiteView {
                host,
                pages,
                bar,
                items: Seq::empty(),
                cells: Seq::empty(),
                selected: 0,
                page_size: Size {
                    width: crate::num::Num { bits: 0 },
                    height: crate::num::Num { bits: 0 },
                },
            }),
    {
        Suite {
            host,
            pages,
            bar,
            items: Vec::new(),
            cells: Vec::new(),
            selected: 0,
            page_size: Size {
                width: crate::num::Num { bits: 0 },
                height: crate::num::Num { bits: 0 },
            },
        }
    }

    /// Shows destination `i`, hides the others, and moves the bar's accent to it.
    pub fn select(&mut self, dark: bool, i: usize) -> (out: Vec<ArkAct>)
        ensures
            final(self)@ == (SuiteView { selected: i, ..old(self)@ }),
            acts(out@) == select_acts(dark, old(self)@, i),
    {
        self.selected = i;
        let mut out = no_acts();
        let mut n: usize = 0;
        while n < self.items.len()
            invariant
                n <= self.items.len(),
                acts(out@) == shown_acts(self.items@, i, n as int),
            decreases self.items.len() - n,
        {
            act(&mut out, Act::Visible { node: self.items[n].0, on: n == i });
            n = n + 1;
        }
        let ghost shown = acts(out@);
        let mut m: usize = 0;
        proof {
            assert(shown + Seq::<SpecAct>::empty() =~= shown);
        }
        while m < self.cells.len()
            invariant
                m <= self.cells.len(),
                acts(out@) == shown + accent_acts(dark, self.cells@, i, m as int),
            decreases self.cells.len() - m,
        {
            let ghost before = acts(out@);
            let cell = self.cells[m];
            let argb: u32 = tint_of(dark, m == i);
            act(&mut out, Act::FontColor { node: cell.label, argb });
            match cell.glyph {
                Some(node) => act(&mut out, Act::ImageFill { node, argb }),
                None => {},
            }
            proof {
                assert(acts(out@) =~= before + tinted(cell, argb));
                assert(acts(out@) =~= shown + accent_acts(dark, self.cells@, i, m + 1));
            }
            m = m + 1;
        }
        out
    }

    /// Lays the suite out in `size`, where a page gets `page`.
    pub fn layout(&mut self, size: Size, page: Size) -> (out: Vec<ArkAct>)
        ensures
            final(self)@ == (SuiteView { page_size: page, ..old(self)@ }),
            acts(out@) == layout_acts(old(self)@, size, page),
    {
        self.page_size = page;
        let mut out = no_acts();
        act(
            &mut out,
            Act::Resize {
                node: self.pages,
                width: Length::Given(page.width),
                height: Length::Given(page.height),
            },
        );
        act(
            &mut out,
            Act::Resize {
                node: self.bar,
                width: Length::Given(size.width),
                height: Length::Whole(NAV_BAR_H),
            },
        );
        let ghost frame = acts(out@);
        let mut n: usize = 0;
        proof {
            assert(frame + Seq::<SpecAct>::empty() =~= frame);
        }
        while n < self.items.len()
            invariant
                n <= self.items.len(),
                acts(out@) == frame + sized_acts(self.items@, page, n as int),
            decreases self.items.len() - n,
        {
            act(
                &mut out,
                Act::Resize {
                    node: self.items[n].0,
                    width: Length::Given(page.width),
                    height: Length::Given(page.height),
                },
            );
            proof {
                assert(acts(out@) =~= frame + sized_acts(self.items@, page, n + 1));
            }
            n = n + 1;
        }
        let ghost sized = acts(out@);
        let mut m: usize = 0;
        proof {
            assert(sized + Seq::<SpecAct>::empty() =~= sized);
        }
        while m < self.items.len()
            invariant
                m <= self.items.len(),
                acts(out@) == sized + told_acts(self.items@, page, m as int),
            decreases self.items.len() - m,
        {
            act(
                &mut out,
                Act::Emit {
                    to: Target::Node(self.items[m].1),
                    event: Event::FrameChanged(page),
                },
            );
            proof {
                assert(acts(out@) =~= sized + told_acts(self.items@, page, m + 1));
            }
            m = m + 1;
        }
        proof {
            assert(acts(out@) =~= layout_acts(old(self)@, size, page));
        }
        out
    }

    /// Takes the bar's cells out.
    pub fn clear_bar(&mut self, out: &mut Vec<ArkAct>)
        ensures
            final(self)@ == (SuiteView { cells: Seq::empty(), ..old(self)@ }),
            acts(final(out)@) == acts(old(out)@) + cleared_acts(
                old(self)@.bar,
                old(self)@.cells,
                old(self)@.cells.len() as int,
            ),
    {
        let ghost start = acts(out@);
        let mut n: usize = 0;
        proof {
            assert(start + Seq::<SpecAct>::empty() =~= start);
        }
        while n < self.cells.len()
            invariant
                n <= self.cells.len(),
                self@ == old(self)@,
                acts(out@) == start + cleared_acts(self.bar, self.cells@, n as int),
            decreases self.cells.len() - n,
        {
            act(out, Act::Remove { parent: self.bar, child: self.cells[n].node });
            proof {
                assert(acts(out@) =~= start + cleared_acts(self.bar, self.cells@, n + 1));
            }
            n = n + 1;
        }
        self.cells = Vec::new();
    }

    /// A child came under the host.
    pub fn join(&mut self, child: u64, id: u64, index: usize) -> (out: Vec<ArkAct>)
        ensures
            final(self)@ == joined(old(self)@, child, id, index),
            acts(out@) == joined_acts(old(self)@, child, index),
    {
        let mut out = no_acts();
        act(&mut out, Act::Insert { parent: self.pages, child, index });
        act(
            &mut out,
            Act::Resize {
                node: child,
                width: Length::Given(self.page_size.width),
                height: Length::Given(self.page_size.height),
            },
        );
        if index == 0 {
            act(&mut out, Act::Visible { node: child, on: false });
        } else {
            let first = self.items.len() == 0;
            self.items.push((child, id));
            act(&mut out, Act::Visible { node: child, on: first });
        }
        proof {
            assert(acts(out@) =~= joined_acts(old(self)@, child, index));
        }
        out
    }
}

} // verus!
