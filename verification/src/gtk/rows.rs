//! The rows of a navigation menu, in a list or as the toggles of a suite.
use crate::gtk::act::{act, acts, no_acts, Act, GtkAct, SpecAct};
use crate::gtk::menu::maybe;
use crate::gtk::state::{names, Gtk, GtkView, RowsView, SuiteRows};
use crate::model::{texts, Color, Event, Target};
use crate::pieces::{at, entry_at, MenuRows};
use crate::text::{cat2, decimal, decimal_of, owned, same};
use vstd::prelude::*;

verus! {

// ---- lists -------------------------------------------------------------------------------------

/// Whether a name is among those given.
pub fn listed(v: &Vec<String>, name: &str) -> (b: bool)
    ensures
        b == texts(v@).contains(name@),
{
    let mut i: usize = 0;
    while i < v.len()
        invariant
            i <= v.len(),
            forall|k: int| 0 <= k < i ==> v@[k]@ != name@,
        decreases v.len() - i,
    {
        if same(v[i].as_str(), name) {
            proof {
                assert(texts(v@)[i as int] == name@);
            }
            return true;
        }
        i = i + 1;
    }
    proof {
        if texts(v@).contains(name@) {
            let k = choose|k: int| 0 <= k < texts(v@).len() && texts(v@)[k] == name@;
            assert(v@[k]@ == name@);
        }
    }
    false
}

/// The name a row has at `i`, where a glyph of that name can be drawn.
pub open spec fn glyph_at(v: Seq<Option<String>>, i: int, glyphs: Seq<Seq<char>>) -> Option<
    Seq<char>,
> {
    match at(v, i) {
        Some(s) => if glyphs.contains(s@) {
            Some(s@)
        } else {
            None
        },
        None => None,
    }
}

fn glyph_of(v: &Vec<Option<String>>, i: usize, glyphs: &Vec<String>) -> (r: Option<String>)
    ensures
        maybe(r) == glyph_at(v@, i as int, texts(glyphs@)),
{
    match entry_at(v, i) {
        Some(s) => if listed(glyphs, s.as_str()) {
            Some(owned(s.as_str()))
        } else {
            None
        },
        None => None,
    }
}

/// The color at `i`, where there is one.
pub open spec fn tint_at(v: Seq<Option<Color>>, i: int) -> Option<(u8, u8, u8)> {
    match at(v, i) {
        Some(c) => Some((c.r.cut, c.g.cut, c.b.cut)),
        None => None,
    }
}

fn tint_of(v: &Vec<Option<Color>>, i: usize) -> (r: Option<(u8, u8, u8)>)
    ensures
        r == tint_at(v@, i as int),
{
    match entry_at(v, i) {
        Some(c) => Some((c.r.cut, c.g.cut, c.b.cut)),
        None => None,
    }
}

/// A row's badge; an empty text is none.
pub open spec fn badge_at(v: Seq<Option<String>>, i: int) -> Option<Seq<char>> {
    match at(v, i) {
        Some(s) => if s@.len() == 0 {
            None
        } else {
            Some(s@)
        },
        None => None,
    }
}

fn badge_of(v: &Vec<Option<String>>, i: usize) -> (r: Option<String>)
    ensures
        maybe(r) == badge_at(v@, i as int),
{
    match entry_at(v, i) {
        Some(s) => if s.as_str().unicode_len() == 0 {
            None
        } else {
            Some(owned(s.as_str()))
        },
        None => None,
    }
}

/// Whether a row has a context menu.
pub open spec fn has_menu(r: MenuRows, i: int) -> bool {
    0 <= i < r.menus@.len() && r.menus@[i]@.len() > 0
}

/// Whether one of the first `n` rows has a context menu.
pub open spec fn any_menu(r: MenuRows, n: int) -> bool
    decreases n,
{
    n > 0 && (has_menu(r, n - 1) || any_menu(r, n - 1))
}

/// A row with what stands on it: its context menu and the header of the section it starts.
pub open spec fn row_acts(w: u64, r: MenuRows, i: int, glyphs: Seq<Seq<char>>) -> Seq<SpecAct> {
    let row: Seq<SpecAct> = seq![
        Act::Row {
            w,
            text: r.items@[i]@,
            icon: glyph_at(r.icons@, i, glyphs),
            tint: tint_at(r.tints@, i),
            badge: badge_at(r.badges@, i),
            badge_icon: glyph_at(r.badge_icons@, i, glyphs),
            badge_tint: tint_at(r.badge_tints@, i),
        },
    ];
    let menu: Seq<SpecAct> = if has_menu(r, i) {
        seq![Act::RowMenu { w, row: i as usize }]
    } else {
        Seq::empty()
    };
    let header: Seq<SpecAct> = match at(r.sections@, i) {
        Some(title) => seq![
            Act::RowHeader {
                w,
                row: i as usize,
                title: title@,
                top: if i == 0 {
                    2
                } else {
                    10
                },
            },
        ],
        None => Seq::empty(),
    };
    row + menu + header
}

/// The first `n` rows.
pub open spec fn rows_acts(w: u64, r: MenuRows, glyphs: Seq<Seq<char>>, n: int) -> Seq<SpecAct>
    decreases n,
{
    if n <= 0 {
        Seq::empty()
    } else {
        rows_acts(w, r, glyphs, n - 1) + row_acts(w, r, n - 1, glyphs)
    }
}

/// The context menus of a list's rows are freed, where it has any.
pub open spec fn freed_acts(v: GtkView, w: u64) -> Seq<SpecAct> {
    if v.row_popovers.contains(w) {
        seq![Act::UnparentRows { w }]
    } else {
        Seq::empty()
    }
}

/// The memory after a list was filled.
pub open spec fn list_filled(v: GtkView, w: u64, r: MenuRows) -> GtkView {
    GtkView {
        row_popovers: if any_menu(r, r.items@.len() as int) {
            v.row_popovers.insert(w)
        } else {
            v.row_popovers.remove(w)
        },
        ..v
    }
}

/// The calls that fill a list: the menus of its former rows go before its rows come.
pub open spec fn list_acts(v: GtkView, w: u64, r: MenuRows, glyphs: Seq<Seq<char>>) -> Seq<SpecAct> {
    freed_acts(v, w) + rows_acts(w, r, glyphs, r.items@.len() as int)
}

/// A list whose rows have no context menus remembers none, whatever its rows had before.
pub proof fn a_refilled_list_keeps_no_stale_menus(v: GtkView, w: u64, r: MenuRows)
    requires
        forall|i: int| #[trigger] has_menu(r, i) ==> i >= r.items@.len(),
    ensures
        !list_filled(v, w, r).row_popovers.contains(w),
{
    no_menus(r, r.items@.len() as int);
}

proof fn no_menus(r: MenuRows, n: int)
    requires
        n <= r.items@.len(),
        forall|i: int| #[trigger] has_menu(r, i) ==> i >= r.items@.len(),
    ensures
        !any_menu(r, n),
    decreases n,
{
    if n > 0 {
        no_menus(r, n - 1);
    }
}

fn row_has_menu(r: &MenuRows, i: usize) -> (b: bool)
    ensures
        b == has_menu(*r, i as int),
{
    i < r.menus.len() && r.menus[i].len() > 0
}

fn add_row(out: &mut Vec<GtkAct>, w: u64, r: &MenuRows, i: usize, glyphs: &Vec<String>)
    requires
        i < r.items.len(),
    ensures
        acts(final(out)@) == acts(old(out)@) + row_acts(w, *r, i as int, texts(glyphs@)),
{
    let ghost start = acts(out@);
    let icon = glyph_of(&r.icons, i, glyphs);
    let badge = badge_of(&r.badges, i);
    let badge_icon = glyph_of(&r.badge_icons, i, glyphs);
    act(
        out,
        Act::Row {
            w,
            text: owned(r.items[i].as_str()),
            icon,
            tint: tint_of(&r.tints, i),
            badge,
            badge_icon,
            badge_tint: tint_of(&r.badge_tints, i),
        },
    );
    if row_has_menu(r, i) {
        act(out, Act::RowMenu { w, row: i });
    }
    match entry_at(&r.sections, i) {
        Some(title) => {
            let top: u32 = if i == 0 {
                2
            } else {
                10
            };
            act(out, Act::RowHeader { w, row: i, title: owned(title.as_str()), top });
        },
        None => {},
    }
    proof {
        assert(acts(out@) =~= start + row_acts(w, *r, i as int, texts(glyphs@)));
    }
}

impl Gtk {
    /// Frees the context menus of a list's rows.
    pub fn unparent_nav_popovers(&mut self, out: &mut Vec<GtkAct>, w: u64)
        ensures
            final(self)@ == (GtkView {
                row_popovers: old(self)@.row_popovers.remove(w),
                ..old(self)@
            }),
            acts(final(out)@) == acts(old(out)@) + freed_acts(old(self)@, w),
    {
        let ghost v = self@;
        let ghost start = acts(out@);
        if self.row_popovers.drop(w) {
            act(out, Act::UnparentRows { w });
        }
        proof {
            assert(acts(out@) =~= start + freed_acts(v, w));
            assert(self@ =~= GtkView { row_popovers: v.row_popovers.remove(w), ..v });
        }
    }

    /// Fills a menu's list. `glyphs` are the names that can be drawn.
    pub fn fill_nav_menu(
        &mut self,
        out: &mut Vec<GtkAct>,
        w: u64,
        r: &MenuRows,
        glyphs: &Vec<String>,
    )
        ensures
            final(self)@ == list_filled(old(self)@, w, *r),
            acts(final(out)@) == acts(old(out)@) + list_acts(old(self)@, w, *r, texts(glyphs@)),
    {
        let ghost v = self@;
        let ghost start = acts(out@);
        self.unparent_nav_popovers(out, w);
        let ghost freed = freed_acts(v, w);
        let ghost g = texts(glyphs@);
        let mut any: bool = false;
        let mut i: usize = 0;
        proof {
            assert(freed + rows_acts(w, *r, g, 0) =~= freed);
        }
        while i < r.items.len()
            invariant
                i <= r.items.len(),
                g == texts(glyphs@),
                any == any_menu(*r, i as int),
                acts(out@) == start + (freed + rows_acts(w, *r, g, i as int)),
            decreases r.items.len() - i,
        {
            let ghost before = rows_acts(w, *r, g, i as int);
            add_row(out, w, r, i, glyphs);
            if row_has_menu(r, i) {
                any = true;
            }
            proof {
                assert(start + (freed + before) + row_acts(w, *r, i as int, g) =~= start + (freed
                    + rows_acts(w, *r, g, i + 1)));
            }
            i = i + 1;
        }
        if any {
            self.row_popovers.put(w);
        }
        proof {
            assert(v.row_popovers.remove(w).insert(w) =~= v.row_popovers.insert(w));
            assert(self@ =~= list_filled(v, w, *r));
        }
    }
}

/// A menu's row was selected, or none: the app hears of a row, unless the app selected it.
pub open spec fn selected_acts(id: u64, row: Option<i32>, quiet: bool) -> Seq<SpecAct> {
    match row {
        Some(i) => if quiet {
            Seq::empty()
        } else {
            seq![Act::Emit { to: Target::Node(id), event: Event::SelectionChanged(i as i64) }]
        },
        None => Seq::empty(),
    }
}

pub fn menu_row_selected(id: u64, row: Option<i32>, quiet: bool) -> (out: Vec<GtkAct>)
    ensures
        acts(out@) == selected_acts(id, row, quiet),
{
    match row {
        Some(i) => if quiet {
            no_acts()
        } else {
            crate::gtk::act::emit(Target::Node(id), Event::SelectionChanged(i as i64))
        },
        None => no_acts(),
    }
}

// ---- suites ------------------------------------------------------------------------------------

/// The glyph of a toggle: the name its row has, where it is not empty and can be drawn.
pub open spec fn toggle_glyph(
    icons: Seq<Option<Seq<char>>>,
    i: int,
    glyphs: Seq<Seq<char>>,
) -> Option<Seq<char>> {
    match at(icons, i) {
        Some(s) => if s.len() > 0 && glyphs.contains(s) {
            Some(s)
        } else {
            None
        },
        None => None,
    }
}

/// One toggle: its face, the group of the first one, what it shows, its place.
pub open spec fn toggle_acts(
    rows: RowsView,
    i: int,
    glyphs: Seq<Seq<char>>,
    switcher: u64,
    stack: u64,
    nodes: Seq<u64>,
) -> Seq<SpecAct> {
    let w = nodes[i];
    let face: SpecAct = match toggle_glyph(rows.icons, i, glyphs) {
        Some(name) => Act::ToggleGlyph { w, name, text: rows.titles[i] },
        None => Act::ToggleLabel { w, text: rows.titles[i] },
    };
    let grouped: Seq<SpecAct> = if i > 0 {
        seq![face, Act::Group { w, leader: nodes[0] }]
    } else {
        seq![face]
    };
    grouped.push(Act::Toggle { w, index: i as usize, stack, id: rows.node }).push(
        Act::Append { w: switcher, child: w },
    )
}

/// The first `n` toggles.
pub open spec fn toggles_acts(
    rows: RowsView,
    n: int,
    glyphs: Seq<Seq<char>>,
    switcher: u64,
    stack: u64,
    nodes: Seq<u64>,
) -> Seq<SpecAct>
    decreases n,
{
    if n <= 0 {
        Seq::empty()
    } else {
        toggles_acts(rows, n - 1, glyphs, switcher, stack, nodes) + toggle_acts(
            rows,
            n - 1,
            glyphs,
            switcher,
            stack,
            nodes,
        )
    }
}

/// The calls that fill a suite's switcher: its former toggles go, one comes for each row, and the
/// first is on, without a report.
pub open spec fn switcher_acts(
    rows: RowsView,
    glyphs: Seq<Seq<char>>,
    switcher: u64,
    stack: u64,
    nodes: Seq<u64>,
) -> Seq<SpecAct> {
    let cleared: Seq<SpecAct> = seq![Act::ClearBar { w: switcher }];
    let filled = cleared + toggles_acts(
        rows,
        rows.titles.len() as int,
        glyphs,
        switcher,
        stack,
        nodes,
    );
    if rows.titles.len() > 0 {
        filled.push(Act::QuietActive { w: nodes[0] })
    } else {
        filled
    }
}

fn add_toggle(
    out: &mut Vec<GtkAct>,
    rows: &SuiteRows,
    i: usize,
    glyphs: &Vec<String>,
    switcher: u64,
    stack: u64,
    nodes: &Vec<u64>,
)
    requires
        i < rows.titles.len() <= nodes.len(),
    ensures
        acts(final(out)@) == acts(old(out)@) + toggle_acts(
            rows@,
            i as int,
            texts(glyphs@),
            switcher,
            stack,
            nodes@,
        ),
{
    let ghost start = acts(out@);
    let w = nodes[i];
    let glyph: Option<String> = match entry_at(&rows.icons, i) {
        Some(s) => if s.as_str().unicode_len() > 0 && listed(glyphs, s.as_str()) {
            Some(owned(s.as_str()))
        } else {
            None
        },
        None => None,
    };
    proof {
        assert(maybe(glyph) == toggle_glyph(rows@.icons, i as int, texts(glyphs@)));
    }
    match glyph {
        Some(name) => act(
            out,
            Act::ToggleGlyph { w, name, text: owned(rows.titles[i].as_str()) },
        ),
        None => act(out, Act::ToggleLabel { w, text: owned(rows.titles[i].as_str()) }),
    }
    if i > 0 {
        act(out, Act::Group { w, leader: nodes[0] });
    }
    act(out, Act::Toggle { w, index: i, stack, id: rows.node });
    act(out, Act::Append { w: switcher, child: w });
    proof {
        assert(acts(out@) =~= start + toggle_acts(
            rows@,
            i as int,
            texts(glyphs@),
            switcher,
            stack,
            nodes@,
        ));
    }
}

/// Fills a suite's switcher with one toggle for each row, from the toggles at hand; the toggles it
/// then has.
pub fn fill_suite_switcher(
    out: &mut Vec<GtkAct>,
    rows: &SuiteRows,
    glyphs: &Vec<String>,
    switcher: u64,
    stack: u64,
    nodes: &Vec<u64>,
) -> (toggles: Vec<u64>)
    requires
        rows.titles.len() <= nodes.len(),
    ensures
        toggles@ == nodes@.subrange(0, rows@.titles.len() as int),
        acts(final(out)@) == acts(old(out)@) + switcher_acts(
            rows@,
            texts(glyphs@),
            switcher,
            stack,
            nodes@,
        ),
{
    let ghost start = acts(out@);
    let ghost g = texts(glyphs@);
    act(out, Act::ClearBar { w: switcher });
    let ghost cleared: Seq<SpecAct> = seq![Act::ClearBar { w: switcher }];
    let mut toggles: Vec<u64> = Vec::new();
    let mut i: usize = 0;
    proof {
        assert(acts(out@) =~= start + (cleared + toggles_acts(
            rows@,
            0,
            g,
            switcher,
            stack,
            nodes@,
        )));
    }
    while i < rows.titles.len()
        invariant
            i <= rows.titles.len() <= nodes.len(),
            g == texts(glyphs@),
            toggles@ == nodes@.subrange(0, i as int),
            acts(out@) == start + (cleared + toggles_acts(
                rows@,
                i as int,
                g,
                switcher,
                stack,
                nodes@,
            )),
        decreases rows.titles.len() - i,
    {
        let ghost before = toggles_acts(rows@, i as int, g, switcher, stack, nodes@);
        add_toggle(out, rows, i, glyphs, switcher, stack, nodes);
        toggles.push(nodes[i]);
        proof {
            assert(toggles@ =~= nodes@.subrange(0, i + 1));
            assert(start + (cleared + before) + toggle_acts(
                rows@,
                i as int,
                g,
                switcher,
                stack,
                nodes@,
            ) =~= start + (cleared + toggles_acts(rows@, i + 1, g, switcher, stack, nodes@)));
        }
        i = i + 1;
    }
    if rows.titles.len() > 0 {
        act(out, Act::QuietActive { w: nodes[0] });
    }
    proof {
        assert(acts(out@) =~= start + switcher_acts(rows@, g, switcher, stack, nodes@));
    }
    toggles
}

/// The name of a suite's page.
pub open spec fn page_name(index: int) -> Seq<char> {
    "p"@ + decimal(index as nat)
}

pub fn name_of_page(index: usize) -> (s: String)
    ensures
        s@ == page_name(index as int),
{
    let n = decimal_of(index as u64);
    cat2("p", n.as_str())
}

/// What a toggle does when it is switched: one that comes on shows its page, and is reported
/// unless the app switched it.
pub open spec fn toggled_acts(stack: u64, index: int, node: u64, active: bool, quiet: bool) -> Seq<
    SpecAct,
> {
    if !active {
        Seq::empty()
    } else {
        let shown: Seq<SpecAct> = seq![Act::ShowNamed { w: stack, name: page_name(index + 1) }];
        if quiet {
            shown
        } else {
            shown.push(
                Act::Emit { to: Target::Node(node), event: Event::SelectionChanged(index as i64) },
            )
        }
    }
}

/// A suite's toggle was switched; `quiet` is whether the app did it.
pub fn toggle_switched(stack: u64, index: usize, node: u64, active: bool, quiet: bool) -> (out: Vec<
    GtkAct,
>)
    requires
        index < usize::MAX,
        index <= i64::MAX,
    ensures
        acts(out@) == toggled_acts(stack, index as int, node, active, quiet),
{
    let mut out = no_acts();
    if active {
        act(&mut out, Act::ShowNamed { w: stack, name: name_of_page(index + 1) });
        if !quiet {
            act(
                &mut out,
                Act::Emit { to: Target::Node(node), event: Event::SelectionChanged(index as i64) },
            );
        }
    }
    proof {
        assert(acts(out@) =~= toggled_acts(stack, index as int, node, active, quiet));
    }
    out
}

/// A toggle that the app switches tells the app nothing.
pub proof fn a_quiet_toggle_is_not_reported(stack: u64, index: int, node: u64, active: bool, i: int)
    requires
        0 <= i < toggled_acts(stack, index, node, active, true).len(),
    ensures
        !(toggled_acts(stack, index, node, active, true)[i] is Emit),
{
}

} // verus!
