//! What the app changes itself is never reported back to it as the user's doing: the calls for a
//! change tell nothing, nor does the work they leave for later, and a widget that reports a change
//! under way that is the app's own is not heard.
use crate::gtk::act::{Extent, SpecAct};
use crate::gtk::css::tints_off;
use crate::gtk::nav::{
    bar_width, inspector_acts, inspector_shown_acts, pages_acts, panel_acts, panes_acts,
    popped_acts, report_acts,
};
use crate::gtk::rows::{row_acts, rows_acts, selected_acts, toggled_acts};
use crate::gtk::state::{GtkView, InspectorView, NavView};
use crate::gtk::tree::{disclosed, disclosed_acts, selection_told, Row, TreeView};
use crate::gtk::update::{tree_acts, update_acts, Around};
use crate::model::texts;
use crate::num::Num;
use crate::pieces::{CoverPatch, MenuRows, NavMenuPatch, Patch, TreePatch};
use vstd::prelude::*;

verus! {

/// Whether none of the calls emits an event.
pub open spec fn silent(s: Seq<SpecAct>) -> bool {
    forall|i: int| 0 <= i < s.len() ==> !((#[trigger] s[i]) is Emit)
}

proof fn rows_are_silent(w: u64, r: MenuRows, glyphs: Seq<Seq<char>>, n: int)
    ensures
        silent(rows_acts(w, r, glyphs, n)),
    decreases n,
{
    if n > 0 {
        rows_are_silent(w, r, glyphs, n - 1);
        assert(silent(row_acts(w, r, n - 1, glyphs)));
    }
}

proof fn clearing_tints_is_silent(w: u64, classes: Seq<Seq<char>>, n: int)
    ensures
        silent(tints_off(w, classes, n)),
    decreases n,
{
    if n > 0 {
        clearing_tints_is_silent(w, classes, n - 1);
    }
}

proof fn pages_are_silent(nav: NavView, width: i32, height: i32, bar: Extent, n: int)
    ensures
        silent(pages_acts(nav, width, height, bar, n)),
    decreases n,
{
    if n > 0 {
        pages_are_silent(nav, width, height, bar, n - 1);
    }
}

proof fn panes_are_silent(ins: InspectorView, width: i32, height: i32, shown: bool, n: int)
    ensures
        silent(panes_acts(ins, width, height, shown, n)),
    decreases n,
{
    if n > 0 {
        panes_are_silent(ins, width, height, shown, n - 1);
    }
}

/// No change that the app makes to a widget is told to the app, but for a cover's answer that it
/// is hidden, which is what dismissing one asks for.
pub proof fn the_apps_changes_tell_nothing(v: GtkView, w: u64, patch: Patch, a: Around)
    requires
        !(patch matches Patch::Cover(CoverPatch::Dismiss)),
    ensures
        silent(update_acts(v, w, patch, a)),
{
    match patch {
        Patch::NavMenu(NavMenuPatch::Items { rows, .. }) => {
            let n = rows.items@.len() as int;
            rows_are_silent(v.menus[w].listbox, rows, texts(a.glyphs@), n);
        },
        Patch::Button(_) => {
            clearing_tints_is_silent(w, texts(a.classes@), a.classes@.len() as int);
        },
        _ => {},
    }
}

/// Nor is a change that the app makes to a tree or an inspector.
pub proof fn trees_and_inspectors_tell_nothing(
    v: GtkView,
    w: u64,
    patch: TreePatch,
    visible: bool,
)
    ensures
        silent(tree_acts(v, w, patch)),
        silent(panel_acts(v, w, visible)),
{
}

/// The work that such a change leaves for later tells pages and panes their room, and nothing
/// else.
pub proof fn later_work_tells_only_room(
    v: GtkView,
    host: u64,
    width: i32,
    height: i32,
    shown: bool,
    position: i32,
    standard: Num,
)
    ensures
        silent(report_acts(v, host, width, height, shown, position, standard)),
        silent(inspector_acts(v, host, width, height, shown)),
{
    if v.navs.contains_key(host) {
        let nav = v.navs[host];
        pages_are_silent(
            nav,
            width,
            height,
            bar_width(nav.present, shown, position, standard),
            nav.pages.len() as int,
        );
    }
    if v.inspectors.contains_key(host) {
        let ins = v.inspectors[host];
        panes_are_silent(ins, width, height, shown, ins.panes.len() as int);
    }
}

/// What a widget reports of a change: a row selected in a menu, a toggle of a suite switched, a
/// page popped, an inspector's panel shown or hidden, a tree's row opened or closed.
pub ghost enum Report {
    Row { id: u64, row: Option<i32> },
    Toggle { stack: u64, index: int, node: u64, active: bool },
    Popped { id: u64 },
    Panel { host: u64, id: u64, shows: bool },
    Opened { tree: TreeView, text: Seq<char>, expanded: bool },
}

/// The calls that a report leads to; `quiet` is whether the change under way is the app's own.
pub open spec fn heard(r: Report, quiet: bool) -> Seq<SpecAct> {
    match r {
        Report::Row { id, row } => selected_acts(id, row, quiet),
        Report::Toggle { stack, index, node, active } => toggled_acts(
            stack,
            index,
            node,
            active,
            quiet,
        ),
        Report::Popped { id } => popped_acts(id, quiet),
        Report::Panel { host, id, shows } => inspector_shown_acts(host, id, shows, quiet),
        Report::Opened { tree, text, expanded } => disclosed_acts(tree, text, expanded, quiet),
    }
}

/// While a change of the app's own is under way nothing that a widget reports of it is told to
/// the app, and a tree records nothing of it; the same report of the user's doing is told.
pub proof fn quiet_reports_tell_nothing(
    r: Report,
    tree: TreeView,
    text: Seq<char>,
    expanded: bool,
    rows: Seq<Row>,
)
    ensures
        silent(heard(r, true)),
        disclosed(tree, text, expanded, true) == tree,
        selection_told(rows, true) is None,
        r is Popped || r is Panel ==> !silent(heard(r, false)),
        selection_told(rows, false) is Some,
{
    match r {
        Report::Popped { .. } | Report::Panel { .. } => {
            assert(heard(r, false)[0] is Emit);
        },
        _ => {},
    }
}

} // verus!
