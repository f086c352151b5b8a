//! Navigation hosts and inspectors: the pages and panes they hold, and the room these have.
use crate::gtk::act::{act, act_all, acts, no_acts, one_act, Act, Extent, GtkAct, Later, SpecAct};
use crate::gtk::rows::{fill_suite_switcher, name_of_page, page_name, switcher_acts};
use crate::gtk::state::{
    Gtk, GtkView, Inspector, InspectorView, NavPage, NavView, Pane, Present, RowsView,
};
use crate::model::{texts, NavPatch, SpecEvent, Target};
use crate::num::Num;
use crate::table::{entry, found_or, look_up};
use crate::text::owned;
use vstd::prelude::*;

verus! {

// ---- room --------------------------------------------------------------------------------------

/// What a sidebar leaves of a host's width.
pub open spec fn beside(width: i32, bar: Extent) -> Extent {
    match bar {
        Extent::Px(p) => Extent::Px(
            if width - p > 0 {
                (width - p) as i32
            } else {
                0
            },
        ),
        Extent::Given(n) => Extent::Rest(width, n),
        Extent::Rest(_, _) => bar,
    }
}

fn rest_of(width: i32, bar: Extent) -> (e: Extent)
    requires
        bar matches Extent::Px(p) ==> p >= 0,
        width >= 0,
    ensures
        e == beside(width, bar),
{
    match bar {
        Extent::Px(p) => Extent::Px(
            if width > p {
                width - p
            } else {
                0
            },
        ),
        Extent::Given(n) => Extent::Rest(width, n),
        Extent::Rest(_, _) => bar,
    }
}

/// The width of a host's sidebar: pinned and hidden at will, or where its divider stands, or none.
/// `standard` is the width a sidebar has by itself.
pub open spec fn bar_width(present: Present, shown: bool, position: i32, standard: Num) -> Extent {
    match present {
        Present::Split => if shown {
            Extent::Given(standard)
        } else {
            Extent::Px(0)
        },
        Present::Paned => if position > 0 {
            Extent::Px(position)
        } else {
            Extent::Given(standard)
        },
        Present::Stack | Present::Suite { .. } => Extent::Px(0),
    }
}

/// The room of the first `n` pages: a sidebar has its width and the others what it leaves; without
/// a sidebar every page fills the host.
pub open spec fn pages_acts(nav: NavView, width: i32, height: i32, bar: Extent, n: int) -> Seq<
    SpecAct,
>
    decreases n,
{
    if n <= 0 {
        Seq::empty()
    } else {
        pages_acts(nav, width, height, bar, n - 1).push(
            Act::Framed {
                to: Target::Node(nav.pages[n - 1].id),
                width: if !nav.split {
                    Extent::Px(width)
                } else if n == 1 {
                    bar
                } else {
                    beside(width, bar)
                },
                height,
            },
        )
    }
}

/// What a host reports of its pages, once it has a size.
pub open spec fn report_acts(
    v: GtkView,
    host: u64,
    width: i32,
    height: i32,
    shown: bool,
    position: i32,
    standard: Num,
) -> Seq<SpecAct> {
    match entry(v.navs, host) {
        Some(nav) => if width <= 0 || height <= 0 {
            Seq::empty()
        } else {
            pages_acts(
                nav,
                width,
                height,
                bar_width(nav.present, shown, position, standard),
                nav.pages.len() as int,
            )
        },
        None => Seq::empty(),
    }
}

/// The pages beside a hidden sidebar have the whole width of their host.
pub proof fn a_hidden_sidebar_leaves_the_whole_width(nav: NavView, width: i32, standard: Num)
    requires
        width > 0,
    ensures
        beside(width, bar_width(Present::Split, false, 0, standard)) == Extent::Px(width),
{
}

/// Every page is told its room, in order.
pub proof fn every_page_is_told(nav: NavView, width: i32, height: i32, bar: Extent, n: int)
    requires
        0 <= n,
    ensures
        pages_acts(nav, width, height, bar, n).len() == n,
        forall|i: int|
            0 <= i < n ==> ((#[trigger] pages_acts(nav, width, height, bar, n)[i]) matches Act::Framed {
                to,
                ..
            } && to == Target::Node(nav.pages[i].id)),
    decreases n,
{
    if n > 0 {
        every_page_is_told(nav, width, height, bar, n - 1);
    }
}

impl Gtk {
    /// Reports the room of a host's pages. `width` and `height` are the host's size, `shown` is
    /// whether its sidebar shows, `position` is where its divider stands.
    pub fn nav_report(
        &self,
        host: u64,
        width: i32,
        height: i32,
        shown: bool,
        position: i32,
        standard: Num,
    ) -> (out: Vec<GtkAct>)
        ensures
            acts(out@) == report_acts(self@, host, width, height, shown, position, standard),
    {
        let mut out = no_acts();
        let nav = match self.navs.get(host) {
            Some(nav) => nav,
            None => {
                return out;
            },
        };
        if width <= 0 || height <= 0 {
            return out;
        }
        let bar: Extent = match nav.present {
            Present::Split => if shown {
                Extent::Given(standard)
            } else {
                Extent::Px(0)
            },
            Present::Paned => if position > 0 {
                Extent::Px(position)
            } else {
                Extent::Given(standard)
            },
            Present::Stack | Present::Suite { .. } => Extent::Px(0),
        };
        let mut i: usize = 0;
        while i < nav.pages.len()
            invariant
                i <= nav.pages.len(),
                width >= 0,
                bar matches Extent::Px(p) ==> p >= 0,
                acts(out@) == pages_acts(nav@, width, height, bar, i as int),
            decreases nav.pages.len() - i,
        {
            let room: Extent = if !nav.split {
                Extent::Px(width)
            } else if i == 0 {
                bar
            } else {
                rest_of(width, bar)
            };
            act(
                &mut out,
                Act::Framed { to: Target::Node(nav.pages[i].id), width: room, height },
            );
            i = i + 1;
        }
        out
    }
}

/// The room of the first `n` panes: the panel has its pinned width, shown or not; the others what
/// it leaves while it shows.
pub open spec fn panes_acts(ins: InspectorView, width: i32, height: i32, shown: bool, n: int) -> Seq<
    SpecAct,
>
    decreases n,
{
    if n <= 0 {
        Seq::empty()
    } else {
        panes_acts(ins, width, height, shown, n - 1).push(
            Act::Framed {
                to: Target::Node(ins.panes[n - 1].id),
                width: if ins.panes[n - 1].panel {
                    Extent::Given(ins.width)
                } else if shown {
                    Extent::Rest(width, ins.width)
                } else {
                    Extent::Px(width)
                },
                height,
            },
        )
    }
}

/// What an inspector reports of its panes, once it has a size.
pub open spec fn inspector_acts(v: GtkView, host: u64, width: i32, height: i32, shown: bool) -> Seq<
    SpecAct,
> {
    match entry(v.inspectors, host) {
        Some(ins) => if width <= 0 || height <= 0 {
            Seq::empty()
        } else {
            panes_acts(ins, width, height, shown, ins.panes.len() as int)
        },
        None => Seq::empty(),
    }
}

/// A panel has the same room whether it shows or not.
pub proof fn revealing_a_panel_keeps_its_room(
    ins: InspectorView,
    width: i32,
    height: i32,
    n: int,
    i: int,
)
    requires
        0 <= i < n,
        ins.panes[i].panel,
    ensures
        panes_acts(ins, width, height, true, n).len() == n,
        panes_acts(ins, width, height, false, n).len() == n,
        panes_acts(ins, width, height, true, n)[i] == panes_acts(ins, width, height, false, n)[i],
    decreases n,
{
    panes_len(ins, width, height, true, n);
    panes_len(ins, width, height, false, n);
    if i < n - 1 {
        revealing_a_panel_keeps_its_room(ins, width, height, n - 1, i);
    } else {
        panes_len(ins, width, height, true, n - 1);
        panes_len(ins, width, height, false, n - 1);
    }
}

proof fn panes_len(ins: InspectorView, width: i32, height: i32, shown: bool, n: int)
    requires
        0 <= n,
    ensures
        panes_acts(ins, width, height, shown, n).len() == n,
    decreases n,
{
    if n > 0 {
        panes_len(ins, width, height, shown, n - 1);
    }
}

impl Gtk {
    /// Reports the room of an inspector's panes.
    pub fn inspector_report(&self, host: u64, width: i32, height: i32, shown: bool) -> (out: Vec<
        GtkAct,
    >)
        ensures
            acts(out@) == inspector_acts(self@, host, width, height, shown),
    {
        let mut out = no_acts();
        let ins = match self.inspectors.get(host) {
            Some(ins) => ins,
            None => {
                return out;
            },
        };
        if width <= 0 || height <= 0 {
            return out;
        }
        let mut i: usize = 0;
        while i < ins.panes.len()
            invariant
                i <= ins.panes.len(),
                acts(out@) == panes_acts(ins@, width, height, shown, i as int),
            decreases ins.panes.len() - i,
        {
            let room: Extent = if ins.panes[i].panel {
                Extent::Given(ins.width)
            } else if shown {
                Extent::Rest(width, ins.width)
            } else {
                Extent::Px(width)
            };
            act(
                &mut out,
                Act::Framed { to: Target::Node(ins.panes[i].id), width: room, height },
            );
            i = i + 1;
        }
        out
    }
}

// ---- the sidebar -------------------------------------------------------------------------------

/// Whether a host has a sidebar to show and hide. `started` is whether its divider has anything in
/// front of it.
pub open spec fn has_sidebar(v: GtkView, host: u64, started: bool) -> bool {
    match entry(v.navs, host) {
        Some(nav) => match nav.present {
            Present::Split => true,
            Present::Paned => started,
            Present::Stack | Present::Suite { .. } => false,
        },
        None => false,
    }
}

impl Gtk {
    /// Shows a host's sidebar where it is hidden and hides it where it shows; whether it has one.
    pub fn toggle_sidebar(&self, host: u64, started: bool) -> (r: (bool, Vec<GtkAct>))
        ensures
            r.0 == has_sidebar(self@, host, started),
            acts(r.1@) == (if !has_sidebar(self@, host, started) {
                Seq::<SpecAct>::empty()
            } else if self@.navs[host].present == Present::Split {
                seq![Act::FlipSidebar { w: host }]
            } else {
                seq![Act::FlipStart { w: host }]
            }),
    {
        match self.navs.get(host) {
            Some(nav) => match nav.present {
                Present::Split => (true, one_act(Act::FlipSidebar { w: host })),
                Present::Paned => if started {
                    (true, one_act(Act::FlipStart { w: host }))
                } else {
                    (false, no_acts())
                },
                Present::Stack | Present::Suite { .. } => (false, no_acts()),
            },
            None => (false, no_acts()),
        }
    }
}

// ---- pages that come ---------------------------------------------------------------------------

/// A page's title: its own, unless it is empty.
pub open spec fn title_of(v: GtkView, child: u64) -> Seq<char> {
    match entry(v.page_titles, child) {
        Some(t) => if t.len() == 0 {
            "Day"@
        } else {
            t
        },
        None => "Day"@,
    }
}

/// The record of a child that comes into a host.
pub open spec fn page_record(v: GtkView, child: u64, page: u64) -> NavPage {
    NavPage { child, id: look_up(v.page_ids, child, 0), page }
}

/// The memory after a child came into a navigation host.
pub open spec fn page_added(v: GtkView, host: u64, child: u64, page: u64) -> GtkView {
    GtkView {
        navs: v.navs.insert(
            host,
            NavView { pages: v.navs[host].pages.push(page_record(v, child, page)), ..v.navs[host] },
        ),
        ..v
    }
}

/// The calls that put a page where its host shows it.
pub open spec fn placed_acts(nav: NavView, host: u64, page: u64, index: int) -> Seq<SpecAct> {
    let first = nav.split && index == 0;
    match nav.present {
        Present::Split => if first {
            seq![Act::Sidebar { w: host, page: Some(page) }]
        } else {
            seq![Act::Content { w: host, page: Some(page) }]
        },
        Present::Paned => if first {
            seq![
                Act::AddClass { w: page, class: "sidebar-pane"@ },
                Act::PanedStart { w: host, page },
            ]
        } else {
            seq![Act::PanedEnd { w: host, page: Some(page) }]
        },
        Present::Stack => seq![Act::NavPush { w: host, page }],
        Present::Suite { stack, .. } => if index == 0 {
            seq![
                Act::StackAdd { w: stack, page, name: page_name(index) },
                Act::Visible { w: page, on: false },
            ]
        } else {
            seq![
                Act::StackAdd { w: stack, page, name: page_name(index) },
                Act::StackShowFirst { w: stack, page },
            ]
        },
    }
}

/// The calls for a child that comes into a navigation host: it gets a page, the page its place, and
/// the pages are reported once they have been laid out.
pub open spec fn page_added_acts(v: GtkView, host: u64, child: u64, page: u64, index: int) -> Seq<
    SpecAct,
> {
    let nav = v.navs[host];
    let loose = nav.present == Present::Split && !(nav.split && index == 0);
    let made: Seq<SpecAct> = seq![Act::NewPage { page, child, title: title_of(v, child), loose }];
    (made + placed_acts(nav, host, page, index)).push(Act::Later { work: Later::NavReport(host) })
}

fn place_page(
    out: &mut Vec<GtkAct>,
    present: Present,
    split: bool,
    host: u64,
    page: u64,
    index: usize,
    nav: Ghost<NavView>,
)
    requires
        nav@.present == present,
        nav@.split == split,
    ensures
        acts(final(out)@) == acts(old(out)@) + placed_acts(nav@, host, page, index as int),
{
    let ghost start = acts(out@);
    let first = split && index == 0;
    match present {
        Present::Split => if first {
            act(out, Act::Sidebar { w: host, page: Some(page) });
        } else {
            act(out, Act::Content { w: host, page: Some(page) });
        },
        Present::Paned => if first {
            act(out, Act::AddClass { w: page, class: owned("sidebar-pane") });
            act(out, Act::PanedStart { w: host, page });
        } else {
            act(out, Act::PanedEnd { w: host, page: Some(page) });
        },
        Present::Stack => act(out, Act::NavPush { w: host, page }),
        Present::Suite { stack, .. } => {
            act(out, Act::StackAdd { w: stack, page, name: name_of_page(index) });
            if index == 0 {
                act(out, Act::Visible { w: page, on: false });
            } else {
                act(out, Act::StackShowFirst { w: stack, page });
            }
        },
    }
    proof {
        assert(acts(out@) =~= start + placed_acts(nav@, host, page, index as int));
    }
}

impl Gtk {
    fn title_for(&self, child: u64) -> (t: String)
        ensures
            t@ == title_of(self@, child),
    {
        match self.page_titles.get(child) {
            Some(t) => if t.as_str().unicode_len() == 0 {
                owned("Day")
            } else {
                owned(t.as_str())
            },
            None => owned("Day"),
        }
    }

    fn add_page(&mut self, host: u64, child: u64, page: u64, index: usize) -> (out: Vec<GtkAct>)
        requires
            old(self)@.navs.contains_key(host),
        ensures
            final(self)@ == page_added(old(self)@, host, child, page),
            acts(out@) == page_added_acts(old(self)@, host, child, page, index as int),
    {
        let ghost v = self@;
        let mut out = no_acts();
        let id = found_or(&self.page_ids, child, 0);
        let title = self.title_for(child);
        match self.navs.take(host) {
            Some(mut nav) => {
                let ghost before = nav@;
                let first = nav.split && index == 0;
                let loose = match nav.present {
                    Present::Split => !first,
                    _ => false,
                };
                act(&mut out, Act::NewPage { page, child, title, loose });
                let ghost made = acts(out@);
                place_page(
                    &mut out,
                    nav.present,
                    nav.split,
                    host,
                    page,
                    index,
                    Ghost(before),
                );
                nav.pages.push(NavPage { child, id, page });
                proof {
                    assert(nav@ =~= NavView {
                        pages: before.pages.push(page_record(v, child, page)),
                        ..before
                    });
                }
                self.navs.put(host, nav);
                act(&mut out, Act::Later { work: Later::NavReport(host) });
                proof {
                    assert(made =~= seq![
                        Act::<Seq<char>, SpecEvent>::NewPage {
                            page,
                            child,
                            title: title_of(v, child),
                            loose,
                        },
                    ]);
                    assert(self@ =~= page_added(v, host, child, page));
                    assert(acts(out@) =~= page_added_acts(v, host, child, page, index as int));
                }
            },
            None => {},
        }
        out
    }
}

/// The pane that a child is, as its host takes it: a child of no known pane goes by its place.
pub open spec fn pane_of(v: GtkView, child: u64, otherwise: bool) -> Pane {
    match entry(v.panes, child) {
        Some(p) => p,
        None => Pane { id: 0, panel: otherwise },
    }
}

/// The memory after a child came into an inspector.
pub open spec fn pane_added(v: GtkView, host: u64, child: u64, index: int) -> GtkView {
    GtkView {
        inspectors: v.inspectors.insert(
            host,
            InspectorView {
                panes: v.inspectors[host].panes.push(pane_of(v, child, index == 1)),
                ..v.inspectors[host]
            },
        ),
        ..v
    }
}

/// The calls for a child that comes into an inspector.
pub open spec fn pane_added_acts(v: GtkView, host: u64, child: u64, page: u64, index: int) -> Seq<
    SpecAct,
> {
    seq![
        Act::NewPage { page, child, title: "Day"@, loose: true },
        if pane_of(v, child, index == 1).panel {
            Act::Sidebar { w: host, page: Some(page) }
        } else {
            Act::Content { w: host, page: Some(page) }
        },
        Act::Later { work: Later::InspectorReport(host) },
    ]
}

impl Gtk {
    fn pane_for(&self, child: u64, otherwise: bool) -> (p: Pane)
        ensures
            p == pane_of(self@, child, otherwise),
    {
        match self.panes.get(child) {
            Some(p) => *p,
            None => Pane { id: 0, panel: otherwise },
        }
    }

    fn add_pane(&mut self, host: u64, child: u64, page: u64, index: usize) -> (out: Vec<GtkAct>)
        requires
            old(self)@.inspectors.contains_key(host),
        ensures
            final(self)@ == pane_added(old(self)@, host, child, index as int),
            acts(out@) == pane_added_acts(old(self)@, host, child, page, index as int),
    {
        let ghost v = self@;
        let mut out = no_acts();
        let pane = self.pane_for(child, index == 1);
        match self.inspectors.take(host) {
            Some(mut ins) => {
                let ghost before = ins@;
                act(&mut out, Act::NewPage { page, child, title: owned("Day"), loose: true });
                if pane.panel {
                    act(&mut out, Act::Sidebar { w: host, page: Some(page) });
                } else {
                    act(&mut out, Act::Content { w: host, page: Some(page) });
                }
                ins.panes.push(pane);
                proof {
                    assert(ins@ =~= InspectorView { panes: before.panes.push(pane), ..before });
                }
                self.inspectors.put(host, ins);
                act(&mut out, Act::Later { work: Later::InspectorReport(host) });
                proof {
                    assert(self@ =~= pane_added(v, host, child, index as int));
                    assert(acts(out@) =~= pane_added_acts(v, host, child, page, index as int));
                }
            },
            None => {},
        }
        out
    }
}

// ---- rows that become toggles ------------------------------------------------------------------

/// The first suite among the widgets from `n` on.
pub open spec fn suite_above(v: GtkView, above: Seq<u64>, n: int) -> Option<u64>
    decreases above.len() - n,
{
    if n < 0 || n >= above.len() {
        None
    } else if v.navs.contains_key(above[n]) && v.navs[above[n]].present is Suite {
        Some(above[n])
    } else {
        suite_above(v, above, n + 1)
    }
}

/// The suite that takes over a menu's rows, with the rows.
pub open spec fn taken_over(v: GtkView, child: u64, above: Seq<u64>) -> Option<(u64, RowsView)> {
    match entry(v.menu_rows, child) {
        Some(rows) => match suite_above(v, above, 0) {
            Some(host) => Some((host, rows)),
            None => None,
        },
        None => None,
    }
}

/// The stack and the switcher of a suite.
pub open spec fn suite_parts(p: Present) -> (u64, u64) {
    match p {
        Present::Suite { stack, switcher } => (stack, switcher),
        _ => (0, 0),
    }
}

/// The memory after a menu came below the widgets `above`.
pub open spec fn switched(v: GtkView, child: u64, above: Seq<u64>, toggles: Seq<u64>) -> GtkView {
    match taken_over(v, child, above) {
        Some((host, rows)) => GtkView {
            navs: v.navs.insert(
                host,
                NavView {
                    toggles: toggles.subrange(0, rows.titles.len() as int),
                    ..v.navs[host]
                },
            ),
            ..v
        },
        None => v,
    }
}

/// The calls for a menu that came below the widgets `above`.
pub open spec fn switched_acts(
    v: GtkView,
    child: u64,
    above: Seq<u64>,
    toggles: Seq<u64>,
    glyphs: Seq<Seq<char>>,
) -> Seq<SpecAct> {
    match taken_over(v, child, above) {
        Some((host, rows)) => {
            let parts = suite_parts(v.navs[host].present);
            switcher_acts(rows, glyphs, parts.1, parts.0, toggles)
        },
        None => Seq::empty(),
    }
}

/// How many toggles a child takes that comes below the widgets `above`.
pub open spec fn toggles_for(v: GtkView, child: u64, above: Seq<u64>) -> nat {
    match taken_over(v, child, above) {
        Some((_, rows)) => rows.titles.len(),
        None => 0,
    }
}

/// A menu without a suite above it keeps its rows as a list.
pub proof fn rows_stay_a_list_without_a_suite(
    v: GtkView,
    child: u64,
    above: Seq<u64>,
    toggles: Seq<u64>,
    glyphs: Seq<Seq<char>>,
)
    requires
        suite_above(v, above, 0) is None,
    ensures
        switched(v, child, above, toggles) == v,
        switched_acts(v, child, above, toggles, glyphs) == Seq::<SpecAct>::empty(),
        toggles_for(v, child, above) == 0,
{
}

impl Gtk {
    fn find_suite(&self, above: &Vec<u64>) -> (r: Option<u64>)
        ensures
            r == suite_above(self@, above@, 0),
    {
        let mut i: usize = 0;
        while i < above.len()
            invariant
                i <= above.len(),
                suite_above(self@, above@, 0) == suite_above(self@, above@, i as int),
            decreases above.len() - i,
        {
            match self.navs.get(above[i]) {
                Some(nav) => match nav.present {
                    Present::Suite { .. } => {
                        return Some(above[i]);
                    },
                    _ => {},
                },
                None => {},
            }
            i = i + 1;
        }
        None
    }

    /// How many toggles to make for a child that is put below the widgets `above`, the nearest
    /// first.
    pub fn toggles_wanted(&self, child: u64, above: &Vec<u64>) -> (n: usize)
        ensures
            n == toggles_for(self@, child, above@),
    {
        match self.menu_rows.get(child) {
            Some(rows) => match self.find_suite(above) {
                Some(_) => rows.titles.len(),
                None => 0,
            },
            None => 0,
        }
    }

    fn switch_over(
        &mut self,
        child: u64,
        above: &Vec<u64>,
        toggles: &Vec<u64>,
        glyphs: &Vec<String>,
    ) -> (out: Vec<GtkAct>)
        requires
            toggles_for(old(self)@, child, above@) <= toggles@.len(),
        ensures
            final(self)@ == switched(old(self)@, child, above@, toggles@),
            acts(out@) == switched_acts(
                old(self)@,
                child,
                above@,
                toggles@,
                texts(glyphs@),
            ),
    {
        let ghost v = self@;
        let mut out = no_acts();
        let host = match self.find_suite(above) {
            Some(host) => host,
            None => {
                return out;
            },
        };
        proof {
            suite_is_one(v, above@, 0);
        }
        match self.menu_rows.get(child) {
            Some(rows) => {
                match self.navs.take(host) {
                    Some(mut nav) => {
                        let ghost before = nav@;
                        match nav.present {
                            Present::Suite { stack, switcher } => {
                                nav.toggles = fill_suite_switcher(
                                    &mut out,
                                    rows,
                                    glyphs,
                                    switcher,
                                    stack,
                                    toggles,
                                );
                                proof {
                                    assert(nav@ =~= NavView {
                                        toggles: toggles@.subrange(
                                            0,
                                            rows@.titles.len() as int,
                                        ),
                                        ..before
                                    });
                                }
                            },
                            _ => {},
                        }
                        self.navs.put(host, nav);
                        proof {
                            assert(self@ =~= switched(v, child, above@, toggles@));
                            assert(acts(out@) =~= switched_acts(
                                v,
                                child,
                                above@,
                                toggles@,
                                texts(glyphs@),
                            ));
                        }
                    },
                    None => {},
                }
            },
            None => {},
        }
        out
    }
}

proof fn suite_is_one(v: GtkView, above: Seq<u64>, n: int)
    ensures
        suite_above(v, above, n) matches Some(host) ==> v.navs.contains_key(host)
            && v.navs[host].present is Suite,
    decreases above.len() - n,
{
    if 0 <= n < above.len() {
        suite_is_one(v, above, n + 1);
    }
}

// ---- children that come and go -----------------------------------------------------------------

/// Whether a child of this widget is wrapped in a page.
pub open spec fn wraps(v: GtkView, parent: u64) -> bool {
    v.navs.contains_key(parent) || v.inspectors.contains_key(parent)
}

/// The memory after a child was put into its parent.
pub open spec fn put_in(v: GtkView, parent: u64, child: u64, page: u64, index: int) -> GtkView {
    if v.navs.contains_key(parent) {
        page_added(v, parent, child, page)
    } else if v.inspectors.contains_key(parent) {
        pane_added(v, parent, child, index)
    } else {
        v
    }
}

/// The calls that put a child into its parent; `fixed` is the container that holds the parent's
/// children, where there is one.
pub open spec fn put_in_acts(
    v: GtkView,
    parent: u64,
    child: u64,
    page: u64,
    index: int,
    fixed: Option<u64>,
) -> Seq<SpecAct> {
    if v.navs.contains_key(parent) {
        page_added_acts(v, parent, child, page, index)
    } else if v.inspectors.contains_key(parent) {
        pane_added_acts(v, parent, child, page, index)
    } else {
        match fixed {
            Some(w) => seq![Act::Put { w, child }],
            None => Seq::empty(),
        }
    }
}

/// The place of a child among a host's pages from `n` on.
pub open spec fn page_place(pages: Seq<NavPage>, child: u64, n: int) -> Option<int>
    decreases pages.len() - n,
{
    if n < 0 || n >= pages.len() {
        None
    } else if pages[n].child == child {
        Some(n)
    } else {
        page_place(pages, child, n + 1)
    }
}

/// The panes without those of an app node.
pub open spec fn panes_without(panes: Seq<Pane>, id: u64, n: int) -> Seq<Pane>
    decreases n,
{
    if n <= 0 {
        Seq::empty()
    } else if panes[n - 1].id == id {
        panes_without(panes, id, n - 1)
    } else {
        panes_without(panes, id, n - 1).push(panes[n - 1])
    }
}

/// The memory after a child was taken out of its parent.
pub open spec fn taken_out(v: GtkView, parent: u64, child: u64) -> GtkView {
    if v.navs.contains_key(parent) {
        match page_place(v.navs[parent].pages, child, 0) {
            Some(i) => GtkView {
                navs: v.navs.insert(
                    parent,
                    NavView { pages: v.navs[parent].pages.remove(i), ..v.navs[parent] },
                ),
                ..v
            },
            None => v,
        }
    } else if v.inspectors.contains_key(parent) {
        let ins = v.inspectors[parent];
        GtkView {
            inspectors: v.inspectors.insert(
                parent,
                InspectorView {
                    panes: panes_without(
                        ins.panes,
                        pane_of(v, child, false).id,
                        ins.panes.len() as int,
                    ),
                    ..ins
                },
            ),
            ..v
        }
    } else {
        v
    }
}

/// The calls that take a child out of its parent.
pub open spec fn taken_out_acts(v: GtkView, parent: u64, child: u64, fixed: Option<u64>) -> Seq<
    SpecAct,
> {
    if v.navs.contains_key(parent) {
        let nav = v.navs[parent];
        match page_place(nav.pages, child, 0) {
            Some(i) => match nav.present {
                Present::Split => seq![Act::Content { w: parent, page: None }],
                Present::Paned => seq![Act::PanedEnd { w: parent, page: None }],
                Present::Suite { stack, .. } => seq![
                    Act::StackRemove { w: stack, child: nav.pages[i].page },
                ],
                Present::Stack => Seq::empty(),
            },
            None => Seq::empty(),
        }
    } else if v.inspectors.contains_key(parent) {
        if pane_of(v, child, false).panel {
            seq![Act::Sidebar { w: parent, page: None }]
        } else {
            seq![Act::Content { w: parent, page: None }]
        }
    } else {
        match fixed {
            Some(w) => seq![Act::Take { w, child }],
            None => Seq::empty(),
        }
    }
}

/// A page that was put last into a host and is taken out again leaves the host as it was.
pub proof fn a_page_comes_and_goes(v: GtkView, host: u64, child: u64, page: u64)
    requires
        v.navs.contains_key(host),
        page_place(v.navs[host].pages, child, 0) is None,
    ensures
        taken_out(page_added(v, host, child, page), host, child) == v,
{
    let before = v.navs[host].pages;
    let after = before.push(page_record(v, child, page));
    last_page_is_found(before, page_record(v, child, page), 0);
    assert(after.remove(before.len() as int) =~= before);
    assert(taken_out(page_added(v, host, child, page), host, child) =~= v);
}

proof fn last_page_is_found(pages: Seq<NavPage>, p: NavPage, n: int)
    requires
        0 <= n <= pages.len(),
        page_place(pages, p.child, n) is None,
    ensures
        page_place(pages.push(p), p.child, n) == Some(pages.len() as int),
    decreases pages.len() - n,
{
    if n < pages.len() {
        last_page_is_found(pages, p, n + 1);
    }
}

impl Gtk {
    /// Whether a child of this widget needs a page to be wrapped in.
    pub fn page_wanted(&self, parent: u64) -> (b: bool)
        ensures
            b == wraps(self@, parent),
    {
        self.navs.has(parent) || self.inspectors.has(parent)
    }

    /// Puts a child into its parent, at this place. `above` are the widgets from the parent
    /// upwards, `page` is the page made for the child where one is wanted, `toggles` are those made
    /// for it, `fixed` is the container that holds the parent's children, `glyphs` are the names
    /// that can be drawn.
    pub fn insert(
        &mut self,
        parent: u64,
        child: u64,
        index: usize,
        above: &Vec<u64>,
        page: u64,
        toggles: &Vec<u64>,
        fixed: Option<u64>,
        glyphs: &Vec<String>,
    ) -> (out: Vec<GtkAct>)
        requires
            toggles_for(old(self)@, child, above@) <= toggles@.len(),
        ensures
            final(self)@ == put_in(
                switched(old(self)@, child, above@, toggles@),
                parent,
                child,
                page,
                index as int,
            ),
            acts(out@) == switched_acts(
                old(self)@,
                child,
                above@,
                toggles@,
                texts(glyphs@),
            ) + put_in_acts(
                switched(old(self)@, child, above@, toggles@),
                parent,
                child,
                page,
                index as int,
                fixed,
            ),
    {
        let mut out = self.switch_over(child, above, toggles, glyphs);
        let more = if self.navs.has(parent) {
            self.add_page(parent, child, page, index)
        } else if self.inspectors.has(parent) {
            self.add_pane(parent, child, page, index)
        } else {
            match fixed {
                Some(w) => one_act(Act::Put { w, child }),
                None => no_acts(),
            }
        };
        act_all(&mut out, more);
        out
    }

    fn drop_page(&mut self, parent: u64, child: u64) -> (out: Vec<GtkAct>)
        requires
            old(self)@.navs.contains_key(parent),
        ensures
            final(self)@ == taken_out(old(self)@, parent, child),
            acts(out@) == taken_out_acts(old(self)@, parent, child, None),
    {
        let ghost v = self@;
        let mut out = no_acts();
        match self.navs.take(parent) {
            Some(mut nav) => {
                let ghost before = nav@;
                let mut i: usize = 0;
                while i < nav.pages.len() && nav.pages[i].child != child
                    invariant
                        i <= nav.pages.len(),
                        page_place(nav.pages@, child, 0) == page_place(
                            nav.pages@,
                            child,
                            i as int,
                        ),
                    decreases nav.pages.len() - i,
                {
                    i = i + 1;
                }
                if i < nav.pages.len() {
                    let gone = nav.pages.remove(i);
                    match nav.present {
                        Present::Split => act(&mut out, Act::Content { w: parent, page: None }),
                        Present::Paned => act(&mut out, Act::PanedEnd { w: parent, page: None }),
                        Present::Suite { stack, .. } => act(
                            &mut out,
                            Act::StackRemove { w: stack, child: gone.page },
                        ),
                        Present::Stack => {},
                    }
                    proof {
                        assert(nav@ =~= NavView { pages: before.pages.remove(i as int), ..before });
                    }
                }
                self.navs.put(parent, nav);
                proof {
                    assert(self@ =~= taken_out(v, parent, child));
                    assert(acts(out@) =~= taken_out_acts(v, parent, child, None));
                }
            },
            None => {},
        }
        out
    }

    fn drop_pane(&mut self, parent: u64, child: u64) -> (out: Vec<GtkAct>)
        requires
            !old(self)@.navs.contains_key(parent),
            old(self)@.inspectors.contains_key(parent),
        ensures
            final(self)@ == taken_out(old(self)@, parent, child),
            acts(out@) == taken_out_acts(old(self)@, parent, child, None),
    {
        let ghost v = self@;
        let mut out = no_acts();
        let pane = self.pane_for(child, false);
        match self.inspectors.take(parent) {
            Some(ins) => {
                let mut kept: Vec<Pane> = Vec::new();
                let mut i: usize = 0;
                while i < ins.panes.len()
                    invariant
                        i <= ins.panes.len(),
                        kept@ == panes_without(ins.panes@, pane.id, i as int),
                    decreases ins.panes.len() - i,
                {
                    if ins.panes[i].id != pane.id {
                        kept.push(ins.panes[i]);
                    }
                    i = i + 1;
                }
                let left = Inspector { width: ins.width, panes: kept };
                proof {
                    assert(left@ =~= InspectorView {
                        panes: panes_without(
                            ins@.panes,
                            pane.id,
                            ins@.panes.len() as int,
                        ),
                        ..ins@
                    });
                }
                self.inspectors.put(parent, left);
                if pane.panel {
                    act(&mut out, Act::Sidebar { w: parent, page: None });
                } else {
                    act(&mut out, Act::Content { w: parent, page: None });
                }
                proof {
                    assert(self@ =~= taken_out(v, parent, child));
                    assert(acts(out@) =~= taken_out_acts(v, parent, child, None));
                }
            },
            None => {},
        }
        out
    }

    /// Takes a child out of its parent.
    pub fn remove(&mut self, parent: u64, child: u64, fixed: Option<u64>) -> (out: Vec<GtkAct>)
        ensures
            final(self)@ == taken_out(old(self)@, parent, child),
            acts(out@) == taken_out_acts(old(self)@, parent, child, fixed),
    {
        if self.navs.has(parent) {
            self.drop_page(parent, child)
        } else if self.inspectors.has(parent) {
            self.drop_pane(parent, child)
        } else {
            match fixed {
                Some(w) => one_act(Act::Take { w, child }),
                None => no_acts(),
            }
        }
    }
}

// ---- changes -----------------------------------------------------------------------------------

/// The calls for a change to a navigation host.
pub open spec fn nav_patch_acts(v: GtkView, host: u64, patch: NavPatch) -> Seq<SpecAct> {
    match entry(v.navs, host) {
        Some(nav) => match patch {
            NavPatch::Popped => if nav.present == Present::Stack {
                seq![Act::NavPop { w: host }]
            } else {
                Seq::empty()
            },
            NavPatch::GuardTop(on) => if nav.pages.len() > 0 {
                seq![Act::CanPop { page: nav.pages.last().page, on: !on }]
            } else {
                Seq::empty()
            },
            NavPatch::Select(i) => if nav.present is Suite && i < nav.toggles.len() {
                seq![Act::QuietActive { w: nav.toggles[i as int] }]
            } else {
                Seq::empty()
            },
            _ => Seq::empty(),
        },
        None => Seq::empty(),
    }
}

impl Gtk {
    /// Changes a navigation host.
    pub fn update_nav(&self, host: u64, patch: &NavPatch) -> (out: Vec<GtkAct>)
        ensures
            acts(out@) == nav_patch_acts(self@, host, *patch),
    {
        let nav = match self.navs.get(host) {
            Some(nav) => nav,
            None => {
                return no_acts();
            },
        };
        match patch {
            NavPatch::Popped => match nav.present {
                Present::Stack => one_act(Act::NavPop { w: host }),
                _ => no_acts(),
            },
            NavPatch::GuardTop(on) => {
                let n = nav.pages.len();
                if n > 0 {
                    one_act(Act::CanPop { page: nav.pages[n - 1].page, on: !*on })
                } else {
                    no_acts()
                }
            },
            NavPatch::Select(i) => match nav.present {
                Present::Suite { .. } => if *i < nav.toggles.len() {
                    one_act(Act::QuietActive { w: nav.toggles[*i] })
                } else {
                    no_acts()
                },
                _ => no_acts(),
            },
            _ => no_acts(),
        }
    }
}

/// A page came off a stack: the app hears of it, unless the app took it off.
pub open spec fn popped_acts(id: u64, quiet: bool) -> Seq<SpecAct> {
    if quiet {
        Seq::empty()
    } else {
        seq![
            Act::Emit {
                to: Target::Node(id),
                event: crate::model::Event::NavBack { already_popped: true },
            },
        ]
    }
}

pub fn nav_popped(id: u64, quiet: bool) -> (out: Vec<GtkAct>)
    ensures
        acts(out@) == popped_acts(id, quiet),
{
    if quiet {
        no_acts()
    } else {
        crate::gtk::act::emit(
            Target::Node(id),
            crate::model::Event::NavBack { already_popped: true },
        )
    }
}

/// An inspector showed or hid its panel: the app hears of it, unless the app did it, and the panes
/// are reported either way.
pub open spec fn inspector_shown_acts(host: u64, id: u64, shows: bool, quiet: bool) -> Seq<
    SpecAct,
> {
    let told: Seq<SpecAct> = if quiet {
        Seq::empty()
    } else {
        seq![
            Act::Emit {
                to: Target::Node(id),
                event: crate::model::Event::InspectorChanged(shows),
            },
        ]
    };
    told.push(Act::Later { work: Later::InspectorReport(host) })
}

pub fn inspector_shown(host: u64, id: u64, shows: bool, quiet: bool) -> (out: Vec<GtkAct>)
    ensures
        acts(out@) == inspector_shown_acts(host, id, shows, quiet),
{
    let mut out = no_acts();
    if !quiet {
        act(
            &mut out,
            Act::Emit {
                to: Target::Node(id),
                event: crate::model::Event::InspectorChanged(shows),
            },
        );
    }
    act(&mut out, Act::Later { work: Later::InspectorReport(host) });
    proof {
        assert(acts(out@) =~= inspector_shown_acts(host, id, shows, quiet));
    }
    out
}

/// The calls that show or hide an inspector's panel.
pub open spec fn panel_acts(v: GtkView, host: u64, visible: bool) -> Seq<SpecAct> {
    let shown: Seq<SpecAct> = if v.inspectors.contains_key(host) {
        seq![Act::StillSidebar { w: host, on: visible }]
    } else {
        Seq::empty()
    };
    shown.push(Act::Later { work: Later::InspectorReport(host) })
}

impl Gtk {
    /// Shows or hides an inspector's panel.
    pub fn update_inspector(&self, host: u64, visible: bool) -> (out: Vec<GtkAct>)
        ensures
            acts(out@) == panel_acts(self@, host, visible),
    {
        let mut out = no_acts();
        if self.inspectors.has(host) {
            act(&mut out, Act::StillSidebar { w: host, on: visible });
        }
        act(&mut out, Act::Later { work: Later::InspectorReport(host) });
        proof {
            assert(acts(out@) =~= (if self@.inspectors.contains_key(host) {
                seq![
                    Act::<Seq<char>, SpecEvent>::StillSidebar { w: host, on: visible },
                    Act::Later { work: Later::InspectorReport(host) },
                ]
            } else {
                seq![Act::Later { work: Later::InspectorReport(host) }]
            }));
        }
        out
    }
}

} // verus!
