//! What each piece is made of, what is remembered of it, and what each change to it comes to, call
//! by call; where pages and panes go, and how rows, frames and windows are put up.
use crate::gtk::act::{Act, Extent, Later, Policy, Signal, Slack, SpecAct, Transform};
use crate::gtk::css::{style_acts, surface_acts};
use crate::gtk::labels::{attrs_act, look_acts};
use crate::gtk::nav::{
    inspector_acts, nav_patch_acts, page_place, pages_acts, panel_acts, panes_acts, put_in,
    put_in_acts, report_acts, suite_above, switched, switched_acts, taken_out, taken_out_acts,
    toggles_for,
};
use crate::gtk::realize::{
    container_acts, first_look, menu_acts, new_label_acts, realize_acts, realized, widgets_for,
    Widget,
};
use crate::gtk::rows::{row_acts, rows_acts, switcher_acts, toggle_acts, toggles_acts};
use crate::gtk::state::{GtkView, InspectorView, NavPage, NavView, Present, RowsView};
use crate::gtk::text::{base_of, tone_of};
use crate::gtk::update::{
    cover_acts, cover_size, cover_updated, covers_without, menu_patch_acts, tint_acts, update_acts,
    Around,
};
use crate::gtk::widgets::{
    frame_acts, framed, menu_set, menu_set_acts, release_acts, transform_acts, transformed, Home,
};
use crate::gtk::windows::{
    app_menu_acts, content_height, covers_acts, menu_installed, opened_acts, resized_acts, titled,
    window_of,
};
use crate::keys::Pairs;
use crate::model::{
    AnimSpec, Color, Event, NavPatch, NavPresentation, Rect, Size, Target, TextAlign, TextRole,
};
use crate::num::Num;
use crate::pieces::{
    ButtonPatch, ContainerProps, CoverPatch, LabelProps, ListPatch, MenuRows, NavMenuPatch, Patch,
    Piece, SliderPatch, TextFieldPatch, TogglePatch,
};
use crate::text::decimal;
use vstd::prelude::*;

verus! {

/// The widgets each piece is made of.
pub proof fn pieces_have_their_widgets(piece: Piece, paned: bool)
    ensures
        ({
            let made = widgets_for(piece, paned);
            match piece {
                Piece::Container(_) | Piece::NavPage { .. } | Piece::Cover => made == seq![
                    Widget::Fixed,
                ],
                Piece::Label(_) | Piece::Mismatched(_) | Piece::Unrendered(_) => made == seq![
                    Widget::Label,
                ],
                Piece::Button(_) => made == seq![Widget::Button],
                Piece::Toggle(_) => made == seq![Widget::Switch],
                Piece::Slider(_) => made == seq![Widget::Scale],
                Piece::TextField(_) => made == seq![Widget::Entry],
                Piece::TextArea(_) => made == seq![Widget::TextArea],
                Piece::Picker(_) => made == seq![Widget::Picker],
                Piece::Progress(v) => made == if v is Some {
                    seq![Widget::Bar]
                } else {
                    seq![Widget::Spinner]
                },
                Piece::Image(_) => made == seq![Widget::Picture],
                Piece::Canvas => made == seq![Widget::Area],
                Piece::Scroll { .. } => made == seq![Widget::Scroller, Widget::Fixed],
                Piece::Divider => made == seq![Widget::Separator],
                Piece::Nav { presentation, .. } => match presentation {
                    NavPresentation::Tabs | NavPresentation::Rail => made == seq![
                        Widget::Column,
                        Widget::Stack,
                        Widget::Switcher,
                    ],
                    NavPresentation::Split => made == if paned {
                        seq![Widget::Paned]
                    } else {
                        seq![Widget::Split]
                    },
                    NavPresentation::Stack => made == seq![Widget::Pages],
                },
                Piece::NavMenu { .. } => made == seq![Widget::Scroller, Widget::ListBox],
                Piece::List(p) => made == seq![
                    Widget::Scroller,
                    Widget::ListView { selectable: p.selectable, reorderable: p.reorderable },
                ],
            }
        }),
{
}

/// The calls that make a control: what it shows, whether it can be used, and what it reports to
/// its node.
pub proof fn controls_are_made(
    v: GtkView,
    piece: Piece,
    id: u64,
    nodes: Seq<u64>,
    paned: bool,
    standard: Num,
    display: bool,
    glyphs: Seq<Seq<char>>,
)
    ensures
        ({
            let w = nodes[0];
            let made = realize_acts(v, piece, id, nodes, paned, standard, display, glyphs);
            match piece {
                Piece::Button(p) => made == seq![SpecAct::Text { w, text: p.title@ }] + style_acts(
                    v,
                    w,
                    p.style,
                    Seq::empty(),
                    display,
                ) + seq![
                    SpecAct::Wire { w, signal: Signal::Clicked, id },
                    Act::Wire { w, signal: Signal::Focus, id },
                ],
                Piece::Toggle(p) => made == seq![
                    SpecAct::Active { w, on: p.on },
                    Act::Sensitive { w, on: p.enabled },
                    Act::Wire { w, signal: Signal::Active, id },
                    Act::Wire { w, signal: Signal::Focus, id },
                ],
                Piece::Slider(p) => made == seq![
                    SpecAct::Range {
                        w,
                        min: p.min.num,
                        max: p.max.num,
                        step: if p.step is Some {
                            Some((p.step->0).num)
                        } else {
                            None
                        },
                    },
                    Act::Value { w, value: p.value },
                    Act::Wire { w, signal: Signal::Value, id },
                    Act::Wire { w, signal: Signal::Settled, id },
                    Act::Wire { w, signal: Signal::Focus, id },
                ],
                Piece::TextField(p) => made == seq![
                    SpecAct::EntryText { w, text: p.text@ },
                    Act::Placeholder { w, text: p.placeholder@ },
                    Act::Wire { w, signal: Signal::Text, id },
                    Act::Wire { w, signal: Signal::Activate, id },
                    Act::Wire { w, signal: Signal::Focus, id },
                ],
                Piece::Progress(Some(value)) => made == seq![SpecAct::Fraction { w, value }],
                Piece::Progress(None) => made == seq![SpecAct::Spin { w }],
                Piece::Canvas => made == seq![
                    SpecAct::Focusable { w },
                    Act::Wire { w, signal: Signal::Focus, id },
                    Act::Wire { w, signal: Signal::Key, id },
                ],
                Piece::Image(p) => {
                    let plain = p.tint is None || !glyphs.contains(p.source@);
                    &&& plain ==> made == seq![
                        SpecAct::Fit { w, mode: p.content_mode },
                        Act::Picture { w, source: p.source@ },
                    ]
                    &&& !plain ==> made == seq![
                        SpecAct::Fit { w, mode: p.content_mode },
                        Act::Tinted {
                            w,
                            source: p.source@,
                            tint: ((p.tint->0).r.cut, (p.tint->0).g.cut, (p.tint->0).b.cut),
                        },
                    ]
                },
                _ => true,
            }
        }),
{
    let w = nodes[0];
    let made = realize_acts(v, piece, id, nodes, paned, standard, display, glyphs);
    match piece {
        Piece::Button(p) => {
            assert(made =~= seq![SpecAct::Text { w, text: p.title@ }] + style_acts(
                v,
                w,
                p.style,
                Seq::empty(),
                display,
            ) + seq![
                SpecAct::Wire { w, signal: Signal::Clicked, id },
                Act::Wire { w, signal: Signal::Focus, id },
            ]);
        },
        _ => {},
    }
}

/// The calls that make what holds others: a scroller with its content, a host by its presentation,
/// a cover that does not show yet, and a list with what it reports.
pub proof fn holders_are_made(
    v: GtkView,
    piece: Piece,
    id: u64,
    nodes: Seq<u64>,
    paned: bool,
    standard: Num,
    display: bool,
    glyphs: Seq<Seq<char>>,
)
    ensures
        ({
            let w = nodes[0];
            let made = realize_acts(v, piece, id, nodes, paned, standard, display, glyphs);
            match piece {
                Piece::Scroll { horizontal } => {
                    let policy = if horizontal {
                        Policy::Horizontal
                    } else {
                        Policy::Vertical
                    };
                    v.scroll_css ==> made == seq![
                        SpecAct::Policy { w, policy },
                        Act::SetChild { w, child: nodes[1] },
                        Act::AddClass { w, class: "day-scroll"@ },
                    ]
                },
                Piece::Nav { presentation, .. } => match presentation {
                    NavPresentation::Tabs | NavPresentation::Rail => made == seq![
                        SpecAct::Append { w, child: nodes[1] },
                        Act::Append { w, child: nodes[2] },
                    ],
                    NavPresentation::Split => {
                        &&& paned ==> made == seq![
                            SpecAct::PanedPosition { w, position: standard },
                            Act::Wire { w, signal: Signal::Position, id },
                        ]
                        &&& !paned ==> made == seq![
                            SpecAct::SidebarWidth { w, width: standard, pinned: false },
                            Act::ShowSidebar { w, on: true },
                            Act::Wire { w, signal: Signal::SidebarShown, id },
                        ]
                    },
                    NavPresentation::Stack => made == seq![
                        SpecAct::Wire { w, signal: Signal::Popped, id },
                    ],
                },
                Piece::Cover => made == seq![SpecAct::Visible { w, on: false }],
                Piece::List(p) => {
                    &&& p.selectable ==> made.contains(
                        Act::Wire { w: nodes[1], signal: Signal::Selected, id },
                    )
                    &&& p.reorderable ==> made.contains(
                        Act::Wire { w: nodes[1], signal: Signal::Reorder, id },
                    )
                    &&& !p.selectable && !p.reorderable && p.separators != Some(true) ==> made
                        == seq![
                        SpecAct::Policy { w, policy: Policy::Vertical },
                        Act::SetChild { w, child: nodes[1] },
                    ]
                },
                Piece::Mismatched(kind) => made == seq![
                    SpecAct::Report { kind: kind@ },
                    Act::Text { w, text: "⟨"@ + kind@ + "⟩"@ },
                ],
                Piece::Unrendered(kind) => made == seq![
                    SpecAct::Report { kind: kind@ },
                    Act::Text { w, text: "⟨"@ + kind@ + "⟩"@ },
                ],
                Piece::Divider | Piece::NavPage { .. } => made.len() == 0,
                _ => true,
            }
        }),
{
    let w = nodes[0];
    let made = realize_acts(v, piece, id, nodes, paned, standard, display, glyphs);
    match piece {
        Piece::Scroll { horizontal } => {
            if v.scroll_css {
                assert(made =~= seq![
                    SpecAct::Policy {
                        w,
                        policy: if horizontal {
                            Policy::Horizontal
                        } else {
                            Policy::Vertical
                        },
                    },
                    Act::SetChild { w, child: nodes[1] },
                    Act::AddClass { w, class: "day-scroll"@ },
                ]);
            }
        },
        Piece::List(p) => {
            if p.selectable {
                assert(made[0] == SpecAct::Wire { w: nodes[1], signal: Signal::Selected, id });
            }
            if p.reorderable {
                assert(made[made.len() - 1] == SpecAct::Wire {
                    w: nodes[1],
                    signal: Signal::Reorder,
                    id,
                });
            }
            if !p.selectable && !p.reorderable && p.separators != Some(true) {
                assert(made =~= seq![
                    SpecAct::Policy { w, policy: Policy::Vertical },
                    Act::SetChild { w, child: nodes[1] },
                ]);
            }
        },
        _ => {},
    }
}

/// What is remembered of a piece that was made.
pub proof fn pieces_are_remembered(
    v: GtkView,
    piece: Piece,
    id: u64,
    nodes: Seq<u64>,
    paned: bool,
    display: bool,
)
    ensures
        ({
            let w = nodes[0];
            let u = realized(v, piece, id, nodes, paned, display);
            match piece {
                Piece::Image(p) => u.images.contains_key(w) && u.images[w] == p.source@,
                Piece::NavPage { title, .. } => u.page_ids.contains_key(w) && u.page_ids[w] == id
                    && u.page_titles.contains_key(w) && u.page_titles[w] == title@,
                Piece::Cover => u.cover_ids.contains_key(w) && u.cover_ids[w] == id,
                Piece::List(_) => u.lists.contains(w),
                Piece::Nav { presentation, .. } => u.navs.contains_key(w) && u.navs[w].pages.len()
                    == 0 && u.navs[w].toggles.len() == 0 && (u.navs[w].split <==> presentation
                    == NavPresentation::Split),
                Piece::NavMenu { rows, .. } => u.menus.contains_key(w) && u.menus[w].listbox
                    == nodes[1] && u.menu_rows.contains_key(w) && u.menu_rows[w].node == id,
                Piece::Toggle(_) | Piece::Slider(_) | Piece::TextField(_) | Piece::Canvas
                | Piece::Divider | Piece::Progress(_) => u == v,
                _ => true,
            }
        }),
{
}

/// What each change to a piece comes to. A text that the field itself reported is not set again.
pub proof fn pieces_are_changed(v: GtkView, w: u64, patch: Patch, a: Around)
    ensures
        ({
            let made = update_acts(v, w, patch, a);
            match patch {
                Patch::Button(ButtonPatch::Title(t)) => made == seq![
                    SpecAct::Text { w, text: t@ },
                ],
                Patch::Button(ButtonPatch::Enabled(on)) => made == seq![
                    SpecAct::Sensitive { w, on },
                ],
                Patch::Toggle(TogglePatch::On(on)) => made == seq![SpecAct::Active { w, on }],
                Patch::Toggle(TogglePatch::Enabled(on)) => made == seq![
                    SpecAct::Sensitive { w, on },
                ],
                Patch::Slider(SliderPatch::Value(value)) => made == seq![
                    SpecAct::NearValue { w, value, slack: Slack::Thousandth },
                ],
                Patch::Slider(SliderPatch::Enabled(on)) => made == seq![
                    SpecAct::Sensitive { w, on },
                ],
                Patch::TextField(TextFieldPatch::Text { text, from_native }) => {
                    &&& from_native ==> made.len() == 0
                    &&& !from_native ==> made == seq![SpecAct::EntryText { w, text: text@ }]
                },
                Patch::TextField(TextFieldPatch::Placeholder(t)) => made == seq![
                    SpecAct::Placeholder { w, text: t@ },
                ],
                Patch::TextField(TextFieldPatch::Enabled(on)) => made == seq![
                    SpecAct::Sensitive { w, on },
                ],
                Patch::Progress(Some(value)) => made == seq![
                    SpecAct::NearValue { w, value, slack: Slack::TenThousandth },
                ],
                Patch::NavMenu(NavMenuPatch::Selected(row)) => v.menus.contains_key(w) ==> made
                    == seq![SpecAct::SelectRow { w: v.menus[w].listbox, row }],
                Patch::List(ListPatch::ScrollToEnd) => made == seq![
                    SpecAct::Later { work: Later::ListEnd(w) },
                ],
                Patch::List(ListPatch::ScrollToRow(row)) => made == seq![
                    SpecAct::Later { work: Later::ListRow(w, row) },
                ],
                Patch::List(ListPatch::Reload) => v.lists.contains(w) ==> made == seq![
                    SpecAct::Later { work: Later::ListResize(w) },
                ],
                _ => true,
            }
        }),
{
}

/// A cover that is presented leaves what held it, is put over the root at the size of what is
/// around it, shows, and its node is told that size; it is then one of the covers. Dismissed, it
/// does not show, its node is told, and it is none of them.
pub proof fn a_cover_comes_and_goes(v: GtkView, w: u64, a: Around, root: u64)
    requires
        v.root == Some(root),
        v.cover_ids.contains_key(w),
    ensures
        ({
            let node = Target::Node(v.cover_ids[w]);
            let size = cover_size(a);
            let shown = cover_acts(v, w, CoverPatch::Present { background: None }, a);
            let hidden = cover_acts(v, w, CoverPatch::Dismiss, a);
            let holder: Seq<SpecAct> = if a.holder is Some {
                seq![Act::Take { w: a.holder->0, child: w }]
            } else {
                Seq::empty()
            };
            &&& shown == seq![SpecAct::AddClass { w, class: "background"@ }] + holder + seq![
                SpecAct::Put { w: root, child: w },
                Act::SizeRequest { w, width: size.0, height: size.1 },
                Act::Visible { w, on: true },
                Act::Framed { to: node, width: Extent::Px(size.0), height: size.1 },
            ]
            &&& hidden == seq![SpecAct::Visible { w, on: false }] + holder + seq![
                SpecAct::Emit { to: node, event: Event::CoverHidden },
            ]
            &&& a.wrapper matches Some(s) ==> s.0 > 0 ==> s.1 > 0 ==> size == s
            &&& a.wrapper is None ==> size == a.content
            &&& cover_updated(v, w, CoverPatch::Present { background: None }).covers
                == v.covers.push((w, node))
        }),
{
    let hidden = cover_acts(v, w, CoverPatch::Dismiss, a);
    let node = Target::Node(v.cover_ids[w]);
    let holder: Seq<SpecAct> = if a.holder is Some {
        seq![Act::Take { w: a.holder->0, child: w }]
    } else {
        Seq::empty()
    };
    assert(hidden =~= seq![SpecAct::Visible { w, on: false }] + holder + seq![
        SpecAct::Emit { to: node, event: Event::CoverHidden },
    ]);
}

// ---- pages and panes ---------------------------------------------------------------------------

/// Where a page goes: in a split or in panes the first page is the sidebar's and any other the
/// content; on a stack it is pushed; in a suite it is a page of the stack, named by its place, the
/// first of them never shown. It is the host's last page, and the host reports its room later.
pub proof fn a_page_goes_to_its_place(
    v: GtkView,
    host: u64,
    child: u64,
    page: u64,
    index: int,
    fixed: Option<u64>,
)
    requires
        v.navs.contains_key(host),
        0 <= index,
        v.navs[host].split <==> (v.navs[host].present == Present::Split || v.navs[host].present
            == Present::Paned),
    ensures
        ({
            let nav = v.navs[host];
            let made = put_in_acts(v, host, child, page, index, fixed);
            let known = v.page_titles.contains_key(child) && v.page_titles[child].len() > 0;
            let title = if known {
                v.page_titles[child]
            } else {
                "Day"@
            };
            let later = SpecAct::Later { work: Later::NavReport(host) };
            let name = "p"@ + decimal(index as nat);
            let u = put_in(v, host, child, page, index);
            &&& nav.present == Present::Split && index == 0 ==> made == seq![
                SpecAct::NewPage { page, child, title, loose: false },
                Act::Sidebar { w: host, page: Some(page) },
                later,
            ]
            &&& nav.present == Present::Split && index > 0 ==> made == seq![
                SpecAct::NewPage { page, child, title, loose: true },
                Act::Content { w: host, page: Some(page) },
                later,
            ]
            &&& nav.present == Present::Paned && index == 0 ==> made == seq![
                SpecAct::NewPage { page, child, title, loose: false },
                Act::AddClass { w: page, class: "sidebar-pane"@ },
                Act::PanedStart { w: host, page },
                later,
            ]
            &&& nav.present == Present::Paned && index > 0 ==> made == seq![
                SpecAct::NewPage { page, child, title, loose: false },
                Act::PanedEnd { w: host, page: Some(page) },
                later,
            ]
            &&& nav.present == Present::Stack ==> made == seq![
                SpecAct::NewPage { page, child, title, loose: false },
                Act::NavPush { w: host, page },
                later,
            ]
            &&& nav.present matches Present::Suite { stack, .. } ==> {
                &&& index == 0 ==> made == seq![
                    SpecAct::NewPage { page, child, title, loose: false },
                    Act::StackAdd { w: stack, page, name },
                    Act::Visible { w: page, on: false },
                    later,
                ]
                &&& index > 0 ==> made == seq![
                    SpecAct::NewPage { page, child, title, loose: false },
                    Act::StackAdd { w: stack, page, name },
                    Act::StackShowFirst { w: stack, page },
                    later,
                ]
            }
            &&& u.navs[host].pages.len() == nav.pages.len() + 1
            &&& u.navs[host].pages.last().child == child && u.navs[host].pages.last().page == page
            &&& v.page_ids.contains_key(child) ==> u.navs[host].pages.last().id
                == v.page_ids[child]
        }),
{
}

/// A child of anything else is put where its parent's fixed container is, and taken from there.
pub proof fn a_child_goes_into_its_container(
    v: GtkView,
    parent: u64,
    child: u64,
    page: u64,
    index: int,
    w: u64,
)
    requires
        !v.navs.contains_key(parent),
        !v.inspectors.contains_key(parent),
    ensures
        put_in_acts(v, parent, child, page, index, Some(w)) == seq![SpecAct::Put { w, child }],
        put_in_acts(v, parent, child, page, index, None).len() == 0,
        taken_out_acts(v, parent, child, Some(w)) == seq![SpecAct::Take { w, child }],
        put_in(v, parent, child, page, index) == v,
        taken_out(v, parent, child) == v,
{
}

/// A page is told its room: the whole width where the host is not split; where it is, the first
/// page the bar's width and any other what the bar leaves. A host without room tells nothing.
pub proof fn pages_are_told_their_room(nav: NavView, width: i32, height: i32, bar: Extent, i: int)
    requires
        0 <= i < nav.pages.len(),
    ensures
        ({
            let told = pages_acts(nav, width, height, bar, nav.pages.len() as int);
            &&& told.len() == nav.pages.len()
            &&& told[i] == (SpecAct::Framed {
                to: Target::Node(nav.pages[i].id),
                width: if !nav.split {
                    Extent::Px(width)
                } else if i == 0 {
                    bar
                } else {
                    crate::gtk::nav::beside(width, bar)
                },
                height,
            })
        }),
{
    pages_told_up_to(nav, width, height, bar, nav.pages.len() as int, i);
}

proof fn pages_told_up_to(nav: NavView, width: i32, height: i32, bar: Extent, n: int, i: int)
    requires
        0 <= i < n <= nav.pages.len(),
    ensures
        pages_acts(nav, width, height, bar, n).len() == n,
        pages_acts(nav, width, height, bar, n)[i] == (SpecAct::Framed {
            to: Target::Node(nav.pages[i].id),
            width: if !nav.split {
                Extent::Px(width)
            } else if i == 0 {
                bar
            } else {
                crate::gtk::nav::beside(width, bar)
            },
            height,
        }),
    decreases n,
{
    if n > 1 {
        if i < n - 1 {
            pages_told_up_to(nav, width, height, bar, n - 1, i);
        } else {
            pages_told_up_to(nav, width, height, bar, n - 1, 0);
        }
    } else {
        assert(pages_acts(nav, width, height, bar, 0).len() == 0);
    }
}

/// A pane is told its room: a panel the inspector's width; the content what the panel leaves while
/// it shows, and the whole width while it does not.
pub proof fn panes_are_told_their_room(
    ins: InspectorView,
    width: i32,
    height: i32,
    shown: bool,
    i: int,
)
    requires
        0 <= i < ins.panes.len(),
    ensures
        ({
            let told = panes_acts(ins, width, height, shown, ins.panes.len() as int);
            &&& told.len() == ins.panes.len()
            &&& told[i] == (SpecAct::Framed {
                to: Target::Node(ins.panes[i].id),
                width: if ins.panes[i].panel {
                    Extent::Given(ins.width)
                } else if shown {
                    Extent::Rest(width, ins.width)
                } else {
                    Extent::Px(width)
                },
                height,
            })
        }),
{
    panes_told_up_to(ins, width, height, shown, ins.panes.len() as int, i);
}

proof fn panes_told_up_to(
    ins: InspectorView,
    width: i32,
    height: i32,
    shown: bool,
    n: int,
    i: int,
)
    requires
        0 <= i < n <= ins.panes.len(),
    ensures
        panes_acts(ins, width, height, shown, n).len() == n,
        panes_acts(ins, width, height, shown, n)[i] == (SpecAct::Framed {
            to: Target::Node(ins.panes[i].id),
            width: if ins.panes[i].panel {
                Extent::Given(ins.width)
            } else if shown {
                Extent::Rest(width, ins.width)
            } else {
                Extent::Px(width)
            },
            height,
        }),
    decreases n,
{
    if n > 1 {
        if i < n - 1 {
            panes_told_up_to(ins, width, height, shown, n - 1, i);
        } else {
            panes_told_up_to(ins, width, height, shown, n - 1, 0);
        }
    } else {
        assert(panes_acts(ins, width, height, shown, 0).len() == 0);
    }
}

/// The patches of a host: a pop on a stack, the guard as whether the top page can be popped, and
/// the toggle of a selected page in a suite, switched on without a report. Nothing else.
pub proof fn a_host_is_patched(v: GtkView, host: u64, on: bool, i: usize, t: String)
    requires
        v.navs.contains_key(host),
    ensures
        ({
            let nav = v.navs[host];
            &&& nav.present == Present::Stack ==> nav_patch_acts(v, host, NavPatch::Popped) == seq![
                SpecAct::NavPop { w: host },
            ]
            &&& nav.present != Present::Stack ==> nav_patch_acts(
                v,
                host,
                NavPatch::Popped,
            ).len() == 0
            &&& nav.pages.len() > 0 ==> nav_patch_acts(v, host, NavPatch::GuardTop(on)) == seq![
                SpecAct::CanPop { page: nav.pages[nav.pages.len() - 1].page, on: !on },
            ]
            &&& nav.present is Suite && i < nav.toggles.len() ==> nav_patch_acts(
                v,
                host,
                NavPatch::Select(i),
            ) == seq![SpecAct::QuietActive { w: nav.toggles[i as int] }]
            &&& nav_patch_acts(v, host, NavPatch::Title(t)).len() == 0
            &&& v.inspectors.contains_key(host) ==> panel_acts(v, host, on) == seq![
                SpecAct::StillSidebar { w: host, on },
                Act::Later { work: Later::InspectorReport(host) },
            ]
        }),
{
}

// ---- rows and toggles --------------------------------------------------------------------------

/// A row of a menu is a row with its text, its pictures, tints and badge; behind it its menu where
/// it has one and the header of the section that starts there. Rows come in their order.
pub proof fn rows_are_put_up(w: u64, r: MenuRows, i: int, glyphs: Seq<Seq<char>>, n: int)
    requires
        0 <= i < r.items@.len() <= usize::MAX,
        0 <= n,
    ensures
        ({
            let made = row_acts(w, r, i, glyphs);
            let section = if 0 <= i < r.sections@.len() {
                r.sections@[i]
            } else {
                None
            };
            let menu = i < r.menus@.len() && r.menus@[i]@.len() > 0;
            &&& made.len() == 1 + (if menu {
                1int
            } else {
                0
            }) + (if section is Some {
                1int
            } else {
                0
            })
            &&& made[0] == (SpecAct::Row {
                w,
                text: r.items@[i]@,
                icon: crate::gtk::rows::glyph_at(r.icons@, i, glyphs),
                tint: crate::gtk::rows::tint_at(r.tints@, i),
                badge: crate::gtk::rows::badge_at(r.badges@, i),
                badge_icon: crate::gtk::rows::glyph_at(r.badge_icons@, i, glyphs),
                badge_tint: crate::gtk::rows::tint_at(r.badge_tints@, i),
            })
            &&& menu ==> made[1] == (SpecAct::RowMenu { w, row: i as usize })
            &&& section is Some ==> made.last() == (SpecAct::RowHeader {
                w,
                row: i as usize,
                title: section->0@,
                top: if i == 0 {
                    2
                } else {
                    10
                },
            })
        }),
        rows_acts(w, r, glyphs, n + 1) == rows_acts(w, r, glyphs, n) + row_acts(w, r, n, glyphs),
        rows_acts(w, r, glyphs, 0).len() == 0,
{
}

/// A toggle of a suite has its row's picture where there is one of that name, else its title; all
/// but the first are grouped with the first; it switches to its own page, and stands last in the
/// bar. The bar is filled anew, and the first toggle is on.
pub proof fn toggles_are_put_up(
    rows: RowsView,
    i: int,
    glyphs: Seq<Seq<char>>,
    switcher: u64,
    stack: u64,
    nodes: Seq<u64>,
)
    requires
        0 <= i < rows.titles.len() <= usize::MAX,
    ensures
        ({
            let made = toggle_acts(rows, i, glyphs, switcher, stack, nodes);
            let w = nodes[i];
            let glyph = if i < rows.icons.len() {
                rows.icons[i]
            } else {
                None
            };
            let drawn = glyph is Some && (glyph->0).len() > 0 && glyphs.contains(glyph->0);
            let all = switcher_acts(rows, glyphs, switcher, stack, nodes);
            &&& drawn ==> made[0] == (SpecAct::ToggleGlyph {
                w,
                name: glyph->0,
                text: rows.titles[i],
            })
            &&& !drawn ==> made[0] == (SpecAct::ToggleLabel { w, text: rows.titles[i] })
            &&& i > 0 ==> made.len() == 4 && made[1] == (SpecAct::Group { w, leader: nodes[0] })
            &&& i == 0 ==> made.len() == 3
            &&& made[made.len() - 2] == (SpecAct::Toggle {
                w,
                index: i as usize,
                stack,
                id: rows.node,
            })
            &&& made[made.len() - 1] == (SpecAct::Append { w: switcher, child: w })
            &&& all[0] == (SpecAct::ClearBar { w: switcher })
            &&& all.last() == (SpecAct::QuietActive { w: nodes[0] })
            &&& toggles_acts(rows, i + 1, glyphs, switcher, stack, nodes) == toggles_acts(
                rows,
                i,
                glyphs,
                switcher,
                stack,
                nodes,
            ) + made
        }),
{
}

// ---- frames, menus and windows -----------------------------------------------------------------

/// A frame moves its widget inside the container it stands in and sizes it, and is remembered as
/// where the widget is; a transform that changes something is kept to. Hosts report their room
/// later. A page's frame is its host's to give.
pub proof fn a_frame_is_set(v: GtkView, w: u64, frame: Rect, p: u64)
    requires
        !v.navs.contains_key(w),
        !v.inspectors.contains_key(w),
    ensures
        ({
            let (x, y) = (frame.origin.x, frame.origin.y);
            let move_to = SpecAct::MoveTo { w: p, child: w, x, y };
            let size_to = SpecAct::SizeTo {
                w,
                width: frame.size.width,
                height: frame.size.height,
            };
            let plain = !v.transforms.contains_key(w) || v.transforms[w].identity;
            &&& v.page_ids.contains_key(w) ==> frame_acts(v, w, frame, Some(p)).len() == 0
            &&& !v.page_ids.contains_key(w) && plain ==> frame_acts(v, w, frame, Some(p)) == seq![
                move_to,
                size_to,
            ]
            &&& !v.page_ids.contains_key(w) && !plain ==> frame_acts(v, w, frame, Some(p)) == seq![
                move_to,
                Act::Shape {
                    w: p,
                    child: w,
                    origin: (x, y),
                    transform: v.transforms[w],
                    size: frame.size,
                },
                size_to,
            ]
            &&& !v.page_ids.contains_key(w) ==> frame_acts(v, w, frame, None) == seq![size_to]
            &&& !v.page_ids.contains_key(w) ==> framed(v, w, frame, Some(p)).origins.contains_key(w)
                && framed(v, w, frame, Some(p)).origins[w] == frame.origin
        }),
{
    let made = frame_acts(v, w, frame, Some(p));
    let none = Seq::<SpecAct>::empty();
    if !v.page_ids.contains_key(w) {
        assert(frame_acts(v, w, frame, None) =~= seq![
            SpecAct::SizeTo { w, width: frame.size.width, height: frame.size.height },
        ]);
    }
}

/// A transform is shaped about where the widget is, and slides there from the one before where the
/// change is animated; a slide under way is stopped where it is not. It is remembered.
pub proof fn a_transform_is_set(v: GtkView, w: u64, t: Transform, size: Size, a: AnimSpec, p: u64)
    requires
        v.origins.contains_key(w),
    ensures
        ({
            let shape = SpecAct::Shape {
                w: p,
                child: w,
                origin: (v.origins[w].x, v.origins[w].y),
                transform: t,
                size,
            };
            &&& transform_acts(v, w, t, size, None, Some(p)) == seq![
                shape,
                Act::StopSlide { w },
            ]
            &&& v.transforms.contains_key(w) ==> transform_acts(v, w, t, size, Some(a), Some(p))
                == seq![
                shape,
                Act::Slide {
                    w: p,
                    child: w,
                    from: Some(v.transforms[w]),
                    to: t,
                    size,
                    anim: a,
                },
            ]
            &&& transform_acts(v, w, t, size, None, None).len() == 0
            &&& transformed(v, w, t, Some(p)).transforms.contains_key(w) && transformed(
                v,
                w,
                t,
                Some(p),
            ).transforms[w] == t
        }),
{
}

/// A context menu that is set takes the place of the one before; an empty one only takes it away.
pub proof fn a_context_menu_is_set(v: GtkView, w: u64)
    ensures
        v.popovers.contains(w) ==> menu_set_acts(v, w, false) == seq![
            SpecAct::Unparent { w },
            Act::Menu { w },
        ] && menu_set_acts(v, w, true) == seq![SpecAct::Unparent { w }],
        !v.popovers.contains(w) ==> menu_set_acts(v, w, false) == seq![SpecAct::Menu { w }]
            && menu_set_acts(v, w, true).len() == 0,
        menu_set(v, w, false).popovers.contains(w),
        !menu_set(v, w, true).popovers.contains(w),
{
}

/// A window that opens has the menu's actions where there is a menu, keeps its size where it is the
/// preferences', and is presented. The app's menu gives its actions to every window, its shortcuts
/// to the first, and stands as the desktop's own or as a bar, in place of the bar before.
pub proof fn windows_and_menus_are_put_up(
    v: GtkView,
    window: u64,
    first: u64,
    bars: u64,
    bar: u64,
)
    ensures
        v.menu_actions ==> opened_acts(v, window, false) == seq![
            SpecAct::Actions { w: window },
            Act::PresentWindow { w: window },
        ],
        !v.menu_actions ==> opened_acts(v, window, false) == seq![
            SpecAct::PresentWindow { w: window },
        ],
        !v.menu_actions ==> opened_acts(v, window, true) == seq![
            SpecAct::KeepSize { w: window },
            Act::PresentWindow { w: window },
        ],
        v.windows.len() == 0 ==> app_menu_acts(v, first, true, Some(bars), bar) == seq![
            SpecAct::Actions { w: first },
            Act::Accels { w: first },
            Act::GlobalMenu { w: first },
        ],
        v.windows.len() == 0 && v.menu_bar is None ==> app_menu_acts(
            v,
            first,
            false,
            Some(bars),
            bar,
        ) == seq![
            SpecAct::Actions { w: first },
            Act::Accels { w: first },
            Act::AddBar { w: bars, bar },
        ],
        v.windows.len() == 0 && v.menu_bar is Some ==> app_menu_acts(
            v,
            first,
            false,
            Some(bars),
            bar,
        ) == seq![
            SpecAct::Actions { w: first },
            Act::Accels { w: first },
            Act::DropBar { w: bars, bar: v.menu_bar->0 },
            Act::AddBar { w: bars, bar },
        ],
        menu_installed(v, false, Some(bars), bar).menu_bar == Some(bar),
        menu_installed(v, true, Some(bars), bar).menu_bar == v.menu_bar,
        menu_installed(v, true, None, bar).menu_actions,
{
}

// ---- containers, labels, menus ------------------------------------------------------------------

/// A card is a card and nothing else; a container with a fill, corners or clipping has a surface of
/// its own, with exactly those; one with none of them needs no call and is not remembered.
pub proof fn a_container_has_its_surface(
    v: GtkView,
    w: u64,
    p: ContainerProps,
    id: u64,
    nodes: Seq<u64>,
)
    requires
        nodes.len() > 0,
        nodes[0] == w,
    ensures
        ({
            let made = container_acts(v, w, p);
            let round = 0 < p.corner_radius.num.bits <= 0x7ff0_0000_0000_0000;
            let bare = p.background is None && !round && !p.clips;
            let radius = if round {
                Some(p.corner_radius.text@)
            } else {
                None
            };
            let u = realized(v, Piece::Container(p), id, nodes, false, false);
            &&& p.card ==> made == seq![SpecAct::AddClass { w, class: "card"@ }]
            &&& !p.card && bare ==> made.len() == 0
            &&& !p.card && !bare ==> made == surface_acts(v, w, p.background, radius, p.clips)
            &&& p.card || bare ==> u == v
            &&& !p.card && !bare ==> u.surfaces == v.surfaces.insert(w)
        }),
{
}

/// A label shows its text, stands at its side at the top, wraps where it wraps, has its font and
/// its color, is dimmed where it is secondary, and reports its links.
pub proof fn a_plain_label_is_made(v: GtkView, w: u64, id: u64, p: LabelProps)
    requires
        p.runs@.len() == 0,
        p.role != TextRole::Secondary,
        !v.labels.contains_key(w),
    ensures
        ({
            let made = new_label_acts(v, w, id, p);
            &&& made[0] == (SpecAct::Text { w, text: p.text@ })
            &&& made[1] == (SpecAct::AlignAcross {
                w,
                at: Num {
                    bits: match p.align {
                        TextAlign::Leading => 0,
                        TextAlign::Center => 0x3fe0_0000_0000_0000,
                        TextAlign::Trailing => 0x3ff0_0000_0000_0000,
                    },
                },
            })
            &&& made[3] == (SpecAct::AlignDown { w, at: Num { bits: 0 } })
            &&& made[4] == (SpecAct::Wrap { w, on: p.wraps })
            &&& made[5] == attrs_act(w, first_look(v, w, p))
            &&& first_look(v, w, p).base == base_of(p.font)
            &&& p.color matches Some(c) ==> first_look(v, w, p).tone == Some(tone_of(c))
            &&& p.color is None ==> first_look(v, w, p).tone is None
            &&& made.last() == (SpecAct::Wire { w, signal: Signal::Link, id })
            &&& !made.contains(SpecAct::AddClass { w, class: "dim-label"@ })
        }),
{
}

/// A secondary label is dimmed.
pub proof fn a_secondary_label_is_dimmed(v: GtkView, w: u64, id: u64, p: LabelProps)
    requires
        p.role == TextRole::Secondary,
    ensures
        new_label_acts(v, w, id, p).contains(SpecAct::AddClass { w, class: "dim-label"@ }),
{
    let look = look_acts(w, first_look(v, w, p));
    let made = new_label_acts(v, w, id, p);
    assert(made[5 + look.len() as int] == (SpecAct::AddClass { w, class: "dim-label"@ }));
}

/// A menu is a sidebar's list of its rows, reports which row is selected, shows the selected one
/// where there is one, and stands in a scroller that scrolls down.
pub proof fn a_menu_is_made(
    v: GtkView,
    nodes: Seq<u64>,
    id: u64,
    rows: MenuRows,
    selected: Option<usize>,
    glyphs: Seq<Seq<char>>,
)
    ensures
        ({
            let made = menu_acts(v, nodes, id, rows, selected, glyphs);
            let list = nodes[1];
            let n = made.len();
            &&& n >= 4
            &&& made[0] == (SpecAct::AddClass { w: list, class: "navigation-sidebar"@ })
            &&& made[n - 2] == (SpecAct::Policy { w: nodes[0], policy: Policy::Vertical })
            &&& made[n - 1] == (SpecAct::SetChild { w: nodes[0], child: list })
            &&& selected is Some ==> made[n - 3] == (SpecAct::SelectRow {
                w: list,
                row: selected,
            }) && made[n - 4] == (SpecAct::Wire { w: list, signal: Signal::RowSelected, id })
            &&& selected is None ==> made[n - 3] == (SpecAct::Wire {
                w: list,
                signal: Signal::RowSelected,
                id,
            })
        }),
{
}

/// A menu that gets other rows loses the ones before, is filled with the new ones and selects the
/// row it is told to.
pub proof fn a_menu_is_filled_anew(
    v: GtkView,
    w: u64,
    rows: MenuRows,
    selected: Option<usize>,
    glyphs: Seq<Seq<char>>,
)
    requires
        v.menus.contains_key(w),
        !v.row_popovers.contains(v.menus[w].listbox),
    ensures
        ({
            let list = v.menus[w].listbox;
            let made = menu_patch_acts(v, w, NavMenuPatch::Items { rows, selected }, glyphs);
            &&& made[0] == (SpecAct::ClearRows { w: list })
            &&& made.last() == (SpecAct::SelectRow { w: list, row: selected })
            &&& made.subrange(1, made.len() - 1) == rows_acts(
                list,
                rows,
                glyphs,
                rows.items@.len() as int,
            )
        }),
{
    let list = v.menus[w].listbox;
    let made = menu_patch_acts(v, w, NavMenuPatch::Items { rows, selected }, glyphs);
    assert(made.subrange(1, made.len() - 1) =~= rows_acts(
        list,
        rows,
        glyphs,
        rows.items@.len() as int,
    ));
}

/// A picture that is tinted takes the tint's channels where the toolkit has it as a glyph, and is
/// shown from its file otherwise; so it is when the tint goes.
pub proof fn a_picture_is_tinted(v: GtkView, w: u64, c: Color, glyphs: Seq<Seq<char>>)
    requires
        v.images.contains_key(w),
    ensures
        ({
            let source = v.images[w];
            let known = exists|i: int| 0 <= i < glyphs.len() && glyphs[i] == source;
            let plain = seq![SpecAct::PictureFile { w, source }];
            &&& tint_acts(v, w, None, glyphs) == plain
            &&& !known ==> tint_acts(v, w, Some(c), glyphs) == plain
            &&& known ==> tint_acts(v, w, Some(c), glyphs) == seq![
                SpecAct::Tinted { w, source, tint: (c.r.cut, c.g.cut, c.b.cut) },
            ]
        }),
{
    assert(glyphs.contains(v.images[w]) == exists|i: int|
        0 <= i < glyphs.len() && glyphs[i] == v.images[w]);
}

// ---- taking out --------------------------------------------------------------------------------

proof fn page_found(pages: Seq<NavPage>, child: u64, from: int, at: int)
    requires
        0 <= from <= at < pages.len(),
        pages[at].child == child,
        forall|j: int| from <= j < at ==> (#[trigger] pages[j]).child != child,
    ensures
        page_place(pages, child, from) == Some(at),
    decreases at - from,
{
    if from < at {
        page_found(pages, child, from + 1, at);
    }
}

/// A page that is taken out leaves its place empty, or leaves the stack it is on; the host forgets
/// that page and keeps the others in their order.
pub proof fn a_page_is_taken_out(v: GtkView, host: u64, child: u64, at: int, fixed: Option<u64>)
    requires
        v.navs.contains_key(host),
        0 <= at < v.navs[host].pages.len(),
        v.navs[host].pages[at].child == child,
        forall|j: int| 0 <= j < at ==> (#[trigger] v.navs[host].pages[j]).child != child,
    ensures
        ({
            let nav = v.navs[host];
            let made = taken_out_acts(v, host, child, fixed);
            let left = taken_out(v, host, child).navs[host].pages;
            &&& nav.present == Present::Split ==> made == seq![
                SpecAct::Content { w: host, page: None },
            ]
            &&& nav.present == Present::Paned ==> made == seq![
                SpecAct::PanedEnd { w: host, page: None },
            ]
            &&& nav.present == Present::Stack ==> made.len() == 0
            &&& nav.present matches Present::Suite { stack, .. } ==> made == seq![
                SpecAct::StackRemove { w: stack, child: nav.pages[at].page },
            ]
            &&& left.len() == nav.pages.len() - 1
            &&& forall|i: int| 0 <= i < at ==> left[i] == nav.pages[i]
            &&& forall|i: int| at <= i < left.len() ==> left[i] == nav.pages[i + 1]
        }),
{
    page_found(v.navs[host].pages, child, 0, at);
}

/// A pane goes into an inspector as its panel or as its content; one not known as either is the
/// panel where it comes second.
pub proof fn a_pane_goes_to_its_side(
    v: GtkView,
    host: u64,
    child: u64,
    page: u64,
    index: int,
    fixed: Option<u64>,
)
    requires
        !v.navs.contains_key(host),
        v.inspectors.contains_key(host),
    ensures
        ({
            let known = v.panes.contains_key(child);
            let panel = if known {
                v.panes[child].panel
            } else {
                index == 1
            };
            let made = put_in_acts(v, host, child, page, index, fixed);
            &&& made == seq![
                SpecAct::NewPage { page, child, title: "Day"@, loose: true },
                if panel {
                    SpecAct::Sidebar { w: host, page: Some(page) }
                } else {
                    SpecAct::Content { w: host, page: Some(page) }
                },
                Act::Later { work: Later::InspectorReport(host) },
            ]
            &&& known ==> put_in(v, host, child, page, index).inspectors[host].panes.last()
                == v.panes[child]
        }),
{
}

/// A host that has no room yet tells its pages and its panes nothing.
pub proof fn no_room_is_not_told(
    v: GtkView,
    host: u64,
    width: i32,
    height: i32,
    shown: bool,
    position: i32,
    standard: Num,
)
    requires
        width <= 0 || height <= 0,
    ensures
        report_acts(v, host, width, height, shown, position, standard).len() == 0,
        inspector_acts(v, host, width, height, shown).len() == 0,
{
}

/// A cover that is dismissed is none of the covers any more, and each other one still is.
pub proof fn a_dismissed_cover_is_forgotten(
    v: GtkView,
    w: u64,
    other: (u64, Target),
)
    ensures
        ({
            let left = cover_updated(v, w, CoverPatch::Dismiss).covers;
            &&& forall|i: int| 0 <= i < left.len() ==> (#[trigger] left[i]).0 != w
            &&& other.0 != w ==> (left.contains(other) <==> v.covers.contains(other))
        }),
{
    covers_left(v.covers, w, v.covers.len() as int, other);
    assert(v.covers.take(v.covers.len() as int) =~= v.covers);
}

proof fn covers_left(covers: Seq<(u64, Target)>, w: u64, n: int, other: (u64, Target))
    requires
        0 <= n <= covers.len(),
    ensures
        ({
            let left = covers_without(covers, w, n);
            &&& forall|i: int| 0 <= i < left.len() ==> (#[trigger] left[i]).0 != w
            &&& other.0 != w ==> (left.contains(other) <==> covers.take(n).contains(other))
        }),
    decreases n,
{
    if n > 0 {
        covers_left(covers, w, n - 1, other);
        let before = covers_without(covers, w, n - 1);
        let left = covers_without(covers, w, n);
        let last = covers[n - 1];
        let (fewer, all) = (covers.take(n - 1), covers.take(n));
        assert(all =~= fewer.push(last));
        if other.0 != w {
            if all.contains(other) {
                let i = choose|i: int| 0 <= i < all.len() && all[i] == other;
                if i < n - 1 {
                    assert(fewer[i] == other);
                    let j = choose|j: int| 0 <= j < before.len() && before[j] == other;
                    assert(left[j] == other);
                } else {
                    assert(left[left.len() - 1] == other);
                }
            }
            if left.contains(other) {
                let j = choose|j: int| 0 <= j < left.len() && left[j] == other;
                if j < before.len() {
                    assert(before[j] == other);
                    let i = choose|i: int| 0 <= i < fewer.len() && fewer[i] == other;
                    assert(all[i] == other);
                } else {
                    assert(all[n - 1] == other);
                }
            }
        }
    }
}

// ---- windows, suites, releases -----------------------------------------------------------------

/// A title goes to the further window with that content, to the first window where the content is
/// the root, and nowhere for any other.
pub proof fn a_title_goes_to_its_window(v: GtkView, content: u64, first: Option<u64>, at: int)
    ensures
        (forall|i: int| 0 <= i < v.windows.len() ==> (#[trigger] v.windows[i]).1 != content) ==> {
            &&& window_of(v.windows, content, 0) is None
            &&& v.root == Some(content) ==> titled(v, content, first) == first
            &&& v.root != Some(content) ==> titled(v, content, first) is None
        },
        0 <= at < v.windows.len() && v.windows[at].1 == content && (forall|i: int|
            0 <= i < at ==> (#[trigger] v.windows[i]).1 != content) ==> titled(v, content, first)
            == Some(v.windows[at].0),
{
    if forall|i: int| 0 <= i < v.windows.len() ==> (#[trigger] v.windows[i]).1 != content {
        no_window(v.windows, content, 0);
    }
    if 0 <= at < v.windows.len() && v.windows[at].1 == content && (forall|i: int|
        0 <= i < at ==> (#[trigger] v.windows[i]).1 != content) {
        a_window_at(v.windows, content, 0, at);
    }
}

proof fn no_window(windows: Pairs, content: u64, n: int)
    requires
        0 <= n,
        forall|i: int| n <= i < windows.len() ==> (#[trigger] windows[i]).1 != content,
    ensures
        window_of(windows, content, n) is None,
    decreases windows.len() - n,
{
    if n < windows.len() {
        no_window(windows, content, n + 1);
    }
}

proof fn a_window_at(windows: Pairs, content: u64, n: int, at: int)
    requires
        0 <= n <= at < windows.len(),
        windows[at].1 == content,
        forall|i: int| n <= i < at ==> (#[trigger] windows[i]).1 != content,
    ensures
        window_of(windows, content, n) == Some(windows[at].0),
    decreases at - n,
{
    if n < at {
        a_window_at(windows, content, n + 1, at);
    }
}

/// A menu under a suite becomes that suite's toggles: the nearest suite above it gets them, in its
/// own switcher and for its own stack, and no other host does. A menu under no suite stays a list.
pub proof fn a_suite_takes_the_nearest_menu(
    v: GtkView,
    child: u64,
    above: Seq<u64>,
    at: int,
    toggles: Seq<u64>,
    glyphs: Seq<Seq<char>>,
)
    requires
        v.menu_rows.contains_key(child),
        0 <= at < above.len(),
        v.navs.contains_key(above[at]),
        v.navs[above[at]].present is Suite,
        forall|i: int|
            0 <= i < at ==> !(v.navs.contains_key(#[trigger] above[i])
                && v.navs[above[i]].present is Suite),
    ensures
        ({
            let rows = v.menu_rows[child];
            &&& v.navs[above[at]].present matches Present::Suite { stack, switcher }
                ==> switched_acts(v, child, above, toggles, glyphs) == switcher_acts(
                rows,
                glyphs,
                switcher,
                stack,
                toggles,
            )
            &&& toggles_for(v, child, above) == rows.titles.len()
            &&& switched(v, child, above, toggles).navs[above[at]].toggles == toggles.subrange(
                0,
                rows.titles.len() as int,
            )
            &&& forall|other: u64|
                other != above[at] && v.navs.contains_key(other) ==> #[trigger] switched(
                    v,
                    child,
                    above,
                    toggles,
                ).navs[other] == v.navs[other]
        }),
{
    a_suite_at(v, above, 0, at);
}

proof fn a_suite_at(v: GtkView, above: Seq<u64>, n: int, at: int)
    requires
        0 <= n <= at < above.len(),
        v.navs.contains_key(above[at]),
        v.navs[above[at]].present is Suite,
        forall|i: int|
            n <= i < at ==> !(v.navs.contains_key(#[trigger] above[i])
                && v.navs[above[i]].present is Suite),
    ensures
        suite_above(v, above, n) == Some(above[at]),
    decreases at - n,
{
    if n < at {
        a_suite_at(v, above, n + 1, at);
    }
}

/// A widget that is released, with no window of its own: its tables are swept and its surface goes
/// with it, its context menu is taken off, and it leaves what holds it, last of all.
pub proof fn a_released_widget_leaves_its_holder(v: GtkView, w: u64, p: u64)
    requires
        v.windows.len() == 0,
        !v.menus.contains_key(w),
    ensures
        ({
            let surface: Seq<SpecAct> = if v.surfaces.contains(w) {
                seq![Act::DropSurface { w }]
            } else {
                Seq::empty()
            };
            let menu: Seq<SpecAct> = if v.popovers.contains(w) {
                seq![Act::Unparent { w }]
            } else {
                Seq::empty()
            };
            let swept = seq![SpecAct::Sweep { w }] + surface + menu;
            &&& release_acts(v, w, Home::Stack(p)) == swept + seq![
                SpecAct::StackRemove { w: p, child: w },
            ]
            &&& release_acts(v, w, Home::Fixed(p)) == swept + seq![
                SpecAct::Take { w: p, child: w },
            ]
            &&& release_acts(v, w, Home::Other) == swept
        }),
{
    let n = v.windows.len() as int;
    assert(crate::gtk::widgets::windows_acts(v, v.windows, w, n).len() == 0);
    let surface: Seq<SpecAct> = if v.surfaces.contains(w) {
        seq![Act::DropSurface { w }]
    } else {
        Seq::empty()
    };
    let menu: Seq<SpecAct> = if v.popovers.contains(w) {
        seq![Act::Unparent { w }]
    } else {
        Seq::empty()
    };
    let swept = seq![SpecAct::Sweep { w }] + surface + menu;
    assert(release_acts(v, w, Home::Stack(p)) =~= swept + seq![
        SpecAct::StackRemove { w: p, child: w },
    ]);
    assert(release_acts(v, w, Home::Fixed(p)) =~= swept + seq![SpecAct::Take { w: p, child: w }]);
    assert(release_acts(v, w, Home::Other) =~= swept);
}

/// A window that is resized tells the app its content's room, and each cover is sized to it and its
/// node told; a further window tells its own node alone.
pub proof fn a_resized_window_sizes_its_covers(
    covers: Seq<(u64, Target)>,
    width: i32,
    height: i32,
    header: i32,
    node: u64,
    k: int,
)
    requires
        0 <= k < covers.len(),
    ensures
        ({
            let bar = if header > 0 {
                header as int
            } else {
                47
            };
            let room = if height > bar {
                (height - bar) as i32
            } else {
                0
            };
            let made = resized_acts(covers, None, width, height, header);
            &&& resized_acts(covers, Some(node), width, height, header) == seq![
                SpecAct::Resized { to: Target::Node(node), width, height: room },
            ]
            &&& made.len() == 1 + 2 * covers.len()
            &&& made[0] == (SpecAct::Resized { to: Target::Window, width, height: room })
            &&& made[1 + 2 * k] == (SpecAct::SizeRequest { w: covers[k].0, width, height: room })
            &&& made[2 + 2 * k] == (SpecAct::Framed {
                to: covers[k].1,
                width: Extent::Px(width),
                height: room,
            })
        }),
{
    covers_sized(covers, width, content_height(height, header), covers.len() as int, k);
}

proof fn covers_sized(covers: Seq<(u64, Target)>, width: i32, room: i32, n: int, k: int)
    requires
        0 <= n <= covers.len(),
    ensures
        covers_acts(covers, width, room, n).len() == 2 * n,
        0 <= k < n ==> covers_acts(covers, width, room, n)[2 * k] == (SpecAct::SizeRequest {
            w: covers[k].0,
            width,
            height: room,
        }),
        0 <= k < n ==> covers_acts(covers, width, room, n)[2 * k + 1] == (SpecAct::Framed {
            to: covers[k].1,
            width: Extent::Px(width),
            height: room,
        }),
    decreases n,
{
    if n > 0 {
        covers_sized(covers, width, room, n - 1, k);
    }
}

} // verus!
