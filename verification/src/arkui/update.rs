//! Changes to pieces that have been built.
use crate::arkui::act::{act, acts, no_acts, one_act, Act, ArkAct, SpecAct};
use crate::arkui::looks::{
    apply_button_style, apply_font_attrs, argb, argb_of, button_look, font_attrs, font_vp,
    label_runs, points_of, set_label_runs, theme_color, themed, K_COLUMN,
};
use crate::arkui::menu::{
    bar_kinds, bar_nodes, build_nav_menu_rows, menu_nodes, retired, rows_acts, rows_kinds,
    with_rows,
};
use crate::arkui::nav::{page_taken, top_popped};
use crate::arkui::realize::{bar_filled, fill_acts, room_for_rows};
use crate::arkui::state::{ArkUi, ArkView};
use crate::arkui::suite::{select_acts, SuiteView};
use crate::model::{texts, Color, Event, NavPatch, Size, SpecEvent, Target};
use crate::num::Num;
use crate::pieces::{
    ButtonPatch, CoverPatch, LabelPatch, ListPatch, MenuRows, NavMenuPatch, Patch, PickerPatch,
    SliderPatch, TextAreaPatch, TextFieldPatch, TogglePatch,
};
use crate::rows::{gathered, RowSet};
use crate::table::{entry, found};
use crate::text::{join, join_with, owned};
use vstd::prelude::*;

verus! {

/// The bits of the number one.
pub const ONE: u64 = 0x3ff0_0000_0000_0000;

// ---- covers ------------------------------------------------------------------------------------

/// The memory after a cover was presented: where there is a window and it is not up already, it
/// stands on the root.
pub open spec fn cover_shown(v: ArkView, node: u64) -> ArkView {
    match v.root {
        Some((root, _, _)) => if !v.covers.contains_key(node) || v.presented.contains(node) {
            v
        } else {
            ArkView {
                cover_parents: v.cover_parents.insert(node, root),
                presented: v.presented.insert(node),
                ..v
            }
        },
        None => v,
    }
}

/// The calls that present a cover: it gets its background, leaves where it stood, and tops the
/// root at the window's size, which the app then hears.
pub open spec fn show_acts(v: ArkView, node: u64, background: Option<Color>) -> Seq<SpecAct> {
    match v.root {
        Some((root, width, height)) => if !v.covers.contains_key(node) || v.presented.contains(
            node,
        ) {
            Seq::empty()
        } else {
            let argb = match background {
                Some(c) => argb_of(c),
                None => themed(v.dark, 0xFFFF_FFFF, 0xFF1A_1A1C),
            };
            let parked = match entry(v.cover_parents, node) {
                Some(p) => p,
                None => root,
            };
            seq![
                Act::Background { node, argb },
                Act::Remove { parent: parked, child: node },
                Act::Add { parent: root, child: node },
                Act::FillWindow { node, width, height },
                Act::PostEmit {
                    to: Target::Node(v.covers[node]),
                    event: Event::FrameChanged(Size { width, height }),
                },
            ]
        },
        None => Seq::empty(),
    }
}

/// The memory after a cover was dismissed.
pub open spec fn cover_hidden(v: ArkView, node: u64) -> ArkView {
    if v.covers.contains_key(node) && v.presented.contains(node) {
        ArkView {
            presented: v.presented.remove(node),
            cover_parents: v.cover_parents.remove(node),
            ..v
        }
    } else {
        v
    }
}

/// The calls that dismiss a cover: where it is up it leaves the root, and in either case the app
/// hears that it is hidden.
pub open spec fn hide_acts(v: ArkView, node: u64) -> Seq<SpecAct> {
    if v.covers.contains_key(node) {
        let gone: Seq<SpecAct> = match entry(v.cover_parents, node) {
            Some(p) => if v.presented.contains(node) {
                seq![Act::Remove { parent: p, child: node }]
            } else {
                Seq::empty()
            },
            None => Seq::empty(),
        };
        gone.push(Act::PostEmit { to: Target::Node(v.covers[node]), event: Event::CoverHidden })
    } else {
        Seq::empty()
    }
}

/// Presenting a cover that is up already does nothing.
pub proof fn presenting_twice_is_nothing(v: ArkView, node: u64, background: Option<Color>)
    ensures
        cover_shown(cover_shown(v, node), node) == cover_shown(v, node),
        cover_shown(v, node) != v ==> show_acts(cover_shown(v, node), node, background) == Seq::<
            SpecAct,
        >::empty(),
{
    assert(cover_shown(cover_shown(v, node), node) =~= cover_shown(v, node));
}

/// Whatever happened to it before, a cover that is dismissed answers that it is hidden, as the
/// last thing it does.
pub proof fn dismissing_is_always_answered(v: ArkView, node: u64)
    requires
        v.covers.contains_key(node),
    ensures
        hide_acts(v, node).len() > 0,
        hide_acts(v, node).last() == (Act::<Seq<char>, SpecEvent>::PostEmit {
            to: Target::Node(v.covers[node]),
            event: Event::CoverHidden,
        }),
        !cover_hidden(v, node).presented.contains(node),
{
}

/// A cover that was presented and dismissed is as it was, but for the place it was parked at.
pub proof fn a_dismissed_cover_is_not_presented(v: ArkView, node: u64)
    requires
        !v.presented.contains(node),
    ensures
        cover_hidden(cover_shown(v, node), node).presented == v.presented,
{
    assert(cover_hidden(cover_shown(v, node), node).presented =~= v.presented);
}

impl ArkUi {
    fn present_cover(&mut self, node: u64, background: &Option<Color>) -> (out: Vec<ArkAct>)
        requires
            old(self)@.wf(),
        ensures
            final(self)@ == cover_shown(old(self)@, node),
            final(self)@.wf(),
            acts(out@) == show_acts(old(self)@, node, *background),
    {
        let ghost v = self@;
        let mut out = no_acts();
        let app = match found(&self.covers, node) {
            Some(app) => app,
            None => {
                return out;
            },
        };
        match self.root {
            Some((root, width, height)) => {
                if self.presented.has(node) {
                    return out;
                }
                let fill: u32 = match background {
                    Some(c) => argb(c),
                    None => theme_color(self.dark, 0xFFFF_FFFF, 0xFF1A_1A1C),
                };
                let parked = match found(&self.cover_parents, node) {
                    Some(p) => p,
                    None => root,
                };
                act(&mut out, Act::Background { node, argb: fill });
                act(&mut out, Act::Remove { parent: parked, child: node });
                act(&mut out, Act::Add { parent: root, child: node });
                act(&mut out, Act::FillWindow { node, width, height });
                act(
                    &mut out,
                    Act::PostEmit {
                        to: Target::Node(app),
                        event: Event::FrameChanged(Size { width, height }),
                    },
                );
                self.cover_parents.put(node, root);
                self.presented.put(node);
                proof {
                    assert(acts(out@) =~= show_acts(v, node, *background));
                    assert(self@ =~= cover_shown(v, node));
                }
                out
            },
            None => out,
        }
    }

    fn dismiss_cover(&mut self, node: u64) -> (out: Vec<ArkAct>)
        requires
            old(self)@.wf(),
        ensures
            final(self)@ == cover_hidden(old(self)@, node),
            final(self)@.wf(),
            acts(out@) == hide_acts(old(self)@, node),
    {
        let ghost v = self@;
        let mut out = no_acts();
        match found(&self.covers, node) {
            Some(app) => {
                if self.presented.drop(node) {
                    match self.cover_parents.take(node) {
                        Some(p) => act(&mut out, Act::Remove { parent: p, child: node }),
                        None => {},
                    }
                } else {
                    proof {
                        assert(v.presented.remove(node) =~= v.presented);
                    }
                }
                act(
                    &mut out,
                    Act::PostEmit { to: Target::Node(app), event: Event::CoverHidden },
                );
                proof {
                    assert(acts(out@) =~= hide_acts(v, node));
                    assert(self@ =~= cover_hidden(v, node));
                }
            },
            None => {},
        }
        out
    }
}

// ---- navigation --------------------------------------------------------------------------------

/// The memory after a change to the navigation host.
pub open spec fn nav_updated(v: ArkView, patch: NavPatch) -> ArkView {
    match patch {
        NavPatch::Pushed { .. } => ArkView { nav: page_taken(v.nav), ..v },
        NavPatch::Popped => ArkView { nav: top_popped(v.nav), ..v },
        NavPatch::Select(i) => match v.suite {
            Some(s) => ArkView { suite: Some(SuiteView { selected: i, ..s }), ..v },
            None => v,
        },
        _ => v,
    }
}

/// The calls for a change to the navigation host.
pub open spec fn nav_acts(v: ArkView, host: u64, patch: NavPatch) -> Seq<SpecAct> {
    match patch {
        NavPatch::Pushed { title } => if v.nav.attached.len() > 0 {
            let page = v.nav.attached.last();
            seq![
                Act::Remove { parent: host, child: page.0 },
                Act::NavPush { page: page.0, key: page.1, title: title@ },
            ]
        } else {
            Seq::empty()
        },
        NavPatch::Popped => if v.nav.stack.len() > 0 {
            seq![Act::NavPop]
        } else {
            Seq::empty()
        },
        NavPatch::Title(t) => seq![Act::NavTitle { title: t@ }],
        NavPatch::GuardTop(on) => seq![Act::NavGuard { on }],
        NavPatch::Select(i) => match v.suite {
            Some(s) => select_acts(v.dark, s, i),
            None => Seq::empty(),
        },
        _ => Seq::empty(),
    }
}

impl ArkUi {
    fn suite_select(&mut self, i: usize) -> (out: Vec<ArkAct>)
        requires
            old(self)@.wf(),
        ensures
            final(self)@ == nav_updated(old(self)@, NavPatch::Select(i)),
            final(self)@.wf(),
            acts(out@) == nav_acts(old(self)@, 0, NavPatch::Select(i)),
    {
        let ghost v = self@;
        match self.suite.take() {
            Some(mut s) => {
                let out = s.select(self.dark, i);
                self.suite = Some(s);
                proof {
                    assert(self@ =~= nav_updated(v, NavPatch::Select(i)));
                }
                out
            },
            None => {
                proof {
                    assert(self@ =~= v);
                }
                no_acts()
            },
        }
    }

    fn update_nav(&mut self, host: u64, patch: &NavPatch) -> (out: Vec<ArkAct>)
        requires
            old(self)@.wf(),
        ensures
            final(self)@ == nav_updated(old(self)@, *patch),
            final(self)@.wf(),
            acts(out@) == nav_acts(old(self)@, host, *patch),
    {
        let ghost v = self@;
        match patch {
            NavPatch::Pushed { title } => {
                let (_, out) = self.nav.begin_push(host, title.as_str());
                proof {
                    assert(self@ =~= nav_updated(v, *patch));
                }
                out
            },
            NavPatch::Popped => {
                let out = self.nav.pop();
                proof {
                    assert(self@ =~= nav_updated(v, *patch));
                }
                out
            },
            NavPatch::Title(t) => one_act(Act::NavTitle { title: owned(t.as_str()) }),
            NavPatch::GuardTop(on) => one_act(Act::NavGuard { on: *on }),
            NavPatch::Select(i) => self.suite_select(*i),
            NavPatch::Presentation(_) | NavPatch::ListVisible(_) | NavPatch::ListTitle(_)
            | NavPatch::ListInStack(_) => no_acts(),
        }
    }
}

// ---- menus -------------------------------------------------------------------------------------

/// The nodes a change takes: new rows for a menu, and for a bar where the rows make one.
pub open spec fn patch_kinds(v: ArkView, node: u64, patch: Patch) -> Seq<u32> {
    match patch {
        Patch::NavMenu(NavMenuPatch::Items { rows, .. }) => if v.menus.ids.contains_key(node) {
            let one: Seq<u32> = seq![K_COLUMN];
            one + rows_kinds(rows, rows.items@.len() as int) + (if v.suite is Some {
                bar_kinds(rows, rows.items@.len() as int)
            } else {
                Seq::empty()
            })
        } else {
            Seq::empty()
        },
        _ => Seq::empty(),
    }
}

/// The memory after a menu got other rows: the old rows answer no more.
pub open spec fn menu_updated(
    v: ArkView,
    node: u64,
    r: MenuRows,
    nodes: Seq<u64>,
    vectors: Seq<String>,
) -> ArkView {
    match entry(v.menus.ids, node) {
        Some(menu) => {
            let n = r.items@.len() as int;
            let quiet = ArkView { menus: retired(v.menus, menu), ..v };
            let from = 1 + rows_kinds(r, n).len() as int;
            let w = bar_filled(quiet, menu, r, nodes, from, vectors);
            ArkView {
                menus: with_rows(w.menus, menu, n),
                scroll_content: w.scroll_content.insert(node, nodes[0]),
                ..w
            }
        },
        None => v,
    }
}

/// The old column goes.
pub open spec fn column_gone(v: ArkView, node: u64) -> Seq<SpecAct> {
    match entry(v.scroll_content, node) {
        Some(old_col) => seq![
            Act::Remove { parent: node, child: old_col },
            Act::Dispose { node: old_col },
        ],
        None => Seq::empty(),
    }
}

/// The calls that give a menu other rows.
pub open spec fn menu_update_acts(
    v: ArkView,
    node: u64,
    r: MenuRows,
    nodes: Seq<u64>,
    vectors: Seq<String>,
) -> Seq<SpecAct> {
    match entry(v.menus.ids, node) {
        Some(menu) => {
            let n = r.items@.len() as int;
            let from = 1 + rows_kinds(r, n).len() as int;
            let quiet = ArkView { menus: retired(v.menus, menu), ..v };
            let w = bar_filled(quiet, menu, r, nodes, from, vectors);
            (fill_acts(quiet, r, nodes, from, vectors) + column_gone(v, node) + rows_acts(
                v.dark,
                r,
                n,
                nodes[0],
                nodes,
                1,
                w.menus.next,
                vectors,
            )).push(Act::Insert { parent: node, child: nodes[0], index: 0 })
        },
        None => Seq::empty(),
    }
}

impl ArkUi {
    /// The kinds of node to make for a change.
    pub fn wanted_for(&self, node: u64, patch: &Patch) -> (v: Vec<u32>)
        ensures
            v@ == patch_kinds(self@, node, *patch),
    {
        let mut v: Vec<u32> = Vec::new();
        match patch {
            Patch::NavMenu(NavMenuPatch::Items { rows, .. }) => {
                if self.menus.ids.has(node) {
                    v.push(K_COLUMN);
                    let mut more = menu_nodes(rows);
                    v.append(&mut more);
                    if self.suite.is_some() {
                        let mut entries = bar_nodes(rows);
                        v.append(&mut entries);
                    }
                }
            },
            _ => {},
        }
        proof {
            assert(v@ =~= patch_kinds(self@, node, *patch));
        }
        v
    }

    fn update_menu(
        &mut self,
        node: u64,
        r: &MenuRows,
        nodes: &Vec<u64>,
        vectors: &Vec<String>,
    ) -> (out: Vec<ArkAct>)
        requires
            old(self)@.wf(),
            room_for_rows(old(self)@, *r),
            nodes@.len() > 0 ==> nodes@[0] != node,
            old(self)@.menus.ids.contains_key(node) ==> nodes@.len() == 1 + rows_kinds(
                *r,
                r.items@.len() as int,
            ).len() + (if old(self)@.suite is Some {
                bar_kinds(*r, r.items@.len() as int).len() as int
            } else {
                0
            }),
        ensures
            final(self)@ == menu_updated(old(self)@, node, *r, nodes@, vectors@),
            final(self)@.wf(),
            acts(out@) == menu_update_acts(old(self)@, node, *r, nodes@, vectors@),
    {
        let ghost v = self@;
        let mut out = no_acts();
        let menu = match found(&self.menus.ids, node) {
            Some(menu) => menu,
            None => {
                return out;
            },
        };
        self.menus.retire(menu);
        let ghost quiet = self@;
        proof {
            assert(quiet =~= (ArkView { menus: retired(v.menus, menu), ..v }));
        }
        let rows = menu_nodes(r);
        assert(1 + rows.len() <= nodes.len());
        let from: usize = 1 + rows.len();
        self.suite_fill_bar(&mut out, menu, r, nodes, from, vectors);
        let ghost w = self@;
        let ghost a1 = fill_acts(quiet, *r, nodes@, from as int, vectors@);
        proof {
            assert(acts(out@) =~= a1);
        }
        match self.scroll_content.take(node) {
            Some(col) => {
                act(&mut out, Act::Remove { parent: node, child: col });
                act(&mut out, Act::Dispose { node: col });
            },
            None => {},
        }
        proof {
            assert(acts(out@) =~= a1 + column_gone(v, node));
        }
        let next = self.menus.next;
        let col = nodes[0];
        build_nav_menu_rows(&mut out, self.dark, r, col, nodes, 1, next, vectors);
        self.menus.number(menu, r.items.len());
        act(&mut out, Act::Insert { parent: node, child: col, index: 0 });
        self.scroll_content.put(node, col);
        proof {
            assert(w.scroll_content.remove(node).insert(node, col) =~= w.scroll_content.insert(
                node,
                col,
            ));
            assert(self@ =~= menu_updated(v, node, *r, nodes@, vectors@));
        }
        out
    }
}

// ---- single nodes ------------------------------------------------------------------------------

/// The calls for a change to a label.
pub open spec fn label_acts(node: u64, patch: LabelPatch) -> Seq<SpecAct> {
    match patch {
        LabelPatch::Text(t) => seq![Act::Text { node, text: t@ }],
        LabelPatch::Color(Some(c)) => seq![Act::FontColor { node, argb: argb_of(c) }],
        LabelPatch::Color(None) => Seq::empty(),
        LabelPatch::Font(f) => {
            let size: Seq<SpecAct> = seq![Act::FontSize { node, size: points_of(f.style) }];
            size + font_attrs(node, f)
        },
        LabelPatch::Runs(t, runs) => label_runs(node, t@, runs@),
    }
}

fn update_label(node: u64, patch: &LabelPatch) -> (out: Vec<ArkAct>)
    ensures
        acts(out@) == label_acts(node, *patch),
{
    match patch {
        LabelPatch::Text(t) => one_act(Act::Text { node, text: owned(t.as_str()) }),
        LabelPatch::Color(Some(c)) => one_act(Act::FontColor { node, argb: argb(c) }),
        LabelPatch::Color(None) => no_acts(),
        LabelPatch::Font(f) => {
            let mut out = one_act(Act::FontSize { node, size: font_vp(f) });
            apply_font_attrs(&mut out, node, f);
            out
        },
        LabelPatch::Runs(t, runs) => {
            let mut out = no_acts();
            set_label_runs(&mut out, node, t.as_str(), runs);
            proof {
                assert(acts(out@) =~= label_runs(node, t@, runs@));
            }
            out
        },
    }
}

/// The calls for a change to a button.
pub open spec fn button_acts(node: u64, patch: ButtonPatch) -> Seq<SpecAct> {
    match patch {
        ButtonPatch::Title(t) => seq![Act::ButtonLabel { node, text: t@ }],
        ButtonPatch::Style(look) => button_look(node, look),
        ButtonPatch::Enabled(_) => Seq::empty(),
    }
}

fn update_button(node: u64, patch: &ButtonPatch) -> (out: Vec<ArkAct>)
    ensures
        acts(out@) == button_acts(node, *patch),
{
    match patch {
        ButtonPatch::Title(t) => one_act(Act::ButtonLabel { node, text: owned(t.as_str()) }),
        ButtonPatch::Style(look) => {
            let mut out = no_acts();
            apply_button_style(&mut out, node, look);
            proof {
                assert(acts(out@) =~= button_look(node, *look));
            }
            out
        },
        ButtonPatch::Enabled(_) => no_acts(),
    }
}

/// The text a control is told, remembered so that the report of it is known for what it is.
pub open spec fn text_told(v: ArkView, node: u64, text: Seq<char>) -> ArkView {
    match entry(v.controls, node) {
        Some(id) => ArkView { text_echo: v.text_echo.insert(id, text), ..v },
        None => v,
    }
}

/// The value a slider is told, remembered so that the report of it is known for what it is.
pub open spec fn value_told(v: ArkView, node: u64, value: Num) -> ArkView {
    match entry(v.controls, node) {
        Some(id) => ArkView { slider_echo: v.slider_echo.insert(id, value), ..v },
        None => v,
    }
}

/// The range a slider's value is told on: its own, from zero to one where none is known.
pub open spec fn told_range(v: ArkView, node: u64) -> (Num, Num) {
    match entry(v.controls, node) {
        Some(id) => match v.range_of(id) {
            Some(r) => r,
            None => (Num { bits: 0 }, Num { bits: ONE }),
        },
        None => (Num { bits: 0 }, Num { bits: ONE }),
    }
}

/// The option a picker shows, where one is known.
pub open spec fn picked_option(v: ArkView, node: u64) -> Option<usize> {
    match entry(v.controls, node) {
        Some(id) => entry(v.picked, id),
        None => None,
    }
}

/// The option a picker is told, remembered for when its options change.
pub open spec fn option_told(v: ArkView, node: u64, i: usize) -> ArkView {
    match entry(v.controls, node) {
        Some(id) => ArkView { picked: v.picked.insert(id, i), ..v },
        None => v,
    }
}

/// The option a picker keeps when it gets others: the one it shows, or the last one where there
/// are fewer now.
pub open spec fn kept_option(v: ArkView, node: u64, count: nat) -> nat {
    let shown: nat = match picked_option(v, node) {
        Some(i) => i as nat,
        None => 0,
    };
    if count == 0 {
        0
    } else if shown >= count {
        (count - 1) as nat
    } else {
        shown
    }
}

/// A picker that gets other options shows one of them, and the one it showed where it still can.
pub proof fn a_picker_shows_one_of_its_options(v: ArkView, node: u64, count: nat)
    ensures
        count > 0 ==> kept_option(v, node, count) < count,
        picked_option(v, node) matches Some(i) ==> i < count ==> kept_option(v, node, count) == i,
{
}

impl ArkUi {
    fn tell_text(&mut self, node: u64, text: &str)
        requires
            old(self)@.wf(),
        ensures
            final(self)@ == text_told(old(self)@, node, text@),
            final(self)@.wf(),
    {
        match found(&self.controls, node) {
            Some(id) => self.text_echo.put(id, owned(text)),
            None => {},
        }
    }

    fn update_slider(&mut self, node: u64, value: Num) -> (out: Vec<ArkAct>)
        requires
            old(self)@.wf(),
        ensures
            final(self)@ == value_told(old(self)@, node, value),
            final(self)@.wf(),
            acts(out@) == seq![
                Act::<Seq<char>, SpecEvent>::Slider {
                    node,
                    value,
                    min: told_range(old(self)@, node).0,
                    max: told_range(old(self)@, node).1,
                },
            ],
    {
        let mut min = Num { bits: 0 };
        let mut max = Num { bits: ONE };
        match found(&self.controls, node) {
            Some(id) => {
                match self.ranges.get(id) {
                    Some(r) => {
                        min = r.0;
                        max = r.1;
                    },
                    None => {},
                }
                self.slider_echo.put(id, value);
            },
            None => {},
        }
        one_act(Act::Slider { node, value, min, max })
    }

    fn update_options(&mut self, node: u64, options: &Vec<String>) -> (out: Vec<ArkAct>)
        ensures
            final(self)@ == old(self)@,
            acts(out@) == seq![
                Act::<Seq<char>, SpecEvent>::Options {
                    node,
                    options: join(texts(options@), ';'),
                    selected: kept_option(old(self)@, node, options@.len()) as u32,
                },
            ],
    {
        let shown: usize = match found(&self.controls, node) {
            Some(id) => match self.picked.get(id) {
                Some(i) => *i,
                None => 0,
            },
            None => 0,
        };
        let kept: usize = if options.len() == 0 {
            0
        } else if shown >= options.len() {
            options.len() - 1
        } else {
            shown
        };
        one_act(
            Act::Options {
                node,
                options: join_with(options, ';'),
                selected: #[verifier::truncate]
                (kept as u32),
            },
        )
    }
}

// ---- lists -------------------------------------------------------------------------------------

/// The memory after a change to a list.
pub open spec fn list_updated(v: ArkView, node: u64, patch: ListPatch) -> ArkView {
    match patch {
        ListPatch::Reload | ListPatch::Splice => ArkView { reloads: v.reloads.insert(node), ..v },
        ListPatch::Selected(rows) => match entry(v.lists, node) {
            Some(id) => ArkView { list_selected: v.list_selected.insert(id, gathered(rows@)), ..v },
            None => v,
        },
        _ => v,
    }
}

/// The calls for a change to a list: a reload waits for the next turn, and one that is waiting
/// already stands for both.
pub open spec fn list_acts(v: ArkView, node: u64, patch: ListPatch) -> Seq<SpecAct> {
    match patch {
        ListPatch::Reload | ListPatch::Splice => if v.reloads.contains(node) {
            Seq::empty()
        } else {
            seq![Act::PostReload { node }]
        },
        ListPatch::ScrollToEnd => seq![Act::ListToEnd { node }],
        ListPatch::ScrollToRow(row) => seq![Act::ListToRow { node, row: row as u32 }],
        ListPatch::Selected(_) => if v.lists.contains_key(node) {
            seq![Act::ListPaint { node }]
        } else {
            Seq::empty()
        },
        ListPatch::RowSizeInvalidated(_) => Seq::empty(),
    }
}

/// However many changes ask for it, a list is reloaded once, and again only after that reload
/// has run.
pub proof fn reloads_are_gathered(v: ArkView, node: u64)
    ensures
        list_acts(list_updated(v, node, ListPatch::Reload), node, ListPatch::Splice) == Seq::<
            SpecAct,
        >::empty(),
        list_acts(
            reload_done(list_updated(v, node, ListPatch::Reload), node),
            node,
            ListPatch::Reload,
        ) == seq![Act::<Seq<char>, SpecEvent>::PostReload { node }],
{
}

/// The memory after a reload has run.
pub open spec fn reload_done(v: ArkView, node: u64) -> ArkView {
    ArkView { reloads: v.reloads.remove(node), ..v }
}

impl ArkUi {
    fn update_list(&mut self, node: u64, patch: &ListPatch) -> (out: Vec<ArkAct>)
        requires
            old(self)@.wf(),
        ensures
            final(self)@ == list_updated(old(self)@, node, *patch),
            final(self)@.wf(),
            acts(out@) == list_acts(old(self)@, node, *patch),
    {
        match patch {
            ListPatch::Reload | ListPatch::Splice => {
                if self.reloads.put(node) {
                    one_act(Act::PostReload { node })
                } else {
                    no_acts()
                }
            },
            ListPatch::ScrollToEnd => one_act(Act::ListToEnd { node }),
            ListPatch::ScrollToRow(row) => one_act(
                Act::ListToRow {
                    node,
                    row: #[verifier::truncate]
                    (*row as u32),
                },
            ),
            ListPatch::Selected(rows) => match found(&self.lists, node) {
                Some(id) => {
                    self.list_selected.put(id, RowSet::of(rows));
                    one_act(Act::ListPaint { node })
                },
                None => no_acts(),
            },
            ListPatch::RowSizeInvalidated(_) => no_acts(),
        }
    }

    /// The next turn came: the list is reloaded.
    pub fn reload(&mut self, node: u64) -> (out: Vec<ArkAct>)
        requires
            old(self)@.wf(),
        ensures
            final(self)@ == reload_done(old(self)@, node),
            final(self)@.wf(),
            acts(out@) == seq![Act::<Seq<char>, SpecEvent>::ListReload { node }],
    {
        self.reloads.drop(node);
        one_act(Act::ListReload { node })
    }
}

// ---- every change ------------------------------------------------------------------------------

/// The memory after a change to a piece.
pub open spec fn updated(
    v: ArkView,
    node: u64,
    patch: Patch,
    nodes: Seq<u64>,
    vectors: Seq<String>,
) -> ArkView {
    match patch {
        Patch::Nav(p) => nav_updated(v, p),
        Patch::NavMenu(NavMenuPatch::Items { rows, .. }) => menu_updated(v, node, rows, nodes, vectors),
        Patch::Cover(CoverPatch::Present { .. }) => cover_shown(v, node),
        Patch::Cover(CoverPatch::Dismiss) => cover_hidden(v, node),
        Patch::Slider(SliderPatch::Value(value)) => value_told(v, node, value),
        Patch::TextField(TextFieldPatch::Text { text, from_native }) => if from_native {
            v
        } else {
            text_told(v, node, text@)
        },
        Patch::TextArea(TextAreaPatch::SetText(text)) => text_told(v, node, text@),
        Patch::Picker(PickerPatch::Selected(i)) => option_told(v, node, i),
        Patch::List(p) => list_updated(v, node, p),
        _ => v,
    }
}

/// The calls for a change to a piece. A text the user typed is not written back under the caret.
pub open spec fn update_acts(
    v: ArkView,
    node: u64,
    patch: Patch,
    nodes: Seq<u64>,
    vectors: Seq<String>,
) -> Seq<SpecAct> {
    match patch {
        Patch::Nav(p) => nav_acts(v, node, p),
        Patch::Background(Some(c)) => seq![Act::Background { node, argb: argb_of(c) }],
        Patch::NavMenu(NavMenuPatch::Items { rows, .. }) => menu_update_acts(
            v,
            node,
            rows,
            nodes,
            vectors,
        ),
        Patch::Cover(CoverPatch::Present { background }) => show_acts(v, node, background),
        Patch::Cover(CoverPatch::Dismiss) => hide_acts(v, node),
        Patch::Label(p) => label_acts(node, p),
        Patch::Button(p) => button_acts(node, p),
        Patch::Toggle(TogglePatch::On(on)) => seq![Act::Toggle { node, on }],
        Patch::Slider(SliderPatch::Value(value)) => seq![
            Act::Slider { node, value, min: told_range(v, node).0, max: told_range(v, node).1 },
        ],
        Patch::TextField(TextFieldPatch::Text { text, from_native }) => if from_native {
            Seq::empty()
        } else {
            seq![Act::InputText { node, text: text@ }]
        },
        Patch::TextArea(TextAreaPatch::SetText(text)) => seq![Act::AreaText { node, text: text@ }],
        Patch::Picker(PickerPatch::Selected(i)) => seq![
            Act::SelectOption { node, index: i as u32 },
        ],
        Patch::Picker(PickerPatch::Options(options)) => seq![
            Act::Options {
                node,
                options: join(texts(options@), ';'),
                selected: kept_option(v, node, options@.len()) as u32,
            },
        ],
        Patch::Progress(Some(value)) => seq![Act::Progress { node, value }],
        Patch::List(p) => list_acts(v, node, p),
        _ => Seq::empty(),
    }
}

impl ArkUi {
    /// Changes a piece; `nodes` are the nodes the change takes.
    pub fn update(
        &mut self,
        node: u64,
        patch: &Patch,
        nodes: &Vec<u64>,
        vectors: &Vec<String>,
    ) -> (out: Vec<ArkAct>)
        requires
            old(self)@.wf(),
            nodes@.len() == patch_kinds(old(self)@, node, *patch).len(),
            nodes@.len() > 0 ==> nodes@[0] != node,
            patch matches Patch::NavMenu(NavMenuPatch::Items { rows, .. }) ==> room_for_rows(
                old(self)@,
                *rows,
            ),
        ensures
            final(self)@ == updated(old(self)@, node, *patch, nodes@, vectors@),
            final(self)@.wf(),
            acts(out@) == update_acts(old(self)@, node, *patch, nodes@, vectors@),
    {
        match patch {
            Patch::Nav(p) => self.update_nav(node, p),
            Patch::Background(Some(c)) => one_act(Act::Background { node, argb: argb(c) }),
            Patch::Background(None) => no_acts(),
            Patch::NavMenu(NavMenuPatch::Items { rows, .. }) => self.update_menu(
                node,
                rows,
                nodes,
                vectors,
            ),
            Patch::NavMenu(NavMenuPatch::Selected(_)) => no_acts(),
            Patch::Cover(CoverPatch::Present { background }) => self.present_cover(
                node,
                background,
            ),
            Patch::Cover(CoverPatch::Dismiss) => self.dismiss_cover(node),
            Patch::Cover(CoverPatch::DismissDisabled(_)) => no_acts(),
            Patch::Label(p) => update_label(node, p),
            Patch::Button(p) => update_button(node, p),
            Patch::Toggle(TogglePatch::On(on)) => one_act(Act::Toggle { node, on: *on }),
            Patch::Toggle(TogglePatch::Enabled(_)) => no_acts(),
            Patch::Slider(SliderPatch::Value(value)) => self.update_slider(node, *value),
            Patch::Slider(SliderPatch::Enabled(_)) => no_acts(),
            Patch::TextField(TextFieldPatch::Text { text, from_native }) => {
                if *from_native {
                    no_acts()
                } else {
                    self.tell_text(node, text.as_str());
                    one_act(Act::InputText { node, text: owned(text.as_str()) })
                }
            },
            Patch::TextField(_) => no_acts(),
            Patch::TextArea(TextAreaPatch::SetText(text)) => {
                self.tell_text(node, text.as_str());
                one_act(Act::AreaText { node, text: owned(text.as_str()) })
            },
            Patch::TextArea(_) => no_acts(),
            Patch::Picker(PickerPatch::Selected(i)) => {
                match found(&self.controls, node) {
                    Some(id) => {
                        self.picked.put(id, *i);
                    },
                    None => {},
                }
                one_act(
                    Act::SelectOption {
                        node,
                        index: #[verifier::truncate]
                        (*i as u32),
                    },
                )
            },
            Patch::Picker(PickerPatch::Options(options)) => self.update_options(node, options),
            Patch::Progress(Some(value)) => one_act(Act::Progress { node, value: *value }),
            Patch::Progress(None) => no_acts(),
            Patch::List(p) => self.update_list(node, p),
            Patch::Tint(_) => no_acts(),
        }
    }

    /// The platform answered a push: with a destination for the page, or with none, in which
    /// case the page goes back under the host.
    pub fn push_answered(&mut self, host: u64, page: u64, key: u64, mounted: bool) -> (out: Vec<
        ArkAct,
    >)
        requires
            old(self)@.wf(),
        ensures
            final(self)@.wf(),
            mounted ==> final(self)@ == (ArkView {
                nav: crate::arkui::nav::page_pushed(old(self)@.nav, page, key),
                ..old(self)@
            }) && acts(out@) == Seq::<SpecAct>::empty(),
            !mounted ==> final(self)@ == old(self)@ && acts(out@) == seq![
                Act::<Seq<char>, SpecEvent>::Add { parent: host, child: page },
            ],
    {
        let ghost v = self@;
        let out = self.nav.end_push(host, page, key, mounted);
        proof {
            if !mounted {
                assert(self@ =~= v);
            }
        }
        out
    }
}

} // verus!
