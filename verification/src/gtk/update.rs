//! Changes to pieces that have been built.
use crate::gtk::act::{
    act, act_all, acts, no_acts, one_act, Act, Extent, GtkAct, Later, Slack, SpecAct,
};
use crate::gtk::css::{style_acts, styled, surface_acts, surfaced};
use crate::gtk::labels::{label_acts, label_updated};
use crate::gtk::nav::nav_patch_acts;
use crate::gtk::rows::{freed_acts, list_filled, listed, rows_acts};
use crate::gtk::state::{Gtk, GtkView, Menu};
use crate::gtk::tree::{tree_updated, tree_work};
use crate::model::{texts, Color, Event, SpecEvent, Target};
use crate::pieces::{
    ButtonPatch, CoverPatch, ListPatch, NavMenuPatch, Patch, SliderPatch, TextFieldPatch,
    TogglePatch, TreePatch,
};
use crate::table::entry;
use crate::text::owned;
use vstd::prelude::*;

verus! {

/// What is around a widget when it changes: the container that holds it, the sizes of the first
/// window's content and of what wraps it, its classes, whether there is a display, and the names
/// that can be drawn.
pub struct Around {
    pub holder: Option<u64>,
    pub wrapper: Option<(i32, i32)>,
    pub content: (i32, i32),
    pub classes: Vec<String>,
    pub display: bool,
    pub glyphs: Vec<String>,
}

// ---- covers ------------------------------------------------------------------------------------

/// Whom a cover's events are for.
pub open spec fn cover_target(v: GtkView, w: u64) -> Target {
    match entry(v.cover_ids, w) {
        Some(id) => Target::Node(id),
        None => Target::Window,
    }
}

/// The size of a cover: what wraps the window's content, once that has a size, else the content.
pub open spec fn cover_size(a: Around) -> (i32, i32) {
    match a.wrapper {
        Some(s) => if s.0 > 0 && s.1 > 0 {
            s
        } else {
            a.content
        },
        None => a.content,
    }
}

/// The presented covers without one.
pub open spec fn covers_without(covers: Seq<(u64, Target)>, w: u64, n: int) -> Seq<(u64, Target)>
    decreases n,
{
    if n <= 0 {
        Seq::empty()
    } else if covers[n - 1].0 == w {
        covers_without(covers, w, n - 1)
    } else {
        covers_without(covers, w, n - 1).push(covers[n - 1])
    }
}

/// The memory after a change to a cover.
pub open spec fn cover_updated(v: GtkView, w: u64, patch: CoverPatch) -> GtkView {
    match patch {
        CoverPatch::Present { background } => {
            let painted = if background is Some {
                surfaced(v, w)
            } else {
                v
            };
            if v.root is Some {
                GtkView { covers: v.covers.push((w, cover_target(v, w))), ..painted }
            } else {
                painted
            }
        },
        CoverPatch::DismissDisabled(_) => v,
        CoverPatch::Dismiss => GtkView {
            covers: covers_without(v.covers, w, v.covers.len() as int),
            ..v
        },
    }
}

/// A cover leaves the container that holds it.
pub open spec fn left_acts(w: u64, a: Around) -> Seq<SpecAct> {
    match a.holder {
        Some(p) => seq![Act::Take { w: p, child: w }],
        None => Seq::empty(),
    }
}

/// The calls for a change to a cover. A presented one hides what is behind it, tops the first
/// window and is told its size; a dismissed one is gone at once, and says so.
pub open spec fn cover_acts(v: GtkView, w: u64, patch: CoverPatch, a: Around) -> Seq<SpecAct> {
    match patch {
        CoverPatch::Present { background } => {
            let painted = match background {
                Some(_) => surface_acts(v, w, background, None, false),
                None => seq![Act::AddClass { w, class: "background"@ }],
            };
            let size = cover_size(a);
            let shown: Seq<SpecAct> = match v.root {
                Some(root) => seq![
                    Act::Put { w: root, child: w },
                    Act::SizeRequest { w, width: size.0, height: size.1 },
                    Act::Visible { w, on: true },
                    Act::Framed { to: cover_target(v, w), width: Extent::Px(size.0), height: size.1 },
                ],
                None => Seq::empty(),
            };
            painted + left_acts(w, a) + shown
        },
        CoverPatch::DismissDisabled(_) => Seq::empty(),
        CoverPatch::Dismiss => {
            let hidden: Seq<SpecAct> = seq![Act::Visible { w, on: false }];
            (hidden + left_acts(w, a)).push(
                Act::Emit { to: cover_target(v, w), event: Event::CoverHidden },
            )
        },
    }
}

proof fn covers_without_members(covers: Seq<(u64, Target)>, w: u64, n: int)
    requires
        n <= covers.len(),
    ensures
        forall|i: int|
            0 <= i < covers_without(covers, w, n).len() ==> (#[trigger] covers_without(
                covers,
                w,
                n,
            )[i]).0 != w,
    decreases n,
{
    if n > 0 {
        covers_without_members(covers, w, n - 1);
        let d = covers_without(covers, w, n - 1);
        assert forall|i: int| 0 <= i < covers_without(covers, w, n).len() implies (
        #[trigger] covers_without(covers, w, n)[i]).0 != w by {
            if i < d.len() {
                assert(covers_without(covers, w, n)[i] == d[i]);
            }
        }
    }
}

/// A dismissed cover follows the window's size no more, and the last thing it does is to answer.
pub proof fn a_dismissed_cover_is_gone(v: GtkView, w: u64, a: Around)
    ensures
        ({
            let after = cover_updated(v, w, CoverPatch::Dismiss);
            &&& forall|i: int| 0 <= i < after.covers.len() ==> (#[trigger] after.covers[i]).0 != w
            &&& cover_acts(v, w, CoverPatch::Dismiss, a).last() == (Act::<
                Seq<char>,
                SpecEvent,
            >::Emit { to: cover_target(v, w), event: Event::CoverHidden })
        }),
{
    covers_without_members(v.covers, w, v.covers.len() as int);
}

impl Gtk {
    fn cover_node(&self, w: u64) -> (t: Target)
        ensures
            t == cover_target(self@, w),
    {
        match self.cover_ids.get(w) {
            Some(id) => Target::Node(*id),
            None => Target::Window,
        }
    }

    fn present_cover(&mut self, out: &mut Vec<GtkAct>, w: u64, background: &Option<Color>, a: &Around)
        ensures
            final(self)@ == cover_updated(
                old(self)@,
                w,
                CoverPatch::Present { background: *background },
            ),
            acts(final(out)@) == acts(old(out)@) + cover_acts(
                old(self)@,
                w,
                CoverPatch::Present { background: *background },
                *a,
            ),
    {
        let ghost v = self@;
        let ghost start = acts(out@);
        let to = self.cover_node(w);
        if background.is_some() {
            self.apply_surface(out, w, background, None, false);
        } else {
            act(out, Act::AddClass { w, class: owned("background") });
        }
        match a.holder {
            Some(p) => act(out, Act::Take { w: p, child: w }),
            None => {},
        }
        match self.root {
            Some(root) => {
                let (width, height) = match a.wrapper {
                    Some((x, y)) => if x > 0 && y > 0 {
                        (x, y)
                    } else {
                        a.content
                    },
                    None => a.content,
                };
                act(out, Act::Put { w: root, child: w });
                act(out, Act::SizeRequest { w, width, height });
                act(out, Act::Visible { w, on: true });
                self.covers.push((w, to));
                act(out, Act::Framed { to, width: Extent::Px(width), height });
            },
            None => {},
        }
        proof {
            let p = CoverPatch::Present { background: *background };
            assert(self@ =~= cover_updated(v, w, p));
            assert(acts(out@) =~= start + cover_acts(v, w, p, *a));
        }
    }

    fn update_cover(&mut self, out: &mut Vec<GtkAct>, w: u64, patch: &CoverPatch, a: &Around)
        ensures
            final(self)@ == cover_updated(old(self)@, w, *patch),
            acts(final(out)@) == acts(old(out)@) + cover_acts(old(self)@, w, *patch, *a),
    {
        let ghost v = self@;
        let ghost start = acts(out@);
        match patch {
            CoverPatch::Present { background } => self.present_cover(out, w, background, a),
            CoverPatch::DismissDisabled(_) => {},
            CoverPatch::Dismiss => {
                act(out, Act::Visible { w, on: false });
                match a.holder {
                    Some(p) => act(out, Act::Take { w: p, child: w }),
                    None => {},
                }
                let mut kept: Vec<(u64, Target)> = Vec::new();
                let mut i: usize = 0;
                while i < self.covers.len()
                    invariant
                        i <= self.covers.len(),
                        kept@ == covers_without(self.covers@, w, i as int),
                    decreases self.covers.len() - i,
                {
                    if self.covers[i].0 != w {
                        kept.push(self.covers[i]);
                    }
                    i = i + 1;
                }
                self.covers = kept;
                let to = self.cover_node(w);
                act(out, Act::Emit { to, event: Event::CoverHidden });
            },
        }
        proof {
            assert(self@ =~= cover_updated(v, w, *patch));
            assert(acts(out@) =~= start + cover_acts(v, w, *patch, *a));
        }
    }
}

// ---- menus -------------------------------------------------------------------------------------

/// The memory after a change to a navigation menu.
pub open spec fn menu_updated(v: GtkView, w: u64, patch: NavMenuPatch) -> GtkView {
    match entry(v.menus, w) {
        Some(m) => match patch {
            NavMenuPatch::Items { rows, .. } => {
                let filled = list_filled(v, m.listbox, rows);
                GtkView {
                    menus: filled.menus.insert(
                        w,
                        Menu { listbox: m.listbox, rows: rows.items@.len() as usize },
                    ),
                    ..filled
                }
            },
            NavMenuPatch::Selected(_) => v,
        },
        None => v,
    }
}

/// The calls for a change to a navigation menu: the context menus of the rows go before the rows,
/// the new rows come, and one is selected without a report.
pub open spec fn menu_patch_acts(v: GtkView, w: u64, patch: NavMenuPatch, glyphs: Seq<Seq<char>>) -> Seq<
    SpecAct,
> {
    match entry(v.menus, w) {
        Some(m) => match patch {
            NavMenuPatch::Items { rows, selected } => (freed_acts(v, m.listbox).push(
                Act::ClearRows { w: m.listbox },
            ) + rows_acts(m.listbox, rows, glyphs, rows.items@.len() as int)).push(
                Act::SelectRow { w: m.listbox, row: selected },
            ),
            NavMenuPatch::Selected(row) => seq![Act::SelectRow { w: m.listbox, row }],
        },
        None => Seq::empty(),
    }
}

impl Gtk {
    fn update_menu(
        &mut self,
        out: &mut Vec<GtkAct>,
        w: u64,
        patch: &NavMenuPatch,
        glyphs: &Vec<String>,
    )
        ensures
            final(self)@ == menu_updated(old(self)@, w, *patch),
            acts(final(out)@) == acts(old(out)@) + menu_patch_acts(
                old(self)@,
                w,
                *patch,
                texts(glyphs@),
            ),
    {
        let ghost v = self@;
        let ghost start = acts(out@);
        let list = match self.menus.get(w) {
            Some(m) => m.listbox,
            None => {
                proof {
                    assert(acts(out@) =~= start + menu_patch_acts(v, w, *patch, texts(glyphs@)));
                }
                return;
            },
        };
        match patch {
            NavMenuPatch::Items { rows, selected } => {
                self.unparent_nav_popovers(out, list);
                act(out, Act::ClearRows { w: list });
                let ghost before = self@;
                self.fill_nav_menu(out, list, rows, glyphs);
                proof {
                    assert(freed_acts(before, list) =~= Seq::<SpecAct>::empty());
                }
                self.menus.put(w, Menu { listbox: list, rows: rows.items.len() });
                act(out, Act::SelectRow { w: list, row: *selected });
                proof {
                    assert(v.row_popovers.remove(list).insert(list) =~= v.row_popovers.insert(
                        list,
                    ));
                    assert(v.row_popovers.remove(list).remove(list) =~= v.row_popovers.remove(
                        list,
                    ));
                }
            },
            NavMenuPatch::Selected(row) => act(out, Act::SelectRow { w: list, row: *row }),
        }
        proof {
            assert(self@ =~= menu_updated(v, w, *patch));
            assert(acts(out@) =~= start + menu_patch_acts(v, w, *patch, texts(glyphs@)));
        }
    }
}

// ---- every piece -------------------------------------------------------------------------------

/// The calls for a new tint of an image: its recolored picture, where that can be drawn, else the
/// picture as it is.
pub open spec fn tint_acts(v: GtkView, w: u64, tint: Option<Color>, glyphs: Seq<Seq<char>>) -> Seq<
    SpecAct,
> {
    match entry(v.images, w) {
        Some(source) => match tint {
            Some(c) => if glyphs.contains(source) {
                seq![Act::Tinted { w, source, tint: (c.r.cut, c.g.cut, c.b.cut) }]
            } else {
                seq![Act::PictureFile { w, source }]
            },
            None => seq![Act::PictureFile { w, source }],
        },
        None => Seq::empty(),
    }
}

/// The calls for a change to a list.
pub open spec fn list_patch_acts(v: GtkView, w: u64, patch: ListPatch) -> Seq<SpecAct> {
    match patch {
        ListPatch::Reload | ListPatch::Splice => if v.lists.contains(w) {
            seq![Act::Later { work: Later::ListResize(w) }]
        } else {
            Seq::empty()
        },
        ListPatch::ScrollToEnd => seq![Act::Later { work: Later::ListEnd(w) }],
        ListPatch::ScrollToRow(row) => seq![Act::Later { work: Later::ListRow(w, row) }],
        ListPatch::RowSizeInvalidated(_) | ListPatch::Selected(_) => Seq::empty(),
    }
}

/// The memory after a change.
pub open spec fn updated(v: GtkView, w: u64, patch: Patch, a: Around) -> GtkView {
    match patch {
        Patch::Background(_) => surfaced(v, w),
        Patch::Label(p) => label_updated(v, w, p),
        Patch::Button(ButtonPatch::Style(s)) => styled(v, s, a.display),
        Patch::Cover(p) => cover_updated(v, w, p),
        Patch::NavMenu(p) => menu_updated(v, w, p),
        _ => v,
    }
}

/// The calls for a change.
pub open spec fn update_acts(v: GtkView, w: u64, patch: Patch, a: Around) -> Seq<SpecAct> {
    match patch {
        Patch::Tint(c) => tint_acts(v, w, c, texts(a.glyphs@)),
        Patch::Background(c) => surface_acts(v, w, c, None, false),
        Patch::Label(p) => label_acts(v, w, p),
        Patch::Button(ButtonPatch::Title(t)) => seq![Act::Text { w, text: t@ }],
        Patch::Button(ButtonPatch::Enabled(on)) => seq![Act::Sensitive { w, on }],
        Patch::Button(ButtonPatch::Style(s)) => style_acts(v, w, s, texts(a.classes@), a.display),
        Patch::Toggle(TogglePatch::On(on)) => seq![Act::Active { w, on }],
        Patch::Toggle(TogglePatch::Enabled(on)) => seq![Act::Sensitive { w, on }],
        Patch::Slider(SliderPatch::Value(value)) => seq![
            Act::NearValue { w, value, slack: Slack::Thousandth },
        ],
        Patch::Slider(SliderPatch::Enabled(on)) => seq![Act::Sensitive { w, on }],
        Patch::TextField(TextFieldPatch::Text { text, from_native }) => if from_native {
            Seq::empty()
        } else {
            seq![Act::EntryText { w, text: text@ }]
        },
        Patch::TextField(TextFieldPatch::Placeholder(t)) => seq![Act::Placeholder { w, text: t@ }],
        Patch::TextField(TextFieldPatch::Enabled(on)) => seq![Act::Sensitive { w, on }],
        Patch::TextArea(_) => Seq::empty(),
        Patch::Picker(_) => Seq::empty(),
        Patch::Progress(Some(value)) => seq![
            Act::NearValue { w, value, slack: Slack::TenThousandth },
        ],
        Patch::Progress(None) => Seq::empty(),
        Patch::Nav(p) => nav_patch_acts(v, w, p),
        Patch::Cover(p) => cover_acts(v, w, p, a),
        Patch::NavMenu(p) => menu_patch_acts(v, w, p, texts(a.glyphs@)),
        Patch::List(p) => list_patch_acts(v, w, p),
    }
}

/// Text that came from a field is not set on it again.
pub proof fn typed_text_is_not_set_again(v: GtkView, w: u64, text: String, a: Around)
    ensures
        update_acts(
            v,
            w,
            Patch::TextField(TextFieldPatch::Text { text, from_native: true }),
            a,
        ) == Seq::<SpecAct>::empty(),
{
}

impl Gtk {
    fn update_tint(&self, out: &mut Vec<GtkAct>, w: u64, tint: &Option<Color>, glyphs: &Vec<String>)
        ensures
            acts(final(out)@) == acts(old(out)@) + tint_acts(self@, w, *tint, texts(glyphs@)),
    {
        let ghost start = acts(out@);
        match self.images.get(w) {
            Some(source) => {
                let source = source.as_str();
                match tint {
                    Some(c) => {
                        if listed(glyphs, source) {
                            act(
                                out,
                                Act::Tinted {
                                    w,
                                    source: owned(source),
                                    tint: (c.r.cut, c.g.cut, c.b.cut),
                                },
                            );
                        } else {
                            act(out, Act::PictureFile { w, source: owned(source) });
                        }
                    },
                    None => act(out, Act::PictureFile { w, source: owned(source) }),
                }
            },
            None => {},
        }
        proof {
            assert(acts(out@) =~= start + tint_acts(self@, w, *tint, texts(glyphs@)));
        }
    }

    fn update_list(&self, out: &mut Vec<GtkAct>, w: u64, patch: &ListPatch)
        ensures
            acts(final(out)@) == acts(old(out)@) + list_patch_acts(self@, w, *patch),
    {
        let ghost start = acts(out@);
        match patch {
            ListPatch::Reload | ListPatch::Splice => {
                if self.lists.has(w) {
                    act(out, Act::Later { work: Later::ListResize(w) });
                }
            },
            ListPatch::ScrollToEnd => act(out, Act::Later { work: Later::ListEnd(w) }),
            ListPatch::ScrollToRow(row) => act(out, Act::Later { work: Later::ListRow(w, *row) }),
            ListPatch::RowSizeInvalidated(_) | ListPatch::Selected(_) => {},
        }
        proof {
            assert(acts(out@) =~= start + list_patch_acts(self@, w, *patch));
        }
    }

    /// Changes a piece. Pickers and text areas change themselves.
    #[verifier::spinoff_prover]
    #[verifier::rlimit(40)]
    pub fn update(&mut self, w: u64, patch: Patch, a: &Around) -> (out: Vec<GtkAct>)
        ensures
            final(self)@ == updated(old(self)@, w, patch, *a),
            acts(out@) == update_acts(old(self)@, w, patch, *a),
    {
        let ghost v = self@;
        let ghost given = patch;
        let mut out = no_acts();
        match patch {
            Patch::Tint(c) => self.update_tint(&mut out, w, &c, &a.glyphs),
            Patch::Background(c) => self.apply_surface(&mut out, w, &c, None, false),
            Patch::Label(p) => self.update_label(&mut out, w, p),
            Patch::Button(ButtonPatch::Style(s)) => self.apply_button_style(
                &mut out,
                w,
                &s,
                &a.classes,
                a.display,
            ),
            Patch::Button(ButtonPatch::Title(text)) => act(&mut out, Act::Text { w, text }),
            Patch::Button(ButtonPatch::Enabled(on)) => act(&mut out, Act::Sensitive { w, on }),
            Patch::Toggle(TogglePatch::On(on)) => act(&mut out, Act::Active { w, on }),
            Patch::Toggle(TogglePatch::Enabled(on)) => act(&mut out, Act::Sensitive { w, on }),
            Patch::Slider(SliderPatch::Value(value)) => act(
                &mut out,
                Act::NearValue { w, value, slack: Slack::Thousandth },
            ),
            Patch::Slider(SliderPatch::Enabled(on)) => act(&mut out, Act::Sensitive { w, on }),
            Patch::TextField(TextFieldPatch::Text { text, from_native }) => {
                if !from_native {
                    act(&mut out, Act::EntryText { w, text });
                }
            },
            Patch::TextField(TextFieldPatch::Placeholder(text)) => act(
                &mut out,
                Act::Placeholder { w, text },
            ),
            Patch::TextField(TextFieldPatch::Enabled(on)) => act(&mut out, Act::Sensitive { w, on }),
            Patch::TextArea(_) => {},
            Patch::Picker(_) => {},
            Patch::Progress(Some(value)) => act(
                &mut out,
                Act::NearValue { w, value, slack: Slack::TenThousandth },
            ),
            Patch::Progress(None) => {},
            Patch::Nav(p) => {
                let more = self.update_nav(w, &p);
                act_all(&mut out, more);
            },
            Patch::Cover(p) => self.update_cover(&mut out, w, &p, a),
            Patch::NavMenu(p) => self.update_menu(&mut out, w, &p, &a.glyphs),
            Patch::List(p) => self.update_list(&mut out, w, &p),
        }
        proof {
            assert(self@ =~= updated(v, w, given, *a));
            assert(acts(out@) =~= update_acts(v, w, given, *a));
        }
        out
    }
}

// ---- trees -------------------------------------------------------------------------------------

/// The memory after a change to a tree.
pub open spec fn with_tree(v: GtkView, w: u64, patch: TreePatch) -> GtkView {
    match entry(v.trees, w) {
        Some(t) => GtkView { trees: v.trees.insert(w, tree_updated(t, patch)), ..v },
        None => v,
    }
}

/// The calls for a change to a tree: what it comes to is done on the idle loop.
pub open spec fn tree_acts(v: GtkView, w: u64, patch: TreePatch) -> Seq<SpecAct> {
    match entry(v.trees, w) {
        Some(_) => seq![Act::Later { work: tree_work(w, patch) }],
        None => Seq::empty(),
    }
}

impl Gtk {
    /// Changes a tree.
    pub fn update_tree(&mut self, w: u64, patch: TreePatch) -> (out: Vec<GtkAct>)
        ensures
            final(self)@ == with_tree(old(self)@, w, patch),
            acts(out@) == tree_acts(old(self)@, w, patch),
    {
        let ghost v = self@;
        match self.trees.take(w) {
            Some(mut t) => {
                let out = t.update(w, patch);
                self.trees.put(w, t);
                proof {
                    assert(self@ =~= GtkView {
                        trees: v.trees.insert(w, tree_updated(v.trees[w], patch)),
                        ..v
                    });
                }
                out
            },
            None => {
                proof {
                    assert(v.trees.remove(w) =~= v.trees);
                    assert(self@ =~= v);
                }
                no_acts()
            },
        }
    }

    /// A tree was given its source: its rows are built.
    pub fn attach_tree(&self, w: u64) -> (out: Vec<GtkAct>)
        ensures
            acts(out@) == (if self@.trees.contains_key(w) {
                seq![Act::<Seq<char>, SpecEvent>::Later { work: Later::TreeRebuild(w) }]
            } else {
                Seq::empty()
            }),
    {
        if self.trees.has(w) {
            one_act(Act::Later { work: Later::TreeRebuild(w) })
        } else {
            no_acts()
        }
    }

    /// A list was given its source: its rows are counted.
    pub fn attach_list(&self, w: u64) -> (out: Vec<GtkAct>)
        ensures
            acts(out@) == list_patch_acts(self@, w, ListPatch::Reload),
    {
        if self.lists.has(w) {
            one_act(Act::Later { work: Later::ListResize(w) })
        } else {
            no_acts()
        }
    }
}

} // verus!
