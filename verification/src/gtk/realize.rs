//! Building pieces: the widgets a piece takes, and how they are set up.
use crate::gtk::act::{act, acts, no_acts, Act, GtkAct, Justification, Policy, Signal, SpecAct};
use crate::gtk::canvas::HALF;
use crate::gtk::css::{
    rounding, scroll_rule, separator_rule, style_acts, styled, surface_acts, surfaced,
};
use crate::gtk::labels::{label_acts, label_updated, look_acts, look_of, tone_for};
use crate::gtk::rows::{list_acts, list_filled, listed};
use crate::gtk::state::{
    names, Gtk, GtkView, Inspector, InspectorView, Menu, NavEntry, NavView, Pane, Present,
    RowsView, SuiteRows,
};
use crate::gtk::text::{base, base_of, tone, LabelView, ONE};
use crate::gtk::tree::{TreeEntry, TreeView};
use crate::model::{texts, NavPresentation, SpecEvent, TextAlign, TextRole};
use crate::num::Num;
use crate::pieces::{
    ButtonProps, ContainerProps, ImageProps, LabelPatch, LabelProps, ListProps, MenuRows, Piece,
    SliderProps, TextFieldProps, ToggleProps,
};
use crate::text::{cat3, owned};
use vstd::prelude::*;

verus! {

/// A widget to make. A switcher is a row of toggles at the foot, a column holds its children one
/// below the other.
#[derive(Clone, Copy, Debug, PartialEq, Eq, Structural)]
pub enum Widget {
    Fixed,
    Split,
    Paned,
    Pages,
    Stack,
    Switcher,
    Column,
    ListBox,
    Scroller,
    Label,
    Button,
    Switch,
    Scale,
    Entry,
    Separator,
    Bar,
    Spinner,
    Area,
    ListView { selectable: bool, reorderable: bool },
    TreeView,
    Picture,
    Picker,
    TextArea,
}

/// How a host of this presentation is built; `paned` asks for a divider that can be dragged.
pub open spec fn present_of(
    p: NavPresentation,
    paned: bool,
    stack: u64,
    switcher: u64,
) -> Present {
    if p.chrome() {
        Present::Suite { stack, switcher }
    } else if p == NavPresentation::Split {
        if paned {
            Present::Paned
        } else {
            Present::Split
        }
    } else {
        Present::Stack
    }
}

/// The widgets a piece takes. The first stands for the piece.
pub open spec fn widgets_for(piece: Piece, paned: bool) -> Seq<Widget> {
    match piece {
        Piece::Container(_) => seq![Widget::Fixed],
        Piece::Label(_) => seq![Widget::Label],
        Piece::Button(_) => seq![Widget::Button],
        Piece::Toggle(_) => seq![Widget::Switch],
        Piece::Slider(_) => seq![Widget::Scale],
        Piece::TextField(_) => seq![Widget::Entry],
        Piece::TextArea(_) => seq![Widget::TextArea],
        Piece::Picker(_) => seq![Widget::Picker],
        Piece::Progress(Some(_)) => seq![Widget::Bar],
        Piece::Progress(None) => seq![Widget::Spinner],
        Piece::Image(_) => seq![Widget::Picture],
        Piece::Canvas => seq![Widget::Area],
        Piece::Scroll { .. } => seq![Widget::Scroller, Widget::Fixed],
        Piece::Divider => seq![Widget::Separator],
        Piece::Nav { presentation, .. } => if presentation.chrome() {
            seq![Widget::Column, Widget::Stack, Widget::Switcher]
        } else if presentation == NavPresentation::Split {
            if paned {
                seq![Widget::Paned]
            } else {
                seq![Widget::Split]
            }
        } else {
            seq![Widget::Pages]
        },
        Piece::NavPage { .. } => seq![Widget::Fixed],
        Piece::Cover => seq![Widget::Fixed],
        Piece::NavMenu { .. } => seq![Widget::Scroller, Widget::ListBox],
        Piece::List(p) => seq![
            Widget::Scroller,
            Widget::ListView { selectable: p.selectable, reorderable: p.reorderable },
        ],
        Piece::Mismatched(_) => seq![Widget::Label],
        Piece::Unrendered(_) => seq![Widget::Label],
    }
}

fn one(w: Widget) -> (v: Vec<Widget>)
    ensures
        v@ == seq![w],
{
    let mut v: Vec<Widget> = Vec::new();
    v.push(w);
    v
}

fn two(a: Widget, b: Widget) -> (v: Vec<Widget>)
    ensures
        v@ == seq![a, b],
{
    let mut v = one(a);
    v.push(b);
    proof {
        assert(v@ =~= seq![a, b]);
    }
    v
}

fn nav_widgets(p: NavPresentation, paned: bool) -> (v: Vec<Widget>)
    ensures
        v@ == (if p.chrome() {
            seq![Widget::Column, Widget::Stack, Widget::Switcher]
        } else if p == NavPresentation::Split {
            if paned {
                seq![Widget::Paned]
            } else {
                seq![Widget::Split]
            }
        } else {
            seq![Widget::Pages]
        }),
{
    if p.rows_are_chrome() {
        let mut v = two(Widget::Column, Widget::Stack);
        v.push(Widget::Switcher);
        proof {
            assert(v@ =~= seq![Widget::Column, Widget::Stack, Widget::Switcher]);
        }
        v
    } else {
        match p {
            NavPresentation::Split => if paned {
                one(Widget::Paned)
            } else {
                one(Widget::Split)
            },
            _ => one(Widget::Pages),
        }
    }
}

/// The widgets to make for a piece.
pub fn wanted(piece: &Piece, paned: bool) -> (v: Vec<Widget>)
    ensures
        v@ == widgets_for(*piece, paned),
{
    match piece {
        Piece::Container(_) => one(Widget::Fixed),
        Piece::Label(_) => one(Widget::Label),
        Piece::Button(_) => one(Widget::Button),
        Piece::Toggle(_) => one(Widget::Switch),
        Piece::Slider(_) => one(Widget::Scale),
        Piece::TextField(_) => one(Widget::Entry),
        Piece::TextArea(_) => one(Widget::TextArea),
        Piece::Picker(_) => one(Widget::Picker),
        Piece::Progress(Some(_)) => one(Widget::Bar),
        Piece::Progress(None) => one(Widget::Spinner),
        Piece::Image(_) => one(Widget::Picture),
        Piece::Canvas => one(Widget::Area),
        Piece::Scroll { .. } => two(Widget::Scroller, Widget::Fixed),
        Piece::Divider => one(Widget::Separator),
        Piece::Nav { presentation, .. } => nav_widgets(*presentation, paned),
        Piece::NavPage { .. } => one(Widget::Fixed),
        Piece::Cover => one(Widget::Fixed),
        Piece::NavMenu { .. } => two(Widget::Scroller, Widget::ListBox),
        Piece::List(p) => two(
            Widget::Scroller,
            Widget::ListView { selectable: p.selectable, reorderable: p.reorderable },
        ),
        Piece::Mismatched(_) => one(Widget::Label),
        Piece::Unrendered(_) => one(Widget::Label),
    }
}

// ---- plain pieces ------------------------------------------------------------------------------

/// Whether a container has a surface of its own.
pub open spec fn has_surface(p: ContainerProps) -> bool {
    p.background is Some || p.corner_radius.num.positive() || p.clips
}

pub open spec fn container_acts(v: GtkView, w: u64, p: ContainerProps) -> Seq<SpecAct> {
    if p.card {
        seq![Act::AddClass { w, class: "card"@ }]
    } else if has_surface(p) {
        surface_acts(v, w, p.background, rounding(Some(p.corner_radius)), p.clips)
    } else {
        Seq::empty()
    }
}

pub open spec fn button_acts(v: GtkView, w: u64, id: u64, p: ButtonProps, display: bool) -> Seq<
    SpecAct,
> {
    let face: Seq<SpecAct> = seq![Act::Text { w, text: p.title@ }];
    (face + style_acts(v, w, p.style, Seq::empty(), display)).push(
        Act::Wire { w, signal: Signal::Clicked, id },
    ).push(Act::Wire { w, signal: Signal::Focus, id })
}

pub open spec fn toggle_acts(w: u64, id: u64, p: ToggleProps) -> Seq<SpecAct> {
    seq![
        Act::Active { w, on: p.on },
        Act::Sensitive { w, on: p.enabled },
        Act::Wire { w, signal: Signal::Active, id },
        Act::Wire { w, signal: Signal::Focus, id },
    ]
}

pub open spec fn slider_acts(w: u64, id: u64, p: SliderProps) -> Seq<SpecAct> {
    seq![
        Act::Range {
            w,
            min: p.min.num,
            max: p.max.num,
            step: match p.step {
                Some(s) => Some(s.num),
                None => None,
            },
        },
        Act::Value { w, value: p.value },
        Act::Wire { w, signal: Signal::Value, id },
        Act::Wire { w, signal: Signal::Settled, id },
        Act::Wire { w, signal: Signal::Focus, id },
    ]
}

pub open spec fn field_acts(w: u64, id: u64, p: TextFieldProps) -> Seq<SpecAct> {
    seq![
        Act::EntryText { w, text: p.text@ },
        Act::Placeholder { w, text: p.placeholder@ },
        Act::Wire { w, signal: Signal::Text, id },
        Act::Wire { w, signal: Signal::Activate, id },
        Act::Wire { w, signal: Signal::Focus, id },
    ]
}

pub open spec fn canvas_acts(w: u64, id: u64) -> Seq<SpecAct> {
    seq![
        Act::Focusable { w },
        Act::Wire { w, signal: Signal::Focus, id },
        Act::Wire { w, signal: Signal::Key, id },
    ]
}

pub open spec fn scroll_acts(v: GtkView, nodes: Seq<u64>, horizontal: bool) -> Seq<SpecAct> {
    let w = nodes[0];
    let set: Seq<SpecAct> = seq![
        Act::Policy {
            w,
            policy: if horizontal {
                Policy::Horizontal
            } else {
                Policy::Vertical
            },
        },
        Act::SetChild { w, child: nodes[1] },
    ];
    let rule: Seq<SpecAct> = if v.scroll_css {
        Seq::empty()
    } else {
        seq![Act::Css { css: scroll_rule() }]
    };
    (set + rule).push(Act::AddClass { w, class: "day-scroll"@ })
}

pub open spec fn list_piece_acts(v: GtkView, nodes: Seq<u64>, id: u64, p: ListProps, display: bool) -> Seq<
    SpecAct,
> {
    let w = nodes[0];
    let rows = nodes[1];
    let picked: Seq<SpecAct> = if p.selectable {
        seq![Act::Wire { w: rows, signal: Signal::Selected, id }]
    } else {
        Seq::empty()
    };
    let rule: Seq<SpecAct> = if p.separators == Some(true) && !v.separator_css && display {
        seq![Act::Css { css: separator_rule() }]
    } else {
        Seq::empty()
    };
    let lined: Seq<SpecAct> = if p.separators == Some(true) {
        seq![Act::AddClass { w: rows, class: "day-separators"@ }]
    } else {
        Seq::empty()
    };
    let set: Seq<SpecAct> = seq![
        Act::Policy { w, policy: Policy::Vertical },
        Act::SetChild { w, child: rows },
    ];
    let moved: Seq<SpecAct> = if p.reorderable {
        seq![Act::Wire { w: rows, signal: Signal::Reorder, id }]
    } else {
        Seq::empty()
    };
    picked + rule + lined + set + moved
}

pub open spec fn image_acts(w: u64, p: ImageProps, glyphs: Seq<Seq<char>>) -> Seq<SpecAct> {
    seq![
        Act::Fit { w, mode: p.content_mode },
        match p.tint {
            Some(c) => if glyphs.contains(p.source@) {
                Act::Tinted { w, source: p.source@, tint: (c.r.cut, c.g.cut, c.b.cut) }
            } else {
                Act::Picture { w, source: p.source@ }
            },
            None => Act::Picture { w, source: p.source@ },
        },
    ]
}

/// The stand-in for a piece that cannot be built: a label with the piece's kind.
pub open spec fn placeholder_act(w: u64, kind: Seq<char>) -> SpecAct {
    Act::Text { w, text: "⟨"@ + kind + "⟩"@ }
}

fn placeholder_label(out: &mut Vec<GtkAct>, w: u64, kind: &str)
    ensures
        acts(final(out)@) == acts(old(out)@).push(placeholder_act(w, kind@)),
{
    act(out, Act::Text { w, text: cat3("⟨", kind, "⟩") });
}

fn build_toggle(out: &mut Vec<GtkAct>, w: u64, id: u64, p: &ToggleProps)
    ensures
        acts(final(out)@) == acts(old(out)@) + toggle_acts(w, id, *p),
{
    let ghost start = acts(out@);
    act(out, Act::Active { w, on: p.on });
    act(out, Act::Sensitive { w, on: p.enabled });
    act(out, Act::Wire { w, signal: Signal::Active, id });
    act(out, Act::Wire { w, signal: Signal::Focus, id });
    proof {
        assert(acts(out@) =~= start + toggle_acts(w, id, *p));
    }
}

fn build_slider(out: &mut Vec<GtkAct>, w: u64, id: u64, p: &SliderProps)
    ensures
        acts(final(out)@) == acts(old(out)@) + slider_acts(w, id, *p),
{
    let ghost start = acts(out@);
    let step: Option<Num> = match &p.step {
        Some(s) => Some(s.num),
        None => None,
    };
    act(out, Act::Range { w, min: p.min.num, max: p.max.num, step });
    act(out, Act::Value { w, value: p.value });
    act(out, Act::Wire { w, signal: Signal::Value, id });
    act(out, Act::Wire { w, signal: Signal::Settled, id });
    act(out, Act::Wire { w, signal: Signal::Focus, id });
    proof {
        assert(acts(out@) =~= start + slider_acts(w, id, *p));
    }
}

fn build_field(out: &mut Vec<GtkAct>, w: u64, id: u64, p: &TextFieldProps)
    ensures
        acts(final(out)@) == acts(old(out)@) + field_acts(w, id, *p),
{
    let ghost start = acts(out@);
    act(out, Act::EntryText { w, text: owned(p.text.as_str()) });
    act(out, Act::Placeholder { w, text: owned(p.placeholder.as_str()) });
    act(out, Act::Wire { w, signal: Signal::Text, id });
    act(out, Act::Wire { w, signal: Signal::Activate, id });
    act(out, Act::Wire { w, signal: Signal::Focus, id });
    proof {
        assert(acts(out@) =~= start + field_acts(w, id, *p));
    }
}

impl Gtk {
    fn build_container(&mut self, out: &mut Vec<GtkAct>, w: u64, p: &ContainerProps)
        ensures
            final(self)@ == (if !p.card && has_surface(*p) {
                surfaced(old(self)@, w)
            } else {
                old(self)@
            }),
            acts(final(out)@) == acts(old(out)@) + container_acts(old(self)@, w, *p),
    {
        let ghost start = acts(out@);
        let ghost v = self@;
        if p.card {
            act(out, Act::AddClass { w, class: owned("card") });
        } else if p.background.is_some() || p.corner_radius.num.is_positive() || p.clips {
            self.apply_surface(out, w, &p.background, Some(&p.corner_radius), p.clips);
        }
        proof {
            assert(acts(out@) =~= start + container_acts(v, w, *p));
        }
    }

    fn build_button(
        &mut self,
        out: &mut Vec<GtkAct>,
        w: u64,
        id: u64,
        p: &ButtonProps,
        display: bool,
    )
        ensures
            final(self)@ == styled(old(self)@, p.style, display),
            acts(final(out)@) == acts(old(out)@) + button_acts(old(self)@, w, id, *p, display),
    {
        let ghost start = acts(out@);
        let ghost v = self@;
        act(out, Act::Text { w, text: owned(p.title.as_str()) });
        let classes: Vec<String> = Vec::new();
        proof {
            assert(texts(classes@) =~= Seq::<Seq<char>>::empty());
        }
        self.apply_button_style(out, w, &p.style, &classes, display);
        act(out, Act::Wire { w, signal: Signal::Clicked, id });
        act(out, Act::Wire { w, signal: Signal::Focus, id });
        proof {
            assert(acts(out@) =~= start + button_acts(v, w, id, *p, display));
        }
    }

    fn build_scroll(&mut self, out: &mut Vec<GtkAct>, nodes: &Vec<u64>, horizontal: bool)
        requires
            nodes.len() >= 2,
        ensures
            final(self)@ == (GtkView { scroll_css: true, ..old(self)@ }),
            acts(final(out)@) == acts(old(out)@) + scroll_acts(old(self)@, nodes@, horizontal),
    {
        let ghost start = acts(out@);
        let ghost v = self@;
        let w = nodes[0];
        let policy = if horizontal {
            Policy::Horizontal
        } else {
            Policy::Vertical
        };
        act(out, Act::Policy { w, policy });
        act(out, Act::SetChild { w, child: nodes[1] });
        self.scroll_transparent_css(out);
        act(out, Act::AddClass { w, class: owned("day-scroll") });
        proof {
            assert(acts(out@) =~= start + scroll_acts(v, nodes@, horizontal));
        }
    }

    fn build_list(
        &mut self,
        out: &mut Vec<GtkAct>,
        nodes: &Vec<u64>,
        id: u64,
        p: &ListProps,
        display: bool,
    )
        requires
            nodes.len() >= 2,
        ensures
            final(self)@ == (GtkView {
                lists: old(self)@.lists.insert(nodes@[0]),
                separator_css: old(self)@.separator_css || (p.separators == Some(true) && display),
                ..old(self)@
            }),
            acts(final(out)@) == acts(old(out)@) + list_piece_acts(
                old(self)@,
                nodes@,
                id,
                *p,
                display,
            ),
    {
        let ghost start = acts(out@);
        let ghost v = self@;
        let w = nodes[0];
        let rows = nodes[1];
        if p.selectable {
            act(out, Act::Wire { w: rows, signal: Signal::Selected, id });
        }
        let lined = match p.separators {
            Some(on) => on,
            None => false,
        };
        if lined {
            self.separator_lines_css(out, display);
            act(out, Act::AddClass { w: rows, class: owned("day-separators") });
        }
        act(out, Act::Policy { w, policy: Policy::Vertical });
        act(out, Act::SetChild { w, child: rows });
        if p.reorderable {
            act(out, Act::Wire { w: rows, signal: Signal::Reorder, id });
        }
        self.lists.put(w);
        proof {
            assert(acts(out@) =~= start + list_piece_acts(v, nodes@, id, *p, display));
            assert(self@ =~= GtkView {
                lists: v.lists.insert(nodes@[0]),
                separator_css: v.separator_css || (p.separators == Some(true) && display),
                ..v
            });
        }
    }

    fn build_image(&mut self, out: &mut Vec<GtkAct>, w: u64, p: &ImageProps, glyphs: &Vec<String>)
        ensures
            final(self)@ == (GtkView {
                images: old(self)@.images.insert(w, p.source@),
                ..old(self)@
            }),
            acts(final(out)@) == acts(old(out)@) + image_acts(w, *p, texts(glyphs@)),
    {
        let ghost start = acts(out@);
        let ghost v = self@;
        act(out, Act::Fit { w, mode: p.content_mode });
        self.images.put(w, owned(p.source.as_str()));
        match &p.tint {
            Some(c) => {
                if listed(glyphs, p.source.as_str()) {
                    act(
                        out,
                        Act::Tinted {
                            w,
                            source: owned(p.source.as_str()),
                            tint: (c.r.cut, c.g.cut, c.b.cut),
                        },
                    );
                } else {
                    act(out, Act::Picture { w, source: owned(p.source.as_str()) });
                }
            },
            None => act(out, Act::Picture { w, source: owned(p.source.as_str()) }),
        }
        proof {
            assert(acts(out@) =~= start + image_acts(w, *p, texts(glyphs@)));
            assert(self@ =~= GtkView { images: v.images.insert(w, p.source@), ..v });
        }
    }
}

// ---- labels ------------------------------------------------------------------------------------

/// The look a new label starts with.
pub open spec fn first_look(v: GtkView, w: u64, p: LabelProps) -> LabelView {
    LabelView { base: base_of(p.font), tone: tone_for(p.color), ..look_of(v, w) }
}

/// The memory with a new label, before its runs.
pub open spec fn label_begun(v: GtkView, w: u64, p: LabelProps) -> GtkView {
    GtkView { labels: v.labels.insert(w, first_look(v, w, p)), ..v }
}

/// The memory with a new label.
pub open spec fn label_made(v: GtkView, w: u64, p: LabelProps) -> GtkView {
    label_updated(label_begun(v, w, p), w, LabelPatch::Runs(p.text, p.runs))
}

/// Where a label's block of text is placed across its room: at the left, half way or at the right.
pub open spec fn across(align: TextAlign) -> Num {
    match align {
        TextAlign::Leading => Num { bits: 0 },
        TextAlign::Center => Num { bits: HALF },
        TextAlign::Trailing => Num { bits: ONE },
    }
}

/// How a label's lines are aligned against each other: as the block is.
pub open spec fn justified(align: TextAlign) -> Justification {
    match align {
        TextAlign::Leading => Justification::Left,
        TextAlign::Center => Justification::Center,
        TextAlign::Trailing => Justification::Right,
    }
}

/// The calls that align a label's text: its block, its lines, and the block at the top.
pub open spec fn aligned_acts(w: u64, align: TextAlign) -> Seq<SpecAct> {
    seq![
        Act::AlignAcross { w, at: across(align) },
        Act::Justify { w, lines: justified(align) },
        Act::AlignDown { w, at: Num { bits: 0 } },
    ]
}

fn align_label(out: &mut Vec<GtkAct>, w: u64, align: TextAlign)
    ensures
        acts(final(out)@) == acts(old(out)@) + aligned_acts(w, align),
{
    let ghost start = acts(out@);
    let (at, lines) = match align {
        TextAlign::Leading => (Num { bits: 0 }, Justification::Left),
        TextAlign::Center => (Num { bits: HALF }, Justification::Center),
        TextAlign::Trailing => (Num { bits: ONE }, Justification::Right),
    };
    act(out, Act::AlignAcross { w, at });
    act(out, Act::Justify { w, lines });
    act(out, Act::AlignDown { w, at: Num { bits: 0 } });
    proof {
        assert(acts(out@) =~= start + aligned_acts(w, align));
    }
}

/// The calls that set up a label.
pub open spec fn new_label_acts(v: GtkView, w: u64, id: u64, p: LabelProps) -> Seq<SpecAct> {
    let shown: Seq<SpecAct> = seq![Act::Text { w, text: p.text@ }];
    let set = (shown + aligned_acts(w, p.align)).push(Act::Wrap { w, on: p.wraps });
    let soft: Seq<SpecAct> = if p.role == TextRole::Secondary {
        seq![Act::AddClass { w, class: "dim-label"@ }]
    } else {
        Seq::empty()
    };
    (set + look_acts(w, first_look(v, w, p)) + soft + label_acts(
        label_begun(v, w, p),
        w,
        LabelPatch::Runs(p.text, p.runs),
    )).push(Act::Wire { w, signal: Signal::Link, id })
}

impl Gtk {
    fn build_label(&mut self, out: &mut Vec<GtkAct>, w: u64, id: u64, p: LabelProps)
        ensures
            final(self)@ == label_made(old(self)@, w, p),
            acts(final(out)@) == acts(old(out)@) + new_label_acts(old(self)@, w, id, p),
    {
        let ghost start = acts(out@);
        let ghost v = self@;
        act(out, Act::Text { w, text: owned(p.text.as_str()) });
        align_label(out, w, p.align);
        act(out, Act::Wrap { w, on: p.wraps });
        let ghost a1 = acts(out@);
        self.style_label(out, w, &p.font, &p.color);
        proof {
            assert(self@ == label_begun(v, w, p));
        }
        match p.role {
            TextRole::Secondary => act(out, Act::AddClass { w, class: owned("dim-label") }),
            TextRole::Primary => {},
        }
        self.update_label(out, w, LabelPatch::Runs(p.text, p.runs));
        act(out, Act::Wire { w, signal: Signal::Link, id });
        proof {
            assert(acts(out@) =~= start + new_label_acts(v, w, id, p));
        }
    }
}

// ---- navigation --------------------------------------------------------------------------------

/// The memory with a new navigation host.
pub open spec fn nav_made(v: GtkView, nodes: Seq<u64>, p: NavPresentation, paned: bool) -> GtkView {
    GtkView {
        navs: v.navs.insert(
            nodes[0],
            NavView {
                present: present_of(p, paned, nodes[1], nodes[2]),
                split: !p.chrome() && p == NavPresentation::Split,
                pages: Seq::empty(),
                toggles: Seq::empty(),
            },
        ),
        ..v
    }
}

/// The calls that set up a navigation host.
pub open spec fn nav_acts(nodes: Seq<u64>, id: u64, p: NavPresentation, paned: bool, standard: Num) -> Seq<
    SpecAct,
> {
    let w = nodes[0];
    if p.chrome() {
        seq![Act::Append { w, child: nodes[1] }, Act::Append { w, child: nodes[2] }]
    } else if p == NavPresentation::Split {
        if paned {
            seq![
                Act::PanedPosition { w, position: standard },
                Act::Wire { w, signal: Signal::Position, id },
            ]
        } else {
            seq![
                Act::SidebarWidth { w, width: standard, pinned: false },
                Act::ShowSidebar { w, on: true },
                Act::Wire { w, signal: Signal::SidebarShown, id },
            ]
        }
    } else {
        seq![Act::Wire { w, signal: Signal::Popped, id }]
    }
}

/// The memory with a new navigation menu.
pub open spec fn menu_made(v: GtkView, nodes: Seq<u64>, id: u64, rows: MenuRows) -> GtkView {
    let filled = list_filled(v, nodes[1], rows);
    GtkView {
        menu_rows: filled.menu_rows.insert(
            nodes[0],
            RowsView { node: id, titles: texts(rows.items@), icons: names(rows.icons@) },
        ),
        menus: filled.menus.insert(
            nodes[0],
            Menu { listbox: nodes[1], rows: rows.items@.len() as usize },
        ),
        ..filled
    }
}

/// The calls that set up a navigation menu.
pub open spec fn menu_acts(
    v: GtkView,
    nodes: Seq<u64>,
    id: u64,
    rows: MenuRows,
    selected: Option<usize>,
    glyphs: Seq<Seq<char>>,
) -> Seq<SpecAct> {
    let list = nodes[1];
    let begun: Seq<SpecAct> = seq![Act::AddClass { w: list, class: "navigation-sidebar"@ }];
    let wired: Seq<SpecAct> = seq![Act::Wire { w: list, signal: Signal::RowSelected, id }];
    let picked: Seq<SpecAct> = if selected is Some {
        seq![Act::SelectRow { w: list, row: selected }]
    } else {
        Seq::empty()
    };
    let set: Seq<SpecAct> = seq![
        Act::Policy { w: nodes[0], policy: Policy::Vertical },
        Act::SetChild { w: nodes[0], child: list },
    ];
    begun + list_acts(v, list, rows, glyphs) + wired + picked + set
}

impl Gtk {
    fn build_nav(
        &mut self,
        out: &mut Vec<GtkAct>,
        nodes: &Vec<u64>,
        id: u64,
        p: NavPresentation,
        paned: bool,
        standard: Num,
    )
        requires
            nodes.len() >= 1,
            p.chrome() ==> nodes.len() >= 3,
        ensures
            final(self)@ == nav_made(old(self)@, nodes@, p, paned),
            acts(final(out)@) == acts(old(out)@) + nav_acts(nodes@, id, p, paned, standard),
    {
        let ghost start = acts(out@);
        let ghost v = self@;
        let w = nodes[0];
        let mut split = false;
        let present: Present;
        if p.rows_are_chrome() {
            act(out, Act::Append { w, child: nodes[1] });
            act(out, Act::Append { w, child: nodes[2] });
            present = Present::Suite { stack: nodes[1], switcher: nodes[2] };
        } else {
            match p {
                NavPresentation::Split => {
                    split = true;
                    if paned {
                        act(out, Act::PanedPosition { w, position: standard });
                        act(out, Act::Wire { w, signal: Signal::Position, id });
                        present = Present::Paned;
                    } else {
                        act(out, Act::SidebarWidth { w, width: standard, pinned: false });
                        act(out, Act::ShowSidebar { w, on: true });
                        act(out, Act::Wire { w, signal: Signal::SidebarShown, id });
                        present = Present::Split;
                    }
                },
                _ => {
                    act(out, Act::Wire { w, signal: Signal::Popped, id });
                    present = Present::Stack;
                },
            }
        }
        let entry = NavEntry { present, split, pages: Vec::new(), toggles: Vec::new() };
        proof {
            assert(entry@ =~= NavView {
                present: present_of(p, paned, nodes@[1], nodes@[2]),
                split: !p.chrome() && p == NavPresentation::Split,
                pages: Seq::empty(),
                toggles: Seq::empty(),
            });
        }
        self.navs.put(w, entry);
        proof {
            assert(self@ =~= nav_made(v, nodes@, p, paned));
            assert(acts(out@) =~= start + nav_acts(nodes@, id, p, paned, standard));
        }
    }

    fn build_menu(
        &mut self,
        out: &mut Vec<GtkAct>,
        nodes: &Vec<u64>,
        id: u64,
        rows: MenuRows,
        selected: Option<usize>,
        glyphs: &Vec<String>,
    )
        requires
            nodes.len() >= 2,
        ensures
            final(self)@ == menu_made(old(self)@, nodes@, id, rows),
            acts(final(out)@) == acts(old(out)@) + menu_acts(
                old(self)@,
                nodes@,
                id,
                rows,
                selected,
                texts(glyphs@),
            ),
    {
        let ghost start = acts(out@);
        let ghost v = self@;
        let ghost given = rows;
        let list = nodes[1];
        act(out, Act::AddClass { w: list, class: owned("navigation-sidebar") });
        self.fill_nav_menu(out, list, &rows, glyphs);
        act(out, Act::Wire { w: list, signal: Signal::RowSelected, id });
        if selected.is_some() {
            act(out, Act::SelectRow { w: list, row: selected });
        }
        act(out, Act::Policy { w: nodes[0], policy: Policy::Vertical });
        act(out, Act::SetChild { w: nodes[0], child: list });
        let n = rows.items.len();
        self.menu_rows.put(
            nodes[0],
            SuiteRows { node: id, titles: rows.items, icons: rows.icons },
        );
        self.menus.put(nodes[0], Menu { listbox: list, rows: n });
        proof {
            assert(self@ =~= menu_made(v, nodes@, id, given));
            assert(acts(out@) =~= start + menu_acts(
                v,
                nodes@,
                id,
                given,
                selected,
                texts(glyphs@),
            ));
        }
    }
}

// ---- every piece -------------------------------------------------------------------------------

/// The memory after a piece was built.
pub open spec fn realized(
    v: GtkView,
    piece: Piece,
    id: u64,
    nodes: Seq<u64>,
    paned: bool,
    display: bool,
) -> GtkView {
    let w = nodes[0];
    match piece {
        Piece::Container(p) => if !p.card && has_surface(p) {
            surfaced(v, w)
        } else {
            v
        },
        Piece::Label(p) => label_made(v, w, p),
        Piece::Button(p) => styled(v, p.style, display),
        Piece::Image(p) => GtkView { images: v.images.insert(w, p.source@), ..v },
        Piece::Scroll { .. } => GtkView { scroll_css: true, ..v },
        Piece::Nav { presentation, .. } => nav_made(v, nodes, presentation, paned),
        Piece::NavPage { title, .. } => GtkView {
            page_ids: v.page_ids.insert(w, id),
            page_titles: v.page_titles.insert(w, title@),
            ..v
        },
        Piece::Cover => GtkView { cover_ids: v.cover_ids.insert(w, id), ..v },
        Piece::NavMenu { rows, .. } => menu_made(v, nodes, id, rows),
        Piece::List(p) => GtkView {
            lists: v.lists.insert(w),
            separator_css: v.separator_css || (p.separators == Some(true) && display),
            ..v
        },
        _ => v,
    }
}

/// The calls that set up a piece.
pub open spec fn realize_acts(
    v: GtkView,
    piece: Piece,
    id: u64,
    nodes: Seq<u64>,
    paned: bool,
    standard: Num,
    display: bool,
    glyphs: Seq<Seq<char>>,
) -> Seq<SpecAct> {
    let w = nodes[0];
    match piece {
        Piece::Container(p) => container_acts(v, w, p),
        Piece::Label(p) => new_label_acts(v, w, id, p),
        Piece::Button(p) => button_acts(v, w, id, p, display),
        Piece::Toggle(p) => toggle_acts(w, id, p),
        Piece::Slider(p) => slider_acts(w, id, p),
        Piece::TextField(p) => field_acts(w, id, p),
        Piece::TextArea(_) => Seq::empty(),
        Piece::Picker(_) => Seq::empty(),
        Piece::Progress(Some(value)) => seq![Act::Fraction { w, value }],
        Piece::Progress(None) => seq![Act::Spin { w }],
        Piece::Image(p) => image_acts(w, p, glyphs),
        Piece::Canvas => canvas_acts(w, id),
        Piece::Scroll { horizontal } => scroll_acts(v, nodes, horizontal),
        Piece::Divider => Seq::empty(),
        Piece::Nav { presentation, .. } => nav_acts(nodes, id, presentation, paned, standard),
        Piece::NavPage { .. } => Seq::empty(),
        Piece::Cover => seq![Act::Visible { w, on: false }],
        Piece::NavMenu { rows, selected } => menu_acts(v, nodes, id, rows, selected, glyphs),
        Piece::List(p) => list_piece_acts(v, nodes, id, p, display),
        Piece::Mismatched(kind) => seq![Act::Report { kind: kind@ }, placeholder_act(w, kind@)],
        Piece::Unrendered(kind) => seq![Act::Report { kind: kind@ }, placeholder_act(w, kind@)],
    }
}

impl Gtk {
    /// Builds a piece from the widgets made for it. `paned` asks for a sidebar whose divider can
    /// be dragged, `standard` is the width a sidebar has by itself, `display` is whether there is a
    /// display to install rules on, `glyphs` are the names that can be drawn. Pickers and text
    /// areas set themselves up.
    pub fn realize(
        &mut self,
        piece: Piece,
        id: u64,
        nodes: &Vec<u64>,
        paned: bool,
        standard: Num,
        display: bool,
        glyphs: &Vec<String>,
    ) -> (out: Vec<GtkAct>)
        requires
            nodes@.len() >= widgets_for(piece, paned).len(),
        ensures
            final(self)@ == realized(old(self)@, piece, id, nodes@, paned, display),
            acts(out@) == realize_acts(
                old(self)@,
                piece,
                id,
                nodes@,
                paned,
                standard,
                display,
                texts(glyphs@),
            ),
    {
        let ghost v = self@;
        let ghost given = piece;
        let w = nodes[0];
        let mut out = no_acts();
        match piece {
            Piece::Container(p) => self.build_container(&mut out, w, &p),
            Piece::Label(p) => self.build_label(&mut out, w, id, p),
            Piece::Button(p) => self.build_button(&mut out, w, id, &p, display),
            Piece::Toggle(p) => build_toggle(&mut out, w, id, &p),
            Piece::Slider(p) => build_slider(&mut out, w, id, &p),
            Piece::TextField(p) => build_field(&mut out, w, id, &p),
            Piece::TextArea(_) => {},
            Piece::Picker(_) => {},
            Piece::Progress(Some(value)) => act(&mut out, Act::Fraction { w, value }),
            Piece::Progress(None) => act(&mut out, Act::Spin { w }),
            Piece::Image(p) => self.build_image(&mut out, w, &p, glyphs),
            Piece::Canvas => {
                act(&mut out, Act::Focusable { w });
                act(&mut out, Act::Wire { w, signal: Signal::Focus, id });
                act(&mut out, Act::Wire { w, signal: Signal::Key, id });
            },
            Piece::Scroll { horizontal } => self.build_scroll(&mut out, nodes, horizontal),
            Piece::Divider => {},
            Piece::Nav { presentation, .. } => self.build_nav(
                &mut out,
                nodes,
                id,
                presentation,
                paned,
                standard,
            ),
            Piece::NavPage { title, .. } => {
                self.page_ids.put(w, id);
                self.page_titles.put(w, title);
            },
            Piece::Cover => {
                act(&mut out, Act::Visible { w, on: false });
                self.cover_ids.put(w, id);
            },
            Piece::NavMenu { rows, selected } => self.build_menu(
                &mut out,
                nodes,
                id,
                rows,
                selected,
                glyphs,
            ),
            Piece::List(p) => self.build_list(&mut out, nodes, id, &p, display),
            Piece::Mismatched(kind) => {
                act(&mut out, Act::Report { kind: owned(kind.as_str()) });
                placeholder_label(&mut out, w, kind.as_str());
            },
            Piece::Unrendered(kind) => {
                act(&mut out, Act::Report { kind: owned(kind.as_str()) });
                placeholder_label(&mut out, w, kind.as_str());
            },
        }
        proof {
            assert(self@ =~= realized(v, given, id, nodes@, paned, display));
            assert(acts(out@) =~= realize_acts(
                v,
                given,
                id,
                nodes@,
                paned,
                standard,
                display,
                texts(glyphs@),
            ));
        }
        out
    }

    /// Builds a tree from a scroller and a list.
    pub fn realize_tree(&mut self, id: u64, multi: bool, nodes: &Vec<u64>) -> (out: Vec<GtkAct>)
        requires
            nodes@.len() >= 2,
        ensures
            final(self)@ == (GtkView {
                trees: old(self)@.trees.insert(
                    nodes@[0],
                    TreeView { node: id, expanded: Set::empty(), selected: Seq::empty(), multi },
                ),
                ..old(self)@
            }),
            acts(out@) == seq![
                Act::<Seq<char>, SpecEvent>::Wire { w: nodes@[1], signal: Signal::Row, id },
                Act::Policy { w: nodes@[0], policy: Policy::Vertical },
                Act::SetChild { w: nodes@[0], child: nodes@[1] },
            ],
    {
        let ghost v = self@;
        let mut out = no_acts();
        act(&mut out, Act::Wire { w: nodes[1], signal: Signal::Row, id });
        act(&mut out, Act::Policy { w: nodes[0], policy: Policy::Vertical });
        act(&mut out, Act::SetChild { w: nodes[0], child: nodes[1] });
        self.trees.put(nodes[0], TreeEntry::new(id, multi));
        proof {
            assert(acts(out@) =~= seq![
                Act::<Seq<char>, SpecEvent>::Wire { w: nodes@[1], signal: Signal::Row, id },
                Act::Policy { w: nodes@[0], policy: Policy::Vertical },
                Act::SetChild { w: nodes@[0], child: nodes@[1] },
            ]);
            assert(self@ =~= GtkView {
                trees: v.trees.insert(
                    nodes@[0],
                    TreeView { node: id, expanded: Set::empty(), selected: Seq::empty(), multi },
                ),
                ..v
            });
        }
        out
    }

    /// Builds an inspector from a split.
    pub fn realize_inspector(
        &mut self,
        w: u64,
        id: u64,
        visible: bool,
        width: Num,
        leading: bool,
    ) -> (out: Vec<GtkAct>)
        ensures
            final(self)@ == (GtkView {
                inspectors: old(self)@.inspectors.insert(
                    w,
                    InspectorView { width, panes: Seq::empty() },
                ),
                ..old(self)@
            }),
            acts(out@) == seq![
                Act::<Seq<char>, SpecEvent>::SidebarAtEnd { w, on: !leading },
                Act::SidebarWidth { w, width, pinned: true },
                Act::ShowSidebar { w, on: visible },
                Act::Wire { w, signal: Signal::InspectorShown, id },
            ],
    {
        let ghost v = self@;
        let mut out = no_acts();
        act(&mut out, Act::SidebarAtEnd { w, on: !leading });
        act(&mut out, Act::SidebarWidth { w, width, pinned: true });
        act(&mut out, Act::ShowSidebar { w, on: visible });
        act(&mut out, Act::Wire { w, signal: Signal::InspectorShown, id });
        let entry = Inspector { width, panes: Vec::new() };
        proof {
            assert(entry@ =~= InspectorView { width, panes: Seq::empty() });
        }
        self.inspectors.put(w, entry);
        proof {
            assert(acts(out@) =~= seq![
                Act::<Seq<char>, SpecEvent>::SidebarAtEnd { w, on: !leading },
                Act::SidebarWidth { w, width, pinned: true },
                Act::ShowSidebar { w, on: visible },
                Act::Wire { w, signal: Signal::InspectorShown, id },
            ]);
            assert(self@ =~= GtkView {
                inspectors: v.inspectors.insert(w, InspectorView { width, panes: Seq::empty() }),
                ..v
            });
        }
        out
    }

    /// Builds a pane of an inspector.
    pub fn realize_pane(&mut self, w: u64, id: u64, panel: bool)
        ensures
            final(self)@ == (GtkView {
                panes: old(self)@.panes.insert(w, Pane { id, panel }),
                ..old(self)@
            }),
    {
        let ghost v = self@;
        self.panes.put(w, Pane { id, panel });
        proof {
            assert(self@ =~= GtkView { panes: v.panes.insert(w, Pane { id, panel }), ..v });
        }
    }
}

} // verus!
