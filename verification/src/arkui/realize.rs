//! Pieces built as native nodes. The nodes a piece takes are made first and handed in; the first
//! of them stands for the piece.
use crate::arkui::act::{act, acts, no_acts, one_act, regroup, Act, ArkAct, SpecAct};
use crate::arkui::looks::{
    apply_button_style, apply_font_attrs, argb, argb_of, button_look, font_attrs, font_vp,
    label_runs, points_of, set_label_runs, theme_color, themed, K_BUTTON, K_CANVAS, K_COLUMN,
    K_IMAGE, K_LIST, K_LOADING, K_PROGRESS, K_ROW, K_SCROLL, K_SLIDER, K_STACK, K_TEXT,
    K_TEXT_AREA, K_TEXT_INPUT, K_TEXT_PICKER, K_TOGGLE,
};
use crate::arkui::menu::{
    bar_acts, bar_cells, bar_kinds, bar_nodes, build_bar, build_nav_menu_rows, menu_nodes, picture,
    rows_acts, rows_kinds, set_picture, with_rows, MenuView,
};
use crate::arkui::nav::{rebuilt, TrackView};
use crate::arkui::state::{ArkUi, ArkView};
use crate::arkui::suite::{cleared_acts, Suite, SuiteView};
use crate::model::{texts, ContentMode, Event, NavPresentation, Size, SpecEvent, Target};
use crate::num::Num;
use crate::pieces::{
    ButtonProps, ContainerProps, ImageProps, LabelProps, ListProps, MenuRows, PickerProps, Piece,
    SliderProps, TextAreaProps, TextFieldProps,
};
use crate::text::{join, join_with, owned};
use vstd::prelude::*;

verus! {

// ---- the nodes a piece takes -------------------------------------------------------------------

/// The nodes of a menu: the scroller, its column, the rows, and the bar's entries where the
/// rows make a bar too.
pub open spec fn menu_kinds(r: MenuRows, bar: bool) -> Seq<u32> {
    let two: Seq<u32> = seq![K_SCROLL, K_COLUMN];
    two + rows_kinds(r, r.items@.len() as int) + (if bar {
        bar_kinds(r, r.items@.len() as int)
    } else {
        Seq::empty()
    })
}

/// The kinds of node a piece takes.
pub open spec fn kinds_for(piece: Piece, bar: bool) -> Seq<u32> {
    match piece {
        Piece::Container(_) => seq![K_STACK],
        Piece::Scroll { .. } => seq![K_SCROLL, K_STACK],
        Piece::Image(_) => seq![K_IMAGE],
        Piece::Label(_) => seq![K_TEXT],
        Piece::Button(_) => seq![K_BUTTON],
        Piece::TextField(_) => seq![K_TEXT_INPUT],
        Piece::TextArea(_) => seq![K_TEXT_AREA],
        Piece::Picker(_) => seq![K_TEXT_PICKER],
        Piece::Toggle(_) => seq![K_TOGGLE],
        Piece::Slider(_) => seq![K_SLIDER],
        Piece::Divider => seq![K_STACK],
        Piece::Progress(Some(_)) => seq![K_PROGRESS],
        Piece::Progress(None) => seq![K_LOADING],
        Piece::Nav { presentation, .. } => if presentation.chrome() {
            seq![K_COLUMN, K_STACK, K_ROW]
        } else {
            seq![K_STACK]
        },
        Piece::NavPage { .. } => seq![K_STACK],
        Piece::Cover => seq![K_STACK],
        Piece::NavMenu { rows, .. } => menu_kinds(rows, bar),
        Piece::Canvas => seq![K_CANVAS],
        Piece::List(_) => seq![K_LIST],
        Piece::Mismatched(_) => seq![K_STACK],
        Piece::Unrendered(_) => seq![K_STACK],
    }
}

fn one_kind(k: u32) -> (v: Vec<u32>)
    ensures
        v@ == seq![k],
{
    let mut v: Vec<u32> = Vec::new();
    v.push(k);
    v
}

fn menu_kinds_of(rows: &MenuRows, bar: bool) -> (v: Vec<u32>)
    ensures
        v@ == menu_kinds(*rows, bar),
{
    let mut v: Vec<u32> = Vec::new();
    v.push(K_SCROLL);
    v.push(K_COLUMN);
    let mut more = menu_nodes(rows);
    v.append(&mut more);
    if bar {
        let mut entries = bar_nodes(rows);
        v.append(&mut entries);
    }
    proof {
        assert(v@ =~= menu_kinds(*rows, bar));
    }
    v
}

impl ArkUi {
    /// The kinds of node to make for a piece.
    pub fn wanted(&self, piece: &Piece) -> (v: Vec<u32>)
        ensures
            v@ == kinds_for(*piece, self@.suite is Some),
    {
        match piece {
            Piece::Container(_) => one_kind(K_STACK),
            Piece::Scroll { .. } => {
                let mut v = one_kind(K_SCROLL);
                v.push(K_STACK);
                proof {
                    assert(v@ =~= seq![K_SCROLL, K_STACK]);
                }
                v
            },
            Piece::Image(_) => one_kind(K_IMAGE),
            Piece::Label(_) => one_kind(K_TEXT),
            Piece::Button(_) => one_kind(K_BUTTON),
            Piece::TextField(_) => one_kind(K_TEXT_INPUT),
            Piece::TextArea(_) => one_kind(K_TEXT_AREA),
            Piece::Picker(_) => one_kind(K_TEXT_PICKER),
            Piece::Toggle(_) => one_kind(K_TOGGLE),
            Piece::Slider(_) => one_kind(K_SLIDER),
            Piece::Divider => one_kind(K_STACK),
            Piece::Progress(Some(_)) => one_kind(K_PROGRESS),
            Piece::Progress(None) => one_kind(K_LOADING),
            Piece::Nav { presentation, .. } => {
                if presentation.rows_are_chrome() {
                    let mut v = one_kind(K_COLUMN);
                    v.push(K_STACK);
                    v.push(K_ROW);
                    proof {
                        assert(v@ =~= seq![K_COLUMN, K_STACK, K_ROW]);
                    }
                    v
                } else {
                    one_kind(K_STACK)
                }
            },
            Piece::NavPage { .. } => one_kind(K_STACK),
            Piece::Cover => one_kind(K_STACK),
            Piece::NavMenu { rows, .. } => menu_kinds_of(rows, self.suite.is_some()),
            Piece::Canvas => one_kind(K_CANVAS),
            Piece::List(_) => one_kind(K_LIST),
            Piece::Mismatched(_) => one_kind(K_STACK),
            Piece::Unrendered(_) => one_kind(K_STACK),
        }
    }
}

// ---- single nodes ------------------------------------------------------------------------------

/// A surface: a section card's neutral fill or the background given, and rounded corners.
pub open spec fn surface(n: u64, p: ContainerProps, dark: bool) -> Seq<SpecAct> {
    let fill: Seq<SpecAct> = if p.card {
        seq![Act::Background { node: n, argb: themed(dark, 0x1480_8080, 0x2EFF_FFFF) }]
    } else {
        match p.background {
            Some(c) => seq![Act::Background { node: n, argb: argb_of(c) }],
            None => Seq::empty(),
        }
    };
    if p.corner_radius.num.positive() {
        fill.push(Act::CornerRadius { node: n, radius: p.corner_radius.num })
    } else {
        fill
    }
}

fn surface_calls(n: u64, p: &ContainerProps, dark: bool) -> (out: Vec<ArkAct>)
    ensures
        acts(out@) == surface(n, *p, dark),
{
    let mut out = no_acts();
    if p.card {
        act(
            &mut out,
            Act::Background { node: n, argb: theme_color(dark, 0x1480_8080, 0x2EFF_FFFF) },
        );
    } else {
        match &p.background {
            Some(c) => act(&mut out, Act::Background { node: n, argb: argb(c) }),
            None => {},
        }
    }
    if p.corner_radius.num.is_positive() {
        act(&mut out, Act::CornerRadius { node: n, radius: p.corner_radius.num });
    }
    proof {
        assert(acts(out@) =~= surface(n, *p, dark));
    }
    out
}

/// How a picture fills its frame, as the platform numbers it.
pub open spec fn fit_number(m: ContentMode) -> i32 {
    match m {
        ContentMode::Fit => 0,
        ContentMode::Fill => 1,
        ContentMode::Stretch => 3,
    }
}

/// A picture: its file, its tint where it is a vector, and how it fills its frame.
pub open spec fn image(n: u64, p: ImageProps, vectors: Seq<String>) -> Seq<SpecAct> {
    let tint: Option<u32> = match p.tint {
        Some(c) => Some(argb_of(c)),
        None => None,
    };
    picture(n, p.source@, tint, vectors).push(
        Act::ImageFit { node: n, fit: fit_number(p.content_mode) },
    )
}

fn image_calls(n: u64, p: &ImageProps, vectors: &Vec<String>) -> (out: Vec<ArkAct>)
    ensures
        acts(out@) == image(n, *p, vectors@),
{
    let tint: Option<u32> = match &p.tint {
        Some(c) => Some(argb(c)),
        None => None,
    };
    let fit: i32 = match p.content_mode {
        ContentMode::Fit => 0,
        ContentMode::Fill => 1,
        ContentMode::Stretch => 3,
    };
    let mut out = no_acts();
    set_picture(&mut out, n, p.source.as_str(), tint, vectors);
    act(&mut out, Act::ImageFit { node: n, fit });
    proof {
        assert(acts(out@) =~= image(n, *p, vectors@));
    }
    out
}

/// The color of a label: its own, or the dark theme's where it has none and the theme is dark.
pub open spec fn label_color(n: u64, p: LabelProps, dark: bool) -> Seq<SpecAct> {
    match p.color {
        Some(c) => seq![Act::FontColor { node: n, argb: argb_of(c) }],
        None => if dark {
            seq![Act::FontColor { node: n, argb: 0xE6FF_FFFF }]
        } else {
            Seq::empty()
        },
    }
}

/// A label: its text, size and color, its font, and its styled stretches where it has any.
pub open spec fn label(n: u64, p: LabelProps, dark: bool) -> Seq<SpecAct> {
    let text: Seq<SpecAct> = seq![
        Act::Text { node: n, text: p.text@ },
        Act::FontSize { node: n, size: points_of(p.font.style) },
    ];
    text + label_color(n, p, dark) + font_attrs(n, p.font) + (if p.runs@.len() == 0 {
        Seq::empty()
    } else {
        label_runs(n, p.text@, p.runs@)
    })
}

fn label_calls(n: u64, p: &LabelProps, dark: bool) -> (out: Vec<ArkAct>)
    ensures
        acts(out@) == label(n, *p, dark),
{
    let mut out = no_acts();
    act(&mut out, Act::Text { node: n, text: owned(p.text.as_str()) });
    act(&mut out, Act::FontSize { node: n, size: font_vp(&p.font) });
    let ghost a1 = acts(out@);
    match &p.color {
        Some(c) => act(&mut out, Act::FontColor { node: n, argb: argb(c) }),
        None => {
            if dark {
                act(&mut out, Act::FontColor { node: n, argb: 0xE6FF_FFFF });
            }
        },
    }
    proof {
        assert(acts(out@) =~= a1 + label_color(n, *p, dark));
    }
    apply_font_attrs(&mut out, n, &p.font);
    if p.runs.len() > 0 {
        set_label_runs(&mut out, n, p.text.as_str(), &p.runs);
    } else {
        proof {
            assert(acts(out@) =~= acts(out@) + Seq::<SpecAct>::empty());
        }
    }
    proof {
        assert(a1 =~= seq![
            Act::<Seq<char>, SpecEvent>::Text { node: n, text: p.text@ },
            Act::FontSize { node: n, size: points_of(p.font.style) },
        ]);
    }
    out
}

/// A node that reports under `kind` and can be focused.
pub open spec fn reporting(n: u64, kind: i32, id: u64, text: bool) -> Seq<SpecAct> {
    seq![Act::Register { node: n, kind, id }, Act::EnableFocus { node: n, id, text }]
}

fn report_calls(out: &mut Vec<ArkAct>, n: u64, kind: i32, id: u64, text: bool)
    ensures
        acts(final(out)@) == acts(old(out)@) + reporting(n, kind, id, text),
{
    act(out, Act::Register { node: n, kind, id });
    act(out, Act::EnableFocus { node: n, id, text });
    proof {
        assert(acts(out@) =~= acts(old(out)@) + reporting(n, kind, id, text));
    }
}

/// A button: its title, its press, its look.
pub open spec fn button(n: u64, p: ButtonProps, id: u64) -> Seq<SpecAct> {
    let title: Seq<SpecAct> = seq![Act::ButtonLabel { node: n, text: p.title@ }];
    title + reporting(n, 0, id, false) + button_look(n, p.style)
}

fn button_calls(n: u64, p: &ButtonProps, id: u64) -> (out: Vec<ArkAct>)
    ensures
        acts(out@) == button(n, *p, id),
{
    let mut out = one_act(Act::ButtonLabel { node: n, text: owned(p.title.as_str()) });
    report_calls(&mut out, n, 0, id, false);
    apply_button_style(&mut out, n, &p.style);
    out
}

/// A text field: its text and its placeholder, its typing.
pub open spec fn field(n: u64, p: TextFieldProps, id: u64) -> Seq<SpecAct> {
    let text: Seq<SpecAct> = seq![
        Act::InputText { node: n, text: p.text@ },
        Act::Placeholder { node: n, text: p.placeholder@ },
    ];
    text + reporting(n, 1, id, true)
}

/// A text area: its text and its placeholder, its typing.
pub open spec fn area(n: u64, p: TextAreaProps, id: u64) -> Seq<SpecAct> {
    let text: Seq<SpecAct> = seq![
        Act::AreaText { node: n, text: p.text@ },
        Act::AreaPlaceholder { node: n, text: p.placeholder@ },
    ];
    text + reporting(n, 7, id, true)
}

/// A picker: its options in one text, the one selected, its choice.
pub open spec fn picker(n: u64, p: PickerProps, id: u64) -> Seq<SpecAct> {
    let options: Seq<SpecAct> = seq![
        Act::Options {
            node: n,
            options: join(texts(p.options@), ';'),
            selected: p.selected as u32,
        },
    ];
    options + reporting(n, 8, id, false)
}

/// A slider: its value on its range, its change.
pub open spec fn slider(n: u64, p: SliderProps, id: u64) -> Seq<SpecAct> {
    let value: Seq<SpecAct> = seq![
        Act::Slider { node: n, value: p.value, min: p.min.num, max: p.max.num },
    ];
    value + reporting(n, 3, id, false)
}

/// A text as it is, or nothing where it holds a NUL.
pub open spec fn nul_free(s: Seq<char>) -> Seq<char> {
    if s.contains('\0') {
        Seq::empty()
    } else {
        s
    }
}

/// A list: its rows' height, zero where each row has its own, and what can be done to a row.
pub open spec fn list(n: u64, p: ListProps, id: u64) -> Seq<SpecAct> {
    seq![
        Act::ListInit {
            node: n,
            id,
            pitch: match p.pitch {
                Some(h) => h,
                None => Num { bits: 0 },
            },
            selectable: p.selectable,
            reorderable: p.reorderable,
            deletable: p.deletable,
            delete_label: nul_free(p.delete_label@),
        },
    ]
}

fn without_nul_or_empty(s: &str) -> (t: String)
    ensures
        t@ == nul_free(s@),
{
    let v = crate::text::chars_of(s);
    let mut i: usize = 0;
    while i < v.len()
        invariant
            i <= v.len(),
            v@ == s@,
            forall|k: int| 0 <= k < i ==> s@[k] != '\0',
        decreases v.len() - i,
    {
        if v[i] == '\0' {
            assert(s@[i as int] == '\0');
            return String::new();
        }
        i = i + 1;
    }
    owned(s)
}

fn list_calls(n: u64, p: &ListProps, id: u64) -> (out: Vec<ArkAct>)
    ensures
        acts(out@) == list(n, *p, id),
{
    let pitch: Num = match p.pitch {
        Some(h) => h,
        None => Num { bits: 0 },
    };
    one_act(
        Act::ListInit {
            node: n,
            id,
            pitch,
            selectable: p.selectable,
            reorderable: p.reorderable,
            deletable: p.deletable,
            delete_label: without_nul_or_empty(p.delete_label.as_str()),
        },
    )
}

// ---- menus -------------------------------------------------------------------------------------

/// The memory after the bar was rebuilt from a menu's rows.
pub open spec fn bar_filled(
    v: ArkView,
    menu: u64,
    r: MenuRows,
    nodes: Seq<u64>,
    from: int,
    vectors: Seq<String>,
) -> ArkView {
    match v.suite {
        Some(s) => ArkView {
            menus: with_rows(v.menus, menu, r.items@.len() as int),
            suite: Some(
                SuiteView { cells: bar_cells(r, r.items@.len() as int, nodes, from, vectors), ..s },
            ),
            ..v
        },
        None => v,
    }
}

/// The calls that rebuild the bar from a menu's rows.
pub open spec fn fill_acts(v: ArkView, r: MenuRows, nodes: Seq<u64>, from: int, vectors: Seq<String>) -> Seq<
    SpecAct,
> {
    match v.suite {
        Some(s) => cleared_acts(s.bar, s.cells, s.cells.len() as int) + bar_acts(
            v.dark,
            r,
            r.items@.len() as int,
            s.selected,
            s.bar,
            nodes,
            from,
            v.menus.next,
            vectors,
        ),
        None => Seq::empty(),
    }
}

/// There are numbers and places left for a menu's rows, in the menu and in a bar.
pub open spec fn room_for_rows(v: ArkView, r: MenuRows) -> bool {
    r.items@.len() < 0x4000_0000 && v.menus.next + 2 * r.items@.len() <= u64::MAX
}

/// A menu built: its rows numbered, its scroller remembered with the column it holds.
pub open spec fn menu_built(
    v: ArkView,
    menu: u64,
    r: MenuRows,
    nodes: Seq<u64>,
    vectors: Seq<String>,
) -> ArkView {
    let n = r.items@.len() as int;
    let w = bar_filled(v, menu, r, nodes, 2 + rows_kinds(r, n).len() as int, vectors);
    let numbered = with_rows(w.menus, menu, n);
    ArkView {
        menus: MenuView { ids: numbered.ids.insert(nodes[0], menu), ..numbered },
        scroll_content: w.scroll_content.insert(nodes[0], nodes[1]),
        ..w
    }
}

/// The calls that build a menu.
pub open spec fn menu_acts(v: ArkView, menu: u64, r: MenuRows, nodes: Seq<u64>, vectors: Seq<String>) -> Seq<
    SpecAct,
> {
    let n = r.items@.len() as int;
    let from: int = 2 + rows_kinds(r, n).len() as int;
    let w = bar_filled(v, menu, r, nodes, from, vectors);
    (fill_acts(v, r, nodes, from, vectors) + rows_acts(
        v.dark,
        r,
        n,
        nodes[1],
        nodes,
        2,
        w.menus.next,
        vectors,
    )).push(Act::Insert { parent: nodes[0], child: nodes[1], index: 0 })
}

impl ArkUi {
    /// Rebuilds the bar from a menu's rows, where the rows make a bar.
    pub fn suite_fill_bar(
        &mut self,
        out: &mut Vec<ArkAct>,
        menu: u64,
        r: &MenuRows,
        nodes: &Vec<u64>,
        from: usize,
        vectors: &Vec<String>,
    )
        requires
            old(self)@.wf(),
            r.items.len() < 0x4000_0000,
            old(self)@.menus.next + r.items.len() <= u64::MAX,
            old(self)@.suite is Some ==> from + bar_kinds(*r, r.items@.len() as int).len()
                <= nodes.len(),
        ensures
            final(self)@ == bar_filled(old(self)@, menu, *r, nodes@, from as int, vectors@),
            final(self)@.wf(),
            acts(final(out)@) == acts(old(out)@) + fill_acts(
                old(self)@,
                *r,
                nodes@,
                from as int,
                vectors@,
            ),
    {
        let ghost v = self@;
        let ghost start = acts(out@);
        match self.suite.take() {
            Some(mut s) => {
                s.clear_bar(out);
                let next = self.menus.next;
                let ghost cleared = acts(out@);
                s.cells = build_bar(
                    out,
                    self.dark,
                    r,
                    s.selected,
                    s.bar,
                    nodes,
                    from,
                    next,
                    vectors,
                );
                self.suite = Some(s);
                self.menus.number(menu, r.items.len());
                proof {
                    let sv = v.suite->0;
                    regroup(
                        start,
                        cleared_acts(sv.bar, sv.cells, sv.cells.len() as int),
                        bar_acts(
                            v.dark,
                            *r,
                            r.items@.len() as int,
                            sv.selected,
                            sv.bar,
                            nodes@,
                            from as int,
                            v.menus.next,
                            vectors@,
                        ),
                    );
                    assert(self@ =~= bar_filled(v, menu, *r, nodes@, from as int, vectors@));
                }
            },
            None => {
                proof {
                    assert(start + Seq::<SpecAct>::empty() =~= start);
                    assert(self@ =~= v);
                }
            },
        }
    }

    fn build_nav_menu(
        &mut self,
        menu: u64,
        r: &MenuRows,
        nodes: &Vec<u64>,
        vectors: &Vec<String>,
    ) -> (out: Vec<ArkAct>)
        requires
            old(self)@.wf(),
            room_for_rows(old(self)@, *r),
            nodes@.len() == menu_kinds(*r, old(self)@.suite is Some).len(),
            apart(nodes@),
        ensures
            final(self)@ == menu_built(old(self)@, menu, *r, nodes@, vectors@),
            final(self)@.wf(),
            acts(out@) == menu_acts(old(self)@, menu, *r, nodes@, vectors@),
    {
        let ghost v = self@;
        let ghost n = r.items@.len() as int;
        let mut out = no_acts();
        let rows = menu_nodes(r);
        assert(2 + rows.len() <= nodes.len());
        let from: usize = 2 + rows.len();
        self.suite_fill_bar(&mut out, menu, r, nodes, from, vectors);
        let ghost filled = fill_acts(v, *r, nodes@, from as int, vectors@);
        proof {
            assert(acts(out@) =~= filled);
        }
        let ghost w = self@;
        let next = self.menus.next;
        let scroll = nodes[0];
        let col = nodes[1];
        build_nav_menu_rows(&mut out, self.dark, r, col, nodes, 2, next, vectors);
        self.menus.number(menu, r.items.len());
        act(&mut out, Act::Insert { parent: scroll, child: col, index: 0 });
        self.scroll_content.put(scroll, col);
        self.menus.ids.put(scroll, menu);
        proof {
            assert(self@ =~= menu_built(v, menu, *r, nodes@, vectors@));
        }
        out
    }
}

// ---- every piece -------------------------------------------------------------------------------

/// The nodes a piece is built from are nodes of their own: the one that stands for it is not the
/// one next to it.
pub open spec fn apart(nodes: Seq<u64>) -> bool {
    nodes.len() >= 2 ==> nodes[0] != nodes[1]
}

/// The memory after a piece was built from the nodes.
pub open spec fn realized(
    v: ArkView,
    piece: Piece,
    id: u64,
    nodes: Seq<u64>,
    vectors: Seq<String>,
) -> ArkView {
    let n = nodes[0];
    match piece {
        Piece::Scroll { .. } => ArkView {
            scroll_content: v.scroll_content.insert(n, nodes[1]),
            ..v
        },
        Piece::TextField(p) => ArkView {
            controls: v.controls.insert(n, id),
            text_echo: v.text_echo.insert(id, p.text@),
            ..v
        },
        Piece::TextArea(p) => ArkView {
            controls: v.controls.insert(n, id),
            text_echo: v.text_echo.insert(id, p.text@),
            area_lines: v.area_lines.insert(n, (p.min_lines, p.max_lines)),
            ..v
        },
        Piece::Picker(p) => ArkView {
            controls: v.controls.insert(n, id),
            picked: v.picked.insert(id, p.selected),
            ..v
        },
        Piece::Slider(p) => ArkView {
            controls: v.controls.insert(n, id),
            slider_echo: v.slider_echo.insert(id, p.value),
            ranges: v.ranges.insert(id, (p.min.num, p.max.num)),
            ..v
        },
        Piece::Nav { presentation, .. } => if presentation.chrome() {
            ArkView {
                suite: Some(
                    SuiteView {
                        host: n,
                        pages: nodes[1],
                        bar: nodes[2],
                        items: Seq::empty(),
                        cells: Seq::empty(),
                        selected: 0,
                        page_size: Size { width: Num { bits: 0 }, height: Num { bits: 0 } },
                    },
                ),
                ..v
            }
        } else {
            ArkView { nav: rebuilt(v.nav, id, n), ..v }
        },
        Piece::NavPage { .. } => ArkView {
            nav: TrackView { page_ids: v.nav.page_ids.insert(n, id), ..v.nav },
            ..v
        },
        Piece::Cover => ArkView { covers: v.covers.insert(n, id), ..v },
        Piece::NavMenu { rows, .. } => menu_built(v, id, rows, nodes, vectors),
        Piece::List(_) => ArkView { lists: v.lists.insert(n, id), ..v },
        _ => v,
    }
}

/// The calls that build a piece from the nodes.
pub open spec fn realize_acts(
    v: ArkView,
    piece: Piece,
    id: u64,
    nodes: Seq<u64>,
    vectors: Seq<String>,
) -> Seq<SpecAct> {
    let n = nodes[0];
    match piece {
        Piece::Container(p) => surface(n, p, v.dark),
        Piece::Scroll { horizontal } => seq![
            Act::ScrollDirection { node: n, horizontal },
            Act::Insert { parent: n, child: nodes[1], index: 0 },
        ],
        Piece::Image(p) => image(n, p, vectors),
        Piece::Label(p) => label(n, p, v.dark),
        Piece::Button(p) => button(n, p, id),
        Piece::TextField(p) => field(n, p, id),
        Piece::TextArea(p) => area(n, p, id),
        Piece::Picker(p) => picker(n, p, id),
        Piece::Toggle(p) => {
            let on: Seq<SpecAct> = seq![Act::Toggle { node: n, on: p.on }];
            on + reporting(n, 2, id, false)
        },
        Piece::Slider(p) => slider(n, p, id),
        Piece::Divider => seq![
            Act::Background { node: n, argb: themed(v.dark, 0x3300_0000, 0x33FF_FFFF) },
        ],
        Piece::Progress(Some(value)) => seq![Act::Progress { node: n, value }],
        Piece::Progress(None) => Seq::empty(),
        Piece::Nav { presentation, .. } => if presentation.chrome() {
            seq![
                Act::Insert { parent: n, child: nodes[1], index: 0 },
                Act::Insert { parent: n, child: nodes[2], index: 1 },
                Act::Background {
                    node: nodes[2],
                    argb: themed(v.dark, 0xFFF1_F3F5, 0xFF1C_1C1E),
                },
                Act::Emit {
                    to: Target::Node(id),
                    event: Event::NavPresentationChanged(NavPresentation::Tabs),
                },
            ]
        } else {
            Seq::empty()
        },
        Piece::NavPage { .. } => seq![
            Act::Background { node: n, argb: themed(v.dark, 0xFFFF_FFFF, 0xFF1A_1A1C) },
        ],
        Piece::Cover => Seq::empty(),
        Piece::NavMenu { rows, .. } => menu_acts(v, id, rows, nodes, vectors),
        Piece::Canvas => seq![Act::CanvasInit { node: n, id }],
        Piece::List(p) => list(n, p, id),
        Piece::Mismatched(kind) => seq![Act::Report { kind: kind@ }],
        Piece::Unrendered(kind) => seq![Act::Report { kind: kind@ }],
    }
}

impl ArkUi {
    fn realize_text(&mut self, n: u64, p: &TextFieldProps, id: u64) -> (out: Vec<ArkAct>)
        ensures
            final(self)@ == (ArkView {
                controls: old(self)@.controls.insert(n, id),
                text_echo: old(self)@.text_echo.insert(id, p.text@),
                ..old(self)@
            }),
            acts(out@) == field(n, *p, id),
    {
        self.controls.put(n, id);
        self.text_echo.put(id, owned(p.text.as_str()));
        let mut out = one_act(Act::InputText { node: n, text: owned(p.text.as_str()) });
        act(&mut out, Act::Placeholder { node: n, text: owned(p.placeholder.as_str()) });
        report_calls(&mut out, n, 1, id, true);
        proof {
            assert(acts(out@) =~= field(n, *p, id));
        }
        out
    }

    fn realize_area(&mut self, n: u64, p: &TextAreaProps, id: u64) -> (out: Vec<ArkAct>)
        ensures
            final(self)@ == (ArkView {
                controls: old(self)@.controls.insert(n, id),
                text_echo: old(self)@.text_echo.insert(id, p.text@),
                area_lines: old(self)@.area_lines.insert(n, (p.min_lines, p.max_lines)),
                ..old(self)@
            }),
            acts(out@) == area(n, *p, id),
    {
        self.controls.put(n, id);
        self.text_echo.put(id, owned(p.text.as_str()));
        self.area_lines.put(n, (p.min_lines, p.max_lines));
        let mut out = one_act(Act::AreaText { node: n, text: owned(p.text.as_str()) });
        act(&mut out, Act::AreaPlaceholder { node: n, text: owned(p.placeholder.as_str()) });
        report_calls(&mut out, n, 7, id, true);
        proof {
            assert(acts(out@) =~= area(n, *p, id));
        }
        out
    }

    fn realize_picker(&mut self, n: u64, p: &PickerProps, id: u64) -> (out: Vec<ArkAct>)
        ensures
            final(self)@ == (ArkView {
                controls: old(self)@.controls.insert(n, id),
                picked: old(self)@.picked.insert(id, p.selected),
                ..old(self)@
            }),
            acts(out@) == picker(n, *p, id),
    {
        self.controls.put(n, id);
        self.picked.put(id, p.selected);
        let options = join_with(&p.options, ';');
        let mut out = one_act(
            Act::Options {
                node: n,
                options,
                selected: #[verifier::truncate]
                (p.selected as u32),
            },
        );
        report_calls(&mut out, n, 8, id, false);
        out
    }

    fn realize_slider(&mut self, n: u64, p: &SliderProps, id: u64) -> (out: Vec<ArkAct>)
        ensures
            final(self)@ == (ArkView {
                controls: old(self)@.controls.insert(n, id),
                slider_echo: old(self)@.slider_echo.insert(id, p.value),
                ranges: old(self)@.ranges.insert(id, (p.min.num, p.max.num)),
                ..old(self)@
            }),
            acts(out@) == slider(n, *p, id),
    {
        self.controls.put(n, id);
        self.slider_echo.put(id, p.value);
        self.ranges.put(id, (p.min.num, p.max.num));
        let mut out = one_act(
            Act::Slider { node: n, value: p.value, min: p.min.num, max: p.max.num },
        );
        report_calls(&mut out, n, 3, id, false);
        out
    }

    fn realize_nav(
        &mut self,
        piece: &Piece,
        presentation: NavPresentation,
        id: u64,
        nodes: &Vec<u64>,
        vectors: &Vec<String>,
    ) -> (out: Vec<ArkAct>)
        requires
            old(self)@.wf(),
            piece matches Piece::Nav { presentation: p, .. } && *p == presentation,
            nodes@.len() == kinds_for(*piece, old(self)@.suite is Some).len(),
        ensures
            final(self)@ == realized(old(self)@, *piece, id, nodes@, vectors@),
            final(self)@.wf(),
            acts(out@) == realize_acts(old(self)@, *piece, id, nodes@, vectors@),
    {
        let host = nodes[0];
        if presentation.rows_are_chrome() {
            let pages = nodes[1];
            let bar = nodes[2];
            let mut out = one_act(Act::Insert { parent: host, child: pages, index: 0 });
            act(&mut out, Act::Insert { parent: host, child: bar, index: 1 });
            act(
                &mut out,
                Act::Background {
                    node: bar,
                    argb: theme_color(self.dark, 0xFFF1_F3F5, 0xFF1C_1C1E),
                },
            );
            act(
                &mut out,
                Act::Emit {
                    to: Target::Node(id),
                    event: Event::NavPresentationChanged(NavPresentation::Tabs),
                },
            );
            self.suite = Some(Suite::new(host, pages, bar));
            out
        } else {
            self.nav.rebuild(id, host);
            no_acts()
        }
    }

    fn realize_scroll(&mut self, n: u64, content: u64, horizontal: bool) -> (out: Vec<ArkAct>)
        requires
            old(self)@.wf(),
            n != content,
        ensures
            final(self)@ == (ArkView {
                scroll_content: old(self)@.scroll_content.insert(n, content),
                ..old(self)@
            }),
            final(self)@.wf(),
            acts(out@) == seq![
                Act::<Seq<char>, SpecEvent>::ScrollDirection { node: n, horizontal },
                Act::Insert { parent: n, child: content, index: 0 },
            ],
    {
        let mut out = one_act(Act::ScrollDirection { node: n, horizontal });
        act(&mut out, Act::Insert { parent: n, child: content, index: 0 });
        self.scroll_content.put(n, content);
        proof {
            assert(acts(out@) =~= seq![
                Act::<Seq<char>, SpecEvent>::ScrollDirection { node: n, horizontal },
                Act::Insert { parent: n, child: content, index: 0 },
            ]);
        }
        out
    }

    /// Builds a piece from the nodes it takes.
    #[verifier::spinoff_prover]
    #[verifier::rlimit(60)]
    pub fn realize(
        &mut self,
        piece: &Piece,
        id: u64,
        nodes: &Vec<u64>,
        vectors: &Vec<String>,
    ) -> (out: Vec<ArkAct>)
        requires
            old(self)@.wf(),
            nodes@.len() == kinds_for(*piece, old(self)@.suite is Some).len(),
            apart(nodes@),
            piece matches Piece::NavMenu { rows, .. } ==> room_for_rows(old(self)@, *rows),
        ensures
            final(self)@ == realized(old(self)@, *piece, id, nodes@, vectors@),
            final(self)@.wf(),
            acts(out@) == realize_acts(old(self)@, *piece, id, nodes@, vectors@),
    {
        let n = nodes[0];
        match piece {
            Piece::Container(p) => surface_calls(n, p, self.dark),
            Piece::Scroll { horizontal } => self.realize_scroll(n, nodes[1], *horizontal),
            Piece::Image(p) => image_calls(n, p, vectors),
            Piece::Label(p) => label_calls(n, p, self.dark),
            Piece::Button(p) => button_calls(n, p, id),
            Piece::TextField(p) => self.realize_text(n, p, id),
            Piece::TextArea(p) => self.realize_area(n, p, id),
            Piece::Picker(p) => self.realize_picker(n, p, id),
            Piece::Toggle(p) => {
                let mut out = one_act(Act::Toggle { node: n, on: p.on });
                report_calls(&mut out, n, 2, id, false);
                out
            },
            Piece::Slider(p) => self.realize_slider(n, p, id),
            Piece::Divider => one_act(
                Act::Background {
                    node: n,
                    argb: theme_color(self.dark, 0x3300_0000, 0x33FF_FFFF),
                },
            ),
            Piece::Progress(Some(value)) => one_act(Act::Progress { node: n, value: *value }),
            Piece::Progress(None) => no_acts(),
            Piece::Nav { presentation, .. } => self.realize_nav(
                piece,
                *presentation,
                id,
                nodes,
                vectors,
            ),
            Piece::NavPage { .. } => {
                self.nav.know_page(n, id);
                one_act(
                    Act::Background {
                        node: n,
                        argb: theme_color(self.dark, 0xFFFF_FFFF, 0xFF1A_1A1C),
                    },
                )
            },
            Piece::Cover => {
                self.covers.put(n, id);
                no_acts()
            },
            Piece::NavMenu { rows, .. } => self.build_nav_menu(id, rows, nodes, vectors),
            Piece::Canvas => one_act(Act::CanvasInit { node: n, id }),
            Piece::List(p) => {
                self.lists.put(n, id);
                list_calls(n, p, id)
            },
            Piece::Mismatched(kind) => one_act(Act::Report { kind: owned(kind.as_str()) }),
            Piece::Unrendered(kind) => one_act(Act::Report { kind: owned(kind.as_str()) }),
        }
    }
}

} // verus!
