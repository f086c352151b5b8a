//! Realizing a piece: which element it becomes, what the element is told, and what is remembered
//! of it.
use crate::dom::act::{act, acts, attr, class, regroup, style, text, Act, DomAct, El, SpecAct};
use crate::dom::css::rgba;
use crate::dom::image::{image_source, image_src};
use crate::dom::list::{ListEntry, ListView};
use crate::dom::listen::{AREA, CHANGE, CLICK, FIELD, FOCUS, RESIZE, SCROLL, SLIDER};
use crate::dom::looks::{
    apply_area_attrs, apply_button_style, apply_font, apply_image_tint, apply_surface, area_acts,
    button_acts, disable_unless, disabled_acts, fit_css, fit_word, font_acts, label_acts,
    set_label_text, surface_acts, tint_acts, EL_AREA, EL_BUTTON, EL_CANVAS, EL_DIV, EL_DIVIDER,
    EL_FIELD, EL_IMAGE, EL_LABEL, EL_NAV, EL_NAVMENU, EL_PAGE, EL_PROGRESS, EL_RADIOS, EL_SCROLL,
    EL_SEGMENTED, EL_SELECT, EL_SLIDER, EL_SPINNER, EL_TOGGLE,
};
use crate::dom::nav::{mode, nav_mode, NavState, NavView};
use crate::dom::specs::{navmenu, navmenu_json, picker, picker_json};
use crate::dom::state::{Dom, DomView};
use crate::model::{NodeId, PickerStyle, TextAlign, TextRole};
use crate::num::Num;
use crate::pieces::{ImageProps, LabelProps, ListProps, Piece, SliderProps};
use crate::rows::RowSet;
use crate::text::{cat3, owned};
use vstd::prelude::*;

verus! {

/// The bit pattern of 44, the row height of a list whose app names none.
pub const AUTOMATIC_PITCH: u64 = 0x4046_0000_0000_0000;

/// The bit pattern of minus one, a width no list has.
pub const NO_WIDTH: u64 = 0xbff0_0000_0000_0000;

/// The line breaks of a text.
pub open spec fn breaks(t: Seq<char>) -> nat
    decreases t.len(),
{
    if t.len() == 0 {
        0
    } else {
        breaks(t.drop_last()) + if t.last() == '\n' {
            1nat
        } else {
            0nat
        }
    }
}

/// The lines of a text: one more than its line breaks, counted in 32 bits and at least one.
pub open spec fn lines(t: Seq<char>) -> u32 {
    let n = (breaks(t) + 1) as u32;
    if n == 0 {
        1
    } else {
        n
    }
}

pub fn content_lines(t: &str) -> (n: u32)
    ensures
        n == lines(t@),
{
    let mut k: u64 = 0;
    let v = crate::text::chars_of(t);
    let mut i: usize = 0;
    while i < v.len()
        invariant
            i <= v.len(),
            v@ == t@,
            k <= i,
            k == breaks(v@.take(i as int)),
        decreases v.len() - i,
    {
        proof {
            assert(v@.take(i + 1).drop_last() =~= v@.take(i as int));
        }
        if v[i] == '\n' {
            k = k + 1;
        }
        i = i + 1;
    }
    assert(v@.take(i as int) =~= t@);
    let n: u32 = #[verifier::truncate] ((k as u128 + 1) as u32);
    if n == 0 {
        1
    } else {
        n
    }
}

/// The element a piece becomes.
pub open spec fn element(p: Piece) -> u32 {
    match p {
        Piece::Container(_) => EL_DIV,
        Piece::Label(_) => EL_LABEL,
        Piece::Button(_) => EL_BUTTON,
        Piece::Toggle(_) => EL_TOGGLE,
        Piece::Slider(_) => EL_SLIDER,
        Piece::TextField(_) => EL_FIELD,
        Piece::TextArea(_) => EL_AREA,
        Piece::Picker(q) => match q.style {
            PickerStyle::Menu => EL_SELECT,
            PickerStyle::Segmented => EL_SEGMENTED,
            PickerStyle::Inline => EL_RADIOS,
        },
        Piece::Progress(v) => if v is Some {
            EL_PROGRESS
        } else {
            EL_SPINNER
        },
        Piece::Image(q) => if q.tint is Some {
            EL_DIV
        } else {
            EL_IMAGE
        },
        Piece::Canvas => EL_CANVAS,
        Piece::Scroll { .. } => EL_SCROLL,
        Piece::Divider => EL_DIVIDER,
        Piece::Nav { .. } => EL_NAV,
        Piece::NavPage { .. } => EL_PAGE,
        Piece::Cover => EL_PAGE,
        Piece::NavMenu { .. } => EL_NAVMENU,
        Piece::List(_) => EL_SCROLL,
        Piece::Mismatched(_) => EL_LABEL,
        Piece::Unrendered(_) => EL_LABEL,
    }
}

/// The element to create for a piece. A list also needs an [`EL_DIV`] for its content.
pub fn element_kind(p: &Piece) -> (k: u32)
    ensures
        k == element(*p),
{
    match p {
        Piece::Container(_) => EL_DIV,
        Piece::Label(_) => EL_LABEL,
        Piece::Button(_) => EL_BUTTON,
        Piece::Toggle(_) => EL_TOGGLE,
        Piece::Slider(_) => EL_SLIDER,
        Piece::TextField(_) => EL_FIELD,
        Piece::TextArea(_) => EL_AREA,
        Piece::Picker(q) => match q.style {
            PickerStyle::Menu => EL_SELECT,
            PickerStyle::Segmented => EL_SEGMENTED,
            PickerStyle::Inline => EL_RADIOS,
        },
        Piece::Progress(v) => if v.is_some() {
            EL_PROGRESS
        } else {
            EL_SPINNER
        },
        Piece::Image(q) => if q.tint.is_some() {
            EL_DIV
        } else {
            EL_IMAGE
        },
        Piece::Canvas => EL_CANVAS,
        Piece::Scroll { .. } => EL_SCROLL,
        Piece::Divider => EL_DIVIDER,
        Piece::Nav { .. } => EL_NAV,
        Piece::NavPage { .. } => EL_PAGE,
        Piece::Cover => EL_PAGE,
        Piece::NavMenu { .. } => EL_NAVMENU,
        Piece::List(_) => EL_SCROLL,
        Piece::Mismatched(_) => EL_LABEL,
        Piece::Unrendered(_) => EL_LABEL,
    }
}

/// What a label's text color is: its own, else a softer one for secondary text.
pub open spec fn label_color(el: u32, p: LabelProps) -> Seq<SpecAct> {
    match p.color {
        Some(c) => seq![Act::Style(El::Own(el), "color"@, rgba(c))],
        None => if p.role == TextRole::Secondary {
            seq![
                Act::Style(
                    El::Own(el),
                    "color"@,
                    "color-mix(in srgb, currentColor 62%, transparent)"@,
                ),
            ]
        } else {
            Seq::empty()
        },
    }
}

/// How a label's lines stand; the writing direction decides which side leads.
pub open spec fn label_align(el: u32, a: TextAlign) -> Seq<SpecAct> {
    match a {
        TextAlign::Leading => Seq::empty(),
        TextAlign::Center => seq![Act::Style(El::Own(el), "text-align"@, "center"@)],
        TextAlign::Trailing => seq![Act::Style(El::Own(el), "text-align"@, "end"@)],
    }
}

/// A label's calls.
pub open spec fn label_piece(el: u32, p: LabelProps) -> Seq<SpecAct> {
    label_acts(el, p.text@, p.runs@) + font_acts(El::Own(el), p.font) + label_color(el, p) + (
    if p.wraps {
        Seq::empty()
    } else {
        seq![Act::Style(El::Own(el), "white-space"@, "nowrap"@)]
    }) + label_align(el, p.align)
}

/// A slider's calls.
pub open spec fn slider_piece(el: u32, p: SliderProps) -> Seq<SpecAct> {
    let own = El::Own(el);
    let step = match p.step {
        Some(s) => s.text@,
        None => "any"@,
    };
    let range: Seq<SpecAct> = seq![
        Act::Attr(own, "min"@, p.min.text@),
        Act::Attr(own, "max"@, p.max.text@),
        Act::Attr(own, "step"@, step),
        Act::Value(el, p.value),
    ];
    (range + disabled_acts(el, p.enabled)).push(Act::Listen(el, SLIDER))
}

/// An image's calls: a tinted glyph is a masked box, anything else an image.
pub open spec fn image_piece(el: u32, p: ImageProps, src: Seq<char>) -> Seq<SpecAct> {
    let own = El::Own(el);
    (if p.tint is Some {
        if p.decorative {
            Seq::empty()
        } else {
            seq![Act::Attr(own, "role"@, "img"@)]
        }
    } else {
        let shown: Seq<SpecAct> = seq![
            Act::Attr(own, "src"@, src),
            Act::Style(own, "object-fit"@, fit_word(p.content_mode)),
        ];
        if p.decorative {
            shown.push(Act::Attr(own, "alt"@, ""@))
        } else {
            shown
        }
    }) + (if p.decorative {
        seq![Act::Attr(own, "aria-hidden"@, "true"@)]
    } else {
        Seq::empty()
    }) + tint_acts(el, src, fit_word(p.content_mode), p.tint)
}

/// A list's calls; `inner` holds its rows.
pub open spec fn list_piece(el: u32, inner: u32, p: ListProps) -> Seq<SpecAct> {
    let start: Seq<SpecAct> = seq![Act::Class(El::Own(el), "day-list"@, true)];
    let movable: Seq<SpecAct> = if p.reorderable {
        seq![Act::ListReorder(el)]
    } else {
        Seq::empty()
    };
    let keys: Seq<SpecAct> = if p.selectable {
        seq![Act::ListKeynav(el, p.multi_select)]
    } else {
        Seq::empty()
    };
    (start + movable).push(Act::Insert { parent: el, child: El::Own(inner), index: 0 }).push(
        Act::ListOnScroll(el),
    ) + keys
}

/// A visible stand-in for a piece that cannot be shown.
pub open spec fn placeholder(el: u32, kind: Seq<char>) -> Seq<SpecAct> {
    seq![
        Act::Text(El::Own(el), "⟨"@ + kind + "⟩"@),
        Act::Class(El::Own(el), "placeholder"@, true),
    ]
}

/// Everything that realizing a piece as `el` tells the shim.
pub open spec fn realize_acts(el: u32, inner: u32, p: Piece, vectors: Seq<String>) -> Seq<SpecAct> {
    let own = El::Own(el);
    match p {
        Piece::Container(q) => surface_acts(el, q),
        Piece::Label(q) => label_piece(el, q),
        Piece::Button(q) => (seq![Act::Text(own, q.title@)] + button_acts(el, q.style)
            + disabled_acts(el, q.enabled)).push(Act::Listen(el, CLICK)),
        Piece::Toggle(q) => (seq![Act::Checked(el, q.on)] + disabled_acts(el, q.enabled)).push(
            Act::Listen(el, CHANGE),
        ),
        Piece::Slider(q) => slider_piece(el, q),
        Piece::TextField(q) => (seq![
            Act::Attr(own, "value"@, q.text@),
            Act::Attr(own, "placeholder"@, q.placeholder@),
        ] + disabled_acts(el, q.enabled)).push(Act::Listen(el, FIELD)),
        Piece::TextArea(q) => (seq![
            Act::Text(own, q.text@),
            Act::Attr(own, "placeholder"@, q.placeholder@),
        ] + area_acts(el, q.editable, q.selectable, q.spellcheck)).push(Act::Listen(el, AREA)),
        Piece::Picker(q) => {
            let filled: Seq<SpecAct> = seq![
                Act::Options { el, json: picker(q.options@, q.selected) },
            ];
            if q.style == PickerStyle::Menu {
                filled.push(Act::Listen(el, CHANGE))
            } else {
                filled
            }
        },
        Piece::Progress(v) => match v {
            Some(n) => seq![Act::Attr(own, "max"@, "1"@), Act::Value(el, n)],
            None => Seq::empty(),
        },
        Piece::Image(q) => image_piece(el, q, image_source(q.source@, vectors)),
        Piece::Canvas => seq![Act::CanvasKeynav(el), Act::Listen(el, FOCUS)],
        Piece::Scroll { horizontal } => if horizontal {
            seq![Act::Class(own, "horizontal"@, true), Act::Listen(el, SCROLL)]
        } else {
            seq![Act::Listen(el, SCROLL)]
        },
        Piece::Divider => Seq::empty(),
        Piece::Nav { presentation, title } => seq![
            Act::NavMode { el, mode: mode(presentation), title: title@ },
            Act::Listen(el, CLICK),
        ],
        Piece::NavPage { .. } => seq![Act::Listen(el, RESIZE)],
        Piece::Cover => seq![Act::Class(own, "day-cover"@, true), Act::Listen(el, RESIZE)],
        Piece::NavMenu { rows, selected } => seq![
            Act::NavMenu { el, json: navmenu(rows, selected, vectors) },
        ],
        Piece::List(q) => list_piece(el, inner, q),
        Piece::Mismatched(kind) => seq![Act::Report(kind@)] + placeholder(el, kind@),
        Piece::Unrendered(kind) => seq![
            Act::Warn(
                "day: no renderer for piece kind \""@ + kind@
                    + "\" on web-dom (rendering a placeholder)"@,
            ),
            Act::Report(kind@),
        ] + placeholder(el, kind@),
    }
}

/// A new list.
pub open spec fn new_list(id: NodeId, inner: u32, p: ListProps) -> ListView {
    ListView {
        node: id,
        content: inner,
        pitch: match p.pitch {
            Some(h) => h,
            None => Num { bits: AUTOMATIC_PITCH },
        },
        attached: false,
        cells: Seq::empty(),
        bound: Seq::empty(),
        fill_pending: false,
        last_width: Num { bits: NO_WIDTH },
        selectable: p.selectable,
        separators: p.separators == Some(true),
        multi: p.multi_select,
        selected: Seq::empty(),
        anchor: None,
        lead: None,
    }
}

/// What is remembered of a piece realized as `el`, beside its node.
pub open spec fn recorded(v: DomView, el: u32, inner: u32, p: Piece, id: NodeId, vectors: Seq<String>) -> DomView {
    let k = el as u64;
    match p {
        Piece::TextArea(q) => DomView {
            area_hints: v.area_hints.insert(k, (q.min_lines, q.max_lines, lines(q.text@))),
            ..v
        },
        Piece::Picker(q) => DomView {
            picker_selected: v.picker_selected.insert(k, q.selected),
            picker_size: v.picker_size.insert(k, q.intrinsic),
            seg_count: if q.style == PickerStyle::Menu {
                v.seg_count
            } else {
                v.seg_count.insert(k, q.options.len())
            },
            ..v
        },
        Piece::Progress(n) => if n is Some {
            v
        } else {
            DomView { spinners: v.spinners.insert(k, ()), ..v }
        },
        Piece::Image(q) => DomView {
            image_src: v.image_src.insert(k, image_source(q.source@, vectors)),
            image_fit: v.image_fit.insert(k, q.content_mode),
            ..v
        },
        Piece::Nav { presentation, title } => DomView {
            navs: v.navs.insert(
                k,
                NavView {
                    presentation,
                    pages: Seq::empty(),
                    sidebar: None,
                    titles: seq![title@],
                    selected: 0,
                },
            ),
            ..v
        },
        Piece::NavPage { sidebar, .. } => DomView {
            page_sidebar: v.page_sidebar.insert(k, sidebar),
            css_framed: v.css_framed.insert(k, ()),
            ..v
        },
        Piece::Cover => DomView { css_framed: v.css_framed.insert(k, ()), ..v },
        Piece::List(q) => DomView { lists: v.lists.insert(k, new_list(id, inner, q)), ..v },
        _ => v,
    }
}

fn label_calls(out: &mut Vec<DomAct>, el: u32, p: &LabelProps)
    ensures
        acts(final(out)@) == acts(old(out)@) + label_piece(el, *p),
{
    let own = El::Own(el);
    set_label_text(out, el, p.text.as_str(), &p.runs);
    apply_font(out, own, &p.font);
    let ghost a = acts(out@);
    match &p.color {
        Some(c) => style(out, own, "color", crate::dom::css::color_css(c).as_str()),
        None => {
            if p.role == TextRole::Secondary {
                style(out, own, "color", "color-mix(in srgb, currentColor 62%, transparent)");
            }
        },
    }
    let ghost b = acts(out@);
    assert(b =~= a + label_color(el, *p));
    if !p.wraps {
        style(out, own, "white-space", "nowrap");
    }
    let ghost c = acts(out@);
    match p.align {
        TextAlign::Leading => {},
        TextAlign::Center => style(out, own, "text-align", "center"),
        TextAlign::Trailing => style(out, own, "text-align", "end"),
    }
    proof {
        let wrap: Seq<SpecAct> = if p.wraps {
            Seq::empty()
        } else {
            seq![Act::Style(own, "white-space"@, "nowrap"@)]
        };
        assert(c =~= b + wrap);
        assert(acts(out@) =~= c + label_align(el, p.align));
        let start = acts(old(out)@);
        let (t, f, k) = (
            label_acts(el, p.text@, p.runs@),
            font_acts(own, p.font),
            label_color(el, *p),
        );
        regroup(start, t, f);
        regroup(start, t + f, k);
        regroup(start, t + f + k, wrap);
        regroup(start, t + f + k + wrap, label_align(el, p.align));
    }
}

fn slider_calls(out: &mut Vec<DomAct>, el: u32, p: &SliderProps)
    ensures
        acts(final(out)@) == acts(old(out)@) + slider_piece(el, *p),
{
    let own = El::Own(el);
    attr(out, own, "min", p.min.text.as_str());
    attr(out, own, "max", p.max.text.as_str());
    match &p.step {
        Some(s) => attr(out, own, "step", s.text.as_str()),
        None => attr(out, own, "step", "any"),
    }
    act(out, Act::Value(el, p.value));
    disable_unless(out, el, p.enabled);
    act(out, Act::Listen(el, SLIDER));
    proof {
        assert(acts(out@) =~= acts(old(out)@) + slider_piece(el, *p));
    }
}

fn image_calls(out: &mut Vec<DomAct>, el: u32, p: &ImageProps, src: &str)
    ensures
        acts(final(out)@) == acts(old(out)@) + image_piece(el, *p, src@),
{
    let own = El::Own(el);
    let fit = fit_css(p.content_mode);
    if p.tint.is_some() {
        if !p.decorative {
            attr(out, own, "role", "img");
        }
    } else {
        attr(out, own, "src", src);
        style(out, own, "object-fit", fit);
        if p.decorative {
            attr(out, own, "alt", "");
        }
    }
    if p.decorative {
        attr(out, own, "aria-hidden", "true");
    }
    apply_image_tint(out, el, src, fit, &p.tint);
    proof {
        assert(acts(out@) =~= acts(old(out)@) + image_piece(el, *p, src@));
    }
}

fn list_calls(out: &mut Vec<DomAct>, el: u32, inner: u32, p: &ListProps)
    ensures
        acts(final(out)@) == acts(old(out)@) + list_piece(el, inner, *p),
{
    class(out, El::Own(el), "day-list", true);
    if p.reorderable {
        act(out, Act::ListReorder(el));
    }
    act(out, Act::Insert { parent: el, child: El::Own(inner), index: 0 });
    act(out, Act::ListOnScroll(el));
    if p.selectable {
        act(out, Act::ListKeynav(el, p.multi_select));
    }
    proof {
        assert(acts(out@) =~= acts(old(out)@) + list_piece(el, inner, *p));
    }
}

fn placeholder_calls(out: &mut Vec<DomAct>, el: u32, kind: &str)
    ensures
        acts(final(out)@) == acts(old(out)@) + placeholder(el, kind@),
{
    text(out, El::Own(el), cat3("⟨", kind, "⟩").as_str());
    class(out, El::Own(el), "placeholder", true);
    proof {
        assert(acts(out@) =~= acts(old(out)@) + placeholder(el, kind@));
    }
}

/// What the shim is told about a piece realized as `el`, with `inner` for a list's content.
pub fn realize_calls(el: u32, inner: u32, p: &Piece, vectors: &Vec<String>) -> (out: Vec<DomAct>)
    ensures
        acts(out@) == realize_acts(el, inner, *p, vectors@),
{
    let own = El::Own(el);
    let mut out: Vec<DomAct> = Vec::new();
    proof {
        assert(acts(out@) =~= Seq::<SpecAct>::empty());
    }
    match p {
        Piece::Container(q) => apply_surface(&mut out, el, q),
        Piece::Label(q) => label_calls(&mut out, el, q),
        Piece::Button(q) => {
            text(&mut out, own, q.title.as_str());
            apply_button_style(&mut out, el, &q.style);
            disable_unless(&mut out, el, q.enabled);
            act(&mut out, Act::Listen(el, CLICK));
        },
        Piece::Toggle(q) => {
            act(&mut out, Act::Checked(el, q.on));
            disable_unless(&mut out, el, q.enabled);
            act(&mut out, Act::Listen(el, CHANGE));
        },
        Piece::Slider(q) => slider_calls(&mut out, el, q),
        Piece::TextField(q) => {
            attr(&mut out, own, "value", q.text.as_str());
            attr(&mut out, own, "placeholder", q.placeholder.as_str());
            disable_unless(&mut out, el, q.enabled);
            act(&mut out, Act::Listen(el, FIELD));
        },
        Piece::TextArea(q) => {
            text(&mut out, own, q.text.as_str());
            attr(&mut out, own, "placeholder", q.placeholder.as_str());
            apply_area_attrs(&mut out, el, q.editable, q.selectable, q.spellcheck);
            act(&mut out, Act::Listen(el, AREA));
        },
        Piece::Picker(q) => {
            act(&mut out, Act::Options { el, json: picker_json(&q.options, q.selected) });
            if q.style == PickerStyle::Menu {
                act(&mut out, Act::Listen(el, CHANGE));
            }
        },
        Piece::Progress(v) => {
            match v {
                Some(n) => {
                    attr(&mut out, own, "max", "1");
                    act(&mut out, Act::Value(el, *n));
                },
                None => {},
            }
        },
        Piece::Image(q) => {
            let src = image_src(q.source.as_str(), vectors);
            image_calls(&mut out, el, q, src.as_str());
        },
        Piece::Canvas => {
            act(&mut out, Act::CanvasKeynav(el));
            act(&mut out, Act::Listen(el, FOCUS));
        },
        Piece::Scroll { horizontal } => {
            if *horizontal {
                class(&mut out, own, "horizontal", true);
            }
            act(&mut out, Act::Listen(el, SCROLL));
        },
        Piece::Divider => {},
        Piece::Nav { presentation, title } => {
            act(
                &mut out,
                Act::NavMode { el, mode: nav_mode(*presentation), title: owned(title.as_str()) },
            );
            act(&mut out, Act::Listen(el, CLICK));
        },
        Piece::NavPage { .. } => act(&mut out, Act::Listen(el, RESIZE)),
        Piece::Cover => {
            class(&mut out, own, "day-cover", true);
            act(&mut out, Act::Listen(el, RESIZE));
        },
        Piece::NavMenu { rows, selected } => {
            act(&mut out, Act::NavMenu { el, json: navmenu_json(rows, *selected, vectors) });
        },
        Piece::List(q) => list_calls(&mut out, el, inner, q),
        Piece::Mismatched(kind) => {
            act(&mut out, Act::Report(owned(kind.as_str())));
            placeholder_calls(&mut out, el, kind.as_str());
        },
        Piece::Unrendered(kind) => {
            act(
                &mut out,
                Act::Warn(
                    cat3(
                        "day: no renderer for piece kind \"",
                        kind.as_str(),
                        "\" on web-dom (rendering a placeholder)",
                    ),
                ),
            );
            act(&mut out, Act::Report(owned(kind.as_str())));
            placeholder_calls(&mut out, el, kind.as_str());
        },
    }
    proof {
        assert(acts(out@) =~= realize_acts(el, inner, *p, vectors@));
    }
    out
}

impl Dom {
    fn record(&mut self, el: u32, inner: u32, p: &Piece, id: NodeId, vectors: &Vec<String>)
        ensures
            final(self)@ == recorded(old(self)@, el, inner, *p, id, vectors@),
    {
        let k = el as u64;
        match p {
            Piece::TextArea(q) => {
                self.area_hints.put(k, (q.min_lines, q.max_lines, content_lines(q.text.as_str())));
            },
            Piece::Picker(q) => {
                self.picker_selected.put(k, q.selected);
                self.picker_size.put(k, q.intrinsic);
                if q.style != PickerStyle::Menu {
                    self.seg_count.put(k, q.options.len());
                }
            },
            Piece::Progress(n) => {
                if n.is_none() {
                    self.spinners.put(k, ());
                }
            },
            Piece::Image(q) => {
                self.image_src.put(k, image_src(q.source.as_str(), vectors));
                self.image_fit.put(k, q.content_mode);
            },
            Piece::Nav { presentation, title } => {
                self.navs.put(k, NavState::new(*presentation, title.as_str()));
            },
            Piece::NavPage { sidebar, .. } => {
                self.page_sidebar.put(k, *sidebar);
                self.css_framed.put(k, ());
            },
            Piece::Cover => {
                self.css_framed.put(k, ());
            },
            Piece::List(q) => {
                let pitch: Num = match q.pitch {
                    Some(h) => h,
                    None => Num { bits: AUTOMATIC_PITCH },
                };
                let separators = match q.separators {
                    Some(b) => b,
                    None => false,
                };
                let entry = ListEntry {
                    node: id,
                    content: inner,
                    pitch,
                    attached: false,
                    cells: Vec::new(),
                    bound: Vec::new(),
                    fill_pending: false,
                    last_width: Num { bits: NO_WIDTH },
                    selectable: q.selectable,
                    separators,
                    multi: q.multi_select,
                    selected: RowSet::empty(),
                    anchor: None,
                    lead: None,
                };
                proof {
                    assert(entry@ =~= new_list(id, inner, *q));
                }
                self.lists.put(k, entry);
            },
            _ => {},
        }
        proof {
            assert(self@ =~= recorded(old(self)@, el, inner, *p, id, vectors@));
        }
    }

    /// Realizes a piece as the element `el`, created as [`element_kind`] says: records what it
    /// is and which node it stands for, and says what the shim is to be told.
    pub fn realize(&mut self, el: u32, inner: u32, p: &Piece, id: NodeId, vectors: &Vec<String>) -> (out:
        Vec<DomAct>)
        ensures
            final(self)@ == recorded(old(self)@, el, inner, *p, id, vectors@).remembered(el, id),
            old(self)@.wf() ==> final(self)@.wf(),
            acts(out@) == realize_acts(el, inner, *p, vectors@),
    {
        let out = realize_calls(el, inner, p, vectors);
        self.record(el, inner, p, id, vectors);
        self.remember(el, id);
        out
    }
}

} // verus!
