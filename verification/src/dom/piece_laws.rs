//! What each piece is made of on the page, what is remembered of it, and what each change to it
//! comes to, call by call.
use crate::dom::act::{Act, El, SpecAct, LAST};
use crate::dom::css::{hex_color, rgb, rgba};
use crate::dom::host::area_lines;
use crate::dom::looks::{
    button_acts, fit_word, font_acts, label_acts, link_act, run_acts, run_of, span_acts, spans,
    surface_acts, tint_acts, EL_LINK, EL_SPAN,
};
use crate::dom::realize::{element, lines, realize_acts, recorded};
use crate::dom::specs::{navmenu, picker};
use crate::dom::state::DomView;
use crate::dom::tree::{cells_known, insert_act, inserted, removed};
use crate::dom::update::{update_acts, updated};
use crate::model::{
    AnimSpec, ButtonStyle, Color, ContentMode, Event, FontSpec, NavPresentation, NodeId,
    PickerStyle, Target, TextAlign, TextRole, TextRun,
};
use crate::pieces::{
    ButtonPatch, ContainerProps, CoverPatch, LabelPatch, LabelProps, ListPatch, NavMenuPatch, Patch,
    PickerPatch, Piece, SliderPatch, TextAreaPatch, TextFieldPatch, TogglePatch,
};
use crate::runs::{in_order, joined, ordered_runs_keep_the_text, piece, stretches, Segment};
use vstd::prelude::*;
use vstd::utf8::encode_utf8;

verus! {

// ---- looks -------------------------------------------------------------------------------------

/// A button's style is one class of four, and a tint its two colors; the other classes go.
pub proof fn a_button_has_one_style(el: u32, tint: Color, over: Color)
    ensures
        ({
            let own = El::Own(el);
            let off = seq![
                SpecAct::Class(own, "prominent"@, false),
                Act::Class(own, "bordered"@, false),
                Act::Class(own, "tinted"@, false),
                Act::Class(own, "compact"@, false),
            ];
            &&& button_acts(el, ButtonStyle::Automatic) == off
            &&& button_acts(el, ButtonStyle::Prominent) == off + seq![
                SpecAct::Class(own, "prominent"@, true),
            ]
            &&& button_acts(el, ButtonStyle::Bordered) == off + seq![
                SpecAct::Class(own, "bordered"@, true),
            ]
            &&& button_acts(el, ButtonStyle::Compact) == off + seq![
                SpecAct::Class(own, "compact"@, true),
            ]
            &&& button_acts(el, ButtonStyle::Tinted(tint, over)) == off + seq![
                SpecAct::Style(own, "--day-tint"@, rgb(tint)),
                Act::Style(own, "--day-tint-fg"@, rgb(over)),
                Act::Class(own, "tinted"@, true),
            ]
        }),
{
}

/// A surface has its fill, its corners and with them its clipping, and is a card where it is one.
pub proof fn a_surface_has_its_parts(el: u32, p: ContainerProps)
    ensures
        ({
            let own = El::Own(el);
            let made = surface_acts(el, p);
            let round = p.corner_radius.num.positive();
            &&& p.background is Some ==> made.contains(
                Act::Style(own, "background-color"@, rgba(p.background->0)),
            )
            &&& round ==> made.contains(
                Act::Style(own, "border-radius"@, p.corner_radius.text@ + "px"@),
            )
            &&& round ==> made.contains(Act::Class(own, "day-clip"@, true))
            &&& round || p.clips ==> made.contains(Act::Style(own, "overflow"@, "hidden"@))
            &&& p.card ==> made.contains(Act::Class(own, "day-card"@, true))
            &&& made.len() == (if p.background is Some {
                1int
            } else {
                0
            }) + (if round {
                2int
            } else {
                0
            }) + (if round || p.clips {
                1int
            } else {
                0
            }) + (if p.card {
                1int
            } else {
                0
            })
        }),
{
    let own = El::Own(el);
    let made = surface_acts(el, p);
    let round = p.corner_radius.num.positive();
    let b: int = if p.background is Some {
        1
    } else {
        0
    };
    let r: int = if round {
        2
    } else {
        0
    };
    let c: int = if round || p.clips {
        1
    } else {
        0
    };
    if p.background is Some {
        assert(made[0] == SpecAct::Style(own, "background-color"@, rgba(p.background->0)));
    }
    if round {
        assert(made[b] == SpecAct::Style(own, "border-radius"@, p.corner_radius.text@ + "px"@));
        assert(made[b + 1] == SpecAct::Class(own, "day-clip"@, true));
    }
    if round || p.clips {
        assert(made[b + r] == SpecAct::Style(own, "overflow"@, "hidden"@));
    }
    if p.card {
        assert(made[b + r + c] == SpecAct::Class(own, "day-card"@, true));
    }
}

/// A picture is scaled by its word, and tinted through a mask of itself that is scaled alike; with
/// the tint all of that is taken off again.
pub proof fn a_picture_is_tinted_through_itself(el: u32, src: Seq<char>, m: ContentMode, c: Color)
    ensures
        ({
            let own = El::Own(el);
            let mask = "url(\""@ + src + "\")"@;
            let on = tint_acts(el, src, fit_word(m), Some(c));
            let off = tint_acts(el, src, fit_word(m), None);
            let size = if m == ContentMode::Fit {
                "contain"@
            } else if m == ContentMode::Fill {
                "cover"@
            } else {
                "100% 100%"@
            };
            &&& on == seq![
                SpecAct::Style(own, "mask-image"@, mask),
                Act::Style(own, "-webkit-mask-image"@, mask),
                Act::Style(own, "mask-size"@, size),
                Act::Style(own, "-webkit-mask-size"@, size),
                Act::Style(own, "mask-repeat"@, "no-repeat"@),
                Act::Style(own, "-webkit-mask-repeat"@, "no-repeat"@),
                Act::Style(own, "mask-position"@, "center"@),
                Act::Style(own, "-webkit-mask-position"@, "center"@),
                Act::Style(own, "background-color"@, hex_color(c)),
            ]
            &&& off.len() == on.len()
            &&& forall|i: int|
                0 <= i < 9 ==> match (#[trigger] on[i], off[i]) {
                    (Act::Style(a, name, _), Act::Style(b, same, value)) => a == b && name == same
                        && value == ""@,
                    _ => false,
                }
            &&& fit_word(ContentMode::Fit) == "contain"@
            &&& fit_word(ContentMode::Fill) == "cover"@
            &&& fit_word(ContentMode::Stretch) == "fill"@
        }),
{
    reveal_strlit("contain");
    reveal_strlit("cover");
    reveal_strlit("fill");
    assert("contain"@.len() != "fill"@.len());
    assert("cover"@.len() != "fill"@.len());
    let on = tint_acts(el, src, fit_word(m), Some(c));
    let off = tint_acts(el, src, fit_word(m), None);
    assert forall|i: int| 0 <= i < 9 implies match (#[trigger] on[i], off[i]) {
        (Act::Style(a, name, _), Act::Style(b, same, value)) => a == b && name == same && value
            == ""@,
        _ => false,
    } by {
        if i == 0 {
        } else if i == 1 {
        } else if i == 2 {
        } else if i == 3 {
        } else if i == 4 {
        } else if i == 5 {
        } else if i == 6 {
        } else if i == 7 {
        }
    }
}

/// A stretch of a text is an element of its own inside the text, a link where it leads somewhere,
/// with what it says and how it looks.
pub proof fn a_stretch_is_an_element(owner: u32, slot: u32, content: Seq<char>, r: TextRun)
    ensures
        ({
            let el = El::New(slot);
            let kind: u32 = if r.link is Some {
                crate::dom::looks::EL_LINK
            } else {
                crate::dom::looks::EL_SPAN
            };
            &&& span_acts(owner, slot, content, None) == seq![
                SpecAct::Create { slot, kind: crate::dom::looks::EL_SPAN },
                Act::Text(el, content),
                Act::Insert { parent: owner, child: el, index: LAST },
            ]
            &&& span_acts(owner, slot, content, Some(r)) == seq![
                SpecAct::Create { slot, kind },
                Act::Text(el, content),
            ] + run_acts(el, owner, r) + seq![
                SpecAct::Insert { parent: owner, child: el, index: LAST },
            ]
            &&& r.link matches Some(u) ==> link_act(el, owner, r) == seq![
                SpecAct::Link { el, owner, url: u@ },
            ]
            &&& r.color matches Some(c) ==> run_acts(el, owner, r).contains(
                Act::Style(el, "color"@, rgba(c)),
            )
            &&& r.background matches Some(c) ==> run_acts(el, owner, r).contains(
                Act::Style(el, "background-color"@, rgba(c)),
            )
            &&& r.link matches Some(u) ==> run_acts(el, owner, r).contains(
                Act::Link { el, owner, url: u@ },
            )
        }),
{
    let el = El::New(slot);
    let all = run_acts(el, owner, r);
    let f = font_acts(el, r.font).len() as int;
    let c: int = if r.color is Some {
        1
    } else {
        0
    };
    if r.color is Some {
        assert(all[f] == SpecAct::Style(el, "color"@, rgba(r.color->0)));
    }
    if r.background is Some {
        assert(all[f + c] == SpecAct::Style(el, "background-color"@, rgba(r.background->0)));
    }
    if r.link is Some {
        assert(all[all.len() - 1] == SpecAct::Link { el, owner, url: r.link->0@ });
    }
    assert(span_acts(owner, slot, content, None) =~= seq![
        SpecAct::Create { slot, kind: crate::dom::looks::EL_SPAN },
        Act::Text(el, content),
        Act::Insert { parent: owner, child: el, index: LAST },
    ]);
    let kind: u32 = if r.link is Some {
        crate::dom::looks::EL_LINK
    } else {
        crate::dom::looks::EL_SPAN
    };
    assert(span_acts(owner, slot, content, Some(r)) =~= seq![
        SpecAct::Create { slot, kind },
        Act::Text(el, content),
    ] + all + seq![SpecAct::Insert { parent: owner, child: el, index: LAST }]);
}

/// How many lines a text has: one more than it has breaks.
pub proof fn lines_are_between_breaks(t: Seq<char>)
    requires
        t.len() + 1 < u32::MAX,
    ensures
        lines(Seq::empty()) == 1,
        lines(t.push('\n')) == lines(t) + 1,
        forall|c: char| c != '\n' ==> #[trigger] lines(t.push(c)) == lines(t),
{
    breaks_fit(t);
    assert(t.push('\n').drop_last() =~= t);
    assert forall|c: char| c != '\n' implies #[trigger] lines(t.push(c)) == lines(t) by {
        assert(t.push(c).drop_last() =~= t);
    }
}

proof fn breaks_fit(t: Seq<char>)
    ensures
        crate::dom::realize::breaks(t) <= t.len(),
    decreases t.len(),
{
    if t.len() > 0 {
        breaks_fit(t.drop_last());
    }
}

// ---- making pieces -----------------------------------------------------------------------------

/// The element each piece is, by the shim's numbers.
pub proof fn pieces_are_elements(p: Piece)
    ensures
        p is Container ==> element(p) == 0,
        p is Label || p is Mismatched || p is Unrendered ==> element(p) == 1,
        p is Button ==> element(p) == 2,
        p is Toggle ==> element(p) == 3,
        p is Slider ==> element(p) == 4,
        p is TextField ==> element(p) == 5,
        p is TextArea ==> element(p) == 6,
        p matches Piece::Picker(q) ==> element(p) == if q.style == PickerStyle::Menu {
            7u32
        } else if q.style == PickerStyle::Segmented {
            19u32
        } else {
            20u32
        },
        p matches Piece::Progress(v) ==> element(p) == if v is Some {
            8u32
        } else {
            9u32
        },
        p matches Piece::Image(q) ==> element(p) == if q.tint is Some {
            0u32
        } else {
            10u32
        },
        p is Canvas ==> element(p) == 11,
        p is Scroll || p is List ==> element(p) == 12,
        p is Divider ==> element(p) == 13,
        p is Nav ==> element(p) == 14,
        p is NavPage || p is Cover ==> element(p) == 15,
        p is NavMenu ==> element(p) == 16,
{
}

/// The calls that make a control: what it shows, that it is disabled where it is, and the bits of
/// what it reports.
pub proof fn controls_are_made(el: u32, inner: u32, p: Piece, vectors: Seq<String>)
    ensures
        ({
            let own = El::Own(el);
            let made = realize_acts(el, inner, p, vectors);
            let off: Seq<SpecAct> = seq![Act::Attr(own, "disabled"@, "-"@)];
            &&& p matches Piece::Button(q) ==> {
                let head = seq![SpecAct::Text(own, q.title@)] + button_acts(el, q.style);
                &&& q.enabled ==> made == head + seq![SpecAct::Listen(el, 1)]
                &&& !q.enabled ==> made == head + off + seq![SpecAct::Listen(el, 1)]
            }
            &&& p matches Piece::Toggle(q) ==> {
                &&& q.enabled ==> made == seq![
                    SpecAct::Checked(el, q.on),
                    Act::Listen(el, 4),
                ]
                &&& !q.enabled ==> made == seq![
                    SpecAct::Checked(el, q.on),
                    Act::Attr(own, "disabled"@, "-"@),
                    Act::Listen(el, 4),
                ]
            }
            &&& p matches Piece::Slider(q) ==> q.enabled ==> made == seq![
                SpecAct::Attr(own, "min"@, q.min.text@),
                Act::Attr(own, "max"@, q.max.text@),
                Act::Attr(
                    own,
                    "step"@,
                    if q.step is Some {
                        (q.step->0).text@
                    } else {
                        "any"@
                    },
                ),
                Act::Value(el, q.value),
                Act::Listen(el, 6),
            ]
            &&& p matches Piece::TextField(q) ==> q.enabled ==> made == seq![
                SpecAct::Attr(own, "value"@, q.text@),
                Act::Attr(own, "placeholder"@, q.placeholder@),
                Act::Listen(el, 26),
            ]
            &&& p matches Piece::TextArea(q) ==> {
                &&& q.editable && q.selectable ==> made == seq![
                    SpecAct::Text(own, q.text@),
                    Act::Attr(own, "placeholder"@, q.placeholder@),
                    Act::Attr(
                        own,
                        "spellcheck"@,
                        if q.spellcheck {
                            "true"@
                        } else {
                            "false"@
                        },
                    ),
                    Act::Listen(el, 10),
                ]
                &&& !q.editable ==> made.contains(Act::Attr(own, "readonly"@, "-"@))
                &&& !q.selectable ==> made.contains(Act::Style(own, "user-select"@, "none"@))
            }
            &&& p matches Piece::Picker(q) ==> {
                let options = SpecAct::Options { el, json: picker(q.options@, q.selected) };
                &&& q.style == PickerStyle::Menu ==> made == seq![options, Act::Listen(el, 4)]
                &&& q.style != PickerStyle::Menu ==> made == seq![options]
            }
        }),
{
    let own = El::Own(el);
    let made = realize_acts(el, inner, p, vectors);
    match p {
        Piece::Button(q) => {
            let head = seq![SpecAct::Text(own, q.title@)] + button_acts(el, q.style);
            if q.enabled {
                assert(made =~= head + seq![SpecAct::Listen(el, 1)]);
            } else {
                let off: Seq<SpecAct> = seq![Act::Attr(own, "disabled"@, "-"@)];
                assert(made =~= head + off + seq![SpecAct::Listen(el, 1)]);
            }
        },
        Piece::TextArea(q) => {
            if !q.editable {
                assert(made[2] == SpecAct::Attr(own, "readonly"@, "-"@));
            }
            let k: int = if q.editable {
                2
            } else {
                3
            };
            if !q.selectable {
                assert(made[k] == SpecAct::Style(own, "user-select"@, "none"@));
            }
        },
        _ => {},
    }
}

/// The calls that make the other pieces.
pub proof fn plain_pieces_are_made(el: u32, inner: u32, p: Piece, vectors: Seq<String>)
    ensures
        ({
            let own = El::Own(el);
            let made = realize_acts(el, inner, p, vectors);
            &&& p matches Piece::Progress(v) ==> {
                &&& v is Some ==> made == seq![
                    SpecAct::Attr(own, "max"@, "1"@),
                    Act::Value(el, v->0),
                ]
                &&& v is None ==> made.len() == 0
            }
            &&& p is Canvas ==> made == seq![SpecAct::CanvasKeynav(el), Act::Listen(el, 8)]
            &&& p matches Piece::Scroll { horizontal } ==> {
                &&& horizontal ==> made == seq![
                    SpecAct::Class(own, "horizontal"@, true),
                    Act::Listen(el, 64),
                ]
                &&& !horizontal ==> made == seq![SpecAct::Listen(el, 64)]
            }
            &&& p is Divider ==> made.len() == 0
            &&& p matches Piece::Nav { presentation, title } ==> made == seq![
                SpecAct::NavMode {
                    el,
                    mode: if presentation == NavPresentation::Split {
                        0
                    } else if presentation == NavPresentation::Stack {
                        1
                    } else if presentation == NavPresentation::Tabs {
                        2
                    } else {
                        3
                    },
                    title: title@,
                },
                Act::Listen(el, 1),
            ]
            &&& p is NavPage ==> made == seq![SpecAct::Listen(el, 32)]
            &&& p is Cover ==> made == seq![
                SpecAct::Class(own, "day-cover"@, true),
                Act::Listen(el, 32),
            ]
            &&& p matches Piece::NavMenu { rows, selected } ==> made == seq![
                SpecAct::NavMenu { el, json: navmenu(rows, selected, vectors) },
            ]
            &&& p matches Piece::List(q) ==> {
                let start = SpecAct::Class(own, "day-list"@, true);
                let content = SpecAct::Insert { parent: el, child: El::Own(inner), index: 0 };
                &&& q.reorderable && q.selectable ==> made == seq![
                    start,
                    Act::ListReorder(el),
                    content,
                    Act::ListOnScroll(el),
                    Act::ListKeynav(el, q.multi_select),
                ]
                &&& q.reorderable && !q.selectable ==> made == seq![
                    start,
                    Act::ListReorder(el),
                    content,
                    Act::ListOnScroll(el),
                ]
                &&& !q.reorderable && q.selectable ==> made == seq![
                    start,
                    content,
                    Act::ListOnScroll(el),
                    Act::ListKeynav(el, q.multi_select),
                ]
                &&& !q.reorderable && !q.selectable ==> made == seq![
                    start,
                    content,
                    Act::ListOnScroll(el),
                ]
            }
        }),
{
}

/// A label says its text, looks like its font, has its color or is paler where it is secondary,
/// keeps to one line where it does not wrap, and stands at its side.
pub proof fn a_label_is_made(el: u32, inner: u32, q: LabelProps, vectors: Seq<String>)
    ensures
        ({
            let own = El::Own(el);
            let p = Piece::Label(q);
            let made = realize_acts(el, inner, p, vectors);
            let said = label_acts(el, q.text@, q.runs@) + font_acts(own, q.font);
            &&& q.runs@.len() == 0 ==> label_acts(el, q.text@, q.runs@) == seq![
                SpecAct::Text(own, q.text@),
            ]
            &&& made.len() >= said.len() && made.take(said.len() as int) == said
            &&& q.color is Some ==> made.contains(Act::Style(own, "color"@, rgba(q.color->0)))
            &&& q.color is None && q.role == TextRole::Secondary ==> made.contains(
                Act::Style(
                    own,
                    "color"@,
                    "color-mix(in srgb, currentColor 62%, transparent)"@,
                ),
            )
            &&& !q.wraps ==> made.contains(Act::Style(own, "white-space"@, "nowrap"@))
            &&& q.align == TextAlign::Center ==> made.contains(
                Act::Style(own, "text-align"@, "center"@),
            )
            &&& q.align == TextAlign::Trailing ==> made.contains(
                Act::Style(own, "text-align"@, "end"@),
            )
            &&& q.color is None && q.role != TextRole::Secondary && q.wraps && q.align
                == TextAlign::Leading ==> made == said
        }),
{
    let own = El::Own(el);
    let made = realize_acts(el, inner, Piece::Label(q), vectors);
    let said = label_acts(el, q.text@, q.runs@) + font_acts(own, q.font);
    assert(made.take(said.len() as int) =~= said);
    let n = said.len() as int;
    let c: int = if q.color is Some || q.role == TextRole::Secondary {
        1
    } else {
        0
    };
    let w: int = if q.wraps {
        0
    } else {
        1
    };
    if q.color is Some {
        assert(made[n] == SpecAct::Style(own, "color"@, rgba(q.color->0)));
    } else if q.role == TextRole::Secondary {
        assert(made[n] == SpecAct::Style(
            own,
            "color"@,
            "color-mix(in srgb, currentColor 62%, transparent)"@,
        ));
    }
    if !q.wraps {
        assert(made[n + c] == SpecAct::Style(own, "white-space"@, "nowrap"@));
    }
    if q.align == TextAlign::Center {
        assert(made[n + c + w] == SpecAct::Style(own, "text-align"@, "center"@));
    }
    if q.align == TextAlign::Trailing {
        assert(made[n + c + w] == SpecAct::Style(own, "text-align"@, "end"@));
    }
    if q.color is None && q.role != TextRole::Secondary && q.wraps && q.align
        == TextAlign::Leading {
        assert(made =~= said);
    }
}

/// What is remembered of a piece that was made.
pub proof fn pieces_are_remembered(
    v: DomView,
    el: u32,
    inner: u32,
    p: Piece,
    id: NodeId,
    vectors: Seq<String>,
)
    ensures
        ({
            let k = el as u64;
            let w = recorded(v, el, inner, p, id, vectors);
            &&& p matches Piece::TextArea(q) ==> w.area_hints.contains_key(k) && w.area_hints[k]
                == (q.min_lines, q.max_lines, lines(q.text@))
            &&& p matches Piece::Picker(q) ==> w.picker_selected.contains_key(k)
                && w.picker_selected[k] == q.selected && w.picker_size.contains_key(k)
                && w.picker_size[k] == q.intrinsic && (q.style == PickerStyle::Menu || (
            w.seg_count.contains_key(k) && w.seg_count[k] == q.options@.len()))
            &&& p matches Piece::Progress(n) ==> (n is None ==> w.spinners.contains_key(k))
            &&& p matches Piece::Image(q) ==> w.image_fit.contains_key(k) && w.image_fit[k]
                == q.content_mode && w.image_src.contains_key(k)
            &&& p matches Piece::Nav { presentation, title } ==> w.navs.contains_key(k)
                && w.navs[k].presentation == presentation && w.navs[k].pages.len() == 0
                && w.navs[k].titles == seq![title@] && w.navs[k].sidebar is None
                && w.navs[k].selected == 0
            &&& p matches Piece::NavPage { sidebar, .. } ==> w.page_sidebar.contains_key(k)
                && w.page_sidebar[k] == sidebar && w.css_framed.contains_key(k)
            &&& p is Cover ==> w.css_framed.contains_key(k)
            &&& p matches Piece::List(q) ==> w.lists.contains_key(k) && {
                let l = w.lists[k];
                &&& l.node == id && l.content == inner && !l.attached
                &&& l.cells.len() == 0 && l.bound.len() == 0 && l.selected.len() == 0
                &&& l.selectable == q.selectable && l.multi == q.multi_select
                &&& l.separators == (q.separators == Some(true))
                &&& q.pitch is Some ==> l.pitch == q.pitch->0
                &&& l.anchor is None && l.lead is None && !l.fill_pending
            }
            &&& p is Label || p is Button || p is Toggle || p is Slider || p is TextField
                || p is Canvas || p is Scroll || p is Divider || p is Container ==> w == v
        }),
{
}

// ---- changing pieces ---------------------------------------------------------------------------

/// What each change to a control comes to. A text that the field itself reported is not written
/// back.
pub proof fn controls_are_changed(
    v: DomView,
    el: u32,
    p: Patch,
    anim: Option<AnimSpec>,
    vectors: Seq<String>,
)
    ensures
        ({
            let own = El::Own(el);
            let made = update_acts(v, el, p, anim, vectors);
            let usable = |on: bool|
                SpecAct::Attr(
                    own,
                    "disabled"@,
                    if on {
                        ""@
                    } else {
                        "-"@
                    },
                );
            match p {
                Patch::Button(ButtonPatch::Title(t)) => made == seq![SpecAct::Text(own, t@)],
                Patch::Button(ButtonPatch::Enabled(on)) => made == seq![usable(on)],
                Patch::Button(ButtonPatch::Style(s)) => made == button_acts(el, s),
                Patch::Toggle(TogglePatch::On(on)) => made == seq![SpecAct::Checked(el, on)],
                Patch::Toggle(TogglePatch::Enabled(on)) => made == seq![usable(on)],
                Patch::Slider(SliderPatch::Value(n)) => made == seq![SpecAct::Value(el, n)],
                Patch::Slider(SliderPatch::Enabled(on)) => made == seq![usable(on)],
                Patch::TextField(TextFieldPatch::Text { text, from_native }) => {
                    &&& from_native ==> made.len() == 0
                    &&& !from_native ==> made == seq![SpecAct::Attr(own, "value"@, text@)]
                },
                Patch::TextField(TextFieldPatch::Placeholder(t)) => made == seq![
                    SpecAct::Attr(own, "placeholder"@, t@),
                ],
                Patch::TextField(TextFieldPatch::Enabled(on)) => made == seq![usable(on)],
                _ => true,
            }
        }),
{
}

/// What each change to a text area, a picker and a navigation menu comes to.
pub proof fn areas_and_pickers_are_changed(
    v: DomView,
    el: u32,
    p: Patch,
    anim: Option<AnimSpec>,
    vectors: Seq<String>,
)
    ensures
        ({
            let own = El::Own(el);
            let made = update_acts(v, el, p, anim, vectors);
            match p {
                Patch::TextArea(TextAreaPatch::SetText(t)) => made == seq![SpecAct::Text(own, t@)],
                Patch::TextArea(TextAreaPatch::SetEditable(on)) => made == seq![
                    SpecAct::Attr(
                        own,
                        "readonly"@,
                        if on {
                            ""@
                        } else {
                            "-"@
                        },
                    ),
                ],
                Patch::TextArea(TextAreaPatch::SetSelectable(on)) => made == seq![
                    SpecAct::Style(
                        own,
                        "user-select"@,
                        if on {
                            "text"@
                        } else {
                            "none"@
                        },
                    ),
                ],
                Patch::TextArea(TextAreaPatch::SetSpellCheck(on)) => made == seq![
                    SpecAct::Attr(
                        own,
                        "spellcheck"@,
                        if on {
                            "true"@
                        } else {
                            "false"@
                        },
                    ),
                ],
                Patch::Picker(PickerPatch::Selected(i)) => {
                    &&& v.seg_count.contains_key(el as u64) ==> made == seq![
                        SpecAct::OptionsSelect { el, index: i as u32 },
                    ]
                    &&& !v.seg_count.contains_key(el as u64) ==> made == seq![
                        SpecAct::Index(el, i),
                    ]
                },
                Patch::NavMenu(NavMenuPatch::Selected(None)) => made == seq![
                    SpecAct::NavMenuSelect { el, index: -1i32 },
                ],
                Patch::NavMenu(NavMenuPatch::Selected(Some(i))) => made == seq![
                    SpecAct::NavMenuSelect { el, index: i as i32 },
                ],
                Patch::NavMenu(NavMenuPatch::Items { rows, selected }) => made == seq![
                    SpecAct::NavMenu { el, json: navmenu(rows, selected, vectors) },
                ],
                _ => true,
            }
        }),
{
}

/// What each change to the other pieces comes to.
pub proof fn plain_pieces_are_changed(
    v: DomView,
    el: u32,
    p: Patch,
    anim: Option<AnimSpec>,
    vectors: Seq<String>,
)
    ensures
        ({
            let own = El::Own(el);
            let made = update_acts(v, el, p, anim, vectors);
            match p {
                Patch::Label(LabelPatch::Text(t)) => made == seq![SpecAct::Text(own, t@)],
                Patch::Label(LabelPatch::Color(Some(c))) => made == seq![
                    SpecAct::Style(own, "color"@, rgba(c)),
                ],
                Patch::Label(LabelPatch::Color(None)) => made == seq![
                    SpecAct::Style(own, "color"@, ""@),
                ],
                Patch::Label(LabelPatch::Font(f)) => made == font_acts(own, f),
                Patch::Background(c) => made == seq![
                    SpecAct::Style(
                        own,
                        "transition"@,
                        crate::dom::css::transition("background-color"@, anim),
                    ),
                    Act::Style(
                        own,
                        "background-color"@,
                        if c is Some {
                            rgba(c->0)
                        } else {
                            "transparent"@
                        },
                    ),
                ],
                Patch::Progress(Some(n)) => made == seq![SpecAct::Value(el, n)],
                Patch::List(ListPatch::Reload) => made == seq![SpecAct::PostPopulate(el)],
                Patch::List(ListPatch::Splice) => made == seq![SpecAct::PostPopulate(el)],
                Patch::List(ListPatch::ScrollToEnd) => made == seq![
                    SpecAct::ScrollEdge { el, edge: 1, animated: true },
                ],
                Patch::List(ListPatch::ScrollToRow(row)) => v.lists.contains_key(el as u64)
                    ==> made == seq![
                    SpecAct::ScrollToRow { el, row, pitch: v.lists[el as u64].pitch },
                ],
                _ => true,
            }
        }),
{
}

/// A font is put on as its whole text, with even figures where it asks for them.
pub proof fn a_font_is_put_on(el: El, f: FontSpec)
    ensures
        f.tabular ==> font_acts(el, f) == seq![
            SpecAct::Style(el, "font"@, crate::dom::css::font_shorthand(f)),
            Act::Style(el, "font-variant-numeric"@, "tabular-nums"@),
        ],
        !f.tabular ==> font_acts(el, f) == seq![
            SpecAct::Style(el, "font"@, crate::dom::css::font_shorthand(f)),
        ],
{
}

/// A cover that is presented stands last in the page's root and is open, in its color, and its app
/// node hears the page's size where the page has one; dismissed, it is open no more and its app
/// node hears that it is hidden.
pub proof fn a_cover_comes_and_goes(
    v: DomView,
    el: u32,
    anim: Option<AnimSpec>,
    vectors: Seq<String>,
    c: Color,
)
    requires
        v.nodes.contains_key(el as u64),
        v.viewport.width.positive(),
        v.viewport.height.positive(),
    ensures
        ({
            let own = El::Own(el);
            let node = Target::Node(v.nodes[el as u64]);
            let does = |p: CoverPatch| update_acts(v, el, Patch::Cover(p), anim, vectors);
            &&& does(CoverPatch::Present { background: Some(c) }) == seq![
                SpecAct::Style(own, "background-color"@, rgba(c)),
                Act::Insert { parent: 1, child: own, index: LAST },
                Act::Class(own, "open"@, true),
                Act::Emit { to: node, event: Event::FrameChanged(v.viewport) },
            ]
            &&& does(CoverPatch::Dismiss) == seq![
                SpecAct::Class(own, "open"@, false),
                Act::Emit { to: node, event: Event::CoverHidden },
            ]
        }),
{
}

/// What is remembered of a change: the option a picker shows, the lines of a text area's text, and
/// that a label's sizes are to be measured again.
pub proof fn changes_are_remembered(v: DomView, el: u32, t: String, i: usize)
    ensures
        ({
            let k = el as u64;
            let chosen = updated(v, el, Patch::Picker(PickerPatch::Selected(i)));
            let typed = updated(v, el, Patch::TextArea(TextAreaPatch::SetText(t)));
            let said = updated(v, el, Patch::Label(LabelPatch::Text(t)));
            &&& chosen.picker_selected.contains_key(k) && chosen.picker_selected[k] == i
            &&& v.area_hints.contains_key(k) ==> typed.area_hints.contains_key(k)
                && typed.area_hints[k] == (v.area_hints[k].0, v.area_hints[k].1, lines(t@))
            &&& !said.measured.contains_key(k)
        }),
{
}

/// A picker that gets other options keeps the one it shows, or where there are fewer the last.
pub proof fn a_picker_keeps_its_option(
    v: DomView,
    el: u32,
    anim: Option<AnimSpec>,
    vectors: Seq<String>,
    options: Vec<String>,
)
    requires
        v.picker_selected.contains_key(el as u64),
        options@.len() > 0,
    ensures
        ({
            let was = v.picker_selected[el as u64];
            update_acts(v, el, Patch::Picker(PickerPatch::Options(options)), anim, vectors)
                == seq![
                SpecAct::Options {
                    el,
                    json: picker(
                        options@,
                        if was < options@.len() {
                            was
                        } else {
                            (options@.len() - 1) as usize
                        },
                    ),
                },
            ]
        }),
{
    let n: usize = options.len();
    assert(options@.len() == n);
}

// ---- the tree ----------------------------------------------------------------------------------

/// A child goes to its place under its parent; under a navigation host it is a page, in the chrome
/// where it is the sidebar's and the host is no stack, and the host knows it.
pub proof fn children_go_to_their_places(v: DomView, parent: u32, child: u32, index: usize)
    requires
        index <= u32::MAX,
    ensures
        !v.navs.contains_key(parent as u64) ==> insert_act(v, parent, child, index)
            == (SpecAct::Insert { parent, child: El::Own(child), index: index as u32 })
            && inserted(v, parent, child) == v && removed(v, parent, child) == v,
        v.navs.contains_key(parent as u64) ==> {
            let nav = v.navs[parent as u64];
            let side = v.page_sidebar.contains_key(child as u64) && v.page_sidebar[child as u64];
            let chrome = side && nav.presentation != NavPresentation::Stack;
            let w = inserted(v, parent, child);
            &&& insert_act(v, parent, child, index) == (SpecAct::NavAddPage {
                nav: parent,
                page: child,
                chrome,
            })
            &&& w.navs.contains_key(parent as u64)
            &&& !chrome ==> w.navs[parent as u64].pages == nav.pages.push(child)
            &&& chrome ==> w.navs[parent as u64].pages == nav.pages
            &&& side ==> w.navs[parent as u64].sidebar == Some(child)
        },
{
}

/// Each new cell of a list is known by its list and its row, the k-th by the k-th row.
pub proof fn cells_know_their_rows(
    m: Map<u64, (u32, usize)>,
    host: u32,
    created: Seq<u32>,
    rows: Seq<usize>,
    k: int,
)
    requires
        created.no_duplicates(),
        0 <= k < created.len() == rows.len(),
    ensures
        ({
            let all = cells_known(m, host, created, rows, created.len() as int);
            &&& all.contains_key(created[k] as u64)
            &&& all[created[k] as u64] == (host, rows[k])
        }),
{
    known_up_to(m, host, created, rows, created.len() as int, k);
}

proof fn known_up_to(
    m: Map<u64, (u32, usize)>,
    host: u32,
    created: Seq<u32>,
    rows: Seq<usize>,
    n: int,
    k: int,
)
    requires
        created.no_duplicates(),
        0 <= k < n <= created.len() == rows.len(),
    ensures
        ({
            let all = cells_known(m, host, created, rows, n);
            &&& all.contains_key(created[k] as u64)
            &&& all[created[k] as u64] == (host, rows[k])
        }),
    decreases n,
{
    if k < n - 1 {
        known_up_to(m, host, created, rows, n - 1, k);
        assert(created[k] != created[n - 1]);
    }
}

/// A text area shows as many lines as its text has, but no fewer than the fewest it is told, which
/// is one at least, and no more than the most, where it is told any, unless the fewest are more.
pub proof fn an_area_shows_its_lines(fewest: u32, most: u32, text: u32)
    ensures
        ({
            let shown = area_lines((fewest, most, text));
            let least = if fewest > 1 {
                fewest
            } else {
                1
            };
            &&& shown >= least
            &&& shown == least || shown == text || shown == most
            &&& most > 0 ==> shown <= most || shown == least
            &&& text >= least && (most == 0 || text <= most) ==> shown == text
            &&& text <= least ==> shown == least
            &&& most >= least && most > 0 && text > most ==> shown == most
        }),
{
}

/// What the elements made by some calls say, one behind the other.
pub open spec fn said_by(s: Seq<SpecAct>) -> Seq<char>
    decreases s.len(),
{
    if s.len() == 0 {
        Seq::empty()
    } else {
        said_by(s.drop_last()) + match s.last() {
            Act::Text(El::New(_), text) => text,
            _ => Seq::empty(),
        }
    }
}

proof fn said_one_more(s: Seq<SpecAct>, a: SpecAct)
    ensures
        said_by(s.push(a)) == said_by(s) + match a {
            Act::Text(El::New(_), text) => text,
            _ => Seq::empty(),
        },
{
    assert(s.push(a).drop_last() =~= s);
}

proof fn said_in_turn(a: Seq<SpecAct>, b: Seq<SpecAct>)
    ensures
        said_by(a + b) == said_by(a) + said_by(b),
    decreases b.len(),
{
    if b.len() == 0 {
        assert(a + b =~= a);
        assert(said_by(a) + said_by(b) =~= said_by(a));
    } else {
        said_in_turn(a, b.drop_last());
        assert((a + b).drop_last() =~= a + b.drop_last());
        assert((a + b).last() == b.last());
        let last = match b.last() {
            Act::Text(El::New(_), text) => text,
            _ => Seq::empty(),
        };
        assert((said_by(a) + said_by(b.drop_last())) + last =~= said_by(a) + (said_by(
            b.drop_last(),
        ) + last));
    }
}

proof fn silent_acts(s: Seq<SpecAct>)
    requires
        forall|i: int| 0 <= i < s.len() ==> !((#[trigger] s[i]) is Text),
    ensures
        said_by(s) == Seq::<char>::empty(),
    decreases s.len(),
{
    if s.len() > 0 {
        assert(!(s[s.len() - 1] is Text));
        silent_acts(s.drop_last());
    }
}

proof fn a_span_says_its_text(owner: u32, slot: u32, content: Seq<char>, run: Option<TextRun>)
    ensures
        said_by(span_acts(owner, slot, content, run)) == content,
{
    let el = El::New(slot);
    let kind = match run {
        Some(r) => if r.link is Some {
            EL_LINK
        } else {
            EL_SPAN
        },
        None => EL_SPAN,
    };
    let none = Seq::<SpecAct>::empty();
    let one = none.push(SpecAct::Create { slot, kind });
    let two = one.push(SpecAct::Text(el, content));
    said_one_more(none, SpecAct::Create { slot, kind });
    said_one_more(one, SpecAct::Text(el, content));
    assert(two =~= seq![SpecAct::Create { slot, kind }, SpecAct::Text(el, content)]);
    let looks = match run {
        Some(r) => run_acts(el, owner, r),
        None => Seq::empty(),
    };
    silent_acts(looks);
    said_in_turn(two, looks);
    said_one_more(two + looks, SpecAct::Insert { parent: owner, child: el, index: LAST });
    assert(said_by(span_acts(owner, slot, content, run)) =~= content);
}

proof fn spans_say_their_pieces(
    owner: u32,
    content: Seq<char>,
    runs: Seq<TextRun>,
    segs: Seq<Segment>,
    n: int,
)
    requires
        0 <= n <= segs.len(),
    ensures
        said_by(spans(owner, content, runs, segs, n)) == joined(content, segs.take(n)),
    decreases n,
{
    if n > 0 {
        spans_say_their_pieces(owner, content, runs, segs, n - 1);
        let seg = segs[n - 1];
        let text = piece(content, seg.start as int, seg.end as int);
        let run = run_of(runs, seg);
        a_span_says_its_text(owner, (n - 1) as u32, text, run);
        said_in_turn(
            spans(owner, content, runs, segs, n - 1),
            span_acts(owner, (n - 1) as u32, text, run),
        );
        assert(segs.take(n).drop_last() =~= segs.take(n - 1));
        assert(segs.take(n).last() == seg);
    }
}

/// A label with runs is emptied and then filled with an element for each stretch; together they
/// say the whole text, where the runs are in order.
pub proof fn a_styled_label_says_its_text(el: u32, content: Seq<char>, runs: Seq<TextRun>)
    requires
        runs.len() > 0,
        in_order(content, runs),
        encode_utf8(content).len() <= usize::MAX,
    ensures
        label_acts(el, content, runs)[0] == SpecAct::Text(El::Own(el), ""@),
        said_by(label_acts(el, content, runs)) == content,
{
    let segs = stretches(content, runs, 0, 0);
    let cleared = seq![SpecAct::Text(El::Own(el), ""@)];
    let none = Seq::<SpecAct>::empty();
    said_one_more(none, SpecAct::Text(El::Own(el), ""@));
    assert(none.push(SpecAct::Text(El::Own(el), ""@)) =~= cleared);
    said_in_turn(cleared, spans(el, content, runs, segs, segs.len() as int));
    spans_say_their_pieces(el, content, runs, segs, segs.len() as int);
    assert(segs.take(segs.len() as int) =~= segs);
    ordered_runs_keep_the_text(content, runs);
    assert(said_by(label_acts(el, content, runs)) =~= joined(content, segs));
}

} // verus!
