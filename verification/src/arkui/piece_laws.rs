//! What each piece is made of, what is remembered of it, and what each change to it comes to,
//! call by call; and how pages come and go.
use crate::arkui::act::{Act, SpecAct};
use crate::arkui::looks::{
    argb_of, button_look, cut_argb_of, font_attrs, label_runs, points_of, run_flags, span_act,
    spans, themed,
};
use crate::arkui::menu::{picture, rawfile};
use crate::arkui::nav::{
    destination_gone, gone_acts, page_pushed, page_taken, shown, top_popped, TrackView,
};
use crate::arkui::realize::{fit_number, kinds_for, realize_acts, realized};
use crate::arkui::state::ArkView;
use crate::arkui::suite::layout_acts;
use crate::arkui::tree::{frame_acts, framed, insert_acts, inserted, remove_acts};
use crate::arkui::update::{
    cover_hidden, cover_shown, hide_acts, kept_option, show_acts, update_acts, updated,
};
use crate::model::{
    ButtonStyle, Color, ContentMode, Event, Font, FontSpec, FontWeight, Length, NavPatch,
    NavPresentation, Rect, Size, Target, TextRun, Underline,
};
use crate::num::Num;
use crate::pieces::{
    ButtonPatch, LabelPatch, ListPatch, Patch, PickerPatch, Piece, SliderPatch, TextAreaPatch,
    TextFieldPatch, TogglePatch,
};
use crate::runs::{in_order, joined, ordered_runs_keep_the_text, stretches, Segment};
use crate::text::{join, split};
use vstd::prelude::*;
use vstd::utf8::encode_utf8;

verus! {

// ---- looks -------------------------------------------------------------------------------------

/// A color's number has its alpha in the highest byte and behind it red, green and blue; and
/// likewise when it is cut and not rounded.
pub proof fn colors_unpack(c: Color)
    ensures
        argb_of(c) / 0x100_0000 == c.a.near,
        argb_of(c) / 0x1_0000 % 256 == c.r.near,
        argb_of(c) / 0x100 % 256 == c.g.near,
        argb_of(c) % 256 == c.b.near,
        cut_argb_of(c) / 0x100_0000 == c.a.cut,
        cut_argb_of(c) / 0x1_0000 % 256 == c.r.cut,
        cut_argb_of(c) / 0x100 % 256 == c.g.cut,
        cut_argb_of(c) % 256 == c.b.cut,
{
}

/// The steps of the ramp in points, and which of two colors a theme takes.
pub proof fn fonts_and_themes(pt: Num, name: String, light: u32, dark: u32)
    ensures
        points_of(Font::LargeTitle) == Length::Whole(34),
        points_of(Font::Title) == Length::Whole(28),
        points_of(Font::Title2) == Length::Whole(22),
        points_of(Font::Title3) == Length::Whole(20),
        points_of(Font::Headline) == Length::Whole(17),
        points_of(Font::Body) == Length::Whole(17),
        points_of(Font::Callout) == Length::Whole(16),
        points_of(Font::Subheadline) == Length::Whole(15),
        points_of(Font::Footnote) == Length::Whole(13),
        points_of(Font::Caption) == Length::Whole(12),
        points_of(Font::Caption2) == Length::Whole(11),
        points_of(Font::System(pt)) == Length::Given(pt),
        points_of(Font::Custom(name, pt)) == Length::Given(pt),
        themed(true, light, dark) == dark,
        themed(false, light, dark) == light,
{
}

/// A font's own family is named where it has one; its figures are of even width where it asks.
pub proof fn a_font_is_put_on(node: u64, f: FontSpec)
    ensures
        ({
            let figures = SpecAct::FontFeature {
                node,
                feature: if f.tabular {
                    "tnum 1"@
                } else {
                    ""@
                },
            };
            &&& f.style matches Font::Custom(family, _) ==> font_attrs(node, f) == seq![
                SpecAct::FontFamily { node, family: family@ },
                figures,
            ]
            &&& !(f.style is Custom) ==> font_attrs(node, f) == seq![figures]
        }),
{
}

/// A run's flags are one bit each for what it is: heavy, italic, of even width, struck through,
/// colored, with a background, underlined. A stretch outside all runs has none.
pub proof fn a_run_is_flagged(node: u64, text: Seq<char>, r: TextRun)
    ensures
        ({
            let n = run_flags(r) as int;
            &&& 0 <= n < 128
            &&& n % 2 == 1 <==> (r.font.weight is Some && (r.font.weight->0
                == FontWeight::Semibold || r.font.weight->0 == FontWeight::Bold
                || r.font.weight->0 == FontWeight::Heavy || r.font.weight->0
                == FontWeight::Black))
            &&& n / 2 % 2 == 1 <==> r.font.italic
            &&& n / 4 % 2 == 1 <==> r.font.monospace
            &&& n / 8 % 2 == 1 <==> r.strikethrough
            &&& n / 16 % 2 == 1 <==> r.color is Some
            &&& n / 32 % 2 == 1 <==> r.background is Some
            &&& n / 64 % 2 == 1 <==> r.underline != Underline::Off
        }),
        span_act(node, text, Some(r)) == (SpecAct::RunsAdd {
            node,
            text,
            flags: run_flags(r),
            color: if r.color is Some {
                argb_of(r.color->0)
            } else {
                0
            },
            background: if r.background is Some {
                argb_of(r.background->0)
            } else {
                0
            },
            scale: Some(r.font.scale),
            base: points_of(r.font.style),
        }),
        span_act(node, text, None) == (SpecAct::RunsAdd {
            node,
            text,
            flags: 0,
            color: 0,
            background: 0,
            scale: None,
            base: Length::Whole(0),
        }),
        label_runs(node, text, Seq::empty()) == seq![SpecAct::Text { node, text }],
{
    let one = |on: bool|
        if on {
            1int
        } else {
            0
        };
    let heavy = r.font.weight is Some && (r.font.weight->0 == FontWeight::Semibold
        || r.font.weight->0 == FontWeight::Bold || r.font.weight->0 == FontWeight::Heavy
        || r.font.weight->0 == FontWeight::Black);
    let (a, b, c) = (one(heavy), one(r.font.italic), one(r.font.monospace));
    let (d, e, f) = (one(r.strikethrough), one(r.color is Some), one(r.background is Some));
    let g = one(r.underline != Underline::Off);
    assert(run_flags(r) == a + 2 * b + 4 * c + 8 * d + 16 * e + 32 * f + 64 * g);
    seven_bits(a, b, c, d, e, f, g);
}

proof fn seven_bits(a: int, b: int, c: int, d: int, e: int, f: int, g: int)
    requires
        0 <= a <= 1 && 0 <= b <= 1 && 0 <= c <= 1 && 0 <= d <= 1,
        0 <= e <= 1 && 0 <= f <= 1 && 0 <= g <= 1,
    ensures
        ({
            let n = a + 2 * b + 4 * c + 8 * d + 16 * e + 32 * f + 64 * g;
            &&& n % 2 == a
            &&& n / 2 % 2 == b
            &&& n / 4 % 2 == c
            &&& n / 8 % 2 == d
            &&& n / 16 % 2 == e
            &&& n / 32 % 2 == f
            &&& n / 64 % 2 == g
        }),
{
    let n = a + 2 * b + 4 * c + 8 * d + 16 * e + 32 * f + 64 * g;
    assert(n / 2 == b + 2 * c + 4 * d + 8 * e + 16 * f + 32 * g);
    assert(n / 4 == c + 2 * d + 4 * e + 8 * f + 16 * g);
    assert(n / 8 == d + 2 * e + 4 * f + 8 * g);
    assert(n / 16 == e + 2 * f + 4 * g);
    assert(n / 32 == f + 2 * g);
    assert(n / 64 == g);
}

/// Where a staged picture lies, and that only a vector takes a tint.
pub proof fn pictures_are_staged(node: u64, name: Seq<char>, argb: u32, vectors: Seq<String>)
    ensures
        ({
            let known = exists|i: int| 0 <= i < vectors.len() && (#[trigger] vectors[i])@ == name;
            let src = if known {
                "resource://RAWFILE/day/"@ + name + ".svg"@
            } else {
                "resource://RAWFILE/day/"@ + name + ".png"@
            };
            &&& rawfile(name, vectors) == src
            &&& known ==> picture(node, name, Some(argb), vectors) == seq![
                SpecAct::ImageSource { node, src },
                Act::ImageFill { node, argb },
            ]
            &&& !known ==> picture(node, name, Some(argb), vectors) == seq![
                SpecAct::ImageSource { node, src },
            ]
            &&& picture(node, name, None, vectors) == seq![SpecAct::ImageSource { node, src }]
        }),
        fit_number(ContentMode::Fit) == 0,
        fit_number(ContentMode::Fill) == 1,
        fit_number(ContentMode::Stretch) == 3,
{
    assert(crate::dom::css::listed(vectors, name) == (exists|i: int|
        0 <= i < vectors.len() && (#[trigger] vectors[i])@ == name));
}

/// A tinted button takes its two colors, cut; the other styles are the platform's.
pub proof fn a_button_is_tinted(node: u64, tint: Color, over: Color)
    ensures
        button_look(node, ButtonStyle::Tinted(tint, over)) == seq![
            SpecAct::Background { node, argb: cut_argb_of(tint) },
            Act::FontColor { node, argb: cut_argb_of(over) },
        ],
        button_look(node, ButtonStyle::Prominent).len() == 0,
{
}

// ---- making pieces -----------------------------------------------------------------------------

/// The native nodes each piece is made of, by the platform's numbers.
pub proof fn pieces_have_their_nodes(piece: Piece)
    ensures
        piece is Container ==> kinds_for(piece, false) == seq![0u32],
        piece is Scroll ==> kinds_for(piece, false) == seq![6u32, 0u32],
        piece is Image ==> kinds_for(piece, false) == seq![9u32],
        piece is Label ==> kinds_for(piece, false) == seq![1u32],
        piece is Button ==> kinds_for(piece, false) == seq![2u32],
        piece is TextField ==> kinds_for(piece, false) == seq![3u32],
        piece is TextArea ==> kinds_for(piece, false) == seq![16u32],
        piece is Picker ==> kinds_for(piece, false) == seq![17u32],
        piece is Toggle ==> kinds_for(piece, false) == seq![4u32],
        piece is Slider ==> kinds_for(piece, false) == seq![5u32],
        piece is Divider ==> kinds_for(piece, false) == seq![0u32],
        piece matches Piece::Progress(p) ==> kinds_for(piece, false) == if p is Some {
            seq![11u32]
        } else {
            seq![8u32]
        },
        piece matches Piece::Nav { presentation, .. } ==> kinds_for(piece, false) == if presentation
            == NavPresentation::Tabs || presentation == NavPresentation::Rail {
            seq![7u32, 0u32, 15u32]
        } else {
            seq![0u32]
        },
        piece is NavPage ==> kinds_for(piece, false) == seq![0u32],
        piece is Canvas ==> kinds_for(piece, false) == seq![10u32],
        piece is List ==> kinds_for(piece, false) == seq![13u32],
{
}

/// The calls that make a control: what it shows, and that it reports, by the number of what it
/// reports, and takes the focus.
pub proof fn controls_are_made(
    v: ArkView,
    piece: Piece,
    id: u64,
    nodes: Seq<u64>,
    vectors: Seq<String>,
)
    ensures
        ({
            let n = nodes[0];
            let made = realize_acts(v, piece, id, nodes, vectors);
            &&& piece matches Piece::Button(p) ==> !(p.style is Tinted) ==> made == seq![
                SpecAct::ButtonLabel { node: n, text: p.title@ },
                Act::Register { node: n, kind: 0, id },
                Act::EnableFocus { node: n, id, text: false },
            ]
            &&& piece matches Piece::TextField(p) ==> made == seq![
                SpecAct::InputText { node: n, text: p.text@ },
                Act::Placeholder { node: n, text: p.placeholder@ },
                Act::Register { node: n, kind: 1, id },
                Act::EnableFocus { node: n, id, text: true },
            ]
            &&& piece matches Piece::TextArea(p) ==> made == seq![
                SpecAct::AreaText { node: n, text: p.text@ },
                Act::AreaPlaceholder { node: n, text: p.placeholder@ },
                Act::Register { node: n, kind: 7, id },
                Act::EnableFocus { node: n, id, text: true },
            ]
            &&& piece matches Piece::Toggle(p) ==> made == seq![
                SpecAct::Toggle { node: n, on: p.on },
                Act::Register { node: n, kind: 2, id },
                Act::EnableFocus { node: n, id, text: false },
            ]
            &&& piece matches Piece::Slider(p) ==> made == seq![
                SpecAct::Slider { node: n, value: p.value, min: p.min.num, max: p.max.num },
                Act::Register { node: n, kind: 3, id },
                Act::EnableFocus { node: n, id, text: false },
            ]
            &&& piece matches Piece::Picker(p) ==> made == seq![
                SpecAct::Options {
                    node: n,
                    options: join(crate::model::texts(p.options@), ';'),
                    selected: p.selected as u32,
                },
                Act::Register { node: n, kind: 8, id },
                Act::EnableFocus { node: n, id, text: false },
            ]
        }),
{
    let n = nodes[0];
    let made = realize_acts(v, piece, id, nodes, vectors);
    match piece {
        Piece::Button(p) => {
            if !(p.style is Tinted) {
                assert(made =~= seq![
                    SpecAct::ButtonLabel { node: n, text: p.title@ },
                    Act::Register { node: n, kind: 0, id },
                    Act::EnableFocus { node: n, id, text: false },
                ]);
            }
        },
        _ => {},
    }
}

/// The calls that make the other pieces.
pub proof fn plain_pieces_are_made(
    v: ArkView,
    piece: Piece,
    id: u64,
    nodes: Seq<u64>,
    vectors: Seq<String>,
)
    ensures
        ({
            let n = nodes[0];
            let made = realize_acts(v, piece, id, nodes, vectors);
            &&& piece matches Piece::Container(p) ==> {
                &&& p.card && !p.corner_radius.num.positive() ==> made == seq![
                    SpecAct::Background {
                        node: n,
                        argb: if v.dark {
                            0x2EFF_FFFFu32
                        } else {
                            0x1480_8080u32
                        },
                    },
                ]
                &&& !p.card && p.background is Some && p.corner_radius.num.positive() ==> made
                    == seq![
                    SpecAct::Background { node: n, argb: argb_of(p.background->0) },
                    Act::CornerRadius { node: n, radius: p.corner_radius.num },
                ]
                &&& !p.card && p.background is None && !p.corner_radius.num.positive()
                    ==> made.len() == 0
            }
            &&& piece matches Piece::Scroll { horizontal } ==> made == seq![
                SpecAct::ScrollDirection { node: n, horizontal },
                Act::Insert { parent: n, child: nodes[1], index: 0 },
            ]
            &&& piece is Divider ==> made == seq![
                SpecAct::Background {
                    node: n,
                    argb: if v.dark {
                        0x33FF_FFFFu32
                    } else {
                        0x3300_0000u32
                    },
                },
            ]
            &&& piece matches Piece::Progress(p) ==> {
                &&& p is Some ==> made == seq![SpecAct::Progress { node: n, value: p->0 }]
                &&& p is None ==> made.len() == 0
            }
            &&& piece matches Piece::Nav { presentation, .. } ==> {
                let suite = presentation == NavPresentation::Tabs || presentation
                    == NavPresentation::Rail;
                &&& suite ==> made == seq![
                    SpecAct::Insert { parent: n, child: nodes[1], index: 0 },
                    Act::Insert { parent: n, child: nodes[2], index: 1 },
                    Act::Background {
                        node: nodes[2],
                        argb: if v.dark {
                            0xFF1C_1C1Eu32
                        } else {
                            0xFFF1_F3F5u32
                        },
                    },
                    Act::Emit {
                        to: Target::Node(id),
                        event: Event::NavPresentationChanged(NavPresentation::Tabs),
                    },
                ]
                &&& !suite ==> made.len() == 0
            }
            &&& piece is NavPage ==> made == seq![
                SpecAct::Background {
                    node: n,
                    argb: if v.dark {
                        0xFF1A_1A1Cu32
                    } else {
                        0xFFFF_FFFFu32
                    },
                },
            ]
            &&& piece is Cover ==> made.len() == 0
            &&& piece is Canvas ==> made == seq![SpecAct::CanvasInit { node: n, id }]
            &&& piece matches Piece::List(p) ==> !p.delete_label@.contains('\0') ==> made == seq![
                SpecAct::ListInit {
                    node: n,
                    id,
                    pitch: if p.pitch is Some {
                        p.pitch->0
                    } else {
                        Num { bits: 0 }
                    },
                    selectable: p.selectable,
                    reorderable: p.reorderable,
                    deletable: p.deletable,
                    delete_label: p.delete_label@,
                },
            ]
            &&& piece matches Piece::Mismatched(kind) ==> made == seq![
                SpecAct::Report { kind: kind@ },
            ]
            &&& piece matches Piece::Unrendered(kind) ==> made == seq![
                SpecAct::Report { kind: kind@ },
            ]
        }),
{
}

/// The calls that make a label: its text, its size, its color or on a dark theme the light one, its
/// font, and its runs where it has any.
pub proof fn labels_are_made(
    v: ArkView,
    piece: Piece,
    id: u64,
    nodes: Seq<u64>,
    vectors: Seq<String>,
)
    requires
        piece is Label,
    ensures
        piece matches Piece::Label(p) && {
            let n = nodes[0];
            let made = realize_acts(v, piece, id, nodes, vectors);
            let ink: Seq<SpecAct> = if p.color is Some {
                seq![Act::FontColor { node: n, argb: argb_of(p.color->0) }]
            } else if v.dark {
                seq![Act::FontColor { node: n, argb: 0xE6FF_FFFFu32 }]
            } else {
                Seq::empty()
            };
            let head = seq![
                SpecAct::Text { node: n, text: p.text@ },
                Act::FontSize { node: n, size: points_of(p.font.style) },
            ] + ink + font_attrs(n, p.font);
            &&& p.runs@.len() == 0 ==> made == head
            &&& p.runs@.len() > 0 ==> made == head + label_runs(n, p.text@, p.runs@)
        },
{
    let n = nodes[0];
    let made = realize_acts(v, piece, id, nodes, vectors);
    match piece {
        Piece::Label(p) => {
            let ink: Seq<SpecAct> = if p.color is Some {
                seq![Act::FontColor { node: n, argb: argb_of(p.color->0) }]
            } else if v.dark {
                seq![Act::FontColor { node: n, argb: 0xE6FF_FFFFu32 }]
            } else {
                Seq::empty()
            };
            let head = seq![
                SpecAct::Text { node: n, text: p.text@ },
                Act::FontSize { node: n, size: points_of(p.font.style) },
            ] + ink + font_attrs(n, p.font);
            if p.runs@.len() == 0 {
                assert(made =~= head);
            } else {
                assert(made =~= head + label_runs(n, p.text@, p.runs@));
            }
        },
        _ => {},
    }
}

/// What is remembered of a piece that was made: a control's app node by its own, the text or value
/// it was given, which will come back, and a picker's option; a scroller's content; a page's and a
/// cover's app node; a list's.
pub proof fn pieces_are_remembered(
    v: ArkView,
    piece: Piece,
    id: u64,
    nodes: Seq<u64>,
    vectors: Seq<String>,
)
    ensures
        ({
            let n = nodes[0];
            let w = realized(v, piece, id, nodes, vectors);
            &&& piece is Scroll ==> w.scroll_content == v.scroll_content.insert(n, nodes[1])
            &&& piece matches Piece::TextField(p) ==> w.controls.contains_key(n) && w.controls[n]
                == id && w.text_echo.contains_key(id) && w.text_echo[id] == p.text@
            &&& piece matches Piece::TextArea(p) ==> w.controls.contains_key(n) && w.controls[n]
                == id && w.text_echo.contains_key(id) && w.text_echo[id] == p.text@
                && w.area_lines.contains_key(n) && w.area_lines[n] == (p.min_lines, p.max_lines)
            &&& piece matches Piece::Picker(p) ==> w.controls.contains_key(n) && w.controls[n]
                == id && w.picked.contains_key(id) && w.picked[id] == p.selected
            &&& piece matches Piece::Slider(p) ==> w.controls.contains_key(n) && w.controls[n]
                == id && w.slider_echo.contains_key(id) && w.slider_echo[id] == p.value
                && w.ranges.contains_key(id) && w.ranges[id] == (p.min.num, p.max.num)
            &&& piece is NavPage ==> w.nav.page_ids.contains_key(n) && w.nav.page_ids[n] == id
            &&& piece is Cover ==> w.covers.contains_key(n) && w.covers[n] == id
            &&& piece is List ==> w.lists.contains_key(n) && w.lists[n] == id
            &&& piece matches Piece::Nav { presentation, .. } ==> {
                let suite = presentation == NavPresentation::Tabs || presentation
                    == NavPresentation::Rail;
                &&& suite ==> w.suite is Some && (w.suite->0).host == n && (w.suite->0).pages
                    == nodes[1] && (w.suite->0).bar == nodes[2] && (w.suite->0).items.len() == 0
                    && (w.suite->0).selected == 0
                &&& !suite ==> w.nav.host == Some((id, n)) && w.nav.stack.len() == 0
                    && w.nav.attached.len() == 0
            }
            &&& piece is Container || piece is Label || piece is Button || piece is Toggle
                || piece is Divider || piece is Progress || piece is Image || piece is Canvas
                ==> w == v
        }),
{
}

// ---- changing pieces ---------------------------------------------------------------------------

/// What each change to a control comes to, and what is remembered of it. A text that the control
/// itself reported is not written back; one that the app sets is, and will come back once.
pub proof fn controls_are_changed(
    v: ArkView,
    node: u64,
    id: u64,
    nodes: Seq<u64>,
    vectors: Seq<String>,
    t: String,
    on: bool,
    value: Num,
    i: usize,
)
    requires
        v.controls.contains_key(node),
        v.controls[node] == id,
        i <= u32::MAX,
    ensures
        ({
            let does = |p: Patch| update_acts(v, node, p, nodes, vectors);
            let then_ = |p: Patch| updated(v, node, p, nodes, vectors);
            let typed = Patch::TextField(TextFieldPatch::Text { text: t, from_native: true });
            let told = Patch::TextField(TextFieldPatch::Text { text: t, from_native: false });
            let area = Patch::TextArea(TextAreaPatch::SetText(t));
            let slid = Patch::Slider(SliderPatch::Value(value));
            let chosen = Patch::Picker(PickerPatch::Selected(i));
            &&& does(typed).len() == 0 && then_(typed) == v
            &&& does(told) == seq![SpecAct::InputText { node, text: t@ }]
            &&& then_(told).text_echo.contains_key(id) && then_(told).text_echo[id] == t@
            &&& does(area) == seq![SpecAct::AreaText { node, text: t@ }]
            &&& then_(area).text_echo.contains_key(id) && then_(area).text_echo[id] == t@
            &&& does(Patch::Toggle(TogglePatch::On(on))) == seq![SpecAct::Toggle { node, on }]
            &&& v.ranges.contains_key(id) ==> does(slid) == seq![
                SpecAct::Slider { node, value, min: v.ranges[id].0, max: v.ranges[id].1 },
            ]
            &&& !v.ranges.contains_key(id) ==> does(slid) == seq![
                SpecAct::Slider {
                    node,
                    value,
                    min: Num { bits: 0 },
                    max: Num { bits: 0x3ff0_0000_0000_0000 },
                },
            ]
            &&& then_(slid).slider_echo.contains_key(id) && then_(slid).slider_echo[id] == value
            &&& does(chosen) == seq![SpecAct::SelectOption { node, index: i as u32 }]
            &&& then_(chosen).picked.contains_key(id) && then_(chosen).picked[id] == i
        }),
{
}

/// What each change to the other pieces comes to.
pub proof fn plain_pieces_are_changed(
    v: ArkView,
    node: u64,
    nodes: Seq<u64>,
    vectors: Seq<String>,
    t: String,
    c: Color,
    value: Num,
    f: FontSpec,
    row: usize,
)
    requires
        row <= u32::MAX,
    ensures
        ({
            let does = |p: Patch| update_acts(v, node, p, nodes, vectors);
            &&& does(Patch::Background(Some(c))) == seq![
                SpecAct::Background { node, argb: argb_of(c) },
            ]
            &&& does(Patch::Label(LabelPatch::Text(t))) == seq![SpecAct::Text { node, text: t@ }]
            &&& does(Patch::Label(LabelPatch::Color(Some(c)))) == seq![
                SpecAct::FontColor { node, argb: argb_of(c) },
            ]
            &&& does(Patch::Label(LabelPatch::Font(f))) == seq![
                SpecAct::FontSize { node, size: points_of(f.style) },
            ] + font_attrs(node, f)
            &&& does(Patch::Button(ButtonPatch::Title(t))) == seq![
                SpecAct::ButtonLabel { node, text: t@ },
            ]
            &&& does(Patch::Progress(Some(value))) == seq![SpecAct::Progress { node, value }]
            &&& does(Patch::List(ListPatch::ScrollToEnd)) == seq![SpecAct::ListToEnd { node }]
            &&& does(Patch::List(ListPatch::ScrollToRow(row))) == seq![
                SpecAct::ListToRow { node, row: row as u32 },
            ]
            &&& !v.reloads.contains(node) ==> does(Patch::List(ListPatch::Reload)) == seq![
                SpecAct::PostReload { node },
            ]
            &&& updated(v, node, Patch::List(ListPatch::Reload), nodes, vectors).reloads.contains(
                node,
            )
        }),
{
}

/// A picker's new options go over as one text, and the one that stays selected is the one that was,
/// or the last.
pub proof fn options_go_over_whole(
    v: ArkView,
    node: u64,
    nodes: Seq<u64>,
    vectors: Seq<String>,
    options: Vec<String>,
)
    requires
        0 < options@.len() <= u32::MAX,
        v.controls.contains_key(node),
        v.picked.contains_key(v.controls[node]),
    ensures
        ({
            let was = v.picked[v.controls[node]];
            update_acts(v, node, Patch::Picker(PickerPatch::Options(options)), nodes, vectors)
                == seq![
                SpecAct::Options {
                    node,
                    options: join(crate::model::texts(options@), ';'),
                    selected: if was < options@.len() {
                        was as u32
                    } else {
                        (options@.len() - 1) as u32
                    },
                },
            ]
        }),
{
}

/// Options joined to one text come apart again as they were, where none holds the separator.
pub proof fn joined_options_come_apart(parts: Seq<Seq<char>>, c: char)
    requires
        parts.len() > 0,
        forall|i: int, j: int|
            0 <= i < parts.len() && 0 <= j < parts[i].len() ==> (#[trigger] parts[i][j]) != c,
    ensures
        split(join(parts, c), c) == parts,
    decreases parts.len(),
{
    let first = parts[0];
    if parts.len() == 1 {
        none_found(first, c, 0);
        assert(seq![first] =~= parts);
    } else {
        let rest = parts.skip(1);
        assert forall|i: int, j: int|
            0 <= i < rest.len() && 0 <= j < rest[i].len() implies (#[trigger] rest[i][j]) != c by {
            assert(parts[i + 1][j] != c);
        }
        joined_options_come_apart(rest, c);
        let s = join(parts, c);
        assert(s == first + seq![c] + join(rest, c));
        assert forall|k: int| 0 <= k < first.len() implies (#[trigger] s[k]) != c by {
            assert(parts[0][k] != c);
        }
        found_first(s, c, first.len() as int, 0);
        assert(s.take(first.len() as int) =~= first);
        assert(s.skip((first.len() + 1) as int) =~= join(rest, c));
        assert(seq![first] + rest =~= parts);
    }
}

proof fn found_first(s: Seq<char>, c: char, at: int, i: int)
    requires
        0 <= i <= at < s.len(),
        s[at] == c,
        forall|k: int| 0 <= k < at ==> (#[trigger] s[k]) != c,
    ensures
        crate::text::first_of(s, c, i) == Some(at),
    decreases at - i,
{
    if i < at {
        assert(s[i] != c);
        found_first(s, c, at, i + 1);
    }
}

proof fn none_found(s: Seq<char>, c: char, i: int)
    requires
        0 <= i <= s.len(),
        forall|k: int| 0 <= k < s.len() ==> (#[trigger] s[k]) != c,
    ensures
        crate::text::first_of(s, c, i) is None,
    decreases s.len() - i,
{
    if i < s.len() {
        assert(s[i] != c);
        none_found(s, c, i + 1);
    }
}

// ---- covers ------------------------------------------------------------------------------------

/// A cover that is presented leaves where it was parked, lies over the root at the window's size in
/// its color, and its app node is told that size later; it is then known as presented, over the
/// root. Dismissed, it leaves the root, and its app node is told that it is hidden.
pub proof fn a_cover_comes_and_goes(v: ArkView, node: u64, c: Color)
    requires
        v.root is Some,
        v.covers.contains_key(node),
        !v.presented.contains(node),
        v.cover_parents.contains_key(node),
    ensures
        ({
            let (root, width, height) = v.root->0;
            let id = v.covers[node];
            let w = cover_shown(v, node);
            &&& show_acts(v, node, Some(c)) == seq![
                SpecAct::Background { node, argb: argb_of(c) },
                Act::Remove { parent: v.cover_parents[node], child: node },
                Act::Add { parent: root, child: node },
                Act::FillWindow { node, width, height },
                Act::PostEmit {
                    to: Target::Node(id),
                    event: Event::FrameChanged(Size { width, height }),
                },
            ]
            &&& w.presented.contains(node)
            &&& w.cover_parents.contains_key(node) && w.cover_parents[node] == root
            &&& hide_acts(w, node) == seq![
                SpecAct::Remove { parent: root, child: node },
                Act::PostEmit { to: Target::Node(id), event: Event::CoverHidden },
            ]
            &&& !cover_hidden(w, node).presented.contains(node)
        }),
{
}

// ---- pages -------------------------------------------------------------------------------------

/// A child put under a parent stands under the node that takes the parent's children, at its
/// place; taken out, it leaves that node. A page put into the host waits to be pushed, the last
/// of those that wait.
pub proof fn children_come_and_go(v: ArkView, parent: u64, child: u64, index: usize)
    requires
        !(v.suite matches Some(s) && s.host == parent),
        !v.cover_parents.contains_key(child),
    ensures
        ({
            let inner = if v.scroll_content.contains_key(parent) {
                v.scroll_content[parent]
            } else {
                parent
            };
            let w = inserted(v, parent, child, index);
            &&& insert_acts(v, parent, child, index) == seq![
                SpecAct::Insert { parent: inner, child, index },
            ]
            &&& crate::keys::second_of(v.nav.pushed, child) is None ==> remove_acts(v, parent, child)
                == seq![SpecAct::Remove { parent: inner, child }]
            &&& v.nav.host matches Some((_, host)) ==> host == parent ==> v.nav.page_ids.contains_key(
                child,
            ) ==> w.nav.attached == v.nav.attached + seq![(child, v.nav.page_ids[child])]
            &&& !v.nav.page_ids.contains_key(child) ==> w.nav == v.nav
        }),
{
    let w = inserted(v, parent, child, index);
    if v.nav.host is Some && (v.nav.host->0).1 == parent && v.nav.page_ids.contains_key(child) {
        assert(w.nav.attached =~= v.nav.attached + seq![(child, v.nav.page_ids[child])]);
    }
}

/// Pushing takes the page that waits last out of the host and onto the platform's stack under its
/// own number, with its title; nothing waits, nothing is pushed. Popping asks for one step back as
/// long as there is a page. The rest of the navigation's patches come to one call each.
pub proof fn pages_are_pushed_and_popped(
    v: ArkView,
    host: u64,
    nodes: Seq<u64>,
    vectors: Seq<String>,
    title: String,
    on: bool,
)
    ensures
        ({
            let does = |p: NavPatch| update_acts(v, host, Patch::Nav(p), nodes, vectors);
            let n = v.nav.attached.len();
            &&& n > 0 ==> does(NavPatch::Pushed { title }) == seq![
                SpecAct::Remove { parent: host, child: v.nav.attached[n - 1].0 },
                Act::NavPush {
                    page: v.nav.attached[n - 1].0,
                    key: v.nav.attached[n - 1].1,
                    title: title@,
                },
            ]
            &&& n == 0 ==> does(NavPatch::Pushed { title }).len() == 0
            &&& n > 0 ==> page_taken(v.nav).attached == v.nav.attached.take(n - 1)
            &&& v.nav.stack.len() > 0 ==> does(NavPatch::Popped) == seq![SpecAct::NavPop]
            &&& v.nav.stack.len() == 0 ==> does(NavPatch::Popped).len() == 0
            &&& does(NavPatch::Title(title)) == seq![SpecAct::NavTitle { title: title@ }]
            &&& does(NavPatch::GuardTop(on)) == seq![SpecAct::NavGuard { on }]
        }),
{
}

/// A page that was pushed is on top of the stack and on its way until it shows; popped, it is off
/// the stack and its going is expected, so that when it is gone the app hears nothing; a page that
/// goes unexpected is told as a step back that the platform has taken already.
pub proof fn the_stack_follows_the_pages(v: TrackView, page: u64, key: u64)
    requires
        v.host is Some,
        !v.stack.contains(key),
    ensures
        ({
            let pushed = page_pushed(v, page, key);
            let on_screen = shown(pushed, key);
            let off = top_popped(on_screen);
            &&& pushed.stack == v.stack + seq![key]
            &&& pushed.pending_push.contains(key)
            &&& !on_screen.pending_push.contains(key)
            &&& off.stack == v.stack
            &&& off.expected.contains(key)
            &&& off.pending_pop.contains(key)
            &&& gone_acts(off, key).len() == 0
            &&& !destination_gone(off, key).pending_pop.contains(key)
            &&& !v.expected.contains(key) ==> gone_acts(on_screen, key) == seq![
                SpecAct::Emit {
                    to: Target::Node((v.host->0).0),
                    event: Event::NavBack { already_popped: true },
                },
            ]
            &&& !destination_gone(on_screen, key).stack.contains(key)
        }),
{
    let pushed = page_pushed(v, page, key);
    let on_screen = shown(pushed, key);
    let off = top_popped(on_screen);
    assert(pushed.stack =~= v.stack + seq![key]);
    assert(off.stack =~= v.stack);
    crate::keys::taking_out_leaves_the_others(on_screen.stack, key, key);
}

/// A frame is set on its node as it is; a cover's frame is the window's to give; and the host of a
/// suite is resized and lays its pages out in the room that its bar leaves, which is remembered.
pub proof fn a_frame_is_set(v: ArkView, node: u64, frame: Rect, below: Num)
    ensures
        ({
            let hosts = v.suite is Some && (v.suite->0).host == node;
            let page = Size { width: frame.size.width, height: below };
            let made = frame_acts(v, node, frame, below);
            &&& !hosts && !v.covers.contains_key(node) ==> made == seq![
                SpecAct::Frame { node, frame },
            ]
            &&& !hosts && v.covers.contains_key(node) ==> made.len() == 0
            &&& !hosts ==> framed(v, node, frame, below) == v
            &&& hosts ==> {
                &&& made == seq![
                    SpecAct::Resize {
                        node,
                        width: Length::Given(frame.size.width),
                        height: Length::Given(frame.size.height),
                    },
                ] + layout_acts(v.suite->0, frame.size, page)
                &&& (framed(v, node, frame, below).suite->0).page_size == page
            }
        }),
{
}

/// What the spans added by some calls say, one behind the other.
pub open spec fn said_by(s: Seq<SpecAct>) -> Seq<char>
    decreases s.len(),
{
    if s.len() == 0 {
        Seq::empty()
    } else {
        said_by(s.drop_last()) + match s.last() {
            Act::RunsAdd { text, .. } => text,
            _ => Seq::empty(),
        }
    }
}

proof fn spans_say_their_pieces(
    node: u64,
    content: Seq<char>,
    runs: Seq<TextRun>,
    segs: Seq<Segment>,
    n: int,
)
    requires
        0 <= n <= segs.len(),
    ensures
        ({
            let begun = seq![SpecAct::RunsBegin { node }];
            said_by(begun + spans(node, content, runs, segs, n)) == joined(content, segs.take(n))
        }),
    decreases n,
{
    let begun = seq![SpecAct::RunsBegin { node }];
    if n > 0 {
        spans_say_their_pieces(node, content, runs, segs, n - 1);
        let fewer = begun + spans(node, content, runs, segs, n - 1);
        let all = begun + spans(node, content, runs, segs, n);
        assert(all.drop_last() =~= fewer);
        assert(segs.take(n).drop_last() =~= segs.take(n - 1));
        assert(segs.take(n).last() == segs[n - 1]);
    } else {
        assert(begun + spans(node, content, runs, segs, 0) =~= begun);
        assert(begun.drop_last() =~= Seq::<SpecAct>::empty());
        assert(said_by(begun.drop_last()) == Seq::<char>::empty());
        assert(said_by(begun) =~= Seq::<char>::empty());
        assert(segs.take(0).len() == 0);
    }
}

/// A label with runs is begun anew and gets a span for each stretch; together they say the whole
/// text, where the runs are in order.
pub proof fn a_styled_label_says_its_text(node: u64, content: Seq<char>, runs: Seq<TextRun>)
    requires
        runs.len() > 0,
        in_order(content, runs),
        encode_utf8(content).len() <= usize::MAX,
    ensures
        label_runs(node, content, runs)[0] == (SpecAct::RunsBegin { node }),
        said_by(label_runs(node, content, runs)) == content,
{
    let segs = stretches(content, runs, 0, 0);
    spans_say_their_pieces(node, content, runs, segs, segs.len() as int);
    assert(segs.take(segs.len() as int) =~= segs);
    ordered_runs_keep_the_text(content, runs);
}

/// A picker that never showed anything shows its first option; one without options shows none of
/// them, which is its first place.
pub proof fn a_fresh_picker_shows_its_first_option(v: ArkView, node: u64, count: nat)
    ensures
        !v.controls.contains_key(node) || !v.picked.contains_key(v.controls[node]) ==> kept_option(
            v,
            node,
            count,
        ) == 0,
        kept_option(v, node, 0) == 0,
{
}

} // verus!
