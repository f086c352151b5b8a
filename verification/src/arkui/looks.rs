//! How a piece looks as a node: colors, fonts and styled text.
use crate::arkui::act::{act, acts, ArkAct, Act, SpecAct};
use crate::dom::css::{css_weight, weight_css};
use crate::model::{ButtonStyle, Color, Font, FontSpec, Length, TextRun, Underline};
use crate::runs::{label_stretches, piece, piece_of, stretches, Segment};
use crate::text::owned;
use vstd::prelude::*;

verus! {

/// The kinds of node that can be created.
pub const K_STACK: u32 = 0;

pub const K_TEXT: u32 = 1;

pub const K_BUTTON: u32 = 2;

pub const K_TEXT_INPUT: u32 = 3;

pub const K_TOGGLE: u32 = 4;

pub const K_SLIDER: u32 = 5;

pub const K_SCROLL: u32 = 6;

pub const K_COLUMN: u32 = 7;

pub const K_LOADING: u32 = 8;

pub const K_IMAGE: u32 = 9;

pub const K_CANVAS: u32 = 10;

pub const K_PROGRESS: u32 = 11;

pub const K_LIST: u32 = 13;

pub const K_ROW: u32 = 15;

pub const K_TEXT_AREA: u32 = 16;

pub const K_TEXT_PICKER: u32 = 17;

/// Four components in one number, alpha in the highest byte.
pub open spec fn packed_argb(a: u8, r: u8, g: u8, b: u8) -> nat {
    (a as nat) * 0x100_0000 + (r as nat) * 0x1_0000 + (g as nat) * 0x100 + b as nat
}

/// A color in one number, its components rounded.
pub open spec fn argb_of(c: Color) -> u32 {
    packed_argb(c.a.near, c.r.near, c.g.near, c.b.near) as u32
}

/// A color in one number, its components cut.
pub open spec fn cut_argb_of(c: Color) -> u32 {
    packed_argb(c.a.cut, c.r.cut, c.g.cut, c.b.cut) as u32
}

fn pack(a: u8, r: u8, g: u8, b: u8) -> (n: u32)
    ensures
        n == packed_argb(a, r, g, b),
{
    (a as u32) * 0x100_0000 + (r as u32) * 0x1_0000 + (g as u32) * 0x100 + (b as u32)
}

pub fn argb(c: &Color) -> (n: u32)
    ensures
        n == argb_of(*c),
{
    pack(c.a.near, c.r.near, c.g.near, c.b.near)
}

pub fn cut_argb(c: &Color) -> (n: u32)
    ensures
        n == cut_argb_of(*c),
{
    pack(c.a.cut, c.r.cut, c.g.cut, c.b.cut)
}

/// The color for the light theme or for the dark one.
pub open spec fn themed(dark: bool, light_color: u32, dark_color: u32) -> u32 {
    if dark {
        dark_color
    } else {
        light_color
    }
}

pub fn theme_color(dark: bool, light_color: u32, dark_color: u32) -> (n: u32)
    ensures
        n == themed(dark, light_color, dark_color),
{
    if dark {
        dark_color
    } else {
        light_color
    }
}

/// The size of a font style in the platform's own points.
pub open spec fn points_of(style: Font) -> Length {
    match style {
        Font::LargeTitle => Length::Whole(34),
        Font::Title => Length::Whole(28),
        Font::Title2 => Length::Whole(22),
        Font::Title3 => Length::Whole(20),
        Font::Headline => Length::Whole(17),
        Font::Body => Length::Whole(17),
        Font::Callout => Length::Whole(16),
        Font::Subheadline => Length::Whole(15),
        Font::Footnote => Length::Whole(13),
        Font::Caption => Length::Whole(12),
        Font::Caption2 => Length::Whole(11),
        Font::System(pt) => Length::Given(pt),
        Font::Custom(_, pt) => Length::Given(pt),
    }
}

pub fn font_vp(f: &FontSpec) -> (l: Length)
    ensures
        l == points_of(f.style),
{
    match &f.style {
        Font::LargeTitle => Length::Whole(34),
        Font::Title => Length::Whole(28),
        Font::Title2 => Length::Whole(22),
        Font::Title3 => Length::Whole(20),
        Font::Headline => Length::Whole(17),
        Font::Body => Length::Whole(17),
        Font::Callout => Length::Whole(16),
        Font::Subheadline => Length::Whole(15),
        Font::Footnote => Length::Whole(13),
        Font::Caption => Length::Whole(12),
        Font::Caption2 => Length::Whole(11),
        Font::System(pt) => Length::Given(*pt),
        Font::Custom(_, pt) => Length::Given(*pt),
    }
}

/// A font's family, where it names one, and whether its figures are tabular, which is always
/// said so that a label can stop asking for them.
pub open spec fn font_attrs(node: u64, f: FontSpec) -> Seq<SpecAct> {
    (match f.style {
        Font::Custom(family, _) => seq![Act::FontFamily { node, family: family@ }],
        _ => Seq::empty(),
    }).push(
        Act::FontFeature {
            node,
            feature: if f.tabular {
                "tnum 1"@
            } else {
                ""@
            },
        },
    )
}

pub fn apply_font_attrs(out: &mut Vec<ArkAct>, node: u64, f: &FontSpec)
    ensures
        acts(final(out)@) == acts(old(out)@) + font_attrs(node, *f),
{
    match &f.style {
        Font::Custom(family, _) => act(
            out,
            Act::FontFamily { node, family: owned(family.as_str()) },
        ),
        _ => {},
    }
    let feature: String = if f.tabular {
        owned("tnum 1")
    } else {
        owned("")
    };
    act(out, Act::FontFeature { node, feature });
    proof {
        assert(acts(out@) =~= acts(old(out)@) + font_attrs(node, *f));
    }
}

/// The flags of a styled span: 1 semibold or heavier, 2 italic, 4 fixed pitch, 8 struck through,
/// 16 colored, 32 with a background, 64 underlined.
pub open spec fn run_flags(r: TextRun) -> i32 {
    let heavy = match r.font.weight {
        Some(w) => css_weight(w) >= 600,
        None => false,
    };
    ((if heavy { 1int } else { 0 }) + (if r.font.italic { 2int } else { 0 }) + (if r.font.monospace {
        4int
    } else {
        0
    }) + (if r.strikethrough { 8int } else { 0 }) + (if r.color is Some { 16int } else { 0 }) + (
    if r.background is Some {
        32int
    } else {
        0
    }) + (if r.underline != Underline::Off { 64int } else { 0 })) as i32
}

fn flags_of(r: &TextRun) -> (n: i32)
    ensures
        n == run_flags(*r),
{
    let mut n: i32 = 0;
    match r.font.weight {
        Some(w) => {
            if weight_css(w) >= 600 {
                n = n + 1;
            }
        },
        None => {},
    }
    if r.font.italic {
        n = n + 2;
    }
    if r.font.monospace {
        n = n + 4;
    }
    if r.strikethrough {
        n = n + 8;
    }
    if r.color.is_some() {
        n = n + 16;
    }
    if r.background.is_some() {
        n = n + 32;
    }
    match r.underline {
        Underline::Off => {},
        _ => {
            n = n + 64;
        },
    }
    n
}

/// A color's number, zero where there is none.
pub open spec fn argb_or_zero(c: Option<Color>) -> u32 {
    match c {
        Some(c) => argb_of(c),
        None => 0,
    }
}

fn number_or_zero(c: &Option<Color>) -> (n: u32)
    ensures
        n == argb_or_zero(*c),
{
    match c {
        Some(c) => argb(c),
        None => 0,
    }
}

/// One span of a label.
pub open spec fn span_act(node: u64, text: Seq<char>, run: Option<TextRun>) -> SpecAct {
    match run {
        Some(r) => Act::RunsAdd {
            node,
            text,
            flags: run_flags(r),
            color: argb_or_zero(r.color),
            background: argb_or_zero(r.background),
            scale: Some(r.font.scale),
            base: points_of(r.font.style),
        },
        None => Act::RunsAdd {
            node,
            text,
            flags: 0,
            color: 0,
            background: 0,
            scale: None,
            base: Length::Whole(0),
        },
    }
}

/// The first `n` stretches as spans.
pub open spec fn spans(
    node: u64,
    content: Seq<char>,
    runs: Seq<TextRun>,
    segs: Seq<Segment>,
    n: int,
) -> Seq<SpecAct>
    decreases n,
{
    if n <= 0 {
        Seq::empty()
    } else {
        spans(node, content, runs, segs, n - 1).push(
            span_act(
                node,
                piece(content, segs[n - 1].start as int, segs[n - 1].end as int),
                crate::dom::looks::run_of(runs, segs[n - 1]),
            ),
        )
    }
}

/// A label's text: as it is without runs, else rebuilt from its stretches.
pub open spec fn label_runs(node: u64, content: Seq<char>, runs: Seq<TextRun>) -> Seq<SpecAct> {
    if runs.len() == 0 {
        seq![Act::Text { node, text: content }]
    } else {
        let segs = stretches(content, runs, 0, 0);
        let begun: Seq<SpecAct> = seq![Act::RunsBegin { node }];
        begun + spans(node, content, runs, segs, segs.len() as int)
    }
}

fn add_span(out: &mut Vec<ArkAct>, node: u64, text: String, run: Option<&TextRun>)
    ensures
        acts(final(out)@) == acts(old(out)@).push(
            span_act(
                node,
                text@,
                (match run {
                    Some(r) => Some(*r),
                    None => None,
                }),
            ),
        ),
{
    match run {
        Some(r) => {
            act(
                out,
                Act::RunsAdd {
                    node,
                    text,
                    flags: flags_of(r),
                    color: number_or_zero(&r.color),
                    background: number_or_zero(&r.background),
                    scale: Some(r.font.scale),
                    base: font_vp(&r.font),
                },
            );
        },
        None => {
            act(
                out,
                Act::RunsAdd {
                    node,
                    text,
                    flags: 0,
                    color: 0,
                    background: 0,
                    scale: None,
                    base: Length::Whole(0),
                },
            );
        },
    }
}

/// Gives a label its text.
pub fn set_label_runs(out: &mut Vec<ArkAct>, node: u64, content: &str, runs: &Vec<TextRun>)
    ensures
        acts(final(out)@) == acts(old(out)@) + label_runs(node, content@, runs@),
{
    if runs.len() == 0 {
        act(out, Act::Text { node, text: owned(content) });
        proof {
            assert(acts(out@) =~= acts(old(out)@) + label_runs(node, content@, runs@));
        }
        return;
    }
    act(out, Act::RunsBegin { node });
    let segs = label_stretches(content, runs);
    let ghost start = acts(out@);
    let mut i: usize = 0;
    proof {
        assert(start =~= start + spans(node, content@, runs@, segs@, 0));
    }
    while i < segs.len()
        invariant
            i <= segs.len(),
            forall|k: int|
                0 <= k < segs.len() ==> crate::runs::addressed(
                    content@,
                    (#[trigger] segs[k]).start as int,
                    segs[k].end as int,
                ) && (segs[k].run matches Some(r) ==> r < runs.len()),
            acts(out@) == start + spans(node, content@, runs@, segs@, i as int),
        decreases segs.len() - i,
    {
        let seg = segs[i];
        assert(segs[i as int] == seg);
        let run: Option<&TextRun> = match seg.run {
            Some(k) => Some(&runs[k]),
            None => None,
        };
        add_span(out, node, piece_of(content, seg.start, seg.end), run);
        proof {
            assert(acts(out@) =~= start + spans(node, content@, runs@, segs@, i + 1));
        }
        i = i + 1;
    }
    proof {
        assert(acts(out@) =~= acts(old(out)@) + label_runs(node, content@, runs@));
    }
}

/// A button's look: a tint colors the node itself, any other look is the platform's own.
pub open spec fn button_look(node: u64, look: ButtonStyle) -> Seq<SpecAct> {
    match look {
        ButtonStyle::Tinted(tint, over) => seq![
            Act::Background { node, argb: cut_argb_of(tint) },
            Act::FontColor { node, argb: cut_argb_of(over) },
        ],
        _ => Seq::empty(),
    }
}

pub fn apply_button_style(out: &mut Vec<ArkAct>, node: u64, look: &ButtonStyle)
    ensures
        acts(final(out)@) == acts(old(out)@) + button_look(node, *look),
{
    match look {
        ButtonStyle::Tinted(tint, over) => {
            act(out, Act::Background { node, argb: cut_argb(tint) });
            act(out, Act::FontColor { node, argb: cut_argb(over) });
        },
        _ => {},
    }
    proof {
        assert(acts(out@) =~= acts(old(out)@) + button_look(node, *look));
    }
}

/// A text without its NUL characters.
pub open spec fn without_nul(s: Seq<char>) -> Seq<char>
    decreases s.len(),
{
    if s.len() == 0 {
        s
    } else if s.last() == '\0' {
        without_nul(s.drop_last())
    } else {
        without_nul(s.drop_last()).push(s.last())
    }
}

/// What goes across as a C string holds no NUL, and a text without any goes across as it is.
pub proof fn c_text_holds_no_nul(s: Seq<char>)
    ensures
        forall|i: int| 0 <= i < without_nul(s).len() ==> without_nul(s)[i] != '\0',
        (forall|i: int| 0 <= i < s.len() ==> s[i] != '\0') ==> without_nul(s) == s,
    decreases s.len(),
{
    if s.len() > 0 {
        c_text_holds_no_nul(s.drop_last());
        assert(s.drop_last().push(s.last()) =~= s);
        let d = without_nul(s.drop_last());
        assert forall|i: int| 0 <= i < without_nul(s).len() implies without_nul(s)[i] != '\0' by {
            if i < d.len() {
                assert(without_nul(s)[i] == d[i]);
            }
        }
    }
}

/// A text as it goes across as a C string: a NUL inside it is left out, and the rest is kept.
pub fn c_text(s: &str) -> (t: String)
    ensures
        t@ == without_nul(s@),
{
    let mut t = String::new();
    let v = crate::text::chars_of(s);
    let mut i: usize = 0;
    while i < v.len()
        invariant
            i <= v.len(),
            v@ == s@,
            t@ == without_nul(s@.take(i as int)),
        decreases v.len() - i,
    {
        proof {
            assert(s@.take(i + 1).drop_last() =~= s@.take(i as int));
        }
        if v[i] != '\0' {
            t.push(v[i]);
        }
        i = i + 1;
    }
    assert(s@.take(i as int) =~= s@);
    t
}

} // verus!
