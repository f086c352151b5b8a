//! How a piece looks as an element: the calls that give it its text, its font, its colors and
//! its shape.
use crate::dom::act::{act, acts, attr, class, style, text, Act, DomAct, El, SpecAct, LAST};
use crate::dom::css::{
    color_css, decoration, decoration_css, font_css, font_shorthand, hex_color, hex_css, rgb,
    rgb_css, rgba,
};
use crate::model::{ButtonStyle, Color, ContentMode, FontSpec, TextRun};
use crate::pieces::ContainerProps;
use crate::runs::{label_stretches, piece, piece_of, stretches, Segment};
use crate::text::{cat2, cat3, owned};
use vstd::prelude::*;

verus! {

/// The kinds of element the shim can create.
pub const EL_DIV: u32 = 0;

pub const EL_LABEL: u32 = 1;

pub const EL_BUTTON: u32 = 2;

pub const EL_TOGGLE: u32 = 3;

pub const EL_SLIDER: u32 = 4;

pub const EL_FIELD: u32 = 5;

pub const EL_AREA: u32 = 6;

pub const EL_SELECT: u32 = 7;

pub const EL_PROGRESS: u32 = 8;

pub const EL_SPINNER: u32 = 9;

pub const EL_IMAGE: u32 = 10;

pub const EL_CANVAS: u32 = 11;

pub const EL_SCROLL: u32 = 12;

pub const EL_DIVIDER: u32 = 13;

pub const EL_NAV: u32 = 14;

pub const EL_PAGE: u32 = 15;

pub const EL_NAVMENU: u32 = 16;

pub const EL_CELL: u32 = 18;

pub const EL_SEGMENTED: u32 = 19;

pub const EL_RADIOS: u32 = 20;

pub const EL_SPAN: u32 = 21;

pub const EL_LINK: u32 = 22;

/// A font on an element. The shorthand resets the numeric variant, so tabular figures are asked
/// for behind it, and only then.
pub open spec fn font_acts(el: El, f: FontSpec) -> Seq<SpecAct> {
    let main: Seq<SpecAct> = seq![Act::Style(el, "font"@, font_shorthand(f))];
    if f.tabular {
        main.push(Act::Style(el, "font-variant-numeric"@, "tabular-nums"@))
    } else {
        main
    }
}

pub fn apply_font(out: &mut Vec<DomAct>, el: El, f: &FontSpec)
    ensures
        acts(final(out)@) == acts(old(out)@) + font_acts(el, *f),
{
    style(out, el, "font", font_css(f).as_str());
    if f.tabular {
        style(out, el, "font-variant-numeric", "tabular-nums");
    }
    proof {
        assert(acts(out@) =~= acts(old(out)@) + font_acts(el, *f));
    }
}

/// A color property, where there is a color.
pub open spec fn color_act(el: El, property: Seq<char>, c: Option<Color>) -> Seq<SpecAct> {
    match c {
        Some(c) => seq![Act::Style(el, property, rgba(c))],
        None => Seq::empty(),
    }
}

fn apply_color(out: &mut Vec<DomAct>, el: El, property: &str, c: &Option<Color>)
    ensures
        acts(final(out)@) == acts(old(out)@) + color_act(el, property@, *c),
{
    match c {
        Some(c) => style(out, el, property, color_css(c).as_str()),
        None => {},
    }
    proof {
        assert(acts(out@) =~= acts(old(out)@) + color_act(el, property@, *c));
    }
}

/// A run's decoration, in one declaration, where it has any.
pub open spec fn decoration_act(el: El, r: TextRun) -> Seq<SpecAct> {
    if decoration(r.underline, r.strikethrough).len() > 0 {
        seq![Act::Style(el, "text-decoration"@, decoration(r.underline, r.strikethrough))]
    } else {
        Seq::empty()
    }
}

/// A run's link, where it has one; its click is reported against the label.
pub open spec fn link_act(el: El, owner: u32, r: TextRun) -> Seq<SpecAct> {
    match r.link {
        Some(u) => seq![Act::Link { el, owner, url: u@ }],
        None => Seq::empty(),
    }
}

/// A run's styling on its span.
pub open spec fn run_acts(el: El, owner: u32, r: TextRun) -> Seq<SpecAct> {
    font_acts(el, r.font) + color_act(el, "color"@, r.color) + color_act(
        el,
        "background-color"@,
        r.background,
    ) + decoration_act(el, r) + link_act(el, owner, r)
}

fn apply_run(out: &mut Vec<DomAct>, el: El, owner: u32, r: &TextRun)
    ensures
        acts(final(out)@) == acts(old(out)@) + run_acts(el, owner, *r),
{
    apply_font(out, el, &r.font);
    apply_color(out, el, "color", &r.color);
    apply_color(out, el, "background-color", &r.background);
    let deco = decoration_css(r);
    let ghost so_far = acts(out@);
    if !deco.as_str().is_empty() {
        style(out, el, "text-decoration", deco.as_str());
    }
    proof {
        assert(acts(out@) =~= so_far + decoration_act(el, *r));
        so_far = acts(out@);
    }
    match &r.link {
        Some(u) => act(out, Act::Link { el, owner, url: owned(u.as_str()) }),
        None => {},
    }
    proof {
        assert(acts(out@) =~= so_far + link_act(el, owner, *r));
        assert(acts(out@) =~= acts(old(out)@) + run_acts(el, owner, *r));
    }
}

/// One stretch of a label as a child of its own: a link where its run is one.
pub open spec fn span_acts(owner: u32, slot: u32, content: Seq<char>, run: Option<TextRun>) -> Seq<
    SpecAct,
> {
    let el = El::New(slot);
    let kind = match run {
        Some(r) => if r.link is Some {
            EL_LINK
        } else {
            EL_SPAN
        },
        None => EL_SPAN,
    };
    let made: Seq<SpecAct> = seq![Act::Create { slot, kind }, Act::Text(el, content)];
    (made + (match run {
        Some(r) => run_acts(el, owner, r),
        None => Seq::empty(),
    })).push(Act::Insert { parent: owner, child: el, index: LAST })
}

/// The run a stretch takes its styling from.
pub open spec fn run_of(runs: Seq<TextRun>, s: Segment) -> Option<TextRun> {
    match s.run {
        Some(k) => Some(runs[k as int]),
        None => None,
    }
}

/// The first `n` stretches as children.
pub open spec fn spans(
    owner: u32,
    content: Seq<char>,
    runs: Seq<TextRun>,
    segs: Seq<Segment>,
    n: int,
) -> Seq<SpecAct>
    decreases n,
{
    if n <= 0 {
        Seq::empty()
    } else {
        spans(owner, content, runs, segs, n - 1) + span_acts(
            owner,
            (n - 1) as u32,
            piece(content, segs[n - 1].start as int, segs[n - 1].end as int),
            run_of(runs, segs[n - 1]),
        )
    }
}

/// A label's text: as it is without runs, else cleared and rebuilt from its stretches.
pub open spec fn label_acts(el: u32, content: Seq<char>, runs: Seq<TextRun>) -> Seq<SpecAct> {
    if runs.len() == 0 {
        seq![Act::Text(El::Own(el), content)]
    } else {
        let segs = stretches(content, runs, 0, 0);
        let cleared: Seq<SpecAct> = seq![Act::Text(El::Own(el), ""@)];
        cleared + spans(el, content, runs, segs, segs.len() as int)
    }
}

fn append_span(
    out: &mut Vec<DomAct>,
    owner: u32,
    slot: u32,
    content: &str,
    run: Option<&TextRun>,
)
    ensures
        acts(final(out)@) == acts(old(out)@) + span_acts(
            owner,
            slot,
            content@,
            (match run {
                Some(r) => Some(*r),
                None => None,
            }),
        ),
{
    let el = El::New(slot);
    let kind: u32 = match run {
        Some(r) => if r.link.is_some() {
            EL_LINK
        } else {
            EL_SPAN
        },
        None => EL_SPAN,
    };
    act(out, Act::Create { slot, kind });
    text(out, el, content);
    match run {
        Some(r) => apply_run(out, el, owner, r),
        None => {},
    }
    act(out, Act::Insert { parent: owner, child: el, index: LAST });
    proof {
        assert(acts(out@) =~= acts(old(out)@) + span_acts(
            owner,
            slot,
            content@,
            (match run {
                Some(r) => Some(*r),
                None => None,
            }),
        ));
    }
}

/// Gives a label its text.
pub fn set_label_text(out: &mut Vec<DomAct>, el: u32, content: &str, runs: &Vec<TextRun>)
    ensures
        acts(final(out)@) == acts(old(out)@) + label_acts(el, content@, runs@),
{
    if runs.len() == 0 {
        text(out, El::Own(el), content);
        proof {
            assert(acts(out@) =~= acts(old(out)@) + label_acts(el, content@, runs@));
        }
        return;
    }
    text(out, El::Own(el), "");
    let segs = label_stretches(content, runs);
    let ghost start = acts(out@);
    let mut i: usize = 0;
    proof {
        assert(start =~= start + spans(el, content@, runs@, segs@, 0));
    }
    while i < segs.len()
        invariant
            i <= segs.len(),
            forall|k: int|
                0 <= k < segs.len() ==> crate::runs::addressed(
                    content@,
                    (#[trigger] segs[k]).start as int,
                    segs[k].end as int,
                ) && (segs[k].run matches Some(r) ==> r < runs.len()),
            acts(out@) == start + spans(el, content@, runs@, segs@, i as int),
        decreases segs.len() - i,
    {
        let seg = segs[i];
        assert(segs[i as int] == seg);
        let words = piece_of(content, seg.start, seg.end);
        let run: Option<&TextRun> = match seg.run {
            Some(k) => Some(&runs[k]),
            None => None,
        };
        append_span(out, el, #[verifier::truncate] (i as u32), words.as_str(), run);
        proof {
            assert(acts(out@) =~= start + spans(el, content@, runs@, segs@, i + 1));
        }
        i = i + 1;
    }
    proof {
        assert(acts(out@) =~= acts(old(out)@) + label_acts(el, content@, runs@));
    }
}

/// A button's look. The other looks are cleared first, so no two of them are ever on.
pub open spec fn button_acts(el: u32, look: ButtonStyle) -> Seq<SpecAct> {
    let own = El::Own(el);
    let cleared: Seq<SpecAct> = seq![
        Act::Class(own, "prominent"@, false),
        Act::Class(own, "bordered"@, false),
        Act::Class(own, "tinted"@, false),
        Act::Class(own, "compact"@, false),
    ];
    match look {
        ButtonStyle::Prominent => cleared.push(Act::Class(own, "prominent"@, true)),
        ButtonStyle::Bordered => cleared.push(Act::Class(own, "bordered"@, true)),
        ButtonStyle::Compact => cleared.push(Act::Class(own, "compact"@, true)),
        ButtonStyle::Tinted(tint, over) => cleared.push(
            Act::Style(own, "--day-tint"@, rgb(tint)),
        ).push(Act::Style(own, "--day-tint-fg"@, rgb(over))).push(
            Act::Class(own, "tinted"@, true),
        ),
        ButtonStyle::Automatic => cleared,
    }
}

pub fn apply_button_style(out: &mut Vec<DomAct>, el: u32, look: &ButtonStyle)
    ensures
        acts(final(out)@) == acts(old(out)@) + button_acts(el, *look),
{
    let own = El::Own(el);
    class(out, own, "prominent", false);
    class(out, own, "bordered", false);
    class(out, own, "tinted", false);
    class(out, own, "compact", false);
    match look {
        ButtonStyle::Prominent => class(out, own, "prominent", true),
        ButtonStyle::Bordered => class(out, own, "bordered", true),
        ButtonStyle::Compact => class(out, own, "compact", true),
        ButtonStyle::Tinted(tint, over) => {
            style(out, own, "--day-tint", rgb_css(tint).as_str());
            style(out, own, "--day-tint-fg", rgb_css(over).as_str());
            class(out, own, "tinted", true);
        },
        ButtonStyle::Automatic => {},
    }
    proof {
        assert(acts(out@) =~= acts(old(out)@) + button_acts(el, *look));
    }
}

/// The word for how an image fills its box.
pub open spec fn fit_word(m: ContentMode) -> Seq<char> {
    match m {
        ContentMode::Fit => "contain"@,
        ContentMode::Fill => "cover"@,
        ContentMode::Stretch => "fill"@,
    }
}

pub fn fit_css(m: ContentMode) -> (s: &'static str)
    ensures
        s@ == fit_word(m),
{
    match m {
        ContentMode::Fit => "contain",
        ContentMode::Fill => "cover",
        ContentMode::Stretch => "fill",
    }
}

/// A template glyph's tint: a mask of the picture painted with the tint, scaled as the picture
/// would be; without a tint the mask is taken off again.
pub open spec fn tint_acts(el: u32, src: Seq<char>, fit: Seq<char>, tint: Option<Color>) -> Seq<
    SpecAct,
> {
    let own = El::Own(el);
    match tint {
        Some(c) => {
            let mask = "url(\""@ + src + "\")"@;
            let size = if fit == "fill"@ {
                "100% 100%"@
            } else {
                fit
            };
            seq![
                Act::Style(own, "mask-image"@, mask),
                Act::Style(own, "-webkit-mask-image"@, mask),
                Act::Style(own, "mask-size"@, size),
                Act::Style(own, "-webkit-mask-size"@, size),
                Act::Style(own, "mask-repeat"@, "no-repeat"@),
                Act::Style(own, "-webkit-mask-repeat"@, "no-repeat"@),
                Act::Style(own, "mask-position"@, "center"@),
                Act::Style(own, "-webkit-mask-position"@, "center"@),
                Act::Style(own, "background-color"@, hex_color(c)),
            ]
        },
        None => seq![
            Act::Style(own, "mask-image"@, ""@),
            Act::Style(own, "-webkit-mask-image"@, ""@),
            Act::Style(own, "mask-size"@, ""@),
            Act::Style(own, "-webkit-mask-size"@, ""@),
            Act::Style(own, "mask-repeat"@, ""@),
            Act::Style(own, "-webkit-mask-repeat"@, ""@),
            Act::Style(own, "mask-position"@, ""@),
            Act::Style(own, "-webkit-mask-position"@, ""@),
            Act::Style(own, "background-color"@, ""@),
        ],
    }
}

pub fn apply_image_tint(
    out: &mut Vec<DomAct>,
    el: u32,
    src: &str,
    fit: &str,
    tint: &Option<Color>,
)
    ensures
        acts(final(out)@) == acts(old(out)@) + tint_acts(el, src@, fit@, *tint),
{
    let own = El::Own(el);
    match tint {
        Some(c) => {
            let mask = cat3("url(\"", src, "\")");
            let size: &str = if crate::text::same(fit, "fill") {
                "100% 100%"
            } else {
                fit
            };
            style(out, own, "mask-image", mask.as_str());
            style(out, own, "-webkit-mask-image", mask.as_str());
            style(out, own, "mask-size", size);
            style(out, own, "-webkit-mask-size", size);
            style(out, own, "mask-repeat", "no-repeat");
            style(out, own, "-webkit-mask-repeat", "no-repeat");
            style(out, own, "mask-position", "center");
            style(out, own, "-webkit-mask-position", "center");
            style(out, own, "background-color", hex_css(c).as_str());
        },
        None => {
            style(out, own, "mask-image", "");
            style(out, own, "-webkit-mask-image", "");
            style(out, own, "mask-size", "");
            style(out, own, "-webkit-mask-size", "");
            style(out, own, "mask-repeat", "");
            style(out, own, "-webkit-mask-repeat", "");
            style(out, own, "mask-position", "");
            style(out, own, "-webkit-mask-position", "");
            style(out, own, "background-color", "");
        },
    }
    proof {
        assert(acts(out@) =~= acts(old(out)@) + tint_acts(el, src@, fit@, *tint));
    }
}

/// A container's surface: its background, its rounded corners, which clip, and its card look.
pub open spec fn surface_acts(el: u32, p: ContainerProps) -> Seq<SpecAct> {
    let own = El::Own(el);
    let rounded = p.corner_radius.num.positive();
    color_act(own, "background-color"@, p.background) + (if rounded {
        seq![
            Act::Style(own, "border-radius"@, p.corner_radius.text@ + "px"@),
            Act::Class(own, "day-clip"@, true),
        ]
    } else {
        Seq::empty()
    }) + (if p.clips || rounded {
        seq![Act::Style(own, "overflow"@, "hidden"@)]
    } else {
        Seq::empty()
    }) + (if p.card {
        seq![Act::Class(own, "day-card"@, true)]
    } else {
        Seq::empty()
    })
}

pub fn apply_surface(out: &mut Vec<DomAct>, el: u32, p: &ContainerProps)
    ensures
        acts(final(out)@) == acts(old(out)@) + surface_acts(el, *p),
{
    let own = El::Own(el);
    let rounded = p.corner_radius.num.is_positive();
    apply_color(out, own, "background-color", &p.background);
    if rounded {
        style(out, own, "border-radius", cat2(p.corner_radius.text.as_str(), "px").as_str());
        class(out, own, "day-clip", true);
    }
    if p.clips || rounded {
        style(out, own, "overflow", "hidden");
    }
    if p.card {
        class(out, own, "day-card", true);
    }
    proof {
        assert(acts(out@) =~= acts(old(out)@) + surface_acts(el, *p));
    }
}

/// The mark of a boolean attribute that is set, and of one that is taken off.
pub open spec fn mark(on: bool) -> Seq<char> {
    if on {
        "-"@
    } else {
        ""@
    }
}

/// Whether a control can be used.
pub open spec fn enabled_act(el: u32, enabled: bool) -> SpecAct {
    Act::Attr(El::Own(el), "disabled"@, mark(!enabled))
}

pub fn set_enabled(out: &mut Vec<DomAct>, el: u32, enabled: bool)
    ensures
        acts(final(out)@) == acts(old(out)@).push(enabled_act(el, enabled)),
{
    attr(
        out,
        El::Own(el),
        "disabled",
        if enabled {
            ""
        } else {
            "-"
        },
    );
}

/// A new control is disabled only when it is to be; one that is not needs no call.
pub open spec fn disabled_acts(el: u32, enabled: bool) -> Seq<SpecAct> {
    if enabled {
        Seq::empty()
    } else {
        seq![Act::Attr(El::Own(el), "disabled"@, "-"@)]
    }
}

pub fn disable_unless(out: &mut Vec<DomAct>, el: u32, enabled: bool)
    ensures
        acts(final(out)@) == acts(old(out)@) + disabled_acts(el, enabled),
{
    if !enabled {
        attr(out, El::Own(el), "disabled", "-");
    }
    proof {
        assert(acts(out@) =~= acts(old(out)@) + disabled_acts(el, enabled));
    }
}

/// `true` or `false` as an attribute's value.
pub open spec fn truth(b: bool) -> Seq<char> {
    if b {
        "true"@
    } else {
        "false"@
    }
}

pub fn truth_word(b: bool) -> (s: &'static str)
    ensures
        s@ == truth(b),
{
    if b {
        "true"
    } else {
        "false"
    }
}

/// A text area's editing traits.
pub open spec fn area_acts(el: u32, editable: bool, selectable: bool, spellcheck: bool) -> Seq<
    SpecAct,
> {
    let own = El::Own(el);
    (if editable {
        Seq::empty()
    } else {
        seq![Act::Attr(own, "readonly"@, "-"@)]
    } + if selectable {
        Seq::empty()
    } else {
        seq![Act::Style(own, "user-select"@, "none"@)]
    }).push(Act::Attr(own, "spellcheck"@, truth(spellcheck)))
}

pub fn apply_area_attrs(
    out: &mut Vec<DomAct>,
    el: u32,
    editable: bool,
    selectable: bool,
    spellcheck: bool,
)
    ensures
        acts(final(out)@) == acts(old(out)@) + area_acts(el, editable, selectable, spellcheck),
{
    let own = El::Own(el);
    if !editable {
        attr(out, own, "readonly", "-");
    }
    if !selectable {
        style(out, own, "user-select", "none");
    }
    attr(out, own, "spellcheck", truth_word(spellcheck));
    proof {
        assert(acts(out@) =~= acts(old(out)@) + area_acts(el, editable, selectable, spellcheck));
    }
}

} // verus!
