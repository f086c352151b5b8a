//! The tables by which widgets are driven, entry by entry: keys and modifiers, sizes, fonts and
//! their markup, styles, and what the app hears of rows, panels and trees.
use crate::gtk::act::{Act, Extent, Justification, Later, SpecAct};
use crate::gtk::css::{
    color_key, color_number, style_acts, surface_acts, surface_body, surface_class, tint_rule,
    tints_off,
};
use crate::gtk::input::{key_acts, modifier_bits, named_key, Held, Key};
use crate::gtk::labels::{attrs_act, label_acts, look_acts, look_changed};
use crate::gtk::nav::{bar_width, beside, inspector_shown_acts, popped_acts};
use crate::gtk::numbers::{hex_value, pair_in, pairs_in, parsed_hex, stops_in};
use crate::gtk::realize::{across, justified, present_of};
use crate::gtk::rows::{badge_at, glyph_at, has_menu, selected_acts, tint_at, toggled_acts};
use crate::gtk::state::{GtkView, Present};
use crate::gtk::text::{
    attr_alpha, base_of, size_units, span, style_of, tone_of, weight_number, BaseView, LabelView,
    Tone,
};
use crate::gtk::tree::{
    disclosed, disclosed_acts, disclosure, place_of, selected_tokens, to_select, tree_updated,
    tree_work, Row, TreeView,
};
use crate::gtk::widgets::{
    a11y_acts, accepted, baseline, dragged_over, focus_acts, gesture_acts, size_of, slot, support,
    A11y, Measured, Span,
};
use crate::gtk::windows::{
    activation_acts, content_height, dialog_parent, forced, frame_painted, polled, resized_acts,
    settled, universal, window_of, Settle,
};
use crate::keys::Pairs;
use crate::model::{
    ButtonStyle, Cap, Color, Event, Font, FontSpec, FontWeight, GestureKind, Length, Lifecycle,
    NavPresentation, Support, Target, TextAlign,
};
use crate::num::Num;
use crate::pieces::{LabelPatch, MenuRows, TreePatch};
use crate::text::{decimal, parsed_u64, signed_decimal};
use vstd::prelude::*;

verus! {

// ---- keys --------------------------------------------------------------------------------------

/// The keys that have a name: the arrows whatever is held, and the digits, by what they type, under
/// no modifier but shift. A key that the app asked for is one event, with shift as one, control
/// as two and alt as four.
pub proof fn keys_are_named(id: u64, c: char, held: Held)
    ensures
        named_key(Key::Left, held) == Some("ArrowLeft"@),
        named_key(Key::Right, held) == Some("ArrowRight"@),
        named_key(Key::Up, held) == Some("ArrowUp"@),
        named_key(Key::Down, held) == Some("ArrowDown"@),
        '0' <= c <= '9' && !held.control && !held.alt && !held.meta && !held.super_key
            ==> named_key(Key::Other(Some(c)), held) == Some(seq![c]),
        !('0' <= c <= '9') ==> named_key(Key::Other(Some(c)), held) is None,
        named_key(Key::Other(None), held) is None,
        modifier_bits(held) == (if held.shift {
            1int
        } else {
            0
        }) + (if held.control {
            2int
        } else {
            0
        }) + (if held.alt {
            4int
        } else {
            0
        }),
        key_acts(id, Key::Left, held, true) == seq![
            SpecAct::Emit {
                to: Target::Node(id),
                event: Event::Key { key: "ArrowLeft"@, modifiers: modifier_bits(held) },
            },
        ],
{
}

// ---- sizes and places --------------------------------------------------------------------------

/// How big the widgets that are measured by rule want to be.
pub proof fn widgets_want_their_sizes(v: GtkView, w: u64, a: Num, b: Num, natural: i32)
    requires
        v.menus.contains_key(w) ==> v.menus[w].rows <= 0xffff_ffff,
    ensures
        ({
            let given = |k: Measured| size_of(v, w, k, Some(a), Some(b), natural);
            let free = |k: Measured| size_of(v, w, k, None, None, natural);
            &&& given(Measured::NavMenu) == (Span::Given(a), Span::Given(b))
            &&& v.menus.contains_key(w) ==> free(Measured::NavMenu) == (
                Span::Px(220),
                Span::Px((v.menus[w].rows * 36 + 8) as u128),
            )
            &&& !v.menus.contains_key(w) ==> free(Measured::NavMenu) == (Span::Px(220), Span::Px(8))
            &&& natural >= 24 ==> given(Measured::Control) == (
                Span::Given(a),
                Span::Px(natural as u128),
            ) && free(Measured::Control) == (Span::Px(180), Span::Px(natural as u128))
            &&& natural < 24 ==> free(Measured::Control) == (Span::Px(180), Span::Px(24))
            &&& given(Measured::Divider) == (Span::Given(a), Span::Px(1))
            &&& free(Measured::Divider) == (Span::Px(0), Span::Px(1))
            &&& given(Measured::Rows) == (Span::Given(a), Span::Given(b))
            &&& free(Measured::Rows) == (Span::Px(0), Span::Px(0))
            &&& natural < 6 ==> free(Measured::Bar) == (Span::Px(180), Span::Px(6))
            &&& natural >= 6 ==> free(Measured::Bar) == (Span::Px(180), Span::Px(natural as u128))
            &&& given(Measured::Spinner) == (Span::Px(20), Span::Px(20))
        }),
{
}

/// The room beside a bar is what the bar leaves, and nothing below nothing. A sidebar that is shown
/// takes the standard width, one that is hidden none; panes part where they were dragged to; a
/// stack and a suite have no bar.
pub proof fn bars_leave_the_rest(width: i32, p: i32, standard: Num, shown: bool, position: i32)
    requires
        0 <= p,
    ensures
        p < width ==> beside(width, Extent::Px(p)) == Extent::Px((width - p) as i32),
        p >= width ==> beside(width, Extent::Px(p)) == Extent::Px(0),
        beside(width, Extent::Given(standard)) == Extent::Rest(width, standard),
        bar_width(Present::Split, true, position, standard) == Extent::Given(standard),
        bar_width(Present::Split, false, position, standard) == Extent::Px(0),
        position > 0 ==> bar_width(Present::Paned, shown, position, standard) == Extent::Px(
            position,
        ),
        position <= 0 ==> bar_width(Present::Paned, shown, position, standard) == Extent::Given(
            standard,
        ),
        bar_width(Present::Stack, shown, position, standard) == Extent::Px(0),
{
}

/// How a host is presented: tabs and a rail as a suite, a split as a split or as panes, and a
/// stack as a stack.
pub proof fn hosts_are_presented(paned: bool, stack: u64, switcher: u64)
    ensures
        present_of(NavPresentation::Tabs, paned, stack, switcher) == (Present::Suite {
            stack,
            switcher,
        }),
        present_of(NavPresentation::Rail, paned, stack, switcher) == (Present::Suite {
            stack,
            switcher,
        }),
        present_of(NavPresentation::Split, false, stack, switcher) == Present::Split,
        present_of(NavPresentation::Split, true, stack, switcher) == Present::Paned,
        present_of(NavPresentation::Stack, paned, stack, switcher) == Present::Stack,
{
}

/// What lies on a window's height below its header, which is 47 where it has none of its own yet,
/// is the content's; and the window, or a further one's node, is told of it.
pub proof fn the_header_is_taken_off(height: i32, header: i32, width: i32, node: u64)
    requires
        0 <= height,
    ensures
        0 < header < height ==> content_height(height, header) == height - header,
        header <= 0 && height > 47 ==> content_height(height, header) == height - 47,
        header >= height && header > 0 ==> content_height(height, header) == 0,
        resized_acts(Seq::empty(), None, width, height, header) == seq![
            SpecAct::Resized {
                to: Target::Window,
                width,
                height: content_height(height, header),
            },
        ],
        resized_acts(Seq::empty(), Some(node), width, height, header) == seq![
            SpecAct::Resized {
                to: Target::Node(node),
                width,
                height: content_height(height, header),
            },
        ],
{
    let window: Seq<SpecAct> = seq![
        Act::Resized { to: Target::Window, width, height: content_height(height, header) },
    ];
    assert(window + Seq::<SpecAct>::empty() =~= window);
}

/// A text stands left, in the middle or right.
pub proof fn texts_are_aligned()
    ensures
        across(TextAlign::Leading).bits == 0,
        across(TextAlign::Center).bits == 0x3fe0_0000_0000_0000,
        across(TextAlign::Trailing).bits == 0x3ff0_0000_0000_0000,
        justified(TextAlign::Leading) == Justification::Left,
        justified(TextAlign::Center) == Justification::Center,
        justified(TextAlign::Trailing) == Justification::Right,
{
}

/// A row is dropped on a row of the list it came from: where the pointer is, but no further than
/// the last; and it is let go where the app accepts it.
pub proof fn rows_are_dropped_in_their_list(
    v: GtkView,
    w: u64,
    count: usize,
    raw: usize,
    answer: i64,
)
    requires
        answer <= usize::MAX,
    ensures
        count == 0 ==> slot(count, raw) is None,
        raw < count ==> slot(count, raw) == Some(raw),
        0 < count <= raw ==> slot(count, raw) == Some((count - 1) as usize),
        v.drag_from is None ==> dragged_over(v, w, count, raw) is None,
        v.drag_from matches Some((list, row)) ==> {
            &&& list != w ==> dragged_over(v, w, count, raw) is None
            &&& list == w && raw < count ==> dragged_over(v, w, count, raw) == Some((row, raw))
        },
        answer < 0 ==> accepted(answer) is None,
        answer >= 0 ==> accepted(answer) == Some(answer as usize),
{
}

/// A baseline is the widget's own where it has one.
pub proof fn baselines_are_natural(natural: i32)
    ensures
        natural >= 0 ==> baseline(true, natural) == Some(natural),
        natural < 0 ==> baseline(true, natural) is None,
        baseline(false, natural) is None,
{
}

/// Which capabilities the toolkit has itself, and which are put together from others.
pub proof fn capabilities_are_as_listed(cap: Cap)
    ensures
        support(cap) == Support::Native <==> {
            ||| cap == Cap::Cursor || cap == Cap::FontList || cap == Cap::TextRuns
            ||| cap == Cap::TextLinks || cap == Cap::Snapshot || cap == Cap::NavSplit
            ||| cap == Cap::NavTabs || cap == Cap::Dialogs || cap == Cap::FileDialogs
            ||| cap == Cap::TextEditable || cap == Cap::ListReorder || cap == Cap::Tree
            ||| cap == Cap::MultiWindow || cap == Cap::Toolbar || cap == Cap::AppMenu
            ||| cap == Cap::Appearance || cap == Cap::BaselineAlignment || cap == Cap::Inspector
        },
        support(cap) == Support::Emulated <==> cap == Cap::Cover,
{
}

// ---- fonts and markup --------------------------------------------------------------------------

/// The points and the weight of each step of the ramp; the weights by the font system's numbers;
/// a size in its units is 1024 to the point.
pub proof fn fonts_have_their_sizes(f: FontSpec, pt: Num, name: String)
    ensures
        style_of(Font::LargeTitle) == (Length::Whole(26), FontWeight::Regular),
        style_of(Font::Title) == (Length::Whole(22), FontWeight::Regular),
        style_of(Font::Title2) == (Length::Whole(17), FontWeight::Regular),
        style_of(Font::Title3) == (Length::Whole(15), FontWeight::Regular),
        style_of(Font::Headline) == (Length::Whole(13), FontWeight::Semibold),
        style_of(Font::Subheadline) == (Length::Whole(11), FontWeight::Regular),
        style_of(Font::Body) == (Length::Whole(13), FontWeight::Regular),
        style_of(Font::Callout) == (Length::Whole(12), FontWeight::Regular),
        style_of(Font::Footnote) == (Length::Whole(10), FontWeight::Regular),
        style_of(Font::Caption) == (Length::Whole(10), FontWeight::Regular),
        style_of(Font::Caption2) == (Length::Whole(10), FontWeight::Regular),
        style_of(Font::System(pt)) == (Length::Given(pt), FontWeight::Regular),
        style_of(Font::Custom(name, pt)) == (Length::Given(pt), FontWeight::Regular),
        weight_number(FontWeight::Thin) == 100,
        weight_number(FontWeight::UltraLight) == 200,
        weight_number(FontWeight::Light) == 300,
        weight_number(FontWeight::Regular) == 400,
        weight_number(FontWeight::Medium) == 500,
        weight_number(FontWeight::Semibold) == 600,
        weight_number(FontWeight::Bold) == 700,
        weight_number(FontWeight::Heavy) == 900,
        weight_number(FontWeight::Black) == 1000,
        f.style is Body ==> size_units(f) == 13 * 1024,
        f.style is LargeTitle ==> size_units(f) == 26 * 1024,
        f.style is System || f.style is Custom ==> size_units(f) == f.units,
        f.weight is Some ==> base_of(f).weight == weight_number(f.weight->0),
        f.weight is None ==> base_of(f).weight == weight_number(style_of(f.style).1),
        base_of(f).italic == f.italic,
        base_of(f).tabular == f.tabular,
        base_of(f).size == size_units(f),
        f.style matches Font::Custom(family, _) ==> base_of(f).family == Some(family@),
        !(f.style is Custom) ==> base_of(f).family is None,
{
}

/// A color's tone has its channels as they are, and its alpha where that is below one. An alpha
/// given as an attribute is never nothing, which would mean all of it.
pub proof fn a_tone_has_its_channels(c: Color)
    ensures
        ({
            let t = tone_of(c);
            &&& t.r == c.r.near && t.g == c.g.near && t.b == c.b.near
            &&& t.fine_r == c.r.fine && t.fine_g == c.g.fine && t.fine_b == c.b.fine
            &&& c.a.num.bits == 0x3ff0_0000_0000_0000 ==> t.alpha is None
            &&& c.a.num.bits < 0x3ff0_0000_0000_0000 ==> t.alpha == Some(
                (c.a.fine_cut, c.a.fine),
            )
            &&& t.alpha is None ==> attr_alpha(t) is None
            &&& t.alpha matches Some((_, fine)) ==> attr_alpha(t) == Some(
                if fine == 0 {
                    1u16
                } else {
                    fine
                },
            )
        }),
{
}

/// The markup of a font and a tone: the family where there is one, size, weight, slant and figures,
/// and the color by its channels with the alpha behind it where there is one.
pub proof fn a_span_says_its_font(b: BaseView, r: u8, g: u8, u: u8, fine: u16, cut: u16)
    ensures
        ({
            let t = |alpha: Option<(u16, u16)>|
                Some(
                    Tone { r, g, b: u, fine_r: fine, fine_g: fine, fine_b: fine, alpha },
                );
            let hex = crate::gtk::text::hex_color(r, g, u);
            let head = " size=\""@ + signed_decimal(b.size as int) + "\""@ + " weight=\""@
                + decimal(b.weight as nat) + "\""@;
            let slant = if b.italic {
                " style=\"italic\""@
            } else {
                ""@
            };
            let figures = if b.tabular {
                " font_features=\"tnum 1\""@
            } else {
                ""@
            };
            &&& b.family is None ==> span(b, None) == "<span"@ + head + slant + figures + ">"@
            &&& b.family matches Some(f) ==> span(b, None) == "<span"@ + (" font_family=\""@ + f
                + "\""@) + head + slant + figures + ">"@
            &&& b.family is None ==> span(b, t(None)) == "<span"@ + head + slant + figures + (
            " foreground=\"#"@ + hex + "\""@) + ">"@
            &&& b.family is None ==> span(b, t(Some((cut, fine)))) == "<span"@ + head + slant
                + figures + (" foreground=\"#"@ + hex + "\""@ + (" alpha=\""@ + decimal(cut as nat)
                + "\""@)) + ">"@
            &&& hex.len() == 6
            &&& crate::json::hex_value(hex[0]) * 16 + crate::json::hex_value(hex[1]) == r
            &&& crate::json::hex_value(hex[2]) * 16 + crate::json::hex_value(hex[3]) == g
            &&& crate::json::hex_value(hex[4]) * 16 + crate::json::hex_value(hex[5]) == u
        }),
{
    let head = " size=\""@ + signed_decimal(b.size as int) + "\""@ + " weight=\""@ + decimal(
        b.weight as nat,
    ) + "\""@;
    let slant = if b.italic {
        " style=\"italic\""@
    } else {
        ""@
    };
    let figures = if b.tabular {
        " font_features=\"tnum 1\""@
    } else {
        ""@
    };
    let hex = crate::gtk::text::hex_color(r, g, u);
    let tone = |alpha: Option<(u16, u16)>|
        Some(Tone { r, g, b: u, fine_r: fine, fine_g: fine, fine_b: fine, alpha });
    let empty = Seq::<char>::empty();
    if b.family is None {
        assert(span(b, None) =~= "<span"@ + head + slant + figures + ">"@);
        assert(span(b, tone(None)) =~= "<span"@ + head + slant + figures + (" foreground=\"#"@ + hex
            + "\""@) + ">"@);
        assert(span(b, tone(Some((cut, fine)))) =~= "<span"@ + head + slant + figures + (
        " foreground=\"#"@ + hex + "\""@ + (" alpha=\""@ + decimal(cut as nat) + "\""@)) + ">"@);
    } else {
        assert(span(b, None) =~= "<span"@ + (" font_family=\""@ + b.family->0 + "\""@) + head + slant
            + figures + ">"@);
    }
    a_digit_reads_back(r as nat / 16);
    a_digit_reads_back(r as nat % 16);
    a_digit_reads_back(g as nat / 16);
    a_digit_reads_back(g as nat % 16);
    a_digit_reads_back(u as nat / 16);
    a_digit_reads_back(u as nat % 16);
}

proof fn a_digit_reads_back(d: nat)
    requires
        d < 16,
    ensures
        crate::json::hex_value(crate::json::hex_digit(d)) == d,
{
}

/// A label's look is put on as attributes, by its fine channels; one that has runs is marked up
/// instead. A patch changes the part it names.
pub proof fn a_label_looks_as_told(w: u64, l: LabelView, v: GtkView, t: String, f: FontSpec)
    ensures
        l.rich is None ==> look_acts(w, l) == seq![attrs_act(w, l)],
        l.rich is Some ==> look_acts(w, l) == seq![
            SpecAct::NoAttrs { w },
            Act::Rich { w, open: span(l.base, l.tone) },
        ],
        attrs_act(w, l) matches Act::Attrs { w: of, family, size, weight, italic, tabular, color, alpha }
            && {
            &&& of == w && family == l.base.family && size == l.base.size
            &&& weight == l.base.weight && italic == l.base.italic && tabular == l.base.tabular
            &&& l.tone is None ==> color is None && alpha is None
            &&& l.tone matches Some(c) ==> color == Some((c.fine_r, c.fine_g, c.fine_b)) && alpha
                == attr_alpha(c)
        },
        label_acts(v, w, LabelPatch::Text(t)) == seq![SpecAct::Text { w, text: t@ }],
        look_changed(l, LabelPatch::Font(f)).base == base_of(f),
        look_changed(l, LabelPatch::Font(f)).tone == l.tone,
        look_changed(l, LabelPatch::Font(f)).rich == l.rich,
        look_changed(l, LabelPatch::Color(None)).tone is None,
        look_changed(l, LabelPatch::Color(None)).base == l.base,
{
}

// ---- styles ------------------------------------------------------------------------------------

/// A button's style: a plain one takes the suggestion and any tint off; a prominent one is
/// suggested; a tinted one gets the class of its color, and a rule for that color the first time.
pub proof fn a_button_is_styled(v: GtkView, w: u64, c: Color, on: Color)
    ensures
        ({
            let off = seq![SpecAct::RemoveClass { w, class: "suggested-action"@ }];
            let key = color_key(c);
            &&& style_acts(v, w, ButtonStyle::Prominent, Seq::empty(), true) == off.push(
                Act::AddClass { w, class: "suggested-action"@ },
            )
            &&& v.tints.contains(color_number(c)) ==> style_acts(
                v,
                w,
                ButtonStyle::Tinted(c, on),
                Seq::empty(),
                true,
            ) == off.push(Act::AddClass { w, class: "day-tint-"@ + key })
            &&& !v.tints.contains(color_number(c)) ==> style_acts(
                v,
                w,
                ButtonStyle::Tinted(c, on),
                Seq::empty(),
                true,
            ) == off.push(Act::Css { css: tint_rule(key, color_key(on)) }).push(
                Act::AddClass { w, class: "day-tint-"@ + key },
            )
            &&& tint_rule(key, color_key(on)) == "button.day-tint-"@ + key
                + " { background-image: image(#"@ + key + "); color: #"@ + color_key(on) + "; }"@
        }),
{
    let none = Seq::<Seq<char>>::empty();
    let off = seq![SpecAct::RemoveClass { w, class: "suggested-action"@ }];
    assert(off + tints_off(w, none, 0) =~= off);
    assert(off + Seq::<SpecAct>::empty() =~= off);
    let rule = seq![SpecAct::Css { css: tint_rule(color_key(c), color_key(on)) }];
    assert(off + rule =~= off.push(rule[0]));
}

/// A color's key and its number are its red, green and blue, cut.
pub proof fn a_color_reads_back(c: Color)
    ensures
        ({
            let key = color_key(c);
            &&& key.len() == 6
            &&& crate::json::hex_value(key[0]) * 16 + crate::json::hex_value(key[1]) == c.r.cut
            &&& crate::json::hex_value(key[2]) * 16 + crate::json::hex_value(key[3]) == c.g.cut
            &&& crate::json::hex_value(key[4]) * 16 + crate::json::hex_value(key[5]) == c.b.cut
        }),
        color_number(c) == c.r.cut * 65536 + c.g.cut * 256 + c.b.cut,
{
    a_digit_reads_back(c.r.cut as nat / 16);
    a_digit_reads_back(c.r.cut as nat % 16);
    a_digit_reads_back(c.g.cut as nat / 16);
    a_digit_reads_back(c.g.cut as nat % 16);
    a_digit_reads_back(c.b.cut as nat / 16);
    a_digit_reads_back(c.b.cut as nat % 16);
}

/// A surface has a class of its own, made once, and a rule with its fill and its corners; it clips
/// where it is asked to or has corners.
pub proof fn a_surface_is_painted(v: GtkView, w: u64, c: Color, radius: Seq<char>)
    ensures
        ({
            let class = "day-surface-"@ + decimal(w as nat);
            let css = |body: Seq<char>| "."@ + class + " { "@ + body + " }"@;
            let fill = "background-color: rgba("@ + decimal(c.r.near as nat) + ","@ + decimal(
                c.g.near as nat,
            ) + ","@ + decimal(c.b.near as nat) + ","@ + c.alpha@ + ");"@;
            let corners = "border-radius: "@ + radius + "px;"@;
            let known = v.surfaces.contains(w);
            &&& surface_class(w) == class
            &&& surface_body(Some(c), None) == fill
            &&& surface_body(None, Some(radius)) == corners
            &&& surface_body(Some(c), Some(radius)) == fill + corners
            &&& surface_body(None, None).len() == 0
            &&& known ==> surface_acts(v, w, Some(c), None, false) == seq![
                SpecAct::SurfaceCss { w, css: css(fill) },
            ]
            &&& !known ==> surface_acts(v, w, Some(c), None, false) == seq![
                SpecAct::NewSurface { w },
                Act::AddClass { w, class },
                Act::SurfaceCss { w, css: css(fill) },
            ]
            &&& known ==> surface_acts(v, w, Some(c), Some(radius), false) == seq![
                SpecAct::SurfaceCss { w, css: css(fill + corners) },
                Act::Clip { w },
            ]
            &&& known ==> surface_acts(v, w, Some(c), None, true) == seq![
                SpecAct::SurfaceCss { w, css: css(fill) },
                Act::Clip { w },
            ]
        }),
{
    let fill = "background-color: rgba("@ + decimal(c.r.near as nat) + ","@ + decimal(
        c.g.near as nat,
    ) + ","@ + decimal(c.b.near as nat) + ","@ + c.alpha@ + ");"@;
    let corners = "border-radius: "@ + radius + "px;"@;
    assert(surface_body(Some(c), None) =~= fill);
    assert(surface_body(None, Some(radius)) =~= corners);
}

// ---- rows, panels and trees --------------------------------------------------------------------

/// What the app hears of a row that was selected, a toggle that was switched on, a page that was
/// popped and a panel that was shown or hidden: one event each for the node it concerns, unless
/// the change is the app's own.
pub proof fn widgets_report_to_the_app(id: u64, row: i32, stack: u64, index: int, node: u64)
    requires
        0 <= index <= i64::MAX,
    ensures
        selected_acts(id, Some(row), false) == seq![
            SpecAct::Emit { to: Target::Node(id), event: Event::SelectionChanged(row as i64) },
        ],
        selected_acts(id, None, false).len() == 0,
        toggled_acts(stack, index, node, true, false) == seq![
            SpecAct::ShowNamed { w: stack, name: "p"@ + decimal((index + 1) as nat) },
            Act::Emit { to: Target::Node(node), event: Event::SelectionChanged(index as i64) },
        ],
        toggled_acts(stack, index, node, true, true) == seq![
            SpecAct::ShowNamed { w: stack, name: "p"@ + decimal((index + 1) as nat) },
        ],
        toggled_acts(stack, index, node, false, false).len() == 0,
        popped_acts(id, false) == seq![
            SpecAct::Emit { to: Target::Node(id), event: Event::NavBack { already_popped: true } },
        ],
        inspector_shown_acts(stack, id, true, false) == seq![
            SpecAct::Emit { to: Target::Node(id), event: Event::InspectorChanged(true) },
            Act::Later { work: Later::InspectorReport(stack) },
        ],
        inspector_shown_acts(stack, id, false, false) == seq![
            SpecAct::Emit { to: Target::Node(id), event: Event::InspectorChanged(false) },
            Act::Later { work: Later::InspectorReport(stack) },
        ],
        inspector_shown_acts(stack, id, true, true) == seq![
            SpecAct::Later { work: Later::InspectorReport(stack) },
        ],
{
}

/// What a row of a menu shows: its picture where the toolkit has one of that name, its tint by its
/// channels, its badge where that is not empty, and a menu where it has entries.
pub proof fn rows_show_what_they_have(
    names: Seq<Option<String>>,
    tints: Seq<Option<Color>>,
    glyphs: Seq<Seq<char>>,
    r: MenuRows,
    i: int,
)
    requires
        0 <= i < names.len(),
        0 <= i < tints.len(),
        0 <= i < r.menus@.len(),
    ensures
        names[i] matches Some(s) ==> {
            &&& glyphs.contains(s@) ==> glyph_at(names, i, glyphs) == Some(s@)
            &&& !glyphs.contains(s@) ==> glyph_at(names, i, glyphs) is None
            &&& s@.len() > 0 ==> badge_at(names, i) == Some(s@)
            &&& s@.len() == 0 ==> badge_at(names, i) is None
        },
        names[i] is None ==> glyph_at(names, i, glyphs) is None && badge_at(names, i) is None,
        tints[i] matches Some(c) ==> tint_at(tints, i) == Some((c.r.cut, c.g.cut, c.b.cut)),
        tints[i] is None ==> tint_at(tints, i) is None,
        has_menu(r, i) == (r.menus@[i]@.len() > 0),
{
}

proof fn tokens_are_selected(rows: Seq<Row>, n: int, t: u64)
    requires
        0 <= n <= rows.len(),
    ensures
        selected_tokens(rows, n).contains(t) <==> exists|i: int|
            0 <= i < n && (#[trigger] rows[i]).selected && parsed_u64(rows[i].text@) == Some(t),
    decreases n,
{
    if n > 0 {
        tokens_are_selected(rows, n - 1, t);
        let before = selected_tokens(rows, n - 1);
        let all = selected_tokens(rows, n);
        if before.contains(t) {
            assert(all[before.index_of(t)] == t);
        }
        if rows[n - 1].selected && parsed_u64(rows[n - 1].text@) == Some(t) {
            assert(all[before.len() as int] == t);
        }
        if all.contains(t) {
            let k = all.index_of(t);
            if k < before.len() {
                assert(before[k] == t);
            } else {
                assert(rows[n - 1].selected);
            }
        }
    }
}

proof fn rows_to_select(v: TreeView, rows: Seq<Row>, n: int, at: usize)
    requires
        0 <= n <= rows.len() <= usize::MAX,
    ensures
        to_select(v, rows, n).contains(at) <==> at < n && parsed_u64(rows[at as int].text@) is Some
            && v.selected.contains(parsed_u64(rows[at as int].text@)->0),
    decreases n,
{
    if n > 0 {
        rows_to_select(v, rows, n - 1, at);
        let before = to_select(v, rows, n - 1);
        let all = to_select(v, rows, n);
        if before.contains(at) {
            assert(all[before.index_of(at)] == at);
        }
        if all.contains(at) {
            let k = all.index_of(at);
            if k < before.len() {
                assert(before[k] == at);
            }
        }
        if at == n - 1 && all.len() > before.len() {
            assert(all[before.len() as int] == at);
        }
    }
}

/// The tokens a tree reports as selected are those of its selected rows; the rows it selects are
/// those whose tokens the app named; and a row opens or closes exactly where it stands otherwise
/// than the app last had it.
pub proof fn trees_select_and_open_by_token(
    v: TreeView,
    rows: Seq<Row>,
    t: u64,
    at: usize,
    row: Row,
)
    requires
        rows.len() <= usize::MAX,
    ensures
        selected_tokens(rows, rows.len() as int).contains(t) <==> exists|i: int|
            0 <= i < rows.len() && (#[trigger] rows[i]).selected && parsed_u64(rows[i].text@)
                == Some(t),
        to_select(v, rows, rows.len() as int).contains(at) <==> at < rows.len() && parsed_u64(
            rows[at as int].text@,
        ) is Some && v.selected.contains(parsed_u64(rows[at as int].text@)->0),
        parsed_u64(row.text@) == Some(t) && row.expandable && row.expanded && !v.expanded.contains(
            t,
        ) ==> disclosure(v, row) == Some(false),
        parsed_u64(row.text@) == Some(t) && row.expandable && !row.expanded && v.expanded.contains(
            t,
        ) ==> disclosure(v, row) == Some(true),
        parsed_u64(row.text@) == Some(t) && row.expanded == v.expanded.contains(t) ==> disclosure(
            v,
            row,
        ) is None,
        !row.expandable ==> disclosure(v, row) is None,
{
    tokens_are_selected(rows, rows.len() as int, t);
    rows_to_select(v, rows, rows.len() as int, at);
}

/// A row that the user opens or closes is remembered as that and told; the app's own patches are
/// remembered too, and put their work off.
pub proof fn trees_remember_what_is_open(
    v: TreeView,
    text: Seq<char>,
    token: u64,
    on: bool,
    host: u64,
    other: u64,
)
    requires
        parsed_u64(text) == Some(token),
    ensures
        disclosed(v, text, on, false).expanded.contains(token) == on,
        other != token ==> disclosed(v, text, on, false).expanded.contains(other)
            == v.expanded.contains(other),
        disclosed_acts(v, text, on, false) == seq![
            SpecAct::Emit {
                to: Target::Node(v.node),
                event: Event::TreeExpanded { token, expanded: on },
            },
        ],
        tree_updated(v, TreePatch::Expand(token, on)).expanded.contains(token) == on,
        tree_updated(v, TreePatch::Expand(token, on)).selected == v.selected,
        tree_work(host, TreePatch::Reload) == Later::TreeRebuild(host),
        tree_work(host, TreePatch::Expand(token, on)) == Later::TreeExpand(host),
        tree_work(host, TreePatch::Reveal(token)) == Later::TreeReveal(host, token),
{
}

/// The place of a token is that of the first row with it.
pub proof fn a_token_is_found(rows: Seq<Row>, token: u64, at: int)
    requires
        0 <= at < rows.len() <= usize::MAX,
        parsed_u64(rows[at].text@) == Some(token),
        forall|i: int| 0 <= i < at ==> parsed_u64((#[trigger] rows[i]).text@) != Some(token),
    ensures
        place_of(rows, token, 0) == Some(at as usize),
{
    token_from(rows, token, at, 0);
}

proof fn token_from(rows: Seq<Row>, token: u64, at: int, n: int)
    requires
        0 <= n <= at < rows.len() <= usize::MAX,
        parsed_u64(rows[at].text@) == Some(token),
        forall|i: int| 0 <= i < at ==> parsed_u64((#[trigger] rows[i]).text@) != Some(token),
    ensures
        place_of(rows, token, n) == Some(at as usize),
    decreases at - n,
{
    if n < at {
        assert(parsed_u64(rows[n].text@) != Some(token));
        token_from(rows, token, at, n + 1);
    }
}

// ---- windows, focus and the rest ---------------------------------------------------------------

/// The app hears that it became active or is about to resign when its windows, taken together, do;
/// the phases of its life that every platform has are the five; and the theme is forced by name.
pub proof fn windows_make_the_app_active()
    ensures
        activation_acts(false, true) == seq![
            SpecAct::Emit {
                to: Target::Window,
                event: Event::Lifecycle(Lifecycle::DidBecomeActive),
            },
        ],
        activation_acts(true, false) == seq![
            SpecAct::Emit {
                to: Target::Window,
                event: Event::Lifecycle(Lifecycle::WillResignActive),
            },
        ],
        universal(Lifecycle::WillLaunch) && universal(Lifecycle::DidLaunch),
        universal(Lifecycle::DidBecomeActive) && universal(Lifecycle::WillResignActive),
        universal(Lifecycle::WillTerminate),
        !universal(Lifecycle::DidEnterBackground) && !universal(Lifecycle::WillEnterForeground),
        !universal(Lifecycle::MemoryWarning),
        forced("dark"@) == Some(true),
        forced("light"@) == Some(false),
        forced("auto"@) is None,
{
    reveal_strlit("dark");
    reveal_strlit("light");
    reveal_strlit("auto");
    assert("dark"@.len() != "light"@.len());
    assert("auto"@.len() != "light"@.len());
    assert("auto"@[0] != "dark"@[0]);
}

/// A snapshot waits for one frame more than there were when it was asked for, and is then settled
/// and asked for no more.
pub proof fn a_snapshot_waits_for_a_frame(s: Settle)
    requires
        s.count < u64::MAX,
        s.target is None,
    ensures
        !settled(s),
        polled(s).target == Some((s.count + 1) as u64),
        !settled(polled(s)),
        polled(polled(s)) == polled(s),
        settled(frame_painted(polled(s))),
        polled(frame_painted(polled(s))).target is None,
{
}

/// A window is found by its content, and a dialog stands over the first window that is active, or
/// over the first of all.
pub proof fn windows_are_found(
    windows: Pairs,
    content: u64,
    active: Seq<bool>,
    root: Option<u64>,
    i: int,
)
    requires
        active.len() == windows.len(),
    ensures
        0 <= i < windows.len() && windows[i].1 == content && (forall|j: int|
            0 <= j < i ==> (#[trigger] windows[j]).1 != content) ==> window_of(windows, content, 0)
            == Some(windows[i].0),
        0 <= i < windows.len() && active[i] && (forall|j: int|
            0 <= j < i ==> !(#[trigger] active[j])) ==> dialog_parent(windows, active, 0, root)
            == Some(windows[i].1),
        (forall|j: int| 0 <= j < active.len() ==> !(#[trigger] active[j])) ==> dialog_parent(
            windows,
            active,
            0,
            root,
        ) == root,
{
    if 0 <= i < windows.len() && windows[i].1 == content && (forall|j: int|
        0 <= j < i ==> (#[trigger] windows[j]).1 != content) {
        window_from(windows, content, i, 0);
    }
    if 0 <= i < windows.len() && active[i] && (forall|j: int|
        0 <= j < i ==> !(#[trigger] active[j])) {
        parent_from(windows, active, root, i, 0);
    }
    if forall|j: int| 0 <= j < active.len() ==> !(#[trigger] active[j]) {
        no_parent_from(windows, active, root, 0);
    }
}

proof fn window_from(windows: Pairs, content: u64, i: int, n: int)
    requires
        0 <= n <= i < windows.len(),
        windows[i].1 == content,
        forall|j: int| 0 <= j < i ==> (#[trigger] windows[j]).1 != content,
    ensures
        window_of(windows, content, n) == Some(windows[i].0),
    decreases i - n,
{
    if n < i {
        assert(windows[n].1 != content);
        window_from(windows, content, i, n + 1);
    }
}

proof fn parent_from(windows: Pairs, active: Seq<bool>, root: Option<u64>, i: int, n: int)
    requires
        0 <= n <= i < windows.len() == active.len(),
        active[i],
        forall|j: int| 0 <= j < i ==> !(#[trigger] active[j]),
    ensures
        dialog_parent(windows, active, n, root) == Some(windows[i].1),
    decreases i - n,
{
    if n < i {
        assert(!active[n]);
        parent_from(windows, active, root, i, n + 1);
    }
}

proof fn no_parent_from(windows: Pairs, active: Seq<bool>, root: Option<u64>, n: int)
    requires
        0 <= n <= windows.len() == active.len(),
        forall|j: int| 0 <= j < active.len() ==> !(#[trigger] active[j]),
    ensures
        dialog_parent(windows, active, n, root) == root,
    decreases windows.len() - n,
{
    if n < windows.len() {
        assert(!active[n]);
        no_parent_from(windows, active, root, n + 1);
    }
}

/// The focus is taken at once, or once the widget is on screen; and given up only by the widget
/// that holds it. A gesture is wired once for each kind. What assistance is told of a widget is
/// what it was given.
pub proof fn focus_gestures_and_names(
    v: GtkView,
    w: u64,
    id: u64,
    mapped: bool,
    kind: GestureKind,
    a: A11y,
)
    ensures
        focus_acts(w, true, true, mapped) == seq![SpecAct::GrabFocus { w }],
        focus_acts(w, true, false, mapped) == seq![SpecAct::GrabOnMap { w }],
        focus_acts(w, false, mapped, true) == seq![SpecAct::Unfocus { w }],
        focus_acts(w, false, mapped, false).len() == 0,
        v.gestures.contains((w, kind)) ==> gesture_acts(v, w, id, kind).len() == 0,
        !v.gestures.contains((w, kind)) ==> gesture_acts(v, w, id, kind) == seq![
            SpecAct::Gesture { w, id, kind },
        ],
        a.identifier matches Some(name) ==> a11y_acts(w, a).contains(
            Act::Name { w, name: name@ },
        ),
        a.hidden ==> a11y_acts(w, a).contains(Act::Hidden { w }),
        a.label matches Some(l) ==> a.hint is None ==> a.value is None ==> a11y_acts(w, a).contains(
            Act::Accessible { w, label: Some(l@), hint: None, value: None },
        ),
{
    let all = a11y_acts(w, a);
    if a.identifier is Some {
        assert(all[0] == SpecAct::Name { w, name: a.identifier->0@ });
    }
    if a.hidden {
        assert(all[all.len() - 1] == SpecAct::Hidden { w });
    }
    let k: int = if a.identifier is Some {
        1
    } else {
        0
    };
    if a.label is Some && a.hint is None && a.value is None {
        assert(all[k] == SpecAct::Accessible {
            w,
            label: Some(a.label->0@),
            hint: None,
            value: None,
        });
    }
}

// ---- numbers in texts --------------------------------------------------------------------------

/// A pair of texts with a comma between them reads back as the two, where the first holds none; a
/// text without a comma is no pair.
pub proof fn a_pair_reads_back(a: Seq<char>, b: Seq<char>)
    requires
        forall|i: int| 0 <= i < a.len() ==> (#[trigger] a[i]) != ',',
    ensures
        pair_in(a + seq![','] + b) == Some((a, b)),
        pair_in(a) is None,
{
    let s = a + seq![','] + b;
    first_comma(s, a.len() as int, 0);
    assert(s.take(a.len() as int) =~= a);
    assert(s.skip((a.len() + 1) as int) =~= b);
    no_comma(a, 0);
}

proof fn first_comma(s: Seq<char>, at: int, i: int)
    requires
        0 <= i <= at < s.len(),
        s[at] == ',',
        forall|k: int| 0 <= k < at ==> (#[trigger] s[k]) != ',',
    ensures
        crate::text::first_of(s, ',', i) == Some(at),
    decreases at - i,
{
    if i < at {
        assert(s[i] != ',');
        first_comma(s, at, i + 1);
    }
}

proof fn no_comma(s: Seq<char>, i: int)
    requires
        0 <= i <= s.len(),
        forall|k: int| 0 <= k < s.len() ==> (#[trigger] s[k]) != ',',
    ensures
        crate::text::first_of(s, ',', i) is None,
    decreases s.len() - i,
{
    if i < s.len() {
        assert(s[i] != ',');
        no_comma(s, i + 1);
    }
}

/// A list of words is read word by word, in order; a word that is no pair, or a stop whose color is
/// no number, is passed over.
pub proof fn words_are_read_in_order(
    words: Seq<Seq<char>>,
    word: Seq<char>,
    pairs: Seq<(Seq<char>, Seq<char>)>,
    pair: (Seq<char>, Seq<char>),
)
    ensures
        ({
            let n = words.len() as int;
            let more = pairs_in(words.push(word), n + 1);
            &&& pair_in(word) is Some ==> more == pairs_in(words, n).push(pair_in(word)->0)
            &&& pair_in(word) is None ==> more == pairs_in(words, n)
        }),
        ({
            let n = pairs.len() as int;
            let more = stops_in(pairs.push(pair), n + 1);
            &&& parsed_hex(pair.1) is Some ==> more == stops_in(pairs, n).push(
                (pair.0, parsed_hex(pair.1)->0),
            )
            &&& parsed_hex(pair.1) is None ==> more == stops_in(pairs, n)
        }),
{
    same_pairs(words, words.push(word), words.len() as int);
    same_stops(pairs, pairs.push(pair), pairs.len() as int);
}

proof fn same_pairs(words: Seq<Seq<char>>, more: Seq<Seq<char>>, n: int)
    requires
        n <= words.len() <= more.len(),
        forall|i: int| 0 <= i < words.len() ==> words[i] == more[i],
    ensures
        pairs_in(words, n) == pairs_in(more, n),
    decreases n,
{
    if n > 0 {
        same_pairs(words, more, n - 1);
    }
}

proof fn same_stops(pairs: Seq<(Seq<char>, Seq<char>)>, more: Seq<(Seq<char>, Seq<char>)>, n: int)
    requires
        n <= pairs.len() <= more.len(),
        forall|i: int| 0 <= i < pairs.len() ==> pairs[i] == more[i],
    ensures
        stops_in(pairs, n) == stops_in(more, n),
    decreases n,
{
    if n > 0 {
        same_stops(pairs, more, n - 1);
    }
}

/// A number written in lower-case hexadecimal digits reads back: one digit more is sixteen times
/// what was before it, and the digit.
pub proof fn hexadecimal_digits_read_back(s: Seq<char>, d: nat)
    requires
        d < 16,
    ensures
        hex_value(Seq::empty()) == Some(0nat),
        hex_value(s) is Some ==> hex_value(s.push(crate::json::hex_digit(d))) == Some(
            16 * hex_value(s)->0 + d,
        ),
        s.len() > 0 && s[0] != '+' && hex_value(s) is Some && hex_value(s)->0 <= u32::MAX
            ==> parsed_hex(s) == Some(hex_value(s)->0 as u32),
        parsed_hex(Seq::empty()) is None,
{
    assert(s.push(crate::json::hex_digit(d)).drop_last() =~= s);
}

} // verus!
