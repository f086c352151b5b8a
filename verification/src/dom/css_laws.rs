//! What the texts of the page's styles say: colors by their channels, fonts by size and weight,
//! lines under and through text, and how long a change takes.
use crate::dom::css::{
    css_weight, decoration, easing, font_family, font_length, font_shorthand, font_weight,
    hex_color, ramp, rgb, rgba, scaled, timing, transition, RemSize, MONO_STACK, SYSTEM_STACK,
};
use crate::json::hex_value;
use crate::model::{AnimSpec, Color, Curve, Font, FontSpec, FontWeight, Underline};
use crate::text::decimal;
use vstd::prelude::*;

verus! {

/// A color's hexadecimal text is a hash and two digits for each of red, green and blue, and reads
/// back as them.
pub proof fn a_hex_color_reads_back(c: Color)
    ensures
        ({
            let t = hex_color(c);
            &&& t.len() == 7
            &&& t[0] == '#'
            &&& hex_value(t[1]) * 16 + hex_value(t[2]) == c.r.cut
            &&& hex_value(t[3]) * 16 + hex_value(t[4]) == c.g.cut
            &&& hex_value(t[5]) * 16 + hex_value(t[6]) == c.b.cut
        }),
{
    a_digit_reads_back(c.r.cut as nat / 16);
    a_digit_reads_back(c.r.cut as nat % 16);
    a_digit_reads_back(c.g.cut as nat / 16);
    a_digit_reads_back(c.g.cut as nat % 16);
    a_digit_reads_back(c.b.cut as nat / 16);
    a_digit_reads_back(c.b.cut as nat % 16);
}

proof fn a_digit_reads_back(d: nat)
    requires
        d < 16,
    ensures
        hex_value(crate::json::hex_digit(d)) == d,
{
}

/// A color's other texts name red, green and blue in that order, and the first its alpha behind
/// them.
pub proof fn colors_name_their_channels(c: Color)
    ensures
        rgba(c) == "rgba("@ + decimal(c.r.near as nat) + ","@ + decimal(c.g.near as nat) + ","@
            + decimal(c.b.near as nat) + ","@ + c.alpha@ + ")"@,
        rgb(c) == "rgb("@ + decimal(c.r.cut as nat) + " "@ + decimal(c.g.cut as nat) + " "@
            + decimal(c.b.cut as nat) + ")"@,
{
}

/// The nine weights are the nine hundreds, from the lightest up.
pub proof fn weights_are_hundreds()
    ensures
        css_weight(FontWeight::UltraLight) == 100,
        css_weight(FontWeight::Thin) == 200,
        css_weight(FontWeight::Light) == 300,
        css_weight(FontWeight::Regular) == 400,
        css_weight(FontWeight::Medium) == 500,
        css_weight(FontWeight::Semibold) == 600,
        css_weight(FontWeight::Bold) == 700,
        css_weight(FontWeight::Heavy) == 800,
        css_weight(FontWeight::Black) == 900,
{
}

/// The ramp's steps, in ten-thousandths of the page's own size: 32, 26, 20, 18, 16, 14, 15, 13, 12
/// and 11 points where that is 16.
pub proof fn the_ramp_is_in_points(pt: crate::num::Num, name: String)
    ensures
        ramp(Font::LargeTitle) == (RemSize::Ramp(20000), 700u32),
        ramp(Font::Title) == (RemSize::Ramp(16250), 700u32),
        ramp(Font::Title2) == (RemSize::Ramp(12500), 600u32),
        ramp(Font::Title3) == (RemSize::Ramp(11250), 600u32),
        ramp(Font::Headline) == (RemSize::Ramp(10000), 600u32),
        ramp(Font::Subheadline) == (RemSize::Ramp(8750), 400u32),
        ramp(Font::Body) == (RemSize::Ramp(10000), 400u32),
        ramp(Font::Callout) == (RemSize::Ramp(9375), 400u32),
        ramp(Font::Footnote) == (RemSize::Ramp(8125), 400u32),
        ramp(Font::Caption) == (RemSize::Ramp(7500), 400u32),
        ramp(Font::Caption2) == (RemSize::Ramp(6875), 400u32),
        ramp(Font::System(pt)) == (RemSize::Points(pt), 400u32),
        ramp(Font::Custom(name, pt)) == (RemSize::Points(pt), 400u32),
{
}

/// A font says its slant, its weight, its size and its families, in that order: its own weight
/// before the step's; a size of its own as it is, a step's size scaled with the page's text; its
/// own family before the fallbacks, which are those of even width where it asks for them.
pub proof fn a_font_in_css(f: FontSpec)
    ensures
        f.italic ==> font_shorthand(f) == "italic "@ + decimal(font_weight(f) as nat) + " "@
            + font_length(f) + "/1.3 "@ + font_family(f),
        !f.italic ==> font_shorthand(f) == decimal(font_weight(f) as nat) + " "@ + font_length(f)
            + "/1.3 "@ + font_family(f),
        f.weight is Some ==> font_weight(f) == css_weight(f.weight->0),
        f.weight is None ==> font_weight(f) == ramp(f.style).1,
        f.style is System || f.style is Custom ==> font_length(f) == f.size@ + "rem"@,
        !(f.style is System || f.style is Custom) ==> font_length(f) == "calc("@ + f.size@
            + "rem * var(--day-text-scale))"@,
        f.style matches Font::Custom(name, _) ==> {
            &&& f.monospace ==> font_family(f) == "'"@ + name@ + "', "@ + MONO_STACK@
            &&& !f.monospace ==> font_family(f) == "'"@ + name@ + "', "@ + SYSTEM_STACK@
        },
        !(f.style is Custom) && f.monospace ==> font_family(f) == MONO_STACK@,
        !(f.style is Custom) && !f.monospace ==> font_family(f) == SYSTEM_STACK@,
        forall|step: Seq<char>| #[trigger]
            scaled(step) == "calc("@ + step + "rem * var(--day-text-scale))"@,
{
    if !f.italic {
        assert(font_shorthand(f) =~= decimal(font_weight(f) as nat) + " "@ + font_length(f)
            + "/1.3 "@ + font_family(f));
    }
}

/// The lines on a text: under it, through it, both or none, and behind them how the one under it
/// looks where it is not a plain one.
pub proof fn lines_on_text()
    ensures
        decoration(Underline::Off, false).len() == 0,
        decoration(Underline::Off, true) == "line-through"@,
        decoration(Underline::Single, false) == "underline"@,
        decoration(Underline::Single, true) == "underline line-through"@,
        decoration(Underline::Double, false) == "underline double"@,
        decoration(Underline::Double, true) == "underline line-through double"@,
        decoration(Underline::Dotted, false) == "underline dotted"@,
        decoration(Underline::Dotted, true) == "underline line-through dotted"@,
        decoration(Underline::Wavy, false) == "underline wavy"@,
        decoration(Underline::Wavy, true) == "underline line-through wavy"@,
{
    reveal_strlit("underline");
    reveal_strlit(" ");
    reveal_strlit("line-through");
    reveal_strlit(" double");
    reveal_strlit(" dotted");
    reveal_strlit(" wavy");
    reveal_strlit("underline line-through");
    reveal_strlit("underline double");
    reveal_strlit("underline dotted");
    reveal_strlit("underline wavy");
    reveal_strlit("underline line-through double");
    reveal_strlit("underline line-through dotted");
    reveal_strlit("underline line-through wavy");
    assert(decoration(Underline::Single, true) =~= "underline line-through"@);
    assert(decoration(Underline::Double, false) =~= "underline double"@);
    assert(decoration(Underline::Double, true) =~= "underline line-through double"@);
    assert(decoration(Underline::Dotted, false) =~= "underline dotted"@);
    assert(decoration(Underline::Dotted, true) =~= "underline line-through dotted"@);
    assert(decoration(Underline::Wavy, false) =~= "underline wavy"@);
    assert(decoration(Underline::Wavy, true) =~= "underline line-through wavy"@);
}

/// A change takes its time, along its curve, after its delay; without an animation it is at once.
pub proof fn changes_take_their_time(property: Seq<char>, a: AnimSpec)
    ensures
        timing(a) == decimal(a.duration_ms as nat) + "ms "@ + easing(a.curve) + " "@ + decimal(
            a.delay_ms as nat,
        ) + "ms"@,
        transition(property, Some(a)) == property + " "@ + timing(a),
        transition(property, None) == ""@,
        easing(Curve::Linear) == "linear"@,
        easing(Curve::EaseIn) == "ease-in"@,
        easing(Curve::EaseOut) == "ease-out"@,
        easing(Curve::EaseInOut) == "ease-in-out"@,
        easing(Curve::Spring) == "cubic-bezier(0.34, 1.4, 0.5, 1)"@,
{
}

} // verus!
