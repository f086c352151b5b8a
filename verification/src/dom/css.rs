//! What goes into styles and attributes: fonts, colors, decorations, transitions and the
//! addresses of staged images.
use crate::json::{hex_char, hex_digit};
use crate::model::{AnimSpec, Color, Curve, Font, FontSpec, FontWeight, TextRun, Underline};
use crate::num::Num;
use crate::text::{cat2, cat3, decimal, decimal_of, owned, push_decimal, same};
use vstd::prelude::*;

verus! {

/// The font stack of ordinary text.
pub const SYSTEM_STACK: &'static str =
    "-apple-system, BlinkMacSystemFont, 'Segoe UI', Roboto, Helvetica, Arial, sans-serif";

/// The fixed-pitch counterpart of [`SYSTEM_STACK`].
pub const MONO_STACK: &'static str =
    "ui-monospace, SFMono-Regular, Menlo, Consolas, 'Liberation Mono', monospace";

/// The size of a font style: a step of the ramp in ten-thousandths of a rem, or points, of
/// which sixteen make a rem.
#[derive(Clone, Copy, Debug, PartialEq, Eq, Structural)]
pub enum RemSize {
    Ramp(u32),
    Points(Num),
}

/// The ramp: each style's size and the weight it has when the app names none.
pub open spec fn ramp(style: Font) -> (RemSize, u32) {
    match style {
        Font::LargeTitle => (RemSize::Ramp(20000), 700),
        Font::Title => (RemSize::Ramp(16250), 700),
        Font::Title2 => (RemSize::Ramp(12500), 600),
        Font::Title3 => (RemSize::Ramp(11250), 600),
        Font::Headline => (RemSize::Ramp(10000), 600),
        Font::Subheadline => (RemSize::Ramp(8750), 400),
        Font::Body => (RemSize::Ramp(10000), 400),
        Font::Callout => (RemSize::Ramp(9375), 400),
        Font::Footnote => (RemSize::Ramp(8125), 400),
        Font::Caption => (RemSize::Ramp(7500), 400),
        Font::Caption2 => (RemSize::Ramp(6875), 400),
        Font::System(pt) => (RemSize::Points(pt), 400),
        Font::Custom(_, pt) => (RemSize::Points(pt), 400),
    }
}

/// A style's place on the ramp and its own weight.
pub fn font_rem(style: &Font) -> (r: (RemSize, u32))
    ensures
        r == ramp(*style),
{
    match style {
        Font::LargeTitle => (RemSize::Ramp(20000), 700),
        Font::Title => (RemSize::Ramp(16250), 700),
        Font::Title2 => (RemSize::Ramp(12500), 600),
        Font::Title3 => (RemSize::Ramp(11250), 600),
        Font::Headline => (RemSize::Ramp(10000), 600),
        Font::Subheadline => (RemSize::Ramp(8750), 400),
        Font::Body => (RemSize::Ramp(10000), 400),
        Font::Callout => (RemSize::Ramp(9375), 400),
        Font::Footnote => (RemSize::Ramp(8125), 400),
        Font::Caption => (RemSize::Ramp(7500), 400),
        Font::Caption2 => (RemSize::Ramp(6875), 400),
        Font::System(pt) => (RemSize::Points(*pt), 400),
        Font::Custom(_, pt) => (RemSize::Points(*pt), 400),
    }
}

/// The CSS number of a weight.
pub open spec fn css_weight(w: FontWeight) -> u32 {
    match w {
        FontWeight::UltraLight => 100,
        FontWeight::Thin => 200,
        FontWeight::Light => 300,
        FontWeight::Regular => 400,
        FontWeight::Medium => 500,
        FontWeight::Semibold => 600,
        FontWeight::Bold => 700,
        FontWeight::Heavy => 800,
        FontWeight::Black => 900,
    }
}

pub fn weight_css(w: FontWeight) -> (n: u32)
    ensures
        n == css_weight(w),
{
    match w {
        FontWeight::UltraLight => 100,
        FontWeight::Thin => 200,
        FontWeight::Light => 300,
        FontWeight::Regular => 400,
        FontWeight::Medium => 500,
        FontWeight::Semibold => 600,
        FontWeight::Bold => 700,
        FontWeight::Heavy => 800,
        FontWeight::Black => 900,
    }
}

/// A ramp step as a length: so many rem, by the stylesheet's own text scale.
pub open spec fn scaled(step: Seq<char>) -> Seq<char> {
    "calc("@ + step + "rem * var(--day-text-scale))"@
}

pub fn scaled_rem(step: &str) -> (s: String)
    ensures
        s@ == scaled(step@),
{
    cat3("calc(", step, "rem * var(--day-text-scale))")
}

/// Whether a style gives its size in points rather than as a ramp step.
pub open spec fn explicit_size(style: Font) -> bool {
    style is System || style is Custom
}

/// The length a font is set at.
pub open spec fn font_length(f: FontSpec) -> Seq<char> {
    if explicit_size(f.style) {
        f.size@ + "rem"@
    } else {
        scaled(f.size@)
    }
}

/// The weight a font is set at: the one asked for, else the style's own.
pub open spec fn font_weight(f: FontSpec) -> u32 {
    match f.weight {
        Some(w) => css_weight(w),
        None => ramp(f.style).1,
    }
}

/// The families a font may come from: a bundled one first, then the stack for its pitch.
pub open spec fn font_family(f: FontSpec) -> Seq<char> {
    let stack = if f.monospace {
        MONO_STACK@
    } else {
        SYSTEM_STACK@
    };
    match f.style {
        Font::Custom(name, _) => "'"@ + name@ + "', "@ + stack,
        _ => stack,
    }
}

/// The `font` shorthand: style, weight, size over line height, families.
pub open spec fn font_shorthand(f: FontSpec) -> Seq<char> {
    (if f.italic {
        "italic "@
    } else {
        Seq::empty()
    }) + decimal(font_weight(f) as nat) + " "@ + font_length(f) + "/1.3 "@ + font_family(f)
}

pub fn font_css(f: &FontSpec) -> (s: String)
    ensures
        s@ == font_shorthand(*f),
{
    let weight: u32 = match f.weight {
        Some(w) => weight_css(w),
        None => font_rem(&f.style).1,
    };
    let length: String = match &f.style {
        Font::System(_) => cat2(f.size.as_str(), "rem"),
        Font::Custom(_, _) => cat2(f.size.as_str(), "rem"),
        _ => scaled_rem(f.size.as_str()),
    };
    let stack: &str = if f.monospace {
        MONO_STACK
    } else {
        SYSTEM_STACK
    };
    let family: String = match &f.style {
        Font::Custom(name, _) => {
            let mut t = cat3("'", name.as_str(), "', ");
            t.append(stack);
            t
        },
        _ => owned(stack),
    };
    let mut s = String::new();
    if f.italic {
        s.append("italic ");
    }
    proof {
        assert(s@ =~= if f.italic {
            "italic "@
        } else {
            Seq::<char>::empty()
        });
    }
    push_decimal(&mut s, weight as u64);
    s.append(" ");
    s.append(length.as_str());
    s.append("/1.3 ");
    s.append(family.as_str());
    s
}

/// A run's `text-decoration`: its lines in one declaration, then the style word of a patterned
/// underline. Empty where it has neither line.
pub open spec fn decoration(underline: Underline, strikethrough: bool) -> Seq<char> {
    let lines = if underline != Underline::Off && strikethrough {
        "underline"@ + " "@ + "line-through"@
    } else if underline != Underline::Off {
        "underline"@
    } else if strikethrough {
        "line-through"@
    } else {
        Seq::empty()
    };
    match underline {
        Underline::Double => lines + " double"@,
        Underline::Dotted => lines + " dotted"@,
        Underline::Wavy => lines + " wavy"@,
        Underline::Single => lines,
        Underline::Off => lines,
    }
}

pub fn decoration_css(r: &TextRun) -> (s: String)
    ensures
        s@ == decoration(r.underline, r.strikethrough),
{
    let on = match r.underline {
        Underline::Off => false,
        _ => true,
    };
    let mut lines: String = if on && r.strikethrough {
        cat3("underline", " ", "line-through")
    } else if on {
        owned("underline")
    } else if r.strikethrough {
        owned("line-through")
    } else {
        String::new()
    };
    match r.underline {
        Underline::Double => {
            lines.append(" double");
        },
        Underline::Dotted => {
            lines.append(" dotted");
        },
        Underline::Wavy => {
            lines.append(" wavy");
        },
        Underline::Single => {},
        Underline::Off => {},
    }
    lines
}

/// A color in CSS, alpha and all.
pub open spec fn rgba(c: Color) -> Seq<char> {
    "rgba("@ + decimal(c.r.near as nat) + ","@ + decimal(c.g.near as nat) + ","@ + decimal(
        c.b.near as nat,
    ) + ","@ + c.alpha@ + ")"@
}

pub fn color_css(c: &Color) -> (s: String)
    ensures
        s@ == rgba(*c),
{
    let mut s = owned("rgba(");
    push_decimal(&mut s, c.r.near as u64);
    s.append(",");
    push_decimal(&mut s, c.g.near as u64);
    s.append(",");
    push_decimal(&mut s, c.b.near as u64);
    s.append(",");
    s.append(c.alpha.as_str());
    s.append(")");
    s
}

/// A color in CSS without its alpha, the components cut.
pub open spec fn rgb(c: Color) -> Seq<char> {
    "rgb("@ + decimal(c.r.cut as nat) + " "@ + decimal(c.g.cut as nat) + " "@ + decimal(
        c.b.cut as nat,
    ) + ")"@
}

pub fn rgb_css(c: &Color) -> (s: String)
    ensures
        s@ == rgb(*c),
{
    let mut s = owned("rgb(");
    push_decimal(&mut s, c.r.cut as u64);
    s.append(" ");
    push_decimal(&mut s, c.g.cut as u64);
    s.append(" ");
    push_decimal(&mut s, c.b.cut as u64);
    s.append(")");
    s
}

/// A byte as two hexadecimal digits.
pub open spec fn hex_byte(b: u8) -> Seq<char> {
    seq![hex_digit(b as nat / 16), hex_digit(b as nat % 16)]
}

/// A color as `#rrggbb`, the components cut.
pub open spec fn hex_color(c: Color) -> Seq<char> {
    seq!['#'] + hex_byte(c.r.cut) + hex_byte(c.g.cut) + hex_byte(c.b.cut)
}

fn push_hex_byte(out: &mut String, b: u8)
    ensures
        final(out)@ == old(out)@ + hex_byte(b),
{
    out.push(hex_char((b / 16) as u32));
    out.push(hex_char((b % 16) as u32));
    proof {
        assert(out@ =~= old(out)@ + hex_byte(b));
    }
}

pub fn hex_css(c: &Color) -> (s: String)
    ensures
        s@ == hex_color(*c),
{
    let mut s = String::new();
    s.push('#');
    assert(s@ =~= seq!['#']);
    push_hex_byte(&mut s, c.r.cut);
    push_hex_byte(&mut s, c.g.cut);
    push_hex_byte(&mut s, c.b.cut);
    s
}

/// The timing function of a curve; a spring overshoots in a fixed time.
pub open spec fn easing(curve: Curve) -> Seq<char> {
    match curve {
        Curve::Linear => "linear"@,
        Curve::EaseIn => "ease-in"@,
        Curve::EaseOut => "ease-out"@,
        Curve::EaseInOut => "ease-in-out"@,
        Curve::Spring => "cubic-bezier(0.34, 1.4, 0.5, 1)"@,
    }
}

/// The timing part of a transition.
pub open spec fn timing(a: AnimSpec) -> Seq<char> {
    decimal(a.duration_ms as nat) + "ms "@ + easing(a.curve) + " "@ + decimal(a.delay_ms as nat)
        + "ms"@
}

pub fn css_anim(a: &AnimSpec) -> (s: String)
    ensures
        s@ == timing(*a),
{
    let ease: &str = match a.curve {
        Curve::Linear => "linear",
        Curve::EaseIn => "ease-in",
        Curve::EaseOut => "ease-out",
        Curve::EaseInOut => "ease-in-out",
        Curve::Spring => "cubic-bezier(0.34, 1.4, 0.5, 1)",
    };
    let mut s = decimal_of(a.duration_ms as u64);
    s.append("ms ");
    s.append(ease);
    s.append(" ");
    push_decimal(&mut s, a.delay_ms as u64);
    s.append("ms");
    s
}

/// A transition of one property; without an animation it is cleared, since it would otherwise
/// stay on the element and animate every later plain change.
pub open spec fn transition(property: Seq<char>, anim: Option<AnimSpec>) -> Seq<char> {
    match anim {
        Some(a) => property + " "@ + timing(a),
        None => ""@,
    }
}

pub fn transition_css(property: &str, anim: &Option<AnimSpec>) -> (s: String)
    ensures
        s@ == transition(property@, *anim),
{
    match anim {
        Some(a) => cat3(property, " ", css_anim(a).as_str()),
        None => owned(""),
    }
}

/// Whether a list of texts holds `name`.
pub open spec fn listed(names: Seq<String>, name: Seq<char>) -> bool {
    exists|i: int| 0 <= i < names.len() && (#[trigger] names[i])@ == name
}

pub fn is_listed(names: &Vec<String>, name: &str) -> (b: bool)
    ensures
        b == listed(names@, name@),
{
    let mut i: usize = 0;
    while i < names.len()
        invariant
            i <= names.len(),
            forall|k: int| 0 <= k < i ==> (#[trigger] names[k])@ != name@,
        decreases names.len() - i,
    {
        if same(names[i].as_str(), name) {
            assert(names[i as int]@ == name@);
            return true;
        }
        i = i + 1;
    }
    false
}

} // verus!
