//! Styled text: the sizes and weights of the text styles, and a label's style as attributes or as
//! markup.
use crate::json::{hex_char, hex_digit};
use crate::model::{Color, Font, FontSpec, FontWeight, Length, TextRun};
use crate::num::{Num, SIGN};
use crate::text::{decimal, owned, push_decimal, push_signed, signed_decimal};
use vstd::prelude::*;

verus! {

/// The size of a text style in points, and the weight it has by itself.
pub open spec fn style_of(f: Font) -> (Length, FontWeight) {
    match f {
        Font::LargeTitle => (Length::Whole(26), FontWeight::Regular),
        Font::Title => (Length::Whole(22), FontWeight::Regular),
        Font::Title2 => (Length::Whole(17), FontWeight::Regular),
        Font::Title3 => (Length::Whole(15), FontWeight::Regular),
        Font::Headline => (Length::Whole(13), FontWeight::Semibold),
        Font::Subheadline => (Length::Whole(11), FontWeight::Regular),
        Font::Body => (Length::Whole(13), FontWeight::Regular),
        Font::Callout => (Length::Whole(12), FontWeight::Regular),
        Font::Footnote => (Length::Whole(10), FontWeight::Regular),
        Font::Caption => (Length::Whole(10), FontWeight::Regular),
        Font::Caption2 => (Length::Whole(10), FontWeight::Regular),
        Font::System(pt) => (Length::Given(pt), FontWeight::Regular),
        Font::Custom(_, pt) => (Length::Given(pt), FontWeight::Regular),
    }
}

pub fn gtk_style(f: &Font) -> (r: (Length, FontWeight))
    ensures
        r == style_of(*f),
{
    match f {
        Font::LargeTitle => (Length::Whole(26), FontWeight::Regular),
        Font::Title => (Length::Whole(22), FontWeight::Regular),
        Font::Title2 => (Length::Whole(17), FontWeight::Regular),
        Font::Title3 => (Length::Whole(15), FontWeight::Regular),
        Font::Headline => (Length::Whole(13), FontWeight::Semibold),
        Font::Subheadline => (Length::Whole(11), FontWeight::Regular),
        Font::Body => (Length::Whole(13), FontWeight::Regular),
        Font::Callout => (Length::Whole(12), FontWeight::Regular),
        Font::Footnote => (Length::Whole(10), FontWeight::Regular),
        Font::Caption => (Length::Whole(10), FontWeight::Regular),
        Font::Caption2 => (Length::Whole(10), FontWeight::Regular),
        Font::System(pt) => (Length::Given(*pt), FontWeight::Regular),
        Font::Custom(_, pt) => (Length::Given(*pt), FontWeight::Regular),
    }
}

/// A weight as Pango numbers it.
pub open spec fn weight_number(w: FontWeight) -> u32 {
    match w {
        FontWeight::UltraLight => 200,
        FontWeight::Thin => 100,
        FontWeight::Light => 300,
        FontWeight::Regular => 400,
        FontWeight::Medium => 500,
        FontWeight::Semibold => 600,
        FontWeight::Bold => 700,
        FontWeight::Heavy => 900,
        FontWeight::Black => 1000,
    }
}

pub fn pango_weight(w: FontWeight) -> (n: u32)
    ensures
        n == weight_number(w),
{
    match w {
        FontWeight::UltraLight => 200,
        FontWeight::Thin => 100,
        FontWeight::Light => 300,
        FontWeight::Regular => 400,
        FontWeight::Medium => 500,
        FontWeight::Semibold => 600,
        FontWeight::Bold => 700,
        FontWeight::Heavy => 900,
        FontWeight::Black => 1000,
    }
}

/// A color's components as attributes and markup take them.
#[derive(Clone, Copy, Debug, PartialEq, Eq)]
pub struct Tone {
    pub r: u8,
    pub g: u8,
    pub b: u8,
    pub fine_r: u16,
    pub fine_g: u16,
    pub fine_b: u16,
    /// The alpha, where it is below one: cut, and rounded.
    pub alpha: Option<(u16, u16)>,
}

/// The bit pattern of one.
pub const ONE: u64 = 0x3ff0_0000_0000_0000;

/// Whether a number is below one.
pub open spec fn below_one(n: Num) -> bool {
    !n.not_a_number() && (n.bits >= SIGN || n.bits < ONE)
}

pub open spec fn tone_of(c: Color) -> Tone {
    Tone {
        r: c.r.near,
        g: c.g.near,
        b: c.b.near,
        fine_r: c.r.fine,
        fine_g: c.g.fine,
        fine_b: c.b.fine,
        alpha: if below_one(c.a.num) {
            Some((c.a.fine_cut, c.a.fine))
        } else {
            None
        },
    }
}

pub fn tone(c: &Color) -> (t: Tone)
    ensures
        t == tone_of(*c),
{
    let n = c.a.num;
    let below: bool = if n.bits >= SIGN {
        n.bits - SIGN <= crate::num::INFINITY
    } else {
        n.bits < ONE
    };
    Tone {
        r: c.r.near,
        g: c.g.near,
        b: c.b.near,
        fine_r: c.r.fine,
        fine_g: c.g.fine,
        fine_b: c.b.fine,
        alpha: if below {
            Some((c.a.fine_cut, c.a.fine))
        } else {
            None
        },
    }
}

/// A label's base font: its family where it names one, its size in 1024ths of a point, its
/// weight.
pub struct Base {
    pub family: Option<String>,
    pub size: i32,
    pub weight: u32,
    pub italic: bool,
    pub tabular: bool,
}

#[verifier::ext_equal]
pub ghost struct BaseView {
    pub family: Option<Seq<char>>,
    pub size: i32,
    pub weight: u32,
    pub italic: bool,
    pub tabular: bool,
}

impl View for Base {
    type V = BaseView;

    open spec fn view(&self) -> BaseView {
        BaseView {
            family: match self.family {
                Some(f) => Some(f@),
                None => None,
            },
            size: self.size,
            weight: self.weight,
            italic: self.italic,
            tabular: self.tabular,
        }
    }
}

/// A font's size in 1024ths of a point.
pub open spec fn size_units(f: FontSpec) -> i32 {
    match style_of(f.style).0 {
        Length::Whole(n) => (n * 1024) as i32,
        Length::Given(_) => f.units,
    }
}

/// A font as a label's base.
pub open spec fn base_of(f: FontSpec) -> BaseView {
    BaseView {
        family: match f.style {
            Font::Custom(family, _) => Some(family@),
            _ => None,
        },
        size: size_units(f),
        weight: weight_number(
            match f.weight {
                Some(w) => w,
                None => style_of(f.style).1,
            },
        ),
        italic: f.italic,
        tabular: f.tabular,
    }
}

pub fn base(f: &FontSpec) -> (b: Base)
    ensures
        b@ == base_of(*f),
{
    let (length, inherent) = gtk_style(&f.style);
    let family: Option<String> = match &f.style {
        Font::Custom(family, _) => Some(owned(family.as_str())),
        _ => None,
    };
    let size: i32 = match length {
        Length::Whole(n) => (n * 1024) as i32,
        Length::Given(_) => f.units,
    };
    let weight = match f.weight {
        Some(w) => w,
        None => inherent,
    };
    Base { family, size, weight: pango_weight(weight), italic: f.italic, tabular: f.tabular }
}

// ---- markup ------------------------------------------------------------------------------------

/// A byte in two digits.
pub open spec fn hex_byte(b: u8) -> Seq<char> {
    seq![hex_digit((b / 16) as nat), hex_digit((b % 16) as nat)]
}

/// Three bytes in six digits.
pub open spec fn hex_color(r: u8, g: u8, b: u8) -> Seq<char> {
    hex_byte(r) + hex_byte(g) + hex_byte(b)
}

/// Writes three bytes in six digits.
pub fn push_hex_color(s: &mut String, r: u8, g: u8, b: u8)
    ensures
        final(s)@ == old(s)@ + hex_color(r, g, b),
{
    s.push(hex_char((r / 16) as u32));
    s.push(hex_char((r % 16) as u32));
    s.push(hex_char((g / 16) as u32));
    s.push(hex_char((g % 16) as u32));
    s.push(hex_char((b / 16) as u32));
    s.push(hex_char((b % 16) as u32));
    proof {
        assert(s@ =~= old(s)@ + hex_color(r, g, b));
    }
}

/// The family a span names.
pub open spec fn family_field(family: Option<Seq<char>>) -> Seq<char> {
    match family {
        Some(f) => " font_family=\""@ + f + "\""@,
        None => Seq::empty(),
    }
}

/// The color a span names, and its alpha where that is below one.
pub open spec fn color_field(t: Option<Tone>) -> Seq<char> {
    match t {
        Some(t) => " foreground=\"#"@ + hex_color(t.r, t.g, t.b) + "\""@ + (match t.alpha {
            Some((cut, _)) => " alpha=\""@ + decimal(cut as nat) + "\""@,
            None => Seq::empty(),
        }),
        None => Seq::empty(),
    }
}

/// A label's base font and color as the span around the markup of its runs.
pub open spec fn span(b: BaseView, t: Option<Tone>) -> Seq<char> {
    "<span"@ + family_field(b.family) + " size=\""@ + signed_decimal(b.size as int) + "\""@
        + " weight=\""@ + decimal(b.weight as nat) + "\""@ + (if b.italic {
        " style=\"italic\""@
    } else {
        ""@
    }) + (if b.tabular {
        " font_features=\"tnum 1\""@
    } else {
        ""@
    }) + color_field(t) + ">"@
}

fn family_text(family: &Option<String>) -> (s: String)
    ensures
        s@ == family_field(
            (match family {
                Some(f) => Some(f@),
                None => None,
            }),
        ),
{
    match family {
        Some(f) => crate::text::cat3(" font_family=\"", f.as_str(), "\""),
        None => String::new(),
    }
}

fn color_text(t: Option<Tone>) -> (s: String)
    ensures
        s@ == color_field(t),
{
    match t {
        Some(t) => {
            let mut s = owned(" foreground=\"#");
            push_hex_color(&mut s, t.r, t.g, t.b);
            s.append("\"");
            let mut a = String::new();
            match t.alpha {
                Some((cut, _)) => {
                    a = owned(" alpha=\"");
                    push_decimal(&mut a, cut as u64);
                    a.append("\"");
                },
                None => {},
            }
            s.append(a.as_str());
            s
        },
        None => String::new(),
    }
}

pub fn base_span(b: &Base, t: Option<Tone>) -> (s: String)
    ensures
        s@ == span(b@, t),
{
    let mut s = owned("<span");
    s.append(family_text(&b.family).as_str());
    s.append(" size=\"");
    push_signed(&mut s, b.size as i64);
    s.append("\"");
    s.append(" weight=\"");
    push_decimal(&mut s, b.weight as u64);
    s.append("\"");
    s.append(
        if b.italic {
            " style=\"italic\""
        } else {
            ""
        },
    );
    s.append(
        if b.tabular {
            " font_features=\"tnum 1\""
        } else {
            ""
        },
    );
    s.append(color_text(t).as_str());
    s.append(">");
    s
}

/// The markup of a label with styled runs: its base as a span around the markup of the runs.
pub fn rich_markup(b: &Base, t: Option<Tone>, runs: &str) -> (s: String)
    ensures
        s@ == span(b@, t) + runs@ + "</span>"@,
{
    let mut s = base_span(b, t);
    s.append(runs);
    s.append("</span>");
    s
}

// ---- what a label remembers --------------------------------------------------------------------

/// A label's style: its base font and color, and, where it has styled runs, its text and runs.
pub struct LabelStyle {
    pub base: Base,
    pub tone: Option<Tone>,
    pub rich: Option<(String, Vec<TextRun>)>,
}

#[verifier::ext_equal]
pub ghost struct LabelView {
    pub base: BaseView,
    pub tone: Option<Tone>,
    pub rich: Option<(Seq<char>, Seq<TextRun>)>,
}

impl View for LabelStyle {
    type V = LabelView;

    open spec fn view(&self) -> LabelView {
        LabelView {
            base: self.base@,
            tone: self.tone,
            rich: match self.rich {
                Some((text, runs)) => Some((text@, runs@)),
                None => None,
            },
        }
    }
}

/// The style of a label nothing is known of: the body font, no color, no runs.
pub open spec fn plain_label() -> LabelView {
    LabelView {
        base: BaseView {
            family: None,
            size: 13312,
            weight: 400,
            italic: false,
            tabular: false,
        },
        tone: None,
        rich: None,
    }
}

pub fn new_label() -> (l: LabelStyle)
    ensures
        l@ == plain_label(),
{
    LabelStyle {
        base: Base { family: None, size: 13312, weight: 400, italic: false, tabular: false },
        tone: None,
        rich: None,
    }
}

/// The alpha as an attribute takes it: never fully transparent, which would mean none given.
pub open spec fn attr_alpha(t: Tone) -> Option<u16> {
    match t.alpha {
        Some((_, fine)) => Some(
            if fine == 0 {
                1
            } else {
                fine
            },
        ),
        None => None,
    }
}

pub fn alpha_attr(t: Tone) -> (a: Option<u16>)
    ensures
        a == attr_alpha(t),
{
    match t.alpha {
        Some((_, fine)) => if fine == 0 {
            Some(1)
        } else {
            Some(fine)
        },
        None => None,
    }
}

} // verus!
