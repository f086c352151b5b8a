//! Style sheets: button tints, surfaces, and the rules that are installed once.
use crate::gtk::act::{act, acts, Act, GtkAct, SpecAct};
use crate::gtk::state::{Gtk, GtkView};
use crate::gtk::text::{hex_byte, push_hex_color};
use crate::model::{texts, ButtonStyle, Color, Real};
use crate::text::{cat2, chars_of, decimal, owned, push_decimal, same};
use vstd::prelude::*;

verus! {

// ---- buttons -----------------------------------------------------------------------------------

/// Whether a text starts with another.
pub open spec fn starts(s: Seq<char>, prefix: Seq<char>) -> bool {
    prefix.len() <= s.len() && s.subrange(0, prefix.len() as int) == prefix
}

fn starts_with(s: &str, prefix: &str) -> (b: bool)
    ensures
        b == starts(s@, prefix@),
{
    let p = chars_of(prefix);
    let v = chars_of(s);
    if p.len() > v.len() {
        return false;
    }
    let mut i: usize = 0;
    while i < p.len()
        invariant
            i <= p.len() <= v.len(),
            p@ == prefix@,
            v@ == s@,
            forall|k: int| 0 <= k < i ==> s@[k] == prefix@[k],
        decreases p.len() - i,
    {
        if v[i] != p[i] {
            assert(s@.subrange(0, prefix@.len() as int)[i as int] != prefix@[i as int]);
            return false;
        }
        i = i + 1;
    }
    proof {
        assert(s@.subrange(0, prefix@.len() as int) =~= prefix@);
    }
    true
}

/// The six hex digits of a color.
pub open spec fn color_key(c: Color) -> Seq<char> {
    hex_byte(c.r.cut) + hex_byte(c.g.cut) + hex_byte(c.b.cut)
}

/// A color as a number: one per key.
pub open spec fn color_number(c: Color) -> u64 {
    (c.r.cut * 65536 + c.g.cut * 256 + c.b.cut) as u64
}

/// The rule for a tint: the fill, and the color that reads on it.
pub open spec fn tint_rule(key: Seq<char>, on: Seq<char>) -> Seq<char> {
    "button.day-tint-"@ + key + " { background-image: image(#"@ + key + "); color: #"@ + on
        + "; }"@
}

/// Colors have the same number where they have the same key.
pub proof fn a_number_is_a_key(a: Color, b: Color)
    ensures
        color_number(a) == color_number(b) ==> color_key(a) == color_key(b),
{
}

/// The tint classes among the first `n` classes, taken off.
pub open spec fn tints_off(w: u64, classes: Seq<Seq<char>>, n: int) -> Seq<SpecAct>
    decreases n,
{
    if n <= 0 {
        Seq::empty()
    } else if starts(classes[n - 1], "day-tint-"@) {
        tints_off(w, classes, n - 1).push(Act::RemoveClass { w, class: classes[n - 1] })
    } else {
        tints_off(w, classes, n - 1)
    }
}

/// The memory after a button was styled: a tint's rule is there, where there is a display.
pub open spec fn styled(v: GtkView, style: ButtonStyle, display: bool) -> GtkView {
    match style {
        ButtonStyle::Tinted(c, _) => if display {
            GtkView { tints: v.tints.insert(color_number(c)), ..v }
        } else {
            v
        },
        _ => v,
    }
}

/// The calls that give a button its style, given the classes it has.
pub open spec fn style_acts(
    v: GtkView,
    w: u64,
    style: ButtonStyle,
    classes: Seq<Seq<char>>,
    display: bool,
) -> Seq<SpecAct> {
    let base: Seq<SpecAct> = seq![Act::RemoveClass { w, class: "suggested-action"@ }];
    let cleared = base + tints_off(w, classes, classes.len() as int);
    match style {
        ButtonStyle::Prominent => cleared.push(Act::AddClass { w, class: "suggested-action"@ }),
        ButtonStyle::Tinted(c, on) => {
            let rule: Seq<SpecAct> = if display && !v.tints.contains(color_number(c)) {
                seq![Act::Css { css: tint_rule(color_key(c), color_key(on)) }]
            } else {
                Seq::empty()
            };
            (cleared + rule).push(Act::AddClass { w, class: "day-tint-"@ + color_key(c) })
        },
        _ => cleared,
    }
}

/// A tint's rule is installed once, whatever buttons take it.
pub proof fn a_tint_is_installed_once(
    v: GtkView,
    w: u64,
    c: Color,
    on: Color,
    classes: Seq<Seq<char>>,
    display: bool,
    i: int,
)
    requires
        display,
        0 <= i < style_acts(
            styled(v, ButtonStyle::Tinted(c, on), display),
            w,
            ButtonStyle::Tinted(c, on),
            classes,
            display,
        ).len(),
    ensures
        !(style_acts(
            styled(v, ButtonStyle::Tinted(c, on), display),
            w,
            ButtonStyle::Tinted(c, on),
            classes,
            display,
        )[i] is Css),
{
    no_rules_in_tints_off(w, classes, classes.len() as int);
}

proof fn no_rules_in_tints_off(w: u64, classes: Seq<Seq<char>>, n: int)
    ensures
        forall|i: int|
            0 <= i < tints_off(w, classes, n).len() ==> (#[trigger] tints_off(
                w,
                classes,
                n,
            )[i]) is RemoveClass,
    decreases n,
{
    if n > 0 {
        no_rules_in_tints_off(w, classes, n - 1);
        assert forall|i: int| 0 <= i < tints_off(w, classes, n).len() implies (
        #[trigger] tints_off(w, classes, n)[i]) is RemoveClass by {
            if i < tints_off(w, classes, n - 1).len() {
                assert(tints_off(w, classes, n - 1)[i] is RemoveClass);
            }
        }
    }
}

fn key_text(c: &Color) -> (s: String)
    ensures
        s@ == color_key(*c),
{
    let mut s = owned("");
    proof {
        reveal_strlit("");
    }
    push_hex_color(&mut s, c.r.cut, c.g.cut, c.b.cut);
    proof {
        assert(s@ =~= color_key(*c));
    }
    s
}

impl Gtk {
    /// Gives a button its style. `classes` are the classes it has, `display` is whether there is a
    /// display to install a rule on.
    pub fn apply_button_style(
        &mut self,
        out: &mut Vec<GtkAct>,
        w: u64,
        style: &ButtonStyle,
        classes: &Vec<String>,
        display: bool,
    )
        ensures
            final(self)@ == styled(old(self)@, *style, display),
            acts(final(out)@) == acts(old(out)@) + style_acts(
                old(self)@,
                w,
                *style,
                texts(classes@),
                display,
            ),
    {
        let ghost start = acts(out@);
        let ghost v = self@;
        let ghost cs = texts(classes@);
        act(out, Act::RemoveClass { w, class: owned("suggested-action") });
        let ghost base: Seq<SpecAct> = seq![
            Act::RemoveClass { w, class: "suggested-action"@ },
        ];
        proof {
            assert(acts(out@) =~= start + (base + tints_off(w, cs, 0)));
        }
        let mut i: usize = 0;
        while i < classes.len()
            invariant
                i <= classes.len(),
                cs == texts(classes@),
                acts(out@) == start + (base + tints_off(w, cs, i as int)),
            decreases classes.len() - i,
        {
            if starts_with(classes[i].as_str(), "day-tint-") {
                act(out, Act::RemoveClass { w, class: owned(classes[i].as_str()) });
            }
            proof {
                assert(acts(out@) =~= start + (base + tints_off(w, cs, i + 1)));
            }
            i = i + 1;
        }
        match style {
            ButtonStyle::Prominent => act(
                out,
                Act::AddClass { w, class: owned("suggested-action") },
            ),
            ButtonStyle::Tinted(c, on) => {
                let key = key_text(c);
                let number: u64 = (c.r.cut as u64) * 65536 + (c.g.cut as u64) * 256 + (
                c.b.cut as u64);
                if display {
                    if self.tints.put(number) {
                        let mut rule = cat2("button.day-tint-", key.as_str());
                        rule.append(" { background-image: image(#");
                        rule.append(key.as_str());
                        rule.append("); color: #");
                        let above = key_text(on);
                        rule.append(above.as_str());
                        rule.append("; }");
                        act(out, Act::Css { css: rule });
                    }
                }
                act(out, Act::AddClass { w, class: cat2("day-tint-", key.as_str()) });
            },
            _ => {},
        }
        proof {
            assert(self@ =~= styled(v, *style, display));
            assert(acts(out@) =~= start + style_acts(v, w, *style, cs, display));
        }
    }
}

// ---- surfaces ----------------------------------------------------------------------------------

/// The class of a widget with a style sheet of its own.
pub open spec fn surface_class(w: u64) -> Seq<char> {
    "day-surface-"@ + decimal(w as nat)
}

/// The declarations of a surface: its background, and its corners.
pub open spec fn surface_body(bg: Option<Color>, radius: Option<Seq<char>>) -> Seq<char> {
    let fill = match bg {
        Some(c) => "background-color: rgba("@ + decimal(c.r.near as nat) + ","@ + decimal(
            c.g.near as nat,
        ) + ","@ + decimal(c.b.near as nat) + ","@ + c.alpha@ + ");"@,
        None => Seq::empty(),
    };
    let corners = match radius {
        Some(r) => "border-radius: "@ + r + "px;"@,
        None => Seq::empty(),
    };
    fill + corners
}

/// The text of a radius that rounds anything.
pub open spec fn rounding(r: Option<Real>) -> Option<Seq<char>> {
    match r {
        Some(r) => if r.num.positive() {
            Some(r.text@)
        } else {
            None
        },
        None => None,
    }
}

/// The memory after a widget got a surface.
pub open spec fn surfaced(v: GtkView, w: u64) -> GtkView {
    GtkView { surfaces: v.surfaces.insert(w), ..v }
}

/// The calls that give a widget a surface: a style sheet of its own the first time, then its rule
/// anew.
pub open spec fn surface_acts(
    v: GtkView,
    w: u64,
    bg: Option<Color>,
    radius: Option<Seq<char>>,
    clips: bool,
) -> Seq<SpecAct> {
    let fresh: Seq<SpecAct> = if v.surfaces.contains(w) {
        Seq::empty()
    } else {
        seq![Act::NewSurface { w }, Act::AddClass { w, class: surface_class(w) }]
    };
    let rule = fresh.push(
        Act::SurfaceCss {
            w,
            css: "."@ + surface_class(w) + " { "@ + surface_body(bg, radius) + " }"@,
        },
    );
    if clips || radius is Some {
        rule.push(Act::Clip { w })
    } else {
        rule
    }
}

/// Painting a surface again reuses its style sheet: only the rule is written.
pub proof fn a_surface_is_painted_in_place(v: GtkView, w: u64, bg: Option<Color>)
    ensures
        surface_acts(surfaced(v, w), w, bg, None, false).len() == 1,
        surface_acts(surfaced(v, w), w, bg, None, false)[0] is SurfaceCss,
{
}

fn surface_class_of(w: u64) -> (s: String)
    ensures
        s@ == surface_class(w),
{
    let mut s = owned("day-surface-");
    push_decimal(&mut s, w);
    s
}

fn surface_body_of(bg: &Option<Color>, radius: Option<&str>) -> (s: String)
    ensures
        s@ == surface_body(
            *bg,
            match radius {
                Some(r) => Some(r@),
                None => None,
            },
        ),
{
    let mut s = owned("");
    proof {
        reveal_strlit("");
    }
    match bg {
        Some(c) => {
            s.append("background-color: rgba(");
            push_decimal(&mut s, c.r.near as u64);
            s.append(",");
            push_decimal(&mut s, c.g.near as u64);
            s.append(",");
            push_decimal(&mut s, c.b.near as u64);
            s.append(",");
            s.append(c.alpha.as_str());
            s.append(");");
        },
        None => {},
    }
    match radius {
        Some(r) => {
            s.append("border-radius: ");
            s.append(r);
            s.append("px;");
        },
        None => {},
    }
    proof {
        assert(s@ =~= surface_body(
            *bg,
            match radius {
                Some(r) => Some(r@),
                None => None,
            },
        ));
    }
    s
}

impl Gtk {
    /// Gives a widget a surface.
    pub fn apply_surface(
        &mut self,
        out: &mut Vec<GtkAct>,
        w: u64,
        bg: &Option<Color>,
        radius: Option<&Real>,
        clips: bool,
    )
        ensures
            final(self)@ == surfaced(old(self)@, w),
            acts(final(out)@) == acts(old(out)@) + surface_acts(
                old(self)@,
                w,
                *bg,
                rounding(
                    match radius {
                        Some(r) => Some(*r),
                        None => None,
                    },
                ),
                clips,
            ),
    {
        let ghost start = acts(out@);
        let ghost v = self@;
        let class = surface_class_of(w);
        if self.surfaces.put(w) {
            act(out, Act::NewSurface { w });
            act(out, Act::AddClass { w, class: owned(class.as_str()) });
        }
        let r: Option<&str> = match radius {
            Some(r) => if r.num.is_positive() {
                Some(r.text.as_str())
            } else {
                None
            },
            None => None,
        };
        let body = surface_body_of(bg, r);
        let mut css = cat2(".", class.as_str());
        css.append(" { ");
        css.append(body.as_str());
        css.append(" }");
        act(out, Act::SurfaceCss { w, css });
        if clips || r.is_some() {
            act(out, Act::Clip { w });
        }
        proof {
            let ro = match radius {
                Some(r) => Some(*r),
                None => None,
            };
            assert(self@ =~= surfaced(v, w));
            assert(acts(out@) =~= start + surface_acts(v, w, *bg, rounding(ro), clips));
        }
    }
}

// ---- rules that are installed once -------------------------------------------------------------

/// The rule that lets what lies behind a scroller show through.
pub open spec fn scroll_rule() -> Seq<char> {
    "scrolledwindow.day-scroll, scrolledwindow.day-scroll > viewport { background: none; }"@
}

/// The rule that draws lines between rows.
pub open spec fn separator_rule() -> Seq<char> {
    "listview.day-separators > row { border-bottom: 1px solid alpha(currentColor, 0.18); }"@
}

impl Gtk {
    /// Installs the scrollers' rule, the first time.
    pub fn scroll_transparent_css(&mut self, out: &mut Vec<GtkAct>)
        ensures
            final(self)@ == (GtkView { scroll_css: true, ..old(self)@ }),
            acts(final(out)@) == acts(old(out)@) + (if old(self)@.scroll_css {
                Seq::<SpecAct>::empty()
            } else {
                seq![Act::Css { css: scroll_rule() }]
            }),
    {
        let ghost start = acts(out@);
        let ghost v = self@;
        if !self.scroll_css {
            self.scroll_css = true;
            act(
                out,
                Act::Css {
                    css: owned(
                        "scrolledwindow.day-scroll, scrolledwindow.day-scroll > viewport { background: none; }",
                    ),
                },
            );
        }
        proof {
            assert(self@ =~= GtkView { scroll_css: true, ..v });
            assert(acts(out@) =~= start + (if v.scroll_css {
                Seq::<SpecAct>::empty()
            } else {
                seq![Act::Css { css: scroll_rule() }]
            }));
        }
    }

    /// Installs the separators' rule, the first time there is a display.
    pub fn separator_lines_css(&mut self, out: &mut Vec<GtkAct>, display: bool)
        ensures
            final(self)@ == (GtkView {
                separator_css: old(self)@.separator_css || display,
                ..old(self)@
            }),
            acts(final(out)@) == acts(old(out)@) + (if !old(self)@.separator_css && display {
                seq![Act::Css { css: separator_rule() }]
            } else {
                Seq::<SpecAct>::empty()
            }),
    {
        let ghost start = acts(out@);
        let ghost v = self@;
        if !self.separator_css && display {
            self.separator_css = true;
            act(
                out,
                Act::Css {
                    css: owned(
                        "listview.day-separators > row { border-bottom: 1px solid alpha(currentColor, 0.18); }",
                    ),
                },
            );
        }
        proof {
            assert(self@ =~= GtkView { separator_css: v.separator_css || display, ..v });
            assert(acts(out@) =~= start + (if !v.separator_css && display {
                seq![Act::Css { css: separator_rule() }]
            } else {
                Seq::<SpecAct>::empty()
            }));
        }
    }
}

} // verus!
