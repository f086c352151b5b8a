//! Labels: text with one look, or with styled runs.
use crate::gtk::act::{act, acts, Act, GtkAct, SpecAct};
use crate::gtk::menu::maybe;
use crate::gtk::state::{Gtk, GtkView};
use crate::gtk::text::{
    alpha_attr, attr_alpha, base, base_of, base_span, new_label, plain_label, span, tone, tone_of,
    LabelStyle, LabelView, Tone,
};
use crate::model::{Color, FontSpec};
use crate::pieces::LabelPatch;
use crate::table::entry;
use crate::text::owned;
use vstd::prelude::*;

verus! {

/// The look a label has, as far as anything is known of it.
pub open spec fn look_of(v: GtkView, w: u64) -> LabelView {
    match entry(v.labels, w) {
        Some(l) => l,
        None => plain_label(),
    }
}

/// The tone of a color, where there is one.
pub open spec fn tone_for(c: Option<Color>) -> Option<Tone> {
    match c {
        Some(c) => Some(tone_of(c)),
        None => None,
    }
}

/// The attributes of a label with one look.
pub open spec fn attrs_act(w: u64, l: LabelView) -> SpecAct {
    Act::Attrs {
        w,
        family: l.base.family,
        size: l.base.size,
        weight: l.base.weight,
        italic: l.base.italic,
        tabular: l.base.tabular,
        color: match l.tone {
            Some(t) => Some((t.fine_r, t.fine_g, t.fine_b)),
            None => None,
        },
        alpha: match l.tone {
            Some(t) => attr_alpha(t),
            None => None,
        },
    }
}

/// The calls that give a label its look. Attributes would override styled runs, so a label has
/// either the one or the other.
pub open spec fn look_acts(w: u64, l: LabelView) -> Seq<SpecAct> {
    match l.rich {
        Some(_) => seq![Act::NoAttrs { w }, Act::Rich { w, open: span(l.base, l.tone) }],
        None => seq![attrs_act(w, l)],
    }
}

/// The look of a label after a change.
pub open spec fn look_changed(l: LabelView, patch: LabelPatch) -> LabelView {
    match patch {
        LabelPatch::Text(_) => l,
        LabelPatch::Font(f) => LabelView { base: base_of(f), ..l },
        LabelPatch::Color(c) => LabelView { tone: tone_for(c), ..l },
        LabelPatch::Runs(text, runs) => LabelView {
            rich: if runs@.len() > 0 {
                Some((text@, runs@))
            } else {
                None
            },
            ..l
        },
    }
}

/// The memory after a change to a label.
pub open spec fn label_updated(v: GtkView, w: u64, patch: LabelPatch) -> GtkView {
    match patch {
        LabelPatch::Text(_) => v,
        _ => GtkView { labels: v.labels.insert(w, look_changed(look_of(v, w), patch)), ..v },
    }
}

/// The calls for a change to a label.
pub open spec fn label_acts(v: GtkView, w: u64, patch: LabelPatch) -> Seq<SpecAct> {
    let looks = look_acts(w, look_changed(look_of(v, w), patch));
    match patch {
        LabelPatch::Text(t) => seq![Act::Text { w, text: t@ }],
        LabelPatch::Runs(t, runs) => if runs@.len() > 0 {
            looks
        } else {
            let plain: Seq<SpecAct> = seq![Act::Text { w, text: t@ }];
            plain + looks
        },
        _ => looks,
    }
}

/// A change to one part of a label's look leaves the other parts as they are.
pub proof fn a_change_keeps_the_other_parts(l: LabelView, f: FontSpec, c: Option<Color>)
    ensures
        look_changed(l, LabelPatch::Font(f)).tone == l.tone,
        look_changed(l, LabelPatch::Font(f)).rich == l.rich,
        look_changed(l, LabelPatch::Color(c)).base == l.base,
        look_changed(l, LabelPatch::Color(c)).rich == l.rich,
        look_changed(look_changed(l, LabelPatch::Font(f)), LabelPatch::Color(c)) == look_changed(
            look_changed(l, LabelPatch::Color(c)),
            LabelPatch::Font(f),
        ),
{
}

/// A label with styled runs never has attributes that would override them.
pub proof fn runs_are_not_overridden(w: u64, l: LabelView, i: int)
    requires
        l.rich is Some,
        0 <= i < look_acts(w, l).len(),
    ensures
        !(look_acts(w, l)[i] is Attrs),
{
}

fn copy_family(f: &Option<String>) -> (r: Option<String>)
    ensures
        maybe(r) == maybe(*f),
{
    match f {
        Some(s) => Some(owned(s.as_str())),
        None => None,
    }
}

fn show_look(out: &mut Vec<GtkAct>, w: u64, l: &LabelStyle)
    ensures
        acts(final(out)@) == acts(old(out)@) + look_acts(w, l@),
{
    let ghost start = acts(out@);
    if l.rich.is_some() {
        act(out, Act::NoAttrs { w });
        act(out, Act::Rich { w, open: base_span(&l.base, l.tone) });
    } else {
        let color: Option<(u16, u16, u16)> = match l.tone {
            Some(t) => Some((t.fine_r, t.fine_g, t.fine_b)),
            None => None,
        };
        let alpha: Option<u16> = match l.tone {
            Some(t) => alpha_attr(t),
            None => None,
        };
        act(
            out,
            Act::Attrs {
                w,
                family: copy_family(&l.base.family),
                size: l.base.size,
                weight: l.base.weight,
                italic: l.base.italic,
                tabular: l.base.tabular,
                color,
                alpha,
            },
        );
    }
    proof {
        assert(acts(out@) =~= start + look_acts(w, l@));
    }
}

impl Gtk {
    fn take_look(&mut self, w: u64) -> (l: LabelStyle)
        ensures
            l@ == look_of(old(self)@, w),
            final(self)@ == (GtkView { labels: old(self)@.labels.remove(w), ..old(self)@ }),
    {
        let ghost v = self@;
        let l = match self.labels.take(w) {
            Some(l) => l,
            None => new_label(),
        };
        proof {
            assert(self@ =~= GtkView { labels: v.labels.remove(w), ..v });
        }
        l
    }

    /// Gives a label its font and its color.
    pub fn style_label(
        &mut self,
        out: &mut Vec<GtkAct>,
        w: u64,
        font: &FontSpec,
        color: &Option<Color>,
    )
        ensures
            ({
                let l = LabelView {
                    base: base_of(*font),
                    tone: tone_for(*color),
                    ..look_of(old(self)@, w)
                };
                &&& final(self)@ == (GtkView {
                    labels: old(self)@.labels.insert(w, l),
                    ..old(self)@
                })
                &&& acts(final(out)@) == acts(old(out)@) + look_acts(w, l)
            }),
    {
        let ghost v = self@;
        let mut l = self.take_look(w);
        l.base = base(font);
        l.tone = match color {
            Some(c) => Some(tone(c)),
            None => None,
        };
        let ghost look = LabelView {
            base: base_of(*font),
            tone: tone_for(*color),
            ..look_of(v, w)
        };
        proof {
            assert(l@ =~= look);
        }
        show_look(out, w, &l);
        self.labels.put(w, l);
        proof {
            assert(self@ =~= GtkView { labels: v.labels.insert(w, look), ..v });
        }
    }

    /// Changes a label.
    pub fn update_label(&mut self, out: &mut Vec<GtkAct>, w: u64, patch: LabelPatch)
        ensures
            final(self)@ == label_updated(old(self)@, w, patch),
            acts(final(out)@) == acts(old(out)@) + label_acts(old(self)@, w, patch),
    {
        let ghost v = self@;
        let ghost start = acts(out@);
        let ghost p = patch;
        match patch {
            LabelPatch::Text(t) => {
                act(out, Act::Text { w, text: t });
                proof {
                    assert(acts(out@) =~= start + label_acts(v, w, p));
                }
            },
            LabelPatch::Font(f) => {
                let mut l = self.take_look(w);
                l.base = base(&f);
                proof {
                    assert(l@ =~= look_changed(look_of(v, w), p));
                }
                show_look(out, w, &l);
                self.labels.put(w, l);
            },
            LabelPatch::Color(c) => {
                let mut l = self.take_look(w);
                l.tone = match &c {
                    Some(c) => Some(tone(c)),
                    None => None,
                };
                proof {
                    assert(l@ =~= look_changed(look_of(v, w), p));
                }
                show_look(out, w, &l);
                self.labels.put(w, l);
            },
            LabelPatch::Runs(text, runs) => {
                let mut l = self.take_look(w);
                if runs.len() > 0 {
                    l.rich = Some((text, runs));
                } else {
                    l.rich = None;
                    act(out, Act::Text { w, text });
                }
                proof {
                    assert(l@ =~= look_changed(look_of(v, w), p));
                }
                show_look(out, w, &l);
                self.labels.put(w, l);
                proof {
                    assert(acts(out@) =~= start + label_acts(v, w, p));
                }
            },
        }
        proof {
            assert(self@ =~= label_updated(v, w, p));
        }
    }
}

} // verus!
