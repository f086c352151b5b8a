//! Changing a realized piece.
use crate::dom::act::{
    act, act_all, acts, attr, class, emit, style, text, Act, DomAct, El, SpecAct, LAST,
};
use crate::dom::css::{color_css, rgba, transition, transition_css};
use crate::dom::image::image_source;
use crate::dom::list::{app_selected, selection_paint};
use crate::dom::looks::{
    apply_button_style, apply_font, apply_image_tint, button_acts, enabled_act, fit_css, fit_word,
    font_acts, label_acts, mark, set_enabled, set_label_text, tint_acts, truth, truth_word,
};
use crate::dom::nav::{patch_acts, patched};
use crate::dom::realize::{content_lines, lines, recorded};
use crate::dom::specs::{navmenu, navmenu_json, picker, picker_json};
use crate::dom::state::{sound_list, Dom, DomView};
use crate::model::{AnimSpec, Color, ContentMode, Event, Target};
use crate::num::Num;
use crate::pieces::{
    ButtonPatch, CoverPatch, ImageProps, LabelPatch, ListPatch, NavMenuPatch, Patch, PickerPatch,
    Piece, SliderPatch, TextAreaPatch, TextFieldPatch, TogglePatch,
};
use crate::rows::gathered;
use vstd::prelude::*;

verus! {

/// A background patch: the transition first, then the color.
pub open spec fn background_acts(el: u32, c: Option<Color>, anim: Option<AnimSpec>) -> Seq<SpecAct> {
    seq![
        Act::Style(El::Own(el), "transition"@, transition("background-color"@, anim)),
        Act::Style(
            El::Own(el),
            "background-color"@,
            match c {
                Some(c) => rgba(c),
                None => "transparent"@,
            },
        ),
    ]
}

pub open spec fn label_patch_acts(el: u32, p: LabelPatch) -> Seq<SpecAct> {
    match p {
        LabelPatch::Text(t) => seq![Act::Text(El::Own(el), t@)],
        LabelPatch::Runs(t, runs) => label_acts(el, t@, runs@),
        LabelPatch::Color(c) => seq![
            Act::Style(
                El::Own(el),
                "color"@,
                match c {
                    Some(c) => rgba(c),
                    None => ""@,
                },
            ),
        ],
        LabelPatch::Font(f) => font_acts(El::Own(el), f),
    }
}

pub open spec fn area_patch_acts(el: u32, p: TextAreaPatch) -> Seq<SpecAct> {
    let own = El::Own(el);
    match p {
        TextAreaPatch::SetText(t) => seq![Act::Text(own, t@)],
        TextAreaPatch::SetEditable(e) => seq![Act::Attr(own, "readonly"@, mark(!e))],
        TextAreaPatch::SetSelectable(b) => seq![
            Act::Style(
                own,
                "user-select"@,
                if b {
                    "text"@
                } else {
                    "none"@
                },
            ),
        ],
        TextAreaPatch::SetSpellCheck(b) => seq![Act::Attr(own, "spellcheck"@, truth(b))],
    }
}

/// The selected option kept across a change of options: the last one set, inside the new list.
pub open spec fn kept_option(kept: Option<usize>, n: nat) -> usize {
    let k = match kept {
        Some(i) => i,
        None => 0,
    };
    let top = crate::dom::nav::less_one(n as int);
    if k < top {
        k
    } else {
        top
    }
}

/// What is remembered at a place of a table.
pub open spec fn known<T>(m: Map<u64, T>, el: u32) -> Option<T> {
    if m.contains_key(el as u64) {
        Some(m[el as u64])
    } else {
        None
    }
}

pub open spec fn picker_patch_acts(v: DomView, el: u32, p: PickerPatch) -> Seq<SpecAct> {
    match p {
        PickerPatch::Selected(i) => if v.seg_count.contains_key(el as u64) {
            seq![Act::OptionsSelect { el, index: i as u32 }]
        } else {
            seq![Act::Index(el, i)]
        },
        PickerPatch::Options(opts) => seq![
            Act::Options {
                el,
                json: picker(
                    opts@,
                    kept_option(known(v.picker_selected, el), opts@.len()),
                ),
            },
        ],
    }
}

/// A cover's patch. Presented, it goes to the top of the page and is told at once how much room
/// it has, which is the whole viewport.
pub open spec fn cover_patch_acts(v: DomView, el: u32, p: CoverPatch) -> Seq<SpecAct> {
    let own = El::Own(el);
    match p {
        CoverPatch::Present { background } => (match background {
            Some(c) => seq![Act::Style(own, "background-color"@, rgba(c))],
            None => Seq::<SpecAct>::empty(),
        }).push(Act::Insert { parent: 1, child: own, index: LAST }).push(
            Act::Class(own, "open"@, true),
        ) + (if v.nodes.contains_key(el as u64) && v.viewport.width.positive()
            && v.viewport.height.positive() {
            seq![
                Act::Emit {
                    to: Target::Node(v.nodes[el as u64]),
                    event: Event::FrameChanged(v.viewport),
                },
            ]
        } else {
            Seq::empty()
        }),
        CoverPatch::DismissDisabled(_) => Seq::empty(),
        CoverPatch::Dismiss => seq![Act::Class(own, "open"@, false)] + (if v.nodes.contains_key(
            el as u64,
        ) {
            seq![
                Act::Emit { to: Target::Node(v.nodes[el as u64]), event: Event::CoverHidden },
            ]
        } else {
            Seq::<SpecAct>::empty()
        }),
    }
}

pub open spec fn list_patch_acts(v: DomView, el: u32, p: ListPatch) -> Seq<SpecAct> {
    match p {
        ListPatch::Reload => seq![Act::PostPopulate(el)],
        ListPatch::Splice => seq![Act::PostPopulate(el)],
        ListPatch::RowSizeInvalidated(_) => Seq::empty(),
        ListPatch::ScrollToEnd => seq![Act::ScrollEdge { el, edge: 1, animated: true }],
        ListPatch::ScrollToRow(row) => seq![
            Act::ScrollToRow {
                el,
                row,
                pitch: if v.lists.contains_key(el as u64) {
                    v.lists[el as u64].pitch
                } else {
                    Num { bits: 0 }
                },
            },
        ],
        ListPatch::Selected(rows) => if v.lists.contains_key(el as u64) && gathered(rows@)
            != v.lists[el as u64].selected {
            selection_paint(app_selected(v.lists[el as u64], rows@))
        } else {
            Seq::empty()
        },
    }
}

/// How an image that was realized fills its box; one that fits where nothing is known of it.
pub open spec fn kept_fit(v: DomView, el: u32) -> ContentMode {
    match known(v.image_fit, el) {
        Some(m) => m,
        None => ContentMode::Fit,
    }
}

/// Everything that a patch tells the shim.
pub open spec fn update_acts(
    v: DomView,
    el: u32,
    p: Patch,
    anim: Option<AnimSpec>,
    vectors: Seq<String>,
) -> Seq<SpecAct> {
    let own = El::Own(el);
    match p {
        Patch::Tint(c) => if v.image_src.contains_key(el as u64) {
            tint_acts(el, v.image_src[el as u64], fit_word(kept_fit(v, el)), c)
        } else {
            Seq::empty()
        },
        Patch::Background(c) => background_acts(el, c, anim),
        Patch::Label(q) => label_patch_acts(el, q),
        Patch::Button(q) => match q {
            ButtonPatch::Title(t) => seq![Act::Text(own, t@)],
            ButtonPatch::Enabled(e) => seq![enabled_act(el, e)],
            ButtonPatch::Style(s) => button_acts(el, s),
        },
        Patch::Toggle(q) => match q {
            TogglePatch::On(on) => seq![Act::Checked(el, on)],
            TogglePatch::Enabled(e) => seq![enabled_act(el, e)],
        },
        Patch::Slider(q) => match q {
            SliderPatch::Value(n) => seq![Act::Value(el, n)],
            SliderPatch::Enabled(e) => seq![enabled_act(el, e)],
        },
        Patch::TextField(q) => match q {
            TextFieldPatch::Text { text: t, from_native } => if from_native {
                Seq::empty()
            } else {
                seq![Act::Attr(own, "value"@, t@)]
            },
            TextFieldPatch::Placeholder(t) => seq![Act::Attr(own, "placeholder"@, t@)],
            TextFieldPatch::Enabled(e) => seq![enabled_act(el, e)],
        },
        Patch::TextArea(q) => area_patch_acts(el, q),
        Patch::Picker(q) => picker_patch_acts(v, el, q),
        Patch::Progress(n) => match n {
            Some(n) => seq![Act::Value(el, n)],
            None => Seq::empty(),
        },
        Patch::Nav(q) => if v.navs.contains_key(el as u64) {
            patch_acts(el, v.navs[el as u64], q)
        } else {
            Seq::empty()
        },
        Patch::Cover(q) => cover_patch_acts(v, el, q),
        Patch::NavMenu(q) => match q {
            NavMenuPatch::Items { rows, selected } => seq![
                Act::NavMenu { el, json: navmenu(rows, selected, vectors) },
            ],
            NavMenuPatch::Selected(s) => seq![
                Act::NavMenuSelect {
                    el,
                    index: match s {
                        Some(i) => i as i32,
                        None => -1i32,
                    },
                },
            ],
        },
        Patch::List(q) => list_patch_acts(v, el, q),
    }
}

/// The memory after a patch.
pub open spec fn updated(v: DomView, el: u32, p: Patch) -> DomView {
    let k = el as u64;
    match p {
        Patch::Label(q) => if q is Color {
            v
        } else {
            DomView { measured: v.measured.remove(k), ..v }
        },
        Patch::TextArea(TextAreaPatch::SetText(t)) => if v.area_hints.contains_key(k) {
            DomView {
                area_hints: v.area_hints.insert(
                    k,
                    (v.area_hints[k].0, v.area_hints[k].1, lines(t@)),
                ),
                ..v
            }
        } else {
            v
        },
        Patch::Picker(PickerPatch::Selected(i)) => DomView {
            picker_selected: v.picker_selected.insert(k, i),
            ..v
        },
        Patch::Picker(PickerPatch::Options(opts)) => if v.seg_count.contains_key(k) {
            DomView { seg_count: v.seg_count.insert(k, opts.len()), ..v }
        } else {
            v
        },
        Patch::Nav(q) => if v.navs.contains_key(k) {
            DomView { navs: v.navs.insert(k, patched(v.navs[k], q)), ..v }
        } else {
            v
        },
        Patch::List(ListPatch::Selected(rows)) => if v.lists.contains_key(k) {
            DomView { lists: v.lists.insert(k, app_selected(v.lists[k], rows@)), ..v }
        } else {
            v
        },
        _ => v,
    }
}

/// A new tint changes an image's color and nothing else of it: the calls are those that would
/// have realized the image with that tint, at the scale it has.
pub proof fn a_tint_keeps_the_scale(
    v: DomView,
    el: u32,
    inner: u32,
    q: ImageProps,
    id: u64,
    c: Option<Color>,
    anim: Option<AnimSpec>,
    vectors: Seq<String>,
)
    ensures
        update_acts(
            recorded(v, el, inner, Piece::Image(q), id, vectors).remembered(el, id),
            el,
            Patch::Tint(c),
            anim,
            vectors,
        ) == tint_acts(el, image_source(q.source@, vectors), fit_word(q.content_mode), c),
{
}

/// A picker's selection stays inside its options when they change.
pub proof fn a_kept_option_is_an_option(kept: Option<usize>, n: nat)
    requires
        0 < n <= usize::MAX,
    ensures
        kept_option(kept, n) < n,
        kept matches Some(i) ==> (i < n ==> kept_option(kept, n) == i),
{
}

/// Text that the user typed comes back from the app as it is, and is not written again.
pub proof fn typed_text_is_not_written_back(v: DomView, el: u32, t: String, vectors: Seq<String>)
    ensures
        update_acts(
            v,
            el,
            Patch::TextField(TextFieldPatch::Text { text: t, from_native: true }),
            None,
            vectors,
        ) == Seq::<SpecAct>::empty(),
{
}

impl Dom {
    fn update_label(&mut self, out: &mut Vec<DomAct>, el: u32, p: &LabelPatch)
        ensures
            acts(final(out)@) == acts(old(out)@) + label_patch_acts(el, *p),
            final(self)@ == updated(old(self)@, el, Patch::Label(*p)),
    {
        let own = El::Own(el);
        match p {
            LabelPatch::Text(t) => {
                text(out, own, t.as_str());
                self.measured.take(el as u64);
            },
            LabelPatch::Runs(t, runs) => {
                set_label_text(out, el, t.as_str(), runs);
                self.measured.take(el as u64);
            },
            LabelPatch::Color(c) => match c {
                Some(c) => style(out, own, "color", color_css(c).as_str()),
                None => style(out, own, "color", ""),
            },
            LabelPatch::Font(f) => {
                apply_font(out, own, f);
                self.measured.take(el as u64);
            },
        }
        proof {
            assert(acts(out@) =~= acts(old(out)@) + label_patch_acts(el, *p));
        }
    }

    fn update_area(&mut self, out: &mut Vec<DomAct>, el: u32, p: &TextAreaPatch)
        ensures
            acts(final(out)@) == acts(old(out)@) + area_patch_acts(el, *p),
            final(self)@ == updated(old(self)@, el, Patch::TextArea(*p)),
    {
        let own = El::Own(el);
        match p {
            TextAreaPatch::SetText(t) => {
                let hints: Option<(u32, u32, u32)> = match self.area_hints.get(el as u64) {
                    Some(h) => Some(*h),
                    None => None,
                };
                match hints {
                    Some(h) => {
                        self.area_hints.put(el as u64, (h.0, h.1, content_lines(t.as_str())));
                    },
                    None => {},
                }
                text(out, own, t.as_str());
            },
            TextAreaPatch::SetEditable(e) => attr(
                out,
                own,
                "readonly",
                if *e {
                    ""
                } else {
                    "-"
                },
            ),
            TextAreaPatch::SetSelectable(b) => style(
                out,
                own,
                "user-select",
                if *b {
                    "text"
                } else {
                    "none"
                },
            ),
            TextAreaPatch::SetSpellCheck(b) => attr(out, own, "spellcheck", truth_word(*b)),
        }
        proof {
            assert(acts(out@) =~= acts(old(out)@) + area_patch_acts(el, *p));
        }
    }

    fn update_picker(&mut self, out: &mut Vec<DomAct>, el: u32, p: &PickerPatch)
        ensures
            acts(final(out)@) == acts(old(out)@) + picker_patch_acts(old(self)@, el, *p),
            final(self)@ == updated(old(self)@, el, Patch::Picker(*p)),
    {
        match p {
            PickerPatch::Selected(i) => {
                self.picker_selected.put(el as u64, *i);
                if self.seg_count.has(el as u64) {
                    act(
                        out,
                        Act::OptionsSelect { el, index: #[verifier::truncate] (*i as u32) },
                    );
                } else {
                    act(out, Act::Index(el, *i));
                }
            },
            PickerPatch::Options(opts) => {
                let kept: usize = match self.picker_selected.get(el as u64) {
                    Some(i) => *i,
                    None => 0,
                };
                let top: usize = if opts.len() > 0 {
                    opts.len() - 1
                } else {
                    0
                };
                let selected: usize = if kept < top {
                    kept
                } else {
                    top
                };
                act(out, Act::Options { el, json: picker_json(opts, selected) });
                if self.seg_count.has(el as u64) {
                    self.seg_count.put(el as u64, opts.len());
                }
            },
        }
        proof {
            assert(acts(out@) =~= acts(old(out)@) + picker_patch_acts(old(self)@, el, *p));
        }
    }

    fn update_cover(&self, out: &mut Vec<DomAct>, el: u32, p: &CoverPatch)
        ensures
            acts(final(out)@) == acts(old(out)@) + cover_patch_acts(self@, el, *p),
    {
        let own = El::Own(el);
        match p {
            CoverPatch::Present { background } => {
                match background {
                    Some(c) => style(out, own, "background-color", color_css(c).as_str()),
                    None => {},
                }
                act(out, Act::Insert { parent: 1, child: own, index: LAST });
                class(out, own, "open", true);
                match self.node_of(el) {
                    Some(node) => {
                        if self.viewport.width.is_positive() && self.viewport.height.is_positive() {
                            emit(out, Target::Node(node), Event::FrameChanged(self.viewport));
                        }
                    },
                    None => {},
                }
            },
            CoverPatch::DismissDisabled(_) => {},
            CoverPatch::Dismiss => {
                class(out, own, "open", false);
                match self.node_of(el) {
                    Some(node) => emit(out, Target::Node(node), Event::CoverHidden),
                    None => {},
                }
            },
        }
        proof {
            assert(acts(out@) =~= acts(old(out)@) + cover_patch_acts(self@, el, *p));
        }
    }

    fn update_list(&mut self, out: &mut Vec<DomAct>, el: u32, p: &ListPatch)
        requires
            old(self)@.wf(),
        ensures
            acts(final(out)@) == acts(old(out)@) + list_patch_acts(old(self)@, el, *p),
            final(self)@ == updated(old(self)@, el, Patch::List(*p)),
            final(self)@.wf(),
    {
        let ghost v = self@;
        match p {
            ListPatch::Reload => act(out, Act::PostPopulate(el)),
            ListPatch::Splice => act(out, Act::PostPopulate(el)),
            ListPatch::RowSizeInvalidated(_) => {},
            ListPatch::ScrollToEnd => act(out, Act::ScrollEdge { el, edge: 1, animated: true }),
            ListPatch::ScrollToRow(row) => {
                let pitch: Num = match self.lists.get(el as u64) {
                    Some(l) => l.pitch,
                    None => Num { bits: 0 },
                };
                act(out, Act::ScrollToRow { el, row: *row, pitch });
            },
            ListPatch::Selected(rows) => {
                match self.lists.take(el as u64) {
                    Some(mut entry) => {
                        assert(v.lists.contains_key(el as u64));
                        assert(entry@ == v.lists[el as u64]);
                        assert(sound_list(entry@));
                        let more = entry.select(rows);
                        act_all(out, more);
                        self.lists.put(el as u64, entry);
                        proof {
                            assert(self@.lists =~= updated(v, el, Patch::List(*p)).lists);
                        }
                    },
                    None => {
                        proof {
                            assert(self@.lists =~= v.lists);
                        }
                    },
                }
            },
        }
        proof {
            assert(self@ =~= updated(v, el, Patch::List(*p)));
            assert(acts(out@) =~= acts(old(out)@) + list_patch_acts(v, el, *p));
        }
    }

    /// Changes a realized piece.
    pub fn update(
        &mut self,
        el: u32,
        p: &Patch,
        anim: &Option<AnimSpec>,
        vectors: &Vec<String>,
    ) -> (out: Vec<DomAct>)
        requires
            old(self)@.wf(),
        ensures
            final(self)@ == updated(old(self)@, el, *p),
            final(self)@.wf(),
            acts(out@) == update_acts(old(self)@, el, *p, *anim, vectors@),
    {
        let ghost v = self@;
        let own = El::Own(el);
        let mut out: Vec<DomAct> = Vec::new();
        proof {
            assert(acts(out@) =~= Seq::<SpecAct>::empty());
        }
        match p {
            Patch::Tint(c) => {
                match self.image_src.get(el as u64) {
                    Some(src) => {
                        let fit: ContentMode = match self.image_fit.get(el as u64) {
                            Some(m) => *m,
                            None => ContentMode::Fit,
                        };
                        apply_image_tint(&mut out, el, src.as_str(), fit_css(fit), c);
                    },
                    None => {},
                }
            },
            Patch::Background(c) => {
                style(
                    &mut out,
                    own,
                    "transition",
                    transition_css("background-color", anim).as_str(),
                );
                match c {
                    Some(c) => style(&mut out, own, "background-color", color_css(c).as_str()),
                    None => style(&mut out, own, "background-color", "transparent"),
                }
            },
            Patch::Label(q) => self.update_label(&mut out, el, q),
            Patch::Button(q) => match q {
                ButtonPatch::Title(t) => text(&mut out, own, t.as_str()),
                ButtonPatch::Enabled(e) => set_enabled(&mut out, el, *e),
                ButtonPatch::Style(s) => apply_button_style(&mut out, el, s),
            },
            Patch::Toggle(q) => match q {
                TogglePatch::On(on) => act(&mut out, Act::Checked(el, *on)),
                TogglePatch::Enabled(e) => set_enabled(&mut out, el, *e),
            },
            Patch::Slider(q) => match q {
                SliderPatch::Value(n) => act(&mut out, Act::Value(el, *n)),
                SliderPatch::Enabled(e) => set_enabled(&mut out, el, *e),
            },
            Patch::TextField(q) => match q {
                TextFieldPatch::Text { text: t, from_native } => {
                    if !*from_native {
                        attr(&mut out, own, "value", t.as_str());
                    }
                },
                TextFieldPatch::Placeholder(t) => attr(&mut out, own, "placeholder", t.as_str()),
                TextFieldPatch::Enabled(e) => set_enabled(&mut out, el, *e),
            },
            Patch::TextArea(q) => self.update_area(&mut out, el, q),
            Patch::Picker(q) => self.update_picker(&mut out, el, q),
            Patch::Progress(n) => {
                match n {
                    Some(n) => act(&mut out, Act::Value(el, *n)),
                    None => {},
                }
            },
            Patch::Nav(q) => {
                match self.navs.take(el as u64) {
                    Some(mut nav) => {
                        let more = nav.patch(el, q);
                        act_all(&mut out, more);
                        self.navs.put(el as u64, nav);
                        proof {
                            assert(self@.navs =~= updated(v, el, *p).navs);
                        }
                    },
                    None => {
                        proof {
                            assert(self@.navs =~= v.navs);
                        }
                    },
                }
            },
            Patch::Cover(q) => self.update_cover(&mut out, el, q),
            Patch::NavMenu(q) => match q {
                NavMenuPatch::Items { rows, selected } => act(
                    &mut out,
                    Act::NavMenu { el, json: navmenu_json(rows, *selected, vectors) },
                ),
                NavMenuPatch::Selected(s) => {
                    let index: i32 = match s {
                        Some(i) => #[verifier::truncate] (*i as i32),
                        None => -1,
                    };
                    act(&mut out, Act::NavMenuSelect { el, index });
                },
            },
            Patch::List(q) => self.update_list(&mut out, el, q),
        }
        proof {
            assert(self@ =~= updated(v, el, *p));
            assert(acts(out@) =~= update_acts(v, el, *p, *anim, vectors@));
        }
        out
    }
}

} // verus!
