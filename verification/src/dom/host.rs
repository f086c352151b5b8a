//! The page around the app: its settings, its looks, its dialogs, and what it can do.
use crate::dom::act::{act, acts, attr, class, emit, style, Act, DomAct, El, SpecAct};
use crate::dom::css::{transition, transition_css};
use crate::dom::listen::MEDIA;
use crate::dom::specs::{
    present_json, save_json, save_surface, surface, toolbar, toolbar_change, toolbar_json,
    toolbar_patch_json,
};
use crate::dom::state::{Dom, DomHandle, DomView};
use crate::dom::update::known;
use crate::logging::{filter_of, level_number, named_filter, number_of, Level, LevelFilter};
use crate::model::{
    AnimSpec, AppBadge, Cap, Event, GestureKind, Length, Lifecycle, Modifiers, NodeId,
    PresentResult, PresentSpec, Size, SpecEvent, Support, Target, ToolbarItem, ToolbarPatch,
};
use crate::num::{Num, INFINITY};
use crate::text::{owned, same, split, split_on};
use vstd::prelude::*;

verus! {

// ---- settings ----------------------------------------------------------------------------------

/// What to do after asking the page for a value with a buffer of `cap` bytes, of which it used
/// or would have needed `n`.
#[derive(Clone, Copy, Debug, PartialEq, Eq, Structural)]
pub enum EnvStep {
    Retry(usize),
    Done(usize),
}

/// The first buffer's size.
pub const ENV_BUFFER: usize = 512;

/// A buffer that was too small is tried again at the size the page names; one that is exactly
/// full may have cut the value short and is doubled; otherwise the value is there.
pub fn env_step(cap: usize, n: usize) -> (s: EnvStep)
    requires
        n == cap ==> cap <= usize::MAX / 2,
    ensures
        s == (if n > cap {
            EnvStep::Retry(n)
        } else if n == cap {
            EnvStep::Retry((cap * 2) as usize)
        } else {
            EnvStep::Done(n)
        }),
        s matches EnvStep::Retry(next) ==> cap > 0 ==> next > cap,
        s matches EnvStep::Done(len) ==> len < cap,
{
    if n > cap {
        EnvStep::Retry(n)
    } else if n == cap {
        EnvStep::Retry(cap * 2)
    } else {
        EnvStep::Done(n)
    }
}

/// A setting, where it is not empty.
pub open spec fn setting(value: Seq<char>) -> Option<Seq<char>> {
    if value.len() > 0 {
        Some(value)
    } else {
        None
    }
}

/// The page's answer to a setting, as the app sees it.
pub fn host_env(value: String) -> (r: Option<String>)
    ensures
        match r {
            Some(s) => setting(value@) == Some(s@),
            None => setting(value@) is None,
        },
{
    if value.as_str().is_empty() {
        None
    } else {
        Some(value)
    }
}

/// The page's launch route.
pub fn launch_route(value: String) -> (r: Option<String>)
    ensures
        match r {
            Some(s) => setting(value@) == Some(s@),
            None => setting(value@) is None,
        },
{
    host_env(value)
}

/// The page's script token.
pub fn dayscript_token(value: String) -> (r: Option<String>)
    ensures
        match r {
            Some(s) => setting(value@) == Some(s@),
            None => setting(value@) is None,
        },
{
    host_env(value)
}

/// The first of the page's locales, where it is not empty.
pub fn launch_locale(locales: &str) -> (r: Option<String>)
    ensures
        match r {
            Some(s) => setting(split(locales@, ',')[0]) == Some(s@),
            None => setting(split(locales@, ',')[0]) is None,
        },
{
    proof {
        crate::text::splitting_loses_nothing(locales@, ',');
    }
    let parts = split_on(locales, ',');
    assert(parts@[0]@ == split(locales@, ',')[0]);
    if parts[0].as_str().is_empty() {
        None
    } else {
        Some(owned(parts[0].as_str()))
    }
}

/// The first `n` texts that are not empty.
pub open spec fn filled_texts(v: Seq<Seq<char>>, n: int) -> Seq<Seq<char>>
    decreases n,
{
    if n <= 0 {
        Seq::empty()
    } else if v[n - 1].len() > 0 {
        filled_texts(v, n - 1).push(v[n - 1])
    } else {
        filled_texts(v, n - 1)
    }
}

/// The page's locales, without empty ones.
pub fn locale_hints(locales: &str) -> (out: Vec<String>)
    ensures
        crate::model::texts(out@) == filled_texts(
            split(locales@, ','),
            split(locales@, ',').len() as int,
        ),
{
    let parts = split_on(locales, ',');
    let mut out: Vec<String> = Vec::new();
    let ghost all = split(locales@, ',');
    let mut i: usize = 0;
    proof {
        assert(crate::model::texts(out@) =~= filled_texts(all, 0));
    }
    while i < parts.len()
        invariant
            i <= parts.len() == all.len(),
            forall|k: int| 0 <= k < parts@.len() ==> (#[trigger] parts@[k])@ == all[k],
            crate::model::texts(out@) == filled_texts(all, i as int),
        decreases parts.len() - i,
    {
        assert(parts@[i as int]@ == all[i as int]);
        if !parts[i].as_str().is_empty() {
            let ghost before = crate::model::texts(out@);
            out.push(owned(parts[i].as_str()));
            proof {
                assert(crate::model::texts(out@) =~= before.push(all[i as int]));
            }
        }
        i = i + 1;
    }
    out
}

/// The page's clock in whole milliseconds, zero where it has no such time.
pub fn now_epoch_ms(ms: Num) -> (t: u64)
    ensures
        t == (if ms.positive() && ms.bits < INFINITY {
            ms.cut(u64::MAX as nat)
        } else {
            0
        }),
{
    if ms.is_positive() && ms.bits < INFINITY {
        ms.to_u64()
    } else {
        0
    }
}

/// The log level that the page's address asks for.
pub fn launch_log_level(value: String) -> (f: Option<LevelFilter>)
    ensures
        f == (match setting(value@) {
            Some(name) => named_filter(name),
            None => None,
        }),
{
    filter_of(&host_env(value))
}

/// A line for the browser's console.
pub fn console_sink(level: Level, line: &str) -> (out: Vec<DomAct>)
    ensures
        acts(out@) == seq![
            Act::<Seq<char>, SpecEvent>::Log { level: level_number(level), line: line@ },
        ],
{
    let mut out: Vec<DomAct> = Vec::new();
    act(&mut out, Act::Log { level: number_of(level), line: owned(line) });
    proof {
        assert(acts(out@) =~= seq![
            Act::<Seq<char>, SpecEvent>::Log { level: level_number(level), line: line@ },
        ]);
    }
    out
}

// ---- what the page can do ----------------------------------------------------------------------

/// How far the page supports a capability.
pub open spec fn support(cap: Cap) -> Support {
    match cap {
        Cap::Cursor | Cap::NavSplit | Cap::NavRepresent | Cap::Appearance | Cap::Dialogs
            | Cap::Animation | Cap::ScrollReports | Cap::FileDialogs | Cap::EditBridge
            | Cap::TextRuns | Cap::TextLinks | Cap::TextEditable | Cap::TextSelectable
            | Cap::TextSpellCheck => Support::Native,
        Cap::FontList | Cap::NavTabs | Cap::NavTabsAdaptive | Cap::BaselineAlignment | Cap::Toolbar
            | Cap::AppBadgeCount | Cap::AppBadgeDot | Cap::ListRecycling | Cap::Tree
            | Cap::ListReorder | Cap::Cover => Support::Emulated,
        _ => Support::Unsupported,
    }
}

pub fn capability(cap: Cap) -> (s: Support)
    ensures
        s == support(cap),
{
    match cap {
        Cap::Cursor | Cap::NavSplit | Cap::NavRepresent | Cap::Appearance | Cap::Dialogs
            | Cap::Animation | Cap::ScrollReports | Cap::FileDialogs | Cap::EditBridge
            | Cap::TextRuns | Cap::TextLinks | Cap::TextEditable | Cap::TextSelectable
            | Cap::TextSpellCheck => Support::Native,
        Cap::FontList | Cap::NavTabs | Cap::NavTabsAdaptive | Cap::BaselineAlignment | Cap::Toolbar
            | Cap::AppBadgeCount | Cap::AppBadgeDot | Cap::ListRecycling | Cap::Tree
            | Cap::ListReorder | Cap::Cover => Support::Emulated,
        _ => Support::Unsupported,
    }
}

/// Whether the page reports a phase of the app's life.
pub fn supports_lifecycle(phase: Lifecycle) -> (b: bool)
    ensures
        b == (phase == Lifecycle::WillLaunch || phase == Lifecycle::DidLaunch || phase
            == Lifecycle::DidBecomeActive || phase == Lifecycle::WillResignActive),
{
    match phase {
        Lifecycle::WillLaunch => true,
        Lifecycle::DidLaunch => true,
        Lifecycle::DidBecomeActive => true,
        Lifecycle::WillResignActive => true,
        _ => false,
    }
}

/// The modifier keys held, from the shim's mask.
pub fn modifiers(mask: u32) -> (m: Modifiers)
    ensures
        m.shift == crate::dom::events::bit0(mask),
        m.primary == crate::dom::events::bit1(mask),
        m.alt == crate::dom::events::bit2(mask),
{
    Modifiers { shift: mask % 2 == 1, primary: mask / 2 % 2 == 1, alt: mask / 4 % 2 == 1 }
}

/// The baseline that a measurement found: a kind without one has none, nor has what measured below
/// zero. `based` is whether the piece's kind has one.
pub fn first_baseline(based: bool, measured: Num) -> (r: Option<Num>)
    ensures
        r == (if based && measured.not_below_zero() {
            Some(measured)
        } else {
            None
        }),
{
    if based && measured.is_not_below_zero() {
        Some(measured)
    } else {
        None
    }
}

/// The shim's number for a badge: below zero none, zero a dot, above zero a count. A text badge
/// has no number, and leaves the badge as it is.
pub open spec fn badge_number(badge: AppBadge) -> Option<i32> {
    match badge {
        AppBadge::Off => Some(-1i32),
        AppBadge::Count(n) => if n == 0 {
            Some(-1i32)
        } else if n > 0x7fff_ffff {
            Some(0x7fff_ffffi32)
        } else {
            Some(n as i32)
        },
        AppBadge::Dot => Some(0i32),
        AppBadge::Text(_) => None,
    }
}

pub fn set_app_badge(badge: &AppBadge) -> (out: Vec<DomAct>)
    ensures
        acts(out@) == (match badge_number(*badge) {
            Some(n) => seq![Act::<Seq<char>, SpecEvent>::Badge(n)],
            None => Seq::empty(),
        }),
{
    let mut out: Vec<DomAct> = Vec::new();
    let n: Option<i32> = match badge {
        AppBadge::Off => Some(-1),
        AppBadge::Count(n) => if *n == 0 {
            Some(-1)
        } else if *n > 0x7fff_ffff {
            Some(0x7fff_ffff)
        } else {
            Some(*n as i32)
        },
        AppBadge::Dot => Some(0),
        AppBadge::Text(_) => None,
    };
    match n {
        Some(n) => act(&mut out, Act::Badge(n)),
        None => {},
    }
    proof {
        assert(acts(out@) =~= (match badge_number(*badge) {
            Some(n) => seq![Act::<Seq<char>, SpecEvent>::Badge(n)],
            None => Seq::empty(),
        }));
    }
    out
}

// ---- looks -------------------------------------------------------------------------------------

/// An element's opacity.
pub fn set_opacity(el: u32, opacity: &str, anim: &Option<AnimSpec>) -> (out: Vec<DomAct>)
    ensures
        acts(out@) == seq![
            Act::<Seq<char>, SpecEvent>::Style(
                El::Own(el),
                "transition"@,
                transition("opacity"@, *anim),
            ),
            Act::Style(El::Own(el), "opacity"@, opacity@),
        ],
{
    let mut out: Vec<DomAct> = Vec::new();
    style(&mut out, El::Own(el), "transition", transition_css("opacity", anim).as_str());
    style(&mut out, El::Own(el), "opacity", opacity);
    proof {
        assert(acts(out@) =~= seq![
            Act::<Seq<char>, SpecEvent>::Style(
                El::Own(el),
                "transition"@,
                transition("opacity"@, *anim),
            ),
            Act::Style(El::Own(el), "opacity"@, opacity@),
        ]);
    }
    out
}

/// A transform by the decimal text of its parts.
pub struct TransformText {
    pub tx: String,
    pub ty: String,
    pub rotate_deg: String,
    pub sx: String,
    pub sy: String,
}

/// A transform in CSS.
pub open spec fn transform_css(t: TransformText) -> Seq<char> {
    "translate("@ + t.tx@ + "px,"@ + t.ty@ + "px) rotate("@ + t.rotate_deg@ + "deg) scale("@ + t.sx@
        + ","@ + t.sy@ + ")"@
}

/// An element's transform about its center. The element is marked, so that rounded corners
/// inside it clip on a layer of their own.
pub fn set_transform(el: u32, t: &TransformText, anim: &Option<AnimSpec>) -> (out: Vec<DomAct>)
    ensures
        acts(out@) == seq![
            Act::<Seq<char>, SpecEvent>::Style(
                El::Own(el),
                "transition"@,
                transition("transform"@, *anim),
            ),
            Act::Class(El::Own(el), "day-xform"@, true),
            Act::Style(El::Own(el), "transform-origin"@, "50% 50%"@),
            Act::Style(El::Own(el), "transform"@, transform_css(*t)),
        ],
{
    let mut css = owned("translate(");
    css.append(t.tx.as_str());
    css.append("px,");
    css.append(t.ty.as_str());
    css.append("px) rotate(");
    css.append(t.rotate_deg.as_str());
    css.append("deg) scale(");
    css.append(t.sx.as_str());
    css.append(",");
    css.append(t.sy.as_str());
    css.append(")");
    let mut out: Vec<DomAct> = Vec::new();
    style(&mut out, El::Own(el), "transition", transition_css("transform", anim).as_str());
    class(&mut out, El::Own(el), "day-xform", true);
    style(&mut out, El::Own(el), "transform-origin", "50% 50%");
    style(&mut out, El::Own(el), "transform", css.as_str());
    proof {
        assert(acts(out@) =~= seq![
            Act::<Seq<char>, SpecEvent>::Style(
                El::Own(el),
                "transition"@,
                transition("transform"@, *anim),
            ),
            Act::Class(El::Own(el), "day-xform"@, true),
            Act::Style(El::Own(el), "transform-origin"@, "50% 50%"@),
            Act::Style(El::Own(el), "transform"@, transform_css(*t)),
        ]);
    }
    out
}

/// Whether an element's text can be selected.
pub fn set_selectable(el: u32, selectable: bool) -> (out: Vec<DomAct>)
    ensures
        acts(out@) == seq![
            Act::<Seq<char>, SpecEvent>::Class(El::Own(el), "day-selectable"@, selectable),
        ],
{
    let mut out: Vec<DomAct> = Vec::new();
    class(&mut out, El::Own(el), "day-selectable", selectable);
    proof {
        assert(acts(out@) =~= seq![
            Act::<Seq<char>, SpecEvent>::Class(El::Own(el), "day-selectable"@, selectable),
        ]);
    }
    out
}

/// An element's cursor, by its CSS name; the default one takes the style off.
pub fn set_cursor(el: u32, name: &Option<String>) -> (out: Vec<DomAct>)
    ensures
        acts(out@) == seq![
            Act::<Seq<char>, SpecEvent>::Style(
                El::Own(el),
                "cursor"@,
                (match *name {
                    Some(n) => n@,
                    None => ""@,
                }),
            ),
        ],
{
    let mut out: Vec<DomAct> = Vec::new();
    match name {
        Some(n) => style(&mut out, El::Own(el), "cursor", n.as_str()),
        None => style(&mut out, El::Own(el), "cursor", ""),
    }
    proof {
        assert(acts(out@) =~= seq![
            Act::<Seq<char>, SpecEvent>::Style(
                El::Own(el),
                "cursor"@,
                (match *name {
                    Some(n) => n@,
                    None => ""@,
                }),
            ),
        ]);
    }
    out
}

/// The attribute of an accessibility trait, where it is given.
pub open spec fn trait_act(el: u32, name: Seq<char>, value: Option<String>) -> Seq<SpecAct> {
    match value {
        Some(v) => seq![Act::Attr(El::Own(el), name, v@)],
        None => Seq::empty(),
    }
}

/// An element's accessibility label, and its identifier, which becomes its id.
pub fn set_a11y(el: u32, label: &Option<String>, identifier: &Option<String>) -> (out: Vec<DomAct>)
    ensures
        acts(out@) == trait_act(el, "aria-label"@, *label) + trait_act(el, "id"@, *identifier),
{
    let mut out: Vec<DomAct> = Vec::new();
    match label {
        Some(v) => attr(&mut out, El::Own(el), "aria-label", v.as_str()),
        None => {},
    }
    match identifier {
        Some(v) => attr(&mut out, El::Own(el), "id", v.as_str()),
        None => {},
    }
    proof {
        assert(acts(out@) =~= trait_act(el, "aria-label"@, *label) + trait_act(
            el,
            "id"@,
            *identifier,
        ));
    }
    out
}

/// The shim's listener mask for a gesture; zero for one that the page does not deliver.
pub open spec fn gesture_mask(kind: GestureKind) -> u32 {
    match kind {
        GestureKind::Tap => 128,
        GestureKind::Drag => 256,
        GestureKind::Hover => 512,
        GestureKind::LongPress => 0,
        GestureKind::Pinch => 0,
        GestureKind::Pan => 0,
    }
}

// ---- measuring ---------------------------------------------------------------------------------

/// What is measured.
#[derive(Clone, Copy, Debug, PartialEq, Eq, Structural)]
pub enum Kind {
    Label,
    Button,
    Toggle,
    Slider,
    TextField,
    TextArea,
    Picker,
    Progress,
    Divider,
    Image,
    Other,
}

/// How big a piece wants to be: a size, the size of its own text wrapped or with a button's
/// padding, or so many lines of text.
#[derive(Clone, Copy, Debug, PartialEq, Eq, Structural)]
pub enum Measure {
    Size(Length, Length),
    WrappedText,
    ButtonText,
    Lines { width: Length, lines: u32 },
}

/// A proposed length, or another one where none is proposed.
pub open spec fn proposed(n: Option<Num>, otherwise: u32) -> Length {
    match n {
        Some(n) => Length::Given(n),
        None => Length::Whole(otherwise),
    }
}

fn length_or(n: Option<Num>, otherwise: u32) -> (l: Length)
    ensures
        l == proposed(n, otherwise),
{
    match n {
        Some(n) => Length::Given(n),
        None => Length::Whole(otherwise),
    }
}

/// The lines a text area shows: as many as its text has, but no fewer than its least, which is
/// one at least, and no more than its most, where it names one.
pub open spec fn area_lines(hints: (u32, u32, u32)) -> u32 {
    let least = if hints.0 > 1 {
        hints.0
    } else {
        1
    };
    let wanted = if hints.2 > least {
        hints.2
    } else {
        least
    };
    let most = if hints.1 > least {
        hints.1
    } else {
        least
    };
    if hints.1 > 0 && wanted > most {
        most
    } else {
        wanted
    }
}

/// A text area shows between its least and its most lines.
pub proof fn an_area_stays_in_its_band(min: u32, max: u32, text: u32)
    ensures
        area_lines((min, max, text)) >= 1,
        area_lines((min, max, text)) >= min,
        max >= min && max > 0 ==> area_lines((min, max, text)) <= max,
        (min <= text && 0 < text && (max == 0 || text <= max)) ==> area_lines((min, max, text)) == text,
{
}

/// How big a piece of a kind wants to be under a proposal.
pub open spec fn measured(v: DomView, el: u32, kind: Kind, width: Option<Num>, height: Option<Num>) -> Measure {
    match kind {
        Kind::Label => Measure::WrappedText,
        Kind::Button => Measure::ButtonText,
        Kind::Toggle => Measure::Size(Length::Whole(40), Length::Whole(24)),
        Kind::Slider => Measure::Size(proposed(width, 180), Length::Whole(24)),
        Kind::TextField => Measure::Size(proposed(width, 200), Length::Whole(30)),
        Kind::TextArea => match height {
            Some(h) => Measure::Size(proposed(width, 240), Length::Given(h)),
            None => Measure::Lines {
                width: proposed(width, 240),
                lines: area_lines(
                    match known(v.area_hints, el) {
                        Some(h) => h,
                        None => (1, 0, 1),
                    },
                ),
            },
        },
        Kind::Picker => match known(v.picker_size, el) {
            Some(s) => Measure::Size(Length::Given(s.width), Length::Given(s.height)),
            None => Measure::Size(Length::Whole(68), Length::Whole(26)),
        },
        Kind::Progress => if v.spinners.contains_key(el as u64) {
            Measure::Size(Length::Whole(22), Length::Whole(22))
        } else {
            Measure::Size(proposed(width, 160), Length::Whole(8))
        },
        Kind::Divider => Measure::Size(proposed(width, 0), Length::Whole(1)),
        Kind::Image => Measure::Size(proposed(width, 100), proposed(height, 100)),
        Kind::Other => Measure::Size(proposed(width, 0), proposed(height, 0)),
    }
}

/// The size remembered for a wrapping width, in the first `n` entries.
pub open spec fn remembered_size(v: Seq<(i64, Size)>, key: i64, n: int) -> Option<Size>
    decreases n,
{
    if n <= 0 {
        None
    } else if v[n - 1].0 == key {
        Some(v[n - 1].1)
    } else {
        remembered_size(v, key, n - 1)
    }
}

impl Dom {
    /// How big a piece wants to be.
    pub fn measure(&self, el: u32, kind: Kind, width: Option<Num>, height: Option<Num>) -> (m: Measure)
        ensures
            m == measured(self@, el, kind, width, height),
    {
        match kind {
            Kind::Label => Measure::WrappedText,
            Kind::Button => Measure::ButtonText,
            Kind::Toggle => Measure::Size(Length::Whole(40), Length::Whole(24)),
            Kind::Slider => Measure::Size(length_or(width, 180), Length::Whole(24)),
            Kind::TextField => Measure::Size(length_or(width, 200), Length::Whole(30)),
            Kind::TextArea => {
                match height {
                    Some(h) => Measure::Size(length_or(width, 240), Length::Given(h)),
                    None => {
                        let hints: (u32, u32, u32) = match self.area_hints.get(el as u64) {
                            Some(h) => *h,
                            None => (1, 0, 1),
                        };
                        let least: u32 = if hints.0 > 1 {
                            hints.0
                        } else {
                            1
                        };
                        let wanted: u32 = if hints.2 > least {
                            hints.2
                        } else {
                            least
                        };
                        let most: u32 = if hints.1 > least {
                            hints.1
                        } else {
                            least
                        };
                        let lines: u32 = if hints.1 > 0 && wanted > most {
                            most
                        } else {
                            wanted
                        };
                        Measure::Lines { width: length_or(width, 240), lines }
                    },
                }
            },
            Kind::Picker => match self.picker_size.get(el as u64) {
                Some(s) => Measure::Size(Length::Given(s.width), Length::Given(s.height)),
                None => Measure::Size(Length::Whole(68), Length::Whole(26)),
            },
            Kind::Progress => if self.spinners.has(el as u64) {
                Measure::Size(Length::Whole(22), Length::Whole(22))
            } else {
                Measure::Size(length_or(width, 160), Length::Whole(8))
            },
            Kind::Divider => Measure::Size(length_or(width, 0), Length::Whole(1)),
            Kind::Image => Measure::Size(length_or(width, 100), length_or(height, 100)),
            Kind::Other => Measure::Size(length_or(width, 0), length_or(height, 0)),
        }
    }

    /// The size a label was last measured at for a wrapping width.
    pub fn cached_size(&self, el: u32, key: i64) -> (s: Option<Size>)
        ensures
            s == (match known(self@.measured, el) {
                Some(v) => remembered_size(v, key, v.len() as int),
                None => None,
            }),
    {
        match self.measured.get(el as u64) {
            Some(v) => {
                let mut i: usize = v.len();
                while i > 0
                    invariant
                        i <= v.len(),
                        self@.measured.contains_key(el as u64),
                        v@ == self@.measured[el as u64],
                        remembered_size(v@, key, v@.len() as int) == remembered_size(
                            v@,
                            key,
                            i as int,
                        ),
                    decreases i,
                {
                    if v[i - 1].0 == key {
                        return Some(v[i - 1].1);
                    }
                    i = i - 1;
                }
                None
            },
            None => None,
        }
    }

    /// Remembers the size a label was measured at for a wrapping width.
    pub fn cache_size(&mut self, el: u32, key: i64, size: Size)
        ensures
            final(self)@ == (DomView {
                measured: old(self)@.measured.insert(
                    el as u64,
                    (match known(old(self)@.measured, el) {
                        Some(v) => v,
                        None => Seq::empty(),
                    }).push((key, size)),
                ),
                ..old(self)@
            }),
            ({
                let v = final(self)@.measured[el as u64];
                remembered_size(v, key, v.len() as int) == Some(size)
            }),
    {
        let ghost before = self@;
        let mut v: Vec<(i64, Size)> = match self.measured.take(el as u64) {
            Some(v) => v,
            None => Vec::new(),
        };
        v.push((key, size));
        let ghost now = v@;
        self.measured.put(el as u64, v);
        proof {
            assert(self@.measured =~= before.measured.insert(el as u64, now));
        }
    }

    /// Has an element report a gesture for a node.
    pub fn enable_gesture(&mut self, el: u32, node: NodeId, kind: GestureKind) -> (out: Vec<DomAct>)
        ensures
            final(self)@ == old(self)@.remembered(el, node),
            acts(out@) == (if gesture_mask(kind) != 0 {
                seq![Act::<Seq<char>, SpecEvent>::Listen(el, gesture_mask(kind))]
            } else {
                Seq::empty()
            }),
    {
        self.remember(el, node);
        let mask: u32 = match kind {
            GestureKind::Tap => 128,
            GestureKind::Drag => 256,
            GestureKind::Hover => 512,
            _ => 0,
        };
        let mut out: Vec<DomAct> = Vec::new();
        if mask != 0 {
            act(&mut out, Act::Listen(el, mask));
        }
        proof {
            assert(acts(out@) =~= (if gesture_mask(kind) != 0 {
                seq![Act::<Seq<char>, SpecEvent>::Listen(el, gesture_mask(kind))]
            } else {
                Seq::empty()
            }));
        }
        out
    }

    /// Has an element report a summoned context menu for a node.
    pub fn set_context_menu(&mut self, el: u32, node: NodeId) -> (out: Vec<DomAct>)
        ensures
            final(self)@ == old(self)@.remembered(el, node),
            acts(out@) == seq![Act::<Seq<char>, SpecEvent>::Listen(el, 1024)],
    {
        self.remember(el, node);
        let mut out: Vec<DomAct> = Vec::new();
        act(&mut out, Act::Listen(el, MEDIA));
        proof {
            assert(acts(out@) =~= seq![Act::<Seq<char>, SpecEvent>::Listen(el, 1024)]);
        }
        out
    }

    /// Shows the app's route in the page's address. The first one rewrites the page's own
    /// history entry; every later one makes a new entry.
    pub fn set_route(&mut self, route: &str) -> (out: Vec<DomAct>)
        ensures
            final(self)@ == (DomView { first_route: false, ..old(self)@ }),
            acts(out@) == seq![
                Act::<Seq<char>, SpecEvent>::Hash {
                    route: route@,
                    replace: old(self)@.first_route,
                },
            ],
    {
        let replace = self.first_route;
        self.first_route = false;
        let mut out: Vec<DomAct> = Vec::new();
        act(&mut out, Act::Hash { route: owned(route), replace });
        proof {
            assert(acts(out@) =~= seq![
                Act::<Seq<char>, SpecEvent>::Hash {
                    route: route@,
                    replace: old(self)@.first_route,
                },
            ]);
        }
        out
    }

    /// The number of the next delayed call. Numbers go up by one and start over at one; none of
    /// them is zero.
    pub fn delay_token(&mut self) -> (t: u32)
        requires
            old(self)@.wf(),
        ensures
            final(self)@.wf(),
            t == old(self)@.next_delay,
            t != 0,
            final(self)@ == (DomView {
                next_delay: if t == u32::MAX {
                    1
                } else {
                    (t + 1) as u32
                },
                ..old(self)@
            }),
    {
        let t = self.next_delay;
        self.next_delay = if t == u32::MAX {
            1
        } else {
            t + 1
        };
        proof {
            assert(self@.lists == old(self)@.lists);
        }
        t
    }

    /// Asks the page for a light or dark look, or for the browser's own.
    pub fn set_appearance(&self, dark: Option<bool>) -> (out: Vec<DomAct>)
        ensures
            acts(out@) == seq![
                Act::<Seq<char>, SpecEvent>::Dark(
                    (match dark {
                        Some(false) => 0u32,
                        Some(true) => 1u32,
                        None => 2u32,
                    }),
                ),
            ],
    {
        let mode: u32 = match dark {
            Some(false) => 0,
            Some(true) => 1,
            None => 2,
        };
        let mut out: Vec<DomAct> = Vec::new();
        act(&mut out, Act::Dark(mode));
        proof {
            assert(acts(out@) =~= seq![
                Act::<Seq<char>, SpecEvent>::Dark(
                    (match dark {
                        Some(false) => 0u32,
                        Some(true) => 1u32,
                        None => 2u32,
                    }),
                ),
            ]);
        }
        out
    }

    /// The look the page then has.
    pub fn appearance_is(&mut self, effective: u32)
        ensures
            final(self)@ == (DomView { dark: effective == 1, ..old(self)@ }),
    {
        self.dark = effective == 1;
    }

    /// The page at launch: its viewport, and its own answer to whether it is dark.
    pub fn launched(&mut self, title: &str, viewport: Size, dark: &str) -> (out: Vec<DomAct>)
        ensures
            final(self)@ == (DomView { viewport, dark: dark@ == "1"@, ..old(self)@ }),
            acts(out@) == seq![Act::<Seq<char>, SpecEvent>::Title(title@)],
    {
        self.viewport = viewport;
        self.dark = same(dark, "1");
        let mut out: Vec<DomAct> = Vec::new();
        act(&mut out, Act::Title(owned(title)));
        proof {
            assert(acts(out@) =~= seq![Act::<Seq<char>, SpecEvent>::Title(title@)]);
        }
        out
    }

    /// Sets an attribute of a piece's element.
    pub fn set_attr(&self, h: &DomHandle, name: &str, value: &str) -> (out: Vec<DomAct>)
        ensures
            acts(out@) == seq![Act::<Seq<char>, SpecEvent>::Attr(El::Own(h.0), name@, value@)],
    {
        let mut out: Vec<DomAct> = Vec::new();
        attr(&mut out, El::Own(h.0), name, value);
        proof {
            assert(acts(out@) =~= seq![
                Act::<Seq<char>, SpecEvent>::Attr(El::Own(h.0), name@, value@),
            ]);
        }
        out
    }

    /// Calls a method of a piece's element.
    pub fn call(&self, h: &DomHandle, method: &str) -> (out: Vec<DomAct>)
        ensures
            acts(out@) == seq![Act::<Seq<char>, SpecEvent>::Call(h.0, method@)],
    {
        let mut out: Vec<DomAct> = Vec::new();
        act(&mut out, Act::Call(h.0, owned(method)));
        proof {
            assert(acts(out@) =~= seq![Act::<Seq<char>, SpecEvent>::Call(h.0, method@)]);
        }
        out
    }

    /// Replaces the markup of a piece's element.
    pub fn set_html(&self, h: &DomHandle, html: &str) -> (out: Vec<DomAct>)
        ensures
            acts(out@) == seq![Act::<Seq<char>, SpecEvent>::Html(h.0, html@)],
    {
        let mut out: Vec<DomAct> = Vec::new();
        act(&mut out, Act::Html(h.0, owned(html)));
        proof {
            assert(acts(out@) =~= seq![Act::<Seq<char>, SpecEvent>::Html(h.0, html@)]);
        }
        out
    }

    /// Selects a byte range of an editable element's text.
    pub fn set_editor_selection(&self, h: &DomHandle, start: usize, end: usize) -> (out: Vec<DomAct>)
        ensures
            acts(out@) == seq![
                Act::<Seq<char>, SpecEvent>::EditorSelect {
                    el: h.0,
                    start: start as u32,
                    end: end as u32,
                },
            ],
    {
        let mut out: Vec<DomAct> = Vec::new();
        act(
            &mut out,
            Act::EditorSelect {
                el: h.0,
                start: #[verifier::truncate] (start as u32),
                end: #[verifier::truncate] (end as u32),
            },
        );
        proof {
            assert(acts(out@) =~= seq![
                Act::<Seq<char>, SpecEvent>::EditorSelect {
                    el: h.0,
                    start: start as u32,
                    end: end as u32,
                },
            ]);
        }
        out
    }

    /// Has a piece's element report what the mask names.
    pub fn listen(&self, h: &DomHandle, mask: u32) -> (out: Vec<DomAct>)
        ensures
            acts(out@) == seq![Act::<Seq<char>, SpecEvent>::Listen(h.0, mask)],
    {
        let mut out: Vec<DomAct> = Vec::new();
        act(&mut out, Act::Listen(h.0, mask));
        proof {
            assert(acts(out@) =~= seq![Act::<Seq<char>, SpecEvent>::Listen(h.0, mask)]);
        }
        out
    }
}

// ---- toolbars and dialogs ----------------------------------------------------------------------

/// A whole toolbar.
pub fn set_toolbar(items: &Vec<ToolbarItem>, vectors: &Vec<String>) -> (out: Vec<DomAct>)
    ensures
        acts(out@) == seq![Act::<Seq<char>, SpecEvent>::Toolbar(toolbar(items@, vectors@))],
{
    let mut out: Vec<DomAct> = Vec::new();
    act(&mut out, Act::Toolbar(toolbar_json(items, vectors)));
    proof {
        assert(acts(out@) =~= seq![
            Act::<Seq<char>, SpecEvent>::Toolbar(toolbar(items@, vectors@)),
        ]);
    }
    out
}

/// A change to one toolbar item, which leaves the others as they are.
pub fn update_toolbar(patch: &ToolbarPatch) -> (out: Vec<DomAct>)
    ensures
        acts(out@) == seq![Act::<Seq<char>, SpecEvent>::ToolbarPatch(toolbar_change(*patch))],
{
    let mut out: Vec<DomAct> = Vec::new();
    act(&mut out, Act::ToolbarPatch(toolbar_patch_json(patch)));
    proof {
        assert(acts(out@) =~= seq![
            Act::<Seq<char>, SpecEvent>::ToolbarPatch(toolbar_change(*patch)),
        ]);
    }
    out
}

/// What presenting a surface does: a save goes with its staged bytes, anything else as its spec.
pub open spec fn present_act(req: u64, spec: PresentSpec) -> SpecAct {
    match spec {
        PresentSpec::SaveFile { title, suggested_name, src_path, .. } => Act::PresentSave {
            req: req as u32,
            json: save_surface(title@, suggested_name@),
            src_path: src_path@,
        },
        _ => Act::Present { req: req as u32, json: surface(spec)->0 },
    }
}

/// Presents a surface.
pub fn present(req: u64, spec: &PresentSpec) -> (out: Vec<DomAct>)
    ensures
        acts(out@) == seq![present_act(req, *spec)],
{
    let mut out: Vec<DomAct> = Vec::new();
    let low: u32 = #[verifier::truncate] (req as u32);
    match spec {
        PresentSpec::SaveFile { title, suggested_name, src_path, .. } => {
            act(
                &mut out,
                Act::PresentSave {
                    req: low,
                    json: save_json(title.as_str(), suggested_name.as_str()),
                    src_path: owned(src_path.as_str()),
                },
            );
        },
        _ => {
            match present_json(spec) {
                Some(json) => act(&mut out, Act::Present { req: low, json }),
                None => emit(
                    &mut out,
                    Target::Window,
                    Event::PresentResult { req, result: PresentResult::Dismissed },
                ),
            }
        },
    }
    proof {
        assert(acts(out@) =~= seq![present_act(req, *spec)]);
    }
    out
}

// ---- renderers ---------------------------------------------------------------------------------

/// Registers the renderer of a kind of piece, unless the kind has one already: whether this one
/// is kept. Registering again changes nothing, however often a piece does so.
pub fn register_renderer(kinds: &mut Vec<String>, kind: &str) -> (kept: bool)
    ensures
        kept == !crate::dom::css::listed(old(kinds)@, kind@),
        crate::dom::css::listed(final(kinds)@, kind@),
        kept ==> final(kinds)@.len() == old(kinds)@.len() + 1 && final(kinds)@.last()@ == kind@
            && final(kinds)@.drop_last() == old(kinds)@,
        !kept ==> final(kinds)@ == old(kinds)@,
{
    if crate::dom::css::is_listed(kinds, kind) {
        false
    } else {
        kinds.push(owned(kind));
        proof {
            assert(kinds@.drop_last() =~= old(kinds)@);
            assert(kinds@[kinds@.len() - 1]@ == kind@);
        }
        true
    }
}

} // verus!
