//! What every widget has: its end, its place, its gestures and menus, and how it is described.
use crate::gtk::act::{act, acts, emit, no_acts, one_act, Act, GtkAct, Later, SpecAct, Transform};
use crate::gtk::menu::maybe;
use crate::gtk::rows::freed_acts;
use crate::gtk::state::{Gtk, GtkView};
use crate::keys::{drop_second, has_second, without_second, Pairs};
use crate::model::{AnimSpec, Cap, Event, GestureKind, Rect, Size, SpecEvent, Support, Target};
use crate::num::Num;
use crate::table::entry;
use vstd::prelude::*;

verus! {

// ---- releasing ---------------------------------------------------------------------------------

/// The memory without what is kept by a widget's number in the tables that are swept.
pub open spec fn swept(v: GtkView, w: u64) -> GtkView {
    GtkView {
        images: v.images.remove(w),
        cell_rows: v.cell_rows.remove(w),
        cover_ids: v.cover_ids.remove(w),
        surfaces: v.surfaces.remove(w),
        inspectors: v.inspectors.remove(w),
        panes: v.panes.remove(w),
        ..v
    }
}

/// The calls that sweep a widget.
pub open spec fn sweep_acts(v: GtkView, w: u64) -> Seq<SpecAct> {
    let others: Seq<SpecAct> = seq![Act::Sweep { w }];
    if v.surfaces.contains(w) {
        others.push(Act::DropSurface { w })
    } else {
        others
    }
}

/// The memory after the windows among the first `n` whose content is gone were swept.
pub open spec fn windows_swept(v: GtkView, windows: Pairs, content: u64, n: int) -> GtkView
    decreases n,
{
    if n <= 0 {
        v
    } else {
        let before = windows_swept(v, windows, content, n - 1);
        if windows[n - 1].1 == content {
            swept(before, windows[n - 1].0)
        } else {
            before
        }
    }
}

/// The calls that sweep and destroy those windows.
pub open spec fn windows_acts(v: GtkView, windows: Pairs, content: u64, n: int) -> Seq<SpecAct>
    decreases n,
{
    if n <= 0 {
        Seq::empty()
    } else {
        let before = windows_acts(v, windows, content, n - 1);
        if windows[n - 1].1 == content {
            (before + sweep_acts(
                windows_swept(v, windows, content, n - 1),
                windows[n - 1].0,
            )).push(Act::DestroyWindow { w: windows[n - 1].0 })
        } else {
            before
        }
    }
}

/// The gestures without those of a widget.
pub open spec fn gestures_without(g: Seq<(u64, GestureKind)>, w: u64, n: int) -> Seq<
    (u64, GestureKind),
>
    decreases n,
{
    if n <= 0 {
        Seq::empty()
    } else if g[n - 1].0 == w {
        gestures_without(g, w, n - 1)
    } else {
        gestures_without(g, w, n - 1).push(g[n - 1])
    }
}

/// The memory without what is kept of a widget by hand.
pub open spec fn own_gone(v: GtkView, w: u64) -> GtkView {
    GtkView {
        transforms: v.transforms.remove(w),
        origins: v.origins.remove(w),
        labels: v.labels.remove(w),
        lists: v.lists.remove(w),
        trees: v.trees.remove(w),
        menus: v.menus.remove(w),
        row_popovers: match entry(v.menus, w) {
            Some(m) => v.row_popovers.remove(m.listbox),
            None => v.row_popovers,
        },
        popovers: v.popovers.remove(w),
        navs: v.navs.remove(w),
        page_ids: v.page_ids.remove(w),
        page_titles: v.page_titles.remove(w),
        gestures: gestures_without(v.gestures, w, v.gestures.len() as int),
        ..v
    }
}

/// The memory after a widget was released; one that is a window's content takes its window along.
pub open spec fn released(v: GtkView, w: u64) -> GtkView {
    let n = v.windows.len() as int;
    let closed = GtkView {
        windows: without_second(v.windows, w),
        ..windows_swept(v, v.windows, w, n)
    };
    own_gone(swept(closed, w), w)
}

/// What holds a widget.
#[derive(Clone, Copy, Debug, PartialEq, Eq, Structural)]
pub enum Home {
    Stack(u64),
    Fixed(u64),
    Other,
}

/// The calls that release a widget: context menus are freed while what they stand on is alive.
pub open spec fn release_acts(v: GtkView, w: u64, home: Home) -> Seq<SpecAct> {
    let n = v.windows.len() as int;
    let closed = windows_swept(v, v.windows, w, n);
    let rows: Seq<SpecAct> = match entry(v.menus, w) {
        Some(m) => freed_acts(v, m.listbox),
        None => Seq::empty(),
    };
    let menu: Seq<SpecAct> = if v.popovers.contains(w) {
        seq![Act::Unparent { w }]
    } else {
        Seq::empty()
    };
    let left: Seq<SpecAct> = match home {
        Home::Stack(p) => seq![Act::StackRemove { w: p, child: w }],
        Home::Fixed(p) => seq![Act::Take { w: p, child: w }],
        Home::Other => Seq::empty(),
    };
    windows_acts(v, v.windows, w, n) + sweep_acts(closed, w) + rows + menu + left
}

proof fn sweeping_keeps_the_rest(v: GtkView, windows: Pairs, content: u64, n: int)
    ensures
        ({
            let s = windows_swept(v, windows, content, n);
            &&& s.windows == v.windows
            &&& s.menus == v.menus
            &&& s.row_popovers == v.row_popovers
            &&& s.popovers == v.popovers
        }),
    decreases n,
{
    if n > 0 {
        sweeping_keeps_the_rest(v, windows, content, n - 1);
    }
}

proof fn gestures_without_members(g: Seq<(u64, GestureKind)>, w: u64, n: int)
    requires
        n <= g.len(),
    ensures
        forall|i: int|
            0 <= i < gestures_without(g, w, n).len() ==> (#[trigger] gestures_without(
                g,
                w,
                n,
            )[i]).0 != w,
    decreases n,
{
    if n > 0 {
        gestures_without_members(g, w, n - 1);
        let d = gestures_without(g, w, n - 1);
        assert forall|i: int| 0 <= i < gestures_without(g, w, n).len() implies (
        #[trigger] gestures_without(g, w, n)[i]).0 != w by {
            if i < d.len() {
                assert(gestures_without(g, w, n)[i] == d[i]);
            }
        }
    }
}

/// A released widget leaves nothing in these tables, so that a widget that comes to have its number
/// starts anew in each of them; and no window keeps it as its content. The rows of a menu, the
/// tokens of cells and the wish to be asked for a context menu are not among them.
pub proof fn a_released_widget_leaves_its_tables(v: GtkView, w: u64)
    ensures
        ({
            let r = released(v, w);
            &&& !r.labels.contains_key(w)
            &&& !r.navs.contains_key(w)
            &&& !r.page_ids.contains_key(w)
            &&& !r.page_titles.contains_key(w)
            &&& !r.menus.contains_key(w)
            &&& !r.transforms.contains_key(w)
            &&& !r.origins.contains_key(w)
            &&& !r.images.contains_key(w)
            &&& !r.surfaces.contains(w)
            &&& !r.popovers.contains(w)
            &&& !r.lists.contains(w)
            &&& !r.trees.contains_key(w)
            &&& !r.cell_rows.contains_key(w)
            &&& !r.cover_ids.contains_key(w)
            &&& !r.inspectors.contains_key(w)
            &&& !r.panes.contains_key(w)
            &&& !has_second(r.windows, w)
            &&& forall|i: int| 0 <= i < r.gestures.len() ==> (#[trigger] r.gestures[i]).0 != w
        }),
{
    let n = v.windows.len() as int;
    let closed = GtkView {
        windows: without_second(v.windows, w),
        ..windows_swept(v, v.windows, w, n)
    };
    crate::keys::without_second_members(v.windows, w);
    let s = swept(closed, w);
    gestures_without_members(s.gestures, w, s.gestures.len() as int);
}

/// A released menu leaves no context menus of its rows behind.
pub proof fn a_released_menu_leaves_no_row_menus(v: GtkView, w: u64)
    requires
        v.menus.contains_key(w),
    ensures
        !released(v, w).row_popovers.contains(v.menus[w].listbox),
{
    sweeping_keeps_the_rest(v, v.windows, w, v.windows.len() as int);
}

impl Gtk {
    fn sweep(&mut self, out: &mut Vec<GtkAct>, w: u64)
        ensures
            final(self)@ == swept(old(self)@, w),
            acts(final(out)@) == acts(old(out)@) + sweep_acts(old(self)@, w),
    {
        let ghost v = self@;
        let ghost start = acts(out@);
        act(out, Act::Sweep { w });
        self.images.take(w);
        self.cell_rows.take(w);
        self.cover_ids.take(w);
        if self.surfaces.drop(w) {
            act(out, Act::DropSurface { w });
        }
        self.inspectors.take(w);
        self.panes.take(w);
        proof {
            assert(self@ =~= swept(v, w));
            assert(acts(out@) =~= start + sweep_acts(v, w));
        }
    }

    fn close_windows(&mut self, w: u64) -> (out: Vec<GtkAct>)
        ensures
            final(self)@ == (GtkView {
                windows: without_second(old(self)@.windows, w),
                ..windows_swept(
                    old(self)@,
                    old(self)@.windows,
                    w,
                    old(self)@.windows.len() as int,
                )
            }),
            acts(out@) == windows_acts(
                old(self)@,
                old(self)@.windows,
                w,
                old(self)@.windows.len() as int,
            ),
    {
        let ghost v = self@;
        let mut out = no_acts();
        let mut i: usize = 0;
        while i < self.windows.len()
            invariant
                i <= self.windows.len(),
                self.windows@ == v.windows,
                self@ == windows_swept(v, v.windows, w, i as int),
                acts(out@) == windows_acts(v, v.windows, w, i as int),
            decreases self.windows.len() - i,
        {
            let (window, content) = self.windows[i];
            if content == w {
                let ghost before = acts(out@);
                let ghost s = self@;
                self.sweep(&mut out, window);
                act(&mut out, Act::DestroyWindow { w: window });
                proof {
                    assert(acts(out@) =~= (before + sweep_acts(s, window)).push(
                        Act::DestroyWindow { w: window },
                    ));
                }
            }
            i = i + 1;
        }
        self.windows = drop_second(&self.windows, w);
        proof {
            assert(self@ =~= GtkView {
                windows: without_second(v.windows, w),
                ..windows_swept(v, v.windows, w, v.windows.len() as int)
            });
        }
        out
    }

    fn forget(&mut self, out: &mut Vec<GtkAct>, w: u64)
        ensures
            final(self)@ == own_gone(old(self)@, w),
            acts(final(out)@) == acts(old(out)@) + (match entry(old(self)@.menus, w) {
                Some(m) => freed_acts(old(self)@, m.listbox),
                None => Seq::<SpecAct>::empty(),
            }) + (if old(self)@.popovers.contains(w) {
                seq![Act::Unparent { w }]
            } else {
                Seq::<SpecAct>::empty()
            }),
    {
        let ghost v = self@;
        let ghost start = acts(out@);
        self.transforms.take(w);
        self.origins.take(w);
        self.labels.take(w);
        self.lists.drop(w);
        self.trees.take(w);
        match self.menus.take(w) {
            Some(m) => self.unparent_nav_popovers(out, m.listbox),
            None => {},
        }
        let ghost rows = match entry(v.menus, w) {
            Some(m) => freed_acts(v, m.listbox),
            None => Seq::<SpecAct>::empty(),
        };
        proof {
            assert(acts(out@) =~= start + rows);
        }
        if self.popovers.drop(w) {
            act(out, Act::Unparent { w });
        }
        self.navs.take(w);
        self.page_ids.take(w);
        self.page_titles.take(w);
        let mut kept: Vec<(u64, GestureKind)> = Vec::new();
        let mut i: usize = 0;
        while i < self.gestures.len()
            invariant
                i <= self.gestures.len(),
                kept@ == gestures_without(self.gestures@, w, i as int),
            decreases self.gestures.len() - i,
        {
            if self.gestures[i].0 != w {
                kept.push(self.gestures[i]);
            }
            i = i + 1;
        }
        self.gestures = kept;
        proof {
            assert(self@ =~= own_gone(v, w));
            let menu: Seq<SpecAct> = if v.popovers.contains(w) {
                seq![Act::Unparent { w }]
            } else {
                Seq::empty()
            };
            assert(acts(out@) =~= start + rows + menu);
        }
    }

    /// Releases a widget; `home` is what holds it.
    pub fn release(&mut self, w: u64, home: Home) -> (out: Vec<GtkAct>)
        ensures
            final(self)@ == released(old(self)@, w),
            acts(out@) == release_acts(old(self)@, w, home),
    {
        let ghost v = self@;
        let mut out = self.close_windows(w);
        let ghost a1 = acts(out@);
        let ghost closed = self@;
        proof {
            sweeping_keeps_the_rest(v, v.windows, w, v.windows.len() as int);
        }
        self.sweep(&mut out, w);
        let ghost a2 = acts(out@);
        self.forget(&mut out, w);
        match home {
            Home::Stack(p) => act(&mut out, Act::StackRemove { w: p, child: w }),
            Home::Fixed(p) => act(&mut out, Act::Take { w: p, child: w }),
            Home::Other => {},
        }
        proof {
            let plain = windows_swept(v, v.windows, w, v.windows.len() as int);
            assert(sweep_acts(closed, w) == sweep_acts(plain, w));
            assert(acts(out@) =~= release_acts(v, w, home));
        }
        out
    }
}

// ---- place -------------------------------------------------------------------------------------

/// Where layout put a widget, as far as it did.
pub open spec fn origin_of(v: GtkView, w: u64) -> (Num, Num) {
    match entry(v.origins, w) {
        Some(p) => (p.x, p.y),
        None => (Num { bits: 0 }, Num { bits: 0 }),
    }
}

/// The memory after a widget got its frame. The frame of a page is its host's to give.
pub open spec fn framed(v: GtkView, w: u64, frame: Rect, fixed: Option<u64>) -> GtkView {
    if v.page_ids.contains_key(w) || fixed is None {
        v
    } else {
        GtkView { origins: v.origins.insert(w, frame.origin), ..v }
    }
}

/// The calls that give a widget its frame. Moving it undoes its transform, which is applied anew.
pub open spec fn frame_acts(v: GtkView, w: u64, frame: Rect, fixed: Option<u64>) -> Seq<SpecAct> {
    if v.page_ids.contains_key(w) {
        Seq::empty()
    } else {
        let moved: Seq<SpecAct> = match fixed {
            Some(p) => {
                let there: Seq<SpecAct> = seq![
                    Act::MoveTo { w: p, child: w, x: frame.origin.x, y: frame.origin.y },
                ];
                match entry(v.transforms, w) {
                    Some(t) => if t.identity {
                        there
                    } else {
                        there.push(
                            Act::Shape {
                                w: p,
                                child: w,
                                origin: (frame.origin.x, frame.origin.y),
                                transform: t,
                                size: frame.size,
                            },
                        )
                    },
                    None => there,
                }
            },
            None => Seq::empty(),
        };
        let sized = moved.push(
            Act::SizeTo { w, width: frame.size.width, height: frame.size.height },
        );
        let pages: Seq<SpecAct> = if v.navs.contains_key(w) {
            seq![Act::Later { work: Later::NavReport(w) }]
        } else {
            Seq::empty()
        };
        let panes: Seq<SpecAct> = if v.inspectors.contains_key(w) {
            seq![Act::Later { work: Later::InspectorReport(w) }]
        } else {
            Seq::empty()
        };
        sized + pages + panes
    }
}

/// A widget that is moved keeps the transform it was given last.
pub proof fn moving_keeps_the_transform(v: GtkView, w: u64, t: Transform, frame: Rect, p: u64)
    requires
        !v.page_ids.contains_key(w),
        !t.identity,
    ensures
        frame_acts(transformed(v, w, t, Some(p)), w, frame, Some(p))[1] == (Act::<
            Seq<char>,
            SpecEvent,
        >::Shape {
            w: p,
            child: w,
            origin: (frame.origin.x, frame.origin.y),
            transform: t,
            size: frame.size,
        }),
{
}

/// The memory after a widget got a transform; only a child of a fixed container can have one.
pub open spec fn transformed(v: GtkView, w: u64, t: Transform, fixed: Option<u64>) -> GtkView {
    if fixed is None {
        v
    } else {
        GtkView { transforms: v.transforms.insert(w, t), ..v }
    }
}

/// The calls that give a widget a transform: the last one at once, then the way there from the
/// transform before.
pub open spec fn transform_acts(
    v: GtkView,
    w: u64,
    t: Transform,
    size: Size,
    anim: Option<AnimSpec>,
    fixed: Option<u64>,
) -> Seq<SpecAct> {
    match fixed {
        Some(p) => {
            let set: Seq<SpecAct> = seq![
                Act::Shape { w: p, child: w, origin: origin_of(v, w), transform: t, size },
            ];
            match anim {
                Some(anim) => set.push(
                    Act::Slide { w: p, child: w, from: entry(v.transforms, w), to: t, size, anim },
                ),
                None => set.push(Act::StopSlide { w }),
            }
        },
        None => Seq::empty(),
    }
}

impl Gtk {
    /// Gives a widget its frame; `fixed` is the fixed container that holds it, where one does.
    pub fn set_frame(&mut self, w: u64, frame: Rect, fixed: Option<u64>) -> (out: Vec<GtkAct>)
        ensures
            final(self)@ == framed(old(self)@, w, frame, fixed),
            acts(out@) == frame_acts(old(self)@, w, frame, fixed),
    {
        let ghost v = self@;
        let mut out = no_acts();
        if self.page_ids.has(w) {
            return out;
        }
        match fixed {
            Some(p) => {
                self.origins.put(w, frame.origin);
                act(
                    &mut out,
                    Act::MoveTo { w: p, child: w, x: frame.origin.x, y: frame.origin.y },
                );
                match self.transforms.get(w) {
                    Some(t) => {
                        if !t.identity {
                            act(
                                &mut out,
                                Act::Shape {
                                    w: p,
                                    child: w,
                                    origin: (frame.origin.x, frame.origin.y),
                                    transform: *t,
                                    size: frame.size,
                                },
                            );
                        }
                    },
                    None => {},
                }
            },
            None => {},
        }
        act(&mut out, Act::SizeTo { w, width: frame.size.width, height: frame.size.height });
        if self.navs.has(w) {
            act(&mut out, Act::Later { work: Later::NavReport(w) });
        }
        if self.inspectors.has(w) {
            act(&mut out, Act::Later { work: Later::InspectorReport(w) });
        }
        proof {
            assert(self@ =~= framed(v, w, frame, fixed));
            assert(acts(out@) =~= frame_acts(v, w, frame, fixed));
        }
        out
    }

    /// Gives a widget a transform.
    pub fn set_transform(
        &mut self,
        w: u64,
        t: Transform,
        size: Size,
        anim: Option<AnimSpec>,
        fixed: Option<u64>,
    ) -> (out: Vec<GtkAct>)
        ensures
            final(self)@ == transformed(old(self)@, w, t, fixed),
            acts(out@) == transform_acts(old(self)@, w, t, size, anim, fixed),
    {
        let ghost v = self@;
        let mut out = no_acts();
        let p = match fixed {
            Some(p) => p,
            None => {
                return out;
            },
        };
        let origin: (Num, Num) = match self.origins.get(w) {
            Some(o) => (o.x, o.y),
            None => (Num { bits: 0 }, Num { bits: 0 }),
        };
        let from: Option<Transform> = match self.transforms.get(w) {
            Some(t) => Some(*t),
            None => None,
        };
        act(&mut out, Act::Shape { w: p, child: w, origin, transform: t, size });
        match anim {
            Some(anim) => act(&mut out, Act::Slide { w: p, child: w, from, to: t, size, anim }),
            None => act(&mut out, Act::StopSlide { w }),
        }
        self.transforms.put(w, t);
        proof {
            assert(self@ =~= transformed(v, w, t, fixed));
            assert(acts(out@) =~= transform_acts(v, w, t, size, anim, fixed));
        }
        out
    }
}

/// Sets a widget's opacity, at once or over time.
pub fn set_opacity(w: u64, value: Num, anim: Option<AnimSpec>) -> (out: Vec<GtkAct>)
    ensures
        acts(out@) == (match anim {
            Some(anim) => seq![Act::<Seq<char>, SpecEvent>::Fade { w, to: value, anim }],
            None => seq![Act::StopFade { w }, Act::Opacity { w, value }],
        }),
{
    let mut out = no_acts();
    match anim {
        Some(a) => act(&mut out, Act::Fade { w, to: value, anim: a }),
        None => {
            act(&mut out, Act::StopFade { w });
            act(&mut out, Act::Opacity { w, value });
        },
    }
    proof {
        assert(acts(out@) =~= (match anim {
            Some(anim) => seq![Act::<Seq<char>, SpecEvent>::Fade { w, to: value, anim }],
            None => seq![Act::StopFade { w }, Act::Opacity { w, value }],
        }));
    }
    out
}

/// Gives a scroller's content its size; a widget without content of its own is left alone.
pub fn set_scroll_content(w: u64, inner: u64, content: Size) -> (out: Vec<GtkAct>)
    ensures
        acts(out@) == (if inner == w {
            Seq::<SpecAct>::empty()
        } else {
            seq![Act::SizeTo { w: inner, width: content.width, height: content.height }]
        }),
{
    if inner == w {
        no_acts()
    } else {
        one_act(Act::SizeTo { w: inner, width: content.width, height: content.height })
    }
}

// ---- size --------------------------------------------------------------------------------------

/// A measured length: one that was offered, or so many pixels.
#[derive(Clone, Copy, Debug, PartialEq, Eq, Structural)]
pub enum Span {
    Given(Num),
    Px(u128),
}

/// The kinds of widget that are measured by rule.
#[derive(Clone, Copy, Debug, PartialEq, Eq, Structural)]
pub enum Measured {
    NavMenu,
    Control,
    Divider,
    Rows,
    Bar,
    Spinner,
}

pub open spec fn offered(v: Option<Num>, otherwise: u128) -> Span {
    match v {
        Some(n) => Span::Given(n),
        None => Span::Px(otherwise),
    }
}

/// A natural height, and the least a widget has.
pub open spec fn at_least(natural: i32, least: u128) -> Span {
    if natural >= least {
        Span::Px(natural as u128)
    } else {
        Span::Px(least)
    }
}

/// The size of a widget that is measured by rule, given what is offered and how high it is by
/// itself.
pub open spec fn size_of(
    v: GtkView,
    w: u64,
    kind: Measured,
    width: Option<Num>,
    height: Option<Num>,
    natural: i32,
) -> (Span, Span) {
    match kind {
        Measured::NavMenu => {
            let rows = match entry(v.menus, w) {
                Some(m) => m.rows,
                None => 0,
            };
            (offered(width, 220), offered(height, (rows * 36 + 8) as u128))
        },
        Measured::Control => (offered(width, 180), at_least(natural, 24)),
        Measured::Divider => (offered(width, 0), Span::Px(1)),
        Measured::Rows => (offered(width, 0), offered(height, 0)),
        Measured::Bar => (offered(width, 180), at_least(natural, 6)),
        Measured::Spinner => (Span::Px(20), Span::Px(20)),
    }
}

fn offer(v: Option<Num>, otherwise: u128) -> (s: Span)
    ensures
        s == offered(v, otherwise),
{
    match v {
        Some(n) => Span::Given(n),
        None => Span::Px(otherwise),
    }
}

fn least_height(natural: i32, least: u128) -> (s: Span)
    requires
        least <= i32::MAX,
    ensures
        s == at_least(natural, least),
{
    if natural >= least as i32 {
        Span::Px(natural as u128)
    } else {
        Span::Px(least)
    }
}

impl Gtk {
    /// The size of a widget that is measured by rule.
    pub fn measure(
        &self,
        w: u64,
        kind: Measured,
        width: Option<Num>,
        height: Option<Num>,
        natural: i32,
    ) -> (s: (Span, Span))
        ensures
            s == size_of(self@, w, kind, width, height, natural),
    {
        match kind {
            Measured::NavMenu => {
                let rows: usize = match self.menus.get(w) {
                    Some(m) => m.rows,
                    None => 0,
                };
                (offer(width, 220), offer(height, rows as u128 * 36 + 8))
            },
            Measured::Control => (offer(width, 180), least_height(natural, 24)),
            Measured::Divider => (offer(width, 0), Span::Px(1)),
            Measured::Rows => (offer(width, 0), offer(height, 0)),
            Measured::Bar => (offer(width, 180), least_height(natural, 6)),
            Measured::Spinner => (Span::Px(20), Span::Px(20)),
        }
    }
}

/// A baseline as it is measured: a kind without one has none, and a negative one is none.
pub open spec fn baseline(based: bool, natural: i32) -> Option<i32> {
    if based && natural >= 0 {
        Some(natural)
    } else {
        None
    }
}

/// The baseline that a measurement found; `based` is whether the piece's kind has one.
pub fn first_baseline(based: bool, natural: i32) -> (r: Option<i32>)
    ensures
        r == baseline(based, natural),
{
    if based && natural >= 0 {
        Some(natural)
    } else {
        None
    }
}

// ---- gestures ----------------------------------------------------------------------------------

impl Gtk {
    fn has_gesture(&self, w: u64, kind: GestureKind) -> (b: bool)
        ensures
            b == self@.gestures.contains((w, kind)),
    {
        let mut i: usize = 0;
        while i < self.gestures.len()
            invariant
                i <= self.gestures.len(),
                forall|k: int| 0 <= k < i ==> self.gestures@[k] != (w, kind),
            decreases self.gestures.len() - i,
        {
            if self.gestures[i].0 == w && self.gestures[i].1 == kind {
                assert(self.gestures@[i as int] == (w, kind));
                return true;
            }
            i = i + 1;
        }
        false
    }

    /// Has a widget report a gesture, unless it does already.
    pub fn enable_gesture(&mut self, w: u64, id: u64, kind: GestureKind) -> (out: Vec<GtkAct>)
        ensures
            final(self)@ == gesture_enabled(old(self)@, w, kind),
            acts(out@) == gesture_acts(old(self)@, w, id, kind),
    {
        let ghost v = self@;
        if self.has_gesture(w, kind) {
            return no_acts();
        }
        self.gestures.push((w, kind));
        proof {
            assert(self@ =~= gesture_enabled(v, w, kind));
        }
        one_act(Act::Gesture { w, id, kind })
    }
}

pub open spec fn gesture_enabled(v: GtkView, w: u64, kind: GestureKind) -> GtkView {
    if v.gestures.contains((w, kind)) {
        v
    } else {
        GtkView { gestures: v.gestures.push((w, kind)), ..v }
    }
}

pub open spec fn gesture_acts(v: GtkView, w: u64, id: u64, kind: GestureKind) -> Seq<SpecAct> {
    if v.gestures.contains((w, kind)) {
        Seq::empty()
    } else {
        seq![Act::Gesture { w, id, kind }]
    }
}

/// A gesture is wired once, however often it is asked for; one of a widget that is gone can be
/// wired anew.
pub proof fn a_gesture_is_wired_once(v: GtkView, w: u64, id: u64, kind: GestureKind)
    ensures
        gesture_acts(gesture_enabled(v, w, kind), w, id, kind) == Seq::<SpecAct>::empty(),
        gesture_enabled(gesture_enabled(v, w, kind), w, kind) == gesture_enabled(v, w, kind),
        gesture_acts(released(v, w), w, id, kind).len() == 1,
{
    let g = gesture_enabled(v, w, kind).gestures;
    if !v.gestures.contains((w, kind)) {
        assert(g[v.gestures.len() as int] == (w, kind));
    }
    a_released_widget_leaves_its_tables(v, w);
    let r = released(v, w);
    if r.gestures.contains((w, kind)) {
        let i = choose|i: int| 0 <= i < r.gestures.len() && r.gestures[i] == (w, kind);
        assert(r.gestures[i].0 != w);
    }
}

// ---- context menus -----------------------------------------------------------------------------

/// The memory after a widget got a context menu, or lost it.
pub open spec fn menu_set(v: GtkView, w: u64, empty: bool) -> GtkView {
    GtkView {
        popovers: if empty {
            v.popovers.remove(w)
        } else {
            v.popovers.insert(w)
        },
        ..v
    }
}

/// The calls that give a widget a context menu: the former one goes first.
pub open spec fn menu_set_acts(v: GtkView, w: u64, empty: bool) -> Seq<SpecAct> {
    let freed: Seq<SpecAct> = if v.popovers.contains(w) {
        seq![Act::Unparent { w }]
    } else {
        Seq::empty()
    };
    if empty {
        freed
    } else {
        freed.push(Act::Menu { w })
    }
}

impl Gtk {
    /// Gives a widget a context menu; an empty one takes it away.
    pub fn set_context_menu(&mut self, w: u64, empty: bool) -> (out: Vec<GtkAct>)
        ensures
            final(self)@ == menu_set(old(self)@, w, empty),
            acts(out@) == menu_set_acts(old(self)@, w, empty),
    {
        let ghost v = self@;
        let mut out = no_acts();
        if self.popovers.drop(w) {
            act(&mut out, Act::Unparent { w });
        }
        if !empty {
            act(&mut out, Act::Menu { w });
            self.popovers.put(w);
        }
        proof {
            assert(v.popovers.remove(w).insert(w) =~= v.popovers.insert(w));
            assert(self@ =~= menu_set(v, w, empty));
            assert(acts(out@) =~= menu_set_acts(v, w, empty));
        }
        out
    }

    /// Has a widget ask for its context menu when it is summoned; the way to summon it is wired
    /// once.
    pub fn set_context_menu_fn(&mut self, w: u64) -> (out: Vec<GtkAct>)
        ensures
            final(self)@ == (GtkView { summoned: old(self)@.summoned.insert(w), ..old(self)@ }),
            acts(out@) == (if old(self)@.summoned.contains(w) {
                Seq::<SpecAct>::empty()
            } else {
                seq![Act::Summon { w }]
            }),
    {
        let ghost v = self@;
        let fresh = self.summoned.put(w);
        proof {
            assert(self@ =~= GtkView { summoned: v.summoned.insert(w), ..v });
        }
        if fresh {
            one_act(Act::Summon { w })
        } else {
            no_acts()
        }
    }
}

// ---- lists and trees ---------------------------------------------------------------------------

/// The place a row would be dropped at: none in an empty list, the last row below the rows.
pub open spec fn slot(count: usize, raw: usize) -> Option<usize> {
    if count == 0 {
        None
    } else if raw < count {
        Some(raw)
    } else {
        Some((count - 1) as usize)
    }
}

/// The row that is dragged over a list and the place it is over; only a list's own rows are.
pub open spec fn dragged_over(v: GtkView, w: u64, count: usize, raw: usize) -> Option<
    (usize, usize),
> {
    match v.drag_from {
        Some((from_list, row)) => if from_list == w {
            match slot(count, raw) {
                Some(s) => Some((row, s)),
                None => None,
            }
        } else {
            None
        },
        None => None,
    }
}

/// The place that the app accepts a row at; a negative answer is a refusal.
pub open spec fn accepted(answer: i64) -> Option<usize> {
    if answer >= 0 {
        Some(answer as usize)
    } else {
        None
    }
}

/// A row of one list is never dropped on another.
pub proof fn rows_stay_in_their_list(v: GtkView, a: u64, b: u64, row: usize, count: usize, raw: usize)
    requires
        v.drag_from == Some((a, row)),
        a != b,
    ensures
        dragged_over(v, b, count, raw) is None,
{
}

/// A row that is dropped lands on a row of its list.
pub proof fn a_slot_is_a_row(count: usize, raw: usize)
    ensures
        slot(count, raw) matches Some(s) ==> s < count,
{
}

impl Gtk {
    /// A list's cell shows a row.
    pub fn bind_cell(&mut self, cell: u64, row: usize)
        ensures
            final(self)@ == (GtkView {
                cell_rows: old(self)@.cell_rows.insert(cell, row),
                ..old(self)@
            }),
    {
        let ghost v = self@;
        self.cell_rows.put(cell, row);
        proof {
            assert(self@ =~= GtkView { cell_rows: v.cell_rows.insert(cell, row), ..v });
        }
    }

    /// A drag of a list's cell begins: the row it shows, where it shows one.
    pub fn begin_drag(&mut self, w: u64, cell: u64) -> (r: Option<usize>)
        ensures
            r == entry(old(self)@.cell_rows, cell),
            final(self)@ == (match entry(old(self)@.cell_rows, cell) {
                Some(row) => GtkView { drag_from: Some((w, row)), ..old(self)@ },
                None => old(self)@,
            }),
    {
        let row = match self.cell_rows.get(cell) {
            Some(row) => *row,
            None => {
                return None;
            },
        };
        let ghost v = self@;
        self.drag_from = Some((w, row));
        proof {
            assert(self@ =~= GtkView { drag_from: Some((w, row)), ..v });
        }
        Some(row)
    }

    /// The drag is over.
    pub fn end_drag(&mut self)
        ensures
            final(self)@ == (GtkView { drag_from: None, ..old(self)@ }),
    {
        let ghost v = self@;
        self.drag_from = None;
        proof {
            assert(self@ =~= GtkView { drag_from: None, ..v });
        }
    }

    /// The row that is dragged over a list of `count` rows and the place it is over, which the app
    /// is asked about. `raw` is the row that the pointer's height amounts to.
    pub fn drag_over(&self, w: u64, count: usize, raw: usize) -> (r: Option<(usize, usize)>)
        ensures
            r == dragged_over(self@, w, count, raw),
    {
        match self.drag_from {
            Some((from_list, row)) => {
                if from_list != w || count == 0 {
                    None
                } else if raw < count {
                    Some((row, raw))
                } else {
                    Some((row, count - 1))
                }
            },
            None => None,
        }
    }
}

/// The place that the app accepts a row at.
pub fn drop_answer(answer: i64) -> (r: Option<usize>)
    ensures
        r == accepted(answer),
{
    if answer >= 0 {
        Some(#[verifier::truncate] (answer as usize))
    } else {
        None
    }
}

/// A row was dropped at an accepted place: whether it is moved, after which the list is bound anew.
pub fn row_dropped(w: u64, from: usize, to: usize) -> (r: (bool, Vec<GtkAct>))
    ensures
        r.0 == (from != to),
        acts(r.1@) == (if from == to {
            Seq::<SpecAct>::empty()
        } else {
            seq![Act::Later { work: Later::ListResize(w) }]
        }),
{
    if from == to {
        (false, no_acts())
    } else {
        (true, one_act(Act::Later { work: Later::ListResize(w) }))
    }
}

/// What a selectable list reports of the place that is selected, which may be none.
pub fn row_selected(id: u64, place: Option<u32>) -> (out: Vec<GtkAct>)
    ensures
        acts(out@) == (match place {
            Some(i) => seq![
                Act::<Seq<char>, SpecEvent>::Emit {
                    to: Target::Node(id),
                    event: Event::SelectionChanged(i as i64),
                },
            ],
            None => Seq::empty(),
        }),
{
    match place {
        Some(i) => emit(Target::Node(id), Event::SelectionChanged(i as i64)),
        None => no_acts(),
    }
}

/// The token of the first cell among the widgets from `n` on.
pub open spec fn token_above(v: GtkView, above: Seq<u64>, n: int) -> Option<u64>
    decreases above.len() - n,
{
    if n < 0 || n >= above.len() {
        None
    } else if v.cell_tokens.contains_key(above[n]) {
        Some(v.cell_tokens[above[n]])
    } else {
        token_above(v, above, n + 1)
    }
}

impl Gtk {
    /// A tree's cell shows a token, or none.
    pub fn bind_token(&mut self, cell: u64, token: Option<u64>)
        ensures
            final(self)@ == (GtkView {
                cell_tokens: match token {
                    Some(t) => old(self)@.cell_tokens.insert(cell, t),
                    None => old(self)@.cell_tokens.remove(cell),
                },
                ..old(self)@
            }),
    {
        let ghost v = self@;
        match token {
            Some(t) => self.cell_tokens.put(cell, t),
            None => {
                self.cell_tokens.take(cell);
            },
        }
        proof {
            assert(self@ =~= GtkView {
                cell_tokens: match token {
                    Some(t) => v.cell_tokens.insert(cell, t),
                    None => v.cell_tokens.remove(cell),
                },
                ..v
            });
        }
    }

    /// The token of the row that a widget is on; `above` are the widgets from it upwards.
    pub fn token_at(&self, above: &Vec<u64>) -> (r: Option<u64>)
        ensures
            r == token_above(self@, above@, 0),
    {
        let mut i: usize = 0;
        while i < above.len()
            invariant
                i <= above.len(),
                token_above(self@, above@, 0) == token_above(self@, above@, i as int),
            decreases above.len() - i,
        {
            match self.cell_tokens.get(above[i]) {
                Some(t) => {
                    return Some(*t);
                },
                None => {},
            }
            i = i + 1;
        }
        None
    }
}

// ---- focus -------------------------------------------------------------------------------------

/// The calls that give a widget the focus or take it away: one that is not on the screen yet takes
/// it when it is, and one that does not hold it gives nothing away.
pub open spec fn focus_acts(w: u64, focused: bool, mapped: bool, holds: bool) -> Seq<SpecAct> {
    if focused {
        if mapped {
            seq![Act::GrabFocus { w }]
        } else {
            seq![Act::GrabOnMap { w }]
        }
    } else if holds {
        seq![Act::Unfocus { w }]
    } else {
        Seq::empty()
    }
}

/// Gives a widget the focus or takes it away. `mapped` is whether it is on the screen, `holds` is
/// whether it or what is in it has the focus.
pub fn focus(w: u64, focused: bool, mapped: bool, holds: bool) -> (out: Vec<GtkAct>)
    ensures
        acts(out@) == focus_acts(w, focused, mapped, holds),
{
    if focused {
        if mapped {
            one_act(Act::GrabFocus { w })
        } else {
            one_act(Act::GrabOnMap { w })
        }
    } else if holds {
        one_act(Act::Unfocus { w })
    } else {
        no_acts()
    }
}

/// A widget that does not hold the focus cannot take it from the one that does.
pub proof fn a_stale_release_blurs_nothing(w: u64, mapped: bool)
    ensures
        focus_acts(w, false, mapped, false) == Seq::<SpecAct>::empty(),
{
}

// ---- descriptions ------------------------------------------------------------------------------

/// How a widget is described to those who do not see it.
pub struct A11y {
    pub identifier: Option<String>,
    pub label: Option<String>,
    pub hint: Option<String>,
    pub value: Option<String>,
    pub hidden: bool,
}

/// The calls that describe a widget.
pub open spec fn a11y_acts(w: u64, a: A11y) -> Seq<SpecAct> {
    let named: Seq<SpecAct> = match a.identifier {
        Some(id) => seq![Act::Name { w, name: id@ }],
        None => Seq::empty(),
    };
    let told: Seq<SpecAct> = if a.label is Some || a.hint is Some || a.value is Some {
        seq![
            Act::Accessible {
                w,
                label: maybe(a.label),
                hint: maybe(a.hint),
                value: maybe(a.value),
            },
        ]
    } else {
        Seq::empty()
    };
    let hidden: Seq<SpecAct> = if a.hidden {
        seq![Act::Hidden { w }]
    } else {
        Seq::empty()
    };
    named + told + hidden
}

/// Describes a widget.
pub fn set_a11y(w: u64, a: A11y) -> (out: Vec<GtkAct>)
    ensures
        acts(out@) == a11y_acts(w, a),
{
    let ghost given = a;
    let mut out = no_acts();
    match a.identifier {
        Some(name) => act(&mut out, Act::Name { w, name }),
        None => {},
    }
    if a.label.is_some() || a.hint.is_some() || a.value.is_some() {
        act(&mut out, Act::Accessible { w, label: a.label, hint: a.hint, value: a.value });
    }
    if a.hidden {
        act(&mut out, Act::Hidden { w });
    }
    proof {
        assert(acts(out@) =~= a11y_acts(w, given));
    }
    out
}

/// Sets the pointer's shape over a widget, by its name; none for the usual one.
pub fn set_cursor(w: u64, name: Option<String>) -> (out: Vec<GtkAct>)
    ensures
        acts(out@) == seq![Act::<Seq<char>, SpecEvent>::Cursor { w, name: maybe(name) }],
{
    one_act(Act::Cursor { w, name })
}

/// How far the backend supports a capability.
pub open spec fn support(cap: Cap) -> Support {
    match cap {
        Cap::Cursor | Cap::FontList | Cap::TextRuns | Cap::TextLinks | Cap::Snapshot
        | Cap::NavSplit | Cap::NavTabs | Cap::Dialogs | Cap::FileDialogs | Cap::TextEditable
        | Cap::ListReorder | Cap::Tree | Cap::MultiWindow | Cap::Toolbar | Cap::AppMenu
        | Cap::Appearance | Cap::BaselineAlignment | Cap::Inspector => Support::Native,
        Cap::Cover => Support::Emulated,
        _ => Support::Unsupported,
    }
}

pub fn capability(cap: Cap) -> (s: Support)
    ensures
        s == support(cap),
{
    match cap {
        Cap::Cursor | Cap::FontList | Cap::TextRuns | Cap::TextLinks | Cap::Snapshot
        | Cap::NavSplit | Cap::NavTabs | Cap::Dialogs | Cap::FileDialogs | Cap::TextEditable
        | Cap::ListReorder | Cap::Tree | Cap::MultiWindow | Cap::Toolbar | Cap::AppMenu
        | Cap::Appearance | Cap::BaselineAlignment | Cap::Inspector => Support::Native,
        Cap::Cover => Support::Emulated,
        _ => Support::Unsupported,
    }
}

} // verus!
