//! Windows: their room, whether the app is the active one, and whether what is on the screen is
//! up to date.
use crate::gtk::act::{act, acts, emit, no_acts, one_act, Act, Extent, GtkAct, Later, SpecAct};
use crate::gtk::state::{Gtk, GtkView};
use crate::keys::Pairs;
use crate::model::{Event, Lifecycle, SpecEvent, Target};
use crate::text::{owned, same};
use vstd::prelude::*;

verus! {

// ---- room --------------------------------------------------------------------------------------

/// The height of a header bar that has not been measured yet.
pub const HEADER_H: i32 = 47;

/// What a header bar leaves of a window's height.
pub open spec fn content_height(height: i32, header: i32) -> i32 {
    let bar = if header > 0 {
        header as int
    } else {
        HEADER_H as int
    };
    if height - bar > 0 {
        (height - bar) as i32
    } else {
        0
    }
}

pub fn height_left(height: i32, header: i32) -> (h: i32)
    ensures
        h == content_height(height, header),
{
    let bar: i64 = if header > 0 {
        header as i64
    } else {
        HEADER_H as i64
    };
    let left: i64 = height as i64 - bar;
    if left > 0 {
        left as i32
    } else {
        0
    }
}

/// A window's content never has less than no room, and never more than the window.
pub proof fn the_content_fits_its_window(height: i32, header: i32)
    requires
        height >= 0,
    ensures
        0 <= content_height(height, header) <= height,
{
}

/// The first `n` presented covers, sized to the content and told.
pub open spec fn covers_acts(covers: Seq<(u64, Target)>, width: i32, height: i32, n: int) -> Seq<SpecAct>
    decreases n,
{
    if n <= 0 {
        Seq::empty()
    } else {
        covers_acts(covers, width, height, n - 1).push(
            Act::SizeRequest { w: covers[n - 1].0, width, height },
        ).push(
            Act::Framed {
                to: covers[n - 1].1,
                width: Extent::Px(width),
                height,
            },
        )
    }
}

/// The calls for a window whose size changed; the covers on the first window follow it.
pub open spec fn resized_acts(
    covers: Seq<(u64, Target)>,
    target: Option<u64>,
    width: i32,
    height: i32,
    header: i32,
) -> Seq<SpecAct> {
    let room = content_height(height, header);
    match target {
        Some(node) => seq![Act::Resized { to: Target::Node(node), width, height: room }],
        None => {
            let window: Seq<SpecAct> = seq![
                Act::Resized { to: Target::Window, width, height: room },
            ];
            window + covers_acts(covers, width, room, covers.len() as int)
        },
    }
}

/// A window's size changed: the first one's where `target` is none, else that of the window with
/// this app node.
pub fn report_content_size(
    covers: &Vec<(u64, Target)>,
    target: Option<u64>,
    width: i32,
    height: i32,
    header: i32,
) -> (out: Vec<GtkAct>)
    ensures
        acts(out@) == resized_acts(covers@, target, width, height, header),
{
    let room = height_left(height, header);
    match target {
        Some(node) => one_act(Act::Resized { to: Target::Node(node), width, height: room }),
        None => {
            let mut out = one_act(Act::Resized { to: Target::Window, width, height: room });
            let ghost window = acts(out@);
            let mut i: usize = 0;
            proof {
                assert(window + Seq::<SpecAct>::empty() =~= window);
            }
            while i < covers.len()
                invariant
                    i <= covers.len(),
                    acts(out@) == window + covers_acts(covers@, width, room, i as int),
                decreases covers.len() - i,
            {
                act(&mut out, Act::SizeRequest { w: covers[i].0, width, height: room });
                act(
                    &mut out,
                    Act::Framed {
                        to: covers[i].1,
                        width: Extent::Px(width),
                        height: room,
                    },
                );
                proof {
                    assert(acts(out@) =~= window + covers_acts(covers@, width, room, i + 1));
                }
                i = i + 1;
            }
            out
        },
    }
}

// ---- activation --------------------------------------------------------------------------------

/// The calls for a change of which window is active, given whether one was and whether one is.
pub open spec fn activation_acts(was: bool, any: bool) -> Seq<SpecAct> {
    if was == any {
        Seq::empty()
    } else {
        seq![
            Act::Emit {
                to: Target::Window,
                event: Event::Lifecycle(
                    if any {
                        Lifecycle::DidBecomeActive
                    } else {
                        Lifecycle::WillResignActive
                    },
                ),
            },
        ]
    }
}

/// Which window is active changed; `any` is whether one of the app's is.
pub fn note_activation_changed(active: &mut bool, any: bool) -> (out: Vec<GtkAct>)
    ensures
        *final(active) == any,
        acts(out@) == activation_acts(*old(active), any),
{
    let was = *active;
    *active = any;
    if was == any {
        return no_acts();
    }
    emit(
        Target::Window,
        Event::Lifecycle(
            if any {
                Lifecycle::DidBecomeActive
            } else {
                Lifecycle::WillResignActive
            },
        ),
    )
}

/// Focus that moves between two of the app's windows is no news of the app.
pub proof fn moving_between_windows_is_silent()
    ensures
        activation_acts(true, true) == Seq::<SpecAct>::empty(),
        activation_acts(false, false) == Seq::<SpecAct>::empty(),
{
}

/// The phases that a desktop app goes through.
pub open spec fn universal(phase: Lifecycle) -> bool {
    match phase {
        Lifecycle::WillLaunch | Lifecycle::DidLaunch | Lifecycle::DidBecomeActive
        | Lifecycle::WillResignActive | Lifecycle::WillTerminate => true,
        Lifecycle::DidEnterBackground | Lifecycle::WillEnterForeground
        | Lifecycle::MemoryWarning => false,
    }
}

/// Whether a phase is delivered: launch, activation and termination are; a desktop app has no
/// background and no memory warning.
pub fn lifecycle_supported(phase: Lifecycle) -> (b: bool)
    ensures
        b == universal(phase),
{
    match phase {
        Lifecycle::WillLaunch | Lifecycle::DidLaunch | Lifecycle::DidBecomeActive
        | Lifecycle::WillResignActive | Lifecycle::WillTerminate => true,
        Lifecycle::DidEnterBackground | Lifecycle::WillEnterForeground
        | Lifecycle::MemoryWarning => false,
    }
}

// ---- settling ----------------------------------------------------------------------------------

/// How many frames have been painted, and the count that a wait ends at.
#[derive(Clone, Copy, Debug, PartialEq, Eq, Structural)]
pub struct Settle {
    pub count: u64,
    pub target: Option<u64>,
}

impl View for Settle {
    type V = Settle;

    open spec fn view(&self) -> Settle {
        *self
    }
}

/// The count after one more; it starts over at the end.
pub open spec fn next_count(n: u64) -> u64 {
    if n == u64::MAX {
        0
    } else {
        (n + 1) as u64
    }
}

/// After a frame was painted.
pub open spec fn frame_painted(s: Settle) -> Settle {
    Settle { count: next_count(s.count), ..s }
}

/// Whether the screen is up to date: where a wait has ended.
pub open spec fn settled(s: Settle) -> bool {
    match s.target {
        Some(t) => s.count >= t,
        None => false,
    }
}

/// After a poll: a wait that ended is over, and without a wait one begins.
pub open spec fn polled(s: Settle) -> Settle {
    match s.target {
        Some(t) => if s.count >= t {
            Settle { target: None, ..s }
        } else {
            s
        },
        None => Settle { target: Some(next_count(s.count)), ..s },
    }
}

/// The first poll of a wait says no, and so does every other until a frame has been painted
/// since; then a poll says yes, and the wait is over.
pub proof fn a_picture_waits_for_a_paint(s: Settle)
    requires
        s.target is None,
        s.count < u64::MAX,
    ensures
        !settled(s),
        polled(polled(s)) == polled(s),
        !settled(polled(s)),
        settled(frame_painted(polled(s))),
        polled(frame_painted(polled(s))).target is None,
{
}

impl Settle {
    /// Nothing painted, nothing waited for.
    pub fn new() -> (s: Settle)
        ensures
            s == (Settle { count: 0, target: None }),
    {
        Settle { count: 0, target: None }
    }

    /// A frame was painted.
    pub fn painted(&mut self)
        ensures
            *final(self) == frame_painted(*old(self)),
    {
        self.count = self.count.wrapping_add(1);
    }

    /// Whether the screen is up to date. A window that cannot paint has nothing to wait for; a
    /// wait that begins asks for a paint.
    pub fn ui_idle(&mut self, root: Option<u64>) -> (r: (bool, Vec<GtkAct>))
        ensures
            match root {
                None => r.0 && *final(self) == *old(self) && acts(r.1@) == Seq::<SpecAct>::empty(),
                Some(w) => r.0 == settled(*old(self)) && *final(self) == polled(*old(self)) && acts(
                    r.1@,
                ) == (if old(self).target is None {
                    seq![Act::<Seq<char>, SpecEvent>::RequestPaint { w }]
                } else {
                    Seq::empty()
                }),
            },
    {
        let w = match root {
            Some(w) => w,
            None => {
                return (true, no_acts());
            },
        };
        match self.target {
            Some(t) => {
                if self.count >= t {
                    self.target = None;
                    (true, no_acts())
                } else {
                    (false, no_acts())
                }
            },
            None => {
                self.target = Some(self.count.wrapping_add(1));
                (false, one_act(Act::RequestPaint { w }))
            },
        }
    }
}

// ---- which window ------------------------------------------------------------------------------

/// The window that holds this content.
pub open spec fn window_of(windows: Pairs, content: u64, n: int) -> Option<u64>
    decreases windows.len() - n,
{
    if n < 0 || n >= windows.len() {
        None
    } else if windows[n].1 == content {
        Some(windows[n].0)
    } else {
        window_of(windows, content, n + 1)
    }
}

pub fn find_window(windows: &Vec<(u64, u64)>, content: u64) -> (r: Option<u64>)
    ensures
        r == window_of(windows@, content, 0),
{
    let mut i: usize = 0;
    while i < windows.len()
        invariant
            i <= windows.len(),
            window_of(windows@, content, 0) == window_of(windows@, content, i as int),
        decreases windows.len() - i,
    {
        if windows[i].1 == content {
            return Some(windows[i].0);
        }
        i = i + 1;
    }
    None
}

/// The content that a dialog goes on: that of the active further window, else of the first one.
pub open spec fn dialog_parent(windows: Pairs, active: Seq<bool>, n: int, root: Option<u64>) -> Option<
    u64,
>
    decreases windows.len() - n,
{
    if n < 0 || n >= windows.len() {
        root
    } else if n < active.len() && active[n] {
        Some(windows[n].1)
    } else {
        dialog_parent(windows, active, n + 1, root)
    }
}

/// The content that a dialog goes on; `active` says of each further window whether it is.
pub fn find_parent(windows: &Vec<(u64, u64)>, active: &Vec<bool>, root: Option<u64>) -> (r: Option<
    u64,
>)
    ensures
        r == dialog_parent(windows@, active@, 0, root),
{
    let mut i: usize = 0;
    while i < windows.len()
        invariant
            i <= windows.len(),
            dialog_parent(windows@, active@, 0, root) == dialog_parent(
                windows@,
                active@,
                i as int,
                root,
            ),
        decreases windows.len() - i,
    {
        if i < active.len() && active[i] {
            return Some(windows[i].1);
        }
        i = i + 1;
    }
    root
}

// ---- windows that come and go ------------------------------------------------------------------

/// The calls that show a further window. One for the preferences keeps its size; and where the
/// app's menu is installed the window can act on it before it is shown, or the menu's items would
/// be dead while this window has the focus.
pub open spec fn opened_acts(v: GtkView, window: u64, preferences: bool) -> Seq<SpecAct> {
    let kept: Seq<SpecAct> = if preferences {
        seq![Act::KeepSize { w: window }]
    } else {
        Seq::empty()
    };
    let acting: Seq<SpecAct> = if v.menu_actions {
        seq![Act::Actions { w: window }]
    } else {
        Seq::empty()
    };
    (kept + acting).push(Act::PresentWindow { w: window })
}

impl Gtk {
    /// The first window is there, with its content.
    pub fn start(&mut self, content: u64)
        ensures
            final(self)@ == (GtkView { root: Some(content), ..old(self)@ }),
    {
        let ghost v = self@;
        self.root = Some(content);
        proof {
            assert(self@ =~= GtkView { root: Some(content), ..v });
        }
    }

    /// Shows a further window with its content, once the app runs; whether it does.
    pub fn open_window(
        &mut self,
        running: bool,
        window: u64,
        content: u64,
        preferences: bool,
    ) -> (r: (bool, Vec<GtkAct>))
        ensures
            r.0 == running,
            final(self)@ == (if running {
                GtkView { windows: old(self)@.windows.push((window, content)), ..old(self)@ }
            } else {
                old(self)@
            }),
            acts(r.1@) == (if running {
                opened_acts(old(self)@, window, preferences)
            } else {
                Seq::empty()
            }),
    {
        let ghost v = self@;
        if !running {
            return (false, no_acts());
        }
        self.windows.push((window, content));
        let mut out = no_acts();
        if preferences {
            act(&mut out, Act::KeepSize { w: window });
        }
        if self.menu_actions {
            act(&mut out, Act::Actions { w: window });
        }
        act(&mut out, Act::PresentWindow { w: window });
        proof {
            assert(self@ =~= GtkView { windows: v.windows.push((window, content)), ..v });
            assert(acts(out@) =~= opened_acts(v, window, preferences));
        }
        (true, out)
    }

    /// Closes the window with this content.
    pub fn close_window(&self, content: u64) -> (out: Vec<GtkAct>)
        ensures
            acts(out@) == (match window_of(self@.windows, content, 0) {
                Some(w) => seq![Act::<Seq<char>, SpecEvent>::CloseWindow { w }],
                None => Seq::empty(),
            }),
    {
        match find_window(&self.windows, content) {
            Some(w) => one_act(Act::CloseWindow { w }),
            None => no_acts(),
        }
    }

    /// Brings the window with this content to the front.
    pub fn focus_window(&self, content: u64) -> (out: Vec<GtkAct>)
        ensures
            acts(out@) == (match window_of(self@.windows, content, 0) {
                Some(w) => seq![Act::<Seq<char>, SpecEvent>::PresentWindow { w }],
                None => Seq::empty(),
            }),
    {
        match find_window(&self.windows, content) {
            Some(w) => one_act(Act::PresentWindow { w }),
            None => no_acts(),
        }
    }

    /// Gives the window with this content a title; `first` is the first window.
    pub fn set_window_title(&self, content: u64, title: &str, first: Option<u64>) -> (out: Vec<
        GtkAct,
    >)
        ensures
            acts(out@) == (match titled(self@, content, first) {
                Some(w) => seq![Act::<Seq<char>, SpecEvent>::Title { w, title: title@ }],
                None => Seq::empty(),
            }),
    {
        match find_window(&self.windows, content) {
            Some(w) => one_act(Act::Title { w, title: owned(title) }),
            None => {
                let ours = match self.root {
                    Some(r) => r == content,
                    None => false,
                };
                if ours {
                    match first {
                        Some(w) => one_act(Act::Title { w, title: owned(title) }),
                        None => no_acts(),
                    }
                } else {
                    no_acts()
                }
            },
        }
    }

    /// A window's size changed.
    pub fn window_sized(&self, target: Option<u64>, width: i32, height: i32, header: i32) -> (out:
        Vec<GtkAct>)
        ensures
            acts(out@) == resized_acts(self@.covers, target, width, height, header),
    {
        report_content_size(&self.covers, target, width, height, header)
    }

    /// Which window is active changed, and settled; `any` is whether one of the app's is.
    pub fn activation_settled(&mut self, any: bool) -> (out: Vec<GtkAct>)
        ensures
            final(self)@ == (GtkView { active: any, ..old(self)@ }),
            acts(out@) == activation_acts(old(self)@.active, any),
    {
        let ghost v = self@;
        let out = note_activation_changed(&mut self.active, any);
        proof {
            assert(self@ =~= GtkView { active: any, ..v });
        }
        out
    }

    /// Whether the screen is up to date; `clocked` is whether the first window can paint.
    pub fn ui_idle(&mut self, clocked: bool) -> (r: (bool, Vec<GtkAct>))
        ensures
            match old(self)@.root {
                Some(w) => if clocked {
                    &&& r.0 == settled(old(self)@.settle)
                    &&& final(self)@ == (GtkView { settle: polled(old(self)@.settle), ..old(self)@ })
                    &&& acts(r.1@) == (if old(self)@.settle.target is None {
                        seq![Act::<Seq<char>, SpecEvent>::RequestPaint { w }]
                    } else {
                        Seq::empty()
                    })
                } else {
                    r.0 && final(self)@ == old(self)@ && acts(r.1@) == Seq::<SpecAct>::empty()
                },
                None => r.0 && final(self)@ == old(self)@ && acts(r.1@) == Seq::<SpecAct>::empty(),
            },
    {
        let ghost v = self@;
        let painter: Option<u64> = if clocked {
            self.root
        } else {
            None
        };
        let r = self.settle.ui_idle(painter);
        proof {
            match v.root {
                Some(w) => if clocked {
                    assert(self@ =~= GtkView { settle: polled(v.settle), ..v });
                } else {
                    assert(self@ =~= v);
                },
                None => {
                    assert(self@ =~= v);
                },
            }
        }
        r
    }
}

/// The window that a title goes to: the further one with this content, or the first one.
pub open spec fn titled(v: GtkView, content: u64, first: Option<u64>) -> Option<u64> {
    match window_of(v.windows, content, 0) {
        Some(w) => Some(w),
        None => if v.root == Some(content) {
            first
        } else {
            None
        },
    }
}

/// A further window was closed by the user.
pub fn window_closed(id: u64) -> (out: Vec<GtkAct>)
    ensures
        acts(out@) == seq![
            Act::<Seq<char>, SpecEvent>::Emit { to: Target::Node(id), event: Event::WindowClosed },
        ],
{
    emit(Target::Node(id), Event::WindowClosed)
}

/// A window became active, or no longer is. A further one tells its node; what it means for the app
/// is settled when the loop is idle.
pub fn window_active(id: Option<u64>, active: bool) -> (out: Vec<GtkAct>)
    ensures
        acts(out@) == (match id {
            Some(id) => seq![
                Act::<Seq<char>, SpecEvent>::Emit {
                    to: Target::Node(id),
                    event: Event::WindowFocused(active),
                },
                Act::Later { work: Later::Activation },
            ],
            None => seq![Act::Later { work: Later::Activation }],
        }),
{
    let mut out = no_acts();
    match id {
        Some(id) => act(
            &mut out,
            Act::Emit { to: Target::Node(id), event: Event::WindowFocused(active) },
        ),
        None => {},
    }
    act(&mut out, Act::Later { work: Later::Activation });
    proof {
        assert(acts(out@) =~= (match id {
            Some(id) => seq![
                Act::<Seq<char>, SpecEvent>::Emit {
                    to: Target::Node(id),
                    event: Event::WindowFocused(active),
                },
                Act::Later { work: Later::Activation },
            ],
            None => seq![Act::Later { work: Later::Activation }],
        }));
    }
    out
}

// ---- the app's menu ----------------------------------------------------------------------------

/// The actions of the menu, for the first `n` further windows.
pub open spec fn actions_acts(windows: Pairs, n: int) -> Seq<SpecAct>
    decreases n,
{
    if n <= 0 {
        Seq::empty()
    } else {
        actions_acts(windows, n - 1).push(Act::Actions { w: windows[n - 1].0 })
    }
}

/// The calls that install the app's menu: every window can act on it, and it is shown in the bar of
/// the screen where there is one, else under the header of the first window, in place of the bar
/// that was there.
pub open spec fn app_menu_acts(
    v: GtkView,
    first: u64,
    global: bool,
    bars: Option<u64>,
    bar: u64,
) -> Seq<SpecAct> {
    let own: Seq<SpecAct> = seq![Act::Actions { w: first }];
    let all = (own + actions_acts(v.windows, v.windows.len() as int)).push(
        Act::Accels { w: first },
    );
    if global {
        all.push(Act::GlobalMenu { w: first })
    } else {
        match bars {
            Some(w) => match v.menu_bar {
                Some(former) => all.push(Act::DropBar { w, bar: former }).push(
                    Act::AddBar { w, bar },
                ),
                None => all.push(Act::AddBar { w, bar }),
            },
            None => all,
        }
    }
}

/// The memory after the app's menu was installed.
pub open spec fn menu_installed(v: GtkView, global: bool, bars: Option<u64>, bar: u64) -> GtkView {
    GtkView {
        menu_bar: if !global && bars is Some {
            Some(bar)
        } else {
            v.menu_bar
        },
        menu_actions: true,
        ..v
    }
}

proof fn actions_of(windows: Pairs, n: int, i: int)
    requires
        0 <= i < n <= windows.len(),
    ensures
        actions_acts(windows, n).contains(Act::Actions { w: windows[i].0 }),
    decreases n,
{
    let all = actions_acts(windows, n);
    let before = actions_acts(windows, n - 1);
    if i == n - 1 {
        assert(all[all.len() - 1] == (Act::<Seq<char>, SpecEvent>::Actions { w: windows[i].0 }));
    } else {
        actions_of(windows, n - 1, i);
        let a: SpecAct = Act::Actions { w: windows[i].0 };
        let k = choose|k: int| 0 <= k < before.len() && before[k] == a;
        assert(all[k] == a);
    }
}

/// Installing the app's menu lets every window that is open act on it, the first one and the further
/// ones, whichever has the focus.
pub proof fn every_open_window_has_the_actions(
    v: GtkView,
    first: u64,
    global: bool,
    bars: Option<u64>,
    bar: u64,
    i: int,
)
    requires
        0 <= i < v.windows.len(),
    ensures
        app_menu_acts(v, first, global, bars, bar).contains(Act::Actions { w: first }),
        app_menu_acts(v, first, global, bars, bar).contains(
            Act::Actions { w: v.windows[i].0 },
        ),
{
    let own: SpecAct = Act::Actions { w: first };
    assert(app_menu_acts(v, first, global, bars, bar)[0] == own);
    let n = v.windows.len() as int;
    actions_of(v.windows, n, i);
    let a: SpecAct = Act::Actions { w: v.windows[i].0 };
    let some = actions_acts(v.windows, n);
    let k = choose|k: int| 0 <= k < some.len() && some[k] == a;
    assert(app_menu_acts(v, first, global, bars, bar)[k + 1] == a);
}

/// A window that is opened after the app's menu was installed can act on it from the moment it is
/// shown.
pub proof fn a_later_window_has_the_actions(
    v: GtkView,
    global: bool,
    bars: Option<u64>,
    bar: u64,
    window: u64,
    preferences: bool,
)
    ensures
        ({
            let out = opened_acts(menu_installed(v, global, bars, bar), window, preferences);
            &&& out.len() >= 2
            &&& out[out.len() - 2] == (Act::<Seq<char>, SpecEvent>::Actions { w: window })
            &&& out[out.len() - 1] == (Act::<Seq<char>, SpecEvent>::PresentWindow { w: window })
        }),
{
}

impl Gtk {
    /// Installs the app's menu. `first` is the first window, `global` is whether the screen has a
    /// bar for it, `bars` is what holds the first window's bars and `bar` the bar made for it.
    pub fn set_app_menu(
        &mut self,
        first: Option<u64>,
        global: bool,
        bars: Option<u64>,
        bar: u64,
    ) -> (out: Vec<GtkAct>)
        ensures
            final(self)@ == (match first {
                Some(_) => menu_installed(old(self)@, global, bars, bar),
                None => old(self)@,
            }),
            acts(out@) == (match first {
                Some(w) => app_menu_acts(old(self)@, w, global, bars, bar),
                None => Seq::<SpecAct>::empty(),
            }),
    {
        let ghost v = self@;
        let mut out = no_acts();
        let w = match first {
            Some(w) => w,
            None => {
                return out;
            },
        };
        self.menu_actions = true;
        act(&mut out, Act::Actions { w });
        let ghost own = acts(out@);
        let mut i: usize = 0;
        proof {
            assert(own =~= own + actions_acts(v.windows, 0));
        }
        while i < self.windows.len()
            invariant
                i <= self.windows.len(),
                self.windows@ == v.windows,
                self.menu_actions,
                acts(out@) == own + actions_acts(v.windows, i as int),
            decreases self.windows.len() - i,
        {
            act(&mut out, Act::Actions { w: self.windows[i].0 });
            proof {
                assert(acts(out@) =~= own + actions_acts(v.windows, i + 1));
            }
            i = i + 1;
        }
        act(&mut out, Act::Accels { w });
        if global {
            act(&mut out, Act::GlobalMenu { w });
        } else {
            match bars {
                Some(b) => {
                    match self.menu_bar {
                        Some(former) => act(&mut out, Act::DropBar { w: b, bar: former }),
                        None => {},
                    }
                    act(&mut out, Act::AddBar { w: b, bar });
                    self.menu_bar = Some(bar);
                },
                None => {},
            }
        }
        proof {
            assert(self@ =~= menu_installed(v, global, bars, bar));
            assert(acts(out@) =~= app_menu_acts(v, w, global, bars, bar));
        }
        out
    }
}

// ---- how the app starts ------------------------------------------------------------------------

/// The color scheme that a theme's name forces: dark or light; any other name follows the system.
pub open spec fn forced(theme: Seq<char>) -> Option<bool> {
    if theme == "dark"@ {
        Some(true)
    } else if theme == "light"@ {
        Some(false)
    } else {
        None
    }
}

pub fn forced_dark(theme: &str) -> (r: Option<bool>)
    ensures
        r == forced(theme@),
{
    if same(theme, "dark") {
        Some(true)
    } else if same(theme, "light") {
        Some(false)
    } else {
        None
    }
}

/// The app's id: the one given, where it is a valid one.
pub fn app_id(given: Option<String>, valid: bool) -> (id: String)
    ensures
        id@ == (match given {
            Some(s) => if valid {
                s@
            } else {
                "dev.daybrite.day.app"@
            },
            None => "dev.daybrite.day.app"@,
        }),
{
    match given {
        Some(s) => if valid {
            s
        } else {
            owned("dev.daybrite.day.app")
        },
        None => owned("dev.daybrite.day.app"),
    }
}

} // verus!
