//! What this side tells the widgets to do, one call after the other. A widget is known by the
//! number of its address.
use crate::gtk::menu::maybe;
use crate::model::{AnimSpec, AppEvent, ContentMode, GestureKind, Size, SpecEvent, Target};
use crate::num::Num;
use vstd::prelude::*;

verus! {

/// Work that waits for the loop to be idle.
#[derive(Clone, Copy, Debug, PartialEq, Eq, Structural)]
pub enum Later {
    NavReport(u64),
    InspectorReport(u64),
    ListResize(u64),
    ListEnd(u64),
    ListRow(u64, usize),
    TreeRebuild(u64),
    TreeExpand(u64),
    TreeSelect(u64),
    TreeReveal(u64, u64),
    Picker { req: u64, save: bool },
    Activation,
}

/// The signals a widget reports.
#[derive(Clone, Copy, Debug, PartialEq, Eq, Structural)]
pub enum Signal {
    Clicked,
    Active,
    Value,
    Settled,
    Text,
    Activate,
    Focus,
    Link,
    RowSelected,
    SidebarShown,
    InspectorShown,
    Position,
    Popped,
    Key,
    Selected,
    Row,
    Reorder,
}

/// Which way a scroller scrolls: one way or the other.
#[derive(Clone, Copy, Debug, PartialEq, Eq, Structural)]
pub enum Policy {
    Vertical,
    Horizontal,
}

/// How the lines of a text stand to each other.
#[derive(Clone, Copy, Debug, PartialEq, Eq, Structural)]
pub enum Justification {
    Left,
    Center,
    Right,
}

/// How far a value may be off and still count as there: a thousandth, or a ten-thousandth.
#[derive(Clone, Copy, Debug, PartialEq, Eq, Structural)]
pub enum Slack {
    Thousandth,
    TenThousandth,
}

/// A width: so many pixels, a width that was given, or what a width leaves of so many pixels,
/// nothing at least.
#[derive(Clone, Copy, Debug, PartialEq, Eq, Structural)]
pub enum Extent {
    Px(i32),
    Given(Num),
    Rest(i32, Num),
}

/// A transform, and whether it is the one that changes nothing.
#[derive(Clone, Copy, Debug, PartialEq, Eq, Structural)]
pub struct Transform {
    pub tx: Num,
    pub ty: Num,
    pub sx: Num,
    pub sy: Num,
    pub rotate_deg: Num,
    pub anchor_x: Num,
    pub anchor_y: Num,
    pub identity: bool,
}

impl View for Transform {
    type V = Transform;

    open spec fn view(&self) -> Transform {
        *self
    }
}

/// A call on a widget, or an event for the app. `S` holds text and `E` an event: `String` and
/// [`AppEvent`] where code runs, their models in contracts.
#[derive(Debug, PartialEq)]
#[allow(inconsistent_fields)]
pub enum Act<S, E> {
    /// Emits an event.
    Emit { to: Target, event: E },
    /// Puts work off to when the loop is idle.
    Later { work: Later },
    /// Tells an app node the room it has, in pixels.
    Framed { to: Target, width: Extent, height: i32 },
    /// Tells the app that a window has this room, in pixels.
    Resized { to: Target, width: i32, height: i32 },
    /// Reports that a piece of this kind is shown as a placeholder.
    Report { kind: S },
    /// Has a widget's signal reported under an app node.
    Wire { w: u64, signal: Signal, id: u64 },
    Text { w: u64, text: S },
    /// Gives a label its markup: the span, the markup of its runs, the end of the span.
    Rich { w: u64, open: S },
    /// Gives a label its attributes.
    Attrs { w: u64, family: Option<S>, size: i32, weight: u32, italic: bool, tabular: bool, color: Option<(u16, u16, u16)>, alpha: Option<u16> },
    /// Takes a label's attributes away.
    NoAttrs { w: u64 },
    AddClass { w: u64, class: S },
    RemoveClass { w: u64, class: S },
    /// Adds a style sheet to the display.
    Css { css: S },
    /// Adds an empty style sheet to the display, kept for a widget.
    NewSurface { w: u64 },
    /// Fills the style sheet kept for a widget.
    SurfaceCss { w: u64, css: S },
    /// Forgets what other modules keep of a widget.
    Sweep { w: u64 },
    /// Takes the style sheet kept for a widget off the display.
    DropSurface { w: u64 },
    Clip { w: u64 },
    /// Places a label's block of text across its room, from nothing at the left to one at the right.
    AlignAcross { w: u64, at: Num },
    /// Aligns the wrapped lines of a label against each other.
    Justify { w: u64, lines: Justification },
    /// Places a label's block of text down its room, from nothing at the top to one at the bottom.
    AlignDown { w: u64, at: Num },
    /// Wraps a label between words and characters, or cuts it short with an ellipsis.
    Wrap { w: u64, on: bool },
    Sensitive { w: u64, on: bool },
    Active { w: u64, on: bool },
    /// Gives a slider its range; without a step it has a thousand.
    Range { w: u64, min: Num, max: Num, step: Option<Num> },
    Value { w: u64, value: Num },
    /// Sets a value, unless it is there already but for the slack.
    NearValue { w: u64, value: Num, slack: Slack },
    EntryText { w: u64, text: S },
    Placeholder { w: u64, text: S },
    Fraction { w: u64, value: Num },
    Spin { w: u64 },
    Policy { w: u64, policy: Policy },
    SetChild { w: u64, child: u64 },
    Append { w: u64, child: u64 },
    /// Puts a child at a fixed container's origin.
    Put { w: u64, child: u64 },
    /// Takes a child out of a fixed container.
    Take { w: u64, child: u64 },
    StackRemove { w: u64, child: u64 },
    Visible { w: u64, on: bool },
    /// Asks for a size, rounded.
    SizeTo { w: u64, width: Num, height: Num },
    SizeRequest { w: u64, width: i32, height: i32 },
    MoveTo { w: u64, child: u64, x: Num, y: Num },
    /// Places a child at its origin under a transform.
    Shape { w: u64, child: u64, origin: (Num, Num), transform: Transform, size: Size },
    /// Animates a child's transform.
    Slide { w: u64, child: u64, from: Option<Transform>, to: Transform, size: Size, anim: AnimSpec },
    Opacity { w: u64, value: Num },
    /// Sets an opacity and animates up to it.
    Fade { w: u64, to: Num, anim: AnimSpec },
    StopFade { w: u64 },
    StopSlide { w: u64 },
    Focusable { w: u64 },
    Fit { w: u64, mode: ContentMode },
    /// Draws a picture in one color.
    Tinted { w: u64, source: S, tint: (u8, u8, u8) },
    /// Loads a picture, from the app's resources where it is among them, else from its file.
    Picture { w: u64, source: S },
    /// Loads a picture from its file.
    PictureFile { w: u64, source: S },
    /// Selects a row, or none, without reporting it.
    SelectRow { w: u64, row: Option<usize> },
    ClearRows { w: u64 },
    /// Adds a row to a list: its text, between a glyph in front and a badge and a glyph behind.
    Row { w: u64, text: S, icon: Option<S>, tint: Option<(u8, u8, u8)>, badge: Option<S>, badge_icon: Option<S>, badge_tint: Option<(u8, u8, u8)> },
    /// Puts a header over a row.
    RowHeader { w: u64, row: usize, title: S, top: u32 },
    /// Gives a row its context menu.
    RowMenu { w: u64, row: usize },
    /// Frees the context menus of a list's rows.
    UnparentRows { w: u64 },
    /// Wraps a child in a page; a loose one may be given less room than it asks for.
    NewPage { page: u64, child: u64, title: S, loose: bool },
    Sidebar { w: u64, page: Option<u64> },
    Content { w: u64, page: Option<u64> },
    ShowSidebar { w: u64, on: bool },
    /// Shows a split's sidebar where it is hidden, and hides it where it shows.
    FlipSidebar { w: u64 },
    /// Fixes a sidebar's width; a pinned one is measured in pixels.
    SidebarWidth { w: u64, width: Num, pinned: bool },
    SidebarAtEnd { w: u64, on: bool },
    /// Shows or hides a sidebar at once and without reporting it.
    StillSidebar { w: u64, on: bool },
    PanedStart { w: u64, page: u64 },
    PanedEnd { w: u64, page: Option<u64> },
    FlipStart { w: u64 },
    PanedPosition { w: u64, position: Num },
    NavPush { w: u64, page: u64 },
    NavPop { w: u64 },
    CanPop { page: u64, on: bool },
    StackAdd { w: u64, page: u64, name: S },
    /// Shows a page, unless another one shows.
    StackShowFirst { w: u64, page: u64 },
    ClearBar { w: u64 },
    /// Gives a toggle a glyph in front of its text.
    ToggleGlyph { w: u64, name: S, text: S },
    /// Shows the page of this name, where there is one.
    ShowNamed { w: u64, name: S },
    ToggleLabel { w: u64, text: S },
    Group { w: u64, leader: u64 },
    /// Has a toggle show its page and report itself.
    Toggle { w: u64, index: usize, stack: u64, id: u64 },
    /// Switches a toggle on without reporting it.
    QuietActive { w: u64 },
    /// Frees a widget's context menu.
    Unparent { w: u64 },
    /// Gives a widget the context menu at hand.
    Menu { w: u64 },
    /// Has a widget ask for its context menu when it is summoned.
    Summon { w: u64 },
    Gesture { w: u64, id: u64, kind: GestureKind },
    Name { w: u64, name: S },
    Accessible { w: u64, label: Option<S>, hint: Option<S>, value: Option<S> },
    Hidden { w: u64 },
    Cursor { w: u64, name: Option<S> },
    DestroyWindow { w: u64 },
    CloseWindow { w: u64 },
    PresentWindow { w: u64 },
    /// Lets the user not change a window's size.
    KeepSize { w: u64 },
    Title { w: u64, title: S },
    /// Makes a dialog, which is known by its own number from then on.
    Dialog { dialog: u64, title: S, message: Option<S> },
    DialogEntry { dialog: u64, placeholder: S, initial: S },
    Response { dialog: u64, id: S, label: S },
    Appearance { dialog: u64, id: S, destructive: bool },
    DefaultResponse { dialog: u64, id: S },
    CloseResponse { dialog: u64, id: S },
    ShowDialog { dialog: u64, parent: Option<u64> },
    CloseDialog { dialog: u64 },
    GrabFocus { w: u64 },
    /// Has a widget take the focus once it is on the screen.
    GrabOnMap { w: u64 },
    /// Takes the focus away from a widget's window.
    Unfocus { w: u64 },
    /// Gives a window the menu's actions.
    Actions { w: u64 },
    /// Gives the app the menu's accelerators.
    Accels { w: u64 },
    /// Shows the menu in the bar of the screen.
    GlobalMenu { w: u64 },
    /// Takes a menu bar out of a window's bars.
    DropBar { w: u64, bar: u64 },
    /// Puts a menu bar under a window's header.
    AddBar { w: u64, bar: u64 },
    RequestPaint { w: u64 },
}

/// A call as it is made.
pub type GtkAct = Act<String, AppEvent>;

/// A call as contracts speak of it.
pub type SpecAct = Act<Seq<char>, SpecEvent>;

impl View for Act<String, AppEvent> {
    type V = SpecAct;

    open spec fn view(&self) -> SpecAct {
        match self {
            Act::Emit { to, event } => Act::Emit { to: *to, event: event@ },
            Act::Later { work } => Act::Later { work: *work },
            Act::Framed { to, width, height } => Act::Framed { to: *to, width: *width, height: *height },
            Act::Resized { to, width, height } => Act::Resized { to: *to, width: *width, height: *height },
            Act::Report { kind } => Act::Report { kind: kind@ },
            Act::Wire { w, signal, id } => Act::Wire { w: *w, signal: *signal, id: *id },
            Act::Text { w, text } => Act::Text { w: *w, text: text@ },
            Act::Rich { w, open } => Act::Rich { w: *w, open: open@ },
            Act::Attrs { w, family, size, weight, italic, tabular, color, alpha } => Act::Attrs { w: *w, family: maybe(*family), size: *size, weight: *weight, italic: *italic, tabular: *tabular, color: *color, alpha: *alpha },
            Act::NoAttrs { w } => Act::NoAttrs { w: *w },
            Act::AddClass { w, class } => Act::AddClass { w: *w, class: class@ },
            Act::RemoveClass { w, class } => Act::RemoveClass { w: *w, class: class@ },
            Act::Css { css } => Act::Css { css: css@ },
            Act::NewSurface { w } => Act::NewSurface { w: *w },
            Act::SurfaceCss { w, css } => Act::SurfaceCss { w: *w, css: css@ },
            Act::Sweep { w } => Act::Sweep { w: *w },
            Act::DropSurface { w } => Act::DropSurface { w: *w },
            Act::Clip { w } => Act::Clip { w: *w },
            Act::AlignAcross { w, at } => Act::AlignAcross { w: *w, at: *at },
            Act::Justify { w, lines } => Act::Justify { w: *w, lines: *lines },
            Act::AlignDown { w, at } => Act::AlignDown { w: *w, at: *at },
            Act::Wrap { w, on } => Act::Wrap { w: *w, on: *on },
            Act::Sensitive { w, on } => Act::Sensitive { w: *w, on: *on },
            Act::Active { w, on } => Act::Active { w: *w, on: *on },
            Act::Range { w, min, max, step } => Act::Range { w: *w, min: *min, max: *max, step: *step },
            Act::Value { w, value } => Act::Value { w: *w, value: *value },
            Act::NearValue { w, value, slack } => Act::NearValue { w: *w, value: *value, slack: *slack },
            Act::EntryText { w, text } => Act::EntryText { w: *w, text: text@ },
            Act::Placeholder { w, text } => Act::Placeholder { w: *w, text: text@ },
            Act::Fraction { w, value } => Act::Fraction { w: *w, value: *value },
            Act::Spin { w } => Act::Spin { w: *w },
            Act::Policy { w, policy } => Act::Policy { w: *w, policy: *policy },
            Act::SetChild { w, child } => Act::SetChild { w: *w, child: *child },
            Act::Append { w, child } => Act::Append { w: *w, child: *child },
            Act::Put { w, child } => Act::Put { w: *w, child: *child },
            Act::Take { w, child } => Act::Take { w: *w, child: *child },
            Act::StackRemove { w, child } => Act::StackRemove { w: *w, child: *child },
            Act::Visible { w, on } => Act::Visible { w: *w, on: *on },
            Act::SizeTo { w, width, height } => Act::SizeTo { w: *w, width: *width, height: *height },
            Act::SizeRequest { w, width, height } => Act::SizeRequest { w: *w, width: *width, height: *height },
            Act::MoveTo { w, child, x, y } => Act::MoveTo { w: *w, child: *child, x: *x, y: *y },
            Act::Shape { w, child, origin, transform, size } => Act::Shape { w: *w, child: *child, origin: *origin, transform: *transform, size: *size },
            Act::Slide { w, child, from, to, size, anim } => Act::Slide { w: *w, child: *child, from: *from, to: *to, size: *size, anim: *anim },
            Act::Opacity { w, value } => Act::Opacity { w: *w, value: *value },
            Act::Fade { w, to, anim } => Act::Fade { w: *w, to: *to, anim: *anim },
            Act::StopFade { w } => Act::StopFade { w: *w },
            Act::StopSlide { w } => Act::StopSlide { w: *w },
            Act::Focusable { w } => Act::Focusable { w: *w },
            Act::Fit { w, mode } => Act::Fit { w: *w, mode: *mode },
            Act::Tinted { w, source, tint } => Act::Tinted { w: *w, source: source@, tint: *tint },
            Act::Picture { w, source } => Act::Picture { w: *w, source: source@ },
            Act::PictureFile { w, source } => Act::PictureFile { w: *w, source: source@ },
            Act::SelectRow { w, row } => Act::SelectRow { w: *w, row: *row },
            Act::ClearRows { w } => Act::ClearRows { w: *w },
            Act::Row { w, text, icon, tint, badge, badge_icon, badge_tint } => Act::Row { w: *w, text: text@, icon: maybe(*icon), tint: *tint, badge: maybe(*badge), badge_icon: maybe(*badge_icon), badge_tint: *badge_tint },
            Act::RowHeader { w, row, title, top } => Act::RowHeader { w: *w, row: *row, title: title@, top: *top },
            Act::RowMenu { w, row } => Act::RowMenu { w: *w, row: *row },
            Act::UnparentRows { w } => Act::UnparentRows { w: *w },
            Act::NewPage { page, child, title, loose } => Act::NewPage { page: *page, child: *child, title: title@, loose: *loose },
            Act::Sidebar { w, page } => Act::Sidebar { w: *w, page: *page },
            Act::Content { w, page } => Act::Content { w: *w, page: *page },
            Act::ShowSidebar { w, on } => Act::ShowSidebar { w: *w, on: *on },
            Act::FlipSidebar { w } => Act::FlipSidebar { w: *w },
            Act::SidebarWidth { w, width, pinned } => Act::SidebarWidth { w: *w, width: *width, pinned: *pinned },
            Act::SidebarAtEnd { w, on } => Act::SidebarAtEnd { w: *w, on: *on },
            Act::StillSidebar { w, on } => Act::StillSidebar { w: *w, on: *on },
            Act::PanedStart { w, page } => Act::PanedStart { w: *w, page: *page },
            Act::PanedEnd { w, page } => Act::PanedEnd { w: *w, page: *page },
            Act::FlipStart { w } => Act::FlipStart { w: *w },
            Act::PanedPosition { w, position } => Act::PanedPosition { w: *w, position: *position },
            Act::NavPush { w, page } => Act::NavPush { w: *w, page: *page },
            Act::NavPop { w } => Act::NavPop { w: *w },
            Act::CanPop { page, on } => Act::CanPop { page: *page, on: *on },
            Act::StackAdd { w, page, name } => Act::StackAdd { w: *w, page: *page, name: name@ },
            Act::StackShowFirst { w, page } => Act::StackShowFirst { w: *w, page: *page },
            Act::ClearBar { w } => Act::ClearBar { w: *w },
            Act::ToggleGlyph { w, name, text } => Act::ToggleGlyph { w: *w, name: name@, text: text@ },
            Act::ShowNamed { w, name } => Act::ShowNamed { w: *w, name: name@ },
            Act::ToggleLabel { w, text } => Act::ToggleLabel { w: *w, text: text@ },
            Act::Group { w, leader } => Act::Group { w: *w, leader: *leader },
            Act::Toggle { w, index, stack, id } => Act::Toggle { w: *w, index: *index, stack: *stack, id: *id },
            Act::QuietActive { w } => Act::QuietActive { w: *w },
            Act::Unparent { w } => Act::Unparent { w: *w },
            Act::Menu { w } => Act::Menu { w: *w },
            Act::Summon { w } => Act::Summon { w: *w },
            Act::Gesture { w, id, kind } => Act::Gesture { w: *w, id: *id, kind: *kind },
            Act::Name { w, name } => Act::Name { w: *w, name: name@ },
            Act::Accessible { w, label, hint, value } => Act::Accessible { w: *w, label: maybe(*label), hint: maybe(*hint), value: maybe(*value) },
            Act::Hidden { w } => Act::Hidden { w: *w },
            Act::Cursor { w, name } => Act::Cursor { w: *w, name: maybe(*name) },
            Act::DestroyWindow { w } => Act::DestroyWindow { w: *w },
            Act::CloseWindow { w } => Act::CloseWindow { w: *w },
            Act::PresentWindow { w } => Act::PresentWindow { w: *w },
            Act::KeepSize { w } => Act::KeepSize { w: *w },
            Act::Title { w, title } => Act::Title { w: *w, title: title@ },
            Act::Dialog { dialog, title, message } => Act::Dialog { dialog: *dialog, title: title@, message: maybe(*message) },
            Act::DialogEntry { dialog, placeholder, initial } => Act::DialogEntry { dialog: *dialog, placeholder: placeholder@, initial: initial@ },
            Act::Response { dialog, id, label } => Act::Response { dialog: *dialog, id: id@, label: label@ },
            Act::Appearance { dialog, id, destructive } => Act::Appearance { dialog: *dialog, id: id@, destructive: *destructive },
            Act::DefaultResponse { dialog, id } => Act::DefaultResponse { dialog: *dialog, id: id@ },
            Act::CloseResponse { dialog, id } => Act::CloseResponse { dialog: *dialog, id: id@ },
            Act::ShowDialog { dialog, parent } => Act::ShowDialog { dialog: *dialog, parent: *parent },
            Act::CloseDialog { dialog } => Act::CloseDialog { dialog: *dialog },
            Act::GrabFocus { w } => Act::GrabFocus { w: *w },
            Act::GrabOnMap { w } => Act::GrabOnMap { w: *w },
            Act::Unfocus { w } => Act::Unfocus { w: *w },
            Act::Actions { w } => Act::Actions { w: *w },
            Act::Accels { w } => Act::Accels { w: *w },
            Act::GlobalMenu { w } => Act::GlobalMenu { w: *w },
            Act::DropBar { w, bar } => Act::DropBar { w: *w, bar: *bar },
            Act::AddBar { w, bar } => Act::AddBar { w: *w, bar: *bar },
            Act::RequestPaint { w } => Act::RequestPaint { w: *w },
        }
    }
}

/// The calls of a list, as contracts speak of them.
pub open spec fn acts(v: Seq<GtkAct>) -> Seq<SpecAct> {
    Seq::new(v.len(), |i: int| v[i]@)
}

/// Adds a call to the end of a list.
pub fn act(out: &mut Vec<GtkAct>, a: GtkAct)
    ensures
        acts(final(out)@) == acts(old(out)@).push(a@),
{
    out.push(a);
    proof {
        assert(acts(out@) =~= acts(old(out)@).push(a@));
    }
}

/// Adds the calls of another list behind those of this one.
pub fn act_all(out: &mut Vec<GtkAct>, mut more: Vec<GtkAct>)
    ensures
        acts(final(out)@) == acts(old(out)@) + acts(more@),
{
    let ghost given = more@;
    out.append(&mut more);
    proof {
        assert(acts(out@) =~= acts(old(out)@) + acts(given));
    }
}

/// No call.
pub fn no_acts() -> (out: Vec<GtkAct>)
    ensures
        acts(out@) == Seq::<SpecAct>::empty(),
{
    let out: Vec<GtkAct> = Vec::new();
    proof {
        assert(acts(out@) =~= Seq::<SpecAct>::empty());
    }
    out
}

/// A list with one call.
pub fn one_act(a: GtkAct) -> (out: Vec<GtkAct>)
    ensures
        acts(out@) == seq![a@],
{
    let mut out = no_acts();
    act(&mut out, a);
    proof {
        assert(acts(out@) =~= seq![a@]);
    }
    out
}

/// Adding one list behind another keeps what stands before both.
pub proof fn regroup(s: Seq<SpecAct>, a: Seq<SpecAct>, b: Seq<SpecAct>)
    ensures
        s + a + b == s + (a + b),
{
    assert(s + a + b =~= s + (a + b));
}

/// Hands the app an event.
pub fn emit(to: Target, event: AppEvent) -> (out: Vec<GtkAct>)
    ensures
        acts(out@) == seq![Act::<Seq<char>, SpecEvent>::Emit { to, event: event@ }],
{
    one_act(Act::Emit { to, event })
}

} // verus!
