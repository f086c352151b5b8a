//! The vocabulary the backends share: the pieces an app is made of, the patches that change
//! them, and the events that come back, all as plain values.
use crate::num::Num;
use vstd::prelude::*;

verus! {

/// A node of the app's tree.
pub type NodeId = u64;

/// A number with its decimal text, the way it is printed into an attribute or a style.
pub struct Real {
    pub num: Num,
    pub text: String,
}

/// A length: a whole number, or one that was given.
#[derive(Clone, Copy, Debug, PartialEq, Eq, Structural)]
pub enum Length {
    Whole(u32),
    Given(Num),
}

#[derive(Clone, Copy, Debug, PartialEq, Eq, Structural)]
pub struct Point {
    pub x: Num,
    pub y: Num,
}

impl View for Point {
    type V = Point;

    open spec fn view(&self) -> Point {
        *self
    }
}

#[derive(Clone, Copy, Debug, PartialEq, Eq, Structural)]
pub struct Size {
    pub width: Num,
    pub height: Num,
}

impl View for Size {
    type V = Size;

    open spec fn view(&self) -> Size {
        *self
    }
}

#[derive(Clone, Copy, Debug, PartialEq, Eq, Structural)]
pub struct Rect {
    pub origin: Point,
    pub size: Size,
}

/// One component of a color: the component itself, and its place on the 0–255 scale and on the
/// 0–65535 scale, on each both cut and rounded to the nearest step.
#[derive(Clone, Copy, Debug, PartialEq, Eq, Structural)]
pub struct Channel {
    pub num: Num,
    pub cut: u8,
    pub near: u8,
    pub fine_cut: u16,
    pub fine: u16,
}

/// A color, with the decimal text of its alpha.
pub struct Color {
    pub r: Channel,
    pub g: Channel,
    pub b: Channel,
    pub a: Channel,
    pub alpha: String,
}

/// A step of the text ramp, or an explicit size in points.
pub enum Font {
    LargeTitle,
    Title,
    Title2,
    Title3,
    Headline,
    Subheadline,
    Body,
    Callout,
    Footnote,
    Caption,
    Caption2,
    System(Num),
    Custom(String, Num),
}

#[derive(Clone, Copy, Debug, PartialEq, Eq, Structural)]
pub enum FontWeight {
    UltraLight,
    Thin,
    Light,
    Regular,
    Medium,
    Semibold,
    Bold,
    Heavy,
    Black,
}

/// A font as an app asks for it. `size` is the relative size of the style times the scale, for
/// the backend at hand, as decimal text; `units` is an explicit size in 1024ths of a point.
pub struct FontSpec {
    pub style: Font,
    pub weight: Option<FontWeight>,
    pub italic: bool,
    pub monospace: bool,
    pub tabular: bool,
    pub scale: Num,
    pub size: String,
    pub units: i32,
}

#[derive(Clone, Copy, Debug, PartialEq, Eq, Structural)]
pub enum Underline {
    Off,
    Single,
    Double,
    Dotted,
    Wavy,
}

/// Styling for the bytes `start..end` of a text.
pub struct TextRun {
    pub start: usize,
    pub end: usize,
    pub font: FontSpec,
    pub color: Option<Color>,
    pub background: Option<Color>,
    pub underline: Underline,
    pub strikethrough: bool,
    pub link: Option<String>,
}

/// How a button looks. A tinted one carries its tint and the color that reads on top of it.
pub enum ButtonStyle {
    Automatic,
    Prominent,
    Bordered,
    Compact,
    Tinted(Color, Color),
}

#[derive(Clone, Copy, Debug, PartialEq, Eq, Structural)]
pub enum TextRole {
    Primary,
    Secondary,
}

#[derive(Clone, Copy, Debug, PartialEq, Eq, Structural)]
pub enum TextAlign {
    Leading,
    Center,
    Trailing,
}

#[derive(Clone, Copy, Debug, PartialEq, Eq, Structural)]
pub enum ContentMode {
    Fit,
    Fill,
    Stretch,
}

impl View for ContentMode {
    type V = ContentMode;

    open spec fn view(&self) -> ContentMode {
        *self
    }
}

#[derive(Clone, Copy, Debug, PartialEq, Eq, Structural)]
pub enum PickerStyle {
    Menu,
    Segmented,
    Inline,
}

/// How a navigation host shows its pages.
#[derive(Clone, Copy, Debug, PartialEq, Eq, Structural)]
pub enum NavPresentation {
    Split,
    Stack,
    Tabs,
    Rail,
}

impl NavPresentation {
    /// Whether the rows of the navigation stand around its pages, not on a page of their own.
    pub open spec fn chrome(self) -> bool {
        self == NavPresentation::Tabs || self == NavPresentation::Rail
    }

    pub fn rows_are_chrome(self) -> (b: bool)
        ensures
            b == self.chrome(),
    {
        match self {
            NavPresentation::Tabs | NavPresentation::Rail => true,
            NavPresentation::Split | NavPresentation::Stack => false,
        }
    }
}

/// A change to a navigation host.
pub enum NavPatch {
    Presentation(NavPresentation),
    Select(usize),
    Pushed { title: String },
    Popped,
    GuardTop(bool),
    Title(String),
    ListVisible(bool),
    ListTitle(String),
    ListInStack(bool),
}

#[derive(Clone, Copy, Debug, PartialEq, Eq, Structural)]
pub enum Curve {
    Linear,
    EaseIn,
    EaseOut,
    EaseInOut,
    Spring,
}

#[derive(Clone, Copy, Debug, PartialEq, Eq, Structural)]
pub struct AnimSpec {
    pub duration_ms: u32,
    pub delay_ms: u32,
    pub curve: Curve,
}

/// A glyph: a bundled image by name, or a standard symbol by its outline, where it has one.
pub enum Icon {
    Image(String),
    Symbol(Option<String>),
}

/// The standard commands a menu item can stand for.
#[derive(Clone, Copy, Debug, PartialEq, Eq, Structural)]
pub enum MenuRole {
    Cut,
    Copy,
    Paste,
    SelectAll,
    Undo,
    Redo,
    Delete,
    About,
    Quit,
    Preferences,
    Minimize,
    CloseWindow,
    Fullscreen,
    NewWindow,
}

/// A keyboard shortcut: the modifiers and the key's name or character.
pub struct Shortcut {
    pub primary: bool,
    pub shift: bool,
    pub alt: bool,
    pub control: bool,
    pub key: String,
}

/// An entry of a menu. Action number zero means the app handles none.
pub enum MenuItem {
    Separator,
    Submenu { label: String, items: Vec<MenuItem> },
    Action {
        action: u64,
        label: String,
        enabled: bool,
        checked: Option<bool>,
        role: Option<MenuRole>,
        shortcut: Option<Shortcut>,
        icon: Option<Icon>,
    },
}

pub struct Segmented {
    pub title: String,
    pub icon: Option<Icon>,
}

pub enum ToolbarKind {
    Button,
    Toggle { on: bool },
    Menu { items: Vec<MenuItem> },
    Search { text: String, placeholder: String, suggestions: Vec<String> },
    Segments { segments: Vec<Segmented>, selected: usize },
    Label,
    Separator,
}

#[derive(Clone, Copy, Debug, PartialEq, Eq, Structural)]
pub enum ToolbarPlacement {
    Automatic,
    Navigation,
    Principal,
    Primary,
    Secondary,
    Bottom,
}

#[derive(Clone, Copy, Debug, PartialEq, Eq, Structural)]
pub enum ToolbarColumn {
    Sidebar,
    List,
    Detail,
    Window,
}

pub struct ToolbarItem {
    pub kind: ToolbarKind,
    pub id: String,
    pub label: String,
    pub tooltip: Option<String>,
    pub action: u64,
    pub enabled: bool,
    pub placement: ToolbarPlacement,
    pub column: ToolbarColumn,
    pub icon: Option<Icon>,
}

/// A change to one toolbar item, named by its id.
pub enum ToolbarPatch {
    Text { item: String, text: String },
    On { item: String, on: bool },
    Selected { item: String, index: usize },
    Enabled { item: String, on: bool },
    Suggestions { item: String, list: Vec<String> },
}

#[derive(Clone, Copy, Debug, PartialEq, Eq, Structural)]
pub enum ButtonRole {
    Default,
    Cancel,
    Destructive,
}

pub struct PresentButton {
    pub label: String,
    pub role: ButtonRole,
}

pub struct FileFilter {
    pub name: String,
    pub extensions: Vec<String>,
}

/// A surface the app asks to have presented.
pub enum PresentSpec {
    Dialog { title: String, message: Option<String>, buttons: Vec<PresentButton>, sheet: bool },
    Prompt {
        title: String,
        message: Option<String>,
        placeholder: String,
        initial: String,
        ok: String,
        cancel: String,
    },
    OpenFile { title: String, filters: Vec<FileFilter> },
    SaveFile { title: String, suggested_name: String, src_path: String, filters: Vec<FileFilter> },
}

#[derive(Clone, Copy, Debug, PartialEq, Eq, Structural)]
pub enum DragPhase {
    Began,
    Changed,
    Ended,
}

#[derive(Clone, Copy, Debug, PartialEq, Eq, Structural)]
pub enum GestureKind {
    Tap,
    Drag,
    Hover,
    LongPress,
    Pinch,
    Pan,
}

#[derive(Clone, Copy, Debug, PartialEq, Eq, Structural)]
pub enum EditOp {
    Cut,
    Copy,
    Paste,
    SelectAll,
}

#[derive(Clone, Copy, Debug, PartialEq, Eq, Structural)]
pub enum Lifecycle {
    WillLaunch,
    DidLaunch,
    DidBecomeActive,
    WillResignActive,
    DidEnterBackground,
    WillEnterForeground,
    WillTerminate,
    MemoryWarning,
}

/// What an app may ask whether a backend can do.
#[derive(Clone, Copy, Debug, PartialEq, Eq, Structural)]
pub enum Cap {
    Animation,
    AppBadgeCount,
    AppBadgeDot,
    AppMenu,
    Appearance,
    BaselineAlignment,
    Cover,
    Cursor,
    Dialogs,
    EditBridge,
    FileDialogs,
    FontList,
    Inspector,
    ListDelete,
    ListRecycling,
    ListReorder,
    MultiWindow,
    NavContentList,
    NavHeader,
    NavRepresent,
    NavSplit,
    NavTabs,
    NavTabsAdaptive,
    ScrollReports,
    Snapshot,
    TextEditable,
    TextLinks,
    TextRuns,
    TextSelectable,
    TextSpellCheck,
    Toolbar,
    Tree,
    TreeMove,
}

/// The badge of the app's icon.
pub enum AppBadge {
    Off,
    Count(u32),
    Dot,
    Text(String),
}

/// The modifier bits of a key event.
pub const KEY_SHIFT: u8 = 1;

pub const KEY_PRIMARY: u8 = 2;

pub const KEY_ALT: u8 = 4;

/// How far a backend supports a capability.
#[derive(Clone, Copy, Debug, PartialEq, Eq, Structural)]
pub enum Support {
    Native,
    Emulated,
    Unsupported,
}

/// The modifier keys held, as the app sees them.
#[derive(Clone, Copy, Debug, PartialEq, Eq, Structural)]
pub struct Modifiers {
    pub shift: bool,
    pub primary: bool,
    pub alt: bool,
}

/// The answer to a presented dialog. `S` holds text, `L` a list of texts.
#[derive(Debug, PartialEq)]
pub enum PresentResult<S, L> {
    Dismissed,
    Button(i64),
    Text(S),
    Files(L),
}

/// A toolbar item's new value.
#[derive(Debug, PartialEq)]
pub enum ToolbarValue<S> {
    On(bool),
    Selected(usize),
    Text(S),
}

/// What a backend reports to the app. `S` holds text, `R` a list of row numbers, `L` a list of
/// texts: `String` and `Vec` where code runs, sequences where a contract speaks.
#[derive(Debug, PartialEq)]
pub enum Event<S, R, L> {
    Pressed,
    Submitted,
    ToggleChanged(bool),
    ValueChanged(Num),
    ValueCommitted(Num),
    SelectionChanged(i64),
    SelectionSet(R),
    TextChanged(S),
    FocusChanged(bool),
    LinkActivated(S),
    Custom { num: Num, text: S },
    Tap(Point),
    Drag { phase: DragPhase, location: Point, translation: Point },
    Hover { phase: DragPhase, location: Point },
    ScrollChanged(Point),
    ContextMenu { local: Point, window: Point },
    FrameChanged(Size),
    NavBack { already_popped: bool },
    CoverHidden,
    Key { key: S, modifiers: u8 },
    Edit(EditOp),
    Undo { redo: bool },
    MenuAction(u64),
    ToolbarChanged { action: u64, value: ToolbarValue<S> },
    PresentResult { req: u64, result: PresentResult<S, L> },
    WindowResized(Size),
    WindowClosed,
    WindowFocused(bool),
    NavPresentationChanged(NavPresentation),
    InspectorChanged(bool),
    TreeExpanded { token: u64, expanded: bool },
    Pinch { phase: DragPhase, scale: Num, location: Point },
    Pan { phase: DragPhase, delta: Point, location: Point },
    Lifecycle(Lifecycle),
    RouteRequested(S),
}

/// Whom an event is for.
#[derive(Clone, Copy, Debug, PartialEq, Eq, Structural)]
pub enum Target {
    Window,
    Node(NodeId),
}

/// An event as it is handed over.
pub type AppEvent = Event<String, Vec<i64>, Vec<String>>;

/// An event as contracts speak of it.
pub type SpecEvent = Event<Seq<char>, Seq<i64>, Seq<Seq<char>>>;

/// The texts of a list of strings.
pub open spec fn texts(v: Seq<String>) -> Seq<Seq<char>> {
    Seq::new(v.len(), |i: int| v[i]@)
}

impl View for PresentResult<String, Vec<String>> {
    type V = PresentResult<Seq<char>, Seq<Seq<char>>>;

    open spec fn view(&self) -> Self::V {
        match self {
            PresentResult::Dismissed => PresentResult::Dismissed,
            PresentResult::Button(i) => PresentResult::Button(*i),
            PresentResult::Text(s) => PresentResult::Text(s@),
            PresentResult::Files(v) => PresentResult::Files(texts(v@)),
        }
    }
}

impl View for ToolbarValue<String> {
    type V = ToolbarValue<Seq<char>>;

    open spec fn view(&self) -> Self::V {
        match self {
            ToolbarValue::On(b) => ToolbarValue::On(*b),
            ToolbarValue::Selected(i) => ToolbarValue::Selected(*i),
            ToolbarValue::Text(s) => ToolbarValue::Text(s@),
        }
    }
}

impl View for Event<String, Vec<i64>, Vec<String>> {
    type V = SpecEvent;

    open spec fn view(&self) -> SpecEvent {
        match self {
            Event::Pressed => Event::Pressed,
            Event::Submitted => Event::Submitted,
            Event::ToggleChanged(b) => Event::ToggleChanged(*b),
            Event::ValueChanged(n) => Event::ValueChanged(*n),
            Event::ValueCommitted(n) => Event::ValueCommitted(*n),
            Event::SelectionChanged(i) => Event::SelectionChanged(*i),
            Event::SelectionSet(v) => Event::SelectionSet(v@),
            Event::TextChanged(s) => Event::TextChanged(s@),
            Event::FocusChanged(b) => Event::FocusChanged(*b),
            Event::LinkActivated(s) => Event::LinkActivated(s@),
            Event::Custom { num, text } => Event::Custom { num: *num, text: text@ },
            Event::Tap(p) => Event::Tap(*p),
            Event::Drag { phase, location, translation } => Event::Drag {
                phase: *phase,
                location: *location,
                translation: *translation,
            },
            Event::Hover { phase, location } => Event::Hover { phase: *phase, location: *location },
            Event::ScrollChanged(p) => Event::ScrollChanged(*p),
            Event::ContextMenu { local, window } => Event::ContextMenu {
                local: *local,
                window: *window,
            },
            Event::FrameChanged(s) => Event::FrameChanged(*s),
            Event::NavBack { already_popped } => Event::NavBack { already_popped: *already_popped },
            Event::CoverHidden => Event::CoverHidden,
            Event::Key { key, modifiers } => Event::Key { key: key@, modifiers: *modifiers },
            Event::Edit(op) => Event::Edit(*op),
            Event::Undo { redo } => Event::Undo { redo: *redo },
            Event::MenuAction(a) => Event::MenuAction(*a),
            Event::ToolbarChanged { action, value } => Event::ToolbarChanged {
                action: *action,
                value: value@,
            },
            Event::PresentResult { req, result } => Event::PresentResult {
                req: *req,
                result: result@,
            },
            Event::WindowResized(s) => Event::WindowResized(*s),
            Event::WindowClosed => Event::WindowClosed,
            Event::WindowFocused(b) => Event::WindowFocused(*b),
            Event::NavPresentationChanged(p) => Event::NavPresentationChanged(*p),
            Event::InspectorChanged(b) => Event::InspectorChanged(*b),
            Event::TreeExpanded { token, expanded } => Event::TreeExpanded {
                token: *token,
                expanded: *expanded,
            },
            Event::Pinch { phase, scale, location } => Event::Pinch {
                phase: *phase,
                scale: *scale,
                location: *location,
            },
            Event::Pan { phase, delta, location } => Event::Pan {
                phase: *phase,
                delta: *delta,
                location: *location,
            },
            Event::Lifecycle(l) => Event::Lifecycle(*l),
            Event::RouteRequested(s) => Event::RouteRequested(s@),
        }
    }
}

} // verus!
