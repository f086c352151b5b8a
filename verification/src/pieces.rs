//! The pieces an app is built from, as a backend realizes them, and the patches that change them.
use crate::model::{
    ButtonStyle, Color, ContentMode, FontSpec, MenuItem, NavPatch, NavPresentation, PickerStyle,
    Real, Size, TextAlign, TextRole, TextRun,
};
use crate::num::Num;
use vstd::prelude::*;

verus! {

/// What the list holds at `i`, where it holds anything.
pub open spec fn at<T>(v: Seq<Option<T>>, i: int) -> Option<T> {
    if 0 <= i < v.len() {
        v[i]
    } else {
        None
    }
}

pub fn entry_at<T>(v: &Vec<Option<T>>, i: usize) -> (r: Option<&T>)
    ensures
        match r {
            Some(t) => at(v@, i as int) == Some(*t),
            None => at(v@, i as int) is None,
        },
{
    if i < v.len() {
        v[i].as_ref()
    } else {
        None
    }
}

/// The rows of a navigation menu: titles, leading icons and trailing badges with their tints,
/// the headers of the sections they start, and their context menus.
pub struct MenuRows {
    pub items: Vec<String>,
    pub icons: Vec<Option<String>>,
    pub tints: Vec<Option<Color>>,
    pub badges: Vec<Option<String>>,
    pub badge_icons: Vec<Option<String>>,
    pub badge_tints: Vec<Option<Color>>,
    pub sections: Vec<Option<String>>,
    pub menus: Vec<Vec<MenuItem>>,
}

pub struct ContainerProps {
    pub background: Option<Color>,
    pub corner_radius: Real,
    pub clips: bool,
    pub card: bool,
}

pub struct LabelProps {
    pub text: String,
    pub runs: Vec<TextRun>,
    pub font: FontSpec,
    pub color: Option<Color>,
    pub role: TextRole,
    pub wraps: bool,
    pub align: TextAlign,
}

pub struct ButtonProps {
    pub title: String,
    pub style: ButtonStyle,
    pub enabled: bool,
}

pub struct ToggleProps {
    pub on: bool,
    pub enabled: bool,
}

pub struct SliderProps {
    pub min: Real,
    pub max: Real,
    pub step: Option<Real>,
    pub value: Num,
    pub enabled: bool,
}

pub struct TextFieldProps {
    pub text: String,
    pub placeholder: String,
    pub enabled: bool,
}

pub struct TextAreaProps {
    pub text: String,
    pub placeholder: String,
    pub editable: bool,
    pub selectable: bool,
    pub spellcheck: bool,
    pub min_lines: u32,
    pub max_lines: u32,
}

/// A picker; `intrinsic` is the size its options ask for.
pub struct PickerProps {
    pub options: Vec<String>,
    pub selected: usize,
    pub style: PickerStyle,
    pub intrinsic: Size,
}

pub struct ImageProps {
    pub source: String,
    pub content_mode: ContentMode,
    pub tint: Option<Color>,
    pub decorative: bool,
}

/// A list; `pitch` is the height its rows share, where the app names one.
pub struct ListProps {
    pub pitch: Option<Num>,
    pub selectable: bool,
    pub multi_select: bool,
    pub separators: Option<bool>,
    pub reorderable: bool,
    pub deletable: bool,
    pub delete_label: String,
}

/// A piece to realize. `Mismatched` is a built-in kind whose properties are of the wrong type,
/// `Unrendered` a kind nothing renders.
pub enum Piece {
    Container(ContainerProps),
    Label(LabelProps),
    Button(ButtonProps),
    Toggle(ToggleProps),
    Slider(SliderProps),
    TextField(TextFieldProps),
    TextArea(TextAreaProps),
    Picker(PickerProps),
    Progress(Option<Num>),
    Image(ImageProps),
    Canvas,
    Scroll { horizontal: bool },
    Divider,
    Nav { presentation: NavPresentation, title: String },
    NavPage { sidebar: bool, title: String },
    Cover,
    NavMenu { rows: MenuRows, selected: Option<usize> },
    List(ListProps),
    Mismatched(String),
    Unrendered(String),
}

pub enum LabelPatch {
    Text(String),
    Runs(String, Vec<TextRun>),
    Color(Option<Color>),
    Font(FontSpec),
}

pub enum ButtonPatch {
    Title(String),
    Enabled(bool),
    Style(ButtonStyle),
}

pub enum TogglePatch {
    On(bool),
    Enabled(bool),
}

pub enum SliderPatch {
    Value(Num),
    Enabled(bool),
}

pub enum TextFieldPatch {
    Text { text: String, from_native: bool },
    Placeholder(String),
    Enabled(bool),
}

pub enum TextAreaPatch {
    SetText(String),
    SetEditable(bool),
    SetSelectable(bool),
    SetSpellCheck(bool),
}

pub enum PickerPatch {
    Selected(usize),
    Options(Vec<String>),
}

pub enum CoverPatch {
    Present { background: Option<Color> },
    DismissDisabled(bool),
    Dismiss,
}

pub enum NavMenuPatch {
    Items { rows: MenuRows, selected: Option<usize> },
    Selected(Option<usize>),
}

pub enum ListPatch {
    Reload,
    Splice,
    RowSizeInvalidated(usize),
    ScrollToEnd,
    ScrollToRow(usize),
    Selected(Vec<usize>),
}

/// A change to a tree, its rows known by their tokens.
pub enum TreePatch {
    Reload,
    Expand(u64, bool),
    Selected(Vec<u64>),
    Reveal(u64),
}

/// A change to a realized piece.
pub enum Patch {
    Tint(Option<Color>),
    Background(Option<Color>),
    Label(LabelPatch),
    Button(ButtonPatch),
    Toggle(TogglePatch),
    Slider(SliderPatch),
    TextField(TextFieldPatch),
    TextArea(TextAreaPatch),
    Picker(PickerPatch),
    Progress(Option<Num>),
    Nav(NavPatch),
    Cover(CoverPatch),
    NavMenu(NavMenuPatch),
    List(ListPatch),
}

} // verus!
