//! What this side tells the page's shim to do, one call after the other.
use crate::model::{AppEvent, SpecEvent, Target};
use crate::num::Num;
use crate::text::owned;
use vstd::prelude::*;

verus! {

/// An element: one the shim already has, by its number, or the n-th one that the calls at hand
/// create.
#[derive(Clone, Copy, Debug, PartialEq, Eq, Structural)]
pub enum El {
    Own(u32),
    New(u32),
}

/// Where an inserted child goes to stand last.
pub const LAST: u32 = 0xffff_ffff;

/// A call into the shim, or an event for the app, or work put off to the next turn. `S` holds
/// text and `E` an event: `String` and [`AppEvent`] where code runs, their models in contracts.
#[derive(Debug, PartialEq)]
#[allow(inconsistent_fields)]
pub enum Act<S, E> {
    Create { slot: u32, kind: u32 },
    Text(El, S),
    Style(El, S, S),
    Attr(El, S, S),
    Class(El, S, bool),
    Link { el: El, owner: u32, url: S },
    Insert { parent: u32, child: El, index: u32 },
    Remove(u32),
    Release(u32),
    Frame { el: u32, x: Num, y: Num, width: Num, height: Num },
    /// Frames a row's cell: `row` rows of `pitch` down, `width` wide and `pitch` high.
    RowFrame { cell: u32, row: usize, width: Num, pitch: Num },
    /// Sizes a list's content to `rows` rows of `pitch`.
    Extent { content: u32, rows: usize, pitch: Num },
    Value(u32, Num),
    Index(u32, usize),
    Checked(u32, bool),
    Listen(u32, u32),
    ListReorder(u32),
    ListOnScroll(u32),
    ListKeynav(u32, bool),
    CanvasKeynav(u32),
    /// Scrolls a list to the top of a row, `pitch` apart.
    ScrollToRow { el: u32, row: usize, pitch: Num },
    ScrollEdge { el: u32, edge: u32, animated: bool },
    /// Scrolls a list just far enough that the whole row shows.
    RevealRow { el: u32, row: usize, pitch: Num },
    NavMode { el: u32, mode: u32, title: S },
    NavPresent { el: u32, mode: u32 },
    NavAddPage { nav: u32, page: u32, chrome: bool },
    NavBackBar { nav: u32, visible: bool, title: S },
    NavMenu { el: u32, json: S },
    NavMenuSelect { el: u32, index: i32 },
    Options { el: u32, json: S },
    OptionsSelect { el: u32, index: u32 },
    Toolbar(S),
    ToolbarPatch(S),
    Present { req: u32, json: S },
    /// Presents a save: the spec, and the staged file whose bytes go with it.
    PresentSave { req: u32, json: S, src_path: S },
    Dismiss(u32),
    Badge(i32),
    Dark(u32),
    Hash { route: S, replace: bool },
    Title(S),
    Warn(S),
    /// Reports that a piece of this kind is shown as a placeholder.
    Report(S),
    Log { level: u32, line: S },
    Html(u32, S),
    EditorSelect { el: u32, start: u32, end: u32 },
    Call(u32, S),
    /// Has the app's source fill a row's cell.
    BindRow { row: usize, cell: u32 },
    /// Has the app's source forget what a cell showed.
    RecycleCell(u32),
    /// Has the list refilled from scratch on the next turn.
    PostPopulate(u32),
    /// Has the rows that came into view built on the next turn.
    PostFill(u32),
    Emit { to: Target, event: E },
}

/// A call as it is made.
pub type DomAct = Act<String, AppEvent>;

/// A call as contracts speak of it.
pub type SpecAct = Act<Seq<char>, SpecEvent>;

impl View for Act<String, AppEvent> {
    type V = SpecAct;

    open spec fn view(&self) -> SpecAct {
        match self {
            Act::Create { slot, kind } => Act::Create { slot: *slot, kind: *kind },
            Act::Text(el, s) => Act::Text(*el, s@),
            Act::Style(el, p, v) => Act::Style(*el, p@, v@),
            Act::Attr(el, a, v) => Act::Attr(*el, a@, v@),
            Act::Class(el, c, on) => Act::Class(*el, c@, *on),
            Act::Link { el, owner, url } => Act::Link { el: *el, owner: *owner, url: url@ },
            Act::Insert { parent, child, index } => Act::Insert {
                parent: *parent,
                child: *child,
                index: *index,
            },
            Act::Remove(el) => Act::Remove(*el),
            Act::Release(el) => Act::Release(*el),
            Act::Frame { el, x, y, width, height } => Act::Frame {
                el: *el,
                x: *x,
                y: *y,
                width: *width,
                height: *height,
            },
            Act::RowFrame { cell, row, width, pitch } => Act::RowFrame {
                cell: *cell,
                row: *row,
                width: *width,
                pitch: *pitch,
            },
            Act::Extent { content, rows, pitch } => Act::Extent {
                content: *content,
                rows: *rows,
                pitch: *pitch,
            },
            Act::Value(el, n) => Act::Value(*el, *n),
            Act::Index(el, i) => Act::Index(*el, *i),
            Act::Checked(el, on) => Act::Checked(*el, *on),
            Act::Listen(el, mask) => Act::Listen(*el, *mask),
            Act::ListReorder(el) => Act::ListReorder(*el),
            Act::ListOnScroll(el) => Act::ListOnScroll(*el),
            Act::ListKeynav(el, multi) => Act::ListKeynav(*el, *multi),
            Act::CanvasKeynav(el) => Act::CanvasKeynav(*el),
            Act::ScrollToRow { el, row, pitch } => Act::ScrollToRow {
                el: *el,
                row: *row,
                pitch: *pitch,
            },
            Act::ScrollEdge { el, edge, animated } => Act::ScrollEdge {
                el: *el,
                edge: *edge,
                animated: *animated,
            },
            Act::RevealRow { el, row, pitch } => Act::RevealRow {
                el: *el,
                row: *row,
                pitch: *pitch,
            },
            Act::NavMode { el, mode, title } => Act::NavMode { el: *el, mode: *mode, title: title@ },
            Act::NavPresent { el, mode } => Act::NavPresent { el: *el, mode: *mode },
            Act::NavAddPage { nav, page, chrome } => Act::NavAddPage {
                nav: *nav,
                page: *page,
                chrome: *chrome,
            },
            Act::NavBackBar { nav, visible, title } => Act::NavBackBar {
                nav: *nav,
                visible: *visible,
                title: title@,
            },
            Act::NavMenu { el, json } => Act::NavMenu { el: *el, json: json@ },
            Act::NavMenuSelect { el, index } => Act::NavMenuSelect { el: *el, index: *index },
            Act::Options { el, json } => Act::Options { el: *el, json: json@ },
            Act::OptionsSelect { el, index } => Act::OptionsSelect { el: *el, index: *index },
            Act::Toolbar(json) => Act::Toolbar(json@),
            Act::ToolbarPatch(json) => Act::ToolbarPatch(json@),
            Act::Present { req, json } => Act::Present { req: *req, json: json@ },
            Act::PresentSave { req, json, src_path } => Act::PresentSave {
                req: *req,
                json: json@,
                src_path: src_path@,
            },
            Act::Dismiss(req) => Act::Dismiss(*req),
            Act::Badge(n) => Act::Badge(*n),
            Act::Dark(mode) => Act::Dark(*mode),
            Act::Hash { route, replace } => Act::Hash { route: route@, replace: *replace },
            Act::Title(t) => Act::Title(t@),
            Act::Warn(m) => Act::Warn(m@),
            Act::Report(kind) => Act::Report(kind@),
            Act::Log { level, line } => Act::Log { level: *level, line: line@ },
            Act::Html(el, html) => Act::Html(*el, html@),
            Act::EditorSelect { el, start, end } => Act::EditorSelect {
                el: *el,
                start: *start,
                end: *end,
            },
            Act::Call(el, method) => Act::Call(*el, method@),
            Act::BindRow { row, cell } => Act::BindRow { row: *row, cell: *cell },
            Act::RecycleCell(cell) => Act::RecycleCell(*cell),
            Act::PostPopulate(host) => Act::PostPopulate(*host),
            Act::PostFill(host) => Act::PostFill(*host),
            Act::Emit { to, event } => Act::Emit { to: *to, event: event@ },
        }
    }
}

/// The calls of a list, as contracts speak of them.
pub open spec fn acts(v: Seq<DomAct>) -> Seq<SpecAct> {
    Seq::new(v.len(), |i: int| v[i]@)
}

/// Appending two parts is appending them one after the other.
pub proof fn regroup<T>(s: Seq<T>, a: Seq<T>, b: Seq<T>)
    ensures
        s + (a + b) == s + a + b,
{
    assert(s + (a + b) =~= s + a + b);
}

/// Adds a call to the end of a list.
pub fn act(out: &mut Vec<DomAct>, a: DomAct)
    ensures
        acts(final(out)@) == acts(old(out)@).push(a@),
{
    out.push(a);
    proof {
        assert(acts(out@) =~= acts(old(out)@).push(a@));
    }
}

/// Adds the calls of another list behind those of this one.
pub fn act_all(out: &mut Vec<DomAct>, mut more: Vec<DomAct>)
    ensures
        acts(final(out)@) == acts(old(out)@) + acts(more@),
{
    let ghost given = more@;
    out.append(&mut more);
    proof {
        assert(acts(out@) =~= acts(old(out)@) + acts(given));
    }
}

pub fn style(out: &mut Vec<DomAct>, el: El, property: &str, value: &str)
    ensures
        acts(final(out)@) == acts(old(out)@).push(Act::Style(el, property@, value@)),
{
    act(out, Act::Style(el, owned(property), owned(value)));
}

pub fn attr(out: &mut Vec<DomAct>, el: El, name: &str, value: &str)
    ensures
        acts(final(out)@) == acts(old(out)@).push(Act::Attr(el, name@, value@)),
{
    act(out, Act::Attr(el, owned(name), owned(value)));
}

pub fn class(out: &mut Vec<DomAct>, el: El, name: &str, on: bool)
    ensures
        acts(final(out)@) == acts(old(out)@).push(Act::Class(el, name@, on)),
{
    act(out, Act::Class(el, owned(name), on));
}

pub fn text(out: &mut Vec<DomAct>, el: El, content: &str)
    ensures
        acts(final(out)@) == acts(old(out)@).push(Act::Text(el, content@)),
{
    act(out, Act::Text(el, owned(content)));
}

/// Emits an event.
pub fn emit(out: &mut Vec<DomAct>, to: Target, event: AppEvent)
    ensures
        acts(final(out)@) == acts(old(out)@).push(Act::Emit { to, event: event@ }),
{
    act(out, Act::Emit { to, event });
}

} // verus!
