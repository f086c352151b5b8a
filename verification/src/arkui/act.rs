//! What this side tells the native nodes to do, one call after the other. A node is known by the
//! number of its handle.
use crate::model::{AppEvent, Length, Rect, SpecEvent, Target};
use crate::num::Num;
use vstd::prelude::*;

verus! {

/// A call on a native node, or an event for the app. `S` holds text and `E` an event: `String`
/// and [`AppEvent`] where code runs, their models in contracts.
#[derive(Debug, PartialEq)]
#[allow(inconsistent_fields)]
pub enum Act<S, E> {
    Text { node: u64, text: S },
    FontSize { node: u64, size: Length },
    FontColor { node: u64, argb: u32 },
    FontFamily { node: u64, family: S },
    FontFeature { node: u64, feature: S },
    Background { node: u64, argb: u32 },
    CornerRadius { node: u64, radius: Num },
    ScrollDirection { node: u64, horizontal: bool },
    Insert { parent: u64, child: u64, index: usize },
    Add { parent: u64, child: u64 },
    Remove { parent: u64, child: u64 },
    /// Frees a node.
    Dispose { node: u64 },
    ImageSource { node: u64, src: S },
    ImageFill { node: u64, argb: u32 },
    ImageFit { node: u64, fit: i32 },
    /// Sizes a node without placing it.
    Resize { node: u64, width: Length, height: Length },
    Frame { node: u64, frame: Rect },
    /// Puts a node at the window's origin, at the window's size.
    FillWindow { node: u64, width: Num, height: Num },
    Margin { node: u64, margin: u32 },
    /// Lets a node take the room its siblings leave.
    Grow { node: u64 },
    StyleRow { node: u64, height: u32 },
    Separator { node: u64, argb: u32 },
    Visible { node: u64, on: bool },
    Register { node: u64, kind: i32, id: u64 },
    EnableFocus { node: u64, id: u64, text: bool },
    EnablePan { node: u64, id: u64 },
    ButtonLabel { node: u64, text: S },
    InputText { node: u64, text: S },
    Placeholder { node: u64, text: S },
    AreaText { node: u64, text: S },
    AreaPlaceholder { node: u64, text: S },
    Options { node: u64, options: S, selected: u32 },
    SelectOption { node: u64, index: u32 },
    Toggle { node: u64, on: bool },
    /// Sets a slider, whose own scale runs over its range in a hundred steps.
    Slider { node: u64, value: Num, min: Num, max: Num },
    Progress { node: u64, value: Num },
    CanvasInit { node: u64, id: u64 },
    ListInit { node: u64, id: u64, pitch: Num, selectable: bool, reorderable: bool, deletable: bool, delete_label: S },
    ListReload { node: u64 },
    ListToEnd { node: u64 },
    ListToRow { node: u64, row: u32 },
    ListPaint { node: u64 },
    RunsBegin { node: u64 },
    /// Adds a span to a label. `scale` multiplies the base size, where there is one.
    RunsAdd { node: u64, text: S, flags: i32, color: u32, background: u32, scale: Option<Num>, base: Length },
    /// Mounts a page as a destination of its own; the answer tells whether there is a place for it.
    NavPush { page: u64, key: u64, title: S },
    NavPop,
    NavTitle { title: S },
    NavGuard { on: bool },
    NavForget { key: u64 },
    NavRemove { key: u64, child: u64 },
    PieceDispose { id: u64 },
    PieceUpdate { id: u64, command: S, arg: S },
    /// Drops the app's row source of a list.
    ForgetSource { id: u64 },
    /// Has a list reloaded on the next turn.
    PostReload { node: u64 },
    PresentFile { req: u64, save: bool, name: S, src_path: S, filters: S },
    CloseWindow { node: u64 },
    Log { line: S },
    /// Reports that a piece of this kind is shown as a placeholder.
    Report { kind: S },
    /// Names a node for a screen reader, or hides it and what is under it.
    Accessible { node: u64, label: S, hidden: bool },
    /// Emits an event.
    Emit { to: Target, event: E },
    /// Emits an event on the next turn, outside the work at hand.
    PostEmit { to: Target, event: E },
}

/// A call as it is made.
pub type ArkAct = Act<String, AppEvent>;

/// A call as contracts speak of it.
pub type SpecAct = Act<Seq<char>, SpecEvent>;

impl View for Act<String, AppEvent> {
    type V = SpecAct;

    open spec fn view(&self) -> SpecAct {
        match self {
            Act::Text { node, text } => Act::Text { node: *node, text: text@ },
            Act::FontSize { node, size } => Act::FontSize { node: *node, size: *size },
            Act::FontColor { node, argb } => Act::FontColor { node: *node, argb: *argb },
            Act::FontFamily { node, family } => Act::FontFamily { node: *node, family: family@ },
            Act::FontFeature { node, feature } => Act::FontFeature { node: *node, feature: feature@ },
            Act::Background { node, argb } => Act::Background { node: *node, argb: *argb },
            Act::CornerRadius { node, radius } => Act::CornerRadius { node: *node, radius: *radius },
            Act::ScrollDirection { node, horizontal } => Act::ScrollDirection { node: *node, horizontal: *horizontal },
            Act::Insert { parent, child, index } => Act::Insert { parent: *parent, child: *child, index: *index },
            Act::Add { parent, child } => Act::Add { parent: *parent, child: *child },
            Act::Remove { parent, child } => Act::Remove { parent: *parent, child: *child },
            Act::Dispose { node } => Act::Dispose { node: *node },
            Act::ImageSource { node, src } => Act::ImageSource { node: *node, src: src@ },
            Act::ImageFill { node, argb } => Act::ImageFill { node: *node, argb: *argb },
            Act::ImageFit { node, fit } => Act::ImageFit { node: *node, fit: *fit },
            Act::Resize { node, width, height } => Act::Resize { node: *node, width: *width, height: *height },
            Act::Frame { node, frame } => Act::Frame { node: *node, frame: *frame },
            Act::FillWindow { node, width, height } => Act::FillWindow { node: *node, width: *width, height: *height },
            Act::Margin { node, margin } => Act::Margin { node: *node, margin: *margin },
            Act::Grow { node } => Act::Grow { node: *node },
            Act::StyleRow { node, height } => Act::StyleRow { node: *node, height: *height },
            Act::Separator { node, argb } => Act::Separator { node: *node, argb: *argb },
            Act::Visible { node, on } => Act::Visible { node: *node, on: *on },
            Act::Register { node, kind, id } => Act::Register { node: *node, kind: *kind, id: *id },
            Act::EnableFocus { node, id, text } => Act::EnableFocus { node: *node, id: *id, text: *text },
            Act::EnablePan { node, id } => Act::EnablePan { node: *node, id: *id },
            Act::ButtonLabel { node, text } => Act::ButtonLabel { node: *node, text: text@ },
            Act::InputText { node, text } => Act::InputText { node: *node, text: text@ },
            Act::Placeholder { node, text } => Act::Placeholder { node: *node, text: text@ },
            Act::AreaText { node, text } => Act::AreaText { node: *node, text: text@ },
            Act::AreaPlaceholder { node, text } => Act::AreaPlaceholder { node: *node, text: text@ },
            Act::Options { node, options, selected } => Act::Options { node: *node, options: options@, selected: *selected },
            Act::SelectOption { node, index } => Act::SelectOption { node: *node, index: *index },
            Act::Toggle { node, on } => Act::Toggle { node: *node, on: *on },
            Act::Slider { node, value, min, max } => Act::Slider { node: *node, value: *value, min: *min, max: *max },
            Act::Progress { node, value } => Act::Progress { node: *node, value: *value },
            Act::CanvasInit { node, id } => Act::CanvasInit { node: *node, id: *id },
            Act::ListInit { node, id, pitch, selectable, reorderable, deletable, delete_label } => Act::ListInit { node: *node, id: *id, pitch: *pitch, selectable: *selectable, reorderable: *reorderable, deletable: *deletable, delete_label: delete_label@ },
            Act::ListReload { node } => Act::ListReload { node: *node },
            Act::ListToEnd { node } => Act::ListToEnd { node: *node },
            Act::ListToRow { node, row } => Act::ListToRow { node: *node, row: *row },
            Act::ListPaint { node } => Act::ListPaint { node: *node },
            Act::RunsBegin { node } => Act::RunsBegin { node: *node },
            Act::RunsAdd { node, text, flags, color, background, scale, base } => Act::RunsAdd { node: *node, text: text@, flags: *flags, color: *color, background: *background, scale: *scale, base: *base },
            Act::NavPush { page, key, title } => Act::NavPush { page: *page, key: *key, title: title@ },
            Act::NavPop => Act::NavPop,
            Act::NavTitle { title } => Act::NavTitle { title: title@ },
            Act::NavGuard { on } => Act::NavGuard { on: *on },
            Act::NavForget { key } => Act::NavForget { key: *key },
            Act::NavRemove { key, child } => Act::NavRemove { key: *key, child: *child },
            Act::PieceDispose { id } => Act::PieceDispose { id: *id },
            Act::PieceUpdate { id, command, arg } => Act::PieceUpdate { id: *id, command: command@, arg: arg@ },
            Act::ForgetSource { id } => Act::ForgetSource { id: *id },
            Act::PostReload { node } => Act::PostReload { node: *node },
            Act::PresentFile { req, save, name, src_path, filters } => Act::PresentFile { req: *req, save: *save, name: name@, src_path: src_path@, filters: filters@ },
            Act::CloseWindow { node } => Act::CloseWindow { node: *node },
            Act::Log { line } => Act::Log { line: line@ },
            Act::Report { kind } => Act::Report { kind: kind@ },
            Act::Accessible { node, label, hidden } => Act::Accessible { node: *node, label: label@, hidden: *hidden },
            Act::Emit { to, event } => Act::Emit { to: *to, event: event@ },
            Act::PostEmit { to, event } => Act::PostEmit { to: *to, event: event@ },
        }
    }
}

/// The calls of a list, as contracts speak of them.
pub open spec fn acts(v: Seq<ArkAct>) -> Seq<SpecAct> {
    Seq::new(v.len(), |i: int| v[i]@)
}

/// Adds a call to the end of a list.
pub fn act(out: &mut Vec<ArkAct>, a: ArkAct)
    ensures
        acts(final(out)@) == acts(old(out)@).push(a@),
{
    out.push(a);
    proof {
        assert(acts(out@) =~= acts(old(out)@).push(a@));
    }
}

/// Adds the calls of another list behind those of this one.
pub fn act_all(out: &mut Vec<ArkAct>, mut more: Vec<ArkAct>)
    ensures
        acts(final(out)@) == acts(old(out)@) + acts(more@),
{
    let ghost given = more@;
    out.append(&mut more);
    proof {
        assert(acts(out@) =~= acts(old(out)@) + acts(given));
    }
}

/// A list with one call.
pub fn one_act(a: ArkAct) -> (out: Vec<ArkAct>)
    ensures
        acts(out@) == seq![a@],
{
    let mut out = no_acts();
    act(&mut out, a);
    proof {
        assert(acts(out@) =~= seq![a@]);
    }
    out
}

/// Adding one list behind another keeps what stands before both.
pub proof fn regroup(s: Seq<SpecAct>, a: Seq<SpecAct>, b: Seq<SpecAct>)
    ensures
        s + a + b == s + (a + b),
{
    assert(s + a + b =~= s + (a + b));
}

/// No call.
pub fn no_acts() -> (out: Vec<ArkAct>)
    ensures
        acts(out@) == Seq::<SpecAct>::empty(),
{
    let out: Vec<ArkAct> = Vec::new();
    proof {
        assert(acts(out@) =~= Seq::<SpecAct>::empty());
    }
    out
}

} // verus!
