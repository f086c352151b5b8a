//! What the page reports, and what the app hears of it.
use crate::dom::act::{act, acts, emit, Act, DomAct, SpecAct};
use crate::dom::list::{
    at_least_one, clicked, key_row, keyed, selection_event, selection_paint, ListView,
};
use crate::dom::state::{sound_list, Dom, DomView};
use crate::dom::tree::with_list;
use crate::dom::update::known;
use crate::model::{
    AppEvent, DragPhase, EditOp, Event, Lifecycle, Point, PresentResult, Size, SpecEvent, Target,
    ToolbarValue,
};
use crate::num::Num;
use crate::text::{
    cat2, decimal, decimal_of, last_part, last_part_of, lossy_utf8, owned, text_of_bytes,
};
use vstd::prelude::*;

verus! {

/// The numbers of the shim's reports.
pub const CLICK: u32 = 1;

pub const SUBMIT: u32 = 3;

pub const TOGGLE: u32 = 4;

pub const VALUE: u32 = 5;

pub const SELECT: u32 = 6;

pub const FOCUS: u32 = 7;

pub const TAP: u32 = 8;

pub const DRAG_BEGAN: u32 = 9;

pub const DRAG_MOVED: u32 = 10;

pub const DRAG_ENDED: u32 = 11;

pub const SCROLL: u32 = 12;

pub const RESIZED: u32 = 13;

pub const NAV_BACK: u32 = 14;

pub const VALUE_COMMITTED: u32 = 15;

pub const CONTEXT: u32 = 16;

pub const HOVER_ENTER: u32 = 17;

pub const HOVER_MOVED: u32 = 18;

pub const HOVER_LEFT: u32 = 19;

/// The event a report stands for, with the four numbers that came with it.
pub open spec fn reported(kind: u32, a: Num, b: Num, c: Num, d: Num) -> Option<SpecEvent> {
    let first = Point { x: a, y: b };
    let second = Point { x: c, y: d };
    if kind == CLICK {
        Some(Event::Pressed)
    } else if kind == SUBMIT {
        Some(Event::Submitted)
    } else if kind == TOGGLE {
        Some(Event::ToggleChanged(a.nonzero()))
    } else if kind == VALUE {
        Some(Event::ValueChanged(a))
    } else if kind == VALUE_COMMITTED {
        Some(Event::ValueCommitted(a))
    } else if kind == SELECT {
        Some(Event::SelectionChanged(a.cut_signed() as i64))
    } else if kind == FOCUS {
        Some(Event::FocusChanged(a.nonzero()))
    } else if kind == TAP {
        Some(Event::Tap(first))
    } else if kind == DRAG_BEGAN {
        Some(Event::Drag { phase: DragPhase::Began, location: first, translation: second })
    } else if kind == DRAG_MOVED {
        Some(Event::Drag { phase: DragPhase::Changed, location: first, translation: second })
    } else if kind == DRAG_ENDED {
        Some(Event::Drag { phase: DragPhase::Ended, location: first, translation: second })
    } else if kind == HOVER_ENTER {
        Some(Event::Hover { phase: DragPhase::Began, location: first })
    } else if kind == HOVER_MOVED {
        Some(Event::Hover { phase: DragPhase::Changed, location: first })
    } else if kind == HOVER_LEFT {
        Some(Event::Hover { phase: DragPhase::Ended, location: first })
    } else if kind == SCROLL {
        Some(Event::ScrollChanged(first))
    } else if kind == CONTEXT {
        Some(Event::ContextMenu { local: first, window: second })
    } else if kind == RESIZED {
        Some(Event::FrameChanged(Size { width: a, height: b }))
    } else if kind == NAV_BACK {
        Some(Event::NavBack { already_popped: false })
    } else {
        None
    }
}

fn report(kind: u32, a: Num, b: Num, c: Num, d: Num) -> (e: Option<AppEvent>)
    ensures
        match e {
            Some(e) => reported(kind, a, b, c, d) == Some(e@),
            None => reported(kind, a, b, c, d) is None,
        },
{
    let first = Point { x: a, y: b };
    let second = Point { x: c, y: d };
    if kind == CLICK {
        Some(Event::Pressed)
    } else if kind == SUBMIT {
        Some(Event::Submitted)
    } else if kind == TOGGLE {
        Some(Event::ToggleChanged(a.is_nonzero()))
    } else if kind == VALUE {
        Some(Event::ValueChanged(a))
    } else if kind == VALUE_COMMITTED {
        Some(Event::ValueCommitted(a))
    } else if kind == SELECT {
        Some(Event::SelectionChanged(a.to_i64()))
    } else if kind == FOCUS {
        Some(Event::FocusChanged(a.is_nonzero()))
    } else if kind == TAP {
        Some(Event::Tap(first))
    } else if kind == DRAG_BEGAN {
        Some(Event::Drag { phase: DragPhase::Began, location: first, translation: second })
    } else if kind == DRAG_MOVED {
        Some(Event::Drag { phase: DragPhase::Changed, location: first, translation: second })
    } else if kind == DRAG_ENDED {
        Some(Event::Drag { phase: DragPhase::Ended, location: first, translation: second })
    } else if kind == HOVER_ENTER {
        Some(Event::Hover { phase: DragPhase::Began, location: first })
    } else if kind == HOVER_MOVED {
        Some(Event::Hover { phase: DragPhase::Changed, location: first })
    } else if kind == HOVER_LEFT {
        Some(Event::Hover { phase: DragPhase::Ended, location: first })
    } else if kind == SCROLL {
        Some(Event::ScrollChanged(first))
    } else if kind == CONTEXT {
        Some(Event::ContextMenu { local: first, window: second })
    } else if kind == RESIZED {
        Some(Event::FrameChanged(Size { width: a, height: b }))
    } else if kind == NAV_BACK {
        Some(Event::NavBack { already_popped: false })
    } else {
        None
    }
}

/// Whether the lowest bit of a mask is set, and the one above it.
pub open spec fn bit0(mask: u32) -> bool {
    mask % 2 == 1
}

pub open spec fn bit1(mask: u32) -> bool {
    mask / 2 % 2 == 1
}

pub open spec fn bit2(mask: u32) -> bool {
    mask / 4 % 2 == 1
}

/// One event for whoever an element stands for; nothing where it stands for no node.
pub open spec fn told(v: DomView, el: u32, e: SpecEvent) -> Seq<SpecAct> {
    match known(v.nodes, el) {
        Some(node) => seq![Act::Emit { to: Target::Node(node), event: e }],
        None => Seq::empty(),
    }
}

/// One event for the window.
pub open spec fn window_told(e: SpecEvent) -> Seq<SpecAct> {
    seq![Act::Emit { to: Target::Window, event: e }]
}

/// The row a pressed cell is, in a list that is still there.
pub open spec fn pressed_cell(v: DomView, el: u32) -> Option<(u32, usize)> {
    known(v.cell_rows, el)
}

/// The memory after a report.
pub open spec fn after_report(v: DomView, el: u32, kind: u32, a: Num) -> DomView {
    if kind == CLICK && pressed_cell(v, el) is Some {
        let (host, row) = pressed_cell(v, el)->0;
        let mask = a.cut(u32::MAX as nat) as u32;
        match known(v.lists, host) {
            Some(l) => with_list(v, host, clicked(l, row, bit0(mask), bit1(mask))),
            None => v,
        }
    } else {
        v
    }
}

/// What a report leads to: a press on a list's cell is the list's, anything else is an event
/// for the node that the element stands for.
pub open spec fn report_acts(v: DomView, el: u32, kind: u32, a: Num, b: Num, c: Num, d: Num) -> Seq<
    SpecAct,
> {
    if kind == CLICK && pressed_cell(v, el) is Some {
        let (host, row) = pressed_cell(v, el)->0;
        let mask = a.cut(u32::MAX as nat) as u32;
        match known(v.lists, host) {
            Some(l) => {
                let w = clicked(l, row, bit0(mask), bit1(mask));
                selection_paint(w).push(
                    Act::Emit { to: Target::Node(w.node), event: selection_event(w, row) },
                )
            },
            None => Seq::empty(),
        }
    } else {
        match reported(kind, a, b, c, d) {
            Some(e) => told(v, el, e),
            None => Seq::empty(),
        }
    }
}

fn tell(dom: &Dom, el: u32, e: AppEvent) -> (out: Vec<DomAct>)
    ensures
        acts(out@) == told(dom@, el, e@),
{
    let mut out: Vec<DomAct> = Vec::new();
    match dom.node_of(el) {
        Some(node) => emit(&mut out, Target::Node(node), e),
        None => {},
    }
    proof {
        assert(acts(out@) =~= told(dom@, el, e@));
    }
    out
}

fn tell_window(e: AppEvent) -> (out: Vec<DomAct>)
    ensures
        acts(out@) == window_told(e@),
{
    let mut out: Vec<DomAct> = Vec::new();
    emit(&mut out, Target::Window, e);
    proof {
        assert(acts(out@) =~= window_told(e@));
    }
    out
}

/// The shim reports something about an element.
pub fn day_dom_event(dom: &mut Dom, el: u32, kind: u32, a: Num, b: Num, c: Num, d: Num) -> (out: Vec<
    DomAct,
>)
    requires
        old(dom)@.wf(),
    ensures
        final(dom)@.wf(),
        final(dom)@ == after_report(old(dom)@, el, kind, a),
        acts(out@) == report_acts(old(dom)@, el, kind, a, b, c, d),
{
    let ghost v = dom@;
    if kind == CLICK {
        let cell: Option<(u32, usize)> = match dom.cell_rows.get(el as u64) {
            Some(c) => Some(*c),
            None => None,
        };
        match cell {
            Some((host, row)) => {
                let mask: u32 = a.to_u32();
                let mut out: Vec<DomAct> = Vec::new();
                match dom.lists.take(host as u64) {
                    Some(mut l) => {
                        proof {
                            assert(v.lists.contains_key(host as u64));
                            assert(sound_list(l@));
                        }
                        out = l.click(row, mask % 2 == 1, mask / 2 % 2 == 1);
                        let ghost l1 = l@;
                        dom.lists.put(host as u64, l);
                        proof {
                            assert(dom@.lists =~= v.lists.insert(host as u64, l1));
                        }
                    },
                    None => {
                        proof {
                            assert(dom@.lists =~= v.lists);
                            assert(acts(out@) =~= Seq::<SpecAct>::empty());
                        }
                    },
                }
                proof {
                    assert(dom@ =~= after_report(v, el, kind, a));
                }
                return out;
            },
            None => {},
        }
    }
    match report(kind, a, b, c, d) {
        Some(e) => tell(dom, el, e),
        None => {
            let out: Vec<DomAct> = Vec::new();
            proof {
                assert(acts(out@) =~= Seq::<SpecAct>::empty());
            }
            out
        },
    }
}

/// A key that a focused list claims, in a list of `n` rows.
pub fn day_dom_list_key(dom: &mut Dom, host: u32, dir: u32, mods: u32, n: usize) -> (out: Vec<
    DomAct,
>)
    requires
        old(dom)@.wf(),
    ensures
        final(dom)@.wf(),
        ({
            let v = old(dom)@;
            match known(v.lists, host) {
                Some(l) => if !l.selectable || n == 0 || key_row(l, dir, n) is None {
                    final(dom)@ == v && acts(out@) == Seq::<SpecAct>::empty()
                } else {
                    let row = key_row(l, dir, n)->0;
                    let w = keyed(l, row, bit0(mods));
                    &&& final(dom)@ == with_list(v, host, w)
                    &&& acts(out@) == selection_paint(w).push(
                        Act::RevealRow { el: host, row, pitch: at_least_one(w.pitch) },
                    ).push(Act::Emit { to: Target::Node(w.node), event: selection_event(w, row) })
                },
                None => final(dom)@ == v && acts(out@) == Seq::<SpecAct>::empty(),
            }
        }),
{
    let ghost v = dom@;
    match dom.lists.take(host as u64) {
        Some(mut l) => {
            proof {
                assert(v.lists.contains_key(host as u64));
                assert(sound_list(l@));
            }
            let out = l.key(host, dir, mods % 2 == 1, n);
            let ghost l1 = l@;
            dom.lists.put(host as u64, l);
            proof {
                assert(dom@.lists =~= v.lists.insert(host as u64, l1));
                if l1 == v.lists[host as u64] {
                    assert(dom@.lists =~= v.lists);
                }
            }
            out
        },
        None => {
            let out: Vec<DomAct> = Vec::new();
            proof {
                assert(dom@.lists =~= v.lists);
                assert(dom@ =~= v);
                assert(acts(out@) =~= Seq::<SpecAct>::empty());
            }
            out
        },
    }
}

/// A list scrolled: the rows that came into view are built on the next turn, at most once per
/// turn however many reports arrive.
pub fn day_dom_list_scrolled(dom: &mut Dom, host: u32) -> (out: Vec<DomAct>)
    requires
        old(dom)@.wf(),
    ensures
        final(dom)@.wf(),
        match known(old(dom)@.lists, host) {
            Some(l) => final(dom)@ == with_list(
                old(dom)@,
                host,
                ListView { fill_pending: true, ..l },
            ) && acts(out@) == (if l.fill_pending {
                Seq::empty()
            } else {
                seq![Act::<Seq<char>, SpecEvent>::PostFill(host)]
            }),
            None => final(dom)@ == old(dom)@ && acts(out@) == Seq::<SpecAct>::empty(),
        },
{
    let ghost v = dom@;
    let mut out: Vec<DomAct> = Vec::new();
    proof {
        assert(acts(out@) =~= Seq::<SpecAct>::empty());
    }
    match dom.lists.take(host as u64) {
        Some(mut l) => {
            proof {
                assert(v.lists.contains_key(host as u64));
                assert(sound_list(l@));
            }
            if l.scrolled() {
                act(&mut out, Act::PostFill(host));
                proof {
                    assert(acts(out@) =~= seq![Act::<Seq<char>, SpecEvent>::PostFill(host)]);
                }
            }
            let ghost l1 = l@;
            dom.lists.put(host as u64, l);
            proof {
                assert(dom@.lists =~= v.lists.insert(host as u64, l1));
            }
        },
        None => {
            proof {
                assert(dom@.lists =~= v.lists);
                assert(dom@ =~= v);
            }
        },
    }
    out
}

/// The put-off building of a list's rows is under way.
pub fn list_fill_due(dom: &mut Dom, host: u32)
    requires
        old(dom)@.wf(),
    ensures
        final(dom)@.wf(),
        final(dom)@ == (match known(old(dom)@.lists, host) {
            Some(l) => with_list(old(dom)@, host, ListView { fill_pending: false, ..l }),
            None => old(dom)@,
        }),
{
    let ghost v = dom@;
    match dom.lists.take(host as u64) {
        Some(mut l) => {
            proof {
                assert(v.lists.contains_key(host as u64));
                assert(sound_list(l@));
            }
            l.fill_due();
            let ghost l1 = l@;
            dom.lists.put(host as u64, l);
            proof {
                assert(dom@.lists =~= v.lists.insert(host as u64, l1));
            }
        },
        None => {
            proof {
                assert(dom@.lists =~= v.lists);
                assert(dom@ =~= v);
            }
        },
    }
}

/// Whether the app is asked where a dragged row may go: both places are rows of a list with
/// `len` rows that can be reordered.
pub open spec fn move_is_asked(len: Option<usize>, from: u32, to: u32) -> bool {
    match len {
        Some(n) => from < n && to < n,
        None => false,
    }
}

/// Where a dragged row may go, minus one for nowhere: what the app's guard says, inside the
/// list.
pub open spec fn move_answer(len: Option<usize>, from: u32, to: u32, verdict: i32) -> i32 {
    if move_is_asked(len, from, to) {
        let top = (len->0 - 1) as i32;
        if verdict < top {
            verdict
        } else {
            top
        }
    } else {
        -1i32
    }
}

/// Whether to ask the app's guard about a move; `len` is the number of rows of a list that can
/// be reordered.
pub fn asks_guard(len: Option<usize>, from: u32, to: u32) -> (b: bool)
    ensures
        b == move_is_asked(len, from, to),
{
    match len {
        Some(n) => (from as usize) < n && (to as usize) < n,
        None => false,
    }
}

/// Where a hovered drop may go, given what the app's guard said where it was asked.
pub fn day_dom_list_can_move(len: Option<usize>, from: u32, to: u32, verdict: i32) -> (r: i32)
    ensures
        r == move_answer(len, from, to, verdict),
        r < 0 || len is Some,
        len matches Some(n) ==> (n <= 0x7fff_ffff ==> r < n),
{
    match len {
        Some(n) => {
            if (from as usize) < n && (to as usize) < n {
                let top: i32 = #[verifier::truncate] ((n - 1) as i32);
                if verdict < top {
                    verdict
                } else {
                    top
                }
            } else {
                -1
            }
        },
        None => -1,
    }
}

/// What a drop does: the row it moves to, where it moves at all, and whether it was accepted.
#[derive(Clone, Copy, Debug, PartialEq, Eq, Structural)]
pub struct Drop {
    pub to: Option<usize>,
    pub accepted: bool,
}

/// Commits a drop that the guard accepts: the app moves the row unless it stays where it is, and
/// the list is refilled in its new order.
pub fn day_dom_list_move(host: u32, len: Option<usize>, from: u32, to: u32, verdict: i32) -> (r: (
    Drop,
    Vec<DomAct>,
))
    ensures
        ({
            let answer = move_answer(len, from, to, verdict);
            if answer < 0 {
                r.0 == (Drop { to: None, accepted: false }) && acts(r.1@)
                    == Seq::<SpecAct>::empty()
            } else {
                &&& r.0 == (Drop {
                    to: if answer == from {
                        None
                    } else {
                        Some(answer as usize)
                    },
                    accepted: true,
                })
                &&& acts(r.1@) == seq![Act::<Seq<char>, SpecEvent>::PostPopulate(host)]
            }
        }),
{
    let answer: i32 = day_dom_list_can_move(len, from, to, verdict);
    let mut out: Vec<DomAct> = Vec::new();
    if answer < 0 {
        proof {
            assert(acts(out@) =~= Seq::<SpecAct>::empty());
        }
        return (Drop { to: None, accepted: false }, out);
    }
    act(&mut out, Act::PostPopulate(host));
    proof {
        assert(acts(out@) =~= seq![Act::<Seq<char>, SpecEvent>::PostPopulate(host)]);
    }
    let to: Option<usize> = if answer as u32 == from {
        None
    } else {
        Some(answer as usize)
    };
    (Drop { to, accepted: true }, out)
}

/// A piece's own event.
pub fn day_dom_piece_event(dom: &Dom, el: u32, num: Num, bytes: &Vec<u8>) -> (out: Vec<DomAct>)
    ensures
        acts(out@) == told(dom@, el, Event::Custom { num, text: lossy_utf8(bytes@) }),
{
    tell(dom, el, Event::Custom { num, text: text_of_bytes(bytes) })
}

/// The event a report with text stands for: 16 a link that was followed, 17 a piece's own, any
/// other one new text.
pub open spec fn text_event(kind: u32, t: Seq<char>) -> SpecEvent {
    if kind == 16 {
        Event::LinkActivated(t)
    } else if kind == 17 {
        Event::Custom { num: Num { bits: 0 }, text: t }
    } else {
        Event::TextChanged(t)
    }
}

/// The shim reports text.
pub fn day_dom_event_text(dom: &Dom, el: u32, kind: u32, bytes: &Vec<u8>) -> (out: Vec<DomAct>)
    ensures
        acts(out@) == told(dom@, el, text_event(kind, lossy_utf8(bytes@))),
{
    let t = text_of_bytes(bytes);
    let e: AppEvent = match kind {
        16 => Event::LinkActivated(t),
        17 => Event::Custom { num: Num { bits: 0 }, text: t },
        _ => Event::TextChanged(t),
    };
    tell(dom, el, e)
}

/// The answer to a presented dialog: minus one is dismissed, then text where there is any, else
/// the button.
pub open spec fn dialog_answer(which: i32, bytes: Seq<u8>) -> PresentResult<
    Seq<char>,
    Seq<Seq<char>>,
> {
    if which == -1 {
        PresentResult::Dismissed
    } else if bytes.len() > 0 {
        PresentResult::Text(lossy_utf8(bytes))
    } else {
        PresentResult::Button(which as i64)
    }
}

/// A presented dialog is answered.
pub fn day_dom_present_result(req: u32, which: i32, bytes: &Vec<u8>) -> (out: Vec<DomAct>)
    ensures
        acts(out@) == window_told(
            Event::PresentResult { req: req as u64, result: dialog_answer(which, bytes@) },
        ),
{
    let result: PresentResult<String, Vec<String>> = if which == -1 {
        PresentResult::Dismissed
    } else if bytes.len() > 0 {
        PresentResult::Text(text_of_bytes(bytes))
    } else {
        PresentResult::Button(which as i64)
    };
    tell_window(Event::PresentResult { req: req as u64, result })
}

/// Where a picked file's bytes are kept: under the store's own prefix, by the last part of its
/// name.
pub open spec fn store_path(name: Seq<char>) -> Seq<char> {
    "/day-web/"@ + last_part(name, '/', '\\')
}

/// No name leads out of the store: behind the prefix no separator follows.
pub proof fn a_name_stays_in_the_store(name: Seq<char>, i: int)
    requires
        "/day-web/"@.len() <= i < store_path(name).len(),
    ensures
        store_path(name).take("/day-web/"@.len() as int) == "/day-web/"@,
        store_path(name)[i] != '/',
        store_path(name)[i] != '\\',
{
    crate::text::the_last_part_has_no_separator(name, '/', '\\', name.len() as int);
    assert(store_path(name).take("/day-web/"@.len() as int) =~= "/day-web/"@);
}

/// A file was picked: the path its bytes are to be kept at, and what the app is told.
pub fn day_dom_present_files(req: u32, name: &Vec<u8>) -> (r: (String, Vec<DomAct>))
    ensures
        r.0@ == store_path(lossy_utf8(name@)),
        acts(r.1@) == window_told(
            Event::PresentResult {
                req: req as u64,
                result: PresentResult::Files(seq![store_path(lossy_utf8(name@))]),
            },
        ),
{
    let leaf = last_part_of(text_of_bytes(name).as_str(), '/', '\\');
    let path = cat2("/day-web/", leaf.as_str());
    let mut files: Vec<String> = Vec::new();
    files.push(owned(path.as_str()));
    proof {
        assert(crate::model::texts(files@) =~= seq![store_path(lossy_utf8(name@))]);
    }
    let out = tell_window(
        Event::PresentResult { req: req as u64, result: PresentResult::Files(files) },
    );
    (path, out)
}

/// The edit command of a clipboard report.
pub open spec fn edit_op(op: u32) -> EditOp {
    if op == 0 {
        EditOp::Cut
    } else if op == 1 {
        EditOp::Copy
    } else if op == 2 {
        EditOp::Paste
    } else {
        EditOp::SelectAll
    }
}

/// The browser's clipboard commands, where no text field claimed them.
pub fn day_dom_edit(op: u32) -> (out: Vec<DomAct>)
    ensures
        acts(out@) == window_told(Event::Edit(edit_op(op))),
{
    let op: EditOp = match op {
        0 => EditOp::Cut,
        1 => EditOp::Copy,
        2 => EditOp::Paste,
        _ => EditOp::SelectAll,
    };
    tell_window(Event::Edit(op))
}

/// The name of a key a canvas can claim: arrows and delete keys from zero on, digits from ten
/// on, each named by what it types.
pub open spec fn canvas_key_name(code: u32) -> Option<Seq<char>> {
    if code == 0 {
        Some("ArrowLeft"@)
    } else if code == 1 {
        Some("ArrowRight"@)
    } else if code == 2 {
        Some("ArrowUp"@)
    } else if code == 3 {
        Some("ArrowDown"@)
    } else if code == 4 {
        Some("Delete"@)
    } else if code == 5 {
        Some("Backspace"@)
    } else if 10 <= code <= 19 {
        Some(decimal((code - 10) as nat))
    } else {
        None
    }
}

/// A key pressed on a focused canvas. `handled` says whether the app has a key handler on the
/// canvas's node; only then is the key claimed.
pub fn day_dom_canvas_key(dom: &Dom, el: u32, code: u32, modifiers: u32, handled: bool) -> (r: (
    u32,
    Vec<DomAct>,
))
    ensures
        match (canvas_key_name(code), known(dom@.nodes, el)) {
            (Some(key), Some(node)) => if handled {
                r.0 == 1 && acts(r.1@) == seq![
                    Act::<Seq<char>, SpecEvent>::Emit {
                        to: Target::Node(node),
                        event: Event::Key { key, modifiers: modifiers as u8 },
                    },
                ]
            } else {
                r.0 == 0 && acts(r.1@) == Seq::<SpecAct>::empty()
            },
            _ => r.0 == 0 && acts(r.1@) == Seq::<SpecAct>::empty(),
        },
{
    let mut out: Vec<DomAct> = Vec::new();
    proof {
        assert(acts(out@) =~= Seq::<SpecAct>::empty());
    }
    let key: String = match code {
        0 => owned("ArrowLeft"),
        1 => owned("ArrowRight"),
        2 => owned("ArrowUp"),
        3 => owned("ArrowDown"),
        4 => owned("Delete"),
        5 => owned("Backspace"),
        _ => {
            if code < 10 || code > 19 {
                return (0, out);
            }
            decimal_of((code - 10) as u64)
        },
    };
    match dom.node_of(el) {
        Some(node) => {
            if !handled {
                return (0, out);
            }
            let ghost name = key@;
            emit(
                &mut out,
                Target::Node(node),
                Event::Key { key, modifiers: #[verifier::truncate] (modifiers as u8) },
            );
            proof {
                assert(acts(out@) =~= seq![
                    Act::<Seq<char>, SpecEvent>::Emit {
                        to: Target::Node(node),
                        event: Event::Key { key: name, modifiers: modifiers as u8 },
                    },
                ]);
            }
            (1, out)
        },
        None => (0, out),
    }
}

/// The platform's undo or redo keys.
pub fn day_dom_undo(redo: u32) -> (out: Vec<DomAct>)
    ensures
        acts(out@) == window_told(Event::Undo { redo: redo != 0 }),
{
    tell_window(Event::Undo { redo: redo != 0 })
}

/// A toolbar command was chosen. Its number crosses as a double.
pub fn day_dom_toolbar_action(action: Num) -> (out: Vec<DomAct>)
    ensures
        acts(out@) == window_told(Event::MenuAction(action.cut(u64::MAX as nat) as u64)),
{
    tell_window(Event::MenuAction(action.to_u64()))
}

/// A toolbar toggle flipped.
pub fn day_dom_toolbar_on(action: Num, on: u32) -> (out: Vec<DomAct>)
    ensures
        acts(out@) == window_told(
            Event::ToolbarChanged {
                action: action.cut(u64::MAX as nat) as u64,
                value: ToolbarValue::On(on != 0),
            },
        ),
{
    tell_window(
        Event::ToolbarChanged { action: action.to_u64(), value: ToolbarValue::On(on != 0) },
    )
}

/// A toolbar's segmented choice changed.
pub fn day_dom_toolbar_value(action: Num, index: u32) -> (out: Vec<DomAct>)
    ensures
        acts(out@) == window_told(
            Event::ToolbarChanged {
                action: action.cut(u64::MAX as nat) as u64,
                value: ToolbarValue::Selected(index as usize),
            },
        ),
{
    tell_window(
        Event::ToolbarChanged {
            action: action.to_u64(),
            value: ToolbarValue::Selected(index as usize),
        },
    )
}

/// A toolbar's search text changed.
pub fn day_dom_toolbar_text(action: Num, bytes: &Vec<u8>) -> (out: Vec<DomAct>)
    ensures
        acts(out@) == window_told(
            Event::ToolbarChanged {
                action: action.cut(u64::MAX as nat) as u64,
                value: ToolbarValue::Text(lossy_utf8(bytes@)),
            },
        ),
{
    tell_window(
        Event::ToolbarChanged {
            action: action.to_u64(),
            value: ToolbarValue::Text(text_of_bytes(bytes)),
        },
    )
}

/// The viewport has a new size.
pub fn day_dom_resized(dom: &mut Dom, w: Num, h: Num) -> (out: Vec<DomAct>)
    ensures
        final(dom)@ == (DomView { viewport: Size { width: w, height: h }, ..old(dom)@ }),
        acts(out@) == window_told(Event::WindowResized(Size { width: w, height: h })),
{
    dom.viewport = Size { width: w, height: h };
    tell_window(Event::WindowResized(Size { width: w, height: h }))
}

/// The page came to the front or left it; any other phase is not reported.
pub fn day_dom_lifecycle(phase: u32) -> (out: Vec<DomAct>)
    ensures
        acts(out@) == (if phase == 0 {
            window_told(Event::Lifecycle(Lifecycle::DidBecomeActive))
        } else if phase == 1 {
            window_told(Event::Lifecycle(Lifecycle::WillResignActive))
        } else {
            Seq::empty()
        }),
{
    match phase {
        0 => tell_window(Event::Lifecycle(Lifecycle::DidBecomeActive)),
        1 => tell_window(Event::Lifecycle(Lifecycle::WillResignActive)),
        _ => {
            let out: Vec<DomAct> = Vec::new();
            proof {
                assert(acts(out@) =~= Seq::<SpecAct>::empty());
            }
            out
        },
    }
}

/// The page's address changed under the app.
pub fn day_dom_hash_changed(bytes: &Vec<u8>) -> (out: Vec<DomAct>)
    ensures
        acts(out@) == window_told(Event::RouteRequested(lossy_utf8(bytes@))),
{
    tell_window(Event::RouteRequested(text_of_bytes(bytes)))
}

} // verus!
