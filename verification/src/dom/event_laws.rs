//! What the app hears of each thing the page reports, report by report, and what the page is
//! asked and told of itself.
use crate::dom::act::{Act, SpecAct};
use crate::dom::events::{
    after_report, bit0, bit1, bit2, canvas_key_name, dialog_answer, edit_op, move_answer,
    report_acts, store_path, text_event, told, window_told,
};
use crate::dom::host::{
    badge_number, filled_texts, gesture_mask, measured, present_act, remembered_size, support,
    transform_css, Kind, Measure, TransformText,
};
use crate::dom::list::selection_event;
use crate::dom::state::DomView;
use crate::model::{
    AppBadge, Cap, DragPhase, EditOp, Event, GestureKind, Length, Point, PresentResult, PresentSpec,
    Size, SpecEvent, Support, Target,
};
use crate::num::Num;
use crate::text::lossy_utf8;
use vstd::prelude::*;

verus! {

/// An event for a node, and nothing else.
pub open spec fn only(node: u64, event: SpecEvent) -> Seq<SpecAct> {
    seq![Act::Emit { to: Target::Node(node), event }]
}

/// What is heard of an element's reports that come with numbers, where the element stands for a
/// node: one event for the node, by the report's number. No other report is heard, and nothing
/// is remembered of any.
pub proof fn a_report_is_heard(v: DomView, el: u32, kind: u32, a: Num, b: Num, c: Num, d: Num)
    requires
        v.nodes.contains_key(el as u64),
        !v.cell_rows.contains_key(el as u64),
    ensures
        ({
            let calls = report_acts(v, el, kind, a, b, c, d);
            let node = v.nodes[el as u64];
            let (first, second) = (Point { x: a, y: b }, Point { x: c, y: d });
            let zero = a.bits == 0 || a.bits == 0x8000_0000_0000_0000;
            &&& kind == 1 ==> calls == only(node, Event::Pressed)
            &&& kind == 3 ==> calls == only(node, Event::Submitted)
            &&& kind == 4 ==> calls == only(node, Event::ToggleChanged(!zero))
            &&& kind == 5 ==> calls == only(node, Event::ValueChanged(a))
            &&& kind == 6 ==> calls == only(
                node,
                Event::SelectionChanged(a.cut_signed() as i64),
            )
            &&& kind == 7 ==> calls == only(node, Event::FocusChanged(!zero))
            &&& kind == 8 ==> calls == only(node, Event::Tap(first))
            &&& kind == 9 ==> calls == only(
                node,
                Event::Drag { phase: DragPhase::Began, location: first, translation: second },
            )
            &&& kind == 10 ==> calls == only(
                node,
                Event::Drag { phase: DragPhase::Changed, location: first, translation: second },
            )
            &&& kind == 11 ==> calls == only(
                node,
                Event::Drag { phase: DragPhase::Ended, location: first, translation: second },
            )
            &&& kind == 12 ==> calls == only(node, Event::ScrollChanged(first))
            &&& kind == 13 ==> calls == only(
                node,
                Event::FrameChanged(Size { width: a, height: b }),
            )
            &&& kind == 14 ==> calls == only(node, Event::NavBack { already_popped: false })
            &&& kind == 15 ==> calls == only(node, Event::ValueCommitted(a))
            &&& kind == 16 ==> calls == only(
                node,
                Event::ContextMenu { local: first, window: second },
            )
            &&& kind == 17 ==> calls == only(
                node,
                Event::Hover { phase: DragPhase::Began, location: first },
            )
            &&& kind == 18 ==> calls == only(
                node,
                Event::Hover { phase: DragPhase::Changed, location: first },
            )
            &&& kind == 19 ==> calls == only(
                node,
                Event::Hover { phase: DragPhase::Ended, location: first },
            )
            &&& kind == 0 || kind == 2 || kind > 19 ==> calls.len() == 0
            &&& after_report(v, el, kind, a) == v
        }),
{
}

/// An element that stands for no node is not heard, whatever it reports.
pub proof fn a_stranger_is_not_heard(
    v: DomView,
    el: u32,
    kind: u32,
    a: Num,
    b: Num,
    c: Num,
    d: Num,
    e: SpecEvent,
)
    requires
        !v.nodes.contains_key(el as u64),
    ensures
        told(v, el, e).len() == 0,
        !v.cell_rows.contains_key(el as u64) ==> report_acts(v, el, kind, a, b, c, d).len() == 0,
{
}

/// A press on a row's cell is a press in its list, with control where the report's lowest bit is
/// set and with shift where the next is: exactly the rows that such a press selects end up
/// selected there, the app hears it last, and no other list changes. A cell whose list is gone
/// leads to nothing.
pub proof fn a_cell_is_pressed_in_its_list(v: DomView, cell: u32, a: Num, b: Num, c: Num, d: Num)
    requires
        v.cell_rows.contains_key(cell as u64),
        v.lists.contains_key(v.cell_rows[cell as u64].0 as u64) ==> {
            let l = v.lists[v.cell_rows[cell as u64].0 as u64];
            forall|i: int, j: int| 0 <= i < j < l.selected.len() ==> l.selected[i] < l.selected[j]
        },
    ensures
        ({
            let (host, row) = v.cell_rows[cell as u64];
            let w = after_report(v, cell, 1, a);
            let calls = report_acts(v, cell, 1, a, b, c, d);
            let mask = a.cut(0xffff_ffff);
            let (ctrl, shift) = (mask % 2 == 1, mask / 2 % 2 == 1);
            &&& !v.lists.contains_key(host as u64) ==> w == v && calls.len() == 0
            &&& v.lists.contains_key(host as u64) ==> {
                let (l, m) = (v.lists[host as u64], w.lists[host as u64]);
                &&& forall|x: usize| #[trigger]
                    m.selected.contains(x) <==> if l.multi && ctrl {
                        l.selected.contains(x) != (x == row)
                    } else if l.multi && shift && l.anchor is Some {
                        l.anchor->0 <= x <= row || row <= x <= l.anchor->0
                    } else {
                        x == row
                    }
                &&& m.lead == Some(row)
                &&& calls.len() > 0
                &&& l.multi ==> calls.last() == SpecAct::Emit {
                    to: Target::Node(l.node),
                    event: Event::SelectionSet(
                        Seq::new(m.selected.len(), |i: int| m.selected[i] as i64),
                    ),
                }
                &&& !l.multi ==> calls.last() == SpecAct::Emit {
                    to: Target::Node(l.node),
                    event: Event::SelectionChanged(row as i64),
                }
                &&& w == (DomView { lists: w.lists, ..v })
                &&& forall|other: u64|
                    other != host ==> #[trigger] w.lists.contains_key(other)
                        == v.lists.contains_key(other) && w.lists[other] == v.lists[other]
            }
        }),
{
    let (host, row) = v.cell_rows[cell as u64];
    let mask = a.cut(u32::MAX as nat) as u32;
    if v.lists.contains_key(host as u64) {
        let l = v.lists[host as u64];
        crate::dom::list_laws::a_press_decides_each_row(l, row, bit0(mask), bit1(mask));
        let m = crate::dom::list::clicked(l, row, bit0(mask), bit1(mask));
        crate::dom::list_laws::the_selection_is_heard_as_it_is(m, row);
        assert(selection_event(m, row) == if l.multi {
            SpecEvent::SelectionSet(Seq::new(m.selected.len(), |i: int| m.selected[i] as i64))
        } else {
            SpecEvent::SelectionChanged(row as i64)
        });
    }
}

/// A text that is reported is a link that was followed, a piece's own, or new text; an answer to a
/// dialog is its dismissal, the text that came with it, or its button.
pub proof fn texts_and_answers_are_heard(kind: u32, t: Seq<char>, which: i32, bytes: Seq<u8>)
    ensures
        kind == 16 ==> text_event(kind, t) == SpecEvent::LinkActivated(t),
        kind == 17 ==> text_event(kind, t) == (SpecEvent::Custom { num: Num { bits: 0 }, text: t }),
        kind != 16 && kind != 17 ==> text_event(kind, t) == SpecEvent::TextChanged(t),
        which == -1 ==> dialog_answer(which, bytes)
            == PresentResult::<Seq<char>, Seq<Seq<char>>>::Dismissed,
        which != -1 && bytes.len() > 0 ==> dialog_answer(which, bytes)
            == PresentResult::<Seq<char>, Seq<Seq<char>>>::Text(lossy_utf8(bytes)),
        which != -1 && bytes.len() == 0 ==> dialog_answer(which, bytes)
            == PresentResult::<Seq<char>, Seq<Seq<char>>>::Button(which as i64),
{
}

/// An event for the window is that event for the window, once.
pub proof fn the_window_is_told_once(e: SpecEvent)
    ensures
        window_told(e) == seq![SpecAct::Emit { to: Target::Window, event: e }],
{
}

/// The numbers of the edits: 0 cuts, 1 copies, 2 pastes, anything else selects all.
pub proof fn edits_by_number(op: u32)
    ensures
        edit_op(op) == EditOp::Cut <==> op == 0,
        edit_op(op) == EditOp::Copy <==> op == 1,
        edit_op(op) == EditOp::Paste <==> op == 2,
        edit_op(op) == EditOp::SelectAll <==> op > 2,
{
}

/// The names of the keys a canvas takes: the arrows, the two deletions, and the ten digits by the
/// character each one types.
pub proof fn canvas_keys_by_number(code: u32, d: u32)
    requires
        d < 10,
    ensures
        canvas_key_name(0) == Some("ArrowLeft"@),
        canvas_key_name(1) == Some("ArrowRight"@),
        canvas_key_name(2) == Some("ArrowUp"@),
        canvas_key_name(3) == Some("ArrowDown"@),
        canvas_key_name(4) == Some("Delete"@),
        canvas_key_name(5) == Some("Backspace"@),
        canvas_key_name((10 + d) as u32) == Some(seq![crate::text::digit(d as nat)]),
        6 <= code < 10 || code > 19 ==> canvas_key_name(code) is None,
{
}

/// Where a dragged row may go: nowhere but in a list that can be reordered, between rows there
/// are; there, where the app's guard says, but no further than the last row.
pub proof fn a_drag_goes_where_the_guard_says(
    len: Option<usize>,
    from: u32,
    to: u32,
    verdict: i32,
)
    requires
        len matches Some(n) ==> n <= i32::MAX,
    ensures
        len is None ==> move_answer(len, from, to, verdict) == -1,
        len matches Some(n) ==> {
            &&& from >= n || to >= n ==> move_answer(len, from, to, verdict) == -1
            &&& from < n && to < n && verdict < n ==> move_answer(len, from, to, verdict)
                == verdict
            &&& from < n && to < n && verdict >= n ==> move_answer(len, from, to, verdict) == n - 1
        },
{
}

/// The bits of a mask are those of the number it is.
pub proof fn bits_make_up_the_mask(mask: u32)
    requires
        mask < 8,
    ensures
        mask == (if bit0(mask) {
            1int
        } else {
            0
        }) + (if bit1(mask) {
            2int
        } else {
            0
        }) + (if bit2(mask) {
            4int
        } else {
            0
        }),
{
}

/// A file that was picked is kept in the store, under the last part of its name.
pub proof fn picked_files_are_kept_by_name(dir: Seq<char>, name: Seq<char>)
    requires
        forall|i: int| 0 <= i < name.len() ==> (#[trigger] name[i]) != '/' && name[i] != '\\',
    ensures
        store_path(name) == "/day-web/"@ + name,
        store_path(dir + seq!['/'] + name) == "/day-web/"@ + name,
{
    assert(name.skip(0) =~= name);
    no_separator(name, name, 0);
    let all = dir + seq!['/'] + name;
    assert(all.skip((dir.len() + 1) as int) =~= name);
    no_separator(all, name, (dir.len() + 1) as int);
}

proof fn no_separator(s: Seq<char>, name: Seq<char>, from: int)
    requires
        0 <= from <= s.len(),
        s.skip(from) == name,
        forall|i: int| 0 <= i < name.len() ==> (#[trigger] name[i]) != '/' && name[i] != '\\',
        from > 0 ==> s[from - 1] == '/',
    ensures
        crate::text::last_part(s, '/', '\\') == name,
{
    assert forall|i: int| from <= i < s.len() implies (#[trigger] s[i]) != '/' && s[i] != '\\' by {
        assert(name[i - from] == s[i]);
    }
    behind_is(s, from, s.len() as int);
}

proof fn behind_is(s: Seq<char>, from: int, n: int)
    requires
        0 <= from <= n <= s.len(),
        forall|i: int| from <= i < n ==> (#[trigger] s[i]) != '/' && s[i] != '\\',
        from > 0 ==> s[from - 1] == '/',
    ensures
        crate::text::behind_last(s, '/', '\\', n) == from,
    decreases n,
{
    if n > from {
        behind_is(s, from, n - 1);
    }
}

// ---- what the page can do ----------------------------------------------------------------------

/// Which capabilities the page has itself, and which are put together from others.
pub proof fn capabilities_are_as_listed(cap: Cap)
    ensures
        support(cap) == Support::Native <==> {
            ||| cap == Cap::Cursor || cap == Cap::NavSplit || cap == Cap::NavRepresent
            ||| cap == Cap::Appearance || cap == Cap::Dialogs || cap == Cap::Animation
            ||| cap == Cap::ScrollReports || cap == Cap::FileDialogs || cap == Cap::EditBridge
            ||| cap == Cap::TextRuns || cap == Cap::TextLinks || cap == Cap::TextEditable
            ||| cap == Cap::TextSelectable || cap == Cap::TextSpellCheck
        },
        support(cap) == Support::Emulated <==> {
            ||| cap == Cap::FontList || cap == Cap::NavTabs || cap == Cap::NavTabsAdaptive
            ||| cap == Cap::BaselineAlignment || cap == Cap::Toolbar || cap == Cap::AppBadgeCount
            ||| cap == Cap::AppBadgeDot || cap == Cap::ListRecycling || cap == Cap::Tree
            ||| cap == Cap::ListReorder || cap == Cap::Cover
        },
{
}

/// A badge's number: a count is itself as far as it goes, no count is no badge, a dot is zero, and
/// a text is none.
pub proof fn badges_are_numbered(n: u32, t: String)
    ensures
        badge_number(AppBadge::Off) == Some(-1i32),
        badge_number(AppBadge::Dot) == Some(0i32),
        n == 0 ==> badge_number(AppBadge::Count(n)) == Some(-1i32),
        0 < n <= i32::MAX ==> badge_number(AppBadge::Count(n)) == Some(n as i32),
        n > i32::MAX ==> badge_number(AppBadge::Count(n)) == Some(i32::MAX),
        badge_number(AppBadge::Text(t)) is None,
{
}

/// The gestures the page delivers are the tap, the drag and hovering, each by a bit of its own.
pub proof fn gestures_have_their_bits()
    ensures
        gesture_mask(GestureKind::Tap) == 128,
        gesture_mask(GestureKind::Drag) == 256,
        gesture_mask(GestureKind::Hover) == 512,
        gesture_mask(GestureKind::LongPress) == 0,
        gesture_mask(GestureKind::Pinch) == 0,
        gesture_mask(GestureKind::Pan) == 0,
{
}

/// How big the pieces want to be: what is proposed where they take it, else their own size. A text
/// area without a height shows as many lines as its hints come to, a picker and a spinner are as
/// big as they were found to be.
pub proof fn pieces_want_their_sizes(v: DomView, el: u32, w: Num, h: Num)
    ensures
        ({
            let given = |k: Kind| measured(v, el, k, Some(w), Some(h));
            let free = |k: Kind| measured(v, el, k, None, None);
            let (wide, high) = (Length::Given(w), Length::Given(h));
            &&& given(Kind::Label) == Measure::WrappedText
            &&& free(Kind::Label) == Measure::WrappedText
            &&& given(Kind::Button) == Measure::ButtonText
            &&& free(Kind::Button) == Measure::ButtonText
            &&& given(Kind::Toggle) == Measure::Size(Length::Whole(40), Length::Whole(24))
            &&& free(Kind::Toggle) == Measure::Size(Length::Whole(40), Length::Whole(24))
            &&& given(Kind::Slider) == Measure::Size(wide, Length::Whole(24))
            &&& free(Kind::Slider) == Measure::Size(Length::Whole(180), Length::Whole(24))
            &&& given(Kind::TextField) == Measure::Size(wide, Length::Whole(30))
            &&& free(Kind::TextField) == Measure::Size(Length::Whole(200), Length::Whole(30))
            &&& given(Kind::TextArea) == Measure::Size(wide, high)
            &&& !v.area_hints.contains_key(el as u64) ==> free(Kind::TextArea) == Measure::Lines {
                width: Length::Whole(240),
                lines: 1,
            }
            &&& v.picker_size.contains_key(el as u64) ==> free(Kind::Picker) == Measure::Size(
                Length::Given(v.picker_size[el as u64].width),
                Length::Given(v.picker_size[el as u64].height),
            )
            &&& !v.picker_size.contains_key(el as u64) ==> free(Kind::Picker) == Measure::Size(
                Length::Whole(68),
                Length::Whole(26),
            )
            &&& v.spinners.contains_key(el as u64) ==> given(Kind::Progress) == Measure::Size(
                Length::Whole(22),
                Length::Whole(22),
            )
            &&& !v.spinners.contains_key(el as u64) ==> {
                &&& given(Kind::Progress) == Measure::Size(wide, Length::Whole(8))
                &&& free(Kind::Progress) == Measure::Size(Length::Whole(160), Length::Whole(8))
            }
            &&& given(Kind::Divider) == Measure::Size(wide, Length::Whole(1))
            &&& free(Kind::Divider) == Measure::Size(Length::Whole(0), Length::Whole(1))
            &&& given(Kind::Image) == Measure::Size(wide, high)
            &&& free(Kind::Image) == Measure::Size(Length::Whole(100), Length::Whole(100))
            &&& given(Kind::Other) == Measure::Size(wide, high)
            &&& free(Kind::Other) == Measure::Size(Length::Whole(0), Length::Whole(0))
        }),
{
}

/// The size remembered for a width is the last one remembered for it.
pub proof fn the_last_size_is_remembered(v: Seq<(i64, Size)>, key: i64, size: Size, other: i64)
    ensures
        remembered_size(v.push((key, size)), key, (v.len() + 1) as int) == Some(size),
        other != key ==> remembered_size(v.push((key, size)), other, (v.len() + 1) as int)
            == remembered_size(v, other, v.len() as int),
{
    same_sizes(v, v.push((key, size)), other, v.len() as int);
}

proof fn same_sizes(v: Seq<(i64, Size)>, more: Seq<(i64, Size)>, key: i64, n: int)
    requires
        n <= v.len() <= more.len(),
        forall|i: int| 0 <= i < v.len() ==> v[i] == more[i],
    ensures
        remembered_size(v, key, n) == remembered_size(more, key, n),
    decreases n,
{
    if n > 0 {
        same_sizes(v, more, key, n - 1);
    }
}

/// The page's locales are those of its list that are not empty, none left out.
pub proof fn every_locale_is_hinted(v: Seq<Seq<char>>, t: Seq<char>)
    ensures
        filled_texts(v, v.len() as int).contains(t) <==> v.contains(t) && t.len() > 0,
{
    filled_members(v, v.len() as int, t);
    if v.contains(t) {
        let i = v.index_of(t);
        assert(0 <= i < v.len() && v[i] == t);
    }
}

proof fn filled_members(v: Seq<Seq<char>>, n: int, t: Seq<char>)
    requires
        0 <= n <= v.len(),
    ensures
        filled_texts(v, n).contains(t) <==> (t.len() > 0 && exists|i: int|
            0 <= i < n && #[trigger] v[i] == t),
    decreases n,
{
    if n > 0 {
        filled_members(v, n - 1, t);
        let before = filled_texts(v, n - 1);
        let all = filled_texts(v, n);
        if before.contains(t) {
            assert(all[before.index_of(t)] == t);
        }
        if v[n - 1] == t && t.len() > 0 {
            assert(all[before.len() as int] == t);
        }
        if all.contains(t) {
            let k = all.index_of(t);
            if k < before.len() {
                assert(before[k] == t);
            } else {
                assert(v[n - 1] == t);
            }
        }
    }
}

/// A transform moves, then turns, then scales.
pub proof fn a_transform_in_css(t: TransformText)
    ensures
        transform_css(t) == "translate("@ + t.tx@ + "px,"@ + t.ty@ + "px) rotate("@
            + t.rotate_deg@ + "deg) scale("@ + t.sx@ + ","@ + t.sy@ + ")"@,
{
}

/// Presenting a save hands over its title, the name to suggest and where its bytes are; presenting
/// anything else hands over its text.
pub proof fn surfaces_are_presented(req: u32, spec: PresentSpec)
    ensures
        spec matches PresentSpec::SaveFile { title, suggested_name, src_path, .. } ==> present_act(
            req as u64,
            spec,
        ) == (SpecAct::PresentSave {
            req,
            json: crate::dom::specs::save_surface(title@, suggested_name@),
            src_path: src_path@,
        }),
        !(spec is SaveFile) ==> present_act(req as u64, spec) == (SpecAct::Present {
            req,
            json: crate::dom::specs::surface(spec)->0,
        }),
{
}

} // verus!
