//! What the app hears of each thing the platform reports, event by event, and what the platform is
//! answered.
use crate::arkui::act::{Act, SpecAct};
use crate::arkui::events::{
    dark_theme, drop_target, heard, measured, numbers_in, support, told, told_acts, window_of,
    Kind, Measure, Reading,
};
use crate::arkui::menu::{answering, MenuRow};
use crate::arkui::state::ArkView;
use crate::keys::Pairs;
use crate::model::{
    Cap, DragPhase, Event, Length, Point, PresentResult, SpecEvent, Support, Target,
};
use crate::num::Num;
use crate::text::lossy_utf8;
use vstd::prelude::*;

verus! {

/// An event for a node, and nothing else.
pub open spec fn only(id: u64, event: SpecEvent) -> Seq<SpecAct> {
    seq![Act::Emit { to: Target::Node(id), event }]
}

proof fn one_row_answers(rows: Seq<MenuRow>, i: int)
    requires
        0 <= i < rows.len(),
        forall|a: int, b: int| 0 <= a < b < rows.len() ==> rows[a].click != rows[b].click,
    ensures
        answering(rows, rows[i].click) == Some(rows[i]),
    decreases rows.len(),
{
    if i < rows.len() - 1 {
        one_row_answers(rows.drop_last(), i);
    }
}

proof fn no_row_answers(rows: Seq<MenuRow>, click: u64)
    requires
        forall|i: int| 0 <= i < rows.len() ==> rows[i].click != click,
    ensures
        answering(rows, click) is None,
    decreases rows.len(),
{
    if rows.len() > 0 {
        no_row_answers(rows.drop_last(), click);
    }
}

/// A click. On a row of a menu the menu hears that the row was selected; on a node that takes
/// taps it is a tap; on any other it is a press. Nothing is remembered of it.
pub proof fn a_click_is_heard(
    v: ArkView,
    id: u64,
    num: Num,
    text: Option<Vec<u8>>,
    reading: Reading,
    i: int,
)
    requires
        forall|a: int, b: int|
            0 <= a < b < v.menus.rows.len() ==> v.menus.rows[a].click != v.menus.rows[b].click,
    ensures
        ({
            let calls = told_acts(told(v, id, 0, num, text, reading));
            let rows = v.menus.rows;
            let mine = forall|j: int| 0 <= j < rows.len() ==> rows[j].click != id;
            &&& 0 <= i < rows.len() && rows[i].click == id ==> calls == only(
                rows[i].menu,
                Event::SelectionChanged(rows[i].index),
            )
            &&& mine && v.tap_nodes.contains(id) ==> calls == only(
                id,
                Event::Tap(Point { x: Num { bits: 0 }, y: Num { bits: 0 } }),
            )
            &&& mine && !v.tap_nodes.contains(id) ==> calls == only(id, Event::Pressed)
        }),
{
    let rows = v.menus.rows;
    if 0 <= i < rows.len() && rows[i].click == id {
        one_row_answers(rows, i);
    }
    if forall|j: int| 0 <= j < rows.len() ==> rows[j].click != id {
        no_row_answers(rows, id);
    }
}

/// A drag whose numbers can be read is one event: the first phase begins it, gone nowhere yet, the
/// third ends it, and every other number moves it. A drag that cannot be read is not heard.
pub proof fn a_drag_is_heard(v: ArkView, id: u64, num: Num, text: Option<Vec<u8>>, reading: Reading)
    ensures
        ({
            let calls = told_acts(told(v, id, 11, num, text, reading));
            let phase = num.cut_signed();
            &&& reading.drag is None ==> calls.len() == 0
            &&& reading.drag matches Some((at, moved)) ==> {
                &&& phase == 1 ==> calls == only(
                    id,
                    Event::Drag {
                        phase: DragPhase::Began,
                        location: at,
                        translation: Point { x: Num { bits: 0 }, y: Num { bits: 0 } },
                    },
                )
                &&& phase == 3 ==> calls == only(
                    id,
                    Event::Drag { phase: DragPhase::Ended, location: at, translation: moved },
                )
                &&& phase != 1 && phase != 3 ==> calls == only(
                    id,
                    Event::Drag { phase: DragPhase::Changed, location: at, translation: moved },
                )
            }
        }),
{
}

/// Pressing, moving and letting go, which the platform numbers one, two and three, are heard as a
/// drag that begins, changes and ends, on the same node and in that order.
pub proof fn a_drag_begins_changes_and_ends(
    v: ArkView,
    id: u64,
    nums: Seq<Num>,
    texts: Seq<Option<Vec<u8>>>,
    readings: Seq<Reading>,
)
    requires
        nums.len() == 3 && texts.len() == 3 && readings.len() == 3,
        forall|i: int| 0 <= i < 3 ==> (#[trigger] nums[i]).cut_signed() == i + 1,
        forall|i: int| 0 <= i < 3 ==> (#[trigger] readings[i]).drag is Some,
    ensures
        ({
            let one = told_acts(told(v, id, 11, nums[0], texts[0], readings[0]));
            let v1 = heard(v, id, 11, nums[0], Seq::empty(), readings[0].near);
            let two = told_acts(told(v1, id, 11, nums[1], texts[1], readings[1]));
            let v2 = heard(v1, id, 11, nums[1], Seq::empty(), readings[1].near);
            let three = told_acts(told(v2, id, 11, nums[2], texts[2], readings[2]));
            let all = one + two + three;
            &&& all.len() == 3
            &&& forall|i: int|
                0 <= i < 3 ==> {
                    let (at, moved) = readings[i].drag->0;
                    #[trigger] all[i] == SpecAct::Emit {
                        to: Target::Node(id),
                        event: SpecEvent::Drag {
                            phase: if i == 0 {
                                DragPhase::Began
                            } else if i == 1 {
                                DragPhase::Changed
                            } else {
                                DragPhase::Ended
                            },
                            location: at,
                            translation: if i == 0 {
                                Point { x: Num { bits: 0 }, y: Num { bits: 0 } }
                            } else {
                                moved
                            },
                        },
                    }
                }
        }),
{
    a_drag_is_heard(v, id, nums[0], texts[0], readings[0]);
    let v1 = heard(v, id, 11, nums[0], Seq::empty(), readings[0].near);
    a_drag_is_heard(v1, id, nums[1], texts[1], readings[1]);
    let v2 = heard(v1, id, 11, nums[1], Seq::empty(), readings[1].near);
    a_drag_is_heard(v2, id, nums[2], texts[2], readings[2]);
}

/// What was typed is heard as the text, unless it is the text the control was last told; hearing
/// it ends the wait for that text, so that from then on everything typed is heard.
pub proof fn typing_is_heard(
    v: ArkView,
    id: u64,
    num: Num,
    text: Option<Vec<u8>>,
    reading: Reading,
    next: Option<Vec<u8>>,
)
    ensures
        ({
            let t = if text is Some {
                lossy_utf8(text->0@)
            } else {
                Seq::empty()
            };
            let u = if next is Some {
                lossy_utf8(next->0@)
            } else {
                Seq::empty()
            };
            let calls = told_acts(told(v, id, 1, num, text, reading));
            let w = heard(v, id, 1, num, t, reading.near);
            let echo = v.text_echo.contains_key(id) && v.text_echo[id] == t;
            &&& echo ==> calls.len() == 0 && w == v
            &&& !echo ==> {
                &&& calls == only(id, Event::TextChanged(t))
                &&& w == (ArkView { text_echo: w.text_echo, ..v })
                &&& !w.text_echo.contains_key(id)
                &&& forall|other: u64|
                    other != id ==> #[trigger] w.text_echo.contains_key(other)
                        == v.text_echo.contains_key(other) && w.text_echo[other]
                        == v.text_echo[other]
                &&& told_acts(told(w, id, 1, num, next, reading)) == only(
                    id,
                    Event::TextChanged(u),
                )
            }
        }),
{
}

/// A slider's value is heard as a change while it moves and as a commitment when it settles,
/// unless it is the value the slider was last told; hearing it ends the wait for that value.
pub proof fn sliding_is_heard(
    v: ArkView,
    id: u64,
    num: Num,
    text: Option<Vec<u8>>,
    reading: Reading,
    any: Seq<char>,
)
    ensures
        ({
            let moving = told_acts(told(v, id, 3, num, text, reading));
            let settled = told_acts(told(v, id, 22, num, text, reading));
            let w = heard(v, id, 3, num, any, reading.near);
            let echo = v.slider_echo.contains_key(id) && reading.near;
            &&& echo ==> moving.len() == 0 && settled.len() == 0 && w == v
            &&& !echo ==> {
                &&& moving == only(id, Event::ValueChanged(reading.value))
                &&& settled == only(id, Event::ValueCommitted(reading.value))
                &&& w == (ArkView { slider_echo: w.slider_echo, ..v })
                &&& !w.slider_echo.contains_key(id)
                &&& forall|other: u64|
                    other != id ==> #[trigger] w.slider_echo.contains_key(other)
                        == v.slider_echo.contains_key(other) && w.slider_echo[other]
                        == v.slider_echo[other]
            }
            &&& heard(v, id, 22, num, any, reading.near) == w
        }),
{
}

/// A choice is heard as the number of the option, and a picker remembers it.
pub proof fn a_choice_is_heard(
    v: ArkView,
    id: u64,
    num: Num,
    text: Option<Vec<u8>>,
    reading: Reading,
    any: Seq<char>,
)
    requires
        i64::MIN <= num.cut_signed() <= i64::MAX,
    ensures
        ({
            let calls = told_acts(told(v, id, 4, num, text, reading));
            let w = heard(v, id, 4, num, any, reading.near);
            let n = num.cut_signed();
            &&& calls == only(id, Event::SelectionChanged(n as i64))
            &&& v.picked.contains_key(id) && 0 <= n <= usize::MAX ==> w.picked.contains_key(id)
                && w.picked[id] == n
            &&& !v.picked.contains_key(id) || n < 0 ==> w == v
            &&& w == (ArkView { picked: w.picked, ..v })
            &&& forall|other: u64|
                other != id ==> #[trigger] w.picked.contains_key(other) == v.picked.contains_key(
                    other,
                ) && w.picked[other] == v.picked[other]
        }),
{
}

/// The reports that are one event whatever is remembered: a toggle and the focus by whether the
/// number is not zero, the return key, a key with its modifiers as far as a byte goes, a custom
/// piece's number and text, and the file that a dialog answered with, none being a dismissal. No
/// other report is heard. Nothing is remembered of any of them.
pub proof fn plain_reports_are_heard(
    v: ArkView,
    id: u64,
    kind: int,
    num: Num,
    text: Option<Vec<u8>>,
    reading: Reading,
    any: Seq<char>,
)
    ensures
        ({
            let calls = told_acts(told(v, id, kind, num, text, reading));
            let t = if text is Some {
                lossy_utf8(text->0@)
            } else {
                Seq::empty()
            };
            let zero = num.bits == 0 || num.bits == 0x8000_0000_0000_0000;
            let n = num.cut_signed();
            &&& kind == 2 ==> calls == only(id, Event::ToggleChanged(!zero))
            &&& kind == 16 ==> calls == only(id, Event::FocusChanged(!zero))
            &&& kind == 17 ==> calls == only(id, Event::Submitted)
            &&& kind == 29 && text is None ==> calls.len() == 0
            &&& kind == 29 && text is Some ==> {
                &&& 0 <= n <= 255 ==> calls == only(id, Event::Key { key: t, modifiers: n as u8 })
                &&& n < 0 ==> calls == only(id, Event::Key { key: t, modifiers: 0 })
                &&& n > 255 ==> calls == only(id, Event::Key { key: t, modifiers: 255 })
            }
            &&& kind == 12 ==> calls == only(id, Event::Custom { num, text: t })
            &&& kind == 15 && t.len() > 0 ==> calls == only(
                id,
                Event::PresentResult { req: id, result: PresentResult::Files(seq![t]) },
            )
            &&& kind == 15 && t.len() == 0 ==> calls == only(
                id,
                Event::PresentResult { req: id, result: PresentResult::Dismissed },
            )
            &&& (kind < 0 || 5 <= kind <= 10 || 13 <= kind <= 14 || 18 <= kind <= 21 || 23 <= kind
                <= 28 || kind > 29) ==> calls.len() == 0
            &&& kind != 1 && kind != 3 && kind != 4 && kind != 22 ==> heard(
                v,
                id,
                kind,
                num,
                any,
                reading.near,
            ) == v
        }),
{
}

proof fn numbers_keep_order(words: Seq<Option<Num>>, n: int, i: int, j: int)
    requires
        0 <= i < j < n <= words.len(),
        words[i] is Some,
        words[j] is Some,
    ensures
        exists|a: int, b: int|
            0 <= a < b < numbers_in(words, n).len() && #[trigger] numbers_in(words, n)[a]
                == words[i]->0 && #[trigger] numbers_in(words, n)[b] == words[j]->0,
    decreases n,
{
    let before = numbers_in(words, n - 1);
    let all = numbers_in(words, n);
    if j < n - 1 {
        numbers_keep_order(words, n - 1, i, j);
        let (a, b) = choose|a: int, b: int|
            0 <= a < b < before.len() && #[trigger] before[a] == words[i]->0 && #[trigger] before[b]
                == words[j]->0;
        assert(all[a] == words[i]->0 && all[b] == words[j]->0);
    } else {
        number_is_kept(words, n - 1, i);
        let a = choose|a: int| 0 <= a < before.len() && #[trigger] before[a] == words[i]->0;
        assert(all[a] == words[i]->0 && all[before.len() as int] == words[j]->0);
    }
}

proof fn number_is_kept(words: Seq<Option<Num>>, n: int, i: int)
    requires
        0 <= i < n <= words.len(),
        words[i] is Some,
    ensures
        exists|a: int|
            0 <= a < numbers_in(words, n).len() && #[trigger] numbers_in(words, n)[a]
                == words[i]->0,
    decreases n,
{
    let before = numbers_in(words, n - 1);
    let all = numbers_in(words, n);
    if i < n - 1 {
        number_is_kept(words, n - 1, i);
        let a = choose|a: int| 0 <= a < before.len() && #[trigger] before[a] == words[i]->0;
        assert(all[a] == words[i]->0);
    } else {
        assert(all[before.len() as int] == words[i]->0);
    }
}

proof fn all_numbers(words: Seq<Option<Num>>, n: int)
    requires
        0 <= n <= words.len(),
        forall|i: int| 0 <= i < n ==> (#[trigger] words[i]) is Some,
    ensures
        numbers_in(words, n).len() == n,
        forall|i: int| 0 <= i < n ==> #[trigger] numbers_in(words, n)[i] == words[i]->0,
    decreases n,
{
    if n > 0 {
        all_numbers(words, n - 1);
    }
}

/// A drag's numbers are those its words read as, in the words' order; where every word reads as
/// one, they are all there, each in its word's place.
pub proof fn drag_numbers_stand_in_order(words: Seq<Option<Num>>, i: int, j: int)
    ensures
        ({
            let all = numbers_in(words, words.len() as int);
            &&& 0 <= i < j < words.len() && words[i] is Some && words[j] is Some ==> exists|
                a: int,
                b: int,
            |
                0 <= a < b < all.len() && #[trigger] all[a] == words[i]->0 && #[trigger] all[b]
                    == words[j]->0
            &&& (forall|k: int| 0 <= k < words.len() ==> (#[trigger] words[k]) is Some) ==> {
                &&& all.len() == words.len()
                &&& forall|k: int| 0 <= k < words.len() ==> #[trigger] all[k] == words[k]->0
            }
        }),
{
    if 0 <= i < j < words.len() && words[i] is Some && words[j] is Some {
        numbers_keep_order(words, words.len() as int, i, j);
    }
    if forall|k: int| 0 <= k < words.len() ==> (#[trigger] words[k]) is Some {
        all_numbers(words, words.len() as int);
    }
}

/// Where a row may be dropped: nowhere in no list, from no row and to no row; else where the app
/// answers, but no further than the last row.
pub proof fn a_drop_goes_where_the_app_says(
    len: Option<usize>,
    from: u32,
    to: u32,
    answer: i64,
)
    requires
        i32::MIN <= answer <= i32::MAX,
        len matches Some(n) ==> n <= i32::MAX,
    ensures
        len is None ==> drop_target(len, from, to, answer) == -1,
        len matches Some(n) ==> {
            &&& from >= n || to >= n ==> drop_target(len, from, to, answer) == -1
            &&& from < n && to < n && answer < n ==> drop_target(len, from, to, answer) == answer
            &&& from < n && to < n && answer >= n ==> drop_target(len, from, to, answer) == n - 1
        },
{
}

/// The window with a root is the first listed with it; a root that is not listed has none.
pub proof fn a_window_is_found_by_its_root(windows: Pairs, root: u64, i: int)
    ensures
        0 <= i < windows.len() && windows[i].1 == root && (forall|j: int|
            0 <= j < i ==> (#[trigger] windows[j]).1 != root) ==> window_of(windows, root, 0)
            == Some(windows[i].0),
        (forall|j: int| 0 <= j < windows.len() ==> (#[trigger] windows[j]).1 != root) ==> window_of(
            windows,
            root,
            0,
        ) is None,
{
    if 0 <= i < windows.len() && windows[i].1 == root && (forall|j: int|
        0 <= j < i ==> (#[trigger] windows[j]).1 != root) {
        found_from(windows, root, 0, i);
    }
    if forall|j: int| 0 <= j < windows.len() ==> (#[trigger] windows[j]).1 != root {
        not_found_from(windows, root, 0);
    }
}

proof fn found_from(windows: Pairs, root: u64, n: int, i: int)
    requires
        0 <= n <= i < windows.len(),
        windows[i].1 == root,
        forall|j: int| n <= j < i ==> (#[trigger] windows[j]).1 != root,
    ensures
        window_of(windows, root, n) == Some(windows[i].0),
    decreases i - n,
{
    if n < i {
        assert(windows[n].1 != root);
        found_from(windows, root, n + 1, i);
    }
}

proof fn not_found_from(windows: Pairs, root: u64, n: int)
    requires
        0 <= n <= windows.len(),
        forall|j: int| 0 <= j < windows.len() ==> (#[trigger] windows[j]).1 != root,
    ensures
        window_of(windows, root, n) is None,
    decreases windows.len() - n,
{
    if n < windows.len() {
        assert(windows[n].1 != root);
        not_found_from(windows, root, n + 1);
    }
}

/// How big the pieces want to be. A width or a height that is proposed is taken by the pieces that
/// can take it; a toggle has one size, a field and a slider one height.
pub proof fn pieces_want_their_sizes(v: ArkView, node: u64, w: Num, h: Num)
    ensures
        ({
            let given = |k: Kind| measured(v, node, k, Some(w), Some(h));
            let free = |k: Kind| measured(v, node, k, None, None);
            let (wide, high) = (Length::Given(w), Length::Given(h));
            &&& given(Kind::Label) == Measure::Node && free(Kind::Label) == Measure::Node
            &&& given(Kind::Button) == Measure::Node && free(Kind::Button) == Measure::Node
            &&& given(Kind::TextField) == Measure::Size(wide, Length::Whole(40))
            &&& free(Kind::TextField) == Measure::Size(Length::Whole(200), Length::Whole(40))
            &&& given(Kind::Slider) == Measure::Size(wide, Length::Whole(40))
            &&& free(Kind::Slider) == Measure::Size(Length::Whole(200), Length::Whole(40))
            &&& given(Kind::Picker) == Measure::Size(wide, Length::Whole(200))
            &&& free(Kind::Picker) == Measure::Size(Length::Whole(200), Length::Whole(200))
            &&& given(Kind::Toggle) == Measure::Size(Length::Whole(50), Length::Whole(30))
            &&& free(Kind::Toggle) == Measure::Size(Length::Whole(50), Length::Whole(30))
            &&& given(Kind::Divider) == Measure::Size(wide, Length::Whole(1))
            &&& free(Kind::Divider) == Measure::Size(Length::Whole(0), Length::Whole(1))
            &&& given(Kind::Progress) == Measure::Size(wide, high)
            &&& free(Kind::Progress) == Measure::Size(Length::Whole(40), Length::Whole(20))
            &&& given(Kind::NavMenu) == Measure::Size(wide, high)
            &&& free(Kind::NavMenu) == Measure::Size(Length::Whole(240), Length::Whole(400))
            &&& given(Kind::Other) == Measure::Size(wide, high)
            &&& free(Kind::Other) == Measure::Size(Length::Whole(0), Length::Whole(0))
            &&& v.area_lines.contains_key(node) ==> given(Kind::TextArea) == Measure::Lines {
                width: wide,
                min: v.area_lines[node].0,
                max: v.area_lines[node].1,
            }
            &&& !v.area_lines.contains_key(node) ==> free(Kind::TextArea) == Measure::Lines {
                width: Length::Whole(200),
                min: 1,
                max: 0,
            }
        }),
{
}

/// Which capabilities the platform has itself, and which are put together from others. Windows
/// beyond the first are its own where the host has launchers for them, and not to be had else.
pub proof fn capabilities_are_as_listed(cap: Cap, windows: bool)
    ensures
        support(cap, windows) == Support::Native <==> {
            ||| cap == Cap::FileDialogs || cap == Cap::FontList || cap == Cap::Snapshot
            ||| cap == Cap::NavHeader || cap == Cap::ListReorder || cap == Cap::ListDelete
            ||| cap == Cap::TextRuns || cap == Cap::MultiWindow && windows
        },
        support(cap, windows) == Support::Emulated <==> {
            ||| cap == Cap::Toolbar || cap == Cap::NavTabs || cap == Cap::NavTabsAdaptive
            ||| cap == Cap::Cover || cap == Cap::Tree || cap == Cap::BaselineAlignment
        },
{
}

/// The app's own theme decides where it names one; the host's report decides else.
pub proof fn the_theme_is_the_apps_or_the_hosts(
    theme: Option<Seq<char>>,
    system: Option<Seq<char>>,
)
    ensures
        theme == Some("dark"@) ==> dark_theme(theme, system),
        theme == Some("light"@) ==> !dark_theme(theme, system),
        theme != Some("dark"@) && theme != Some("light"@) ==> (dark_theme(theme, system) <==> system
            == Some("1"@)),
{
    reveal_strlit("dark");
    reveal_strlit("light");
    assert("dark"@.len() != "light"@.len());
}

} // verus!
