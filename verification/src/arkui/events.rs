//! What comes back from the platform: clicks and typing, windows, rows of lists, and answers.
use crate::arkui::act::{acts, no_acts, one_act, Act, ArkAct, SpecAct};
use crate::arkui::menu::{
    a_numbered_row_answers, answering, clicks_of, line_act, line_node, numbered,
    numbering_keeps_numbers_apart, put_under, rows_acts, rows_kinds, rows_stand_in_order,
    with_rows, FIRST_CLICK,
};
use crate::arkui::nav::{destination_gone, gone_acts, host_told, shown};
use crate::arkui::realize::{realized, room_for_rows};
use crate::arkui::state::{ArkUi, ArkView};
use crate::arkui::update::kept_option;
use crate::keys::Pairs;
use crate::logging::Level;
use crate::model::{
    AppEvent, Cap, DragPhase, Event, GestureKind, Length, Point, PresentResult, PresentSpec, Size,
    SpecEvent, Support, Target,
};
use crate::num::Num;
use crate::pieces::{MenuRows, Piece};
use crate::table::{entry, found};
use crate::text::{lossy_utf8, owned, same, text_of_bytes};
use vstd::prelude::*;

verus! {

/// The text that came with an event; none reads as empty.
pub open spec fn text_of(text: Option<Vec<u8>>) -> Seq<char> {
    match text {
        Some(bytes) => lossy_utf8(bytes@),
        None => Seq::empty(),
    }
}

fn given_text(text: &Option<Vec<u8>>) -> (t: String)
    ensures
        t@ == text_of(*text),
{
    match text {
        Some(bytes) => text_of_bytes(bytes),
        None => String::new(),
    }
}

/// What the numbers of an event come to: a slider's value on its range and whether that is, but
/// for rounding, the value last set, and where a drag is and how far it went.
pub struct Reading {
    pub value: Num,
    pub near: bool,
    pub drag: Option<(Point, Point)>,
}

/// The numbers among the first `n` words of a drag's text; a word that reads as none is passed
/// over.
pub open spec fn numbers_in(words: Seq<Option<Num>>, n: int) -> Seq<Num>
    decreases n,
{
    if n <= 0 {
        Seq::empty()
    } else {
        match words[n - 1] {
            Some(x) => numbers_in(words, n - 1).push(x),
            None => numbers_in(words, n - 1),
        }
    }
}

/// The words of a drag's text, which stand between commas.
pub fn drag_words(text: &str) -> (words: Vec<String>)
    ensures
        crate::model::texts(words@) == crate::text::split(text@, ','),
{
    let words = crate::text::split_on(text, ',');
    proof {
        assert(crate::model::texts(words@) =~= crate::text::split(text@, ','));
    }
    words
}

/// Where a drag is and how far it went, from what the words of its text read as: the first four
/// numbers, where there are as many.
pub fn drag_numbers(words: &Vec<Option<Num>>) -> (r: Option<(Num, Num, Num, Num)>)
    ensures
        ({
            let all = numbers_in(words@, words@.len() as int);
            r == (if all.len() >= 4 {
                Some((all[0], all[1], all[2], all[3]))
            } else {
                None
            })
        }),
{
    let mut found: Vec<Num> = Vec::new();
    let mut i: usize = 0;
    while i < words.len()
        invariant
            i <= words.len(),
            found@ == numbers_in(words@, i as int),
        decreases words.len() - i,
    {
        match words[i] {
            Some(x) => found.push(x),
            None => {},
        }
        i = i + 1;
    }
    if found.len() >= 4 {
        Some((found[0], found[1], found[2], found[3]))
    } else {
        None
    }
}

/// The zero point.
pub open spec fn nowhere() -> Point {
    Point { x: Num { bits: 0 }, y: Num { bits: 0 } }
}

fn no_point() -> (p: Point)
    ensures
        p == nowhere(),
{
    Point { x: Num { bits: 0 }, y: Num { bits: 0 } }
}

/// The path that a file dialog answered with, or that it was dismissed.
pub open spec fn file_answer(path: Seq<char>) -> PresentResult<Seq<char>, Seq<Seq<char>>> {
    if path.len() == 0 {
        PresentResult::Dismissed
    } else {
        PresentResult::Files(seq![path])
    }
}

/// A drag's phase: one begins it, three ends it, anything else moves it. A drag that begins has
/// gone nowhere yet.
pub open spec fn drag_event(phase: int, at: Point, moved: Point) -> SpecEvent {
    if phase == 1 {
        Event::Drag { phase: DragPhase::Began, location: at, translation: nowhere() }
    } else if phase == 3 {
        Event::Drag { phase: DragPhase::Ended, location: at, translation: moved }
    } else {
        Event::Drag { phase: DragPhase::Changed, location: at, translation: moved }
    }
}

/// A text that a control reports is only the text it was told, come back.
pub open spec fn is_text_echo(v: ArkView, id: u64, text: Seq<char>) -> bool {
    entry(v.text_echo, id) == Some(text)
}

/// A value that a slider reports is only the value it was told, come back.
pub open spec fn is_value_echo(v: ArkView, id: u64, near: bool) -> bool {
    v.slider_echo.contains_key(id) && near
}

/// The memory after an event: a text or a value that the user chose ends the wait for the echo,
/// and a picker's choice is the option it shows.
pub open spec fn heard(v: ArkView, id: u64, kind: int, num: Num, text: Seq<char>, near: bool) -> ArkView {
    if kind == 1 && !is_text_echo(v, id, text) {
        ArkView { text_echo: v.text_echo.remove(id), ..v }
    } else if (kind == 3 || kind == 22) && !is_value_echo(v, id, near) {
        ArkView { slider_echo: v.slider_echo.remove(id), ..v }
    } else if kind == 4 && v.picked.contains_key(id) && num.cut_signed() >= 0 {
        ArkView { picked: v.picked.insert(id, num.cut_signed() as i64 as usize), ..v }
    } else {
        v
    }
}

/// What the app hears of an event. A click on a menu's row selects that row; a click on a node
/// that takes taps is a tap.
pub open spec fn told(
    v: ArkView,
    id: u64,
    kind: int,
    num: Num,
    text: Option<Vec<u8>>,
    reading: Reading,
) -> Option<(Target, SpecEvent)> {
    let node = Target::Node(id);
    if kind == 0 {
        match answering(v.menus.rows, id) {
            Some(row) => Some((Target::Node(row.menu), Event::SelectionChanged(row.index))),
            None => if v.tap_nodes.contains(id) {
                Some((node, Event::Tap(nowhere())))
            } else {
                Some((node, Event::Pressed))
            },
        }
    } else if kind == 4 {
        Some((node, Event::SelectionChanged(num.cut_signed() as i64)))
    } else if kind == 1 {
        if is_text_echo(v, id, text_of(text)) {
            None
        } else {
            Some((node, Event::TextChanged(text_of(text))))
        }
    } else if kind == 2 {
        Some((node, Event::ToggleChanged(num.nonzero())))
    } else if kind == 16 {
        Some((node, Event::FocusChanged(num.nonzero())))
    } else if kind == 17 {
        Some((node, Event::Submitted))
    } else if kind == 29 {
        match text {
            Some(bytes) => Some(
                (node, Event::Key { key: lossy_utf8(bytes@), modifiers: byte_of(num) }),
            ),
            None => None,
        }
    } else if kind == 11 {
        match reading.drag {
            Some((at, moved)) => Some((node, drag_event(num.cut_signed(), at, moved))),
            None => None,
        }
    } else if kind == 3 || kind == 22 {
        if is_value_echo(v, id, reading.near) {
            None
        } else if kind == 22 {
            Some((node, Event::ValueCommitted(reading.value)))
        } else {
            Some((node, Event::ValueChanged(reading.value)))
        }
    } else if kind == 12 {
        Some((node, Event::Custom { num, text: text_of(text) }))
    } else if kind == 15 {
        Some((node, Event::PresentResult { req: id, result: file_answer(text_of(text)) }))
    } else {
        None
    }
}

/// A number cut to a byte, as far as a byte goes.
pub open spec fn byte_of(n: Num) -> u8 {
    let w = n.cut_signed();
    if w < 0 {
        0
    } else if w > 255 {
        255
    } else {
        w as u8
    }
}

fn to_byte(n: Num) -> (b: u8)
    ensures
        b == byte_of(n),
{
    let w: i64 = n.to_i64();
    if w < 0 {
        0
    } else if w > 255 {
        255
    } else {
        w as u8
    }
}

/// The calls for what the app hears.
pub open spec fn told_acts(t: Option<(Target, SpecEvent)>) -> Seq<SpecAct> {
    match t {
        Some((to, event)) => seq![Act::Emit { to, event }],
        None => Seq::empty(),
    }
}

/// What was just set comes back once for every report of it, and the app never hears it; the
/// first other text is the user's, and so is everything after it.
pub proof fn an_echo_is_not_the_user(
    v: ArkView,
    id: u64,
    bytes: Vec<u8>,
    num: Num,
    reading: Reading,
)
    requires
        is_text_echo(v, id, lossy_utf8(bytes@)),
    ensures
        told(v, id, 1, num, Some(bytes), reading) is None,
        heard(v, id, 1, num, lossy_utf8(bytes@), reading.near) == v,
{
}

/// After the user typed, whatever is reported is the user's, until a text is set again.
pub proof fn typing_ends_the_wait(
    v: ArkView,
    id: u64,
    num: Num,
    text: Seq<char>,
    next: Seq<char>,
    near: bool,
)
    requires
        !is_text_echo(v, id, text),
    ensures
        !is_text_echo(heard(v, id, 1, num, text, near), id, next),
{
}

/// The option the user chose is the one a picker keeps when it gets others.
pub proof fn a_choice_is_kept(v: ArkView, node: u64, id: u64, num: Num, near: bool, count: nat)
    requires
        entry(v.controls, node) == Some(id),
        v.picked.contains_key(id),
        0 <= num.cut_signed() < count <= u32::MAX,
    ensures
        kept_option(heard(v, id, 4, num, Seq::empty(), near), node, count) == num.cut_signed(),
{
}

/// A row's click is heard as a selection in its menu, whatever else is known of its number.
pub proof fn a_row_selects_in_its_menu(
    v: ArkView,
    click: u64,
    num: Num,
    text: Option<Vec<u8>>,
    reading: Reading,
)
    requires
        answering(v.menus.rows, click) is Some,
    ensures
        told(v, click, 0, num, text, reading) == Some(
            (
                Target::Node((answering(v.menus.rows, click)->0).menu),
                Event::<Seq<char>, Seq<i64>, Seq<Seq<char>>>::SelectionChanged(
                    (answering(v.menus.rows, click)->0).index,
                ),
            ),
        ),
{
}

/// A menu that was just built hears a click on row `i` as the selection of `i`, in its column and,
/// where its rows make a bar, in the bar.
pub proof fn a_built_row_selects(
    v: ArkView,
    menu: u64,
    r: MenuRows,
    selected: Option<usize>,
    nodes: Seq<u64>,
    vectors: Seq<String>,
    i: int,
    num: Num,
    text: Option<Vec<u8>>,
    reading: Reading,
)
    requires
        v.wf(),
        room_for_rows(v, r),
        0 <= i < r.items@.len(),
    ensures
        ({
            let w = realized(v, Piece::NavMenu { rows: r, selected }, menu, nodes, vectors);
            let n = r.items@.len();
            let first = if v.suite is Some {
                v.menus.next + n
            } else {
                v.menus.next as int
            };
            let chosen = Some(
                (
                    Target::Node(menu),
                    Event::<Seq<char>, Seq<i64>, Seq<Seq<char>>>::SelectionChanged(i as i64),
                ),
            );
            &&& w.menus.next == first + n
            &&& w.menus.rows.len() == v.menus.rows.len() + (first + n - v.menus.next)
            &&& told(w, (first + i) as u64, 0, num, text, reading) == chosen
            &&& v.suite is Some ==> told(w, (v.menus.next + i) as u64, 0, num, text, reading)
                == chosen
        }),
{
    let n = r.items@.len() as int;
    let w = realized(v, Piece::NavMenu { rows: r, selected }, menu, nodes, vectors);
    if v.suite is Some {
        let bar = with_rows(v.menus, menu, n);
        numbering_keeps_numbers_apart(v.menus, menu, n);
        a_numbered_row_answers(v.menus, menu, n, i, 0);
        a_numbered_row_answers(bar, menu, n, i, (v.menus.next + i) as u64);
        assert(w.menus.rows == with_rows(bar, menu, n).rows);
        a_row_selects_in_its_menu(w, (bar.next + i) as u64, num, text, reading);
        a_row_selects_in_its_menu(w, (v.menus.next + i) as u64, num, text, reading);
    } else {
        a_numbered_row_answers(v.menus, menu, n, i, 0);
        assert(w.menus.rows == with_rows(v.menus, menu, n).rows);
        a_row_selects_in_its_menu(w, (v.menus.next + i) as u64, num, text, reading);
    }
}

/// The rows of a menu that is built: exactly one number more for each item, which answered nothing
/// before, each its own and with the highest bit set; a click under the `i`-th tells the menu that
/// `i` was selected, and nothing else; and the column holds the rows in the order of their items,
/// the `i`-th reporting its clicks under the `i`-th number, with a line between neighbors and none
/// below the last.
pub proof fn the_rows_of_a_menu(
    v: ArkView,
    menu: u64,
    r: MenuRows,
    col: u64,
    nodes: Seq<u64>,
    from: int,
    vectors: Seq<String>,
    num: Num,
    text: Option<Vec<u8>>,
    reading: Reading,
)
    requires
        v.menus.wf(),
        r.items@.len() < 0x4000_0000,
        v.menus.next + r.items@.len() <= u64::MAX,
        forall|j: int|
            0 <= j < r.items@.len() ==> nodes[from + #[trigger] rows_kinds(r, j).len()] != col,
    ensures
        ({
            let n = r.items@.len();
            let old_rows = v.menus.rows;
            let w = ArkView { menus: with_rows(v.menus, menu, n as int), ..v };
            let more = w.menus.rows.skip(old_rows.len() as int);
            let all = rows_acts(v.dark, r, n as int, col, nodes, from, v.menus.next, vectors);
            let places = put_under(all, col);
            let clicks = clicks_of(all);
            &&& w.menus.rows == old_rows + more
            &&& more.len() == n
            &&& clicks.len() == n
            &&& forall|i: int, j: int|
                0 <= i < j < n ==> (#[trigger] more[i]).click != (#[trigger] more[j]).click
            &&& forall|i: int|
                0 <= i < n ==> {
                    let row = #[trigger] more[i];
                    &&& row.menu == menu && row.index == i
                    &&& row.click >= FIRST_CLICK
                    &&& answering(old_rows, row.click) is None
                    &&& told_acts(told(w, row.click, 0, num, text, reading)) == seq![
                        Act::<Seq<char>, SpecEvent>::Emit {
                            to: Target::Node(menu),
                            event: Event::SelectionChanged(i as i64),
                        },
                    ]
                    &&& clicks[i] == (places[2 * i].0, row.click)
                }
            &&& places.len() == (if n > 0 {
                2 * n - 1
            } else {
                0
            })
            &&& forall|j: int| 0 <= j < places.len() ==> (#[trigger] places[j]).1 == j
            &&& forall|i: int|
                0 <= i < n - 1 ==> all.contains(line_act(v.dark, (#[trigger] places[2 * i + 1]).0))
        }),
{
    let n = r.items@.len() as int;
    let w = ArkView { menus: with_rows(v.menus, menu, n), ..v };
    let more = w.menus.rows.skip(v.menus.rows.len() as int);
    let all = rows_acts(v.dark, r, n, col, nodes, from, v.menus.next, vectors);
    let places = put_under(all, col);
    assert(more =~= numbered(menu, v.menus.next, n));
    rows_stand_in_order(v.dark, r, col, nodes, from, v.menus.next, vectors);
    assert forall|i: int| 0 <= i < n implies {
        let row = #[trigger] more[i];
        &&& row.menu == menu && row.index == i
        &&& row.click >= FIRST_CLICK
        &&& answering(v.menus.rows, row.click) is None
        &&& told_acts(told(w, row.click, 0, num, text, reading)) == seq![
            Act::<Seq<char>, SpecEvent>::Emit {
                to: Target::Node(menu),
                event: Event::SelectionChanged(i as i64),
            },
        ]
        &&& clicks_of(all)[i] == (places[2 * i].0, row.click)
    } by {
        a_numbered_row_answers(v.menus, menu, n, i, 0);
        a_row_selects_in_its_menu(w, more[i].click, num, text, reading);
        assert(places[2 * i].0 == nodes[from + rows_kinds(r, i).len()]);
    }
    assert forall|i: int| 0 <= i < n - 1 implies all.contains(
        line_act(v.dark, (#[trigger] places[2 * i + 1]).0),
    ) by {
        assert(places[2 * i + 1].0 == line_node(r, i, nodes, from));
    }
}

fn one_text(t: String) -> (v: Vec<String>)
    ensures
        crate::model::texts(v@) == seq![t@],
{
    let mut v: Vec<String> = Vec::new();
    v.push(t);
    proof {
        assert(crate::model::texts(v@) =~= seq![t@]);
    }
    v
}

/// Hands the app an event.
pub fn emit(to: Target, event: AppEvent) -> (out: Vec<ArkAct>)
    ensures
        acts(out@) == told_acts(Some((to, event@))),
{
    one_act(Act::Emit { to, event })
}

impl ArkUi {
    fn clicked(&self, id: u64) -> (out: Vec<ArkAct>)
        ensures
            forall|num: Num, text: Option<Vec<u8>>, reading: Reading|
                acts(out@) == told_acts(#[trigger] told(self@, id, 0, num, text, reading)),
    {
        match self.menus.find(id) {
            Some(row) => emit(Target::Node(row.menu), Event::SelectionChanged(row.index)),
            None => if self.tap_nodes.has(id) {
                emit(Target::Node(id), Event::Tap(no_point()))
            } else {
                emit(Target::Node(id), Event::Pressed)
            },
        }
    }

    fn chose(&mut self, id: u64, num: Num) -> (out: Vec<ArkAct>)
        requires
            old(self)@.wf(),
        ensures
            final(self)@ == heard(old(self)@, id, 4, num, Seq::empty(), false),
            final(self)@.wf(),
            acts(out@) == told_acts(
                Some((Target::Node(id), Event::SelectionChanged(num.cut_signed() as i64))),
            ),
    {
        let index: i64 = num.to_i64();
        if self.picked.has(id) && index >= 0 {
            self.picked.put(
                id,
                #[verifier::truncate]
                (index as usize),
            );
        }
        emit(Target::Node(id), Event::SelectionChanged(index))
    }

    fn typed(&mut self, id: u64, text: String) -> (out: Vec<ArkAct>)
        requires
            old(self)@.wf(),
        ensures
            final(self)@ == heard(old(self)@, id, 1, Num { bits: 0 }, text@, false),
            final(self)@.wf(),
            acts(out@) == (if is_text_echo(old(self)@, id, text@) {
                Seq::empty()
            } else {
                told_acts(Some((Target::Node(id), Event::TextChanged(text@))))
            }),
    {
        let echo: bool = match self.text_echo.get(id) {
            Some(last) => same(last.as_str(), text.as_str()),
            None => false,
        };
        if echo {
            return no_acts();
        }
        self.text_echo.take(id);
        emit(Target::Node(id), Event::TextChanged(text))
    }

    fn slid(&mut self, id: u64, value: Num, near: bool, settled: bool) -> (out: Vec<ArkAct>)
        requires
            old(self)@.wf(),
        ensures
            final(self)@ == heard(old(self)@, id, 3, Num { bits: 0 }, Seq::empty(), near),
            final(self)@.wf(),
            acts(out@) == (if is_value_echo(old(self)@, id, near) {
                Seq::empty()
            } else if settled {
                told_acts(Some((Target::Node(id), Event::ValueCommitted(value))))
            } else {
                told_acts(Some((Target::Node(id), Event::ValueChanged(value))))
            }),
    {
        if self.slider_echo.has(id) && near {
            return no_acts();
        }
        self.slider_echo.take(id);
        if settled {
            emit(Target::Node(id), Event::ValueCommitted(value))
        } else {
            emit(Target::Node(id), Event::ValueChanged(value))
        }
    }

    /// A slider's range, where one is known.
    pub fn slider_range(&self, id: u64) -> (r: Option<(Num, Num)>)
        ensures
            r == self@.range_of(id),
    {
        match self.ranges.get(id) {
            Some(r) => Some(*r),
            None => None,
        }
    }

    /// The value a slider was last told, where that is still to come back.
    pub fn told_value(&self, id: u64) -> (r: Option<Num>)
        ensures
            r == entry(self@.slider_echo, id),
    {
        match self.slider_echo.get(id) {
            Some(n) => Some(*n),
            None => None,
        }
    }

    /// A gesture a node is to report: a tap by its clicks, a drag by a recognizer. The others
    /// have no native counterpart and are left out.
    pub fn enable_gesture(&mut self, node: u64, id: u64, kind: GestureKind) -> (out: Vec<ArkAct>)
        requires
            old(self)@.wf(),
        ensures
            final(self)@ == (if kind == GestureKind::Tap {
                ArkView {
                    tap_nodes: old(self)@.tap_nodes.insert(id),
                    tap_handles: old(self)@.tap_handles.insert(node, id),
                    ..old(self)@
                }
            } else {
                old(self)@
            }),
            final(self)@.wf(),
            acts(out@) == (match kind {
                GestureKind::Tap => seq![
                    Act::<Seq<char>, SpecEvent>::Register { node, kind: 0, id },
                ],
                GestureKind::Drag => seq![Act::<Seq<char>, SpecEvent>::EnablePan { node, id }],
                _ => Seq::empty(),
            }),
    {
        match kind {
            GestureKind::Tap => {
                self.tap_nodes.put(id);
                self.tap_handles.put(node, id);
                one_act(Act::Register { node, kind: 0, id })
            },
            GestureKind::Drag => one_act(Act::EnablePan { node, id }),
            _ => no_acts(),
        }
    }
}

// ---- rows of a list ----------------------------------------------------------------------------

/// Where a row may be dropped: only between rows there are, where the app has a say and gives
/// one, and no further than the last row. `to` is what the app answered.
pub open spec fn drop_target(len: Option<usize>, from: u32, to: u32, answer: i64) -> i32 {
    match len {
        Some(n) => if from >= n || to >= n {
            -1i32
        } else {
            let last = (n - 1) as i32 as int;
            let given = answer as i32 as int;
            if given < last {
                given as i32
            } else {
                last as i32
            }
        },
        None => -1i32,
    }
}

/// A drop that is accepted lands on a row there is. Rows are numbered as the platform numbers
/// them.
pub proof fn an_accepted_drop_lands_on_a_row(n: usize, from: u32, to: u32, answer: i64)
    requires
        n <= 0x7fff_ffff,
        -1 <= answer <= 0x7fff_ffff,
    ensures
        drop_target(Some(n), from, to, answer) < n,
        drop_target(Some(n), from, to, answer) >= 0 ==> from < n && to < n,
{
}

/// Whether to ask the app's guard about a move in a list of `len` rows: only for rows there are.
pub fn asks_guard(len: usize, from: u32, to: u32) -> (b: bool)
    ensures
        b == (from < len && to < len),
{
    (from as usize) < len && (to as usize) < len
}

/// Whether to ask the app's guard about the deletion of a row in a list of `len` rows.
pub fn asks_delete_guard(len: usize, index: u32) -> (b: bool)
    ensures
        b == (index < len),
{
    (index as usize) < len
}

/// Judges a drop. `len` is the number of rows, none where the list has no source or no say in
/// it; the app's answer is asked only for rows there are.
pub fn day_arkui_list_can_move(len: Option<usize>, from: u32, to: u32, answer: i64) -> (t: i32)
    ensures
        t == drop_target(len, from, to, answer),
{
    match len {
        Some(n) => {
            if from as usize >= n || to as usize >= n {
                -1
            } else {
                let last: i32 = #[verifier::truncate]
                ((n - 1) as i32);
                let given: i32 = #[verifier::truncate]
                (answer as i32);
                if given < last {
                    given
                } else {
                    last
                }
            }
        },
        None => -1,
    }
}

/// What a committed drop comes to: whether it counts, and whether a row moves at all.
pub fn day_arkui_list_move(movable: bool, from: u32, to: u32) -> (r: (u32, bool))
    ensures
        r.0 == (if movable {
            1u32
        } else {
            0
        }),
        r.1 == (movable && from != to),
{
    if movable {
        (1, from != to)
    } else {
        (0, false)
    }
}

/// Whether a row can be deleted: there is such a row, and the app allows it.
pub fn day_arkui_list_can_delete(len: Option<usize>, index: u32, allowed: bool) -> (r: u32)
    ensures
        r == (match len {
            Some(n) => if index < n && allowed {
                1u32
            } else {
                0
            },
            None => 0,
        }),
{
    match len {
        Some(n) => if (index as usize) < n && allowed {
            1
        } else {
            0
        },
        None => 0,
    }
}

/// The rows a list reports: as many as its source has, none without a source.
pub fn day_arkui_list_count(len: Option<usize>) -> (n: u32)
    ensures
        n == (match len {
            Some(n) => n as u32,
            None => 0,
        }),
{
    match len {
        Some(n) => #[verifier::truncate]
        (n as u32),
        None => 0,
    }
}

impl ArkUi {
    /// Which app node a list is, so that its source can be kept under it; the list is reloaded
    /// in any case.
    pub fn attach_list(&self, node: u64) -> (r: (Option<u64>, Vec<ArkAct>))
        ensures
            r.0 == entry(self@.lists, node),
            acts(r.1@) == seq![Act::<Seq<char>, SpecEvent>::ListReload { node }],
    {
        (found(&self.lists, node), one_act(Act::ListReload { node }))
    }
}

// ---- windows -----------------------------------------------------------------------------------

/// The app node of the window with this root.
pub open spec fn window_of(windows: Pairs, root: u64, n: int) -> Option<u64>
    decreases windows.len() - n,
{
    if n < 0 || n >= windows.len() {
        None
    } else if windows[n].1 == root {
        Some(windows[n].0)
    } else {
        window_of(windows, root, n + 1)
    }
}

impl ArkUi {
    /// Closes the window with this root, where there is one.
    pub fn close_window(&self, root: u64) -> (out: Vec<ArkAct>)
        ensures
            acts(out@) == (match window_of(self@.windows, root, 0) {
                Some(node) => seq![Act::<Seq<char>, SpecEvent>::CloseWindow { node }],
                None => Seq::empty(),
            }),
    {
        let mut i: usize = 0;
        while i < self.windows.len()
            invariant
                i <= self.windows.len(),
                window_of(self@.windows, root, 0) == window_of(self@.windows, root, i as int),
            decreases self.windows.len() - i,
        {
            if self.windows[i].1 == root {
                return one_act(Act::CloseWindow { node: self.windows[i].0 });
            }
            i = i + 1;
        }
        no_acts()
    }

    /// The window's root is there.
    pub fn init(&mut self, root: u64, width: Num, height: Num)
        requires
            old(self)@.wf(),
        ensures
            final(self)@.wf(),
            final(self)@ == (ArkView { root: Some((root, width, height)), ..old(self)@ }),
    {
        self.root = Some((root, width, height));
    }

    /// The root to take a picture of.
    pub fn snapshot_root(&self) -> (r: Option<u64>)
        ensures
            r == (match self@.root {
                Some((root, _, _)) => Some(root),
                None => None,
            }),
    {
        match self.root {
            Some((root, _, _)) => Some(root),
            None => None,
        }
    }
}

/// A further window's size changed.
pub fn day_arkui_window_resized(node: u64, width: Num, height: Num) -> (out: Vec<ArkAct>)
    ensures
        acts(out@) == told_acts(
            Some((Target::Node(node), Event::WindowResized(Size { width, height }))),
        ),
{
    emit(Target::Node(node), Event::WindowResized(Size { width, height }))
}

/// A further window came to the front or left it.
pub fn day_arkui_window_focused(node: u64, active: i32) -> (out: Vec<ArkAct>)
    ensures
        acts(out@) == told_acts(Some((Target::Node(node), Event::WindowFocused(active != 0)))),
{
    emit(Target::Node(node), Event::WindowFocused(active != 0))
}

/// How opening a window went.
#[derive(Clone, Copy, Debug, PartialEq, Eq, Structural)]
pub enum OpenReply {
    Unsupported,
    Pending,
}

/// Whether a window is to be asked for: not one for preferences, which stay on top of the app,
/// and not one whose title cannot go across.
pub fn may_open(preferences: bool, title: &str) -> (b: bool)
    ensures
        b == (!preferences && !title@.contains('\0')),
{
    if preferences {
        return false;
    }
    let v = crate::text::chars_of(title);
    let mut i: usize = 0;
    while i < v.len()
        invariant
            i <= v.len(),
            v@ == title@,
            forall|k: int| 0 <= k < i ==> title@[k] != '\0',
        decreases v.len() - i,
    {
        if v[i] == '\0' {
            assert(title@[i as int] == '\0');
            return false;
        }
        i = i + 1;
    }
    true
}

/// What the app is told of a window: it is on its way where one may be asked for and the
/// platform took the request. `launched` is what the platform answered.
pub fn open_window(preferences: bool, title: &str, launched: bool) -> (r: OpenReply)
    ensures
        r == (if !preferences && !title@.contains('\0') && launched {
            OpenReply::Pending
        } else {
            OpenReply::Unsupported
        }),
{
    if may_open(preferences, title) && launched {
        OpenReply::Pending
    } else {
        OpenReply::Unsupported
    }
}

// ---- measuring, abilities, answers -------------------------------------------------------------

/// What is measured.
#[derive(Clone, Copy, Debug, PartialEq, Eq, Structural)]
pub enum Kind {
    Label,
    Button,
    TextField,
    TextArea,
    Picker,
    Toggle,
    Slider,
    Divider,
    Progress,
    NavMenu,
    Other,
}

/// How big a piece wants to be: a size, what the node itself measures, or what the node measures
/// within a band of lines.
#[derive(Clone, Copy, Debug, PartialEq, Eq, Structural)]
pub enum Measure {
    Size(Length, Length),
    Node,
    Lines { width: Length, min: u32, max: u32 },
}

/// A length that was proposed, or another one where none was.
pub open spec fn proposed(n: Option<Num>, otherwise: u32) -> Length {
    match n {
        Some(n) => Length::Given(n),
        None => Length::Whole(otherwise),
    }
}

fn length_or(n: Option<Num>, otherwise: u32) -> (l: Length)
    ensures
        l == proposed(n, otherwise),
{
    match n {
        Some(n) => Length::Given(n),
        None => Length::Whole(otherwise),
    }
}

/// How big a piece wants to be. A text area without a band has one line at least, and no most.
pub open spec fn measured(
    v: ArkView,
    node: u64,
    kind: Kind,
    width: Option<Num>,
    height: Option<Num>,
) -> Measure {
    match kind {
        Kind::Label | Kind::Button => Measure::Node,
        Kind::TextField | Kind::Slider => Measure::Size(
            proposed(width, 200),
            Length::Whole(40),
        ),
        Kind::TextArea => {
            let band = match entry(v.area_lines, node) {
                Some(b) => b,
                None => (1u32, 0u32),
            };
            Measure::Lines { width: proposed(width, 200), min: band.0, max: band.1 }
        },
        Kind::Picker => Measure::Size(proposed(width, 200), Length::Whole(200)),
        Kind::Toggle => Measure::Size(Length::Whole(50), Length::Whole(30)),
        Kind::Divider => Measure::Size(proposed(width, 0), Length::Whole(1)),
        Kind::Progress => Measure::Size(proposed(width, 40), proposed(height, 20)),
        Kind::NavMenu => Measure::Size(proposed(width, 240), proposed(height, 400)),
        Kind::Other => Measure::Size(proposed(width, 0), proposed(height, 0)),
    }
}

impl ArkUi {
    /// How big a piece wants to be.
    pub fn measure(&self, node: u64, kind: Kind, width: Option<Num>, height: Option<Num>) -> (m:
        Measure)
        ensures
            m == measured(self@, node, kind, width, height),
    {
        match kind {
            Kind::Label | Kind::Button => Measure::Node,
            Kind::TextField | Kind::Slider => Measure::Size(
                length_or(width, 200),
                Length::Whole(40),
            ),
            Kind::TextArea => {
                let band: (u32, u32) = match self.area_lines.get(node) {
                    Some(b) => *b,
                    None => (1, 0),
                };
                Measure::Lines { width: length_or(width, 200), min: band.0, max: band.1 }
            },
            Kind::Picker => Measure::Size(length_or(width, 200), Length::Whole(200)),
            Kind::Toggle => Measure::Size(Length::Whole(50), Length::Whole(30)),
            Kind::Divider => Measure::Size(length_or(width, 0), Length::Whole(1)),
            Kind::Progress => Measure::Size(length_or(width, 40), length_or(height, 20)),
            Kind::NavMenu => Measure::Size(length_or(width, 240), length_or(height, 400)),
            Kind::Other => Measure::Size(length_or(width, 0), length_or(height, 0)),
        }
    }
}

/// How far a capability is supported; further windows only where the host has launchers for
/// them.
pub open spec fn support(cap: Cap, windows: bool) -> Support {
    match cap {
        Cap::FileDialogs | Cap::FontList | Cap::Snapshot | Cap::NavHeader | Cap::ListReorder
        | Cap::ListDelete | Cap::TextRuns => Support::Native,
        Cap::Toolbar | Cap::NavTabs | Cap::NavTabsAdaptive | Cap::Cover | Cap::Tree
        | Cap::BaselineAlignment => Support::Emulated,
        Cap::MultiWindow => if windows {
            Support::Native
        } else {
            Support::Unsupported
        },
        _ => Support::Unsupported,
    }
}

pub fn capability(cap: Cap, windows: bool) -> (s: Support)
    ensures
        s == support(cap, windows),
{
    match cap {
        Cap::FileDialogs | Cap::FontList | Cap::Snapshot | Cap::NavHeader | Cap::ListReorder
        | Cap::ListDelete | Cap::TextRuns => Support::Native,
        Cap::Toolbar | Cap::NavTabs | Cap::NavTabsAdaptive | Cap::Cover | Cap::Tree
        | Cap::BaselineAlignment => Support::Emulated,
        Cap::MultiWindow => if windows {
            Support::Native
        } else {
            Support::Unsupported
        },
        _ => Support::Unsupported,
    }
}

/// Presents a file dialog; the other surfaces have no native counterpart here. `filters` are the
/// file types in one text.
pub fn present(req: u64, spec: &PresentSpec, filters: &str) -> (out: Vec<ArkAct>)
    ensures
        acts(out@) == (match *spec {
            PresentSpec::OpenFile { .. } => seq![
                Act::<Seq<char>, SpecEvent>::PresentFile {
                    req,
                    save: false,
                    name: Seq::empty(),
                    src_path: Seq::empty(),
                    filters: filters@,
                },
            ],
            PresentSpec::SaveFile { suggested_name, src_path, .. } => seq![
                Act::<Seq<char>, SpecEvent>::PresentFile {
                    req,
                    save: true,
                    name: suggested_name@,
                    src_path: src_path@,
                    filters: filters@,
                },
            ],
            _ => Seq::empty(),
        }),
{
    match spec {
        PresentSpec::OpenFile { .. } => one_act(
            Act::PresentFile {
                req,
                save: false,
                name: String::new(),
                src_path: String::new(),
                filters: owned(filters),
            },
        ),
        PresentSpec::SaveFile { suggested_name, src_path, .. } => one_act(
            Act::PresentFile {
                req,
                save: true,
                name: owned(suggested_name.as_str()),
                src_path: owned(src_path.as_str()),
                filters: owned(filters),
            },
        ),
        _ => no_acts(),
    }
}

/// Whether the dark theme is used: as the app's own setting says, where it names a theme, else
/// as the host reports.
pub open spec fn dark_theme(theme: Option<Seq<char>>, system: Option<Seq<char>>) -> bool {
    match theme {
        Some(t) => if t == "dark"@ {
            true
        } else if t == "light"@ {
            false
        } else {
            system == Some("1"@)
        },
        None => system == Some("1"@),
    }
}

pub fn theme_is_dark(theme: &Option<String>, system: &Option<String>) -> (b: bool)
    ensures
        b == dark_theme(
            (match theme {
                Some(t) => Some(t@),
                None => None,
            }),
            (match system {
                Some(t) => Some(t@),
                None => None,
            }),
        ),
{
    let reported: bool = match system {
        Some(t) => same(t.as_str(), "1"),
        None => false,
    };
    match theme {
        Some(t) => {
            if same(t.as_str(), "dark") {
                true
            } else if same(t.as_str(), "light") {
                false
            } else {
                reported
            }
        },
        None => reported,
    }
}

/// The scale of the screen; one where none is given.
pub fn density(given: Num) -> (d: Num)
    ensures
        d == (if given.positive() {
            given
        } else {
            Num { bits: crate::arkui::update::ONE }
        }),
{
    if given.is_positive() {
        given
    } else {
        Num { bits: crate::arkui::update::ONE }
    }
}

/// The baseline that a measurement found: a kind without one has none, nor has what measured below
/// zero. `based` is whether the piece's kind has one.
pub fn first_baseline(based: bool, measured: Num) -> (r: Option<Num>)
    ensures
        r == (if based && measured.not_below_zero() {
            Some(measured)
        } else {
            None
        }),
{
    if based && measured.is_not_below_zero() {
        Some(measured)
    } else {
        None
    }
}

/// Names a node for a screen reader; one that is hidden or mere decoration is left out with all
/// that is under it.
pub fn set_a11y(node: u64, label: &Option<String>, hidden: bool, decorative: bool) -> (out: Vec<
    ArkAct,
>)
    ensures
        acts(out@) == seq![
            Act::<Seq<char>, SpecEvent>::Accessible {
                node,
                label: match label {
                    Some(l) => l@,
                    None => Seq::empty(),
                },
                hidden: hidden || decorative,
            },
        ],
{
    let text: String = match label {
        Some(l) => owned(l.as_str()),
        None => String::new(),
    };
    one_act(Act::Accessible { node, label: text, hidden: hidden || decorative })
}

/// One line for the platform's log.
pub fn hilog_sink(_level: Level, line: &str) -> (out: Vec<ArkAct>)
    ensures
        acts(out@) == seq![Act::<Seq<char>, SpecEvent>::Log { line: line@ }],
{
    one_act(Act::Log { line: owned(line) })
}

/// The directory the app may write to: the one the host reports, unless that is empty.
pub fn day_arkui_set_cache_dir(path: &Option<Vec<u8>>) -> (r: Option<String>)
    ensures
        match r {
            Some(p) => p@ == text_of(*path) && p@.len() > 0,
            None => text_of(*path).len() == 0,
        },
{
    let p = given_text(path);
    if p.as_str().is_empty() {
        None
    } else {
        Some(p)
    }
}

/// A native event came.
pub fn day_arkui_on_event(
    ark: &mut ArkUi,
    id: u64,
    kind: i32,
    num: Num,
    text: &Option<Vec<u8>>,
    reading: &Reading,
) -> (out: Vec<ArkAct>)
    requires
        old(ark)@.wf(),
    ensures
        final(ark)@ == heard(old(ark)@, id, kind as int, num, text_of(*text), reading.near),
        final(ark)@.wf(),
        acts(out@) == told_acts(told(old(ark)@, id, kind as int, num, *text, *reading)),
{
    let node = Target::Node(id);
    if kind == 0 {
        ark.clicked(id)
    } else if kind == 4 {
        ark.chose(id, num)
    } else if kind == 1 {
        ark.typed(id, given_text(text))
    } else if kind == 2 {
        emit(node, Event::ToggleChanged(num.is_nonzero()))
    } else if kind == 16 {
        emit(node, Event::FocusChanged(num.is_nonzero()))
    } else if kind == 17 {
        emit(node, Event::Submitted)
    } else if kind == 29 {
        match text {
            Some(bytes) => emit(
                node,
                Event::Key { key: text_of_bytes(bytes), modifiers: to_byte(num) },
            ),
            None => no_acts(),
        }
    } else if kind == 11 {
        match reading.drag {
            Some((at, moved)) => {
                let phase: i64 = num.to_i64();
                if phase == 1 {
                    emit(
                        node,
                        Event::Drag {
                            phase: DragPhase::Began,
                            location: at,
                            translation: no_point(),
                        },
                    )
                } else if phase == 3 {
                    emit(
                        node,
                        Event::Drag {
                            phase: DragPhase::Ended,
                            location: at,
                            translation: moved,
                        },
                    )
                } else {
                    emit(
                        node,
                        Event::Drag {
                            phase: DragPhase::Changed,
                            location: at,
                            translation: moved,
                        },
                    )
                }
            },
            None => no_acts(),
        }
    } else if kind == 3 || kind == 22 {
        ark.slid(id, reading.value, reading.near, kind == 22)
    } else if kind == 12 {
        emit(node, Event::Custom { num, text: given_text(text) })
    } else if kind == 15 {
        let path = given_text(text);
        let result: PresentResult<String, Vec<String>> = if path.as_str().is_empty() {
            PresentResult::Dismissed
        } else {
            PresentResult::Files(one_text(path))
        };
        emit(node, Event::PresentResult { req: id, result })
    } else {
        no_acts()
    }
}

/// Whether a row is selected.
pub fn day_arkui_list_is_selected(ark: &ArkUi, id: u64, index: u32) -> (r: u32)
    ensures
        r == (if ark@.list_selected.contains_key(id) && ark@.list_selected[id].contains(
            index as usize,
        ) {
            1u32
        } else {
            0
        }),
{
    match ark.list_selected.get(id) {
        Some(rows) => if rows.has(index as usize) {
            1
        } else {
            0
        },
        None => 0,
    }
}

/// A further window has its root; `taken` is whether the app still wants it. Where it does
/// not, the root goes again.
pub fn day_arkui_window_start(ark: &mut ArkUi, node: u64, root: u64, taken: bool) -> (r: (u32, Vec<ArkAct>))
    requires
        old(ark)@.wf(),
    ensures
        final(ark)@.wf(),
        final(ark)@ == (ArkView {
            windows: if taken {
                old(ark)@.windows.push((node, root))
            } else {
                crate::keys::without_first(old(ark)@.windows, node)
            },
            ..old(ark)@
        }),
        r.0 == (if taken {
            1u32
        } else {
            0
        }),
        acts(r.1@) == (if taken {
            Seq::empty()
        } else {
            seq![Act::<Seq<char>, SpecEvent>::Dispose { node: root }]
        }),
{
    let ghost v = ark@;
    if taken {
        ark.windows.push((node, root));
        (1, no_acts())
    } else {
        ark.windows = crate::keys::drop_first(&ark.windows, node);
        (0, one_act(Act::Dispose { node: root }))
    }
}

/// A further window is gone.
pub fn day_arkui_window_closed(ark: &mut ArkUi, node: u64) -> (out: Vec<ArkAct>)
    requires
        old(ark)@.wf(),
    ensures
        final(ark)@.wf(),
        final(ark)@ == (ArkView {
            windows: crate::keys::without_first(old(ark)@.windows, node),
            ..old(ark)@
        }),
        acts(out@) == told_acts(Some((Target::Node(node), Event::WindowClosed))),
{
    ark.windows = crate::keys::drop_first(&ark.windows, node);
    emit(Target::Node(node), Event::WindowClosed)
}

/// The window's size changed; an empty size is no size.
pub fn day_arkui_resized(ark: &mut ArkUi, width: Num, height: Num) -> (out: Vec<ArkAct>)
    requires
        old(ark)@.wf(),
    ensures
        final(ark)@.wf(),
        width.positive() && height.positive() ==> final(ark)@ == (ArkView {
            root: match old(ark)@.root {
                Some((root, _, _)) => Some((root, width, height)),
                None => None,
            },
            ..old(ark)@
        }) && acts(out@) == told_acts(
            Some((Target::Window, Event::WindowResized(Size { width, height }))),
        ),
        !(width.positive() && height.positive()) ==> final(ark)@ == old(ark)@ && acts(out@)
            == Seq::<SpecAct>::empty(),
{
    if width.is_positive() && height.is_positive() {
        match ark.root {
            Some((root, _, _)) => {
                ark.root = Some((root, width, height));
            },
            None => {},
        }
        emit(Target::Window, Event::WindowResized(Size { width, height }))
    } else {
        no_acts()
    }
}

/// Deletes a row where that is allowed: whether it counts, which is also whether the row goes.
pub fn day_arkui_list_delete(len: Option<usize>, index: u32, allowed: bool) -> (r: u32)
    ensures
        r == (match len {
            Some(n) => if index < n && allowed {
                1u32
            } else {
                0
            },
            None => 0,
        }),
{
    if day_arkui_list_can_delete(len, index, allowed) == 0 {
        0
    } else {
        1
    }
}

// ---- navigation --------------------------------------------------------------------------------

/// A destination is gone.
pub fn day_arkui_nav_popped(ark: &mut ArkUi, key: u64) -> (out: Vec<ArkAct>)
    requires
        old(ark)@.wf(),
    ensures
        final(ark)@ == (ArkView { nav: destination_gone(old(ark)@.nav, key), ..old(ark)@ }),
        final(ark)@.wf(),
        acts(out@) == gone_acts(old(ark)@.nav, key),
{
    ark.nav.gone(key)
}

/// A guarded destination asks whether it may go.
pub fn day_arkui_nav_back_requested(ark: &ArkUi) -> (out: Vec<ArkAct>)
    ensures
        acts(out@) == host_told(ark@.nav, Event::NavBack { already_popped: false }),
{
    ark.nav.back_requested()
}

/// A destination's area changed.
pub fn day_arkui_nav_area(ark: &mut ArkUi, key: u64, w: Num, h: Num) -> (out: Vec<ArkAct>)
    requires
        old(ark)@.wf(),
    ensures
        final(ark)@.wf(),
        w.positive() && h.positive() ==> final(ark)@ == (ArkView {
            nav: shown(old(ark)@.nav, key),
            ..old(ark)@
        }) && acts(out@) == told_acts(
            Some((Target::Node(key), Event::FrameChanged(Size { width: w, height: h }))),
        ),
        !(w.positive() && h.positive()) ==> final(ark)@ == old(ark)@ && acts(out@) == Seq::<
            SpecAct,
        >::empty(),
{
    let ghost v = ark@;
    let out = ark.nav.area(key, w, h);
    proof {
        if !(w.positive() && h.positive()) {
            assert(ark@ =~= v);
        }
    }
    out
}

/// The title bar's action was chosen.
pub fn day_arkui_nav_menu_action(ark: &ArkUi, action: u64) -> (out: Vec<ArkAct>)
    ensures
        acts(out@) == host_told(ark@.nav, Event::MenuAction(action)),
{
    ark.nav.menu_action(action)
}

} // verus!
