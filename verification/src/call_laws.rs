//! What a caller sees of the small operations: each answer, by what was asked.
use crate::arkui::act::{ArkAct, SpecAct as ArkSpecAct};
use crate::arkui::event_laws::a_drag_is_heard;
use crate::arkui::events::{
    day_arkui_list_delete, day_arkui_on_event, day_arkui_window_resized, density, may_open, Reading,
};
use crate::arkui::nav::{host_told, page_attached, NavTrack, TrackView};
use crate::arkui::state::ArkUi;
use crate::dom::act::{DomAct, El, SpecAct as PageSpecAct};
use crate::dom::canvas::{encode_ops, DrawOp, Slot};
use crate::dom::canvas_reader::{op_seen, ops_at};
use crate::dom::events::{
    day_dom_lifecycle, day_dom_list_move, day_dom_toolbar_action, day_dom_toolbar_on,
    day_dom_toolbar_value, Drop,
};
use crate::dom::host::{dayscript_token, launch_route, set_cursor as set_page_cursor, set_selectable};
use crate::dom::list::ListEntry;
use crate::dom::list_laws::a_press_decides_each_row;
use crate::dom::looks::{area_acts, disabled_acts, enabled_act};
use crate::dom::spec_laws::{a_menu_reads_back, shows_entries};
use crate::dom::specs::menu_items_json;
use crate::dom::state::{Dom, DomHandle};
use crate::gtk::act::{GtkAct, SpecAct};
use crate::gtk::canvas::{cairo_draw, record, records, DrawAct, Record};
use crate::gtk::canvas_laws::{
    a_list_is_drawn_record_by_record, each_kind_traces_its_own_figure, traces,
};
use crate::gtk::gestures::{
    drag_began, dragged, focus_changed, gtk_animation, hovered, pan_step, panned, pinched, tapped,
    Easing,
};
use crate::gtk::widgets::{row_selected, set_cursor, set_scroll_content};
use crate::gtk::windows::window_closed;
use crate::json_reader::read_json;
use crate::model::{
    Curve, DragPhase, Event, Lifecycle, MenuItem, Point, Size, Target, ToolbarValue,
};
use crate::num::Num;
use vstd::prelude::*;

verus! {

// ---- lists and windows -------------------------------------------------------------------------

/// A row may be deleted where the app allows it and the list has that row.
pub proof fn a_row_may_be_deleted(len: Option<usize>, index: u32, allowed: bool, r: u32)
    requires
        call_ensures(day_arkui_list_delete, (len, index, allowed), r),
    ensures
        r <= 1,
        r == 1 <==> allowed && len is Some && index < len->0,
{
}

/// A list tells which row is selected, and nothing where none is.
pub proof fn a_selected_row_is_told(id: u64, place: u32, out: Vec<GtkAct>, none: Vec<GtkAct>)
    requires
        call_ensures(row_selected, (id, Some(place)), out),
        call_ensures(row_selected, (id, None), none),
    ensures
        crate::gtk::act::acts(out@) == seq![
            SpecAct::Emit { to: Target::Node(id), event: Event::SelectionChanged(place as i64) },
        ],
        crate::gtk::act::acts(none@).len() == 0,
{
}

/// What scrolls is sized by its content, unless the scroller is its own content.
pub proof fn scrolled_content_is_sized(w: u64, inner: u64, content: Size, out: Vec<GtkAct>)
    requires
        call_ensures(set_scroll_content, (w, inner, content), out),
    ensures
        w == inner ==> out@.len() == 0,
        w != inner ==> crate::gtk::act::acts(out@) == seq![
            SpecAct::SizeTo { w: inner, width: content.width, height: content.height },
        ],
{
    if w == inner {
        assert(crate::gtk::act::acts(out@).len() == out@.len());
    }
}

/// A further window opens where it is not the preferences' and its title holds no zero character.
pub proof fn a_window_may_open(preferences: bool, title: &str, b: bool)
    requires
        call_ensures(may_open, (preferences, title), b),
    ensures
        b <==> !preferences && forall|i: int| 0 <= i < title@.len() ==> title@[i] != '\0',
{
    if b {
        assert forall|i: int| 0 <= i < title@.len() implies title@[i] != '\0' by {
            if title@[i] == '\0' {
                assert(title@.contains('\0'));
            }
        }
    }
}

/// A window that was closed is told to its own node, once.
pub proof fn a_closed_window_is_told(id: u64, out: Vec<GtkAct>)
    requires
        call_ensures(window_closed, (id,), out),
    ensures
        crate::gtk::act::acts(out@) == seq![
            SpecAct::Emit { to: Target::Node(id), event: Event::WindowClosed },
        ],
{
}

/// A snapshot is of the root.
pub proof fn a_snapshot_is_of_the_root(ui: &ArkUi, r: Option<u64>)
    requires
        call_ensures(ArkUi::snapshot_root, (ui,), r),
    ensures
        r is Some <==> ui@.root is Some,
        r is Some ==> r->0 == (ui@.root->0).0,
{
}

// ---- gestures ----------------------------------------------------------------------------------

/// A tap and a change of focus are told as what they are.
pub proof fn taps_and_focus_are_told(
    id: u64,
    at: Point,
    on: bool,
    tap: Vec<GtkAct>,
    focus: Vec<GtkAct>,
)
    requires
        call_ensures(tapped, (id, at), tap),
        call_ensures(focus_changed, (id, on), focus),
    ensures
        crate::gtk::act::acts(tap@) == seq![
            SpecAct::Emit { to: Target::Node(id), event: Event::Tap(at) },
        ],
        crate::gtk::act::acts(focus@) == seq![
            SpecAct::Emit { to: Target::Node(id), event: Event::FocusChanged(on) },
        ],
{
}

/// A drag that goes on has changed, and one that does not has ended; where it is and how far it
/// came are told as they are.
pub proof fn a_drag_goes_on_or_ends(
    id: u64,
    at: Point,
    by: Point,
    on: Vec<GtkAct>,
    end: Vec<GtkAct>,
)
    requires
        call_ensures(dragged, (id, false, at, by), on),
        call_ensures(dragged, (id, true, at, by), end),
    ensures
        crate::gtk::act::acts(on@) == seq![
            SpecAct::Emit {
                to: Target::Node(id),
                event: Event::Drag {
                    phase: DragPhase::Changed,
                    location: at,
                    translation: by,
                },
            },
        ],
        crate::gtk::act::acts(end@) == seq![
            SpecAct::Emit {
                to: Target::Node(id),
                event: Event::Drag { phase: DragPhase::Ended, location: at, translation: by },
            },
        ],
{
}

/// A pinch begins at a scale of one and has its own scale from then on; its phase and its middle
/// are told as they are, and a middle that is not known is the origin.
pub proof fn a_pinch_begins_at_one(
    id: u64,
    phase: DragPhase,
    scale: Num,
    p: Point,
    out: Vec<GtkAct>,
    lost: Vec<GtkAct>,
)
    requires
        call_ensures(pinched, (id, phase, scale, Some(p)), out),
        call_ensures(pinched, (id, phase, scale, None), lost),
    ensures
        ({
            let told = if phase is Began {
                Num { bits: 0x3ff0_0000_0000_0000 }
            } else {
                scale
            };
            let origin = Point { x: Num { bits: 0 }, y: Num { bits: 0 } };
            &&& crate::gtk::act::acts(out@) == seq![
                SpecAct::Emit {
                    to: Target::Node(id),
                    event: Event::Pinch { phase, scale: told, location: p },
                },
            ]
            &&& crate::gtk::act::acts(lost@) == seq![
                SpecAct::Emit {
                    to: Target::Node(id),
                    event: Event::Pinch { phase, scale: told, location: origin },
                },
            ]
        }),
{
}

/// A pan moves only while it goes on.
pub proof fn a_pan_moves_while_it_goes_on(
    id: u64,
    phase: DragPhase,
    delta: Point,
    out: Vec<GtkAct>,
)
    requires
        call_ensures(panned, (id, phase, delta), out),
    ensures
        ({
            let origin = Point { x: Num { bits: 0 }, y: Num { bits: 0 } };
            crate::gtk::act::acts(out@) == seq![
                SpecAct::Emit {
                    to: Target::Node(id),
                    event: Event::Pan {
                        phase,
                        delta: if phase is Changed {
                            delta
                        } else {
                            origin
                        },
                        location: origin,
                    },
                },
            ]
        }),
{
}

/// A notch of a wheel is forty steps of a touchpad.
pub proof fn a_notch_is_many_steps(notch: u32, step: u32)
    requires
        call_ensures(pan_step, (true,), notch),
        call_ensures(pan_step, (false,), step),
    ensures
        step == 1,
        notch == 40 * step,
{
}

/// No two curves ease alike; only a spring goes past its end.
pub proof fn curves_ease_apart(a: Curve, b: Curve, x: Easing, y: Easing)
    requires
        call_ensures(gtk_animation, (a,), x),
        call_ensures(gtk_animation, (b,), y),
    ensures
        x == y <==> a == b,
        x is OutBack <==> a is Spring,
        x is Linear <==> a is Linear,
        x is InCubic <==> a is EaseIn,
        x is OutCubic <==> a is EaseOut,
{
}

/// A cursor is set by its name, and by none where the widget's own is wanted.
pub proof fn a_cursor_is_set(w: u64, name: Option<String>, out: Vec<GtkAct>)
    requires
        call_ensures(set_cursor, (w, name), out),
    ensures
        crate::gtk::act::acts(out@) == seq![
            SpecAct::Cursor {
                w,
                name: if name is Some {
                    Some((name->0)@)
                } else {
                    None
                },
            },
        ],
{
}

// ---- the page ----------------------------------------------------------------------------------

/// A route and a token are what the page was given, and none where that is empty.
pub proof fn the_page_gives_its_settings(
    value: String,
    route: Option<String>,
    token: Option<String>,
)
    requires
        call_ensures(launch_route, (value,), route),
        call_ensures(dayscript_token, (value,), token),
    ensures
        route is Some <==> value@.len() > 0,
        token is Some <==> value@.len() > 0,
        route is Some ==> (route->0)@ == value@,
        token is Some ==> (token->0)@ == value@,
{
}

/// Whether an element's text can be selected is a class of it, and its pointer a style of it.
pub proof fn elements_are_selectable_and_pointed_at(
    el: u32,
    on: bool,
    name: Option<String>,
    class: Vec<DomAct>,
    style: Vec<DomAct>,
)
    requires
        call_ensures(set_selectable, (el, on), class),
        call_ensures(set_page_cursor, (el, &name), style),
    ensures
        crate::dom::act::acts(class@) == seq![
            PageSpecAct::Class(El::Own(el), "day-selectable"@, on),
        ],
        name is Some ==> crate::dom::act::acts(style@) == seq![
            PageSpecAct::Style(El::Own(el), "cursor"@, (name->0)@),
        ],
        name is None ==> crate::dom::act::acts(style@) == seq![
            PageSpecAct::Style(El::Own(el), "cursor"@, ""@),
        ],
{
}

/// The page is light at nought, dark at one and follows its host at two.
pub proof fn the_page_has_an_appearance(
    d: &Dom,
    light: Vec<DomAct>,
    dark: Vec<DomAct>,
    host: Vec<DomAct>,
)
    requires
        call_ensures(Dom::set_appearance, (d, Some(false)), light),
        call_ensures(Dom::set_appearance, (d, Some(true)), dark),
        call_ensures(Dom::set_appearance, (d, None), host),
    ensures
        crate::dom::act::acts(light@) == seq![PageSpecAct::Dark(0)],
        crate::dom::act::acts(dark@) == seq![PageSpecAct::Dark(1)],
        crate::dom::act::acts(host@) == seq![PageSpecAct::Dark(2)],
{
}

/// What an app asks of an element directly reaches that element as it was asked.
pub proof fn elements_are_reached_directly(
    d: &Dom,
    h: &DomHandle,
    name: &str,
    value: &str,
    start: usize,
    end: usize,
    attr: Vec<DomAct>,
    call: Vec<DomAct>,
    html: Vec<DomAct>,
    select: Vec<DomAct>,
)
    requires
        call_ensures(Dom::set_attr, (d, h, name, value), attr),
        call_ensures(Dom::call, (d, h, name), call),
        call_ensures(Dom::set_html, (d, h, value), html),
        call_ensures(Dom::set_editor_selection, (d, h, start, end), select),
    ensures
        crate::dom::act::acts(attr@) == seq![PageSpecAct::Attr(El::Own(h.0), name@, value@)],
        crate::dom::act::acts(call@) == seq![PageSpecAct::Call(h.0, name@)],
        crate::dom::act::acts(html@) == seq![PageSpecAct::Html(h.0, value@)],
        crate::dom::act::acts(select@) == seq![
            PageSpecAct::EditorSelect { el: h.0, start: start as u32, end: end as u32 },
        ],
{
}

/// A control is disabled by an attribute that stands alone, and enabled by taking it off; one that
/// is made enabled needs no call.
pub proof fn controls_are_enabled(el: u32)
    ensures
        enabled_act(el, false) == PageSpecAct::Attr(El::Own(el), "disabled"@, "-"@),
        enabled_act(el, true) == PageSpecAct::Attr(El::Own(el), "disabled"@, ""@),
        disabled_acts(el, false) == seq![enabled_act(el, false)],
        disabled_acts(el, true).len() == 0,
{
}

/// A text area that cannot be edited is read only, one that cannot be selected from says so, and
/// whether it is spell-checked is said either way.
pub proof fn an_area_has_its_attributes(el: u32)
    ensures
        area_acts(el, true, true, true) == seq![
            PageSpecAct::Attr(El::Own(el), "spellcheck"@, "true"@),
        ],
        area_acts(el, false, true, false) == seq![
            PageSpecAct::Attr(El::Own(el), "readonly"@, "-"@),
            PageSpecAct::Attr(El::Own(el), "spellcheck"@, "false"@),
        ],
        area_acts(el, true, false, true) == seq![
            PageSpecAct::Style(El::Own(el), "user-select"@, "none"@),
            PageSpecAct::Attr(El::Own(el), "spellcheck"@, "true"@),
        ],
{
}

// ---- the navigation host -----------------------------------------------------------------------

/// The host is asked to go back, not having popped yet, and is told which action was chosen; with
/// no host nothing is told.
pub proof fn the_host_is_asked(n: &NavTrack, action: u64, back: Vec<ArkAct>, chosen: Vec<ArkAct>)
    requires
        call_ensures(NavTrack::back_requested, (n,), back),
        call_ensures(NavTrack::menu_action, (n, action), chosen),
    ensures
        n@.host is None ==> crate::arkui::act::acts(back@).len() == 0
            && crate::arkui::act::acts(chosen@).len() == 0,
        n@.host matches Some(h) ==> crate::arkui::act::acts(back@) == seq![
            ArkSpecAct::Emit {
                to: Target::Node(h.0),
                event: Event::NavBack { already_popped: false },
            },
        ] && crate::arkui::act::acts(chosen@) == seq![
            ArkSpecAct::Emit { to: Target::Node(h.0), event: Event::MenuAction(action) },
        ],
{
}

/// A page that is put into the host waits to be pushed, behind those that wait; a child of another
/// parent, or one that is no page, does not.
pub proof fn a_page_waits_to_be_pushed(v: TrackView, parent: u64, child: u64)
    ensures
        v.host is Some && (v.host->0).1 == parent && v.page_ids.contains_key(child)
            ==> page_attached(v, parent, child).attached == v.attached.push(
            (child, v.page_ids[child]),
        ),
        v.host is None || (v.host->0).1 != parent || !v.page_ids.contains_key(child)
            ==> page_attached(v, parent, child) == v,
        v.host is Some ==> host_told(v, Event::WindowClosed) == seq![
            ArkSpecAct::Emit { to: Target::Node((v.host->0).0), event: Event::WindowClosed },
        ],
{
}

// ---- reports -----------------------------------------------------------------------------------

/// A window that was resized is told its size, at its own node.
pub proof fn a_resized_window_is_told(node: u64, width: Num, height: Num, out: Vec<ArkAct>)
    requires
        call_ensures(day_arkui_window_resized, (node, width, height), out),
    ensures
        crate::arkui::act::acts(out@) == seq![
            ArkSpecAct::Emit {
                to: Target::Node(node),
                event: Event::WindowResized(Size { width, height }),
            },
        ],
{
}

/// A display's density is what it says where that is above zero, and one otherwise.
pub proof fn a_density_is_above_zero(given: Num, d: Num)
    requires
        call_ensures(density, (given,), d),
    ensures
        0 < given.bits <= 0x7ff0_0000_0000_0000 ==> d == given,
        !(0 < given.bits <= 0x7ff0_0000_0000_0000) ==> d.bits == 0x3ff0_0000_0000_0000,
{
}

/// A toolbar's buttons, toggles and choices reach the window under their action's number: a button
/// as a menu's action, a toggle as on where it is not nought, a choice as its place.
pub proof fn a_toolbar_is_heard(
    action: Num,
    n: u32,
    pressed: Vec<DomAct>,
    on: Vec<DomAct>,
    chosen: Vec<DomAct>,
)
    requires
        action.bits < 0x7ff0_0000_0000_0000,
        action.whole() <= u64::MAX,
        call_ensures(day_dom_toolbar_action, (action,), pressed),
        call_ensures(day_dom_toolbar_on, (action, n), on),
        call_ensures(day_dom_toolbar_value, (action, n), chosen),
    ensures
        ({
            let number = action.whole() as u64;
            &&& crate::dom::act::acts(pressed@) == seq![
                PageSpecAct::Emit { to: Target::Window, event: Event::MenuAction(number) },
            ]
            &&& crate::dom::act::acts(on@) == seq![
                PageSpecAct::Emit {
                    to: Target::Window,
                    event: Event::ToolbarChanged {
                        action: number,
                        value: ToolbarValue::On(n != 0),
                    },
                },
            ]
            &&& crate::dom::act::acts(chosen@) == seq![
                PageSpecAct::Emit {
                    to: Target::Window,
                    event: Event::ToolbarChanged {
                        action: number,
                        value: ToolbarValue::Selected(n as usize),
                    },
                },
            ]
        }),
{
}

/// The page becomes active at nought and resigns at one; other numbers say nothing.
pub proof fn the_page_lives(phase: u32, out: Vec<DomAct>)
    requires
        call_ensures(day_dom_lifecycle, (phase,), out),
    ensures
        phase == 0 ==> crate::dom::act::acts(out@) == seq![
            PageSpecAct::Emit {
                to: Target::Window,
                event: Event::Lifecycle(Lifecycle::DidBecomeActive),
            },
        ],
        phase == 1 ==> crate::dom::act::acts(out@) == seq![
            PageSpecAct::Emit {
                to: Target::Window,
                event: Event::Lifecycle(Lifecycle::WillResignActive),
            },
        ],
        phase > 1 ==> crate::dom::act::acts(out@).len() == 0,
{
}

/// A row that is dropped moves where the app says, no further than the last row, and the list is
/// filled anew; dropped where it was it moves nowhere; and where the app refuses, or the list has
/// no such rows, nothing happens.
pub proof fn a_dropped_row_moves(
    host: u32,
    n: usize,
    from: u32,
    to: u32,
    verdict: i32,
    r: (Drop, Vec<DomAct>),
)
    requires
        n <= 0x7fff_ffff,
        call_ensures(day_dom_list_move, (host, Some(n), from, to, verdict), r),
    ensures
        ({
            let known = from < n && to < n && verdict >= 0;
            let place = if verdict < n {
                verdict as int
            } else {
                n - 1
            };
            &&& r.0.accepted <==> known
            &&& !known ==> r.0.to is None && crate::dom::act::acts(r.1@).len() == 0
            &&& known ==> crate::dom::act::acts(r.1@) == seq![PageSpecAct::PostPopulate(host)]
            &&& known && place == from ==> r.0.to is None
            &&& known && place != from ==> r.0.to == Some(place as usize)
        }),
{
}

/// A drag begins where the pointer is, having gone nowhere, and that place is kept; a pointer that
/// hovers is kept where it was last seen, and leaves from there.
pub proof fn drags_and_pointers_are_kept(id: u64, at: Point, phase: DragPhase)
    ensures
        forall|start: &mut Point, out: Vec<GtkAct>|
            #[trigger] call_ensures(drag_began, (start, id, at), out) ==> {
                &&& *final(start) == at
                &&& crate::gtk::act::acts(out@) == seq![
                    SpecAct::Emit {
                        to: Target::Node(id),
                        event: Event::Drag {
                            phase: DragPhase::Began,
                            location: at,
                            translation: Point { x: Num { bits: 0 }, y: Num { bits: 0 } },
                        },
                    },
                ]
            },
        forall|last: &mut Point, out: Vec<GtkAct>|
            #[trigger] call_ensures(hovered, (last, id, phase, at), out) ==> {
                let place = if phase is Ended {
                    *last
                } else {
                    at
                };
                &&& *final(last) == place
                &&& crate::gtk::act::acts(out@) == seq![
                    SpecAct::Emit {
                        to: Target::Node(id),
                        event: Event::Hover { phase, location: place },
                    },
                ]
            },
{
}

/// A list that is scrolled is to be filled once, however often it is scrolled before it is.
pub proof fn a_list_is_filled_once()
    ensures
        forall|e: &mut ListEntry, post: bool|
            e.wf() && #[trigger] call_ensures(ListEntry::scrolled, (e,), post) ==> {
                &&& post <==> !e@.fill_pending
                &&& final(e)@.fill_pending
                &&& final(e)@.selected == e@.selected
            },
        forall|e: &mut ListEntry, done: ()|
            e.wf() && #[trigger] call_ensures(ListEntry::fill_due, (e,), done) ==> {
                &&& !final(e)@.fill_pending
                &&& final(e)@.selected == e@.selected
            },
{
}

/// A page starts with its size and its theme and is titled; its theme is what its host last said.
pub proof fn a_page_starts(title: &str, viewport: Size, dark: &str, effective: u32)
    ensures
        forall|d: &mut Dom, out: Vec<DomAct>|
            #[trigger] call_ensures(Dom::launched, (d, title, viewport, dark), out) ==> {
                &&& final(d)@.viewport == viewport
                &&& final(d)@.dark == (dark@ == "1"@)
                &&& crate::dom::act::acts(out@) == seq![PageSpecAct::Title(title@)]
            },
        forall|d: &mut Dom, done: ()|
            #[trigger] call_ensures(Dom::appearance_is, (d, effective), done) ==> (final(d)@.dark
                <==> effective == 1),
{
}

/// Delays are numbered one after another and never nought.
pub proof fn delays_are_numbered()
    ensures
        forall|d: &mut Dom, t: u32|
            d@.wf() && #[trigger] call_ensures(Dom::delay_token, (d,), t) ==> {
                &&& t == d@.next_delay
                &&& t != 0
                &&& t < u32::MAX ==> final(d)@.next_delay == t + 1
                &&& t == u32::MAX ==> final(d)@.next_delay == 1
            },
{
}

/// A page is known by its node, and the others stay known as they were.
pub proof fn a_page_is_known(node: u64, id: u64, other: u64)
    ensures
        forall|n: &mut NavTrack, done: ()|
            n@.wf() && #[trigger] call_ensures(NavTrack::know_page, (n, node, id), done) ==> {
                &&& final(n)@.page_ids.contains_key(node)
                &&& final(n)@.page_ids[node] == id
                &&& other != node && n@.page_ids.contains_key(other)
                    ==> final(n)@.page_ids.contains_key(other) && final(n)@.page_ids[other]
                    == n@.page_ids[other]
                &&& final(n)@.stack == n@.stack && final(n)@.attached == n@.attached
            },
{
}

// ---- whole operations --------------------------------------------------------------------------

/// A press on a row of a list, as it is heard: after a plain press exactly that row is selected;
/// with control that row is selected if it was not, and the others stay as they were; with shift
/// the rows from the anchor through the pressed one are, whichever comes first.
pub proof fn pressing_selects(row: usize, ctrl: bool, shift: bool)
    ensures
        forall|e: &mut ListEntry, out: Vec<DomAct>|
            e.wf() && #[trigger] call_ensures(ListEntry::click, (e, row, ctrl, shift), out) ==> {
                let v = e@;
                let w = final(e)@;
                &&& forall|x: usize| #[trigger]
                    w.selected.contains(x) <==> if v.multi && ctrl {
                        v.selected.contains(x) != (x == row)
                    } else if v.multi && shift && v.anchor is Some {
                        v.anchor->0 <= x <= row || row <= x <= v.anchor->0
                    } else {
                        x == row
                    }
                &&& w.lead == Some(row)
            },
{
    assert forall|e: &mut ListEntry, out: Vec<DomAct>|
        e.wf() && #[trigger] call_ensures(ListEntry::click, (e, row, ctrl, shift), out) implies {
        let v = e@;
        let w = final(e)@;
        &&& forall|x: usize| #[trigger]
            w.selected.contains(x) <==> if v.multi && ctrl {
                v.selected.contains(x) != (x == row)
            } else if v.multi && shift && v.anchor is Some {
                v.anchor->0 <= x <= row || row <= x <= v.anchor->0
            } else {
                x == row
            }
        &&& w.lead == Some(row)
    } by {
        a_press_decides_each_row(e@, row, ctrl, shift);
    }
}

/// What is encoded of a drawing is that drawing: read from its first slot on, operation by
/// operation, it is the list of operations that was given.
pub proof fn encoding_keeps_the_drawing(ops: Vec<DrawOp>, r: (Vec<Slot>, Vec<u8>))
    requires
        call_ensures(encode_ops, (&ops,), r),
    ensures
        ops_at(r.0@, 0, r.1@).len() == ops@.len(),
        forall|i: int| 0 <= i < ops@.len() ==> #[trigger] ops_at(r.0@, 0, r.1@)[i] == op_seen(ops@[i]),
{
}

/// A menu that is handed to the page is a list with one entry for each item, each as its item is.
pub proof fn a_menus_text_is_the_menu(items: Vec<MenuItem>, vectors: Vec<String>, s: String)
    requires
        call_ensures(menu_items_json, (&items, &vectors), s),
    ensures
        ({
            let read = read_json(s@);
            &&& read is Some
            &&& read->0 is List
            &&& (read->0)->List_0.len() == items@.len()
            &&& shows_entries((read->0)->List_0, items@, items@.len() as int, vectors@)
        }),
{
    a_menu_reads_back(items@, vectors@);
}

/// The end of a drag reaches the app as its end, where the pointer is and with how far it came.
pub proof fn the_end_of_a_drag_reaches_the_app(
    id: u64,
    num: Num,
    text: Option<Vec<u8>>,
    reading: Reading,
)
    requires
        num.cut_signed() == 3,
        reading.drag is Some,
    ensures
        forall|ark: &mut ArkUi, out: Vec<ArkAct>|
            ark@.wf() && #[trigger] call_ensures(
                day_arkui_on_event,
                (ark, id, 11i32, num, &text, &reading),
                out,
            ) ==> crate::arkui::act::acts(out@) == seq![
                ArkSpecAct::Emit {
                    to: Target::Node(id),
                    event: Event::Drag {
                        phase: DragPhase::Ended,
                        location: (reading.drag->0).0,
                        translation: (reading.drag->0).1,
                    },
                },
            ],
{
    assert forall|ark: &mut ArkUi, out: Vec<ArkAct>|
        ark@.wf() && #[trigger] call_ensures(
            day_arkui_on_event,
            (ark, id, 11i32, num, &text, &reading),
            out,
        ) implies crate::arkui::act::acts(out@) == seq![
        ArkSpecAct::Emit {
            to: Target::Node(id),
            event: Event::Drag {
                phase: DragPhase::Ended,
                location: (reading.drag->0).0,
                translation: (reading.drag->0).1,
            },
        },
    ] by {
        a_drag_is_heard(ark@, id, num, text, reading);
    }
}

/// A drawing of one record of a filled or a stroked ellipse traces that ellipse and no other
/// figure.
pub proof fn an_ellipse_is_drawn_as_one(nums: Vec<Num>, drawn: Vec<bool>, out: Vec<DrawAct>, i: int)
    requires
        nums@.len() == 9,
        nums@[0].cut_signed() == 3 || nums@[0].cut_signed() == 4,
        call_ensures(cairo_draw, (&nums, &drawn), out),
        0 <= i < out@.len(),
        traces(out@[i]),
    ensures
        out@[i] == DrawAct::Ellipse(nums@[1], nums@[2], nums@[3], nums@[4]),
{
    a_list_is_drawn_record_by_record(nums@, drawn@, 0);
    let (v, done) = records(nums@, drawn@, 0);
    let r = Record {
        k: nums@[0],
        a: nums@[1],
        b: nums@[2],
        c: nums@[3],
        d: nums@[4],
        e: nums@[5],
        f: nums@[6],
        g: nums@[7],
        col: nums@[8],
    };
    assert(out@ =~= record(v, r, drawn@).1);
    each_kind_traces_its_own_figure(v, r, drawn@, i);
}

} // verus!
