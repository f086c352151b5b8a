//! What gestures report, and how animations ease.
use crate::gtk::act::{acts, emit, Act, GtkAct, SpecAct};
use crate::gtk::text::ONE;
use crate::model::{Curve, DragPhase, Event, Point, SpecEvent, Target};
use crate::num::Num;
use vstd::prelude::*;

verus! {

/// The origin.
pub open spec fn nowhere() -> Point {
    Point { x: Num { bits: 0 }, y: Num { bits: 0 } }
}

fn no_point() -> (p: Point)
    ensures
        p == nowhere(),
{
    Point { x: Num { bits: 0 }, y: Num { bits: 0 } }
}

/// An event for a node.
pub open spec fn told(id: u64, event: SpecEvent) -> Seq<SpecAct> {
    seq![Act::Emit { to: Target::Node(id), event }]
}

/// A drag began at a point, which is kept: the offsets that follow count from it.
pub fn drag_began(start: &mut Point, id: u64, at: Point) -> (out: Vec<GtkAct>)
    ensures
        *final(start) == at,
        acts(out@) == told(
            id,
            Event::Drag { phase: DragPhase::Began, location: at, translation: nowhere() },
        ),
{
    *start = at;
    emit(
        Target::Node(id),
        Event::Drag { phase: DragPhase::Began, location: at, translation: no_point() },
    )
}

/// A drag went on, or ended. `location` is where its start and its offset amount to.
pub fn dragged(id: u64, ended: bool, location: Point, offset: Point) -> (out: Vec<GtkAct>)
    ensures
        acts(out@) == told(
            id,
            Event::Drag {
                phase: if ended {
                    DragPhase::Ended
                } else {
                    DragPhase::Changed
                },
                location,
                translation: offset,
            },
        ),
{
    let phase = if ended {
        DragPhase::Ended
    } else {
        DragPhase::Changed
    };
    emit(Target::Node(id), Event::Drag { phase, location, translation: offset })
}

/// Two fingers move apart or together. The scale counts from when they began, where it is one;
/// fingers whose middle is not known are at the origin.
pub fn pinched(id: u64, phase: DragPhase, scale: Num, center: Option<Point>) -> (out: Vec<GtkAct>)
    ensures
        acts(out@) == told(
            id,
            Event::Pinch {
                phase,
                scale: if phase == DragPhase::Began {
                    Num { bits: ONE }
                } else {
                    scale
                },
                location: match center {
                    Some(p) => p,
                    None => nowhere(),
                },
            },
        ),
{
    let scale: Num = match phase {
        DragPhase::Began => Num { bits: ONE },
        DragPhase::Changed | DragPhase::Ended => scale,
    };
    let location = match center {
        Some(p) => p,
        None => no_point(),
    };
    emit(Target::Node(id), Event::Pinch { phase, scale, location })
}

/// What one unit of scrolling moves, in pixels: a notch of a wheel moves many.
pub fn pan_step(wheel: bool) -> (n: u32)
    ensures
        n == (if wheel {
            40u32
        } else {
            1u32
        }),
{
    if wheel {
        40
    } else {
        1
    }
}

/// What is shown was scrolled by so much; beginning and ending it moves nothing.
pub fn panned(id: u64, phase: DragPhase, delta: Point) -> (out: Vec<GtkAct>)
    ensures
        acts(out@) == told(
            id,
            Event::Pan {
                phase,
                delta: if phase == DragPhase::Changed {
                    delta
                } else {
                    nowhere()
                },
                location: nowhere(),
            },
        ),
{
    let delta = match phase {
        DragPhase::Changed => delta,
        DragPhase::Began | DragPhase::Ended => no_point(),
    };
    emit(Target::Node(id), Event::Pan { phase, delta, location: no_point() })
}

/// Where a pointer is, given where it was last: one that leaves is where it was.
pub open spec fn pointer(last: Point, phase: DragPhase, at: Point) -> Point {
    if phase == DragPhase::Ended {
        last
    } else {
        at
    }
}

/// A pointer came over a widget, moved or left.
pub fn hovered(last: &mut Point, id: u64, phase: DragPhase, at: Point) -> (out: Vec<GtkAct>)
    ensures
        *final(last) == pointer(*old(last), phase, at),
        acts(out@) == told(id, Event::Hover { phase, location: pointer(*old(last), phase, at) }),
{
    match phase {
        DragPhase::Ended => {},
        DragPhase::Began | DragPhase::Changed => {
            *last = at;
        },
    }
    emit(Target::Node(id), Event::Hover { phase, location: *last })
}

/// A pointer that leaves is reported where it was seen last.
pub proof fn a_pointer_leaves_where_it_was_seen(
    last: Point,
    phase: DragPhase,
    at: Point,
    elsewhere: Point,
)
    requires
        phase != DragPhase::Ended,
    ensures
        pointer(pointer(last, phase, at), DragPhase::Ended, elsewhere) == at,
{
}

/// A widget was tapped.
pub fn tapped(id: u64, at: Point) -> (out: Vec<GtkAct>)
    ensures
        acts(out@) == told(id, Event::Tap(at)),
{
    emit(Target::Node(id), Event::Tap(at))
}

/// A widget got or lost the focus.
pub fn focus_changed(id: u64, focused: bool) -> (out: Vec<GtkAct>)
    ensures
        acts(out@) == told(id, Event::FocusChanged(focused)),
{
    emit(Target::Node(id), Event::FocusChanged(focused))
}

/// How an animation eases.
#[derive(Clone, Copy, Debug, PartialEq, Eq, Structural)]
pub enum Easing {
    Linear,
    InCubic,
    OutCubic,
    InOutCubic,
    OutBack,
}

/// The easing of a curve. A spring overshoots and comes back in the time it is given.
pub fn gtk_animation(c: Curve) -> (e: Easing)
    ensures
        e == (match c {
            Curve::Linear => Easing::Linear,
            Curve::EaseIn => Easing::InCubic,
            Curve::EaseOut => Easing::OutCubic,
            Curve::EaseInOut => Easing::InOutCubic,
            Curve::Spring => Easing::OutBack,
        }),
{
    match c {
        Curve::Linear => Easing::Linear,
        Curve::EaseIn => Easing::InCubic,
        Curve::EaseOut => Easing::OutCubic,
        Curve::EaseInOut => Easing::InOutCubic,
        Curve::Spring => Easing::OutBack,
    }
}

} // verus!
