//! What each kind of record draws, call by call, what it leaves for the records after it, and how
//! places to stamp at multiply it.
use crate::dom::canvas::{LineCap, LineJoin};
use crate::gtk::canvas::{
    record, records, stamped, Bounds, BoardView, DrawAct, Face, Gradient, Pen, Record,
};
use crate::model::Point;
use crate::num::Num;
use vstd::prelude::*;

verus! {

/// Whether a call traces a figure.
pub open spec fn traces(c: DrawAct) -> bool {
    c is Rect || c is RoundRect || c is Ellipse || c is Arc || c is Segment || c is Polygon
        || c is Trace
}

/// Whether a number is above one half and is one.
pub open spec fn over_half(n: Num) -> bool {
    0x3fe0_0000_0000_0000 < n.bits <= 0x7ff0_0000_0000_0000
}

/// The color of a record, as its first call sets it.
pub open spec fn inked(r: Record) -> DrawAct {
    DrawAct::Color(r.col.cut(0xffff_ffff) as u32)
}

/// Kind 0 fills the record's box, shaded where a gradient waits, which is used up.
pub proof fn kind_0_fills_a_box(v: BoardView, r: Record, drawn: Seq<bool>)
    requires
        r.k.cut_signed() == 0,
        v.at.len() == 0,
    ensures
        ({
            let (w, calls) = record(v, r, drawn);
            let figure = DrawAct::Rect(r.a, r.b, r.c, r.d);
            &&& v.pen.gradient is None ==> calls == seq![inked(r), figure, DrawAct::Fill]
            &&& v.pen.gradient matches Some(g) ==> calls == seq![
                inked(r),
                figure,
                DrawAct::Source(g, Bounds::Box(r.a, r.b, r.c, r.d)),
                DrawAct::Fill,
            ]
            &&& w.pen == (Pen { gradient: None, face: None, ..v.pen })
            &&& w.at == v.at && w.places == v.places
        }),
{
}

/// Kind 1 strokes the record's box at its width, in the look that waits, which is used up.
pub proof fn kind_1_strokes_a_box(v: BoardView, r: Record, drawn: Seq<bool>)
    requires
        r.k.cut_signed() == 1,
        v.at.len() == 0,
    ensures
        ({
            let (w, calls) = record(v, r, drawn);
            let figure = DrawAct::Rect(r.a, r.b, r.c, r.d);
            &&& v.pen.style is None ==> calls == seq![
                inked(r),
                figure,
                DrawAct::LineWidth(r.g),
                DrawAct::Stroke,
                DrawAct::Reset,
            ]
            &&& v.pen.style matches Some(s) ==> calls == seq![
                inked(r),
                DrawAct::Apply(s),
                figure,
                DrawAct::LineWidth(r.g),
                DrawAct::Stroke,
                DrawAct::Reset,
            ]
            &&& w.pen == (Pen { style: None, face: None, ..v.pen })
            &&& w.at == v.at && w.places == v.places
        }),
{
}

/// Kind 2 fills the record's box with rounded corners.
pub proof fn kind_2_fills_a_rounded_box(v: BoardView, r: Record, drawn: Seq<bool>)
    requires
        r.k.cut_signed() == 2,
        v.at.len() == 0,
    ensures
        ({
            let (w, calls) = record(v, r, drawn);
            let figure = DrawAct::RoundRect(r.a, r.b, r.c, r.d, r.e, true);
            &&& v.pen.gradient is None ==> calls == seq![inked(r), figure, DrawAct::Fill]
            &&& v.pen.gradient matches Some(g) ==> calls == seq![
                inked(r),
                figure,
                DrawAct::Source(g, Bounds::Box(r.a, r.b, r.c, r.d)),
                DrawAct::Fill,
            ]
            &&& w.pen == (Pen { gradient: None, face: None, ..v.pen })
            &&& w.at == v.at && w.places == v.places
        }),
{
}

/// Kind 3 fills the ellipse in the record's box.
pub proof fn kind_3_fills_an_ellipse(v: BoardView, r: Record, drawn: Seq<bool>)
    requires
        r.k.cut_signed() == 3,
        v.at.len() == 0,
    ensures
        ({
            let (w, calls) = record(v, r, drawn);
            let figure = DrawAct::Ellipse(r.a, r.b, r.c, r.d);
            &&& v.pen.gradient is None ==> calls == seq![inked(r), figure, DrawAct::Fill]
            &&& v.pen.gradient matches Some(g) ==> calls == seq![
                inked(r),
                figure,
                DrawAct::Source(g, Bounds::Box(r.a, r.b, r.c, r.d)),
                DrawAct::Fill,
            ]
            &&& w.pen == (Pen { gradient: None, face: None, ..v.pen })
            &&& w.at == v.at && w.places == v.places
        }),
{
}

/// Kind 4 strokes the ellipse in the record's box.
pub proof fn kind_4_strokes_an_ellipse(v: BoardView, r: Record, drawn: Seq<bool>)
    requires
        r.k.cut_signed() == 4,
        v.at.len() == 0,
    ensures
        ({
            let (w, calls) = record(v, r, drawn);
            let figure = DrawAct::Ellipse(r.a, r.b, r.c, r.d);
            &&& v.pen.style is None ==> calls == seq![
                inked(r),
                figure,
                DrawAct::LineWidth(r.g),
                DrawAct::Stroke,
                DrawAct::Reset,
            ]
            &&& v.pen.style matches Some(s) ==> calls == seq![
                inked(r),
                DrawAct::Apply(s),
                figure,
                DrawAct::LineWidth(r.g),
                DrawAct::Stroke,
                DrawAct::Reset,
            ]
            &&& w.pen == (Pen { style: None, face: None, ..v.pen })
            &&& w.at == v.at && w.places == v.places
        }),
{
}

/// Kind 5 strokes an arc about the middle of the record's box, its ends round.
pub proof fn kind_5_strokes_an_arc(v: BoardView, r: Record, drawn: Seq<bool>)
    requires
        r.k.cut_signed() == 5,
        v.at.len() == 0,
    ensures
        ({
            let (w, calls) = record(v, r, drawn);
            let figure = DrawAct::Arc(r.a, r.b, r.c, r.d, r.e, r.f);
            &&& v.pen.style is None ==> calls == seq![
                inked(r),
                DrawAct::LineWidth(r.g),
                DrawAct::RoundCap,
                figure,
                DrawAct::Stroke,
                DrawAct::Reset,
            ]
            &&& v.pen.style matches Some(s) ==> calls == seq![
                inked(r),
                DrawAct::Apply(s),
                DrawAct::LineWidth(r.g),
                DrawAct::RoundCap,
                figure,
                DrawAct::Stroke,
                DrawAct::Reset,
            ]
            &&& w.pen == (Pen { style: None, face: None, ..v.pen })
            &&& w.at == v.at && w.places == v.places
        }),
{
}

/// Kind 6 strokes a line from the record's first point to its second.
pub proof fn kind_6_strokes_a_line(v: BoardView, r: Record, drawn: Seq<bool>)
    requires
        r.k.cut_signed() == 6,
        v.at.len() == 0,
    ensures
        ({
            let (w, calls) = record(v, r, drawn);
            let figure = DrawAct::Segment(r.a, r.b, r.c, r.d);
            &&& v.pen.style is None ==> calls == seq![
                inked(r),
                DrawAct::LineWidth(r.g),
                figure,
                DrawAct::Stroke,
                DrawAct::Reset,
            ]
            &&& v.pen.style matches Some(s) ==> calls == seq![
                inked(r),
                DrawAct::Apply(s),
                DrawAct::LineWidth(r.g),
                figure,
                DrawAct::Stroke,
                DrawAct::Reset,
            ]
            &&& w.pen == (Pen { style: None, face: None, ..v.pen })
            &&& w.at == v.at && w.places == v.places
        }),
{
}

/// Kind 13 strokes the record's box with rounded corners.
pub proof fn kind_13_strokes_a_rounded_box(v: BoardView, r: Record, drawn: Seq<bool>)
    requires
        r.k.cut_signed() == 13,
        v.at.len() == 0,
    ensures
        ({
            let (w, calls) = record(v, r, drawn);
            let figure = DrawAct::RoundRect(r.a, r.b, r.c, r.d, r.e, true);
            &&& v.pen.style is None ==> calls == seq![
                inked(r),
                figure,
                DrawAct::LineWidth(r.g),
                DrawAct::Stroke,
                DrawAct::Reset,
            ]
            &&& v.pen.style matches Some(s) ==> calls == seq![
                inked(r),
                DrawAct::Apply(s),
                figure,
                DrawAct::LineWidth(r.g),
                DrawAct::Stroke,
                DrawAct::Reset,
            ]
            &&& w.pen == (Pen { style: None, face: None, ..v.pen })
            &&& w.at == v.at && w.places == v.places
        }),
{
}

/// Kind 7 writes the next text at the record's first point, in its size and anchoring, in the face
/// that waits or the plain one; the text and the face are used up.
pub proof fn kind_7_writes_a_text(v: BoardView, r: Record, drawn: Seq<bool>)
    requires
        r.k.cut_signed() == 7,
        v.at.len() == 0,
        v.pen.text < usize::MAX,
    ensures
        ({
            let (w, calls) = record(v, r, drawn);
            let face = if v.pen.face is Some {
                v.pen.face->0
            } else {
                Face { weight: Num { bits: 0 }, italic: false, family: None }
            };
            &&& calls == seq![
                inked(r),
                DrawAct::Text {
                    text: v.pen.text,
                    face,
                    size: r.e,
                    anchor: r.f,
                    x: r.a,
                    y: r.b,
                },
            ]
            &&& w.pen.text == v.pen.text + 1
            &&& w.pen.face is None
            &&& w.pen.gradient == v.pen.gradient && w.pen.style == v.pen.style
            &&& w.at == v.at && w.places == v.places
        }),
{
}

/// Kinds 8, 9 and 10 keep the drawing's state, bring it back, and transform what follows.
pub proof fn kinds_8_to_10_move_the_drawing(v: BoardView, r: Record, drawn: Seq<bool>)
    requires
        v.at.len() == 0,
    ensures
        ({
            let (w, calls) = record(v, r, drawn);
            let k = r.k.cut_signed();
            &&& k == 8 ==> calls == seq![inked(r), DrawAct::Save]
            &&& k == 9 ==> calls == seq![inked(r), DrawAct::Restore]
            &&& k == 10 ==> calls == seq![
                inked(r),
                DrawAct::Transform(r.a, r.b, r.c, r.d, r.e, r.f),
            ]
            &&& k == 8 || k == 9 || k == 10 ==> w == (BoardView {
                pen: Pen { face: None, ..v.pen },
                ..v
            })
        }),
{
}

/// Kind 11 fills the points of the next text, and kind 12 strokes them; a text without a point
/// draws nothing. The text is read either way.
pub proof fn kinds_11_and_12_draw_points(v: BoardView, r: Record, drawn: Seq<bool>)
    requires
        v.at.len() == 0,
        v.pen.text < usize::MAX,
    ensures
        ({
            let (w, calls) = record(v, r, drawn);
            let k = r.k.cut_signed();
            let t = v.pen.text;
            let held = t < drawn.len() && drawn[t as int];
            &&& k == 11 && !held ==> calls == seq![inked(r)]
            &&& k == 11 && held && v.pen.gradient is None ==> calls == seq![
                inked(r),
                DrawAct::Polygon(t),
                DrawAct::Fill,
            ]
            &&& k == 11 && held && v.pen.gradient is Some ==> calls == seq![
                inked(r),
                DrawAct::Polygon(t),
                DrawAct::Source(v.pen.gradient->0, Bounds::Polygon(t)),
                DrawAct::Fill,
            ]
            &&& k == 12 && !held && v.pen.style is None ==> calls == seq![
                inked(r),
                DrawAct::Reset,
            ]
            &&& k == 12 && !held && v.pen.style is Some ==> calls == seq![
                inked(r),
                DrawAct::Apply(v.pen.style->0),
                DrawAct::Reset,
            ]
            &&& k == 12 && held && v.pen.style is None ==> calls == seq![
                inked(r),
                DrawAct::Polygon(t),
                DrawAct::LineWidth(r.g),
                DrawAct::Stroke,
                DrawAct::Reset,
            ]
            &&& k == 12 && held && v.pen.style is Some ==> calls == seq![
                inked(r),
                DrawAct::Apply(v.pen.style->0),
                DrawAct::Polygon(t),
                DrawAct::LineWidth(r.g),
                DrawAct::Stroke,
                DrawAct::Reset,
            ]
            &&& k == 11 || k == 12 ==> w.pen.text == t + 1 && w.pen.face is None && w.at == v.at
                && w.places == v.places
            &&& k == 11 ==> w.pen.style == v.pen.style && w.pen.gradient == if held {
                None
            } else {
                v.pen.gradient
            }
            &&& k == 12 ==> w.pen.style is None && w.pen.gradient == v.pen.gradient
        }),
{
}

/// Kind 15 fills the path of the next text, by the even-odd rule where the record asks for it, and
/// kind 16 strokes it; both are shaded by a gradient that waits.
pub proof fn kinds_15_and_16_draw_a_path(v: BoardView, r: Record, drawn: Seq<bool>)
    requires
        v.at.len() == 0,
        v.pen.text < usize::MAX,
    ensures
        ({
            let (w, calls) = record(v, r, drawn);
            let k = r.k.cut_signed();
            let t = v.pen.text;
            let rule = DrawAct::EvenOdd(over_half(r.f));
            &&& k == 15 && v.pen.gradient is None ==> calls == seq![
                inked(r),
                DrawAct::Trace(t),
                rule,
                DrawAct::Fill,
                DrawAct::EvenOdd(false),
            ]
            &&& k == 15 && v.pen.gradient is Some ==> calls == seq![
                inked(r),
                DrawAct::Trace(t),
                rule,
                DrawAct::Source(v.pen.gradient->0, Bounds::Path(t)),
                DrawAct::Fill,
                DrawAct::EvenOdd(false),
            ]
            &&& k == 16 && v.pen.style is None && v.pen.gradient is None ==> calls == seq![
                inked(r),
                DrawAct::Trace(t),
                DrawAct::LineWidth(r.g),
                DrawAct::Stroke,
                DrawAct::Reset,
            ]
            &&& k == 16 && v.pen.style is Some && v.pen.gradient is None ==> calls == seq![
                inked(r),
                DrawAct::Apply(v.pen.style->0),
                DrawAct::Trace(t),
                DrawAct::LineWidth(r.g),
                DrawAct::Stroke,
                DrawAct::Reset,
            ]
            &&& k == 16 && v.pen.style is None && v.pen.gradient is Some ==> calls == seq![
                inked(r),
                DrawAct::Trace(t),
                DrawAct::LineWidth(r.g),
                DrawAct::Source(v.pen.gradient->0, Bounds::Path(t)),
                DrawAct::Stroke,
                DrawAct::Reset,
            ]
            &&& k == 16 && v.pen.style is Some && v.pen.gradient is Some ==> calls == seq![
                inked(r),
                DrawAct::Apply(v.pen.style->0),
                DrawAct::Trace(t),
                DrawAct::LineWidth(r.g),
                DrawAct::Source(v.pen.gradient->0, Bounds::Path(t)),
                DrawAct::Stroke,
                DrawAct::Reset,
            ]
            &&& k == 15 || k == 16 ==> w.pen.text == t + 1 && w.pen.gradient is None
                && w.pen.face is None && w.at == v.at && w.places == v.places
            &&& k == 15 ==> w.pen.style == v.pen.style
            &&& k == 16 ==> w.pen.style is None
        }),
{
}

/// Kind 17 clips to the figure the record names: 1 a rounded box, 2 an ellipse, 3 the path of the
/// next text, 4 its points, anything else the box itself.
pub proof fn kind_17_clips_to_its_figure(v: BoardView, r: Record, drawn: Seq<bool>)
    requires
        r.k.cut_signed() == 17,
        v.at.len() == 0,
        v.pen.text < usize::MAX,
    ensures
        ({
            let (w, calls) = record(v, r, drawn);
            let f = r.f.cut_signed();
            let t = v.pen.text;
            let held = t < drawn.len() && drawn[t as int];
            &&& f == 1 ==> calls == seq![
                inked(r),
                DrawAct::RoundRect(r.a, r.b, r.c, r.d, r.e, false),
                DrawAct::Clip,
                DrawAct::EvenOdd(false),
            ]
            &&& f == 2 ==> calls == seq![
                inked(r),
                DrawAct::Ellipse(r.a, r.b, r.c, r.d),
                DrawAct::Clip,
                DrawAct::EvenOdd(false),
            ]
            &&& f == 3 ==> calls == seq![
                inked(r),
                DrawAct::Trace(t),
                DrawAct::EvenOdd(over_half(r.e)),
                DrawAct::Clip,
                DrawAct::EvenOdd(false),
            ]
            &&& f == 4 && held ==> calls == seq![
                inked(r),
                DrawAct::Polygon(t),
                DrawAct::Clip,
                DrawAct::EvenOdd(false),
            ]
            &&& f == 4 && !held ==> calls == seq![
                inked(r),
                DrawAct::Clip,
                DrawAct::EvenOdd(false),
            ]
            &&& f < 1 || f > 4 ==> calls == seq![
                inked(r),
                DrawAct::Rect(r.a, r.b, r.c, r.d),
                DrawAct::Clip,
                DrawAct::EvenOdd(false),
            ]
            &&& w.pen.text == if f == 3 || f == 4 {
                t + 1
            } else {
                t as int
            }
            &&& w.pen.gradient == v.pen.gradient && w.pen.style == v.pen.style
            &&& w.pen.face is None
            &&& w.at == v.at && w.places == v.places
        }),
{
}

/// Kind 14 leaves a gradient for the next figure, kind 18 a look for the next stroke and kind 19 a
/// face for the next text, each with the next text as its stops, its dashes or its family. They
/// draw nothing, and places that wait go on waiting.
pub proof fn kinds_14_18_and_19_prepare(v: BoardView, r: Record, drawn: Seq<bool>)
    requires
        v.pen.text < usize::MAX,
    ensures
        ({
            let (w, calls) = record(v, r, drawn);
            let k = r.k.cut_signed();
            let t = v.pen.text;
            &&& k == 14 || k == 18 || k == 19 ==> calls == seq![inked(r)] && w.pen.text == t + 1
                && w.at == v.at && w.places == v.places
            &&& k == 14 ==> w.pen.gradient == Some(
                Gradient {
                    kind: r.f.cut(255) as u8,
                    a: r.a,
                    b: r.b,
                    c: r.c,
                    d: r.d,
                    stops: t,
                },
            ) && w.pen.style == v.pen.style && w.pen.face is None
            &&& k == 18 ==> {
                &&& w.pen.style matches Some(s) && {
                    &&& s.miter == r.c && s.phase == r.d && s.dashes == t
                    &&& s.cap == LineCap::Round <==> r.a.cut_signed() == 1
                    &&& s.cap == LineCap::Square <==> r.a.cut_signed() == 2
                    &&& s.join == LineJoin::Round <==> r.b.cut_signed() == 1
                    &&& s.join == LineJoin::Bevel <==> r.b.cut_signed() == 2
                }
                &&& w.pen.gradient == v.pen.gradient
                &&& w.pen.face is None
            }
            &&& k == 19 ==> w.pen.face == Some(
                Face { weight: r.a, italic: over_half(r.b), family: Some(t) },
            ) && w.pen.style == v.pen.style && w.pen.gradient == v.pen.gradient
        }),
{
}

/// Kind 20 says how many places are to come and forgets those before; kind 21 names four, in the
/// order of its numbers, of which no more are kept than are to come.
pub proof fn kinds_20_and_21_name_places(v: BoardView, r: Record, drawn: Seq<bool>)
    requires
        v.at.len() <= v.places,
    ensures
        ({
            let (w, calls) = record(v, r, drawn);
            let k = r.k.cut_signed();
            let four = seq![
                Point { x: r.a, y: r.b },
                Point { x: r.c, y: r.d },
                Point { x: r.e, y: r.f },
                Point { x: r.g, y: r.col },
            ];
            &&& k == 20 || k == 21 ==> calls == seq![inked(r)] && w.pen == (Pen {
                face: None,
                ..v.pen
            })
            &&& k == 20 ==> w.at.len() == 0 && w.places == r.a.cut(usize::MAX as nat)
            &&& k == 21 ==> w.places == v.places && w.at == if v.at.len() + 4 <= v.places {
                v.at + four
            } else {
                v.at + four.take(v.places - v.at.len())
            }
        }),
{
}

/// A record of any other kind sets its color and draws nothing.
pub proof fn other_kinds_draw_nothing(v: BoardView, r: Record, drawn: Seq<bool>)
    requires
        r.k.cut_signed() < 0 || r.k.cut_signed() > 21,
        v.at.len() == 0,
    ensures
        record(v, r, drawn).1 == seq![inked(r)],
        record(v, r, drawn).0 == (BoardView { pen: Pen { face: None, ..v.pen }, ..v }),
{
}

/// A record that draws a figure traces exactly one, and the kind says which: 0 and 1 the box, 2
/// and 13 the rounded box, 3 and 4 the ellipse, 5 the arc, 6 the line, 11 and 12 the points of a
/// text that holds one, 15 and 16 the path of a text. The other kinds but the clip trace none.
pub proof fn each_kind_traces_its_own_figure(v: BoardView, r: Record, drawn: Seq<bool>, i: int)
    requires
        v.at.len() == 0,
        v.pen.text < usize::MAX,
        0 <= i < record(v, r, drawn).1.len(),
    ensures
        ({
            let k = r.k.cut_signed();
            let calls = record(v, r, drawn).1;
            let t = v.pen.text;
            let held = t < drawn.len() && drawn[t as int];
            &&& traces(calls[i]) ==> {
                &&& k == 0 || k == 1 ==> calls[i] == DrawAct::Rect(r.a, r.b, r.c, r.d)
                &&& k == 2 || k == 13 ==> calls[i] == DrawAct::RoundRect(
                    r.a,
                    r.b,
                    r.c,
                    r.d,
                    r.e,
                    true,
                )
                &&& k == 3 || k == 4 ==> calls[i] == DrawAct::Ellipse(r.a, r.b, r.c, r.d)
                &&& k == 5 ==> calls[i] == DrawAct::Arc(r.a, r.b, r.c, r.d, r.e, r.f)
                &&& k == 6 ==> calls[i] == DrawAct::Segment(r.a, r.b, r.c, r.d)
                &&& k == 11 || k == 12 ==> held && calls[i] == DrawAct::Polygon(t)
                &&& k == 15 || k == 16 ==> calls[i] == DrawAct::Trace(t)
                &&& 0 <= k <= 6 || 11 <= k <= 13 || 15 <= k <= 17
                &&& forall|j: int|
                    0 <= j < calls.len() && j != i ==> !traces(#[trigger] calls[j])
            }
            &&& 0 <= k <= 6 || k == 13 || k == 15 || k == 16 || (held && (k == 11 || k == 12))
                ==> exists|j: int| 0 <= j < calls.len() && traces(#[trigger] calls[j])
        }),
{
    let k = r.k.cut_signed();
    let calls = record(v, r, drawn).1;
    if 0 <= k <= 6 || k == 13 || k == 15 || k == 16 || ((k == 11 || k == 12) && v.pen.text
        < drawn.len() && drawn[v.pen.text as int]) {
        let o: int = if v.pen.style is Some && (k == 1 || k == 4 || k == 5 || k == 6 || k == 12
            || k == 13 || k == 16) {
            2
        } else {
            1
        };
        let j: int = if k == 5 {
            o + 2
        } else if k == 6 {
            o + 1
        } else {
            o
        };
        assert(traces(calls[j]));
    }
}

/// One more place to stamp at is one more copy: the calls that draw the record, whatever its kind,
/// come once more, moved to the place and back, after those for the places before and ahead of
/// what ends the record. What the record leaves behind does not depend on the places.
pub proof fn one_more_place_is_one_more_copy(v: BoardView, r: Record, drawn: Seq<bool>, p: Point)
    requires
        ({
            let k = r.k.cut_signed();
            k != 14 && k != 18 && k != 19 && k != 20 && k != 21
        }),
    ensures
        ({
            let k = r.k.cut_signed();
            let line = k == 1 || k == 4 || k == 5 || k == 6 || k == 12 || k == 13 || k == 16;
            let open: int = if line && v.pen.style is Some {
                2
            } else {
                1
            };
            let close: int = if line {
                1
            } else {
                0
            };
            let (left, plain) = record(BoardView { at: Seq::empty(), ..v }, r, drawn);
            let (w, calls) = record(v, r, drawn);
            let (more, stamps) = record(BoardView { at: v.at.push(p), ..v }, r, drawn);
            let so_far = if v.at.len() == 0 {
                plain.take(open)
            } else {
                calls.take(calls.len() - close)
            };
            &&& open + close <= plain.len()
            &&& open + close <= calls.len()
            &&& stamps == so_far + seq![DrawAct::Save, DrawAct::Translate(p.x, p.y)]
                + plain.subrange(open, plain.len() - close) + seq![DrawAct::Restore]
                + plain.skip(plain.len() - close)
            &&& plain.take(open)[0] == inked(r)
            &&& more == left
            &&& w == left
            &&& more.at.len() == 0
        }),
{
    let k = r.k.cut_signed();
    let line = k == 1 || k == 4 || k == 5 || k == 6 || k == 12 || k == 13 || k == 16;
    let open: int = if line && v.pen.style is Some {
        2
    } else {
        1
    };
    let close: int = if line {
        1
    } else {
        0
    };
    let pen = crate::gtk::canvas::taken_up(v.pen, k);
    let (left, plain) = record(BoardView { at: Seq::empty(), ..v }, r, drawn);
    let (w, calls) = record(v, r, drawn);
    let (more, stamps) = record(BoardView { at: v.at.push(p), ..v }, r, drawn);
    let body = crate::gtk::canvas::body(pen, r, drawn);
    let n = v.at.len() as int;
    same_places(pen, r, drawn, v.at, v.at.push(p), n);
    let opening = crate::gtk::canvas::opening(v.pen, r);
    assert(plain.take(open) =~= opening);
    assert(plain.subrange(open, plain.len() - close) =~= body.1);
    let copy = crate::gtk::canvas::copy_at(pen, r, drawn, p);
    assert(copy =~= seq![DrawAct::Save, DrawAct::Translate(p.x, p.y)] + body.1
        + seq![DrawAct::Restore]);
    let before = stamped(pen, r, drawn, v.at, n).1;
    assert(stamped(pen, r, drawn, v.at.push(p), n + 1).1 =~= before + copy);
    let so_far = if n == 0 {
        plain.take(open)
    } else {
        calls.take(calls.len() - close)
    };
    assert(so_far =~= opening + before);
    assert(stamps =~= so_far + seq![DrawAct::Save, DrawAct::Translate(p.x, p.y)]
        + plain.subrange(open, plain.len() - close) + seq![DrawAct::Restore] + plain.skip(
        plain.len() - close,
    ));
}

proof fn same_places(
    pen: Pen,
    r: Record,
    drawn: Seq<bool>,
    at: Seq<Point>,
    more: Seq<Point>,
    n: int,
)
    requires
        n <= at.len() <= more.len(),
        forall|i: int| 0 <= i < at.len() ==> at[i] == more[i],
    ensures
        stamped(pen, r, drawn, at, n) == stamped(pen, r, drawn, more, n),
    decreases n,
{
    if n > 0 {
        same_places(pen, r, drawn, at, more, n - 1);
    }
}

/// A display list is drawn record by record, nine numbers each, the first on a clean board and
/// every other on what the one before it left.
pub proof fn a_list_is_drawn_record_by_record(nums: Seq<Num>, drawn: Seq<bool>, n: int)
    requires
        0 <= n,
        9 * n + 9 <= nums.len(),
    ensures
        records(nums, drawn, 0) == (
            BoardView {
                pen: Pen { text: 0, gradient: None, style: None, face: None },
                at: Seq::empty(),
                places: 0,
            },
            Seq::<DrawAct>::empty(),
        ),
        ({
            let (v, done) = records(nums, drawn, n);
            let (w, more) = record(
                v,
                Record {
                    k: nums[9 * n],
                    a: nums[9 * n + 1],
                    b: nums[9 * n + 2],
                    c: nums[9 * n + 3],
                    d: nums[9 * n + 4],
                    e: nums[9 * n + 5],
                    f: nums[9 * n + 6],
                    g: nums[9 * n + 7],
                    col: nums[9 * n + 8],
                },
                drawn,
            );
            records(nums, drawn, n + 1) == (w, done + more)
        }),
{
}

} // verus!
