//! Reading a canvas's stream, as the page does: slot after slot from the front, each tag saying
//! what follows. What was encoded comes back.
use crate::dom::canvas::{
    blob, blobs, draw_op, nums, paint, placed, points, seg, segs, shape, stops, stream,
    stroke_style, xy, DrawOp, LineCap, LineJoin, Paint, PathSeg, Rgba, Shape, Slot, Stop,
    StrokeStyle,
};
use crate::model::{Point, Rect, Size};
use crate::num::Num;
use vstd::prelude::*;
use vstd::utf8::{decode_utf8, encode_utf8};

verus! {

// ---- what is read ------------------------------------------------------------------------------

/// A shape as it is read.
#[verifier::ext_equal]
pub ghost enum ShapeRead {
    Rect(Rect),
    RoundedRect(Rect, Num),
    Ellipse(Rect),
    Arc { rect: Rect, start_deg: Num, sweep_deg: Num },
    Line(Point, Point),
    Polygon(Seq<Point>),
    Path { even_odd: bool, segs: Seq<PathSeg> },
}

/// A paint as it is read: a gradient's places and lengths are slots that the box has settled.
#[verifier::ext_equal]
pub ghost enum PaintRead {
    Solid(Rgba),
    Linear { start: (Slot, Slot), end: (Slot, Slot), stops: Seq<Stop> },
    Radial { center: (Slot, Slot), radii: (Slot, Slot), stops: Seq<Stop> },
}

/// A line's look as it is read.
#[verifier::ext_equal]
pub ghost struct StyleRead {
    pub width: Num,
    pub cap: LineCap,
    pub join: LineJoin,
    pub miter_limit: Num,
    pub dash_phase: Num,
    pub dash: Seq<Num>,
}

/// An operation as it is read.
#[verifier::ext_equal]
#[allow(inconsistent_fields)]
pub ghost enum OpRead {
    Fill(PaintRead, ShapeRead),
    Stroke(StyleRead, PaintRead, ShapeRead),
    Stamp { stroke: Option<StyleRead>, at: Seq<Point>, paint: PaintRead, shape: ShapeRead },
    Clip(ShapeRead),
    Text {
        text: Seq<char>,
        at: Point,
        size: Num,
        color: Rgba,
        anchor: Num,
        weight: nat,
        italic: bool,
        family: Seq<char>,
    },
    Save,
    Restore,
    Concat { a: Num, b: Num, c: Num, d: Num, tx: Num, ty: Num },
}

// ---- reading -----------------------------------------------------------------------------------

/// Where something ends whose number stands for nothing: no place of any stream.
pub open spec fn nowhere() -> int {
    -1
}

/// The whole number in a slot.
pub open spec fn int_at(s: Seq<Slot>, i: int) -> nat {
    s[i]->Int_0 as nat
}

/// The number in a slot.
pub open spec fn num_at(s: Seq<Slot>, i: int) -> Num {
    s[i]->Num_0
}

/// A point from two slots, x before y.
pub open spec fn point_at(s: Seq<Slot>, i: int) -> Point {
    Point { x: num_at(s, i), y: num_at(s, i + 1) }
}

/// A box from four slots: x, y, width and height.
pub open spec fn rect_at(s: Seq<Slot>, i: int) -> Rect {
    Rect {
        origin: Point { x: num_at(s, i), y: num_at(s, i + 1) },
        size: Size { width: num_at(s, i + 2), height: num_at(s, i + 3) },
    }
}

/// `n` points, two slots each.
pub open spec fn points_at(s: Seq<Slot>, i: int, n: nat) -> Seq<Point> {
    Seq::new(n, |k: int| point_at(s, i + 2 * k))
}

/// A color out of one number: red, green, blue and alpha from the highest byte down.
pub open spec fn unpacked(n: nat) -> Rgba {
    Rgba {
        r: (n / 0x100_0000) as u8,
        g: (n / 0x1_0000 % 256) as u8,
        b: (n / 0x100 % 256) as u8,
        a: (n % 256) as u8,
    }
}

/// `n` stops, an offset and a color each.
pub open spec fn stops_at(s: Seq<Slot>, i: int, n: nat) -> Seq<Stop> {
    Seq::new(
        n,
        |k: int| Stop { offset: num_at(s, i + 2 * k), color: unpacked(int_at(s, i + 2 * k + 1)) },
    )
}

/// One segment of a path, and where the next one starts: 0 moves, 1 draws a line, 2 a curve with
/// one control point, 3 one with two, and 4 closes.
pub open spec fn seg_at(s: Seq<Slot>, i: int) -> (PathSeg, int) {
    let tag = int_at(s, i);
    if tag == 0 {
        (PathSeg::Move(point_at(s, i + 1)), i + 3)
    } else if tag == 1 {
        (PathSeg::Line(point_at(s, i + 1)), i + 3)
    } else if tag == 2 {
        (PathSeg::Quad(point_at(s, i + 1), point_at(s, i + 3)), i + 5)
    } else if tag == 3 {
        (PathSeg::Cubic(point_at(s, i + 1), point_at(s, i + 3), point_at(s, i + 5)), i + 7)
    } else {
        (
            PathSeg::Close,
            if tag == 4 {
                i + 1
            } else {
                nowhere()
            },
        )
    }
}

/// `n` segments, and where they end.
pub open spec fn segs_at(s: Seq<Slot>, i: int, n: nat) -> (Seq<PathSeg>, int)
    decreases n,
{
    if n == 0 {
        (Seq::empty(), i)
    } else {
        let (first, j) = seg_at(s, i);
        let (rest, end) = segs_at(s, j, (n - 1) as nat);
        (seq![first] + rest, end)
    }
}

/// A shape, and where it ends: 0 a box, 1 a rounded one, 2 an ellipse, 3 an arc, 4 a line, 5 a
/// polygon and 6 a path, its rule first.
pub open spec fn shape_at(s: Seq<Slot>, i: int) -> (ShapeRead, int) {
    let tag = int_at(s, i);
    if tag == 0 {
        (ShapeRead::Rect(rect_at(s, i + 1)), i + 5)
    } else if tag == 1 {
        (ShapeRead::RoundedRect(rect_at(s, i + 1), num_at(s, i + 5)), i + 6)
    } else if tag == 2 {
        (ShapeRead::Ellipse(rect_at(s, i + 1)), i + 5)
    } else if tag == 3 {
        (
            ShapeRead::Arc {
                rect: rect_at(s, i + 1),
                start_deg: num_at(s, i + 5),
                sweep_deg: num_at(s, i + 6),
            },
            i + 7,
        )
    } else if tag == 4 {
        (ShapeRead::Line(point_at(s, i + 1), point_at(s, i + 3)), i + 5)
    } else if tag == 5 {
        let n = int_at(s, i + 1);
        (ShapeRead::Polygon(points_at(s, i + 2, n)), i + 2 + 2 * n)
    } else {
        let rule = int_at(s, i + 1);
        let (segs, end) = segs_at(s, i + 3, int_at(s, i + 2));
        (
            ShapeRead::Path { even_odd: rule == 1, segs },
            if tag == 6 && rule <= 1 {
                end
            } else {
                nowhere()
            },
        )
    }
}

/// A paint, and where it ends: 0 a color; 1 a gradient along a line, its start before its end; 2 a
/// gradient about a center, with its two radii. A gradient ends with its stops.
pub open spec fn paint_at(s: Seq<Slot>, i: int) -> (PaintRead, int) {
    let tag = int_at(s, i);
    if tag == 0 {
        (PaintRead::Solid(unpacked(int_at(s, i + 1))), i + 2)
    } else {
        let n = int_at(s, i + 5);
        let stops = stops_at(s, i + 6, n);
        let end = i + 6 + 2 * n;
        if tag == 1 {
            (
                PaintRead::Linear {
                    start: (s[i + 1], s[i + 2]),
                    end: (s[i + 3], s[i + 4]),
                    stops,
                },
                end,
            )
        } else {
            (
                PaintRead::Radial {
                    center: (s[i + 1], s[i + 2]),
                    radii: (s[i + 3], s[i + 4]),
                    stops,
                },
                if tag == 2 {
                    end
                } else {
                    nowhere()
                },
            )
        }
    }
}

/// A line's look, and where it ends: its width, cap, join, miter limit and dash phase, and its
/// dashes. Caps are 0 butt, 1 round, 2 square; joins are 0 miter, 1 round, 2 bevel.
pub open spec fn style_at(s: Seq<Slot>, i: int) -> (StyleRead, int) {
    let (cap, join, n) = (int_at(s, i + 1), int_at(s, i + 2), int_at(s, i + 5));
    (
        StyleRead {
            width: num_at(s, i),
            cap: if cap == 0 {
                LineCap::Butt
            } else if cap == 1 {
                LineCap::Round
            } else {
                LineCap::Square
            },
            join: if join == 0 {
                LineJoin::Miter
            } else if join == 1 {
                LineJoin::Round
            } else {
                LineJoin::Bevel
            },
            miter_limit: num_at(s, i + 3),
            dash_phase: num_at(s, i + 4),
            dash: Seq::new(n, |k: int| num_at(s, i + 6 + k)),
        },
        if cap <= 2 && join <= 2 {
            i + 6 + n
        } else {
            nowhere()
        },
    )
}

/// A text out of the blob.
pub open spec fn text_at(blob: Seq<u8>, from: nat, len: nat) -> Seq<char> {
    decode_utf8(blob.subrange(from as int, (from + len) as int))
}

/// An operation, and where the next one starts.
pub open spec fn op_at(s: Seq<Slot>, i: int, blob: Seq<u8>) -> (OpRead, int) {
    let tag = int_at(s, i);
    if tag == 0 {
        let (paint, j) = paint_at(s, i + 1);
        let (shape, end) = shape_at(s, j);
        (OpRead::Fill(paint, shape), end)
    } else if tag == 1 {
        let (style, k) = style_at(s, i + 1);
        let (paint, j) = paint_at(s, k);
        let (shape, end) = shape_at(s, j);
        (OpRead::Stroke(style, paint, shape), end)
    } else if tag == 2 {
        (
            OpRead::Text {
                color: unpacked(int_at(s, i + 1)),
                size: num_at(s, i + 2),
                anchor: num_at(s, i + 3),
                at: point_at(s, i + 4),
                text: text_at(blob, int_at(s, i + 6), int_at(s, i + 7)),
                weight: int_at(s, i + 8),
                italic: int_at(s, i + 9) == 1,
                family: text_at(blob, int_at(s, i + 10), int_at(s, i + 11)),
            },
            if int_at(s, i + 9) <= 1 {
                i + 12
            } else {
                nowhere()
            },
        )
    } else if tag == 3 {
        (OpRead::Save, i + 1)
    } else if tag == 4 {
        (OpRead::Restore, i + 1)
    } else if tag == 5 {
        (
            OpRead::Concat {
                a: num_at(s, i + 1),
                b: num_at(s, i + 2),
                c: num_at(s, i + 3),
                d: num_at(s, i + 4),
                tx: num_at(s, i + 5),
                ty: num_at(s, i + 6),
            },
            i + 7,
        )
    } else if tag == 6 {
        let (shape, end) = shape_at(s, i + 1);
        (OpRead::Clip(shape), end)
    } else {
        let (stroke, m) = if int_at(s, i + 1) == 0 {
            (None, i + 2)
        } else {
            let (style, k) = style_at(s, i + 2);
            (Some(style), k)
        };
        let n = int_at(s, m);
        let (paint, j) = paint_at(s, m + 1 + 2 * n);
        let (shape, end) = shape_at(s, j);
        (
            OpRead::Stamp { stroke, at: points_at(s, m + 1, n), paint, shape },
            if tag == 7 && int_at(s, i + 1) <= 1 {
                end
            } else {
                nowhere()
            },
        )
    }
}

/// The operations from a place to the end of the stream.
pub open spec fn ops_at(s: Seq<Slot>, i: int, blob: Seq<u8>) -> Seq<OpRead>
    decreases s.len() - i,
{
    if i >= s.len() {
        Seq::empty()
    } else {
        let (op, j) = op_at(s, i, blob);
        if j <= i || j > s.len() {
            seq![op]
        } else {
            seq![op] + ops_at(s, j, blob)
        }
    }
}

// ---- what ought to be read ---------------------------------------------------------------------

/// A shape as the page is to have it.
pub open spec fn shape_seen(s: Shape) -> ShapeRead {
    match s {
        Shape::Rect(r) => ShapeRead::Rect(r),
        Shape::RoundedRect(r, rad) => ShapeRead::RoundedRect(r, rad),
        Shape::Ellipse(r) => ShapeRead::Ellipse(r),
        Shape::Arc { rect, start_deg, sweep_deg } => ShapeRead::Arc { rect, start_deg, sweep_deg },
        Shape::Line(a, b) => ShapeRead::Line(a, b),
        Shape::Polygon(pts) => ShapeRead::Polygon(pts@),
        Shape::Path { even_odd, segs } => ShapeRead::Path { even_odd, segs: segs@ },
    }
}

/// A paint as the page is to have it, in a box.
pub open spec fn paint_seen(p: Paint, b: Rect) -> PaintRead {
    match p {
        Paint::Solid(c) => PaintRead::Solid(c),
        Paint::Linear { start, end, stops } => PaintRead::Linear {
            start: (
                Slot::Along { origin: b.origin.x, unit: start.x, extent: b.size.width },
                Slot::Along { origin: b.origin.y, unit: start.y, extent: b.size.height },
            ),
            end: (
                Slot::Along { origin: b.origin.x, unit: end.x, extent: b.size.width },
                Slot::Along { origin: b.origin.y, unit: end.y, extent: b.size.height },
            ),
            stops: stops@,
        },
        Paint::Radial { center, radius, stops } => PaintRead::Radial {
            center: (
                Slot::Along { origin: b.origin.x, unit: center.x, extent: b.size.width },
                Slot::Along { origin: b.origin.y, unit: center.y, extent: b.size.height },
            ),
            radii: (
                Slot::Times { unit: radius, extent: b.size.width },
                Slot::Times { unit: radius, extent: b.size.height },
            ),
            stops: stops@,
        },
    }
}

/// A line's look as the page is to have it.
pub open spec fn style_seen(s: StrokeStyle) -> StyleRead {
    StyleRead {
        width: s.width,
        cap: s.cap,
        join: s.join,
        miter_limit: s.miter_limit,
        dash_phase: s.dash_phase,
        dash: s.dash@,
    }
}

/// An operation as the page is to have it.
pub open spec fn op_seen(op: DrawOp) -> OpRead {
    match op {
        DrawOp::Fill(o, p) => OpRead::Fill(paint_seen(p, o.bounds), shape_seen(o.shape)),
        DrawOp::Stroke(o, p, s) => OpRead::Stroke(
            style_seen(s),
            paint_seen(p, o.bounds),
            shape_seen(o.shape),
        ),
        DrawOp::Stamp { outline, paint, at, stroke } => OpRead::Stamp {
            stroke: match stroke {
                Some(s) => Some(style_seen(s)),
                None => None,
            },
            at: at@,
            paint: paint_seen(paint, outline.bounds),
            shape: shape_seen(outline.shape),
        },
        DrawOp::Clip(o) => OpRead::Clip(shape_seen(o.shape)),
        DrawOp::Text { text, at, size, color, anchor, weight, italic, family } => OpRead::Text {
            text: text@,
            at,
            size,
            color,
            anchor,
            weight: weight as nat,
            italic,
            family: family@,
        },
        DrawOp::Save => OpRead::Save,
        DrawOp::Restore => OpRead::Restore,
        DrawOp::Concat { a, b, c, d, tx, ty } => OpRead::Concat { a, b, c, d, tx, ty },
    }
}

// ---- proof -------------------------------------------------------------------------------------

/// A stream holds some slots from a place on.
spec fn holds(s: Seq<Slot>, i: int, e: Seq<Slot>) -> bool {
    0 <= i && i + e.len() <= s.len() && forall|j: int| 0 <= j < e.len() ==> #[trigger] e[j] == s[i + j]
}

proof fn holds_parts(s: Seq<Slot>, i: int, a: Seq<Slot>, b: Seq<Slot>)
    requires
        holds(s, i, a + b),
    ensures
        holds(s, i, a),
        holds(s, i + a.len(), b),
{
    let e = a + b;
    assert forall|j: int| 0 <= j < a.len() implies #[trigger] a[j] == s[i + j] by {
        assert(e[j] == s[i + j]);
    }
    assert forall|j: int| 0 <= j < b.len() implies #[trigger] b[j] == s[i + a.len() + j] by {
        assert(e[a.len() + j] == s[i + (a.len() + j)]);
    }
}

proof fn packed_reads(c: Rgba)
    ensures
        unpacked(crate::dom::canvas::packed(c) as u64 as nat) == c,
{
    crate::dom::canvas::packed_colors_unpack(c);
}

proof fn points_read(s: Seq<Slot>, i: int, v: Seq<Point>)
    requires
        holds(s, i, points(v)),
    ensures
        points(v).len() == 2 * v.len(),
        points_at(s, i, v.len()) == v,
    decreases v.len(),
{
    if v.len() > 0 {
        let rest = v.skip(1);
        holds_parts(s, i, xy(v[0]), points(rest));
        points_read(s, i + 2, rest);
        let e = xy(v[0]);
        assert(e[0] == s[i + 0] && e[1] == s[i + 1]);
        assert forall|k: int| 0 <= k < v.len() implies #[trigger] points_at(s, i, v.len())[k]
            == v[k] by {
            if k > 0 {
                assert(rest[k - 1] == v[k]);
                assert(points_at(s, i + 2, rest.len())[k - 1] == rest[k - 1]);
                assert(i + 2 + 2 * (k - 1) == i + 2 * k);
            }
        }
    }
    assert(points_at(s, i, v.len()) =~= v);
}

proof fn stops_read(s: Seq<Slot>, i: int, v: Seq<Stop>)
    requires
        holds(s, i, stops(v)),
    ensures
        stops(v).len() == 2 * v.len(),
        stops_at(s, i, v.len()) == v,
    decreases v.len(),
{
    if v.len() > 0 {
        let rest = v.skip(1);
        let e = seq![
            crate::dom::canvas::num(v[0].offset),
            crate::dom::canvas::whole(crate::dom::canvas::packed(v[0].color)),
        ];
        holds_parts(s, i, e, stops(rest));
        stops_read(s, i + 2, rest);
        packed_reads(v[0].color);
        assert(e[0] == s[i + 0] && e[1] == s[i + 1]);
        assert forall|k: int| 0 <= k < v.len() implies #[trigger] stops_at(s, i, v.len())[k]
            == v[k] by {
            if k > 0 {
                assert(rest[k - 1] == v[k]);
                assert(stops_at(s, i + 2, rest.len())[k - 1] == rest[k - 1]);
                assert(i + 2 + 2 * (k - 1) == i + 2 * k);
            }
        }
    }
    assert(stops_at(s, i, v.len()) =~= v);
}

proof fn nums_read(s: Seq<Slot>, i: int, v: Seq<Num>)
    requires
        holds(s, i, nums(v)),
    ensures
        nums(v).len() == v.len(),
        forall|k: int| 0 <= k < v.len() ==> num_at(s, i + k) == #[trigger] v[k],
    decreases v.len(),
{
    if v.len() > 0 {
        let rest = v.skip(1);
        let e = seq![crate::dom::canvas::num(v[0])];
        holds_parts(s, i, e, nums(rest));
        nums_read(s, i + 1, rest);
        assert(e[0] == s[i + 0]);
        assert forall|k: int| 0 <= k < v.len() implies num_at(s, i + k) == #[trigger] v[k] by {
            if k > 0 {
                assert(rest[k - 1] == v[k]);
                assert(i + 1 + (k - 1) == i + k);
            }
        }
    }
}

proof fn seg_reads(s: Seq<Slot>, i: int, g: PathSeg)
    requires
        holds(s, i, seg(g)),
    ensures
        seg_at(s, i) == (g, i + seg(g).len()),
{
    let e = seg(g);
    assert(e[0] == s[i + 0]);
    match g {
        PathSeg::Move(_) | PathSeg::Line(_) => {
            assert(e[1] == s[i + 1] && e[2] == s[i + 2]);
        },
        PathSeg::Quad(_, _) => {
            assert(e[1] == s[i + 1] && e[2] == s[i + 2] && e[3] == s[i + 3] && e[4] == s[i + 4]);
        },
        PathSeg::Cubic(_, _, _) => {
            assert(e[1] == s[i + 1] && e[2] == s[i + 2] && e[3] == s[i + 3] && e[4] == s[i + 4]);
            assert(e[5] == s[i + 5] && e[6] == s[i + 6]);
        },
        PathSeg::Close => {},
    }
}

proof fn segs_read(s: Seq<Slot>, i: int, v: Seq<PathSeg>)
    requires
        holds(s, i, segs(v)),
    ensures
        segs_at(s, i, v.len()) == (v, i + segs(v).len()),
    decreases v.len(),
{
    if v.len() > 0 {
        let rest = v.skip(1);
        holds_parts(s, i, seg(v[0]), segs(rest));
        seg_reads(s, i, v[0]);
        segs_read(s, i + seg(v[0]).len(), rest);
        assert(seq![v[0]] + rest =~= v);
    } else {
        assert(v =~= Seq::<PathSeg>::empty());
    }
}

#[verifier::spinoff_prover]
proof fn shape_reads(s: Seq<Slot>, i: int, g: Shape)
    requires
        holds(s, i, shape(g)),
    ensures
        shape_at(s, i) == (shape_seen(g), i + shape(g).len()),
{
    let e = shape(g);
    assert(e[0] == s[i + 0]);
    match g {
        Shape::Rect(_) | Shape::Ellipse(_) | Shape::Line(_, _) => {
            assert(e[1] == s[i + 1] && e[2] == s[i + 2] && e[3] == s[i + 3] && e[4] == s[i + 4]);
        },
        Shape::RoundedRect(_, _) => {
            assert(e[1] == s[i + 1] && e[2] == s[i + 2] && e[3] == s[i + 3] && e[4] == s[i + 4]);
            assert(e[5] == s[i + 5]);
        },
        Shape::Arc { .. } => {
            assert(e[1] == s[i + 1] && e[2] == s[i + 2] && e[3] == s[i + 3] && e[4] == s[i + 4]);
            assert(e[5] == s[i + 5] && e[6] == s[i + 6]);
        },
        Shape::Polygon(pts) => {
            let n: usize = pts.len();
            assert(pts@.len() == n);
            let h = seq![crate::dom::canvas::whole(5), crate::dom::canvas::whole(pts@.len())];
            assert(e[1] == s[i + 1]);
            holds_parts(s, i, h, points(pts@));
            points_read(s, i + 2, pts@);
        },
        Shape::Path { even_odd, segs: v } => {
            let n: usize = v.len();
            assert(v@.len() == n);
            let h = seq![
                crate::dom::canvas::whole(6),
                crate::dom::canvas::whole(
                    if even_odd {
                        1
                    } else {
                        0
                    },
                ),
                crate::dom::canvas::whole(v@.len()),
            ];
            assert(e[1] == s[i + 1] && e[2] == s[i + 2]);
            holds_parts(s, i, h, segs(v@));
            segs_read(s, i + 3, v@);
        },
    }
}

#[verifier::spinoff_prover]
proof fn paint_reads(s: Seq<Slot>, i: int, p: Paint, b: Rect)
    requires
        holds(s, i, paint(p, b)),
    ensures
        paint_at(s, i) == (paint_seen(p, b), i + paint(p, b).len()),
{
    let e = paint(p, b);
    assert(e[0] == s[i + 0] && e[1] == s[i + 1]);
    match p {
        Paint::Solid(c) => {
            packed_reads(c);
        },
        Paint::Linear { start, end, stops: v } => {
            let n: usize = v.len();
            assert(v@.len() == n);
            let h = seq![crate::dom::canvas::whole(1)] + (placed(start, b) + placed(end, b)) + seq![
                crate::dom::canvas::whole(v@.len()),
            ];
            assert(e[2] == s[i + 2] && e[3] == s[i + 3] && e[4] == s[i + 4] && e[5] == s[i + 5]);
            holds_parts(s, i, h, stops(v@));
            stops_read(s, i + 6, v@);
        },
        Paint::Radial { center, radius, stops: v } => {
            let n: usize = v.len();
            assert(v@.len() == n);
            let h = seq![crate::dom::canvas::whole(2)] + (placed(center, b) + seq![
                Slot::Times { unit: radius, extent: b.size.width },
                Slot::Times { unit: radius, extent: b.size.height },
            ]) + seq![crate::dom::canvas::whole(v@.len())];
            assert(e[2] == s[i + 2] && e[3] == s[i + 3] && e[4] == s[i + 4] && e[5] == s[i + 5]);
            holds_parts(s, i, h, stops(v@));
            stops_read(s, i + 6, v@);
        },
    }
}

#[verifier::spinoff_prover]
proof fn style_reads(s: Seq<Slot>, i: int, y: StrokeStyle)
    requires
        holds(s, i, stroke_style(y)),
    ensures
        style_at(s, i) == (style_seen(y), i + stroke_style(y).len()),
{
    let e = stroke_style(y);
    let n: usize = y.dash.len();
    assert(y.dash@.len() == n);
    assert(e[0] == s[i + 0] && e[1] == s[i + 1] && e[2] == s[i + 2] && e[3] == s[i + 3]);
    assert(e[4] == s[i + 4] && e[5] == s[i + 5]);
    let h = e.take(6);
    assert(e =~= h + nums(y.dash@));
    holds_parts(s, i, h, nums(y.dash@));
    nums_read(s, i + 6, y.dash@);
    assert(style_at(s, i).0.dash =~= y.dash@);
}

#[verifier::spinoff_prover]
#[verifier::rlimit(40)]
proof fn op_reads(s: Seq<Slot>, i: int, op: DrawOp, all: Seq<u8>, base: nat)
    requires
        holds(s, i, draw_op(op, base)),
        base + blob(op).len() <= all.len() <= u64::MAX,
        all.subrange(base as int, (base + blob(op).len()) as int) == blob(op),
    ensures
        op_at(s, i, all) == (op_seen(op), i + draw_op(op, base).len()),
        draw_op(op, base).len() > 0,
{
    let e = draw_op(op, base);
    assert(e[0] == s[i + 0]);
    match op {
        DrawOp::Fill(o, p) => {
            let t = seq![crate::dom::canvas::whole(0)];
            holds_parts(s, i, t + paint(p, o.bounds), shape(o.shape));
            holds_parts(s, i, t, paint(p, o.bounds));
            paint_reads(s, i + 1, p, o.bounds);
            shape_reads(s, i + 1 + paint(p, o.bounds).len(), o.shape);
        },
        DrawOp::Stroke(o, p, y) => {
            let t = seq![crate::dom::canvas::whole(1)];
            let ty = t + stroke_style(y);
            holds_parts(s, i, ty + paint(p, o.bounds), shape(o.shape));
            holds_parts(s, i, ty, paint(p, o.bounds));
            holds_parts(s, i, t, stroke_style(y));
            style_reads(s, i + 1, y);
            paint_reads(s, i + ty.len(), p, o.bounds);
            shape_reads(s, i + ty.len() + paint(p, o.bounds).len(), o.shape);
        },
        DrawOp::Text { text, at, size, color, anchor, weight, italic, family } => {
            assert(e[1] == s[i + 1] && e[2] == s[i + 2] && e[3] == s[i + 3] && e[4] == s[i + 4]);
            assert(e[5] == s[i + 5] && e[6] == s[i + 6] && e[7] == s[i + 7] && e[8] == s[i + 8]);
            assert(e[9] == s[i + 9] && e[10] == s[i + 10] && e[11] == s[i + 11]);
            packed_reads(color);
            let (a, b) = (encode_utf8(text@), encode_utf8(family@));
            let mine = all.subrange(base as int, (base + a.len() + b.len()) as int);
            assert(mine == a + b);
            assert(all.subrange(base as int, (base + a.len()) as int) =~= mine.subrange(
                0,
                a.len() as int,
            ));
            assert(mine.subrange(0, a.len() as int) =~= a);
            assert(all.subrange((base + a.len()) as int, (base + a.len() + b.len()) as int)
                =~= mine.subrange(a.len() as int, (a.len() + b.len()) as int));
            assert(mine.subrange(a.len() as int, (a.len() + b.len()) as int) =~= b);
            vstd::utf8::encode_utf8_decode_utf8(text@);
            vstd::utf8::encode_utf8_decode_utf8(family@);
        },
        DrawOp::Save | DrawOp::Restore => {},
        DrawOp::Concat { .. } => {
            assert(e[1] == s[i + 1] && e[2] == s[i + 2] && e[3] == s[i + 3] && e[4] == s[i + 4]);
            assert(e[5] == s[i + 5] && e[6] == s[i + 6]);
        },
        DrawOp::Clip(o) => {
            holds_parts(s, i, seq![crate::dom::canvas::whole(6)], shape(o.shape));
            shape_reads(s, i + 1, o.shape);
        },
        DrawOp::Stamp { outline, paint: p, at, stroke } => {
            let n: usize = at.len();
            assert(at@.len() == n);
            let t = match stroke {
                None => seq![crate::dom::canvas::whole(7), crate::dom::canvas::whole(0)],
                Some(y) => seq![crate::dom::canvas::whole(7), crate::dom::canvas::whole(1)]
                    + stroke_style(y),
            };
            let c = seq![crate::dom::canvas::whole(at@.len())];
            let b = outline.bounds;
            assert(t[1] == e[1]);
            assert(e[1] == s[i + 1]);
            holds_parts(s, i, t + c + points(at@) + paint(p, b), shape(outline.shape));
            holds_parts(s, i, t + c + points(at@), paint(p, b));
            holds_parts(s, i, t + c, points(at@));
            holds_parts(s, i, t, c);
            assert(c[0] == s[i + t.len() + 0]);
            if stroke is Some {
                holds_parts(
                    s,
                    i,
                    seq![crate::dom::canvas::whole(7), crate::dom::canvas::whole(1)],
                    stroke_style(stroke->0),
                );
                style_reads(s, i + 2, stroke->0);
            }
            let m = i + t.len();
            points_read(s, m + 1, at@);
            paint_reads(s, m + 1 + 2 * at@.len(), p, b);
            shape_reads(s, m + 1 + 2 * at@.len() + paint(p, b).len(), outline.shape);
        },
    }
}

proof fn earlier_parts(ops: Seq<DrawOp>, k: int, n: int)
    requires
        0 <= k <= n,
    ensures
        stream(ops, k).len() <= stream(ops, n).len(),
        blobs(ops, k).len() <= blobs(ops, n).len(),
        stream(ops, n).take(stream(ops, k).len() as int) == stream(ops, k),
        blobs(ops, n).take(blobs(ops, k).len() as int) == blobs(ops, k),
    decreases n - k,
{
    if k < n {
        earlier_parts(ops, k, n - 1);
        let (a, b) = (stream(ops, n - 1), stream(ops, n));
        assert(b.take(stream(ops, k).len() as int) =~= a.take(stream(ops, k).len() as int));
        let (a, b) = (blobs(ops, n - 1), blobs(ops, n));
        assert(b.take(blobs(ops, k).len() as int) =~= a.take(blobs(ops, k).len() as int));
    } else {
        assert(stream(ops, n).take(stream(ops, k).len() as int) =~= stream(ops, k));
        assert(blobs(ops, n).take(blobs(ops, k).len() as int) =~= blobs(ops, k));
    }
}

proof fn ops_read_from(ops: Seq<DrawOp>, k: int, n: int)
    requires
        0 <= k <= n <= ops.len(),
        blobs(ops, n).len() <= u64::MAX,
    ensures
        ops_at(stream(ops, n), stream(ops, k).len() as int, blobs(ops, n)) == Seq::new(
            (n - k) as nat,
            |i: int| op_seen(ops[k + i]),
        ),
    decreases n - k,
{
    let (s, all) = (stream(ops, n), blobs(ops, n));
    let i = stream(ops, k).len() as int;
    let want = Seq::new((n - k) as nat, |i: int| op_seen(ops[k + i]));
    if k < n {
        let base = blobs(ops, k).len();
        let e = draw_op(ops[k], base);
        earlier_parts(ops, k + 1, n);
        let upto = stream(ops, k + 1);
        assert forall|j: int| 0 <= j < e.len() implies #[trigger] e[j] == s[i + j] by {
            assert(upto[i + j] == e[j]);
            assert(s.take(upto.len() as int)[i + j] == upto[i + j]);
        }
        let text = blobs(ops, k + 1);
        assert(all.subrange(base as int, (base + blob(ops[k]).len()) as int) =~= blob(ops[k])) by {
            assert forall|j: int| 0 <= j < blob(ops[k]).len() implies all[base + j] == #[trigger] blob(
                ops[k],
            )[j] by {
                assert(text[base + j] == blob(ops[k])[j]);
                assert(all.take(text.len() as int)[base + j] == text[base + j]);
            }
        }
        op_reads(s, i, ops[k], all, base);
        ops_read_from(ops, k + 1, n);
        let rest = Seq::new((n - k - 1) as nat, |i: int| op_seen(ops[k + 1 + i]));
        assert(seq![op_seen(ops[k])] + rest =~= want);
    } else {
        assert(want =~= Seq::<OpRead>::empty());
    }
}

/// A display list that was encoded comes back out of its stream and its text: the operations that
/// the page reads, slot by slot from the front, are those that were encoded, in their order, each
/// with its shape, its look, its text and its paint, a gradient's places and lengths settled by
/// the box around the shape.
pub proof fn what_was_encoded_is_read_back(ops: Seq<DrawOp>)
    requires
        blobs(ops, ops.len() as int).len() <= u64::MAX,
    ensures
        ops_at(stream(ops, ops.len() as int), 0, blobs(ops, ops.len() as int)) == Seq::new(
            ops.len(),
            |i: int| op_seen(ops[i]),
        ),
{
    ops_read_from(ops, 0, ops.len() as int);
    assert(Seq::new(ops.len(), |i: int| op_seen(ops[0 + i])) =~= Seq::new(
        ops.len(),
        |i: int| op_seen(ops[i]),
    ));
}

} // verus!
