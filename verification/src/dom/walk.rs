//! Walking a display list: a reader that knows nothing but the stream finds where each
//! operation ends, and the text blob holds each text where its operation says.
use crate::dom::canvas::{
    blob, blobs, draw_op, paint, points, seg, segs, shape, stops, stream, stroke_style, nums,
    DrawOp, Paint, PathSeg, Shape, Slot, StrokeStyle,
};
use crate::model::{Point, Rect};
use crate::num::Num;
use vstd::prelude::*;
use vstd::utf8::encode_utf8;

verus! {

/// The whole number at a place of the stream.
pub open spec fn int_at(s: Seq<Slot>, i: int) -> Option<nat> {
    if 0 <= i < s.len() {
        match s[i] {
            Slot::Int(n) => Some(n as nat),
            _ => None,
        }
    } else {
        None
    }
}

/// A place, as long as the stream reaches it.
pub open spec fn reach(s: Seq<Slot>, j: int) -> Option<int> {
    if j <= s.len() {
        Some(j)
    } else {
        None
    }
}

/// How many numbers follow the tag of a path segment.
pub open spec fn seg_numbers(tag: nat) -> Option<int> {
    if tag == 0 || tag == 1 {
        Some(2)
    } else if tag == 2 {
        Some(4)
    } else if tag == 3 {
        Some(6)
    } else if tag == 4 {
        Some(0)
    } else {
        None
    }
}

/// The end of `n` path segments that start at `i`.
pub open spec fn segs_end(s: Seq<Slot>, i: int, n: nat) -> Option<int>
    decreases n,
{
    if n == 0 {
        reach(s, i)
    } else {
        match int_at(s, i) {
            Some(tag) => match seg_numbers(tag) {
                Some(k) => segs_end(s, i + 1 + k, (n - 1) as nat),
                None => None,
            },
            None => None,
        }
    }
}

/// The end of the shape that starts at `i`.
pub open spec fn shape_end(s: Seq<Slot>, i: int) -> Option<int> {
    match int_at(s, i) {
        Some(tag) => if tag == 0 || tag == 2 || tag == 4 {
            reach(s, i + 5)
        } else if tag == 1 {
            reach(s, i + 6)
        } else if tag == 3 {
            reach(s, i + 7)
        } else if tag == 5 {
            match int_at(s, i + 1) {
                Some(n) => reach(s, i + 2 + 2 * n),
                None => None,
            }
        } else if tag == 6 {
            match int_at(s, i + 2) {
                Some(n) => segs_end(s, i + 3, n),
                None => None,
            }
        } else {
            None
        },
        None => None,
    }
}

/// The end of the paint that starts at `i`.
pub open spec fn paint_end(s: Seq<Slot>, i: int) -> Option<int> {
    match int_at(s, i) {
        Some(tag) => if tag == 0 {
            reach(s, i + 2)
        } else if tag == 1 || tag == 2 {
            match int_at(s, i + 5) {
                Some(n) => reach(s, i + 6 + 2 * n),
                None => None,
            }
        } else {
            None
        },
        None => None,
    }
}

/// The end of the stroke style that starts at `i`.
pub open spec fn style_end(s: Seq<Slot>, i: int) -> Option<int> {
    match int_at(s, i + 5) {
        Some(n) => reach(s, i + 6 + n),
        None => None,
    }
}

/// The end of a paint and the shape behind it.
pub open spec fn painted_shape_end(s: Seq<Slot>, i: int) -> Option<int> {
    match paint_end(s, i) {
        Some(j) => shape_end(s, j),
        None => None,
    }
}

/// The end of the places, paint and shape of a stamp.
pub open spec fn stamp_end(s: Seq<Slot>, i: int) -> Option<int> {
    match int_at(s, i) {
        Some(n) => painted_shape_end(s, i + 1 + 2 * n),
        None => None,
    }
}

/// The end of the operation that starts at `i`.
pub open spec fn op_end(s: Seq<Slot>, i: int) -> Option<int> {
    match int_at(s, i) {
        Some(tag) => if tag == 0 {
            painted_shape_end(s, i + 1)
        } else if tag == 1 {
            match style_end(s, i + 1) {
                Some(j) => painted_shape_end(s, j),
                None => None,
            }
        } else if tag == 2 {
            reach(s, i + 12)
        } else if tag == 3 || tag == 4 {
            reach(s, i + 1)
        } else if tag == 5 {
            reach(s, i + 7)
        } else if tag == 6 {
            shape_end(s, i + 1)
        } else if tag == 7 {
            match int_at(s, i + 1) {
                Some(flag) => if flag == 0 {
                    stamp_end(s, i + 2)
                } else {
                    match style_end(s, i + 2) {
                        Some(j) => stamp_end(s, j),
                        None => None,
                    }
                },
                None => None,
            }
        } else {
            None
        },
        None => None,
    }
}

/// The part `e` stands in the stream at `i`.
pub open spec fn stands(s: Seq<Slot>, i: int, e: Seq<Slot>) -> bool {
    &&& 0 <= i
    &&& i + e.len() <= s.len()
    &&& forall|k: int| 0 <= k < e.len() ==> s[i + k] == #[trigger] e[k]
}

proof fn parts_stand(s: Seq<Slot>, i: int, a: Seq<Slot>, b: Seq<Slot>)
    requires
        stands(s, i, a + b),
    ensures
        stands(s, i, a),
        stands(s, i + a.len(), b),
{
    let e = a + b;
    assert forall|k: int| 0 <= k < a.len() implies s[i + k] == #[trigger] a[k] by {
        assert(e[k] == a[k]);
    }
    assert forall|k: int| 0 <= k < b.len() implies s[i + a.len() + k] == #[trigger] b[k] by {
        assert(e[a.len() + k] == b[k]);
        assert(s[i + (a.len() + k)] == e[a.len() + k]);
    }
}

proof fn points_len(v: Seq<Point>)
    ensures
        points(v).len() == 2 * v.len(),
    decreases v.len(),
{
    if v.len() > 0 {
        points_len(v.skip(1));
    }
}

proof fn stops_len(v: Seq<crate::dom::canvas::Stop>)
    ensures
        stops(v).len() == 2 * v.len(),
    decreases v.len(),
{
    if v.len() > 0 {
        stops_len(v.skip(1));
    }
}

proof fn nums_len(v: Seq<Num>)
    ensures
        nums(v).len() == v.len(),
    decreases v.len(),
{
    if v.len() > 0 {
        nums_len(v.skip(1));
    }
}

proof fn segs_walk(s: Seq<Slot>, i: int, v: Seq<PathSeg>)
    requires
        stands(s, i, segs(v)),
    ensures
        segs_end(s, i, v.len()) == Some(i + segs(v).len()),
    decreases v.len(),
{
    if v.len() > 0 {
        let e = seg(v[0]);
        let rest = segs(v.skip(1));
        parts_stand(s, i, e, rest);
        segs_walk(s, i + e.len(), v.skip(1));
        assert(s[i + 0] == e[0]);
    }
}

proof fn shape_walks(s: Seq<Slot>, i: int, x: Shape)
    requires
        stands(s, i, shape(x)),
    ensures
        shape_end(s, i) == Some(i + shape(x).len()),
{
    let e = shape(x);
    assert(s[i + 0] == e[0]);
    match x {
        Shape::Polygon(pts) => {
            points_len(pts@);
            assert(pts@.len() == pts.len());
            assert(s[i + 1] == e[1]);
        },
        Shape::Path { even_odd, segs: v } => {
            assert(v@.len() == v.len());
            assert(s[i + 2] == e[2]);
            let head = e.take(3);
            assert(e =~= head + segs(v@));
            parts_stand(s, i, head, segs(v@));
            segs_walk(s, i + 3, v@);
        },
        _ => {},
    }
}

proof fn paint_walks(s: Seq<Slot>, i: int, p: Paint, b: Rect)
    requires
        stands(s, i, paint(p, b)),
    ensures
        paint_end(s, i) == Some(i + paint(p, b).len()),
{
    let e = paint(p, b);
    assert(s[i + 0] == e[0]);
    match p {
        Paint::Solid(_) => {},
        Paint::Linear { stops: v, .. } => {
            stops_len(v@);
            assert(v@.len() == v.len());
            assert(s[i + 5] == e[5]);
        },
        Paint::Radial { stops: v, .. } => {
            stops_len(v@);
            assert(v@.len() == v.len());
            assert(s[i + 5] == e[5]);
        },
    }
}

proof fn style_walks(s: Seq<Slot>, i: int, x: StrokeStyle)
    requires
        stands(s, i, stroke_style(x)),
    ensures
        style_end(s, i) == Some(i + stroke_style(x).len()),
{
    let e = stroke_style(x);
    nums_len(x.dash@);
    assert(x.dash@.len() == x.dash.len());
    assert(s[i + 5] == e[5]);
}

proof fn painted_shape_walks(s: Seq<Slot>, i: int, p: Paint, b: Rect, x: Shape)
    requires
        stands(s, i, paint(p, b) + shape(x)),
    ensures
        painted_shape_end(s, i) == Some(i + (paint(p, b) + shape(x)).len()),
{
    parts_stand(s, i, paint(p, b), shape(x));
    paint_walks(s, i, p, b);
    shape_walks(s, i + paint(p, b).len(), x);
}

proof fn places_walk(s: Seq<Slot>, j: int, at: Vec<Point>, p: Paint, b: Rect, x: Shape)
    requires
        stands(
            s,
            j,
            seq![crate::dom::canvas::whole(at@.len())] + points(at@) + (paint(p, b) + shape(x)),
        ),
    ensures
        stamp_end(s, j) == Some(j + 1 + points(at@).len() + (paint(p, b) + shape(x)).len()),
{
    let head = seq![crate::dom::canvas::whole(at@.len())] + points(at@);
    let body = paint(p, b) + shape(x);
    points_len(at@);
    assert(at@.len() == at.len());
    assert((head + body)[0] == head[0]);
    assert(s[j + 0] == (head + body)[0]);
    parts_stand(s, j, head, body);
    painted_shape_walks(s, j + 1 + points(at@).len(), p, b, x);
}

proof fn stamp_walks(s: Seq<Slot>, i: int, op: DrawOp, base: nat)
    requires
        stands(s, i, draw_op(op, base)),
        op is Stamp,
    ensures
        op_end(s, i) == Some(i + draw_op(op, base).len()),
        draw_op(op, base).len() > 0,
{
    let e = draw_op(op, base);
    match op {
        DrawOp::Stamp { outline: o, paint: p, at, stroke } => {
            let placed = seq![crate::dom::canvas::whole(at@.len())] + points(at@) + (paint(
                p,
                o.bounds,
            ) + shape(o.shape));
            assert(s[i + 0] == e[0]);
            assert(s[i + 1] == e[1]);
            match stroke {
                None => {
                    assert(e =~= e.take(2) + placed);
                    parts_stand(s, i, e.take(2), placed);
                    places_walk(s, i + 2, at, p, o.bounds, o.shape);
                },
                Some(st) => {
                    let style = stroke_style(st);
                    assert(e =~= e.take(2) + (style + placed));
                    parts_stand(s, i, e.take(2), style + placed);
                    parts_stand(s, i + 2, style, placed);
                    style_walks(s, i + 2, st);
                    places_walk(s, i + 2 + style.len(), at, p, o.bounds, o.shape);
                },
            }
        },
        _ => {},
    }
}

proof fn op_walks(s: Seq<Slot>, i: int, op: DrawOp, base: nat)
    requires
        stands(s, i, draw_op(op, base)),
    ensures
        op_end(s, i) == Some(i + draw_op(op, base).len()),
        draw_op(op, base).len() > 0,
{
    let e = draw_op(op, base);
    match op {
        DrawOp::Fill(o, p) => {
            let body = paint(p, o.bounds) + shape(o.shape);
            assert(e =~= e.take(1) + body);
            parts_stand(s, i, e.take(1), body);
            painted_shape_walks(s, i + 1, p, o.bounds, o.shape);
            assert(s[i + 0] == e[0]);
        },
        DrawOp::Stroke(o, p, st) => {
            let body = paint(p, o.bounds) + shape(o.shape);
            let style = stroke_style(st);
            assert(e =~= e.take(1) + (style + body));
            parts_stand(s, i, e.take(1), style + body);
            parts_stand(s, i + 1, style, body);
            style_walks(s, i + 1, st);
            painted_shape_walks(s, i + 1 + style.len(), p, o.bounds, o.shape);
            assert(s[i + 0] == e[0]);
        },
        DrawOp::Clip(o) => {
            assert(e =~= e.take(1) + shape(o.shape));
            parts_stand(s, i, e.take(1), shape(o.shape));
            shape_walks(s, i + 1, o.shape);
            assert(s[i + 0] == e[0]);
        },
        DrawOp::Stamp { .. } => {
            stamp_walks(s, i, op, base);
        },
        _ => {
            assert(s[i + 0] == e[0]);
        },
    }
}

/// Where the `n`-th operation of a list starts in its stream.
pub open spec fn op_start(ops: Seq<DrawOp>, n: int) -> int {
    stream(ops, n).len() as int
}

proof fn stream_stands(ops: Seq<DrawOp>, n: int, m: int)
    requires
        0 <= n < m <= ops.len(),
    ensures
        stands(stream(ops, m), op_start(ops, n), draw_op(ops[n], blobs(ops, n).len())),
        op_start(ops, n + 1) == op_start(ops, n) + draw_op(ops[n], blobs(ops, n).len()).len(),
    decreases m,
{
    let e = draw_op(ops[n], blobs(ops, n).len());
    let s = stream(ops, m);
    let prior = stream(ops, m - 1);
    if n == m - 1 {
        assert forall|k: int| 0 <= k < e.len() implies s[op_start(ops, n) + k] == #[trigger] e[k] by {
        }
    } else {
        stream_stands(ops, n, m - 1);
        let at = op_start(ops, n);
        assert forall|k: int| 0 <= k < e.len() implies s[at + k] == #[trigger] e[k] by {
            assert(prior[at + k] == e[k]);
        }
    }
}

/// The stream describes itself: from the start of any operation a reader finds its end, which is
/// the start of the next one, and behind the last one nothing is left.
pub proof fn the_stream_describes_itself(ops: Seq<DrawOp>, n: int)
    requires
        0 <= n < ops.len(),
    ensures
        op_start(ops, 0) == 0,
        op_end(stream(ops, ops.len() as int), op_start(ops, n)) == Some(op_start(ops, n + 1)),
        op_start(ops, n) < op_start(ops, n + 1),
        op_start(ops, ops.len() as int) == stream(ops, ops.len() as int).len(),
{
    stream_stands(ops, n, ops.len() as int);
    op_walks(
        stream(ops, ops.len() as int),
        op_start(ops, n),
        ops[n],
        blobs(ops, n).len(),
    );
}

proof fn blobs_stand(ops: Seq<DrawOp>, n: int, m: int)
    requires
        0 <= n < m <= ops.len(),
    ensures
        blobs(ops, n).len() + blob(ops[n]).len() <= blobs(ops, m).len(),
        blobs(ops, m).subrange(
            blobs(ops, n).len() as int,
            (blobs(ops, n).len() + blob(ops[n]).len()) as int,
        ) == blob(ops[n]),
    decreases m,
{
    let at = blobs(ops, n).len() as int;
    let b = blob(ops[n]);
    if n == m - 1 {
        assert(blobs(ops, m).subrange(at, at + b.len()) =~= b);
    } else {
        blobs_stand(ops, n, m - 1);
        let prior = blobs(ops, m - 1);
        assert(blobs(ops, m).subrange(at, at + b.len()) =~= prior.subrange(at, at + b.len()));
    }
}

/// A text operation's bytes stand in the blob where the operation says, and its font family's
/// right behind them.
pub proof fn texts_stand_where_their_operations_say(ops: Seq<DrawOp>, n: int)
    requires
        0 <= n < ops.len(),
        ops[n] is Text,
    ensures
        ({
            let all = blobs(ops, ops.len() as int);
            let off = blobs(ops, n).len() as int;
            let text = encode_utf8(ops[n]->text@);
            let family = encode_utf8(ops[n]->family@);
            &&& off + text.len() + family.len() <= all.len()
            &&& all.subrange(off, off + text.len()) == text
            &&& all.subrange(off + text.len(), off + text.len() + family.len()) == family
        }),
{
    let all = blobs(ops, ops.len() as int);
    let off = blobs(ops, n).len() as int;
    let text = encode_utf8(ops[n]->text@);
    let family = encode_utf8(ops[n]->family@);
    blobs_stand(ops, n, ops.len() as int);
    let both = all.subrange(off, off + text.len() + family.len());
    assert(both == text + family);
    assert(all.subrange(off, off + text.len()) =~= both.take(text.len() as int));
    assert(both.take(text.len() as int) =~= text);
    assert(all.subrange(off + text.len(), off + text.len() + family.len()) =~= both.skip(
        text.len() as int,
    ));
    assert(both.skip(text.len() as int) =~= family);
}

} // verus!
