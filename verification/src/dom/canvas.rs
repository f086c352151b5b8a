//! A canvas's display list as one flat stream of numbers with a blob of text beside it. The
//! stream describes itself: a reader needs no table of lengths to walk it.
use crate::model::{Point, Rect};
use crate::num::Num;
use vstd::prelude::*;
use vstd::utf8::encode_utf8;

verus! {

/// One place of the stream: a whole number, a number carried over as it came, or one that the
/// geometry around it settles — `origin + unit * extent`, or `unit * extent`.
#[derive(Clone, Copy, Debug, PartialEq, Eq, Structural)]
pub enum Slot {
    Int(u64),
    Num(Num),
    Along { origin: Num, unit: Num, extent: Num },
    Times { unit: Num, extent: Num },
}

/// A color by its components on the 0–255 scale.
#[derive(Clone, Copy, Debug, PartialEq, Eq, Structural)]
pub struct Rgba {
    pub r: u8,
    pub g: u8,
    pub b: u8,
    pub a: u8,
}

#[derive(Clone, Copy, Debug, PartialEq, Eq, Structural)]
pub enum PathSeg {
    Move(Point),
    Line(Point),
    Quad(Point, Point),
    Cubic(Point, Point, Point),
    Close,
}

pub enum Shape {
    Rect(Rect),
    RoundedRect(Rect, Num),
    Ellipse(Rect),
    Arc { rect: Rect, start_deg: Num, sweep_deg: Num },
    Line(Point, Point),
    Polygon(Vec<Point>),
    Path { even_odd: bool, segs: Vec<PathSeg> },
}

/// A shape with the box around it, against which its paint resolves.
pub struct Outline {
    pub shape: Shape,
    pub bounds: Rect,
}

#[derive(Clone, Copy, Debug, PartialEq, Eq, Structural)]
pub struct Stop {
    pub offset: Num,
    pub color: Rgba,
}

/// A paint; a gradient's geometry is in units of the box it fills.
pub enum Paint {
    Solid(Rgba),
    Linear { start: Point, end: Point, stops: Vec<Stop> },
    Radial { center: Point, radius: Num, stops: Vec<Stop> },
}

#[derive(Clone, Copy, Debug, PartialEq, Eq, Structural)]
pub enum LineCap {
    Butt,
    Round,
    Square,
}

#[derive(Clone, Copy, Debug, PartialEq, Eq, Structural)]
pub enum LineJoin {
    Miter,
    Round,
    Bevel,
}

pub struct StrokeStyle {
    pub width: Num,
    pub cap: LineCap,
    pub join: LineJoin,
    pub miter_limit: Num,
    pub dash_phase: Num,
    pub dash: Vec<Num>,
}

#[allow(inconsistent_fields)]
pub enum DrawOp {
    Fill(Outline, Paint),
    Stroke(Outline, Paint, StrokeStyle),
    /// One shape drawn at many places, filled, or stroked in a style.
    Stamp { outline: Outline, paint: Paint, at: Vec<Point>, stroke: Option<StrokeStyle> },
    Clip(Outline),
    Text {
        text: String,
        at: Point,
        size: Num,
        color: Rgba,
        anchor: Num,
        weight: u16,
        italic: bool,
        family: String,
    },
    Save,
    Restore,
    Concat { a: Num, b: Num, c: Num, d: Num, tx: Num, ty: Num },
}

// ---- what the stream holds ---------------------------------------------------------------------

/// A color in one number, red in the highest byte.
pub open spec fn packed(c: Rgba) -> nat {
    (c.r as nat) * 0x100_0000 + (c.g as nat) * 0x1_0000 + (c.b as nat) * 0x100 + c.a as nat
}

/// A color comes back out of its number.
pub proof fn packed_colors_unpack(c: Rgba)
    ensures
        packed(c) < 0x1_0000_0000,
        packed(c) / 0x100_0000 == c.r,
        packed(c) / 0x1_0000 % 256 == c.g,
        packed(c) / 0x100 % 256 == c.b,
        packed(c) % 256 == c.a,
{
}

pub open spec fn num(n: Num) -> Slot {
    Slot::Num(n)
}

pub open spec fn whole(n: nat) -> Slot {
    Slot::Int(n as u64)
}

pub open spec fn xy(p: Point) -> Seq<Slot> {
    seq![num(p.x), num(p.y)]
}

pub open spec fn box_of(r: Rect) -> Seq<Slot> {
    seq![num(r.origin.x), num(r.origin.y), num(r.size.width), num(r.size.height)]
}

pub open spec fn points(v: Seq<Point>) -> Seq<Slot>
    decreases v.len(),
{
    if v.len() == 0 {
        Seq::empty()
    } else {
        xy(v[0]) + points(v.skip(1))
    }
}

pub open spec fn seg(s: PathSeg) -> Seq<Slot> {
    match s {
        PathSeg::Move(a) => seq![whole(0)] + xy(a),
        PathSeg::Line(a) => seq![whole(1)] + xy(a),
        PathSeg::Quad(c, a) => seq![whole(2)] + (xy(c) + xy(a)),
        PathSeg::Cubic(c1, c2, a) => seq![whole(3)] + (xy(c1) + xy(c2) + xy(a)),
        PathSeg::Close => seq![whole(4)] + Seq::empty(),
    }
}

pub open spec fn segs(v: Seq<PathSeg>) -> Seq<Slot>
    decreases v.len(),
{
    if v.len() == 0 {
        Seq::empty()
    } else {
        seg(v[0]) + segs(v.skip(1))
    }
}

pub open spec fn shape(s: Shape) -> Seq<Slot> {
    match s {
        Shape::Rect(r) => seq![whole(0)] + box_of(r),
        Shape::RoundedRect(r, rad) => seq![whole(1)] + box_of(r).push(num(rad)),
        Shape::Ellipse(r) => seq![whole(2)] + box_of(r),
        Shape::Arc { rect, start_deg, sweep_deg } => seq![whole(3)] + box_of(rect).push(
            num(start_deg),
        ).push(num(sweep_deg)),
        Shape::Line(a, b) => seq![whole(4)] + (xy(a) + xy(b)),
        Shape::Polygon(pts) => seq![whole(5), whole(pts@.len())] + points(pts@),
        Shape::Path { even_odd, segs: v } => seq![
            whole(6),
            whole(
                if even_odd {
                    1
                } else {
                    0
                },
            ),
            whole(v@.len()),
        ] + segs(v@),
    }
}

pub open spec fn stops(v: Seq<Stop>) -> Seq<Slot>
    decreases v.len(),
{
    if v.len() == 0 {
        Seq::empty()
    } else {
        seq![num(v[0].offset), whole(packed(v[0].color))] + stops(v.skip(1))
    }
}

/// A place in a box, given in units of the box.
pub open spec fn placed(unit: Point, b: Rect) -> Seq<Slot> {
    seq![
        Slot::Along { origin: b.origin.x, unit: unit.x, extent: b.size.width },
        Slot::Along { origin: b.origin.y, unit: unit.y, extent: b.size.height },
    ]
}

pub open spec fn paint(p: Paint, b: Rect) -> Seq<Slot> {
    match p {
        Paint::Solid(c) => seq![whole(0), whole(packed(c))],
        Paint::Linear { start, end, stops: v } => seq![whole(1)] + (placed(start, b) + placed(
            end,
            b,
        )) + seq![whole(v@.len())] + stops(v@),
        Paint::Radial { center, radius, stops: v } => seq![whole(2)] + (placed(center, b) + seq![
            Slot::Times { unit: radius, extent: b.size.width },
            Slot::Times { unit: radius, extent: b.size.height },
        ]) + seq![whole(v@.len())] + stops(v@),
    }
}

pub open spec fn cap_number(c: LineCap) -> nat {
    match c {
        LineCap::Butt => 0,
        LineCap::Round => 1,
        LineCap::Square => 2,
    }
}

pub open spec fn join_number(j: LineJoin) -> nat {
    match j {
        LineJoin::Miter => 0,
        LineJoin::Round => 1,
        LineJoin::Bevel => 2,
    }
}

pub open spec fn nums(v: Seq<Num>) -> Seq<Slot>
    decreases v.len(),
{
    if v.len() == 0 {
        Seq::empty()
    } else {
        seq![num(v[0])] + nums(v.skip(1))
    }
}

pub open spec fn stroke_style(s: StrokeStyle) -> Seq<Slot> {
    seq![
        num(s.width),
        whole(cap_number(s.cap)),
        whole(join_number(s.join)),
        num(s.miter_limit),
        num(s.dash_phase),
        whole(s.dash@.len()),
    ] + nums(s.dash@)
}

/// The bytes an operation adds to the text blob.
pub open spec fn blob(op: DrawOp) -> Seq<u8> {
    match op {
        DrawOp::Text { text, family, .. } => encode_utf8(text@) + encode_utf8(family@),
        _ => Seq::empty(),
    }
}

/// One operation, with `base` bytes of text in front of its own.
pub open spec fn draw_op(op: DrawOp, base: nat) -> Seq<Slot> {
    match op {
        DrawOp::Fill(o, p) => seq![whole(0)] + paint(p, o.bounds) + shape(o.shape),
        DrawOp::Stroke(o, p, s) => seq![whole(1)] + stroke_style(s) + paint(p, o.bounds) + shape(
            o.shape,
        ),
        DrawOp::Text { text, at, size, color, anchor, weight, italic, family } => seq![
            whole(2),
            whole(packed(color)),
            num(size),
            num(anchor),
            num(at.x),
            num(at.y),
            whole(base),
            whole(encode_utf8(text@).len()),
            whole(weight as nat),
            whole(
                if italic {
                    1
                } else {
                    0
                },
            ),
            whole(base + encode_utf8(text@).len()),
            whole(encode_utf8(family@).len()),
        ],
        DrawOp::Save => seq![whole(3)],
        DrawOp::Restore => seq![whole(4)],
        DrawOp::Concat { a, b, c, d, tx, ty } => seq![
            whole(5),
            num(a),
            num(b),
            num(c),
            num(d),
            num(tx),
            num(ty),
        ],
        DrawOp::Clip(o) => seq![whole(6)] + shape(o.shape),
        DrawOp::Stamp { outline, paint: p, at, stroke } => (match stroke {
            None => seq![whole(7), whole(0)],
            Some(s) => seq![whole(7), whole(1)] + stroke_style(s),
        }) + seq![whole(at@.len())] + points(at@) + paint(p, outline.bounds) + shape(
            outline.shape,
        ),
    }
}

/// The text of the first `n` operations.
pub open spec fn blobs(ops: Seq<DrawOp>, n: int) -> Seq<u8>
    decreases n,
{
    if n <= 0 {
        Seq::empty()
    } else {
        blobs(ops, n - 1) + blob(ops[n - 1])
    }
}

/// The stream of the first `n` operations.
pub open spec fn stream(ops: Seq<DrawOp>, n: int) -> Seq<Slot>
    decreases n,
{
    if n <= 0 {
        Seq::empty()
    } else {
        stream(ops, n - 1) + draw_op(ops[n - 1], blobs(ops, n - 1).len())
    }
}

// ---- code --------------------------------------------------------------------------------------

fn pack_color(c: Rgba) -> (n: u64)
    ensures
        n == packed(c),
{
    (c.r as u64) * 0x100_0000 + (c.g as u64) * 0x1_0000 + (c.b as u64) * 0x100 + (c.a as u64)
}

fn put(buf: &mut Vec<Slot>, s: Slot)
    ensures
        final(buf)@ == old(buf)@.push(s),
{
    buf.push(s);
}

fn put_int(buf: &mut Vec<Slot>, n: u64)
    ensures
        final(buf)@ == old(buf)@.push(whole(n as nat)),
{
    buf.push(Slot::Int(n));
}

fn put_xy(buf: &mut Vec<Slot>, p: Point)
    ensures
        final(buf)@ == old(buf)@ + xy(p),
{
    buf.push(Slot::Num(p.x));
    buf.push(Slot::Num(p.y));
    proof {
        assert(buf@ =~= old(buf)@ + xy(p));
    }
}

fn put_box(buf: &mut Vec<Slot>, r: Rect)
    ensures
        final(buf)@ == old(buf)@ + box_of(r),
{
    buf.push(Slot::Num(r.origin.x));
    buf.push(Slot::Num(r.origin.y));
    buf.push(Slot::Num(r.size.width));
    buf.push(Slot::Num(r.size.height));
    proof {
        assert(buf@ =~= old(buf)@ + box_of(r));
    }
}

fn put_points(buf: &mut Vec<Slot>, v: &Vec<Point>)
    ensures
        final(buf)@ == old(buf)@ + points(v@),
{
    let ghost start = buf@;
    let mut i: usize = 0;
    proof {
        assert(v@.skip(0) =~= v@);
    }
    while i < v.len()
        invariant
            i <= v.len(),
            buf@ + points(v@.skip(i as int)) == start + points(v@),
        decreases v.len() - i,
    {
        let ghost before = buf@;
        put_xy(buf, v[i]);
        proof {
            let rest = v@.skip(i as int);
            assert(rest.skip(1) =~= v@.skip(i + 1));
            assert(before + points(rest) =~= buf@ + points(v@.skip(i + 1)));
        }
        i = i + 1;
    }
    proof {
        assert(v@.skip(i as int) =~= Seq::<Point>::empty());
        assert(buf@ =~= buf@ + points(v@.skip(i as int)));
    }
}

fn put_seg(buf: &mut Vec<Slot>, s: PathSeg)
    ensures
        final(buf)@ == old(buf)@ + seg(s),
{
    match s {
        PathSeg::Move(a) => {
            put_int(buf, 0);
            put_xy(buf, a);
        },
        PathSeg::Line(a) => {
            put_int(buf, 1);
            put_xy(buf, a);
        },
        PathSeg::Quad(c, a) => {
            put_int(buf, 2);
            put_xy(buf, c);
            put_xy(buf, a);
        },
        PathSeg::Cubic(c1, c2, a) => {
            put_int(buf, 3);
            put_xy(buf, c1);
            put_xy(buf, c2);
            put_xy(buf, a);
        },
        PathSeg::Close => {
            put_int(buf, 4);
        },
    }
    proof {
        assert(buf@ =~= old(buf)@ + seg(s));
    }
}

fn put_segs(buf: &mut Vec<Slot>, v: &Vec<PathSeg>)
    ensures
        final(buf)@ == old(buf)@ + segs(v@),
{
    let ghost start = buf@;
    let mut i: usize = 0;
    proof {
        assert(v@.skip(0) =~= v@);
    }
    while i < v.len()
        invariant
            i <= v.len(),
            buf@ + segs(v@.skip(i as int)) == start + segs(v@),
        decreases v.len() - i,
    {
        let ghost before = buf@;
        put_seg(buf, v[i]);
        proof {
            let rest = v@.skip(i as int);
            assert(rest.skip(1) =~= v@.skip(i + 1));
            assert(before + segs(rest) =~= buf@ + segs(v@.skip(i + 1)));
        }
        i = i + 1;
    }
    proof {
        assert(v@.skip(i as int) =~= Seq::<PathSeg>::empty());
        assert(buf@ =~= buf@ + segs(v@.skip(i as int)));
    }
}

fn push_shape(buf: &mut Vec<Slot>, s: &Shape)
    ensures
        final(buf)@ == old(buf)@ + shape(*s),
{
    match s {
        Shape::Rect(r) => {
            put_int(buf, 0);
            put_box(buf, *r);
        },
        Shape::RoundedRect(r, rad) => {
            put_int(buf, 1);
            put_box(buf, *r);
            put(buf, Slot::Num(*rad));
        },
        Shape::Ellipse(r) => {
            put_int(buf, 2);
            put_box(buf, *r);
        },
        Shape::Arc { rect, start_deg, sweep_deg } => {
            put_int(buf, 3);
            put_box(buf, *rect);
            put(buf, Slot::Num(*start_deg));
            put(buf, Slot::Num(*sweep_deg));
        },
        Shape::Line(a, b) => {
            put_int(buf, 4);
            put_xy(buf, *a);
            put_xy(buf, *b);
        },
        Shape::Polygon(pts) => {
            put_int(buf, 5);
            put_int(buf, pts.len() as u64);
            put_points(buf, pts);
        },
        Shape::Path { even_odd, segs: v } => {
            put_int(buf, 6);
            put_int(
                buf,
                if *even_odd {
                    1
                } else {
                    0
                },
            );
            put_int(buf, v.len() as u64);
            put_segs(buf, v);
        },
    }
    proof {
        assert(buf@ =~= old(buf)@ + shape(*s));
    }
}

fn put_stops(buf: &mut Vec<Slot>, v: &Vec<Stop>)
    ensures
        final(buf)@ == old(buf)@ + stops(v@),
{
    let ghost start = buf@;
    let mut i: usize = 0;
    proof {
        assert(v@.skip(0) =~= v@);
    }
    while i < v.len()
        invariant
            i <= v.len(),
            buf@ + stops(v@.skip(i as int)) == start + stops(v@),
        decreases v.len() - i,
    {
        let ghost before = buf@;
        put(buf, Slot::Num(v[i].offset));
        put_int(buf, pack_color(v[i].color));
        proof {
            let rest = v@.skip(i as int);
            assert(rest.skip(1) =~= v@.skip(i + 1));
            assert(before + stops(rest) =~= buf@ + stops(v@.skip(i + 1)));
        }
        i = i + 1;
    }
    proof {
        assert(v@.skip(i as int) =~= Seq::<Stop>::empty());
        assert(buf@ =~= buf@ + stops(v@.skip(i as int)));
    }
}

fn put_placed(buf: &mut Vec<Slot>, unit: Point, b: Rect)
    ensures
        final(buf)@ == old(buf)@ + placed(unit, b),
{
    put(buf, Slot::Along { origin: b.origin.x, unit: unit.x, extent: b.size.width });
    put(buf, Slot::Along { origin: b.origin.y, unit: unit.y, extent: b.size.height });
    proof {
        assert(buf@ =~= old(buf)@ + placed(unit, b));
    }
}

fn push_paint(buf: &mut Vec<Slot>, p: &Paint, b: Rect)
    ensures
        final(buf)@ == old(buf)@ + paint(*p, b),
{
    match p {
        Paint::Solid(c) => {
            put_int(buf, 0);
            put_int(buf, pack_color(*c));
        },
        Paint::Linear { start, end, stops: v } => {
            put_int(buf, 1);
            put_placed(buf, *start, b);
            put_placed(buf, *end, b);
            put_int(buf, v.len() as u64);
            put_stops(buf, v);
        },
        Paint::Radial { center, radius, stops: v } => {
            put_int(buf, 2);
            put_placed(buf, *center, b);
            put(buf, Slot::Times { unit: *radius, extent: b.size.width });
            put(buf, Slot::Times { unit: *radius, extent: b.size.height });
            put_int(buf, v.len() as u64);
            put_stops(buf, v);
        },
    }
    proof {
        assert(buf@ =~= old(buf)@ + paint(*p, b));
    }
}

fn put_nums(buf: &mut Vec<Slot>, v: &Vec<Num>)
    ensures
        final(buf)@ == old(buf)@ + nums(v@),
{
    let ghost start = buf@;
    let mut i: usize = 0;
    proof {
        assert(v@.skip(0) =~= v@);
    }
    while i < v.len()
        invariant
            i <= v.len(),
            buf@ + nums(v@.skip(i as int)) == start + nums(v@),
        decreases v.len() - i,
    {
        let ghost before = buf@;
        put(buf, Slot::Num(v[i]));
        proof {
            let rest = v@.skip(i as int);
            assert(rest.skip(1) =~= v@.skip(i + 1));
            assert(before + nums(rest) =~= buf@ + nums(v@.skip(i + 1)));
        }
        i = i + 1;
    }
    proof {
        assert(v@.skip(i as int) =~= Seq::<Num>::empty());
        assert(buf@ =~= buf@ + nums(v@.skip(i as int)));
    }
}

fn push_stroke_style(buf: &mut Vec<Slot>, s: &StrokeStyle)
    ensures
        final(buf)@ == old(buf)@ + stroke_style(*s),
{
    put(buf, Slot::Num(s.width));
    put_int(
        buf,
        match s.cap {
            LineCap::Butt => 0,
            LineCap::Round => 1,
            LineCap::Square => 2,
        },
    );
    put_int(
        buf,
        match s.join {
            LineJoin::Miter => 0,
            LineJoin::Round => 1,
            LineJoin::Bevel => 2,
        },
    );
    put(buf, Slot::Num(s.miter_limit));
    put(buf, Slot::Num(s.dash_phase));
    put_int(buf, s.dash.len() as u64);
    put_nums(buf, &s.dash);
    proof {
        assert(buf@ =~= old(buf)@ + stroke_style(*s));
    }
}

fn put_bytes(strs: &mut Vec<u8>, text: &str) -> (len: usize)
    ensures
        final(strs)@ == old(strs)@ + encode_utf8(text@),
        len == encode_utf8(text@).len(),
{
    let bytes = text.as_bytes();
    let mut i: usize = 0;
    while i < bytes.len()
        invariant
            i <= bytes.len(),
            bytes@ == encode_utf8(text@),
            strs@ == old(strs)@ + encode_utf8(text@).take(i as int),
        decreases bytes.len() - i,
    {
        strs.push(bytes[i]);
        i = i + 1;
        proof {
            assert(strs@ =~= old(strs)@ + encode_utf8(text@).take(i as int));
        }
    }
    proof {
        assert(encode_utf8(text@).take(i as int) =~= encode_utf8(text@));
    }
    bytes.len()
}

fn push_op(buf: &mut Vec<Slot>, strs: &mut Vec<u8>, op: &DrawOp)
    ensures
        final(buf)@ == old(buf)@ + draw_op(*op, old(strs)@.len()),
        final(strs)@ == old(strs)@ + blob(*op),
{
    match op {
        DrawOp::Fill(o, p) => {
            put_int(buf, 0);
            push_paint(buf, p, o.bounds);
            push_shape(buf, &o.shape);
        },
        DrawOp::Stroke(o, p, s) => {
            put_int(buf, 1);
            push_stroke_style(buf, s);
            push_paint(buf, p, o.bounds);
            push_shape(buf, &o.shape);
        },
        DrawOp::Text { text, at, size, color, anchor, weight, italic, family } => {
            let off: usize = strs.len();
            let len: usize = put_bytes(strs, text.as_str());
            let fam_off: usize = strs.len();
            let fam_len: usize = put_bytes(strs, family.as_str());
            put_int(buf, 2);
            put_int(buf, pack_color(*color));
            put(buf, Slot::Num(*size));
            put(buf, Slot::Num(*anchor));
            put(buf, Slot::Num(at.x));
            put(buf, Slot::Num(at.y));
            put_int(buf, off as u64);
            put_int(buf, len as u64);
            put_int(buf, *weight as u64);
            put_int(
                buf,
                if *italic {
                    1
                } else {
                    0
                },
            );
            put_int(buf, fam_off as u64);
            put_int(buf, fam_len as u64);
        },
        DrawOp::Save => {
            put_int(buf, 3);
        },
        DrawOp::Restore => {
            put_int(buf, 4);
        },
        DrawOp::Concat { a, b, c, d, tx, ty } => {
            put_int(buf, 5);
            put(buf, Slot::Num(*a));
            put(buf, Slot::Num(*b));
            put(buf, Slot::Num(*c));
            put(buf, Slot::Num(*d));
            put(buf, Slot::Num(*tx));
            put(buf, Slot::Num(*ty));
        },
        DrawOp::Clip(o) => {
            put_int(buf, 6);
            push_shape(buf, &o.shape);
        },
        DrawOp::Stamp { outline, paint: p, at, stroke } => {
            put_int(buf, 7);
            match stroke {
                None => {
                    put_int(buf, 0);
                },
                Some(s) => {
                    put_int(buf, 1);
                    push_stroke_style(buf, s);
                },
            }
            put_int(buf, at.len() as u64);
            put_points(buf, at);
            push_paint(buf, p, outline.bounds);
            push_shape(buf, &outline.shape);
        },
    }
    proof {
        assert(buf@ =~= old(buf)@ + draw_op(*op, old(strs)@.len()));
        assert(strs@ =~= old(strs)@ + blob(*op));
    }
}

/// Encodes a display list: the stream, and the text beside it.
pub fn encode_ops(ops: &Vec<DrawOp>) -> (r: (Vec<Slot>, Vec<u8>))
    ensures
        r.0@ == stream(ops@, ops@.len() as int),
        r.1@ == blobs(ops@, ops@.len() as int),
        crate::dom::canvas_reader::ops_at(r.0@, 0, r.1@) == Seq::new(
            ops@.len(),
            |i: int| crate::dom::canvas_reader::op_seen(ops@[i]),
        ),
{
    let mut buf: Vec<Slot> = Vec::new();
    let mut strs: Vec<u8> = Vec::new();
    let mut i: usize = 0;
    while i < ops.len()
        invariant
            i <= ops.len(),
            buf@ == stream(ops@, i as int),
            strs@ == blobs(ops@, i as int),
        decreases ops.len() - i,
    {
        push_op(&mut buf, &mut strs, &ops[i]);
        i = i + 1;
    }
    proof {
        let n: usize = strs.len();
        assert(strs@.len() == n);
        crate::dom::canvas_reader::what_was_encoded_is_read_back(ops@);
    }
    (buf, strs)
}

} // verus!
