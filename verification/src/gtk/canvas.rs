//! A canvas's display list, drawn. The list comes as records of nine numbers with texts beside
//! them; some records draw, others say how the next one that draws is to look.
use crate::dom::canvas::{LineCap, LineJoin};
use crate::model::Point;
use crate::num::{Num, INFINITY};
use vstd::prelude::*;

verus! {

/// A record: its kind, seven numbers and a color.
#[derive(Clone, Copy, Debug, PartialEq, Eq, Structural)]
pub struct Record {
    pub k: Num,
    pub a: Num,
    pub b: Num,
    pub c: Num,
    pub d: Num,
    pub e: Num,
    pub f: Num,
    pub g: Num,
    pub col: Num,
}

/// A gradient for the next shape; its stops are in a text.
#[derive(Clone, Copy, Debug, PartialEq, Eq, Structural)]
pub struct Gradient {
    pub kind: u8,
    pub a: Num,
    pub b: Num,
    pub c: Num,
    pub d: Num,
    pub stops: usize,
}

/// A line's look for the next stroke; its dashes are in a text.
#[derive(Clone, Copy, Debug, PartialEq, Eq, Structural)]
pub struct Style {
    pub cap: LineCap,
    pub join: LineJoin,
    pub miter: Num,
    pub phase: Num,
    pub dashes: usize,
}

/// A face for the next text; its family is in a text, or is the default one.
#[derive(Clone, Copy, Debug, PartialEq, Eq, Structural)]
pub struct Face {
    pub weight: Num,
    pub italic: bool,
    pub family: Option<usize>,
}

/// The box a gradient resolves against.
#[derive(Clone, Copy, Debug, PartialEq, Eq, Structural)]
pub enum Bounds {
    Box(Num, Num, Num, Num),
    /// That of the points in a text.
    Polygon(usize),
    /// That of the path in a text.
    Path(usize),
}

/// A call on the drawing context. A number that stands for a text is its place in the list.
#[derive(Clone, Copy, Debug, PartialEq, Eq, Structural)]
pub enum DrawAct {
    Color(u32),
    Apply(Style),
    Save,
    Restore,
    Translate(Num, Num),
    Rect(Num, Num, Num, Num),
    /// A box with its corners rounded by no more than half its shorter side, and, where it is
    /// floored, by no less than nothing.
    RoundRect(Num, Num, Num, Num, Num, bool),
    Ellipse(Num, Num, Num, Num),
    /// An arc about the middle of a box, from a start over a sweep, in degrees.
    Arc(Num, Num, Num, Num, Num, Num),
    Segment(Num, Num, Num, Num),
    /// Traces the points in a text and closes the figure.
    Polygon(usize),
    /// Traces the path in a text.
    Trace(usize),
    LineWidth(Num),
    RoundCap,
    EvenOdd(bool),
    Source(Gradient, Bounds),
    Fill,
    Stroke,
    Clip,
    Transform(Num, Num, Num, Num, Num, Num),
    Text { text: usize, face: Face, size: Num, anchor: Num, x: Num, y: Num },
    /// Puts a line's look back to the plain one.
    Reset,
}

/// What the records so far have left for those to come.
#[derive(Clone, Copy, Debug, PartialEq, Eq, Structural)]
pub struct Pen {
    /// The next text.
    pub text: usize,
    pub gradient: Option<Gradient>,
    pub style: Option<Style>,
    pub face: Option<Face>,
}

/// The bit pattern of one half.
pub const HALF: u64 = 0x3fe0_0000_0000_0000;

/// Whether a number is above one half.
pub open spec fn above_half(n: Num) -> bool {
    HALF < n.bits <= INFINITY
}

/// Whether a kind strokes.
pub open spec fn strokes(k: int) -> bool {
    k == 1 || k == 4 || k == 5 || k == 6 || k == 12 || k == 13 || k == 16
}

/// Whether a kind draws nothing itself and says how the next record that draws is to look: a
/// gradient, a line's look or a face.
pub open spec fn prepares(k: int) -> bool {
    k == 14 || k == 18 || k == 19
}

/// The look that a record gives the next stroke.
pub open spec fn style_of(r: Record, text: usize) -> Style {
    Style {
        cap: if r.a.cut_signed() == 1 {
            LineCap::Round
        } else if r.a.cut_signed() == 2 {
            LineCap::Square
        } else {
            LineCap::Butt
        },
        join: if r.b.cut_signed() == 1 {
            LineJoin::Round
        } else if r.b.cut_signed() == 2 {
            LineJoin::Bevel
        } else {
            LineJoin::Miter
        },
        miter: r.c,
        phase: r.d,
        dashes: text,
    }
}

/// The gradient that a record gives the next shape.
pub open spec fn gradient_of(r: Record, text: usize) -> Gradient {
    Gradient { kind: r.f.cut(255) as u8, a: r.a, b: r.b, c: r.c, d: r.d, stops: text }
}

/// The default face.
pub open spec fn plain_face() -> Face {
    Face { weight: Num { bits: 0 }, italic: false, family: None }
}

/// Filling a figure, with the gradient at hand where there is one.
pub open spec fn filled(gradient: Option<Gradient>, bounds: Bounds) -> Seq<DrawAct> {
    match gradient {
        Some(g) => seq![DrawAct::Source(g, bounds), DrawAct::Fill],
        None => seq![DrawAct::Fill],
    }
}

/// Stroking a figure.
pub open spec fn stroked(width: Num) -> Seq<DrawAct> {
    seq![DrawAct::LineWidth(width), DrawAct::Stroke]
}

/// A box, a rounded box or an ellipse, filled or stroked.
pub open spec fn boxed(pen: Pen, r: Record, figure: DrawAct, fill: bool) -> (Pen, Seq<DrawAct>) {
    let one: Seq<DrawAct> = seq![figure];
    if fill {
        (
            Pen { gradient: None, ..pen },
            one + filled(pen.gradient, Bounds::Box(r.a, r.b, r.c, r.d)),
        )
    } else {
        (pen, one + stroked(r.g))
    }
}

/// The pen behind the text it read.
pub open spec fn read(pen: Pen) -> Pen {
    Pen { text: (pen.text + 1) as usize, ..pen }
}

/// The points in a text, filled or stroked; nothing where the text holds no point.
pub open spec fn polygon(pen: Pen, r: Record, fill: bool, drawn: bool) -> (Pen, Seq<DrawAct>) {
    let one: Seq<DrawAct> = seq![DrawAct::Polygon(pen.text)];
    if !drawn {
        (read(pen), Seq::empty())
    } else if fill {
        (
            Pen { gradient: None, ..read(pen) },
            one + filled(pen.gradient, Bounds::Polygon(pen.text)),
        )
    } else {
        (read(pen), one + stroked(r.g))
    }
}

/// The path in a text, filled by its rule or stroked.
pub open spec fn path(pen: Pen, r: Record, fill: bool) -> (Pen, Seq<DrawAct>) {
    let source: Seq<DrawAct> = match pen.gradient {
        Some(g) => seq![DrawAct::Source(g, Bounds::Path(pen.text))],
        None => Seq::empty(),
    };
    let traced: Seq<DrawAct> = seq![
        DrawAct::Trace(pen.text),
        if fill {
            DrawAct::EvenOdd(above_half(r.f))
        } else {
            DrawAct::LineWidth(r.g)
        },
    ];
    let done: Seq<DrawAct> = if fill {
        seq![DrawAct::Fill, DrawAct::EvenOdd(false)]
    } else {
        seq![DrawAct::Stroke]
    };
    (Pen { gradient: None, ..read(pen) }, traced + source + done)
}

/// Clipping to a figure.
pub open spec fn clipped(pen: Pen, r: Record, drawn: bool) -> (Pen, Seq<DrawAct>) {
    let done: Seq<DrawAct> = seq![DrawAct::Clip, DrawAct::EvenOdd(false)];
    let which = r.f.cut_signed();
    if which == 1 {
        let one: Seq<DrawAct> = seq![DrawAct::RoundRect(r.a, r.b, r.c, r.d, r.e, false)];
        (pen, one + done)
    } else if which == 2 {
        let one: Seq<DrawAct> = seq![DrawAct::Ellipse(r.a, r.b, r.c, r.d)];
        (pen, one + done)
    } else if which == 3 {
        let two: Seq<DrawAct> = seq![
            DrawAct::Trace(pen.text),
            DrawAct::EvenOdd(above_half(r.e)),
        ];
        (read(pen), two + done)
    } else if which == 4 {
        let one: Seq<DrawAct> = if drawn {
            seq![DrawAct::Polygon(pen.text)]
        } else {
            Seq::empty()
        };
        (read(pen), one + done)
    } else {
        let one: Seq<DrawAct> = seq![DrawAct::Rect(r.a, r.b, r.c, r.d)];
        (pen, one + done)
    }
}

/// Whether the next text holds a point.
pub open spec fn holds_point(drawn: Seq<bool>, text: usize) -> bool {
    text < drawn.len() && drawn[text as int]
}

/// What one record does, once.
pub open spec fn body(pen: Pen, r: Record, drawn: Seq<bool>) -> (Pen, Seq<DrawAct>) {
    let k = r.k.cut_signed();
    let point = holds_point(drawn, pen.text);
    if k == 0 || k == 1 {
        boxed(pen, r, DrawAct::Rect(r.a, r.b, r.c, r.d), k == 0)
    } else if k == 2 || k == 13 {
        boxed(pen, r, DrawAct::RoundRect(r.a, r.b, r.c, r.d, r.e, true), k == 2)
    } else if k == 3 || k == 4 {
        boxed(pen, r, DrawAct::Ellipse(r.a, r.b, r.c, r.d), k == 3)
    } else if k == 5 {
        (
            pen,
            seq![
                DrawAct::LineWidth(r.g),
                DrawAct::RoundCap,
                DrawAct::Arc(r.a, r.b, r.c, r.d, r.e, r.f),
                DrawAct::Stroke,
            ],
        )
    } else if k == 6 {
        (
            pen,
            seq![
                DrawAct::LineWidth(r.g),
                DrawAct::Segment(r.a, r.b, r.c, r.d),
                DrawAct::Stroke,
            ],
        )
    } else if k == 7 {
        (
            Pen { face: None, ..read(pen) },
            seq![
                DrawAct::Text {
                    text: pen.text,
                    face: match pen.face {
                        Some(f) => f,
                        None => plain_face(),
                    },
                    size: r.e,
                    anchor: r.f,
                    x: r.a,
                    y: r.b,
                },
            ],
        )
    } else if k == 8 {
        (pen, seq![DrawAct::Save])
    } else if k == 9 {
        (pen, seq![DrawAct::Restore])
    } else if k == 10 {
        (pen, seq![DrawAct::Transform(r.a, r.b, r.c, r.d, r.e, r.f)])
    } else if k == 11 || k == 12 {
        polygon(pen, r, k == 11, point)
    } else if k == 14 {
        (Pen { gradient: Some(gradient_of(r, pen.text)), ..read(pen) }, Seq::empty())
    } else if k == 15 || k == 16 {
        path(pen, r, k == 15)
    } else if k == 17 {
        clipped(pen, r, point)
    } else if k == 18 {
        (Pen { style: Some(style_of(r, pen.text)), ..read(pen) }, Seq::empty())
    } else if k == 19 {
        (
            Pen {
                face: Some(Face { weight: r.a, italic: above_half(r.b), family: Some(pen.text) }),
                ..read(pen)
            },
            Seq::empty(),
        )
    } else {
        (pen, Seq::empty())
    }
}

/// A record drawn once at a place: moved there, and back again.
pub open spec fn copy_at(pen: Pen, r: Record, drawn: Seq<bool>, at: Point) -> Seq<DrawAct> {
    let moved: Seq<DrawAct> = seq![DrawAct::Save, DrawAct::Translate(at.x, at.y)];
    (moved + body(pen, r, drawn).1).push(DrawAct::Restore)
}

/// A record drawn at the first `n` of some places, each time by the same pen: every copy reads
/// the same text and is shaded alike, and what the record uses up it uses up once.
pub open spec fn stamped(pen: Pen, r: Record, drawn: Seq<bool>, at: Seq<Point>, n: int) -> (
    Pen,
    Seq<DrawAct>,
)
    decreases n,
{
    if n <= 0 {
        (pen, Seq::empty())
    } else {
        (
            body(pen, r, drawn).0,
            stamped(pen, r, drawn, at, n - 1).1 + copy_at(pen, r, drawn, at[n - 1]),
        )
    }
}

/// What the records so far have left, places to stamp at among them: those named, and how many
/// there are to be.
pub struct Board {
    pub pen: Pen,
    pub at: Vec<Point>,
    pub places: usize,
}

#[verifier::ext_equal]
pub ghost struct BoardView {
    pub pen: Pen,
    pub at: Seq<Point>,
    pub places: usize,
}

impl View for Board {
    type V = BoardView;

    open spec fn view(&self) -> BoardView {
        BoardView { pen: self.pen, at: self.at@, places: self.places }
    }
}

/// The places after one more, as long as there are to be more.
pub open spec fn placed(at: Seq<Point>, places: usize, x: Num, y: Num) -> Seq<Point> {
    if at.len() < places {
        at.push(Point { x, y })
    } else {
        at
    }
}

/// The places after a record of four.
pub open spec fn four_placed(at: Seq<Point>, places: usize, r: Record) -> Seq<Point> {
    placed(
        placed(placed(placed(at, places, r.a, r.b), places, r.c, r.d), places, r.e, r.f),
        places,
        r.g,
        r.col,
    )
}

/// The pen as a record finds it: a stroke uses up the look that was given for it, and a face is
/// lost on anything but a text.
pub open spec fn taken_up(pen: Pen, k: int) -> Pen {
    Pen {
        style: if strokes(k) {
            None
        } else {
            pen.style
        },
        face: if k != 19 && k != 7 {
            None
        } else {
            pen.face
        },
        ..pen
    }
}

/// The calls before a record's own: its color, and the look of its stroke where one was given.
pub open spec fn opening(pen: Pen, r: Record) -> Seq<DrawAct> {
    let color: Seq<DrawAct> = seq![DrawAct::Color(r.col.cut(u32::MAX as nat) as u32)];
    match pen.style {
        Some(s) => if strokes(r.k.cut_signed()) {
            color.push(DrawAct::Apply(s))
        } else {
            color
        },
        None => color,
    }
}

/// One record: what is left behind, and the calls. The places to stamp at wait for a record that
/// draws.
pub open spec fn record(v: BoardView, r: Record, drawn: Seq<bool>) -> (BoardView, Seq<DrawAct>) {
    let k = r.k.cut_signed();
    let pen = taken_up(v.pen, k);
    let open = opening(v.pen, r);
    if k == 20 {
        (BoardView { pen, at: Seq::empty(), places: r.a.cut(usize::MAX as nat) as usize }, open)
    } else if k == 21 {
        (BoardView { pen, at: four_placed(v.at, v.places, r), places: v.places }, open)
    } else if prepares(k) {
        (BoardView { pen: body(pen, r, drawn).0, ..v }, open)
    } else {
        let (after, drawing) = if v.at.len() == 0 {
            body(pen, r, drawn)
        } else {
            stamped(pen, r, drawn, v.at, v.at.len() as int)
        };
        let close: Seq<DrawAct> = if strokes(k) {
            seq![DrawAct::Reset]
        } else {
            Seq::empty()
        };
        (BoardView { pen: after, at: Seq::empty(), places: v.places }, open + drawing + close)
    }
}

/// The `i`-th record.
pub open spec fn record_at(nums: Seq<Num>, i: int) -> Record {
    Record {
        k: nums[9 * i],
        a: nums[9 * i + 1],
        b: nums[9 * i + 2],
        c: nums[9 * i + 3],
        d: nums[9 * i + 4],
        e: nums[9 * i + 5],
        f: nums[9 * i + 6],
        g: nums[9 * i + 7],
        col: nums[9 * i + 8],
    }
}

/// Nothing drawn yet.
pub open spec fn clean() -> BoardView {
    BoardView {
        pen: Pen { text: 0, gradient: None, style: None, face: None },
        at: Seq::empty(),
        places: 0,
    }
}

/// The first `n` records: what is left behind, and the calls.
pub open spec fn records(nums: Seq<Num>, drawn: Seq<bool>, n: int) -> (BoardView, Seq<DrawAct>)
    decreases n,
{
    if n <= 0 {
        (clean(), Seq::empty())
    } else {
        let (v, done) = records(nums, drawn, n - 1);
        let (w, more) = record(v, record_at(nums, n - 1), drawn);
        (w, done + more)
    }
}

// ---- laws --------------------------------------------------------------------------------------

/// A line's look never leaks: whatever strokes ends by putting the plain look back, and uses up
/// the look it was given.
pub proof fn a_look_does_not_leak(v: BoardView, r: Record, drawn: Seq<bool>)
    requires
        strokes(r.k.cut_signed()),
    ensures
        record(v, r, drawn).1.len() > 0,
        record(v, r, drawn).1.last() == DrawAct::Reset,
        record(v, r, drawn).0.pen.style is None,
{
}

/// A face is for the next text and for nothing else.
pub proof fn a_face_is_for_the_next_text(v: BoardView, r: Record, drawn: Seq<bool>)
    requires
        r.k.cut_signed() != 19,
    ensures
        record(v, r, drawn).0.pen.face is None,
{
}

/// A gradient is for one figure: whatever fills uses it up, at however many places it is drawn.
pub proof fn a_gradient_is_for_one_figure(v: BoardView, r: Record, drawn: Seq<bool>)
    requires
        r.k.cut_signed() == 0 || r.k.cut_signed() == 2 || r.k.cut_signed() == 3
            || r.k.cut_signed() == 15 || (r.k.cut_signed() == 11 && holds_point(
            drawn,
            v.pen.text,
        )),
    ensures
        record(v, r, drawn).0.pen.gradient is None,
{
}

/// A shape that is stamped reads its text once, however many places it is stamped at.
pub proof fn a_stamp_reads_its_text_once(
    pen: Pen,
    r: Record,
    drawn: Seq<bool>,
    at: Seq<Point>,
    n: int,
)
    requires
        n > 0,
    ensures
        stamped(pen, r, drawn, at, n).0.text == body(pen, r, drawn).0.text,
{
}

/// Every copy of a stamped shape is drawn alike: moved to its place, drawn as the shape itself
/// would be, gradient and all, and moved back.
pub proof fn copies_are_alike(pen: Pen, r: Record, drawn: Seq<bool>, at: Seq<Point>, n: int, k: int)
    requires
        0 <= k < n <= at.len(),
    ensures
        ({
            let calls = stamped(pen, r, drawn, at, n).1;
            let one = body(pen, r, drawn).1;
            let size = one.len() + 3;
            &&& calls.len() == n * size
            &&& 0 <= k * size <= (k + 1) * size <= n * size
            &&& calls.subrange(k * size, (k + 1) * size) == seq![
                DrawAct::Save,
                DrawAct::Translate(at[k].x, at[k].y),
            ] + one + seq![DrawAct::Restore]
        }),
    decreases n,
{
    let calls = stamped(pen, r, drawn, at, n).1;
    let one = body(pen, r, drawn).1;
    let size = (one.len() + 3) as int;
    let before = stamped(pen, r, drawn, at, n - 1).1;
    stamps_take_room(pen, r, drawn, at, n - 1);
    assert(n * size == (n - 1) * size + size) by (nonlinear_arith);
    assert((k + 1) * size == k * size + size) by (nonlinear_arith);
    assert(0 <= k * size) by (nonlinear_arith)
        requires
            0 <= k,
            0 <= size,
    ;
    if k < n - 1 {
        copies_are_alike(pen, r, drawn, at, n - 1, k);
        assert(calls.subrange(k * size, (k + 1) * size) =~= before.subrange(
            k * size,
            (k + 1) * size,
        ));
    } else {
        assert(calls.subrange(k * size, (k + 1) * size) =~= copy_at(pen, r, drawn, at[k]));
        assert(copy_at(pen, r, drawn, at[k]) =~= seq![
            DrawAct::Save,
            DrawAct::Translate(at[k].x, at[k].y),
        ] + one + seq![DrawAct::Restore]);
    }
}

proof fn stamps_take_room(pen: Pen, r: Record, drawn: Seq<bool>, at: Seq<Point>, n: int)
    requires
        0 <= n,
    ensures
        stamped(pen, r, drawn, at, n).1.len() == n * (body(pen, r, drawn).1.len() + 3),
    decreases n,
{
    let size = (body(pen, r, drawn).1.len() + 3) as int;
    if n > 0 {
        stamps_take_room(pen, r, drawn, at, n - 1);
        assert(n * size == (n - 1) * size + size) by (nonlinear_arith);
    } else {
        assert(n * size == 0) by (nonlinear_arith)
            requires
                n == 0,
        ;
    }
}

/// What is said of a look between the places and the shape costs the shape none of its places.
pub proof fn looks_keep_the_places(v: BoardView, r: Record, drawn: Seq<bool>)
    requires
        prepares(r.k.cut_signed()),
    ensures
        record(v, r, drawn).0.at == v.at,
        record(v, r, drawn).0.places == v.places,
{
}

/// No more places are stamped at than the count says.
pub proof fn no_place_beyond_the_count(at: Seq<Point>, places: usize, r: Record)
    requires
        at.len() <= places,
    ensures
        four_placed(at, places, r).len() <= places,
{
}

// ---- code --------------------------------------------------------------------------------------

fn over_half(n: Num) -> (b: bool)
    ensures
        b == above_half(n),
{
    HALF < n.bits && n.bits <= INFINITY
}

fn to_byte(n: Num) -> (b: u8)
    ensures
        b == n.cut(255),
{
    let w: u64 = n.to_u64();
    if w > 255 {
        255
    } else {
        w as u8
    }
}

fn to_count(n: Num) -> (c: usize)
    ensures
        c == n.cut(usize::MAX as nat),
{
    let w: u64 = n.to_u64();
    if w > usize::MAX as u64 {
        usize::MAX
    } else {
        w as usize
    }
}

fn is_stroke(k: i64) -> (b: bool)
    ensures
        b == strokes(k as int),
{
    k == 1 || k == 4 || k == 5 || k == 6 || k == 12 || k == 13 || k == 16
}

fn read_style(r: &Record, text: usize) -> (s: Style)
    ensures
        s == style_of(*r, text),
{
    let cap: i64 = r.a.to_i64();
    let join: i64 = r.b.to_i64();
    Style {
        cap: if cap == 1 {
            LineCap::Round
        } else if cap == 2 {
            LineCap::Square
        } else {
            LineCap::Butt
        },
        join: if join == 1 {
            LineJoin::Round
        } else if join == 2 {
            LineJoin::Bevel
        } else {
            LineJoin::Miter
        },
        miter: r.c,
        phase: r.d,
        dashes: text,
    }
}

fn put_filled(out: &mut Vec<DrawAct>, gradient: Option<Gradient>, bounds: Bounds)
    ensures
        final(out)@ == old(out)@ + filled(gradient, bounds),
{
    match gradient {
        Some(g) => out.push(DrawAct::Source(g, bounds)),
        None => {},
    }
    out.push(DrawAct::Fill);
    proof {
        assert(out@ =~= old(out)@ + filled(gradient, bounds));
    }
}

fn put_stroked(out: &mut Vec<DrawAct>, width: Num)
    ensures
        final(out)@ == old(out)@ + stroked(width),
{
    out.push(DrawAct::LineWidth(width));
    out.push(DrawAct::Stroke);
    proof {
        assert(out@ =~= old(out)@ + stroked(width));
    }
}

fn draw_boxed(out: &mut Vec<DrawAct>, pen: Pen, r: &Record, figure: DrawAct, fill: bool) -> (p: Pen)
    ensures
        final(out)@ == old(out)@ + boxed(pen, *r, figure, fill).1,
        p == boxed(pen, *r, figure, fill).0,
{
    out.push(figure);
    let p = if fill {
        put_filled(out, pen.gradient, Bounds::Box(r.a, r.b, r.c, r.d));
        Pen { gradient: None, ..pen }
    } else {
        put_stroked(out, r.g);
        pen
    };
    proof {
        assert(out@ =~= old(out)@ + boxed(pen, *r, figure, fill).1);
    }
    p
}

fn behind_text(pen: Pen) -> (p: Pen)
    requires
        pen.text < usize::MAX,
    ensures
        p == read(pen),
{
    Pen { text: pen.text + 1, ..pen }
}

fn draw_polygon(out: &mut Vec<DrawAct>, pen: Pen, r: &Record, fill: bool, drawn: bool) -> (p: Pen)
    requires
        pen.text < usize::MAX,
    ensures
        final(out)@ == old(out)@ + polygon(pen, *r, fill, drawn).1,
        p == polygon(pen, *r, fill, drawn).0,
{
    let mut p = behind_text(pen);
    if drawn {
        out.push(DrawAct::Polygon(pen.text));
        if fill {
            put_filled(out, pen.gradient, Bounds::Polygon(pen.text));
            p = Pen { gradient: None, ..p };
        } else {
            put_stroked(out, r.g);
        }
    }
    proof {
        assert(out@ =~= old(out)@ + polygon(pen, *r, fill, drawn).1);
    }
    p
}

fn draw_path(out: &mut Vec<DrawAct>, pen: Pen, r: &Record, fill: bool) -> (p: Pen)
    requires
        pen.text < usize::MAX,
    ensures
        final(out)@ == old(out)@ + path(pen, *r, fill).1,
        p == path(pen, *r, fill).0,
{
    out.push(DrawAct::Trace(pen.text));
    if fill {
        out.push(DrawAct::EvenOdd(over_half(r.f)));
    } else {
        out.push(DrawAct::LineWidth(r.g));
    }
    match pen.gradient {
        Some(g) => out.push(DrawAct::Source(g, Bounds::Path(pen.text))),
        None => {},
    }
    if fill {
        out.push(DrawAct::Fill);
        out.push(DrawAct::EvenOdd(false));
    } else {
        out.push(DrawAct::Stroke);
    }
    proof {
        assert(out@ =~= old(out)@ + path(pen, *r, fill).1);
    }
    Pen { gradient: None, ..behind_text(pen) }
}

fn draw_clip(out: &mut Vec<DrawAct>, pen: Pen, r: &Record, drawn: bool) -> (p: Pen)
    requires
        pen.text < usize::MAX,
    ensures
        final(out)@ == old(out)@ + clipped(pen, *r, drawn).1,
        p == clipped(pen, *r, drawn).0,
{
    let which: i64 = r.f.to_i64();
    let mut p = pen;
    if which == 1 {
        out.push(DrawAct::RoundRect(r.a, r.b, r.c, r.d, r.e, false));
    } else if which == 2 {
        out.push(DrawAct::Ellipse(r.a, r.b, r.c, r.d));
    } else if which == 3 {
        out.push(DrawAct::Trace(pen.text));
        out.push(DrawAct::EvenOdd(over_half(r.e)));
        p = behind_text(pen);
    } else if which == 4 {
        if drawn {
            out.push(DrawAct::Polygon(pen.text));
        }
        p = behind_text(pen);
    } else {
        out.push(DrawAct::Rect(r.a, r.b, r.c, r.d));
    }
    out.push(DrawAct::Clip);
    out.push(DrawAct::EvenOdd(false));
    proof {
        assert(out@ =~= old(out)@ + clipped(pen, *r, drawn).1);
    }
    p
}

fn draw_body(out: &mut Vec<DrawAct>, pen: Pen, r: &Record, drawn: &Vec<bool>) -> (p: Pen)
    requires
        pen.text < usize::MAX,
    ensures
        final(out)@ == old(out)@ + body(pen, *r, drawn@).1,
        p == body(pen, *r, drawn@).0,
{
    let k: i64 = r.k.to_i64();
    let point: bool = pen.text < drawn.len() && drawn[pen.text];
    if k == 0 || k == 1 {
        return draw_boxed(out, pen, r, DrawAct::Rect(r.a, r.b, r.c, r.d), k == 0);
    }
    if k == 2 || k == 13 {
        let figure = DrawAct::RoundRect(r.a, r.b, r.c, r.d, r.e, true);
        return draw_boxed(out, pen, r, figure, k == 2);
    }
    if k == 3 || k == 4 {
        return draw_boxed(out, pen, r, DrawAct::Ellipse(r.a, r.b, r.c, r.d), k == 3);
    }
    if k == 11 || k == 12 {
        return draw_polygon(out, pen, r, k == 11, point);
    }
    if k == 15 || k == 16 {
        return draw_path(out, pen, r, k == 15);
    }
    if k == 17 {
        return draw_clip(out, pen, r, point);
    }
    let mut p = pen;
    if k == 5 {
        out.push(DrawAct::LineWidth(r.g));
        out.push(DrawAct::RoundCap);
        out.push(DrawAct::Arc(r.a, r.b, r.c, r.d, r.e, r.f));
        out.push(DrawAct::Stroke);
    } else if k == 6 {
        out.push(DrawAct::LineWidth(r.g));
        out.push(DrawAct::Segment(r.a, r.b, r.c, r.d));
        out.push(DrawAct::Stroke);
    } else if k == 7 {
        let face = match pen.face {
            Some(f) => f,
            None => Face { weight: Num { bits: 0 }, italic: false, family: None },
        };
        out.push(
            DrawAct::Text { text: pen.text, face, size: r.e, anchor: r.f, x: r.a, y: r.b },
        );
        p = Pen { face: None, ..behind_text(pen) };
    } else if k == 8 {
        out.push(DrawAct::Save);
    } else if k == 9 {
        out.push(DrawAct::Restore);
    } else if k == 10 {
        out.push(DrawAct::Transform(r.a, r.b, r.c, r.d, r.e, r.f));
    } else if k == 14 {
        let g = Gradient {
            kind: to_byte(r.f),
            a: r.a,
            b: r.b,
            c: r.c,
            d: r.d,
            stops: pen.text,
        };
        p = Pen { gradient: Some(g), ..behind_text(pen) };
    } else if k == 18 {
        p = Pen { style: Some(read_style(r, pen.text)), ..behind_text(pen) };
    } else if k == 19 {
        let face = Face { weight: r.a, italic: over_half(r.b), family: Some(pen.text) };
        p = Pen { face: Some(face), ..behind_text(pen) };
    }
    proof {
        assert(out@ =~= old(out)@ + body(pen, *r, drawn@).1);
    }
    p
}

proof fn body_reads_at_most_one(pen: Pen, r: Record, drawn: Seq<bool>)
    requires
        pen.text < usize::MAX,
    ensures
        body(pen, r, drawn).0.text <= pen.text + 1,
{
}

fn draw_stamped(out: &mut Vec<DrawAct>, pen: Pen, r: &Record, drawn: &Vec<bool>, at: &Vec<Point>) -> (p:
    Pen)
    requires
        pen.text < usize::MAX,
    ensures
        final(out)@ == old(out)@ + stamped(pen, *r, drawn@, at@, at@.len() as int).1,
        p == stamped(pen, *r, drawn@, at@, at@.len() as int).0,
{
    let ghost start = out@;
    let mut p = pen;
    let mut i: usize = 0;
    proof {
        assert(start + Seq::<DrawAct>::empty() =~= start);
    }
    while i < at.len()
        invariant
            i <= at.len(),
            pen.text < usize::MAX,
            p == stamped(pen, *r, drawn@, at@, i as int).0,
            out@ == start + stamped(pen, *r, drawn@, at@, i as int).1,
        decreases at.len() - i,
    {
        let ghost done = stamped(pen, *r, drawn@, at@, i as int).1;
        out.push(DrawAct::Save);
        out.push(DrawAct::Translate(at[i].x, at[i].y));
        p = draw_body(out, pen, r, drawn);
        out.push(DrawAct::Restore);
        proof {
            assert(out@ =~= start + (done + copy_at(pen, *r, drawn@, at@[i as int])));
        }
        i = i + 1;
    }
    p
}

fn put_place(at: &mut Vec<Point>, places: usize, x: Num, y: Num)
    ensures
        final(at)@ == placed(old(at)@, places, x, y),
{
    if at.len() < places {
        at.push(Point { x, y });
    }
}

fn draw_record(out: &mut Vec<DrawAct>, board: &mut Board, r: &Record, drawn: &Vec<bool>)
    requires
        old(board).pen.text < usize::MAX,
    ensures
        final(out)@ == old(out)@ + record(old(board)@, *r, drawn@).1,
        final(board)@ == record(old(board)@, *r, drawn@).0,
        final(board).pen.text <= old(board).pen.text + 1,
{
    let ghost v = board@;
    let ghost start = out@;
    let k: i64 = r.k.to_i64();
    let stroke = is_stroke(k);
    out.push(DrawAct::Color(r.col.to_u32()));
    if stroke {
        match board.pen.style {
            Some(s) => out.push(DrawAct::Apply(s)),
            None => {},
        }
        board.pen.style = None;
    }
    if k != 19 && k != 7 {
        board.pen.face = None;
    }
    let pen = board.pen;
    let ghost open = opening(v.pen, *r);
    proof {
        assert(out@ =~= start + open);
        assert(pen == taken_up(v.pen, k as int));
    }
    if k == 20 {
        board.at = Vec::new();
        board.places = to_count(r.a);
        return;
    }
    if k == 21 {
        let places = board.places;
        put_place(&mut board.at, places, r.a, r.b);
        put_place(&mut board.at, places, r.c, r.d);
        put_place(&mut board.at, places, r.e, r.f);
        put_place(&mut board.at, places, r.g, r.col);
        return;
    }
    if k == 14 || k == 18 || k == 19 {
        board.pen = draw_body(out, pen, r, drawn);
        proof {
            body_reads_at_most_one(pen, *r, drawn@);
            assert(out@ =~= start + open);
        }
        return;
    }
    let ghost drawing = if v.at.len() == 0 {
        body(pen, *r, drawn@).1
    } else {
        stamped(pen, *r, drawn@, v.at, v.at.len() as int).1
    };
    proof {
        body_reads_at_most_one(pen, *r, drawn@);
        if v.at.len() > 0 {
            a_stamp_reads_its_text_once(pen, *r, drawn@, v.at, v.at.len() as int);
        }
    }
    let after = if board.at.len() == 0 {
        draw_body(out, pen, r, drawn)
    } else {
        draw_stamped(out, pen, r, drawn, &board.at)
    };
    board.pen = after;
    board.at = Vec::new();
    if stroke {
        out.push(DrawAct::Reset);
    }
    proof {
        let close: Seq<DrawAct> = if strokes(k as int) {
            seq![DrawAct::Reset]
        } else {
            Seq::empty()
        };
        assert(out@ =~= start + (open + drawing + close));
    }
}

/// Draws a display list. `drawn` says of each text whether it holds a point.
pub fn cairo_draw(nums: &Vec<Num>, drawn: &Vec<bool>) -> (out: Vec<DrawAct>)
    requires
        nums@.len() % 9 == 0,
    ensures
        out@ == records(nums@, drawn@, (nums@.len() / 9) as int).1,
{
    let mut out: Vec<DrawAct> = Vec::new();
    let mut board = Board {
        pen: Pen { text: 0, gradient: None, style: None, face: None },
        at: Vec::new(),
        places: 0,
    };
    let n: usize = nums.len() / 9;
    let mut i: usize = 0;
    proof {
        assert(board@ =~= clean());
    }
    while i < n
        invariant
            i <= n,
            n == nums.len() / 9,
            nums@.len() % 9 == 0,
            board.pen.text <= i,
            board@ == records(nums@, drawn@, i as int).0,
            out@ == records(nums@, drawn@, i as int).1,
        decreases n - i,
    {
        let p: usize = 9 * i;
        let r = Record {
            k: nums[p],
            a: nums[p + 1],
            b: nums[p + 2],
            c: nums[p + 3],
            d: nums[p + 4],
            e: nums[p + 5],
            f: nums[p + 6],
            g: nums[p + 7],
            col: nums[p + 8],
        };
        draw_record(&mut out, &mut board, &r, drawn);
        i = i + 1;
    }
    out
}

} // verus!
