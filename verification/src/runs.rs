//! Styled runs over one label: which stretches of the text stand alone, which take a run's
//! styling, and that the text itself survives whatever the runs say.
use crate::model::TextRun;
use vstd::prelude::*;
use vstd::utf8::{decode_utf8, encode_utf8, is_char_boundary, valid_utf8};

verus! {

/// The bytes `start..end` of a label's text, styled by the run at `run`, or plain.
#[derive(Clone, Copy, Debug, PartialEq, Eq, Structural)]
pub struct Segment {
    pub start: usize,
    pub end: usize,
    pub run: Option<usize>,
}

/// Whether `start..end` addresses a piece of the text: in order, inside it, and cutting no
/// character in two.
pub open spec fn addressed(text: Seq<char>, start: int, end: int) -> bool {
    let bytes = encode_utf8(text);
    0 <= start <= end <= bytes.len() && is_char_boundary(bytes, start) && is_char_boundary(
        bytes,
        end,
    )
}

/// The piece of the text at the bytes `start..end`.
pub open spec fn piece(text: Seq<char>, start: int, end: int) -> Seq<char> {
    decode_utf8(encode_utf8(text).subrange(start, end))
}

/// The plain stretch in front of a run, where there is one.
pub open spec fn gap(text: Seq<char>, at: int, start: int) -> Seq<Segment> {
    if start > at && addressed(text, at, start) {
        seq![Segment { start: at as usize, end: start as usize, run: None }]
    } else {
        Seq::empty()
    }
}

/// What is left of the text behind the last run.
pub open spec fn tail(text: Seq<char>, at: int) -> Seq<Segment> {
    let len = encode_utf8(text).len() as int;
    if addressed(text, at, len) {
        seq![Segment { start: at as usize, end: len as usize, run: None }]
    } else {
        Seq::empty()
    }
}

/// The stretches of the text from byte `at` on, with the runs from the `i`-th on: a run that
/// does not address the text is passed over, any other one takes its bytes, with the plain
/// stretch before it.
pub open spec fn stretches(text: Seq<char>, runs: Seq<TextRun>, i: int, at: int) -> Seq<Segment>
    decreases runs.len() - i,
{
    if i < 0 || i >= runs.len() {
        tail(text, at)
    } else if !addressed(text, runs[i].start as int, runs[i].end as int) {
        stretches(text, runs, i + 1, at)
    } else {
        gap(text, at, runs[i].start as int) + seq![
            Segment { start: runs[i].start, end: runs[i].end, run: Some(i as usize) },
        ] + stretches(text, runs, i + 1, runs[i].end as int)
    }
}

/// The texts of the stretches, one after the other.
pub open spec fn joined(text: Seq<char>, segs: Seq<Segment>) -> Seq<char>
    decreases segs.len(),
{
    if segs.len() == 0 {
        Seq::empty()
    } else {
        joined(text, segs.drop_last()) + piece(
            text,
            segs.last().start as int,
            segs.last().end as int,
        )
    }
}

/// Runs that come in the text's order and do not overlap.
pub open spec fn in_order(text: Seq<char>, runs: Seq<TextRun>) -> bool {
    forall|i: int, j: int|
        0 <= i < j < runs.len() && #[trigger] addressed(
            text,
            runs[i].start as int,
            runs[i].end as int,
        ) && #[trigger] addressed(text, runs[j].start as int, runs[j].end as int) ==> runs[i].end
            <= runs[j].start
}

proof fn boundary_inside(bytes: Seq<u8>, a: int, b: int, c: int)
    requires
        valid_utf8(bytes),
        0 <= a <= b <= c <= bytes.len(),
        is_char_boundary(bytes, a),
        is_char_boundary(bytes, b),
        is_char_boundary(bytes, c),
    ensures
        valid_utf8(bytes.subrange(a, c)),
        is_char_boundary(bytes.subrange(a, c), b - a),
{
    let front = bytes.subrange(0, c);
    vstd::utf8::valid_utf8_split(bytes, c);
    assert(is_char_boundary(front, a)) by {
        if a == c {
            vstd::utf8::is_char_boundary_start_end_of_seq(front);
        } else {
            vstd::utf8::is_char_boundary_iff_not_is_continuation_byte(bytes, a);
            vstd::utf8::is_char_boundary_iff_not_is_continuation_byte(front, a);
        }
    }
    vstd::utf8::valid_utf8_split(front, a);
    let mid = front.subrange(a, front.len() as int);
    assert(mid =~= bytes.subrange(a, c));
    if b == c {
        vstd::utf8::is_char_boundary_start_end_of_seq(mid);
    } else {
        vstd::utf8::is_char_boundary_iff_not_is_continuation_byte(bytes, b);
        vstd::utf8::is_char_boundary_iff_not_is_continuation_byte(mid, b - a);
    }
}

/// Two neighbouring pieces make the piece that spans both.
pub proof fn pieces_join(text: Seq<char>, a: int, b: int, c: int)
    requires
        addressed(text, a, b),
        addressed(text, b, c),
    ensures
        piece(text, a, b) + piece(text, b, c) == piece(text, a, c),
{
    let bytes = encode_utf8(text);
    vstd::utf8::encode_utf8_valid_utf8(text);
    boundary_inside(bytes, a, b, c);
    let mid = bytes.subrange(a, c);
    vstd::utf8::decode_utf8_split(mid, b - a);
    assert(mid.subrange(0, b - a) =~= bytes.subrange(a, b));
    assert(mid.subrange(b - a, mid.len() as int) =~= bytes.subrange(b, c));
}

proof fn joined_front(text: Seq<char>, seg: Segment, segs: Seq<Segment>)
    ensures
        joined(text, seq![seg] + segs) == piece(text, seg.start as int, seg.end as int) + joined(
            text,
            segs,
        ),
    decreases segs.len(),
{
    let all = seq![seg] + segs;
    if segs.len() == 0 {
        assert(all.drop_last() =~= Seq::<Segment>::empty());
        assert(joined(text, all.drop_last()) == Seq::<char>::empty());
        assert(joined(text, all) =~= piece(text, seg.start as int, seg.end as int) + joined(
            text,
            segs,
        ));
    } else {
        joined_front(text, seg, segs.drop_last());
        assert(all.drop_last() =~= seq![seg] + segs.drop_last());
        assert(joined(text, all) =~= piece(text, seg.start as int, seg.end as int) + joined(
            text,
            segs,
        ));
    }
}

proof fn stretches_keep_rest(text: Seq<char>, runs: Seq<TextRun>, i: int, at: int)
    requires
        0 <= i <= runs.len(),
        in_order(text, runs),
        encode_utf8(text).len() <= usize::MAX,
        addressed(text, at, encode_utf8(text).len() as int),
        forall|j: int|
            i <= j < runs.len() && #[trigger] addressed(
                text,
                runs[j].start as int,
                runs[j].end as int,
            ) ==> at <= runs[j].start,
    ensures
        joined(text, stretches(text, runs, i, at)) == piece(
            text,
            at,
            encode_utf8(text).len() as int,
        ),
    decreases runs.len() - i,
{
    let bytes = encode_utf8(text);
    let len = bytes.len() as int;
    vstd::utf8::encode_utf8_valid_utf8(text);
    vstd::utf8::is_char_boundary_start_end_of_seq(bytes);
    if i >= runs.len() {
        let seg = Segment { start: at as usize, end: len as usize, run: None };
        joined_front(text, seg, Seq::empty());
        assert(tail(text, at) =~= seq![seg] + Seq::<Segment>::empty());
        assert(joined(text, tail(text, at)) =~= piece(text, at, len));
    } else if !addressed(text, runs[i].start as int, runs[i].end as int) {
        stretches_keep_rest(text, runs, i + 1, at);
    } else {
        let (s, e) = (runs[i].start as int, runs[i].end as int);
        stretches_keep_rest(text, runs, i + 1, e);
        let rest = stretches(text, runs, i + 1, e);
        let styled = Segment { start: runs[i].start, end: runs[i].end, run: Some(i as usize) };
        joined_front(text, styled, rest);
        pieces_join(text, s, e, len);
        if s > at {
            let plain = Segment { start: at as usize, end: s as usize, run: None };
            joined_front(text, plain, seq![styled] + rest);
            assert(gap(text, at, s) + seq![styled] + rest =~= seq![plain] + (seq![styled] + rest));
            pieces_join(text, at, s, len);
        } else {
            assert(gap(text, at, s) + seq![styled] + rest =~= seq![styled] + rest);
        }
    }
}

/// The text survives its styling: with runs in the text's order, the stretches read one after
/// the other are the whole text, also where some of the runs do not address it.
pub proof fn ordered_runs_keep_the_text(text: Seq<char>, runs: Seq<TextRun>)
    requires
        in_order(text, runs),
        encode_utf8(text).len() <= usize::MAX,
    ensures
        joined(text, stretches(text, runs, 0, 0)) == text,
{
    let bytes = encode_utf8(text);
    vstd::utf8::encode_utf8_valid_utf8(text);
    vstd::utf8::is_char_boundary_start_end_of_seq(bytes);
    stretches_keep_rest(text, runs, 0, 0);
    assert(bytes.subrange(0, bytes.len() as int) =~= bytes);
    vstd::utf8::encode_utf8_decode_utf8(text);
}

/// Without runs the text is one plain stretch.
pub proof fn no_runs_one_stretch(text: Seq<char>)
    ensures
        stretches(text, Seq::empty(), 0, 0) == seq![
            Segment { start: 0, end: encode_utf8(text).len() as usize, run: None },
        ],
{
    vstd::utf8::encode_utf8_valid_utf8(text);
    vstd::utf8::is_char_boundary_start_end_of_seq(encode_utf8(text));
}

fn is_addressed(text: &str, start: usize, end: usize) -> (b: bool)
    ensures
        b == addressed(text@, start as int, end as int),
{
    let len: usize = text.as_bytes().len();
    start <= end && end <= len && text.is_char_boundary(start) && text.is_char_boundary(end)
}

/// The piece of `text` at the bytes `start..end`, as a string of its own.
pub fn piece_of(text: &str, start: usize, end: usize) -> (s: String)
    requires
        addressed(text@, start as int, end as int),
    ensures
        s@ == piece(text@, start as int, end as int),
{
    let ghost bytes = encode_utf8(text@);
    proof {
        vstd::utf8::encode_utf8_valid_utf8(text@);
        vstd::utf8::is_char_boundary_start_end_of_seq(bytes);
        boundary_inside(bytes, 0, start as int, end as int);
    }
    let (front, _) = text.split_at(end);
    let (_, mid) = front.split_at(start);
    proof {
        assert(encode_utf8(mid@) =~= bytes.subrange(start as int, end as int));
        vstd::utf8::encode_utf8_decode_utf8(mid@);
    }
    mid.to_owned()
}

/// The stretches a label's text falls into.
pub fn label_stretches(text: &str, runs: &Vec<TextRun>) -> (out: Vec<Segment>)
    ensures
        out@ == stretches(text@, runs@, 0, 0),
        forall|i: int|
            0 <= i < out.len() ==> addressed(
                text@,
                (#[trigger] out[i]).start as int,
                out[i].end as int,
            ) && (out[i].run matches Some(r) ==> r < runs.len()),
{
    let mut out: Vec<Segment> = Vec::new();
    let mut at: usize = 0;
    let mut i: usize = 0;
    let len: usize = text.as_bytes().len();
    while i < runs.len()
        invariant
            i <= runs.len(),
            len == encode_utf8(text@).len(),
            out@ + stretches(text@, runs@, i as int, at as int) == stretches(text@, runs@, 0, 0),
            forall|k: int|
                0 <= k < out.len() ==> addressed(
                    text@,
                    (#[trigger] out[k]).start as int,
                    out[k].end as int,
                ) && (out[k].run matches Some(r) ==> r < runs.len()),
        decreases runs.len() - i,
    {
        let start = runs[i].start;
        let end = runs[i].end;
        let ghost before = out@;
        let ghost rest = stretches(text@, runs@, i + 1, end as int);
        if is_addressed(text, start, end) {
            if start > at && is_addressed(text, at, start) {
                out.push(Segment { start: at, end: start, run: None });
            }
            assert(out@ =~= before + gap(text@, at as int, start as int));
            out.push(Segment { start, end, run: Some(i) });
            proof {
                let styled = seq![Segment { start, end, run: Some(i) }];
                assert(out@ + rest =~= before + (gap(text@, at as int, start as int) + styled
                    + rest));
            }
            at = end;
        }
        i = i + 1;
    }
    let ghost before = out@;
    if is_addressed(text, at, len) {
        out.push(Segment { start: at, end: len, run: None });
    }
    assert(out@ =~= before + tail(text@, at as int));
    out
}

} // verus!
