//! Paths as text: a letter for each step, then the numbers of its points.
use crate::model::{texts, Point};
use crate::num::Num;
use crate::text::{chars_of, same};
use vstd::prelude::*;

verus! {

/// A word of a path's text, with the number it reads as, where it reads as one.
pub struct Word {
    pub text: String,
    pub num: Option<Num>,
}

#[verifier::ext_equal]
pub ghost struct WordView {
    pub text: Seq<char>,
    pub num: Option<Num>,
}

impl View for Word {
    type V = WordView;

    open spec fn view(&self) -> WordView {
        WordView { text: self.text@, num: self.num }
    }
}

/// Whether a character is white space.
pub open spec fn is_space(c: char) -> bool {
    ||| 0x9 <= c as u32 <= 0xd
    ||| c as u32 == 0x20
    ||| c as u32 == 0x85
    ||| c as u32 == 0xa0
    ||| c as u32 == 0x1680
    ||| 0x2000 <= c as u32 <= 0x200a
    ||| c as u32 == 0x2028
    ||| c as u32 == 0x2029
    ||| c as u32 == 0x202f
    ||| c as u32 == 0x205f
    ||| c as u32 == 0x3000
}

/// Where the word that is being read at `i` ends: at the next white space, or with the text.
pub open spec fn word_end(s: Seq<char>, i: int) -> int
    decreases s.len() - i,
{
    if i < 0 || i >= s.len() || is_space(s[i]) {
        i
    } else {
        word_end(s, i + 1)
    }
}

proof fn a_word_ends_behind(s: Seq<char>, i: int)
    requires
        0 <= i <= s.len(),
    ensures
        i <= word_end(s, i) <= s.len(),
        i < s.len() && !is_space(s[i]) ==> i < word_end(s, i),
        word_end(s, i) < s.len() ==> is_space(s[word_end(s, i)]),
        forall|j: int| i <= j < word_end(s, i) ==> !is_space(#[trigger] s[j]),
    decreases s.len() - i,
{
    if i < s.len() && !is_space(s[i]) {
        a_word_ends_behind(s, i + 1);
    }
}

/// The words of a text from `i` on, which stand between white space.
pub open spec fn words_from(s: Seq<char>, i: int) -> Seq<Seq<char>>
    decreases s.len() - i,
{
    if i < 0 || i >= s.len() {
        Seq::empty()
    } else if is_space(s[i]) {
        words_from(s, i + 1)
    } else if i < word_end(s, i) <= s.len() {
        seq![s.subrange(i, word_end(s, i))] + words_from(s, word_end(s, i))
    } else {
        Seq::empty()
    }
}

/// No word is empty or holds white space.
pub proof fn words_hold_no_space(s: Seq<char>, i: int, k: int, j: int)
    requires
        0 <= i <= s.len(),
        0 <= k < words_from(s, i).len(),
        0 <= j < words_from(s, i)[k].len(),
    ensures
        words_from(s, i)[k].len() > 0,
        !is_space(words_from(s, i)[k][j]),
    decreases s.len() - i,
{
    a_word_ends_behind(s, i);
    if i < s.len() {
        if is_space(s[i]) {
            words_hold_no_space(s, i + 1, k, j);
        } else if k > 0 {
            words_hold_no_space(s, word_end(s, i), k - 1, j);
        } else {
            assert(words_from(s, i)[0] == s.subrange(i, word_end(s, i)));
            assert(s.subrange(i, word_end(s, i))[j] == s[i + j]);
        }
    }
}

fn is_blank(c: char) -> (b: bool)
    ensures
        b == is_space(c),
{
    let n: u32 = c as u32;
    (0x9 <= n && n <= 0xd) || n == 0x20 || n == 0x85 || n == 0xa0 || n == 0x1680 || (0x2000 <= n
        && n <= 0x200a) || n == 0x2028 || n == 0x2029 || n == 0x202f || n == 0x205f || n == 0x3000
}

/// The words of a path's text.
pub fn split_words(text: &str) -> (out: Vec<String>)
    ensures
        texts(out@) == words_from(text@, 0),
{
    let v = chars_of(text);
    let mut out: Vec<String> = Vec::new();
    let mut i: usize = 0;
    proof {
        assert(texts(out@) + words_from(text@, 0) =~= words_from(text@, 0));
    }
    while i < v.len()
        invariant
            v@ == text@,
            i <= v.len(),
            texts(out@) + words_from(text@, i as int) == words_from(text@, 0),
        decreases v.len() - i,
    {
        if is_blank(v[i]) {
            i = i + 1;
            continue;
        }
        let ghost before = texts(out@);
        let ghost rest = words_from(text@, i as int);
        let mut w = String::new();
        let mut e: usize = i;
        while e < v.len() && !is_blank(v[e])
            invariant
                v@ == text@,
                i <= e <= v.len(),
                w@ == text@.subrange(i as int, e as int),
                word_end(text@, i as int) == word_end(text@, e as int),
            decreases v.len() - e,
        {
            w.push(v[e]);
            e = e + 1;
            proof {
                assert(w@ =~= text@.subrange(i as int, e as int));
            }
        }
        let ghost one = w@;
        out.push(w);
        proof {
            a_word_ends_behind(text@, i as int);
            assert(word_end(text@, e as int) == e);
            assert(texts(out@) =~= before.push(one));
            assert(before + rest =~= texts(out@) + words_from(text@, e as int));
        }
        i = e;
    }
    proof {
        assert(texts(out@) + words_from(text@, i as int) =~= texts(out@));
    }
    out
}

/// The words of a text.
pub open spec fn words(v: Seq<Word>) -> Seq<WordView> {
    Seq::new(v.len(), |i: int| v[i]@)
}

/// A step of a path: where it goes, and the points that bend it.
#[derive(Clone, Copy, Debug, PartialEq, Eq, Structural)]
pub enum Step {
    Move(Point),
    Line(Point),
    Quad(Point, Point),
    Cubic(Point, Point, Point),
    Close,
}

/// A step, and the point it starts from.
#[derive(Clone, Copy, Debug, PartialEq, Eq, Structural)]
pub struct Drawn {
    pub from: Point,
    pub step: Step,
}

/// The number at a place, where there is one.
pub open spec fn number(ws: Seq<WordView>, i: int) -> Option<Num> {
    if 0 <= i < ws.len() {
        ws[i].num
    } else {
        None
    }
}

/// The point at a place, where both its numbers are there.
pub open spec fn point(ws: Seq<WordView>, i: int) -> Option<Point> {
    match (number(ws, i), number(ws, i + 1)) {
        (Some(x), Some(y)) => Some(Point { x, y }),
        _ => None,
    }
}

/// The words behind the first `n`.
pub open spec fn behind(ws: Seq<WordView>, n: int) -> Seq<WordView> {
    if n < ws.len() {
        ws.subrange(n, ws.len() as int)
    } else {
        Seq::empty()
    }
}

/// How many words the step at the front takes, itself included.
pub open spec fn step_len(ws: Seq<WordView>) -> int {
    let w = ws[0].text;
    if w == "M"@ || w == "L"@ {
        3
    } else if w == "Q"@ {
        5
    } else if w == "C"@ {
        7
    } else {
        1
    }
}

/// The step at the front, unless a number of it is missing or it is no step.
pub open spec fn step_at(ws: Seq<WordView>) -> Option<Step> {
    let w = ws[0].text;
    if w == "M"@ {
        match point(ws, 1) {
            Some(p) => Some(Step::Move(p)),
            None => None,
        }
    } else if w == "L"@ {
        match point(ws, 1) {
            Some(p) => Some(Step::Line(p)),
            None => None,
        }
    } else if w == "Q"@ {
        match (point(ws, 1), point(ws, 3)) {
            (Some(c), Some(p)) => Some(Step::Quad(c, p)),
            _ => None,
        }
    } else if w == "C"@ {
        match (point(ws, 1), point(ws, 3), point(ws, 5)) {
            (Some(a), Some(b), Some(p)) => Some(Step::Cubic(a, b, p)),
            _ => None,
        }
    } else if w == "Z"@ {
        Some(Step::Close)
    } else {
        None
    }
}

/// Where a step ends; closing a path moves nothing.
pub open spec fn end_of(s: Step, from: Point) -> Point {
    match s {
        Step::Move(p) => p,
        Step::Line(p) => p,
        Step::Quad(_, p) => p,
        Step::Cubic(_, _, p) => p,
        Step::Close => from,
    }
}

/// The steps of a text, from a point on. What is no step is passed over.
pub open spec fn traced(ws: Seq<WordView>, from: Point) -> Seq<Drawn>
    decreases ws.len(),
{
    if ws.len() == 0 {
        Seq::empty()
    } else {
        let rest = behind(ws, step_len(ws));
        match step_at(ws) {
            Some(step) => seq![Drawn { from, step }] + traced(rest, end_of(step, from)),
            None => traced(rest, from),
        }
    }
}

// ---- reading back ------------------------------------------------------------------------------

pub open spec fn letter(text: Seq<char>) -> WordView {
    WordView { text, num: None }
}

/// The words of a point; what a number is written as does not matter to how it is read.
pub open spec fn point_words(p: Point, x: Seq<char>, y: Seq<char>) -> Seq<WordView> {
    seq![WordView { text: x, num: Some(p.x) }, WordView { text: y, num: Some(p.y) }]
}

/// The words of a step.
pub open spec fn step_words(s: Step, t: Seq<char>) -> Seq<WordView> {
    match s {
        Step::Move(p) => seq![letter("M"@)] + point_words(p, t, t),
        Step::Line(p) => seq![letter("L"@)] + point_words(p, t, t),
        Step::Quad(c, p) => seq![letter("Q"@)] + point_words(c, t, t) + point_words(p, t, t),
        Step::Cubic(a, b, p) => seq![letter("C"@)] + point_words(a, t, t) + point_words(b, t, t)
            + point_words(p, t, t),
        Step::Close => seq![letter("Z"@)],
    }
}

/// The words of some steps.
pub open spec fn path_words(steps: Seq<Step>, t: Seq<char>) -> Seq<WordView>
    decreases steps.len(),
{
    if steps.len() == 0 {
        Seq::empty()
    } else {
        step_words(steps[0], t) + path_words(steps.drop_first(), t)
    }
}

proof fn letters_differ()
    ensures
        "M"@ != "L"@,
        "M"@ != "Q"@,
        "M"@ != "C"@,
        "M"@ != "Z"@,
        "L"@ != "Q"@,
        "L"@ != "C"@,
        "L"@ != "Z"@,
        "Q"@ != "C"@,
        "Q"@ != "Z"@,
        "C"@ != "Z"@,
{
    reveal_strlit("M");
    reveal_strlit("L");
    reveal_strlit("Q");
    reveal_strlit("C");
    reveal_strlit("Z");
    assert("M"@[0] == 'M' && "L"@[0] == 'L' && "Q"@[0] == 'Q' && "C"@[0] == 'C' && "Z"@[0] == 'Z');
}

/// The steps that a path was written with are the steps that are read from it.
pub proof fn a_path_reads_back(steps: Seq<Step>, t: Seq<char>, from: Point)
    ensures
        traced(path_words(steps, t), from).len() == steps.len(),
        forall|i: int|
            0 <= i < steps.len() ==> (#[trigger] traced(path_words(steps, t), from)[i]).step
                == steps[i],
    decreases steps.len(),
{
    if steps.len() > 0 {
        letters_differ();
        let ws = path_words(steps, t);
        let first = step_words(steps[0], t);
        let rest = path_words(steps.drop_first(), t);
        assert(ws == first + rest);
        assert(ws[0] == first[0]);
        let n = first.len() as int;
        assert(step_len(ws) == n);
        assert(behind(ws, n) =~= rest);
        match steps[0] {
            Step::Move(p) => {
                assert(ws[1] == first[1] && ws[2] == first[2]);
                assert(point(ws, 1) == Some(p));
            },
            Step::Line(p) => {
                assert(ws[1] == first[1] && ws[2] == first[2]);
                assert(point(ws, 1) == Some(p));
            },
            Step::Quad(c, p) => {
                assert(ws[1] == first[1] && ws[2] == first[2] && ws[3] == first[3] && ws[4]
                    == first[4]);
                assert(point(ws, 1) == Some(c) && point(ws, 3) == Some(p));
            },
            Step::Cubic(a, b, p) => {
                assert(ws[1] == first[1] && ws[2] == first[2] && ws[3] == first[3] && ws[4]
                    == first[4] && ws[5] == first[5] && ws[6] == first[6]);
                assert(point(ws, 1) == Some(a) && point(ws, 3) == Some(b) && point(ws, 5) == Some(
                    p,
                ));
            },
            Step::Close => {},
        }
        assert(step_at(ws) == Some(steps[0]));
        a_path_reads_back(steps.drop_first(), t, end_of(steps[0], from));
        let tail = traced(rest, end_of(steps[0], from));
        assert forall|i: int| 0 <= i < steps.len() implies (#[trigger] traced(ws, from)[i]).step
            == steps[i] by {
            if i > 0 {
                assert(traced(ws, from)[i] == tail[i - 1]);
                assert(steps.drop_first()[i - 1] == steps[i]);
            }
        }
    }
}

/// A word that is no step is passed over.
pub proof fn a_stray_word_is_passed_over(w: WordView, ws: Seq<WordView>, from: Point)
    requires
        w.text != "M"@,
        w.text != "L"@,
        w.text != "Q"@,
        w.text != "C"@,
        w.text != "Z"@,
    ensures
        traced(seq![w] + ws, from) == traced(ws, from),
{
    let all = seq![w] + ws;
    assert(all[0] == w);
    assert(behind(all, 1) =~= ws);
}

// ---- reading -----------------------------------------------------------------------------------

fn number_at(ws: &Vec<Word>, i: usize) -> (r: Option<Num>)
    ensures
        r == number(words(ws@), i as int),
{
    if i < ws.len() {
        ws[i].num
    } else {
        None
    }
}

fn point_at(ws: &Vec<Word>, i: usize) -> (r: Option<Point>)
    requires
        i <= ws.len(),
        i < usize::MAX,
    ensures
        r == point(words(ws@), i as int),
{
    match (number_at(ws, i), number_at(ws, i + 1)) {
        (Some(x), Some(y)) => Some(Point { x, y }),
        _ => None,
    }
}

proof fn looking_behind(ws: Seq<WordView>, i: int, k: int)
    requires
        0 <= i < ws.len(),
        0 <= k,
    ensures
        point(behind(ws, i), k) == point(ws, i + k),
{
    let b = behind(ws, i);
    assert(number(b, k) == number(ws, i + k));
    assert(number(b, k + 1) == number(ws, i + k + 1));
}

fn offset(len: usize, i: usize, k: usize) -> (j: usize)
    requires
        i <= len,
    ensures
        j <= len,
        i + k <= len ==> j == i + k,
        i + k > len ==> j == len,
{
    if len - i >= k {
        i + k
    } else {
        len
    }
}

fn step_of(ws: &Vec<Word>, i: usize) -> (r: (Option<Step>, usize))
    requires
        i < ws.len(),
        ws.len() < usize::MAX,
    ensures
        r.0 == step_at(behind(words(ws@), i as int)),
        r.1 == step_len(behind(words(ws@), i as int)),
{
    let ghost all = words(ws@);
    let ghost b = behind(all, i as int);
    proof {
        letters_differ();
        assert(b[0] == all[i as int]);
        looking_behind(all, i as int, 1);
        looking_behind(all, i as int, 3);
        looking_behind(all, i as int, 5);
    }
    let n = ws.len();
    let w = ws[i].text.as_str();
    let one = point_at(ws, offset(n, i, 1));
    let two = point_at(ws, offset(n, i, 3));
    let three = point_at(ws, offset(n, i, 5));
    proof {
        assert(one == point(all, i + 1));
        assert(two == point(all, i + 3));
        assert(three == point(all, i + 5));
    }
    if same(w, "M") {
        match one {
            Some(p) => (Some(Step::Move(p)), 3),
            None => (None, 3),
        }
    } else if same(w, "L") {
        match one {
            Some(p) => (Some(Step::Line(p)), 3),
            None => (None, 3),
        }
    } else if same(w, "Q") {
        match (one, two) {
            (Some(c), Some(p)) => (Some(Step::Quad(c, p)), 5),
            _ => (None, 5),
        }
    } else if same(w, "C") {
        match (one, two, three) {
            (Some(a), Some(c), Some(p)) => (Some(Step::Cubic(a, c, p)), 7),
            _ => (None, 7),
        }
    } else if same(w, "Z") {
        (Some(Step::Close), 1)
    } else {
        (None, 1)
    }
}

fn end_point(s: Step, from: Point) -> (p: Point)
    ensures
        p == end_of(s, from),
{
    match s {
        Step::Move(p) => p,
        Step::Line(p) => p,
        Step::Quad(_, p) => p,
        Step::Cubic(_, _, p) => p,
        Step::Close => from,
    }
}

/// The steps of a path, each with the point it starts from.
pub fn cairo_trace_path(ws: &Vec<Word>) -> (out: Vec<Drawn>)
    requires
        ws.len() < usize::MAX,
    ensures
        out@ == traced(words(ws@), Point { x: Num { bits: 0 }, y: Num { bits: 0 } }),
{
    let ghost all = words(ws@);
    let ghost origin = Point { x: Num { bits: 0 }, y: Num { bits: 0 } };
    let mut out: Vec<Drawn> = Vec::new();
    let mut from = Point { x: Num { bits: 0 }, y: Num { bits: 0 } };
    let mut i: usize = 0;
    proof {
        assert(behind(all, 0) =~= all);
        assert(Seq::<Drawn>::empty() + traced(all, origin) =~= traced(all, origin));
    }
    while i < ws.len()
        invariant
            i <= ws.len(),
            ws.len() < usize::MAX,
            all == words(ws@),
            traced(all, origin) == out@ + traced(behind(all, i as int), from),
        decreases ws.len() - i,
    {
        let (step, n) = step_of(ws, i);
        let ghost b = behind(all, i as int);
        let ghost before = out@;
        let ghost was = from;
        let next = offset(ws.len(), i, n);
        proof {
            assert(behind(b, n as int) =~= behind(all, next as int));
        }
        match step {
            Some(s) => {
                out.push(Drawn { from, step: s });
                from = end_point(s, from);
                proof {
                    let tail = traced(behind(all, next as int), from);
                    assert(before + (seq![Drawn { from: was, step: s }] + tail) =~= out@ + tail);
                }
            },
            None => {},
        }
        i = next;
    }
    proof {
        assert(traced(behind(all, i as int), from) =~= Seq::<Drawn>::empty());
        assert(out@ + Seq::<Drawn>::empty() =~= out@);
    }
    out
}

} // verus!
