//! Texts that hold numbers: the points of a polygon, "x,y x,y …", the stops of a gradient,
//! "offset,aarrggbb …", and the dashes of a line.
use crate::model::texts;
use crate::text::{chars_of, first_of, split, split_on, text_of};
use vstd::prelude::*;

verus! {

/// What stands before and behind the first comma of a word, where there is one.
pub open spec fn pair_in(s: Seq<char>) -> Option<(Seq<char>, Seq<char>)> {
    match first_of(s, ',', 0) {
        Some(k) => Some((s.take(k), s.skip(k + 1))),
        None => None,
    }
}

/// The pairs among the first `n` words; a word without a comma is passed over.
pub open spec fn pairs_in(words: Seq<Seq<char>>, n: int) -> Seq<(Seq<char>, Seq<char>)>
    decreases n,
{
    if n <= 0 {
        Seq::empty()
    } else {
        match pair_in(words[n - 1]) {
            Some(p) => pairs_in(words, n - 1).push(p),
            None => pairs_in(words, n - 1),
        }
    }
}

/// The pairs of a text.
pub open spec fn pairs_of(s: Seq<char>) -> Seq<(Seq<char>, Seq<char>)> {
    pairs_in(split(s, ' '), split(s, ' ').len() as int)
}

/// Pairs of texts, as contracts speak of them.
pub open spec fn pair_texts(v: Seq<(String, String)>) -> Seq<(Seq<char>, Seq<char>)> {
    Seq::new(v.len(), |i: int| (v[i].0@, v[i].1@))
}

proof fn first_of_is(s: Seq<char>, c: char, i: int, k: int)
    requires
        0 <= i <= k < s.len(),
        s[k] == c,
        forall|j: int| i <= j < k ==> s[j] != c,
    ensures
        first_of(s, c, i) == Some(k),
    decreases k - i,
{
    if i < k {
        first_of_is(s, c, i + 1, k);
    }
}

proof fn first_of_none(s: Seq<char>, c: char, i: int)
    requires
        0 <= i <= s.len(),
        forall|j: int| i <= j < s.len() ==> s[j] != c,
    ensures
        first_of(s, c, i) is None,
    decreases s.len() - i,
{
    if i < s.len() {
        first_of_none(s, c, i + 1);
    }
}

fn pair(word: &str) -> (r: Option<(String, String)>)
    ensures
        match r {
            Some(p) => pair_in(word@) == Some((p.0@, p.1@)),
            None => pair_in(word@) is None,
        },
{
    let v = chars_of(word);
    let mut i: usize = 0;
    while i < v.len()
        invariant
            i <= v.len(),
            v@ == word@,
            forall|j: int| 0 <= j < i ==> word@[j] != ',',
        decreases v.len() - i,
    {
        if v[i] == ',' {
            let before = text_of(&v, 0, i);
            let behind = text_of(&v, i + 1, v.len());
            proof {
                first_of_is(word@, ',', 0, i as int);
                assert(before@ =~= word@.take(i as int));
                assert(behind@ =~= word@.skip(i + 1));
            }
            return Some((before, behind));
        }
        i = i + 1;
    }
    proof {
        first_of_none(word@, ',', 0);
    }
    None
}

/// The pairs of a text, such as the points of a polygon.
pub fn pairs(text: &str) -> (out: Vec<(String, String)>)
    ensures
        pair_texts(out@) == pairs_of(text@),
{
    let words = split_on(text, ' ');
    let ghost all = split(text@, ' ');
    let mut out: Vec<(String, String)> = Vec::new();
    let mut i: usize = 0;
    proof {
        assert(pair_texts(out@) =~= pairs_in(all, 0));
    }
    while i < words.len()
        invariant
            i <= words.len(),
            words@.len() == all.len(),
            forall|k: int| 0 <= k < words@.len() ==> (#[trigger] words@[k])@ == all[k],
            pair_texts(out@) == pairs_in(all, i as int),
        decreases words.len() - i,
    {
        let ghost before = out@;
        match pair(words[i].as_str()) {
            Some(p) => {
                proof {
                    assert(pair_texts(before.push(p)) =~= pair_texts(before).push((p.0@, p.1@)));
                }
                out.push(p);
            },
            None => {},
        }
        i = i + 1;
    }
    out
}

/// What a hexadecimal digit stands for.
pub open spec fn hex_digit(c: char) -> Option<nat> {
    if '0' <= c <= '9' {
        Some((c as nat - '0' as nat) as nat)
    } else if 'a' <= c <= 'f' {
        Some((c as nat - 'a' as nat + 10) as nat)
    } else if 'A' <= c <= 'F' {
        Some((c as nat - 'A' as nat + 10) as nat)
    } else {
        None
    }
}

/// What hexadecimal digits stand for.
pub open spec fn hex_value(s: Seq<char>) -> Option<nat>
    decreases s.len(),
{
    if s.len() == 0 {
        Some(0)
    } else {
        match (hex_value(s.drop_last()), hex_digit(s.last())) {
            (Some(n), Some(d)) => Some(16 * n + d),
            _ => None,
        }
    }
}

/// The number a text reads as: digits, with or without a plus in front, that fit into a word.
pub open spec fn parsed_hex(s: Seq<char>) -> Option<u32> {
    let digits = if s.len() > 0 && s[0] == '+' {
        s.skip(1)
    } else {
        s
    };
    match hex_value(digits) {
        Some(n) => if digits.len() > 0 && n <= u32::MAX {
            Some(n as u32)
        } else {
            None
        },
        None => None,
    }
}

fn value_of_hex(c: char) -> (r: Option<u32>)
    ensures
        match r {
            Some(d) => hex_digit(c) == Some(d as nat) && d < 16,
            None => hex_digit(c) is None,
        },
{
    if '0' <= c && c <= '9' {
        Some(c as u32 - '0' as u32)
    } else if 'a' <= c && c <= 'f' {
        Some(c as u32 - 'a' as u32 + 10)
    } else if 'A' <= c && c <= 'F' {
        Some(c as u32 - 'A' as u32 + 10)
    } else {
        None
    }
}

proof fn no_digits_behind(s: Seq<char>, i: int)
    requires
        0 <= i < s.len(),
        hex_digit(s[i]) is None,
    ensures
        hex_value(s) is None,
    decreases s.len(),
{
    if i < s.len() - 1 {
        no_digits_behind(s.drop_last(), i);
    }
}

/// Reads a hexadecimal number.
pub fn parse_hex(s: &str) -> (r: Option<u32>)
    ensures
        r == parsed_hex(s@),
{
    let v = chars_of(s);
    let from: usize = if v.len() > 0 && v[0] == '+' {
        1
    } else {
        0
    };
    let ghost t = if from == 1 {
        s@.skip(1)
    } else {
        s@
    };
    if v.len() == from {
        return None;
    }
    let mut n: u32 = 0;
    let mut large: bool = false;
    let mut i: usize = from;
    proof {
        assert(t.take(0) =~= Seq::<char>::empty());
    }
    while i < v.len()
        invariant
            from <= i <= v.len(),
            v@ == s@,
            from <= 1,
            from == 1 <==> (s@.len() > 0 && s@[0] == '+'),
            t == (if from == 1 {
                s@.skip(1)
            } else {
                s@
            }),
            s@.len() > from,
            match hex_value(t.take(i - from)) {
                Some(m) => if large {
                    m > u32::MAX
                } else {
                    n == m
                },
                None => false,
            },
        decreases v.len() - i,
    {
        let c = v[i];
        proof {
            assert(t[i - from] == c);
            assert(t.take(i + 1 - from).drop_last() =~= t.take(i - from));
            assert(t.take(i + 1 - from).last() == c);
        }
        match value_of_hex(c) {
            Some(d) => {
                if !large {
                    if n > (u32::MAX - d) / 16 {
                        large = true;
                    } else {
                        n = n * 16 + d;
                    }
                }
            },
            None => {
                proof {
                    no_digits_behind(t, i - from);
                }
                return None;
            },
        }
        i = i + 1;
    }
    proof {
        assert(t.take(i - from) =~= t);
    }
    if large {
        None
    } else {
        Some(n)
    }
}

/// The stops among the first `n` pairs: where one is, and its color; a pair whose color does not
/// read as one is passed over.
pub open spec fn stops_in(pairs: Seq<(Seq<char>, Seq<char>)>, n: int) -> Seq<(Seq<char>, u32)>
    decreases n,
{
    if n <= 0 {
        Seq::empty()
    } else {
        match parsed_hex(pairs[n - 1].1) {
            Some(color) => stops_in(pairs, n - 1).push((pairs[n - 1].0, color)),
            None => stops_in(pairs, n - 1),
        }
    }
}

/// Stops, as contracts speak of them.
pub open spec fn stop_texts(v: Seq<(String, u32)>) -> Seq<(Seq<char>, u32)> {
    Seq::new(v.len(), |i: int| (v[i].0@, v[i].1))
}

/// The stops of a gradient's text, where each is as text.
pub fn stops(text: &str) -> (out: Vec<(String, u32)>)
    ensures
        stop_texts(out@) == stops_in(pairs_of(text@), pairs_of(text@).len() as int),
{
    let all = pairs(text);
    let ghost given = pairs_of(text@);
    let ghost start = all@;
    let mut out: Vec<(String, u32)> = Vec::new();
    let mut i: usize = 0;
    proof {
        assert(pair_texts(start).len() == start.len());
        assert(stop_texts(out@) =~= stops_in(given, 0));
    }
    while i < all.len()
        invariant
            i <= all.len(),
            all@ == start,
            pair_texts(start) == given,
            given.len() == start.len(),
            stop_texts(out@) == stops_in(given, i as int),
        decreases all.len() - i,
    {
        let ghost before = out@;
        proof {
            assert(pair_texts(start)[i as int] == given[i as int]);
        }
        match parse_hex(all[i].1.as_str()) {
            Some(color) => {
                let at = crate::text::owned(all[i].0.as_str());
                proof {
                    assert(stop_texts(before.push((at, color))) =~= stop_texts(before).push(
                        (at@, color),
                    ));
                }
                out.push((at, color));
            },
            None => {},
        }
        i = i + 1;
    }
    out
}

/// The lengths of a line's dashes, where each is as text.
pub fn dashes(text: &str) -> (out: Vec<String>)
    ensures
        texts(out@) == split(text@, ' '),
{
    let out = split_on(text, ' ');
    proof {
        assert(texts(out@) =~= split(text@, ' '));
    }
    out
}

} // verus!
