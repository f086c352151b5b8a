//! The manifest of bundled fonts, read by a scan for its keys: a list of objects, each with a
//! family and the file it was staged as.
use crate::logging::small;
use crate::text::{chars_of, first_of};
use vstd::prelude::*;

verus! {

/// Whether `pat` stands in `s` at `i`.
pub open spec fn found_at(s: Seq<char>, pat: Seq<char>, i: int) -> bool {
    0 <= i && i + pat.len() <= s.len() && s.subrange(i, i + pat.len()) == pat
}

/// The first place of `pat` in `s` from `i` on.
pub open spec fn place_of(s: Seq<char>, pat: Seq<char>, i: int) -> Option<int>
    decreases s.len() + 1 - i,
{
    if i < 0 || i > s.len() {
        None
    } else if found_at(s, pat, i) {
        Some(i)
    } else {
        place_of(s, pat, i + 1)
    }
}

/// A text with its escapes read: a backslash in front of a backslash or a quote stands for that
/// character.
pub open spec fn unescaped(s: Seq<char>) -> Seq<char>
    decreases s.len(),
{
    if s.len() == 0 {
        s
    } else if s.len() >= 2 && s[0] == '\\' && (s[1] == '\\' || s[1] == '"') {
        seq![s[1]] + unescaped(s.skip(2))
    } else {
        seq![s[0]] + unescaped(s.skip(1))
    }
}

/// Where a string ends that is read from `i` on: at the first quote that no backslash takes with
/// it.
pub open spec fn value_end(s: Seq<char>, i: int) -> Option<int>
    decreases s.len() + 1 - i,
{
    if i < 0 || i >= s.len() {
        None
    } else if s[i] == '"' {
        Some(i)
    } else if s[i] == '\\' {
        value_end(s, i + 2)
    } else {
        value_end(s, i + 1)
    }
}

/// The string behind a key: what stands between the next quote and the one that ends it.
pub open spec fn value_after(object: Seq<char>, key: Seq<char>) -> Option<Seq<char>> {
    match place_of(object, key, 0) {
        Some(i) => match first_of(object, '"', i + key.len()) {
            Some(q) => match value_end(object, q + 1) {
                Some(end) => Some(unescaped(object.subrange(q + 1, end))),
                None => None,
            },
            None => None,
        },
        None => None,
    }
}

/// A text as it is written inside a string: a backslash in front of each backslash and quote.
pub open spec fn escaped(s: Seq<char>) -> Seq<char>
    decreases s.len(),
{
    if s.len() == 0 {
        s
    } else if s[0] == '\\' || s[0] == '"' {
        seq!['\\', s[0]] + escaped(s.skip(1))
    } else {
        seq![s[0]] + escaped(s.skip(1))
    }
}

/// A string that was written with its escapes ends where it was ended, and reads back as the
/// text it was written from.
pub proof fn a_value_reads_back(before: Seq<char>, text: Seq<char>, after: Seq<char>)
    ensures
        ({
            let s = before + escaped(text) + seq!['"'] + after;
            let end = before.len() + escaped(text).len();
            &&& value_end(s, before.len() as int) == Some(end as int)
            &&& unescaped(s.subrange(before.len() as int, end as int)) == text
        }),
    decreases text.len(),
{
    let s = before + escaped(text) + seq!['"'] + after;
    let start = before.len() as int;
    let end = start + escaped(text).len();
    if text.len() == 0 {
        assert(s[start] == '"');
        assert(s.subrange(start, end) =~= text);
    } else {
        let rest = text.skip(1);
        let first: Seq<char> = if text[0] == '\\' || text[0] == '"' {
            seq!['\\', text[0]]
        } else {
            seq![text[0]]
        };
        let next = before + first;
        a_value_reads_back(next, rest, after);
        assert(escaped(text) =~= first + escaped(rest));
        assert(next + escaped(rest) + seq!['"'] + after =~= s);
        assert(s[start] == first[0]);
        let value = s.subrange(start, end);
        assert(value[0] == first[0]);
        if first.len() == 2 {
            assert(value[1] == first[1]);
        }
        assert(value.skip(first.len() as int) =~= s.subrange(next.len() as int, end));
        assert(seq![text[0]] + rest =~= text);
    }
}

/// The family and the file of one object, where it has both and neither is empty.
pub open spec fn entry(object: Seq<char>) -> Option<(Seq<char>, Seq<char>)> {
    match (value_after(object, "\"family\""@), value_after(object, "\"file\""@)) {
        (Some(family), Some(file)) => if family.len() > 0 && file.len() > 0 {
            Some((family, file))
        } else {
            None
        },
        _ => None,
    }
}

/// The entries of the objects from `pos` on, in order.
pub open spec fn entries(s: Seq<char>, pos: int) -> Seq<(Seq<char>, Seq<char>)>
    decreases s.len() - pos,
{
    if pos < 0 {
        Seq::empty()
    } else {
        match first_of(s, '{', pos) {
            Some(open) => match first_of(s, '}', open) {
                Some(close) => if pos <= open <= close < s.len() {
                    (match entry(s.subrange(open, close)) {
                        Some(e) => seq![e],
                        None => Seq::empty(),
                    }) + entries(s, close + 1)
                } else {
                    Seq::empty()
                },
                None => Seq::empty(),
            },
            None => Seq::empty(),
        }
    }
}

/// A bundled font: its family, and the file it was staged as.
pub struct FontEntry {
    pub family: String,
    pub file: String,
}

/// The entries of a list, as contracts speak of them.
pub open spec fn entry_texts(v: Seq<FontEntry>) -> Seq<(Seq<char>, Seq<char>)> {
    Seq::new(v.len(), |i: int| (v[i].family@, v[i].file@))
}

fn find_char(v: &Vec<char>, c: char, from: usize) -> (r: Option<usize>)
    ensures
        match r {
            Some(k) => first_of(v@, c, from as int) == Some(k as int) && from <= k < v.len(),
            None => first_of(v@, c, from as int) is None,
        },
{
    let mut i: usize = from;
    while i < v.len()
        invariant
            from <= i,
            first_of(v@, c, from as int) == first_of(v@, c, i as int),
        decreases v.len() - i,
    {
        if v[i] == c {
            return Some(i);
        }
        i = i + 1;
    }
    None
}

fn find_end(v: &Vec<char>, from: usize) -> (r: Option<usize>)
    ensures
        match r {
            Some(k) => value_end(v@, from as int) == Some(k as int) && from <= k < v.len(),
            None => value_end(v@, from as int) is None,
        },
{
    let mut i: usize = from;
    while i < v.len()
        invariant
            from <= i,
            value_end(v@, from as int) == value_end(v@, i as int),
        decreases v.len() - i,
    {
        if v[i] == '"' {
            return Some(i);
        }
        if v[i] == '\\' {
            if v.len() - i < 2 {
                assert(value_end(v@, i + 2) is None);
                return None;
            }
            i = i + 2;
        } else {
            i = i + 1;
        }
    }
    None
}

fn matches_at(v: &Vec<char>, pat: &Vec<char>, i: usize) -> (b: bool)
    requires
        i + pat.len() <= v.len(),
    ensures
        b == found_at(v@, pat@, i as int),
{
    let mut k: usize = 0;
    while k < pat.len()
        invariant
            k <= pat.len(),
            i + pat.len() <= v.len(),
            forall|j: int| 0 <= j < k ==> v@[i + j] == pat@[j],
        decreases pat.len() - k,
    {
        if v[i + k] != pat[k] {
            assert(v@.subrange(i as int, i + pat.len())[k as int] != pat@[k as int]);
            return false;
        }
        k = k + 1;
    }
    assert(v@.subrange(i as int, i + pat.len()) =~= pat@);
    true
}

fn find_text(v: &Vec<char>, pat: &Vec<char>) -> (r: Option<usize>)
    ensures
        match r {
            Some(k) => place_of(v@, pat@, 0) == Some(k as int) && k + pat.len() <= v.len(),
            None => place_of(v@, pat@, 0) is None,
        },
{
    if pat.len() > v.len() {
        proof {
            too_long_is_nowhere(v@, pat@, 0);
        }
        return None;
    }
    let last: usize = v.len() - pat.len();
    let mut i: usize = 0;
    while i <= last
        invariant
            i <= last + 1,
            last + pat.len() == v.len(),
            place_of(v@, pat@, 0) == place_of(v@, pat@, i as int),
        decreases last + 1 - i,
    {
        if matches_at(v, pat, i) {
            return Some(i);
        }
        if i == last {
            proof {
                too_long_is_nowhere(v@, pat@, i + 1);
            }
            return None;
        }
        i = i + 1;
    }
    proof {
        too_long_is_nowhere(v@, pat@, i as int);
    }
    None
}

proof fn too_long_is_nowhere(s: Seq<char>, pat: Seq<char>, i: int)
    requires
        i + pat.len() > s.len(),
    ensures
        place_of(s, pat, i) is None,
    decreases s.len() + 1 - i,
{
    if 0 <= i <= s.len() {
        too_long_is_nowhere(s, pat, i + 1);
    }
}

fn unescape(v: &Vec<char>, from: usize, to: usize) -> (t: String)
    requires
        from <= to <= v.len(),
    ensures
        t@ == unescaped(v@.subrange(from as int, to as int)),
{
    let mut t = String::new();
    let mut i: usize = from;
    let ghost all = v@.subrange(from as int, to as int);
    proof {
        assert(all.skip(0) =~= all);
    }
    while i < to
        invariant
            from <= i <= to <= v.len(),
            all == v@.subrange(from as int, to as int),
            t@ + unescaped(all.skip(i - from)) == unescaped(all),
        decreases to - i,
    {
        let ghost rest = all.skip(i - from);
        let ghost before = t@;
        if to - i >= 2 && v[i] == '\\' && (v[i + 1] == '\\' || v[i + 1] == '"') {
            t.push(v[i + 1]);
            proof {
                assert(rest.skip(2) =~= all.skip(i + 2 - from));
                assert(before + unescaped(rest) =~= t@ + unescaped(rest.skip(2)));
            }
            i = i + 2;
        } else {
            t.push(v[i]);
            proof {
                assert(rest.skip(1) =~= all.skip(i + 1 - from));
                assert(before + unescaped(rest) =~= t@ + unescaped(rest.skip(1)));
            }
            i = i + 1;
        }
    }
    proof {
        assert(all.skip(i - from) =~= Seq::<char>::empty());
        assert(t@ =~= t@ + unescaped(all.skip(i - from)));
    }
    t
}

fn value_of(object: &Vec<char>, key: &str) -> (r: Option<String>)
    ensures
        match r {
            Some(t) => value_after(object@, key@) == Some(t@),
            None => value_after(object@, key@) is None,
        },
{
    let pat = chars_of(key);
    match find_text(object, &pat) {
        Some(i) => match find_char(object, '"', i + pat.len()) {
            Some(q) => match find_end(object, q + 1) {
                Some(end) => Some(unescape(object, q + 1, end)),
                None => None,
            },
            None => None,
        },
        None => None,
    }
}

/// The fonts a manifest lists, in order.
pub fn manifest_entries(json: &str) -> (out: Vec<FontEntry>)
    ensures
        entry_texts(out@) == entries(json@, 0),
{
    let v = chars_of(json);
    let mut out: Vec<FontEntry> = Vec::new();
    let mut pos: usize = 0;
    proof {
        assert(entry_texts(out@) + entries(v@, 0) =~= entries(json@, 0));
    }
    loop
        invariant
            v@ == json@,
            pos <= v.len(),
            entry_texts(out@) + entries(v@, pos as int) == entries(json@, 0),
        decreases v.len() - pos,
    {
        let ghost before = entry_texts(out@);
        let open: usize = match find_char(&v, '{', pos) {
            Some(i) => i,
            None => {
                proof {
                    assert(before + entries(v@, pos as int) =~= before);
                }
                return out;
            },
        };
        let close: usize = match find_char(&v, '}', open) {
            Some(i) => i,
            None => {
                proof {
                    assert(before + entries(v@, pos as int) =~= before);
                }
                return out;
            },
        };
        let mut object: Vec<char> = Vec::new();
        let mut k: usize = open;
        while k < close
            invariant
                open <= k <= close < v.len(),
                object@ == v@.subrange(open as int, k as int),
            decreases close - k,
        {
            object.push(v[k]);
            k = k + 1;
            proof {
                assert(object@ =~= v@.subrange(open as int, k as int));
            }
        }
        let family = value_of(&object, "\"family\"");
        let file = value_of(&object, "\"file\"");
        match family {
            Some(family) => match file {
                Some(file) => {
                    if !family.as_str().is_empty() && !file.as_str().is_empty() {
                        let ghost e = (family@, file@);
                        out.push(FontEntry { family, file });
                        proof {
                            assert(entry_texts(out@) =~= before.push(e));
                        }
                    }
                },
                None => {},
            },
            None => {},
        }
        proof {
            let one = match entry(object@) {
                Some(e) => seq![e],
                None => Seq::empty(),
            };
            assert(entry_texts(out@) =~= before + one);
            assert(before + (one + entries(v@, close + 1)) =~= entry_texts(out@) + entries(
                v@,
                close + 1,
            ));
        }
        pos = close + 1;
    }
}

/// Whether a list names a family, whatever the case of its ASCII letters.
pub open spec fn names_family(list: Seq<Seq<char>>, family: Seq<char>) -> bool {
    exists|i: int|
        0 <= i < list.len() && crate::logging::same_letters(#[trigger] list[i], family)
}

/// A list of families with those of the manifest that it does not name, in order.
pub open spec fn with_bundled(list: Seq<Seq<char>>, more: Seq<(Seq<char>, Seq<char>)>, n: int) -> Seq<
    Seq<char>,
>
    decreases n,
{
    if n <= 0 {
        list
    } else {
        let so_far = with_bundled(list, more, n - 1);
        if names_family(so_far, more[n - 1].0) {
            so_far
        } else {
            so_far.push(more[n - 1].0)
        }
    }
}

fn small_letter(c: char) -> (d: char)
    ensures
        d == small(c),
{
    match c {
        'A' => 'a',
        'B' => 'b',
        'C' => 'c',
        'D' => 'd',
        'E' => 'e',
        'F' => 'f',
        'G' => 'g',
        'H' => 'h',
        'I' => 'i',
        'J' => 'j',
        'K' => 'k',
        'L' => 'l',
        'M' => 'm',
        'N' => 'n',
        'O' => 'o',
        'P' => 'p',
        'Q' => 'q',
        'R' => 'r',
        'S' => 's',
        'T' => 't',
        'U' => 'u',
        'V' => 'v',
        'W' => 'w',
        'X' => 'x',
        'Y' => 'y',
        'Z' => 'z',
        _ => c,
    }
}

fn same_family(a: &str, b: &str) -> (r: bool)
    ensures
        r == crate::logging::same_letters(a@, b@),
{
    let (x, y) = (chars_of(a), chars_of(b));
    if x.len() != y.len() {
        return false;
    }
    let mut i: usize = 0;
    while i < x.len()
        invariant
            i <= x.len() == y.len(),
            x@ == a@,
            y@ == b@,
            forall|k: int| 0 <= k < i ==> small(a@[k]) == small(#[trigger] b@[k]),
        decreases x.len() - i,
    {
        if small_letter(x[i]) != small_letter(y[i]) {
            assert(small(a@[i as int]) != small(b@[i as int]));
            return false;
        }
        i = i + 1;
    }
    true
}

/// The platform's families with the bundled ones that it did not list itself.
pub fn font_families(mut list: Vec<String>, bundled: &Vec<FontEntry>) -> (out: Vec<String>)
    ensures
        crate::model::texts(out@) == with_bundled(
            crate::model::texts(list@),
            entry_texts(bundled@),
            bundled@.len() as int,
        ),
{
    let ghost start = crate::model::texts(list@);
    let ghost more = entry_texts(bundled@);
    let mut i: usize = 0;
    while i < bundled.len()
        invariant
            i <= bundled.len(),
            more == entry_texts(bundled@),
            crate::model::texts(list@) == with_bundled(start, more, i as int),
        decreases bundled.len() - i,
    {
        let family = bundled[i].family.as_str();
        let mut known = false;
        let mut k: usize = 0;
        while k < list.len() && !known
            invariant
                k <= list.len(),
                i < bundled.len(),
                family@ == bundled@[i as int].family@,
                known ==> names_family(crate::model::texts(list@), family@),
                !known ==> forall|j: int|
                    0 <= j < k ==> !crate::logging::same_letters(
                        #[trigger] crate::model::texts(list@)[j],
                        family@,
                    ),
            decreases list.len() - k,
        {
            if same_family(list[k].as_str(), family) {
                known = true;
                assert(crate::logging::same_letters(
                    crate::model::texts(list@)[k as int],
                    family@,
                ));
            }
            k = k + 1;
        }
        let ghost before = crate::model::texts(list@);
        assert(more[i as int].0 == family@);
        if !known {
            list.push(crate::text::owned(family));
            proof {
                assert(crate::model::texts(list@) =~= before.push(family@));
            }
        }
        i = i + 1;
    }
    list
}

} // verus!
