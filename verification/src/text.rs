//! Strings as sequences of characters: the few builders that every backend's text goes through.
use crate::model::texts;
use vstd::prelude::*;

verus! {

/// `String::push` of std: the character goes to the end of the string.
pub assume_specification[ String::push ](s: &mut String, c: char)
    ensures
        final(s)@ == old(s)@.push(c),
;

/// The decimal digit of a number below ten.
pub open spec fn digit(d: nat) -> char {
    if d == 0 {
        '0'
    } else if d == 1 {
        '1'
    } else if d == 2 {
        '2'
    } else if d == 3 {
        '3'
    } else if d == 4 {
        '4'
    } else if d == 5 {
        '5'
    } else if d == 6 {
        '6'
    } else if d == 7 {
        '7'
    } else if d == 8 {
        '8'
    } else {
        '9'
    }
}

/// The number a decimal digit stands for.
pub open spec fn digit_value(c: char) -> nat {
    (c as nat - '0' as nat) as nat
}

/// A natural number in decimal, without leading zeros.
pub open spec fn decimal(n: nat) -> Seq<char>
    decreases n,
{
    if n < 10 {
        seq![digit(n)]
    } else {
        decimal(n / 10).push(digit(n % 10))
    }
}

/// The number that a row of decimal digits stands for.
pub open spec fn decimal_value(s: Seq<char>) -> nat
    decreases s.len(),
{
    if s.len() == 0 {
        0
    } else {
        decimal_value(s.drop_last()) * 10 + digit_value(s.last())
    }
}

/// An integer in decimal, with a minus sign in front where it is negative.
pub open spec fn signed_decimal(i: int) -> Seq<char> {
    if i < 0 {
        seq!['-'] + decimal((-i) as nat)
    } else {
        decimal(i as nat)
    }
}

/// Reading a number's decimal digits back gives the number.
pub proof fn decimal_reads_back(n: nat)
    ensures
        decimal_value(decimal(n)) == n,
        decimal(n).len() >= 1,
        forall|i: int| 0 <= i < decimal(n).len() ==> '0' <= #[trigger] decimal(n)[i] <= '9',
    decreases n,
{
    if n < 10 {
        assert(decimal(n).drop_last() =~= Seq::<char>::empty());
        assert(decimal_value(decimal(n).drop_last()) == 0);
    } else {
        decimal_reads_back(n / 10);
        assert(decimal(n).drop_last() =~= decimal(n / 10));
    }
}

/// Two numbers with the same digits are the same number.
pub proof fn decimal_is_injective(a: nat, b: nat)
    requires
        decimal(a) == decimal(b),
    ensures
        a == b,
{
    decimal_reads_back(a);
    decimal_reads_back(b);
}

fn digit_char(d: u64) -> (c: char)
    requires
        d < 10,
    ensures
        c == digit(d as nat),
{
    match d {
        0 => '0',
        1 => '1',
        2 => '2',
        3 => '3',
        4 => '4',
        5 => '5',
        6 => '6',
        7 => '7',
        8 => '8',
        _ => '9',
    }
}

/// Writes a number in decimal at the end of `out`.
pub fn push_decimal(out: &mut String, n: u64)
    ensures
        final(out)@ == old(out)@ + decimal(n as nat),
    decreases n,
{
    if n >= 10 {
        push_decimal(out, n / 10);
    }
    out.push(digit_char(n % 10));
    proof {
        assert(out@ =~= old(out)@ + decimal(n as nat));
    }
}

/// Writes an integer in decimal at the end of `out`.
pub fn push_signed(out: &mut String, i: i64)
    ensures
        final(out)@ == old(out)@ + signed_decimal(i as int),
{
    if i < 0 {
        out.push('-');
        if i == i64::MIN {
            push_decimal(out, 9223372036854775808);
        } else {
            push_decimal(out, (-i) as u64);
        }
        proof {
            assert(out@ =~= old(out)@ + signed_decimal(i as int));
        }
    } else {
        push_decimal(out, i as u64);
    }
}

/// A string of its own with the text of `s`.
pub fn owned(s: &str) -> (t: String)
    ensures
        t@ == s@,
{
    s.to_owned()
}

/// Whether two texts are the same.
pub fn same(a: &str, b: &str) -> (r: bool)
    ensures
        r == (a@ == b@),
{
    let (a, b): (String, String) = (a.to_owned(), b.to_owned());
    a.eq(&b)
}

/// Two texts, one after the other.
pub fn cat2(a: &str, b: &str) -> (t: String)
    ensures
        t@ == a@ + b@,
{
    let mut t = a.to_owned();
    t.append(b);
    t
}

/// Three texts, one after the other.
pub fn cat3(a: &str, b: &str, c: &str) -> (t: String)
    ensures
        t@ == a@ + b@ + c@,
{
    let mut t = a.to_owned();
    t.append(b);
    t.append(c);
    t
}

/// A number in decimal, as a string.
pub fn decimal_of(n: u64) -> (t: String)
    ensures
        t@ == decimal(n as nat),
{
    let mut t = String::new();
    push_decimal(&mut t, n);
    assert(t@ =~= decimal(n as nat));
    t
}

/// The characters of a string, one by one.
pub fn chars_of(s: &str) -> (v: Vec<char>)
    ensures
        v@ == s@,
{
    let mut v: Vec<char> = Vec::new();
    for c in it: s.chars()
        invariant
            it.seq() == s@,
            v@ == s@.take(it.index()),
    {
        v.push(c);
        assert(v@ =~= s@.take(it.index() + 1));
    }
    assert(s@.take(s@.len() as int) =~= s@);
    v
}

/// The characters of `v` from `from` up to, not including, `to`, as a string.
pub fn text_of(v: &Vec<char>, from: usize, to: usize) -> (s: String)
    requires
        from <= to <= v.len(),
    ensures
        s@ == v@.subrange(from as int, to as int),
{
    let mut s = String::new();
    let mut i: usize = from;
    while i < to
        invariant
            from <= i <= to <= v.len(),
            s@ == v@.subrange(from as int, i as int),
        decreases to - i,
    {
        s.push(v[i]);
        i = i + 1;
        assert(s@ =~= v@.subrange(from as int, i as int));
    }
    s
}

/// The first place of `c` in `s` from the `i`-th character on.
pub open spec fn first_of(s: Seq<char>, c: char, i: int) -> Option<int>
    decreases s.len() - i,
{
    if i < 0 || i >= s.len() {
        None
    } else if s[i] == c {
        Some(i)
    } else {
        first_of(s, c, i + 1)
    }
}

/// The parts of a text between its separators; one more than it has separators.
pub open spec fn split(s: Seq<char>, c: char) -> Seq<Seq<char>>
    decreases s.len(),
{
    match first_of(s, c, 0) {
        Some(k) => if 0 <= k < s.len() {
            seq![s.take(k)] + split(s.skip(k + 1), c)
        } else {
            seq![s]
        },
        None => seq![s],
    }
}

/// Texts put together with a separator between them.
pub open spec fn join(parts: Seq<Seq<char>>, c: char) -> Seq<char>
    decreases parts.len(),
{
    if parts.len() == 0 {
        Seq::empty()
    } else if parts.len() == 1 {
        parts[0]
    } else {
        parts[0] + seq![c] + join(parts.skip(1), c)
    }
}

proof fn first_of_found(s: Seq<char>, c: char, i: int)
    requires
        0 <= i <= s.len(),
    ensures
        match first_of(s, c, i) {
            Some(k) => i <= k < s.len() && s[k] == c && forall|j: int| i <= j < k ==> s[j] != c,
            None => forall|j: int| i <= j < s.len() ==> s[j] != c,
        },
    decreases s.len() - i,
{
    if i < s.len() && s[i] != c {
        first_of_found(s, c, i + 1);
    }
}

/// A text is its parts put together again, and no part holds a separator.
pub proof fn splitting_loses_nothing(s: Seq<char>, c: char)
    ensures
        split(s, c).len() >= 1,
        join(split(s, c), c) == s,
        forall|i: int, j: int|
            0 <= i < split(s, c).len() && 0 <= j < split(s, c)[i].len() ==> split(s, c)[i][j] != c,
    decreases s.len(),
{
    first_of_found(s, c, 0);
    match first_of(s, c, 0) {
        Some(k) => {
            let rest = s.skip(k + 1);
            splitting_loses_nothing(rest, c);
            let parts = split(s, c);
            assert(parts.skip(1) =~= split(rest, c));
            assert(join(parts, c) =~= s);
            assert forall|i: int, j: int|
                0 <= i < parts.len() && 0 <= j < parts[i].len() implies parts[i][j] != c by {
                if i > 0 {
                    assert(parts[i] == split(rest, c)[i - 1]);
                }
            }
        },
        None => {},
    }
}

/// Texts put together with a separator between them.
pub fn join_with(parts: &Vec<String>, c: char) -> (t: String)
    ensures
        t@ == join(texts(parts@), c),
{
    if parts.len() == 0 {
        return String::new();
    }
    let ghost all = texts(parts@);
    let mut t = owned(parts[0].as_str());
    let mut i: usize = 1;
    while i < parts.len()
        invariant
            1 <= i <= parts.len(),
            all == texts(parts@),
            i < parts.len() ==> t@ + seq![c] + join(all.skip(i as int), c) == join(all, c),
            i == parts.len() ==> t@ == join(all, c),
        decreases parts.len() - i,
    {
        let ghost before = t@;
        let ghost rest = all.skip(i as int);
        t.push(c);
        t.append(parts[i].as_str());
        proof {
            assert(rest[0] == parts@[i as int]@);
            assert(rest.skip(1) =~= all.skip(i + 1));
            if i + 1 < parts.len() {
                assert(t@ + seq![c] + join(all.skip(i + 1), c) =~= before + seq![c] + join(rest, c));
            } else {
                assert(t@ =~= before + seq![c] + join(rest, c));
            }
        }
        i = i + 1;
    }
    t
}

/// The parts of a text between its separators.
pub fn split_on(s: &str, c: char) -> (out: Vec<String>)
    ensures
        out@.len() == split(s@, c).len(),
        forall|i: int| 0 <= i < out@.len() ==> (#[trigger] out@[i])@ == split(s@, c)[i],
{
    let v = chars_of(s);
    let mut out: Vec<String> = Vec::new();
    let mut from: usize = 0;
    let mut i: usize = 0;
    let ghost all = split(s@, c);
    proof {
        assert(s@.skip(0) =~= s@);
    }
    while i < v.len()
        invariant
            from <= i <= v.len(),
            v@ == s@,
            all == split(s@, c),
            forall|j: int| from <= j < i ==> s@[j] != c,
            out@.len() + split(s@.skip(from as int), c).len() == all.len(),
            forall|k: int| 0 <= k < out@.len() ==> (#[trigger] out@[k])@ == all[k],
            forall|k: int|
                0 <= k < split(s@.skip(from as int), c).len() ==> #[trigger] split(
                    s@.skip(from as int),
                    c,
                )[k] == all[out@.len() + k],
        decreases v.len() - i,
    {
        if v[i] == c {
            let part = text_of(&v, from, i);
            proof {
                let rest = s@.skip(from as int);
                first_of_found(rest, c, 0);
                assert(rest[i - from] == c);
                let k = first_of(rest, c, 0)->0;
                if k < i - from {
                    assert(rest[k] == s@[from + k]);
                }
                assert(k == i - from);
                assert(part@ =~= rest.take(k));
                assert(rest.skip(k + 1) =~= s@.skip(i + 1));
                let next = split(s@.skip(i + 1), c);
                assert(split(rest, c)[0] == part@);
                assert forall|m: int| 0 <= m < next.len() implies #[trigger] next[m]
                    == all[out@.len() + 1 + m] by {
                    assert(split(rest, c)[m + 1] == next[m]);
                }
            }
            out.push(part);
            from = i + 1;
        }
        i = i + 1;
    }
    let part = text_of(&v, from, v.len());
    proof {
        let rest = s@.skip(from as int);
        first_of_found(rest, c, 0);
        assert(first_of(rest, c, 0) is None) by {
            match first_of(rest, c, 0) {
                Some(k) => {
                    assert(rest[k] == s@[from + k]);
                },
                None => {},
            }
        }
        assert(part@ =~= rest);
        assert(split(rest, c) =~= seq![rest]);
        assert(split(rest, c)[0] == all[out@.len() as int]);
    }
    out.push(part);
    out
}

/// The place behind the last of two separators in the first `n` characters.
pub open spec fn behind_last(s: Seq<char>, a: char, b: char, n: int) -> int
    decreases n,
{
    if n <= 0 || n > s.len() {
        0
    } else if s[n - 1] == a || s[n - 1] == b {
        n
    } else {
        behind_last(s, a, b, n - 1)
    }
}

/// What stands behind the last of two separators: the whole text where it has neither.
pub open spec fn last_part(s: Seq<char>, a: char, b: char) -> Seq<char> {
    s.skip(behind_last(s, a, b, s.len() as int))
}

/// The last part holds no separator, and the text ends in it.
pub proof fn the_last_part_has_no_separator(s: Seq<char>, a: char, b: char, n: int)
    requires
        0 <= n <= s.len(),
    ensures
        0 <= behind_last(s, a, b, n) <= n,
        forall|j: int| behind_last(s, a, b, n) <= j < n ==> s[j] != a && s[j] != b,
    decreases n,
{
    if n > 0 && s[n - 1] != a && s[n - 1] != b {
        the_last_part_has_no_separator(s, a, b, n - 1);
    }
}

/// What stands behind the last of two separators.
pub fn last_part_of(s: &str, a: char, b: char) -> (t: String)
    ensures
        t@ == last_part(s@, a, b),
{
    let v = chars_of(s);
    let mut n: usize = v.len();
    while n > 0 && v[n - 1] != a && v[n - 1] != b
        invariant
            n <= v.len(),
            v@ == s@,
            behind_last(s@, a, b, s@.len() as int) == behind_last(s@, a, b, n as int),
        decreases n,
    {
        n = n - 1;
    }
    let t = text_of(&v, n, v.len());
    assert(t@ =~= s@.skip(n as int));
    t
}

/// What `String::from_utf8_lossy` makes of bytes.
pub uninterp spec fn lossy_utf8(bytes: Seq<u8>) -> Seq<char>;

/// `String::from_utf8_lossy` of std: the bytes as text. Bytes that are UTF-8 give the text they
/// encode; what others give is a matter of the bytes alone.
#[verifier::external_body]
fn from_utf8_lossy(bytes: &Vec<u8>) -> (t: String)
    ensures
        t@ == lossy_utf8(bytes@),
        vstd::utf8::valid_utf8(bytes@) ==> t@ == vstd::utf8::decode_utf8(bytes@),
{
    String::from_utf8_lossy(bytes).into_owned()
}

/// Bytes from the platform as text.
pub fn text_of_bytes(bytes: &Vec<u8>) -> (t: String)
    ensures
        t@ == lossy_utf8(bytes@),
        vstd::utf8::valid_utf8(bytes@) ==> t@ == vstd::utf8::decode_utf8(bytes@),
{
    from_utf8_lossy(bytes)
}

/// The number that a text of digits alone stands for.
pub open spec fn digits_value(s: Seq<char>) -> Option<nat> {
    if s.len() > 0 && forall|i: int| 0 <= i < s.len() ==> '0' <= #[trigger] s[i] <= '9' {
        Some(decimal_value(s))
    } else {
        None
    }
}

/// The number that a text stands for: digits, with a plus in front or without.
pub open spec fn parsed(s: Seq<char>) -> Option<nat> {
    if s.len() > 0 && s[0] == '+' {
        digits_value(s.skip(1))
    } else {
        digits_value(s)
    }
}

/// The number of up to 64 bits that a text stands for.
pub open spec fn parsed_u64(s: Seq<char>) -> Option<u64> {
    match parsed(s) {
        Some(n) => if n <= u64::MAX {
            Some(n as u64)
        } else {
            None
        },
        None => None,
    }
}

/// What is written as a decimal number is read as that number.
pub proof fn a_number_reads_back(n: u64)
    ensures
        parsed_u64(decimal(n as nat)) == Some(n),
{
    decimal_reads_back(n as nat);
    decimal_is_digits(n as nat);
    let s = decimal(n as nat);
    assert('0' <= s[0] <= '9');
}

/// A decimal number starts with a digit.
pub proof fn decimal_starts_with_a_digit(n: nat)
    ensures
        decimal(n).len() > 0,
        '0' <= decimal(n)[0] <= '9',
{
    decimal_is_digits(n);
    let s = decimal(n);
    assert('0' <= s[0] <= '9');
}

proof fn decimal_is_digits(n: nat)
    ensures
        decimal(n).len() > 0,
        forall|i: int| 0 <= i < decimal(n).len() ==> '0' <= #[trigger] decimal(n)[i] <= '9',
    decreases n,
{
    if n >= 10 {
        decimal_is_digits(n / 10);
    }
}

fn value_of_digit(c: char) -> (d: u64)
    requires
        '0' <= c <= '9',
    ensures
        d == digit_value(c),
        d < 10,
{
    match c {
        '0' => 0,
        '1' => 1,
        '2' => 2,
        '3' => 3,
        '4' => 4,
        '5' => 5,
        '6' => 6,
        '7' => 7,
        '8' => 8,
        _ => 9,
    }
}

/// Reads a number.
pub fn parse_u64(s: &str) -> (r: Option<u64>)
    ensures
        r == parsed_u64(s@),
{
    let v = chars_of(s);
    let from: usize = if v.len() > 0 && v[0] == '+' {
        1
    } else {
        0
    };
    let ghost t = s@.skip(from as int);
    proof {
        assert(from == 0 ==> t =~= s@);
    }
    if v.len() == from {
        return None;
    }
    let mut n: u64 = 0;
    let mut i: usize = from;
    proof {
        assert(t.take(0) =~= Seq::<char>::empty());
    }
    let mut large: bool = false;
    while i < v.len()
        invariant
            from <= i <= v.len(),
            v@ == s@,
            t == s@.skip(from as int),
            from <= 1,
            from == 1 <==> (s@.len() > 0 && s@[0] == '+'),
            s@.len() > from,
            forall|k: int| 0 <= k < i - from ==> '0' <= #[trigger] t[k] <= '9',
            large ==> decimal_value(t.take(i - from)) > u64::MAX,
            !large ==> n == decimal_value(t.take(i - from)),
        decreases v.len() - i,
    {
        let c = v[i];
        proof {
            assert(t[i - from] == c);
            assert(t.take(i + 1 - from).drop_last() =~= t.take(i - from));
            assert(t.take(i + 1 - from).last() == c);
        }
        if !('0' <= c && c <= '9') {
            return None;
        }
        let d: u64 = value_of_digit(c);
        if !large {
            if n > (u64::MAX - d) / 10 {
                large = true;
            } else {
                n = n * 10 + d;
            }
        }
        i = i + 1;
    }
    proof {
        assert(t.take(i - from) =~= t);
    }
    if large {
        None
    } else {
        Some(n)
    }
}

} // verus!
