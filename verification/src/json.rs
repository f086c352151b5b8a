//! The JSON writer behind the specs that cross into a page: string literals and the law that a
//! reader gets the very same text back out of one.
use crate::text::digit;
use vstd::prelude::*;

verus! {

/// The lower-case hexadecimal digit of a number below sixteen.
pub open spec fn hex_digit(d: nat) -> char {
    if d < 10 {
        digit(d)
    } else if d == 10 {
        'a'
    } else if d == 11 {
        'b'
    } else if d == 12 {
        'c'
    } else if d == 13 {
        'd'
    } else if d == 14 {
        'e'
    } else {
        'f'
    }
}

/// The number a lower-case hexadecimal digit stands for.
pub open spec fn hex_value(c: char) -> nat {
    if '0' <= c <= '9' {
        (c as nat - '0' as nat) as nat
    } else {
        (c as nat - 'a' as nat + 10) as nat
    }
}

/// What one character becomes inside a JSON string literal.
pub open spec fn escaped(c: char) -> Seq<char> {
    if c == '"' {
        seq!['\\', '"']
    } else if c == '\\' {
        seq!['\\', '\\']
    } else if c == '\n' {
        seq!['\\', 'n']
    } else if c == '\r' {
        seq!['\\', 'r']
    } else if c == '\t' {
        seq!['\\', 't']
    } else if (c as u32) < 0x20 {
        seq!['\\', 'u', '0', '0', hex_digit(c as nat / 16), hex_digit(c as nat % 16)]
    } else {
        seq![c]
    }
}

/// The characters of `v`, each as it stands inside a JSON string literal.
pub open spec fn escaped_text(v: Seq<char>) -> Seq<char>
    decreases v.len(),
{
    if v.len() == 0 {
        Seq::empty()
    } else {
        escaped_text(v.drop_last()) + escaped(v.last())
    }
}

/// `v` as a JSON string literal.
pub open spec fn json_string(v: Seq<char>) -> Seq<char> {
    seq!['"'] + escaped_text(v) + seq!['"']
}

/// Reads the inside of a JSON string literal up to its closing quote: the text it stands for
/// and what follows the quote. `None` where `t` is not the rest of such a literal.
pub open spec fn read_escaped(t: Seq<char>) -> Option<(Seq<char>, Seq<char>)>
    decreases t.len(),
{
    if t.len() == 0 {
        None
    } else if t[0] == '"' {
        Some((Seq::empty(), t.skip(1)))
    } else if (t[0] as u32) < 0x20 {
        None
    } else if t[0] != '\\' {
        prefixed(t[0], read_escaped(t.skip(1)))
    } else if t.len() < 2 {
        None
    } else if t[1] == '"' || t[1] == '\\' {
        prefixed(t[1], read_escaped(t.skip(2)))
    } else if t[1] == 'n' {
        prefixed('\n', read_escaped(t.skip(2)))
    } else if t[1] == 'r' {
        prefixed('\r', read_escaped(t.skip(2)))
    } else if t[1] == 't' {
        prefixed('\t', read_escaped(t.skip(2)))
    } else if t[1] == 'u' && t.len() >= 6 {
        prefixed(
            (hex_value(t[2]) * 4096 + hex_value(t[3]) * 256 + hex_value(t[4]) * 16 + hex_value(
                t[5],
            )) as char,
            read_escaped(t.skip(6)),
        )
    } else {
        None
    }
}

/// A reading with one more character in front of its text.
pub open spec fn prefixed(c: char, r: Option<(Seq<char>, Seq<char>)>) -> Option<
    (Seq<char>, Seq<char>),
> {
    match r {
        Some((text, rest)) => Some((seq![c] + text, rest)),
        None => None,
    }
}

/// Reads one JSON string literal off the front of `t`.
pub open spec fn read_json_string(t: Seq<char>) -> Option<(Seq<char>, Seq<char>)> {
    if t.len() > 0 && t[0] == '"' {
        read_escaped(t.skip(1))
    } else {
        None
    }
}

/// Escaping goes character by character, so it may be split anywhere.
proof fn escaped_text_front(v: Seq<char>)
    requires
        v.len() > 0,
    ensures
        escaped_text(v) == escaped(v[0]) + escaped_text(v.skip(1)),
    decreases v.len(),
{
    if v.len() == 1 {
        assert(v.drop_last() =~= Seq::<char>::empty());
        assert(v.skip(1) =~= Seq::<char>::empty());
        assert(escaped_text(v) =~= escaped(v[0]) + escaped_text(v.skip(1)));
    } else {
        escaped_text_front(v.drop_last());
        assert(v.drop_last().skip(1) =~= v.skip(1).drop_last());
        assert(v.skip(1).last() == v.last());
        assert(escaped_text(v) =~= escaped(v[0]) + escaped_text(v.skip(1)));
    }
}

proof fn escaped_char_reads_back(c: char, tail: Seq<char>)
    ensures
        read_escaped(escaped(c) + tail) == prefixed(c, read_escaped(tail)),
{
    let t = escaped(c) + tail;
    if c == '"' || c == '\\' || c == '\n' || c == '\r' || c == '\t' {
        assert(t.skip(2) =~= tail);
    } else if (c as u32) < 0x20 {
        assert(t.skip(6) =~= tail);
        let n = c as nat;
        assert(n / 16 < 2);
        assert(hex_value(hex_digit(n / 16)) == n / 16);
        assert(hex_value(hex_digit(n % 16)) == n % 16);
        assert(hex_value('0') == 0);
    } else {
        assert(t.skip(1) =~= tail);
    }
}

proof fn escaped_text_reads_back(v: Seq<char>, rest: Seq<char>)
    ensures
        read_escaped(escaped_text(v) + seq!['"'] + rest) == Some((v, rest)),
    decreases v.len(),
{
    let t = escaped_text(v) + seq!['"'] + rest;
    if v.len() == 0 {
        assert(t =~= seq!['"'] + rest);
        assert(t.skip(1) =~= rest);
        assert(v =~= Seq::<char>::empty());
    } else {
        let tail = escaped_text(v.skip(1)) + seq!['"'] + rest;
        escaped_text_front(v);
        assert(t =~= escaped(v[0]) + tail);
        escaped_text_reads_back(v.skip(1), rest);
        escaped_char_reads_back(v[0], tail);
        assert(seq![v[0]] + v.skip(1) =~= v);
    }
}

/// A JSON string literal reads back as the text it was written from, whatever follows it: no
/// text closes its own literal early or swallows what comes after.
pub proof fn json_string_reads_back(v: Seq<char>, rest: Seq<char>)
    ensures
        read_json_string(json_string(v) + rest) == Some((v, rest)),
{
    let t = json_string(v) + rest;
    assert(t.skip(1) =~= escaped_text(v) + seq!['"'] + rest);
    escaped_text_reads_back(v, rest);
}

/// Different texts make different literals.
pub proof fn json_string_is_injective(a: Seq<char>, b: Seq<char>)
    requires
        json_string(a) == json_string(b),
    ensures
        a == b,
{
    json_string_reads_back(a, Seq::empty());
    json_string_reads_back(b, Seq::empty());
}

pub fn hex_char(d: u32) -> (c: char)
    requires
        d < 16,
    ensures
        c == hex_digit(d as nat),
{
    match d {
        0 => '0',
        1 => '1',
        2 => '2',
        3 => '3',
        4 => '4',
        5 => '5',
        6 => '6',
        7 => '7',
        8 => '8',
        9 => '9',
        10 => 'a',
        11 => 'b',
        12 => 'c',
        13 => 'd',
        14 => 'e',
        _ => 'f',
    }
}

/// Writes `v` as a JSON string literal at the end of `out`.
pub fn json_str(out: &mut String, v: &str)
    ensures
        final(out)@ == old(out)@ + json_string(v@),
{
    out.push('"');
    for c in it: v.chars()
        invariant
            it.seq() == v@,
            out@ == old(out)@ + seq!['"'] + escaped_text(v@.take(it.index())),
    {
        let ghost before = v@.take(it.index());
        let ghost so_far = out@;
        proof {
            vstd::utf8::char_is_scalar(c);
        }
        if c == '"' || c == '\\' {
            out.push('\\');
            out.push(c);
        } else if c == '\n' {
            out.push('\\');
            out.push('n');
        } else if c == '\r' {
            out.push('\\');
            out.push('r');
        } else if c == '\t' {
            out.push('\\');
            out.push('t');
        } else if (c as u32) < 0x20 {
            out.push('\\');
            out.push('u');
            out.push('0');
            out.push('0');
            proof {
                vstd::utf8::char_u32_cast(c, c as u32);
            }
            out.push(hex_char((c as u32) / 16));
            out.push(hex_char((c as u32) % 16));
        } else {
            out.push(c);
        }
        proof {
            assert(out@ =~= so_far + escaped(c));
            assert(v@.take(it.index() + 1).drop_last() =~= before);
            assert(out@ =~= old(out)@ + seq!['"'] + escaped_text(v@.take(it.index() + 1)));
        }
    }
    assert(v@.take(v@.len() as int) =~= v@);
    out.push('"');
    proof {
        assert(out@ =~= old(out)@ + json_string(v@));
    }
}

/// `true` or `false`, as JSON spells them.
pub open spec fn json_bool(b: bool) -> Seq<char> {
    if b {
        "true"@
    } else {
        "false"@
    }
}

pub fn push_bool(out: &mut String, b: bool)
    ensures
        final(out)@ == old(out)@ + json_bool(b),
{
    if b {
        out.append("true");
    } else {
        out.append("false");
    }
}

} // verus!
