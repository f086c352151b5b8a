//! A JSON reader, for saying what a page finds in the texts that are written for it: values, lists
//! and objects by their fields. What is written value by value reads back as those values.
use crate::json::{json_string, json_string_reads_back, read_json_string};
use crate::text::{decimal, decimal_reads_back, decimal_value, signed_decimal};
use vstd::prelude::*;

verus! {

/// A value in JSON.
#[verifier::ext_equal]
pub ghost enum Json {
    Bool(bool),
    Number(int),
    Text(Seq<char>),
    List(Seq<Json>),
    Object(Seq<(Seq<char>, Json)>),
}

// ---- reading -----------------------------------------------------------------------------------

/// How many digits a text starts with.
pub open spec fn digits(t: Seq<char>) -> nat
    decreases t.len(),
{
    if t.len() > 0 && '0' <= t[0] <= '9' {
        1 + digits(t.skip(1))
    } else {
        0
    }
}

/// Reads a whole number off the front of a text.
pub open spec fn read_number(t: Seq<char>) -> Option<(Json, Seq<char>)> {
    let below = t.len() > 0 && t[0] == '-';
    let u = if below {
        t.skip(1)
    } else {
        t
    };
    let n = digits(u) as int;
    if n == 0 {
        None
    } else {
        let size = decimal_value(u.take(n)) as int;
        Some(
            (
                Json::Number(
                    if below {
                        -size
                    } else {
                        size
                    },
                ),
                u.skip(n),
            ),
        )
    }
}

/// Reads a value off the front of a text: the value and what follows it.
pub open spec fn read_value(t: Seq<char>) -> Option<(Json, Seq<char>)>
    decreases t.len(), 0int,
{
    if t.len() == 0 {
        None
    } else if t[0] == '"' {
        match read_json_string(t) {
            Some((text, rest)) => Some((Json::Text(text), rest)),
            None => None,
        }
    } else if t[0] == '[' {
        if t.len() > 1 && t[1] == ']' {
            Some((Json::List(Seq::empty()), t.skip(2)))
        } else {
            match read_items(t.skip(1)) {
                Some((items, rest)) => Some((Json::List(items), rest)),
                None => None,
            }
        }
    } else if t[0] == '{' {
        if t.len() > 1 && t[1] == '}' {
            Some((Json::Object(Seq::empty()), t.skip(2)))
        } else {
            match read_members(t.skip(1)) {
                Some((members, rest)) => Some((Json::Object(members), rest)),
                None => None,
            }
        }
    } else if t.len() >= 4 && t.take(4) == seq!['t', 'r', 'u', 'e'] {
        Some((Json::Bool(true), t.skip(4)))
    } else if t.len() >= 5 && t.take(5) == seq!['f', 'a', 'l', 's', 'e'] {
        Some((Json::Bool(false), t.skip(5)))
    } else {
        read_number(t)
    }
}

/// Reads the values of a list up to its closing bracket.
pub open spec fn read_items(t: Seq<char>) -> Option<(Seq<Json>, Seq<char>)>
    decreases t.len(), 1int,
{
    match read_value(t) {
        Some((value, r)) => if r.len() == 0 || r.len() >= t.len() {
            None
        } else if r[0] == ',' {
            match read_items(r.skip(1)) {
                Some((more, rest)) => Some((seq![value] + more, rest)),
                None => None,
            }
        } else if r[0] == ']' {
            Some((seq![value], r.skip(1)))
        } else {
            None
        },
        None => None,
    }
}

/// Reads the fields of an object up to its closing brace.
pub open spec fn read_members(t: Seq<char>) -> Option<(Seq<(Seq<char>, Json)>, Seq<char>)>
    decreases t.len(), 1int,
{
    match read_json_string(t) {
        Some((key, k)) => if k.len() == 0 || k.len() >= t.len() || k[0] != ':' {
            None
        } else {
            match read_value(k.skip(1)) {
                Some((value, r)) => if r.len() == 0 || r.len() >= t.len() {
                    None
                } else if r[0] == ',' {
                    match read_members(r.skip(1)) {
                        Some((more, rest)) => Some((seq![(key, value)] + more, rest)),
                        None => None,
                    }
                } else if r[0] == '}' {
                    Some((seq![(key, value)], r.skip(1)))
                } else {
                    None
                },
                None => None,
            }
        },
        None => None,
    }
}

/// The value that a whole text is.
pub open spec fn read_json(t: Seq<char>) -> Option<Json> {
    match read_value(t) {
        Some((value, rest)) => if rest.len() == 0 {
            Some(value)
        } else {
            None
        },
        None => None,
    }
}

/// What an object's fields say under a name: the first of that name.
pub open spec fn said(fields: Seq<(Seq<char>, Json)>, name: Seq<char>) -> Option<Json>
    decreases fields.len(),
{
    if fields.len() == 0 {
        None
    } else {
        let before = said(fields.drop_last(), name);
        if before is Some {
            before
        } else if fields.last().0 == name {
            Some(fields.last().1)
        } else {
            None
        }
    }
}

/// What a value says under a name; anything but an object says nothing.
pub open spec fn says(value: Json, name: Seq<char>) -> Option<Json> {
    match value {
        Json::Object(fields) => said(fields, name),
        _ => None,
    }
}

/// A field more is found by its name, behind those that were there, and changes no other.
pub proof fn one_more_field(fields: Seq<(Seq<char>, Json)>, name: Seq<char>, value: Json)
    ensures
        forall|q: Seq<char>| #[trigger]
            said(fields.push((name, value)), q) == if said(fields, q) is Some {
                said(fields, q)
            } else if q == name {
                Some(value)
            } else {
                None
            },
{
    assert(fields.push((name, value)).drop_last() =~= fields);
}

/// No field says nothing.
pub proof fn no_field()
    ensures
        forall|q: Seq<char>| #[trigger] said(Seq::<(Seq<char>, Json)>::empty(), q) is None,
{
}

// ---- writing -----------------------------------------------------------------------------------

/// A value written out.
pub open spec fn written(j: Json) -> Seq<char>
    decreases j, 0int,
{
    match j {
        Json::Bool(b) => if b {
            seq!['t', 'r', 'u', 'e']
        } else {
            seq!['f', 'a', 'l', 's', 'e']
        },
        Json::Number(n) => signed_decimal(n),
        Json::Text(text) => json_string(text),
        Json::List(items) => seq!['['] + items_text(items, 0) + seq![']'],
        Json::Object(fields) => seq!['{'] + fields_text(fields, 0) + seq!['}'],
    }
}

/// The values from the `i`-th on, with commas between them.
pub open spec fn items_text(items: Seq<Json>, i: int) -> Seq<char>
    decreases items, items.len() - i,
{
    if i < 0 || i >= items.len() {
        Seq::empty()
    } else if i == items.len() - 1 {
        written(items[i])
    } else {
        written(items[i]) + seq![','] + items_text(items, i + 1)
    }
}

/// A field's name, as it stands in front of its value.
pub open spec fn key(name: Seq<char>) -> Seq<char> {
    json_string(name) + seq![':']
}

/// The fields from the `i`-th on, with commas between them.
pub open spec fn fields_text(fields: Seq<(Seq<char>, Json)>, i: int) -> Seq<char>
    decreases fields, fields.len() - i,
{
    if i < 0 || i >= fields.len() {
        Seq::empty()
    } else if i == fields.len() - 1 {
        key(fields[i].0) + written(fields[i].1)
    } else {
        key(fields[i].0) + written(fields[i].1) + seq![','] + fields_text(fields, i + 1)
    }
}

/// One more value at the end of a list stands behind a comma, where there are others.
pub proof fn one_more_item(items: Seq<Json>, j: Json, i: int)
    requires
        0 <= i <= items.len(),
    ensures
        items_text(items.push(j), i) == if i < items.len() {
            items_text(items, i) + seq![','] + written(j)
        } else {
            written(j)
        },
    decreases items.len() - i,
{
    let more = items.push(j);
    if i < items.len() {
        one_more_item(items, j, i + 1);
        assert(more[i] == items[i]);
        if i == items.len() - 1 {
            assert(items_text(more, i) =~= written(items[i]) + seq![','] + items_text(more, i + 1));
        } else {
            assert(items_text(more, i) =~= items_text(items, i) + seq![','] + written(j));
        }
    } else {
        assert(more[i] == j);
    }
}

proof fn one_more_text(fields: Seq<(Seq<char>, Json)>, name: Seq<char>, value: Json, i: int)
    requires
        0 <= i <= fields.len(),
    ensures
        fields_text(fields.push((name, value)), i) == if i < fields.len() {
            fields_text(fields, i) + seq![','] + (key(name) + written(value))
        } else {
            key(name) + written(value)
        },
    decreases fields.len() - i,
{
    let more = fields.push((name, value));
    if i < fields.len() {
        one_more_text(fields, name, value, i + 1);
        assert(more[i] == fields[i]);
        if i == fields.len() - 1 {
            assert(fields_text(more, i) =~= fields_text(fields, i) + seq![','] + fields_text(
                more,
                i + 1,
            ));
        } else {
            assert(fields_text(more, i) =~= fields_text(fields, i) + seq![','] + (key(name)
                + written(value)));
        }
    } else {
        assert(more[i] == (name, value));
    }
}

/// An object's text as far as some fields.
pub open spec fn opened(fields: Seq<(Seq<char>, Json)>) -> Seq<char> {
    seq!['{'] + fields_text(fields, 0)
}

/// The first field of an object.
pub proof fn first_field(name: Seq<char>, value: Json, lead: Seq<char>)
    requires
        lead == seq!['{'] + key(name),
    ensures
        lead + written(value) == opened(seq![(name, value)]),
{
    let none = Seq::<(Seq<char>, Json)>::empty();
    one_more_text(none, name, value, 0);
    assert(none.push((name, value)) =~= seq![(name, value)]);
    assert(lead + written(value) =~= opened(seq![(name, value)]));
}

/// One more field of an object.
pub proof fn next_field(
    t: Seq<char>,
    fields: Seq<(Seq<char>, Json)>,
    name: Seq<char>,
    value: Json,
    lead: Seq<char>,
)
    requires
        t == opened(fields),
        fields.len() > 0,
        lead == seq![','] + key(name),
    ensures
        t + lead + written(value) == opened(fields.push((name, value))),
        t + (lead + written(value)) == opened(fields.push((name, value))),
{
    one_more_text(fields, name, value, 0);
    assert(t + lead + written(value) =~= opened(fields.push((name, value))));
    assert(t + (lead + written(value)) =~= opened(fields.push((name, value))));
}

// ---- what is written reads back ----------------------------------------------------------------

proof fn digits_of_decimal(s: Seq<char>, rest: Seq<char>)
    requires
        forall|i: int| 0 <= i < s.len() ==> '0' <= #[trigger] s[i] <= '9',
        rest.len() == 0 || !('0' <= rest[0] <= '9'),
    ensures
        digits(s + rest) == s.len(),
    decreases s.len(),
{
    if s.len() > 0 {
        digits_of_decimal(s.skip(1), rest);
        assert((s + rest).skip(1) =~= s.skip(1) + rest);
        assert((s + rest)[0] == s[0]);
    } else {
        assert(s + rest =~= rest);
    }
}

proof fn number_reads(n: int, rest: Seq<char>)
    requires
        rest.len() == 0 || !('0' <= rest[0] <= '9'),
    ensures
        read_number(signed_decimal(n) + rest) == Some((Json::Number(n), rest)),
{
    let t = signed_decimal(n) + rest;
    let size = if n < 0 {
        (-n) as nat
    } else {
        n as nat
    };
    let s = decimal(size);
    decimal_reads_back(size);
    digits_of_decimal(s, rest);
    assert('0' <= s[0] <= '9');
    let u = if n < 0 {
        t.skip(1)
    } else {
        t
    };
    assert(u =~= s + rest);
    assert(u.take(s.len() as int) =~= s);
    assert(u.skip(s.len() as int) =~= rest);
    if n < 0 {
        assert(t[0] == '-');
    } else {
        assert(t[0] == s[0]);
    }
}

/// How a value's text starts.
proof fn written_starts(j: Json)
    ensures
        written(j).len() > 0,
        written(j)[0] != ']',
        written(j)[0] != '}',
{
    match j {
        Json::Number(n) => {
            let size = if n < 0 {
                (-n) as nat
            } else {
                n as nat
            };
            decimal_reads_back(size);
            assert('0' <= decimal(size)[0] <= '9');
        },
        _ => {},
    }
}

proof fn bool_reads(b: bool, rest: Seq<char>)
    ensures
        read_value(written(Json::Bool(b)) + rest) == Some((Json::Bool(b), rest)),
{
    let t = written(Json::Bool(b)) + rest;
    if b {
        assert(t.take(4) =~= seq!['t', 'r', 'u', 'e']);
        assert(t.skip(4) =~= rest);
    } else {
        assert(t.take(5) =~= seq!['f', 'a', 'l', 's', 'e']);
        assert(t[0] == 'f');
        assert(t.take(4)[0] == 'f');
        assert(t.skip(5) =~= rest);
    }
}

proof fn whole_reads(n: int, rest: Seq<char>)
    requires
        rest.len() == 0 || !('0' <= rest[0] <= '9'),
    ensures
        read_value(written(Json::Number(n)) + rest) == Some((Json::Number(n), rest)),
{
    let t = written(Json::Number(n)) + rest;
    number_reads(n, rest);
    let size = if n < 0 {
        (-n) as nat
    } else {
        n as nat
    };
    decimal_reads_back(size);
    assert('0' <= decimal(size)[0] <= '9');
    assert(t[0] == signed_decimal(n)[0]);
    if t.len() >= 4 {
        assert(t.take(4)[0] == t[0]);
    }
    if t.len() >= 5 {
        assert(t.take(5)[0] == t[0]);
    }
}

proof fn list_reads(items: Seq<Json>, rest: Seq<char>)
    requires
        items.len() > 0 ==> read_items(items_text(items, 0) + seq![']'] + rest) == Some(
            (items, rest),
        ),
    ensures
        read_value(written(Json::List(items)) + rest) == Some((Json::List(items), rest)),
{
    let t = written(Json::List(items)) + rest;
    assert(t[0] == '[');
    if items.len() == 0 {
        assert(items =~= Seq::<Json>::empty());
        assert(t =~= seq!['[', ']'] + rest);
        assert(t.skip(2) =~= rest);
    } else {
        assert(t.skip(1) =~= items_text(items, 0) + seq![']'] + rest);
        written_starts(items[0]);
        assert(items_text(items, 0)[0] == written(items[0])[0]);
        assert(t[1] == written(items[0])[0]);
    }
}

proof fn object_reads(fields: Seq<(Seq<char>, Json)>, rest: Seq<char>)
    requires
        fields.len() > 0 ==> read_members(fields_text(fields, 0) + seq!['}'] + rest) == Some(
            (fields, rest),
        ),
    ensures
        read_value(written(Json::Object(fields)) + rest) == Some((Json::Object(fields), rest)),
{
    let t = written(Json::Object(fields)) + rest;
    assert(t[0] == '{');
    if fields.len() == 0 {
        assert(fields =~= Seq::<(Seq<char>, Json)>::empty());
        assert(t =~= seq!['{', '}'] + rest);
        assert(t.skip(2) =~= rest);
    } else {
        assert(t.skip(1) =~= fields_text(fields, 0) + seq!['}'] + rest);
        assert(fields_text(fields, 0)[0] == '"');
        assert(t[1] == '"');
    }
}

#[verifier::spinoff_prover]
#[verifier::rlimit(40)]
proof fn value_reads(j: Json, rest: Seq<char>)
    requires
        rest.len() == 0 || !('0' <= rest[0] <= '9'),
    ensures
        read_value(written(j) + rest) == Some((j, rest)),
    decreases j, 0int,
{
    match j {
        Json::Bool(b) => {
            bool_reads(b, rest);
        },
        Json::Number(n) => {
            whole_reads(n, rest);
        },
        Json::Text(text) => {
            json_string_reads_back(text, rest);
            assert((written(j) + rest)[0] == '"');
        },
        Json::List(items) => {
            if items.len() > 0 {
                items_read(items, 0, rest);
                assert(items.skip(0) =~= items);
            }
            list_reads(items, rest);
        },
        Json::Object(fields) => {
            if fields.len() > 0 {
                fields_read(fields, 0, rest);
                assert(fields.skip(0) =~= fields);
            }
            object_reads(fields, rest);
        },
    }
}

#[verifier::spinoff_prover]
#[verifier::rlimit(40)]
proof fn items_read(items: Seq<Json>, i: int, rest: Seq<char>)
    requires
        0 <= i < items.len(),
    ensures
        read_items(items_text(items, i) + seq![']'] + rest) == Some((items.skip(i), rest)),
    decreases items, items.len() - i,
{
    let t = items_text(items, i) + seq![']'] + rest;
    let w = written(items[i]);
    written_starts(items[i]);
    if i == items.len() - 1 {
        let r = seq![']'] + rest;
        assert(t =~= w + r);
        value_reads(items[i], r);
        assert(r.skip(1) =~= rest);
        assert(items.skip(i) =~= seq![items[i]]);
    } else {
        let more = items_text(items, i + 1) + seq![']'] + rest;
        let r = seq![','] + more;
        assert(t =~= w + r);
        value_reads(items[i], r);
        items_read(items, i + 1, rest);
        assert(r.skip(1) =~= more);
        assert(items.skip(i) =~= seq![items[i]] + items.skip(i + 1));
    }
}

#[verifier::spinoff_prover]
#[verifier::rlimit(40)]
proof fn fields_read(fields: Seq<(Seq<char>, Json)>, i: int, rest: Seq<char>)
    requires
        0 <= i < fields.len(),
    ensures
        read_members(fields_text(fields, i) + seq!['}'] + rest) == Some((fields.skip(i), rest)),
    decreases fields, fields.len() - i,
{
    let t = fields_text(fields, i) + seq!['}'] + rest;
    let (name, value) = fields[i];
    let w = written(value);
    written_starts(value);
    let r = if i == fields.len() - 1 {
        seq!['}'] + rest
    } else {
        seq![','] + (fields_text(fields, i + 1) + seq!['}'] + rest)
    };
    let k = seq![':'] + (w + r);
    assert(t =~= json_string(name) + k);
    json_string_reads_back(name, k);
    assert(k.skip(1) =~= w + r);
    value_reads(value, r);
    if i == fields.len() - 1 {
        assert(r.skip(1) =~= rest);
        assert(fields.skip(i) =~= seq![(name, value)]);
    } else {
        fields_read(fields, i + 1, rest);
        assert(r.skip(1) =~= fields_text(fields, i + 1) + seq!['}'] + rest);
        assert(fields.skip(i) =~= seq![(name, value)] + fields.skip(i + 1));
    }
}

/// What is written of a value is read as that value.
pub proof fn what_is_written_reads_back(j: Json)
    ensures
        read_json(written(j)) == Some(j),
{
    value_reads(j, Seq::empty());
    assert(written(j) + Seq::<char>::empty() =~= written(j));
}

/// An object whose text was put together field by field is read as those fields.
pub proof fn an_object_reads_back(fields: Seq<(Seq<char>, Json)>, t: Seq<char>)
    requires
        t == opened(fields) + seq!['}'],
    ensures
        t == written(Json::Object(fields)),
        read_json(t) == Some(Json::Object(fields)),
{
    assert(t =~= written(Json::Object(fields)));
    what_is_written_reads_back(Json::Object(fields));
}

/// A text of plain characters stands in a literal as it is.
pub proof fn plain_text(v: Seq<char>)
    requires
        forall|i: int|
            0 <= i < v.len() ==> (#[trigger] v[i]) != '"' && v[i] != '\\' && (v[i] as u32) >= 0x20,
    ensures
        crate::json::escaped_text(v) == v,
        json_string(v) == seq!['"'] + v + seq!['"'],
    decreases v.len(),
{
    if v.len() > 0 {
        plain_text(v.drop_last());
        assert(v =~= v.drop_last() + seq![v.last()]);
    } else {
        assert(v =~= Seq::<char>::empty());
    }
}

} // verus!
