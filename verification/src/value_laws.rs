//! What the plain values say: the whole part of a number, the level a name stands for, and where a
//! picture's name leads.
use crate::dom::css::listed;
use crate::dom::image::{extension, holds, image_source, outline_url, resolved, staged, stripped};
use crate::logging::{level_number, named_filter, same_letters, small, Level, LevelFilter};
use crate::num::{two_to, Num};
use vstd::arithmetic::div_mod::lemma_fundamental_div_mod;
use vstd::arithmetic::mul::lemma_mul_is_commutative;
use vstd::prelude::*;

verus! {

// ---- numbers -----------------------------------------------------------------------------------

proof fn two_to_is_positive(n: nat)
    ensures
        two_to(n) > 0,
    decreases n,
{
    if n > 0 {
        two_to_is_positive((n - 1) as nat);
    }
}

/// The whole part of a number below two to the fifty-second is the greatest integer that is not
/// above it: with the value as a significand over a power of two, the whole part times that power
/// is at most the significand, and one more times it is above. What is at least that large is
/// whole itself, and what is below one has no whole part.
pub proof fn the_whole_part_is_below_the_value(n: Num)
    ensures
        ({
            let e = n.magnitude() / 0x10_0000_0000_0000;
            let m = n.magnitude() % 0x10_0000_0000_0000 + 0x10_0000_0000_0000;
            let w = n.whole();
            &&& e < 1023 ==> w == 0
            &&& 1023 <= e < 1075 ==> w * two_to((1075 - e) as nat) <= m < (w + 1) * two_to(
                (1075 - e) as nat,
            )
            &&& e >= 1075 ==> w == m * two_to((e - 1075) as nat)
        }),
{
    let e = n.exponent();
    let m = n.significand() as int;
    if 1023 <= e < 1075 {
        let d = two_to((1075 - e) as nat) as int;
        two_to_is_positive((1075 - e) as nat);
        lemma_fundamental_div_mod(m, d);
        lemma_mul_is_commutative(d, m / d);
        assert((m / d + 1) * d == (m / d) * d + d) by (nonlinear_arith);
    }
}

/// A number cut to an unsigned integer is its whole part where that fits, the greatest integer
/// where it does not, and nothing where it is negative or no number.
pub proof fn a_cut_number_fits(n: Num, max: nat)
    ensures
        n.cut(max) <= max,
        n.bits >= 0x8000_0000_0000_0000 ==> n.cut(max) == 0,
        n.bits < 0x7ff0_0000_0000_0000 && n.whole() <= max ==> n.cut(max) == n.whole(),
        n.bits < 0x7ff0_0000_0000_0000 && n.whole() > max ==> n.cut(max) == max,
        n.bits == 0x7ff0_0000_0000_0000 ==> n.cut(max) == max,
        0x7ff0_0000_0000_0000 < n.bits < 0x8000_0000_0000_0000 ==> n.cut(max) == 0,
{
}

/// A number and its negative are cut to opposite integers, but for the ends of the range.
pub proof fn signs_are_kept(n: Num, m: Num)
    requires
        n.bits < 0x7ff0_0000_0000_0000,
        m.bits == n.bits + 0x8000_0000_0000_0000,
    ensures
        n.whole() == m.whole(),
        n.whole() < 0x8000_0000_0000_0000 ==> n.cut_signed() == n.whole() && m.cut_signed() == -(
        n.whole() as int),
        n.whole() >= 0x8000_0000_0000_0000 ==> n.cut_signed() == 0x7fff_ffff_ffff_ffff
            && m.cut_signed() == -0x8000_0000_0000_0000,
        n.bits != 0 ==> n.positive() && !m.positive() && !m.not_below_zero(),
        n.nonzero() <==> n.bits != 0,
        m.nonzero() <==> n.bits != 0,
        n.not_below_zero(),
{
}

// ---- levels ------------------------------------------------------------------------------------

proof fn letters_carry_over(upper: Seq<char>, lower: Seq<char>, name: Seq<char>)
    requires
        same_letters(upper, lower),
        same_letters(name, lower),
    ensures
        same_letters(upper, name),
{
    assert forall|i: int| 0 <= i < upper.len() implies small(upper[i]) == small(
        #[trigger] name[i],
    ) by {
        assert(small(upper[i]) == small(lower[i]));
        assert(small(name[i]) == small(lower[i]));
    }
}

proof fn letters_differ(upper: Seq<char>, lower: Seq<char>, name: Seq<char>)
    requires
        upper.len() > 0,
        lower.len() > 0,
        small(upper[0]) != small(lower[0]),
        same_letters(name, lower),
    ensures
        !same_letters(upper, name),
{
    assert(small(name[0]) == small(lower[0]));
    if same_letters(upper, name) {
        assert(small(upper[0]) == small(name[0]));
    }
}

/// Each level's name is its own, whatever the case of its letters.
pub proof fn levels_are_named(name: Seq<char>)
    ensures
        same_letters(name, "off"@) ==> named_filter(name) == Some(LevelFilter::Off),
        same_letters(name, "error"@) ==> named_filter(name) == Some(LevelFilter::Error),
        same_letters(name, "warn"@) ==> named_filter(name) == Some(LevelFilter::Warn),
        same_letters(name, "info"@) ==> named_filter(name) == Some(LevelFilter::Info),
        same_letters(name, "debug"@) ==> named_filter(name) == Some(LevelFilter::Debug),
        same_letters(name, "trace"@) ==> named_filter(name) == Some(LevelFilter::Trace),
        named_filter(name) is Some ==> 3 <= name.len() <= 5,
{
    reveal_strlit("off");
    reveal_strlit("OFF");
    reveal_strlit("error");
    reveal_strlit("ERROR");
    reveal_strlit("warn");
    reveal_strlit("WARN");
    reveal_strlit("info");
    reveal_strlit("INFO");
    reveal_strlit("debug");
    reveal_strlit("DEBUG");
    reveal_strlit("trace");
    reveal_strlit("TRACE");
    assert(same_letters("OFF"@, "off"@));
    assert(same_letters("ERROR"@, "error"@));
    assert(same_letters("WARN"@, "warn"@));
    assert(same_letters("INFO"@, "info"@));
    assert(same_letters("DEBUG"@, "debug"@));
    assert(same_letters("TRACE"@, "trace"@));
    if same_letters(name, "off"@) {
        letters_carry_over("OFF"@, "off"@, name);
    }
    if same_letters(name, "error"@) {
        letters_carry_over("ERROR"@, "error"@, name);
    }
    if same_letters(name, "warn"@) {
        letters_carry_over("WARN"@, "warn"@, name);
    }
    if same_letters(name, "info"@) {
        letters_carry_over("INFO"@, "info"@, name);
        letters_differ("WARN"@, "info"@, name);
    }
    if same_letters(name, "debug"@) {
        letters_carry_over("DEBUG"@, "debug"@, name);
        letters_differ("ERROR"@, "debug"@, name);
    }
    if same_letters(name, "trace"@) {
        letters_carry_over("TRACE"@, "trace"@, name);
        letters_differ("ERROR"@, "trace"@, name);
        letters_differ("DEBUG"@, "trace"@, name);
    }
}

/// A level's number tells it apart, and is the greater the more is logged.
pub proof fn levels_are_numbered(a: Level, b: Level)
    ensures
        level_number(a) == level_number(b) ==> a == b,
        level_number(Level::Error) == 1,
        level_number(Level::Warn) == 2,
        level_number(Level::Info) == 3,
        level_number(Level::Debug) == 4,
        level_number(Level::Trace) == 5,
{
}

// ---- pictures ----------------------------------------------------------------------------------

/// A name that is a vector stands for itself. One that is not, and is a vector's name with a
/// weight behind it, light or bold, stands for that vector; and any other stands for itself.
pub proof fn weights_fall_back(name: Seq<char>, base: Seq<char>, vectors: Seq<String>)
    requires
        base.len() > 0,
        name == base + "__light"@ || name == base + "__bold"@,
    ensures
        listed(vectors, name) ==> resolved(name, vectors) == name,
        !listed(vectors, name) && listed(vectors, base) ==> resolved(name, vectors) == base,
        !listed(vectors, name) && !listed(vectors, base) ==> resolved(name, vectors) == name,
{
    reveal_strlit("__light");
    reveal_strlit("__bold");
    let light = "__light"@;
    let bold = "__bold"@;
    if name == base + light {
        assert(name.skip(name.len() - 7) =~= light);
        assert(name.take(name.len() - 7) =~= base);
        assert(name[name.len() - 1] == 't');
        if name.skip(name.len() - 6) == bold {
            assert(name.skip(name.len() - 6)[5] == 'd');
            assert(false);
        }
    } else {
        assert(name.skip(name.len() - 6) =~= bold);
        assert(name.take(name.len() - 6) =~= base);
        assert(name[name.len() - 1] == 'd');
        if name.len() >= 7 && name.skip(name.len() - 7) == light {
            assert(name.skip(name.len() - 7)[6] == 't');
            assert(false);
        }
    }
    assert(stripped(name, light) == Some(base) || stripped(name, bold) == Some(base));
}

/// A picture's source that is a path is used as it is; a plain name lies with the staged images, a
/// vector as what it is and anything else as a raster.
pub proof fn a_source_is_a_path_or_a_name(source: Seq<char>, vectors: Seq<String>)
    ensures
        source.contains('/') ==> image_source(source, vectors) == source,
        !source.contains('/') && listed(vectors, source) ==> image_source(source, vectors)
            == "assets/images/"@ + source + ".svg"@,
        !source.contains('/') && !listed(vectors, source) ==> image_source(source, vectors)
            == "assets/images/"@ + source + ".png"@,
{
    assert(source.contains('/') == holds(source, '/'));
    reveal_strlit(".");
    reveal_strlit("svg");
    reveal_strlit("png");
    reveal_strlit(".svg");
    reveal_strlit(".png");
    assert("."@ + "svg"@ =~= ".svg"@);
    assert("."@ + "png"@ =~= ".png"@);
    let ext = extension(source, vectors);
    assert(staged(source, vectors) =~= "assets/images/"@ + source + ("."@ + ext));
}

/// An outline stands whole in its inline picture, so two outlines give two pictures.
pub proof fn outlines_stay_apart(a: Seq<char>, b: Seq<char>)
    ensures
        outline_url(a) == outline_url(b) ==> a == b,
{
    if outline_url(a) == outline_url(b) {
        let head =
            "data:image/svg+xml,%3Csvg xmlns='http://www.w3.org/2000/svg' viewBox='0 0 24 24'%3E%3Cpath fill-rule='evenodd' d='"@;
        let tail = "'/%3E%3C/svg%3E"@;
        let (u, w) = (outline_url(a), outline_url(b));
        assert(u.len() == head.len() + a.len() + tail.len());
        assert(w.len() == head.len() + b.len() + tail.len());
        let (from, to) = (head.len() as int, (head.len() + a.len()) as int);
        assert(u.subrange(from, to) =~= a);
        assert(w.subrange(from, to) =~= b);
    }
}

} // verus!
