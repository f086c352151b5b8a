//! The addresses of staged images. A page knows which names are vector glyphs; everything else
//! is a raster.
use crate::dom::css::{is_listed, listed};
use crate::model::Icon;
use crate::text::{cat3, chars_of, owned, text_of};
use vstd::prelude::*;

verus! {

/// `name` without `suffix` at its end, where it ends in it.
pub open spec fn stripped(name: Seq<char>, suffix: Seq<char>) -> Option<Seq<char>> {
    let cut = name.len() - suffix.len();
    if cut >= 0 && name.skip(cut) == suffix {
        Some(name.take(cut))
    } else {
        None
    }
}

/// The glyph a weight variant falls back to: its base name, where that is itself a vector.
pub open spec fn base_glyph(name: Seq<char>, suffix: Seq<char>, vectors: Seq<String>) -> Option<
    Seq<char>,
> {
    match stripped(name, suffix) {
        Some(base) => if base.len() > 0 && listed(vectors, base) {
            Some(base)
        } else {
            None
        },
        None => None,
    }
}

/// The staged glyph a name stands for: itself, or the base glyph of a weight variant that has
/// no art of its own.
pub open spec fn resolved(name: Seq<char>, vectors: Seq<String>) -> Seq<char> {
    if listed(vectors, name) {
        name
    } else {
        match base_glyph(name, "__light"@, vectors) {
            Some(base) => base,
            None => match base_glyph(name, "__bold"@, vectors) {
                Some(base) => base,
                None => name,
            },
        }
    }
}

/// A name that has been resolved stays as it is, and one that changed is a known vector.
pub proof fn resolving_is_settled(name: Seq<char>, vectors: Seq<String>)
    ensures
        resolved(resolved(name, vectors), vectors) == resolved(name, vectors),
        resolved(name, vectors) == name || listed(vectors, resolved(name, vectors)),
{
}

/// The file extension of an image name: a vector is rendered at display size, anything else is
/// a raster.
pub open spec fn extension(name: Seq<char>, vectors: Seq<String>) -> Seq<char> {
    if listed(vectors, name) {
        "svg"@
    } else {
        "png"@
    }
}

/// Where a staged image lies.
pub open spec fn staged(name: Seq<char>, vectors: Seq<String>) -> Seq<char> {
    "assets/images/"@ + name + "."@ + extension(name, vectors)
}

/// Where the image or glyph of this name lies, once the name is resolved.
pub open spec fn url(name: Seq<char>, vectors: Seq<String>) -> Seq<char> {
    staged(resolved(name, vectors), vectors)
}

/// An outline as an inline image.
pub open spec fn outline_url(d: Seq<char>) -> Seq<char> {
    "data:image/svg+xml,%3Csvg xmlns='http://www.w3.org/2000/svg' viewBox='0 0 24 24'%3E%3Cpath fill-rule='evenodd' d='"@
        + d + "'/%3E%3C/svg%3E"@
}

/// Where an icon's picture comes from; none for no icon, and for a symbol without an outline.
pub open spec fn icon_source(icon: Option<Icon>, vectors: Seq<String>) -> Option<Seq<char>> {
    match icon {
        Some(Icon::Image(name)) => Some(url(name@, vectors)),
        Some(Icon::Symbol(Some(d))) => Some(outline_url(d@)),
        Some(Icon::Symbol(None)) => None,
        None => None,
    }
}

fn strip(name: &str, suffix: &str) -> (r: Option<String>)
    ensures
        match r {
            Some(base) => stripped(name@, suffix@) == Some(base@),
            None => stripped(name@, suffix@) is None,
        },
{
    let n = chars_of(name);
    let s = chars_of(suffix);
    if n.len() < s.len() {
        return None;
    }
    let cut: usize = n.len() - s.len();
    let mut i: usize = 0;
    while i < s.len()
        invariant
            cut + s.len() == n.len(),
            n@ == name@,
            s@ == suffix@,
            i <= s.len(),
            forall|k: int| 0 <= k < i ==> n[cut + k] == s[k],
        decreases s.len() - i,
    {
        if n[cut + i] != s[i] {
            assert(name@.skip(cut as int)[i as int] != suffix@[i as int]);
            return None;
        }
        i = i + 1;
    }
    assert(name@.skip(cut as int) =~= suffix@);
    let base = text_of(&n, 0, cut);
    assert(base@ =~= name@.take(cut as int));
    Some(base)
}

fn base_of(name: &str, suffix: &str, vectors: &Vec<String>) -> (r: Option<String>)
    ensures
        match r {
            Some(base) => base_glyph(name@, suffix@, vectors@) == Some(base@),
            None => base_glyph(name@, suffix@, vectors@) is None,
        },
{
    match strip(name, suffix) {
        Some(base) => if !base.as_str().is_empty() && is_listed(vectors, base.as_str()) {
            Some(base)
        } else {
            None
        },
        None => None,
    }
}

/// The staged glyph a name stands for, given the names of the page's vector glyphs.
pub fn resolved_name(name: &str, vectors: &Vec<String>) -> (n: String)
    ensures
        n@ == resolved(name@, vectors@),
{
    if is_listed(vectors, name) {
        return owned(name);
    }
    match base_of(name, "__light", vectors) {
        Some(base) => base,
        None => match base_of(name, "__bold", vectors) {
            Some(base) => base,
            None => owned(name),
        },
    }
}

/// The extension of an image name's file.
pub fn image_ext(name: &str, vectors: &Vec<String>) -> (e: &'static str)
    ensures
        e@ == extension(name@, vectors@),
{
    if is_listed(vectors, name) {
        "svg"
    } else {
        "png"
    }
}

/// Where a staged image lies, its name taken as it is.
pub fn staged_url(name: &str, vectors: &Vec<String>) -> (u: String)
    ensures
        u@ == staged(name@, vectors@),
{
    let mut u = cat3("assets/images/", name, ".");
    u.append(image_ext(name, vectors));
    u
}

/// Where the image or glyph of this name lies.
pub fn image_url(name: &str, vectors: &Vec<String>) -> (u: String)
    ensures
        u@ == url(name@, vectors@),
{
    let n = resolved_name(name, vectors);
    staged_url(n.as_str(), vectors)
}

/// A symbol's outline as an inline image.
pub fn symbol_svg(d: &str) -> (u: String)
    ensures
        u@ == outline_url(d@),
{
    cat3(
        "data:image/svg+xml,%3Csvg xmlns='http://www.w3.org/2000/svg' viewBox='0 0 24 24'%3E%3Cpath fill-rule='evenodd' d='",
        d,
        "'/%3E%3C/svg%3E",
    )
}

/// Where an icon's picture comes from.
pub fn icon_url(icon: &Option<Icon>, vectors: &Vec<String>) -> (u: Option<String>)
    ensures
        match u {
            Some(s) => icon_source(*icon, vectors@) == Some(s@),
            None => icon_source(*icon, vectors@) is None,
        },
{
    match icon {
        Some(Icon::Image(name)) => Some(image_url(name.as_str(), vectors)),
        Some(Icon::Symbol(Some(d))) => Some(symbol_svg(d.as_str())),
        Some(Icon::Symbol(None)) => None,
        None => None,
    }
}

/// Whether a text holds a character.
pub open spec fn holds(text: Seq<char>, c: char) -> bool {
    exists|i: int| 0 <= i < text.len() && text[i] == c
}

fn has_char(text: &str, c: char) -> (b: bool)
    ensures
        b == holds(text@, c),
{
    for x in it: text.chars()
        invariant
            it.seq() == text@,
            forall|k: int| 0 <= k < it.index() ==> text@[k] != c,
    {
        if x == c {
            assert(text@[it.index()] == c);
            return true;
        }
    }
    false
}

/// What an image piece loads: a source with a path in it as it is, a bare name from where it was
/// staged.
pub open spec fn image_source(source: Seq<char>, vectors: Seq<String>) -> Seq<char> {
    if holds(source, '/') {
        source
    } else {
        staged(source, vectors)
    }
}

pub fn image_src(source: &str, vectors: &Vec<String>) -> (u: String)
    ensures
        u@ == image_source(source@, vectors@),
{
    if has_char(source, '/') {
        owned(source)
    } else {
        staged_url(source, vectors)
    }
}

} // verus!
