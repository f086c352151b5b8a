//! Keys, as the app names them.
use crate::gtk::act::{acts, emit, no_acts, Act, GtkAct, SpecAct};
use crate::model::{Event, Target, KEY_ALT, KEY_PRIMARY, KEY_SHIFT};
use crate::text::owned;
use vstd::prelude::*;

verus! {

/// A key: an arrow, of either block, or another one with the character it types.
#[derive(Clone, Copy, Debug, PartialEq, Eq, Structural)]
pub enum Key {
    Left,
    Right,
    Up,
    Down,
    Other(Option<char>),
}

/// The modifier keys that are held.
#[derive(Clone, Copy, Debug, PartialEq, Eq, Structural)]
pub struct Held {
    pub shift: bool,
    pub control: bool,
    pub alt: bool,
    pub meta: bool,
    pub super_key: bool,
}

/// The app's name for a key. A digit goes by what it types, but not under a modifier that
/// belongs to the menu's accelerators.
pub open spec fn named_key(key: Key, held: Held) -> Option<Seq<char>> {
    match key {
        Key::Left => Some("ArrowLeft"@),
        Key::Right => Some("ArrowRight"@),
        Key::Up => Some("ArrowUp"@),
        Key::Down => Some("ArrowDown"@),
        Key::Other(Some(c)) => if held.control || held.alt || held.meta || held.super_key {
            None
        } else if '0' <= c <= '9' {
            Some(seq![c])
        } else {
            None
        },
        Key::Other(None) => None,
    }
}

pub fn key_name(key: Key, held: Held) -> (r: Option<String>)
    ensures
        match r {
            Some(name) => named_key(key, held) == Some(name@),
            None => named_key(key, held) is None,
        },
{
    match key {
        Key::Left => Some(owned("ArrowLeft")),
        Key::Right => Some(owned("ArrowRight")),
        Key::Up => Some(owned("ArrowUp")),
        Key::Down => Some(owned("ArrowDown")),
        Key::Other(Some(c)) => {
            if held.control || held.alt || held.meta || held.super_key {
                None
            } else if '0' <= c && c <= '9' {
                let mut name = String::new();
                name.push(c);
                proof {
                    assert(name@ =~= seq![c]);
                }
                Some(name)
            } else {
                None
            }
        },
        Key::Other(None) => None,
    }
}

/// The modifiers as the app's bits: shift, the control key as the primary one, and alt.
pub open spec fn modifier_bits(held: Held) -> u8 {
    ((if held.shift { KEY_SHIFT as int } else { 0 }) + (if held.control {
        KEY_PRIMARY as int
    } else {
        0
    }) + (if held.alt { KEY_ALT as int } else { 0 })) as u8
}

pub fn key_modifiers(held: Held) -> (m: u8)
    ensures
        m == modifier_bits(held),
{
    let mut m: u8 = 0;
    if held.shift {
        m = m + KEY_SHIFT;
    }
    if held.control {
        m = m + KEY_PRIMARY;
    }
    if held.alt {
        m = m + KEY_ALT;
    }
    m
}

/// No key under an accelerator's modifier is taken from the menu, but for the arrows.
pub proof fn accelerators_keep_their_keys(c: Option<char>, held: Held)
    requires
        held.control || held.alt || held.meta || held.super_key,
    ensures
        named_key(Key::Other(c), held) is None,
{
}

/// What a drawing does with a key: one that has a name and that the app asked for is the app's and
/// goes no further.
pub open spec fn key_acts(id: u64, key: Key, held: Held, handled: bool) -> Seq<SpecAct> {
    match named_key(key, held) {
        Some(name) => if handled {
            seq![
                Act::Emit {
                    to: Target::Node(id),
                    event: Event::Key { key: name, modifiers: modifier_bits(held) },
                },
            ]
        } else {
            Seq::empty()
        },
        None => Seq::empty(),
    }
}

/// A key was pressed on a drawing; whether it stops there. `handled` is whether the app asked for
/// keys there.
pub fn key_pressed(id: u64, key: Key, held: Held, handled: bool) -> (r: (bool, Vec<GtkAct>))
    ensures
        acts(r.1@) == key_acts(id, key, held, handled),
        r.0 == (key_acts(id, key, held, handled).len() > 0),
{
    match key_name(key, held) {
        Some(name) => {
            if handled {
                (
                    true,
                    emit(
                        Target::Node(id),
                        Event::Key { key: name, modifiers: key_modifiers(held) },
                    ),
                )
            } else {
                (false, no_acts())
            }
        },
        None => (false, no_acts()),
    }
}

/// A key the app did not ask for goes on to whatever is around the drawing.
pub proof fn unwanted_keys_travel_on(id: u64, key: Key, held: Held)
    ensures
        key_acts(id, key, held, false) == Seq::<SpecAct>::empty(),
{
}

} // verus!
