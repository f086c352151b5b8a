//! Menus: the steps that build a menu's model and its actions, and the accelerators that go with
//! them.
use crate::logging::small;
use crate::model::{Icon, MenuItem, MenuRole, Shortcut};
use crate::text::{cat2, chars_of, decimal, owned, push_decimal, same};
use vstd::prelude::*;

verus! {

// ---- roles -------------------------------------------------------------------------------------

/// The stock action of a standard command, where GTK has one.
pub open spec fn stock_action(role: MenuRole) -> Option<Seq<char>> {
    match role {
        MenuRole::Cut => Some("clipboard.cut"@),
        MenuRole::Copy => Some("clipboard.copy"@),
        MenuRole::Paste => Some("clipboard.paste"@),
        MenuRole::SelectAll => Some("selection.select-all"@),
        MenuRole::Undo => Some("text.undo"@),
        MenuRole::Redo => Some("text.redo"@),
        MenuRole::Quit => Some("app.quit"@),
        MenuRole::CloseWindow => Some("window.close"@),
        MenuRole::Minimize => Some("window.minimize"@),
        _ => None,
    }
}

pub fn gtk_role_action(role: MenuRole) -> (r: Option<&'static str>)
    ensures
        match r {
            Some(a) => stock_action(role) == Some(a@),
            None => stock_action(role) is None,
        },
{
    match role {
        MenuRole::Cut => Some("clipboard.cut"),
        MenuRole::Copy => Some("clipboard.copy"),
        MenuRole::Paste => Some("clipboard.paste"),
        MenuRole::SelectAll => Some("selection.select-all"),
        MenuRole::Undo => Some("text.undo"),
        MenuRole::Redo => Some("text.redo"),
        MenuRole::Quit => Some("app.quit"),
        MenuRole::CloseWindow => Some("window.close"),
        MenuRole::Minimize => Some("window.minimize"),
        _ => None,
    }
}

/// What a standard command is called.
pub open spec fn stock_label(role: MenuRole) -> Seq<char> {
    match role {
        MenuRole::Cut => "Cut"@,
        MenuRole::Copy => "Copy"@,
        MenuRole::Paste => "Paste"@,
        MenuRole::SelectAll => "Select All"@,
        MenuRole::Undo => "Undo"@,
        MenuRole::Redo => "Redo"@,
        MenuRole::Delete => "Delete"@,
        MenuRole::About => "About"@,
        MenuRole::Quit => "Quit"@,
        MenuRole::Preferences => "Preferences"@,
        MenuRole::Minimize => "Minimize"@,
        MenuRole::CloseWindow => "Close"@,
        MenuRole::Fullscreen => "Full Screen"@,
        MenuRole::NewWindow => "New Window"@,
    }
}

pub fn gtk_role_label(role: MenuRole) -> (s: &'static str)
    ensures
        s@ == stock_label(role),
{
    match role {
        MenuRole::Cut => "Cut",
        MenuRole::Copy => "Copy",
        MenuRole::Paste => "Paste",
        MenuRole::SelectAll => "Select All",
        MenuRole::Undo => "Undo",
        MenuRole::Redo => "Redo",
        MenuRole::Delete => "Delete",
        MenuRole::About => "About",
        MenuRole::Quit => "Quit",
        MenuRole::Preferences => "Preferences",
        MenuRole::Minimize => "Minimize",
        MenuRole::CloseWindow => "Close",
        MenuRole::Fullscreen => "Full Screen",
        MenuRole::NewWindow => "New Window",
    }
}

// ---- accelerators ------------------------------------------------------------------------------

/// A text in small letters, as `str::to_lowercase` gives it.
pub uninterp spec fn lowercase(s: Seq<char>) -> Seq<char>;

/// `str::to_lowercase`: the same text gives the same result.
#[verifier::external_body]
fn to_lowercase(s: &str) -> (t: String)
    ensures
        t@ == lowercase(s@),
{
    s.to_lowercase()
}

/// Whether a character is an ASCII letter or digit.
pub open spec fn plain_key(c: char) -> bool {
    'a' <= c <= 'z' || 'A' <= c <= 'Z' || '0' <= c <= '9'
}

/// The names of keys that the windowing system knows, by the characters they type.
pub type KeyNames = Vec<(char, String)>;

/// The name of the key that types a character, where it is known.
pub open spec fn key_named(names: Seq<(char, String)>, c: char, n: int) -> Option<Seq<char>>
    decreases n,
{
    if n <= 0 {
        None
    } else if names[n - 1].0 == c {
        Some(names[n - 1].1@)
    } else {
        key_named(names, c, n - 1)
    }
}

fn find_name(names: &KeyNames, c: char) -> (r: Option<String>)
    ensures
        match r {
            Some(s) => key_named(names@, c, names@.len() as int) == Some(s@),
            None => key_named(names@, c, names@.len() as int) is None,
        },
{
    let mut i: usize = names.len();
    while i > 0
        invariant
            i <= names.len(),
            key_named(names@, c, names@.len() as int) == key_named(names@, c, i as int),
        decreases i,
    {
        if names[i - 1].0 == c {
            return Some(owned(names[i - 1].1.as_str()));
        }
        i = i - 1;
    }
    None
}

/// The modifiers of an accelerator. The main one is the command key on a Mac.
pub open spec fn accel_modifiers(s: Shortcut, mac: bool) -> Seq<char> {
    (if s.primary {
        if mac {
            "<Meta>"@
        } else {
            "<Primary>"@
        }
    } else {
        ""@
    }) + (if s.shift { "<Shift>"@ } else { ""@ }) + (if s.alt { "<Alt>"@ } else { ""@ }) + (
    if s.control {
        "<Control>"@
    } else {
        ""@
    })
}

/// The key of an accelerator: a named one by its name, a letter or digit in small letters, any
/// other single character by the name of its key.
pub open spec fn accel_key(k: Seq<char>, names: Seq<(char, String)>) -> Seq<char> {
    if k == "Return"@ || k == "Enter"@ {
        "Return"@
    } else if k == "Delete"@ || k == "Backspace"@ {
        "Delete"@
    } else if k == "Space"@ {
        "space"@
    } else if k.len() == 1 {
        if plain_key(k[0]) {
            seq![small(k[0])]
        } else {
            match key_named(names, k[0], names.len() as int) {
                Some(name) => name,
                None => lowercase(k),
            }
        }
    } else {
        k
    }
}

/// An accelerator as GTK spells it.
pub open spec fn accel(s: Shortcut, mac: bool, names: Seq<(char, String)>) -> Seq<char> {
    accel_modifiers(s, mac) + accel_key(s.key@, names)
}

fn small_letter(c: char) -> (d: char)
    requires
        plain_key(c),
    ensures
        d == small(c),
{
    match c {
        'A' => 'a',
        'B' => 'b',
        'C' => 'c',
        'D' => 'd',
        'E' => 'e',
        'F' => 'f',
        'G' => 'g',
        'H' => 'h',
        'I' => 'i',
        'J' => 'j',
        'K' => 'k',
        'L' => 'l',
        'M' => 'm',
        'N' => 'n',
        'O' => 'o',
        'P' => 'p',
        'Q' => 'q',
        'R' => 'r',
        'S' => 's',
        'T' => 't',
        'U' => 'u',
        'V' => 'v',
        'W' => 'w',
        'X' => 'x',
        'Y' => 'y',
        'Z' => 'z',
        _ => c,
    }
}

fn key_text(k: &str, names: &KeyNames) -> (t: String)
    ensures
        t@ == accel_key(k@, names@),
{
    if same(k, "Return") || same(k, "Enter") {
        return owned("Return");
    }
    if same(k, "Delete") || same(k, "Backspace") {
        return owned("Delete");
    }
    if same(k, "Space") {
        return owned("space");
    }
    let v = chars_of(k);
    if v.len() == 1 {
        let c = v[0];
        if ('a' <= c && c <= 'z') || ('A' <= c && c <= 'Z') || ('0' <= c && c <= '9') {
            let mut t = String::new();
            t.push(small_letter(c));
            proof {
                assert(t@ =~= seq![small(k@[0])]);
            }
            return t;
        }
        return match find_name(names, c) {
            Some(name) => name,
            None => to_lowercase(k),
        };
    }
    owned(k)
}

/// Spells an accelerator. `mac` is whether the app runs on a Mac, and `names` are the names of
/// the keys, as the windowing system gives them.
pub fn accel_string(s: &Shortcut, mac: bool, names: &KeyNames) -> (t: String)
    ensures
        t@ == accel(*s, mac, names@),
{
    let mut t: String = if s.primary {
        if mac {
            owned("<Meta>")
        } else {
            owned("<Primary>")
        }
    } else {
        owned("")
    };
    t.append(if s.shift {
        "<Shift>"
    } else {
        ""
    });
    t.append(if s.alt {
        "<Alt>"
    } else {
        ""
    });
    t.append(if s.control {
        "<Control>"
    } else {
        ""
    });
    t.append(key_text(s.key.as_str(), names).as_str());
    t
}

/// Letters and digits are spelled the same whatever keys the windowing system knows.
pub proof fn plain_keys_need_no_name(
    s: Shortcut,
    mac: bool,
    names: Seq<(char, String)>,
    others: Seq<(char, String)>,
)
    requires
        s.key@.len() == 1,
        plain_key(s.key@[0]),
    ensures
        accel(s, mac, names) == accel(s, mac, others),
{
}

// ---- models ------------------------------------------------------------------------------------

/// A glyph of a menu item.
#[derive(Debug, PartialEq)]
pub enum Glyph<S> {
    Image(S),
    Symbol(Option<S>),
}

/// A step in building a menu. A section holds what came since the last section ended; a submenu
/// has steps of its own up to its end. `S` holds text.
#[derive(Debug, PartialEq)]
#[allow(inconsistent_fields)]
pub enum MenuStep<S> {
    /// Adds an action under a name; a checkable one has a state that only the app sets.
    Action { name: S, action: u64, enabled: bool, checked: Option<bool> },
    /// Adds an item to the section at hand.
    Item { label: S, action: S, accel: Option<S>, icon: Option<Glyph<S>> },
    Submenu { label: S },
    EndSubmenu,
    EndSection,
}

/// A step as contracts speak of it.
pub type SpecStep = MenuStep<Seq<char>>;

/// A text that may be missing.
pub open spec fn maybe(s: Option<String>) -> Option<Seq<char>> {
    match s {
        Some(s) => Some(s@),
        None => None,
    }
}

impl View for MenuStep<String> {
    type V = SpecStep;

    open spec fn view(&self) -> SpecStep {
        match self {
            MenuStep::Action { name, action, enabled, checked } => MenuStep::Action {
                name: name@,
                action: *action,
                enabled: *enabled,
                checked: *checked,
            },
            MenuStep::Item { label, action, accel, icon } => MenuStep::Item {
                label: label@,
                action: action@,
                accel: maybe(*accel),
                icon: match icon {
                    Some(Glyph::Image(name)) => Some(Glyph::Image(name@)),
                    Some(Glyph::Symbol(outline)) => Some(Glyph::Symbol(maybe(*outline))),
                    None => None,
                },
            },
            MenuStep::Submenu { label } => MenuStep::Submenu { label: label@ },
            MenuStep::EndSubmenu => MenuStep::EndSubmenu,
            MenuStep::EndSection => MenuStep::EndSection,
        }
    }
}

/// The steps of a list, as contracts speak of them.
pub open spec fn steps(v: Seq<MenuStep<String>>) -> Seq<SpecStep> {
    Seq::new(v.len(), |i: int| v[i]@)
}

/// The name of an app's action.
pub open spec fn action_name(action: u64) -> Seq<char> {
    "a"@ + decimal(action as nat)
}

/// What an item is called: its label, or its command's name where it has none.
pub open spec fn item_label(label: Seq<char>, role: Option<MenuRole>) -> Seq<char> {
    match role {
        Some(r) => if label.len() == 0 {
            stock_label(r)
        } else {
            label
        },
        None => label,
    }
}

/// An icon as a glyph.
pub open spec fn glyph_of(icon: Option<Icon>) -> Option<Glyph<Seq<char>>> {
    match icon {
        Some(Icon::Image(name)) => Some(Glyph::Image(name@)),
        Some(Icon::Symbol(outline)) => Some(Glyph::Symbol(maybe(outline))),
        None => None,
    }
}

/// The steps for an item of the app's own, or for a standard command.
pub open spec fn action_steps(
    action: u64,
    label: Seq<char>,
    enabled: bool,
    checked: Option<bool>,
    role: Option<MenuRole>,
    shortcut: Option<Shortcut>,
    icon: Option<Icon>,
    mac: bool,
    names: Seq<(char, String)>,
) -> Seq<SpecStep> {
    if action != 0 {
        seq![
            MenuStep::Action { name: action_name(action), action, enabled, checked },
            MenuStep::Item {
                label: item_label(label, role),
                action: "daymenu."@ + action_name(action),
                accel: match shortcut {
                    Some(s) => Some(accel(s, mac, names)),
                    None => None,
                },
                icon: glyph_of(icon),
            },
        ]
    } else {
        match role {
            Some(r) => match stock_action(r) {
                Some(stock) => seq![
                    MenuStep::Item {
                        label: item_label(label, role),
                        action: stock,
                        accel: None,
                        icon: None,
                    },
                ],
                None => Seq::empty(),
            },
            None => Seq::empty(),
        }
    }
}

/// Whether an item puts something into the section at hand.
pub open spec fn puts_entry(item: MenuItem) -> bool {
    match item {
        MenuItem::Separator => false,
        MenuItem::Submenu { .. } => true,
        MenuItem::Action { action, role, .. } => action != 0 || (match role {
            Some(r) => stock_action(r) is Some,
            None => false,
        }),
    }
}

/// Whether the section at hand holds anything after the first `n` items.
pub open spec fn section_open(items: Seq<MenuItem>, n: int) -> bool
    decreases n,
{
    if n <= 0 {
        false
    } else if items[n - 1] is Separator {
        false
    } else {
        section_open(items, n - 1) || puts_entry(items[n - 1])
    }
}

/// The end of a section, where it holds anything.
pub open spec fn section_end(open: bool) -> Seq<SpecStep> {
    if open {
        seq![MenuStep::EndSection]
    } else {
        Seq::empty()
    }
}

/// The steps of one item.
pub open spec fn item_steps(item: MenuItem, open: bool, mac: bool, names: Seq<(char, String)>) -> Seq<
    SpecStep,
>
    decreases item, 0int,
{
    match item {
        MenuItem::Separator => section_end(open),
        MenuItem::Submenu { label, items } => {
            let begun: Seq<SpecStep> = seq![MenuStep::Submenu { label: label@ }];
            (begun + items_steps(items@, items@.len() as int, mac, names) + section_end(
                section_open(items@, items@.len() as int),
            )).push(MenuStep::EndSubmenu)
        },
        MenuItem::Action { action, label, enabled, checked, role, shortcut, icon } => action_steps(
            action,
            label@,
            enabled,
            checked,
            role,
            shortcut,
            icon,
            mac,
            names,
        ),
    }
}

/// The steps of the first `n` items.
pub open spec fn items_steps(items: Seq<MenuItem>, n: int, mac: bool, names: Seq<(char, String)>) -> Seq<
    SpecStep,
>
    decreases items, n,
{
    if n <= 0 || n > items.len() {
        Seq::empty()
    } else {
        items_steps(items, n - 1, mac, names) + item_steps(
            items[n - 1],
            section_open(items, n - 1),
            mac,
            names,
        )
    }
}

/// The steps of a whole menu.
pub open spec fn menu_steps(items: Seq<MenuItem>, mac: bool, names: Seq<(char, String)>) -> Seq<
    SpecStep,
> {
    items_steps(items, items.len() as int, mac, names) + section_end(
        section_open(items, items.len() as int),
    )
}

/// A step that puts something into a section.
pub open spec fn is_entry(s: SpecStep) -> bool {
    s is Item || s is EndSubmenu
}

/// Every section that ends holds something: right before its end stands what it holds.
pub open spec fn sections_filled(s: Seq<SpecStep>) -> bool {
    forall|i: int|
        0 <= i < s.len() && #[trigger] s[i] is EndSection ==> i > 0 && is_entry(s[i - 1])
}

proof fn items_fill_sections(items: Seq<MenuItem>, n: int, mac: bool, names: Seq<(char, String)>)
    requires
        0 <= n <= items.len(),
    ensures
        sections_filled(items_steps(items, n, mac, names)),
        section_open(items, n) ==> items_steps(items, n, mac, names).len() > 0 && is_entry(
            items_steps(items, n, mac, names).last(),
        ),
    decreases items, n,
{
    if n > 0 {
        items_fill_sections(items, n - 1, mac, names);
        let s = items_steps(items, n - 1, mac, names);
        let open = section_open(items, n - 1);
        let t = item_steps(items[n - 1], open, mac, names);
        let all = items_steps(items, n, mac, names);
        match items[n - 1] {
            MenuItem::Separator => {
                assert forall|i: int|
                    0 <= i < all.len() && #[trigger] all[i] is EndSection implies i > 0 && is_entry(
                    all[i - 1],
                ) by {
                    if i < s.len() {
                        assert(s[i] is EndSection);
                    }
                }
            },
            MenuItem::Submenu { label, items: inner } => {
                items_fill_sections(inner@, inner@.len() as int, mac, names);
                let begun: Seq<SpecStep> = seq![MenuStep::Submenu { label: label@ }];
                let u = items_steps(inner@, inner@.len() as int, mac, names);
                let e = section_end(section_open(inner@, inner@.len() as int));
                assert forall|i: int|
                    0 <= i < all.len() && #[trigger] all[i] is EndSection implies i > 0 && is_entry(
                    all[i - 1],
                ) by {
                    if i < s.len() {
                        assert(s[i] is EndSection);
                    } else {
                        let j = i - s.len();
                        assert(all[i] == t[j]);
                        if 1 <= j < 1 + u.len() {
                            assert(u[j - 1] is EndSection);
                            assert(t[j - 1] == u[j - 2]);
                        } else if j == 1 + u.len() {
                            assert(t[j - 1] == u.last());
                        }
                    }
                }
                assert(all.last() == t.last());
            },
            MenuItem::Action { action, label, enabled, checked, role, shortcut, icon } => {
                assert forall|i: int|
                    0 <= i < all.len() && #[trigger] all[i] is EndSection implies i > 0 && is_entry(
                    all[i - 1],
                ) by {
                    if i < s.len() {
                        assert(s[i] is EndSection);
                    } else {
                        assert(all[i] == t[i - s.len()]);
                    }
                }
                if t.len() > 0 {
                    assert(all.last() == t.last());
                } else {
                    assert(all =~= s);
                }
            },
        }
    }
}

/// Separators that have nothing before them, that follow each other or that end a menu draw
/// nothing: no section of a menu is empty.
pub proof fn no_section_is_empty(items: Seq<MenuItem>, mac: bool, names: Seq<(char, String)>)
    ensures
        sections_filled(menu_steps(items, mac, names)),
{
    items_fill_sections(items, items.len() as int, mac, names);
    let s = items_steps(items, items.len() as int, mac, names);
    let all = menu_steps(items, mac, names);
    assert forall|i: int|
        0 <= i < all.len() && #[trigger] all[i] is EndSection implies i > 0 && is_entry(
        all[i - 1],
    ) by {
        if i < s.len() {
            assert(s[i] is EndSection);
        }
    }
}

fn step(out: &mut Vec<MenuStep<String>>, s: MenuStep<String>)
    ensures
        steps(final(out)@) == steps(old(out)@).push(s@),
{
    out.push(s);
    proof {
        assert(steps(out@) =~= steps(old(out)@).push(s@));
    }
}

/// The name of an app's action.
pub fn name_of_action(action: u64) -> (s: String)
    ensures
        s@ == action_name(action),
{
    let mut s = owned("a");
    push_decimal(&mut s, action);
    s
}

fn label_of(label: &str, role: &Option<MenuRole>) -> (s: String)
    ensures
        s@ == item_label(label@, *role),
{
    match role {
        Some(r) => if label.is_empty() {
            owned(gtk_role_label(*r))
        } else {
            owned(label)
        },
        None => owned(label),
    }
}

fn glyph(icon: &Option<Icon>) -> (g: Option<Glyph<String>>)
    ensures
        match g {
            Some(Glyph::Image(name)) => glyph_of(*icon) == Some(Glyph::Image(name@)),
            Some(Glyph::Symbol(o)) => glyph_of(*icon) == Some(Glyph::Symbol(maybe(o))),
            None => glyph_of(*icon) is None,
        },
{
    match icon {
        Some(Icon::Image(name)) => Some(Glyph::Image(owned(name.as_str()))),
        Some(Icon::Symbol(Some(o))) => Some(Glyph::Symbol(Some(owned(o.as_str())))),
        Some(Icon::Symbol(None)) => Some(Glyph::Symbol(None)),
        None => None,
    }
}

fn put_action(
    out: &mut Vec<MenuStep<String>>,
    action: u64,
    label: &str,
    enabled: bool,
    checked: Option<bool>,
    role: &Option<MenuRole>,
    shortcut: &Option<Shortcut>,
    icon: &Option<Icon>,
    mac: bool,
    names: &KeyNames,
)
    ensures
        steps(final(out)@) == steps(old(out)@) + action_steps(
            action,
            label@,
            enabled,
            checked,
            *role,
            *shortcut,
            *icon,
            mac,
            names@,
        ),
{
    if action != 0 {
        step(out, MenuStep::Action { name: name_of_action(action), action, enabled, checked });
        let accel: Option<String> = match shortcut {
            Some(s) => Some(accel_string(s, mac, names)),
            None => None,
        };
        step(
            out,
            MenuStep::Item {
                label: label_of(label, role),
                action: cat2("daymenu.", name_of_action(action).as_str()),
                accel,
                icon: glyph(icon),
            },
        );
    } else {
        match role {
            Some(r) => {
                match gtk_role_action(*r) {
                    Some(stock) => step(
                        out,
                        MenuStep::Item {
                            label: label_of(label, role),
                            action: owned(stock),
                            accel: None,
                            icon: None,
                        },
                    ),
                    None => {},
                }
            },
            None => {},
        }
    }
    proof {
        assert(steps(out@) =~= steps(old(out)@) + action_steps(
            action,
            label@,
            enabled,
            checked,
            *role,
            *shortcut,
            *icon,
            mac,
            names@,
        ));
    }
}

fn adds_entry(item: &MenuItem) -> (b: bool)
    ensures
        b == puts_entry(*item),
{
    match item {
        MenuItem::Separator => false,
        MenuItem::Submenu { .. } => true,
        MenuItem::Action { action, role, .. } => {
            if *action != 0 {
                true
            } else {
                match role {
                    Some(r) => gtk_role_action(*r).is_some(),
                    None => false,
                }
            }
        },
    }
}

fn put_item(out: &mut Vec<MenuStep<String>>, item: &MenuItem, open: bool, mac: bool, names: &KeyNames)
    ensures
        steps(final(out)@) == steps(old(out)@) + item_steps(*item, open, mac, names@),
    decreases item, 0int,
{
    match item {
        MenuItem::Separator => {
            if open {
                step(out, MenuStep::EndSection);
            }
            proof {
                assert(steps(out@) =~= steps(old(out)@) + section_end(open));
            }
        },
        MenuItem::Submenu { label, items } => {
            step(out, MenuStep::Submenu { label: owned(label.as_str()) });
            let ghost begun = steps(out@);
            put_items(out, items, mac, names);
            step(out, MenuStep::EndSubmenu);
            proof {
                assert(steps(out@) =~= steps(old(out)@) + item_steps(*item, open, mac, names@));
            }
        },
        MenuItem::Action { action, label, enabled, checked, role, shortcut, icon } => {
            put_action(
                out,
                *action,
                label.as_str(),
                *enabled,
                *checked,
                role,
                shortcut,
                icon,
                mac,
                names,
            );
        },
    }
}

fn put_items(out: &mut Vec<MenuStep<String>>, items: &Vec<MenuItem>, mac: bool, names: &KeyNames)
    ensures
        steps(final(out)@) == steps(old(out)@) + menu_steps(items@, mac, names@),
    decreases items, 1int,
{
    let ghost start = steps(out@);
    let mut open: bool = false;
    let mut i: usize = 0;
    proof {
        assert(start + Seq::<SpecStep>::empty() =~= start);
    }
    while i < items.len()
        invariant
            i <= items.len(),
            open == section_open(items@, i as int),
            steps(out@) == start + items_steps(items@, i as int, mac, names@),
        decreases items.len() - i,
    {
        let ghost before = items_steps(items@, i as int, mac, names@);
        put_item(out, &items[i], open, mac, names);
        proof {
            let one = item_steps(items@[i as int], open, mac, names@);
            assert(start + before + one =~= start + (before + one));
        }
        open = match &items[i] {
            MenuItem::Separator => false,
            _ => open || adds_entry(&items[i]),
        };
        i = i + 1;
    }
    if open {
        step(out, MenuStep::EndSection);
    }
    proof {
        assert(steps(out@) =~= start + menu_steps(items@, mac, names@));
    }
}

/// The steps that build a menu's model and its actions.
pub fn build_gio_menu(items: &Vec<MenuItem>, mac: bool, names: &KeyNames) -> (out: Vec<
    MenuStep<String>,
>)
    ensures
        steps(out@) == menu_steps(items@, mac, names@),
{
    let mut out: Vec<MenuStep<String>> = Vec::new();
    put_items(&mut out, items, mac, names);
    proof {
        assert(steps(out@) =~= menu_steps(items@, mac, names@));
    }
    out
}

// ---- the app's own accelerators and its preferences --------------------------------------------

/// The accelerators of one item: the action's full name and its spelling.
pub open spec fn item_accels(item: MenuItem, mac: bool, names: Seq<(char, String)>) -> Seq<
    (Seq<char>, Seq<char>),
>
    decreases item, 0int,
{
    match item {
        MenuItem::Separator => Seq::empty(),
        MenuItem::Submenu { items, .. } => items_accels(items@, items@.len() as int, mac, names),
        MenuItem::Action { action, shortcut, .. } => match shortcut {
            Some(s) => if action != 0 {
                seq![("daymenu."@ + action_name(action), accel(s, mac, names))]
            } else {
                Seq::empty()
            },
            None => Seq::empty(),
        },
    }
}

/// The accelerators of the first `n` items.
pub open spec fn items_accels(items: Seq<MenuItem>, n: int, mac: bool, names: Seq<(char, String)>) -> Seq<
    (Seq<char>, Seq<char>),
>
    decreases items, n,
{
    if n <= 0 || n > items.len() {
        Seq::empty()
    } else {
        items_accels(items, n - 1, mac, names) + item_accels(items[n - 1], mac, names)
    }
}

/// The pairs of a list, as contracts speak of them.
pub open spec fn pairs(v: Seq<(String, String)>) -> Seq<(Seq<char>, Seq<char>)> {
    Seq::new(v.len(), |i: int| (v[i].0@, v[i].1@))
}

fn put_accel(out: &mut Vec<(String, String)>, item: &MenuItem, mac: bool, names: &KeyNames)
    ensures
        pairs(final(out)@) == pairs(old(out)@) + item_accels(*item, mac, names@),
    decreases item, 0int,
{
    match item {
        MenuItem::Separator => {
            proof {
                assert(pairs(out@) + Seq::<(Seq<char>, Seq<char>)>::empty() =~= pairs(out@));
            }
        },
        MenuItem::Submenu { items, .. } => put_accels(out, items, mac, names),
        MenuItem::Action { action, shortcut, .. } => {
            match shortcut {
                Some(s) => {
                    if *action != 0 {
                        out.push(
                            (
                                cat2("daymenu.", name_of_action(*action).as_str()),
                                accel_string(s, mac, names),
                            ),
                        );
                    }
                },
                None => {},
            }
            proof {
                assert(pairs(out@) =~= pairs(old(out)@) + item_accels(*item, mac, names@));
            }
        },
    }
}

fn put_accels(out: &mut Vec<(String, String)>, items: &Vec<MenuItem>, mac: bool, names: &KeyNames)
    ensures
        pairs(final(out)@) == pairs(old(out)@) + items_accels(
            items@,
            items@.len() as int,
            mac,
            names@,
        ),
    decreases items, 1int,
{
    let ghost start = pairs(out@);
    let mut i: usize = 0;
    proof {
        assert(start + Seq::<(Seq<char>, Seq<char>)>::empty() =~= start);
    }
    while i < items.len()
        invariant
            i <= items.len(),
            pairs(out@) == start + items_accels(items@, i as int, mac, names@),
        decreases items.len() - i,
    {
        let ghost before = items_accels(items@, i as int, mac, names@);
        put_accel(out, &items[i], mac, names);
        proof {
            let one = item_accels(items@[i as int], mac, names@);
            assert(start + before + one =~= start + (before + one));
        }
        i = i + 1;
    }
}

/// The accelerators to register with the application, so that they work with the menu closed.
pub fn set_menu_accels(items: &Vec<MenuItem>, mac: bool, names: &KeyNames) -> (out: Vec<
    (String, String),
>)
    ensures
        pairs(out@) == items_accels(items@, items@.len() as int, mac, names@),
{
    let mut out: Vec<(String, String)> = Vec::new();
    put_accels(&mut out, items, mac, names);
    proof {
        assert(pairs(out@) =~= items_accels(items@, items@.len() as int, mac, names@));
    }
    out
}

/// The action of a menu's preferences item, the first one there is.
pub open spec fn prefs_of(item: MenuItem) -> Option<u64>
    decreases item, 0int,
{
    match item {
        MenuItem::Separator => None,
        MenuItem::Submenu { items, .. } => first_prefs(items@, items@.len() as int),
        MenuItem::Action { action, role, .. } => if action != 0 && role == Some(
            MenuRole::Preferences,
        ) {
            Some(action)
        } else {
            None
        },
    }
}

/// The first preferences action among the first `n` items.
pub open spec fn first_prefs(items: Seq<MenuItem>, n: int) -> Option<u64>
    decreases items, n,
{
    if n <= 0 || n > items.len() {
        None
    } else {
        match first_prefs(items, n - 1) {
            Some(a) => Some(a),
            None => prefs_of(items[n - 1]),
        }
    }
}

fn prefs_in(item: &MenuItem) -> (r: Option<u64>)
    ensures
        r == prefs_of(*item),
    decreases item, 0int,
{
    match item {
        MenuItem::Separator => None,
        MenuItem::Submenu { items, .. } => find_prefs_id(items),
        MenuItem::Action { action, role, .. } => {
            if *action != 0 {
                match role {
                    Some(MenuRole::Preferences) => Some(*action),
                    _ => None,
                }
            } else {
                None
            }
        },
    }
}

proof fn prefs_found_stays(items: Seq<MenuItem>, m: int, n: int)
    requires
        0 <= m <= n <= items.len(),
        first_prefs(items, m) is Some,
    ensures
        first_prefs(items, n) == first_prefs(items, m),
    decreases n,
{
    if m < n {
        prefs_found_stays(items, m, n - 1);
    }
}

/// The action that the preferences item runs, where the menu has one.
pub fn find_prefs_id(items: &Vec<MenuItem>) -> (r: Option<u64>)
    ensures
        r == first_prefs(items@, items@.len() as int),
    decreases items, 1int,
{
    let mut i: usize = 0;
    while i < items.len()
        invariant
            i <= items.len(),
            first_prefs(items@, i as int) is None,
        decreases items.len() - i,
    {
        let r = prefs_in(&items[i]);
        if r.is_some() {
            proof {
                assert(first_prefs(items@, i + 1) == r);
                prefs_found_stays(items@, i + 1, items@.len() as int);
            }
            return r;
        }
        i = i + 1;
    }
    None
}

} // verus!
