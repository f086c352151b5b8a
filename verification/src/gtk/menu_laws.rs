//! What a menu's model holds, entry by entry, what its shortcuts are, and what a dialog is made of.
use crate::gtk::act::{Act, Later, SpecAct};
use crate::gtk::dialogs::{
    answered, button_acts, buttons_acts, file_acts, modal_acts, patterns, present_acts, DialogsView,
    SpecResult,
};
use crate::gtk::menu::{
    accel, accel_key, accel_modifiers, first_prefs, item_accels, item_steps, items_accels,
    items_steps, menu_steps, prefs_of, puts_entry, section_open, stock_action, stock_label, Glyph,
    MenuStep, SpecStep,
};
use crate::model::{
    ButtonRole, Event, Icon, MenuItem, MenuRole, PresentButton, PresentResult, PresentSpec,
    Shortcut, Target,
};
use crate::text::decimal;
use vstd::prelude::*;

verus! {

/// The actions that the toolkit has itself, and the labels of the roles.
pub proof fn roles_have_their_actions_and_labels()
    ensures
        stock_action(MenuRole::Cut) == Some("clipboard.cut"@),
        stock_action(MenuRole::Copy) == Some("clipboard.copy"@),
        stock_action(MenuRole::Paste) == Some("clipboard.paste"@),
        stock_action(MenuRole::SelectAll) == Some("selection.select-all"@),
        stock_action(MenuRole::Undo) == Some("text.undo"@),
        stock_action(MenuRole::Redo) == Some("text.redo"@),
        stock_action(MenuRole::Quit) == Some("app.quit"@),
        stock_action(MenuRole::CloseWindow) == Some("window.close"@),
        stock_action(MenuRole::Minimize) == Some("window.minimize"@),
        stock_action(MenuRole::Delete) is None,
        stock_action(MenuRole::About) is None,
        stock_action(MenuRole::Preferences) is None,
        stock_action(MenuRole::Fullscreen) is None,
        stock_action(MenuRole::NewWindow) is None,
        stock_label(MenuRole::Cut) == "Cut"@,
        stock_label(MenuRole::Copy) == "Copy"@,
        stock_label(MenuRole::Paste) == "Paste"@,
        stock_label(MenuRole::SelectAll) == "Select All"@,
        stock_label(MenuRole::Undo) == "Undo"@,
        stock_label(MenuRole::Redo) == "Redo"@,
        stock_label(MenuRole::Delete) == "Delete"@,
        stock_label(MenuRole::About) == "About"@,
        stock_label(MenuRole::Quit) == "Quit"@,
        stock_label(MenuRole::Preferences) == "Preferences"@,
        stock_label(MenuRole::Minimize) == "Minimize"@,
        stock_label(MenuRole::CloseWindow) == "Close"@,
        stock_label(MenuRole::Fullscreen) == "Full Screen"@,
        stock_label(MenuRole::NewWindow) == "New Window"@,
{
}

/// A shortcut names its modifiers, the primary one as the machine has it, then shift, alt and
/// control, each where it is held and only there; and behind them its key.
pub proof fn a_shortcut_names_its_modifiers(s: Shortcut, mac: bool, names: Seq<(char, String)>)
    ensures
        ({
            let all = accel(s, mac, names);
            let key = accel_key(s.key@, names);
            &&& all == accel_modifiers(s, mac) + key
            &&& !s.primary && !s.shift && !s.alt && !s.control ==> all == key
            &&& s.primary && !s.shift && !s.alt && !s.control && mac ==> all == "<Meta>"@ + key
            &&& s.primary && !s.shift && !s.alt && !s.control && !mac ==> all == "<Primary>"@ + key
            &&& !s.primary && s.shift && !s.alt && !s.control ==> all == "<Shift>"@ + key
            &&& !s.primary && !s.shift && s.alt && !s.control ==> all == "<Alt>"@ + key
            &&& !s.primary && !s.shift && !s.alt && s.control ==> all == "<Control>"@ + key
            &&& s.primary && s.shift && !s.alt && !s.control && !mac ==> all == "<Primary>"@
                + "<Shift>"@ + key
            &&& s.primary && s.shift && s.alt && s.control && !mac ==> all == "<Primary>"@
                + "<Shift>"@ + "<Alt>"@ + "<Control>"@ + key
            &&& s.primary && s.shift && s.alt && s.control && mac ==> all == "<Meta>"@
                + "<Shift>"@ + "<Alt>"@ + "<Control>"@ + key
        }),
{
    reveal_strlit("");
    assert(""@ =~= Seq::<char>::empty());
    let all = accel(s, mac, names);
    let key = accel_key(s.key@, names);
    let p = if s.primary {
        if mac {
            "<Meta>"@
        } else {
            "<Primary>"@
        }
    } else {
        Seq::empty()
    };
    let h = if s.shift {
        "<Shift>"@
    } else {
        Seq::empty()
    };
    let a = if s.alt {
        "<Alt>"@
    } else {
        Seq::empty()
    };
    let c = if s.control {
        "<Control>"@
    } else {
        Seq::empty()
    };
    assert(all =~= p + h + a + c + key);
    assert(Seq::<char>::empty() + key =~= key);
    assert(p + Seq::<char>::empty() =~= p);
    assert(p + h + Seq::<char>::empty() =~= p + h);
    assert(p + h + a + Seq::<char>::empty() =~= p + h + a);
    assert(Seq::<char>::empty() + h =~= h);
    assert(Seq::<char>::empty() + a =~= a);
    assert(Seq::<char>::empty() + c =~= c);
}

/// The key of a shortcut: a letter or a digit is itself in lower case, the named keys go by the
/// toolkit's names, a sign by the name it is known under, and any longer name is kept.
pub proof fn a_shortcut_names_its_key(k: Seq<char>, names: Seq<(char, String)>)
    ensures
        k == "Return"@ || k == "Enter"@ ==> accel_key(k, names) == "Return"@,
        k == "Delete"@ || k == "Backspace"@ ==> accel_key(k, names) == "Delete"@,
        k == "Space"@ ==> accel_key(k, names) == "space"@,
        k.len() == 1 && ('a' <= k[0] <= 'z' || '0' <= k[0] <= '9') ==> accel_key(k, names) == k,
        k.len() == 1 && 'A' <= k[0] <= 'Z' ==> accel_key(k, names).len() == 1 && accel_key(
            k,
            names,
        )[0] as int == k[0] as int + 32,
        k.len() != 1 && k != "Return"@ && k != "Enter"@ && k != "Delete"@ && k != "Backspace"@ && k
            != "Space"@ ==> accel_key(k, names) == k,
{
    reveal_strlit("Return");
    reveal_strlit("Enter");
    reveal_strlit("Delete");
    reveal_strlit("Backspace");
    reveal_strlit("Space");
    reveal_strlit("space");
    assert("Return"@.len() == 6 && "Enter"@.len() == 5 && "Delete"@.len() == 6);
    assert("Backspace"@.len() == 9 && "Space"@.len() == 5);
    assert("Delete"@[0] != "Return"@[0]);
    assert("Space"@[0] != "Enter"@[0]);
    if k.len() == 1 && ('a' <= k[0] <= 'z' || '0' <= k[0] <= '9') {
        assert(accel_key(k, names) =~= k);
    }
}

/// An action of the app's is one action under a name of its own, with its number, whether it can be
/// chosen and whether it is checked; and one entry that leads to it, with its label or else its
/// role's, its shortcut and its picture.
pub proof fn an_action_is_an_entry(
    item: MenuItem,
    open: bool,
    mac: bool,
    names: Seq<(char, String)>,
)
    requires
        item is Action,
        item->action != 0,
    ensures
        item matches MenuItem::Action { action, label, enabled, checked, role, shortcut, icon }
            && {
            let made = item_steps(item, open, mac, names);
            let name = "a"@ + decimal(action as nat);
            &&& made.len() == 2
            &&& made[0] == (SpecStep::Action { name, action, enabled, checked })
            &&& made[1] matches MenuStep::Item { label: shown, action: leads, accel: keys, icon: glyph }
                && {
                &&& leads == "daymenu."@ + name
                &&& label@.len() > 0 ==> shown == label@
                &&& label@.len() == 0 && role is Some ==> shown == stock_label(role->0)
                &&& label@.len() == 0 && role is None ==> shown.len() == 0
                &&& shortcut is None ==> keys is None
                &&& shortcut is Some ==> keys == Some(accel(shortcut->0, mac, names))
                &&& icon is None ==> glyph is None
                &&& icon matches Some(Icon::Image(n)) ==> glyph == Some(Glyph::Image(n@))
                &&& icon matches Some(Icon::Symbol(Some(d))) ==> glyph == Some(
                    Glyph::Symbol(Some(d@)),
                )
                &&& icon matches Some(Icon::Symbol(None)) ==> glyph == Some(
                    Glyph::<Seq<char>>::Symbol(None),
                )
            }
        },
{
}

/// A role without an action of the app's is an entry for the toolkit's own action where it has one,
/// and nothing where it has none.
pub proof fn a_role_is_an_entry(item: MenuItem, open: bool, mac: bool, names: Seq<(char, String)>)
    requires
        item is Action,
        item->action == 0,
    ensures
        item matches MenuItem::Action { label, role, .. } && {
            let made = item_steps(item, open, mac, names);
            &&& role is None ==> made.len() == 0
            &&& role is Some && stock_action(role->0) is None ==> made.len() == 0
            &&& role is Some && stock_action(role->0) is Some ==> made == seq![
                SpecStep::Item {
                    label: if label@.len() > 0 {
                        label@
                    } else {
                        stock_label(role->0)
                    },
                    action: stock_action(role->0)->0,
                    accel: None,
                    icon: None,
                },
            ]
        },
{
}

/// A submenu holds, between its beginning and its end, the menu of its own items.
pub proof fn a_submenu_holds_its_menu(
    item: MenuItem,
    open: bool,
    mac: bool,
    names: Seq<(char, String)>,
)
    requires
        item is Submenu,
    ensures
        item matches MenuItem::Submenu { label, items } && item_steps(item, open, mac, names)
            == seq![SpecStep::Submenu { label: label@ }] + menu_steps(items@, mac, names) + seq![
            SpecStep::EndSubmenu,
        ],
{
    match item {
        MenuItem::Submenu { label, items } => {
            assert(item_steps(item, open, mac, names) =~= seq![
                SpecStep::Submenu { label: label@ },
            ] + menu_steps(items@, mac, names) + seq![SpecStep::EndSubmenu]);
        },
        _ => {},
    }
}

proof fn same_front(
    items: Seq<MenuItem>,
    more: Seq<MenuItem>,
    n: int,
    mac: bool,
    names: Seq<(char, String)>,
)
    requires
        n <= items.len() <= more.len(),
        forall|i: int| 0 <= i < items.len() ==> items[i] == more[i],
    ensures
        items_steps(items, n, mac, names) == items_steps(more, n, mac, names),
        items_accels(items, n, mac, names) == items_accels(more, n, mac, names),
        section_open(items, n) == section_open(more, n),
        first_prefs(items, n) == first_prefs(more, n),
    decreases n,
{
    if n > 0 {
        same_front(items, more, n - 1, mac, names);
    }
}

/// A menu is built item by item, in order: one item more adds its own steps behind those before. A
/// separator ends the section at hand where that holds an entry, and does nothing else.
pub proof fn a_menu_is_built_in_order(
    items: Seq<MenuItem>,
    item: MenuItem,
    mac: bool,
    names: Seq<(char, String)>,
)
    ensures
        ({
            let n = items.len() as int;
            let open = section_open(items, n);
            let more = items.push(item);
            &&& items_steps(more, n + 1, mac, names) == items_steps(items, n, mac, names)
                + item_steps(item, open, mac, names)
            &&& item is Separator && open ==> item_steps(item, open, mac, names) == seq![
                SpecStep::EndSection,
            ]
            &&& item is Separator && !open ==> item_steps(item, open, mac, names).len() == 0
            &&& item is Separator ==> !section_open(more, n + 1)
            &&& item is Submenu ==> section_open(more, n + 1)
            &&& !(item is Separator) ==> (section_open(more, n + 1) <==> open || item_steps(
                item,
                open,
                mac,
                names,
            ).len() > 0)
            &&& item is Action && item->action != 0 ==> section_open(more, n + 1)
            &&& item is Action && item->action == 0 && item->role is None ==> section_open(
                more,
                n + 1,
            ) == open
            &&& menu_steps(Seq::empty(), mac, names).len() == 0
            &&& section_open(more, n + 1) ==> menu_steps(more, mac, names) == items_steps(
                more,
                n + 1,
                mac,
                names,
            ) + seq![SpecStep::EndSection]
            &&& !section_open(more, n + 1) ==> menu_steps(more, mac, names) == items_steps(
                more,
                n + 1,
                mac,
                names,
            )
        }),
{
    let n = items.len() as int;
    let more = items.push(item);
    same_front(items, more, n, mac, names);
    assert(puts_entry(item) == puts_entry(more[n]));
    if !section_open(more, n + 1) {
        assert(menu_steps(more, mac, names) =~= items_steps(more, n + 1, mac, names));
    }
}

/// The shortcuts of a menu are those of its actions that the app handles, in order, each under the
/// name that its action's entry leads to; submenus count with their own.
pub proof fn shortcuts_lead_to_their_actions(
    items: Seq<MenuItem>,
    item: MenuItem,
    mac: bool,
    names: Seq<(char, String)>,
)
    ensures
        ({
            let n = items.len() as int;
            let more = items.push(item);
            let own = item_accels(item, mac, names);
            &&& items_accels(more, n + 1, mac, names) == items_accels(items, n, mac, names) + own
            &&& item is Separator ==> own.len() == 0
            &&& item matches MenuItem::Submenu { items: inner, .. } ==> own == items_accels(
                inner@,
                inner@.len() as int,
                mac,
                names,
            )
            &&& item matches MenuItem::Action { action, shortcut, .. } ==> {
                &&& action == 0 || shortcut is None ==> own.len() == 0
                &&& action != 0 && shortcut is Some ==> own == seq![
                    (
                        "daymenu."@ + ("a"@ + decimal(action as nat)),
                        accel(shortcut->0, mac, names),
                    ),
                ]
            }
        }),
{
    same_front(items, items.push(item), items.len() as int, mac, names);
}

/// The preferences are the first action of that role that the app handles.
pub proof fn the_first_preferences_count(
    items: Seq<MenuItem>,
    item: MenuItem,
    mac: bool,
    names: Seq<(char, String)>,
)
    ensures
        ({
            let n = items.len() as int;
            let more = first_prefs(items.push(item), n + 1);
            &&& first_prefs(items, n) is Some ==> more == first_prefs(items, n)
            &&& first_prefs(items, n) is None ==> more == prefs_of(item)
            &&& item matches MenuItem::Action { action, role, .. } ==> prefs_of(item) == if action
                != 0 && role == Some(MenuRole::Preferences) {
                Some(action)
            } else {
                None
            }
            &&& item matches MenuItem::Submenu { items: inner, .. } ==> prefs_of(item)
                == first_prefs(inner@, inner@.len() as int)
            &&& item is Separator ==> prefs_of(item) is None
        }),
{
    same_front(items, items.push(item), items.len() as int, mac, names);
}

// ---- dialogs -----------------------------------------------------------------------------------

/// A button of a dialog answers by its place among the buttons, with its label; a destructive one
/// looks it, a default one is suggested and answers the enter key, and a cancelling one answers
/// when the dialog is closed.
pub proof fn a_button_is_made(dialog: u64, b: PresentButton, i: int)
    requires
        0 <= i,
    ensures
        ({
            let made = button_acts(dialog, b, i);
            let id = decimal(i as nat);
            let says: SpecAct = Act::Response { dialog, id, label: b.label@ };
            &&& b.role == ButtonRole::Destructive ==> made == seq![
                says,
                Act::Appearance { dialog, id, destructive: true },
            ]
            &&& b.role == ButtonRole::Default ==> made == seq![
                says,
                Act::Appearance { dialog, id, destructive: false },
                Act::DefaultResponse { dialog, id },
            ]
            &&& b.role == ButtonRole::Cancel ==> made == seq![
                says,
                Act::CloseResponse { dialog, id },
            ]
        }),
{
}

/// A dialog is made with its title and message, then its buttons in order, and then shown over its
/// parent; a prompt has its field and its two buttons; a picker is put off.
pub proof fn a_surface_is_made(
    req: u64,
    dialog: u64,
    spec: PresentSpec,
    parent: Option<u64>,
    b: PresentButton,
    v: Seq<PresentButton>,
)
    ensures
        ({
            let made = present_acts(req, dialog, spec, parent);
            &&& spec matches PresentSpec::Dialog { title, message, buttons, .. } ==> {
                &&& made.len() >= 2
                &&& made[0] == (SpecAct::Dialog {
                    dialog,
                    title: title@,
                    message: match message {
                        Some(m) => Some(m@),
                        None => None,
                    },
                })
                &&& made.last() == (SpecAct::ShowDialog { dialog, parent })
                &&& made.subrange(1, made.len() - 1) == buttons_acts(
                    dialog,
                    buttons@,
                    buttons@.len() as int,
                )
            }
            &&& spec matches PresentSpec::Prompt {
                title,
                message,
                placeholder,
                initial,
                ok,
                cancel,
            } ==> made == seq![
                SpecAct::Dialog {
                    dialog,
                    title: title@,
                    message: match message {
                        Some(m) => Some(m@),
                        None => None,
                    },
                },
                Act::DialogEntry { dialog, placeholder: placeholder@, initial: initial@ },
                Act::Response { dialog, id: "cancel"@, label: cancel@ },
                Act::CloseResponse { dialog, id: "cancel"@ },
                Act::Response { dialog, id: "ok"@, label: ok@ },
                Act::Appearance { dialog, id: "ok"@, destructive: false },
                Act::DefaultResponse { dialog, id: "ok"@ },
                Act::ShowDialog { dialog, parent },
            ]
            &&& spec is OpenFile ==> made == seq![
                SpecAct::Later { work: Later::Picker { req, save: false } },
            ]
            &&& spec is SaveFile ==> made == seq![
                SpecAct::Later { work: Later::Picker { req, save: true } },
            ]
        }),
        buttons_acts(dialog, v.push(b), (v.len() + 1) as int) == buttons_acts(
            dialog,
            v,
            v.len() as int,
        ) + button_acts(dialog, b, v.len() as int),
{
    same_buttons(dialog, v, v.push(b), v.len() as int);
    let made = present_acts(req, dialog, spec, parent);
    match spec {
        PresentSpec::Dialog { title, message, buttons, .. } => {
            assert(made.subrange(1, made.len() - 1) =~= buttons_acts(
                dialog,
                buttons@,
                buttons@.len() as int,
            ));
        },
        _ => {},
    }
}

proof fn same_buttons(dialog: u64, v: Seq<PresentButton>, more: Seq<PresentButton>, n: int)
    requires
        n <= v.len() <= more.len(),
        forall|i: int| 0 <= i < v.len() ==> v[i] == more[i],
    ensures
        buttons_acts(dialog, v, n) == buttons_acts(dialog, more, n),
    decreases n,
{
    if n > 0 {
        same_buttons(dialog, v, more, n - 1);
    }
}

/// A dialog that waits is answered with the result, once and to the window, and closed; one that
/// does not wait is not. A picker is answered with the file, or that there is none.
pub proof fn answers_go_to_who_asked(
    v: DialogsView,
    dialog: u64,
    req: u64,
    result: SpecResult,
    path: Seq<char>,
)
    ensures
        v.open.contains_key(dialog) ==> modal_acts(v, dialog, result) == seq![
            SpecAct::Emit {
                to: Target::Window,
                event: Event::PresentResult { req: v.open[dialog], result },
            },
            Act::CloseDialog { dialog },
        ],
        !v.open.contains_key(dialog) ==> modal_acts(v, dialog, result).len() == 0,
        v.files.contains(req) ==> file_acts(v, req, Some(path)) == seq![
            SpecAct::Emit {
                to: Target::Window,
                event: Event::PresentResult { req, result: PresentResult::Files(seq![path]) },
            },
        ],
        v.files.contains(req) ==> file_acts(v, req, None) == seq![
            SpecAct::Emit {
                to: Target::Window,
                event: Event::PresentResult { req, result: PresentResult::Dismissed },
            },
        ],
        !v.files.contains(req) ==> file_acts(v, req, Some(path)).len() == 0,
{
}

/// A filter's patterns are its endings, in order, each behind a star and a dot.
pub proof fn patterns_match_endings(extensions: Seq<String>, i: int)
    requires
        0 <= i < extensions.len(),
    ensures
        patterns(extensions).len() == extensions.len(),
        patterns(extensions)[i] == seq!['*', '.'] + extensions[i]@,
{
    reveal_strlit("*.");
    assert("*."@ =~= seq!['*', '.']);
}

} // verus!
