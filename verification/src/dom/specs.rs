//! The JSON specs that cross to the page whole: navigation menus, toolbars, pickers and dialogs.
use crate::dom::css::{hex_color, hex_css};
use crate::dom::image::{icon_source, icon_url, image_url, url};
use crate::json::{json_bool, json_str, json_string, push_bool};
use crate::model::{
    ButtonRole, Color, FileFilter, Icon, MenuItem, PresentButton, PresentSpec, Segmented,
    ToolbarColumn, ToolbarItem, ToolbarKind, ToolbarPatch, ToolbarPlacement,
};
use crate::pieces::{at, entry_at, MenuRows};
use crate::text::{decimal, owned, push_decimal};
use vstd::prelude::*;

verus! {

/// A comma in front of every item but the first.
pub open spec fn comma(n: int) -> Seq<char> {
    if n > 0 {
        ","@
    } else {
        Seq::empty()
    }
}

fn push_comma(out: &mut String, n: usize)
    ensures
        final(out)@ == old(out)@ + comma(n as int),
{
    if n > 0 {
        out.append(",");
    }
    proof {
        assert(out@ =~= old(out)@ + comma(n as int));
    }
}

/// The first `n` texts as JSON strings, with commas between them.
pub open spec fn string_list(v: Seq<String>, n: int) -> Seq<char>
    decreases n,
{
    if n <= 0 {
        Seq::empty()
    } else {
        string_list(v, n - 1) + comma(n - 1) + json_string(v[n - 1]@)
    }
}

fn push_string_list(out: &mut String, v: &Vec<String>)
    ensures
        final(out)@ == old(out)@ + string_list(v@, v.len() as int),
{
    let mut body = String::new();
    let mut i: usize = 0;
    while i < v.len()
        invariant
            i <= v.len(),
            body@ == string_list(v@, i as int),
        decreases v.len() - i,
    {
        push_comma(&mut body, i);
        json_str(&mut body, v[i].as_str());
        i = i + 1;
    }
    out.append(body.as_str());
}

/// A row's glyph: its field, and behind it the field of its tint.
pub open spec fn glyph_fields(
    icon_key: Seq<char>,
    icon: Option<String>,
    tint_key: Seq<char>,
    tint: Option<Color>,
    vectors: Seq<String>,
) -> Seq<char> {
    match icon {
        Some(name) => icon_key + json_string(url(name@, vectors)) + (match tint {
            Some(t) => tint_key + json_string(hex_color(t)),
            None => Seq::empty(),
        }),
        None => Seq::empty(),
    }
}

fn glyph_json(
    icon_key: &str,
    icon: Option<&String>,
    tint_key: &str,
    tint: Option<&Color>,
    vectors: &Vec<String>,
) -> (s: String)
    ensures
        s@ == glyph_fields(
            icon_key@,
            (match icon {
                Some(t) => Some(*t),
                None => None,
            }),
            tint_key@,
            (match tint {
                Some(t) => Some(*t),
                None => None,
            }),
            vectors@,
        ),
{
    match icon {
        Some(name) => {
            let mut s = owned(icon_key);
            json_str(&mut s, image_url(name.as_str(), vectors).as_str());
            let mut t = String::new();
            match tint {
                Some(c) => {
                    t.append(tint_key);
                    assert(t@ =~= tint_key@);
                    json_str(&mut t, hex_css(c).as_str());
                },
                None => {},
            }
            s.append(t.as_str());
            s
        },
        None => String::new(),
    }
}

/// One row of a navigation menu.
pub open spec fn row_json(rows: MenuRows, i: int, vectors: Seq<String>) -> Seq<char> {
    "{\"title\":"@ + json_string(rows.items@[i]@) + glyph_fields(
        ",\"icon\":"@,
        at(rows.icons@, i),
        ",\"tint\":"@,
        at(rows.tints@, i),
        vectors,
    ) + glyph_fields(
        ",\"badgeIcon\":"@,
        at(rows.badge_icons@, i),
        ",\"badgeTint\":"@,
        at(rows.badge_tints@, i),
        vectors,
    ) + "}"@
}

/// The first `n` rows, with commas between them.
pub open spec fn rows_json(rows: MenuRows, n: int, vectors: Seq<String>) -> Seq<char>
    decreases n,
{
    if n <= 0 {
        Seq::empty()
    } else {
        rows_json(rows, n - 1, vectors) + comma(n - 1) + row_json(rows, n - 1, vectors)
    }
}

/// A navigation menu with its selected row, minus one for none.
pub open spec fn navmenu(rows: MenuRows, selected: Option<usize>, vectors: Seq<String>) -> Seq<
    char,
> {
    "{\"items\":["@ + rows_json(rows, rows.items@.len() as int, vectors) + "],\"selected\":"@ + (
    match selected {
        Some(i) => decimal(i as nat),
        None => "-1"@,
    }) + "}"@
}

pub fn navmenu_json(rows: &MenuRows, selected: Option<usize>, vectors: &Vec<String>) -> (s: String)
    ensures
        s@ == navmenu(*rows, selected, vectors@),
{
    let mut body = String::new();
    let mut i: usize = 0;
    while i < rows.items.len()
        invariant
            i <= rows.items.len(),
            body@ == rows_json(*rows, i as int, vectors@),
        decreases rows.items.len() - i,
    {
        let mut row = owned("{\"title\":");
        json_str(&mut row, rows.items[i].as_str());
        row.append(
            glyph_json(
                ",\"icon\":",
                entry_at(&rows.icons, i),
                ",\"tint\":",
                entry_at(&rows.tints, i),
                vectors,
            ).as_str(),
        );
        row.append(
            glyph_json(
                ",\"badgeIcon\":",
                entry_at(&rows.badge_icons, i),
                ",\"badgeTint\":",
                entry_at(&rows.badge_tints, i),
                vectors,
            ).as_str(),
        );
        row.append("}");
        push_comma(&mut body, i);
        body.append(row.as_str());
        i = i + 1;
    }
    let mut s = owned("{\"items\":[");
    s.append(body.as_str());
    s.append("],\"selected\":");
    match selected {
        Some(i) => push_decimal(&mut s, i as u64),
        None => s.append("-1"),
    }
    s.append("}");
    s
}

/// A field that is there only when the icon has a picture.
pub open spec fn icon_field(icon: Option<Icon>, vectors: Seq<String>) -> Seq<char> {
    match icon_source(icon, vectors) {
        Some(u) => ",\"icon\":"@ + json_string(u),
        None => Seq::empty(),
    }
}

fn icon_json(icon: &Option<Icon>, vectors: &Vec<String>) -> (s: String)
    ensures
        s@ == icon_field(*icon, vectors@),
{
    match icon_url(icon, vectors) {
        Some(u) => {
            let mut s = owned(",\"icon\":");
            json_str(&mut s, u.as_str());
            s
        },
        None => String::new(),
    }
}

/// The mark of a checkable entry; a plain command has no such field.
pub open spec fn checked_field(checked: Option<bool>) -> Seq<char> {
    match checked {
        Some(on) => ",\"checked\":"@ + json_bool(on),
        None => Seq::empty(),
    }
}

/// One entry of a pull-down.
pub open spec fn menu_entry(item: MenuItem, vectors: Seq<String>) -> Seq<char>
    decreases item, 0int,
{
    match item {
        MenuItem::Separator => "{\"sep\":true}"@,
        MenuItem::Submenu { label, items } => "{\"label\":"@ + json_string(label@)
            + ",\"items\":"@ + ("["@ + menu_entries(items@, items@.len() as int, vectors) + "]"@)
            + "}"@,
        MenuItem::Action { action, label, enabled, checked, role, shortcut, icon } => "{\"label\":"@
            + json_string(label@) + ",\"id\":"@ + decimal(action as nat) + ",\"enabled\":"@
            + json_bool(enabled) + checked_field(checked) + icon_field(icon, vectors) + "}"@,
    }
}

/// The first `n` entries, with commas between them.
pub open spec fn menu_entries(items: Seq<MenuItem>, n: int, vectors: Seq<String>) -> Seq<char>
    decreases items, n,
{
    if n <= 0 || n > items.len() {
        Seq::empty()
    } else {
        menu_entries(items, n - 1, vectors) + comma(n - 1) + menu_entry(items[n - 1], vectors)
    }
}

/// A pull-down's entries.
pub open spec fn menu_list(items: Seq<MenuItem>, vectors: Seq<String>) -> Seq<char> {
    "["@ + menu_entries(items, items.len() as int, vectors) + "]"@
}

fn entry_json(item: &MenuItem, vectors: &Vec<String>) -> (s: String)
    ensures
        s@ == menu_entry(*item, vectors@),
    decreases item, 0int,
{
    match item {
        MenuItem::Separator => owned("{\"sep\":true}"),
        MenuItem::Submenu { label, items } => {
            let mut s = owned("{\"label\":");
            json_str(&mut s, label.as_str());
            s.append(",\"items\":");
            s.append(menu_items_json(items, vectors).as_str());
            s.append("}");
            s
        },
        MenuItem::Action { action, label, enabled, checked, role, shortcut, icon } => {
            let mut s = owned("{\"label\":");
            json_str(&mut s, label.as_str());
            s.append(",\"id\":");
            push_decimal(&mut s, *action);
            s.append(",\"enabled\":");
            push_bool(&mut s, *enabled);
            let mut c = String::new();
            match checked {
                Some(on) => {
                    c = owned(",\"checked\":");
                    push_bool(&mut c, *on);
                },
                None => {},
            }
            s.append(c.as_str());
            s.append(icon_json(icon, vectors).as_str());
            s.append("}");
            s
        },
    }
}

/// A pull-down's entries as the page's popup takes them.
pub fn menu_items_json(items: &Vec<MenuItem>, vectors: &Vec<String>) -> (s: String)
    ensures
        s@ == menu_list(items@, vectors@),
    decreases items, 1int,
{
    let mut body = String::new();
    let mut i: usize = 0;
    while i < items.len()
        invariant
            i <= items.len(),
            body@ == menu_entries(items@, i as int, vectors@),
        decreases items.len() - i,
    {
        push_comma(&mut body, i);
        body.append(entry_json(&items[i], vectors).as_str());
        i = i + 1;
    }
    let mut s = owned("[");
    s.append(body.as_str());
    s.append("]");
    s
}

/// The one-letter kind of a toolbar item.
pub open spec fn kind_letter(kind: ToolbarKind) -> Seq<char> {
    match kind {
        ToolbarKind::Button => "B"@,
        ToolbarKind::Toggle { .. } => "T"@,
        ToolbarKind::Menu { .. } => "M"@,
        ToolbarKind::Search { .. } => "F"@,
        ToolbarKind::Segments { .. } => "G"@,
        ToolbarKind::Label => "L"@,
        ToolbarKind::Separator => "-"@,
    }
}

/// Where on its track an item packs.
pub open spec fn place_name(p: ToolbarPlacement) -> Seq<char> {
    match p {
        ToolbarPlacement::Navigation => "nav"@,
        ToolbarPlacement::Principal => "mid"@,
        ToolbarPlacement::Primary => "primary"@,
        ToolbarPlacement::Secondary => "secondary"@,
        ToolbarPlacement::Bottom => "secondary"@,
        ToolbarPlacement::Automatic => "auto"@,
    }
}

/// The track an item stands on.
pub open spec fn column_name(c: ToolbarColumn) -> Seq<char> {
    match c {
        ToolbarColumn::Sidebar => "sidebar"@,
        ToolbarColumn::List => "list"@,
        ToolbarColumn::Detail => "detail"@,
        ToolbarColumn::Window => "detail"@,
    }
}

/// The first `n` segments, with commas between them.
pub open spec fn segments_json(v: Seq<Segmented>, n: int, vectors: Seq<String>) -> Seq<char>
    decreases n,
{
    if n <= 0 {
        Seq::empty()
    } else {
        segments_json(v, n - 1, vectors) + comma(n - 1) + ("{\"title\":"@ + json_string(
            v[n - 1].title@,
        ) + icon_field(v[n - 1].icon, vectors) + "}"@)
    }
}

/// The fields only some kinds of item have.
pub open spec fn kind_fields(kind: ToolbarKind, vectors: Seq<String>) -> Seq<char> {
    match kind {
        ToolbarKind::Toggle { on } => ",\"on\":"@ + json_bool(on),
        ToolbarKind::Segments { segments, selected } => ",\"selected\":"@ + decimal(
            selected as nat,
        ) + ",\"segments\":["@ + segments_json(segments@, segments@.len() as int, vectors) + "]"@,
        ToolbarKind::Menu { items } => ",\"menu\":"@ + menu_list(items@, vectors),
        ToolbarKind::Search { text, placeholder, suggestions } => ",\"text\":"@ + json_string(
            text@,
        ) + ",\"placeholder\":"@ + json_string(placeholder@) + ",\"suggestions\":["@
            + string_list(suggestions@, suggestions@.len() as int) + "]"@,
        _ => Seq::empty(),
    }
}

/// What an item's tooltip says: its own, else its label.
pub open spec fn tip(it: ToolbarItem) -> Seq<char> {
    match it.tooltip {
        Some(t) => t@,
        None => it.label@,
    }
}

/// One toolbar item.
pub open spec fn item_json(it: ToolbarItem, vectors: Seq<String>) -> Seq<char> {
    "{\"kind\":"@ + json_string(kind_letter(it.kind)) + ",\"id\":"@ + json_string(it.id@)
        + ",\"label\":"@ + json_string(it.label@) + ",\"tip\":"@ + json_string(tip(it))
        + ",\"action\":"@ + decimal(it.action as nat) + ",\"enabled\":"@ + json_bool(it.enabled)
        + ",\"place\":"@ + json_string(place_name(it.placement)) + ",\"col\":"@ + json_string(
        column_name(it.column),
    ) + kind_fields(it.kind, vectors) + icon_field(it.icon, vectors) + "}"@
}

/// The first `n` toolbar items, with commas between them.
pub open spec fn items_json(items: Seq<ToolbarItem>, n: int, vectors: Seq<String>) -> Seq<char>
    decreases n,
{
    if n <= 0 {
        Seq::empty()
    } else {
        items_json(items, n - 1, vectors) + comma(n - 1) + item_json(items[n - 1], vectors)
    }
}

/// A whole toolbar.
pub open spec fn toolbar(items: Seq<ToolbarItem>, vectors: Seq<String>) -> Seq<char> {
    "{\"items\":["@ + items_json(items, items.len() as int, vectors) + "]}"@
}

fn segments_text(v: &Vec<Segmented>, vectors: &Vec<String>) -> (s: String)
    ensures
        s@ == segments_json(v@, v.len() as int, vectors@),
{
    let mut body = String::new();
    let mut i: usize = 0;
    while i < v.len()
        invariant
            i <= v.len(),
            body@ == segments_json(v@, i as int, vectors@),
        decreases v.len() - i,
    {
        let mut seg = owned("{\"title\":");
        json_str(&mut seg, v[i].title.as_str());
        seg.append(icon_json(&v[i].icon, vectors).as_str());
        seg.append("}");
        push_comma(&mut body, i);
        body.append(seg.as_str());
        i = i + 1;
    }
    body
}

fn kind_json(kind: &ToolbarKind, vectors: &Vec<String>) -> (s: String)
    ensures
        s@ == kind_fields(*kind, vectors@),
{
    match kind {
        ToolbarKind::Toggle { on } => {
            let mut s = owned(",\"on\":");
            push_bool(&mut s, *on);
            s
        },
        ToolbarKind::Segments { segments, selected } => {
            let mut s = owned(",\"selected\":");
            push_decimal(&mut s, *selected as u64);
            s.append(",\"segments\":[");
            s.append(segments_text(segments, vectors).as_str());
            s.append("]");
            s
        },
        ToolbarKind::Menu { items } => {
            let mut s = owned(",\"menu\":");
            s.append(menu_items_json(items, vectors).as_str());
            s
        },
        ToolbarKind::Search { text, placeholder, suggestions } => {
            let mut s = owned(",\"text\":");
            json_str(&mut s, text.as_str());
            s.append(",\"placeholder\":");
            json_str(&mut s, placeholder.as_str());
            s.append(",\"suggestions\":[");
            push_string_list(&mut s, suggestions);
            s.append("]");
            s
        },
        _ => String::new(),
    }
}

fn toolbar_item_json(it: &ToolbarItem, vectors: &Vec<String>) -> (s: String)
    ensures
        s@ == item_json(*it, vectors@),
{
    let letter: &str = match &it.kind {
        ToolbarKind::Button => "B",
        ToolbarKind::Toggle { .. } => "T",
        ToolbarKind::Menu { .. } => "M",
        ToolbarKind::Search { .. } => "F",
        ToolbarKind::Segments { .. } => "G",
        ToolbarKind::Label => "L",
        ToolbarKind::Separator => "-",
    };
    let place: &str = match it.placement {
        ToolbarPlacement::Navigation => "nav",
        ToolbarPlacement::Principal => "mid",
        ToolbarPlacement::Primary => "primary",
        ToolbarPlacement::Secondary => "secondary",
        ToolbarPlacement::Bottom => "secondary",
        ToolbarPlacement::Automatic => "auto",
    };
    let column: &str = match it.column {
        ToolbarColumn::Sidebar => "sidebar",
        ToolbarColumn::List => "list",
        ToolbarColumn::Detail => "detail",
        ToolbarColumn::Window => "detail",
    };
    let hint: &str = match &it.tooltip {
        Some(t) => t.as_str(),
        None => it.label.as_str(),
    };
    let mut s = owned("{\"kind\":");
    json_str(&mut s, letter);
    s.append(",\"id\":");
    json_str(&mut s, it.id.as_str());
    s.append(",\"label\":");
    json_str(&mut s, it.label.as_str());
    s.append(",\"tip\":");
    json_str(&mut s, hint);
    s.append(",\"action\":");
    push_decimal(&mut s, it.action);
    s.append(",\"enabled\":");
    push_bool(&mut s, it.enabled);
    s.append(",\"place\":");
    json_str(&mut s, place);
    s.append(",\"col\":");
    json_str(&mut s, column);
    s.append(kind_json(&it.kind, vectors).as_str());
    s.append(icon_json(&it.icon, vectors).as_str());
    s.append("}");
    s
}

/// A whole toolbar, as one spec that rebuilds the strip.
pub fn toolbar_json(items: &Vec<ToolbarItem>, vectors: &Vec<String>) -> (s: String)
    ensures
        s@ == toolbar(items@, vectors@),
{
    let mut body = String::new();
    let mut i: usize = 0;
    while i < items.len()
        invariant
            i <= items.len(),
            body@ == items_json(items@, i as int, vectors@),
        decreases items.len() - i,
    {
        push_comma(&mut body, i);
        body.append(toolbar_item_json(&items[i], vectors).as_str());
        i = i + 1;
    }
    let mut s = owned("{\"items\":[");
    s.append(body.as_str());
    s.append("]}");
    s
}

/// A change to one toolbar item.
pub open spec fn toolbar_change(patch: ToolbarPatch) -> Seq<char> {
    match patch {
        ToolbarPatch::Text { item, text } => "{\"item\":"@ + json_string(item@) + ",\"text\":"@
            + json_string(text@) + "}"@,
        ToolbarPatch::On { item, on } => "{\"item\":"@ + json_string(item@) + ",\"on\":"@
            + json_bool(on) + "}"@,
        ToolbarPatch::Selected { item, index } => "{\"item\":"@ + json_string(item@)
            + ",\"selected\":"@ + decimal(index as nat) + "}"@,
        ToolbarPatch::Enabled { item, on } => "{\"item\":"@ + json_string(item@)
            + ",\"enabled\":"@ + json_bool(on) + "}"@,
        ToolbarPatch::Suggestions { item, list } => "{\"item\":"@ + json_string(item@)
            + ",\"suggestions\":["@ + string_list(list@, list@.len() as int) + "]"@ + "}"@,
    }
}

pub fn toolbar_patch_json(patch: &ToolbarPatch) -> (s: String)
    ensures
        s@ == toolbar_change(*patch),
{
    let mut s = owned("{\"item\":");
    match patch {
        ToolbarPatch::Text { item, text } => {
            json_str(&mut s, item.as_str());
            s.append(",\"text\":");
            json_str(&mut s, text.as_str());
        },
        ToolbarPatch::On { item, on } => {
            json_str(&mut s, item.as_str());
            s.append(",\"on\":");
            push_bool(&mut s, *on);
        },
        ToolbarPatch::Selected { item, index } => {
            json_str(&mut s, item.as_str());
            s.append(",\"selected\":");
            push_decimal(&mut s, *index as u64);
        },
        ToolbarPatch::Enabled { item, on } => {
            json_str(&mut s, item.as_str());
            s.append(",\"enabled\":");
            push_bool(&mut s, *on);
        },
        ToolbarPatch::Suggestions { item, list } => {
            json_str(&mut s, item.as_str());
            s.append(",\"suggestions\":[");
            push_string_list(&mut s, list);
            s.append("]");
        },
    }
    s.append("}");
    s
}

/// A picker's options and its selected one.
pub open spec fn picker(options: Seq<String>, selected: usize) -> Seq<char> {
    "{\"options\":["@ + string_list(options, options.len() as int) + "],\"selected\":"@ + decimal(
        selected as nat,
    ) + "}"@
}

pub fn picker_json(options: &Vec<String>, selected: usize) -> (s: String)
    ensures
        s@ == picker(options@, selected),
{
    let mut s = owned("{\"options\":[");
    push_string_list(&mut s, options);
    s.append("],\"selected\":");
    push_decimal(&mut s, selected as u64);
    s.append("}");
    s
}

/// The name of a button's role.
pub open spec fn role_name(role: ButtonRole) -> Seq<char> {
    match role {
        ButtonRole::Default => "default"@,
        ButtonRole::Cancel => "cancel"@,
        ButtonRole::Destructive => "destructive"@,
    }
}

/// The first `n` buttons of a dialog, with commas between them.
pub open spec fn buttons_json(v: Seq<PresentButton>, n: int) -> Seq<char>
    decreases n,
{
    if n <= 0 {
        Seq::empty()
    } else {
        buttons_json(v, n - 1) + comma(n - 1) + ("{\"label\":"@ + json_string(v[n - 1].label@)
            + ",\"role\":\""@ + role_name(v[n - 1].role) + "\"}"@)
    }
}

/// A dialog's message, where it has one.
pub open spec fn message_field(message: Option<String>) -> Seq<char> {
    match message {
        Some(m) => ",\"message\":"@ + json_string(m@),
        None => Seq::empty(),
    }
}

/// The extensions of the first `n` filters, in order.
pub open spec fn extensions(filters: Seq<FileFilter>, n: int) -> Seq<Seq<char>>
    decreases n,
{
    if n <= 0 {
        Seq::empty()
    } else {
        extensions(filters, n - 1) + crate::model::texts(filters[n - 1].extensions@)
    }
}

/// Extensions as the page's file input takes them: each with a dot, with commas between them.
pub open spec fn accept_list(v: Seq<Seq<char>>) -> Seq<char>
    decreases v.len(),
{
    if v.len() == 0 {
        Seq::empty()
    } else {
        accept_list(v.drop_last()) + comma(v.len() - 1) + ("."@ + v.last())
    }
}

/// A presented surface; a save has none of its own, since its bytes travel beside it.
pub open spec fn surface(spec: PresentSpec) -> Option<Seq<char>> {
    match spec {
        PresentSpec::Dialog { title, message, buttons, sheet } => Some(
            "{\"kind\":\"dialog\",\"title\":"@ + json_string(title@) + message_field(message)
                + ",\"sheet\":"@ + json_bool(sheet) + ",\"buttons\":["@ + buttons_json(
                buttons@,
                buttons@.len() as int,
            ) + "]"@ + "}"@,
        ),
        PresentSpec::Prompt { title, message, placeholder, initial, ok, cancel } => Some(
            "{\"kind\":\"prompt\",\"title\":"@ + json_string(title@) + message_field(message)
                + ",\"placeholder\":"@ + json_string(placeholder@) + ",\"initial\":"@
                + json_string(initial@) + ",\"ok\":"@ + json_string(ok@) + ",\"cancel\":"@
                + json_string(cancel@) + "}"@,
        ),
        PresentSpec::OpenFile { title, filters } => Some(
            "{\"kind\":\"open\",\"title\":"@ + json_string(title@) + ",\"accept\":"@ + json_string(
                accept_list(extensions(filters@, filters@.len() as int)),
            ) + "}"@,
        ),
        PresentSpec::SaveFile { .. } => None,
    }
}

/// The spec of a save, whose bytes travel beside it.
pub open spec fn save_surface(title: Seq<char>, name: Seq<char>) -> Seq<char> {
    "{\"kind\":\"save\",\"title\":"@ + json_string(title) + ",\"name\":"@ + json_string(name)
        + "}"@
}

fn buttons_text(v: &Vec<PresentButton>) -> (s: String)
    ensures
        s@ == buttons_json(v@, v.len() as int),
{
    let mut body = String::new();
    let mut i: usize = 0;
    while i < v.len()
        invariant
            i <= v.len(),
            body@ == buttons_json(v@, i as int),
        decreases v.len() - i,
    {
        let role: &str = match v[i].role {
            ButtonRole::Default => "default",
            ButtonRole::Cancel => "cancel",
            ButtonRole::Destructive => "destructive",
        };
        let mut b = owned("{\"label\":");
        json_str(&mut b, v[i].label.as_str());
        b.append(",\"role\":\"");
        b.append(role);
        b.append("\"}");
        push_comma(&mut body, i);
        body.append(b.as_str());
        i = i + 1;
    }
    body
}

fn message_text(message: &Option<String>) -> (s: String)
    ensures
        s@ == message_field(*message),
{
    match message {
        Some(m) => {
            let mut s = owned(",\"message\":");
            json_str(&mut s, m.as_str());
            s
        },
        None => String::new(),
    }
}

fn accept_text(filters: &Vec<FileFilter>) -> (s: String)
    ensures
        s@ == accept_list(extensions(filters@, filters@.len() as int)),
{
    let mut out = String::new();
    let ghost mut seen: Seq<Seq<char>> = Seq::empty();
    let mut any = false;
    let mut i: usize = 0;
    while i < filters.len()
        invariant
            i <= filters.len(),
            any == (seen.len() > 0),
            seen == extensions(filters@, i as int),
            out@ == accept_list(seen),
        decreases filters.len() - i,
    {
        let exts = &filters[i].extensions;
        let ghost before = seen;
        let mut j: usize = 0;
        while j < exts.len()
            invariant
                j <= exts.len(),
                any == (seen.len() > 0),
                seen == before + crate::model::texts(exts@).take(j as int),
                out@ == accept_list(seen),
            decreases exts.len() - j,
        {
            let ghost old_seen = seen;
            let mut one = owned(".");
            one.append(exts[j].as_str());
            let mut sep = String::new();
            if any {
                sep = owned(",");
            }
            out.append(sep.as_str());
            out.append(one.as_str());
            any = true;
            proof {
                seen = seen.push(exts@[j as int]@);
                assert(seen.drop_last() =~= old_seen);
                assert(seen =~= before + crate::model::texts(exts@).take(j + 1));
            }
            j = j + 1;
        }
        proof {
            assert(crate::model::texts(exts@).take(exts.len() as int) =~= crate::model::texts(
                exts@,
            ));
        }
        i = i + 1;
    }
    out
}

/// The spec of a presented surface, or none for a save.
pub fn present_json(spec: &PresentSpec) -> (r: Option<String>)
    ensures
        match r {
            Some(s) => surface(*spec) == Some(s@),
            None => surface(*spec) is None,
        },
{
    match spec {
        PresentSpec::Dialog { title, message, buttons, sheet } => {
            let mut s = owned("{\"kind\":\"dialog\",\"title\":");
            json_str(&mut s, title.as_str());
            s.append(message_text(message).as_str());
            s.append(",\"sheet\":");
            push_bool(&mut s, *sheet);
            s.append(",\"buttons\":[");
            s.append(buttons_text(buttons).as_str());
            s.append("]");
            s.append("}");
            Some(s)
        },
        PresentSpec::Prompt { title, message, placeholder, initial, ok, cancel } => {
            let mut s = owned("{\"kind\":\"prompt\",\"title\":");
            json_str(&mut s, title.as_str());
            s.append(message_text(message).as_str());
            s.append(",\"placeholder\":");
            json_str(&mut s, placeholder.as_str());
            s.append(",\"initial\":");
            json_str(&mut s, initial.as_str());
            s.append(",\"ok\":");
            json_str(&mut s, ok.as_str());
            s.append(",\"cancel\":");
            json_str(&mut s, cancel.as_str());
            s.append("}");
            Some(s)
        },
        PresentSpec::OpenFile { title, filters } => {
            let mut s = owned("{\"kind\":\"open\",\"title\":");
            json_str(&mut s, title.as_str());
            s.append(",\"accept\":");
            json_str(&mut s, accept_text(filters).as_str());
            s.append("}");
            Some(s)
        },
        PresentSpec::SaveFile { .. } => None,
    }
}

/// The spec of a save.
pub fn save_json(title: &str, name: &str) -> (s: String)
    ensures
        s@ == save_surface(title@, name@),
{
    let mut s = owned("{\"kind\":\"save\",\"title\":");
    json_str(&mut s, title);
    s.append(",\"name\":");
    json_str(&mut s, name);
    s.append("}");
    s
}

} // verus!
