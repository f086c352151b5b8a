//! What the page finds in the specs that cross to it: the fields of menus, toolbars, pickers and
//! dialogs, as a JSON reader finds them by name, are those of what was handed over.
use crate::dom::css::{hex_color, listed};
use crate::dom::image::{icon_source, url};
use crate::dom::specs::{
    accept_list, buttons_json, comma, extensions, icon_field, item_json, items_json, menu_entries,
    menu_entry, menu_list, navmenu, picker, row_json, rows_json, save_surface, segments_json,
    string_list, surface, toolbar, toolbar_change,
};
use crate::json::{json_bool, json_string};
use crate::json_reader::{
    an_object_reads_back, first_field, items_text, key, next_field, no_field, one_more_field,
    one_more_item, opened, plain_text, read_json, said, says, what_is_written_reads_back, written,
    Json,
};
use crate::model::{
    ButtonRole, FileFilter, Icon, MenuItem, PresentButton, PresentSpec, Segmented, ToolbarColumn,
    ToolbarItem, ToolbarKind, ToolbarPatch, ToolbarPlacement,
};
use crate::pieces::{at, MenuRows};
use crate::text::decimal;
use vstd::prelude::*;

verus! {

// ---- what is to be found -----------------------------------------------------------------------

/// A value is what a pull-down's entry is to the page: a line says that it is one, a submenu its
/// label and its entries, and an action its label, its number, whether it can be chosen, whether
/// it is checked where it can be, and its picture where it has one.
pub open spec fn shows_entry(v: Json, item: MenuItem, vectors: Seq<String>) -> bool
    decreases item, 0int,
{
    match item {
        MenuItem::Separator => {
            &&& says(v, "sep"@) == Some(Json::Bool(true))
            &&& says(v, "label"@) is None
        },
        MenuItem::Submenu { label, items } => {
            &&& says(v, "label"@) == Some(Json::Text(label@))
            &&& says(v, "items"@) is Some
            &&& says(v, "items"@)->0 is List
            &&& (says(v, "items"@)->0)->List_0.len() == items@.len()
            &&& shows_entries((says(v, "items"@)->0)->List_0, items@, items@.len() as int, vectors)
            &&& says(v, "id"@) is None
        },
        MenuItem::Action { action, label, enabled, checked, role, shortcut, icon } => {
            &&& says(v, "label"@) == Some(Json::Text(label@))
            &&& says(v, "id"@) == Some(Json::Number(action as int))
            &&& says(v, "enabled"@) == Some(Json::Bool(enabled))
            &&& says(v, "checked"@) == match checked {
                Some(on) => Some(Json::Bool(on)),
                None => None,
            }
            &&& says(v, "icon"@) == match icon_source(icon, vectors) {
                Some(u) => Some(Json::Text(u)),
                None => None,
            }
            &&& says(v, "items"@) is None
            &&& says(v, "sep"@) is None
        },
    }
}

/// The first `n` values are what as many entries are to the page.
pub open spec fn shows_entries(
    vs: Seq<Json>,
    items: Seq<MenuItem>,
    n: int,
    vectors: Seq<String>,
) -> bool
    decreases items, n,
{
    if n <= 0 || n > items.len() {
        true
    } else {
        shows_entries(vs, items, n - 1, vectors) && shows_entry(vs[n - 1], items[n - 1], vectors)
    }
}

// ---- names of fields ---------------------------------------------------------------------------

proof fn key_accept()
    ensures
        ",\"accept\":"@ == seq![','] + key("accept"@),
{
    reveal_strlit("accept");
    plain_text("accept"@);
    reveal_strlit(",\"accept\":");
    assert(",\"accept\":"@ =~= seq![','] + key("accept"@));
}

proof fn key_action()
    ensures
        ",\"action\":"@ == seq![','] + key("action"@),
{
    reveal_strlit("action");
    plain_text("action"@);
    reveal_strlit(",\"action\":");
    assert(",\"action\":"@ =~= seq![','] + key("action"@));
}

proof fn key_badge_icon()
    ensures
        ",\"badgeIcon\":"@ == seq![','] + key("badgeIcon"@),
{
    reveal_strlit("badgeIcon");
    plain_text("badgeIcon"@);
    reveal_strlit(",\"badgeIcon\":");
    assert(",\"badgeIcon\":"@ =~= seq![','] + key("badgeIcon"@));
}

proof fn key_badge_tint()
    ensures
        ",\"badgeTint\":"@ == seq![','] + key("badgeTint"@),
{
    reveal_strlit("badgeTint");
    plain_text("badgeTint"@);
    reveal_strlit(",\"badgeTint\":");
    assert(",\"badgeTint\":"@ =~= seq![','] + key("badgeTint"@));
}

proof fn key_cancel()
    ensures
        ",\"cancel\":"@ == seq![','] + key("cancel"@),
{
    reveal_strlit("cancel");
    plain_text("cancel"@);
    reveal_strlit(",\"cancel\":");
    assert(",\"cancel\":"@ =~= seq![','] + key("cancel"@));
}

proof fn key_checked()
    ensures
        ",\"checked\":"@ == seq![','] + key("checked"@),
{
    reveal_strlit("checked");
    plain_text("checked"@);
    reveal_strlit(",\"checked\":");
    assert(",\"checked\":"@ =~= seq![','] + key("checked"@));
}

proof fn key_col()
    ensures
        ",\"col\":"@ == seq![','] + key("col"@),
{
    reveal_strlit("col");
    plain_text("col"@);
    reveal_strlit(",\"col\":");
    assert(",\"col\":"@ =~= seq![','] + key("col"@));
}

proof fn key_enabled()
    ensures
        ",\"enabled\":"@ == seq![','] + key("enabled"@),
{
    reveal_strlit("enabled");
    plain_text("enabled"@);
    reveal_strlit(",\"enabled\":");
    assert(",\"enabled\":"@ =~= seq![','] + key("enabled"@));
}

proof fn key_icon()
    ensures
        ",\"icon\":"@ == seq![','] + key("icon"@),
{
    reveal_strlit("icon");
    plain_text("icon"@);
    reveal_strlit(",\"icon\":");
    assert(",\"icon\":"@ =~= seq![','] + key("icon"@));
}

proof fn key_id()
    ensures
        ",\"id\":"@ == seq![','] + key("id"@),
{
    reveal_strlit("id");
    plain_text("id"@);
    reveal_strlit(",\"id\":");
    assert(",\"id\":"@ =~= seq![','] + key("id"@));
}

proof fn key_initial()
    ensures
        ",\"initial\":"@ == seq![','] + key("initial"@),
{
    reveal_strlit("initial");
    plain_text("initial"@);
    reveal_strlit(",\"initial\":");
    assert(",\"initial\":"@ =~= seq![','] + key("initial"@));
}

proof fn key_item()
    ensures
        "{\"item\":"@ == seq!['{'] + key("item"@),
{
    reveal_strlit("item");
    plain_text("item"@);
    reveal_strlit("{\"item\":");
    assert("{\"item\":"@ =~= seq!['{'] + key("item"@));
}

proof fn key_items()
    ensures
        ",\"items\":"@ == seq![','] + key("items"@),
{
    reveal_strlit("items");
    plain_text("items"@);
    reveal_strlit(",\"items\":");
    assert(",\"items\":"@ =~= seq![','] + key("items"@));
}

proof fn key_kind()
    ensures
        "{\"kind\":"@ == seq!['{'] + key("kind"@),
{
    reveal_strlit("kind");
    plain_text("kind"@);
    reveal_strlit("{\"kind\":");
    assert("{\"kind\":"@ =~= seq!['{'] + key("kind"@));
}

proof fn key_label()
    ensures
        "{\"label\":"@ == seq!['{'] + key("label"@),
        ",\"label\":"@ == seq![','] + key("label"@),
{
    reveal_strlit("label");
    plain_text("label"@);
    reveal_strlit("{\"label\":");
    assert("{\"label\":"@ =~= seq!['{'] + key("label"@));
    reveal_strlit(",\"label\":");
    assert(",\"label\":"@ =~= seq![','] + key("label"@));
}

proof fn key_menu()
    ensures
        ",\"menu\":"@ == seq![','] + key("menu"@),
{
    reveal_strlit("menu");
    plain_text("menu"@);
    reveal_strlit(",\"menu\":");
    assert(",\"menu\":"@ =~= seq![','] + key("menu"@));
}

proof fn key_message()
    ensures
        ",\"message\":"@ == seq![','] + key("message"@),
{
    reveal_strlit("message");
    plain_text("message"@);
    reveal_strlit(",\"message\":");
    assert(",\"message\":"@ =~= seq![','] + key("message"@));
}

proof fn key_name()
    ensures
        ",\"name\":"@ == seq![','] + key("name"@),
{
    reveal_strlit("name");
    plain_text("name"@);
    reveal_strlit(",\"name\":");
    assert(",\"name\":"@ =~= seq![','] + key("name"@));
}

proof fn key_ok()
    ensures
        ",\"ok\":"@ == seq![','] + key("ok"@),
{
    reveal_strlit("ok");
    plain_text("ok"@);
    reveal_strlit(",\"ok\":");
    assert(",\"ok\":"@ =~= seq![','] + key("ok"@));
}

proof fn key_on()
    ensures
        ",\"on\":"@ == seq![','] + key("on"@),
{
    reveal_strlit("on");
    plain_text("on"@);
    reveal_strlit(",\"on\":");
    assert(",\"on\":"@ =~= seq![','] + key("on"@));
}

proof fn key_place()
    ensures
        ",\"place\":"@ == seq![','] + key("place"@),
{
    reveal_strlit("place");
    plain_text("place"@);
    reveal_strlit(",\"place\":");
    assert(",\"place\":"@ =~= seq![','] + key("place"@));
}

proof fn key_placeholder()
    ensures
        ",\"placeholder\":"@ == seq![','] + key("placeholder"@),
{
    reveal_strlit("placeholder");
    plain_text("placeholder"@);
    reveal_strlit(",\"placeholder\":");
    assert(",\"placeholder\":"@ =~= seq![','] + key("placeholder"@));
}

proof fn key_selected()
    ensures
        ",\"selected\":"@ == seq![','] + key("selected"@),
{
    reveal_strlit("selected");
    plain_text("selected"@);
    reveal_strlit(",\"selected\":");
    assert(",\"selected\":"@ =~= seq![','] + key("selected"@));
}

proof fn key_sheet()
    ensures
        ",\"sheet\":"@ == seq![','] + key("sheet"@),
{
    reveal_strlit("sheet");
    plain_text("sheet"@);
    reveal_strlit(",\"sheet\":");
    assert(",\"sheet\":"@ =~= seq![','] + key("sheet"@));
}

proof fn key_text()
    ensures
        ",\"text\":"@ == seq![','] + key("text"@),
{
    reveal_strlit("text");
    plain_text("text"@);
    reveal_strlit(",\"text\":");
    assert(",\"text\":"@ =~= seq![','] + key("text"@));
}

proof fn key_tint()
    ensures
        ",\"tint\":"@ == seq![','] + key("tint"@),
{
    reveal_strlit("tint");
    plain_text("tint"@);
    reveal_strlit(",\"tint\":");
    assert(",\"tint\":"@ =~= seq![','] + key("tint"@));
}

proof fn key_tip()
    ensures
        ",\"tip\":"@ == seq![','] + key("tip"@),
{
    reveal_strlit("tip");
    plain_text("tip"@);
    reveal_strlit(",\"tip\":");
    assert(",\"tip\":"@ =~= seq![','] + key("tip"@));
}

proof fn key_title()
    ensures
        "{\"title\":"@ == seq!['{'] + key("title"@),
        ",\"title\":"@ == seq![','] + key("title"@),
{
    reveal_strlit("title");
    plain_text("title"@);
    reveal_strlit("{\"title\":");
    assert("{\"title\":"@ =~= seq!['{'] + key("title"@));
    reveal_strlit(",\"title\":");
    assert(",\"title\":"@ =~= seq![','] + key("title"@));
}

proof fn list_segments()
    ensures
        ",\"segments\":["@ == seq![','] + key("segments"@) + seq!['['],
{
    reveal_strlit("segments");
    plain_text("segments"@);
    reveal_strlit(",\"segments\":[");
    assert(",\"segments\":["@ =~= seq![','] + key("segments"@) + seq!['[']);
}

proof fn list_suggestions()
    ensures
        ",\"suggestions\":["@ == seq![','] + key("suggestions"@) + seq!['['],
{
    reveal_strlit("suggestions");
    plain_text("suggestions"@);
    reveal_strlit(",\"suggestions\":[");
    assert(",\"suggestions\":["@ =~= seq![','] + key("suggestions"@) + seq!['[']);
}

proof fn list_buttons()
    ensures
        ",\"buttons\":["@ == seq![','] + key("buttons"@) + seq!['['],
{
    reveal_strlit("buttons");
    plain_text("buttons"@);
    reveal_strlit(",\"buttons\":[");
    assert(",\"buttons\":["@ =~= seq![','] + key("buttons"@) + seq!['[']);
}

proof fn menu_names_differ()
    ensures
        "label"@ != "id"@,
        "label"@ != "enabled"@,
        "label"@ != "checked"@,
        "label"@ != "icon"@,
        "label"@ != "items"@,
        "label"@ != "sep"@,
        "id"@ != "enabled"@,
        "id"@ != "checked"@,
        "id"@ != "icon"@,
        "id"@ != "items"@,
        "id"@ != "sep"@,
        "enabled"@ != "checked"@,
        "enabled"@ != "icon"@,
        "enabled"@ != "items"@,
        "enabled"@ != "sep"@,
        "checked"@ != "icon"@,
        "checked"@ != "items"@,
        "checked"@ != "sep"@,
        "icon"@ != "items"@,
        "icon"@ != "sep"@,
        "items"@ != "sep"@,
{
    reveal_strlit("label");
    reveal_strlit("id");
    reveal_strlit("enabled");
    reveal_strlit("checked");
    reveal_strlit("icon");
    reveal_strlit("items");
    reveal_strlit("sep");
    assert("label"@.len() != "id"@.len());
    assert("label"@.len() != "enabled"@.len());
    assert("label"@.len() != "checked"@.len());
    assert("label"@.len() != "icon"@.len());
    assert("label"@[0] != "items"@[0]);
    assert("label"@.len() != "sep"@.len());
    assert("id"@.len() != "enabled"@.len());
    assert("id"@.len() != "checked"@.len());
    assert("id"@.len() != "icon"@.len());
    assert("id"@.len() != "items"@.len());
    assert("id"@.len() != "sep"@.len());
    assert("enabled"@[0] != "checked"@[0]);
    assert("enabled"@.len() != "icon"@.len());
    assert("enabled"@.len() != "items"@.len());
    assert("enabled"@.len() != "sep"@.len());
    assert("checked"@.len() != "icon"@.len());
    assert("checked"@.len() != "items"@.len());
    assert("checked"@.len() != "sep"@.len());
    assert("icon"@.len() != "items"@.len());
    assert("icon"@.len() != "sep"@.len());
    assert("items"@.len() != "sep"@.len());
}

proof fn row_names_differ()
    ensures
        "title"@ != "icon"@,
        "title"@ != "tint"@,
        "title"@ != "badgeIcon"@,
        "title"@ != "badgeTint"@,
        "icon"@ != "tint"@,
        "icon"@ != "badgeIcon"@,
        "icon"@ != "badgeTint"@,
        "tint"@ != "badgeIcon"@,
        "tint"@ != "badgeTint"@,
        "badgeIcon"@ != "badgeTint"@,
{
    reveal_strlit("title");
    reveal_strlit("icon");
    reveal_strlit("tint");
    reveal_strlit("badgeIcon");
    reveal_strlit("badgeTint");
    assert("title"@.len() != "icon"@.len());
    assert("title"@.len() != "tint"@.len());
    assert("title"@.len() != "badgeIcon"@.len());
    assert("title"@.len() != "badgeTint"@.len());
    assert("icon"@[0] != "tint"@[0]);
    assert("icon"@.len() != "badgeIcon"@.len());
    assert("icon"@.len() != "badgeTint"@.len());
    assert("tint"@.len() != "badgeIcon"@.len());
    assert("tint"@.len() != "badgeTint"@.len());
    assert("badgeIcon"@[5] != "badgeTint"@[5]);
}

proof fn bar_names_differ()
    ensures
        "kind"@ != "id"@,
        "kind"@ != "label"@,
        "kind"@ != "tip"@,
        "kind"@ != "action"@,
        "kind"@ != "enabled"@,
        "kind"@ != "place"@,
        "kind"@ != "col"@,
        "kind"@ != "on"@,
        "kind"@ != "selected"@,
        "kind"@ != "segments"@,
        "kind"@ != "menu"@,
        "kind"@ != "text"@,
        "kind"@ != "placeholder"@,
        "kind"@ != "suggestions"@,
        "kind"@ != "icon"@,
        "id"@ != "label"@,
        "id"@ != "tip"@,
        "id"@ != "action"@,
        "id"@ != "enabled"@,
        "id"@ != "place"@,
        "id"@ != "col"@,
        "id"@ != "on"@,
        "id"@ != "selected"@,
        "id"@ != "segments"@,
        "id"@ != "menu"@,
        "id"@ != "text"@,
        "id"@ != "placeholder"@,
        "id"@ != "suggestions"@,
        "id"@ != "icon"@,
        "label"@ != "tip"@,
        "label"@ != "action"@,
        "label"@ != "enabled"@,
        "label"@ != "place"@,
        "label"@ != "col"@,
        "label"@ != "on"@,
        "label"@ != "selected"@,
        "label"@ != "segments"@,
        "label"@ != "menu"@,
        "label"@ != "text"@,
        "label"@ != "placeholder"@,
        "label"@ != "suggestions"@,
        "label"@ != "icon"@,
        "tip"@ != "action"@,
        "tip"@ != "enabled"@,
        "tip"@ != "place"@,
        "tip"@ != "col"@,
        "tip"@ != "on"@,
        "tip"@ != "selected"@,
        "tip"@ != "segments"@,
        "tip"@ != "menu"@,
        "tip"@ != "text"@,
        "tip"@ != "placeholder"@,
        "tip"@ != "suggestions"@,
        "tip"@ != "icon"@,
        "action"@ != "enabled"@,
        "action"@ != "place"@,
        "action"@ != "col"@,
        "action"@ != "on"@,
        "action"@ != "selected"@,
        "action"@ != "segments"@,
        "action"@ != "menu"@,
        "action"@ != "text"@,
        "action"@ != "placeholder"@,
        "action"@ != "suggestions"@,
        "action"@ != "icon"@,
        "enabled"@ != "place"@,
        "enabled"@ != "col"@,
        "enabled"@ != "on"@,
        "enabled"@ != "selected"@,
        "enabled"@ != "segments"@,
        "enabled"@ != "menu"@,
        "enabled"@ != "text"@,
        "enabled"@ != "placeholder"@,
        "enabled"@ != "suggestions"@,
        "enabled"@ != "icon"@,
        "place"@ != "col"@,
        "place"@ != "on"@,
        "place"@ != "selected"@,
        "place"@ != "segments"@,
        "place"@ != "menu"@,
        "place"@ != "text"@,
        "place"@ != "placeholder"@,
        "place"@ != "suggestions"@,
        "place"@ != "icon"@,
        "col"@ != "on"@,
        "col"@ != "selected"@,
        "col"@ != "segments"@,
        "col"@ != "menu"@,
        "col"@ != "text"@,
        "col"@ != "placeholder"@,
        "col"@ != "suggestions"@,
        "col"@ != "icon"@,
        "on"@ != "selected"@,
        "on"@ != "segments"@,
        "on"@ != "menu"@,
        "on"@ != "text"@,
        "on"@ != "placeholder"@,
        "on"@ != "suggestions"@,
        "on"@ != "icon"@,
        "selected"@ != "segments"@,
        "selected"@ != "menu"@,
        "selected"@ != "text"@,
        "selected"@ != "placeholder"@,
        "selected"@ != "suggestions"@,
        "selected"@ != "icon"@,
        "segments"@ != "menu"@,
        "segments"@ != "text"@,
        "segments"@ != "placeholder"@,
        "segments"@ != "suggestions"@,
        "segments"@ != "icon"@,
        "menu"@ != "text"@,
        "menu"@ != "placeholder"@,
        "menu"@ != "suggestions"@,
        "menu"@ != "icon"@,
        "text"@ != "placeholder"@,
        "text"@ != "suggestions"@,
        "text"@ != "icon"@,
        "placeholder"@ != "suggestions"@,
        "placeholder"@ != "icon"@,
        "suggestions"@ != "icon"@,
{
    reveal_strlit("kind");
    reveal_strlit("id");
    reveal_strlit("label");
    reveal_strlit("tip");
    reveal_strlit("action");
    reveal_strlit("enabled");
    reveal_strlit("place");
    reveal_strlit("col");
    reveal_strlit("on");
    reveal_strlit("selected");
    reveal_strlit("segments");
    reveal_strlit("menu");
    reveal_strlit("text");
    reveal_strlit("placeholder");
    reveal_strlit("suggestions");
    reveal_strlit("icon");
    assert("kind"@.len() != "id"@.len());
    assert("kind"@.len() != "label"@.len());
    assert("kind"@.len() != "tip"@.len());
    assert("kind"@.len() != "action"@.len());
    assert("kind"@.len() != "enabled"@.len());
    assert("kind"@.len() != "place"@.len());
    assert("kind"@.len() != "col"@.len());
    assert("kind"@.len() != "on"@.len());
    assert("kind"@.len() != "selected"@.len());
    assert("kind"@.len() != "segments"@.len());
    assert("kind"@[0] != "menu"@[0]);
    assert("kind"@[0] != "text"@[0]);
    assert("kind"@.len() != "placeholder"@.len());
    assert("kind"@.len() != "suggestions"@.len());
    assert("kind"@[0] != "icon"@[0]);
    assert("id"@.len() != "label"@.len());
    assert("id"@.len() != "tip"@.len());
    assert("id"@.len() != "action"@.len());
    assert("id"@.len() != "enabled"@.len());
    assert("id"@.len() != "place"@.len());
    assert("id"@.len() != "col"@.len());
    assert("id"@[0] != "on"@[0]);
    assert("id"@.len() != "selected"@.len());
    assert("id"@.len() != "segments"@.len());
    assert("id"@.len() != "menu"@.len());
    assert("id"@.len() != "text"@.len());
    assert("id"@.len() != "placeholder"@.len());
    assert("id"@.len() != "suggestions"@.len());
    assert("id"@.len() != "icon"@.len());
    assert("label"@.len() != "tip"@.len());
    assert("label"@.len() != "action"@.len());
    assert("label"@.len() != "enabled"@.len());
    assert("label"@[0] != "place"@[0]);
    assert("label"@.len() != "col"@.len());
    assert("label"@.len() != "on"@.len());
    assert("label"@.len() != "selected"@.len());
    assert("label"@.len() != "segments"@.len());
    assert("label"@.len() != "menu"@.len());
    assert("label"@.len() != "text"@.len());
    assert("label"@.len() != "placeholder"@.len());
    assert("label"@.len() != "suggestions"@.len());
    assert("label"@.len() != "icon"@.len());
    assert("tip"@.len() != "action"@.len());
    assert("tip"@.len() != "enabled"@.len());
    assert("tip"@.len() != "place"@.len());
    assert("tip"@[0] != "col"@[0]);
    assert("tip"@.len() != "on"@.len());
    assert("tip"@.len() != "selected"@.len());
    assert("tip"@.len() != "segments"@.len());
    assert("tip"@.len() != "menu"@.len());
    assert("tip"@.len() != "text"@.len());
    assert("tip"@.len() != "placeholder"@.len());
    assert("tip"@.len() != "suggestions"@.len());
    assert("tip"@.len() != "icon"@.len());
    assert("action"@.len() != "enabled"@.len());
    assert("action"@.len() != "place"@.len());
    assert("action"@.len() != "col"@.len());
    assert("action"@.len() != "on"@.len());
    assert("action"@.len() != "selected"@.len());
    assert("action"@.len() != "segments"@.len());
    assert("action"@.len() != "menu"@.len());
    assert("action"@.len() != "text"@.len());
    assert("action"@.len() != "placeholder"@.len());
    assert("action"@.len() != "suggestions"@.len());
    assert("action"@.len() != "icon"@.len());
    assert("enabled"@.len() != "place"@.len());
    assert("enabled"@.len() != "col"@.len());
    assert("enabled"@.len() != "on"@.len());
    assert("enabled"@.len() != "selected"@.len());
    assert("enabled"@.len() != "segments"@.len());
    assert("enabled"@.len() != "menu"@.len());
    assert("enabled"@.len() != "text"@.len());
    assert("enabled"@.len() != "placeholder"@.len());
    assert("enabled"@.len() != "suggestions"@.len());
    assert("enabled"@.len() != "icon"@.len());
    assert("place"@.len() != "col"@.len());
    assert("place"@.len() != "on"@.len());
    assert("place"@.len() != "selected"@.len());
    assert("place"@.len() != "segments"@.len());
    assert("place"@.len() != "menu"@.len());
    assert("place"@.len() != "text"@.len());
    assert("place"@.len() != "placeholder"@.len());
    assert("place"@.len() != "suggestions"@.len());
    assert("place"@.len() != "icon"@.len());
    assert("col"@.len() != "on"@.len());
    assert("col"@.len() != "selected"@.len());
    assert("col"@.len() != "segments"@.len());
    assert("col"@.len() != "menu"@.len());
    assert("col"@.len() != "text"@.len());
    assert("col"@.len() != "placeholder"@.len());
    assert("col"@.len() != "suggestions"@.len());
    assert("col"@.len() != "icon"@.len());
    assert("on"@.len() != "selected"@.len());
    assert("on"@.len() != "segments"@.len());
    assert("on"@.len() != "menu"@.len());
    assert("on"@.len() != "text"@.len());
    assert("on"@.len() != "placeholder"@.len());
    assert("on"@.len() != "suggestions"@.len());
    assert("on"@.len() != "icon"@.len());
    assert("selected"@[2] != "segments"@[2]);
    assert("selected"@.len() != "menu"@.len());
    assert("selected"@.len() != "text"@.len());
    assert("selected"@.len() != "placeholder"@.len());
    assert("selected"@.len() != "suggestions"@.len());
    assert("selected"@.len() != "icon"@.len());
    assert("segments"@.len() != "menu"@.len());
    assert("segments"@.len() != "text"@.len());
    assert("segments"@.len() != "placeholder"@.len());
    assert("segments"@.len() != "suggestions"@.len());
    assert("segments"@.len() != "icon"@.len());
    assert("menu"@[0] != "text"@[0]);
    assert("menu"@.len() != "placeholder"@.len());
    assert("menu"@.len() != "suggestions"@.len());
    assert("menu"@[0] != "icon"@[0]);
    assert("text"@.len() != "placeholder"@.len());
    assert("text"@.len() != "suggestions"@.len());
    assert("text"@[0] != "icon"@[0]);
    assert("placeholder"@[0] != "suggestions"@[0]);
    assert("placeholder"@.len() != "icon"@.len());
    assert("suggestions"@.len() != "icon"@.len());
}

proof fn patch_names_differ()
    ensures
        "item"@ != "text"@,
        "item"@ != "on"@,
        "item"@ != "selected"@,
        "item"@ != "enabled"@,
        "item"@ != "suggestions"@,
        "text"@ != "on"@,
        "text"@ != "selected"@,
        "text"@ != "enabled"@,
        "text"@ != "suggestions"@,
        "on"@ != "selected"@,
        "on"@ != "enabled"@,
        "on"@ != "suggestions"@,
        "selected"@ != "enabled"@,
        "selected"@ != "suggestions"@,
        "enabled"@ != "suggestions"@,
{
    reveal_strlit("item");
    reveal_strlit("text");
    reveal_strlit("on");
    reveal_strlit("selected");
    reveal_strlit("enabled");
    reveal_strlit("suggestions");
    assert("item"@[0] != "text"@[0]);
    assert("item"@.len() != "on"@.len());
    assert("item"@.len() != "selected"@.len());
    assert("item"@.len() != "enabled"@.len());
    assert("item"@.len() != "suggestions"@.len());
    assert("text"@.len() != "on"@.len());
    assert("text"@.len() != "selected"@.len());
    assert("text"@.len() != "enabled"@.len());
    assert("text"@.len() != "suggestions"@.len());
    assert("on"@.len() != "selected"@.len());
    assert("on"@.len() != "enabled"@.len());
    assert("on"@.len() != "suggestions"@.len());
    assert("selected"@.len() != "enabled"@.len());
    assert("selected"@.len() != "suggestions"@.len());
    assert("enabled"@.len() != "suggestions"@.len());
}

proof fn surface_names_differ()
    ensures
        "kind"@ != "title"@,
        "kind"@ != "message"@,
        "kind"@ != "sheet"@,
        "kind"@ != "buttons"@,
        "kind"@ != "placeholder"@,
        "kind"@ != "initial"@,
        "kind"@ != "ok"@,
        "kind"@ != "cancel"@,
        "kind"@ != "accept"@,
        "kind"@ != "name"@,
        "title"@ != "message"@,
        "title"@ != "sheet"@,
        "title"@ != "buttons"@,
        "title"@ != "placeholder"@,
        "title"@ != "initial"@,
        "title"@ != "ok"@,
        "title"@ != "cancel"@,
        "title"@ != "accept"@,
        "title"@ != "name"@,
        "message"@ != "sheet"@,
        "message"@ != "buttons"@,
        "message"@ != "placeholder"@,
        "message"@ != "initial"@,
        "message"@ != "ok"@,
        "message"@ != "cancel"@,
        "message"@ != "accept"@,
        "message"@ != "name"@,
        "sheet"@ != "buttons"@,
        "sheet"@ != "placeholder"@,
        "sheet"@ != "initial"@,
        "sheet"@ != "ok"@,
        "sheet"@ != "cancel"@,
        "sheet"@ != "accept"@,
        "sheet"@ != "name"@,
        "buttons"@ != "placeholder"@,
        "buttons"@ != "initial"@,
        "buttons"@ != "ok"@,
        "buttons"@ != "cancel"@,
        "buttons"@ != "accept"@,
        "buttons"@ != "name"@,
        "placeholder"@ != "initial"@,
        "placeholder"@ != "ok"@,
        "placeholder"@ != "cancel"@,
        "placeholder"@ != "accept"@,
        "placeholder"@ != "name"@,
        "initial"@ != "ok"@,
        "initial"@ != "cancel"@,
        "initial"@ != "accept"@,
        "initial"@ != "name"@,
        "ok"@ != "cancel"@,
        "ok"@ != "accept"@,
        "ok"@ != "name"@,
        "cancel"@ != "accept"@,
        "cancel"@ != "name"@,
        "accept"@ != "name"@,
{
    reveal_strlit("kind");
    reveal_strlit("title");
    reveal_strlit("message");
    reveal_strlit("sheet");
    reveal_strlit("buttons");
    reveal_strlit("placeholder");
    reveal_strlit("initial");
    reveal_strlit("ok");
    reveal_strlit("cancel");
    reveal_strlit("accept");
    reveal_strlit("name");
    assert("kind"@.len() != "title"@.len());
    assert("kind"@.len() != "message"@.len());
    assert("kind"@.len() != "sheet"@.len());
    assert("kind"@.len() != "buttons"@.len());
    assert("kind"@.len() != "placeholder"@.len());
    assert("kind"@.len() != "initial"@.len());
    assert("kind"@.len() != "ok"@.len());
    assert("kind"@.len() != "cancel"@.len());
    assert("kind"@.len() != "accept"@.len());
    assert("kind"@[0] != "name"@[0]);
    assert("title"@.len() != "message"@.len());
    assert("title"@[0] != "sheet"@[0]);
    assert("title"@.len() != "buttons"@.len());
    assert("title"@.len() != "placeholder"@.len());
    assert("title"@.len() != "initial"@.len());
    assert("title"@.len() != "ok"@.len());
    assert("title"@.len() != "cancel"@.len());
    assert("title"@.len() != "accept"@.len());
    assert("title"@.len() != "name"@.len());
    assert("message"@.len() != "sheet"@.len());
    assert("message"@[0] != "buttons"@[0]);
    assert("message"@.len() != "placeholder"@.len());
    assert("message"@[0] != "initial"@[0]);
    assert("message"@.len() != "ok"@.len());
    assert("message"@.len() != "cancel"@.len());
    assert("message"@.len() != "accept"@.len());
    assert("message"@.len() != "name"@.len());
    assert("sheet"@.len() != "buttons"@.len());
    assert("sheet"@.len() != "placeholder"@.len());
    assert("sheet"@.len() != "initial"@.len());
    assert("sheet"@.len() != "ok"@.len());
    assert("sheet"@.len() != "cancel"@.len());
    assert("sheet"@.len() != "accept"@.len());
    assert("sheet"@.len() != "name"@.len());
    assert("buttons"@.len() != "placeholder"@.len());
    assert("buttons"@[0] != "initial"@[0]);
    assert("buttons"@.len() != "ok"@.len());
    assert("buttons"@.len() != "cancel"@.len());
    assert("buttons"@.len() != "accept"@.len());
    assert("buttons"@.len() != "name"@.len());
    assert("placeholder"@.len() != "initial"@.len());
    assert("placeholder"@.len() != "ok"@.len());
    assert("placeholder"@.len() != "cancel"@.len());
    assert("placeholder"@.len() != "accept"@.len());
    assert("placeholder"@.len() != "name"@.len());
    assert("initial"@.len() != "ok"@.len());
    assert("initial"@.len() != "cancel"@.len());
    assert("initial"@.len() != "accept"@.len());
    assert("initial"@.len() != "name"@.len());
    assert("ok"@.len() != "cancel"@.len());
    assert("ok"@.len() != "accept"@.len());
    assert("ok"@.len() != "name"@.len());
    assert("cancel"@[0] != "accept"@[0]);
    assert("cancel"@.len() != "name"@.len());
    assert("accept"@.len() != "name"@.len());
}

proof fn pair_names_differ()
    ensures
        "items"@ != "selected"@,
        "items"@ != "options"@,
        "items"@ != "role"@,
        "items"@ != "label"@,
        "selected"@ != "options"@,
        "selected"@ != "role"@,
        "selected"@ != "label"@,
        "options"@ != "role"@,
        "options"@ != "label"@,
        "role"@ != "label"@,
{
    reveal_strlit("items");
    reveal_strlit("selected");
    reveal_strlit("options");
    reveal_strlit("role");
    reveal_strlit("label");
    assert("items"@.len() != "selected"@.len());
    assert("items"@.len() != "options"@.len());
    assert("items"@.len() != "role"@.len());
    assert("items"@[0] != "label"@[0]);
    assert("selected"@.len() != "options"@.len());
    assert("selected"@.len() != "role"@.len());
    assert("selected"@.len() != "label"@.len());
    assert("options"@.len() != "role"@.len());
    assert("options"@.len() != "label"@.len());
    assert("role"@.len() != "label"@.len());
}

// ---- menus -------------------------------------------------------------------------------------

/// A number that is no less than nothing is written in plain digits.
proof fn plain_number(n: nat)
    ensures
        written(Json::Number(n as int)) == decimal(n),
{
}

proof fn plain_bool(b: bool)
    ensures
        written(Json::Bool(b)) == json_bool(b),
{
    reveal_strlit("true");
    reveal_strlit("false");
    assert("true"@ =~= seq!['t', 'r', 'u', 'e']);
    assert("false"@ =~= seq!['f', 'a', 'l', 's', 'e']);
}

proof fn brackets()
    ensures
        "["@ == seq!['['],
        "]"@ == seq![']'],
        "{"@ == seq!['{'],
        "}"@ == seq!['}'],
        ","@ == seq![','],
{
    reveal_strlit("[");
    reveal_strlit("]");
    reveal_strlit("{");
    reveal_strlit("}");
    reveal_strlit(",");
    assert("["@ =~= seq!['[']);
    assert("]"@ =~= seq![']']);
    assert("{"@ =~= seq!['{']);
    assert("}"@ =~= seq!['}']);
    assert(","@ =~= seq![',']);
}

/// One value more in the text of a list that is put together from the front.
proof fn next_item(body: Seq<char>, items: Seq<Json>, j: Json)
    requires
        body == items_text(items, 0),
    ensures
        body + comma(items.len() as int) + written(j) == items_text(items.push(j), 0),
{
    brackets();
    one_more_item(items, j, 0);
    assert(body + comma(items.len() as int) + written(j) =~= items_text(items.push(j), 0));
}

spec fn icon_fields(
    fields: Seq<(Seq<char>, Json)>,
    icon: Option<Icon>,
    vectors: Seq<String>,
) -> Seq<(Seq<char>, Json)> {
    match icon_source(icon, vectors) {
        Some(u) => fields.push(("icon"@, Json::Text(u))),
        None => fields,
    }
}

proof fn with_icon(
    t: Seq<char>,
    fields: Seq<(Seq<char>, Json)>,
    icon: Option<Icon>,
    vectors: Seq<String>,
)
    requires
        t == opened(fields),
        fields.len() > 0,
    ensures
        t + icon_field(icon, vectors) == opened(icon_fields(fields, icon, vectors)),
        forall|q: Seq<char>|
            q != "icon"@ ==> #[trigger] said(icon_fields(fields, icon, vectors), q) == said(
                fields,
                q,
            ),
        said(fields, "icon"@) is None ==> said(icon_fields(fields, icon, vectors), "icon"@)
            == match icon_source(icon, vectors) {
            Some(u) => Some(Json::Text(u)),
            None => None,
        },
        icon_fields(fields, icon, vectors).len() > 0,
{
    match icon_source(icon, vectors) {
        Some(u) => {
            key_icon();
            next_field(t, fields, "icon"@, Json::Text(u), ",\"icon\":"@);
            one_more_field(fields, "icon"@, Json::Text(u));
        },
        None => {
            assert(t + icon_field(icon, vectors) =~= t);
        },
    }
}

spec fn entry_value(item: MenuItem, vectors: Seq<String>) -> Json
    decreases item, 0int,
{
    let none = Seq::<(Seq<char>, Json)>::empty();
    match item {
        MenuItem::Separator => Json::Object(seq![("sep"@, Json::Bool(true))]),
        MenuItem::Submenu { label, items } => Json::Object(
            seq![("label"@, Json::Text(label@))].push(
                ("items"@, Json::List(entry_values(items@, items@.len() as int, vectors))),
            ),
        ),
        MenuItem::Action { action, label, enabled, checked, role, shortcut, icon } => {
            let three = seq![("label"@, Json::Text(label@))].push(
                ("id"@, Json::Number(action as int)),
            ).push(("enabled"@, Json::Bool(enabled)));
            let four = match checked {
                Some(on) => three.push(("checked"@, Json::Bool(on))),
                None => three,
            };
            Json::Object(icon_fields(four, icon, vectors))
        },
    }
}

spec fn entry_values(items: Seq<MenuItem>, n: int, vectors: Seq<String>) -> Seq<Json>
    decreases items, n,
{
    if n <= 0 || n > items.len() {
        Seq::empty()
    } else {
        entry_values(items, n - 1, vectors).push(entry_value(items[n - 1], vectors))
    }
}

#[verifier::spinoff_prover]
#[verifier::rlimit(40)]
proof fn action_written(item: MenuItem, vectors: Seq<String>)
    requires
        item is Action,
    ensures
        menu_entry(item, vectors) == written(entry_value(item, vectors)),
        shows_entry(entry_value(item, vectors), item, vectors),
{
    match item {
        MenuItem::Action { action, label, enabled, checked, role, shortcut, icon } => {
            key_label();
            key_id();
            key_enabled();
            key_checked();
            menu_names_differ();
            brackets();
            no_field();
            let none = Seq::<(Seq<char>, Json)>::empty();
            let one = seq![("label"@, Json::Text(label@))];
            assert(one =~= none.push(("label"@, Json::Text(label@))));
            one_more_field(none, "label"@, Json::Text(label@));
            first_field("label"@, Json::Text(label@), "{\"label\":"@);
            let t1 = "{\"label\":"@ + json_string(label@);
            let two = one.push(("id"@, Json::Number(action as int)));
            one_more_field(one, "id"@, Json::Number(action as int));
            plain_number(action as nat);
            next_field(t1, one, "id"@, Json::Number(action as int), ",\"id\":"@);
            let t2 = t1 + ",\"id\":"@ + decimal(action as nat);
            let three = two.push(("enabled"@, Json::Bool(enabled)));
            one_more_field(two, "enabled"@, Json::Bool(enabled));
            plain_bool(enabled);
            next_field(t2, two, "enabled"@, Json::Bool(enabled), ",\"enabled\":"@);
            let t3 = t2 + ",\"enabled\":"@ + json_bool(enabled);
            let t4 = t3 + crate::dom::specs::checked_field(checked);
            let four = match checked {
                Some(on) => three.push(("checked"@, Json::Bool(on))),
                None => three,
            };
            if checked is Some {
                let on = checked->0;
                one_more_field(three, "checked"@, Json::Bool(on));
                plain_bool(on);
                next_field(t3, three, "checked"@, Json::Bool(on), ",\"checked\":"@);
            } else {
                assert(t4 =~= t3);
            }
            with_icon(t4, four, icon, vectors);
            let five = icon_fields(four, icon, vectors);
            an_object_reads_back(five, t4 + icon_field(icon, vectors) + "}"@);
        },
        _ => {},
    }
}

proof fn entry_written(item: MenuItem, vectors: Seq<String>)
    ensures
        menu_entry(item, vectors) == written(entry_value(item, vectors)),
        shows_entry(entry_value(item, vectors), item, vectors),
    decreases item, 0int,
{
    match item {
        MenuItem::Separator => {
            let one = seq![("sep"@, Json::Bool(true))];
            menu_names_differ();
            no_field();
            one_more_field(Seq::empty(), "sep"@, Json::Bool(true));
            assert(one =~= Seq::<(Seq<char>, Json)>::empty().push(("sep"@, Json::Bool(true))));
            reveal_strlit("sep");
            plain_text("sep"@);
            let lead = seq!['{'] + key("sep"@);
            first_field("sep"@, Json::Bool(true), lead);
            reveal_strlit("{\"sep\":true}");
            assert("{\"sep\":true}"@ =~= lead + seq!['t', 'r', 'u', 'e'] + seq!['}']);
            an_object_reads_back(one, "{\"sep\":true}"@);
        },
        MenuItem::Submenu { label, items } => {
            let vs = entry_values(items@, items@.len() as int, vectors);
            entries_written(items@, items@.len() as int, vectors);
            key_label();
            key_items();
            menu_names_differ();
            brackets();
            no_field();
            let none = Seq::<(Seq<char>, Json)>::empty();
            let one = seq![("label"@, Json::Text(label@))];
            assert(one =~= none.push(("label"@, Json::Text(label@))));
            one_more_field(none, "label"@, Json::Text(label@));
            first_field("label"@, Json::Text(label@), "{\"label\":"@);
            let t1 = "{\"label\":"@ + json_string(label@);
            one_more_field(one, "items"@, Json::List(vs));
            next_field(t1, one, "items"@, Json::List(vs), ",\"items\":"@);
            an_object_reads_back(
                one.push(("items"@, Json::List(vs))),
                t1 + ",\"items\":"@ + written(Json::List(vs)) + "}"@,
            );
        },
        MenuItem::Action { .. } => {
            action_written(item, vectors);
        },
    }
}

proof fn entries_written(items: Seq<MenuItem>, n: int, vectors: Seq<String>)
    requires
        0 <= n <= items.len(),
    ensures
        menu_entries(items, n, vectors) == items_text(entry_values(items, n, vectors), 0),
        entry_values(items, n, vectors).len() == n,
        shows_entries(entry_values(items, n, vectors), items, n, vectors),
    decreases items, n,
{
    if n > 0 {
        entries_written(items, n - 1, vectors);
        entry_written(items[n - 1], vectors);
        let before = entry_values(items, n - 1, vectors);
        next_item(
            menu_entries(items, n - 1, vectors),
            before,
            entry_value(items[n - 1], vectors),
        );
        shown_before(before, entry_value(items[n - 1], vectors), items, n - 1, vectors);
    }
}

proof fn shown_before(
    vs: Seq<Json>,
    v: Json,
    items: Seq<MenuItem>,
    n: int,
    vectors: Seq<String>,
)
    requires
        n <= vs.len(),
        shows_entries(vs, items, n, vectors),
    ensures
        shows_entries(vs.push(v), items, n, vectors),
    decreases n,
{
    if 0 < n && n <= items.len() {
        shown_before(vs, v, items, n - 1, vectors);
    }
}

/// Reading a pull-down's text gives the pull-down: a list with a value for each entry, in order,
/// and each value is what the entry is to the page, down through the submenus.
pub proof fn a_menu_reads_back(items: Seq<MenuItem>, vectors: Seq<String>)
    ensures
        ({
            let read = read_json(menu_list(items, vectors));
            &&& read is Some
            &&& read->0 is List
            &&& (read->0)->List_0.len() == items.len()
            &&& shows_entries((read->0)->List_0, items, items.len() as int, vectors)
        }),
{
    entries_written(items, items.len() as int, vectors);
    let vs = entry_values(items, items.len() as int, vectors);
    brackets();
    assert(menu_list(items, vectors) =~= written(Json::List(vs)));
    what_is_written_reads_back(Json::List(vs));
}

/// Reading one entry's text gives the entry.
pub proof fn a_menu_entry_reads_back(item: MenuItem, vectors: Seq<String>)
    ensures
        read_json(menu_entry(item, vectors)) is Some,
        shows_entry(read_json(menu_entry(item, vectors))->0, item, vectors),
{
    entry_written(item, vectors);
    what_is_written_reads_back(entry_value(item, vectors));
}

/// Two actions whose texts are the same have the same label and number, can both be chosen or both
/// not, are checked alike and show the same picture: nothing the page goes by is lost on the way.
pub proof fn an_actions_text_tells_it_apart(a: MenuItem, b: MenuItem, vectors: Seq<String>)
    requires
        a is Action,
        b is Action,
        menu_entry(a, vectors) == menu_entry(b, vectors),
    ensures
        a->action == b->action,
        a->Action_label@ == b->Action_label@,
        a->enabled == b->enabled,
        a->checked == b->checked,
        icon_source(a->Action_icon, vectors) == icon_source(b->Action_icon, vectors),
{
    a_menu_entry_reads_back(a, vectors);
    a_menu_entry_reads_back(b, vectors);
}

// ---- lists of texts ----------------------------------------------------------------------------

/// Texts as a list.
pub open spec fn text_values(v: Seq<String>) -> Seq<Json> {
    Seq::new(v.len(), |i: int| Json::Text(v[i]@))
}

proof fn strings_written(v: Seq<String>, n: int)
    requires
        0 <= n <= v.len(),
    ensures
        string_list(v, n) == items_text(text_values(v).take(n), 0),
    decreases n,
{
    let all = text_values(v);
    if n > 0 {
        strings_written(v, n - 1);
        next_item(string_list(v, n - 1), all.take(n - 1), Json::Text(v[n - 1]@));
        assert(all.take(n - 1).push(Json::Text(v[n - 1]@)) =~= all.take(n));
    }
}

proof fn all_strings_written(v: Seq<String>)
    ensures
        seq!['['] + string_list(v, v.len() as int) + seq![']'] == written(
            Json::List(text_values(v)),
        ),
{
    strings_written(v, v.len() as int);
    assert(text_values(v).take(v.len() as int) =~= text_values(v));
}

/// A list as the value of one more field, its brackets apart from its name.
proof fn next_list(
    t: Seq<char>,
    fields: Seq<(Seq<char>, Json)>,
    name: Seq<char>,
    body: Seq<char>,
    vs: Seq<Json>,
    lead: Seq<char>,
)
    requires
        t == opened(fields),
        fields.len() > 0,
        lead == seq![','] + key(name) + seq!['['],
        body == items_text(vs, 0),
    ensures
        t + lead + body + "]"@ == opened(fields.push((name, Json::List(vs)))),
        t + (lead + body + "]"@) == opened(fields.push((name, Json::List(vs)))),
{
    brackets();
    next_field(t, fields, name, Json::List(vs), seq![','] + key(name));
    assert(t + lead + body + "]"@ =~= t + (seq![','] + key(name)) + written(Json::List(vs)));
    assert(t + (lead + body + "]"@) =~= t + (seq![','] + key(name)) + written(Json::List(vs)));
}

/// A picker's text says its options, in order, and the number of the selected one.
pub proof fn a_picker_reads_back(options: Seq<String>, selected: usize)
    ensures
        ({
            let read = read_json(picker(options, selected));
            &&& read is Some
            &&& says(read->0, "options"@) == Some(
                Json::List(Seq::new(options.len(), |i: int| Json::Text(options[i]@))),
            )
            &&& says(read->0, "selected"@) == Some(Json::Number(selected as int))
        }),
{
    let vs = text_values(options);
    brackets();
    pair_names_differ();
    no_field();
    all_strings_written(options);
    let none = Seq::<(Seq<char>, Json)>::empty();
    let one = seq![("options"@, Json::List(vs))];
    assert(one =~= none.push(("options"@, Json::List(vs))));
    one_more_field(none, "options"@, Json::List(vs));
    reveal_strlit("options");
    plain_text("options"@);
    reveal_strlit("{\"options\":[");
    let lead = seq!['{'] + key("options"@);
    assert("{\"options\":["@ =~= lead + seq!['[']);
    first_field("options"@, Json::List(vs), lead);
    let t1 = lead + written(Json::List(vs));
    key_selected();
    reveal_strlit("],\"selected\":");
    reveal_strlit(",\"selected\":");
    assert("],\"selected\":"@ =~= seq![']'] + ",\"selected\":"@);
    plain_number(selected as nat);
    next_field(t1, one, "selected"@, Json::Number(selected as int), ",\"selected\":"@);
    one_more_field(one, "selected"@, Json::Number(selected as int));
    let two = one.push(("selected"@, Json::Number(selected as int)));
    assert(picker(options, selected) =~= t1 + ",\"selected\":"@ + decimal(selected as nat) + "}"@);
    an_object_reads_back(two, picker(options, selected));
}

// ---- navigation menus --------------------------------------------------------------------------

spec fn glyph_values(
    fields: Seq<(Seq<char>, Json)>,
    icon_name: Seq<char>,
    icon: Option<String>,
    tint_name: Seq<char>,
    tint: Option<crate::model::Color>,
    vectors: Seq<String>,
) -> Seq<(Seq<char>, Json)> {
    match icon {
        Some(name) => {
            let pictured = fields.push((icon_name, Json::Text(url(name@, vectors))));
            match tint {
                Some(c) => pictured.push((tint_name, Json::Text(hex_color(c)))),
                None => pictured,
            }
        },
        None => fields,
    }
}

proof fn with_glyph(
    t: Seq<char>,
    fields: Seq<(Seq<char>, Json)>,
    icon_name: Seq<char>,
    icon: Option<String>,
    tint_name: Seq<char>,
    tint: Option<crate::model::Color>,
    vectors: Seq<String>,
)
    requires
        t == opened(fields),
        fields.len() > 0,
        icon_name != tint_name,
    ensures
        ({
            let more = glyph_values(fields, icon_name, icon, tint_name, tint, vectors);
            &&& t + crate::dom::specs::glyph_fields(
                seq![','] + key(icon_name),
                icon,
                seq![','] + key(tint_name),
                tint,
                vectors,
            ) == opened(more)
            &&& more.len() > 0
            &&& forall|q: Seq<char>|
                q != icon_name && q != tint_name ==> #[trigger] said(more, q) == said(fields, q)
            &&& said(fields, icon_name) is None ==> said(more, icon_name) == match icon {
                Some(name) => Some(Json::Text(url(name@, vectors))),
                None => None,
            }
            &&& said(fields, tint_name) is None ==> said(more, tint_name) == if icon is Some
                && tint is Some {
                Some(Json::Text(hex_color(tint->0)))
            } else {
                None
            }
        }),
{
    let (ki, kt) = (seq![','] + key(icon_name), seq![','] + key(tint_name));
    let g = crate::dom::specs::glyph_fields(ki, icon, kt, tint, vectors);
    match icon {
        Some(name) => {
            let u = Json::Text(url(name@, vectors));
            let pictured = fields.push((icon_name, u));
            next_field(t, fields, icon_name, u, ki);
            one_more_field(fields, icon_name, u);
            let t1 = t + ki + written(u);
            match tint {
                Some(c) => {
                    next_field(t1, pictured, tint_name, Json::Text(hex_color(c)), kt);
                    one_more_field(pictured, tint_name, Json::Text(hex_color(c)));
                    assert(t + g =~= t1 + kt + written(Json::Text(hex_color(c))));
                },
                None => {
                    assert(t + g =~= t1);
                },
            }
        },
        None => {
            assert(t + g =~= t);
        },
    }
}

spec fn row_fields(rows: MenuRows, i: int, vectors: Seq<String>) -> Seq<(Seq<char>, Json)> {
    let one = seq![("title"@, Json::Text(rows.items@[i]@))];
    let two = glyph_values(
        one,
        "icon"@,
        at(rows.icons@, i),
        "tint"@,
        at(rows.tints@, i),
        vectors,
    );
    glyph_values(
        two,
        "badgeIcon"@,
        at(rows.badge_icons@, i),
        "badgeTint"@,
        at(rows.badge_tints@, i),
        vectors,
    )
}

/// A value is what a row of a navigation menu is to the page: its title; its picture and its
/// badge's, where they have one, and behind each its tint.
pub open spec fn shows_row(v: Json, rows: MenuRows, i: int, vectors: Seq<String>) -> bool {
    let (icon, badge) = (at(rows.icons@, i), at(rows.badge_icons@, i));
    &&& says(v, "title"@) == Some(Json::Text(rows.items@[i]@))
    &&& says(v, "icon"@) == match icon {
        Some(name) => Some(Json::Text(url(name@, vectors))),
        None => None,
    }
    &&& says(v, "tint"@) == if icon is Some && at(rows.tints@, i) is Some {
        Some(Json::Text(hex_color(at(rows.tints@, i)->0)))
    } else {
        None
    }
    &&& says(v, "badgeIcon"@) == match badge {
        Some(name) => Some(Json::Text(url(name@, vectors))),
        None => None,
    }
    &&& says(v, "badgeTint"@) == if badge is Some && at(rows.badge_tints@, i) is Some {
        Some(Json::Text(hex_color(at(rows.badge_tints@, i)->0)))
    } else {
        None
    }
}

proof fn row_written(rows: MenuRows, i: int, vectors: Seq<String>)
    ensures
        row_json(rows, i, vectors) == written(Json::Object(row_fields(rows, i, vectors))),
        shows_row(Json::Object(row_fields(rows, i, vectors)), rows, i, vectors),
{
    key_title();
    key_icon();
    key_tint();
    key_badge_icon();
    key_badge_tint();
    row_names_differ();
    brackets();
    no_field();
    let none = Seq::<(Seq<char>, Json)>::empty();
    let title = Json::Text(rows.items@[i]@);
    let one = seq![("title"@, title)];
    assert(one =~= none.push(("title"@, title)));
    one_more_field(none, "title"@, title);
    first_field("title"@, title, "{\"title\":"@);
    let t1 = "{\"title\":"@ + json_string(rows.items@[i]@);
    let (ic, ti) = (at(rows.icons@, i), at(rows.tints@, i));
    with_glyph(t1, one, "icon"@, ic, "tint"@, ti, vectors);
    let two = glyph_values(one, "icon"@, ic, "tint"@, ti, vectors);
    let t2 = t1 + crate::dom::specs::glyph_fields(",\"icon\":"@, ic, ",\"tint\":"@, ti, vectors);
    let (bi, bt) = (at(rows.badge_icons@, i), at(rows.badge_tints@, i));
    with_glyph(t2, two, "badgeIcon"@, bi, "badgeTint"@, bt, vectors);
    an_object_reads_back(row_fields(rows, i, vectors), row_json(rows, i, vectors));
}

spec fn row_values(rows: MenuRows, n: int, vectors: Seq<String>) -> Seq<Json> {
    Seq::new(n as nat, |i: int| Json::Object(row_fields(rows, i, vectors)))
}

proof fn rows_written(rows: MenuRows, n: int, vectors: Seq<String>)
    requires
        0 <= n,
    ensures
        rows_json(rows, n, vectors) == items_text(row_values(rows, n, vectors), 0),
        forall|i: int|
            0 <= i < n ==> shows_row(#[trigger] row_values(rows, n, vectors)[i], rows, i, vectors),
    decreases n,
{
    if n > 0 {
        rows_written(rows, n - 1, vectors);
        row_written(rows, n - 1, vectors);
        let before = row_values(rows, n - 1, vectors);
        let v = Json::Object(row_fields(rows, n - 1, vectors));
        next_item(rows_json(rows, n - 1, vectors), before, v);
        assert(before.push(v) =~= row_values(rows, n, vectors));
        assert forall|i: int| 0 <= i < n implies shows_row(
            #[trigger] row_values(rows, n, vectors)[i],
            rows,
            i,
            vectors,
        ) by {
            if i < n - 1 {
                assert(before[i] == row_values(rows, n, vectors)[i]);
            }
        }
    }
}

/// A navigation menu's text says its rows, in order, each as the page is to show it, and the number
/// of the selected one, minus one for none.
pub proof fn a_navigation_menu_reads_back(
    rows: MenuRows,
    selected: Option<usize>,
    vectors: Seq<String>,
)
    ensures
        ({
            let read = read_json(navmenu(rows, selected, vectors));
            let items = says(read->0, "items"@);
            &&& read is Some
            &&& says(read->0, "selected"@) == Some(
                Json::Number(
                    if selected is Some {
                        selected->0 as int
                    } else {
                        -1
                    },
                ),
            )
            &&& items is Some
            &&& items->0 is List
            &&& (items->0)->List_0.len() == rows.items@.len()
            &&& forall|i: int|
                0 <= i < rows.items@.len() ==> shows_row(
                    #[trigger] (items->0)->List_0[i],
                    rows,
                    i,
                    vectors,
                )
        }),
{
    let n = rows.items@.len() as int;
    let vs = row_values(rows, n, vectors);
    rows_written(rows, n, vectors);
    selection_written(rows_json(rows, n, vectors), vs, selected);
    let read = read_json(navmenu(rows, selected, vectors));
    assert(says(read->0, "items"@) == Some(Json::List(vs)));
    assert forall|i: int| 0 <= i < rows.items@.len() implies shows_row(
        #[trigger] vs[i],
        rows,
        i,
        vectors,
    ) by {
        assert(row_values(rows, n, vectors)[i] == vs[i]);
    }
}

proof fn selection_written(body: Seq<char>, vs: Seq<Json>, selected: Option<usize>)
    requires
        body == items_text(vs, 0),
    ensures
        ({
            let text = "{\"items\":["@ + body + "],\"selected\":"@ + (match selected {
                Some(i) => decimal(i as nat),
                None => "-1"@,
            }) + "}"@;
            let read = read_json(text);
            &&& read is Some
            &&& says(read->0, "items"@) == Some(Json::List(vs))
            &&& says(read->0, "selected"@) == Some(
                Json::Number(
                    if selected is Some {
                        selected->0 as int
                    } else {
                        -1
                    },
                ),
            )
        }),
{
    brackets();
    pair_names_differ();
    no_field();
    let none = Seq::<(Seq<char>, Json)>::empty();
    let one = seq![("items"@, Json::List(vs))];
    assert(one =~= none.push(("items"@, Json::List(vs))));
    one_more_field(none, "items"@, Json::List(vs));
    first_items(body, vs);
    let t1 = "{\"items\":["@ + body + "]"@;
    key_selected();
    reveal_strlit("],\"selected\":");
    reveal_strlit(",\"selected\":");
    assert("],\"selected\":"@ =~= "]"@ + ",\"selected\":"@);
    let which: int = if selected is Some {
        selected->0 as int
    } else {
        -1
    };
    let text = match selected {
        Some(i) => decimal(i as nat),
        None => "-1"@,
    };
    if selected is None {
        reveal_strlit("-1");
        assert(decimal(1) == seq!['1']);
        assert(written(Json::Number(-1)) =~= "-1"@);
    }
    assert(written(Json::Number(which)) == text);
    next_field(t1, one, "selected"@, Json::Number(which), ",\"selected\":"@);
    one_more_field(one, "selected"@, Json::Number(which));
    let two = one.push(("selected"@, Json::Number(which)));
    let whole = "{\"items\":["@ + body + "],\"selected\":"@ + text + "}"@;
    assert(whole =~= t1 + ",\"selected\":"@ + text + "}"@);
    an_object_reads_back(two, whole);
}

/// A list as the value of an object's first field.
proof fn first_items(body: Seq<char>, vs: Seq<Json>)
    requires
        body == items_text(vs, 0),
    ensures
        "{\"items\":["@ + body + "]"@ == opened(seq![("items"@, Json::List(vs))]),
{
    brackets();
    reveal_strlit("items");
    plain_text("items"@);
    reveal_strlit("{\"items\":[");
    let lead = seq!['{'] + key("items"@);
    assert("{\"items\":["@ =~= lead + seq!['[']);
    first_field("items"@, Json::List(vs), lead);
    assert("{\"items\":["@ + body + "]"@ =~= lead + written(Json::List(vs)));
}

// ---- toolbars ----------------------------------------------------------------------------------

spec fn segment_value(s: Segmented, vectors: Seq<String>) -> Json {
    Json::Object(icon_fields(seq![("title"@, Json::Text(s.title@))], s.icon, vectors))
}

spec fn segment_values(v: Seq<Segmented>, n: int, vectors: Seq<String>) -> Seq<Json> {
    Seq::new(n as nat, |i: int| segment_value(v[i], vectors))
}

/// A value is what a segment is to the page: its title, and its picture where it has one.
pub open spec fn shows_segment(v: Json, s: Segmented, vectors: Seq<String>) -> bool {
    &&& says(v, "title"@) == Some(Json::Text(s.title@))
    &&& says(v, "icon"@) == match icon_source(s.icon, vectors) {
        Some(u) => Some(Json::Text(u)),
        None => None,
    }
}

proof fn segment_written(s: Segmented, vectors: Seq<String>)
    ensures
        "{\"title\":"@ + json_string(s.title@) + icon_field(s.icon, vectors) + "}"@ == written(
            segment_value(s, vectors),
        ),
        shows_segment(segment_value(s, vectors), s, vectors),
{
    key_title();
    row_names_differ();
    brackets();
    no_field();
    let none = Seq::<(Seq<char>, Json)>::empty();
    let title = Json::Text(s.title@);
    let one = seq![("title"@, title)];
    assert(one =~= none.push(("title"@, title)));
    one_more_field(none, "title"@, title);
    first_field("title"@, title, "{\"title\":"@);
    let t1 = "{\"title\":"@ + json_string(s.title@);
    with_icon(t1, one, s.icon, vectors);
    an_object_reads_back(
        icon_fields(one, s.icon, vectors),
        t1 + icon_field(s.icon, vectors) + "}"@,
    );
}

proof fn segments_written(v: Seq<Segmented>, n: int, vectors: Seq<String>)
    requires
        0 <= n <= v.len(),
    ensures
        segments_json(v, n, vectors) == items_text(segment_values(v, n, vectors), 0),
        forall|i: int|
            0 <= i < n ==> shows_segment(
                #[trigger] segment_values(v, n, vectors)[i],
                v[i],
                vectors,
            ),
    decreases n,
{
    if n > 0 {
        segments_written(v, n - 1, vectors);
        segment_written(v[n - 1], vectors);
        let before = segment_values(v, n - 1, vectors);
        next_item(segments_json(v, n - 1, vectors), before, segment_value(v[n - 1], vectors));
        assert(before.push(segment_value(v[n - 1], vectors)) =~= segment_values(v, n, vectors));
        assert forall|i: int| 0 <= i < n implies shows_segment(
            #[trigger] segment_values(v, n, vectors)[i],
            v[i],
            vectors,
        ) by {
            if i < n - 1 {
                assert(before[i] == segment_values(v, n, vectors)[i]);
            }
        }
    }
}

spec fn kind_values(
    fields: Seq<(Seq<char>, Json)>,
    kind: ToolbarKind,
    vectors: Seq<String>,
) -> Seq<(Seq<char>, Json)> {
    match kind {
        ToolbarKind::Toggle { on } => fields.push(("on"@, Json::Bool(on))),
        ToolbarKind::Segments { segments, selected } => fields.push(
            ("selected"@, Json::Number(selected as int)),
        ).push(
            (
                "segments"@,
                Json::List(segment_values(segments@, segments@.len() as int, vectors)),
            ),
        ),
        ToolbarKind::Menu { items } => fields.push(
            ("menu"@, Json::List(entry_values(items@, items@.len() as int, vectors))),
        ),
        ToolbarKind::Search { text, placeholder, suggestions } => fields.push(
            ("text"@, Json::Text(text@)),
        ).push(("placeholder"@, Json::Text(placeholder@))).push(
            ("suggestions"@, Json::List(text_values(suggestions@))),
        ),
        _ => fields,
    }
}

/// What a toolbar item of some kind says beyond what every item says: a toggle whether it is on;
/// segments the selected one's number and themselves; a pull-down its entries; a search its text,
/// its placeholder and its suggestions.
pub open spec fn shows_kind(v: Json, kind: ToolbarKind, vectors: Seq<String>) -> bool {
    match kind {
        ToolbarKind::Toggle { on } => says(v, "on"@) == Some(Json::Bool(on)),
        ToolbarKind::Segments { segments, selected } => {
            let list = says(v, "segments"@);
            &&& says(v, "selected"@) == Some(Json::Number(selected as int))
            &&& list is Some
            &&& list->0 is List
            &&& (list->0)->List_0.len() == segments@.len()
            &&& forall|i: int|
                0 <= i < segments@.len() ==> shows_segment(
                    #[trigger] (list->0)->List_0[i],
                    segments@[i],
                    vectors,
                )
        },
        ToolbarKind::Menu { items } => {
            let list = says(v, "menu"@);
            &&& list is Some
            &&& list->0 is List
            &&& (list->0)->List_0.len() == items@.len()
            &&& shows_entries((list->0)->List_0, items@, items@.len() as int, vectors)
        },
        ToolbarKind::Search { text, placeholder, suggestions } => {
            &&& says(v, "text"@) == Some(Json::Text(text@))
            &&& says(v, "placeholder"@) == Some(Json::Text(placeholder@))
            &&& says(v, "suggestions"@) == Some(
                Json::List(Seq::new(suggestions@.len(), |i: int| Json::Text(suggestions@[i]@))),
            )
        },
        _ => true,
    }
}

#[verifier::spinoff_prover]
#[verifier::rlimit(40)]
proof fn with_kind(
    t: Seq<char>,
    fields: Seq<(Seq<char>, Json)>,
    kind: ToolbarKind,
    vectors: Seq<String>,
)
    requires
        t == opened(fields),
        fields.len() > 0,
        said(fields, "on"@) is None,
        said(fields, "selected"@) is None,
        said(fields, "segments"@) is None,
        said(fields, "menu"@) is None,
        said(fields, "text"@) is None,
        said(fields, "placeholder"@) is None,
        said(fields, "suggestions"@) is None,
    ensures
        ({
            let more = kind_values(fields, kind, vectors);
            &&& t + crate::dom::specs::kind_fields(kind, vectors) == opened(more)
            &&& more.len() > 0
            &&& shows_kind(Json::Object(more), kind, vectors)
            &&& forall|q: Seq<char>|
                q != "on"@ && q != "selected"@ && q != "segments"@ && q != "menu"@ && q != "text"@
                    && q != "placeholder"@ && q != "suggestions"@ ==> #[trigger] said(more, q)
                    == said(fields, q)
        }),
{
    bar_names_differ();
    brackets();
    let g = crate::dom::specs::kind_fields(kind, vectors);
    match kind {
        ToolbarKind::Toggle { on } => {
            key_on();
            plain_bool(on);
            next_field(t, fields, "on"@, Json::Bool(on), ",\"on\":"@);
            one_more_field(fields, "on"@, Json::Bool(on));
        },
        ToolbarKind::Segments { segments, selected } => {
            key_selected();
            list_segments();
            plain_number(selected as nat);
            let n = segments@.len() as int;
            let number = Json::Number(selected as int);
            let vs = segment_values(segments@, n, vectors);
            segments_written(segments@, n, vectors);
            next_field(t, fields, "selected"@, number, ",\"selected\":"@);
            one_more_field(fields, "selected"@, number);
            let one = fields.push(("selected"@, number));
            let t1 = t + ",\"selected\":"@ + decimal(selected as nat);
            let body = segments_json(segments@, n, vectors);
            next_list(t1, one, "segments"@, body, vs, ",\"segments\":["@);
            one_more_field(one, "segments"@, Json::List(vs));
            assert(t + g =~= t1 + ",\"segments\":["@ + body + "]"@);
        },
        ToolbarKind::Menu { items } => {
            key_menu();
            let n = items@.len() as int;
            let vs = entry_values(items@, n, vectors);
            entries_written(items@, n, vectors);
            assert(menu_list(items@, vectors) =~= written(Json::List(vs)));
            next_field(t, fields, "menu"@, Json::List(vs), ",\"menu\":"@);
            one_more_field(fields, "menu"@, Json::List(vs));
        },
        ToolbarKind::Search { text, placeholder, suggestions } => {
            key_text();
            key_placeholder();
            list_suggestions();
            let n = suggestions@.len() as int;
            let vs = text_values(suggestions@);
            strings_written(suggestions@, n);
            assert(vs.take(n) =~= vs);
            next_field(t, fields, "text"@, Json::Text(text@), ",\"text\":"@);
            one_more_field(fields, "text"@, Json::Text(text@));
            let one = fields.push(("text"@, Json::Text(text@)));
            let t1 = t + ",\"text\":"@ + json_string(text@);
            next_field(t1, one, "placeholder"@, Json::Text(placeholder@), ",\"placeholder\":"@);
            one_more_field(one, "placeholder"@, Json::Text(placeholder@));
            let two = one.push(("placeholder"@, Json::Text(placeholder@)));
            let t2 = t1 + ",\"placeholder\":"@ + json_string(placeholder@);
            let body = string_list(suggestions@, n);
            next_list(t2, two, "suggestions"@, body, vs, ",\"suggestions\":["@);
            one_more_field(two, "suggestions"@, Json::List(vs));
            assert(t + g =~= t2 + ",\"suggestions\":["@ + body + "]"@);
        },
        _ => {
            assert(t + g =~= t);
        },
    }
}

/// A value is what a toolbar item is to the page: its kind's letter, its id, its label, its
/// tooltip or else its label, its action's number, whether it can be used, where it stands, its
/// picture where it has one, and what its kind says.
pub open spec fn shows_item(v: Json, it: ToolbarItem, vectors: Seq<String>) -> bool {
    &&& says(v, "kind"@) == Some(
        Json::Text(
            match it.kind {
                ToolbarKind::Button => "B"@,
                ToolbarKind::Toggle { .. } => "T"@,
                ToolbarKind::Menu { .. } => "M"@,
                ToolbarKind::Search { .. } => "F"@,
                ToolbarKind::Segments { .. } => "G"@,
                ToolbarKind::Label => "L"@,
                ToolbarKind::Separator => "-"@,
            },
        ),
    )
    &&& says(v, "id"@) == Some(Json::Text(it.id@))
    &&& says(v, "label"@) == Some(Json::Text(it.label@))
    &&& it.tooltip is Some ==> says(v, "tip"@) == Some(Json::Text(it.tooltip->0@))
    &&& it.tooltip is None ==> says(v, "tip"@) == Some(Json::Text(it.label@))
    &&& says(v, "action"@) == Some(Json::Number(it.action as int))
    &&& says(v, "enabled"@) == Some(Json::Bool(it.enabled))
    &&& says(v, "place"@) == Some(
        Json::Text(
            match it.placement {
                ToolbarPlacement::Navigation => "nav"@,
                ToolbarPlacement::Principal => "mid"@,
                ToolbarPlacement::Primary => "primary"@,
                ToolbarPlacement::Secondary => "secondary"@,
                ToolbarPlacement::Bottom => "secondary"@,
                ToolbarPlacement::Automatic => "auto"@,
            },
        ),
    )
    &&& says(v, "col"@) == Some(
        Json::Text(
            match it.column {
                ToolbarColumn::Sidebar => "sidebar"@,
                ToolbarColumn::List => "list"@,
                ToolbarColumn::Detail => "detail"@,
                ToolbarColumn::Window => "detail"@,
            },
        ),
    )
    &&& says(v, "icon"@) == match icon_source(it.icon, vectors) {
        Some(u) => Some(Json::Text(u)),
        None => None,
    }
    &&& shows_kind(v, it.kind, vectors)
}

spec fn head_fields(it: ToolbarItem) -> Seq<(Seq<char>, Json)> {
    seq![("kind"@, Json::Text(crate::dom::specs::kind_letter(it.kind)))].push(
        ("id"@, Json::Text(it.id@)),
    ).push(("label"@, Json::Text(it.label@))).push(
        ("tip"@, Json::Text(crate::dom::specs::tip(it))),
    ).push(("action"@, Json::Number(it.action as int))).push(
        ("enabled"@, Json::Bool(it.enabled)),
    ).push(("place"@, Json::Text(crate::dom::specs::place_name(it.placement)))).push(
        ("col"@, Json::Text(crate::dom::specs::column_name(it.column))),
    )
}

spec fn head_text(it: ToolbarItem) -> Seq<char> {
    "{\"kind\":"@ + json_string(crate::dom::specs::kind_letter(it.kind)) + ",\"id\":"@
        + json_string(it.id@) + ",\"label\":"@ + json_string(it.label@) + ",\"tip\":"@
        + json_string(crate::dom::specs::tip(it)) + ",\"action\":"@ + decimal(it.action as nat)
        + ",\"enabled\":"@ + json_bool(it.enabled) + ",\"place\":"@ + json_string(
        crate::dom::specs::place_name(it.placement),
    ) + ",\"col\":"@ + json_string(crate::dom::specs::column_name(it.column))
}

#[verifier::spinoff_prover]
#[verifier::rlimit(40)]
proof fn head_written(it: ToolbarItem)
    ensures
        head_text(it) == opened(head_fields(it)),
        head_fields(it).len() > 0,
        forall|q: Seq<char>| #[trigger]
            said(head_fields(it), q) == if q == "kind"@ {
                Some(Json::Text(crate::dom::specs::kind_letter(it.kind)))
            } else if q == "id"@ {
                Some(Json::Text(it.id@))
            } else if q == "label"@ {
                Some(Json::Text(it.label@))
            } else if q == "tip"@ {
                Some(Json::Text(crate::dom::specs::tip(it)))
            } else if q == "action"@ {
                Some(Json::Number(it.action as int))
            } else if q == "enabled"@ {
                Some(Json::Bool(it.enabled))
            } else if q == "place"@ {
                Some(Json::Text(crate::dom::specs::place_name(it.placement)))
            } else if q == "col"@ {
                Some(Json::Text(crate::dom::specs::column_name(it.column)))
            } else {
                None
            },
{
    key_kind();
    key_id();
    key_label();
    key_tip();
    key_action();
    key_enabled();
    key_place();
    key_col();
    bar_names_differ();
    no_field();
    let none = Seq::<(Seq<char>, Json)>::empty();
    let letter = crate::dom::specs::kind_letter(it.kind);
    let f1 = seq![("kind"@, Json::Text(letter))];
    assert(f1 =~= none.push(("kind"@, Json::Text(letter))));
    one_more_field(none, "kind"@, Json::Text(letter));
    first_field("kind"@, Json::Text(letter), "{\"kind\":"@);
    let t1 = "{\"kind\":"@ + json_string(letter);
    next_field(t1, f1, "id"@, Json::Text(it.id@), ",\"id\":"@);
    one_more_field(f1, "id"@, Json::Text(it.id@));
    let f2 = f1.push(("id"@, Json::Text(it.id@)));
    let t2 = t1 + ",\"id\":"@ + json_string(it.id@);
    next_field(t2, f2, "label"@, Json::Text(it.label@), ",\"label\":"@);
    one_more_field(f2, "label"@, Json::Text(it.label@));
    let f3 = f2.push(("label"@, Json::Text(it.label@)));
    let t3 = t2 + ",\"label\":"@ + json_string(it.label@);
    let tip = crate::dom::specs::tip(it);
    next_field(t3, f3, "tip"@, Json::Text(tip), ",\"tip\":"@);
    one_more_field(f3, "tip"@, Json::Text(tip));
    let f4 = f3.push(("tip"@, Json::Text(tip)));
    let t4 = t3 + ",\"tip\":"@ + json_string(tip);
    plain_number(it.action as nat);
    next_field(t4, f4, "action"@, Json::Number(it.action as int), ",\"action\":"@);
    one_more_field(f4, "action"@, Json::Number(it.action as int));
    let f5 = f4.push(("action"@, Json::Number(it.action as int)));
    let t5 = t4 + ",\"action\":"@ + decimal(it.action as nat);
    plain_bool(it.enabled);
    next_field(t5, f5, "enabled"@, Json::Bool(it.enabled), ",\"enabled\":"@);
    one_more_field(f5, "enabled"@, Json::Bool(it.enabled));
    let f6 = f5.push(("enabled"@, Json::Bool(it.enabled)));
    let t6 = t5 + ",\"enabled\":"@ + json_bool(it.enabled);
    let place = crate::dom::specs::place_name(it.placement);
    next_field(t6, f6, "place"@, Json::Text(place), ",\"place\":"@);
    one_more_field(f6, "place"@, Json::Text(place));
    let f7 = f6.push(("place"@, Json::Text(place)));
    let t7 = t6 + ",\"place\":"@ + json_string(place);
    let col = crate::dom::specs::column_name(it.column);
    next_field(t7, f7, "col"@, Json::Text(col), ",\"col\":"@);
    one_more_field(f7, "col"@, Json::Text(col));
}

spec fn item_value(it: ToolbarItem, vectors: Seq<String>) -> Json {
    Json::Object(icon_fields(kind_values(head_fields(it), it.kind, vectors), it.icon, vectors))
}

#[verifier::spinoff_prover]
proof fn item_written(it: ToolbarItem, vectors: Seq<String>)
    ensures
        item_json(it, vectors) == written(item_value(it, vectors)),
        shows_item(item_value(it, vectors), it, vectors),
{
    bar_names_differ();
    brackets();
    head_written(it);
    let (t1, f1) = (head_text(it), head_fields(it));
    with_kind(t1, f1, it.kind, vectors);
    let f2 = kind_values(f1, it.kind, vectors);
    let t2 = t1 + crate::dom::specs::kind_fields(it.kind, vectors);
    with_icon(t2, f2, it.icon, vectors);
    let f3 = icon_fields(f2, it.icon, vectors);
    an_object_reads_back(f3, t2 + icon_field(it.icon, vectors) + "}"@);
}

spec fn item_values(items: Seq<ToolbarItem>, n: int, vectors: Seq<String>) -> Seq<Json> {
    Seq::new(n as nat, |i: int| item_value(items[i], vectors))
}

proof fn items_written(items: Seq<ToolbarItem>, n: int, vectors: Seq<String>)
    requires
        0 <= n <= items.len(),
    ensures
        items_json(items, n, vectors) == items_text(item_values(items, n, vectors), 0),
        forall|i: int|
            0 <= i < n ==> shows_item(
                #[trigger] item_values(items, n, vectors)[i],
                items[i],
                vectors,
            ),
    decreases n,
{
    if n > 0 {
        items_written(items, n - 1, vectors);
        item_written(items[n - 1], vectors);
        let before = item_values(items, n - 1, vectors);
        next_item(items_json(items, n - 1, vectors), before, item_value(items[n - 1], vectors));
        assert(before.push(item_value(items[n - 1], vectors)) =~= item_values(items, n, vectors));
        assert forall|i: int| 0 <= i < n implies shows_item(
            #[trigger] item_values(items, n, vectors)[i],
            items[i],
            vectors,
        ) by {
            if i < n - 1 {
                assert(before[i] == item_values(items, n, vectors)[i]);
            }
        }
    }
}

/// A toolbar's text says its items, in order, each as the page is to show it.
pub proof fn a_toolbar_reads_back(items: Seq<ToolbarItem>, vectors: Seq<String>)
    ensures
        ({
            let read = read_json(toolbar(items, vectors));
            let list = says(read->0, "items"@);
            &&& read is Some
            &&& list is Some
            &&& list->0 is List
            &&& (list->0)->List_0.len() == items.len()
            &&& forall|i: int|
                0 <= i < items.len() ==> shows_item(
                    #[trigger] (list->0)->List_0[i],
                    items[i],
                    vectors,
                )
        }),
{
    let n = items.len() as int;
    let vs = item_values(items, n, vectors);
    items_written(items, n, vectors);
    strip_written(items_json(items, n, vectors), vs);
    let read = read_json(toolbar(items, vectors));
    assert(says(read->0, "items"@) == Some(Json::List(vs)));
    assert forall|i: int| 0 <= i < items.len() implies shows_item(
        #[trigger] vs[i],
        items[i],
        vectors,
    ) by {
        assert(item_values(items, n, vectors)[i] == vs[i]);
    }
}

proof fn strip_written(body: Seq<char>, vs: Seq<Json>)
    requires
        body == items_text(vs, 0),
    ensures
        ({
            let read = read_json("{\"items\":["@ + body + "]}"@);
            &&& read is Some
            &&& says(read->0, "items"@) == Some(Json::List(vs))
        }),
{
    brackets();
    no_field();
    let none = Seq::<(Seq<char>, Json)>::empty();
    let one = seq![("items"@, Json::List(vs))];
    assert(one =~= none.push(("items"@, Json::List(vs))));
    one_more_field(none, "items"@, Json::List(vs));
    first_items(body, vs);
    reveal_strlit("]}");
    assert("]}"@ =~= "]"@ + "}"@);
    let whole = "{\"items\":["@ + body + "]}"@;
    assert(whole =~= "{\"items\":["@ + body + "]"@ + "}"@);
    an_object_reads_back(one, whole);
}

/// A change's text says which item changes and what it changes to, under the name of what
/// changes.
pub proof fn a_toolbar_change_reads_back(patch: ToolbarPatch)
    ensures
        ({
            let read = read_json(toolbar_change(patch));
            let v = read->0;
            &&& read is Some
            &&& match patch {
                ToolbarPatch::Text { item, text } => {
                    &&& says(v, "item"@) == Some(Json::Text(item@))
                    &&& says(v, "text"@) == Some(Json::Text(text@))
                },
                ToolbarPatch::On { item, on } => {
                    &&& says(v, "item"@) == Some(Json::Text(item@))
                    &&& says(v, "on"@) == Some(Json::Bool(on))
                },
                ToolbarPatch::Selected { item, index } => {
                    &&& says(v, "item"@) == Some(Json::Text(item@))
                    &&& says(v, "selected"@) == Some(Json::Number(index as int))
                },
                ToolbarPatch::Enabled { item, on } => {
                    &&& says(v, "item"@) == Some(Json::Text(item@))
                    &&& says(v, "enabled"@) == Some(Json::Bool(on))
                },
                ToolbarPatch::Suggestions { item, list } => {
                    &&& says(v, "item"@) == Some(Json::Text(item@))
                    &&& says(v, "suggestions"@) == Some(
                        Json::List(Seq::new(list@.len(), |i: int| Json::Text(list@[i]@))),
                    )
                },
            }
        }),
{
    key_item();
    key_text();
    key_on();
    key_selected();
    key_enabled();
    list_suggestions();
    patch_names_differ();
    brackets();
    no_field();
    let none = Seq::<(Seq<char>, Json)>::empty();
    let id = match patch {
        ToolbarPatch::Text { item, .. } => item,
        ToolbarPatch::On { item, .. } => item,
        ToolbarPatch::Selected { item, .. } => item,
        ToolbarPatch::Enabled { item, .. } => item,
        ToolbarPatch::Suggestions { item, .. } => item,
    };
    let f1 = seq![("item"@, Json::Text(id@))];
    assert(f1 =~= none.push(("item"@, Json::Text(id@))));
    one_more_field(none, "item"@, Json::Text(id@));
    first_field("item"@, Json::Text(id@), "{\"item\":"@);
    let t1 = "{\"item\":"@ + json_string(id@);
    let whole = toolbar_change(patch);
    match patch {
        ToolbarPatch::Text { item, text } => {
            let v = Json::Text(text@);
            next_field(t1, f1, "text"@, v, ",\"text\":"@);
            one_more_field(f1, "text"@, v);
            an_object_reads_back(f1.push(("text"@, v)), whole);
        },
        ToolbarPatch::On { item, on } => {
            plain_bool(on);
            let v = Json::Bool(on);
            next_field(t1, f1, "on"@, v, ",\"on\":"@);
            one_more_field(f1, "on"@, v);
            an_object_reads_back(f1.push(("on"@, v)), whole);
        },
        ToolbarPatch::Selected { item, index } => {
            plain_number(index as nat);
            let v = Json::Number(index as int);
            next_field(t1, f1, "selected"@, v, ",\"selected\":"@);
            one_more_field(f1, "selected"@, v);
            an_object_reads_back(f1.push(("selected"@, v)), whole);
        },
        ToolbarPatch::Enabled { item, on } => {
            plain_bool(on);
            let v = Json::Bool(on);
            next_field(t1, f1, "enabled"@, v, ",\"enabled\":"@);
            one_more_field(f1, "enabled"@, v);
            an_object_reads_back(f1.push(("enabled"@, v)), whole);
        },
        ToolbarPatch::Suggestions { item, list } => {
            let n = list@.len() as int;
            let vs = text_values(list@);
            strings_written(list@, n);
            assert(vs.take(n) =~= vs);
            let body = string_list(list@, n);
            next_list(t1, f1, "suggestions"@, body, vs, ",\"suggestions\":["@);
            one_more_field(f1, "suggestions"@, Json::List(vs));
            an_object_reads_back(f1.push(("suggestions"@, Json::List(vs))), whole);
        },
    }
}

// ---- dialogs -----------------------------------------------------------------------------------

spec fn button_fields(b: PresentButton) -> Seq<(Seq<char>, Json)> {
    seq![("label"@, Json::Text(b.label@))].push(
        ("role"@, Json::Text(crate::dom::specs::role_name(b.role))),
    )
}

/// A value is what a dialog's button is to the page: its label and its role's name.
pub open spec fn shows_button(v: Json, b: PresentButton) -> bool {
    &&& says(v, "label"@) == Some(Json::Text(b.label@))
    &&& says(v, "role"@) == Some(
        Json::Text(
            match b.role {
                ButtonRole::Default => "default"@,
                ButtonRole::Cancel => "cancel"@,
                ButtonRole::Destructive => "destructive"@,
            },
        ),
    )
}

proof fn button_written(b: PresentButton)
    ensures
        "{\"label\":"@ + json_string(b.label@) + ",\"role\":\""@ + crate::dom::specs::role_name(
            b.role,
        ) + "\"}"@ == written(Json::Object(button_fields(b))),
        shows_button(Json::Object(button_fields(b)), b),
{
    key_label();
    pair_names_differ();
    brackets();
    no_field();
    let none = Seq::<(Seq<char>, Json)>::empty();
    let f1 = seq![("label"@, Json::Text(b.label@))];
    assert(f1 =~= none.push(("label"@, Json::Text(b.label@))));
    one_more_field(none, "label"@, Json::Text(b.label@));
    first_field("label"@, Json::Text(b.label@), "{\"label\":"@);
    let t1 = "{\"label\":"@ + json_string(b.label@);
    let role = crate::dom::specs::role_name(b.role);
    reveal_strlit("default");
    reveal_strlit("cancel");
    reveal_strlit("destructive");
    plain_text(role);
    reveal_strlit("role");
    plain_text("role"@);
    let lead = seq![','] + key("role"@);
    next_field(t1, f1, "role"@, Json::Text(role), lead);
    one_more_field(f1, "role"@, Json::Text(role));
    reveal_strlit(",\"role\":\"");
    reveal_strlit("\"}");
    assert(",\"role\":\""@ =~= lead + seq!['"']);
    assert("\"}"@ =~= seq!['"'] + seq!['}']);
    let whole = t1 + ",\"role\":\""@ + role + "\"}"@;
    assert(whole =~= t1 + lead + json_string(role) + seq!['}']);
    an_object_reads_back(button_fields(b), whole);
}

spec fn button_values(v: Seq<PresentButton>, n: int) -> Seq<Json> {
    Seq::new(n as nat, |i: int| Json::Object(button_fields(v[i])))
}

proof fn buttons_written(v: Seq<PresentButton>, n: int)
    requires
        0 <= n <= v.len(),
    ensures
        buttons_json(v, n) == items_text(button_values(v, n), 0),
        forall|i: int| 0 <= i < n ==> shows_button(#[trigger] button_values(v, n)[i], v[i]),
    decreases n,
{
    if n > 0 {
        buttons_written(v, n - 1);
        button_written(v[n - 1]);
        let before = button_values(v, n - 1);
        let last = Json::Object(button_fields(v[n - 1]));
        next_item(buttons_json(v, n - 1), before, last);
        assert(before.push(last) =~= button_values(v, n));
        assert forall|i: int| 0 <= i < n implies shows_button(
            #[trigger] button_values(v, n)[i],
            v[i],
        ) by {
            if i < n - 1 {
                assert(before[i] == button_values(v, n)[i]);
            }
        }
    }
}

spec fn titled(kind: Seq<char>, title: Seq<char>) -> Seq<(Seq<char>, Json)> {
    seq![("kind"@, Json::Text(kind))].push(("title"@, Json::Text(title)))
}

proof fn titled_written(kind: Seq<char>, title: Seq<char>, lead: Seq<char>)
    requires
        forall|i: int|
            0 <= i < kind.len() ==> (#[trigger] kind[i]) != '"' && kind[i] != '\\' && (
            kind[i] as u32) >= 0x20,
        lead == "{\"kind\":"@ + (seq!['"'] + kind + seq!['"']) + ",\"title\":"@,
    ensures
        lead + json_string(title) == opened(titled(kind, title)),
        forall|q: Seq<char>| #[trigger]
            said(titled(kind, title), q) == if q == "kind"@ {
                Some(Json::Text(kind))
            } else if q == "title"@ {
                Some(Json::Text(title))
            } else {
                None
            },
{
    key_kind();
    key_title();
    surface_names_differ();
    no_field();
    plain_text(kind);
    let none = Seq::<(Seq<char>, Json)>::empty();
    let f1 = seq![("kind"@, Json::Text(kind))];
    assert(f1 =~= none.push(("kind"@, Json::Text(kind))));
    one_more_field(none, "kind"@, Json::Text(kind));
    first_field("kind"@, Json::Text(kind), "{\"kind\":"@);
    next_field(
        "{\"kind\":"@ + json_string(kind),
        f1,
        "title"@,
        Json::Text(title),
        ",\"title\":"@,
    );
    one_more_field(f1, "title"@, Json::Text(title));
}

spec fn message_fields(fields: Seq<(Seq<char>, Json)>, message: Option<String>) -> Seq<
    (Seq<char>, Json),
> {
    match message {
        Some(m) => fields.push(("message"@, Json::Text(m@))),
        None => fields,
    }
}

proof fn with_message(t: Seq<char>, fields: Seq<(Seq<char>, Json)>, message: Option<String>)
    requires
        t == opened(fields),
        fields.len() > 0,
        said(fields, "message"@) is None,
    ensures
        t + crate::dom::specs::message_field(message) == opened(message_fields(fields, message)),
        message_fields(fields, message).len() > 0,
        forall|q: Seq<char>| #[trigger]
            said(message_fields(fields, message), q) == if q == "message"@ && message is Some {
                Some(Json::Text(message->0@))
            } else {
                said(fields, q)
            },
{
    match message {
        Some(m) => {
            key_message();
            next_field(t, fields, "message"@, Json::Text(m@), ",\"message\":"@);
            one_more_field(fields, "message"@, Json::Text(m@));
        },
        None => {
            assert(t + crate::dom::specs::message_field(message) =~= t);
        },
    }
}

/// What the page finds of a dialog: its kind, its title, its message where it has one, whether it
/// is a sheet, and its buttons in order.
#[verifier::spinoff_prover]
pub proof fn a_dialog_reads_back(spec: PresentSpec)
    requires
        spec is Dialog,
    ensures
        ({
            let read = read_json(surface(spec)->0);
            let v = read->0;
            &&& surface(spec) is Some
            &&& read is Some
            &&& spec matches PresentSpec::Dialog { title, message, buttons, sheet } && {
                let list = says(v, "buttons"@);
                &&& says(v, "kind"@) == Some(Json::Text("dialog"@))
                &&& says(v, "title"@) == Some(Json::Text(title@))
                &&& message is Some ==> says(v, "message"@) == Some(Json::Text(message->0@))
                &&& message is None ==> says(v, "message"@) is None
                &&& says(v, "sheet"@) == Some(Json::Bool(sheet))
                &&& list is Some
                &&& list->0 is List
                &&& (list->0)->List_0.len() == buttons@.len()
                &&& forall|i: int|
                    0 <= i < buttons@.len() ==> shows_button(
                        #[trigger] (list->0)->List_0[i],
                        buttons@[i],
                    )
            }
        }),
{
    match spec {
        PresentSpec::Dialog { title, message, buttons, sheet } => {
            brackets();
            surface_names_differ();
            reveal_strlit("dialog");
            reveal_strlit("{\"kind\":");
            reveal_strlit(",\"title\":");
            reveal_strlit("{\"kind\":\"dialog\",\"title\":");
            let lead = "{\"kind\":\"dialog\",\"title\":"@;
            assert(lead =~= "{\"kind\":"@ + (seq!['"'] + "dialog"@ + seq!['"']) + ",\"title\":"@);
            titled_written("dialog"@, title@, lead);
            let f1 = titled("dialog"@, title@);
            let t1 = lead + json_string(title@);
            with_message(t1, f1, message);
            let f2 = message_fields(f1, message);
            let t2 = t1 + crate::dom::specs::message_field(message);
            key_sheet();
            plain_bool(sheet);
            next_field(t2, f2, "sheet"@, Json::Bool(sheet), ",\"sheet\":"@);
            one_more_field(f2, "sheet"@, Json::Bool(sheet));
            let f3 = f2.push(("sheet"@, Json::Bool(sheet)));
            let t3 = t2 + ",\"sheet\":"@ + json_bool(sheet);
            list_buttons();
            let n = buttons@.len() as int;
            let vs = button_values(buttons@, n);
            buttons_written(buttons@, n);
            let body = buttons_json(buttons@, n);
            next_list(t3, f3, "buttons"@, body, vs, ",\"buttons\":["@);
            one_more_field(f3, "buttons"@, Json::List(vs));
            an_object_reads_back(f3.push(("buttons"@, Json::List(vs))), surface(spec)->0);
        },
        _ => {},
    }
}

/// What the page finds of a prompt: its kind, its title, its message where it has one, and the
/// texts of its field and its buttons.
#[verifier::spinoff_prover]
pub proof fn a_prompt_reads_back(spec: PresentSpec)
    requires
        spec is Prompt,
    ensures
        ({
            let read = read_json(surface(spec)->0);
            let v = read->0;
            &&& surface(spec) is Some
            &&& read is Some
            &&& spec matches PresentSpec::Prompt {
                title,
                message,
                placeholder,
                initial,
                ok,
                cancel,
            } && {
                &&& says(v, "kind"@) == Some(Json::Text("prompt"@))
                &&& says(v, "title"@) == Some(Json::Text(title@))
                &&& message is Some ==> says(v, "message"@) == Some(Json::Text(message->0@))
                &&& message is None ==> says(v, "message"@) is None
                &&& says(v, "placeholder"@) == Some(Json::Text(placeholder@))
                &&& says(v, "initial"@) == Some(Json::Text(initial@))
                &&& says(v, "ok"@) == Some(Json::Text(ok@))
                &&& says(v, "cancel"@) == Some(Json::Text(cancel@))
            }
        }),
{
    match spec {
        PresentSpec::Prompt { title, message, placeholder, initial, ok, cancel } => {
            brackets();
            surface_names_differ();
            reveal_strlit("prompt");
            reveal_strlit("{\"kind\":");
            reveal_strlit(",\"title\":");
            reveal_strlit("{\"kind\":\"prompt\",\"title\":");
            let lead = "{\"kind\":\"prompt\",\"title\":"@;
            assert(lead =~= "{\"kind\":"@ + (seq!['"'] + "prompt"@ + seq!['"']) + ",\"title\":"@);
            titled_written("prompt"@, title@, lead);
            let f1 = titled("prompt"@, title@);
            let t1 = lead + json_string(title@);
            with_message(t1, f1, message);
            let f2 = message_fields(f1, message);
            let t2 = t1 + crate::dom::specs::message_field(message);
            key_placeholder();
            next_field(t2, f2, "placeholder"@, Json::Text(placeholder@), ",\"placeholder\":"@);
            one_more_field(f2, "placeholder"@, Json::Text(placeholder@));
            let f3 = f2.push(("placeholder"@, Json::Text(placeholder@)));
            let t3 = t2 + ",\"placeholder\":"@ + json_string(placeholder@);
            key_initial();
            next_field(t3, f3, "initial"@, Json::Text(initial@), ",\"initial\":"@);
            one_more_field(f3, "initial"@, Json::Text(initial@));
            let f4 = f3.push(("initial"@, Json::Text(initial@)));
            let t4 = t3 + ",\"initial\":"@ + json_string(initial@);
            key_ok();
            next_field(t4, f4, "ok"@, Json::Text(ok@), ",\"ok\":"@);
            one_more_field(f4, "ok"@, Json::Text(ok@));
            let f5 = f4.push(("ok"@, Json::Text(ok@)));
            let t5 = t4 + ",\"ok\":"@ + json_string(ok@);
            key_cancel();
            next_field(t5, f5, "cancel"@, Json::Text(cancel@), ",\"cancel\":"@);
            one_more_field(f5, "cancel"@, Json::Text(cancel@));
            let f6 = f5.push(("cancel"@, Json::Text(cancel@)));
            an_object_reads_back(f6, surface(spec)->0);
        },
        _ => {},
    }
}

/// What the page finds of a request to open a file: its kind, its title, and the endings of the
/// files to offer. A request to save one is no text of its own.
pub proof fn an_open_reads_back(spec: PresentSpec)
    ensures
        spec is SaveFile ==> surface(spec) is None,
        spec matches PresentSpec::OpenFile { title, filters } ==> {
            let read = read_json(surface(spec)->0);
            let v = read->0;
            &&& surface(spec) is Some
            &&& read is Some
            &&& says(v, "kind"@) == Some(Json::Text("open"@))
            &&& says(v, "title"@) == Some(Json::Text(title@))
            &&& says(v, "accept"@) == Some(
                Json::Text(accept_list(extensions(filters@, filters@.len() as int))),
            )
        },
{
    match spec {
        PresentSpec::OpenFile { title, filters } => {
            brackets();
            surface_names_differ();
            reveal_strlit("open");
            reveal_strlit("{\"kind\":");
            reveal_strlit(",\"title\":");
            reveal_strlit("{\"kind\":\"open\",\"title\":");
            let lead = "{\"kind\":\"open\",\"title\":"@;
            assert(lead =~= "{\"kind\":"@ + (seq!['"'] + "open"@ + seq!['"']) + ",\"title\":"@);
            titled_written("open"@, title@, lead);
            let f1 = titled("open"@, title@);
            let t1 = lead + json_string(title@);
            key_accept();
            let v = Json::Text(accept_list(extensions(filters@, filters@.len() as int)));
            next_field(t1, f1, "accept"@, v, ",\"accept\":"@);
            one_more_field(f1, "accept"@, v);
            an_object_reads_back(f1.push(("accept"@, v)), surface(spec)->0);
        },
        _ => {},
    }
}

/// What the page finds of a save: its kind, its title and the name to save under.
pub proof fn a_save_reads_back(title: Seq<char>, name: Seq<char>)
    ensures
        ({
            let read = read_json(save_surface(title, name));
            let v = read->0;
            &&& read is Some
            &&& says(v, "kind"@) == Some(Json::Text("save"@))
            &&& says(v, "title"@) == Some(Json::Text(title))
            &&& says(v, "name"@) == Some(Json::Text(name))
        }),
{
    brackets();
    surface_names_differ();
    reveal_strlit("save");
    reveal_strlit("{\"kind\":");
    reveal_strlit(",\"title\":");
    reveal_strlit("{\"kind\":\"save\",\"title\":");
    let lead = "{\"kind\":\"save\",\"title\":"@;
    assert(lead =~= "{\"kind\":"@ + (seq!['"'] + "save"@ + seq!['"']) + ",\"title\":"@);
    titled_written("save"@, title, lead);
    let f1 = titled("save"@, title);
    let t1 = lead + json_string(title);
    key_name();
    next_field(t1, f1, "name"@, Json::Text(name), ",\"name\":"@);
    one_more_field(f1, "name"@, Json::Text(name));
    an_object_reads_back(f1.push(("name"@, Json::Text(name))), save_surface(title, name));
}

/// The endings of the filters' files: all of them, filter by filter and each filter's in order.
pub proof fn every_ending_is_offered(filters: Seq<FileFilter>, i: int, j: int)
    requires
        0 <= i < filters.len(),
        0 <= j < filters[i].extensions@.len(),
    ensures
        extensions(filters, filters.len() as int).contains(filters[i].extensions@[j]@),
{
    ending_is_kept(filters, filters.len() as int, i, j);
}

proof fn ending_is_kept(filters: Seq<FileFilter>, n: int, i: int, j: int)
    requires
        0 <= i < n <= filters.len(),
        0 <= j < filters[i].extensions@.len(),
    ensures
        extensions(filters, n).contains(filters[i].extensions@[j]@),
    decreases n,
{
    let before = extensions(filters, n - 1);
    let e = filters[i].extensions@[j]@;
    if i == n - 1 {
        assert(extensions(filters, n)[before.len() + j] == e);
    } else {
        ending_is_kept(filters, n - 1, i, j);
        assert(extensions(filters, n)[before.index_of(e)] == e);
    }
}

/// Each ending stands in the list with a dot in front, and a comma before every one but the first.
pub proof fn endings_are_dotted(v: Seq<Seq<char>>, e: Seq<char>)
    ensures
        accept_list(seq![e]) == seq!['.'] + e,
        v.len() > 0 ==> accept_list(v.push(e)) == accept_list(v) + seq![',', '.'] + e,
{
    reveal_strlit(".");
    brackets();
    assert("."@ =~= seq!['.']);
    let none = Seq::<Seq<char>>::empty();
    assert(seq![e].drop_last() =~= none);
    assert(accept_list(none) =~= Seq::<char>::empty());
    assert(seq![e].last() == e);
    assert(accept_list(seq![e]) =~= seq!['.'] + e);
    assert(v.push(e).drop_last() =~= v);
    if v.len() > 0 {
        assert(accept_list(v.push(e)) =~= accept_list(v) + seq![',', '.'] + e);
    }
}

/// Where a picture comes from: a name that is itself a vector, or a variant in weight of one that
/// has none of its own, lies with the vectors; any other name is a raster; a symbol is drawn from
/// its outline, and one without an outline has no picture.
pub proof fn pictures_lie_where_they_are_staged(
    name: String,
    base: Seq<char>,
    vectors: Seq<String>,
)
    ensures
        ({
            let source = icon_source(Some(Icon::Image(name)), vectors);
            let known = exists|i: int| 0 <= i < vectors.len() && (#[trigger] vectors[i])@ == name@;
            let other = exists|i: int| 0 <= i < vectors.len() && (#[trigger] vectors[i])@ == base;
            &&& source == Some(url(name@, vectors))
            &&& known ==> url(name@, vectors) == "assets/images/"@ + name@ + ".svg"@
            &&& !known && other && base.len() > 0 && name@ == base + "__light"@ ==> url(
                name@,
                vectors,
            ) == "assets/images/"@ + base + ".svg"@
            &&& (forall|i: int| 0 <= i < vectors.len() ==> (#[trigger] vectors[i])@.len() == 0) && name@.len()
                > 0 ==> url(name@, vectors) == "assets/images/"@ + name@ + ".png"@
        }),
        icon_source(None, vectors) is None,
        icon_source(Some(Icon::Symbol(None)), vectors) is None,
{
    reveal_strlit(".");
    reveal_strlit("svg");
    reveal_strlit("png");
    reveal_strlit(".svg");
    reveal_strlit(".png");
    assert(".svg"@ =~= "."@ + "svg"@);
    assert(".png"@ =~= "."@ + "png"@);
    let known = exists|i: int| 0 <= i < vectors.len() && (#[trigger] vectors[i])@ == name@;
    let other = exists|i: int| 0 <= i < vectors.len() && (#[trigger] vectors[i])@ == base;
    let u = url(name@, vectors);
    if known {
        assert(listed(vectors, name@));
        assert(u =~= "assets/images/"@ + name@ + ".svg"@);
    }
    if !known && other && base.len() > 0 && name@ == base + "__light"@ {
        reveal_strlit("__light");
        assert(!listed(vectors, name@));
        assert(listed(vectors, base));
        assert(name@.skip(base.len() as int) =~= "__light"@);
        assert(name@.take(base.len() as int) =~= base);
        assert(crate::dom::image::stripped(name@, "__light"@) == Some(base));
        assert(u =~= "assets/images/"@ + base + ".svg"@);
    }
    if (forall|i: int| 0 <= i < vectors.len() ==> (#[trigger] vectors[i])@.len() == 0) && name@.len()
        > 0 {
        assert(!listed(vectors, name@));
        assert(u =~= "assets/images/"@ + name@ + ".png"@);
    }
}

} // verus!
