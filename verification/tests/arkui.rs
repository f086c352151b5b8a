//! The HarmonyOS backend.
use day_toolkits::arkui::act::{Act, ArkAct};
use day_toolkits::arkui::events::{
    asks_delete_guard, asks_guard, capability, day_arkui_list_can_delete, day_arkui_list_can_move, day_arkui_list_count,
    day_arkui_list_is_selected, day_arkui_list_move, day_arkui_nav_area,
    day_arkui_nav_back_requested, day_arkui_nav_menu_action, day_arkui_nav_popped,
    day_arkui_on_event, day_arkui_resized, day_arkui_set_cache_dir, day_arkui_window_closed,
    day_arkui_window_focused, day_arkui_window_start, drag_numbers, drag_words, first_baseline,
    hilog_sink,
    open_window, theme_is_dark, OpenReply, Reading,
};
use day_toolkits::arkui::looks::{
    argb, c_text, cut_argb, font_vp, K_BUTTON, K_COLUMN, K_LIST, K_ROW, K_SCROLL, K_STACK, K_TEXT,
};
use day_toolkits::arkui::manifest::{font_families, manifest_entries};
use day_toolkits::arkui::menu::FIRST_CLICK;
use day_toolkits::arkui::piece::{make, update};
use day_toolkits::arkui::state::ArkUi;
use day_toolkits::arkui::suite::Suite;
use day_toolkits::logging::Level;
use day_toolkits::model::{
    ButtonStyle, Cap, Channel, Color, Event, Font, FontSpec, GestureKind, Length, NavPatch,
    NavPresentation, PickerStyle, Point, PresentResult, Real, Rect, Size, Support, Target,
};
use day_toolkits::num::Num;
use day_toolkits::pieces::{
    ButtonProps, CoverPatch, ListPatch, ListProps, MenuRows, NavMenuPatch, Patch, PickerPatch,
    PickerProps, Piece, SliderPatch, SliderProps, TextAreaProps, TextFieldPatch, TextFieldProps,
};

fn n(x: f64) -> Num {
    Num { bits: x.to_bits() }
}

fn s(t: &str) -> String {
    String::from(t)
}

fn channel(x: f64) -> Channel {
    Channel {
        num: n(x),
        cut: (x * 255.0) as u8,
        near: (x * 255.0).round() as u8,
        fine_cut: (x * 65535.0) as u16,
        fine: (x * 65535.0).round() as u16,
    }
}

fn color(r: f64, g: f64, b: f64, a: f64) -> Color {
    Color { r: channel(r), g: channel(g), b: channel(b), a: channel(a), alpha: format!("{}", a) }
}

fn font(style: Font) -> FontSpec {
    FontSpec {
        style,
        weight: None,
        italic: false,
        monospace: false,
        tabular: false,
        scale: n(1.0),
        size: s("1"),
        units: 0,
    }
}

fn rows(items: &[&str]) -> MenuRows {
    MenuRows {
        items: items.iter().map(|t| s(t)).collect(),
        icons: Vec::new(),
        tints: Vec::new(),
        badges: Vec::new(),
        badge_icons: Vec::new(),
        badge_tints: Vec::new(),
        sections: Vec::new(),
        menus: Vec::new(),
    }
}

fn plain() -> Reading {
    Reading { value: n(0.0), near: false, drag: None }
}

fn event(ark: &mut ArkUi, id: u64, kind: i32, num: f64, text: Option<&str>) -> Vec<ArkAct> {
    let bytes = text.map(|t| t.as_bytes().to_vec());
    day_arkui_on_event(ark, id, kind, n(num), &bytes, &plain())
}

fn field() -> TextFieldProps {
    TextFieldProps { text: s(""), placeholder: s(""), enabled: true }
}

fn measure(x: f64) -> Real {
    Real { num: n(x), text: format!("{}", x) }
}

fn list_props() -> ListProps {
    ListProps {
        pitch: Some(n(30.0)),
        selectable: true,
        multi_select: true,
        separators: None,
        reorderable: true,
        deletable: true,
        delete_label: s("Delete"),
    }
}

#[test]
fn colors_in_one_number() {
    let c = color(1.0, 0.5, 0.0, 1.0);
    assert_eq!(argb(&c), 0xFFFF_8000);
    assert_eq!(cut_argb(&c), 0xFFFF_7F00);
    assert_eq!(font_vp(&font(Font::Title)), Length::Whole(28));
    assert_eq!(font_vp(&font(Font::System(n(9.5)))), Length::Given(n(9.5)));
}

#[test]
fn c_texts_hold_no_nul() {
    assert!(!c_text("a\0b").contains('\0'));
    assert_eq!(c_text("ab"), "ab");
}

#[test]
fn nodes_for_pieces() {
    let ark = ArkUi::new(false);
    assert_eq!(ark.wanted(&Piece::Scroll { horizontal: false }), vec![K_SCROLL, K_STACK]);
    assert_eq!(
        ark.wanted(&Piece::Nav { presentation: NavPresentation::Tabs, title: s("") }),
        vec![K_COLUMN, K_STACK, K_ROW]
    );
    assert_eq!(ark.wanted(&Piece::List(list_props())), vec![K_LIST]);
    let b = ButtonProps { title: s("x"), style: ButtonStyle::Automatic, enabled: true };
    assert_eq!(ark.wanted(&Piece::Button(b)), vec![K_BUTTON]);
    assert_ne!(K_TEXT, K_STACK);
}

#[test]
fn what_was_set_does_not_come_back_as_typing() {
    let mut ark = ArkUi::new(false);
    ark.realize(&Piece::TextField(field()), 7, &vec![100], &Vec::new());
    let set = Patch::TextField(TextFieldPatch::Text { text: s("hi"), from_native: false });
    let out = ark.update(100, &set, &Vec::new(), &Vec::new());
    assert!(out.contains(&Act::InputText { node: 100, text: s("hi") }));
    assert_eq!(event(&mut ark, 7, 1, 0.0, Some("hi")), vec![]);
    assert_eq!(
        event(&mut ark, 7, 1, 0.0, Some("hit")),
        vec![Act::Emit { to: Target::Node(7), event: Event::TextChanged(s("hit")) }]
    );
    assert_eq!(
        event(&mut ark, 7, 1, 0.0, Some("hi")),
        vec![Act::Emit { to: Target::Node(7), event: Event::TextChanged(s("hi")) }]
    );
}

#[test]
fn sliders_report_on_their_range() {
    let mut ark = ArkUi::new(false);
    let p = SliderProps {
        min: measure(0.0),
        max: measure(10.0),
        step: None,
        value: n(1.0),
        enabled: true,
    };
    ark.realize(&Piece::Slider(p), 7, &vec![100], &Vec::new());
    assert_eq!(ark.slider_range(7), Some((n(0.0), n(10.0))));
    ark.update(100, &Patch::Slider(SliderPatch::Value(n(4.0))), &Vec::new(), &Vec::new());
    assert_eq!(ark.told_value(7), Some(n(4.0)));
    let echo = Reading { value: n(4.0), near: true, drag: None };
    assert_eq!(day_arkui_on_event(&mut ark, 7, 3, n(40.0), &None, &echo), vec![]);
    let moved = Reading { value: n(5.0), near: false, drag: None };
    assert_eq!(
        day_arkui_on_event(&mut ark, 7, 22, n(50.0), &None, &moved),
        vec![Act::Emit { to: Target::Node(7), event: Event::ValueCommitted(n(5.0)) }]
    );
    assert_eq!(ark.told_value(7), None);
}

#[test]
fn events_by_their_kind() {
    let mut ark = ArkUi::new(false);
    let one = |e| vec![Act::Emit { to: Target::Node(9), event: e }];
    assert_eq!(event(&mut ark, 9, 0, 0.0, None), one(Event::Pressed));
    assert_eq!(event(&mut ark, 9, 2, 1.0, None), one(Event::ToggleChanged(true)));
    assert_eq!(event(&mut ark, 9, 4, 2.9, None), one(Event::SelectionChanged(2)));
    assert_eq!(event(&mut ark, 9, 16, 0.0, None), one(Event::FocusChanged(false)));
    assert_eq!(event(&mut ark, 9, 17, 0.0, None), one(Event::Submitted));
    assert_eq!(
        event(&mut ark, 9, 15, 0.0, Some("/tmp/a")),
        one(Event::PresentResult { req: 9, result: PresentResult::Files(vec![s("/tmp/a")]) })
    );
    assert_eq!(
        event(&mut ark, 9, 15, 0.0, Some("")),
        one(Event::PresentResult { req: 9, result: PresentResult::Dismissed })
    );
    assert_eq!(event(&mut ark, 9, 999, 0.0, None), vec![]);
    ark.enable_gesture(100, 9, GestureKind::Tap);
    let origin = Point { x: n(0.0), y: n(0.0) };
    assert_eq!(event(&mut ark, 9, 0, 0.0, None), one(Event::Tap(origin)));
    ark.release(100);
    assert_eq!(event(&mut ark, 9, 0, 0.0, None), one(Event::Pressed));
}

#[test]
fn rows_of_a_menu_answer_for_it() {
    let mut ark = ArkUi::new(false);
    let piece = Piece::NavMenu { rows: rows(&["A", "B"]), selected: None };
    let count = ark.wanted(&piece).len() as u64;
    let nodes: Vec<u64> = (100..100 + count).collect();
    ark.realize(&piece, 7, &nodes, &Vec::new());
    assert_eq!(
        event(&mut ark, FIRST_CLICK + 1, 0, 0.0, None),
        vec![Act::Emit { to: Target::Node(7), event: Event::SelectionChanged(1) }]
    );
    let patch = Patch::NavMenu(NavMenuPatch::Items { rows: rows(&["C"]), selected: None });
    let more = ark.wanted_for(100, &patch).len() as u64;
    let fresh: Vec<u64> = (200..200 + more).collect();
    ark.update(100, &patch, &fresh, &Vec::new());
    assert_eq!(
        event(&mut ark, FIRST_CLICK + 1, 0, 0.0, None),
        vec![Act::Emit { to: Target::Node(FIRST_CLICK + 1), event: Event::Pressed }]
    );
    assert_eq!(
        event(&mut ark, FIRST_CLICK + 2, 0, 0.0, None),
        vec![Act::Emit { to: Target::Node(7), event: Event::SelectionChanged(0) }]
    );
}

#[test]
fn a_pop_is_waited_for_until_it_is_confirmed() {
    let mut ark = ArkUi::new(false);
    let host = Piece::Nav { presentation: NavPresentation::Stack, title: s("") };
    ark.realize(&host, 1, &vec![50], &Vec::new());
    ark.realize(&Piece::NavPage { sidebar: false, title: s("P") }, 2, &vec![60], &Vec::new());
    ark.insert(50, 60, 0);
    let pushed = ark.update(
        50,
        &Patch::Nav(NavPatch::Pushed { title: s("P") }),
        &Vec::new(),
        &Vec::new(),
    );
    assert_eq!(
        pushed,
        vec![
            Act::Remove { parent: 50, child: 60 },
            Act::NavPush { page: 60, key: 2, title: s("P") },
        ]
    );
    ark.push_answered(50, 60, 2, true);
    assert!(!ark.nav.ui_idle());
    day_arkui_nav_area(&mut ark, 2, n(300.0), n(500.0));
    assert!(ark.nav.ui_idle());
    let popped = ark.update(50, &Patch::Nav(NavPatch::Popped), &Vec::new(), &Vec::new());
    assert_eq!(popped, vec![Act::NavPop]);
    assert!(!ark.nav.ui_idle());
    assert_eq!(day_arkui_nav_popped(&mut ark, 2), vec![]);
    assert!(ark.nav.ui_idle());
    assert_eq!(
        day_arkui_nav_popped(&mut ark, 2),
        vec![Act::Emit { to: Target::Node(1), event: Event::NavBack { already_popped: true } }]
    );
    assert_eq!(
        day_arkui_nav_back_requested(&ark),
        vec![Act::Emit { to: Target::Node(1), event: Event::NavBack { already_popped: false } }]
    );
    assert_eq!(day_arkui_nav_menu_action(&ark, 5).len(), 1);
}

#[test]
fn a_page_popped_before_it_showed_is_not_waited_for() {
    let mut ark = ArkUi::new(false);
    let host = Piece::Nav { presentation: NavPresentation::Stack, title: s("") };
    ark.realize(&host, 1, &vec![50], &Vec::new());
    ark.realize(&Piece::NavPage { sidebar: false, title: s("P") }, 2, &vec![60], &Vec::new());
    ark.insert(50, 60, 0);
    ark.update(50, &Patch::Nav(NavPatch::Pushed { title: s("P") }), &Vec::new(), &Vec::new());
    ark.push_answered(50, 60, 2, true);
    ark.update(50, &Patch::Nav(NavPatch::Popped), &Vec::new(), &Vec::new());
    assert!(ark.nav.ui_idle());
}

#[test]
fn covers_top_the_window_once() {
    let mut ark = ArkUi::new(false);
    ark.init(1, n(400.0), n(800.0));
    ark.realize(&Piece::Cover, 7, &vec![70], &Vec::new());
    ark.insert(40, 70, 0);
    let up = Patch::Cover(CoverPatch::Present { background: None });
    let out = ark.update(70, &up, &Vec::new(), &Vec::new());
    assert!(out.contains(&Act::Add { parent: 1, child: 70 }));
    assert_eq!(ark.update(70, &up, &Vec::new(), &Vec::new()), vec![]);
    let down = ark.update(70, &Patch::Cover(CoverPatch::Dismiss), &Vec::new(), &Vec::new());
    assert_eq!(
        down.last(),
        Some(&Act::PostEmit { to: Target::Node(7), event: Event::CoverHidden })
    );
    let resized = day_arkui_resized(&mut ark, n(500.0), n(900.0));
    assert!(!resized.is_empty());
}

#[test]
fn lists_reload_once_a_turn() {
    let mut ark = ArkUi::new(false);
    ark.realize(&Piece::List(list_props()), 7, &vec![70], &Vec::new());
    let reload = Patch::List(ListPatch::Reload);
    assert_eq!(
        ark.update(70, &reload, &Vec::new(), &Vec::new()),
        vec![Act::PostReload { node: 70 }]
    );
    assert_eq!(ark.update(70, &reload, &Vec::new(), &Vec::new()), vec![]);
    assert_eq!(ark.reload(70), vec![Act::ListReload { node: 70 }]);
    ark.update(70, &Patch::List(ListPatch::Selected(vec![2])), &Vec::new(), &Vec::new());
    assert_eq!(day_arkui_list_is_selected(&ark, 7, 2), 1);
    assert_eq!(day_arkui_list_is_selected(&ark, 7, 3), 0);
}

#[test]
fn drops_land_on_rows() {
    assert_eq!(day_arkui_list_can_move(Some(3), 0, 1, 7), 2);
    assert_eq!(day_arkui_list_can_move(Some(3), 0, 1, -1), -1);
    assert_eq!(day_arkui_list_can_move(Some(3), 0, 3, 0), -1);
    assert_eq!(day_arkui_list_can_move(None, 0, 0, 0), -1);
    assert_eq!(day_arkui_list_move(false, 0, 1), (0, false));
    assert_eq!(day_arkui_list_can_delete(Some(2), 1, true), 1);
    assert_eq!(day_arkui_list_can_delete(Some(2), 2, true), 0);
    assert_eq!(day_arkui_list_can_delete(Some(2), 1, false), 0);
    assert_eq!(day_arkui_list_count(None), 0);
    assert_eq!(day_arkui_list_count(Some(4)), 4);
}

#[test]
fn a_picker_shows_one_of_its_options() {
    let mut ark = ArkUi::new(false);
    let p = PickerProps {
        options: vec![s("a"), s("b"), s("c")],
        selected: 2,
        style: PickerStyle::Menu,
        intrinsic: Size { width: n(0.0), height: n(0.0) },
    };
    ark.realize(&Piece::Picker(p), 7, &vec![70], &Vec::new());
    let out = ark.update(
        70,
        &Patch::Picker(PickerPatch::Options(vec![s("x")])),
        &Vec::new(),
        &Vec::new(),
    );
    assert!(out.iter().any(|a| matches!(a, Act::Options { selected: 0, .. })));
}

#[test]
fn a_choice_is_kept() {
    let mut ark = ArkUi::new(false);
    let p = PickerProps {
        options: vec![s("a"), s("b"), s("c")],
        selected: 0,
        style: PickerStyle::Menu,
        intrinsic: Size { width: n(0.0), height: n(0.0) },
    };
    ark.realize(&Piece::Picker(p), 7, &vec![70], &Vec::new());
    assert_eq!(
        event(&mut ark, 7, 4, 2.0, None),
        vec![Act::Emit { to: Target::Node(7), event: Event::SelectionChanged(2) }]
    );
    let out = ark.update(
        70,
        &Patch::Picker(PickerPatch::Options(vec![s("x"), s("y"), s("z")])),
        &Vec::new(),
        &Vec::new(),
    );
    assert!(out.iter().any(|a| matches!(a, Act::Options { selected: 2, .. })));
}

#[test]
fn the_first_text_of_an_area_is_no_edit() {
    let mut ark = ArkUi::new(false);
    let p = TextAreaProps {
        text: s("hi"),
        placeholder: s(""),
        editable: true,
        selectable: true,
        spellcheck: true,
        min_lines: 1,
        max_lines: 4,
    };
    ark.realize(&Piece::TextArea(p), 7, &vec![70], &Vec::new());
    assert_eq!(event(&mut ark, 7, 1, 0.0, Some("hi")), vec![]);
    assert_eq!(
        event(&mut ark, 7, 1, 0.0, Some("hit")),
        vec![Act::Emit { to: Target::Node(7), event: Event::TextChanged(s("hit")) }]
    );
}

#[test]
fn windows_come_and_go() {
    let mut ark = ArkUi::new(false);
    let (taken, _) = day_arkui_window_start(&mut ark, 5, 90, true);
    assert_eq!(taken, 1);
    assert_eq!(ark.windows, vec![(5, 90)]);
    assert_eq!(ark.close_window(90).len(), 1);
    let out = day_arkui_window_closed(&mut ark, 5);
    assert_eq!(out, vec![Act::Emit { to: Target::Node(5), event: Event::WindowClosed }]);
    assert_eq!(
        day_arkui_window_focused(5, 1),
        vec![Act::Emit { to: Target::Node(5), event: Event::WindowFocused(true) }]
    );
    assert_eq!(open_window(true, "Prefs", true), OpenReply::Unsupported);
    assert_eq!(open_window(false, "Doc", true), OpenReply::Pending);
    assert_eq!(open_window(false, "Doc", false), OpenReply::Unsupported);
}

#[test]
fn pieces_built_on_the_other_side() {
    let mut ark = ArkUi::new(false);
    assert_eq!(make(&mut ark, "map", 7, None, 99), (99, vec![Act::Report { kind: s("map") }]));
    assert_eq!(make(&mut ark, "map", 7, Some(70), 99), (70, vec![]));
    assert_eq!(
        update(&ark, 70, "zoom", "2"),
        vec![Act::PieceUpdate { id: 7, command: s("zoom"), arg: s("2") }]
    );
    assert_eq!(update(&ark, 71, "zoom", "2"), vec![]);
    let out = ark.release(70);
    assert_eq!(out, vec![Act::PieceDispose { id: 7 }]);
    assert_eq!(update(&ark, 70, "zoom", "2"), vec![]);
}

#[test]
fn frames_are_set() {
    let mut ark = ArkUi::new(false);
    let frame = Rect {
        origin: Point { x: n(1.0), y: n(2.0) },
        size: Size { width: n(3.0), height: n(4.0) },
    };
    assert_eq!(ark.set_frame(5, frame, n(0.0)), vec![Act::Frame { node: 5, frame }]);
}

#[test]
fn themes_directories_and_capabilities() {
    assert!(theme_is_dark(&Some(s("dark")), &None));
    assert!(!theme_is_dark(&Some(s("light")), &Some(s("1"))));
    assert!(theme_is_dark(&Some(s("auto")), &Some(s("1"))));
    assert!(!theme_is_dark(&None, &None));
    assert_eq!(day_arkui_set_cache_dir(&Some(b"/c".to_vec())), Some(s("/c")));
    assert_eq!(day_arkui_set_cache_dir(&None), None);
    assert_eq!(capability(Cap::Tree, true), Support::Emulated);
    assert_eq!(capability(Cap::Inspector, true), Support::Unsupported);
    assert_eq!(hilog_sink(Level::Info, "x"), vec![Act::Log { line: s("x") }]);
}

#[test]
fn fonts_of_the_manifest() {
    let json = "{\"fonts\":[{\"family\":\"A \\\"B\\\"\",\"file\":\"a.ttf\"},{\"family\":\"C\",\"file\":\"c.ttf\"}]}";
    let found = manifest_entries(json);
    assert_eq!(found.len(), 2);
    assert_eq!(found[1].family, "C");
    assert_eq!(found[1].file, "c.ttf");
    assert_eq!(found[0].family, "A \"B\"");
    assert_eq!(found[0].file, "a.ttf");
    assert_eq!(font_families(vec![s("C")], &found).iter().filter(|f| *f == "C").count(), 1);
}

#[test]
fn escaped_quotes_are_part_of_a_family() {
    let json = r#"[{"family":"A\"B","file":"ab.ttf"},{"family":"","file":"x.ttf"}]"#;
    let found = manifest_entries(json);
    assert_eq!(found.len(), 1);
    assert_eq!(found[0].family, "A\"B");
    assert_eq!(found[0].file, "ab.ttf");
    let back = manifest_entries(r#"[{"family":"C\\","file":"c\\d.ttf"}]"#);
    assert_eq!(back[0].family, "C\\");
    assert_eq!(back[0].file, "c\\d.ttf");
    assert!(manifest_entries(r#"[{"family":"open\","file":"x.ttf}]"#).is_empty());
}

#[test]
fn the_accent_follows_the_selection() {
    let mut ark = ArkUi::new(false);
    let host = Piece::Nav { presentation: NavPresentation::Tabs, title: s("") };
    ark.realize(&host, 1, &vec![50, 51, 52], &Vec::new());
    let mut r = rows(&["A", "B"]);
    r.icons = vec![Some(s("home")), Some(s("photo"))];
    let menu = Piece::NavMenu { rows: r, selected: None };
    let vectors = vec![s("home")];
    let count = ark.wanted(&menu).len() as u64;
    let nodes: Vec<u64> = (100..100 + count).collect();
    let built = ark.realize(&menu, 7, &nodes, &vectors);
    let cells = ark.suite.as_ref().unwrap().cells.clone();
    assert_eq!(cells.len(), 2);
    let (first, second) = (cells[0], cells[1]);
    assert!(first.glyph.is_some() && second.glyph.is_none());
    assert!(built.contains(&Act::FontColor { node: first.label, argb: 0xFF00_7DFF }));
    assert!(built.contains(&Act::FontColor { node: second.label, argb: 0x9900_0000 }));
    ark.insert(50, 60, 0);
    ark.insert(50, 61, 1);
    ark.insert(50, 62, 2);
    let select = Patch::Nav(NavPatch::Select(1));
    assert_eq!(
        ark.update(50, &select, &Vec::new(), &Vec::new()),
        vec![
            Act::Visible { node: 61, on: false },
            Act::Visible { node: 62, on: true },
            Act::FontColor { node: first.label, argb: 0x9900_0000 },
            Act::ImageFill { node: first.glyph.unwrap(), argb: 0x9900_0000 },
            Act::FontColor { node: second.label, argb: 0xFF00_7DFF },
        ]
    );
    let patch = Patch::NavMenu(NavMenuPatch::Items { rows: rows(&["C", "D"]), selected: None });
    let more = ark.wanted_for(100, &patch).len() as u64;
    let fresh: Vec<u64> = (200..200 + more).collect();
    let rebuilt = ark.update(100, &patch, &fresh, &vectors);
    let kept = ark.suite.as_ref().unwrap().cells[1];
    assert!(rebuilt.contains(&Act::FontColor { node: kept.label, argb: 0xFF00_7DFF }));
}

#[test]
fn rows_stand_in_order() {
    let mut ark = ArkUi::new(false);
    let piece = Piece::NavMenu { rows: rows(&["A", "B", "C"]), selected: None };
    let count = ark.wanted(&piece).len() as u64;
    let nodes: Vec<u64> = (100..100 + count).collect();
    let out = ark.realize(&piece, 7, &nodes, &Vec::new());
    let places: Vec<usize> = out
        .iter()
        .filter_map(|a| match a {
            Act::Insert { parent: 101, index, .. } => Some(*index),
            _ => None,
        })
        .collect();
    assert_eq!(places, vec![0, 1, 2, 3, 4]);
    let clicks: Vec<u64> = out
        .iter()
        .filter_map(|a| match a {
            Act::Register { id, .. } => Some(*id),
            _ => None,
        })
        .collect();
    assert_eq!(clicks, vec![FIRST_CLICK, FIRST_CLICK + 1, FIRST_CLICK + 2]);
    for i in 0..3 {
        assert_eq!(
            event(&mut ark, FIRST_CLICK + i, 0, 0.0, None),
            vec![Act::Emit { to: Target::Node(7), event: Event::SelectionChanged(i as i64) }]
        );
    }
}

#[test]
fn a_node_is_disposed_of_once() {
    let mut ark = ArkUi::new(false);
    ark.realize(&Piece::Scroll { horizontal: false }, 7, &vec![100, 101], &Vec::new());
    assert_eq!(
        ark.release(100),
        vec![Act::Dispose { node: 101 }, Act::Dispose { node: 100 }]
    );
    assert_eq!(ark.release(100), vec![Act::Dispose { node: 100 }]);
}

#[test]
fn guards_are_asked_of_rows_there_are() {
    assert!(asks_guard(3, 0, 2));
    assert!(!asks_guard(3, 0, 3));
    assert!(!asks_guard(3, 3, 0));
    assert!(asks_delete_guard(2, 1));
    assert!(!asks_delete_guard(2, 2));
}

#[test]
fn drags_are_read_from_their_text() {
    let words = drag_words("1,2.5,,x,-3,4,5");
    assert_eq!(words, vec!["1", "2.5", "", "x", "-3", "4", "5"]);
    let read: Vec<Option<Num>> = words.iter().map(|w| w.parse::<f64>().ok().map(n)).collect();
    assert_eq!(drag_numbers(&read), Some((n(1.0), n(2.5), n(-3.0), n(4.0))));
    assert_eq!(drag_numbers(&vec![Some(n(1.0)), None, Some(n(2.0)), Some(n(3.0))]), None);
    assert_eq!(drag_words(""), vec![""]);
}

#[test]
fn own_nodes_answer_no_row() {
    let mut ark = ArkUi::new(false);
    let piece = Piece::NavMenu { rows: rows(&["A", "B"]), selected: None };
    let count = ark.wanted(&piece).len() as u64;
    let nodes: Vec<u64> = (100..100 + count).collect();
    ark.realize(&piece, 7, &nodes, &Vec::new());
    assert_eq!(
        event(&mut ark, 8, 0, 0.0, None),
        vec![Act::Emit { to: Target::Node(8), event: Event::Pressed }]
    );
}

#[test]
fn a_page_is_taken_once() {
    let mut ark = ArkUi::new(false);
    let host = Piece::Nav { presentation: NavPresentation::Stack, title: s("") };
    ark.realize(&host, 1, &vec![50], &Vec::new());
    ark.realize(&Piece::NavPage { sidebar: false, title: s("P") }, 2, &vec![60], &Vec::new());
    ark.insert(50, 60, 0);
    let push = Patch::Nav(NavPatch::Pushed { title: s("P") });
    assert_eq!(ark.update(50, &push, &Vec::new(), &Vec::new()).len(), 2);
    ark.push_answered(50, 60, 2, true);
    assert_eq!(ark.update(50, &push, &Vec::new(), &Vec::new()), vec![]);
}

#[test]
fn a_rebuilt_host_starts_over() {
    let mut ark = ArkUi::new(false);
    let host = Piece::Nav { presentation: NavPresentation::Stack, title: s("") };
    ark.realize(&host, 1, &vec![50], &Vec::new());
    ark.realize(&Piece::NavPage { sidebar: false, title: s("P") }, 2, &vec![60], &Vec::new());
    ark.insert(50, 60, 0);
    ark.update(50, &Patch::Nav(NavPatch::Pushed { title: s("P") }), &Vec::new(), &Vec::new());
    ark.push_answered(50, 60, 2, true);
    assert!(!ark.nav.ui_idle());
    ark.realize(&host, 3, &vec![51], &Vec::new());
    assert!(ark.nav.ui_idle());
    assert_eq!(
        day_arkui_nav_back_requested(&ark),
        vec![Act::Emit { to: Target::Node(3), event: Event::NavBack { already_popped: false } }]
    );
}

#[test]
fn a_released_page_leaves_no_record() {
    let mut ark = ArkUi::new(false);
    let host = Piece::Nav { presentation: NavPresentation::Stack, title: s("") };
    ark.realize(&host, 1, &vec![50], &Vec::new());
    ark.realize(&Piece::NavPage { sidebar: false, title: s("P") }, 2, &vec![60], &Vec::new());
    ark.insert(50, 60, 0);
    ark.update(50, &Patch::Nav(NavPatch::Pushed { title: s("P") }), &Vec::new(), &Vec::new());
    ark.push_answered(50, 60, 2, true);
    ark.release(60);
    assert_eq!(ark.remove(50, 60), vec![Act::Remove { parent: 50, child: 60 }]);
}

#[test]
fn selecting_shows_one_page() {
    let mut suite = Suite::new(1, 2, 3);
    suite.join(9, 90, 0);
    suite.join(10, 100, 1);
    suite.join(11, 110, 2);
    suite.join(12, 120, 3);
    assert_eq!(
        suite.select(false, 1),
        vec![
            Act::Visible { node: 10, on: false },
            Act::Visible { node: 11, on: true },
            Act::Visible { node: 12, on: false },
        ]
    );
    assert_eq!(suite.selected, 1);
}

#[test]
fn a_released_control_leaves_no_echo() {
    let mut ark = ArkUi::new(false);
    ark.realize(&Piece::TextField(field()), 7, &vec![100], &Vec::new());
    let set = Patch::TextField(TextFieldPatch::Text { text: s("hi"), from_native: false });
    ark.update(100, &set, &Vec::new(), &Vec::new());
    ark.release(100);
    assert_eq!(
        event(&mut ark, 7, 1, 0.0, Some("hi")),
        vec![Act::Emit { to: Target::Node(7), event: Event::TextChanged(s("hi")) }]
    );
}

#[test]
fn a_dismissed_cover_can_be_presented_again() {
    let mut ark = ArkUi::new(false);
    ark.init(1, n(400.0), n(800.0));
    ark.realize(&Piece::Cover, 7, &vec![70], &Vec::new());
    ark.insert(40, 70, 0);
    let up = Patch::Cover(CoverPatch::Present { background: None });
    let down = Patch::Cover(CoverPatch::Dismiss);
    let hidden = Act::PostEmit { to: Target::Node(7), event: Event::CoverHidden };
    ark.update(70, &up, &Vec::new(), &Vec::new());
    ark.update(70, &down, &Vec::new(), &Vec::new());
    assert_eq!(ark.update(70, &down, &Vec::new(), &Vec::new()).last(), Some(&hidden));
    let again = ark.update(70, &up, &Vec::new(), &Vec::new());
    assert!(again.contains(&Act::Add { parent: 1, child: 70 }));
}

#[test]
fn a_node_without_a_baseline_has_none() {
    assert_eq!(first_baseline(true, n(12.5)), Some(n(12.5)));
    assert_eq!(first_baseline(true, n(-1.0)), None);
    assert_eq!(first_baseline(false, n(12.5)), None);
}
