//! The page backend.
use day_toolkits::dom::act::{Act, DomAct, El};
use day_toolkits::dom::canvas::{encode_ops, DrawOp, Outline, Paint, Rgba, Shape, Slot};
use day_toolkits::dom::css::{
    color_css, css_anim, decoration_css, font_css, hex_css, rgb_css, transition_css, SYSTEM_STACK,
};
use day_toolkits::dom::events::{
    asks_guard, day_dom_canvas_key, day_dom_edit, day_dom_event, day_dom_event_text,
    day_dom_hash_changed, day_dom_list_can_move, day_dom_list_key, day_dom_piece_event,
    day_dom_present_files, day_dom_present_result, day_dom_resized, day_dom_toolbar_text,
    day_dom_undo,
};
use day_toolkits::dom::host::{
    capability, console_sink, env_step, first_baseline, host_env, launch_locale, launch_log_level,
    locale_hints, modifiers, now_epoch_ms, present, register_renderer, set_app_badge, set_opacity,
    set_toolbar, supports_lifecycle, update_toolbar, EnvStep, Kind, Measure,
};
use day_toolkits::dom::image::{image_url, resolved_name};
use day_toolkits::dom::list::Window;
use day_toolkits::dom::listen;
use day_toolkits::dom::looks::{EL_DIV, EL_IMAGE, EL_LABEL, EL_PROGRESS, EL_SEGMENTED, EL_SPINNER};
use day_toolkits::dom::nav::NavState;
use day_toolkits::dom::realize::element_kind;
use day_toolkits::dom::specs::{menu_items_json, navmenu_json, picker_json, toolbar_patch_json};
use day_toolkits::dom::state::{Dom, DomHandle};
use day_toolkits::logging::{Level, LevelFilter};
use day_toolkits::model::{
    AnimSpec, AppBadge, ButtonRole, Cap, Channel, Color, ContentMode, Curve, EditOp, Event, Font,
    FontSpec,
    FontWeight, GestureKind, Length, Lifecycle, MenuItem, NavPatch, NavPresentation, PickerStyle, Point,
    PresentButton, PresentResult, PresentSpec, Rect, Size, Support, Target, TextRun, ToolbarColumn,
    ToolbarItem, ToolbarKind, ToolbarPatch, ToolbarPlacement, ToolbarValue, Underline,
};
use day_toolkits::num::Num;
use day_toolkits::pieces::{
    ImageProps, ListPatch, ListProps, MenuRows, Patch, PickerPatch, PickerProps, Piece, TextAreaProps,
    TextFieldPatch, TextFieldProps, TogglePatch, ToggleProps,
};

fn n(x: f64) -> Num {
    Num { bits: x.to_bits() }
}

fn s(t: &str) -> String {
    String::from(t)
}

fn channel(x: f64) -> Channel {
    Channel {
        num: n(x),
        cut: (x * 255.0) as u8,
        near: (x * 255.0).round() as u8,
        fine_cut: (x * 65535.0) as u16,
        fine: (x * 65535.0).round() as u16,
    }
}

fn color(r: f64, g: f64, b: f64, a: f64) -> Color {
    Color { r: channel(r), g: channel(g), b: channel(b), a: channel(a), alpha: format!("{}", a) }
}

fn font(style: Font, size: &str) -> FontSpec {
    FontSpec {
        style,
        weight: None,
        italic: false,
        monospace: false,
        tabular: false,
        scale: n(1.0),
        size: s(size),
        units: 0,
    }
}

fn rows(items: &[&str]) -> MenuRows {
    MenuRows {
        items: items.iter().map(|t| s(t)).collect(),
        icons: Vec::new(),
        tints: Vec::new(),
        badges: Vec::new(),
        badge_icons: Vec::new(),
        badge_tints: Vec::new(),
        sections: Vec::new(),
        menus: Vec::new(),
    }
}

fn list_props(multi: bool) -> ListProps {
    ListProps {
        pitch: Some(n(20.0)),
        selectable: true,
        multi_select: multi,
        separators: None,
        reorderable: false,
        deletable: false,
        delete_label: s(""),
    }
}

fn emitted(out: &Vec<DomAct>) -> Vec<&DomAct> {
    out.iter().filter(|a| matches!(a, Act::Emit { .. })).collect()
}

fn zero() -> Num {
    n(0.0)
}

#[test]
fn fonts_and_colors_in_css() {
    assert_eq!(
        font_css(&font(Font::Title, "1.625")),
        format!("700 calc(1.625rem * var(--day-text-scale))/1.3 {}", SYSTEM_STACK)
    );
    let mut f = font(Font::Custom(s("Inter"), n(20.0)), "1.25");
    f.italic = true;
    f.weight = Some(FontWeight::Semibold);
    assert_eq!(font_css(&f), format!("italic 600 1.25rem/1.3 'Inter', {}", SYSTEM_STACK));
    let c = color(1.0, 0.5, 0.0, 0.25);
    assert_eq!(color_css(&c), "rgba(255,128,0,0.25)");
    assert_eq!(rgb_css(&c), "rgb(255 127 0)");
    assert_eq!(hex_css(&c), "#ff7f00");
}

#[test]
fn decorations_and_transitions() {
    let mut r = TextRun {
        start: 0,
        end: 1,
        font: font(Font::Body, "1"),
        color: None,
        background: None,
        underline: Underline::Wavy,
        strikethrough: true,
        link: None,
    };
    assert_eq!(decoration_css(&r), "underline line-through wavy");
    r.underline = Underline::Off;
    assert_eq!(decoration_css(&r), "line-through");
    let a = AnimSpec { duration_ms: 250, delay_ms: 10, curve: Curve::EaseOut };
    assert_eq!(css_anim(&a), "250ms ease-out 10ms");
    assert_eq!(transition_css("opacity", &Some(a)), "opacity 250ms ease-out 10ms");
    assert_eq!(transition_css("opacity", &None), "");
}

#[test]
fn settings_of_the_page() {
    assert_eq!(env_step(512, 513), EnvStep::Retry(513));
    assert_eq!(env_step(512, 512), EnvStep::Retry(1024));
    assert_eq!(env_step(512, 3), EnvStep::Done(3));
    assert_eq!(host_env(s("")), None);
    assert_eq!(host_env(s("x")), Some(s("x")));
    assert_eq!(launch_locale("de-DE,en"), Some(s("de-DE")));
    assert_eq!(launch_locale(""), None);
    assert_eq!(locale_hints("de,,en"), vec!["de", "en"]);
    assert_eq!(now_epoch_ms(n(1700000000123.0)), 1700000000123);
    assert_eq!(launch_log_level(s("warn")), Some(LevelFilter::Warn));
    assert_eq!(launch_log_level(s("")), None);
    assert_eq!(
        console_sink(Level::Error, "oops"),
        vec![Act::Log { level: 1, line: s("oops") }]
    );
}

#[test]
fn what_the_page_can_do() {
    assert_eq!(capability(Cap::Tree), Support::Emulated);
    assert_eq!(capability(Cap::Inspector), Support::Unsupported);
    assert!(supports_lifecycle(Lifecycle::DidBecomeActive));
    assert!(!supports_lifecycle(Lifecycle::DidEnterBackground));
    let m = modifiers(5);
    assert!(m.shift && !m.primary && m.alt);
    assert_eq!(set_app_badge(&AppBadge::Count(3)), vec![Act::Badge(3)]);
}

#[test]
fn images_have_one_address() {
    let vectors = vec![s("star")];
    assert_eq!(image_url("star", &vectors), image_url(&resolved_name("star", &vectors), &vectors));
    assert_ne!(image_url("star", &vectors), image_url("star", &Vec::new()));
}

#[test]
fn menus_and_pickers_as_json() {
    assert_eq!(
        navmenu_json(&rows(&["Home", "A \"b\""]), Some(1), &Vec::new()),
        "{\"items\":[{\"title\":\"Home\"},{\"title\":\"A \\\"b\\\"\"}],\"selected\":1}"
    );
    assert_eq!(navmenu_json(&rows(&[]), None, &Vec::new()), "{\"items\":[],\"selected\":-1}");
    assert_eq!(
        picker_json(&vec![s("a"), s("b")], 1),
        "{\"options\":[\"a\",\"b\"],\"selected\":1}"
    );
    let items = vec![
        MenuItem::Action {
            action: 7,
            label: s("Go"),
            enabled: true,
            checked: Some(false),
            role: None,
            shortcut: None,
            icon: None,
        },
        MenuItem::Separator,
        MenuItem::Submenu { label: s("More"), items: Vec::new() },
    ];
    assert_eq!(
        menu_items_json(&items, &Vec::new()),
        "[{\"label\":\"Go\",\"id\":7,\"enabled\":true,\"checked\":false},{\"sep\":true},{\"label\":\"More\",\"items\":[]}]"
    );
}

#[test]
fn toolbars_as_json() {
    let item = ToolbarItem {
        kind: ToolbarKind::Toggle { on: true },
        id: s("t"),
        label: s("Bold"),
        tooltip: None,
        action: 9,
        enabled: false,
        placement: ToolbarPlacement::Primary,
        column: ToolbarColumn::Window,
        icon: None,
    };
    assert_eq!(
        set_toolbar(&vec![item], &Vec::new()),
        vec![Act::Toolbar(s(
            "{\"items\":[{\"kind\":\"T\",\"id\":\"t\",\"label\":\"Bold\",\"tip\":\"Bold\",\"action\":9,\"enabled\":false,\"place\":\"primary\",\"col\":\"detail\",\"on\":true}]}"
        ))]
    );
    let patch = ToolbarPatch::Selected { item: s("seg"), index: 2 };
    assert_eq!(toolbar_patch_json(&patch), "{\"item\":\"seg\",\"selected\":2}");
    assert_eq!(
        update_toolbar(&patch),
        vec![Act::ToolbarPatch(s("{\"item\":\"seg\",\"selected\":2}"))]
    );
}

#[test]
fn elements_for_pieces() {
    assert_eq!(element_kind(&Piece::Progress(None)), EL_SPINNER);
    assert_eq!(element_kind(&Piece::Progress(Some(n(0.5)))), EL_PROGRESS);
    assert_eq!(element_kind(&Piece::Mismatched(s("x"))), EL_LABEL);
    let p = PickerProps {
        options: Vec::new(),
        selected: 0,
        style: PickerStyle::Segmented,
        intrinsic: Size { width: zero(), height: zero() },
    };
    assert_eq!(element_kind(&Piece::Picker(p)), EL_SEGMENTED);
    assert_ne!(EL_DIV, EL_IMAGE);
}

#[test]
fn masks_of_events() {
    assert_eq!(listen::SLIDER, listen::INPUT | listen::CHANGE);
    assert_eq!(listen::FIELD, listen::INPUT | listen::FOCUS | listen::SUBMIT);
    assert_eq!(listen::AREA, listen::INPUT | listen::FOCUS);
    let dom = Dom::new();
    assert_eq!(dom.listen(&DomHandle(3), listen::DRAG), vec![Act::Listen(3, 256)]);
}

#[test]
fn a_placeholder_names_its_kind() {
    let mut dom = Dom::new();
    let out = dom.realize(5, 0, &Piece::Unrendered(s("map")), 40, &Vec::new());
    assert!(out.contains(&Act::Text(El::Own(5), s("⟨map⟩"))));
    assert_eq!(out[1], Act::Report(s("map")));
    assert_eq!(dom.node_of(5), Some(40));
    let odd = dom.realize(6, 0, &Piece::Mismatched(s("label")), 41, &Vec::new());
    assert_eq!(odd[0], Act::Report(s("label")));
}

#[test]
fn reports_reach_the_node_of_their_element() {
    let mut dom = Dom::new();
    let toggle = ToggleProps { on: true, enabled: true };
    dom.realize(7, 0, &Piece::Toggle(toggle), 70, &Vec::new());
    assert_eq!(
        day_dom_event(&mut dom, 7, 4, n(1.0), zero(), zero(), zero()),
        vec![Act::Emit { to: Target::Node(70), event: Event::ToggleChanged(true) }]
    );
    assert_eq!(
        day_dom_event(&mut dom, 7, 6, n(-3.7), zero(), zero(), zero()),
        vec![Act::Emit { to: Target::Node(70), event: Event::SelectionChanged(-3) }]
    );
    assert_eq!(day_dom_event(&mut dom, 99, 1, zero(), zero(), zero(), zero()), vec![]);
    assert_eq!(day_dom_event(&mut dom, 7, 1234, zero(), zero(), zero(), zero()), vec![]);
    assert_eq!(
        day_dom_event_text(&dom, 7, 2, &vec![b'h', 0xff]),
        vec![Act::Emit { to: Target::Node(70), event: Event::TextChanged(s("h\u{fffd}")) }]
    );
    assert_eq!(
        day_dom_event_text(&dom, 7, 16, &b"https://x".to_vec()),
        vec![Act::Emit { to: Target::Node(70), event: Event::LinkActivated(s("https://x")) }]
    );
    assert_eq!(
        day_dom_piece_event(&dom, 7, n(2.0), &b"m".to_vec()),
        vec![Act::Emit { to: Target::Node(70), event: Event::Custom { num: n(2.0), text: s("m") } }]
    );
}

#[test]
fn typed_text_is_not_written_back_to_a_field() {
    let mut dom = Dom::new();
    let field = TextFieldProps { text: s("a"), placeholder: s("p"), enabled: true };
    dom.realize(7, 0, &Piece::TextField(field), 70, &Vec::new());
    let own = Patch::TextField(TextFieldPatch::Text { text: s("b"), from_native: true });
    assert_eq!(dom.update(7, &own, &None, &Vec::new()), vec![]);
    let app = Patch::TextField(TextFieldPatch::Text { text: s("b"), from_native: false });
    assert_ne!(dom.update(7, &app, &None, &Vec::new()), vec![]);
}

#[test]
fn a_released_element_is_forgotten() {
    let mut dom = Dom::new();
    dom.realize(7, 0, &Piece::Toggle(ToggleProps { on: true, enabled: true }), 70, &Vec::new());
    let out = dom.release(7);
    assert!(out.contains(&Act::Release(7)));
    assert_eq!(dom.node_of(7), None);
    assert_eq!(day_dom_event(&mut dom, 7, 1, zero(), zero(), zero(), zero()), vec![]);
}

#[test]
fn a_toggle_is_switched() {
    let mut dom = Dom::new();
    assert_eq!(
        dom.update(7, &Patch::Toggle(TogglePatch::On(false)), &None, &Vec::new()),
        vec![Act::Checked(7, false)]
    );
}

#[test]
fn a_tint_keeps_the_scale() {
    let mut dom = Dom::new();
    let p = |mode| ImageProps {
        source: s("star"),
        content_mode: mode,
        tint: Some(color(1.0, 0.0, 0.0, 1.0)),
        decorative: false,
    };
    for (mode, word) in [
        (ContentMode::Fit, "contain"),
        (ContentMode::Fill, "cover"),
        (ContentMode::Stretch, "100% 100%"),
    ] {
        let built = dom.realize(7, 0, &Piece::Image(p(mode)), 70, &Vec::new());
        let size = Act::Style(El::Own(7), s("mask-size"), s(word));
        assert!(built.contains(&size));
        let blue = Patch::Tint(Some(color(0.0, 0.0, 1.0, 1.0)));
        let out = dom.update(7, &blue, &None, &Vec::new());
        assert!(out.contains(&size));
        assert!(out.contains(&Act::Style(El::Own(7), s("background-color"), s("#0000ff"))));
    }
}

#[test]
fn a_kept_option_stays_among_the_options() {
    let mut dom = Dom::new();
    let p = PickerProps {
        options: vec![s("a"), s("b"), s("c")],
        selected: 2,
        style: PickerStyle::Menu,
        intrinsic: Size { width: n(10.0), height: n(10.0) },
    };
    dom.realize(7, 0, &Piece::Picker(p), 70, &Vec::new());
    let out = dom.update(
        7,
        &Patch::Picker(PickerPatch::Options(vec![s("x"), s("y")])),
        &None,
        &Vec::new(),
    );
    assert!(out
        .contains(&Act::Options { el: 7, json: s("{\"options\":[\"x\",\"y\"],\"selected\":1}") }));
}

#[test]
fn a_list_builds_what_shows_and_a_little_more() {
    let mut dom = Dom::new();
    dom.realize(7, 8, &Piece::List(list_props(true)), 70, &Vec::new());
    dom.attach_list(7);
    let w = Window { first: 10, end: 12 };
    let missing = dom.list_missing(7, 100, w);
    assert_eq!(missing, (2..20).collect::<Vec<usize>>());
    let cells: Vec<u32> = (1000..1018).collect();
    let out = dom.list_fill(7, 100, w, n(300.0), &cells);
    let bound: Vec<usize> = out
        .iter()
        .filter_map(|a| match a {
            Act::BindRow { row, .. } => Some(*row),
            _ => None,
        })
        .collect();
    assert_eq!(bound, missing);
    assert!(out.contains(&Act::Extent { content: 8, rows: 100, pitch: n(20.0) }));
    assert_eq!(dom.list_missing(7, 100, w), Vec::<usize>::new());
    let again = dom.list_fill(7, 100, w, n(300.0), &Vec::new());
    assert!(!again.iter().any(|a| matches!(a, Act::BindRow { .. })));
}

#[test]
fn shifted_arrows_grow_and_shrink_a_range() {
    let mut dom = Dom::new();
    dom.realize(7, 8, &Piece::List(list_props(true)), 70, &Vec::new());
    dom.attach_list(7);
    let down = day_dom_list_key(&mut dom, 7, 1, 0, 5);
    assert_eq!(
        emitted(&down),
        vec![&Act::Emit { to: Target::Node(70), event: Event::SelectionSet(vec![0]) }]
    );
    day_dom_list_key(&mut dom, 7, 1, 1, 5);
    let grown = day_dom_list_key(&mut dom, 7, 1, 1, 5);
    assert_eq!(
        emitted(&grown),
        vec![&Act::Emit { to: Target::Node(70), event: Event::SelectionSet(vec![0, 1, 2]) }]
    );
    dom.update(7, &Patch::List(ListPatch::Selected(vec![0, 1, 2])), &None, &Vec::new());
    let shrunk = day_dom_list_key(&mut dom, 7, 0, 1, 5);
    assert_eq!(
        emitted(&shrunk),
        vec![&Act::Emit { to: Target::Node(70), event: Event::SelectionSet(vec![0, 1]) }]
    );
    let last = day_dom_list_key(&mut dom, 7, 3, 0, 5);
    assert_eq!(
        emitted(&last),
        vec![&Act::Emit { to: Target::Node(70), event: Event::SelectionSet(vec![4]) }]
    );
}

#[test]
fn a_single_selection_is_one_row() {
    let mut dom = Dom::new();
    dom.realize(7, 8, &Piece::List(list_props(false)), 70, &Vec::new());
    dom.attach_list(7);
    day_dom_list_key(&mut dom, 7, 1, 0, 3);
    let out = day_dom_list_key(&mut dom, 7, 1, 1, 3);
    assert_eq!(
        emitted(&out),
        vec![&Act::Emit { to: Target::Node(70), event: Event::SelectionChanged(1) }]
    );
}

#[test]
fn rows_move_inside_their_list() {
    assert!(asks_guard(Some(3), 0, 2));
    assert!(!asks_guard(Some(3), 0, 3));
    assert!(!asks_guard(None, 0, 0));
    assert_eq!(day_dom_list_can_move(Some(3), 0, 1, 9), 2);
    assert_eq!(day_dom_list_can_move(Some(3), 0, 1, -1), -1);
    assert_eq!(day_dom_list_can_move(Some(3), 5, 1, 1), -1);
}

#[test]
fn a_stack_and_back_keeps_the_pages() {
    let mut nav = NavState::new(NavPresentation::Split, "Home");
    nav.add_page(1, 10, true);
    nav.add_page(1, 11, false);
    nav.add_page(1, 12, false);
    nav.patch(1, &NavPatch::Select(1));
    let to_stack = nav.present(1, NavPresentation::Stack);
    assert_eq!(to_stack[0], Act::NavPresent { el: 1, mode: 1 });
    assert_eq!(nav.pages, vec![10, 11, 12]);
    assert_eq!(nav.selected, 2);
    nav.present(1, NavPresentation::Split);
    assert_eq!(nav.pages, vec![11, 12]);
    assert_eq!(nav.selected, 1);
    assert_eq!(nav.present(1, NavPresentation::Split), vec![]);
}

#[test]
fn popping_undoes_the_title() {
    let mut nav = NavState::new(NavPresentation::Stack, "Home");
    nav.add_page(1, 10, false);
    nav.add_page(1, 11, false);
    let pushed = nav.patch(1, &NavPatch::Pushed { title: s("Detail") });
    assert!(pushed.contains(&Act::NavBackBar { nav: 1, visible: true, title: s("Detail") }));
    nav.patch(1, &NavPatch::Popped);
    assert_eq!(nav.titles, vec![s("Home")]);
}

#[test]
fn dialogs_and_their_answers() {
    let spec = PresentSpec::Dialog {
        title: s("T"),
        message: None,
        buttons: vec![PresentButton { label: s("OK"), role: ButtonRole::Default }],
        sheet: false,
    };
    assert_eq!(present(3, &spec).len(), 1);
    let answered = |which: i32, bytes: &[u8]| day_dom_present_result(3, which, &bytes.to_vec());
    assert_eq!(
        answered(-1, b""),
        vec![Act::Emit {
            to: Target::Window,
            event: Event::PresentResult { req: 3, result: PresentResult::Dismissed },
        }]
    );
    assert_eq!(
        answered(1, b""),
        vec![Act::Emit {
            to: Target::Window,
            event: Event::PresentResult { req: 3, result: PresentResult::Button(1) },
        }]
    );
    assert_eq!(
        answered(0, b"hi"),
        vec![Act::Emit {
            to: Target::Window,
            event: Event::PresentResult { req: 3, result: PresentResult::Text(s("hi")) },
        }]
    );
    let (path, out) = day_dom_present_files(3, &b"..\\up/evil.txt".to_vec());
    assert_eq!(path, "/day-web/evil.txt");
    assert_eq!(out.len(), 1);
}

#[test]
fn keys_edits_and_routes() {
    let mut dom = Dom::new();
    dom.realize(7, 0, &Piece::Canvas, 70, &Vec::new());
    let (claimed, out) = day_dom_canvas_key(&dom, 7, 13, 1, true);
    assert_eq!(claimed, 1);
    assert_eq!(
        out,
        vec![Act::Emit { to: Target::Node(70), event: Event::Key { key: s("3"), modifiers: 1 } }]
    );
    assert_eq!(day_dom_canvas_key(&dom, 7, 13, 0, false), (0, vec![]));
    assert_eq!(day_dom_canvas_key(&dom, 7, 7, 0, true), (0, vec![]));
    assert_eq!(
        day_dom_edit(2),
        vec![Act::Emit { to: Target::Window, event: Event::Edit(EditOp::Paste) }]
    );
    assert_eq!(
        day_dom_undo(1),
        vec![Act::Emit { to: Target::Window, event: Event::Undo { redo: true } }]
    );
    assert_eq!(
        day_dom_toolbar_text(n(5.0), &b"q".to_vec()),
        vec![Act::Emit {
            to: Target::Window,
            event: Event::ToolbarChanged { action: 5, value: ToolbarValue::Text(s("q")) },
        }]
    );
    assert_eq!(
        day_dom_hash_changed(&b"/a/b".to_vec()),
        vec![Act::Emit { to: Target::Window, event: Event::RouteRequested(s("/a/b")) }]
    );
    assert_eq!(
        dom.set_route("/first"),
        vec![Act::Hash { route: s("/first"), replace: true }]
    );
    assert_eq!(
        dom.set_route("/second"),
        vec![Act::Hash { route: s("/second"), replace: false }]
    );
}

#[test]
fn the_window_is_told_its_size() {
    let mut dom = Dom::new();
    let out = day_dom_resized(&mut dom, n(800.0), n(600.0));
    let size = Size { width: n(800.0), height: n(600.0) };
    assert_eq!(dom.viewport, size);
    assert_eq!(out, vec![Act::Emit { to: Target::Window, event: Event::WindowResized(size) }]);
}

#[test]
fn frames_gestures_and_opacity() {
    let mut dom = Dom::new();
    let frame = Rect {
        origin: Point { x: n(1.0), y: n(2.0) },
        size: Size { width: n(3.0), height: n(4.0) },
    };
    let out = dom.set_frame(7, frame, false);
    assert!(out.contains(&Act::Frame {
        el: 7,
        x: n(1.0),
        y: n(2.0),
        width: n(3.0),
        height: n(4.0)
    }));
    assert!(dom.enable_gesture(7, 70, GestureKind::Drag).contains(&Act::Listen(7, listen::DRAG)));
    let faded = set_opacity(7, "0.5", &None);
    assert!(faded.contains(&Act::Style(El::Own(7), s("opacity"), s("0.5"))));
}

#[test]
fn renderers_are_registered_once() {
    let mut kinds: Vec<String> = Vec::new();
    assert!(register_renderer(&mut kinds, "map"));
    assert!(!register_renderer(&mut kinds, "map"));
    assert_eq!(kinds, vec![s("map")]);
}

#[test]
fn a_filled_rectangle_is_one_operation() {
    let rect = Rect {
        origin: Point { x: n(1.0), y: n(2.0) },
        size: Size { width: n(3.0), height: n(4.0) },
    };
    let ops = vec![DrawOp::Fill(
        Outline { shape: Shape::Rect(rect), bounds: rect },
        Paint::Solid(Rgba { r: 1, g: 2, b: 3, a: 255 }),
    )];
    let (slots, texts) = encode_ops(&ops);
    assert_eq!(
        slots,
        vec![
            Slot::Int(0),
            Slot::Int(0),
            Slot::Int(0x0102_03ff),
            Slot::Int(0),
            Slot::Num(n(1.0)),
            Slot::Num(n(2.0)),
            Slot::Num(n(3.0)),
            Slot::Num(n(4.0)),
        ]
    );
    assert!(texts.is_empty());
}

#[test]
fn texts_stand_where_their_operations_say() {
    let op = |text: &str, family: &str| DrawOp::Text {
        text: s(text),
        at: Point { x: n(5.0), y: n(6.0) },
        size: n(12.0),
        color: Rgba { r: 0, g: 0, b: 0, a: 255 },
        anchor: n(0.5),
        weight: 700,
        italic: true,
        family: s(family),
    };
    let (slots, texts) = encode_ops(&vec![op("h\u{e9}", "Inter"), DrawOp::Save, op("x", "")]);
    assert_eq!(texts, "h\u{e9}Interx".as_bytes().to_vec());
    let text_op = |at: u64, len: u64, family: u64, family_len: u64| {
        vec![
            Slot::Int(2),
            Slot::Int(255),
            Slot::Num(n(12.0)),
            Slot::Num(n(0.5)),
            Slot::Num(n(5.0)),
            Slot::Num(n(6.0)),
            Slot::Int(at),
            Slot::Int(len),
            Slot::Int(700),
            Slot::Int(1),
            Slot::Int(family),
            Slot::Int(family_len),
        ]
    };
    assert_eq!(slots[0..12].to_vec(), text_op(0, 3, 3, 5));
    assert_eq!(slots[12], Slot::Int(3));
    assert_eq!(slots[13..25].to_vec(), text_op(8, 1, 9, 0));
}

#[test]
fn an_area_stays_in_its_band() {
    let mut dom = Dom::new();
    let area = |text: &str| TextAreaProps {
        text: s(text),
        placeholder: s(""),
        editable: true,
        selectable: true,
        spellcheck: true,
        min_lines: 2,
        max_lines: 4,
    };
    let lines = |dom: &Dom| dom.measure(7, Kind::TextArea, Some(n(90.0)), None);
    let shown = |lines| Measure::Lines { width: Length::Given(n(90.0)), lines };
    dom.realize(7, 0, &Piece::TextArea(area("one")), 70, &Vec::new());
    assert_eq!(lines(&dom), shown(2));
    dom.realize(7, 0, &Piece::TextArea(area("one\ntwo\nthree")), 70, &Vec::new());
    assert_eq!(lines(&dom), shown(3));
    dom.realize(7, 0, &Piece::TextArea(area("1\n2\n3\n4\n5\n6")), 70, &Vec::new());
    assert_eq!(lines(&dom), shown(4));
    assert_eq!(
        dom.measure(7, Kind::TextArea, None, Some(n(50.0))),
        Measure::Size(Length::Whole(240), Length::Given(n(50.0)))
    );
}

#[test]
fn keys_stay_in_the_list() {
    let mut dom = Dom::new();
    dom.realize(7, 8, &Piece::List(list_props(true)), 70, &Vec::new());
    dom.attach_list(7);
    let chosen = |row| Act::Emit { to: Target::Node(70), event: Event::SelectionSet(vec![row]) };
    let end = day_dom_list_key(&mut dom, 7, 3, 0, 5);
    assert_eq!(emitted(&end), vec![&chosen(4)]);
    let below = day_dom_list_key(&mut dom, 7, 1, 0, 5);
    assert_eq!(emitted(&below), vec![&chosen(4)]);
    let home = day_dom_list_key(&mut dom, 7, 2, 0, 5);
    assert_eq!(emitted(&home), vec![&chosen(0)]);
    let above = day_dom_list_key(&mut dom, 7, 0, 0, 5);
    assert_eq!(emitted(&above), vec![&chosen(0)]);
    assert_eq!(day_dom_list_key(&mut dom, 7, 1, 0, 0), vec![]);
}

#[test]
fn a_cell_stays_with_its_row() {
    let mut dom = Dom::new();
    dom.realize(7, 8, &Piece::List(list_props(true)), 70, &Vec::new());
    dom.attach_list(7);
    let first = Window { first: 0, end: 1 };
    let built = dom.list_missing(7, 40, first).len() as u32;
    let cells: Vec<u32> = (1000..1000 + built).collect();
    dom.list_fill(7, 40, first, n(300.0), &cells);
    let later = Window { first: 30, end: 32 };
    let more = dom.list_missing(7, 40, later).len() as u32;
    let others: Vec<u32> = (2000..2000 + more).collect();
    dom.list_fill(7, 40, later, n(300.0), &others);
    let pressed = day_dom_event(&mut dom, 1003, 1, zero(), zero(), zero(), zero());
    assert_eq!(
        emitted(&pressed),
        vec![&Act::Emit { to: Target::Node(70), event: Event::SelectionSet(vec![3]) }]
    );
    let with_ctrl = day_dom_event(&mut dom, 2000, 1, n(1.0), zero(), zero(), zero());
    assert_eq!(
        emitted(&with_ctrl),
        vec![&Act::Emit { to: Target::Node(70), event: Event::SelectionSet(vec![3, 22]) }]
    );
}

#[test]
fn removing_leaves_a_shown_page() {
    let mut nav = NavState::new(NavPresentation::Tabs, "Home");
    nav.add_page(1, 10, false);
    nav.add_page(1, 11, false);
    nav.add_page(1, 12, false);
    nav.patch(1, &NavPatch::Select(2));
    nav.remove_page(12);
    assert_eq!(nav.pages, vec![10, 11]);
    assert_eq!(nav.selected, 1);
    nav.remove_page(99);
    assert_eq!(nav.pages, vec![10, 11]);
    let shown = nav.present(1, NavPresentation::Rail);
    let hidden = |page, word: &str| Act::Style(El::Own(page), s("display"), s(word));
    assert!(shown.contains(&hidden(10, "none")));
    assert!(!shown.contains(&hidden(11, "none")));
}

#[test]
fn releasing_touches_one_element() {
    let mut dom = Dom::new();
    dom.realize(7, 0, &Piece::Toggle(ToggleProps { on: true, enabled: true }), 70, &Vec::new());
    dom.realize(9, 0, &Piece::Toggle(ToggleProps { on: true, enabled: true }), 90, &Vec::new());
    dom.release(7);
    assert_eq!(dom.node_of(7), None);
    assert_eq!(dom.node_of(9), Some(90));
    assert_eq!(
        day_dom_event(&mut dom, 9, 1, zero(), zero(), zero(), zero()),
        vec![Act::Emit { to: Target::Node(90), event: Event::Pressed }]
    );
}

#[test]
fn a_kind_without_a_baseline_has_none() {
    assert_eq!(first_baseline(true, n(12.5)), Some(n(12.5)));
    assert_eq!(first_baseline(true, n(0.0)), Some(n(0.0)));
    assert_eq!(first_baseline(true, n(-0.0)), Some(n(-0.0)));
    assert_eq!(first_baseline(true, n(-1.0)), None);
    assert_eq!(first_baseline(true, n(f64::NAN)), None);
    assert_eq!(first_baseline(false, n(12.5)), None);
}
