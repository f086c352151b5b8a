//! The GTK backend.
use day_toolkits::dom::canvas::{LineCap, LineJoin};
use day_toolkits::gtk::act::{Act, Extent, Justification, Later, Signal, Slack, Transform};
use day_toolkits::gtk::canvas::{cairo_draw, Bounds, DrawAct, Face, Gradient, Style};
use day_toolkits::gtk::dialogs::{dialog_result, filter_patterns, prompt_result, Dialogs};
use day_toolkits::gtk::gestures::{
    drag_began, dragged, gtk_animation, hovered, pan_step, panned, pinched, tapped, Easing,
};
use day_toolkits::gtk::input::{key_modifiers, key_name, key_pressed, Held, Key};
use day_toolkits::gtk::menu::{
    accel_string, build_gio_menu, find_prefs_id, gtk_role_action, gtk_role_label, set_menu_accels,
    MenuStep,
};
use day_toolkits::gtk::nav::{inspector_shown, nav_popped};
use day_toolkits::gtk::numbers::{dashes, pairs, parse_hex, stops};
use day_toolkits::gtk::path::{cairo_trace_path, split_words, Step, Word};
use day_toolkits::gtk::pixels::{glyph_color, recolor_pixbuf};
use day_toolkits::gtk::realize::{wanted, Widget};
use day_toolkits::gtk::rows::{menu_row_selected, name_of_page, toggle_switched};
use day_toolkits::gtk::state::Gtk;
use day_toolkits::gtk::text::{gtk_style, pango_weight};
use day_toolkits::gtk::tree::{
    find_row, token_text, tree_row_token, tree_selected_tokens, tree_selection_changed, Row,
    TreeEntry,
};
use day_toolkits::gtk::update::Around;
use day_toolkits::gtk::widgets::{
    capability, drop_answer, first_baseline, focus, row_dropped, set_a11y, set_opacity, A11y, Home,
    Measured, Span,
};
use day_toolkits::gtk::windows::{
    app_id, forced_dark, height_left, lifecycle_supported, window_active,
};
use day_toolkits::model::{
    ButtonRole, ButtonStyle, Cap, Channel, Color, ContentMode, Curve, DragPhase, Event, FileFilter,
    Font, FontSpec, FontWeight, GestureKind, Length, Lifecycle, MenuItem, MenuRole, NavPatch,
    NavPresentation, Point, PresentButton, PresentResult, PresentSpec, Real, Rect, Shortcut, Size,
    Support, Target, TextAlign, TextRole, TextRun, Underline,
};
use day_toolkits::num::Num;
use day_toolkits::pieces::{
    ButtonPatch, ButtonProps, ContainerProps, CoverPatch, ImageProps, LabelPatch, LabelProps,
    ListPatch, ListProps, MenuRows, NavMenuPatch, Patch, Piece, TextFieldPatch, TreePatch,
};

fn n(x: f64) -> Num {
    Num { bits: x.to_bits() }
}

fn s(t: &str) -> String {
    String::from(t)
}

fn pt(x: f64, y: f64) -> Point {
    Point { x: n(x), y: n(y) }
}

fn channel(x: f64) -> Channel {
    Channel {
        num: n(x),
        cut: (x * 255.0) as u8,
        near: (x * 255.0).round() as u8,
        fine_cut: (x * 65535.0) as u16,
        fine: (x * 65535.0).round() as u16,
    }
}

fn color(r: f64, g: f64, b: f64, a: f64) -> Color {
    Color { r: channel(r), g: channel(g), b: channel(b), a: channel(a), alpha: format!("{}", a) }
}

fn font(style: Font) -> FontSpec {
    FontSpec {
        style,
        weight: None,
        italic: false,
        monospace: false,
        tabular: false,
        scale: n(1.0),
        size: s("1"),
        units: 0,
    }
}

fn run(start: usize, end: usize) -> TextRun {
    TextRun {
        start,
        end,
        font: font(Font::Body),
        color: None,
        background: None,
        underline: Underline::Off,
        strikethrough: false,
        link: None,
    }
}

fn rows(items: &[&str]) -> MenuRows {
    MenuRows {
        items: items.iter().map(|t| s(t)).collect(),
        icons: Vec::new(),
        tints: Vec::new(),
        badges: Vec::new(),
        badge_icons: Vec::new(),
        badge_tints: Vec::new(),
        sections: Vec::new(),
        menus: Vec::new(),
    }
}

fn around() -> Around {
    Around {
        holder: None,
        wrapper: None,
        content: (0, 0),
        classes: Vec::new(),
        display: true,
        glyphs: Vec::new(),
    }
}

fn build(gtk: &mut Gtk, piece: Piece, id: u64, nodes: Vec<u64>) -> Vec<day_toolkits::gtk::act::GtkAct> {
    gtk.realize(piece, id, &nodes, false, n(240.0), true, &Vec::new())
}

fn shortcut(key: &str) -> Shortcut {
    Shortcut { primary: true, shift: false, alt: false, control: false, key: s(key) }
}

fn shifted(key: &str) -> Shortcut {
    Shortcut { primary: true, shift: true, alt: false, control: false, key: s(key) }
}

fn action(action: u64, label: &str, role: Option<MenuRole>, keys: Option<Shortcut>) -> MenuItem {
    MenuItem::Action {
        action,
        label: s(label),
        enabled: true,
        checked: None,
        role,
        shortcut: keys,
        icon: None,
    }
}

/// The command modifier of a Mac is its command key; everywhere else it is the primary one.
#[test]
fn primary_accelerator_is_command_on_macos() {
    let names = Vec::new();
    for mac in [true, false] {
        let z = accel_string(&shortcut("z"), mac, &names);
        let sz = accel_string(&shifted("z"), mac, &names);
        if mac {
            assert_eq!(z, "<Meta>z");
            assert_eq!(sz, "<Meta><Shift>z");
        } else {
            assert_eq!(z, "<Primary>z");
            assert_eq!(sz, "<Primary><Shift>z");
        }
    }
}

/// A request that is answered before its picker opens: nothing is waiting for the picker, so it
/// stays closed.
#[test]
fn a_picker_answered_before_it_opens_never_opens() {
    let mut dialogs = Dialogs::new();
    dialogs.files.put(1);

    dialogs.end_file_dialog(1);

    assert!(!dialogs.claim_file_dialog(1), "an answered request is skipped");
}

/// A picker that is up already: its request is dropped, which is what makes its late answer inert.
#[test]
fn a_picker_already_showing_is_dropped_so_its_late_answer_is_inert() {
    let mut dialogs = Dialogs::new();
    dialogs.files.put(2);
    assert!(dialogs.claim_file_dialog(2), "a live request opens its picker");

    dialogs.end_file_dialog(2);

    assert!(dialogs.files.is_empty());
    assert!(
        !dialogs.claim_file_dialog(2),
        "a result arriving after the dismissal belongs to nothing"
    );
    assert_eq!(dialogs.emit_file_result(2, Some(s("/x"))), vec![]);
}

#[test]
fn accelerators_name_their_keys() {
    let keys = |key: &str| Shortcut {
        primary: false,
        shift: false,
        alt: true,
        control: true,
        key: s(key),
    };
    let names = vec![('/', s("slash"))];
    assert_eq!(accel_string(&keys("/"), false, &names), "<Alt><Control>slash");
    assert_eq!(accel_string(&keys("Ä"), false, &names), "<Alt><Control>ä");
    assert_eq!(accel_string(&keys("Enter"), false, &names), "<Alt><Control>Return");
    assert_eq!(accel_string(&keys("F5"), false, &names), "<Alt><Control>F5");
    assert!(accel_string(&shortcut("Q"), false, &Vec::new()).ends_with("q"));
}

#[test]
fn menus_as_models() {
    let items = vec![
        action(3, "Open", None, Some(shortcut("o"))),
        MenuItem::Separator,
        MenuItem::Submenu {
            label: s("More"),
            items: vec![action(4, "Prefs", Some(MenuRole::Preferences), None)],
        },
    ];
    assert_eq!(find_prefs_id(&items), Some(4));
    assert_eq!(find_prefs_id(&Vec::new()), None);
    let steps = build_gio_menu(&items, false, &Vec::new());
    assert!(steps.iter().any(|st| matches!(st, MenuStep::Item { label, .. } if label == "Open")));
    let accels = set_menu_accels(&items, false, &Vec::new());
    assert_eq!(accels.len(), 1);
    assert_eq!(accels[0].1, "<Primary>o");
    assert_eq!(gtk_role_action(MenuRole::Copy), Some("clipboard.copy"));
    assert_eq!(gtk_role_action(MenuRole::About), None);
    assert!(!gtk_role_label(MenuRole::Quit).is_empty());
}

#[test]
fn no_section_is_empty() {
    let items = vec![
        MenuItem::Separator,
        action(3, "Open", None, None),
        MenuItem::Separator,
        MenuItem::Separator,
        action(4, "Close", None, None),
        MenuItem::Separator,
    ];
    let steps = build_gio_menu(&items, false, &Vec::new());
    let kinds: Vec<u8> = steps
        .iter()
        .filter_map(|st| match st {
            MenuStep::Item { .. } => Some(1),
            MenuStep::EndSection => Some(2),
            _ => None,
        })
        .collect();
    assert_eq!(kinds, vec![1, 2, 1, 2]);
}

#[test]
fn dialogs_are_answered_once() {
    let mut d = Dialogs::new();
    let spec = PresentSpec::Dialog {
        title: s("T"),
        message: Some(s("M")),
        buttons: vec![
            PresentButton { label: s("Yes"), role: ButtonRole::Default },
            PresentButton { label: s("No"), role: ButtonRole::Cancel },
        ],
        sheet: false,
    };
    let shown = d.present(9, &spec, Some(1));
    assert!(shown.contains(&Act::Response { dialog: 0, id: s("1"), label: s("No") }));
    assert!(shown.contains(&Act::CloseResponse { dialog: 0, id: s("1") }));
    assert_eq!(shown.last(), Some(&Act::ShowDialog { dialog: 0, parent: Some(1) }));
    let first = d.finish(0, dialog_result("1"));
    assert_eq!(
        first[0],
        Act::Emit {
            to: Target::Window,
            event: Event::PresentResult { req: 9, result: PresentResult::Button(1) },
        }
    );
    assert_eq!(first[1], Act::CloseDialog { dialog: 0 });
    assert_eq!(d.finish(0, dialog_result("0")), vec![]);
    assert_eq!(dialog_result("close"), PresentResult::Dismissed);
    assert_eq!(prompt_result("ok", "typed"), PresentResult::Text(s("typed")));
    assert_eq!(prompt_result("cancel", "typed"), PresentResult::Dismissed);
    let f = FileFilter { name: s("Text"), extensions: vec![s("txt"), s("md")] };
    assert_eq!(filter_patterns(&f), vec!["*.txt", "*.md"]);
}

#[test]
fn a_dismissed_dialog_answers_so_and_no_more() {
    let mut d = Dialogs::new();
    let spec = PresentSpec::Dialog { title: s("T"), message: None, buttons: vec![], sheet: false };
    d.present(9, &spec, None);
    let out = d.dismiss(9);
    assert_eq!(
        out[0],
        Act::Emit {
            to: Target::Window,
            event: Event::PresentResult { req: 9, result: PresentResult::Dismissed },
        }
    );
    assert_eq!(d.dismiss(9), vec![]);
}

#[test]
fn others_keep_waiting() {
    let mut d = Dialogs::new();
    let spec = PresentSpec::Dialog { title: s("T"), message: None, buttons: vec![], sheet: false };
    d.present(9, &spec, None);
    d.present(10, &spec, None);
    d.dismiss(9);
    assert_eq!(
        d.finish(1, dialog_result("2"))[0],
        Act::Emit {
            to: Target::Window,
            event: Event::PresentResult { req: 10, result: PresentResult::Button(2) },
        }
    );
}

#[test]
fn dialogs_of_one_request_are_answered_apart() {
    let mut d = Dialogs::new();
    let spec = PresentSpec::Dialog { title: s("T"), message: None, buttons: vec![], sheet: false };
    d.present(9, &spec, None);
    d.present(9, &spec, None);
    let told = |i| Act::Emit {
        to: Target::Window,
        event: Event::PresentResult { req: 9, result: PresentResult::Button(i) },
    };
    assert_eq!(d.finish(0, dialog_result("1"))[0], told(1));
    assert_eq!(d.dismiss(9), vec![]);
    assert_eq!(d.finish(1, dialog_result("2"))[0], told(2));
    assert_eq!(d.finish(1, dialog_result("2")), vec![]);
}

#[test]
fn keys_of_a_drawing() {
    let none = Held { shift: false, control: false, alt: false, meta: false, super_key: false };
    let ctrl = Held { control: true, ..none };
    assert_eq!(key_name(Key::Left, ctrl), Some(s("ArrowLeft")));
    assert_eq!(key_name(Key::Other(Some('7')), none), Some(s("7")));
    assert_eq!(key_name(Key::Other(Some('7')), ctrl), None);
    assert_eq!(key_name(Key::Other(Some('x')), none), None);
    assert_eq!(key_modifiers(Held { shift: true, control: true, alt: true, ..none }), 7);
    let (stop, out) = key_pressed(5, Key::Up, none, true);
    assert!(stop);
    assert_eq!(
        out,
        vec![Act::Emit {
            to: Target::Node(5),
            event: Event::Key { key: s("ArrowUp"), modifiers: 0 },
        }]
    );
    assert_eq!(key_pressed(5, Key::Up, none, false), (false, vec![]));
}

#[test]
fn fonts_of_labels() {
    assert_eq!(gtk_style(&Font::Body), (Length::Whole(13), FontWeight::Regular));
    assert_eq!(pango_weight(FontWeight::Bold), 700);
    assert_eq!(pango_weight(FontWeight::UltraLight), 200);
}

#[test]
fn a_label_has_attributes_or_runs() {
    let mut gtk = Gtk::new();
    let p = LabelProps {
        text: s("hello"),
        runs: Vec::new(),
        font: font(Font::Body),
        color: Some(color(1.0, 0.0, 0.0, 0.5)),
        role: TextRole::Secondary,
        wraps: true,
        align: TextAlign::Center,
    };
    let out = build(&mut gtk, Piece::Label(p), 7, vec![70]);
    assert_eq!(
        out[..5],
        [
            Act::Text { w: 70, text: s("hello") },
            Act::AlignAcross { w: 70, at: n(0.5) },
            Act::Justify { w: 70, lines: Justification::Center },
            Act::AlignDown { w: 70, at: n(0.0) },
            Act::Wrap { w: 70, on: true },
        ]
    );
    assert!(out.contains(&Act::AddClass { w: 70, class: s("dim-label") }));
    assert!(out.contains(&Act::Wire { w: 70, signal: Signal::Link, id: 7 }));
    assert!(out.iter().any(|a| matches!(
        a,
        Act::Attrs { w: 70, color: Some((65535, 0, 0)), alpha: Some(32768), .. }
    )));
    let runs = Patch::Label(LabelPatch::Runs(s("hello"), vec![run(0, 2)]));
    let rich = gtk.update(70, runs, &around());
    assert_eq!(rich[0], Act::NoAttrs { w: 70 });
    assert!(matches!(&rich[1], Act::Rich { w: 70, open } if open.contains("foreground")));
    let recolored = gtk.update(70, Patch::Label(LabelPatch::Color(None)), &around());
    assert!(recolored.iter().all(|a| !matches!(a, Act::Attrs { .. })));
    let plain = gtk.update(70, Patch::Label(LabelPatch::Runs(s("x"), Vec::new())), &around());
    assert_eq!(plain[0], Act::Text { w: 70, text: s("x") });
    assert!(matches!(plain[1], Act::Attrs { color: None, .. }));
}

#[test]
fn a_change_keeps_the_other_parts() {
    let mut gtk = Gtk::new();
    let p = LabelProps {
        text: s("hello"),
        runs: Vec::new(),
        font: font(Font::Body),
        color: Some(color(1.0, 0.0, 0.0, 1.0)),
        role: TextRole::Primary,
        wraps: false,
        align: TextAlign::Leading,
    };
    build(&mut gtk, Piece::Label(p), 7, vec![70]);
    let mut bold = font(Font::Body);
    bold.weight = Some(FontWeight::Bold);
    let out = gtk.update(70, Patch::Label(LabelPatch::Font(bold)), &around());
    assert!(out.iter().any(|a| matches!(
        a,
        Act::Attrs { w: 70, weight: 700, color: Some((65535, 0, 0)), alpha: None, .. }
    )));
    let plain = gtk.update(70, Patch::Label(LabelPatch::Color(None)), &around());
    assert!(plain.iter().any(|a| matches!(a, Act::Attrs { w: 70, weight: 700, color: None, .. })));
}

#[test]
fn a_tint_is_installed_once() {
    let mut gtk = Gtk::new();
    let tint = || ButtonStyle::Tinted(color(1.0, 0.0, 0.0, 1.0), color(1.0, 1.0, 1.0, 1.0));
    let first = ButtonProps { title: s("A"), style: tint(), enabled: true };
    let out = build(&mut gtk, Piece::Button(first), 7, vec![70]);
    assert!(out.contains(&Act::Css {
        css: s("button.day-tint-ff0000 { background-image: image(#ff0000); color: #ffffff; }"),
    }));
    assert!(out.contains(&Act::AddClass { w: 70, class: s("day-tint-ff0000") }));
    let second = ButtonProps { title: s("B"), style: tint(), enabled: true };
    let again = build(&mut gtk, Piece::Button(second), 8, vec![80]);
    assert!(!again.iter().any(|a| matches!(a, Act::Css { .. })));
    let mut a = around();
    a.classes = vec![s("text-button"), s("day-tint-ff0000")];
    let plain = gtk.update(70, Patch::Button(ButtonPatch::Style(ButtonStyle::Prominent)), &a);
    assert_eq!(
        plain,
        vec![
            Act::RemoveClass { w: 70, class: s("suggested-action") },
            Act::RemoveClass { w: 70, class: s("day-tint-ff0000") },
            Act::AddClass { w: 70, class: s("suggested-action") },
        ]
    );
}

#[test]
fn a_surface_is_painted_in_place() {
    let mut gtk = Gtk::new();
    let p = ContainerProps {
        background: Some(color(0.0, 0.5, 1.0, 0.5)),
        corner_radius: Real { num: n(8.0), text: s("8") },
        clips: false,
        card: false,
    };
    let out = build(&mut gtk, Piece::Container(p), 7, vec![70]);
    assert_eq!(
        out,
        vec![
            Act::NewSurface { w: 70 },
            Act::AddClass { w: 70, class: s("day-surface-70") },
            Act::SurfaceCss {
                w: 70,
                css: s(".day-surface-70 { background-color: rgba(0,128,255,0.5);border-radius: 8px; }"),
            },
            Act::Clip { w: 70 },
        ]
    );
    let again = gtk.update(70, Patch::Background(None), &around());
    assert_eq!(again, vec![Act::SurfaceCss { w: 70, css: s(".day-surface-70 {  }") }]);
    let gone = gtk.release(70, Home::Fixed(1));
    assert_eq!(
        gone,
        vec![Act::Sweep { w: 70 }, Act::DropSurface { w: 70 }, Act::Take { w: 1, child: 70 }]
    );
}

#[test]
fn widgets_for_pieces() {
    let nav = |p| Piece::Nav { presentation: p, title: s("") };
    assert_eq!(
        wanted(&nav(NavPresentation::Tabs), false),
        vec![Widget::Column, Widget::Stack, Widget::Switcher]
    );
    assert_eq!(wanted(&nav(NavPresentation::Split), false), vec![Widget::Split]);
    assert_eq!(wanted(&nav(NavPresentation::Split), true), vec![Widget::Paned]);
    assert_eq!(wanted(&nav(NavPresentation::Stack), true), vec![Widget::Pages]);
    assert_eq!(wanted(&Piece::Progress(None), false), vec![Widget::Spinner]);
}

#[test]
fn a_split_shares_its_width() {
    let mut gtk = Gtk::new();
    let nav = Piece::Nav { presentation: NavPresentation::Split, title: s("") };
    build(&mut gtk, nav, 1, vec![10]);
    build(&mut gtk, Piece::NavPage { sidebar: true, title: s("") }, 2, vec![20]);
    build(&mut gtk, Piece::NavPage { sidebar: false, title: s("Detail") }, 3, vec![30]);
    assert!(gtk.page_wanted(10));
    let none = Vec::new();
    let side = gtk.insert(10, 20, 0, &vec![10], 21, &none, None, &Vec::new());
    assert_eq!(
        side,
        vec![
            Act::NewPage { page: 21, child: 20, title: s("Day"), loose: false },
            Act::Sidebar { w: 10, page: Some(21) },
            Act::Later { work: Later::NavReport(10) },
        ]
    );
    let detail = gtk.insert(10, 30, 1, &vec![10], 31, &none, None, &Vec::new());
    assert_eq!(
        detail,
        vec![
            Act::NewPage { page: 31, child: 30, title: s("Detail"), loose: true },
            Act::Content { w: 10, page: Some(31) },
            Act::Later { work: Later::NavReport(10) },
        ]
    );
    let room = |id, width| Act::Framed { to: Target::Node(id), width, height: 600 };
    assert_eq!(
        gtk.nav_report(10, 1000, 600, true, 0, n(240.0)),
        vec![room(2, Extent::Given(n(240.0))), room(3, Extent::Rest(1000, n(240.0)))]
    );
    assert_eq!(
        gtk.nav_report(10, 1000, 600, false, 0, n(240.0)),
        vec![room(2, Extent::Px(0)), room(3, Extent::Px(1000))]
    );
    assert_eq!(gtk.nav_report(10, 0, 600, true, 0, n(240.0)), vec![]);
    assert_eq!(gtk.toggle_sidebar(10, false), (true, vec![Act::FlipSidebar { w: 10 }]));
    assert_eq!(gtk.toggle_sidebar(11, true), (false, vec![]));
    let guard = gtk.update(10, Patch::Nav(NavPatch::GuardTop(true)), &around());
    assert_eq!(guard, vec![Act::CanPop { page: 31, on: false }]);
    assert_eq!(gtk.remove(10, 30, None), vec![Act::Content { w: 10, page: None }]);
    assert_eq!(gtk.nav_report(10, 1000, 600, false, 0, n(240.0)).len(), 1);
}

#[test]
fn a_stack_pushes_and_pops_quietly() {
    let mut gtk = Gtk::new();
    let nav = Piece::Nav { presentation: NavPresentation::Stack, title: s("") };
    build(&mut gtk, nav, 1, vec![10]);
    build(&mut gtk, Piece::NavPage { sidebar: false, title: s("P") }, 2, vec![20]);
    let out = gtk.insert(10, 20, 0, &vec![10], 21, &Vec::new(), None, &Vec::new());
    assert_eq!(out[1], Act::NavPush { w: 10, page: 21 });
    let popped = gtk.update(10, Patch::Nav(NavPatch::Popped), &around());
    assert_eq!(popped, vec![Act::NavPop { w: 10 }]);
    assert_eq!(nav_popped(1, true), vec![]);
    assert_eq!(nav_popped(1, false).len(), 1);
    assert_eq!(gtk.remove(10, 20, None), vec![]);
}

#[test]
fn rows_become_the_toggles_of_a_suite() {
    let mut gtk = Gtk::new();
    let nav = Piece::Nav { presentation: NavPresentation::Tabs, title: s("") };
    build(&mut gtk, nav, 1, vec![10, 11, 12]);
    let mut r = rows(&["Home", "Mail"]);
    r.icons = vec![Some(s("home")), Some(s("nowhere"))];
    build(&mut gtk, Piece::NavMenu { rows: r, selected: None }, 5, vec![50, 51]);
    let above = vec![30, 20, 10];
    assert_eq!(gtk.toggles_wanted(50, &above), 2);
    assert_eq!(gtk.toggles_wanted(50, &vec![30, 20]), 0);
    let glyphs = vec![s("home")];
    let out = gtk.insert(30, 50, 0, &above, 0, &vec![61, 62], Some(30), &glyphs);
    assert_eq!(
        out,
        vec![
            Act::ClearBar { w: 12 },
            Act::ToggleGlyph { w: 61, name: s("home"), text: s("Home") },
            Act::Toggle { w: 61, index: 0, stack: 11, id: 5 },
            Act::Append { w: 12, child: 61 },
            Act::ToggleLabel { w: 62, text: s("Mail") },
            Act::Group { w: 62, leader: 61 },
            Act::Toggle { w: 62, index: 1, stack: 11, id: 5 },
            Act::Append { w: 12, child: 62 },
            Act::QuietActive { w: 61 },
            Act::Put { w: 30, child: 50 },
        ]
    );
    let picked = gtk.update(10, Patch::Nav(NavPatch::Select(1)), &around());
    assert_eq!(picked, vec![Act::QuietActive { w: 62 }]);
    assert_eq!(gtk.update(10, Patch::Nav(NavPatch::Select(2)), &around()), vec![]);
    assert_eq!(name_of_page(3), "p3");
    assert_eq!(
        toggle_switched(11, 1, 5, true, false),
        vec![
            Act::ShowNamed { w: 11, name: s("p2") },
            Act::Emit { to: Target::Node(5), event: Event::SelectionChanged(1) },
        ]
    );
    assert_eq!(toggle_switched(11, 1, 5, true, true).len(), 1);
    assert_eq!(toggle_switched(11, 1, 5, false, false), vec![]);
}

#[test]
fn menus_free_what_stands_on_their_rows() {
    let mut gtk = Gtk::new();
    let mut r = rows(&["A", "B"]);
    r.badges = vec![Some(s("3")), Some(s(""))];
    r.sections = vec![Some(s("First")), Some(s("Second"))];
    r.menus = vec![vec![MenuItem::Separator], Vec::new()];
    let out = build(&mut gtk, Piece::NavMenu { rows: r, selected: Some(1) }, 5, vec![50, 51]);
    assert!(out.contains(&Act::Row {
        w: 51,
        text: s("A"),
        icon: None,
        tint: None,
        badge: Some(s("3")),
        badge_icon: None,
        badge_tint: None,
    }));
    assert!(out.iter().any(|a| matches!(a, Act::Row { text, badge: None, .. } if text == "B")));
    assert!(out.contains(&Act::RowMenu { w: 51, row: 0 }));
    assert!(out.contains(&Act::RowHeader { w: 51, row: 0, title: s("First"), top: 2 }));
    assert!(out.contains(&Act::RowHeader { w: 51, row: 1, title: s("Second"), top: 10 }));
    assert!(out.contains(&Act::SelectRow { w: 51, row: Some(1) }));
    let patch = Patch::NavMenu(NavMenuPatch::Items { rows: rows(&["C"]), selected: None });
    let refilled = gtk.update(50, patch, &around());
    assert_eq!(refilled[0], Act::UnparentRows { w: 51 });
    assert_eq!(refilled[1], Act::ClearRows { w: 51 });
    assert_eq!(
        gtk.measure(50, Measured::NavMenu, None, None, 0),
        (Span::Px(220), Span::Px(44))
    );
    let again = gtk.release(50, Home::Other);
    assert_eq!(again, vec![Act::Sweep { w: 50 }]);
    assert_eq!(menu_row_selected(5, Some(1), true), vec![]);
    assert_eq!(menu_row_selected(5, Some(1), false).len(), 1);
    assert_eq!(menu_row_selected(5, None, false), vec![]);
}

#[test]
fn an_inspector_keeps_its_panels_room() {
    let mut gtk = Gtk::new();
    gtk.realize_inspector(10, 1, true, n(280.0), false);
    gtk.realize_pane(20, 2, false);
    gtk.realize_pane(30, 3, true);
    gtk.insert(10, 20, 0, &vec![10], 21, &Vec::new(), None, &Vec::new());
    let out = gtk.insert(10, 30, 1, &vec![10], 31, &Vec::new(), None, &Vec::new());
    assert_eq!(out[1], Act::Sidebar { w: 10, page: Some(31) });
    let room = |id, width| Act::Framed { to: Target::Node(id), width, height: 600 };
    assert_eq!(
        gtk.inspector_report(10, 900, 600, true),
        vec![room(2, Extent::Rest(900, n(280.0))), room(3, Extent::Given(n(280.0)))]
    );
    assert_eq!(
        gtk.inspector_report(10, 900, 600, false),
        vec![room(2, Extent::Px(900)), room(3, Extent::Given(n(280.0)))]
    );
    assert_eq!(
        gtk.update_inspector(10, false),
        vec![
            Act::StillSidebar { w: 10, on: false },
            Act::Later { work: Later::InspectorReport(10) },
        ]
    );
    assert_eq!(inspector_shown(10, 1, true, true).len(), 1);
    assert_eq!(inspector_shown(10, 1, true, false).len(), 2);
    assert_eq!(gtk.remove(10, 30, None), vec![Act::Sidebar { w: 10, page: None }]);
}

#[test]
fn a_tree_restores_what_was_open() {
    let mut t = TreeEntry::new(5, true);
    let row = |token: u64, expanded: bool, selected: bool| Row {
        text: token_text(token),
        expandable: true,
        expanded,
        selected,
    };
    assert_eq!(
        t.toggled("7", true, false),
        vec![Act::Emit {
            to: Target::Node(5),
            event: Event::TreeExpanded { token: 7, expanded: true },
        }]
    );
    assert_eq!(t.toggled("seven", true, false), vec![]);
    assert_eq!(t.toggled("8", true, true), vec![]);
    assert_eq!(t.disclose(&row(7, false, false)), Some(true));
    assert_eq!(t.disclose(&row(7, true, false)), None);
    assert_eq!(t.disclose(&row(8, true, false)), Some(false));
    t.update(50, TreePatch::Selected(vec![9, 7]));
    let shown = vec![row(7, true, true), row(8, false, true), row(9, false, false)];
    assert_eq!(t.selection(&shown), vec![0, 2]);
    assert_eq!(tree_selected_tokens(&shown), vec![7, 8]);
    assert_eq!(tree_selection_changed(&shown, false), Some(vec![7, 8]));
    assert_eq!(tree_selection_changed(&shown, true), None);
    assert_eq!(find_row(&shown, 9), Some(2));
    assert_eq!(find_row(&shown, 10), None);
    assert_eq!(tree_row_token("18446744073709551615"), Some(u64::MAX));
    let mut gtk = Gtk::new();
    gtk.realize_tree(5, false, &vec![50, 51]);
    assert_eq!(
        gtk.update_tree(50, TreePatch::Reveal(9)),
        vec![Act::Later { work: Later::TreeReveal(50, 9) }]
    );
    assert_eq!(gtk.update_tree(60, TreePatch::Reload), vec![]);
    assert_eq!(gtk.attach_tree(50), vec![Act::Later { work: Later::TreeRebuild(50) }]);
}

#[test]
fn cells_know_their_tokens_and_rows() {
    let mut gtk = Gtk::new();
    gtk.bind_token(4, Some(77));
    assert_eq!(gtk.token_at(&vec![2, 3, 4, 5]), Some(77));
    gtk.bind_token(4, None);
    assert_eq!(gtk.token_at(&vec![2, 3, 4, 5]), None);
    gtk.bind_cell(8, 3);
    assert_eq!(gtk.begin_drag(50, 9), None);
    assert_eq!(gtk.begin_drag(50, 8), Some(3));
    assert_eq!(gtk.drag_over(50, 10, 4), Some((3, 4)));
    assert_eq!(gtk.drag_over(50, 10, 40), Some((3, 9)));
    assert_eq!(gtk.drag_over(50, 0, 0), None);
    assert_eq!(gtk.drag_over(60, 10, 4), None);
    gtk.end_drag();
    assert_eq!(gtk.drag_over(50, 10, 4), None);
    assert_eq!(drop_answer(-1), None);
    assert_eq!(drop_answer(2), Some(2));
    assert_eq!(row_dropped(50, 3, 3), (false, vec![]));
    assert_eq!(
        row_dropped(50, 3, 4),
        (true, vec![Act::Later { work: Later::ListResize(50) }])
    );
}

#[test]
fn lists_are_resized_later() {
    let mut gtk = Gtk::new();
    let p = ListProps {
        pitch: None,
        selectable: true,
        multi_select: false,
        separators: Some(true),
        reorderable: true,
        deletable: false,
        delete_label: s(""),
    };
    let out = build(&mut gtk, Piece::List(p), 5, vec![50, 51]);
    assert!(out.contains(&Act::AddClass { w: 51, class: s("day-separators") }));
    assert!(out.contains(&Act::Wire { w: 51, signal: Signal::Reorder, id: 5 }));
    assert_eq!(
        gtk.update(50, Patch::List(ListPatch::Splice), &around()),
        vec![Act::Later { work: Later::ListResize(50) }]
    );
    assert_eq!(gtk.update(60, Patch::List(ListPatch::Reload), &around()), vec![]);
    assert_eq!(
        gtk.update(50, Patch::List(ListPatch::ScrollToRow(4)), &around()),
        vec![Act::Later { work: Later::ListRow(50, 4) }]
    );
}

#[test]
fn covers_follow_the_window() {
    let mut gtk = Gtk::new();
    gtk.start(1);
    build(&mut gtk, Piece::Cover, 7, vec![70]);
    let mut a = around();
    a.holder = Some(40);
    a.wrapper = Some((800, 500));
    let up = gtk.update(70, Patch::Cover(CoverPatch::Present { background: None }), &a);
    assert_eq!(
        up,
        vec![
            Act::AddClass { w: 70, class: s("background") },
            Act::Take { w: 40, child: 70 },
            Act::Put { w: 1, child: 70 },
            Act::SizeRequest { w: 70, width: 800, height: 500 },
            Act::Visible { w: 70, on: true },
            Act::Framed { to: Target::Node(7), width: Extent::Px(800), height: 500 },
        ]
    );
    let sized = gtk.window_sized(None, 900, 647, 47);
    assert_eq!(
        sized,
        vec![
            Act::Resized { to: Target::Window, width: 900, height: 600 },
            Act::SizeRequest { w: 70, width: 900, height: 600 },
            Act::Framed { to: Target::Node(7), width: Extent::Px(900), height: 600 },
        ]
    );
    let down = gtk.update(70, Patch::Cover(CoverPatch::Dismiss), &a);
    assert_eq!(down.last(), Some(&Act::Emit { to: Target::Node(7), event: Event::CoverHidden }));
    assert_eq!(gtk.window_sized(None, 900, 647, 47).len(), 1);
    assert_eq!(
        gtk.window_sized(Some(3), 900, 20, 0),
        vec![Act::Resized { to: Target::Node(3), width: 900, height: 0 }]
    );
    assert_eq!(height_left(100, 0), 53);
}

#[test]
fn windows_of_the_app() {
    let mut gtk = Gtk::new();
    assert_eq!(gtk.open_window(false, 100, 101, false), (false, vec![]));
    assert_eq!(
        gtk.open_window(true, 100, 101, false),
        (true, vec![Act::PresentWindow { w: 100 }])
    );
    gtk.start(1);
    assert_eq!(gtk.close_window(101), vec![Act::CloseWindow { w: 100 }]);
    assert_eq!(gtk.close_window(1), vec![]);
    assert_eq!(gtk.focus_window(101), vec![Act::PresentWindow { w: 100 }]);
    assert_eq!(
        gtk.set_window_title(1, "T", Some(2)),
        vec![Act::Title { w: 2, title: s("T") }]
    );
    assert_eq!(
        gtk.set_window_title(101, "T", Some(2)),
        vec![Act::Title { w: 100, title: s("T") }]
    );
    assert_eq!(gtk.set_window_title(3, "T", Some(2)), vec![]);
    assert_eq!(
        gtk.set_app_menu(Some(2), false, Some(6), 7),
        vec![
            Act::Actions { w: 2 },
            Act::Actions { w: 100 },
            Act::Accels { w: 2 },
            Act::AddBar { w: 6, bar: 7 },
        ]
    );
    assert!(gtk.set_app_menu(Some(2), false, Some(6), 8).contains(&Act::DropBar { w: 6, bar: 7 }));
    assert_eq!(gtk.set_app_menu(None, false, None, 8), vec![]);
    assert_eq!(
        gtk.open_window(true, 200, 201, true),
        (
            true,
            vec![
                Act::KeepSize { w: 200 },
                Act::Actions { w: 200 },
                Act::PresentWindow { w: 200 },
            ]
        )
    );
    let out = gtk.release(101, Home::Other);
    assert_eq!(
        out,
        vec![Act::Sweep { w: 100 }, Act::DestroyWindow { w: 100 }, Act::Sweep { w: 101 }]
    );
    assert_eq!(gtk.close_window(101), vec![]);
}

#[test]
fn focus_between_windows_is_no_news() {
    let mut gtk = Gtk::new();
    assert_eq!(gtk.activation_settled(false), vec![]);
    assert_eq!(
        gtk.activation_settled(true),
        vec![Act::Emit {
            to: Target::Window,
            event: Event::Lifecycle(Lifecycle::DidBecomeActive),
        }]
    );
    assert_eq!(gtk.activation_settled(true), vec![]);
    assert_eq!(gtk.activation_settled(false).len(), 1);
    assert_eq!(window_active(None, true), vec![Act::Later { work: Later::Activation }]);
    assert_eq!(window_active(Some(3), true).len(), 2);
    assert!(lifecycle_supported(Lifecycle::WillTerminate));
    assert!(!lifecycle_supported(Lifecycle::MemoryWarning));
}

#[test]
fn a_picture_waits_for_a_paint() {
    let mut gtk = Gtk::new();
    assert_eq!(gtk.ui_idle(true), (true, vec![]));
    gtk.start(1);
    assert_eq!(gtk.ui_idle(false), (true, vec![]));
    assert_eq!(gtk.ui_idle(true), (false, vec![Act::RequestPaint { w: 1 }]));
    assert_eq!(gtk.ui_idle(true), (false, vec![]));
    gtk.settle.painted();
    assert_eq!(gtk.ui_idle(true), (true, vec![]));
    assert_eq!(gtk.ui_idle(true), (false, vec![Act::RequestPaint { w: 1 }]));
}

#[test]
fn moving_keeps_the_transform() {
    let mut gtk = Gtk::new();
    let t = Transform {
        tx: n(1.0),
        ty: n(0.0),
        sx: n(2.0),
        sy: n(2.0),
        rotate_deg: n(0.0),
        anchor_x: n(0.5),
        anchor_y: n(0.5),
        identity: false,
    };
    let size = Size { width: n(10.0), height: n(10.0) };
    assert_eq!(gtk.set_transform(7, t, size, None, None), vec![]);
    let set = gtk.set_transform(7, t, size, None, Some(1));
    assert_eq!(
        set[0],
        Act::Shape { w: 1, child: 7, origin: (n(0.0), n(0.0)), transform: t, size }
    );
    let frame = Rect { origin: pt(3.0, 4.0), size };
    let out = gtk.set_frame(7, frame, Some(1));
    assert_eq!(
        out,
        vec![
            Act::MoveTo { w: 1, child: 7, x: n(3.0), y: n(4.0) },
            Act::Shape { w: 1, child: 7, origin: (n(3.0), n(4.0)), transform: t, size },
            Act::SizeTo { w: 7, width: n(10.0), height: n(10.0) },
        ]
    );
    build(&mut gtk, Piece::NavPage { sidebar: false, title: s("") }, 9, vec![90]);
    assert_eq!(gtk.set_frame(90, frame, Some(1)), vec![]);
}

#[test]
fn gestures_are_wired_once() {
    let mut gtk = Gtk::new();
    assert_eq!(
        gtk.enable_gesture(7, 70, GestureKind::Drag),
        vec![Act::Gesture { w: 7, id: 70, kind: GestureKind::Drag }]
    );
    assert_eq!(gtk.enable_gesture(7, 70, GestureKind::Drag), vec![]);
    assert_eq!(gtk.enable_gesture(7, 70, GestureKind::Tap).len(), 1);
    gtk.release(7, Home::Other);
    assert_eq!(gtk.enable_gesture(7, 71, GestureKind::Drag).len(), 1);
}

#[test]
fn gestures_report() {
    let mut start = pt(0.0, 0.0);
    let began = drag_began(&mut start, 7, pt(3.0, 4.0));
    assert_eq!(start, pt(3.0, 4.0));
    assert_eq!(
        began,
        vec![Act::Emit {
            to: Target::Node(7),
            event: Event::Drag {
                phase: DragPhase::Began,
                location: pt(3.0, 4.0),
                translation: pt(0.0, 0.0),
            },
        }]
    );
    assert_eq!(
        dragged(7, true, pt(5.0, 5.0), pt(2.0, 1.0)),
        vec![Act::Emit {
            to: Target::Node(7),
            event: Event::Drag {
                phase: DragPhase::Ended,
                location: pt(5.0, 5.0),
                translation: pt(2.0, 1.0),
            },
        }]
    );
    assert_eq!(
        pinched(7, DragPhase::Began, n(9.0), None),
        vec![Act::Emit {
            to: Target::Node(7),
            event: Event::Pinch {
                phase: DragPhase::Began,
                scale: n(1.0),
                location: pt(0.0, 0.0),
            },
        }]
    );
    assert_eq!(
        panned(7, DragPhase::Changed, pt(1.0, 2.0)),
        vec![Act::Emit {
            to: Target::Node(7),
            event: Event::Pan {
                phase: DragPhase::Changed,
                delta: pt(1.0, 2.0),
                location: pt(0.0, 0.0),
            },
        }]
    );
    assert_eq!((pan_step(true), pan_step(false)), (40, 1));
    let mut last = pt(0.0, 0.0);
    hovered(&mut last, 7, DragPhase::Changed, pt(6.0, 6.0));
    assert_eq!(
        hovered(&mut last, 7, DragPhase::Ended, pt(0.0, 0.0)),
        vec![Act::Emit {
            to: Target::Node(7),
            event: Event::Hover { phase: DragPhase::Ended, location: pt(6.0, 6.0) },
        }]
    );
    assert_eq!(
        tapped(7, pt(1.0, 1.0)),
        vec![Act::Emit { to: Target::Node(7), event: Event::Tap(pt(1.0, 1.0)) }]
    );
    assert_eq!(gtk_animation(Curve::Spring), Easing::OutBack);
}

#[test]
fn context_menus_replace_each_other() {
    let mut gtk = Gtk::new();
    assert_eq!(gtk.set_context_menu(7, false), vec![Act::Menu { w: 7 }]);
    assert_eq!(
        gtk.set_context_menu(7, false),
        vec![Act::Unparent { w: 7 }, Act::Menu { w: 7 }]
    );
    assert_eq!(gtk.set_context_menu(7, true), vec![Act::Unparent { w: 7 }]);
    assert_eq!(gtk.set_context_menu(7, true), vec![]);
    assert_eq!(gtk.set_context_menu_fn(7), vec![Act::Summon { w: 7 }]);
    assert_eq!(gtk.set_context_menu_fn(7), vec![]);
}

#[test]
fn images_and_their_tints() {
    let mut gtk = Gtk::new();
    let p = ImageProps {
        source: s("star"),
        content_mode: ContentMode::Fit,
        tint: Some(color(1.0, 0.0, 0.0, 1.0)),
        decorative: false,
    };
    let out = gtk.realize(Piece::Image(p), 7, &vec![70], false, n(0.0), true, &vec![s("star")]);
    assert_eq!(
        out,
        vec![
            Act::Fit { w: 70, mode: ContentMode::Fit },
            Act::Tinted { w: 70, source: s("star"), tint: (255, 0, 0) },
        ]
    );
    assert_eq!(
        gtk.update(70, Patch::Tint(None), &around()),
        vec![Act::PictureFile { w: 70, source: s("star") }]
    );
    assert_eq!(gtk.update(71, Patch::Tint(None), &around()), vec![]);
}

#[test]
fn recoloring_keeps_the_alpha() {
    let mut pixels: Vec<u8> = vec![1, 2, 3, 10, 4, 5, 6, 20, 9, 9, 7, 8, 9, 30, 1, 1, 1, 40, 9, 9];
    recolor_pixbuf(&mut pixels, 2, 2, 10, 4, 255, 128, 0);
    assert_eq!(
        pixels,
        vec![255, 128, 0, 10, 255, 128, 0, 20, 9, 9, 255, 128, 0, 30, 255, 128, 0, 40, 9, 9]
    );
    let mut opaque: Vec<u8> = vec![1, 2, 3];
    recolor_pixbuf(&mut opaque, 1, 1, 3, 3, 255, 255, 255);
    assert_eq!(opaque, vec![1, 2, 3]);
    assert_eq!(glyph_color(None, true), (255, 255, 255));
    assert_eq!(glyph_color(None, false), (0x1a, 0x1a, 0x1a));
    assert_eq!(glyph_color(Some((1, 2, 3)), true), (1, 2, 3));
}

#[test]
fn a_path_reads_back() {
    let words: Vec<Word> = "M 1 2 L 3 4 stray Q 5 6 7 8 L oops 1 C 1 2 3 4 5 6 Z L 9"
        .split_whitespace()
        .map(|w| Word { text: s(w), num: w.parse::<f64>().ok().map(n) })
        .collect();
    let steps = cairo_trace_path(&words);
    let only: Vec<Step> = steps.iter().map(|d| d.step).collect();
    assert_eq!(
        only,
        vec![
            Step::Move(pt(1.0, 2.0)),
            Step::Line(pt(3.0, 4.0)),
            Step::Quad(pt(5.0, 6.0), pt(7.0, 8.0)),
            Step::Cubic(pt(1.0, 2.0), pt(3.0, 4.0), pt(5.0, 6.0)),
            Step::Close,
        ]
    );
    assert_eq!(steps[2].from, pt(3.0, 4.0));
    assert_eq!(steps[3].from, pt(7.0, 8.0));
}

fn record(kind: f64, values: [f64; 7], color: f64) -> Vec<Num> {
    let mut out = vec![n(kind)];
    out.extend(values.iter().map(|v| n(*v)));
    out.push(n(color));
    out
}

#[test]
fn a_drawing_is_played() {
    let red = 4278190335.0;
    let one = record(0.0, [1.0, 2.0, 3.0, 4.0, 0.0, 0.0, 0.0], red);
    assert_eq!(
        cairo_draw(&one, &Vec::new()),
        vec![
            DrawAct::Color(0xff00_00ff),
            DrawAct::Rect(n(1.0), n(2.0), n(3.0), n(4.0)),
            DrawAct::Fill,
        ]
    );
    assert_eq!(cairo_draw(&one[0..8].to_vec(), &Vec::new()), vec![]);
    assert_eq!(cairo_draw(&Vec::new(), &Vec::new()), vec![]);
}

#[test]
fn a_look_is_for_one_stroke() {
    let mut nums = record(18.0, [1.0, 2.0, 10.0, 0.5, 0.0, 0.0, 0.0], 0.0);
    let line = record(6.0, [0.0, 0.0, 8.0, 0.0, 0.0, 0.0, 2.0], 255.0);
    nums.extend(line.iter());
    nums.extend(line.iter());
    let style = Style {
        cap: LineCap::Round,
        join: LineJoin::Bevel,
        miter: n(10.0),
        phase: n(0.5),
        dashes: 0,
    };
    let drawn = [
        DrawAct::LineWidth(n(2.0)),
        DrawAct::Segment(n(0.0), n(0.0), n(8.0), n(0.0)),
        DrawAct::Stroke,
        DrawAct::Reset,
    ];
    let mut all = vec![DrawAct::Color(0), DrawAct::Color(255), DrawAct::Apply(style)];
    all.extend(drawn);
    all.push(DrawAct::Color(255));
    all.extend(drawn);
    assert_eq!(cairo_draw(&nums, &vec![false]), all);
}

#[test]
fn a_face_is_for_the_next_text() {
    let mut nums = record(19.0, [700.0, 1.0, 0.0, 0.0, 0.0, 0.0, 0.0], 0.0);
    let text = record(7.0, [3.0, 4.0, 0.0, 0.0, 12.0, 0.5, 0.0], 255.0);
    nums.extend(text.iter());
    nums.extend(text.iter());
    let shown = |text: usize, face: Face| DrawAct::Text {
        text,
        face,
        size: n(12.0),
        anchor: n(0.5),
        x: n(3.0),
        y: n(4.0),
    };
    assert_eq!(
        cairo_draw(&nums, &vec![false, false, false]),
        vec![
            DrawAct::Color(0),
            DrawAct::Color(255),
            shown(1, Face { weight: n(700.0), italic: true, family: Some(0) }),
            DrawAct::Color(255),
            shown(2, Face { weight: n(0.0), italic: false, family: None }),
        ]
    );
}

#[test]
fn a_stamp_is_drawn_at_its_places() {
    let mut nums = record(20.0, [3.0, 0.0, 0.0, 0.0, 0.0, 0.0, 0.0], 0.0);
    nums.extend(record(21.0, [1.0, 1.0, 2.0, 2.0, 3.0, 3.0, 4.0], 4.0));
    nums.extend(record(11.0, [0.0; 7], 255.0));
    nums.extend(record(11.0, [0.0; 7], 255.0));
    let out = cairo_draw(&nums, &vec![true, false]);
    let mut all = vec![DrawAct::Color(0), DrawAct::Color(4), DrawAct::Color(255)];
    for place in [1.0, 2.0, 3.0] {
        all.extend([
            DrawAct::Save,
            DrawAct::Translate(n(place), n(place)),
            DrawAct::Polygon(0),
            DrawAct::Fill,
            DrawAct::Restore,
        ]);
    }
    all.push(DrawAct::Color(255));
    assert_eq!(out, all);
}

#[test]
fn a_stamped_gradient_shades_every_copy() {
    let gradient = Gradient { kind: 0, a: n(0.0), b: n(0.0), c: n(1.0), d: n(0.0), stops: 0 };
    let shade = record(14.0, [0.0, 0.0, 1.0, 0.0, 0.0, 0.0, 0.0], 0.0);
    let prefix = [
        record(20.0, [2.0, 0.0, 0.0, 0.0, 0.0, 0.0, 0.0], 0.0),
        record(21.0, [1.0, 1.0, 2.0, 2.0, 0.0, 0.0, 0.0], 0.0),
    ]
    .concat();
    let rect = record(0.0, [5.0, 6.0, 7.0, 8.0, 0.0, 0.0, 0.0], 255.0);
    let mut all = vec![DrawAct::Color(0), DrawAct::Color(0), DrawAct::Color(0), DrawAct::Color(255)];
    for place in [1.0, 2.0] {
        all.extend([
            DrawAct::Save,
            DrawAct::Translate(n(place), n(place)),
            DrawAct::Rect(n(5.0), n(6.0), n(7.0), n(8.0)),
            DrawAct::Source(gradient, Bounds::Box(n(5.0), n(6.0), n(7.0), n(8.0))),
            DrawAct::Fill,
            DrawAct::Restore,
        ]);
    }
    all.extend([
        DrawAct::Color(255),
        DrawAct::Rect(n(5.0), n(6.0), n(7.0), n(8.0)),
        DrawAct::Fill,
    ]);
    let before = [shade.clone(), prefix.clone(), rect.clone(), rect.clone()].concat();
    assert_eq!(cairo_draw(&before, &vec![false]), all);
    let between = [prefix, shade, rect.clone(), rect].concat();
    assert_eq!(cairo_draw(&between, &vec![false]), all);
}

#[test]
fn words_of_a_path() {
    assert_eq!(split_words(" M 1\t2\n\u{2003}L  3 "), vec!["M", "1", "2", "L", "3"]);
    assert_eq!(split_words(" \u{a0} "), Vec::<String>::new());
    assert_eq!(dashes("4 2"), vec!["4", "2"]);
    assert_eq!(dashes(""), vec![""]);
}

#[test]
fn numbers_in_the_texts_of_a_drawing() {
    let two = |a: &str, b: &str| (s(a), s(b));
    assert_eq!(pairs("1,2 3,4,5 6 ,7"), vec![two("1", "2"), two("3", "4,5"), two("", "7")]);
    assert_eq!(pairs(""), vec![]);
    assert_eq!(parse_hex("ff8000Ff"), Some(0xff80_00ff));
    assert_eq!(parse_hex("+1a"), Some(0x1a));
    assert_eq!(parse_hex("100000000"), None);
    assert_eq!(parse_hex("000000000"), Some(0));
    assert_eq!(parse_hex(""), None);
    assert_eq!(parse_hex("+"), None);
    assert_eq!(parse_hex("-1"), None);
    assert_eq!(parse_hex("0x1"), None);
    assert_eq!(stops("0,ff0000ff 0.5,zz 1,0000ffff"), vec![(s("0"), 0xff00_00ff), (s("1"), 0xffff)]);
}

#[test]
fn focus_opacity_and_descriptions() {
    assert_eq!(focus(7, true, true, false), vec![Act::GrabFocus { w: 7 }]);
    assert_eq!(focus(7, true, false, false), vec![Act::GrabOnMap { w: 7 }]);
    assert_eq!(focus(7, false, true, true), vec![Act::Unfocus { w: 7 }]);
    assert_eq!(focus(7, false, true, false), vec![]);
    assert_eq!(
        set_opacity(7, n(0.5), None),
        vec![Act::StopFade { w: 7 }, Act::Opacity { w: 7, value: n(0.5) }]
    );
    let a = A11y {
        identifier: Some(s("id")),
        label: Some(s("L")),
        hint: None,
        value: None,
        hidden: true,
    };
    assert_eq!(
        set_a11y(7, a),
        vec![
            Act::Name { w: 7, name: s("id") },
            Act::Accessible { w: 7, label: Some(s("L")), hint: None, value: None },
            Act::Hidden { w: 7 },
        ]
    );
    let gtk = Gtk::new();
    assert_eq!(
        gtk.measure(7, Measured::Control, Some(n(50.0)), None, 10),
        (Span::Given(n(50.0)), Span::Px(24))
    );
    assert_eq!(capability(Cap::Cover), Support::Emulated);
    assert_eq!(capability(Cap::NavTabsAdaptive), Support::Unsupported);
    assert_eq!(forced_dark("dark"), Some(true));
    assert_eq!(forced_dark("blue"), None);
    assert_eq!(app_id(Some(s("a.b")), true), "a.b");
    assert_eq!(app_id(Some(s("?")), false), "dev.daybrite.day.app");
}

#[test]
fn typed_text_is_not_set_again() {
    let mut gtk = Gtk::new();
    let own = Patch::TextField(TextFieldPatch::Text { text: s("x"), from_native: true });
    assert_eq!(gtk.update(7, own, &around()), vec![]);
    let app = Patch::TextField(TextFieldPatch::Text { text: s("x"), from_native: false });
    assert_eq!(gtk.update(7, app, &around()), vec![Act::EntryText { w: 7, text: s("x") }]);
    assert_eq!(
        gtk.update(7, Patch::Progress(Some(n(0.5))), &around()),
        vec![Act::NearValue { w: 7, value: n(0.5), slack: Slack::TenThousandth }]
    );
}

#[test]
fn a_widget_without_a_baseline_has_none() {
    assert_eq!(first_baseline(true, 14), Some(14));
    assert_eq!(first_baseline(true, -1), None);
    assert_eq!(first_baseline(false, 14), None);
}

#[test]
fn a_mismatch_is_reported() {
    let mut gtk = Gtk::new();
    let out = build(&mut gtk, Piece::Mismatched(s("label")), 7, vec![70]);
    assert_eq!(
        out,
        vec![Act::Report { kind: s("label") }, Act::Text { w: 70, text: s("⟨label⟩") }]
    );
}
