//! What the GTK backend remembers of its widgets.
use crate::gtk::act::Transform;
use crate::gtk::dialogs::{nobody, Dialogs, DialogsView};
use crate::gtk::text::{LabelStyle, LabelView};
use crate::gtk::tree::{TreeEntry, TreeView};
use crate::gtk::windows::Settle;
use crate::keys::{Keys, Pairs};
use crate::model::{texts, GestureKind, Point, Target};
use crate::num::Num;
use crate::table::Table;
use vstd::prelude::*;

verus! {

/// The texts of a list of names, some of which are missing.
pub open spec fn names(v: Seq<Option<String>>) -> Seq<Option<Seq<char>>> {
    Seq::new(
        v.len(),
        |i: int|
            match v[i] {
                Some(s) => Some(s@),
                None => None,
            },
    )
}

/// How a navigation host shows its pages: beside a sidebar that stays as wide as it is, beside
/// one whose divider can be dragged, under a row of toggles, or one over the other.
#[derive(Clone, Copy, Debug, PartialEq, Eq, Structural)]
pub enum Present {
    Split,
    Paned,
    Suite { stack: u64, switcher: u64 },
    Stack,
}

/// A page of a navigation host: the widget it was made for, its app node, and the page.
#[derive(Clone, Copy, Debug, PartialEq, Eq, Structural)]
pub struct NavPage {
    pub child: u64,
    pub id: u64,
    pub page: u64,
}

/// A navigation host.
pub struct NavEntry {
    pub present: Present,
    /// Whether its first page is a sidebar.
    pub split: bool,
    pub pages: Vec<NavPage>,
    /// The toggles of a suite, in the order of its rows.
    pub toggles: Vec<u64>,
}

#[verifier::ext_equal]
pub ghost struct NavView {
    pub present: Present,
    pub split: bool,
    pub pages: Seq<NavPage>,
    pub toggles: Seq<u64>,
}

impl View for NavEntry {
    type V = NavView;

    open spec fn view(&self) -> NavView {
        NavView {
            present: self.present,
            split: self.split,
            pages: self.pages@,
            toggles: self.toggles@,
        }
    }
}

/// A navigation menu's list, and how many rows it has.
#[derive(Clone, Copy, Debug, PartialEq, Eq, Structural)]
pub struct Menu {
    pub listbox: u64,
    pub rows: usize,
}

impl View for Menu {
    type V = Menu;

    open spec fn view(&self) -> Menu {
        *self
    }
}

/// A navigation menu's rows as a suite shows them: its app node, its titles and icons.
pub struct SuiteRows {
    pub node: u64,
    pub titles: Vec<String>,
    pub icons: Vec<Option<String>>,
}

#[verifier::ext_equal]
pub ghost struct RowsView {
    pub node: u64,
    pub titles: Seq<Seq<char>>,
    pub icons: Seq<Option<Seq<char>>>,
}

impl View for SuiteRows {
    type V = RowsView;

    open spec fn view(&self) -> RowsView {
        RowsView { node: self.node, titles: texts(self.titles@), icons: names(self.icons@) }
    }
}

/// A pane of an inspector: its app node, and whether it is the panel.
#[derive(Clone, Copy, Debug, PartialEq, Eq, Structural)]
pub struct Pane {
    pub id: u64,
    pub panel: bool,
}

impl View for Pane {
    type V = Pane;

    open spec fn view(&self) -> Pane {
        *self
    }
}

/// An inspector: the width its panel is pinned to, and its panes.
pub struct Inspector {
    pub width: Num,
    pub panes: Vec<Pane>,
}

#[verifier::ext_equal]
pub ghost struct InspectorView {
    pub width: Num,
    pub panes: Seq<Pane>,
}

impl View for Inspector {
    type V = InspectorView;

    open spec fn view(&self) -> InspectorView {
        InspectorView { width: self.width, panes: self.panes@ }
    }
}

/// The backend's memory.
pub struct Gtk {
    /// The content of the first window.
    pub root: Option<u64>,
    /// The further windows, each with its content.
    pub windows: Vec<(u64, u64)>,
    /// The menu bar in the first window.
    pub menu_bar: Option<u64>,
    /// Whether the app's menu is installed, so that windows act on it.
    pub menu_actions: bool,
    pub labels: Table<LabelStyle>,
    pub navs: Table<NavEntry>,
    pub page_ids: Table<u64>,
    pub page_titles: Table<String>,
    pub menus: Table<Menu>,
    /// The rows that a suite above a menu takes over.
    pub menu_rows: Table<SuiteRows>,
    /// The transform last asked for.
    pub transforms: Table<Transform>,
    /// Where layout put a child of a fixed container.
    pub origins: Table<Point>,
    /// What an image was made from.
    pub images: Table<String>,
    /// The widgets with a style sheet of their own.
    pub surfaces: Keys,
    /// The tints that have a style sheet.
    pub tints: Keys,
    pub gestures: Vec<(u64, GestureKind)>,
    /// The widgets with a context menu.
    pub popovers: Keys,
    /// The lists whose rows have context menus.
    pub row_popovers: Keys,
    /// The widgets that ask for their context menu when it is summoned.
    pub summoned: Keys,
    pub lists: Keys,
    pub trees: Table<TreeEntry>,
    /// The token that a tree's cell shows.
    pub cell_tokens: Table<u64>,
    /// The row that a list's cell shows.
    pub cell_rows: Table<usize>,
    /// The list and the row that are being dragged.
    pub drag_from: Option<(u64, usize)>,
    /// The covers that are up, each with whom its events are for.
    pub covers: Vec<(u64, Target)>,
    pub cover_ids: Table<u64>,
    pub inspectors: Table<Inspector>,
    pub panes: Table<Pane>,
    pub dialogs: Dialogs,
    pub settle: Settle,
    /// Whether a window of the app was the active one.
    pub active: bool,
    pub scroll_css: bool,
    pub separator_css: bool,
}

/// The memory as contracts speak of it.
#[verifier::ext_equal]
pub ghost struct GtkView {
    pub root: Option<u64>,
    pub windows: Pairs,
    pub menu_bar: Option<u64>,
    pub menu_actions: bool,
    pub labels: Map<u64, LabelView>,
    pub navs: Map<u64, NavView>,
    pub page_ids: Map<u64, u64>,
    pub page_titles: Map<u64, Seq<char>>,
    pub menus: Map<u64, Menu>,
    pub menu_rows: Map<u64, RowsView>,
    pub transforms: Map<u64, Transform>,
    pub origins: Map<u64, Point>,
    pub images: Map<u64, Seq<char>>,
    pub surfaces: Set<u64>,
    pub tints: Set<u64>,
    pub gestures: Seq<(u64, GestureKind)>,
    pub popovers: Set<u64>,
    pub row_popovers: Set<u64>,
    pub summoned: Set<u64>,
    pub lists: Set<u64>,
    pub trees: Map<u64, TreeView>,
    pub cell_tokens: Map<u64, u64>,
    pub cell_rows: Map<u64, usize>,
    pub drag_from: Option<(u64, usize)>,
    pub covers: Seq<(u64, Target)>,
    pub cover_ids: Map<u64, u64>,
    pub inspectors: Map<u64, InspectorView>,
    pub panes: Map<u64, Pane>,
    pub dialogs: DialogsView,
    pub settle: Settle,
    pub active: bool,
    pub scroll_css: bool,
    pub separator_css: bool,
}

impl View for Gtk {
    type V = GtkView;

    open spec fn view(&self) -> GtkView {
        GtkView {
            root: self.root,
            windows: self.windows@,
            menu_bar: self.menu_bar,
            menu_actions: self.menu_actions,
            labels: self.labels@,
            navs: self.navs@,
            page_ids: self.page_ids@,
            page_titles: self.page_titles@,
            menus: self.menus@,
            menu_rows: self.menu_rows@,
            transforms: self.transforms@,
            origins: self.origins@,
            images: self.images@,
            surfaces: self.surfaces@,
            tints: self.tints@,
            gestures: self.gestures@,
            popovers: self.popovers@,
            row_popovers: self.row_popovers@,
            summoned: self.summoned@,
            lists: self.lists@,
            trees: self.trees@,
            cell_tokens: self.cell_tokens@,
            cell_rows: self.cell_rows@,
            drag_from: self.drag_from,
            covers: self.covers@,
            cover_ids: self.cover_ids@,
            inspectors: self.inspectors@,
            panes: self.panes@,
            dialogs: self.dialogs@,
            settle: self.settle,
            active: self.active,
            scroll_css: self.scroll_css,
            separator_css: self.separator_css,
        }
    }
}

/// Nothing is known.
pub open spec fn blank() -> GtkView {
    GtkView {
        root: None,
        windows: Seq::empty(),
        menu_bar: None,
        menu_actions: false,
        labels: Map::empty(),
        navs: Map::empty(),
        page_ids: Map::empty(),
        page_titles: Map::empty(),
        menus: Map::empty(),
        menu_rows: Map::empty(),
        transforms: Map::empty(),
        origins: Map::empty(),
        images: Map::empty(),
        surfaces: Set::empty(),
        tints: Set::empty(),
        gestures: Seq::empty(),
        popovers: Set::empty(),
        row_popovers: Set::empty(),
        summoned: Set::empty(),
        lists: Set::empty(),
        trees: Map::empty(),
        cell_tokens: Map::empty(),
        cell_rows: Map::empty(),
        drag_from: None,
        covers: Seq::empty(),
        cover_ids: Map::empty(),
        inspectors: Map::empty(),
        panes: Map::empty(),
        dialogs: nobody(),
        settle: Settle { count: 0, target: None },
        active: false,
        scroll_css: false,
        separator_css: false,
    }
}

impl Gtk {
    /// The backend before anything is realized.
    pub fn new() -> (g: Gtk)
        ensures
            g@ == blank(),
    {
        Gtk {
            root: None,
            windows: Vec::new(),
            menu_bar: None,
            menu_actions: false,
            labels: Table::new(),
            navs: Table::new(),
            page_ids: Table::new(),
            page_titles: Table::new(),
            menus: Table::new(),
            menu_rows: Table::new(),
            transforms: Table::new(),
            origins: Table::new(),
            images: Table::new(),
            surfaces: Keys::new(),
            tints: Keys::new(),
            gestures: Vec::new(),
            popovers: Keys::new(),
            row_popovers: Keys::new(),
            summoned: Keys::new(),
            lists: Keys::new(),
            trees: Table::new(),
            cell_tokens: Table::new(),
            cell_rows: Table::new(),
            drag_from: None,
            covers: Vec::new(),
            cover_ids: Table::new(),
            inspectors: Table::new(),
            panes: Table::new(),
            dialogs: Dialogs::new(),
            settle: Settle::new(),
            active: false,
            scroll_css: false,
            separator_css: false,
        }
    }
}

} // verus!
