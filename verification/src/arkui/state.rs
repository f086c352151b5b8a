//! What the HarmonyOS backend remembers of its nodes.
use crate::arkui::menu::{MenuBook, MenuView, FIRST_CLICK};
use crate::arkui::nav::{NavTrack, TrackView};
use crate::arkui::suite::{Suite, SuiteView};
use crate::keys::{Keys, Pairs};
use crate::num::Num;
use crate::rows::RowSet;
use crate::table::{entry, look_up, Table};
use vstd::prelude::*;

verus! {

/// A native node, by the number of its handle.
#[derive(Clone, Copy, Debug, PartialEq, Eq, Hash, Structural)]
pub struct AHandle(pub u64);

/// The window's root node and its size.
pub type Root = (u64, Num, Num);

/// The backend's memory.
pub struct ArkUi {
    pub nav: NavTrack,
    pub menus: MenuBook,
    pub suite: Option<Suite>,
    /// The app node of each cover.
    pub covers: Table<u64>,
    /// Where each cover stands now: its place in the tree, or the root while it is presented.
    pub cover_parents: Table<u64>,
    /// The covers on top of the root.
    pub presented: Keys,
    /// The app node of each control that reports back what is set.
    pub controls: Table<u64>,
    /// The text last set, by app node.
    pub text_echo: Table<String>,
    /// The value last set, by app node.
    pub slider_echo: Table<Num>,
    /// A slider's range, by app node.
    pub ranges: Table<(Num, Num)>,
    /// The fewest and the most lines of a text area.
    pub area_lines: Table<(u32, u32)>,
    /// The option each picker shows, by app node.
    pub picked: Table<usize>,
    /// The app node of each list.
    pub lists: Table<u64>,
    /// The selected rows, by app node.
    pub list_selected: Table<RowSet>,
    /// Lists that are to be reloaded on the next turn.
    pub reloads: Keys,
    /// App nodes whose clicks are taps.
    pub tap_nodes: Keys,
    /// Which app node a tapped node is.
    pub tap_handles: Table<u64>,
    /// Nodes the other side built, with their app nodes.
    pub pieces: Table<u64>,
    /// The node that holds a scroller's children.
    pub scroll_content: Table<u64>,
    /// The app node and the root node of each further window.
    pub windows: Vec<(u64, u64)>,
    pub root: Option<Root>,
    pub dark: bool,
}

/// The memory as contracts speak of it.
#[verifier::ext_equal]
pub ghost struct ArkView {
    pub nav: TrackView,
    pub menus: MenuView,
    pub suite: Option<SuiteView>,
    pub covers: Map<u64, u64>,
    pub cover_parents: Map<u64, u64>,
    pub presented: Set<u64>,
    pub controls: Map<u64, u64>,
    pub text_echo: Map<u64, Seq<char>>,
    pub slider_echo: Map<u64, Num>,
    pub ranges: Map<u64, (Num, Num)>,
    pub area_lines: Map<u64, (u32, u32)>,
    pub picked: Map<u64, usize>,
    pub lists: Map<u64, u64>,
    pub list_selected: Map<u64, Seq<usize>>,
    pub reloads: Set<u64>,
    pub tap_nodes: Set<u64>,
    pub tap_handles: Map<u64, u64>,
    pub pieces: Map<u64, u64>,
    pub scroll_content: Map<u64, u64>,
    pub windows: Pairs,
    pub root: Option<Root>,
    pub dark: bool,
}

impl View for ArkUi {
    type V = ArkView;

    open spec fn view(&self) -> ArkView {
        ArkView {
            nav: self.nav@,
            menus: self.menus@,
            suite: match self.suite {
                Some(s) => Some(s@),
                None => None,
            },
            covers: self.covers@,
            cover_parents: self.cover_parents@,
            presented: self.presented@,
            controls: self.controls@,
            text_echo: self.text_echo@,
            slider_echo: self.slider_echo@,
            ranges: self.ranges@,
            area_lines: self.area_lines@,
            picked: self.picked@,
            lists: self.lists@,
            list_selected: self.list_selected@,
            reloads: self.reloads@,
            tap_nodes: self.tap_nodes@,
            tap_handles: self.tap_handles@,
            pieces: self.pieces@,
            scroll_content: self.scroll_content@,
            windows: self.windows@,
            root: self.root,
            dark: self.dark,
        }
    }
}

impl ArkView {
    /// The navigation waits only for what will come, the rows' numbers are their own, and what
    /// holds a scroller's children is another node.
    pub open spec fn wf(self) -> bool {
        &&& self.nav.wf()
        &&& self.menus.wf()
        &&& forall|n: u64| #[trigger]
            self.scroll_content.contains_key(n) ==> self.scroll_content[n] != n
    }

    /// The suite's host, where there is a suite.
    pub open spec fn suite_host(self) -> Option<u64> {
        match self.suite {
            Some(s) => Some(s.host),
            None => None,
        }
    }

    /// The node that takes the children of a node: a scroller's content, else the node itself.
    pub open spec fn inner(self, node: u64) -> u64 {
        look_up(self.scroll_content, node, node)
    }

    /// A slider's range, where one is known.
    pub open spec fn range_of(self, id: u64) -> Option<(Num, Num)> {
        entry(self.ranges, id)
    }
}

/// Nothing is known.
pub open spec fn blank(dark: bool) -> ArkView {
    ArkView {
        nav: TrackView {
            host: None,
            attached: Seq::empty(),
            pushed: Seq::empty(),
            popped: Set::empty(),
            expected: Set::empty(),
            stack: Seq::empty(),
            page_ids: Map::empty(),
            pending_push: Set::empty(),
            pending_pop: Set::empty(),
        },
        menus: MenuView { rows: Seq::empty(), ids: Map::empty(), next: FIRST_CLICK },
        suite: None,
        covers: Map::empty(),
        cover_parents: Map::empty(),
        presented: Set::empty(),
        controls: Map::empty(),
        text_echo: Map::empty(),
        slider_echo: Map::empty(),
        ranges: Map::empty(),
        area_lines: Map::empty(),
        picked: Map::empty(),
        lists: Map::empty(),
        list_selected: Map::empty(),
        reloads: Set::empty(),
        tap_nodes: Set::empty(),
        tap_handles: Map::empty(),
        pieces: Map::empty(),
        scroll_content: Map::empty(),
        windows: Seq::empty(),
        root: None,
        dark,
    }
}

impl ArkUi {
    /// The backend before anything is realized.
    pub fn new(dark: bool) -> (a: ArkUi)
        ensures
            a@.wf(),
            a@ == blank(dark),
    {
        ArkUi {
            nav: NavTrack::new(),
            menus: MenuBook::new(),
            suite: None,
            covers: Table::new(),
            cover_parents: Table::new(),
            presented: Keys::new(),
            controls: Table::new(),
            text_echo: Table::new(),
            slider_echo: Table::new(),
            ranges: Table::new(),
            area_lines: Table::new(),
            picked: Table::new(),
            lists: Table::new(),
            list_selected: Table::new(),
            reloads: Keys::new(),
            tap_nodes: Keys::new(),
            tap_handles: Table::new(),
            pieces: Table::new(),
            scroll_content: Table::new(),
            windows: Vec::new(),
            root: None,
            dark,
        }
    }
}

} // verus!
