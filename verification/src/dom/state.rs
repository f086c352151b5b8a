//! What the page backend remembers of its elements.
use crate::dom::list::{ListEntry, ListView};
use crate::dom::nav::{NavState, NavView};
use crate::model::{ContentMode, NodeId, Size};
use crate::num::Num;
use crate::table::Table;
use vstd::prelude::*;

verus! {

/// An element of the page, by the shim's number.
#[derive(Clone, Copy, Debug, PartialEq, Eq, Structural)]
pub struct DomHandle(pub u32);

/// A text area's lines: the fewest and the most it shows, and how many its text has.
pub type AreaLines = (u32, u32, u32);

/// The page backend's memory.
pub struct Dom {
    pub root: u32,
    pub nodes: Table<u64>,
    pub css_framed: Table<()>,
    pub navs: Table<NavState>,
    pub page_sidebar: Table<bool>,
    pub lists: Table<ListEntry>,
    pub cell_rows: Table<(u32, usize)>,
    pub spinners: Table<()>,
    pub seg_count: Table<usize>,
    pub picker_selected: Table<usize>,
    pub picker_size: Table<Size>,
    pub area_hints: Table<AreaLines>,
    pub image_src: Table<String>,
    pub image_fit: Table<ContentMode>,
    pub measured: Table<Vec<(i64, Size)>>,
    pub next_delay: u32,
    pub dark: bool,
    pub viewport: Size,
    pub first_route: bool,
}

/// The memory as contracts speak of it.
#[verifier::ext_equal]
pub ghost struct DomView {
    pub root: u32,
    pub nodes: Map<u64, u64>,
    pub css_framed: Map<u64, ()>,
    pub navs: Map<u64, NavView>,
    pub page_sidebar: Map<u64, bool>,
    pub lists: Map<u64, ListView>,
    pub cell_rows: Map<u64, (u32, usize)>,
    pub spinners: Map<u64, ()>,
    pub seg_count: Map<u64, usize>,
    pub picker_selected: Map<u64, usize>,
    pub picker_size: Map<u64, Size>,
    pub area_hints: Map<u64, AreaLines>,
    pub image_src: Map<u64, Seq<char>>,
    pub image_fit: Map<u64, ContentMode>,
    pub measured: Map<u64, Seq<(i64, Size)>>,
    pub next_delay: u32,
    pub dark: bool,
    pub viewport: Size,
    pub first_route: bool,
}

impl View for Dom {
    type V = DomView;

    open spec fn view(&self) -> DomView {
        DomView {
            root: self.root,
            nodes: self.nodes@,
            css_framed: self.css_framed@,
            navs: self.navs@,
            page_sidebar: self.page_sidebar@,
            lists: self.lists@,
            cell_rows: self.cell_rows@,
            spinners: self.spinners@,
            seg_count: self.seg_count@,
            picker_selected: self.picker_selected@,
            picker_size: self.picker_size@,
            area_hints: self.area_hints@,
            image_src: self.image_src@,
            image_fit: self.image_fit@,
            measured: self.measured@,
            next_delay: self.next_delay,
            dark: self.dark,
            viewport: self.viewport,
            first_route: self.first_route,
        }
    }
}

/// A list whose selection ascends and whose cells all have their mark of current content.
pub open spec fn sound_list(v: ListView) -> bool {
    crate::rows::ascending(v.selected) && v.cells.len() == v.bound.len()
}

impl DomView {
    /// Every list is sound, and the next delay has a number of its own.
    pub open spec fn wf(self) -> bool {
        &&& forall|k: u64| #[trigger] self.lists.contains_key(k) ==> sound_list(self.lists[k])
        &&& self.next_delay != 0
    }

    /// An element that stands for a node of the app.
    pub open spec fn remembered(self, el: u32, id: NodeId) -> DomView {
        DomView { nodes: self.nodes.insert(el as u64, id), ..self }
    }
}

impl Dom {
    /// The backend before anything is realized: the root element is number one, the first route
    /// rewrites the page's own history entry, and delays are numbered from one.
    pub fn new() -> (d: Dom)
        ensures
            d@.wf(),
            d@ == (DomView {
                root: 1,
                nodes: Map::empty(),
                css_framed: Map::empty(),
                navs: Map::empty(),
                page_sidebar: Map::empty(),
                lists: Map::empty(),
                cell_rows: Map::empty(),
                spinners: Map::empty(),
                seg_count: Map::empty(),
                picker_selected: Map::empty(),
                picker_size: Map::empty(),
                area_hints: Map::empty(),
                image_src: Map::empty(),
                image_fit: Map::empty(),
                measured: Map::empty(),
                next_delay: 1,
                dark: false,
                viewport: Size { width: Num { bits: 0 }, height: Num { bits: 0 } },
                first_route: true,
            }),
    {
        Dom {
            root: 1,
            nodes: Table::new(),
            css_framed: Table::new(),
            navs: Table::new(),
            page_sidebar: Table::new(),
            lists: Table::new(),
            cell_rows: Table::new(),
            spinners: Table::new(),
            seg_count: Table::new(),
            picker_selected: Table::new(),
            picker_size: Table::new(),
            area_hints: Table::new(),
            image_src: Table::new(),
            image_fit: Table::new(),
            measured: Table::new(),
            next_delay: 1,
            dark: false,
            viewport: Size { width: Num { bits: 0 }, height: Num { bits: 0 } },
            first_route: true,
        }
    }

    /// Remembers which node an element stands for.
    pub fn remember(&mut self, el: u32, id: NodeId)
        ensures
            final(self)@ == old(self)@.remembered(el, id),
    {
        self.nodes.put(el as u64, id);
    }

    /// The node an element stands for.
    pub fn node_of(&self, el: u32) -> (n: Option<u64>)
        ensures
            n == (if self@.nodes.contains_key(el as u64) {
                Some(self@.nodes[el as u64])
            } else {
                None
            }),
    {
        match self.nodes.get(el as u64) {
            Some(n) => Some(*n),
            None => None,
        }
    }
}

} // verus!
