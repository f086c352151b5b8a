//! The tree of elements: taking children in and letting them go, framing them, and the lists
//! among them.
use crate::dom::act::{act, acts, Act, DomAct, El, SpecAct};
use crate::dom::list::{
    fill_acts, filled, grown, missing_rows, stale_cells, unbound, window_from, window_to, ListView,
    Window, LIST_OVERSCAN,
};
use crate::dom::nav::{page_added, page_removed};
use crate::dom::state::{sound_list, Dom, DomView};
use crate::dom::update::known;
use crate::model::{NavPresentation, Rect};
use crate::num::Num;
use vstd::prelude::*;

verus! {

/// The cells of a released list, forgotten up to the `n`-th.
pub open spec fn cells_forgotten(m: Map<u64, (u32, usize)>, cells: Seq<u32>, n: int) -> Map<
    u64,
    (u32, usize),
>
    decreases n,
{
    if n <= 0 {
        m
    } else {
        cells_forgotten(m, cells, n - 1).remove(cells[n - 1] as u64)
    }
}

/// The memory once an element is gone.
pub open spec fn released(v: DomView, el: u32) -> DomView {
    let k = el as u64;
    DomView {
        nodes: v.nodes.remove(k),
        image_src: v.image_src.remove(k),
        image_fit: v.image_fit.remove(k),
        css_framed: v.css_framed.remove(k),
        area_hints: v.area_hints.remove(k),
        page_sidebar: v.page_sidebar.remove(k),
        navs: v.navs.remove(k),
        seg_count: v.seg_count.remove(k),
        picker_size: v.picker_size.remove(k),
        spinners: v.spinners.remove(k),
        measured: v.measured.remove(k),
        lists: v.lists.remove(k),
        cell_rows: match known(v.lists, el) {
            Some(l) => cells_forgotten(v.cell_rows, l.cells, l.cells.len() as int),
            None => v.cell_rows,
        },
        ..v
    }
}

/// Whether anything but a picker's last selection is remembered of an element.
pub open spec fn mentioned(v: DomView, el: u32) -> bool {
    let k = el as u64;
    ||| v.nodes.contains_key(k)
    ||| v.image_src.contains_key(k)
    ||| v.image_fit.contains_key(k)
    ||| v.css_framed.contains_key(k)
    ||| v.area_hints.contains_key(k)
    ||| v.page_sidebar.contains_key(k)
    ||| v.navs.contains_key(k)
    ||| v.seg_count.contains_key(k)
    ||| v.picker_size.contains_key(k)
    ||| v.spinners.contains_key(k)
    ||| v.measured.contains_key(k)
    ||| v.lists.contains_key(k)
}

proof fn forgotten_cells(m: Map<u64, (u32, usize)>, cells: Seq<u32>, n: int)
    requires
        0 <= n <= cells.len(),
    ensures
        forall|i: int|
            0 <= i < n ==> !cells_forgotten(m, cells, n).contains_key(#[trigger] cells[i] as u64),
    decreases n,
{
    if n > 0 {
        forgotten_cells(m, cells, n - 1);
    }
}

/// Of a released element nothing is remembered but a picker's last selection, which the next picker
/// of that number replaces; and a released list takes its cells with it.
pub proof fn a_released_element_leaves_no_mention(v: DomView, el: u32)
    ensures
        !mentioned(released(v, el), el),
        known(v.lists, el) matches Some(l) ==> forall|i: int|
            0 <= i < l.cells.len() ==> !released(v, el).cell_rows.contains_key(
                #[trigger] l.cells[i] as u64,
            ),
{
    match known(v.lists, el) {
        Some(l) => forgotten_cells(v.cell_rows, l.cells, l.cells.len() as int),
        None => {},
    }
}

/// Releasing one element leaves what is remembered of the others as it was.
pub proof fn releasing_touches_one_element(v: DomView, el: u32, other: u32)
    requires
        el != other,
    ensures
        mentioned(released(v, el), other) == mentioned(v, other),
        known(released(v, el).nodes, other) == known(v.nodes, other),
        known(released(v, el).lists, other) == known(v.lists, other),
        known(released(v, el).navs, other) == known(v.navs, other),
{
}

/// The pages and calls of a child taken in at `index`.
pub open spec fn inserted(v: DomView, parent: u32, child: u32) -> DomView {
    match known(v.navs, parent) {
        Some(nav) => DomView {
            navs: v.navs.insert(
                parent as u64,
                page_added(nav, child, known(v.page_sidebar, child) == Some(true)),
            ),
            ..v
        },
        None => v,
    }
}

/// A navigation host puts its pages where they belong; anywhere else the child goes to its
/// place.
pub open spec fn insert_act(v: DomView, parent: u32, child: u32, index: usize) -> SpecAct {
    match known(v.navs, parent) {
        Some(nav) => Act::NavAddPage {
            nav: parent,
            page: child,
            chrome: known(v.page_sidebar, child) == Some(true) && nav.presentation
                != NavPresentation::Stack,
        },
        None => Act::Insert { parent, child: El::Own(child), index: index as u32 },
    }
}

/// The memory once a child has left its parent.
pub open spec fn removed(v: DomView, parent: u32, child: u32) -> DomView {
    match known(v.navs, parent) {
        Some(nav) => DomView { navs: v.navs.insert(parent as u64, page_removed(nav, child)), ..v },
        None => v,
    }
}

/// The memory with a list in place of the one of its host.
pub open spec fn with_list(v: DomView, host: u32, l: ListView) -> DomView {
    DomView { lists: v.lists.insert(host as u64, l), ..v }
}

/// The cells of a list that were just made, known as their rows, up to the `n`-th.
pub open spec fn cells_known(
    m: Map<u64, (u32, usize)>,
    host: u32,
    created: Seq<u32>,
    rows: Seq<usize>,
    n: int,
) -> Map<u64, (u32, usize)>
    decreases n,
{
    if n <= 0 {
        m
    } else {
        cells_known(m, host, created, rows, n - 1).insert(
            created[n - 1] as u64,
            (host, rows[n - 1]),
        )
    }
}

/// The rows of a list's window that have no cell.
pub open spec fn rows_wanted(l: ListView, n: usize, w: Window) -> Seq<usize> {
    missing_rows(grown(l, n).cells, window_from(w), window_to(w, n))
}

/// The memory once a list's window is built. A list that rows can be selected in knows which
/// row each of its new cells is.
pub open spec fn list_filled(
    v: DomView,
    host: u32,
    n: usize,
    w: Window,
    width: Num,
    created: Seq<u32>,
) -> DomView {
    match known(v.lists, host) {
        Some(l) => if l.attached {
            DomView {
                lists: v.lists.insert(host as u64, filled(l, n, w, width, created)),
                cell_rows: if l.selectable {
                    cells_known(
                        v.cell_rows,
                        host,
                        created,
                        rows_wanted(l, n, w),
                        created.len() as int,
                    )
                } else {
                    v.cell_rows
                },
                ..v
            }
        } else {
            v
        },
        None => v,
    }
}

impl Dom {
    /// Lets an element go, with everything remembered of it.
    pub fn release(&mut self, el: u32) -> (out: Vec<DomAct>)
        requires
            old(self)@.wf(),
        ensures
            final(self)@ == released(old(self)@, el),
            final(self)@.wf(),
            acts(out@) == seq![Act::<Seq<char>, crate::model::SpecEvent>::Release(el)],
    {
        let ghost v = self@;
        let k = el as u64;
        self.nodes.take(k);
        self.image_src.take(k);
        self.image_fit.take(k);
        self.css_framed.take(k);
        self.area_hints.take(k);
        self.page_sidebar.take(k);
        self.navs.take(k);
        self.seg_count.take(k);
        self.picker_size.take(k);
        self.spinners.take(k);
        self.measured.take(k);
        match self.lists.take(k) {
            Some(list) => {
                let mut i: usize = 0;
                let ghost m = self.cell_rows@;
                let ghost before = self@;
                while i < list.cells.len()
                    invariant
                        i <= list.cells.len(),
                        self@ == (DomView {
                            cell_rows: cells_forgotten(m, list.cells@, i as int),
                            ..before
                        }),
                    decreases list.cells.len() - i,
                {
                    self.cell_rows.take(list.cells[i] as u64);
                    i = i + 1;
                }
            },
            None => {},
        }
        let mut out: Vec<DomAct> = Vec::new();
        act(&mut out, Act::Release(el));
        proof {
            assert(acts(out@) =~= seq![Act::<Seq<char>, crate::model::SpecEvent>::Release(el)]);
            assert(self@ =~= released(v, el));
        }
        out
    }

    /// Takes a child in.
    pub fn insert(&mut self, parent: u32, child: u32, index: usize) -> (out: Vec<DomAct>)
        ensures
            final(self)@ == inserted(old(self)@, parent, child),
            acts(out@) == seq![insert_act(old(self)@, parent, child, index)],
    {
        let ghost v = self@;
        let sidebar: bool = match self.page_sidebar.get(child as u64) {
            Some(b) => *b,
            None => false,
        };
        let mut out: Vec<DomAct> = Vec::new();
        match self.navs.take(parent as u64) {
            Some(mut nav) => {
                out = nav.add_page(parent, child, sidebar);
                self.navs.put(parent as u64, nav);
                proof {
                    assert(self@.navs =~= inserted(v, parent, child).navs);
                }
            },
            None => {
                act(
                    &mut out,
                    Act::Insert {
                        parent,
                        child: El::Own(child),
                        index: #[verifier::truncate] (index as u32),
                    },
                );
                proof {
                    assert(self@.navs =~= v.navs);
                }
            },
        }
        proof {
            assert(self@ =~= inserted(v, parent, child));
            assert(acts(out@) =~= seq![insert_act(v, parent, child, index)]);
        }
        out
    }

    /// Lets a child go from its parent.
    pub fn remove(&mut self, parent: u32, child: u32) -> (out: Vec<DomAct>)
        ensures
            final(self)@ == removed(old(self)@, parent, child),
            acts(out@) == seq![Act::<Seq<char>, crate::model::SpecEvent>::Remove(child)],
    {
        let ghost v = self@;
        match self.navs.take(parent as u64) {
            Some(mut nav) => {
                nav.remove_page(child);
                self.navs.put(parent as u64, nav);
                proof {
                    assert(self@.navs =~= removed(v, parent, child).navs);
                }
            },
            None => {
                proof {
                    assert(self@.navs =~= v.navs);
                }
            },
        }
        let mut out: Vec<DomAct> = Vec::new();
        act(&mut out, Act::Remove(child));
        proof {
            assert(self@ =~= removed(v, parent, child));
            assert(acts(out@) =~= seq![Act::<Seq<char>, crate::model::SpecEvent>::Remove(child)]);
        }
        out
    }

    /// The width a list last had, against which a new one is held.
    pub fn list_width(&self, el: u32) -> (w: Option<Num>)
        ensures
            w == (match known(self@.lists, el) {
                Some(l) => Some(l.last_width),
                None => None,
            }),
    {
        match self.lists.get(el as u64) {
            Some(l) => Some(l.last_width),
            None => None,
        }
    }

    /// Frames an element. One that the stylesheet frames is left alone. A list whose width is
    /// another one than before — `resized` says so — takes it and is refilled.
    pub fn set_frame(&mut self, el: u32, frame: Rect, resized: bool) -> (out: Vec<DomAct>)
        requires
            old(self)@.wf(),
        ensures
            final(self)@.wf(),
            ({
                let v = old(self)@;
                let framed: SpecAct = Act::Frame {
                    el,
                    x: frame.origin.x,
                    y: frame.origin.y,
                    width: frame.size.width,
                    height: frame.size.height,
                };
                if v.css_framed.contains_key(el as u64) {
                    final(self)@ == v && acts(out@) == Seq::<SpecAct>::empty()
                } else {
                    match known(v.lists, el) {
                        Some(l) => if resized {
                            &&& final(self)@ == with_list(
                                v,
                                el,
                                ListView { last_width: frame.size.width, ..l },
                            )
                            &&& acts(out@) == seq![framed, Act::PostPopulate(el)]
                        } else {
                            final(self)@ == v && acts(out@) == seq![framed]
                        },
                        None => final(self)@ == v && acts(out@) == seq![framed],
                    }
                }
            }),
    {
        let ghost v = self@;
        let mut out: Vec<DomAct> = Vec::new();
        if self.css_framed.has(el as u64) {
            proof {
                assert(acts(out@) =~= Seq::<SpecAct>::empty());
            }
            return out;
        }
        act(
            &mut out,
            Act::Frame {
                el,
                x: frame.origin.x,
                y: frame.origin.y,
                width: frame.size.width,
                height: frame.size.height,
            },
        );
        let ghost framed: SpecAct = Act::Frame {
            el,
            x: frame.origin.x,
            y: frame.origin.y,
            width: frame.size.width,
            height: frame.size.height,
        };
        proof {
            assert(acts(out@) =~= seq![framed]);
        }
        if !resized {
            return out;
        }
        match self.lists.take(el as u64) {
            Some(mut l) => {
                proof {
                    assert(v.lists.contains_key(el as u64));
                    assert(sound_list(l@));
                }
                l.last_width = frame.size.width;
                let ghost l1 = l@;
                self.lists.put(el as u64, l);
                act(&mut out, Act::PostPopulate(el));
                proof {
                    assert(l1 =~= (ListView {
                        last_width: frame.size.width,
                        ..v.lists[el as u64]
                    }));
                    assert(self@.lists =~= v.lists.insert(el as u64, l1));
                    assert(acts(out@) =~= seq![framed, Act::PostPopulate(el)]);
                }
            },
            None => {
                proof {
                    assert(self@.lists =~= v.lists);
                }
            },
        }
        out
    }

    /// Gives a list its source, and has it filled.
    pub fn attach_list(&mut self, host: u32) -> (out: Vec<DomAct>)
        requires
            old(self)@.wf(),
        ensures
            final(self)@.wf(),
            final(self)@ == (match known(old(self)@.lists, host) {
                Some(l) => with_list(old(self)@, host, ListView { attached: true, ..l }),
                None => old(self)@,
            }),
            acts(out@) == seq![Act::<Seq<char>, crate::model::SpecEvent>::PostPopulate(host)],
    {
        let ghost v = self@;
        match self.lists.take(host as u64) {
            Some(mut l) => {
                proof {
                    assert(v.lists.contains_key(host as u64));
                    assert(sound_list(l@));
                }
                l.attached = true;
                let ghost l1 = l@;
                self.lists.put(host as u64, l);
                proof {
                    assert(l1 =~= (ListView { attached: true, ..v.lists[host as u64] }));
                    assert(self@.lists =~= v.lists.insert(host as u64, l1));
                }
            },
            None => {
                proof {
                    assert(self@.lists =~= v.lists);
                }
            },
        }
        let mut out: Vec<DomAct> = Vec::new();
        act(&mut out, Act::PostPopulate(host));
        proof {
            assert(acts(out@) =~= seq![
                Act::<Seq<char>, crate::model::SpecEvent>::PostPopulate(host),
            ]);
        }
        out
    }

    /// A list's source changed under its cells; it has `n` rows now.
    pub fn list_populate(&mut self, host: u32, n: usize) -> (out: Vec<DomAct>)
        requires
            old(self)@.wf(),
        ensures
            final(self)@.wf(),
            match known(old(self)@.lists, host) {
                Some(l) => final(self)@ == with_list(old(self)@, host, unbound(l)) && acts(out@)
                    == stale_cells(l, n as int, l.cells.len() as int),
                None => final(self)@ == old(self)@ && acts(out@) == Seq::<SpecAct>::empty(),
            },
    {
        let ghost v = self@;
        match self.lists.take(host as u64) {
            Some(mut l) => {
                proof {
                    assert(v.lists.contains_key(host as u64));
                    assert(sound_list(l@));
                }
                let out = l.populate(n);
                let ghost l1 = l@;
                self.lists.put(host as u64, l);
                proof {
                    assert(self@.lists =~= v.lists.insert(host as u64, l1));
                }
                out
            },
            None => {
                let out: Vec<DomAct> = Vec::new();
                proof {
                    assert(self@.lists =~= v.lists);
                    assert(self@ =~= v);
                    assert(acts(out@) =~= Seq::<SpecAct>::empty());
                }
                out
            },
        }
    }

    /// The rows of a list's window that need a cell made for them.
    pub fn list_missing(&self, host: u32, n: usize, w: Window) -> (rows: Vec<usize>)
        requires
            self@.wf(),
            w.end + LIST_OVERSCAN <= usize::MAX,
        ensures
            rows@ == (match known(self@.lists, host) {
                Some(l) => if l.attached {
                    rows_wanted(l, n, w)
                } else {
                    Seq::empty()
                },
                None => Seq::empty(),
            }),
    {
        match self.lists.get(host as u64) {
            Some(l) => {
                if l.attached {
                    assert(sound_list(l@));
                    l.missing(n, w)
                } else {
                    Vec::new()
                }
            },
            None => Vec::new(),
        }
    }

    fn know_cells(&mut self, host: u32, created: &Vec<u32>, rows: &Vec<usize>)
        requires
            created.len() == rows.len(),
        ensures
            final(self)@ == (DomView {
                cell_rows: cells_known(
                    old(self)@.cell_rows,
                    host,
                    created@,
                    rows@,
                    created@.len() as int,
                ),
                ..old(self)@
            }),
    {
        let ghost v = self@;
        let mut i: usize = 0;
        while i < created.len()
            invariant
                i <= created.len() == rows.len(),
                self@ == (DomView {
                    cell_rows: cells_known(v.cell_rows, host, created@, rows@, i as int),
                    ..v
                }),
            decreases created.len() - i,
        {
            self.cell_rows.put(created[i] as u64, (host, rows[i]));
            i = i + 1;
        }
    }

    /// Builds the rows of a list's window, `width` wide; `created` holds a new cell for each of
    /// the rows that [`Dom::list_missing`] names.
    pub fn list_fill(&mut self, host: u32, n: usize, w: Window, width: Num, created: &Vec<u32>) -> (out:
        Vec<DomAct>)
        requires
            old(self)@.wf(),
            w.end + LIST_OVERSCAN <= usize::MAX,
            known(old(self)@.lists, host) matches Some(l) ==> l.attached ==> created.len()
                == rows_wanted(l, n, w).len(),
        ensures
            final(self)@.wf(),
            final(self)@ == list_filled(old(self)@, host, n, w, width, created@),
            acts(out@) == (match known(old(self)@.lists, host) {
                Some(l) => if l.attached {
                    fill_acts(l, n, w, width, created@)
                } else {
                    Seq::empty()
                },
                None => Seq::empty(),
            }),
    {
        let ghost v = self@;
        let rows = self.list_missing(host, n, w);
        match self.lists.take(host as u64) {
            Some(mut l) => {
                proof {
                    assert(v.lists.contains_key(host as u64));
                    assert(sound_list(l@));
                }
                let ghost l0 = l@;
                let mut out: Vec<DomAct> = Vec::new();
                if l.attached {
                    out = l.fill(n, w, width, created);
                    if l.selectable {
                        self.know_cells(host, created, &rows);
                    }
                } else {
                    proof {
                        assert(acts(out@) =~= Seq::<SpecAct>::empty());
                    }
                }
                let ghost l1 = l@;
                self.lists.put(host as u64, l);
                proof {
                    assert(self@.lists =~= v.lists.insert(host as u64, l1));
                    if !l0.attached {
                        assert(self@.lists =~= v.lists);
                    }
                    assert(self@ =~= list_filled(v, host, n, w, width, created@));
                }
                out
            },
            None => {
                let out: Vec<DomAct> = Vec::new();
                proof {
                    assert(self@.lists =~= v.lists);
                    assert(self@ =~= v);
                    assert(acts(out@) =~= Seq::<SpecAct>::empty());
                }
                out
            },
        }
    }
}

} // verus!
