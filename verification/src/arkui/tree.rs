//! Nodes that come, go and are placed.
use crate::arkui::act::{act, act_all, acts, no_acts, one_act, Act, ArkAct, SpecAct};
use crate::arkui::menu::retired;
use crate::arkui::nav::{child_left, node_released, page_attached, TrackView};
use crate::arkui::state::{ArkUi, ArkView};
use crate::arkui::suite::{joined, joined_acts, layout_acts, SuiteView};
use crate::keys::{drop_second, second_of, without_second};
use crate::model::{Length, Rect, Size, SpecEvent};
use crate::table::{entry, found, found_or, look_up};
use vstd::prelude::*;

verus! {

// ---- releasing ---------------------------------------------------------------------------------

/// A control that is gone leaves no echo to compare with, no range and no option.
pub open spec fn control_gone(v: ArkView, node: u64) -> ArkView {
    match entry(v.controls, node) {
        Some(id) => ArkView {
            controls: v.controls.remove(node),
            text_echo: v.text_echo.remove(id),
            slider_echo: v.slider_echo.remove(id),
            ranges: v.ranges.remove(id),
            picked: v.picked.remove(id),
            ..v
        },
        None => v,
    }
}

/// A tapped node that is gone takes its taps with it.
pub open spec fn tap_gone(v: ArkView, node: u64) -> ArkView {
    match entry(v.tap_handles, node) {
        Some(id) => ArkView {
            tap_handles: v.tap_handles.remove(node),
            tap_nodes: v.tap_nodes.remove(id),
            ..v
        },
        None => v,
    }
}

/// A list that is gone takes its selection with it.
pub open spec fn list_gone(v: ArkView, node: u64) -> ArkView {
    match entry(v.lists, node) {
        Some(id) => ArkView {
            lists: v.lists.remove(node),
            list_selected: v.list_selected.remove(id),
            ..v
        },
        None => v,
    }
}

/// A menu that is gone takes its rows with it.
pub open spec fn menu_gone(v: ArkView, node: u64) -> ArkView {
    match entry(v.menus.ids, node) {
        Some(menu) => ArkView {
            menus: crate::arkui::menu::MenuView {
                ids: v.menus.ids.remove(node),
                ..retired(v.menus, menu)
            },
            ..v
        },
        None => v,
    }
}

/// What is known of the node by its own number alone.
pub open spec fn own_gone(v: ArkView, node: u64) -> ArkView {
    ArkView {
        presented: v.presented.remove(node),
        windows: without_second(v.windows, node),
        nav: node_released(v.nav, node),
        covers: v.covers.remove(node),
        cover_parents: v.cover_parents.remove(node),
        area_lines: v.area_lines.remove(node),
        suite: match v.suite {
            Some(s) => if s.host == node {
                None
            } else {
                v.suite
            },
            None => None,
        },
        scroll_content: v.scroll_content.remove(node),
        pieces: v.pieces.remove(node),
        ..v
    }
}

/// The memory without a node that is gone.
pub open spec fn released(v: ArkView, node: u64) -> ArkView {
    menu_gone(list_gone(tap_gone(own_gone(control_gone(v, node), node), node), node), node)
}

/// A destination's slot is forgotten.
pub open spec fn slot_forgotten(v: ArkView, node: u64) -> Seq<SpecAct> {
    match second_of(v.nav.pushed, node) {
        Some(key) => seq![Act::NavForget { key }],
        None => Seq::empty(),
    }
}

/// A list's source is dropped.
pub open spec fn source_dropped(v: ArkView, node: u64) -> Seq<SpecAct> {
    match entry(v.lists, node) {
        Some(id) => seq![Act::ForgetSource { id }],
        None => Seq::empty(),
    }
}

/// A scroller's content goes with it.
pub open spec fn content_freed(v: ArkView, node: u64) -> Seq<SpecAct> {
    match entry(v.scroll_content, node) {
        Some(content) => seq![Act::Dispose { node: content }],
        None => Seq::empty(),
    }
}

/// The node itself: one the other side built is asked back, any other is freed.
pub open spec fn node_freed(v: ArkView, node: u64) -> SpecAct {
    match entry(v.pieces, node) {
        Some(id) => Act::PieceDispose { id },
        None => Act::Dispose { node },
    }
}

/// The calls that release a node.
pub open spec fn release_acts(v: ArkView, node: u64) -> Seq<SpecAct> {
    (slot_forgotten(v, node) + source_dropped(v, node) + content_freed(v, node)).push(
        node_freed(v, node),
    )
}

/// A released node is forgotten: a later node of the same number finds nothing of it.
pub proof fn a_released_node_leaves_nothing(v: ArkView, node: u64)
    ensures
        ({
            let w = released(v, node);
            &&& !w.controls.contains_key(node)
            &&& !w.presented.contains(node)
            &&& !w.covers.contains_key(node)
            &&& !w.cover_parents.contains_key(node)
            &&& !w.area_lines.contains_key(node)
            &&& !w.scroll_content.contains_key(node)
            &&& !w.pieces.contains_key(node)
            &&& !w.tap_handles.contains_key(node)
            &&& !w.lists.contains_key(node)
            &&& !w.menus.ids.contains_key(node)
            &&& !w.nav.page_ids.contains_key(node)
            &&& second_of(w.nav.pushed, node) is None
            &&& second_of(w.nav.attached, node) is None
            &&& !crate::keys::has_second(w.windows, node)
            &&& w.suite_host() != Some(node)
        }),
{
    crate::arkui::nav::a_released_page_leaves_no_record(control_gone(v, node).nav, node);
    crate::keys::without_second_members(v.windows, node);
}

/// A released control leaves no echo, no range and no option behind, a released tap target no tap,
/// and a released menu no row.
pub proof fn a_released_control_leaves_no_echo(v: ArkView, node: u64, click: u64)
    ensures
        ({
            let w = released(v, node);
            &&& entry(v.controls, node) matches Some(id) ==> !w.text_echo.contains_key(id)
                && !w.slider_echo.contains_key(id) && !w.ranges.contains_key(id)
                && !w.picked.contains_key(id)
            &&& entry(v.tap_handles, node) matches Some(id) ==> !w.tap_nodes.contains(id)
            &&& entry(v.lists, node) matches Some(id) ==> !w.list_selected.contains_key(id)
            &&& entry(v.menus.ids, node) matches Some(menu) ==> (crate::arkui::menu::answering(
                w.menus.rows,
                click,
            ) matches Some(r) ==> r.menu != menu)
        }),
{
    match entry(v.menus.ids, node) {
        Some(menu) => crate::arkui::menu::retired_rows_are_silent(v.menus.rows, menu, click),
        None => {},
    }
}

/// A node of this side is disposed of exactly once, as the last call; one that the other side
/// built is asked back there, once, and never disposed of here. The same call disposes of what
/// holds a scroller's children, once.
pub proof fn a_node_is_disposed_of_once(v: ArkView, node: u64)
    requires
        v.wf(),
    ensures
        ({
            let s = release_acts(v, node);
            let last = s.len() - 1;
            &&& s.len() > 0
            &&& forall|i: int|
                0 <= i < s.len() ==> ((#[trigger] s[i]) == (Act::<Seq<char>, SpecEvent>::Dispose {
                    node,
                })) == (i == last && !v.pieces.contains_key(node))
            &&& forall|i: int|
                0 <= i < s.len() && (#[trigger] s[i]) is PieceDispose ==> i == last
                    && v.pieces.contains_key(node)
            &&& v.pieces.contains_key(node) ==> s[last] == (Act::<
                Seq<char>,
                SpecEvent,
            >::PieceDispose { id: v.pieces[node] })
            &&& forall|i: int|
                0 <= i < s.len() && (#[trigger] s[i]) is Dispose && i != last ==> entry(
                    v.scroll_content,
                    node,
                ) == Some(s[i]->Dispose_node) && i == last - 1
        }),
{
    let s = release_acts(v, node);
    let a = slot_forgotten(v, node);
    let b = source_dropped(v, node);
    let c = content_freed(v, node);
    assert forall|i: int| 0 <= i < s.len() - 1 implies (#[trigger] s[i]) == (if i < a.len() {
        a[i]
    } else if i < a.len() + b.len() {
        b[i - a.len()]
    } else {
        c[i - a.len() - b.len()]
    }) by {}
}

impl ArkUi {
    fn forget_control(&mut self, node: u64)
        requires
            old(self)@.wf(),
        ensures
            final(self)@ == control_gone(old(self)@, node),
            final(self)@.wf(),
    {
        let ghost v = self@;
        match self.controls.take(node) {
            Some(id) => {
                self.text_echo.take(id);
                self.slider_echo.take(id);
                self.ranges.take(id);
                self.picked.take(id);
            },
            None => {
                proof {
                    assert(v.controls.remove(node) =~= v.controls);
                }
            },
        }
        proof {
            assert(self@ =~= control_gone(v, node));
        }
    }

    fn forget_own(&mut self, node: u64) -> (out: Vec<ArkAct>)
        requires
            old(self)@.wf(),
        ensures
            final(self)@ == own_gone(old(self)@, node),
            final(self)@.wf(),
            acts(out@) == slot_forgotten(old(self)@, node),
    {
        let ghost v = self@;
        self.presented.drop(node);
        self.windows = drop_second(&self.windows, node);
        let out = self.nav.release(node);
        self.covers.take(node);
        self.cover_parents.take(node);
        self.area_lines.take(node);
        let ours: bool = match &self.suite {
            Some(s) => s.host == node,
            None => false,
        };
        if ours {
            self.suite = None;
        }
        self.scroll_content.take(node);
        self.pieces.take(node);
        proof {
            assert(self@ =~= own_gone(v, node));
        }
        out
    }

    fn forget_linked(&mut self, node: u64)
        requires
            old(self)@.wf(),
        ensures
            final(self)@ == menu_gone(list_gone(tap_gone(old(self)@, node), node), node),
            final(self)@.wf(),
    {
        let ghost v = self@;
        match self.tap_handles.take(node) {
            Some(id) => {
                self.tap_nodes.drop(id);
            },
            None => {
                proof {
                    assert(v.tap_handles.remove(node) =~= v.tap_handles);
                }
            },
        }
        let ghost v1 = self@;
        proof {
            assert(v1 =~= tap_gone(v, node));
        }
        match self.lists.take(node) {
            Some(id) => {
                self.list_selected.take(id);
            },
            None => {
                proof {
                    assert(v1.lists.remove(node) =~= v1.lists);
                }
            },
        }
        let ghost v2 = self@;
        proof {
            assert(v2 =~= list_gone(v1, node));
        }
        match self.menus.ids.take(node) {
            Some(menu) => {
                self.menus.retire(menu);
            },
            None => {
                proof {
                    assert(v2.menus.ids.remove(node) =~= v2.menus.ids);
                }
            },
        }
        proof {
            assert(self@ =~= menu_gone(v2, node));
        }
    }

    /// A node is gone for good.
    pub fn release(&mut self, node: u64) -> (out: Vec<ArkAct>)
        requires
            old(self)@.wf(),
        ensures
            final(self)@ == released(old(self)@, node),
            final(self)@.wf(),
            acts(out@) == release_acts(old(self)@, node),
    {
        let ghost v = self@;
        let list = found(&self.lists, node);
        let content = found(&self.scroll_content, node);
        let piece = found(&self.pieces, node);
        self.forget_control(node);
        let mut out = self.forget_own(node);
        self.forget_linked(node);
        let ghost a1 = acts(out@);
        match list {
            Some(id) => act(&mut out, Act::ForgetSource { id }),
            None => {},
        }
        proof {
            assert(acts(out@) =~= a1 + source_dropped(v, node));
        }
        let ghost a2 = acts(out@);
        match content {
            Some(c) => act(&mut out, Act::Dispose { node: c }),
            None => {},
        }
        proof {
            assert(acts(out@) =~= a2 + content_freed(v, node));
        }
        match piece {
            Some(id) => act(&mut out, Act::PieceDispose { id }),
            None => act(&mut out, Act::Dispose { node }),
        }
        out
    }
}

// ---- coming and going --------------------------------------------------------------------------

/// The memory after a child came under a parent.
pub open spec fn inserted(v: ArkView, parent: u64, child: u64, index: usize) -> ArkView {
    if v.suite_host() == Some(parent) {
        ArkView {
            suite: Some(
                joined(v.suite->0, child, look_up(v.nav.page_ids, child, 0), index),
            ),
            ..v
        }
    } else {
        ArkView {
            nav: page_attached(v.nav, parent, child),
            cover_parents: if v.covers.contains_key(child) {
                v.cover_parents.insert(child, v.inner(parent))
            } else {
                v.cover_parents
            },
            ..v
        }
    }
}

/// The calls for a child that came under a parent.
pub open spec fn insert_acts(v: ArkView, parent: u64, child: u64, index: usize) -> Seq<SpecAct> {
    if v.suite_host() == Some(parent) {
        joined_acts(v.suite->0, child, index)
    } else {
        seq![Act::Insert { parent: v.inner(parent), child, index }]
    }
}

/// The memory after a child left a parent.
pub open spec fn removed(v: ArkView, child: u64) -> ArkView {
    if v.cover_parents.contains_key(child) {
        ArkView {
            nav: TrackView {
                attached: crate::keys::without_first(v.nav.attached, child),
                ..v.nav
            },
            cover_parents: v.cover_parents.remove(child),
            ..v
        }
    } else {
        ArkView { nav: child_left(v.nav, child), ..v }
    }
}

/// The calls for a child that left: a cover leaves wherever it stands now, a destination leaves
/// its slot, any other child its parent.
pub open spec fn remove_acts(v: ArkView, parent: u64, child: u64) -> Seq<SpecAct> {
    if v.cover_parents.contains_key(child) {
        seq![Act::Remove { parent: v.cover_parents[child], child }]
    } else {
        match second_of(v.nav.pushed, child) {
            Some(key) => if v.nav.popped.contains(key) {
                seq![Act::NavForget { key }]
            } else {
                seq![Act::NavRemove { key, child }]
            },
            None => seq![Act::Remove { parent: v.inner(parent), child }],
        }
    }
}

impl ArkUi {
    /// A child comes under a parent at an index.
    pub fn insert(&mut self, parent: u64, child: u64, index: usize) -> (out: Vec<ArkAct>)
        requires
            old(self)@.wf(),
        ensures
            final(self)@ == inserted(old(self)@, parent, child, index),
            final(self)@.wf(),
            acts(out@) == insert_acts(old(self)@, parent, child, index),
    {
        let ghost v = self@;
        let ours: bool = match &self.suite {
            Some(s) => s.host == parent,
            None => false,
        };
        if ours {
            let id = found_or(&self.nav.page_ids, child, 0);
            match self.suite.take() {
                Some(mut s) => {
                    let out = s.join(child, id, index);
                    self.suite = Some(s);
                    proof {
                        assert(self@ =~= inserted(v, parent, child, index));
                    }
                    return out;
                },
                None => {},
            }
        }
        self.nav.attach(parent, child);
        let inner = found_or(&self.scroll_content, parent, parent);
        if self.covers.has(child) {
            self.cover_parents.put(child, inner);
        }
        proof {
            assert(self@ =~= inserted(v, parent, child, index));
        }
        one_act(Act::Insert { parent: inner, child, index })
    }

    /// A child leaves a parent.
    pub fn remove(&mut self, parent: u64, child: u64) -> (out: Vec<ArkAct>)
        requires
            old(self)@.wf(),
        ensures
            final(self)@ == removed(old(self)@, child),
            final(self)@.wf(),
            acts(out@) == remove_acts(old(self)@, parent, child),
    {
        let ghost v = self@;
        match self.cover_parents.take(child) {
            Some(now) => {
                self.nav.unattach(child);
                proof {
                    assert(self@ =~= removed(v, child));
                }
                return one_act(Act::Remove { parent: now, child });
            },
            None => {
                proof {
                    assert(v.cover_parents.remove(child) =~= v.cover_parents);
                }
            },
        }
        let left = self.nav.leave(child);
        proof {
            assert(self@ =~= removed(v, child));
        }
        match left {
            Some(out) => out,
            None => {
                let inner = found_or(&self.scroll_content, parent, parent);
                one_act(Act::Remove { parent: inner, child })
            },
        }
    }

    /// A child moves to another index of its parent.
    pub fn move_child(&mut self, parent: u64, child: u64, to: usize) -> (out: Vec<ArkAct>)
        requires
            old(self)@.wf(),
        ensures
            final(self)@ == inserted(removed(old(self)@, child), parent, child, to),
            final(self)@.wf(),
            acts(out@) == remove_acts(old(self)@, parent, child) + insert_acts(
                removed(old(self)@, child),
                parent,
                child,
                to,
            ),
    {
        let mut out = self.remove(parent, child);
        let more = self.insert(parent, child, to);
        act_all(&mut out, more);
        out
    }

    /// Places a node. The suite divides its own frame, where a page gets the height `below`,
    /// which is what the bar leaves, zero at least; a cover's frame is not the app's to set.
    pub fn set_frame(&mut self, node: u64, frame: Rect, below: crate::num::Num) -> (out: Vec<
        ArkAct,
    >)
        requires
            old(self)@.wf(),
        ensures
            final(self)@ == framed(old(self)@, node, frame, below),
            final(self)@.wf(),
            acts(out@) == frame_acts(old(self)@, node, frame, below),
    {
        let ghost v = self@;
        let ours: bool = match &self.suite {
            Some(s) => s.host == node,
            None => false,
        };
        if ours {
            let page = Size { width: frame.size.width, height: below };
            match self.suite.take() {
                Some(mut s) => {
                    let mut out = one_act(
                        Act::Resize {
                            node,
                            width: Length::Given(frame.size.width),
                            height: Length::Given(frame.size.height),
                        },
                    );
                    let more = s.layout(frame.size, page);
                    self.suite = Some(s);
                    act_all(&mut out, more);
                    proof {
                        assert(self@ =~= framed(v, node, frame, below));
                    }
                    return out;
                },
                None => {},
            }
        }
        if self.covers.has(node) {
            return no_acts();
        }
        one_act(Act::Frame { node, frame })
    }

    /// Sizes what a scroller holds.
    pub fn set_scroll_content(&self, node: u64, content: Size) -> (out: Vec<ArkAct>)
        ensures
            acts(out@) == (match entry(self@.scroll_content, node) {
                Some(inner) => seq![
                    Act::<Seq<char>, crate::model::SpecEvent>::Resize {
                        node: inner,
                        width: Length::Given(content.width),
                        height: Length::Given(content.height),
                    },
                ],
                None => Seq::empty(),
            }),
    {
        match found(&self.scroll_content, node) {
            Some(inner) => one_act(
                Act::Resize {
                    node: inner,
                    width: Length::Given(content.width),
                    height: Length::Given(content.height),
                },
            ),
            None => no_acts(),
        }
    }
}

/// The memory after a node was placed.
pub open spec fn framed(v: ArkView, node: u64, frame: Rect, below: crate::num::Num) -> ArkView {
    if v.suite_host() == Some(node) {
        ArkView {
            suite: Some(
                SuiteView {
                    page_size: Size { width: frame.size.width, height: below },
                    ..v.suite->0
                },
            ),
            ..v
        }
    } else {
        v
    }
}

/// The calls that place a node.
pub open spec fn frame_acts(v: ArkView, node: u64, frame: Rect, below: crate::num::Num) -> Seq<
    SpecAct,
> {
    if v.suite_host() == Some(node) {
        let whole: Seq<SpecAct> = seq![
            Act::Resize {
                node,
                width: Length::Given(frame.size.width),
                height: Length::Given(frame.size.height),
            },
        ];
        whole + layout_acts(
            v.suite->0,
            frame.size,
            Size { width: frame.size.width, height: below },
        )
    } else if v.covers.contains_key(node) {
        Seq::empty()
    } else {
        seq![Act::Frame { node, frame }]
    }
}

} // verus!
