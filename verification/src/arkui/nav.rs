//! Navigation that the platform animates: pages pushed as destinations of their own, pops that
//! either side starts, and what is still in flight.
use crate::arkui::act::{act, acts, no_acts, one_act, Act, ArkAct, SpecAct};
use crate::keys::{
    drop_first, ends_in, find_second, has_second, second_of, take_out, without, without_first,
    Keys, Pairs,
};
use crate::model::{Event, Size, Target};
use crate::num::Num;
use crate::table::Table;
use crate::text::owned;
use vstd::prelude::*;

verus! {

/// The navigation host's records. A page is a node; its key is the app's node it stands for.
pub struct NavTrack {
    /// The host: the app's node, and the native one.
    pub host: Option<(u64, u64)>,
    /// Pages under the host, in the order they came, with their keys.
    pub attached: Vec<(u64, u64)>,
    /// Pages that are destinations of their own, with their keys.
    pub pushed: Vec<(u64, u64)>,
    /// Keys whose destination is gone while the page is still there.
    pub popped: Keys,
    /// Keys whose disappearance this side asked for.
    pub expected: Keys,
    /// The keys on the stack, in order.
    pub stack: Vec<u64>,
    /// Which app node a page is.
    pub page_ids: Table<u64>,
    /// Keys whose destination has not shown itself yet.
    pub pending_push: Keys,
    /// Keys whose disappearance has not been confirmed yet.
    pub pending_pop: Keys,
}

/// The records as contracts speak of them.
#[verifier::ext_equal]
pub ghost struct TrackView {
    pub host: Option<(u64, u64)>,
    pub attached: Pairs,
    pub pushed: Pairs,
    pub popped: Set<u64>,
    pub expected: Set<u64>,
    pub stack: Seq<u64>,
    pub page_ids: Map<u64, u64>,
    pub pending_push: Set<u64>,
    pub pending_pop: Set<u64>,
}

impl View for NavTrack {
    type V = TrackView;

    open spec fn view(&self) -> TrackView {
        TrackView {
            host: self.host,
            attached: self.attached@,
            pushed: self.pushed@,
            popped: self.popped@,
            expected: self.expected@,
            stack: self.stack@,
            page_ids: self.page_ids@,
            pending_push: self.pending_push@,
            pending_pop: self.pending_pop@,
        }
    }
}

impl TrackView {
    /// What is waited for will come: a page not shown yet is on the stack, and a pop not
    /// confirmed yet is one this side asked for.
    pub open spec fn wf(self) -> bool {
        &&& forall|k: u64| #[trigger] self.pending_push.contains(k) ==> self.stack.contains(k)
        &&& forall|k: u64| #[trigger] self.pending_pop.contains(k) ==> self.expected.contains(k)
    }

    /// The host's app node.
    pub open spec fn host_id(self) -> u64 {
        match self.host {
            Some((id, _)) => id,
            None => 0,
        }
    }

    /// The host's native node, where there is a host.
    pub open spec fn host_node(self) -> Option<u64> {
        match self.host {
            Some((_, node)) => Some(node),
            None => None,
        }
    }

    /// Nothing is in flight.
    pub open spec fn idle(self) -> bool {
        self.pending_push == Set::<u64>::empty() && self.pending_pop == Set::<u64>::empty()
    }
}

/// The records of a host that was just built: whatever the one before it tracked is gone.
pub open spec fn rebuilt(v: TrackView, id: u64, node: u64) -> TrackView {
    TrackView {
        host: Some((id, node)),
        attached: Seq::empty(),
        pushed: Seq::empty(),
        popped: Set::empty(),
        expected: Set::empty(),
        stack: Seq::empty(),
        pending_push: Set::empty(),
        pending_pop: Set::empty(),
        ..v
    }
}

/// A page came under the host.
pub open spec fn page_attached(v: TrackView, parent: u64, child: u64) -> TrackView {
    if v.host_node() == Some(parent) && v.page_ids.contains_key(child) {
        TrackView { attached: v.attached.push((child, v.page_ids[child])), ..v }
    } else {
        v
    }
}

/// The page that a push takes: the last one that came, which is then spent.
pub open spec fn page_taken(v: TrackView) -> TrackView {
    if v.attached.len() > 0 {
        TrackView { attached: v.attached.drop_last(), ..v }
    } else {
        v
    }
}

/// A page became a destination.
pub open spec fn page_pushed(v: TrackView, page: u64, key: u64) -> TrackView {
    TrackView {
        pushed: without_first(v.pushed, page).push((page, key)),
        stack: v.stack.push(key),
        pending_push: v.pending_push.insert(key),
        ..v
    }
}

/// This side pops the top of the stack. A page that never showed itself is not waited for in
/// any way; one that did is waited for until its disappearance is confirmed.
pub open spec fn top_popped(v: TrackView) -> TrackView {
    if v.stack.len() > 0 {
        let key = v.stack.last();
        TrackView {
            stack: v.stack.drop_last(),
            expected: v.expected.insert(key),
            pending_push: v.pending_push.remove(key),
            pending_pop: if v.pending_push.contains(key) {
                v.pending_pop
            } else {
                v.pending_pop.insert(key)
            },
            ..v
        }
    } else {
        v
    }
}

/// The platform reports that a destination is gone.
pub open spec fn destination_gone(v: TrackView, key: u64) -> TrackView {
    TrackView {
        popped: if has_second(v.pushed, key) {
            v.popped.insert(key)
        } else {
            v.popped
        },
        pending_push: v.pending_push.remove(key),
        stack: without(v.stack, key),
        expected: v.expected.remove(key),
        pending_pop: if v.expected.contains(key) {
            v.pending_pop.remove(key)
        } else {
            v.pending_pop
        },
        ..v
    }
}

/// What the app hears of it: nothing where this side asked for it, else that the user went back.
pub open spec fn gone_acts(v: TrackView, key: u64) -> Seq<SpecAct> {
    match v.host {
        Some((id, _)) => if v.expected.contains(key) {
            Seq::empty()
        } else {
            seq![Act::Emit { to: Target::Node(id), event: Event::NavBack { already_popped: true } }]
        },
        None => Seq::empty(),
    }
}

/// An event for the host, where there is one.
pub open spec fn host_told(v: TrackView, event: crate::model::SpecEvent) -> Seq<SpecAct> {
    match v.host {
        Some((id, _)) => seq![Act::Emit { to: Target::Node(id), event }],
        None => Seq::empty(),
    }
}

/// A destination reports its area; the first report also says that it shows.
pub open spec fn shown(v: TrackView, key: u64) -> TrackView {
    TrackView { pending_push: v.pending_push.remove(key), ..v }
}

/// A child leaves; a page that is a destination leaves its records too.
pub open spec fn child_left(v: TrackView, child: u64) -> TrackView {
    let attached = without_first(v.attached, child);
    match second_of(v.pushed, child) {
        Some(key) => TrackView {
            attached,
            pushed: without_first(v.pushed, child),
            popped: v.popped.remove(key),
            ..v
        },
        None => TrackView { attached, ..v },
    }
}

/// A node is gone for good.
pub open spec fn node_released(v: TrackView, node: u64) -> TrackView {
    TrackView {
        attached: without_first(v.attached, node),
        pushed: without_first(v.pushed, node),
        page_ids: v.page_ids.remove(node),
        ..v
    }
}

// ---- laws --------------------------------------------------------------------------------------

/// A page pushed and popped before it ever showed leaves nothing to wait for: no report of it
/// will come.
pub proof fn a_page_never_shown_is_not_waited_for(v: TrackView, page: u64, key: u64)
    requires
        !v.pending_push.contains(key),
    ensures
        ({
            let w = top_popped(page_pushed(v, page, key));
            &&& w.pending_push == v.pending_push
            &&& w.pending_pop == v.pending_pop
            &&& w.stack == v.stack
        }),
{
    let w = top_popped(page_pushed(v, page, key));
    assert(w.pending_push =~= v.pending_push);
    assert(v.stack.push(key).drop_last() =~= v.stack);
}

/// A page that showed and is popped from this side is waited for exactly until its
/// disappearance is confirmed, and the confirmation is no news for the app.
pub proof fn a_pop_is_waited_for_until_confirmed(v: TrackView, page: u64, key: u64)
    requires
        !v.pending_push.contains(key),
        !v.pending_pop.contains(key),
    ensures
        ({
            let up = shown(page_pushed(v, page, key), key);
            let down = top_popped(up);
            let done = destination_gone(down, key);
            &&& up.pending_push == v.pending_push
            &&& down.pending_pop == v.pending_pop.insert(key)
            &&& !down.idle()
            &&& gone_acts(down, key) == Seq::<SpecAct>::empty()
            &&& done.pending_pop == v.pending_pop
            &&& done.pending_push == v.pending_push
        }),
{
    let up = shown(page_pushed(v, page, key), key);
    assert(up.pending_push =~= v.pending_push);
    let down = top_popped(up);
    assert(down.pending_pop.contains(key));
    let done = destination_gone(down, key);
    assert(done.pending_pop =~= v.pending_pop);
    assert(done.pending_push =~= v.pending_push);
}

/// A destination that the user leaves is told to the app once, as a pop that has happened, and
/// is on the stack no more.
pub proof fn going_back_is_told(v: TrackView, key: u64)
    requires
        v.host is Some,
        !v.expected.contains(key),
    ensures
        gone_acts(v, key) == seq![
            Act::<Seq<char>, crate::model::SpecEvent>::Emit {
                to: Target::Node(v.host_id()),
                event: Event::NavBack { already_popped: true },
            },
        ],
        !destination_gone(v, key).stack.contains(key),
        destination_gone(v, key).pending_pop == v.pending_pop,
{
    crate::keys::taking_out_leaves_the_others(v.stack, key, key);
}

/// A page is pushed at most once for each time it came under the host.
pub proof fn a_page_is_taken_once(v: TrackView)
    requires
        v.attached.len() > 0,
    ensures
        page_taken(v).attached.push(v.attached.last()) == v.attached,
        page_taken(v).attached.len() < v.attached.len(),
{
    assert(v.attached.drop_last().push(v.attached.last()) =~= v.attached);
}

/// A rebuilt host waits for nothing and knows no page of the one before it.
pub proof fn a_rebuilt_host_starts_over(v: TrackView, id: u64, node: u64, page: u64)
    ensures
        rebuilt(v, id, node).idle(),
        rebuilt(v, id, node).wf(),
        second_of(rebuilt(v, id, node).pushed, page) is None,
{
}

/// A released node leaves no record that a later node of the same number could take for its
/// own.
pub proof fn a_released_page_leaves_no_record(v: TrackView, node: u64)
    ensures
        second_of(node_released(v, node).pushed, node) is None,
        second_of(node_released(v, node).attached, node) is None,
        !node_released(v, node).page_ids.contains_key(node),
{
    crate::keys::without_first_members(v.pushed, node);
    crate::keys::without_first_members(v.attached, node);
}

proof fn pop_keeps_wf(v: TrackView)
    requires
        v.wf(),
    ensures
        top_popped(v).wf(),
{
    let w = top_popped(v);
    if v.stack.len() > 0 {
        let key = v.stack.last();
        assert forall|k: u64| #[trigger] w.pending_push.contains(k) implies w.stack.contains(k) by {
            assert(v.pending_push.contains(k));
            let i = v.stack.index_of(k);
            assert(v.stack[i] == k && k != key);
            assert(w.stack[i] == k);
        }
        assert forall|k: u64| #[trigger] w.pending_pop.contains(k) implies w.expected.contains(
            k,
        ) by {
            if k != key {
                assert(v.pending_pop.contains(k));
            }
        }
    }
}

proof fn gone_keeps_wf(v: TrackView, key: u64)
    requires
        v.wf(),
    ensures
        destination_gone(v, key).wf(),
{
    let w = destination_gone(v, key);
    assert forall|k: u64| #[trigger] w.pending_push.contains(k) implies w.stack.contains(k) by {
        assert(v.pending_push.contains(k));
        crate::keys::taking_out_leaves_the_others(v.stack, key, k);
    }
    assert forall|k: u64| #[trigger] w.pending_pop.contains(k) implies w.expected.contains(k) by {
        assert(v.pending_pop.contains(k));
    }
}

// ---- code --------------------------------------------------------------------------------------

impl NavTrack {
    /// No host yet.
    pub fn new() -> (t: NavTrack)
        ensures
            t@.wf(),
            t@.idle(),
            t@ == (TrackView {
                host: None,
                attached: Seq::empty(),
                pushed: Seq::empty(),
                popped: Set::empty(),
                expected: Set::empty(),
                stack: Seq::empty(),
                page_ids: Map::empty(),
                pending_push: Set::empty(),
                pending_pop: Set::empty(),
            }),
    {
        NavTrack {
            host: None,
            attached: Vec::new(),
            pushed: Vec::new(),
            popped: Keys::new(),
            expected: Keys::new(),
            stack: Vec::new(),
            page_ids: Table::new(),
            pending_push: Keys::new(),
            pending_pop: Keys::new(),
        }
    }

    /// A host was built.
    pub fn rebuild(&mut self, id: u64, node: u64)
        ensures
            final(self)@ == rebuilt(old(self)@, id, node),
            final(self)@.wf(),
    {
        self.host = Some((id, node));
        self.attached = Vec::new();
        self.pushed = Vec::new();
        self.popped.clear();
        self.expected.clear();
        self.stack = Vec::new();
        self.pending_push.clear();
        self.pending_pop.clear();
        proof {
            assert(self@ =~= rebuilt(old(self)@, id, node));
        }
    }

    /// A page was built.
    pub fn know_page(&mut self, node: u64, id: u64)
        requires
            old(self)@.wf(),
        ensures
            final(self)@ == (TrackView {
                page_ids: old(self)@.page_ids.insert(node, id),
                ..old(self)@
            }),
            final(self)@.wf(),
    {
        self.page_ids.put(node, id);
    }

    /// A child came under a parent.
    pub fn attach(&mut self, parent: u64, child: u64)
        requires
            old(self)@.wf(),
        ensures
            final(self)@ == page_attached(old(self)@, parent, child),
            final(self)@.wf(),
    {
        match self.host {
            Some((_, node)) => {
                if node == parent {
                    match self.page_ids.get(child) {
                        Some(id) => {
                            let id: u64 = *id;
                            self.attached.push((child, id));
                        },
                        None => {},
                    }
                }
            },
            None => {},
        }
    }

    /// A push begins: the last page that came leaves the host and asks for a destination. The
    /// page and its key, where there is one.
    pub fn begin_push(&mut self, host: u64, title: &str) -> (r: (Option<(u64, u64)>, Vec<ArkAct>))
        requires
            old(self)@.wf(),
        ensures
            final(self)@ == page_taken(old(self)@),
            final(self)@.wf(),
            old(self)@.attached.len() > 0 ==> r.0 == Some(old(self)@.attached.last()) && acts(r.1@)
                == seq![
                Act::<Seq<char>, crate::model::SpecEvent>::Remove {
                    parent: host,
                    child: old(self)@.attached.last().0,
                },
                Act::NavPush {
                    page: old(self)@.attached.last().0,
                    key: old(self)@.attached.last().1,
                    title: title@,
                },
            ],
            old(self)@.attached.len() == 0 ==> r.0 is None && acts(r.1@)
                == Seq::<SpecAct>::empty(),
    {
        let mut out = no_acts();
        match self.attached.pop() {
            Some((page, key)) => {
                act(&mut out, Act::Remove { parent: host, child: page });
                act(&mut out, Act::NavPush { page, key, title: owned(title) });
                proof {
                    assert(acts(out@) =~= seq![
                        Act::<Seq<char>, crate::model::SpecEvent>::Remove {
                            parent: host,
                            child: page,
                        },
                        Act::NavPush { page, key, title: title@ },
                    ]);
                }
                (Some((page, key)), out)
            },
            None => (None, out),
        }
    }

    /// A push ends: with a destination of its own, or, where there is no place for one, back
    /// under the host.
    pub fn end_push(&mut self, host: u64, page: u64, key: u64, mounted: bool) -> (out: Vec<ArkAct>)
        requires
            old(self)@.wf(),
        ensures
            final(self)@.wf(),
            mounted ==> final(self)@ == page_pushed(old(self)@, page, key) && acts(out@)
                == Seq::<SpecAct>::empty(),
            !mounted ==> final(self)@ == old(self)@ && acts(out@) == seq![
                Act::<Seq<char>, crate::model::SpecEvent>::Add { parent: host, child: page },
            ],
    {
        let ghost v = self@;
        let mut out = no_acts();
        if mounted {
            let mut pushed = drop_first(&self.pushed, page);
            pushed.push((page, key));
            self.pushed = pushed;
            self.stack.push(key);
            self.pending_push.put(key);
            proof {
                let w = self@;
                assert(w =~= page_pushed(v, page, key));
                assert forall|k: u64| #[trigger]
                    w.pending_push.contains(k) implies w.stack.contains(k) by {
                    if k == key {
                        assert(w.stack[w.stack.len() - 1] == k);
                    } else {
                        assert(v.pending_push.contains(k));
                        assert(w.stack[v.stack.index_of(k)] == k);
                    }
                }
            }
        } else {
            act(&mut out, Act::Add { parent: host, child: page });
            proof {
                assert(acts(out@) =~= seq![
                    Act::<Seq<char>, crate::model::SpecEvent>::Add { parent: host, child: page },
                ]);
            }
        }
        out
    }

    /// This side pops.
    pub fn pop(&mut self) -> (out: Vec<ArkAct>)
        requires
            old(self)@.wf(),
        ensures
            final(self)@ == top_popped(old(self)@),
            final(self)@.wf(),
            acts(out@) == (if old(self)@.stack.len() > 0 {
                seq![Act::<Seq<char>, crate::model::SpecEvent>::NavPop]
            } else {
                Seq::empty()
            }),
    {
        let ghost v = self@;
        let mut out = no_acts();
        match self.stack.pop() {
            Some(key) => {
                self.expected.put(key);
                let waiting = self.pending_push.drop(key);
                if !waiting {
                    self.pending_pop.put(key);
                }
                act(&mut out, Act::NavPop);
                proof {
                    assert(acts(out@) =~= seq![
                        Act::<Seq<char>, crate::model::SpecEvent>::NavPop,
                    ]);
                }
            },
            None => {},
        }
        proof {
            assert(self@ =~= top_popped(v));
            pop_keeps_wf(v);
        }
        out
    }

    /// The platform reports that a destination is gone.
    pub fn gone(&mut self, key: u64) -> (out: Vec<ArkAct>)
        requires
            old(self)@.wf(),
        ensures
            final(self)@ == destination_gone(old(self)@, key),
            final(self)@.wf(),
            acts(out@) == gone_acts(old(self)@, key),
    {
        let ghost v = self@;
        if ends_in(&self.pushed, key) {
            self.popped.put(key);
        }
        self.pending_push.drop(key);
        self.stack = take_out(&self.stack, key);
        let expected = self.expected.drop(key);
        let mut out = no_acts();
        if expected {
            self.pending_pop.drop(key);
        } else {
            match self.host {
                Some((id, _)) => {
                    act(
                        &mut out,
                        Act::Emit {
                            to: Target::Node(id),
                            event: Event::NavBack { already_popped: true },
                        },
                    );
                },
                None => {},
            }
        }
        proof {
            assert(self@ =~= destination_gone(v, key));
            gone_keeps_wf(v, key);
            assert(acts(out@) =~= gone_acts(v, key));
        }
        out
    }

    /// A destination reports its area; an empty one is no report.
    pub fn area(&mut self, key: u64, w: Num, h: Num) -> (out: Vec<ArkAct>)
        requires
            old(self)@.wf(),
        ensures
            final(self)@.wf(),
            w.positive() && h.positive() ==> final(self)@ == shown(old(self)@, key) && acts(out@)
                == seq![
                Act::<Seq<char>, crate::model::SpecEvent>::Emit {
                    to: Target::Node(key),
                    event: Event::FrameChanged(Size { width: w, height: h }),
                },
            ],
            !(w.positive() && h.positive()) ==> final(self)@ == old(self)@ && acts(out@)
                == Seq::<SpecAct>::empty(),
    {
        let ghost v = self@;
        let mut out = no_acts();
        if w.is_positive() && h.is_positive() {
            self.pending_push.drop(key);
            act(
                &mut out,
                Act::Emit {
                    to: Target::Node(key),
                    event: Event::FrameChanged(Size { width: w, height: h }),
                },
            );
            proof {
                assert(self@ =~= shown(v, key));
                assert(acts(out@) =~= seq![
                    Act::<Seq<char>, crate::model::SpecEvent>::Emit {
                        to: Target::Node(key),
                        event: Event::FrameChanged(Size { width: w, height: h }),
                    },
                ]);
                assert forall|k: u64| #[trigger]
                    self@.pending_push.contains(k) implies self@.stack.contains(k) by {
                    assert(v.pending_push.contains(k));
                }
            }
        }
        out
    }

    /// A child leaves its parent. Where it is a destination, its slot is emptied, or, where the
    /// destination is gone already, forgotten without touching it; `None` where it is no
    /// destination.
    pub fn leave(&mut self, child: u64) -> (r: Option<Vec<ArkAct>>)
        requires
            old(self)@.wf(),
        ensures
            final(self)@ == child_left(old(self)@, child),
            final(self)@.wf(),
            match second_of(old(self)@.pushed, child) {
                Some(key) => r is Some && acts(r->0@) == (if old(self)@.popped.contains(key) {
                    seq![Act::<Seq<char>, crate::model::SpecEvent>::NavForget { key }]
                } else {
                    seq![Act::<Seq<char>, crate::model::SpecEvent>::NavRemove { key, child }]
                }),
                None => r is None,
            },
    {
        let ghost v = self@;
        self.attached = drop_first(&self.attached, child);
        match find_second(&self.pushed, child) {
            Some(key) => {
                self.pushed = drop_first(&self.pushed, child);
                let mut out = no_acts();
                if self.popped.drop(key) {
                    act(&mut out, Act::NavForget { key });
                } else {
                    act(&mut out, Act::NavRemove { key, child });
                }
                proof {
                    assert(self@ =~= child_left(v, child));
                    assert(acts(out@) =~= (if v.popped.contains(key) {
                        seq![Act::<Seq<char>, crate::model::SpecEvent>::NavForget { key }]
                    } else {
                        seq![Act::<Seq<char>, crate::model::SpecEvent>::NavRemove { key, child }]
                    }));
                }
                Some(out)
            },
            None => {
                proof {
                    assert(self@ =~= child_left(v, child));
                }
                None
            },
        }
    }

    /// A child leaves the pages under the host and nothing else.
    pub fn unattach(&mut self, child: u64)
        requires
            old(self)@.wf(),
        ensures
            final(self)@ == (TrackView {
                attached: without_first(old(self)@.attached, child),
                ..old(self)@
            }),
            final(self)@.wf(),
    {
        self.attached = drop_first(&self.attached, child);
    }

    /// A node is gone for good; where it was a destination, its slot is forgotten.
    pub fn release(&mut self, node: u64) -> (out: Vec<ArkAct>)
        requires
            old(self)@.wf(),
        ensures
            final(self)@ == node_released(old(self)@, node),
            final(self)@.wf(),
            acts(out@) == (match second_of(old(self)@.pushed, node) {
                Some(key) => seq![Act::<Seq<char>, crate::model::SpecEvent>::NavForget { key }],
                None => Seq::empty(),
            }),
    {
        let ghost v = self@;
        let mut out = no_acts();
        match find_second(&self.pushed, node) {
            Some(key) => {
                act(&mut out, Act::NavForget { key });
                proof {
                    assert(acts(out@) =~= seq![
                        Act::<Seq<char>, crate::model::SpecEvent>::NavForget { key },
                    ]);
                }
            },
            None => {},
        }
        self.pushed = drop_first(&self.pushed, node);
        self.attached = drop_first(&self.attached, node);
        self.page_ids.take(node);
        proof {
            assert(self@ =~= node_released(v, node));
        }
        out
    }

    /// Whether nothing is in flight.
    pub fn ui_idle(&self) -> (b: bool)
        ensures
            b == self@.idle(),
    {
        self.pending_push.is_empty() && self.pending_pop.is_empty()
    }

    /// A guarded destination asks whether it may go: the platform has not popped it.
    pub fn back_requested(&self) -> (out: Vec<ArkAct>)
        ensures
            acts(out@) == host_told(self@, Event::NavBack { already_popped: false }),
    {
        match self.host {
            Some((id, _)) => one_act(
                Act::Emit { to: Target::Node(id), event: Event::NavBack { already_popped: false } },
            ),
            None => no_acts(),
        }
    }

    /// The title bar's action was chosen.
    pub fn menu_action(&self, action: u64) -> (out: Vec<ArkAct>)
        ensures
            acts(out@) == host_told(self@, Event::MenuAction(action)),
    {
        match self.host {
            Some((id, _)) => one_act(
                Act::Emit { to: Target::Node(id), event: Event::MenuAction(action) },
            ),
            None => no_acts(),
        }
    }
}

} // verus!
