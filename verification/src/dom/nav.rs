//! Navigation hosts: which pages a host has, which of them shows, and how they move when the
//! host is presented another way. No page is ever rebuilt.
use crate::dom::act::{act, acts, style, Act, DomAct, El, SpecAct};
use crate::model::{texts, NavPatch, NavPresentation};
use crate::text::owned;
use vstd::prelude::*;

verus! {

/// A navigation host. While stacked its pages are a push stack with the sidebar page first;
/// otherwise they are its detail pages and the sidebar page stands in the chrome. `selected` is
/// the place of the page that shows.
pub struct NavState {
    pub presentation: NavPresentation,
    pub pages: Vec<u32>,
    pub sidebar: Option<u32>,
    pub titles: Vec<String>,
    pub selected: usize,
}

/// A navigation host as contracts speak of it.
#[verifier::ext_equal]
pub ghost struct NavView {
    pub presentation: NavPresentation,
    pub pages: Seq<u32>,
    pub sidebar: Option<u32>,
    pub titles: Seq<Seq<char>>,
    pub selected: usize,
}

impl View for NavState {
    type V = NavView;

    open spec fn view(&self) -> NavView {
        NavView {
            presentation: self.presentation,
            pages: self.pages@,
            sidebar: self.sidebar,
            titles: texts(self.titles@),
            selected: self.selected,
        }
    }
}

/// The shim's number for a presentation.
pub open spec fn mode(p: NavPresentation) -> u32 {
    match p {
        NavPresentation::Split => 0,
        NavPresentation::Stack => 1,
        NavPresentation::Tabs => 2,
        NavPresentation::Rail => 3,
    }
}

pub fn nav_mode(p: NavPresentation) -> (m: u32)
    ensures
        m == mode(p),
{
    match p {
        NavPresentation::Split => 0,
        NavPresentation::Stack => 1,
        NavPresentation::Tabs => 2,
        NavPresentation::Rail => 3,
    }
}

/// One less, but not below zero.
pub open spec fn less_one(n: int) -> usize {
    if n > 0 {
        (n - 1) as usize
    } else {
        0
    }
}

/// The pages without one of them.
pub open spec fn dropped(pages: Seq<u32>, page: u32) -> Seq<u32>
    decreases pages.len(),
{
    if pages.len() == 0 {
        pages
    } else if pages.last() == page {
        dropped(pages.drop_last(), page)
    } else {
        dropped(pages.drop_last(), page).push(pages.last())
    }
}

/// The place of a page among the pages from the `i`-th on.
pub open spec fn place_from(pages: Seq<u32>, page: u32, i: int) -> Option<usize>
    decreases pages.len() - i,
{
    if i < 0 || i >= pages.len() {
        None
    } else if pages[i] == page {
        Some(i as usize)
    } else {
        place_from(pages, page, i + 1)
    }
}

/// Every page, the `shown`-th displayed and the others hidden, up to the `n`-th.
pub open spec fn display(pages: Seq<u32>, shown: usize, n: int) -> Seq<SpecAct>
    decreases n,
{
    if n <= 0 {
        Seq::empty()
    } else {
        display(pages, shown, n - 1).push(
            Act::Style(
                El::Own(pages[n - 1]),
                "display"@,
                if n - 1 == shown {
                    "block"@
                } else {
                    "none"@
                },
            ),
        )
    }
}

/// The back bar with `depth` pages on the stack: only a stack shows it, and only above its root.
pub open spec fn back_bar(host: u32, v: NavView, depth: int) -> SpecAct {
    Act::NavBackBar {
        nav: host,
        visible: v.presentation == NavPresentation::Stack && depth >= 1 && v.titles.len() > 1,
        title: if v.titles.len() > 0 {
            v.titles.last()
        } else {
            ""@
        },
    }
}

/// The host with one more page: the sidebar page goes to the chrome unless the host is a stack.
pub open spec fn page_added(v: NavView, page: u32, sidebar: bool) -> NavView {
    let in_chrome = sidebar && v.presentation != NavPresentation::Stack;
    NavView {
        sidebar: if sidebar {
            Some(page)
        } else {
            v.sidebar
        },
        pages: if in_chrome {
            v.pages
        } else {
            v.pages.push(page)
        },
        ..v
    }
}

/// The host without a page; the place of the shown page stays inside the pages.
pub open spec fn page_removed(v: NavView, page: u32) -> NavView {
    let pages = dropped(v.pages, page);
    let top = less_one(pages.len() as int);
    NavView {
        pages,
        selected: if v.selected < top {
            v.selected
        } else {
            top
        },
        ..v
    }
}

/// The pages once the host is presented as `next`: the sidebar page heads a stack and is no
/// page anywhere else.
pub open spec fn rearranged(v: NavView, next: NavPresentation) -> Seq<u32> {
    match v.sidebar {
        Some(side) => if next == NavPresentation::Stack {
            seq![side] + dropped(v.pages, side)
        } else {
            dropped(v.pages, side)
        },
        None => v.pages,
    }
}

/// Where the page on screen stands among the rearranged pages; where it is no page any more,
/// the last one shows.
pub open spec fn still_shown(v: NavView, pages: Seq<u32>) -> usize {
    let found = if v.selected < v.pages.len() {
        place_from(pages, v.pages[v.selected as int], 0)
    } else {
        None
    };
    match found {
        Some(i) => i,
        None => less_one(pages.len() as int),
    }
}

/// The host presented as `next`.
pub open spec fn presented(v: NavView, next: NavPresentation) -> NavView {
    if v.presentation == next {
        v
    } else {
        let pages = rearranged(v, next);
        NavView { presentation: next, pages, selected: still_shown(v, pages), ..v }
    }
}

/// The pages put back into the host, the `shown`-th displayed, up to the `n`-th.
pub open spec fn rehomed(host: u32, pages: Seq<u32>, shown: usize, n: int) -> Seq<SpecAct>
    decreases n,
{
    if n <= 0 {
        Seq::empty()
    } else {
        rehomed(host, pages, shown, n - 1).push(
            Act::NavAddPage { nav: host, page: pages[n - 1], chrome: false },
        ).push(
            Act::Style(
                El::Own(pages[n - 1]),
                "display"@,
                if n - 1 == shown {
                    "block"@
                } else {
                    "none"@
                },
            ),
        )
    }
}

/// The sidebar page in the chrome, where it always shows.
pub open spec fn chrome_page(host: u32, v: NavView, next: NavPresentation) -> Seq<SpecAct> {
    match v.sidebar {
        Some(side) => if next != NavPresentation::Stack {
            seq![
                Act::NavAddPage { nav: host, page: side, chrome: true },
                Act::Style(El::Own(side), "display"@, "block"@),
            ]
        } else {
            Seq::empty()
        },
        None => Seq::empty(),
    }
}

/// Everything that presenting the host as `next` does.
pub open spec fn present_acts(host: u32, v: NavView, next: NavPresentation) -> Seq<SpecAct> {
    let w = presented(v, next);
    let start: Seq<SpecAct> = seq![Act::NavPresent { el: host, mode: mode(next) }];
    if v.presentation == next {
        Seq::empty()
    } else {
        (start + chrome_page(host, v, next) + rehomed(
            host,
            w.pages,
            w.selected,
            w.pages.len() as int,
        )).push(back_bar(host, w, w.pages.len() as int))
    }
}

/// The host after a patch.
pub open spec fn patched(v: NavView, p: NavPatch) -> NavView {
    match p {
        NavPatch::Presentation(next) => presented(v, next),
        NavPatch::Select(i) => NavView { selected: i, ..v },
        NavPatch::Pushed { title } => NavView {
            titles: v.titles.push(title@),
            selected: less_one(v.pages.len() as int),
            ..v
        },
        NavPatch::Popped => NavView {
            titles: if v.titles.len() > 1 {
                v.titles.drop_last()
            } else {
                v.titles
            },
            selected: less_one(v.pages.len() - 1),
            ..v
        },
        NavPatch::Title(t) => NavView {
            titles: if v.titles.len() > 0 {
                v.titles.update(v.titles.len() - 1, t@)
            } else {
                v.titles
            },
            ..v
        },
        _ => v,
    }
}

/// The page below the top shows and the top is hidden.
pub open spec fn popped(pages: Seq<u32>) -> Seq<SpecAct> {
    let n = pages.len() as int;
    if n == 0 {
        Seq::empty()
    } else if n == 1 {
        seq![Act::Style(El::Own(pages[0]), "display"@, "none"@)]
    } else {
        seq![
            Act::Style(El::Own(pages[n - 1]), "display"@, "none"@),
            Act::Style(El::Own(pages[n - 2]), "display"@, "block"@),
        ]
    }
}

/// Everything that a patch does.
pub open spec fn patch_acts(host: u32, v: NavView, p: NavPatch) -> Seq<SpecAct> {
    let w = patched(v, p);
    let n = v.pages.len() as int;
    match p {
        NavPatch::Presentation(next) => present_acts(host, v, next),
        NavPatch::Select(i) => display(v.pages, i, n).push(back_bar(host, w, n)),
        NavPatch::Pushed { .. } => display(v.pages, less_one(n), n).push(back_bar(host, w, n)),
        NavPatch::Popped => popped(v.pages).push(back_bar(host, w, less_one(n) as int)),
        NavPatch::Title(_) => seq![back_bar(host, w, n)],
        _ => Seq::empty(),
    }
}

// ---- laws --------------------------------------------------------------------------------------

proof fn dropped_members(pages: Seq<u32>, page: u32)
    ensures
        forall|p: u32| #[trigger]
            dropped(pages, page).contains(p) <==> (pages.contains(p) && p != page),
        dropped(pages, page).len() <= pages.len(),
    decreases pages.len(),
{
    let d = dropped(pages, page);
    if pages.len() > 0 {
        let front = pages.drop_last();
        dropped_members(front, page);
        let df = dropped(front, page);
        assert forall|p: u32| #[trigger]
            d.contains(p) <==> (pages.contains(p) && p != page) by {
            if pages.contains(p) && p != page {
                let k = pages.index_of(p);
                if k < front.len() {
                    assert(front[k] == p);
                    assert(df.contains(p));
                    assert(d[df.index_of(p)] == p);
                } else {
                    assert(d[df.len() as int] == p);
                }
            }
            if d.contains(p) {
                let k = d.index_of(p);
                if k < df.len() {
                    assert(df[k] == p);
                    assert(df.contains(p));
                    assert(pages[front.index_of(p)] == p);
                } else {
                    assert(pages[pages.len() - 1] == p);
                }
            }
        }
    }
}

proof fn dropped_absent(pages: Seq<u32>, page: u32)
    requires
        !pages.contains(page),
    ensures
        dropped(pages, page) == pages,
    decreases pages.len(),
{
    if pages.len() > 0 {
        let front = pages.drop_last();
        assert(pages[pages.len() - 1] != page);
        assert(!front.contains(page)) by {
            if front.contains(page) {
                assert(pages[front.index_of(page)] == page);
            }
        }
        dropped_absent(front, page);
        assert(front.push(pages.last()) =~= pages);
    }
}

proof fn dropped_front(page: u32, rest: Seq<u32>)
    ensures
        dropped(seq![page] + rest, page) == dropped(rest, page),
    decreases rest.len(),
{
    let all = seq![page] + rest;
    if rest.len() == 0 {
        assert(all.drop_last() =~= Seq::<u32>::empty());
        assert(rest =~= Seq::<u32>::empty());
    } else {
        dropped_front(page, rest.drop_last());
        assert(all.drop_last() =~= seq![page] + rest.drop_last());
    }
}

proof fn place_is_found(pages: Seq<u32>, page: u32, i: int)
    requires
        0 <= i <= pages.len(),
        pages.len() <= usize::MAX,
    ensures
        match place_from(pages, page, i) {
            Some(k) => i <= k < pages.len() && pages[k as int] == page,
            None => forall|j: int| i <= j < pages.len() ==> pages[j] != page,
        },
    decreases pages.len() - i,
{
    if i < pages.len() && pages[i] != page {
        place_is_found(pages, page, i + 1);
    }
}

/// Presenting a host the way it already is does nothing.
pub proof fn presenting_again_is_nothing(host: u32, v: NavView)
    ensures
        presented(v, v.presentation) == v,
        present_acts(host, v, v.presentation) == Seq::<SpecAct>::empty(),
{
}

/// Presenting a host another way keeps its pages: the same ones, but for the sidebar page, which
/// is a page of a stack and of nothing else.
pub proof fn presenting_keeps_the_pages(v: NavView, next: NavPresentation, page: u32)
    requires
        v.presentation != next,
    ensures
        presented(v, next).sidebar == v.sidebar,
        presented(v, next).titles == v.titles,
        v.sidebar != Some(page) ==> (presented(v, next).pages.contains(page)
            <==> v.pages.contains(page)),
        v.sidebar == Some(page) ==> (presented(v, next).pages.contains(page) <==> next
            == NavPresentation::Stack),
{
    match v.sidebar {
        Some(side) => {
            dropped_members(v.pages, side);
            let d = dropped(v.pages, side);
            let all = seq![side] + d;
            if d.contains(page) {
                assert(all[d.index_of(page) + 1] == page);
            }
            if page == side {
                assert(all[0] == page);
                assert(!d.contains(page));
            }
            if all.contains(page) && page != side {
                let k = all.index_of(page);
                assert(d[k - 1] == page);
            }
        },
        None => {},
    }
}

/// The page the user looks at stays the page the user looks at, as long as it is still a page
/// of the host.
pub proof fn presenting_keeps_the_shown_page(v: NavView, next: NavPresentation)
    requires
        v.selected < v.pages.len(),
        v.pages.len() < usize::MAX,
        v.sidebar != Some(v.pages[v.selected as int]) || next == NavPresentation::Stack,
    ensures
        ({
            let w = presented(v, next);
            w.selected < w.pages.len() && w.pages[w.selected as int] == v.pages[v.selected as int]
        }),
{
    let shown = v.pages[v.selected as int];
    if v.presentation != next {
        presenting_keeps_the_pages(v, next, shown);
        let pages = rearranged(v, next);
        assert(v.pages.contains(shown));
        assert(pages.contains(shown));
        if v.sidebar is Some {
            dropped_members(v.pages, v.sidebar->0);
        }
        place_is_found(pages, shown, 0);
        assert(pages[pages.index_of(shown)] == shown);
    }
}

/// A host with pages always shows one of them after it is presented another way.
pub proof fn presenting_shows_a_page(v: NavView, next: NavPresentation)
    requires
        v.presentation != next,
        v.pages.len() < usize::MAX,
        presented(v, next).pages.len() > 0,
    ensures
        presented(v, next).selected < presented(v, next).pages.len(),
{
    let pages = rearranged(v, next);
    if v.sidebar is Some {
        dropped_members(v.pages, v.sidebar->0);
    }
    if v.selected < v.pages.len() {
        place_is_found(pages, v.pages[v.selected as int], 0);
    }
}

/// How an element is displayed once some calls were made: by the last of them that says so.
pub open spec fn displayed(calls: Seq<SpecAct>, el: u32) -> Option<Seq<char>>
    decreases calls.len(),
{
    if calls.len() == 0 {
        None
    } else {
        match calls.last() {
            Act::Style(El::Own(e), name, value) => if e == el && name == "display"@ {
                Some(value)
            } else {
                displayed(calls.drop_last(), el)
            },
            _ => displayed(calls.drop_last(), el),
        }
    }
}

proof fn later_calls_decide(before: Seq<SpecAct>, calls: Seq<SpecAct>, el: u32)
    ensures
        displayed(calls, el) is Some ==> displayed(before + calls, el) == displayed(calls, el),
    decreases calls.len(),
{
    if calls.len() > 0 {
        later_calls_decide(before, calls.drop_last(), el);
        assert((before + calls).drop_last() =~= before + calls.drop_last());
        assert((before + calls).last() == calls.last());
    }
}

proof fn rehomed_pages(host: u32, pages: Seq<u32>, shown: usize, n: int, i: int)
    requires
        0 <= i < n <= pages.len(),
        pages.no_duplicates(),
    ensures
        displayed(rehomed(host, pages, shown, n), pages[i]) == Some(
            if i == shown {
                "block"@
            } else {
                "none"@
            },
        ),
    decreases n,
{
    let before = rehomed(host, pages, shown, n - 1);
    let put: SpecAct = Act::NavAddPage { nav: host, page: pages[n - 1], chrome: false };
    let all = rehomed(host, pages, shown, n);
    assert(all.drop_last() =~= before.push(put));
    assert(before.push(put).drop_last() =~= before);
    if i < n - 1 {
        rehomed_pages(host, pages, shown, n - 1, i);
        assert(pages[i] != pages[n - 1]);
        assert(displayed(before.push(put), pages[i]) == displayed(before, pages[i]));
    }
}

proof fn dropped_apart(pages: Seq<u32>, page: u32)
    requires
        pages.no_duplicates(),
    ensures
        dropped(pages, page).no_duplicates(),
    decreases pages.len(),
{
    if pages.len() > 0 {
        let d = dropped(pages.drop_last(), page);
        dropped_apart(pages.drop_last(), page);
        dropped_members(pages.drop_last(), page);
        if d.contains(pages.last()) {
            let k = pages.drop_last().index_of(pages.last());
            assert(pages[k] == pages[pages.len() - 1]);
        }
        assert forall|i: int, j: int|
            0 <= i < d.len() && 0 <= j < d.len() && i != j implies d[i] != d[j] by {}
        assert forall|i: int| 0 <= i < d.len() implies d[i] != pages.last() by {
            assert(d.contains(d[i]));
        }
    }
}

proof fn rearranged_apart(v: NavView, next: NavPresentation)
    requires
        v.pages.no_duplicates(),
    ensures
        rearranged(v, next).no_duplicates(),
{
    match v.sidebar {
        Some(side) => {
            let d = dropped(v.pages, side);
            dropped_apart(v.pages, side);
            dropped_members(v.pages, side);
            assert forall|i: int| 0 <= i < d.len() implies d[i] != side by {
                assert(d.contains(d[i]));
            }
            let all = seq![side] + d;
            assert forall|i: int, j: int|
                0 <= i < all.len() && 0 <= j < all.len() && i != j implies all[i] != all[j] by {
                if i > 0 && j > 0 {
                    assert(d[i - 1] != d[j - 1]);
                }
            }
        },
        None => {},
    }
}

/// Presenting a host another way keeps the page on screen by what it is and not by its place:
/// where it is still a page it is the selected one, else the last page is; and of the pages the
/// selected one is displayed and every other one is hidden.
pub proof fn presenting_shows_one_page(host: u32, v: NavView, next: NavPresentation)
    requires
        v.presentation != next,
        v.selected < v.pages.len() < usize::MAX,
        v.pages.no_duplicates(),
        rearranged(v, next).len() > 0,
    ensures
        ({
            let w = presented(v, next);
            let shown = v.pages[v.selected as int];
            &&& w.pages == rearranged(v, next)
            &&& w.selected < w.pages.len()
            &&& w.pages.contains(shown) ==> w.pages[w.selected as int] == shown
            &&& !w.pages.contains(shown) ==> w.selected == w.pages.len() - 1
            &&& forall|i: int|
                0 <= i < w.pages.len() ==> displayed(
                    present_acts(host, v, next),
                    #[trigger] w.pages[i],
                ) == Some(
                    if i == w.selected {
                        "block"@
                    } else {
                        "none"@
                    },
                )
        }),
{
    let w = presented(v, next);
    let shown = v.pages[v.selected as int];
    if v.sidebar is Some {
        dropped_members(v.pages, v.sidebar->0);
    }
    rearranged_apart(v, next);
    place_is_found(w.pages, shown, 0);
    let n = w.pages.len() as int;
    let start: Seq<SpecAct> = seq![Act::NavPresent { el: host, mode: mode(next) }];
    let before = start + chrome_page(host, v, next);
    let homes = rehomed(host, w.pages, w.selected, n);
    let all = present_acts(host, v, next);
    assert(all.drop_last() =~= before + homes);
    assert forall|i: int| 0 <= i < n implies displayed(all, #[trigger] w.pages[i]) == Some(
        if i == w.selected {
            "block"@
        } else {
            "none"@
        },
    ) by {
        rehomed_pages(host, w.pages, w.selected, n, i);
        later_calls_decide(before, homes, w.pages[i]);
    }
}

/// Going to a stack and back leaves the pages as they were.
pub proof fn a_stack_and_back_keeps_the_pages(v: NavView, home: NavPresentation)
    requires
        v.presentation == home,
        home != NavPresentation::Stack,
        v.sidebar matches Some(side) ==> !v.pages.contains(side),
    ensures
        presented(presented(v, NavPresentation::Stack), home).pages == v.pages,
{
    match v.sidebar {
        Some(side) => {
            dropped_absent(v.pages, side);
            dropped_front(side, v.pages);
        },
        None => {},
    }
}

/// A page that is removed is gone, and the place of the shown page is one of the pages left.
pub proof fn removing_leaves_a_shown_page(v: NavView, page: u32)
    ensures
        !page_removed(v, page).pages.contains(page),
        page_removed(v, page).pages.len() > 0 && v.pages.len() <= usize::MAX ==> page_removed(
            v,
            page,
        ).selected < page_removed(v, page).pages.len(),
{
    dropped_members(v.pages, page);
}

/// A page pushed onto a stack and popped off again leaves the titles as they were.
pub proof fn popping_undoes_the_title(v: NavView, title: String)
    requires
        v.titles.len() > 0,
    ensures
        patched(patched(v, NavPatch::Pushed { title }), NavPatch::Popped).titles == v.titles,
{
    assert(v.titles.push(title@).drop_last() =~= v.titles);
}

// ---- code --------------------------------------------------------------------------------------

fn drop_page(pages: &Vec<u32>, page: u32) -> (out: Vec<u32>)
    ensures
        out@ == dropped(pages@, page),
{
    let mut out: Vec<u32> = Vec::new();
    let mut i: usize = 0;
    while i < pages.len()
        invariant
            i <= pages.len(),
            out@ == dropped(pages@.take(i as int), page),
        decreases pages.len() - i,
    {
        if pages[i] != page {
            out.push(pages[i]);
        }
        proof {
            assert(pages@.take(i + 1).drop_last() =~= pages@.take(i as int));
        }
        i = i + 1;
    }
    assert(pages@.take(pages.len() as int) =~= pages@);
    out
}

fn place_of(pages: &Vec<u32>, page: u32) -> (r: Option<usize>)
    ensures
        r == place_from(pages@, page, 0),
{
    let mut i: usize = 0;
    while i < pages.len()
        invariant
            i <= pages.len(),
            place_from(pages@, page, 0) == place_from(pages@, page, i as int),
        decreases pages.len() - i,
    {
        if pages[i] == page {
            return Some(i);
        }
        i = i + 1;
    }
    None
}

fn display_word(on: bool) -> (s: &'static str)
    ensures
        s@ == (if on {
            "block"@
        } else {
            "none"@
        }),
{
    if on {
        "block"
    } else {
        "none"
    }
}

impl NavState {
    /// A host without pages.
    pub fn new(presentation: NavPresentation, title: &str) -> (s: NavState)
        ensures
            s@ == (NavView {
                presentation,
                pages: Seq::empty(),
                sidebar: None,
                titles: seq![title@],
                selected: 0,
            }),
    {
        let mut titles: Vec<String> = Vec::new();
        titles.push(owned(title));
        assert(texts(titles@) =~= seq![title@]);
        NavState { presentation, pages: Vec::new(), sidebar: None, titles, selected: 0 }
    }

    fn show(&self, shown: usize, out: &mut Vec<DomAct>)
        ensures
            acts(final(out)@) == acts(old(out)@) + display(
                self@.pages,
                shown,
                self@.pages.len() as int,
            ),
    {
        let ghost start = acts(out@);
        let mut i: usize = 0;
        proof {
            assert(start =~= start + display(self@.pages, shown, 0));
        }
        while i < self.pages.len()
            invariant
                i <= self.pages.len(),
                acts(out@) == start + display(self@.pages, shown, i as int),
            decreases self.pages.len() - i,
        {
            style(out, El::Own(self.pages[i]), "display", display_word(i == shown));
            proof {
                assert(acts(out@) =~= start + display(self@.pages, shown, i + 1));
            }
            i = i + 1;
        }
    }

    /// The back bar as the host stands, with `depth` pages on the stack.
    fn sync_back_bar(&self, host: u32, depth: usize, out: &mut Vec<DomAct>)
        ensures
            acts(final(out)@) == acts(old(out)@).push(back_bar(host, self@, depth as int)),
    {
        let visible = self.presentation == NavPresentation::Stack && depth >= 1
            && self.titles.len() > 1;
        let title: String = if self.titles.len() > 0 {
            owned(self.titles[self.titles.len() - 1].as_str())
        } else {
            owned("")
        };
        act(out, Act::NavBackBar { nav: host, visible, title });
    }

    /// Takes a page in.
    pub fn add_page(&mut self, host: u32, page: u32, sidebar: bool) -> (out: Vec<DomAct>)
        ensures
            final(self)@ == page_added(old(self)@, page, sidebar),
            acts(out@) == seq![
                Act::<Seq<char>, crate::model::SpecEvent>::NavAddPage {
                    nav: host,
                    page,
                    chrome: sidebar && old(self)@.presentation != NavPresentation::Stack,
                },
            ],
    {
        if sidebar {
            self.sidebar = Some(page);
        }
        let chrome = sidebar && self.presentation != NavPresentation::Stack;
        let mut out: Vec<DomAct> = Vec::new();
        act(&mut out, Act::NavAddPage { nav: host, page, chrome });
        if !chrome {
            self.pages.push(page);
        }
        proof {
            assert(acts(out@) =~= seq![
                Act::<Seq<char>, crate::model::SpecEvent>::NavAddPage {
                    nav: host,
                    page,
                    chrome: sidebar && old(self)@.presentation != NavPresentation::Stack,
                },
            ]);
        }
        out
    }

    /// Lets a page go.
    pub fn remove_page(&mut self, page: u32)
        ensures
            final(self)@ == page_removed(old(self)@, page),
    {
        self.pages = drop_page(&self.pages, page);
        let top: usize = if self.pages.len() > 0 {
            self.pages.len() - 1
        } else {
            0
        };
        if self.selected >= top {
            self.selected = top;
        }
    }

    /// Presents the host another way.
    pub fn present(&mut self, host: u32, next: NavPresentation) -> (out: Vec<DomAct>)
        ensures
            final(self)@ == presented(old(self)@, next),
            acts(out@) == present_acts(host, old(self)@, next),
    {
        let ghost v = self@;
        let mut out: Vec<DomAct> = Vec::new();
        if self.presentation == next {
            proof {
                assert(acts(out@) =~= Seq::<SpecAct>::empty());
            }
            return out;
        }
        let shown_page: Option<u32> = if self.selected < self.pages.len() {
            Some(self.pages[self.selected])
        } else {
            None
        };
        let mut pages: Vec<u32> = Vec::new();
        std::mem::swap(&mut pages, &mut self.pages);
        match self.sidebar {
            Some(side) => {
                pages = drop_page(&pages, side);
                if next == NavPresentation::Stack {
                    pages.insert(0, side);
                    proof {
                        assert(pages@ =~= seq![side] + dropped(v.pages, side));
                    }
                }
            },
            None => {},
        }
        act(&mut out, Act::NavPresent { el: host, mode: nav_mode(next) });
        match self.sidebar {
            Some(side) => {
                if next != NavPresentation::Stack {
                    act(&mut out, Act::NavAddPage { nav: host, page: side, chrome: true });
                    style(&mut out, El::Own(side), "display", "block");
                }
            },
            None => {},
        }
        let found: Option<usize> = match shown_page {
            Some(p) => place_of(&pages, p),
            None => None,
        };
        let shown: usize = match found {
            Some(i) => i,
            None => if pages.len() > 0 {
                pages.len() - 1
            } else {
                0
            },
        };
        let ghost start = acts(out@);
        proof {
            let first: Seq<SpecAct> = seq![Act::NavPresent { el: host, mode: mode(next) }];
            assert(start =~= first + chrome_page(host, v, next));
            assert(start =~= start + rehomed(host, pages@, shown, 0));
        }
        let mut i: usize = 0;
        while i < pages.len()
            invariant
                i <= pages.len(),
                acts(out@) == start + rehomed(host, pages@, shown, i as int),
            decreases pages.len() - i,
        {
            act(&mut out, Act::NavAddPage { nav: host, page: pages[i], chrome: false });
            style(&mut out, El::Own(pages[i]), "display", display_word(i == shown));
            proof {
                assert(acts(out@) =~= start + rehomed(host, pages@, shown, i + 1));
            }
            i = i + 1;
        }
        self.presentation = next;
        self.pages = pages;
        self.selected = shown;
        self.sync_back_bar(host, self.pages.len(), &mut out);
        out
    }

    /// A patch arrives.
    pub fn patch(&mut self, host: u32, p: &NavPatch) -> (out: Vec<DomAct>)
        ensures
            final(self)@ == patched(old(self)@, *p),
            acts(out@) == patch_acts(host, old(self)@, *p),
    {
        let ghost v = self@;
        let mut out: Vec<DomAct> = Vec::new();
        proof {
            assert(acts(out@) =~= Seq::<SpecAct>::empty());
        }
        match p {
            NavPatch::Presentation(next) => {
                return self.present(host, *next);
            },
            NavPatch::Select(i) => {
                self.selected = *i;
                self.show(*i, &mut out);
                proof {
                    assert(acts(out@) =~= display(v.pages, *i, v.pages.len() as int));
                }
                self.sync_back_bar(host, self.pages.len(), &mut out);
            },
            NavPatch::Pushed { title } => {
                self.titles.push(owned(title.as_str()));
                let last: usize = if self.pages.len() > 0 {
                    self.pages.len() - 1
                } else {
                    0
                };
                self.selected = last;
                self.show(last, &mut out);
                proof {
                    assert(texts(self.titles@) =~= v.titles.push(title@));
                    assert(acts(out@) =~= display(v.pages, last, v.pages.len() as int));
                }
                self.sync_back_bar(host, self.pages.len(), &mut out);
            },
            NavPatch::Popped => {
                if self.titles.len() > 1 {
                    self.titles.pop();
                    proof {
                        assert(texts(self.titles@) =~= v.titles.drop_last());
                    }
                }
                let n: usize = self.pages.len();
                if n > 0 {
                    style(&mut out, El::Own(self.pages[n - 1]), "display", "none");
                }
                if n >= 2 {
                    style(&mut out, El::Own(self.pages[n - 2]), "display", "block");
                }
                proof {
                    assert(acts(out@) =~= popped(v.pages));
                }
                self.selected = if n >= 2 {
                    n - 2
                } else {
                    0
                };
                self.sync_back_bar(
                    host,
                    if n > 0 {
                        n - 1
                    } else {
                        0
                    },
                    &mut out,
                );
            },
            NavPatch::Title(t) => {
                if self.titles.len() > 0 {
                    let at: usize = self.titles.len() - 1;
                    self.titles.set(at, owned(t.as_str()));
                    proof {
                        assert(texts(self.titles@) =~= v.titles.update(v.titles.len() - 1, t@));
                    }
                }
                self.sync_back_bar(host, self.pages.len(), &mut out);
                proof {
                    assert(acts(out@) =~= seq![back_bar(host, self@, v.pages.len() as int)]);
                }
            },
            _ => {},
        }
        out
    }
}

} // verus!
