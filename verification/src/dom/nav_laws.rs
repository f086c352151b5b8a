//! What a navigation host shows and says after each thing that is done to it: which page is on
//! screen, what the back bar says, and which pages there are.
use crate::dom::act::{Act, El, SpecAct};
use crate::dom::nav::{
    back_bar, display, displayed, dropped, mode, page_added, page_removed, patch_acts, patched,
    popped, presented, rearranged, NavView,
};
use crate::model::{NavPatch, NavPresentation};
use vstd::prelude::*;

verus! {

proof fn display_shows_one(pages: Seq<u32>, shown: usize, n: int, i: int)
    requires
        0 <= i < n <= pages.len(),
        pages.no_duplicates(),
    ensures
        displayed(display(pages, shown, n), pages[i]) == Some(
            if i == shown {
                "block"@
            } else {
                "none"@
            },
        ),
    decreases n,
{
    let all = display(pages, shown, n);
    assert(all.drop_last() =~= display(pages, shown, n - 1));
    if i < n - 1 {
        display_shows_one(pages, shown, n - 1, i);
        assert(pages[i] != pages[n - 1]);
    }
}

proof fn the_bar_displays_nothing(calls: Seq<SpecAct>, host: u32, v: NavView, depth: int, el: u32)
    ensures
        displayed(calls.push(back_bar(host, v, depth)), el) == displayed(calls, el),
{
    assert(calls.push(back_bar(host, v, depth)).drop_last() =~= calls);
}

/// Selecting a page puts it on screen and hides every other, and it is the selected one.
pub proof fn selecting_shows_the_page(host: u32, v: NavView, at: usize, i: int)
    requires
        v.pages.no_duplicates(),
        0 <= i < v.pages.len(),
    ensures
        ({
            let calls = patch_acts(host, v, NavPatch::Select(at));
            let w = patched(v, NavPatch::Select(at));
            &&& i == at ==> displayed(calls, v.pages[i]) == Some("block"@)
            &&& i != at ==> displayed(calls, v.pages[i]) == Some("none"@)
            &&& w.selected == at
            &&& w.pages == v.pages && w.titles == v.titles && w.sidebar == v.sidebar
            &&& w.presentation == v.presentation
        }),
{
    let n = v.pages.len() as int;
    let w = patched(v, NavPatch::Select(at));
    display_shows_one(v.pages, at, n, i);
    the_bar_displays_nothing(display(v.pages, at, n), host, w, n, v.pages[i]);
}

/// Pushing shows the page on top and hides the others. The new title is the last one and stands in
/// the back bar, which a stack shows from its second title on and no other host shows.
pub proof fn a_push_shows_the_top(host: u32, v: NavView, title: String, i: int)
    requires
        v.pages.no_duplicates(),
        0 <= i < v.pages.len() <= usize::MAX,
    ensures
        ({
            let p = NavPatch::Pushed { title };
            let calls = patch_acts(host, v, p);
            let w = patched(v, p);
            &&& i == v.pages.len() - 1 ==> displayed(calls, v.pages[i]) == Some("block"@)
            &&& i < v.pages.len() - 1 ==> displayed(calls, v.pages[i]) == Some("none"@)
            &&& w.titles == v.titles + seq![title@]
            &&& w.selected == v.pages.len() - 1
            &&& w.pages == v.pages && w.sidebar == v.sidebar && w.presentation == v.presentation
            &&& calls.last() == SpecAct::NavBackBar {
                nav: host,
                visible: v.presentation == NavPresentation::Stack && v.titles.len() >= 1,
                title: title@,
            }
        }),
{
    let p = NavPatch::Pushed { title };
    let n = v.pages.len() as int;
    let w = patched(v, p);
    display_shows_one(v.pages, (n - 1) as usize, n, i);
    the_bar_displays_nothing(display(v.pages, (n - 1) as usize, n), host, w, n, v.pages[i]);
    assert(w.titles =~= v.titles + seq![title@]);
}

/// Popping hides the page on top and shows the one below it. The last title goes, but for the
/// first, and the one before it stands in the back bar, which a stack shows as long as there is
/// a page above its root.
pub proof fn a_pop_shows_the_page_below(host: u32, v: NavView)
    requires
        v.pages.no_duplicates(),
        2 <= v.pages.len() <= usize::MAX,
        v.titles.len() > 1,
    ensures
        ({
            let calls = patch_acts(host, v, NavPatch::Popped);
            let w = patched(v, NavPatch::Popped);
            let n = v.pages.len() as int;
            &&& displayed(calls, v.pages[n - 1]) == Some("none"@)
            &&& displayed(calls, v.pages[n - 2]) == Some("block"@)
            &&& forall|el: u32|
                el != v.pages[n - 1] && el != v.pages[n - 2] ==> #[trigger] displayed(calls, el)
                    is None
            &&& w.selected == n - 2
            &&& w.titles == v.titles.take(v.titles.len() - 1)
            &&& calls.last() == SpecAct::NavBackBar {
                nav: host,
                visible: v.presentation == NavPresentation::Stack && v.titles.len() > 2,
                title: v.titles[v.titles.len() - 2],
            }
        }),
{
    let n = v.pages.len() as int;
    let w = patched(v, NavPatch::Popped);
    let two = popped(v.pages);
    let (top, below) = (v.pages[n - 1], v.pages[n - 2]);
    assert(top != below);
    let first: Seq<SpecAct> = seq![Act::Style(El::Own(top), "display"@, "none"@)];
    assert(two.drop_last() =~= first);
    assert(first.drop_last() =~= Seq::<SpecAct>::empty());
    let bar = back_bar(host, w, n - 1);
    assert(two.push(bar).drop_last() =~= two);
    assert(displayed(two, below) == Some("block"@));
    assert(displayed(first, top) == Some("none"@));
    assert(displayed(two, top) == displayed(first, top));
    assert forall|el: u32| el != top && el != below implies #[trigger] displayed(
        patch_acts(host, v, NavPatch::Popped),
        el,
    ) is None by {
        assert(displayed(Seq::<SpecAct>::empty(), el) is None);
        assert(displayed(first, el) is None);
        assert(displayed(two, el) == displayed(first, el));
    }
}

/// A new title takes the place of the last one and stands in the back bar; no page is shown or
/// hidden.
pub proof fn a_title_is_renamed(host: u32, v: NavView, t: String, el: u32)
    requires
        v.titles.len() > 0,
    ensures
        ({
            let calls = patch_acts(host, v, NavPatch::Title(t));
            let w = patched(v, NavPatch::Title(t));
            &&& w.titles.len() == v.titles.len()
            &&& w.titles.last() == t@
            &&& forall|i: int|
                0 <= i < v.titles.len() - 1 ==> #[trigger] w.titles[i] == v.titles[i]
            &&& w.pages == v.pages && w.selected == v.selected
            &&& calls == seq![
                SpecAct::NavBackBar {
                    nav: host,
                    visible: v.presentation == NavPresentation::Stack && v.pages.len() >= 1
                        && v.titles.len() > 1,
                    title: t@,
                },
            ]
            &&& displayed(calls, el) is None
        }),
{
    let calls = patch_acts(host, v, NavPatch::Title(t));
    assert(calls.drop_last() =~= Seq::<SpecAct>::empty());
    assert(displayed(Seq::<SpecAct>::empty(), el) is None);
}

/// A page that is added is the last one, unless it is the sidebar's and the host is no stack: then
/// it goes to the chrome. The sidebar's page is known as that either way.
pub proof fn an_added_page_is_last(v: NavView, page: u32, sidebar: bool)
    ensures
        ({
            let w = page_added(v, page, sidebar);
            let chrome = sidebar && v.presentation != NavPresentation::Stack;
            &&& chrome ==> w.pages == v.pages
            &&& !chrome ==> w.pages == v.pages + seq![page]
            &&& sidebar ==> w.sidebar == Some(page)
            &&& !sidebar ==> w.sidebar == v.sidebar
            &&& w.titles == v.titles && w.selected == v.selected
            &&& w.presentation == v.presentation
        }),
{
    let w = page_added(v, page, sidebar);
    if !(sidebar && v.presentation != NavPresentation::Stack) {
        assert(w.pages =~= v.pages + seq![page]);
    }
}

proof fn dropped_keeps_order(pages: Seq<u32>, page: u32, at: int)
    requires
        pages.no_duplicates(),
        0 <= at < pages.len(),
        pages[at] == page,
    ensures
        dropped(pages, page) == pages.take(at) + pages.skip(at + 1),
    decreases pages.len(),
{
    let front = pages.drop_last();
    if at == pages.len() - 1 {
        dropped_absent(front, page);
        assert(front =~= pages.take(at) + pages.skip(at + 1));
    } else {
        assert(front.no_duplicates());
        dropped_keeps_order(front, page, at);
        assert(pages.last() != page);
        assert(dropped(pages, page) =~= pages.take(at) + pages.skip(at + 1));
    }
}

proof fn dropped_absent(pages: Seq<u32>, page: u32)
    requires
        forall|i: int| 0 <= i < pages.len() ==> pages[i] != page,
    ensures
        dropped(pages, page) == pages,
    decreases pages.len(),
{
    if pages.len() > 0 {
        dropped_absent(pages.drop_last(), page);
        assert(pages.drop_last().push(pages.last()) =~= pages);
    }
}

/// A page that is removed is gone, and the others keep their order; where the selected place is
/// past the last page it is the last one.
pub proof fn a_removed_page_is_gone(v: NavView, at: int)
    requires
        v.pages.no_duplicates(),
        0 <= at < v.pages.len() <= usize::MAX,
    ensures
        ({
            let w = page_removed(v, v.pages[at]);
            let n = v.pages.len() as int;
            &&& w.pages == v.pages.take(at) + v.pages.skip(at + 1)
            &&& v.selected + 1 < n ==> w.selected == v.selected
            &&& v.selected + 1 >= n ==> w.selected == if n >= 2 {
                n - 2
            } else {
                0
            }
            &&& w.titles == v.titles && w.presentation == v.presentation
        }),
{
    dropped_keeps_order(v.pages, v.pages[at], at);
    assert((v.pages.take(at) + v.pages.skip(at + 1)).len() == v.pages.len() - 1);
}

/// The sidebar's page heads the pages of a stack and is none of them otherwise; without a sidebar
/// the pages stay as they are.
pub proof fn the_sidebar_heads_a_stack(v: NavView, next: NavPresentation)
    ensures
        v.sidebar is None ==> rearranged(v, next) == v.pages,
        v.sidebar matches Some(side) ==> next == NavPresentation::Stack ==> rearranged(v, next).len()
            > 0 && rearranged(v, next)[0] == side,
        v.presentation != next ==> presented(v, next).presentation == next && presented(
            v,
            next,
        ).pages == rearranged(v, next) && presented(v, next).titles == v.titles,
        v.presentation == next ==> presented(v, next) == v,
{
}

/// The shim's numbers for the four presentations.
pub proof fn presentations_are_numbered()
    ensures
        mode(NavPresentation::Split) == 0,
        mode(NavPresentation::Stack) == 1,
        mode(NavPresentation::Tabs) == 2,
        mode(NavPresentation::Rail) == 3,
{
}

} // verus!
