//! How a suite lays its pages out, how its bar and the rows of a menu look, and what is read of a
//! manifest of fonts.
use crate::arkui::act::{Act, SpecAct};
use crate::arkui::manifest::{
    a_value_reads_back, entry, escaped, found_at, names_family, place_of, unescaped, value_after,
    value_end, with_bundled,
};
use crate::arkui::menu::{
    bar_cell, bar_cells, bar_kinds, bar_label, entry_acts, glyph, picture, row_acts, row_kinds,
    row_texts, rows_kinds,
};
use crate::arkui::realize::{menu_built, menu_kinds, realized};
use crate::arkui::state::ArkView;
use crate::arkui::suite::{
    bar_tint, cleared_acts, joined, joined_acts, layout_acts, sized_acts, told_acts, BarCell,
    SuiteView,
};
use crate::arkui::update::{menu_updated, patch_kinds};
use crate::dom::css::listed;
use crate::model::{Event, Length, NavPresentation, Size, Target};
use crate::num::Num;
use crate::pieces::{MenuRows, NavMenuPatch, Patch, Piece};
use crate::text::first_of;
use vstd::prelude::*;

verus! {

/// A bar's entry is blue where it is selected and a pale black or white where it is not, lighter
/// in the dark.
pub proof fn the_bar_has_its_colors()
    ensures
        bar_tint(false, true) == 0xFF00_7DFFu32,
        bar_tint(true, true) == 0xFF3E_9BFFu32,
        bar_tint(false, false) == 0x9900_0000u32,
        bar_tint(true, false) == 0x99FF_FFFFu32,
{
}

/// A suite of a size gives its pages' holder and each page the page size and its bar the whole
/// width and the bar's height; then each page's node is told the page size, page by page.
pub proof fn a_suite_lays_out_its_pages(v: SuiteView, size: Size, page: Size, k: int)
    requires
        0 <= k < v.items.len(),
    ensures
        ({
            let made = layout_acts(v, size, page);
            let n = v.items.len();
            &&& made.len() == 2 + 2 * n
            &&& made[0] == (SpecAct::Resize {
                node: v.pages,
                width: Length::Given(page.width),
                height: Length::Given(page.height),
            })
            &&& made[1] == (SpecAct::Resize {
                node: v.bar,
                width: Length::Given(size.width),
                height: Length::Whole(56),
            })
            &&& made[2 + k] == (SpecAct::Resize {
                node: v.items[k].0,
                width: Length::Given(page.width),
                height: Length::Given(page.height),
            })
            &&& made[2 + n + k] == (SpecAct::Emit {
                to: Target::Node(v.items[k].1),
                event: Event::FrameChanged(page),
            })
        }),
{
    sized_up_to(v, page, v.items.len() as int, k);
    told_up_to(v, page, v.items.len() as int, k);
}

proof fn sized_up_to(v: SuiteView, page: Size, n: int, k: int)
    requires
        0 <= n <= v.items.len(),
    ensures
        sized_acts(v.items, page, n).len() == n,
        0 <= k < n ==> sized_acts(v.items, page, n)[k] == (SpecAct::Resize {
            node: v.items[k].0,
            width: Length::Given(page.width),
            height: Length::Given(page.height),
        }),
    decreases n,
{
    if n > 0 {
        sized_up_to(v, page, n - 1, k);
    }
}

proof fn told_up_to(v: SuiteView, page: Size, n: int, k: int)
    requires
        0 <= n <= v.items.len(),
    ensures
        told_acts(v.items, page, n).len() == n,
        0 <= k < n ==> told_acts(v.items, page, n)[k] == (SpecAct::Emit {
            to: Target::Node(v.items[k].1),
            event: Event::FrameChanged(page),
        }),
    decreases n,
{
    if n > 0 {
        told_up_to(v, page, n - 1, k);
    }
}

/// A page joins at its index, at the page size; the first place is the rail's, which is no page
/// and never shows. Of the pages the first to join shows.
pub proof fn a_page_joins_a_suite(v: SuiteView, child: u64, id: u64, index: usize)
    ensures
        joined_acts(v, child, index) == seq![
            SpecAct::Insert { parent: v.pages, child, index },
            Act::Resize {
                node: child,
                width: Length::Given(v.page_size.width),
                height: Length::Given(v.page_size.height),
            },
            Act::Visible { node: child, on: index != 0 && v.items.len() == 0 },
        ],
        index == 0 ==> joined(v, child, id, index) == v,
        index > 0 ==> joined(v, child, id, index).items == v.items.push((child, id)),
{
}

/// A bar that is emptied loses each of its cells.
pub proof fn an_emptied_bar_loses_its_cells(bar: u64, cells: Seq<BarCell>, n: int, k: int)
    requires
        0 <= n <= cells.len(),
    ensures
        cleared_acts(bar, cells, n).len() == n,
        0 <= k < n ==> cleared_acts(bar, cells, n)[k] == (SpecAct::Remove {
            parent: bar,
            child: cells[k].node,
        }),
    decreases n,
{
    if n > 0 {
        an_emptied_bar_loses_its_cells(bar, cells, n - 1, k);
    }
}

/// A picture is filled where it is a vector and a color is given; a raster never is.
pub proof fn a_vector_is_filled(node: u64, name: Seq<char>, argb: u32, vectors: Seq<String>)
    ensures
        ({
            let vector = exists|i: int| 0 <= i < vectors.len() && (#[trigger] vectors[i])@ == name;
            let svg = "resource://RAWFILE/day/"@ + name + ".svg"@;
            let png = "resource://RAWFILE/day/"@ + name + ".png"@;
            &&& vector ==> picture(node, name, Some(argb), vectors) == seq![
                SpecAct::ImageSource { node, src: svg },
                Act::ImageFill { node, argb },
            ]
            &&& vector ==> picture(node, name, None, vectors) == seq![
                SpecAct::ImageSource { node, src: svg },
            ]
            &&& !vector ==> picture(node, name, Some(argb), vectors) == seq![
                SpecAct::ImageSource { node, src: png },
            ]
        }),
{
    assert(listed(vectors, name) == exists|i: int|
        0 <= i < vectors.len() && (#[trigger] vectors[i])@ == name);
}

/// A row of a menu without pictures: its title, which takes the room there is, and an arrow behind
/// it, clicks reported under the row's number; and a line below it where another row follows.
pub proof fn a_plain_row_is_built(
    dark: bool,
    r: MenuRows,
    i: int,
    col: u64,
    nodes: Seq<u64>,
    p: int,
    click: u64,
    vectors: Seq<String>,
)
    requires
        0 <= i < r.items@.len() <= 0x1000_0000,
        r.icons@.len() == 0,
        r.badge_icons@.len() == 0,
    ensures
        ({
            let made = row_acts(dark, r, i, col, nodes, p, click, vectors);
            let (row, label, arrow, line) = (nodes[p], nodes[p + 1], nodes[p + 2], nodes[p + 3]);
            let body = seq![
                SpecAct::Text { node: label, text: r.items@[i]@ },
                Act::FontSize { node: label, size: Length::Whole(16) },
                Act::FontColor {
                    node: label,
                    argb: if dark {
                        0xE6FF_FFFF
                    } else {
                        0xE500_0000
                    },
                },
                Act::Grow { node: label },
                Act::Text { node: arrow, text: "\u{203a}"@ },
                Act::FontSize { node: arrow, size: Length::Whole(20) },
                Act::FontColor {
                    node: arrow,
                    argb: if dark {
                        0x66FF_FFFF
                    } else {
                        0x4D00_0000
                    },
                },
                Act::Insert { parent: row, child: label, index: 0 },
                Act::Insert { parent: row, child: arrow, index: 1 },
                Act::StyleRow { node: row, height: 52 },
                Act::Register { node: row, kind: 0, id: click },
                Act::Insert { parent: col, child: row, index: (2 * i) as usize },
            ];
            &&& i + 1 == r.items@.len() ==> made == body
            &&& i + 1 < r.items@.len() ==> made == body + seq![
                SpecAct::Separator {
                    node: line,
                    argb: if dark {
                        0x24FF_FFFF
                    } else {
                        0x1400_0000
                    },
                },
                Act::Insert { parent: col, child: line, index: (2 * i + 1) as usize },
            ]
        }),
{
    let made = row_acts(dark, r, i, col, nodes, p, click, vectors);
    let (row, label, arrow, line) = (nodes[p], nodes[p + 1], nodes[p + 2], nodes[p + 3]);
    let head = row_texts(dark, row, label, arrow, r.items@[i]@, 0);
    let none = Seq::<SpecAct>::empty();
    assert(none + head =~= head);
    let end = crate::arkui::menu::row_end(col, row, arrow, 1, click, (2 * i) as usize);
    assert(none + end =~= end);
    if i + 1 == r.items@.len() {
        assert(head + end + none =~= head + end);
    }
}

/// A picture in a row: its source, filled, fitted whole, square, with room around it, at its place
/// in the row. The picture in front is twenty units wide, the one behind the title sixteen.
pub proof fn a_rows_pictures_are_built(
    row: u64,
    node: u64,
    name: Seq<char>,
    fill: u32,
    side: u32,
    index: usize,
    vectors: Seq<String>,
)
    ensures
        glyph(row, node, name, fill, side, index, vectors) == picture(node, name, Some(fill), vectors)
            + seq![
            SpecAct::ImageFit { node, fit: 0 },
            Act::Resize { node, width: Length::Whole(side), height: Length::Whole(side) },
            Act::Margin { node, margin: 4 },
            Act::Insert { parent: row, child: node, index },
        ],
{
}

/// A row with a picture in front of its title and one behind it: the picture, the title, the
/// second picture and the arrow stand in the row in this order, and each picture has the color
/// given with it.
pub proof fn a_row_with_pictures_is_built(
    dark: bool,
    r: MenuRows,
    i: int,
    col: u64,
    nodes: Seq<u64>,
    p: int,
    click: u64,
    vectors: Seq<String>,
    k: int,
)
    requires
        0 <= i < r.items@.len() <= 0x1000_0000,
        i < r.icons@.len() && r.icons@[i] is Some,
        i < r.badge_icons@.len() && r.badge_icons@[i] is Some,
    ensures
        ({
            let made = row_acts(dark, r, i, col, nodes, p, click, vectors);
            let row = nodes[p];
            &&& made.contains(SpecAct::Insert { parent: row, child: nodes[p + 3], index: 0 })
            &&& made.contains(SpecAct::Insert { parent: row, child: nodes[p + 1], index: 1 })
            &&& made.contains(SpecAct::Insert { parent: row, child: nodes[p + 4], index: 2 })
            &&& made.contains(SpecAct::Insert { parent: row, child: nodes[p + 2], index: 3 })
            &&& made.contains(
                SpecAct::Resize {
                    node: nodes[p + 3],
                    width: Length::Whole(20),
                    height: Length::Whole(20),
                },
            )
            &&& made.contains(
                SpecAct::Resize {
                    node: nodes[p + 4],
                    width: Length::Whole(16),
                    height: Length::Whole(16),
                },
            )
        }),
{
    let made = row_acts(dark, r, i, col, nodes, p, click, vectors);
    let row = nodes[p];
    let icon = crate::arkui::menu::row_icon(dark, r, i, row, nodes[p + 3], vectors);
    let texts = row_texts(dark, row, nodes[p + 1], nodes[p + 2], r.items@[i]@, 1);
    let badge = crate::arkui::menu::row_badge(dark, r, i, row, nodes[p + 4], 2, vectors);
    let end = crate::arkui::menu::row_end(col, row, nodes[p + 2], 3, click, (2 * i) as usize);
    let line = made.skip((icon + texts + badge + end).len() as int);
    let a = icon.len() as int;
    let b = a + texts.len();
    let c = b + badge.len();
    assert(made =~= (icon + texts) + (badge + end) + line);
    assert(made[a - 1] == icon[a - 1]);
    assert(made[a - 3] == icon[a - 3]);
    assert(made[a + 7] == texts[7]);
    assert(made[c - 1] == badge[badge.len() - 1]);
    assert(made[c - 3] == badge[badge.len() - 3]);
    assert(made[c] == end[0]);
}

/// The nodes a row needs: the row, its title and its arrow, one for each of its pictures, and a
/// line where another row follows.
pub proof fn a_row_has_its_nodes(r: MenuRows, i: int)
    requires
        0 <= i < r.items@.len(),
    ensures
        row_kinds(r, i).len() == 3 + (if i < r.icons@.len() && r.icons@[i] is Some {
            1int
        } else {
            0
        }) + (if i < r.badge_icons@.len() && r.badge_icons@[i] is Some {
            1int
        } else {
            0
        }) + (if i + 1 < r.items@.len() {
            1int
        } else {
            0
        }),
{
}

/// A bar's cell has its title, small, under its picture where it has one, both in the color of its
/// state; it takes an equal part of the bar, at its own place, and reports clicks under its number.
pub proof fn a_bar_cell_is_built(
    dark: bool,
    r: MenuRows,
    i: int,
    selected: usize,
    bar: u64,
    nodes: Seq<u64>,
    p: int,
    click: u64,
    vectors: Seq<String>,
)
    requires
        0 <= i < r.items@.len() <= usize::MAX,
        r.icons@.len() == 0,
    ensures
        entry_acts(dark, r, i, selected, bar, nodes, p, click, vectors) == seq![
            SpecAct::Text { node: nodes[p + 1], text: r.items@[i]@ },
            Act::FontSize { node: nodes[p + 1], size: Length::Whole(10) },
            Act::FontColor {
                node: nodes[p + 1],
                argb: if i == selected {
                    if dark {
                        0xFF3E_9BFFu32
                    } else {
                        0xFF00_7DFFu32
                    }
                } else if dark {
                    0x99FF_FFFFu32
                } else {
                    0x9900_0000u32
                },
            },
            Act::Insert { parent: nodes[p], child: nodes[p + 1], index: 0 },
            Act::Grow { node: nodes[p] },
            Act::Register { node: nodes[p], kind: 0, id: click },
            Act::Insert { parent: bar, child: nodes[p], index: i as usize },
        ],
        bar_cell(r, i, nodes, p, vectors) == (BarCell {
            node: nodes[p],
            label: nodes[p + 1],
            glyph: None,
        }),
{
    let none = Seq::<SpecAct>::empty();
    let label = bar_label(
        bar,
        nodes[p],
        nodes[p + 1],
        r.items@[i]@,
        bar_tint(dark, i == selected),
        0,
        click,
        i as usize,
    );
    assert(none + label =~= label);
}

/// A suite that is made has its three nodes, no pages and no cells, and its first page selected.
pub proof fn a_suite_starts_empty(
    v: ArkView,
    p: NavPresentation,
    piece: Piece,
    id: u64,
    nodes: Seq<u64>,
    vectors: Seq<String>,
)
    requires
        piece matches Piece::Nav { presentation, .. } && presentation == p,
        p == NavPresentation::Tabs || p == NavPresentation::Rail,
    ensures
        ({
            let u = realized(v, piece, id, nodes, vectors);
            let zero = Num { bits: 0 };
            &&& u.suite is Some
            &&& u.suite->0 == (SuiteView {
                host: nodes[0],
                pages: nodes[1],
                bar: nodes[2],
                items: Seq::empty(),
                cells: Seq::empty(),
                selected: 0,
                page_size: Size { width: zero, height: zero },
            })
        }),
{
}

/// A menu stands in a scroller whose content is its column; its rows come next among its nodes and
/// behind them the cells of the bar, where there is a suite; it answers under its own number.
pub proof fn a_menus_nodes_stand_in_order(
    v: ArkView,
    menu: u64,
    r: MenuRows,
    nodes: Seq<u64>,
    vectors: Seq<String>,
)
    ensures
        ({
            let u = menu_built(v, menu, r, nodes, vectors);
            let n = r.items@.len() as int;
            let kinds = menu_kinds(r, true);
            let rows = rows_kinds(r, n).len() as int;
            &&& u.scroll_content.contains_key(nodes[0]) && u.scroll_content[nodes[0]] == nodes[1]
            &&& u.menus.ids.contains_key(nodes[0]) && u.menus.ids[nodes[0]] == menu
            &&& v.suite is Some ==> u.suite is Some && (u.suite->0).cells == bar_cells(
                r,
                n,
                nodes,
                2 + rows,
                vectors,
            )
            &&& v.suite is None ==> u.suite is None
            &&& kinds.subrange(2, 2 + rows) == rows_kinds(r, n)
            &&& kinds.skip(2 + rows) == bar_kinds(r, n)
            &&& menu_kinds(r, false) == kinds.take(2 + rows)
        }),
{
    let n = r.items@.len() as int;
    let kinds = menu_kinds(r, true);
    let rows = rows_kinds(r, n).len() as int;
    assert(kinds.subrange(2, 2 + rows) =~= rows_kinds(r, n));
    assert(kinds.skip(2 + rows) =~= bar_kinds(r, n));
    assert(menu_kinds(r, false) =~= kinds.take(2 + rows));
}

/// A menu that gets other rows gets a column of its own for them, first among the new nodes, with
/// the rows next and the bar's cells behind those; the scroller's content is then that column.
pub proof fn a_menus_new_nodes_stand_in_order(
    v: ArkView,
    node: u64,
    r: MenuRows,
    selected: Option<usize>,
    nodes: Seq<u64>,
    vectors: Seq<String>,
)
    requires
        v.menus.ids.contains_key(node),
    ensures
        ({
            let u = menu_updated(v, node, r, nodes, vectors);
            let n = r.items@.len() as int;
            let kinds = patch_kinds(v, node, Patch::NavMenu(NavMenuPatch::Items { rows: r, selected }));
            let rows = rows_kinds(r, n).len() as int;
            &&& u.scroll_content.contains_key(node) && u.scroll_content[node] == nodes[0]
            &&& v.suite is Some ==> u.suite is Some && (u.suite->0).cells == bar_cells(
                r,
                n,
                nodes,
                1 + rows,
                vectors,
            )
            &&& kinds.len() >= 1 + rows
            &&& kinds.subrange(1, 1 + rows) == rows_kinds(r, n)
            &&& v.suite is Some ==> kinds.skip(1 + rows) == bar_kinds(r, n)
            &&& v.suite is None ==> kinds.len() == 1 + rows
        }),
{
    let n = r.items@.len() as int;
    let kinds = patch_kinds(v, node, Patch::NavMenu(NavMenuPatch::Items { rows: r, selected }));
    let rows = rows_kinds(r, n).len() as int;
    assert(kinds.subrange(1, 1 + rows) =~= rows_kinds(r, n));
    if v.suite is Some {
        assert(kinds.skip(1 + rows) =~= bar_kinds(r, n));
    }
}

/// A cell of a bar needs a node of its own, one for its title and one for its picture where it has
/// one; the cells come one behind the other.
pub proof fn cells_have_their_nodes(r: MenuRows, n: int)
    requires
        0 <= n < r.items@.len(),
    ensures
        bar_kinds(r, 0).len() == 0,
        bar_kinds(r, n + 1).len() == bar_kinds(r, n).len() + (if n < r.icons@.len()
            && r.icons@[n] is Some {
            3int
        } else {
            2
        }),
{
}

// ---- manifests ---------------------------------------------------------------------------------

proof fn found_first(s: Seq<char>, key: Seq<char>, i: int, at: int)
    requires
        0 <= i <= at <= s.len(),
        found_at(s, key, at),
        forall|j: int| i <= j < at ==> !#[trigger] found_at(s, key, j),
    ensures
        place_of(s, key, i) == Some(at),
    decreases at - i,
{
    if i < at {
        assert(!found_at(s, key, i));
        found_first(s, key, i + 1, at);
    }
}

proof fn quote_first(s: Seq<char>, i: int, at: int)
    requires
        0 <= i <= at < s.len(),
        s[at] == '"',
        forall|j: int| i <= j < at ==> s[j] != '"',
    ensures
        first_of(s, '"', i) == Some(at),
    decreases at - i,
{
    if i < at {
        quote_first(s, i + 1, at);
    }
}

/// A value that was written behind its key, quoted and escaped, is read back as it was: whatever
/// stands before the key, as long as the key does not, and whatever follows.
pub proof fn a_keyed_value_reads_back(
    before: Seq<char>,
    key: Seq<char>,
    between: Seq<char>,
    text: Seq<char>,
    after: Seq<char>,
)
    requires
        !between.contains('"'),
        ({
            let s = before + key + between + seq!['"'] + escaped(text) + seq!['"'] + after;
            forall|j: int| 0 <= j < before.len() ==> !#[trigger] found_at(s, key, j)
        }),
    ensures
        value_after(
            before + key + between + seq!['"'] + escaped(text) + seq!['"'] + after,
            key,
        ) == Some(text),
{
    let s = before + key + between + seq!['"'] + escaped(text) + seq!['"'] + after;
    let at = before.len() as int;
    assert(s.subrange(at, at + key.len()) =~= key);
    found_first(s, key, 0, at);
    let q = at + key.len() + between.len();
    assert forall|j: int| at + key.len() <= j < q implies s[j] != '"' by {
        assert(s[j] == between[j - at - key.len()]);
    }
    quote_first(s, at + key.len(), q);
    let head = before + key + between + seq!['"'];
    a_value_reads_back(head, text, after);
    assert(s =~= head + escaped(text) + seq!['"'] + after);
    let end = head.len() + escaped(text).len();
    assert(value_end(s, q + 1) == Some(end as int));
    assert(unescaped(s.subrange(q + 1, end as int)) == text);
}

/// An entry is the value of its family and the value of its file, in this order, where it has both
/// and neither is empty.
pub proof fn an_entry_is_a_family_and_its_file(object: Seq<char>)
    ensures
        ({
            let family = value_after(object, "\"family\""@);
            let file = value_after(object, "\"file\""@);
            let whole = family is Some && file is Some && (family->0).len() > 0 && (file->0).len()
                > 0;
            &&& whole ==> entry(object) == Some((family->0, file->0))
            &&& !whole ==> entry(object) is None
        }),
{
}

/// The families a host knows stay, in their order, in front of the bundled ones; each bundled one
/// is named then, whatever the case of its letters; and none of them comes in twice.
pub proof fn bundled_families_join(
    list: Seq<Seq<char>>,
    more: Seq<(Seq<char>, Seq<char>)>,
    n: int,
    k: int,
)
    requires
        0 <= n <= more.len(),
    ensures
        ({
            let all = with_bundled(list, more, n);
            &&& list.len() <= all.len() <= list.len() + n
            &&& all.take(list.len() as int) == list
            &&& 0 <= k < n ==> names_family(all, more[k].0)
            &&& forall|a: int, b: int|
                0 <= a < b < all.len() && list.len() <= b ==> !crate::logging::same_letters(
                    #[trigger] all[a],
                    #[trigger] all[b],
                )
        }),
    decreases n,
{
    if n > 0 {
        bundled_families_join(list, more, n - 1, k);
        let so_far = with_bundled(list, more, n - 1);
        let all = with_bundled(list, more, n);
        if names_family(so_far, more[n - 1].0) {
            assert(all == so_far);
        } else {
            assert(all == so_far.push(more[n - 1].0));
            assert(all.take(list.len() as int) =~= so_far.take(list.len() as int));
            assert(crate::logging::same_letters(all[all.len() - 1], more[n - 1].0));
            assert(names_family(all, more[n - 1].0));
            if 0 <= k < n - 1 {
                let i = choose|i: int|
                    0 <= i < so_far.len() && crate::logging::same_letters(
                        #[trigger] so_far[i],
                        more[k].0,
                    );
                assert(all[i] == so_far[i]);
            }
            assert forall|a: int, b: int|
                0 <= a < b < all.len() && list.len()
                    <= b implies !crate::logging::same_letters(
                #[trigger] all[a],
                #[trigger] all[b],
            ) by {
                assert(all[a] == so_far[a]);
                if b < so_far.len() {
                    assert(all[b] == so_far[b]);
                }
            }
        }
    } else {
        assert(list.take(list.len() as int) =~= list);
    }
}

} // verus!
