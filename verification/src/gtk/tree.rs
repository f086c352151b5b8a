//! Trees: which rows are open and which are selected, by the tokens the app gives its rows.
use crate::gtk::act::{acts, emit, no_acts, one_act, Act, GtkAct, Later, SpecAct};
use crate::keys::Keys;
use crate::model::{Event, SpecEvent, Target};
use crate::pieces::TreePatch;
use crate::text::{decimal, decimal_of, parse_u64, parsed_u64};
use vstd::prelude::*;

verus! {

/// A tree: its app node, and what a rebuild of its rows restores.
pub struct TreeEntry {
    pub node: u64,
    pub expanded: Keys,
    pub selected: Vec<u64>,
    pub multi: bool,
}

#[verifier::ext_equal]
pub ghost struct TreeView {
    pub node: u64,
    pub expanded: Set<u64>,
    pub selected: Seq<u64>,
    pub multi: bool,
}

impl View for TreeEntry {
    type V = TreeView;

    open spec fn view(&self) -> TreeView {
        TreeView {
            node: self.node,
            expanded: self.expanded@,
            selected: self.selected@,
            multi: self.multi,
        }
    }
}

/// A row as it is shown: the text that holds its token, whether it can be opened, is open and is
/// selected.
pub struct Row {
    pub text: String,
    pub expandable: bool,
    pub expanded: bool,
    pub selected: bool,
}

/// The text that holds a token.
pub fn token_text(token: u64) -> (t: String)
    ensures
        t@ == decimal(token as nat),
        parsed_u64(t@) == Some(token),
{
    proof {
        crate::text::a_number_reads_back(token);
    }
    decimal_of(token)
}

/// The token that a row's text holds.
pub fn tree_row_token(text: &str) -> (r: Option<u64>)
    ensures
        r == parsed_u64(text@),
{
    parse_u64(text)
}

/// The tokens of the selected rows among the first `n`, in their order.
pub open spec fn selected_tokens(rows: Seq<Row>, n: int) -> Seq<u64>
    decreases n,
{
    if n <= 0 {
        Seq::empty()
    } else {
        match parsed_u64(rows[n - 1].text@) {
            Some(t) => if rows[n - 1].selected {
                selected_tokens(rows, n - 1).push(t)
            } else {
                selected_tokens(rows, n - 1)
            },
            None => selected_tokens(rows, n - 1),
        }
    }
}

/// Every selected row's token, in the order the rows are shown.
pub fn tree_selected_tokens(rows: &Vec<Row>) -> (out: Vec<u64>)
    ensures
        out@ == selected_tokens(rows@, rows@.len() as int),
{
    let mut out: Vec<u64> = Vec::new();
    let mut i: usize = 0;
    while i < rows.len()
        invariant
            i <= rows.len(),
            out@ == selected_tokens(rows@, i as int),
        decreases rows.len() - i,
    {
        if rows[i].selected {
            match parse_u64(rows[i].text.as_str()) {
                Some(t) => out.push(t),
                None => {},
            }
        }
        i = i + 1;
    }
    out
}

/// What the app hears of a changed selection: all that is selected, unless the app selected it.
pub open spec fn selection_told(rows: Seq<Row>, quiet: bool) -> Option<Seq<u64>> {
    if quiet {
        None
    } else {
        Some(selected_tokens(rows, rows.len() as int))
    }
}

pub fn tree_selection_changed(rows: &Vec<Row>, quiet: bool) -> (told: Option<Vec<u64>>)
    ensures
        match told {
            Some(tokens) => selection_told(rows@, quiet) == Some(tokens@),
            None => selection_told(rows@, quiet) is None,
        },
{
    if quiet {
        None
    } else {
        Some(tree_selected_tokens(rows))
    }
}

/// What a row is to be set to so that it is open exactly where the record says: nothing where it
/// cannot be opened or is right already.
pub open spec fn disclosure(v: TreeView, row: Row) -> Option<bool> {
    match parsed_u64(row.text@) {
        Some(t) => if row.expandable && row.expanded != v.expanded.contains(t) {
            Some(v.expanded.contains(t))
        } else {
            None
        },
        None => None,
    }
}

/// A row that has been set stays as it is when its turn comes again.
pub proof fn restoring_twice_is_nothing(v: TreeView, row: Row, again: Row)
    requires
        again.text@ == row.text@,
        again.expandable == row.expandable,
        disclosure(v, row) matches Some(on) ==> again.expanded == on,
        disclosure(v, row) is None ==> again.expanded == row.expanded,
    ensures
        disclosure(v, again) is None,
{
}

/// The places of the selected tokens among the first `n` rows.
pub open spec fn to_select(v: TreeView, rows: Seq<Row>, n: int) -> Seq<usize>
    decreases n,
{
    if n <= 0 {
        Seq::empty()
    } else {
        match parsed_u64(rows[n - 1].text@) {
            Some(t) => if v.selected.contains(t) {
                to_select(v, rows, n - 1).push((n - 1) as usize)
            } else {
                to_select(v, rows, n - 1)
            },
            None => to_select(v, rows, n - 1),
        }
    }
}

/// The first row from `n` on that holds a token.
pub open spec fn place_of(rows: Seq<Row>, token: u64, n: int) -> Option<usize>
    decreases rows.len() - n,
{
    if n < 0 || n >= rows.len() {
        None
    } else if parsed_u64(rows[n].text@) == Some(token) {
        Some(n as usize)
    } else {
        place_of(rows, token, n + 1)
    }
}

/// What is recorded after a change.
pub open spec fn tree_updated(v: TreeView, patch: TreePatch) -> TreeView {
    match patch {
        TreePatch::Expand(token, on) => TreeView {
            expanded: if on {
                v.expanded.insert(token)
            } else {
                v.expanded.remove(token)
            },
            ..v
        },
        TreePatch::Selected(tokens) => TreeView { selected: tokens@, ..v },
        TreePatch::Reload | TreePatch::Reveal(_) => v,
    }
}

/// What is recorded after a row was opened or closed: the user's doing is, the app's own is
/// recorded already.
pub open spec fn disclosed(v: TreeView, text: Seq<char>, expanded: bool, quiet: bool) -> TreeView {
    match parsed_u64(text) {
        Some(token) => if quiet {
            v
        } else {
            tree_updated(v, TreePatch::Expand(token, expanded))
        },
        None => v,
    }
}

/// The app hears of a row that the user opened or closed.
pub open spec fn disclosed_acts(v: TreeView, text: Seq<char>, expanded: bool, quiet: bool) -> Seq<
    SpecAct,
> {
    match parsed_u64(text) {
        Some(token) => if quiet {
            Seq::empty()
        } else {
            seq![
                Act::Emit {
                    to: Target::Node(v.node),
                    event: Event::TreeExpanded { token, expanded },
                },
            ]
        },
        None => Seq::empty(),
    }
}

/// The work that a change leaves for the idle loop.
pub open spec fn tree_work(host: u64, patch: TreePatch) -> Later {
    match patch {
        TreePatch::Reload => Later::TreeRebuild(host),
        TreePatch::Expand(_, _) => Later::TreeExpand(host),
        TreePatch::Selected(_) => Later::TreeSelect(host),
        TreePatch::Reveal(token) => Later::TreeReveal(host, token),
    }
}

impl TreeEntry {
    /// A tree with nothing open and nothing selected.
    pub fn new(node: u64, multi: bool) -> (t: TreeEntry)
        ensures
            t@ == (TreeView { node, expanded: Set::empty(), selected: Seq::empty(), multi }),
    {
        TreeEntry { node, expanded: Keys::new(), selected: Vec::new(), multi }
    }

    /// What a row is to be set to.
    pub fn disclose(&self, row: &Row) -> (r: Option<bool>)
        ensures
            r == disclosure(self@, *row),
    {
        match parse_u64(row.text.as_str()) {
            Some(t) => {
                let want = self.expanded.has(t);
                if row.expandable && row.expanded != want {
                    Some(want)
                } else {
                    None
                }
            },
            None => None,
        }
    }

    fn is_selected(&self, token: u64) -> (b: bool)
        ensures
            b == self@.selected.contains(token),
    {
        let mut i: usize = 0;
        while i < self.selected.len()
            invariant
                i <= self.selected.len(),
                forall|k: int| 0 <= k < i ==> self.selected@[k] != token,
            decreases self.selected.len() - i,
        {
            if self.selected[i] == token {
                assert(self.selected@[i as int] == token);
                return true;
            }
            i = i + 1;
        }
        false
    }

    /// The places of the rows to select.
    pub fn selection(&self, rows: &Vec<Row>) -> (out: Vec<usize>)
        ensures
            out@ == to_select(self@, rows@, rows@.len() as int),
    {
        let mut out: Vec<usize> = Vec::new();
        let mut i: usize = 0;
        while i < rows.len()
            invariant
                i <= rows.len(),
                out@ == to_select(self@, rows@, i as int),
            decreases rows.len() - i,
        {
            match parse_u64(rows[i].text.as_str()) {
                Some(t) => {
                    if self.is_selected(t) {
                        out.push(i);
                    }
                },
                None => {},
            }
            i = i + 1;
        }
        out
    }

    /// Changes what is recorded, and says what is left to do.
    pub fn update(&mut self, host: u64, patch: TreePatch) -> (out: Vec<GtkAct>)
        ensures
            final(self)@ == tree_updated(old(self)@, patch),
            acts(out@) == seq![
                Act::<Seq<char>, SpecEvent>::Later { work: tree_work(host, patch) },
            ],
    {
        match patch {
            TreePatch::Reload => one_act(Act::Later { work: Later::TreeRebuild(host) }),
            TreePatch::Expand(token, on) => {
                if on {
                    self.expanded.put(token);
                } else {
                    self.expanded.drop(token);
                }
                one_act(Act::Later { work: Later::TreeExpand(host) })
            },
            TreePatch::Selected(tokens) => {
                self.selected = tokens;
                one_act(Act::Later { work: Later::TreeSelect(host) })
            },
            TreePatch::Reveal(token) => one_act(
                Act::Later { work: Later::TreeReveal(host, token) },
            ),
        }
    }

    /// A row was opened or closed; `quiet` is whether the app did it.
    pub fn toggled(&mut self, text: &str, expanded: bool, quiet: bool) -> (out: Vec<GtkAct>)
        ensures
            final(self)@ == disclosed(old(self)@, text@, expanded, quiet),
            acts(out@) == disclosed_acts(old(self)@, text@, expanded, quiet),
    {
        if quiet {
            return no_acts();
        }
        match parse_u64(text) {
            Some(token) => {
                if expanded {
                    self.expanded.put(token);
                } else {
                    self.expanded.drop(token);
                }
                emit(Target::Node(self.node), Event::TreeExpanded { token, expanded })
            },
            None => no_acts(),
        }
    }
}

/// The first row that holds a token.
pub fn find_row(rows: &Vec<Row>, token: u64) -> (r: Option<usize>)
    ensures
        r == place_of(rows@, token, 0),
{
    let mut i: usize = 0;
    while i < rows.len()
        invariant
            i <= rows.len(),
            place_of(rows@, token, 0) == place_of(rows@, token, i as int),
        decreases rows.len() - i,
    {
        match parse_u64(rows[i].text.as_str()) {
            Some(t) => {
                if t == token {
                    return Some(i);
                }
            },
            None => {},
        }
        i = i + 1;
    }
    None
}

/// What the user opens is what a rebuild opens again, and nothing else changes.
pub proof fn a_rebuild_restores_what_was_opened(v: TreeView, token: u64, on: bool, row: Row)
    requires
        parsed_u64(row.text@) == Some(token),
        row.expandable,
    ensures
        ({
            let w = tree_updated(v, TreePatch::Expand(token, on));
            &&& w.expanded.contains(token) == on
            &&& disclosure(w, Row { expanded: !on, ..row }) == Some(on)
            &&& disclosure(w, Row { expanded: on, ..row }) is None
        }),
{
}

} // verus!
