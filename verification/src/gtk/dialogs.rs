//! Dialogs and file pickers: what is shown, and who is still waiting for an answer.
use crate::gtk::act::{act, acts, emit, no_acts, one_act, Act, GtkAct, Later, SpecAct};
use crate::gtk::menu::maybe;
use crate::keys::Keys;
use crate::table::{entry, Table};
use crate::model::{
    texts, ButtonRole, Event, FileFilter, PresentButton, PresentResult, PresentSpec, Target,
};
use crate::text::{cat2, decimal, decimal_of, owned, parse_u64, parsed_u64, same};
use vstd::prelude::*;

verus! {

/// Who waits for an answer: dialogs, and the requests for file pickers, queued or shown.
pub struct Dialogs {
    /// The dialog that was presented last for a request, as long as none of its request was
    /// answered since: the one that the app can take back.
    pub modals: Table<u64>,
    /// The dialogs that were not answered, each with its request.
    pub open: Table<u64>,
    /// The number of the next dialog.
    pub next: u64,
    pub files: Keys,
}

#[verifier::ext_equal]
pub ghost struct DialogsView {
    pub modals: Map<u64, u64>,
    pub open: Map<u64, u64>,
    pub next: u64,
    pub files: Set<u64>,
}

impl View for Dialogs {
    type V = DialogsView;

    open spec fn view(&self) -> DialogsView {
        DialogsView {
            modals: self.modals@,
            open: self.open@,
            next: self.next,
            files: self.files@,
        }
    }
}

impl DialogsView {
    /// A dialog that can be taken back was not answered and is of that request, and no dialog has a
    /// number yet to come.
    pub open spec fn wf(self) -> bool {
        &&& forall|req: u64| #[trigger]
            self.modals.contains_key(req) ==> entry(self.open, self.modals[req]) == Some(req)
        &&& forall|d: u64| #[trigger] self.open.contains_key(d) ==> d < self.next
    }
}

/// Nobody waits.
pub open spec fn nobody() -> DialogsView {
    DialogsView { modals: Map::empty(), open: Map::empty(), next: 0, files: Set::empty() }
}

/// An answer as contracts speak of it.
pub type SpecResult = PresentResult<Seq<char>, Seq<Seq<char>>>;

/// The app hears an answer.
pub open spec fn answered(req: u64, result: SpecResult) -> SpecAct {
    Act::Emit { to: Target::Window, event: Event::PresentResult { req, result } }
}

/// A dialog's answer: only its first one counts, and it closes the dialog.
pub open spec fn modal_done(v: DialogsView, dialog: u64) -> DialogsView {
    match entry(v.open, dialog) {
        Some(req) => DialogsView {
            modals: v.modals.remove(req),
            open: v.open.remove(dialog),
            ..v
        },
        None => v,
    }
}

pub open spec fn modal_acts(v: DialogsView, dialog: u64, result: SpecResult) -> Seq<SpecAct> {
    match entry(v.open, dialog) {
        Some(req) => seq![answered(req, result), Act::CloseDialog { dialog }],
        None => Seq::empty(),
    }
}

/// A request that the app takes back: its dialog is answered as dismissed, and its file picker is
/// waited for no more.
pub open spec fn dismissed(v: DialogsView, req: u64) -> DialogsView {
    let left = match entry(v.modals, req) {
        Some(dialog) => modal_done(
            DialogsView { modals: v.modals.remove(req), ..v },
            dialog,
        ),
        None => v,
    };
    DialogsView { files: left.files.remove(req), ..left }
}

pub open spec fn dismissed_acts(v: DialogsView, req: u64) -> Seq<SpecAct> {
    match entry(v.modals, req) {
        Some(dialog) => modal_acts(v, dialog, PresentResult::Dismissed),
        None => Seq::empty(),
    }
}

/// The answer of a file picker: the path, or that it was dismissed.
pub open spec fn file_result(path: Option<Seq<char>>) -> SpecResult {
    match path {
        Some(p) => PresentResult::Files(seq![p]),
        None => PresentResult::Dismissed,
    }
}

pub open spec fn file_done(v: DialogsView, req: u64) -> DialogsView {
    DialogsView { files: v.files.remove(req), ..v }
}

pub open spec fn file_acts(v: DialogsView, req: u64, path: Option<Seq<char>>) -> Seq<SpecAct> {
    if v.files.contains(req) {
        seq![answered(req, file_result(path))]
    } else {
        Seq::empty()
    }
}

// ---- laws --------------------------------------------------------------------------------------

/// What is known of the waiting stays in order whatever happens.
pub proof fn waiting_stays_in_order(v: DialogsView, req: u64, dialog: u64, spec: PresentSpec)
    requires
        v.wf(),
    ensures
        nobody().wf(),
        v.next < u64::MAX ==> presented(v, req, spec).wf(),
        modal_done(v, dialog).wf(),
        dismissed(v, req).wf(),
        file_done(v, req).wf(),
{
    let shown = presented(v, req, spec);
    assert forall|r: u64| v.next < u64::MAX && #[trigger] shown.modals.contains_key(r) implies entry(
        shown.open,
        shown.modals[r],
    ) == Some(r) by {
        if r != req {
            assert(v.modals.contains_key(r));
        } else {
            assert(shown.modals == v.modals ==> v.modals.contains_key(r));
        }
    }
    let done = modal_done(v, dialog);
    assert forall|r: u64| #[trigger] done.modals.contains_key(r) implies entry(
        done.open,
        done.modals[r],
    ) == Some(r) by {
        assert(v.modals.contains_key(r));
    }
    let back = dismissed(v, req);
    assert forall|r: u64| #[trigger] back.modals.contains_key(r) implies entry(
        back.open,
        back.modals[r],
    ) == Some(r) by {
        assert(v.modals.contains_key(r));
    }
}

/// A dialog is answered once: after an answer, whatever comes of closing it is not heard.
pub proof fn a_dialog_is_answered_once(
    v: DialogsView,
    dialog: u64,
    first: SpecResult,
    second: SpecResult,
)
    ensures
        modal_acts(modal_done(v, dialog), dialog, second) == Seq::<SpecAct>::empty(),
        entry(v.open, dialog) matches Some(req) ==> modal_acts(v, dialog, first)[0] == answered(
            req,
            first,
        ),
{
}

/// Every dialog is answered for itself, also where two were presented for one request.
pub proof fn dialogs_are_answered_apart(
    v: DialogsView,
    dialog: u64,
    other: u64,
    result: SpecResult,
)
    requires
        dialog != other,
    ensures
        modal_acts(modal_done(v, other), dialog, result) == modal_acts(v, dialog, result),
{
}

/// A dialog that is presented waits for an answer and can be taken back.
pub proof fn a_presented_dialog_waits(v: DialogsView, req: u64, spec: PresentSpec)
    requires
        spec is Dialog || spec is Prompt,
    ensures
        entry(presented(v, req, spec).open, v.next) == Some(req),
        entry(presented(v, req, spec).modals, req) == Some(v.next),
{
}

/// A dialog that the app dismisses is answered as dismissed, and no button of it is heard
/// afterwards.
pub proof fn a_dismissed_dialog_is_silent(
    v: DialogsView,
    req: u64,
    dialog: u64,
    late: SpecResult,
)
    requires
        v.wf(),
        entry(v.modals, req) == Some(dialog),
    ensures
        dismissed_acts(v, req) == seq![
            answered(req, PresentResult::Dismissed),
            Act::CloseDialog { dialog },
        ],
        modal_acts(dismissed(v, req), dialog, late) == Seq::<SpecAct>::empty(),
        dismissed_acts(dismissed(v, req), req) == Seq::<SpecAct>::empty(),
{
    assert(v.modals.contains_key(req));
}

/// A file picker whose request was answered while it was queued does not open, and one that is
/// up already is not heard any more.
pub proof fn a_dismissed_picker_is_inert(v: DialogsView, req: u64, path: Option<Seq<char>>)
    ensures
        !dismissed(v, req).files.contains(req),
        file_acts(dismissed(v, req), req, path) == Seq::<SpecAct>::empty(),
{
}

/// Answering one request leaves the others waiting.
pub proof fn others_keep_waiting(v: DialogsView, req: u64, other: u64, dialog: u64)
    requires
        v.wf(),
        req != other,
    ensures
        entry(dismissed(v, req).modals, other) == entry(v.modals, other),
        entry(v.open, dialog) == Some(other) ==> entry(dismissed(v, req).open, dialog) == Some(
            other,
        ),
        dismissed(v, req).files.contains(other) == v.files.contains(other),
        file_done(v, req).files.contains(other) == v.files.contains(other),
        file_done(v, req).modals == v.modals && file_done(v, req).open == v.open,
        entry(v.open, dialog) == Some(req) ==> entry(modal_done(v, dialog).modals, other) == entry(
            v.modals,
            other,
        ),
{
    assert(v.modals.contains_key(req) ==> entry(v.open, v.modals[req]) == Some(req));
}

// ---- answers -----------------------------------------------------------------------------------

/// The answer that a response's name stands for: the button of that number, or none.
pub open spec fn button_result(response: Seq<char>) -> SpecResult {
    match parsed_i64(response) {
        Some(i) => PresentResult::Button(i),
        None => PresentResult::Dismissed,
    }
}

/// The number of up to 64 bits, with its sign, that a text stands for.
pub open spec fn parsed_i64(s: Seq<char>) -> Option<i64> {
    if s.len() > 0 && s[0] == '-' {
        match crate::text::digits_value(s.skip(1)) {
            Some(n) => if n <= 0x8000_0000_0000_0000 {
                Some((-(n as int)) as i64)
            } else {
                None
            },
            None => None,
        }
    } else {
        match parsed_u64(s) {
            Some(n) => if n <= 0x7fff_ffff_ffff_ffff {
                Some(n as i64)
            } else {
                None
            },
            None => None,
        }
    }
}

/// A dialog's button answers by its own number.
pub proof fn a_button_answers_by_its_number(i: u64)
    requires
        i <= 0x7fff_ffff_ffff_ffff,
    ensures
        button_result(decimal(i as nat)) == (PresentResult::<Seq<char>, Seq<Seq<char>>>::Button(
            i as i64,
        )),
{
    crate::text::a_number_reads_back(i);
    crate::text::decimal_starts_with_a_digit(i as nat);
}

fn parse_i64(s: &str) -> (r: Option<i64>)
    ensures
        r == parsed_i64(s@),
{
    let v = crate::text::chars_of(s);
    if v.len() > 0 && v[0] == '-' {
        let rest = crate::text::text_of(&v, 1, v.len());
        proof {
            assert(rest@ =~= s@.skip(1));
        }
        if v.len() > 1 && v[1] == '+' {
            proof {
                assert(rest@[0] == '+');
            }
            return None;
        }
        match parse_u64(rest.as_str()) {
            Some(n) => {
                if n < 0x8000_0000_0000_0000 {
                    Some(-(n as i64))
                } else if n == 0x8000_0000_0000_0000 {
                    Some(i64::MIN)
                } else {
                    None
                }
            },
            None => None,
        }
    } else {
        match parse_u64(s) {
            Some(n) => if n <= 0x7fff_ffff_ffff_ffff {
                Some(n as i64)
            } else {
                None
            },
            None => None,
        }
    }
}

/// What a dialog's response says.
pub fn dialog_result(response: &str) -> (r: PresentResult<String, Vec<String>>)
    ensures
        r@ == button_result(response@),
{
    match parse_i64(response) {
        Some(i) => PresentResult::Button(i),
        None => PresentResult::Dismissed,
    }
}

/// What a prompt's response says: its text where it was confirmed.
pub fn prompt_result(response: &str, text: &str) -> (r: PresentResult<String, Vec<String>>)
    ensures
        r@ == (if response@ == "ok"@ {
            PresentResult::<Seq<char>, Seq<Seq<char>>>::Text(text@)
        } else {
            PresentResult::Dismissed
        }),
{
    if same(response, "ok") {
        PresentResult::Text(owned(text))
    } else {
        PresentResult::Dismissed
    }
}

// ---- building ----------------------------------------------------------------------------------

/// A button of a dialog, under its number: a destructive one looks it, a default one is suggested
/// and taken on return, a cancelling one is taken when the dialog is closed.
pub open spec fn button_acts(dialog: u64, b: PresentButton, i: int) -> Seq<SpecAct> {
    let id = decimal(i as nat);
    let response: Seq<SpecAct> = seq![Act::Response { dialog, id, label: b.label@ }];
    match b.role {
        ButtonRole::Destructive => response.push(Act::Appearance { dialog, id, destructive: true }),
        ButtonRole::Default => response.push(
            Act::Appearance { dialog, id, destructive: false },
        ).push(Act::DefaultResponse { dialog, id }),
        ButtonRole::Cancel => response.push(Act::CloseResponse { dialog, id }),
    }
}

/// The first `n` buttons of a dialog.
pub open spec fn buttons_acts(dialog: u64, v: Seq<PresentButton>, n: int) -> Seq<SpecAct>
    decreases n,
{
    if n <= 0 {
        Seq::empty()
    } else {
        buttons_acts(dialog, v, n - 1) + button_acts(dialog, v[n - 1], n - 1)
    }
}

/// The calls that present a surface on the window with this content, a dialog under its own number.
/// A file picker waits for the loop to be idle.
pub open spec fn present_acts(
    req: u64,
    dialog: u64,
    spec: PresentSpec,
    parent: Option<u64>,
) -> Seq<SpecAct> {
    match spec {
        PresentSpec::Dialog { title, message, buttons, .. } => {
            let made: Seq<SpecAct> = seq![
                Act::Dialog { dialog, title: title@, message: maybe(message) },
            ];
            (made + buttons_acts(dialog, buttons@, buttons@.len() as int)).push(
                Act::ShowDialog { dialog, parent },
            )
        },
        PresentSpec::Prompt { title, message, placeholder, initial, ok, cancel } => seq![
            Act::Dialog { dialog, title: title@, message: maybe(message) },
            Act::DialogEntry { dialog, placeholder: placeholder@, initial: initial@ },
            Act::Response { dialog, id: "cancel"@, label: cancel@ },
            Act::CloseResponse { dialog, id: "cancel"@ },
            Act::Response { dialog, id: "ok"@, label: ok@ },
            Act::Appearance { dialog, id: "ok"@, destructive: false },
            Act::DefaultResponse { dialog, id: "ok"@ },
            Act::ShowDialog { dialog, parent },
        ],
        PresentSpec::OpenFile { .. } => seq![Act::Later { work: Later::Picker { req, save: false } }],
        PresentSpec::SaveFile { .. } => seq![Act::Later { work: Later::Picker { req, save: true } }],
    }
}

/// Who waits after a surface was presented.
pub open spec fn presented(v: DialogsView, req: u64, spec: PresentSpec) -> DialogsView {
    match spec {
        PresentSpec::Dialog { .. } | PresentSpec::Prompt { .. } => DialogsView {
            modals: v.modals.insert(req, v.next),
            open: v.open.insert(v.next, req),
            next: (v.next + 1) as u64,
            ..v
        },
        PresentSpec::OpenFile { .. } | PresentSpec::SaveFile { .. } => DialogsView {
            files: v.files.insert(req),
            ..v
        },
    }
}

/// A picker's patterns for the extensions of a filter.
pub open spec fn patterns(extensions: Seq<String>) -> Seq<Seq<char>> {
    Seq::new(extensions.len(), |i: int| "*."@ + extensions[i]@)
}

/// The patterns that a picker filters by, for one filter.
pub fn filter_patterns(f: &FileFilter) -> (out: Vec<String>)
    ensures
        texts(out@) == patterns(f.extensions@),
{
    let mut out: Vec<String> = Vec::new();
    let mut i: usize = 0;
    while i < f.extensions.len()
        invariant
            i <= f.extensions.len(),
            out.len() == i,
            forall|k: int| 0 <= k < i ==> (#[trigger] out@[k])@ == "*."@ + f.extensions@[k]@,
        decreases f.extensions.len() - i,
    {
        out.push(cat2("*.", f.extensions[i].as_str()));
        i = i + 1;
    }
    proof {
        assert(texts(out@) =~= patterns(f.extensions@));
    }
    out
}

fn copied(s: &Option<String>) -> (t: Option<String>)
    ensures
        maybe(t) == maybe(*s),
{
    match s {
        Some(s) => Some(owned(s.as_str())),
        None => None,
    }
}

fn put_buttons(out: &mut Vec<GtkAct>, dialog: u64, buttons: &Vec<PresentButton>)
    ensures
        acts(final(out)@) == acts(old(out)@) + buttons_acts(dialog, buttons@, buttons@.len() as int),
{
    let ghost start = acts(out@);
    let mut i: usize = 0;
    proof {
        assert(start + Seq::<SpecAct>::empty() =~= start);
    }
    while i < buttons.len()
        invariant
            i <= buttons.len(),
            acts(out@) == start + buttons_acts(dialog, buttons@, i as int),
        decreases buttons.len() - i,
    {
        let b = &buttons[i];
        let ghost before = acts(out@);
        act(
            out,
            Act::Response {
                dialog,
                id: decimal_of(i as u64),
                label: owned(b.label.as_str()),
            },
        );
        match b.role {
            ButtonRole::Destructive => {
                act(
                    out,
                    Act::Appearance { dialog, id: decimal_of(i as u64), destructive: true },
                );
            },
            ButtonRole::Default => {
                act(
                    out,
                    Act::Appearance { dialog, id: decimal_of(i as u64), destructive: false },
                );
                act(out, Act::DefaultResponse { dialog, id: decimal_of(i as u64) });
            },
            ButtonRole::Cancel => {
                act(out, Act::CloseResponse { dialog, id: decimal_of(i as u64) });
            },
        }
        proof {
            assert(acts(out@) =~= before + button_acts(dialog, buttons@[i as int], i as int));
            assert(acts(out@) =~= start + buttons_acts(dialog, buttons@, i + 1));
        }
        i = i + 1;
    }
}

impl Dialogs {
    /// Nobody waits.
    pub fn new() -> (d: Dialogs)
        ensures
            d@ == nobody(),
    {
        Dialogs { modals: Table::new(), open: Table::new(), next: 0, files: Keys::new() }
    }

    /// A new dialog waits for the answer to a request.
    fn wait(&mut self, req: u64) -> (dialog: u64)
        requires
            old(self)@.next < u64::MAX,
        ensures
            dialog == old(self)@.next,
            final(self)@ == (DialogsView {
                modals: old(self)@.modals.insert(req, dialog),
                open: old(self)@.open.insert(dialog, req),
                next: (dialog + 1) as u64,
                ..old(self)@
            }),
    {
        let dialog: u64 = self.next;
        self.next = dialog + 1;
        self.modals.put(req, dialog);
        self.open.put(dialog, req);
        dialog
    }

    /// Presents a surface on the window with this content.
    pub fn present(&mut self, req: u64, spec: &PresentSpec, parent: Option<u64>) -> (out: Vec<GtkAct>)
        requires
            spec is Dialog || spec is Prompt ==> old(self)@.next < u64::MAX,
        ensures
            final(self)@ == presented(old(self)@, req, *spec),
            acts(out@) == present_acts(req, old(self)@.next, *spec, parent),
    {
        let ghost v = self@;
        match spec {
            PresentSpec::Dialog { title, message, buttons, .. } => {
                let dialog: u64 = self.wait(req);
                let mut out = one_act(
                    Act::Dialog { dialog, title: owned(title.as_str()), message: copied(message) },
                );
                put_buttons(&mut out, dialog, buttons);
                act(&mut out, Act::ShowDialog { dialog, parent });
                out
            },
            PresentSpec::Prompt { title, message, placeholder, initial, ok, cancel } => {
                let dialog: u64 = self.wait(req);
                let mut out = one_act(
                    Act::Dialog { dialog, title: owned(title.as_str()), message: copied(message) },
                );
                act(
                    &mut out,
                    Act::DialogEntry {
                        dialog,
                        placeholder: owned(placeholder.as_str()),
                        initial: owned(initial.as_str()),
                    },
                );
                act(
                    &mut out,
                    Act::Response { dialog, id: owned("cancel"), label: owned(cancel.as_str()) },
                );
                act(&mut out, Act::CloseResponse { dialog, id: owned("cancel") });
                act(
                    &mut out,
                    Act::Response { dialog, id: owned("ok"), label: owned(ok.as_str()) },
                );
                act(&mut out, Act::Appearance { dialog, id: owned("ok"), destructive: false });
                act(&mut out, Act::DefaultResponse { dialog, id: owned("ok") });
                act(&mut out, Act::ShowDialog { dialog, parent });
                proof {
                    assert(acts(out@) =~= present_acts(req, v.next, *spec, parent));
                }
                out
            },
            PresentSpec::OpenFile { .. } => {
                self.files.put(req);
                one_act(Act::Later { work: Later::Picker { req, save: false } })
            },
            PresentSpec::SaveFile { .. } => {
                self.files.put(req);
                one_act(Act::Later { work: Later::Picker { req, save: true } })
            },
        }
    }

    /// A dialog was answered.
    pub fn finish(&mut self, dialog: u64, result: PresentResult<String, Vec<String>>) -> (out: Vec<
        GtkAct,
    >)
        ensures
            final(self)@ == modal_done(old(self)@, dialog),
            acts(out@) == modal_acts(old(self)@, dialog, result@),
    {
        let ghost v = self@;
        match self.open.take(dialog) {
            Some(req) => {
                self.modals.take(req);
                let mut out = emit(Target::Window, Event::PresentResult { req, result });
                act(&mut out, Act::CloseDialog { dialog });
                proof {
                    assert(self@ =~= modal_done(v, dialog));
                    assert(acts(out@) =~= modal_acts(v, dialog, result@));
                }
                out
            },
            None => {
                proof {
                    assert(self@ =~= v);
                }
                no_acts()
            },
        }
    }

    /// The app takes a request back.
    pub fn dismiss(&mut self, req: u64) -> (out: Vec<GtkAct>)
        ensures
            final(self)@ == dismissed(old(self)@, req),
            acts(out@) == dismissed_acts(old(self)@, req),
    {
        let ghost v = self@;
        let out = match self.modals.take(req) {
            Some(dialog) => self.finish(dialog, PresentResult::Dismissed),
            None => no_acts(),
        };
        self.end_file_dialog(req);
        proof {
            assert(self@ =~= dismissed(v, req));
        }
        out
    }

    /// Whether a queued file picker may open: somebody still waits for it.
    pub fn claim_file_dialog(&self, req: u64) -> (b: bool)
        ensures
            b == self@.files.contains(req),
    {
        self.files.has(req)
    }

    /// Drops a file picker's request. The picker itself is left alone: one that is queued will
    /// not open, and one that is up will not be heard.
    pub fn end_file_dialog(&mut self, req: u64)
        ensures
            final(self)@ == file_done(old(self)@, req),
    {
        self.files.drop(req);
    }

    /// A file picker was answered, with a path or without.
    pub fn emit_file_result(&mut self, req: u64, path: Option<String>) -> (out: Vec<GtkAct>)
        ensures
            final(self)@ == file_done(old(self)@, req),
            acts(out@) == file_acts(old(self)@, req, maybe(path)),
    {
        if !self.files.drop(req) {
            return no_acts();
        }
        let result: PresentResult<String, Vec<String>> = match path {
            Some(p) => {
                let mut v: Vec<String> = Vec::new();
                v.push(p);
                proof {
                    assert(texts(v@) =~= seq![p@]);
                }
                PresentResult::Files(v)
            },
            None => PresentResult::Dismissed,
        };
        emit(Target::Window, Event::PresentResult { req, result })
    }
}

} // verus!
