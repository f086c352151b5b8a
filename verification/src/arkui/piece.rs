//! Pieces whose native component is built on the other side.
use crate::arkui::act::{acts, no_acts, one_act, Act, ArkAct, SpecAct};
use crate::arkui::state::{ArkUi, ArkView};
use crate::model::SpecEvent;
use crate::table::{entry, found};
use crate::text::owned;
use vstd::prelude::*;

verus! {

/// The native component of a piece was built, or was not; one that was is remembered, so
/// that it is asked back and not freed. The node to mount: `spare` where there is none.
pub fn make(ark: &mut ArkUi, kind: &str, id: u64, made: Option<u64>, spare: u64) -> (r: (
    u64,
    Vec<ArkAct>,
))
    requires
        old(ark)@.wf(),
    ensures
        final(ark)@.wf(),
        match made {
            Some(node) => r.0 == node && final(ark)@ == (ArkView {
                pieces: old(ark)@.pieces.insert(node, id),
                ..old(ark)@
            }) && acts(r.1@) == Seq::<SpecAct>::empty(),
            None => r.0 == spare && final(ark)@ == old(ark)@ && acts(r.1@) == seq![
                Act::<Seq<char>, SpecEvent>::Report { kind: kind@ },
            ],
        },
{
    match made {
        Some(node) => {
            ark.pieces.put(node, id);
            (node, no_acts())
        },
        None => (spare, one_act(Act::Report { kind: owned(kind) })),
    }
}

/// Sends a command to a piece's native component, where it has one.
pub fn update(ark: &ArkUi, node: u64, command: &str, arg: &str) -> (out: Vec<ArkAct>)
    ensures
        acts(out@) == (match entry(ark@.pieces, node) {
            Some(id) => seq![
                Act::<Seq<char>, SpecEvent>::PieceUpdate { id, command: command@, arg: arg@ },
            ],
            None => Seq::empty(),
        }),
{
    match found(&ark.pieces, node) {
        Some(id) => one_act(
            Act::PieceUpdate { id, command: owned(command), arg: owned(arg) },
        ),
        None => no_acts(),
    }
}

} // verus!
