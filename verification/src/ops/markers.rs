//! Structural markers placed around aggregated operation groups.
use vstd::prelude::*;

use crate::ops::container::Ops;
use crate::ops::types::{MarkerCmd, OpCategoryView, OpNodeView};

verus! {

/// A structural marker that an aggregation step writes around its inputs.
#[derive(Debug)]
pub enum Marker {
    JobStart,
    JobEnd,
    LayerStart { uid: String },
    LayerEnd { uid: String },
    WorkpieceStart { uid: String },
    WorkpieceEnd { uid: String },
    ProcessStart { uid: String, params: String },
    ProcessEnd { uid: String },
}

/// The node `n` is the marker command that `m` stands for.
pub open spec fn is_marker_node(n: OpNodeView, m: Marker) -> bool {
    &&& n.extra_axes is None
    &&& match (n.category, m) {
        (OpCategoryView::Marker(MarkerCmd::JobStart), Marker::JobStart) => true,
        (OpCategoryView::Marker(MarkerCmd::JobEnd), Marker::JobEnd) => true,
        (OpCategoryView::Marker(MarkerCmd::LayerStart(a)), Marker::LayerStart { uid }) => a@ == uid@,
        (OpCategoryView::Marker(MarkerCmd::LayerEnd(a)), Marker::LayerEnd { uid }) => a@ == uid@,
        (OpCategoryView::Marker(MarkerCmd::WorkpieceStart(a)), Marker::WorkpieceStart { uid }) => a@
            == uid@,
        (OpCategoryView::Marker(MarkerCmd::WorkpieceEnd(a)), Marker::WorkpieceEnd { uid }) => a@
            == uid@,
        (
            OpCategoryView::Marker(MarkerCmd::ProcessStart { uid: a, params: p }),
            Marker::ProcessStart { uid, params },
        ) => a@ == uid@ && p@ == params@,
        (OpCategoryView::Marker(MarkerCmd::ProcessEnd { uid: a }), Marker::ProcessEnd { uid }) => a@
            == uid@,
        _ => false,
    }
}

/// Append the marker command that `marker` stands for.
pub fn emit_marker(ops: &mut Ops, marker: &Marker)
    ensures
        final(ops)@.len() == old(ops)@.len() + 1,
        final(ops)@.subrange(0, old(ops)@.len() as int) == old(ops)@,
        is_marker_node(final(ops)@.last(), *marker),
{
    match marker {
        Marker::JobStart => {
            ops.job_start();
            assert(ops@.subrange(0, old(ops)@.len() as int) =~= old(ops)@);
        },
        Marker::JobEnd => {
            ops.job_end();
            assert(ops@.subrange(0, old(ops)@.len() as int) =~= old(ops)@);
        },
        Marker::LayerStart { uid } => ops.layer_start(uid.as_str()),
        Marker::LayerEnd { uid } => ops.layer_end(uid.as_str()),
        Marker::WorkpieceStart { uid } => ops.workpiece_start(uid.as_str()),
        Marker::WorkpieceEnd { uid } => ops.workpiece_end(uid.as_str()),
        Marker::ProcessStart { uid, params } => ops.process_start(uid.as_str(), params.as_str()),
        Marker::ProcessEnd { uid } => ops.process_end(uid.as_str()),
    }
}

/// Append the marker commands for `markers`, in order.
pub fn emit_markers(ops: &mut Ops, markers: &Vec<Marker>)
    ensures
        final(ops)@.len() == old(ops)@.len() + markers@.len(),
        final(ops)@.subrange(0, old(ops)@.len() as int) == old(ops)@,
        forall|k: int|
            0 <= k < markers@.len() ==> is_marker_node(
                #[trigger] final(ops)@[old(ops)@.len() + k],
                markers@[k],
            ),
{
    let ghost start = ops@;
    let mut k: usize = 0;
    while k < markers.len()
        invariant
            k <= markers@.len(),
            ops@.len() == start.len() + k,
            ops@.subrange(0, start.len() as int) == start,
            start == old(ops)@,
            forall|j: int| 0 <= j < k ==> is_marker_node(#[trigger] ops@[start.len() + j], markers@[j]),
        decreases markers.len() - k,
    {
        let ghost before = ops@;
        emit_marker(ops, &markers[k]);
        proof {
            assert forall|j: int| 0 <= j < k + 1 implies is_marker_node(
                #[trigger] ops@[start.len() + j],
                markers@[j],
            ) by {
                if j < k {
                    assert(ops@[start.len() + j] == ops@.subrange(0, before.len() as int)[start.len()
                        + j]);
                }
            }
            assert(ops@.subrange(0, start.len() as int) =~= before.subrange(0, start.len() as int));
        }
        k = k + 1;
    }
}

} // verus!
