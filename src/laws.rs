//! Laws that relate the arena coordinator and the panel state machine over
//! a whole drag.

use crate::arena::{spec_stop_drag, DragAreaActiveDragData, DragAreaStates};
use crate::draggable::{
    spec_drag_origin, spec_next_state, DraggableGrabData, DraggableRestStates, DraggableSnapStates,
    DraggableStates,
};
use crate::geometry::{PointData, RectData};
use crate::snap::SnapInfo;
use crate::transition::{DraggableTransitionData, DraggableTransitionMode};
use vstd::prelude::*;

verus! {

/// A panel that can be lifted, grabbed at local offset `g`, stays grabbed
/// while the drag moves; when the drag ends at pointer `p` with no snap
/// pending, the panel floats with its origin at `p - g` and keeps its
/// measured size.
pub proof fn lemma_release_offset(
    state: DraggableStates,
    g: PointData,
    d: DragAreaActiveDragData,
    rect: RectData,
)
    requires
        spec_drag_origin(state) is Some,
        i64::MIN <= d.current_pos.x - g.x <= i64::MAX,
        i64::MIN <= d.current_pos.y - g.y <= i64::MAX,
    ensures
        ({
            let grabbed = DraggableStates::Grabbed(
                DraggableGrabData { grab_point: g, drag_origin: spec_drag_origin(state).unwrap() },
            );
            let ended = spec_stop_drag(DragAreaStates::Dragging(d), None);
            &&& spec_next_state(grabbed, DragAreaStates::Dragging(d), rect) == grabbed
            &&& spec_next_state(grabbed, ended, rect) == DraggableStates::Resting(
                DraggableRestStates::Released(
                    RectData {
                        origin: PointData {
                            x: (d.current_pos.x - g.x) as i64,
                            y: (d.current_pos.y - g.y) as i64,
                        },
                        size: rect.size,
                    },
                ),
            )
        }),
{
}

/// Avoidance: a settled panel B whose rectangle the dragged pointer enters
/// moves to the dragged panel's origin and previews the swap. When the drag
/// ends on a target overlapping B's rectangle, B settles at the dragged
/// panel's origin; otherwise B moves back to its own rectangle and settles
/// there.
pub proof fn lemma_avoidance_round_trip(
    info_b: SnapInfo,
    d: DragAreaActiveDragData,
    pending: Option<SnapInfo>,
    rect: RectData,
)
    requires
        info_b.rect.spec_contains(d.current_pos),
    ensures
        ({
            let a_start = d.starting_data.spec_snap_info();
            let dragging = DragAreaStates::Dragging(d);
            let ended = spec_stop_drag(dragging, pending);
            let t = DraggableTransitionData::spec_new(
                info_b,
                a_start,
                DraggableTransitionMode::Avoidance,
            );
            let s0 = DraggableStates::Resting(
                DraggableRestStates::Snapped(DraggableSnapStates::Final(info_b)),
            );
            let s1 = spec_next_state(s0, dragging, rect);
            let s2 = spec_next_state(s1, dragging, rect);
            let s3 = spec_next_state(s2, ended, rect);
            let s4 = spec_next_state(s3, ended, rect);
            let commits = pending matches Some(target) && target.rect.spec_intersects(info_b.rect);
            &&& s1 == DraggableStates::Resting(
                DraggableRestStates::Snapped(DraggableSnapStates::Transitioning(t)),
            )
            &&& s2 == DraggableStates::Resting(
                DraggableRestStates::Snapped(DraggableSnapStates::Preview(t)),
            )
            &&& commits ==> s3 == DraggableStates::Resting(
                DraggableRestStates::Snapped(DraggableSnapStates::Final(a_start)),
            )
            &&& !commits ==> s3 == DraggableStates::Resting(
                DraggableRestStates::Snapped(DraggableSnapStates::Transitioning(t.spec_reverse())),
            )
            &&& !commits ==> s4 == DraggableStates::Resting(
                DraggableRestStates::Snapped(DraggableSnapStates::Final(info_b)),
            )
        }),
{
}

} // verus!
