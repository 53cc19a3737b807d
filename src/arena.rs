//! The arena coordinator: the one drag session and the pending snap
//! candidate that drop targets offer.

use crate::geometry::PointData;
use crate::snap::{DragOrigin, SnapInfo};
use vstd::prelude::*;

verus! {

/// How a drag ended: docked into a target, or released at a pointer position.
#[derive(Debug, PartialEq)]
pub enum DragEndings {
    Snapping(SnapInfo),
    Releasing(PointData),
}

impl DragEndings {
    /// A copy equal to `self`.
    pub fn duplicate(&self) -> (r: DragEndings)
        ensures
            r == *self,
    {
        match self {
            DragEndings::Snapping(info) => DragEndings::Snapping(info.duplicate()),
            DragEndings::Releasing(p) => DragEndings::Releasing(*p),
        }
    }
}

/// The live pointer of a drag, and where the dragged panel came from.
#[derive(Debug, PartialEq)]
pub struct DragAreaActiveDragData {
    pub current_pos: PointData,
    pub starting_data: DragOrigin,
}

impl DragAreaActiveDragData {
    pub fn update_current_pos(&mut self, new_pos: PointData)
        ensures
            final(self).current_pos == new_pos,
            final(self).starting_data == old(self).starting_data,
    {
        self.current_pos = new_pos;
    }

    /// A copy equal to `self`.
    pub fn duplicate(&self) -> (r: DragAreaActiveDragData)
        ensures
            r == *self,
    {
        DragAreaActiveDragData {
            current_pos: self.current_pos,
            starting_data: self.starting_data.duplicate(),
        }
    }
}

/// The arena's drag lifecycle.
#[derive(Debug, PartialEq)]
pub enum DragAreaStates {
    Initial,
    Dragging(DragAreaActiveDragData),
    Released(DragEndings),
}

impl DragAreaStates {
    /// A copy equal to `self`.
    pub fn duplicate(&self) -> (r: DragAreaStates)
        ensures
            r == *self,
    {
        match self {
            DragAreaStates::Initial => DragAreaStates::Initial,
            DragAreaStates::Dragging(d) => DragAreaStates::Dragging(d.duplicate()),
            DragAreaStates::Released(e) => DragAreaStates::Released(e.duplicate()),
        }
    }
}

/// The drag state that `stop_drag` leaves: a drag in progress ends by docking
/// into the pending snap if there is one, else by a release at the pointer.
pub open spec fn spec_stop_drag(state: DragAreaStates, pending: Option<SnapInfo>) -> DragAreaStates {
    match state {
        DragAreaStates::Dragging(d) => match pending {
            Some(info) => DragAreaStates::Released(DragEndings::Snapping(info)),
            None => DragAreaStates::Released(DragEndings::Releasing(d.current_pos)),
        },
        _ => state,
    }
}

/// The arena coordinator, shared by every panel and drop target of an arena.
#[derive(Debug)]
pub struct GlobalDragState {
    drag_state: DragAreaStates,
    snap_info: Option<SnapInfo>,
}

impl GlobalDragState {
    /// The drag lifecycle.
    pub closed spec fn spec_drag_state(self) -> DragAreaStates {
        self.drag_state
    }

    /// The snap candidate last offered by a drop target.
    pub closed spec fn spec_pending_snap(self) -> Option<SnapInfo> {
        self.snap_info
    }

    /// An arena with no drag and no snap candidate.
    pub fn new() -> (r: GlobalDragState)
        ensures
            r.spec_drag_state() == DragAreaStates::Initial,
            r.spec_pending_snap() == None::<SnapInfo>,
    {
        GlobalDragState { drag_state: DragAreaStates::Initial, snap_info: None }
    }

    pub fn get_drag_state(&self) -> (r: DragAreaStates)
        ensures
            r == self.spec_drag_state(),
    {
        self.drag_state.duplicate()
    }

    /// Replaces the pending snap candidate; the last writer wins.
    pub fn set_snap_info(&mut self, info: Option<SnapInfo>)
        ensures
            final(self).spec_pending_snap() == info,
            final(self).spec_drag_state() == old(self).spec_drag_state(),
    {
        self.snap_info = info;
    }

    pub fn get_snap_info(&self) -> (r: Option<SnapInfo>)
        ensures
            r == self.spec_pending_snap(),
    {
        match &self.snap_info {
            Some(info) => Some(info.duplicate()),
            None => None,
        }
    }

    /// Ends a drag in progress: into `Released(Snapping(info))` when a snap
    /// `info` is pending, else into `Released(Releasing(p))` at the pointer
    /// `p`. Does nothing when no drag is in progress. The pending snap stays.
    pub fn stop_drag(&mut self)
        ensures
            final(self).spec_drag_state() == spec_stop_drag(
                old(self).spec_drag_state(),
                old(self).spec_pending_snap(),
            ),
            final(self).spec_pending_snap() == old(self).spec_pending_snap(),
    {
        if let DragAreaStates::Dragging(drag_data) = &self.drag_state {
            let next = match &self.snap_info {
                Some(info) => DragAreaStates::Released(DragEndings::Snapping(info.duplicate())),
                None => DragAreaStates::Released(DragEndings::Releasing(drag_data.current_pos)),
            };
            self.drag_state = next;
        }
    }

    pub fn is_dragging(&self) -> (r: bool)
        ensures
            r == (self.spec_drag_state() is Dragging),
    {
        matches!(self.drag_state, DragAreaStates::Dragging(_))
    }

    /// Starts a drag from `Initial` or `Released`, clearing the snap candidate
    /// of the previous drag. Ignored while a drag is in progress.
    pub fn start_drag(&mut self, drag_data: DragAreaActiveDragData)
        ensures
            old(self).spec_drag_state() is Dragging ==> *final(self) == *old(self),
            !(old(self).spec_drag_state() is Dragging) ==> {
                &&& final(self).spec_drag_state() == DragAreaStates::Dragging(drag_data)
                &&& final(self).spec_pending_snap() == None::<SnapInfo>
            },
    {
        match self.drag_state {
            DragAreaStates::Initial | DragAreaStates::Released(_) => {
                self.drag_state = DragAreaStates::Dragging(drag_data);
                self.snap_info = None;
            },
            DragAreaStates::Dragging(_) => {},
        }
    }

    /// Moves the pointer of a drag in progress; ignored otherwise.
    pub fn update_drag(&mut self, pos: PointData)
        ensures
            final(self).spec_drag_state() == (match old(self).spec_drag_state() {
                DragAreaStates::Dragging(d) => DragAreaStates::Dragging(
                    DragAreaActiveDragData { current_pos: pos, ..d },
                ),
                other => other,
            }),
            final(self).spec_pending_snap() == old(self).spec_pending_snap(),
    {
        if let DragAreaStates::Dragging(drag_data) = &mut self.drag_state {
            drag_data.update_current_pos(pos);
        }
    }
}

impl Default for GlobalDragState {
    fn default() -> (r: Self)
        ensures
            r.spec_drag_state() == DragAreaStates::Initial,
            r.spec_pending_snap() == None::<SnapInfo>,
    {
        GlobalDragState::new()
    }
}

/// The pointer-up entry point of an arena.
pub struct DraggableStateController;

impl DraggableStateController {
    /// Ends the arena's drag, if one is in progress.
    pub fn stop_drag(global_drag_info: &mut GlobalDragState)
        ensures
            final(global_drag_info).spec_drag_state() == spec_stop_drag(
                old(global_drag_info).spec_drag_state(),
                old(global_drag_info).spec_pending_snap(),
            ),
            final(global_drag_info).spec_pending_snap() == old(global_drag_info).spec_pending_snap(),
    {
        if global_drag_info.is_dragging() {
            global_drag_info.stop_drag();
        }
    }
}

} // verus!
