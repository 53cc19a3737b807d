//! A drop target: a passive probe that offers its rectangle to the arena as
//! the snap candidate when the dragged pointer enters it.

use crate::arena::{DragAreaStates, GlobalDragState};
use crate::error::DomRetrievalError;
use crate::geometry::RectData;
use crate::snap::SnapInfo;
use vstd::prelude::*;

verus! {

/// Whether a target at `rect` (if measured) holds the pointer of the drag in
/// progress in `global`.
pub open spec fn spec_target_hit(rect: Option<RectData>, global: DragAreaStates) -> bool {
    match rect {
        Some(r) => match global {
            DragAreaStates::Dragging(d) => r.spec_contains(d.current_pos),
            _ => false,
        },
        None => false,
    }
}

/// A named region a panel can dock into.
#[derive(Debug)]
pub struct DropTarget {
    id: String,
    rect: Option<RectData>,
    active: bool,
}

impl DropTarget {
    pub closed spec fn spec_id(self) -> String {
        self.id
    }

    /// The target's bounding rectangle, once measured.
    pub closed spec fn spec_rect(self) -> Option<RectData> {
        self.rect
    }

    /// Whether the dragged pointer was inside the target at the last update.
    pub closed spec fn spec_active(self) -> bool {
        self.active
    }

    /// A target not measured yet.
    pub fn new(id: String) -> (r: DropTarget)
        ensures
            r.spec_id() == id,
            r.spec_rect() == None::<RectData>,
            !r.spec_active(),
    {
        DropTarget { id, rect: None, active: false }
    }

    pub fn get_element_id(&self) -> (r: String)
        ensures
            r == self.spec_id(),
    {
        self.id.clone()
    }

    /// Records the target's measured bounding rectangle.
    pub fn set_rect(&mut self, rect: RectData)
        ensures
            final(self).spec_rect() == Some(rect),
            final(self).spec_id() == old(self).spec_id(),
            final(self).spec_active() == old(self).spec_active(),
    {
        self.rect = Some(rect);
    }

    /// The measured bounding rectangle, or the error naming this target when
    /// it has not been measured.
    pub fn get_rect(&self) -> (r: Result<RectData, DomRetrievalError>)
        ensures
            match self.spec_rect() {
                Some(rect) => r == Ok::<RectData, DomRetrievalError>(rect),
                None => r == Err::<RectData, DomRetrievalError>(DomRetrievalError(self.spec_id())),
            },
    {
        match self.rect {
            Some(rect) => Ok(rect),
            None => Err(DomRetrievalError::new(self.id.clone())),
        }
    }

    pub fn is_active(&self) -> (r: bool)
        ensures
            r == self.spec_active(),
    {
        self.active
    }

    /// One update against the arena: tests whether the dragged pointer lies in
    /// the target and, when it has just entered, offers the target as the
    /// arena's snap candidate. Leaving clears nothing; the arena keeps the
    /// last candidate offered.
    pub fn update_target(&mut self, arena: &mut GlobalDragState)
        ensures
            final(self).spec_id() == old(self).spec_id(),
            final(self).spec_rect() == old(self).spec_rect(),
            final(self).spec_active() == spec_target_hit(
                old(self).spec_rect(),
                old(arena).spec_drag_state(),
            ),
            final(arena).spec_drag_state() == old(arena).spec_drag_state(),
            final(arena).spec_pending_snap() == (if final(self).spec_active()
                && !old(self).spec_active() {
                Some(SnapInfo { rect: old(self).spec_rect().unwrap(), target_id: Some(old(self).spec_id()) })
            } else {
                old(arena).spec_pending_snap()
            }),
    {
        let hit = match self.rect {
            Some(rect) => match arena.get_drag_state() {
                DragAreaStates::Dragging(drag_info) => rect.contains(drag_info.current_pos),
                _ => false,
            },
            None => false,
        };
        if hit && !self.active {
            if let Some(rect) = self.rect {
                arena.set_snap_info(Some(SnapInfo::new(Some(self.id.clone()), rect)));
            }
        }
        self.active = hit;
    }
}

} // verus!
