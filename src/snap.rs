//! Where a panel is docked, and where a grabbed panel came from.

use crate::geometry::RectData;
use vstd::prelude::*;

verus! {

/// A rectangle a panel can snap to. `target_id` names the drop target it
/// belongs to; `None` marks an ephemeral rectangle, such as the free position
/// a floating panel was lifted from.
#[derive(Debug, PartialEq)]
pub struct SnapInfo {
    pub rect: RectData,
    pub target_id: Option<String>,
}

impl SnapInfo {
    pub fn new(target_id: Option<String>, rect: RectData) -> (r: SnapInfo)
        ensures
            r == (SnapInfo { rect, target_id }),
    {
        SnapInfo { rect, target_id }
    }

    /// A copy equal to `self`.
    pub fn duplicate(&self) -> (r: SnapInfo)
        ensures
            r == *self,
    {
        let target_id = match &self.target_id {
            Some(id) => Some(id.clone()),
            None => None,
        };
        SnapInfo { rect: self.rect, target_id }
    }
}

/// Where a grabbed panel was lifted from.
#[derive(Debug, PartialEq)]
pub enum DragOrigin {
    Snapped(SnapInfo),
    Free(RectData),
}

impl DragOrigin {
    /// The origin as a snap: a free rectangle becomes an ephemeral snap.
    pub open spec fn spec_snap_info(self) -> SnapInfo {
        match self {
            DragOrigin::Snapped(info) => info,
            DragOrigin::Free(rect) => SnapInfo { rect, target_id: None },
        }
    }

    pub fn get_snap_info(&self) -> (r: SnapInfo)
        ensures
            r == self.spec_snap_info(),
    {
        match self {
            DragOrigin::Snapped(snap_info) => snap_info.duplicate(),
            DragOrigin::Free(rect) => SnapInfo::new(None, *rect),
        }
    }

    /// A copy equal to `self`.
    pub fn duplicate(&self) -> (r: DragOrigin)
        ensures
            r == *self,
    {
        match self {
            DragOrigin::Snapped(info) => DragOrigin::Snapped(info.duplicate()),
            DragOrigin::Free(rect) => DragOrigin::Free(*rect),
        }
    }
}

} // verus!
