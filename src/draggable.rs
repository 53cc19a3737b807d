//! The per-panel state machine: lifting, releasing, snapping, avoidance, and
//! what to render.

use crate::arena::{DragAreaActiveDragData, DragAreaStates, DragEndings};
use crate::error::{DragError, DragErrorType};
use crate::geometry::{PointData, RectData};
use crate::grid::GridData;
use crate::snap::{DragOrigin, SnapInfo};
use crate::transition::{DraggableTransitionData, DraggableTransitionMode, TransitionFrame};
use vstd::prelude::*;

verus! {

/// How a panel is shown at rest: docked into a target, or floating at a free
/// position.
#[derive(Clone, Copy, Debug, PartialEq, Eq, Structural)]
pub enum DraggableVariants {
    DOCKED,
    FLOATING(PointData),
}

/// What a grab recorded: the pointer's offset from the panel's origin, and
/// where the panel was lifted from.
#[derive(Debug, PartialEq)]
pub struct DraggableGrabData {
    pub grab_point: PointData,
    pub drag_origin: DragOrigin,
}

/// A panel at rest: floating at a rectangle, or docked.
#[derive(Debug, PartialEq)]
pub enum DraggableRestStates {
    Released(RectData),
    Snapped(DraggableSnapStates),
}

/// A docked panel: settled, showing an avoidance preview, or moving.
#[derive(Debug, PartialEq)]
pub enum DraggableSnapStates {
    Preview(DraggableTransitionData),
    Final(SnapInfo),
    Transitioning(DraggableTransitionData),
}

/// A panel's state: not yet placed, held by the pointer, or at rest.
#[derive(Debug, PartialEq)]
pub enum DraggableStates {
    Initial,
    Grabbed(DraggableGrabData),
    Resting(DraggableRestStates),
}

/// How the host should present a panel.
#[derive(Clone, Copy, Debug, PartialEq, Eq, Structural)]
pub enum RenderStyle {
    /// Not placed yet: the host's default layout.
    Base,
    /// Floating or being dragged, at an explicit rectangle.
    Free,
    /// Docked at a rectangle.
    Snapped,
    /// Moving between two snaps.
    Transitioning,
}

/// Where the host should draw a panel.
#[derive(Debug, PartialEq)]
pub enum DraggablePositionData {
    Default,
    Rect(RectData),
    Anim(DraggableTransitionData),
}

/// What a panel renders in one update.
#[derive(Debug, PartialEq)]
pub struct DraggableRenderData {
    pub style: RenderStyle,
    pub position_data: DraggablePositionData,
}

impl DraggableGrabData {
    /// A copy equal to `self`.
    pub fn duplicate(&self) -> (r: DraggableGrabData)
        ensures
            r == *self,
    {
        DraggableGrabData { grab_point: self.grab_point, drag_origin: self.drag_origin.duplicate() }
    }
}

impl DraggableSnapStates {
    /// A copy equal to `self`.
    pub fn duplicate(&self) -> (r: DraggableSnapStates)
        ensures
            r == *self,
    {
        match self {
            DraggableSnapStates::Preview(t) => DraggableSnapStates::Preview(t.duplicate()),
            DraggableSnapStates::Final(info) => DraggableSnapStates::Final(info.duplicate()),
            DraggableSnapStates::Transitioning(t) => DraggableSnapStates::Transitioning(
                t.duplicate(),
            ),
        }
    }
}

impl DraggableStates {
    /// A copy equal to `self`.
    pub fn duplicate(&self) -> (r: DraggableStates)
        ensures
            r == *self,
    {
        match self {
            DraggableStates::Initial => DraggableStates::Initial,
            DraggableStates::Grabbed(g) => DraggableStates::Grabbed(g.duplicate()),
            DraggableStates::Resting(DraggableRestStates::Released(rect)) => DraggableStates::Resting(
                DraggableRestStates::Released(*rect),
            ),
            DraggableStates::Resting(DraggableRestStates::Snapped(s)) => DraggableStates::Resting(
                DraggableRestStates::Snapped(s.duplicate()),
            ),
        }
    }
}

// ---- the transition function ----

/// Where a finished transition settles: an avoidance becomes a preview, a
/// resting move becomes final at its destination.
pub open spec fn spec_transition_end_state(t: DraggableTransitionData) -> DraggableSnapStates {
    match t.mode {
        DraggableTransitionMode::Avoidance => DraggableSnapStates::Preview(t),
        DraggableTransitionMode::Resting => DraggableSnapStates::Final(t.to),
    }
}

/// A grabbed panel released at pointer `p` floats with its origin at `p`
/// less the grab offset, keeping its measured size.
pub open spec fn spec_drag_end_release_state(
    p: PointData,
    g: DraggableGrabData,
    rect: RectData,
) -> DraggableStates {
    DraggableStates::Resting(
        DraggableRestStates::Released(
            RectData { origin: RectData::spec_point_subtract(p, g.grab_point), size: rect.size },
        ),
    )
}

/// A grabbed panel dropped onto a target moves from its origin to the target.
pub open spec fn spec_drag_end_snap_state(info: SnapInfo, g: DraggableGrabData) -> DraggableStates {
    DraggableStates::Resting(
        DraggableRestStates::Snapped(
            DraggableSnapStates::Transitioning(
                DraggableTransitionData::spec_new(
                    g.drag_origin.spec_snap_info(),
                    info,
                    DraggableTransitionMode::Resting,
                ),
            ),
        ),
    )
}

/// The state of the grabbed panel when its own drag ends.
pub open spec fn spec_self_drag_end(
    g: DraggableGrabData,
    ending: DragEndings,
    rect: RectData,
) -> DraggableStates {
    match ending {
        DragEndings::Releasing(p) => spec_drag_end_release_state(p, g, rect),
        DragEndings::Snapping(info) => spec_drag_end_snap_state(info, g),
    }
}

/// How a docked panel resolves a preview when another panel's drag ends: a
/// drop onto a target overlapping the preview's origin commits the swap, and
/// the panel settles at once at the preview's destination, where it already
/// stands; any other drop moves the panel back.
pub open spec fn spec_other_drag_end(snap: DraggableSnapStates, ending: DragEndings) -> DraggableSnapStates {
    match snap {
        DraggableSnapStates::Preview(t) => match ending {
            DragEndings::Snapping(other) => if other.rect.spec_intersects(t.from.rect) {
                DraggableSnapStates::Final(t.to)
            } else {
                DraggableSnapStates::Transitioning(t.spec_reverse())
            },
            DragEndings::Releasing(_) => DraggableSnapStates::Transitioning(t.spec_reverse()),
        },
        _ => snap,
    }
}

/// The rectangle a resting panel occupies for hit-testing the pointer; a
/// moving panel uses its measured rectangle.
pub open spec fn spec_effective_rect(rest: DraggableRestStates, rect: RectData) -> RectData {
    match rest {
        DraggableRestStates::Released(r) => r,
        DraggableRestStates::Snapped(s) => match s {
            DraggableSnapStates::Final(info) => info.rect,
            DraggableSnapStates::Preview(t) => t.to.rect,
            DraggableSnapStates::Transitioning(_) => rect,
        },
    }
}

/// Avoidance while another panel is dragged: a settled panel under the
/// pointer starts moving to the dragged panel's origin; a preview reverses
/// when the pointer enters it again or leaves the rectangle it came from.
pub open spec fn spec_next_snap_state(
    snap: DraggableSnapStates,
    pointer_in: bool,
    d: DragAreaActiveDragData,
) -> DraggableSnapStates {
    match snap {
        DraggableSnapStates::Final(info) => if pointer_in {
            DraggableSnapStates::Transitioning(
                DraggableTransitionData::spec_new(
                    info,
                    d.starting_data.spec_snap_info(),
                    DraggableTransitionMode::Avoidance,
                ),
            )
        } else {
            snap
        },
        DraggableSnapStates::Preview(t) => if pointer_in || !t.from.rect.spec_contains(d.current_pos) {
            DraggableSnapStates::Transitioning(t.spec_reverse())
        } else {
            snap
        },
        DraggableSnapStates::Transitioning(t) => spec_transition_end_state(t),
    }
}

/// A resting panel while another panel is dragged.
pub open spec fn spec_while_other_dragged(
    rest: DraggableRestStates,
    d: DragAreaActiveDragData,
    rect: RectData,
) -> DraggableStates {
    match rest {
        DraggableRestStates::Released(_) => DraggableStates::Resting(rest),
        DraggableRestStates::Snapped(s) => DraggableStates::Resting(
            DraggableRestStates::Snapped(
                spec_next_snap_state(
                    s,
                    spec_effective_rect(rest, rect).spec_contains(d.current_pos),
                    d,
                ),
            ),
        ),
    }
}

/// One update of a panel in `state`, given the arena's state `global` and
/// the panel's measured rectangle `rect`.
pub open spec fn spec_next_state(
    state: DraggableStates,
    global: DragAreaStates,
    rect: RectData,
) -> DraggableStates {
    match state {
        DraggableStates::Initial => state,
        DraggableStates::Resting(rest) => match rest {
            DraggableRestStates::Snapped(DraggableSnapStates::Transitioning(t)) => DraggableStates::Resting(
                DraggableRestStates::Snapped(spec_transition_end_state(t)),
            ),
            _ => match global {
                DragAreaStates::Dragging(d) => spec_while_other_dragged(rest, d, rect),
                DragAreaStates::Released(ending) => match rest {
                    DraggableRestStates::Snapped(s) => DraggableStates::Resting(
                        DraggableRestStates::Snapped(spec_other_drag_end(s, ending)),
                    ),
                    DraggableRestStates::Released(_) => state,
                },
                DragAreaStates::Initial => state,
            },
        },
        DraggableStates::Grabbed(g) => match global {
            DragAreaStates::Released(ending) => spec_self_drag_end(g, ending, rect),
            _ => state,
        },
    }
}

/// Where a grab lifts a panel from, if it can be lifted at all.
pub open spec fn spec_drag_origin(state: DraggableStates) -> Option<DragOrigin> {
    match state {
        DraggableStates::Resting(DraggableRestStates::Released(rect)) => Some(DragOrigin::Free(rect)),
        DraggableStates::Resting(DraggableRestStates::Snapped(DraggableSnapStates::Final(info))) => Some(
            DragOrigin::Snapped(info),
        ),
        DraggableStates::Resting(
            DraggableRestStates::Snapped(DraggableSnapStates::Transitioning(t)),
        ) => Some(DragOrigin::Snapped(t.to)),
        _ => None,
    }
}

/// The state after polling a moving panel's transition at `now`: a finished
/// transition settles. Other states are left alone.
pub open spec fn spec_poll_state(state: DraggableStates, now: u64) -> (
    DraggableStates,
    Option<TransitionFrame>,
) {
    match state {
        DraggableStates::Resting(
            DraggableRestStates::Snapped(DraggableSnapStates::Transitioning(t)),
        ) => {
            let (t2, frame) = t.spec_poll(now);
            let next = if frame.finished {
                spec_transition_end_state(t2)
            } else {
                DraggableSnapStates::Transitioning(t2)
            };
            (DraggableStates::Resting(DraggableRestStates::Snapped(next)), Some(frame))
        },
        _ => (state, None),
    }
}

/// The state after the arena's bounds changed: a docked panel at a
/// registered target, settled or previewing, settles at its snap rescaled.
pub open spec fn spec_resized(state: DraggableStates, grid: GridData) -> DraggableStates {
    let snap = match state {
        DraggableStates::Resting(DraggableRestStates::Snapped(DraggableSnapStates::Final(info))) => Some(
            info,
        ),
        DraggableStates::Resting(DraggableRestStates::Snapped(DraggableSnapStates::Preview(t))) => Some(
            t.to,
        ),
        _ => None,
    };
    match snap {
        Some(info) => if info.target_id is Some {
            DraggableStates::Resting(
                DraggableRestStates::Snapped(
                    DraggableSnapStates::Final(
                        SnapInfo { rect: grid.spec_new_child_rect(info.rect), ..info },
                    ),
                ),
            )
        } else {
            state
        },
        None => state,
    }
}

// ---- render data ----

pub open spec fn spec_default_render() -> DraggableRenderData {
    DraggableRenderData { style: RenderStyle::Base, position_data: DraggablePositionData::Default }
}

pub open spec fn spec_free_render(rect: RectData) -> DraggableRenderData {
    DraggableRenderData { style: RenderStyle::Free, position_data: DraggablePositionData::Rect(rect) }
}

pub open spec fn spec_snapped_render(rect: RectData) -> DraggableRenderData {
    DraggableRenderData {
        style: RenderStyle::Snapped,
        position_data: DraggablePositionData::Rect(rect),
    }
}

/// A docked panel renders at its snap, or at its preview's destination, or
/// as the animation of its transition.
pub open spec fn spec_snap_render(snap: DraggableSnapStates) -> DraggableRenderData {
    match snap {
        DraggableSnapStates::Final(info) => spec_snapped_render(info.rect),
        DraggableSnapStates::Preview(t) => spec_snapped_render(t.to.rect),
        DraggableSnapStates::Transitioning(t) => DraggableRenderData {
            style: RenderStyle::Transitioning,
            position_data: DraggablePositionData::Anim(t),
        },
    }
}

/// A grabbed panel follows the pointer `p`, offset by the grab point.
pub open spec fn spec_follow_pointer(
    g: DraggableGrabData,
    p: PointData,
    rect: RectData,
) -> DraggableRenderData {
    spec_free_render(
        RectData { origin: RectData::spec_point_subtract(p, g.grab_point), size: rect.size },
    )
}

/// Whether the pair of a panel's state and the arena's state can be reached:
/// only a grabbed panel in an arena that never started a drag cannot.
pub open spec fn spec_render_state_is_legal(state: DraggableStates, global: DragAreaStates) -> bool {
    !(state is Grabbed && global is Initial)
}

/// What a panel in `state` renders, given the arena's state and the panel's
/// measured rectangle.
pub open spec fn spec_render_data(
    state: DraggableStates,
    global: DragAreaStates,
    rect: RectData,
) -> DraggableRenderData {
    match state {
        DraggableStates::Initial => spec_default_render(),
        DraggableStates::Grabbed(g) => match global {
            DragAreaStates::Dragging(d) => spec_follow_pointer(g, d.current_pos, rect),
            DragAreaStates::Released(DragEndings::Releasing(p)) => spec_follow_pointer(g, p, rect),
            DragAreaStates::Released(DragEndings::Snapping(_)) => spec_free_render(rect),
            DragAreaStates::Initial => spec_default_render(),
        },
        DraggableStates::Resting(DraggableRestStates::Released(r)) => spec_free_render(r),
        DraggableStates::Resting(DraggableRestStates::Snapped(s)) => spec_snap_render(s),
    }
}

impl Default for DraggableRenderData {
    fn default() -> (r: Self)
        ensures
            r == spec_default_render(),
    {
        DraggableRenderData { style: RenderStyle::Base, position_data: DraggablePositionData::Default }
    }
}

/// One panel: its state, how it rests, and its id.
#[derive(Debug)]
pub struct LocalDragState {
    drag_state: DraggableStates,
    draggable_variant: DraggableVariants,
    id: String,
}

impl LocalDragState {
    pub closed spec fn spec_state(self) -> DraggableStates {
        self.drag_state
    }

    pub closed spec fn spec_variant(self) -> DraggableVariants {
        self.draggable_variant
    }

    pub closed spec fn spec_id(self) -> String {
        self.id
    }

    /// An uninitialized panel.
    pub fn new(variant: DraggableVariants, id: String) -> (r: LocalDragState)
        ensures
            r.spec_state() == DraggableStates::Initial,
            r.spec_variant() == variant,
            r.spec_id() == id,
    {
        LocalDragState { drag_state: DraggableStates::Initial, draggable_variant: variant, id }
    }

    pub fn get_drag_state(&self) -> (r: DraggableStates)
        ensures
            r == self.spec_state(),
    {
        self.drag_state.duplicate()
    }

    pub fn get_element_id(&self) -> (r: String)
        ensures
            r == self.spec_id(),
    {
        self.id.clone()
    }

    pub fn get_is_uninitialized(&self) -> (r: bool)
        ensures
            r == (self.spec_state() is Initial),
    {
        matches!(self.drag_state, DraggableStates::Initial)
    }

    /// Places an uninitialized panel: a docked one settles at `snap`, a
    /// floating one rests at `snap.rect`. An initialized panel is left as it
    /// is.
    pub fn initialize(&mut self, snap: SnapInfo)
        ensures
            final(self).spec_variant() == old(self).spec_variant(),
            final(self).spec_id() == old(self).spec_id(),
            final(self).spec_state() == (if old(self).spec_state() is Initial {
                match old(self).spec_variant() {
                    DraggableVariants::DOCKED => DraggableStates::Resting(
                        DraggableRestStates::Snapped(DraggableSnapStates::Final(snap)),
                    ),
                    DraggableVariants::FLOATING(_) => DraggableStates::Resting(
                        DraggableRestStates::Released(snap.rect),
                    ),
                }
            } else {
                old(self).spec_state()
            }),
    {
        if self.get_is_uninitialized() {
            let rest = match self.draggable_variant {
                DraggableVariants::DOCKED => DraggableRestStates::Snapped(
                    DraggableSnapStates::Final(snap),
                ),
                DraggableVariants::FLOATING(_) => DraggableRestStates::Released(snap.rect),
            };
            self.drag_state = DraggableStates::Resting(rest);
        }
    }

    /// Rescales the snap of a docked panel at a registered target after the
    /// arena's bounds changed; a preview settles at its destination. Moving
    /// panels, ephemeral snaps and floating panels are left alone.
    pub fn resize_snapped(&mut self, grid: &GridData)
        ensures
            final(self).spec_variant() == old(self).spec_variant(),
            final(self).spec_id() == old(self).spec_id(),
            final(self).spec_state() == spec_resized(old(self).spec_state(), *grid),
    {
        let snap = match &self.drag_state {
            DraggableStates::Resting(DraggableRestStates::Snapped(DraggableSnapStates::Final(info))) => Some(
                info.duplicate(),
            ),
            DraggableStates::Resting(DraggableRestStates::Snapped(DraggableSnapStates::Preview(t))) => Some(
                t.to.duplicate(),
            ),
            _ => None,
        };
        if let Some(mut snap) = snap {
            if snap.target_id.is_some() {
                snap.rect = grid.get_new_child_rect(snap.rect);
                self.drag_state = DraggableStates::Resting(
                    DraggableRestStates::Snapped(DraggableSnapStates::Final(snap)),
                );
            }
        }
    }

    /// Lifts the panel: from a floating rest, a settled snap, or a snap
    /// transition (whose destination counts as the origin). Fails with
    /// `IllegalDragStart`, leaving the panel as it is, from any other state.
    pub fn start_drag(&mut self, grab_point: PointData) -> (r: Result<DraggableGrabData, DragError>)
        ensures
            final(self).spec_variant() == old(self).spec_variant(),
            final(self).spec_id() == old(self).spec_id(),
            match spec_drag_origin(old(self).spec_state()) {
                Some(drag_origin) => {
                    &&& r == Ok::<DraggableGrabData, DragError>(
                        DraggableGrabData { grab_point, drag_origin },
                    )
                    &&& final(self).spec_state() == DraggableStates::Grabbed(
                        DraggableGrabData { grab_point, drag_origin },
                    )
                },
                None => {
                    &&& r == Err::<DraggableGrabData, DragError>(
                        DragError(DragErrorType::IllegalDragStart),
                    )
                    &&& *final(self) == *old(self)
                },
            },
            old(self).spec_state() matches DraggableStates::Resting(
                DraggableRestStates::Snapped(DraggableSnapStates::Final(info)),
            ) ==> r == Ok::<DraggableGrabData, DragError>(
                DraggableGrabData { grab_point, drag_origin: DragOrigin::Snapped(info) },
            ),
    {
        let drag_origin = match &self.drag_state {
            DraggableStates::Resting(rest) => match rest {
                DraggableRestStates::Snapped(snap_data) => match snap_data {
                    DraggableSnapStates::Final(final_snap) => DragOrigin::Snapped(
                        final_snap.duplicate(),
                    ),
                    DraggableSnapStates::Transitioning(transition) => DragOrigin::Snapped(
                        transition.to.duplicate(),
                    ),
                    DraggableSnapStates::Preview(_) => {
                        return Err(DragError(DragErrorType::IllegalDragStart));
                    },
                },
                DraggableRestStates::Released(rect) => DragOrigin::Free(*rect),
            },
            _ => return Err(DragError(DragErrorType::IllegalDragStart)),
        };
        let grab_data = DraggableGrabData { grab_point, drag_origin };
        self.drag_state = DraggableStates::Grabbed(grab_data.duplicate());
        Ok(grab_data)
    }

    fn get_transition_end_state(transition: DraggableTransitionData) -> (r: DraggableSnapStates)
        ensures
            r == spec_transition_end_state(transition),
    {
        match transition.mode {
            DraggableTransitionMode::Avoidance => DraggableSnapStates::Preview(transition),
            DraggableTransitionMode::Resting => DraggableSnapStates::Final(transition.to),
        }
    }

    /// One update of the panel against the arena's state `global_drag_state`,
    /// with `rect` the panel's measured rectangle. A moving panel settles; a
    /// docked panel under another panel's pointer starts or reverses an
    /// avoidance, and resolves it when that drag ends; the grabbed panel comes
    /// to rest when its own drag ends. Other pairs leave the panel as it is.
    pub fn update_state(&mut self, global_drag_state: DragAreaStates, rect: RectData)
        ensures
            final(self).spec_variant() == old(self).spec_variant(),
            final(self).spec_id() == old(self).spec_id(),
            final(self).spec_state() == spec_next_state(
                old(self).spec_state(),
                global_drag_state,
                rect,
            ),
    {
        let mut current = DraggableStates::Initial;
        std::mem::swap(&mut self.drag_state, &mut current);
        let next = match current {
            DraggableStates::Initial => DraggableStates::Initial,
            DraggableStates::Resting(rest) => match rest {
                DraggableRestStates::Snapped(DraggableSnapStates::Transitioning(transition)) => {
                    DraggableStates::Resting(
                        DraggableRestStates::Snapped(Self::get_transition_end_state(transition)),
                    )
                },
                rest => match global_drag_state {
                    DragAreaStates::Dragging(drag_data) => Self::update_state_while_other_is_dragged(
                        rest,
                        drag_data,
                        rect,
                    ),
                    DragAreaStates::Released(drag_end_data) => match rest {
                        DraggableRestStates::Snapped(snap_state) => DraggableStates::Resting(
                            DraggableRestStates::Snapped(
                                Self::update_state_on_other_drag_end(snap_state, drag_end_data),
                            ),
                        ),
                        DraggableRestStates::Released(r) => DraggableStates::Resting(
                            DraggableRestStates::Released(r),
                        ),
                    },
                    DragAreaStates::Initial => DraggableStates::Resting(rest),
                },
            },
            DraggableStates::Grabbed(grab_data) => match global_drag_state {
                DragAreaStates::Released(drag_end_data) => Self::update_state_on_self_drag_end(
                    grab_data,
                    drag_end_data,
                    rect,
                ),
                _ => DraggableStates::Grabbed(grab_data),
            },
        };
        self.drag_state = next;
    }

    fn update_state_on_self_drag_end(
        draggable_grab_data: DraggableGrabData,
        drag_end_data: DragEndings,
        rect: RectData,
    ) -> (r: DraggableStates)
        ensures
            r == spec_self_drag_end(draggable_grab_data, drag_end_data, rect),
    {
        match drag_end_data {
            DragEndings::Releasing(pointer_position) => Self::get_drag_end_release_state(
                pointer_position,
                draggable_grab_data,
                rect,
            ),
            DragEndings::Snapping(snap_data) => Self::get_drag_end_snap_state(
                snap_data,
                draggable_grab_data,
            ),
        }
    }

    fn get_drag_end_release_state(
        pointer_position: PointData,
        draggable_grab_data: DraggableGrabData,
        rect: RectData,
    ) -> (r: DraggableStates)
        ensures
            r == spec_drag_end_release_state(pointer_position, draggable_grab_data, rect),
    {
        let origin = Self::origin_with_grab_offset(draggable_grab_data.grab_point, pointer_position);
        DraggableStates::Resting(DraggableRestStates::Released(RectData { origin, size: rect.size }))
    }

    fn get_drag_end_snap_state(snap_data: SnapInfo, draggable_grab_data: DraggableGrabData) -> (r:
        DraggableStates)
        ensures
            r == spec_drag_end_snap_state(snap_data, draggable_grab_data),
    {
        let from = draggable_grab_data.drag_origin.get_snap_info();
        DraggableStates::Resting(
            DraggableRestStates::Snapped(
                DraggableSnapStates::Transitioning(
                    DraggableTransitionData::new(from, snap_data, DraggableTransitionMode::Resting),
                ),
            ),
        )
    }

    fn update_state_on_other_drag_end(snap_state: DraggableSnapStates, drag_end_data: DragEndings) -> (r:
        DraggableSnapStates)
        ensures
            r == spec_other_drag_end(snap_state, drag_end_data),
    {
        match snap_state {
            DraggableSnapStates::Preview(preview_data) => match drag_end_data {
                DragEndings::Snapping(other_snap_info) => {
                    if other_snap_info.rect.intersects(&preview_data.from.rect) {
                        DraggableSnapStates::Final(preview_data.to)
                    } else {
                        DraggableSnapStates::Transitioning(preview_data.reverse())
                    }
                },
                DragEndings::Releasing(_) => DraggableSnapStates::Transitioning(
                    preview_data.reverse(),
                ),
            },
            other => other,
        }
    }

    fn update_state_while_other_is_dragged(
        draggable_rest_state: DraggableRestStates,
        drag_area_dragging_state: DragAreaActiveDragData,
        rect: RectData,
    ) -> (r: DraggableStates)
        ensures
            r == spec_while_other_dragged(draggable_rest_state, drag_area_dragging_state, rect),
    {
        let this_rect = match &draggable_rest_state {
            DraggableRestStates::Released(released) => *released,
            DraggableRestStates::Snapped(snap_state) => match snap_state {
                DraggableSnapStates::Final(info) => info.rect,
                DraggableSnapStates::Preview(transition) => transition.to.rect,
                DraggableSnapStates::Transitioning(_) => rect,
            },
        };
        let intersects_this_rect = this_rect.contains(drag_area_dragging_state.current_pos);
        match draggable_rest_state {
            DraggableRestStates::Released(released) => DraggableStates::Resting(
                DraggableRestStates::Released(released),
            ),
            DraggableRestStates::Snapped(snap_state) => DraggableStates::Resting(
                DraggableRestStates::Snapped(
                    Self::get_next_snap_state(
                        snap_state,
                        intersects_this_rect,
                        drag_area_dragging_state,
                    ),
                ),
            ),
        }
    }

    fn get_next_snap_state(
        snap_state: DraggableSnapStates,
        intersects_pointer: bool,
        drag_area_dragging_state: DragAreaActiveDragData,
    ) -> (r: DraggableSnapStates)
        ensures
            r == spec_next_snap_state(snap_state, intersects_pointer, drag_area_dragging_state),
    {
        match snap_state {
            DraggableSnapStates::Final(info) => {
                if intersects_pointer {
                    let start_snap = drag_area_dragging_state.starting_data.get_snap_info();
                    DraggableSnapStates::Transitioning(
                        DraggableTransitionData::new(
                            info,
                            start_snap,
                            DraggableTransitionMode::Avoidance,
                        ),
                    )
                } else {
                    DraggableSnapStates::Final(info)
                }
            },
            DraggableSnapStates::Preview(transition) => {
                if intersects_pointer || !transition.from.rect.contains(
                    drag_area_dragging_state.current_pos,
                ) {
                    DraggableSnapStates::Transitioning(transition.reverse())
                } else {
                    DraggableSnapStates::Preview(transition)
                }
            },
            DraggableSnapStates::Transitioning(transition) => Self::get_transition_end_state(
                transition,
            ),
        }
    }

    /// Advances a moving panel's transition to time `now` (milliseconds) and
    /// returns the frame to draw; a finished transition settles into a preview
    /// or a final snap. Returns `None`, changing nothing, for a panel that is
    /// not moving.
    pub fn poll_transition(&mut self, now: u64) -> (r: Option<TransitionFrame>)
        ensures
            final(self).spec_variant() == old(self).spec_variant(),
            final(self).spec_id() == old(self).spec_id(),
            (final(self).spec_state(), r) == spec_poll_state(old(self).spec_state(), now),
    {
        if let DraggableStates::Resting(
            DraggableRestStates::Snapped(DraggableSnapStates::Transitioning(transition)),
        ) = &mut self.drag_state {
            let frame = transition.poll(now);
            if frame.finished {
                let settled = Self::get_transition_end_state(transition.duplicate());
                self.drag_state = DraggableStates::Resting(DraggableRestStates::Snapped(settled));
            }
            Some(frame)
        } else {
            None
        }
    }

    /// Whether the panel's state and the arena's state `global_drag_state`
    /// form a reachable pair; `IllegalRenderState` when they do not.
    pub fn check_render_state(&self, global_drag_state: &DragAreaStates) -> (r: Result<(), DragError>)
        ensures
            r is Ok <==> spec_render_state_is_legal(self.spec_state(), *global_drag_state),
            r is Err ==> r == Err::<(), DragError>(DragError(DragErrorType::IllegalRenderState)),
    {
        match (&self.drag_state, global_drag_state) {
            (DraggableStates::Grabbed(_), DragAreaStates::Initial) => Err(
                DragError(DragErrorType::IllegalRenderState),
            ),
            _ => Ok(()),
        }
    }

    /// What the panel renders, given the arena's state and the panel's
    /// measured rectangle `rect`: a grabbed panel follows the pointer, a
    /// resting one renders where it rests, a moving one its transition. An
    /// unreachable pair renders the default frame.
    pub fn get_render_data(&self, global_drag_state: DragAreaStates, rect: RectData) -> (r:
        DraggableRenderData)
        ensures
            r == spec_render_data(self.spec_state(), global_drag_state, rect),
    {
        match &self.drag_state {
            DraggableStates::Initial => DraggableRenderData::default(),
            DraggableStates::Grabbed(grab_data) => match global_drag_state {
                DragAreaStates::Dragging(drag_data) => {
                    let origin = Self::origin_with_grab_offset(
                        grab_data.grab_point,
                        drag_data.current_pos,
                    );
                    Self::free_or_dragging(RectData { origin, size: rect.size })
                },
                DragAreaStates::Released(DragEndings::Releasing(release)) => {
                    let origin = Self::origin_with_grab_offset(grab_data.grab_point, release);
                    Self::free_or_dragging(RectData { origin, size: rect.size })
                },
                DragAreaStates::Released(DragEndings::Snapping(_)) => Self::free_or_dragging(rect),
                DragAreaStates::Initial => DraggableRenderData::default(),
            },
            DraggableStates::Resting(rest_state) => Self::get_render_data_for_resting_states(
                rest_state,
            ),
        }
    }

    fn get_render_data_for_resting_states(draggable_rest_state: &DraggableRestStates) -> (r:
        DraggableRenderData)
        ensures
            r == (match *draggable_rest_state {
                DraggableRestStates::Released(release_rect) => spec_free_render(release_rect),
                DraggableRestStates::Snapped(s) => spec_snap_render(s),
            }),
    {
        match draggable_rest_state {
            DraggableRestStates::Released(release_rect) => Self::free_or_dragging(*release_rect),
            DraggableRestStates::Snapped(snap_state) => Self::get_render_data_for_avoidance_states(
                snap_state,
            ),
        }
    }

    fn get_render_data_for_avoidance_states(draggable_snap_state: &DraggableSnapStates) -> (r:
        DraggableRenderData)
        ensures
            r == spec_snap_render(*draggable_snap_state),
    {
        match draggable_snap_state {
            DraggableSnapStates::Final(snap_info) => Self::snapped(snap_info.rect),
            DraggableSnapStates::Preview(transition) => Self::snapped(transition.to.rect),
            DraggableSnapStates::Transitioning(transition) => DraggableRenderData {
                style: RenderStyle::Transitioning,
                position_data: DraggablePositionData::Anim(transition.duplicate()),
            },
        }
    }

    fn free_or_dragging(rect: RectData) -> (r: DraggableRenderData)
        ensures
            r == spec_free_render(rect),
    {
        DraggableRenderData { style: RenderStyle::Free, position_data: DraggablePositionData::Rect(rect) }
    }

    fn snapped(rect: RectData) -> (r: DraggableRenderData)
        ensures
            r == spec_snapped_render(rect),
    {
        DraggableRenderData {
            style: RenderStyle::Snapped,
            position_data: DraggablePositionData::Rect(rect),
        }
    }

    /// The panel's origin for a pointer at `pointer_pos` grabbed at
    /// `drag_point`.
    fn origin_with_grab_offset(drag_point: PointData, pointer_pos: PointData) -> (r: PointData)
        ensures
            r == RectData::spec_point_subtract(pointer_pos, drag_point),
    {
        RectData::point_subtract(pointer_pos, drag_point)
    }
}

} // verus!
