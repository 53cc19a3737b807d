//! A whole arena: the coordinator, its drop targets and its panels, driven
//! by pointer events. Every event is one tick: the coordinator takes the
//! event first, then every drop target probes the new arena state, then every
//! panel updates against that same state.

use crate::arena::{DragAreaActiveDragData, DragAreaStates, GlobalDragState, spec_stop_drag};
use crate::draggable::{spec_drag_origin, spec_next_state, DraggableGrabData, DraggableStates, LocalDragState};
use crate::error::{DragError, DragErrorType};
use crate::geometry::{PointData, RectData};
use crate::snap::SnapInfo;
use crate::target::{spec_target_hit, DropTarget};
use vstd::prelude::*;

verus! {

/// The snap candidate after `targets` probe the arena state `global` in
/// order, starting from `pending`: each target that the pointer has just
/// entered offers itself, and the last one to do so wins.
pub open spec fn spec_probe_pending(
    targets: Seq<DropTarget>,
    global: DragAreaStates,
    pending: Option<SnapInfo>,
) -> Option<SnapInfo>
    decreases targets.len(),
{
    if targets.len() == 0 {
        pending
    } else {
        let before = spec_probe_pending(targets.drop_last(), global, pending);
        let t = targets.last();
        if spec_target_hit(t.spec_rect(), global) && !t.spec_active() {
            Some(SnapInfo { rect: t.spec_rect().unwrap(), target_id: Some(t.spec_id()) })
        } else {
            before
        }
    }
}

/// `after` is `before` once probed against `global`.
pub open spec fn spec_target_probed(before: DropTarget, after: DropTarget, global: DragAreaStates) -> bool {
    &&& after.spec_id() == before.spec_id()
    &&& after.spec_rect() == before.spec_rect()
    &&& after.spec_active() == spec_target_hit(before.spec_rect(), global)
}

/// `after` is `before` once updated against `global` with measured `rect`.
pub open spec fn spec_panel_updated(
    before: LocalDragState,
    after: LocalDragState,
    global: DragAreaStates,
    rect: RectData,
) -> bool {
    &&& after.spec_id() == before.spec_id()
    &&& after.spec_variant() == before.spec_variant()
    &&& after.spec_state() == spec_next_state(before.spec_state(), global, rect)
}

/// A drag surface with its coordinator, drop targets and panels.
pub struct DragArena {
    arena: GlobalDragState,
    targets: Vec<DropTarget>,
    panels: Vec<LocalDragState>,
}

impl DragArena {
    pub closed spec fn spec_arena(self) -> GlobalDragState {
        self.arena
    }

    pub closed spec fn spec_targets(self) -> Seq<DropTarget> {
        self.targets@
    }

    pub closed spec fn spec_panels(self) -> Seq<LocalDragState> {
        self.panels@
    }

    /// What one tick does: `after` is the arena once `targets` and `panels`
    /// have reacted, in order, to the arena state `global` left by the event,
    /// with `pending` the snap candidate the event left, and `rects` the
    /// panels' measured rectangles.
    pub open spec fn spec_ticked(
        targets: Seq<DropTarget>,
        panels: Seq<LocalDragState>,
        after: DragArena,
        global: DragAreaStates,
        pending: Option<SnapInfo>,
        rects: Seq<RectData>,
    ) -> bool {
        &&& after.spec_arena().spec_drag_state() == global
        &&& after.spec_arena().spec_pending_snap() == spec_probe_pending(targets, global, pending)
        &&& after.spec_targets().len() == targets.len()
        &&& forall|i: int|
            0 <= i < targets.len() ==> spec_target_probed(
                targets[i],
                #[trigger] after.spec_targets()[i],
                global,
            )
        &&& after.spec_panels().len() == panels.len()
        &&& forall|i: int|
            0 <= i < panels.len() ==> spec_panel_updated(
                panels[i],
                #[trigger] after.spec_panels()[i],
                global,
                rects[i],
            )
    }

    /// An arena with no targets and no panels.
    pub fn new() -> (r: DragArena)
        ensures
            r.spec_arena().spec_drag_state() == DragAreaStates::Initial,
            r.spec_arena().spec_pending_snap() == None::<SnapInfo>,
            r.spec_targets().len() == 0,
            r.spec_panels().len() == 0,
    {
        DragArena { arena: GlobalDragState::new(), targets: Vec::new(), panels: Vec::new() }
    }

    /// Adds a drop target; it is known by the index returned.
    pub fn add_target(&mut self, target: DropTarget) -> (r: usize)
        requires
            old(self).spec_targets().len() < usize::MAX,
        ensures
            r == old(self).spec_targets().len(),
            final(self).spec_targets() == old(self).spec_targets().push(target),
            final(self).spec_panels() == old(self).spec_panels(),
            final(self).spec_arena() == old(self).spec_arena(),
    {
        let index = self.targets.len();
        self.targets.push(target);
        index
    }

    /// Adds a panel; it is known by the index returned.
    pub fn add_panel(&mut self, panel: LocalDragState) -> (r: usize)
        requires
            old(self).spec_panels().len() < usize::MAX,
        ensures
            r == old(self).spec_panels().len(),
            final(self).spec_panels() == old(self).spec_panels().push(panel),
            final(self).spec_targets() == old(self).spec_targets(),
            final(self).spec_arena() == old(self).spec_arena(),
    {
        let index = self.panels.len();
        self.panels.push(panel);
        index
    }

    pub fn target_count(&self) -> (r: usize)
        ensures
            r == self.spec_targets().len(),
    {
        self.targets.len()
    }

    pub fn panel_count(&self) -> (r: usize)
        ensures
            r == self.spec_panels().len(),
    {
        self.panels.len()
    }

    pub fn arena(&self) -> (r: &GlobalDragState)
        ensures
            *r == self.spec_arena(),
    {
        &self.arena
    }

    pub fn target(&self, index: usize) -> (r: &DropTarget)
        requires
            index < self.spec_targets().len(),
        ensures
            *r == self.spec_targets()[index as int],
    {
        &self.targets[index]
    }

    pub fn panel(&self, index: usize) -> (r: &LocalDragState)
        requires
            index < self.spec_panels().len(),
        ensures
            *r == self.spec_panels()[index as int],
    {
        &self.panels[index]
    }

    /// Mutable access to a panel, for the host's own updates (initializing,
    /// rescaling, advancing its transition).
    pub fn panel_mut(&mut self, index: usize) -> (r: &mut LocalDragState)
        requires
            index < old(self).spec_panels().len(),
        ensures
            *r == old(self).spec_panels()[index as int],
            final(self).spec_panels() == old(self).spec_panels().update(index as int, *final(r)),
            final(self).spec_targets() == old(self).spec_targets(),
            final(self).spec_arena() == old(self).spec_arena(),
    {
        &mut self.panels[index]
    }

    /// Mutable access to a target, for recording its measured rectangle.
    pub fn target_mut(&mut self, index: usize) -> (r: &mut DropTarget)
        requires
            index < old(self).spec_targets().len(),
        ensures
            *r == old(self).spec_targets()[index as int],
            final(self).spec_targets() == old(self).spec_targets().update(index as int, *final(r)),
            final(self).spec_panels() == old(self).spec_panels(),
            final(self).spec_arena() == old(self).spec_arena(),
    {
        &mut self.targets[index]
    }

    /// Every target probes the arena's current state, in order; then every
    /// panel updates against that state with its measured rectangle.
    fn tick(&mut self, rects: &Vec<RectData>)
        requires
            rects@.len() == old(self).spec_panels().len(),
        ensures
            DragArena::spec_ticked(
                old(self).spec_targets(),
                old(self).spec_panels(),
                *final(self),
                old(self).spec_arena().spec_drag_state(),
                old(self).spec_arena().spec_pending_snap(),
                rects@,
            ),
    {
        let ghost start = *self;
        let mut i: usize = 0;
        while i < self.targets.len()
            invariant
                0 <= i <= self.targets@.len(),
                self.targets@.len() == start.targets@.len(),
                self.panels@ == start.panels@,
                self.arena.spec_drag_state() == start.arena.spec_drag_state(),
                self.arena.spec_pending_snap() == spec_probe_pending(
                    start.targets@.take(i as int),
                    start.arena.spec_drag_state(),
                    start.arena.spec_pending_snap(),
                ),
                forall|j: int|
                    0 <= j < i ==> spec_target_probed(
                        #[trigger] start.targets@[j],
                        self.targets@[j],
                        start.arena.spec_drag_state(),
                    ),
                forall|j: int| i <= j < self.targets@.len() ==> self.targets@[j] == start.targets@[j],
            decreases self.targets@.len() - i,
        {
            self.targets[i].update_target(&mut self.arena);
            proof {
                assert(start.targets@.take(i + 1).drop_last() == start.targets@.take(i as int));
            }
            i = i + 1;
        }
        proof {
            assert(start.targets@.take(i as int) == start.targets@);
        }
        let global = self.arena.get_drag_state();
        let mut k: usize = 0;
        while k < self.panels.len()
            invariant
                0 <= k <= self.panels@.len(),
                self.panels@.len() == start.panels@.len(),
                rects@.len() == start.panels@.len(),
                global == start.arena.spec_drag_state(),
                self.arena.spec_drag_state() == global,
                self.arena.spec_pending_snap() == spec_probe_pending(
                    start.targets@,
                    global,
                    start.arena.spec_pending_snap(),
                ),
                self.targets@.len() == start.targets@.len(),
                forall|j: int|
                    0 <= j < self.targets@.len() ==> spec_target_probed(
                        #[trigger] start.targets@[j],
                        self.targets@[j],
                        global,
                    ),
                forall|j: int|
                    0 <= j < k ==> spec_panel_updated(
                        #[trigger] start.panels@[j],
                        self.panels@[j],
                        global,
                        rects@[j],
                    ),
                forall|j: int| k <= j < self.panels@.len() ==> self.panels@[j] == start.panels@[j],
            decreases self.panels@.len() - k,
        {
            self.panels[k].update_state(global.duplicate(), rects[k]);
            k = k + 1;
        }
    }

    /// Pointer down on the handle of panel `panel` at `grab_point` (panel
    /// space), with the pointer at `pointer` (arena space). The panel is
    /// lifted and the drag starts, then the arena ticks. Fails with
    /// `IllegalDragStart`, changing nothing, when a drag is already in
    /// progress or the panel cannot be lifted.
    pub fn pointer_down(
        &mut self,
        panel: usize,
        grab_point: PointData,
        pointer: PointData,
        rects: &Vec<RectData>,
    ) -> (r: Result<(), DragError>)
        requires
            panel < old(self).spec_panels().len(),
            rects@.len() == old(self).spec_panels().len(),
        ensures
            ({
                let p = old(self).spec_panels()[panel as int];
                let refused = old(self).spec_arena().spec_drag_state() is Dragging || spec_drag_origin(
                    p.spec_state(),
                ) is None;
                &&& refused ==> {
                    &&& r == Err::<(), DragError>(DragError(DragErrorType::IllegalDragStart))
                    &&& final(self).spec_arena() == old(self).spec_arena()
                    &&& final(self).spec_targets() == old(self).spec_targets()
                    &&& final(self).spec_panels() == old(self).spec_panels()
                }
                &&& !refused ==> r == Ok::<(), DragError>(()) && exists|lifted: LocalDragState|
                    {
                        &&& lifted.spec_id() == p.spec_id()
                        &&& lifted.spec_variant() == p.spec_variant()
                        &&& lifted.spec_state() == DraggableStates::Grabbed(
                            DraggableGrabData {
                                grab_point,
                                drag_origin: spec_drag_origin(p.spec_state()).unwrap(),
                            },
                        )
                        &&& DragArena::spec_ticked(
                            old(self).spec_targets(),
                            old(self).spec_panels().update(panel as int, lifted),
                            *final(self),
                            DragAreaStates::Dragging(
                                DragAreaActiveDragData {
                                    current_pos: pointer,
                                    starting_data: spec_drag_origin(p.spec_state()).unwrap(),
                                },
                            ),
                            None,
                            rects@,
                        )
                    }
            }),
    {
        if self.arena.is_dragging() {
            return Err(DragError(DragErrorType::IllegalDragStart));
        }
        let grab = self.panels[panel].start_drag(grab_point);
        match grab {
            Ok(grab_data) => {
                self.arena.start_drag(
                    DragAreaActiveDragData { current_pos: pointer, starting_data: grab_data.drag_origin },
                );
                let ghost lifted = self.panels@[panel as int];
                proof {
                    assert(self.panels@ =~= old(self).panels@.update(panel as int, lifted));
                }
                self.tick(rects);
                Ok(())
            },
            Err(e) => {
                assert(self.panels@ =~= old(self).panels@);
                Err(e)
            },
        }
    }

    /// The pointer moved to `pointer`: a drag in progress follows it, then the
    /// arena ticks.
    pub fn pointer_move(&mut self, pointer: PointData, rects: &Vec<RectData>)
        requires
            rects@.len() == old(self).spec_panels().len(),
        ensures
            DragArena::spec_ticked(
                old(self).spec_targets(),
                old(self).spec_panels(),
                *final(self),
                match old(self).spec_arena().spec_drag_state() {
                    DragAreaStates::Dragging(d) => DragAreaStates::Dragging(
                        DragAreaActiveDragData { current_pos: pointer, ..d },
                    ),
                    other => other,
                },
                old(self).spec_arena().spec_pending_snap(),
                rects@,
            ),
    {
        self.arena.update_drag(pointer);
        self.tick(rects);
    }

    /// The pointer was released: a drag in progress ends, docking into the
    /// pending snap if there is one, then the arena ticks.
    pub fn pointer_up(&mut self, rects: &Vec<RectData>)
        requires
            rects@.len() == old(self).spec_panels().len(),
        ensures
            DragArena::spec_ticked(
                old(self).spec_targets(),
                old(self).spec_panels(),
                *final(self),
                spec_stop_drag(
                    old(self).spec_arena().spec_drag_state(),
                    old(self).spec_arena().spec_pending_snap(),
                ),
                old(self).spec_arena().spec_pending_snap(),
                rects@,
            ),
    {
        self.arena.stop_drag();
        self.tick(rects);
    }
}

} // verus!
