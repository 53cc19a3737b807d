//! Drag, snap and avoidance state machines for rectangular panels moved by a
//! pointer over an arena with named drop targets.
//!
//! Geometry is held in integer arena units, time in milliseconds.
//!
//! - `arena`: the coordinator of the one drag session and its snap candidate.
//! - `draggable`: the per-panel state machine and what each panel renders.
//! - `target`: the drop-target probe.
//! - `transition`: timed interpolation between two snaps.
//! - `grid`: rescaling docked rectangles when the arena's bounds change.
//! - `area`: all of the above driven by pointer events, in tick order.
//! - `laws`: properties of whole drags, stated over the components' models.

pub mod area;
pub mod arena;
pub mod draggable;
pub mod error;
pub mod geometry;
pub mod grid;
pub mod laws;
pub mod snap;
pub mod target;
pub mod transition;

pub use area::DragArena;
pub use arena::{
    DragAreaActiveDragData, DragAreaStates, DragEndings, DraggableStateController, GlobalDragState,
};
pub use draggable::{
    DraggablePositionData, DraggableGrabData, DraggableRenderData, DraggableRestStates,
    DraggableSnapStates, DraggableStates, DraggableVariants, LocalDragState, RenderStyle,
};
pub use error::{DomRetrievalError, DragError, DragErrorType};
pub use geometry::{PointData, RectData, SizeData};
pub use grid::{GridData, GridState};
pub use snap::{DragOrigin, SnapInfo};
pub use target::DropTarget;
pub use transition::{
    DraggableTransitionData, DraggableTransitionMode, TransitionFrame, TRANSITION_DURATION_MS,
};
