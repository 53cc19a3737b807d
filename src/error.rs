//! Recoverable error conditions.

use vstd::prelude::*;

verus! {

/// The kinds of drag errors.
#[derive(Clone, Copy, Debug, PartialEq, Eq, Structural)]
pub enum DragErrorType {
    /// A grab was attempted on a panel that cannot be lifted now: one that is
    /// uninitialized, already grabbed, or previewing an avoidance.
    IllegalDragStart,
    /// A panel's state and the arena's state form a pair that no sequence of
    /// events reaches.
    IllegalRenderState,
}

#[derive(Clone, Copy, Debug, PartialEq, Eq, Structural)]
pub struct DragError(pub DragErrorType);

/// The element with the given id has no known bounding rectangle.
#[derive(Debug, PartialEq)]
pub struct DomRetrievalError(pub String);

impl DomRetrievalError {
    pub fn new(id: String) -> (r: DomRetrievalError)
        ensures
            r.0 == id,
    {
        DomRetrievalError(id)
    }
}

} // verus!
