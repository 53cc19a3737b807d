//! Proportional rescaling of docked rectangles when the arena's outer bounds
//! change.

use crate::geometry::{RectData, SizeData};
use vstd::arithmetic::div_mod::lemma_div_multiples_vanish;
use vstd::prelude::*;

verus! {

/// The arena's outer bounds as last observed, if ever.
#[derive(Clone, Copy, Debug, PartialEq, Eq, Structural)]
pub enum GridState {
    Initial,
    Mounted(RectData),
}

/// The arena's layout grid and its last two bounds observations.
#[derive(Clone, Copy, Debug, PartialEq, Eq, Structural)]
pub struct GridData {
    columns: u8,
    rows: u8,
    state: GridState,
    prev_state: GridState,
}

/// One dimension of a child scaled by `new / old`; kept as it is when `old`
/// is zero, and saturating at the bound of `u64`.
pub open spec fn rescale_dim(child: int, new: int, old: int) -> u64 {
    if old == 0 {
        child as u64
    } else if child * new / old > u64::MAX {
        u64::MAX
    } else {
        (child * new / old) as u64
    }
}

/// A child rectangle rescaled from bounds `old` to bounds `new`: the origin
/// stays, the size scales by the ratio of the sizes.
pub open spec fn rescale_rect(child: RectData, new: RectData, old: RectData) -> RectData {
    RectData {
        origin: child.origin,
        size: SizeData {
            width: rescale_dim(child.size.width as int, new.size.width as int, old.size.width as int),
            height: rescale_dim(
                child.size.height as int,
                new.size.height as int,
                old.size.height as int,
            ),
        },
    }
}

fn scale_dim(child: u64, new: u64, old: u64) -> (r: u64)
    ensures
        r == rescale_dim(child as int, new as int, old as int),
{
    if old == 0 {
        child
    } else {
        proof {
            assert((child as int) * (new as int) <= u128::MAX) by (nonlinear_arith)
                requires
                    child < 0x1_0000_0000_0000_0000,
                    new < 0x1_0000_0000_0000_0000,
            ;
        }
        let scaled: u128 = (child as u128) * (new as u128) / (old as u128);
        if scaled > u64::MAX as u128 {
            u64::MAX
        } else {
            scaled as u64
        }
    }
}

impl GridData {
    pub closed spec fn spec_columns(self) -> u8 {
        self.columns
    }

    pub closed spec fn spec_rows(self) -> u8 {
        self.rows
    }

    /// The latest bounds observation.
    pub closed spec fn spec_state(self) -> GridState {
        self.state
    }

    /// The observation before the latest one.
    pub closed spec fn spec_prev_state(self) -> GridState {
        self.prev_state
    }

    /// What `get_new_child_rect` returns for `child`.
    pub open spec fn spec_new_child_rect(self, child: RectData) -> RectData {
        match (self.spec_state(), self.spec_prev_state()) {
            (GridState::Mounted(new), GridState::Mounted(old)) => rescale_rect(child, new, old),
            _ => child,
        }
    }

    /// A grid with no bounds observed yet.
    pub fn new(columns: u8, rows: u8) -> (r: GridData)
        ensures
            r.spec_columns() == columns,
            r.spec_rows() == rows,
            r.spec_state() == GridState::Initial,
            r.spec_prev_state() == GridState::Initial,
    {
        GridData { columns, rows, state: GridState::Initial, prev_state: GridState::Initial }
    }

    /// Records a new bounds observation; the latest one becomes the previous.
    pub fn update_mounted(&mut self, rect: RectData)
        ensures
            final(self).spec_columns() == old(self).spec_columns(),
            final(self).spec_rows() == old(self).spec_rows(),
            final(self).spec_state() == GridState::Mounted(rect),
            final(self).spec_prev_state() == old(self).spec_state(),
    {
        self.prev_state = self.state;
        self.state = GridState::Mounted(rect);
    }

    /// The latest bounds observation, if any.
    pub fn get_grid_rect(&self) -> (r: Option<RectData>)
        ensures
            r == (match self.spec_state() {
                GridState::Mounted(rect) => Some(rect),
                GridState::Initial => None,
            }),
    {
        match self.state {
            GridState::Mounted(rect) => Some(rect),
            GridState::Initial => None,
        }
    }

    /// `grid_child_rect` rescaled from the previous bounds to the latest ones;
    /// unchanged until two observations exist.
    pub fn get_new_child_rect(&self, grid_child_rect: RectData) -> (r: RectData)
        ensures
            r == self.spec_new_child_rect(grid_child_rect),
    {
        match (&self.state, &self.prev_state) {
            (GridState::Mounted(new_grid_rect), GridState::Mounted(old_grid_rect)) => {
                RectData {
                    origin: grid_child_rect.origin,
                    size: SizeData {
                        width: scale_dim(
                            grid_child_rect.size.width,
                            new_grid_rect.size.width,
                            old_grid_rect.size.width,
                        ),
                        height: scale_dim(
                            grid_child_rect.size.height,
                            new_grid_rect.size.height,
                            old_grid_rect.size.height,
                        ),
                    },
                }
            },
            _ => grid_child_rect,
        }
    }
}

proof fn lemma_rescale_dim_same(child: int, bound: int)
    requires
        0 <= child <= u64::MAX,
        0 <= bound,
    ensures
        rescale_dim(child, bound, bound) == child,
{
    if bound != 0 {
        lemma_div_multiples_vanish(child, bound);
        assert(child * bound == bound * child) by (nonlinear_arith);
    }
}

/// Rescaling leaves a rectangle as it is after a single bounds observation,
/// and after two observations of the same bounds.
pub proof fn lemma_rescale_idempotent(bounds: RectData, child: RectData, g1: GridData, g2: GridData)
    requires
        g1.spec_state() == GridState::Mounted(bounds),
        g1.spec_prev_state() == GridState::Initial,
        g2.spec_state() == GridState::Mounted(bounds),
        g2.spec_prev_state() == GridState::Mounted(bounds),
    ensures
        g1.spec_new_child_rect(child) == child,
        g2.spec_new_child_rect(child) == child,
{
    lemma_rescale_dim_same(child.size.width as int, bounds.size.width as int);
    lemma_rescale_dim_same(child.size.height as int, bounds.size.height as int);
}

} // verus!
