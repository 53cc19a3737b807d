//! Timed interpolation of a panel's rectangle between two snaps.

use crate::geometry::{lemma_lerp_bounds, lemma_lerp_monotone, lerp, RectData};
use crate::snap::SnapInfo;
use vstd::prelude::*;

verus! {

/// How long every transition runs, in milliseconds.
pub const TRANSITION_DURATION_MS: u64 = 500;

/// Why a panel moves: to make room for a dragged panel, or to come to rest.
#[derive(Clone, Copy, Debug, PartialEq, Eq, Structural)]
pub enum DraggableTransitionMode {
    Avoidance,
    Resting,
}

impl DraggableTransitionMode {
    pub open spec fn spec_reverse(self) -> DraggableTransitionMode {
        match self {
            DraggableTransitionMode::Avoidance => DraggableTransitionMode::Resting,
            DraggableTransitionMode::Resting => DraggableTransitionMode::Avoidance,
        }
    }

    /// The other mode.
    pub fn reverse(&self) -> (r: Self)
        ensures
            r == self.spec_reverse(),
    {
        match self {
            Self::Avoidance => Self::Resting,
            Self::Resting => Self::Avoidance,
        }
    }
}

/// One sample of a running transition.
#[derive(Clone, Copy, Debug, PartialEq, Eq, Structural)]
pub struct TransitionFrame {
    pub finished: bool,
    pub current: RectData,
}

/// A move from one snap to another. Its clock starts at the first poll:
/// `started_at` is the time of that poll, `None` before it.
#[derive(Debug, PartialEq)]
pub struct DraggableTransitionData {
    pub from: SnapInfo,
    pub to: SnapInfo,
    pub mode: DraggableTransitionMode,
    pub started_at: Option<u64>,
    pub elapsed_cycles: u64,
}

impl DraggableTransitionData {
    /// A transition that has not been polled yet.
    pub open spec fn spec_new(
        from: SnapInfo,
        to: SnapInfo,
        mode: DraggableTransitionMode,
    ) -> DraggableTransitionData {
        DraggableTransitionData { from, to, mode, started_at: None, elapsed_cycles: 0 }
    }

    /// The same move backwards, in the other mode, with its clock reset.
    pub open spec fn spec_reverse(self) -> DraggableTransitionData {
        DraggableTransitionData::spec_new(self.to, self.from, self.mode.spec_reverse())
    }

    /// Milliseconds since the clock started; none before it starts.
    pub open spec fn elapsed_at(self, now: u64) -> int {
        match self.started_at {
            Some(start) => if now >= start {
                now - start
            } else {
                0
            },
            None => 0,
        }
    }

    /// What a poll at `now` reports once the clock has started.
    pub open spec fn frame_at(self, now: u64) -> TransitionFrame {
        let elapsed = self.elapsed_at(now);
        let progress = if elapsed >= TRANSITION_DURATION_MS {
            TRANSITION_DURATION_MS as int
        } else {
            elapsed
        };
        TransitionFrame {
            finished: elapsed >= TRANSITION_DURATION_MS,
            current: RectData::spec_interpolate(
                self.from.rect,
                self.to.rect,
                progress,
                TRANSITION_DURATION_MS as int,
            ),
        }
    }

    /// The transition after a poll at `now`, and what that poll reports.
    pub open spec fn spec_poll(self, now: u64) -> (DraggableTransitionData, TransitionFrame) {
        let started = DraggableTransitionData {
            started_at: match self.started_at {
                Some(start) => Some(start),
                None => Some(now),
            },
            ..self
        };
        let frame = started.frame_at(now);
        let cycles = if !frame.finished && self.elapsed_cycles < u64::MAX {
            (self.elapsed_cycles + 1) as u64
        } else {
            self.elapsed_cycles
        };
        (DraggableTransitionData { elapsed_cycles: cycles, ..started }, frame)
    }

    pub fn new(from: SnapInfo, to: SnapInfo, mode: DraggableTransitionMode) -> (r:
        DraggableTransitionData)
        ensures
            r == DraggableTransitionData::spec_new(from, to, mode),
    {
        DraggableTransitionData { from, to, mode, started_at: None, elapsed_cycles: 0 }
    }

    /// Swaps `from` and `to`, flips the mode and resets the clock.
    pub fn reverse(&self) -> (r: DraggableTransitionData)
        ensures
            r == self.spec_reverse(),
    {
        DraggableTransitionData::new(self.to.duplicate(), self.from.duplicate(), self.mode.reverse())
    }

    /// A copy equal to `self`.
    pub fn duplicate(&self) -> (r: DraggableTransitionData)
        ensures
            r == *self,
    {
        DraggableTransitionData {
            from: self.from.duplicate(),
            to: self.to.duplicate(),
            mode: self.mode,
            started_at: self.started_at,
            elapsed_cycles: self.elapsed_cycles,
        }
    }

    /// Samples the transition at time `now` (milliseconds). The first poll
    /// starts the clock. `finished` holds once `TRANSITION_DURATION_MS` have
    /// elapsed; `current` is the rectangle interpolated from `from.rect` to
    /// `to.rect` by the elapsed fraction, clamped to 1. Each poll that is not
    /// finished counts one cycle.
    pub fn poll(&mut self, now: u64) -> (r: TransitionFrame)
        ensures
            (*final(self), r) == old(self).spec_poll(now),
            r.finished == (final(self).elapsed_at(now) >= TRANSITION_DURATION_MS),
    {
        let start: u64 = match self.started_at {
            Some(start) => start,
            None => now,
        };
        self.started_at = Some(start);
        let elapsed: u64 = if now >= start {
            now - start
        } else {
            0
        };
        let finished = elapsed >= TRANSITION_DURATION_MS;
        let progress: u64 = if finished {
            TRANSITION_DURATION_MS
        } else {
            elapsed
        };
        let current = self.to.rect.percent_transition(self.from.rect, progress, TRANSITION_DURATION_MS);
        if !finished && self.elapsed_cycles < u64::MAX {
            self.elapsed_cycles = self.elapsed_cycles + 1;
        }
        TransitionFrame { finished, current }
    }
}

/// `c2` lies between `c1` and `target`, both included: it has not moved away
/// from `target`.
pub open spec fn no_farther(c1: int, c2: int, target: int) -> bool {
    if c1 <= target {
        c1 <= c2 <= target
    } else {
        target <= c2 <= c1
    }
}

/// Every coordinate and dimension of `b` has moved from `a` towards `target`,
/// or stayed.
pub open spec fn rect_no_farther(a: RectData, b: RectData, target: RectData) -> bool {
    &&& no_farther(a.origin.x as int, b.origin.x as int, target.origin.x as int)
    &&& no_farther(a.origin.y as int, b.origin.y as int, target.origin.y as int)
    &&& no_farther(a.size.width as int, b.size.width as int, target.size.width as int)
    &&& no_farther(a.size.height as int, b.size.height as int, target.size.height as int)
}

proof fn lemma_axis_monotone(a: int, b: int, n1: int, n2: int, den: int)
    requires
        0 <= n1 <= n2 <= den,
        0 < den,
    ensures
        no_farther(lerp(a, b, n1, den), lerp(a, b, n2, den), b),
        n2 == den ==> lerp(a, b, n2, den) == b,
        a <= b ==> a <= lerp(a, b, n1, den) && lerp(a, b, n2, den) <= b,
        b < a ==> b <= lerp(a, b, n2, den) && lerp(a, b, n1, den) <= a,
{
    lemma_lerp_monotone(a, b, n1, n2, den);
    lemma_lerp_bounds(a, b, n1, den);
    lemma_lerp_bounds(a, b, n2, den);
}

/// Polling a transition twice, at `now1` and then at a time `now2` no earlier:
/// once the first poll reports `finished`, so does the second; the second
/// reports `finished` exactly when the clock has run the full duration; and
/// the second rectangle is no farther from `to.rect` than the first, on each
/// axis and in each dimension, reaching it when finished.
pub proof fn lemma_poll_monotone(t: DraggableTransitionData, now1: u64, now2: u64)
    requires
        now1 <= now2,
    ensures
        ({
            let (t1, f1) = t.spec_poll(now1);
            let (t2, f2) = t1.spec_poll(now2);
            &&& t2.from == t.from && t2.to == t.to && t2.mode == t.mode
            &&& f1.finished ==> f2.finished
            &&& f2.finished <==> t2.elapsed_at(now2) >= TRANSITION_DURATION_MS
            &&& rect_no_farther(f1.current, f2.current, t.to.rect)
            &&& f2.finished ==> f2.current == t.to.rect
        }),
{
    let (t1, f1) = t.spec_poll(now1);
    let (t2, f2) = t1.spec_poll(now2);
    let d = TRANSITION_DURATION_MS as int;
    let e1 = t1.elapsed_at(now1);
    let e2 = t2.elapsed_at(now2);
    assert(t2.started_at == t1.started_at);
    assert(e1 <= e2);
    let p1 = if e1 >= d {
        d
    } else {
        e1
    };
    let p2 = if e2 >= d {
        d
    } else {
        e2
    };
    let from = t.from.rect;
    let to = t.to.rect;
    lemma_axis_monotone(from.origin.x as int, to.origin.x as int, p1, p2, d);
    lemma_axis_monotone(from.origin.y as int, to.origin.y as int, p1, p2, d);
    lemma_axis_monotone(from.size.width as int, to.size.width as int, p1, p2, d);
    lemma_axis_monotone(from.size.height as int, to.size.height as int, p1, p2, d);
}

/// Reversing a transition twice gives back its end points and its mode.
pub proof fn lemma_reverse_involution(t: DraggableTransitionData)
    ensures
        t.spec_reverse().spec_reverse().from == t.from,
        t.spec_reverse().spec_reverse().to == t.to,
        t.spec_reverse().spec_reverse().mode == t.mode,
{
}

} // verus!
