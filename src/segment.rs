use vstd::prelude::*;
use crate::ramp::RampPoint;

verus! {

/// The outcome of one step of a trajectory segment.
#[derive(Clone, Copy, Debug, PartialEq, Eq, Structural)]
pub enum StepResult<T> {
    /// More samples follow.
    Continue(T),
    /// The final sample: the segment is exhausted and is not stepped again.
    Done(T),
}

impl<T> StepResult<T> {
    /// The sample carried by either variant.
    pub open spec fn sample(self) -> T {
        match self {
            StepResult::Continue(s) => s,
            StepResult::Done(s) => s,
        }
    }

    /// Tags a pivot sample by the heading point it was made from: the end
    /// heading finishes the segment, every other heading continues it.
    pub fn from_point(point: RampPoint, sample: T) -> (r: Self)
        ensures
            r.sample() == sample,
            r is Done <==> point == RampPoint::End,
    {
        match point {
            RampPoint::End => StepResult::Done(sample),
            RampPoint::Sample(_) => StepResult::Continue(sample),
        }
    }

    pub fn is_done(&self) -> (r: bool)
        ensures
            r == (*self is Done),
    {
        match self {
            StepResult::Continue(_) => false,
            StepResult::Done(_) => true,
        }
    }

    pub fn into_sample(self) -> (r: T)
        ensures
            r == self.sample(),
    {
        match self {
            StepResult::Continue(s) => s,
            StepResult::Done(s) => s,
        }
    }
}

/// What a straight segment does on one call of its step operation.
#[derive(Clone, Copy, Debug, PartialEq, Eq, Structural)]
pub enum StraightMove {
    /// Integrate one time step along the segment's heading and continue.
    Integrate,
    /// Snap to the exact end of the segment and finish.
    Snap,
}

/// Everything a straight segment with `steps` steps left does when the
/// travelled length never reaches the distance early: one integration per
/// step, then the snap.
pub open spec fn straight_moves(steps: nat) -> Seq<StraightMove> {
    Seq::new(steps + 1, |k: int| if k < steps { StraightMove::Integrate } else { StraightMove::Snap })
}

/// The step counter of a straight segment.
pub struct StraightClock {
    remaining: usize,
    finished: bool,
}

impl StraightClock {
    /// Integration steps left before the snap.
    pub closed spec fn steps_left(&self) -> nat {
        self.remaining as nat
    }

    /// Whether the snap has been made.
    pub closed spec fn has_finished(&self) -> bool {
        self.finished
    }

    /// How many more calls of the step operation the segment answers.
    pub open spec fn calls_left(&self) -> nat {
        if self.has_finished() {
            0
        } else {
            self.steps_left() + 1
        }
    }

    /// A clock for a segment of `step_count` time steps.
    pub fn new(step_count: usize) -> (r: Self)
        ensures
            r.steps_left() == step_count,
            !r.has_finished(),
            r.calls_left() == step_count + 1,
    {
        StraightClock { remaining: step_count, finished: false }
    }

    pub fn is_finished(&self) -> (r: bool)
        ensures
            r == self.has_finished(),
    {
        self.finished
    }

    pub fn remaining(&self) -> (r: usize)
        ensures
            r == self.steps_left(),
    {
        self.remaining
    }

    /// Decides the next call: integrate while steps are left, else snap and
    /// finish. Each call uses up one of the calls left, and the snap uses up
    /// the last.
    pub fn advance(&mut self) -> (r: StraightMove)
        requires
            !old(self).has_finished(),
        ensures
            old(self).steps_left() == 0 ==> r == StraightMove::Snap && final(self).has_finished(),
            old(self).steps_left() > 0 ==> {
                &&& r == StraightMove::Integrate
                &&& final(self).steps_left() == old(self).steps_left() - 1
                &&& !final(self).has_finished()
            },
            final(self).calls_left() == old(self).calls_left() - 1,
            r == StraightMove::Snap <==> final(self).calls_left() == 0,
    {
        if self.remaining == 0 {
            self.finished = true;
            StraightMove::Snap
        } else {
            self.remaining = self.remaining - 1;
            StraightMove::Integrate
        }
    }

    /// Records that the travelled length has reached the distance: the next
    /// call snaps.
    pub fn reach_distance(&mut self)
        requires
            !old(self).has_finished(),
        ensures
            final(self).steps_left() == 0,
            !final(self).has_finished(),
            final(self).calls_left() == 1,
            final(self).calls_left() <= old(self).calls_left(),
    {
        self.remaining = 0;
    }

    /// Makes every call that is left, with the distance never reached early,
    /// and leaves the clock finished.
    pub fn drain_moves(&mut self) -> (r: Vec<StraightMove>)
        requires
            !old(self).has_finished(),
        ensures
            final(self).has_finished(),
            r@ == straight_moves(old(self).steps_left()),
    {
        let ghost n = self.steps_left();
        let mut out: Vec<StraightMove> = Vec::new();
        while !self.is_finished()
            invariant
                self.calls_left() <= n + 1,
                out@ == straight_moves(n).subrange(0, (n + 1 - self.calls_left()) as int),
                !self.has_finished() ==> self.steps_left() + 1 == self.calls_left(),
            decreases self.calls_left(),
        {
            let m = self.advance();
            out.push(m);
            assert(out@ =~= straight_moves(n).subrange(0, (n + 1 - self.calls_left()) as int));
        }
        assert(out@ =~= straight_moves(n));
        out
    }
}

/// Every straight segment finishes: a clock answers `steps + 1` calls when the
/// distance is never reached early, integrating on all but the last, which
/// snaps; the snap comes exactly once, as the last move.
pub proof fn lemma_straight_shape(steps: nat)
    ensures
        straight_moves(steps).len() == steps + 1,
        straight_moves(steps).last() == StraightMove::Snap,
        forall|k: int|
            0 <= k <= steps && #[trigger] straight_moves(steps)[k] == StraightMove::Snap ==> k
                == steps,
{
}

} // verus!
