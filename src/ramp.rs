use vstd::prelude::*;

verus! {

/// One emission of a bounded scalar ramp.
#[derive(Clone, Copy, Debug, PartialEq, Eq, Structural)]
pub enum RampPoint {
    /// The accumulated sample after `k` increments from the start value.
    Sample(usize),
    /// The configured end value, emitted as it was given.
    End,
}

/// The point emitted at position `k` by a ramp of `step_count` steps.
pub open spec fn ramp_point(step_count: nat, k: nat) -> RampPoint {
    if k < step_count {
        RampPoint::Sample(k as usize)
    } else {
        RampPoint::End
    }
}

/// Everything a ramp of `step_count` steps emits, in order.
pub open spec fn ramp_points(step_count: nat) -> Seq<RampPoint> {
    Seq::new(step_count + 1, |k: int| ramp_point(step_count, k as nat))
}

/// The cursor of a bounded ramp: it emits `step_count` accumulated samples and
/// then the end value, after which it is exhausted.
pub struct RampCursor {
    step_count: usize,
    current_step: usize,
    exhausted: bool,
}

impl RampCursor {
    /// Number of increments between the start and the end value.
    pub closed spec fn total(&self) -> nat {
        self.step_count as nat
    }

    /// How many points have been emitted so far.
    pub closed spec fn emitted(&self) -> nat {
        if self.exhausted {
            self.step_count as nat + 1
        } else {
            self.current_step as nat
        }
    }

    pub closed spec fn wf(&self) -> bool {
        self.current_step <= self.step_count
    }

    /// A fresh ramp of `step_count` steps.
    pub fn new(step_count: usize) -> (r: Self)
        ensures
            r.wf(),
            r.total() == step_count,
            r.emitted() == 0,
    {
        RampCursor { step_count, current_step: 0, exhausted: false }
    }

    pub fn step_count(&self) -> (r: usize)
        ensures
            r == self.total(),
    {
        self.step_count
    }

    /// Whether every point has been emitted.
    pub fn is_exhausted(&self) -> (r: bool)
        requires
            self.wf(),
        ensures
            r == (self.emitted() > self.total()),
    {
        self.exhausted
    }

    /// Emits the next point, or `None` once the end value has been emitted.
    pub fn advance(&mut self) -> (r: Option<RampPoint>)
        requires
            old(self).wf(),
        ensures
            final(self).wf(),
            final(self).total() == old(self).total(),
            old(self).emitted() <= old(self).total() ==> {
                &&& r == Some(ramp_points(old(self).total())[old(self).emitted() as int])
                &&& final(self).emitted() == old(self).emitted() + 1
            },
            old(self).emitted() > old(self).total() ==> {
                &&& r is None
                &&& final(self).emitted() == old(self).emitted()
            },
    {
        if self.exhausted {
            None
        } else if self.current_step == self.step_count {
            self.exhausted = true;
            Some(RampPoint::End)
        } else {
            let k = self.current_step;
            self.current_step = k + 1;
            Some(RampPoint::Sample(k))
        }
    }

    /// Emits every point that is left, in order, and leaves the cursor exhausted.
    pub fn drain_points(&mut self) -> (r: Vec<RampPoint>)
        requires
            old(self).wf(),
        ensures
            final(self).wf(),
            final(self).total() == old(self).total(),
            final(self).emitted() == old(self).total() + 1,
            r@ == ramp_points(old(self).total()).subrange(
                old(self).emitted() as int,
                (old(self).total() + 1) as int,
            ),
            old(self).emitted() == 0 ==> r@ == ramp_points(old(self).total()),
    {
        let ghost n = self.total();
        let ghost first = self.emitted();
        let mut out: Vec<RampPoint> = Vec::new();
        while !self.is_exhausted()
            invariant
                self.wf(),
                self.total() == n,
                first <= self.emitted() <= n + 1,
                out@ == ramp_points(n).subrange(first as int, self.emitted() as int),
            decreases n + 1 - self.emitted(),
        {
            let p = self.advance();
            match p {
                Some(q) => out.push(q),
                None => {},
            }
            assert(out@ =~= ramp_points(n).subrange(first as int, self.emitted() as int));
        }
        assert(first == 0 ==> ramp_points(n).subrange(0, (n + 1) as int) =~= ramp_points(n));
        out
    }
}

/// The shape of every ramp: `step_count + 1` points, the accumulated samples
/// in increment order, and the end value exactly once, as the last point. The
/// first point is the start value (the sample after no increment), or the end
/// value itself when the ramp has no step.
pub proof fn lemma_ramp_shape(step_count: nat)
    ensures
        ramp_points(step_count).len() == step_count + 1,
        ramp_points(step_count).last() == RampPoint::End,
        step_count > 0 ==> ramp_points(step_count)[0] == RampPoint::Sample(0),
        step_count == 0 ==> ramp_points(step_count)[0] == RampPoint::End,
        forall|k: int|
            0 <= k < step_count ==> #[trigger] ramp_points(step_count)[k] == RampPoint::Sample(
                k as usize,
            ),
        forall|k: int|
            0 <= k <= step_count && #[trigger] ramp_points(step_count)[k] == RampPoint::End ==> k
                == step_count,
{
}

} // verus!
