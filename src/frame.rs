//! The order and bookkeeping of one frame's shadow pass.
//!
//! A frame renders the cascades near to far. For each one the caller fits the
//! light's projection to the cascade's depth range, draws the shadow casters and
//! reports the statistics of the batches it drew; the frame sums them.
use vstd::prelude::*;
use crate::splits::CSM_NUM_CASCADES;
use crate::stats::FrameStatistics;

verus! {

/// The total draw calls of a sequence of batch statistics.
pub open spec fn sum_draw_calls(s: Seq<FrameStatistics>) -> int
    decreases s.len(),
{
    if s.len() == 0 {
        0
    } else {
        sum_draw_calls(s.drop_last()) + s.last().draw_calls
    }
}

/// The total triangles of a sequence of batch statistics.
pub open spec fn sum_triangles(s: Seq<FrameStatistics>) -> int
    decreases s.len(),
{
    if s.len() == 0 {
        0
    } else {
        sum_triangles(s.drop_last()) + s.last().triangles_rendered
    }
}

/// The sums never decrease as a sequence grows.
pub proof fn lemma_sums_grow(s: Seq<FrameStatistics>, i: int)
    requires
        0 <= i <= s.len(),
    ensures
        sum_draw_calls(s.take(i)) <= sum_draw_calls(s),
        sum_triangles(s.take(i)) <= sum_triangles(s),
    decreases s.len() - i,
{
    if i < s.len() {
        lemma_sums_grow(s, i + 1);
        assert(s.take(i + 1).drop_last() == s.take(i));
    } else {
        assert(s.take(i) == s);
    }
}

/// What the frame asks for next.
#[derive(Clone, Copy, Debug, PartialEq, Eq)]
pub enum FrameStep<S> {
    /// Render the cascade at `index`, which covers depths from `z_near` to `z_far`.
    Cascade { index: usize, z_near: S, z_far: S },
    /// Every cascade is rendered; these are the frame's totals.
    Done(FrameStatistics),
}

/// The statistics of a frame no longer fit in `usize`.
#[derive(Clone, Copy, Debug, PartialEq, Eq)]
pub struct StatisticsOverflow;

/// The progress of one frame's shadow pass over the split boundaries.
pub struct ShadowFrame<S> {
    boundaries: [S; 4],
    next: usize,
    totals: FrameStatistics,
}

impl<S: Copy> ShadowFrame<S> {
    pub closed spec fn boundaries_view(&self) -> Seq<S> {
        self.boundaries@
    }

    /// The number of cascades rendered so far.
    pub closed spec fn rendered_view(&self) -> nat {
        self.next as nat
    }

    /// The statistics summed so far.
    pub closed spec fn totals_view(&self) -> FrameStatistics {
        self.totals
    }

    pub closed spec fn wf(&self) -> bool {
        self.next <= CSM_NUM_CASCADES
    }

    /// A frame over the given split boundaries, with no cascade rendered yet.
    pub fn new(boundaries: [S; 4]) -> (r: ShadowFrame<S>)
        ensures
            r.wf(),
            r.boundaries_view() == boundaries@,
            r.rendered_view() == 0,
            r.totals_view() == (FrameStatistics { draw_calls: 0, triangles_rendered: 0 }),
    {
        ShadowFrame { boundaries, next: 0, totals: FrameStatistics::zero() }
    }

    /// The next cascade to render, with the boundaries on either side of it, or the
    /// totals once all cascades are rendered.
    pub fn step(&self) -> (r: FrameStep<S>)
        requires
            self.wf(),
        ensures
            self.rendered_view() < CSM_NUM_CASCADES ==> r == (FrameStep::Cascade {
                index: self.rendered_view() as usize,
                z_near: self.boundaries_view()[self.rendered_view() as int],
                z_far: self.boundaries_view()[self.rendered_view() as int + 1],
            }),
            self.rendered_view() >= CSM_NUM_CASCADES ==> r == FrameStep::<S>::Done(
                self.totals_view(),
            ),
    {
        if self.next < CSM_NUM_CASCADES {
            FrameStep::Cascade {
                index: self.next,
                z_near: self.boundaries[self.next],
                z_far: self.boundaries[self.next + 1],
            }
        } else {
            FrameStep::Done(self.totals)
        }
    }

    /// Whether the totals still fit after adding `batches`.
    pub open spec fn fits(&self, batches: Seq<FrameStatistics>) -> bool {
        &&& self.totals_view().draw_calls + sum_draw_calls(batches) <= usize::MAX
        &&& self.totals_view().triangles_rendered + sum_triangles(batches) <= usize::MAX
    }

    /// `next` is this frame with one more cascade rendered and `batches` added.
    pub open spec fn advanced(&self, batches: Seq<FrameStatistics>, next: Self) -> bool {
        &&& next.rendered_view() == self.rendered_view() + 1
        &&& next.totals_view().draw_calls == self.totals_view().draw_calls + sum_draw_calls(
            batches,
        )
        &&& next.totals_view().triangles_rendered == self.totals_view().triangles_rendered
            + sum_triangles(batches)
    }

    /// Records that the current cascade is rendered, with the statistics of the
    /// batches drawn into it. Fails, leaving the frame as it was, when the totals
    /// would no longer fit.
    pub fn finish_cascade(&mut self, batches: &Vec<FrameStatistics>) -> (r: Result<
        (),
        StatisticsOverflow,
    >)
        requires
            old(self).wf(),
            old(self).rendered_view() < CSM_NUM_CASCADES,
        ensures
            final(self).wf(),
            final(self).boundaries_view() == old(self).boundaries_view(),
            r is Ok == old(self).fits(batches@),
            r is Ok ==> old(self).advanced(batches@, *final(self)),
            r is Err ==> *final(self) == *old(self),
    {
        let mut totals = self.totals;
        let mut i: usize = 0;
        while i < batches.len()
            invariant
                i <= batches.len(),
                *self == *old(self),
                self.next < CSM_NUM_CASCADES,
                totals.draw_calls == self.totals.draw_calls + sum_draw_calls(
                    batches@.take(i as int),
                ),
                totals.triangles_rendered == self.totals.triangles_rendered + sum_triangles(
                    batches@.take(i as int),
                ),
            decreases batches.len() - i,
        {
            let b = batches[i];
            proof {
                assert(batches@.take(i + 1).drop_last() == batches@.take(i as int));
                assert(batches@.take(i + 1).last() == b);
                assert(sum_draw_calls(batches@.take(i + 1)) == sum_draw_calls(
                    batches@.take(i as int),
                ) + b.draw_calls);
                assert(sum_triangles(batches@.take(i + 1)) == sum_triangles(
                    batches@.take(i as int),
                ) + b.triangles_rendered);
                lemma_sums_grow(batches@, i + 1);
            }
            if !totals.can_accumulate(b) {
                return Err(StatisticsOverflow);
            }
            totals.accumulate(b);
            i = i + 1;
        }
        assert(batches@.take(i as int) == batches@);
        self.totals = totals;
        self.next = self.next + 1;
        Ok(())
    }
}

} // verus!
