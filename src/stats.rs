//! Statistics of the draw calls that render a frame's shadow maps.
use vstd::prelude::*;

verus! {

/// Draw calls and triangles rendered by a pass, summed over its batches.
#[derive(Clone, Copy, Debug, PartialEq, Eq, Structural)]
pub struct FrameStatistics {
    /// The number of draw calls.
    pub draw_calls: usize,
    /// The number of triangles drawn.
    pub triangles_rendered: usize,
}

impl FrameStatistics {
    /// Statistics of a pass that drew nothing.
    pub fn zero() -> (r: FrameStatistics)
        ensures
            r.draw_calls == 0,
            r.triangles_rendered == 0,
    {
        FrameStatistics { draw_calls: 0, triangles_rendered: 0 }
    }

    /// Adds the statistics of one more batch or pass to this total.
    pub fn accumulate(&mut self, other: FrameStatistics)
        requires
            old(self).draw_calls + other.draw_calls <= usize::MAX,
            old(self).triangles_rendered + other.triangles_rendered <= usize::MAX,
        ensures
            final(self).draw_calls == old(self).draw_calls + other.draw_calls,
            final(self).triangles_rendered == old(self).triangles_rendered
                + other.triangles_rendered,
    {
        self.draw_calls = self.draw_calls + other.draw_calls;
        self.triangles_rendered = self.triangles_rendered + other.triangles_rendered;
    }

    /// Counts one more draw call that drew `triangles` triangles.
    pub fn add_draw_call(&mut self, triangles: usize)
        requires
            old(self).draw_calls < usize::MAX,
            old(self).triangles_rendered + triangles <= usize::MAX,
        ensures
            final(self).draw_calls == old(self).draw_calls + 1,
            final(self).triangles_rendered == old(self).triangles_rendered + triangles,
    {
        self.draw_calls = self.draw_calls + 1;
        self.triangles_rendered = self.triangles_rendered + triangles;
    }

    /// Whether `accumulate(other)` stays within range.
    pub fn can_accumulate(&self, other: FrameStatistics) -> (r: bool)
        ensures
            r == (self.draw_calls + other.draw_calls <= usize::MAX
                && self.triangles_rendered + other.triangles_rendered <= usize::MAX),
    {
        other.draw_calls <= usize::MAX - self.draw_calls
            && other.triangles_rendered <= usize::MAX - self.triangles_rendered
    }
}

} // verus!
