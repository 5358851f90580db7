//! The fixed set of cascades of a directional light's shadow map.
use vstd::prelude::*;

verus! {

/// The precision of the depth values that a shadow map stores.
#[derive(Clone, Copy, Debug, PartialEq, Eq, Structural)]
pub enum ShadowMapPrecision {
    /// 32-bit floating-point depth.
    Full,
    /// 16-bit depth.
    Half,
}

/// The pixel format of a cascade's depth target.
#[derive(Clone, Copy, Debug, PartialEq, Eq, Structural)]
pub enum DepthFormat {
    /// One 32-bit float per pixel.
    D32F,
    /// One 16-bit integer per pixel.
    D16,
}

pub open spec fn depth_format_of(precision: ShadowMapPrecision) -> DepthFormat {
    match precision {
        ShadowMapPrecision::Full => DepthFormat::D32F,
        ShadowMapPrecision::Half => DepthFormat::D16,
    }
}

/// The depth format that a cascade of the given precision is created with.
pub fn depth_format(precision: ShadowMapPrecision) -> (r: DepthFormat)
    ensures
        r == depth_format_of(precision),
{
    match precision {
        ShadowMapPrecision::Full => DepthFormat::D32F,
        ShadowMapPrecision::Half => DepthFormat::D16,
    }
}

/// Owns the cascades of a cascaded shadow map, indexed near to far, together with
/// the resolution and precision they were created with. `C` is one cascade: its
/// depth target and the matrices fitted to it in the last frame.
pub struct CsmRenderer<C> {
    cascades: [C; 3],
    size: usize,
    precision: ShadowMapPrecision,
}

impl<C> CsmRenderer<C> {
    /// The cascades, near to far.
    pub closed spec fn cascades_view(&self) -> Seq<C> {
        self.cascades@
    }

    pub closed spec fn size_view(&self) -> usize {
        self.size
    }

    pub closed spec fn precision_view(&self) -> ShadowMapPrecision {
        self.precision
    }

    /// Creates the three cascades in order, each by `create(size, format)` with the
    /// depth format that `precision` selects. The first failure is returned at once:
    /// no cascade after it is created and no partial set is returned.
    pub fn new<E, F: Fn(usize, DepthFormat) -> Result<C, E>>(
        size: usize,
        precision: ShadowMapPrecision,
        create: F,
    ) -> (r: Result<Self, E>)
        requires
            create.requires((size, depth_format_of(precision))),
        ensures
            r matches Ok(s) ==> {
                &&& s.cascades_view().len() == 3
                &&& s.size_view() == size
                &&& s.precision_view() == precision
                &&& forall|i: int|
                    0 <= i < 3 ==> create.ensures(
                        (size, depth_format_of(precision)),
                        Ok(#[trigger] s.cascades_view()[i]),
                    )
            },
            r matches Err(e) ==> create.ensures((size, depth_format_of(precision)), Err(e)),
    {
        let format = depth_format(precision);
        let c0 = match create(size, format) {
            Ok(c) => c,
            Err(e) => {
                return Err(e);
            },
        };
        let c1 = match create(size, format) {
            Ok(c) => c,
            Err(e) => {
                return Err(e);
            },
        };
        let c2 = match create(size, format) {
            Ok(c) => c,
            Err(e) => {
                return Err(e);
            },
        };
        Ok(CsmRenderer { cascades: [c0, c1, c2], size, precision })
    }

    /// The precision the cascades were created with.
    pub fn precision(&self) -> (r: ShadowMapPrecision)
        ensures
            r == self.precision_view(),
    {
        self.precision
    }

    /// The width and height of each cascade's depth target.
    pub fn size(&self) -> (r: usize)
        ensures
            r == self.size_view(),
    {
        self.size
    }

    /// The cascades, near to far.
    pub fn cascades(&self) -> (r: &[C])
        ensures
            r@ == self.cascades_view(),
    {
        self.cascades.as_slice()
    }

    /// The cascade at `index`, to be refitted and redrawn; the others stay as they are.
    pub fn cascade_mut(&mut self, index: usize) -> (r: &mut C)
        requires
            index < 3,
        ensures
            *r == old(self).cascades_view()[index as int],
            final(self).cascades_view() == old(self).cascades_view().update(
                index as int,
                *final(r),
            ),
            final(self).size_view() == old(self).size_view(),
            final(self).precision_view() == old(self).precision_view(),
    {
        &mut self.cascades[index]
    }
}

} // verus!
