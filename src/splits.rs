//! Planning of the depth ranges that the cascades cover.
use vstd::prelude::*;

verus! {

/// The number of cascades of a cascaded shadow map.
pub const CSM_NUM_CASCADES: usize = 3;

/// How the depth range of a camera is divided among the cascades.
///
/// `S` is the scalar type of distances (a float in a renderer).
#[derive(Clone, Copy, Debug)]
pub enum SplitPolicy<S> {
    /// The far plane of each cascade, as distances from the camera.
    Absolute { far_planes: [S; 3] },
    /// The far plane of each cascade, as fractions of the camera's far plane.
    Relative { fractions: [S; 3] },
}

/// The boundaries that `split_boundaries` returns, given how it multiplies
/// (`scaled(a, b, r)` holds when `r` is a possible product of `a` and `b`).
pub open spec fn is_split_boundaries<S>(
    camera_near: S,
    camera_far: S,
    policy: SplitPolicy<S>,
    scaled: spec_fn(S, S, S) -> bool,
    r: Seq<S>,
) -> bool {
    &&& r.len() == CSM_NUM_CASCADES + 1
    &&& r[0] == camera_near
    &&& match policy {
        SplitPolicy::Absolute { far_planes } => {
            &&& r[1] == far_planes@[0]
            &&& r[2] == far_planes@[1]
            &&& r[3] == far_planes@[2]
        },
        SplitPolicy::Relative { fractions } => {
            &&& scaled(camera_far, fractions@[0], r[1])
            &&& scaled(camera_far, fractions@[1], r[2])
            &&& scaled(camera_far, fractions@[2], r[3])
        },
    }
}

/// Computes the `CSM_NUM_CASCADES + 1` distances that bound the cascades, near to far:
/// the camera's near plane, then the far plane of each cascade. With an absolute policy
/// these are the given distances; with a relative one, each fraction times the camera's
/// far plane, where `scale` multiplies two scalars. Nothing is clamped or validated.
pub fn split_boundaries<S: Copy, F: Fn(S, S) -> S>(
    camera_near: S,
    camera_far: S,
    policy: SplitPolicy<S>,
    scale: F,
) -> (r: [S; 4])
    requires
        policy matches SplitPolicy::Relative { fractions } ==> {
            &&& scale.requires((camera_far, fractions@[0]))
            &&& scale.requires((camera_far, fractions@[1]))
            &&& scale.requires((camera_far, fractions@[2]))
        },
    ensures
        is_split_boundaries(
            camera_near,
            camera_far,
            policy,
            |a: S, b: S, p: S| scale.ensures((a, b), p),
            r@,
        ),
{
    match policy {
        SplitPolicy::Absolute { far_planes } => {
            [camera_near, far_planes[0], far_planes[1], far_planes[2]]
        },
        SplitPolicy::Relative { fractions } => {
            let b1 = scale(camera_far, fractions[0]);
            let b2 = scale(camera_far, fractions[1]);
            let b3 = scale(camera_far, fractions[2]);
            [camera_near, b1, b2, b3]
        },
    }
}

} // verus!
