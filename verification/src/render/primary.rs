//! How a primary ray is shaded when the vectorised intersection already
//! gave a hint about which sphere it hits first.

use vstd::prelude::*;

verus! {

/// What to do for one primary ray, given the vectorised hit hint.
#[derive(Debug, Clone, Copy, PartialEq, Eq, Structural)]
pub enum PrimaryShading {
    /// The bounce limit is reached: no light is gathered (black).
    NoLight,
    /// No sphere is hit: the background gradient.
    Background,
    /// The hint cannot be used: trace the ray through the whole world.
    FullTrace,
    /// Intersect the sphere with this index first.
    HintedSphere(usize),
}

/// The plan for a primary ray with `depth` bounces left, a vectorised hit
/// flag `has_hit` and sphere index `sphere_index` into a list of
/// `sphere_count` spheres: no light when `depth <= 0`; the background when
/// there is no hit or the index is negative; a full trace when the index is
/// past the list; otherwise the hinted sphere.
pub fn primary_shading_plan(depth: i32, has_hit: bool, sphere_index: i32, sphere_count: usize) -> (p:
    PrimaryShading)
    ensures
        depth <= 0 ==> p == PrimaryShading::NoLight,
        depth > 0 && (!has_hit || sphere_index < 0) ==> p == PrimaryShading::Background,
        depth > 0 && has_hit && 0 <= sphere_index && sphere_index >= sphere_count ==> p
            == PrimaryShading::FullTrace,
        depth > 0 && has_hit && 0 <= sphere_index < sphere_count ==> p
            == PrimaryShading::HintedSphere(sphere_index as usize),
{
    if depth <= 0 {
        return PrimaryShading::NoLight;
    }
    if !has_hit || sphere_index < 0 {
        return PrimaryShading::Background;
    }
    let idx = sphere_index as usize;
    if idx >= sphere_count {
        PrimaryShading::FullTrace
    } else {
        PrimaryShading::HintedSphere(idx)
    }
}

} // verus!
