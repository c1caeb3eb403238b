//! Scene selection.

use vstd::prelude::*;

verus! {

/// The scene to build for a run.
#[derive(Clone, Copy, Debug, PartialEq, Eq, Structural)]
pub enum SceneKind {
    /// The small initial scene.
    Initial,
    /// A ground, many random small spheres and three big ones.
    ManySpheres,
}

} // verus!
