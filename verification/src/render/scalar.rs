//! The fully scalar backend.

use vstd::prelude::*;

verus! {

/// Scalar render backend; it carries no state of its own.
pub struct ScalarRenderer;

impl ScalarRenderer {
    /// Creates the scalar backend.
    pub fn new() -> (r: Self)
        ensures
            r == ScalarRenderer,
    {
        ScalarRenderer
    }
}

} // verus!
