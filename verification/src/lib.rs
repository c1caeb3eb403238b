//! Verified core of a CPU ray tracer: the integer bookkeeping, the text
//! formats it writes (PPM images, run logs, run identifiers) and the
//! lane-generic SIMD vector combinators.

use vstd::prelude::*;

pub mod image;
pub mod metrics;
pub mod render;
pub mod run;
pub mod scene;
pub mod simd;
pub mod text;

verus! {

} // verus!
