//! Render backends: their kinds, their counters and the integer
//! bookkeeping of the framebuffer and of the 4-pixel blocks.

pub mod neon;
pub mod scalar;
pub mod primary;

use vstd::prelude::*;

verus! {

/// Render backend to use.
#[derive(Clone, Copy, Debug, PartialEq, Eq, Structural)]
pub enum BackendKind {
    /// Fully scalar path.
    Scalar,
    /// Path with NEON (SIMD) extensions for the primary-ray intersections.
    Neon,
}

/// The name that `{:?}` prints for a backend.
pub open spec fn backend_debug_name(b: BackendKind) -> Seq<char> {
    match b {
        BackendKind::Scalar => "Scalar"@,
        BackendKind::Neon => "Neon"@,
    }
}

/// The name that `{:?}` prints for `backend`.
pub fn backend_name(backend: BackendKind) -> (r: &'static str)
    ensures
        r@ == backend_debug_name(backend),
{
    match backend {
        BackendKind::Scalar => "Scalar",
        BackendKind::Neon => "Neon",
    }
}

/// The flat sphere list that a backend receives for intersection
/// acceleration: the scalar backend ignores it, the NEON backend takes it.
pub fn sphere_accel_for_backend<T>(backend: BackendKind, spheres: Vec<T>) -> (r: Option<Vec<T>>)
    ensures
        backend == BackendKind::Scalar ==> r is None,
        backend == BackendKind::Neon ==> r == Some(spheres),
{
    match backend {
        BackendKind::Scalar => None,
        BackendKind::Neon => Some(spheres),
    }
}

/// Number of pixels of a `width` x `height` framebuffer, one color each.
pub fn framebuffer_len(width: i32, height: i32) -> (n: usize)
    requires
        0 <= width as int * height as int <= i32::MAX,
    ensures
        n == width as int * height as int,
{
    (width * height) as usize
}

/// Row-major index of pixel `(i, j)` (column `i`, scanline `j`) in a
/// framebuffer `width` pixels wide: `j * width + i`.
pub fn pixel_index(j: i32, i: i32, width: i32) -> (idx: usize)
    requires
        0 <= j,
        0 <= i < width,
        j as int * width as int + i as int <= i32::MAX,
    ensures
        idx == j as int * width as int + i as int,
{
    assert(0 <= j as int * width as int) by (nonlinear_arith)
        requires
            0 <= j,
            0 < width,
    ;
    (j * width + i) as usize
}

/// Distinct pixels of one framebuffer have distinct indices, and every
/// index lies inside the framebuffer.
pub proof fn lemma_pixel_index_injective(width: int, height: int, j1: int, i1: int, j2: int, i2: int)
    requires
        0 <= j1 < height,
        0 <= j2 < height,
        0 <= i1 < width,
        0 <= i2 < width,
        j1 * width + i1 == j2 * width + i2,
    ensures
        j1 == j2,
        i1 == i2,
        0 <= j1 * width + i1 < width * height,
{
    if j1 < j2 {
        assert(j1 * width + i1 < j2 * width + i2) by (nonlinear_arith)
            requires
                j1 < j2,
                0 <= i1 < width,
                0 <= i2,
        ;
    } else if j2 < j1 {
        assert(j2 * width + i2 < j1 * width + i1) by (nonlinear_arith)
            requires
                j2 < j1,
                0 <= i2 < width,
                0 <= i1,
        ;
    }
    assert(0 <= j1 * width + i1 < width * height) by (nonlinear_arith)
        requires
            0 <= j1 < height,
            0 <= i1 < width,
    ;
}

} // verus!
