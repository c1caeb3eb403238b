//! Central logical counters of the ray tracing pipeline.
//!
//! The counters live in a `CoreStats` value that the caller owns (the
//! program keeps one behind a process-wide lock); the functions here are
//! the operations that the pipeline performs on it.

use vstd::prelude::*;
use crate::render::neon::{
    count_both, count_lanes, lane_counts, lanes_where, lemma_lanes_where_len, NeonStats,
};

verus! {

/// Logical (not hardware) counters of one render, used to compare backends
/// and scenes.
#[derive(Debug, Clone, Copy)]
pub struct CoreStats {
    /// Primary rays emitted (one per sample and valid pixel).
    pub rays_primary: u64,
    /// Scalar intersection tests (one per `Sphere::hit` call).
    pub scalar_intersection_tests: u64,
    /// Scalar tests that ended in a hit.
    pub scalar_intersection_hits: u64,
    /// Scalar tests that ended in a miss.
    pub scalar_intersection_misses: u64,
    /// Vectorised intersection tests.
    pub simd_intersection_tests: u64,
    /// Lanes that hit in the vectorised tests.
    pub simd_intersection_hits_lanes: u64,
    /// Lanes that missed in the vectorised tests.
    pub simd_intersection_misses_lanes: u64,
    /// Calls into Lambertian materials.
    pub lambertian_calls: u64,
    /// Calls into metal materials.
    pub metal_calls: u64,
    /// Calls into dielectric materials.
    pub dielectric_calls: u64,
    /// Dielectric calls that reflected.
    pub dielectric_reflect: u64,
    /// Dielectric calls that refracted.
    pub dielectric_refract: u64,
}

impl CoreStats {
    /// Every counter is zero.
    pub open spec fn is_zero(self) -> bool {
        &&& self.rays_primary == 0
        &&& self.scalar_intersection_tests == 0
        &&& self.scalar_intersection_hits == 0
        &&& self.scalar_intersection_misses == 0
        &&& self.simd_intersection_tests == 0
        &&& self.simd_intersection_hits_lanes == 0
        &&& self.simd_intersection_misses_lanes == 0
        &&& self.lambertian_calls == 0
        &&& self.metal_calls == 0
        &&& self.dielectric_calls == 0
        &&& self.dielectric_reflect == 0
        &&& self.dielectric_refract == 0
    }

    /// Every scalar test is counted once as a hit or as a miss.
    pub open spec fn scalar_tests_balanced(self) -> bool {
        self.scalar_intersection_tests == self.scalar_intersection_hits
            + self.scalar_intersection_misses
    }

    /// The value after counting one scalar intersection test with outcome `hit`.
    pub open spec fn after_scalar_test(self, hit: bool) -> CoreStats {
        CoreStats {
            scalar_intersection_tests: (self.scalar_intersection_tests + 1) as u64,
            scalar_intersection_hits: if hit {
                (self.scalar_intersection_hits + 1) as u64
            } else {
                self.scalar_intersection_hits
            },
            scalar_intersection_misses: if hit {
                self.scalar_intersection_misses
            } else {
                (self.scalar_intersection_misses + 1) as u64
            },
            ..self
        }
    }

    /// Every dielectric call is counted once as a reflection or once as a
    /// refraction.
    pub open spec fn dielectric_balanced(self) -> bool {
        self.dielectric_calls == self.dielectric_reflect + self.dielectric_refract
    }

    /// The primary-ray and SIMD lane counters agree with the NEON backend's
    /// counters: primary rays with its total, hit lanes with its accelerated
    /// rays, miss lanes with its fallback rays.
    pub open spec fn agrees_with_neon(self, n: NeonStats) -> bool {
        &&& self.rays_primary == n.primary_rays_total
        &&& self.simd_intersection_hits_lanes == n.primary_rays_accelerated
        &&& self.simd_intersection_misses_lanes == n.primary_rays_fallback
    }

    /// The value after counting `n` primary rays of the scalar path.
    pub open spec fn after_primary_rays(self, n: nat) -> CoreStats {
        CoreStats { rays_primary: (self.rays_primary + n) as u64, ..self }
    }

    /// The value after one sample of a 4-pixel block tested against
    /// `sphere_count` spheres: its valid lanes are primary rays, each tested
    /// against every sphere; valid lanes with a hit are hit lanes, the other
    /// valid lanes are miss lanes.
    pub open spec fn after_simd_sample(
        self,
        valid: Seq<bool>,
        hit: Seq<bool>,
        sphere_count: nat,
    ) -> CoreStats {
        CoreStats {
            rays_primary: (self.rays_primary + count_lanes(valid)) as u64,
            simd_intersection_tests: (self.simd_intersection_tests + sphere_count * count_lanes(
                valid,
            )) as u64,
            simd_intersection_hits_lanes: (self.simd_intersection_hits_lanes + count_both(
                valid,
                hit,
            )) as u64,
            simd_intersection_misses_lanes: (self.simd_intersection_misses_lanes + (count_lanes(
                valid,
            ) - count_both(valid, hit))) as u64,
            ..self
        }
    }

    /// The value after one call into a Lambertian material.
    pub open spec fn after_lambertian_call(self) -> CoreStats {
        CoreStats { lambertian_calls: (self.lambertian_calls + 1) as u64, ..self }
    }

    /// The value after one call into a metal material.
    pub open spec fn after_metal_call(self) -> CoreStats {
        CoreStats { metal_calls: (self.metal_calls + 1) as u64, ..self }
    }

    /// The value after one call into a dielectric material that reflected
    /// (`reflected`) or refracted.
    pub open spec fn after_dielectric_call(self, reflected: bool) -> CoreStats {
        CoreStats {
            dielectric_calls: (self.dielectric_calls + 1) as u64,
            dielectric_reflect: if reflected {
                (self.dielectric_reflect + 1) as u64
            } else {
                self.dielectric_reflect
            },
            dielectric_refract: if reflected {
                self.dielectric_refract
            } else {
                (self.dielectric_refract + 1) as u64
            },
            ..self
        }
    }

    /// All counters at zero.
    pub fn zeroed() -> (s: CoreStats)
        ensures
            s.is_zero(),
    {
        CoreStats {
            rays_primary: 0,
            scalar_intersection_tests: 0,
            scalar_intersection_hits: 0,
            scalar_intersection_misses: 0,
            simd_intersection_tests: 0,
            simd_intersection_hits_lanes: 0,
            simd_intersection_misses_lanes: 0,
            lambertian_calls: 0,
            metal_calls: 0,
            dielectric_calls: 0,
            dielectric_reflect: 0,
            dielectric_refract: 0,
        }
    }

    /// Counts one scalar intersection test and its outcome, as a sphere
    /// intersection does: the test counter and then the hit or the miss
    /// counter are each raised by one.
    pub fn record_scalar_test(&mut self, hit: bool)
        requires
            old(self).scalar_intersection_tests < u64::MAX,
            hit ==> old(self).scalar_intersection_hits < u64::MAX,
            !hit ==> old(self).scalar_intersection_misses < u64::MAX,
        ensures
            *final(self) == old(self).after_scalar_test(hit),
            final(self).scalar_intersection_tests == old(self).scalar_intersection_tests + 1,
            final(self).scalar_intersection_hits == old(self).scalar_intersection_hits + if hit {
                1int
            } else {
                0int
            },
            final(self).scalar_intersection_misses == old(self).scalar_intersection_misses + if hit {
                0int
            } else {
                1int
            },
    {
        self.scalar_intersection_tests = self.scalar_intersection_tests + 1;
        if hit {
            self.scalar_intersection_hits = self.scalar_intersection_hits + 1;
        } else {
            self.scalar_intersection_misses = self.scalar_intersection_misses + 1;
        }
    }

    /// Counts `n` primary rays emitted by the scalar path.
    pub fn record_primary_rays(&mut self, n: u64)
        requires
            old(self).rays_primary + n <= u64::MAX,
        ensures
            *final(self) == old(self).after_primary_rays(n as nat),
            final(self).rays_primary == old(self).rays_primary + n,
    {
        self.rays_primary = self.rays_primary + n;
    }

    /// Counts one sample of a 4-pixel block whose lanes inside the image are
    /// `valid`, tested against `sphere_count` spheres, with a vectorised hit
    /// in the lanes `hit`.
    pub fn record_simd_sample(&mut self, valid: [bool; 4], hit: [bool; 4], sphere_count: u64)
        requires
            old(self).rays_primary + count_lanes(valid@) <= u64::MAX,
            old(self).simd_intersection_tests + sphere_count * count_lanes(valid@) <= u64::MAX,
            old(self).simd_intersection_hits_lanes + count_both(valid@, hit@) <= u64::MAX,
            old(self).simd_intersection_misses_lanes + (count_lanes(valid@) - count_both(
                valid@,
                hit@,
            )) <= u64::MAX,
        ensures
            *final(self) == old(self).after_simd_sample(valid@, hit@, sphere_count as nat),
            final(self).rays_primary == old(self).rays_primary + lanes_where(|k: int| valid@[k]).len(),
            final(self).simd_intersection_tests == old(self).simd_intersection_tests + sphere_count
                * lanes_where(|k: int| valid@[k]).len(),
            final(self).simd_intersection_hits_lanes == old(self).simd_intersection_hits_lanes
                + lanes_where(|k: int| valid@[k] && hit@[k]).len(),
            final(self).simd_intersection_misses_lanes == old(self).simd_intersection_misses_lanes
                + lanes_where(|k: int| valid@[k] && !hit@[k]).len(),
    {
        proof {
            lemma_lanes_where_len(|k: int| valid@[k] && !hit@[k]);
        }
        let (active, hits) = lane_counts(valid, hit);
        assert(sphere_count * active <= sphere_count * 4) by (nonlinear_arith)
            requires
                active <= 4,
        ;
        self.rays_primary = self.rays_primary + active;
        self.simd_intersection_tests = self.simd_intersection_tests + sphere_count * active;
        self.simd_intersection_hits_lanes = self.simd_intersection_hits_lanes + hits;
        self.simd_intersection_misses_lanes = self.simd_intersection_misses_lanes + (active - hits);
    }

    /// Counts one call into a Lambertian material.
    pub fn record_lambertian_call(&mut self)
        requires
            old(self).lambertian_calls < u64::MAX,
        ensures
            *final(self) == old(self).after_lambertian_call(),
            final(self).lambertian_calls == old(self).lambertian_calls + 1,
    {
        self.lambertian_calls = self.lambertian_calls + 1;
    }

    /// Counts one call into a metal material.
    pub fn record_metal_call(&mut self)
        requires
            old(self).metal_calls < u64::MAX,
        ensures
            *final(self) == old(self).after_metal_call(),
            final(self).metal_calls == old(self).metal_calls + 1,
    {
        self.metal_calls = self.metal_calls + 1;
    }

    /// Counts one call into a dielectric material and whether it reflected
    /// or refracted.
    pub fn record_dielectric_call(&mut self, reflected: bool)
        requires
            old(self).dielectric_calls < u64::MAX,
            reflected ==> old(self).dielectric_reflect < u64::MAX,
            !reflected ==> old(self).dielectric_refract < u64::MAX,
        ensures
            *final(self) == old(self).after_dielectric_call(reflected),
            final(self).dielectric_calls == old(self).dielectric_calls + 1,
            final(self).dielectric_reflect == old(self).dielectric_reflect + if reflected {
                1int
            } else {
                0int
            },
            final(self).dielectric_refract == old(self).dielectric_refract + if reflected {
                0int
            } else {
                1int
            },
    {
        self.dielectric_calls = self.dielectric_calls + 1;
        if reflected {
            self.dielectric_reflect = self.dielectric_reflect + 1;
        } else {
            self.dielectric_refract = self.dielectric_refract + 1;
        }
    }
}

impl Default for CoreStats {
    /// All counters at zero.
    fn default() -> (s: CoreStats)
        ensures
            s.is_zero(),
    {
        CoreStats::zeroed()
    }
}

/// Resets every counter to zero before a render.
pub fn reset_core_stats(stats: &mut CoreStats)
    ensures
        final(stats).is_zero(),
{
    *stats = CoreStats::zeroed();
}

/// Runs `f` with mutable access to the counters and returns its result;
/// the counters end as `f` leaves them.
pub fn with_core_stats<F, R>(stats: &mut CoreStats, f: F) -> (r: R) where
    F: FnOnce(&mut CoreStats) -> R,

    requires
        forall|m: &mut CoreStats| *m == *old(stats) ==> call_requires(f, (m,)),
    ensures
        exists|m: &mut CoreStats|
            *m == *old(stats) && *final(m) == *final(stats) && call_ensures(f, (m,), r),
{
    f(stats)
}

/// A copy of the current counters.
pub fn snapshot_core_stats(stats: &CoreStats) -> (s: CoreStats)
    ensures
        s == *stats,
{
    *stats
}

/// A reset leaves the scalar test counters balanced, and counting a test
/// keeps them balanced: every scalar intersection test is counted once as a
/// hit or once as a miss.
pub proof fn lemma_scalar_tests_stay_balanced(s: CoreStats, hit: bool)
    requires
        s.scalar_tests_balanced(),
        s.scalar_intersection_tests < u64::MAX,
    ensures
        s.after_scalar_test(hit).scalar_tests_balanced(),
        s.after_scalar_test(hit).scalar_intersection_tests == s.scalar_intersection_tests + 1,
{
}

/// Zeroed counters are balanced.
pub proof fn lemma_zero_is_balanced(s: CoreStats)
    requires
        s.is_zero(),
    ensures
        s.scalar_tests_balanced(),
{
}

/// Every dielectric call is counted once as a reflection or once as a
/// refraction: zeroed counters are balanced, a dielectric call keeps them
/// balanced, and the other counting steps leave the dielectric counters alone.
pub proof fn lemma_dielectric_calls_stay_balanced(s: CoreStats, reflected: bool)
    requires
        s.dielectric_balanced(),
        s.dielectric_calls < u64::MAX,
    ensures
        s.after_dielectric_call(reflected).dielectric_balanced(),
        s.after_lambertian_call().dielectric_balanced(),
        s.after_metal_call().dielectric_balanced(),
        s.after_scalar_test(reflected).dielectric_balanced(),
{
}

/// In a render of the NEON backend, which counts each sample of a block in
/// both its own counters and the logical ones, the logical primary rays equal
/// the NEON primary rays, and the hit and miss lanes equal the accelerated and
/// fallback rays, sample after sample.
pub proof fn lemma_primary_rays_agree_with_neon(
    c: CoreStats,
    n: NeonStats,
    valid: Seq<bool>,
    hit: Seq<bool>,
    sphere_count: nat,
)
    requires
        c.agrees_with_neon(n),
        c.rays_primary + count_lanes(valid) <= u64::MAX,
        c.simd_intersection_hits_lanes + count_both(valid, hit) <= u64::MAX,
        c.simd_intersection_misses_lanes + (count_lanes(valid) - count_both(valid, hit))
            <= u64::MAX,
    ensures
        c.after_simd_sample(valid, hit, sphere_count).agrees_with_neon(n.after_sample(valid, hit)),
{
}

/// Zeroed logical counters agree with zeroed NEON counters.
pub proof fn lemma_zero_agrees_with_neon(c: CoreStats, n: NeonStats)
    requires
        c.is_zero(),
        n.primary_rays_total == 0,
        n.primary_rays_accelerated == 0,
        n.primary_rays_fallback == 0,
    ensures
        c.agrees_with_neon(n),
{
}

/// Recording primary rays accumulates: two recordings of `a` and `b` rays
/// raise the counter by `a + b`, each by exactly its own count.
pub proof fn lemma_primary_rays_accumulate(s: CoreStats, a: nat, b: nat)
    requires
        s.rays_primary + a + b <= u64::MAX,
    ensures
        s.after_primary_rays(a).rays_primary == s.rays_primary + a,
        s.after_primary_rays(a).after_primary_rays(b).rays_primary == s.rays_primary + a + b,
{
}

} // verus!
