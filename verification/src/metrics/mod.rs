//! Metrics of one render run.

pub mod core_stats;
pub mod runlog;

use vstd::prelude::*;
use crate::render::BackendKind;
use crate::render::neon::NeonStats;
use self::core_stats::CoreStats;

verus! {

/// Metrics of one render execution.
pub struct RunMetrics {
    pub run_id: String,
    pub backend: BackendKind,
    pub image_width: i32,
    pub image_height: i32,
    pub samples_per_pixel: i32,
    pub max_depth: i32,
    pub scene_seed: Option<u64>,
    pub render_duration_ms: u128,
    pub cpu_user_ms: Option<u128>,
    pub cpu_system_ms: Option<u128>,
    pub peak_memory_bytes: Option<u64>,
    /// NEON backend counters; they stay 0 for the scalar backend.
    pub primary_rays_total: u64,
    pub primary_rays_accelerated: u64,
    pub primary_rays_fallback: u64,
    /// Spheres of the scene, in total and by material.
    pub scene_spheres_total: u64,
    pub scene_spheres_lambertian: u64,
    pub scene_spheres_metal: u64,
    pub scene_spheres_dielectric: u64,
    /// Logical counters shared by every backend.
    pub core_stats: CoreStats,
}

impl RunMetrics {
    /// Metrics with the given header and render time; the seed and the
    /// resource figures are unknown, every counter is zero.
    pub fn new(
        run_id: String,
        backend: BackendKind,
        image_width: i32,
        image_height: i32,
        samples_per_pixel: i32,
        max_depth: i32,
        render_duration_ms: u128,
    ) -> (m: Self)
        ensures
            m.run_id == run_id,
            m.backend == backend,
            m.image_width == image_width,
            m.image_height == image_height,
            m.samples_per_pixel == samples_per_pixel,
            m.max_depth == max_depth,
            m.scene_seed is None,
            m.render_duration_ms == render_duration_ms,
            m.cpu_user_ms is None,
            m.cpu_system_ms is None,
            m.peak_memory_bytes is None,
            m.primary_rays_total == 0,
            m.primary_rays_accelerated == 0,
            m.primary_rays_fallback == 0,
            m.scene_spheres_total == 0,
            m.scene_spheres_lambertian == 0,
            m.scene_spheres_metal == 0,
            m.scene_spheres_dielectric == 0,
            m.core_stats.is_zero(),
    {
        RunMetrics {
            run_id,
            backend,
            image_width,
            image_height,
            samples_per_pixel,
            max_depth,
            scene_seed: None,
            render_duration_ms,
            cpu_user_ms: None,
            cpu_system_ms: None,
            peak_memory_bytes: None,
            primary_rays_total: 0,
            primary_rays_accelerated: 0,
            primary_rays_fallback: 0,
            scene_spheres_total: 0,
            scene_spheres_lambertian: 0,
            scene_spheres_metal: 0,
            scene_spheres_dielectric: 0,
            core_stats: CoreStats::zeroed(),
        }
    }

    /// Records the scene seed and the sphere counts `(total, lambertian,
    /// metal, dielectric)` of the run; nothing else changes.
    pub fn record_scene(&mut self, scene_seed: Option<u64>, counts: (u64, u64, u64, u64))
        ensures
            final(self).scene_seed == scene_seed,
            final(self).scene_spheres_total == counts.0,
            final(self).scene_spheres_lambertian == counts.1,
            final(self).scene_spheres_metal == counts.2,
            final(self).scene_spheres_dielectric == counts.3,
            final(self).run_id == old(self).run_id,
            final(self).backend == old(self).backend,
            final(self).image_width == old(self).image_width,
            final(self).image_height == old(self).image_height,
            final(self).samples_per_pixel == old(self).samples_per_pixel,
            final(self).max_depth == old(self).max_depth,
            final(self).render_duration_ms == old(self).render_duration_ms,
            final(self).cpu_user_ms == old(self).cpu_user_ms,
            final(self).cpu_system_ms == old(self).cpu_system_ms,
            final(self).peak_memory_bytes == old(self).peak_memory_bytes,
            final(self).primary_rays_total == old(self).primary_rays_total,
            final(self).primary_rays_accelerated == old(self).primary_rays_accelerated,
            final(self).primary_rays_fallback == old(self).primary_rays_fallback,
            final(self).core_stats == old(self).core_stats,
    {
        self.scene_seed = scene_seed;
        self.scene_spheres_total = counts.0;
        self.scene_spheres_lambertian = counts.1;
        self.scene_spheres_metal = counts.2;
        self.scene_spheres_dielectric = counts.3;
    }
}

/// Groups the steps that turn a measured render into its metrics.
pub struct MetricsCollector;

impl MetricsCollector {
    /// The image height reported for a render: the camera's height when it
    /// is positive, otherwise the height estimated from the width and the
    /// aspect ratio, at least 1.
    pub fn effective_image_height(camera_height: i32, estimated_height: i32) -> (h: i32)
        ensures
            camera_height > 0 ==> h == camera_height,
            camera_height <= 0 && estimated_height >= 1 ==> h == estimated_height,
            camera_height <= 0 && estimated_height < 1 ==> h == 1,
    {
        if camera_height > 0 {
            camera_height
        } else if estimated_height < 1 {
            1
        } else {
            estimated_height
        }
    }

    /// The metrics of a render that took `render_duration_ms`: the render
    /// parameters, the logical counters read after it and, for the NEON
    /// backend when its counters are at hand, the NEON counters (zero
    /// otherwise). The seed stays unknown and the scene counts zero until the
    /// run records its scene.
    pub fn collect(
        run_id: String,
        backend: BackendKind,
        image_width: i32,
        image_height: i32,
        samples_per_pixel: i32,
        max_depth: i32,
        render_duration_ms: u128,
        core_stats: CoreStats,
        neon_stats: Option<NeonStats>,
    ) -> (m: RunMetrics)
        ensures
            m.run_id == run_id,
            m.backend == backend,
            m.image_width == image_width,
            m.image_height == image_height,
            m.samples_per_pixel == samples_per_pixel,
            m.max_depth == max_depth,
            m.scene_seed is None,
            m.render_duration_ms == render_duration_ms,
            m.cpu_user_ms is None,
            m.cpu_system_ms is None,
            m.peak_memory_bytes is None,
            m.core_stats == core_stats,
            m.scene_spheres_total == 0,
            m.scene_spheres_lambertian == 0,
            m.scene_spheres_metal == 0,
            m.scene_spheres_dielectric == 0,
            (match neon_stats {
                Some(s) if backend == BackendKind::Neon => {
                    &&& m.primary_rays_total == s.primary_rays_total
                    &&& m.primary_rays_accelerated == s.primary_rays_accelerated
                    &&& m.primary_rays_fallback == s.primary_rays_fallback
                },
                _ => {
                    &&& m.primary_rays_total == 0
                    &&& m.primary_rays_accelerated == 0
                    &&& m.primary_rays_fallback == 0
                },
            }),
    {
        let mut m = RunMetrics::new(
            run_id,
            backend,
            image_width,
            image_height,
            samples_per_pixel,
            max_depth,
            render_duration_ms,
        );
        m.core_stats = core_stats;
        if let BackendKind::Neon = backend {
            if let Some(s) = neon_stats {
                m.primary_rays_total = s.primary_rays_total;
                m.primary_rays_accelerated = s.primary_rays_accelerated;
                m.primary_rays_fallback = s.primary_rays_fallback;
            }
        }
        m
    }
}

} // verus!
