use raytracer::metrics::core_stats::{
    reset_core_stats, snapshot_core_stats, with_core_stats, CoreStats,
};
use raytracer::metrics::runlog::format_metrics;
use raytracer::metrics::{MetricsCollector, RunMetrics};
use raytracer::render::neon::NeonStats;
use raytracer::render::BackendKind;

fn readme_core_stats() -> CoreStats {
    CoreStats {
        rays_primary: 8960000,
        scalar_intersection_tests: 36353045,
        scalar_intersection_hits: 6850806,
        scalar_intersection_misses: 29502239,
        simd_intersection_tests: 44800000,
        simd_intersection_hits_lanes: 5045580,
        simd_intersection_misses_lanes: 3914420,
        lambertian_calls: 4902143,
        metal_calls: 593810,
        dielectric_calls: 765697,
        dielectric_reflect: 115853,
        dielectric_refract: 649844,
    }
}

fn assert_zero(s: &CoreStats) {
    assert_eq!(s.rays_primary, 0);
    assert_eq!(s.scalar_intersection_tests, 0);
    assert_eq!(s.scalar_intersection_hits, 0);
    assert_eq!(s.scalar_intersection_misses, 0);
    assert_eq!(s.simd_intersection_tests, 0);
    assert_eq!(s.simd_intersection_hits_lanes, 0);
    assert_eq!(s.simd_intersection_misses_lanes, 0);
    assert_eq!(s.lambertian_calls, 0);
    assert_eq!(s.metal_calls, 0);
    assert_eq!(s.dielectric_calls, 0);
    assert_eq!(s.dielectric_reflect, 0);
    assert_eq!(s.dielectric_refract, 0);
}

#[test]
fn reset_core_stats_zeroes_every_counter() {
    let mut s = readme_core_stats();
    reset_core_stats(&mut s);
    assert_zero(&s);
    assert_zero(&CoreStats::default());
}

#[test]
fn snapshot_core_stats_copies_the_counters() {
    let s = readme_core_stats();
    let snap = snapshot_core_stats(&s);
    assert_eq!(snap.scalar_intersection_hits, 6850806);
    assert_eq!(snap.dielectric_refract, 649844);
    assert_eq!(snap.rays_primary, s.rays_primary);
}

#[test]
fn with_core_stats_applies_the_closure_and_returns_its_result() {
    let mut s = CoreStats::default();
    let r = with_core_stats(&mut s, |stats: &mut CoreStats| {
        stats.scalar_intersection_tests += 1;
        stats.scalar_intersection_tests * 10
    });
    assert_eq!(r, 10);
    assert_eq!(s.scalar_intersection_tests, 1);
    assert_eq!(s.scalar_intersection_hits, 0);
}

#[test]
fn record_scalar_test_keeps_tests_equal_to_hits_plus_misses() {
    let mut s = CoreStats::default();
    s.record_scalar_test(true);
    s.record_scalar_test(false);
    s.record_scalar_test(false);
    assert_eq!(s.scalar_intersection_tests, 3);
    assert_eq!(s.scalar_intersection_hits, 1);
    assert_eq!(s.scalar_intersection_misses, 2);
    assert_eq!(
        s.scalar_intersection_tests,
        s.scalar_intersection_hits + s.scalar_intersection_misses
    );
}

#[test]
fn run_metrics_new_starts_with_zero_counters() {
    let m = RunMetrics::new("id".to_string(), BackendKind::Scalar, 400, 224, 100, 50, 4919);
    assert_eq!(m.run_id, "id");
    assert_eq!(m.backend, BackendKind::Scalar);
    assert_eq!(m.image_width, 400);
    assert_eq!(m.image_height, 224);
    assert_eq!(m.samples_per_pixel, 100);
    assert_eq!(m.max_depth, 50);
    assert_eq!(m.render_duration_ms, 4919);
    assert_eq!(m.scene_seed, None);
    assert_eq!(m.cpu_user_ms, None);
    assert_eq!(m.cpu_system_ms, None);
    assert_eq!(m.peak_memory_bytes, None);
    assert_eq!(m.primary_rays_total, 0);
    assert_eq!(m.primary_rays_accelerated, 0);
    assert_eq!(m.primary_rays_fallback, 0);
    assert_eq!(m.scene_spheres_total, 0);
    assert_zero(&m.core_stats);
}

#[test]
fn collect_takes_neon_counters_only_for_the_neon_backend() {
    let neon = NeonStats {
        primary_rays_total: 10,
        primary_rays_accelerated: 7,
        primary_rays_fallback: 3,
    };
    let m = MetricsCollector::collect(
        "a".to_string(),
        BackendKind::Neon,
        8,
        4,
        2,
        5,
        12,
        readme_core_stats(),
        Some(neon),
    );
    assert_eq!(m.primary_rays_total, 10);
    assert_eq!(m.primary_rays_accelerated, 7);
    assert_eq!(m.primary_rays_fallback, 3);
    assert_eq!(m.core_stats.metal_calls, 593810);

    let s = MetricsCollector::collect(
        "b".to_string(),
        BackendKind::Scalar,
        8,
        4,
        2,
        5,
        12,
        CoreStats::default(),
        Some(neon),
    );
    assert_eq!(s.primary_rays_total, 0);
    assert_eq!(s.primary_rays_accelerated, 0);
    assert_eq!(s.primary_rays_fallback, 0);

    let n = MetricsCollector::collect(
        "c".to_string(),
        BackendKind::Neon,
        8,
        4,
        2,
        5,
        12,
        CoreStats::default(),
        None,
    );
    assert_eq!(n.primary_rays_total, 0);
}

#[test]
fn effective_image_height_prefers_the_camera_and_is_at_least_one() {
    assert_eq!(MetricsCollector::effective_image_height(224, 7), 224);
    assert_eq!(MetricsCollector::effective_image_height(0, 7), 7);
    assert_eq!(MetricsCollector::effective_image_height(-3, 0), 1);
    assert_eq!(MetricsCollector::effective_image_height(0, -8), 1);
}

#[test]
fn record_scene_sets_seed_and_sphere_counts() {
    let mut m = RunMetrics::new("id".to_string(), BackendKind::Neon, 1, 1, 1, 1, 1);
    m.record_scene(Some(1000), (5, 1, 2, 2));
    assert_eq!(m.scene_seed, Some(1000));
    assert_eq!(m.scene_spheres_total, 5);
    assert_eq!(m.scene_spheres_lambertian, 1);
    assert_eq!(m.scene_spheres_metal, 2);
    assert_eq!(m.scene_spheres_dielectric, 2);
    assert_eq!(m.run_id, "id");
}

const README_METRICS: &str = "run_id: 20251130_134110_neon_400x224_spp100
backend: Neon
image_width: 400
image_height: 224
samples_per_pixel: 100
max_depth: 50
scene_seed: 1000

[timing]
render_duration_ms: 4919

[neon_stats]
primary_rays_total: 8960000
primary_rays_accelerated: 5045580
primary_rays_fallback: 3914420

[scene_spheres]
scene_spheres_total: 5
scene_spheres_lambertian: 1
scene_spheres_metal: 2
scene_spheres_dielectric: 2

[core_stats]
core_rays_primary: 8960000
core_scalar_intersection_tests: 36353045
core_scalar_intersection_hits: 6850806
core_scalar_intersection_misses: 29502239
core_simd_intersection_tests: 44800000
core_simd_intersection_hits_lanes: 5045580
core_simd_intersection_misses_lanes: 3914420
core_lambertian_calls: 4902143
core_metal_calls: 593810
core_dielectric_calls: 765697
core_dielectric_reflect: 115853
core_dielectric_refract: 649844
";

#[test]
fn format_metrics_matches_the_documented_example() {
    let neon = NeonStats {
        primary_rays_total: 8960000,
        primary_rays_accelerated: 5045580,
        primary_rays_fallback: 3914420,
    };
    let mut m = MetricsCollector::collect(
        "20251130_134110_neon_400x224_spp100".to_string(),
        BackendKind::Neon,
        400,
        224,
        100,
        50,
        4919,
        readme_core_stats(),
        Some(neon),
    );
    m.record_scene(Some(1000), (5, 1, 2, 2));
    assert_eq!(format_metrics(&m), README_METRICS);
}

#[test]
fn format_metrics_writes_none_seed_and_negative_sizes() {
    let m = RunMetrics::new("r".to_string(), BackendKind::Scalar, -4, 0, 1, 2, 0);
    let text = format_metrics(&m);
    assert!(text.starts_with(
        "run_id: r\nbackend: Scalar\nimage_width: -4\nimage_height: 0\nsamples_per_pixel: 1\nmax_depth: 2\nscene_seed: (none)\n\n[timing]\nrender_duration_ms: 0\n"
    ));
    assert!(text.ends_with("core_dielectric_refract: 0\n"));
}

#[test]
fn simd_sample_counts_primary_rays_like_the_neon_counters() {
    let mut core = CoreStats::default();
    let mut neon = NeonStats::default();
    let samples = [
        ([true, true, true, true], [true, false, true, false]),
        ([true, true, false, false], [false, false, true, true]),
    ];
    for (valid, hit) in samples {
        core.record_simd_sample(valid, hit, 5);
        neon.record_sample(valid, hit);
    }
    assert_eq!(core.rays_primary, 6);
    assert_eq!(core.rays_primary, neon.primary_rays_total);
    assert_eq!(core.simd_intersection_tests, 30);
    assert_eq!(core.simd_intersection_hits_lanes, neon.primary_rays_accelerated);
    assert_eq!(core.simd_intersection_hits_lanes, 2);
    assert_eq!(core.simd_intersection_misses_lanes, neon.primary_rays_fallback);
    assert_eq!(core.simd_intersection_misses_lanes, 4);
    assert_eq!(core.scalar_intersection_tests, 0);
}

#[test]
fn material_calls_keep_dielectric_calls_equal_to_reflect_plus_refract() {
    let mut s = CoreStats::default();
    s.record_lambertian_call();
    s.record_metal_call();
    s.record_metal_call();
    s.record_dielectric_call(true);
    s.record_dielectric_call(false);
    s.record_dielectric_call(false);
    s.record_primary_rays(100);
    assert_eq!(s.lambertian_calls, 1);
    assert_eq!(s.metal_calls, 2);
    assert_eq!(s.dielectric_calls, 3);
    assert_eq!(s.dielectric_reflect, 1);
    assert_eq!(s.dielectric_refract, 2);
    assert_eq!(s.dielectric_calls, s.dielectric_reflect + s.dielectric_refract);
    assert_eq!(s.rays_primary, 100);
}
