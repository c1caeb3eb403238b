use raytracer::render::neon::{block_lane_mask, NeonStats};
use raytracer::render::primary::{primary_shading_plan, PrimaryShading};
use raytracer::render::scalar::ScalarRenderer;
use raytracer::render::{
    backend_name, framebuffer_len, pixel_index, sphere_accel_for_backend, BackendKind,
};

#[test]
fn block_lane_mask_marks_lanes_past_the_edge_invalid() {
    // Block starting at column 6 of an 8-pixel-wide image.
    let m = block_lane_mask(6, 8);
    assert!(m[0], "lane 0 must be valid (x = 6)");
    assert!(m[1], "lane 1 must be valid (x = 7)");
    assert!(!m[2], "lane 2 must be invalid (x = 8 >= width)");
    assert!(!m[3], "lane 3 must be invalid (x = 9 >= width)");
}

#[test]
fn block_lane_mask_marks_all_lanes_valid_inside_the_width() {
    let m = block_lane_mask(2, 8);
    for lane in 0..4 {
        assert!(m[lane], "lane {} must be valid inside the image width", lane);
    }
    assert_eq!(block_lane_mask(i32::MAX - 1, i32::MAX), [true, false, false, false]);
}

#[test]
fn neon_stats_count_valid_lanes_as_accelerated_or_fallback() {
    let mut s = NeonStats::default();
    assert_eq!(s.primary_rays_total, 0);
    s.record_sample([true, true, true, false], [true, false, true, true]);
    assert_eq!(s.primary_rays_total, 3);
    assert_eq!(s.primary_rays_accelerated, 2);
    assert_eq!(s.primary_rays_fallback, 1);
    s.record_sample([true, true, true, true], [false, false, false, false]);
    assert_eq!(s.primary_rays_total, 7);
    assert_eq!(s.primary_rays_accelerated, 2);
    assert_eq!(s.primary_rays_fallback, 5);
    assert_eq!(
        s.primary_rays_total,
        s.primary_rays_accelerated + s.primary_rays_fallback
    );
}

#[test]
fn blocks_of_a_scanline_count_each_pixel_once() {
    for width in [0, 1, 3, 4, 5, 8, 10, 400] {
        let mut total = 0u64;
        let mut s = NeonStats::zeroed();
        let mut i_block = 0;
        while i_block < width {
            let m = block_lane_mask(i_block, width);
            s.record_sample(m, [false; 4]);
            total += m.iter().filter(|b| **b).count() as u64;
            i_block += 4;
        }
        assert_eq!(total, width as u64);
        assert_eq!(s.primary_rays_total, width as u64);
        assert_eq!(s.primary_rays_fallback, width as u64);
    }
}

#[test]
fn pixel_index_is_row_major() {
    assert_eq!(pixel_index(0, 0, 8), 0);
    assert_eq!(pixel_index(2, 3, 10), 23);
    assert_eq!(pixel_index(223, 399, 400), 89599);
    assert_eq!(framebuffer_len(400, 224), 89600);
    assert_eq!(framebuffer_len(0, 7), 0);
}

#[test]
fn primary_shading_plan_follows_the_hint_rules() {
    assert_eq!(primary_shading_plan(0, true, 1, 3), PrimaryShading::NoLight);
    assert_eq!(primary_shading_plan(-2, false, -1, 3), PrimaryShading::NoLight);
    assert_eq!(primary_shading_plan(5, false, 1, 3), PrimaryShading::Background);
    assert_eq!(primary_shading_plan(5, true, -1, 3), PrimaryShading::Background);
    assert_eq!(primary_shading_plan(5, true, 3, 3), PrimaryShading::FullTrace);
    assert_eq!(primary_shading_plan(5, true, 2, 3), PrimaryShading::HintedSphere(2));
}

#[test]
fn sphere_accel_goes_only_to_the_neon_backend() {
    assert_eq!(sphere_accel_for_backend(BackendKind::Scalar, vec![1, 2]), None);
    assert_eq!(sphere_accel_for_backend(BackendKind::Neon, vec![1, 2]), Some(vec![1, 2]));
}

#[test]
fn backend_names_match_debug_output() {
    assert_eq!(backend_name(BackendKind::Scalar), format!("{:?}", BackendKind::Scalar));
    assert_eq!(backend_name(BackendKind::Neon), "Neon");
    let _r = ScalarRenderer::new();
}
