use raytracer::run::{
    backend_tag, compute_sphere_material_counts, image_file_name,
    metrics_file_name, run_id_from_timestamp, MaterialKind,
};
use raytracer::render::BackendKind;
use raytracer::scene::SceneKind;

#[test]
fn sphere_counts_by_material() {
    let kinds = [
        MaterialKind::Lambertian,
        MaterialKind::Dielectric,
        MaterialKind::Dielectric,
        MaterialKind::Metal,
        MaterialKind::Metal,
        MaterialKind::Other,
    ];
    assert_eq!(compute_sphere_material_counts(&kinds), (6, 1, 2, 2));
    assert_eq!(compute_sphere_material_counts(&[]), (0, 0, 0, 0));
}

#[test]
fn run_id_joins_timestamp_backend_resolution_and_samples() {
    assert_eq!(
        run_id_from_timestamp("20251130_134110", BackendKind::Neon, 400, 224, 100),
        "20251130_134110_neon_400x224_spp100"
    );
    assert_eq!(
        run_id_from_timestamp("t", BackendKind::Scalar, 8, 4, 1),
        "t_scalar_8x4_spp1"
    );
    assert_eq!(backend_tag(BackendKind::Scalar), "scalar");
}

#[test]
fn image_and_metrics_files_share_the_run_id() {
    assert_eq!(image_file_name("abc"), "output/abc.ppm");
    assert_eq!(metrics_file_name("abc"), "runs/abc.txt");
}

#[test]
fn scene_kinds_are_distinct() {
    assert_ne!(SceneKind::Initial, SceneKind::ManySpheres);
}
