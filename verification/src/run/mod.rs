//! One render run: its identifier, the names of the files it writes and
//! the census of the scene's spheres by material.

use vstd::prelude::*;
use crate::render::BackendKind;
use crate::text::{signed_decimal, push_signed_decimal};

verus! {

/// The kind of a sphere's material, as the run's census sees it.
#[derive(Debug, Clone, Copy, PartialEq, Eq, Structural)]
pub enum MaterialKind {
    Lambertian,
    Metal,
    Dielectric,
    /// Any other material: counted in the total only.
    Other,
}

/// Number of entries of `kinds` equal to `k`.
pub open spec fn count_kind(kinds: Seq<MaterialKind>, k: MaterialKind) -> nat
    decreases kinds.len(),
{
    if kinds.len() == 0 {
        0
    } else {
        count_kind(kinds.drop_last(), k) + if kinds.last() == k {
            1nat
        } else {
            0nat
        }
    }
}

/// The number of entries of `kinds` equal to `k` is the length of the
/// subsequence of the entries equal to `k`.
pub proof fn lemma_count_kind_is_filter_len(kinds: Seq<MaterialKind>, k: MaterialKind)
    ensures
        count_kind(kinds, k) == kinds.filter(|x: MaterialKind| x == k).len(),
    decreases kinds.len(),
{
    reveal(Seq::filter);
    if kinds.len() > 0 {
        lemma_count_kind_is_filter_len(kinds.drop_last(), k);
    }
}

/// Counts the spheres of a scene, given the material kind of each, in
/// total and by material: `(total, lambertian, metal, dielectric)`.
pub fn compute_sphere_material_counts(kinds: &[MaterialKind]) -> (r: (u64, u64, u64, u64))
    ensures
        r.0 == kinds@.len(),
        r.1 == count_kind(kinds@, MaterialKind::Lambertian),
        r.2 == count_kind(kinds@, MaterialKind::Metal),
        r.3 == count_kind(kinds@, MaterialKind::Dielectric),
        r.1 == kinds@.filter(|x: MaterialKind| x == MaterialKind::Lambertian).len(),
        r.2 == kinds@.filter(|x: MaterialKind| x == MaterialKind::Metal).len(),
        r.3 == kinds@.filter(|x: MaterialKind| x == MaterialKind::Dielectric).len(),
{
    proof {
        lemma_count_kind_is_filter_len(kinds@, MaterialKind::Lambertian);
        lemma_count_kind_is_filter_len(kinds@, MaterialKind::Metal);
        lemma_count_kind_is_filter_len(kinds@, MaterialKind::Dielectric);
    }
    let mut total: u64 = 0;
    let mut lambertian: u64 = 0;
    let mut metal: u64 = 0;
    let mut dielectric: u64 = 0;
    let mut k: usize = 0;
    while k < kinds.len()
        invariant
            k <= kinds@.len(),
            total == k,
            lambertian == count_kind(kinds@.take(k as int), MaterialKind::Lambertian),
            metal == count_kind(kinds@.take(k as int), MaterialKind::Metal),
            dielectric == count_kind(kinds@.take(k as int), MaterialKind::Dielectric),
            lambertian <= k,
            metal <= k,
            dielectric <= k,
        decreases kinds@.len() - k,
    {
        assert(kinds@.take(k + 1).drop_last() =~= kinds@.take(k as int));
        assert(kinds@.take(k + 1).last() == kinds@[k as int]);
        total = total + 1;
        match kinds[k] {
            MaterialKind::Lambertian => lambertian = lambertian + 1,
            MaterialKind::Metal => metal = metal + 1,
            MaterialKind::Dielectric => dielectric = dielectric + 1,
            MaterialKind::Other => {},
        }
        k = k + 1;
    }
    assert(kinds@.take(kinds@.len() as int) =~= kinds@);
    (total, lambertian, metal, dielectric)
}

/// Every sphere falls in exactly one material kind, so the per-material
/// counts never exceed the total and add up to it with the other kinds.
pub proof fn lemma_material_counts_partition(kinds: Seq<MaterialKind>)
    ensures
        count_kind(kinds, MaterialKind::Lambertian) + count_kind(kinds, MaterialKind::Metal)
            + count_kind(kinds, MaterialKind::Dielectric) + count_kind(kinds, MaterialKind::Other)
            == kinds.len(),
    decreases kinds.len(),
{
    if kinds.len() > 0 {
        lemma_material_counts_partition(kinds.drop_last());
    }
}

/// The tag of a backend inside run identifiers.
pub open spec fn backend_tag_text(b: BackendKind) -> Seq<char> {
    match b {
        BackendKind::Scalar => "scalar"@,
        BackendKind::Neon => "neon"@,
    }
}

/// The run identifier `TIMESTAMP_BACKEND_WxH_sppN`.
pub open spec fn run_id_text(
    timestamp: Seq<char>,
    backend: BackendKind,
    image_width: int,
    image_height: int,
    samples_per_pixel: int,
) -> Seq<char> {
    timestamp + seq!['_'] + backend_tag_text(backend) + seq!['_'] + signed_decimal(image_width)
        + seq!['x'] + signed_decimal(image_height) + "_spp"@ + signed_decimal(samples_per_pixel)
}

/// The tag of `backend` inside run identifiers.
pub fn backend_tag(backend: BackendKind) -> (r: &'static str)
    ensures
        r@ == backend_tag_text(backend),
{
    match backend {
        BackendKind::Scalar => "scalar",
        BackendKind::Neon => "neon",
    }
}

/// The identifier of a run started at `timestamp` (local time, formatted
/// `YYYYMMDD_HHMMSS`) with the given backend, resolution and samples.
pub fn run_id_from_timestamp(
    timestamp: &str,
    backend: BackendKind,
    image_width: i32,
    image_height: i32,
    samples_per_pixel: i32,
) -> (r: String)
    ensures
        r@ == run_id_text(
            timestamp@,
            backend,
            image_width as int,
            image_height as int,
            samples_per_pixel as int,
        ),
{
    let mut s = String::new();
    s.append(timestamp);
    s.push('_');
    s.append(backend_tag(backend));
    s.push('_');
    push_signed_decimal(&mut s, image_width as i128);
    s.push('x');
    push_signed_decimal(&mut s, image_height as i128);
    s.append("_spp");
    push_signed_decimal(&mut s, samples_per_pixel as i128);
    assert(s@ =~= run_id_text(
        timestamp@,
        backend,
        image_width as int,
        image_height as int,
        samples_per_pixel as int,
    ));
    s
}

/// The image file of a run: `output/<run_id>.ppm`.
pub fn image_file_name(run_id: &str) -> (r: String)
    ensures
        r@ == "output/"@ + run_id@ + ".ppm"@,
{
    let mut s = String::new();
    s.append("output/");
    s.append(run_id);
    s.append(".ppm");
    assert(s@ =~= "output/"@ + run_id@ + ".ppm"@);
    s
}

/// The metrics file of a run: `runs/<run_id>.txt`.
pub fn metrics_file_name(run_id: &str) -> (r: String)
    ensures
        r@ == "runs/"@ + run_id@ + ".txt"@,
{
    let mut s = String::new();
    s.append("runs/");
    s.append(run_id);
    s.append(".txt");
    assert(s@ =~= "runs/"@ + run_id@ + ".txt"@);
    s
}

} // verus!
