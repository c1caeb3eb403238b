//! The text of a run's metrics file: a header with the run parameters,
//! then the `[timing]`, `[neon_stats]`, `[scene_spheres]` and
//! `[core_stats]` sections, separated by blank lines, one `key: value`
//! line per figure.

use vstd::prelude::*;
use crate::metrics::RunMetrics;
use crate::metrics::core_stats::CoreStats;
use crate::render::{backend_debug_name, backend_name};
use crate::text::{decimal, signed_decimal, push_decimal, push_signed_decimal};

verus! {

/// One line `key` + `value` + newline (`key` holds its `": "`).
pub open spec fn line(key: Seq<char>, value: Seq<char>) -> Seq<char> {
    key + value + seq!['\n']
}

/// The seed line: the seed, or `(none)` when the scene had no seed.
pub open spec fn seed_line(seed: Option<u64>) -> Seq<char> {
    match seed {
        Some(v) => line("scene_seed: "@, decimal(v as nat)),
        None => "scene_seed: (none)\n"@,
    }
}

/// The header: run id, backend and render parameters.
pub open spec fn header_text(m: RunMetrics) -> Seq<char> {
    line("run_id: "@, m.run_id@) + line("backend: "@, backend_debug_name(m.backend)) + line(
        "image_width: "@,
        signed_decimal(m.image_width as int),
    ) + line("image_height: "@, signed_decimal(m.image_height as int)) + line(
        "samples_per_pixel: "@,
        signed_decimal(m.samples_per_pixel as int),
    ) + line("max_depth: "@, signed_decimal(m.max_depth as int)) + seed_line(m.scene_seed)
}

/// The `[timing]` section.
pub open spec fn timing_text(m: RunMetrics) -> Seq<char> {
    "[timing]\n"@ + line("render_duration_ms: "@, decimal(m.render_duration_ms as nat))
}

/// The `[neon_stats]` section (written for every backend).
pub open spec fn neon_text(m: RunMetrics) -> Seq<char> {
    "[neon_stats]\n"@ + line("primary_rays_total: "@, decimal(m.primary_rays_total as nat)) + line(
        "primary_rays_accelerated: "@,
        decimal(m.primary_rays_accelerated as nat),
    ) + line("primary_rays_fallback: "@, decimal(m.primary_rays_fallback as nat))
}

/// The `[scene_spheres]` section.
pub open spec fn scene_text(m: RunMetrics) -> Seq<char> {
    "[scene_spheres]\n"@ + line("scene_spheres_total: "@, decimal(m.scene_spheres_total as nat))
        + line("scene_spheres_lambertian: "@, decimal(m.scene_spheres_lambertian as nat)) + line(
        "scene_spheres_metal: "@,
        decimal(m.scene_spheres_metal as nat),
    ) + line("scene_spheres_dielectric: "@, decimal(m.scene_spheres_dielectric as nat))
}

/// The intersection counters of the `[core_stats]` section.
pub open spec fn core_intersection_text(c: CoreStats) -> Seq<char> {
    line("core_rays_primary: "@, decimal(c.rays_primary as nat)) + line(
        "core_scalar_intersection_tests: "@,
        decimal(c.scalar_intersection_tests as nat),
    ) + line("core_scalar_intersection_hits: "@, decimal(c.scalar_intersection_hits as nat))
        + line("core_scalar_intersection_misses: "@, decimal(c.scalar_intersection_misses as nat))
        + line("core_simd_intersection_tests: "@, decimal(c.simd_intersection_tests as nat)) + line(
        "core_simd_intersection_hits_lanes: "@,
        decimal(c.simd_intersection_hits_lanes as nat),
    ) + line(
        "core_simd_intersection_misses_lanes: "@,
        decimal(c.simd_intersection_misses_lanes as nat),
    )
}

/// The material counters of the `[core_stats]` section.
pub open spec fn core_material_text(c: CoreStats) -> Seq<char> {
    line("core_lambertian_calls: "@, decimal(c.lambertian_calls as nat)) + line(
        "core_metal_calls: "@,
        decimal(c.metal_calls as nat),
    ) + line("core_dielectric_calls: "@, decimal(c.dielectric_calls as nat)) + line(
        "core_dielectric_reflect: "@,
        decimal(c.dielectric_reflect as nat),
    ) + line("core_dielectric_refract: "@, decimal(c.dielectric_refract as nat))
}

/// The `[core_stats]` section.
pub open spec fn core_text(c: CoreStats) -> Seq<char> {
    "[core_stats]\n"@ + core_intersection_text(c) + core_material_text(c)
}

/// The whole metrics file of a run.
pub open spec fn metrics_text(m: RunMetrics) -> Seq<char> {
    header_text(m) + seq!['\n'] + timing_text(m) + seq!['\n'] + neon_text(m) + seq!['\n']
        + scene_text(m) + seq!['\n'] + core_text(m.core_stats)
}


/// `text` holds, at the start of one of its lines, the whole line
/// `key` + `value` + newline.
pub open spec fn has_line(text: Seq<char>, key: Seq<char>, value: Seq<char>) -> bool {
    exists|i: int|
        0 <= i && i + line(key, value).len() <= text.len() && #[trigger] text.subrange(
            i,
            i + line(key, value).len(),
        ) == line(key, value) && (i == 0 || text[i - 1] == '\n')
}

/// `text` is empty or ends a line.
pub open spec fn at_line_start(text: Seq<char>) -> bool {
    text.len() == 0 || text.last() == '\n'
}

pub proof fn lemma_line_alone(key: Seq<char>, value: Seq<char>)
    ensures
        has_line(line(key, value), key, value),
        at_line_start(line(key, value)),
{
    let l = line(key, value);
    let i: int = 0;
    assert(l.subrange(i, i + l.len()) =~= l);
}

/// A line stays in a text when more text follows, and a line of the
/// second part is a line of the whole when the first part ends a line.
pub proof fn lemma_line_in_concat(a: Seq<char>, b: Seq<char>, key: Seq<char>, value: Seq<char>)
    ensures
        has_line(a, key, value) ==> has_line(a + b, key, value),
        at_line_start(a) && has_line(b, key, value) ==> has_line(a + b, key, value),
        at_line_start(b) && b.len() > 0 ==> at_line_start(a + b),
        at_line_start(a) && b.len() == 0 ==> at_line_start(a + b),
{
    let l = line(key, value);
    if has_line(a, key, value) {
        let i = choose|i: int|
            0 <= i && i + l.len() <= a.len() && #[trigger] a.subrange(i, i + l.len()) == l && (i
                == 0 || a[i - 1] == '\n');
        assert((a + b).subrange(i, i + l.len()) =~= a.subrange(i, i + l.len()));
    }
    if at_line_start(a) && has_line(b, key, value) {
        let i = choose|i: int|
            0 <= i && i + l.len() <= b.len() && #[trigger] b.subrange(i, i + l.len()) == l && (i
                == 0 || b[i - 1] == '\n');
        let j = a.len() + i;
        assert((a + b).subrange(j, j + l.len()) =~= b.subrange(i, i + l.len()));
        if i == 0 {
            if a.len() > 0 {
                assert((a + b)[j - 1] == a.last());
            }
        } else {
            assert((a + b)[j - 1] == b[i - 1]);
        }
    }
    if at_line_start(b) && b.len() > 0 {
        assert((a + b).last() == b.last());
    }
    if at_line_start(a) && b.len() == 0 {
        assert(a + b =~= a);
    }
}

/// Joining two texts that each end a line keeps every line of both.
proof fn lemma_lines_join(a: Seq<char>, b: Seq<char>)
    requires
        at_line_start(a),
        at_line_start(b),
    ensures
        forall|key: Seq<char>, value: Seq<char>|
            has_line(a, key, value) || has_line(b, key, value) ==> #[trigger] has_line(
                a + b,
                key,
                value,
            ),
        at_line_start(a + b),
{
    assert forall|key: Seq<char>, value: Seq<char>|
        has_line(a, key, value) || has_line(b, key, value) implies #[trigger] has_line(
        a + b,
        key,
        value,
    ) by {
        lemma_line_in_concat(a, b, key, value);
    }
    lemma_line_in_concat(a, b, Seq::empty(), Seq::empty());
}

/// Every key of the metrics file carries the field of the same name: the
/// text holds, each at the start of a line, `run_id: ` with the run id,
/// `backend: ` with the backend name, each size and parameter with its value,
/// the seed (or `(none)`), and every counter with its own value.
pub open spec fn each_key_carries_its_field(text: Seq<char>, m: RunMetrics) -> bool {
    let c = m.core_stats;
    &&& has_line(text, "run_id: "@, m.run_id@)
    &&& has_line(text, "backend: "@, backend_debug_name(m.backend))
    &&& has_line(text, "image_width: "@, signed_decimal(m.image_width as int))
    &&& has_line(text, "image_height: "@, signed_decimal(m.image_height as int))
    &&& has_line(text, "samples_per_pixel: "@, signed_decimal(m.samples_per_pixel as int))
    &&& has_line(text, "max_depth: "@, signed_decimal(m.max_depth as int))
    &&& (m.scene_seed matches Some(v) ==> has_line(text, "scene_seed: "@, decimal(v as nat)))
    &&& (m.scene_seed is None ==> has_line(text, "scene_seed: "@, "(none)"@))
    &&& has_line(text, "render_duration_ms: "@, decimal(m.render_duration_ms as nat))
    &&& has_line(text, "primary_rays_total: "@, decimal(m.primary_rays_total as nat))
    &&& has_line(text, "primary_rays_accelerated: "@, decimal(m.primary_rays_accelerated as nat))
    &&& has_line(text, "primary_rays_fallback: "@, decimal(m.primary_rays_fallback as nat))
    &&& has_line(text, "scene_spheres_total: "@, decimal(m.scene_spheres_total as nat))
    &&& has_line(text, "scene_spheres_lambertian: "@, decimal(m.scene_spheres_lambertian as nat))
    &&& has_line(text, "scene_spheres_metal: "@, decimal(m.scene_spheres_metal as nat))
    &&& has_line(text, "scene_spheres_dielectric: "@, decimal(m.scene_spheres_dielectric as nat))
    &&& has_line(text, "core_rays_primary: "@, decimal(c.rays_primary as nat))
    &&& has_line(text, "core_scalar_intersection_tests: "@, decimal(c.scalar_intersection_tests as nat))
    &&& has_line(text, "core_scalar_intersection_hits: "@, decimal(c.scalar_intersection_hits as nat))
    &&& has_line(text, "core_scalar_intersection_misses: "@, decimal(c.scalar_intersection_misses as nat))
    &&& has_line(text, "core_simd_intersection_tests: "@, decimal(c.simd_intersection_tests as nat))
    &&& has_line(
        text,
        "core_simd_intersection_hits_lanes: "@,
        decimal(c.simd_intersection_hits_lanes as nat),
    )
    &&& has_line(
        text,
        "core_simd_intersection_misses_lanes: "@,
        decimal(c.simd_intersection_misses_lanes as nat),
    )
    &&& has_line(text, "core_lambertian_calls: "@, decimal(c.lambertian_calls as nat))
    &&& has_line(text, "core_metal_calls: "@, decimal(c.metal_calls as nat))
    &&& has_line(text, "core_dielectric_calls: "@, decimal(c.dielectric_calls as nat))
    &&& has_line(text, "core_dielectric_reflect: "@, decimal(c.dielectric_reflect as nat))
    &&& has_line(text, "core_dielectric_refract: "@, decimal(c.dielectric_refract as nat))
}


/// The six parameter lines of the header carry their fields.
proof fn lemma_header_lines_keys(m: RunMetrics)
    ensures
        at_line_start((line("run_id: "@, m.run_id@) + line("backend: "@, backend_debug_name(m.backend)) + line("image_width: "@, signed_decimal(m.image_width as int)) + line("image_height: "@, signed_decimal(m.image_height as int)) + line("samples_per_pixel: "@, signed_decimal(m.samples_per_pixel as int)) + line("max_depth: "@, signed_decimal(m.max_depth as int)))),
        has_line((line("run_id: "@, m.run_id@) + line("backend: "@, backend_debug_name(m.backend)) + line("image_width: "@, signed_decimal(m.image_width as int)) + line("image_height: "@, signed_decimal(m.image_height as int)) + line("samples_per_pixel: "@, signed_decimal(m.samples_per_pixel as int)) + line("max_depth: "@, signed_decimal(m.max_depth as int))), "run_id: "@, m.run_id@),
        has_line((line("run_id: "@, m.run_id@) + line("backend: "@, backend_debug_name(m.backend)) + line("image_width: "@, signed_decimal(m.image_width as int)) + line("image_height: "@, signed_decimal(m.image_height as int)) + line("samples_per_pixel: "@, signed_decimal(m.samples_per_pixel as int)) + line("max_depth: "@, signed_decimal(m.max_depth as int))), "backend: "@, backend_debug_name(m.backend)),
        has_line((line("run_id: "@, m.run_id@) + line("backend: "@, backend_debug_name(m.backend)) + line("image_width: "@, signed_decimal(m.image_width as int)) + line("image_height: "@, signed_decimal(m.image_height as int)) + line("samples_per_pixel: "@, signed_decimal(m.samples_per_pixel as int)) + line("max_depth: "@, signed_decimal(m.max_depth as int))), "image_width: "@, signed_decimal(m.image_width as int)),
        has_line((line("run_id: "@, m.run_id@) + line("backend: "@, backend_debug_name(m.backend)) + line("image_width: "@, signed_decimal(m.image_width as int)) + line("image_height: "@, signed_decimal(m.image_height as int)) + line("samples_per_pixel: "@, signed_decimal(m.samples_per_pixel as int)) + line("max_depth: "@, signed_decimal(m.max_depth as int))), "image_height: "@, signed_decimal(m.image_height as int)),
        has_line((line("run_id: "@, m.run_id@) + line("backend: "@, backend_debug_name(m.backend)) + line("image_width: "@, signed_decimal(m.image_width as int)) + line("image_height: "@, signed_decimal(m.image_height as int)) + line("samples_per_pixel: "@, signed_decimal(m.samples_per_pixel as int)) + line("max_depth: "@, signed_decimal(m.max_depth as int))), "samples_per_pixel: "@, signed_decimal(m.samples_per_pixel as int)),
        has_line((line("run_id: "@, m.run_id@) + line("backend: "@, backend_debug_name(m.backend)) + line("image_width: "@, signed_decimal(m.image_width as int)) + line("image_height: "@, signed_decimal(m.image_height as int)) + line("samples_per_pixel: "@, signed_decimal(m.samples_per_pixel as int)) + line("max_depth: "@, signed_decimal(m.max_depth as int))), "max_depth: "@, signed_decimal(m.max_depth as int)),
{
    lemma_line_alone("run_id: "@, m.run_id@);
    lemma_line_alone("backend: "@, backend_debug_name(m.backend));
    lemma_line_alone("image_width: "@, signed_decimal(m.image_width as int));
    lemma_line_alone("image_height: "@, signed_decimal(m.image_height as int));
    lemma_line_alone("samples_per_pixel: "@, signed_decimal(m.samples_per_pixel as int));
    lemma_line_alone("max_depth: "@, signed_decimal(m.max_depth as int));
    lemma_lines_join(line("run_id: "@, m.run_id@), line("backend: "@, backend_debug_name(m.backend)));
    lemma_lines_join(line("run_id: "@, m.run_id@) + line("backend: "@, backend_debug_name(m.backend)), line("image_width: "@, signed_decimal(m.image_width as int)));
    lemma_lines_join(line("run_id: "@, m.run_id@) + line("backend: "@, backend_debug_name(m.backend)) + line("image_width: "@, signed_decimal(m.image_width as int)), line("image_height: "@, signed_decimal(m.image_height as int)));
    lemma_lines_join(line("run_id: "@, m.run_id@) + line("backend: "@, backend_debug_name(m.backend)) + line("image_width: "@, signed_decimal(m.image_width as int)) + line("image_height: "@, signed_decimal(m.image_height as int)), line("samples_per_pixel: "@, signed_decimal(m.samples_per_pixel as int)));
    lemma_lines_join(line("run_id: "@, m.run_id@) + line("backend: "@, backend_debug_name(m.backend)) + line("image_width: "@, signed_decimal(m.image_width as int)) + line("image_height: "@, signed_decimal(m.image_height as int)) + line("samples_per_pixel: "@, signed_decimal(m.samples_per_pixel as int)), line("max_depth: "@, signed_decimal(m.max_depth as int)));
}


/// The seed line carries the seed, or `(none)`.
proof fn lemma_seed_line_key(seed: Option<u64>)
    ensures
        at_line_start(seed_line(seed)),
        seed matches Some(v) ==> has_line(seed_line(seed), "scene_seed: "@, decimal(v as nat)),
        seed is None ==> has_line(seed_line(seed), "scene_seed: "@, "(none)"@),
{
    match seed {
        Some(v) => {
            lemma_line_alone("scene_seed: "@, decimal(v as nat));
        },
        None => {
            reveal_strlit("scene_seed: (none)\n");
            reveal_strlit("scene_seed: ");
            reveal_strlit("(none)");
            assert("scene_seed: (none)\n"@ =~= line("scene_seed: "@, "(none)"@));
            lemma_line_alone("scene_seed: "@, "(none)"@);
        },
    }
}


/// The timing section carries the render time.
proof fn lemma_timing_keys(m: RunMetrics)
    ensures
        at_line_start(timing_text(m)),
        has_line(timing_text(m), "render_duration_ms: "@, decimal(m.render_duration_ms as nat)),
{
    lemma_line_alone("render_duration_ms: "@, decimal(m.render_duration_ms as nat));
    reveal_strlit("[timing]\n");
    assert(at_line_start("[timing]\n"@));
    lemma_lines_join("[timing]\n"@, line("render_duration_ms: "@, decimal(m.render_duration_ms as nat)));
}


/// The NEON section carries each NEON counter.
proof fn lemma_neon_keys(m: RunMetrics)
    ensures
        at_line_start(neon_text(m)),
        has_line(neon_text(m), "primary_rays_total: "@, decimal(m.primary_rays_total as nat)),
        has_line(neon_text(m), "primary_rays_accelerated: "@, decimal(m.primary_rays_accelerated as nat)),
        has_line(neon_text(m), "primary_rays_fallback: "@, decimal(m.primary_rays_fallback as nat)),
{
    lemma_line_alone("primary_rays_total: "@, decimal(m.primary_rays_total as nat));
    lemma_line_alone("primary_rays_accelerated: "@, decimal(m.primary_rays_accelerated as nat));
    lemma_line_alone("primary_rays_fallback: "@, decimal(m.primary_rays_fallback as nat));
    reveal_strlit("[neon_stats]\n");
    assert(at_line_start("[neon_stats]\n"@));
    lemma_lines_join("[neon_stats]\n"@, line("primary_rays_total: "@, decimal(m.primary_rays_total as nat)));
    lemma_lines_join("[neon_stats]\n"@ + line("primary_rays_total: "@, decimal(m.primary_rays_total as nat)), line("primary_rays_accelerated: "@, decimal(m.primary_rays_accelerated as nat)));
    lemma_lines_join("[neon_stats]\n"@ + line("primary_rays_total: "@, decimal(m.primary_rays_total as nat)) + line("primary_rays_accelerated: "@, decimal(m.primary_rays_accelerated as nat)), line("primary_rays_fallback: "@, decimal(m.primary_rays_fallback as nat)));
}


/// The scene section carries each sphere count.
proof fn lemma_scene_keys(m: RunMetrics)
    ensures
        at_line_start(scene_text(m)),
        has_line(scene_text(m), "scene_spheres_total: "@, decimal(m.scene_spheres_total as nat)),
        has_line(scene_text(m), "scene_spheres_lambertian: "@, decimal(m.scene_spheres_lambertian as nat)),
        has_line(scene_text(m), "scene_spheres_metal: "@, decimal(m.scene_spheres_metal as nat)),
        has_line(scene_text(m), "scene_spheres_dielectric: "@, decimal(m.scene_spheres_dielectric as nat)),
{
    lemma_line_alone("scene_spheres_total: "@, decimal(m.scene_spheres_total as nat));
    lemma_line_alone("scene_spheres_lambertian: "@, decimal(m.scene_spheres_lambertian as nat));
    lemma_line_alone("scene_spheres_metal: "@, decimal(m.scene_spheres_metal as nat));
    lemma_line_alone("scene_spheres_dielectric: "@, decimal(m.scene_spheres_dielectric as nat));
    reveal_strlit("[scene_spheres]\n");
    assert(at_line_start("[scene_spheres]\n"@));
    lemma_lines_join("[scene_spheres]\n"@, line("scene_spheres_total: "@, decimal(m.scene_spheres_total as nat)));
    lemma_lines_join("[scene_spheres]\n"@ + line("scene_spheres_total: "@, decimal(m.scene_spheres_total as nat)), line("scene_spheres_lambertian: "@, decimal(m.scene_spheres_lambertian as nat)));
    lemma_lines_join("[scene_spheres]\n"@ + line("scene_spheres_total: "@, decimal(m.scene_spheres_total as nat)) + line("scene_spheres_lambertian: "@, decimal(m.scene_spheres_lambertian as nat)), line("scene_spheres_metal: "@, decimal(m.scene_spheres_metal as nat)));
    lemma_lines_join("[scene_spheres]\n"@ + line("scene_spheres_total: "@, decimal(m.scene_spheres_total as nat)) + line("scene_spheres_lambertian: "@, decimal(m.scene_spheres_lambertian as nat)) + line("scene_spheres_metal: "@, decimal(m.scene_spheres_metal as nat)), line("scene_spheres_dielectric: "@, decimal(m.scene_spheres_dielectric as nat)));
}


/// The intersection counters carry their values.
proof fn lemma_core_intersection_keys(c: CoreStats)
    ensures
        at_line_start(core_intersection_text(c)),
        has_line(core_intersection_text(c), "core_rays_primary: "@, decimal(c.rays_primary as nat)),
        has_line(core_intersection_text(c), "core_scalar_intersection_tests: "@, decimal(c.scalar_intersection_tests as nat)),
        has_line(core_intersection_text(c), "core_scalar_intersection_hits: "@, decimal(c.scalar_intersection_hits as nat)),
        has_line(core_intersection_text(c), "core_scalar_intersection_misses: "@, decimal(c.scalar_intersection_misses as nat)),
        has_line(core_intersection_text(c), "core_simd_intersection_tests: "@, decimal(c.simd_intersection_tests as nat)),
        has_line(core_intersection_text(c), "core_simd_intersection_hits_lanes: "@, decimal(c.simd_intersection_hits_lanes as nat)),
        has_line(core_intersection_text(c), "core_simd_intersection_misses_lanes: "@, decimal(c.simd_intersection_misses_lanes as nat)),
{
    lemma_line_alone("core_rays_primary: "@, decimal(c.rays_primary as nat));
    lemma_line_alone("core_scalar_intersection_tests: "@, decimal(c.scalar_intersection_tests as nat));
    lemma_line_alone("core_scalar_intersection_hits: "@, decimal(c.scalar_intersection_hits as nat));
    lemma_line_alone("core_scalar_intersection_misses: "@, decimal(c.scalar_intersection_misses as nat));
    lemma_line_alone("core_simd_intersection_tests: "@, decimal(c.simd_intersection_tests as nat));
    lemma_line_alone("core_simd_intersection_hits_lanes: "@, decimal(c.simd_intersection_hits_lanes as nat));
    lemma_line_alone("core_simd_intersection_misses_lanes: "@, decimal(c.simd_intersection_misses_lanes as nat));
    lemma_lines_join(line("core_rays_primary: "@, decimal(c.rays_primary as nat)), line("core_scalar_intersection_tests: "@, decimal(c.scalar_intersection_tests as nat)));
    lemma_lines_join(line("core_rays_primary: "@, decimal(c.rays_primary as nat)) + line("core_scalar_intersection_tests: "@, decimal(c.scalar_intersection_tests as nat)), line("core_scalar_intersection_hits: "@, decimal(c.scalar_intersection_hits as nat)));
    lemma_lines_join(line("core_rays_primary: "@, decimal(c.rays_primary as nat)) + line("core_scalar_intersection_tests: "@, decimal(c.scalar_intersection_tests as nat)) + line("core_scalar_intersection_hits: "@, decimal(c.scalar_intersection_hits as nat)), line("core_scalar_intersection_misses: "@, decimal(c.scalar_intersection_misses as nat)));
    lemma_lines_join(line("core_rays_primary: "@, decimal(c.rays_primary as nat)) + line("core_scalar_intersection_tests: "@, decimal(c.scalar_intersection_tests as nat)) + line("core_scalar_intersection_hits: "@, decimal(c.scalar_intersection_hits as nat)) + line("core_scalar_intersection_misses: "@, decimal(c.scalar_intersection_misses as nat)), line("core_simd_intersection_tests: "@, decimal(c.simd_intersection_tests as nat)));
    lemma_lines_join(line("core_rays_primary: "@, decimal(c.rays_primary as nat)) + line("core_scalar_intersection_tests: "@, decimal(c.scalar_intersection_tests as nat)) + line("core_scalar_intersection_hits: "@, decimal(c.scalar_intersection_hits as nat)) + line("core_scalar_intersection_misses: "@, decimal(c.scalar_intersection_misses as nat)) + line("core_simd_intersection_tests: "@, decimal(c.simd_intersection_tests as nat)), line("core_simd_intersection_hits_lanes: "@, decimal(c.simd_intersection_hits_lanes as nat)));
    lemma_lines_join(line("core_rays_primary: "@, decimal(c.rays_primary as nat)) + line("core_scalar_intersection_tests: "@, decimal(c.scalar_intersection_tests as nat)) + line("core_scalar_intersection_hits: "@, decimal(c.scalar_intersection_hits as nat)) + line("core_scalar_intersection_misses: "@, decimal(c.scalar_intersection_misses as nat)) + line("core_simd_intersection_tests: "@, decimal(c.simd_intersection_tests as nat)) + line("core_simd_intersection_hits_lanes: "@, decimal(c.simd_intersection_hits_lanes as nat)), line("core_simd_intersection_misses_lanes: "@, decimal(c.simd_intersection_misses_lanes as nat)));
}


/// The material counters carry their values.
proof fn lemma_core_material_keys(c: CoreStats)
    ensures
        at_line_start(core_material_text(c)),
        has_line(core_material_text(c), "core_lambertian_calls: "@, decimal(c.lambertian_calls as nat)),
        has_line(core_material_text(c), "core_metal_calls: "@, decimal(c.metal_calls as nat)),
        has_line(core_material_text(c), "core_dielectric_calls: "@, decimal(c.dielectric_calls as nat)),
        has_line(core_material_text(c), "core_dielectric_reflect: "@, decimal(c.dielectric_reflect as nat)),
        has_line(core_material_text(c), "core_dielectric_refract: "@, decimal(c.dielectric_refract as nat)),
{
    lemma_line_alone("core_lambertian_calls: "@, decimal(c.lambertian_calls as nat));
    lemma_line_alone("core_metal_calls: "@, decimal(c.metal_calls as nat));
    lemma_line_alone("core_dielectric_calls: "@, decimal(c.dielectric_calls as nat));
    lemma_line_alone("core_dielectric_reflect: "@, decimal(c.dielectric_reflect as nat));
    lemma_line_alone("core_dielectric_refract: "@, decimal(c.dielectric_refract as nat));
    lemma_lines_join(line("core_lambertian_calls: "@, decimal(c.lambertian_calls as nat)), line("core_metal_calls: "@, decimal(c.metal_calls as nat)));
    lemma_lines_join(line("core_lambertian_calls: "@, decimal(c.lambertian_calls as nat)) + line("core_metal_calls: "@, decimal(c.metal_calls as nat)), line("core_dielectric_calls: "@, decimal(c.dielectric_calls as nat)));
    lemma_lines_join(line("core_lambertian_calls: "@, decimal(c.lambertian_calls as nat)) + line("core_metal_calls: "@, decimal(c.metal_calls as nat)) + line("core_dielectric_calls: "@, decimal(c.dielectric_calls as nat)), line("core_dielectric_reflect: "@, decimal(c.dielectric_reflect as nat)));
    lemma_lines_join(line("core_lambertian_calls: "@, decimal(c.lambertian_calls as nat)) + line("core_metal_calls: "@, decimal(c.metal_calls as nat)) + line("core_dielectric_calls: "@, decimal(c.dielectric_calls as nat)) + line("core_dielectric_reflect: "@, decimal(c.dielectric_reflect as nat)), line("core_dielectric_refract: "@, decimal(c.dielectric_refract as nat)));
}


/// The header carries the run id, backend, sizes, parameters and seed.
proof fn lemma_header_keys(m: RunMetrics)
    ensures
        at_line_start(header_text(m)),
        has_line(header_text(m), "run_id: "@, m.run_id@),
        has_line(header_text(m), "backend: "@, backend_debug_name(m.backend)),
        has_line(header_text(m), "image_width: "@, signed_decimal(m.image_width as int)),
        has_line(header_text(m), "image_height: "@, signed_decimal(m.image_height as int)),
        has_line(header_text(m), "samples_per_pixel: "@, signed_decimal(m.samples_per_pixel as int)),
        has_line(header_text(m), "max_depth: "@, signed_decimal(m.max_depth as int)),
        m.scene_seed matches Some(v) ==> has_line(header_text(m), "scene_seed: "@, decimal(v as nat)),
        m.scene_seed is None ==> has_line(header_text(m), "scene_seed: "@, "(none)"@),
{
    lemma_header_lines_keys(m);
    lemma_seed_line_key(m.scene_seed);
    lemma_lines_join((line("run_id: "@, m.run_id@) + line("backend: "@, backend_debug_name(m.backend)) + line("image_width: "@, signed_decimal(m.image_width as int)) + line("image_height: "@, signed_decimal(m.image_height as int)) + line("samples_per_pixel: "@, signed_decimal(m.samples_per_pixel as int)) + line("max_depth: "@, signed_decimal(m.max_depth as int))), seed_line(m.scene_seed));
}


/// The core section carries every logical counter.
proof fn lemma_core_keys(c: CoreStats)
    ensures
        at_line_start(core_text(c)),
        has_line(core_text(c), "core_rays_primary: "@, decimal(c.rays_primary as nat)),
        has_line(core_text(c), "core_scalar_intersection_tests: "@, decimal(c.scalar_intersection_tests as nat)),
        has_line(core_text(c), "core_scalar_intersection_hits: "@, decimal(c.scalar_intersection_hits as nat)),
        has_line(core_text(c), "core_scalar_intersection_misses: "@, decimal(c.scalar_intersection_misses as nat)),
        has_line(core_text(c), "core_simd_intersection_tests: "@, decimal(c.simd_intersection_tests as nat)),
        has_line(core_text(c), "core_simd_intersection_hits_lanes: "@, decimal(c.simd_intersection_hits_lanes as nat)),
        has_line(core_text(c), "core_simd_intersection_misses_lanes: "@, decimal(c.simd_intersection_misses_lanes as nat)),
        has_line(core_text(c), "core_lambertian_calls: "@, decimal(c.lambertian_calls as nat)),
        has_line(core_text(c), "core_metal_calls: "@, decimal(c.metal_calls as nat)),
        has_line(core_text(c), "core_dielectric_calls: "@, decimal(c.dielectric_calls as nat)),
        has_line(core_text(c), "core_dielectric_reflect: "@, decimal(c.dielectric_reflect as nat)),
        has_line(core_text(c), "core_dielectric_refract: "@, decimal(c.dielectric_refract as nat)),
{
    lemma_core_intersection_keys(c);
    lemma_core_material_keys(c);
    reveal_strlit("[core_stats]\n");
    assert(at_line_start("[core_stats]\n"@));
    lemma_lines_join("[core_stats]\n"@, core_intersection_text(c));
    lemma_lines_join("[core_stats]\n"@ + core_intersection_text(c), core_material_text(c));
}


/// The metrics file of a run gives every key the field of the same name.
pub proof fn lemma_metrics_text_keys(m: RunMetrics)
    ensures
        each_key_carries_its_field(metrics_text(m), m),
{
    lemma_header_keys(m);
    lemma_timing_keys(m);
    lemma_neon_keys(m);
    lemma_scene_keys(m);
    lemma_core_keys(m.core_stats);
    assert(at_line_start(seq!['\n']));
    lemma_lines_join(header_text(m), seq!['\n']);
    lemma_lines_join(header_text(m) + seq!['\n'], timing_text(m));
    lemma_lines_join(header_text(m) + seq!['\n'] + timing_text(m), seq!['\n']);
    lemma_lines_join(header_text(m) + seq!['\n'] + timing_text(m) + seq!['\n'], neon_text(m));
    lemma_lines_join(header_text(m) + seq!['\n'] + timing_text(m) + seq!['\n'] + neon_text(m), seq!['\n']);
    lemma_lines_join(header_text(m) + seq!['\n'] + timing_text(m) + seq!['\n'] + neon_text(m) + seq!['\n'], scene_text(m));
    lemma_lines_join(header_text(m) + seq!['\n'] + timing_text(m) + seq!['\n'] + neon_text(m) + seq!['\n'] + scene_text(m), seq!['\n']);
    lemma_lines_join(header_text(m) + seq!['\n'] + timing_text(m) + seq!['\n'] + neon_text(m) + seq!['\n'] + scene_text(m) + seq!['\n'], core_text(m.core_stats));
}

/// Appends `key`, the decimal `value` and a newline.
fn push_line(s: &mut String, key: &str, value: u128)
    ensures
        final(s)@ == old(s)@ + line(key@, decimal(value as nat)),
{
    s.append(key);
    push_decimal(s, value);
    s.push('\n');
    assert(final(s)@ =~= old(s)@ + line(key@, decimal(value as nat)));
}

/// Appends `key`, the signed decimal `value` and a newline.
fn push_signed_line(s: &mut String, key: &str, value: i32)
    ensures
        final(s)@ == old(s)@ + line(key@, signed_decimal(value as int)),
{
    s.append(key);
    push_signed_decimal(s, value as i128);
    s.push('\n');
    assert(final(s)@ =~= old(s)@ + line(key@, signed_decimal(value as int)));
}

fn push_header(s: &mut String, m: &RunMetrics)
    ensures
        final(s)@ == old(s)@ + header_text(*m),
{
    s.append("run_id: ");
    s.append(m.run_id.as_str());
    s.push('\n');
    s.append("backend: ");
    s.append(backend_name(m.backend));
    s.push('\n');
    push_signed_line(s, "image_width: ", m.image_width);
    push_signed_line(s, "image_height: ", m.image_height);
    push_signed_line(s, "samples_per_pixel: ", m.samples_per_pixel);
    push_signed_line(s, "max_depth: ", m.max_depth);
    match m.scene_seed {
        Some(seed) => push_line(s, "scene_seed: ", seed as u128),
        None => s.append("scene_seed: (none)\n"),
    }
    assert(final(s)@ =~= old(s)@ + header_text(*m));
}

fn push_sections(s: &mut String, m: &RunMetrics)
    ensures
        final(s)@ == old(s)@ + timing_text(*m) + seq!['\n'] + neon_text(*m) + seq!['\n']
            + scene_text(*m),
{
    s.append("[timing]\n");
    push_line(s, "render_duration_ms: ", m.render_duration_ms);
    s.push('\n');
    s.append("[neon_stats]\n");
    push_line(s, "primary_rays_total: ", m.primary_rays_total as u128);
    push_line(s, "primary_rays_accelerated: ", m.primary_rays_accelerated as u128);
    push_line(s, "primary_rays_fallback: ", m.primary_rays_fallback as u128);
    s.push('\n');
    s.append("[scene_spheres]\n");
    push_line(s, "scene_spheres_total: ", m.scene_spheres_total as u128);
    push_line(s, "scene_spheres_lambertian: ", m.scene_spheres_lambertian as u128);
    push_line(s, "scene_spheres_metal: ", m.scene_spheres_metal as u128);
    push_line(s, "scene_spheres_dielectric: ", m.scene_spheres_dielectric as u128);
    assert(final(s)@ =~= old(s)@ + timing_text(*m) + seq!['\n'] + neon_text(*m) + seq!['\n']
        + scene_text(*m));
}

fn push_core(s: &mut String, c: &CoreStats)
    ensures
        final(s)@ == old(s)@ + core_text(*c),
{
    s.append("[core_stats]\n");
    push_line(s, "core_rays_primary: ", c.rays_primary as u128);
    push_line(s, "core_scalar_intersection_tests: ", c.scalar_intersection_tests as u128);
    push_line(s, "core_scalar_intersection_hits: ", c.scalar_intersection_hits as u128);
    push_line(s, "core_scalar_intersection_misses: ", c.scalar_intersection_misses as u128);
    push_line(s, "core_simd_intersection_tests: ", c.simd_intersection_tests as u128);
    push_line(s, "core_simd_intersection_hits_lanes: ", c.simd_intersection_hits_lanes as u128);
    push_line(s, "core_simd_intersection_misses_lanes: ", c.simd_intersection_misses_lanes as u128);
    let ghost mid = s@;
    push_line(s, "core_lambertian_calls: ", c.lambertian_calls as u128);
    push_line(s, "core_metal_calls: ", c.metal_calls as u128);
    push_line(s, "core_dielectric_calls: ", c.dielectric_calls as u128);
    push_line(s, "core_dielectric_reflect: ", c.dielectric_reflect as u128);
    push_line(s, "core_dielectric_refract: ", c.dielectric_refract as u128);
    assert(mid =~= old(s)@ + "[core_stats]\n"@ + core_intersection_text(*c));
    assert(final(s)@ =~= mid + core_material_text(*c));
    assert(final(s)@ =~= old(s)@ + core_text(*c));
}

/// The text of the metrics file of a run.
pub fn format_metrics(metrics: &RunMetrics) -> (r: String)
    ensures
        r@ == metrics_text(*metrics),
        each_key_carries_its_field(r@, *metrics),
{
    proof {
        lemma_metrics_text_keys(*metrics);
    }
    let mut s = String::new();
    push_header(&mut s, metrics);
    s.push('\n');
    push_sections(&mut s, metrics);
    s.push('\n');
    push_core(&mut s, &metrics.core_stats);
    assert(s@ =~= metrics_text(*metrics));
    s
}

} // verus!
