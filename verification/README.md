# raytracer

A CPU ray tracer (scalar and 4-lane SIMD backends) whose bookkeeping and
output formats are verified with Verus.

- `src/` — the verified library:
  - `text`: decimal rendering of integers, proved against its spec;
  - `image::output`: the ASCII PPM (`P3`) format;
  - `metrics`: the logical counters (`CoreStats`), run metrics and the text
    of the metrics file (`runlog`);
  - `render`: backend kinds, NEON counters, 4-pixel block masks, framebuffer
    indices and the plan for shading a primary ray from a SIMD hit hint;
  - `run`: run identifiers, output file names, the census of spheres by
    material;
  - `simd::neon`: lane-generic `Vec3x4` / `Ray4`;
  - `scene`: scene kinds.
- `app/` — the program: floating-point geometry, materials, camera,
  rendering loops, scene construction, configuration and file I/O.
- `tests/` — tests of the library.
