use raytracer::simd::neon::{Ray4, Vec3x4};

/// Four `f32` lanes with lane-wise arithmetic, standing for one SIMD register.
#[derive(Clone, Copy, Debug, PartialEq)]
struct Lanes([f32; 4]);

impl std::ops::Add for Lanes {
    type Output = Lanes;
    fn add(self, o: Lanes) -> Lanes {
        Lanes([self.0[0] + o.0[0], self.0[1] + o.0[1], self.0[2] + o.0[2], self.0[3] + o.0[3]])
    }
}

impl std::ops::Sub for Lanes {
    type Output = Lanes;
    fn sub(self, o: Lanes) -> Lanes {
        Lanes([self.0[0] - o.0[0], self.0[1] - o.0[1], self.0[2] - o.0[2], self.0[3] - o.0[3]])
    }
}

impl std::ops::Mul for Lanes {
    type Output = Lanes;
    fn mul(self, o: Lanes) -> Lanes {
        Lanes([self.0[0] * o.0[0], self.0[1] * o.0[1], self.0[2] * o.0[2], self.0[3] * o.0[3]])
    }
}

fn approx_eq(a: f32, b: f32, eps: f32) -> bool {
    (a - b).abs() <= eps
}

#[test]
fn neon_vec3x4_dot_matches_scalar() {
    let v = [[1.0f32, 2.0, 3.0], [-1.0, 0.5, 4.0], [0.0, 1.0, 0.0], [2.0, -1.0, 0.5]];
    let w = [[0.5f32, -1.0, 2.0], [1.0, 1.0, 1.0], [3.0, 0.0, -1.0], [-2.0, 4.0, 0.0]];
    let mut expected = [0.0f32; 4];
    for i in 0..4 {
        expected[i] = v[i][0] * w[i][0] + v[i][1] * w[i][1] + v[i][2] * w[i][2];
    }
    let vv = Vec3x4::new(
        Lanes([v[0][0], v[1][0], v[2][0], v[3][0]]),
        Lanes([v[0][1], v[1][1], v[2][1], v[3][1]]),
        Lanes([v[0][2], v[1][2], v[2][2], v[3][2]]),
    );
    let ww = Vec3x4::new(
        Lanes([w[0][0], w[1][0], w[2][0], w[3][0]]),
        Lanes([w[0][1], w[1][1], w[2][1], w[3][1]]),
        Lanes([w[0][2], w[1][2], w[2][2], w[3][2]]),
    );
    let dots = vv.dot(ww).0;
    for i in 0..4 {
        assert!(
            approx_eq(expected[i], dots[i], 1e-5),
            "lane {}: expected {}, got {}",
            i,
            expected[i],
            dots[i]
        );
    }
}

#[test]
fn neon_camera_geometry_block_matches_scalar() {
    // sample = p00 + u * du + v * dv, per lane.
    let p00 = [1.0_f32, 2.0, 3.0];
    let du = [0.5_f32, 0.0, -0.5];
    let dv = [0.0_f32, 1.0, 0.25];
    let u = [0.0_f32, 1.0, 2.0, 3.0];
    let v = [0.0_f32, 0.5, 1.0, 1.5];
    let splat = |x: f32| Lanes([x; 4]);
    let base = Vec3x4::new(splat(p00[0]), splat(p00[1]), splat(p00[2]));
    let du4 = Vec3x4::new(splat(du[0]), splat(du[1]), splat(du[2]));
    let dv4 = Vec3x4::new(splat(dv[0]), splat(dv[1]), splat(dv[2]));
    let sample = base.add(du4.mul_scalar(Lanes(u))).add(dv4.mul_scalar(Lanes(v)));
    for lane in 0..4 {
        let s = [
            p00[0] + u[lane] * du[0] + v[lane] * dv[0],
            p00[1] + u[lane] * du[1] + v[lane] * dv[1],
            p00[2] + u[lane] * du[2] + v[lane] * dv[2],
        ];
        assert!(
            approx_eq(s[0], sample.x.0[lane], 1e-5)
                && approx_eq(s[1], sample.y.0[lane], 1e-5)
                && approx_eq(s[2], sample.z.0[lane], 1e-5),
            "Mismatch at lane {}",
            lane
        );
    }
}

#[test]
fn vec3x4_integer_lanes_are_exact() {
    let a = Vec3x4::new(1i64, 2, 3);
    let b = Vec3x4::new(4i64, -5, 6);
    let s = a.add(b);
    assert_eq!((s.x, s.y, s.z), (5, -3, 9));
    let d = a.sub(b);
    assert_eq!((d.x, d.y, d.z), (-3, 7, -3));
    let m = a.mul_scalar(3);
    assert_eq!((m.x, m.y, m.z), (3, 6, 9));
    assert_eq!(a.dot(b), 4 - 10 + 18);
    let r = Ray4 { orig: a, dir: b };
    assert_eq!(r.dir.dot(r.orig), 12);
}
