use raytracer::image::output::{color_line, encode_ppm, ppm_header};
use raytracer::text::{decimal_string, push_decimal, push_signed_decimal};

#[test]
fn decimal_string_prints_like_display() {
    for n in [0u128, 7, 10, 99, 100, 4919, u64::MAX as u128, u128::MAX] {
        assert_eq!(decimal_string(n), n.to_string());
    }
    let mut s = String::from("x=");
    push_signed_decimal(&mut s, -42);
    push_decimal(&mut s, 0);
    assert_eq!(s, "x=-420");
}

#[test]
fn color_line_writes_r_g_b() {
    assert_eq!(color_line((0, 128, 255)), "0 128 255\n");
    assert_eq!(color_line((7, 0, 10)), "7 0 10\n");
}

#[test]
fn ppm_header_has_size_and_max_value() {
    assert_eq!(ppm_header(400, 224), "P3\n400 224\n255\n");
    assert_eq!(ppm_header(-1, 0), "P3\n-1 0\n255\n");
}

#[test]
fn encode_ppm_writes_pixels_row_major() {
    let pixels = [(1, 2, 3), (4, 5, 6), (7, 8, 9), (10, 11, 12), (99, 99, 99)];
    let text = encode_ppm(2, 2, &pixels);
    assert_eq!(text, "P3\n2 2\n255\n1 2 3\n4 5 6\n7 8 9\n10 11 12\n");
    assert_eq!(encode_ppm(0, 3, &pixels), "P3\n0 3\n255\n");
    assert_eq!(encode_ppm(3, -1, &[]), "P3\n3 -1\n255\n");
}
