//! The ASCII PPM (`P3`) image format: a header with the size and the
//! maximum channel value, then one `R G B` line per pixel, scanline by
//! scanline, left to right.

use vstd::prelude::*;
use crate::text::{decimal, signed_decimal, push_decimal, push_signed_decimal};
use crate::metrics::runlog::{has_line, line, lemma_line_alone, lemma_line_in_concat};

verus! {

/// The line `"R G B\n"` of one quantised pixel.
pub open spec fn color_line_text(p: (u8, u8, u8)) -> Seq<char> {
    decimal(p.0 as nat) + seq![' '] + decimal(p.1 as nat) + seq![' '] + decimal(p.2 as nat) + seq![
        '\n',
    ]
}

/// The PPM header: `"P3\n"`, then `"W H\n"`, then `"255\n"`.
pub open spec fn ppm_header_text(width: int, height: int) -> Seq<char> {
    "P3\n"@ + signed_decimal(width) + seq![' '] + signed_decimal(height) + seq!['\n'] + "255\n"@
}

/// The pixel lines of `pixels`, in order.
pub open spec fn ppm_body_text(pixels: Seq<(u8, u8, u8)>) -> Seq<char>
    decreases pixels.len(),
{
    if pixels.len() == 0 {
        Seq::empty()
    } else {
        ppm_body_text(pixels.drop_last()) + color_line_text(pixels.last())
    }
}

/// Number of pixels written for a `width` x `height` image: none when a
/// dimension is not positive (the scanline loops are empty).
pub open spec fn pixel_count(width: int, height: int) -> int {
    if width > 0 && height > 0 {
        width * height
    } else {
        0
    }
}

/// The whole PPM file for a `width` x `height` image whose quantised pixels
/// are, row-major, the first `width * height` entries of `pixels`.
pub open spec fn ppm_text(width: int, height: int, pixels: Seq<(u8, u8, u8)>) -> Seq<char> {
    ppm_header_text(width, height) + ppm_body_text(pixels.take(pixel_count(width, height)))
}

/// The pixel lines are the lines of the pixels, one per pixel, in order:
/// pixel `k` gives the `k`-th line.
pub proof fn lemma_body_is_one_line_per_pixel(pixels: Seq<(u8, u8, u8)>)
    ensures
        ppm_body_text(pixels) == pixels.map_values(|p: (u8, u8, u8)| color_line_text(p)).flatten(),
    decreases pixels.len(),
{
    let f = |p: (u8, u8, u8)| color_line_text(p);
    if pixels.len() > 0 {
        lemma_body_is_one_line_per_pixel(pixels.drop_last());
        assert(pixels.map_values(f) =~= pixels.drop_last().map_values(f).push(f(pixels.last())));
        pixels.drop_last().map_values(f).lemma_flatten_push(f(pixels.last()));
    } else {
        assert(pixels.map_values(f) =~= Seq::<Seq<char>>::empty());
    }
}

/// Appends the line `"R G B\n"` of `p` to `s`.
pub fn push_color_line(s: &mut String, p: (u8, u8, u8))
    ensures
        final(s)@ == old(s)@ + color_line_text(p),
{
    push_decimal(s, p.0 as u128);
    s.push(' ');
    push_decimal(s, p.1 as u128);
    s.push(' ');
    push_decimal(s, p.2 as u128);
    s.push('\n');
    assert(final(s)@ =~= old(s)@ + color_line_text(p));
}

/// The line `"R G B\n"` of one quantised pixel.
pub fn color_line(p: (u8, u8, u8)) -> (r: String)
    ensures
        r@ == color_line_text(p),
{
    let mut s = String::new();
    push_color_line(&mut s, p);
    assert(s@ =~= color_line_text(p));
    s
}

/// The size line of the header holds the width, a space and the height, in
/// that order, as a whole line.
pub proof fn lemma_header_size_line(width: int, height: int)
    ensures
        has_line(ppm_header_text(width, height), signed_decimal(width) + seq![' '], signed_decimal(
            height,
        )),
{
    let k = signed_decimal(width) + seq![' '];
    let v = signed_decimal(height);
    reveal_strlit("P3\n");
    let p = "P3\n"@;
    assert(p.last() == '\n');
    lemma_line_alone(k, v);
    lemma_line_in_concat(p, line(k, v), k, v);
    lemma_line_in_concat(p + line(k, v), "255\n"@, k, v);
    assert(ppm_header_text(width, height) =~= p + line(k, v) + "255\n"@);
}

/// The PPM header of a `width` x `height` image.
pub fn ppm_header(width: i32, height: i32) -> (r: String)
    ensures
        r@ == ppm_header_text(width as int, height as int),
        has_line(r@, signed_decimal(width as int) + seq![' '], signed_decimal(height as int)),
{
    proof {
        lemma_header_size_line(width as int, height as int);
    }
    let mut s = String::new();
    s.append("P3\n");
    push_signed_decimal(&mut s, width as i128);
    s.push(' ');
    push_signed_decimal(&mut s, height as i128);
    s.push('\n');
    s.append("255\n");
    assert(s@ =~= ppm_header_text(width as int, height as int));
    s
}

/// The PPM file of a `width` x `height` image, from its pixels already
/// quantised to bytes, in row-major order (index `j * width + i`).
pub fn encode_ppm(width: i32, height: i32, pixels: &[(u8, u8, u8)]) -> (r: String)
    requires
        pixel_count(width as int, height as int) <= pixels@.len(),
        pixel_count(width as int, height as int) <= i32::MAX + 1,
    ensures
        r@ == ppm_text(width as int, height as int, pixels@),
        width > 0 && height > 0 ==> r@ == ppm_header_text(width as int, height as int)
            + pixels@.take(width as int * height as int).map_values(
            |p: (u8, u8, u8)| color_line_text(p),
        ).flatten(),
        !(width > 0 && height > 0) ==> r@ == ppm_header_text(width as int, height as int),
{
    proof {
        lemma_body_is_one_line_per_pixel(pixels@.take(pixel_count(width as int, height as int)));
        assert(pixels@.take(0) =~= Seq::<(u8, u8, u8)>::empty());
    }
    let mut s = ppm_header(width, height);
    let n: usize = if width > 0 && height > 0 {
        assert(0 < width as int * height as int) by (nonlinear_arith)
            requires
                width > 0,
                height > 0,
        ;
        (width as usize) * (height as usize)
    } else {
        0
    };
    assert(n == pixel_count(width as int, height as int));
    let mut k: usize = 0;
    while k < n
        invariant
            k <= n,
            n == pixel_count(width as int, height as int),
            n <= pixels@.len(),
            s@ == ppm_header_text(width as int, height as int) + ppm_body_text(pixels@.take(k as int)),
        decreases n - k,
    {
        let p = pixels[k];
        let ghost before = s@;
        push_color_line(&mut s, p);
        assert(pixels@.take(k + 1).drop_last() =~= pixels@.take(k as int));
        assert(pixels@.take(k + 1).last() == p);
        assert(s@ =~= ppm_header_text(width as int, height as int) + ppm_body_text(
            pixels@.take(k + 1),
        ));
        k = k + 1;
    }
    s
}

} // verus!
