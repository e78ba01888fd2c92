//! Pixel formats of the platforms.

use vstd::prelude::*;

verus! {

/// The number of bytes of the whole pixels of an image.
pub open spec fn whole_pixels(len: int) -> int {
    len / 4 * 4
}

/// An image in BGRA order.
pub open spec fn in_bgra(rgba: Seq<u8>) -> Seq<u8> {
    Seq::new(
        whole_pixels(rgba.len() as int) as nat,
        |i: int|
            if i % 4 == 0 {
                rgba[i + 2]
            } else if i % 4 == 2 {
                rgba[i - 2]
            } else {
                rgba[i]
            },
    )
}

/// A color scaled by its alpha.
pub open spec fn scaled(value: u8, alpha: u8) -> u8 {
    (value as int * alpha as int / 255) as u8
}

/// An image in BGRA order, with colors scaled by their alpha.
pub open spec fn in_premultiplied_bgra(rgba: Seq<u8>) -> Seq<u8> {
    Seq::new(
        whole_pixels(rgba.len() as int) as nat,
        |i: int|
            if i % 4 == 0 {
                scaled(rgba[i + 2], rgba[i + 3])
            } else if i % 4 == 1 {
                scaled(rgba[i], rgba[i + 2])
            } else if i % 4 == 2 {
                scaled(rgba[i - 2], rgba[i + 1])
            } else {
                rgba[i]
            },
    )
}

/// Convert straight RGBA to BGRA (X11 ZPixmap / Windows DIB). An incomplete pixel at
/// the end is dropped.
#[must_use]
pub fn rgba_to_bgra(rgba: &[u8]) -> (bgra: Vec<u8>)
    ensures
        bgra@ == in_bgra(rgba@),
{
    let mut out: Vec<u8> = Vec::new();
    let size: usize = rgba.len();
    let count: usize = size / 4;
    for i in 0..count
        invariant
            size == rgba@.len(),
            count == size / 4,
            out@.len() == i * 4,
            forall|k: int| 0 <= k < i * 4 ==> #[trigger] out@[k] == in_bgra(rgba@)[k],
    {
        let at: usize = i * 4;
        out.push(rgba[at + 2]);
        out.push(rgba[at + 1]);
        out.push(rgba[at]);
        out.push(rgba[at + 3]);
    }
    assert(out@ =~= in_bgra(rgba@));
    out
}

fn scale(value: u8, alpha: u8) -> (scaled_value: u8)
    ensures
        scaled_value == scaled(value, alpha),
{
    assert(value * alpha <= 255 * 255) by (nonlinear_arith)
        requires
            0 <= value <= 255,
            0 <= alpha <= 255,
    ;
    assert(0 <= value * alpha) by (nonlinear_arith)
        requires
            0 <= value,
            0 <= alpha,
    ;
    (value as u32 * alpha as u32 / 255) as u8
}

/// Convert straight RGBA to premultiplied ARGB8888 (Wayland wl_shm). An incomplete
/// pixel at the end is dropped.
#[must_use]
pub fn rgba_to_argb8888_premul(rgba: &[u8]) -> (argb: Vec<u8>)
    ensures
        argb@ == in_premultiplied_bgra(rgba@),
{
    let mut out: Vec<u8> = Vec::new();
    let size: usize = rgba.len();
    let count: usize = size / 4;
    for i in 0..count
        invariant
            size == rgba@.len(),
            count == size / 4,
            out@.len() == i * 4,
            forall|k: int| 0 <= k < i * 4 ==> #[trigger] out@[k] == in_premultiplied_bgra(
                rgba@,
            )[k],
    {
        let at: usize = i * 4;
        let alpha: u8 = rgba[at + 3];
        out.push(scale(rgba[at + 2], alpha));
        out.push(scale(rgba[at + 1], alpha));
        out.push(scale(rgba[at], alpha));
        out.push(alpha);
    }
    assert(out@ =~= in_premultiplied_bgra(rgba@));
    out
}

/// Pack RGBA pixels for an X11 visual: 32-bit BGRA, the native order of TrueColor
/// visuals. Shallow visuals are rare for override-redirect windows and get the same.
#[must_use]
pub fn pack_x11_pixels(rgba: &[u8], _depth: u8) -> (packed: Vec<u8>)
    ensures
        packed@ == in_bgra(rgba@),
{
    rgba_to_bgra(rgba)
}

/// Swapping the color order twice gives the image back, as far as it has whole
/// pixels.
pub proof fn color_order_swaps_back(rgba: Seq<u8>)
    requires
        rgba.len() % 4 == 0,
    ensures
        in_bgra(in_bgra(rgba)) == rgba,
{
    assert(in_bgra(in_bgra(rgba)) =~= rgba);
}

/// Premultiplied colors are never brighter than their alpha, and opaque pixels keep
/// their colors.
pub proof fn premultiplied_colors_are_bounded(value: u8, alpha: u8)
    ensures
        scaled(value, alpha) <= alpha,
        scaled(value, alpha) <= value,
        alpha == 255 ==> scaled(value, alpha) == value,
        alpha == 0 ==> scaled(value, alpha) == 0,
{
    let v = value as int;
    let a = alpha as int;
    assert(v * a <= 255 * a) by (nonlinear_arith)
        requires
            0 <= v <= 255,
            0 <= a,
    ;
    assert(v * a <= 255 * v) by (nonlinear_arith)
        requires
            0 <= v,
            0 <= a <= 255,
    ;
    assert(v * a >= 0) by (nonlinear_arith)
        requires
            0 <= v,
            0 <= a,
    ;
}

/// In BGRA order each pixel has its blue byte first, then green, red and alpha, and all
/// whole pixels are there.
pub proof fn pixels_are_in_bgra_order(rgba: Seq<u8>, k: int)
    requires
        0 <= k,
        4 * k + 3 < rgba.len(),
    ensures
        in_bgra(rgba).len() == rgba.len() - rgba.len() % 4,
        in_bgra(rgba)[4 * k] == rgba[4 * k + 2],
        in_bgra(rgba)[4 * k + 1] == rgba[4 * k + 1],
        in_bgra(rgba)[4 * k + 2] == rgba[4 * k],
        in_bgra(rgba)[4 * k + 3] == rgba[4 * k + 3],
{
}

/// A premultiplied pixel has its blue byte first, then green and red, each multiplied by the
/// alpha and divided by 255 towards zero, and the alpha as it was.
pub proof fn premultiplied_pixels_are_scaled_by_alpha(rgba: Seq<u8>, k: int)
    requires
        0 <= k,
        4 * k + 3 < rgba.len(),
    ensures
        ({
            let argb = in_premultiplied_bgra(rgba);
            let alpha = rgba[4 * k + 3] as int;
            let blue = argb[4 * k] as int;
            let green = argb[4 * k + 1] as int;
            let red = argb[4 * k + 2] as int;
            &&& argb.len() == rgba.len() - rgba.len() % 4
            &&& argb[4 * k + 3] == alpha
            &&& 255 * blue <= rgba[4 * k + 2] * alpha < 255 * (blue + 1)
            &&& 255 * green <= rgba[4 * k + 1] * alpha < 255 * (green + 1)
            &&& 255 * red <= rgba[4 * k] * alpha < 255 * (red + 1)
        }),
{
    scaling_is_exact(rgba[4 * k], rgba[4 * k + 3]);
    scaling_is_exact(rgba[4 * k + 1], rgba[4 * k + 3]);
    scaling_is_exact(rgba[4 * k + 2], rgba[4 * k + 3]);
}

proof fn scaling_is_exact(value: u8, alpha: u8)
    ensures
        255 * scaled(value, alpha) <= value * alpha < 255 * (scaled(value, alpha) + 1),
{
    let v = value as int;
    let a = alpha as int;
    assert(0 <= v * a <= 255 * 255) by (nonlinear_arith)
        requires
            0 <= v <= 255,
            0 <= a <= 255,
    ;
}

} // verus!
