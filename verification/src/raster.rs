//! The integer rasterizer primitives: clearing the frame, filling
//! axis-aligned rectangles with straight-alpha blending, and the two
//! built-in icons.
//!
//! A frame is a row-major RGBA byte buffer: the pixel at `(px, py)`
//! starts at byte `4 * (py * width + px)`.  Blending follows
//! `out = src * a + dst * (1 - a)` with `a` read from the 0–255 alpha
//! channel, in exact integer arithmetic.

use vstd::prelude::*;
use crate::color::Color;

verus! {

/// Largest screen dimension the rasterizer accepts, per axis.
pub const SCREEN_LIMIT: i32 = 0x100_0000;

/// The first byte of the pixel at `(px, py)` in a `sw`-wide frame.
pub open spec fn pix(sw: int, px: int, py: int) -> int {
    4 * (py * sw + px)
}

/// One blended channel: `(src * a + dst * (255 - a)) / 255`.
pub open spec fn spec_blend(dst: u8, src: u8, a: u8) -> u8 {
    ((src * a + dst * (255 - a)) / 255) as u8
}

/// The channel of `c` that byte `k` of a pixel holds.
pub open spec fn channel_of(c: Color, k: int) -> u8 {
    if k == 0 {
        c.r
    } else if k == 1 {
        c.g
    } else if k == 2 {
        c.b
    } else {
        c.a
    }
}

/// Bytes `i..i+4` of `f2` are the fill of `c` over the same bytes of
/// `f1`: overwritten when the color is opaque, blended otherwise, with
/// the alpha byte forced to 255.
pub open spec fn pixel_filled(f2: Seq<u8>, f1: Seq<u8>, i: int, c: Color) -> bool {
    &&& f2[i] == spec_fill_byte(c, 0, f1[i])
    &&& f2[i + 1] == spec_fill_byte(c, 1, f1[i + 1])
    &&& f2[i + 2] == spec_fill_byte(c, 2, f1[i + 2])
    &&& f2[i + 3] == spec_fill_byte(c, 3, f1[i + 3])
}

/// Bytes `i..i+4` agree between `f2` and `f1`.
pub open spec fn pixel_same(f2: Seq<u8>, f1: Seq<u8>, i: int) -> bool {
    &&& f2[i] == f1[i]
    &&& f2[i + 1] == f1[i + 1]
    &&& f2[i + 2] == f1[i + 2]
    &&& f2[i + 3] == f1[i + 3]
}

/// Bytes `i..i+4` of `f2` hold the channels of `c` with full alpha.
pub open spec fn pixel_set(f2: Seq<u8>, i: int, c: Color) -> bool {
    &&& f2[i] == c.r
    &&& f2[i + 1] == c.g
    &&& f2[i + 2] == c.b
    &&& f2[i + 3] == 255
}

/// A pixel's four bytes are inside a `sw` by `sh` frame buffer.
proof fn lemma_pix_bounds(sw: int, sh: int, px: int, py: int)
    requires
        0 <= px < sw,
        0 <= py < sh,
    ensures
        0 <= pix(sw, px, py),
        pix(sw, px, py) + 4 <= 4 * (sw * sh),
{
    assert(0 <= py * sw + px && py * sw + px + 1 <= sw * sh) by (nonlinear_arith)
        requires
            0 <= px < sw && 0 <= py < sh,
    ;
}

/// Distinct pixels occupy distinct, non-overlapping byte ranges.
proof fn lemma_pix_distinct(sw: int, px: int, py: int, px2: int, py2: int)
    requires
        0 <= px < sw,
        0 <= px2 < sw,
        0 <= py,
        0 <= py2,
        px != px2 || py != py2,
    ensures
        py * sw + px != py2 * sw + px2,
{
    if py != py2 {
        assert(py * sw + px != py2 * sw + px2) by (nonlinear_arith)
            requires
                0 <= px < sw && 0 <= px2 < sw && py != py2 && 0 <= py && 0 <= py2,
        ;
    }
}

/// Writes the four bytes of one pixel, touching nothing else.
fn put_pixel(f: &mut Vec<u8>, idx: usize, r: u8, g: u8, b: u8, a: u8)
    requires
        idx + 4 <= old(f).len(),
    ensures
        final(f).len() == old(f).len(),
        final(f)@[idx as int] == r,
        final(f)@[idx + 1] == g,
        final(f)@[idx + 2] == b,
        final(f)@[idx + 3] == a,
        forall|j: int| 0 <= j < old(f).len() && !(idx <= j < idx + 4) ==> final(f)@[j] == old(
            f,
        )@[j],
{
    f[idx] = r;
    f[idx + 1] = g;
    f[idx + 2] = b;
    f[idx + 3] = a;
}

/// One channel blended toward `src` by alpha `a`.
fn blend_channel(dst: u8, src: u8, a: u8) -> (r: u8)
    ensures
        r == spec_blend(dst, src, a),
{
    assert(0 <= src * a + dst * (255 - a) <= 255 * 255 + 255 * 255 && (src * a + dst * (255 - a))
        / 255 <= 255) by (nonlinear_arith)
        requires
            0 <= src <= 255 && 0 <= dst <= 255 && 0 <= a <= 255,
    ;
    let wide: u32 = src as u32 * a as u32 + dst as u32 * (255 - a as u32);
    (wide / 255) as u8
}

/// Fills the whole frame with `c`: afterwards every whole pixel holds
/// the color's four channels verbatim.  Trailing bytes that do not make
/// up a whole pixel are left untouched.
pub fn clear(f: &mut Vec<u8>, c: Color)
    ensures
        final(f).len() == old(f).len(),
        forall|i: int|
            0 <= i < 4 * (old(f).len() / 4) ==> final(f)@[i] == channel_of(c, i % 4),
        forall|i: int| 4 * (old(f).len() / 4) <= i < old(f).len() ==> final(f)@[i] == old(f)@[i],
{
    let n: usize = f.len() / 4;
    let mut p: usize = 0;
    while p < n
        invariant
            f.len() == old(f).len(),
            n == old(f).len() / 4,
            p <= n,
            forall|i: int| 0 <= i < 4 * p ==> f@[i] == channel_of(c, i % 4),
            forall|i: int| 4 * p <= i < old(f).len() ==> f@[i] == old(f)@[i],
        decreases n - p,
    {
        put_pixel(f, 4 * p, c.r, c.g, c.b, c.a);
        proof {
            assert forall|i: int| 0 <= i < 4 * (p + 1) implies f@[i] == channel_of(c, i % 4) by {
                if i < 4 * p {
                } else {
                    assert(i % 4 == i - 4 * p) by (nonlinear_arith)
                        requires
                            4 * p <= i < 4 * p + 4 && 0 <= p,
                    ;
                }
            };
        }
        p += 1;
    }
}

/// What draws over one byte of a pixel inside the filled region: the
/// color verbatim when it is opaque, the blend toward it otherwise; the
/// alpha byte becomes 255 either way.
pub open spec fn spec_fill_byte(c: Color, k: int, dst: u8) -> u8 {
    if k == 3 {
        255u8
    } else if c.a == 255 {
        channel_of(c, k)
    } else {
        spec_blend(dst, channel_of(c, k), c.a)
    }
}

/// Fills the rectangle `x, y, w, h` clipped to the `sw` by `sh` frame:
/// every pixel inside the clipped region is overwritten (opaque color)
/// or blended (translucent color) and forced opaque; every pixel
/// outside it is untouched.
pub fn draw_rect(f: &mut Vec<u8>, x: i32, y: i32, w: i32, h: i32, c: Color, sw: u32, sh: u32)
    requires
        old(f).len() == 4 * (sw * sh),
        sw <= SCREEN_LIMIT as u32,
        sh <= SCREEN_LIMIT as u32,
        -SCREEN_LIMIT <= x <= SCREEN_LIMIT,
        -SCREEN_LIMIT <= y <= SCREEN_LIMIT,
        0 <= w <= SCREEN_LIMIT,
        0 <= h <= SCREEN_LIMIT,
    ensures
        final(f).len() == old(f).len(),
        forall|px: int, py: int| #![trigger pix(sw as int, px, py)]
            0 <= px < sw && 0 <= py < sh ==> {
                let i = pix(sw as int, px, py);
                if x <= px < x + w && y <= py < y + h {
                    pixel_filled(final(f)@, old(f)@, i, c)
                } else {
                    pixel_same(final(f)@, old(f)@, i)
                }
            },
{
    let x_start: i32 = if x > 0 {
        x
    } else {
        0
    };
    let x_end: i32 = if x + w < sw as i32 {
        x + w
    } else {
        sw as i32
    };
    let y_start: i32 = if y > 0 {
        y
    } else {
        0
    };
    let y_end: i32 = if y + h < sh as i32 {
        y + h
    } else {
        sh as i32
    };
    if x_start >= x_end || y_start >= y_end {
        return ;
    }

    let mut py: i32 = y_start;
    while py < y_end
        invariant
            f.len() == old(f).len(),
            old(f).len() == 4 * (sw * sh),
            sw <= SCREEN_LIMIT as u32 && sh <= SCREEN_LIMIT as u32,
            -SCREEN_LIMIT <= x <= SCREEN_LIMIT && -SCREEN_LIMIT <= y <= SCREEN_LIMIT,
            0 <= w <= SCREEN_LIMIT && 0 <= h <= SCREEN_LIMIT,
            0 <= x_start && x_start < x_end && x_end <= sw,
            x_start == (if x > 0 { x as int } else { 0 }),
            x_end == (if x + w < sw { (x + w) as int } else { sw as int }),
            0 <= y_start && y_start <= py <= y_end && y_end <= sh,
            y_start == (if y > 0 { y as int } else { 0 }),
            y_end == (if y + h < sh { (y + h) as int } else { sh as int }),
            forall|px2: int, py2: int| #![trigger pix(sw as int, px2, py2)]
                0 <= px2 < sw && 0 <= py2 < sh ==> {
                    let i = pix(sw as int, px2, py2);
                    if x <= px2 < x + w && y <= py2 < y + h && py2 < py {
                        pixel_filled(f@, old(f)@, i, c)
                    } else {
                        pixel_same(f@, old(f)@, i)
                    }
                },
        decreases y_end - py,
    {
        let mut px: i32 = x_start;
        while px < x_end
            invariant
                f.len() == old(f).len(),
                old(f).len() == 4 * (sw * sh),
                sw <= SCREEN_LIMIT as u32 && sh <= SCREEN_LIMIT as u32,
                -SCREEN_LIMIT <= x <= SCREEN_LIMIT && -SCREEN_LIMIT <= y <= SCREEN_LIMIT,
                0 <= w <= SCREEN_LIMIT && 0 <= h <= SCREEN_LIMIT,
                0 <= x_start && x_start <= px <= x_end && x_end <= sw,
                x_start == (if x > 0 { x as int } else { 0 }),
                x_end == (if x + w < sw { (x + w) as int } else { sw as int }),
                0 <= y_start && y_start <= py < y_end && y_end <= sh,
                y_start == (if y > 0 { y as int } else { 0 }),
                y_end == (if y + h < sh { (y + h) as int } else { sh as int }),
                forall|px2: int, py2: int| #![trigger pix(sw as int, px2, py2)]
                    0 <= px2 < sw && 0 <= py2 < sh ==> {
                        let i = pix(sw as int, px2, py2);
                        if x <= px2 < x + w && y <= py2 < y + h && (py2 < py || (py2 == py && px2
                            < px)) {
                            pixel_filled(f@, old(f)@, i, c)
                        } else {
                            pixel_same(f@, old(f)@, i)
                        }
                    },
            decreases x_end - px,
        {
            proof {
                lemma_pix_bounds(sw as int, sh as int, px as int, py as int);
            }
            let idx: usize = 4 * ((py as usize) * (sw as usize) + (px as usize));
            let ghost f_before = f@;
            if c.a == 255 {
                put_pixel(f, idx, c.r, c.g, c.b, 255);
            } else {
                let r = blend_channel(f[idx], c.r, c.a);
                let g = blend_channel(f[idx + 1], c.g, c.a);
                let b = blend_channel(f[idx + 2], c.b, c.a);
                put_pixel(f, idx, r, g, b, 255);
            }
            proof {
                assert forall|px2: int, py2: int| #![trigger pix(sw as int, px2, py2)]
                    0 <= px2 < sw && 0 <= py2 < sh && !(px2 == px && py2 == py) implies pixel_same(
                    f@,
                    f_before,
                    pix(sw as int, px2, py2),
                ) by {
                    lemma_pix_distinct(sw as int, px as int, py as int, px2, py2);
                    lemma_pix_bounds(sw as int, sh as int, px2, py2);
                };
            }
            px += 1;
        }
        py += 1;
    }
}

/// Whether `(px, py)` lies on the plus icon anchored at `(x, y)`: the
/// vertical arm at the icon's horizontal middle or the horizontal arm
/// at its vertical middle.
pub open spec fn on_plus(x: int, y: int, size: int, px: int, py: int) -> bool {
    ||| (px == x + size / 2 && y <= py < y + size)
    ||| (py == y + size / 2 && x <= px < x + size)
}

/// Draws the plus icon: every frame pixel on either arm takes the
/// color's channels with full alpha; everything else is untouched.
pub fn draw_icon_plus(f: &mut Vec<u8>, x: i32, y: i32, size: i32, col: Color, sw: u32, sh: u32)
    requires
        old(f).len() == 4 * (sw * sh),
        sw <= SCREEN_LIMIT as u32,
        sh <= SCREEN_LIMIT as u32,
        -SCREEN_LIMIT <= x <= SCREEN_LIMIT,
        -SCREEN_LIMIT <= y <= SCREEN_LIMIT,
        0 <= size <= SCREEN_LIMIT,
    ensures
        final(f).len() == old(f).len(),
        forall|px: int, py: int| #![trigger pix(sw as int, px, py)]
            0 <= px < sw && 0 <= py < sh ==> {
                let i = pix(sw as int, px, py);
                if on_plus(x as int, y as int, size as int, px, py) {
                    pixel_set(final(f)@, i, col)
                } else {
                    pixel_same(final(f)@, old(f)@, i)
                }
            },
{
    let mid: i32 = size / 2;
    let mut i: i32 = 0;
    while i < size
        invariant
            f.len() == old(f).len(),
            old(f).len() == 4 * (sw * sh),
            sw <= SCREEN_LIMIT as u32 && sh <= SCREEN_LIMIT as u32,
            -SCREEN_LIMIT <= x <= SCREEN_LIMIT && -SCREEN_LIMIT <= y <= SCREEN_LIMIT,
            0 <= size <= SCREEN_LIMIT,
            mid == size / 2,
            0 <= i <= size,
            forall|px: int, py: int| #![trigger pix(sw as int, px, py)]
                0 <= px < sw && 0 <= py < sh ==> {
                    let idx = pix(sw as int, px, py);
                    if (px == x + mid && y <= py < y + i) || (py == y + mid && x <= px < x + i) {
                        pixel_set(f@, idx, col)
                    } else {
                        pixel_same(f@, old(f)@, idx)
                    }
                },
        decreases size - i,
    {
        let px1: i32 = x + mid;
        let py1: i32 = y + i;
        let px2: i32 = x + i;
        let py2: i32 = y + mid;
        let ghost f_before = f@;
        if px1 >= 0 && px1 < sw as i32 && py1 >= 0 && py1 < sh as i32 {
            proof {
                lemma_pix_bounds(sw as int, sh as int, px1 as int, py1 as int);
            }
            let idx: usize = 4 * ((py1 as usize) * (sw as usize) + (px1 as usize));
            put_pixel(f, idx, col.r, col.g, col.b, 255);
            proof {
                assert forall|qx: int, qy: int| #![trigger pix(sw as int, qx, qy)]
                    0 <= qx < sw && 0 <= qy < sh && !(qx == px1 && qy == py1) implies pixel_same(
                    f@,
                    f_before,
                    pix(sw as int, qx, qy),
                ) by {
                    lemma_pix_distinct(sw as int, px1 as int, py1 as int, qx, qy);
                    lemma_pix_bounds(sw as int, sh as int, qx, qy);
                };
            }
        }
        let ghost f_mid = f@;
        if px2 >= 0 && px2 < sw as i32 && py2 >= 0 && py2 < sh as i32 {
            proof {
                lemma_pix_bounds(sw as int, sh as int, px2 as int, py2 as int);
            }
            let idx: usize = 4 * ((py2 as usize) * (sw as usize) + (px2 as usize));
            put_pixel(f, idx, col.r, col.g, col.b, 255);
            proof {
                assert forall|qx: int, qy: int| #![trigger pix(sw as int, qx, qy)]
                    0 <= qx < sw && 0 <= qy < sh && !(qx == px2 && qy == py2) implies pixel_same(
                    f@,
                    f_mid,
                    pix(sw as int, qx, qy),
                ) by {
                    lemma_pix_distinct(sw as int, px2 as int, py2 as int, qx, qy);
                    lemma_pix_bounds(sw as int, sh as int, qx, qy);
                };
            }
        }
        i += 1;
    }
}

/// Whether `(px, py)` lies in bar `b` of the chart icon anchored at
/// `(x, y)`: bars rise left to right, each a quarter of the icon wide
/// and `(b + 1)` thirds of it tall.
pub open spec fn in_chart_bar(x: int, y: int, size: int, b: int, px: int, py: int) -> bool {
    let wx = size / 4;
    let hb = (b + 1) * (size / 3);
    &&& x + b * (wx + 1) <= px < x + b * (wx + 1) + wx
    &&& y + size - hb <= py < y + size
}

/// Draws the three-bar chart icon: every frame pixel inside one of the
/// bars is filled with `col` (blended by its alpha, as a rectangle
/// fill); everything else is untouched.
pub fn draw_icon_chart(f: &mut Vec<u8>, x: i32, y: i32, size: i32, col: Color, sw: u32, sh: u32)
    requires
        old(f).len() == 4 * (sw * sh),
        sw <= SCREEN_LIMIT as u32,
        sh <= SCREEN_LIMIT as u32,
        -SCREEN_LIMIT / 2 <= x <= SCREEN_LIMIT / 2,
        -SCREEN_LIMIT / 2 <= y <= SCREEN_LIMIT / 2,
        0 <= size <= SCREEN_LIMIT / 2,
    ensures
        final(f).len() == old(f).len(),
        forall|px: int, py: int| #![trigger pix(sw as int, px, py)]
            0 <= px < sw && 0 <= py < sh ==> {
                let i = pix(sw as int, px, py);
                if in_chart_bar(x as int, y as int, size as int, 0, px, py) || in_chart_bar(
                    x as int,
                    y as int,
                    size as int,
                    1,
                    px,
                    py,
                ) || in_chart_bar(x as int, y as int, size as int, 2, px, py) {
                    pixel_filled(final(f)@, old(f)@, i, col)
                } else {
                    pixel_same(final(f)@, old(f)@, i)
                }
            },
{
    let wx: i32 = size / 4;
    let h1: i32 = size / 3;
    draw_rect(f, x, y + size - h1, wx, h1, col, sw, sh);
    let ghost f1 = f@;
    let h2: i32 = 2 * (size / 3);
    draw_rect(f, x + (wx + 1), y + size - h2, wx, h2, col, sw, sh);
    let ghost f2 = f@;
    let h3: i32 = 3 * (size / 3);
    draw_rect(f, x + 2 * (wx + 1), y + size - h3, wx, h3, col, sw, sh);
}

} // verus!
