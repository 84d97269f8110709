//! Canon sRAW/mRAW: the decoded image holds YCbCr triples, which are turned
//! into linear RGB with the white balance coefficients folded in.

use vstd::prelude::*;
use crate::bits::{clampbits, spec_clampbits};

verus! {

/// The three generations of the sRAW colour transform.
#[derive(Debug, Copy, Clone, PartialEq, Eq, Structural)]
pub enum SrawVersion {
    /// 40D and others: `y` carries an offset of 512.
    V0,
    /// 5D Mark II: chroma scaled by 4, hue corrected, 14-bit coefficients.
    V1,
    /// 5D Mark III and later: as `V0` without the offset.
    V2,
}

/// Which transform a camera uses, from its `sraw_40d` and `sraw_new` hints
/// (the first wins).
pub fn sraw_version(sraw_40d: bool, sraw_new: bool) -> (v: SrawVersion)
    ensures
        v == (if sraw_40d { SrawVersion::V0 } else if sraw_new { SrawVersion::V2 } else { SrawVersion::V1 }),
{
    if sraw_40d {
        SrawVersion::V0
    } else if sraw_new {
        SrawVersion::V2
    } else {
        SrawVersion::V1
    }
}

/// The hue correction added to the chroma of `V1` images, from the model id,
/// the firmware version and the chroma subsampling factors.
pub open spec fn spec_sraw_hue(model_id: Option<u32>, firmware: Option<u32>, super_h: int, super_v: int) -> int {
    match model_id {
        None => 0,
        Some(id) => {
            let fw = match firmware {
                Some(f) => f as int,
                None => 0,
            };
            if id >= 0x80000281 || (id == 0x80000218 && fw > 1000006) {
                (super_h * super_v - 1) / 2
            } else {
                super_h * super_v
            }
        },
    }
}

/// The hue correction (see `spec_sraw_hue`); subsampling factors are those
/// of a JPEG frame, 1 to 4.
pub fn sraw_hue(model_id: Option<u32>, firmware: Option<u32>, super_h: usize, super_v: usize) -> (hue: i32)
    requires
        1 <= super_h <= 4,
        1 <= super_v <= 4,
    ensures
        hue as int == spec_sraw_hue(model_id, firmware, super_h as int, super_v as int),
        0 <= hue <= 16,
{
    assert(super_h * super_v <= 16) by (nonlinear_arith)
        requires
            1 <= super_h <= 4,
            1 <= super_v <= 4,
    ;
    assert(super_h * super_v >= 1) by (nonlinear_arith)
        requires
            1 <= super_h,
            1 <= super_v,
    ;
    let m = super_h * super_v;
    match model_id {
        None => 0,
        Some(id) => {
            let fw = match firmware {
                Some(f) => f,
                None => 0,
            };
            if id >= 0x80000281 || (id == 0x80000218 && fw > 1000006) {
                let m1 = m - 1;
                let h = m1 >> 1;
                assert(h == m1 / 2) by (bit_vector)
                    requires
                        h == m1 >> 1,
                ;
                h as i32
            } else {
                m as i32
            }
        },
    }
}

/// What turns one YCbCr triple into RGB: the version, the three white
/// balance coefficients and the hue correction.
#[derive(Debug, Copy, Clone)]
pub struct SrawParams {
    pub version: SrawVersion,
    pub c1: i32,
    pub c2: i32,
    pub c3: i32,
    pub hue: i32,
}

pub open spec fn in_i32(x: int) -> bool {
    i32::MIN <= x <= i32::MAX
}

/// The chroma of a triple, centred on zero (and, for `V1`, scaled and hue
/// corrected).
pub open spec fn sraw_cb(p: SrawParams, cb: int) -> int {
    if p.version == SrawVersion::V1 {
        (cb - 16383) * 4 + p.hue
    } else {
        cb - 16383
    }
}

/// The luma of a triple, with the offset of `V0` removed.
pub open spec fn sraw_y(p: SrawParams, y: int) -> int {
    if p.version == SrawVersion::V0 {
        y - 512
    } else {
        y
    }
}

/// The chroma parts of red, green and blue, before the coefficients.
pub open spec fn sraw_chroma(p: SrawParams, cb: int, cr: int) -> (int, int, int) {
    if p.version == SrawVersion::V1 {
        (
            (50 * cb + 22929 * cr) / 16384,
            (-5640 * cb - 11751 * cr) / 16384,
            (29040 * cb - 101 * cr) / 16384,
        )
    } else {
        (cr, (-778 * cb - cr * 2048) / 4096, cb)
    }
}

/// Red, green and blue of the triple `(y, cb, cr)` before they are scaled
/// down by 256 and clamped.
pub open spec fn sraw_products(p: SrawParams, y: int, cb: int, cr: int) -> (int, int, int) {
    let yy = sraw_y(p, y);
    let (r, g, b) = sraw_chroma(p, sraw_cb(p, cb), sraw_cb(p, cr));
    (p.c1 * (yy + r), p.c2 * (yy + g), p.c3 * (yy + b))
}

/// Every intermediate value of the transform of `(y, cb, cr)` fits in an
/// `i32`.
pub open spec fn sraw_fits(p: SrawParams, y: int, cb: int, cr: int) -> bool {
    let cbv = sraw_cb(p, cb);
    let crv = sraw_cb(p, cr);
    let (r, g, b) = sraw_products(p, y, cb, cr);
    &&& in_i32(r) && in_i32(g) && in_i32(b)
    &&& p.version == SrawVersion::V1 ==> {
        &&& in_i32(22929 * crv)
        &&& in_i32(50 * cbv + 22929 * crv)
        &&& in_i32(-5640 * cbv)
        &&& in_i32(11751 * crv)
        &&& in_i32(-5640 * cbv - 11751 * crv)
        &&& in_i32(29040 * cbv)
        &&& in_i32(29040 * cbv - 101 * crv)
    }
}

/// The RGB triple for the YCbCr triple `(y, cb, cr)`.
pub open spec fn sraw_rgb(p: SrawParams, y: int, cb: int, cr: int) -> (u16, u16, u16) {
    let (r, g, b) = sraw_products(p, y, cb, cr);
    (
        spec_clampbits(r / 256, 16) as u16,
        spec_clampbits(g / 256, 16) as u16,
        spec_clampbits(b / 256, 16) as u16,
    )
}

/// `x >> k` on an `i32` rounds towards minus infinity.
proof fn lemma_shr_floor(x: i32)
    ensures
        (x >> 8u32) as int == x as int / 256,
        (x >> 12u32) as int == x as int / 4096,
        (x >> 14u32) as int == x as int / 16384,
{
    let a = x >> 8u32;
    let b = x >> 12u32;
    let c = x >> 14u32;
    assert(a * 256 <= x && x < a * 256 + 256) by (bit_vector)
        requires
            a == x >> 8u32,
    ;
    assert(b * 4096 <= x && x < b * 4096 + 4096) by (bit_vector)
        requires
            b == x >> 12u32,
    ;
    assert(c * 16384 <= x && x < c * 16384 + 16384) by (bit_vector)
        requires
            c == x >> 14u32,
    ;
    vstd::arithmetic::div_mod::lemma_fundamental_div_mod(x as int, 256);
    vstd::arithmetic::div_mod::lemma_fundamental_div_mod(x as int, 4096);
    vstd::arithmetic::div_mod::lemma_fundamental_div_mod(x as int, 16384);
}

proof fn lemma_shl(x: i32)
    requires
        -0x10000 <= x <= 0x10000,
    ensures
        (x << 2u32) as int == x as int * 4,
        (x << 11u32) as int == x as int * 2048,
{
    assert((x << 2u32) == x * 4 && (x << 11u32) == x * 2048) by (bit_vector)
        requires
            -0x10000 <= x <= 0x10000,
    ;
}

/// Convert one YCbCr triple to RGB.
pub fn sraw_to_rgb(p: &SrawParams, y: u16, cb: u16, cr: u16) -> (rgb: (u16, u16, u16))
    requires
        0 <= p.hue <= 16,
        sraw_fits(*p, y as int, cb as int, cr as int),
    ensures
        rgb == sraw_rgb(*p, y as int, cb as int, cr as int),
{
    let y = y as i32;
    let cb = cb as i32 - 16383;
    let cr = cr as i32 - 16383;
    let (r, g, b) = match p.version {
        SrawVersion::V1 => {
            proof {
                lemma_shl(cb);
                lemma_shl(cr);
            }
            let cb = (cb << 2) + p.hue;
            let cr = (cr << 2) + p.hue;
            let rs = 50 * cb + 22929 * cr;
            let gs = -5640 * cb - 11751 * cr;
            let bs = 29040 * cb - 101 * cr;
            proof {
                lemma_shr_floor(rs);
                lemma_shr_floor(gs);
                lemma_shr_floor(bs);
            }
            let r = p.c1 * (y + (rs >> 14));
            let g = p.c2 * (y + (gs >> 14));
            let b = p.c3 * (y + (bs >> 14));
            (r, g, b)
        },
        _ => {
            let y = if p.version == SrawVersion::V0 { y - 512 } else { y };
            proof {
                lemma_shl(cr);
            }
            let gs = -778 * cb - (cr << 11);
            proof {
                lemma_shr_floor(gs);
            }
            let r = p.c1 * (y + cr);
            let g = p.c2 * (y + (gs >> 12));
            let b = p.c3 * (y + cb);
            (r, g, b)
        },
    };
    proof {
        lemma_shr_floor(r);
        lemma_shr_floor(g);
        lemma_shr_floor(b);
    }
    (clampbits(r >> 8, 16), clampbits(g >> 8, 16), clampbits(b >> 8, 16))
}


/// Triple `k` of an image of YCbCr (or RGB) triples.
pub open spec fn triple(img: Seq<u16>, k: int) -> (u16, u16, u16) {
    (img[3 * k], img[3 * k + 1], img[3 * k + 2])
}

pub open spec fn triple_fits(p: SrawParams, img: Seq<u16>, k: int) -> bool {
    sraw_fits(p, img[3 * k] as int, img[3 * k + 1] as int, img[3 * k + 2] as int)
}

pub open spec fn triple_rgb(p: SrawParams, img: Seq<u16>, k: int) -> (u16, u16, u16) {
    sraw_rgb(p, img[3 * k] as int, img[3 * k + 1] as int, img[3 * k + 2] as int)
}

/// Every whole triple of `img` converts without leaving the `i32` range.
pub open spec fn sraw_image_fits(p: SrawParams, img: Seq<u16>) -> bool {
    forall|k: int| 0 <= k < img.len() / 3 ==> #[trigger] triple_fits(p, img, k)
}

/// Whether every whole triple of `image` can be converted by `convert_to_rgb`.
pub fn sraw_fits_all(image: &Vec<u16>, p: &SrawParams) -> (ok: bool)
    requires
        0 <= p.hue <= 16,
    ensures
        ok == sraw_image_fits(*p, image@),
{
    let len = image.len();
    let n = len / 3;
    assert(3 * n <= image@.len()) by (nonlinear_arith)
        requires
            n == image@.len() / 3,
    ;
    for k in 0..n
        invariant
            n == image@.len() / 3,
            len == image@.len(),
            3 * n <= image@.len(),
            0 <= p.hue <= 16,
            forall|j: int| 0 <= j < k ==> #[trigger] triple_fits(*p, image@, j),
    {
        assert(3 * k + 2 < image@.len()) by (nonlinear_arith)
            requires
                k < n,
                3 * n <= image@.len(),
        ;
        if !sraw_triple_fits(p, image[3 * k], image[3 * k + 1], image[3 * k + 2]) {
            assert(!triple_fits(*p, image@, k as int));
            return false;
        }
    }
    true
}

/// `x >> k` on an `i64` rounds towards minus infinity.
proof fn lemma_shr_floor_i64(x: i64)
    ensures
        (x >> 12u64) as int == x as int / 4096,
        (x >> 14u64) as int == x as int / 16384,
{
    let b = x >> 12u64;
    let c = x >> 14u64;
    assert(b * 4096 <= x && x < b * 4096 + 4096) by (bit_vector)
        requires
            b == x >> 12u64,
    ;
    assert(c * 16384 <= x && x < c * 16384 + 16384) by (bit_vector)
        requires
            c == x >> 14u64,
    ;
    vstd::arithmetic::div_mod::lemma_fundamental_div_mod(x as int, 4096);
    vstd::arithmetic::div_mod::lemma_fundamental_div_mod(x as int, 16384);
}

proof fn lemma_scaled(x: int, k: int)
    requires
        -0x4_0000 <= x <= 0x4_0000,
        -0x8000 <= k <= 0x8000,
    ensures
        -0x2_0000_0000 <= k * x <= 0x2_0000_0000,
        -0x2_0000_0000 <= x * k <= 0x2_0000_0000,
{
    assert(-0x2_0000_0000 <= k * x <= 0x2_0000_0000) by (nonlinear_arith)
        requires
            -0x4_0000 <= x <= 0x4_0000,
            -0x8000 <= k <= 0x8000,
    ;
}

proof fn lemma_weighted(c: int, x: int)
    requires
        -0x8000_0000 <= c < 0x8000_0000,
        -0x10_0000 <= x <= 0x10_0000,
    ensures
        -0x10_0000_0000_0000 <= c * x <= 0x10_0000_0000_0000,
{
    assert(-0x10_0000_0000_0000 <= c * x <= 0x10_0000_0000_0000) by (nonlinear_arith)
        requires
            -0x8000_0000 <= c < 0x8000_0000,
            -0x10_0000 <= x <= 0x10_0000,
    ;
}

/// Whether the transform of `(y, cb, cr)` stays in the `i32` range.
fn sraw_triple_fits(p: &SrawParams, y: u16, cb: u16, cr: u16) -> (ok: bool)
    requires
        0 <= p.hue <= 16,
    ensures
        ok == sraw_fits(*p, y as int, cb as int, cr as int),
{
    let y = y as i64;
    let c1 = p.c1 as i64;
    let c2 = p.c2 as i64;
    let c3 = p.c3 as i64;
    let lo = i32::MIN as i64;
    let hi = i32::MAX as i64;
    let cb = cb as i64 - 16383;
    let cr = cr as i64 - 16383;
    assert(-16383 <= cb <= 49152 && -16383 <= cr <= 49152);
    match p.version {
        SrawVersion::V1 => {
            let cb = cb * 4 + p.hue as i64;
            let cr = cr * 4 + p.hue as i64;
            assert(-65532 <= cb <= 196624 && -65532 <= cr <= 196624);
            proof {
                lemma_scaled(cb as int, 50);
                lemma_scaled(cr as int, 22929);
                lemma_scaled(cb as int, -5640);
                lemma_scaled(cr as int, 11751);
                lemma_scaled(cb as int, 29040);
                lemma_scaled(cr as int, 101);
            }
            let rs = 50 * cb + 22929 * cr;
            let gs = -5640 * cb - 11751 * cr;
            let bs = 29040 * cb - 101 * cr;
            proof {
                lemma_shr_floor_i64(rs);
                lemma_shr_floor_i64(gs);
                lemma_shr_floor_i64(bs);
            }
            let ry = y + (rs >> 14);
            let gy = y + (gs >> 14);
            let by = y + (bs >> 14);
            proof {
                lemma_weighted(c1 as int, ry as int);
                lemma_weighted(c2 as int, gy as int);
                lemma_weighted(c3 as int, by as int);
            }
            let r = c1 * ry;
            let g = c2 * gy;
            let b = c3 * by;
            lo <= 22929 * cr && 22929 * cr <= hi && lo <= rs && rs <= hi && lo <= -5640 * cb && -5640
                * cb <= hi && lo <= 11751 * cr && 11751 * cr <= hi && lo <= gs && gs <= hi && lo <= 29040
                * cb && 29040 * cb <= hi && lo <= bs && bs <= hi && lo <= r && r <= hi && lo <= g && g
                <= hi && lo <= b && b <= hi
        },
        _ => {
            let y = if p.version == SrawVersion::V0 { y - 512 } else { y };
            proof {
                lemma_scaled(cb as int, -778);
                lemma_scaled(cr as int, 2048);
            }
            let gs = -778 * cb - cr * 2048;
            let ry = y + cr;
            proof {
                lemma_shr_floor_i64(gs);
            }
            let gy = y + (gs >> 12);
            let by = y + cb;
            proof {
                lemma_weighted(c1 as int, ry as int);
                lemma_weighted(c2 as int, gy as int);
                lemma_weighted(c3 as int, by as int);
            }
            let r = c1 * ry;
            let g = c2 * gy;
            let b = c3 * by;
            lo <= r && r <= hi && lo <= g && g <= hi && lo <= b && b <= hi
        },
    }
}

/// Convert every whole YCbCr triple of `image` to RGB in place; a trailing
/// partial triple is left as it is.
pub fn convert_to_rgb(image: &mut Vec<u16>, p: &SrawParams)
    requires
        0 <= p.hue <= 16,
        sraw_image_fits(*p, old(image)@),
    ensures
        final(image)@.len() == old(image)@.len(),
        forall|k: int|
            0 <= k < old(image)@.len() / 3 ==> #[trigger] triple(final(image)@, k) == triple_rgb(
                *p,
                old(image)@,
                k,
            ),
        forall|i: int| 3 * (old(image)@.len() / 3) <= i < old(image)@.len() ==> final(image)@[i] == old(image)@[i],
{
    let ghost orig = image@;
    let len = image.len();
    let n = len / 3;
    assert(3 * n <= image@.len()) by (nonlinear_arith)
        requires
            n == image@.len() / 3,
    ;
    for k in 0..n
        invariant
            n == orig.len() / 3,
            len == orig.len(),
            3 * n <= orig.len(),
            image@.len() == orig.len(),
            0 <= p.hue <= 16,
            sraw_image_fits(*p, orig),
            forall|j: int| 0 <= j < k ==> #[trigger] triple(image@, j) == triple_rgb(*p, orig, j),
            forall|i: int| 3 * k <= i < orig.len() ==> image@[i] == orig[i],
    {
        assert(triple_fits(*p, orig, k as int));
        assert(3 * k + 2 < orig.len()) by (nonlinear_arith)
            requires
                k < n,
                3 * n <= orig.len(),
        ;
        let (r, g, b) = sraw_to_rgb(p, image[3 * k], image[3 * k + 1], image[3 * k + 2]);
        let ghost prev = image@;
        image.set(3 * k, r);
        image.set(3 * k + 1, g);
        image.set(3 * k + 2, b);
        assert(image@ == prev.update(3 * k, r).update(3 * k + 1, g).update(3 * k + 2, b));
        assert(triple(image@, k as int) == (r, g, b));
        assert forall|j: int| 0 <= j < k + 1 implies #[trigger] triple(image@, j) == triple_rgb(
            *p,
            orig,
            j,
        ) by {
            if j < k {
                assert(triple(image@, j) == triple(prev, j));
            }
        }
    }
}


/// The rounded mean of two samples.
pub open spec fn mean2(a: u16, b: u16) -> u16 {
    ((a as int + b as int + 1) / 2) as u16
}

/// Sample `p` of a `w`-wide image of YCbCr triples after the horizontal
/// pass: where chroma was subsampled by 2 horizontally (`super_h == 2`),
/// the chroma of every second pixel of a row (columns 4 and 5 modulo 6,
/// where a next pixel follows) is the mean of its neighbours'.
pub open spec fn yuv_h(img: Seq<u16>, w: int, super_h: int, p: int) -> u16 {
    let x = p % w;
    if super_h == 2 && p / w < img.len() as int / w && (x % 6 == 4 || x % 6 == 5) && x - x % 6 + 6 < w {
        mean2(img[p - 3], img[p + 3])
    } else {
        img[p]
    }
}

/// Sample `p` after both passes: where chroma was subsampled by 2
/// vertically (`super_v == 2`), the chroma of the middle row of each whole
/// block of three rows is the mean of the rows above and below.
pub open spec fn yuv_interpolated(img: Seq<u16>, w: int, super_h: int, super_v: int, p: int) -> u16 {
    let r = p / w;
    let x = p % w;
    if super_v == 2 && r % 3 == 1 && r + 1 < img.len() as int / w && (x % 3 == 1 || x % 3 == 2) {
        mean2(yuv_h(img, w, super_h, p - w), yuv_h(img, w, super_h, p + w))
    } else {
        yuv_h(img, w, super_h, p)
    }
}

fn mean_of(a: u16, b: u16) -> (m: u16)
    ensures
        m == mean2(a, b),
{
    ((a as u32 + b as u32 + 1) / 2) as u16
}

proof fn lemma_cell(p: int, w: int, r: int, x: int)
    requires
        w > 0,
        0 <= x < w,
        p == r * w + x,
    ensures
        p / w == r,
        p % w == x,
{
    vstd::arithmetic::div_mod::lemma_fundamental_div_mod_converse(p, w, r, x);
}

/// The horizontal pass over the `rows` whole rows of `image`.
fn interpolate_h(image: &mut Vec<u16>, width: usize, rows: usize)
    requires
        width > 0,
        width % 3 == 0,
        rows == old(image)@.len() / width as nat,
        rows * width <= old(image)@.len(),
    ensures
        final(image)@.len() == old(image)@.len(),
        forall|p: int|
            0 <= p < old(image)@.len() ==> #[trigger] final(image)@[p] == yuv_h(old(image)@, width as int, 2, p),
{
    let ghost orig = image@;
    let ghost w = width as int;
    let len = image.len();
    assert(0 * width == 0);
    for row in 0..rows
        invariant
            len == image@.len(),
            len == orig.len(),
            rows == len / width,
            rows * width <= len,
            width > 0,
            width % 3 == 0,
            w == width,
            forall|p: int|
                0 <= p < len ==> #[trigger] image@[p] == if p < row * width {
                    yuv_h(orig, w, 2, p)
                } else {
                    orig[p]
                },
    {
        assert(row * width + width <= rows * width) by (nonlinear_arith)
            requires
                row < rows,
        ;
        let base = row * width;
        proof {
            assert forall|p: int| 0 <= p < len && base <= p < base + 4 implies #[trigger] yuv_h(orig, w, 2, p)
                == orig[p] by {
                assert((row + 1) * width == base + width) by (nonlinear_arith)
                    requires
                        base == row * width,
                ;
                if p - base < w {
                    lemma_cell(p, w, row as int, p - base);
                } else {
                    lemma_cell(p, w, row + 1, p - base - w);
                }
            }
        }
        let steps = (width - 1) / 6;
        proof {
            vstd::arithmetic::div_mod::lemma_fundamental_div_mod(width - 1, 6);
        }
        for k in 0..steps
            invariant
                len == image@.len(),
                len == orig.len(),
                rows == len / width,
                width > 0,
                width % 3 == 0,
                w == width,
                row < rows,
                base == row * width,
                base + width <= len,
                steps == (width - 1) / 6,
                width - 1 == 6 * steps + (width - 1) % 6,
                forall|p: int|
                    0 <= p < len ==> #[trigger] image@[p] == if p < base + 6 * k + 4 {
                        yuv_h(orig, w, 2, p)
                    } else {
                        orig[p]
                    },
        {
            let col = 6 * k + 6;
            assert(col + 3 <= width);
            let pix1 = base + col - 6;
            let pix2 = pix1 + 3;
            let pix3 = base + col;
            proof {
                lemma_cell(pix2 + 1, w, row as int, col - 2);
                lemma_cell(pix2 + 2, w, row as int, col - 1);
                lemma_cell(pix1 + 1, w, row as int, col - 5);
                lemma_cell(pix1 + 2, w, row as int, col - 4);
                assert((col - 2) % 6 == 4 && (col - 1) % 6 == 5 && (col - 5) % 6 == 1 && (col - 4) % 6 == 2);
                assert(yuv_h(orig, w, 2, pix1 + 1) == orig[pix1 + 1]);
                assert(yuv_h(orig, w, 2, pix1 + 2) == orig[pix1 + 2]);
                assert(yuv_h(orig, w, 2, pix2 + 1) == mean2(orig[pix1 + 1], orig[pix3 + 1]));
                assert(yuv_h(orig, w, 2, pix2 + 2) == mean2(orig[pix1 + 2], orig[pix3 + 2]));
            }
            let a = mean_of(image[pix1 + 1], image[pix3 + 1]);
            image.set(pix2 + 1, a);
            let b = mean_of(image[pix1 + 2], image[pix3 + 2]);
            image.set(pix2 + 2, b);
            proof {
                assert forall|p: int| 0 <= p < len implies #[trigger] image@[p] == if p < base + 6 * (k + 1) + 4 {
                    yuv_h(orig, w, 2, p)
                } else {
                    orig[p]
                } by {
                    if base + 6 * k + 6 <= p < base + 6 * k + 10 {
                        assert((row + 1) * width == base + width) by (nonlinear_arith)
                            requires
                                base == row * width,
                        ;
                        if p - base < w {
                            lemma_cell(p, w, row as int, p - base);
                        } else {
                            lemma_cell(p, w, row + 1, p - base - w);
                        }
                    }
                }
            }
        }
        proof {
            assert((row + 1) * width == base + width) by (nonlinear_arith)
                requires
                    base == row * width,
            ;
            assert forall|p: int| 0 <= p < len implies #[trigger] image@[p] == if p < (row + 1) * width {
                yuv_h(orig, w, 2, p)
            } else {
                orig[p]
            } by {
                if base + 6 * steps + 4 <= p < base + width {
                    lemma_cell(p, w, row as int, p - base);
                    assert(p - base == 6 * steps + 4 || p - base == 6 * steps + 5);
                    assert((p - base) % 6 == 4 || (p - base) % 6 == 5);
                    assert((p - base) - (p - base) % 6 + 6 == 6 * steps + 6);
                } else if base + width <= p < base + 6 * steps + 4 {
                    lemma_cell(p, w, row + 1, p - base - w);
                }
            }
        }
    }
    proof {
        assert forall|p: int| 0 <= p < len implies #[trigger] image@[p] == yuv_h(orig, w, 2, p) by {
            if p >= rows * width {
                assert(w * rows == rows * width) by (nonlinear_arith)
                    requires
                        w == width,
                ;
                vstd::arithmetic::div_mod::lemma_div_is_ordered(w * rows, p, w);
                vstd::arithmetic::div_mod::lemma_div_multiples_vanish(rows as int, w);
                assert(p / w >= rows);
            }
        }
    }
}

/// The vertical pass over the `rows` whole rows of `image`, after the
/// horizontal one turned `orig` into `image`.
fn interpolate_v(image: &mut Vec<u16>, width: usize, rows: usize, super_h: usize, Ghost(orig): Ghost<Seq<u16>>)
    requires
        width > 0,
        width % 3 == 0,
        orig.len() == old(image)@.len(),
        rows == orig.len() / width as nat,
        rows * width <= orig.len(),
        forall|p: int| 0 <= p < orig.len() ==> #[trigger] old(image)@[p] == yuv_h(orig, width as int, super_h as int, p),
    ensures
        final(image)@.len() == orig.len(),
        forall|p: int|
            0 <= p < orig.len() ==> #[trigger] final(image)@[p] == yuv_interpolated(
                orig,
                width as int,
                super_h as int,
                2,
                p,
            ),
{
    let ghost w = width as int;
    let ghost sh = super_h as int;
    let len = image.len();
    let chunks = rows / 3;
    assert(3 * 0 * width == 0) by (nonlinear_arith);
    for c in 0..chunks
        invariant
            len == image@.len(),
            len == orig.len(),
            rows == len / width,
            rows * width <= len,
            chunks == rows / 3,
            width > 0,
            width % 3 == 0,
            w == width,
            sh == super_h,
            forall|p: int|
                0 <= p < len ==> #[trigger] image@[p] == if p < 3 * c * width {
                    yuv_interpolated(orig, w, sh, 2, p)
                } else {
                    yuv_h(orig, w, sh, p)
                },
    {
        assert(3 * c + 3 <= rows);
        assert((3 * c + 3) * width <= rows * width) by (nonlinear_arith)
            requires
                3 * c + 3 <= rows,
        ;
        assert((3 * c + 1) * width == 3 * c * width + width && (3 * c + 3) * width == 3 * c * width + 3
            * width) by (nonlinear_arith);
        let mid = (3 * c + 1) * width;
        proof {
            assert forall|p: int| 0 <= p < len && 3 * c * width <= p < mid implies #[trigger] yuv_interpolated(
                orig,
                w,
                sh,
                2,
                p,
            ) == yuv_h(orig, w, sh, p) by {
                lemma_cell(p, w, 3 * c as int, p - 3 * c * width);
            }
        }
        let mut col: usize = 0;
        while col < width
            invariant
                len == image@.len(),
                len == orig.len(),
                rows == len / width,
                3 * c + 3 <= rows,
                width > 0,
                width % 3 == 0,
                w == width,
                sh == super_h,
                mid == (3 * c + 1) * width,
                mid == 3 * c * width + width,
                mid + 2 * width <= len,
                col % 3 == 0,
                col <= width,
                forall|p: int|
                    0 <= p < len ==> #[trigger] image@[p] == if p < mid + col {
                        yuv_interpolated(orig, w, sh, 2, p)
                    } else {
                        yuv_h(orig, w, sh, p)
                    },
            decreases width - col,
        {
            assert(col + 3 <= width);
            let pix1 = mid - width + col;
            let pix2 = mid + col;
            let pix3 = mid + width + col;
            proof {
                lemma_cell(pix1 as int, w, 3 * c as int, col as int);
                lemma_cell(pix1 + 1, w, 3 * c as int, col + 1);
                lemma_cell(pix1 + 2, w, 3 * c as int, col + 2);
                lemma_cell(pix2 as int, w, 3 * c + 1, col as int);
                lemma_cell(pix2 + 1, w, 3 * c + 1, col + 1);
                lemma_cell(pix2 + 2, w, 3 * c + 1, col + 2);
                assert(yuv_interpolated(orig, w, sh, 2, pix1 + 1) == yuv_h(orig, w, sh, pix1 + 1));
                assert(yuv_interpolated(orig, w, sh, 2, pix1 + 2) == yuv_h(orig, w, sh, pix1 + 2));
                assert(yuv_interpolated(orig, w, sh, 2, pix2 as int) == yuv_h(orig, w, sh, pix2 as int));
            }
            let a = mean_of(image[pix1 + 1], image[pix3 + 1]);
            image.set(pix2 + 1, a);
            let b = mean_of(image[pix1 + 2], image[pix3 + 2]);
            image.set(pix2 + 2, b);
            col = col + 3;
        }
        proof {
            assert forall|p: int| 0 <= p < len implies #[trigger] image@[p] == if p < 3 * (c + 1) * width {
                yuv_interpolated(orig, w, sh, 2, p)
            } else {
                yuv_h(orig, w, sh, p)
            } by {
                assert(3 * (c + 1) * width == mid + 2 * width) by (nonlinear_arith)
                    requires
                        mid == 3 * c * width + width,
                ;
                if mid + width <= p < mid + 2 * width {
                    assert((3 * c + 2) * width == mid + width) by (nonlinear_arith)
                        requires
                            mid == 3 * c * width + width,
                    ;
                    lemma_cell(p, w, 3 * c + 2, p - mid - width);
                }
            }
        }
    }
    proof {
        assert forall|p: int| 0 <= p < len implies #[trigger] image@[p] == yuv_interpolated(orig, w, sh, 2, p) by {
            if p >= 3 * chunks * width {
                let m = 3 * chunks as int;
                assert(w * m == 3 * chunks * width) by (nonlinear_arith)
                    requires
                        m == 3 * chunks,
                        w == width,
                ;
                vstd::arithmetic::div_mod::lemma_div_is_ordered(w * m, p, w);
                vstd::arithmetic::div_mod::lemma_div_multiples_vanish(m, w);
                vstd::arithmetic::div_mod::lemma_fundamental_div_mod(rows as int, 3);
                assert(p / w >= m);
            }
        }
    }
}

/// Fill in the chroma that the subsampling by `super_h` x `super_v` left
/// out of an image of YCbCr triples `width` samples wide.
pub fn interpolate_yuv(image: &mut Vec<u16>, width: usize, super_h: usize, super_v: usize)
    requires
        !(super_h == 1 && super_v == 1) ==> width > 0 && width % 3 == 0,
    ensures
        final(image)@.len() == old(image)@.len(),
        forall|p: int|
            0 <= p < old(image)@.len() ==> #[trigger] final(image)@[p] == yuv_interpolated(
                old(image)@,
                width as int,
                super_h as int,
                super_v as int,
                p,
            ),
{
    let ghost orig = image@;
    if super_h == 1 && super_v == 1 {
        return;
    }
    let len = image.len();
    let rows = len / width;
    proof {
        vstd::arithmetic::div_mod::lemma_fundamental_div_mod(len as int, width as int);
        assert(rows * width <= len) by (nonlinear_arith)
            requires
                len == width * rows + len % width,
                len % width >= 0,
        ;
    }
    if super_h == 2 {
        interpolate_h(image, width, rows);
    }
    assert forall|p: int| 0 <= p < len implies #[trigger] image@[p] == yuv_h(orig, width as int, super_h as int, p)
        by {
        if super_h == 2 {
            assert(image@[p] == yuv_h(orig, width as int, 2, p));
        }
    }
    if super_v == 2 {
        interpolate_v(image, width, rows, super_h, Ghost(orig));
    }
}

} // verus!
