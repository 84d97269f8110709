//! Canon CR2 images are compressed in vertical stripes: the decoder emits
//! the stripes one after the other, each from top to bottom, and they are
//! put side by side here. The stripe widths come as `(n, w, last)`: `n`
//! stripes `w` wide and one more `last` wide.

use vstd::prelude::*;
use crate::bits::{dither_next, dither_value, LookupTable};

verus! {

/// Sample (`row`, `col`) of the image put together from stripes of `a`
/// samples (`n` of them) and a last one of `b` samples, each stored whole
/// after the one before in `src`; 0 right of the last stripe.
pub open spec fn unstriped(src: Seq<u16>, height: int, n: int, a: int, b: int, row: int, col: int) -> u16 {
    if col < n * a {
        src[(col / a) * a * height + row * a + col % a]
    } else if col < n * a + b {
        src[n * a * height + row * b + (col - n * a)]
    } else {
        0
    }
}

proof fn lemma_stripe_index(k: int, a: int, height: int, row: int, c: int, n: int)
    requires
        0 <= k < n,
        0 <= c < a,
        0 <= row < height,
    ensures
        0 <= k * a * height + row * a + c < n * a * height,
{
    assert(0 <= k * a * height + row * a + c < n * a * height) by (nonlinear_arith)
        requires
            0 <= k < n,
            0 <= c < a,
            0 <= row < height,
    ;
}

/// Put the stripes of a `width` x `height` image side by side; the stripe
/// widths are divided by the horizontal subsampling `super_h` and times the
/// samples per pixel `cpp` (as sRAW images state them per pixel).
pub fn unstripe(src: &[u16], width: usize, height: usize, stripes: (usize, usize, usize), super_h: usize, cpp: usize) -> (out: Vec<u16>)
    requires
        super_h > 0,
        width * height <= usize::MAX,
        stripes.0 * (stripes.1 / super_h * cpp) + stripes.2 / super_h * cpp <= width,
        (stripes.0 * (stripes.1 / super_h * cpp) + stripes.2 / super_h * cpp) * height <= src@.len(),
    ensures
        out@.len() == width * height,
        forall|row: int, col: int|
            0 <= row < height && 0 <= col < width ==> #[trigger] out@[row * width + col] == unstriped(
                src@,
                height as int,
                stripes.0 as int,
                (stripes.1 / super_h * cpp) as int,
                (stripes.2 / super_h * cpp) as int,
                row,
                col,
            ),
{
    let (n, w1, w2) = stripes;
    proof {
        let sa = (w1 / super_h * cpp) as int;
        assert(0 <= n * sa) by (nonlinear_arith)
            requires
                sa >= 0,
        ;
        if n > 0 {
            assert(sa <= n * sa) by (nonlinear_arith)
                requires
                    n >= 1,
                    sa >= 0,
            ;
        }
    }
    let b = w2 / super_h * cpp;
    let a = if n > 0 { w1 / super_h * cpp } else { 0 };
    let ghost sa = (w1 / super_h * cpp) as int;
    assert(n * a == n * sa) by (nonlinear_arith)
        requires
            n == 0 || a == sa,
    ;
    assert(n * a <= width) by (nonlinear_arith)
        requires
            n * sa + b <= width,
            n * a == n * sa,
            b >= 0,
    ;
    let na = n * a;
    let slen = src.len();
    assert(na * height + b * height <= slen) by (nonlinear_arith)
        requires
            (na + b) * height <= slen,
    ;
    let mut out: Vec<u16> = Vec::new();
    proof {
        assert(0 * width == 0) by (nonlinear_arith);
    }
    for row in 0..height
        invariant
            slen == src@.len(),
            na == n * a,
            n * a == n * sa,
            na + b <= width,
            na * height + b * height <= slen,
            width * height <= usize::MAX,
            sa == (w1 / super_h * cpp) as int,
            n > 0 ==> a == sa,
            b == w2 / super_h * cpp,
            n == stripes.0,
            w1 == stripes.1,
            w2 == stripes.2,
            out@.len() == row * width,
            forall|r: int, c: int|
                0 <= r < row && 0 <= c < width ==> #[trigger] out@[r * width + c] == unstriped(
                    src@,
                    height as int,
                    n as int,
                    sa,
                    b as int,
                    r,
                    c,
                ),
    {
        let ghost before = out@;
        for col in 0..width
            invariant
                slen == src@.len(),
                na == n * a,
                n * a == n * sa,
                na + b <= width,
                na * height + b * height <= slen,
                row < height,
                sa == (w1 / super_h * cpp) as int,
                n > 0 ==> a == sa,
                b == w2 / super_h * cpp,
                n == stripes.0,
                out@.len() == row * width + col,
                forall|k: int| 0 <= k < row * width ==> #[trigger] out@[k] == before[k],
                forall|c: int|
                    0 <= c < col ==> #[trigger] out@[row * width + c] == unstriped(
                        src@,
                        height as int,
                        n as int,
                        sa,
                        b as int,
                        row as int,
                        c,
                    ),
        {
            if col < na {
                let k = col / a;
                let c = col % a;
                proof {
                    assert(a > 0) by (nonlinear_arith)
                        requires
                            col < n * a,
                            a >= 0,
                    ;
                    assert(k < n) by (nonlinear_arith)
                        requires
                            col < n * a,
                            k == col / a,
                            a > 0,
                    ;
                    lemma_stripe_index(k as int, a as int, height as int, row as int, c as int, n as int);
                    assert(n * a * height == na * height) by (nonlinear_arith)
                        requires
                            na == n * a,
                    ;
                    assert(k * a * height + row * a + c < slen);
                    assert(0 <= k * (a * height) && k * (a * height) == k * a * height && 0 <= row * a)
                        by (nonlinear_arith)
                        requires
                            k >= 0,
                            a >= 0,
                            row >= 0,
                    ;
                }
                assert(a * height <= na * height) by (nonlinear_arith)
                    requires
                        na == n * a,
                        k < n,
                        a >= 0,
                ;
                let idx = k * (a * height) + row * a + c;
                out.push(src[idx]);
            } else if col < na + b {
                proof {
                    assert(row * b + b <= b * height) by (nonlinear_arith)
                        requires
                            row < height,
                            b >= 0,
                    ;
                    assert(b * height == height * b) by (nonlinear_arith);
                    assert(na * height == n * sa * height) by (nonlinear_arith)
                        requires
                            na == n * sa,
                    ;
                }
                let idx = na * height + row * b + (col - na);
                out.push(src[idx]);
            } else {
                out.push(0);
            }
        }
        proof {
            assert forall|r: int, c: int|
                0 <= r < row + 1 && 0 <= c < width implies #[trigger] out@[r * width + c] == unstriped(
                    src@,
                    height as int,
                    n as int,
                    sa,
                    b as int,
                    r,
                    c,
                ) by {
                if r < row {
                    assert(r * width + c < row * width) by (nonlinear_arith)
                        requires
                            r < row,
                            c < width,
                    ;
                    assert(out@[r * width + c] == before[r * width + c]);
                }
            }
            assert((row + 1) * width == row * width + width) by (nonlinear_arith);
        }
    }
    proof {
        assert(height * width == width * height) by (nonlinear_arith);
    }
    out
}


/// Where the `t`-th triple read from a 4:2:0 sRAW decoder output starts:
/// triples are read along each line pair's first line, `ljw` samples wide,
/// and the second line is skipped over.
pub open spec fn v2_triple_start(t: int, ljw: int) -> int {
    (3 * t / ljw) * 2 * ljw + (3 * t) % ljw
}

/// Sample (`row`, `col`) of a 4:2:0 sRAW image put together from `nf`
/// stripes `fw` samples wide, read two lines at a time from `src`; 0 right
/// of the last stripe.
pub open spec fn unstriped_v2(src: Seq<u16>, ljw: int, height: int, nf: int, fw: int, row: int, col: int) -> u16 {
    if col < nf * fw {
        let f = col / fw;
        let x = col % fw;
        let t = f * ((height / 2) * (fw / 3)) + (row / 2) * (fw / 3) + x / 3;
        src[v2_triple_start(t, ljw) + (row % 2) * ljw + x % 3]
    } else {
        0
    }
}

proof fn lemma_triple_index(f: int, r2: int, c3: int, nf: int, h2: int, f3: int)
    requires
        0 <= f < nf,
        0 <= r2 < h2,
        0 <= c3 < f3,
    ensures
        0 <= f * (h2 * f3) + r2 * f3 + c3 < nf * h2 * f3,
{
    assert(0 <= f * (h2 * f3) + r2 * f3 + c3 < nf * h2 * f3) by (nonlinear_arith)
        requires
            0 <= f < nf,
            0 <= r2 < h2,
            0 <= c3 < f3,
    ;
}

proof fn lemma_triple_start_bounds(t: int, ljw: int)
    requires
        t >= 0,
        ljw > 0,
    ensures
        3 * t <= v2_triple_start(t, ljw),
{
    vstd::arithmetic::div_mod::lemma_div_pos_is_pos(3 * t, ljw);
    vstd::arithmetic::div_mod::lemma_mod_pos_bound(3 * t, ljw);
    vstd::arithmetic::div_mod::lemma_fundamental_div_mod(3 * t, ljw);
    assert((3 * t / ljw) * ljw <= (3 * t / ljw) * 2 * ljw) by (nonlinear_arith)
        requires
            3 * t / ljw >= 0,
            ljw > 0,
    ;
    assert(ljw * (3 * t / ljw) == (3 * t / ljw) * ljw) by (nonlinear_arith);
}

/// Put together a 4:2:0 sRAW image of `width` x `height` samples from the
/// decoder output `src`, `ljw` samples per line: `nf` stripes `fw` samples
/// wide, each read as triples two lines at a time.
pub fn unstripe_v2(src: &[u16], ljw: usize, width: usize, height: usize, nf: usize, fw: usize) -> (out: Vec<u16>)
    requires
        ljw > 0,
        ljw % 3 == 0,
        fw % 3 == 0,
        height % 2 == 0,
        nf * fw <= width,
        width * height <= usize::MAX,
        forall|t: int|
            0 <= t < nf * ((height / 2) * (fw / 3)) ==> #[trigger] v2_triple_start(t, ljw as int) + ljw + 3
                <= src@.len(),
    ensures
        out@.len() == width * height,
        forall|row: int, col: int|
            0 <= row < height && 0 <= col < width ==> #[trigger] out@[row * width + col] == unstriped_v2(
                src@,
                ljw as int,
                height as int,
                nf as int,
                fw as int,
                row,
                col,
            ),
{
    let slen = src.len();
    let nfw = nf * fw;
    let h2 = height / 2;
    let f3 = fw / 3;
    let mut out: Vec<u16> = Vec::new();
    proof {
        assert(0 * width == 0) by (nonlinear_arith);
    }
    for row in 0..height
        invariant
            slen == src@.len(),
            ljw > 0,
            nfw == nf * fw,
            nfw <= width,
            h2 == height / 2,
            f3 == fw / 3,
            fw % 3 == 0,
            height % 2 == 0,
            width * height <= usize::MAX,
            forall|t: int|
                0 <= t < nf * ((height / 2) * (fw / 3)) ==> #[trigger] v2_triple_start(t, ljw as int) + ljw + 3
                    <= src@.len(),
            out@.len() == row * width,
            forall|r: int, c: int|
                0 <= r < row && 0 <= c < width ==> #[trigger] out@[r * width + c] == unstriped_v2(
                    src@,
                    ljw as int,
                    height as int,
                    nf as int,
                    fw as int,
                    r,
                    c,
                ),
    {
        let ghost before = out@;
        for col in 0..width
            invariant
                slen == src@.len(),
                ljw > 0,
                nfw == nf * fw,
                nfw <= width,
                h2 == height / 2,
                f3 == fw / 3,
                fw % 3 == 0,
                height % 2 == 0,
                row < height,
                forall|t: int|
                    0 <= t < nf * ((height / 2) * (fw / 3)) ==> #[trigger] v2_triple_start(t, ljw as int) + ljw
                        + 3 <= src@.len(),
                out@.len() == row * width + col,
                forall|k: int| 0 <= k < row * width ==> #[trigger] out@[k] == before[k],
                forall|c: int|
                    0 <= c < col ==> #[trigger] out@[row * width + c] == unstriped_v2(
                        src@,
                        ljw as int,
                        height as int,
                        nf as int,
                        fw as int,
                        row as int,
                        c,
                    ),
        {
            if col < nfw {
                let f = col / fw;
                let x = col % fw;
                let ghost t = f * ((height / 2) * (fw / 3)) + (row / 2) * (fw / 3) + x / 3;
                proof {
                    assert(fw > 0) by (nonlinear_arith)
                        requires
                            col < nf * fw,
                            fw >= 0,
                    ;
                    assert(f < nf) by (nonlinear_arith)
                        requires
                            col < nf * fw,
                            f == col / fw,
                            fw > 0,
                    ;
                    assert(x / 3 < f3) by (nonlinear_arith)
                        requires
                            x < fw,
                            fw % 3 == 0,
                            f3 == fw / 3,
                    ;
                    lemma_triple_index(f as int, (row / 2) as int, (x / 3) as int, nf as int, h2 as int, f3 as int);
                    assert(nf * h2 * f3 == nf * ((height / 2) * (fw / 3))) by (nonlinear_arith)
                        requires
                            h2 == height / 2,
                            f3 == fw / 3,
                    ;
                    assert(v2_triple_start(t, ljw as int) + ljw + 3 <= slen);
                    lemma_triple_start_bounds(t, ljw as int);
                    assert(0 <= f * (h2 * f3) && 0 <= (row / 2) * f3 && 0 <= h2 * f3 && h2 * f3 <= f * (h2
                        * f3) + (row / 2) * f3 + x / 3 + h2 * f3) by (nonlinear_arith)
                        requires
                            f >= 0,
                            h2 >= 0,
                            f3 >= 0,
                            row / 2 >= 0,
                            x / 3 >= 0,
                    ;
                    let tl = nf * h2 * f3 - 1;
                    assert(t <= tl);
                    assert(v2_triple_start(tl, ljw as int) + ljw + 3 <= slen);
                    lemma_triple_start_bounds(tl, ljw as int);
                    assert(h2 * f3 <= nf * h2 * f3) by (nonlinear_arith)
                        requires
                            f < nf,
                            h2 >= 0,
                            f3 >= 0,
                    ;
                }
                let t3 = 3 * (f * (h2 * f3) + (row / 2) * f3 + x / 3);
                assert((t3 / ljw) * 2 <= (t3 / ljw) * 2 * ljw) by (nonlinear_arith)
                    requires
                        t3 / ljw >= 0,
                        ljw >= 1,
                ;
                assert((row % 2) * ljw <= ljw) by (nonlinear_arith)
                    requires
                        row % 2 <= 1,
                        ljw >= 0,
                        row % 2 >= 0,
                ;
                let start = (t3 / ljw) * 2 * ljw + t3 % ljw;
                assert(start == v2_triple_start(t, ljw as int));
                out.push(src[start + (row % 2) * ljw + x % 3]);
            } else {
                out.push(0);
            }
        }
        proof {
            assert forall|r: int, c: int|
                0 <= r < row + 1 && 0 <= c < width implies #[trigger] out@[r * width + c] == unstriped_v2(
                    src@,
                    ljw as int,
                    height as int,
                    nf as int,
                    fw as int,
                    r,
                    c,
                ) by {
                if r < row {
                    assert(r * width + c < row * width) by (nonlinear_arith)
                        requires
                            r < row,
                            c < width,
                    ;
                    assert(out@[r * width + c] == before[r * width + c]);
                }
            }
            assert((row + 1) * width == row * width + width) by (nonlinear_arith);
        }
    }
    proof {
        assert(height * width == width * height) by (nonlinear_arith);
    }
    out
}


/// The pixels `px[i..]` looked up in the curve `e` with dithering, the
/// dither state starting at `rand`.
pub open spec fn dithered_from(e: Seq<(u16, u16, u16)>, px: Seq<u16>, i: int, rand: u32) -> Seq<u16>
    decreases px.len() - i,
{
    if i >= px.len() {
        Seq::empty()
    } else {
        seq![dither_value(e[px[i] as int], rand)] + dithered_from(e, px, i + 1, dither_next(rand))
    }
}

/// Map every pixel through the linearization curve `table`, dithering with
/// a state seeded by the first pixel.
pub fn linearize(pixels: &mut Vec<u16>, table: &LookupTable)
    requires
        old(pixels)@.len() > 0,
        forall|i: int| 0 <= i < old(pixels)@.len() ==> (#[trigger] old(pixels)@[i] as int) < table.entries().len(),
    ensures
        final(pixels)@ == dithered_from(table.entries(), old(pixels)@, 0, old(pixels)@[0] as u32),
{
    let ghost orig = pixels@;
    let ghost e = table.entries();
    let mut random: u32 = pixels[0] as u32;
    let n = pixels.len();
    for i in 0..n
        invariant
            n == pixels@.len(),
            n == orig.len(),
            e == table.entries(),
            forall|k: int| 0 <= k < n ==> (#[trigger] orig[k] as int) < e.len(),
            forall|k: int| i <= k < n ==> #[trigger] pixels@[k] == orig[k],
            pixels@.subrange(0, i as int) + dithered_from(e, orig, i as int, random) == dithered_from(
                e,
                orig,
                0,
                orig[0] as u32,
            ),
    {
        let ghost r0 = random;
        let ghost prev = pixels@;
        let v = pixels[i];
        assert(v == orig[i as int]);
        let d = table.dither(v, &mut random);
        pixels.set(i, d);
        proof {
            assert(dithered_from(e, orig, i as int, r0) == seq![d] + dithered_from(e, orig, i + 1, random));
            assert(pixels@.subrange(0, i + 1) =~= prev.subrange(0, i as int).push(d));
            assert(prev.subrange(0, i as int) + (seq![d] + dithered_from(e, orig, i + 1, random))
                =~= prev.subrange(0, i as int).push(d) + dithered_from(e, orig, i + 1, random));
        }
    }
    proof {
        assert(pixels@.subrange(0, n as int) =~= pixels@);
        assert(pixels@ + Seq::<u16>::empty() =~= pixels@);
    }
}

/// The size of a CR2 image in samples, from the size of the decoder output:
/// sRAW images (three samples per pixel) take the size that the IFD states,
/// where it states one, or else are turned upright; images decoded two lines
/// as one are halved in width.
pub open spec fn spec_cr2_dimension(
    ljpeg_width: int,
    ljpeg_height: int,
    cpp: int,
    stated: Option<(usize, usize)>,
    double_line: bool,
) -> (int, int) {
    if cpp == 3 {
        match stated {
            Some((w, h)) => (w * 3, h as int),
            None => if ljpeg_width / 3 < ljpeg_height {
                (ljpeg_height * 3, ljpeg_width / 3)
            } else {
                (ljpeg_width, ljpeg_height)
            },
        }
    } else if double_line {
        (ljpeg_width / 2, ljpeg_height * 2)
    } else {
        (ljpeg_width, ljpeg_height)
    }
}

/// The size of a CR2 image (see `spec_cr2_dimension`).
pub fn cr2_dimension(
    ljpeg_width: usize,
    ljpeg_height: usize,
    cpp: usize,
    stated: Option<(usize, usize)>,
    double_line: bool,
) -> (r: (usize, usize))
    requires
        ljpeg_height * 3 <= usize::MAX,
        stated matches Some((w, _)) ==> w * 3 <= usize::MAX,
    ensures
        (r.0 as int, r.1 as int) == spec_cr2_dimension(
            ljpeg_width as int,
            ljpeg_height as int,
            cpp as int,
            stated,
            double_line,
        ),
{
    if cpp == 3 {
        match stated {
            Some((w, h)) => (w * 3, h),
            None => if ljpeg_width / 3 < ljpeg_height {
                (ljpeg_height * 3, ljpeg_width / 3)
            } else {
                (ljpeg_width, ljpeg_height)
            },
        }
    } else if double_line {
        (ljpeg_width / 2, ljpeg_height * 2)
    } else {
        (ljpeg_width, ljpeg_height)
    }
}


/// Whether `unstripe` can put the stripes `(n, w1, w2)` of `src` in place.
pub open spec fn unstripe_ok(src: Seq<u16>, width: int, height: int, stripes: (usize, usize, usize), super_h: int, cpp: int) -> bool {
    let a = stripes.1 as int / super_h * cpp;
    let b = stripes.2 as int / super_h * cpp;
    &&& super_h > 0
    &&& width * height <= usize::MAX
    &&& stripes.0 * a + b <= width
    &&& (stripes.0 * a + b) * height <= src.len()
}

/// Whether `unstripe_v2` can put `nf` stripes `fw` wide of `src` in place.
pub open spec fn unstripe_v2_ok(src: Seq<u16>, ljw: int, width: int, height: int, nf: int, fw: int) -> bool {
    &&& ljw > 0
    &&& ljw % 3 == 0
    &&& fw % 3 == 0
    &&& height % 2 == 0
    &&& nf * fw <= width
    &&& width * height <= usize::MAX
    &&& forall|t: int|
        0 <= t < nf * ((height / 2) * (fw / 3)) ==> #[trigger] v2_triple_start(t, ljw) + ljw + 3 <= src.len()
}

/// Whether `assemble_stripes` can put the stripes in place.
pub open spec fn assemble_ok(
    src: Seq<u16>,
    ljw: int,
    width: int,
    height: int,
    stripes: Option<(usize, usize, usize)>,
    super_h: int,
    super_v: int,
    cpp: int,
) -> bool {
    match stripes {
        Some(s) => s.0 > 0 ==> s.0 < usize::MAX && if super_v == 2 {
            unstripe_v2_ok(src, ljw, width, height, s.0 + 1, s.1 as int)
        } else {
            unstripe_ok(src, width, height, s, super_h, cpp)
        },
        None => true,
    }
}

/// Put the decoder output `src` (`ljw` samples per line) of a CR2 image of
/// `width` x `height` samples in place: where the IFD states stripe widths
/// `(n, w1, w2)` with `n > 0`, the stripes are put side by side, two lines
/// at a time for vertically subsampled sRAW; else the output is the image.
pub fn assemble_stripes(
    src: Vec<u16>,
    ljw: usize,
    width: usize,
    height: usize,
    stripes: Option<(usize, usize, usize)>,
    super_h: usize,
    super_v: usize,
    cpp: usize,
) -> (out: Vec<u16>)
    requires
        assemble_ok(src@, ljw as int, width as int, height as int, stripes, super_h as int, super_v as int, cpp as int),
    ensures
        match stripes {
            Some(s) if s.0 > 0 => {
                &&& out@.len() == width * height
                &&& super_v == 2 ==> forall|row: int, col: int|
                    0 <= row < height && 0 <= col < width ==> #[trigger] out@[row * width + col] == unstriped_v2(
                        src@,
                        ljw as int,
                        height as int,
                        s.0 + 1,
                        s.1 as int,
                        row,
                        col,
                    )
                &&& super_v != 2 ==> forall|row: int, col: int|
                    0 <= row < height && 0 <= col < width ==> #[trigger] out@[row * width + col] == unstriped(
                        src@,
                        height as int,
                        s.0 as int,
                        (s.1 / super_h * cpp) as int,
                        (s.2 / super_h * cpp) as int,
                        row,
                        col,
                    )
            },
            _ => out@ == src@,
        },
{
    match stripes {
        Some(s) => {
            if s.0 == 0 {
                src
            } else if super_v == 2 {
                unstripe_v2(src.as_slice(), ljw, width, height, s.0 + 1, s.1)
            } else {
                unstripe(src.as_slice(), width, height, s, super_h, cpp)
            }
        },
        None => src,
    }
}

} // verus!
