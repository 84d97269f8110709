//! The metadata block of a compressed NEF: the version, the initial
//! predictors, the linearization curve and the row where the Huffman table
//! changes.

use vstd::prelude::*;
use crate::bits::{be_u16, le_u16, BEu16, LEu16};

verus! {

/// What the decoder of a compressed NEF needs from the metadata block.
#[derive(Debug)]
pub struct NefMeta {
    /// Which of the Nikon Huffman trees starts the image.
    pub huff_select: usize,
    /// The vertical predictors of the first column of each row parity.
    pub pred_up1: (i32, i32),
    /// The vertical predictors of the second column.
    pub pred_up2: (i32, i32),
    /// The bit depth of the values.
    pub real_bps: u32,
    /// The linearization curve.
    pub curve: Vec<u16>,
    /// The row from which the next Huffman tree is used (0: none).
    pub split: usize,
}

/// `NefMeta` by value.
pub struct NefMetaView {
    pub huff_select: usize,
    pub pred_up1: (int, int),
    pub pred_up2: (int, int),
    pub real_bps: int,
    pub curve: Seq<u16>,
    pub split: int,
}

impl NefMeta {
    pub open spec fn view(&self) -> NefMetaView {
        NefMetaView {
            huff_select: self.huff_select,
            pred_up1: (self.pred_up1.0 as int, self.pred_up1.1 as int),
            pred_up2: (self.pred_up2.0 as int, self.pred_up2.1 as int),
            real_bps: self.real_bps as int,
            curve: self.curve@,
            split: self.split as int,
        }
    }
}

/// A 16-bit word of the block, in its byte order.
pub open spec fn meta_u16(m: Seq<u8>, big: bool, pos: int) -> int {
    if big { be_u16(m, pos) } else { le_u16(m, pos) }
}

/// Where the predictors start: past the two version bytes, and past a
/// further 2110 bytes for versions 0x49 and 0x?58.
pub open spec fn nef_meta_start(m: Seq<u8>) -> int {
    if m[0] == 73 || m[1] == 88 { 2112int } else { 2int }
}

pub open spec fn nef_real_bps(m: Seq<u8>, bps: int) -> int {
    if m[0] == 68 && m[1] == 64 { bps - 2 } else { bps }
}

/// Whether the curve is given by `csize` control points spaced `step`
/// apart, between which it is interpolated.
pub open spec fn nef_interpolated(m: Seq<u8>, step: int) -> bool {
    m[0] == 68 && (m[1] == 32 || m[1] == 64) && step > 0
}

/// The curve before interpolation: control point `k` at `k * step`, the
/// identity elsewhere.
pub open spec fn nef_points(m: Seq<u8>, big: bool, start: int, csize: int, step: int, j: int) -> int {
    if j % step == 0 && j / step < csize {
        meta_u16(m, big, start + 10 + 2 * (j / step))
    } else {
        j
    }
}

/// Point `i` of the interpolated curve: the weighted mean of the control
/// points on either side, rounded down.
pub open spec fn nef_interpolated_point(m: Seq<u8>, big: bool, start: int, csize: int, step: int, i: int) -> int {
    let b = i % step;
    let a = i - b;
    ((step - b) * nef_points(m, big, start, csize, step, a) + b * nef_points(m, big, start, csize, step, a + step))
        / step
}

/// The decoder setup of the metadata block `m` for `bps`-bit data, or
/// `None` where the block ends early or the curve leaves its 65536 points.
pub open spec fn spec_nef_meta(m: Seq<u8>, big: bool, bps: int) -> Option<NefMetaView> {
    if m.len() < 2 {
        None
    } else {
        let start = nef_meta_start(m);
        let huff = (if m[0] == 70 { 2int } else { 0 }) + (if bps == 14 { 3int } else { 0 });
        if start + 10 > m.len() {
            None
        } else {
            let real_bps = nef_real_bps(m, bps);
            let max = vstd::arithmetic::power2::pow2(real_bps as nat) as int;
            let csize = meta_u16(m, big, start + 8);
            let step = if csize > 1 { max / (csize - 1) } else { 0 };
            let p1 = (meta_u16(m, big, start), meta_u16(m, big, start + 2));
            let p2 = (meta_u16(m, big, start + 4), meta_u16(m, big, start + 6));
            if nef_interpolated(m, step) {
                let last = max - 1 - (max - 1) % step;
                if start + 10 + 2 * csize > m.len() || (csize - 1) * step >= 0x1_0000 || last + step >= 0x1_0000
                    || 564 > m.len() {
                    None
                } else {
                    Some(
                        NefMetaView {
                            huff_select: huff as usize,
                            pred_up1: p1,
                            pred_up2: p2,
                            real_bps,
                            curve: Seq::new(
                                max as nat,
                                |i: int| nef_interpolated_point(m, big, start, csize, step, i) as u16,
                            ),
                            split: meta_u16(m, big, 562),
                        },
                    )
                }
            } else if m[0] != 70 && csize <= 0x4001 {
                if start + 10 + 2 * csize > m.len() {
                    None
                } else {
                    Some(
                        NefMetaView {
                            huff_select: huff as usize,
                            pred_up1: p1,
                            pred_up2: p2,
                            real_bps,
                            curve: Seq::new(csize as nat, |i: int| meta_u16(m, big, start + 10 + 2 * i) as u16),
                            split: 0,
                        },
                    )
                }
            } else {
                Some(
                    NefMetaView {
                        huff_select: huff as usize,
                        pred_up1: p1,
                        pred_up2: p2,
                        real_bps,
                        curve: Seq::new(max as nat, |i: int| i as u16),
                        split: 0,
                    },
                )
            }
        }
    }
}


fn meta_word(m: &[u8], big: bool, pos: usize) -> (r: u16)
    requires
        pos + 2 <= m@.len(),
    ensures
        r as int == meta_u16(m@, big, pos as int),
{
    if big {
        BEu16(m, pos)
    } else {
        LEu16(m, pos)
    }
}

pub open spec fn nef_meta_view(r: Option<NefMeta>) -> Option<NefMetaView> {
    match r {
        Some(x) => Some(x.view()),
        None => None,
    }
}

/// `a` rounded down to a multiple of `step`, and what that says of its
/// remainder and quotient.
proof fn lemma_floor_multiple(i: int, step: int)
    requires
        i >= 0,
        step > 0,
    ensures
        (i - i % step) % step == 0,
        0 <= i % step < step,
        i % step <= i,
        i - i % step == (i / step) * step,
        (i - i % step) / step == i / step,
{
    vstd::arithmetic::div_mod::lemma_fundamental_div_mod(i, step);
    vstd::arithmetic::div_mod::lemma_mod_pos_bound(i, step);
    vstd::arithmetic::div_mod::lemma_div_pos_is_pos(i, step);
    assert(0 <= step * (i / step)) by (nonlinear_arith)
        requires
            i / step >= 0,
            step > 0,
    ;
    assert(i - i % step == (i / step) * step) by (nonlinear_arith)
        requires
            i == step * (i / step) + i % step,
    ;
    vstd::arithmetic::div_mod::lemma_mod_multiples_basic(i / step, step);
    vstd::arithmetic::div_mod::lemma_div_multiples_vanish(i / step, step);
    assert(step * (i / step) == (i / step) * step) by (nonlinear_arith);
}

/// The 65536 points of the curve before interpolation: the `csize`
/// control points from `start + 10` on, `step` apart.
fn nef_control_points(meta: &[u8], big_endian: bool, start: usize, csize: usize, step: usize) -> (points: Vec<u16>)
    requires
        step > 0,
        start + 10 + 2 * csize <= meta@.len(),
        (csize - 1) * step < 0x1_0000,
    ensures
        points@.len() == 0x1_0000,
        forall|j: int|
            0 <= j < 0x1_0000 ==> #[trigger] points@[j] as int == nef_points(
                meta@,
                big_endian,
                start as int,
                csize as int,
                step as int,
                j,
            ),
{
    let ghost m = meta@;
    let ghost st = start as int;
    let ghost sp = step as int;
    let n = meta.len();
    let mut points: Vec<u16> = Vec::new();
    for j in 0..0x1_0000usize
        invariant
            points@.len() == j,
            forall|k: int| 0 <= k < j ==> points@[k] == k as u16,
    {
        points.push(j as u16);
    }
    for i in 0..csize
        invariant
            m == meta@,
            n == m.len(),
            st == start,
            sp == step,
            step > 0,
            start + 10 + 2 * csize <= m.len(),
            (csize - 1) * step < 0x1_0000,
            points@.len() == 0x1_0000,
            forall|j: int|
                0 <= j < 0x1_0000 ==> #[trigger] points@[j] as int == if j % sp == 0 && j / sp < i {
                    meta_u16(m, big_endian, st + 10 + 2 * (j / sp))
                } else {
                    j
                },
    {
        assert(i * step <= (csize - 1) * step) by (nonlinear_arith)
            requires
                i < csize,
        ;
        let w = meta_word(meta, big_endian, start + 10 + 2 * i);
        let at = i * step;
        points.set(at, w);
        proof {
            vstd::arithmetic::div_mod::lemma_mod_multiples_basic(i as int, sp);
            vstd::arithmetic::div_mod::lemma_div_multiples_vanish(i as int, sp);
            assert(sp * i == at) by (nonlinear_arith)
                requires
                    at == i * sp,
            ;
            assert forall|j: int| 0 <= j < 0x1_0000 implies #[trigger] points@[j] as int == if j % sp == 0 && j
                / sp < i + 1 {
                meta_u16(m, big_endian, st + 10 + 2 * (j / sp))
            } else {
                j
            } by {
                if j != at && j % sp == 0 && j / sp == i {
                    lemma_floor_multiple(j, sp);
                    assert(j == at) by (nonlinear_arith)
                        requires
                            j == (j / sp) * sp,
                            j / sp == i,
                            at == i * sp,
                    ;
                }
            }
        }
    }
    proof {
        assert forall|j: int| 0 <= j < 0x1_0000 implies #[trigger] points@[j] as int == nef_points(
            m,
            big_endian,
            st,
            csize as int,
            sp,
            j,
        ) by {}
    }
    points
}

/// The first `max` points of the curve, interpolated between the control
/// points of `points`.
fn nef_interpolate(points: Vec<u16>, max: usize, step: usize, Ghost(m): Ghost<Seq<u8>>, big_endian: bool, start: usize, csize: usize) -> (curve: Vec<u16>)
    requires
        step > 0,
        1 <= max <= 0x1_0000,
        max - 1 - (max - 1) % (step as int) + step < 0x1_0000,
        points@.len() == 0x1_0000,
        forall|j: int|
            0 <= j < 0x1_0000 ==> #[trigger] points@[j] as int == nef_points(
                m,
                big_endian,
                start as int,
                csize as int,
                step as int,
                j,
            ),
    ensures
        curve@ =~= Seq::new(
            max as nat,
            |i: int| nef_interpolated_point(m, big_endian, start as int, csize as int, step as int, i) as u16,
        ),
{
    let ghost st = start as int;
    let ghost cs = csize as int;
    let ghost sp = step as int;
    let mut points = points;
    for i in 0..max
        invariant
            sp == step,
            st == start,
            cs == csize,
            step > 0,
            1 <= max <= 0x1_0000,
            max - 1 - (max - 1) % sp + step < 0x1_0000,
            points@.len() == 0x1_0000,
            forall|j: int|
                0 <= j < 0x1_0000 ==> #[trigger] points@[j] as int == if j < i {
                    nef_interpolated_point(m, big_endian, st, cs, sp, j)
                } else {
                    nef_points(m, big_endian, st, cs, sp, j)
                },
    {
        proof {
            lemma_floor_multiple(i as int, sp);
            lemma_floor_multiple((max - 1) as int, sp);
            vstd::arithmetic::div_mod::lemma_div_is_ordered(i as int, (max - 1) as int, sp);
            assert((i / step) * step <= ((max - 1) / sp) * step) by (nonlinear_arith)
                requires
                    i / step <= (max - 1) / sp,
                    step > 0,
            ;
        }
        let b_scale = i % step;
        let a_pos = i - b_scale;
        let b_pos = a_pos + step;
        let a_scale = step - b_scale;
        let pa = points[a_pos];
        let pb = points[b_pos];
        proof {
            if a_pos < i {
                lemma_floor_multiple(a_pos as int, sp);
                let pv = nef_points(m, big_endian, st, cs, sp, a_pos as int);
                let qv = nef_points(m, big_endian, st, cs, sp, a_pos + sp);
                assert((sp - 0) * pv + 0 * qv == sp * pv) by (nonlinear_arith);
                vstd::arithmetic::div_mod::lemma_div_multiples_vanish(pv, sp);
                assert(pa as int == pv);
            }
        }
        assert(a_scale * (pa as usize) + b_scale * (pb as usize) <= step * 0xffff) by (nonlinear_arith)
            requires
                a_scale + b_scale == step,
                pa <= 0xffff,
                pb <= 0xffff,
        ;
        assert(step * 0xffff <= 0x1_0000 * 0xffff) by (nonlinear_arith)
            requires
                step <= 0x1_0000,
        ;
        let v = (a_scale * (pa as usize) + b_scale * (pb as usize)) / step;
        assert(v <= 0xffff) by (nonlinear_arith)
            requires
                v == (a_scale * (pa as usize) + b_scale * (pb as usize)) / (step as int),
                a_scale * (pa as usize) + b_scale * (pb as usize) <= step * 0xffff,
                step > 0,
        ;
        points.set(i, v as u16);
    }
    points.truncate(max);
    points
}

/// Read the metadata block `meta` of a compressed NEF with `bps`-bit data
/// (see `spec_nef_meta`).
#[verifier::rlimit(50)]
pub fn parse_nef_meta(meta: &[u8], big_endian: bool, bps: usize) -> (r: Option<NefMeta>)
    requires
        2 <= bps <= 16,
    ensures
        nef_meta_view(r) == spec_nef_meta(meta@, big_endian, bps as int),
{
    let n = meta.len();
    if n < 2 {
        return None;
    }
    let v0 = meta[0];
    let v1 = meta[1];
    let start: usize = if v0 == 73 || v1 == 88 { 2112 } else { 2 };
    if start + 10 > n {
        return None;
    }
    let huff_select: usize = (if v0 == 70 { 2 } else { 0 }) + (if bps == 14 { 3 } else { 0 });
    let pred_up1 = (meta_word(meta, big_endian, start) as i32, meta_word(meta, big_endian, start + 2) as i32);
    let pred_up2 = (meta_word(meta, big_endian, start + 4) as i32, meta_word(meta, big_endian, start + 6) as i32);
    let real_bps: u32 = if v0 == 68 && v1 == 64 { bps as u32 - 2 } else { bps as u32 };
    proof {
        vstd::arithmetic::power2::lemma2_to64();
        vstd::arithmetic::power2::lemma_pow2_pos(real_bps as nat);
        if real_bps < 16 {
            vstd::arithmetic::power2::lemma_pow2_strictly_increases(real_bps as nat, 16);
        }
        vstd::bits::lemma_u64_shl_is_mul(1, real_bps as u64);
    }
    let max: usize = (1u64 << (real_bps as u64)) as usize;
    let csize = meta_word(meta, big_endian, start + 8) as usize;
    let step: usize = if csize > 1 { max / (csize - 1) } else { 0 };
    if v0 == 68 && (v1 == 32 || v1 == 64) && step > 0 {
        proof {
            assert((csize - 1) * step <= max) by (nonlinear_arith)
                requires
                    step == max as int / (csize - 1),
                    csize > 1,
            ;
            vstd::arithmetic::div_mod::lemma_mod_pos_bound(max - 1, step as int);
        }
        let last = max - 1 - (max - 1) % step;
        if n < start + 10 + 2 * csize || (csize - 1) * step >= 0x1_0000 || last + step >= 0x1_0000 || n < 564 {
            return None;
        }
        let points = nef_control_points(meta, big_endian, start, csize, step);
        let curve = nef_interpolate(points, max, step, Ghost(meta@), big_endian, start, csize);
        let split = meta_word(meta, big_endian, 562) as usize;
        Some(NefMeta { huff_select, pred_up1, pred_up2, real_bps, curve, split })
    } else if v0 != 70 && csize <= 0x4001 {
        if n < start + 10 + 2 * csize {
            return None;
        }
        let mut curve: Vec<u16> = Vec::new();
        for i in 0..csize
            invariant
                start + 10 + 2 * csize <= meta@.len(),
                n == meta@.len(),
                curve@ =~= Seq::new(i as nat, |k: int| meta_u16(meta@, big_endian, start + 10 + 2 * k) as u16),
        {
            curve.push(meta_word(meta, big_endian, start + 10 + 2 * i));
            proof {
                assert(curve@ =~= Seq::new(
                    (i + 1) as nat,
                    |k: int| meta_u16(meta@, big_endian, start + 10 + 2 * k) as u16,
                ));
            }
        }
        Some(NefMeta { huff_select, pred_up1, pred_up2, real_bps, curve, split: 0 })
    } else {
        let mut curve: Vec<u16> = Vec::new();
        for i in 0..max
            invariant
                max <= 0x1_0000,
                curve@ =~= Seq::new(i as nat, |k: int| k as u16),
        {
            curve.push(i as u16);
            proof {
                assert(curve@ =~= Seq::new((i + 1) as nat, |k: int| k as u16));
            }
        }
        Some(NefMeta { huff_select, pred_up1, pred_up2, real_bps, curve, split: 0 })
    }
}

} // verus!
