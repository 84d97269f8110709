//! Kodak DCR "65000" compression.
//!
//! The image is coded row by row in segments of at most 256 values. A
//! segment starts with one 4-bit length per value (two per byte, low nibble
//! first); then comes a bit stream from which each value takes as many bits
//! as its length says, lowest bits first. The stream is refilled 32 bits at a
//! time from two big-endian 16-bit halves, the first half lowest. A segment
//! whose size is 4 modulo 8 starts the stream with one big-endian 16-bit word.
//! Each value is a signed difference to the predictor of its column parity;
//! the predictor, looked up in a curve with dithering, gives the pixel.

use vstd::prelude::*;
use crate::bits::{pow2, dither_next, dither_value, LookupTable};

verus! {

/// The length of value `i` of a segment whose lengths start at byte `p`.
pub open spec fn seg_len(b: Seq<u8>, p: int, i: int) -> nat {
    if i % 2 == 0 {
        (b[p + i / 2] % 16) as nat
    } else {
        (b[p + i / 2] / 16) as nat
    }
}

/// The 32 bits that one refill at byte `q` appends to the stream.
pub open spec fn refill_word(b: Seq<u8>, q: int) -> int {
    b[q + 1] + b[q] * 0x100 + b[q + 3] * 0x1_0000 + b[q + 2] * 0x100_0000
}

/// A `len`-bit field `raw` read as a signed difference: where its top bit is
/// clear it stands for `raw - (2^len - 1)`.
pub open spec fn extend_diff(raw: int, len: nat) -> int {
    if len > 0 && raw < pow2((len - 1) as nat) {
        raw - (pow2(len) - 1)
    } else {
        raw
    }
}

/// Values `i..size` of the segment whose lengths start at `p`, with the
/// reader at byte `pos` holding the `bits` bits of `buf`; with the position
/// after the last byte read, or `None` where the bytes run out.
pub open spec fn seg_values(b: Seq<u8>, p: int, size: int, i: int, pos: int, buf: int, bits: nat) -> Option<
    (Seq<i32>, int),
>
    decreases size - i,
{
    if i >= size {
        Some((Seq::empty(), pos))
    } else {
        let len = seg_len(b, p, i);
        if bits < len && pos + 4 > b.len() {
            None
        } else {
            let refill = bits < len;
            let pos2 = if refill { pos + 4 } else { pos };
            let buf2 = if refill { buf + refill_word(b, pos) * pow2(bits) } else { buf };
            let bits2: nat = if refill { bits + 32 } else { bits };
            let v = extend_diff(buf2 % pow2(len), len) as i32;
            match seg_values(b, p, size, i + 1, pos2, buf2 / pow2(len), (bits2 - len) as nat) {
                Some((rest, end)) => Some((seq![v] + rest, end)),
                None => None,
            }
        }
    }
}

/// Whether the stream of a segment of `size` values starts with a 16-bit word.
pub open spec fn seg_has_prefix(size: int) -> bool {
    size % 8 == 4
}

/// The `size` values of the segment at byte `p`, and the position after it.
pub open spec fn seg_decode(b: Seq<u8>, p: int, size: int) -> Option<(Seq<i32>, int)> {
    let q = p + (size + 1) / 2;
    if q > b.len() {
        None
    } else if seg_has_prefix(size) {
        if q + 2 > b.len() {
            None
        } else {
            seg_values(b, p, size, 0, q + 2, b[q] * 0x100 + b[q + 1], 16)
        }
    } else {
        seg_values(b, p, size, 0, q, 0, 0)
    }
}

proof fn lemma_nibbles(x: u8)
    ensures
        (x & 15) as int == x as int % 16,
        (x >> 4) as int == x as int / 16,
{
    assert((x & 15) == x % 16) by (bit_vector);
    assert((x >> 4) == x / 16) by (bit_vector);
}

proof fn lemma_mask_is_mod(buf: u64, len: u64)
    requires
        len <= 15,
    ensures
        (buf & (0xffffu64 >> ((16 - len) as u64))) as int == buf as int % pow2(len as nat),
        (buf >> len) as int == buf as int / pow2(len as nat),
{
    assert((0xffffu64 >> ((16 - len) as u64)) == (1u64 << len) - 1) by (bit_vector)
        requires
            len <= 15,
    ;
    vstd::bits::lemma_u64_pow2_no_overflow(len as nat);
    vstd::bits::lemma_u64_shl_is_mul(1, len);
    vstd::bits::lemma_u64_low_bits_mask_is_mod(buf, len as nat);
    vstd::bits::lemma_u64_shr_is_div(buf, len);
}

proof fn lemma_top_bit(raw: u64, len: u64)
    requires
        1 <= len <= 15,
        (raw as int) < pow2(len as nat),
    ensures
        ((raw & (1u64 << ((len - 1) as u64))) == 0) == ((raw as int) < pow2((len - 1) as nat)),
{
    vstd::bits::lemma_u64_pow2_no_overflow(len as nat);
    vstd::bits::lemma_u64_shl_is_mul(1, len);
    vstd::bits::lemma_u64_pow2_no_overflow((len - 1) as nat);
    vstd::bits::lemma_u64_shl_is_mul(1, (len - 1) as u64);
    assert(raw < (1u64 << len) ==> (((raw & (1u64 << ((len - 1) as u64))) == 0) == (raw < (1u64 << ((len
        - 1) as u64))))) by (bit_vector)
        requires
            1 <= len <= 15,
    ;
}

/// `buf + w * 2^bits` for the refill word `w`, written as the four shifted
/// bytes that make it up.
proof fn lemma_refill(buf: u64, bits: u64, c0: u64, c1: u64, c2: u64, c3: u64)
    requires
        bits < 15,
        (buf as int) < pow2(bits as nat),
        c0 < 256,
        c1 < 256,
        c2 < 256,
        c3 < 256,
    ensures
        (c0 << ((bits + 8) as u64)) as int == c0 * pow2(bits as nat) * 0x100,
        (c1 << bits) as int == c1 * pow2(bits as nat),
        (c2 << ((bits + 24) as u64)) as int == c2 * pow2(bits as nat) * 0x100_0000,
        (c3 << ((bits + 16) as u64)) as int == c3 * pow2(bits as nat) * 0x1_0000,
        buf + (c1 + c0 * 0x100 + c3 * 0x1_0000 + c2 * 0x100_0000) * pow2(bits as nat) < pow2(
            (bits + 32) as nat,
        ),
        pow2((bits + 32) as nat) <= 0x8000_0000_0000,
        buf + c0 * pow2(bits as nat) * 0x100 + c1 * pow2(bits as nat) + c2 * pow2(bits as nat)
            * 0x100_0000 + c3 * pow2(bits as nat) * 0x1_0000 == buf + (c1 + c0 * 0x100 + c3 * 0x1_0000
            + c2 * 0x100_0000) * pow2(bits as nat),
{
    let p = pow2(bits as nat);
    vstd::arithmetic::power2::lemma_pow2_adds(bits as nat, 8);
    vstd::arithmetic::power2::lemma_pow2_adds(bits as nat, 16);
    vstd::arithmetic::power2::lemma_pow2_adds(bits as nat, 24);
    vstd::arithmetic::power2::lemma_pow2_adds(bits as nat, 32);
    vstd::arithmetic::power2::lemma2_to64();
    vstd::arithmetic::power2::lemma_pow2_strictly_increases(bits as nat, 15);
    assert(p * 0x1_0000_0000 <= 0x8000_0000_0000) by (nonlinear_arith)
        requires
            p < 0x8000,
    ;
    assert(c0 * pow2((bits + 8) as nat) <= u64::MAX) by (nonlinear_arith)
        requires
            c0 < 256,
            pow2((bits + 8) as nat) == p * 0x100,
            p < 0x8000,
    ;
    assert(c1 * p <= u64::MAX) by (nonlinear_arith)
        requires
            c1 < 256,
            p < 0x8000,
    ;
    assert(c2 * pow2((bits + 24) as nat) <= u64::MAX) by (nonlinear_arith)
        requires
            c2 < 256,
            pow2((bits + 24) as nat) == p * 0x100_0000,
            p < 0x8000,
    ;
    assert(c3 * pow2((bits + 16) as nat) <= u64::MAX) by (nonlinear_arith)
        requires
            c3 < 256,
            pow2((bits + 16) as nat) == p * 0x1_0000,
            p < 0x8000,
    ;
    vstd::bits::lemma_u64_shl_is_mul(c0, (bits + 8) as u64);
    vstd::bits::lemma_u64_shl_is_mul(c1, bits);
    vstd::bits::lemma_u64_shl_is_mul(c2, (bits + 24) as u64);
    vstd::bits::lemma_u64_shl_is_mul(c3, (bits + 16) as u64);
    assert(c0 * pow2((bits + 8) as nat) == c0 * p * 0x100) by (nonlinear_arith)
        requires
            pow2((bits + 8) as nat) == p * 0x100,
    ;
    assert(c2 * pow2((bits + 24) as nat) == c2 * p * 0x100_0000) by (nonlinear_arith)
        requires
            pow2((bits + 24) as nat) == p * 0x100_0000,
    ;
    assert(c3 * pow2((bits + 16) as nat) == c3 * p * 0x1_0000) by (nonlinear_arith)
        requires
            pow2((bits + 16) as nat) == p * 0x1_0000,
    ;
    assert(buf + c0 * p * 0x100 + c1 * p + c2 * p * 0x100_0000 + c3 * p * 0x1_0000 == buf + (c1 + c0
        * 0x100 + c3 * 0x1_0000 + c2 * 0x100_0000) * p) by (nonlinear_arith);
    assert(buf + (c1 + c0 * 0x100 + c3 * 0x1_0000 + c2 * 0x100_0000) * p < p * 0x1_0000_0000)
        by (nonlinear_arith)
        requires
            buf < p,
            c0 < 256,
            c1 < 256,
            c2 < 256,
            c3 < 256,
    ;
}


/// `decode_segment`'s result by its view.
pub open spec fn seg_result(r: Option<(Vec<i32>, usize)>) -> Option<(Seq<i32>, int)> {
    match r {
        Some((v, e)) => Some((v@, e as int)),
        None => None,
    }
}

/// `seg_values` from the position reached after values `0..i`, with the
/// values `done` already read put in front.
pub open spec fn seg_after(done: Seq<i32>, rest: Option<(Seq<i32>, int)>) -> Option<(Seq<i32>, int)> {
    match rest {
        Some((vals, end)) => Some((done + vals, end)),
        None => None,
    }
}

/// Decode the segment of `size` values whose lengths start at byte `p` of
/// `b`: its values and the position after it, or `None` where `b` ends
/// before the segment does.
pub fn decode_segment(b: &[u8], p: usize, size: usize) -> (r: Option<(Vec<i32>, usize)>)
    requires
        size <= 256,
    ensures
        seg_result(r) == seg_decode(b@, p as int, size as int),
{
    let n = b.len();
    let hb = (size + 1) / 2;
    if p > n || n - p < hb {
        return None;
    }
    let mut lens: [usize; 256] = [0; 256];
    let mut pos = p;
    let mut i: usize = 0;
    while i < size
        invariant
            size <= 256,
            n == b@.len(),
            p + hb <= n,
            hb == (size + 1) / 2,
            i % 2 == 0,
            i <= size + 1,
            pos == p + i / 2,
            forall|k: int| 0 <= k < i && k < 256 ==> lens@[k] == seg_len(b@, p as int, k),
        decreases size + 1 - i,
    {
        let x = b[pos];
        proof {
            lemma_nibbles(x);
        }
        lens[i] = (x & 15) as usize;
        lens[i + 1] = (x >> 4) as usize;
        pos = pos + 1;
        i = i + 2;
    }
    let mut bitbuf: u64 = 0;
    let mut bits: u64 = 0;
    if size % 8 == 4 {
        if n - pos < 2 {
            return None;
        }
        bitbuf = (b[pos] as u64) * 0x100 + (b[pos + 1] as u64);
        bits = 16;
        pos = pos + 2;
        proof {
            vstd::arithmetic::power2::lemma2_to64();
        }
    }
    proof {
        vstd::arithmetic::power2::lemma2_to64();
    }
    let mut out: Vec<i32> = Vec::new();
    for i in 0..size
        invariant
            n == b@.len(),
            size <= 256,
            forall|k: int| 0 <= k < size ==> lens@[k] == seg_len(b@, p as int, k),
            bits <= 46,
            (bitbuf as int) < pow2(bits as nat),
            pos <= n,
            out@.len() == i,
            seg_decode(b@, p as int, size as int) == seg_after(
                out@,
                seg_values(b@, p as int, size as int, i as int, pos as int, bitbuf as int, bits as nat),
            ),
    {
        let len = lens[i];
        let len64 = len as u64;
        assert(len64 <= 15);
        let ghost old_out = out@;
        let ghost pos0 = pos as int;
        let ghost buf0 = bitbuf as int;
        let ghost bits0 = bits as nat;
        if bits < len64 {
            if n - pos < 4 {
                return None;
            }
            let c0 = b[pos] as u64;
            let c1 = b[pos + 1] as u64;
            let c2 = b[pos + 2] as u64;
            let c3 = b[pos + 3] as u64;
            proof {
                lemma_refill(bitbuf, bits, c0, c1, c2, c3);
            }
            bitbuf = bitbuf + (c0 << (bits + 8)) + (c1 << bits) + (c2 << (bits + 24)) + (c3 << (bits
                + 16));
            bits = bits + 32;
            pos = pos + 4;
        }
        let ghost buf2 = bitbuf as int;
        let ghost bits2 = bits as nat;
        proof {
            lemma_mask_is_mod(bitbuf, len64);
            vstd::arithmetic::power2::lemma2_to64();
            vstd::arithmetic::power2::lemma_pow2_strictly_increases(len64 as nat, 16);
            vstd::arithmetic::power2::lemma_pow2_adds((bits - len64) as nat, len64 as nat);
            vstd::arithmetic::power2::lemma_pow2_pos(len64 as nat);
            assert(bits >= len64);
            assert(pow2((bits - len64) as nat) * pow2(len64 as nat) == pow2(bits as nat));
            assert(pow2(len64 as nat) * pow2((bits - len64) as nat) == pow2(bits as nat))
                by (nonlinear_arith)
                requires
                    pow2((bits - len64) as nat) * pow2(len64 as nat) == pow2(bits as nat),
            ;
            vstd::arithmetic::div_mod::lemma_multiply_divide_lt(
                bitbuf as int,
                pow2(len64 as nat),
                pow2((bits - len64) as nat),
            );
        }
        let raw = bitbuf & (0xffff >> (16 - len64));
        bitbuf = bitbuf >> len64;
        bits = bits - len64;
        let mut v = raw as i32;
        if len64 != 0 && (raw & (1u64 << (len64 - 1))) == 0 {
            proof {
                lemma_top_bit(raw, len64);
                vstd::bits::lemma_u64_pow2_no_overflow(len64 as nat);
                vstd::bits::lemma_u64_shl_is_mul(1, len64);
            }
            v = v - (((1u64 << len64) - 1) as i32);
        } else if len64 != 0 {
            proof {
                lemma_top_bit(raw, len64);
            }
        }
        assert(v == extend_diff(buf2 % pow2(len64 as nat), len64 as nat) as i32);
        out.push(v);
        proof {
            let next = seg_values(b@, p as int, size as int, i + 1, pos as int, bitbuf as int, bits as nat);
            assert(seg_values(b@, p as int, size as int, i as int, pos0, buf0, bits0) == match next {
                Some((rest, end)) => Some((seq![v] + rest, end)),
                None => None::<(Seq<i32>, int)>,
            });
            match next {
                Some((rest, end)) => {
                    assert(old_out + (seq![v] + rest) =~= out@ + rest);
                },
                None => {},
            }
        }
    }
    Some((out, pos))
}


/// Every value of a segment is a difference of at most 15 bits.
proof fn lemma_seg_values_bounded(b: Seq<u8>, p: int, size: int, i: int, pos: int, buf: int, bits: nat)
    ensures
        seg_values(b, p, size, i, pos, buf, bits) matches Some((vals, _)) ==> (i <= size ==> vals.len()
            == size - i) && forall|k: int| 0 <= k < vals.len() ==> -0x8000 < #[trigger] vals[k] < 0x8000,
    decreases size - i,
{
    if i < size {
        let len = seg_len(b, p, i);
        if !(bits < len && pos + 4 > b.len()) {
            let refill = bits < len;
            let pos2 = if refill { pos + 4 } else { pos };
            let buf2 = if refill { buf + refill_word(b, pos) * pow2(bits) } else { buf };
            let bits2: nat = if refill { bits + 32 } else { bits };
            lemma_seg_values_bounded(b, p, size, i + 1, pos2, buf2 / pow2(len), (bits2 - len) as nat);
            assert(len <= 15);
            vstd::arithmetic::power2::lemma2_to64();
            vstd::arithmetic::power2::lemma_pow2_strictly_increases(len, 16);
            vstd::arithmetic::power2::lemma_pow2_pos(len);
            let raw = buf2 % pow2(len);
            let d = extend_diff(raw, len);
            assert(-0x8000 < d < 0x8000);
            match seg_values(b, p, size, i + 1, pos2, buf2 / pow2(len), (bits2 - len) as nat) {
                Some((rest, end)) => {
                    let vals = seq![d as i32] + rest;
                    assert forall|k: int| 0 <= k < vals.len() implies -0x8000 < #[trigger] vals[k]
                        < 0x8000 by {
                        if k > 0 {
                            assert(vals[k] == rest[k - 1]);
                        }
                    }
                },
                None => {},
            }
        }
    }
}

/// The pixels of a segment's values `vals` from index `i` on, with the
/// predictors `pred0` (even indices) and `pred1` (odd indices) and the
/// dither state `rand`: the pixels and the dither state after them, or
/// `None` where a predictor goes negative or falls outside the curve `e`.
pub open spec fn k65_pixels(e: Seq<(u16, u16, u16)>, vals: Seq<i32>, i: int, pred0: int, pred1: int, rand: u32) -> Option<
    (Seq<u16>, u32),
>
    decreases vals.len() - i,
{
    if i >= vals.len() {
        Some((Seq::empty(), rand))
    } else {
        let p = (if i % 2 == 0 { pred0 } else { pred1 }) + vals[i];
        if p < 0 || p % 0x1_0000 >= e.len() {
            None
        } else {
            let px = dither_value(e[p % 0x1_0000], rand);
            let n0 = if i % 2 == 0 { p } else { pred0 };
            let n1 = if i % 2 == 0 { pred1 } else { p };
            match k65_pixels(e, vals, i + 1, n0, n1, dither_next(rand)) {
                Some((rest, r)) => Some((seq![px] + rest, r)),
                None => None,
            }
        }
    }
}

pub open spec fn pixels_after(done: Seq<u16>, rest: Option<(Seq<u16>, u32)>) -> Option<(Seq<u16>, u32)> {
    match rest {
        Some((px, r)) => Some((done + px, r)),
        None => None,
    }
}

/// Dither the values of one segment into `out`; `false` where a predictor
/// goes negative or falls outside the curve.
fn dither_segment(vals: &Vec<i32>, curve: &LookupTable, rand: &mut u32, out: &mut Vec<u16>) -> (ok: bool)
    requires
        vals@.len() <= 256,
        forall|k: int| 0 <= k < vals@.len() ==> -0x8000 < #[trigger] vals@[k] < 0x8000,
    ensures
        match k65_pixels(curve.entries(), vals@, 0, 0, 0, *old(rand)) {
            Some((px, r)) => ok && final(out)@ == old(out)@ + px && *final(rand) == r,
            None => !ok,
        },
{
    let ghost e = curve.entries();
    let ghost out0 = out@;
    let mut pred: [i32; 2] = [0; 2];
    let n = vals.len();
    for i in 0..n
        invariant
            n == vals@.len(),
            n <= 256,
            e == curve.entries(),
            forall|k: int| 0 <= k < vals@.len() ==> -0x8000 < #[trigger] vals@[k] < 0x8000,
            0 <= pred@[0] <= i * 0x8000,
            0 <= pred@[1] <= i * 0x8000,
            out@.len() >= out0.len(),
            k65_pixels(e, vals@, 0, 0, 0, *old(rand)) == pixels_after(
                out@.subrange(out0.len() as int, out@.len() as int),
                k65_pixels(e, vals@, i as int, pred@[0] as int, pred@[1] as int, *rand),
            ),
            out@.subrange(0, out0.len() as int) == out0,
    {
        let k = i % 2;
        let ghost before = out@.subrange(out0.len() as int, out@.len() as int);
        let ghost p0 = pred@[0] as int;
        let ghost p1 = pred@[1] as int;
        let ghost r0 = *rand;
        pred[k] = pred[k] + vals[i];
        let ghost p = (if i % 2 == 0 { p0 } else { p1 }) + vals@[i as int];
        assert(pred@[k as int] == p);
        if pred[k] < 0 {
            return false;
        }
        let value = (pred[k] as u32 % 0x1_0000) as u16;
        assert(value as int == p % 0x1_0000);
        if value as usize >= curve.len() {
            return false;
        }
        let px = curve.dither(value, rand);
        out.push(px);
        proof {
            let next = k65_pixels(e, vals@, i + 1, pred@[0] as int, pred@[1] as int, *rand);
            assert(k65_pixels(e, vals@, i as int, p0, p1, r0) == match next {
                Some((rest, r)) => Some((seq![px] + rest, r)),
                None => None::<(Seq<u16>, u32)>,
            });
            assert(out@.subrange(out0.len() as int, out@.len() as int) =~= before.push(px));
            assert(out@.subrange(0, out0.len() as int) =~= out0);
            match next {
                Some((rest, r)) => {
                    assert(before + (seq![px] + rest) =~= before.push(px) + rest);
                },
                None => {},
            }
        }
    }
    proof {
        assert(out@ =~= out0 + out@.subrange(out0.len() as int, out@.len() as int));
    }
    true
}


/// The number of values in the segment that starts at column `col` of a
/// `width`-wide row.
pub open spec fn k65_size(width: int, col: int) -> int {
    if width - col < 256 { width - col } else { 256 }
}

/// The segment at column `col`, read from byte `pos` with dither state
/// `rand`: its pixels, the position after it and the dither state after it.
pub open spec fn k65_segment(b: Seq<u8>, e: Seq<(u16, u16, u16)>, width: int, col: int, pos: int, rand: u32) -> Option<
    (Seq<u16>, int, u32),
> {
    match seg_decode(b, pos, k65_size(width, col)) {
        Some((vals, end)) => match k65_pixels(e, vals, 0, 0, 0, rand) {
            Some((px, r)) => Some((px, end, r)),
            None => None,
        },
        None => None,
    }
}

pub open spec fn row_after(done: Seq<u16>, rest: Option<(Seq<u16>, int, u32)>) -> Option<(Seq<u16>, int, u32)> {
    match rest {
        Some((px, end, r)) => Some((done + px, end, r)),
        None => None,
    }
}

/// The rest of a row from column `col` on, segment by segment.
pub open spec fn k65_row(b: Seq<u8>, e: Seq<(u16, u16, u16)>, width: int, col: int, pos: int, rand: u32) -> Option<
    (Seq<u16>, int, u32),
>
    decreases width - col,
{
    if col >= width {
        Some((Seq::empty(), pos, rand))
    } else {
        match k65_segment(b, e, width, col, pos, rand) {
            Some((px, end, r)) => row_after(px, k65_row(b, e, width, col + k65_size(width, col), end, r)),
            None => None,
        }
    }
}

pub open spec fn rows_after(done: Seq<u16>, rest: Option<Seq<u16>>) -> Option<Seq<u16>> {
    match rest {
        Some(px) => Some(done + px),
        None => None,
    }
}

/// `rows` rows of a `width`-wide image, read from byte `pos` with dither
/// state `rand`.
pub open spec fn k65_rows(b: Seq<u8>, e: Seq<(u16, u16, u16)>, width: int, rows: nat, pos: int, rand: u32) -> Option<
    Seq<u16>,
>
    decreases rows,
{
    if rows == 0 {
        Some(Seq::empty())
    } else {
        match k65_row(b, e, width, 0, pos, rand) {
            Some((px, end, r)) => rows_after(px, k65_rows(b, e, width, (rows - 1) as nat, end, r)),
            None => None,
        }
    }
}

pub open spec fn image_view(r: Option<Vec<u16>>) -> Option<Seq<u16>> {
    match r {
        Some(v) => Some(v@),
        None => None,
    }
}

/// Decode a `width` x `height` image in Kodak 65000 compression from `buf`,
/// mapping each predictor through `curve` with dithering: the pixels row by
/// row, or `None` where the data ends early, a predictor goes negative or a
/// predictor falls outside the curve.
pub fn decode_kodak65000(buf: &[u8], curve: &LookupTable, width: usize, height: usize) -> (r: Option<
    Vec<u16>,
>)
    ensures
        image_view(r) == k65_rows(buf@, curve.entries(), width as int, height as nat, 0, 0),
{
    let ghost b = buf@;
    let ghost e = curve.entries();
    let mut out: Vec<u16> = Vec::new();
    let mut input: usize = 0;
    let mut random: u32 = 0;
    for row in 0..height
        invariant
            b == buf@,
            e == curve.entries(),
            k65_rows(b, e, width as int, height as nat, 0, 0) == rows_after(
                out@,
                k65_rows(b, e, width as int, (height - row) as nat, input as int, random),
            ),
    {
        let ghost row_start = out@.len() as int;
        let ghost out_r = out@;
        let ghost pos_r = input as int;
        let ghost rand_r = random;
        let mut col: usize = 0;
        while col < width
            invariant
                b == buf@,
                e == curve.entries(),
                col <= width,
                row < height,
                k65_rows(b, e, width as int, height as nat, 0, 0) == rows_after(
                    out_r,
                    k65_rows(b, e, width as int, (height - row) as nat, pos_r, rand_r),
                ),
                row_start == out_r.len(),
                out@.len() >= row_start,
                out@.subrange(0, row_start) == out_r,
                k65_row(b, e, width as int, 0, pos_r, rand_r) == row_after(
                    out@.subrange(row_start, out@.len() as int),
                    k65_row(b, e, width as int, col as int, input as int, random),
                ),
            decreases width - col,
        {
            let size = if width - col < 256 { width - col } else { 256 };
            let ghost done = out@.subrange(row_start, out@.len() as int);
            let ghost out0 = out@;
            let ghost pos0 = input as int;
            let ghost rand0 = random;
            match decode_segment(buf, input, size) {
                None => {
                    proof {
                        assert(k65_rows(b, e, width as int, (height - row) as nat, pos_r, rand_r) is None);
                    }
                    return None;
                },
                Some((vals, end)) => {
                    proof {
                        lemma_seg_values_bounded(
                            b,
                            pos0,
                            size as int,
                            0,
                            if seg_has_prefix(size as int) { pos0 + (size + 1) / 2 + 2 } else { pos0 + (
                            size + 1) / 2 },
                            if seg_has_prefix(size as int) { b[pos0 + (size + 1) / 2] * 0x100 + b[pos0 + (size
                                + 1) / 2 + 1] } else { 0 },
                            if seg_has_prefix(size as int) { 16 } else { 0 },
                        );
                    }
                    if !dither_segment(&vals, curve, &mut random, &mut out) {
                        proof {
                            assert(k65_rows(b, e, width as int, (height - row) as nat, pos_r, rand_r) is None);
                        }
                        return None;
                    }
                    input = end;
                    proof {
                        let px = out@.subrange(out0.len() as int, out@.len() as int);
                        assert(out@ =~= out0 + px);
                        assert(k65_segment(b, e, width as int, col as int, pos0, rand0) == Some(
                            (px, input as int, random),
                        ));
                        let next = k65_row(b, e, width as int, col + size, input as int, random);
                        assert(out@.subrange(0, row_start) =~= out_r);
                        assert(out@.subrange(row_start, out@.len() as int) =~= done + px);
                        match next {
                            Some((rest, end2, r2)) => {
                                assert(done + (px + rest) =~= (done + px) + rest);
                            },
                            None => {},
                        }
                    }
                    col = col + size;
                },
            }
        }
        proof {
            let px = out@.subrange(row_start, out@.len() as int);
            assert(out@ =~= out_r + px);
            let next = k65_rows(b, e, width as int, (height - row - 1) as nat, input as int, random);
            assert(k65_rows(b, e, width as int, (height - row) as nat, pos_r, rand_r) == rows_after(px, next));
            match next {
                Some(rest) => {
                    assert(out_r + (px + rest) =~= (out_r + px) + rest);
                },
                None => {},
            }
        }
    }
    proof {
        assert(out@ + Seq::<u16>::empty() =~= out@);
    }
    Some(out)
}

} // verus!
