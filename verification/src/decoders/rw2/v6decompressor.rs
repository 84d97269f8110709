//! Panasonic V6 compression: each 16-byte block holds 14 pixels of 12 bits
//! or 11 pixels of 14 bits, as delta-coded fields with a 2-bit scale
//! before every third pixel. This module turns the unpacked fields of a
//! block into its pixels.

use vstd::prelude::*;
use vstd::arithmetic::power2::pow2;

verus! {

/// The constants of V6 blocks of one bit depth.
#[derive(Clone, Copy, Debug, PartialEq, Eq, Structural)]
pub struct V6Format {
    pub pixels_per_block: usize,
    pub pixelbase0: u16,
    pub pixelbase_compare: u16,
    pub spix_compare: i32,
    pub pixel_mask: u16,
}

/// The block constants of bit depth 12 or 14.
pub open spec fn v6_format_spec(bps: u32) -> V6Format {
    if bps == 12 {
        V6Format {
            pixels_per_block: 14,
            pixelbase0: 0x80,
            pixelbase_compare: 0x800,
            spix_compare: 0x3fff,
            pixel_mask: 0xfff,
        }
    } else {
        V6Format {
            pixels_per_block: 11,
            pixelbase0: 0x200,
            pixelbase_compare: 0x2000,
            spix_compare: 0xffff,
            pixel_mask: 0x3fff,
        }
    }
}

/// The block constants of bit depth `bps` (12 or 14).
pub fn v6_format(bps: u32) -> (r: V6Format)
    requires
        bps == 12 || bps == 14,
    ensures
        r == v6_format_spec(bps),
{
    if bps == 12 {
        V6Format {
            pixels_per_block: 14,
            pixelbase0: 0x80,
            pixelbase_compare: 0x800,
            spix_compare: 0x3fff,
            pixel_mask: 0xfff,
        }
    } else {
        V6Format {
            pixels_per_block: 11,
            pixelbase0: 0x200,
            pixelbase_compare: 0x2000,
            spix_compare: 0xffff,
            pixel_mask: 0x3fff,
        }
    }
}

/// The decoder's state between two pixels of a block: the next field, per
/// pixel parity the first value and the last nonzero value, and the
/// current scale and base.
pub struct V6State {
    pub cur: int,
    pub oddeven: (u16, u16),
    pub nonzero: (u16, u16),
    pub pmul: u16,
    pub pixel_base: u16,
}

/// The output of a decoded value `e`: `e - 15` kept to the bits of
/// `spix_compare` where it is at most that, else the pixel mask.
pub open spec fn v6_out(e: int, f: V6Format) -> u16 {
    if e - 15 <= f.spix_compare {
        (((e - 15) as i32) & f.spix_compare) as u16
    } else {
        f.pixel_mask
    }
}

/// Pixel `pix` of a block from its fields `pb`. Every third pixel first
/// takes a scale code `b` (3 meaning 4) that sets the scale to 2^b and the
/// base to `pixelbase0 << b`. The first value of a parity is taken as it is
/// (a zero repeats the last nonzero one); later values are scaled and, where
/// the base is below `pixelbase_compare` and the last nonzero value above
/// it, raised by their difference. None where a value leaves 16 bits.
pub open spec fn v6_pixel(pb: Seq<u16>, f: V6Format, s: V6State, pix: int) -> Option<(V6State, u16)> {
    let s1 = if pix % 3 == 2 {
        let b = if pb[s.cur] == 3 { 4 } else { pb[s.cur] as int };
        V6State {
            cur: s.cur + 1,
            oddeven: s.oddeven,
            nonzero: s.nonzero,
            pmul: pow2(b as nat) as u16,
            pixel_base: (f.pixelbase0 * pow2(b as nat)) as u16,
        }
    } else {
        s
    };
    let e0 = pb[s1.cur];
    let k = pix % 2;
    let oddeven = if k == 0 { s1.oddeven.0 } else { s1.oddeven.1 };
    let nonzero = if k == 0 { s1.nonzero.0 } else { s1.nonzero.1 };
    let cur = s1.cur + 1;
    if oddeven != 0 {
        let e1 = e0 * s1.pmul;
        let e2 = if s1.pixel_base < f.pixelbase_compare && nonzero > s1.pixel_base {
            e1 + nonzero - s1.pixel_base
        } else {
            e1
        };
        if e1 > 0xffff || e2 > 0xffff {
            None
        } else {
            Some(
                (
                    V6State {
                        cur,
                        oddeven: s1.oddeven,
                        nonzero: if k == 0 { (e2 as u16, s1.nonzero.1) } else { (s1.nonzero.0, e2 as u16) },
                        pmul: s1.pmul,
                        pixel_base: s1.pixel_base,
                    },
                    v6_out(e2, f),
                ),
            )
        }
    } else {
        let nz = if e0 != 0 { e0 } else { nonzero };
        Some(
            (
                V6State {
                    cur,
                    oddeven: if k == 0 { (e0, s1.oddeven.1) } else { (s1.oddeven.0, e0) },
                    nonzero: if k == 0 { (nz, s1.nonzero.1) } else { (s1.nonzero.0, nz) },
                    pmul: s1.pmul,
                    pixel_base: s1.pixel_base,
                },
                v6_out(nz as int, f),
            ),
        )
    }
}

/// Pixels `pix` to the end of the block, appended to `acc`.
pub open spec fn v6_pixels_from(pb: Seq<u16>, f: V6Format, s: V6State, pix: int, acc: Seq<u16>) -> Option<Seq<u16>>
    decreases f.pixels_per_block - pix,
{
    if pix >= f.pixels_per_block {
        Some(acc)
    } else {
        match v6_pixel(pb, f, s, pix) {
            None => None,
            Some((s2, px)) => v6_pixels_from(pb, f, s2, pix + 1, acc.push(px)),
        }
    }
}

/// The pixels of a block from its 18 fields, in the order the fields are
/// taken; none where a value leaves 16 bits.
pub open spec fn v6_block(pb: Seq<u16>, bps: u32) -> Option<Seq<u16>> {
    v6_pixels_from(
        pb,
        v6_format_spec(bps),
        V6State { cur: 0, oddeven: (0u16, 0u16), nonzero: (0u16, 0u16), pmul: 0u16, pixel_base: 0u16 },
        0,
        Seq::empty(),
    )
}

/// The fields of a block as its bit stream gives them: every scale code
/// (each fourth field from the third on) has 2 bits.
pub open spec fn v6_fields_ok(pb: Seq<u16>) -> bool {
    &&& pb.len() == 18
    &&& forall|j: int| 0 <= j < 18 && j % 4 == 2 ==> #[trigger] pb[j] <= 3
}

proof fn v6_bits(e: i32)
    by (bit_vector)
    ensures
        15 <= e <= 0xffff ==> ((((e as int) + 0x7ffffff1 - 0x1_0000_0000) as i32) >> 31u32) == -1i32,
        ((-1i32) as u16) == 0xffffu16,
        0xffffu16 & 0xfffu16 == 0xfffu16,
        0xffffu16 & 0x3fffu16 == 0x3fffu16,
{
}

/// The output of a decoded value, as the block format computes it.
fn v6_output(epixel: u16, f: V6Format) -> (r: u16)
    requires
        f.spix_compare == 0x3fff && f.pixel_mask == 0xfff || f.spix_compare == 0xffff && f.pixel_mask
            == 0x3fff,
    ensures
        r == v6_out(epixel as int, f),
{
    let spix: i32 = (epixel as i32).wrapping_sub(0xf);
    if spix <= f.spix_compare {
        (spix & f.spix_compare) as u16
    } else {
        proof {
            v6_bits(epixel as i32);
        }
        let wrapped: u16 = ((epixel as i32).wrapping_add(0x7ffffff1) >> 31u32) as u16;
        wrapped & f.pixel_mask
    }
}

/// The pixels of a Panasonic V6 block of bit depth `bps` (12 or 14) from its
/// 18 unpacked fields; none where a value would leave 16 bits.
pub fn panasonic_v6_block_pixels(pixelbuffer: &[u16], bps: u32) -> (r: Option<Vec<u16>>)
    requires
        bps == 12 || bps == 14,
        v6_fields_ok(pixelbuffer@),
    ensures
        r is None ==> v6_block(pixelbuffer@, bps) is None,
        r matches Some(px) ==> v6_block(pixelbuffer@, bps) == Some(px@),
{
    let f = v6_format(bps);
    let ghost pb = pixelbuffer@;
    let mut out: Vec<u16> = Vec::new();
    let mut cur: usize = 0;
    let mut oddeven0: u16 = 0;
    let mut oddeven1: u16 = 0;
    let mut nonzero0: u16 = 0;
    let mut nonzero1: u16 = 0;
    let mut pmul: u16 = 0;
    let mut pixel_base: u16 = 0;
    proof {
        vstd::arithmetic::power2::lemma2_to64();
    }
    for pix in 0..f.pixels_per_block
        invariant
            f == v6_format_spec(bps),
            bps == 12 || bps == 14,
            v6_fields_ok(pb),
            pb == pixelbuffer@,
            cur == pix + pix / 3,
            v6_block(pb, bps) == v6_pixels_from(
                pb,
                f,
                V6State {
                    cur: cur as int,
                    oddeven: (oddeven0, oddeven1),
                    nonzero: (nonzero0, nonzero1),
                    pmul,
                    pixel_base,
                },
                pix as int,
                out@,
            ),
    {
        proof {
            vstd::arithmetic::power2::lemma2_to64();
        }
        let ghost s = V6State {
            cur: cur as int,
            oddeven: (oddeven0, oddeven1),
            nonzero: (nonzero0, nonzero1),
            pmul,
            pixel_base,
        };
        if pix % 3 == 2 {
            assert(cur % 4 == 2);
            let mut base: u16 = pixelbuffer[cur];
            cur += 1;
            if base == 3 {
                base = 4;
            }
            proof {
                vstd::bits::lemma_u16_shl_is_mul(f.pixelbase0, base);
                vstd::bits::lemma_u16_shl_is_mul(1, base);
            }
            pixel_base = f.pixelbase0 << base;
            pmul = 1u16 << base;
        }
        let ghost s1 = V6State {
            cur: cur as int,
            oddeven: (oddeven0, oddeven1),
            nonzero: (nonzero0, nonzero1),
            pmul,
            pixel_base,
        };
        assert(s1 == if pix % 3 == 2 {
            let b = if pb[s.cur] == 3 { 4 } else { pb[s.cur] as int };
            V6State {
                cur: s.cur + 1,
                oddeven: s.oddeven,
                nonzero: s.nonzero,
                pmul: pow2(b as nat) as u16,
                pixel_base: (f.pixelbase0 * pow2(b as nat)) as u16,
            }
        } else {
            s
        });
        let e0: u16 = pixelbuffer[cur];
        cur += 1;
        let k = pix % 2;
        let oddeven: u16 = if k == 0 { oddeven0 } else { oddeven1 };
        let nonzero: u16 = if k == 0 { nonzero0 } else { nonzero1 };
        let epixel: u16;
        if oddeven != 0 {
            assert(e0 as u32 * pmul as u32 <= 0xffff * 0xffff) by (nonlinear_arith)
                requires
                    e0 <= 0xffff,
                    pmul <= 0xffff,
            ;
            let prod: u32 = e0 as u32 * pmul as u32;
            if prod > 0xffff {
                return None;
            }
            let mut e: u16 = prod as u16;
            if pixel_base < f.pixelbase_compare && nonzero > pixel_base {
                if e as u32 + (nonzero - pixel_base) as u32 > 0xffff {
                    return None;
                }
                e = e + (nonzero - pixel_base);
            }
            if k == 0 {
                nonzero0 = e;
            } else {
                nonzero1 = e;
            }
            epixel = e;
        } else {
            if k == 0 {
                oddeven0 = e0;
            } else {
                oddeven1 = e0;
            }
            if e0 != 0 {
                if k == 0 {
                    nonzero0 = e0;
                } else {
                    nonzero1 = e0;
                }
                epixel = e0;
            } else {
                epixel = nonzero;
            }
        }
        let px = v6_output(epixel, f);
        assert(v6_pixel(pb, f, s, pix as int) == Some(
            (
                V6State {
                    cur: cur as int,
                    oddeven: (oddeven0, oddeven1),
                    nonzero: (nonzero0, nonzero1),
                    pmul,
                    pixel_base,
                },
                px,
            ),
        ));
        out.push(px);
    }
    Some(out)
}


/// The little-endian value of the first `k` bytes of `b`.
pub open spec fn le_value(b: Seq<u8>, k: nat) -> nat
    decreases k,
{
    if k == 0 {
        0
    } else {
        le_value(b, (k - 1) as nat) + b[k - 1] as nat * pow2((8 * (k - 1)) as nat)
    }
}

/// The `len` bits from bit `off` on of a 16-byte block read as one
/// little-endian number (the order the block's bit stream is read in).
pub open spec fn field_at(b: Seq<u8>, off: nat, len: nat) -> u16 {
    ((le_value(b, 16) / pow2(off)) % pow2(len)) as u16
}

/// The 18 fields of a V6 block as its bit stream gives them: read from the
/// lowest bit, the fields come from the last to the first (a 14-bit block
/// starts with 4 bits of padding and leaves the last four fields 0).
pub open spec fn v6_unpacked(b: Seq<u8>, bps: u32) -> Seq<u16> {
    Seq::new(
        18,
        |j: int|
            if bps == 14 {
        if j == 0 {
            field_at(b, 114, 14)
        } else if j == 1 {
            field_at(b, 100, 14)
        } else if j == 2 {
            field_at(b, 98, 2)
        } else if j == 3 {
            field_at(b, 88, 10)
        } else if j == 4 {
            field_at(b, 78, 10)
        } else if j == 5 {
            field_at(b, 68, 10)
        } else if j == 6 {
            field_at(b, 66, 2)
        } else if j == 7 {
            field_at(b, 56, 10)
        } else if j == 8 {
            field_at(b, 46, 10)
        } else if j == 9 {
            field_at(b, 36, 10)
        } else if j == 10 {
            field_at(b, 34, 2)
        } else if j == 11 {
            field_at(b, 24, 10)
        } else if j == 12 {
            field_at(b, 14, 10)
        } else if j == 13 {
            field_at(b, 4, 10)
        } else {
            0
        }
            } else {
        if j == 0 {
            field_at(b, 116, 12)
        } else if j == 1 {
            field_at(b, 104, 12)
        } else if j == 2 {
            field_at(b, 102, 2)
        } else if j == 3 {
            field_at(b, 94, 8)
        } else if j == 4 {
            field_at(b, 86, 8)
        } else if j == 5 {
            field_at(b, 78, 8)
        } else if j == 6 {
            field_at(b, 76, 2)
        } else if j == 7 {
            field_at(b, 68, 8)
        } else if j == 8 {
            field_at(b, 60, 8)
        } else if j == 9 {
            field_at(b, 52, 8)
        } else if j == 10 {
            field_at(b, 50, 2)
        } else if j == 11 {
            field_at(b, 42, 8)
        } else if j == 12 {
            field_at(b, 34, 8)
        } else if j == 13 {
            field_at(b, 26, 8)
        } else if j == 14 {
            field_at(b, 24, 2)
        } else if j == 15 {
            field_at(b, 16, 8)
        } else if j == 16 {
            field_at(b, 8, 8)
        } else if j == 17 {
            field_at(b, 0, 8)
        } else {
            0
        }
            },
    )
}

proof fn lemma_le_value_bound(b: Seq<u8>, k: nat)
    requires
        k <= b.len(),
    ensures
        le_value(b, k) < pow2((8 * k) as nat),
    decreases k,
{
    vstd::arithmetic::power2::lemma2_to64();
    if k > 0 {
        lemma_le_value_bound(b, (k - 1) as nat);
        vstd::arithmetic::power2::lemma_pow2_adds((8 * (k - 1)) as nat, 8);
        vstd::arithmetic::power2::lemma2_to64();
        assert(le_value(b, k) < pow2((8 * k) as nat)) by (nonlinear_arith)
            requires
                le_value(b, k) == le_value(b, (k - 1) as nat) + b[k - 1] as nat * pow2((8 * (k - 1)) as nat),
                le_value(b, (k - 1) as nat) < pow2((8 * (k - 1)) as nat),
                b[k - 1] < 256,
                pow2((8 * (k - 1)) as nat) * pow2(8) == pow2((8 * k) as nat),
                pow2(8) == 256,
        ;
    }
}

/// The 16 bytes of `block` from `pos` on as one little-endian number.
fn block_value(b: &[u8], pos: usize) -> (n: u128)
    requires
        pos + 16 <= b@.len(),
    ensures
        n as nat == le_value(b@.subrange(pos as int, pos + 16), 16),
{
    let ghost blk = b@.subrange(pos as int, pos + 16);
    let mut n: u128 = 0;
    let mut p: u128 = 1;
    let bl = b.len();
    proof {
        vstd::arithmetic::power2::lemma2_to64();
    }
    for k in 0..16usize
        invariant
            pos + 16 <= b@.len(),
            bl == b@.len(),
            blk == b@.subrange(pos as int, pos + 16),
            k < 16 ==> p as nat == pow2((8 * k) as nat),
            n as nat == le_value(blk, k as nat),
            (n as nat) < pow2((8 * k) as nat),
    {
        proof {
            vstd::arithmetic::power2::lemma_pow2_adds((8 * k) as nat, 8);
            vstd::arithmetic::power2::lemma2_to64();
            if k < 15 {
                vstd::arithmetic::power2::lemma_pow2_strictly_increases((8 * k + 8) as nat, 128);
            }
            lemma_pow2_128();
            assert(n + b@[pos + k] as int * p as int <= pow2((8 * k + 8) as nat) - 1) by (nonlinear_arith)
                requires
                    n < p,
                    b@[pos + k] < 256,
                    p * 256 == pow2((8 * k + 8) as nat),
            ;
        }
        n = n + (b[pos + k] as u128) * p;
        if k < 15 {
            p = p * 256;
        }
    }
    n
}

proof fn lemma_pow2_128()
    ensures
        pow2(128) == 0x1_0000_0000_0000_0000_0000_0000_0000_0000,
{
    vstd::arithmetic::power2::lemma2_to64();
    vstd::arithmetic::power2::lemma_pow2_adds(64, 64);
}

/// Bits `off ..` of `n`, modulo `m` (a power of two).
fn bits_at(n: u128, off: u128, m: u128) -> (r: u16)
    requires
        off < 128,
        0 < m <= 0x1_0000,
    ensures
        r as int == (n as int / pow2(off as nat) as int) % m as int,
{
    proof {
        vstd::bits::lemma_u128_shr_is_div(n, off);
    }
    ((n >> off) % m) as u16
}

/// Unpack the 18 fields of the 16-byte V6 block at `pos` of `b`.
pub fn v6_unpack_block(b: &[u8], pos: usize, bps: u32) -> (pb: Vec<u16>)
    requires
        pos + 16 <= b@.len(),
        bps == 12 || bps == 14,
    ensures
        pb@ == v6_unpacked(b@.subrange(pos as int, pos + 16), bps),
{
    let ghost blk = b@.subrange(pos as int, pos + 16);
    let n = block_value(b, pos);
    proof {
        vstd::arithmetic::power2::lemma2_to64();
    }
    let mut pb: Vec<u16> = Vec::new();
    for k in 0..18usize
        invariant
            pb@.len() == k,
            forall|i: int| 0 <= i < k ==> pb@[i] == 0,
    {
        pb.push(0);
    }
    if bps == 14 {
        pb.set(13, bits_at(n, 4, 1024));
        pb.set(12, bits_at(n, 14, 1024));
        pb.set(11, bits_at(n, 24, 1024));
        pb.set(10, bits_at(n, 34, 4));
        pb.set(9, bits_at(n, 36, 1024));
        pb.set(8, bits_at(n, 46, 1024));
        pb.set(7, bits_at(n, 56, 1024));
        pb.set(6, bits_at(n, 66, 4));
        pb.set(5, bits_at(n, 68, 1024));
        pb.set(4, bits_at(n, 78, 1024));
        pb.set(3, bits_at(n, 88, 1024));
        pb.set(2, bits_at(n, 98, 4));
        pb.set(1, bits_at(n, 100, 16384));
        pb.set(0, bits_at(n, 114, 16384));
    } else {
        pb.set(17, bits_at(n, 0, 256));
        pb.set(16, bits_at(n, 8, 256));
        pb.set(15, bits_at(n, 16, 256));
        pb.set(14, bits_at(n, 24, 4));
        pb.set(13, bits_at(n, 26, 256));
        pb.set(12, bits_at(n, 34, 256));
        pb.set(11, bits_at(n, 42, 256));
        pb.set(10, bits_at(n, 50, 4));
        pb.set(9, bits_at(n, 52, 256));
        pb.set(8, bits_at(n, 60, 256));
        pb.set(7, bits_at(n, 68, 256));
        pb.set(6, bits_at(n, 76, 4));
        pb.set(5, bits_at(n, 78, 256));
        pb.set(4, bits_at(n, 86, 256));
        pb.set(3, bits_at(n, 94, 256));
        pb.set(2, bits_at(n, 102, 4));
        pb.set(1, bits_at(n, 104, 4096));
        pb.set(0, bits_at(n, 116, 4096));
    }
    assert(pb@ =~= v6_unpacked(blk, bps));
    pb
}


/// The unpacked fields of a block give 2-bit scale codes.
proof fn lemma_unpacked_fields_ok(b: Seq<u8>, bps: u32)
    requires
        bps == 12 || bps == 14,
    ensures
        v6_fields_ok(v6_unpacked(b, bps)),
{
    vstd::arithmetic::power2::lemma2_to64();
    let pb = v6_unpacked(b, bps);
    assert forall|j: int| 0 <= j < 18 && j % 4 == 2 implies #[trigger] pb[j] <= 3 by {
        let v = le_value(b, 16);
        if !(bps == 14 && j == 14) {
            let off: nat = if bps == 14 {
                if j == 2 { 98 } else if j == 6 { 66 } else { 34 }
            } else {
                if j == 2 { 102 } else if j == 6 { 76 } else if j == 10 { 50 } else { 24 }
            };
            assert(pb[j] == field_at(b, off, 2));
            vstd::arithmetic::power2::lemma_pow2_pos(off);
            assert(pow2(2) == 4);
            vstd::arithmetic::div_mod::lemma_mod_pos_bound((v / pow2(off)) as int, 4);
        }
    }
}

/// The pixels of the blocks `t..total` of a V6 image, each 16 bytes, one
/// after the other; `None` where a block's values overflow.
pub open spec fn v6_image_from(buf: Seq<u8>, bps: u32, t: int, total: int) -> Option<Seq<u16>>
    decreases total - t,
{
    if t >= total {
        Some(Seq::empty())
    } else {
        match v6_block(v6_unpacked(buf.subrange(16 * t, 16 * t + 16), bps), bps) {
            Some(px) => match v6_image_from(buf, bps, t + 1, total) {
                Some(rest) => Some(px + rest),
                None => None,
            },
            None => None,
        }
    }
}

pub open spec fn v6_image_after(done: Seq<u16>, rest: Option<Seq<u16>>) -> Option<Seq<u16>> {
    match rest {
        Some(r) => Some(done + r),
        None => None,
    }
}

pub open spec fn pixels_view(r: Option<Vec<u16>>) -> Option<Seq<u16>> {
    match r {
        Some(v) => Some(v@),
        None => None,
    }
}

/// Decode a Panasonic V6 image of `width` x `height` pixels: each row is
/// made of blocks of 16 bytes, each giving 14 (12-bit) or 11 (14-bit)
/// pixels; `None` where a block's values overflow 16 bits.
pub fn decode_panasonic_v6(buf: &[u8], width: usize, height: usize, bps: u32) -> (r: Option<Vec<u16>>)
    requires
        bps == 12 || bps == 14,
        width % v6_format_spec(bps).pixels_per_block == 0,
        height * (width / v6_format_spec(bps).pixels_per_block) * 16 <= buf@.len(),
    ensures
        pixels_view(r) == v6_image_from(
            buf@,
            bps,
            0,
            height * (width / v6_format_spec(bps).pixels_per_block) as int,
        ),
{
    let f = v6_format(bps);
    let bpr = width / f.pixels_per_block;
    let ghost total = height * bpr;
    let bl = buf.len();
    assert(height * bpr * 16 == 16 * (height * bpr) && height * bpr <= 16 * (height * bpr)) by (nonlinear_arith);
    let total_blocks = height * bpr;
    let mut out: Vec<u16> = Vec::new();
    for t in 0..total_blocks
        invariant
            bps == 12 || bps == 14,
            total_blocks == total,
            total == height * (width / v6_format_spec(bps).pixels_per_block) as int,
            16 * total <= buf@.len(),
            bl == buf@.len(),
            v6_image_from(buf@, bps, 0, total) == v6_image_after(out@, v6_image_from(buf@, bps, t as int, total)),
    {
        let pb = v6_unpack_block(buf, 16 * t, bps);
        proof {
            lemma_unpacked_fields_ok(buf@.subrange(16 * t, 16 * t + 16), bps);
        }
        let ghost before = out@;
        match panasonic_v6_block_pixels(pb.as_slice(), bps) {
            None => {
                proof {
                    assert(v6_image_from(buf@, bps, t as int, total) is None);
                }
                return None;
            },
            Some(px) => {
                let mut px = px;
                let ghost pxv = px@;
                out.append(&mut px);
                proof {
                    match v6_image_from(buf@, bps, t + 1, total) {
                        Some(rest) => {
                            assert(before + (pxv + rest) =~= out@ + rest);
                        },
                        None => {},
                    }
                }
            },
        }
    }
    proof {
        assert(out@ + Seq::<u16>::empty() =~= out@);
    }
    Some(out)
}

} // verus!
