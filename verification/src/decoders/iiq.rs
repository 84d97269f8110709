//! Phase One IIQ: the compression codes, uncompressed data and the sensor
//! corrections that work on whole numbers.

pub mod calibration;
pub mod makernote;

use vstd::prelude::*;
use crate::bits::{abs_i32, le_u16, pow2, spec_clamp, LEu16};

verus! {

/// The compression of the raw data of an IIQ file.
#[derive(Debug, Copy, Clone, PartialEq, Eq, Structural)]
#[allow(non_camel_case_types)]
pub enum IiqCompression {
    Uncompressed,
    Raw1,
    Raw2,
    /// L14.
    IIQ_L,
    /// Like L14 but with non-linear data that a curve maps back.
    IIQ_S,
    /// "IIQ 14 Smart" and "IIQ 14 Sensor+".
    IIQ_Sv2,
    /// "IIQ 16 Extended" and "IIQ 16 Large".
    IIQ_L16,
}

pub open spec fn spec_iiq_compression(v: usize) -> Option<IiqCompression> {
    if v == 0 {
        Some(IiqCompression::Uncompressed)
    } else if v == 1 {
        Some(IiqCompression::Raw1)
    } else if v == 2 {
        Some(IiqCompression::Raw2)
    } else if v == 3 {
        Some(IiqCompression::IIQ_L)
    } else if v == 5 {
        Some(IiqCompression::IIQ_S)
    } else if v == 6 {
        Some(IiqCompression::IIQ_Sv2)
    } else if v == 8 {
        Some(IiqCompression::IIQ_L16)
    } else {
        None
    }
}

impl IiqCompression {
    /// The compression with the format code `v`; `None` for an unsupported
    /// format.
    pub fn from_code(v: usize) -> (r: Option<IiqCompression>)
        ensures
            r == spec_iiq_compression(v),
    {
        match v {
            0 => Some(Self::Uncompressed),
            1 => Some(Self::Raw1),
            2 => Some(Self::Raw2),
            3 => Some(Self::IIQ_L),
            5 => Some(Self::IIQ_S),
            6 => Some(Self::IIQ_Sv2),
            8 => Some(Self::IIQ_L16),
            _ => None,
        }
    }
}

/// The IIQ format codes: 0 uncompressed, 1 and 2 raw, 3 L14, 5 S, 6 Sv2,
/// 8 L16; no other code names a compression.
pub proof fn lemma_iiq_compression_table(v: usize)
    ensures
        spec_iiq_compression(0) == Some(IiqCompression::Uncompressed),
        spec_iiq_compression(1) == Some(IiqCompression::Raw1),
        spec_iiq_compression(2) == Some(IiqCompression::Raw2),
        spec_iiq_compression(3) == Some(IiqCompression::IIQ_L),
        spec_iiq_compression(5) == Some(IiqCompression::IIQ_S),
        spec_iiq_compression(6) == Some(IiqCompression::IIQ_Sv2),
        spec_iiq_compression(8) == Some(IiqCompression::IIQ_L16),
        (v == 4 || v == 7 || v > 8) ==> spec_iiq_compression(v) is None,
{
}

/// Pixel (`row`, `col`) of uncompressed `bits`-bit data: a little-endian
/// 16-bit word, shifted up to 16 bits (losing what does not fit).
pub open spec fn iiq_uncompressed_pixel(buf: Seq<u8>, width: int, bits: int, row: int, col: int) -> int {
    (le_u16(buf, row * width * 2 + col * 2) * pow2((16 - bits) as nat)) % 0x1_0000
}

/// Decode uncompressed `bits`-bit IIQ data of `width` x `height` pixels.
pub fn decode_uncompressed(buffer: &[u8], width: usize, height: usize, bits: u8) -> (out: Vec<u16>)
    requires
        1 <= bits <= 16,
        width * height * 2 <= buffer@.len(),
    ensures
        out@.len() == width * height,
        forall|row: int, col: int|
            0 <= row < height && 0 <= col < width ==> #[trigger] out@[row * width + col]
                == iiq_uncompressed_pixel(buffer@, width as int, bits as int, row, col),
{
    let value_shift: u32 = 16 - bits as u32;
    let blen = buffer.len();
    let mut out: Vec<u16> = Vec::new();
    proof {
        vstd::arithmetic::power2::lemma2_to64();
        assert(0 * width == 0) by (nonlinear_arith);
    }
    for row in 0..height
        invariant
            1 <= bits <= 16,
            value_shift == 16 - bits,
            width * height * 2 <= buffer@.len(),
            blen == buffer@.len(),
            out@.len() == row * width,
            forall|r: int, c: int|
                0 <= r < row && 0 <= c < width ==> #[trigger] out@[r * width + c] == iiq_uncompressed_pixel(
                    buffer@,
                    width as int,
                    bits as int,
                    r,
                    c,
                ),
    {
        assert((row + 1) * width * 2 <= width * height * 2) by (nonlinear_arith)
            requires
                row < height,
        ;
        assert(row * (width * 2) == row * width * 2 && (row + 1) * width * 2 == row * width * 2 + width
            * 2) by (nonlinear_arith);
        assert(width * 2 <= (row + 1) * width * 2) by (nonlinear_arith);
        let ghost out_row = out@;
        for i in 0..width
            invariant
                1 <= bits <= 16,
                value_shift == 16 - bits,
                (row + 1) * width * 2 <= buffer@.len(),
                blen == buffer@.len(),
                width * 2 <= blen,
                row * (width * 2) == row * width * 2,
                (row + 1) * width * 2 == row * width * 2 + width * 2,
                out@.len() == row * width + i,
                forall|k: int| 0 <= k < row * width ==> #[trigger] out@[k] == out_row[k],
                forall|c: int|
                    0 <= c < i ==> #[trigger] out@[row * width + c] == iiq_uncompressed_pixel(
                        buffer@,
                        width as int,
                        bits as int,
                        row as int,
                        c,
                    ),
        {
            let w = LEu16(buffer, row * (width * 2) + i * 2);
            proof {
                vstd::arithmetic::power2::lemma2_to64();
                assert((w << value_shift) as int == (w as int * pow2(value_shift as nat)) % 0x1_0000) by {
                    lemma_u16_shl_mod(w, value_shift);
                }
            }
            out.push(w << value_shift);
        }
        proof {
            assert forall|r: int, c: int|
                0 <= r < row + 1 && 0 <= c < width implies #[trigger] out@[r * width + c]
                    == iiq_uncompressed_pixel(buffer@, width as int, bits as int, r, c) by {
                if r < row {
                    assert(r * width + c < row * width) by (nonlinear_arith)
                        requires
                            r < row,
                            c < width,
                    ;
                    assert(out@[r * width + c] == out_row[r * width + c]);
                }
            }
            assert((row + 1) * width == row * width + width) by (nonlinear_arith);
        }
    }
    proof {
        assert(height * width == width * height) by (nonlinear_arith);
    }
    out
}


/// Pixel (`row`, `col`) after the black level `black` is taken off and the
/// column and row black levels of its quadrant are added: `cblack` holds
/// two levels per row (left and right of `split_col`), `rblack` two per
/// column (above and below `split_row`).
pub open spec fn q_black_pixel(
    pix: int,
    black: int,
    cblack: Seq<i16>,
    rblack: Seq<i16>,
    split_col: int,
    split_row: int,
    row: int,
    col: int,
) -> u16 {
    let qr = if row >= split_row { 1int } else { 0 };
    let qc = if col >= split_col { 1int } else { 0 };
    spec_clamp(pix - black + cblack[row * 2 + qc] + rblack[col * 2 + qr], 0, 0xffff) as u16
}

/// Remove the black level from a `width` x `height` image, correcting it
/// per row and column and per quadrant of the sensor.
pub fn correct_raw_blacklevel(
    img: &mut Vec<u16>,
    width: usize,
    height: usize,
    black: u16,
    split_col: usize,
    split_row: usize,
    cblack: &[i16],
    rblack: &[i16],
)
    requires
        old(img)@.len() == width * height,
        cblack@.len() == 2 * height,
        rblack@.len() == 2 * width,
    ensures
        final(img)@.len() == old(img)@.len(),
        forall|row: int, col: int|
            0 <= row < height && 0 <= col < width ==> #[trigger] final(img)@[row * width + col]
                == q_black_pixel(
                old(img)@[row * width + col] as int,
                black as int,
                cblack@,
                rblack@,
                split_col as int,
                split_row as int,
                row,
                col,
            ),
{
    let ghost orig = img@;
    let len = img.len();
    let clen = cblack.len();
    let rlen = rblack.len();
    let black = black as i32;
    proof {
        assert(0 * width == 0) by (nonlinear_arith);
    }
    for row in 0..height
        invariant
            len == img@.len(),
            len == orig.len(),
            len == width * height,
            cblack@.len() == 2 * height,
            rblack@.len() == 2 * width,
            clen == cblack@.len(),
            rlen == rblack@.len(),
            0 <= black <= 0xffff,
            forall|k: int| row * width <= k < len ==> #[trigger] img@[k] == orig[k],
            forall|r: int, c: int|
                0 <= r < row && 0 <= c < width ==> #[trigger] img@[r * width + c] == q_black_pixel(
                    orig[r * width + c] as int,
                    black as int,
                    cblack@,
                    rblack@,
                    split_col as int,
                    split_row as int,
                    r,
                    c,
                ),
    {
        assert((row + 1) * width <= width * height && (row + 1) * width == row * width + width)
            by (nonlinear_arith)
            requires
                row < height,
        ;
        let base = row * width;
        let qr: usize = if row >= split_row { 1 } else { 0 };
        let ghost img_row = img@;
        for col in 0..width
            invariant
                len == img@.len(),
                len == orig.len(),
                base == row * width,
                base + width <= len,
                row < height,
                cblack@.len() == 2 * height,
                rblack@.len() == 2 * width,
                clen == cblack@.len(),
                rlen == rblack@.len(),
                0 <= black <= 0xffff,
                qr == (if row >= split_row { 1int } else { 0 }),
                forall|k: int| 0 <= k < base ==> #[trigger] img@[k] == img_row[k],
                forall|k: int| base + col <= k < len ==> #[trigger] img@[k] == orig[k],
                forall|c: int|
                    0 <= c < col ==> #[trigger] img@[base + c] == q_black_pixel(
                        orig[base + c] as int,
                        black as int,
                        cblack@,
                        rblack@,
                        split_col as int,
                        split_row as int,
                        row as int,
                        c,
                    ),
        {
            let qc: usize = if col >= split_col { 1 } else { 0 };
            let x = img[base + col] as i32 - black + (cblack[row * 2 + qc] as i32) + (rblack[col * 2 + qr] as i32);
            let v: u16 = if x < 0 {
                0
            } else if x > 0xffff {
                0xffff
            } else {
                x as u16
            };
            img.set(base + col, v);
        }
        proof {
            assert forall|r: int, c: int|
                0 <= r < row + 1 && 0 <= c < width implies #[trigger] img@[r * width + c] == q_black_pixel(
                    orig[r * width + c] as int,
                    black as int,
                    cblack@,
                    rblack@,
                    split_col as int,
                    split_row as int,
                    r,
                    c,
                ) by {
                if r < row {
                    assert(r * width + c < row * width) by (nonlinear_arith)
                        requires
                            r < row,
                            c < width,
                    ;
                    assert(img@[r * width + c] == img_row[r * width + c]);
                }
            }
        }
    }
}


/// How far sample `v` lies from the mean of four samples summing to `sum`,
/// times four.
pub open spec fn deviation(v: int, sum: int) -> int {
    if 4 * v - sum < 0 { sum - 4 * v } else { 4 * v - sum }
}

/// The first of the four samples `v` that lies farthest from their mean.
pub open spec fn farthest(v: Seq<u16>) -> int {
    let sum = v[0] + v[1] + v[2] + v[3];
    let d = |i: int| deviation(v[i] as int, sum);
    if d(0) >= d(1) && d(0) >= d(2) && d(0) >= d(3) {
        0
    } else if d(1) >= d(2) && d(1) >= d(3) {
        1
    } else if d(2) >= d(3) {
        2
    } else {
        3
    }
}

/// A green pixel of a bad column, from its four diagonal green neighbours:
/// the one farthest from their mean is left out and the other three are
/// averaged, rounding to nearest.
pub open spec fn spec_green_from_diagonals(v: Seq<u16>) -> int {
    let sum = v[0] + v[1] + v[2] + v[3];
    (sum - v[farthest(v)] + 1) / 3
}

/// The value of a green pixel of a bad column (see
/// `spec_green_from_diagonals`).
pub fn green_from_diagonals(val: [u16; 4]) -> (g: u16)
    ensures
        g as int == spec_green_from_diagonals(val@),
{
    let sum: i32 = val[0] as i32 + val[1] as i32 + val[2] as i32 + val[3] as i32;
    let mut dev: [i32; 4] = [0; 4];
    let mut max: usize = 0;
    for i in 0..4
        invariant
            sum == val@[0] + val@[1] + val@[2] + val@[3],
            max < 4,
            max <= i || i == 0,
            forall|k: int| 0 <= k < i ==> #[trigger] dev@[k] == deviation(val@[k] as int, sum as int),
            i > 0 ==> forall|k: int| 0 <= k < i ==> dev@[k] <= dev@[max as int],
            i > 0 ==> forall|k: int| 0 <= k < max ==> dev@[k] < dev@[max as int],
            i > 0 ==> max < i,
            i == 0 ==> max == 0,
    {
        dev[i] = abs_i32((val[i] as i32) * 4 - sum);
        if dev[max] < dev[i] {
            max = i;
        }
    }
    let three_pixels = sum - val[max] as i32;
    proof {
        let d = |i: int| deviation(val@[i] as int, sum as int);
        assert(dev@[0] == d(0) && dev@[1] == d(1) && dev@[2] == d(2) && dev@[3] == d(3));
        assert(farthest(val@) == max);
    }
    ((three_pixels + 1) / 3) as u16
}

/// `x << s` on a `u16` keeps the low 16 bits of `x * 2^s`.
proof fn lemma_u16_shl_mod(x: u16, s: u32)
    requires
        s < 16,
    ensures
        (x << s) as int == (x as int * pow2(s as nat)) % 0x1_0000,
{
    let w = x as u32;
    vstd::arithmetic::power2::lemma2_to64();
    vstd::arithmetic::power2::lemma_pow2_strictly_increases(s as nat, 16);
    assert(w * pow2(s as nat) <= u32::MAX) by (nonlinear_arith)
        requires
            w < 0x1_0000,
            pow2(s as nat) < 0x1_0000,
    ;
    vstd::bits::lemma_u32_shl_is_mul(w, s);
    assert((x << s) == ((w << s) as u16)) by (bit_vector)
        requires
            w == x as u32,
            s < 16,
    ;
    assert(((w << s) as u16) as u32 == (w << s) % 0x1_0000u32) by (bit_vector);
}

} // verus!
