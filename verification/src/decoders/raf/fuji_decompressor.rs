//! Fujifilm compressed RAF data: the header of the compressed stream, its
//! validity rules, and the quantization tables and parameters that the
//! decoder derives from it.

use vstd::prelude::*;
use vstd::arithmetic::power2::pow2;
use crate::bits::{abs_i32, be_u16, bit_length, lemma_bit_length_bounds, BEu16, log2ceil};
use crate::cfa::CFAColor;

verus! {

/// The header of a compressed RAF stream.
#[derive(Clone, Copy, Debug, PartialEq, Eq, Structural)]
pub struct Header {
    pub signature: u16,
    pub lossless: u8,
    pub raw_type: u8,
    pub raw_bits: u8,
    pub raw_height: u16,
    pub raw_rounded_width: u16,
    pub raw_width: u16,
    pub block_size: u16,
    pub blocks_in_row: u8,
    pub total_lines: u16,
}

/// Lines of a strip line group.
pub open spec fn line_height() -> int {
    6
}

/// The header held in the first 16 bytes of `b`, fields big-endian.
pub open spec fn header_at(b: Seq<u8>) -> Header {
    Header {
        signature: be_u16(b, 0) as u16,
        lossless: b[2],
        raw_type: b[3],
        raw_bits: b[4],
        raw_height: be_u16(b, 5) as u16,
        raw_rounded_width: be_u16(b, 7) as u16,
        raw_width: be_u16(b, 9) as u16,
        block_size: be_u16(b, 11) as u16,
        blocks_in_row: b[13],
        total_lines: be_u16(b, 14) as u16,
    }
}

/// `a / b` rounded up.
pub open spec fn div_round_up(a: int, b: int) -> int {
    (a + b - 1) / b
}

/// A header the decoder accepts: the signature `IS`, a height that is a
/// whole number of 6-line groups up to 0x3000, a width that is a multiple
/// of 24 from 0x300 to 0x3000, blocks of 0x300 pixels that cover the width
/// with less than one block of rounding, 1 to 16 blocks per row, as many
/// lines as 6-line groups (1 to 0x800), 12, 14 or 16 bits per sample and a
/// raw type of 0 or 16.
pub open spec fn header_valid(h: Header) -> bool {
    &&& h.signature == 0x4953
    &&& h.raw_height <= 0x3000
    &&& h.raw_height >= line_height()
    &&& h.raw_height % 6 == 0
    &&& h.raw_width <= 0x3000
    &&& h.raw_width >= 0x300
    &&& h.raw_width % 24 == 0
    &&& h.raw_rounded_width <= 0x3000
    &&& h.block_size == 0x300
    &&& h.raw_rounded_width >= h.block_size
    &&& h.raw_rounded_width % h.block_size == 0
    &&& h.raw_rounded_width - h.raw_width < h.block_size
    &&& h.blocks_in_row <= 0x10
    &&& h.blocks_in_row != 0
    &&& h.blocks_in_row == h.raw_rounded_width / h.block_size
    &&& h.blocks_in_row == div_round_up(h.raw_width as int, h.block_size as int)
    &&& h.total_lines <= 0x800
    &&& h.total_lines != 0
    &&& h.total_lines == h.raw_height / 6
    &&& (h.raw_bits == 12 || h.raw_bits == 14 || h.raw_bits == 16)
    &&& (h.raw_type == 16 || h.raw_type == 0)
}

/// The checks of `header_valid` that come before the one on the rounding
/// of the width all pass.
pub open spec fn reaches_rounding_check(h: Header) -> bool {
    &&& h.signature == 0x4953
    &&& h.raw_height <= 0x3000
    &&& h.raw_height >= line_height()
    &&& h.raw_height % 6 == 0
    &&& h.raw_width <= 0x3000
    &&& h.raw_width >= 0x300
    &&& h.raw_width % 24 == 0
    &&& h.raw_rounded_width <= 0x3000
    &&& h.block_size == 0x300
    &&& h.raw_rounded_width >= h.block_size
    &&& h.raw_rounded_width % h.block_size == 0
}

impl Header {
    /// The header at the start of the compressed data.
    pub fn read(buf: &[u8]) -> (r: Header)
        requires
            buf@.len() >= 16,
        ensures
            r == header_at(buf@),
    {
        Header {
            signature: BEu16(buf, 0),
            lossless: buf[2],
            raw_type: buf[3],
            raw_bits: buf[4],
            raw_height: BEu16(buf, 5),
            raw_rounded_width: BEu16(buf, 7),
            raw_width: BEu16(buf, 9),
            block_size: BEu16(buf, 11),
            blocks_in_row: buf[13],
            total_lines: BEu16(buf, 14),
        }
    }

    /// Whether the stream is lossless.
    pub fn is_lossless(&self) -> (r: bool)
        ensures
            r == (self.lossless == 1),
    {
        self.lossless == 1
    }

    /// Whether the decoder accepts the header. The rounded width is taken
    /// less the width once the checks before pass, so it is at least that.
    pub fn is_valid(&self) -> (r: bool)
        requires
            reaches_rounding_check(*self) ==> self.raw_rounded_width >= self.raw_width,
        ensures
            r == header_valid(*self),
    {
        !(self.signature != 0x4953 || self.raw_height > 0x3000 || (self.raw_height as usize) < 6
            || (self.raw_height as usize) % 6 != 0 || self.raw_width > 0x3000 || self.raw_width
            < 0x300 || self.raw_width % 24 != 0 || self.raw_rounded_width > 0x3000
            || self.block_size != 0x300 || self.raw_rounded_width < self.block_size
            || self.raw_rounded_width % self.block_size != 0 || self.raw_rounded_width
            - self.raw_width >= self.block_size || self.blocks_in_row > 0x10 || self.blocks_in_row
            == 0 || self.blocks_in_row as u16 != self.raw_rounded_width / self.block_size
            || self.blocks_in_row as u16 != (self.raw_width + self.block_size - 1) / self.block_size
            || self.total_lines > 0x800 || self.total_lines == 0 || (self.total_lines as usize)
            != (self.raw_height as usize) / 6 || (self.raw_bits != 12 && self.raw_bits != 14
            && self.raw_bits != 16) || (self.raw_type != 16 && self.raw_type != 0))
    }
}

/// The quantization class of a difference `x` by the five points `qp`:
/// -4 to 4, by the thresholds -qp3, -qp2, -qp1, -qp0 (exclusive), qp0,
/// qp1 .. qp3 (exclusive).
pub open spec fn q_class(x: int, qp: Seq<i32>) -> i32 {
    if x <= -qp[3] {
        -4i32
    } else if x <= -qp[2] {
        -3i32
    } else if x <= -qp[1] {
        -2i32
    } else if x < -qp[0] {
        -1i32
    } else if x <= qp[0] {
        0
    } else if x < qp[1] {
        1
    } else if x < qp[2] {
        2
    } else if x < qp[3] {
        3
    } else {
        4
    }
}

/// Entry `i` of the quantization table for samples of `bits` bits: the
/// class of the difference `i - qp4` while that is at most `qp4`, else 0.
pub open spec fn q_entry(qp: Seq<i32>, i: int) -> i32 {
    if -qp[4] + i <= qp[4] {
        q_class(-qp[4] + i, qp)
    } else {
        0
    }
}

/// Points that the table can be built from: none is the least `i32`.
pub open spec fn qp_ok(qp: Seq<i32>) -> bool {
    &&& qp.len() == 5
    &&& forall|k: int| 0 <= k < 5 ==> #[trigger] qp[k] > i32::MIN
}

/// A quantization table.
#[derive(Clone, Debug)]
pub struct QTable {
    pub q_base: i32,
    pub q_table: Vec<i32>,
    pub max_grad: usize,
    pub q_gradient_multi: i32,
    pub raw_bits: usize,
    pub total_values: i32,
}

impl QTable {
    /// The quantization table of the points `qp` for samples of
    /// `header.raw_bits` bits: `2 << raw_bits` entries.
    pub fn build_table(header: &Header, qp: &[i32; 5]) -> (r: Vec<i32>)
        requires
            header.raw_bits <= 16,
            qp_ok(qp@),
        ensures
            r@.len() == 2 * pow2(header.raw_bits as nat),
            forall|i: int| 0 <= i < r@.len() ==> #[trigger] r@[i] == q_entry(qp@, i),
    {
        proof {
            vstd::arithmetic::power2::lemma2_to64();
            if header.raw_bits < 16 {
                vstd::arithmetic::power2::lemma_pow2_strictly_increases(header.raw_bits as nat, 16);
            }
            vstd::bits::lemma_u32_shl_is_mul(1, header.raw_bits as u32);
        }
        let len: usize = 2 * ((1u32 << (header.raw_bits as u32)) as usize);
        let mut qtable: Vec<i32> = Vec::new();
        let mut cur_val: i32 = -qp[4];
        let mut done = false;
        for i in 0..len
            invariant
                qp_ok(qp@),
                len <= 0x20000,
                qtable@.len() == i,
                !done ==> cur_val == -qp@[4] + i,
                done ==> -qp@[4] + i > qp@[4],
                forall|j: int| 0 <= j < i ==> #[trigger] qtable@[j] == q_entry(qp@, j),
        {
            if done || cur_val > qp[4] {
                done = true;
                qtable.push(0);
            } else {
                let x = cur_val;
                let q: i32 = if x <= -qp[3] {
                    -4
                } else if x <= -qp[2] {
                    -3
                } else if x <= -qp[1] {
                    -2
                } else if x < -qp[0] {
                    -1
                } else if x <= qp[0] {
                    0
                } else if x < qp[1] {
                    1
                } else if x < qp[2] {
                    2
                } else if x < qp[3] {
                    3
                } else {
                    4
                };
                qtable.push(q);
                cur_val += 1;
            }
        }
        qtable
    }
}

impl QTable {
    /// The gradient index of the differences `v1` and `v2`: the class of
    /// `v1` times the multiplier plus the class of `v2`, classes looked up
    /// in the table at `max_value` past each difference.
    pub fn lookup_gradient(&self, params: &Params, v1: i32, v2: i32) -> (r: i32)
        requires
            0 <= params.max_value + v1 < self.q_table@.len(),
            0 <= params.max_value + v2 < self.q_table@.len(),
            params.max_value + v1 <= i32::MAX,
            params.max_value + v2 <= i32::MAX,
            i32::MIN <= self.q_gradient_multi * self.q_table@[params.max_value + v1] <= i32::MAX,
            i32::MIN <= self.q_gradient_multi * self.q_table@[params.max_value + v1] + self.q_table@[
                params.max_value + v2] <= i32::MAX,
        ensures
            r == self.q_gradient_multi * self.q_table@[params.max_value + v1] + self.q_table@[
                params.max_value + v2],
    {
        let a = self.q_table[(params.max_value + v1) as usize];
        let b = self.q_table[(params.max_value + v2) as usize];
        self.q_gradient_multi * a + b
    }
}

/// The five points of the main table of a block with base `q_base`: the
/// base, then `3q + 0x12`, `5q + 0x43`, `7q + 0x114` each kept above the
/// one before and below `max_value + 1` (else set to the one before, the
/// second to `q + 1`), and `max_value`.
pub open spec fn main_qp(max_value: int, q: int) -> Seq<i32> {
    let max_val = max_value + 1;
    let p1 = if 3 * q + 0x12 >= max_val || 3 * q + 0x12 < q + 1 { q + 1 } else { 3 * q + 0x12 };
    let p2 = if 5 * q + 0x43 < p1 || 5 * q + 0x43 >= max_val { p1 } else { 5 * q + 0x43 };
    let p3 = if 7 * q + 0x114 < p2 || 7 * q + 0x114 >= max_val { p2 } else { 7 * q + 0x114 };
    seq![q as i32, p1 as i32, p2 as i32, p3 as i32, max_value as i32]
}

/// The number of values that the main table of base `q` codes.
pub open spec fn main_total_values(max_value: int, q: int) -> int {
    (max_value + 2 * q) / (2 * q + 1) + 1
}

/// The decoder parameters of a header.
#[derive(Clone, Debug)]
pub struct Params {
    pub qtables: Vec<QTable>,
    pub max_bits: usize,
    pub min_value: i32,
    pub max_value: i32,
    pub line_width: usize,
}

/// `t` is the main quantization table of base `q` for samples of
/// `header.raw_bits` bits and largest value `max_value`.
pub open spec fn is_main_qtable(t: QTable, header: Header, max_value: int, q: int) -> bool {
    let qp = main_qp(max_value, q);
    &&& t.q_base == q
    &&& t.q_gradient_multi == 9
    &&& t.max_grad == 0
    &&& t.total_values == main_total_values(max_value, q)
    &&& t.raw_bits as int == log2ceil_spec(main_total_values(max_value, q))
    &&& t.q_table@.len() == 2 * pow2(header.raw_bits as nat)
    &&& forall|i: int| 0 <= i < t.q_table@.len() ==> #[trigger] t.q_table@[i] == q_entry(qp, i)
}

/// The bits that `log2ceil` gives for `n` states: none for none, one for
/// one, else the bits of `n - 1`.
pub open spec fn log2ceil_spec(n: int) -> int {
    if n <= 0 {
        0
    } else if n == 1 {
        1
    } else {
        bit_length((n - 1) as nat) as int
    }
}

impl Params {
    /// The main quantization table of a block with base `q_base`, for
    /// samples up to `max_value`.
    pub fn new_main_qtable(header: &Header, max_value: i32, q_base: i32) -> (r: QTable)
        requires
            header.raw_bits <= 16,
            0 <= q_base <= 0xff,
            0 <= max_value < 0x10000,
        ensures
            is_main_qtable(r, *header, max_value as int, q_base as int),
    {
        let mut qp: [i32; 5] = [0; 5];
        qp[0] = q_base;
        qp[1] = 3 * q_base + 0x12;
        qp[2] = 5 * q_base + 0x43;
        qp[3] = 7 * q_base + 0x114;
        qp[4] = max_value;
        let max_val = max_value + 1;
        if qp[1] >= max_val || qp[1] < q_base + 1 {
            qp[1] = q_base + 1;
        }
        if qp[2] < qp[1] || qp[2] >= max_val {
            qp[2] = qp[1];
        }
        if qp[3] < qp[2] || qp[3] >= max_val {
            qp[3] = qp[2];
        }
        assert(qp@ =~= main_qp(max_value as int, q_base as int));
        let q_table = QTable::build_table(header, &qp);
        assert((qp[4] + 2 * q_base) / (2 * q_base + 1) <= qp[4] + 2 * q_base) by (nonlinear_arith)
            requires
                qp[4] + 2 * q_base >= 0,
                2 * q_base + 1 >= 1,
        ;
        let total_values = (qp[4] + 2 * q_base) / (2 * q_base + 1) + 1;
        let raw_bits: usize = log2ceil(total_values as usize);
        proof {
            lemma_log2ceil_spec(total_values as int, raw_bits as int);
        }
        QTable { q_base, q_table, q_gradient_multi: 9, max_grad: 0, raw_bits, total_values }
    }
}

/// The points of a fixed lossy table of base `q`: the base, then `a`, `b`
/// and `c` where the largest value reaches them (else the point before,
/// the first `q + 1`), and the largest value.
pub open spec fn fixed_qp(max_value: int, q: int, a: int, b: int, c: int) -> Seq<i32> {
    let p1 = if max_value >= a { a } else { q + 1 };
    let p2 = if max_value >= b { b } else { p1 };
    let p3 = if max_value >= c { c } else { p2 };
    seq![q as i32, p1 as i32, p2 as i32, p3 as i32, max_value as i32]
}

/// `t` is the quantization table of points `qp` with the given base,
/// gradient bound and multiplier, coding `total` values.
pub open spec fn is_qtable(
    t: QTable,
    header: Header,
    q: int,
    max_grad: int,
    multi: int,
    total: int,
    qp: Seq<i32>,
) -> bool {
    &&& t.q_base == q
    &&& t.max_grad == max_grad
    &&& t.q_gradient_multi == multi
    &&& t.total_values == total
    &&& t.raw_bits as int == log2ceil_spec(total)
    &&& t.q_table@.len() == 2 * pow2(header.raw_bits as nat)
    &&& forall|i: int| 0 <= i < t.q_table@.len() ==> #[trigger] t.q_table@[i] == q_entry(qp, i)
}

/// The parameters of a header: the sample range and bits, the width of a
/// strip line, and the quantization tables — for a lossless stream the
/// main table of base 0, else a placeholder for the per-block main table
/// and the three fixed tables of bases 0, 1 and 2.
pub open spec fn params_of(p: Params, h: Header) -> bool {
    let max_value = pow2(h.raw_bits as nat) - 1;
    &&& p.min_value == 0x40
    &&& p.max_value == max_value
    &&& p.max_bits == 4 * log2ceil_spec(max_value + 1)
    &&& p.line_width == if h.raw_type == 16 { h.block_size * 2 / 3 } else { (h.block_size / 2) as int }
    &&& h.lossless == 1 ==> p.qtables@.len() == 1 && is_main_qtable(p.qtables@[0], h, max_value, 0)
    &&& h.lossless != 1 ==> {
        &&& p.qtables@.len() == 4
        &&& p.qtables@[0].q_base == -1
        &&& p.qtables@[0].q_table@.len() == 0
        &&& p.qtables@[0].max_grad == 0
        &&& p.qtables@[0].q_gradient_multi == 0
        &&& p.qtables@[0].raw_bits == 0
        &&& p.qtables@[0].total_values == 0
        &&& is_qtable(p.qtables@[1], h, 0, 5, 3, max_value + 1, fixed_qp(max_value, 0, 0x12, 0x43, 0x114))
        &&& is_qtable(p.qtables@[2], h, 1, 6, 3, (max_value + 2) / 3 + 1, fixed_qp(max_value, 1, 0x15, 0x48, 0x11b))
        &&& is_qtable(p.qtables@[3], h, 2, 7, 3, (max_value + 4) / 5 + 1, fixed_qp(max_value, 2, 0x18, 0x4d, 0x122))
    }
}

impl Params {
    /// A fixed lossy table.
    fn fixed_qtable(
        header: &Header,
        max_value: i32,
        q_base: i32,
        max_grad: usize,
        total_values: i32,
        a: i32,
        b: i32,
        c: i32,
    ) -> (r: QTable)
        requires
            header.raw_bits <= 16,
            0 <= q_base <= 2,
            0 <= max_value < 0x10000,
            0 <= total_values <= 0x10000,
            0 < a <= b <= c <= 0x200,
        ensures
            is_qtable(
                r,
                *header,
                q_base as int,
                max_grad as int,
                3,
                total_values as int,
                fixed_qp(max_value as int, q_base as int, a as int, b as int, c as int),
            ),
    {
        let p1 = if max_value >= a { a } else { q_base + 1 };
        let p2 = if max_value >= b { b } else { p1 };
        let p3 = if max_value >= c { c } else { p2 };
        let qp: [i32; 5] = [q_base, p1, p2, p3, max_value];
        assert(qp@ =~= fixed_qp(max_value as int, q_base as int, a as int, b as int, c as int));
        let q_table = QTable::build_table(header, &qp);
        let raw_bits = log2ceil(total_values as usize);
        proof {
            lemma_log2ceil_spec(total_values as int, raw_bits as int);
        }
        QTable { q_base, q_table, max_grad, q_gradient_multi: 3, raw_bits, total_values }
    }

    /// The decoder parameters of a header.
    pub fn new(header: &Header) -> (r: Params)
        requires
            header.raw_bits == 12 || header.raw_bits == 14 || header.raw_bits == 16,
            !(header.block_size % 3 != 0 && header.raw_type == 16),
            !(header.block_size % 2 != 0 && header.raw_type == 0),
        ensures
            params_of(r, *header),
    {
        proof {
            vstd::arithmetic::power2::lemma2_to64();
            vstd::bits::lemma_u32_shl_is_mul(1, header.raw_bits as u32);
        }
        let min_value: i32 = 0x40;
        let max_value: i32 = ((1u32 << (header.raw_bits as u32)) - 1) as i32;
        let bits = log2ceil(max_value as usize + 1);
        proof {
            lemma_log2ceil_spec(max_value + 1, bits as int);
            if bits > 17 {
                vstd::arithmetic::power2::lemma_pow2_strictly_increases(16, (bits - 1) as nat);
            }
        }
        let max_bits: usize = 4 * bits;
        let line_width = if header.raw_type == 16 {
            (header.block_size as usize * 2) / 3
        } else {
            proof {
                vstd::bits::lemma_usize_shr_is_div(header.block_size as usize, 1);
            }
            header.block_size as usize >> 1
        };
        let qtables: Vec<QTable> = if header.is_lossless() {
            let main_qtable = Self::new_main_qtable(header, max_value, 0);
            vec![main_qtable]
        } else {
            let placeholder = QTable {
                q_base: -1,
                q_table: Vec::new(),
                max_grad: 0,
                q_gradient_multi: 0,
                raw_bits: 0,
                total_values: 0,
            };
            let t1 = Self::fixed_qtable(header, max_value, 0, 5, max_value + 1, 0x12, 0x43, 0x114);
            let t2 = Self::fixed_qtable(header, max_value, 1, 6, (max_value + 2) / 3 + 1, 0x15, 0x48, 0x11b);
            let t3 = Self::fixed_qtable(header, max_value, 2, 7, (max_value + 4) / 5 + 1, 0x18, 0x4d, 0x122);
            vec![placeholder, t1, t2, t3]
        };
        Params { qtables, max_bits, min_value, max_value, line_width }
    }
}

/// The bits that `log2ceil` gives are those of `log2ceil_spec`.
proof fn lemma_log2ceil_spec(n: int, bits: int)
    requires
        0 <= n,
        n == 0 ==> bits == 0,
        n == 1 ==> bits == 1,
        n >= 2 ==> bits >= 1 && pow2((bits - 1) as nat) < n <= pow2(bits as nat),
    ensures
        log2ceil_spec(n) == bits,
{
    if n >= 2 {
        lemma_bit_length_bounds((n - 1) as nat);
        let b = bit_length((n - 1) as nat) as int;
        if b < bits - 1 {
            vstd::arithmetic::power2::lemma_pow2_strictly_increases(b as nat, (bits - 1) as nat);
        } else if b > bits + 1 {
            vstd::arithmetic::power2::lemma_pow2_strictly_increases(bits as nat, (b - 1) as nat);
        }
    }
}

/// How many bits a value below `v1` must be shifted by, at most 15, for
/// `v2` shifted by that much to reach `v1`; none where `v2` already does.
pub open spec fn bit_diff_spec(v1: i32, v2: i32) -> u32 {
    if v2 >= v1 {
        0
    } else {
        bit_diff_from(v1, v2, 1)
    }
}

/// The least `d` from `d` to 15 with `v2 << d` at least `v1`, else 15.
pub open spec fn bit_diff_from(v1: i32, v2: i32, d: u32) -> u32
    decreases 16 - d,
{
    if d >= 15 {
        15
    } else if (v2 << d) >= v1 {
        d
    } else {
        bit_diff_from(v1, v2, (d + 1) as u32)
    }
}

/// The bit difference of two gradient values.
pub fn bit_diff(v1: i32, v2: i32) -> (r: u32)
    ensures
        r == bit_diff_spec(v1, v2),
{
    if v2 >= v1 {
        0
    } else {
        let mut dec_bits: u32 = 0;
        while dec_bits <= 14
            invariant
                dec_bits <= 15,
                v2 < v1,
                bit_diff_spec(v1, v2) == bit_diff_from(v1, v2, (dec_bits + 1) as u32),
            decreases 15 - dec_bits,
        {
            dec_bits += 1;
            if (v2 << dec_bits) >= v1 {
                return dec_bits;
            }
        }
        dec_bits
    }
}

/// The lines of the decoding buffer of a block.
pub const XT_LINE_TOTAL: usize = 18;

/// The decoding buffer after `fuji_extend_generic`: each line from `start`
/// to `end` has its left border set to the first sample of the line before
/// and its right border to the last; all else is kept.
pub open spec fn extended(old: Seq<Seq<u16>>, line_width: int, start: int, end: int) -> Seq<Seq<u16>> {
    Seq::new(
        old.len(),
        |i: int|
            if start <= i <= end {
                old[i].update(0, old[i - 1][1]).update(line_width + 1, old[i - 1][line_width])
            } else {
                old[i]
            },
    )
}

/// The rows of a decoding buffer as sequences.
pub open spec fn rows_view(v: Seq<Vec<u16>>) -> Seq<Seq<u16>> {
    Seq::new(v.len(), |i: int| v[i]@)
}

/// Copy, for each line from `start` to `end`, the first and last sample
/// of the line before into the line's two border cells.
pub fn fuji_extend_generic(linebuf: &mut Vec<Vec<u16>>, line_width: usize, start: usize, end: usize)
    requires
        0 < start,
        end < old(linebuf)@.len(),
        1 <= line_width,
        forall|i: int| 0 <= i < old(linebuf)@.len() ==> #[trigger] old(linebuf)@[i]@.len() == line_width + 2,
    ensures
        final(linebuf)@.len() == old(linebuf)@.len(),
        rows_view(final(linebuf)@) == extended(rows_view(old(linebuf)@), line_width as int, start as int, end as int),
{
    let ghost orig = rows_view(linebuf@);
    let n = linebuf.len();
    let mut i = start;
    while i <= end
        invariant
            n == linebuf@.len(),
            0 < start <= i,
            end < linebuf@.len(),
            1 <= line_width,
            linebuf@.len() == orig.len(),
            forall|k: int| 0 <= k < orig.len() ==> #[trigger] orig[k].len() == line_width + 2,
            forall|k: int|
                0 <= k < linebuf@.len() ==> #[trigger] linebuf@[k]@ == if start <= k < i {
                    extended(orig, line_width as int, start as int, end as int)[k]
                } else {
                    orig[k]
                },
        decreases end + 1 - i,
    {
        assert(linebuf@[i as int]@.len() == line_width + 2);
        let lw_end = linebuf[i].len() - 1;
        let first = linebuf[i - 1][1];
        let last = linebuf[i - 1][line_width];
        linebuf[i][0] = first;
        linebuf[i][lw_end] = last;
        i += 1;
    }
    assert(rows_view(linebuf@) =~= extended(orig, line_width as int, start as int, end as int));
}


/// Lines of the decoding buffer of a block, by color.
pub const XT_LINE_R2: usize = 2;
pub const XT_LINE_R4: usize = 4;
pub const XT_LINE_G2: usize = 7;
pub const XT_LINE_G7: usize = 12;
pub const XT_LINE_B2: usize = 15;
pub const XT_LINE_B4: usize = 17;

/// Extend the red lines of a decoding buffer.
pub fn fuji_extend_red(linebuf: &mut Vec<Vec<u16>>, line_width: usize)
    requires
        old(linebuf)@.len() == XT_LINE_TOTAL,
        1 <= line_width,
        forall|i: int| 0 <= i < old(linebuf)@.len() ==> #[trigger] old(linebuf)@[i]@.len() == line_width + 2,
    ensures
        final(linebuf)@.len() == XT_LINE_TOTAL,
        rows_view(final(linebuf)@) == extended(rows_view(old(linebuf)@), line_width as int, 2, 4),
{
    fuji_extend_generic(linebuf, line_width, XT_LINE_R2, XT_LINE_R4)
}

/// Extend the green lines of a decoding buffer.
pub fn fuji_extend_green(linebuf: &mut Vec<Vec<u16>>, line_width: usize)
    requires
        old(linebuf)@.len() == XT_LINE_TOTAL,
        1 <= line_width,
        forall|i: int| 0 <= i < old(linebuf)@.len() ==> #[trigger] old(linebuf)@[i]@.len() == line_width + 2,
    ensures
        final(linebuf)@.len() == XT_LINE_TOTAL,
        rows_view(final(linebuf)@) == extended(rows_view(old(linebuf)@), line_width as int, 7, 12),
{
    fuji_extend_generic(linebuf, line_width, XT_LINE_G2, XT_LINE_G7)
}

/// Extend the blue lines of a decoding buffer.
pub fn fuji_extend_blue(linebuf: &mut Vec<Vec<u16>>, line_width: usize)
    requires
        old(linebuf)@.len() == XT_LINE_TOTAL,
        1 <= line_width,
        forall|i: int| 0 <= i < old(linebuf)@.len() ==> #[trigger] old(linebuf)@[i]@.len() == line_width + 2,
    ensures
        final(linebuf)@.len() == XT_LINE_TOTAL,
        rows_view(final(linebuf)@) == extended(rows_view(old(linebuf)@), line_width as int, 15, 17),
{
    fuji_extend_generic(linebuf, line_width, XT_LINE_B2, XT_LINE_B4)
}

/// The sample that interpolation puts between neighbours `b` (above), `c`
/// (above left), `d` (above right) and `f` (two above): the weighted mean
/// that leaves out the neighbour differing most from `b` — `c` where it
/// differs more than both others, else `d` where it does, else `f`.
pub open spec fn interpolated(rb: int, rc: int, rd: int, rf: int) -> int {
    let dc = if rc - rb < 0 { rb - rc } else { rc - rb };
    let df = if rf - rb < 0 { rb - rf } else { rf - rb };
    let dd = if rd - rb < 0 { rb - rd } else { rd - rb };
    if dc > df && dc > dd {
        (rf + rd + 2 * rb) / 4
    } else if dd > dc && dd > df {
        (rf + rc + 2 * rb) / 4
    } else {
        (rd + rc + 2 * rb) / 4
    }
}

/// The interpolated sample of four neighbours, as the decoder computes it.
fn interpolate(rb: i32, rc: i32, rd: i32, rf: i32) -> (x: u16)
    requires
        0 <= rb <= 0xffff,
        0 <= rc <= 0xffff,
        0 <= rd <= 0xffff,
        0 <= rf <= 0xffff,
    ensures
        x == interpolated(rb as int, rc as int, rd as int, rf as int) as u16,
{
    proof {
        vstd::arithmetic::power2::lemma2_to64();
        vstd::bits::lemma_u32_shr_is_div((rf + rd + 2 * rb) as u32, 2);
        vstd::bits::lemma_u32_shr_is_div((rf + rc + 2 * rb) as u32, 2);
        vstd::bits::lemma_u32_shr_is_div((rd + rc + 2 * rb) as u32, 2);
        interp_shift_facts((rf + rd + 2 * rb) as i32);
        interp_shift_facts((rf + rc + 2 * rb) as i32);
        interp_shift_facts((rd + rc + 2 * rb) as i32);
    }
    let diff_rc_rb = abs_i32(rc - rb);
    let diff_rf_rb = abs_i32(rf - rb);
    let diff_rd_rb = abs_i32(rd - rb);
    if diff_rc_rb > diff_rf_rb && diff_rc_rb > diff_rd_rb {
        ((rf + rd + 2 * rb) >> 2u32) as u16
    } else if diff_rd_rb > diff_rc_rb && diff_rd_rb > diff_rf_rb {
        ((rf + rc + 2 * rb) >> 2u32) as u16
    } else {
        ((rd + rc + 2 * rb) >> 2u32) as u16
    }
}

proof fn interp_shift_facts(v: i32)
    by (bit_vector)
    requires
        0 <= v <= 0x40000,
    ensures
        v >> 2u32 == ((v as u32) >> 2u32) as i32,
{
}

/// Interpolate the even sample at `pos` of line `line` from the lines
/// above it, and move to the next even sample.
pub fn fuji_decode_interpolation_even(linebuf: &mut Vec<Vec<u16>>, line: usize, pos: &mut usize)
    requires
        2 <= line < old(linebuf)@.len(),
        *old(pos) + 2 < old(linebuf)@[line - 1]@.len(),
        *old(pos) + 1 < old(linebuf)@[line - 2]@.len(),
        *old(pos) + 1 < old(linebuf)@[line as int]@.len(),
    ensures
        *final(pos) == *old(pos) + 2,
        rows_view(final(linebuf)@) == rows_view(old(linebuf)@).update(
            line as int,
            old(linebuf)@[line as int]@.update(
                *old(pos) + 1,
                interpolated(
                    old(linebuf)@[line - 1]@[*old(pos) + 1] as int,
                    old(linebuf)@[line - 1]@[*old(pos) as int] as int,
                    old(linebuf)@[line - 1]@[*old(pos) + 2] as int,
                    old(linebuf)@[line - 2]@[*old(pos) + 1] as int,
                ) as u16,
            ),
        ),
{
    let p = *pos;
    let n1 = linebuf[line - 1].len();
    assert(n1 == linebuf@[line - 1]@.len());
    let rb = linebuf[line - 1][1 + p] as i32;
    let rc = linebuf[line - 1][1 + p - 1] as i32;
    let rd = linebuf[line - 1][1 + p + 1] as i32;
    let rf = linebuf[line - 2][1 + p] as i32;
    let x = interpolate(rb, rc, rd, rf);
    let ghost before = rows_view(linebuf@);
    linebuf[line][1 + p] = x;
    *pos = p + 2;
    assert(rows_view(linebuf@) =~= before.update(line as int, before[line as int].update(p + 1, x)));
}

/// Where pixel `pixel_count` of a Bayer strip line is in its color line.
pub fn bayer_index(pixel_count: usize) -> (r: usize)
    ensures
        r == pixel_count / 2,
{
    proof {
        vstd::bits::lemma_usize_shr_is_div(pixel_count, 1);
        vstd::arithmetic::power2::lemma2_to64();
    }
    pixel_count >> 1
}

/// A strip of compressed data: one column of blocks of the image.
#[derive(Clone, Debug)]
pub struct Strip {
    pub offset: usize,
    pub size: usize,
    /// The strip's number, from the left.
    pub n: usize,
    pub header: Header,
    pub cfa: [[CFAColor; 6]; 6],
}

impl Strip {
    /// Lines of a line group.
    pub fn line_height() -> (r: usize)
        ensures
            r == 6,
    {
        6
    }

    /// How many line groups the strip holds.
    pub fn height(&self) -> (r: u16)
        ensures
            r == self.header.total_lines,
    {
        self.header.total_lines
    }

    /// Where the strip starts horizontally.
    pub fn offset_x(&self) -> (r: usize)
        requires
            self.header.block_size * self.n <= usize::MAX,
        ensures
            r == self.header.block_size * self.n,
    {
        self.header.block_size as usize * self.n
    }

    /// How many pixels wide the strip is: a block, or what is left of the
    /// width for the last strip.
    pub fn width(&self) -> (r: usize)
        requires
            self.n + 1 <= usize::MAX,
            self.header.block_size * self.n <= usize::MAX,
            self.n + 1 == self.header.blocks_in_row ==> self.header.block_size * self.n
                <= self.header.raw_width && self.header.block_size * self.header.blocks_in_row
                >= self.header.raw_width,
        ensures
            r == if self.n + 1 != self.header.blocks_in_row {
                self.header.block_size as int
            } else {
                self.header.raw_width - self.header.block_size * self.n
            },
    {
        if (self.n + 1) != (self.header.blocks_in_row as usize) {
            return self.header.block_size as usize;
        }
        self.header.raw_width as usize - self.offset_x()
    }

    /// Where line group `line` starts vertically.
    pub fn offset_y(&self, line: usize) -> (r: usize)
        requires
            line < self.header.total_lines,
        ensures
            r == 6 * line,
    {
        Self::line_height() * line
    }
}

/// The gradients of one color: 41 for lossless streams, 5 for each of the
/// three fixed lossy tables. A gradient is a sum and a count.
#[derive(Clone, Debug)]
pub struct GradientList {
    pub lossless_grads: Vec<(i32, i32)>,
    pub lossy_grads: [Vec<(i32, i32)>; 3],
}

/// The decoding state of a block: gradients for even and odd samples of
/// each color, and the line buffer.
#[derive(Clone, Debug)]
pub struct CompressedBlock {
    pub grad_even: [GradientList; 3],
    pub grad_odd: [GradientList; 3],
    pub linebuf: Vec<Vec<u16>>,
}

/// The starting gradient sum of a table coding `total` values: a 64th of
/// it (rounded), at least 2.
pub open spec fn start_diff(total: int) -> int {
    let d = (total + 0x20) / 64;
    if d < 2 {
        2
    } else {
        d
    }
}

/// `n` copies of the gradient `g`.
fn grads(n: usize, g: (i32, i32)) -> (r: Vec<(i32, i32)>)
    ensures
        r@ == Seq::new(n as nat, |_i: int| g),
{
    let mut v: Vec<(i32, i32)> = Vec::new();
    for _i in 0..n
        invariant
            v@ == Seq::new(_i as nat, |_k: int| g),
    {
        v.push(g);
        assert(v@ =~= Seq::new((_i + 1) as nat, |_k: int| g));
    }
    v
}

/// The gradients of a color for a lossless stream (`lossless` set to `g`)
/// or a lossy one (the three fixed tables' gradients set to `lossy[k]`),
/// the others zero.
fn gradient_list(lossless: bool, g: (i32, i32), lossy: [(i32, i32); 3]) -> (r: GradientList)
    ensures
        r.lossless_grads@ == Seq::new(41, |_i: int| if lossless { g } else { (0i32, 0i32) }),
        forall|k: int|
            0 <= k < 3 ==> #[trigger] r.lossy_grads@[k]@ == Seq::new(
                5,
                |_i: int| if lossless { (0i32, 0i32) } else { lossy@[k] },
            ),
{
    let zero: (i32, i32) = (0, 0);
    if lossless {
        GradientList { lossless_grads: grads(41, g), lossy_grads: [grads(5, zero), grads(5, zero), grads(5, zero)] }
    } else {
        GradientList {
            lossless_grads: grads(41, zero),
            lossy_grads: [grads(5, lossy[0]), grads(5, lossy[1]), grads(5, lossy[2])],
        }
    }
}

/// The starting gradient sum of a table, as the decoder computes it.
fn max_diff(total_values: i32) -> (r: i32)
    requires
        0 <= total_values <= 0x10000,
    ensures
        r == start_diff(total_values as int),
{
    proof {
        vstd::arithmetic::power2::lemma2_to64();
        vstd::bits::lemma_u32_shr_is_div((total_values + 0x20) as u32, 6);
        max_diff_shift((total_values + 0x20) as i32);
    }
    let d: i32 = (total_values + 0x20) >> 6u32;
    if d < 2 {
        2
    } else {
        d
    }
}

proof fn max_diff_shift(v: i32)
    by (bit_vector)
    requires
        0 <= v <= 0x20000,
    ensures
        v >> 6u32 == ((v as u32) >> 6u32) as i32,
{
}

impl CompressedBlock {
    /// A block ready for decoding: an empty buffer of 18 lines of the line
    /// width plus two border cells, and each gradient of the stream's
    /// tables set to (start sum, 1).
    pub fn new(header: &Header, params: &Params) -> (r: CompressedBlock)
        requires
            params.line_width + 2 <= usize::MAX,
            header.lossless == 1 ==> params.qtables@.len() >= 1 && 0
                <= params.qtables@[0].total_values <= 0x10000,
            header.lossless != 1 ==> params.qtables@.len() >= 4 && forall|k: int|
                1 <= k < 4 ==> 0 <= #[trigger] params.qtables@[k].total_values <= 0x10000,
        ensures
            r.linebuf@.len() == XT_LINE_TOTAL,
            forall|l: int|
                0 <= l < XT_LINE_TOTAL ==> #[trigger] r.linebuf@[l]@ == Seq::new(
                    (params.line_width + 2) as nat,
                    |_i: int| 0u16,
                ),
            forall|j: int|
                0 <= j < 3 ==> {
                    &&& (#[trigger] r.grad_even@[j]).lossless_grads@ == Seq::new(
                        41,
                        |_i: int|
                            if header.lossless == 1 {
                                (start_diff(params.qtables@[0].total_values as int) as i32, 1i32)
                            } else {
                                (0i32, 0i32)
                            },
                    )
                    &&& r.grad_odd@[j].lossless_grads@ == r.grad_even@[j].lossless_grads@
                    &&& forall|k: int|
                        0 <= k < 3 ==> #[trigger] r.grad_even@[j].lossy_grads@[k]@ == Seq::new(
                            5,
                            |_i: int|
                                if header.lossless == 1 {
                                    (0i32, 0i32)
                                } else {
                                    (start_diff(params.qtables@[k + 1].total_values as int) as i32, 1i32)
                                },
                        ) && r.grad_odd@[j].lossy_grads@[k]@ == r.grad_even@[j].lossy_grads@[k]@
                },
    {
        let mut linebuf: Vec<Vec<u16>> = Vec::new();
        for _l in 0..XT_LINE_TOTAL
            invariant
                params.line_width + 2 <= usize::MAX,
                linebuf@.len() == _l,
                forall|l: int|
                    0 <= l < _l ==> #[trigger] linebuf@[l]@ == Seq::new(
                        (params.line_width + 2) as nat,
                        |_i: int| 0u16,
                    ),
        {
            let mut line: Vec<u16> = Vec::new();
            for _i in 0..params.line_width + 2
                invariant
                    line@ == Seq::new(_i as nat, |_k: int| 0u16),
            {
                line.push(0);
                assert(line@ =~= Seq::new((_i + 1) as nat, |_k: int| 0u16));
            }
            linebuf.push(line);
        }
        let lossless = header.is_lossless();
        let g: (i32, i32) = if lossless {
            (max_diff(params.qtables[0].total_values), 1)
        } else {
            (0, 0)
        };
        let lossy: [(i32, i32); 3] = if lossless {
            [(0, 0), (0, 0), (0, 0)]
        } else {
            [
                (max_diff(params.qtables[1].total_values), 1),
                (max_diff(params.qtables[2].total_values), 1),
                (max_diff(params.qtables[3].total_values), 1),
            ]
        };
        let grad_even = [
            gradient_list(lossless, g, lossy),
            gradient_list(lossless, g, lossy),
            gradient_list(lossless, g, lossy),
        ];
        let grad_odd = [
            gradient_list(lossless, g, lossy),
            gradient_list(lossless, g, lossy),
            gradient_list(lossless, g, lossy),
        ];
        CompressedBlock { grad_even, grad_odd, linebuf }
    }
}

} // verus!
