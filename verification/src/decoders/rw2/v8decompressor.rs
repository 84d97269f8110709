//! Panasonic CF2 ("V8") compression: the parameters stored in the IFD, the
//! gamma curve they describe, the Huffman decoder built from their table and
//! the prediction bases that each strip line starts from.

use vstd::prelude::*;
use vstd::arithmetic::power2::pow2;
use crate::bits::{LEu16, LEu32, le_u16, le_u32};

verus! {

/// Where a strip starts in the output image.
#[derive(Clone, Copy, Debug)]
pub struct StripLineOffset {
    pub cols: u16,
    pub rows: u16,
}

/// The CF2 parameters of a Panasonic IFD.
#[derive(Clone, Debug)]
pub struct CF2Params {
    pub strip_height: u32,
    pub strip_width: u32,
    /// Gamma point words, one per curve segment.
    pub gamma_point: Vec<u32>,
    /// Gamma slope words: low half the segment start, high half its base value.
    pub gamma_slope: Vec<u32>,
    /// Largest output value.
    pub gamma_clip_val: u16,
    pub huf_init_val0: u16,
    pub huf_init_val1: u16,
    pub huf_init_val2: u16,
    pub huf_init_val3: u16,
    /// Pairs of (code length, code).
    pub huf_table: Vec<(u16, u16)>,
    pub huf_shift_down: Vec<u16>,
    pub num_of_strips_h: u16,
    pub num_of_strips_v: u16,
    pub strip_byte_offsets: Vec<u32>,
    pub strip_line_offsets: Vec<StripLineOffset>,
    pub strip_data_size: Vec<u32>,
    pub strip_widths: Vec<u16>,
    pub strip_heights: Vec<u16>,
}

/// Low half of a slope word: the first input of its segment.
pub open spec fn seg_start(w: u32) -> int {
    (w % 0x10000) as int
}

/// High half of a slope word: the output at the start of its segment.
pub open spec fn seg_base(w: u32) -> int {
    (w / 0x10000) as int
}

/// The curve input for a table index: its low 16 bits, saturated to
/// `0xFFFF` where bit 16 is set.
pub open spec fn gamma_x(idx: u32) -> int {
    if (idx / 0x10000) % 2 == 1 {
        0xFFFF
    } else {
        (idx % 0x10000) as int
    }
}

/// The segment of the curve that input `x` falls in: the last of the six
/// whose start (segments 1 to 5) is at most `x`, scanning in order.
pub open spec fn gamma_segment(slopes: Seq<u32>, x: int) -> int {
    if x < seg_start(slopes[1]) {
        0
    } else if x < seg_start(slopes[2]) {
        1
    } else if x < seg_start(slopes[3]) {
        2
    } else if x < seg_start(slopes[4]) {
        3
    } else if x < seg_start(slopes[5]) {
        4
    } else {
        5
    }
}

/// The curve is defined at `idx`: six points and slopes, and the input lies
/// at or after the start of its segment.
pub open spec fn gamma_defined(points: Seq<u32>, slopes: Seq<u32>, idx: u32) -> bool {
    &&& points.len() >= 6
    &&& slopes.len() >= 6
    &&& gamma_x(idx) >= seg_start(slopes[gamma_segment(slopes, gamma_x(idx))])
}

/// The distance `d` into a segment scaled by its point exponent `p`:
/// divided by 2^p, rounding halves up, for `p < 16`; multiplied by
/// 2^(p-16) above.
pub open spec fn gamma_scaled(p: int, d: int) -> int {
    if p < 16 {
        if p == 0 {
            d
        } else {
            (d + pow2((p - 1) as nat)) / (pow2(p as nat) as int)
        }
    } else {
        d * pow2((p - 16) as nat)
    }
}

/// The gamma curve at table index `idx`. A segment whose point word ends in
/// 31 is flat at the next segment's base (0xFFFF for the last); one ending
/// in 15 is flat at its own base; otherwise the distance from the segment
/// start is scaled (divided by 2^p with rounding for p < 16, multiplied by
/// 2^(p-16) above) and added to the base, keeping 16 bits. The result never
/// exceeds the clipping value.
pub open spec fn spec_calc_gamma(points: Seq<u32>, slopes: Seq<u32>, clip: u16, idx: u32) -> int {
    let x = gamma_x(idx);
    let seg = gamma_segment(slopes, x);
    let p = points[seg] % 32;
    let d = x - seg_start(slopes[seg]);
    let v = if p == 31 {
        if seg == 5 {
            0xFFFF
        } else {
            seg_base(slopes[seg + 1])
        }
    } else if p == 15 {
        seg_base(slopes[seg])
    } else {
        (gamma_scaled(p as int, d) + seg_base(slopes[seg])) % 0x10000
    };
    if v < clip {
        v
    } else {
        clip as int
    }
}

proof fn gamma_word_facts(w: u32)
    by (bit_vector)
    ensures
        0xFFFF & w == w % 0x10000,
        w & 0xFFFF == w % 0x10000,
        (w >> 16) & 0xFFFF == w / 0x10000,
        w & 0x1F == w % 32,
        (w & 0x10 == 0) == (w % 32 < 16),
        w & 0xF == w % 16,
        (w & 0x10000 == 0) == ((w / 0x10000) % 2 == 0),
        (w & 0x10000 == 0) ==> (w & 0x1FFFF) == w % 0x10000,
        (w | 0xFFFF0000) >= 0xFFFF0000,
        w <= 0xFFFF ==> w & 0x80000000 == 0,
        (w as u16) as int == w % 0x10000,
{
}

proof fn gamma_top_segment(x: u64, s: u64)
    by (bit_vector)
    requires
        x <= 0xFFFF,
        s <= 0xFFFF,
    ensures
        (x | 0x5_0000_0000u64) >= s,
        x >= s ==> (((x | 0x5_0000_0000u64) - s) as u64) >> 32u64 == 5,
        x < s ==> (((x | 0x5_0000_0000u64) - s) as u64) >> 32u64 == 4,
{
}

/// The curve input for table index `idx`.
fn gamma_input(idx: u32) -> (x: u32)
    ensures
        x as int == gamma_x(idx),
        x <= 0xFFFF,
{
    proof {
        gamma_word_facts(idx);
    }
    let mut x: u32 = {
        let mut tmp: u32 = idx | 0xFFFF0000;
        if (idx & 0x10000) == 0 {
            tmp = idx & 0x1FFFF;
        }
        if tmp < 0xFFFF {
            tmp
        } else {
            0xFFFF
        }
    };
    proof {
        gamma_word_facts(x);
    }
    if (x & 0x80000000) != 0 {
        x = 0;
    }
    x
}

/// The curve segment that input `x` falls in.
fn gamma_seg(gamma_slopes: &Vec<u32>, x: u32) -> (seg: usize)
    requires
        gamma_slopes@.len() >= 6,
        x <= 0xFFFF,
    ensures
        seg as int == gamma_segment(gamma_slopes@, x as int),
{
    proof {
        gamma_word_facts(gamma_slopes@[1]);
        gamma_word_facts(gamma_slopes@[2]);
        gamma_word_facts(gamma_slopes@[3]);
        gamma_word_facts(gamma_slopes@[4]);
        gamma_word_facts(gamma_slopes@[5]);
    }
    let mut seg: usize = 0;
    if x >= (0xFFFF & gamma_slopes[1]) {
        seg = 1;
        if x >= (0xFFFF & gamma_slopes[2]) {
            seg = 2;
            if x >= (0xFFFF & gamma_slopes[3]) {
                seg = 3;
                if x >= (0xFFFF & gamma_slopes[4]) {
                    let s5: u64 = (0xFFFF & gamma_slopes[5]) as u64;
                    proof {
                        gamma_top_segment(x as u64, s5);
                    }
                    seg = (((x as u64 | 0x5_0000_0000u64) - s5) >> 32u64) as usize;
                }
            }
        }
    }
    seg
}

/// The gamma curve at table index `idx`.
pub fn calc_gamma(params: &CF2Params, idx: u32) -> (r: u16)
    requires
        gamma_defined(params.gamma_point@, params.gamma_slope@, idx),
    ensures
        r as int == spec_calc_gamma(
            params.gamma_point@,
            params.gamma_slope@,
            params.gamma_clip_val,
            idx,
        ),
{
    let gamma_points = &params.gamma_point;
    let gamma_slopes = &params.gamma_slope;
    let clipping = params.gamma_clip_val;
    let x = gamma_input(idx);
    let seg = gamma_seg(gamma_slopes, x);
    let point = gamma_points[seg];
    let slope = gamma_slopes[seg];
    proof {
        gamma_word_facts(point);
        gamma_word_facts(slope);
    }
    assert(x as int >= seg_start(slope));
    let tmp: u32 = x - (slope & 0xFFFF);
    let p: u32 = point & 0x1F;
    if p == 31 {
        let result: u16 = if seg == 5 {
            0xFFFF
        } else {
            proof {
                gamma_word_facts(gamma_slopes@[seg as int + 1]);
            }
            ((gamma_slopes[seg + 1] >> 16) & 0xFFFF) as u16
        };
        return if result < clipping {
            result
        } else {
            clipping
        };
    }
    if p == 15 {
        let result: u16 = ((slope >> 16) & 0xFFFF) as u16;
        return if result < clipping {
            result
        } else {
            clipping
        };
    }
    let scaled = gamma_scale(point, tmp);
    let sum: u32 = scaled + ((slope >> 16) & 0xFFFF);
    proof {
        gamma_word_facts(sum);
    }
    let result: u16 = sum as u16;
    if result < clipping {
        result
    } else {
        clipping
    }
}

/// A segment distance scaled by the exponent in the point word.
fn gamma_scale(point: u32, d: u32) -> (r: u32)
    requires
        d <= 0xFFFF,
        point % 32 != 31,
        point % 32 != 15,
    ensures
        r as int == gamma_scaled((point % 32) as int, d as int),
        r <= 0x7FFF_8000,
{
    proof {
        gamma_word_facts(point);
        vstd::arithmetic::power2::lemma2_to64();
    }
    let p: u32 = point & 0x1F;
    let mut tmp: u32 = d;
    if (point & 0x10) == 0 {
        if p != 0 {
            proof {
                vstd::arithmetic::power2::lemma_pow2_strictly_increases((p - 1) as nat, 14);
                vstd::bits::lemma_u32_shl_is_mul(1, (p - 1) as u32);
            }
            let half: u32 = 1u32 << (p - 1);
            proof {
                vstd::bits::lemma_u32_shr_is_div((tmp + half) as u32, p);
                assert((tmp + half) / (pow2(p as nat) as int) <= tmp + half) by (nonlinear_arith)
                    requires
                        pow2(p as nat) > 0,
                        tmp + half >= 0,
                ;
            }
            tmp = (tmp + half) >> p;
        }
    } else {
        let k: u32 = point & 0xF;
        proof {
            if k < 15 {
                vstd::arithmetic::power2::lemma_pow2_strictly_increases(k as nat, 15);
            }
            assert(tmp * pow2(k as nat) <= 0xFFFF * 0x8000) by (nonlinear_arith)
                requires
                    tmp <= 0xFFFF,
                    pow2(k as nat) <= 0x8000,
            ;
            vstd::bits::lemma_u32_shl_is_mul(tmp, k);
            assert(p - 16 == k);
        }
        tmp = tmp << k;
    }
    tmp
}

/// The six points and slopes of the identity curve (all points 65536,
/// all slopes 0), for which no table is built.
pub open spec fn linear_gamma(points: Seq<u32>, slopes: Seq<u32>) -> bool {
    &&& points.len() == 6
    &&& slopes.len() == 6
    &&& forall|i: int| 0 <= i < 6 ==> #[trigger] points[i] == 65536
    &&& forall|i: int| 0 <= i < 6 ==> #[trigger] slopes[i] == 0
}

/// A curve that is either the identity or defined on every 16-bit input:
/// six points and slopes, where the first segment starts at 0 or is empty.
pub open spec fn gamma_table_defined(points: Seq<u32>, slopes: Seq<u32>) -> bool {
    linear_gamma(points, slopes) || (points.len() >= 6 && slopes.len() >= 6 && (seg_start(slopes[0])
        == 0 || seg_start(slopes[1]) == 0))
}

/// Whether `v` holds exactly `n` copies of `value`.
fn all_equal(v: &Vec<u32>, value: u32, n: usize) -> (r: bool)
    ensures
        r == (v@.len() == n && forall|i: int| 0 <= i < n ==> #[trigger] v@[i] == value),
{
    if v.len() != n {
        return false;
    }
    for i in 0..n
        invariant
            v@.len() == n,
            forall|j: int| 0 <= j < i ==> #[trigger] v@[j] == value,
    {
        if v[i] != value {
            return false;
        }
    }
    true
}

/// The gamma table of the curve: none for the identity curve, else the
/// curve at each of the 65536 inputs.
pub fn make_gammatable(params: &CF2Params) -> (r: Option<Vec<u16>>)
    requires
        gamma_table_defined(params.gamma_point@, params.gamma_slope@),
    ensures
        linear_gamma(params.gamma_point@, params.gamma_slope@) ==> r is None,
        !linear_gamma(params.gamma_point@, params.gamma_slope@) ==> (r matches Some(t) && t@.len()
            == 0x10000 && forall|i: int|
            0 <= i < 0x10000 ==> #[trigger] t@[i] as int == spec_calc_gamma(
                params.gamma_point@,
                params.gamma_slope@,
                params.gamma_clip_val,
                i as u32,
            )),
{
    if all_equal(&params.gamma_point, 65536, 6) && all_equal(&params.gamma_slope, 0, 6) {
        None
    } else {
        let mut table: Vec<u16> = Vec::new();
        for idx in 0..0x10000u32
            invariant
                !linear_gamma(params.gamma_point@, params.gamma_slope@),
                gamma_table_defined(params.gamma_point@, params.gamma_slope@),
                table@.len() == idx,
                forall|i: int|
                    0 <= i < idx ==> #[trigger] table@[i] as int == spec_calc_gamma(
                        params.gamma_point@,
                        params.gamma_slope@,
                        params.gamma_clip_val,
                        i as u32,
                    ),
        {
            assert(gamma_x(idx) == idx as int);
            table.push(calc_gamma(params, idx));
        }
        Some(table)
    }
}

/// One Huffman code, left-aligned in 16 bits, with the mask of its length.
#[derive(Clone, Copy, Debug)]
pub struct HuffmanSymbol {
    /// Length of the code in bits.
    pub bitcnt: u8,
    /// The code, shifted to the top of 16 bits.
    pub symbol: u16,
    /// The top `bitcnt` bits set.
    pub mask: u16,
}

/// The unused table entry: it matches every input.
pub open spec fn empty_symbol() -> HuffmanSymbol {
    HuffmanSymbol { bitcnt: 0, symbol: 0, mask: 0 }
}

/// The table entry for a code of `len` bits.
pub open spec fn left_aligned(len: u8, code: u16) -> HuffmanSymbol {
    HuffmanSymbol {
        bitcnt: len,
        symbol: code << ((16 - len) as u16),
        mask: 0xFFFFu16 << ((16 - len) as u16),
    }
}

/// The 17 entries built from code lengths and codes, unused ones empty.
pub open spec fn symbol_table(lens: Seq<u8>, codes: Seq<u16>) -> Seq<HuffmanSymbol> {
    Seq::new(
        17,
        |i: int|
            if i < lens.len() {
                left_aligned(lens[i], codes[i])
            } else {
                empty_symbol()
            },
    )
}

/// Whether the 16 input bits start with the entry's code.
pub open spec fn sym_matches(s: HuffmanSymbol, bits: u16) -> bool {
    bits & s.mask == s.symbol
}

/// The first entry, from `from` on, that the input matches.
pub open spec fn first_match(syms: Seq<HuffmanSymbol>, bits: u16, from: int) -> Option<int>
    decreases syms.len() - from,
{
    if from < 0 || from >= syms.len() {
        None
    } else if sym_matches(syms[from], bits) {
        Some(from)
    } else {
        first_match(syms, bits, from + 1)
    }
}

/// The lookup cache entry of an input: the length and index of the first
/// entry it matches, if any.
pub open spec fn cache_entry(syms: Seq<HuffmanSymbol>, bits: u16) -> Option<(u8, u8)> {
    match first_match(syms, bits, 0) {
        Some(i) => Some((syms[i].bitcnt, i as u8)),
        None => None,
    }
}

/// A table of codes that `HuffmanDecoder::new` accepts: at most 17, each
/// of 1 to 16 bits and fitting its length.
pub open spec fn codes_ok(lens: Seq<u8>, codes: Seq<u16>) -> bool {
    &&& lens.len() <= 17
    &&& codes.len() >= lens.len()
    &&& forall|i: int|
        0 <= i < lens.len() ==> 1 <= #[trigger] lens[i] <= 16 && codes[i] < pow2(lens[i] as nat)
}

proof fn code_prefix_bits(bits: u16, code: u16, k: u16)
    by (bit_vector)
    requires
        k < 16,
        (code as u32) < (0x10000u32 >> (k as u32)),
    ensures
        ((bits & (0xFFFFu16 << k)) == (code << k)) <==> ((bits >> k) == code),
{
}

/// An entry built from a code of `len` bits matches exactly the inputs
/// whose top `len` bits are that code.
pub proof fn lemma_symbol_matches_prefix(len: u8, code: u16, bits: u16)
    requires
        1 <= len <= 16,
        code < pow2(len as nat),
    ensures
        sym_matches(left_aligned(len, code), bits) <==> (bits >> ((16 - len) as u16)) == code,
{
    let k: u16 = (16 - len) as u16;
    vstd::arithmetic::power2::lemma2_to64();
    vstd::bits::lemma_u32_shr_is_div(0x10000u32, k as u32);
    vstd::arithmetic::power2::lemma_pow2_adds(len as nat, k as nat);
    assert(pow2(len as nat) * pow2(k as nat) == 0x10000);
    vstd::arithmetic::power2::lemma_pow2_pos(k as nat);
    assert(0x10000 as nat / pow2(k as nat) == pow2(len as nat)) by (nonlinear_arith)
        requires
            pow2(len as nat) * pow2(k as nat) == 0x10000,
            pow2(k as nat) > 0,
    ;
    code_prefix_bits(bits, code, k);
}

/// Decoder of the CF2 Huffman codes.
#[derive(Clone, Debug)]
pub struct HuffmanDecoder {
    /// The 17 table entries.
    pub huff_symbols: Vec<HuffmanSymbol>,
    /// For each 16-bit input: the code length and index of its entry.
    pub cache: Vec<Option<(u8, u8)>>,
}

impl HuffmanDecoder {
    /// The first of the 17 entries that `bits` starts with.
    pub fn slow_lookup(huff_symbols: &Vec<HuffmanSymbol>, bits: u16) -> (r: Option<u8>)
        requires
            huff_symbols@.len() == 17,
        ensures
            r == (match first_match(huff_symbols@, bits, 0) {
                Some(i) => Some(i as u8),
                None => None::<u8>,
            }),
    {
        let mut i: usize = 0;
        while i < 17
            invariant
                huff_symbols@.len() == 17,
                i <= 17,
                first_match(huff_symbols@, bits, 0) == first_match(huff_symbols@, bits, i as int),
            decreases 17 - i,
        {
            if (bits & huff_symbols[i].mask) == huff_symbols[i].symbol {
                return Some(i as u8);
            }
            i += 1;
        }
        None
    }

    /// The decoder of the codes `symbols` of lengths `symlens`, with its
    /// lookup cache for every 16-bit input.
    pub fn new(symlens: &[u8], symbols: &[u16]) -> (r: HuffmanDecoder)
        requires
            codes_ok(symlens@, symbols@),
        ensures
            r.huff_symbols@ == symbol_table(symlens@, symbols@),
            r.cache@.len() == 0x10000,
            forall|x: int|
                0 <= x < 0x10000 ==> #[trigger] r.cache@[x] == cache_entry(
                    r.huff_symbols@,
                    x as u16,
                ),
    {
        let mut huff_symbols: Vec<HuffmanSymbol> = Vec::new();
        for i in 0..17usize
            invariant
                huff_symbols@.len() == i,
                forall|j: int| 0 <= j < i ==> #[trigger] huff_symbols@[j] == empty_symbol(),
        {
            huff_symbols.push(HuffmanSymbol { bitcnt: 0, symbol: 0, mask: 0 });
        }
        let n = symlens.len();
        for i in 0..n
            invariant
                n == symlens@.len(),
                codes_ok(symlens@, symbols@),
                huff_symbols@.len() == 17,
                forall|j: int|
                    0 <= j < 17 ==> #[trigger] huff_symbols@[j] == if j < i {
                        left_aligned(symlens@[j], symbols@[j])
                    } else {
                        empty_symbol()
                    },
        {
            let symlen: u8 = symlens[i];
            let symbol: u16 = symbols[i];
            let k: u16 = (16 - symlen) as u16;
            huff_symbols.set(
                i,
                HuffmanSymbol { bitcnt: symlen, symbol: symbol << k, mask: 0xFFFFu16 << k },
            );
        }
        assert(huff_symbols@ =~= symbol_table(symlens@, symbols@));
        let mut cache: Vec<Option<(u8, u8)>> = Vec::new();
        let mut x: u32 = 0;
        while x <= 0xFFFF
            invariant
                huff_symbols@.len() == 17,
                x <= 0x10000,
                cache@.len() == x,
                forall|y: int|
                    0 <= y < x ==> #[trigger] cache@[y] == cache_entry(huff_symbols@, y as u16),
            decreases 0x10000 - x,
        {
            let bits: u16 = x as u16;
            let entry = match Self::slow_lookup(&huff_symbols, bits) {
                Some(ssss) => {
                    proof {
                        lemma_first_match_range(huff_symbols@, bits, 0);
                    }
                    Some((huff_symbols[ssss as usize].bitcnt, ssss))
                },
                None => None,
            };
            cache.push(entry);
            x += 1;
        }
        HuffmanDecoder { huff_symbols, cache }
    }
}

/// The entry found lies in the table.
proof fn lemma_first_match_range(syms: Seq<HuffmanSymbol>, bits: u16, from: int)
    ensures
        first_match(syms, bits, from) matches Some(i) ==> from <= i < syms.len() && sym_matches(
            syms[i],
            bits,
        ),
    decreases syms.len() - from,
{
    if 0 <= from < syms.len() && !sym_matches(syms[from], bits) {
        lemma_first_match_range(syms, bits, from + 1);
    }
}

/// A list tag of `width`-byte items: a little-endian 16-bit count, then
/// that many items.
pub open spec fn counted_ok(data: Seq<u8>, width: int) -> bool {
    data.len() >= 2 && 2 + width * le_u16(data, 0) <= data.len()
}

/// The 16-bit items of a list tag.
pub open spec fn counted_u16s(data: Seq<u8>) -> Seq<u16> {
    Seq::new(le_u16(data, 0) as nat, |i: int| le_u16(data, 2 + 2 * i) as u16)
}

/// The 32-bit items of a list tag.
pub open spec fn counted_u32s(data: Seq<u8>) -> Seq<u32> {
    Seq::new(le_u16(data, 0) as nat, |i: int| le_u32(data, 2 + 4 * i) as u32)
}

/// The pairs of 16-bit values of a list tag.
pub open spec fn counted_pairs(data: Seq<u8>) -> Seq<(u16, u16)> {
    Seq::new(
        le_u16(data, 0) as nat,
        |i: int| (le_u16(data, 2 + 4 * i) as u16, le_u16(data, 4 + 4 * i) as u16),
    )
}

/// Read the 16-bit items of a list tag.
pub fn read_counted_u16s(data: &[u8]) -> (r: Vec<u16>)
    requires
        counted_ok(data@, 2),
    ensures
        r@ == counted_u16s(data@),
{
    let count = LEu16(data, 0) as usize;
    let mut out: Vec<u16> = Vec::new();
    for i in 0..count
        invariant
            count == le_u16(data@, 0),
            counted_ok(data@, 2),
            out@.len() == i,
            forall|j: int| 0 <= j < i ==> #[trigger] out@[j] == le_u16(data@, 2 + 2 * j) as u16,
    {
        out.push(LEu16(data, 2 + 2 * i));
    }
    assert(out@ =~= counted_u16s(data@));
    out
}

/// Read the 32-bit items of a list tag.
pub fn read_counted_u32s(data: &[u8]) -> (r: Vec<u32>)
    requires
        counted_ok(data@, 4),
    ensures
        r@ == counted_u32s(data@),
{
    let count = LEu16(data, 0) as usize;
    let mut out: Vec<u32> = Vec::new();
    for i in 0..count
        invariant
            count == le_u16(data@, 0),
            counted_ok(data@, 4),
            out@.len() == i,
            forall|j: int| 0 <= j < i ==> #[trigger] out@[j] == le_u32(data@, 2 + 4 * j) as u32,
    {
        out.push(LEu32(data, 2 + 4 * i));
    }
    assert(out@ =~= counted_u32s(data@));
    out
}

/// Read the pairs of 16-bit values of a list tag.
pub fn read_counted_pairs(data: &[u8]) -> (r: Vec<(u16, u16)>)
    requires
        counted_ok(data@, 4),
    ensures
        r@ == counted_pairs(data@),
{
    let count = LEu16(data, 0) as usize;
    let mut out: Vec<(u16, u16)> = Vec::new();
    for i in 0..count
        invariant
            count == le_u16(data@, 0),
            counted_ok(data@, 4),
            out@.len() == i,
            forall|j: int|
                0 <= j < i ==> #[trigger] out@[j] == (
                    le_u16(data@, 2 + 4 * j) as u16,
                    le_u16(data@, 4 + 4 * j) as u16,
                ),
    {
        let a = LEu16(data, 2 + 4 * i);
        let b = LEu16(data, 4 + 4 * i);
        out.push((a, b));
    }
    assert(out@ =~= counted_pairs(data@));
    out
}

/// The raw contents of the CF2 tags of a Panasonic IFD: the scalar tags
/// as numbers, the list tags as their bytes.
#[derive(Clone, Debug)]
pub struct CF2Tags {
    pub strip_height: u32,
    pub strip_width: u32,
    pub gamma_clip_val: u16,
    pub huf_init_val0: u16,
    pub huf_init_val1: u16,
    pub huf_init_val2: u16,
    pub huf_init_val3: u16,
    pub num_of_strips_h: u16,
    pub num_of_strips_v: u16,
    pub gamma_point: Vec<u8>,
    pub gamma_slope: Vec<u8>,
    pub huf_table: Vec<u8>,
    pub huf_shift_down: Vec<u8>,
    pub strip_byte_offsets: Vec<u8>,
    pub strip_line_offsets: Vec<u8>,
    pub strip_data_size: Vec<u8>,
    pub strip_widths: Vec<u8>,
    pub strip_heights: Vec<u8>,
}

/// Every list tag holds as many items as its count says.
pub open spec fn cf2_tags_ok(t: CF2Tags) -> bool {
    &&& counted_ok(t.gamma_point@, 4)
    &&& counted_ok(t.gamma_slope@, 4)
    &&& counted_ok(t.huf_table@, 4)
    &&& counted_ok(t.huf_shift_down@, 2)
    &&& counted_ok(t.strip_byte_offsets@, 4)
    &&& counted_ok(t.strip_line_offsets@, 4)
    &&& counted_ok(t.strip_data_size@, 4)
    &&& counted_ok(t.strip_widths@, 2)
    &&& counted_ok(t.strip_heights@, 2)
}

impl CF2Params {
    /// The parameters stored in the CF2 tags.
    pub fn new(tags: &CF2Tags) -> (r: CF2Params)
        requires
            cf2_tags_ok(*tags),
        ensures
            r.strip_height == tags.strip_height,
            r.strip_width == tags.strip_width,
            r.gamma_clip_val == tags.gamma_clip_val,
            r.huf_init_val0 == tags.huf_init_val0,
            r.huf_init_val1 == tags.huf_init_val1,
            r.huf_init_val2 == tags.huf_init_val2,
            r.huf_init_val3 == tags.huf_init_val3,
            r.num_of_strips_h == tags.num_of_strips_h,
            r.num_of_strips_v == tags.num_of_strips_v,
            r.gamma_point@ == counted_u32s(tags.gamma_point@),
            r.gamma_slope@ == counted_u32s(tags.gamma_slope@),
            r.huf_table@ == counted_pairs(tags.huf_table@),
            r.huf_shift_down@ == counted_u16s(tags.huf_shift_down@),
            r.strip_byte_offsets@ == counted_u32s(tags.strip_byte_offsets@),
            r.strip_line_offsets@.len() == counted_pairs(tags.strip_line_offsets@).len(),
            forall|i: int|
                0 <= i < r.strip_line_offsets@.len() ==> (#[trigger] r.strip_line_offsets@[i]).cols
                    == counted_pairs(tags.strip_line_offsets@)[i].0 && r.strip_line_offsets@[i].rows
                    == counted_pairs(tags.strip_line_offsets@)[i].1,
            r.strip_data_size@ == counted_u32s(tags.strip_data_size@),
            r.strip_widths@ == counted_u16s(tags.strip_widths@),
            r.strip_heights@ == counted_u16s(tags.strip_heights@),
    {
        let pairs = read_counted_pairs(&tags.strip_line_offsets);
        let mut strip_line_offsets: Vec<StripLineOffset> = Vec::new();
        for i in 0..pairs.len()
            invariant
                strip_line_offsets@.len() == i,
                forall|j: int|
                    0 <= j < i ==> (#[trigger] strip_line_offsets@[j]).cols == pairs@[j].0
                        && strip_line_offsets@[j].rows == pairs@[j].1,
        {
            strip_line_offsets.push(StripLineOffset { cols: pairs[i].0, rows: pairs[i].1 });
        }
        CF2Params {
            strip_height: tags.strip_height,
            strip_width: tags.strip_width,
            gamma_point: read_counted_u32s(&tags.gamma_point),
            gamma_slope: read_counted_u32s(&tags.gamma_slope),
            gamma_clip_val: tags.gamma_clip_val,
            huf_init_val0: tags.huf_init_val0,
            huf_init_val1: tags.huf_init_val1,
            huf_init_val2: tags.huf_init_val2,
            huf_init_val3: tags.huf_init_val3,
            huf_table: read_counted_pairs(&tags.huf_table),
            huf_shift_down: read_counted_u16s(&tags.huf_shift_down),
            num_of_strips_h: tags.num_of_strips_h,
            num_of_strips_v: tags.num_of_strips_v,
            strip_byte_offsets: read_counted_u32s(&tags.strip_byte_offsets),
            strip_line_offsets,
            strip_data_size: read_counted_u32s(&tags.strip_data_size),
            strip_widths: read_counted_u16s(&tags.strip_widths),
            strip_heights: read_counted_u16s(&tags.strip_heights),
        }
    }
}

/// The four prediction bases of a line.
#[derive(Clone, Copy, Debug)]
pub struct CoeffBase {
    pub coeff: [u16; 4],
}

impl CoeffBase {
    pub fn new(coeff: [u16; 4]) -> (r: CoeffBase)
        ensures
            r.coeff@ == coeff@,
    {
        CoeffBase { coeff }
    }

    /// Take the first four values of `line` as the new bases.
    pub fn update(&mut self, line: &[u16])
        requires
            line@.len() >= 4,
        ensures
            final(self).coeff@ == line@.subrange(0, 4),
    {
        self.coeff = [line[0], line[1], line[2], line[3]];
        assert(self.coeff@ =~= line@.subrange(0, 4));
    }
}

/// The code lengths of a stored Huffman table, as bytes.
pub open spec fn huf_lens(t: Seq<(u16, u16)>) -> Seq<u8> {
    Seq::new(t.len(), |i: int| t[i].0 as u8)
}

/// The codes of a stored Huffman table.
pub open spec fn huf_codes(t: Seq<(u16, u16)>) -> Seq<u16> {
    Seq::new(t.len(), |i: int| t[i].1)
}

/// Whether `t` is the gamma table of the parameters' curve.
pub open spec fn is_gamma_table(t: Option<Vec<u16>>, params: CF2Params) -> bool {
    &&& linear_gamma(params.gamma_point@, params.gamma_slope@) ==> t is None
    &&& !linear_gamma(params.gamma_point@, params.gamma_slope@) ==> (t matches Some(v) && v@.len()
        == 0x10000 && forall|i: int|
        0 <= i < 0x10000 ==> #[trigger] v@[i] as int == spec_calc_gamma(
            params.gamma_point@,
            params.gamma_slope@,
            params.gamma_clip_val,
            i as u32,
        ))
}

/// The decoder's state at the start of a strip.
#[derive(Clone, Debug)]
pub struct State {
    pub huffdec: HuffmanDecoder,
    pub gamma_table: Option<Vec<u16>>,
    pub datamax: i32,
    pub line_base: CoeffBase,
    pub current_base: CoeffBase,
}

impl State {
    /// The initial state for a strip: the Huffman decoder of the stored
    /// table, the gamma table, the clipping value as maximum, and both
    /// bases at the stored initial values.
    pub fn new(params: &CF2Params) -> (r: State)
        requires
            codes_ok(huf_lens(params.huf_table@), huf_codes(params.huf_table@)),
            gamma_table_defined(params.gamma_point@, params.gamma_slope@),
        ensures
            r.huffdec.huff_symbols@ == symbol_table(
                huf_lens(params.huf_table@),
                huf_codes(params.huf_table@),
            ),
            r.huffdec.cache@.len() == 0x10000,
            forall|x: int|
                0 <= x < 0x10000 ==> #[trigger] r.huffdec.cache@[x] == cache_entry(
                    r.huffdec.huff_symbols@,
                    x as u16,
                ),
            is_gamma_table(r.gamma_table, *params),
            r.datamax == params.gamma_clip_val as i32,
            r.line_base.coeff@ == seq![
                params.huf_init_val0,
                params.huf_init_val1,
                params.huf_init_val2,
                params.huf_init_val3,
            ],
            r.current_base == r.line_base,
    {
        let initial = [
            params.huf_init_val0,
            params.huf_init_val1,
            params.huf_init_val2,
            params.huf_init_val3,
        ];
        let gamma_table = make_gammatable(params);
        let line_base = CoeffBase::new(initial);
        let current_base = line_base;
        let mut symlens: Vec<u8> = Vec::new();
        let mut symbols: Vec<u16> = Vec::new();
        for i in 0..params.huf_table.len()
            invariant
                symlens@.len() == i,
                symbols@.len() == i,
                forall|j: int| 0 <= j < i ==> #[trigger] symlens@[j] == params.huf_table@[j].0 as u8,
                forall|j: int| 0 <= j < i ==> #[trigger] symbols@[j] == params.huf_table@[j].1,
        {
            symlens.push(params.huf_table[i].0 as u8);
            symbols.push(params.huf_table[i].1);
        }
        assert(symlens@ =~= huf_lens(params.huf_table@));
        assert(symbols@ =~= huf_codes(params.huf_table@));
        let huffdec = HuffmanDecoder::new(symlens.as_slice(), symbols.as_slice());
        assert(line_base.coeff@ =~= seq![
            params.huf_init_val0,
            params.huf_init_val1,
            params.huf_init_val2,
            params.huf_init_val3,
        ]);
        State {
            huffdec,
            gamma_table,
            datamax: params.gamma_clip_val as i32,
            line_base,
            current_base,
        }
    }
}

} // verus!
