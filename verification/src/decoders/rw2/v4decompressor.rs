//! The bit pump of Panasonic's older RW2 compression: the data comes in
//! blocks of 0x4000 bytes whose bits are read from the end of the block
//! towards its start, with the two halves of a block swapped in "split"
//! files.

use vstd::prelude::*;
use vstd::arithmetic::power2::pow2;
use crate::bits::{LEu16, le_u16};

verus! {

/// Bits in a block.
pub open spec fn block_bits() -> int {
    0x20000int
}

/// The bit count and position after the refill that a read of `num` bits
/// makes: where fewer than `num` bits are left, the next block is entered.
pub open spec fn refill(nbits: int, pos: int, num: int) -> (int, int) {
    if num > nbits {
        (nbits + block_bits(), pos + 0x4000)
    } else {
        (nbits, pos)
    }
}

/// The byte of the current block that holds the next `num` bits, with
/// `nbits` bits left in the block that ends before `pos`.
pub open spec fn pump_byte(nbits: int, num: int, split: bool) -> int {
    let byte = ((((nbits - num) as u32) >> 3u32) ^ 0x3ff0u32) as int;
    if split {
        (byte + 0x4000 - 0x2008) % 0x4000
    } else {
        byte
    }
}

/// The index in the buffer of the 16-bit word holding the next bits.
pub open spec fn pump_index(nbits: int, pos: int, num: int, split: bool) -> int {
    pump_byte(nbits, num, split) + pos - 0x4000
}

/// The next `num` bits: the little-endian word at the pump index, shifted
/// down by the bit offset within its first byte, keeping `num` bits.
pub open spec fn pump_value(buf: Seq<u8>, nbits: int, pos: int, num: int, split: bool) -> int {
    (le_u16(buf, pump_index(nbits, pos, num, split)) / (pow2(((nbits - num) % 8) as nat) as int)) % (
    pow2(num as nat) as int)
}

/// Peeking does not move the pump on: after the refill of a read of `num`
/// bits, enough bits are left that the same read refills nothing, so a
/// second peek of `num` bits gives the same value.
pub proof fn lemma_refill_settles(nbits: int, pos: int, num: int)
    requires
        0 <= nbits,
        1 <= num <= 32,
    ensures
        refill(nbits, pos, num).0 >= num,
        refill(refill(nbits, pos, num).0, refill(nbits, pos, num).1, num) == refill(nbits, pos, num),
{
}

proof fn pump_bits(t: u32, x: u32, num: u32)
    by (bit_vector)
    ensures
        t <= 0x2001F ==> ((t >> 3u32) ^ 0x3ff0u32) < 0x8000,
        t & 7 == t % 8,
        x <= 0xFFFF && 16 <= num <= 32 ==> x & (0xffffffffu32 >> ((32 - num) as u32)) == x,
        1 <= num < 16 ==> 0xffffffffu32 >> ((32 - num) as u32) == (1u32 << num) - 1,
{
}

/// Reader of the Panasonic bit stream.
pub struct BitPumpPanasonic<'a> {
    buffer: &'a [u8],
    pos: usize,
    nbits: u32,
    split: bool,
}

impl<'a> BitPumpPanasonic<'a> {
    #[verifier::type_invariant]
    spec fn inv(self) -> bool {
        &&& self.nbits <= 0x2001F
        &&& self.nbits > 0 ==> self.pos >= 0x4000
    }

    /// The bytes read.
    pub closed spec fn spec_buffer(&self) -> Seq<u8> {
        self.buffer@
    }

    /// The end of the current block.
    pub closed spec fn spec_pos(&self) -> int {
        self.pos as int
    }

    /// Bits left in the current block.
    pub closed spec fn spec_nbits(&self) -> int {
        self.nbits as int
    }

    /// Whether the halves of each block are swapped.
    pub closed spec fn spec_split(&self) -> bool {
        self.split
    }

    /// A pump at the start of `src`.
    pub fn new(src: &'a [u8], split: bool) -> (r: BitPumpPanasonic<'a>)
        ensures
            r.spec_buffer() == src@,
            r.spec_pos() == 0,
            r.spec_nbits() == 0,
            r.spec_split() == split,
    {
        BitPumpPanasonic { buffer: src, pos: 0, nbits: 0, split }
    }

    /// A read of `num` bits stays inside the buffer.
    pub open spec fn can_read(&self, num: int) -> bool {
        let (nb, p) = refill(self.spec_nbits(), self.spec_pos(), num);
        &&& 1 <= num <= 32
        &&& self.spec_pos() + 0x4000 <= usize::MAX
        &&& pump_index(nb, p, num, self.spec_split()) + 2 <= self.spec_buffer().len()
    }

    /// Whether a read of `num` bits stays inside the buffer.
    pub fn can_read_now(&self, num: u32) -> (r: bool)
        requires
            1 <= num <= 32,
        ensures
            r == self.can_read(num as int),
    {
        proof {
            use_type_invariant(self);
        }
        if self.pos > usize::MAX - 0x4000 {
            return false;
        }
        let (nb, p): (u32, usize) = if num > self.nbits {
            (self.nbits + 0x4000 * 8, self.pos + 0x4000)
        } else {
            (self.nbits, self.pos)
        };
        let t: u32 = nb - num;
        proof {
            pump_bits(t, 0, num);
        }
        let mut byte: u32 = (t >> 3) ^ 0x3ff0;
        if self.split {
            byte = (byte + 0x4000 - 0x2008) % 0x4000;
        }
        assert(byte as int == pump_byte(nb as int, num as int, self.split));
        let blen = self.buffer.len();
        if byte as usize > usize::MAX - (p - 0x4000) {
            return false;
        }
        let idx: usize = p - 0x4000 + byte as usize;
        idx < blen && blen - idx >= 2
    }

    /// The next `num` bits, without consuming them (but entering the next
    /// block where the current one has fewer than `num` left).
    pub fn peek_bits(&mut self, num: u32) -> (r: u32)
        requires
            old(self).can_read(num as int),
        ensures
            (final(self).spec_nbits(), final(self).spec_pos()) == refill(
                old(self).spec_nbits(),
                old(self).spec_pos(),
                num as int,
            ),
            final(self).spec_buffer() == old(self).spec_buffer(),
            final(self).spec_split() == old(self).spec_split(),
            final(self).spec_nbits() >= num,
            r as int == pump_value(
                final(self).spec_buffer(),
                final(self).spec_nbits(),
                final(self).spec_pos(),
                num as int,
                final(self).spec_split(),
            ),
    {
        proof {
            use_type_invariant(&*self);
        }
        if num > self.nbits {
            self.pos = self.pos + 0x4000;
            self.nbits = self.nbits + 0x4000 * 8;
        }
        let t: u32 = self.nbits - num;
        proof {
            pump_bits(t, 0, num);
        }
        let mut byte: u32 = (t >> 3) ^ 0x3ff0;
        if self.split {
            byte = (byte + 0x4000 - 0x2008) % 0x4000;
        }
        assert(byte as int == pump_byte(self.nbits as int, num as int, self.split));
        assert(self.pos >= 0x4000);
        // the word read lies in the buffer, whose length fits a usize
        assert(pump_index(self.nbits as int, self.pos as int, num as int, self.split) + 2 <= self.buffer@.len());
        assert(self.buffer@.len() == self.buffer.len());
        let bits = LEu16(self.buffer, self.pos - 0x4000 + byte as usize) as u32;
        let s: u32 = t & 7;
        proof {
            vstd::bits::lemma_u32_shr_is_div(bits, s);
            vstd::arithmetic::power2::lemma_pow2_pos(s as nat);
        }
        let shifted: u32 = bits >> s;
        assert(shifted <= 0xFFFF) by {
            assert(bits as nat / pow2(s as nat) <= bits) by (nonlinear_arith)
                requires
                    pow2(s as nat) > 0,
            ;
        }
        let r: u32 = shifted & (0x0ffffffffu32 >> (32 - num));
        proof {
            pump_bits(t, shifted, num);
            vstd::arithmetic::power2::lemma2_to64();
            if num < 16 {
                vstd::arithmetic::power2::lemma_pow2_strictly_increases(num as nat, 16);
                vstd::bits::lemma_u32_shl_is_mul(1, num);
                vstd::bits::lemma_u32_low_bits_mask_is_mod(shifted, num as nat);
            } else {
                if num > 16 {
                    vstd::arithmetic::power2::lemma_pow2_strictly_increases(16, num as nat);
                }
                vstd::arithmetic::div_mod::lemma_small_mod(shifted as nat, pow2(num as nat));
            }
        }
        r
    }

    /// Drop `num` bits of the current block.
    pub fn consume_bits(&mut self, num: u32)
        requires
            num <= old(self).spec_nbits(),
        ensures
            final(self).spec_nbits() == old(self).spec_nbits() - num,
            final(self).spec_pos() == old(self).spec_pos(),
            final(self).spec_buffer() == old(self).spec_buffer(),
            final(self).spec_split() == old(self).spec_split(),
    {
        proof {
            use_type_invariant(&*self);
        }
        self.nbits = self.nbits - num;
    }

    /// Read and consume the next `num` bits (none for `num == 0`).
    pub fn get_bits(&mut self, num: u32) -> (r: u32)
        requires
            num == 0 || old(self).can_read(num as int),
        ensures
            num == 0 ==> r == 0 && *final(self) == *old(self),
            num > 0 ==> ({
                let (nb, p) = refill(old(self).spec_nbits(), old(self).spec_pos(), num as int);
                &&& r as int == pump_value(old(self).spec_buffer(), nb, p, num as int, old(self).spec_split())
                &&& final(self).spec_nbits() == nb - num
                &&& final(self).spec_pos() == p
            }),
            final(self).spec_buffer() == old(self).spec_buffer(),
            final(self).spec_split() == old(self).spec_split(),
    {
        if num == 0 {
            return 0;
        }
        let val = self.peek_bits(num);
        self.consume_bits(num);
        val
    }
}

/// One read of `num` bits by the pump in state (`nb`, `p`): the value
/// and the state after it, or none where the read would leave the buffer.
pub open spec fn v4_get(buf: Seq<u8>, split: bool, nb: int, p: int, num: int) -> Option<(int, int, int)> {
    let (nb2, p2) = refill(nb, p, num);
    if p + 0x4000 <= usize::MAX && pump_index(nb2, p2, num, split) + 2 <= buf.len() {
        Some((pump_value(buf, nb2, p2, num, split), nb2 - num, p2))
    } else {
        None
    }
}

/// The decoder's state between two pixels: the pump, the current shift,
/// and per pixel parity the prediction and the last nonzero start value.
pub struct V4State {
    pub nbits: int,
    pub pos: int,
    pub sh: i32,
    pub pred: (i32, i32),
    pub nonz: (i32, i32),
}

/// A prediction moved by the 8-bit difference `j` at shift `sh`: the
/// prediction less `0x80 << sh`, cut to its low `sh` bits where that is
/// negative or the shift is 4, plus `j << sh`.
pub open spec fn v4_adjust(pred: i32, j: i32, sh: i32) -> i32 {
    let p1 = (pred - (0x80i32 << (sh as u32))) as i32;
    let p2 = if p1 < 0 || sh == 4 {
        p1 & !(-1i32 << (sh as u32))
    } else {
        p1
    };
    (p2 + (j << (sh as u32))) as i32
}

/// Pixel `i` (0 to 13) of a group of 14: every third pixel first reads a
/// 2-bit shift code; then, where the pixel's parity has a nonzero start
/// value, an 8-bit difference moves its prediction, and otherwise an 8-bit
/// start value is read, followed (where it is nonzero or late in the group)
/// by 4 more bits that make the new prediction `start << 4 | bits`. The
/// pixel is the prediction. None where a read leaves the buffer.
pub open spec fn v4_pixel(buf: Seq<u8>, split: bool, s: V4State, i: int) -> Option<(V4State, u16)> {
    let s1_opt: Option<V4State> = if i % 3 == 2 {
        match v4_get(buf, split, s.nbits, s.pos, 2) {
            Some((v, nb, p)) => Some(
                V4State { nbits: nb, pos: p, sh: 4i32 >> ((3 - v) as u32), pred: s.pred, nonz: s.nonz },
            ),
            None => None,
        }
    } else {
        Some(s)
    };
    match s1_opt {
        None => None,
        Some(s1) => {
            let k = i % 2;
            let nonz = if k == 0 { s1.nonz.0 } else { s1.nonz.1 };
            let pred = if k == 0 { s1.pred.0 } else { s1.pred.1 };
            let step: Option<(int, int, i32, i32)> = if nonz != 0 {
                match v4_get(buf, split, s1.nbits, s1.pos, 8) {
                    None => None,
                    Some((j, nb, p)) => Some(
                        (nb, p, if j != 0 { v4_adjust(pred, j as i32, s1.sh) } else { pred }, nonz),
                    ),
                }
            } else {
                match v4_get(buf, split, s1.nbits, s1.pos, 8) {
                    None => None,
                    Some((nz, nb, p)) => if nz != 0 || i > 11 {
                        match v4_get(buf, split, nb, p, 4) {
                            None => None,
                            Some((lo, nb2, p2)) => Some(
                                (nb2, p2, ((nz as i32) << 4i32) | (lo as i32), nz as i32),
                            ),
                        }
                    } else {
                        Some((nb, p, pred, nz as i32))
                    },
                }
            };
            match step {
                None => None,
                Some((nb, p, pred2, nonz2)) => Some(
                    (
                        V4State {
                            nbits: nb,
                            pos: p,
                            sh: s1.sh,
                            pred: if k == 0 { (pred2, s1.pred.1) } else { (s1.pred.0, pred2) },
                            nonz: if k == 0 { (nonz2, s1.nonz.1) } else { (s1.nonz.0, nonz2) },
                        },
                        pred2 as u16,
                    ),
                ),
            }
        },
    }
}

/// Pixels `i` to 13 of a group, appended to `acc`.
pub open spec fn v4_group_from(buf: Seq<u8>, split: bool, s: V4State, i: int, acc: Seq<u16>) -> Option<(V4State, Seq<u16>)>
    decreases 14 - i,
{
    if i >= 14 {
        Some((s, acc))
    } else {
        match v4_pixel(buf, split, s, i) {
            None => None,
            Some((s2, px)) => v4_group_from(buf, split, s2, i + 1, acc.push(px)),
        }
    }
}

/// The state at the start of a group: predictions and start values reset.
pub open spec fn v4_reset(s: V4State) -> V4State {
    V4State { nbits: s.nbits, pos: s.pos, sh: s.sh, pred: (0i32, 0i32), nonz: (0i32, 0i32) }
}

/// Groups `c` to `n - 1` of a row, appended to `acc`.
pub open spec fn v4_groups_from(buf: Seq<u8>, split: bool, s: V4State, c: int, n: int, acc: Seq<u16>) -> Option<(V4State, Seq<u16>)>
    decreases n - c,
{
    if c >= n {
        Some((s, acc))
    } else {
        match v4_group_from(buf, split, v4_reset(s), 0, acc) {
            None => None,
            Some((s2, acc2)) => v4_groups_from(buf, split, s2, c + 1, n, acc2),
        }
    }
}

/// `k` 8-bit reads from state (`nb`, `p`), the values dropped.
pub open spec fn v4_skip(buf: Seq<u8>, split: bool, nb: int, p: int, k: int) -> Option<(int, int)>
    decreases k,
{
    if k <= 0 {
        Some((nb, p))
    } else {
        match v4_get(buf, split, nb, p, 8) {
            None => None,
            Some((_v, nb2, p2)) => v4_skip(buf, split, nb2, p2, k - 1),
        }
    }
}

/// Where the data of a row starts, in bytes: 9 bits per pixel and 2 bytes
/// per group of 14 pixels for each row before it.
pub open spec fn v4_row_skip(width: int, row: int) -> int {
    (width * row * 9 + (width / 14) * 2 * row) / 8
}

/// The pixels of a row from the data `src` of its block: `skip` bytes
/// dropped, then `groups` groups of 14 pixels, then `tail` zero pixels.
pub open spec fn v4_row_data(src: Seq<u8>, split: bool, skip: int, groups: int, tail: int) -> Option<Seq<u16>> {
    match v4_skip(src, split, 0, 0, skip) {
        None => None,
        Some((nb, p)) => match v4_groups_from(
            src,
            split,
            V4State { nbits: nb, pos: p, sh: 0i32, pred: (0i32, 0i32), nonz: (0i32, 0i32) },
            0,
            groups,
            Seq::empty(),
        ) {
            None => None,
            Some((_s, px)) => Some(px + Seq::new(tail as nat, |_i: int| 0u16)),
        },
    }
}

/// `len` pixels from the start of row `row` of an image `width` pixels
/// wide: groups of 14 decoded in one run from the block in which the row
/// starts, after dropping the bytes of that block before it; the pixels
/// after the last whole group are 0. None where a read leaves the buffer.
pub open spec fn v4_rows(buf: Seq<u8>, width: int, row: int, len: int, split: bool) -> Option<Seq<u16>> {
    let skip = v4_row_skip(width, row);
    let base = (skip / 0x4000) * 0x4000;
    if base > buf.len() {
        None
    } else {
        v4_row_data(buf.subrange(base, buf.len() as int), split, skip % 0x4000, len / 14, len % 14)
    }
}

proof fn v4_bits(x: i32, j: i32, s: u32, v: u32, nz: i32, lo: i32)
    by (bit_vector)
    ensures
        v <= 3 ==> (4i32 >> ((3 - v) as u32)) == if v == 3 { 4i32 } else { v as i32 },
        0 <= s <= 4 ==> (0x80i32 << s) >= 0x80 && (0x80i32 << s) <= 0x800,
        0 <= s <= 4 && 0 <= j <= 255 ==> (j << s) >= 0 && (j << s) <= 4080,
        0 <= s <= 2 && 0 <= j <= 255 ==> (j << s) - (0x80i32 << s) <= 508,
        0 <= s <= 4 ==> (x & !(-1i32 << s)) >= 0 && (x & !(-1i32 << s)) < 16,
        0 <= nz <= 255 && 0 <= lo <= 15 ==> ((nz << 4i32) | lo) >= 0 && ((nz << 4i32) | lo) <= 0xFFF,
{
}

/// The decoder's registers: the shift, and per pixel parity the
/// prediction and the last start value.
#[derive(Clone, Copy)]
struct V4Regs {
    sh: i32,
    pred0: i32,
    pred1: i32,
    nonz0: i32,
    nonz1: i32,
}

/// The decoder state made of a pump and the registers.
spec fn regs_state(pump: BitPumpPanasonic, r: V4Regs) -> V4State {
    V4State {
        nbits: pump.spec_nbits(),
        pos: pump.spec_pos(),
        sh: r.sh,
        pred: (r.pred0, r.pred1),
        nonz: (r.nonz0, r.nonz1),
    }
}

/// The register bounds after `i` pixels of a group.
spec fn regs_ok(r: V4Regs, i: int) -> bool {
    &&& r.sh == 0 || r.sh == 1 || r.sh == 2 || r.sh == 4
    &&& 0 <= r.pred0 <= 0xFFF + 508 * i
    &&& 0 <= r.pred1 <= 0xFFF + 508 * i
    &&& 0 <= r.nonz0 <= 255
    &&& 0 <= r.nonz1 <= 255
}

/// Decode pixel `i` of a group; none where a read would leave the buffer.
fn v4_decode_pixel(pump: &mut BitPumpPanasonic, regs: &mut V4Regs, i: usize) -> (px: Option<u16>)
    requires
        i < 14,
        regs_ok(*old(regs), i as int),
    ensures
        px is None ==> v4_pixel(
            old(pump).spec_buffer(),
            old(pump).spec_split(),
            regs_state(*old(pump), *old(regs)),
            i as int,
        ) is None,
        px matches Some(v) ==> v4_pixel(
            old(pump).spec_buffer(),
            old(pump).spec_split(),
            regs_state(*old(pump), *old(regs)),
            i as int,
        ) == Some((regs_state(*final(pump), *final(regs)), v)),
        px is Some ==> regs_ok(*final(regs), i + 1),
        final(pump).spec_buffer() == old(pump).spec_buffer(),
        final(pump).spec_split() == old(pump).spec_split(),
{
    proof {
        vstd::arithmetic::power2::lemma2_to64();
    }
    if i % 3 == 2 {
        if !pump.can_read_now(2) {
            return None;
        }
        let v = pump.get_bits(2);
        proof {
            v4_bits(0, 0, 0, v, 0, 0);
        }
        regs.sh = 4i32 >> (3 - v);
    }
    let ghost s1 = regs_state(*pump, *regs);
    let k = i % 2;
    let nonz: i32 = if k == 0 { regs.nonz0 } else { regs.nonz1 };
    let mut pred: i32 = if k == 0 { regs.pred0 } else { regs.pred1 };
    let mut nonz2: i32 = nonz;
    let sh = regs.sh;
    if !pump.can_read_now(8) {
        return None;
    }
    if nonz != 0 {
        let j = pump.get_bits(8) as i32;
        if j != 0 {
            proof {
                v4_bits(0, j, sh as u32, 0, 0, 0);
            }
            pred = pred - (0x80i32 << (sh as u32));
            proof {
                v4_bits(pred, j, sh as u32, 0, 0, 0);
            }
            if pred < 0 || sh == 4 {
                pred = pred & !(-1i32 << (sh as u32));
            }
            pred = pred + (j << (sh as u32));
            assert(pred == v4_adjust(if k == 0 { s1.pred.0 } else { s1.pred.1 }, j, sh));
        }
    } else {
        let nz = pump.get_bits(8) as i32;
        nonz2 = nz;
        if nz != 0 || i > 11 {
            if !pump.can_read_now(4) {
                return None;
            }
            let lo = pump.get_bits(4) as i32;
            proof {
                v4_bits(0, 0, 0, 0, nz, lo);
            }
            pred = (nz << 4i32) | lo;
        }
    }
    if k == 0 {
        regs.pred0 = pred;
        regs.nonz0 = nonz2;
    } else {
        regs.pred1 = pred;
        regs.nonz1 = nonz2;
    }
    Some(pred as u16)
}

/// Decode a group of 14 pixels onto `out`, from reset predictions; false
/// where a read would leave the buffer.
fn v4_decode_group(pump: &mut BitPumpPanasonic, regs: &mut V4Regs, out: &mut Vec<u16>) -> (ok: bool)
    requires
        old(regs).sh == 0 || old(regs).sh == 1 || old(regs).sh == 2 || old(regs).sh == 4,
    ensures
        !ok ==> v4_group_from(
            old(pump).spec_buffer(),
            old(pump).spec_split(),
            v4_reset(regs_state(*old(pump), *old(regs))),
            0,
            old(out)@,
        ) is None,
        ok ==> v4_group_from(
            old(pump).spec_buffer(),
            old(pump).spec_split(),
            v4_reset(regs_state(*old(pump), *old(regs))),
            0,
            old(out)@,
        ) == Some((regs_state(*final(pump), *final(regs)), final(out)@)),
        ok ==> (final(regs).sh == 0 || final(regs).sh == 1 || final(regs).sh == 2 || final(regs).sh == 4),
        final(pump).spec_buffer() == old(pump).spec_buffer(),
        final(pump).spec_split() == old(pump).spec_split(),
{
    let ghost buf = pump.spec_buffer();
    let ghost split = pump.spec_split();
    regs.pred0 = 0;
    regs.pred1 = 0;
    regs.nonz0 = 0;
    regs.nonz1 = 0;
    let ghost gstart = regs_state(*pump, *regs);
    let ghost acc0 = out@;
    for i in 0..14usize
        invariant
            pump.spec_buffer() == buf,
            pump.spec_split() == split,
            buf == old(pump).spec_buffer(),
            split == old(pump).spec_split(),
            gstart == v4_reset(regs_state(*old(pump), *old(regs))),
            acc0 == old(out)@,
            regs_ok(*regs, i as int),
            v4_group_from(buf, split, gstart, 0, acc0) == v4_group_from(
                buf,
                split,
                regs_state(*pump, *regs),
                i as int,
                out@,
            ),
    {
        let ghost st = regs_state(*pump, *regs);
        let ghost before = out@;
        match v4_decode_pixel(pump, regs, i) {
            Some(px) => {
                out.push(px);
                assert(v4_group_from(buf, split, st, i as int, before) == v4_group_from(
                    buf,
                    split,
                    regs_state(*pump, *regs),
                    i + 1,
                    out@,
                ));
            },
            None => {
                assert(v4_group_from(buf, split, st, i as int, before) is None);
                return false;
            },
        }
    }
    true
}

/// Decode `len` pixels from the start of row `row` of a Panasonic V4 image
/// of `width` pixels per row (the rows that follow continue the same run);
/// none where the data runs past the end of `buf`.
pub fn decode_panasonic_v4_rows(buf: &[u8], width: usize, row: usize, len: usize, split: bool) -> (out: Option<Vec<u16>>)
    requires
        width * row * 9 + (width / 14) * 2 * row <= usize::MAX,
    ensures
        out is None ==> v4_rows(buf@, width as int, row as int, len as int, split) is None,
        out matches Some(px) ==> v4_rows(buf@, width as int, row as int, len as int, split) == Some(px@),
{
    assert((width * row * 9) as int == width * row * 9) by (nonlinear_arith)
        requires
            width * row * 9 + (width / 14) * 2 * row <= usize::MAX,
            width / 14 >= 0,
    ;
    let skip = ((width * row * 9) + (width / 14 * 2 * row)) / 8;
    assert(skip as int == v4_row_skip(width as int, row as int));
    let blocks = skip / 0x4000;
    if blocks * 0x4000 > buf.len() {
        return None;
    }
    let src = vstd::slice::slice_subrange(buf, blocks * 0x4000, buf.len());
    assert(src@ == buf@.subrange((v4_row_skip(width as int, row as int) / 0x4000) * 0x4000, buf@.len() as int));
    assert(v4_rows(buf@, width as int, row as int, len as int, split) == v4_row_data(
        src@,
        split,
        (skip % 0x4000) as int,
        (len / 14) as int,
        (len % 14) as int,
    ));
    let mut pump = BitPumpPanasonic::new(src, split);
    let n = skip % 0x4000;
    let mut done: usize = 0;
    while done < n
        invariant
            done <= n,
            pump.spec_buffer() == src@,
            pump.spec_split() == split,
            v4_skip(src@, split, 0, 0, n as int) == v4_skip(src@, split, pump.spec_nbits(), pump.spec_pos(), n - done),
            v4_rows(buf@, width as int, row as int, len as int, split) == v4_row_data(
                src@,
                split,
                n as int,
                (len / 14) as int,
                (len % 14) as int,
            ),
        decreases n - done,
    {
        if !pump.can_read_now(8) {
            assert(v4_get(src@, split, pump.spec_nbits(), pump.spec_pos(), 8) is None);
            assert(v4_skip(src@, split, 0, 0, n as int) is None);
            return None;
        }
        pump.get_bits(8);
        done += 1;
    }
    let mut regs = V4Regs { sh: 0, pred0: 0, pred1: 0, nonz0: 0, nonz1: 0 };
    let mut out: Vec<u16> = Vec::new();
    let groups = len / 14;
    let ghost start = regs_state(pump, regs);
    assert(v4_skip(src@, split, 0, 0, n as int) == Some((start.nbits, start.pos)));
    for c in 0..groups
        invariant
            pump.spec_buffer() == src@,
            pump.spec_split() == split,
            regs.sh == 0 || regs.sh == 1 || regs.sh == 2 || regs.sh == 4,
            v4_rows(buf@, width as int, row as int, len as int, split) == (match v4_groups_from(
                src@,
                split,
                start,
                0,
                groups as int,
                Seq::empty(),
            ) {
                None => None,
                Some((_s, px)) => Some(px + Seq::new((len % 14) as nat, |_i: int| 0u16)),
            }),
            v4_groups_from(src@, split, start, 0, groups as int, Seq::empty()) == v4_groups_from(
                src@,
                split,
                regs_state(pump, regs),
                c as int,
                groups as int,
                out@,
            ),
    {
        let ghost st = regs_state(pump, regs);
        let ghost before = out@;
        if !v4_decode_group(&mut pump, &mut regs, &mut out) {
            assert(v4_groups_from(src@, split, st, c as int, groups as int, before) is None);
            return None;
        }
    }
    let ghost px_all = out@;
    for _i in 0..len % 14
        invariant
            out@.len() >= px_all.len(),
            out@.subrange(0, px_all.len() as int) == px_all,
            forall|j: int| px_all.len() <= j < out@.len() ==> out@[j] == 0u16,
            out@.len() - px_all.len() == _i,
    {
        out.push(0);
    }
    assert(out@ =~= px_all + Seq::new((len % 14) as nat, |_i: int| 0u16));
    Some(out)
}

} // verus!
