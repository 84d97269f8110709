use vstd::prelude::*;

verus! {

/// `2^n` as a mathematical integer.
pub open spec fn pow2(n: nat) -> int {
    vstd::arithmetic::power2::pow2(n) as int
}

/// The value `clampbits` computes before it is stored in a `u16`: `val`
/// clamped into `0..=2^bits - 1`.
pub open spec fn spec_clampbits(val: int, bits: nat) -> int {
    let max = pow2(bits) - 1;
    if val < 0 {
        0
    } else if val > max {
        max
    } else {
        val
    }
}

proof fn lemma_pow2_fits_u32(bits: u32)
    requires
        bits <= 30,
    ensures
        1 <= pow2(bits as nat) <= 0x4000_0000,
        (1u32 << bits) as int == pow2(bits as nat),
{
    vstd::arithmetic::power2::lemma_pow2_pos(bits as nat);
    vstd::arithmetic::power2::lemma2_to64();
    if bits < 30 {
        vstd::arithmetic::power2::lemma_pow2_strictly_increases(bits as nat, 30);
    }
    vstd::bits::lemma_u32_shl_is_mul(1, bits);
}

proof fn facts_i32(x: i32)
    by (bit_vector)
    ensures
        x >= 0 ==> (x as u16) as i32 == x % 65536,
{
}

/// Bit-level facts about `u32` values used by the lookups and conversions below.
proof fn facts_u32(x: u32, y: u32, z: u32)
    by (bit_vector)
    ensures
        x & 2047 == x % 2048,
        x & 65535 == x % 65536,
        x >> 16 == x / 65536,
        x >> 12 == x / 4096,
        (x as u16) as u32 == x % 65536,
        x < 0x1000000 ==> ((x & (1u32 << 23u32) == 0) <==> x < 0x800000),
        x < 0x800000 ==> x << 1u32 == x * 2,
        0x800000 <= x < 0x1000000 ==> x & 0x7fffffu32 == x - 0x800000,
        (1u32 << 23u32) - 1 == 0x7fffff,
        1u32 << 5u32 == 32,
        1u32 << 7u32 == 128,
        1u32 << 8u32 == 256,
        1u32 << 10u32 == 1024,
        1u32 << 16u32 == 65536,
        x <= 1 && y < 256 && z < 0x800000 ==> (x << 31u32) | (y << 23u32) | z == x * 0x8000_0000
            + y * 0x800000 + z,
        (x >> 15u32) & 1 == (x / 32768) % 2,
        (x >> 10u32) & 31 == (x / 1024) % 32,
        x & 1023 == x % 1024,
        (x >> 23u32) & 1 == (x / 0x800000) % 2,
        (x >> 16u32) & 127 == (x / 0x10000) % 128,
        x & 0xffff == x % 0x10000,
{
}

/// Clamp `val` into `0..=(1 << bits) - 1`; the clamped value is stored in a
/// `u16` (keeping its low 16 bits where `bits > 16`).
pub fn clampbits(val: i32, bits: u32) -> (r: u16)
    requires
        bits <= 30,
    ensures
        r as int == spec_clampbits(val as int, bits as nat) % 0x10000,
        bits <= 16 ==> r as int == spec_clampbits(val as int, bits as nat),
{
    proof {
        lemma_pow2_fits_u32(bits);
        if bits <= 16 {
            if bits < 16 {
                vstd::arithmetic::power2::lemma_pow2_strictly_increases(bits as nat, 16);
            }
            vstd::arithmetic::power2::lemma2_to64();
        }
    }
    let max: i32 = ((1u32 << bits) - 1) as i32;
    if val < 0 {
        0
    } else if val > max {
        proof {
            facts_i32(max);
        }
        max as u16
    } else {
        proof {
            facts_i32(val);
        }
        val as u16
    }
}

/// The absolute value of `x` (what `i32::abs` gives; `i32::MIN` has none).
pub fn abs_i32(x: i32) -> (r: i32)
    requires
        x > i32::MIN,
    ensures
        r as int == if x < 0 { -x } else { x as int },
{
    if x < 0 { -x } else { x }
}

/// `val` limited to the range `min..=max`; where `min > max` the upper
/// bound wins, as the two checks run in this order.
pub open spec fn spec_clamp(val: int, min: int, max: int) -> int {
    let lo = if val < min { min } else { val };
    if lo > max { max } else { lo }
}

/// Clamp `val` into `min..=max` (checking the lower bound first).
pub fn clamp(val: i32, min: i32, max: i32) -> (r: i32)
    ensures
        r as int == spec_clamp(val as int, min as int, max as int),
        min <= max ==> min <= r <= max,
{
    let mut res = val;
    if res < min {
        res = min;
    }
    if res > max {
        res = max;
    }
    res
}

/// Bits of `n`: how many halvings bring `n` down to zero.
pub open spec fn bit_length(n: nat) -> nat
    decreases n,
{
    if n == 0 {
        0
    } else {
        1 + bit_length(n / 2)
    }
}

/// A positive `n` has `bit_length(n)` bits: `2^(b-1) <= n < 2^b`.
pub proof fn lemma_bit_length_bounds(n: nat)
    ensures
        n < pow2(bit_length(n)),
        n > 0 ==> bit_length(n) >= 1 && pow2((bit_length(n) - 1) as nat) <= n,
    decreases n,
{
    vstd::arithmetic::power2::lemma2_to64();
    if n > 0 {
        lemma_bit_length_bounds(n / 2);
        let b = bit_length(n / 2);
        vstd::arithmetic::power2::lemma_pow2_unfold(b + 1);
        if n / 2 > 0 {
            vstd::arithmetic::power2::lemma_pow2_unfold(b);
        }
    }
}

/// A number below `2^k` has at most `k` bits.
pub proof fn lemma_bit_length_le(n: nat, k: nat)
    requires
        n < pow2(k),
    ensures
        bit_length(n) <= k,
{
    lemma_bit_length_bounds(n);
    if bit_length(n) > k {
        if k < (bit_length(n) - 1) as nat {
            vstd::arithmetic::power2::lemma_pow2_strictly_increases(k, (bit_length(n) - 1) as nat);
        }
    }
}

/// Calculate the required bits to encode as many states: no bits for no
/// states, one bit for a single state, and otherwise the least `b` with
/// `states <= 2^b`.
pub fn log2ceil(states: usize) -> (bits: usize)
    ensures
        states == 0 ==> bits == 0,
        states == 1 ==> bits == 1,
        states >= 2 ==> bits >= 1 && pow2((bits - 1) as nat) < states <= pow2(bits as nat),
{
    let mut states = states;
    let mut bits: usize = 0;
    if states > 0 {
        states -= 1;
        let ghost orig: nat = states as nat;
        loop
            invariant_except_break
                bits <= 64,
                orig <= usize::MAX,
                bits == 0 ==> states == orig,
                bits > 0 ==> states > 0 && bits as nat + bit_length(states as nat) == bit_length(orig),
            ensures
                orig == 0 ==> bits == 1,
                orig > 0 ==> bits as nat == bit_length(orig),
            decreases states,
        {
            proof {
                vstd::arithmetic::power2::lemma2_to64();
                lemma_bit_length_le(orig, 64);
            }
            proof {
                vstd::bits::lemma_usize_shr_is_div(states, 1);
                vstd::arithmetic::power2::lemma2_to64();
            }
            let ghost before: nat = states as nat;
            states >>= 1;
            assert(before > 0 ==> bit_length(before) == 1 + bit_length(states as nat));
            bits += 1;
            if states == 0 {
                break;
            }
        }
        proof {
            lemma_bit_length_bounds(orig);
        }
    }
    bits
}


/// Big-endian value of the two bytes at `off`.
pub open spec fn be_u16(b: Seq<u8>, off: int) -> int {
    b[off] * 0x100 + b[off + 1]
}

/// Little-endian value of the two bytes at `off`.
pub open spec fn le_u16(b: Seq<u8>, off: int) -> int {
    b[off] + b[off + 1] * 0x100
}

/// Big-endian value of the four bytes at `off`.
pub open spec fn be_u32(b: Seq<u8>, off: int) -> int {
    b[off] * 0x100_0000 + b[off + 1] * 0x1_0000 + b[off + 2] * 0x100 + b[off + 3]
}

/// Little-endian value of the four bytes at `off`.
pub open spec fn le_u32(b: Seq<u8>, off: int) -> int {
    b[off] + b[off + 1] * 0x100 + b[off + 2] * 0x1_0000 + b[off + 3] * 0x100_0000
}

/// An unsigned 16-bit value read as two's complement.
pub open spec fn as_signed16(v: int) -> int {
    if v >= 0x8000 { v - 0x1_0000 } else { v }
}

/// An unsigned 32-bit value read as two's complement.
pub open spec fn as_signed32(v: int) -> int {
    if v >= 0x8000_0000 { v - 0x1_0000_0000 } else { v }
}

/// `byteorder::BigEndian::read_u16` on the bytes from `off` on: the
/// big-endian value of the two bytes at `off`.
#[verifier::external_body]
fn be_read_u16(buf: &[u8], off: usize) -> (r: u16)
    requires
        off + 2 <= buf@.len(),
    ensures
        r as int == be_u16(buf@, off as int),
{
    <byteorder::BigEndian as byteorder::ByteOrder>::read_u16(&buf[off..])
}

/// `byteorder::LittleEndian::read_u16` on the bytes from `off` on: the
/// little-endian value of the two bytes at `off`.
#[verifier::external_body]
fn le_read_u16(buf: &[u8], off: usize) -> (r: u16)
    requires
        off + 2 <= buf@.len(),
    ensures
        r as int == le_u16(buf@, off as int),
{
    <byteorder::LittleEndian as byteorder::ByteOrder>::read_u16(&buf[off..])
}

/// `byteorder::BigEndian::read_i16` on the bytes from `off` on: the
/// big-endian two's complement value of the two bytes at `off`.
#[verifier::external_body]
fn be_read_i16(buf: &[u8], off: usize) -> (r: i16)
    requires
        off + 2 <= buf@.len(),
    ensures
        r as int == as_signed16(be_u16(buf@, off as int)),
{
    <byteorder::BigEndian as byteorder::ByteOrder>::read_i16(&buf[off..])
}

/// `byteorder::LittleEndian::read_i16` on the bytes from `off` on: the
/// little-endian two's complement value of the two bytes at `off`.
#[verifier::external_body]
fn le_read_i16(buf: &[u8], off: usize) -> (r: i16)
    requires
        off + 2 <= buf@.len(),
    ensures
        r as int == as_signed16(le_u16(buf@, off as int)),
{
    <byteorder::LittleEndian as byteorder::ByteOrder>::read_i16(&buf[off..])
}

/// `byteorder::BigEndian::read_u32` on the bytes from `off` on: the
/// big-endian value of the four bytes at `off`.
#[verifier::external_body]
fn be_read_u32(buf: &[u8], off: usize) -> (r: u32)
    requires
        off + 4 <= buf@.len(),
    ensures
        r as int == be_u32(buf@, off as int),
{
    <byteorder::BigEndian as byteorder::ByteOrder>::read_u32(&buf[off..])
}

/// `byteorder::LittleEndian::read_u32` on the bytes from `off` on: the
/// little-endian value of the four bytes at `off`.
#[verifier::external_body]
fn le_read_u32(buf: &[u8], off: usize) -> (r: u32)
    requires
        off + 4 <= buf@.len(),
    ensures
        r as int == le_u32(buf@, off as int),
{
    <byteorder::LittleEndian as byteorder::ByteOrder>::read_u32(&buf[off..])
}

/// `byteorder::BigEndian::read_i32` on the bytes from `off` on: the
/// big-endian two's complement value of the four bytes at `off`.
#[verifier::external_body]
fn be_read_i32(buf: &[u8], off: usize) -> (r: i32)
    requires
        off + 4 <= buf@.len(),
    ensures
        r as int == as_signed32(be_u32(buf@, off as int)),
{
    <byteorder::BigEndian as byteorder::ByteOrder>::read_i32(&buf[off..])
}

/// `byteorder::LittleEndian::read_i32` on the bytes from `off` on: the
/// little-endian two's complement value of the four bytes at `off`.
#[verifier::external_body]
fn le_read_i32(buf: &[u8], off: usize) -> (r: i32)
    requires
        off + 4 <= buf@.len(),
    ensures
        r as int == as_signed32(le_u32(buf@, off as int)),
{
    <byteorder::LittleEndian as byteorder::ByteOrder>::read_i32(&buf[off..])
}

/// `byteorder::BigEndian::write_u16`: stores `n` big-endian in the first
/// two bytes of `buf` and leaves the rest as it was.
#[verifier::external_body]
fn be_write_u16(buf: &mut [u8], n: u16)
    requires
        old(buf)@.len() >= 2,
    ensures
        final(buf)@.len() == old(buf)@.len(),
        final(buf)@[0] as int == n as int / 0x100,
        final(buf)@[1] as int == n as int % 0x100,
        forall|i: int| 2 <= i < old(buf)@.len() ==> final(buf)@[i] == old(buf)@[i],
{
    <byteorder::BigEndian as byteorder::ByteOrder>::write_u16(buf, n)
}

/// `byteorder::LittleEndian::write_u16`: stores `n` little-endian in the
/// first two bytes of `buf` and leaves the rest as it was.
#[verifier::external_body]
fn le_write_u16(buf: &mut [u8], n: u16)
    requires
        old(buf)@.len() >= 2,
    ensures
        final(buf)@.len() == old(buf)@.len(),
        final(buf)@[0] as int == n as int % 0x100,
        final(buf)@[1] as int == n as int / 0x100,
        forall|i: int| 2 <= i < old(buf)@.len() ==> final(buf)@[i] == old(buf)@[i],
{
    <byteorder::LittleEndian as byteorder::ByteOrder>::write_u16(buf, n)
}

/// Byte order of multi-byte values in a file.
#[derive(Debug, Copy, Clone, PartialEq, Eq, Structural)]
pub enum Endian {
    Big,
    Little,
}

impl Default for Endian {
    /// Little endian unless said otherwise.
    fn default() -> (r: Self)
        ensures
            r == Endian::Little,
    {
        Endian::Little
    }
}

impl Endian {
    pub fn big(&self) -> (r: bool)
        ensures
            r == (*self == Endian::Big),
    {
        match *self {
            Endian::Big => true,
            Endian::Little => false,
        }
    }

    pub fn little(&self) -> (r: bool)
        ensures
            r == (*self == Endian::Little),
    {
        match *self {
            Endian::Big => false,
            Endian::Little => true,
        }
    }

    /// Value of the two bytes at `off` in this byte order.
    pub open spec fn spec_u16(&self, b: Seq<u8>, off: int) -> int {
        match *self {
            Endian::Big => be_u16(b, off),
            Endian::Little => le_u16(b, off),
        }
    }

    /// Value of the four bytes at `off` in this byte order.
    pub open spec fn spec_u32(&self, b: Seq<u8>, off: int) -> int {
        match *self {
            Endian::Big => be_u32(b, off),
            Endian::Little => le_u32(b, off),
        }
    }

    pub fn read_u8(&self, buf: &[u8], offset: usize) -> (r: u8)
        requires
            offset < buf@.len(),
        ensures
            r == buf@[offset as int],
    {
        buf[offset]
    }

    pub fn read_i8(&self, buf: &[u8], offset: usize) -> (r: i8)
        requires
            offset < buf@.len(),
        ensures
            r as int == if buf@[offset as int] >= 0x80 { buf@[offset as int] - 0x100 } else { buf@[offset as int] as int },
    {
        let b = buf[offset];
        assert(b as i8 as int == if b >= 0x80 { b - 0x100 } else { b as int }) by (bit_vector);
        b as i8
    }

    pub fn read_u16(&self, buf: &[u8], offset: usize) -> (r: u16)
        requires
            offset + 2 <= buf@.len(),
        ensures
            r as int == self.spec_u16(buf@, offset as int),
    {
        match *self {
            Endian::Big => be_read_u16(buf, offset),
            Endian::Little => le_read_u16(buf, offset),
        }
    }

    pub fn read_i16(&self, buf: &[u8], offset: usize) -> (r: i16)
        requires
            offset + 2 <= buf@.len(),
        ensures
            r as int == as_signed16(self.spec_u16(buf@, offset as int)),
    {
        match *self {
            Endian::Big => be_read_i16(buf, offset),
            Endian::Little => le_read_i16(buf, offset),
        }
    }

    pub fn read_u32(&self, buf: &[u8], offset: usize) -> (r: u32)
        requires
            offset + 4 <= buf@.len(),
        ensures
            r as int == self.spec_u32(buf@, offset as int),
    {
        match *self {
            Endian::Big => be_read_u32(buf, offset),
            Endian::Little => le_read_u32(buf, offset),
        }
    }

    pub fn read_i32(&self, buf: &[u8], offset: usize) -> (r: i32)
        requires
            offset + 4 <= buf@.len(),
        ensures
            r as int == as_signed32(self.spec_u32(buf@, offset as int)),
    {
        match *self {
            Endian::Big => be_read_i32(buf, offset),
            Endian::Little => le_read_i32(buf, offset),
        }
    }

    /// Store `n` in the first two bytes of `buf` in this byte order.
    pub fn write_u16(&self, buf: &mut [u8], n: u16)
        requires
            old(buf)@.len() >= 2,
        ensures
            final(buf)@.len() == old(buf)@.len(),
            self.spec_u16(final(buf)@, 0) == n as int,
            forall|i: int| 2 <= i < old(buf)@.len() ==> final(buf)@[i] == old(buf)@[i],
    {
        match *self {
            Endian::Big => be_write_u16(buf, n),
            Endian::Little => le_write_u16(buf, n),
        }
    }
}

#[allow(non_snake_case)]
pub fn BEi32(buf: &[u8], pos: usize) -> (r: i32)
    requires
        pos + 4 <= buf@.len(),
    ensures
        r as int == as_signed32(be_u32(buf@, pos as int)),
{
    be_read_i32(buf, pos)
}

#[allow(non_snake_case)]
pub fn LEi32(buf: &[u8], pos: usize) -> (r: i32)
    requires
        pos + 4 <= buf@.len(),
    ensures
        r as int == as_signed32(le_u32(buf@, pos as int)),
{
    le_read_i32(buf, pos)
}

#[allow(non_snake_case)]
pub fn BEu32(buf: &[u8], pos: usize) -> (r: u32)
    requires
        pos + 4 <= buf@.len(),
    ensures
        r as int == be_u32(buf@, pos as int),
{
    be_read_u32(buf, pos)
}

#[allow(non_snake_case)]
pub fn LEu32(buf: &[u8], pos: usize) -> (r: u32)
    requires
        pos + 4 <= buf@.len(),
    ensures
        r as int == le_u32(buf@, pos as int),
{
    le_read_u32(buf, pos)
}

#[allow(non_snake_case)]
pub fn BEu16(buf: &[u8], pos: usize) -> (r: u16)
    requires
        pos + 2 <= buf@.len(),
    ensures
        r as int == be_u16(buf@, pos as int),
{
    be_read_u16(buf, pos)
}

#[allow(non_snake_case)]
pub fn LEu16(buf: &[u8], pos: usize) -> (r: u16)
    requires
        pos + 2 <= buf@.len(),
    ensures
        r as int == le_u16(buf@, pos as int),
{
    le_read_u16(buf, pos)
}


/// The neighbours that `LookupTable::new` uses for entry `i`: the entry
/// before and after it, or the entry itself at either end.
pub open spec fn lut_lower(t: Seq<u16>, i: int) -> int {
    if i > 0 { t[i - 1] as int } else { t[i] as int }
}

pub open spec fn lut_upper(t: Seq<u16>, i: int) -> int {
    if i < t.len() - 1 { t[i + 1] as int } else { t[i] as int }
}

/// Entry `i` of the table that `LookupTable::new` builds from `t`:
/// `(center, base, delta)`.
pub open spec fn lut_entry(t: Seq<u16>, i: int) -> (u16, u16, u16) {
    let center = t[i] as int;
    let lower = lut_lower(t, i);
    let upper = lut_upper(t, i);
    let base = if center == 0 { 0 } else { center - (upper - lower + 2) / 4 };
    (center as u16, base as u16, (upper - lower) as u16)
}

/// `LookupTable::new` computes entry `i` without leaving the `u16` range:
/// the neighbours do not decrease and the center is large enough.
pub open spec fn lut_entry_ok(t: Seq<u16>, i: int) -> bool {
    let center = t[i] as int;
    let lower = lut_lower(t, i);
    let upper = lut_upper(t, i);
    &&& lower <= upper
    &&& upper - lower + 2 <= 0xFFFF
    &&& center == 0 || (upper - lower + 2) / 4 <= center
}

pub open spec fn lut_table_ok(t: Seq<u16>) -> bool {
    forall|i: int| 0 <= i < t.len() ==> #[trigger] lut_entry_ok(t, i)
}

/// The dithered value of a table entry `(center, base, delta)`: the base
/// plus a share of the delta chosen by the low 11 bits of `rand`.
pub open spec fn dither_value(entry: (u16, u16, u16), rand: u32) -> u16 {
    ((entry.1 as int + (entry.2 as int * (rand as int % 2048) + 1024) / 4096) % 0x1_0000) as u16
}

/// The pseudo-random state that follows `rand`.
pub open spec fn dither_next(rand: u32) -> u32 {
    (15700 * (rand as int % 65536) + rand as int / 65536) as u32
}

/// A curve of 16-bit values, kept with what its dithered lookup needs.
#[derive(Debug, Clone)]
pub struct LookupTable {
    table: Vec<(u16, u16, u16)>,
}

impl LookupTable {
    pub closed spec fn entries(&self) -> Seq<(u16, u16, u16)> {
        self.table@
    }

    /// The number of entries: `dither` takes values below it.
    pub fn len(&self) -> (n: usize)
        ensures
            n == self.entries().len(),
    {
        self.table.len()
    }

    pub fn new(table: &[u16]) -> (r: LookupTable)
        requires
            lut_table_ok(table@),
        ensures
            r.entries().len() == table@.len(),
            forall|i: int| 0 <= i < table@.len() ==> #[trigger] r.entries()[i] == lut_entry(table@, i),
    {
        let mut tbl: Vec<(u16, u16, u16)> = Vec::new();
        let n = table.len();
        for i in 0..n
            invariant
                n == table@.len(),
                lut_table_ok(table@),
                tbl@.len() == i,
                forall|j: int| 0 <= j < i ==> #[trigger] tbl@[j] == lut_entry(table@, j),
        {
            assert(lut_entry_ok(table@, i as int));
            let center = table[i];
            let lower = if i > 0 { table[i - 1] } else { center };
            let upper = if i < (n - 1) { table[i + 1] } else { center };
            let base = if center == 0 { 0 } else { center - ((upper - lower + 2) / 4) };
            let delta = upper - lower;
            tbl.push((center, base, delta));
        }
        LookupTable { table: tbl }
    }

    /// The curve `table` extended to `2^bits` entries by repeating its last
    /// value (or kept as it is where it is that long already).
    pub open spec fn spec_expanded(table: Seq<u16>, bits: nat) -> Seq<u16> {
        if table.len() >= pow2(bits) {
            table
        } else {
            table + Seq::new((pow2(bits) - table.len()) as nat, |_i: int| table.last())
        }
    }

    pub fn new_with_bits(table: &[u16], bits: u32) -> (r: LookupTable)
        requires
            table@.len() >= 1,
            bits < 64,
            pow2(bits as nat) < usize::MAX,
            lut_table_ok(table@),
        ensures
            r.entries().len() == Self::spec_expanded(table@, bits as nat).len(),
            forall|i: int|
                0 <= i < r.entries().len() ==> #[trigger] r.entries()[i] == lut_entry(
                    Self::spec_expanded(table@, bits as nat),
                    i,
                ),
    {
        proof {
            vstd::arithmetic::power2::lemma2_to64();
            vstd::bits::lemma_u64_shl_is_mul(1, bits as u64);
        }
        let size: u64 = 1u64 << bits;
        if table.len() as u64 >= size {
            Self::new(table)
        } else {
            let size = size as usize;
            let last = table[table.len() - 1];
            let mut expanded: Vec<u16> = Vec::new();
            for i in 0..table.len()
                invariant
                    expanded@ == table@.subrange(0, i as int),
            {
                expanded.push(table[i]);
            }
            assert(expanded@ =~= table@);
            while expanded.len() < size
                invariant
                    table@.len() <= expanded@.len() <= size,
                    size == pow2(bits as nat),
                    last == table@.last(),
                    expanded@.subrange(0, table@.len() as int) == table@,
                    forall|j: int| table@.len() <= j < expanded@.len() ==> expanded@[j] == last,
                decreases size - expanded.len(),
            {
                expanded.push(last);
            }
            let ghost ex = Self::spec_expanded(table@, bits as nat);
            assert(expanded@ =~= ex);
            proof {
                assert forall|i: int| 0 <= i < ex.len() implies #[trigger] lut_entry_ok(ex, i) by {
                    if i < table@.len() as int - 1 {
                        assert(lut_entry_ok(table@, i));
                        if i > 0 {
                            assert(lut_entry_ok(table@, i));
                        }
                    } else if i == table@.len() - 1 {
                        assert(lut_entry_ok(table@, i));
                    }
                }
            }
            Self::new(expanded.as_slice())
        }
    }

    /// Dithered lookup of `value`: the entry's base plus a share of its
    /// delta chosen by the pseudo-random state `rand`, which moves on.
    pub fn dither(&self, value: u16, rand: &mut u32) -> (r: u16)
        requires
            (value as int) < self.entries().len(),
        ensures
            r == dither_value(self.entries()[value as int], *old(rand)),
            *final(rand) == dither_next(*old(rand)),
    {
        let (_, sbase, sdelta) = self.table[value as usize];
        let base = sbase as u32;
        let delta = sdelta as u32;
        let r0 = *rand;
        proof {
            facts_u32(r0, 0, 0);
        }
        let x: u32 = r0 & 2047;
        assert(delta * x <= 65535 * 2047) by (nonlinear_arith)
            requires
                delta <= 65535,
                x < 2048,
        ;
        let prod: u32 = delta * x + 1024;
        proof {
            facts_u32(prod, 0, 0);
        }
        let pixel: u32 = base + (prod >> 12);
        *rand = 15700 * (r0 & 65535) + (r0 >> 16);
        proof {
            facts_u32(pixel, 0, 0);
        }
        pixel as u16
    }
}


/// Bit layout of a binary floating point format: total storage width,
/// fraction (mantissa) width and exponent width, all in bits.
#[derive(Debug, Clone, Copy, PartialEq, Eq, Structural)]
pub struct FloatFormat {
    pub storage_width: usize,
    pub fraction_width: usize,
    pub exponent_width: usize,
}

impl FloatFormat {
    /// The widths describe a format these helpers can compute with.
    pub open spec fn wf(&self) -> bool {
        &&& 1 <= self.exponent_width <= 31
        &&& 1 <= self.storage_width <= 128
        &&& self.fraction_width <= 128
    }

    pub open spec fn binary16_spec() -> FloatFormat {
        FloatFormat { storage_width: 16, fraction_width: 10, exponent_width: 5 }
    }

    pub open spec fn binary24_spec() -> FloatFormat {
        FloatFormat { storage_width: 24, fraction_width: 16, exponent_width: 7 }
    }

    pub open spec fn binary32_spec() -> FloatFormat {
        FloatFormat { storage_width: 32, fraction_width: 23, exponent_width: 8 }
    }

    /// IEEE 754 half precision.
    pub fn binary16() -> (r: FloatFormat)
        ensures
            r == (FloatFormat { storage_width: 16, fraction_width: 10, exponent_width: 5 }),
    {
        FloatFormat { storage_width: 16, fraction_width: 10, exponent_width: 5 }
    }

    /// The 24-bit format of some raw files (7 exponent bits).
    pub fn binary24() -> (r: FloatFormat)
        ensures
            r == (FloatFormat { storage_width: 24, fraction_width: 16, exponent_width: 7 }),
    {
        FloatFormat { storage_width: 24, fraction_width: 16, exponent_width: 7 }
    }

    /// IEEE 754 single precision.
    pub fn binary32() -> (r: FloatFormat)
        ensures
            r == (FloatFormat { storage_width: 32, fraction_width: 23, exponent_width: 8 }),
    {
        FloatFormat { storage_width: 32, fraction_width: 23, exponent_width: 8 }
    }

    /// Bytes needed to store a value (the storage width rounded up).
    pub fn storage_bytes(&self) -> (r: usize)
        requires
            self.wf(),
        ensures
            r as int == (self.storage_width as int + 7) / 8,
    {
        (self.storage_width + 7) / 8
    }

    pub fn sign_bits(&self) -> (r: usize)
        ensures
            r == 1,
    {
        1
    }

    /// Significant bits: the fraction plus the implicit leading one.
    pub fn precision(&self) -> (r: usize)
        requires
            self.wf(),
        ensures
            r == self.fraction_width + 1,
    {
        self.fraction_width + 1
    }

    /// Largest exponent value before the bias: `2^(e-1) - 1`.
    pub fn exponent_max(&self) -> (r: usize)
        requires
            self.wf(),
        ensures
            r as int == pow2((self.exponent_width - 1) as nat) - 1,
    {
        proof {
            lemma_pow2_fits_u32((self.exponent_width - 1) as u32);
        }
        ((1u32 << ((self.exponent_width - 1) as u32)) - 1) as usize
    }

    /// Exponent bias, equal to `exponent_max`.
    pub fn bias(&self) -> (r: i32)
        requires
            self.wf(),
        ensures
            r as int == pow2((self.exponent_width - 1) as nat) - 1,
    {
        proof {
            lemma_pow2_fits_u32((self.exponent_width - 1) as u32);
        }
        ((1u32 << ((self.exponent_width - 1) as u32)) - 1) as i32
    }

    pub fn fraction_pos(&self) -> (r: usize)
        ensures
            r == 0,
    {
        0
    }

    pub fn exponent_pos(&self) -> (r: usize)
        ensures
            r == self.fraction_width,
    {
        self.fraction_width
    }

    pub fn sign_bit_pos(&self) -> (r: usize)
        requires
            self.wf(),
        ensures
            r == self.storage_width - 1,
    {
        self.storage_width - 1
    }
}

/// The bits of the single precision value equal to the value with bits
/// `value` in the narrower format with `nfw` fraction and `new` exponent
/// bits (sign at bit `nsb`): sign kept, exponent re-biased, fraction moved
/// up; infinities and NaNs keep their fraction, zeros stay zero, and
/// subnormal values are normalized, the exponent dropping by one for each
/// position the fraction moves up.
pub open spec fn spec_extend_to_binary32(nfw: nat, new: nat, nsb: nat, value: u32) -> u32 {
    let sign = (value as int / pow2(nsb)) % 2;
    let ne = (value as int / pow2(nfw)) % pow2(new);
    let nf = value as int % pow2(nfw);
    let nbias = pow2((new - 1) as nat) - 1;
    let s0 = (23 - nfw) as nat;
    let we = if ne == pow2(new) - 1 {
        255
    } else if ne == 0 && nf == 0 {
        0
    } else if ne == 0 {
        1 - nbias + 127 - (nfw + 1 - bit_length(nf as nat))
    } else {
        ne - nbias + 127
    };
    let wf = if ne == pow2(new) - 1 {
        nf * pow2(s0)
    } else if ne == 0 && nf == 0 {
        0
    } else if ne == 0 {
        nf * pow2((s0 + (nfw + 1 - bit_length(nf as nat))) as nat) - pow2(23)
    } else {
        nf * pow2(s0)
    };
    (sign * pow2(31) + we * pow2(23) + wf) as u32
}

/// Widen a value of the binary16 or binary24 format to the bits of the
/// binary32 value with the same meaning.
pub fn extend_binary_floating_point(narrow: &FloatFormat, wide: &FloatFormat, value: u32) -> (r: u32)
    requires
        *narrow == FloatFormat::binary16_spec() || *narrow == FloatFormat::binary24_spec(),
        *wide == FloatFormat::binary32_spec(),
    ensures
        r == spec_extend_to_binary32(
            narrow.fraction_width as nat,
            narrow.exponent_width as nat,
            (narrow.storage_width - 1) as nat,
            value,
        ),
{
    let nsb: u32 = (narrow.storage_width - 1) as u32;
    let nfw: u32 = narrow.fraction_width as u32;
    let new: u32 = narrow.exponent_width as u32;
    let nbias: i32 = narrow.bias();
    let wbias: i32 = wide.bias();
    let wfw: u32 = wide.fraction_width as u32;
    let wew: u32 = wide.exponent_width as u32;
    let wsb: u32 = (wide.storage_width - 1) as u32;
    proof {
        vstd::arithmetic::power2::lemma2_to64();
    }
    proof {
        facts_u32(value, 0, 0);
    }
    let emask: u32 = (1u32 << new) - 1;
    let fmask: u32 = (1u32 << nfw) - 1;
    let sign = (value >> nsb) & 1;
    let narrow_exponent = (value >> nfw) & emask;
    let narrow_fraction = value & fmask;
    proof {
        facts_u32(value, 0, 0);
    }
    let ghost s0: nat = (23 - nfw) as nat;
    let mut wide_exponent: u32 = ((narrow_exponent as i32) - nbias + wbias) as u32;
    let mut wide_fraction: u32 = narrow_fraction << (wfw - nfw);
    proof {
        vstd::bits::lemma_u32_shl_is_mul(narrow_fraction, (wfw - nfw) as u32);
        assert(narrow_fraction * pow2(s0) < 0x800000) by (nonlinear_arith)
            requires
                (nfw == 10 && narrow_fraction < 1024 && pow2(s0) == 8192) || (nfw == 16
                    && narrow_fraction < 0x10000 && pow2(s0) == 128),
        ;
    }
    if narrow_exponent == emask {
        wide_exponent = (1u32 << wew) - 1;
    } else if narrow_exponent == 0 {
        if narrow_fraction == 0 {
            wide_exponent = 0;
            wide_fraction = 0;
        } else {
            wide_exponent = (1 - nbias + wbias) as u32;
            let ghost nf: nat = narrow_fraction as nat;
            let ghost bl: nat = bit_length(nf);
            let ghost k: nat = (nfw + 1 - bl) as nat;
            let ghost mut i: nat = 0;
            proof {
                lemma_bit_length_bounds(nf);
                lemma_bit_length_le(nf, nfw as nat);
            }
            while 0 == (wide_fraction & (1u32 << wfw))
                invariant
                    wfw == 23,
                    nfw == 10 || nfw == 16,
                    s0 == 23 - nfw,
                    nf > 0,
                    1 <= bl <= nfw,
                    bl == bit_length(nf),
                    k == nfw + 1 - bl,
                    pow2((bl - 1) as nat) <= nf < pow2(bl),
                    i <= k,
                    wide_fraction as int == nf * pow2(s0 + i),
                    wide_fraction < 0x1000000,
                    wide_exponent as int == 1 - pow2((new - 1) as nat) + 1 + 127 - i,
                    new == 5 || new == 7,
                    (nfw == 10) == (new == 5),
                decreases k - i,
            {
                proof {
                    facts_u32(wide_fraction, 0, 0);
                    vstd::arithmetic::power2::lemma2_to64();
                    if i >= k {
                        // nf * 2^(s0 + i) >= 2^(bl - 1 + s0 + k) = 2^23
                        vstd::arithmetic::power2::lemma_pow2_adds((bl - 1) as nat, s0 + i);
                        assert(nf * pow2(s0 + i) >= pow2((bl - 1) as nat) * pow2(s0 + i)) by (nonlinear_arith)
                            requires
                                nf >= pow2((bl - 1) as nat),
                                pow2(s0 + i) >= 0,
                        ;
                    }
                }
                wide_exponent = wide_exponent - 1;
                proof {
                    vstd::arithmetic::power2::lemma_pow2_unfold(s0 + i + 1);
                    // the next value stays below 2^24: nf * 2^(s0+i+1) < 2^(bl + s0 + i + 1) <= 2^24
                    vstd::arithmetic::power2::lemma_pow2_adds(bl, s0 + i + 1);
                    vstd::arithmetic::power2::lemma_pow2_pos(s0 + i + 1);
                    assert(nf * pow2(s0 + i + 1) < pow2(bl) * pow2(s0 + i + 1)) by (nonlinear_arith)
                        requires
                            nf < pow2(bl),
                            pow2(s0 + i + 1) > 0,
                    ;
                    if bl + s0 + i + 1 < 24 {
                        vstd::arithmetic::power2::lemma_pow2_strictly_increases(bl + s0 + i + 1, 24);
                    }
                    assert(wide_fraction * 2 == nf * pow2(s0 + i + 1)) by (nonlinear_arith)
                        requires
                            wide_fraction as int == nf * pow2(s0 + i),
                            pow2(s0 + i + 1) == 2 * pow2(s0 + i),
                    ;
                }
                wide_fraction <<= 1;
                proof {
                    i = i + 1;
                }
            }
            proof {
                // at exit the top bit is set, which happens first at i == k
                facts_u32(wide_fraction, 0, 0);
                if i < k {
                    vstd::arithmetic::power2::lemma_pow2_adds(bl, s0 + i);
                    vstd::arithmetic::power2::lemma_pow2_pos(s0 + i);
                    assert(nf * pow2(s0 + i) < pow2(bl) * pow2(s0 + i)) by (nonlinear_arith)
                        requires
                            nf < pow2(bl),
                            pow2(s0 + i) > 0,
                    ;
                    vstd::arithmetic::power2::lemma_pow2_strictly_increases(bl + s0 + i, 23);
                }
            }
            proof {
                facts_u32(wide_fraction, 0, 0);
            }
            wide_fraction &= (1u32 << wfw) - 1;
        }
    }
    proof {
        let ne = narrow_exponent as int;
        let nf = narrow_fraction as int;
        let nb = pow2((new - 1) as nat) - 1;
        let k = nfw + 1 - bit_length(nf as nat);
        assert(pow2(new as nat) - 1 == emask) by {
            vstd::bits::lemma_u32_shl_is_mul(1, new);
        }
        assert(wide_exponent as int == if ne == pow2(new as nat) - 1 {
            255
        } else if ne == 0 && nf == 0 {
            0
        } else if ne == 0 {
            1 - nb + 127 - k
        } else {
            ne - nb + 127
        });
        assert(wide_fraction as int == if ne == pow2(new as nat) - 1 {
            nf * pow2(s0)
        } else if ne == 0 && nf == 0 {
            0
        } else if ne == 0 {
            nf * pow2((s0 + k) as nat) - pow2(23)
        } else {
            nf * pow2(s0)
        });
        assert(wide_fraction < 0x800000);
    }
    let ghost we = wide_exponent;
    let ghost wfr = wide_fraction;
    proof {
        facts_u32(sign, we, wfr);
    }
    (sign << wsb) | (wide_exponent << wfw) | wide_fraction
}

} // verus!
