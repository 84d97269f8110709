use vstd::prelude::*;
use std::cmp::Ordering;

verus! {

/// An unsigned integer type that can hold the bits of a `BitArray`.
///
/// Every operation is stated over `value`, the stored integer widened to
/// `u128`, and `mask`, the all-ones value of the type.
pub trait BitStorage: Copy + Sized + Eq + Ord + std::fmt::Debug {
    /// Width of the type in bits.
    spec fn spec_bit_size() -> nat;

    /// The all-ones value of the type, widened to `u128`.
    spec fn mask() -> u128;

    /// The stored integer, widened to `u128`.
    spec fn value(&self) -> u128;

    fn bit_size() -> (r: usize)
        ensures
            r as nat == Self::spec_bit_size(),
            8 <= r <= 128,
    ;

    /// The zero value (`Default::default` of the integer types).
    fn zero() -> (r: Self)
        ensures
            r.value() == 0,
    ;

    /// `From<bool>`: one for `true`, zero for `false`.
    fn from_bool(b: bool) -> (r: Self)
        ensures
            r.value() == (if b { 1u128 } else { 0u128 }),
    ;

    fn bit_or(self, o: Self) -> (r: Self)
        ensures
            r.value() == self.value() | o.value(),
    ;

    fn bit_and(self, o: Self) -> (r: Self)
        ensures
            r.value() == self.value() & o.value(),
    ;

    fn bit_not(self) -> (r: Self)
        ensures
            r.value() == !self.value() & Self::mask(),
    ;

    fn shl(self, n: usize) -> (r: Self)
        requires
            (n as nat) < Self::spec_bit_size(),
        ensures
            r.value() == (self.value() << (n as u128)) & Self::mask(),
    ;

    fn shr(self, n: usize) -> (r: Self)
        requires
            (n as nat) < Self::spec_bit_size(),
        ensures
            r.value() == self.value() >> (n as u128),
    ;

    fn is_zero(self) -> (r: bool)
        ensures
            r == (self.value() == 0),
    ;

    fn less_than(self, o: Self) -> (r: bool)
        ensures
            r == (self.value() < o.value()),
    ;

    fn equals(self, o: Self) -> (r: bool)
        ensures
            r == (self.value() == o.value()),
    ;

    proof fn lemma_bit_size()
        ensures
            8 <= Self::spec_bit_size() <= 128,
    ;

    /// Single bits below the width of the type are inside the mask.
    proof fn lemma_mask_bit(k: u128)
        requires
            (k as nat) < Self::spec_bit_size(),
        ensures
            (1u128 << k) & Self::mask() == 1u128 << k,
            0u128 << k == 0,
            0u128 & Self::mask() == 0,
    ;

    /// A value that fits in the `width - k` low bits survives a shift up by
    /// `k` inside the type and the shift back down.
    proof fn lemma_shl_shr(v: u128, k: u128)
        requires
            (k as nat) < Self::spec_bit_size(),
            v <= Self::mask() >> k,
        ensures
            ((v << k) & Self::mask()) >> k == v,
    ;

    /// The mask is the largest value of the type: `2^width - 1`.
    proof fn lemma_mask_is_pow2()
        ensures
            Self::mask() as int == vstd::arithmetic::power2::pow2(Self::spec_bit_size()) - 1,
    ;

    /// The stored value never has bits above the width of the type.
    proof fn lemma_value_fits(x: Self)
        ensures
            x.value() & Self::mask() == x.value(),
            x.value() <= Self::mask(),
    ;
}

} // verus!

verus! {

/// Bit-level facts about `u8` that its `BitStorage` operations rest on.
proof fn facts_u8(a: u8, b: u8, k: u32, v: u128, j: u128)
    by (bit_vector)
    ensures
        (a | b) as u128 == (a as u128) | (b as u128),
        (a & b) as u128 == (a as u128) & (b as u128),
        (!a) as u128 == !(a as u128) & 0xffu128,
        k < 8 ==> (a << k) as u128 == ((a as u128) << (k as u128)) & 0xffu128,
        k < 8 ==> (a >> k) as u128 == (a as u128) >> (k as u128),
        j < 8 ==> (1u128 << j) & 0xffu128 == 1u128 << j,
        0u128 << j == 0,
        0u128 & 0xffu128 == 0,
        j < 8 && v <= 0xffu128 >> j ==> ((v << j) & 0xffu128) >> j == v,
        (a as u128) & 0xffu128 == (a as u128),
        (a as u128) <= 0xffu128,
{
}

impl BitStorage for u8 {
    open spec fn spec_bit_size() -> nat {
        8
    }

    open spec fn mask() -> u128 {
        0xffu128
    }

    open spec fn value(&self) -> u128 {
        *self as u128
    }

    fn bit_size() -> (r: usize) {
        8
    }

    fn zero() -> (r: Self) {
        0
    }

    fn from_bool(b: bool) -> (r: Self) {
        if b { 1 } else { 0 }
    }

    fn bit_or(self, o: Self) -> (r: Self) {
        proof {
            facts_u8(self, o, 0, 0, 0);
        }
        self | o
    }

    fn bit_and(self, o: Self) -> (r: Self) {
        proof {
            facts_u8(self, o, 0, 0, 0);
        }
        self & o
    }

    fn bit_not(self) -> (r: Self) {
        proof {
            facts_u8(self, self, 0, 0, 0);
        }
        !self
    }

    fn shl(self, n: usize) -> (r: Self) {
        let k: u32 = n as u32;
        proof {
            facts_u8(self, self, k, 0, 0);
        }
        self << k
    }

    fn shr(self, n: usize) -> (r: Self) {
        let k: u32 = n as u32;
        proof {
            facts_u8(self, self, k, 0, 0);
        }
        self >> k
    }

    fn is_zero(self) -> (r: bool) {
        self == 0
    }

    fn less_than(self, o: Self) -> (r: bool) {
        self < o
    }

    fn equals(self, o: Self) -> (r: bool) {
        self == o
    }

    proof fn lemma_bit_size() {
    }

    proof fn lemma_mask_bit(k: u128) {
        facts_u8(0, 0, 0, 0, k);
    }

    proof fn lemma_shl_shr(v: u128, k: u128) {
        facts_u8(0, 0, 0, v, k);
    }

    proof fn lemma_mask_is_pow2() {
        vstd::arithmetic::power2::lemma2_to64();
    }

    proof fn lemma_value_fits(x: Self) {
        facts_u8(x, x, 0, 0, 0);
    }
}

} // verus!

verus! {

/// Bit-level facts about `u16` that its `BitStorage` operations rest on.
proof fn facts_u16(a: u16, b: u16, k: u32, v: u128, j: u128)
    by (bit_vector)
    ensures
        (a | b) as u128 == (a as u128) | (b as u128),
        (a & b) as u128 == (a as u128) & (b as u128),
        (!a) as u128 == !(a as u128) & 0xffffu128,
        k < 16 ==> (a << k) as u128 == ((a as u128) << (k as u128)) & 0xffffu128,
        k < 16 ==> (a >> k) as u128 == (a as u128) >> (k as u128),
        j < 16 ==> (1u128 << j) & 0xffffu128 == 1u128 << j,
        0u128 << j == 0,
        0u128 & 0xffffu128 == 0,
        j < 16 && v <= 0xffffu128 >> j ==> ((v << j) & 0xffffu128) >> j == v,
        (a as u128) & 0xffffu128 == (a as u128),
        (a as u128) <= 0xffffu128,
{
}

impl BitStorage for u16 {
    open spec fn spec_bit_size() -> nat {
        16
    }

    open spec fn mask() -> u128 {
        0xffffu128
    }

    open spec fn value(&self) -> u128 {
        *self as u128
    }

    fn bit_size() -> (r: usize) {
        16
    }

    fn zero() -> (r: Self) {
        0
    }

    fn from_bool(b: bool) -> (r: Self) {
        if b { 1 } else { 0 }
    }

    fn bit_or(self, o: Self) -> (r: Self) {
        proof {
            facts_u16(self, o, 0, 0, 0);
        }
        self | o
    }

    fn bit_and(self, o: Self) -> (r: Self) {
        proof {
            facts_u16(self, o, 0, 0, 0);
        }
        self & o
    }

    fn bit_not(self) -> (r: Self) {
        proof {
            facts_u16(self, self, 0, 0, 0);
        }
        !self
    }

    fn shl(self, n: usize) -> (r: Self) {
        let k: u32 = n as u32;
        proof {
            facts_u16(self, self, k, 0, 0);
        }
        self << k
    }

    fn shr(self, n: usize) -> (r: Self) {
        let k: u32 = n as u32;
        proof {
            facts_u16(self, self, k, 0, 0);
        }
        self >> k
    }

    fn is_zero(self) -> (r: bool) {
        self == 0
    }

    fn less_than(self, o: Self) -> (r: bool) {
        self < o
    }

    fn equals(self, o: Self) -> (r: bool) {
        self == o
    }

    proof fn lemma_bit_size() {
    }

    proof fn lemma_mask_bit(k: u128) {
        facts_u16(0, 0, 0, 0, k);
    }

    proof fn lemma_shl_shr(v: u128, k: u128) {
        facts_u16(0, 0, 0, v, k);
    }

    proof fn lemma_mask_is_pow2() {
        vstd::arithmetic::power2::lemma2_to64();
    }

    proof fn lemma_value_fits(x: Self) {
        facts_u16(x, x, 0, 0, 0);
    }
}

} // verus!

verus! {

/// Bit-level facts about `u32` that its `BitStorage` operations rest on.
proof fn facts_u32(a: u32, b: u32, k: u32, v: u128, j: u128)
    by (bit_vector)
    ensures
        (a | b) as u128 == (a as u128) | (b as u128),
        (a & b) as u128 == (a as u128) & (b as u128),
        (!a) as u128 == !(a as u128) & 0xffff_ffffu128,
        k < 32 ==> (a << k) as u128 == ((a as u128) << (k as u128)) & 0xffff_ffffu128,
        k < 32 ==> (a >> k) as u128 == (a as u128) >> (k as u128),
        j < 32 ==> (1u128 << j) & 0xffff_ffffu128 == 1u128 << j,
        0u128 << j == 0,
        0u128 & 0xffff_ffffu128 == 0,
        j < 32 && v <= 0xffff_ffffu128 >> j ==> ((v << j) & 0xffff_ffffu128) >> j == v,
        (a as u128) & 0xffff_ffffu128 == (a as u128),
        (a as u128) <= 0xffff_ffffu128,
{
}

impl BitStorage for u32 {
    open spec fn spec_bit_size() -> nat {
        32
    }

    open spec fn mask() -> u128 {
        0xffff_ffffu128
    }

    open spec fn value(&self) -> u128 {
        *self as u128
    }

    fn bit_size() -> (r: usize) {
        32
    }

    fn zero() -> (r: Self) {
        0
    }

    fn from_bool(b: bool) -> (r: Self) {
        if b { 1 } else { 0 }
    }

    fn bit_or(self, o: Self) -> (r: Self) {
        proof {
            facts_u32(self, o, 0, 0, 0);
        }
        self | o
    }

    fn bit_and(self, o: Self) -> (r: Self) {
        proof {
            facts_u32(self, o, 0, 0, 0);
        }
        self & o
    }

    fn bit_not(self) -> (r: Self) {
        proof {
            facts_u32(self, self, 0, 0, 0);
        }
        !self
    }

    fn shl(self, n: usize) -> (r: Self) {
        let k: u32 = n as u32;
        proof {
            facts_u32(self, self, k, 0, 0);
        }
        self << k
    }

    fn shr(self, n: usize) -> (r: Self) {
        let k: u32 = n as u32;
        proof {
            facts_u32(self, self, k, 0, 0);
        }
        self >> k
    }

    fn is_zero(self) -> (r: bool) {
        self == 0
    }

    fn less_than(self, o: Self) -> (r: bool) {
        self < o
    }

    fn equals(self, o: Self) -> (r: bool) {
        self == o
    }

    proof fn lemma_bit_size() {
    }

    proof fn lemma_mask_bit(k: u128) {
        facts_u32(0, 0, 0, 0, k);
    }

    proof fn lemma_shl_shr(v: u128, k: u128) {
        facts_u32(0, 0, 0, v, k);
    }

    proof fn lemma_mask_is_pow2() {
        vstd::arithmetic::power2::lemma2_to64();
    }

    proof fn lemma_value_fits(x: Self) {
        facts_u32(x, x, 0, 0, 0);
    }
}

} // verus!

verus! {

/// Bit-level facts about `u64` that its `BitStorage` operations rest on.
proof fn facts_u64(a: u64, b: u64, k: u32, v: u128, j: u128)
    by (bit_vector)
    ensures
        (a | b) as u128 == (a as u128) | (b as u128),
        (a & b) as u128 == (a as u128) & (b as u128),
        (!a) as u128 == !(a as u128) & 0xffff_ffff_ffff_ffffu128,
        k < 64 ==> (a << k) as u128 == ((a as u128) << (k as u128)) & 0xffff_ffff_ffff_ffffu128,
        k < 64 ==> (a >> k) as u128 == (a as u128) >> (k as u128),
        j < 64 ==> (1u128 << j) & 0xffff_ffff_ffff_ffffu128 == 1u128 << j,
        0u128 << j == 0,
        0u128 & 0xffff_ffff_ffff_ffffu128 == 0,
        j < 64 && v <= 0xffff_ffff_ffff_ffffu128 >> j ==> ((v << j) & 0xffff_ffff_ffff_ffffu128) >> j == v,
        (a as u128) & 0xffff_ffff_ffff_ffffu128 == (a as u128),
        (a as u128) <= 0xffff_ffff_ffff_ffffu128,
{
}

impl BitStorage for u64 {
    open spec fn spec_bit_size() -> nat {
        64
    }

    open spec fn mask() -> u128 {
        0xffff_ffff_ffff_ffffu128
    }

    open spec fn value(&self) -> u128 {
        *self as u128
    }

    fn bit_size() -> (r: usize) {
        64
    }

    fn zero() -> (r: Self) {
        0
    }

    fn from_bool(b: bool) -> (r: Self) {
        if b { 1 } else { 0 }
    }

    fn bit_or(self, o: Self) -> (r: Self) {
        proof {
            facts_u64(self, o, 0, 0, 0);
        }
        self | o
    }

    fn bit_and(self, o: Self) -> (r: Self) {
        proof {
            facts_u64(self, o, 0, 0, 0);
        }
        self & o
    }

    fn bit_not(self) -> (r: Self) {
        proof {
            facts_u64(self, self, 0, 0, 0);
        }
        !self
    }

    fn shl(self, n: usize) -> (r: Self) {
        let k: u32 = n as u32;
        proof {
            facts_u64(self, self, k, 0, 0);
        }
        self << k
    }

    fn shr(self, n: usize) -> (r: Self) {
        let k: u32 = n as u32;
        proof {
            facts_u64(self, self, k, 0, 0);
        }
        self >> k
    }

    fn is_zero(self) -> (r: bool) {
        self == 0
    }

    fn less_than(self, o: Self) -> (r: bool) {
        self < o
    }

    fn equals(self, o: Self) -> (r: bool) {
        self == o
    }

    proof fn lemma_bit_size() {
    }

    proof fn lemma_mask_bit(k: u128) {
        facts_u64(0, 0, 0, 0, k);
    }

    proof fn lemma_shl_shr(v: u128, k: u128) {
        facts_u64(0, 0, 0, v, k);
    }

    proof fn lemma_mask_is_pow2() {
        vstd::arithmetic::power2::lemma2_to64();
    }

    proof fn lemma_value_fits(x: Self) {
        facts_u64(x, x, 0, 0, 0);
    }
}

} // verus!

verus! {

/// Bit-level facts about `u128` that its `BitStorage` operations rest on.
proof fn facts_u128(a: u128, b: u128, k: u32, v: u128, j: u128)
    by (bit_vector)
    ensures
        (a | b) as u128 == (a as u128) | (b as u128),
        (a & b) as u128 == (a as u128) & (b as u128),
        (!a) as u128 == !(a as u128) & 0xffff_ffff_ffff_ffff_ffff_ffff_ffff_ffffu128,
        k < 128 ==> (a << k) as u128 == ((a as u128) << (k as u128)) & 0xffff_ffff_ffff_ffff_ffff_ffff_ffff_ffffu128,
        k < 128 ==> (a >> k) as u128 == (a as u128) >> (k as u128),
        j < 128 ==> (1u128 << j) & 0xffff_ffff_ffff_ffff_ffff_ffff_ffff_ffffu128 == 1u128 << j,
        0u128 << j == 0,
        0u128 & 0xffff_ffff_ffff_ffff_ffff_ffff_ffff_ffffu128 == 0,
        j < 128 && v <= 0xffff_ffff_ffff_ffff_ffff_ffff_ffff_ffffu128 >> j ==> ((v << j) & 0xffff_ffff_ffff_ffff_ffff_ffff_ffff_ffffu128) >> j == v,
        (a as u128) & 0xffff_ffff_ffff_ffff_ffff_ffff_ffff_ffffu128 == (a as u128),
        (a as u128) <= 0xffff_ffff_ffff_ffff_ffff_ffff_ffff_ffffu128,
{
}

impl BitStorage for u128 {
    open spec fn spec_bit_size() -> nat {
        128
    }

    open spec fn mask() -> u128 {
        0xffff_ffff_ffff_ffff_ffff_ffff_ffff_ffffu128
    }

    open spec fn value(&self) -> u128 {
        *self as u128
    }

    fn bit_size() -> (r: usize) {
        128
    }

    fn zero() -> (r: Self) {
        0
    }

    fn from_bool(b: bool) -> (r: Self) {
        if b { 1 } else { 0 }
    }

    fn bit_or(self, o: Self) -> (r: Self) {
        proof {
            facts_u128(self, o, 0, 0, 0);
        }
        self | o
    }

    fn bit_and(self, o: Self) -> (r: Self) {
        proof {
            facts_u128(self, o, 0, 0, 0);
        }
        self & o
    }

    fn bit_not(self) -> (r: Self) {
        proof {
            facts_u128(self, self, 0, 0, 0);
        }
        !self
    }

    fn shl(self, n: usize) -> (r: Self) {
        let k: u32 = n as u32;
        proof {
            facts_u128(self, self, k, 0, 0);
        }
        self << k
    }

    fn shr(self, n: usize) -> (r: Self) {
        let k: u32 = n as u32;
        proof {
            facts_u128(self, self, k, 0, 0);
        }
        self >> k
    }

    fn is_zero(self) -> (r: bool) {
        self == 0
    }

    fn less_than(self, o: Self) -> (r: bool) {
        self < o
    }

    fn equals(self, o: Self) -> (r: bool) {
        self == o
    }

    proof fn lemma_bit_size() {
    }

    proof fn lemma_mask_bit(k: u128) {
        facts_u128(0, 0, 0, 0, k);
    }

    proof fn lemma_shl_shr(v: u128, k: u128) {
        facts_u128(0, 0, 0, v, k);
    }

    proof fn lemma_mask_is_pow2() {
        vstd::arithmetic::power2::lemma2_to64();
        vstd::arithmetic::power2::lemma_pow2_adds(64, 64);
    }

    proof fn lemma_value_fits(x: Self) {
        facts_u128(x, x, 0, 0, 0);
    }
}

} // verus!

verus! {

/// Bits of the array `(nbits, value)` in a storage of `b` bits: the pushed
/// bits stand left-aligned, the first one at the top bit.
pub open spec fn bit_of(value: u128, b: nat, i: nat) -> bool {
    (value >> ((b - 1 - i) as u128)) & 1 == 1
}

/// Storage after pushing `bit` onto an array of `nbits` bits held in `b`
/// bits: the bit is or-ed in just below those already there.
pub open spec fn spec_push_value(value: u128, b: nat, nbits: nat, bit: bool) -> u128 {
    value | ((if bit { 1u128 } else { 0u128 }) << ((b - 1 - nbits) as u128))
}

/// The bit that `pop` returns: the last pushed one.
pub open spec fn spec_pop_bit(value: u128, b: nat, nbits: nat) -> bool {
    (value & (1u128 << ((b - nbits) as u128))) != 0
}

/// Storage after `pop`: the last pushed bit cleared.
pub open spec fn spec_pop_value(value: u128, b: nat, nbits: nat, mask: u128) -> u128 {
    value & (!(1u128 << ((b - nbits) as u128)) & mask)
}

/// A fixed-capacity stack of bits, kept left-aligned in an unsigned integer.
#[derive(Debug, Copy, PartialEq, Eq, PartialOrd, Ord)]
pub struct BitArray<T: BitStorage> {
    nbits: usize,
    storage: T,
}

pub type BitArray8 = BitArray<u8>;

pub type BitArray16 = BitArray<u16>;

pub type BitArray32 = BitArray<u32>;

pub type BitArray64 = BitArray<u64>;

pub type BitArray128 = BitArray<u128>;

impl<T: BitStorage> BitArray<T> {
    #[verifier::type_invariant]
    spec fn inv(self) -> bool {
        self.nbits as nat <= T::spec_bit_size()
    }

    /// Number of bits held.
    pub closed spec fn spec_len(&self) -> nat {
        self.nbits as nat
    }

    /// The storage integer.
    pub closed spec fn spec_storage(&self) -> T {
        self.storage
    }

    /// The storage integer widened to `u128`.
    pub open spec fn spec_value(&self) -> u128 {
        self.spec_storage().value()
    }

    pub fn new() -> (r: Self)
        ensures
            r.spec_len() == 0,
            r.spec_value() == 0,
    {
        BitArray { nbits: 0, storage: T::zero() }
    }

    pub fn len(&self) -> (r: usize)
        ensures
            r as nat == self.spec_len(),
            r as nat <= T::spec_bit_size(),
    {
        proof {
            use_type_invariant(self);
        }
        self.nbits
    }

    pub fn storage(&self) -> (r: T)
        ensures
            r == self.spec_storage(),
    {
        self.storage
    }

    pub fn is_full(&self) -> (r: bool)
        ensures
            r == (self.spec_len() == T::spec_bit_size()),
    {
        self.nbits == T::bit_size()
    }

    pub fn is_empty(&self) -> (r: bool)
        ensures
            r == (self.spec_len() == 0),
    {
        self.nbits == 0
    }

    /// Append a bit below those already held.
    pub fn push(&mut self, bit: bool)
        requires
            old(self).spec_len() < T::spec_bit_size(),
        ensures
            final(self).spec_len() == old(self).spec_len() + 1,
            final(self).spec_value() == spec_push_value(
                old(self).spec_value(),
                T::spec_bit_size(),
                old(self).spec_len(),
                bit,
            ),
    {
        proof {
            use_type_invariant(&*self);
            T::lemma_value_fits(self.storage);
        }
        let size = T::bit_size();
        let n = self.nbits + 1;
        let one = T::from_bool(bit);
        let shifted = one.shl(size - n);
        proof {
            T::lemma_mask_bit((size - n) as u128);
            assert(shifted.value() == (if bit { 1u128 } else { 0u128 }) << ((T::spec_bit_size() - 1 - self.nbits) as u128));
        }
        self.storage = self.storage.bit_or(shifted);
        self.nbits = n;
    }

    /// Remove the last pushed bit and return it.
    pub fn pop(&mut self) -> (r: bool)
        requires
            old(self).spec_len() > 0,
        ensures
            final(self).spec_len() == old(self).spec_len() - 1,
            r == spec_pop_bit(old(self).spec_value(), T::spec_bit_size(), old(self).spec_len()),
            final(self).spec_value() == spec_pop_value(
                old(self).spec_value(),
                T::spec_bit_size(),
                old(self).spec_len(),
                T::mask(),
            ),
    {
        proof {
            use_type_invariant(&*self);
        }
        let size = T::bit_size();
        proof {
            T::lemma_mask_bit((size - self.nbits) as u128);
        }
        let mask = T::from_bool(true).shl(size - self.nbits);
        let bit = self.storage.bit_and(mask);
        self.storage = self.storage.bit_and(mask.bit_not());
        self.nbits = self.nbits - 1;
        !bit.is_zero()
    }

    pub fn get_msb(&self) -> (r: T)
        ensures
            r == self.spec_storage(),
    {
        self.storage
    }

    /// The held bits as a right-aligned number.
    pub fn get_lsb(&self) -> (r: T)
        requires
            self.spec_len() > 0,
        ensures
            r.value() == self.spec_value() >> ((T::spec_bit_size() - self.spec_len()) as u128),
    {
        proof {
            use_type_invariant(self);
        }
        self.storage.shr(T::bit_size() - self.nbits)
    }

    /// An array of `nbits` bits whose storage is `value` as it stands.
    pub fn from_msb(nbits: usize, value: T) -> (r: Self)
        requires
            nbits as nat <= T::spec_bit_size(),
        ensures
            r.spec_len() == nbits,
            r.spec_storage() == value,
    {
        BitArray { nbits, storage: value }
    }

    /// An array of the `nbits` lowest bits of `value`, moved to the top.
    pub fn from_lsb(nbits: usize, value: T) -> (r: Self)
        requires
            1 <= nbits as nat <= T::spec_bit_size(),
        ensures
            r.spec_len() == nbits,
            r.spec_value() == (value.value() << ((T::spec_bit_size() - nbits) as u128)) & T::mask(),
    {
        BitArray { nbits, storage: value.shl(T::bit_size() - nbits) }
    }

    /// Order by number of bits first, then by the storage integer.
    pub fn compare(&self, other: &Self) -> (r: Ordering)
        ensures
            r == Ordering::Less <==> (self.spec_len() < other.spec_len() || (self.spec_len()
                == other.spec_len() && self.spec_value() < other.spec_value())),
            r == Ordering::Equal <==> (self.spec_len() == other.spec_len() && self.spec_value()
                == other.spec_value()),
            r == Ordering::Greater <==> (self.spec_len() > other.spec_len() || (self.spec_len()
                == other.spec_len() && self.spec_value() > other.spec_value())),
    {
        if self.nbits > other.nbits {
            Ordering::Greater
        } else if self.nbits < other.nbits {
            Ordering::Less
        } else if self.storage.less_than(other.storage) {
            Ordering::Less
        } else if self.storage.equals(other.storage) {
            Ordering::Equal
        } else {
            Ordering::Greater
        }
    }
}


/// Popping right after a push gives back the pushed bit and the array as
/// it was, where the position that the push fills held no bit.
pub proof fn lemma_push_then_pop<T: BitStorage>(a: &BitArray<T>, bit: bool)
    requires
        a.spec_len() < T::spec_bit_size(),
        !bit_of(a.spec_value(), T::spec_bit_size(), a.spec_len()),
    ensures
        ({
            let pushed = spec_push_value(a.spec_value(), T::spec_bit_size(), a.spec_len(), bit);
            &&& spec_pop_bit(pushed, T::spec_bit_size(), a.spec_len() + 1) == bit
            &&& spec_pop_value(pushed, T::spec_bit_size(), a.spec_len() + 1, T::mask())
                == a.spec_value()
        }),
{
    T::lemma_bit_size();
    let v = a.spec_value();
    let k = (T::spec_bit_size() - 1 - a.spec_len()) as u128;
    assert(((T::spec_bit_size() - (a.spec_len() + 1)) as u128) == k);
    let m = T::mask();
    T::lemma_mask_bit(k);
    T::lemma_value_fits(a.spec_storage());
    let bb: u128 = if bit { 1 } else { 0 };
    assert(k < 128 && v & m == v && (v >> k) & 1 != 1 && (1u128 << k) & m == 1u128 << k
        && (bb == 0 || bb == 1) ==> {
        &&& ((v | (bb << k)) & (1u128 << k) != 0) == (bb == 1)
        &&& (v | (bb << k)) & (!(1u128 << k) & m) == v
    }) by (bit_vector);
}

/// Reading back the low bits of an array built from them gives the
/// number it was built from, where that number fits below the mask shifted
/// down.
pub proof fn lemma_from_lsb_get_lsb<T: BitStorage>(nbits: nat, value: u128)
    requires
        1 <= nbits <= T::spec_bit_size(),
        value <= T::mask() >> ((T::spec_bit_size() - nbits) as u128),
    ensures
        ((value << ((T::spec_bit_size() - nbits) as u128)) & T::mask()) >> ((T::spec_bit_size()
            - nbits) as u128) == value,
{
    T::lemma_shl_shr(value, (T::spec_bit_size() - nbits) as u128);
}

/// Reading back the low bits of an array built from `nbits` bits gives the
/// number it was built from, for every number below `2^nbits`.
pub proof fn lemma_from_lsb_get_lsb_pow2<T: BitStorage>(nbits: nat, value: u128)
    requires
        1 <= nbits <= T::spec_bit_size(),
        (value as int) < vstd::arithmetic::power2::pow2(nbits),
    ensures
        ((value << ((T::spec_bit_size() - nbits) as u128)) & T::mask()) >> ((T::spec_bit_size()
            - nbits) as u128) == value,
{
    T::lemma_mask_is_pow2();
    T::lemma_bit_size();
    let s: nat = (T::spec_bit_size() - nbits) as nat;
    let ps = vstd::arithmetic::power2::pow2(s) as int;
    let pn = vstd::arithmetic::power2::pow2(nbits) as int;
    vstd::arithmetic::power2::lemma_pow2_adds(s, nbits);
    vstd::arithmetic::power2::lemma_pow2_pos(s);
    vstd::arithmetic::power2::lemma_pow2_pos(nbits);
    assert(s < 128);
    vstd::bits::lemma_u128_shr_is_div(T::mask(), s as u128);
    assert(T::mask() as int == ps * (pn - 1) + (ps - 1)) by (nonlinear_arith)
        requires
            T::mask() as int == ps * pn - 1,
    ;
    vstd::arithmetic::div_mod::lemma_fundamental_div_mod_converse(T::mask() as int, ps, pn - 1, ps - 1);
    assert(value <= T::mask() >> (s as u128));
    lemma_from_lsb_get_lsb::<T>(nbits, value);
}

impl<T: BitStorage> Clone for BitArray<T> {
    fn clone(&self) -> (r: Self)
        ensures
            r == *self,
    {
        *self
    }
}

impl<T: BitStorage> Default for BitArray<T> {
    /// The empty array.
    fn default() -> (r: Self)
        ensures
            r.spec_len() == 0,
            r.spec_value() == 0,
    {
        Self::new()
    }
}

} // verus!
