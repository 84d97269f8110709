//! The Huffman table of a compressed PEF: read from the makernote, where
//! the camera stores one, or else Pentax's standard table. The table is
//! given as JPEG does: how many codes each length has, and the symbols in
//! the order of their codes.

use vstd::prelude::*;
use crate::bits::{be_u16, le_u16, BEu16, LEu16};

verus! {

/// Code lengths and symbols of the standard table.
pub const PENTAX_TREE: [u8; 29] = [0, 2, 3, 1, 1, 1, 1, 1, 1, 2, 0, 0, 0, 0, 0, 0, 3, 4, 2, 5, 1, 6, 0, 7, 8, 9, 10, 11, 12];

/// A Huffman table: `bits[k]` codes of length `k` (lengths 0 to 16), and
/// the symbols by increasing code.
#[derive(Debug, Clone)]
pub struct PefHuffman {
    pub bits: Vec<u32>,
    pub huffval: Vec<u32>,
}

pub open spec fn word_at(m: Seq<u8>, big: bool, pos: int) -> int {
    if big { be_u16(m, pos) } else { le_u16(m, pos) }
}

/// The number of codes in the table of the makernote entry `m`.
pub open spec fn pef_depth(m: Seq<u8>, big: bool) -> int {
    (word_at(m, big, 0) + 12) % 16
}

/// The code of symbol `c`: its 12-bit word shifted down to its length.
pub open spec fn pef_code(m: Seq<u8>, big: bool, c: int) -> int {
    word_at(m, big, 14 + 2 * c) / vstd::arithmetic::power2::pow2((12 - pef_len(m, big, c)) as nat) as int
}

/// The length of the code of symbol `c`.
pub open spec fn pef_len(m: Seq<u8>, big: bool, c: int) -> int {
    m[14 + 2 * pef_depth(m, big) + c] as int
}

/// Symbol `a` comes before symbol `b`: its code is smaller, or the codes are
/// equal and `a` is the larger symbol.
pub open spec fn pef_before(m: Seq<u8>, big: bool, a: int, b: int) -> bool {
    pef_code(m, big, a) < pef_code(m, big, b) || (pef_code(m, big, a) == pef_code(m, big, b) && a > b)
}

/// The number of symbols below `n` whose code has length `k`.
pub open spec fn pef_count(m: Seq<u8>, big: bool, k: int, n: int) -> int
    decreases n,
{
    if n <= 0 {
        0
    } else {
        pef_count(m, big, k, n - 1) + if pef_len(m, big, n - 1) == k { 1int } else { 0 }
    }
}

/// Whether the makernote entry `m` holds a table that can be read: all of
/// its bytes are there and no code is longer than 12 bits.
pub open spec fn pef_table_ok(m: Seq<u8>, big: bool) -> bool {
    &&& m.len() >= 2
    &&& 14 + 3 * pef_depth(m, big) <= m.len()
    &&& forall|c: int| 0 <= c < pef_depth(m, big) ==> #[trigger] pef_len(m, big, c) <= 12
}


/// Where a table of fewer than `depth` symbols leaves one out.
proof fn lemma_some_untaken(h: Seq<int>, depth: int)
    requires
        0 <= h.len() < depth,
    ensures
        exists|x: int| 0 <= x < depth && !h.contains(x),
{
    if forall|x: int| 0 <= x < depth ==> h.contains(x) {
        let r = vstd::set_lib::set_int_range(0, depth);
        vstd::set_lib::lemma_int_range(0, depth);
        h.lemma_cardinality_of_set();
        assert(r.subset_of(h.to_set())) by {
            assert forall|x: int| r.contains(x) implies h.to_set().contains(x) by {
                assert(h.contains(x));
            }
        }
        vstd::seq_lib::seq_to_set_is_finite(h);
        vstd::set_lib::lemma_len_subset(r, h.to_set());
    }
}

fn word(m: &[u8], big: bool, pos: usize) -> (r: u16)
    requires
        pos + 2 <= m@.len(),
    ensures
        r as int == word_at(m@, big, pos as int),
{
    if big {
        BEu16(m, pos)
    } else {
        LEu16(m, pos)
    }
}

/// The table described by the makernote entry `m` in the byte order `big`:
/// `None` where it cannot be read (see `pef_table_ok`).
pub fn pef_huffman_from_makernote(m: &[u8], big: bool) -> (r: Option<PefHuffman>)
    ensures
        r is Some <==> pef_table_ok(m@, big),
        r matches Some(t) ==> {
            let d = pef_depth(m@, big);
            &&& t.bits@.len() == 17
            &&& forall|k: int| 0 <= k < 17 ==> #[trigger] t.bits@[k] == pef_count(m@, big, k, d)
            &&& t.huffval@.len() == d
            &&& forall|i: int| 0 <= i < d ==> #[trigger] t.huffval@[i] < d
            &&& forall|i: int, j: int|
                0 <= i < j < d ==> pef_before(m@, big, #[trigger] t.huffval@[i] as int, #[trigger] t.huffval@[j] as int)
        },
{
    let n = m.len();
    if n < 2 {
        return None;
    }
    let depth: usize = (word(m, big, 0) as usize + 12) % 16;
    if 14 + 3 * depth > n {
        return None;
    }
    let mut lens: Vec<u32> = Vec::new();
    for c in 0..depth
        invariant
            n == m@.len(),
            depth == pef_depth(m@, big),
            14 + 3 * depth <= n,
            lens@.len() == c,
            forall|k: int| 0 <= k < c ==> #[trigger] lens@[k] as int == pef_len(m@, big, k),
            forall|k: int| 0 <= k < c ==> lens@[k] <= 12,
    {
        let l = m[14 + 2 * depth + c] as u32;
        if l > 12 {
            proof {
                assert(pef_len(m@, big, c as int) > 12);
            }
            return None;
        }
        lens.push(l);
    }
    assert forall|c: int| 0 <= c < pef_depth(m@, big) implies #[trigger] pef_len(m@, big, c) <= 12 by {
        assert(lens@[c] <= 12);
        assert(lens@[c] as int == pef_len(m@, big, c));
    }
    assert(pef_table_ok(m@, big));
    let mut bits: Vec<u32> = Vec::new();
    for k in 0..17usize
        invariant
            bits@.len() == k,
            forall|x: int| 0 <= x < k ==> bits@[x] == 0,
    {
        bits.push(0);
    }
    let mut v2: Vec<u32> = Vec::new();
    for c in 0..depth
        invariant
            n == m@.len(),
            depth == pef_depth(m@, big),
            14 + 3 * depth <= n,
            lens@.len() == depth,
            forall|k: int| 0 <= k < depth ==> #[trigger] lens@[k] as int == pef_len(m@, big, k),
            forall|k: int| 0 <= k < depth ==> lens@[k] <= 12,
            v2@.len() == c,
            forall|k: int| 0 <= k < c ==> #[trigger] v2@[k] as int == pef_code(m@, big, k),
            forall|k: int| 0 <= k < c ==> v2@[k] < 0x1_0000,
            bits@.len() == 17,
            forall|k: int| 0 <= k < 17 ==> #[trigger] bits@[k] == pef_count(m@, big, k, c as int),
            forall|k: int| 0 <= k < 17 ==> bits@[k] <= c,
    {
        let w = word(m, big, 14 + 2 * c) as u32;
        let l = lens[c];
        let sh = 12 - l;
        proof {
            vstd::bits::lemma_u32_shr_is_div(w, sh);
            vstd::arithmetic::power2::lemma_pow2_pos(sh as nat);
            vstd::arithmetic::div_mod::lemma_div_is_ordered_by_denominator(w as int, 1, vstd::arithmetic::power2::pow2(sh as nat) as int);
        }
        v2.push(w >> sh);
        let b = bits[l as usize];
        bits.set(l as usize, b + 1);
        proof {
            assert forall|k: int| 0 <= k < 17 implies #[trigger] bits@[k] == pef_count(m@, big, k, c + 1) by {}
        }
    }
    let mut huffval: Vec<u32> = Vec::new();
    let ghost mm = m@;
    assert forall|x: int| 0 <= x < depth implies 0 <= #[trigger] pef_code(mm, big, x) < 0x1_0000 by {
        assert(v2@[x] < 0x1_0000);
        assert(v2@[x] as int == pef_code(mm, big, x));
    }
    assert(huffval@.map_values(|v: u32| v as int) =~= Seq::<int>::empty());
    for i in 0..depth
        invariant
            mm == m@,
            pef_table_ok(mm, big),
            depth == pef_depth(mm, big),
            depth <= 15,
            v2@.len() == depth,
            huffval@.len() == i,
            forall|a: int| 0 <= a < i ==> #[trigger] huffval@[a] < depth,
            forall|a: int, b: int| 0 <= a < b < i ==> pef_before(mm, big, #[trigger] huffval@[a] as int, #[trigger] huffval@[b] as int),
            forall|a: int, x: int|
                0 <= a < i && 0 <= x < depth && !huffval@.map_values(|v: u32| v as int).contains(x) ==> #[trigger] pef_before(
                    mm,
                    big,
                    huffval@[a] as int,
                    x,
                ),
            forall|x: int|
                0 <= x < depth ==> #[trigger] v2@[x] == if huffval@.map_values(|v: u32| v as int).contains(x) {
                    0xffff_ffffu32
                } else {
                    pef_code(mm, big, x) as u32
                },
            forall|x: int| 0 <= x < depth ==> 0 <= #[trigger] pef_code(mm, big, x) < 0x1_0000,
    {
        let ghost hs = huffval@.map_values(|v: u32| v as int);
        proof {
            lemma_some_untaken(hs, depth as int);
        }
        let mut sm_val: u32 = 0xfffffff;
        let mut sm_num: u32 = 0xff;
        for j in 0..depth
            invariant
                mm == m@,
                depth <= 15,
                v2@.len() == depth,
                hs == huffval@.map_values(|v: u32| v as int),
                forall|x: int|
                    0 <= x < depth ==> #[trigger] v2@[x] == if hs.contains(x) {
                        0xffff_ffffu32
                    } else {
                        pef_code(mm, big, x) as u32
                    },
                forall|x: int| 0 <= x < depth ==> 0 <= #[trigger] pef_code(mm, big, x) < 0x1_0000,
                sm_val <= 0xfffffff,
                sm_num == 0xff ==> sm_val == 0xfffffff && forall|x: int| 0 <= x < j ==> hs.contains(x),
                sm_num != 0xff ==> sm_num < j && !hs.contains(sm_num as int) && sm_val as int == pef_code(
                    mm,
                    big,
                    sm_num as int,
                ) && forall|x: int|
                    0 <= x < j && !hs.contains(x) && x != sm_num ==> pef_before(mm, big, sm_num as int, x),
        {
            let ghost taken = hs.contains(j as int);
            assert(v2@[j as int] == if taken { 0xffff_ffffu32 } else { pef_code(mm, big, j as int) as u32 });
            let ghost old_num = sm_num;
            let ghost old_val = sm_val;
            if v2[j] <= sm_val {
                sm_num = j as u32;
                sm_val = v2[j];
            }
            proof {
                if taken {
                    assert(sm_num == old_num);
                } else if sm_num == j as u32 {
                    assert(sm_val as int == pef_code(mm, big, j as int));
                    assert forall|x: int|
                        0 <= x < j + 1 && !hs.contains(x) && x != sm_num implies pef_before(
                        mm,
                        big,
                        sm_num as int,
                        x,
                    ) by {
                        if old_num != 0xff && x != old_num {
                            assert(pef_before(mm, big, old_num as int, x));
                        }
                    }
                } else {
                    assert(old_num != 0xff);
                    assert(pef_code(mm, big, j as int) > old_val);
                }
            }
        }
        let ghost chosen = sm_num as int;
        proof {
            assert(sm_num != 0xff);
        }
        huffval.push(sm_num);
        v2.set(sm_num as usize, 0xffffffff);
        proof {
            let hs2 = huffval@.map_values(|v: u32| v as int);
            assert(hs2 =~= hs.push(chosen));
            assert forall|x: int| 0 <= x < depth implies #[trigger] hs2.contains(x) == (hs.contains(x) || x == chosen) by {
                if hs2.contains(x) {
                    let k = choose|k: int| 0 <= k < hs2.len() && hs2[k] == x;
                    if k < hs.len() {
                        assert(hs.contains(x));
                    }
                }
                if hs.contains(x) {
                    let k = choose|k: int| 0 <= k < hs.len() && hs[k] == x;
                    assert(hs2[k] == x);
                }
                if x == chosen {
                    assert(hs2[hs.len() as int] == x);
                }
            }
            assert forall|a: int| 0 <= a < i implies pef_before(mm, big, #[trigger] huffval@[a] as int, chosen) by {
                assert(!hs.contains(chosen));
            }
        }
    }
    Some(PefHuffman { bits, huffval })
}


/// The standard table: code lengths from the first 16 entries of
/// `PENTAX_TREE` (for lengths 1 to 16, 13 codes in all), symbols from the
/// rest.
pub fn pef_default_huffman() -> (t: PefHuffman)
    ensures
        t.bits@.len() == 17,
        t.bits@[0] == 0,
        forall|k: int| 1 <= k < 17 ==> #[trigger] t.bits@[k] == PENTAX_TREE@[k - 1],
        t.huffval@.len() == 13,
        forall|i: int| 0 <= i < 13 ==> #[trigger] t.huffval@[i] == PENTAX_TREE@[i + 16],
{
    let tree = PENTAX_TREE;
    let mut bits: Vec<u32> = Vec::new();
    bits.push(0);
    for i in 0..16usize
        invariant
            tree@ == PENTAX_TREE@,
            bits@.len() == i + 1,
            bits@[0] == 0,
            forall|k: int| 1 <= k <= i ==> #[trigger] bits@[k] == tree@[k - 1],
    {
        bits.push(tree[i] as u32);
    }
    let mut huffval: Vec<u32> = Vec::new();
    for i in 0..13usize
        invariant
            tree@ == PENTAX_TREE@,
            huffval@.len() == i,
            forall|k: int| 0 <= k < i ==> #[trigger] huffval@[k] == tree@[k + 16],
    {
        huffval.push(tree[i + 16] as u32);
    }
    PefHuffman { bits, huffval }
}

} // verus!
