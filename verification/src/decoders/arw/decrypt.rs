//! The "encryption" of Sony SR2 data: a key seeds a pad of 127 words, from
//! which a keystream grows by `k[n] = k[n - 127] ^ k[n - 63]`; each
//! little-endian word of the data is xored with the next word of it.

use vstd::prelude::*;
use crate::bits::{le_u32, LEu32};
use vstd::endian::{endianness, Endian};

verus! {

/// The `n`-th state of the generator seeded by `key` (`n >= 1`).
pub open spec fn sony_lcg(key: u32, n: nat) -> u32
    decreases n,
{
    if n == 0 {
        key
    } else {
        ((sony_lcg(key, (n - 1) as nat) as int * 48828125 + 1) % 0x1_0000_0000) as u32
    }
}

/// Word `p` (below 127) of the pad seeded by `key`, before its bytes are
/// put in big-endian order.
pub open spec fn sony_pad_word(key: u32, p: nat) -> u32
    decreases p,
{
    if p < 3 {
        sony_lcg(key, p + 1)
    } else if p == 3 {
        (sony_lcg(key, 4) << 1u32) | ((sony_lcg(key, 1) ^ sony_lcg(key, 3)) >> 31u32)
    } else {
        ((sony_pad_word(key, (p - 4) as nat) ^ sony_pad_word(key, (p - 2) as nat)) << 1u32) | ((sony_pad_word(
            key,
            (p - 3) as nat,
        ) ^ sony_pad_word(key, (p - 1) as nat)) >> 31u32)
    }
}

/// The bytes of `x` in the opposite order.
pub open spec fn swap32(x: u32) -> u32 {
    ((x & 0xff) << 24u32) | (((x >> 8u32) & 0xff) << 16u32) | (((x >> 16u32) & 0xff) << 8u32) | (x >> 24u32)
}

/// Word `n` of the keystream of the pad `pad` (127 words).
pub open spec fn sony_keystream(pad: Seq<u32>, n: nat) -> u32
    decreases n,
{
    if n < 127 {
        pad[n as int]
    } else {
        sony_keystream(pad, (n - 127) as nat) ^ sony_keystream(pad, (n - 63) as nat)
    }
}

/// Byte `j` of the data decrypted with `pad`: the data's words from
/// `offset` on, each xored with keystream word `127 + i`, written back in
/// little-endian order.
pub open spec fn sony_decrypted_byte(buf: Seq<u8>, offset: int, pad: Seq<u32>, j: int) -> u8 {
    let i = j / 4;
    let w = (le_u32(buf, offset + 4 * i) as u32) ^ sony_keystream(pad, (127 + i) as nat);
    ((w >> (8 * (j % 4)) as u32) & 0xff) as u8
}

/// The pad of the key `key`, before its bytes are put in big-endian order.
pub fn sony_pad(key: u32) -> (pad: Vec<u32>)
    ensures
        pad@.len() == 127,
        forall|p: int| 0 <= p < 127 ==> #[trigger] pad@[p] == sony_pad_word(key, p as nat),
{
    let mut pad: Vec<u32> = Vec::new();
    let mut mkey = key;
    for p in 0..4usize
        invariant
            pad@.len() == p,
            mkey == sony_lcg(key, p as nat),
            forall|q: int| 0 <= q < p ==> #[trigger] pad@[q] == sony_lcg(key, (q + 1) as nat),
    {
        mkey = mkey.wrapping_mul(48828125).wrapping_add(1);
        proof {
            let prev = sony_lcg(key, p as nat) as int;
            let m = (prev * 48828125) % 0x1_0000_0000;
            vstd::arithmetic::div_mod::lemma_add_mod_noop(prev * 48828125, 1, 0x1_0000_0000);
            vstd::arithmetic::div_mod::lemma_mod_pos_bound(prev * 48828125, 0x1_0000_0000);
            assert(1int % 0x1_0000_0000 == 1);
            if m + 1 == 0x1_0000_0000 {
                vstd::arithmetic::div_mod::lemma_mod_self_0(0x1_0000_0000);
            } else {
                vstd::arithmetic::div_mod::lemma_small_mod((m + 1) as nat, 0x1_0000_0000);
            }
        }
        pad.push(mkey);
    }
    let p3 = (pad[3] << 1) | ((pad[0] ^ pad[2]) >> 31);
    pad.set(3, p3);
    for p in 4..127usize
        invariant
            pad@.len() == p,
            forall|q: int| 0 <= q < p ==> #[trigger] pad@[q] == sony_pad_word(key, q as nat),
    {
        let v = ((pad[p - 4] ^ pad[p - 2]) << 1) | ((pad[p - 3] ^ pad[p - 1]) >> 31);
        pad.push(v);
    }
    pad
}


/// Decrypt the `length` bytes (rounded up to whole words, plus one) of
/// `buf` from `offset` on with the pad `pad`.
#[verifier::rlimit(40)]
pub fn sony_decrypt_with_pad(buf: &[u8], offset: usize, length: usize, pad: &Vec<u32>) -> (out: Vec<u8>)
    requires
        pad@.len() == 127,
        offset + 4 * (length / 4 + 1) <= buf@.len(),
    ensures
        out@.len() == 4 * (length / 4 + 1),
        forall|j: int| 0 <= j < out@.len() ==> #[trigger] out@[j] == sony_decrypted_byte(buf@, offset as int, pad@, j),
{
    let ghost k = pad@;
    let mut ring: Vec<u32> = Vec::new();
    for p in 0..127usize
        invariant
            k == pad@,
            pad@.len() == 127,
            ring@.len() == p,
            forall|n: int| 0 <= n < p ==> #[trigger] ring@[n] == sony_keystream(k, n as nat),
    {
        ring.push(pad[p]);
    }
    ring.push(0);
    let words = length / 4 + 1;
    let blen = buf.len();
    let mut out: Vec<u8> = Vec::new();
    for i in 0..words
        invariant
            k == pad@,
            k.len() == 127,
            words == length / 4 + 1,
            offset + 4 * words <= buf@.len(),
            blen == buf@.len(),
            ring@.len() == 128,
            forall|n: int| i <= n < i + 127 ==> #[trigger] ring@[n % 128] == sony_keystream(k, n as nat),
            out@.len() == 4 * i,
            forall|j: int| 0 <= j < 4 * i ==> #[trigger] out@[j] == sony_decrypted_byte(buf@, offset as int, k, j),
    {
        let p = i + 127;
        let ks = ring[(p + 1) % 128] ^ ring[(p + 1 + 64) % 128];
        proof {
            assert((p + 1) % 128 == i as int % 128);
            assert((p + 1 + 64) % 128 == (i + 64) as int % 128);
            assert(ring@[i as int % 128] == sony_keystream(k, i as nat));
            assert(ring@[(i + 64) as int % 128] == sony_keystream(k, (i + 64) as nat));
            assert(ks == sony_keystream(k, (i + 127) as nat));
        }
        ring.set(p % 128, ks);
        let word = LEu32(buf, offset + i * 4);
        assert(word == le_u32(buf@, offset + 4 * i) as u32);
        let output = word ^ ks;
        let ghost before = out@;
        out.push(((output >> 0) & 0xff) as u8);
        out.push(((output >> 8) & 0xff) as u8);
        out.push(((output >> 16) & 0xff) as u8);
        out.push(((output >> 24) & 0xff) as u8);
        proof {
            assert forall|n: int| i + 1 <= n < i + 1 + 127 implies #[trigger] ring@[n % 128] == sony_keystream(
                k,
                n as nat,
            ) by {
                if n < i + 127 {
                    assert(n % 128 != (i + 127) as int % 128);
                }
            }
            assert forall|j: int| 0 <= j < 4 * (i + 1) implies #[trigger] out@[j] == sony_decrypted_byte(
                buf@,
                offset as int,
                k,
                j,
            ) by {
                if j >= 4 * i {
                    assert(j / 4 == i as int);
                }
            }
        }
    }
    out
}


/// `u32::from_be`: `x` read as big-endian, which leaves it as it is on a
/// big-endian machine and swaps its bytes on a little-endian one; the
/// machine's byte order is vstd's `endianness()`.
#[verifier::external_body]
fn u32_from_be(x: u32) -> (r: u32)
    ensures
        r == (if endianness() == Endian::Little { swap32(x) } else { x }),
{
    u32::from_be(x)
}

/// The first `n` bytes of the data from `offset` on decrypted with `pad`.
pub open spec fn sony_decrypted(buf: Seq<u8>, offset: int, n: nat, pad: Seq<u32>) -> Seq<u8> {
    Seq::new(n, |j: int| sony_decrypted_byte(buf, offset, pad, j))
}

/// The pad of `key` with its words in the machine's byte order: as seeded
/// on a big-endian machine, byte swapped on a little-endian one.
pub open spec fn sony_machine_pad(key: u32, swapped: bool) -> Seq<u32> {
    Seq::new(
        127,
        |p: int| if swapped { swap32(sony_pad_word(key, p as nat)) } else { sony_pad_word(key, p as nat) },
    )
}

/// The bytes of `x` in the opposite order.
fn swap_bytes32(x: u32) -> (r: u32)
    ensures
        r == swap32(x),
{
    ((x & 0xff) << 24u32) | (((x >> 8u32) & 0xff) << 16u32) | (((x >> 16u32) & 0xff) << 8u32) | (x >> 24u32)
}

/// Decrypt the `length` bytes (rounded up to whole words, plus one) of
/// `buf` from `offset` on with the key `key`. The pad words are put in
/// big-endian order, which depends on the machine: every word is left as
/// seeded on a big-endian machine and byte swapped on a little-endian one,
/// whatever the length.
pub fn sony_decrypt(buf: &[u8], offset: usize, length: usize, key: u32) -> (out: Vec<u8>)
    requires
        offset + 4 * (length / 4 + 1) <= buf@.len(),
    ensures
        out@.len() == 4 * (length / 4 + 1),
        out@ == sony_decrypted(
            buf@,
            offset as int,
            out@.len(),
            sony_machine_pad(key, endianness() == Endian::Little),
        ),
{
    let seeded = sony_pad(key);
    // `from_be` swaps the bytes of a word whose bytes all differ exactly on
    // a little-endian machine.
    let swapped = u32_from_be(0x0102_0304) != 0x0102_0304;
    assert(swap32(0x0102_0304) != 0x0102_0304) by (bit_vector);
    assert(swapped == (endianness() == Endian::Little));
    let mut pad: Vec<u32> = Vec::new();
    for p in 0..127usize
        invariant
            seeded@.len() == 127,
            forall|q: int| 0 <= q < 127 ==> #[trigger] seeded@[q] == sony_pad_word(key, q as nat),
            pad@.len() == p,
            forall|q: int| 0 <= q < p ==> #[trigger] pad@[q] == sony_machine_pad(key, swapped)[q],
    {
        if swapped {
            pad.push(swap_bytes32(seeded[p]));
        } else {
            pad.push(seeded[p]);
        }
    }
    assert(pad@ =~= sony_machine_pad(key, swapped));
    let out = sony_decrypt_with_pad(buf, offset, length, &pad);
    assert(out@ =~= sony_decrypted(buf@, offset as int, out@.len(), sony_machine_pad(key, swapped)));
    out
}

proof fn lemma_word_bytes(w: u32)
    ensures
        ((w >> 0u32) & 0xff) as int + ((w >> 8u32) & 0xff) as int * 0x100 + ((w >> 16u32) & 0xff) as int * 0x1_0000
            + ((w >> 24u32) & 0xff) as int * 0x100_0000 == w as int,
{
    let b0 = (w >> 0u32) & 0xff;
    let b1 = (w >> 8u32) & 0xff;
    let b2 = (w >> 16u32) & 0xff;
    let b3 = (w >> 24u32) & 0xff;
    assert(b0 + b1 * 0x100 + b2 * 0x1_0000 + b3 * 0x100_0000 == w && b3 < 0x100) by (bit_vector)
        requires
            b0 == (w >> 0u32) & 0xff,
            b1 == (w >> 8u32) & 0xff,
            b2 == (w >> 16u32) & 0xff,
            b3 == (w >> 24u32) & 0xff,
    ;
}

proof fn lemma_bytes_word(b0: u8, b1: u8, b2: u8, b3: u8, w: u32)
    requires
        w as int == b0 + b1 * 0x100 + b2 * 0x1_0000 + b3 * 0x100_0000,
    ensures
        ((w >> 0u32) & 0xff) as u8 == b0,
        ((w >> 8u32) & 0xff) as u8 == b1,
        ((w >> 16u32) & 0xff) as u8 == b2,
        ((w >> 24u32) & 0xff) as u8 == b3,
{
    let x0 = b0 as u32;
    let x1 = b1 as u32;
    let x2 = b2 as u32;
    let x3 = b3 as u32;
    assert(w == x0 + x1 * 0x100 + x2 * 0x1_0000 + x3 * 0x100_0000);
    assert(((w >> 0u32) & 0xff) == x0 && ((w >> 8u32) & 0xff) == x1 && ((w >> 16u32) & 0xff) == x2 && ((w
        >> 24u32) & 0xff) == x3) by (bit_vector)
        requires
            x0 < 0x100,
            x1 < 0x100,
            x2 < 0x100,
            x3 < 0x100,
            w == x0 + x1 * 0x100 + x2 * 0x1_0000 + x3 * 0x100_0000,
    ;
}

/// Decrypting is its own inverse: decrypting the decrypted bytes with the
/// same pad gives back the bytes of the data.
pub proof fn lemma_decrypt_twice(buf: Seq<u8>, offset: int, pad: Seq<u32>, n: nat, j: int)
    requires
        0 <= offset,
        n % 4 == 0,
        offset + n <= buf.len(),
        0 <= j < n,
    ensures
        sony_decrypted_byte(
            Seq::new(n, |x: int| sony_decrypted_byte(buf, offset, pad, x)),
            0,
            pad,
            j,
        ) == buf[offset + j],
{
    let d = Seq::new(n, |x: int| sony_decrypted_byte(buf, offset, pad, x));
    let i = j / 4;
    let kw = sony_keystream(pad, (127 + i) as nat);
    let orig = le_u32(buf, offset + 4 * i) as u32;
    let w = orig ^ kw;
    assert(4 * i + 3 < n);
    assert((4 * i) / 4 == i && (4 * i + 1) / 4 == i && (4 * i + 2) / 4 == i && (4 * i + 3) / 4 == i);
    assert(d[4 * i] == ((w >> 0u32) & 0xff) as u8);
    assert(d[4 * i + 1] == ((w >> 8u32) & 0xff) as u8);
    assert(d[4 * i + 2] == ((w >> 16u32) & 0xff) as u8);
    assert(d[4 * i + 3] == ((w >> 24u32) & 0xff) as u8);
    lemma_word_bytes(w);
    assert(((w >> 0u32) & 0xff) < 0x100 && ((w >> 8u32) & 0xff) < 0x100 && ((w >> 16u32) & 0xff) < 0x100)
        by (bit_vector);
    assert(le_u32(d, 4 * i) == w as int);
    assert((w ^ kw) == orig) by (bit_vector)
        requires
            w == orig ^ kw,
    ;
    assert(orig as int == le_u32(buf, offset + 4 * i));
    lemma_bytes_word(buf[offset + 4 * i], buf[offset + 4 * i + 1], buf[offset + 4 * i + 2], buf[offset + 4 * i + 3], orig);
}

/// Decrypting with the key twice, in either byte order of its pad, gives
/// back the data.
pub proof fn lemma_sony_decrypt_twice(buf: Seq<u8>, offset: int, n: nat, key: u32, swapped: bool)
    requires
        0 <= offset,
        n % 4 == 0,
        offset + n <= buf.len(),
    ensures
        sony_decrypted(sony_decrypted(buf, offset, n, sony_machine_pad(key, swapped)), 0, n, sony_machine_pad(key, swapped))
            == buf.subrange(offset, offset + n),
{
    let pad = sony_machine_pad(key, swapped);
    let once = sony_decrypted(buf, offset, n, pad);
    assert forall|j: int| 0 <= j < n implies #[trigger] sony_decrypted(once, 0, n, pad)[j] == buf.subrange(
        offset,
        offset + n,
    )[j] by {
        lemma_decrypt_twice(buf, offset, pad, n, j);
    }
    assert(sony_decrypted(once, 0, n, pad) =~= buf.subrange(offset, offset + n));
}

/// The decryption of a shorter run is the start of that of a longer one:
/// every byte depends on its place only, with one pad for every length.
pub proof fn lemma_sony_decrypted_prefix(buf: Seq<u8>, offset: int, n1: nat, n2: nat, pad: Seq<u32>)
    requires
        n1 <= n2,
    ensures
        sony_decrypted(buf, offset, n1, pad) == sony_decrypted(buf, offset, n2, pad).subrange(0, n1 as int),
{
    assert(sony_decrypted(buf, offset, n1, pad) =~= sony_decrypted(buf, offset, n2, pad).subrange(0, n1 as int));
}

} // verus!
