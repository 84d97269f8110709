//! What the widening of 16- and 24-bit floating-point values means: the
//! wide value is exactly the narrow one. Values are compared as integers
//! scaled by `2^149`, which makes every finite value of these formats whole.

use vstd::prelude::*;
use crate::bits::{bit_length, lemma_bit_length_bounds, pow2, spec_extend_to_binary32};

verus! {

/// The sign bit of an encoding whose sign is bit `sb`.
pub open spec fn fp_sign(sb: nat, bits: int) -> int {
    (bits / pow2(sb)) % 2
}

/// The exponent field of an encoding with `fw` fraction and `ew` exponent
/// bits.
pub open spec fn fp_exp(fw: nat, ew: nat, bits: int) -> int {
    (bits / pow2(fw)) % pow2(ew)
}

/// The fraction field of an encoding with `fw` fraction bits.
pub open spec fn fp_frac(fw: nat, bits: int) -> int {
    bits % pow2(fw)
}

/// The magnitude of a finite encoding times `2^149`: the fraction with its
/// hidden bit (none for subnormal values) times two to the unbiased
/// exponent.
pub open spec fn fp_magnitude(fw: nat, ew: nat, bits: int) -> int {
    let bias = pow2((ew - 1) as nat) - 1;
    let e = fp_exp(fw, ew, bits);
    let f = fp_frac(fw, bits);
    if e == 0 {
        f * pow2((1 - bias - fw + 149) as nat)
    } else {
        (pow2(fw) + f) * pow2((e - bias - fw + 149) as nat)
    }
}

/// The fields of `s * 2^31 + e * 2^23 + f` are `s`, `e` and `f`.
proof fn lemma_binary32_fields(s: int, e: int, f: int)
    requires
        0 <= s <= 1,
        0 <= e < 256,
        0 <= f < pow2(23),
    ensures
        0 <= s * pow2(31) + e * pow2(23) + f < 0x1_0000_0000,
        (s * pow2(31) + e * pow2(23) + f) as u32 as int == s * pow2(31) + e * pow2(23) + f,
        fp_sign(31, s * pow2(31) + e * pow2(23) + f) == s,
        fp_exp(23, 8, s * pow2(31) + e * pow2(23) + f) == e,
        fp_frac(23, s * pow2(31) + e * pow2(23) + f) == f,
{
    vstd::arithmetic::power2::lemma2_to64();
    let x = s * pow2(31) + e * pow2(23) + f;
    let hi = s * 256 + e;
    assert(x == hi * pow2(23) + f) by (nonlinear_arith)
        requires
            x == s * pow2(31) + e * pow2(23) + f,
            hi == s * 256 + e,
            pow2(31) == 256 * pow2(23),
    ;
    vstd::arithmetic::div_mod::lemma_fundamental_div_mod_converse(x, pow2(23), hi, f);
    vstd::arithmetic::div_mod::lemma_fundamental_div_mod_converse(hi, 256, s, e);
    assert(x == s * pow2(31) + (e * pow2(23) + f));
    assert(0 <= e * pow2(23) + f < pow2(31)) by (nonlinear_arith)
        requires
            0 <= e < 256,
            0 <= f < pow2(23),
            pow2(31) == 256 * pow2(23),
    ;
    vstd::arithmetic::div_mod::lemma_fundamental_div_mod_converse(x, pow2(31), s, e * pow2(23) + f);
    vstd::arithmetic::div_mod::lemma_small_mod(s as nat, 2);
    assert(0 <= x < 0x1_0000_0000) by (nonlinear_arith)
        requires
            x == s * pow2(31) + (e * pow2(23) + f),
            0 <= s <= 1,
            0 <= e * pow2(23) + f < pow2(31),
            pow2(31) == 0x8000_0000,
    ;
}

/// Widening keeps the sign and, for a finite narrow value, gives a finite
/// binary32 value of exactly the same magnitude: it never rounds, and
/// subnormal narrow values become normal ones.
pub proof fn lemma_widening_is_exact(nfw: nat, new: nat, value: u32)
    requires
        (nfw == 10 && new == 5) || (nfw == 16 && new == 7),
        (value as int) < pow2(nfw + new + 1),
        fp_exp(nfw, new, value as int) != pow2(new) - 1,
    ensures
        ({
            let r = spec_extend_to_binary32(nfw, new, nfw + new, value) as int;
            &&& fp_sign(31, r) == fp_sign(nfw + new, value as int)
            &&& fp_exp(23, 8, r) != 255
            &&& fp_magnitude(23, 8, r) == fp_magnitude(nfw, new, value as int)
        }),
{
    vstd::arithmetic::power2::lemma2_to64();
    let v = value as int;
    let nsb = nfw + new;
    let sign = fp_sign(nsb, v);
    let ne = fp_exp(nfw, new, v);
    let nf = fp_frac(nfw, v);
    let nbias = pow2((new - 1) as nat) - 1;
    let s0 = (23 - nfw) as nat;
    vstd::arithmetic::power2::lemma_pow2_pos(nsb);
    vstd::arithmetic::power2::lemma_pow2_pos(nfw);
    vstd::arithmetic::power2::lemma_pow2_pos(new);
    vstd::arithmetic::div_mod::lemma_mod_pos_bound(v / pow2(nsb), 2);
    vstd::arithmetic::div_mod::lemma_mod_pos_bound(v / pow2(nfw), pow2(new));
    vstd::arithmetic::div_mod::lemma_mod_pos_bound(v, pow2(nfw));
    vstd::arithmetic::div_mod::lemma_div_pos_is_pos(v, pow2(nsb));
    vstd::arithmetic::div_mod::lemma_div_pos_is_pos(v, pow2(nfw));
    assert(0 <= sign <= 1 && 0 <= ne < pow2(new) && 0 <= nf < pow2(nfw));
    assert(nbias == 15 || nbias == 63);
    vstd::arithmetic::power2::lemma_pow2_adds(nf as nat * 0 + nfw, s0);
    assert(pow2(nfw) * pow2(s0) == pow2(23));
    let r = spec_extend_to_binary32(nfw, new, nsb, value);
    if ne == 0 && nf == 0 {
        lemma_binary32_fields(sign, 0, 0);
        assert(r as int == sign * pow2(31) + 0 * pow2(23) + 0);
    } else if ne == 0 {
        let bl = bit_length(nf as nat);
        lemma_bit_length_bounds(nf as nat);
        crate::bits::lemma_bit_length_le(nf as nat, nfw);
        let t = (nfw + 1 - bl) as nat;
        let we = 1 - nbias + 127 - t;
        vstd::arithmetic::power2::lemma_pow2_adds((bl - 1) as nat, (24 - bl) as nat);
        vstd::arithmetic::power2::lemma_pow2_adds(bl as nat, (24 - bl) as nat);
        assert(s0 + t == 24 - bl);
        let big = nf * pow2((s0 + t) as nat);
        assert(pow2(23) <= big < pow2(24)) by (nonlinear_arith)
            requires
                big == nf * pow2((s0 + t) as nat),
                pow2((bl - 1) as nat) <= nf < pow2(bl as nat),
                pow2((bl - 1) as nat) * pow2((24 - bl) as nat) == pow2(23),
                pow2(bl as nat) * pow2((24 - bl) as nat) == pow2(24),
                s0 + t == 24 - bl,
                pow2((s0 + t) as nat) > 0,
        ;
        let wf = big - pow2(23);
        assert(0 < we < 255);
        lemma_binary32_fields(sign, we, wf);
        assert(r as int == sign * pow2(31) + we * pow2(23) + wf);
        // magnitudes
        let wexp = (we - 127 - 23 + 149) as nat;
        let nexp = (1 - nbias - nfw + 149) as nat;
        assert(wexp + s0 + t == nexp);
        vstd::arithmetic::power2::lemma_pow2_adds((s0 + t) as nat, wexp);
        assert(fp_magnitude(23, 8, r as int) == (pow2(23) + wf) * pow2(wexp));
        assert((pow2(23) + wf) * pow2(wexp) == nf * pow2(nexp)) by (nonlinear_arith)
            requires
                pow2(23) + wf == nf * pow2((s0 + t) as nat),
                pow2((s0 + t) as nat) * pow2(wexp) == pow2(nexp),
        ;
    } else {
        let we = ne - nbias + 127;
        let wf = nf * pow2(s0);
        assert(0 <= wf < pow2(23)) by (nonlinear_arith)
            requires
                wf == nf * pow2(s0),
                0 <= nf < pow2(nfw),
                pow2(nfw) * pow2(s0) == pow2(23),
                pow2(s0) > 0,
        ;
        assert(0 < we < 255);
        lemma_binary32_fields(sign, we, wf);
        assert(r as int == sign * pow2(31) + we * pow2(23) + wf);
        let wexp = (we - 127 - 23 + 149) as nat;
        let nexp = (ne - nbias - nfw + 149) as nat;
        assert(wexp + s0 == nexp);
        vstd::arithmetic::power2::lemma_pow2_adds(s0, wexp);
        assert((pow2(23) + wf) * pow2(wexp) == (pow2(nfw) + nf) * pow2(nexp)) by (nonlinear_arith)
            requires
                wf == nf * pow2(s0),
                pow2(nfw) * pow2(s0) == pow2(23),
                pow2(s0) * pow2(wexp) == pow2(nexp),
        ;
    }
}

/// A narrow infinity or NaN (exponent all ones) widens to a binary32
/// infinity or NaN of the same sign: the fraction is zero in both or in
/// neither.
pub proof fn lemma_widening_keeps_specials(nfw: nat, new: nat, value: u32)
    requires
        (nfw == 10 && new == 5) || (nfw == 16 && new == 7),
        (value as int) < pow2(nfw + new + 1),
        fp_exp(nfw, new, value as int) == pow2(new) - 1,
    ensures
        ({
            let r = spec_extend_to_binary32(nfw, new, nfw + new, value) as int;
            &&& fp_sign(31, r) == fp_sign(nfw + new, value as int)
            &&& fp_exp(23, 8, r) == 255
            &&& (fp_frac(23, r) == 0) == (fp_frac(nfw, value as int) == 0)
        }),
{
    vstd::arithmetic::power2::lemma2_to64();
    let v = value as int;
    let nsb = nfw + new;
    let sign = fp_sign(nsb, v);
    let nf = fp_frac(nfw, v);
    let s0 = (23 - nfw) as nat;
    vstd::arithmetic::power2::lemma_pow2_pos(nfw);
    vstd::arithmetic::power2::lemma_pow2_pos(s0);
    vstd::arithmetic::div_mod::lemma_mod_pos_bound(v / pow2(nsb), 2);
    vstd::arithmetic::div_mod::lemma_mod_pos_bound(v, pow2(nfw));
    vstd::arithmetic::div_mod::lemma_div_pos_is_pos(v, pow2(nsb));
    vstd::arithmetic::power2::lemma_pow2_adds(nfw, s0);
    let wf = nf * pow2(s0);
    assert(0 <= wf < pow2(23) && (wf == 0) == (nf == 0)) by (nonlinear_arith)
        requires
            wf == nf * pow2(s0),
            0 <= nf < pow2(nfw),
            pow2(nfw) * pow2(s0) == pow2(23),
            pow2(s0) > 0,
    ;
    lemma_binary32_fields(sign, 255, wf);
}

} // verus!
