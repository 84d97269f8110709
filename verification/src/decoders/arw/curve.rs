//! The tone curve of Sony ARW2 images, given by five segment end points.

use vstd::prelude::*;
use crate::bits::{lut_entry, lut_table_ok, pow2, LookupTable};

verus! {

/// The tone curve of a Sony ARW2 image after its first `k` segments: the
/// curve has `c[5] + 1` points, all 0 at first, and segment `i` makes the
/// points `c[i] + 1 ..= c[i + 1]` climb from point `c[i]` in steps of `2^i`.
pub open spec fn curve_stage(c: Seq<usize>, k: int) -> Seq<u16>
    decreases k,
{
    if k <= 0 {
        Seq::new((c[5] + 1) as nat, |j: int| 0u16)
    } else {
        let prev = curve_stage(c, k - 1);
        let i = k - 1;
        Seq::new(
            prev.len(),
            |j: int|
                if c[i] < j <= c[i + 1] {
                    (prev[c[i] as int] + pow2(i as nat) * (j - c[i])) as u16
                } else {
                    prev[j]
                },
        )
    }
}

/// The curve that the points `c` describe.
pub open spec fn sony_curve(c: Seq<usize>) -> Seq<u16> {
    curve_stage(c, 5)
}

/// `calculate_curve` stays in bounds and in the `u16` range on `c`, and the
/// curve it makes suits a `LookupTable`.
pub open spec fn sony_curve_ok(c: Seq<usize>) -> bool {
    &&& c.len() == 6
    &&& c[0] < usize::MAX
    &&& c[5] < usize::MAX
    &&& forall|i: int|
        0 <= i < 5 ==> #[trigger] c[i + 1] <= c[5] && (c[i] < c[i + 1] ==> curve_stage(c, i)[c[i] as int]
            + pow2(i as nat) * (c[i + 1] - c[i]) <= 0xffff)
    &&& lut_table_ok(sony_curve(c))
}

proof fn lemma_stage_len(c: Seq<usize>, k: int)
    ensures
        curve_stage(c, k).len() == c[5] + 1,
    decreases k,
{
    if k > 0 {
        lemma_stage_len(c, k - 1);
    }
}

/// The lookup table of a Sony ARW2 tone curve given by its points `curve`.
pub fn calculate_curve(curve: [usize; 6]) -> (r: LookupTable)
    requires
        sony_curve_ok(curve@),
    ensures
        r.entries().len() == curve[5] + 1,
        forall|i: int| 0 <= i < r.entries().len() ==> #[trigger] r.entries()[i] == lut_entry(sony_curve(curve@), i),
{
    let ghost c = curve@;
    let n = curve[5] + 1;
    let mut out: Vec<u16> = Vec::new();
    for k in 0..n
        invariant
            out@.len() == k,
            forall|j: int| 0 <= j < k ==> out@[j] == 0,
    {
        out.push(0);
    }
    proof {
        assert(out@ =~= curve_stage(c, 0));
        vstd::arithmetic::power2::lemma2_to64();
    }
    for i in 0..5
        invariant
            c == curve@,
            sony_curve_ok(c),
            n == c[5] + 1,
            out@ == curve_stage(c, i as int),
    {
        let ghost prev = out@;
        proof {
            lemma_stage_len(c, i as int);
            assert(c[i + 1] <= c[5]);
            vstd::arithmetic::power2::lemma2_to64();
            vstd::bits::lemma_u16_shl_is_mul(1, i as u16);
        }
        let step: u16 = 1u16 << (i as u16);
        assert(step == pow2(i as nat));
        let lo = curve[i];
        let hi = curve[i + 1];
        let mut j = lo + 1;
        while j < hi + 1
            invariant
                c == curve@,
                sony_curve_ok(c),
                0 <= i < 5,
                lo == c[i as int],
                hi == c[i + 1],
                hi <= c[5],
                n == c[5] + 1,
                prev == curve_stage(c, i as int),
                prev.len() == n,
                step == pow2(i as nat),
                lo + 1 <= j,
                lo < hi ==> j <= hi + 1,
                lo >= hi ==> j == lo + 1,
                out@.len() == n,
                forall|jj: int|
                    0 <= jj < n ==> #[trigger] out@[jj] == if lo < jj < j {
                        (prev[lo as int] + pow2(i as nat) * (jj - lo)) as u16
                    } else {
                        prev[jj]
                    },
            decreases hi + 1 - j,
        {
            assert(c[i as int + 1] <= c[5]);
            assert(curve_stage(c, i as int)[c[i as int] as int] + pow2(i as nat) * (c[i as int + 1] - c[i as int]) <= 0xffff);
            assert(prev[lo as int] + pow2(i as nat) * (j - 1 - lo) <= 0xffff) by (nonlinear_arith)
                requires
                    prev[lo as int] + pow2(i as nat) * (hi - lo) <= 0xffff,
                    j - 1 <= hi,
                    pow2(i as nat) >= 0,
            ;
            assert(prev[lo as int] + pow2(i as nat) * (j - lo) == prev[lo as int] + pow2(i as nat) * (j
                - 1 - lo) + pow2(i as nat)) by (nonlinear_arith);
            assert(prev[lo as int] + pow2(i as nat) * (j - lo) <= 0xffff) by (nonlinear_arith)
                requires
                    prev[lo as int] + pow2(i as nat) * (hi - lo) <= 0xffff,
                    j <= hi,
                    pow2(i as nat) >= 0,
            ;
            assert(out@[j - 1] as int == prev[lo as int] + pow2(i as nat) * (j - 1 - lo)) by {
                if j - 1 == lo {
                    assert(pow2(i as nat) * (j - 1 - lo) == 0) by (nonlinear_arith)
                        requires
                            j - 1 - lo == 0,
                    ;
                } else {
                    assert(0 <= pow2(i as nat) * (j - 1 - lo)) by (nonlinear_arith)
                        requires
                            j - 1 - lo >= 0,
                            pow2(i as nat) >= 0,
                    ;
                }
            }
            let v = out[j - 1] + step;
            out.set(j, v);
            j = j + 1;
        }
        proof {
            lemma_stage_len(c, i + 1);
            let next = curve_stage(c, i + 1);
            assert(next == Seq::new(
                prev.len(),
                |jj: int|
                    if c[i as int] < jj <= c[i + 1] {
                        (prev[c[i as int] as int] + pow2(i as nat) * (jj - c[i as int])) as u16
                    } else {
                        prev[jj]
                    },
            ));
            assert forall|jj: int| 0 <= jj < n implies #[trigger] out@[jj] == next[jj] by {
                if lo < hi {
                    assert(j == hi + 1);
                }
            }
            assert(out@ =~= next);
        }
    }
    proof {
        lemma_stage_len(c, 5);
    }
    LookupTable::new(&out)
}

} // verus!
