//! Leaf MOS: interlaced images store the even rows from the top down,
//! then the odd rows from the bottom up.

use vstd::prelude::*;

verus! {

/// Where stored row `row` of an interlaced image of `height` rows goes.
pub open spec fn interlaced_target(row: int, height: int) -> int {
    if row % 2 == 1 {
        height - 1 - row / 2
    } else {
        row / 2
    }
}

/// The stored row that image row `o` comes from.
pub open spec fn interlaced_source(o: int, height: int) -> int {
    if o < (height + 1) / 2 {
        2 * o
    } else {
        2 * (height - 1 - o) + 1
    }
}

/// Every image row comes from a stored row that goes back to it: the
/// reordering is a permutation of the rows.
pub proof fn lemma_interlace_roundtrip(o: int, height: int)
    requires
        0 <= o < height,
    ensures
        0 <= interlaced_source(o, height) < height,
        interlaced_target(interlaced_source(o, height), height) == o,
{
}

/// Reorder the rows of an interlaced `width` x `height` image into their
/// places.
pub fn deinterlace(pixels: &[u16], width: usize, height: usize) -> (out: Vec<u16>)
    requires
        pixels@.len() == width * height,
    ensures
        out@.len() == width * height,
        forall|o: int, x: int|
            0 <= o < height && 0 <= x < width ==> #[trigger] out@[o * width + x] == pixels@[interlaced_source(
                o,
                height as int,
            ) * width + x],
{
    let n = pixels.len();
    let half = height / 2 + height % 2;
    let mut out: Vec<u16> = Vec::new();
    proof {
        assert(0 * width == 0) by (nonlinear_arith);
    }
    for o in 0..height
        invariant
            n == pixels@.len(),
            n == width * height,
            half == (height + 1) / 2,
            out@.len() == o * width,
            forall|r: int, x: int|
                0 <= r < o && 0 <= x < width ==> #[trigger] out@[r * width + x] == pixels@[interlaced_source(
                    r,
                    height as int,
                ) * width + x],
    {
        let src = if o < half { 2 * o } else { 2 * (height - 1 - o) + 1 };
        assert(src == interlaced_source(o as int, height as int));
        proof {
            lemma_interlace_roundtrip(o as int, height as int);
        }
        assert((src + 1) * width <= width * height && (src + 1) * width == src * width + width) by (nonlinear_arith)
            requires
                src < height,
        ;
        let base = src * width;
        let ghost before = out@;
        for x in 0..width
            invariant
                n == pixels@.len(),
                base + width <= n,
                base == src * width,
                src == interlaced_source(o as int, height as int),
                out@.len() == o * width + x,
                forall|k: int| 0 <= k < o * width ==> #[trigger] out@[k] == before[k],
                forall|c: int| 0 <= c < x ==> #[trigger] out@[o * width + c] == pixels@[base + c],
        {
            out.push(pixels[base + x]);
        }
        proof {
            assert forall|r: int, x: int|
                0 <= r < o + 1 && 0 <= x < width implies #[trigger] out@[r * width + x]
                    == pixels@[interlaced_source(r, height as int) * width + x] by {
                if r < o {
                    assert(r * width + x < o * width) by (nonlinear_arith)
                        requires
                            r < o,
                            x < width,
                    ;
                    assert(out@[r * width + x] == before[r * width + x]);
                }
            }
            assert((o + 1) * width == o * width + width) by (nonlinear_arith);
        }
    }
    proof {
        assert(height * width == width * height) by (nonlinear_arith);
    }
    out
}

} // verus!
