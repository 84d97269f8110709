//! Kodak DC120 raw data: each row is stored rotated by a row-dependent
//! amount within a span of 848 bytes.

use vstd::prelude::*;

verus! {

/// How far row `row` is rotated.
pub open spec fn dc120_shift(row: int) -> int {
    let k = row % 4;
    let mul = if k == 0 { 162int } else if k == 1 { 192int } else if k == 2 { 187int } else { 92int };
    let add = if k == 0 { 0int } else if k == 1 { 636int } else if k == 2 { 424int } else { 212int };
    row * mul + add
}

/// Where pixel (`row`, `col`) of a `width`-wide image is stored.
pub open spec fn dc120_index(width: int, row: int, col: int) -> int {
    row * width + (col + dc120_shift(row)) % 848
}

/// Pixel `i` of a `width`-wide image, counted row by row, is (`i / width`,
/// `i % width`).
proof fn lemma_flat_index(i: int, width: int, row: int, col: int)
    requires
        width > 0,
        0 <= col < width,
        i == row * width + col,
    ensures
        i / width == row,
        i % width == col,
{
    vstd::arithmetic::div_mod::lemma_fundamental_div_mod_converse(i, width, row, col);
}

/// Decode a `width` x `height` Kodak DC120 image: pixel (`row`, `col`) is
/// the byte at `dc120_index`.
pub fn decode_dc120(src: &[u8], width: usize, height: usize) -> (out: Vec<u16>)
    requires
        width * height <= usize::MAX,
        height * 192 + 636 + width <= usize::MAX,
        forall|row: int, col: int|
            0 <= row < height && 0 <= col < width ==> #[trigger] dc120_index(width as int, row, col)
                < src@.len(),
    ensures
        out@.len() == width * height,
        forall|row: int, col: int|
            0 <= row < height && 0 <= col < width ==> #[trigger] out@[row * width + col] == src@[dc120_index(
                width as int,
                row,
                col,
            )] as u16,
{
    let mul: [usize; 4] = [162, 192, 187, 92];
    let add: [usize; 4] = [0, 636, 424, 212];
    let n = src.len();
    let mut out: Vec<u16> = Vec::new();
    for row in 0..height
        invariant
            width * height <= usize::MAX,
            height * 192 + 636 + width <= usize::MAX,
            mul@ == seq![162usize, 192, 187, 92],
            add@ == seq![0usize, 636, 424, 212],
            n == src@.len(),
            forall|r: int, c: int|
                0 <= r < height && 0 <= c < width ==> #[trigger] dc120_index(width as int, r, c)
                    < src@.len(),
            out@.len() == row * width,
            forall|i: int|
                0 <= i < out@.len() ==> #[trigger] out@[i] == src@[dc120_index(
                    width as int,
                    i / width as int,
                    i % width as int,
                )] as u16,
    {
        let k = row % 4;
        assert(row * mul@[k as int] <= row * 192) by (nonlinear_arith)
            requires
                mul@[k as int] <= 192,
        ;
        let shift = row * mul[k] + add[k];
        assert(shift as int == dc120_shift(row as int));
        assert(row * width + width <= width * height) by (nonlinear_arith)
            requires
                row < height,
        ;
        for col in 0..width
            invariant
                width * height <= usize::MAX,
                row < height,
                row * width + width <= width * height,
                shift as int == dc120_shift(row as int),
                shift + width <= usize::MAX,
                n == src@.len(),
                forall|r: int, c: int|
                    0 <= r < height && 0 <= c < width ==> #[trigger] dc120_index(width as int, r, c)
                        < src@.len(),
                out@.len() == row * width + col,
                forall|i: int|
                    0 <= i < out@.len() ==> #[trigger] out@[i] == src@[dc120_index(
                        width as int,
                        i / width as int,
                        i % width as int,
                    )] as u16,
        {
            assert(dc120_index(width as int, row as int, col as int) < src@.len());
            proof {
                lemma_flat_index(row * width + col, width as int, row as int, col as int);
            }
            let base = row * width;
            assert(base + (col + shift) % 848 == dc120_index(width as int, row as int, col as int));
            let idx = base + (col + shift) % 848;
            out.push(src[idx] as u16);
        }
        assert((row + 1) * width == row * width + width) by (nonlinear_arith);
    }
    assert(out@.len() == width * height) by (nonlinear_arith)
        requires
            out@.len() == height * width,
    ;
    assert forall|row: int, col: int| 0 <= row < height && 0 <= col < width implies #[trigger] out@[row
        * width + col] == src@[dc120_index(width as int, row, col)] as u16 by {
        lemma_flat_index(row * width + col, width as int, row, col);
        assert(row * width + col < height * width) by (nonlinear_arith)
            requires
                row < height,
                col < width,
        ;
        assert(0 <= row * width + col) by (nonlinear_arith)
            requires
                0 <= row,
                0 <= col,
                0 < width,
        ;
    }
    out
}

} // verus!
