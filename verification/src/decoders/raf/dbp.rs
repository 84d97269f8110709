//! Fujifilm DBP raw data: the image is stored as eight vertical tiles, one
//! after the other, each row by row in big-endian 16-bit samples.

use vstd::prelude::*;
use crate::bits::{be_u16, BEu16};

verus! {

/// The number of tiles across the image.
pub const DBP_TILES: usize = 8;

/// Pixel (`row`, `col`) of a `width` x `height` DBP image: the sample of
/// its tile, or 0 in the columns right of the last whole tile.
pub open spec fn dbp_pixel(buf: Seq<u8>, width: int, height: int, row: int, col: int) -> int {
    let tw = width / 8;
    if col < 8 * tw {
        be_u16(buf, 2 * ((col / tw) * height * tw + row * tw + col % tw))
    } else {
        0
    }
}

proof fn lemma_tile_index(t: int, k: int, row: int, tw: int, height: int)
    requires
        0 <= t < 8,
        0 <= k < tw,
        0 <= row < height,
    ensures
        0 <= t * height * tw + row * tw + k < 8 * height * tw,
{
    assert(0 <= t * height * tw + row * tw + k < 8 * height * tw) by (nonlinear_arith)
        requires
            0 <= t < 8,
            0 <= k < tw,
            0 <= row < height,
    ;
}

/// Decode a `width` x `height` DBP image from `buf`; `None` where `buf`
/// holds fewer than the eight tiles.
pub fn decode_dbp(buf: &[u8], width: usize, height: usize) -> (r: Option<Vec<u16>>)
    requires
        width * height <= usize::MAX,
    ensures
        match r {
            None => buf@.len() < 16 * height * (width / 8),
            Some(out) => {
                &&& buf@.len() >= 16 * height * (width / 8)
                &&& out@.len() == width * height
                &&& forall|row: int, col: int|
                    0 <= row < height && 0 <= col < width ==> #[trigger] out@[row * width + col] as int
                        == dbp_pixel(buf@, width as int, height as int, row, col)
            },
        },
{
    let tile_width = width / DBP_TILES;
    let n = buf.len();
    let tile_len = match height.checked_mul(tile_width) {
        Some(v) => v,
        None => {
            proof {
                assert(16 * height * tile_width >= height * tile_width) by (nonlinear_arith);
            }
            return None;
        },
    };
    if tile_len > n / 16 {
        proof {
            assert(16 * height * tile_width == 16 * tile_len) by (nonlinear_arith)
                requires
                    tile_len == height * tile_width,
            ;
        }
        return None;
    }
    proof {
        assert(16 * height * tile_width == 16 * tile_len) by (nonlinear_arith)
            requires
                tile_len == height * tile_width,
        ;
        assert(0 * width == 0) by (nonlinear_arith);
        assert(8 * tile_width <= width);
    }
    let mut out: Vec<u16> = Vec::new();
    for row in 0..height
        invariant
            n == buf@.len(),
            tile_width == width / 8,
            8 * tile_width <= width,
            tile_len == height * tile_width,
            16 * tile_len <= n,
            width * height <= usize::MAX,
            out@.len() == row * width,
            forall|r: int, c: int|
                0 <= r < row && 0 <= c < width ==> #[trigger] out@[r * width + c] as int == dbp_pixel(
                    buf@,
                    width as int,
                    height as int,
                    r,
                    c,
                ),
    {
        let ghost before = out@;
        for col in 0..width
            invariant
                n == buf@.len(),
                tile_width == width / 8,
                8 * tile_width <= width,
                tile_len == height * tile_width,
                16 * tile_len <= n,
                row < height,
                out@.len() == row * width + col,
                forall|k: int| 0 <= k < row * width ==> #[trigger] out@[k] == before[k],
                forall|c: int|
                    0 <= c < col ==> #[trigger] out@[row * width + c] as int == dbp_pixel(
                        buf@,
                        width as int,
                        height as int,
                        row as int,
                        c,
                    ),
        {
            if col < DBP_TILES * tile_width {
                let t = col / tile_width;
                let k = col % tile_width;
                proof {
                    assert(t < 8) by (nonlinear_arith)
                        requires
                            col < 8 * tile_width,
                            t == col / tile_width,
                            tile_width > 0,
                    ;
                    lemma_tile_index(t as int, k as int, row as int, tile_width as int, height as int);
                    assert(height * tile_width == tile_len);
                    assert(t * height * tile_width + row * tile_width + k < 8 * tile_len) by (nonlinear_arith)
                        requires
                            t * height * tile_width + row * tile_width + k < 8 * height * tile_width,
                            height * tile_width == tile_len,
                    ;
                }
                assert(t * tile_len + row * tile_width + k < 8 * tile_len && 0 <= t * tile_len
                    && 0 <= row * tile_width) by (nonlinear_arith)
                    requires
                        t * height * tile_width + row * tile_width + k < 8 * tile_len,
                        tile_len == height * tile_width,
                ;
                let idx = t * tile_len + row * tile_width + k;
                assert(idx == t * height * tile_width + row * tile_width + k) by (nonlinear_arith)
                    requires
                        idx == t * tile_len + row * tile_width + k,
                        tile_len == height * tile_width,
                ;
                out.push(BEu16(buf, 2 * idx));
            } else {
                out.push(0);
            }
        }
        proof {
            assert forall|r: int, c: int|
                0 <= r < row + 1 && 0 <= c < width implies #[trigger] out@[r * width + c] as int
                    == dbp_pixel(buf@, width as int, height as int, r, c) by {
                if r < row {
                    assert(r * width + c < row * width) by (nonlinear_arith)
                        requires
                            r < row,
                            c < width,
                    ;
                    assert(out@[r * width + c] == before[r * width + c]);
                }
            }
            assert((row + 1) * width == row * width + width) by (nonlinear_arith);
        }
    }
    proof {
        assert(height * width == width * height) by (nonlinear_arith);
    }
    Some(out)
}

} // verus!
