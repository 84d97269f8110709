use crate::bits::{be_u16, be_u32, BEu16, BEu32};
use vstd::prelude::*;

verus! {

/// The magic number at the start of a Minolta MRW file (`\0MRM`).
pub const MRW_MAGIC: u32 = 0x004D524D;

/// Whether the file starts with the MRW magic.
pub fn is_mrw(file: &[u8]) -> (r: bool)
    ensures
        r == (file@.len() >= 4 && be_u32(file@, 0) == MRW_MAGIC),
{
    if file.len() < 4 {
        return false;
    }
    BEu32(file, 0) == MRW_MAGIC
}


/// What the blocks of an MRW header say: the raw size, whether the data is
/// packed, the white balance and where the TIFF block starts.
#[derive(Debug)]
pub struct MrwBlocks {
    pub data_offset: usize,
    pub raw_height: usize,
    pub raw_width: usize,
    pub packed: bool,
    pub wb_vals: (u16, u16, u16, u16),
    pub tiffpos: usize,
}

/// The block tags: PRD (picture dimensions), WBG (white balance), TTW (TIFF).
pub const MRW_PRD: u32 = 0x505244;
pub const MRW_WBG: u32 = 0x574247;
pub const MRW_TTW: u32 = 0x545457;

/// The state `st` after the block at `pos` and those after it, up to
/// `data_offset` (a block is read while 20 bytes of it lie before
/// `data_offset`); `None` where a block lies past the end of `b` or its
/// length overflows.
pub open spec fn mrw_walk(b: Seq<u8>, data_offset: int, pos: int, st: MrwBlocks) -> Option<MrwBlocks>
    decreases if pos < data_offset { data_offset - pos } else { 0 },
{
    if pos < 0 || pos + 20 >= data_offset {
        Some(st)
    } else if pos + 8 > b.len() {
        None
    } else {
        let tag = be_u32(b, pos);
        let len = be_u32(b, pos + 4);
        let next = if tag == MRW_PRD {
            if pos + 25 > b.len() {
                None
            } else {
                Some(
                    MrwBlocks {
                        raw_height: be_u16(b, pos + 16) as usize,
                        raw_width: be_u16(b, pos + 18) as usize,
                        packed: b[pos + 24] == 12,
                        ..st
                    },
                )
            }
        } else if tag == MRW_WBG {
            if pos + 20 > b.len() {
                None
            } else {
                Some(
                    MrwBlocks {
                        wb_vals: (
                            be_u16(b, pos + 12) as u16,
                            be_u16(b, pos + 14) as u16,
                            be_u16(b, pos + 16) as u16,
                            be_u16(b, pos + 18) as u16,
                        ),
                        ..st
                    },
                )
            }
        } else if tag == MRW_TTW {
            Some(MrwBlocks { tiffpos: (pos + 8) as usize, ..st })
        } else {
            Some(st)
        };
        if len + 8 > u32::MAX || pos + len + 8 > usize::MAX {
            None
        } else {
            match next {
                Some(st2) => mrw_walk(b, data_offset, pos + len + 8, st2),
                None => None,
            }
        }
    }
}

/// The blocks of the MRW header of `b`: the data starts 8 bytes past the
/// length at byte 4, and the blocks from byte 8 on.
pub open spec fn spec_mrw_blocks(b: Seq<u8>) -> Option<MrwBlocks> {
    if b.len() < 8 || be_u32(b, 4) + 8 > u32::MAX {
        None
    } else {
        mrw_walk(
            b,
            be_u32(b, 4) + 8,
            8,
            MrwBlocks {
                data_offset: (be_u32(b, 4) + 8) as usize,
                raw_height: 0,
                raw_width: 0,
                packed: false,
                wb_vals: (0, 0, 0, 0),
                tiffpos: 0,
            },
        )
    }
}

/// Read the blocks of the MRW header of `buf` (see `spec_mrw_blocks`).
pub fn parse_mrw_blocks(buf: &[u8]) -> (r: Option<MrwBlocks>)
    ensures
        r == spec_mrw_blocks(buf@),
{
    let n = buf.len();
    if n < 8 {
        return None;
    }
    let dlen = BEu32(buf, 4);
    if dlen > u32::MAX - 8 {
        return None;
    }
    let mut st = MrwBlocks {
        data_offset: (dlen + 8) as usize,
        raw_height: 0,
        raw_width: 0,
        packed: false,
        wb_vals: (0, 0, 0, 0),
        tiffpos: 0,
    };
    let data_offset = st.data_offset;
    let mut currpos: usize = 8;
    while currpos <= usize::MAX - 20 && currpos + 20 < data_offset
        invariant
            n == buf@.len(),
            data_offset == st.data_offset,
            data_offset == be_u32(buf@, 4) + 8,
            spec_mrw_blocks(buf@) == mrw_walk(buf@, data_offset as int, currpos as int, st),
        decreases if currpos < data_offset { data_offset - currpos } else { 0 },
    {
        if currpos + 8 > n {
            return None;
        }
        let tag = BEu32(buf, currpos);
        let len = BEu32(buf, currpos + 4);
        if tag == MRW_PRD {
            if n - currpos < 25 {
                return None;
            }
            st.raw_height = BEu16(buf, currpos + 16) as usize;
            st.raw_width = BEu16(buf, currpos + 18) as usize;
            st.packed = buf[currpos + 24] == 12;
        } else if tag == MRW_WBG {
            if n - currpos < 20 {
                return None;
            }
            st.wb_vals = (
                BEu16(buf, currpos + 12),
                BEu16(buf, currpos + 14),
                BEu16(buf, currpos + 16),
                BEu16(buf, currpos + 18),
            );
        } else if tag == MRW_TTW {
            st.tiffpos = currpos + 8;
        }
        if len > u32::MAX - 8 || (len + 8) as usize > usize::MAX - currpos {
            return None;
        }
        currpos = currpos + (len + 8) as usize;
    }
    Some(st)
}


/// Word `t` of the file as big-endian 16-bit words, 0 before the first.
pub open spec fn mly_word(b: Seq<u8>, t: int) -> int {
    if t < 0 { 0 } else { be_u16(b, 2 * t) }
}

/// Words `t - 3 ..= t` hold a white balance record: two neutral (256)
/// words after two in `257..640`.
pub open spec fn mly_match(b: Seq<u8>, t: int) -> bool {
    &&& mly_word(b, t - 1) == 256
    &&& mly_word(b, t) == 256
    &&& 256 < mly_word(b, t - 3) < 640
    &&& 256 < mly_word(b, t - 2) < 640
}

/// The white balance of the last record among the first `n` words, or all
/// ones where there is none.
pub open spec fn mly_wb_from(b: Seq<u8>, n: nat) -> (u16, u16, u16, u16)
    decreases n,
{
    if n == 0 {
        (1, 1, 1, 1)
    } else if mly_match(b, n - 1) {
        (mly_word(b, n - 4) as u16, 256, 256, mly_word(b, n - 3) as u16)
    } else {
        mly_wb_from(b, (n - 1) as nat)
    }
}

/// The number of words read: those that start before `data_offset` and
/// lie whole in `b`.
pub open spec fn mly_word_count(len: int, data_offset: int) -> int {
    if (data_offset + 1) / 2 < len / 2 { (data_offset + 1) / 2 } else { len / 2 }
}

/// The white balance of a Minolta MLY makernote: the last record found
/// among the words of `file` before `data_offset` (see `mly_wb_from`).
pub fn mly_wb(file: &[u8], data_offset: usize) -> (wb: (u16, u16, u16, u16))
    ensures
        wb == mly_wb_from(file@, mly_word_count(file@.len() as int, data_offset as int) as nat),
{
    let n = file.len();
    let mut wb: (u16, u16, u16, u16) = (0, 0, 0, 0);
    let mut cam_mul: (u16, u16, u16, u16) = (1, 1, 1, 1);
    let mut pos: usize = 0;
    while pos < data_offset
        invariant
            n == file@.len(),
            pos % 2 == 0,
            pos <= n,
            pos / 2 <= mly_word_count(n as int, data_offset as int),
            pos <= data_offset + 1,
            wb.0 as int == mly_word(file@, pos / 2 - 4),
            wb.1 as int == mly_word(file@, pos / 2 - 2),
            wb.2 as int == mly_word(file@, pos / 2 - 3),
            wb.3 as int == mly_word(file@, pos / 2 - 1),
            cam_mul == mly_wb_from(file@, (pos / 2) as nat),
        ensures
            pos >= data_offset || n - pos < 2,
        decreases if pos < data_offset { data_offset - pos } else { 0 },
    {
        if n - pos < 2 {
            break;
        }
        let w = BEu16(file, pos);
        wb = (wb.2, wb.3, wb.1, w);
        let ghost t = pos / 2;
        pos = pos + 2;
        proof {
            assert(w as int == mly_word(file@, t as int));
        }
        if wb.1 == 256 && wb.3 == 256 && wb.0 > 256 && wb.0 < 640 && wb.2 > 256 && wb.2 < 640 {
            cam_mul = (wb.0, wb.1, wb.3, wb.2);
        }
    }
    proof {
        assert(pos / 2 == mly_word_count(n as int, data_offset as int));
    }
    cam_mul
}

} // verus!
