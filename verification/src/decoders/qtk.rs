use vstd::prelude::*;
use crate::bits::{be_u16, BEu16};
use super::Orientation;

verus! {

/// Whether the file starts with an Apple QuickTake magic, `qktk` or `qktn`.
pub fn is_qtk(file: &[u8]) -> (r: bool)
    ensures
        r == (file@.len() >= 4 && (file@.subrange(0, 4) == seq![0x71u8, 0x6bu8, 0x74u8, 0x6bu8]
            || file@.subrange(0, 4) == seq![0x71u8, 0x6bu8, 0x74u8, 0x6eu8])),
{
    if file.len() < 4 {
        return false;
    }
    let head = file[0] == 0x71 && file[1] == 0x6b && file[2] == 0x74;
    let r = head && (file[3] == 0x6b || file[3] == 0x6e);
    assert(r == (file@.subrange(0, 4) =~= seq![0x71u8, 0x6bu8, 0x74u8, 0x6bu8]
        || file@.subrange(0, 4) =~= seq![0x71u8, 0x6bu8, 0x74u8, 0x6eu8]));
    r
}


/// Where the QuickTake metadata lies in the file.
pub const QTK_META_OFFSET: usize = 544;

/// The size and data offset that the 16 metadata bytes `meta` state:
/// height, width, four bytes unused, and a hint that places the data at 738
/// (for 30) or 736. Where the height exceeds the width the image is stored
/// rotated: the two are swapped, and the orientation is read from the word
/// six bytes before the data.
pub open spec fn spec_qtk_header(meta: Seq<u8>) -> (usize, usize, usize, bool) {
    let height = be_u16(meta, 0);
    let width = be_u16(meta, 2);
    let offset: int = if be_u16(meta, 8) == 30 { 738 } else { 736 };
    if height > width {
        (height as usize, width as usize, offset as usize, true)
    } else {
        (width as usize, height as usize, offset as usize, false)
    }
}

/// Width, height, data offset and whether the image is stored rotated (see
/// `spec_qtk_header`).
pub fn qtk_header(meta: &[u8]) -> (r: (usize, usize, usize, bool))
    requires
        meta@.len() >= 10,
    ensures
        r == spec_qtk_header(meta@),
{
    let height = BEu16(meta, 0) as usize;
    let width = BEu16(meta, 2) as usize;
    let hint = BEu16(meta, 8);
    let offset: usize = if hint == 30 { 738 } else { 736 };
    if height > width {
        (height, width, offset, true)
    } else {
        (width, height, offset, false)
    }
}

/// The orientation of a rotated image from the word `info` stored six bytes
/// before its data: 90 degrees where either of the low two bits of `info`
/// is clear, else 270.
pub fn qtk_orientation(info: u16) -> (o: Orientation)
    ensures
        o == (if info % 4 != 3 { Orientation::Rotate90 } else { Orientation::Rotate270 }),
{
    let low = !info & 3;
    assert(low == 3 - info % 4) by (bit_vector)
        requires
            low == !info & 3,
    ;
    if low > 0 {
        Orientation::Rotate90
    } else {
        Orientation::Rotate270
    }
}

} // verus!
