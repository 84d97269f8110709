//! The Canon COLORDATA makernote tag: where, by the layout of each camera
//! generation, the white balance, black levels and white levels are kept.

use vstd::prelude::*;
use crate::bits::le_u16;

verus! {

/// What COLORDATA holds, with the white balance as the raw 16-bit values.
#[derive(Clone, Copy, Debug, PartialEq, Eq)]
pub struct ColorData {
    pub version: i16,
    pub wb: [u16; 4],
    pub blacklevel: Option<[u16; 4]>,
    pub normal_whitelevel: Option<u16>,
    pub specular_whitelevel: Option<u16>,
}

/// Why COLORDATA could not be read.
#[derive(Clone, Copy, Debug, PartialEq, Eq, Structural)]
pub enum ColorDataError {
    /// The version of undefined-typed data is not known.
    UnknownUndefinedVersion(u16),
    /// The version of short-typed data is not known.
    UnknownVersion(u16),
}

/// Where a layout keeps its values: the white balance, and where the layout
/// has them the black levels and the normal and specular white levels.
pub struct Layout {
    pub wb: int,
    pub black: Option<int>,
    pub normal_white: Option<int>,
    pub specular_white: Option<int>,
}

/// A layout of the given offsets.
pub open spec fn layout(wb: int, black: Option<int>, normal_white: Option<int>, specular_white: Option<int>) -> Layout {
    Layout { wb, black, normal_white, specular_white }
}

/// The layout of short-typed COLORDATA of `len` values starting with
/// version `v`: first by length (582, 653 and 796 values), then by version.
pub open spec fn short_layout(len: int, v: i16) -> Option<Layout> {
    if len == 582 {
        Some(layout(0x19, None, None, None))
    } else if len == 653 {
        Some(layout(0x22, None, None, None))
    } else if len == 796 {
        Some(layout(0x3f, Some(0xc4), None, None))
    } else if v == 1 {
        Some(layout(63, Some(196), None, None))
    } else if v == 2 || v == 3 {
        Some(layout(0x3f, Some(0xe7), None, None))
    } else if v == 4 || v == 5 {
        Some(layout(0x3f, Some(0x2b4), Some(0x2b8), Some(0x2b9)))
    } else if v == 6 || v == 7 {
        Some(layout(0x3f, Some(0x2cb), Some(0x2cf), Some(0x2d0)))
    } else if v == 9 {
        Some(layout(0x3f, Some(0x2cf), Some(0x2d3), Some(0x2d4)))
    } else if v == -4 {
        Some(layout(0x47, Some(0x14d), Some(0x0569), Some(0x056a)))
    } else if v == -3 {
        Some(layout(0x47, Some(0x108), None, None))
    } else if v == 10 {
        if len == 1273 || len == 1275 {
            Some(layout(0x3f, Some(0x1df), Some(0x1e3), Some(0x1e4)))
        } else {
            Some(layout(0x3f, Some(0x1f8), Some(0x1fc), Some(0x1fd)))
        }
    } else if v == 11 {
        Some(layout(0x3f, Some(0x2d8), Some(0x2dc), Some(0x2dd)))
    } else if v == 12 || v == 13 || v == 15 {
        Some(layout(0x3f, Some(0x30a), Some(0x30e), Some(0x30f)))
    } else if v == 14 {
        Some(layout(0x3f, Some(0x22c), Some(0x230), Some(0x231)))
    } else if 16 <= v <= 19 {
        Some(layout(0x47, Some(0x149), Some(0x31c), Some(0x31d)))
    } else if v == 32 || v == 33 {
        Some(layout(0x55, Some(0x157), Some(0x32a), Some(0x32b)))
    } else if v == 34 {
        Some(layout(0x69, Some(0x16b), Some(0x280), Some(0x281)))
    } else {
        None
    }
}

/// The layout of undefined-typed COLORDATA starting with version `v`.
pub open spec fn undefined_layout(v: i16) -> Option<Layout> {
    if v == -4 {
        Some(layout(0x47, Some(0x14d), Some(0x0569), Some(0x056a)))
    } else if v == -3 {
        Some(layout(0x47, Some(0x108), None, None))
    } else {
        None
    }
}

/// The version recorded in the first value, read as signed; the version
/// kept is 0 where the length alone decides the layout.
pub open spec fn short_version(data: Seq<u16>) -> i16 {
    if data.len() == 582 || data.len() == 653 || data.len() == 796 {
        0
    } else {
        data[0] as i16
    }
}

/// `data` holds every value that the layout points at.
pub open spec fn layout_fits(data: Seq<u16>, l: Layout) -> bool {
    &&& 0 <= l.wb && l.wb + 4 <= data.len()
    &&& l.black matches Some(o) ==> 0 <= o && o + 4 <= data.len()
    &&& l.normal_white matches Some(o) ==> 0 <= o < data.len()
    &&& l.specular_white matches Some(o) ==> 0 <= o < data.len()
}

/// The four values of `data` from `o` on.
pub open spec fn quad(data: Seq<u16>, o: int) -> Seq<u16> {
    data.subrange(o, o + 4)
}

/// `c` holds what layout `l` points at in `data`, with version `version`.
pub open spec fn read_with(c: ColorData, data: Seq<u16>, version: i16, l: Layout) -> bool {
    &&& c.version == version
    &&& c.wb@ == quad(data, l.wb)
    &&& match l.black {
        Some(o) => c.blacklevel matches Some(b) && b@ == quad(data, o),
        None => c.blacklevel is None,
    }
    &&& match l.normal_white {
        Some(o) => c.normal_whitelevel == Some(data[o]),
        None => c.normal_whitelevel is None,
    }
    &&& match l.specular_white {
        Some(o) => c.specular_whitelevel == Some(data[o]),
        None => c.specular_whitelevel is None,
    }
}

impl ColorData {
    /// The values at the given offsets.
    pub fn new(
        data: &[u16],
        version: i16,
        wb_off: usize,
        black_off: Option<usize>,
        norm_white_off: Option<usize>,
        specular_white_off: Option<usize>,
    ) -> (r: ColorData)
        requires
            layout_fits(
                data@,
                layout(
                    wb_off as int,
                    match black_off { Some(o) => Some(o as int), None => None },
                    match norm_white_off { Some(o) => Some(o as int), None => None },
                    match specular_white_off { Some(o) => Some(o as int), None => None },
                ),
            ),
        ensures
            read_with(
                r,
                data@,
                version,
                layout(
                    wb_off as int,
                    match black_off { Some(o) => Some(o as int), None => None },
                    match norm_white_off { Some(o) => Some(o as int), None => None },
                    match specular_white_off { Some(o) => Some(o as int), None => None },
                ),
            ),
    {
        let wb = [data[wb_off], data[wb_off + 1], data[wb_off + 2], data[wb_off + 3]];
        assert(wb@ =~= quad(data@, wb_off as int));
        let blacklevel = match black_off {
            Some(off) => {
                let b = [data[off], data[off + 1], data[off + 2], data[off + 3]];
                assert(b@ =~= quad(data@, off as int));
                Some(b)
            },
            None => None,
        };
        let normal_whitelevel = match norm_white_off {
            Some(off) => Some(data[off]),
            None => None,
        };
        let specular_whitelevel = match specular_white_off {
            Some(off) => Some(data[off]),
            None => None,
        };
        ColorData { version, wb, blacklevel, normal_whitelevel, specular_whitelevel }
    }
}

/// The values of undefined-typed data: little-endian pairs of bytes.
pub open spec fn le_values(bytes: Seq<u8>) -> Seq<u16> {
    Seq::new(bytes.len() / 2, |i: int| le_u16(bytes, 2 * i) as u16)
}

/// COLORDATA stored as 16-bit values.
pub fn parse_colordata_shorts(data: &[u16]) -> (r: Result<ColorData, ColorDataError>)
    requires
        data@.len() >= 1,
        short_layout(data@.len() as int, data@[0] as i16) matches Some(l) ==> layout_fits(data@, l),
    ensures
        match short_layout(data@.len() as int, data@[0] as i16) {
            Some(l) => r matches Ok(c) && read_with(c, data@, short_version(data@), l),
            None => r == Err::<ColorData, ColorDataError>(ColorDataError::UnknownVersion(data@[0])),
        },
{
    let n = data.len();
    if n == 582 {
        return Ok(ColorData::new(data, 0, 0x19, None, None, None));
    }
    if n == 653 {
        return Ok(ColorData::new(data, 0, 0x22, None, None, None));
    }
    if n == 796 {
        return Ok(ColorData::new(data, 0, 0x3f, Some(0xc4), None, None));
    }
    let version: i16 = data[0] as i16;
    if version == 1 {
        Ok(ColorData::new(data, version, 63, Some(196), None, None))
    } else if version == 2 || version == 3 {
        Ok(ColorData::new(data, version, 0x3f, Some(0xe7), None, None))
    } else if version == 4 || version == 5 {
        Ok(ColorData::new(data, version, 0x3f, Some(0x2b4), Some(0x2b8), Some(0x2b9)))
    } else if version == 6 || version == 7 {
        Ok(ColorData::new(data, version, 0x3f, Some(0x2cb), Some(0x2cf), Some(0x2d0)))
    } else if version == 9 {
        Ok(ColorData::new(data, version, 0x3f, Some(0x2cf), Some(0x2d3), Some(0x2d4)))
    } else if version == -4 {
        Ok(ColorData::new(data, version, 0x47, Some(0x14d), Some(0x0569), Some(0x056a)))
    } else if version == -3 {
        Ok(ColorData::new(data, version, 0x47, Some(0x108), None, None))
    } else if version == 10 {
        if n == 1273 || n == 1275 {
            Ok(ColorData::new(data, version, 0x3f, Some(0x1df), Some(0x1e3), Some(0x1e4)))
        } else {
            Ok(ColorData::new(data, version, 0x3f, Some(0x1f8), Some(0x1fc), Some(0x1fd)))
        }
    } else if version == 11 {
        Ok(ColorData::new(data, version, 0x3f, Some(0x2d8), Some(0x2dc), Some(0x2dd)))
    } else if version == 12 || version == 13 || version == 15 {
        Ok(ColorData::new(data, version, 0x3f, Some(0x30a), Some(0x30e), Some(0x30f)))
    } else if version == 14 {
        Ok(ColorData::new(data, version, 0x3f, Some(0x22c), Some(0x230), Some(0x231)))
    } else if 16 <= version && version <= 19 {
        Ok(ColorData::new(data, version, 0x47, Some(0x149), Some(0x31c), Some(0x31d)))
    } else if version == 32 || version == 33 {
        Ok(ColorData::new(data, version, 0x55, Some(0x157), Some(0x32a), Some(0x32b)))
    } else if version == 34 {
        Ok(ColorData::new(data, version, 0x69, Some(0x16b), Some(0x280), Some(0x281)))
    } else {
        Err(ColorDataError::UnknownVersion(data[0]))
    }
}

/// COLORDATA stored as undefined bytes: the values are read as
/// little-endian pairs, and only the mirrorless layouts are known.
pub fn parse_colordata_bytes(undef: &[u8]) -> (r: Result<ColorData, ColorDataError>)
    requires
        undef@.len() >= 2,
        undef@.len() % 2 == 0,
        undefined_layout(le_values(undef@)[0] as i16) matches Some(l) ==> layout_fits(le_values(undef@), l),
    ensures
        match undefined_layout(le_values(undef@)[0] as i16) {
            Some(l) => r matches Ok(c) && read_with(c, le_values(undef@), le_values(undef@)[0] as i16, l),
            None => r == Err::<ColorData, ColorDataError>(
                ColorDataError::UnknownUndefinedVersion(le_values(undef@)[0]),
            ),
        },
{
    let mut data: Vec<u16> = Vec::new();
    let n = undef.len() / 2;
    for i in 0..n
        invariant
            n == undef@.len() / 2,
            undef@.len() <= usize::MAX,
            undef@.len() % 2 == 0,
            data@ == le_values(undef@).subrange(0, i as int),
    {
        let v: u16 = ((undef[2 * i + 1] as u16) << 8u16) | (undef[2 * i] as u16);
        proof {
            le_pair_bits(undef@[2 * i as int], undef@[2 * i + 1]);
        }
        data.push(v);
        assert(data@ =~= le_values(undef@).subrange(0, i + 1));
    }
    assert(data@ =~= le_values(undef@));
    let version: i16 = data[0] as i16;
    if version == -4 {
        Ok(ColorData::new(data.as_slice(), version, 0x47, Some(0x14d), Some(0x0569), Some(0x056a)))
    } else if version == -3 {
        Ok(ColorData::new(data.as_slice(), version, 0x47, Some(0x108), None, None))
    } else {
        Err(ColorDataError::UnknownUndefinedVersion(data[0]))
    }
}

proof fn le_pair_bits(lo: u8, hi: u8)
    by (bit_vector)
    ensures
        ((hi as u16) << 8u16) | (lo as u16) == (lo as u16) + (hi as u16) * 256,
{
}

} // verus!
