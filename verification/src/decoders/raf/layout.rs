//! How the raw data of a RAF file is laid out: its size and bit depth, the
//! decoder that reads it and whether the image is stored rotated.

use vstd::prelude::*;

verus! {

/// What the RAF container, its raw IFD and the camera's configuration say.
#[derive(Debug, Clone, Copy)]
pub struct RafFacts {
    /// `RawImageFullWidth` and `RawImageFullHeight` of the raw IFD.
    pub full_size: Option<(usize, usize)>,
    /// The two `ImageWidth` values of the RAF data IFD, if there is one.
    pub raf_sizes: Option<(usize, usize)>,
    /// `RafBitsPerSample`, if stated.
    pub bps: Option<u32>,
    /// The length of the raw data.
    pub src_len: usize,
    /// The camera's `double_width`, `jpeg32` and rotation hints.
    pub double_width: bool,
    pub jpeg32: bool,
    pub rotation: bool,
    /// The camera is the DBP for GX680.
    pub dbp: bool,
    /// The container is little-endian.
    pub little_endian: bool,
}

/// The decoder that reads the raw data.
#[derive(Debug, Clone, Copy, PartialEq, Eq)]
pub enum RafDecoding {
    /// 16-bit little-endian samples, every second line skipped.
    Le16SkipLines,
    Be12Msb32,
    Be14Msb32,
    /// Tiled DBP data.
    Dbp,
    /// Fuji's compressed format.
    Compressed,
    Le12,
    Le14Unpacked,
    Le16,
    Be16,
}

#[derive(Debug, Clone, Copy, PartialEq, Eq)]
pub struct RafLayout {
    pub width: usize,
    pub height: usize,
    pub bps: u32,
    pub decoding: RafDecoding,
    /// The image is stored rotated (SuperCCD) and is turned upright.
    pub rotate: bool,
}

#[derive(Debug, Clone, Copy, PartialEq, Eq)]
pub enum RafError {
    /// Neither the raw IFD nor a RAF data IFD states the size.
    NoRafData,
    /// No decoder reads this bit depth.
    UnsupportedBps(u32),
}

/// The layout the facts give. The size comes from the raw IFD, or else
/// from the RAF data IFD (height first); 16 bits per sample where none is
/// stated. Data shorter than the uncompressed size is compressed.
pub open spec fn spec_raf_layout(f: RafFacts) -> Result<RafLayout, RafError> {
    let size = match f.full_size {
        Some(s) => Some(s),
        None => match f.raf_sizes {
            Some((a, b)) => Some((b, a)),
            None => None,
        },
    };
    match size {
        None => Err(RafError::NoRafData),
        Some((w, h)) => {
            let bps: u32 = match f.bps {
                Some(b) => b,
                None => 16,
            };
            let decoding = if f.double_width {
                Ok(RafDecoding::Le16SkipLines)
            } else if f.jpeg32 {
                if bps == 12 {
                    Ok(RafDecoding::Be12Msb32)
                } else if bps == 14 {
                    Ok(RafDecoding::Be14Msb32)
                } else {
                    Err(RafError::UnsupportedBps(bps))
                }
            } else if f.dbp {
                if bps == 16 { Ok(RafDecoding::Dbp) } else { Err(RafError::UnsupportedBps(bps)) }
            } else if (f.src_len as int) < bps * w * h / 8 {
                Ok(RafDecoding::Compressed)
            } else if bps == 12 {
                Ok(RafDecoding::Le12)
            } else if bps == 14 {
                Ok(RafDecoding::Le14Unpacked)
            } else if bps == 16 {
                if f.little_endian { Ok(RafDecoding::Le16) } else { Ok(RafDecoding::Be16) }
            } else {
                Err(RafError::UnsupportedBps(bps))
            };
            match decoding {
                Ok(d) => Ok(RafLayout { width: w, height: h, bps, decoding: d, rotate: f.rotation }),
                Err(e) => Err(e),
            }
        },
    }
}

/// The layout of a RAF file's raw data (see `spec_raf_layout`).
pub fn raf_raw_layout(f: &RafFacts) -> (r: Result<RafLayout, RafError>)
    requires
        ({
            let (w, h) = match f.full_size {
                Some(s) => s,
                None => match f.raf_sizes {
                    Some((a, b)) => (b, a),
                    None => (0, 0),
                },
            };
            let bps = match f.bps {
                Some(b) => b as int,
                None => 16,
            };
            bps * w * h <= usize::MAX
        }),
    ensures
        r == spec_raf_layout(*f),
{
    let size = match f.full_size {
        Some(s) => Some(s),
        None => match f.raf_sizes {
            Some((a, b)) => Some((b, a)),
            None => None,
        },
    };
    let (w, h) = match size {
        None => {
            return Err(RafError::NoRafData);
        },
        Some(s) => s,
    };
    let bps: u32 = match f.bps {
        Some(b) => b,
        None => 16,
    };
    let decoding = if f.double_width {
        RafDecoding::Le16SkipLines
    } else if f.jpeg32 {
        if bps == 12 {
            RafDecoding::Be12Msb32
        } else if bps == 14 {
            RafDecoding::Be14Msb32
        } else {
            return Err(RafError::UnsupportedBps(bps));
        }
    } else if f.dbp {
        if bps == 16 {
            RafDecoding::Dbp
        } else {
            return Err(RafError::UnsupportedBps(bps));
        }
    } else {
        assert(bps * w * h <= usize::MAX);
        assert(0 <= bps * w) by (nonlinear_arith)
            requires
                bps >= 0,
                w >= 0,
        ;
        assert(bps * w <= bps * w * h || h == 0) by (nonlinear_arith)
            requires
                0 <= bps * w,
                h >= 0,
        ;
        if h == 0 {
            assert(bps * w * h == 0) by (nonlinear_arith)
                requires
                    h == 0,
            ;
        }
        let unpacked = if h == 0 { 0 } else { (bps as usize) * w * h / 8 };
        if f.src_len < unpacked {
            RafDecoding::Compressed
        } else if bps == 12 {
            RafDecoding::Le12
        } else if bps == 14 {
            RafDecoding::Le14Unpacked
        } else if bps == 16 {
            if f.little_endian {
                RafDecoding::Le16
            } else {
                RafDecoding::Be16
            }
        } else {
            return Err(RafError::UnsupportedBps(bps));
        }
    };
    Ok(RafLayout { width: w, height: h, bps, decoding, rotate: f.rotation })
}

/// Every decoder chosen reads samples of the bit depth chosen: 12-bit
/// decoders for 12 bits, 14-bit ones for 14, 16-bit ones for 16 (in the
/// container's byte order).
pub proof fn lemma_raf_decoder_matches_bps(f: RafFacts)
    ensures
        spec_raf_layout(f) matches Ok(l) ==> {
            &&& (l.decoding == RafDecoding::Le12 || l.decoding == RafDecoding::Be12Msb32) ==> l.bps == 12
            &&& (l.decoding == RafDecoding::Le14Unpacked || l.decoding == RafDecoding::Be14Msb32) ==> l.bps == 14
            &&& (l.decoding == RafDecoding::Le16 || l.decoding == RafDecoding::Be16 || l.decoding
                == RafDecoding::Dbp) ==> l.bps == 16
            &&& l.decoding == RafDecoding::Le16 ==> f.little_endian
            &&& l.decoding == RafDecoding::Be16 ==> !f.little_endian
            &&& l.rotate == f.rotation
        },
{
}

/// Uncompressed data (at least `bps * width * height / 8` bytes) of a camera
/// without special hints is read by the plain decoder of its bit depth;
/// shorter data is compressed.
pub proof fn lemma_raf_plain_data(f: RafFacts, w: usize, h: usize, b: u32)
    requires
        f.full_size == Some((w, h)),
        f.bps == Some(b),
        !f.double_width,
        !f.jpeg32,
        !f.dbp,
    ensures
        (f.src_len as int) < b * w * h / 8 ==> spec_raf_layout(f) == Ok::<RafLayout, RafError>(
            RafLayout { width: w, height: h, bps: b, decoding: RafDecoding::Compressed, rotate: f.rotation },
        ),
        (f.src_len as int) >= b * w * h / 8 && b == 12 ==> spec_raf_layout(f) == Ok::<RafLayout, RafError>(
            RafLayout { width: w, height: h, bps: 12, decoding: RafDecoding::Le12, rotate: f.rotation },
        ),
        (f.src_len as int) >= b * w * h / 8 && b == 14 ==> spec_raf_layout(f) == Ok::<RafLayout, RafError>(
            RafLayout { width: w, height: h, bps: 14, decoding: RafDecoding::Le14Unpacked, rotate: f.rotation },
        ),
        (f.src_len as int) >= b * w * h / 8 && b == 16 ==> spec_raf_layout(f) == Ok::<RafLayout, RafError>(
            RafLayout {
                width: w,
                height: h,
                bps: 16,
                decoding: if f.little_endian { RafDecoding::Le16 } else { RafDecoding::Be16 },
                rotate: f.rotation,
            },
        ),
        (f.src_len as int) >= b * w * h / 8 && b != 12 && b != 14 && b != 16 ==> spec_raf_layout(f) == Err::<
            RafLayout,
            RafError,
        >(RafError::UnsupportedBps(b)),
{
}

/// The hints decide before the data: `double_width` means 16-bit lines to
/// skip, `jpeg32` the MSB32 decoders of 12 or 14 bits, the DBP camera its
/// tiles of 16 bits.
pub proof fn lemma_raf_hints(f: RafFacts, w: usize, h: usize, b: u32)
    requires
        f.full_size == Some((w, h)),
        f.bps == Some(b),
    ensures
        f.double_width ==> spec_raf_layout(f) == Ok::<RafLayout, RafError>(
            RafLayout { width: w, height: h, bps: b, decoding: RafDecoding::Le16SkipLines, rotate: f.rotation },
        ),
        !f.double_width && f.jpeg32 && b == 12 ==> spec_raf_layout(f) == Ok::<RafLayout, RafError>(
            RafLayout { width: w, height: h, bps: 12, decoding: RafDecoding::Be12Msb32, rotate: f.rotation },
        ),
        !f.double_width && f.jpeg32 && b == 14 ==> spec_raf_layout(f) == Ok::<RafLayout, RafError>(
            RafLayout { width: w, height: h, bps: 14, decoding: RafDecoding::Be14Msb32, rotate: f.rotation },
        ),
        !f.double_width && !f.jpeg32 && f.dbp && b == 16 ==> spec_raf_layout(f) == Ok::<RafLayout, RafError>(
            RafLayout { width: w, height: h, bps: 16, decoding: RafDecoding::Dbp, rotate: f.rotation },
        ),
{
}

/// Without a size in the raw IFD, the RAF data IFD gives it height first.
pub proof fn lemma_raf_size_from_raf_data(f: RafFacts, a: usize, b: usize)
    requires
        f.full_size is None,
        f.raf_sizes == Some((a, b)),
    ensures
        spec_raf_layout(f) matches Ok(l) ==> l.width == b && l.height == a,
        f.raf_sizes is None ==> spec_raf_layout(f) == Err::<RafLayout, RafError>(RafError::NoRafData),
{
}

} // verus!
