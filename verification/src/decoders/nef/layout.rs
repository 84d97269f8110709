//! How the raw data of a NEF file is laid out, decided from its tags and
//! the camera's hints.

use vstd::prelude::*;

verus! {

/// The compressions that the NEF makernote names.
#[derive(Debug, Copy, Clone, PartialEq, Eq, Structural)]
#[allow(non_camel_case_types)]
pub enum NefCompression {
    LossyType1,
    Uncompressed,
    Lossless,
    LossyType2,
    StripedPacked12Bits,
    UncompressedReduced12Bits,
    Unpacked12Bits,
    Small,
    Packed12Bits,
    Packed14Bits,
    HighEfficency,
    HighEfficencyStar,
}

pub open spec fn spec_nef_compression(v: u16) -> Option<NefCompression> {
    if v == 1 {
        Some(NefCompression::LossyType1)
    } else if v == 2 {
        Some(NefCompression::Uncompressed)
    } else if v == 3 {
        Some(NefCompression::Lossless)
    } else if v == 4 {
        Some(NefCompression::LossyType2)
    } else if v == 5 {
        Some(NefCompression::StripedPacked12Bits)
    } else if v == 6 {
        Some(NefCompression::UncompressedReduced12Bits)
    } else if v == 7 {
        Some(NefCompression::Unpacked12Bits)
    } else if v == 8 {
        Some(NefCompression::Small)
    } else if v == 9 {
        Some(NefCompression::Packed12Bits)
    } else if v == 10 {
        Some(NefCompression::Packed14Bits)
    } else if v == 13 {
        Some(NefCompression::HighEfficency)
    } else if v == 14 {
        Some(NefCompression::HighEfficencyStar)
    } else {
        None
    }
}

impl NefCompression {
    /// The compression with the makernote code `v`, or `None` for an unknown
    /// code.
    pub fn from_code(v: u16) -> (r: Option<NefCompression>)
        ensures
            r == spec_nef_compression(v),
    {
        match v {
            1 => Some(Self::LossyType1),
            2 => Some(Self::Uncompressed),
            3 => Some(Self::Lossless),
            4 => Some(Self::LossyType2),
            5 => Some(Self::StripedPacked12Bits),
            6 => Some(Self::UncompressedReduced12Bits),
            7 => Some(Self::Unpacked12Bits),
            8 => Some(Self::Small),
            9 => Some(Self::Packed12Bits),
            10 => Some(Self::Packed14Bits),
            13 => Some(Self::HighEfficency),
            14 => Some(Self::HighEfficencyStar),
            _ => None,
        }
    }
}

/// Whether the strip of `size` bytes holds uncompressed data, and with how
/// many bytes of padding per row: none where the tags say so or the size is
/// exact, else the padding where the rows are padded evenly by less than 16
/// bytes.
pub open spec fn spec_is_uncompressed(width: int, height: int, bps: int, compression: int, size: int) -> Option<
    int,
> {
    let req_bytes = (bps * (width * height) + 7) / 8;
    if compression == 1 || size == width * height * bps / 8 {
        Some(0)
    } else if size >= req_bytes {
        let padding = size - req_bytes;
        if padding % height != 0 {
            None
        } else if padding / height < 16 {
            Some(padding / height)
        } else {
            None
        }
    } else {
        None
    }
}

/// The padding of uncompressed rows (see `spec_is_uncompressed`).
pub fn is_uncompressed(width: usize, height: usize, bps: usize, compression: usize, size: usize) -> (r: Option<usize>)
    requires
        width * height <= usize::MAX,
        width * height * bps <= usize::MAX,
        height > 0 || compression == 1 || size == 0,
    ensures
        r == (match spec_is_uncompressed(width as int, height as int, bps as int, compression as int, size as int) {
            Some(p) => Some(p as usize),
            None => None,
        }),
{
    assert(width * height * bps == bps * (width * height)) by (nonlinear_arith);
    let req_pixels = width * height;
    let req_input_bits = bps * req_pixels;
    let req_input_bytes = req_input_bits / 8 + if req_input_bits % 8 != 0 { 1 } else { 0 };
    assert(req_input_bytes == (req_input_bits + 7) / 8);
    if compression == 1 || size == width * height * bps / 8 {
        Some(0)
    } else if size >= req_input_bytes {
        let total_padding = size - req_input_bytes;
        let per_row_padding = total_padding / height;
        if total_padding % height != 0 {
            None
        } else if per_row_padding < 16 {
            Some(per_row_padding)
        } else {
            None
        }
    } else {
        None
    }
}


/// What the camera's configuration says of its NEF data.
#[derive(Debug, Copy, Clone)]
pub struct NefHints {
    /// The camera is a D100.
    pub d100: bool,
    pub coolpixsplit: bool,
    pub msb32: bool,
    pub unpacked: bool,
    pub little_endian: bool,
    pub big_endian: bool,
}

/// The layout of the raw data, which names the decoder that reads it.
#[derive(Debug, Copy, Clone, PartialEq, Eq, Structural)]
pub enum NefDecoding {
    /// 12-bit big-endian with control bytes, 3040 pixels wide.
    Be12WithControl,
    Be12InterlacedUnaligned,
    Be12Msb32,
    Le16,
    Be16,
    /// Packed 14-bit little-endian rows of `stride` bytes.
    Le14Padded { stride: usize },
    Le14Unpacked,
    Be14Unpacked,
    /// Packed 12-bit little-endian rows of `stride` bytes.
    Le12Padded { stride: usize },
    Be12,
    /// Nikon's small YCbCr format, three samples per pixel.
    Snef,
    /// Huffman-coded data.
    Compressed,
}

/// Why the raw data cannot be read.
#[derive(Debug, Copy, Clone, PartialEq, Eq, Structural)]
pub enum NefLayoutError {
    /// The High Efficiency codecs are not supported.
    UnsupportedNefCompression(NefCompression),
    /// Uncompressed data of this bit depth is not supported.
    UnsupportedBps(usize),
    /// The TIFF compression is not known.
    UnsupportedCompression(usize),
}

/// Where the data is little-endian.
pub open spec fn nef_little_endian(hints: NefHints, tiff_little_endian: bool) -> bool {
    (tiff_little_endian || hints.little_endian) && !hints.big_endian
}

/// The layout of the raw data: the checks run in this order, the first that
/// holds decides.
pub open spec fn spec_nef_decoding(
    hints: NefHints,
    tiff_little_endian: bool,
    nef_compression: Option<NefCompression>,
    width: int,
    height: int,
    bps: int,
    compression: int,
    size: int,
) -> Result<NefDecoding, NefLayoutError> {
    let le = nef_little_endian(hints, tiff_little_endian);
    if nef_compression == Some(NefCompression::HighEfficency) || nef_compression == Some(
        NefCompression::HighEfficencyStar,
    ) {
        Err(NefLayoutError::UnsupportedNefCompression(nef_compression.unwrap()))
    } else if hints.d100 {
        Ok(NefDecoding::Be12WithControl)
    } else if hints.coolpixsplit {
        Ok(NefDecoding::Be12InterlacedUnaligned)
    } else if hints.msb32 {
        Ok(NefDecoding::Be12Msb32)
    } else if hints.unpacked {
        if le {
            Ok(NefDecoding::Le16)
        } else {
            Ok(NefDecoding::Be16)
        }
    } else if let Some(padding) = spec_is_uncompressed(width, height, bps, compression, size) {
        if bps == 14 {
            if le {
                if nef_compression == Some(NefCompression::Packed14Bits) {
                    Ok(NefDecoding::Le14Padded { stride: (width * 14 / 8 + padding) as usize })
                } else {
                    Ok(NefDecoding::Le14Unpacked)
                }
            } else {
                Ok(NefDecoding::Be14Unpacked)
            }
        } else if bps == 12 {
            if le {
                Ok(NefDecoding::Le12Padded { stride: (width * 12 / 8 + padding) as usize })
            } else {
                Ok(NefDecoding::Be12)
            }
        } else {
            Err(NefLayoutError::UnsupportedBps(bps as usize))
        }
    } else if size == width * height * 3 {
        Ok(NefDecoding::Snef)
    } else if compression == 34713 {
        Ok(NefDecoding::Compressed)
    } else {
        Err(NefLayoutError::UnsupportedCompression(compression as usize))
    }
}

/// Decide how the raw data of `width` x `height` pixels of `bps` bits, in a
/// strip of `size` bytes with TIFF compression `compression`, is laid out.
pub fn nef_decoding(
    hints: &NefHints,
    tiff_little_endian: bool,
    nef_compression: Option<NefCompression>,
    width: usize,
    height: usize,
    bps: usize,
    compression: usize,
    size: usize,
) -> (r: Result<NefDecoding, NefLayoutError>)
    requires
        width * height <= usize::MAX,
        width * height * bps <= usize::MAX,
        width * height * 3 <= usize::MAX,
        width * 14 <= usize::MAX,
        height > 0 || compression == 1 || size == 0,
    ensures
        r == spec_nef_decoding(
            *hints,
            tiff_little_endian,
            nef_compression,
            width as int,
            height as int,
            bps as int,
            compression as int,
            size as int,
        ),
{
    let le = (tiff_little_endian || hints.little_endian) && !hints.big_endian;
    if nef_compression == Some(NefCompression::HighEfficency) || nef_compression == Some(
        NefCompression::HighEfficencyStar,
    ) {
        return Err(NefLayoutError::UnsupportedNefCompression(nef_compression.unwrap()));
    }
    if hints.d100 {
        Ok(NefDecoding::Be12WithControl)
    } else if hints.coolpixsplit {
        Ok(NefDecoding::Be12InterlacedUnaligned)
    } else if hints.msb32 {
        Ok(NefDecoding::Be12Msb32)
    } else if hints.unpacked {
        if le {
            Ok(NefDecoding::Le16)
        } else {
            Ok(NefDecoding::Be16)
        }
    } else if let Some(padding) = is_uncompressed(width, height, bps, compression, size) {
        if bps == 14 {
            if le {
                if nef_compression == Some(NefCompression::Packed14Bits) {
                    Ok(NefDecoding::Le14Padded { stride: (width * bps / 8) + padding })
                } else {
                    Ok(NefDecoding::Le14Unpacked)
                }
            } else {
                Ok(NefDecoding::Be14Unpacked)
            }
        } else if bps == 12 {
            if le {
                Ok(NefDecoding::Le12Padded { stride: (width * bps / 8) + padding })
            } else {
                Ok(NefDecoding::Be12)
            }
        } else {
            Err(NefLayoutError::UnsupportedBps(bps))
        }
    } else if size == width * height * 3 {
        Ok(NefDecoding::Snef)
    } else if compression == 34713 {
        Ok(NefDecoding::Compressed)
    } else {
        Err(NefLayoutError::UnsupportedCompression(compression))
    }
}

/// The NEF compression codes: 1 to 10 in order of the variants, then 13
/// and 14 for the High Efficiency codecs; no other code names one.
pub proof fn lemma_nef_compression_table(v: u16)
    ensures
        spec_nef_compression(1) == Some(NefCompression::LossyType1),
        spec_nef_compression(2) == Some(NefCompression::Uncompressed),
        spec_nef_compression(3) == Some(NefCompression::Lossless),
        spec_nef_compression(4) == Some(NefCompression::LossyType2),
        spec_nef_compression(5) == Some(NefCompression::StripedPacked12Bits),
        spec_nef_compression(6) == Some(NefCompression::UncompressedReduced12Bits),
        spec_nef_compression(7) == Some(NefCompression::Unpacked12Bits),
        spec_nef_compression(8) == Some(NefCompression::Small),
        spec_nef_compression(9) == Some(NefCompression::Packed12Bits),
        spec_nef_compression(10) == Some(NefCompression::Packed14Bits),
        spec_nef_compression(13) == Some(NefCompression::HighEfficency),
        spec_nef_compression(14) == Some(NefCompression::HighEfficencyStar),
        (v == 0 || v == 11 || v == 12 || v > 14) ==> spec_nef_compression(v) is None,
{
}

/// Files in a High Efficiency codec (codes 13 and 14) are refused, whatever
/// else they state.
pub proof fn lemma_high_efficiency_refused(
    hints: NefHints,
    tiff_little_endian: bool,
    code: u16,
    width: int,
    height: int,
    bps: int,
    compression: int,
    size: int,
)
    requires
        code == 13 || code == 14,
    ensures
        spec_nef_decoding(hints, tiff_little_endian, spec_nef_compression(code), width, height, bps, compression, size)
            == Err::<NefDecoding, NefLayoutError>(
            NefLayoutError::UnsupportedNefCompression(
                if code == 13 { NefCompression::HighEfficency } else { NefCompression::HighEfficencyStar },
            ),
        ),
{
}

/// The decoder chosen for uncompressed data reads the stated bit depth:
/// 14-bit decoders for 14 bits and 12-bit ones for 12, little-endian ones
/// only for little-endian data, and a packed 14-bit layout only for the
/// packed 14-bit compression; other depths are refused.
pub proof fn lemma_nef_uncompressed_decoders(
    hints: NefHints,
    tiff_little_endian: bool,
    nc: Option<NefCompression>,
    width: int,
    height: int,
    bps: int,
    compression: int,
    size: int,
)
    requires
        nc != Some(NefCompression::HighEfficency),
        nc != Some(NefCompression::HighEfficencyStar),
        !hints.d100 && !hints.coolpixsplit && !hints.msb32 && !hints.unpacked,
        spec_is_uncompressed(width, height, bps, compression, size) is Some,
    ensures
        ({
            let r = spec_nef_decoding(hints, tiff_little_endian, nc, width, height, bps, compression, size);
            let le = (tiff_little_endian || hints.little_endian) && !hints.big_endian;
            let pad = spec_is_uncompressed(width, height, bps, compression, size)->0;
            &&& bps == 14 && le && nc == Some(NefCompression::Packed14Bits) ==> r == Ok::<
                NefDecoding,
                NefLayoutError,
            >(NefDecoding::Le14Padded { stride: (width * 14 / 8 + pad) as usize })
            &&& bps == 14 && le && nc != Some(NefCompression::Packed14Bits) ==> r == Ok::<
                NefDecoding,
                NefLayoutError,
            >(NefDecoding::Le14Unpacked)
            &&& bps == 14 && !le ==> r == Ok::<NefDecoding, NefLayoutError>(NefDecoding::Be14Unpacked)
            &&& bps == 12 && le ==> r == Ok::<NefDecoding, NefLayoutError>(
                NefDecoding::Le12Padded { stride: (width * 12 / 8 + pad) as usize },
            )
            &&& bps == 12 && !le ==> r == Ok::<NefDecoding, NefLayoutError>(NefDecoding::Be12)
            &&& bps != 12 && bps != 14 ==> r == Err::<NefDecoding, NefLayoutError>(
                NefLayoutError::UnsupportedBps(bps as usize),
            )
        }),
{
}

/// Data that is exactly as long as its samples need is uncompressed, with
/// no row padding; so is data that the TIFF tags call uncompressed.
pub proof fn lemma_exact_size_is_uncompressed(width: int, height: int, bps: int, compression: int, size: int)
    requires
        compression == 1 || size == width * height * bps / 8,
    ensures
        spec_is_uncompressed(width, height, bps, compression, size) == Some(0int),
{
}

} // verus!
