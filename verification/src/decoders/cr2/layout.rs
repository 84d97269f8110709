//! How the raw data of a CR2 file is laid out: where it starts, how many
//! samples each pixel has, the image size and what has to be done to the
//! decoder output.

use vstd::prelude::*;
use super::stripes::{cr2_dimension, spec_cr2_dimension};

verus! {

/// What the TIFF structure and the lossless JPEG header of a CR2 file say.
#[derive(Debug, Clone, Copy)]
pub struct Cr2Facts {
    /// The strip offset of the IFD with the CR2 id tag, if there is one.
    pub cr2id_offset: Option<usize>,
    /// The strip offset of the IFD with a CFA pattern, if there is one.
    pub cfa_offset: Option<usize>,
    /// The raw offset in the makernote of old Canon TIFF files.
    pub old_offset: Option<usize>,
    pub ljpeg_width: usize,
    pub ljpeg_height: usize,
    /// The horizontal and vertical chroma subsampling of the JPEG frame.
    pub super_h: usize,
    pub super_v: usize,
    /// The camera's `linearization` hint.
    pub linearization: bool,
    /// The image size the raw IFD states, if it does.
    pub stated_size: Option<(usize, usize)>,
    /// The camera's `double_line` hint.
    pub double_line: bool,
    /// The stripe widths the raw IFD states, if it does.
    pub stripes: Option<(usize, usize, usize)>,
}

/// The layout of the raw data.
#[derive(Debug, Clone, Copy, PartialEq, Eq)]
pub struct Cr2Layout {
    pub offset: usize,
    /// Samples per pixel: 3 for sRAW/mRAW (YCbCr), else 1.
    pub cpp: usize,
    /// The image size in samples.
    pub width: usize,
    pub height: usize,
    /// Map the samples through the linearization curve.
    pub linearize: bool,
    /// The stripes to put side by side, where there are any.
    pub stripes: Option<(usize, usize, usize)>,
    /// Convert YCbCr to RGB (and use the crop area as active area).
    pub yuv: bool,
}

/// No raw data is found.
#[derive(Debug, Clone, Copy, PartialEq, Eq)]
pub enum Cr2Error {
    NoRawInfo,
}

/// The layout the facts give: the raw data is found in the first of the CR2
/// id IFD, the CFA IFD and the old makernote offset; subsampled chroma means
/// three samples per pixel; stripes with `n == 0` are none.
pub open spec fn spec_cr2_layout(f: Cr2Facts) -> Result<Cr2Layout, Cr2Error> {
    let offset = if f.cr2id_offset is Some {
        f.cr2id_offset
    } else if f.cfa_offset is Some {
        f.cfa_offset
    } else {
        f.old_offset
    };
    match offset {
        None => Err(Cr2Error::NoRawInfo),
        Some(o) => {
            let cpp: usize = if f.super_h == 2 { 3 } else { 1 };
            let (w, h) = spec_cr2_dimension(
                f.ljpeg_width as int,
                f.ljpeg_height as int,
                cpp as int,
                f.stated_size,
                f.double_line,
            );
            Ok(
                Cr2Layout {
                    offset: o,
                    cpp,
                    width: w as usize,
                    height: h as usize,
                    linearize: f.linearization,
                    stripes: match f.stripes {
                        Some(s) => if s.0 > 0 { Some(s) } else { None },
                        None => None,
                    },
                    yuv: cpp == 3,
                },
            )
        },
    }
}

/// The layout of a CR2 file's raw data (see `spec_cr2_layout`).
pub fn cr2_raw_layout(f: &Cr2Facts) -> (r: Result<Cr2Layout, Cr2Error>)
    requires
        f.ljpeg_height * 3 <= usize::MAX,
        f.stated_size matches Some((w, _)) ==> w * 3 <= usize::MAX,
    ensures
        r == spec_cr2_layout(*f),
{
    let offset = if f.cr2id_offset.is_some() {
        f.cr2id_offset
    } else if f.cfa_offset.is_some() {
        f.cfa_offset
    } else {
        f.old_offset
    };
    match offset {
        None => Err(Cr2Error::NoRawInfo),
        Some(o) => {
            let cpp: usize = if f.super_h == 2 { 3 } else { 1 };
            let (w, h) = cr2_dimension(f.ljpeg_width, f.ljpeg_height, cpp, f.stated_size, f.double_line);
            let stripes = match f.stripes {
                Some(s) => if s.0 > 0 { Some(s) } else { None },
                None => None,
            };
            Ok(Cr2Layout { offset: o, cpp, width: w, height: h, linearize: f.linearization, stripes, yuv: cpp == 3 })
        },
    }
}

/// Where the raw data is: the CR2 id IFD comes first, then the CFA IFD,
/// then the old makernote offset. Subsampled chroma (`super_h == 2`) means
/// three samples per pixel and YCbCr data; stripes of none are dropped.
pub proof fn lemma_cr2_layout_choices(f: Cr2Facts)
    ensures
        f.cr2id_offset is Some ==> (spec_cr2_layout(f) matches Ok(l) && l.offset == f.cr2id_offset->0),
        (f.cr2id_offset is None && f.cfa_offset is Some) ==> (spec_cr2_layout(f) matches Ok(l) && l.offset
            == f.cfa_offset->0),
        (f.cr2id_offset is None && f.cfa_offset is None && f.old_offset is Some) ==> (spec_cr2_layout(f) matches Ok(
            l,
        ) && l.offset == f.old_offset->0),
        f.cr2id_offset is None && f.cfa_offset is None && f.old_offset is None ==> spec_cr2_layout(f) == Err::<
            Cr2Layout,
            Cr2Error,
        >(Cr2Error::NoRawInfo),
        spec_cr2_layout(f) matches Ok(l) ==> {
            &&& (l.cpp == 3) == (f.super_h == 2)
            &&& (l.cpp == 1) == (f.super_h != 2)
            &&& l.yuv == (f.super_h == 2)
            &&& l.linearize == f.linearization
            &&& (l.stripes is Some ==> (l.stripes->0).0 > 0 && f.stripes == l.stripes)
            &&& ((f.stripes is Some && (f.stripes->0).0 > 0) ==> l.stripes == f.stripes)
            &&& (f.super_h != 2 && !f.double_line ==> l.width == f.ljpeg_width && l.height == f.ljpeg_height)
            &&& (f.super_h != 2 && f.double_line && f.ljpeg_height * 2 <= usize::MAX ==> l.width == f.ljpeg_width
                / 2 && l.height == f.ljpeg_height * 2)
        },
{
}

} // verus!
