//! Panasonic RW2: metadata tags and the decompressors' building blocks.

pub mod v4decompressor;
pub mod v6decompressor;
pub mod v8decompressor;

use vstd::prelude::*;

verus! {

/// Tags of the Panasonic RW2 IFD.
#[derive(Debug, Copy, Clone, PartialEq, Eq, Structural)]
#[allow(non_camel_case_types)]
pub enum PanasonicTag {
    PanaWidth,
    PanaLength,
    SensorTopBorder,
    SensorLeftBorder,
    SensorBottomBorder,
    SensorRightBorder,
    SamplesPerPixel,
    CFAPattern,
    BitsPerSample,
    Compression,
    PanaWBsR,
    PanaWBsB,
    ISO,
    BlackLevelRed,
    BlackLevelGreen,
    BlackLevelBlue,
    PanaWBs2R,
    PanaWBs2G,
    PanaWBs2B,
    RawFormat,
    JpegData,
    CropTop,
    CropLeft,
    CropBottom,
    CropRight,
    CF2StripHeight,
    CF2Unknown1,
    CF2Unknown2,
    CF2ClipVal,
    CF2HufInitVal0,
    CF2HufInitVal1,
    CF2HufInitVal2,
    CF2HufInitVal3,
    CF2HufTable,
    CF2HufShiftDown,
    CF2NumberOfStripsH,
    CF2NumberOfStripsV,
    CF2StripByteOffsets,
    CF2StripLineOffsets,
    CF2StripDataSize,
    CF2StripWidths,
    CF2StripHeights,
    CF2StripWidth,
    CameraIFD,
    Multishot,
}

impl PanasonicTag {
    /// The tag's number.
    pub open spec fn tag_number(self) -> u16 {
        match self {
            PanasonicTag::PanaWidth => 0x0002u16,
            PanasonicTag::PanaLength => 0x0003u16,
            PanasonicTag::SensorTopBorder => 0x0004u16,
            PanasonicTag::SensorLeftBorder => 0x0005u16,
            PanasonicTag::SensorBottomBorder => 0x0006u16,
            PanasonicTag::SensorRightBorder => 0x0007u16,
            PanasonicTag::SamplesPerPixel => 0x0008u16,
            PanasonicTag::CFAPattern => 0x0009u16,
            PanasonicTag::BitsPerSample => 0x000au16,
            PanasonicTag::Compression => 0x000bu16,
            PanasonicTag::PanaWBsR => 0x0011u16,
            PanasonicTag::PanaWBsB => 0x0012u16,
            PanasonicTag::ISO => 0x0017u16,
            PanasonicTag::BlackLevelRed => 0x001cu16,
            PanasonicTag::BlackLevelGreen => 0x001du16,
            PanasonicTag::BlackLevelBlue => 0x001eu16,
            PanasonicTag::PanaWBs2R => 0x0024u16,
            PanasonicTag::PanaWBs2G => 0x0025u16,
            PanasonicTag::PanaWBs2B => 0x0026u16,
            PanasonicTag::RawFormat => 0x002du16,
            PanasonicTag::JpegData => 0x002eu16,
            PanasonicTag::CropTop => 0x002fu16,
            PanasonicTag::CropLeft => 0x0030u16,
            PanasonicTag::CropBottom => 0x0031u16,
            PanasonicTag::CropRight => 0x0032u16,
            PanasonicTag::CF2StripHeight => 0x0037u16,
            PanasonicTag::CF2Unknown1 => 0x0039u16,
            PanasonicTag::CF2Unknown2 => 0x003au16,
            PanasonicTag::CF2ClipVal => 0x003bu16,
            PanasonicTag::CF2HufInitVal0 => 0x003cu16,
            PanasonicTag::CF2HufInitVal1 => 0x003du16,
            PanasonicTag::CF2HufInitVal2 => 0x003eu16,
            PanasonicTag::CF2HufInitVal3 => 0x003fu16,
            PanasonicTag::CF2HufTable => 0x0040u16,
            PanasonicTag::CF2HufShiftDown => 0x0041u16,
            PanasonicTag::CF2NumberOfStripsH => 0x0042u16,
            PanasonicTag::CF2NumberOfStripsV => 0x0043u16,
            PanasonicTag::CF2StripByteOffsets => 0x0044u16,
            PanasonicTag::CF2StripLineOffsets => 0x0045u16,
            PanasonicTag::CF2StripDataSize => 0x0046u16,
            PanasonicTag::CF2StripWidths => 0x0047u16,
            PanasonicTag::CF2StripHeights => 0x0048u16,
            PanasonicTag::CF2StripWidth => 0x0064u16,
            PanasonicTag::CameraIFD => 0x0120u16,
            PanasonicTag::Multishot => 0x0121u16,
        }
    }

    /// The tag with number `value`, if there is one.
    pub open spec fn tag_of(value: u16) -> Option<PanasonicTag> {
        if value == 0x0002 {
            Some(PanasonicTag::PanaWidth)
        } else if value == 0x0003 {
            Some(PanasonicTag::PanaLength)
        } else if value == 0x0004 {
            Some(PanasonicTag::SensorTopBorder)
        } else if value == 0x0005 {
            Some(PanasonicTag::SensorLeftBorder)
        } else if value == 0x0006 {
            Some(PanasonicTag::SensorBottomBorder)
        } else if value == 0x0007 {
            Some(PanasonicTag::SensorRightBorder)
        } else if value == 0x0008 {
            Some(PanasonicTag::SamplesPerPixel)
        } else if value == 0x0009 {
            Some(PanasonicTag::CFAPattern)
        } else if value == 0x000a {
            Some(PanasonicTag::BitsPerSample)
        } else if value == 0x000b {
            Some(PanasonicTag::Compression)
        } else if value == 0x0011 {
            Some(PanasonicTag::PanaWBsR)
        } else if value == 0x0012 {
            Some(PanasonicTag::PanaWBsB)
        } else if value == 0x0017 {
            Some(PanasonicTag::ISO)
        } else if value == 0x001c {
            Some(PanasonicTag::BlackLevelRed)
        } else if value == 0x001d {
            Some(PanasonicTag::BlackLevelGreen)
        } else if value == 0x001e {
            Some(PanasonicTag::BlackLevelBlue)
        } else if value == 0x0024 {
            Some(PanasonicTag::PanaWBs2R)
        } else if value == 0x0025 {
            Some(PanasonicTag::PanaWBs2G)
        } else if value == 0x0026 {
            Some(PanasonicTag::PanaWBs2B)
        } else if value == 0x002d {
            Some(PanasonicTag::RawFormat)
        } else if value == 0x002e {
            Some(PanasonicTag::JpegData)
        } else if value == 0x002f {
            Some(PanasonicTag::CropTop)
        } else if value == 0x0030 {
            Some(PanasonicTag::CropLeft)
        } else if value == 0x0031 {
            Some(PanasonicTag::CropBottom)
        } else if value == 0x0032 {
            Some(PanasonicTag::CropRight)
        } else if value == 0x0037 {
            Some(PanasonicTag::CF2StripHeight)
        } else if value == 0x0039 {
            Some(PanasonicTag::CF2Unknown1)
        } else if value == 0x003a {
            Some(PanasonicTag::CF2Unknown2)
        } else if value == 0x003b {
            Some(PanasonicTag::CF2ClipVal)
        } else if value == 0x003c {
            Some(PanasonicTag::CF2HufInitVal0)
        } else if value == 0x003d {
            Some(PanasonicTag::CF2HufInitVal1)
        } else if value == 0x003e {
            Some(PanasonicTag::CF2HufInitVal2)
        } else if value == 0x003f {
            Some(PanasonicTag::CF2HufInitVal3)
        } else if value == 0x0040 {
            Some(PanasonicTag::CF2HufTable)
        } else if value == 0x0041 {
            Some(PanasonicTag::CF2HufShiftDown)
        } else if value == 0x0042 {
            Some(PanasonicTag::CF2NumberOfStripsH)
        } else if value == 0x0043 {
            Some(PanasonicTag::CF2NumberOfStripsV)
        } else if value == 0x0044 {
            Some(PanasonicTag::CF2StripByteOffsets)
        } else if value == 0x0045 {
            Some(PanasonicTag::CF2StripLineOffsets)
        } else if value == 0x0046 {
            Some(PanasonicTag::CF2StripDataSize)
        } else if value == 0x0047 {
            Some(PanasonicTag::CF2StripWidths)
        } else if value == 0x0048 {
            Some(PanasonicTag::CF2StripHeights)
        } else if value == 0x0064 {
            Some(PanasonicTag::CF2StripWidth)
        } else if value == 0x0120 {
            Some(PanasonicTag::CameraIFD)
        } else if value == 0x0121 {
            Some(PanasonicTag::Multishot)
        } else {
            None
        }
    }

    /// The tag's number.
    pub fn value(self) -> (r: u16)
        ensures
            r == self.tag_number(),
    {
        match self {
            PanasonicTag::PanaWidth => 0x0002,
            PanasonicTag::PanaLength => 0x0003,
            PanasonicTag::SensorTopBorder => 0x0004,
            PanasonicTag::SensorLeftBorder => 0x0005,
            PanasonicTag::SensorBottomBorder => 0x0006,
            PanasonicTag::SensorRightBorder => 0x0007,
            PanasonicTag::SamplesPerPixel => 0x0008,
            PanasonicTag::CFAPattern => 0x0009,
            PanasonicTag::BitsPerSample => 0x000a,
            PanasonicTag::Compression => 0x000b,
            PanasonicTag::PanaWBsR => 0x0011,
            PanasonicTag::PanaWBsB => 0x0012,
            PanasonicTag::ISO => 0x0017,
            PanasonicTag::BlackLevelRed => 0x001c,
            PanasonicTag::BlackLevelGreen => 0x001d,
            PanasonicTag::BlackLevelBlue => 0x001e,
            PanasonicTag::PanaWBs2R => 0x0024,
            PanasonicTag::PanaWBs2G => 0x0025,
            PanasonicTag::PanaWBs2B => 0x0026,
            PanasonicTag::RawFormat => 0x002d,
            PanasonicTag::JpegData => 0x002e,
            PanasonicTag::CropTop => 0x002f,
            PanasonicTag::CropLeft => 0x0030,
            PanasonicTag::CropBottom => 0x0031,
            PanasonicTag::CropRight => 0x0032,
            PanasonicTag::CF2StripHeight => 0x0037,
            PanasonicTag::CF2Unknown1 => 0x0039,
            PanasonicTag::CF2Unknown2 => 0x003a,
            PanasonicTag::CF2ClipVal => 0x003b,
            PanasonicTag::CF2HufInitVal0 => 0x003c,
            PanasonicTag::CF2HufInitVal1 => 0x003d,
            PanasonicTag::CF2HufInitVal2 => 0x003e,
            PanasonicTag::CF2HufInitVal3 => 0x003f,
            PanasonicTag::CF2HufTable => 0x0040,
            PanasonicTag::CF2HufShiftDown => 0x0041,
            PanasonicTag::CF2NumberOfStripsH => 0x0042,
            PanasonicTag::CF2NumberOfStripsV => 0x0043,
            PanasonicTag::CF2StripByteOffsets => 0x0044,
            PanasonicTag::CF2StripLineOffsets => 0x0045,
            PanasonicTag::CF2StripDataSize => 0x0046,
            PanasonicTag::CF2StripWidths => 0x0047,
            PanasonicTag::CF2StripHeights => 0x0048,
            PanasonicTag::CF2StripWidth => 0x0064,
            PanasonicTag::CameraIFD => 0x0120,
            PanasonicTag::Multishot => 0x0121,
        }
    }

    /// The tag with number `value`, if there is one.
    pub fn n(value: u16) -> (r: Option<PanasonicTag>)
        ensures
            r == Self::tag_of(value),
    {
        match value {
            0x0002 => Some(PanasonicTag::PanaWidth),
            0x0003 => Some(PanasonicTag::PanaLength),
            0x0004 => Some(PanasonicTag::SensorTopBorder),
            0x0005 => Some(PanasonicTag::SensorLeftBorder),
            0x0006 => Some(PanasonicTag::SensorBottomBorder),
            0x0007 => Some(PanasonicTag::SensorRightBorder),
            0x0008 => Some(PanasonicTag::SamplesPerPixel),
            0x0009 => Some(PanasonicTag::CFAPattern),
            0x000a => Some(PanasonicTag::BitsPerSample),
            0x000b => Some(PanasonicTag::Compression),
            0x0011 => Some(PanasonicTag::PanaWBsR),
            0x0012 => Some(PanasonicTag::PanaWBsB),
            0x0017 => Some(PanasonicTag::ISO),
            0x001c => Some(PanasonicTag::BlackLevelRed),
            0x001d => Some(PanasonicTag::BlackLevelGreen),
            0x001e => Some(PanasonicTag::BlackLevelBlue),
            0x0024 => Some(PanasonicTag::PanaWBs2R),
            0x0025 => Some(PanasonicTag::PanaWBs2G),
            0x0026 => Some(PanasonicTag::PanaWBs2B),
            0x002d => Some(PanasonicTag::RawFormat),
            0x002e => Some(PanasonicTag::JpegData),
            0x002f => Some(PanasonicTag::CropTop),
            0x0030 => Some(PanasonicTag::CropLeft),
            0x0031 => Some(PanasonicTag::CropBottom),
            0x0032 => Some(PanasonicTag::CropRight),
            0x0037 => Some(PanasonicTag::CF2StripHeight),
            0x0039 => Some(PanasonicTag::CF2Unknown1),
            0x003a => Some(PanasonicTag::CF2Unknown2),
            0x003b => Some(PanasonicTag::CF2ClipVal),
            0x003c => Some(PanasonicTag::CF2HufInitVal0),
            0x003d => Some(PanasonicTag::CF2HufInitVal1),
            0x003e => Some(PanasonicTag::CF2HufInitVal2),
            0x003f => Some(PanasonicTag::CF2HufInitVal3),
            0x0040 => Some(PanasonicTag::CF2HufTable),
            0x0041 => Some(PanasonicTag::CF2HufShiftDown),
            0x0042 => Some(PanasonicTag::CF2NumberOfStripsH),
            0x0043 => Some(PanasonicTag::CF2NumberOfStripsV),
            0x0044 => Some(PanasonicTag::CF2StripByteOffsets),
            0x0045 => Some(PanasonicTag::CF2StripLineOffsets),
            0x0046 => Some(PanasonicTag::CF2StripDataSize),
            0x0047 => Some(PanasonicTag::CF2StripWidths),
            0x0048 => Some(PanasonicTag::CF2StripHeights),
            0x0064 => Some(PanasonicTag::CF2StripWidth),
            0x0120 => Some(PanasonicTag::CameraIFD),
            0x0121 => Some(PanasonicTag::Multishot),
            _ => None,
        }
    }

    /// A tag is found again from its number, and a number names only
    /// the tag that has it.
    pub proof fn lemma_tag_roundtrip(self, value: u16)
        ensures
            Self::tag_of(self.tag_number()) == Some(self),
            Self::tag_of(value) matches Some(t) ==> t.tag_number() == value,
    {
    }
}

impl From<PanasonicTag> for u16 {
    fn from(tag: PanasonicTag) -> (r: u16) {
        tag.value()
    }
}

impl vstd::std_specs::convert::FromSpecImpl<PanasonicTag> for u16 {
    open spec fn obeys_from_spec() -> bool {
        true
    }

    open spec fn from_spec(tag: PanasonicTag) -> u16 {
        tag.tag_number()
    }
}

/// Tags of the Panasonic camera IFD.
#[derive(Debug, Copy, Clone, PartialEq, Eq, Structural)]
#[allow(non_camel_case_types)]
pub enum CameraIfdTag {
    LensTypeMake,
    LensTypeModel,
}

impl CameraIfdTag {
    /// The tag's number.
    pub open spec fn tag_number(self) -> u16 {
        match self {
            CameraIfdTag::LensTypeMake => 0x1201u16,
            CameraIfdTag::LensTypeModel => 0x1202u16,
        }
    }

    /// The tag with number `value`, if there is one.
    pub open spec fn tag_of(value: u16) -> Option<CameraIfdTag> {
        if value == 0x1201 {
            Some(CameraIfdTag::LensTypeMake)
        } else if value == 0x1202 {
            Some(CameraIfdTag::LensTypeModel)
        } else {
            None
        }
    }

    /// The tag's number.
    pub fn value(self) -> (r: u16)
        ensures
            r == self.tag_number(),
    {
        match self {
            CameraIfdTag::LensTypeMake => 0x1201,
            CameraIfdTag::LensTypeModel => 0x1202,
        }
    }

    /// The tag with number `value`, if there is one.
    pub fn n(value: u16) -> (r: Option<CameraIfdTag>)
        ensures
            r == Self::tag_of(value),
    {
        match value {
            0x1201 => Some(CameraIfdTag::LensTypeMake),
            0x1202 => Some(CameraIfdTag::LensTypeModel),
            _ => None,
        }
    }

    /// A tag is found again from its number, and a number names only
    /// the tag that has it.
    pub proof fn lemma_tag_roundtrip(self, value: u16)
        ensures
            Self::tag_of(self.tag_number()) == Some(self),
            Self::tag_of(value) matches Some(t) ==> t.tag_number() == value,
    {
    }
}

impl From<CameraIfdTag> for u16 {
    fn from(tag: CameraIfdTag) -> (r: u16) {
        tag.value()
    }
}

impl vstd::std_specs::convert::FromSpecImpl<CameraIfdTag> for u16 {
    open spec fn obeys_from_spec() -> bool {
        true
    }

    open spec fn from_spec(tag: CameraIfdTag) -> u16 {
        tag.tag_number()
    }
}


} // verus!
