//! Nikon NEF metadata.

pub mod layout;
pub mod lensdata;
pub mod meta;
pub mod wb;

use vstd::prelude::*;

verus! {

/// Tags of the Nikon makernote.
#[derive(Debug, Copy, Clone, PartialEq, Eq, Structural)]
#[allow(non_camel_case_types)]
pub enum NikonMakernote {
    MakernoteVersion,
    NefWB0,
    PreviewIFD,
    NrwWB,
    NefSerial,
    ImageSizeRaw,
    CropArea,
    BlackLevel,
    Makernotes0x51,
    LensType,
    NefMeta1,
    NefMeta2,
    ShotInfo,
    NefCompression,
    NefWB1,
    LensData,
    NefKey,
}

impl NikonMakernote {
    /// The tag's number.
    pub open spec fn tag_number(self) -> u16 {
        match self {
            NikonMakernote::MakernoteVersion => 0x0001u16,
            NikonMakernote::NefWB0 => 0x000cu16,
            NikonMakernote::PreviewIFD => 0x0011u16,
            NikonMakernote::NrwWB => 0x0014u16,
            NikonMakernote::NefSerial => 0x001du16,
            NikonMakernote::ImageSizeRaw => 0x003eu16,
            NikonMakernote::CropArea => 0x0045u16,
            NikonMakernote::BlackLevel => 0x003du16,
            NikonMakernote::Makernotes0x51 => 0x0051u16,
            NikonMakernote::LensType => 0x0083u16,
            NikonMakernote::NefMeta1 => 0x008cu16,
            NikonMakernote::NefMeta2 => 0x0096u16,
            NikonMakernote::ShotInfo => 0x0091u16,
            NikonMakernote::NefCompression => 0x0093u16,
            NikonMakernote::NefWB1 => 0x0097u16,
            NikonMakernote::LensData => 0x0098u16,
            NikonMakernote::NefKey => 0x00a7u16,
        }
    }

    /// The tag with number `value`, if there is one.
    pub open spec fn tag_of(value: u16) -> Option<NikonMakernote> {
        if value == 0x0001 {
            Some(NikonMakernote::MakernoteVersion)
        } else if value == 0x000c {
            Some(NikonMakernote::NefWB0)
        } else if value == 0x0011 {
            Some(NikonMakernote::PreviewIFD)
        } else if value == 0x0014 {
            Some(NikonMakernote::NrwWB)
        } else if value == 0x001d {
            Some(NikonMakernote::NefSerial)
        } else if value == 0x003e {
            Some(NikonMakernote::ImageSizeRaw)
        } else if value == 0x0045 {
            Some(NikonMakernote::CropArea)
        } else if value == 0x003d {
            Some(NikonMakernote::BlackLevel)
        } else if value == 0x0051 {
            Some(NikonMakernote::Makernotes0x51)
        } else if value == 0x0083 {
            Some(NikonMakernote::LensType)
        } else if value == 0x008c {
            Some(NikonMakernote::NefMeta1)
        } else if value == 0x0096 {
            Some(NikonMakernote::NefMeta2)
        } else if value == 0x0091 {
            Some(NikonMakernote::ShotInfo)
        } else if value == 0x0093 {
            Some(NikonMakernote::NefCompression)
        } else if value == 0x0097 {
            Some(NikonMakernote::NefWB1)
        } else if value == 0x0098 {
            Some(NikonMakernote::LensData)
        } else if value == 0x00a7 {
            Some(NikonMakernote::NefKey)
        } else {
            None
        }
    }

    /// The tag's number.
    pub fn value(self) -> (r: u16)
        ensures
            r == self.tag_number(),
    {
        match self {
            NikonMakernote::MakernoteVersion => 0x0001,
            NikonMakernote::NefWB0 => 0x000c,
            NikonMakernote::PreviewIFD => 0x0011,
            NikonMakernote::NrwWB => 0x0014,
            NikonMakernote::NefSerial => 0x001d,
            NikonMakernote::ImageSizeRaw => 0x003e,
            NikonMakernote::CropArea => 0x0045,
            NikonMakernote::BlackLevel => 0x003d,
            NikonMakernote::Makernotes0x51 => 0x0051,
            NikonMakernote::LensType => 0x0083,
            NikonMakernote::NefMeta1 => 0x008c,
            NikonMakernote::NefMeta2 => 0x0096,
            NikonMakernote::ShotInfo => 0x0091,
            NikonMakernote::NefCompression => 0x0093,
            NikonMakernote::NefWB1 => 0x0097,
            NikonMakernote::LensData => 0x0098,
            NikonMakernote::NefKey => 0x00a7,
        }
    }

    /// The tag with number `value`, if there is one.
    pub fn n(value: u16) -> (r: Option<NikonMakernote>)
        ensures
            r == Self::tag_of(value),
    {
        match value {
            0x0001 => Some(NikonMakernote::MakernoteVersion),
            0x000c => Some(NikonMakernote::NefWB0),
            0x0011 => Some(NikonMakernote::PreviewIFD),
            0x0014 => Some(NikonMakernote::NrwWB),
            0x001d => Some(NikonMakernote::NefSerial),
            0x003e => Some(NikonMakernote::ImageSizeRaw),
            0x0045 => Some(NikonMakernote::CropArea),
            0x003d => Some(NikonMakernote::BlackLevel),
            0x0051 => Some(NikonMakernote::Makernotes0x51),
            0x0083 => Some(NikonMakernote::LensType),
            0x008c => Some(NikonMakernote::NefMeta1),
            0x0096 => Some(NikonMakernote::NefMeta2),
            0x0091 => Some(NikonMakernote::ShotInfo),
            0x0093 => Some(NikonMakernote::NefCompression),
            0x0097 => Some(NikonMakernote::NefWB1),
            0x0098 => Some(NikonMakernote::LensData),
            0x00a7 => Some(NikonMakernote::NefKey),
            _ => None,
        }
    }

    /// A tag is found again from its number, and a number names only
    /// the tag that has it.
    pub proof fn lemma_tag_roundtrip(self, value: u16)
        ensures
            Self::tag_of(self.tag_number()) == Some(self),
            Self::tag_of(value) matches Some(t) ==> t.tag_number() == value,
    {
    }
}

impl From<NikonMakernote> for u16 {
    fn from(tag: NikonMakernote) -> (r: u16) {
        tag.value()
    }
}

impl vstd::std_specs::convert::FromSpecImpl<NikonMakernote> for u16 {
    open spec fn obeys_from_spec() -> bool {
        true
    }

    open spec fn from_spec(tag: NikonMakernote) -> u16 {
        tag.tag_number()
    }
}


} // verus!
