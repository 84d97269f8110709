//! Olympus ORF metadata tags.

use vstd::prelude::*;

verus! {

/// Tags of the Olympus makernote.
#[derive(Debug, Copy, Clone, PartialEq, Eq, Structural)]
#[allow(non_camel_case_types)]
pub enum OrfMakernotes {
    ImageProcessingIFD,
    RawInfo,
    OlympusRedMul,
    OlympusBlueMul,
    EquipmentIFD,
}

impl OrfMakernotes {
    /// The tag's number.
    pub open spec fn tag_number(self) -> u16 {
        match self {
            OrfMakernotes::ImageProcessingIFD => 0x2040u16,
            OrfMakernotes::RawInfo => 0x3000u16,
            OrfMakernotes::OlympusRedMul => 0x1017u16,
            OrfMakernotes::OlympusBlueMul => 0x1018u16,
            OrfMakernotes::EquipmentIFD => 0x2010u16,
        }
    }

    /// The tag with number `value`, if there is one.
    pub open spec fn tag_of(value: u16) -> Option<OrfMakernotes> {
        if value == 0x2040 {
            Some(OrfMakernotes::ImageProcessingIFD)
        } else if value == 0x3000 {
            Some(OrfMakernotes::RawInfo)
        } else if value == 0x1017 {
            Some(OrfMakernotes::OlympusRedMul)
        } else if value == 0x1018 {
            Some(OrfMakernotes::OlympusBlueMul)
        } else if value == 0x2010 {
            Some(OrfMakernotes::EquipmentIFD)
        } else {
            None
        }
    }

    /// The tag's number.
    pub fn value(self) -> (r: u16)
        ensures
            r == self.tag_number(),
    {
        match self {
            OrfMakernotes::ImageProcessingIFD => 0x2040,
            OrfMakernotes::RawInfo => 0x3000,
            OrfMakernotes::OlympusRedMul => 0x1017,
            OrfMakernotes::OlympusBlueMul => 0x1018,
            OrfMakernotes::EquipmentIFD => 0x2010,
        }
    }

    /// The tag with number `value`, if there is one.
    pub fn n(value: u16) -> (r: Option<OrfMakernotes>)
        ensures
            r == Self::tag_of(value),
    {
        match value {
            0x2040 => Some(OrfMakernotes::ImageProcessingIFD),
            0x3000 => Some(OrfMakernotes::RawInfo),
            0x1017 => Some(OrfMakernotes::OlympusRedMul),
            0x1018 => Some(OrfMakernotes::OlympusBlueMul),
            0x2010 => Some(OrfMakernotes::EquipmentIFD),
            _ => None,
        }
    }

    /// A tag is found again from its number, and a number names only
    /// the tag that has it.
    pub proof fn lemma_tag_roundtrip(self, value: u16)
        ensures
            Self::tag_of(self.tag_number()) == Some(self),
            Self::tag_of(value) matches Some(t) ==> t.tag_number() == value,
    {
    }
}

impl From<OrfMakernotes> for u16 {
    fn from(tag: OrfMakernotes) -> (r: u16) {
        tag.value()
    }
}

impl vstd::std_specs::convert::FromSpecImpl<OrfMakernotes> for u16 {
    open spec fn obeys_from_spec() -> bool {
        true
    }

    open spec fn from_spec(tag: OrfMakernotes) -> u16 {
        tag.tag_number()
    }
}

/// Tags of the Olympus image processing IFD.
#[derive(Debug, Copy, Clone, PartialEq, Eq, Structural)]
#[allow(non_camel_case_types)]
pub enum OrfImageProcessing {
    ImageProcessingVersion,
    WB_RBLevels,
    OrfBlackLevels,
    CropLeft,
    CropTop,
    CropWidth,
    CropHeight,
}

impl OrfImageProcessing {
    /// The tag's number.
    pub open spec fn tag_number(self) -> u16 {
        match self {
            OrfImageProcessing::ImageProcessingVersion => 0x0000u16,
            OrfImageProcessing::WB_RBLevels => 0x0100u16,
            OrfImageProcessing::OrfBlackLevels => 0x0600u16,
            OrfImageProcessing::CropLeft => 0x0612u16,
            OrfImageProcessing::CropTop => 0x0613u16,
            OrfImageProcessing::CropWidth => 0x0614u16,
            OrfImageProcessing::CropHeight => 0x0615u16,
        }
    }

    /// The tag with number `value`, if there is one.
    pub open spec fn tag_of(value: u16) -> Option<OrfImageProcessing> {
        if value == 0x0000 {
            Some(OrfImageProcessing::ImageProcessingVersion)
        } else if value == 0x0100 {
            Some(OrfImageProcessing::WB_RBLevels)
        } else if value == 0x0600 {
            Some(OrfImageProcessing::OrfBlackLevels)
        } else if value == 0x0612 {
            Some(OrfImageProcessing::CropLeft)
        } else if value == 0x0613 {
            Some(OrfImageProcessing::CropTop)
        } else if value == 0x0614 {
            Some(OrfImageProcessing::CropWidth)
        } else if value == 0x0615 {
            Some(OrfImageProcessing::CropHeight)
        } else {
            None
        }
    }

    /// The tag's number.
    pub fn value(self) -> (r: u16)
        ensures
            r == self.tag_number(),
    {
        match self {
            OrfImageProcessing::ImageProcessingVersion => 0x0000,
            OrfImageProcessing::WB_RBLevels => 0x0100,
            OrfImageProcessing::OrfBlackLevels => 0x0600,
            OrfImageProcessing::CropLeft => 0x0612,
            OrfImageProcessing::CropTop => 0x0613,
            OrfImageProcessing::CropWidth => 0x0614,
            OrfImageProcessing::CropHeight => 0x0615,
        }
    }

    /// The tag with number `value`, if there is one.
    pub fn n(value: u16) -> (r: Option<OrfImageProcessing>)
        ensures
            r == Self::tag_of(value),
    {
        match value {
            0x0000 => Some(OrfImageProcessing::ImageProcessingVersion),
            0x0100 => Some(OrfImageProcessing::WB_RBLevels),
            0x0600 => Some(OrfImageProcessing::OrfBlackLevels),
            0x0612 => Some(OrfImageProcessing::CropLeft),
            0x0613 => Some(OrfImageProcessing::CropTop),
            0x0614 => Some(OrfImageProcessing::CropWidth),
            0x0615 => Some(OrfImageProcessing::CropHeight),
            _ => None,
        }
    }

    /// A tag is found again from its number, and a number names only
    /// the tag that has it.
    pub proof fn lemma_tag_roundtrip(self, value: u16)
        ensures
            Self::tag_of(self.tag_number()) == Some(self),
            Self::tag_of(value) matches Some(t) ==> t.tag_number() == value,
    {
    }
}

impl From<OrfImageProcessing> for u16 {
    fn from(tag: OrfImageProcessing) -> (r: u16) {
        tag.value()
    }
}

impl vstd::std_specs::convert::FromSpecImpl<OrfImageProcessing> for u16 {
    open spec fn obeys_from_spec() -> bool {
        true
    }

    open spec fn from_spec(tag: OrfImageProcessing) -> u16 {
        tag.tag_number()
    }
}

/// Tags of the Olympus equipment IFD.
#[derive(Debug, Copy, Clone, PartialEq, Eq, Structural)]
#[allow(non_camel_case_types)]
pub enum OrfEquipmentTags {
    LensType,
}

impl OrfEquipmentTags {
    /// The tag's number.
    pub open spec fn tag_number(self) -> u16 {
        match self {
            OrfEquipmentTags::LensType => 0x0201u16,
        }
    }

    /// The tag with number `value`, if there is one.
    pub open spec fn tag_of(value: u16) -> Option<OrfEquipmentTags> {
        if value == 0x0201 {
            Some(OrfEquipmentTags::LensType)
        } else {
            None
        }
    }

    /// The tag's number.
    pub fn value(self) -> (r: u16)
        ensures
            r == self.tag_number(),
    {
        match self {
            OrfEquipmentTags::LensType => 0x0201,
        }
    }

    /// The tag with number `value`, if there is one.
    pub fn n(value: u16) -> (r: Option<OrfEquipmentTags>)
        ensures
            r == Self::tag_of(value),
    {
        match value {
            0x0201 => Some(OrfEquipmentTags::LensType),
            _ => None,
        }
    }

    /// A tag is found again from its number, and a number names only
    /// the tag that has it.
    pub proof fn lemma_tag_roundtrip(self, value: u16)
        ensures
            Self::tag_of(self.tag_number()) == Some(self),
            Self::tag_of(value) matches Some(t) ==> t.tag_number() == value,
    {
    }
}

impl From<OrfEquipmentTags> for u16 {
    fn from(tag: OrfEquipmentTags) -> (r: u16) {
        tag.value()
    }
}

impl vstd::std_specs::convert::FromSpecImpl<OrfEquipmentTags> for u16 {
    open spec fn obeys_from_spec() -> bool {
        true
    }

    open spec fn from_spec(tag: OrfEquipmentTags) -> u16 {
        tag.tag_number()
    }
}


/// Whether `data` starts with the bytes of `prefix`.
pub open spec fn starts_with(data: Seq<u8>, prefix: Seq<u8>) -> bool {
    data.len() >= prefix.len() && data.subrange(0, prefix.len() as int) == prefix
}

/// `OLYMP`
pub open spec fn olymp() -> Seq<u8> {
    seq![0x4fu8, 0x4cu8, 0x59u8, 0x4du8, 0x50u8]
}

/// `OLYMPUS`
pub open spec fn olympus() -> Seq<u8> {
    seq![0x4fu8, 0x4cu8, 0x59u8, 0x4du8, 0x50u8, 0x55u8, 0x53u8]
}

/// `OM SYSTEM`
pub open spec fn om_system() -> Seq<u8> {
    seq![0x4fu8, 0x4du8, 0x20u8, 0x53u8, 0x59u8, 0x53u8, 0x54u8, 0x45u8, 0x4du8]
}

/// A makernote whose header can be read: at least 9 bytes, and one that
/// starts with `OM SYSTEM` has the byte order mark `II` at offset 12.
pub open spec fn makernote_header_ok(data: Seq<u8>) -> bool {
    &&& data.len() >= 9
    &&& starts_with(data, om_system()) ==> data.len() >= 14 && data[12] == 0x49 && data[13] == 0x49
}

/// Where the IFD of an Olympus makernote starts: after the 8-byte `OLYMP`
/// header (12 bytes for `OLYMPUS`), after the 16-byte `OM SYSTEM` header,
/// else at once.
pub open spec fn spec_makernote_offset(data: Seq<u8>) -> int {
    if starts_with(data, olympus()) {
        12
    } else if starts_with(data, olymp()) {
        8
    } else if starts_with(data, om_system()) {
        16
    } else {
        0
    }
}

/// Whether `data` starts with `prefix`; `data` is long enough to tell.
fn has_prefix(data: &[u8], prefix: &[u8]) -> (r: bool)
    requires
        data@.len() >= prefix@.len(),
    ensures
        r == starts_with(data@, prefix@),
{
    let n = prefix.len();
    for i in 0..n
        invariant
            n == prefix@.len(),
            data@.len() >= n,
            forall|j: int| 0 <= j < i ==> data@[j] == prefix@[j],
    {
        if data[i] != prefix[i] {
            assert(data@.subrange(0, n as int)[i as int] != prefix@[i as int]);
            return false;
        }
    }
    assert(data@.subrange(0, n as int) =~= prefix@);
    true
}

/// The offset of the IFD inside an Olympus makernote, after the maker's
/// name that some models put in front of it.
pub fn makernote_offset(data: &[u8]) -> (r: usize)
    requires
        makernote_header_ok(data@),
    ensures
        r as int == spec_makernote_offset(data@),
{
    let mut off: usize = 0;
    let olymp_bytes: [u8; 5] = [0x4f, 0x4c, 0x59, 0x4d, 0x50];
    let olympus_bytes: [u8; 7] = [0x4f, 0x4c, 0x59, 0x4d, 0x50, 0x55, 0x53];
    let om_bytes: [u8; 9] = [0x4f, 0x4d, 0x20, 0x53, 0x59, 0x53, 0x54, 0x45, 0x4d];
    assert(olymp_bytes@ =~= olymp());
    assert(olympus_bytes@ =~= olympus());
    assert(om_bytes@ =~= om_system());
    let is_olymp = has_prefix(data, &olymp_bytes);
    if is_olymp {
        off += 8;
        if has_prefix(data, &olympus_bytes) {
            off += 4;
        }
    } else {
        assert(!starts_with(data@, olympus())) by {
            if starts_with(data@, olympus()) {
                assert(forall|j: int| 0 <= j < 5 ==> data@.subrange(0, 5)[j] == data@.subrange(0, 7)[j]);
                assert(data@.subrange(0, 5) =~= olymp());
            }
        }
    }
    if has_prefix(data, &om_bytes) {
        off += 16;
    }
    assert(starts_with(data@, olymp()) ==> !starts_with(data@, om_system())) by {
        if starts_with(data@, olymp()) && starts_with(data@, om_system()) {
            assert(data@.subrange(0, 5)[1] == data@.subrange(0, 9)[1]);
        }
    }
    off
}

} // verus!
