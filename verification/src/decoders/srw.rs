//! Samsung SRW metadata tags.

use vstd::prelude::*;

verus! {

/// Tags of the Samsung makernote.
#[derive(Debug, Copy, Clone, PartialEq, Eq, Structural)]
#[allow(non_camel_case_types)]
pub enum SrwMakernote {
    LensModel,
    SrwRGGBLevels,
    SrwRGGBBlacks,
}

impl SrwMakernote {
    /// The tag's number.
    pub open spec fn tag_number(self) -> u16 {
        match self {
            SrwMakernote::LensModel => 0xa003u16,
            SrwMakernote::SrwRGGBLevels => 0xa021u16,
            SrwMakernote::SrwRGGBBlacks => 0xa028u16,
        }
    }

    /// The tag with number `value`, if there is one.
    pub open spec fn tag_of(value: u16) -> Option<SrwMakernote> {
        if value == 0xa003 {
            Some(SrwMakernote::LensModel)
        } else if value == 0xa021 {
            Some(SrwMakernote::SrwRGGBLevels)
        } else if value == 0xa028 {
            Some(SrwMakernote::SrwRGGBBlacks)
        } else {
            None
        }
    }

    /// The tag's number.
    pub fn value(self) -> (r: u16)
        ensures
            r == self.tag_number(),
    {
        match self {
            SrwMakernote::LensModel => 0xa003,
            SrwMakernote::SrwRGGBLevels => 0xa021,
            SrwMakernote::SrwRGGBBlacks => 0xa028,
        }
    }

    /// The tag with number `value`, if there is one.
    pub fn n(value: u16) -> (r: Option<SrwMakernote>)
        ensures
            r == Self::tag_of(value),
    {
        match value {
            0xa003 => Some(SrwMakernote::LensModel),
            0xa021 => Some(SrwMakernote::SrwRGGBLevels),
            0xa028 => Some(SrwMakernote::SrwRGGBBlacks),
            _ => None,
        }
    }

    /// A tag is found again from its number, and a number names only
    /// the tag that has it.
    pub proof fn lemma_tag_roundtrip(self, value: u16)
        ensures
            Self::tag_of(self.tag_number()) == Some(self),
            Self::tag_of(value) matches Some(t) ==> t.tag_number() == value,
    {
    }
}

impl From<SrwMakernote> for u16 {
    fn from(tag: SrwMakernote) -> (r: u16) {
        tag.value()
    }
}

impl vstd::std_specs::convert::FromSpecImpl<SrwMakernote> for u16 {
    open spec fn obeys_from_spec() -> bool {
        true
    }

    open spec fn from_spec(tag: SrwMakernote) -> u16 {
        tag.tag_number()
    }
}


} // verus!
