//! Decoder building blocks: format detection, metadata parsing and
//! decompression helpers.

pub mod ari;
pub mod arw;
pub mod camera;
pub mod cfa;
pub mod cr2;
pub mod cr3;
pub mod dcr;
pub mod iiq;
pub mod kdc;
pub mod loader;
pub mod mos;
pub mod mrw;
pub mod nef;
pub mod orf;
pub mod pef;
pub mod qtk;
pub mod raf;
pub mod rw2;
pub mod srw;
pub mod unwrapped;
pub mod x3f;

use vstd::prelude::*;
use std::collections::HashMap;

verus! {

/// The supported file extensions, upper-case.
pub open spec fn supported_extension_names() -> Seq<Seq<char>> {
    seq![
        seq!['A', 'R', 'I'],
        seq!['A', 'R', 'W'],
        seq!['C', 'R', '2'],
        seq!['C', 'R', '3'],
        seq!['C', 'R', 'M'],
        seq!['C', 'R', 'W'],
        seq!['D', 'C', 'R'],
        seq!['D', 'C', 'S'],
        seq!['D', 'N', 'G'],
        seq!['E', 'R', 'F'],
        seq!['I', 'I', 'Q'],
        seq!['K', 'D', 'C'],
        seq!['M', 'E', 'F'],
        seq!['M', 'O', 'S'],
        seq!['M', 'R', 'W'],
        seq!['N', 'E', 'F'],
        seq!['N', 'R', 'W'],
        seq!['O', 'R', 'F'],
        seq!['P', 'E', 'F'],
        seq!['R', 'A', 'F'],
        seq!['R', 'A', 'W'],
        seq!['R', 'W', '2'],
        seq!['R', 'W', 'L'],
        seq!['S', 'R', 'W'],
        seq!['3', 'F', 'R'],
        seq!['F', 'F', 'F'],
        seq!['X', '3', 'F'],
        seq!['Q', 'T', 'K'],
    ]
}

/// Get list of supported file extensions. All names are upper-case.
pub fn supported_extensions() -> (r: &'static [&'static str])
    ensures
        r@.len() == supported_extension_names().len(),
        forall|i: int| 0 <= i < r@.len() ==> #[trigger] r@[i]@ == supported_extension_names()[i],
{
    proof {
        reveal_strlit("ARI");
        reveal_strlit("ARW");
        reveal_strlit("CR2");
        reveal_strlit("CR3");
        reveal_strlit("CRM");
        reveal_strlit("CRW");
        reveal_strlit("DCR");
        reveal_strlit("DCS");
        reveal_strlit("DNG");
        reveal_strlit("ERF");
        reveal_strlit("IIQ");
        reveal_strlit("KDC");
        reveal_strlit("MEF");
        reveal_strlit("MOS");
        reveal_strlit("MRW");
        reveal_strlit("NEF");
        reveal_strlit("NRW");
        reveal_strlit("ORF");
        reveal_strlit("PEF");
        reveal_strlit("RAF");
        reveal_strlit("RAW");
        reveal_strlit("RW2");
        reveal_strlit("RWL");
        reveal_strlit("SRW");
        reveal_strlit("3FR");
        reveal_strlit("FFF");
        reveal_strlit("X3F");
        reveal_strlit("QTK");
    }
    let r: &'static [&'static str] = &["ARI", "ARW", "CR2", "CR3", "CRM", "CRW", "DCR", "DCS", "DNG", "ERF", "IIQ", "KDC", "MEF", "MOS", "MRW", "NEF", "NRW", "ORF", "PEF", "RAF", "RAW", "RW2", "RWL", "SRW", "3FR", "FFF", "X3F", "QTK"];
    assert(r@.len() == 28);
    r
}

/// Parameters of a decode: which of the images of a file to decode.
#[derive(Default, Clone, Debug, Hash, Eq, PartialEq, Structural)]
pub struct RawDecodeParams {
    pub image_index: usize,
}

broadcast use vstd::std_specs::hash::group_hash_axioms;

/// Metadata that a decoder has worked out, kept per set of decode
/// parameters (that is, per image index).
pub struct DecoderCache<T> {
    cache: HashMap<usize, T>,
}

impl<T: Clone> DecoderCache<T> {
    /// What is kept, by image index.
    pub closed spec fn entries(&self) -> Map<usize, T> {
        self.cache@
    }

    /// An empty cache.
    pub fn new() -> (r: DecoderCache<T>)
        ensures
            r.entries() == Map::<usize, T>::empty(),
    {
        DecoderCache { cache: HashMap::new() }
    }

    /// A copy of what is kept for `params`, if anything.
    pub fn get(&self, params: &RawDecodeParams) -> (r: Option<T>)
        ensures
            !self.entries().contains_key(params.image_index) ==> r is None,
            self.entries().contains_key(params.image_index) ==> (r matches Some(v) && cloned(
                self.entries()[params.image_index],
                v,
            )),
    {
        match self.cache.get(&params.image_index) {
            Some(v) => Some(v.clone()),
            None => None,
        }
    }

    /// Keep `value` for `params`, replacing what was kept before.
    pub fn set(&mut self, params: &RawDecodeParams, value: T)
        ensures
            final(self).entries() == old(self).entries().insert(params.image_index, value),
    {
        self.cache.insert(params.image_index, value);
    }
}

/// The IFDs that decoders know by role.
#[derive(Clone, Copy, Debug, PartialEq, Eq, PartialOrd, Ord, Structural)]
pub enum WellKnownIFD {
    Root,
    Raw,
    Preview,
    Exif,
    ExifGps,
    VirtualDngRootTags,
    VirtualDngRawTags,
}

/// The file format a decoder handles.
#[derive(Clone, Copy, Debug, PartialEq, Eq, PartialOrd, Ord, Structural)]
pub enum FormatHint {
    Unknown,
    CR2,
    CR3,
    CRW,
    NEF,
    ARW,
    RAF,
    RW2,
    ARI,
    DNG,
    DCR,
    DCS,
    ERF,
    IIQ,
    KDC,
    MEF,
    MOS,
    MRW,
    NRW,
    ORF,
    PEF,
    QTK,
    SRW,
    TFR,
    X3F,
}

impl Default for FormatHint {
    fn default() -> (r: Self)
        ensures
            r == FormatHint::Unknown,
    {
        FormatHint::Unknown
    }
}

/// Possible orientations of an image
///
/// Values are taken from the IFD tag Orientation (0x0112) in most cases but they can be
/// obtained from other metadata in the file.
#[derive(Debug, Copy, Clone, PartialEq, Eq, Hash, Structural)]
#[allow(missing_docs)]
pub enum Orientation {
    Normal,
    HorizontalFlip,
    Rotate180,
    VerticalFlip,
    Transpose,
    Rotate90,
    Transverse,
    Rotate270,
    Unknown,
}

/// The TIFF Orientation tag value of each orientation (0 for unknown).
pub open spec fn orientation_value(o: Orientation) -> u16 {
    match o {
        Orientation::Unknown => 0,
        Orientation::Normal => 1,
        Orientation::HorizontalFlip => 2,
        Orientation::Rotate180 => 3,
        Orientation::VerticalFlip => 4,
        Orientation::Transpose => 5,
        Orientation::Rotate90 => 6,
        Orientation::Transverse => 7,
        Orientation::Rotate270 => 8,
    }
}

/// The flips that undo an orientation: (transpose, horizontal, vertical).
pub open spec fn orientation_flips(o: Orientation) -> (bool, bool, bool) {
    match o {
        Orientation::Normal | Orientation::Unknown => (false, false, false),
        Orientation::VerticalFlip => (false, false, true),
        Orientation::HorizontalFlip => (false, true, false),
        Orientation::Rotate180 => (false, true, true),
        Orientation::Transpose => (true, false, false),
        Orientation::Rotate90 => (true, false, true),
        Orientation::Rotate270 => (true, true, false),
        Orientation::Transverse => (true, true, true),
    }
}

impl Orientation {
    /// Convert a u16 from the IFD tag Orientation (0x0112) into its
    /// corresponding enum value; values outside 1..=8 are `Unknown`.
    pub fn from_u16(orientation: u16) -> (r: Orientation)
        ensures
            1 <= orientation <= 8 ==> orientation_value(r) == orientation,
            !(1 <= orientation <= 8) ==> r == Orientation::Unknown,
    {
        match orientation {
            1 => Orientation::Normal,
            2 => Orientation::HorizontalFlip,
            3 => Orientation::Rotate180,
            4 => Orientation::VerticalFlip,
            5 => Orientation::Transpose,
            6 => Orientation::Rotate90,
            7 => Orientation::Transverse,
            8 => Orientation::Rotate270,
            _ => Orientation::Unknown,
        }
    }

    /// Convert orientation to an image flip operation tuple. The first field is
    /// if x and y coordinates should be swapped (transposed). The second and
    /// third field is horizontal and vertical flipping respectively. For a
    /// correct result, flipping must be done before transposing.
    pub fn to_flips(&self) -> (r: (bool, bool, bool))
        ensures
            r == orientation_flips(*self),
    {
        match *self {
            Orientation::Normal | Orientation::Unknown => (false, false, false),
            Orientation::VerticalFlip => (false, false, true),
            Orientation::HorizontalFlip => (false, true, false),
            Orientation::Rotate180 => (false, true, true),
            Orientation::Transpose => (true, false, false),
            Orientation::Rotate90 => (true, false, true),
            Orientation::Rotate270 => (true, true, false),
            Orientation::Transverse => (true, true, true),
        }
    }

    /// Does the opposite of to_flips()
    pub fn from_flips(flips: (bool, bool, bool)) -> (r: Self)
        ensures
            orientation_flips(r) == flips,
            r != Orientation::Unknown,
    {
        match flips {
            (false, false, false) => Orientation::Normal,
            (false, false, true) => Orientation::VerticalFlip,
            (false, true, false) => Orientation::HorizontalFlip,
            (false, true, true) => Orientation::Rotate180,
            (true, false, false) => Orientation::Transpose,
            (true, false, true) => Orientation::Rotate90,
            (true, true, false) => Orientation::Rotate270,
            (true, true, true) => Orientation::Transverse,
        }
    }

    /// Convert orientation to the Tiff Orientation value
    pub fn to_u16(&self) -> (r: u16)
        ensures
            r == orientation_value(*self),
    {
        match *self {
            Orientation::Unknown => 0,
            Orientation::Normal => 1,
            Orientation::HorizontalFlip => 2,
            Orientation::Rotate180 => 3,
            Orientation::VerticalFlip => 4,
            Orientation::Transpose => 5,
            Orientation::Rotate90 => 6,
            Orientation::Transverse => 7,
            Orientation::Rotate270 => 8,
        }
    }
}

/// Reading back the tag value of an orientation gives the orientation.
pub proof fn lemma_orientation_value_roundtrip(o: Orientation)
    ensures
        1 <= orientation_value(o) <= 8 || o == Orientation::Unknown,
        o != Orientation::Unknown ==> 1 <= orientation_value(o) <= 8,
        orientation_value(o) == 0 <==> o == Orientation::Unknown,
{
}

/// Every known orientation is the one its flips describe, and every flip
/// combination is the flips of one orientation.
pub proof fn lemma_orientation_flips_roundtrip(o: Orientation, f: (bool, bool, bool))
    ensures
        o != Orientation::Unknown ==> forall|r: Orientation|
            r != Orientation::Unknown && orientation_flips(r) == orientation_flips(o) ==> r == o,
        exists|r: Orientation| r != Orientation::Unknown && orientation_flips(r) == f,
{
    let (a, b, c) = f;
    let r = if !a && !b && !c {
        Orientation::Normal
    } else if !a && !b && c {
        Orientation::VerticalFlip
    } else if !a && b && !c {
        Orientation::HorizontalFlip
    } else if !a && b && c {
        Orientation::Rotate180
    } else if a && !b && !c {
        Orientation::Transpose
    } else if a && !b && c {
        Orientation::Rotate90
    } else if a && b && !c {
        Orientation::Rotate270
    } else {
        Orientation::Transverse
    };
    assert(orientation_flips(r) == f);
}

} // verus!
