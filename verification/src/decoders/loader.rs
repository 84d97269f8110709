//! Which decoder reads a file: decided from its signature (the magic
//! numbers the format checks find) and, for TIFF-based files, from the
//! DNG version, the model, the make and the software that wrote it.

use vstd::prelude::*;

verus! {

/// The decoders of the library's formats.
#[derive(Debug, Copy, Clone, PartialEq, Eq, Structural)]
pub enum DecoderKind {
    Mrw,
    /// A Minolta MRW inside a JPEG/EXIF file.
    MrwJfif,
    Raf,
    Ari,
    Qtk,
    Crw,
    X3f,
    Cr3,
    Dng,
    Cr2,
    Pef,
    Iiq,
    Tfr,
    Arw,
    Mef,
    Orf,
    Srw,
    Erf,
    Kdc,
    Dcs,
    Dcr,
    Rw2,
    Nrw,
    Nef,
    Mos,
    /// A headerless file recognized by its size.
    Naked,
}

/// What the TIFF structure of a file says: whether it has a DNG version,
/// and its model, make (without trailing white space) and software.
pub struct TiffFacts {
    pub has_dng_version: bool,
    pub model: Option<String>,
    pub make: Option<String>,
    pub software: Option<String>,
}

/// What the format checks found in a file.
pub struct FileSignature {
    pub mrw: bool,
    pub raf: bool,
    pub ari: bool,
    pub qtk: bool,
    pub ciff: bool,
    /// The make of an EXIF file (without trailing white space).
    pub exif_make: Option<String>,
    pub x3f: bool,
    /// A BMFF file compatible with the `crx ` brand.
    pub crx: bool,
    /// The facts of a file that reads as TIFF.
    pub tiff: Option<TiffFacts>,
    /// The file size is that of a known headerless camera.
    pub naked: bool,
}

/// No decoder reads the file: the make and model it names (empty where it
/// names none).
pub struct UnsupportedMake {
    pub make: String,
    pub model: String,
}

pub open spec fn opt_text(o: Option<String>) -> Option<Seq<char>> {
    match o {
        Some(s) => Some(s@),
        None => None,
    }
}

/// The decoder for the make of a TIFF file.
pub open spec fn spec_make_decoder(make: Seq<char>) -> Option<DecoderKind> {
    if make == "Canon"@ {
        Some(DecoderKind::Cr2)
    } else if make == "PENTAX"@ {
        Some(DecoderKind::Pef)
    } else if make == "PENTAX Corporation"@ {
        Some(DecoderKind::Pef)
    } else if make == "RICOH IMAGING COMPANY, LTD."@ {
        Some(DecoderKind::Pef)
    } else if make == "Phase One"@ {
        Some(DecoderKind::Iiq)
    } else if make == "Phase One A/S"@ {
        Some(DecoderKind::Iiq)
    } else if make == "Leaf"@ {
        Some(DecoderKind::Iiq)
    } else if make == "Hasselblad"@ {
        Some(DecoderKind::Tfr)
    } else if make == "SONY"@ {
        Some(DecoderKind::Arw)
    } else if make == "Mamiya-OP Co.,Ltd."@ {
        Some(DecoderKind::Mef)
    } else if make == "OLYMPUS IMAGING CORP."@ {
        Some(DecoderKind::Orf)
    } else if make == "OLYMPUS CORPORATION"@ {
        Some(DecoderKind::Orf)
    } else if make == "OLYMPUS OPTICAL CO.,LTD"@ {
        Some(DecoderKind::Orf)
    } else if make == "OM Digital Solutions"@ {
        Some(DecoderKind::Orf)
    } else if make == "SAMSUNG"@ {
        Some(DecoderKind::Srw)
    } else if make == "SEIKO EPSON CORP."@ {
        Some(DecoderKind::Erf)
    } else if make == "EASTMAN KODAK COMPANY"@ {
        Some(DecoderKind::Kdc)
    } else if make == "Eastman Kodak Company"@ {
        Some(DecoderKind::Kdc)
    } else if make == "KODAK"@ {
        Some(DecoderKind::Dcs)
    } else if make == "Kodak"@ {
        Some(DecoderKind::Dcr)
    } else if make == "Panasonic"@ {
        Some(DecoderKind::Rw2)
    } else if make == "LEICA"@ {
        Some(DecoderKind::Rw2)
    } else if make == "LEICA CAMERA AG"@ {
        Some(DecoderKind::Rw2)
    } else if make == "NIKON"@ {
        Some(DecoderKind::Nrw)
    } else if make == "NIKON CORPORATION"@ {
        Some(DecoderKind::Nef)
    } else {
        None
    }
}

/// The decoder for a file, or the make and model of an unsupported one:
/// the checks run in this order and the first that holds decides.
pub open spec fn spec_decoder_for(sig: FileSignature) -> Result<DecoderKind, (Seq<char>, Seq<char>)> {
    if sig.mrw {
        Ok(DecoderKind::Mrw)
    } else if sig.raf {
        Ok(DecoderKind::Raf)
    } else if sig.ari {
        Ok(DecoderKind::Ari)
    } else if sig.qtk {
        Ok(DecoderKind::Qtk)
    } else if sig.ciff {
        Ok(DecoderKind::Crw)
    } else if opt_text(sig.exif_make) == Some("Konica Minolta Photo Imaging, Inc."@) {
        Ok(DecoderKind::MrwJfif)
    } else if sig.x3f {
        Ok(DecoderKind::X3f)
    } else if sig.crx {
        Ok(DecoderKind::Cr3)
    } else if sig.tiff is Some && sig.tiff->0.has_dng_version {
        Ok(DecoderKind::Dng)
    } else if sig.tiff is Some && opt_text(sig.tiff->0.model) == Some("DCS560C"@) {
        Ok(DecoderKind::Cr2)
    } else if sig.tiff is Some && sig.tiff->0.make is Some {
        let make = sig.tiff->0.make->0@;
        match spec_make_decoder(make) {
            Some(d) => Ok(d),
            None => Err(
                (
                    make,
                    match opt_text(sig.tiff->0.model) {
                        Some(m) => m,
                        None => Seq::empty(),
                    },
                ),
            ),
        }
    } else if sig.tiff is Some && opt_text(sig.tiff->0.software) == Some("Camera Library"@) {
        Ok(DecoderKind::Mos)
    } else if sig.naked {
        Ok(DecoderKind::Naked)
    } else {
        Err((Seq::empty(), Seq::empty()))
    }
}

pub open spec fn decoder_result(r: Result<DecoderKind, UnsupportedMake>) -> Result<DecoderKind, (Seq<char>, Seq<char>)> {
    match r {
        Ok(d) => Ok(d),
        Err(u) => Err((u.make@, u.model@)),
    }
}

/// Whether two texts are equal.
fn str_eq(a: &str, b: &str) -> (r: bool)
    ensures
        r == (a@ == b@),
{
    let n = a.unicode_len();
    if n != b.unicode_len() {
        return false;
    }
    for i in 0..n
        invariant
            n == a@.len(),
            n == b@.len(),
            forall|j: int| 0 <= j < i ==> a@[j] == b@[j],
    {
        if a.get_char(i) != b.get_char(i) {
            return false;
        }
    }
    assert(a@ =~= b@);
    true
}

fn opt_eq(a: &Option<String>, b: &str) -> (r: bool)
    ensures
        r == (opt_text(*a) == Some(b@)),
{
    match a {
        Some(s) => str_eq(s.as_str(), b),
        None => false,
    }
}

/// The decoder for the make of a TIFF file (see `spec_make_decoder`).
pub fn make_decoder(make: &str) -> (r: Option<DecoderKind>)
    ensures
        r == spec_make_decoder(make@),
{
    if str_eq(make, "Canon") {
        Some(DecoderKind::Cr2)
    } else if str_eq(make, "PENTAX") {
        Some(DecoderKind::Pef)
    } else if str_eq(make, "PENTAX Corporation") {
        Some(DecoderKind::Pef)
    } else if str_eq(make, "RICOH IMAGING COMPANY, LTD.") {
        Some(DecoderKind::Pef)
    } else if str_eq(make, "Phase One") {
        Some(DecoderKind::Iiq)
    } else if str_eq(make, "Phase One A/S") {
        Some(DecoderKind::Iiq)
    } else if str_eq(make, "Leaf") {
        Some(DecoderKind::Iiq)
    } else if str_eq(make, "Hasselblad") {
        Some(DecoderKind::Tfr)
    } else if str_eq(make, "SONY") {
        Some(DecoderKind::Arw)
    } else if str_eq(make, "Mamiya-OP Co.,Ltd.") {
        Some(DecoderKind::Mef)
    } else if str_eq(make, "OLYMPUS IMAGING CORP.") {
        Some(DecoderKind::Orf)
    } else if str_eq(make, "OLYMPUS CORPORATION") {
        Some(DecoderKind::Orf)
    } else if str_eq(make, "OLYMPUS OPTICAL CO.,LTD") {
        Some(DecoderKind::Orf)
    } else if str_eq(make, "OM Digital Solutions") {
        Some(DecoderKind::Orf)
    } else if str_eq(make, "SAMSUNG") {
        Some(DecoderKind::Srw)
    } else if str_eq(make, "SEIKO EPSON CORP.") {
        Some(DecoderKind::Erf)
    } else if str_eq(make, "EASTMAN KODAK COMPANY") {
        Some(DecoderKind::Kdc)
    } else if str_eq(make, "Eastman Kodak Company") {
        Some(DecoderKind::Kdc)
    } else if str_eq(make, "KODAK") {
        Some(DecoderKind::Dcs)
    } else if str_eq(make, "Kodak") {
        Some(DecoderKind::Dcr)
    } else if str_eq(make, "Panasonic") {
        Some(DecoderKind::Rw2)
    } else if str_eq(make, "LEICA") {
        Some(DecoderKind::Rw2)
    } else if str_eq(make, "LEICA CAMERA AG") {
        Some(DecoderKind::Rw2)
    } else if str_eq(make, "NIKON") {
        Some(DecoderKind::Nrw)
    } else if str_eq(make, "NIKON CORPORATION") {
        Some(DecoderKind::Nef)
    } else {
        None
    }
}

/// The decoder for a file (see `spec_decoder_for`).
pub fn decoder_for(sig: &FileSignature) -> (r: Result<DecoderKind, UnsupportedMake>)
    ensures
        decoder_result(r) == spec_decoder_for(*sig),
{
    if sig.mrw {
        return Ok(DecoderKind::Mrw);
    }
    if sig.raf {
        return Ok(DecoderKind::Raf);
    }
    if sig.ari {
        return Ok(DecoderKind::Ari);
    }
    if sig.qtk {
        return Ok(DecoderKind::Qtk);
    }
    if sig.ciff {
        return Ok(DecoderKind::Crw);
    }
    if opt_eq(&sig.exif_make, "Konica Minolta Photo Imaging, Inc.") {
        return Ok(DecoderKind::MrwJfif);
    }
    if sig.x3f {
        return Ok(DecoderKind::X3f);
    }
    if sig.crx {
        return Ok(DecoderKind::Cr3);
    }
    if let Some(tiff) = &sig.tiff {
        if tiff.has_dng_version {
            return Ok(DecoderKind::Dng);
        }
        if opt_eq(&tiff.model, "DCS560C") {
            return Ok(DecoderKind::Cr2);
        }
        if let Some(make) = &tiff.make {
            return match make_decoder(make.as_str()) {
                Some(d) => Ok(d),
                None => {
                    let model = match &tiff.model {
                        Some(m) => m.clone(),
                        None => String::new(),
                    };
                    Err(UnsupportedMake { make: make.clone(), model })
                },
            };
        }
        if opt_eq(&tiff.software, "Camera Library") {
            return Ok(DecoderKind::Mos);
        }
    }
    if sig.naked {
        return Ok(DecoderKind::Naked);
    }
    Err(UnsupportedMake { make: String::new(), model: String::new() })
}


/// The make table: each make a TIFF file may name, and its decoder.
pub proof fn lemma_make_table()
    ensures
        spec_make_decoder("Canon"@) == Some(DecoderKind::Cr2),
        spec_make_decoder("PENTAX"@) == Some(DecoderKind::Pef),
        spec_make_decoder("PENTAX Corporation"@) == Some(DecoderKind::Pef),
        spec_make_decoder("RICOH IMAGING COMPANY, LTD."@) == Some(DecoderKind::Pef),
        spec_make_decoder("Phase One"@) == Some(DecoderKind::Iiq),
        spec_make_decoder("Phase One A/S"@) == Some(DecoderKind::Iiq),
        spec_make_decoder("Leaf"@) == Some(DecoderKind::Iiq),
        spec_make_decoder("Hasselblad"@) == Some(DecoderKind::Tfr),
        spec_make_decoder("SONY"@) == Some(DecoderKind::Arw),
        spec_make_decoder("Mamiya-OP Co.,Ltd."@) == Some(DecoderKind::Mef),
        spec_make_decoder("OLYMPUS IMAGING CORP."@) == Some(DecoderKind::Orf),
        spec_make_decoder("OLYMPUS CORPORATION"@) == Some(DecoderKind::Orf),
        spec_make_decoder("OLYMPUS OPTICAL CO.,LTD"@) == Some(DecoderKind::Orf),
        spec_make_decoder("OM Digital Solutions"@) == Some(DecoderKind::Orf),
        spec_make_decoder("SAMSUNG"@) == Some(DecoderKind::Srw),
        spec_make_decoder("SEIKO EPSON CORP."@) == Some(DecoderKind::Erf),
        spec_make_decoder("EASTMAN KODAK COMPANY"@) == Some(DecoderKind::Kdc),
        spec_make_decoder("Eastman Kodak Company"@) == Some(DecoderKind::Kdc),
        spec_make_decoder("KODAK"@) == Some(DecoderKind::Dcs),
        spec_make_decoder("Kodak"@) == Some(DecoderKind::Dcr),
        spec_make_decoder("Panasonic"@) == Some(DecoderKind::Rw2),
        spec_make_decoder("LEICA"@) == Some(DecoderKind::Rw2),
        spec_make_decoder("LEICA CAMERA AG"@) == Some(DecoderKind::Rw2),
        spec_make_decoder("NIKON"@) == Some(DecoderKind::Nrw),
        spec_make_decoder("NIKON CORPORATION"@) == Some(DecoderKind::Nef),
        spec_make_decoder("FUJIFILM"@) is None,
        spec_make_decoder(""@) is None,
{
    reveal_strlit("Canon");
    assert("Canon"@.len() == 5 && "Canon"@[0] == 'C' && "Canon"@[1] == 'a');
    reveal_strlit("PENTAX");
    assert("PENTAX"@.len() == 6 && "PENTAX"@[0] == 'P' && "PENTAX"@[1] == 'E');
    reveal_strlit("PENTAX Corporation");
    assert("PENTAX Corporation"@.len() == 18 && "PENTAX Corporation"@[0] == 'P' && "PENTAX Corporation"@[1] == 'E');
    reveal_strlit("RICOH IMAGING COMPANY, LTD.");
    assert("RICOH IMAGING COMPANY, LTD."@.len() == 27 && "RICOH IMAGING COMPANY, LTD."@[0] == 'R' && "RICOH IMAGING COMPANY, LTD."@[1] == 'I');
    reveal_strlit("Phase One");
    assert("Phase One"@.len() == 9 && "Phase One"@[0] == 'P' && "Phase One"@[1] == 'h');
    reveal_strlit("Phase One A/S");
    assert("Phase One A/S"@.len() == 13 && "Phase One A/S"@[0] == 'P' && "Phase One A/S"@[1] == 'h');
    reveal_strlit("Leaf");
    assert("Leaf"@.len() == 4 && "Leaf"@[0] == 'L' && "Leaf"@[1] == 'e');
    reveal_strlit("Hasselblad");
    assert("Hasselblad"@.len() == 10 && "Hasselblad"@[0] == 'H' && "Hasselblad"@[1] == 'a');
    reveal_strlit("SONY");
    assert("SONY"@.len() == 4 && "SONY"@[0] == 'S' && "SONY"@[1] == 'O');
    reveal_strlit("Mamiya-OP Co.,Ltd.");
    assert("Mamiya-OP Co.,Ltd."@.len() == 18 && "Mamiya-OP Co.,Ltd."@[0] == 'M' && "Mamiya-OP Co.,Ltd."@[1] == 'a');
    reveal_strlit("OLYMPUS IMAGING CORP.");
    assert("OLYMPUS IMAGING CORP."@.len() == 21 && "OLYMPUS IMAGING CORP."@[0] == 'O' && "OLYMPUS IMAGING CORP."@[1] == 'L');
    reveal_strlit("OLYMPUS CORPORATION");
    assert("OLYMPUS CORPORATION"@.len() == 19 && "OLYMPUS CORPORATION"@[0] == 'O' && "OLYMPUS CORPORATION"@[1] == 'L');
    reveal_strlit("OLYMPUS OPTICAL CO.,LTD");
    assert("OLYMPUS OPTICAL CO.,LTD"@.len() == 23 && "OLYMPUS OPTICAL CO.,LTD"@[0] == 'O' && "OLYMPUS OPTICAL CO.,LTD"@[1] == 'L');
    reveal_strlit("OM Digital Solutions");
    assert("OM Digital Solutions"@.len() == 20 && "OM Digital Solutions"@[0] == 'O' && "OM Digital Solutions"@[1] == 'M');
    reveal_strlit("SAMSUNG");
    assert("SAMSUNG"@.len() == 7 && "SAMSUNG"@[0] == 'S' && "SAMSUNG"@[1] == 'A');
    reveal_strlit("SEIKO EPSON CORP.");
    assert("SEIKO EPSON CORP."@.len() == 17 && "SEIKO EPSON CORP."@[0] == 'S' && "SEIKO EPSON CORP."@[1] == 'E');
    reveal_strlit("EASTMAN KODAK COMPANY");
    assert("EASTMAN KODAK COMPANY"@.len() == 21 && "EASTMAN KODAK COMPANY"@[0] == 'E' && "EASTMAN KODAK COMPANY"@[1] == 'A');
    reveal_strlit("Eastman Kodak Company");
    assert("Eastman Kodak Company"@.len() == 21 && "Eastman Kodak Company"@[0] == 'E' && "Eastman Kodak Company"@[1] == 'a');
    reveal_strlit("KODAK");
    assert("KODAK"@.len() == 5 && "KODAK"@[0] == 'K' && "KODAK"@[1] == 'O');
    reveal_strlit("Kodak");
    assert("Kodak"@.len() == 5 && "Kodak"@[0] == 'K' && "Kodak"@[1] == 'o');
    reveal_strlit("Panasonic");
    assert("Panasonic"@.len() == 9 && "Panasonic"@[0] == 'P' && "Panasonic"@[1] == 'a');
    reveal_strlit("LEICA");
    assert("LEICA"@.len() == 5 && "LEICA"@[0] == 'L' && "LEICA"@[1] == 'E');
    reveal_strlit("LEICA CAMERA AG");
    assert("LEICA CAMERA AG"@.len() == 15 && "LEICA CAMERA AG"@[0] == 'L' && "LEICA CAMERA AG"@[1] == 'E');
    reveal_strlit("NIKON");
    assert("NIKON"@.len() == 5 && "NIKON"@[0] == 'N' && "NIKON"@[1] == 'I');
    reveal_strlit("NIKON CORPORATION");
    assert("NIKON CORPORATION"@.len() == 17 && "NIKON CORPORATION"@[0] == 'N' && "NIKON CORPORATION"@[1] == 'I');
    reveal_strlit("FUJIFILM");
    assert("FUJIFILM"@.len() == 8 && "FUJIFILM"@[0] == 'F' && "FUJIFILM"@[1] == 'U');
    reveal_strlit("");
    assert(""@.len() == 0);
}

/// A TIFF file without a DNG version, without the DCS560C model and with no
/// earlier signature gets the decoder of its make, or is unsupported with
/// its make and model.
pub proof fn lemma_decoder_by_make(sig: FileSignature)
    requires
        !sig.mrw && !sig.raf && !sig.ari && !sig.qtk && !sig.ciff && !sig.x3f && !sig.crx,
        opt_text(sig.exif_make) != Some("Konica Minolta Photo Imaging, Inc."@),
        sig.tiff is Some,
        !sig.tiff->0.has_dng_version,
        opt_text(sig.tiff->0.model) != Some("DCS560C"@),
        sig.tiff->0.make is Some,
    ensures
        ({
            let make = sig.tiff->0.make->0@;
            &&& spec_make_decoder(make) matches Some(d) ==> spec_decoder_for(sig) == Ok::<
                DecoderKind,
                (Seq<char>, Seq<char>),
            >(d)
            &&& spec_make_decoder(make) is None ==> (spec_decoder_for(sig) matches Err((m, _)) && m == make)
        }),
{
}

/// The format signatures decide before anything else, in this order.
pub proof fn lemma_decoder_by_signature(sig: FileSignature)
    ensures
        sig.mrw ==> spec_decoder_for(sig) == Ok::<DecoderKind, (Seq<char>, Seq<char>)>(DecoderKind::Mrw),
        !sig.mrw && sig.raf ==> spec_decoder_for(sig) == Ok::<DecoderKind, (Seq<char>, Seq<char>)>(DecoderKind::Raf),
        !sig.mrw && !sig.raf && sig.ari ==> spec_decoder_for(sig) == Ok::<DecoderKind, (Seq<char>, Seq<char>)>(
            DecoderKind::Ari,
        ),
        !sig.mrw && !sig.raf && !sig.ari && sig.qtk ==> spec_decoder_for(sig) == Ok::<
            DecoderKind,
            (Seq<char>, Seq<char>),
        >(DecoderKind::Qtk),
        !sig.mrw && !sig.raf && !sig.ari && !sig.qtk && sig.ciff ==> spec_decoder_for(sig) == Ok::<
            DecoderKind,
            (Seq<char>, Seq<char>),
        >(DecoderKind::Crw),
{
}

/// After the five signatures: an EXIF file of the Konica Minolta make is an
/// MRW in JPEG; then X3F, then BMFF with the `crx ` brand; then the TIFF
/// facts: a DNG version, the DCS560C model (a CR2), the make, the software
/// `Camera Library` (Leaf MOS); then a known headerless size; else nothing.
pub proof fn lemma_decoder_after_signatures(sig: FileSignature)
    requires
        !sig.mrw && !sig.raf && !sig.ari && !sig.qtk && !sig.ciff,
    ensures
        opt_text(sig.exif_make) == Some("Konica Minolta Photo Imaging, Inc."@) ==> spec_decoder_for(sig) == Ok::<
            DecoderKind,
            (Seq<char>, Seq<char>),
        >(DecoderKind::MrwJfif),
        opt_text(sig.exif_make) != Some("Konica Minolta Photo Imaging, Inc."@) ==> {
            &&& sig.x3f ==> spec_decoder_for(sig) == Ok::<DecoderKind, (Seq<char>, Seq<char>)>(DecoderKind::X3f)
            &&& !sig.x3f && sig.crx ==> spec_decoder_for(sig) == Ok::<DecoderKind, (Seq<char>, Seq<char>)>(
                DecoderKind::Cr3,
            )
            &&& (!sig.x3f && !sig.crx && sig.tiff is Some && sig.tiff->0.has_dng_version) ==> spec_decoder_for(sig)
                == Ok::<DecoderKind, (Seq<char>, Seq<char>)>(DecoderKind::Dng)
            &&& (!sig.x3f && !sig.crx && sig.tiff is Some && !sig.tiff->0.has_dng_version && opt_text(
                sig.tiff->0.model,
            ) == Some("DCS560C"@)) ==> spec_decoder_for(sig) == Ok::<DecoderKind, (Seq<char>, Seq<char>)>(
                DecoderKind::Cr2,
            )
            &&& (!sig.x3f && !sig.crx && sig.tiff is Some && !sig.tiff->0.has_dng_version && opt_text(
                sig.tiff->0.model,
            ) != Some("DCS560C"@) && sig.tiff->0.make is None && opt_text(sig.tiff->0.software) == Some(
                "Camera Library"@,
            )) ==> spec_decoder_for(sig) == Ok::<DecoderKind, (Seq<char>, Seq<char>)>(DecoderKind::Mos)
            &&& (!sig.x3f && !sig.crx && sig.tiff is None && sig.naked) ==> spec_decoder_for(sig) == Ok::<
                DecoderKind,
                (Seq<char>, Seq<char>),
            >(DecoderKind::Naked)
            &&& (!sig.x3f && !sig.crx && sig.tiff is None && !sig.naked) ==> spec_decoder_for(sig) == Err::<
                DecoderKind,
                (Seq<char>, Seq<char>),
            >((Seq::empty(), Seq::empty()))
        },
{
}

} // verus!
