use rawler::decoders::loader::{decoder_for, make_decoder, DecoderKind, FileSignature, TiffFacts};

fn plain() -> FileSignature {
    FileSignature {
        mrw: false,
        raf: false,
        ari: false,
        qtk: false,
        ciff: false,
        exif_make: None,
        x3f: false,
        crx: false,
        tiff: None,
        naked: false,
    }
}

fn tiff(dng: bool, model: Option<&str>, make: Option<&str>, software: Option<&str>) -> FileSignature {
    FileSignature {
        tiff: Some(TiffFacts {
            has_dng_version: dng,
            model: model.map(|s| s.to_string()),
            make: make.map(|s| s.to_string()),
            software: software.map(|s| s.to_string()),
        }),
        ..plain()
    }
}

#[test]
fn decoder_by_signature() {
    assert_eq!(decoder_for(&FileSignature { mrw: true, raf: true, ..plain() }).ok(), Some(DecoderKind::Mrw));
    assert_eq!(decoder_for(&FileSignature { raf: true, ..plain() }).ok(), Some(DecoderKind::Raf));
    assert_eq!(decoder_for(&FileSignature { ciff: true, ..plain() }).ok(), Some(DecoderKind::Crw));
    let jfif = FileSignature { exif_make: Some("Konica Minolta Photo Imaging, Inc.".to_string()), ..plain() };
    assert_eq!(decoder_for(&jfif).ok(), Some(DecoderKind::MrwJfif));
    let other_exif = FileSignature { exif_make: Some("Konica".to_string()), x3f: true, ..plain() };
    assert_eq!(decoder_for(&other_exif).ok(), Some(DecoderKind::X3f));
    assert_eq!(decoder_for(&FileSignature { crx: true, ..plain() }).ok(), Some(DecoderKind::Cr3));
    assert_eq!(decoder_for(&FileSignature { naked: true, ..plain() }).ok(), Some(DecoderKind::Naked));
    let none = decoder_for(&plain()).err().unwrap();
    assert_eq!((none.make.as_str(), none.model.as_str()), ("", ""));
}

#[test]
fn decoder_by_tiff_facts() {
    assert_eq!(decoder_for(&tiff(true, None, Some("Canon"), None)).ok(), Some(DecoderKind::Dng));
    assert_eq!(decoder_for(&tiff(false, Some("DCS560C"), Some("KODAK"), None)).ok(), Some(DecoderKind::Cr2));
    assert_eq!(decoder_for(&tiff(false, None, Some("NIKON CORPORATION"), None)).ok(), Some(DecoderKind::Nef));
    assert_eq!(decoder_for(&tiff(false, None, Some("NIKON"), None)).ok(), Some(DecoderKind::Nrw));
    assert_eq!(decoder_for(&tiff(false, None, None, Some("Camera Library"))).ok(), Some(DecoderKind::Mos));
    let err = decoder_for(&tiff(false, Some("X100"), Some("FUJIFILM"), Some("Camera Library"))).err().unwrap();
    assert_eq!((err.make.as_str(), err.model.as_str()), ("FUJIFILM", "X100"));
    let err = decoder_for(&tiff(false, None, Some("Foo"), None)).err().unwrap();
    assert_eq!((err.make.as_str(), err.model.as_str()), ("Foo", ""));
    assert_eq!(decoder_for(&tiff(false, None, None, Some("Other"))).err().unwrap().make, "");
}

#[test]
fn decoder_by_make() {
    let table = [
        ("Canon", DecoderKind::Cr2),
        ("PENTAX", DecoderKind::Pef),
        ("RICOH IMAGING COMPANY, LTD.", DecoderKind::Pef),
        ("Phase One A/S", DecoderKind::Iiq),
        ("Leaf", DecoderKind::Iiq),
        ("Hasselblad", DecoderKind::Tfr),
        ("SONY", DecoderKind::Arw),
        ("Mamiya-OP Co.,Ltd.", DecoderKind::Mef),
        ("OM Digital Solutions", DecoderKind::Orf),
        ("SAMSUNG", DecoderKind::Srw),
        ("SEIKO EPSON CORP.", DecoderKind::Erf),
        ("Eastman Kodak Company", DecoderKind::Kdc),
        ("KODAK", DecoderKind::Dcs),
        ("Kodak", DecoderKind::Dcr),
        ("LEICA CAMERA AG", DecoderKind::Rw2),
        ("Panasonic", DecoderKind::Rw2),
    ];
    for (make, dec) in table {
        assert_eq!(make_decoder(make), Some(dec));
    }
    assert_eq!(make_decoder("FUJIFILM"), None);
    assert_eq!(make_decoder("canon"), None);
}
