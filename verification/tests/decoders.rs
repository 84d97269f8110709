use rawler::decoders::ari::{char_slice_to_string, is_ari};
use rawler::decoders::arw::{sony_tag9cxx_decipher, sony_tag9cxx_decipher_table, ArwMakernoteTag, SR2SubIFD};
use rawler::decoders::mrw::{is_mrw, MRW_MAGIC};
use rawler::decoders::orf::{makernote_offset, OrfMakernotes};
use rawler::decoders::pef::{transfer_exif_tag, PefMakernote};
use rawler::decoders::qtk::{is_qtk, qtk_header, qtk_orientation};
use rawler::decoders::raf::{fuji_raw_rotate, is_raf, RafTags};
use rawler::decoders::rw2::PanasonicTag;
use rawler::decoders::srw::SrwMakernote;
use rawler::decoders::x3f::{is_x3f, X3fError, X3fFile};
use rawler::decoders::{supported_extensions, DecoderCache, Orientation, RawDecodeParams};

#[test]
fn magic_checks() {
    assert!(is_ari(b"ARRI\x12\x34"));
    assert!(!is_ari(b"ARR"));
    assert!(is_mrw(&[0x00, 0x4d, 0x52, 0x4d, 0x00]));
    assert!(!is_mrw(&[0x4d, 0x52, 0x4d, 0x00]));
    assert_eq!(MRW_MAGIC, 0x004D524D);
    assert!(is_qtk(b"qktk"));
    assert!(is_qtk(b"qktn...."));
    assert!(!is_qtk(b"qkt"));
    assert!(is_raf(b"FUJIFILMCCD-RAW"));
    assert!(!is_raf(b"FUJIFIL"));
    assert!(is_x3f(b"FOVb...."));
    assert!(!is_x3f(b"FOVa"));
}

#[test]
fn ari_strings() {
    assert_eq!(char_slice_to_string(b"ALEXA\0garbage"), Some("ALEXA".to_string()));
    assert_eq!(char_slice_to_string(b"MINI"), Some("MINI".to_string()));
    assert_eq!(char_slice_to_string(&[0xe9, 0]), Some("\u{e9}".to_string()));
}

#[test]
fn supported_extensions_list() {
    let exts = supported_extensions();
    assert!(exts.contains(&"ARW"));
    assert!(exts.contains(&"NEF"));
    assert!(exts.contains(&"X3F"));
    assert!(exts.iter().all(|e| e.to_uppercase() == *e));
}

#[test]
fn orientation_values() {
    assert_eq!(Orientation::from_u16(1), Orientation::Normal);
    assert_eq!(Orientation::from_u16(6), Orientation::Rotate90);
    assert_eq!(Orientation::from_u16(9), Orientation::Unknown);
    assert_eq!(Orientation::Rotate270.to_u16(), 8);
    assert_eq!(Orientation::Unknown.to_u16(), 0);
    assert_eq!(Orientation::Rotate90.to_flips(), (true, false, true));
    assert_eq!(Orientation::from_flips((true, true, false)), Orientation::Rotate270);
    for v in 1..=8u16 {
        let o = Orientation::from_u16(v);
        assert_eq!(o.to_u16(), v);
        assert_eq!(Orientation::from_flips(o.to_flips()), o);
    }
}

#[test]
fn sony_decipher() {
    let table = sony_tag9cxx_decipher_table();
    assert_eq!(table[8], 2);
    assert_eq!(table[27], 3);
    assert_eq!(table[64], 4);
    assert_eq!(table[250], 250);
    for i in 0..249usize {
        assert_eq!(table[(i * i * i) % 249] as usize, i);
    }
    assert_eq!(sony_tag9cxx_decipher(&[8, 27, 250]), vec![2, 3, 250]);
}

#[test]
fn raf_rotate() {
    // 3 wide, 2 high
    let img = [1u16, 2, 3, 4, 5, 6];
    let rot = fuji_raw_rotate(&img, 3, 2);
    assert_eq!(rot, vec![1, 4, 2, 5, 3, 6]);
    assert_eq!(fuji_raw_rotate(&rot, 2, 3), img.to_vec());
}

#[test]
fn x3f_too_small() {
    assert!(matches!(X3fFile::new(b"FOV"), Err(X3fError::FileTooSmall)));
}

#[test]
fn tag_numbers() {
    assert_eq!(PanasonicTag::n(PanasonicTag::CF2ClipVal.value()), Some(PanasonicTag::CF2ClipVal));
    assert_eq!(u16::from(SrwMakernote::LensModel), 0xa003);
    assert_eq!(SrwMakernote::n(0xa021), Some(SrwMakernote::SrwRGGBLevels));
    assert_eq!(SrwMakernote::n(0x0001), None);
    assert_eq!(OrfMakernotes::n(OrfMakernotes::EquipmentIFD.value()), Some(OrfMakernotes::EquipmentIFD));
    assert_eq!(RafTags::n(0xffff), None);
    assert_eq!(ArwMakernoteTag::n(ArwMakernoteTag::Tag_9050.value()), Some(ArwMakernoteTag::Tag_9050));
    assert_eq!(SR2SubIFD::n(SR2SubIFD::WhiteLevel.value()), Some(SR2SubIFD::WhiteLevel));
    assert!(PefMakernote::n(0x0005).is_some());
}

#[test]
fn pef_transfer_tags() {
    assert!(transfer_exif_tag(0x829a));
    assert!(transfer_exif_tag(0x9201));
    assert!(!transfer_exif_tag(0x0112));
}

#[test]
fn orf_makernote_offsets() {
    assert_eq!(makernote_offset(b"OLYMP\0\x01\0II"), 8);
    assert_eq!(makernote_offset(b"OLYMPUS\0II\x03\0"), 12);
    assert_eq!(makernote_offset(b"OM SYSTEM\0\0\0II\x04\0"), 16);
    assert_eq!(makernote_offset(b"\x0a\0\x01\x02\x03\x04\x05\x06\x07"), 0);
}

#[test]
fn decoder_cache_keeps_values() {
    let mut cache: DecoderCache<u32> = DecoderCache::new();
    let p0 = RawDecodeParams { image_index: 0 };
    let p1 = RawDecodeParams { image_index: 1 };
    assert_eq!(cache.get(&p0), None);
    cache.set(&p0, 7);
    assert_eq!(cache.get(&p0), Some(7));
    assert_eq!(cache.get(&p1), None);
    cache.set(&p0, 9);
    assert_eq!(cache.get(&p0), Some(9));
}

#[test]
fn qtk_metadata() {
    let mut meta = vec![0u8; 16];
    meta[0..2].copy_from_slice(&480u16.to_be_bytes());
    meta[2..4].copy_from_slice(&640u16.to_be_bytes());
    meta[8..10].copy_from_slice(&30u16.to_be_bytes());
    assert_eq!(qtk_header(&meta), (640, 480, 738, false));
    meta[0..2].copy_from_slice(&700u16.to_be_bytes());
    meta[8..10].copy_from_slice(&0u16.to_be_bytes());
    assert_eq!(qtk_header(&meta), (700, 640, 736, true));
    assert_eq!(qtk_orientation(0xfffc), Orientation::Rotate90);
    assert_eq!(qtk_orientation(0x0001), Orientation::Rotate90);
    assert_eq!(qtk_orientation(0x0003), Orientation::Rotate270);
}

#[test]
fn sony_decipher_inverts_cube() {
    assert_eq!(sony_tag9cxx_decipher(&[8, 27, 0, 1, 250]), vec![2, 3, 0, 1, 250]);
    for v in 0..=255u8 {
        let d = sony_tag9cxx_decipher(&[v])[0] as u32;
        let back = if d < 249 { (d * d * d) % 249 } else { d };
        assert_eq!(back, v as u32);
    }
}
