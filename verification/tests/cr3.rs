use rawler::decoders::cr3::{cr3_areas, cr3_whitelevel, Cr3MakernoteTag, Ctmd, CR3_CTMD_BLOCK_EXIFIFD};
use rawler::rational::Rational;

fn record(rec_type: u16, payload: &[u8]) -> Vec<u8> {
    let mut out = Vec::new();
    out.extend_from_slice(&((payload.len() + 12) as u32).to_le_bytes());
    out.extend_from_slice(&rec_type.to_le_bytes());
    out.extend_from_slice(&[1, 2, 3, 4, 0xff, 0x80]);
    out.extend_from_slice(payload);
    out
}

fn block(tag: u16, data: &[u8]) -> Vec<u8> {
    let mut out = Vec::new();
    out.extend_from_slice(&((data.len() + 8) as u32).to_le_bytes());
    out.extend_from_slice(&tag.to_le_bytes());
    out.extend_from_slice(&[0, 0]);
    out.extend_from_slice(data);
    out
}

fn section() -> Vec<u8> {
    let mut data = Vec::new();
    data.extend(record(4, &[0x32, 0, 0x0a, 0]));
    let mut exposure = Vec::new();
    exposure.extend_from_slice(&[28, 0, 10, 0, 1, 0, 250, 0]);
    exposure.extend_from_slice(&400u32.to_le_bytes());
    exposure.extend_from_slice(&[0xaa, 0xbb]);
    data.extend(record(5, &exposure));
    let mut blocks = Vec::new();
    blocks.extend(block(CR3_CTMD_BLOCK_EXIFIFD, &[1, 2, 3]));
    blocks.extend(block(0x1111, &[9]));
    blocks.extend_from_slice(&[7, 7, 7]);
    data.extend(record(7, &blocks));
    // a later focal length record replaces the first
    data.extend(record(4, &[0x64, 0, 1, 0]));
    // too short for a record header
    data.extend_from_slice(&[0, 0, 0, 0, 0]);
    data
}

#[test]
fn ctmd_records() {
    let ctmd = Ctmd::new(&section());
    assert_eq!(ctmd.records.len(), 3);
    let rec4 = &ctmd.records[&4];
    assert_eq!(rec4.rec_size, 16);
    assert_eq!(rec4.payload, vec![0x64, 0, 1, 0]);
    assert_eq!(rec4.reserved1, 1);
    assert_eq!(rec4.reserved4, 4);
    assert_eq!(rec4.reserved5, -1);
    assert_eq!(rec4.reserved6, -128);
    assert!(rec4.blocks.is_empty());
    let rec7 = &ctmd.records[&7];
    assert_eq!(rec7.blocks.len(), 1);
    assert_eq!(rec7.blocks[&CR3_CTMD_BLOCK_EXIFIFD], vec![1, 2, 3]);
}

#[test]
fn ctmd_exposure_and_focal_length() {
    let ctmd = Ctmd::new(&section());
    let exp = ctmd.exposure_info().expect("record 5 is there");
    assert_eq!(exp.fnumber, Rational::new(28, 10));
    assert_eq!(exp.exposure, Rational::new(1, 250));
    assert_eq!(exp.iso_speed, 400);
    assert_eq!(exp.unknown, vec![0xaa, 0xbb]);
    assert_eq!(ctmd.focal_len(), Some(Rational::new(100, 1)));
}

#[test]
fn ctmd_empty() {
    let ctmd = Ctmd::new(&[0, 1, 2]);
    assert!(ctmd.records.is_empty());
    assert!(ctmd.exposure_info().is_none());
    assert!(ctmd.focal_len().is_none());
}

#[test]
fn cr3_tags() {
    assert_eq!(Cr3MakernoteTag::ColorData.value(), 0x4001);
    assert_eq!(Cr3MakernoteTag::n(0x0095), Some(Cr3MakernoteTag::LensModel));
    assert_eq!(u16::from(Cr3MakernoteTag::CameraSettings), 1);
}

#[test]
fn cr3_white_level_and_areas() {
    assert_eq!(cr3_whitelevel(Some(15000), Some(14)), 15000);
    assert_eq!(cr3_whitelevel(None, Some(14)), 16383);
    assert_eq!(cr3_whitelevel(None, None), 65535);
    let (crop, active) = cr3_areas(false, (10, 20, 99, 199), (0, 0, 0, 0), 120, 220);
    assert_eq!(crop, (10, 20, 100, 200));
    assert_eq!(active, crop);
    let (crop, active) = cr3_areas(true, (10, 20, 99, 199), (4, 6, 500, 205), 120, 220);
    assert_eq!(crop, (10, 20, 100, 200));
    assert_eq!(active, (4, 6, 120, 204));
}
