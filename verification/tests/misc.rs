use rawler::analyze::rgb8_as_ppm8;
use rawler::buffer::PaddedBuf;
use rawler::decoders::nef::lensdata::{
    lensdata_version, parse_lensdata, parse_lensdata_0x100, parse_lensdata_0x4xx, LensDataError, NefLensData,
};
use rawler::decoders::camera::{Camera, CameraError, CameraParam};
use rawler::decoders::kdc::decode_dc120;
use rawler::decoders::mos::deinterlace;
use rawler::decoders::mrw::{mly_wb, parse_mrw_blocks};
use rawler::decoders::nef::NikonMakernote;
use rawler::rational::{Rational, SRational};

#[test]
fn ppm8_header_and_data() {
    let out = rgb8_as_ppm8(2, 1, &[1, 2, 3, 4, 5, 6]);
    let mut expect = b"P6 2 1 255\n".to_vec();
    expect.extend_from_slice(&[1, 2, 3, 4, 5, 6]);
    assert_eq!(out, expect);
    assert_eq!(rgb8_as_ppm8(640, 0, &[]), b"P6 640 0 255\n".to_vec());
}

#[test]
fn padded_buffers() {
    let owned = PaddedBuf::new_owned(vec![1, 2, 3, 0, 0], 3);
    assert_eq!(owned.size(), 3);
    assert_eq!(owned.real_size(), 5);
    assert_eq!(owned.buf(), &[1, 2, 3, 0, 0]);
    let data = [9u8, 8, 7];
    let by_ref = PaddedBuf::new_ref(&data, 2);
    assert_eq!(by_ref.size(), 2);
    assert_eq!(by_ref.real_size(), 3);
    assert_eq!(by_ref.buf(), &data);
}

#[test]
fn rationals() {
    let r = Rational::new(1, 250);
    assert_eq!((r.n, r.d), (1, 250));
    let s = SRational::new(-1, 3);
    assert_eq!((s.n, s.d), (-1, 3));
}

#[test]
fn lensdata_versions() {
    assert_eq!(lensdata_version(b"0100"), 0x100);
    assert_eq!(lensdata_version(b"00@0"), 0x100);
    assert_eq!(lensdata_version(b"0204xyz"), 0x204);
    assert_eq!(lensdata_version(b"0800"), 0x800);
}

#[test]
fn lensdata_0100() {
    let buf = [b'0', b'1', b'0', b'0', 0, 0, 0x58, 0x3c, 0x8e, 0x34, 0x3c, 0x00, 0x06];
    let d = parse_lensdata_0x100(0x100, &buf).expect("long enough");
    assert_eq!(d.lens_id_number, 0x58);
    assert_eq!(d.mcu_version, 0x06);
    assert_eq!(d.composite_id(0x06), "58 3C 8E 34 3C 00 06 06");
    assert!(matches!(parse_lensdata_0x100(0x100, &buf[..12]), Err(LensDataError::Eof)));
    let same = parse_lensdata(0x100, &buf).expect("long enough");
    assert_eq!(same.lens_fstops, 0x3c);
}

#[test]
fn lensdata_0400_model() {
    let mut buf = vec![b' '; 0x18a + 64];
    buf[0x18a..0x18a + 9].copy_from_slice(b"  NIKKOR ");
    let d = parse_lensdata_0x4xx(0x400, &buf, 0x18a).expect("4.xx records always parse");
    assert_eq!(d.lens_model.as_deref(), Some("NIKKOR"));
    let short = parse_lensdata_0x4xx(0x400, &buf[..0x100], 0x18a).expect("4.xx records always parse");
    assert_eq!(short.lens_model, None);
}

#[test]
fn nikon_tags() {
    assert_eq!(NikonMakernote::n(NikonMakernote::LensData.value()), Some(NikonMakernote::LensData));
}

#[test]
fn dc120_rows_are_rotated() {
    let src: Vec<u8> = (0..900u32).map(|i| (i % 251) as u8).collect();
    let out = decode_dc120(&src, 30, 4);
    assert_eq!(out.len(), 120);
    assert_eq!(out[0], 0);
    assert_eq!(out[29], 29);
    assert_eq!(out[30], 105);
    assert_eq!(out[30 + 19], 124);
    // column 20 of row 1 wraps round to the start of the span
    assert_eq!(out[30 + 20], 30);
    assert_eq!(out[30 + 29], 39);
    assert_eq!(out[60 + 5], 110);
    assert_eq!(out[90 + 7], 83);
}

#[test]
fn mos_interlaced_rows() {
    // stored rows 0..5 of a 2-wide image; row r holds r in both columns
    let px: Vec<u16> = (0..5u16).flat_map(|r| [r, r]).collect();
    let out = deinterlace(&px, 2, 5);
    // even rows from the top, odd rows from the bottom up
    assert_eq!(out, vec![0, 0, 2, 2, 4, 4, 3, 3, 1, 1]);
    let px4: Vec<u16> = (0..4u16).flat_map(|r| [r, 10 + r, 20 + r]).collect();
    assert_eq!(deinterlace(&px4, 3, 4), vec![0, 10, 20, 2, 12, 22, 3, 13, 23, 1, 11, 21]);
}

fn mrw_block(tag: &[u8; 4], payload: &[u8]) -> Vec<u8> {
    let mut b = tag.to_vec();
    b.extend_from_slice(&(payload.len() as u32).to_be_bytes());
    b.extend_from_slice(payload);
    b
}

#[test]
fn mrw_header_blocks() {
    let mut prd = vec![0u8; 24];
    prd[8..10].copy_from_slice(&2000u16.to_be_bytes());
    prd[10..12].copy_from_slice(&3000u16.to_be_bytes());
    prd[16] = 12;
    let wbg = [0, 0, 0, 0, 1, 2, 1, 0, 1, 0, 1, 3];
    let mut blocks = mrw_block(b"\0PRD", &prd);
    blocks.extend(mrw_block(b"\0WBG", &wbg));
    blocks.extend(mrw_block(b"\0TTW", &[0; 40]));
    blocks.extend(mrw_block(b"\0PAD", &[0; 8]));
    let mut file = b"\0MRM".to_vec();
    file.extend_from_slice(&(blocks.len() as u32).to_be_bytes());
    file.extend(blocks);
    file.extend_from_slice(&[0; 16]);
    let b = parse_mrw_blocks(&file).unwrap();
    assert_eq!(b.data_offset, file.len() - 16);
    assert_eq!((b.raw_height, b.raw_width, b.packed), (2000, 3000, true));
    assert_eq!(b.wb_vals, (258, 256, 256, 259));
    assert_eq!(b.tiffpos, 8 + 32 + 20 + 8);
    // a block length that overflows 32 bits
    let mut bad = file.clone();
    bad[8 + 32 + 4..8 + 32 + 8].copy_from_slice(&0xffff_fffcu32.to_be_bytes());
    assert!(parse_mrw_blocks(&bad).is_none());
    assert!(parse_mrw_blocks(&file[..6]).is_none());
}

#[test]
fn mrw_mly_white_balance() {
    let words: [u16; 10] = [5, 300, 400, 256, 256, 7, 500, 600, 256, 256];
    let file: Vec<u8> = words.iter().flat_map(|w| w.to_be_bytes()).collect();
    // the last record wins; the window needs four words
    assert_eq!(mly_wb(&file, 20), (500, 256, 256, 600));
    assert_eq!(mly_wb(&file, 16), (300, 256, 256, 400));
    assert_eq!(mly_wb(&file, 8), (1, 1, 1, 1));
    assert_eq!(mly_wb(&file[..19], 100), (300, 256, 256, 400));
}

#[test]
fn nef_lens_data_default() {
    let d = NefLensData::default();
    assert_eq!(d.version, 0);
    assert_eq!(d.lens_id_number, 0);
    assert!(d.lens_model.is_none());
}

#[test]
fn padded_buffer_derefs_to_its_bytes() {
    let b = PaddedBuf::new_owned(vec![1, 2, 3, 0, 0], 3);
    assert_eq!(&b[..], &[1, 2, 3, 0, 0]);
    assert_eq!(b.len(), 5);
}

#[test]
fn camera_definition_entries() {
    let mut cam = Camera::new();
    assert_eq!(cam.whitelevels, (65535, 65535, 65535, 65535));
    assert_eq!(cam.real_bps, 16);
    let params = vec![
        CameraParam::Make("Canon".to_string()),
        CameraParam::WhitePoint(15000),
        CameraParam::BlackAreaH(vec![0, 40]),
        CameraParam::ActiveArea(vec![10, 20, 30]),
        CameraParam::ColorPattern("RGGB".to_string()),
        CameraParam::DefaultScale(vec![vec![1, 2], vec![3, 4]]),
        CameraParam::Hints(vec!["double_line".to_string()]),
        CameraParam::Ignored,
    ];
    assert_eq!(cam.update_from_params(&params), Ok(()));
    assert_eq!(cam.make, "Canon");
    assert_eq!(cam.whitelevels, (15000, 15000, 15000, 15000));
    assert_eq!(cam.blackareah, Some((0, 40)));
    assert_eq!(cam.active_area, Some((10, 20, 30, 0)));
    assert_eq!(cam.cfa.to_string(), "RGGB");
    assert_eq!(cam.default_scale, ((1, 2), (3, 4)));
    assert_eq!(cam.hints, vec!["double_line".to_string()]);
    let bad = vec![CameraParam::Bps(14), CameraParam::BlackAreaV(vec![1]), CameraParam::Bps(12)];
    assert_eq!(cam.update_from_params(&bad), Err((1, CameraError::BadArray)));
    assert_eq!(cam.bps, 14);
    assert_eq!(cam.update_from_param(&CameraParam::ColorPattern("RGX".to_string())), Err(CameraError::BadPattern));
    assert_eq!(cam.update_from_param(&CameraParam::Unknown("foo".to_string())), Err(CameraError::UnknownKey));
    assert_eq!(cam.cfa.to_string(), "RGGB");
}
