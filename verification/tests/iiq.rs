use rawler::decoders::iiq::makernote::{new_makernote, IiqError};
use rawler::decoders::iiq::calibration::{parse_sensor_calibration, CalibrationError, FlatFieldData};
use rawler::decoders::iiq::{correct_raw_blacklevel, decode_uncompressed, green_from_diagonals, IiqCompression};

#[test]
fn iiq_compression_codes() {
    assert_eq!(IiqCompression::from_code(0), Some(IiqCompression::Uncompressed));
    assert_eq!(IiqCompression::from_code(3), Some(IiqCompression::IIQ_L));
    assert_eq!(IiqCompression::from_code(5), Some(IiqCompression::IIQ_S));
    assert_eq!(IiqCompression::from_code(6), Some(IiqCompression::IIQ_Sv2));
    assert_eq!(IiqCompression::from_code(8), Some(IiqCompression::IIQ_L16));
    assert_eq!(IiqCompression::from_code(4), None);
    assert_eq!(IiqCompression::from_code(7), None);
}

#[test]
fn iiq_uncompressed_14bit() {
    // 2 x 2 pixels, little-endian words shifted up by two bits
    let buf = [0x01, 0x00, 0xff, 0x3f, 0x00, 0x40, 0x34, 0x12, 0xaa];
    let out = decode_uncompressed(&buf, 2, 2, 14);
    assert_eq!(out, vec![4, 0xfffc, 0x0000, 0x48d0]);
    let out16 = decode_uncompressed(&buf, 2, 2, 16);
    assert_eq!(out16, vec![1, 0x3fff, 0x4000, 0x1234]);
}

#[test]
fn iiq_quadrant_blacklevel() {
    // 2 x 2 image split after the first row and column
    let mut img = vec![100, 200, 300, 65000];
    let cblack = [1, 2, 3, 4];
    let rblack = [10, 20, 30, 40];
    correct_raw_blacklevel(&mut img, 2, 2, 50, 1, 1, &cblack, &rblack);
    // (0,0): 100-50+1+10, (0,1): 200-50+2+30, (1,0): 300-50+3+20, (1,1): 65000-50+4+40
    assert_eq!(img, vec![61, 182, 273, 65000 - 50 + 4 + 40]);
    let mut dark = vec![10];
    correct_raw_blacklevel(&mut dark, 1, 1, 50, 0, 0, &[-5, 0], &[0, 0]);
    assert_eq!(dark, vec![0]);
    let mut bright = vec![65530];
    correct_raw_blacklevel(&mut bright, 1, 1, 0, 0, 0, &[0, 10], &[0, 10]);
    assert_eq!(bright, vec![65535]);
}

#[test]
fn iiq_green_of_bad_column() {
    // the outlier 400 is left out: (100 + 110 + 120 + 1) / 3
    assert_eq!(green_from_diagonals([100, 400, 110, 120]), 110);
    // all equal: the first is left out
    assert_eq!(green_from_diagonals([90, 90, 90, 90]), 90);
    // two equally far: the first of them is left out
    assert_eq!(green_from_diagonals([0, 10, 10, 20]), 13);
}

fn le32(v: &mut Vec<u8>, x: u32) {
    v.extend_from_slice(&x.to_le_bytes());
}

fn le16(v: &mut Vec<u8>, x: u16) {
    v.extend_from_slice(&x.to_le_bytes());
}

/// A calibration block at offset 4 of the returned bytes, with the given
/// entries (tag, length, data offset) and data appended from block offset 128.
fn calibration_block(entries: &[(u32, u32, u32)], data: &[u8]) -> Vec<u8> {
    let mut b = vec![0xee; 4];
    // block header: 8 bytes, then the offset of the entry count
    b.extend_from_slice(&[0; 8]);
    le32(&mut b, 12);
    le32(&mut b, entries.len() as u32);
    le32(&mut b, 0);
    for &(tag, len, off) in entries {
        le32(&mut b, tag);
        le32(&mut b, len);
        le32(&mut b, off);
    }
    while b.len() < 4 + 128 {
        b.push(0);
    }
    b.extend_from_slice(data);
    b
}

#[test]
fn iiq_calibration_entries() {
    let mut data = Vec::new();
    // defects at 128: two of them (length 8)
    for x in [10u16, 20, 131, 0, 11, 21, 129, 7] {
        le16(&mut data, x);
    }
    // full polynomial at 144
    for x in [1u32, 2, 3, 0x3f80_0000] {
        le32(&mut data, x);
    }
    // flat field 0x410 at 160: eight header words and two samples
    for x in [1u16, 2, 3, 4, 5, 6, 7, 8, 16384, 32768] {
        le16(&mut data, x);
    }
    let b = calibration_block(&[(0x400, 8, 128), (0x41a, 16, 144), (0x999, 4, 0), (0x410, 12, 160)], &data);
    let cal = parse_sensor_calibration(&b, 4).unwrap();
    let defects = cal.defects.unwrap();
    assert_eq!(defects.len(), 2);
    assert_eq!((defects[0].col, defects[0].row, defects[0].typ, defects[0].reserved), (10, 20, 131, 0));
    assert_eq!((defects[1].col, defects[1].row, defects[1].typ, defects[1].reserved), (11, 21, 129, 7));
    assert_eq!(cal.poly_curve_full, Some(vec![1, 2, 3, 0x3f80_0000]));
    assert_eq!(cal.poly_curve_half, None);
    assert_eq!(cal.flats.len(), 1);
    assert_eq!(cal.flats[0].typ, 0x410);
    assert_eq!(cal.flats[0].head, vec![1, 2, 3, 4, 5, 6, 7, 8]);
    match &cal.flats[0].data {
        FlatFieldData::Fixed(v) => assert_eq!(v, &vec![16384, 32768]),
        FlatFieldData::Floats(_) => panic!("fixed point samples expected"),
    }
}

#[test]
fn iiq_calibration_errors() {
    let data = vec![0u8; 16];
    let b = calibration_block(&[(0x41a, 12, 128)], &data);
    assert_eq!(parse_sensor_calibration(&b, 4).err(), Some(CalibrationError::Malformed(0x41a)));
    let b = calibration_block(&[(0x41e, 76, 128)], &data);
    assert_eq!(parse_sensor_calibration(&b, 4).err(), Some(CalibrationError::Truncated));
    // the entry table runs past the end
    let mut b = calibration_block(&[], &[]);
    b[16] = 3;
    b.truncate(4 + 20 + 12);
    assert_eq!(parse_sensor_calibration(&b, 4).err(), Some(CalibrationError::Truncated));
    assert_eq!(parse_sensor_calibration(&[0; 10], 0).err(), Some(CalibrationError::Truncated));
    // an empty table
    let cal = parse_sensor_calibration(&calibration_block(&[], &[]), 4).unwrap();
    assert!(cal.defects.is_none() && cal.flats.is_empty());
}

/// A file with an IIQ makernote at offset 8: the entries (tag, type, count,
/// data) start at makernote offset 32; `text` is stored at makernote offset 16.
fn iiq_file(entries: &[(u32, u32, u32, u32)], text: &[u8]) -> Vec<u8> {
    let mut b = vec![0u8; 8];
    b.extend_from_slice(&[0; 8]);
    le32(&mut b, 24);
    b.extend_from_slice(&[0; 4]);
    b.extend_from_slice(text);
    while b.len() < 8 + 24 {
        b.push(0);
    }
    le32(&mut b, entries.len() as u32);
    le32(&mut b, 0);
    for &(tag, typ, count, data) in entries {
        le32(&mut b, tag);
        le32(&mut b, typ);
        le32(&mut b, count);
        le32(&mut b, data);
    }
    b
}

#[test]
fn iiq_makernote_values() {
    let b = iiq_file(
        &[
            (0x108, 4, 4, 7000),
            (0x109, 4, 4, 5000),
            (0x10e, 2, 2, 3),
            (0x110, 1, 100, 500),
            (0x410, 1, 4, 16),
            (0x10f, 4, 4, 1234),
            (0x21d, 4, 4, 0x1_0040),
            (0x999, 9, 4, 1),
        ],
        b"IQ3 ",
    );
    let m = new_makernote(&b, 8).unwrap();
    assert_eq!(m.dimension(), Ok((7000, 5000)));
    assert_eq!(m.compression_mode(), Ok(IiqCompression::IIQ_L));
    // the sensor correction offset is made absolute
    assert_eq!(m.long(0x110), Some((100, 508)));
    assert_eq!(m.camera_model(), Some(b"IQ3 ".to_vec()));
    assert_eq!(m.lens_model(), None);
    assert_eq!(m.data_offset(), Ok((1242, 4)));
    assert_eq!(m.blacklevel(), Ok(0x40));
    assert_eq!(m.sensor_margins(), None);
    assert_eq!(m.split_offsets(), None);
    assert_eq!(m.wb_offset(), Err(IiqError::Missing(0x107)));
    assert_eq!(m.long(0x999), None);
}

#[test]
fn iiq_makernote_errors() {
    let b = iiq_file(&[(0x108, 4, 4, 7000)], b"");
    let m = new_makernote(&b, 8).unwrap();
    assert_eq!(m.dimension(), Err(IiqError::Missing(0x109)));
    let b = iiq_file(&[(0x10e, 4, 4, 4)], b"");
    assert_eq!(new_makernote(&b, 8).unwrap().compression_mode(), Err(IiqError::UnsupportedFormat(4)));
    // a text that runs past the end
    let b = iiq_file(&[(0x412, 1, 400, 16)], b"");
    assert_eq!(new_makernote(&b, 8).err(), Some(IiqError::Truncated));
    let b = iiq_file(&[(0x110, 1, 4, 0xffff_fffc)], b"");
    assert_eq!(new_makernote(&b, 8).err(), Some(IiqError::OffsetOverflow));
    let mut b = iiq_file(&[(0x108, 4, 4, 7000)], b"");
    b.pop();
    assert_eq!(new_makernote(&b, 8).err(), Some(IiqError::Truncated));
}

#[test]
fn iiq_split_blacks() {
    // black columns at file offset 100 (words from 108), rows at 200 (from 208)
    let mut b = iiq_file(&[(0x223, 4, 4, 100), (0x225, 4, 6, 200)], b"");
    b.resize(220, 0);
    b[108..112].copy_from_slice(&[0xff, 0xff, 5, 0]);
    b[208..214].copy_from_slice(&[1, 0, 0xfe, 0xff, 7, 0]);
    let m = new_makernote(&b, 8).unwrap();
    assert_eq!(m.split_blacks(&b), Ok(Some((vec![-1, 5], vec![1, -2, 7]))));
    assert_eq!(m.split_blacks(&b[..212]), Err(IiqError::Truncated));
    let none = new_makernote(&iiq_file(&[(0x223, 4, 4, 100)], b""), 8).unwrap();
    assert_eq!(none.split_blacks(&b), Ok(None));
}

#[test]
fn iiq_sensor_correction() {
    // the calibration block at file offset 300, with one 0x41a entry
    let mut b = iiq_file(&[(0x110, 1, 100, 292), (0x10a, 4, 4, 16), (0x10b, 4, 4, 24)], b"");
    b.resize(300, 0);
    let mut data = Vec::new();
    for x in [1u32, 2, 3, 4] {
        le32(&mut data, x);
    }
    let block = calibration_block(&[(0x41a, 16, 128)], &data);
    b.extend_from_slice(&block[4..]);
    let m = new_makernote(&b, 8).unwrap();
    let c = m.new_sensor_correction(&b, 512).unwrap();
    assert_eq!(c.blacklevel, 512);
    assert_eq!(c.sensor_margins, (16, 24));
    assert!(c.q_blacklevel.is_none());
    assert_eq!(c.calibration.poly_curve_full, Some(vec![1, 2, 3, 4]));
    let none = new_makernote(&iiq_file(&[(0x108, 4, 4, 1)], b""), 8).unwrap();
    assert_eq!(none.new_sensor_correction(&b, 0).err(), Some(IiqError::Missing(0x110)));
    assert_eq!(m.new_sensor_correction(&b[..320], 0).err(), Some(IiqError::Calibration(CalibrationError::Truncated)));
}
