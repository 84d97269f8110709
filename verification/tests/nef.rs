use rawler::decoders::nef::meta::parse_nef_meta;
use rawler::decoders::nef::wb::{key_number, nef_wb1, serial_number, NefWbError};
use rawler::decoders::nef::layout::{
    is_uncompressed, nef_decoding, NefCompression, NefDecoding, NefHints, NefLayoutError,
};

fn no_hints() -> NefHints {
    NefHints { d100: false, coolpixsplit: false, msb32: false, unpacked: false, little_endian: false, big_endian: false }
}

#[test]
fn nef_compression_codes() {
    assert_eq!(NefCompression::from_code(1), Some(NefCompression::LossyType1));
    assert_eq!(NefCompression::from_code(10), Some(NefCompression::Packed14Bits));
    assert_eq!(NefCompression::from_code(14), Some(NefCompression::HighEfficencyStar));
    assert_eq!(NefCompression::from_code(11), None);
    assert_eq!(NefCompression::from_code(0), None);
}

#[test]
fn nef_uncompressed_padding() {
    // exact size of 4 x 2 pixels of 12 bits
    assert_eq!(is_uncompressed(4, 2, 12, 34713, 12), Some(0));
    // tagged uncompressed
    assert_eq!(is_uncompressed(4, 2, 12, 1, 999), Some(0));
    // rows padded by 5 bytes each
    assert_eq!(is_uncompressed(4, 2, 12, 34713, 22), Some(5));
    // uneven padding
    assert_eq!(is_uncompressed(4, 2, 12, 34713, 23), None);
    // padding of 16 bytes per row is too much
    assert_eq!(is_uncompressed(4, 2, 12, 34713, 44), None);
    // too short
    assert_eq!(is_uncompressed(4, 2, 12, 34713, 11), None);
    // bits that do not fill the last byte are rounded up
    assert_eq!(is_uncompressed(3, 1, 14, 34713, 8), Some(2));
}

#[test]
fn nef_layout_choice() {
    let h = no_hints();
    assert_eq!(
        nef_decoding(&h, true, Some(NefCompression::HighEfficency), 4, 2, 12, 1, 12),
        Err(NefLayoutError::UnsupportedNefCompression(NefCompression::HighEfficency))
    );
    let d100 = NefHints { d100: true, ..no_hints() };
    assert_eq!(nef_decoding(&d100, true, None, 4, 2, 12, 1, 12), Ok(NefDecoding::Be12WithControl));
    let unpacked = NefHints { unpacked: true, ..no_hints() };
    assert_eq!(nef_decoding(&unpacked, true, None, 4, 2, 12, 1, 12), Ok(NefDecoding::Le16));
    let unpacked_be = NefHints { unpacked: true, big_endian: true, ..no_hints() };
    assert_eq!(nef_decoding(&unpacked_be, true, None, 4, 2, 12, 1, 12), Ok(NefDecoding::Be16));
    assert_eq!(
        nef_decoding(&h, true, Some(NefCompression::Packed14Bits), 4, 2, 14, 34713, 24),
        Ok(NefDecoding::Le14Padded { stride: 7 + 5 })
    );
    assert_eq!(nef_decoding(&h, true, None, 4, 2, 14, 34713, 14), Ok(NefDecoding::Le14Unpacked));
    assert_eq!(nef_decoding(&h, false, None, 4, 2, 14, 34713, 14), Ok(NefDecoding::Be14Unpacked));
    assert_eq!(nef_decoding(&h, true, None, 4, 2, 12, 34713, 12), Ok(NefDecoding::Le12Padded { stride: 6 }));
    assert_eq!(nef_decoding(&h, false, None, 4, 2, 12, 34713, 12), Ok(NefDecoding::Be12));
    assert_eq!(nef_decoding(&h, false, None, 4, 2, 16, 34713, 16), Err(NefLayoutError::UnsupportedBps(16)));
    assert_eq!(nef_decoding(&h, false, None, 12, 1, 12, 34713, 36), Ok(NefDecoding::Snef));
    assert_eq!(nef_decoding(&h, false, None, 4, 2, 12, 34713, 9), Ok(NefDecoding::Compressed));
    assert_eq!(nef_decoding(&h, false, None, 4, 2, 12, 7, 9), Err(NefLayoutError::UnsupportedCompression(7)));
}

fn be16s(v: &[u16]) -> Vec<u8> {
    v.iter().flat_map(|x| x.to_be_bytes()).collect()
}

fn le16s(v: &[u16]) -> Vec<u8> {
    v.iter().flat_map(|x| x.to_le_bytes()).collect()
}

#[test]
fn nef_meta_interpolated_curve() {
    let mut m = vec![68u8, 32];
    m.extend(be16s(&[100, 200, 300, 400, 5]));
    m.extend(be16s(&[0, 500, 1500, 3000, 4095]));
    m.resize(564, 0);
    m[563] = 7;
    let meta = parse_nef_meta(&m, true, 12).unwrap();
    assert_eq!(meta.huff_select, 0);
    assert_eq!(meta.pred_up1, (100, 200));
    assert_eq!(meta.pred_up2, (300, 400));
    assert_eq!(meta.real_bps, 12);
    assert_eq!(meta.split, 7);
    assert_eq!(meta.curve.len(), 4096);
    assert_eq!(&meta.curve[..3], &[0, 0, 0]);
    assert_eq!(&meta.curve[1023..1026], &[499, 500, 500]);
    assert_eq!(&meta.curve[2047..2050], &[1499, 1500, 1501]);
    assert_eq!(&meta.curve[4094..], &[4092, 4093]);
    // the split row lies past the end
    assert!(parse_nef_meta(&m[..563], true, 12).is_none());
}

#[test]
fn nef_meta_plain_and_identity_curves() {
    let mut m = vec![71u8, 0];
    m.extend(le16s(&[1, 2, 3, 4, 3, 9, 8, 7]));
    let meta = parse_nef_meta(&m, false, 14).unwrap();
    assert_eq!(meta.huff_select, 3);
    assert_eq!(meta.curve, vec![9, 8, 7]);
    assert_eq!(meta.split, 0);
    let mut m = vec![70u8, 0];
    m.extend(le16s(&[1, 2, 3, 4, 3]));
    let meta = parse_nef_meta(&m, false, 12).unwrap();
    assert_eq!(meta.huff_select, 2);
    assert_eq!(meta.curve.len(), 4096);
    assert_eq!(meta.curve[4095], 4095);
    // version 0x49 skips 2110 bytes that are not there
    assert!(parse_nef_meta(&[73, 0, 0, 0], false, 12).is_none());
}

#[test]
fn nef_color_balance_records() {
    let mut d = b"0205".to_vec();
    d.extend((0..300u32).map(|i| ((i * 7 + 3) % 256) as u8));
    assert_eq!(nef_wb1(&d, b"3001234\0xx", 0x12345678), Ok((43600, 65477, 21574, 9727)));
    let mut d2 = b"0204".to_vec();
    d2.extend((0..600u32).map(|i| ((i * 11 + 5) % 256) as u8));
    assert_eq!(nef_wb1(&d2, b"A1", 0xdeadbeef), Ok((21696, 10083, 30390, 60781)));
    let mut d3 = b"0100".to_vec();
    d3.extend((0..100u32).map(|i| i as u8));
    assert_eq!(nef_wb1(&d3, b"", 0), Ok((17477, 18505, 18505, 17991)));
    assert_eq!(nef_wb1(b"0300xxxx", b"", 0), Err(NefWbError::UnknownVersion(0x300)));
    assert_eq!(nef_wb1(b"01 0", b"", 0), Err(NefWbError::BadVersion));
    assert_eq!(nef_wb1(&d2[..500], b"1", 0), Err(NefWbError::Truncated));
    assert_eq!(nef_wb1(&d, b"99999999999999999999999", 0), Err(NefWbError::SerialOverflow));
    assert_eq!(serial_number(b"12a4\0"), Some(1274));
    assert_eq!(key_number(0x01020304), 4);
}
