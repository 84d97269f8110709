use rawler::bits::LookupTable;
use rawler::decoders::dcr::{decode_kodak65000, decode_segment};

#[test]
fn dcr_segment_refills_from_swapped_halves() {
    // lengths 3 and 4; the stream word is 0x1234350f
    let b = [0x43, 0x35, 0x0f, 0x12, 0x34];
    let (vals, end) = decode_segment(&b, 0, 2).unwrap();
    assert_eq!(vals, vec![7, -14]);
    assert_eq!(end, 5);
}

#[test]
fn dcr_segment_with_leading_word() {
    // four values: the stream starts with the word 0xabcd
    let b = [0x21, 0x43, 0xab, 0xcd];
    let (vals, end) = decode_segment(&b, 0, 4).unwrap();
    assert_eq!(vals, vec![1, 2, -6, 15]);
    assert_eq!(end, 4);
}

#[test]
fn dcr_segment_short_input() {
    assert!(decode_segment(&[0x43, 0x35, 0x0f], 0, 2).is_none());
    assert!(decode_segment(&[0x43], 1, 2).is_none());
    assert!(decode_segment(&[0x43, 0x35, 0x0f, 0x12, 0x34], 6, 2).is_none());
}

#[test]
fn dcr_kodak65000_small_image() {
    let t: Vec<u16> = (0..64).map(|i| i * 4).collect();
    let curve = LookupTable::new(&t);
    let buf = [
        20, 5, 146, 120, 16, 246, 16, 176, 188, 161, 30, 11, 233, 241, 79, 60, 166, 149, 232, 122, 83, 17,
        102, 12,
    ];
    let out = decode_kodak65000(&buf, &curve, 3, 2).unwrap();
    assert_eq!(out, vec![30, 2, 106, 0, 2, 0]);
}

#[test]
fn dcr_kodak65000_two_segments_per_row() {
    let t: Vec<u16> = (0..4096).map(|i| i * 2).collect();
    let curve = LookupTable::new(&t);
    let mut buf = vec![0x11u8; 128];
    for _ in 0..8 {
        buf.extend_from_slice(&[0xfe, 0xff, 0xff, 0xff]);
    }
    buf.extend_from_slice(&[0x21, 0x12, 0xff, 0xff]);
    let out = decode_kodak65000(&buf, &curve, 260, 1).unwrap();
    assert_eq!(out.len(), 260);
    assert_eq!(&out[..12], &[1, 1, 3, 3, 5, 5, 7, 7, 5, 9, 7, 11]);
    assert_eq!(&out[250..], &[219, 251, 221, 253, 223, 255, 1, 5, 7, 7]);
    // one byte short of the second segment
    assert!(decode_kodak65000(&buf[..163], &curve, 260, 1).is_none());
}

#[test]
fn dcr_kodak65000_negative_predictor() {
    let t: Vec<u16> = (0..16).collect();
    let curve = LookupTable::new(&t);
    // one value of length 1 whose bit is clear: a difference of -1
    assert!(decode_kodak65000(&[0x01, 0, 0, 0, 0], &curve, 1, 1).is_none());
    // a predictor past the end of the curve
    assert!(decode_kodak65000(&[0x05, 0x00, 0x1f, 0, 0], &curve, 1, 1).is_none());
}
