use rawler::decoders::arw::curve::calculate_curve;
use rawler::decoders::arw::decrypt::{sony_decrypt, sony_decrypt_with_pad, sony_pad};

#[test]
fn sony_curve_small() {
    let curve = calculate_curve([0, 10, 20, 30, 40, 50]);
    let mut out = Vec::new();
    for v in [0u16, 5, 10, 15, 25, 35, 45, 50] {
        let mut rand = 12345;
        out.push(curve.dither(v, &mut rand));
    }
    assert_eq!(out, vec![0, 4, 9, 19, 48, 106, 222, 306]);
    assert_eq!(curve.len(), 51);
}

#[test]
fn sony_curve_typical() {
    let curve = calculate_curve([0, 1000, 1500, 2000, 3000, 4095]);
    assert_eq!(curve.len(), 4096);
    let mut out = Vec::new();
    for v in [0u16, 999, 1000, 1001, 2500, 4095] {
        let mut rand = 777;
        out.push(curve.dither(v, &mut rand));
    }
    assert_eq!(out, vec![0, 998, 999, 1002, 7999, 29519]);
}

#[test]
fn sony_curve_unsorted_points() {
    // the third segment starts again below the end of the second
    let curve = calculate_curve([0, 100, 50, 200, 300, 400]);
    let mut out = Vec::new();
    for v in [49u16, 50, 51, 52, 200, 201, 400] {
        let mut rand = 0;
        out.push(curve.dither(v, &mut rand));
    }
    assert_eq!(out.len(), 7);
    assert_eq!(out, vec![48, 49, 52, 56, 647, 654, 3046]);
}

#[test]
fn sony_pad_from_key() {
    let pad = sony_pad(0x12345678);
    assert_eq!(pad.len(), 127);
    assert_eq!(&pad[..5], &[924923289, 1658495766, 3870293503, 3788664393, 2736623821]);
    assert_eq!(pad[126], 4065048618);
}

#[test]
fn sony_decrypt_known_bytes() {
    let buf: Vec<u8> = (0..40).collect();
    let out = sony_decrypt(&buf, 4, 8, 0x12345678);
    if u32::from_be(1) != 1 {
        assert_eq!(out, vec![16, 192, 239, 188, 170, 59, 214, 118, 157, 52, 135, 65]);
    } else {
        assert_eq!(out, vec![191, 236, 195, 19, 117, 213, 56, 169, 66, 132, 55, 158]);
    }
    assert_eq!(sony_decrypt(&buf, 0, 1, 0).len(), 4);
}

#[test]
fn sony_decrypt_twice_gives_back_the_data() {
    let buf: Vec<u8> = (0..40).map(|x| (x * 37 + 5) as u8).collect();
    let pad = sony_pad(0xdeadbeef);
    let once = sony_decrypt_with_pad(&buf, 8, 11, &pad);
    assert_eq!(once.len(), 12);
    let twice = sony_decrypt_with_pad(&once, 0, 11, &pad);
    assert_eq!(twice, buf[8..20].to_vec());
}
