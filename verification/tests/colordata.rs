use rawler::decoders::cr2::colordata::{parse_colordata_bytes, parse_colordata_shorts, ColorDataError};

fn counting(n: usize) -> Vec<u16> {
    (0..n).map(|i| i as u16).collect()
}

#[test]
fn colordata_by_length() {
    let d = parse_colordata_shorts(&counting(582)).expect("layout of 582 values");
    assert_eq!(d.version, 0);
    assert_eq!(d.wb, [0x19, 0x1a, 0x1b, 0x1c]);
    assert_eq!(d.blacklevel, None);
    let d = parse_colordata_shorts(&counting(796)).expect("layout of 796 values");
    assert_eq!(d.wb, [0x3f, 0x40, 0x41, 0x42]);
    assert_eq!(d.blacklevel, Some([0xc4, 0xc5, 0xc6, 0xc7]));
    assert_eq!(d.normal_whitelevel, None);
}

#[test]
fn colordata_by_version() {
    let mut data = counting(1273);
    data[0] = 10;
    let d = parse_colordata_shorts(&data).expect("version 10");
    assert_eq!(d.version, 10);
    assert_eq!(d.wb, [0x3f, 0x40, 0x41, 0x42]);
    assert_eq!(d.blacklevel, Some([0x1df, 0x1e0, 0x1e1, 0x1e2]));
    assert_eq!(d.normal_whitelevel, Some(0x1e3));
    assert_eq!(d.specular_whitelevel, Some(0x1e4));
    let mut data = counting(1300);
    data[0] = 10;
    let d = parse_colordata_shorts(&data).expect("version 10");
    assert_eq!(d.blacklevel, Some([0x1f8, 0x1f9, 0x1fa, 0x1fb]));
    let mut data = counting(1400);
    data[0] = (-4i16) as u16;
    let d = parse_colordata_shorts(&data).expect("version -4");
    assert_eq!(d.version, -4);
    assert_eq!(d.wb, [0x47, 0x48, 0x49, 0x4a]);
    let mut data = counting(1000);
    data[0] = 99;
    assert_eq!(parse_colordata_shorts(&data), Err(ColorDataError::UnknownVersion(99)));
}

#[test]
fn colordata_bytes() {
    let mut values = counting(1387);
    values[0] = 0xfffc;
    let bytes: Vec<u8> = values.iter().flat_map(|v| v.to_le_bytes()).collect();
    let d = parse_colordata_bytes(&bytes).expect("version -4");
    assert_eq!(d.version, -4);
    assert_eq!(d.wb, [71, 72, 73, 74]);
    assert_eq!(d.blacklevel, Some([333, 334, 335, 336]));
    assert_eq!(d.normal_whitelevel, Some(1385));
    assert_eq!(d.specular_whitelevel, Some(1386));
    let five: Vec<u8> = vec![5, 0, 1, 0];
    assert_eq!(parse_colordata_bytes(&five), Err(ColorDataError::UnknownUndefinedVersion(5)));
}
