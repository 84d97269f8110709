use rawler::bits::LookupTable;
use rawler::decoders::cr2::stripes::{assemble_stripes, cr2_dimension, linearize, unstripe, unstripe_v2};
use rawler::decoders::cr2::firmware::firmware_version;
use rawler::decoders::cr2::sraw::{
    convert_to_rgb, interpolate_yuv, sraw_fits_all, sraw_hue, sraw_to_rgb, sraw_version, SrawParams,
    SrawVersion,
};

fn params(version: SrawVersion, c1: i32, c2: i32, c3: i32, hue: i32) -> SrawParams {
    SrawParams { version, c1, c2, c3, hue }
}

#[test]
fn sraw_versions_from_hints() {
    assert_eq!(sraw_version(true, true), SrawVersion::V0);
    assert_eq!(sraw_version(false, true), SrawVersion::V2);
    assert_eq!(sraw_version(false, false), SrawVersion::V1);
}

#[test]
fn sraw_hue_correction() {
    assert_eq!(sraw_hue(None, Some(2000000), 2, 2), 0);
    assert_eq!(sraw_hue(Some(0x80000281), None, 2, 2), 1);
    assert_eq!(sraw_hue(Some(0x80000218), Some(1000007), 2, 1), 0);
    assert_eq!(sraw_hue(Some(0x80000218), Some(1000006), 2, 1), 2);
    assert_eq!(sraw_hue(Some(0x80000100), None, 2, 2), 4);
}

#[test]
fn sraw_triples_to_rgb() {
    let neutral = params(SrawVersion::V0, 1024, 1024, 1024, 0);
    assert_eq!(sraw_to_rgb(&neutral, 4000, 16383, 16383), (13952, 13952, 13952));
    let v0 = params(SrawVersion::V0, 1500, 1024, 1800, 0);
    assert_eq!(sraw_to_rgb(&v0, 4000, 17000, 15000), (12333, 16248, 28863));
    let v1 = params(SrawVersion::V1, 1500, 1024, 1800, 2);
    assert_eq!(sraw_to_rgb(&v1, 4000, 17000, 15000), (0, 28460, 59146));
    let v2 = params(SrawVersion::V2, 1500, 1024, 1800, 0);
    assert_eq!(sraw_to_rgb(&v2, 4000, 17000, 15000), (15333, 18296, 32463));
    assert_eq!(sraw_to_rgb(&v2, 60000, 30000, 40000), (65535, 65535, 65535));
    let v1_plain = params(SrawVersion::V1, 1500, 1024, 1800, 0);
    assert_eq!(sraw_to_rgb(&v1_plain, 0, 0, 0), (0, 65535, 0));
}

#[test]
fn sraw_image_conversion_keeps_partial_triple() {
    let p = params(SrawVersion::V2, 1500, 1024, 1800, 0);
    let mut img = vec![4000, 17000, 15000, 60000, 30000, 40000, 7];
    assert!(sraw_fits_all(&img, &p));
    convert_to_rgb(&mut img, &p);
    assert_eq!(img, vec![15333, 18296, 32463, 65535, 65535, 65535, 7]);
}

#[test]
fn sraw_overflowing_coefficients_are_detected() {
    let p = params(SrawVersion::V1, 1500, 1024, 1800, 0);
    // a chroma far from its centre overflows the 32-bit transform
    assert!(!sraw_fits_all(&vec![4000, 65535, 65535], &p));
    assert!(sraw_fits_all(&vec![4000, 17000, 15000], &p));
    let big = params(SrawVersion::V2, i32::MAX, 1, 1, 0);
    assert!(!sraw_fits_all(&vec![4000, 17000, 15000], &big));
}

fn sample_image() -> Vec<u16> {
    (0..48u32).map(|i| ((i * i * 7) % 1000) as u16).collect()
}

#[test]
fn yuv_horizontal_interpolation() {
    let mut img = sample_image();
    interpolate_yuv(&mut img, 12, 2, 1);
    assert_eq!(
        img,
        vec![
            0, 7, 28, 63, 175, 238, 252, 343, 448, 567, 700, 847, 8, 183, 372, 575, 355, 586, 268, 527, 800,
            87, 388, 703, 32, 375, 732, 103, 551, 450, 300, 727, 168, 623, 92, 575, 72, 583, 108, 647, 763,
            330, 348, 943, 552, 175, 812, 463
        ]
    );
}

#[test]
fn yuv_both_interpolations() {
    let mut img = sample_image();
    interpolate_yuv(&mut img, 12, 2, 2);
    assert_eq!(
        img,
        vec![
            0, 7, 28, 63, 175, 238, 252, 343, 448, 567, 700, 847, 8, 191, 380, 575, 363, 344, 268, 535, 308,
            87, 396, 711, 32, 375, 732, 103, 551, 450, 300, 727, 168, 623, 92, 575, 72, 583, 108, 647, 763,
            330, 348, 943, 552, 175, 812, 463
        ]
    );
    let mut partial = sample_image()[..40].to_vec();
    interpolate_yuv(&mut partial, 12, 2, 2);
    assert_eq!(&partial[..], &img[..40]);
}

#[test]
fn yuv_vertical_interpolation_only() {
    let mut img = sample_image();
    interpolate_yuv(&mut img, 6, 1, 2);
    assert_eq!(
        img,
        vec![
            0, 7, 28, 63, 112, 175, 252, 95, 200, 567, 452, 99, 8, 183, 372, 575, 792, 23, 268, 527, 800, 87,
            388, 703, 32, 627, 484, 103, 240, 639, 300, 727, 168, 623, 92, 575, 72, 583, 108, 647, 200, 767,
            348, 943, 552, 175, 812, 463
        ]
    );
    let mut same = sample_image();
    interpolate_yuv(&mut same, 0, 1, 1);
    assert_eq!(same, sample_image());
}

#[test]
fn firmware_versions() {
    assert_eq!(firmware_version(b"Firmware Version 1.0.6"), Some(1000006));
    assert_eq!(firmware_version(b"2.1.0"), Some(2001000));
    assert_eq!(firmware_version(b"1.2.3.4"), Some(1002003004));
    assert_eq!(firmware_version(b"4.0.0.0"), Some(4000000000));
    assert_eq!(firmware_version(b"v007"), Some(7));
}

#[test]
fn firmware_versions_rejected() {
    assert_eq!(firmware_version(b""), None);
    assert_eq!(firmware_version(b"1..2"), None);
    assert_eq!(firmware_version(b"1.2."), None);
    assert_eq!(firmware_version(b"256.0"), None);
    assert_eq!(firmware_version(b"1.2.3.4.5"), None);
    assert_eq!(firmware_version(b"5.0.0.0"), None);
}

#[test]
fn cr2_stripes_side_by_side() {
    let src: Vec<u16> = (100..120).collect();
    // two stripes 3 wide and one 2 wide, 2 rows
    assert_eq!(
        unstripe(&src, 8, 2, (2, 3, 2), 1, 1),
        vec![100, 101, 102, 106, 107, 108, 112, 113, 103, 104, 105, 109, 110, 111, 114, 115]
    );
    // sRAW widths are per pixel: 2 / 2 * 3 samples; the last column stays 0
    assert_eq!(
        unstripe(&src, 7, 2, (1, 2, 2), 2, 3),
        vec![100, 101, 102, 106, 107, 108, 0, 103, 104, 105, 109, 110, 111, 0]
    );
}

#[test]
fn cr2_stripes_two_lines_at_a_time() {
    let src: Vec<u16> = (200..248).collect();
    assert_eq!(
        unstripe_v2(&src, 12, 6, 4, 2, 3),
        vec![
            200, 201, 202, 206, 207, 208, 212, 213, 214, 218, 219, 220, 203, 204, 205, 209, 210, 211, 215, 216,
            217, 221, 222, 223
        ]
    );
    assert_eq!(
        unstripe_v2(&src, 6, 12, 4, 2, 6),
        vec![
            200, 201, 202, 203, 204, 205, 224, 225, 226, 227, 228, 229, 206, 207, 208, 209, 210, 211, 230, 231,
            232, 233, 234, 235, 212, 213, 214, 215, 216, 217, 236, 237, 238, 239, 240, 241, 218, 219, 220, 221,
            222, 223, 242, 243, 244, 245, 246, 247
        ]
    );
}

#[test]
fn cr2_assembly_paths() {
    let src: Vec<u16> = (200..248).collect();
    assert_eq!(assemble_stripes(src.clone(), 12, 12, 4, None, 1, 1, 1), src);
    assert_eq!(assemble_stripes(src.clone(), 12, 12, 4, Some((0, 5, 12)), 1, 1, 1), src);
    assert_eq!(
        assemble_stripes(src.clone(), 12, 8, 2, Some((1, 3, 3)), 2, 2, 3),
        vec![200, 201, 202, 203, 204, 205, 0, 0, 212, 213, 214, 215, 216, 217, 0, 0]
    );
    let small: Vec<u16> = (100..120).collect();
    assert_eq!(
        assemble_stripes(small, 20, 8, 2, Some((2, 3, 2)), 1, 1, 1),
        vec![100, 101, 102, 106, 107, 108, 112, 113, 103, 104, 105, 109, 110, 111, 114, 115]
    );
}

#[test]
fn cr2_linearization_dithers() {
    let t: Vec<u16> = (0..64).map(|i| i * 3).collect();
    let table = LookupTable::new(&t);
    let mut px = vec![5, 7, 0, 63];
    linearize(&mut px, &table);
    assert_eq!(px, vec![13, 20, 0, 188]);
}

#[test]
fn cr2_dimensions() {
    assert_eq!(cr2_dimension(300, 50, 3, Some((90, 60)), false), (270, 60));
    // upright sRAW without stated size
    assert_eq!(cr2_dimension(30, 50, 3, None, false), (150, 10));
    assert_eq!(cr2_dimension(300, 50, 3, None, true), (300, 50));
    assert_eq!(cr2_dimension(300, 50, 1, None, true), (150, 100));
    assert_eq!(cr2_dimension(300, 50, 1, Some((1, 1)), false), (300, 50));
}
